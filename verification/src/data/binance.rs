//! The price of bitcoin at the start of a window, from the Binance service.
use vstd::prelude::*;
use crate::double::Double;
use crate::failure;
use crate::failure::Failure;
use crate::json;
use crate::json::JsonTree;
use crate::text;

verus! {

/// The addresses that are tried, one after the other.
pub open spec fn default_base_urls() -> Seq<&'static str> {
    seq![
        "https://data-api.binance.vision/api/v3",
        "https://api.binance.com/api/v3",
        "https://api1.binance.com/api/v3",
        "https://api2.binance.com/api/v3",
        "https://api3.binance.com/api/v3",
    ]
}

/// An address without the slashes at its end.
pub fn normalize_base_url(value: &str) -> (r: String)
    ensures
        r@ == text::trim_end_of(value@, '/'),
{
    text::trim_end_matches(value, '/')
}

/// A list with more addresses added, each without the slashes at its end and none twice.
pub open spec fn with_urls(first: Seq<Seq<char>>, more: Seq<&str>) -> Seq<Seq<char>>
    decreases more.len(),
{
    if more.len() == 0 {
        first
    } else {
        let before = with_urls(first, more.drop_last());
        let url = text::trim_end_of(more.last()@, '/');
        if before.contains(url) {
            before
        } else {
            before.push(url)
        }
    }
}

/// The addresses to try: the preferred one first, where there is one.
pub open spec fn base_urls(preferred: Seq<char>) -> Seq<Seq<char>> {
    let url = text::trim_end_of(preferred, '/');
    with_urls(
        if url.len() == 0 {
            Seq::empty()
        } else {
            seq![url]
        },
        default_base_urls(),
    )
}

pub fn build_binance_base_urls(preferred_base_url: &str) -> (r: Vec<String>)
    ensures
        text::texts(r@) == base_urls(preferred_base_url@),
{
    let defaults = [
        "https://data-api.binance.vision/api/v3",
        "https://api.binance.com/api/v3",
        "https://api1.binance.com/api/v3",
        "https://api2.binance.com/api/v3",
        "https://api3.binance.com/api/v3",
    ];
    assert(defaults@ =~= default_base_urls());
    let preferred = normalize_base_url(preferred_base_url);
    let ghost url = preferred@;
    let ghost first = if url.len() == 0 {
        Seq::<Seq<char>>::empty()
    } else {
        seq![url]
    };
    let mut out: Vec<String> = Vec::new();
    if !preferred.as_str().is_empty() {
        out.push(preferred);
    }
    assert(text::texts(out@) =~= first);
    let mut i: usize = 0;
    assert(defaults@.take(0) =~= Seq::<&str>::empty());
    while i < defaults.len()
        invariant
            i <= defaults.len(),
            defaults@ == default_base_urls(),
            text::texts(out@) == with_urls(first, defaults@.take(i as int)),
        decreases defaults.len() - i,
    {
        assert(defaults@.take(i + 1).drop_last() =~= defaults@.take(i as int));
        assert(defaults@.take(i + 1).last() == defaults@[i as int]);
        let normalized = normalize_base_url(defaults[i]);
        if !text::holds(&out, normalized.as_str()) {
            let ghost before = out@;
            let ghost added = normalized@;
            out.push(normalized);
            assert(text::texts(out@) =~= text::texts(before).push(added));
        }
        i = i + 1;
    }
    assert(defaults@.take(defaults@.len() as int) =~= defaults@);
    out
}

proof fn lemma_with_urls(first: Seq<Seq<char>>, more: Seq<&str>)
    requires
        first.no_duplicates(),
    ensures
        with_urls(first, more).no_duplicates(),
        first.is_prefix_of(with_urls(first, more)),
        forall|i: int|
            0 <= i < more.len() ==> with_urls(first, more).contains(
                text::trim_end_of((#[trigger] more[i])@, '/'),
            ),
    decreases more.len(),
{
    if more.len() > 0 {
        let before = with_urls(first, more.drop_last());
        let after = with_urls(first, more);
        lemma_with_urls(first, more.drop_last());
        let url = text::trim_end_of(more.last()@, '/');
        assert forall|i: int| 0 <= i < more.len() implies after.contains(
            text::trim_end_of((#[trigger] more[i])@, '/'),
        ) by {
            let u = text::trim_end_of(more[i]@, '/');
            if i < more.len() - 1 {
                assert(more.drop_last()[i] == more[i]);
                assert(before.contains(u));
                let k = choose|k: int| 0 <= k < before.len() && before[k] == u;
                assert(after[k] == u);
            } else if !before.contains(url) {
                assert(after[before.len() as int] == u);
            }
        }
    }
}

/// No address is tried twice, every default one is tried, and the preferred one comes first.
pub proof fn base_urls_are_complete(preferred: Seq<char>)
    ensures
        base_urls(preferred).no_duplicates(),
        forall|i: int|
            0 <= i < default_base_urls().len() ==> base_urls(preferred).contains(
                text::trim_end_of((#[trigger] default_base_urls()[i])@, '/'),
            ),
        text::trim_end_of(preferred, '/').len() > 0 ==> base_urls(preferred).len() > 0 && base_urls(
            preferred,
        )[0] == text::trim_end_of(preferred, '/'),
{
    let url = text::trim_end_of(preferred, '/');
    let first = if url.len() == 0 {
        Seq::<Seq<char>>::empty()
    } else {
        seq![url]
    };
    lemma_with_urls(first, default_base_urls());
    if url.len() > 0 {
        assert(base_urls(preferred)[0] == first[0]);
    }
}

/// The start of a window in milliseconds, or the largest number there is.
pub open spec fn window_start_ms(window_start_sec: u64) -> u64 {
    if window_start_sec * 1000 > u64::MAX {
        u64::MAX
    } else {
        (window_start_sec * 1000) as u64
    }
}

/// Where the candle at the start of a window is found.
pub fn kline_path(window_start_sec: u64) -> (r: String)
    ensures
        r@ == "/klines?symbol=BTCUSDT&interval=1m&startTime="@ + text::decimal(
            window_start_ms(window_start_sec) as nat,
        ) + "&limit=1"@,
{
    let wide: u128 = window_start_sec as u128 * 1000;
    let millis: u64 = if wide > u64::MAX as u128 {
        u64::MAX
    } else {
        wide as u64
    };
    let mut out = "/klines?symbol=BTCUSDT&interval=1m&startTime=".to_owned();
    out.append(text::decimal_u64(millis).as_str());
    out.append("&limit=1");
    out
}

/// What is said of an address that answered with an HTTP status that is not a success.
pub fn http_failure(status_line: &str, base: &str) -> (r: String)
    ensures
        r@ == "HTTP "@ + status_line@ + " from "@ + base@,
{
    let mut out = "HTTP ".to_owned();
    out.append(status_line);
    out.append(" from ");
    out.append(base);
    out
}

/// A search for an address that answers.
pub struct BinanceSearch {
    bases: Vec<String>,
    next: usize,
    path: String,
    last_error: Option<Failure>,
}

#[verifier::ext_equal]
pub struct BinanceView {
    pub bases: Seq<Seq<char>>,
    pub next: int,
    pub path: Seq<char>,
    pub last_error: Option<Seq<Seq<char>>>,
}

/// What a search calls for.
pub enum BinanceAction {
    /// Fetch this address.
    Fetch(String),
    /// Every address failed.
    Failed(Failure),
}

/// Begins the search for an address that answers to a path.
pub fn fetch_from_any_binance(binance_base_url: &str, path: &str) -> (r: BinanceSearch)
    ensures
        r@ == (BinanceView {
            bases: base_urls(binance_base_url@),
            next: 0,
            path: path@,
            last_error: None,
        }),
{
    BinanceSearch {
        bases: build_binance_base_urls(binance_base_url),
        next: 0,
        path: path.to_owned(),
        last_error: None,
    }
}

impl BinanceSearch {
    pub closed spec fn view(self) -> BinanceView {
        BinanceView {
            bases: text::texts(self.bases@),
            next: self.next as int,
            path: self.path@,
            last_error: match self.last_error {
                Some(e) => Some(e@),
                None => None,
            },
        }
    }

    /// The next address to fetch, or the last error where none is left.
    pub fn advance(&mut self) -> (r: BinanceAction)
        requires
            0 <= old(self)@.next <= old(self)@.bases.len(),
        ensures
            match r {
                BinanceAction::Fetch(url) => old(self)@.next < old(self)@.bases.len() && url@
                    == old(self)@.bases[old(self)@.next] + old(self)@.path && final(self)@ == (
                BinanceView { next: old(self)@.next + 1, ..old(self)@ }),
                BinanceAction::Failed(e) => old(self)@.next == old(self)@.bases.len() && e@ == (
                match old(self)@.last_error {
                    Some(error) => error,
                    None => failure::plain("all binance endpoints failed"@),
                }) && final(self)@ == (BinanceView { last_error: None, ..old(self)@ }),
            },
    {
        if self.next < self.bases.len() {
            assert(text::texts(self.bases@)[self.next as int] == self.bases@[self.next as int]@);
            let mut url = self.bases[self.next].clone();
            url.append(self.path.as_str());
            self.next = self.next + 1;
            BinanceAction::Fetch(url)
        } else {
            let last = self.last_error.take();
            BinanceAction::Failed(
                match last {
                    Some(error) => error,
                    None => Failure::of("all binance endpoints failed"),
                },
            )
        }
    }

    /// An address answered: whether the answer is taken, which ends the search.
    pub fn on_answer(&mut self, status: u16, status_line: &str) -> (r: bool)
        requires
            0 < old(self)@.next <= old(self)@.bases.len(),
        ensures
            r == (200 <= status < 300),
            r ==> final(self)@ == old(self)@,
            !r ==> final(self)@ == (BinanceView {
                last_error: Some(
                    failure::plain(
                        "HTTP "@ + status_line@ + " from "@ + old(self)@.bases[old(self)@.next - 1],
                    ),
                ),
                ..old(self)@
            }),
    {
        if status >= 200 && status < 300 {
            return true;
        }
        let ghost k = self.next as int - 1;
        assert(text::texts(self.bases@)[k] == self.bases@[k]@);
        let message = http_failure(status_line, self.bases[self.next - 1].as_str());
        self.last_error = Some(Failure::from_text(message));
        false
    }

    /// An address could not be fetched.
    pub fn on_error(&mut self, error: Failure)
        ensures
            final(self)@ == (BinanceView { last_error: Some(error@), ..old(self)@ }),
    {
        self.last_error = Some(error);
    }
}

/// The first candle of an answer.
pub open spec fn first_candle(rows: JsonTree) -> Option<Seq<JsonTree>> {
    match rows {
        JsonTree::Array(items) => if items.len() > 0 {
            items[0].items()
        } else {
            None
        },
        _ => None,
    }
}

/// The text of the opening price in an answer.
pub open spec fn open_price_text(rows: JsonTree) -> Result<Seq<char>, Seq<char>> {
    match first_candle(rows) {
        Some(candle) => if candle.len() > 1 && candle[1].text() is Some {
            Ok(candle[1].text()->Some_0)
        } else {
            Err("invalid open price field from Binance"@)
        },
        None => Err("no candle found for window open price"@),
    }
}

/// The text of the opening price, in an answer that was read.
pub fn fetch_window_open_price(rows: &json::Json) -> (r: Result<String, String>)
    ensures
        match r {
            Ok(price) => open_price_text(rows@) == Ok::<Seq<char>, Seq<char>>(price@),
            Err(message) => open_price_text(rows@) == Err::<Seq<char>, Seq<char>>(message@),
        },
{
    match rows.as_array() {
        Some(items) => if items.len() > 0 {
            assert(rows@->Array_0[0] == items@[0]@);
            match items[0].as_array() {
                Some(candle) => {
                    if candle.len() > 1 {
                        assert(json::trees(candle@)[1] == candle@[1]@);
                        match candle[1].as_str() {
                            Some(price) => {
                                return Ok(price.to_owned());
                            },
                            None => {},
                        }
                    }
                    return Err("invalid open price field from Binance".to_owned());
                },
                None => {},
            }
        },
        None => {},
    }
    Err("no candle found for window open price".to_owned())
}

/// Refuses an opening price that is none.
pub fn check_open_price(price: Double) -> (r: Result<Double, String>)
    ensures
        match r {
            Ok(p) => p == price && price.finite() && price.positive(),
            Err(message) => !(price.finite() && price.positive()) && message@
                == "invalid BTC open price from Binance"@,
        },
{
    if price.is_finite() && price.is_positive() {
        Ok(price)
    } else {
        Err("invalid BTC open price from Binance".to_owned())
    }
}

/// Five addresses are tried besides the preferred one, and nothing else is: each of them once and
/// the preferred one first.
pub proof fn known_addresses_are_tried(preferred: Seq<char>)
    ensures
        default_base_urls().len() == 5,
        default_base_urls()[0]@ == "https://data-api.binance.vision/api/v3"@,
        default_base_urls()[1]@ == "https://api.binance.com/api/v3"@,
        default_base_urls()[2]@ == "https://api1.binance.com/api/v3"@,
        default_base_urls()[3]@ == "https://api2.binance.com/api/v3"@,
        default_base_urls()[4]@ == "https://api3.binance.com/api/v3"@,
        forall|i: int|
            0 <= i < base_urls(preferred).len() ==> {
                let url = #[trigger] base_urls(preferred)[i];
                url.len() > 0 && url.last() == '/' ==> false
            },
        text::trim_end_of(preferred, '/').len() > 0 ==> base_urls(preferred).len() > 0 && base_urls(
            preferred,
        )[0] == text::trim_end_of(preferred, '/'),
        base_urls(preferred).len() <= 6,
{
    base_urls_are_complete(preferred);
    text::repetitions_are_taken_off_the_end(preferred, '/');
    let url = text::trim_end_of(preferred, '/');
    let first = if url.len() == 0 {
        Seq::<Seq<char>>::empty()
    } else {
        seq![url]
    };
    lemma_no_slashes(first, default_base_urls());
}

proof fn lemma_no_slashes(first: Seq<Seq<char>>, more: Seq<&str>)
    requires
        forall|i: int|
            0 <= i < first.len() ==> (#[trigger] first[i]).len() > 0 ==> first[i].last() != '/',
    ensures
        forall|i: int|
            0 <= i < with_urls(first, more).len() ==> (#[trigger] with_urls(first, more)[i]).len()
                > 0 ==> with_urls(first, more)[i].last() != '/',
        with_urls(first, more).len() <= first.len() + more.len(),
    decreases more.len(),
{
    if more.len() > 0 {
        lemma_no_slashes(first, more.drop_last());
        text::repetitions_are_taken_off_the_end(more.last()@, '/');
    }
}

/// The start of a window is asked for in milliseconds.
pub proof fn window_is_asked_for_in_milliseconds(window_start_sec: u64)
    requires
        window_start_sec * 1000 <= u64::MAX,
    ensures
        window_start_ms(window_start_sec) == window_start_sec * 1000,
{
}

/// The opening price is the second field of the first candle, where that is a text.
pub proof fn opening_price_is_the_second_field(rows: JsonTree)
    ensures
        ({
            let candle = rows matches JsonTree::Array(items) && items.len() > 0 && items[0] is Array;
            let fields = rows->Array_0[0]->Array_0;
            let price = open_price_text(rows);
            &&& price is Ok <==> candle && fields.len() >= 2 && fields[1] is Text
            &&& price matches Ok(s) ==> fields[1] == JsonTree::Text(s)
            &&& !candle ==> price == Err::<Seq<char>, Seq<char>>(
                "no candle found for window open price"@,
            )
            &&& candle && !(fields.len() >= 2 && fields[1] is Text) ==> price == Err::<
                Seq<char>,
                Seq<char>,
            >("invalid open price field from Binance"@)
        }),
{
}

} // verus!

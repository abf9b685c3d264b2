//! Why a submission failed, and whether trying again is of use.
use vstd::prelude::*;
use crate::double::Double;
use crate::text;

verus! {

pub struct ClassifiedSubmitError {
    pub message: String,
    pub code: String,
    pub retryable: bool,
}

/// A message on one line, cut to a number of characters.
pub open spec fn compacted(message: Seq<char>, max_chars: int) -> Seq<char> {
    text::cut(text::joined(text::words(message), " "@), max_chars)
}

pub fn compact_error_message(message: &str, max_chars: usize) -> (r: String)
    ensures
        r@ == compacted(message@, max_chars as int),
{
    let words = text::split_whitespace(message);
    let collapsed = text::join(&words, " ");
    text::truncate_text(collapsed.as_str(), max_chars)
}

/// What points to trouble on the way to the exchange.
pub open spec fn retryable_hints() -> Seq<&'static str> {
    seq![
        "timeout",
        "timed out",
        "network",
        "socket",
        "econnreset",
        "enotfound",
        "eai_again",
        "temporarily unavailable",
        "service unavailable",
        "rate limit",
        "too many requests",
        "429",
    ]
}

/// What points to a request that the exchange will not take.
pub open spec fn non_retryable_hints() -> Seq<&'static str> {
    seq![
        "unauthorized",
        "forbidden",
        "signature",
        "invalid api",
        "api key",
        "passphrase",
        "insufficient",
        "not enough balance",
        "invalid order",
        "min size",
        "min_order_size",
    ]
}

pub open spec fn server_hints() -> Seq<&'static str> {
    seq!["http 5", "status 5", "code=5"]
}

pub open spec fn client_hints() -> Seq<&'static str> {
    seq!["400", "401", "403"]
}

/// The code of a message in lower case, and whether it is worth another try. Hints that promise
/// success for a later try go before those that do not.
pub open spec fn code_of(lower: Seq<char>) -> (Seq<char>, bool) {
    if text::contains_any(lower, retryable_hints()) {
        ("RETRYABLE_NETWORK"@, true)
    } else if text::contains_any(lower, server_hints()) {
        ("RETRYABLE_HTTP_5XX"@, true)
    } else if text::contains_any(lower, non_retryable_hints()) {
        ("NON_RETRYABLE_REQUEST"@, false)
    } else if text::contains_any(lower, client_hints()) {
        ("NON_RETRYABLE_HTTP_4XX"@, false)
    } else {
        ("UNKNOWN_SUBMIT_ERROR"@, false)
    }
}

/// Classifies a message by its lower-case form.
pub fn classify_lower_case(message: String, lower: &str) -> (r: ClassifiedSubmitError)
    ensures
        r.message@ == message@,
        (r.code@, r.retryable) == code_of(lower@),
{
    let retryable = [
        "timeout",
        "timed out",
        "network",
        "socket",
        "econnreset",
        "enotfound",
        "eai_again",
        "temporarily unavailable",
        "service unavailable",
        "rate limit",
        "too many requests",
        "429",
    ];
    let server = ["http 5", "status 5", "code=5"];
    let refused = [
        "unauthorized",
        "forbidden",
        "signature",
        "invalid api",
        "api key",
        "passphrase",
        "insufficient",
        "not enough balance",
        "invalid order",
        "min size",
        "min_order_size",
    ];
    let client = ["400", "401", "403"];
    assert(retryable@ =~= retryable_hints());
    assert(server@ =~= server_hints());
    assert(refused@ =~= non_retryable_hints());
    assert(client@ =~= client_hints());
    if text::has_any(lower, &retryable) {
        ClassifiedSubmitError { message, code: "RETRYABLE_NETWORK".to_owned(), retryable: true }
    } else if text::has_any(lower, &server) {
        ClassifiedSubmitError { message, code: "RETRYABLE_HTTP_5XX".to_owned(), retryable: true }
    } else if text::has_any(lower, &refused) {
        ClassifiedSubmitError {
            message,
            code: "NON_RETRYABLE_REQUEST".to_owned(),
            retryable: false,
        }
    } else if text::has_any(lower, &client) {
        ClassifiedSubmitError {
            message,
            code: "NON_RETRYABLE_HTTP_4XX".to_owned(),
            retryable: false,
        }
    } else {
        ClassifiedSubmitError {
            message,
            code: "UNKNOWN_SUBMIT_ERROR".to_owned(),
            retryable: false,
        }
    }
}

/// The compact message, its code, and whether it is worth another try.
pub open spec fn classified(message: Seq<char>) -> (Seq<char>, Seq<char>, bool) {
    let compact = compacted(message, 260);
    let (code, retryable) = code_of(text::lowercase(compact));
    (compact, code, retryable)
}

pub fn classify_submit_error_message(message: &str) -> (r: ClassifiedSubmitError)
    ensures
        (r.message@, r.code@, r.retryable) == classified(message@),
{
    let compact = compact_error_message(message, 260);
    let lower = text::lower(compact.as_str());
    classify_lower_case(compact, lower.as_str())
}

/// The digits of the balance that a rejection in lower case states.
pub open spec fn balance_digits(lower: Seq<char>) -> Option<Seq<char>> {
    match text::after_first(lower, "balance:"@) {
        Some(tail) => {
            let digits = text::leading_digits(text::trim_start(tail));
            if digits.len() == 0 {
                None
            } else {
                Some(digits)
            }
        },
        None => None,
    }
}

pub fn balance_digits_in_lower_case(lower: &str) -> (r: Option<String>)
    ensures
        match r {
            Some(d) => balance_digits(lower@) == Some(d@),
            None => balance_digits(lower@) is None,
        },
{
    match text::rest_after(lower, "balance:") {
        Some(tail) => {
            let digits = text::digits_at_start(tail.as_str());
            if digits.as_str().is_empty() {
                None
            } else {
                Some(digits)
            }
        },
        None => None,
    }
}

/// The balance that a rejection states, in millionths of a share.
pub fn parse_balance_amount_from_rejection(message: &str) -> (r: Option<String>)
    ensures
        match r {
            Some(d) => balance_digits(text::lowercase(message@)) == Some(d@),
            None => balance_digits(text::lowercase(message@)) is None,
        },
{
    let lower = text::lower(message);
    balance_digits_in_lower_case(lower.as_str())
}

/// The size to go on with after a rejection in lower case, where the balance behind it calls for
/// a smaller one: the size that the balance bears, unless it is nothing or no smaller.
pub open spec fn limited_size(
    current_size: Double,
    lower: Seq<char>,
    parsed_balance: Double,
    safe_size: Double,
) -> Option<(Double, Double)> {
    if !text::contains(lower, "not enough balance"@) || balance_digits(lower) is None {
        None
    } else if safe_size.at_most(Double { bits: 0 }) || current_size.at_most(safe_size) {
        None
    } else {
        Some((parsed_balance, safe_size))
    }
}

pub fn limit_size_in_lower_case(
    current_size: Double,
    lower: &str,
    parsed_balance: Double,
    safe_size: Double,
) -> (r: Option<(Double, Double)>)
    ensures
        r == limited_size(current_size, lower@, parsed_balance, safe_size),
{
    if !text::has(lower, "not enough balance") {
        return None;
    }
    match balance_digits_in_lower_case(lower) {
        Some(_) => {},
        None => {
            return None;
        },
    }
    if safe_size.le(Double::zero()) || current_size.le(safe_size) {
        None
    } else {
        Some((parsed_balance, safe_size))
    }
}

/// The balance and the reduced size after a rejection for want of balance. `parsed_balance` is
/// the stated balance in shares and `safe_size` what it bears, a step below and on the size grid.
pub fn apply_balance_limited_sell_size(
    current_size: Double,
    rejection_message: &str,
    parsed_balance: Double,
    safe_size: Double,
) -> (r: Option<(Double, Double)>)
    ensures
        r == limited_size(
            current_size,
            text::lowercase(rejection_message@),
            parsed_balance,
            safe_size,
        ),
{
    let lower = text::lower(rejection_message);
    limit_size_in_lower_case(current_size, lower.as_str(), parsed_balance, safe_size)
}

/// A size that a rejection leads to is positive and below the one that was rejected, where both
/// are numbers.
pub proof fn limited_size_shrinks(
    current_size: Double,
    lower: Seq<char>,
    parsed_balance: Double,
    safe_size: Double,
)
    requires
        !current_size.nan(),
        !safe_size.nan(),
    ensures
        limited_size(current_size, lower, parsed_balance, safe_size) matches Some((b, s))
            ==> s.positive() && s.below(current_size),
{
}

/// Trouble on the way to the exchange, or inside it, is worth another try, whatever else the
/// message says; what the exchange refuses is not, and neither is what nobody knows.
pub proof fn trouble_on_the_way_is_worth_another_try(lower: Seq<char>)
    ensures
        ({
            let network = text::contains(lower, "timeout"@)
                || text::contains(lower, "timed out"@)
                || text::contains(lower, "network"@)
                || text::contains(lower, "socket"@)
                || text::contains(lower, "econnreset"@)
                || text::contains(lower, "enotfound"@)
                || text::contains(lower, "eai_again"@)
                || text::contains(lower, "temporarily unavailable"@)
                || text::contains(lower, "service unavailable"@)
                || text::contains(lower, "rate limit"@)
                || text::contains(lower, "too many requests"@)
                || text::contains(lower, "429"@);
            let server = text::contains(lower, "http 5"@)
                || text::contains(lower, "status 5"@)
                || text::contains(lower, "code=5"@);
            &&& network || server <==> code_of(lower).1
            &&& network ==> code_of(lower).0 == "RETRYABLE_NETWORK"@
            &&& server && !network ==> code_of(lower).0 == "RETRYABLE_HTTP_5XX"@
        }),
{
    assert(retryable_hints()[0]@ == "timeout"@);
    assert(retryable_hints()[1]@ == "timed out"@);
    assert(retryable_hints()[2]@ == "network"@);
    assert(retryable_hints()[3]@ == "socket"@);
    assert(retryable_hints()[4]@ == "econnreset"@);
    assert(retryable_hints()[5]@ == "enotfound"@);
    assert(retryable_hints()[6]@ == "eai_again"@);
    assert(retryable_hints()[7]@ == "temporarily unavailable"@);
    assert(retryable_hints()[8]@ == "service unavailable"@);
    assert(retryable_hints()[9]@ == "rate limit"@);
    assert(retryable_hints()[10]@ == "too many requests"@);
    assert(retryable_hints()[11]@ == "429"@);
    assert(server_hints()[0]@ == "http 5"@);
    assert(server_hints()[1]@ == "status 5"@);
    assert(server_hints()[2]@ == "code=5"@);
    if text::contains_any(lower, retryable_hints()) {
        let i = choose|i: int|
            0 <= i < retryable_hints().len() && text::contains(
                lower,
                (#[trigger] retryable_hints()[i])@,
            );
        assert(0 <= i < 12);
    }
    if text::contains_any(lower, server_hints()) {
        let i = choose|i: int|
            0 <= i < server_hints().len() && text::contains(lower, (#[trigger] server_hints()[i])@);
        assert(0 <= i < 3);
    }
}

/// A refusal that is no trouble on the way is coded by what it names: a request that cannot be
/// taken, or an answer of the kind that says so; anything else stays unknown.
pub proof fn refusals_are_told_apart(lower: Seq<char>)
    requires
        !code_of(lower).1,
    ensures
        ({
            let refused = text::contains(lower, "unauthorized"@)
                || text::contains(lower, "forbidden"@)
                || text::contains(lower, "signature"@)
                || text::contains(lower, "invalid api"@)
                || text::contains(lower, "api key"@)
                || text::contains(lower, "passphrase"@)
                || text::contains(lower, "insufficient"@)
                || text::contains(lower, "not enough balance"@)
                || text::contains(lower, "invalid order"@)
                || text::contains(lower, "min size"@)
                || text::contains(lower, "min_order_size"@);
            let client = text::contains(lower, "400"@)
                || text::contains(lower, "401"@)
                || text::contains(lower, "403"@);
            &&& refused ==> code_of(lower).0 == "NON_RETRYABLE_REQUEST"@
            &&& client && !refused ==> code_of(lower).0 == "NON_RETRYABLE_HTTP_4XX"@
            &&& !client && !refused ==> code_of(lower).0 == "UNKNOWN_SUBMIT_ERROR"@
        }),
{
    assert(non_retryable_hints()[0]@ == "unauthorized"@);
    assert(non_retryable_hints()[1]@ == "forbidden"@);
    assert(non_retryable_hints()[2]@ == "signature"@);
    assert(non_retryable_hints()[3]@ == "invalid api"@);
    assert(non_retryable_hints()[4]@ == "api key"@);
    assert(non_retryable_hints()[5]@ == "passphrase"@);
    assert(non_retryable_hints()[6]@ == "insufficient"@);
    assert(non_retryable_hints()[7]@ == "not enough balance"@);
    assert(non_retryable_hints()[8]@ == "invalid order"@);
    assert(non_retryable_hints()[9]@ == "min size"@);
    assert(non_retryable_hints()[10]@ == "min_order_size"@);
    assert(client_hints()[0]@ == "400"@);
    assert(client_hints()[1]@ == "401"@);
    assert(client_hints()[2]@ == "403"@);
    if text::contains_any(lower, non_retryable_hints()) {
        let i = choose|i: int|
            0 <= i < non_retryable_hints().len() && text::contains(
                lower,
                (#[trigger] non_retryable_hints()[i])@,
            );
        assert(0 <= i < 11);
    }
    if text::contains_any(lower, client_hints()) {
        let i = choose|i: int|
            0 <= i < client_hints().len() && text::contains(lower, (#[trigger] client_hints()[i])@);
        assert(0 <= i < 3);
    }
}

/// The size of a sale is cut exactly where the exchange says that the balance does not bear it and
/// states the balance, and where that bears something, and less than was tried. It is cut to just
/// what the balance bears.
pub proof fn size_is_cut_to_what_the_balance_bears(
    current_size: Double,
    lower: Seq<char>,
    parsed_balance: Double,
    safe_size: Double,
)
    requires
        current_size.finite(),
        safe_size.finite(),
    ensures
        ({
            let cut = limited_size(current_size, lower, parsed_balance, safe_size);
            &&& cut is Some <==> text::contains(lower, "not enough balance"@) && balance_digits(
                lower,
            ) is Some && 0 < safe_size.units() < current_size.units()
            &&& cut is Some ==> cut == Some((parsed_balance, safe_size))
        }),
{
    crate::double::sign_is_numeric(safe_size);
    crate::double::order_is_numeric(current_size, safe_size);
    assert((Double { bits: 0 }).units() == 0);
    crate::double::order_is_numeric(safe_size, Double { bits: 0 });
}

/// The balance of a rejection is a run of digits, and never an empty one.
pub proof fn stated_balance_is_a_number(lower: Seq<char>)
    ensures
        balance_digits(lower) matches Some(digits) ==> digits.len() > 0 && text::after_first(
            lower,
            "balance:"@,
        ) is Some,
        text::after_first(lower, "balance:"@) is None ==> balance_digits(lower) is None,
{
}

/// A message is cut to 260 characters before it is judged, and what is kept is its beginning.
pub proof fn judged_message_is_cut(message: Seq<char>)
    ensures
        classified(message).0.len() <= 260,
        classified(message).0.is_prefix_of(text::joined(text::words(message), " "@)),
{
    let line = text::joined(text::words(message), " "@);
    assert(text::cut(line, 260).len() <= 260);
    assert(text::cut(line, 260).is_prefix_of(line));
}

/// The balance that a message states is the run of digits behind the word, after any white space: what
/// follows it is no digit.
pub proof fn stated_balance_stands_behind_its_word(
    before: Seq<char>,
    digits: Seq<char>,
    after: Seq<char>,
    lower: Seq<char>,
)
    requires
        lower == before + "balance:"@ + digits + after,
        !text::contains(before + "balance:"@.take(7), "balance:"@),
        forall|i: int| 0 <= i < digits.len() ==> '0' <= #[trigger] digits[i] <= '9',
        digits.len() > 0,
        after.len() > 0 ==> !('0' <= after[0] <= '9'),
    ensures
        balance_digits(lower) == Some(digits),
{
    reveal_strlit("balance:");
    let p = "balance:"@;
    let n = before.len() as int;
    assert(lower.subrange(n, n + 8) =~= p);
    assert(text::occurs_at(lower, p, n));
    text::rest_begins_behind_the_first_occurrence(lower, p);
    let rest = text::after_first(lower, p)->Some_0;
    let i = lower.len() - rest.len() - 8;
    assert(i <= n);
    if i < n {
        assert(lower.subrange(i, i + 8) =~= p) by {
            assert(lower == lower.take(i) + p + rest);
            assert((lower.take(i) + p + rest).subrange(i, i + 8) =~= p);
        }
        let head = before + p.take(7);
        assert(head.subrange(i, i + 8) =~= lower.subrange(i, i + 8));
        assert(text::occurs_at(head, p, i));
    }
    assert(rest =~= digits + after) by {
        assert(lower.skip(n + 8) =~= digits + after);
        assert(lower == lower.take(i) + p + rest);
        assert((lower.take(i) + p + rest).skip(i + 8) =~= rest);
    }
    assert(text::is_digit(digits[0]));
    assert(rest[0] == digits[0]);
    assert(text::trim_start(rest) == rest);
    text::leading_digits_are_all_the_digits(rest);
    let d = text::leading_digits(rest);
    if d.len() < digits.len() {
        assert(rest[d.len() as int] == digits[d.len() as int]);
    }
    if d.len() > digits.len() {
        assert(rest[digits.len() as int] == after[0]);
        assert('0' <= rest[digits.len() as int] <= '9');
    }
    assert(d =~= digits) by {
        assert(d == rest.subrange(0, d.len() as int));
    }
}

/// A message is judged by its words: the white space between them does not count, and the code is that
/// of the message in lower case.
pub proof fn message_is_judged_by_its_words(a: Seq<char>, b: Seq<char>)
    requires
        text::words(a) == text::words(b),
    ensures
        classified(a) == classified(b),
        classified(a).1 == code_of(text::lowercase(classified(a).0)).0,
        classified(a).2 == code_of(text::lowercase(classified(a).0)).1,
        text::joined(text::words(a), " "@).len() <= 260 ==> classified(a).0 == text::joined(
            text::words(a),
            " "@,
        ),
{
}

} // verus!

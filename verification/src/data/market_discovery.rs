//! Finding the market of a window, and whether it is resolved, in what the Gamma service answers.
use vstd::prelude::*;
use crate::double::{Double, CENT_BITS, ONE_BITS};
use crate::failure;
use crate::failure::Failure;
use crate::json;
use crate::json::{Json, JsonNumber, JsonTree, NumberTree, Reading, ReadingTree};
use crate::text;
use crate::types::MarketSide;

verus! {

pub struct GammaResolutionProbe {
    pub resolved: bool,
    pub yes_payout: Option<Double>,
    pub no_payout: Option<Double>,
    pub error: Option<String>,
}

// ---------------------------------------------------------------------------
// Lists that come as lists or as text
// ---------------------------------------------------------------------------

/// The texts among the items, trimmed and without those that are empty then.
pub open spec fn texts_among(items: Seq<JsonTree>) -> Seq<Seq<char>>
    decreases items.len(),
{
    if items.len() == 0 {
        Seq::empty()
    } else {
        let head = texts_among(items.drop_last());
        match items.last() {
            JsonTree::Text(s) => if text::is_blank(s) {
                head
            } else {
                head.push(text::trimmed(s))
            },
            _ => head,
        }
    }
}

fn collect_texts(items: &Vec<Json>) -> (r: Vec<String>)
    ensures
        text::texts(r@) == texts_among(json::trees(items@)),
{
    let mut out: Vec<String> = Vec::new();
    let mut i: usize = 0;
    assert(text::texts(out@) =~= Seq::<Seq<char>>::empty());
    while i < items.len()
        invariant
            i <= items.len(),
            text::texts(out@) == texts_among(json::trees(items@).take(i as int)),
        decreases items.len() - i,
    {
        let ghost before = out@;
        proof {
            let all = json::trees(items@);
            assert(all.take(i + 1).drop_last() =~= all.take(i as int));
            assert(all.take(i + 1).last() == items@[i as int]@);
        }
        match items[i].as_str() {
            Some(s) => {
                let t = text::trim(s);
                if !t.is_empty() {
                    out.push(t.to_owned());
                    assert(text::texts(out@) =~= text::texts(before).push(t@));
                }
            },
            None => {},
        }
        i = i + 1;
    }
    assert(json::trees(items@).take(items@.len() as int) =~= json::trees(items@));
    out
}

/// A piece of a list in text form: without white space and then quotation marks around it.
pub open spec fn unquoted(piece: Seq<char>) -> Seq<char> {
    text::trim_end_of(text::trim_start_of(text::trimmed(piece), '"'), '"')
}

/// The pieces that are not empty once they are unquoted.
pub open spec fn unquoted_pieces(pieces: Seq<Seq<char>>) -> Seq<Seq<char>>
    decreases pieces.len(),
{
    if pieces.len() == 0 {
        Seq::empty()
    } else {
        let head = unquoted_pieces(pieces.drop_last());
        let last = unquoted(pieces.last());
        if last.len() == 0 {
            head
        } else {
            head.push(last)
        }
    }
}

fn split_unquoted(list: &str) -> (r: Vec<String>)
    ensures
        text::texts(r@) == unquoted_pieces(text::pieces(list@, ',')),
{
    let parts = text::split(list, ',');
    let mut out: Vec<String> = Vec::new();
    let mut i: usize = 0;
    assert(text::texts(out@) =~= Seq::<Seq<char>>::empty());
    while i < parts.len()
        invariant
            i <= parts.len(),
            text::texts(out@) == unquoted_pieces(text::texts(parts@).take(i as int)),
        decreases parts.len() - i,
    {
        let ghost before = out@;
        proof {
            let all = text::texts(parts@);
            assert(all.take(i + 1).drop_last() =~= all.take(i as int));
            assert(all.take(i + 1).last() == parts@[i as int]@);
        }
        let piece = text::trim_matches(text::trim(parts[i].as_str()), '"');
        if !piece.as_str().is_empty() {
            let ghost added = piece@;
            out.push(piece);
            assert(text::texts(out@) =~= text::texts(before).push(added));
        }
        i = i + 1;
    }
    assert(text::texts(parts@).take(parts@.len() as int) =~= text::texts(parts@));
    out
}

/// The texts of a list in text form, given what JSON makes of it: a JSON list, or pieces between
/// commas.
pub open spec fn listed_texts(list: Seq<char>, as_json: Option<JsonTree>) -> Seq<Seq<char>> {
    match as_json {
        Some(JsonTree::Array(items)) => texts_among(items),
        _ => unquoted_pieces(text::pieces(list, ',')),
    }
}

/// Reads a list in text form, given what JSON makes of it.
pub fn texts_of_list(list: &str, as_json: Option<&Json>) -> (r: Vec<String>)
    ensures
        text::texts(r@) == listed_texts(
            list@,
            match as_json {
                Some(j) => Some(j@),
                None => None,
            },
        ),
{
    match as_json {
        Some(j) => match j.as_array() {
            Some(items) => {
                return collect_texts(items);
            },
            None => {},
        },
        None => {},
    }
    split_unquoted(list)
}

/// The texts of a list.
pub open spec fn string_array(raw: JsonTree) -> Seq<Seq<char>> {
    match raw {
        JsonTree::Array(items) => texts_among(items),
        JsonTree::Text(s) => if text::is_blank(s) {
            Seq::empty()
        } else {
            listed_texts(s, json::parsed(s))
        },
        _ => Seq::empty(),
    }
}

pub fn parse_string_array(raw: &Json) -> (r: Vec<String>)
    ensures
        text::texts(r@) == string_array(raw@),
{
    match raw.as_array() {
        Some(items) => {
            return collect_texts(items);
        },
        None => {},
    }
    match raw.as_str() {
        Some(s) => if !text::blank(s) {
            return match json::parse(s) {
                Some(j) => texts_of_list(s, Some(&j)),
                None => texts_of_list(s, None),
            };
        },
        None => {},
    }
    let none: Vec<String> = Vec::new();
    assert(text::texts(none@) =~= Seq::<Seq<char>>::empty());
    none
}

/// The number that an item of a list is, where it is one.
pub open spec fn item_number(item: JsonTree) -> Option<ReadingTree> {
    match item {
        JsonTree::Text(_) => None,
        _ => json::reading_of(item),
    }
}

/// The numbers that a list of items holds, with nothing for an item that is none.
pub open spec fn item_numbers(items: Seq<JsonTree>) -> Seq<Option<ReadingTree>> {
    Seq::new(items.len(), |i: int| item_number(items[i]))
}

/// The pieces of a list in text form, each to be read as a number.
pub open spec fn piece_numbers(list: Seq<char>) -> Seq<Option<ReadingTree>> {
    let pieces = text::pieces(list, ',');
    Seq::new(pieces.len(), |i: int| Some(ReadingTree::Text(unquoted(pieces[i]))))
}

/// The views of a list of readings.
pub open spec fn readings(v: Seq<Option<Reading>>) -> Seq<Option<ReadingTree>> {
    Seq::new(v.len(), |i: int| json::reading_view(v[i]))
}

/// The numbers of a list in text form. What JSON makes of the text may be a text again, a
/// shorter one, that is read in the same way.
pub open spec fn text_numbers(list: Seq<char>) -> Seq<Option<ReadingTree>>
    decreases list.len(),
{
    if text::is_blank(list) {
        Seq::empty()
    } else {
        match json::parsed(list) {
            Some(JsonTree::Array(items)) => item_numbers(items),
            Some(JsonTree::Text(shorter)) => if shorter.len() < list.len() {
                text_numbers(shorter)
            } else {
                Seq::empty()
            },
            Some(_) => Seq::empty(),
            None => piece_numbers(list),
        }
    }
}

/// The numbers of a list.
pub open spec fn number_array(raw: JsonTree) -> Seq<Option<ReadingTree>> {
    match raw {
        JsonTree::Array(items) => item_numbers(items),
        JsonTree::Text(s) => text_numbers(s),
        _ => Seq::empty(),
    }
}

fn collect_numbers(items: &Vec<Json>) -> (r: Vec<Option<Reading>>)
    ensures
        readings(r@) == item_numbers(json::trees(items@)),
{
    let mut out: Vec<Option<Reading>> = Vec::new();
    let mut i: usize = 0;
    while i < items.len()
        invariant
            i <= items.len(),
            readings(out@) == item_numbers(json::trees(items@)).take(i as int),
        decreases items.len() - i,
    {
        let ghost before = out@;
        let reading = match items[i].as_str() {
            Some(_) => None,
            None => json::value_to_f64(&items[i]),
        };
        let ghost added = json::reading_view(reading);
        out.push(reading);
        proof {
            let all = item_numbers(json::trees(items@));
            assert(all[i as int] == added);
            assert(readings(out@) =~= readings(before).push(added));
            assert(all.take(i + 1) =~= all.take(i as int).push(added));
        }
        i = i + 1;
    }
    assert(item_numbers(json::trees(items@)).take(items@.len() as int) =~= item_numbers(
        json::trees(items@),
    ));
    out
}

fn split_numbers(list: &str) -> (r: Vec<Option<Reading>>)
    ensures
        readings(r@) == piece_numbers(list@),
{
    let parts = text::split(list, ',');
    let mut out: Vec<Option<Reading>> = Vec::new();
    let mut i: usize = 0;
    while i < parts.len()
        invariant
            i <= parts.len(),
            text::texts(parts@) == text::pieces(list@, ','),
            readings(out@) == piece_numbers(list@).take(i as int),
        decreases parts.len() - i,
    {
        let ghost before = out@;
        let piece = text::trim_matches(text::trim(parts[i].as_str()), '"');
        let ghost added = Some(ReadingTree::Text(piece@));
        out.push(Some(Reading::Text(piece)));
        proof {
            assert(text::pieces(list@, ',')[i as int] == parts@[i as int]@);
            assert(readings(out@) =~= readings(before).push(added));
            assert(piece_numbers(list@).take(i + 1) =~= piece_numbers(list@).take(i as int).push(
                added,
            ));
        }
        i = i + 1;
    }
    assert(piece_numbers(list@).take(parts@.len() as int) =~= piece_numbers(list@));
    out
}

fn numbers_of_text(list: &str) -> (r: Vec<Option<Reading>>)
    ensures
        readings(r@) == text_numbers(list@),
    decreases list@.len(),
{
    let none: Vec<Option<Reading>> = Vec::new();
    assert(readings(none@) =~= Seq::<Option<ReadingTree>>::empty());
    if text::blank(list) {
        return none;
    }
    match json::parse(list) {
        Some(j) => {
            match j.as_array() {
                Some(items) => {
                    return collect_numbers(items);
                },
                None => {},
            }
            match j.as_str() {
                Some(shorter) => {
                    return numbers_of_text(shorter);
                },
                None => {},
            }
            none
        },
        None => split_numbers(list),
    }
}

pub fn parse_number_array(raw: &Json) -> (r: Vec<Option<Reading>>)
    ensures
        readings(r@) == number_array(raw@),
{
    match raw.as_array() {
        Some(items) => {
            return collect_numbers(items);
        },
        None => {},
    }
    match raw.as_str() {
        Some(s) => {
            return numbers_of_text(s);
        },
        None => {},
    }
    let none: Vec<Option<Reading>> = Vec::new();
    assert(readings(none@) =~= Seq::<Option<ReadingTree>>::empty());
    none
}

// ---------------------------------------------------------------------------
// Outcomes
// ---------------------------------------------------------------------------

pub open spec fn yes_aliases() -> Seq<&'static str> {
    seq!["yes", "up", "higher", "above", "true"]
}

pub open spec fn no_aliases() -> Seq<&'static str> {
    seq!["no", "down", "lower", "below", "false"]
}

pub open spec fn is_alias(word: Seq<char>, aliases: Seq<&str>) -> bool {
    exists|i: int| 0 <= i < aliases.len() && word == (#[trigger] aliases[i])@
}

/// Where the first of several words is an alias.
pub open spec fn alias_index(words: Seq<Seq<char>>, aliases: Seq<&str>) -> Option<int>
    decreases words.len(),
{
    if words.len() == 0 {
        None
    } else if is_alias(words[0], aliases) {
        Some(0)
    } else {
        match alias_index(words.drop_first(), aliases) {
            Some(i) => Some(i + 1),
            None => None,
        }
    }
}

proof fn lemma_alias_index(words: Seq<Seq<char>>, aliases: Seq<&str>, k: int)
    requires
        0 <= k <= words.len(),
        forall|j: int| 0 <= j < k ==> !is_alias(#[trigger] words[j], aliases),
        k == words.len() || is_alias(words[k], aliases),
    ensures
        alias_index(words, aliases) == (if k == words.len() {
            None
        } else {
            Some(k)
        }),
    decreases k,
{
    if k > 0 {
        assert(!is_alias(words[0], aliases));
        let rest = words.drop_first();
        assert forall|j: int| 0 <= j < k - 1 implies !is_alias(#[trigger] rest[j], aliases) by {
            assert(rest[j] == words[j + 1]);
        }
        lemma_alias_index(rest, aliases, k - 1);
    }
}

fn find_alias(words: &Vec<String>, aliases: &[&str]) -> (r: Option<usize>)
    ensures
        match r {
            Some(i) => alias_index(text::texts(words@), aliases@) == Some(i as int) && i
                < words.len(),
            None => alias_index(text::texts(words@), aliases@) is None,
        },
{
    let mut i: usize = 0;
    while i < words.len()
        invariant
            i <= words.len(),
            forall|j: int| 0 <= j < i ==> !is_alias(#[trigger] text::texts(words@)[j], aliases@),
        decreases words.len() - i,
    {
        if text::text_in(words[i].as_str(), aliases) {
            proof {
                lemma_alias_index(text::texts(words@), aliases@, i as int);
            }
            return Some(i);
        }
        i = i + 1;
    }
    proof {
        lemma_alias_index(text::texts(words@), aliases@, words@.len() as int);
    }
    None
}

/// Where the two outcomes stand among words in lower case.
pub open spec fn outcome_indices(words: Seq<Seq<char>>) -> Option<(int, int)> {
    match (alias_index(words, yes_aliases()), alias_index(words, no_aliases())) {
        (Some(yes), Some(no)) => if yes == no {
            None
        } else {
            Some((yes, no))
        },
        _ => None,
    }
}

/// Finds the two outcomes among words in lower case.
pub fn indices_in_lower_case(words: &Vec<String>) -> (r: Option<(usize, usize)>)
    ensures
        match r {
            Some((yes, no)) => outcome_indices(text::texts(words@)) == Some((yes as int, no as int))
                && yes < words.len() && no < words.len(),
            None => outcome_indices(text::texts(words@)) is None,
        },
{
    let yes_words = ["yes", "up", "higher", "above", "true"];
    let no_words = ["no", "down", "lower", "below", "false"];
    assert(yes_words@ =~= yes_aliases());
    assert(no_words@ =~= no_aliases());
    let yes = find_alias(words, &yes_words);
    let no = find_alias(words, &no_words);
    match (yes, no) {
        (Some(y), Some(n)) => if y == n {
            None
        } else {
            Some((y, n))
        },
        _ => None,
    }
}

/// Words in lower case.
pub open spec fn lowered(words: Seq<Seq<char>>) -> Seq<Seq<char>> {
    Seq::new(words.len(), |i: int| text::lowercase(words[i]))
}

pub fn yes_no_indices(outcomes: &Vec<String>) -> (r: Option<(usize, usize)>)
    ensures
        match r {
            Some((yes, no)) => outcome_indices(lowered(text::texts(outcomes@))) == Some(
                (yes as int, no as int),
            ),
            None => outcome_indices(lowered(text::texts(outcomes@))) is None,
        },
{
    let mut words: Vec<String> = Vec::new();
    let mut i: usize = 0;
    while i < outcomes.len()
        invariant
            i <= outcomes.len(),
            text::texts(words@) == lowered(text::texts(outcomes@)).take(i as int),
        decreases outcomes.len() - i,
    {
        let ghost before = words@;
        let word = text::lower(outcomes[i].as_str());
        let ghost added = word@;
        words.push(word);
        proof {
            let all = lowered(text::texts(outcomes@));
            assert(all[i as int] == added);
            assert(text::texts(words@) =~= text::texts(before).push(added));
            assert(all.take(i + 1) =~= all.take(i as int).push(added));
        }
        i = i + 1;
    }
    assert(lowered(text::texts(outcomes@)).take(outcomes@.len() as int) =~= lowered(
        text::texts(outcomes@),
    ));
    indices_in_lower_case(&words)
}

// ---------------------------------------------------------------------------
// Condition ids
// ---------------------------------------------------------------------------

/// The condition id that a field holds, in lower case.
pub open spec fn condition_of(raw: Option<JsonTree>) -> Option<Seq<char>> {
    match raw {
        Some(JsonTree::Text(s)) => {
            let id = text::lowercase(text::trimmed(s));
            if text::bytes32(id) {
                Some(id)
            } else {
                None
            }
        },
        _ => None,
    }
}

pub fn normalize_condition_id(raw: Option<&Json>) -> (r: Option<String>)
    ensures
        json::text_view(r) == condition_of(match raw {
            Some(v) => Some(v@),
            None => None,
        }),
{
    match raw {
        Some(v) => match v.as_str() {
            Some(s) => {
                let id = text::lower(text::trim(s));
                if text::is_bytes32(id.as_str()) {
                    Some(id)
                } else {
                    None
                }
            },
            None => None,
        },
        None => None,
    }
}

/// The condition id of a market.
pub open spec fn market_condition(market: JsonTree) -> Option<Seq<char>> {
    match condition_of(market.member("conditionId"@)) {
        Some(id) => Some(id),
        None => match condition_of(market.member("condition_id"@)) {
            Some(id) => Some(id),
            None => condition_of(market.member("market"@)),
        },
    }
}

pub fn extract_condition_id(market: &Json) -> (r: Option<String>)
    ensures
        json::text_view(r) == market_condition(market@),
{
    let first = normalize_condition_id(market.get("conditionId"));
    if first.is_some() {
        return first;
    }
    let second = normalize_condition_id(market.get("condition_id"));
    if second.is_some() {
        return second;
    }
    normalize_condition_id(market.get("market"))
}

// ---------------------------------------------------------------------------
// Markets
// ---------------------------------------------------------------------------

/// A market as it was found, with its prices still to be read.
pub struct MarketDraft {
    pub slug: String,
    pub condition_id: String,
    pub yes_token_id: String,
    pub no_token_id: String,
    pub question: String,
    pub yes_price: Option<Reading>,
    pub no_price: Option<Reading>,
}

#[verifier::ext_equal]
pub struct DraftView {
    pub slug: Seq<char>,
    pub condition_id: Seq<char>,
    pub yes_token_id: Seq<char>,
    pub no_token_id: Seq<char>,
    pub question: Seq<char>,
    pub yes_price: Option<ReadingTree>,
    pub no_price: Option<ReadingTree>,
}

impl MarketDraft {
    pub open spec fn view(self) -> DraftView {
        DraftView {
            slug: self.slug@,
            condition_id: self.condition_id@,
            yes_token_id: self.yes_token_id@,
            no_token_id: self.no_token_id@,
            question: self.question@,
            yes_price: json::reading_view(self.yes_price),
            no_price: json::reading_view(self.no_price),
        }
    }
}

/// What a search for a market came to.
pub enum MarketScan {
    Found(MarketDraft),
    NotFound,
    /// A market was found that has no token for one of its two outcomes.
    TokenMissing,
}

#[verifier::ext_equal]
pub enum ScanView {
    Found(DraftView),
    NotFound,
    TokenMissing,
}

impl MarketScan {
    pub open spec fn view(self) -> ScanView {
        match self {
            MarketScan::Found(draft) => ScanView::Found(draft@),
            MarketScan::NotFound => ScanView::NotFound,
            MarketScan::TokenMissing => ScanView::TokenMissing,
        }
    }
}

/// A member that is to be read as a list.
pub open spec fn member_or_null(market: JsonTree, key: Seq<char>) -> JsonTree {
    match market.member(key) {
        Some(v) => v,
        None => JsonTree::Null,
    }
}

/// What one market of an event comes to; nothing found where it is to be passed over.
pub open spec fn market_scan(market: JsonTree, slug: Seq<char>, event_question: Seq<char>) -> ScanView {
    let tokens = string_array(member_or_null(market, "clobTokenIds"@));
    let outcomes = string_array(member_or_null(market, "outcomes"@));
    let prices = number_array(member_or_null(market, "outcomePrices"@));
    match outcome_indices(lowered(outcomes)) {
        Some((yes, no)) => if tokens.len() < 2 || prices.len() <= yes || prices.len() <= no {
            ScanView::NotFound
        } else {
            match market_condition(market) {
                Some(condition_id) => if tokens.len() <= yes || tokens.len() <= no {
                    ScanView::TokenMissing
                } else {
                    ScanView::Found(
                        DraftView {
                            slug,
                            condition_id,
                            yes_token_id: tokens[yes],
                            no_token_id: tokens[no],
                            question: match market.member_text("question"@) {
                                Some(q) => if text::is_blank(q) {
                                    event_question
                                } else {
                                    text::trimmed(q)
                                },
                                None => event_question,
                            },
                            yes_price: prices[yes],
                            no_price: prices[no],
                        },
                    )
                },
                None => ScanView::NotFound,
            }
        },
        None => ScanView::NotFound,
    }
}

/// The first of several markets that is not passed over.
pub open spec fn markets_scan(
    markets: Seq<JsonTree>,
    slug: Seq<char>,
    event_question: Seq<char>,
) -> ScanView
    decreases markets.len(),
{
    if markets.len() == 0 {
        ScanView::NotFound
    } else {
        match market_scan(markets[0], slug, event_question) {
            ScanView::NotFound => markets_scan(markets.drop_first(), slug, event_question),
            found => found,
        }
    }
}

/// The name of an event, and that of the window it was asked for where it has none.
pub open spec fn event_slug(event: JsonTree, fallback: Seq<char>) -> Seq<char> {
    match event.member_text("slug"@) {
        Some(s) => if text::is_blank(s) {
            fallback
        } else {
            text::trimmed(s)
        },
        None => fallback,
    }
}

pub open spec fn event_question(event: JsonTree) -> Seq<char> {
    match event.member_text("title"@) {
        Some(s) => text::trimmed(s),
        None => match event.member_text("question"@) {
            Some(s) => text::trimmed(s),
            None => Seq::empty(),
        },
    }
}

pub open spec fn event_scan(event: JsonTree, fallback_slug: Seq<char>) -> ScanView {
    match event.member("markets"@) {
        Some(JsonTree::Array(markets)) => markets_scan(
            markets,
            event_slug(event, fallback_slug),
            event_question(event),
        ),
        _ => ScanView::NotFound,
    }
}

fn list_member(market: &Json, key: &str) -> (r: Vec<String>)
    ensures
        text::texts(r@) == string_array(member_or_null(market@, key@)),
{
    match market.get(key) {
        Some(v) => parse_string_array(v),
        None => parse_string_array(&Json::Null),
    }
}

fn numbers_member(market: &Json, key: &str) -> (r: Vec<Option<Reading>>)
    ensures
        readings(r@) == number_array(member_or_null(market@, key@)),
{
    match market.get(key) {
        Some(v) => parse_number_array(v),
        None => parse_number_array(&Json::Null),
    }
}

fn copy_reading(r: &Option<Reading>) -> (c: Option<Reading>)
    ensures
        json::reading_view(c) == json::reading_view(*r),
{
    match r {
        Some(Reading::Unsigned(n)) => Some(Reading::Unsigned(*n)),
        Some(Reading::Negative(n)) => Some(Reading::Negative(*n)),
        Some(Reading::Double(d)) => Some(Reading::Double(*d)),
        Some(Reading::Text(s)) => Some(Reading::Text(s.clone())),
        None => None,
    }
}

fn scan_market(market: &Json, slug: &str, question: &str) -> (r: MarketScan)
    ensures
        r@ == market_scan(market@, slug@, question@),
{
    let tokens = list_member(market, "clobTokenIds");
    let outcomes = list_member(market, "outcomes");
    let prices = numbers_member(market, "outcomePrices");
    let (yes, no) = match yes_no_indices(&outcomes) {
        Some(indices) => indices,
        None => {
            return MarketScan::NotFound;
        },
    };
    assert(readings(prices@).len() == prices@.len());
    assert(text::texts(tokens@).len() == tokens@.len());
    if tokens.len() < 2 || prices.len() <= yes || prices.len() <= no {
        return MarketScan::NotFound;
    }
    let condition_id = match extract_condition_id(market) {
        Some(id) => id,
        None => {
            return MarketScan::NotFound;
        },
    };
    if tokens.len() <= yes || tokens.len() <= no {
        return MarketScan::TokenMissing;
    }
    let own = match market.get_str("question") {
        Some(q) => {
            let t = text::trim(q);
            if t.is_empty() {
                question.to_owned()
            } else {
                t.to_owned()
            }
        },
        None => question.to_owned(),
    };
    MarketScan::Found(
        MarketDraft {
            slug: slug.to_owned(),
            condition_id,
            yes_token_id: tokens[yes].clone(),
            no_token_id: tokens[no].clone(),
            question: own,
            yes_price: copy_reading(&prices[yes]),
            no_price: copy_reading(&prices[no]),
        },
    )
}

/// The first market of an event that can be traded.
pub fn normalize_discovered_market(event: &Json, fallback_slug: &str) -> (r: MarketScan)
    ensures
        r@ == event_scan(event@, fallback_slug@),
{
    let slug = match event.get_str("slug") {
        Some(s) => {
            let t = text::trim(s);
            if t.is_empty() {
                fallback_slug.to_owned()
            } else {
                t.to_owned()
            }
        },
        None => fallback_slug.to_owned(),
    };
    let question = match event.get_str("title") {
        Some(s) => text::trim(s).to_owned(),
        None => match event.get_str("question") {
            Some(s) => text::trim(s).to_owned(),
            None => {
                let none = String::new();
                assert(none@ =~= Seq::<char>::empty());
                none
            },
        },
    };
    let markets = match event.get("markets") {
        Some(v) => match v.as_array() {
            Some(markets) => markets,
            None => {
                return MarketScan::NotFound;
            },
        },
        None => {
            return MarketScan::NotFound;
        },
    };
    let mut i: usize = 0;
    assert(json::trees(markets@).skip(0) =~= json::trees(markets@));
    while i < markets.len()
        invariant
            i <= markets.len(),
            markets_scan(json::trees(markets@), slug@, question@) == markets_scan(
                json::trees(markets@).skip(i as int),
                slug@,
                question@,
            ),
            slug@ == event_slug(event@, fallback_slug@),
            question@ == event_question(event@),
            event@.member("markets"@) == Some(JsonTree::Array(json::trees(markets@))),
        decreases markets.len() - i,
    {
        proof {
            let rest = json::trees(markets@).skip(i as int);
            assert(rest[0] == markets@[i as int]@);
            assert(rest.drop_first() =~= json::trees(markets@).skip(i + 1));
        }
        match scan_market(&markets[i], slug.as_str(), question.as_str()) {
            MarketScan::NotFound => {},
            found => {
                return found;
            },
        }
        i = i + 1;
    }
    MarketScan::NotFound
}

/// The first event that has a market to trade.
pub open spec fn events_scan(events: Seq<JsonTree>, slug: Seq<char>) -> ScanView
    decreases events.len(),
{
    if events.len() == 0 {
        ScanView::NotFound
    } else {
        match event_scan(events[0], slug) {
            ScanView::NotFound => events_scan(events.drop_first(), slug),
            found => found,
        }
    }
}

/// The market of a window, among the events that are filed under its name.
pub fn fetch_market_by_slug(events: &Vec<Json>, slug: &str) -> (r: MarketScan)
    ensures
        r@ == events_scan(json::trees(events@), slug@),
{
    let mut i: usize = 0;
    assert(json::trees(events@).skip(0) =~= json::trees(events@));
    while i < events.len()
        invariant
            i <= events.len(),
            events_scan(json::trees(events@), slug@) == events_scan(
                json::trees(events@).skip(i as int),
                slug@,
            ),
        decreases events.len() - i,
    {
        proof {
            let rest = json::trees(events@).skip(i as int);
            assert(rest[0] == events@[i as int]@);
            assert(rest.drop_first() =~= json::trees(events@).skip(i + 1));
        }
        match normalize_discovered_market(&events[i], slug) {
            MarketScan::NotFound => {},
            found => {
                return found;
            },
        }
        i = i + 1;
    }
    MarketScan::NotFound
}

/// The events that an answer of the service holds: none where there is nothing under the name,
/// and none where the answer is no list. `status` is the HTTP status and `status_line` its words.
pub fn fetch_events_by_slug(status: u16, status_line: &str, body: &str) -> (r: Result<
    Vec<Json>,
    Failure,
>)
    ensures
        match r {
            Ok(events) => {
                ||| status == 404 && json::trees(events@) == Seq::<JsonTree>::empty()
                ||| 200 <= status < 300 && (json::parsed(body@) matches Some(tree) && json::trees(
                    events@,
                ) == (match tree {
                    JsonTree::Array(items) => items,
                    _ => Seq::empty(),
                }))
            },
            Err(e) => {
                ||| status != 404 && !(200 <= status < 300) && e@ == failure::plain(
                    "Gamma fetch failed with HTTP "@ + status_line@,
                )
                ||| 200 <= status < 300 && json::parsed(body@) is None && e@
                    == failure::undecoded(json::syntax_error(body@))
            },
        },
{
    if status == 404 {
        let none: Vec<Json> = Vec::new();
        assert(json::trees(none@) =~= Seq::<JsonTree>::empty());
        return Ok(none);
    }
    if status < 200 || status >= 300 {
        let mut message = "Gamma fetch failed with HTTP ".to_owned();
        message.append(status_line);
        return Err(Failure::from_text(message));
    }
    match json::read(body) {
        Ok(Json::Array(items)) => {
            proof {
                json::lemma_array_tree(items);
            }
            Ok(items)
        },
        Ok(_) => {
            let none: Vec<Json> = Vec::new();
            assert(json::trees(none@) =~= Seq::<JsonTree>::empty());
            Ok(none)
        },
        Err(syntax) => Err(Failure::undecoded(syntax)),
    }
}

/// The side that the prices of a market favour.
pub open spec fn favoured(yes: Option<Double>, no: Option<Double>) -> Option<MarketSide> {
    match (yes, no) {
        (Some(y), Some(n)) => if n.below(y) {
            Some(MarketSide::Up)
        } else if y.below(n) {
            Some(MarketSide::Down)
        } else {
            None
        },
        _ => None,
    }
}

pub fn fallback_resolve_from_gamma(yes_price: Option<Double>, no_price: Option<Double>) -> (r:
    Option<MarketSide>)
    ensures
        r == favoured(yes_price, no_price),
{
    match (yes_price, no_price) {
        (Some(y), Some(n)) => if n.lt(y) {
            Some(MarketSide::Up)
        } else if y.lt(n) {
            Some(MarketSide::Down)
        } else {
            None
        },
        _ => None,
    }
}

// ---------------------------------------------------------------------------
// Resolution
// ---------------------------------------------------------------------------

/// The truth value of a word in lower case, with the short forms that flags use.
pub open spec fn flag_word(word: Seq<char>) -> Option<bool> {
    if word == "1"@ || word == "true"@ || word == "yes"@ || word == "y"@ {
        Some(true)
    } else if word == "0"@ || word == "false"@ || word == "no"@ || word == "n"@ {
        Some(false)
    } else {
        None
    }
}

pub fn parse_flag_word(word: &str) -> (r: Option<bool>)
    ensures
        r == flag_word(word@),
{
    if text::text_eq(word, "1") || text::text_eq(word, "true") || text::text_eq(word, "yes")
        || text::text_eq(word, "y") {
        Some(true)
    } else if text::text_eq(word, "0") || text::text_eq(word, "false") || text::text_eq(word, "no")
        || text::text_eq(word, "n") {
        Some(false)
    } else {
        None
    }
}

/// The truth value of a flag: a boolean, an integer that is not zero, or a word.
pub open spec fn flag_like(value: Option<JsonTree>) -> Option<bool> {
    match value {
        Some(JsonTree::Bool(b)) => Some(b),
        Some(JsonTree::Number(NumberTree::Unsigned(n))) => if n <= i64::MAX {
            Some(n != 0)
        } else {
            None
        },
        Some(JsonTree::Number(NumberTree::Negative(n))) => Some(n != 0),
        Some(JsonTree::Text(s)) => flag_word(text::lowercase(text::trimmed(s))),
        _ => None,
    }
}

pub fn parse_bool_like(value: Option<&Json>) -> (r: Option<bool>)
    ensures
        r == flag_like(match value {
            Some(v) => Some(v@),
            None => None,
        }),
{
    match value {
        Some(Json::Bool(b)) => Some(*b),
        Some(Json::Number(JsonNumber::Unsigned(n))) => if *n <= i64::MAX as u64 {
            Some(*n != 0)
        } else {
            None
        },
        Some(Json::Number(JsonNumber::Negative(n))) => Some(*n != 0),
        Some(Json::Text(s)) => {
            let word = text::lower(text::trim(s.as_str()));
            parse_flag_word(word.as_str())
        },
        _ => None,
    }
}

/// What a market says of its resolution, with its payouts still to be read.
pub struct ResolutionDraft {
    pub flagged: bool,
    pub yes_payout: Option<Reading>,
    pub no_payout: Option<Reading>,
}

#[verifier::ext_equal]
pub struct ResolutionView {
    pub flagged: bool,
    pub yes_payout: Option<ReadingTree>,
    pub no_payout: Option<ReadingTree>,
}

impl ResolutionDraft {
    pub open spec fn view(self) -> ResolutionView {
        ResolutionView {
            flagged: self.flagged,
            yes_payout: json::reading_view(self.yes_payout),
            no_payout: json::reading_view(self.no_payout),
        }
    }
}

/// Whether the flags of a market say that it is resolved.
pub open spec fn flags_say_resolved(market: JsonTree) -> bool {
    ||| flag_like(market.member("resolved"@)) == Some(true)
    ||| flag_like(market.member("closed"@)) == Some(true)
    ||| flag_like(market.member("active"@)) == Some(false)
}

pub open spec fn market_resolution(market: JsonTree) -> ResolutionView {
    let outcomes = string_array(member_or_null(market, "outcomes"@));
    let prices = number_array(member_or_null(market, "outcomePrices"@));
    let (yes_payout, no_payout) = match outcome_indices(lowered(outcomes)) {
        Some((yes, no)) => if prices.len() > yes && prices.len() > no {
            (prices[yes], prices[no])
        } else {
            (None, None)
        },
        None => (None, None),
    };
    ResolutionView { flagged: flags_say_resolved(market), yes_payout, no_payout }
}

fn says(flag: Option<bool>, value: bool) -> (r: bool)
    ensures
        r == (flag == Some(value)),
{
    match flag {
        Some(b) => b == value,
        None => false,
    }
}

pub fn derive_resolution_from_market(market: &Json) -> (r: ResolutionDraft)
    ensures
        r@ == market_resolution(market@),
{
    let outcomes = list_member(market, "outcomes");
    let prices = numbers_member(market, "outcomePrices");
    let resolved = parse_bool_like(market.get("resolved"));
    let closed = parse_bool_like(market.get("closed"));
    let active = parse_bool_like(market.get("active"));
    let flagged = says(resolved, true) || says(closed, true) || says(active, false);
    assert(readings(prices@).len() == prices@.len());
    match yes_no_indices(&outcomes) {
        Some((yes, no)) => if prices.len() > yes && prices.len() > no {
            return ResolutionDraft {
                flagged,
                yes_payout: copy_reading(&prices[yes]),
                no_payout: copy_reading(&prices[no]),
            };
        },
        None => {},
    }
    ResolutionDraft { flagged, yes_payout: None, no_payout: None }
}

/// Whether a market is resolved: its flags say so, or one side pays out whole and both together
/// pay about one. `distance` is how far the sum of the payouts is from one.
pub open spec fn is_resolved(
    flagged: bool,
    yes: Option<Double>,
    no: Option<Double>,
    distance: Double,
) -> bool {
    flagged || (yes is Some && no is Some && distance.at_most(Double { bits: CENT_BITS }) && (
    yes->Some_0.bits == ONE_BITS || no->Some_0.bits == ONE_BITS))
}

pub fn resolved_by_payouts(
    flagged: bool,
    yes: Option<Double>,
    no: Option<Double>,
    distance: Double,
) -> (r: bool)
    ensures
        r == is_resolved(flagged, yes, no, distance),
{
    match (yes, no) {
        (Some(y), Some(n)) => flagged || (distance.le(Double { bits: CENT_BITS }) && (y.bits
            == ONE_BITS || n.bits == ONE_BITS)),
        _ => flagged,
    }
}

/// What a look for the resolution of a market came to.
pub enum ProbeStep {
    /// The market was found; its payouts are still to be read.
    Found(ResolutionDraft),
    /// There is nothing to read.
    Ended(GammaResolutionProbe),
}

/// A probe that found nothing, and why.
pub open spec fn is_failed_probe(probe: GammaResolutionProbe, why: Seq<char>) -> bool {
    &&& !probe.resolved
    &&& probe.yes_payout is None
    &&& probe.no_payout is None
    &&& json::text_view(probe.error) == Some(why)
}

fn failed_probe(why: String) -> (r: GammaResolutionProbe)
    ensures
        is_failed_probe(r, why@),
{
    GammaResolutionProbe { resolved: false, yes_payout: None, no_payout: None, error: Some(why) }
}

/// The condition id to look for, in lower case, where it is one.
pub fn probe_condition(condition_id: &str) -> (r: Result<String, GammaResolutionProbe>)
    ensures
        ({
            let id = text::lowercase(text::trimmed(condition_id@));
            match r {
                Ok(normalized) => text::bytes32(id) && normalized@ == id,
                Err(probe) => !text::bytes32(id) && is_failed_probe(
                    probe,
                    "invalid conditionId "@ + condition_id@,
                ),
            }
        }),
{
    let id = text::lower(text::trim(condition_id));
    if text::is_bytes32(id.as_str()) {
        Ok(id)
    } else {
        let mut why = "invalid conditionId ".to_owned();
        why.append(condition_id);
        Err(failed_probe(why))
    }
}

/// The first of several markets with a condition id.
pub open spec fn market_with(markets: Seq<JsonTree>, condition: Seq<char>) -> Option<JsonTree>
    decreases markets.len(),
{
    if markets.len() == 0 {
        None
    } else if market_condition(markets[0]) == Some(condition) {
        Some(markets[0])
    } else {
        market_with(markets.drop_first(), condition)
    }
}

/// The first market with a condition id, over all events.
pub open spec fn market_in_events(events: Seq<JsonTree>, condition: Seq<char>) -> Option<JsonTree>
    decreases events.len(),
{
    if events.len() == 0 {
        None
    } else {
        let here = match events[0].member("markets"@) {
            Some(JsonTree::Array(markets)) => market_with(markets, condition),
            _ => None,
        };
        match here {
            Some(market) => Some(market),
            None => market_in_events(events.drop_first(), condition),
        }
    }
}

fn find_market<'a>(markets: &'a Vec<Json>, condition: &str) -> (r: Option<&'a Json>)
    ensures
        match r {
            Some(m) => market_with(json::trees(markets@), condition@) == Some(m@),
            None => market_with(json::trees(markets@), condition@) is None,
        },
{
    let mut i: usize = 0;
    assert(json::trees(markets@).skip(0) =~= json::trees(markets@));
    while i < markets.len()
        invariant
            i <= markets.len(),
            market_with(json::trees(markets@), condition@) == market_with(
                json::trees(markets@).skip(i as int),
                condition@,
            ),
        decreases markets.len() - i,
    {
        proof {
            let rest = json::trees(markets@).skip(i as int);
            assert(rest[0] == markets@[i as int]@);
            assert(rest.drop_first() =~= json::trees(markets@).skip(i + 1));
        }
        match extract_condition_id(&markets[i]) {
            Some(id) => if text::text_eq(id.as_str(), condition) {
                return Some(&markets[i]);
            },
            None => {},
        }
        i = i + 1;
    }
    None
}

/// Looks for the resolution of a market among the events filed under its name. `condition_id` is
/// the id as it was given and `normalized` its form in lower case.
pub fn probe_gamma_resolution_by_slug(
    events: &Vec<Json>,
    condition_id: &str,
    normalized: &str,
) -> (r: ProbeStep)
    ensures
        match r {
            ProbeStep::Found(draft) => events@.len() > 0 && (market_in_events(
                json::trees(events@),
                normalized@,
            ) matches Some(market) && draft@ == market_resolution(market)),
            ProbeStep::Ended(probe) => if events@.len() == 0 {
                is_failed_probe(probe, "gamma event not found by slug"@)
            } else {
                market_in_events(json::trees(events@), normalized@) is None && is_failed_probe(
                    probe,
                    "conditionId "@ + condition_id@ + " not found in gamma slug payload"@,
                )
            },
        },
{
    if events.len() == 0 {
        return ProbeStep::Ended(failed_probe("gamma event not found by slug".to_owned()));
    }
    let mut i: usize = 0;
    assert(json::trees(events@).skip(0) =~= json::trees(events@));
    while i < events.len()
        invariant
            i <= events.len(),
            events.len() > 0,
            market_in_events(json::trees(events@), normalized@) == market_in_events(
                json::trees(events@).skip(i as int),
                normalized@,
            ),
        decreases events.len() - i,
    {
        proof {
            let rest = json::trees(events@).skip(i as int);
            assert(rest[0] == events@[i as int]@);
            assert(rest.drop_first() =~= json::trees(events@).skip(i + 1));
        }
        match events[i].get("markets") {
            Some(v) => match v.as_array() {
                Some(markets) => match find_market(markets, normalized) {
                    Some(market) => {
                        return ProbeStep::Found(derive_resolution_from_market(market));
                    },
                    None => {},
                },
                None => {},
            },
            None => {},
        }
        i = i + 1;
    }
    let mut why = "conditionId ".to_owned();
    why.append(condition_id);
    why.append(" not found in gamma slug payload");
    ProbeStep::Ended(failed_probe(why))
}

/// The outcome of a probe whose payouts were read. `distance` is how far their sum is from one.
pub fn finish_probe(
    flagged: bool,
    yes_payout: Option<Double>,
    no_payout: Option<Double>,
    distance: Double,
) -> (r: GammaResolutionProbe)
    ensures
        r.resolved == is_resolved(flagged, yes_payout, no_payout, distance),
        r.yes_payout == yes_payout,
        r.no_payout == no_payout,
        r.error is None,
{
    GammaResolutionProbe {
        resolved: resolved_by_payouts(flagged, yes_payout, no_payout, distance),
        yes_payout,
        no_payout,
        error: None,
    }
}

/// A market is flagged as resolved exactly where it says that it is resolved, that it is closed, or
/// that it is not active. One that says it is active, and nothing of the other two or that they do
/// not hold, is not.
pub proof fn flags_tell_a_resolved_market(members: Seq<(Seq<char>, JsonTree)>)
    requires
        json::lookup(members, "resolved"@) matches Some(v) ==> v is Bool,
        json::lookup(members, "closed"@) matches Some(v) ==> v is Bool,
        json::lookup(members, "active"@) matches Some(v) ==> v is Bool,
    ensures
        market_resolution(JsonTree::Object(members)).flagged <==> {
            ||| json::lookup(members, "resolved"@) == Some(JsonTree::Bool(true))
            ||| json::lookup(members, "closed"@) == Some(JsonTree::Bool(true))
            ||| json::lookup(members, "active"@) == Some(JsonTree::Bool(false))
        },
{
}

/// A flag may come as a boolean, as an integer or as a word: zero, `false`, `no`, `n` and `0` deny
/// it, other integers, `true`, `yes`, `y` and `1` affirm it, and nothing else says anything.
pub proof fn flags_come_in_several_forms(value: JsonTree)
    ensures
        value matches JsonTree::Bool(b) ==> flag_like(Some(value)) == Some(b),
        value matches JsonTree::Number(NumberTree::Unsigned(n)) ==> (n <= i64::MAX ==> flag_like(
            Some(value),
        ) == Some(n > 0)),
        value matches JsonTree::Number(NumberTree::Negative(n)) ==> (n < 0 ==> flag_like(
            Some(value),
        ) == Some(true)),
        value matches JsonTree::Text(s) ==> {
            let word = text::lowercase(text::trimmed(s));
            &&& flag_like(Some(value)) == Some(true) <==> word == "1"@ || word == "true"@ || word
                == "yes"@ || word == "y"@
            &&& flag_like(Some(value)) == Some(false) <==> word == "0"@ || word == "false"@ || word
                == "no"@ || word == "n"@
        },
        value is Null || value is Array || value is Object ==> flag_like(Some(value)) is None,
        flag_like(None) is None,
{
    reveal_strlit("1");
    reveal_strlit("true");
    reveal_strlit("yes");
    reveal_strlit("y");
    reveal_strlit("0");
    reveal_strlit("false");
    reveal_strlit("no");
    reveal_strlit("n");
    assert("1"@.len() == 1);
    assert("true"@.len() == 4);
    assert("yes"@.len() == 3);
    assert("y"@.len() == 1);
    assert("0"@.len() == 1);
    assert("false"@.len() == 5);
    assert("no"@.len() == 2);
    assert("n"@.len() == 1);
    assert("1"@[0] != "y"@[0]);
    assert("1"@[0] != "0"@[0]);
    assert("1"@[0] != "n"@[0]);
    assert("y"@[0] != "0"@[0]);
    assert("y"@[0] != "n"@[0]);
    assert("0"@[0] != "n"@[0]);
}

/// A market is resolved where its flags say so. Where they do not, it is exactly where both payouts
/// are known, one of them is one dollar, and both together miss a dollar by no more than a cent.
pub proof fn payouts_tell_a_resolved_market(
    flagged: bool,
    yes: Option<Double>,
    no: Option<Double>,
    distance: Double,
)
    requires
        distance.finite(),
    ensures
        flagged ==> is_resolved(flagged, yes, no, distance),
        !flagged ==> (is_resolved(flagged, yes, no, distance) <==> yes is Some && no is Some && (
        yes->Some_0.bits == ONE_BITS || no->Some_0.bits == ONE_BITS) && distance.units()
            <= (Double { bits: CENT_BITS }).units()),
        is_resolved(flagged, yes, no, distance) == is_resolved(flagged, no, yes, distance),
{
    crate::double::order_is_numeric(distance, Double { bits: CENT_BITS });
}

/// The side that the prices favour is the dearer one; equal prices, or a missing one, favour none.
/// Swapping the prices swaps the sides.
pub proof fn dearer_side_is_favoured(yes: Double, no: Double)
    requires
        yes.finite(),
        no.finite(),
    ensures
        favoured(Some(yes), Some(no)) == Some(MarketSide::Up) <==> yes.units() > no.units(),
        favoured(Some(yes), Some(no)) == Some(MarketSide::Down) <==> yes.units() < no.units(),
        favoured(Some(yes), Some(no)) is None <==> yes.units() == no.units(),
        favoured(Some(yes), None) is None,
        favoured(None, Some(no)) is None,
        favoured(Some(no), Some(yes)) == Some(MarketSide::Up) <==> favoured(Some(yes), Some(no))
            == Some(MarketSide::Down),
{
    crate::double::order_is_numeric(yes, no);
    crate::double::order_is_numeric(no, yes);
}

/// The words for a market that ends higher.
pub open spec fn says_up(word: Seq<char>) -> bool {
    word == "yes"@ || word == "up"@ || word == "higher"@ || word == "above"@ || word == "true"@
}

/// The words for a market that ends lower.
pub open spec fn says_down(word: Seq<char>) -> bool {
    word == "no"@ || word == "down"@ || word == "lower"@ || word == "below"@ || word == "false"@
}

proof fn lemma_words(word: Seq<char>)
    ensures
        is_alias(word, yes_aliases()) <==> says_up(word),
        is_alias(word, no_aliases()) <==> says_down(word),
        !(says_up(word) && says_down(word)),
{
    reveal_strlit("yes");
    reveal_strlit("up");
    reveal_strlit("higher");
    reveal_strlit("above");
    reveal_strlit("true");
    reveal_strlit("no");
    reveal_strlit("down");
    reveal_strlit("lower");
    reveal_strlit("below");
    reveal_strlit("false");
    assert("yes"@.len() == 3);
    assert("up"@.len() == 2);
    assert("higher"@.len() == 6);
    assert("above"@.len() == 5);
    assert("true"@.len() == 4);
    assert("no"@.len() == 2);
    assert("down"@.len() == 4);
    assert("lower"@.len() == 5);
    assert("below"@.len() == 5);
    assert("false"@.len() == 5);
    assert("up"@[0] != "no"@[0]);
    assert("above"@[0] != "lower"@[0]);
    assert("above"@[0] != "below"@[0]);
    assert("above"@[0] != "false"@[0]);
    assert("lower"@[0] != "below"@[0]);
    assert("lower"@[0] != "false"@[0]);
    assert("below"@[0] != "false"@[0]);
    assert("true"@[0] != "down"@[0]);
    assert(yes_aliases()[0]@ == "yes"@);
    assert(yes_aliases()[1]@ == "up"@);
    assert(yes_aliases()[2]@ == "higher"@);
    assert(yes_aliases()[3]@ == "above"@);
    assert(yes_aliases()[4]@ == "true"@);
    assert(no_aliases()[0]@ == "no"@);
    assert(no_aliases()[1]@ == "down"@);
    assert(no_aliases()[2]@ == "lower"@);
    assert(no_aliases()[3]@ == "below"@);
    assert(no_aliases()[4]@ == "false"@);
}

proof fn lemma_alias_found(words: Seq<Seq<char>>, aliases: Seq<&str>)
    ensures
        alias_index(words, aliases) matches Some(i) ==> 0 <= i < words.len() && is_alias(
            words[i],
            aliases,
        ),
        alias_index(words, aliases) is None ==> forall|j: int|
            0 <= j < words.len() ==> !is_alias(#[trigger] words[j], aliases),
    decreases words.len(),
{
    if words.len() > 0 && !is_alias(words[0], aliases) {
        let rest = words.drop_first();
        lemma_alias_found(rest, aliases);
        assert forall|j: int|
            0 <= j < words.len() && alias_index(words, aliases) is None implies !is_alias(
            #[trigger] words[j],
            aliases,
        ) by {
            if j > 0 {
                assert(words[j] == rest[j - 1]);
            }
        }
    }
}

/// The two outcomes of a market are told by their words alone, wherever they stand: the place of
/// the rising one holds a word that says so, that of the falling one likewise, and the two places
/// are never the same. They are found wherever there is a word for each.
pub proof fn outcomes_are_told_by_their_words(words: Seq<Seq<char>>)
    ensures
        outcome_indices(words) matches Some((up, down)) ==> {
            &&& 0 <= up < words.len() && 0 <= down < words.len() && up != down
            &&& words[up] == "yes"@ || words[up] == "up"@ || words[up] == "higher"@ || words[up]
                == "above"@ || words[up] == "true"@
            &&& words[down] == "no"@ || words[down] == "down"@ || words[down] == "lower"@
                || words[down] == "below"@ || words[down] == "false"@
        },
        (exists|i: int| 0 <= i < words.len() && says_up(#[trigger] words[i])) && (exists|i: int|
            0 <= i < words.len() && says_down(#[trigger] words[i])) ==> outcome_indices(
            words,
        ) is Some,
{
    lemma_alias_found(words, yes_aliases());
    lemma_alias_found(words, no_aliases());
    assert forall|i: int| 0 <= i < words.len() implies (is_alias(
        #[trigger] words[i],
        yes_aliases(),
    ) <==> says_up(words[i])) && (is_alias(words[i], no_aliases()) <==> says_down(words[i]))
        && !(says_up(words[i]) && says_down(words[i])) by {
        lemma_words(words[i]);
    }
    if alias_index(words, yes_aliases()) is Some {
        lemma_words(words[alias_index(words, yes_aliases())->Some_0]);
    }
    if alias_index(words, no_aliases()) is Some {
        lemma_words(words[alias_index(words, no_aliases())->Some_0]);
    }
}

proof fn lemma_two_outcomes(words: Seq<Seq<char>>)
    requires
        words.len() == 2,
    ensures
        says_up(words[0]) && says_down(words[1]) ==> outcome_indices(words) == Some((0int, 1int)),
        says_down(words[0]) && says_up(words[1]) ==> outcome_indices(words) == Some((1int, 0int)),
{
    outcomes_are_told_by_their_words(words);
    lemma_words(words[0]);
    lemma_words(words[1]);
    if says_up(words[0]) && says_down(words[1]) {
        assert(says_up(words[0]) && says_down(words[1]));
    }
}

proof fn lemma_two_texts(a: Seq<char>, b: Seq<char>)
    requires
        text::trimmed(a).len() > 0,
        text::trimmed(b).len() > 0,
    ensures
        texts_among(seq![JsonTree::Text(a), JsonTree::Text(b)]) == seq![
            text::trimmed(a),
            text::trimmed(b),
        ],
{
    let items = seq![JsonTree::Text(a), JsonTree::Text(b)];
    assert(items.drop_last() =~= seq![JsonTree::Text(a)]);
    assert(items.drop_last().drop_last() =~= Seq::<JsonTree>::empty());
    assert(texts_among(items.drop_last().drop_last()) =~= Seq::<Seq<char>>::empty());
    assert(texts_among(items.drop_last()) =~= seq![text::trimmed(a)]);
    assert(texts_among(items) =~= seq![text::trimmed(a), text::trimmed(b)]);
}

/// A market of two outcomes gives each side the token and the price that stand in the same place
/// as its word, in whichever order the two come, under the condition that the market names.
pub proof fn token_and_price_follow_their_outcome(
    members: Seq<(Seq<char>, JsonTree)>,
    first: Seq<char>,
    second: Seq<char>,
    first_token: Seq<char>,
    second_token: Seq<char>,
    first_price: JsonTree,
    second_price: JsonTree,
    condition: Seq<char>,
    slug: Seq<char>,
    question: Seq<char>,
)
    requires
        json::lookup(members, "outcomes"@) == Some(
            JsonTree::Array(seq![JsonTree::Text(first), JsonTree::Text(second)]),
        ),
        json::lookup(members, "clobTokenIds"@) == Some(
            JsonTree::Array(seq![JsonTree::Text(first_token), JsonTree::Text(second_token)]),
        ),
        json::lookup(members, "outcomePrices"@) == Some(
            JsonTree::Array(seq![first_price, second_price]),
        ),
        json::lookup(members, "conditionId"@) == Some(JsonTree::Text(condition)),
        text::bytes32(text::lowercase(text::trimmed(condition))),
        text::trimmed(first).len() > 0,
        text::trimmed(second).len() > 0,
        text::trimmed(first_token).len() > 0,
        text::trimmed(second_token).len() > 0,
        !(first_price is Text),
        !(second_price is Text),
    ensures
        ({
            let market = JsonTree::Object(members);
            let a = text::lowercase(text::trimmed(first));
            let b = text::lowercase(text::trimmed(second));
            let up_first = (a == "yes"@ || a == "up"@ || a == "higher"@ || a == "above"@ || a
                == "true"@) && (b == "no"@ || b == "down"@ || b == "lower"@ || b == "below"@ || b
                == "false"@);
            let down_first = (b == "yes"@ || b == "up"@ || b == "higher"@ || b == "above"@ || b
                == "true"@) && (a == "no"@ || a == "down"@ || a == "lower"@ || a == "below"@ || a
                == "false"@);
            let found = market_scan(market, slug, question);
            let resolution = market_resolution(market);
            &&& up_first ==> (found matches ScanView::Found(draft) && {
                &&& draft.yes_token_id == text::trimmed(first_token)
                &&& draft.no_token_id == text::trimmed(second_token)
                &&& draft.yes_price == json::reading_of(first_price)
                &&& draft.no_price == json::reading_of(second_price)
            })
            &&& down_first ==> (found matches ScanView::Found(draft) && {
                &&& draft.yes_token_id == text::trimmed(second_token)
                &&& draft.no_token_id == text::trimmed(first_token)
                &&& draft.yes_price == json::reading_of(second_price)
                &&& draft.no_price == json::reading_of(first_price)
            })
            &&& up_first || down_first ==> (found matches ScanView::Found(draft)
                && draft.condition_id == text::lowercase(text::trimmed(condition)) && draft.slug
                == slug)
            &&& up_first ==> resolution.yes_payout == json::reading_of(first_price)
                && resolution.no_payout == json::reading_of(second_price)
            &&& down_first ==> resolution.yes_payout == json::reading_of(second_price)
                && resolution.no_payout == json::reading_of(first_price)
        }),
{
    let market = JsonTree::Object(members);
    lemma_two_texts(first, second);
    lemma_two_texts(first_token, second_token);
    let words = lowered(seq![text::trimmed(first), text::trimmed(second)]);
    assert(words.len() == 2);
    assert(words[0] == text::lowercase(text::trimmed(first)));
    assert(words[1] == text::lowercase(text::trimmed(second)));
    lemma_two_outcomes(words);
    let prices = item_numbers(seq![first_price, second_price]);
    assert(prices.len() == 2);
    assert(prices[0] == json::reading_of(first_price));
    assert(prices[1] == json::reading_of(second_price));
}

/// A market that is found has a condition, and each of its tokens and prices stands in the place
/// of a word for its side.
pub proof fn found_market_is_sound(market: JsonTree, slug: Seq<char>, question: Seq<char>)
    ensures
        market_scan(market, slug, question) matches ScanView::Found(draft) ==> {
            let tokens = string_array(member_or_null(market, "clobTokenIds"@));
            let words = lowered(string_array(member_or_null(market, "outcomes"@)));
            let prices = number_array(member_or_null(market, "outcomePrices"@));
            &&& draft.slug == slug
            &&& text::bytes32(draft.condition_id)
            &&& exists|up: int, down: int|
                #![trigger tokens[up], tokens[down]]
                {
                    &&& 0 <= up < tokens.len() && 0 <= down < tokens.len() && up != down
                    &&& says_up(words[up]) && says_down(words[down])
                    &&& draft.yes_token_id == tokens[up] && draft.no_token_id == tokens[down]
                    &&& draft.yes_price == prices[up] && draft.no_price == prices[down]
                }
        },
{
    let tokens = string_array(member_or_null(market, "clobTokenIds"@));
    let words = lowered(string_array(member_or_null(market, "outcomes"@)));
    outcomes_are_told_by_their_words(words);
    match outcome_indices(words) {
        Some((up, down)) => {
            let a = tokens[up];
            let b = tokens[down];
        },
        None => {},
    }
}

/// The condition of a market is the first of its three fields that holds one, in lower case, and
/// is always a hash of 32 bytes.
pub proof fn condition_comes_from_the_first_field(members: Seq<(Seq<char>, JsonTree)>, s: Seq<char>)
    ensures
        market_condition(JsonTree::Object(members)) matches Some(id) ==> text::bytes32(id),
        json::lookup(members, "conditionId"@) == Some(JsonTree::Text(s)) && text::bytes32(
            text::lowercase(text::trimmed(s)),
        ) ==> market_condition(JsonTree::Object(members)) == Some(
            text::lowercase(text::trimmed(s)),
        ),
        json::lookup(members, "conditionId"@) is None && json::lookup(members, "condition_id"@)
            == Some(JsonTree::Text(s)) && text::bytes32(text::lowercase(text::trimmed(s)))
            ==> market_condition(JsonTree::Object(members)) == Some(
            text::lowercase(text::trimmed(s)),
        ),
        json::lookup(members, "conditionId"@) is None && json::lookup(
            members,
            "condition_id"@,
        ) is None && json::lookup(members, "market"@) == Some(JsonTree::Text(s)) && text::bytes32(
            text::lowercase(text::trimmed(s)),
        ) ==> market_condition(JsonTree::Object(members)) == Some(
            text::lowercase(text::trimmed(s)),
        ),
        json::lookup(members, "conditionId"@) is None && json::lookup(
            members,
            "condition_id"@,
        ) is None && json::lookup(members, "market"@) is None ==> market_condition(
            JsonTree::Object(members),
        ) is None,
{
}

proof fn lemma_first_market(
    markets: Seq<JsonTree>,
    slug: Seq<char>,
    question: Seq<char>,
    k: int,
)
    requires
        0 <= k < markets.len(),
        forall|j: int|
            0 <= j < k ==> market_scan(#[trigger] markets[j], slug, question) is NotFound,
        !(market_scan(markets[k], slug, question) is NotFound),
    ensures
        markets_scan(markets, slug, question) == market_scan(markets[k], slug, question),
    decreases k,
{
    if k > 0 {
        assert(market_scan(markets[0], slug, question) is NotFound);
        let rest = markets.drop_first();
        assert forall|j: int| 0 <= j < k - 1 implies market_scan(
            #[trigger] rest[j],
            slug,
            question,
        ) is NotFound by {
            assert(rest[j] == markets[j + 1]);
        }
        lemma_first_market(rest, slug, question, k - 1);
    }
}

/// The market of a window is the first that can be traded, of the first event that has one: events
/// and markets before it are passed over, and those after it are not looked at. It goes by the name
/// of its event, or of the window where the event has none.
pub proof fn first_market_that_can_be_traded_is_taken(
    events: Seq<JsonTree>,
    slug: Seq<char>,
    e: int,
    markets: Seq<JsonTree>,
    k: int,
)
    requires
        0 <= e < events.len(),
        forall|j: int| 0 <= j < e ==> event_scan(#[trigger] events[j], slug) is NotFound,
        events[e].member("markets"@) == Some(JsonTree::Array(markets)),
        0 <= k < markets.len(),
        ({
            let name = event_slug(events[e], slug);
            let question = event_question(events[e]);
            &&& forall|j: int|
                0 <= j < k ==> market_scan(#[trigger] markets[j], name, question) is NotFound
            &&& !(market_scan(markets[k], name, question) is NotFound)
        }),
    ensures
        events_scan(events, slug) == market_scan(
            markets[k],
            event_slug(events[e], slug),
            event_question(events[e]),
        ),
        events[e].member("slug"@) is None ==> event_slug(events[e], slug) == slug,
        events[e].member("slug"@) matches Some(JsonTree::Text(own)) ==> (text::trimmed(own).len()
            > 0 ==> event_slug(events[e], slug) == text::trimmed(own)),
    decreases e,
{
    if e > 0 {
        assert(event_scan(events[0], slug) is NotFound);
        let rest = events.drop_first();
        assert forall|j: int| 0 <= j < e - 1 implies event_scan(
            #[trigger] rest[j],
            slug,
        ) is NotFound by {
            assert(rest[j] == events[j + 1]);
        }
        assert(rest[e - 1] == events[e]);
        first_market_that_can_be_traded_is_taken(rest, slug, e - 1, markets, k);
    } else {
        lemma_first_market(markets, event_slug(events[0], slug), event_question(events[0]), k);
    }
}

proof fn lemma_market_with(markets: Seq<JsonTree>, condition: Seq<char>)
    ensures
        market_with(markets, condition) matches Some(m) ==> markets.contains(m) && market_condition(
            m,
        ) == Some(condition),
        market_with(markets, condition) is None ==> forall|j: int|
            0 <= j < markets.len() ==> market_condition(#[trigger] markets[j]) != Some(condition),
    decreases markets.len(),
{
    if markets.len() > 0 {
        if market_condition(markets[0]) == Some(condition) {
            assert(markets[0] == markets[0]);
        } else {
            let rest = markets.drop_first();
            lemma_market_with(rest, condition);
            match market_with(rest, condition) {
                Some(m) => {
                    let j = choose|j: int| 0 <= j < rest.len() && rest[j] == m;
                    assert(markets[j + 1] == m);
                },
                None => {
                    assert forall|j: int| 0 <= j < markets.len() implies market_condition(
                        #[trigger] markets[j],
                    ) != Some(condition) by {
                        if j > 0 {
                            assert(markets[j] == rest[j - 1]);
                        }
                    }
                },
            }
        }
    }
}

/// A claim is judged by the market of its own condition and by no other, and that market is found
/// wherever one of the events holds it.
pub proof fn market_of_the_condition_is_judged(
    events: Seq<JsonTree>,
    condition: Seq<char>,
    e: int,
    markets: Seq<JsonTree>,
    k: int,
)
    ensures
        market_in_events(events, condition) matches Some(m) ==> market_condition(m) == Some(
            condition,
        ),
        0 <= e < events.len() && events[e].member("markets"@) == Some(JsonTree::Array(markets)) && 0
            <= k < markets.len() && market_condition(markets[k]) == Some(condition)
            ==> market_in_events(events, condition) is Some,
    decreases events.len(),
{
    if events.len() > 0 {
        market_of_the_condition_is_judged(events.drop_first(), condition, e - 1, markets, k);
        if e > 0 && e < events.len() {
            assert(events.drop_first()[e - 1] == events[e]);
        }
        match events[0].member("markets"@) {
            Some(JsonTree::Array(own)) => {
                lemma_market_with(own, condition);
            },
            _ => {},
        }
    }
}

/// A market is flagged as resolved exactly where it says that it is resolved or closed, or that it is
/// not active, in whatever form it says so; the flags that are not there do not count.
pub proof fn flags_count_in_every_form(members: Seq<(Seq<char>, JsonTree)>)
    ensures
        market_resolution(JsonTree::Object(members)).flagged <==> {
            ||| flag_like(json::lookup(members, "resolved"@)) == Some(true)
            ||| flag_like(json::lookup(members, "closed"@)) == Some(true)
            ||| flag_like(json::lookup(members, "active"@)) == Some(false)
        },
        json::lookup(members, "resolved"@) is None && json::lookup(members, "closed"@) is None
            && json::lookup(members, "active"@) is None ==> !market_resolution(
            JsonTree::Object(members),
        ).flagged,
{
}

/// The doubles by which a market counts as resolved are one and a hundredth.
pub proof fn resolved_payouts_are_one(yes: Double, no: Double, distance: Double)
    requires
        distance.finite(),
        yes.finite(),
        no.finite(),
    ensures
        is_resolved(false, Some(yes), Some(no), distance) ==> yes.bits == 0x3ff0_0000_0000_0000
            || no.bits == 0x3ff0_0000_0000_0000,
        is_resolved(false, Some(yes), Some(no), distance) ==> distance.units() <= (Double {
            bits: 0x3f84_7ae1_47ae_147b,
        }).units(),
        (yes.bits == 0x3ff0_0000_0000_0000 || no.bits == 0x3ff0_0000_0000_0000) && distance.units()
            <= 0 ==> is_resolved(false, Some(yes), Some(no), distance),
        !is_resolved(false, None, Some(no), distance),
        !is_resolved(false, Some(yes), None, distance),
{
    payouts_tell_a_resolved_market(false, Some(yes), Some(no), distance);
    let zero = Double { bits: 0 };
    let cent = Double { bits: crate::double::CENT_BITS };
    assert(zero.units() == 0);
    assert(cent.finite() && zero.finite());
    crate::double::order_is_numeric(zero, cent);
}

/// A list of texts keeps its texts that are not blank, in their order and without the white space
/// around them; other items are dropped. A text stands for the list that it holds as JSON, or for its
/// parts between commas without the quotes around them.
pub proof fn lists_of_texts_come_in_several_forms(
    items: Seq<JsonTree>,
    next: JsonTree,
    s: Seq<char>,
    part: Seq<char>,
    parts: Seq<Seq<char>>,
)
    requires
        part.len() > 0 ==> part[0] != '"' && part.last() != '"' && !text::is_white(part[0])
            && !text::is_white(part.last()),
    ensures
        next matches JsonTree::Text(t) ==> (text::trimmed(t).len() > 0 ==> string_array(
            JsonTree::Array(items.push(next)),
        ) == string_array(JsonTree::Array(items)).push(text::trimmed(t))),
        next matches JsonTree::Text(t) ==> (text::trimmed(t).len() == 0 ==> string_array(
            JsonTree::Array(items.push(next)),
        ) == string_array(JsonTree::Array(items))),
        !(next is Text) ==> string_array(JsonTree::Array(items.push(next))) == string_array(
            JsonTree::Array(items),
        ),
        string_array(JsonTree::Array(Seq::empty())).len() == 0,
        string_array(JsonTree::Null).len() == 0,
        text::trimmed(s).len() == 0 ==> string_array(JsonTree::Text(s)).len() == 0,
        text::trimmed(s).len() > 0 && json::parsed(s) == Some(JsonTree::Array(items))
            ==> string_array(JsonTree::Text(s)) == string_array(JsonTree::Array(items)),
        text::trimmed(s).len() > 0 && json::parsed(s) is None ==> string_array(JsonTree::Text(s))
            == unquoted_pieces(text::pieces(s, ',')),
        part.len() > 0 ==> unquoted_pieces(parts.push(seq!['"'] + part + seq!['"']))
            == unquoted_pieces(parts).push(part),
        part.len() > 0 ==> unquoted_pieces(parts.push(part)) == unquoted_pieces(parts).push(part),
        unquoted_pieces(Seq::<Seq<char>>::empty()).len() == 0,
{
    assert(items.push(next).drop_last() =~= items);
    if part.len() > 0 {
        let quoted = seq!['"'] + part + seq!['"'];
        assert(quoted.last() == '"' && quoted[0] == '"');
        text::white_space_around_does_not_count(Seq::empty(), quoted, Seq::empty());
        assert(Seq::<char>::empty() + quoted + Seq::<char>::empty() =~= quoted);
        text::white_space_around_does_not_count(Seq::empty(), part, Seq::empty());
        assert(Seq::<char>::empty() + part + Seq::<char>::empty() =~= part);
        let half = part + seq!['"'];
        assert(quoted.drop_first() =~= half);
        assert(half[0] == part[0]);
        assert(text::trim_start_of(half, '"') == half);
        assert(text::trim_start_of(quoted, '"') == half);
        assert(half.drop_last() =~= part);
        assert(text::trim_end_of(part, '"') == part);
        assert(text::trim_end_of(half, '"') == part);
        assert(text::trim_start_of(part, '"') == part);
        assert(parts.push(quoted).drop_last() =~= parts);
        assert(parts.push(part).drop_last() =~= parts);
        assert(unquoted(quoted) == part);
        assert(unquoted(part) == part);
    }
}

/// A list of numbers has an item for each of its items, in their order: the number where there is one,
/// and nothing in place of a text. A text stands for the list that it holds as JSON, or for its parts
/// between commas.
pub proof fn lists_of_numbers_come_in_several_forms(items: Seq<JsonTree>, s: Seq<char>, i: int)
    requires
        0 <= i < items.len(),
    ensures
        number_array(JsonTree::Array(items)).len() == items.len(),
        !(items[i] is Text) ==> number_array(JsonTree::Array(items))[i] == json::reading_of(
            items[i],
        ),
        items[i] is Text ==> number_array(JsonTree::Array(items))[i] is None,
        number_array(JsonTree::Null).len() == 0,
        text::trimmed(s).len() == 0 ==> number_array(JsonTree::Text(s)).len() == 0,
        text::trimmed(s).len() > 0 && json::parsed(s) == Some(JsonTree::Array(items))
            ==> number_array(JsonTree::Text(s)) == number_array(JsonTree::Array(items)),
        text::trimmed(s).len() > 0 && json::parsed(s) is None ==> number_array(
            JsonTree::Text(s),
        ).len() == text::pieces(s, ',').len() && (forall|k: int|
            0 <= k < text::pieces(s, ',').len() ==> #[trigger] number_array(JsonTree::Text(s))[k]
                == Some(ReadingTree::Text(unquoted(text::pieces(s, ',')[k])))),
{
}

/// The side that a word names is the first of its kind: no word before it names the same side.
pub proof fn first_word_of_a_kind_counts(words: Seq<Seq<char>>, j: int)
    ensures
        outcome_indices(words) matches Some((up, down)) ==> {
            &&& 0 <= j < up ==> !says_up(words[j])
            &&& 0 <= j < down ==> !says_down(words[j])
        },
{
    lemma_first_alias(words, yes_aliases(), j);
    lemma_first_alias(words, no_aliases(), j);
    if 0 <= j < words.len() {
        lemma_aliases_are_words(words[j]);
    }
    lemma_alias_range(words, yes_aliases());
    lemma_alias_range(words, no_aliases());
}

proof fn lemma_alias_range(words: Seq<Seq<char>>, aliases: Seq<&str>)
    ensures
        alias_index(words, aliases) matches Some(i) ==> 0 <= i < words.len(),
    decreases words.len(),
{
    if words.len() > 0 {
        lemma_alias_range(words.drop_first(), aliases);
    }
}

proof fn lemma_first_alias(words: Seq<Seq<char>>, aliases: Seq<&str>, j: int)
    ensures
        alias_index(words, aliases) matches Some(i) ==> (0 <= j < i ==> !is_alias(
            words[j],
            aliases,
        )),
    decreases words.len(),
{
    if words.len() > 0 {
        lemma_alias_range(words, aliases);
        lemma_first_alias(words.drop_first(), aliases, j - 1);
        if 0 < j < words.len() {
            assert(words.drop_first()[j - 1] == words[j]);
        }
    }
}

proof fn lemma_aliases_are_words(word: Seq<char>)
    ensures
        says_up(word) ==> is_alias(word, yes_aliases()),
        says_down(word) ==> is_alias(word, no_aliases()),
{
    let yes = yes_aliases();
    let no = no_aliases();
    assert(yes[0]@ == "yes"@ && yes[1]@ == "up"@ && yes[2]@ == "higher"@ && yes[3]@ == "above"@
        && yes[4]@ == "true"@);
    assert(no[0]@ == "no"@ && no[1]@ == "down"@ && no[2]@ == "lower"@ && no[3]@ == "below"@ && no[4]@
        == "false"@);
}

/// A market without both outcomes, without a price for each, with fewer than two tokens or without a
/// condition is passed over; one that lacks the token of an outcome is complained of. The question is
/// the market's own, or else the event's, and the event's is its title before its question.
pub proof fn unsound_markets_are_passed_over(
    market: JsonTree,
    slug: Seq<char>,
    question: Seq<char>,
    event: JsonTree,
    q: Seq<char>,
)
    ensures
        ({
            let tokens = string_array(member_or_null(market, "clobTokenIds"@));
            let words = lowered(string_array(member_or_null(market, "outcomes"@)));
            let prices = number_array(member_or_null(market, "outcomePrices"@));
            let found = market_scan(market, slug, question);
            let sides = outcome_indices(words);
            &&& sides is None ==> found is NotFound
            &&& tokens.len() < 2 ==> found is NotFound
            &&& market_condition(market) is None ==> found is NotFound
            &&& sides matches Some((up, down)) ==> (prices.len() <= up || prices.len() <= down
                ==> found is NotFound)
            &&& sides matches Some((up, down)) ==> (tokens.len() >= 2 && market_condition(
                market,
            ) is Some && prices.len() > up && prices.len() > down ==> (found is TokenMissing
                <==> tokens.len() <= up || tokens.len() <= down) && (found is Found <==> tokens.len()
                > up && tokens.len() > down))
            &&& found matches ScanView::Found(draft) ==> {
                &&& market_condition(market) == Some(draft.condition_id)
                &&& market.member("question"@) is None ==> draft.question == question
                &&& market.member("question"@) == Some(JsonTree::Text(q)) && text::trimmed(q).len()
                    > 0 ==> draft.question == text::trimmed(q)
                &&& market.member("question"@) == Some(JsonTree::Text(q)) && text::trimmed(q).len()
                    == 0 ==> draft.question == question
            }
            &&& event.member("title"@) == Some(JsonTree::Text(q)) ==> event_question(event)
                == text::trimmed(q)
            &&& event.member("title"@) is None && event.member("question"@) == Some(
                JsonTree::Text(q),
            ) ==> event_question(event) == text::trimmed(q)
            &&& event.member("title"@) is None && event.member("question"@) is None
                ==> event_question(event).len() == 0
            &&& event.member("slug"@) == Some(JsonTree::Text(q)) && text::trimmed(q).len() == 0
                ==> event_slug(event, slug) == slug
        }),
{
}

} // verus!

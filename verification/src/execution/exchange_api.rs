//! The requests to the exchange and the answers to them.
use vstd::prelude::*;
use crate::double::Double;
use crate::execution::api_secret;
use crate::execution::client::{ClientView, ClobClient};
use crate::execution::order_signing::SignedOrder;
use crate::failure;
use crate::failure::Failure;
use crate::json;
use crate::json::{Document, Entry, Json, JsonNumber, JsonTree, NumberTree, Reading};
use crate::text;
use crate::uint;
use crate::uint::Uint256;

verus! {

// ---------------------------------------------------------------------------
// Amounts in an answer
// ---------------------------------------------------------------------------

/// The keys under which an amount is looked for first.
pub open spec fn preferred_keys() -> Seq<&'static str> {
    seq!["amount", "value", "raw", "balance", "allowance", "available", "approved"]
}

proof fn lemma_lookup_decreases(members: Seq<(Seq<char>, JsonTree)>, key: Seq<char>)
    ensures
        json::lookup(members, key) matches Some(v) ==> decreases_to!(members => v),
{
    json::lemma_position_bounds(members, key);
    let i = json::position(members, key);
    if i < members.len() {
        assert(decreases_to!(members => members[i]));
        assert(decreases_to!(members[i] => members[i].1));
    }
}

/// The first amount that a value holds: a text, a number, the first amount of a list, or that of
/// an object, where some keys go before the others and those in ascending order.
pub open spec fn first_amount(tree: JsonTree) -> Option<Seq<char>>
    decreases tree, 0nat,
{
    match tree {
        JsonTree::Text(s) => if text::is_blank(s) {
            None
        } else {
            Some(text::trimmed(s))
        },
        JsonTree::Number(n) => Some(json::numeral_of(n)),
        JsonTree::Array(items) => amount_among(items),
        JsonTree::Object(members) => match amount_at(members, preferred_keys()) {
            Some(s) => Some(s),
            None => amount_under(members, json::sorted_keys(members)),
        },
        _ => None,
    }
}

/// The first amount among the items of a list.
pub open spec fn amount_among(items: Seq<JsonTree>) -> Option<Seq<char>>
    decreases items, 0nat,
{
    if items.len() == 0 {
        None
    } else {
        match first_amount(items[0]) {
            Some(s) => Some(s),
            None => amount_among(items.drop_first()),
        }
    }
}

/// The amount of the first of several members that has one.
pub open spec fn amount_under(
    members: Seq<(Seq<char>, JsonTree)>,
    keys: Seq<Seq<char>>,
) -> Option<Seq<char>>
    decreases members, keys.len(),
    via amount_under_decreases
{
    if keys.len() == 0 {
        None
    } else {
        let here = match json::lookup(members, keys[0]) {
            Some(v) => first_amount(v),
            None => None,
        };
        match here {
            Some(s) => Some(s),
            None => amount_under(members, keys.drop_first()),
        }
    }
}

#[via_fn]
proof fn amount_under_decreases(members: Seq<(Seq<char>, JsonTree)>, keys: Seq<Seq<char>>) {
    if keys.len() > 0 {
        lemma_lookup_decreases(members, keys[0]);
    }
}

/// The amount under the first of several keys that has one.
pub open spec fn amount_at(members: Seq<(Seq<char>, JsonTree)>, keys: Seq<&str>) -> Option<
    Seq<char>,
>
    decreases members, keys.len(),
    via amount_at_decreases
{
    if keys.len() == 0 {
        None
    } else {
        let here = match json::lookup(members, keys[0]@) {
            Some(v) => first_amount(v),
            None => None,
        };
        match here {
            Some(s) => Some(s),
            None => amount_at(members, keys.drop_first()),
        }
    }
}

#[via_fn]
proof fn amount_at_decreases(members: Seq<(Seq<char>, JsonTree)>, keys: Seq<&str>) {
    if keys.len() > 0 {
        lemma_lookup_decreases(members, keys[0]@);
    }
}

pub fn first_amount_string(value: &Json) -> (r: Option<String>)
    ensures
        json::text_view(r) == first_amount(value@),
    decreases value@, 0nat,
{
    match value {
        Json::Text(s) => {
            let t = text::trim(s.as_str());
            if t.is_empty() {
                None
            } else {
                Some(t.to_owned())
            }
        },
        Json::Number(n) => Some(n.numeral()),
        Json::Array(items) => {
            proof {
                json::lemma_array_tree(*items);
            }
            find_amount(items)
        },
        Json::Object(entries) => {
            proof {
                json::lemma_object_tree(*entries);
            }
            let keys = [
                "amount",
                "value",
                "raw",
                "balance",
                "allowance",
                "available",
                "approved",
            ];
            assert(keys@ =~= preferred_keys());
            let preferred = read_amount_from_object(entries, &keys);
            if preferred.is_some() {
                return preferred;
            }
            find_member_amount(entries)
        },
        _ => None,
    }
}

fn find_amount(items: &Vec<Json>) -> (r: Option<String>)
    ensures
        json::text_view(r) == amount_among(json::trees(items@)),
    decreases json::trees(items@), 0nat,
{
    let ghost all = json::trees(items@);
    let mut i: usize = 0;
    assert(all.skip(0) =~= all);
    while i < items.len()
        invariant
            i <= items.len(),
            all == json::trees(items@),
            amount_among(all) == amount_among(all.skip(i as int)),
        decreases items.len() - i,
    {
        proof {
            assert(all.skip(i as int)[0] == items@[i as int]@);
            assert(all.skip(i as int).drop_first() =~= all.skip(i + 1));
            assert(decreases_to!(all => all[i as int]));
        }
        let found = first_amount_string(&items[i]);
        if found.is_some() {
            return found;
        }
        i = i + 1;
    }
    None
}

fn find_member_amount(entries: &Vec<Entry>) -> (r: Option<String>)
    ensures
        json::text_view(r) == amount_under(
            json::record(entries@),
            json::sorted_keys(json::record(entries@)),
        ),
    decreases json::record(entries@), 0nat,
{
    let ghost all = json::record(entries@);
    let keys = json::keys_in_order(entries);
    let ghost order = text::texts(keys@);
    let mut i: usize = 0;
    assert(order.skip(0) =~= order);
    while i < keys.len()
        invariant
            i <= keys.len(),
            all == json::record(entries@),
            order == text::texts(keys@),
            order == json::sorted_keys(all),
            amount_under(all, order) == amount_under(all, order.skip(i as int)),
        decreases keys.len() - i,
    {
        proof {
            assert(order.skip(i as int)[0] == keys@[i as int]@);
            assert(order.skip(i as int).drop_first() =~= order.skip(i + 1));
            lemma_lookup_decreases(all, keys@[i as int]@);
        }
        match json::find_member(entries, keys[i].as_str()) {
            Some(v) => {
                let found = first_amount_string(v);
                if found.is_some() {
                    return found;
                }
            },
            None => {},
        }
        i = i + 1;
    }
    None
}

pub fn read_amount_from_object(entries: &Vec<Entry>, keys: &[&str]) -> (r: Option<String>)
    ensures
        json::text_view(r) == amount_at(json::record(entries@), keys@),
    decreases json::record(entries@), keys@.len(),
{
    let ghost all = json::record(entries@);
    let mut i: usize = 0;
    assert(keys@.skip(0) =~= keys@);
    while i < keys.len()
        invariant
            i <= keys.len(),
            all == json::record(entries@),
            amount_at(all, keys@) == amount_at(all, keys@.skip(i as int)),
        decreases keys.len() - i,
    {
        proof {
            assert(keys@.skip(i as int)[0] == keys@[i as int]);
            assert(keys@.skip(i as int).drop_first() =~= keys@.skip(i + 1));
            lemma_lookup_decreases(all, keys@[i as int]@);
        }
        match json::find_member(entries, keys[i]) {
            Some(v) => {
                let found = first_amount_string(v);
                if found.is_some() {
                    return found;
                }
            },
            None => {},
        }
        i = i + 1;
    }
    None
}

/// The members of a member that is an object itself.
pub open spec fn inner(members: Seq<(Seq<char>, JsonTree)>, key: Seq<char>) -> Option<
    Seq<(Seq<char>, JsonTree)>,
> {
    match json::lookup(members, key) {
        Some(v) => v.members(),
        None => None,
    }
}

/// The amount under one of several keys: of the answer, of what is under `data`, or of what is
/// under `result`.
pub open spec fn payload_amount(payload: JsonTree, keys: Seq<&str>) -> Option<Seq<char>> {
    match payload {
        JsonTree::Object(members) => {
            let in_data = match inner(members, "data"@) {
                Some(data) => amount_at(data, keys),
                None => None,
            };
            let in_result = match inner(members, "result"@) {
                Some(result) => amount_at(result, keys),
                None => None,
            };
            match amount_at(members, keys) {
                Some(s) => Some(s),
                None => match in_data {
                    Some(s) => Some(s),
                    None => in_result,
                },
            }
        },
        _ => None,
    }
}

fn inner_amount(entries: &Vec<Entry>, key: &str, keys: &[&str]) -> (r: Option<String>)
    ensures
        json::text_view(r) == (match inner(json::record(entries@), key@) {
            Some(m) => amount_at(m, keys@),
            None => None,
        }),
{
    match json::find_member(entries, key) {
        Some(v) => match v.as_object() {
            Some(m) => read_amount_from_object(m, keys),
            None => None,
        },
        None => None,
    }
}

pub fn read_amount_from_payload(payload: &Json, keys: &[&str]) -> (r: Option<String>)
    ensures
        json::text_view(r) == payload_amount(payload@, keys@),
{
    match payload.as_object() {
        Some(entries) => {
            let own = read_amount_from_object(entries, keys);
            if own.is_some() {
                return own;
            }
            let in_data = inner_amount(entries, "data", keys);
            if in_data.is_some() {
                return in_data;
            }
            inner_amount(entries, "result", keys)
        },
        None => None,
    }
}

pub open spec fn balance_keys() -> Seq<&'static str> {
    seq!["balance", "available", "available_balance", "balance_raw"]
}

pub open spec fn allowance_keys() -> Seq<&'static str> {
    seq!["allowance", "allowances", "approved", "approval", "available_allowance"]
}

/// Balance and allowance of an answer; the allowance is the balance where the answer has none.
pub open spec fn balance_and_allowance(payload: JsonTree) -> Option<(Seq<char>, Seq<char>)> {
    match payload_amount(payload, balance_keys()) {
        Some(balance) => Some(
            (
                balance,
                match payload_amount(payload, allowance_keys()) {
                    Some(allowance) => allowance,
                    None => balance,
                },
            ),
        ),
        None => None,
    }
}

pub fn parse_balance_allowance_payload(payload: &Json) -> (r: Result<(String, String), Failure>)
    ensures
        match r {
            Ok((balance, allowance)) => balance_and_allowance(payload@) == Some(
                (balance@, allowance@),
            ),
            Err(e) => balance_and_allowance(payload@) is None && e@ == failure::plain(
                "balance-allowance payload missing balance"@,
            ),
        },
{
    let for_balance = ["balance", "available", "available_balance", "balance_raw"];
    let for_allowance = [
        "allowance",
        "allowances",
        "approved",
        "approval",
        "available_allowance",
    ];
    assert(for_balance@ =~= balance_keys());
    assert(for_allowance@ =~= allowance_keys());
    let balance = match read_amount_from_payload(payload, &for_balance) {
        Some(b) => b,
        None => {
            return Err(Failure::of("balance-allowance payload missing balance"));
        },
    };
    let allowance = match read_amount_from_payload(payload, &for_allowance) {
        Some(a) => a,
        None => balance.clone(),
    };
    Ok((balance, allowance))
}

/// What `parse_units` makes of a trimmed amount. Nothing more is said of one that does not fit.
pub open spec fn units_of(trimmed: Seq<char>) -> Result<nat, Seq<Seq<char>>> {
    if uint::units_in_reach(trimmed, 6) {
        match uint::parsed_units(trimmed, 6) {
            Ok((_, n)) => Ok(n),
            Err(causes) => Err(causes),
        }
    } else {
        Err(Seq::empty())
    }
}

/// The amount in base units: a whole number as it stands, and one with a point, or anything else,
/// by what `parse_units` makes of it.
pub open spec fn amount_units(
    field: Seq<char>,
    raw: Seq<char>,
    units: Result<nat, Seq<Seq<char>>>,
) -> Result<nat, Seq<Seq<char>>> {
    let s = text::trimmed(raw);
    if s.len() == 0 {
        Err(failure::plain(field + " must not be empty"@))
    } else if text::contains(s, "."@) {
        match units {
            Ok(n) => Ok(n),
            Err(causes) => Err(
                failure::caused(field + " must be valid decimal amount, got: "@ + raw, causes),
            ),
        }
    } else if text::all_digits(s) && text::number_of(s) < uint::limit() {
        Ok(text::number_of(s))
    } else {
        match units {
            Ok(n) => Ok(n),
            Err(causes) => Err(
                failure::caused(field + " must be valid amount, got: "@ + raw, causes),
            ),
        }
    }
}

/// The view of a number of 256 bits, or of the causes why there is none.
pub open spec fn uint_outcome(r: Result<Uint256, Vec<String>>) -> Result<nat, Seq<Seq<char>>> {
    match r {
        Ok(n) => Ok(n@),
        Err(causes) => Err(text::texts(causes@)),
    }
}

/// Whether a number or a failure is the expected one.
pub open spec fn amount_result(
    r: Result<Uint256, Failure>,
    s: Result<nat, Seq<Seq<char>>>,
) -> bool {
    match r {
        Ok(n) => s == Ok::<nat, Seq<Seq<char>>>(n@),
        Err(e) => s == Err::<nat, Seq<Seq<char>>>(e@),
    }
}

/// Reads an amount in base units, given what `parse_units` makes of it.
pub fn amount_with_units(
    field_name: &str,
    raw: &str,
    units: Result<Uint256, Vec<String>>,
) -> (r: Result<Uint256, Failure>)
    ensures
        amount_result(r, amount_units(field_name@, raw@, uint_outcome(units))),
{
    let s = text::trim(raw);
    if s.is_empty() {
        let mut message = field_name.to_owned();
        message.append(" must not be empty");
        return Err(Failure::from_text(message));
    }
    if text::has(s, ".") {
        return match units {
            Ok(n) => Ok(n),
            Err(causes) => {
                let mut message = field_name.to_owned();
                message.append(" must be valid decimal amount, got: ");
                message.append(raw);
                Err(Failure::with_causes(message, causes))
            },
        };
    }
    match uint::u256_from_dec_str(s) {
        Ok(n) => {
            proof {
                uint::words_are_unique(n, n);
            }
            return Ok(n);
        },
        Err(_) => {},
    }
    match units {
        Ok(n) => Ok(n),
        Err(causes) => {
            let mut message = field_name.to_owned();
            message.append(" must be valid amount, got: ");
            message.append(raw);
            Err(Failure::with_causes(message, causes))
        },
    }
}

pub fn parse_balance_allowance_units(field_name: &str, raw: &str) -> (r: Result<Uint256, Failure>)
    ensures
        amount_result(r, amount_units(field_name@, raw@, units_of(text::trimmed(raw@)))),
        ({
            let s = text::trimmed(raw@);
            text::contains(s, "."@) && uint::units_in_reach(s, 6) ==> (uint::plain_units(
                s,
                6,
            ) matches Some(v) ==> r matches Ok(n) && n@ == v)
        }),
{
    let s = text::trim(raw);
    let units = if uint::in_reach_of_units(s, 6) {
        match uint::parse_units(s, 6) {
            Ok((_, n)) => Ok(n),
            Err(causes) => Err(causes),
        }
    } else {
        let none: Vec<String> = Vec::new();
        assert(text::texts(none@) =~= Seq::<Seq<char>>::empty());
        Err(none)
    };
    proof {
        reveal_strlit(".");
    }
    amount_with_units(field_name, raw, units)
}

pub struct ConditionalBalanceAllowance {
    pub balance_raw: String,
    pub allowance_raw: String,
    pub balance_units: Uint256,
    pub allowance_units: Uint256,
}

impl ConditionalBalanceAllowance {
    /// What can be sold: the balance, up to the allowance.
    pub fn available_units(&self) -> (r: Uint256)
        ensures
            r@ == (if self.balance_units@ < self.allowance_units@ {
                self.balance_units@
            } else {
                self.allowance_units@
            }),
    {
        if self.balance_units.lt(self.allowance_units) {
            self.balance_units
        } else {
            self.allowance_units
        }
    }
}

// ---------------------------------------------------------------------------
// Answers
// ---------------------------------------------------------------------------

/// The unsigned integer that a value is, or that its text denotes.
pub open spec fn u64_of(value: JsonTree) -> Option<nat> {
    match value {
        JsonTree::Number(NumberTree::Unsigned(n)) => Some(n as nat),
        JsonTree::Text(s) => text::unsigned_of(text::trimmed(s), u64::MAX as nat + 1),
        _ => None,
    }
}

pub fn value_to_u64(value: &Json) -> (r: Option<u64>)
    ensures
        match r {
            Some(n) => u64_of(value@) == Some(n as nat),
            None => u64_of(value@) is None,
        },
{
    match value {
        Json::Number(JsonNumber::Unsigned(n)) => Some(*n),
        Json::Text(s) => text::parse_u64(text::trim(s.as_str())),
        _ => None,
    }
}

/// Reads the answer of an endpoint that reports its errors under `error`.
pub open spec fn answer_of(body: Seq<char>, what: Seq<char>) -> Result<JsonTree, Seq<Seq<char>>> {
    match json::parsed(body) {
        None => Err(
            failure::caused(
                "failed to parse "@ + what + " payload"@,
                failure::undecoded(json::syntax_error(body)),
            ),
        ),
        Some(payload) => match payload.member_text("error"@) {
            Some(message) => Err(
                failure::plain(what + " endpoint returned error: "@ + message),
            ),
            None => Ok(payload),
        },
    }
}

fn read_answer(body: &str, what: &str) -> (r: Result<Json, Failure>)
    ensures
        match r {
            Ok(payload) => answer_of(body@, what@) == Ok::<JsonTree, Seq<Seq<char>>>(payload@),
            Err(e) => answer_of(body@, what@) == Err::<JsonTree, Seq<Seq<char>>>(e@),
        },
{
    let payload = match json::read(body) {
        Ok(p) => p,
        Err(syntax) => {
            let mut message = "failed to parse ".to_owned();
            message.append(what);
            message.append(" payload");
            return Err(Failure::undecoded(syntax).behind(message));
        },
    };
    match payload.get_str("error") {
        Some(error) => {
            let mut message = what.to_owned();
            message.append(" endpoint returned error: ");
            message.append(error);
            return Err(Failure::from_text(message));
        },
        None => {},
    }
    Ok(payload)
}

/// The tick size in an answer that was read.
pub fn tick_size_in(payload: &Json) -> (r: Option<Reading>)
    ensures
        json::reading_view(r) == (match payload@.member("minimum_tick_size"@) {
            Some(v) => json::reading_of(v),
            None => None,
        }),
{
    match payload.get("minimum_tick_size") {
        Some(v) => json::value_to_f64(v),
        None => None,
    }
}

/// The fee rate in an answer that was read.
pub open spec fn fee_rate_of(payload: JsonTree) -> Option<nat> {
    match payload.member("base_fee"@) {
        Some(v) => u64_of(v),
        None => None,
    }
}

pub fn fee_rate_in(payload: &Json) -> (r: Result<u64, Failure>)
    ensures
        match r {
            Ok(n) => fee_rate_of(payload@) == Some(n as nat),
            Err(e) => fee_rate_of(payload@) is None && e@ == failure::plain(
                "fee rate payload missing base_fee"@,
            ),
        },
{
    let found = match payload.get("base_fee") {
        Some(v) => value_to_u64(v),
        None => None,
    };
    match found {
        Some(n) => Ok(n),
        None => Err(Failure::of("fee rate payload missing base_fee")),
    }
}

/// The flag in an answer that was read.
pub open spec fn neg_risk_of(payload: JsonTree) -> Option<bool> {
    match payload.member("neg_risk"@) {
        Some(v) => v.flag(),
        None => None,
    }
}

pub fn neg_risk_in(payload: &Json) -> (r: Result<bool, Failure>)
    ensures
        match r {
            Ok(b) => neg_risk_of(payload@) == Some(b),
            Err(e) => neg_risk_of(payload@) is None && e@ == failure::plain(
                "neg-risk payload missing neg_risk"@,
            ),
        },
{
    let found = match payload.get("neg_risk") {
        Some(v) => v.as_bool(),
        None => None,
    };
    match found {
        Some(b) => Ok(b),
        None => Err(Failure::of("neg-risk payload missing neg_risk")),
    }
}

/// What stands for the status of an order that the exchange refused to give.
pub open spec fn http_error_status(order_id: Seq<char>, status: u16, body: Seq<char>) -> JsonTree {
    JsonTree::Object(
        seq![
            ("source"@, JsonTree::Text("get_order_http_error"@)),
            ("orderId"@, JsonTree::Text(order_id)),
            ("httpStatus"@, json::count_tree(status as u64)),
            ("body"@, JsonTree::Text(text::cut(body, 220))),
        ],
    )
}

/// Whether an HTTP status is a success.
pub open spec fn is_success(status: u16) -> bool {
    200 <= status < 300
}

/// What is said of a balance that the exchange refused to give.
pub open spec fn balance_http_error(token_id: Seq<char>, status: u16, body: Seq<char>) -> Seq<char> {
    "balance-allowance failed with HTTP "@ + text::decimal(status as nat) + " body="@ + text::cut(
        body,
        220,
    ) + " tokenId="@ + token_id
}

/// The answer on a balance that was read: its two amounts as they are written.
pub open spec fn raw_amounts(token_id: Seq<char>, payload: JsonTree) -> Result<
    (Seq<char>, Seq<char>),
    Seq<Seq<char>>,
> {
    match payload.member_text("error"@) {
        Some(message) => Err(
            failure::plain(
                "balance-allowance endpoint returned error for token "@ + token_id + ": "@
                    + message,
            ),
        ),
        None => match balance_and_allowance(payload) {
            Some(pair) => Ok(pair),
            None => Err(
                failure::caused(
                    "unexpected balance-allowance payload shape token="@ + token_id + " payload="@
                        + text::cut(json::rendered(payload), 220),
                    failure::plain("balance-allowance payload missing balance"@),
                ),
            ),
        },
    }
}

impl ClobClient {
    /// The tick size in an answer, still to be read as a number.
    pub fn get_tick_size(body: &str) -> (r: Result<Option<Reading>, Failure>)
        ensures
            match r {
                Ok(reading) => answer_of(body@, "tick size"@) matches Ok(payload)
                    && json::reading_view(reading) == (match payload.member(
                    "minimum_tick_size"@,
                ) {
                    Some(v) => json::reading_of(v),
                    None => None,
                }),
                Err(e) => answer_of(body@, "tick size"@) == Err::<JsonTree, Seq<Seq<char>>>(
                    e@,
                ),
            },
    {
        match read_answer(body, "tick size") {
            Ok(payload) => Ok(tick_size_in(&payload)),
            Err(e) => Err(e),
        }
    }

    /// Refuses a tick size that is none.
    pub fn check_tick_size(tick: Option<Double>) -> (r: Result<Double, Failure>)
        ensures
            match r {
                Ok(t) => tick == Some(t) && t.finite() && t.positive(),
                Err(e) => !(tick is Some && tick->Some_0.finite() && tick->Some_0.positive())
                    && e@ == failure::plain("tick size payload missing minimum_tick_size"@),
            },
    {
        match tick {
            Some(t) => if t.is_finite() && t.is_positive() {
                return Ok(t);
            },
            None => {},
        }
        Err(Failure::of("tick size payload missing minimum_tick_size"))
    }

    /// The fee rate in an answer.
    pub fn get_fee_rate_bps(body: &str) -> (r: Result<u64, Failure>)
        ensures
            match answer_of(body@, "fee rate"@) {
                Err(chain) => r matches Err(e) && e@ == chain,
                Ok(payload) => match fee_rate_of(payload) {
                    Some(n) => r matches Ok(v) && v == n,
                    None => r matches Err(e) && e@ == failure::plain(
                        "fee rate payload missing base_fee"@,
                    ),
                },
            },
    {
        match read_answer(body, "fee rate") {
            Ok(payload) => fee_rate_in(&payload),
            Err(e) => Err(e),
        }
    }

    /// The neg-risk flag in an answer.
    pub fn get_neg_risk(body: &str) -> (r: Result<bool, Failure>)
        ensures
            match answer_of(body@, "neg-risk"@) {
                Err(chain) => r matches Err(e) && e@ == chain,
                Ok(payload) => match neg_risk_of(payload) {
                    Some(b) => r matches Ok(v) && v == b,
                    None => r matches Err(e) && e@ == failure::plain(
                        "neg-risk payload missing neg_risk"@,
                    ),
                },
            },
    {
        match read_answer(body, "neg-risk") {
            Ok(payload) => neg_risk_in(&payload),
            Err(e) => Err(e),
        }
    }

    /// The status of an order in an answer.
    pub fn get_order(order_id: &str, status: u16, body: &str) -> (r: Result<Json, Failure>)
        ensures
            if !is_success(status) {
                r matches Ok(payload) && payload@ == http_error_status(order_id@, status, body@)
            } else {
                match json::parsed(body@) {
                    Some(tree) => r matches Ok(payload) && payload@ == tree,
                    None => r matches Err(e) && e@ == failure::caused(
                        "failed to parse order status response for "@ + order_id@,
                        failure::undecoded(json::syntax_error(body@)),
                    ),
                }
            },
    {
        if status < 200 || status >= 300 {
            let short = text::truncate_text(body, 220);
            let mut m: Vec<Entry> = Vec::new();
            m.push(json::entry("source", json::text_json("get_order_http_error")));
            m.push(json::entry("orderId", json::text_json(order_id)));
            m.push(json::entry("httpStatus", json::count_json(status as u64)));
            m.push(json::entry("body", json::text_json(short.as_str())));
            proof {
                json::lemma_object_tree(m);
            }
            assert(json::record(m@) =~= seq![
                ("source"@, JsonTree::Text("get_order_http_error"@)),
                ("orderId"@, JsonTree::Text(order_id@)),
                ("httpStatus"@, json::count_tree(status as u64)),
                ("body"@, JsonTree::Text(text::cut(body@, 220))),
            ]);
            return Ok(Json::Object(m));
        }
        match json::read(body) {
            Ok(payload) => Ok(payload),
            Err(syntax) => {
                let mut message = "failed to parse order status response for ".to_owned();
                message.append(order_id);
                Err(Failure::undecoded(syntax).behind(message))
            },
        }
    }

    /// Balance and allowance of a token in an answer.
    pub fn get_conditional_balance_allowance(token_id: &str, status: u16, body: &str) -> (r: Result<
        ConditionalBalanceAllowance,
        Failure,
    >)
        ensures
            if !is_success(status) {
                r matches Err(e) && e@ == failure::plain(
                    balance_http_error(token_id@, status, body@),
                )
            } else {
                match json::parsed(body@) {
                    None => r matches Err(e) && e@ == failure::caused(
                        "failed to parse balance-allowance payload for token "@ + token_id@
                            + " body="@ + text::cut(body@, 220),
                        json::syntax_error(body@),
                    ),
                    Some(payload) => match raw_amounts(token_id@, payload) {
                        Err(chain) => r matches Err(e) && e@ == chain,
                        Ok((balance, allowance)) => {
                            let b = amount_units(
                                "balance"@,
                                balance,
                                units_of(text::trimmed(balance)),
                            );
                            let a = amount_units(
                                "allowance"@,
                                allowance,
                                units_of(text::trimmed(allowance)),
                            );
                            match (b, a) {
                                (Err(chain), _) => r matches Err(e) && e@ == chain,
                                (_, Err(chain)) => r matches Err(e) && e@ == chain,
                                (Ok(bn), Ok(an)) => r matches Ok(result) && result.balance_raw@
                                    == balance && result.allowance_raw@ == allowance
                                    && result.balance_units@ == bn && result.allowance_units@
                                    == an,
                            }
                        },
                    },
                }
            },
    {
        if status < 200 || status >= 300 {
            let mut message = "balance-allowance failed with HTTP ".to_owned();
            message.append(text::decimal_u64(status as u64).as_str());
            message.append(" body=");
            message.append(text::truncate_text(body, 220).as_str());
            message.append(" tokenId=");
            message.append(token_id);
            return Err(Failure::from_text(message));
        }
        let (payload, line) = match json::read_and_render(body) {
            Ok(pair) => pair,
            Err(syntax) => {
                let mut message = "failed to parse balance-allowance payload for token ".to_owned();
                message.append(token_id);
                message.append(" body=");
                message.append(text::truncate_text(body, 220).as_str());
                return Err(Failure::with_causes(message, syntax));
            },
        };
        match payload.get_str("error") {
            Some(error) => {
                let mut message =
                    "balance-allowance endpoint returned error for token ".to_owned();
                message.append(token_id);
                message.append(": ");
                message.append(error);
                return Err(Failure::from_text(message));
            },
            None => {},
        }
        let (balance_raw, allowance_raw) = match parse_balance_allowance_payload(&payload) {
            Ok(pair) => pair,
            Err(cause) => {
                let mut message = "unexpected balance-allowance payload shape token=".to_owned();
                message.append(token_id);
                message.append(" payload=");
                message.append(text::truncate_text(line.as_str(), 220).as_str());
                return Err(cause.behind(message));
            },
        };
        let balance_units = match parse_balance_allowance_units("balance", balance_raw.as_str()) {
            Ok(n) => n,
            Err(e) => {
                return Err(e);
            },
        };
        let allowance_units = match parse_balance_allowance_units(
            "allowance",
            allowance_raw.as_str(),
        ) {
            Ok(n) => n,
            Err(e) => {
                return Err(e);
            },
        };
        Ok(
            ConditionalBalanceAllowance {
                balance_raw,
                allowance_raw,
                balance_units,
                allowance_units,
            },
        )
    }

    /// The answer to an order that was posted.
    pub fn post_order(status: u16, status_line: &str, body: &str) -> (r: Result<Json, Failure>)
        ensures
            if text::is_blank(body@) {
                if is_success(status) {
                    r matches Ok(payload) && payload@ == JsonTree::Null
                } else {
                    r matches Err(e) && e@ == failure::plain(
                        "post order failed with HTTP "@ + status_line@
                            + " and empty response body"@,
                    )
                }
            } else {
                match json::parsed(body@) {
                    Some(tree) => r matches Ok(payload) && payload@ == tree,
                    None => r matches Err(e) && e@ == failure::caused(
                        "failed to parse post order response (status="@ + status_line@
                            + ", body="@ + body@ + ")"@,
                        json::syntax_error(body@),
                    ),
                }
            },
    {
        if text::blank(body) {
            if status >= 200 && status < 300 {
                return Ok(Json::Null);
            }
            let mut message = "post order failed with HTTP ".to_owned();
            message.append(status_line);
            message.append(" and empty response body");
            return Err(Failure::from_text(message));
        }
        match json::read(body) {
            Ok(payload) => Ok(payload),
            Err(syntax) => {
                let mut message = "failed to parse post order response (status=".to_owned();
                message.append(status_line);
                message.append(", body=");
                message.append(body);
                message.append(")");
                Err(Failure::with_causes(message, syntax))
            },
        }
    }
}

// ---------------------------------------------------------------------------
// Requests
// ---------------------------------------------------------------------------

/// The number in the salt of an order; zero where it is none.
pub open spec fn salt_number(salt: Seq<char>) -> nat {
    match text::unsigned_of(salt, u128::MAX as nat + 1) {
        Some(n) => n,
        None => 0,
    }
}

/// Whether the salt of an order can be written as a JSON number.
pub fn salt_fits(order: &SignedOrder) -> (r: bool)
    ensures
        r == (salt_number(order.salt@) <= u64::MAX),
{
    match text::parse_u128(order.salt.as_str()) {
        Some(n) => n <= u64::MAX as u128,
        None => true,
    }
}

/// The order as a member of the request.
pub open spec fn order_member(order: SignedOrder) -> JsonTree {
    json::object_tree(
        seq![
            ("salt"@, json::count_tree(salt_number(order.salt@) as u64)),
            ("maker"@, JsonTree::Text(order.maker@)),
            ("signer"@, JsonTree::Text(order.signer@)),
            ("taker"@, JsonTree::Text(order.taker@)),
            ("tokenId"@, JsonTree::Text(order.token_id@)),
            ("makerAmount"@, JsonTree::Text(order.maker_amount@)),
            ("takerAmount"@, JsonTree::Text(order.taker_amount@)),
            ("side"@, JsonTree::Text(order.side.name())),
            ("expiration"@, JsonTree::Text(order.expiration@)),
            ("nonce"@, JsonTree::Text(order.nonce@)),
            ("feeRateBps"@, JsonTree::Text(order.fee_rate_bps@)),
            ("signatureType"@, json::count_tree(order.signature_type as u64)),
            ("signature"@, JsonTree::Text(order.signature@)),
        ],
    )
}

/// The request that posts an order.
pub open spec fn order_request(
    owner: Seq<char>,
    order: SignedOrder,
    order_type: Seq<char>,
    defer_exec: bool,
    post_only: Option<bool>,
) -> JsonTree {
    let members = seq![
        ("deferExec"@, JsonTree::Bool(defer_exec)),
        ("order"@, order_member(order)),
        ("owner"@, JsonTree::Text(owner)),
        ("orderType"@, JsonTree::Text(order_type)),
    ];
    json::object_tree(
        match post_only {
            Some(flag) => members.push(("postOnly"@, JsonTree::Bool(flag))),
            None => members,
        },
    )
}

fn build_order_member(order: &SignedOrder) -> (r: Document)
    requires
        salt_number(order.salt@) <= u64::MAX,
    ensures
        r@ == order_member(*order),
{
    let salt: u64 = match text::parse_u128(order.salt.as_str()) {
        Some(n) => n as u64,
        None => 0,
    };
    let mut m: Vec<(String, Document)> = Vec::new();
    m.push(json::member("salt", Document::count(salt)));
    m.push(json::member("maker", Document::text(order.maker.as_str())));
    m.push(json::member("signer", Document::text(order.signer.as_str())));
    m.push(json::member("taker", Document::text(order.taker.as_str())));
    m.push(json::member("tokenId", Document::text(order.token_id.as_str())));
    m.push(json::member("makerAmount", Document::text(order.maker_amount.as_str())));
    m.push(json::member("takerAmount", Document::text(order.taker_amount.as_str())));
    m.push(json::member("side", Document::text(order.side.as_str())));
    m.push(json::member("expiration", Document::text(order.expiration.as_str())));
    m.push(json::member("nonce", Document::text(order.nonce.as_str())));
    m.push(json::member("feeRateBps", Document::text(order.fee_rate_bps.as_str())));
    m.push(json::member("signatureType", Document::count(order.signature_type as u64)));
    m.push(json::member("signature", Document::text(order.signature.as_str())));
    assert(json::document_members(m@) =~= seq![
        ("salt"@, json::count_tree(salt_number(order.salt@) as u64)),
        ("maker"@, JsonTree::Text(order.maker@)),
        ("signer"@, JsonTree::Text(order.signer@)),
        ("taker"@, JsonTree::Text(order.taker@)),
        ("tokenId"@, JsonTree::Text(order.token_id@)),
        ("makerAmount"@, JsonTree::Text(order.maker_amount@)),
        ("takerAmount"@, JsonTree::Text(order.taker_amount@)),
        ("side"@, JsonTree::Text(order.side.name())),
        ("expiration"@, JsonTree::Text(order.expiration@)),
        ("nonce"@, JsonTree::Text(order.nonce@)),
        ("feeRateBps"@, JsonTree::Text(order.fee_rate_bps@)),
        ("signatureType"@, json::count_tree(order.signature_type as u64)),
        ("signature"@, JsonTree::Text(order.signature@)),
    ]);
    Document::object(m)
}

/// Whether a text can stand in an HTTP header: it holds no control characters but tabs.
pub open spec fn is_header_text(s: Seq<char>) -> bool {
    forall|i: int|
        0 <= i < s.len() ==> ((#[trigger] s[i]) as int >= 32 && s[i] as int != 127) || s[i] as int
            == 9
}

fn header_char(c: char) -> (r: bool)
    ensures
        r == ((c as int >= 32 && c as int != 127) || c as int == 9),
{
    let n: u32 = c as u32;
    (n >= 32 && n != 127) || n == 9
}

fn header_text(s: &str) -> (r: bool)
    ensures
        r == is_header_text(s@),
{
    let chars = text::chars_of(s);
    let mut i: usize = 0;
    while i < chars.len()
        invariant
            i <= chars.len(),
            chars@ == s@,
            forall|j: int|
                0 <= j < i ==> ((#[trigger] s@[j]) as int >= 32 && s@[j] as int != 127)
                    || s@[j] as int == 9,
        decreases chars.len() - i,
    {
        if !header_char(chars[i]) {
            assert(!is_header_text(s@)) by {
                let c = s@[i as int];
            }
            return false;
        }
        i = i + 1;
    }
    true
}

/// The headers that authenticate a request.
pub struct L2Headers {
    pub address: String,
    pub signature: String,
    pub timestamp: String,
    pub api_key: String,
    pub passphrase: String,
}

#[verifier::ext_equal]
pub struct HeadersView {
    pub address: Seq<char>,
    pub signature: Seq<char>,
    pub timestamp: Seq<char>,
    pub api_key: Seq<char>,
    pub passphrase: Seq<char>,
}

impl L2Headers {
    pub open spec fn view(self) -> HeadersView {
        HeadersView {
            address: self.address@,
            signature: self.signature@,
            timestamp: self.timestamp@,
            api_key: self.api_key@,
            passphrase: self.passphrase@,
        }
    }
}

/// What is signed for a request: the time, the method, the path and the body.
pub open spec fn signed_message(
    timestamp: i64,
    method: Seq<char>,
    path: Seq<char>,
    body: Option<Seq<char>>,
) -> Seq<char> {
    let head = text::decimal_int(timestamp as int) + method + path;
    match body {
        Some(b) => head + b,
        None => head,
    }
}

/// A header whose value cannot stand in one.
pub open spec fn refused_header(message: Seq<char>) -> Seq<Seq<char>> {
    failure::caused(message, failure::plain("failed to parse header value"@))
}

fn header_refused(message: &str) -> (r: Failure)
    ensures
        r@ == refused_header(message@),
{
    Failure::of("failed to parse header value").behind(message.to_owned())
}

/// The headers with a given signature, or what is wrong with one of them.
pub open spec fn headers_with(client: ClientView, timestamp: i64, signature: Seq<char>) -> Result<
    HeadersView,
    Seq<Seq<char>>,
> {
    let time = text::decimal_int(timestamp as int);
    if !is_header_text(client.signer_address) {
        Err(refused_header("invalid POLY_ADDRESS header value"@))
    } else if !is_header_text(signature) {
        Err(refused_header("invalid POLY_SIGNATURE header value"@))
    } else if !is_header_text(time) {
        Err(refused_header("invalid POLY_TIMESTAMP header value"@))
    } else if !is_header_text(client.api_key) {
        Err(refused_header("invalid POLY_API_KEY header value"@))
    } else if !is_header_text(client.api_passphrase) {
        Err(refused_header("invalid POLY_PASSPHRASE header value"@))
    } else {
        Ok(
            HeadersView {
                address: client.signer_address,
                signature,
                timestamp: time,
                api_key: client.api_key,
                passphrase: client.api_passphrase,
            },
        )
    }
}

pub open spec fn headers_result(
    r: Result<L2Headers, Failure>,
    s: Result<HeadersView, Seq<Seq<char>>>,
) -> bool {
    match r {
        Ok(headers) => s == Ok::<HeadersView, Seq<Seq<char>>>(headers@),
        Err(e) => s == Err::<HeadersView, Seq<Seq<char>>>(e@),
    }
}

impl ClobClient {
    /// The body of the request that posts an order.
    pub fn order_body(
        &self,
        order: &SignedOrder,
        order_type: &str,
        defer_exec: bool,
        post_only: Option<bool>,
    ) -> (r: String)
        requires
            salt_number(order.salt@) <= u64::MAX,
        ensures
            r@ == json::rendered(
                order_request(self@.api_key, *order, order_type@, defer_exec, post_only),
            ),
    {
        let order_doc = build_order_member(order);
        let mut m: Vec<(String, Document)> = Vec::new();
        m.push(json::member("deferExec", Document::flag(defer_exec)));
        m.push(json::member("order", order_doc));
        m.push(json::member("owner", Document::text(self.api_key())));
        m.push(json::member("orderType", Document::text(order_type)));
        let ghost members = seq![
            ("deferExec"@, JsonTree::Bool(defer_exec)),
            ("order"@, order_member(*order)),
            ("owner"@, JsonTree::Text(self@.api_key)),
            ("orderType"@, JsonTree::Text(order_type@)),
        ];
        assert(json::document_members(m@) =~= members);
        match post_only {
            Some(flag) => {
                m.push(json::member("postOnly", Document::flag(flag)));
                assert(json::document_members(m@) =~= members.push(
                    ("postOnly"@, JsonTree::Bool(flag)),
                ));
            },
            None => {},
        }
        Document::object(m).render()
    }

    /// The headers of a request whose signature is given.
    pub fn headers_with_signature(&self, timestamp: i64, signature: String) -> (r: Result<
        L2Headers,
        Failure,
    >)
        ensures
            headers_result(r, headers_with(self@, timestamp, signature@)),
    {
        let time = text::decimal_i64(timestamp);
        if !header_text(self.signer_address()) {
            return Err(header_refused("invalid POLY_ADDRESS header value"));
        }
        if !header_text(signature.as_str()) {
            return Err(header_refused("invalid POLY_SIGNATURE header value"));
        }
        if !header_text(time.as_str()) {
            return Err(header_refused("invalid POLY_TIMESTAMP header value"));
        }
        if !header_text(self.api_key()) {
            return Err(header_refused("invalid POLY_API_KEY header value"));
        }
        if !header_text(self.api_passphrase()) {
            return Err(header_refused("invalid POLY_PASSPHRASE header value"));
        }
        Ok(
            L2Headers {
                address: self.signer_address().to_owned(),
                signature,
                timestamp: time,
                api_key: self.api_key().to_owned(),
                passphrase: self.api_passphrase().to_owned(),
            },
        )
    }

    /// The headers of a request.
    pub fn build_l2_headers(
        &self,
        timestamp: i64,
        method: &str,
        request_path: &str,
        body: Option<&str>,
    ) -> (r: Result<L2Headers, Failure>)
        ensures
            ({
                let clean = api_secret::secret_chars(text::trimmed(self@.api_secret));
                let message = signed_message(
                    timestamp,
                    method@,
                    request_path@,
                    match body {
                        Some(b) => Some(b@),
                        None => None,
                    },
                );
                if clean.len() == 0 {
                    r matches Err(e) && e@ == failure::plain("POLYMARKET_API_SECRET is empty"@)
                } else {
                    match api_secret::secret_bytes(clean) {
                        None => r matches Err(e) && e@ == failure::plain(
                            "POLYMARKET_API_SECRET is not valid base64/base64url"@,
                        ),
                        Some(key) => headers_result(
                            r,
                            headers_with(
                                self@,
                                timestamp,
                                api_secret::signature_of(key, message),
                            ),
                        ),
                    }
                }
            }),
    {
        let mut message = text::decimal_i64(timestamp);
        message.append(method);
        message.append(request_path);
        match body {
            Some(b) => {
                message.append(b);
            },
            None => {},
        }
        let key = match api_secret::decode_api_secret(self.api_secret()) {
            Ok(key) => key,
            Err(message) => {
                return Err(Failure::from_text(message));
            },
        };
        let signature = api_secret::build_poly_hmac_signature(&key, message.as_str());
        self.headers_with_signature(timestamp, signature)
    }
}

/// The path of an order's status.
pub fn order_status_path(order_id: &str) -> (r: String)
    ensures
        r@ == "/data/order/"@ + order_id@,
{
    let mut out = "/data/order/".to_owned();
    out.append(order_id);
    out
}

// ---------------------------------------------------------------------------
// What answers and requests come to
// ---------------------------------------------------------------------------

/// Where an amount, a balance or an allowance is looked for, and in which order.
pub proof fn amounts_are_looked_for_in_order()
    ensures
        ({
            &&& preferred_keys().len() == 7
            &&& preferred_keys()[0]@ == "amount"@
            &&& preferred_keys()[1]@ == "value"@
            &&& preferred_keys()[2]@ == "raw"@
            &&& preferred_keys()[3]@ == "balance"@
            &&& preferred_keys()[4]@ == "allowance"@
            &&& preferred_keys()[5]@ == "available"@
            &&& preferred_keys()[6]@ == "approved"@
            &&& balance_keys().len() == 4
            &&& balance_keys()[0]@ == "balance"@
            &&& balance_keys()[1]@ == "available"@
            &&& balance_keys()[2]@ == "available_balance"@
            &&& balance_keys()[3]@ == "balance_raw"@
            &&& allowance_keys().len() == 5
            &&& allowance_keys()[0]@ == "allowance"@
            &&& allowance_keys()[1]@ == "allowances"@
            &&& allowance_keys()[2]@ == "approved"@
            &&& allowance_keys()[3]@ == "approval"@
            &&& allowance_keys()[4]@ == "available_allowance"@
        }),
{
}

/// The amount under the first of several keys is taken that has one; there is none exactly where no
/// key has one.
pub proof fn first_key_with_an_amount_counts(
    members: Seq<(Seq<char>, JsonTree)>,
    keys: Seq<&str>,
    i: int,
)
    ensures
        0 <= i < keys.len() && amount_of_member(members, keys[i]@) is Some && (forall|j: int|
            0 <= j < i ==> amount_of_member(members, (#[trigger] keys[j])@) is None) ==> amount_at(
            members,
            keys,
        ) == amount_of_member(members, keys[i]@),
        amount_at(members, keys) is None <==> forall|j: int|
            0 <= j < keys.len() ==> amount_of_member(members, (#[trigger] keys[j])@) is None,
    decreases keys.len(),
{
    if keys.len() > 0 {
        let rest = keys.drop_first();
        first_key_with_an_amount_counts(members, rest, i - 1);
        assert forall|j: int| 0 <= j < rest.len() implies #[trigger] rest[j] == keys[j + 1] by {}
        if amount_of_member(members, keys[0]@) is None {
            if amount_at(members, rest) is None {
                assert forall|j: int| 0 <= j < keys.len() implies amount_of_member(
                    members,
                    (#[trigger] keys[j])@,
                ) is None by {
                    if j > 0 {
                        assert(rest[j - 1] == keys[j]);
                    }
                }
            }
        } else {
            assert(amount_at(members, keys) == amount_of_member(members, keys[0]@));
        }
        if 0 < i < keys.len() {
            assert(rest[i - 1] == keys[i]);
        }
    }
}

/// The amount of a member, where there is such a member and it has one.
pub open spec fn amount_of_member(members: Seq<(Seq<char>, JsonTree)>, key: Seq<char>) -> Option<
    Seq<char>,
> {
    match json::lookup(members, key) {
        Some(v) => first_amount(v),
        None => None,
    }
}

/// An amount is a text without the white space around it, or the numeral of a number; a blank text, a
/// flag and nothing have none. A list has the first amount of its items, and an object that under the
/// first of the preferred keys.
pub proof fn values_have_their_amounts(
    s: Seq<char>,
    n: u64,
    b: bool,
    first: JsonTree,
    items: Seq<JsonTree>,
    members: Seq<(Seq<char>, JsonTree)>,
)
    ensures
        text::trimmed(s).len() > 0 ==> first_amount(JsonTree::Text(s)) == Some(text::trimmed(s)),
        text::trimmed(s).len() == 0 ==> first_amount(JsonTree::Text(s)) is None,
        first_amount(json::count_tree(n)) == Some(text::decimal(n as nat)),
        first_amount(JsonTree::Bool(b)) is None,
        first_amount(JsonTree::Null) is None,
        first_amount(JsonTree::Array(Seq::empty())) is None,
        first_amount(first) is Some ==> first_amount(JsonTree::Array(seq![first] + items))
            == first_amount(first),
        first_amount(first) is None ==> first_amount(JsonTree::Array(seq![first] + items))
            == first_amount(JsonTree::Array(items)),
        amount_of_member(members, "amount"@) is Some ==> first_amount(JsonTree::Object(members))
            == amount_of_member(members, "amount"@),
{
    let all = seq![first] + items;
    assert(all[0] == first);
    assert(all.drop_first() =~= items);
    assert(preferred_keys()[0]@ == "amount"@);
    first_key_with_an_amount_counts(members, preferred_keys(), 0);
}

/// An answer's own amount goes before that of its data, and that before the one of its result; what is
/// no object has none.
pub proof fn own_amount_goes_first(members: Seq<(Seq<char>, JsonTree)>, keys: Seq<&str>)
    ensures
        ({
            let own = amount_at(members, keys);
            let data = json::lookup(members, "data"@);
            let result = json::lookup(members, "result"@);
            let in_data = data matches Some(JsonTree::Object(d)) && amount_at(d, keys) is Some;
            let in_result = result matches Some(JsonTree::Object(d)) && amount_at(d, keys) is Some;
            let found = payload_amount(JsonTree::Object(members), keys);
            &&& own is Some ==> found == own
            &&& own is None && in_data ==> found == amount_at(data->Some_0->Object_0, keys)
            &&& own is None && !in_data && in_result ==> found == amount_at(
                result->Some_0->Object_0,
                keys,
            )
            &&& own is None && !in_data && !in_result ==> found is None
            &&& payload_amount(JsonTree::Null, keys) is None
        }),
{
}

/// An answer needs a balance; its allowance is the balance where it names none.
pub proof fn allowance_is_the_balance_where_none_is_named(payload: JsonTree)
    ensures
        balance_and_allowance(payload) is Some <==> payload_amount(payload, balance_keys()) is Some,
        balance_and_allowance(payload) matches Some((balance, allowance)) ==> {
            &&& payload_amount(payload, balance_keys()) == Some(balance)
            &&& payload_amount(payload, allowance_keys()) is Some ==> payload_amount(
                payload,
                allowance_keys(),
            ) == Some(allowance)
            &&& payload_amount(payload, allowance_keys()) is None ==> allowance == balance
        },
{
}

/// A whole number is an amount in base units as it stands, and anything else is what it comes to with
/// six decimals; a blank text is no amount.
pub proof fn whole_numbers_are_base_units(
    field: Seq<char>,
    n: nat,
    raw: Seq<char>,
    units: Result<nat, Seq<Seq<char>>>,
)
    ensures
        n < uint::limit() ==> amount_units(field, text::decimal(n), units) == Ok::<
            nat,
            Seq<Seq<char>>,
        >(n),
        text::trimmed(raw).len() == 0 ==> amount_units(field, raw, units) == Err::<
            nat,
            Seq<Seq<char>>,
        >(seq![field + " must not be empty"@]),
        text::trimmed(raw).contains('.') && units is Ok ==> amount_units(field, raw, units)
            == units,
        text::trimmed(raw).contains('.') && units is Err ==> amount_units(field, raw, units)
            == Err::<nat, Seq<Seq<char>>>(
            seq![field + " must be valid decimal amount, got: "@ + raw] + units->Err_0,
        ),
        text::trimmed(raw).len() > 0 && !text::all_digits(text::trimmed(raw)) && units is Ok
            ==> amount_units(field, raw, units) == units,
        text::trimmed(raw).len() > 0 && !text::all_digits(text::trimmed(raw)) && units is Err
            ==> amount_units(field, raw, units) is Err,
{
    reveal_strlit(".");
    text::decimal_round_trip(n);
    let d = text::decimal(n);
    text::lemma_digits_are_trimmed(d);
    if text::contains(d, "."@) {
        let j = choose|j: int| text::occurs_at(d, "."@, j);
        assert(d.subrange(j, j + 1)[0] == d[j]);
        assert(text::is_digit(d[j]));
    }
    let s = text::trimmed(raw);
    if s.contains('.') {
        let j = choose|j: int| 0 <= j < s.len() && s[j] == '.';
        assert(s.subrange(j, j + 1) =~= "."@);
        assert(text::occurs_at(s, "."@, j));
    }
}

/// An unsigned number is read from a number or from its numeral, and from nothing else.
pub proof fn unsigned_numbers_are_read(n: u64, b: bool)
    ensures
        u64_of(json::count_tree(n)) == Some(n as nat),
        u64_of(JsonTree::Text(text::decimal(n as nat))) == Some(n as nat),
        u64_of(JsonTree::Bool(b)) is None,
        u64_of(JsonTree::Null) is None,
{
    text::decimal_round_trip(n as nat);
    text::lemma_digits_are_trimmed(text::decimal(n as nat));
    text::numerals_can_be_read(n as nat, u64::MAX as nat + 1, seq!['x'], 0);
}

/// An answer is taken exactly where it can be read and names no error; an error that it names is told.
pub proof fn named_error_refuses_the_answer(body: Seq<char>, what: Seq<char>)
    ensures
        ({
            let read = json::parsed(body);
            let answer = answer_of(body, what);
            let error = read->Some_0.member_text("error"@);
            &&& answer is Ok <==> read is Some && error is None
            &&& answer matches Ok(payload) ==> Some(payload) == read
            &&& read is Some && error is Some ==> answer == Err::<JsonTree, Seq<Seq<char>>>(
                seq![what + " endpoint returned error: "@ + error->Some_0],
            )
            &&& read is None ==> (answer matches Err(chain) && chain.len() > 0 && chain[0]
                == "failed to parse "@ + what + " payload"@)
        }),
{
}

/// The fee and the flag of a market are read from their own members.
pub proof fn market_terms_are_read_from_their_members(payload: JsonTree, n: u64, b: bool)
    ensures
        payload.member("base_fee"@) == Some(json::count_tree(n)) ==> fee_rate_of(payload) == Some(
            n as nat,
        ),
        payload.member("base_fee"@) is None ==> fee_rate_of(payload) is None,
        payload.member("neg_risk"@) == Some(JsonTree::Bool(b)) ==> neg_risk_of(payload) == Some(b),
        payload.member("neg_risk"@) is None ==> neg_risk_of(payload) is None,
        payload.member("neg_risk"@) matches Some(JsonTree::Text(s)) ==> neg_risk_of(
            payload,
        ) is None,
{
}

/// A status that was refused is put down as such, with the order, the HTTP status and at most 220
/// characters of what was said; statuses from 200 to 299 are successes.
pub proof fn refused_status_is_put_down(order_id: Seq<char>, status: u16, body: Seq<char>)
    ensures
        ({
            let refused = http_error_status(order_id, status, body);
            &&& refused.member("source"@) == Some(JsonTree::Text("get_order_http_error"@))
            &&& refused.member("orderId"@) == Some(JsonTree::Text(order_id))
            &&& refused.member("httpStatus"@) == Some(json::count_tree(status as u64))
            &&& refused.member("body"@) matches Some(JsonTree::Text(told)) && told.is_prefix_of(body)
                && told.len() <= 220 && (body.len() <= 220 ==> told == body)
            &&& is_success(status) <==> status as int / 100 == 2
        }),
{
    reveal_strlit("source");
    reveal_strlit("orderId");
    reveal_strlit("httpStatus");
    reveal_strlit("body");
    assert("source"@.len() == 6);
    assert("orderId"@.len() == 7);
    assert("httpStatus"@.len() == 10);
    assert("body"@.len() == 4);
    text::cut_text_keeps_its_beginning(body, 220);
    let m = http_error_status(order_id, status, body)->Object_0;
    assert(m[0].0 == "source"@ && m[1].0 == "orderId"@ && m[2].0 == "httpStatus"@ && m[3].0
        == "body"@);
    json::first_member_is_found(m, "source"@, 0);
    json::first_member_is_found(m, "orderId"@, 1);
    json::first_member_is_found(m, "httpStatus"@, 2);
    json::first_member_is_found(m, "body"@, 3);
}

/// A balance is read from an answer exactly where it names no error and has a balance.
pub proof fn balance_is_read_unless_an_error_is_named(token_id: Seq<char>, payload: JsonTree)
    ensures
        ({
            let read = raw_amounts(token_id, payload);
            let error = payload.member_text("error"@);
            &&& read is Ok <==> error is None && balance_and_allowance(payload) is Some
            &&& read matches Ok(pair) ==> balance_and_allowance(payload) == Some(pair)
            &&& error matches Some(e) ==> read == Err::<(Seq<char>, Seq<char>), Seq<Seq<char>>>(
                seq!["balance-allowance endpoint returned error for token "@ + token_id + ": "@ + e],
            )
        }),
{
}

/// The request that posts an order holds it: each of its fields under its name, the account, the type
/// and the flags; the salt goes as a number, and the flag for makers only where it is given.
pub proof fn request_holds_the_order(
    owner: Seq<char>,
    order: SignedOrder,
    order_type: Seq<char>,
    defer_exec: bool,
    post_only: Option<bool>,
    n: u64,
)
    requires
        order.salt@ == text::decimal(n as nat),
    ensures
        ({
            let request = order_request(owner, order, order_type, defer_exec, post_only);
            let member = order_member(order);
            &&& request.member("order"@) == Some(member)
            &&& request.member("owner"@) == Some(JsonTree::Text(owner))
            &&& request.member("orderType"@) == Some(JsonTree::Text(order_type))
            &&& request.member("deferExec"@) == Some(JsonTree::Bool(defer_exec))
            &&& post_only matches Some(flag) ==> request.member("postOnly"@) == Some(
                JsonTree::Bool(flag),
            )
            &&& post_only is None ==> request.member("postOnly"@) is None
            &&& member.member("salt"@) == Some(json::count_tree(n))
            &&& member.member("maker"@) == Some(JsonTree::Text(order.maker@))
            &&& member.member("signer"@) == Some(JsonTree::Text(order.signer@))
            &&& member.member("taker"@) == Some(JsonTree::Text(order.taker@))
            &&& member.member("tokenId"@) == Some(JsonTree::Text(order.token_id@))
            &&& member.member("makerAmount"@) == Some(JsonTree::Text(order.maker_amount@))
            &&& member.member("takerAmount"@) == Some(JsonTree::Text(order.taker_amount@))
            &&& member.member("expiration"@) == Some(JsonTree::Text(order.expiration@))
            &&& member.member("nonce"@) == Some(JsonTree::Text(order.nonce@))
            &&& member.member("feeRateBps"@) == Some(JsonTree::Text(order.fee_rate_bps@))
            &&& member.member("signatureType"@) == Some(json::count_tree(order.signature_type as u64))
            &&& member.member("signature"@) == Some(JsonTree::Text(order.signature@))
            &&& member.member("side"@) == Some(
                JsonTree::Text(
                    if order.side == crate::execution::order_signing::OrderSide::Buy {
                        "BUY"@
                    } else {
                        "SELL"@
                    },
                ),
            )
        }),
{
    reveal_strlit("order");
    reveal_strlit("owner");
    reveal_strlit("orderType");
    reveal_strlit("deferExec");
    reveal_strlit("postOnly");
    reveal_strlit("salt");
    reveal_strlit("maker");
    reveal_strlit("signer");
    reveal_strlit("taker");
    reveal_strlit("tokenId");
    reveal_strlit("makerAmount");
    reveal_strlit("takerAmount");
    reveal_strlit("side");
    reveal_strlit("expiration");
    reveal_strlit("nonce");
    reveal_strlit("feeRateBps");
    reveal_strlit("signatureType");
    reveal_strlit("signature");
    assert("order"@.len() == 5);
    assert("owner"@.len() == 5);
    assert("orderType"@.len() == 9);
    assert("deferExec"@.len() == 9);
    assert("postOnly"@.len() == 8);
    assert("salt"@.len() == 4);
    assert("maker"@.len() == 5);
    assert("signer"@.len() == 6);
    assert("taker"@.len() == 5);
    assert("tokenId"@.len() == 7);
    assert("makerAmount"@.len() == 11);
    assert("takerAmount"@.len() == 11);
    assert("side"@.len() == 4);
    assert("expiration"@.len() == 10);
    assert("nonce"@.len() == 5);
    assert("feeRateBps"@.len() == 10);
    assert("signatureType"@.len() == 13);
    assert("signature"@.len() == 9);
    assert("order"@[1] != "owner"@[1]);
    assert("order"@[0] != "maker"@[0]);
    assert("order"@[0] != "taker"@[0]);
    assert("order"@[0] != "nonce"@[0]);
    assert("owner"@[0] != "maker"@[0]);
    assert("owner"@[0] != "taker"@[0]);
    assert("owner"@[0] != "nonce"@[0]);
    assert("maker"@[0] != "taker"@[0]);
    assert("maker"@[0] != "nonce"@[0]);
    assert("taker"@[0] != "nonce"@[0]);
    assert("orderType"@[0] != "deferExec"@[0]);
    assert("orderType"@[0] != "signature"@[0]);
    assert("deferExec"@[0] != "signature"@[0]);
    assert("salt"@[1] != "side"@[1]);
    assert("makerAmount"@[0] != "takerAmount"@[0]);
    assert("expiration"@[0] != "feeRateBps"@[0]);
    text::decimal_round_trip(n as nat);
    text::numerals_can_be_read(n as nat, u128::MAX as nat + 1, seq!['x'], 0);
    let plain = seq![
        ("deferExec"@, JsonTree::Bool(defer_exec)),
        ("order"@, order_member(order)),
        ("owner"@, JsonTree::Text(owner)),
        ("orderType"@, JsonTree::Text(order_type)),
    ];
    let parts = match post_only {
        Some(flag) => plain.push(("postOnly"@, JsonTree::Bool(flag))),
        None => plain,
    };
    assert(order_request(owner, order, order_type, defer_exec, post_only) == json::object_tree(
        parts,
    ));
    json::members_are_found_by_their_keys(parts, 0);
    json::members_are_found_by_their_keys(parts, 1);
    json::members_are_found_by_their_keys(parts, 2);
    json::members_are_found_by_their_keys(parts, 3);
    if post_only is Some {
        json::members_are_found_by_their_keys(parts, 4);
    } else {
        json::other_members_are_not_there(parts, "postOnly"@);
    }
    let fields = seq![
        ("salt"@, json::count_tree(salt_number(order.salt@) as u64)),
        ("maker"@, JsonTree::Text(order.maker@)),
        ("signer"@, JsonTree::Text(order.signer@)),
        ("taker"@, JsonTree::Text(order.taker@)),
        ("tokenId"@, JsonTree::Text(order.token_id@)),
        ("makerAmount"@, JsonTree::Text(order.maker_amount@)),
        ("takerAmount"@, JsonTree::Text(order.taker_amount@)),
        ("side"@, JsonTree::Text(order.side.name())),
        ("expiration"@, JsonTree::Text(order.expiration@)),
        ("nonce"@, JsonTree::Text(order.nonce@)),
        ("feeRateBps"@, JsonTree::Text(order.fee_rate_bps@)),
        ("signatureType"@, json::count_tree(order.signature_type as u64)),
        ("signature"@, JsonTree::Text(order.signature@)),
    ];
    assert(order_member(order) == json::object_tree(fields));
    json::members_are_found_by_their_keys(fields, 0);
    json::members_are_found_by_their_keys(fields, 1);
    json::members_are_found_by_their_keys(fields, 2);
    json::members_are_found_by_their_keys(fields, 3);
    json::members_are_found_by_their_keys(fields, 4);
    json::members_are_found_by_their_keys(fields, 5);
    json::members_are_found_by_their_keys(fields, 6);
    json::members_are_found_by_their_keys(fields, 7);
    json::members_are_found_by_their_keys(fields, 8);
    json::members_are_found_by_their_keys(fields, 9);
    json::members_are_found_by_their_keys(fields, 10);
    json::members_are_found_by_their_keys(fields, 11);
    json::members_are_found_by_their_keys(fields, 12);
}

/// A request is signed over its time, its method, its path and its body, one behind the other.
pub proof fn request_is_signed_in_order(
    timestamp: i64,
    method: Seq<char>,
    path: Seq<char>,
    body: Seq<char>,
)
    ensures
        ({
            let time = text::decimal_int(timestamp as int);
            let bare = signed_message(timestamp, method, path, None);
            &&& bare == time + method + path
            &&& signed_message(timestamp, method, path, Some(body)) == bare + body
        }),
{
}

/// The headers are those of the client, with the signature and the time; they are refused exactly where
/// one of them holds a control character other than a tab.
pub proof fn headers_are_those_of_the_client(
    client: ClientView,
    timestamp: i64,
    signature: Seq<char>,
    s: Seq<char>,
    i: int,
)
    requires
        0 <= i < s.len(),
    ensures
        ({
            let made = headers_with(client, timestamp, signature);
            let time = text::decimal_int(timestamp as int);
            &&& made is Ok <==> is_header_text(client.signer_address) && is_header_text(signature)
                && is_header_text(client.api_key) && is_header_text(client.api_passphrase)
            &&& made matches Ok(h) ==> h.address == client.signer_address && h.signature == signature
                && h.timestamp == time && h.api_key == client.api_key && h.passphrase
                == client.api_passphrase
            &&& !is_header_text(client.signer_address) ==> made == Err::<
                HeadersView,
                Seq<Seq<char>>,
            >(seq!["invalid POLY_ADDRESS header value"@, "failed to parse header value"@])
            &&& is_header_text(client.signer_address) && !is_header_text(signature) ==> made
                == Err::<HeadersView, Seq<Seq<char>>>(
                seq!["invalid POLY_SIGNATURE header value"@, "failed to parse header value"@],
            )
            &&& is_header_text(client.signer_address) && is_header_text(signature)
                && !is_header_text(client.api_key) ==> made == Err::<HeadersView, Seq<Seq<char>>>(
                seq!["invalid POLY_API_KEY header value"@, "failed to parse header value"@],
            )
        }),
        (s[i] as int) < 32 && s[i] != '\t' || s[i] as int == 127 ==> !is_header_text(s),
        (forall|j: int| 0 <= j < s.len() ==> 32 <= (#[trigger] s[j]) as int && s[j] as int != 127)
            ==> is_header_text(s),
{
    lemma_numeral_is_header_text(timestamp as int);
    assert(refused_header("invalid POLY_ADDRESS header value"@) =~= seq![
        "invalid POLY_ADDRESS header value"@,
        "failed to parse header value"@,
    ]);
    assert(refused_header("invalid POLY_SIGNATURE header value"@) =~= seq![
        "invalid POLY_SIGNATURE header value"@,
        "failed to parse header value"@,
    ]);
    assert(refused_header("invalid POLY_API_KEY header value"@) =~= seq![
        "invalid POLY_API_KEY header value"@,
        "failed to parse header value"@,
    ]);
}

proof fn lemma_numeral_is_header_text(n: int)
    ensures
        is_header_text(text::decimal_int(n)),
{
    let m = (if n < 0 {
        -n
    } else {
        n
    }) as nat;
    text::decimal_round_trip(m);
    let d = text::decimal(m);
    let s = text::decimal_int(n);
    assert forall|i: int| 0 <= i < s.len() implies ((#[trigger] s[i]) as int >= 32 && s[i] as int
        != 127) || s[i] as int == 9 by {
        if n < 0 {
            if i > 0 {
                assert(s[i] == d[i - 1]);
                assert(text::is_digit(d[i - 1]));
            }
        } else {
            assert(text::is_digit(d[i]));
        }
    }
}

/// Headers and amounts are handed over exactly where there are any, and are those; otherwise the reason
/// is.
pub proof fn results_are_handed_over_as_they_are(
    h: Result<L2Headers, Failure>,
    hs: Result<HeadersView, Seq<Seq<char>>>,
    a: Result<Uint256, Failure>,
    amounts: Result<nat, Seq<Seq<char>>>,
)
    requires
        headers_result(h, hs),
        amount_result(a, amounts),
    ensures
        h is Ok <==> hs is Ok,
        h matches Ok(headers) ==> headers@ == hs->Ok_0,
        h matches Err(e) ==> e@ == hs->Err_0,
        a is Ok <==> amounts is Ok,
        a matches Ok(n) ==> n@ == amounts->Ok_0,
        a matches Err(e) ==> e@ == amounts->Err_0,
{
}

} // verus!

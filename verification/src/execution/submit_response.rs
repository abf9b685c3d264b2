//! What the exchange answers to an order: reading the answer, whatever shape it comes in.
use vstd::prelude::*;
use crate::json;
use crate::json::{Entry, Json, JsonTree};
use crate::text;

verus! {

// ---------------------------------------------------------------------------
// Fields
// ---------------------------------------------------------------------------

/// The trimmed text of a field, where it has any.
pub open spec fn field_text(value: Option<JsonTree>) -> Option<Seq<char>> {
    match value {
        Some(JsonTree::Text(s)) => if text::is_blank(s) {
            None
        } else {
            Some(text::trimmed(s))
        },
        _ => None,
    }
}

pub fn string_field(value: Option<&Json>) -> (r: Option<String>)
    ensures
        json::text_view(r) == field_text(match value {
            Some(v) => Some(v@),
            None => None,
        }),
{
    match value {
        Some(v) => match v.as_str() {
            Some(s) => {
                let t = text::trim(s);
                if t.is_empty() {
                    None
                } else {
                    Some(t.to_owned())
                }
            },
            None => None,
        },
        None => None,
    }
}

/// The truth value that a word in lower case stands for.
pub open spec fn truth_of_word(word: Seq<char>) -> Option<bool> {
    if word == "true"@ || word == "1"@ {
        Some(true)
    } else if word == "false"@ || word == "0"@ {
        Some(false)
    } else {
        None
    }
}

pub fn parse_truth(word: &str) -> (r: Option<bool>)
    ensures
        r == truth_of_word(word@),
{
    if text::text_eq(word, "true") || text::text_eq(word, "1") {
        Some(true)
    } else if text::text_eq(word, "false") || text::text_eq(word, "0") {
        Some(false)
    } else {
        None
    }
}

/// The truth value of a field: a boolean, or a word for one.
pub open spec fn field_flag(value: Option<JsonTree>) -> Option<bool> {
    match value {
        Some(JsonTree::Bool(b)) => Some(b),
        Some(JsonTree::Text(s)) => truth_of_word(text::lowercase(text::trimmed(s))),
        _ => None,
    }
}

pub fn bool_field(value: Option<&Json>) -> (r: Option<bool>)
    ensures
        r == field_flag(match value {
            Some(v) => Some(v@),
            None => None,
        }),
{
    match value {
        Some(Json::Bool(b)) => Some(*b),
        Some(Json::Text(s)) => {
            let word = text::lower(text::trim(s.as_str()));
            parse_truth(word.as_str())
        },
        _ => None,
    }
}

/// The text of the first of several keys that has any.
pub open spec fn first_text(members: Seq<(Seq<char>, JsonTree)>, keys: Seq<&str>) -> Option<
    Seq<char>,
>
    decreases keys.len(),
{
    if keys.len() == 0 {
        None
    } else {
        match field_text(json::lookup(members, keys[0]@)) {
            Some(s) => Some(s),
            None => first_text(members, keys.drop_first()),
        }
    }
}

pub fn object_string_field(entries: &Vec<Entry>, keys: &[&str]) -> (r: Option<String>)
    ensures
        json::text_view(r) == first_text(json::record(entries@), keys@),
{
    let mut i: usize = 0;
    assert(keys@.skip(0) =~= keys@);
    while i < keys.len()
        invariant
            i <= keys.len(),
            first_text(json::record(entries@), keys@) == first_text(
                json::record(entries@),
                keys@.skip(i as int),
            ),
        decreases keys.len() - i,
    {
        let found = string_field(json::find_member(entries, keys[i]));
        assert(keys@.skip(i as int).drop_first() =~= keys@.skip(i + 1));
        if found.is_some() {
            return found;
        }
        i = i + 1;
    }
    None
}

/// The members of a member that is an object itself.
pub open spec fn inner(members: Seq<(Seq<char>, JsonTree)>, key: Seq<char>) -> Option<
    Seq<(Seq<char>, JsonTree)>,
> {
    match json::lookup(members, key) {
        Some(JsonTree::Object(m)) => Some(m),
        _ => None,
    }
}

pub fn inner_object<'a>(entries: &'a Vec<Entry>, key: &str) -> (r: Option<&'a Vec<Entry>>)
    ensures
        match r {
            Some(m) => inner(json::record(entries@), key@) == Some(json::record(m@)),
            None => inner(json::record(entries@), key@) is None,
        },
{
    match json::find_member(entries, key) {
        Some(v) => v.as_object(),
        None => None,
    }
}

// ---------------------------------------------------------------------------
// Success, status and error of a submission
// ---------------------------------------------------------------------------

/// What a reading of the members of the answer gives, or of those under `data` where it gives
/// nothing.
pub open spec fn submit_success(answer: JsonTree) -> Option<bool> {
    match answer {
        JsonTree::Object(members) => match field_flag(json::lookup(members, "success"@)) {
            Some(b) => Some(b),
            None => match inner(members, "data"@) {
                Some(data) => field_flag(json::lookup(data, "success"@)),
                None => None,
            },
        },
        _ => None,
    }
}

pub fn extract_submit_success(post_result: &Json) -> (r: Option<bool>)
    ensures
        r == submit_success(post_result@),
{
    match post_result.as_object() {
        Some(entries) => match bool_field(json::find_member(entries, "success")) {
            Some(b) => Some(b),
            None => match inner_object(entries, "data") {
                Some(data) => bool_field(json::find_member(data, "success")),
                None => None,
            },
        },
        None => None,
    }
}

pub open spec fn submit_status(answer: JsonTree) -> Option<Seq<char>> {
    match answer {
        JsonTree::Object(members) => match field_text(json::lookup(members, "status"@)) {
            Some(s) => Some(s),
            None => match inner(members, "data"@) {
                Some(data) => field_text(json::lookup(data, "status"@)),
                None => None,
            },
        },
        _ => None,
    }
}

pub fn extract_submit_status(post_result: &Json) -> (r: Option<String>)
    ensures
        json::text_view(r) == submit_status(post_result@),
{
    match post_result.as_object() {
        Some(entries) => match string_field(json::find_member(entries, "status")) {
            Some(s) => Some(s),
            None => match inner_object(entries, "data") {
                Some(data) => string_field(json::find_member(data, "status")),
                None => None,
            },
        },
        None => None,
    }
}

/// The keys under which the exchange reports an error.
pub open spec fn error_keys() -> Seq<&'static str> {
    seq!["errorMsg", "error_message", "errorMessage", "error", "message", "reason"]
}

/// The keys of an error that is an object itself.
pub open spec fn inner_error_keys() -> Seq<&'static str> {
    seq!["message", "errorMsg", "reason", "code"]
}

pub open spec fn submit_error(answer: JsonTree) -> Option<Seq<char>> {
    match answer {
        JsonTree::Object(members) => match first_text(members, error_keys()) {
            Some(s) => Some(s),
            None => {
                let from_error = match inner(members, "error"@) {
                    Some(error) => first_text(error, inner_error_keys()),
                    None => None,
                };
                match from_error {
                    Some(s) => Some(s),
                    None => match inner(members, "data"@) {
                        Some(data) => first_text(data, error_keys()),
                        None => None,
                    },
                }
            },
        },
        _ => None,
    }
}

pub fn extract_submit_error_message(post_result: &Json) -> (r: Option<String>)
    ensures
        json::text_view(r) == submit_error(post_result@),
{
    let keys = ["errorMsg", "error_message", "errorMessage", "error", "message", "reason"];
    let inner_keys = ["message", "errorMsg", "reason", "code"];
    assert(keys@ =~= error_keys());
    assert(inner_keys@ =~= inner_error_keys());
    match post_result.as_object() {
        Some(entries) => {
            let direct = object_string_field(entries, &keys);
            if direct.is_some() {
                return direct;
            }
            let from_error = match inner_object(entries, "error") {
                Some(error) => object_string_field(error, &inner_keys),
                None => None,
            };
            if from_error.is_some() {
                return from_error;
            }
            match inner_object(entries, "data") {
                Some(data) => object_string_field(data, &keys),
                None => None,
            }
        },
        None => None,
    }
}

/// Whether the answer rejects the order.
pub open spec fn rejects(answer: JsonTree) -> bool {
    submit_success(answer) == Some(false) || submit_error(answer) is Some
}

// ---------------------------------------------------------------------------
// Error codes
// ---------------------------------------------------------------------------

/// The error codes of the exchange, in the order in which they are looked for.
pub open spec fn known_codes() -> Seq<&'static str> {
    seq![
        "INVALID_ORDER_MIN_SIZE",
        "INVALID_ORDER_MIN_TICK_SIZE",
        "INVALID_ORDER_DUPLICATED",
        "INVALID_ORDER_NOT_ENOUGH_BALANCE",
        "INVALID_ORDER_EXPIRATION",
        "INVALID_ORDER_ERROR",
        "INVALID_POST_ONLY_ORDER_TYPE",
        "INVALID_POST_ONLY_ORDER",
        "FOK_ORDER_NOT_FILLED_ERROR",
        "EXECUTION_ERROR",
        "ORDER_DELAYED",
        "MARKET_NOT_READY",
    ]
}

/// The first of several codes that a message contains.
pub open spec fn first_code(message: Seq<char>, codes: Seq<&str>) -> Option<Seq<char>>
    decreases codes.len(),
{
    if codes.len() == 0 {
        None
    } else if text::contains(message, codes[0]@) {
        Some(codes[0]@)
    } else {
        first_code(message, codes.drop_first())
    }
}

/// The error code that a message in upper case names.
pub fn code_in_upper_case(upper: &str) -> (r: Option<String>)
    ensures
        json::text_view(r) == first_code(upper@, known_codes()),
{
    let codes = [
        "INVALID_ORDER_MIN_SIZE",
        "INVALID_ORDER_MIN_TICK_SIZE",
        "INVALID_ORDER_DUPLICATED",
        "INVALID_ORDER_NOT_ENOUGH_BALANCE",
        "INVALID_ORDER_EXPIRATION",
        "INVALID_ORDER_ERROR",
        "INVALID_POST_ONLY_ORDER_TYPE",
        "INVALID_POST_ONLY_ORDER",
        "FOK_ORDER_NOT_FILLED_ERROR",
        "EXECUTION_ERROR",
        "ORDER_DELAYED",
        "MARKET_NOT_READY",
    ];
    assert(codes@ =~= known_codes());
    let mut i: usize = 0;
    assert(codes@.skip(0) =~= codes@);
    while i < codes.len()
        invariant
            i <= codes.len(),
            codes@ == known_codes(),
            first_code(upper@, known_codes()) == first_code(upper@, codes@.skip(i as int)),
        decreases codes.len() - i,
    {
        assert(codes@.skip(i as int).drop_first() =~= codes@.skip(i + 1));
        if text::has(upper, codes[i]) {
            return Some(codes[i].to_owned());
        }
        i = i + 1;
    }
    None
}

/// The error code that a message names, whatever its case.
pub open spec fn error_code(message: Seq<char>) -> Option<Seq<char>> {
    first_code(text::uppercase(message), known_codes())
}

pub fn infer_submit_error_code(error_message: &str) -> (r: Option<String>)
    ensures
        json::text_view(r) == error_code(error_message@),
{
    let upper = text::upper(error_message);
    code_in_upper_case(upper.as_str())
}

/// The codes after which sending the same order again is of no use.
pub open spec fn is_terminal_code(code: Seq<char>) -> bool {
    ||| code == "INVALID_ORDER_MIN_SIZE"@
    ||| code == "INVALID_ORDER_MIN_TICK_SIZE"@
    ||| code == "INVALID_ORDER_NOT_ENOUGH_BALANCE"@
    ||| code == "INVALID_ORDER_EXPIRATION"@
    ||| code == "INVALID_POST_ONLY_ORDER_TYPE"@
    ||| code == "INVALID_POST_ONLY_ORDER"@
}

pub fn is_non_retryable_submit_error(error_code: Option<&str>) -> (r: bool)
    ensures
        r == (error_code is Some && is_terminal_code(error_code->Some_0@)),
{
    match error_code {
        Some(code) => text::text_eq(code, "INVALID_ORDER_MIN_SIZE") || text::text_eq(
            code,
            "INVALID_ORDER_MIN_TICK_SIZE",
        ) || text::text_eq(code, "INVALID_ORDER_NOT_ENOUGH_BALANCE") || text::text_eq(
            code,
            "INVALID_ORDER_EXPIRATION",
        ) || text::text_eq(code, "INVALID_POST_ONLY_ORDER_TYPE") || text::text_eq(
            code,
            "INVALID_POST_ONLY_ORDER",
        ),
        None => false,
    }
}

// ---------------------------------------------------------------------------
// The order id
// ---------------------------------------------------------------------------

pub fn looks_like_order_hash(value: &str) -> (r: bool)
    ensures
        r == text::bytes32(value@),
{
    text::is_bytes32(value)
}

/// Whether the members are those of an answer to a submission.
pub open spec fn has_answer_shape(members: Seq<(Seq<char>, JsonTree)>) -> bool {
    ||| json::has_key(members, "success"@)
    ||| json::has_key(members, "status"@)
    ||| json::has_key(members, "orderID"@)
    ||| json::has_key(members, "orderId"@)
    ||| json::has_key(members, "order_id"@)
    ||| json::has_key(members, "transactionsHashes"@)
    ||| json::has_key(members, "tradeIDs"@)
}

pub fn has_submit_shape(entries: &Vec<Entry>) -> (r: bool)
    ensures
        r == has_answer_shape(json::record(entries@)),
{
    json::contains_key(entries, "success") || json::contains_key(entries, "status")
        || json::contains_key(entries, "orderID") || json::contains_key(entries, "orderId")
        || json::contains_key(entries, "order_id") || json::contains_key(
        entries,
        "transactionsHashes",
    ) || json::contains_key(entries, "tradeIDs")
}

/// The order id that the members name themselves.
pub open spec fn own_order_id(members: Seq<(Seq<char>, JsonTree)>) -> Option<Seq<char>> {
    match first_text(members, seq!["orderID", "orderId", "order_id"]) {
        Some(s) => Some(s),
        None => if has_answer_shape(members) {
            match field_text(json::lookup(members, "id"@)) {
                Some(s) => if text::bytes32(s) {
                    Some(s)
                } else {
                    None
                },
                None => None,
            }
        } else {
            None
        },
    }
}

proof fn lemma_inner_decreases(members: Seq<(Seq<char>, JsonTree)>, key: Seq<char>)
    ensures
        inner(members, key) matches Some(m) ==> decreases_to!(members => m),
{
    json::lemma_position_bounds(members, key);
    let i = json::position(members, key);
    if i < members.len() {
        assert(decreases_to!(members => members[i]));
        assert(decreases_to!(members[i] => members[i].1));
        if members[i].1 is Object {
            assert(decreases_to!(members[i].1 => members[i].1->Object_0));
        }
    }
}

/// The order id that the members name, or that those under `order` or `data` name, at any depth.
pub open spec fn order_id_in(members: Seq<(Seq<char>, JsonTree)>) -> Option<Seq<char>>
    decreases members,
    via order_id_in_decreases
{
    match own_order_id(members) {
        Some(s) => Some(s),
        None => {
            let from_order = match inner(members, "order"@) {
                Some(m) => order_id_in(m),
                None => None,
            };
            match from_order {
                Some(s) => Some(s),
                None => match inner(members, "data"@) {
                    Some(m) => order_id_in(m),
                    None => None,
                },
            }
        },
    }
}

#[via_fn]
proof fn order_id_in_decreases(members: Seq<(Seq<char>, JsonTree)>) {
    lemma_inner_decreases(members, "order"@);
    lemma_inner_decreases(members, "data"@);
}

pub fn extract_order_id_from_object(entries: &Vec<Entry>) -> (r: Option<String>)
    ensures
        json::text_view(r) == order_id_in(json::record(entries@)),
    decreases json::record(entries@),
{
    proof {
        lemma_inner_decreases(json::record(entries@), "order"@);
        lemma_inner_decreases(json::record(entries@), "data"@);
    }
    let keys = ["orderID", "orderId", "order_id"];
    assert(keys@ =~= seq!["orderID", "orderId", "order_id"]);
    let direct = object_string_field(entries, &keys);
    if direct.is_some() {
        return direct;
    }
    if has_submit_shape(entries) {
        match string_field(json::find_member(entries, "id")) {
            Some(id) => if looks_like_order_hash(id.as_str()) {
                return Some(id);
            },
            None => {},
        }
    }
    match inner_object(entries, "order") {
        Some(m) => {
            let found = extract_order_id_from_object(m);
            if found.is_some() {
                return found;
            }
        },
        None => {},
    }
    match inner_object(entries, "data") {
        Some(m) => extract_order_id_from_object(m),
        None => None,
    }
}

/// The order id that an answer names; empty where it names none.
pub open spec fn order_id_of(answer: JsonTree) -> Seq<char> {
    match answer {
        JsonTree::Text(s) => text::trimmed(s),
        JsonTree::Object(members) => match order_id_in(members) {
            Some(s) => s,
            None => Seq::empty(),
        },
        _ => Seq::empty(),
    }
}

pub fn extract_order_id(post_result: &Json) -> (r: String)
    ensures
        r@ == order_id_of(post_result@),
{
    match post_result.as_str() {
        Some(s) => {
            let t = text::trim(s);
            if !t.is_empty() {
                return t.to_owned();
            }
        },
        None => {},
    }
    match post_result.as_object() {
        Some(entries) => match extract_order_id_from_object(entries) {
            Some(id) => {
                return id;
            },
            None => {},
        },
        None => {},
    }
    let none = String::new();
    assert(none@ =~= order_id_of(post_result@));
    none
}

// ---------------------------------------------------------------------------
// The shape of an answer
// ---------------------------------------------------------------------------

/// The name of the kind of a value.
pub open spec fn shape_name(tree: JsonTree) -> Seq<char> {
    match tree {
        JsonTree::Null => "null"@,
        JsonTree::Bool(_) => "bool"@,
        JsonTree::Number(_) => "number"@,
        JsonTree::Amount(_) => "number"@,
        JsonTree::Text(_) => "string"@,
        JsonTree::Array(_) => "array"@,
        JsonTree::Object(_) => "object"@,
    }
}

pub fn value_shape(value: &Json) -> (r: &'static str)
    ensures
        r@ == shape_name(value@),
{
    match value {
        Json::Null => "null",
        Json::Bool(_) => "bool",
        Json::Number(_) => "number",
        Json::Amount(_) => "number",
        Json::Text(_) => "string",
        Json::Array(_) => "array",
        Json::Object(_) => "object",
    }
}

/// The members of an answer; the answer under the key `value` where it is no object.
pub open spec fn raw_map(answer: JsonTree) -> Seq<(Seq<char>, JsonTree)> {
    match answer {
        JsonTree::Object(members) => members,
        _ => seq![("value"@, answer)],
    }
}

pub fn to_raw_map(value: &Json) -> (r: Vec<Entry>)
    ensures
        json::record(r@) == raw_map(value@),
{
    match value.as_object() {
        Some(entries) => json::copy_record(entries),
        None => {
            let mut out: Vec<Entry> = Vec::new();
            out.push(Entry { key: "value".to_owned(), value: value.copy() });
            assert(json::record(out@) =~= raw_map(value@));
            out
        },
    }
}

// ---------------------------------------------------------------------------
// Order status
// ---------------------------------------------------------------------------

/// Whether the members are those of an order status.
pub open spec fn is_status(members: Seq<(Seq<char>, JsonTree)>) -> bool {
    ||| json::has_key(members, "status"@)
    ||| json::has_key(members, "size_matched"@)
    ||| json::has_key(members, "price"@)
}

pub fn looks_like_order_status_record(entries: &Vec<Entry>) -> (r: bool)
    ensures
        r == is_status(json::record(entries@)),
{
    json::contains_key(entries, "status") || json::contains_key(entries, "size_matched")
        || json::contains_key(entries, "price")
}

/// The order status among the members: they themselves, those under `order`, under `data`, or
/// under `data` and `order`, whichever is one first.
pub open spec fn status_in(members: Seq<(Seq<char>, JsonTree)>) -> Option<
    Seq<(Seq<char>, JsonTree)>,
> {
    if is_status(members) {
        Some(members)
    } else if inner(members, "order"@) is Some && is_status(inner(members, "order"@)->Some_0) {
        inner(members, "order"@)
    } else if inner(members, "data"@) is Some {
        let data = inner(members, "data"@)->Some_0;
        if is_status(data) {
            Some(data)
        } else if inner(data, "order"@) is Some && is_status(inner(data, "order"@)->Some_0) {
            inner(data, "order"@)
        } else {
            None
        }
    } else {
        None
    }
}

/// The order status in an answer, or in the first item of one that is a list.
pub open spec fn status_record(answer: JsonTree) -> Option<Seq<(Seq<char>, JsonTree)>>
    decreases answer,
{
    match answer {
        JsonTree::Object(members) => status_in(members),
        JsonTree::Array(items) => if items.len() > 0 {
            status_record(items[0])
        } else {
            None
        },
        _ => None,
    }
}

fn find_status_in<'a>(entries: &'a Vec<Entry>) -> (r: Option<&'a Vec<Entry>>)
    ensures
        match r {
            Some(m) => status_in(json::record(entries@)) == Some(json::record(m@)),
            None => status_in(json::record(entries@)) is None,
        },
{
    if looks_like_order_status_record(entries) {
        return Some(entries);
    }
    match inner_object(entries, "order") {
        Some(order) => if looks_like_order_status_record(order) {
            return Some(order);
        },
        None => {},
    }
    match inner_object(entries, "data") {
        Some(data) => {
            if looks_like_order_status_record(data) {
                return Some(data);
            }
            match inner_object(data, "order") {
                Some(order) => if looks_like_order_status_record(order) {
                    return Some(order);
                },
                None => {},
            }
            None
        },
        None => None,
    }
}

pub fn extract_status_record<'a>(payload: &'a Json) -> (r: Option<&'a Vec<Entry>>)
    ensures
        match r {
            Some(m) => status_record(payload@) == Some(json::record(m@)),
            None => status_record(payload@) is None,
        },
    decreases payload@,
{
    match payload.as_object() {
        Some(entries) => {
            return find_status_in(entries);
        },
        None => {},
    }
    match payload.as_array() {
        Some(items) => if items.len() > 0 {
            assert(payload@->Array_0[0] == items@[0]@);
            return extract_status_record(&items[0]);
        },
        None => {},
    }
    None
}

/// The keys of an answer, in order and separated by commas; the kind of one that has none.
pub fn summarize_top_level_keys(value: &Json) -> (r: String)
    ensures
        r@ == keys_summary(value@),
{
    match value.as_object() {
        Some(entries) => {
            let keys = json::keys_in_order(entries);
            text::join(&keys, ",")
        },
        None => {
            let mut out = "<".to_owned();
            out.append(value_shape(value));
            out.append(">");
            out
        },
    }
}

/// What [`summarize_top_level_keys`] says of an answer.
pub open spec fn keys_summary(answer: JsonTree) -> Seq<char> {
    match answer {
        JsonTree::Object(members) => text::joined(json::sorted_keys(members), ","@),
        _ => "<"@ + shape_name(answer) + ">"@,
    }
}

/// The text of several fields is that of the first that has any: fields before it that are missing,
/// blank or no text are passed over, and those after it are not looked at.
pub proof fn first_field_with_text_speaks(
    members: Seq<(Seq<char>, JsonTree)>,
    keys: Seq<&str>,
    k: int,
)
    requires
        0 <= k < keys.len(),
        forall|j: int|
            0 <= j < k ==> !(json::lookup(members, (#[trigger] keys[j])@) matches Some(
                JsonTree::Text(s),
            ) && text::trimmed(s).len() > 0),
        json::lookup(members, keys[k]@) matches Some(JsonTree::Text(s)) && text::trimmed(s).len()
            > 0,
    ensures
        first_text(members, keys) == Some(
            text::trimmed(json::lookup(members, keys[k]@)->Some_0->Text_0),
        ),
    decreases k,
{
    if k > 0 {
        let rest = keys.drop_first();
        assert(!(json::lookup(members, keys[0]@) matches Some(JsonTree::Text(s)) && text::trimmed(
            s,
        ).len() > 0));
        assert forall|j: int| 0 <= j < k - 1 implies !(json::lookup(
            members,
            (#[trigger] rest[j])@,
        ) matches Some(JsonTree::Text(s)) && text::trimmed(s).len() > 0) by {
            assert(rest[j] == keys[j + 1]);
        }
        first_field_with_text_speaks(members, rest, k - 1);
    }
}

proof fn lemma_no_text(members: Seq<(Seq<char>, JsonTree)>, keys: Seq<&str>)
    requires
        forall|j: int|
            0 <= j < keys.len() ==> !(json::lookup(members, (#[trigger] keys[j])@) matches Some(
                JsonTree::Text(s),
            ) && text::trimmed(s).len() > 0),
    ensures
        first_text(members, keys) is None,
    decreases keys.len(),
{
    if keys.len() > 0 {
        let rest = keys.drop_first();
        assert(!(json::lookup(members, keys[0]@) matches Some(JsonTree::Text(s)) && text::trimmed(
            s,
        ).len() > 0));
        assert forall|j: int| 0 <= j < rest.len() implies !(json::lookup(
            members,
            (#[trigger] rest[j])@,
        ) matches Some(JsonTree::Text(s)) && text::trimmed(s).len() > 0) by {
            assert(rest[j] == keys[j + 1]);
        }
        lemma_no_text(members, rest);
    }
}

/// Whether a field holds a text that is not blank.
pub open spec fn has_text(members: Seq<(Seq<char>, JsonTree)>, key: Seq<char>) -> bool {
    json::lookup(members, key) matches Some(JsonTree::Text(s)) && text::trimmed(s).len() > 0
}

/// An order is rejected where the answer says that it did not succeed, or where it holds an error
/// under any of the names that the exchange uses, even if it claims success.
pub proof fn error_or_failure_rejects_the_order(members: Seq<(Seq<char>, JsonTree)>)
    ensures
        json::lookup(members, "success"@) == Some(JsonTree::Bool(false)) ==> rejects(
            JsonTree::Object(members),
        ),
        has_text(members, "errorMsg"@) || has_text(members, "error_message"@) || has_text(
            members,
            "errorMessage"@,
        ) || has_text(members, "error"@) || has_text(members, "message"@) || has_text(
            members,
            "reason"@,
        ) ==> rejects(JsonTree::Object(members)),
        has_text(members, "errorMsg"@) ==> submit_error(JsonTree::Object(members)) == Some(
            text::trimmed(json::lookup(members, "errorMsg"@)->Some_0->Text_0),
        ),
{
    let keys = error_keys();
    assert(keys[0]@ == "errorMsg"@);
    assert(keys[1]@ == "error_message"@);
    assert(keys[2]@ == "errorMessage"@);
    assert(keys[3]@ == "error"@);
    assert(keys[4]@ == "message"@);
    assert(keys[5]@ == "reason"@);
    assert forall|k: int| 0 <= k < keys.len() && has_text(members, (#[trigger] keys[k])@) implies first_text(
        members,
        keys,
    ) is Some by {
        lemma_some_text(members, keys, k);
    }
    if has_text(members, "errorMsg"@) {
        first_field_with_text_speaks(members, keys, 0);
    }
}

proof fn lemma_some_text(members: Seq<(Seq<char>, JsonTree)>, keys: Seq<&str>, k: int)
    requires
        0 <= k < keys.len(),
        has_text(members, keys[k]@),
    ensures
        first_text(members, keys) is Some,
    decreases k,
{
    if k > 0 {
        let rest = keys.drop_first();
        assert(rest[k - 1] == keys[k]);
        lemma_some_text(members, rest, k - 1);
    }
}

/// An order is taken where the answer does not deny success and none of the names that the
/// exchange uses for errors holds one, in the answer itself, in its error or in its data.
pub proof fn clean_answer_accepts_the_order(members: Seq<(Seq<char>, JsonTree)>)
    requires
        json::lookup(members, "success"@) == Some(JsonTree::Bool(true)),
        forall|j: int|
            0 <= j < error_keys().len() ==> !has_text(members, (#[trigger] error_keys()[j])@),
        !(json::lookup(members, "error"@) matches Some(JsonTree::Object(_))),
        !(json::lookup(members, "data"@) matches Some(JsonTree::Object(_))),
    ensures
        !rejects(JsonTree::Object(members)),
        submit_success(JsonTree::Object(members)) == Some(true),
{
    lemma_no_text(members, error_keys());
}

/// The names under which the exchange reports an error.
pub proof fn error_names_are_known(key: Seq<char>)
    ensures
        (exists|j: int| 0 <= j < error_keys().len() && (#[trigger] error_keys()[j])@ == key) <==> {
            ||| key == "errorMsg"@
            ||| key == "error_message"@
            ||| key == "errorMessage"@
            ||| key == "error"@
            ||| key == "message"@
            ||| key == "reason"@
        },
{
    assert(error_keys()[0]@ == "errorMsg"@);
    assert(error_keys()[1]@ == "error_message"@);
    assert(error_keys()[2]@ == "errorMessage"@);
    assert(error_keys()[3]@ == "error"@);
    assert(error_keys()[4]@ == "message"@);
    assert(error_keys()[5]@ == "reason"@);
}

/// What the answer itself does not say is taken from its data, and what it says goes before that.
pub proof fn data_speaks_where_the_answer_is_silent(
    members: Seq<(Seq<char>, JsonTree)>,
    data: Seq<(Seq<char>, JsonTree)>,
    b: bool,
)
    requires
        json::lookup(members, "data"@) == Some(JsonTree::Object(data)),
    ensures
        json::lookup(members, "success"@) == Some(JsonTree::Bool(b)) ==> submit_success(
            JsonTree::Object(members),
        ) == Some(b),
        json::lookup(members, "success"@) is None && json::lookup(data, "success"@) == Some(
            JsonTree::Bool(b),
        ) ==> submit_success(JsonTree::Object(members)) == Some(b),
        has_text(members, "status"@) ==> submit_status(JsonTree::Object(members)) == Some(
            text::trimmed(json::lookup(members, "status"@)->Some_0->Text_0),
        ),
        json::lookup(members, "status"@) is None && has_text(data, "status"@) ==> submit_status(
            JsonTree::Object(members),
        ) == Some(text::trimmed(json::lookup(data, "status"@)->Some_0->Text_0)),
{
}

/// The id of an order is what the answer names under `orderID`, `orderId` or `order_id`, in this
/// order and without blanks around it; a bare text is an id itself.
pub proof fn order_id_is_what_the_answer_names(
    members: Seq<(Seq<char>, JsonTree)>,
    s: Seq<char>,
)
    ensures
        order_id_of(JsonTree::Text(s)) == text::trimmed(s),
        json::lookup(members, "orderID"@) == Some(JsonTree::Text(s)) && text::trimmed(s).len() > 0
            ==> order_id_of(JsonTree::Object(members)) == text::trimmed(s),
        !has_text(members, "orderID"@) && json::lookup(members, "orderId"@) == Some(
            JsonTree::Text(s),
        ) && text::trimmed(s).len() > 0 ==> order_id_of(JsonTree::Object(members))
            == text::trimmed(s),
        !has_text(members, "orderID"@) && !has_text(members, "orderId"@) && json::lookup(
            members,
            "order_id"@,
        ) == Some(JsonTree::Text(s)) && text::trimmed(s).len() > 0 ==> order_id_of(
            JsonTree::Object(members),
        ) == text::trimmed(s),
{
    let keys = seq!["orderID", "orderId", "order_id"];
    assert(keys[0]@ == "orderID"@ && keys[1]@ == "orderId"@ && keys[2]@ == "order_id"@);
    if json::lookup(members, "orderID"@) == Some(JsonTree::Text(s)) && text::trimmed(s).len() > 0 {
        first_field_with_text_speaks(members, keys, 0);
    } else if !has_text(members, "orderID"@) && json::lookup(members, "orderId"@) == Some(
        JsonTree::Text(s),
    ) && text::trimmed(s).len() > 0 {
        first_field_with_text_speaks(members, keys, 1);
    } else if !has_text(members, "orderID"@) && !has_text(members, "orderId"@) && json::lookup(
        members,
        "order_id"@,
    ) == Some(JsonTree::Text(s)) && text::trimmed(s).len() > 0 {
        first_field_with_text_speaks(members, keys, 2);
    }
}

/// A plain `id` is the id of an order only in an answer that has the shape of one, and only where
/// it is a hash. What names no order itself may hold one under `order`, or else under `data`.
pub proof fn nested_order_ids_are_found(
    members: Seq<(Seq<char>, JsonTree)>,
    inside: Seq<(Seq<char>, JsonTree)>,
    s: Seq<char>,
)
    requires
        !has_text(members, "orderID"@),
        !has_text(members, "orderId"@),
        !has_text(members, "order_id"@),
    ensures
        json::lookup(members, "id"@) == Some(JsonTree::Text(s)) && text::bytes32(text::trimmed(s))
            && text::trimmed(s).len() > 0 && json::has_key(members, "success"@) ==> order_id_of(
            JsonTree::Object(members),
        ) == text::trimmed(s),
        !has_text(members, "id"@) && json::lookup(members, "order"@) == Some(
            JsonTree::Object(inside),
        ) && order_id_in(inside) is Some ==> order_id_of(JsonTree::Object(members))
            == order_id_in(inside)->Some_0,
        !has_text(members, "id"@) && json::lookup(members, "order"@) is None && json::lookup(
            members,
            "data"@,
        ) == Some(JsonTree::Object(inside)) && order_id_in(inside) is Some ==> order_id_of(
            JsonTree::Object(members),
        ) == order_id_in(inside)->Some_0,
        !has_text(members, "id"@) && json::lookup(members, "order"@) is None && json::lookup(
            members,
            "data"@,
        ) is None ==> order_id_of(JsonTree::Object(members)).len() == 0,
{
    let keys = seq!["orderID", "orderId", "order_id"];
    assert(keys[0]@ == "orderID"@ && keys[1]@ == "orderId"@ && keys[2]@ == "order_id"@);
    assert forall|j: int| 0 <= j < keys.len() implies !(json::lookup(
        members,
        (#[trigger] keys[j])@,
    ) matches Some(JsonTree::Text(t)) && text::trimmed(t).len() > 0) by {
        assert(j == 0 || j == 1 || j == 2);
    }
    lemma_no_text(members, keys);
    assert(first_text(members, keys) is None);
}

/// The code of an error is one of those of the exchange that its message names, in whatever case,
/// and there is none only where it names none of them.
pub proof fn code_is_named_by_the_message(message: Seq<char>)
    ensures
        ({
            let upper = text::uppercase(message);
            match error_code(message) {
                Some(code) => text::contains(upper, code) && exists|i: int|
                    0 <= i < known_codes().len() && (#[trigger] known_codes()[i])@ == code,
                None => {
                    &&& !text::contains(upper, "INVALID_ORDER_MIN_SIZE"@)
                    &&& !text::contains(upper, "INVALID_ORDER_MIN_TICK_SIZE"@)
                    &&& !text::contains(upper, "INVALID_ORDER_DUPLICATED"@)
                    &&& !text::contains(upper, "INVALID_ORDER_NOT_ENOUGH_BALANCE"@)
                    &&& !text::contains(upper, "INVALID_ORDER_EXPIRATION"@)
                    &&& !text::contains(upper, "INVALID_ORDER_ERROR"@)
                    &&& !text::contains(upper, "INVALID_POST_ONLY_ORDER_TYPE"@)
                    &&& !text::contains(upper, "INVALID_POST_ONLY_ORDER"@)
                    &&& !text::contains(upper, "FOK_ORDER_NOT_FILLED_ERROR"@)
                    &&& !text::contains(upper, "EXECUTION_ERROR"@)
                    &&& !text::contains(upper, "ORDER_DELAYED"@)
                    &&& !text::contains(upper, "MARKET_NOT_READY"@)
                },
            }
        }),
{
    let upper = text::uppercase(message);
    assert(known_codes()[0]@ == "INVALID_ORDER_MIN_SIZE"@);
    assert(known_codes()[1]@ == "INVALID_ORDER_MIN_TICK_SIZE"@);
    assert(known_codes()[2]@ == "INVALID_ORDER_DUPLICATED"@);
    assert(known_codes()[3]@ == "INVALID_ORDER_NOT_ENOUGH_BALANCE"@);
    assert(known_codes()[4]@ == "INVALID_ORDER_EXPIRATION"@);
    assert(known_codes()[5]@ == "INVALID_ORDER_ERROR"@);
    assert(known_codes()[6]@ == "INVALID_POST_ONLY_ORDER_TYPE"@);
    assert(known_codes()[7]@ == "INVALID_POST_ONLY_ORDER"@);
    assert(known_codes()[8]@ == "FOK_ORDER_NOT_FILLED_ERROR"@);
    assert(known_codes()[9]@ == "EXECUTION_ERROR"@);
    assert(known_codes()[10]@ == "ORDER_DELAYED"@);
    assert(known_codes()[11]@ == "MARKET_NOT_READY"@);
    lemma_first_code(upper, known_codes());
}

proof fn lemma_first_code(message: Seq<char>, codes: Seq<&str>)
    ensures
        match first_code(message, codes) {
            Some(code) => text::contains(message, code) && exists|i: int|
                0 <= i < codes.len() && (#[trigger] codes[i])@ == code && forall|j: int|
                    0 <= j < i ==> !text::contains(message, (#[trigger] codes[j])@),
            None => forall|i: int|
                0 <= i < codes.len() ==> !text::contains(message, (#[trigger] codes[i])@),
        },
    decreases codes.len(),
{
    if codes.len() > 0 {
        let rest = codes.drop_first();
        if text::contains(message, codes[0]@) {
            assert(codes[0]@ == codes[0]@);
        } else {
            lemma_first_code(message, rest);
            match first_code(message, rest) {
                Some(code) => {
                    let i = choose|i: int|
                        0 <= i < rest.len() && (#[trigger] rest[i])@ == code && forall|j: int|
                            0 <= j < i ==> !text::contains(message, (#[trigger] rest[j])@);
                    assert(codes[i + 1]@ == code);
                    assert forall|j: int| 0 <= j < i + 1 implies !text::contains(
                        message,
                        (#[trigger] codes[j])@,
                    ) by {
                        if j > 0 {
                            assert(codes[j] == rest[j - 1]);
                        }
                    }
                },
                None => {
                    assert forall|j: int| 0 <= j < codes.len() implies !text::contains(
                        message,
                        (#[trigger] codes[j])@,
                    ) by {
                        if j > 0 {
                            assert(codes[j] == rest[j - 1]);
                        }
                    }
                },
            }
        }
    }
}

/// An order that was too small, off the grid, not covered, expired or not allowed to be posted is
/// not worth sending again; one that was killed, delayed, doubled or met a market that was not
/// ready is.
pub proof fn terminal_codes_are_those_of_the_order_itself(code: Seq<char>)
    ensures
        is_terminal_code(code) <==> {
            ||| code == "INVALID_ORDER_MIN_SIZE"@
            ||| code == "INVALID_ORDER_MIN_TICK_SIZE"@
            ||| code == "INVALID_ORDER_NOT_ENOUGH_BALANCE"@
            ||| code == "INVALID_ORDER_EXPIRATION"@
            ||| code == "INVALID_POST_ONLY_ORDER_TYPE"@
            ||| code == "INVALID_POST_ONLY_ORDER"@
        },
        !is_terminal_code("FOK_ORDER_NOT_FILLED_ERROR"@),
        !is_terminal_code("ORDER_DELAYED"@),
        !is_terminal_code("MARKET_NOT_READY"@),
        !is_terminal_code("EXECUTION_ERROR"@),
        !is_terminal_code("INVALID_ORDER_DUPLICATED"@),
        !is_terminal_code("INVALID_ORDER_ERROR"@),
{
    reveal_strlit("INVALID_ORDER_MIN_SIZE");
    reveal_strlit("INVALID_ORDER_MIN_TICK_SIZE");
    reveal_strlit("INVALID_ORDER_DUPLICATED");
    reveal_strlit("INVALID_ORDER_NOT_ENOUGH_BALANCE");
    reveal_strlit("INVALID_ORDER_EXPIRATION");
    reveal_strlit("INVALID_ORDER_ERROR");
    reveal_strlit("INVALID_POST_ONLY_ORDER_TYPE");
    reveal_strlit("INVALID_POST_ONLY_ORDER");
    reveal_strlit("FOK_ORDER_NOT_FILLED_ERROR");
    reveal_strlit("EXECUTION_ERROR");
    reveal_strlit("ORDER_DELAYED");
    reveal_strlit("MARKET_NOT_READY");
    assert("INVALID_ORDER_MIN_SIZE"@.len() == 22);
    assert("INVALID_ORDER_MIN_TICK_SIZE"@.len() == 27);
    assert("INVALID_ORDER_DUPLICATED"@.len() == 24);
    assert("INVALID_ORDER_NOT_ENOUGH_BALANCE"@.len() == 32);
    assert("INVALID_ORDER_EXPIRATION"@.len() == 24);
    assert("INVALID_ORDER_ERROR"@.len() == 19);
    assert("INVALID_POST_ONLY_ORDER_TYPE"@.len() == 28);
    assert("INVALID_POST_ONLY_ORDER"@.len() == 23);
    assert("FOK_ORDER_NOT_FILLED_ERROR"@.len() == 26);
    assert("EXECUTION_ERROR"@.len() == 15);
    assert("ORDER_DELAYED"@.len() == 13);
    assert("MARKET_NOT_READY"@.len() == 16);
    assert("INVALID_ORDER_DUPLICATED"@[14] != "INVALID_ORDER_EXPIRATION"@[14]);
}

/// The status of an order is found in the answer itself, under its `order`, under its `data`, or
/// under the `order` of its `data`, whichever is one first; of a list, in its first item.
pub proof fn status_is_found_where_it_stands(
    members: Seq<(Seq<char>, JsonTree)>,
    inside: Seq<(Seq<char>, JsonTree)>,
    items: Seq<JsonTree>,
)
    ensures
        json::has_key(members, "status"@) || json::has_key(members, "size_matched"@)
            || json::has_key(members, "price"@) ==> status_record(JsonTree::Object(members))
            == Some(members),
        !json::has_key(members, "status"@) && !json::has_key(members, "size_matched"@)
            && !json::has_key(members, "price"@) && json::lookup(members, "order"@) == Some(
            JsonTree::Object(inside),
        ) && json::has_key(inside, "status"@) ==> status_record(JsonTree::Object(members)) == Some(
            inside,
        ),
        !json::has_key(members, "status"@) && !json::has_key(members, "size_matched"@)
            && !json::has_key(members, "price"@) && json::lookup(members, "order"@) is None
            && json::lookup(members, "data"@) == Some(JsonTree::Object(inside)) && json::has_key(
            inside,
            "status"@,
        ) ==> status_record(JsonTree::Object(members)) == Some(inside),
        !json::has_key(members, "status"@) && !json::has_key(members, "size_matched"@)
            && !json::has_key(members, "price"@) && json::lookup(members, "order"@) is None
            && json::lookup(members, "data"@) is None ==> status_record(
            JsonTree::Object(members),
        ) is None,
        items.len() > 0 ==> status_record(JsonTree::Array(items)) == status_record(items[0]),
        items.len() == 0 ==> status_record(JsonTree::Array(items)) is None,
        status_record(JsonTree::Null) is None,
{
}

/// The notes on an order start from the members of the answer; an answer that has none is kept
/// whole under `value`.
pub proof fn answer_is_kept_in_the_notes(
    members: Seq<(Seq<char>, JsonTree)>,
    other: JsonTree,
    key: Seq<char>,
)
    requires
        !(other is Object),
    ensures
        json::lookup(raw_map(JsonTree::Object(members)), key) == json::lookup(members, key),
        json::lookup(raw_map(other), "value"@) == Some(other),
{
    assert(raw_map(other)[0].0 == "value"@);
}

/// The plain identifier of an answer is taken for that of the order only where it is a hash and the
/// answer has one of the members that an answer to an order has.
pub proof fn plain_identifier_needs_an_answer(members: Seq<(Seq<char>, JsonTree)>, s: Seq<char>)
    requires
        !has_text(members, "orderID"@),
        !has_text(members, "orderId"@),
        !has_text(members, "order_id"@),
        json::lookup(members, "id"@) == Some(JsonTree::Text(s)),
        json::lookup(members, "order"@) is None,
        json::lookup(members, "data"@) is None,
    ensures
        ({
            let answers = json::lookup(members, "success"@) is Some
                || json::lookup(members, "status"@) is Some
                || json::lookup(members, "orderID"@) is Some
                || json::lookup(members, "orderId"@) is Some
                || json::lookup(members, "order_id"@) is Some
                || json::lookup(members, "transactionsHashes"@) is Some
                || json::lookup(members, "tradeIDs"@) is Some;
            &&& answers && text::bytes32(s) ==> order_id_of(JsonTree::Object(members))
                == text::trimmed(s)
            &&& !answers || !text::bytes32(s) ==> order_id_of(JsonTree::Object(members)).len() == 0
        }),
{
    text::trimming_is_done_once(s);
    reveal_with_fuel(first_text, 4);
    let keys = seq!["orderID", "orderId", "order_id"];
    assert(keys[0]@ == "orderID"@ && keys.drop_first()[0]@ == "orderId"@
        && keys.drop_first().drop_first()[0]@ == "order_id"@);
    assert(keys.drop_first().drop_first().drop_first().len() == 0);
    assert(first_text(members, keys) is None);
}

/// An error that is an object is told by its message, and that of the data where the answer itself has
/// none.
pub proof fn nested_errors_are_found(
    members: Seq<(Seq<char>, JsonTree)>,
    inside: Seq<(Seq<char>, JsonTree)>,
)
    requires
        forall|j: int|
            0 <= j < error_keys().len() ==> !has_text(members, (#[trigger] error_keys()[j])@),
    ensures
        json::lookup(members, "error"@) == Some(JsonTree::Object(inside)) && has_text(
            inside,
            "message"@,
        ) ==> submit_error(JsonTree::Object(members)) == Some(
            text::trimmed(json::lookup(inside, "message"@)->Some_0->Text_0),
        ),
        json::lookup(members, "error"@) == Some(JsonTree::Object(inside)) && (has_text(
            inside,
            "message"@,
        ) || has_text(inside, "errorMsg"@) || has_text(inside, "reason"@) || has_text(
            inside,
            "code"@,
        )) ==> rejects(JsonTree::Object(members)),
        json::lookup(members, "error"@) is None && json::lookup(members, "data"@) == Some(
            JsonTree::Object(inside),
        ) && has_text(inside, "errorMsg"@) ==> submit_error(JsonTree::Object(members)) == Some(
            text::trimmed(json::lookup(inside, "errorMsg"@)->Some_0->Text_0),
        ),
        json::lookup(members, "error"@) is None && json::lookup(members, "data"@) is None
            ==> submit_error(JsonTree::Object(members)) is None,
{
    lemma_silent(members, error_keys());
    let own = inner_error_keys();
    assert(own[0]@ == "message"@ && own[1]@ == "errorMsg"@ && own[2]@ == "reason"@ && own[3]@
        == "code"@);
    assert(error_keys()[0]@ == "errorMsg"@);
    if json::lookup(members, "error"@) == Some(JsonTree::Object(inside)) {
        if has_text(inside, "message"@) {
            first_field_with_text_speaks(inside, own, 0);
        } else if has_text(inside, "errorMsg"@) {
            first_field_with_text_speaks(inside, own, 1);
        } else if has_text(inside, "reason"@) {
            first_field_with_text_speaks(inside, own, 2);
        } else if has_text(inside, "code"@) {
            first_field_with_text_speaks(inside, own, 3);
        }
    }
    if has_text(inside, "errorMsg"@) {
        first_field_with_text_speaks(inside, error_keys(), 0);
    }
}

proof fn lemma_silent(members: Seq<(Seq<char>, JsonTree)>, keys: Seq<&str>)
    requires
        forall|j: int| 0 <= j < keys.len() ==> !has_text(members, (#[trigger] keys[j])@),
    ensures
        first_text(members, keys) is None,
    decreases keys.len(),
{
    if keys.len() > 0 {
        assert(!has_text(members, keys[0]@));
        let rest = keys.drop_first();
        assert forall|j: int| 0 <= j < rest.len() implies !has_text(
            members,
            (#[trigger] rest[j])@,
        ) by {
            assert(rest[j] == keys[j + 1]);
        }
        lemma_silent(members, rest);
    }
}

/// Of several codes that a message holds the first of the known ones counts.
pub proof fn first_known_code_counts(message: Seq<char>, i: int)
    ensures
        0 <= i < known_codes().len() && text::contains(
            text::uppercase(message),
            known_codes()[i]@,
        ) && (forall|j: int|
            0 <= j < i ==> !text::contains(text::uppercase(message), (#[trigger] known_codes()[j])@))
            ==> error_code(message) == Some(known_codes()[i]@),
        known_codes().len() == 12,
        known_codes()[0]@ == "INVALID_ORDER_MIN_SIZE"@,
        known_codes()[1]@ == "INVALID_ORDER_MIN_TICK_SIZE"@,
        known_codes()[2]@ == "INVALID_ORDER_DUPLICATED"@,
        known_codes()[3]@ == "INVALID_ORDER_NOT_ENOUGH_BALANCE"@,
        known_codes()[4]@ == "INVALID_ORDER_EXPIRATION"@,
        known_codes()[5]@ == "INVALID_ORDER_ERROR"@,
        known_codes()[6]@ == "INVALID_POST_ONLY_ORDER_TYPE"@,
        known_codes()[7]@ == "INVALID_POST_ONLY_ORDER"@,
        known_codes()[8]@ == "FOK_ORDER_NOT_FILLED_ERROR"@,
        known_codes()[9]@ == "EXECUTION_ERROR"@,
        known_codes()[10]@ == "ORDER_DELAYED"@,
        known_codes()[11]@ == "MARKET_NOT_READY"@,
{
    if 0 <= i < known_codes().len() && text::contains(text::uppercase(message), known_codes()[i]@) && (
    forall|j: int|
        0 <= j < i ==> !text::contains(text::uppercase(message), (#[trigger] known_codes()[j])@)) {
        lemma_code_at(text::uppercase(message), known_codes(), i);
    }
}

proof fn lemma_code_at(message: Seq<char>, codes: Seq<&str>, i: int)
    requires
        0 <= i < codes.len(),
        text::contains(message, codes[i]@),
        forall|j: int| 0 <= j < i ==> !text::contains(message, (#[trigger] codes[j])@),
    ensures
        first_code(message, codes) == Some(codes[i]@),
    decreases i,
{
    if i > 0 {
        assert(!text::contains(message, codes[0]@));
        let rest = codes.drop_first();
        assert forall|j: int| 0 <= j < i - 1 implies !text::contains(
            message,
            (#[trigger] rest[j])@,
        ) by {
            assert(rest[j] == codes[j + 1]);
        }
        lemma_code_at(message, rest, i - 1);
    }
}

/// A flag may be a word: `true` and `1` say yes, `false` and `0` say no, whatever their case, and
/// nothing else says anything.
pub proof fn words_may_be_flags(members: Seq<(Seq<char>, JsonTree)>, s: Seq<char>)
    requires
        json::lookup(members, "success"@) == Some(JsonTree::Text(s)),
        json::lookup(members, "data"@) is None,
    ensures
        ({
            let word = text::lowercase(text::trimmed(s));
            let said = submit_success(JsonTree::Object(members));
            &&& said == Some(true) <==> word == "true"@ || word == "1"@
            &&& said == Some(false) <==> word == "false"@ || word == "0"@
        }),
{
    reveal_strlit("true");
    reveal_strlit("1");
    reveal_strlit("false");
    reveal_strlit("0");
    assert("true"@.len() == 4);
    assert("1"@.len() == 1);
    assert("false"@.len() == 5);
    assert("0"@.len() == 1);
    assert("1"@[0] != "0"@[0]);
}

/// A status is also found in the order inside the data.
pub proof fn status_is_found_inside_the_data(
    members: Seq<(Seq<char>, JsonTree)>,
    data: Seq<(Seq<char>, JsonTree)>,
    order: Seq<(Seq<char>, JsonTree)>,
)
    requires
        json::lookup(members, "status"@) is None,
        json::lookup(members, "size_matched"@) is None,
        json::lookup(members, "price"@) is None,
        json::lookup(members, "order"@) is None,
        json::lookup(members, "data"@) == Some(JsonTree::Object(data)),
        json::lookup(data, "status"@) is None,
        json::lookup(data, "size_matched"@) is None,
        json::lookup(data, "price"@) is None,
    ensures
        json::lookup(data, "order"@) == Some(JsonTree::Object(order)) && (json::lookup(
            order,
            "status"@,
        ) is Some || json::lookup(order, "size_matched"@) is Some || json::lookup(
            order,
            "price"@,
        ) is Some) ==> status_record(JsonTree::Object(members)) == Some(order),
        json::lookup(data, "order"@) is None ==> status_record(JsonTree::Object(members)) is None,
{
}

/// A value is summed up by its keys in ascending order where it is an object, and by its kind
/// otherwise; no two kinds but those of numbers have the same name.
pub proof fn values_are_summed_up_by_their_kind(
    members: Seq<(Seq<char>, JsonTree)>,
    key: Seq<char>,
    value: JsonTree,
)
    ensures
        keys_summary(JsonTree::Object(seq![(key, value)])) == key,
        keys_summary(JsonTree::Object(Seq::empty())).len() == 0,
        keys_summary(JsonTree::Object(members)) == text::joined(json::sorted_keys(members), ","@),
        value is Null ==> keys_summary(value) == "<"@ + "null"@ + ">"@,
        value is Bool ==> keys_summary(value) == "<"@ + "bool"@ + ">"@,
        value is Number || value is Amount ==> keys_summary(value) == "<"@ + "number"@ + ">"@,
        value is Text ==> keys_summary(value) == "<"@ + "string"@ + ">"@,
        value is Array ==> keys_summary(value) == "<"@ + "array"@ + ">"@,
        value is Object ==> shape_name(value) == "object"@,
{
    let one = seq![(key, value)];
    assert(one.drop_last() =~= Seq::<(Seq<char>, JsonTree)>::empty());
    assert(json::sorted_keys(one.drop_last()) =~= Seq::<Seq<char>>::empty());
    assert(json::sorted_keys(one) =~= seq![key]);
}

} // verus!

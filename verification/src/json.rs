//! JSON: a tree of plain values, how it is read from text and how it is taken apart.
use vstd::prelude::*;
use crate::double::Double;
use crate::text;

verus! {

// ---------------------------------------------------------------------------
// Values and their trees
// ---------------------------------------------------------------------------

/// A number that was read from JSON text.
pub enum JsonNumber {
    /// An integer from zero up.
    Unsigned(u64),
    /// An integer below zero.
    Negative(i64),
    /// Any other number, with the numeral that renders it.
    Decimal(Double, String),
}

pub enum Json {
    Null,
    Bool(bool),
    Number(JsonNumber),
    /// A number that was computed and not read.
    Amount(Double),
    Text(String),
    Array(Vec<Json>),
    Object(Vec<Entry>),
}

/// One member of an object.
pub struct Entry {
    pub key: String,
    pub value: Json,
}

#[verifier::ext_equal]
pub enum NumberTree {
    Unsigned(u64),
    Negative(i64),
    Decimal(Double, Seq<char>),
}

/// What a JSON value stands for. The members of an object are in the order in which the object
/// hands them out.
#[verifier::ext_equal]
pub enum JsonTree {
    Null,
    Bool(bool),
    Number(NumberTree),
    Amount(Double),
    Text(Seq<char>),
    Array(Seq<JsonTree>),
    Object(Seq<(Seq<char>, JsonTree)>),
}

impl JsonNumber {
    pub open spec fn view(self) -> NumberTree {
        match self {
            JsonNumber::Unsigned(n) => NumberTree::Unsigned(n),
            JsonNumber::Negative(n) => NumberTree::Negative(n),
            JsonNumber::Decimal(d, text) => NumberTree::Decimal(d, text@),
        }
    }

    fn copy(&self) -> (r: JsonNumber)
        ensures
            r@ == self@,
    {
        match self {
            JsonNumber::Unsigned(n) => JsonNumber::Unsigned(*n),
            JsonNumber::Negative(n) => JsonNumber::Negative(*n),
            JsonNumber::Decimal(d, text) => JsonNumber::Decimal(*d, text.clone()),
        }
    }

    /// The numeral that renders the number.
    pub fn numeral(&self) -> (r: String)
        ensures
            r@ == numeral_of(self@),
    {
        match self {
            JsonNumber::Unsigned(n) => text::decimal_u64(*n),
            JsonNumber::Negative(n) => text::decimal_i64(*n),
            JsonNumber::Decimal(d, text) => text.clone(),
        }
    }
}

/// The numeral that renders a number.
pub open spec fn numeral_of(n: NumberTree) -> Seq<char> {
    match n {
        NumberTree::Unsigned(v) => text::decimal(v as nat),
        NumberTree::Negative(v) => text::decimal_int(v as int),
        NumberTree::Decimal(d, text) => text,
    }
}

impl Json {
    pub open spec fn view(self) -> JsonTree
        decreases self,
    {
        match self {
            Json::Null => JsonTree::Null,
            Json::Bool(b) => JsonTree::Bool(b),
            Json::Number(n) => JsonTree::Number(n.view()),
            Json::Amount(d) => JsonTree::Amount(d),
            Json::Text(s) => JsonTree::Text(s@),
            Json::Array(items) => JsonTree::Array(
                Seq::new(
                    items@.len(),
                    |i: int|
                        if 0 <= i < items@.len() {
                            items@[i].view()
                        } else {
                            JsonTree::Null
                        },
                ),
            ),
            Json::Object(entries) => JsonTree::Object(
                Seq::new(
                    entries@.len(),
                    |i: int|
                        if 0 <= i < entries@.len() {
                            (entries@[i].key@, entries@[i].value.view())
                        } else {
                            (Seq::empty(), JsonTree::Null)
                        },
                ),
            ),
        }
    }
}

/// The members that a list of entries stands for.
pub open spec fn record(entries: Seq<Entry>) -> Seq<(Seq<char>, JsonTree)> {
    Seq::new(entries.len(), |i: int| (entries[i].key@, entries[i].value@))
}

/// The trees that a list of values stands for.
pub open spec fn trees(items: Seq<Json>) -> Seq<JsonTree> {
    Seq::new(items.len(), |i: int| items[i]@)
}

pub proof fn lemma_object_tree(entries: Vec<Entry>)
    ensures
        Json::Object(entries)@ == JsonTree::Object(record(entries@)),
{
    assert(Json::Object(entries)@->Object_0 =~= record(entries@));
}

pub proof fn lemma_array_tree(items: Vec<Json>)
    ensures
        Json::Array(items)@ == JsonTree::Array(trees(items@)),
{
    assert(Json::Array(items)@->Array_0 =~= trees(items@));
}

// ---------------------------------------------------------------------------
// Members of an object
// ---------------------------------------------------------------------------

/// Where a key stands among the members; their number if it is not there.
pub open spec fn position(members: Seq<(Seq<char>, JsonTree)>, key: Seq<char>) -> int
    decreases members.len(),
{
    if members.len() == 0 || members[0].0 == key {
        0
    } else {
        1 + position(members.drop_first(), key)
    }
}

/// The value of a key among the members.
pub open spec fn lookup(members: Seq<(Seq<char>, JsonTree)>, key: Seq<char>) -> Option<JsonTree> {
    let i = position(members, key);
    if i < members.len() {
        Some(members[i].1)
    } else {
        None
    }
}

/// The members with the value of one key set: in its place where the key is there already, at
/// the end otherwise.
pub open spec fn put(
    members: Seq<(Seq<char>, JsonTree)>,
    key: Seq<char>,
    value: JsonTree,
) -> Seq<(Seq<char>, JsonTree)> {
    let i = position(members, key);
    if i < members.len() {
        members.update(i, (key, value))
    } else {
        members.push((key, value))
    }
}

/// No key occurs twice.
pub open spec fn distinct_keys(members: Seq<(Seq<char>, JsonTree)>) -> bool {
    forall|i: int, j: int|
        0 <= i < j < members.len() ==> (#[trigger] members[i]).0 != (#[trigger] members[j]).0
}

proof fn lemma_position(members: Seq<(Seq<char>, JsonTree)>, key: Seq<char>, k: int)
    requires
        0 <= k <= members.len(),
        forall|j: int| 0 <= j < k ==> (#[trigger] members[j]).0 != key,
        k == members.len() || members[k].0 == key,
    ensures
        position(members, key) == k,
    decreases k,
{
    if k > 0 {
        assert(members[0].0 != key);
        let rest = members.drop_first();
        assert forall|j: int| 0 <= j < k - 1 implies (#[trigger] rest[j]).0 != key by {
            assert(rest[j] == members[j + 1]);
        }
        lemma_position(rest, key, k - 1);
    }
}

pub proof fn lemma_position_bounds(members: Seq<(Seq<char>, JsonTree)>, key: Seq<char>)
    ensures
        0 <= position(members, key) <= members.len(),
        position(members, key) < members.len() ==> members[position(members, key)].0 == key,
        forall|j: int| 0 <= j < position(members, key) ==> (#[trigger] members[j]).0 != key,
    decreases members.len(),
{
    if members.len() > 0 && members[0].0 != key {
        let rest = members.drop_first();
        lemma_position_bounds(rest, key);
        assert forall|j: int| 0 <= j < position(members, key) implies (#[trigger] members[j]).0
            != key by {
            if j > 0 {
                assert(members[j] == rest[j - 1]);
            }
        }
    }
}

/// Setting a key is seen by a later look-up of it, leaves every other key as it was, and brings
/// in no second member with the same key.
pub proof fn put_then_lookup(
    members: Seq<(Seq<char>, JsonTree)>,
    key: Seq<char>,
    value: JsonTree,
    other: Seq<char>,
)
    ensures
        lookup(put(members, key, value), key) == Some(value),
        other != key ==> lookup(put(members, key, value), other) == lookup(members, other),
        distinct_keys(members) ==> distinct_keys(put(members, key, value)),
{
    let after = put(members, key, value);
    lemma_position_bounds(members, key);
    lemma_position_bounds(members, other);
    let i = position(members, key);
    assert forall|j: int| 0 <= j < i implies (#[trigger] after[j]).0 != key by {
        assert(after[j] == members[j]);
    }
    lemma_position(after, key, i);
    if other != key {
        let k = position(members, other);
        assert forall|j: int| 0 <= j < k implies (#[trigger] after[j]).0 != other by {
            if j < members.len() {
                assert(members[j].0 != other);
            }
        }
        if k < members.len() {
            assert(after[k] == members[k]);
            lemma_position(after, other, k);
        } else {
            assert forall|j: int| 0 <= j < after.len() implies (#[trigger] after[j]).0 != other by {
                if j < members.len() {
                    assert(members[j].0 != other);
                }
            }
            lemma_position(after, other, after.len() as int);
        }
    }
    if distinct_keys(members) {
        assert forall|a: int, b: int| 0 <= a < b < after.len() implies (#[trigger] after[a]).0 != (
        #[trigger] after[b]).0 by {
            if a < members.len() {
                assert(members[a].0 == after[a].0);
            }
            if b < members.len() {
                assert(members[b].0 == after[b].0);
            }
        }
    }
}

/// `Map::get`: the value of a key.
pub fn find_member<'a>(entries: &'a Vec<Entry>, key: &str) -> (r: Option<&'a Json>)
    ensures
        match r {
            Some(v) => lookup(record(entries@), key@) == Some(v@),
            None => lookup(record(entries@), key@) is None,
        },
{
    let mut i: usize = 0;
    while i < entries.len()
        invariant
            i <= entries.len(),
            forall|j: int| 0 <= j < i ==> (#[trigger] record(entries@)[j]).0 != key@,
        decreases entries.len() - i,
    {
        if text::text_eq(entries[i].key.as_str(), key) {
            proof {
                lemma_position(record(entries@), key@, i as int);
            }
            return Some(&entries[i].value);
        }
        i = i + 1;
    }
    proof {
        lemma_position(record(entries@), key@, entries@.len() as int);
    }
    None
}

/// Whether one of several keys is among the members.
pub open spec fn has_key(members: Seq<(Seq<char>, JsonTree)>, key: Seq<char>) -> bool {
    lookup(members, key) is Some
}

pub fn contains_key(entries: &Vec<Entry>, key: &str) -> (r: bool)
    ensures
        r == has_key(record(entries@), key@),
{
    find_member(entries, key).is_some()
}

/// `Map::insert`: sets the value of a key.
pub fn set_member(entries: &mut Vec<Entry>, key: &str, value: Json)
    ensures
        record(final(entries)@) == put(record(old(entries)@), key@, value@),
{
    let ghost before = entries@;
    let mut i: usize = 0;
    while i < entries.len()
        invariant
            i <= entries.len(),
            entries@ == before,
            before == old(entries)@,
            forall|j: int| 0 <= j < i ==> (#[trigger] record(before)[j]).0 != key@,
        decreases entries.len() - i,
    {
        if text::text_eq(entries[i].key.as_str(), key) {
            proof {
                lemma_position(record(before), key@, i as int);
            }
            let entry = Entry { key: key.to_owned(), value };
            entries.set(i, entry);
            assert(record(entries@) =~= put(record(before), key@, value@));
            return ;
        }
        i = i + 1;
    }
    proof {
        lemma_position(record(before), key@, before.len() as int);
    }
    let entry = Entry { key: key.to_owned(), value };
    entries.push(entry);
    assert(record(entries@) =~= put(record(before), key@, value@));
}

/// The members with several others set one after the other.
pub open spec fn put_all(
    members: Seq<(Seq<char>, JsonTree)>,
    others: Seq<(Seq<char>, JsonTree)>,
) -> Seq<(Seq<char>, JsonTree)>
    decreases others.len(),
{
    if others.len() == 0 {
        members
    } else {
        put(put_all(members, others.drop_last()), others.last().0, others.last().1)
    }
}

/// Sets several members one after the other.
pub fn set_members(entries: &mut Vec<Entry>, others: Vec<Entry>)
    ensures
        record(final(entries)@) == put_all(record(old(entries)@), record(others@)),
{
    let ghost before = record(entries@);
    let ghost all = others@;
    for other in it: others
        invariant
            it.seq() == all,
            record(entries@) == put_all(before, record(all).take(it.index() as int)),
    {
        let ghost k = it.index() as int;
        assert(other == all[k]);
        assert(record(all).take(k + 1).drop_last() =~= record(all).take(k));
        assert(record(all).take(k + 1).last() == (other.key@, other.value@));
        set_member(entries, other.key.as_str(), other.value);
    }
    assert(record(all).take(all.len() as int) =~= record(all));
}

/// A single member.
pub fn entry(key: &str, value: Json) -> (r: Entry)
    ensures
        r.key@ == key@,
        r.value@ == value@,
{
    Entry { key: key.to_owned(), value }
}

/// A copy of a list of members.
pub fn copy_record(entries: &Vec<Entry>) -> (r: Vec<Entry>)
    ensures
        record(r@) == record(entries@),
    decreases entries,
{
    let mut out: Vec<Entry> = Vec::new();
    let mut i: usize = 0;
    while i < entries.len()
        invariant
            i <= entries.len(),
            record(out@) == record(entries@).take(i as int),
        decreases entries.len() - i,
    {
        let entry = &entries[i];
        assert(decreases_to!(entries => entries@[i as int]));
        let ghost before = out@;
        let copy = Entry { key: entry.key.clone(), value: entry.value.copy() };
        out.push(copy);
        assert(record(out@) =~= record(before).push((entry.key@, entry.value@)));
        assert(record(entries@).take(i + 1) =~= record(entries@).take(i as int).push(
            (entry.key@, entry.value@),
        ));
        i = i + 1;
    }
    assert(record(entries@).take(entries@.len() as int) =~= record(entries@));
    out
}

fn copy_items(items: &Vec<Json>) -> (r: Vec<Json>)
    ensures
        trees(r@) == trees(items@),
    decreases items,
{
    let mut out: Vec<Json> = Vec::new();
    let mut i: usize = 0;
    while i < items.len()
        invariant
            i <= items.len(),
            trees(out@) == trees(items@).take(i as int),
        decreases items.len() - i,
    {
        assert(decreases_to!(items => items@[i as int]));
        let ghost before = out@;
        out.push(items[i].copy());
        assert(trees(out@) =~= trees(before).push(items@[i as int]@));
        assert(trees(items@).take(i + 1) =~= trees(items@).take(i as int).push(
            items@[i as int]@,
        ));
        i = i + 1;
    }
    assert(trees(items@).take(items@.len() as int) =~= trees(items@));
    out
}

// ---------------------------------------------------------------------------
// Taking a value apart
// ---------------------------------------------------------------------------

impl JsonTree {
    /// The value of a key, where this is an object that has it.
    pub open spec fn member(self, key: Seq<char>) -> Option<JsonTree> {
        match self {
            JsonTree::Object(members) => lookup(members, key),
            _ => None,
        }
    }

    /// The text, where this is one.
    pub open spec fn text(self) -> Option<Seq<char>> {
        match self {
            JsonTree::Text(s) => Some(s),
            _ => None,
        }
    }

    pub open spec fn flag(self) -> Option<bool> {
        match self {
            JsonTree::Bool(b) => Some(b),
            _ => None,
        }
    }

    pub open spec fn members(self) -> Option<Seq<(Seq<char>, JsonTree)>> {
        match self {
            JsonTree::Object(members) => Some(members),
            _ => None,
        }
    }

    pub open spec fn items(self) -> Option<Seq<JsonTree>> {
        match self {
            JsonTree::Array(items) => Some(items),
            _ => None,
        }
    }

    /// The text of a member.
    pub open spec fn member_text(self, key: Seq<char>) -> Option<Seq<char>> {
        match self.member(key) {
            Some(v) => v.text(),
            None => None,
        }
    }
}

impl Json {
    /// A copy of the value.
    pub fn copy(&self) -> (r: Json)
        ensures
            r@ == self@,
        decreases self,
    {
        match self {
            Json::Null => Json::Null,
            Json::Bool(b) => Json::Bool(*b),
            Json::Number(n) => Json::Number(n.copy()),
            Json::Amount(d) => Json::Amount(*d),
            Json::Text(s) => Json::Text(s.clone()),
            Json::Array(items) => {
                let copy = copy_items(items);
                proof {
                    lemma_array_tree(copy);
                    lemma_array_tree(*items);
                }
                Json::Array(copy)
            },
            Json::Object(entries) => {
                let copy = copy_record(entries);
                proof {
                    lemma_object_tree(copy);
                    lemma_object_tree(*entries);
                }
                Json::Object(copy)
            },
        }
    }

    /// `Value::get` with a key.
    pub fn get<'a>(&'a self, key: &str) -> (r: Option<&'a Json>)
        ensures
            match r {
                Some(v) => self@.member(key@) == Some(v@),
                None => self@.member(key@) is None,
            },
    {
        match self {
            Json::Object(entries) => {
                proof {
                    lemma_object_tree(*entries);
                }
                find_member(entries, key)
            },
            _ => None,
        }
    }

    pub fn as_str<'a>(&'a self) -> (r: Option<&'a str>)
        ensures
            match r {
                Some(s) => self@.text() == Some(s@),
                None => self@.text() is None,
            },
    {
        match self {
            Json::Text(s) => Some(s.as_str()),
            _ => None,
        }
    }

    pub fn as_bool(&self) -> (r: Option<bool>)
        ensures
            r == self@.flag(),
    {
        match self {
            Json::Bool(b) => Some(*b),
            _ => None,
        }
    }

    pub fn as_object<'a>(&'a self) -> (r: Option<&'a Vec<Entry>>)
        ensures
            match r {
                Some(entries) => self@.members() == Some(record(entries@)) && *self == Json::Object(
                    *entries,
                ),
                None => self@.members() is None,
            },
    {
        match self {
            Json::Object(entries) => {
                proof {
                    lemma_object_tree(*entries);
                }
                Some(entries)
            },
            _ => None,
        }
    }

    pub fn as_array<'a>(&'a self) -> (r: Option<&'a Vec<Json>>)
        ensures
            match r {
                Some(items) => self@.items() == Some(trees(items@)) && *self == Json::Array(*items),
                None => self@.items() is None,
            },
    {
        match self {
            Json::Array(items) => {
                proof {
                    lemma_array_tree(*items);
                }
                Some(items)
            },
            _ => None,
        }
    }

    /// The text of a member.
    pub fn get_str<'a>(&'a self, key: &str) -> (r: Option<&'a str>)
        ensures
            match r {
                Some(s) => self@.member_text(key@) == Some(s@),
                None => self@.member_text(key@) is None,
            },
    {
        match self.get(key) {
            Some(v) => v.as_str(),
            None => None,
        }
    }
}

/// A number as it was found: an integer, a double, or a text that is still to be read as one.
pub enum Reading {
    Unsigned(u64),
    Negative(i64),
    Double(Double),
    Text(String),
}

#[verifier::ext_equal]
pub enum ReadingTree {
    Unsigned(u64),
    Negative(i64),
    Double(Double),
    Text(Seq<char>),
}

impl Reading {
    pub open spec fn view(self) -> ReadingTree {
        match self {
            Reading::Unsigned(n) => ReadingTree::Unsigned(n),
            Reading::Negative(n) => ReadingTree::Negative(n),
            Reading::Double(d) => ReadingTree::Double(d),
            Reading::Text(s) => ReadingTree::Text(s@),
        }
    }
}

/// The view of an optional reading.
pub open spec fn reading_view(r: Option<Reading>) -> Option<ReadingTree> {
    match r {
        Some(v) => Some(v@),
        None => None,
    }
}

/// What a value offers as a number: a number, or the trimmed text of a string.
pub open spec fn reading_of(tree: JsonTree) -> Option<ReadingTree> {
    match tree {
        JsonTree::Number(NumberTree::Unsigned(n)) => Some(ReadingTree::Unsigned(n)),
        JsonTree::Number(NumberTree::Negative(n)) => Some(ReadingTree::Negative(n)),
        JsonTree::Number(NumberTree::Decimal(d, _)) => Some(ReadingTree::Double(d)),
        JsonTree::Amount(d) => Some(ReadingTree::Double(d)),
        JsonTree::Text(s) => Some(ReadingTree::Text(text::trimmed(s))),
        _ => None,
    }
}

pub fn value_to_f64(value: &Json) -> (r: Option<Reading>)
    ensures
        reading_view(r) == reading_of(value@),
{
    match value {
        Json::Number(JsonNumber::Unsigned(n)) => Some(Reading::Unsigned(*n)),
        Json::Number(JsonNumber::Negative(n)) => Some(Reading::Negative(*n)),
        Json::Number(JsonNumber::Decimal(d, _)) => Some(Reading::Double(*d)),
        Json::Amount(d) => Some(Reading::Double(*d)),
        Json::Text(s) => Some(Reading::Text(text::trim(s.as_str()).to_owned())),
        _ => None,
    }
}

/// The reading of a member.
pub open spec fn member_reading(
    members: Seq<(Seq<char>, JsonTree)>,
    key: Seq<char>,
) -> Option<ReadingTree> {
    match lookup(members, key) {
        Some(tree) => reading_of(tree),
        None => None,
    }
}

pub fn read_member(entries: &Vec<Entry>, key: &str) -> (r: Option<Reading>)
    ensures
        reading_view(r) == member_reading(record(entries@), key@),
{
    match find_member(entries, key) {
        Some(value) => value_to_f64(value),
        None => None,
    }
}

/// `json!` of a text.
pub fn text_json(s: &str) -> (r: Json)
    ensures
        r@ == JsonTree::Text(s@),
{
    Json::Text(s.to_owned())
}

/// `json!` of a count.
pub fn count_json(n: u64) -> (r: Json)
    ensures
        r@ == count_tree(n),
{
    Json::Number(JsonNumber::Unsigned(n))
}

pub open spec fn count_tree(n: u64) -> JsonTree {
    JsonTree::Number(NumberTree::Unsigned(n))
}

/// `json!` of a double: JSON has no numeral for one that is not finite.
pub open spec fn amount_tree(d: Double) -> JsonTree {
    if d.finite() {
        JsonTree::Amount(d)
    } else {
        JsonTree::Null
    }
}

pub fn amount_json(d: Double) -> (r: Json)
    ensures
        r@ == amount_tree(d),
{
    if d.is_finite() {
        Json::Amount(d)
    } else {
        Json::Null
    }
}

pub open spec fn optional_text_tree(s: Option<Seq<char>>) -> JsonTree {
    match s {
        Some(t) => JsonTree::Text(t),
        None => JsonTree::Null,
    }
}

pub open spec fn optional_amount_tree(d: Option<Double>) -> JsonTree {
    match d {
        Some(v) => amount_tree(v),
        None => JsonTree::Null,
    }
}

/// The text behind an optional string.
pub open spec fn text_view(s: Option<String>) -> Option<Seq<char>> {
    match s {
        Some(t) => Some(t@),
        None => None,
    }
}

pub fn optional_text_json(s: &Option<String>) -> (r: Json)
    ensures
        r@ == optional_text_tree(text_view(*s)),
{
    match s {
        Some(t) => text_json(t.as_str()),
        None => Json::Null,
    }
}

pub fn optional_amount_json(d: Option<Double>) -> (r: Json)
    ensures
        r@ == optional_amount_tree(d),
{
    match d {
        Some(v) => amount_json(v),
        None => Json::Null,
    }
}

/// A copy of an optional string.
pub fn copy_text(s: &Option<String>) -> (r: Option<String>)
    ensures
        text_view(r) == text_view(*s),
{
    match s {
        Some(t) => Some(t.clone()),
        None => None,
    }
}

// ---------------------------------------------------------------------------
// JSON text
// ---------------------------------------------------------------------------

/// `serde_json::Value`, carried and never looked into.
#[verifier::external_type_specification]
#[verifier::external_body]
pub struct ExValue(serde_json::Value);

/// The tree that a `serde_json::Value` holds.
pub uninterp spec fn value_tree(v: serde_json::Value) -> JsonTree;

/// What `serde_json::from_str` makes of a text: the tree, or what it says where the text is not
/// JSON.
pub uninterp spec fn reading_result(text: Seq<char>) -> Result<JsonTree, Seq<Seq<char>>>;

/// The tree of a text that is JSON.
pub open spec fn parsed(text: Seq<char>) -> Option<JsonTree> {
    match reading_result(text) {
        Ok(tree) => Some(tree),
        Err(_) => None,
    }
}

/// What is wrong with a text that is not JSON.
pub open spec fn syntax_error(text: Seq<char>) -> Seq<Seq<char>> {
    reading_result(text)->Err_0
}

/// What `Value::to_string` makes of a tree.
pub uninterp spec fn rendered(tree: JsonTree) -> Seq<char>;

/// The three readings of a `serde_json::Number`, and its numeral.
pub struct NumberReadings {
    pub unsigned: Option<u64>,
    pub signed: Option<i64>,
    pub double_bits: Option<u64>,
    pub numeral: String,
}

/// One level of a `serde_json::Value`.
pub enum JsonNode {
    Null,
    Bool(bool),
    Number(NumberReadings),
    Text(String),
    Array(Vec<serde_json::Value>),
    Object(Vec<(String, serde_json::Value)>),
}

pub open spec fn readings_of(r: NumberReadings, n: NumberTree) -> bool {
    match n {
        NumberTree::Unsigned(v) => r.unsigned == Some(v),
        NumberTree::Negative(v) => v < 0 && r.unsigned is None && r.signed == Some(v),
        NumberTree::Decimal(d, text) => d.finite() && r.unsigned is None && r.signed is None
            && r.double_bits == Some(d.bits) && r.numeral@ == text,
    }
}

pub open spec fn node_of(node: JsonNode, tree: JsonTree) -> bool {
    match node {
        JsonNode::Null => tree == JsonTree::Null,
        JsonNode::Bool(b) => tree == JsonTree::Bool(b),
        JsonNode::Number(r) => tree is Number && readings_of(r, tree->Number_0),
        JsonNode::Text(s) => tree == JsonTree::Text(s@),
        JsonNode::Array(items) => tree is Array && tree->Array_0.len() == items@.len() && (forall|
            i: int,
        |
            0 <= i < items@.len() ==> value_tree(#[trigger] items@[i]) == tree->Array_0[i]),
        JsonNode::Object(members) => tree is Object && tree->Object_0.len() == members@.len() && (
        forall|i: int|
            0 <= i < members@.len() ==> tree->Object_0[i] == (
                (#[trigger] members@[i]).0@,
                value_tree(members@[i].1),
            )),
    }
}

/// Calls `serde_json::from_str` for a `Value`. The outcome is a function of the text and is
/// named [`reading_result`]; an error stands there with its causes, as `anyhow::Error::chain`
/// lists them. What the grammar of JSON makes of a
/// given text is left to the crate, but for one thing: a string is shorter than the JSON text
/// that stands for it, which has its quotation marks too.
#[verifier::external_body]
fn value_from_str(text: &str) -> (r: Result<serde_json::Value, Vec<String>>)
    ensures
        match r {
            Ok(v) => reading_result(text@) == Ok::<JsonTree, Seq<Seq<char>>>(value_tree(v)) && (
            value_tree(v) matches JsonTree::Text(s) ==> s.len() < text@.len()),
            Err(causes) => reading_result(text@) == Err::<JsonTree, Seq<Seq<char>>>(
                text::texts(causes@),
            ),
        },
{
    match serde_json::from_str(text) {
        Ok(v) => Ok(v),
        Err(e) => Err(anyhow::Error::from(e).chain().map(|c| c.to_string()).collect()),
    }
}

/// Calls `Value::to_string`, which writes the compact JSON text. The text is a function of the
/// tree and is named [`rendered`].
#[verifier::external_body]
fn value_to_string(v: &serde_json::Value) -> (r: String)
    ensures
        r@ == rendered(value_tree(*v)),
{
    v.to_string()
}

/// Matches on a `serde_json::Value`: its variant, and the values inside it in the order in which
/// the map hands them out. Of a number it hands over what `Number::as_u64`, `as_i64` and
/// `as_f64` read, and the numeral that `Number` displays: an integer from zero up has the first
/// reading, a negative one only the second, any other number only the third, which is finite.
#[verifier::external_body]
fn unpack(v: serde_json::Value) -> (r: JsonNode)
    ensures
        node_of(r, value_tree(v)),
{
    match v {
        serde_json::Value::Null => JsonNode::Null,
        serde_json::Value::Bool(b) => JsonNode::Bool(b),
        serde_json::Value::Number(n) => JsonNode::Number(NumberReadings {
            unsigned: n.as_u64(),
            signed: n.as_i64(),
            double_bits: n.as_f64().map(|x| x.to_bits()),
            numeral: n.to_string(),
        }),
        serde_json::Value::String(s) => JsonNode::Text(s),
        serde_json::Value::Array(items) => JsonNode::Array(items),
        serde_json::Value::Object(members) => JsonNode::Object(members.into_iter().collect()),
    }
}

/// One level of a value that is to be built.
pub enum Part {
    Bool(bool),
    Unsigned(u64),
    Text(String),
    Array(Vec<serde_json::Value>),
    Object(Vec<(String, serde_json::Value)>),
}

/// Whether a text comes before another in the order of `str`, which compares the characters one
/// by one.
pub open spec fn precedes(a: Seq<char>, b: Seq<char>) -> bool
    decreases a.len(),
{
    if b.len() == 0 {
        false
    } else if a.len() == 0 {
        true
    } else if a[0] == b[0] {
        precedes(a.drop_first(), b.drop_first())
    } else {
        a[0] < b[0]
    }
}

/// Keys in ascending order with one more among them, each of them once.
pub open spec fn with_key(keys: Seq<Seq<char>>, key: Seq<char>) -> Seq<Seq<char>>
    decreases keys.len(),
{
    if keys.len() == 0 || precedes(key, keys[0]) {
        seq![key] + keys
    } else if keys[0] == key {
        keys
    } else {
        seq![keys[0]] + with_key(keys.drop_first(), key)
    }
}

/// The keys of the members, in ascending order.
pub open spec fn sorted_keys(members: Seq<(Seq<char>, JsonTree)>) -> Seq<Seq<char>>
    decreases members.len(),
{
    if members.len() == 0 {
        Seq::empty()
    } else {
        with_key(sorted_keys(members.drop_last()), members.last().0)
    }
}

/// Whether each text comes before all that follow it.
pub open spec fn ascending(keys: Seq<Seq<char>>) -> bool {
    forall|i: int, j: int|
        0 <= i < j < keys.len() ==> precedes(#[trigger] keys[i], #[trigger] keys[j])
}

proof fn lemma_precedes_transitive(a: Seq<char>, b: Seq<char>, c: Seq<char>)
    requires
        precedes(a, b),
        precedes(b, c),
    ensures
        precedes(a, c),
    decreases a.len(),
{
    if a.len() > 0 && a[0] == b[0] && b[0] == c[0] {
        lemma_precedes_transitive(a.drop_first(), b.drop_first(), c.drop_first());
    }
}

proof fn lemma_precedes_total(a: Seq<char>, b: Seq<char>)
    ensures
        precedes(a, b) || precedes(b, a) || a == b,
    decreases a.len(),
{
    if a.len() > 0 && b.len() > 0 && a[0] == b[0] {
        lemma_precedes_total(a.drop_first(), b.drop_first());
        if a.drop_first() == b.drop_first() {
            assert(a =~= seq![a[0]] + a.drop_first());
            assert(b =~= seq![b[0]] + b.drop_first());
        }
    } else if a.len() == 0 && b.len() == 0 {
        assert(a =~= b);
    }
}

proof fn lemma_with_key(keys: Seq<Seq<char>>, key: Seq<char>)
    requires
        ascending(keys),
    ensures
        ascending(with_key(keys, key)),
        forall|k: Seq<char>| #[trigger]
            with_key(keys, key).contains(k) <==> keys.contains(k) || k == key,
    decreases keys.len(),
{
    let out = with_key(keys, key);
    if keys.len() == 0 || precedes(key, keys[0]) {
        assert(out =~= seq![key] + keys);
        assert forall|i: int, j: int| 0 <= i < j < out.len() implies precedes(
            #[trigger] out[i],
            #[trigger] out[j],
        ) by {
            assert(out[j] == keys[j - 1]);
            if i == 0 {
                if j > 1 {
                    lemma_precedes_transitive(key, keys[0], keys[j - 1]);
                }
            } else {
                assert(out[i] == keys[i - 1]);
            }
        }
        assert forall|k: Seq<char>| #[trigger] out.contains(k) <==> keys.contains(k) || k == key by {
            if keys.contains(k) {
                let i = choose|i: int| 0 <= i < keys.len() && keys[i] == k;
                assert(out[i + 1] == k);
            }
            if k == key {
                assert(out[0] == k);
            }
            if out.contains(k) && k != key {
                let i = choose|i: int| 0 <= i < out.len() && out[i] == k;
                assert(keys[i - 1] == k);
            }
        }
    } else if keys[0] == key {
        assert(keys.contains(key));
    } else {
        let rest = keys.drop_first();
        assert forall|i: int, j: int| 0 <= i < j < rest.len() implies precedes(
            #[trigger] rest[i],
            #[trigger] rest[j],
        ) by {
            assert(rest[i] == keys[i + 1] && rest[j] == keys[j + 1]);
        }
        lemma_with_key(rest, key);
        let tail = with_key(rest, key);
        assert(out =~= seq![keys[0]] + tail);
        lemma_precedes_total(keys[0], key);
        assert forall|i: int, j: int| 0 <= i < j < out.len() implies precedes(
            #[trigger] out[i],
            #[trigger] out[j],
        ) by {
            assert(out[j] == tail[j - 1]);
            if i == 0 {
                assert(tail.contains(tail[j - 1]));
                if tail[j - 1] != key {
                    let k = choose|k: int| 0 <= k < rest.len() && rest[k] == tail[j - 1];
                    assert(keys[k + 1] == tail[j - 1]);
                }
            } else {
                assert(out[i] == tail[i - 1]);
            }
        }
        assert forall|k: Seq<char>| #[trigger] out.contains(k) <==> keys.contains(k) || k == key by {
            if keys.contains(k) {
                let i = choose|i: int| 0 <= i < keys.len() && keys[i] == k;
                if i > 0 {
                    assert(rest[i - 1] == k);
                    assert(tail.contains(k));
                } else {
                    assert(out[0] == k);
                }
            }
            if tail.contains(k) {
                let i = choose|i: int| 0 <= i < tail.len() && tail[i] == k;
                assert(out[i + 1] == k);
            }
            if rest.contains(k) {
                let i = choose|i: int| 0 <= i < rest.len() && rest[i] == k;
                assert(keys[i + 1] == k);
            }
            if out.contains(k) {
                let i = choose|i: int| 0 <= i < out.len() && out[i] == k;
                if i > 0 {
                    assert(tail[i - 1] == k);
                    assert(tail.contains(k));
                } else {
                    assert(keys[0] == k);
                }
            }
        }
    }
}

/// The sorted keys of an object ascend and are the keys of its members, no more and no fewer.
pub proof fn sorted_keys_ascend(members: Seq<(Seq<char>, JsonTree)>)
    ensures
        ascending(sorted_keys(members)),
        forall|k: Seq<char>| #[trigger]
            sorted_keys(members).contains(k) <==> lookup(members, k) is Some,
    decreases members.len(),
{
    if members.len() > 0 {
        let head = members.drop_last();
        sorted_keys_ascend(head);
        lemma_with_key(sorted_keys(head), members.last().0);
        assert forall|k: Seq<char>| #[trigger] sorted_keys(members).contains(k) <==> lookup(
            members,
            k,
        ) is Some by {
            assert(sorted_keys(members).contains(k) <==> sorted_keys(head).contains(k) || k
                == members.last().0);
            lemma_position_of_push(head, members.last(), k);
            assert(head.push(members.last()) =~= members);
        }
    }
}

proof fn lemma_position_of_push(
    head: Seq<(Seq<char>, JsonTree)>,
    last: (Seq<char>, JsonTree),
    key: Seq<char>,
)
    ensures
        lookup(head.push(last), key) is Some <==> lookup(head, key) is Some || last.0 == key,
    decreases head.len(),
{
    lemma_position_bounds(head, key);
    lemma_position_bounds(head.push(last), key);
    if head.len() == 0 {
        assert(head.push(last)[0] == last);
        assert(head.push(last).drop_first() =~= Seq::empty());
    } else {
        assert(head.push(last).drop_first() =~= head.drop_first().push(last));
        assert(head.push(last)[0] == head[0]);
        lemma_position_of_push(head.drop_first(), last, key);
        lemma_position_bounds(head.drop_first(), key);
        lemma_position_bounds(head.drop_first().push(last), key);
    }
}

/// Compares two texts character by character.
fn comes_before(a: &str, b: &str) -> (r: bool)
    ensures
        r == precedes(a@, b@),
{
    let left = text::chars_of(a);
    let right = text::chars_of(b);
    let mut i: usize = 0;
    assert(a@.skip(0) =~= a@ && b@.skip(0) =~= b@);
    while i < left.len() && i < right.len() && left[i] == right[i]
        invariant
            left@ == a@,
            right@ == b@,
            i <= left.len(),
            i <= right.len(),
            precedes(a@, b@) == precedes(a@.skip(i as int), b@.skip(i as int)),
        decreases left.len() - i,
    {
        assert(a@.skip(i as int).drop_first() =~= a@.skip(i + 1));
        assert(b@.skip(i as int).drop_first() =~= b@.skip(i + 1));
        i = i + 1;
    }
    if i >= right.len() {
        false
    } else if i >= left.len() {
        true
    } else {
        left[i] < right[i]
    }
}

fn add_key(keys: &mut Vec<String>, key: &str)
    ensures
        text::texts(final(keys)@) == with_key(text::texts(old(keys)@), key@),
{
    let ghost all = text::texts(keys@);
    let mut i: usize = 0;
    assert(all =~= all.take(0) + all.skip(0));
    assert(all.take(0) + with_key(all.skip(0), key@) =~= with_key(all.skip(0), key@));
    assert(all.skip(0) =~= all);
    while i < keys.len()
        invariant
            i <= keys.len(),
            all == text::texts(keys@),
            *keys == *old(keys),
            with_key(all, key@) == all.take(i as int) + with_key(all.skip(i as int), key@),
        decreases keys.len() - i,
    {
        let ghost rest = all.skip(i as int);
        assert(rest[0] == keys@[i as int]@);
        if comes_before(key, keys[i].as_str()) {
            keys.insert(i, key.to_owned());
            assert(text::texts(keys@) =~= all.take(i as int) + (seq![key@] + rest));
            return;
        }
        if text::text_eq(keys[i].as_str(), key) {
            assert(all =~= all.take(i as int) + rest);
            return;
        }
        assert(rest.drop_first() =~= all.skip(i + 1));
        assert(all.take(i + 1) =~= all.take(i as int) + seq![rest[0]]);
        assert(all.take(i as int) + (seq![rest[0]] + with_key(all.skip(i + 1), key@)) =~= all.take(
            i + 1,
        ) + with_key(all.skip(i + 1), key@));
        i = i + 1;
    }
    assert(all.skip(i as int) =~= Seq::empty());
    keys.push(key.to_owned());
    assert(text::texts(keys@) =~= all.take(i as int) + (seq![key@] + all.skip(i as int)));
}

/// The keys of an object, in ascending order.
pub fn keys_in_order(entries: &Vec<Entry>) -> (r: Vec<String>)
    ensures
        text::texts(r@) == sorted_keys(record(entries@)),
{
    let ghost all = record(entries@);
    let mut keys: Vec<String> = Vec::new();
    let mut i: usize = 0;
    assert(text::texts(keys@) =~= sorted_keys(all.take(0)));
    while i < entries.len()
        invariant
            i <= entries.len(),
            all == record(entries@),
            text::texts(keys@) == sorted_keys(all.take(i as int)),
        decreases entries.len() - i,
    {
        add_key(&mut keys, entries[i].key.as_str());
        assert(all.take(i + 1).drop_last() =~= all.take(i as int));
        assert(all.take(i + 1).last().0 == entries@[i as int].key@);
        i = i + 1;
    }
    assert(all.take(all.len() as int) =~= all);
    keys
}

/// Members in the order of their keys, with one more set.
pub open spec fn insert_ordered(
    members: Seq<(Seq<char>, JsonTree)>,
    key: Seq<char>,
    value: JsonTree,
) -> Seq<(Seq<char>, JsonTree)>
    decreases members.len(),
{
    if members.len() == 0 || precedes(key, members[0].0) {
        seq![(key, value)] + members
    } else if members[0].0 == key {
        members.update(0, (key, value))
    } else {
        seq![members[0]] + insert_ordered(members.drop_first(), key, value)
    }
}

/// The object made of members that are set one after the other, in the order of their keys.
pub open spec fn ordered(members: Seq<(Seq<char>, JsonTree)>) -> Seq<(Seq<char>, JsonTree)>
    decreases members.len(),
{
    if members.len() == 0 {
        Seq::empty()
    } else {
        insert_ordered(ordered(members.drop_last()), members.last().0, members.last().1)
    }
}

/// The tree of an object that is built from the given members.
pub open spec fn object_tree(members: Seq<(Seq<char>, JsonTree)>) -> JsonTree {
    JsonTree::Object(ordered(members))
}

/// The trees of a list of built values.
pub open spec fn value_trees(items: Seq<serde_json::Value>) -> Seq<JsonTree> {
    Seq::new(items.len(), |i: int| value_tree(items[i]))
}

/// The members of a list of built values with their keys.
pub open spec fn value_members(members: Seq<(String, serde_json::Value)>) -> Seq<
    (Seq<char>, JsonTree),
> {
    Seq::new(members.len(), |i: int| (members[i].0@, value_tree(members[i].1)))
}

pub open spec fn part_tree(part: Part) -> JsonTree {
    match part {
        Part::Bool(b) => JsonTree::Bool(b),
        Part::Unsigned(n) => count_tree(n),
        Part::Text(s) => JsonTree::Text(s@),
        Part::Array(items) => JsonTree::Array(value_trees(items@)),
        Part::Object(members) => object_tree(value_members(members@)),
    }
}

/// Builds a `serde_json::Value` from its parts by the variants' constructors and
/// `From<u64>`. The map of an object keeps its members in the order of their keys, and of two
/// members with one key the later.
#[verifier::external_body]
fn pack(part: Part) -> (r: serde_json::Value)
    ensures
        value_tree(r) == part_tree(part),
{
    match part {
        Part::Bool(b) => serde_json::Value::Bool(b),
        Part::Unsigned(n) => serde_json::Value::from(n),
        Part::Text(s) => serde_json::Value::String(s),
        Part::Array(items) => serde_json::Value::Array(items),
        Part::Object(members) => serde_json::Value::Object(members.into_iter().collect()),
    }
}

/// A JSON document under construction.
pub struct Document {
    value: serde_json::Value,
}

impl Document {
    pub closed spec fn view(self) -> JsonTree {
        value_tree(self.value)
    }

    /// The value itself.
    pub(crate) fn value(&self) -> (r: &serde_json::Value)
        ensures
            value_tree(*r) == self@,
    {
        &self.value
    }

    pub fn flag(b: bool) -> (r: Document)
        ensures
            r@ == JsonTree::Bool(b),
    {
        Document { value: pack(Part::Bool(b)) }
    }

    pub fn count(n: u64) -> (r: Document)
        ensures
            r@ == count_tree(n),
    {
        Document { value: pack(Part::Unsigned(n)) }
    }

    pub fn text(s: &str) -> (r: Document)
        ensures
            r@ == JsonTree::Text(s@),
    {
        Document { value: pack(Part::Text(s.to_owned())) }
    }

    pub fn array(items: Vec<Document>) -> (r: Document)
        ensures
            r@ == JsonTree::Array(document_trees(items@)),
    {
        let mut values: Vec<serde_json::Value> = Vec::new();
        let ghost all = items@;
        for item in it: items
            invariant
                it.seq() == all,
                value_trees(values@) == document_trees(all).take(it.index() as int),
        {
            let ghost before = values@;
            values.push(item.value);
            assert(value_trees(values@) =~= value_trees(before).push(item@));
            assert(document_trees(all).take(it.index() + 1) =~= document_trees(all).take(
                it.index() as int,
            ).push(item@));
        }
        assert(document_trees(all).take(all.len() as int) =~= document_trees(all));
        Document { value: pack(Part::Array(values)) }
    }

    pub fn object(members: Vec<(String, Document)>) -> (r: Document)
        ensures
            r@ == object_tree(document_members(members@)),
    {
        let mut values: Vec<(String, serde_json::Value)> = Vec::new();
        let ghost all = members@;
        for member in it: members
            invariant
                it.seq() == all,
                value_members(values@) == document_members(all).take(it.index() as int),
        {
            let ghost before = values@;
            let ghost pair = (member.0@, member.1@);
            values.push((member.0, member.1.value));
            assert(value_members(values@) =~= value_members(before).push(pair));
            assert(document_members(all).take(it.index() + 1) =~= document_members(all).take(
                it.index() as int,
            ).push(pair));
        }
        assert(document_members(all).take(all.len() as int) =~= document_members(all));
        Document { value: pack(Part::Object(values)) }
    }

    /// The JSON text of the document.
    pub fn render(&self) -> (r: String)
        ensures
            r@ == rendered(self@),
    {
        value_to_string(&self.value)
    }
}

pub open spec fn document_trees(items: Seq<Document>) -> Seq<JsonTree> {
    Seq::new(items.len(), |i: int| items[i]@)
}

pub open spec fn document_members(members: Seq<(String, Document)>) -> Seq<(Seq<char>, JsonTree)> {
    Seq::new(members.len(), |i: int| (members[i].0@, members[i].1@))
}

pub(crate) fn member(key: &str, value: Document) -> (r: (String, Document))
    ensures
        r.0@ == key@,
        r.1 == value,
{
    (key.to_owned(), value)
}

fn number_of_readings(r: NumberReadings, Ghost(n): Ghost<NumberTree>) -> (number: JsonNumber)
    requires
        readings_of(r, n),
    ensures
        number@ == n,
{
    match r.unsigned {
        Some(v) => JsonNumber::Unsigned(v),
        None => match r.signed {
            Some(v) => JsonNumber::Negative(v),
            None => match r.double_bits {
                Some(bits) => JsonNumber::Decimal(Double { bits }, r.numeral),
                None => JsonNumber::Unsigned(0),
            },
        },
    }
}

fn items_of_values(values: Vec<serde_json::Value>, Ghost(ts): Ghost<Seq<JsonTree>>) -> (r: Vec<
    Json,
>)
    requires
        ts.len() == values@.len(),
        forall|i: int| 0 <= i < values@.len() ==> value_tree(#[trigger] values@[i]) == ts[i],
    ensures
        trees(r@) == ts,
    decreases ts,
{
    let mut out: Vec<Json> = Vec::new();
    let ghost all = values@;
    for value in it: values
        invariant
            it.seq() == all,
            ts.len() == all.len(),
            forall|i: int| 0 <= i < all.len() ==> value_tree(#[trigger] all[i]) == ts[i],
            trees(out@) == ts.take(it.index() as int),
    {
        let ghost k = it.index() as int;
        assert(value == all[k]);
        assert(decreases_to!(ts => ts[k]));
        let ghost before = out@;
        out.push(json_of_value(value));
        assert(trees(out@) =~= trees(before).push(ts[k]));
        assert(ts.take(k + 1) =~= ts.take(k).push(ts[k]));
    }
    assert(ts.take(ts.len() as int) =~= ts);
    out
}

fn entries_of_values(
    values: Vec<(String, serde_json::Value)>,
    Ghost(ts): Ghost<Seq<(Seq<char>, JsonTree)>>,
) -> (r: Vec<Entry>)
    requires
        ts.len() == values@.len(),
        forall|i: int|
            0 <= i < values@.len() ==> ts[i] == (
                (#[trigger] values@[i]).0@,
                value_tree(values@[i].1),
            ),
    ensures
        record(r@) == ts,
    decreases ts,
{
    let mut out: Vec<Entry> = Vec::new();
    let ghost all = values@;
    for value in it: values
        invariant
            it.seq() == all,
            ts.len() == all.len(),
            forall|i: int|
                0 <= i < all.len() ==> ts[i] == ((#[trigger] all[i]).0@, value_tree(all[i].1)),
            record(out@) == ts.take(it.index() as int),
    {
        let ghost k = it.index() as int;
        assert(value == all[k]);
        assert(decreases_to!(ts => ts[k]));
        assert(decreases_to!(ts[k] => ts[k].1));
        let ghost before = out@;
        let (key, inner) = value;
        out.push(Entry { key, value: json_of_value(inner) });
        assert(record(out@) =~= record(before).push(ts[k]));
        assert(ts.take(k + 1) =~= ts.take(k).push(ts[k]));
    }
    assert(ts.take(ts.len() as int) =~= ts);
    out
}

fn json_of_value(v: serde_json::Value) -> (r: Json)
    ensures
        r@ == value_tree(v),
    decreases value_tree(v),
{
    let ghost tree = value_tree(v);
    match unpack(v) {
        JsonNode::Null => Json::Null,
        JsonNode::Bool(b) => Json::Bool(b),
        JsonNode::Number(r) => Json::Number(number_of_readings(r, Ghost(tree->Number_0))),
        JsonNode::Text(s) => Json::Text(s),
        JsonNode::Array(values) => {
            let items = items_of_values(values, Ghost(tree->Array_0));
            proof {
                lemma_array_tree(items);
            }
            Json::Array(items)
        },
        JsonNode::Object(values) => {
            let entries = entries_of_values(values, Ghost(tree->Object_0));
            proof {
                lemma_object_tree(entries);
            }
            Json::Object(entries)
        },
    }
}

/// Reads a JSON text, or says what is wrong with it.
pub fn read(text: &str) -> (r: Result<Json, Vec<String>>)
    ensures
        match r {
            Ok(json) => parsed(text@) == Some(json@) && (json@ matches JsonTree::Text(s)
                ==> s.len() < text@.len()),
            Err(causes) => parsed(text@) is None && text::texts(causes@) == syntax_error(text@),
        },
{
    match value_from_str(text) {
        Ok(v) => Ok(json_of_value(v)),
        Err(causes) => Err(causes),
    }
}

/// Reads a JSON text.
pub fn parse(text: &str) -> (r: Option<Json>)
    ensures
        match r {
            Some(json) => parsed(text@) == Some(json@) && (json@ matches JsonTree::Text(s)
                ==> s.len() < text@.len()),
            None => parsed(text@) is None,
        },
{
    match read(text) {
        Ok(json) => Some(json),
        Err(_) => None,
    }
}

/// Reads a JSON text and writes what was read in its rendered form.
pub fn read_and_render(text: &str) -> (r: Result<(Json, String), Vec<String>>)
    ensures
        match r {
            Ok((json, line)) => parsed(text@) == Some(json@) && line@ == rendered(json@),
            Err(causes) => parsed(text@) is None && text::texts(causes@) == syntax_error(text@),
        },
{
    match value_from_str(text) {
        Ok(v) => {
            let line = value_to_string(&v);
            Ok((json_of_value(v), line))
        },
        Err(causes) => Err(causes),
    }
}

/// What a key holds once a member is set: the new value where it is the key of that member, and
/// what it held before otherwise.
pub broadcast proof fn lookup_after_put(
    members: Seq<(Seq<char>, JsonTree)>,
    key: Seq<char>,
    value: JsonTree,
    other: Seq<char>,
)
    ensures
        (#[trigger] lookup(put(members, key, value), other)) == (if other == key {
            Some(value)
        } else {
            lookup(members, other)
        }),
{
    put_then_lookup(members, key, value, other);
}

/// Setting members leaves every key as it was that is none of theirs.
pub proof fn other_keys_are_kept(
    members: Seq<(Seq<char>, JsonTree)>,
    others: Seq<(Seq<char>, JsonTree)>,
    key: Seq<char>,
)
    requires
        forall|i: int| 0 <= i < others.len() ==> (#[trigger] others[i]).0 != key,
    ensures
        lookup(put_all(members, others), key) == lookup(members, key),
    decreases others.len(),
{
    if others.len() > 0 {
        let head = others.drop_last();
        assert forall|i: int| 0 <= i < head.len() implies (#[trigger] head[i]).0 != key by {
            assert(head[i] == others[i]);
        }
        other_keys_are_kept(members, head, key);
        put_then_lookup(put_all(members, head), others.last().0, others.last().1, key);
    }
}

proof fn lemma_lookup_in_front(
    first: (Seq<char>, JsonTree),
    rest: Seq<(Seq<char>, JsonTree)>,
    key: Seq<char>,
)
    ensures
        first.0 == key ==> lookup(seq![first] + rest, key) == Some(first.1),
        first.0 != key ==> lookup(seq![first] + rest, key) == lookup(rest, key),
{
    let all = seq![first] + rest;
    assert(all.drop_first() =~= rest);
    assert(all[0] == first);
    lemma_position_bounds(rest, key);
}

proof fn lemma_insert_ordered(
    members: Seq<(Seq<char>, JsonTree)>,
    key: Seq<char>,
    value: JsonTree,
    other: Seq<char>,
)
    ensures
        lookup(insert_ordered(members, key, value), key) == Some(value),
        other != key ==> lookup(insert_ordered(members, key, value), other) == lookup(
            members,
            other,
        ),
    decreases members.len(),
{
    if members.len() == 0 || precedes(key, members[0].0) {
        lemma_lookup_in_front((key, value), members, key);
        lemma_lookup_in_front((key, value), members, other);
    } else {
        let rest = members.drop_first();
        assert(seq![members[0]] + rest =~= members);
        if members[0].0 == key {
            assert(members.update(0, (key, value)) =~= seq![(key, value)] + rest);
            lemma_lookup_in_front((key, value), rest, key);
            lemma_lookup_in_front((key, value), rest, other);
            lemma_lookup_in_front(members[0], rest, other);
        } else {
            lemma_insert_ordered(rest, key, value, other);
            let after = insert_ordered(rest, key, value);
            lemma_lookup_in_front(members[0], after, key);
            lemma_lookup_in_front(members[0], after, other);
            lemma_lookup_in_front(members[0], rest, other);
        }
    }
}

proof fn lemma_ordered_lookup(members: Seq<(Seq<char>, JsonTree)>, i: int)
    requires
        0 <= i < members.len(),
        forall|j: int| i < j < members.len() ==> (#[trigger] members[j]).0 != members[i].0,
    ensures
        lookup(ordered(members), members[i].0) == Some(members[i].1),
    decreases members.len(),
{
    let head = members.drop_last();
    let last = members.last();
    lemma_insert_ordered(ordered(head), last.0, last.1, members[i].0);
    if i < members.len() - 1 {
        assert(head[i] == members[i]);
        assert(members[members.len() - 1].0 != members[i].0);
        assert forall|j: int| i < j < head.len() implies (#[trigger] head[j]).0 != head[i].0 by {
            assert(head[j] == members[j]);
        }
        lemma_ordered_lookup(head, i);
    }
}

/// An object has each of the members that it was built from under its key: of several with one key
/// the last.
pub proof fn members_are_found_by_their_keys(members: Seq<(Seq<char>, JsonTree)>, i: int)
    requires
        0 <= i < members.len(),
        forall|j: int| i < j < members.len() ==> (#[trigger] members[j]).0 != members[i].0,
    ensures
        object_tree(members).member(members[i].0) == Some(members[i].1),
{
    lemma_ordered_lookup(members, i);
}

proof fn lemma_ordered_absent(members: Seq<(Seq<char>, JsonTree)>, key: Seq<char>)
    requires
        forall|j: int| 0 <= j < members.len() ==> (#[trigger] members[j]).0 != key,
    ensures
        lookup(ordered(members), key) is None,
    decreases members.len(),
{
    if members.len() > 0 {
        let head = members.drop_last();
        assert(members[members.len() - 1].0 != key);
        assert forall|j: int| 0 <= j < head.len() implies (#[trigger] head[j]).0 != key by {
            assert(head[j] == members[j]);
        }
        lemma_ordered_absent(head, key);
        lemma_insert_ordered(ordered(head), members.last().0, members.last().1, key);
    }
}

/// An object has no member that it was not built from.
pub proof fn other_members_are_not_there(members: Seq<(Seq<char>, JsonTree)>, key: Seq<char>)
    requires
        forall|j: int| 0 <= j < members.len() ==> (#[trigger] members[j]).0 != key,
    ensures
        object_tree(members).member(key) is None,
{
    lemma_ordered_absent(members, key);
}

/// A look-up finds the first member with a key, and nothing exactly where there is none.
pub proof fn first_member_is_found(members: Seq<(Seq<char>, JsonTree)>, key: Seq<char>, i: int)
    ensures
        0 <= i < members.len() && members[i].0 == key && (forall|j: int|
            0 <= j < i ==> (#[trigger] members[j]).0 != key) ==> lookup(members, key) == Some(
            members[i].1,
        ),
        lookup(members, key) is None <==> forall|j: int|
            0 <= j < members.len() ==> (#[trigger] members[j]).0 != key,
        has_key(members, key) <==> lookup(members, key) is Some,
{
    lemma_position_bounds(members, key);
    if 0 <= i < members.len() && members[i].0 == key && (forall|j: int|
        0 <= j < i ==> (#[trigger] members[j]).0 != key) {
        lemma_position(members, key, i);
    }
}

/// The order of texts goes by the first character in which they differ: a text comes before the
/// longer ones that begin with it, and never before itself.
pub proof fn order_goes_by_the_first_difference(
    front: Seq<char>,
    a: Seq<char>,
    b: Seq<char>,
)
    ensures
        !precedes(a, a),
        b.len() > 0 ==> precedes(front, front + b),
        a.len() > 0 && b.len() > 0 && a[0] != b[0] ==> (precedes(front + a, front + b) <==> a[0]
            < b[0]),
    decreases front.len() + a.len(),
{
    if a.len() > 0 {
        order_goes_by_the_first_difference(Seq::empty(), a.drop_first(), b);
    }
    if front.len() > 0 {
        order_goes_by_the_first_difference(front.drop_first(), a, b);
        assert((front + a).drop_first() =~= front.drop_first() + a);
        assert((front + b).drop_first() =~= front.drop_first() + b);
    } else {
        assert(front + a =~= a);
        assert(front + b =~= b);
    }
}

/// A value is read as what it is: a text, a flag, a list or an object, and as nothing else.
pub proof fn values_are_read_as_they_are(
    s: Seq<char>,
    b: bool,
    items: Seq<JsonTree>,
    members: Seq<(Seq<char>, JsonTree)>,
    key: Seq<char>,
)
    ensures
        JsonTree::Text(s).text() == Some(s),
        JsonTree::Bool(b).flag() == Some(b),
        JsonTree::Array(items).items() == Some(items),
        JsonTree::Object(members).members() == Some(members),
        JsonTree::Object(members).member(key) == lookup(members, key),
        JsonTree::Text(s).flag() is None && JsonTree::Text(s).items() is None && JsonTree::Text(
            s,
        ).members() is None && JsonTree::Text(s).member(key) is None,
        JsonTree::Bool(b).text() is None && JsonTree::Array(items).text() is None
            && JsonTree::Object(members).text() is None,
        JsonTree::Array(items).members() is None && JsonTree::Array(items).member(key) is None
            && JsonTree::Object(members).items() is None,
        JsonTree::Object(members).member_text(key) == (match lookup(members, key) {
            Some(JsonTree::Text(t)) => Some(t),
            _ => None,
        }),
{
}

/// A number is read as it is, a text without the white space around it, and nothing else is read; a
/// double that is not finite is put down as nothing.
pub proof fn numbers_and_texts_can_be_read(
    n: u64,
    d: Double,
    s: Seq<char>,
    b: bool,
    members: Seq<(Seq<char>, JsonTree)>,
    key: Seq<char>,
)
    ensures
        reading_of(count_tree(n)) == Some(ReadingTree::Unsigned(n)),
        d.finite() ==> reading_of(amount_tree(d)) == Some(ReadingTree::Double(d)),
        !d.finite() ==> amount_tree(d) == JsonTree::Null,
        reading_of(JsonTree::Text(s)) == Some(ReadingTree::Text(text::trimmed(s))),
        reading_of(JsonTree::Bool(b)) is None,
        reading_of(JsonTree::Null) is None,
        reading_of(JsonTree::Object(members)) is None,
        lookup(members, key) is None ==> member_reading(members, key) is None,
        lookup(members, key) matches Some(t) ==> member_reading(members, key) == reading_of(t),
        optional_text_tree(Some(s)) == JsonTree::Text(s),
        optional_text_tree(None) == JsonTree::Null,
        d.finite() ==> optional_amount_tree(Some(d)) == JsonTree::Amount(d),
        optional_amount_tree(None) == JsonTree::Null,
        numeral_of(NumberTree::Unsigned(n)) == text::decimal(n as nat),
{
}

/// Of several members that are set one after the other the last with a key counts.
pub proof fn last_of_several_members_counts(
    members: Seq<(Seq<char>, JsonTree)>,
    others: Seq<(Seq<char>, JsonTree)>,
    i: int,
)
    requires
        0 <= i < others.len(),
        forall|j: int| i < j < others.len() ==> (#[trigger] others[j]).0 != others[i].0,
    ensures
        lookup(put_all(members, others), others[i].0) == Some(others[i].1),
    decreases others.len(),
{
    let head = others.drop_last();
    let last = others.last();
    put_then_lookup(put_all(members, head), last.0, last.1, others[i].0);
    if i < others.len() - 1 {
        assert(head[i] == others[i]);
        assert(others[others.len() - 1].0 != others[i].0);
        assert forall|j: int| i < j < head.len() implies (#[trigger] head[j]).0 != head[i].0 by {
            assert(head[j] == others[j]);
        }
        last_of_several_members_counts(members, head, i);
    }
}

} // verus!

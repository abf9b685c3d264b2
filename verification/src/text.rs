//! Text as sequences of characters: trimming, searching, splitting, joining and numerals.
use vstd::prelude::*;
use vstd::string::*;

verus! {

// ---------------------------------------------------------------------------
// Characters
// ---------------------------------------------------------------------------

/// The Unicode `White_Space` property.
pub open spec fn is_white(c: char) -> bool {
    ||| 0x09 <= c as int <= 0x0d
    ||| c as int == 0x20
    ||| c as int == 0x85
    ||| c as int == 0xa0
    ||| c as int == 0x1680
    ||| 0x2000 <= c as int <= 0x200a
    ||| c as int == 0x2028
    ||| c as int == 0x2029
    ||| c as int == 0x202f
    ||| c as int == 0x205f
    ||| c as int == 0x3000
}

/// An ASCII decimal digit.
pub open spec fn is_digit(c: char) -> bool {
    '0' <= c <= '9'
}

/// An ASCII hexadecimal digit of either case.
pub open spec fn is_hex(c: char) -> bool {
    ('0' <= c <= '9') || ('a' <= c <= 'f') || ('A' <= c <= 'F')
}

/// The character of a decimal digit.
pub open spec fn digit_char(d: nat) -> char {
    (48 + d) as char
}

/// The value of a decimal digit.
pub open spec fn digit_value(c: char) -> nat {
    (c as int - 48) as nat
}

/// The value of a hexadecimal digit of either case.
pub open spec fn hex_value(c: char) -> nat {
    if '0' <= c <= '9' {
        (c as int - 48) as nat
    } else if 'a' <= c <= 'f' {
        (c as int - 87) as nat
    } else {
        (c as int - 55) as nat
    }
}

/// The lower-case form of a hexadecimal digit.
pub open spec fn hex_lower(c: char) -> char {
    if 'A' <= c <= 'F' {
        (c as int + 32) as char
    } else {
        c
    }
}

pub fn char_is_white(c: char) -> (r: bool)
    ensures
        r == is_white(c),
{
    let n: u32 = c as u32;
    (0x09 <= n && n <= 0x0d) || n == 0x20 || n == 0x85 || n == 0xa0 || n == 0x1680 || (0x2000 <= n
        && n <= 0x200a) || n == 0x2028 || n == 0x2029 || n == 0x202f || n == 0x205f || n == 0x3000
}

pub fn char_is_ascii(c: char) -> (r: bool)
    ensures
        r == (c as int <= 127),
{
    let n: u32 = c as u32;
    n <= 127
}

pub fn char_is_digit(c: char) -> (r: bool)
    ensures
        r == is_digit(c),
{
    '0' <= c && c <= '9'
}

pub fn char_is_hex(c: char) -> (r: bool)
    ensures
        r == is_hex(c),
{
    ('0' <= c && c <= '9') || ('a' <= c && c <= 'f') || ('A' <= c && c <= 'F')
}

fn char_of_digit(d: u64) -> (c: char)
    requires
        d < 10,
    ensures
        c == digit_char(d as nat),
{
    match d {
        0 => '0',
        1 => '1',
        2 => '2',
        3 => '3',
        4 => '4',
        5 => '5',
        6 => '6',
        7 => '7',
        8 => '8',
        _ => '9',
    }
}

// ---------------------------------------------------------------------------
// Trusted string primitives of the standard library
// ---------------------------------------------------------------------------

/// `String::push` adds one character at the end of the string.
pub assume_specification[ String::push ](s: &mut String, c: char)
    ensures
        final(s)@ == old(s)@.push(c),
;

/// What `str::to_lowercase` makes of a text.
pub uninterp spec fn lowercase(s: Seq<char>) -> Seq<char>;

/// What `str::to_uppercase` makes of a text.
pub uninterp spec fn uppercase(s: Seq<char>) -> Seq<char>;

/// Calls `str::to_lowercase`, the Unicode lower-case mapping. The mapping is a function of the
/// text alone and is named [`lowercase`]; nothing else is claimed of it.
#[verifier::external_body]
pub(crate) fn lower(s: &str) -> (r: String)
    ensures
        r@ == lowercase(s@),
{
    s.to_lowercase()
}

/// Calls `str::to_uppercase`, the Unicode upper-case mapping. The mapping is a function of the
/// text alone and is named [`uppercase`]; nothing else is claimed of it.
#[verifier::external_body]
pub(crate) fn upper(s: &str) -> (r: String)
    ensures
        r@ == uppercase(s@),
{
    s.to_uppercase()
}

// ---------------------------------------------------------------------------
// Characters in, characters out
// ---------------------------------------------------------------------------

/// The characters of a text.
pub fn chars_of(s: &str) -> (r: Vec<char>)
    ensures
        r@ == s@,
{
    let mut out: Vec<char> = Vec::new();
    for c in it: s.chars()
        invariant
            out@ == it.seq().take(it.index() as int),
            it.seq() == s@,
    {
        out.push(c);
    }
    out
}

/// The text made of a run of characters.
pub fn text_of(chars: &Vec<char>, from: usize, to: usize) -> (r: String)
    requires
        from <= to <= chars.len(),
    ensures
        r@ == chars@.subrange(from as int, to as int),
{
    let mut out = String::new();
    let mut i: usize = from;
    while i < to
        invariant
            from <= i <= to <= chars.len(),
            out@ == chars@.subrange(from as int, i as int),
        decreases to - i,
    {
        out.push(chars[i]);
        i = i + 1;
        assert(chars@.subrange(from as int, i as int) =~= chars@.subrange(
            from as int,
            i - 1,
        ).push(chars@[i - 1]));
    }
    out
}

/// Whether two texts hold the same characters.
pub fn text_eq(a: &str, b: &str) -> (r: bool)
    ensures
        r == (a@ == b@),
{
    let left: String = a.to_owned();
    let right: String = b.to_owned();
    left == right
}

/// Whether a text is one of several.
pub fn text_in(a: &str, options: &[&str]) -> (r: bool)
    ensures
        r == exists|i: int| 0 <= i < options@.len() && a@ == (#[trigger] options@[i])@,
{
    let mut i: usize = 0;
    while i < options.len()
        invariant
            i <= options.len(),
            forall|j: int| 0 <= j < i ==> a@ != (#[trigger] options@[j])@,
        decreases options.len() - i,
    {
        if text_eq(a, options[i]) {
            return true;
        }
        i = i + 1;
    }
    false
}

/// The texts that a sequence of strings holds.
pub open spec fn texts(v: Seq<String>) -> Seq<Seq<char>> {
    Seq::new(v.len(), |i: int| v[i]@)
}

/// Whether a text is among others.
pub fn holds(list: &Vec<String>, s: &str) -> (r: bool)
    ensures
        r == texts(list@).contains(s@),
{
    let mut i: usize = 0;
    while i < list.len()
        invariant
            i <= list.len(),
            forall|j: int| 0 <= j < i ==> #[trigger] texts(list@)[j] != s@,
        decreases list.len() - i,
    {
        if text_eq(list[i].as_str(), s) {
            assert(texts(list@)[i as int] == s@);
            return true;
        }
        i = i + 1;
    }
    false
}

/// The views of a list of pairs of texts.
pub open spec fn pairs(v: Seq<(String, String)>) -> Seq<(Seq<char>, Seq<char>)> {
    Seq::new(v.len(), |i: int| (v[i].0@, v[i].1@))
}

// ---------------------------------------------------------------------------
// Trimming
// ---------------------------------------------------------------------------

pub open spec fn trim_start(s: Seq<char>) -> Seq<char>
    decreases s.len(),
{
    if s.len() > 0 && is_white(s[0]) {
        trim_start(s.drop_first())
    } else {
        s
    }
}

pub open spec fn trim_end(s: Seq<char>) -> Seq<char>
    decreases s.len(),
{
    if s.len() > 0 && is_white(s.last()) {
        trim_end(s.drop_last())
    } else {
        s
    }
}

/// A text without the white space at its two ends.
pub open spec fn trimmed(s: Seq<char>) -> Seq<char> {
    trim_end(trim_start(s))
}

proof fn lemma_trim_start_at(s: Seq<char>, k: int)
    requires
        0 <= k <= s.len(),
        forall|j: int| 0 <= j < k ==> is_white(#[trigger] s[j]),
        k == s.len() || !is_white(s[k]),
    ensures
        trim_start(s) == s.skip(k),
    decreases k,
{
    if k > 0 {
        assert(is_white(s[0]));
        let t = s.drop_first();
        assert forall|j: int| 0 <= j < k - 1 implies is_white(#[trigger] t[j]) by {
            assert(t[j] == s[j + 1]);
        }
        if k < s.len() {
            assert(t[k - 1] == s[k]);
        }
        lemma_trim_start_at(t, k - 1);
        assert(t.skip(k - 1) =~= s.skip(k));
    } else {
        assert(s.skip(0) =~= s);
    }
}

proof fn lemma_trim_end_at(s: Seq<char>, k: int)
    requires
        0 <= k <= s.len(),
        forall|j: int| k <= j < s.len() ==> is_white(#[trigger] s[j]),
        k == 0 || !is_white(s[k - 1]),
    ensures
        trim_end(s) == s.take(k),
    decreases s.len() - k,
{
    if k < s.len() {
        assert(is_white(s[s.len() - 1]));
        let t = s.drop_last();
        assert forall|j: int| k <= j < t.len() implies is_white(#[trigger] t[j]) by {
            assert(t[j] == s[j]);
        }
        lemma_trim_end_at(t, k);
        assert(t.take(k) =~= s.take(k));
    } else {
        assert(s.take(k) =~= s);
    }
}

/// Digits have no white space to trim.
pub proof fn lemma_digits_are_trimmed(s: Seq<char>)
    requires
        all_digits(s),
    ensures
        trimmed(s) == s,
{
    if s.len() > 0 {
        assert(is_digit(s[0]) && is_digit(s[s.len() - 1]));
    }
    lemma_trim_start_at(s, 0);
    assert(s.skip(0) =~= s);
    lemma_trim_end_at(s, s.len() as int);
    assert(s.take(s.len() as int) =~= s);
}

/// `str::trim`: the text without the white space at its two ends.
pub fn trim(s: &str) -> (r: &str)
    ensures
        r@ == trimmed(s@),
{
    let chars = chars_of(s);
    let n: usize = chars.len();
    let mut a: usize = 0;
    while a < n && char_is_white(chars[a])
        invariant
            n == chars.len(),
            a <= n,
            forall|j: int| 0 <= j < a ==> is_white(#[trigger] chars@[j]),
        decreases n - a,
    {
        a = a + 1;
    }
    proof {
        lemma_trim_start_at(s@, a as int);
    }
    let mut b: usize = n;
    while b > a && char_is_white(chars[b - 1])
        invariant
            n == chars.len(),
            a <= b <= n,
            forall|j: int| b <= j < n ==> is_white(#[trigger] chars@[j]),
        decreases b,
    {
        b = b - 1;
    }
    proof {
        let t = s@.skip(a as int);
        assert forall|j: int| b - a <= j < t.len() implies is_white(#[trigger] t[j]) by {
            assert(t[j] == chars@[j + a]);
        }
        if b > a {
            assert(t[b - a - 1] == chars@[b - 1]);
        }
        lemma_trim_end_at(t, b - a);
        assert(t.take(b - a) =~= s@.subrange(a as int, b as int));
    }
    s.substring_char(a, b)
}

/// Whether a text holds nothing but white space.
pub open spec fn is_blank(s: Seq<char>) -> bool {
    trimmed(s).len() == 0
}

pub fn blank(s: &str) -> (r: bool)
    ensures
        r == is_blank(s@),
{
    trim(s).is_empty()
}

/// A text without the trailing repetitions of one character.
pub open spec fn trim_end_of(s: Seq<char>, c: char) -> Seq<char>
    decreases s.len(),
{
    if s.len() > 0 && s.last() == c {
        trim_end_of(s.drop_last(), c)
    } else {
        s
    }
}

/// A text without the leading repetitions of one character.
pub open spec fn trim_start_of(s: Seq<char>, c: char) -> Seq<char>
    decreases s.len(),
{
    if s.len() > 0 && s[0] == c {
        trim_start_of(s.drop_first(), c)
    } else {
        s
    }
}

/// `str::trim_end_matches` with a single character.
pub fn trim_end_matches(s: &str, c: char) -> (r: String)
    ensures
        r@ == trim_end_of(s@, c),
{
    let chars = chars_of(s);
    let mut b: usize = chars.len();
    proof {
        assert(s@.take(b as int) =~= s@);
    }
    while b > 0 && chars[b - 1] == c
        invariant
            b <= chars.len(),
            chars@ == s@,
            trim_end_of(s@, c) == trim_end_of(s@.take(b as int), c),
        decreases b,
    {
        assert(s@.take(b as int).drop_last() =~= s@.take(b - 1));
        b = b - 1;
    }
    assert(chars@.subrange(0, b as int) =~= s@.take(b as int));
    text_of(&chars, 0, b)
}

/// `str::trim_matches` with a single character.
pub fn trim_matches(s: &str, c: char) -> (r: String)
    ensures
        r@ == trim_end_of(trim_start_of(s@, c), c),
{
    let chars = chars_of(s);
    let mut a: usize = 0;
    proof {
        assert(s@.skip(0) =~= s@);
    }
    while a < chars.len() && chars[a] == c
        invariant
            a <= chars.len(),
            chars@ == s@,
            trim_start_of(s@, c) == trim_start_of(s@.skip(a as int), c),
        decreases chars.len() - a,
    {
        assert(s@.skip(a as int).drop_first() =~= s@.skip(a + 1));
        a = a + 1;
    }
    assert(chars@.subrange(a as int, chars.len() as int) =~= s@.skip(a as int));
    let rest = text_of(&chars, a, chars.len());
    trim_end_matches(rest.as_str(), c)
}

// ---------------------------------------------------------------------------
// Searching
// ---------------------------------------------------------------------------

pub open spec fn occurs_at(s: Seq<char>, p: Seq<char>, i: int) -> bool {
    0 <= i && i + p.len() <= s.len() && s.subrange(i, i + p.len()) == p
}

/// Whether `p` occurs somewhere in `s`.
pub open spec fn contains(s: Seq<char>, p: Seq<char>) -> bool {
    exists|i: int| occurs_at(s, p, i)
}

/// Whether `s` begins with `p`.
pub open spec fn begins_with(s: Seq<char>, p: Seq<char>) -> bool {
    occurs_at(s, p, 0)
}

fn chars_occur_at(s: &Vec<char>, p: &Vec<char>, i: usize) -> (r: bool)
    requires
        i + p.len() <= s.len(),
    ensures
        r == occurs_at(s@, p@, i as int),
{
    let mut k: usize = 0;
    while k < p.len()
        invariant
            k <= p.len(),
            i + p.len() <= s.len(),
            forall|j: int| 0 <= j < k ==> s@[i + j] == p@[j],
        decreases p.len() - k,
    {
        if s[i + k] != p[k] {
            assert(s@.subrange(i as int, i + p.len())[k as int] != p@[k as int]);
            return false;
        }
        k = k + 1;
    }
    assert(s@.subrange(i as int, i + p.len()) =~= p@);
    true
}

/// `str::find`: where `p` first occurs in `s`, counted in characters.
pub fn find(s: &str, p: &str) -> (r: Option<usize>)
    ensures
        match r {
            Some(i) => occurs_at(s@, p@, i as int) && forall|j: int|
                0 <= j < i ==> !occurs_at(s@, p@, j),
            None => !contains(s@, p@),
        },
{
    let sc = chars_of(s);
    let pc = chars_of(p);
    if pc.len() > sc.len() {
        return None;
    }
    let last: usize = sc.len() - pc.len();
    let mut i: usize = 0;
    while i <= last
        invariant
            i <= last + 1,
            last + pc.len() == sc.len(),
            sc@ == s@,
            pc@ == p@,
            forall|j: int| 0 <= j < i ==> !occurs_at(s@, p@, j),
        decreases last + 1 - i,
    {
        if chars_occur_at(&sc, &pc, i) {
            return Some(i);
        }
        if i == last {
            assert(forall|j: int| occurs_at(s@, p@, j) ==> 0 <= j <= last);
            return None;
        }
        i = i + 1;
    }
    None
}

/// `str::contains`.
pub fn has(s: &str, p: &str) -> (r: bool)
    ensures
        r == contains(s@, p@),
{
    find(s, p).is_some()
}

/// Whether a text contains one of several others.
pub open spec fn contains_any(s: Seq<char>, ps: Seq<&str>) -> bool {
    exists|i: int| 0 <= i < ps.len() && contains(s, (#[trigger] ps[i])@)
}

pub fn has_any(s: &str, ps: &[&str]) -> (r: bool)
    ensures
        r == contains_any(s@, ps@),
{
    let mut i: usize = 0;
    while i < ps.len()
        invariant
            i <= ps.len(),
            forall|j: int| 0 <= j < i ==> !contains(s@, (#[trigger] ps@[j])@),
        decreases ps.len() - i,
    {
        if has(s, ps[i]) {
            return true;
        }
        i = i + 1;
    }
    false
}

/// `str::starts_with`.
pub fn starts_with(s: &str, p: &str) -> (r: bool)
    ensures
        r == begins_with(s@, p@),
{
    let sc = chars_of(s);
    let pc = chars_of(p);
    if pc.len() > sc.len() {
        false
    } else {
        chars_occur_at(&sc, &pc, 0)
    }
}

/// `str::strip_prefix`: what follows the prefix, where the text begins with it.
pub fn strip_prefix(s: &str, p: &str) -> (r: Option<String>)
    ensures
        match r {
            Some(rest) => begins_with(s@, p@) && rest@ == s@.skip(p@.len() as int),
            None => !begins_with(s@, p@),
        },
{
    let sc = chars_of(s);
    let pc = chars_of(p);
    if pc.len() > sc.len() || !chars_occur_at(&sc, &pc, 0) {
        None
    } else {
        assert(sc@.subrange(pc@.len() as int, sc@.len() as int) =~= s@.skip(p@.len() as int));
        Some(text_of(&sc, pc.len(), sc.len()))
    }
}

/// What follows the first occurrence of `p` in `s`.
pub open spec fn after_first(s: Seq<char>, p: Seq<char>) -> Option<Seq<char>>
    decreases s.len(),
{
    if begins_with(s, p) {
        Some(s.skip(p.len() as int))
    } else if s.len() == 0 {
        None
    } else {
        after_first(s.drop_first(), p)
    }
}

proof fn lemma_after_first(s: Seq<char>, p: Seq<char>, i: int)
    requires
        occurs_at(s, p, i),
        forall|j: int| 0 <= j < i ==> !occurs_at(s, p, j),
    ensures
        after_first(s, p) == Some(s.skip(i + p.len())),
    decreases i,
{
    if i > 0 {
        assert(!occurs_at(s, p, 0));
        let t = s.drop_first();
        assert(t.subrange(i - 1, i - 1 + p.len()) =~= s.subrange(i, i + p.len()));
        assert forall|j: int| 0 <= j < i - 1 implies !occurs_at(t, p, j) by {
            if occurs_at(t, p, j) {
                assert(s.subrange(j + 1, j + 1 + p.len()) =~= t.subrange(j, j + p.len()));
                assert(occurs_at(s, p, j + 1));
            }
        }
        lemma_after_first(t, p, i - 1);
        assert(t.skip(i - 1 + p.len()) =~= s.skip(i + p.len()));
    }
}

proof fn lemma_no_after_first(s: Seq<char>, p: Seq<char>)
    requires
        !contains(s, p),
    ensures
        after_first(s, p) is None,
    decreases s.len(),
{
    assert(!occurs_at(s, p, 0));
    if s.len() > 0 {
        let t = s.drop_first();
        assert(!contains(t, p)) by {
            if contains(t, p) {
                let j = choose|j: int| occurs_at(t, p, j);
                assert(s.subrange(j + 1, j + 1 + p.len()) =~= t.subrange(j, j + p.len()));
                assert(occurs_at(s, p, j + 1));
            }
        }
        lemma_no_after_first(t, p);
    }
}

/// The text after the first occurrence of another.
pub fn rest_after(s: &str, p: &str) -> (r: Option<String>)
    ensures
        match r {
            Some(rest) => after_first(s@, p@) == Some(rest@),
            None => after_first(s@, p@) is None,
        },
{
    match find(s, p) {
        Some(i) => {
            let sc = chars_of(s);
            let pc = chars_of(p);
            let n: usize = sc.len();
            let m: usize = pc.len();
            assert(i + m <= n);
            proof {
                lemma_after_first(s@, p@, i as int);
                assert(s@.subrange(i + pc@.len(), s@.len() as int) =~= s@.skip(i + p@.len()));
            }
            Some(text_of(&sc, i + m, n))
        },
        None => {
            proof {
                lemma_no_after_first(s@, p@);
            }
            None
        },
    }
}

/// The decimal digits at the start of a text.
pub open spec fn leading_digits(s: Seq<char>) -> Seq<char>
    decreases s.len(),
{
    if s.len() > 0 && is_digit(s[0]) {
        seq![s[0]] + leading_digits(s.drop_first())
    } else {
        Seq::empty()
    }
}

proof fn lemma_leading_digits(s: Seq<char>, k: int)
    requires
        0 <= k <= s.len(),
        forall|j: int| 0 <= j < k ==> is_digit(#[trigger] s[j]),
        k == s.len() || !is_digit(s[k]),
    ensures
        leading_digits(s) == s.take(k),
    decreases k,
{
    if k > 0 {
        assert(is_digit(s[0]));
        let t = s.drop_first();
        assert forall|j: int| 0 <= j < k - 1 implies is_digit(#[trigger] t[j]) by {
            assert(t[j] == s[j + 1]);
        }
        if k < s.len() {
            assert(t[k - 1] == s[k]);
        }
        lemma_leading_digits(t, k - 1);
        assert(seq![s[0]] + t.take(k - 1) =~= s.take(k));
    } else {
        assert(s.take(0) =~= Seq::<char>::empty());
    }
}

/// The decimal digits at the start of a text, after any white space.
pub fn digits_at_start(s: &str) -> (r: String)
    ensures
        r@ == leading_digits(trim_start(s@)),
{
    let chars = chars_of(s);
    let n: usize = chars.len();
    let mut a: usize = 0;
    while a < n && char_is_white(chars[a])
        invariant
            n == chars.len(),
            a <= n,
            forall|j: int| 0 <= j < a ==> is_white(#[trigger] chars@[j]),
        decreases n - a,
    {
        a = a + 1;
    }
    let mut b: usize = a;
    while b < n && char_is_digit(chars[b])
        invariant
            n == chars.len(),
            a <= b <= n,
            forall|j: int| a <= j < b ==> is_digit(#[trigger] chars@[j]),
        decreases n - b,
    {
        b = b + 1;
    }
    proof {
        lemma_trim_start_at(s@, a as int);
        let t = s@.skip(a as int);
        assert forall|j: int| 0 <= j < b - a implies is_digit(#[trigger] t[j]) by {
            assert(t[j] == chars@[j + a]);
        }
        if b < n {
            assert(t[b - a] == chars@[b as int]);
        }
        lemma_leading_digits(t, b - a);
        assert(t.take(b - a) =~= chars@.subrange(a as int, b as int));
    }
    text_of(&chars, a, b)
}

// ---------------------------------------------------------------------------
// Splitting and joining
// ---------------------------------------------------------------------------

/// How many characters precede the first `c`; the whole length if there is none.
pub open spec fn run_before(s: Seq<char>, c: char) -> int
    decreases s.len(),
{
    if s.len() == 0 || s[0] == c {
        0
    } else {
        1 + run_before(s.drop_first(), c)
    }
}

pub proof fn lemma_run_before(s: Seq<char>, c: char, k: int)
    requires
        0 <= k <= s.len(),
        forall|j: int| 0 <= j < k ==> #[trigger] s[j] != c,
        k == s.len() || s[k] == c,
    ensures
        run_before(s, c) == k,
    decreases k,
{
    if k > 0 {
        assert(s[0] != c);
        let t = s.drop_first();
        assert forall|j: int| 0 <= j < k - 1 implies #[trigger] t[j] != c by {
            assert(t[j] == s[j + 1]);
        }
        lemma_run_before(t, c, k - 1);
    }
}

pub proof fn lemma_run_before_bounds(s: Seq<char>, c: char)
    ensures
        0 <= run_before(s, c) <= s.len(),
    decreases s.len(),
{
    if s.len() > 0 && s[0] != c {
        lemma_run_before_bounds(s.drop_first(), c);
    }
}

/// The pieces of a text between the occurrences of a separator.
pub open spec fn pieces(s: Seq<char>, sep: char) -> Seq<Seq<char>>
    decreases s.len(),
    via pieces_decreases
{
    let k = run_before(s, sep);
    if k >= s.len() {
        seq![s]
    } else {
        seq![s.take(k)] + pieces(s.skip(k + 1), sep)
    }
}

#[via_fn]
proof fn pieces_decreases(s: Seq<char>, sep: char) {
    lemma_run_before_bounds(s, sep);
}

/// `str::split` with a single character.
pub fn split(s: &str, sep: char) -> (r: Vec<String>)
    ensures
        texts(r@) == pieces(s@, sep),
        r.len() >= 1,
{
    let chars = chars_of(s);
    let mut out: Vec<String> = Vec::new();
    let mut start: usize = 0;
    let mut i: usize = 0;
    proof {
        assert(s@.skip(0) =~= s@);
        assert(texts(out@) + pieces(s@, sep) =~= pieces(s@, sep));
    }
    while i < chars.len()
        invariant
            start <= i <= chars.len(),
            chars@ == s@,
            forall|j: int| start <= j < i ==> #[trigger] s@[j] != sep,
            texts(out@) + pieces(s@.skip(start as int), sep) == pieces(s@, sep),
        decreases chars.len() - i,
    {
        if chars[i] == sep {
            let piece = text_of(&chars, start, i);
            let ghost before = out@;
            proof {
                let t = s@.skip(start as int);
                assert forall|j: int| 0 <= j < i - start implies #[trigger] t[j] != sep by {
                    assert(t[j] == s@[j + start]);
                }
                lemma_run_before(t, sep, i - start);
                assert(t.take(i - start) =~= piece@);
                assert(t.skip(i - start + 1) =~= s@.skip(i + 1));
                assert(pieces(t, sep) == seq![piece@] + pieces(s@.skip(i + 1), sep));
            }
            out.push(piece);
            proof {
                assert(texts(out@) =~= texts(before) + seq![piece@]);
                assert(texts(before) + (seq![piece@] + pieces(s@.skip(i + 1), sep)) =~= (texts(
                    before,
                ) + seq![piece@]) + pieces(s@.skip(i + 1), sep));
            }
            start = i + 1;
        }
        i = i + 1;
    }
    let piece = text_of(&chars, start, chars.len());
    let ghost before = out@;
    proof {
        let t = s@.skip(start as int);
        assert forall|j: int| 0 <= j < t.len() implies #[trigger] t[j] != sep by {
            assert(t[j] == s@[j + start]);
        }
        lemma_run_before(t, sep, t.len() as int);
        assert(t =~= piece@);
        assert(pieces(t, sep) == seq![piece@]);
    }
    out.push(piece);
    assert(texts(out@) =~= texts(before) + seq![piece@]);
    out
}

/// How many characters precede the first white space; the whole length if there is none.
pub open spec fn word_len(s: Seq<char>) -> int
    decreases s.len(),
{
    if s.len() == 0 || is_white(s[0]) {
        0
    } else {
        1 + word_len(s.drop_first())
    }
}

proof fn lemma_word_len(s: Seq<char>, k: int)
    requires
        0 <= k <= s.len(),
        forall|j: int| 0 <= j < k ==> !is_white(#[trigger] s[j]),
        k == s.len() || is_white(s[k]),
    ensures
        word_len(s) == k,
    decreases k,
{
    if k > 0 {
        assert(!is_white(s[0]));
        let t = s.drop_first();
        assert forall|j: int| 0 <= j < k - 1 implies !is_white(#[trigger] t[j]) by {
            assert(t[j] == s[j + 1]);
        }
        lemma_word_len(t, k - 1);
    }
}

proof fn lemma_word_len_bounds(s: Seq<char>)
    ensures
        0 <= word_len(s) <= s.len(),
    decreases s.len(),
{
    if s.len() > 0 && !is_white(s[0]) {
        lemma_word_len_bounds(s.drop_first());
    }
}

proof fn lemma_trim_start_len(s: Seq<char>)
    ensures
        trim_start(s).len() <= s.len(),
        trim_start(s).len() > 0 ==> !is_white(trim_start(s)[0]),
    decreases s.len(),
{
    if s.len() > 0 && is_white(s[0]) {
        lemma_trim_start_len(s.drop_first());
    }
}

/// The maximal runs of characters that are not white space.
pub open spec fn words(s: Seq<char>) -> Seq<Seq<char>>
    decreases s.len(),
    via words_decreases
{
    let t = trim_start(s);
    if t.len() == 0 {
        Seq::empty()
    } else {
        seq![t.take(word_len(t))] + words(t.skip(word_len(t)))
    }
}

#[via_fn]
proof fn words_decreases(s: Seq<char>) {
    lemma_trim_start_len(s);
    let t = trim_start(s);
    lemma_word_len_bounds(t);
    if t.len() > 0 {
        assert(word_len(t) >= 1) by {
            lemma_word_len_bounds(t.drop_first());
        }
    }
}

/// `str::split_whitespace`.
pub fn split_whitespace(s: &str) -> (r: Vec<String>)
    ensures
        texts(r@) == words(s@),
{
    let chars = chars_of(s);
    let n: usize = chars.len();
    let mut out: Vec<String> = Vec::new();
    let mut i: usize = 0;
    proof {
        assert(s@.skip(0) =~= s@);
        assert(texts(out@) + words(s@) =~= words(s@));
    }
    loop
        invariant
            i <= n,
            n == chars.len(),
            chars@ == s@,
            texts(out@) + words(s@.skip(i as int)) == words(s@),
        decreases n - i,
    {
        let mut a: usize = i;
        while a < n && char_is_white(chars[a])
            invariant
                i <= a <= n,
                n == chars.len(),
                forall|j: int| i <= j < a ==> is_white(#[trigger] chars@[j]),
            decreases n - a,
        {
            a = a + 1;
        }
        proof {
            let t = s@.skip(i as int);
            assert forall|j: int| 0 <= j < a - i implies is_white(#[trigger] t[j]) by {
                assert(t[j] == chars@[j + i]);
            }
            if a < n {
                assert(t[a - i] == chars@[a as int]);
            }
            lemma_trim_start_at(t, a - i);
            assert(t.skip(a - i) =~= s@.skip(a as int));
        }
        if a == n {
            assert(texts(out@) + words(s@.skip(i as int)) =~= texts(out@));
            return out;
        }
        let mut b: usize = a;
        while b < n && !char_is_white(chars[b])
            invariant
                a <= b <= n,
                n == chars.len(),
                forall|j: int| a <= j < b ==> !is_white(#[trigger] chars@[j]),
                b == a ==> !is_white(chars@[a as int]),
            decreases n - b,
        {
            b = b + 1;
        }
        let word = text_of(&chars, a, b);
        let ghost before = out@;
        proof {
            let t = s@.skip(a as int);
            assert forall|j: int| 0 <= j < b - a implies !is_white(#[trigger] t[j]) by {
                assert(t[j] == chars@[j + a]);
            }
            if b < n {
                assert(t[b - a] == chars@[b as int]);
            }
            lemma_word_len(t, b - a);
            assert(t.take(b - a) =~= word@);
            assert(t.skip(b - a) =~= s@.skip(b as int));
            assert(words(s@.skip(i as int)) == seq![word@] + words(s@.skip(b as int)));
        }
        out.push(word);
        proof {
            assert(texts(out@) =~= texts(before) + seq![word@]);
            assert(texts(before) + (seq![word@] + words(s@.skip(b as int))) =~= (texts(before)
                + seq![word@]) + words(s@.skip(b as int)));
        }
        i = b;
    }
}

/// Texts put one after the other with a separator in between.
pub open spec fn joined(parts: Seq<Seq<char>>, sep: Seq<char>) -> Seq<char>
    decreases parts.len(),
{
    if parts.len() == 0 {
        Seq::empty()
    } else if parts.len() == 1 {
        parts[0]
    } else {
        joined(parts.drop_last(), sep) + sep + parts.last()
    }
}

pub fn join(parts: &Vec<String>, sep: &str) -> (r: String)
    ensures
        r@ == joined(texts(parts@), sep@),
{
    let mut out = String::new();
    let mut i: usize = 0;
    while i < parts.len()
        invariant
            i <= parts.len(),
            out@ == joined(texts(parts@).take(i as int), sep@),
        decreases parts.len() - i,
    {
        proof {
            let all = texts(parts@);
            assert(all.take(i + 1).drop_last() =~= all.take(i as int));
            assert(all.take(i + 1).last() == parts@[i as int]@);
        }
        if i > 0 {
            out.append(sep);
            out.append(parts[i].as_str());
        } else {
            out.append(parts[i].as_str());
            assert(out@ =~= parts@[0]@);
        }
        i = i + 1;
    }
    assert(texts(parts@).take(parts.len() as int) =~= texts(parts@));
    out
}

/// The texts that are not empty, each one trimmed first.
pub open spec fn trimmed_nonempty(parts: Seq<Seq<char>>) -> Seq<Seq<char>>
    decreases parts.len(),
{
    if parts.len() == 0 {
        Seq::empty()
    } else {
        let head = trimmed_nonempty(parts.drop_last());
        let t = trimmed(parts.last());
        if t.len() == 0 {
            head
        } else {
            head.push(t)
        }
    }
}

/// Trims every text and drops those that are empty then.
pub fn keep_trimmed(parts: &Vec<String>) -> (r: Vec<String>)
    ensures
        texts(r@) == trimmed_nonempty(texts(parts@)),
{
    let mut out: Vec<String> = Vec::new();
    let mut i: usize = 0;
    assert(texts(out@) =~= Seq::<Seq<char>>::empty());
    while i < parts.len()
        invariant
            i <= parts.len(),
            texts(out@) == trimmed_nonempty(texts(parts@).take(i as int)),
        decreases parts.len() - i,
    {
        let t = trim(parts[i].as_str());
        let ghost before = out@;
        proof {
            let all = texts(parts@);
            assert(all.take(i + 1).drop_last() =~= all.take(i as int));
            assert(all.take(i + 1).last() == parts@[i as int]@);
        }
        if !t.is_empty() {
            out.push(t.to_owned());
            assert(texts(out@) =~= texts(before).push(t@));
        }
        i = i + 1;
    }
    assert(texts(parts@).take(parts.len() as int) =~= texts(parts@));
    out
}

// ---------------------------------------------------------------------------
// Cutting and replacing
// ---------------------------------------------------------------------------

/// A text cut to at most `n` characters.
pub open spec fn cut(s: Seq<char>, n: int) -> Seq<char> {
    if s.len() <= n {
        s
    } else {
        s.take(n)
    }
}

/// A text cut to at most `max_chars` characters.
pub fn truncate_text(value: &str, max_chars: usize) -> (r: String)
    ensures
        r@ == cut(value@, max_chars as int),
{
    let chars = chars_of(value);
    if chars.len() <= max_chars {
        value.to_owned()
    } else {
        assert(chars@.subrange(0, max_chars as int) =~= value@.take(max_chars as int));
        text_of(&chars, 0, max_chars)
    }
}

/// A text with every `from` turned into `to`.
pub open spec fn replaced(s: Seq<char>, from: char, to: char) -> Seq<char> {
    Seq::new(
        s.len(),
        |i: int|
            if s[i] == from {
                to
            } else {
                s[i]
            },
    )
}

/// `str::replace` of one character by another.
pub fn replace_char(s: &str, from: char, to: char) -> (r: String)
    ensures
        r@ == replaced(s@, from, to),
{
    let chars = chars_of(s);
    let mut out = String::new();
    let mut i: usize = 0;
    while i < chars.len()
        invariant
            i <= chars.len(),
            chars@ == s@,
            out@ == replaced(s@, from, to).take(i as int),
        decreases chars.len() - i,
    {
        if chars[i] == from {
            out.push(to);
        } else {
            out.push(chars[i]);
        }
        i = i + 1;
        assert(replaced(s@, from, to).take(i as int) =~= replaced(s@, from, to).take(
            i - 1,
        ).push(replaced(s@, from, to)[i - 1]));
    }
    assert(replaced(s@, from, to).take(s@.len() as int) =~= replaced(s@, from, to));
    out
}

// ---------------------------------------------------------------------------
// Numerals
// ---------------------------------------------------------------------------

/// The decimal numeral of a number.
pub open spec fn decimal(n: nat) -> Seq<char>
    decreases n,
{
    if n < 10 {
        seq![digit_char(n)]
    } else {
        decimal(n / 10).push(digit_char(n % 10))
    }
}

/// The number that a run of decimal digits denotes.
pub open spec fn number_of(s: Seq<char>) -> nat
    decreases s.len(),
{
    if s.len() == 0 {
        0
    } else {
        number_of(s.drop_last()) * 10 + digit_value(s.last())
    }
}

pub open spec fn all_digits(s: Seq<char>) -> bool {
    forall|i: int| 0 <= i < s.len() ==> is_digit(#[trigger] s[i])
}

/// Reading a decimal numeral gives back the number it was written for.
pub proof fn decimal_round_trip(n: nat)
    ensures
        number_of(decimal(n)) == n,
        all_digits(decimal(n)),
        decimal(n).len() >= 1,
    decreases n,
{
    reveal_with_fuel(number_of, 2);
    if n >= 10 {
        decimal_round_trip(n / 10);
        let s = decimal(n);
        assert(s.drop_last() =~= decimal(n / 10));
        assert(s.last() == digit_char(n % 10));
        assert forall|i: int| 0 <= i < s.len() implies is_digit(#[trigger] s[i]) by {
            if i < s.len() - 1 {
                assert(s[i] == decimal(n / 10)[i]);
            }
        }
    } else {
        assert(decimal(n).drop_last() =~= Seq::<char>::empty());
    }
}

/// The decimal numeral of an unsigned 64-bit number.
pub fn decimal_u64(n: u64) -> (r: String)
    ensures
        r@ == decimal(n as nat),
    decreases n,
{
    if n < 10 {
        let mut out = String::new();
        out.push(char_of_digit(n));
        assert(out@ =~= seq![digit_char(n as nat)]);
        out
    } else {
        let mut out = decimal_u64(n / 10);
        out.push(char_of_digit(n % 10));
        out
    }
}

/// The decimal numeral of an unsigned 128-bit number.
pub fn decimal_u128(n: u128) -> (r: String)
    ensures
        r@ == decimal(n as nat),
    decreases n,
{
    if n < 10 {
        let mut out = String::new();
        out.push(char_of_digit(n as u64));
        assert(out@ =~= seq![digit_char(n as nat)]);
        out
    } else {
        let mut out = decimal_u128(n / 10);
        out.push(char_of_digit((n % 10) as u64));
        out
    }
}

/// The decimal numeral of a signed number.
pub open spec fn decimal_int(n: int) -> Seq<char> {
    if n < 0 {
        seq!['-'] + decimal((-n) as nat)
    } else {
        decimal(n as nat)
    }
}

/// The decimal numeral of a signed 64-bit number.
pub fn decimal_i64(n: i64) -> (r: String)
    ensures
        r@ == decimal_int(n as int),
{
    if n < 0 {
        let mut out = String::new();
        out.push('-');
        let magnitude: u128 = (-(n as i128)) as u128;
        let digits = decimal_u128(magnitude);
        out.append(digits.as_str());
        assert(out@ =~= seq!['-'] + decimal((-(n as int)) as nat));
        out
    } else {
        decimal_u64(n as u64)
    }
}

/// How the standard library reads an unsigned integer: an optional plus sign, then at least one
/// decimal digit and nothing else.
pub open spec fn integer_digits(s: Seq<char>) -> Option<Seq<char>> {
    let rest = if s.len() > 0 && s[0] == '+' {
        s.skip(1)
    } else {
        s
    };
    if rest.len() > 0 && all_digits(rest) {
        Some(rest)
    } else {
        None
    }
}

/// The unsigned integer below `limit` that a text denotes.
pub open spec fn unsigned_of(s: Seq<char>, limit: nat) -> Option<nat> {
    match integer_digits(s) {
        Some(digits) => if number_of(digits) < limit {
            Some(number_of(digits))
        } else {
            None
        },
        None => None,
    }
}

proof fn lemma_number_of_prefix(s: Seq<char>, k: int)
    requires
        0 <= k <= s.len(),
    ensures
        number_of(s.take(k)) <= number_of(s),
    decreases s.len() - k,
{
    if k < s.len() {
        lemma_number_of_prefix(s, k + 1);
        assert(s.take(k + 1).drop_last() =~= s.take(k));
    } else {
        assert(s.take(k) =~= s);
    }
}

/// `str::parse` into `u128`.
pub fn parse_u128(s: &str) -> (r: Option<u128>)
    ensures
        match r {
            Some(n) => unsigned_of(s@, u128::MAX as nat + 1) == Some(n as nat),
            None => unsigned_of(s@, u128::MAX as nat + 1) is None,
        },
{
    let chars = chars_of(s);
    let start: usize = if chars.len() > 0 && chars[0] == '+' {
        1
    } else {
        0
    };
    if start >= chars.len() {
        return None;
    }
    let ghost rest = s@.skip(start as int);
    proof {
        assert(s@.skip(0) =~= s@);
    }
    let mut value: u128 = 0;
    let mut i: usize = start;
    let mut fits: bool = true;
    while i < chars.len()
        invariant
            start <= i <= chars.len(),
            chars@ == s@,
            rest == s@.skip(start as int),
            s@.skip(0) == s@,
            start as int == (if s@.len() > 0 && s@[0] == '+' {
                1int
            } else {
                0int
            }),
            forall|j: int| 0 <= j < i - start ==> is_digit(#[trigger] rest[j]),
            fits ==> number_of(rest.take(i - start)) == value,
            !fits ==> number_of(rest.take(i - start)) > u128::MAX,
        decreases chars.len() - i,
    {
        let c = chars[i];
        proof {
            assert(rest[i - start] == c);
            assert(rest.take(i - start + 1).drop_last() =~= rest.take(i - start));
            assert(rest.take(i - start + 1).last() == c);
        }
        if !char_is_digit(c) {
            assert(!all_digits(rest));
            return None;
        }
        let d: u128 = c as u32 as u128 - 48;
        if fits {
            if value > (u128::MAX - d) / 10 {
                fits = false;
            } else {
                value = value * 10 + d;
            }
        }
        i = i + 1;
    }
    assert(rest.take(chars.len() - start) =~= rest);
    assert(all_digits(rest));
    if fits {
        Some(value)
    } else {
        None
    }
}

/// `str::parse` into `u64`.
pub fn parse_u64(s: &str) -> (r: Option<u64>)
    ensures
        match r {
            Some(n) => unsigned_of(s@, u64::MAX as nat + 1) == Some(n as nat),
            None => unsigned_of(s@, u64::MAX as nat + 1) is None,
        },
{
    match parse_u128(s) {
        Some(n) => if n <= u64::MAX as u128 {
            Some(n as u64)
        } else {
            None
        },
        None => None,
    }
}

// ---------------------------------------------------------------------------
// Hexadecimal identifiers
// ---------------------------------------------------------------------------

/// `0x` followed by exactly `digits` hexadecimal digits.
pub open spec fn is_hex_id(s: Seq<char>, digits: int) -> bool {
    &&& s.len() == digits + 2
    &&& s[0] == '0'
    &&& s[1] == 'x'
    &&& forall|i: int| 2 <= i < s.len() ==> is_hex(#[trigger] s[i])
}

fn hex_id(s: &str, digits: usize) -> (r: bool)
    requires
        digits < 1000,
    ensures
        r == is_hex_id(s@, digits as int),
{
    let chars = chars_of(s);
    if chars.len() != digits + 2 || chars[0] != '0' || chars[1] != 'x' {
        return false;
    }
    let mut i: usize = 2;
    while i < chars.len()
        invariant
            2 <= i <= chars.len(),
            chars@ == s@,
            forall|j: int| 2 <= j < i ==> is_hex(#[trigger] s@[j]),
        decreases chars.len() - i,
    {
        if !char_is_hex(chars[i]) {
            return false;
        }
        i = i + 1;
    }
    true
}

/// Whether a trimmed text is `0x` and 64 hexadecimal digits: a 32-byte hash.
pub open spec fn bytes32(s: Seq<char>) -> bool {
    is_hex_id(trimmed(s), 64)
}

/// Whether a trimmed text is `0x` and 40 hexadecimal digits: an account address.
pub open spec fn address_text(s: Seq<char>) -> bool {
    is_hex_id(trimmed(s), 40)
}

pub fn is_bytes32(value: &str) -> (r: bool)
    ensures
        r == bytes32(value@),
{
    hex_id(trim(value), 64)
}

pub fn is_address(value: &str) -> (r: bool)
    ensures
        r == address_text(value@),
{
    hex_id(trim(value), 40)
}

// ---------------------------------------------------------------------------
// What the functions on texts come to
// ---------------------------------------------------------------------------

/// Among the ASCII characters the blank and the controls from tab to carriage return are white
/// space, and nothing else is.
pub proof fn ascii_white_space_is_known(c: char)
    requires
        (c as int) < 128,
    ensures
        is_white(c) <==> c == ' ' || c == '\t' || c == '\n' || c == '\r' || c as int == 11
            || c as int == 12,
{
}

proof fn lemma_trim_start_bounds(s: Seq<char>) -> (a: int)
    ensures
        0 <= a <= s.len(),
        trim_start(s) == s.skip(a),
        forall|i: int| 0 <= i < a ==> is_white(#[trigger] s[i]),
        a < s.len() ==> !is_white(s[a]),
    decreases s.len(),
{
    if s.len() > 0 && is_white(s[0]) {
        let t = s.drop_first();
        let a = lemma_trim_start_bounds(t);
        assert(t.skip(a) =~= s.skip(a + 1));
        assert forall|i: int| 0 <= i < a + 1 implies is_white(#[trigger] s[i]) by {
            if i > 0 {
                assert(t[i - 1] == s[i]);
            }
        }
        if a + 1 < s.len() {
            assert(t[a] == s[a + 1]);
        }
        a + 1
    } else {
        assert(s.skip(0) =~= s);
        0
    }
}

proof fn lemma_trim_end_bounds(s: Seq<char>) -> (b: int)
    ensures
        0 <= b <= s.len(),
        trim_end(s) == s.take(b),
        forall|i: int| b <= i < s.len() ==> is_white(#[trigger] s[i]),
        b > 0 ==> !is_white(s[b - 1]),
    decreases s.len(),
{
    if s.len() > 0 && is_white(s.last()) {
        let t = s.drop_last();
        let b = lemma_trim_end_bounds(t);
        assert(t.take(b) =~= s.take(b));
        assert forall|i: int| b <= i < s.len() implies is_white(#[trigger] s[i]) by {
            if i < t.len() {
                assert(t[i] == s[i]);
            }
        }
        if b > 0 {
            assert(t[b - 1] == s[b - 1]);
        }
        b
    } else {
        assert(s.take(s.len() as int) =~= s);
        s.len() as int
    }
}

/// A trimmed text is what is left of a text between its first and its last character that is not
/// white space: the bounds are handed back.
pub proof fn trimming_takes_the_white_space_off(s: Seq<char>) -> (r: (int, int))
    ensures
        0 <= r.0 <= r.1 <= s.len(),
        trimmed(s) == s.subrange(r.0, r.1),
        forall|i: int| 0 <= i < r.0 ==> is_white(#[trigger] s[i]),
        forall|i: int| r.1 <= i < s.len() ==> is_white(#[trigger] s[i]),
        r.0 < r.1 ==> !is_white(s[r.0]) && !is_white(s[r.1 - 1]),
{
    let a = lemma_trim_start_bounds(s);
    let t = s.skip(a);
    let b = lemma_trim_end_bounds(t);
    assert(t.take(b) =~= s.subrange(a, a + b));
    assert forall|i: int| a + b <= i < s.len() implies is_white(#[trigger] s[i]) by {
        assert(t[i - a] == s[i]);
    }
    if b > 0 {
        assert(t[b - 1] == s[a + b - 1]);
        if is_white(t[0]) {
            assert(t[0] == s[a]);
        }
        assert(t[0] == s[a]);
    }
    (a, a + b)
}

/// Trimming a second time changes nothing, and a text is blank exactly where all of it is white
/// space.
pub proof fn trimming_is_done_once(s: Seq<char>)
    ensures
        trimmed(trimmed(s)) == trimmed(s),
        is_blank(s) <==> forall|i: int| 0 <= i < s.len() ==> is_white(#[trigger] s[i]),
{
    let (a, b) = trimming_takes_the_white_space_off(s);
    let t = trimmed(s);
    let (c, d) = trimming_takes_the_white_space_off(t);
    if a < b {
        assert(t[0] == s[a] && t[t.len() - 1] == s[b - 1]);
        if c > 0 {
            assert(is_white(t[0]));
        }
        if d < t.len() {
            assert(is_white(t[t.len() - 1]));
        }
        assert(c == 0 && d == t.len());
        assert(t.subrange(0, t.len() as int) =~= t);
        assert(!is_white(s[a]));
    } else {
        assert(trimmed(t) =~= t);
        assert forall|i: int| 0 <= i < s.len() implies is_white(#[trigger] s[i]) by {
            if i >= a {
                assert(i >= b);
            }
        }
    }
}

/// The white space around a text does not count: whatever white space is put around it, trimming
/// takes it off again.
pub proof fn white_space_around_does_not_count(before: Seq<char>, s: Seq<char>, after: Seq<char>)
    requires
        forall|i: int| 0 <= i < before.len() ==> is_white(#[trigger] before[i]),
        forall|i: int| 0 <= i < after.len() ==> is_white(#[trigger] after[i]),
        s.len() > 0 ==> !is_white(s[0]) && !is_white(s.last()),
    ensures
        trimmed(before + s + after) == s,
{
    let all = before + s + after;
    let (a, b) = trimming_takes_the_white_space_off(all);
    let n = before.len() as int;
    if s.len() > 0 {
        assert(all[n] == s[0]);
        assert(all[n + s.len() - 1] == s.last());
        if a < n {
            assert(all[a] == before[a]);
            assert(a < b);
        }
        if a > n {
            assert(is_white(all[n]));
        }
        if b > n + s.len() {
            assert(all[b - 1] == after[b - 1 - n - s.len()]);
        }
        if b < n + s.len() {
            assert(is_white(all[n + s.len() - 1]));
        }
        assert(all.subrange(n, n + s.len()) =~= s);
    } else if a < b {
        if a < n {
            assert(all[a] == before[a]);
        } else {
            assert(all[a] == after[a - n]);
        }
    } else {
        assert(trimmed(all) =~= s);
    }
}

/// Taking a character off the end of a text takes off all its repetitions there and nothing else.
pub proof fn repetitions_are_taken_off_the_end(s: Seq<char>, c: char)
    ensures
        trim_end_of(s, c).is_prefix_of(s),
        trim_end_of(s, c).len() > 0 ==> trim_end_of(s, c).last() != c,
        forall|i: int| trim_end_of(s, c).len() <= i < s.len() ==> #[trigger] s[i] == c,
    decreases s.len(),
{
    if s.len() > 0 && s.last() == c {
        let t = s.drop_last();
        repetitions_are_taken_off_the_end(t, c);
        assert forall|i: int| trim_end_of(s, c).len() <= i < s.len() implies #[trigger] s[i] == c by {
            if i < t.len() {
                assert(t[i] == s[i]);
            }
        }
        let k = trim_end_of(s, c).len() as int;
        assert(t.subrange(0, k) =~= s.subrange(0, k));
    } else {
        assert(s.subrange(0, s.len() as int) =~= s);
    }
}

/// Taking a character off the start of a text takes off all its repetitions there and nothing
/// else.
pub proof fn repetitions_are_taken_off_the_start(s: Seq<char>, c: char)
    ensures
        ({
            let t = trim_start_of(s, c);
            &&& t.len() <= s.len()
            &&& t == s.skip(s.len() - t.len())
            &&& t.len() > 0 ==> t[0] != c
            &&& forall|i: int| 0 <= i < s.len() - t.len() ==> #[trigger] s[i] == c
        }),
    decreases s.len(),
{
    if s.len() > 0 && s[0] == c {
        let rest = s.drop_first();
        repetitions_are_taken_off_the_start(rest, c);
        let t = trim_start_of(s, c);
        assert(rest.skip(rest.len() - t.len()) =~= s.skip(s.len() - t.len()));
        assert forall|i: int| 0 <= i < s.len() - t.len() implies #[trigger] s[i] == c by {
            if i > 0 {
                assert(rest[i - 1] == s[i]);
            }
        }
    } else {
        assert(s.skip(0) =~= s);
    }
}

/// What follows the first occurrence of a text begins right behind it: in front of the occurrence
/// there is none.
pub proof fn rest_begins_behind_the_first_occurrence(s: Seq<char>, p: Seq<char>)
    ensures
        after_first(s, p) is Some <==> contains(s, p),
        after_first(s, p) matches Some(rest) ==> {
            let i = s.len() - rest.len() - p.len();
            &&& i >= 0
            &&& s == s.take(i) + p + rest
            &&& forall|j: int| 0 <= j < i ==> !#[trigger] occurs_at(s, p, j)
        },
{
    if contains(s, p) {
        let i = lemma_first_occurrence(s, p, 0);
        lemma_after_first(s, p, i);
        let rest = s.skip(i + p.len());
        assert(s =~= s.take(i) + p + rest) by {
            assert(s.subrange(i, i + p.len()) == p);
            assert forall|k: int| 0 <= k < s.len() implies s[k] == (s.take(i) + p + rest)[k] by {
                if i <= k < i + p.len() {
                    assert(s.subrange(i, i + p.len())[k - i] == s[k]);
                }
            }
        }
    } else {
        lemma_no_after_first(s, p);
    }
}

proof fn lemma_first_occurrence(s: Seq<char>, p: Seq<char>, from: int) -> (i: int)
    requires
        0 <= from,
        contains(s, p),
        forall|j: int| 0 <= j < from ==> !#[trigger] occurs_at(s, p, j),
    ensures
        occurs_at(s, p, i),
        forall|j: int| 0 <= j < i ==> !#[trigger] occurs_at(s, p, j),
    decreases s.len() + 1 - from,
{
    if occurs_at(s, p, from) {
        from
    } else {
        let k = choose|k: int| occurs_at(s, p, k);
        assert(from <= k <= s.len());
        if from < s.len() {
            lemma_first_occurrence(s, p, from + 1)
        } else {
            k
        }
    }
}

/// The digits at the start of a text are digits, and what follows them is none.
pub proof fn leading_digits_are_all_the_digits(s: Seq<char>)
    ensures
        ({
            let d = leading_digits(s);
            &&& d.is_prefix_of(s)
            &&& forall|i: int| 0 <= i < d.len() ==> '0' <= #[trigger] s[i] <= '9'
            &&& d.len() < s.len() ==> !('0' <= s[d.len() as int] <= '9')
        }),
    decreases s.len(),
{
    let d = leading_digits(s);
    if s.len() > 0 && is_digit(s[0]) {
        let t = s.drop_first();
        leading_digits_are_all_the_digits(t);
        let e = leading_digits(t);
        assert(d =~= s.take(d.len() as int)) by {
            assert(e == t.subrange(0, e.len() as int));
        }
        assert(s.subrange(0, d.len() as int) =~= d);
        assert forall|i: int| 0 <= i < d.len() implies '0' <= #[trigger] s[i] <= '9' by {
            if i > 0 {
                assert(t[i - 1] == s[i]);
            }
        }
        if d.len() < s.len() {
            assert(t[e.len() as int] == s[d.len() as int]);
        }
    } else {
        assert(s.subrange(0, 0) =~= d);
    }
}

proof fn lemma_joined_front(first: Seq<char>, rest: Seq<Seq<char>>, sep: Seq<char>)
    requires
        rest.len() > 0,
    ensures
        joined(seq![first] + rest, sep) == first + sep + joined(rest, sep),
    decreases rest.len(),
{
    let all = seq![first] + rest;
    assert(all.drop_last() =~= seq![first] + rest.drop_last());
    assert(all.last() == rest.last());
    if rest.len() == 1 {
        assert(rest.drop_last() =~= Seq::<Seq<char>>::empty());
        assert(all.drop_last() =~= seq![first]);
        assert(joined(seq![first], sep) == first);
        assert(joined(all, sep) =~= first + sep + rest[0]);
    } else {
        lemma_joined_front(first, rest.drop_last(), sep);
        assert(joined(all, sep) =~= first + sep + joined(rest, sep));
    }
}

/// The pieces of a text hold no separator, and with the separators between them they are the text
/// again.
pub proof fn pieces_make_up_the_text(s: Seq<char>, sep: char)
    ensures
        pieces(s, sep).len() >= 1,
        joined(pieces(s, sep), seq![sep]) == s,
        forall|i: int|
            0 <= i < pieces(s, sep).len() ==> !(#[trigger] pieces(s, sep)[i]).contains(sep),
    decreases s.len(),
{
    lemma_run_before_bounds(s, sep);
    lemma_run_before_is_free(s, sep);
    let k = run_before(s, sep);
    let all = pieces(s, sep);
    if k >= s.len() {
        assert(all =~= seq![s]);
        assert(joined(all, seq![sep]) == s);
    } else {
        let rest = s.skip(k + 1);
        pieces_make_up_the_text(rest, sep);
        lemma_joined_front(s.take(k), pieces(rest, sep), seq![sep]);
        assert(s.take(k) + seq![sep] + rest =~= s);
        assert forall|i: int| 0 <= i < all.len() implies !(#[trigger] all[i]).contains(sep) by {
            if i > 0 {
                assert(all[i] == pieces(rest, sep)[i - 1]);
            }
        }
    }
}

proof fn lemma_run_before_is_free(s: Seq<char>, c: char)
    ensures
        0 <= run_before(s, c) <= s.len(),
        forall|i: int| 0 <= i < run_before(s, c) ==> #[trigger] s[i] != c,
        run_before(s, c) < s.len() ==> s[run_before(s, c)] == c,
    decreases s.len(),
{
    if s.len() > 0 && s[0] != c {
        let t = s.drop_first();
        lemma_run_before_is_free(t, c);
        assert forall|i: int| 0 <= i < run_before(s, c) implies #[trigger] s[i] != c by {
            if i > 0 {
                assert(t[i - 1] == s[i]);
            }
        }
    }
}

/// The first word of a text begins at its first character that is not white space, and ends before
/// the next white space; a text has no words exactly where it is blank.
pub proof fn first_word_ends_at_white_space(s: Seq<char>)
    ensures
        words(s).len() == 0 <==> forall|i: int| 0 <= i < s.len() ==> is_white(#[trigger] s[i]),
        words(s).len() > 0 ==> {
            let w = words(s)[0];
            exists|a: int|
                {
                    &&& 0 <= a && a + w.len() <= s.len()
                    &&& w == #[trigger] s.subrange(a, a + w.len())
                    &&& w.len() > 0
                    &&& forall|i: int| 0 <= i < a ==> is_white(#[trigger] s[i])
                    &&& forall|i: int| a <= i < a + w.len() ==> !is_white(#[trigger] s[i])
                    &&& a + w.len() < s.len() ==> is_white(s[a + w.len()])
                }
        },
{
    let a = lemma_trim_start_bounds(s);
    let t = trim_start(s);
    if t.len() > 0 {
        lemma_word_is_free(t);
        let n = word_len(t);
        let w = words(s)[0];
        assert(w == t.take(n));
        assert(t[0] == s[a]);
        assert(n > 0);
        assert(w =~= s.subrange(a, a + w.len()));
        assert forall|i: int| a <= i < a + w.len() implies !is_white(#[trigger] s[i]) by {
            assert(t[i - a] == s[i]);
        }
        if a + n < s.len() {
            assert(t[n] == s[a + n]);
        }
        assert(!is_white(s[a]));
    }
}

proof fn lemma_word_is_free(s: Seq<char>)
    ensures
        0 <= word_len(s) <= s.len(),
        forall|i: int| 0 <= i < word_len(s) ==> !is_white(#[trigger] s[i]),
        word_len(s) < s.len() ==> is_white(s[word_len(s)]),
    decreases s.len(),
{
    if s.len() > 0 && !is_white(s[0]) {
        let t = s.drop_first();
        lemma_word_is_free(t);
        assert forall|i: int| 0 <= i < word_len(s) implies !is_white(#[trigger] s[i]) by {
            if i > 0 {
                assert(t[i - 1] == s[i]);
            }
        }
    }
}

/// Joined texts grow at the end by the separator and the next text.
pub proof fn joined_texts_grow_at_the_end(parts: Seq<Seq<char>>, next: Seq<char>, sep: Seq<char>)
    ensures
        parts.len() == 0 ==> joined(parts.push(next), sep) == next,
        parts.len() > 0 ==> joined(parts.push(next), sep) == joined(parts, sep) + sep + next,
{
    assert(parts.push(next).drop_last() =~= parts);
}

/// Of several texts those that are not blank are kept, in their order and without the white space
/// around them.
pub proof fn blank_texts_are_dropped(parts: Seq<Seq<char>>, next: Seq<char>)
    ensures
        trimmed(next).len() > 0 ==> trimmed_nonempty(parts.push(next)) == trimmed_nonempty(
            parts,
        ).push(trimmed(next)),
        trimmed(next).len() == 0 ==> trimmed_nonempty(parts.push(next)) == trimmed_nonempty(parts),
        trimmed_nonempty(Seq::<Seq<char>>::empty()).len() == 0,
        trimmed_nonempty(parts).len() <= parts.len(),
        forall|i: int|
            0 <= i < trimmed_nonempty(parts).len() ==> (#[trigger] trimmed_nonempty(
                parts,
            )[i]).len() > 0,
    decreases parts.len(),
{
    assert(parts.push(next).drop_last() =~= parts);
    if parts.len() > 0 {
        blank_texts_are_dropped(parts.drop_last(), next);
    }
}

/// A text that is cut keeps its beginning: all of it where it fits, and as much as fits otherwise.
pub proof fn cut_text_keeps_its_beginning(s: Seq<char>, n: int)
    requires
        n >= 0,
    ensures
        cut(s, n).is_prefix_of(s),
        s.len() <= n ==> cut(s, n).len() == s.len(),
        s.len() > n ==> cut(s, n).len() == n,
{
    assert(s.subrange(0, s.len() as int) =~= s);
    if s.len() > n {
        assert(s.subrange(0, n) =~= s.take(n));
    }
}

/// Replacing a character leaves none of it, and leaves every other character in its place.
pub proof fn replacing_leaves_no_trace(s: Seq<char>, from: char, to: char, i: int)
    requires
        0 <= i < s.len(),
    ensures
        replaced(s, from, to).len() == s.len(),
        s[i] == from ==> replaced(s, from, to)[i] == to,
        s[i] != from ==> replaced(s, from, to)[i] == s[i],
{
}

/// A numeral that was written can be read, as long as its number fits; a plus sign in front of it
/// changes nothing. A text with anything but digits is no number.
pub proof fn numerals_can_be_read(n: nat, limit: nat, s: Seq<char>, i: int)
    requires
        0 <= i < s.len(),
    ensures
        n < limit ==> unsigned_of(decimal(n), limit) == Some(n),
        n < limit ==> unsigned_of(seq!['+'] + decimal(n), limit) == Some(n),
        n >= limit ==> unsigned_of(decimal(n), limit) is None,
        !('0' <= s[i] <= '9') && !(i == 0 && s[i] == '+') ==> unsigned_of(s, limit) is None,
        unsigned_of(Seq::empty(), limit) is None,
{
    decimal_round_trip(n);
    let d = decimal(n);
    assert(is_digit(d[0]));
    assert((seq!['+'] + d).skip(1) =~= d);
    if !('0' <= s[i] <= '9') && !(i == 0 && s[i] == '+') {
        let rest = s.skip(1);
        if i > 0 {
            assert(rest[i - 1] == s[i]);
        }
        assert(!is_digit(s[i]));
    }
}

/// A digit behind a numeral makes it ten times as large and adds the digit; a numeral has no zero
/// in front, but for that of zero itself.
pub proof fn numerals_are_decimal(s: Seq<char>, c: char, n: nat)
    requires
        '0' <= c <= '9',
    ensures
        number_of(s.push(c)) == 10 * number_of(s) + (c as int - '0' as int),
        number_of(Seq::empty()) == 0,
        n > 0 ==> decimal(n)[0] != '0',
        decimal(0) == seq!['0'],
        decimal_int(-(n as int)).len() > 0,
        n > 0 ==> decimal_int(-(n as int)) == seq!['-'] + decimal_int(n as int),
    decreases n,
{
    assert(s.push(c).drop_last() =~= s);
    decimal_round_trip(n);
    if n >= 10 {
        numerals_are_decimal(s, c, n / 10);
        decimal_round_trip(n / 10);
    }
    assert(decimal(0) =~= seq!['0']);
}

/// Hexadecimal digits stand for the numbers from zero to fifteen, whatever their case.
pub proof fn hexadecimal_digits_have_values(c: char)
    requires
        is_hex(c),
    ensures
        '0' <= c <= '9' ==> hex_value(c) == c as int - '0' as int,
        'a' <= c <= 'f' ==> hex_value(c) == 10 + (c as int - 'a' as int),
        'A' <= c <= 'F' ==> hex_value(c) == 10 + (c as int - 'A' as int),
        hex_value(c) < 16,
        is_hex(hex_lower(c)),
        hex_value(hex_lower(c)) == hex_value(c),
        !('A' <= hex_lower(c) <= 'F'),
{
}

/// A 32-byte hash is written with 66 characters and an address with 42: `0x`, and then digits from
/// zero to nine or letters from a to f of either case.
pub proof fn identifiers_are_hexadecimal(s: Seq<char>)
    ensures
        bytes32(s) ==> trimmed(s).len() == 66,
        address_text(s) ==> trimmed(s).len() == 42,
        bytes32(s) || address_text(s) <==> {
            let t = trimmed(s);
            &&& t.len() == 66 || t.len() == 42
            &&& t[0] == '0' && t[1] == 'x'
            &&& forall|i: int|
                2 <= i < t.len() ==> ('0' <= #[trigger] t[i] <= '9') || ('a' <= t[i] <= 'f') || ('A'
                    <= t[i] <= 'F')
        },
{
}

/// Joined texts begin with the first of them, the separator and the others joined.
pub proof fn joined_texts_begin_with_the_first(
    first: Seq<char>,
    rest: Seq<Seq<char>>,
    sep: Seq<char>,
)
    requires
        rest.len() > 0,
    ensures
        joined(seq![first] + rest, sep) == first + sep + joined(rest, sep),
{
    lemma_joined_front(first, rest, sep);
}

/// A text holds one of several others exactly where it holds one of them.
pub proof fn one_of_several_is_enough(s: Seq<char>, ps: Seq<&str>, i: int)
    ensures
        0 <= i < ps.len() && contains(s, ps[i]@) ==> contains_any(s, ps),
        (forall|j: int| 0 <= j < ps.len() ==> !contains(s, (#[trigger] ps[j])@)) ==> !contains_any(
            s,
            ps,
        ),
{
}

/// A text begins with another exactly where the other one is what its first characters are, and then
/// it holds it.
pub proof fn beginning_is_a_part(p: Seq<char>, rest: Seq<char>, before: Seq<char>)
    ensures
        begins_with(p + rest, p),
        contains(before + p + rest, p),
        occurs_at(before + p + rest, p, before.len() as int),
        begins_with(rest, p) ==> rest.len() >= p.len() && rest.take(p.len() as int) == p,
{
    assert((p + rest).subrange(0, p.len() as int) =~= p);
    let n = before.len() as int;
    assert((before + p + rest).subrange(n, n + p.len()) =~= p);
    assert(occurs_at(before + p + rest, p, n));
    if begins_with(rest, p) {
        assert(rest.take(p.len() as int) =~= rest.subrange(0, p.len() as int));
    }
}

} // verus!

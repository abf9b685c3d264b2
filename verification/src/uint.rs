//! Token amounts and identifiers: unsigned integers of 256 bits, addresses and hashes.
use vstd::prelude::*;
use crate::text;

verus! {

/// An unsigned integer of 256 bits, by its four words, the lowest first.
#[derive(Clone, Copy, Debug, PartialEq, Eq, Structural)]
pub struct Uint256 {
    pub w0: u64,
    pub w1: u64,
    pub w2: u64,
    pub w3: u64,
}

/// Two to the 256th power.
pub open spec fn limit() -> nat {
    0x1_0000_0000_0000_0000_0000_0000_0000_0000_0000_0000_0000_0000_0000_0000_0000_0000nat
}

impl Uint256 {
    pub open spec fn view(self) -> nat {
        (self.w0 + self.w1 * 0x1_0000_0000_0000_0000 + self.w2
            * 0x1_0000_0000_0000_0000_0000_0000_0000_0000 + self.w3
            * 0x1_0000_0000_0000_0000_0000_0000_0000_0000_0000_0000_0000_0000) as nat
    }

    pub fn from_u64(n: u64) -> (r: Uint256)
        ensures
            r@ == n,
    {
        Uint256 { w0: n, w1: 0, w2: 0, w3: 0 }
    }

    pub fn lt(self, other: Uint256) -> (r: bool)
        ensures
            r == (self@ < other@),
    {
        if self.w3 != other.w3 {
            self.w3 < other.w3
        } else if self.w2 != other.w2 {
            self.w2 < other.w2
        } else if self.w1 != other.w1 {
            self.w1 < other.w1
        } else {
            self.w0 < other.w0
        }
    }

    pub fn is_zero(self) -> (r: bool)
        ensures
            r == (self@ == 0),
    {
        self.w0 == 0 && self.w1 == 0 && self.w2 == 0 && self.w3 == 0
    }

    /// The decimal numeral.
    pub fn to_text(self) -> (r: String)
        ensures
            r@ == text::decimal(self@),
    {
        u256_to_string(self)
    }
}

/// Every integer of 256 bits has one set of words.
pub proof fn words_are_unique(a: Uint256, b: Uint256)
    ensures
        a@ < limit(),
        a@ == b@ ==> a == b,
{
}

/// Calls `U256::to_string`, which writes the decimal numeral.
#[verifier::external_body]
fn u256_to_string(n: Uint256) -> (r: String)
    ensures
        r@ == text::decimal(n@),
{
    ethers::types::U256([n.w0, n.w1, n.w2, n.w3]).to_string()
}

/// What `U256::from_dec_str` says of a text that it refuses.
pub uninterp spec fn decimal_failure(digits: Seq<char>) -> Seq<Seq<char>>;

/// Calls `U256::from_dec_str`: it reads any run of decimal digits, also an empty one, whose
/// number has 256 bits at most, and refuses everything else. The error, with its causes as
/// `anyhow::Error::chain` lists them, is a function of the text and is named
/// [`decimal_failure`].
#[verifier::external_body]
pub(crate) fn u256_from_dec_str(digits: &str) -> (r: Result<Uint256, Vec<String>>)
    ensures
        match r {
            Ok(n) => text::all_digits(digits@) && n@ == text::number_of(digits@),
            Err(causes) => (!text::all_digits(digits@) || text::number_of(digits@) >= limit())
                && text::texts(causes@) == decimal_failure(digits@),
        },
{
    match ethers::types::U256::from_dec_str(digits) {
        Ok(n) => Ok(Uint256 { w0: n.0[0], w1: n.0[1], w2: n.0[2], w3: n.0[3] }),
        Err(e) => Err(anyhow::Error::from(e).chain().map(|c| c.to_string()).collect()),
    }
}

/// A text without the `0x` that it may begin with.
pub open spec fn without_0x(s: Seq<char>) -> Seq<char> {
    if s.len() >= 2 && s[0] == '0' && s[1] == 'x' {
        s.skip(2)
    } else {
        s
    }
}

pub open spec fn all_hex(s: Seq<char>) -> bool {
    forall|i: int| 0 <= i < s.len() ==> text::is_hex(#[trigger] s[i])
}

/// The number that a run of hexadecimal digits denotes.
pub open spec fn hex_number(s: Seq<char>) -> nat
    decreases s.len(),
{
    if s.len() == 0 {
        0
    } else {
        hex_number(s.drop_last()) * 16 + text::hex_value(s.last())
    }
}

/// What `U256::from_str_radix` with the radix 16 says of a text that it refuses.
pub uninterp spec fn hex_failure(digits: Seq<char>) -> Seq<Seq<char>>;

/// Calls `U256::from_str_radix` with the radix 16: after a `0x` that may stand in front, it reads
/// at most 64 hexadecimal digits, also none, and refuses everything else. The error, with its
/// causes as `anyhow::Error::chain` lists them, is a function of the text and is named
/// [`hex_failure`].
#[verifier::external_body]
pub(crate) fn u256_from_hex_str(digits: &str) -> (r: Result<Uint256, Vec<String>>)
    ensures
        match r {
            Ok(n) => without_0x(digits@).len() <= 64 && all_hex(without_0x(digits@)) && n@
                == hex_number(without_0x(digits@)),
            Err(causes) => (without_0x(digits@).len() > 64 || !all_hex(without_0x(digits@)))
                && text::texts(causes@) == hex_failure(digits@),
        },
{
    match ethers::types::U256::from_str_radix(digits, 16) {
        Ok(n) => Ok(Uint256 { w0: n.0[0], w1: n.0[1], w2: n.0[2], w3: n.0[3] }),
        Err(e) => Err(anyhow::Error::from(e).chain().map(|c| c.to_string()).collect()),
    }
}

/// Calls `U256::checked_mul`: the product, where it has 256 bits at most.
#[verifier::external_body]
pub(crate) fn u256_checked_mul(a: Uint256, b: Uint256) -> (r: Option<Uint256>)
    ensures
        match r {
            Some(n) => n@ == a@ * b@,
            None => a@ * b@ >= limit(),
        },
{
    let x = ethers::types::U256([a.w0, a.w1, a.w2, a.w3]);
    let n = x.checked_mul(ethers::types::U256([b.w0, b.w1, b.w2, b.w3]))?;
    Some(Uint256 { w0: n.0[0], w1: n.0[1], w2: n.0[2], w3: n.0[3] })
}

/// Calls `U256::checked_add`: the sum, where it has 256 bits at most.
#[verifier::external_body]
pub(crate) fn u256_checked_add(a: Uint256, b: Uint256) -> (r: Option<Uint256>)
    ensures
        match r {
            Some(n) => n@ == a@ + b@,
            None => a@ + b@ >= limit(),
        },
{
    let x = ethers::types::U256([a.w0, a.w1, a.w2, a.w3]);
    let n = x.checked_add(ethers::types::U256([b.w0, b.w1, b.w2, b.w3]))?;
    Some(Uint256 { w0: n.0[0], w1: n.0[1], w2: n.0[2], w3: n.0[3] })
}

/// Calls `U256::checked_div`: the quotient rounded down, where the divisor is not zero.
#[verifier::external_body]
pub(crate) fn u256_checked_div(a: Uint256, b: Uint256) -> (r: Option<Uint256>)
    ensures
        match r {
            Some(n) => b@ != 0 && n@ == a@ / b@,
            None => b@ == 0,
        },
{
    let x = ethers::types::U256([a.w0, a.w1, a.w2, a.w3]);
    let n = x.checked_div(ethers::types::U256([b.w0, b.w1, b.w2, b.w3]))?;
    Some(Uint256 { w0: n.0[0], w1: n.0[1], w2: n.0[2], w3: n.0[3] })
}

// ---------------------------------------------------------------------------
// Amounts with a decimal point
// ---------------------------------------------------------------------------

/// Ten to a power.
pub open spec fn pow10(n: nat) -> nat
    decreases n,
{
    if n == 0 {
        1
    } else {
        10 * pow10((n - 1) as nat)
    }
}

/// The amount in base units that a plain decimal denotes: digits, with at most one point in
/// between. Digits behind the point that are more than there are decimals are dropped.
pub open spec fn plain_units(amount: Seq<char>, decimals: nat) -> Option<nat> {
    let digits = whole_part(amount) + fraction(amount);
    let places = fraction(amount).len();
    if !text::all_digits(digits) {
        None
    } else if places <= decimals {
        let scale = pow10((decimals - places) as nat);
        let v = text::number_of(digits) * scale;
        if scale < limit() && v < limit() {
            Some(v)
        } else {
            None
        }
    } else {
        let kept = text::number_of(digits.take((whole_part(amount).len() + decimals) as int));
        if kept < limit() {
            Some(kept)
        } else {
            None
        }
    }
}

/// What stands before the first point.
pub open spec fn whole_part(s: Seq<char>) -> Seq<char> {
    s.take(text::run_before(s, '.'))
}

/// What stands behind the first point.
pub open spec fn fraction(s: Seq<char>) -> Seq<char> {
    let k = text::run_before(s, '.');
    if k >= s.len() {
        Seq::empty()
    } else {
        s.skip(k + 1)
    }
}

/// A text without its low lines.
pub open spec fn without_low_lines(s: Seq<char>) -> Seq<char>
    decreases s.len(),
{
    if s.len() == 0 {
        Seq::empty()
    } else if s.last() == '_' {
        without_low_lines(s.drop_last())
    } else {
        without_low_lines(s.drop_last()).push(s.last())
    }
}

/// How many bytes a character takes.
pub open spec fn char_bytes(c: char) -> nat {
    if c as int <= 0x7f {
        1
    } else if c as int <= 0x7ff {
        2
    } else if c as int <= 0xffff {
        3
    } else {
        4
    }
}

/// How many bytes a text takes.
pub open spec fn byte_len(s: Seq<char>) -> nat
    decreases s.len(),
{
    if s.len() == 0 {
        0
    } else {
        byte_len(s.drop_last()) + char_bytes(s.last())
    }
}

/// Whether a text can be cut behind so many bytes: the cut falls between two characters.
pub open spec fn cuts_at(s: Seq<char>, bytes: nat) -> bool {
    exists|i: int| 0 <= i <= s.len() && byte_len(#[trigger] s.take(i)) == bytes
}

/// Two to the 255th power.
pub open spec fn half_limit() -> nat {
    0x8000_0000_0000_0000_0000_0000_0000_0000_0000_0000_0000_0000_0000_0000_0000_0000nat
}

/// Whether a number can be multiplied by a power of ten: the product has 256 bits at most, and
/// one less where it is negative, or one of the two is too large to begin with.
pub open spec fn scales(digits: Seq<char>, power: nat, negative: bool) -> bool {
    let most = if negative {
        half_limit() + 1
    } else {
        limit()
    };
    text::all_digits(digits) && text::number_of(digits) < most && pow10(power) < most
        ==> text::number_of(digits) * pow10(power) < most
}

/// What `parse_units` makes of an amount: how its result is written and its 256 bits, or what it
/// says where it refuses it.
pub uninterp spec fn parsed_units(amount: Seq<char>, decimals: nat) -> Result<
    (Seq<char>, nat),
    Seq<Seq<char>>,
>;

/// Whether `parse_units` comes to a result or an error: where it drops digits, the cut falls
/// between two characters, and where it does not, the product fits.
pub open spec fn units_in_reach(amount: Seq<char>, decimals: nat) -> bool {
    let s = without_low_lines(amount);
    let negative = s.len() > 0 && s[0] == '-';
    let digits = whole_part(s) + fraction(s);
    &&& byte_len(fraction(s)) <= u32::MAX
    &&& if byte_len(fraction(s)) > decimals {
        cuts_at(fraction(s), decimals)
    } else {
        scales(
            if negative {
                digits.skip(1)
            } else {
                digits
            },
            (decimals - byte_len(fraction(s))) as nat,
            negative,
        )
    }
}

/// Calls `ethers::utils::parse_units` and hands over how its result displays and what
/// `U256::from` makes of it, a negative amount by its two's complement, or the error with its
/// causes as `anyhow::Error::chain` lists them. The result is a function of the amount and the
/// decimals and is named [`parsed_units`]; of a plain decimal it is the number times the power of
/// ten, without the digits that are too many.
#[verifier::external_body]
pub(crate) fn parse_units(amount: &str, decimals: u32) -> (r: Result<
    (String, Uint256),
    Vec<String>,
>)
    requires
        units_in_reach(amount@, decimals as nat),
    ensures
        match r {
            Ok((written, n)) => parsed_units(amount@, decimals as nat) == Ok::<
                (Seq<char>, nat),
                Seq<Seq<char>>,
            >((written@, n@)) && (plain_units(amount@, decimals as nat) matches Some(v) ==> n@ == v
                && written@ == text::decimal(v)),
            Err(causes) => parsed_units(amount@, decimals as nat) == Err::<
                (Seq<char>, nat),
                Seq<Seq<char>>,
            >(text::texts(causes@)) && plain_units(amount@, decimals as nat) is None,
        },
{
    match ethers::utils::parse_units(amount, decimals) {
        Ok(parsed) => {
            let n = ethers::types::U256::from(parsed);
            Ok((parsed.to_string(), Uint256 { w0: n.0[0], w1: n.0[1], w2: n.0[2], w3: n.0[3] }))
        },
        Err(e) => Err(anyhow::Error::from(e).chain().map(|c| c.to_string()).collect()),
    }
}

fn bytes_of(c: char) -> (r: u128)
    ensures
        r == char_bytes(c),
{
    let n: u32 = c as u32;
    if n <= 0x7f {
        1
    } else if n <= 0x7ff {
        2
    } else if n <= 0xffff {
        3
    } else {
        4
    }
}

/// The characters of an amount without its low lines.
fn clean(amount: &str) -> (r: Vec<char>)
    ensures
        r@ == without_low_lines(amount@),
{
    let chars = text::chars_of(amount);
    let mut out: Vec<char> = Vec::new();
    let mut i: usize = 0;
    assert(amount@.take(0) =~= Seq::<char>::empty());
    while i < chars.len()
        invariant
            i <= chars.len(),
            chars@ == amount@,
            out@ == without_low_lines(amount@.take(i as int)),
        decreases chars.len() - i,
    {
        proof {
            assert(amount@.take(i + 1).drop_last() =~= amount@.take(i as int));
        }
        if chars[i] != '_' {
            out.push(chars[i]);
        }
        i = i + 1;
    }
    assert(amount@.take(amount@.len() as int) =~= amount@);
    out
}

/// Whether the first characters of a text from `from` on take so many bytes, and how many bytes it
/// takes from there.
fn measure(chars: &Vec<char>, from: usize, bytes: u32) -> (r: (bool, u128))
    requires
        from <= chars.len(),
    ensures
        r.0 == cuts_at(chars@.skip(from as int), bytes as nat),
        r.1 == byte_len(chars@.skip(from as int)),
{
    let ghost s = chars@.skip(from as int);
    let mut total: u128 = 0;
    let mut cut = bytes == 0;
    let mut i: usize = from;
    assert(s.take(0) =~= Seq::<char>::empty());
    assert(byte_len(s.take(0)) == 0);
    while i < chars.len()
        invariant
            from <= i <= chars.len(),
            s == chars@.skip(from as int),
            total == byte_len(s.take(i - from)),
            total <= 4 * (i - from),
            cut == exists|j: int|
                0 <= j <= i - from && byte_len(#[trigger] s.take(j)) == bytes,
        decreases chars.len() - i,
    {
        let ghost k = i - from;
        proof {
            assert(s.take(k + 1).drop_last() =~= s.take(k));
            assert(s.take(k + 1).last() == chars@[i as int]);
        }
        total = total + bytes_of(chars[i]);
        assert(byte_len(s.take(k + 1)) == total);
        if total == bytes as u128 {
            cut = true;
        }
        i = i + 1;
    }
    proof {
        assert(s.take(s.len() as int) =~= s);
    }
    (cut, total)
}

/// Ten to a power, where it has 256 bits at most.
fn power_of_ten(n: u32) -> (r: Option<Uint256>)
    ensures
        match r {
            Some(v) => v@ == pow10(n as nat),
            None => pow10(n as nat) >= limit(),
        },
{
    let ten = Uint256::from_u64(10);
    let mut v = Uint256::from_u64(1);
    let mut i: u32 = 0;
    while i < n
        invariant
            i <= n,
            ten@ == 10,
            v@ == pow10(i as nat),
        decreases n - i,
    {
        match u256_checked_mul(ten, v) {
            Some(w) => {
                v = w;
            },
            None => {
                proof {
                    lemma_pow10_grows((i + 1) as nat, n as nat);
                }
                return None;
            },
        }
        i = i + 1;
    }
    Some(v)
}

proof fn lemma_pow10_grows(a: nat, b: nat)
    requires
        a <= b,
    ensures
        pow10(a) <= pow10(b),
    decreases b,
{
    if a < b {
        lemma_pow10_grows(a, (b - 1) as nat);
    }
}

fn can_scale(digits: &str, power: u32, negative: bool) -> (r: bool)
    ensures
        r == scales(digits@, power as nat, negative),
{
    let n = match u256_from_dec_str(digits) {
        Ok(n) => n,
        Err(_) => {
            return true;
        },
    };
    let scale = match power_of_ten(power) {
        Some(scale) => scale,
        None => {
            return true;
        },
    };
    proof {
        words_are_unique(n, n);
        words_are_unique(scale, scale);
    }
    if negative {
        let half = Uint256 { w0: 0, w1: 0, w2: 0, w3: 0x8000_0000_0000_0000 };
        assert(half@ == half_limit());
        if half.lt(n) || half.lt(scale) {
            return true;
        }
        match u256_checked_mul(n, scale) {
            Some(product) => !half.lt(product),
            None => false,
        }
    } else {
        match u256_checked_mul(n, scale) {
            Some(product) => {
                proof {
                    words_are_unique(product, product);
                }
                true
            },
            None => false,
        }
    }
}

/// Whether an amount can be handed to [`parse_units`].
pub fn in_reach_of_units(amount: &str, decimals: u32) -> (r: bool)
    ensures
        r == units_in_reach(amount@, decimals as nat),
{
    let chars = clean(amount);
    let n: usize = chars.len();
    let ghost s = chars@;
    let mut k: usize = 0;
    while k < n && chars[k] != '.'
        invariant
            k <= n,
            n == chars.len(),
            s == chars@,
            forall|j: int| 0 <= j < k ==> #[trigger] s[j] != '.',
        decreases n - k,
    {
        k = k + 1;
    }
    proof {
        text::lemma_run_before(s, '.', k as int);
    }
    let from: usize = if k < n {
        k + 1
    } else {
        n
    };
    assert(fraction(s) =~= s.skip(from as int));
    let (cut, bytes) = measure(&chars, from, decimals);
    if bytes > u32::MAX as u128 {
        return false;
    }
    if bytes > decimals as u128 {
        return cut;
    }
    let negative = n > 0 && chars[0] == '-';
    let mut digits = String::new();
    let mut i: usize = if negative {
        1
    } else {
        0
    };
    let ghost start = i as int;
    assert(s.subrange(start, start) =~= Seq::<char>::empty());
    assert(digits@ =~= Seq::<char>::empty());
    assert(negative ==> k > 0);
    while i < k
        invariant
            start <= i <= k <= n,
            n == chars.len(),
            s == chars@,
            0 <= start,
            digits@ == s.subrange(start, i as int),
        decreases k - i,
    {
        digits.push(chars[i]);
        assert(s.subrange(start, i + 1) =~= s.subrange(start, i as int).push(s[i as int]));
        i = i + 1;
    }
    let mut j: usize = from;
    assert(s.subrange(from as int, from as int) =~= Seq::<char>::empty());
    assert(digits@ =~= s.subrange(start, k as int) + s.subrange(from as int, from as int));
    while j < n
        invariant
            from <= j <= n,
            0 <= start <= k <= n,
            n == chars.len(),
            s == chars@,
            digits@ == s.subrange(start, k as int) + s.subrange(from as int, j as int),
        decreases n - j,
    {
        digits.push(chars[j]);
        assert(s.subrange(start, k as int) + s.subrange(from as int, j + 1) =~= (s.subrange(
            start,
            k as int,
        ) + s.subrange(from as int, j as int)).push(s[j as int]));
        j = j + 1;
    }
    proof {
        let all = whole_part(s) + fraction(s);
        if negative {
            assert(digits@ =~= all.skip(1));
        } else {
            assert(digits@ =~= all);
        }
    }
    can_scale(digits.as_str(), decimals - bytes as u32, negative)
}

// ---------------------------------------------------------------------------
// Addresses and hashes
// ---------------------------------------------------------------------------

/// The characters of a text that a hexadecimal reading passes over.
pub open spec fn is_hex_blank(c: char) -> bool {
    c == ' ' || c == '\r' || c == '\n' || c == '\t'
}

pub open spec fn without_blanks(s: Seq<char>) -> Seq<char> {
    s.filter(|c: char| !is_hex_blank(c))
}

/// Hexadecimal digits in lower case.
pub open spec fn hex_lowered(s: Seq<char>) -> Seq<char> {
    Seq::new(s.len(), |i: int| text::hex_lower(s[i]))
}

/// The fixed number of bytes that a text stands for, written as `0x` and digits in lower case.
pub open spec fn fixed_hex(s: Seq<char>, digits: int) -> Option<Seq<char>> {
    let d = without_blanks(without_0x(s));
    if d.len() == digits && all_hex(d) {
        Some("0x"@ + hex_lowered(d))
    } else {
        None
    }
}

/// What `Address::from_str` says of a text that it refuses.
pub uninterp spec fn address_failure(address: Seq<char>) -> Seq<Seq<char>>;

/// Calls `Address::from_str` and writes the result with `{:#x}`. It reads 40 hexadecimal digits
/// after a `0x` that may stand in front, passing over blanks, and refuses everything else. The
/// error, with its causes as `anyhow::Error::chain` lists them, is a function of the text and is
/// named [`address_failure`].
#[verifier::external_body]
pub(crate) fn address_from_str(address: &str) -> (r: Result<String, Vec<String>>)
    ensures
        match r {
            Ok(a) => fixed_hex(address@, 40) == Some(a@),
            Err(causes) => fixed_hex(address@, 40) is None && text::texts(causes@)
                == address_failure(address@),
        },
{
    match address.parse::<ethers::types::Address>() {
        Ok(a) => Ok(format!("{:#x}", a)),
        Err(e) => Err(anyhow::Error::from(e).chain().map(|c| c.to_string()).collect()),
    }
}

/// Calls `H256::from_str` and writes the result with `{:#x}`. It reads 64 hexadecimal digits
/// after a `0x` that may stand in front, passing over blanks, and refuses everything else.
#[verifier::external_body]
pub(crate) fn hash_from_str(hash: &str) -> (r: Option<String>)
    ensures
        match r {
            Some(h) => fixed_hex(hash@, 64) == Some(h@),
            None => fixed_hex(hash@, 64) is None,
        },
{
    hash.parse::<ethers::types::H256>().ok().map(|h| format!("{:#x}", h))
}

// ---------------------------------------------------------------------------
// What the readings come to
// ---------------------------------------------------------------------------

/// The limit is one more than the largest number of four words.
pub proof fn limit_is_behind_the_largest_number()
    ensures
        (Uint256 { w0: u64::MAX, w1: u64::MAX, w2: u64::MAX, w3: u64::MAX })@ + 1 == limit(),
        half_limit() * 2 == limit(),
{
}

/// A hexadecimal digit behind a number makes it sixteen times as large and adds the digit.
pub proof fn hexadecimal_numbers_grow_by_sixteen(s: Seq<char>, c: char)
    ensures
        hex_number(s.push(c)) == 16 * hex_number(s) + text::hex_value(c),
        hex_number(Seq::empty()) == 0,
        without_0x(seq!['0', 'x'] + s) == s,
        s.len() > 0 && s[0] != '0' ==> without_0x(s) == s,
{
    assert(s.push(c).drop_last() =~= s);
    assert((seq!['0', 'x'] + s).skip(2) =~= s);
}

/// A decimal is split at its point; without a point all of it is the whole part.
pub proof fn decimal_is_split_at_its_point(whole: Seq<char>, behind: Seq<char>)
    requires
        !whole.contains('.'),
    ensures
        whole_part(whole + seq!['.'] + behind) == whole,
        fraction(whole + seq!['.'] + behind) == behind,
        whole_part(whole) == whole,
        fraction(whole).len() == 0,
{
    let s = whole + seq!['.'] + behind;
    assert forall|j: int| 0 <= j < whole.len() implies #[trigger] s[j] != '.' by {
        assert(s[j] == whole[j]);
        assert(whole.contains(whole[j]));
    }
    assert forall|j: int| 0 <= j < whole.len() implies #[trigger] whole[j] != '.' by {
        assert(whole.contains(whole[j]));
    }
    text::lemma_run_before(s, '.', whole.len() as int);
    text::lemma_run_before(whole, '.', whole.len() as int);
    assert(s.take(whole.len() as int) =~= whole);
    assert(s.skip(whole.len() as int + 1) =~= behind);
    assert(whole.take(whole.len() as int) =~= whole);
}

/// A decimal with no more places than there are decimals stands for its digits, moved by the places
/// that it lacks; what stands behind the last decimal is dropped.
pub proof fn plain_decimals_are_moved_by_their_places(
    whole: Seq<char>,
    behind: Seq<char>,
    decimals: nat,
)
    requires
        text::all_digits(whole),
        text::all_digits(behind),
    ensures
        ({
            let s = whole + seq!['.'] + behind;
            let lacking = pow10((decimals - behind.len()) as nat);
            &&& behind.len() <= decimals && lacking < limit() && text::number_of(whole + behind)
                * lacking < limit() ==> plain_units(s, decimals) == Some(
                text::number_of(whole + behind) * lacking,
            )
            &&& behind.len() > decimals && text::number_of(whole + behind.take(decimals as int))
                < limit() ==> plain_units(s, decimals) == Some(
                text::number_of(whole + behind.take(decimals as int)),
            )
        }),
        pow10(decimals) < limit() && text::number_of(whole) * pow10(decimals) < limit()
            ==> plain_units(whole, decimals) == Some(text::number_of(whole) * pow10(decimals)),
        pow10(decimals + 1) == 10 * pow10(decimals),
        pow10(0) == 1,
{
    assert(!whole.contains('.')) by {
        if whole.contains('.') {
            let i = choose|i: int| 0 <= i < whole.len() && whole[i] == '.';
            assert(text::is_digit(whole[i]));
        }
    }
    decimal_is_split_at_its_point(whole, behind);
    let digits = whole + behind;
    assert(text::all_digits(digits)) by {
        assert forall|i: int| 0 <= i < digits.len() implies text::is_digit(#[trigger] digits[i]) by {
            if i < whole.len() {
                assert(digits[i] == whole[i]);
            } else {
                assert(digits[i] == behind[i - whole.len()]);
            }
        }
    }
    assert(whole + Seq::<char>::empty() =~= whole);
    assert(fraction(whole) =~= Seq::<char>::empty());
    if behind.len() > decimals {
        assert(digits.take((whole.len() + decimals) as int) =~= whole + behind.take(
            decimals as int,
        ));
    }
}

proof fn lemma_nothing_is_filtered(s: Seq<char>)
    requires
        all_hex(s),
    ensures
        without_blanks(s) == s,
    decreases s.len(),
{
    reveal(Seq::filter);
    if s.len() > 0 {
        let t = s.drop_last();
        assert(all_hex(t)) by {
            assert forall|i: int| 0 <= i < t.len() implies text::is_hex(#[trigger] t[i]) by {
                assert(t[i] == s[i]);
            }
        }
        lemma_nothing_is_filtered(t);
        assert(text::is_hex(s[s.len() - 1]));
        assert(!is_hex_blank(s.last()));
        assert(t.push(s.last()) =~= s);
    } else {
        assert(without_blanks(s) =~= s);
    }
}

/// A text of `0x` and so many hexadecimal digits stands for itself, in lower case.
pub proof fn hexadecimal_identifiers_are_lowered(s: Seq<char>, digits: int)
    requires
        text::is_hex_id(s, digits),
        digits >= 0,
    ensures
        fixed_hex(s, digits) matches Some(t) && t.len() == s.len() && t[0] == '0' && t[1] == 'x'
            && (forall|i: int|
            2 <= i < s.len() ==> #[trigger] t[i] == text::hex_lower(s[i])),
{
    reveal_strlit("0x");
    let d = s.skip(2);
    assert(without_0x(s) == d);
    assert(all_hex(d)) by {
        assert forall|i: int| 0 <= i < d.len() implies text::is_hex(#[trigger] d[i]) by {
            assert(d[i] == s[i + 2]);
        }
    }
    lemma_nothing_is_filtered(d);
    let t = "0x"@ + hex_lowered(d);
    assert forall|i: int| 2 <= i < s.len() implies #[trigger] t[i] == text::hex_lower(s[i]) by {
        assert(d[i - 2] == s[i]);
    }
}

} // verus!

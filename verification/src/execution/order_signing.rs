//! Orders: their amounts, their form as typed data, and their signature.
use vstd::prelude::*;
use crate::double::Double;
use crate::failure;
use crate::failure::Failure;
use crate::json;
use crate::text;
use crate::uint;

verus! {

/// The chain that the exchange runs on.
pub const CHAIN_ID_POLYGON: u64 = 137;

#[derive(Clone, Copy, Debug, PartialEq, Eq, Structural)]
pub enum OrderSide {
    Buy,
    Sell,
}

impl OrderSide {
    pub open spec fn code(self) -> u8 {
        match self {
            OrderSide::Buy => 0,
            OrderSide::Sell => 1,
        }
    }

    pub open spec fn name(self) -> Seq<char> {
        match self {
            OrderSide::Buy => "BUY"@,
            OrderSide::Sell => "SELL"@,
        }
    }

    pub fn as_u8(self) -> (r: u8)
        ensures
            r == self.code(),
    {
        match self {
            OrderSide::Buy => 0,
            OrderSide::Sell => 1,
        }
    }

    pub fn as_str(self) -> (r: &'static str)
        ensures
            r@ == self.name(),
    {
        match self {
            OrderSide::Buy => "BUY",
            OrderSide::Sell => "SELL",
        }
    }
}

pub struct SignedOrder {
    pub salt: String,
    pub maker: String,
    pub signer: String,
    pub taker: String,
    pub token_id: String,
    pub maker_amount: String,
    pub taker_amount: String,
    pub expiration: String,
    pub nonce: String,
    pub fee_rate_bps: String,
    pub side: OrderSide,
    pub signature_type: u8,
    pub signature: String,
}

/// An order without its signature.
#[verifier::ext_equal]
pub struct OrderFields {
    pub salt: Seq<char>,
    pub maker: Seq<char>,
    pub signer: Seq<char>,
    pub taker: Seq<char>,
    pub token_id: Seq<char>,
    pub maker_amount: Seq<char>,
    pub taker_amount: Seq<char>,
    pub expiration: Seq<char>,
    pub nonce: Seq<char>,
    pub fee_rate_bps: Seq<char>,
    pub side: OrderSide,
    pub signature_type: u8,
    pub verifying_contract: Seq<char>,
}

impl SignedOrder {
    /// The order that was signed for a contract.
    pub open spec fn fields(self, verifying_contract: Seq<char>) -> OrderFields {
        OrderFields {
            salt: self.salt@,
            maker: self.maker@,
            signer: self.signer@,
            taker: self.taker@,
            token_id: self.token_id@,
            maker_amount: self.maker_amount@,
            taker_amount: self.taker_amount@,
            expiration: self.expiration@,
            nonce: self.nonce@,
            fee_rate_bps: self.fee_rate_bps@,
            side: self.side,
            signature_type: self.signature_type,
            verifying_contract,
        }
    }
}

// ---------------------------------------------------------------------------
// Decimals
// ---------------------------------------------------------------------------

/// To how many decimals price, size and amount of an order are rounded.
#[derive(Clone, Copy, Debug, PartialEq, Eq, Structural)]
pub struct RoundingConfig {
    pub price_decimals: u32,
    pub size_decimals: u32,
    pub amount_decimals: u32,
}

/// The decimals for a tick size, where it is one that the exchange uses.
pub open spec fn rounding_for(tick_size: Seq<char>) -> Option<RoundingConfig> {
    let tick = text::trimmed(tick_size);
    if tick == "0.1"@ {
        Some(RoundingConfig { price_decimals: 1, size_decimals: 2, amount_decimals: 3 })
    } else if tick == "0.01"@ {
        Some(RoundingConfig { price_decimals: 2, size_decimals: 2, amount_decimals: 4 })
    } else if tick == "0.001"@ {
        Some(RoundingConfig { price_decimals: 3, size_decimals: 2, amount_decimals: 5 })
    } else if tick == "0.0001"@ {
        Some(RoundingConfig { price_decimals: 4, size_decimals: 2, amount_decimals: 6 })
    } else {
        None
    }
}

pub fn round_config_for_tick(tick_size: &str) -> (r: Result<RoundingConfig, String>)
    ensures
        match r {
            Ok(round) => rounding_for(tick_size@) == Some(round),
            Err(message) => rounding_for(tick_size@) is None && message@
                == "unsupported tick size for signing: "@ + text::trimmed(tick_size@),
        },
{
    let tick = text::trim(tick_size);
    if text::text_eq(tick, "0.1") {
        Ok(RoundingConfig { price_decimals: 1, size_decimals: 2, amount_decimals: 3 })
    } else if text::text_eq(tick, "0.01") {
        Ok(RoundingConfig { price_decimals: 2, size_decimals: 2, amount_decimals: 4 })
    } else if text::text_eq(tick, "0.001") {
        Ok(RoundingConfig { price_decimals: 3, size_decimals: 2, amount_decimals: 5 })
    } else if text::text_eq(tick, "0.0001") {
        Ok(RoundingConfig { price_decimals: 4, size_decimals: 2, amount_decimals: 6 })
    } else {
        let mut message = "unsupported tick size for signing: ".to_owned();
        message.append(tick);
        Err(message)
    }
}

/// A decimal without the zeros at its end, and without the point that is left over then.
pub open spec fn without_zeros(s: Seq<char>) -> Seq<char> {
    let t = text::trim_end_of(s, '0');
    if t.len() > 0 && t.last() == '.' {
        t.drop_last()
    } else {
        t
    }
}

fn strip_zeros(s: &str) -> (r: String)
    ensures
        r@ == without_zeros(s@),
{
    let t = text::trim_end_matches(s, '0');
    let chars = text::chars_of(t.as_str());
    let n: usize = chars.len();
    if n > 0 && chars[n - 1] == '.' {
        assert(chars@.subrange(0, n - 1) =~= t@.drop_last());
        text::text_of(&chars, 0, n - 1)
    } else {
        t
    }
}

/// An amount that was written with a fixed number of decimals, in its shortest form.
pub fn decimal_to_string(formatted: &str) -> (r: String)
    ensures
        r@ == (if without_zeros(formatted@).len() == 0 {
            "0"@
        } else {
            without_zeros(formatted@)
        }),
{
    let t = strip_zeros(formatted);
    if t.as_str().is_empty() {
        "0".to_owned()
    } else {
        t
    }
}

/// A tick size that was written with a fixed number of decimals, in its shortest form.
pub fn normalize_tick_size_string(formatted: &str) -> (r: String)
    ensures
        r@ == (if without_zeros(formatted@).len() == 0 {
            "0.01"@
        } else {
            without_zeros(formatted@)
        }),
{
    let t = strip_zeros(formatted);
    if t.as_str().is_empty() {
        "0.01".to_owned()
    } else {
        t
    }
}

/// How many decimals a number has, by how it is written with a fixed number of them.
pub open spec fn places(formatted: Seq<char>) -> nat {
    match text::after_first(without_zeros(formatted), "."@) {
        Some(fraction) => fraction.len(),
        None => 0,
    }
}

pub fn decimal_places(formatted: &str) -> (r: usize)
    ensures
        r == places(formatted@),
{
    let t = strip_zeros(formatted);
    match text::rest_after(t.as_str(), ".") {
        Some(fraction) => text::chars_of(fraction.as_str()).len(),
        None => 0,
    }
}

// ---------------------------------------------------------------------------
// Amounts
// ---------------------------------------------------------------------------

/// An amount, with how it is written with eight and with twelve decimals.
pub struct Amount {
    pub value: Double,
    pub text8: String,
    pub text12: String,
}

/// An amount that was computed: as it is, rounded up four decimals behind those that it may have,
/// and that rounded down to them.
pub struct AmountForms {
    pub exact: Amount,
    pub rounded_up: Amount,
    pub rounded_down: Amount,
}

/// The form that has no more decimals than it may have, the first one first.
pub open spec fn fitting_form(forms: AmountForms, round: RoundingConfig) -> Amount {
    if places(forms.exact.text12@) <= round.amount_decimals {
        forms.exact
    } else if places(forms.rounded_up.text12@) <= round.amount_decimals {
        forms.rounded_up
    } else {
        forms.rounded_down
    }
}

fn choose_form<'a>(forms: &'a AmountForms, round: RoundingConfig) -> (r: &'a Amount)
    ensures
        *r == fitting_form(*forms, round),
{
    if decimal_places(forms.exact.text12.as_str()) <= round.amount_decimals as usize {
        &forms.exact
    } else if decimal_places(forms.rounded_up.text12.as_str()) <= round.amount_decimals as usize {
        &forms.rounded_up
    } else {
        &forms.rounded_down
    }
}

/// What an order gives and takes.
pub struct RawAmounts<'a> {
    pub maker: &'a Amount,
    pub taker: &'a Amount,
}

pub open spec fn is_valid_number(d: Double) -> bool {
    d.finite() && d.positive()
}

fn valid_number(d: Double) -> (r: bool)
    ensures
        r == is_valid_number(d),
{
    d.is_finite() && d.is_positive()
}

/// The amounts of a market order: it gives the size, rounded down, and takes what the price makes
/// of it. Nothing is made of an amount or a price that is no positive number.
pub fn get_market_order_raw_amounts<'a>(
    amount: Double,
    price: Double,
    round: RoundingConfig,
    size: &'a Amount,
    forms: &'a AmountForms,
) -> (r: Result<RawAmounts<'a>, String>)
    ensures
        match r {
            Ok(raw) => is_valid_number(amount) && is_valid_number(price) && *raw.maker == *size
                && *raw.taker == fitting_form(*forms, round),
            Err(message) => if !is_valid_number(amount) {
                message@ == "invalid market order amount"@
            } else {
                !is_valid_number(price) && message@ == "invalid market order price"@
            },
        },
{
    if !valid_number(amount) {
        return Err("invalid market order amount".to_owned());
    }
    if !valid_number(price) {
        return Err("invalid market order price".to_owned());
    }
    Ok(RawAmounts { maker: size, taker: choose_form(forms, round) })
}

/// The amounts of a limit order: one that buys takes the size, rounded down, and gives what the
/// price makes of it, and one that sells the other way round. Nothing is made of a size or a
/// price that is no positive number.
pub fn get_limit_order_raw_amounts<'a>(
    side: OrderSide,
    amount: Double,
    price: Double,
    round: RoundingConfig,
    size: &'a Amount,
    forms: &'a AmountForms,
) -> (r: Result<RawAmounts<'a>, String>)
    ensures
        match r {
            Ok(raw) => is_valid_number(amount) && is_valid_number(price) && if side
                == OrderSide::Buy {
                *raw.taker == *size && *raw.maker == fitting_form(*forms, round)
            } else {
                *raw.maker == *size && *raw.taker == fitting_form(*forms, round)
            },
            Err(message) => if !is_valid_number(amount) {
                message@ == "invalid limit order size"@
            } else {
                !is_valid_number(price) && message@ == "invalid limit order price"@
            },
        },
{
    if !valid_number(amount) {
        return Err("invalid limit order size".to_owned());
    }
    if !valid_number(price) {
        return Err("invalid limit order price".to_owned());
    }
    let computed = choose_form(forms, round);
    if side == OrderSide::Buy {
        Ok(RawAmounts { maker: computed, taker: size })
    } else {
        Ok(RawAmounts { maker: size, taker: computed })
    }
}

// ---------------------------------------------------------------------------
// Identifiers
// ---------------------------------------------------------------------------

/// The number that a trimmed text denotes: hexadecimal after `0x` or `0X`, decimal otherwise.
pub open spec fn uint_of(s: Seq<char>) -> Option<nat> {
    if s.len() >= 2 && s[0] == '0' && (s[1] == 'x' || s[1] == 'X') {
        let hex = uint::without_0x(s.skip(2));
        if hex.len() <= 64 && uint::all_hex(hex) {
            Some(uint::hex_number(hex))
        } else {
            None
        }
    } else if text::all_digits(s) && text::number_of(s) < uint::limit() {
        Some(text::number_of(s))
    } else {
        None
    }
}

pub open spec fn has_hex_prefix(s: Seq<char>) -> bool {
    s.len() >= 2 && s[0] == '0' && (s[1] == 'x' || s[1] == 'X')
}

/// A number of 256 bits as a decimal numeral, or what is wrong with it.
pub open spec fn normalized_uint(field: Seq<char>, raw: Seq<char>) -> Result<
    Seq<char>,
    Seq<Seq<char>>,
> {
    let s = text::trimmed(raw);
    if s.len() == 0 {
        Err(failure::plain(field + " must not be empty"@))
    } else {
        match uint_of(s) {
            Some(n) => Ok(text::decimal(n)),
            None => if has_hex_prefix(s) {
                Err(
                    failure::caused(
                        field + " must be valid hex uint256, got: "@ + s,
                        uint::hex_failure(s.skip(2)),
                    ),
                )
            } else {
                Err(
                    failure::caused(
                        field + " must be valid decimal uint256, got: "@ + s,
                        uint::decimal_failure(s),
                    ),
                )
            },
        }
    }
}

pub open spec fn same_result(
    r: Result<String, Failure>,
    s: Result<Seq<char>, Seq<Seq<char>>>,
) -> bool {
    match r {
        Ok(v) => s == Ok::<Seq<char>, Seq<Seq<char>>>(v@),
        Err(e) => s == Err::<Seq<char>, Seq<Seq<char>>>(e@),
    }
}

pub fn normalize_uint256_string(field_name: &str, raw: &str) -> (r: Result<String, Failure>)
    ensures
        same_result(r, normalized_uint(field_name@, raw@)),
{
    let s = text::trim(raw);
    if s.is_empty() {
        let mut message = field_name.to_owned();
        message.append(" must not be empty");
        return Err(Failure::from_text(message));
    }
    let chars = text::chars_of(s);
    if chars.len() >= 2 && chars[0] == '0' && (chars[1] == 'x' || chars[1] == 'X') {
        let hex = text::text_of(&chars, 2, chars.len());
        assert(hex@ =~= s@.skip(2));
        match uint::u256_from_hex_str(hex.as_str()) {
            Ok(n) => Ok(n.to_text()),
            Err(causes) => {
                let mut message = field_name.to_owned();
                message.append(" must be valid hex uint256, got: ");
                message.append(s);
                Err(Failure::with_causes(message, causes))
            },
        }
    } else {
        match uint::u256_from_dec_str(s) {
            Ok(n) => {
                proof {
                    uint::words_are_unique(n, n);
                }
                Ok(n.to_text())
            },
            Err(causes) => {
                let mut message = field_name.to_owned();
                message.append(" must be valid decimal uint256, got: ");
                message.append(s);
                Err(Failure::with_causes(message, causes))
            },
        }
    }
}

/// An address in lower case, or what is wrong with it.
pub open spec fn normalized_address(field: Seq<char>, raw: Seq<char>) -> Result<
    Seq<char>,
    Seq<Seq<char>>,
> {
    let s = text::trimmed(raw);
    if s.len() == 0 {
        Err(failure::plain(field + " must not be empty"@))
    } else {
        match uint::fixed_hex(s, 40) {
            Some(a) => Ok(a),
            None => Err(
                failure::caused(
                    field + " must be a valid 0x address, got: "@ + s,
                    uint::address_failure(s),
                ),
            ),
        }
    }
}

pub fn normalize_address_string(field_name: &str, raw: &str) -> (r: Result<String, Failure>)
    ensures
        same_result(r, normalized_address(field_name@, raw@)),
{
    let s = text::trim(raw);
    if s.is_empty() {
        let mut message = field_name.to_owned();
        message.append(" must not be empty");
        return Err(Failure::from_text(message));
    }
    match uint::address_from_str(s) {
        Ok(a) => Ok(a),
        Err(causes) => {
            let mut message = field_name.to_owned();
            message.append(" must be a valid 0x address, got: ");
            message.append(s);
            Err(Failure::with_causes(message, causes))
        },
    }
}

/// The salt of an order: the time in milliseconds and three digits of the process, so that no two
/// orders are alike.
pub fn generate_order_salt(now_ms: u64, process_id: u32) -> (r: String)
    ensures
        r@ == text::decimal((now_ms * 1000 + process_id % 1000) as nat),
{
    let salt: u128 = now_ms as u128 * 1000 + (process_id % 1000) as u128;
    text::decimal_u128(salt)
}

/// A numeral that was normalized once stays as it is when it is normalized again.
pub proof fn normalizing_twice_changes_nothing(field: Seq<char>, raw: Seq<char>)
    ensures
        normalized_uint(field, raw) matches Ok(s) ==> normalized_uint(field, s) == Ok::<
            Seq<char>,
            Seq<Seq<char>>,
        >(s),
{
    if normalized_uint(field, raw) is Ok {
        let n = uint_of(text::trimmed(raw))->Some_0;
        let s = text::decimal(n);
        if has_hex_prefix(text::trimmed(raw)) {
            lemma_hex_number_bound(uint::without_0x(text::trimmed(raw).skip(2)));
        }
        text::decimal_round_trip(n);
        text::lemma_digits_are_trimmed(s);
        assert(is_digits_not_hex(s));
    }
}

spec fn is_digits_not_hex(s: Seq<char>) -> bool {
    s.len() >= 2 ==> text::is_digit(s[1])
}

proof fn lemma_hex_number_bound(s: Seq<char>)
    requires
        s.len() <= 64,
        uint::all_hex(s),
    ensures
        uint::hex_number(s) < uint::limit(),
{
    lemma_hex_number_power(s);
    lemma_pow16_grows(s.len(), 64);
    lemma_pow16_64();
}

proof fn lemma_pow16_sum(a: nat, b: nat)
    ensures
        pow16(a + b) == pow16(a) * pow16(b),
    decreases a,
{
    if a > 0 {
        lemma_pow16_sum((a - 1) as nat, b);
        let x = pow16((a - 1) as nat);
        let y = pow16(b);
        assert((a + b - 1) as nat == ((a - 1) as nat) + b);
        assert(pow16(a + b) == 16 * pow16((a + b - 1) as nat));
        assert(16 * (x * y) == (16 * x) * y) by (nonlinear_arith);
    } else {
        assert(pow16(a) * pow16(b) == pow16(b)) by (nonlinear_arith)
            requires
                pow16(a) == 1,
        ;
    }
}

proof fn lemma_pow16_64()
    ensures
        pow16(64) == uint::limit(),
{
    assert(pow16(8) == 0x1_0000_0000) by {
        reveal_with_fuel(pow16, 9);
    }
    lemma_pow16_sum(8, 8);
    assert(pow16(16) == 0x1_0000_0000_0000_0000) by (nonlinear_arith)
        requires
            pow16(8) == 0x1_0000_0000,
            pow16(16) == pow16(8) * pow16(8),
    ;
    lemma_pow16_sum(16, 16);
    assert(pow16(32) == 0x1_0000_0000_0000_0000_0000_0000_0000_0000) by (nonlinear_arith)
        requires
            pow16(16) == 0x1_0000_0000_0000_0000,
            pow16(32) == pow16(16) * pow16(16),
    ;
    lemma_pow16_sum(32, 32);
    assert(pow16(64) == uint::limit()) by (nonlinear_arith)
        requires
            pow16(32) == 0x1_0000_0000_0000_0000_0000_0000_0000_0000,
            pow16(64) == pow16(32) * pow16(32),
    ;
}

spec fn pow16(n: nat) -> nat
    decreases n,
{
    if n == 0 {
        1
    } else {
        16 * pow16((n - 1) as nat)
    }
}

proof fn lemma_pow16_grows(a: nat, b: nat)
    requires
        a <= b,
    ensures
        pow16(a) <= pow16(b),
    decreases b,
{
    if a < b {
        lemma_pow16_grows(a, (b - 1) as nat);
    }
}

proof fn lemma_hex_number_power(s: Seq<char>)
    requires
        uint::all_hex(s),
    ensures
        uint::hex_number(s) < pow16(s.len()),
    decreases s.len(),
{
    if s.len() > 0 {
        assert(uint::all_hex(s.drop_last())) by {
            assert forall|i: int| 0 <= i < s.drop_last().len() implies text::is_hex(
                #[trigger] s.drop_last()[i],
            ) by {
                assert(s.drop_last()[i] == s[i]);
            }
        }
        lemma_hex_number_power(s.drop_last());
        assert(text::is_hex(s[s.len() - 1]));
        assert(text::hex_value(s.last()) < 16);
    }
}

// ---------------------------------------------------------------------------
// What orders are made of
// ---------------------------------------------------------------------------

/// Orders are rounded to as many decimals of the price as their tick size has, to two decimals of
/// the size, and to two more than the price has of the amount. No other tick size can be signed
/// for.
pub proof fn tick_size_decides_the_decimals(tick_size: Seq<char>)
    ensures
        rounding_for(tick_size) is Some <==> text::trimmed(tick_size) == "0.1"@ || text::trimmed(
            tick_size,
        ) == "0.01"@ || text::trimmed(tick_size) == "0.001"@ || text::trimmed(tick_size)
            == "0.0001"@,
        rounding_for(tick_size) matches Some(round) ==> {
            &&& round.price_decimals + 2 == text::trimmed(tick_size).len()
            &&& round.size_decimals == 2
            &&& round.amount_decimals == round.price_decimals + 2
        },
{
    reveal_strlit("0.1");
    reveal_strlit("0.01");
    reveal_strlit("0.001");
    reveal_strlit("0.0001");
    assert("0.1"@.len() == 3);
    assert("0.01"@.len() == 4);
    assert("0.001"@.len() == 5);
    assert("0.0001"@.len() == 6);
}

proof fn lemma_zeros(s: Seq<char>, zeros: Seq<char>)
    requires
        forall|i: int| 0 <= i < zeros.len() ==> #[trigger] zeros[i] == '0',
        s.len() > 0 ==> s.last() != '0',
    ensures
        text::trim_end_of(s + zeros, '0') == s,
    decreases zeros.len(),
{
    if zeros.len() > 0 {
        assert((s + zeros).drop_last() =~= s + zeros.drop_last());
        assert((s + zeros).last() == zeros[zeros.len() - 1]);
        lemma_zeros(s, zeros.drop_last());
    } else {
        assert(s + zeros =~= s);
    }
}

/// Zeros behind the last decimal do not count, and neither does a point with nothing behind it.
pub proof fn zeros_at_the_end_do_not_count(s: Seq<char>, zeros: Seq<char>)
    requires
        forall|i: int| 0 <= i < zeros.len() ==> #[trigger] zeros[i] == '0',
    ensures
        without_zeros(s + seq!['.'] + zeros) == s,
        s.len() > 0 && s.last() != '0' && s.last() != '.' ==> without_zeros(s + zeros) == s,
{
    lemma_zeros(s + seq!['.'], zeros);
    assert((s + seq!['.']).drop_last() =~= s);
    if s.len() > 0 && s.last() != '0' {
        lemma_zeros(s, zeros);
    }
}

/// A decimal has as many places as digits behind its point, without the zeros at the end; a whole
/// number has none.
pub proof fn places_are_the_digits_behind_the_point(
    whole: Seq<char>,
    behind: Seq<char>,
    zeros: Seq<char>,
)
    requires
        forall|i: int| 0 <= i < zeros.len() ==> #[trigger] zeros[i] == '0',
        !whole.contains('.'),
        behind.len() > 0 ==> behind.last() != '0' && behind.last() != '.',
    ensures
        places(whole + seq!['.'] + behind + zeros) == behind.len(),
{
    reveal_strlit(".");
    let s = whole + seq!['.'] + behind;
    if behind.len() > 0 {
        assert(s.last() == behind.last());
        zeros_at_the_end_do_not_count(s, zeros);
        assert(s.subrange(whole.len() as int, whole.len() as int + 1) =~= "."@);
        assert(text::occurs_at(s, "."@, whole.len() as int));
        text::rest_begins_behind_the_first_occurrence(s, "."@);
        let rest = text::after_first(s, "."@)->Some_0;
        let i = s.len() - rest.len() - 1;
        assert(i <= whole.len());
        assert(s[i] == '.') by {
            assert(s == s.take(i) + "."@ + rest);
            assert((s.take(i) + "."@ + rest)[i] == '.');
        }
        if i < whole.len() {
            assert(s[i] == whole[i]);
            assert(whole.contains(whole[i]));
        }
    } else {
        assert(s + zeros =~= whole + seq!['.'] + zeros);
        zeros_at_the_end_do_not_count(whole, zeros);
        text::rest_begins_behind_the_first_occurrence(whole, "."@);
        if text::contains(whole, "."@) {
            let j = choose|j: int| text::occurs_at(whole, "."@, j);
            assert(whole.subrange(j, j + 1)[0] == '.');
            assert(whole.contains(whole[j]));
        }
    }
}

/// An amount is taken as it is where it has no more decimals than it may have; else as it is rounded
/// up, where that has no more; and else as it is rounded down.
pub proof fn first_form_that_fits_is_taken(forms: AmountForms, round: RoundingConfig)
    ensures
        places(forms.exact.text12@) <= round.amount_decimals ==> fitting_form(forms, round)
            == forms.exact,
        places(forms.exact.text12@) > round.amount_decimals && places(forms.rounded_up.text12@)
            <= round.amount_decimals ==> fitting_form(forms, round) == forms.rounded_up,
        places(forms.exact.text12@) > round.amount_decimals && places(forms.rounded_up.text12@)
            > round.amount_decimals ==> fitting_form(forms, round) == forms.rounded_down,
{
}

/// A number can be ordered for exactly where it is finite and above zero.
pub proof fn valid_numbers_are_above_zero(d: Double)
    ensures
        is_valid_number(d) ==> d.finite(),
        d.finite() ==> (is_valid_number(d) <==> d.units() > 0),
{
    if d.finite() {
        crate::double::sign_is_numeric(d);
    }
}

/// A number that fits is written in decimal, however it is written: as a decimal numeral, or in
/// hexadecimal behind `0x`, and whatever white space is around it. A blank text is refused, and so
/// is one that holds anything else.
pub proof fn numbers_are_written_in_decimal(
    field: Seq<char>,
    n: nat,
    hex: Seq<char>,
    raw: Seq<char>,
)
    requires
        uint::all_hex(hex),
        0 < hex.len() <= 64,
    ensures
        n < uint::limit() ==> normalized_uint(field, text::decimal(n)) == Ok::<
            Seq<char>,
            Seq<Seq<char>>,
        >(text::decimal(n)),
        n >= uint::limit() ==> normalized_uint(field, text::decimal(n)) is Err,
        normalized_uint(field, seq!['0', 'x'] + hex) == Ok::<Seq<char>, Seq<Seq<char>>>(
            text::decimal(uint::hex_number(hex)),
        ),
        text::trimmed(raw).len() == 0 ==> normalized_uint(field, raw) == Err::<
            Seq<char>,
            Seq<Seq<char>>,
        >(failure::plain(field + " must not be empty"@)),
        normalized_uint(field, raw) == normalized_uint(field, text::trimmed(raw)),
        normalized_uint(field, raw) matches Ok(s) ==> s.len() > 0 && text::all_digits(s)
            && text::trimmed(raw).len() > 0 && (text::trimmed(raw)[0] == '0' || text::all_digits(
            text::trimmed(raw),
        )),
{
    text::decimal_round_trip(n);
    let d = text::decimal(n);
    text::lemma_digits_are_trimmed(d);
    assert(is_digits_not_hex(d)) by {
        if d.len() >= 2 {
            assert(text::is_digit(d[1]));
        }
    }
    let h = seq!['0', 'x'] + hex;
    assert(h.skip(2) =~= hex);
    assert(text::is_hex(hex[0]));
    if hex.len() >= 2 {
        assert(text::is_hex(hex[1]));
    }
    assert(uint::without_0x(hex) == hex);
    assert(text::is_hex(hex[hex.len() - 1]));
    assert(h.last() == hex[hex.len() - 1]);
    text::white_space_around_does_not_count(Seq::empty(), h, Seq::empty());
    assert(Seq::<char>::empty() + h + Seq::<char>::empty() =~= h);
    text::trimming_is_done_once(raw);
    if normalized_uint(field, raw) is Ok {
        text::decimal_round_trip(uint_of(text::trimmed(raw))->Some_0);
    }
}

/// An address is written in lower case; a blank text is refused as empty, and one that is no address
/// is refused with its text.
pub proof fn addresses_are_written_in_lower_case(field: Seq<char>, raw: Seq<char>)
    ensures
        text::address_text(raw) ==> (normalized_address(field, raw) matches Ok(a) && a.len() == 42
            && a[0] == '0' && a[1] == 'x' && (forall|i: int|
            2 <= i < 42 ==> #[trigger] a[i] == text::hex_lower(text::trimmed(raw)[i]))),
        text::trimmed(raw).len() == 0 ==> normalized_address(field, raw) == Err::<
            Seq<char>,
            Seq<Seq<char>>,
        >(failure::plain(field + " must not be empty"@)),
        text::trimmed(raw).len() > 0 ==> (normalized_address(field, raw) matches Err(chain)
            ==> chain.len() > 0 && chain[0] == field + " must be a valid 0x address, got: "@
            + text::trimmed(raw)),
        normalized_address(field, raw) matches Ok(a) ==> text::trimmed(raw).len() >= 40 && a.len()
            == 42,
{
    if text::address_text(raw) {
        uint::hexadecimal_identifiers_are_lowered(text::trimmed(raw), 40);
    }
    reveal_strlit("0x");
    if normalized_address(field, raw) is Ok {
        let s = text::trimmed(raw);
        lemma_blanks_shorten(uint::without_0x(s));
    }
}

proof fn lemma_blanks_shorten(s: Seq<char>)
    ensures
        uint::without_blanks(s).len() <= s.len(),
    decreases s.len(),
{
    reveal(Seq::filter);
    if s.len() > 0 {
        lemma_blanks_shorten(s.drop_last());
    }
}

/// An order that buys has the code zero, and one that sells the code one; they have their names.
pub proof fn sides_of_orders_are_told_apart(side: OrderSide)
    ensures
        side.code() == 0 <==> side == OrderSide::Buy,
        side.code() == 1 <==> side == OrderSide::Sell,
        side.name() == "BUY"@ <==> side == OrderSide::Buy,
        side.name() == "SELL"@ <==> side == OrderSide::Sell,
{
    reveal_strlit("BUY");
    reveal_strlit("SELL");
    assert("BUY"@.len() == 3);
    assert("SELL"@.len() == 4);
}

/// A text is handed over exactly where there is one, and is that one; otherwise the reason is.
pub proof fn text_is_handed_over_as_it_is(
    r: Result<String, Failure>,
    s: Result<Seq<char>, Seq<Seq<char>>>,
)
    requires
        same_result(r, s),
    ensures
        r is Ok <==> s is Ok,
        r matches Ok(v) ==> v@ == s->Ok_0,
        r matches Err(e) ==> e@ == s->Err_0,
{
}

} // verus!

//! The settings, as the environment gives them.
use vstd::prelude::*;
use crate::double::{Double, NINETY_FIVE_CENT_BITS, ONE_BITS};
use crate::json;
use crate::text;
use crate::types::{Config, LivePriceSource, SettlementTxMode, SignatureType};
use crate::utils::paths;

verus! {

/// 0.5
pub const HALF_BITS: u64 = 0x3fe0_0000_0000_0000;

/// 0.75
pub const SEVENTY_FIVE_CENT_BITS: u64 = 0x3fe8_0000_0000_0000;

/// 1.3
pub const ONE_AND_THREE_TENTHS_BITS: u64 = 0x3ff4_cccc_cccc_cccd;

/// 1.5
pub const ONE_AND_A_HALF_BITS: u64 = 0x3ff8_0000_0000_0000;

/// 2.0
pub const TWO_BITS: u64 = 0x4000_0000_0000_0000;

/// 5.0
pub const FIVE_BITS: u64 = 0x4014_0000_0000_0000;

/// 30.0
pub const THIRTY_BITS: u64 = 0x403e_0000_0000_0000;

/// 100.0
pub const HUNDRED_BITS: u64 = 0x4059_0000_0000_0000;

/// 1000.0
pub const THOUSAND_BITS: u64 = 0x408f_4000_0000_0000;

// ---------------------------------------------------------------------------
// The environment
// ---------------------------------------------------------------------------

/// A text read as a number.
pub struct EnvNumber {
    pub value: Double,
    /// The number rounded down, within the range of the type.
    pub floor: u64,
    /// How the number is written.
    pub shown: String,
}

/// A variable of the environment, with the number that its trimmed text stands for.
pub struct EnvVar {
    pub key: String,
    pub text: String,
    pub number: Option<EnvNumber>,
}

/// The first variable of a name that is not blank.
pub open spec fn variable(env: Seq<EnvVar>, key: Seq<char>) -> Option<EnvVar>
    decreases env.len(),
{
    if env.len() == 0 {
        None
    } else if env[0].key@ == key && !text::is_blank(env[0].text@) {
        Some(env[0])
    } else {
        variable(env.skip(1), key)
    }
}

/// What a variable says, where it says anything.
pub open spec fn given(env: Seq<EnvVar>, key: Seq<char>) -> Option<Seq<char>> {
    match variable(env, key) {
        Some(found) => Some(text::trimmed(found.text@)),
        None => None,
    }
}

fn find_variable<'a>(env: &'a Vec<EnvVar>, key: &str) -> (r: Option<&'a EnvVar>)
    ensures
        match r {
            Some(found) => variable(env@, key@) == Some(*found),
            None => variable(env@, key@) is None,
        },
{
    let mut i: usize = 0;
    assert(env@.skip(0) =~= env@);
    while i < env.len()
        invariant
            i <= env.len(),
            variable(env@, key@) == variable(env@.skip(i as int), key@),
        decreases env.len() - i,
    {
        let candidate = &env[i];
        if text::text_eq(candidate.key.as_str(), key) && !text::blank(candidate.text.as_str()) {
            return Some(candidate);
        }
        assert(env@.skip(i as int).skip(1) =~= env@.skip(i + 1));
        i = i + 1;
    }
    None
}

/// What a variable says, where it says anything.
pub fn given_env(env: &Vec<EnvVar>, key: &str) -> (r: Option<String>)
    ensures
        json::text_view(r) == given(env@, key@),
{
    match find_variable(env, key) {
        Some(found) => Some(text::trim(found.text.as_str()).to_owned()),
        None => None,
    }
}

/// What a variable says, or a text in its place.
pub open spec fn text_or(env: Seq<EnvVar>, key: Seq<char>, fallback: Seq<char>) -> Seq<char> {
    match given(env, key) {
        Some(s) => s,
        None => fallback,
    }
}

pub fn optional_env(env: &Vec<EnvVar>, key: &str, fallback: &str) -> (r: String)
    ensures
        r@ == text_or(env@, key@, fallback@),
{
    match given_env(env, key) {
        Some(s) => s,
        None => fallback.to_owned(),
    }
}

/// What the first of several variables says that says anything, or a text in its place.
pub open spec fn any_text_or(
    env: Seq<EnvVar>,
    keys: Seq<Seq<char>>,
    fallback: Seq<char>,
) -> Seq<char>
    decreases keys.len(),
{
    if keys.len() == 0 {
        fallback
    } else {
        match given(env, keys[0]) {
            Some(s) => s,
            None => any_text_or(env, keys.skip(1), fallback),
        }
    }
}

pub open spec fn literals(keys: Seq<&str>) -> Seq<Seq<char>> {
    Seq::new(keys.len(), |i: int| keys[i]@)
}

pub fn optional_any_env(env: &Vec<EnvVar>, keys: &[&str], fallback: &str) -> (r: String)
    ensures
        r@ == any_text_or(env@, literals(keys@), fallback@),
{
    let ghost all = literals(keys@);
    let mut i: usize = 0;
    assert(all.skip(0) =~= all);
    while i < keys.len()
        invariant
            i <= keys.len(),
            all == literals(keys@),
            any_text_or(env@, all, fallback@) == any_text_or(env@, all.skip(i as int), fallback@),
        decreases keys.len() - i,
    {
        assert(all.skip(i as int)[0] == keys@[i as int]@);
        match given_env(env, keys[i]) {
            Some(s) => {
                return s;
            },
            None => {},
        }
        assert(all.skip(i as int).skip(1) =~= all.skip(i + 1));
        i = i + 1;
    }
    fallback.to_owned()
}

// ---------------------------------------------------------------------------
// Kinds of settings
// ---------------------------------------------------------------------------

/// A setting that is on or off, by its text in lower case.
pub open spec fn flag_in_lower_case(key: Seq<char>, raw: Seq<char>) -> Result<bool, Seq<char>> {
    if raw == "true"@ || raw == "1"@ {
        Ok(true)
    } else if raw == "false"@ || raw == "0"@ {
        Ok(false)
    } else {
        Err(key + " must be boolean (true/false/1/0), got: "@ + raw)
    }
}

pub open spec fn flag(env: Seq<EnvVar>, key: Seq<char>, fallback: bool) -> Result<bool, Seq<char>> {
    match given(env, key) {
        Some(s) => flag_in_lower_case(key, text::lowercase(s)),
        None => Ok(fallback),
    }
}

/// Whether a result is as stated.
pub open spec fn agrees<T>(r: Result<T, String>, s: Result<T, Seq<char>>) -> bool {
    match r {
        Ok(v) => s == Ok::<T, Seq<char>>(v),
        Err(message) => s == Err::<T, Seq<char>>(message@),
    }
}

fn complaint(key: &str, trouble: &str, raw: &str) -> (r: String)
    ensures
        r@ == key@ + trouble@ + raw@,
{
    let mut message = key.to_owned();
    message.append(trouble);
    message.append(raw);
    message
}

/// Reads a setting that is on or off from its text in lower case.
pub fn read_flag(key: &str, raw: &str) -> (r: Result<bool, String>)
    ensures
        agrees(r, flag_in_lower_case(key@, raw@)),
{
    if text::text_eq(raw, "true") || text::text_eq(raw, "1") {
        Ok(true)
    } else if text::text_eq(raw, "false") || text::text_eq(raw, "0") {
        Ok(false)
    } else {
        Err(complaint(key, " must be boolean (true/false/1/0), got: ", raw))
    }
}

pub fn boolean_env(env: &Vec<EnvVar>, key: &str, fallback: bool) -> (r: Result<bool, String>)
    ensures
        agrees(r, flag(env@, key@, fallback)),
{
    match given_env(env, key) {
        Some(s) => {
            let raw = text::lower(s.as_str());
            read_flag(key, raw.as_str())
        },
        None => Ok(fallback),
    }
}

/// What is wrong with a variable that should be a number.
pub open spec fn number_error(key: Seq<char>, found: EnvVar) -> Option<Seq<char>> {
    match found.number {
        None => Some(key + " must be a valid number, got: "@ + text::trimmed(found.text@)),
        Some(n) => if n.value.finite() {
            None
        } else {
            Some(key + " must be a finite number, got: "@ + text::trimmed(found.text@))
        },
    }
}

fn check_number(key: &str, found: &EnvVar) -> (r: Option<String>)
    ensures
        json::text_view(r) == number_error(key@, *found),
{
    match &found.number {
        None => Some(
            complaint(key, " must be a valid number, got: ", text::trim(found.text.as_str())),
        ),
        Some(n) => if n.value.is_finite() {
            None
        } else {
            Some(
                complaint(key, " must be a finite number, got: ", text::trim(found.text.as_str())),
            )
        },
    }
}

pub open spec fn number(env: Seq<EnvVar>, key: Seq<char>, fallback: Double) -> Result<
    Double,
    Seq<char>,
> {
    match variable(env, key) {
        Some(found) => match number_error(key, found) {
            Some(message) => Err(message),
            None => Ok(found.number->Some_0.value),
        },
        None => Ok(fallback),
    }
}

pub fn number_env(env: &Vec<EnvVar>, key: &str, fallback: Double) -> (r: Result<Double, String>)
    ensures
        agrees(r, number(env@, key@, fallback)),
{
    match find_variable(env, key) {
        Some(found) => match check_number(key, found) {
            Some(message) => Err(message),
            None => match &found.number {
                Some(n) => Ok(n.value),
                None => Ok(fallback),
            },
        },
        None => Ok(fallback),
    }
}

/// A range of numbers, with its ends as they are written.
pub struct NumberRange {
    pub min: Double,
    pub max: Double,
    pub min_text: &'static str,
    pub max_text: &'static str,
}

#[verifier::ext_equal]
pub struct RangeView {
    pub min: Double,
    pub max: Double,
    pub min_text: Seq<char>,
    pub max_text: Seq<char>,
}

impl NumberRange {
    pub open spec fn view(self) -> RangeView {
        RangeView {
            min: self.min,
            max: self.max,
            min_text: self.min_text@,
            max_text: self.max_text@,
        }
    }
}

pub open spec fn one_to_five() -> RangeView {
    RangeView {
        min: Double { bits: ONE_BITS },
        max: Double { bits: FIVE_BITS },
        min_text: "1"@,
        max_text: "5"@,
    }
}

pub open spec fn zero_to_thousand() -> RangeView {
    RangeView {
        min: Double { bits: 0 },
        max: Double { bits: THOUSAND_BITS },
        min_text: "0"@,
        max_text: "1000"@,
    }
}

fn from_one_to_five() -> (r: NumberRange)
    ensures
        r@ == one_to_five(),
{
    NumberRange {
        min: Double { bits: ONE_BITS },
        max: Double { bits: FIVE_BITS },
        min_text: "1",
        max_text: "5",
    }
}

fn from_zero_to_thousand() -> (r: NumberRange)
    ensures
        r@ == zero_to_thousand(),
{
    NumberRange {
        min: Double { bits: 0 },
        max: Double { bits: THOUSAND_BITS },
        min_text: "0",
        max_text: "1000",
    }
}

pub open spec fn in_range(value: Double, range: RangeView) -> bool {
    !value.below(range.min) && !range.max.below(value)
}

/// A number within a range. What stands in for it is taken as it is.
pub open spec fn ranged(
    env: Seq<EnvVar>,
    key: Seq<char>,
    fallback: Double,
    range: RangeView,
) -> Result<Double, Seq<char>> {
    match variable(env, key) {
        Some(found) => match number_error(key, found) {
            Some(message) => Err(message),
            None => {
                let n = found.number->Some_0;
                if in_range(n.value, range) {
                    Ok(n.value)
                } else {
                    Err(
                        key + " must be between "@ + range.min_text + " and "@ + range.max_text
                            + ", got: "@ + n.shown@,
                    )
                }
            },
        },
        None => Ok(fallback),
    }
}

pub fn number_env_in_range(env: &Vec<EnvVar>, key: &str, fallback: Double, range: NumberRange) -> (r:
    Result<Double, String>)
    ensures
        agrees(r, ranged(env@, key@, fallback, range@)),
{
    match find_variable(env, key) {
        Some(found) => match check_number(key, found) {
            Some(message) => Err(message),
            None => match &found.number {
                Some(n) => if n.value.lt(range.min) || range.max.lt(n.value) {
                    let mut message = key.to_owned();
                    message.append(" must be between ");
                    message.append(range.min_text);
                    message.append(" and ");
                    message.append(range.max_text);
                    message.append(", got: ");
                    message.append(n.shown.as_str());
                    Err(message)
                } else {
                    Ok(n.value)
                },
                None => Ok(fallback),
            },
        },
        None => Ok(fallback),
    }
}

/// A number that is not below zero, rounded down.
pub open spec fn whole(env: Seq<EnvVar>, key: Seq<char>, fallback: u64) -> Result<u64, Seq<char>> {
    match variable(env, key) {
        Some(found) => match number_error(key, found) {
            Some(message) => Err(message),
            None => {
                let n = found.number->Some_0;
                if n.value.below(Double { bits: 0 }) {
                    Err(key + " must be >= 0, got: "@ + n.shown@)
                } else {
                    Ok(n.floor)
                }
            },
        },
        None => Ok(fallback),
    }
}

pub fn floor_u64_env(env: &Vec<EnvVar>, key: &str, fallback: u64) -> (r: Result<u64, String>)
    ensures
        agrees(r, whole(env@, key@, fallback)),
{
    match find_variable(env, key) {
        Some(found) => match check_number(key, found) {
            Some(message) => Err(message),
            None => match &found.number {
                Some(n) => if n.value.lt(Double::zero()) {
                    Err(complaint(key, " must be >= 0, got: ", n.shown.as_str()))
                } else {
                    Ok(n.floor)
                },
                None => Ok(fallback),
            },
        },
        None => Ok(fallback),
    }
}

/// A source of live prices, by its name in upper case.
pub open spec fn price_source_in_upper_case(raw: Seq<char>) -> Result<LivePriceSource, Seq<char>> {
    if raw == "BINANCE"@ {
        Ok(LivePriceSource::Binance)
    } else if raw == "CHAINLINK_PUBLIC"@ {
        Ok(LivePriceSource::ChainlinkPublic)
    } else {
        Err("LIVE_PRICE_SOURCE must be BINANCE or CHAINLINK_PUBLIC, got: "@ + raw)
    }
}

pub open spec fn price_source(env: Seq<EnvVar>) -> Result<LivePriceSource, Seq<char>> {
    match given(env, "LIVE_PRICE_SOURCE"@) {
        Some(s) => price_source_in_upper_case(text::uppercase(s)),
        None => Ok(LivePriceSource::ChainlinkPublic),
    }
}

/// Reads a source of live prices from its name in upper case.
pub fn read_price_source(raw: &str) -> (r: Result<LivePriceSource, String>)
    ensures
        agrees(r, price_source_in_upper_case(raw@)),
{
    if text::text_eq(raw, "BINANCE") {
        Ok(LivePriceSource::Binance)
    } else if text::text_eq(raw, "CHAINLINK_PUBLIC") {
        Ok(LivePriceSource::ChainlinkPublic)
    } else {
        let mut message = "LIVE_PRICE_SOURCE must be BINANCE or CHAINLINK_PUBLIC, got: ".to_owned();
        message.append(raw);
        Err(message)
    }
}

pub fn live_price_source_env(env: &Vec<EnvVar>) -> (r: Result<LivePriceSource, String>)
    ensures
        agrees(r, price_source(env@)),
{
    match given_env(env, "LIVE_PRICE_SOURCE") {
        Some(s) => {
            let raw = text::upper(s.as_str());
            read_price_source(raw.as_str())
        },
        None => Ok(LivePriceSource::ChainlinkPublic),
    }
}

/// A way to settle, by its name in upper case.
pub open spec fn tx_mode_in_upper_case(raw: Seq<char>) -> Result<SettlementTxMode, Seq<char>> {
    if raw == "DIRECT_ETHERS"@ {
        Ok(SettlementTxMode::DirectEthers)
    } else if raw == "RELAYER_SAFE"@ {
        Ok(SettlementTxMode::RelayerSafe)
    } else {
        Err("SETTLEMENT_TX_MODE must be DIRECT_ETHERS or RELAYER_SAFE, got: "@ + raw)
    }
}

pub open spec fn tx_mode(env: Seq<EnvVar>) -> Result<SettlementTxMode, Seq<char>> {
    match given(env, "SETTLEMENT_TX_MODE"@) {
        Some(s) => tx_mode_in_upper_case(text::uppercase(s)),
        None => Ok(SettlementTxMode::DirectEthers),
    }
}

/// Reads a way to settle from its name in upper case.
pub fn read_tx_mode(raw: &str) -> (r: Result<SettlementTxMode, String>)
    ensures
        agrees(r, tx_mode_in_upper_case(raw@)),
{
    if text::text_eq(raw, "DIRECT_ETHERS") {
        Ok(SettlementTxMode::DirectEthers)
    } else if text::text_eq(raw, "RELAYER_SAFE") {
        Ok(SettlementTxMode::RelayerSafe)
    } else {
        let mut message = "SETTLEMENT_TX_MODE must be DIRECT_ETHERS or RELAYER_SAFE, got: ".to_owned();
        message.append(raw);
        Err(message)
    }
}

pub fn settlement_tx_mode_env(env: &Vec<EnvVar>) -> (r: Result<SettlementTxMode, String>)
    ensures
        agrees(r, tx_mode(env@)),
{
    match given_env(env, "SETTLEMENT_TX_MODE") {
        Some(s) => {
            let raw = text::upper(s.as_str());
            read_tx_mode(raw.as_str())
        },
        None => Ok(SettlementTxMode::DirectEthers),
    }
}

/// The type of the stop-loss order, by its name in upper case.
pub open spec fn order_type_in_upper_case(raw: Seq<char>) -> Result<Seq<char>, Seq<char>> {
    if raw == "GTC"@ || raw == "FOK"@ {
        Ok(raw)
    } else {
        Err("STOP_LOSS_ORDER_TYPE must be GTC or FOK, got: "@ + raw)
    }
}

pub open spec fn order_type(env: Seq<EnvVar>) -> Result<Seq<char>, Seq<char>> {
    match given(env, "STOP_LOSS_ORDER_TYPE"@) {
        Some(s) => order_type_in_upper_case(text::uppercase(s)),
        None => Ok("GTC"@),
    }
}

/// Reads the type of the stop-loss order from its name in upper case.
pub fn read_order_type(raw: &str) -> (r: Result<String, String>)
    ensures
        match r {
            Ok(v) => order_type_in_upper_case(raw@) == Ok::<Seq<char>, Seq<char>>(v@),
            Err(message) => order_type_in_upper_case(raw@) == Err::<Seq<char>, Seq<char>>(message@),
        },
{
    if text::text_eq(raw, "GTC") || text::text_eq(raw, "FOK") {
        Ok(raw.to_owned())
    } else {
        let mut message = "STOP_LOSS_ORDER_TYPE must be GTC or FOK, got: ".to_owned();
        message.append(raw);
        Err(message)
    }
}

pub fn stop_loss_order_type_env(env: &Vec<EnvVar>) -> (r: Result<String, String>)
    ensures
        match r {
            Ok(v) => order_type(env@) == Ok::<Seq<char>, Seq<char>>(v@),
            Err(message) => order_type(env@) == Err::<Seq<char>, Seq<char>>(message@),
        },
{
    match given_env(env, "STOP_LOSS_ORDER_TYPE") {
        Some(s) => {
            let raw = text::upper(s.as_str());
            read_order_type(raw.as_str())
        },
        None => Ok("GTC".to_owned()),
    }
}

pub open spec fn signature(env: Seq<EnvVar>) -> Result<SignatureType, Seq<char>> {
    match given(env, "POLYMARKET_SIGNATURE_TYPE"@) {
        Some(s) => if s == "0"@ {
            Ok(SignatureType::Eoa)
        } else if s == "1"@ {
            Ok(SignatureType::Safe)
        } else if s == "2"@ {
            Ok(SignatureType::SmartContractWallet)
        } else {
            Err("POLYMARKET_SIGNATURE_TYPE must be 0/1/2, got: "@ + s)
        },
        None => Ok(SignatureType::SmartContractWallet),
    }
}

pub fn signature_type_env(env: &Vec<EnvVar>) -> (r: Result<SignatureType, String>)
    ensures
        agrees(r, signature(env@)),
{
    match given_env(env, "POLYMARKET_SIGNATURE_TYPE") {
        Some(s) => if text::text_eq(s.as_str(), "0") {
            Ok(SignatureType::Eoa)
        } else if text::text_eq(s.as_str(), "1") {
            Ok(SignatureType::Safe)
        } else if text::text_eq(s.as_str(), "2") {
            Ok(SignatureType::SmartContractWallet)
        } else {
            let mut message = "POLYMARKET_SIGNATURE_TYPE must be 0/1/2, got: ".to_owned();
            message.append(s.as_str());
            Err(message)
        },
        None => Ok(SignatureType::SmartContractWallet),
    }
}

/// A private key with `0x` in front.
pub open spec fn prefixed_key(raw: Seq<char>) -> Seq<char> {
    let s = text::trimmed(raw);
    if text::begins_with(s, "0x"@) {
        s
    } else {
        "0x"@ + s
    }
}

pub fn normalize_private_key(raw: &str) -> (r: String)
    ensures
        r@ == prefixed_key(raw@),
{
    let s = text::trim(raw);
    if text::starts_with(s, "0x") {
        s.to_owned()
    } else {
        let mut out = "0x".to_owned();
        out.append(s);
        out
    }
}

/// A private key that has been put into its form keeps it.
pub proof fn key_form_is_kept(raw: Seq<char>)
    ensures
        text::begins_with(prefixed_key(raw), "0x"@),
{
    reveal_strlit("0x");
    let s = text::trimmed(raw);
    assert(("0x"@ + s).subrange(0, 2) =~= "0x"@);
}

pub open spec fn private_key(env: Seq<EnvVar>) -> Seq<char> {
    let raw = any_text_or(env, seq!["PRIVATE_KEY"@, "POLYMARKET_PRIVATE_KEY"@], Seq::empty());
    if raw.len() == 0 {
        Seq::empty()
    } else {
        prefixed_key(raw)
    }
}

fn read_private_key(env: &Vec<EnvVar>) -> (r: String)
    ensures
        r@ == private_key(env@),
{
    let keys = ["PRIVATE_KEY", "POLYMARKET_PRIVATE_KEY"];
    assert(literals(keys@) =~= seq!["PRIVATE_KEY"@, "POLYMARKET_PRIVATE_KEY"@]);
    let raw = optional_any_env(env, &keys, "");
    proof {
        reveal_strlit("");
        assert(""@ =~= Seq::<char>::empty());
    }
    if raw.as_str().is_empty() {
        String::new()
    } else {
        normalize_private_key(raw.as_str())
    }
}

pub open spec fn funder_address(env: Seq<EnvVar>) -> Seq<char> {
    text::trimmed(
        any_text_or(
            env,
            seq!["FUNDER_ADDRESS"@, "POLYMARKET_FUNDER_ADDRESS"@, "POLYMARKET_BALANCE_ADDRESS"@],
            Seq::empty(),
        ),
    )
}

fn read_funder_address(env: &Vec<EnvVar>) -> (r: String)
    ensures
        r@ == funder_address(env@),
{
    let keys = ["FUNDER_ADDRESS", "POLYMARKET_FUNDER_ADDRESS", "POLYMARKET_BALANCE_ADDRESS"];
    assert(literals(keys@) =~= seq![
        "FUNDER_ADDRESS"@,
        "POLYMARKET_FUNDER_ADDRESS"@,
        "POLYMARKET_BALANCE_ADDRESS"@,
    ]);
    let raw = optional_any_env(env, &keys, "");
    proof {
        reveal_strlit("");
        assert(""@ =~= Seq::<char>::empty());
    }
    text::trim(raw.as_str()).to_owned()
}

/// An address that need not be given.
pub open spec fn address_if_any(raw: Seq<char>) -> Result<Option<Seq<char>>, Seq<char>> {
    let s = text::trimmed(raw);
    if s.len() == 0 {
        Ok(None)
    } else if text::address_text(s) {
        Ok(Some(s))
    } else {
        Err("Expected address format 0x + 40 hex chars, got: "@ + s)
    }
}

pub fn normalize_optional_address(raw: &str) -> (r: Result<Option<String>, String>)
    ensures
        match r {
            Ok(v) => address_if_any(raw@) == Ok::<Option<Seq<char>>, Seq<char>>(json::text_view(v)),
            Err(message) => address_if_any(raw@) == Err::<Option<Seq<char>>, Seq<char>>(message@),
        },
{
    let s = text::trim(raw);
    if s.is_empty() {
        return Ok(None);
    }
    if !text::is_address(s) {
        let mut message = "Expected address format 0x + 40 hex chars, got: ".to_owned();
        message.append(s);
        return Err(message);
    }
    Ok(Some(s.to_owned()))
}

pub open spec fn optional_address(env: Seq<EnvVar>, key: Seq<char>) -> Result<
    Option<Seq<char>>,
    Seq<char>,
> {
    address_if_any(text_or(env, key, Seq::empty()))
}

// ---------------------------------------------------------------------------
// Reading one setting after the other
// ---------------------------------------------------------------------------

/// The first of two complaints.
#[verifier::opaque]
pub open spec fn or(first: Option<Seq<char>>, second: Option<Seq<char>>) -> Option<Seq<char>> {
    if first is Some {
        first
    } else {
        second
    }
}

pub open spec fn error<T>(r: Result<T, Seq<char>>) -> Option<Seq<char>> {
    match r {
        Ok(_) => None,
        Err(message) => Some(message),
    }
}

/// Complains unless a condition holds.
pub open spec fn unless(holds: bool, message: Seq<char>) -> Option<Seq<char>> {
    if holds {
        None
    } else {
        Some(message)
    }
}

/// Reads settings, and keeps the first complaint.
struct Reader<'a> {
    env: &'a Vec<EnvVar>,
    error: Option<String>,
}

impl<'a> Reader<'a> {
    spec fn complaint(self) -> Option<Seq<char>> {
        json::text_view(self.error)
    }

    /// The same environment, and one more complaint.
    spec fn after(self, old_self: Reader<'a>, complaint: Option<Seq<char>>) -> bool {
        &&& self.env == old_self.env
        &&& self.complaint() == or(old_self.complaint(), complaint)
    }

    fn complain(&mut self, message: String)
        ensures
            final(self).after(*old(self), Some(message@)),
    {
        reveal(or);
        if self.error.is_none() {
            self.error = Some(message);
        }
    }

    fn require(&mut self, holds: bool, message: &str)
        ensures
            final(self).after(*old(self), unless(holds, message@)),
    {
        reveal(or);
        if !holds {
            self.complain(message.to_owned());
        }
    }

    fn flag(&mut self, key: &str, fallback: bool) -> (r: bool)
        ensures
            final(self).after(*old(self), error(flag(old(self).env@, key@, fallback))),
            flag(old(self).env@, key@, fallback) matches Ok(v) ==> r == v,
    {
        reveal(or);
        match boolean_env(self.env, key, fallback) {
            Ok(v) => v,
            Err(message) => {
                self.complain(message);
                fallback
            },
        }
    }

    fn whole(&mut self, key: &str, fallback: u64) -> (r: u64)
        ensures
            final(self).after(*old(self), error(whole(old(self).env@, key@, fallback))),
            whole(old(self).env@, key@, fallback) matches Ok(v) ==> r == v,
    {
        reveal(or);
        match floor_u64_env(self.env, key, fallback) {
            Ok(v) => v,
            Err(message) => {
                self.complain(message);
                fallback
            },
        }
    }

    fn number(&mut self, key: &str, fallback: Double) -> (r: Double)
        ensures
            final(self).after(*old(self), error(number(old(self).env@, key@, fallback))),
            number(old(self).env@, key@, fallback) matches Ok(v) ==> r == v,
    {
        reveal(or);
        match number_env(self.env, key, fallback) {
            Ok(v) => v,
            Err(message) => {
                self.complain(message);
                fallback
            },
        }
    }

    fn ranged(&mut self, key: &str, fallback: Double, range: NumberRange) -> (r: Double)
        ensures
            final(self).after(*old(self), error(ranged(old(self).env@, key@, fallback, range@))),
            ranged(old(self).env@, key@, fallback, range@) matches Ok(v) ==> r == v,
    {
        reveal(or);
        match number_env_in_range(self.env, key, fallback, range) {
            Ok(v) => v,
            Err(message) => {
                self.complain(message);
                fallback
            },
        }
    }

    fn order_type(&mut self) -> (r: String)
        ensures
            final(self).after(*old(self), error(order_type(old(self).env@))),
            order_type(old(self).env@) matches Ok(v) ==> r@ == v,
    {
        reveal(or);
        match stop_loss_order_type_env(self.env) {
            Ok(v) => v,
            Err(message) => {
                self.complain(message);
                String::new()
            },
        }
    }

    fn price_source(&mut self) -> (r: LivePriceSource)
        ensures
            final(self).after(*old(self), error(price_source(old(self).env@))),
            price_source(old(self).env@) matches Ok(v) ==> r == v,
    {
        reveal(or);
        match live_price_source_env(self.env) {
            Ok(v) => v,
            Err(message) => {
                self.complain(message);
                LivePriceSource::ChainlinkPublic
            },
        }
    }

    fn signature(&mut self) -> (r: SignatureType)
        ensures
            final(self).after(*old(self), error(signature(old(self).env@))),
            signature(old(self).env@) matches Ok(v) ==> r == v,
    {
        reveal(or);
        match signature_type_env(self.env) {
            Ok(v) => v,
            Err(message) => {
                self.complain(message);
                SignatureType::SmartContractWallet
            },
        }
    }

    fn tx_mode(&mut self) -> (r: SettlementTxMode)
        ensures
            final(self).after(*old(self), error(tx_mode(old(self).env@))),
            tx_mode(old(self).env@) matches Ok(v) ==> r == v,
    {
        reveal(or);
        match settlement_tx_mode_env(self.env) {
            Ok(v) => v,
            Err(message) => {
                self.complain(message);
                SettlementTxMode::DirectEthers
            },
        }
    }

    fn optional_address(&mut self, key: &str) -> (r: Option<String>)
        ensures
            final(self).after(*old(self), error(optional_address(old(self).env@, key@))),
            optional_address(old(self).env@, key@) matches Ok(v) ==> json::text_view(r) == v,
    {
        reveal(or);
        let raw = optional_env(self.env, key, "");
        proof {
            reveal_strlit("");
            assert(""@ =~= Seq::<char>::empty());
        }
        match normalize_optional_address(raw.as_str()) {
            Ok(v) => v,
            Err(message) => {
                self.complain(message);
                None
            },
        }
    }

    fn once(&mut self, argv: &Vec<String>) -> (r: bool)
        ensures
            final(self).after(*old(self), error(once(old(self).env@, text::texts(argv@)))),
            once(old(self).env@, text::texts(argv@)) matches Ok(v) ==> r == v,
    {
        reveal(or);
        let mut i: usize = 0;
        while i < argv.len()
            invariant
                i <= argv.len(),
                *self == *old(self),
                forall|j: int| 0 <= j < i ==> (#[trigger] argv@[j])@ != "--once"@,
            decreases argv.len() - i,
        {
            if text::text_eq(argv[i].as_str(), "--once") {
                proof {
                    assert(text::texts(argv@)[i as int] == "--once"@);
                    reveal(or);
                }
                return true;
            }
            i = i + 1;
        }
        assert(!text::texts(argv@).contains("--once"@));
        self.flag("ONCE", false)
    }
}

/// Whether the bot runs once: the command line says so, or else the environment.
pub open spec fn once(env: Seq<EnvVar>, argv: Seq<Seq<char>>) -> Result<bool, Seq<char>> {
    if argv.contains("--once"@) {
        Ok(true)
    } else {
        flag(env, "ONCE"@, false)
    }
}

// ---------------------------------------------------------------------------
// The settings
// ---------------------------------------------------------------------------

/// What the environment and the command line say, setting by setting.
pub open spec fn settings_read(config: Config, env: Seq<EnvVar>, argv: Seq<Seq<char>>) -> bool {
    &&& once(env, argv) matches Ok(v) ==> config.once == v
    &&& flag(env, "DEBUG"@, false) matches Ok(v) ==> config.debug == v
    &&& whole(
        env,
        "HEARTBEAT_INTERVAL_SECONDS"@,
        15,
    ) matches Ok(v) ==> config.heartbeat_interval_sec == v
    &&& whole(env, "SILENT_WATCHDOG_SECONDS"@, 60) matches Ok(v) ==> config.silent_watchdog_sec == v
    &&& flag(env, "ENABLE_LIVE_TRADING"@, false) matches Ok(v) ==> config.enable_live_trading == v
    &&& number(env, "STAKE_USD"@, Double { bits: ONE_BITS }) matches Ok(v) ==> config.stake_usd == v
    &&& number(
        env,
        "PRICE_RANGE_MIN"@,
        Double { bits: SEVENTY_FIVE_CENT_BITS },
    ) matches Ok(v) ==> config.price_range_min == v
    &&& number(
        env,
        "PRICE_RANGE_MAX"@,
        Double { bits: NINETY_FIVE_CENT_BITS },
    ) matches Ok(v) ==> config.price_range_max == v
    &&& flag(
        env,
        "ENABLE_ENTRY_PRICE_GATE"@,
        true,
    ) matches Ok(v) ==> config.entry_price_gate_enabled == v
    &&& whole(
        env,
        "ENTRY_PRICE_MAX_RETRIES"@,
        0,
    ) matches Ok(v) ==> config.entry_price_max_retries == v
    &&& whole(
        env,
        "ENTRY_PRICE_RETRY_INTERVAL_MS"@,
        500,
    ) matches Ok(v) ==> config.entry_price_retry_interval_ms == v
    &&& number(
        env,
        "ENTRY_SLIPPAGE_PERCENT_BUY"@,
        Double { bits: ONE_AND_A_HALF_BITS },
    ) matches Ok(v) ==> config.entry_slippage_percent_buy == v
    &&& flag(
        env,
        "ENABLE_FALLBACK_GTC_LIMIT"@,
        false,
    ) matches Ok(v) ==> config.enable_fallback_gtc_limit == v
    &&& flag(env, "ENABLE_STOP_LOSS"@, false) matches Ok(v) ==> config.enable_stop_loss == v
    &&& number(
        env,
        "STOP_LOSS_PRICE_TRIGGER"@,
        Double { bits: HALF_BITS },
    ) matches Ok(v) ==> config.stop_loss_price_trigger == v
    &&& whole(
        env,
        "INTERVAL_CHECK_PRICE_TRIGGER"@,
        500,
    ) matches Ok(v) ==> config.interval_check_price_trigger_ms == v
    &&& whole(env, "RETRY_SELL"@, 3) matches Ok(v) ==> config.retry_sell == v
    &&& whole(
        env,
        "STOP_LOSS_TIMEOUT_SECONDS"@,
        300,
    ) matches Ok(v) ==> config.stop_loss_timeout_sec == v
    &&& order_type(env) matches Ok(v) ==> config.stop_loss_order_type@ == v
    &&& whole(
        env,
        "STOP_LOSS_SUBMIT_RETRY_INTERVAL_MS"@,
        500,
    ) matches Ok(v) ==> config.stop_loss_submit_retry_interval_ms == v
    &&& whole(
        env,
        "STOP_LOSS_DEADLINE_BEFORE_CLOSE_SECONDS"@,
        5,
    ) matches Ok(v) ==> config.stop_loss_deadline_before_close_sec == v
    &&& whole(
        env,
        "CHECK_BEFORE_CLOSE_SECONDS"@,
        10,
    ) matches Ok(v) ==> config.check_before_close_sec == v
    &&& whole(env, "RESOLVE_DELAY_SECONDS"@, 2) matches Ok(v) ==> config.resolve_delay_sec == v
    &&& whole(
        env,
        "IDLE_POLL_INTERVAL_MS"@,
        1000,
    ) matches Ok(v) ==> config.idle_poll_interval_ms == v
    &&& whole(
        env,
        "MARKET_POLL_INTERVAL_MS"@,
        500,
    ) matches Ok(v) ==> config.market_poll_interval_ms == v
    &&& whole(
        env,
        "MARKET_LOOKUP_MAX_WAIT_MS"@,
        12000,
    ) matches Ok(v) ==> config.market_lookup_max_wait_ms == v
    &&& whole(
        env,
        "ORDER_RETRY_INTERVAL_MS"@,
        1000,
    ) matches Ok(v) ==> config.order_retry_interval_ms == v
    &&& whole(env, "ORDER_MAX_ATTEMPTS"@, 4) matches Ok(v) ==> config.order_max_attempts == v
    &&& whole(
        env,
        "STATUS_POLL_INTERVAL_MS"@,
        1000,
    ) matches Ok(v) ==> config.status_poll_interval_ms == v
    &&& whole(
        env,
        "STATUS_POLL_GRACE_SECONDS"@,
        5,
    ) matches Ok(v) ==> config.status_poll_grace_sec == v
    &&& whole(env, "LOSS_COOLDOWN_MINUTES"@, 0) matches Ok(v) ==> config.loss_cooldown_minutes == v
    &&& whole(env, "TOTAL_LOSS_TRADES"@, 0) matches Ok(v) ==> config.total_loss_trades == v
    &&& config.polymarket_clob_url@ == text_or(
        env,
        "POLYMARKET_CLOB_URL"@,
        "https://clob.polymarket.com"@,
    )
    &&& config.polymarket_gamma_url@ == text_or(
        env,
        "POLYMARKET_GAMMA_URL"@,
        "https://gamma-api.polymarket.com"@,
    )
    &&& config.binance_base_url@ == text_or(
        env,
        "BINANCE_BASE_URL"@,
        "https://data-api.binance.vision/api/v3"@,
    )
    &&& price_source(env) matches Ok(v) ==> config.live_price_source == v
    &&& config.chainlink_btc_usd_feed_address@ == text_or(
        env,
        "CHAINLINK_BTC_USD_FEED_ADDRESS"@,
        "0xc907E116054Ad103354f2D350FD2514433D57F6f"@,
    )
    &&& whole(
        env,
        "LIVE_PRICE_MAX_STALENESS_MS"@,
        300000,
    ) matches Ok(v) ==> config.live_price_max_staleness_ms == v
    &&& config.private_key@ == private_key(env)
    &&& config.funder_address@ == funder_address(env)
    &&& signature(env) matches Ok(v) ==> config.signature_type == v
    &&& config.api_key@ == text_or(env, "POLYMARKET_API_KEY"@, ""@)
    &&& config.api_secret@ == text_or(env, "POLYMARKET_API_SECRET"@, ""@)
    &&& config.api_passphrase@ == text_or(env, "POLYMARKET_API_PASSPHRASE"@, ""@)
    &&& json::text_view(config.telegram_bot_token) == given(env, "TELEGRAM_BOT_TOKEN"@)
    &&& json::text_view(config.telegram_chat_id) == given(env, "TELEGRAM_CHAT_ID"@)
    &&& flag(
        env,
        "ENABLE_ONCHAIN_AUTO_CLAIM"@,
        true,
    ) matches Ok(v) ==> config.on_chain_auto_claim_enabled == v
    &&& tx_mode(env) matches Ok(v) ==> config.settlement_tx_mode == v
    &&& config.relayer_base_url@ == text_or(
        env,
        "RELAYER_BASE_URL"@,
        "https://relayer-v2.polymarket.com"@,
    )
    &&& json::text_view(config.relayer_api_key) == given(env, "RELAYER_API_KEY"@)
    &&& optional_address(
        env,
        "RELAYER_API_KEY_ADDRESS"@,
    ) matches Ok(v) ==> json::text_view(config.relayer_api_key_address) == v
    &&& whole(
        env,
        "RELAYER_REQUEST_TIMEOUT_MS"@,
        30000,
    ) matches Ok(v) ==> config.relayer_request_timeout_ms == v
    &&& whole(
        env,
        "RELAYER_POLL_INTERVAL_MS"@,
        2000,
    ) matches Ok(v) ==> config.relayer_poll_interval_ms == v
    &&& whole(env, "RELAYER_MAX_POLLS"@, 120) matches Ok(v) ==> config.relayer_max_polls == v
    &&& flag(
        env,
        "RELAYER_ALLOW_FALLBACK_TO_DIRECT"@,
        true,
    ) matches Ok(v) ==> config.relayer_allow_fallback_to_direct == v
    &&& whole(
        env,
        "SETTLEMENT_MAX_ATTEMPTS"@,
        3,
    ) matches Ok(v) ==> config.settlement_max_attempts == v
    &&& whole(
        env,
        "SETTLEMENT_RETRY_DELAY_MS"@,
        5000,
    ) matches Ok(v) ==> config.settlement_retry_delay_ms == v
    &&& flag(
        env,
        "ENABLE_GAMMA_RESOLUTION_FALLBACK"@,
        true,
    ) matches Ok(v) ==> config.enable_gamma_resolution_fallback == v
    &&& ranged(
        env,
        "REDEEM_GAS_LIMIT_MULTIPLIER"@,
        Double { bits: ONE_AND_THREE_TENTHS_BITS },
        one_to_five(),
    ) matches Ok(v) ==> config.redeem_gas_limit_multiplier == v
    &&& whole(
        env,
        "REDEEM_MIN_GAS_LIMIT"@,
        300000,
    ) matches Ok(v) ==> config.redeem_min_gas_limit == v
    &&& ranged(
        env,
        "REDEEM_MAX_FEE_PER_GAS_GWEI"@,
        Double { bits: HUNDRED_BITS },
        zero_to_thousand(),
    ) matches Ok(v) ==> config.redeem_max_fee_per_gas_gwei == v
    &&& ranged(
        env,
        "REDEEM_MAX_PRIORITY_FEE_PER_GAS_GWEI"@,
        Double { bits: THIRTY_BITS },
        zero_to_thousand(),
    ) matches Ok(v) ==> config.redeem_max_priority_fee_per_gas_gwei == v
    &&& whole(
        env,
        "REDEEM_INTERNAL_MAX_ATTEMPTS"@,
        3,
    ) matches Ok(v) ==> config.redeem_internal_max_attempts == v
    &&& whole(
        env,
        "REDEEM_INTERNAL_RETRY_BASE_DELAY_MS"@,
        2000,
    ) matches Ok(v) ==> config.redeem_internal_retry_base_delay_ms == v
    &&& ranged(
        env,
        "REDEEM_INTERNAL_RETRY_BACKOFF_MULTIPLIER"@,
        Double { bits: TWO_BITS },
        one_to_five(),
    ) matches Ok(v) ==> config.redeem_internal_retry_backoff_multiplier == v
    &&& whole(
        env,
        "REDEEM_TX_CONFIRM_TIMEOUT_MS"@,
        120000,
    ) matches Ok(v) ==> config.redeem_tx_confirm_timeout_ms == v
    &&& config.polygon_rpc_url@ == text_or(env, "POLYGON_RPC_URL"@, "https://polygon-rpc.com"@)
    &&& config.ctf_contract@ == text_or(
        env,
        "CTF_CONTRACT"@,
        "0x4D97DCd97eC945f40cF65F87097ACe5EA0476045"@,
    )
    &&& config.usdc_address@ == text_or(
        env,
        "USDC_E"@,
        "0x2791Bca1f2de4661ED88A30C99A7a9449Aa84174"@,
    )
}

/// The paths of the logs: the files that the environment names, resolved from the root directory.
pub open spec fn paths_resolved(config: Config, env: Seq<EnvVar>, root_dir: Seq<char>) -> bool {
    let results = text_or(env, "OUTPUT_FILE"@, "result.jsonl"@);
    let trades = text_or(env, "TRADES_OUTPUT_FILE"@, "trades.v3.jsonl"@);
    &&& paths::leads_to(config.output_path@, root_dir, results)
    &&& paths::leads_to(config.trades_output_path@, root_dir, trades)
}

/// The first setting that cannot be read.
pub open spec fn reading_error(env: Seq<EnvVar>, argv: Seq<Seq<char>>) -> Option<Seq<char>> {
    let e = or(None, error(once(env, argv)));
    let e = or(e, error(flag(env, "DEBUG"@, false)));
    let e = or(e, error(whole(env, "HEARTBEAT_INTERVAL_SECONDS"@, 15)));
    let e = or(e, error(whole(env, "SILENT_WATCHDOG_SECONDS"@, 60)));
    let e = or(e, error(flag(env, "ENABLE_LIVE_TRADING"@, false)));
    let e = or(e, error(number(env, "STAKE_USD"@, Double { bits: ONE_BITS })));
    let e = or(e, error(number(env, "PRICE_RANGE_MIN"@, Double { bits: SEVENTY_FIVE_CENT_BITS })));
    let e = or(e, error(number(env, "PRICE_RANGE_MAX"@, Double { bits: NINETY_FIVE_CENT_BITS })));
    let e = or(e, error(flag(env, "ENABLE_ENTRY_PRICE_GATE"@, true)));
    let e = or(e, error(whole(env, "ENTRY_PRICE_MAX_RETRIES"@, 0)));
    let e = or(e, error(whole(env, "ENTRY_PRICE_RETRY_INTERVAL_MS"@, 500)));
    let e = or(
        e,
        error(number(env, "ENTRY_SLIPPAGE_PERCENT_BUY"@, Double { bits: ONE_AND_A_HALF_BITS })),
    );
    let e = or(e, error(flag(env, "ENABLE_FALLBACK_GTC_LIMIT"@, false)));
    let e = or(e, error(flag(env, "ENABLE_STOP_LOSS"@, false)));
    let e = or(e, error(number(env, "STOP_LOSS_PRICE_TRIGGER"@, Double { bits: HALF_BITS })));
    let e = or(e, error(whole(env, "INTERVAL_CHECK_PRICE_TRIGGER"@, 500)));
    let e = or(e, error(whole(env, "RETRY_SELL"@, 3)));
    let e = or(e, error(whole(env, "STOP_LOSS_TIMEOUT_SECONDS"@, 300)));
    let e = or(e, error(order_type(env)));
    let e = or(e, error(whole(env, "STOP_LOSS_SUBMIT_RETRY_INTERVAL_MS"@, 500)));
    let e = or(e, error(whole(env, "STOP_LOSS_DEADLINE_BEFORE_CLOSE_SECONDS"@, 5)));
    let e = or(e, error(whole(env, "CHECK_BEFORE_CLOSE_SECONDS"@, 10)));
    let e = or(e, error(whole(env, "RESOLVE_DELAY_SECONDS"@, 2)));
    let e = or(e, error(whole(env, "IDLE_POLL_INTERVAL_MS"@, 1000)));
    let e = or(e, error(whole(env, "MARKET_POLL_INTERVAL_MS"@, 500)));
    let e = or(e, error(whole(env, "MARKET_LOOKUP_MAX_WAIT_MS"@, 12000)));
    let e = or(e, error(whole(env, "ORDER_RETRY_INTERVAL_MS"@, 1000)));
    let e = or(e, error(whole(env, "ORDER_MAX_ATTEMPTS"@, 4)));
    let e = or(e, error(whole(env, "STATUS_POLL_INTERVAL_MS"@, 1000)));
    let e = or(e, error(whole(env, "STATUS_POLL_GRACE_SECONDS"@, 5)));
    let e = or(e, error(whole(env, "LOSS_COOLDOWN_MINUTES"@, 0)));
    let e = or(e, error(whole(env, "TOTAL_LOSS_TRADES"@, 0)));
    let e = or(e, error(price_source(env)));
    let e = or(e, error(whole(env, "LIVE_PRICE_MAX_STALENESS_MS"@, 300000)));
    let e = or(e, error(signature(env)));
    let e = or(e, error(flag(env, "ENABLE_ONCHAIN_AUTO_CLAIM"@, true)));
    let e = or(e, error(tx_mode(env)));
    let e = or(e, error(optional_address(env, "RELAYER_API_KEY_ADDRESS"@)));
    let e = or(e, error(whole(env, "RELAYER_REQUEST_TIMEOUT_MS"@, 30000)));
    let e = or(e, error(whole(env, "RELAYER_POLL_INTERVAL_MS"@, 2000)));
    let e = or(e, error(whole(env, "RELAYER_MAX_POLLS"@, 120)));
    let e = or(e, error(flag(env, "RELAYER_ALLOW_FALLBACK_TO_DIRECT"@, true)));
    let e = or(e, error(whole(env, "SETTLEMENT_MAX_ATTEMPTS"@, 3)));
    let e = or(e, error(whole(env, "SETTLEMENT_RETRY_DELAY_MS"@, 5000)));
    let e = or(e, error(flag(env, "ENABLE_GAMMA_RESOLUTION_FALLBACK"@, true)));
    let e = or(
        e,
        error(
            ranged(
                env,
                "REDEEM_GAS_LIMIT_MULTIPLIER"@,
                Double { bits: ONE_AND_THREE_TENTHS_BITS },
                one_to_five(),
            ),
        ),
    );
    let e = or(e, error(whole(env, "REDEEM_MIN_GAS_LIMIT"@, 300000)));
    let e = or(
        e,
        error(
            ranged(
                env,
                "REDEEM_MAX_FEE_PER_GAS_GWEI"@,
                Double { bits: HUNDRED_BITS },
                zero_to_thousand(),
            ),
        ),
    );
    let e = or(
        e,
        error(
            ranged(
                env,
                "REDEEM_MAX_PRIORITY_FEE_PER_GAS_GWEI"@,
                Double { bits: THIRTY_BITS },
                zero_to_thousand(),
            ),
        ),
    );
    let e = or(e, error(whole(env, "REDEEM_INTERNAL_MAX_ATTEMPTS"@, 3)));
    let e = or(e, error(whole(env, "REDEEM_INTERNAL_RETRY_BASE_DELAY_MS"@, 2000)));
    let e = or(
        e,
        error(
            ranged(
                env,
                "REDEEM_INTERNAL_RETRY_BACKOFF_MULTIPLIER"@,
                Double { bits: TWO_BITS },
                one_to_five(),
            ),
        ),
    );
    let e = or(e, error(whole(env, "REDEEM_TX_CONFIRM_TIMEOUT_MS"@, 120000)));
    e
}

/// Whether a price is a share of a dollar.
pub open spec fn is_share(price: Double) -> bool {
    (Double { bits: 0 }).at_most(price) && price.below(Double { bits: ONE_BITS })
}

fn share(price: Double) -> (r: bool)
    ensures
        r == is_share(price),
{
    Double::zero().le(price) && price.lt(Double { bits: ONE_BITS })
}

/// The first setting of the trading that is out of bounds, after an earlier complaint.
pub open spec fn trading_bounds_error(config: Config, e: Option<Seq<char>>) -> Option<Seq<char>> {
    let e = or(
        e,
        unless(config.heartbeat_interval_sec != 0, "HEARTBEAT_INTERVAL_SECONDS must be > 0"@),
    );
    let e = or(e, unless(config.silent_watchdog_sec != 0, "SILENT_WATCHDOG_SECONDS must be > 0"@));
    let e = or(e, unless(!config.stake_usd.at_most(Double { bits: 0 }), "STAKE_USD must be > 0"@));
    let e = or(
        e,
        unless(is_share(config.price_range_min), "PRICE_RANGE_MIN must be between 0 and 1"@),
    );
    let e = or(
        e,
        unless(is_share(config.price_range_max), "PRICE_RANGE_MAX must be between 0 and 1"@),
    );
    let e = or(
        e,
        unless(
            !config.price_range_max.at_most(config.price_range_min),
            "PRICE_RANGE_MIN must be < PRICE_RANGE_MAX"@,
        ),
    );
    let e = or(
        e,
        unless(
            !config.entry_slippage_percent_buy.below(Double { bits: 0 }),
            "ENTRY_SLIPPAGE_PERCENT_BUY must be >= 0"@,
        ),
    );
    let e = or(
        e,
        unless(config.check_before_close_sec != 0, "CHECK_BEFORE_CLOSE_SECONDS must be > 0"@),
    );
    let e = or(e, unless(config.idle_poll_interval_ms != 0, "IDLE_POLL_INTERVAL_MS must be > 0"@));
    let e = or(
        e,
        unless(config.market_poll_interval_ms != 0, "MARKET_POLL_INTERVAL_MS must be > 0"@),
    );
    let e = or(
        e,
        unless(config.market_lookup_max_wait_ms != 0, "MARKET_LOOKUP_MAX_WAIT_MS must be > 0"@),
    );
    let e = or(
        e,
        unless(config.order_retry_interval_ms != 0, "ORDER_RETRY_INTERVAL_MS must be > 0"@),
    );
    let e = or(e, unless(config.order_max_attempts != 0, "ORDER_MAX_ATTEMPTS must be > 0"@));
    let e = or(
        e,
        unless(config.live_price_max_staleness_ms != 0, "LIVE_PRICE_MAX_STALENESS_MS must be > 0"@),
    );
    e
}

/// The first setting of the settlement that is out of bounds, after an earlier complaint.
pub open spec fn settlement_bounds_error(config: Config, e: Option<Seq<char>>) -> Option<Seq<char>> {
    let e = or(
        e,
        unless(!text::is_blank(config.polygon_rpc_url@), "POLYGON_RPC_URL must not be empty"@),
    );
    let e = or(
        e,
        unless(
            text::address_text(config.chainlink_btc_usd_feed_address@),
            "CHAINLINK_BTC_USD_FEED_ADDRESS must be a valid address"@,
        ),
    );
    let e = or(
        e,
        unless(text::address_text(config.ctf_contract@), "CTF_CONTRACT must be a valid address"@),
    );
    let e = or(
        e,
        unless(text::address_text(config.usdc_address@), "USDC_E must be a valid address"@),
    );
    let e = or(
        e,
        unless(config.redeem_min_gas_limit >= 21_000, "REDEEM_MIN_GAS_LIMIT must be >= 21000"@),
    );
    let e = or(
        e,
        unless(
            !config.redeem_max_fee_per_gas_gwei.below(config.redeem_max_priority_fee_per_gas_gwei),
            "REDEEM_MAX_PRIORITY_FEE_PER_GAS_GWEI must be <= REDEEM_MAX_FEE_PER_GAS_GWEI"@,
        ),
    );
    let e = or(e, unless(config.relayer_max_polls != 0, "RELAYER_MAX_POLLS must be > 0"@));
    let e = or(
        e,
        unless(config.relayer_request_timeout_ms != 0, "RELAYER_REQUEST_TIMEOUT_MS must be > 0"@),
    );
    e
}

/// The first setting that is missing for what is switched on, after an earlier complaint.
pub open spec fn credentials_error(config: Config, e: Option<Seq<char>>) -> Option<Seq<char>> {
    let live = config.enable_live_trading;
    let relayed = config.settlement_tx_mode == SettlementTxMode::RelayerSafe
        && config.on_chain_auto_claim_enabled;
    let e = or(
        e,
        unless(
            !live || config.private_key@.len() > 0,
            "Missing PRIVATE_KEY/POLYMARKET_PRIVATE_KEY when ENABLE_LIVE_TRADING=true"@,
        ),
    );
    let e = or(
        e,
        unless(
            !live || config.funder_address@.len() > 0,
            "Missing FUNDER_ADDRESS/POLYMARKET_FUNDER_ADDRESS/POLYMARKET_BALANCE_ADDRESS when ENABLE_LIVE_TRADING=true"@,
        ),
    );
    let e = or(
        e,
        unless(
            text::address_text(config.funder_address@) || !live && config.funder_address@.len() == 0,
            "FUNDER_ADDRESS must be a valid 0x address"@,
        ),
    );
    let e = or(
        e,
        unless(
            !live || !text::is_blank(config.api_key@),
            "POLYMARKET_API_KEY is required when ENABLE_LIVE_TRADING=true"@,
        ),
    );
    let e = or(
        e,
        unless(
            !live || !text::is_blank(config.api_secret@),
            "POLYMARKET_API_SECRET is required when ENABLE_LIVE_TRADING=true"@,
        ),
    );
    let e = or(
        e,
        unless(
            !live || !text::is_blank(config.api_passphrase@),
            "POLYMARKET_API_PASSPHRASE is required when ENABLE_LIVE_TRADING=true"@,
        ),
    );
    let e = or(
        e,
        unless(
            !relayed || config.relayer_api_key is Some,
            "RELAYER_API_KEY is required when SETTLEMENT_TX_MODE=RELAYER_SAFE"@,
        ),
    );
    let e = or(
        e,
        unless(
            !relayed || config.relayer_api_key_address is Some,
            "RELAYER_API_KEY_ADDRESS is required when SETTLEMENT_TX_MODE=RELAYER_SAFE"@,
        ),
    );
    e
}

fn read_settings(reader: &mut Reader, argv: &Vec<String>, root_dir: &str) -> (config: Config)
    requires
        old(reader).complaint() is None,
    ensures
        final(reader).env == old(reader).env,
        final(reader).complaint() == reading_error(old(reader).env@, text::texts(argv@)),
        settings_read(config, old(reader).env@, text::texts(argv@)),
        paths_resolved(config, old(reader).env@, root_dir@),
{
    let env = reader.env;
    let once = reader.once(argv);
    let debug = reader.flag("DEBUG", false);
    let heartbeat_interval_sec = reader.whole("HEARTBEAT_INTERVAL_SECONDS", 15);
    let silent_watchdog_sec = reader.whole("SILENT_WATCHDOG_SECONDS", 60);
    let enable_live_trading = reader.flag("ENABLE_LIVE_TRADING", false);
    let stake_usd = reader.number("STAKE_USD", Double { bits: ONE_BITS });
    let price_range_min = reader.number("PRICE_RANGE_MIN", Double { bits: SEVENTY_FIVE_CENT_BITS });
    let price_range_max = reader.number("PRICE_RANGE_MAX", Double { bits: NINETY_FIVE_CENT_BITS });
    let entry_price_gate_enabled = reader.flag("ENABLE_ENTRY_PRICE_GATE", true);
    let entry_price_max_retries = reader.whole("ENTRY_PRICE_MAX_RETRIES", 0);
    let entry_price_retry_interval_ms = reader.whole("ENTRY_PRICE_RETRY_INTERVAL_MS", 500);
    let entry_slippage_percent_buy = reader.number(
        "ENTRY_SLIPPAGE_PERCENT_BUY",
        Double { bits: ONE_AND_A_HALF_BITS },
    );
    let enable_fallback_gtc_limit = reader.flag("ENABLE_FALLBACK_GTC_LIMIT", false);
    let enable_stop_loss = reader.flag("ENABLE_STOP_LOSS", false);
    let stop_loss_price_trigger = reader.number(
        "STOP_LOSS_PRICE_TRIGGER",
        Double { bits: HALF_BITS },
    );
    let interval_check_price_trigger_ms = reader.whole("INTERVAL_CHECK_PRICE_TRIGGER", 500);
    let retry_sell = reader.whole("RETRY_SELL", 3);
    let stop_loss_timeout_sec = reader.whole("STOP_LOSS_TIMEOUT_SECONDS", 300);
    let stop_loss_order_type = reader.order_type();
    let stop_loss_submit_retry_interval_ms = reader.whole(
        "STOP_LOSS_SUBMIT_RETRY_INTERVAL_MS",
        500,
    );
    let stop_loss_deadline_before_close_sec = reader.whole(
        "STOP_LOSS_DEADLINE_BEFORE_CLOSE_SECONDS",
        5,
    );
    let check_before_close_sec = reader.whole("CHECK_BEFORE_CLOSE_SECONDS", 10);
    let resolve_delay_sec = reader.whole("RESOLVE_DELAY_SECONDS", 2);
    let idle_poll_interval_ms = reader.whole("IDLE_POLL_INTERVAL_MS", 1000);
    let market_poll_interval_ms = reader.whole("MARKET_POLL_INTERVAL_MS", 500);
    let market_lookup_max_wait_ms = reader.whole("MARKET_LOOKUP_MAX_WAIT_MS", 12000);
    let order_retry_interval_ms = reader.whole("ORDER_RETRY_INTERVAL_MS", 1000);
    let order_max_attempts = reader.whole("ORDER_MAX_ATTEMPTS", 4);
    let status_poll_interval_ms = reader.whole("STATUS_POLL_INTERVAL_MS", 1000);
    let status_poll_grace_sec = reader.whole("STATUS_POLL_GRACE_SECONDS", 5);
    let loss_cooldown_minutes = reader.whole("LOSS_COOLDOWN_MINUTES", 0);
    let total_loss_trades = reader.whole("TOTAL_LOSS_TRADES", 0);
    let polymarket_clob_url = optional_env(
        env,
        "POLYMARKET_CLOB_URL",
        "https://clob.polymarket.com",
    );
    let polymarket_gamma_url = optional_env(
        env,
        "POLYMARKET_GAMMA_URL",
        "https://gamma-api.polymarket.com",
    );
    let binance_base_url = optional_env(
        env,
        "BINANCE_BASE_URL",
        "https://data-api.binance.vision/api/v3",
    );
    let live_price_source = reader.price_source();
    let chainlink_btc_usd_feed_address = optional_env(
        env,
        "CHAINLINK_BTC_USD_FEED_ADDRESS",
        "0xc907E116054Ad103354f2D350FD2514433D57F6f",
    );
    let live_price_max_staleness_ms = reader.whole("LIVE_PRICE_MAX_STALENESS_MS", 300000);
    let private_key = read_private_key(env);
    let funder_address = read_funder_address(env);
    let signature_type = reader.signature();
    let api_key = optional_env(env, "POLYMARKET_API_KEY", "");
    let api_secret = optional_env(env, "POLYMARKET_API_SECRET", "");
    let api_passphrase = optional_env(env, "POLYMARKET_API_PASSPHRASE", "");
    let telegram_bot_token = given_env(env, "TELEGRAM_BOT_TOKEN");
    let telegram_chat_id = given_env(env, "TELEGRAM_CHAT_ID");
    let on_chain_auto_claim_enabled = reader.flag("ENABLE_ONCHAIN_AUTO_CLAIM", true);
    let settlement_tx_mode = reader.tx_mode();
    let relayer_base_url = optional_env(
        env,
        "RELAYER_BASE_URL",
        "https://relayer-v2.polymarket.com",
    );
    let relayer_api_key = given_env(env, "RELAYER_API_KEY");
    let relayer_api_key_address = reader.optional_address("RELAYER_API_KEY_ADDRESS");
    let relayer_request_timeout_ms = reader.whole("RELAYER_REQUEST_TIMEOUT_MS", 30000);
    let relayer_poll_interval_ms = reader.whole("RELAYER_POLL_INTERVAL_MS", 2000);
    let relayer_max_polls = reader.whole("RELAYER_MAX_POLLS", 120);
    let relayer_allow_fallback_to_direct = reader.flag("RELAYER_ALLOW_FALLBACK_TO_DIRECT", true);
    let settlement_max_attempts = reader.whole("SETTLEMENT_MAX_ATTEMPTS", 3);
    let settlement_retry_delay_ms = reader.whole("SETTLEMENT_RETRY_DELAY_MS", 5000);
    let enable_gamma_resolution_fallback = reader.flag("ENABLE_GAMMA_RESOLUTION_FALLBACK", true);
    let redeem_gas_limit_multiplier = reader.ranged(
        "REDEEM_GAS_LIMIT_MULTIPLIER",
        Double { bits: ONE_AND_THREE_TENTHS_BITS },
        from_one_to_five(),
    );
    let redeem_min_gas_limit = reader.whole("REDEEM_MIN_GAS_LIMIT", 300000);
    let redeem_max_fee_per_gas_gwei = reader.ranged(
        "REDEEM_MAX_FEE_PER_GAS_GWEI",
        Double { bits: HUNDRED_BITS },
        from_zero_to_thousand(),
    );
    let redeem_max_priority_fee_per_gas_gwei = reader.ranged(
        "REDEEM_MAX_PRIORITY_FEE_PER_GAS_GWEI",
        Double { bits: THIRTY_BITS },
        from_zero_to_thousand(),
    );
    let redeem_internal_max_attempts = reader.whole("REDEEM_INTERNAL_MAX_ATTEMPTS", 3);
    let redeem_internal_retry_base_delay_ms = reader.whole(
        "REDEEM_INTERNAL_RETRY_BASE_DELAY_MS",
        2000,
    );
    let redeem_internal_retry_backoff_multiplier = reader.ranged(
        "REDEEM_INTERNAL_RETRY_BACKOFF_MULTIPLIER",
        Double { bits: TWO_BITS },
        from_one_to_five(),
    );
    let redeem_tx_confirm_timeout_ms = reader.whole("REDEEM_TX_CONFIRM_TIMEOUT_MS", 120000);
    let polygon_rpc_url = optional_env(env, "POLYGON_RPC_URL", "https://polygon-rpc.com");
    let ctf_contract = optional_env(
        env,
        "CTF_CONTRACT",
        "0x4D97DCd97eC945f40cF65F87097ACe5EA0476045",
    );
    let usdc_address = optional_env(env, "USDC_E", "0x2791Bca1f2de4661ED88A30C99A7a9449Aa84174");
    let output_file = optional_env(env, "OUTPUT_FILE", "result.jsonl");
    let trades_output_file = optional_env(env, "TRADES_OUTPUT_FILE", "trades.v3.jsonl");
    let output_path = paths::join_path(root_dir, output_file.as_str());
    let trades_output_path = paths::join_path(root_dir, trades_output_file.as_str());
    Config {
        once,
        debug,
        heartbeat_interval_sec,
        silent_watchdog_sec,
        enable_live_trading,
        stake_usd,
        price_range_min,
        price_range_max,
        entry_price_gate_enabled,
        entry_price_max_retries,
        entry_price_retry_interval_ms,
        entry_slippage_percent_buy,
        enable_fallback_gtc_limit,
        enable_stop_loss,
        stop_loss_price_trigger,
        interval_check_price_trigger_ms,
        retry_sell,
        stop_loss_timeout_sec,
        stop_loss_order_type,
        stop_loss_submit_retry_interval_ms,
        stop_loss_deadline_before_close_sec,
        check_before_close_sec,
        resolve_delay_sec,
        idle_poll_interval_ms,
        market_poll_interval_ms,
        market_lookup_max_wait_ms,
        order_retry_interval_ms,
        order_max_attempts,
        status_poll_interval_ms,
        status_poll_grace_sec,
        loss_cooldown_minutes,
        total_loss_trades,
        polymarket_clob_url,
        polymarket_gamma_url,
        binance_base_url,
        live_price_source,
        chainlink_btc_usd_feed_address,
        live_price_max_staleness_ms,
        private_key,
        funder_address,
        signature_type,
        api_key,
        api_secret,
        api_passphrase,
        telegram_bot_token,
        telegram_chat_id,
        on_chain_auto_claim_enabled,
        settlement_tx_mode,
        relayer_base_url,
        relayer_api_key,
        relayer_api_key_address,
        relayer_request_timeout_ms,
        relayer_poll_interval_ms,
        relayer_max_polls,
        relayer_allow_fallback_to_direct,
        settlement_max_attempts,
        settlement_retry_delay_ms,
        enable_gamma_resolution_fallback,
        redeem_gas_limit_multiplier,
        redeem_min_gas_limit,
        redeem_max_fee_per_gas_gwei,
        redeem_max_priority_fee_per_gas_gwei,
        redeem_internal_max_attempts,
        redeem_internal_retry_base_delay_ms,
        redeem_internal_retry_backoff_multiplier,
        redeem_tx_confirm_timeout_ms,
        polygon_rpc_url,
        ctf_contract,
        usdc_address,
        output_path,
        trades_output_path,
    }
}

fn check_trading_bounds(reader: &mut Reader, config: &Config)
    ensures
        final(reader).env == old(reader).env,
        final(reader).complaint() == trading_bounds_error(*config, old(reader).complaint()),
{
    reader.require(config.heartbeat_interval_sec != 0, "HEARTBEAT_INTERVAL_SECONDS must be > 0");
    reader.require(config.silent_watchdog_sec != 0, "SILENT_WATCHDOG_SECONDS must be > 0");
    reader.require(!config.stake_usd.le(Double::zero()), "STAKE_USD must be > 0");
    reader.require(share(config.price_range_min), "PRICE_RANGE_MIN must be between 0 and 1");
    reader.require(share(config.price_range_max), "PRICE_RANGE_MAX must be between 0 and 1");
    reader.require(
        !config.price_range_max.le(config.price_range_min),
        "PRICE_RANGE_MIN must be < PRICE_RANGE_MAX",
    );
    reader.require(
        !config.entry_slippage_percent_buy.lt(Double::zero()),
        "ENTRY_SLIPPAGE_PERCENT_BUY must be >= 0",
    );
    reader.require(config.check_before_close_sec != 0, "CHECK_BEFORE_CLOSE_SECONDS must be > 0");
    reader.require(config.idle_poll_interval_ms != 0, "IDLE_POLL_INTERVAL_MS must be > 0");
    reader.require(config.market_poll_interval_ms != 0, "MARKET_POLL_INTERVAL_MS must be > 0");
    reader.require(config.market_lookup_max_wait_ms != 0, "MARKET_LOOKUP_MAX_WAIT_MS must be > 0");
    reader.require(config.order_retry_interval_ms != 0, "ORDER_RETRY_INTERVAL_MS must be > 0");
    reader.require(config.order_max_attempts != 0, "ORDER_MAX_ATTEMPTS must be > 0");
    reader.require(
        config.live_price_max_staleness_ms != 0,
        "LIVE_PRICE_MAX_STALENESS_MS must be > 0",
    );
}

fn check_settlement_bounds(reader: &mut Reader, config: &Config)
    ensures
        final(reader).env == old(reader).env,
        final(reader).complaint() == settlement_bounds_error(*config, old(reader).complaint()),
{
    reader.require(
        !text::blank(config.polygon_rpc_url.as_str()),
        "POLYGON_RPC_URL must not be empty",
    );
    reader.require(
        text::is_address(config.chainlink_btc_usd_feed_address.as_str()),
        "CHAINLINK_BTC_USD_FEED_ADDRESS must be a valid address",
    );
    reader.require(
        text::is_address(config.ctf_contract.as_str()),
        "CTF_CONTRACT must be a valid address",
    );
    reader.require(
        text::is_address(config.usdc_address.as_str()),
        "USDC_E must be a valid address",
    );
    reader.require(config.redeem_min_gas_limit >= 21_000, "REDEEM_MIN_GAS_LIMIT must be >= 21000");
    reader.require(
        !config.redeem_max_fee_per_gas_gwei.lt(config.redeem_max_priority_fee_per_gas_gwei),
        "REDEEM_MAX_PRIORITY_FEE_PER_GAS_GWEI must be <= REDEEM_MAX_FEE_PER_GAS_GWEI",
    );
    reader.require(config.relayer_max_polls != 0, "RELAYER_MAX_POLLS must be > 0");
    reader.require(
        config.relayer_request_timeout_ms != 0,
        "RELAYER_REQUEST_TIMEOUT_MS must be > 0",
    );
}

fn check_credentials(reader: &mut Reader, config: &Config)
    ensures
        final(reader).env == old(reader).env,
        final(reader).complaint() == credentials_error(*config, old(reader).complaint()),
{
    let live = config.enable_live_trading;
    let relayed = config.settlement_tx_mode == SettlementTxMode::RelayerSafe
        && config.on_chain_auto_claim_enabled;
    reader.require(
        !live || !config.private_key.as_str().is_empty(),
        "Missing PRIVATE_KEY/POLYMARKET_PRIVATE_KEY when ENABLE_LIVE_TRADING=true",
    );
    reader.require(
        !live || !config.funder_address.as_str().is_empty(),
        "Missing FUNDER_ADDRESS/POLYMARKET_FUNDER_ADDRESS/POLYMARKET_BALANCE_ADDRESS when ENABLE_LIVE_TRADING=true",
    );
    reader.require(
        text::is_address(config.funder_address.as_str()) || !live && config.funder_address.as_str().is_empty(),
        "FUNDER_ADDRESS must be a valid 0x address",
    );
    reader.require(
        !live || !text::blank(config.api_key.as_str()),
        "POLYMARKET_API_KEY is required when ENABLE_LIVE_TRADING=true",
    );
    reader.require(
        !live || !text::blank(config.api_secret.as_str()),
        "POLYMARKET_API_SECRET is required when ENABLE_LIVE_TRADING=true",
    );
    reader.require(
        !live || !text::blank(config.api_passphrase.as_str()),
        "POLYMARKET_API_PASSPHRASE is required when ENABLE_LIVE_TRADING=true",
    );
    reader.require(
        !relayed || config.relayer_api_key.is_some(),
        "RELAYER_API_KEY is required when SETTLEMENT_TX_MODE=RELAYER_SAFE",
    );
    reader.require(
        !relayed || config.relayer_api_key_address.is_some(),
        "RELAYER_API_KEY_ADDRESS is required when SETTLEMENT_TX_MODE=RELAYER_SAFE",
    );
}

/// What is wrong with settings that were read.
pub open spec fn settings_error(config: Config) -> Option<Seq<char>> {
    credentials_error(config, settlement_bounds_error(config, trading_bounds_error(config, None)))
}

/// Reads the settings. The first that cannot be read, is out of bounds or is missing is
/// complained of.
pub fn load_v3_config(argv: &Vec<String>, root_dir: &str, env: &Vec<EnvVar>) -> (r: Result<
    Config,
    String,
>)
    ensures
        match reading_error(env@, text::texts(argv@)) {
            Some(message) => r matches Err(m) && m@ == message,
            None => match r {
                Ok(config) => settings_read(config, env@, text::texts(argv@)) && paths_resolved(
                    config,
                    env@,
                    root_dir@,
                ) && settings_error(config) is None,
                Err(m) => exists|config: Config| #[trigger]
                    settings_read(config, env@, text::texts(argv@)) && settings_error(config)
                        == Some(m@),
            },
        },
{
    let mut reader = Reader { env, error: None };
    let config = read_settings(&mut reader, argv, root_dir);
    match reader.error {
        Some(message) => Err(message),
        None => {
            check_trading_bounds(&mut reader, &config);
            check_settlement_bounds(&mut reader, &config);
            check_credentials(&mut reader, &config);
            match reader.error {
                Some(message) => Err(message),
                None => Ok(config),
            }
        },
    }
}

/// The settings that were read decide alone whether they are accepted, and what is complained of
/// otherwise.
pub proof fn verdict_rests_on_the_environment(
    a: Config,
    b: Config,
    env: Seq<EnvVar>,
    argv: Seq<Seq<char>>,
)
    requires
        reading_error(env, argv) is None,
        settings_read(a, env, argv),
        settings_read(b, env, argv),
    ensures
        settings_error(a) == settings_error(b),
{
    reveal(or);
    assert(trading_bounds_error(a, None) == trading_bounds_error(b, None));
}

/// Settings that are accepted can be traded on: the stake is positive, the price band lies
/// between nothing and a dollar and is not empty, nothing is polled or tried without end or
/// pause, and live trading has an account to trade with.
pub proof fn accepted_settings_are_sound(config: Config)
    requires
        settings_error(config) is None,
        !config.stake_usd.nan(),
    ensures
        config.stake_usd.positive(),
        is_share(config.price_range_min),
        is_share(config.price_range_max),
        config.price_range_min.below(config.price_range_max),
        config.check_before_close_sec > 0,
        config.idle_poll_interval_ms > 0,
        config.market_poll_interval_ms > 0,
        config.market_lookup_max_wait_ms > 0,
        config.order_retry_interval_ms > 0,
        config.order_max_attempts > 0,
        config.redeem_min_gas_limit >= 21000,
        text::address_text(config.ctf_contract@),
        text::address_text(config.usdc_address@),
        config.enable_live_trading ==> config.private_key@.len() > 0 && text::address_text(
            config.funder_address@,
        ) && !text::is_blank(config.api_key@) && !text::is_blank(config.api_secret@)
            && !text::is_blank(config.api_passphrase@),
        config.settlement_tx_mode == SettlementTxMode::RelayerSafe
            && config.on_chain_auto_claim_enabled ==> config.relayer_api_key is Some
            && config.relayer_api_key_address is Some,
{
    reveal(or);
}

/// What is known of a setting is what the first variable of its name says that is not blank, without
/// the white space around it; nothing is known where there is none.
pub proof fn first_variable_that_says_anything_counts(env: Seq<EnvVar>, key: Seq<char>, i: int)
    ensures
        0 <= i < env.len() && env[i].key@ == key && text::trimmed(env[i].text@).len() > 0 && (
        forall|j: int|
            0 <= j < i ==> (#[trigger] env[j]).key@ != key || text::trimmed(env[j].text@).len()
                == 0) ==> variable(env, key) == Some(env[i]) && given(env, key) == Some(
            text::trimmed(env[i].text@),
        ),
        (forall|j: int|
            0 <= j < env.len() ==> (#[trigger] env[j]).key@ != key || text::trimmed(
                env[j].text@,
            ).len() == 0) <==> variable(env, key) is None,
        given(env, key) is Some <==> variable(env, key) is Some,
        variable(env, key) matches Some(v) ==> v.key@ == key && text::trimmed(v.text@).len() > 0
            && env.contains(v),
    decreases env.len(),
{
    if env.len() > 0 {
        let rest = env.skip(1);
        first_variable_that_says_anything_counts(rest, key, i - 1);
        assert forall|j: int| 0 <= j < rest.len() implies #[trigger] rest[j] == env[j + 1] by {}
        if variable(env, key) is None {
            assert forall|j: int| 0 <= j < env.len() implies (#[trigger] env[j]).key@ != key
                || text::trimmed(env[j].text@).len() == 0 by {
                if j > 0 {
                    assert(rest[j - 1] == env[j]);
                }
            }
        }
        if variable(env, key) is Some && !(env[0].key@ == key && !text::is_blank(env[0].text@)) {
            let v = variable(env, key)->Some_0;
            let k = choose|k: int| 0 <= k < rest.len() && rest[k] == v;
            assert(env[k + 1] == v);
        }
        if env[0].key@ == key && !text::is_blank(env[0].text@) {
            assert(env[0] == variable(env, key)->Some_0);
        }
        if 0 < i < env.len() {
            assert(rest[i - 1] == env[i]);
        }
    }
}

/// Whether a variable is a finite number that is not below zero.
pub open spec fn counts(v: EnvVar) -> bool {
    v.number is Some && v.number->Some_0.value.finite() && v.number->Some_0.value.units() >= 0
}

/// Whether a variable is a finite number.
pub open spec fn measures(v: EnvVar) -> bool {
    v.number is Some && v.number->Some_0.value.finite()
}

/// A setting in lower case that switches something on.
pub open spec fn says_yes(v: EnvVar) -> bool {
    let s = text::lowercase(text::trimmed(v.text@));
    s == "true"@ || s == "1"@
}

/// A setting in lower case that switches something off.
pub open spec fn says_no(v: EnvVar) -> bool {
    let s = text::lowercase(text::trimmed(v.text@));
    s == "false"@ || s == "0"@
}

spec fn range_is_numeric(d: Double) -> bool {
    &&& (Double { bits: 0x3ff0_0000_0000_0000 }).units() <= d.units() <= (Double {
        bits: 0x4014_0000_0000_0000,
    }).units() <==> in_range(d, one_to_five())
    &&& (Double { bits: 0 }).units() <= d.units() <= (Double {
        bits: 0x408f_4000_0000_0000,
    }).units() <==> in_range(d, zero_to_thousand())
}

proof fn lemma_ranges(d: Double)
    requires
        d.finite(),
    ensures
        range_is_numeric(d),
{
    let one = Double { bits: 0x3ff0_0000_0000_0000 };
    let five = Double { bits: 0x4014_0000_0000_0000 };
    let none = Double { bits: 0 };
    let thousand = Double { bits: 0x408f_4000_0000_0000 };
    assert(one.finite() && five.finite() && none.finite() && thousand.finite());
    crate::double::order_is_numeric(d, one);
    crate::double::order_is_numeric(five, d);
    crate::double::order_is_numeric(d, none);
    crate::double::order_is_numeric(thousand, d);
}

proof fn lemma_ranged_variable(env: Seq<EnvVar>, key: Seq<char>)
    ensures
        variable(env, key) matches Some(v) ==> (measures(v) ==> range_is_numeric(
            v.number->Some_0.value,
        )),
{
    match variable(env, key) {
        Some(v) => {
            if measures(v) {
                lemma_ranges(v.number->Some_0.value);
            }
        },
        None => {},
    }
}

proof fn lemma_count_is_read(env: Seq<EnvVar>, key: Seq<char>, fallback: u64)
    ensures
        (variable(env, key) matches Some(v) ==> counts(v)) ==> error(
            whole(env, key, fallback),
        ) is None,
{
    match variable(env, key) {
        Some(v) => {
            lemma_kinds(v);
        },
        None => {},
    }
}

proof fn lemma_amount_is_read(env: Seq<EnvVar>, key: Seq<char>, fallback: Double)
    ensures
        (variable(env, key) matches Some(v) ==> measures(v)) ==> error(
            number(env, key, fallback),
        ) is None,
{
}

proof fn lemma_switch_is_read(env: Seq<EnvVar>, key: Seq<char>, fallback: bool)
    ensures
        (variable(env, key) matches Some(v) ==> says_yes(v) || says_no(v)) ==> error(
            flag(env, key, fallback),
        ) is None,
{
}

proof fn lemma_kinds(v: EnvVar)
    ensures
        v.number is Some && v.number->Some_0.value.finite() ==> (v.number->Some_0.value.below(
            Double { bits: 0 },
        ) <==> v.number->Some_0.value.units() < 0),
{
    if v.number is Some && v.number->Some_0.value.finite() {
        assert((Double { bits: 0 }).units() == 0);
        crate::double::order_is_numeric(v.number->Some_0.value, Double { bits: 0 });
    }
}

/// The settings that are counts or times are those that the environment gives, rounded down, and have
/// their usual values where it gives none.
pub proof fn counts_are_read_from_the_environment(config: Config, env: Seq<EnvVar>, argv: Seq<Seq<char>>)
    requires
        settings_read(config, env, argv),
    ensures
        variable(env, "HEARTBEAT_INTERVAL_SECONDS"@) is None ==> config.heartbeat_interval_sec == 15,
        variable(env, "HEARTBEAT_INTERVAL_SECONDS"@) matches Some(v) ==> (counts(v) ==> config.heartbeat_interval_sec
            == v.number->Some_0.floor),
        variable(env, "SILENT_WATCHDOG_SECONDS"@) is None ==> config.silent_watchdog_sec == 60,
        variable(env, "SILENT_WATCHDOG_SECONDS"@) matches Some(v) ==> (counts(v) ==> config.silent_watchdog_sec
            == v.number->Some_0.floor),
        variable(env, "ENTRY_PRICE_MAX_RETRIES"@) is None ==> config.entry_price_max_retries == 0,
        variable(env, "ENTRY_PRICE_MAX_RETRIES"@) matches Some(v) ==> (counts(v) ==> config.entry_price_max_retries
            == v.number->Some_0.floor),
        variable(env, "ENTRY_PRICE_RETRY_INTERVAL_MS"@) is None ==> config.entry_price_retry_interval_ms == 500,
        variable(env, "ENTRY_PRICE_RETRY_INTERVAL_MS"@) matches Some(v) ==> (counts(v) ==> config.entry_price_retry_interval_ms
            == v.number->Some_0.floor),
        variable(env, "INTERVAL_CHECK_PRICE_TRIGGER"@) is None ==> config.interval_check_price_trigger_ms == 500,
        variable(env, "INTERVAL_CHECK_PRICE_TRIGGER"@) matches Some(v) ==> (counts(v) ==> config.interval_check_price_trigger_ms
            == v.number->Some_0.floor),
        variable(env, "RETRY_SELL"@) is None ==> config.retry_sell == 3,
        variable(env, "RETRY_SELL"@) matches Some(v) ==> (counts(v) ==> config.retry_sell
            == v.number->Some_0.floor),
        variable(env, "STOP_LOSS_TIMEOUT_SECONDS"@) is None ==> config.stop_loss_timeout_sec == 300,
        variable(env, "STOP_LOSS_TIMEOUT_SECONDS"@) matches Some(v) ==> (counts(v) ==> config.stop_loss_timeout_sec
            == v.number->Some_0.floor),
        variable(env, "STOP_LOSS_SUBMIT_RETRY_INTERVAL_MS"@) is None ==> config.stop_loss_submit_retry_interval_ms == 500,
        variable(env, "STOP_LOSS_SUBMIT_RETRY_INTERVAL_MS"@) matches Some(v) ==> (counts(v) ==> config.stop_loss_submit_retry_interval_ms
            == v.number->Some_0.floor),
        variable(env, "STOP_LOSS_DEADLINE_BEFORE_CLOSE_SECONDS"@) is None ==> config.stop_loss_deadline_before_close_sec == 5,
        variable(env, "STOP_LOSS_DEADLINE_BEFORE_CLOSE_SECONDS"@) matches Some(v) ==> (counts(v) ==> config.stop_loss_deadline_before_close_sec
            == v.number->Some_0.floor),
        variable(env, "CHECK_BEFORE_CLOSE_SECONDS"@) is None ==> config.check_before_close_sec == 10,
        variable(env, "CHECK_BEFORE_CLOSE_SECONDS"@) matches Some(v) ==> (counts(v) ==> config.check_before_close_sec
            == v.number->Some_0.floor),
        variable(env, "RESOLVE_DELAY_SECONDS"@) is None ==> config.resolve_delay_sec == 2,
        variable(env, "RESOLVE_DELAY_SECONDS"@) matches Some(v) ==> (counts(v) ==> config.resolve_delay_sec
            == v.number->Some_0.floor),
        variable(env, "IDLE_POLL_INTERVAL_MS"@) is None ==> config.idle_poll_interval_ms == 1000,
        variable(env, "IDLE_POLL_INTERVAL_MS"@) matches Some(v) ==> (counts(v) ==> config.idle_poll_interval_ms
            == v.number->Some_0.floor),
        variable(env, "MARKET_POLL_INTERVAL_MS"@) is None ==> config.market_poll_interval_ms == 500,
        variable(env, "MARKET_POLL_INTERVAL_MS"@) matches Some(v) ==> (counts(v) ==> config.market_poll_interval_ms
            == v.number->Some_0.floor),
        variable(env, "MARKET_LOOKUP_MAX_WAIT_MS"@) is None ==> config.market_lookup_max_wait_ms == 12000,
        variable(env, "MARKET_LOOKUP_MAX_WAIT_MS"@) matches Some(v) ==> (counts(v) ==> config.market_lookup_max_wait_ms
            == v.number->Some_0.floor),
        variable(env, "ORDER_RETRY_INTERVAL_MS"@) is None ==> config.order_retry_interval_ms == 1000,
        variable(env, "ORDER_RETRY_INTERVAL_MS"@) matches Some(v) ==> (counts(v) ==> config.order_retry_interval_ms
            == v.number->Some_0.floor),
        variable(env, "ORDER_MAX_ATTEMPTS"@) is None ==> config.order_max_attempts == 4,
        variable(env, "ORDER_MAX_ATTEMPTS"@) matches Some(v) ==> (counts(v) ==> config.order_max_attempts
            == v.number->Some_0.floor),
        variable(env, "STATUS_POLL_INTERVAL_MS"@) is None ==> config.status_poll_interval_ms == 1000,
        variable(env, "STATUS_POLL_INTERVAL_MS"@) matches Some(v) ==> (counts(v) ==> config.status_poll_interval_ms
            == v.number->Some_0.floor),
        variable(env, "STATUS_POLL_GRACE_SECONDS"@) is None ==> config.status_poll_grace_sec == 5,
        variable(env, "STATUS_POLL_GRACE_SECONDS"@) matches Some(v) ==> (counts(v) ==> config.status_poll_grace_sec
            == v.number->Some_0.floor),
        variable(env, "LOSS_COOLDOWN_MINUTES"@) is None ==> config.loss_cooldown_minutes == 0,
        variable(env, "LOSS_COOLDOWN_MINUTES"@) matches Some(v) ==> (counts(v) ==> config.loss_cooldown_minutes
            == v.number->Some_0.floor),
        variable(env, "TOTAL_LOSS_TRADES"@) is None ==> config.total_loss_trades == 0,
        variable(env, "TOTAL_LOSS_TRADES"@) matches Some(v) ==> (counts(v) ==> config.total_loss_trades
            == v.number->Some_0.floor),
        variable(env, "LIVE_PRICE_MAX_STALENESS_MS"@) is None ==> config.live_price_max_staleness_ms == 300000,
        variable(env, "LIVE_PRICE_MAX_STALENESS_MS"@) matches Some(v) ==> (counts(v) ==> config.live_price_max_staleness_ms
            == v.number->Some_0.floor),
        variable(env, "RELAYER_REQUEST_TIMEOUT_MS"@) is None ==> config.relayer_request_timeout_ms == 30000,
        variable(env, "RELAYER_REQUEST_TIMEOUT_MS"@) matches Some(v) ==> (counts(v) ==> config.relayer_request_timeout_ms
            == v.number->Some_0.floor),
        variable(env, "RELAYER_POLL_INTERVAL_MS"@) is None ==> config.relayer_poll_interval_ms == 2000,
        variable(env, "RELAYER_POLL_INTERVAL_MS"@) matches Some(v) ==> (counts(v) ==> config.relayer_poll_interval_ms
            == v.number->Some_0.floor),
        variable(env, "RELAYER_MAX_POLLS"@) is None ==> config.relayer_max_polls == 120,
        variable(env, "RELAYER_MAX_POLLS"@) matches Some(v) ==> (counts(v) ==> config.relayer_max_polls
            == v.number->Some_0.floor),
        variable(env, "SETTLEMENT_MAX_ATTEMPTS"@) is None ==> config.settlement_max_attempts == 3,
        variable(env, "SETTLEMENT_MAX_ATTEMPTS"@) matches Some(v) ==> (counts(v) ==> config.settlement_max_attempts
            == v.number->Some_0.floor),
        variable(env, "SETTLEMENT_RETRY_DELAY_MS"@) is None ==> config.settlement_retry_delay_ms == 5000,
        variable(env, "SETTLEMENT_RETRY_DELAY_MS"@) matches Some(v) ==> (counts(v) ==> config.settlement_retry_delay_ms
            == v.number->Some_0.floor),
        variable(env, "REDEEM_MIN_GAS_LIMIT"@) is None ==> config.redeem_min_gas_limit == 300000,
        variable(env, "REDEEM_MIN_GAS_LIMIT"@) matches Some(v) ==> (counts(v) ==> config.redeem_min_gas_limit
            == v.number->Some_0.floor),
        variable(env, "REDEEM_INTERNAL_MAX_ATTEMPTS"@) is None ==> config.redeem_internal_max_attempts == 3,
        variable(env, "REDEEM_INTERNAL_MAX_ATTEMPTS"@) matches Some(v) ==> (counts(v) ==> config.redeem_internal_max_attempts
            == v.number->Some_0.floor),
        variable(env, "REDEEM_INTERNAL_RETRY_BASE_DELAY_MS"@) is None ==> config.redeem_internal_retry_base_delay_ms == 2000,
        variable(env, "REDEEM_INTERNAL_RETRY_BASE_DELAY_MS"@) matches Some(v) ==> (counts(v) ==> config.redeem_internal_retry_base_delay_ms
            == v.number->Some_0.floor),
        variable(env, "REDEEM_TX_CONFIRM_TIMEOUT_MS"@) is None ==> config.redeem_tx_confirm_timeout_ms == 120000,
        variable(env, "REDEEM_TX_CONFIRM_TIMEOUT_MS"@) matches Some(v) ==> (counts(v) ==> config.redeem_tx_confirm_timeout_ms
            == v.number->Some_0.floor),
{
    reveal_strlit("true");
    reveal_strlit("1");
    reveal_strlit("false");
    reveal_strlit("0");
    assert("true"@.len() == 4);
    assert("1"@.len() == 1);
    assert("false"@.len() == 5);
    assert("0"@.len() == 1);
    assert("1"@[0] != "0"@[0]);
    assert forall|v: EnvVar| #[trigger] counts(v) implies !v.number->Some_0.value.below(
        Double { bits: 0 },
    ) by {
        lemma_kinds(v);
    }
}

/// The settings that are prices or factors are those that the environment gives, and have their usual
/// values where it gives none.
pub proof fn amounts_are_read_from_the_environment(config: Config, env: Seq<EnvVar>, argv: Seq<Seq<char>>)
    requires
        settings_read(config, env, argv),
    ensures
        variable(env, "STAKE_USD"@) is None ==> config.stake_usd == (Double {
            bits: 0x3ff0_0000_0000_0000,
        }),
        variable(env, "STAKE_USD"@) matches Some(v) ==> (measures(v) ==> config.stake_usd
            == v.number->Some_0.value),
        variable(env, "PRICE_RANGE_MIN"@) is None ==> config.price_range_min == (Double {
            bits: 0x3fe8_0000_0000_0000,
        }),
        variable(env, "PRICE_RANGE_MIN"@) matches Some(v) ==> (measures(v) ==> config.price_range_min
            == v.number->Some_0.value),
        variable(env, "PRICE_RANGE_MAX"@) is None ==> config.price_range_max == (Double {
            bits: 0x3fee_6666_6666_6666,
        }),
        variable(env, "PRICE_RANGE_MAX"@) matches Some(v) ==> (measures(v) ==> config.price_range_max
            == v.number->Some_0.value),
        variable(env, "ENTRY_SLIPPAGE_PERCENT_BUY"@) is None ==> config.entry_slippage_percent_buy == (Double {
            bits: 0x3ff8_0000_0000_0000,
        }),
        variable(env, "ENTRY_SLIPPAGE_PERCENT_BUY"@) matches Some(v) ==> (measures(v) ==> config.entry_slippage_percent_buy
            == v.number->Some_0.value),
        variable(env, "STOP_LOSS_PRICE_TRIGGER"@) is None ==> config.stop_loss_price_trigger == (Double {
            bits: 0x3fe0_0000_0000_0000,
        }),
        variable(env, "STOP_LOSS_PRICE_TRIGGER"@) matches Some(v) ==> (measures(v) ==> config.stop_loss_price_trigger
            == v.number->Some_0.value),
        variable(env, "REDEEM_GAS_LIMIT_MULTIPLIER"@) is None ==> config.redeem_gas_limit_multiplier == (Double {
            bits: 0x3ff4_cccc_cccc_cccd,
        }),
        variable(env, "REDEEM_GAS_LIMIT_MULTIPLIER"@) matches Some(v) ==> (measures(v) && (Double { bits: 0x3ff0_0000_0000_0000 }).units()
            <= v.number->Some_0.value.units() <= (Double { bits: 0x4014_0000_0000_0000 }).units()
            ==> config.redeem_gas_limit_multiplier == v.number->Some_0.value),
        variable(env, "REDEEM_MAX_FEE_PER_GAS_GWEI"@) is None ==> config.redeem_max_fee_per_gas_gwei == (Double {
            bits: 0x4059_0000_0000_0000,
        }),
        variable(env, "REDEEM_MAX_FEE_PER_GAS_GWEI"@) matches Some(v) ==> (measures(v) && (Double { bits: 0 }).units()
            <= v.number->Some_0.value.units() <= (Double { bits: 0x408f_4000_0000_0000 }).units()
            ==> config.redeem_max_fee_per_gas_gwei == v.number->Some_0.value),
        variable(env, "REDEEM_MAX_PRIORITY_FEE_PER_GAS_GWEI"@) is None ==> config.redeem_max_priority_fee_per_gas_gwei == (Double {
            bits: 0x403e_0000_0000_0000,
        }),
        variable(env, "REDEEM_MAX_PRIORITY_FEE_PER_GAS_GWEI"@) matches Some(v) ==> (measures(v) && (Double { bits: 0 }).units()
            <= v.number->Some_0.value.units() <= (Double { bits: 0x408f_4000_0000_0000 }).units()
            ==> config.redeem_max_priority_fee_per_gas_gwei == v.number->Some_0.value),
        variable(env, "REDEEM_INTERNAL_RETRY_BACKOFF_MULTIPLIER"@) is None ==> config.redeem_internal_retry_backoff_multiplier == (Double {
            bits: 0x4000_0000_0000_0000,
        }),
        variable(env, "REDEEM_INTERNAL_RETRY_BACKOFF_MULTIPLIER"@) matches Some(v) ==> (measures(v) && (Double { bits: 0x3ff0_0000_0000_0000 }).units()
            <= v.number->Some_0.value.units() <= (Double { bits: 0x4014_0000_0000_0000 }).units()
            ==> config.redeem_internal_retry_backoff_multiplier == v.number->Some_0.value),
{
    assert forall|v: EnvVar| #[trigger] measures(v) implies range_is_numeric(
        v.number->Some_0.value,
    ) by {
        lemma_ranges(v.number->Some_0.value);
    }
}

/// What can be switched on or off is on or off as the environment says, and as usual where it says
/// nothing. The command line can ask for a single run.
pub proof fn switches_are_read_from_the_environment(config: Config, env: Seq<EnvVar>, argv: Seq<Seq<char>>)
    requires
        settings_read(config, env, argv),
    ensures
        variable(env, "DEBUG"@) is None ==> !config.debug,
        variable(env, "DEBUG"@) matches Some(v) ==> (says_yes(v) ==> config.debug) && (
        says_no(v) ==> !config.debug),
        variable(env, "ENABLE_LIVE_TRADING"@) is None ==> !config.enable_live_trading,
        variable(env, "ENABLE_LIVE_TRADING"@) matches Some(v) ==> (says_yes(v) ==> config.enable_live_trading) && (
        says_no(v) ==> !config.enable_live_trading),
        variable(env, "ENABLE_ENTRY_PRICE_GATE"@) is None ==> config.entry_price_gate_enabled,
        variable(env, "ENABLE_ENTRY_PRICE_GATE"@) matches Some(v) ==> (says_yes(v) ==> config.entry_price_gate_enabled) && (
        says_no(v) ==> !config.entry_price_gate_enabled),
        variable(env, "ENABLE_FALLBACK_GTC_LIMIT"@) is None ==> !config.enable_fallback_gtc_limit,
        variable(env, "ENABLE_FALLBACK_GTC_LIMIT"@) matches Some(v) ==> (says_yes(v) ==> config.enable_fallback_gtc_limit) && (
        says_no(v) ==> !config.enable_fallback_gtc_limit),
        variable(env, "ENABLE_STOP_LOSS"@) is None ==> !config.enable_stop_loss,
        variable(env, "ENABLE_STOP_LOSS"@) matches Some(v) ==> (says_yes(v) ==> config.enable_stop_loss) && (
        says_no(v) ==> !config.enable_stop_loss),
        variable(env, "ENABLE_ONCHAIN_AUTO_CLAIM"@) is None ==> config.on_chain_auto_claim_enabled,
        variable(env, "ENABLE_ONCHAIN_AUTO_CLAIM"@) matches Some(v) ==> (says_yes(v) ==> config.on_chain_auto_claim_enabled) && (
        says_no(v) ==> !config.on_chain_auto_claim_enabled),
        variable(env, "RELAYER_ALLOW_FALLBACK_TO_DIRECT"@) is None ==> config.relayer_allow_fallback_to_direct,
        variable(env, "RELAYER_ALLOW_FALLBACK_TO_DIRECT"@) matches Some(v) ==> (says_yes(v) ==> config.relayer_allow_fallback_to_direct) && (
        says_no(v) ==> !config.relayer_allow_fallback_to_direct),
        variable(env, "ENABLE_GAMMA_RESOLUTION_FALLBACK"@) is None ==> config.enable_gamma_resolution_fallback,
        variable(env, "ENABLE_GAMMA_RESOLUTION_FALLBACK"@) matches Some(v) ==> (says_yes(v) ==> config.enable_gamma_resolution_fallback) && (
        says_no(v) ==> !config.enable_gamma_resolution_fallback),
        argv.contains("--once"@) ==> config.once,
        !argv.contains("--once"@) && variable(env, "ONCE"@) is None ==> !config.once,
        !argv.contains("--once"@) ==> (variable(env, "ONCE"@) matches Some(v) ==> (says_yes(v)
            ==> config.once) && (says_no(v) ==> !config.once)),
{
    reveal_strlit("true");
    reveal_strlit("1");
    reveal_strlit("false");
    reveal_strlit("0");
    assert("true"@.len() == 4);
    assert("1"@.len() == 1);
    assert("false"@.len() == 5);
    assert("0"@.len() == 1);
    assert("1"@[0] != "0"@[0]);
}

/// Addresses and names are those that the environment gives, without the white space around them, and
/// the usual ones where it gives none.
pub proof fn texts_are_read_from_the_environment(config: Config, env: Seq<EnvVar>, argv: Seq<Seq<char>>)
    requires
        settings_read(config, env, argv),
    ensures
        variable(env, "POLYMARKET_CLOB_URL"@) is None ==> config.polymarket_clob_url@ == "https://clob.polymarket.com"@,
        variable(env, "POLYMARKET_CLOB_URL"@) matches Some(v) ==> config.polymarket_clob_url@ == text::trimmed(v.text@),
        variable(env, "POLYMARKET_GAMMA_URL"@) is None ==> config.polymarket_gamma_url@ == "https://gamma-api.polymarket.com"@,
        variable(env, "POLYMARKET_GAMMA_URL"@) matches Some(v) ==> config.polymarket_gamma_url@ == text::trimmed(v.text@),
        variable(env, "BINANCE_BASE_URL"@) is None ==> config.binance_base_url@ == "https://data-api.binance.vision/api/v3"@,
        variable(env, "BINANCE_BASE_URL"@) matches Some(v) ==> config.binance_base_url@ == text::trimmed(v.text@),
        variable(env, "CHAINLINK_BTC_USD_FEED_ADDRESS"@) is None ==> config.chainlink_btc_usd_feed_address@ == "0xc907E116054Ad103354f2D350FD2514433D57F6f"@,
        variable(env, "CHAINLINK_BTC_USD_FEED_ADDRESS"@) matches Some(v) ==> config.chainlink_btc_usd_feed_address@ == text::trimmed(v.text@),
        variable(env, "POLYMARKET_API_KEY"@) is None ==> config.api_key@ == ""@,
        variable(env, "POLYMARKET_API_KEY"@) matches Some(v) ==> config.api_key@ == text::trimmed(v.text@),
        variable(env, "POLYMARKET_API_SECRET"@) is None ==> config.api_secret@ == ""@,
        variable(env, "POLYMARKET_API_SECRET"@) matches Some(v) ==> config.api_secret@ == text::trimmed(v.text@),
        variable(env, "POLYMARKET_API_PASSPHRASE"@) is None ==> config.api_passphrase@ == ""@,
        variable(env, "POLYMARKET_API_PASSPHRASE"@) matches Some(v) ==> config.api_passphrase@ == text::trimmed(v.text@),
        variable(env, "RELAYER_BASE_URL"@) is None ==> config.relayer_base_url@ == "https://relayer-v2.polymarket.com"@,
        variable(env, "RELAYER_BASE_URL"@) matches Some(v) ==> config.relayer_base_url@ == text::trimmed(v.text@),
        variable(env, "POLYGON_RPC_URL"@) is None ==> config.polygon_rpc_url@ == "https://polygon-rpc.com"@,
        variable(env, "POLYGON_RPC_URL"@) matches Some(v) ==> config.polygon_rpc_url@ == text::trimmed(v.text@),
        variable(env, "CTF_CONTRACT"@) is None ==> config.ctf_contract@ == "0x4D97DCd97eC945f40cF65F87097ACe5EA0476045"@,
        variable(env, "CTF_CONTRACT"@) matches Some(v) ==> config.ctf_contract@ == text::trimmed(v.text@),
        variable(env, "USDC_E"@) is None ==> config.usdc_address@ == "0x2791Bca1f2de4661ED88A30C99A7a9449Aa84174"@,
        variable(env, "USDC_E"@) matches Some(v) ==> config.usdc_address@ == text::trimmed(v.text@),
        variable(env, "TELEGRAM_BOT_TOKEN"@) is None ==> config.telegram_bot_token is None,
        variable(env, "TELEGRAM_BOT_TOKEN"@) matches Some(v) ==> config.telegram_bot_token is Some && config.telegram_bot_token->Some_0@
            == text::trimmed(v.text@),
        variable(env, "TELEGRAM_CHAT_ID"@) is None ==> config.telegram_chat_id is None,
        variable(env, "TELEGRAM_CHAT_ID"@) matches Some(v) ==> config.telegram_chat_id is Some && config.telegram_chat_id->Some_0@
            == text::trimmed(v.text@),
        variable(env, "RELAYER_API_KEY"@) is None ==> config.relayer_api_key is None,
        variable(env, "RELAYER_API_KEY"@) matches Some(v) ==> config.relayer_api_key is Some && config.relayer_api_key->Some_0@
            == text::trimmed(v.text@),
{
}

/// What is to be chosen by name is what the environment names, whatever its case, and the usual choice
/// where it names none. The kind of a signature goes by its number.
pub proof fn choices_are_read_from_the_environment(
    config: Config,
    env: Seq<EnvVar>,
    argv: Seq<Seq<char>>,
)
    requires
        settings_read(config, env, argv),
    ensures
        variable(env, "LIVE_PRICE_SOURCE"@) is None ==> config.live_price_source
            == LivePriceSource::ChainlinkPublic,
        variable(env, "LIVE_PRICE_SOURCE"@) matches Some(v) ==> (text::uppercase(
            text::trimmed(v.text@),
        ) == "BINANCE"@ ==> config.live_price_source == LivePriceSource::Binance) && (
        text::uppercase(text::trimmed(v.text@)) == "CHAINLINK_PUBLIC"@ ==> config.live_price_source
            == LivePriceSource::ChainlinkPublic),
        variable(env, "SETTLEMENT_TX_MODE"@) is None ==> config.settlement_tx_mode
            == SettlementTxMode::DirectEthers,
        variable(env, "SETTLEMENT_TX_MODE"@) matches Some(v) ==> (text::uppercase(
            text::trimmed(v.text@),
        ) == "DIRECT_ETHERS"@ ==> config.settlement_tx_mode == SettlementTxMode::DirectEthers) && (
        text::uppercase(text::trimmed(v.text@)) == "RELAYER_SAFE"@ ==> config.settlement_tx_mode
            == SettlementTxMode::RelayerSafe),
        variable(env, "STOP_LOSS_ORDER_TYPE"@) is None ==> config.stop_loss_order_type@ == "GTC"@,
        variable(env, "STOP_LOSS_ORDER_TYPE"@) matches Some(v) ==> (text::uppercase(
            text::trimmed(v.text@),
        ) == "GTC"@ ==> config.stop_loss_order_type@ == "GTC"@) && (text::uppercase(
            text::trimmed(v.text@),
        ) == "FOK"@ ==> config.stop_loss_order_type@ == "FOK"@),
        variable(env, "POLYMARKET_SIGNATURE_TYPE"@) is None ==> config.signature_type
            == SignatureType::SmartContractWallet,
        variable(env, "POLYMARKET_SIGNATURE_TYPE"@) matches Some(v) ==> (text::trimmed(v.text@)
            == "0"@ ==> config.signature_type == SignatureType::Eoa) && (text::trimmed(v.text@)
            == "1"@ ==> config.signature_type == SignatureType::Safe) && (text::trimmed(v.text@)
            == "2"@ ==> config.signature_type == SignatureType::SmartContractWallet),
        variable(env, "RELAYER_API_KEY_ADDRESS"@) is None ==> config.relayer_api_key_address is None,
        variable(env, "RELAYER_API_KEY_ADDRESS"@) matches Some(v) ==> (text::address_text(v.text@)
            ==> config.relayer_api_key_address is Some && config.relayer_api_key_address->Some_0@
            == text::trimmed(v.text@)),
{
    reveal_strlit("BINANCE");
    reveal_strlit("CHAINLINK_PUBLIC");
    reveal_strlit("DIRECT_ETHERS");
    reveal_strlit("RELAYER_SAFE");
    reveal_strlit("GTC");
    reveal_strlit("FOK");
    reveal_strlit("0");
    reveal_strlit("1");
    reveal_strlit("2");
    assert("BINANCE"@.len() == 7);
    assert("CHAINLINK_PUBLIC"@.len() == 16);
    assert("DIRECT_ETHERS"@.len() == 13);
    assert("RELAYER_SAFE"@.len() == 12);
    assert("GTC"@.len() == 3);
    assert("FOK"@.len() == 3);
    assert("0"@.len() == 1);
    assert("1"@.len() == 1);
    assert("2"@.len() == 1);
    assert("GTC"@[0] != "FOK"@[0]);
    assert("0"@[0] != "1"@[0]);
    assert("0"@[0] != "2"@[0]);
    assert("1"@[0] != "2"@[0]);
    assert(text::trimmed(Seq::<char>::empty()) =~= Seq::<char>::empty());
    match variable(env, "RELAYER_API_KEY_ADDRESS"@) {
        Some(v) => {
            text::trimming_is_done_once(v.text@);
            text::trimming_is_done_once(text::trimmed(v.text@));
        },
        None => {},
    }
}

/// The key, and the address that funds the orders, are taken from the first of their variables that
/// says anything; the key gets `0x` in front where it has none, and there is none where no variable
/// says anything.
pub proof fn account_is_read_from_the_environment(
    config: Config,
    env: Seq<EnvVar>,
    argv: Seq<Seq<char>>,
    digits: Seq<char>,
)
    requires
        settings_read(config, env, argv),
        digits.len() > 0 ==> digits[0] != '0' && !text::is_white(digits[0]) && !text::is_white(
            digits.last(),
        ),
    ensures
        ({
            let first = variable(env, "PRIVATE_KEY"@);
            let second = variable(env, "POLYMARKET_PRIVATE_KEY"@);
            let key = if first is Some {
                first
            } else {
                second
            };
            &&& key is None ==> config.private_key@.len() == 0
            &&& key matches Some(v) ==> (text::trimmed(v.text@) == "0x"@ + digits && digits.len() > 0
                ==> config.private_key@ == "0x"@ + digits)
            &&& key matches Some(v) ==> (text::trimmed(v.text@) == digits && digits.len() > 0
                ==> config.private_key@ == "0x"@ + digits)
        }),
        ({
            let first = variable(env, "FUNDER_ADDRESS"@);
            let second = variable(env, "POLYMARKET_FUNDER_ADDRESS"@);
            let third = variable(env, "POLYMARKET_BALANCE_ADDRESS"@);
            let funder = if first is Some {
                first
            } else if second is Some {
                second
            } else {
                third
            };
            &&& funder is None ==> config.funder_address@.len() == 0
            &&& funder matches Some(v) ==> config.funder_address@ == text::trimmed(v.text@)
        }),
{
    reveal_with_fuel(any_text_or, 4);
    reveal_strlit("0x");
    let keys = seq!["PRIVATE_KEY"@, "POLYMARKET_PRIVATE_KEY"@];
    assert(keys.skip(1)[0] == "POLYMARKET_PRIVATE_KEY"@);
    let funders = seq![
        "FUNDER_ADDRESS"@,
        "POLYMARKET_FUNDER_ADDRESS"@,
        "POLYMARKET_BALANCE_ADDRESS"@,
    ];
    assert(funders.skip(1)[0] == "POLYMARKET_FUNDER_ADDRESS"@);
    assert(funders.skip(1).skip(1)[0] == "POLYMARKET_BALANCE_ADDRESS"@);
    assert(text::trimmed(Seq::<char>::empty()) =~= Seq::<char>::empty());
    let raw = any_text_or(env, keys, Seq::empty());
    text::trimming_is_done_once(raw);
    assert forall|v: EnvVar| #[trigger] text::trimmed(text::trimmed(v.text@)) == text::trimmed(
        v.text@,
    ) by {
        text::trimming_is_done_once(v.text@);
    }
    let long = "0x"@ + digits;
    assert(long.subrange(0, 2) =~= "0x"@);
    if digits.len() > 0 {
        if digits.len() >= 2 {
            assert(digits.subrange(0, 2)[0] == digits[0]);
        }
        assert(!text::begins_with(digits, "0x"@));
        text::white_space_around_does_not_count(Seq::empty(), digits, Seq::empty());
        assert(Seq::<char>::empty() + digits + Seq::<char>::empty() =~= digits);
        assert(long[0] == '0' && long.last() == digits.last());
        text::white_space_around_does_not_count(Seq::empty(), long, Seq::empty());
        assert(Seq::<char>::empty() + long + Seq::<char>::empty() =~= long);
    }
}

/// An environment is taken only where every setting in it can be read: counts are finite numbers that
/// are not below zero, factors lie in their ranges, switches say yes or no, and choices name what there
/// is.
#[verifier::rlimit(60)]
pub proof fn accepted_environment_can_be_read(env: Seq<EnvVar>, argv: Seq<Seq<char>>)
    requires
        reading_error(env, argv) is None,
    ensures
        variable(env, "HEARTBEAT_INTERVAL_SECONDS"@) matches Some(v) ==> counts(v),
        variable(env, "SILENT_WATCHDOG_SECONDS"@) matches Some(v) ==> counts(v),
        variable(env, "ENTRY_PRICE_MAX_RETRIES"@) matches Some(v) ==> counts(v),
        variable(env, "ENTRY_PRICE_RETRY_INTERVAL_MS"@) matches Some(v) ==> counts(v),
        variable(env, "INTERVAL_CHECK_PRICE_TRIGGER"@) matches Some(v) ==> counts(v),
        variable(env, "RETRY_SELL"@) matches Some(v) ==> counts(v),
        variable(env, "STOP_LOSS_TIMEOUT_SECONDS"@) matches Some(v) ==> counts(v),
        variable(env, "STOP_LOSS_SUBMIT_RETRY_INTERVAL_MS"@) matches Some(v) ==> counts(v),
        variable(env, "STOP_LOSS_DEADLINE_BEFORE_CLOSE_SECONDS"@) matches Some(v) ==> counts(v),
        variable(env, "CHECK_BEFORE_CLOSE_SECONDS"@) matches Some(v) ==> counts(v),
        variable(env, "RESOLVE_DELAY_SECONDS"@) matches Some(v) ==> counts(v),
        variable(env, "IDLE_POLL_INTERVAL_MS"@) matches Some(v) ==> counts(v),
        variable(env, "MARKET_POLL_INTERVAL_MS"@) matches Some(v) ==> counts(v),
        variable(env, "MARKET_LOOKUP_MAX_WAIT_MS"@) matches Some(v) ==> counts(v),
        variable(env, "ORDER_RETRY_INTERVAL_MS"@) matches Some(v) ==> counts(v),
        variable(env, "ORDER_MAX_ATTEMPTS"@) matches Some(v) ==> counts(v),
        variable(env, "STATUS_POLL_INTERVAL_MS"@) matches Some(v) ==> counts(v),
        variable(env, "STATUS_POLL_GRACE_SECONDS"@) matches Some(v) ==> counts(v),
        variable(env, "LOSS_COOLDOWN_MINUTES"@) matches Some(v) ==> counts(v),
        variable(env, "TOTAL_LOSS_TRADES"@) matches Some(v) ==> counts(v),
        variable(env, "LIVE_PRICE_MAX_STALENESS_MS"@) matches Some(v) ==> counts(v),
        variable(env, "RELAYER_REQUEST_TIMEOUT_MS"@) matches Some(v) ==> counts(v),
        variable(env, "RELAYER_POLL_INTERVAL_MS"@) matches Some(v) ==> counts(v),
        variable(env, "RELAYER_MAX_POLLS"@) matches Some(v) ==> counts(v),
        variable(env, "SETTLEMENT_MAX_ATTEMPTS"@) matches Some(v) ==> counts(v),
        variable(env, "SETTLEMENT_RETRY_DELAY_MS"@) matches Some(v) ==> counts(v),
        variable(env, "REDEEM_MIN_GAS_LIMIT"@) matches Some(v) ==> counts(v),
        variable(env, "REDEEM_INTERNAL_MAX_ATTEMPTS"@) matches Some(v) ==> counts(v),
        variable(env, "REDEEM_INTERNAL_RETRY_BASE_DELAY_MS"@) matches Some(v) ==> counts(v),
        variable(env, "REDEEM_TX_CONFIRM_TIMEOUT_MS"@) matches Some(v) ==> counts(v),
        variable(env, "STAKE_USD"@) matches Some(v) ==> measures(v),
        variable(env, "PRICE_RANGE_MIN"@) matches Some(v) ==> measures(v),
        variable(env, "PRICE_RANGE_MAX"@) matches Some(v) ==> measures(v),
        variable(env, "ENTRY_SLIPPAGE_PERCENT_BUY"@) matches Some(v) ==> measures(v),
        variable(env, "STOP_LOSS_PRICE_TRIGGER"@) matches Some(v) ==> measures(v),
        variable(env, "REDEEM_GAS_LIMIT_MULTIPLIER"@) matches Some(v) ==> measures(v) && (Double { bits: 0x3ff0_0000_0000_0000 }).units()
            <= v.number->Some_0.value.units() <= (Double { bits: 0x4014_0000_0000_0000 }).units(),
        variable(env, "REDEEM_MAX_FEE_PER_GAS_GWEI"@) matches Some(v) ==> measures(v) && (Double { bits: 0 }).units()
            <= v.number->Some_0.value.units() <= (Double { bits: 0x408f_4000_0000_0000 }).units(),
        variable(env, "REDEEM_MAX_PRIORITY_FEE_PER_GAS_GWEI"@) matches Some(v) ==> measures(v) && (Double { bits: 0 }).units()
            <= v.number->Some_0.value.units() <= (Double { bits: 0x408f_4000_0000_0000 }).units(),
        variable(env, "REDEEM_INTERNAL_RETRY_BACKOFF_MULTIPLIER"@) matches Some(v) ==> measures(v) && (Double { bits: 0x3ff0_0000_0000_0000 }).units()
            <= v.number->Some_0.value.units() <= (Double { bits: 0x4014_0000_0000_0000 }).units(),
        variable(env, "DEBUG"@) matches Some(v) ==> says_yes(v) || says_no(v),
        variable(env, "ENABLE_LIVE_TRADING"@) matches Some(v) ==> says_yes(v) || says_no(v),
        variable(env, "ENABLE_ENTRY_PRICE_GATE"@) matches Some(v) ==> says_yes(v) || says_no(v),
        variable(env, "ENABLE_FALLBACK_GTC_LIMIT"@) matches Some(v) ==> says_yes(v) || says_no(v),
        variable(env, "ENABLE_STOP_LOSS"@) matches Some(v) ==> says_yes(v) || says_no(v),
        variable(env, "ENABLE_ONCHAIN_AUTO_CLAIM"@) matches Some(v) ==> says_yes(v) || says_no(v),
        variable(env, "RELAYER_ALLOW_FALLBACK_TO_DIRECT"@) matches Some(v) ==> says_yes(v) || says_no(v),
        variable(env, "ENABLE_GAMMA_RESOLUTION_FALLBACK"@) matches Some(v) ==> says_yes(v) || says_no(v),
        !argv.contains("--once"@) ==> (variable(env, "ONCE"@) matches Some(v) ==> says_yes(v)
            || says_no(v)),
        variable(env, "LIVE_PRICE_SOURCE"@) matches Some(v) ==> text::uppercase(text::trimmed(v.text@))
            == "BINANCE"@ || text::uppercase(text::trimmed(v.text@)) == "CHAINLINK_PUBLIC"@,
        variable(env, "SETTLEMENT_TX_MODE"@) matches Some(v) ==> text::uppercase(text::trimmed(v.text@))
            == "DIRECT_ETHERS"@ || text::uppercase(text::trimmed(v.text@)) == "RELAYER_SAFE"@,
        variable(env, "STOP_LOSS_ORDER_TYPE"@) matches Some(v) ==> text::uppercase(
            text::trimmed(v.text@),
        ) == "GTC"@ || text::uppercase(text::trimmed(v.text@)) == "FOK"@,
        variable(env, "POLYMARKET_SIGNATURE_TYPE"@) matches Some(v) ==> text::trimmed(v.text@) == "0"@
            || text::trimmed(v.text@) == "1"@ || text::trimmed(v.text@) == "2"@,
        variable(env, "RELAYER_API_KEY_ADDRESS"@) matches Some(v) ==> text::address_text(v.text@),
{
    reveal(or);
    assert forall|v: EnvVar| v.number is Some && v.number->Some_0.value.finite()
        && !v.number->Some_0.value.below(Double { bits: 0 }) implies #[trigger] counts(v) by {
        lemma_kinds(v);
    }
    lemma_ranged_variable(env, "REDEEM_GAS_LIMIT_MULTIPLIER"@);
    lemma_ranged_variable(env, "REDEEM_MAX_FEE_PER_GAS_GWEI"@);
    lemma_ranged_variable(env, "REDEEM_MAX_PRIORITY_FEE_PER_GAS_GWEI"@);
    lemma_ranged_variable(env, "REDEEM_INTERNAL_RETRY_BACKOFF_MULTIPLIER"@);
    match variable(env, "RELAYER_API_KEY_ADDRESS"@) {
        Some(v) => {
            first_variable_that_says_anything_counts(env, "RELAYER_API_KEY_ADDRESS"@, 0);
            text::trimming_is_done_once(v.text@);
            text::trimming_is_done_once(text::trimmed(v.text@));
        },
        None => {},
    }
}

/// Where every setting can be read there is nothing to complain of in reading them.
#[verifier::rlimit(60)]
pub proof fn readable_environment_is_taken(env: Seq<EnvVar>, argv: Seq<Seq<char>>)
    requires
        variable(env, "HEARTBEAT_INTERVAL_SECONDS"@) matches Some(v) ==> counts(v),
        variable(env, "SILENT_WATCHDOG_SECONDS"@) matches Some(v) ==> counts(v),
        variable(env, "ENTRY_PRICE_MAX_RETRIES"@) matches Some(v) ==> counts(v),
        variable(env, "ENTRY_PRICE_RETRY_INTERVAL_MS"@) matches Some(v) ==> counts(v),
        variable(env, "INTERVAL_CHECK_PRICE_TRIGGER"@) matches Some(v) ==> counts(v),
        variable(env, "RETRY_SELL"@) matches Some(v) ==> counts(v),
        variable(env, "STOP_LOSS_TIMEOUT_SECONDS"@) matches Some(v) ==> counts(v),
        variable(env, "STOP_LOSS_SUBMIT_RETRY_INTERVAL_MS"@) matches Some(v) ==> counts(v),
        variable(env, "STOP_LOSS_DEADLINE_BEFORE_CLOSE_SECONDS"@) matches Some(v) ==> counts(v),
        variable(env, "CHECK_BEFORE_CLOSE_SECONDS"@) matches Some(v) ==> counts(v),
        variable(env, "RESOLVE_DELAY_SECONDS"@) matches Some(v) ==> counts(v),
        variable(env, "IDLE_POLL_INTERVAL_MS"@) matches Some(v) ==> counts(v),
        variable(env, "MARKET_POLL_INTERVAL_MS"@) matches Some(v) ==> counts(v),
        variable(env, "MARKET_LOOKUP_MAX_WAIT_MS"@) matches Some(v) ==> counts(v),
        variable(env, "ORDER_RETRY_INTERVAL_MS"@) matches Some(v) ==> counts(v),
        variable(env, "ORDER_MAX_ATTEMPTS"@) matches Some(v) ==> counts(v),
        variable(env, "STATUS_POLL_INTERVAL_MS"@) matches Some(v) ==> counts(v),
        variable(env, "STATUS_POLL_GRACE_SECONDS"@) matches Some(v) ==> counts(v),
        variable(env, "LOSS_COOLDOWN_MINUTES"@) matches Some(v) ==> counts(v),
        variable(env, "TOTAL_LOSS_TRADES"@) matches Some(v) ==> counts(v),
        variable(env, "LIVE_PRICE_MAX_STALENESS_MS"@) matches Some(v) ==> counts(v),
        variable(env, "RELAYER_REQUEST_TIMEOUT_MS"@) matches Some(v) ==> counts(v),
        variable(env, "RELAYER_POLL_INTERVAL_MS"@) matches Some(v) ==> counts(v),
        variable(env, "RELAYER_MAX_POLLS"@) matches Some(v) ==> counts(v),
        variable(env, "SETTLEMENT_MAX_ATTEMPTS"@) matches Some(v) ==> counts(v),
        variable(env, "SETTLEMENT_RETRY_DELAY_MS"@) matches Some(v) ==> counts(v),
        variable(env, "REDEEM_MIN_GAS_LIMIT"@) matches Some(v) ==> counts(v),
        variable(env, "REDEEM_INTERNAL_MAX_ATTEMPTS"@) matches Some(v) ==> counts(v),
        variable(env, "REDEEM_INTERNAL_RETRY_BASE_DELAY_MS"@) matches Some(v) ==> counts(v),
        variable(env, "REDEEM_TX_CONFIRM_TIMEOUT_MS"@) matches Some(v) ==> counts(v),
        variable(env, "STAKE_USD"@) matches Some(v) ==> measures(v),
        variable(env, "PRICE_RANGE_MIN"@) matches Some(v) ==> measures(v),
        variable(env, "PRICE_RANGE_MAX"@) matches Some(v) ==> measures(v),
        variable(env, "ENTRY_SLIPPAGE_PERCENT_BUY"@) matches Some(v) ==> measures(v),
        variable(env, "STOP_LOSS_PRICE_TRIGGER"@) matches Some(v) ==> measures(v),
        variable(env, "REDEEM_GAS_LIMIT_MULTIPLIER"@) matches Some(v) ==> measures(v) && (Double { bits: 0x3ff0_0000_0000_0000 }).units()
            <= v.number->Some_0.value.units() <= (Double { bits: 0x4014_0000_0000_0000 }).units(),
        variable(env, "REDEEM_MAX_FEE_PER_GAS_GWEI"@) matches Some(v) ==> measures(v) && (Double { bits: 0 }).units()
            <= v.number->Some_0.value.units() <= (Double { bits: 0x408f_4000_0000_0000 }).units(),
        variable(env, "REDEEM_MAX_PRIORITY_FEE_PER_GAS_GWEI"@) matches Some(v) ==> measures(v) && (Double { bits: 0 }).units()
            <= v.number->Some_0.value.units() <= (Double { bits: 0x408f_4000_0000_0000 }).units(),
        variable(env, "REDEEM_INTERNAL_RETRY_BACKOFF_MULTIPLIER"@) matches Some(v) ==> measures(v) && (Double { bits: 0x3ff0_0000_0000_0000 }).units()
            <= v.number->Some_0.value.units() <= (Double { bits: 0x4014_0000_0000_0000 }).units(),
        variable(env, "DEBUG"@) matches Some(v) ==> says_yes(v) || says_no(v),
        variable(env, "ENABLE_LIVE_TRADING"@) matches Some(v) ==> says_yes(v) || says_no(v),
        variable(env, "ENABLE_ENTRY_PRICE_GATE"@) matches Some(v) ==> says_yes(v) || says_no(v),
        variable(env, "ENABLE_FALLBACK_GTC_LIMIT"@) matches Some(v) ==> says_yes(v) || says_no(v),
        variable(env, "ENABLE_STOP_LOSS"@) matches Some(v) ==> says_yes(v) || says_no(v),
        variable(env, "ENABLE_ONCHAIN_AUTO_CLAIM"@) matches Some(v) ==> says_yes(v) || says_no(v),
        variable(env, "RELAYER_ALLOW_FALLBACK_TO_DIRECT"@) matches Some(v) ==> says_yes(v) || says_no(v),
        variable(env, "ENABLE_GAMMA_RESOLUTION_FALLBACK"@) matches Some(v) ==> says_yes(v) || says_no(v),
        !argv.contains("--once"@) ==> (variable(env, "ONCE"@) matches Some(v) ==> says_yes(v)
            || says_no(v)),
        variable(env, "LIVE_PRICE_SOURCE"@) matches Some(v) ==> text::uppercase(text::trimmed(v.text@))
            == "BINANCE"@ || text::uppercase(text::trimmed(v.text@)) == "CHAINLINK_PUBLIC"@,
        variable(env, "SETTLEMENT_TX_MODE"@) matches Some(v) ==> text::uppercase(text::trimmed(v.text@))
            == "DIRECT_ETHERS"@ || text::uppercase(text::trimmed(v.text@)) == "RELAYER_SAFE"@,
        variable(env, "STOP_LOSS_ORDER_TYPE"@) matches Some(v) ==> text::uppercase(
            text::trimmed(v.text@),
        ) == "GTC"@ || text::uppercase(text::trimmed(v.text@)) == "FOK"@,
        variable(env, "POLYMARKET_SIGNATURE_TYPE"@) matches Some(v) ==> text::trimmed(v.text@) == "0"@
            || text::trimmed(v.text@) == "1"@ || text::trimmed(v.text@) == "2"@,
        variable(env, "RELAYER_API_KEY_ADDRESS"@) matches Some(v) ==> text::address_text(v.text@),
    ensures
        reading_error(env, argv) is None,
{
    reveal(or);
    lemma_count_is_read(env, "HEARTBEAT_INTERVAL_SECONDS"@, 15);
    lemma_count_is_read(env, "SILENT_WATCHDOG_SECONDS"@, 60);
    lemma_count_is_read(env, "ENTRY_PRICE_MAX_RETRIES"@, 0);
    lemma_count_is_read(env, "ENTRY_PRICE_RETRY_INTERVAL_MS"@, 500);
    lemma_count_is_read(env, "INTERVAL_CHECK_PRICE_TRIGGER"@, 500);
    lemma_count_is_read(env, "RETRY_SELL"@, 3);
    lemma_count_is_read(env, "STOP_LOSS_TIMEOUT_SECONDS"@, 300);
    lemma_count_is_read(env, "STOP_LOSS_SUBMIT_RETRY_INTERVAL_MS"@, 500);
    lemma_count_is_read(env, "STOP_LOSS_DEADLINE_BEFORE_CLOSE_SECONDS"@, 5);
    lemma_count_is_read(env, "CHECK_BEFORE_CLOSE_SECONDS"@, 10);
    lemma_count_is_read(env, "RESOLVE_DELAY_SECONDS"@, 2);
    lemma_count_is_read(env, "IDLE_POLL_INTERVAL_MS"@, 1000);
    lemma_count_is_read(env, "MARKET_POLL_INTERVAL_MS"@, 500);
    lemma_count_is_read(env, "MARKET_LOOKUP_MAX_WAIT_MS"@, 12000);
    lemma_count_is_read(env, "ORDER_RETRY_INTERVAL_MS"@, 1000);
    lemma_count_is_read(env, "ORDER_MAX_ATTEMPTS"@, 4);
    lemma_count_is_read(env, "STATUS_POLL_INTERVAL_MS"@, 1000);
    lemma_count_is_read(env, "STATUS_POLL_GRACE_SECONDS"@, 5);
    lemma_count_is_read(env, "LOSS_COOLDOWN_MINUTES"@, 0);
    lemma_count_is_read(env, "TOTAL_LOSS_TRADES"@, 0);
    lemma_count_is_read(env, "LIVE_PRICE_MAX_STALENESS_MS"@, 300000);
    lemma_count_is_read(env, "RELAYER_REQUEST_TIMEOUT_MS"@, 30000);
    lemma_count_is_read(env, "RELAYER_POLL_INTERVAL_MS"@, 2000);
    lemma_count_is_read(env, "RELAYER_MAX_POLLS"@, 120);
    lemma_count_is_read(env, "SETTLEMENT_MAX_ATTEMPTS"@, 3);
    lemma_count_is_read(env, "SETTLEMENT_RETRY_DELAY_MS"@, 5000);
    lemma_count_is_read(env, "REDEEM_MIN_GAS_LIMIT"@, 300000);
    lemma_count_is_read(env, "REDEEM_INTERNAL_MAX_ATTEMPTS"@, 3);
    lemma_count_is_read(env, "REDEEM_INTERNAL_RETRY_BASE_DELAY_MS"@, 2000);
    lemma_count_is_read(env, "REDEEM_TX_CONFIRM_TIMEOUT_MS"@, 120000);
    lemma_amount_is_read(env, "STAKE_USD"@, Double { bits: ONE_BITS });
    lemma_amount_is_read(env, "PRICE_RANGE_MIN"@, Double { bits: SEVENTY_FIVE_CENT_BITS });
    lemma_amount_is_read(env, "PRICE_RANGE_MAX"@, Double { bits: NINETY_FIVE_CENT_BITS });
    lemma_amount_is_read(env, "ENTRY_SLIPPAGE_PERCENT_BUY"@, Double { bits: ONE_AND_A_HALF_BITS });
    lemma_amount_is_read(env, "STOP_LOSS_PRICE_TRIGGER"@, Double { bits: HALF_BITS });
    lemma_ranged_variable(env, "REDEEM_GAS_LIMIT_MULTIPLIER"@);
    lemma_amount_is_read(env, "REDEEM_GAS_LIMIT_MULTIPLIER"@, Double { bits: ONE_AND_THREE_TENTHS_BITS });
    lemma_ranged_variable(env, "REDEEM_MAX_FEE_PER_GAS_GWEI"@);
    lemma_amount_is_read(env, "REDEEM_MAX_FEE_PER_GAS_GWEI"@, Double { bits: HUNDRED_BITS });
    lemma_ranged_variable(env, "REDEEM_MAX_PRIORITY_FEE_PER_GAS_GWEI"@);
    lemma_amount_is_read(env, "REDEEM_MAX_PRIORITY_FEE_PER_GAS_GWEI"@, Double { bits: THIRTY_BITS });
    lemma_ranged_variable(env, "REDEEM_INTERNAL_RETRY_BACKOFF_MULTIPLIER"@);
    lemma_amount_is_read(env, "REDEEM_INTERNAL_RETRY_BACKOFF_MULTIPLIER"@, Double { bits: TWO_BITS });
    lemma_switch_is_read(env, "DEBUG"@, false);
    lemma_switch_is_read(env, "ENABLE_LIVE_TRADING"@, false);
    lemma_switch_is_read(env, "ENABLE_ENTRY_PRICE_GATE"@, true);
    lemma_switch_is_read(env, "ENABLE_FALLBACK_GTC_LIMIT"@, false);
    lemma_switch_is_read(env, "ENABLE_STOP_LOSS"@, false);
    lemma_switch_is_read(env, "ENABLE_ONCHAIN_AUTO_CLAIM"@, true);
    lemma_switch_is_read(env, "RELAYER_ALLOW_FALLBACK_TO_DIRECT"@, true);
    lemma_switch_is_read(env, "ENABLE_GAMMA_RESOLUTION_FALLBACK"@, true);
    lemma_switch_is_read(env, "ONCE"@, false);
    assert(text::trimmed(Seq::<char>::empty()) =~= Seq::<char>::empty());
    match variable(env, "RELAYER_API_KEY_ADDRESS"@) {
        Some(v) => {
            text::trimming_is_done_once(v.text@);
            text::trimming_is_done_once(text::trimmed(v.text@));
        },
        None => {},
    }
}

/// Settings are refused exactly where one of them is out of bounds or missing, and the first such one
/// is complained of: every setting that is complained of is wrong, and all that are looked at before
/// it are right.
#[verifier::rlimit(60)]
pub proof fn first_setting_out_of_bounds_is_complained_of(config: Config)
    requires
        config.stake_usd.finite(),
        config.price_range_min.finite(),
        config.price_range_max.finite(),
        config.entry_slippage_percent_buy.finite(),
        config.redeem_max_fee_per_gas_gwei.finite(),
        config.redeem_max_priority_fee_per_gas_gwei.finite(),
    ensures
        ({
            let live = config.enable_live_trading;
            let relayed = config.settlement_tx_mode == SettlementTxMode::RelayerSafe
                && config.on_chain_auto_claim_enabled;
            let complaint = settings_error(config);
            let ok0 = config.heartbeat_interval_sec > 0;
            let ok1 = ok0 && config.silent_watchdog_sec > 0;
            let ok2 = ok1 && config.stake_usd.units() > 0;
            let ok3 = ok2 && 0 <= config.price_range_min.units() < (Double { bits: 0x3ff0_0000_0000_0000 }).units();
            let ok4 = ok3 && 0 <= config.price_range_max.units() < (Double { bits: 0x3ff0_0000_0000_0000 }).units();
            let ok5 = ok4 && config.price_range_min.units() < config.price_range_max.units();
            let ok6 = ok5 && config.entry_slippage_percent_buy.units() >= 0;
            let ok7 = ok6 && config.check_before_close_sec > 0;
            let ok8 = ok7 && config.idle_poll_interval_ms > 0;
            let ok9 = ok8 && config.market_poll_interval_ms > 0;
            let ok10 = ok9 && config.market_lookup_max_wait_ms > 0;
            let ok11 = ok10 && config.order_retry_interval_ms > 0;
            let ok12 = ok11 && config.order_max_attempts > 0;
            let ok13 = ok12 && config.live_price_max_staleness_ms > 0;
            let ok14 = ok13 && text::trimmed(config.polygon_rpc_url@).len() > 0;
            let ok15 = ok14 && text::address_text(config.chainlink_btc_usd_feed_address@);
            let ok16 = ok15 && text::address_text(config.ctf_contract@);
            let ok17 = ok16 && text::address_text(config.usdc_address@);
            let ok18 = ok17 && config.redeem_min_gas_limit >= 21_000;
            let ok19 = ok18 && config.redeem_max_priority_fee_per_gas_gwei.units()
                <= config.redeem_max_fee_per_gas_gwei.units();
            let ok20 = ok19 && config.relayer_max_polls > 0;
            let ok21 = ok20 && config.relayer_request_timeout_ms > 0;
            let ok22 = ok21 && (live ==> config.private_key@.len() > 0);
            let ok23 = ok22 && (live ==> config.funder_address@.len() > 0);
            let ok24 = ok23 && (live || config.funder_address@.len() > 0 ==> text::address_text(config.funder_address@));
            let ok25 = ok24 && (live ==> text::trimmed(config.api_key@).len() > 0);
            let ok26 = ok25 && (live ==> text::trimmed(config.api_secret@).len() > 0);
            let ok27 = ok26 && (live ==> text::trimmed(config.api_passphrase@).len() > 0);
            let ok28 = ok27 && (relayed ==> config.relayer_api_key is Some);
            let ok29 = ok28 && (relayed ==> config.relayer_api_key_address is Some);
            &&& complaint is None <==> ok29
            &&& !ok0 ==> complaint == Some(
                "HEARTBEAT_INTERVAL_SECONDS must be > 0"@,
            )
            &&& ok0 && !ok1 ==> complaint == Some(
                "SILENT_WATCHDOG_SECONDS must be > 0"@,
            )
            &&& ok1 && !ok2 ==> complaint == Some(
                "STAKE_USD must be > 0"@,
            )
            &&& ok2 && !ok3 ==> complaint == Some(
                "PRICE_RANGE_MIN must be between 0 and 1"@,
            )
            &&& ok3 && !ok4 ==> complaint == Some(
                "PRICE_RANGE_MAX must be between 0 and 1"@,
            )
            &&& ok4 && !ok5 ==> complaint == Some(
                "PRICE_RANGE_MIN must be < PRICE_RANGE_MAX"@,
            )
            &&& ok5 && !ok6 ==> complaint == Some(
                "ENTRY_SLIPPAGE_PERCENT_BUY must be >= 0"@,
            )
            &&& ok6 && !ok7 ==> complaint == Some(
                "CHECK_BEFORE_CLOSE_SECONDS must be > 0"@,
            )
            &&& ok7 && !ok8 ==> complaint == Some(
                "IDLE_POLL_INTERVAL_MS must be > 0"@,
            )
            &&& ok8 && !ok9 ==> complaint == Some(
                "MARKET_POLL_INTERVAL_MS must be > 0"@,
            )
            &&& ok9 && !ok10 ==> complaint == Some(
                "MARKET_LOOKUP_MAX_WAIT_MS must be > 0"@,
            )
            &&& ok10 && !ok11 ==> complaint == Some(
                "ORDER_RETRY_INTERVAL_MS must be > 0"@,
            )
            &&& ok11 && !ok12 ==> complaint == Some(
                "ORDER_MAX_ATTEMPTS must be > 0"@,
            )
            &&& ok12 && !ok13 ==> complaint == Some(
                "LIVE_PRICE_MAX_STALENESS_MS must be > 0"@,
            )
            &&& ok13 && !ok14 ==> complaint == Some(
                "POLYGON_RPC_URL must not be empty"@,
            )
            &&& ok14 && !ok15 ==> complaint == Some(
                "CHAINLINK_BTC_USD_FEED_ADDRESS must be a valid address"@,
            )
            &&& ok15 && !ok16 ==> complaint == Some(
                "CTF_CONTRACT must be a valid address"@,
            )
            &&& ok16 && !ok17 ==> complaint == Some(
                "USDC_E must be a valid address"@,
            )
            &&& ok17 && !ok18 ==> complaint == Some(
                "REDEEM_MIN_GAS_LIMIT must be >= 21000"@,
            )
            &&& ok18 && !ok19 ==> complaint == Some(
                "REDEEM_MAX_PRIORITY_FEE_PER_GAS_GWEI must be <= REDEEM_MAX_FEE_PER_GAS_GWEI"@,
            )
            &&& ok19 && !ok20 ==> complaint == Some(
                "RELAYER_MAX_POLLS must be > 0"@,
            )
            &&& ok20 && !ok21 ==> complaint == Some(
                "RELAYER_REQUEST_TIMEOUT_MS must be > 0"@,
            )
            &&& ok21 && !ok22 ==> complaint == Some(
                "Missing PRIVATE_KEY/POLYMARKET_PRIVATE_KEY when ENABLE_LIVE_TRADING=true"@,
            )
            &&& ok22 && !ok23 ==> complaint == Some(
                "Missing FUNDER_ADDRESS/POLYMARKET_FUNDER_ADDRESS/POLYMARKET_BALANCE_ADDRESS when ENABLE_LIVE_TRADING=true"@,
            )
            &&& ok23 && !ok24 ==> complaint == Some(
                "FUNDER_ADDRESS must be a valid 0x address"@,
            )
            &&& ok24 && !ok25 ==> complaint == Some(
                "POLYMARKET_API_KEY is required when ENABLE_LIVE_TRADING=true"@,
            )
            &&& ok25 && !ok26 ==> complaint == Some(
                "POLYMARKET_API_SECRET is required when ENABLE_LIVE_TRADING=true"@,
            )
            &&& ok26 && !ok27 ==> complaint == Some(
                "POLYMARKET_API_PASSPHRASE is required when ENABLE_LIVE_TRADING=true"@,
            )
            &&& ok27 && !ok28 ==> complaint == Some(
                "RELAYER_API_KEY is required when SETTLEMENT_TX_MODE=RELAYER_SAFE"@,
            )
            &&& ok28 && !ok29 ==> complaint == Some(
                "RELAYER_API_KEY_ADDRESS is required when SETTLEMENT_TX_MODE=RELAYER_SAFE"@,
            )
        }),
{
    reveal(or);
    let none = Double { bits: 0 };
    let one = Double { bits: 0x3ff0_0000_0000_0000 };
    assert(none.units() == 0);
    assert(one.finite());
    crate::double::order_is_numeric(config.stake_usd, none);
    crate::double::order_is_numeric(none, config.price_range_min);
    crate::double::order_is_numeric(none, config.price_range_max);
    crate::double::order_is_numeric(config.price_range_min, one);
    crate::double::order_is_numeric(config.price_range_max, one);
    crate::double::order_is_numeric(config.price_range_max, config.price_range_min);
    crate::double::order_is_numeric(config.entry_slippage_percent_buy, none);
    crate::double::order_is_numeric(
        config.redeem_max_fee_per_gas_gwei,
        config.redeem_max_priority_fee_per_gas_gwei,
    );
}

/// The logs lie where the environment says, and else in their usual files, below the root directory.
pub proof fn logs_lie_below_the_root(config: Config, env: Seq<EnvVar>, root_dir: Seq<char>)
    requires
        paths_resolved(config, env, root_dir),
        !paths::is_verbatim(root_dir),
    ensures
        ({
            let results = if variable(env, "OUTPUT_FILE"@) is Some {
                text::trimmed(variable(env, "OUTPUT_FILE"@)->Some_0.text@)
            } else {
                "result.jsonl"@
            };
            let trades = if variable(env, "TRADES_OUTPUT_FILE"@) is Some {
                text::trimmed(variable(env, "TRADES_OUTPUT_FILE"@)->Some_0.text@)
            } else {
                "trades.v3.jsonl"@
            };
            &&& paths::is_relative(results) ==> root_dir.is_prefix_of(config.output_path@)
                && results.is_suffix_of(config.output_path@)
            &&& paths::is_relative(trades) ==> root_dir.is_prefix_of(config.trades_output_path@)
                && trades.is_suffix_of(config.trades_output_path@)
        }),
{
    let results = text_or(env, "OUTPUT_FILE"@, "result.jsonl"@);
    let trades = text_or(env, "TRADES_OUTPUT_FILE"@, "trades.v3.jsonl"@);
    if paths::is_relative(results) {
        paths::resolved_path_is_below_its_root(config.output_path@, root_dir, results);
    }
    if paths::is_relative(trades) {
        paths::resolved_path_is_below_its_root(config.trades_output_path@, root_dir, trades);
    }
}

/// A setting is handed over exactly where it can be read, and is what was read; otherwise the complaint
/// is.
pub proof fn setting_is_handed_over_as_it_was_read<T>(r: Result<T, String>, s: Result<T, Seq<char>>)
    requires
        agrees(r, s),
    ensures
        r is Ok <==> s is Ok,
        r matches Ok(v) ==> v == s->Ok_0,
        r matches Err(message) ==> message@ == s->Err_0,
{
}

} // verus!

//! What a trade came to, and the claim of what it won.
use vstd::prelude::*;
use crate::data::market_discovery::GammaResolutionProbe;
use crate::double::Double;
use crate::execution::client;
use crate::json;
use crate::table::Table;
use crate::text;
use crate::types::{
    ClaimProcessingResult, Config, ExecutionResult, MarketResolutionSource, MarketSide, TradeResult,
};
use crate::uint;
use crate::uint::Uint256;

verus! {

// ---------------------------------------------------------------------------
// Profit and loss
// ---------------------------------------------------------------------------

#[derive(Clone, Copy)]
pub struct TradePnlResult {
    pub outcome: TradeResult,
    pub redeemed_usd: Double,
    pub pnl_usd: Double,
}

/// What a trade pays out if it wins: a dollar for each share that was filled.
pub open spec fn payout(execution: ExecutionResult) -> Double {
    execution.filled_size.or_zero()
}

pub fn redeemable_usd(execution: &ExecutionResult) -> (r: Double)
    ensures
        r == payout(*execution),
{
    execution.filled_size.at_least_zero()
}

/// What a trade came to. `payout_less_spent` is what the payout leaves over the cost.
pub open spec fn trade_pnl(
    side: MarketSide,
    execution: ExecutionResult,
    resolved_outcome: MarketSide,
    payout_less_spent: Double,
) -> TradePnlResult {
    if side == resolved_outcome {
        TradePnlResult {
            outcome: TradeResult::Win,
            redeemed_usd: payout(execution),
            pnl_usd: payout_less_spent,
        }
    } else {
        TradePnlResult {
            outcome: TradeResult::Loss,
            redeemed_usd: Double { bits: 0 },
            pnl_usd: execution.spent_usd.opposite(),
        }
    }
}

pub fn compute_trade_pnl(
    side: MarketSide,
    execution: &ExecutionResult,
    resolved_outcome: MarketSide,
    payout_less_spent: Double,
) -> (r: TradePnlResult)
    ensures
        r == trade_pnl(side, *execution, resolved_outcome, payout_less_spent),
{
    if side == resolved_outcome {
        TradePnlResult {
            outcome: TradeResult::Win,
            redeemed_usd: execution.filled_size.at_least_zero(),
            pnl_usd: payout_less_spent,
        }
    } else {
        TradePnlResult {
            outcome: TradeResult::Loss,
            redeemed_usd: Double::zero(),
            pnl_usd: execution.spent_usd.negated(),
        }
    }
}

/// What a trade came to rests on what was filled and spent, and on nothing else that is known of
/// its order: a lost trade loses what was spent, and a won one pays out the filled size.
pub proof fn pnl_rests_on_the_fill(
    side: MarketSide,
    a: ExecutionResult,
    b: ExecutionResult,
    resolved_outcome: MarketSide,
    payout_less_spent: Double,
)
    requires
        a.filled_size == b.filled_size,
        a.spent_usd == b.spent_usd,
    ensures
        trade_pnl(side, a, resolved_outcome, payout_less_spent) == trade_pnl(
            side,
            b,
            resolved_outcome,
            payout_less_spent,
        ),
        side == resolved_outcome ==> trade_pnl(
            side,
            a,
            resolved_outcome,
            payout_less_spent,
        ).redeemed_usd == a.filled_size.or_zero(),
        side != resolved_outcome ==> trade_pnl(
            side,
            a,
            resolved_outcome,
            payout_less_spent,
        ).pnl_usd.key() == -a.spent_usd.key(),
{
    crate::double::negation_is_an_involution(a.spent_usd);
}

// ---------------------------------------------------------------------------
// Identifiers
// ---------------------------------------------------------------------------

/// What is said of a text that is no address.
pub open spec fn bad_address(label: Seq<char>, value: Seq<char>) -> Seq<char> {
    "Invalid "@ + label + ": "@ + text::trimmed(value)
}

/// The address that a text stands for, written as `0x` and digits in lower case.
pub open spec fn address_of(value: Seq<char>) -> Option<Seq<char>> {
    uint::fixed_hex(text::trimmed(value), 40)
}

pub fn parse_address(label: &str, value: &str) -> (r: Result<String, String>)
    ensures
        match r {
            Ok(a) => address_of(value@) == Some(a@),
            Err(message) => address_of(value@) is None && message@ == bad_address(label@, value@),
        },
{
    let s = text::trim(value);
    match uint::address_from_str(s) {
        Ok(a) => Ok(a),
        Err(_) => {
            let mut message = "Invalid ".to_owned();
            message.append(label);
            message.append(": ");
            message.append(s);
            Err(message)
        },
    }
}

/// The condition id that a text stands for, written as `0x` and digits in lower case.
pub open spec fn condition_of(value: Seq<char>) -> Option<Seq<char>> {
    uint::fixed_hex(text::trimmed(value), 64)
}

pub fn parse_condition_id(condition_id: &str) -> (r: Result<String, String>)
    ensures
        match r {
            Ok(h) => condition_of(condition_id@) == Some(h@),
            Err(message) => condition_of(condition_id@) is None && message@
                == "Invalid conditionId: "@ + text::trimmed(condition_id@),
        },
{
    let s = text::trim(condition_id);
    match uint::hash_from_str(s) {
        Some(h) => Ok(h),
        None => {
            let mut message = "Invalid conditionId: ".to_owned();
            message.append(s);
            Err(message)
        },
    }
}

/// The token that a text names, or what is wrong with it.
pub open spec fn token_of(token_id: Seq<char>) -> Result<nat, Seq<char>> {
    let s = text::trimmed(token_id);
    if s.len() == 0 {
        Err("empty token id"@)
    } else if text::begins_with(s, "0x"@) {
        let hex = uint::without_0x(s.skip("0x"@.len() as int));
        if hex.len() <= 64 && uint::all_hex(hex) {
            Ok(uint::hex_number(hex))
        } else {
            Err("Invalid hex token id: "@ + s)
        }
    } else if text::all_digits(s) && text::number_of(s) < uint::limit() {
        Ok(text::number_of(s))
    } else {
        Err("Invalid decimal token id: "@ + s)
    }
}

pub fn parse_token_id(token_id: &str) -> (r: Result<Uint256, String>)
    ensures
        match r {
            Ok(n) => token_of(token_id@) == Ok::<nat, Seq<char>>(n@),
            Err(message) => token_of(token_id@) == Err::<nat, Seq<char>>(message@),
        },
{
    let s = text::trim(token_id);
    if s.is_empty() {
        return Err("empty token id".to_owned());
    }
    match text::strip_prefix(s, "0x") {
        Some(hex) => match uint::u256_from_hex_str(hex.as_str()) {
            Ok(n) => Ok(n),
            Err(_) => {
                let mut message = "Invalid hex token id: ".to_owned();
                message.append(s);
                Err(message)
            },
        },
        None => match uint::u256_from_dec_str(s) {
            Ok(n) => {
                proof {
                    uint::words_are_unique(n, n);
                }
                Ok(n)
            },
            Err(_) => {
                let mut message = "Invalid decimal token id: ".to_owned();
                message.append(s);
                Err(message)
            },
        },
    }
}

// ---------------------------------------------------------------------------
// Errors of a redemption
// ---------------------------------------------------------------------------

/// The class of an error by its message in lower case, and whether it is worth another try.
pub open spec fn redeem_class(lower: Seq<char>) -> (Seq<char>, bool) {
    if text::contains(lower, "relayer"@) {
        ("RELAYER_ERROR: "@, true)
    } else if text::contains(lower, "out of gas"@) || text::contains(lower, "gas"@) {
        ("OUT_OF_GAS: "@, true)
    } else if text::contains(lower, "timeout"@) {
        ("RPC_TIMEOUT: "@, true)
    } else if text::contains(lower, "network"@) || text::contains(
        lower,
        "temporarily unavailable"@,
    ) {
        ("NETWORK_ERROR: "@, true)
    } else if text::contains(lower, "nonce"@) {
        ("NONCE_ERROR: "@, true)
    } else if text::contains(lower, "balance"@) || text::contains(lower, "insufficient"@) {
        ("INSUFFICIENT_BALANCE: "@, false)
    } else if text::contains(lower, "reverted"@) {
        ("TX_REVERTED: "@, true)
    } else {
        (Seq::empty(), false)
    }
}

/// Classifies an error by its message in lower case.
pub fn classify_lower_case(message: &str, lower: &str) -> (r: (String, bool))
    ensures
        r.0@ == redeem_class(lower@).0 + message@,
        r.1 == redeem_class(lower@).1,
{
    let (prefix, retryable) = if text::has(lower, "relayer") {
        ("RELAYER_ERROR: ", true)
    } else if text::has(lower, "out of gas") || text::has(lower, "gas") {
        ("OUT_OF_GAS: ", true)
    } else if text::has(lower, "timeout") {
        ("RPC_TIMEOUT: ", true)
    } else if text::has(lower, "network") || text::has(lower, "temporarily unavailable") {
        ("NETWORK_ERROR: ", true)
    } else if text::has(lower, "nonce") {
        ("NONCE_ERROR: ", true)
    } else if text::has(lower, "balance") || text::has(lower, "insufficient") {
        ("INSUFFICIENT_BALANCE: ", false)
    } else if text::has(lower, "reverted") {
        ("TX_REVERTED: ", true)
    } else {
        let plain = message.to_owned();
        assert(plain@ =~= Seq::<char>::empty() + message@);
        return (plain, false);
    };
    let mut out = prefix.to_owned();
    out.append(message);
    (out, retryable)
}

/// An error with its class in front, and whether it is worth another try.
pub open spec fn classified(message: Seq<char>) -> (Seq<char>, bool) {
    let (prefix, retryable) = redeem_class(text::lowercase(message));
    (prefix + message, retryable)
}

pub fn classify_redeem_error(message: &str) -> (r: (String, bool))
    ensures
        (r.0@, r.1) == classified(message@),
{
    let lower = text::lower(message);
    classify_lower_case(message, lower.as_str())
}

// ---------------------------------------------------------------------------
// Gas
// ---------------------------------------------------------------------------

/// The least gas that a redemption is given.
pub open spec fn min_gas(config: Config) -> nat {
    if config.redeem_min_gas_limit < 21000 {
        21000
    } else {
        config.redeem_min_gas_limit as nat
    }
}

/// An estimate with so many percent of it, rounded up.
pub open spec fn buffered(estimate: nat, percent: u64) -> nat {
    ((estimate * percent as nat + 99) / 100) as nat
}

/// The gas that a redemption is given after an estimate.
pub open spec fn gas_with_margin(config: Config, estimate: nat, percent: u64) -> nat {
    if buffered(estimate, percent) < min_gas(config) {
        min_gas(config)
    } else {
        buffered(estimate, percent)
    }
}

/// The gas that a redemption is given: the estimate with its margin, or the least there is. There
/// is none where the estimate with its margin has more than 256 bits.
pub fn redeem_gas_limit(config: &Config, estimate: Option<Uint256>, percent: u64) -> (r: Option<
    Uint256,
>)
    ensures
        match estimate {
            None => r matches Some(gas) && gas@ == min_gas(*config),
            Some(e) => match r {
                Some(gas) => e@ * percent + 99 < uint::limit() && gas@ == gas_with_margin(
                    *config,
                    e@,
                    percent,
                ),
                None => e@ * percent + 99 >= uint::limit(),
            },
        },
{
    let least: u64 = if config.redeem_min_gas_limit < 21000 {
        21000
    } else {
        config.redeem_min_gas_limit
    };
    let floor = Uint256::from_u64(least);
    let e = match estimate {
        Some(e) => e,
        None => {
            return Some(floor);
        },
    };
    let product = match uint::u256_checked_mul(e, Uint256::from_u64(percent)) {
        Some(p) => p,
        None => {
            return None;
        },
    };
    let sum = match uint::u256_checked_add(product, Uint256::from_u64(99)) {
        Some(s) => s,
        None => {
            return None;
        },
    };
    let hundred = Uint256::from_u64(100);
    match uint::u256_checked_div(sum, hundred) {
        Some(gas) => if gas.lt(floor) {
            Some(floor)
        } else {
            Some(gas)
        },
        None => None,
    }
}

/// A redemption is never given less gas than the settings ask for, nor less than its estimate
/// where the margin takes nothing off it.
pub proof fn gas_covers_floor_and_estimate(config: Config, estimate: nat, percent: u64)
    ensures
        gas_with_margin(config, estimate, percent) >= min_gas(config) >= 21000,
        percent >= 100 ==> gas_with_margin(config, estimate, percent) >= estimate,
{
    if percent >= 100 {
        assert(estimate * percent as nat >= estimate * 100) by (nonlinear_arith)
            requires
                percent >= 100,
        ;
    }
}

/// A price in gwei, written with nine decimals, in wei.
pub fn gwei_to_wei(formatted: &str) -> (r: Result<Uint256, String>)
    ensures
        match r {
            Ok(n) => uint::units_in_reach(formatted@, 9) && (uint::parsed_units(
                formatted@,
                9,
            ) matches Ok(pair) && pair.1 == n@) && (uint::plain_units(formatted@, 9) matches Some(v)
                ==> n@ == v),
            Err(message) => (!uint::units_in_reach(formatted@, 9) || uint::parsed_units(
                formatted@,
                9,
            ) is Err && uint::plain_units(formatted@, 9) is None) && message@
                == "failed to parse gwei to wei"@,
        },
{
    if uint::in_reach_of_units(formatted, 9) {
        match uint::parse_units(formatted, 9) {
            Ok((_, n)) => {
                return Ok(n);
            },
            Err(_) => {},
        }
    }
    Err("failed to parse gwei to wei".to_owned())
}

/// The gas price that a redemption asks for, where the settings give one.
pub fn redeem_gas_price(config: &Config, formatted: &str) -> (r: Result<Option<Uint256>, String>)
    ensures
        if config.redeem_max_fee_per_gas_gwei.positive() {
            match r {
                Ok(Some(n)) => uint::units_in_reach(formatted@, 9) && (uint::parsed_units(
                    formatted@,
                    9,
                ) matches Ok(pair) && pair.1 == n@) && (uint::plain_units(
                    formatted@,
                    9,
                ) matches Some(v) ==> n@ == v),
                Ok(None) => false,
                Err(message) => (!uint::units_in_reach(formatted@, 9) || uint::parsed_units(
                    formatted@,
                    9,
                ) is Err && uint::plain_units(formatted@, 9) is None) && message@
                    == "failed to parse gwei to wei"@,
            }
        } else {
            r == Ok::<Option<Uint256>, String>(None)
        },
{
    if config.redeem_max_fee_per_gas_gwei.is_positive() {
        match gwei_to_wei(formatted) {
            Ok(n) => Ok(Some(n)),
            Err(message) => Err(message),
        }
    } else {
        Ok(None)
    }
}

// ---------------------------------------------------------------------------
// Confirmation
// ---------------------------------------------------------------------------

/// How long to wait between two looks for a receipt.
pub const CONFIRMATION_POLL_INTERVAL_MS: u64 = 1500;

/// The receipt of a transaction.
pub struct Receipt {
    /// The transaction was reverted.
    pub reverted: bool,
    /// The hash of the transaction, as the receipt has it.
    pub tx_hash: String,
}

/// What a look for a receipt calls for.
pub enum ConfirmAction {
    /// The transaction is in, under this hash.
    Confirmed(String),
    /// The transaction failed.
    Failed(String),
    /// Look again after so many milliseconds.
    Sleep(u64),
    /// The time is up: look once more, for the last time.
    LastLook,
}

#[verifier::ext_equal]
pub enum ConfirmMove {
    Confirmed(Seq<char>),
    Failed(Seq<char>),
    Sleep(u64),
    LastLook,
}

impl ConfirmAction {
    pub open spec fn view(self) -> ConfirmMove {
        match self {
            ConfirmAction::Confirmed(hash) => ConfirmMove::Confirmed(hash@),
            ConfirmAction::Failed(message) => ConfirmMove::Failed(message@),
            ConfirmAction::Sleep(ms) => ConfirmMove::Sleep(ms),
            ConfirmAction::LastLook => ConfirmMove::LastLook,
        }
    }
}

/// What follows a look for the receipt of a transaction.
pub open spec fn confirm(
    tx_hash: Seq<char>,
    timeout_ms: u64,
    receipt: Option<Receipt>,
    time_is_up: bool,
    last_look: bool,
) -> ConfirmMove {
    match receipt {
        Some(found) => if found.reverted {
            ConfirmMove::Failed("TX_REVERTED: tx="@ + tx_hash)
        } else {
            ConfirmMove::Confirmed(found.tx_hash@)
        },
        None => if last_look {
            ConfirmMove::Failed(
                "TX_CONFIRMATION_TIMEOUT: tx="@ + tx_hash + ", timeout="@ + text::decimal(
                    timeout_ms as nat,
                ) + "ms"@,
            )
        } else if time_is_up {
            ConfirmMove::LastLook
        } else {
            ConfirmMove::Sleep(CONFIRMATION_POLL_INTERVAL_MS)
        },
    }
}

pub fn wait_for_tx_confirmation_with_timeout(
    tx_hash: &str,
    timeout_ms: u64,
    receipt: Option<Receipt>,
    time_is_up: bool,
    last_look: bool,
) -> (r: ConfirmAction)
    ensures
        r@ == confirm(tx_hash@, timeout_ms, receipt, time_is_up, last_look),
{
    match receipt {
        Some(found) => if found.reverted {
            let mut message = "TX_REVERTED: tx=".to_owned();
            message.append(tx_hash);
            ConfirmAction::Failed(message)
        } else {
            ConfirmAction::Confirmed(found.tx_hash)
        },
        None => if last_look {
            let mut message = "TX_CONFIRMATION_TIMEOUT: tx=".to_owned();
            message.append(tx_hash);
            message.append(", timeout=");
            message.append(text::decimal_u64(timeout_ms).as_str());
            message.append("ms");
            ConfirmAction::Failed(message)
        } else if time_is_up {
            ConfirmAction::LastLook
        } else {
            ConfirmAction::Sleep(CONFIRMATION_POLL_INTERVAL_MS)
        },
    }
}

// ---------------------------------------------------------------------------
// Redemption
// ---------------------------------------------------------------------------

/// What is asked of the chain to learn whether there is anything to redeem: the owner's balances
/// of two tokens, at a contract.
pub struct BalanceQuery {
    pub owner: String,
    pub contract: String,
    pub yes_id: Uint256,
    pub no_id: Uint256,
}

#[verifier::ext_equal]
pub struct BalanceQueryView {
    pub owner: Seq<char>,
    pub contract: Seq<char>,
    pub yes_id: nat,
    pub no_id: nat,
}

impl BalanceQuery {
    pub open spec fn view(self) -> BalanceQueryView {
        BalanceQueryView {
            owner: self.owner@,
            contract: self.contract@,
            yes_id: self.yes_id@,
            no_id: self.no_id@,
        }
    }
}

/// Whether both tokens are named, so that their balances can be asked for.
pub open spec fn tokens_are_named(yes_token_id: Seq<char>, no_token_id: Seq<char>) -> bool {
    !text::is_blank(yes_token_id) && !text::is_blank(no_token_id)
}

pub fn has_token_ids(yes_token_id: &str, no_token_id: &str) -> (r: bool)
    ensures
        r == tokens_are_named(yes_token_id@, no_token_id@),
{
    !text::blank(yes_token_id) && !text::blank(no_token_id)
}

/// The balances to ask for, or what is wrong with the settings or the tokens.
pub open spec fn balance_query(
    config: Config,
    yes_token_id: Seq<char>,
    no_token_id: Seq<char>,
) -> Result<BalanceQueryView, Seq<char>> {
    match (address_of(config.funder_address@), address_of(config.ctf_contract@)) {
        (None, _) => Err(bad_address("FUNDER_ADDRESS"@, config.funder_address@)),
        (_, None) => Err(bad_address("CTF_CONTRACT"@, config.ctf_contract@)),
        (Some(owner), Some(contract)) => match (token_of(yes_token_id), token_of(no_token_id)) {
            (Err(message), _) => Err(message),
            (_, Err(message)) => Err(message),
            (Ok(yes_id), Ok(no_id)) => Ok(BalanceQueryView { owner, contract, yes_id, no_id }),
        },
    }
}

pub fn prepare_balance_query(config: &Config, yes_token_id: &str, no_token_id: &str) -> (r: Result<
    BalanceQuery,
    String,
>)
    ensures
        match r {
            Ok(query) => balance_query(*config, yes_token_id@, no_token_id@) == Ok::<
                BalanceQueryView,
                Seq<char>,
            >(query@),
            Err(message) => balance_query(*config, yes_token_id@, no_token_id@) == Err::<
                BalanceQueryView,
                Seq<char>,
            >(message@),
        },
{
    let owner = match parse_address("FUNDER_ADDRESS", config.funder_address.as_str()) {
        Ok(a) => a,
        Err(message) => {
            return Err(message);
        },
    };
    let contract = match parse_address("CTF_CONTRACT", config.ctf_contract.as_str()) {
        Ok(a) => a,
        Err(message) => {
            return Err(message);
        },
    };
    let yes_id = match parse_token_id(yes_token_id) {
        Ok(n) => n,
        Err(message) => {
            return Err(message);
        },
    };
    let no_id = match parse_token_id(no_token_id) {
        Ok(n) => n,
        Err(message) => {
            return Err(message);
        },
    };
    Ok(BalanceQuery { owner, contract, yes_id, no_id })
}

/// Whether there is nothing to redeem. Where the balances are not known there may be something.
pub open spec fn nothing_to_redeem(balances: Option<(Uint256, Uint256)>) -> bool {
    balances matches Some(pair) && pair.0@ == 0 && pair.1@ == 0
}

pub fn has_zero_redeemable_balance(balances: Option<(Uint256, Uint256)>) -> (r: bool)
    ensures
        r == nothing_to_redeem(balances),
{
    match balances {
        Some((yes, no)) => yes.is_zero() && no.is_zero(),
        None => false,
    }
}

/// What a direct redemption calls: the contract, with the collateral and the condition.
pub struct DirectRedeem {
    pub contract: String,
    pub collateral: String,
    pub condition: String,
}

#[verifier::ext_equal]
pub struct DirectRedeemView {
    pub contract: Seq<char>,
    pub collateral: Seq<char>,
    pub condition: Seq<char>,
}

impl DirectRedeem {
    pub open spec fn view(self) -> DirectRedeemView {
        DirectRedeemView {
            contract: self.contract@,
            collateral: self.collateral@,
            condition: self.condition@,
        }
    }
}

/// The direct redemption of a condition, or what is wrong with the settings or the condition.
/// `opens_a_wallet` says whether the private key does.
pub open spec fn direct_redeem(config: Config, condition_id: Seq<char>, opens_a_wallet: bool) -> Result<
    DirectRedeemView,
    Seq<char>,
> {
    if !opens_a_wallet {
        Err("invalid PRIVATE_KEY format"@)
    } else {
        match (
            address_of(config.ctf_contract@),
            address_of(config.usdc_address@),
            condition_of(condition_id),
        ) {
            (None, _, _) => Err(bad_address("CTF_CONTRACT"@, config.ctf_contract@)),
            (_, None, _) => Err(bad_address("USDC_E"@, config.usdc_address@)),
            (_, _, None) => Err("Invalid conditionId: "@ + text::trimmed(condition_id)),
            (Some(contract), Some(collateral), Some(condition)) => Ok(
                DirectRedeemView { contract, collateral, condition },
            ),
        }
    }
}

/// Prepares a direct redemption, given whether the private key opens a wallet.
pub fn prepare_direct_redeem(config: &Config, condition_id: &str, opens_a_wallet: bool) -> (r:
    Result<DirectRedeem, String>)
    ensures
        match r {
            Ok(call) => direct_redeem(*config, condition_id@, opens_a_wallet) == Ok::<
                DirectRedeemView,
                Seq<char>,
            >(call@),
            Err(message) => direct_redeem(*config, condition_id@, opens_a_wallet) == Err::<
                DirectRedeemView,
                Seq<char>,
            >(message@),
        },
{
    if !opens_a_wallet {
        return Err("invalid PRIVATE_KEY format".to_owned());
    }
    let contract = match parse_address("CTF_CONTRACT", config.ctf_contract.as_str()) {
        Ok(a) => a,
        Err(message) => {
            return Err(message);
        },
    };
    let collateral = match parse_address("USDC_E", config.usdc_address.as_str()) {
        Ok(a) => a,
        Err(message) => {
            return Err(message);
        },
    };
    match parse_condition_id(condition_id) {
        Ok(condition) => Ok(DirectRedeem { contract, collateral, condition }),
        Err(message) => Err(message),
    }
}

/// Prepares a direct redemption.
pub fn redeem_direct(config: &Config, condition_id: &str) -> (r: Result<DirectRedeem, String>)
    ensures
        ({
            let opens = client::wallet_address(text::trimmed(config.private_key@)) is Ok;
            match r {
                Ok(call) => direct_redeem(*config, condition_id@, opens) == Ok::<
                    DirectRedeemView,
                    Seq<char>,
                >(call@),
                Err(message) => direct_redeem(*config, condition_id@, opens) == Err::<
                    DirectRedeemView,
                    Seq<char>,
                >(message@),
            }
        }),
{
    let opens_a_wallet = match client::address_of_wallet(text::trim(config.private_key.as_str())) {
        Ok(_) => true,
        Err(_) => false,
    };
    prepare_direct_redeem(config, condition_id, opens_a_wallet)
}

/// What a redemption came to.
pub struct RedeemAttemptResult {
    pub completed: bool,
    pub tx_hash: Option<String>,
    pub error: Option<String>,
}

#[verifier::ext_equal]
pub struct RedeemView {
    pub completed: bool,
    pub tx_hash: Option<Seq<char>>,
    pub error: Option<Seq<char>>,
}

impl RedeemAttemptResult {
    pub open spec fn view(self) -> RedeemView {
        RedeemView {
            completed: self.completed,
            tx_hash: json::text_view(self.tx_hash),
            error: json::text_view(self.error),
        }
    }
}

/// What a step of a redemption came to.
pub enum RedeemEvent {
    /// The balances of the two tokens, where they could be asked for.
    Balances(Option<(Uint256, Uint256)>),
    /// The relayer redeemed, with this transaction.
    Relayed(String),
    /// The relayer failed.
    RelayFailed(String),
    /// The redemption was sent and confirmed, with this transaction.
    Redeemed(String),
    /// The balances could not be had, or the redemption failed.
    Failed(String),
}

#[verifier::ext_equal]
pub enum RedeemEventView {
    Balances(Option<(Uint256, Uint256)>),
    Relayed(Seq<char>),
    RelayFailed(Seq<char>),
    Redeemed(Seq<char>),
    Failed(Seq<char>),
}

impl RedeemEvent {
    pub open spec fn view(self) -> RedeemEventView {
        match self {
            RedeemEvent::Balances(balances) => RedeemEventView::Balances(balances),
            RedeemEvent::Relayed(hash) => RedeemEventView::Relayed(hash@),
            RedeemEvent::RelayFailed(message) => RedeemEventView::RelayFailed(message@),
            RedeemEvent::Redeemed(hash) => RedeemEventView::Redeemed(hash@),
            RedeemEvent::Failed(message) => RedeemEventView::Failed(message@),
        }
    }
}

/// What is to be done next about a redemption.
pub enum RedeemAction {
    /// Learn whether there is anything to redeem.
    CheckBalances,
    /// Redeem through the relayer.
    Relay,
    /// Redeem directly.
    RedeemDirect,
    /// Wait for the base delay times the multiplier to this power, and then learn again whether
    /// there is anything to redeem.
    BackOff(u64),
    /// The redemption has ended.
    Done(RedeemAttemptResult),
}

#[verifier::ext_equal]
pub enum RedeemMove {
    CheckBalances,
    Relay,
    RedeemDirect,
    BackOff(u64),
    Done(RedeemView),
}

impl RedeemAction {
    pub open spec fn view(self) -> RedeemMove {
        match self {
            RedeemAction::CheckBalances => RedeemMove::CheckBalances,
            RedeemAction::Relay => RedeemMove::Relay,
            RedeemAction::RedeemDirect => RedeemMove::RedeemDirect,
            RedeemAction::BackOff(power) => RedeemMove::BackOff(power),
            RedeemAction::Done(result) => RedeemMove::Done(result@),
        }
    }
}

/// How many times a redemption is tried.
pub open spec fn max_redeem_attempts(config: Config) -> u64 {
    if config.redeem_internal_max_attempts == 0 {
        1
    } else {
        config.redeem_internal_max_attempts
    }
}

/// A redemption that ended without a transaction.
pub open spec fn redeem_failed(error: Seq<char>) -> RedeemMove {
    RedeemMove::Done(RedeemView { completed: false, tx_hash: None, error: Some(error) })
}

/// A redemption that succeeded.
pub open spec fn redeem_completed(tx_hash: Option<Seq<char>>) -> RedeemMove {
    RedeemMove::Done(RedeemView { completed: true, tx_hash, error: None })
}

/// What follows an attempt that failed: another one, where the error is worth it and there is
/// one left.
pub open spec fn after_redeem_failure(
    config: Config,
    attempt: u64,
    class: (Seq<char>, bool),
) -> (u64, RedeemMove) {
    if class.1 && attempt < max_redeem_attempts(config) {
        ((attempt + 1) as u64, RedeemMove::BackOff((attempt - 1) as u64))
    } else {
        (attempt, redeem_failed(class.0))
    }
}

/// A step of a redemption: the number of the attempt afterwards, and what is to be done.
pub open spec fn redeem_step(config: Config, attempt: u64, event: RedeemEventView) -> (
    u64,
    RedeemMove,
) {
    match event {
        RedeemEventView::Balances(balances) => (
            attempt,
            if nothing_to_redeem(balances) {
                redeem_completed(None)
            } else if config.settlement_tx_mode == crate::types::SettlementTxMode::RelayerSafe {
                RedeemMove::Relay
            } else {
                RedeemMove::RedeemDirect
            },
        ),
        RedeemEventView::Relayed(hash) => (attempt, redeem_completed(Some(hash))),
        RedeemEventView::RelayFailed(error) => if config.relayer_allow_fallback_to_direct {
            (attempt, RedeemMove::RedeemDirect)
        } else {
            let message = "RELAYER_REDEEM_FAILED: "@ + error;
            after_redeem_failure(config, attempt, classified(message))
        },
        RedeemEventView::Redeemed(hash) => (attempt, redeem_completed(Some(hash))),
        RedeemEventView::Failed(error) => after_redeem_failure(
            config,
            attempt,
            classified(error),
        ),
    }
}

/// Begins a redemption: its first attempt, unless the condition id is none.
pub fn attempt_redeem_positions(condition_id: &str) -> (r: (u64, RedeemAction))
    ensures
        r.0 == 1,
        r.1@ == (if text::bytes32(condition_id@) {
            RedeemMove::CheckBalances
        } else {
            redeem_failed("Invalid conditionId for redeem: "@ + condition_id@)
        }),
{
    if text::is_bytes32(condition_id) {
        (1, RedeemAction::CheckBalances)
    } else {
        let mut message = "Invalid conditionId for redeem: ".to_owned();
        message.append(condition_id);
        (
            1,
            RedeemAction::Done(
                RedeemAttemptResult { completed: false, tx_hash: None, error: Some(message) },
            ),
        )
    }
}

/// What follows an attempt whose error was classified.
pub fn after_classified_failure(
    config: &Config,
    attempt: u64,
    error: String,
    retryable: bool,
) -> (r: (u64, RedeemAction))
    requires
        1 <= attempt,
    ensures
        (r.0, r.1@) == after_redeem_failure(*config, attempt, (error@, retryable)),
{
    let max: u64 = if config.redeem_internal_max_attempts == 0 {
        1
    } else {
        config.redeem_internal_max_attempts
    };
    if retryable && attempt < max {
        (attempt + 1, RedeemAction::BackOff(attempt - 1))
    } else {
        (
            attempt,
            RedeemAction::Done(
                RedeemAttemptResult { completed: false, tx_hash: None, error: Some(error) },
            ),
        )
    }
}

/// Takes a redemption one step on.
pub fn step_redeem(config: &Config, attempt: u64, event: RedeemEvent) -> (r: (u64, RedeemAction))
    requires
        1 <= attempt <= max_redeem_attempts(*config),
    ensures
        (r.0, r.1@) == redeem_step(*config, attempt, event@),
        1 <= r.0 <= max_redeem_attempts(*config),
{
    match event {
        RedeemEvent::Balances(balances) => if has_zero_redeemable_balance(balances) {
            (
                attempt,
                RedeemAction::Done(
                    RedeemAttemptResult { completed: true, tx_hash: None, error: None },
                ),
            )
        } else if crate::account::relayer_service::should_use_relayer_for_settlement(config) {
            (attempt, RedeemAction::Relay)
        } else {
            (attempt, RedeemAction::RedeemDirect)
        },
        RedeemEvent::Relayed(hash) => (
            attempt,
            RedeemAction::Done(
                RedeemAttemptResult { completed: true, tx_hash: Some(hash), error: None },
            ),
        ),
        RedeemEvent::RelayFailed(error) => {
            if config.relayer_allow_fallback_to_direct {
                return (attempt, RedeemAction::RedeemDirect);
            }
            let mut message = "RELAYER_REDEEM_FAILED: ".to_owned();
            message.append(error.as_str());
            let (class, retryable) = classify_redeem_error(message.as_str());
            after_classified_failure(config, attempt, class, retryable)
        },
        RedeemEvent::Redeemed(hash) => (
            attempt,
            RedeemAction::Done(
                RedeemAttemptResult { completed: true, tx_hash: Some(hash), error: None },
            ),
        ),
        RedeemEvent::Failed(error) => {
            let (class, retryable) = classify_redeem_error(error.as_str());
            after_classified_failure(config, attempt, class, retryable)
        },
    }
}

/// A redemption is reported as completed only where there was nothing to redeem or a transaction
/// redeemed it, and each attempt but the last is followed by at most one other.
pub proof fn completion_is_earned(config: Config, attempt: u64, event: RedeemEventView)
    requires
        1 <= attempt <= max_redeem_attempts(config),
    ensures
        redeem_step(config, attempt, event).1 matches RedeemMove::Done(result) && result.completed
            ==> (event matches RedeemEventView::Balances(balances) && nothing_to_redeem(balances))
            || event is Relayed || event is Redeemed,
        redeem_step(config, attempt, event).1 is BackOff ==> redeem_step(config, attempt, event).0
            == attempt + 1 <= max_redeem_attempts(config),
        !(redeem_step(config, attempt, event).1 is BackOff) ==> redeem_step(
            config,
            attempt,
            event,
        ).0 == attempt,
{
}

// ---------------------------------------------------------------------------
// Known resolutions
// ---------------------------------------------------------------------------

/// How long a resolution is remembered, in milliseconds.
pub const RESOLUTION_CACHE_TTL_MS: u64 = 600_000;

#[derive(Clone, Copy)]
pub struct ResolutionCacheEntry {
    pub timestamp_ms: u64,
    pub resolved: bool,
}

/// Whether a resolution is still remembered.
pub open spec fn is_fresh(entry: ResolutionCacheEntry, now_ms: u64) -> bool {
    now_ms <= entry.timestamp_ms || now_ms - entry.timestamp_ms <= RESOLUTION_CACHE_TTL_MS
}

/// The resolutions that are still remembered.
pub open spec fn fresh_part(
    before: Map<Seq<char>, ResolutionCacheEntry>,
    after: Map<Seq<char>, ResolutionCacheEntry>,
    now_ms: u64,
) -> bool {
    &&& forall|id: Seq<char>| #[trigger]
        after.contains_key(id) <==> before.contains_key(id) && is_fresh(before[id], now_ms)
    &&& forall|id: Seq<char>| #[trigger] after.contains_key(id) ==> after[id] == before[id]
}

/// Forgets the resolutions that are too old.
pub fn cleanup_resolution_cache(cache: &mut Table<ResolutionCacheEntry>, now_ms: u64)
    requires
        old(cache).wf(),
    ensures
        final(cache).wf(),
        fresh_part(old(cache)@, final(cache)@, now_ms),
{
    let fresh = |entry: &ResolutionCacheEntry| -> (b: bool)
        ensures
            b == is_fresh(*entry, now_ms),
        { now_ms <= entry.timestamp_ms || now_ms - entry.timestamp_ms <= RESOLUTION_CACHE_TTL_MS };
    cache.retain(fresh, Ghost(|entry: ResolutionCacheEntry| is_fresh(entry, now_ms)));
}

// ---------------------------------------------------------------------------
// Claims
// ---------------------------------------------------------------------------

#[verifier::ext_equal]
pub struct ClaimView {
    pub completed: bool,
    pub tx_hash: Option<Seq<char>>,
    pub market_resolved: bool,
    pub resolution_source: Option<MarketResolutionSource>,
    pub market_resolved_at_ms: Option<u64>,
    pub error: Option<Seq<char>>,
}

/// The view of a claim's result.
pub open spec fn claim_view(r: ClaimProcessingResult) -> ClaimView {
    ClaimView {
        completed: r.completed,
        tx_hash: json::text_view(r.tx_hash),
        market_resolved: r.market_resolved,
        resolution_source: r.resolution_source,
        market_resolved_at_ms: r.market_resolved_at_ms,
        error: json::text_view(r.error),
    }
}

/// A claim that is not made because the market is not known to be resolved.
pub open spec fn unresolved(source: MarketResolutionSource, error: Seq<char>) -> ClaimView {
    ClaimView {
        completed: false,
        tx_hash: None,
        market_resolved: false,
        resolution_source: Some(source),
        market_resolved_at_ms: None,
        error: Some(error),
    }
}

fn unresolved_result(source: MarketResolutionSource, error: String) -> (r: ClaimProcessingResult)
    ensures
        claim_view(r) == unresolved(source, error@),
{
    ClaimProcessingResult {
        completed: false,
        tx_hash: None,
        market_resolved: false,
        resolution_source: Some(source),
        market_resolved_at_ms: None,
        error: Some(error),
    }
}

/// What is to be done next about a claim.
pub enum ClaimAction {
    /// Ask whether the market of this window is resolved.
    Probe { slug: String },
    /// Redeem: the market is known to be resolved, from this source and since this time.
    Redeem { source: MarketResolutionSource, resolved_at_ms: u64 },
    /// The claim has ended.
    Done(ClaimProcessingResult),
}

#[verifier::ext_equal]
pub enum ClaimMove {
    Probe { slug: Seq<char> },
    Redeem { source: MarketResolutionSource, resolved_at_ms: u64 },
    Done(ClaimView),
}

impl ClaimAction {
    pub open spec fn view(self) -> ClaimMove {
        match self {
            ClaimAction::Probe { slug } => ClaimMove::Probe { slug: slug@ },
            ClaimAction::Redeem { source, resolved_at_ms } => ClaimMove::Redeem {
                source,
                resolved_at_ms,
            },
            ClaimAction::Done(result) => ClaimMove::Done(claim_view(result)),
        }
    }
}

/// What stands in the way of a claim, looked for in this order.
pub open spec fn claim_obstacle(
    config: Config,
    window_slug: Seq<char>,
    condition_id: Seq<char>,
) -> Option<Seq<char>> {
    if !config.on_chain_auto_claim_enabled {
        Some("auto-claim disabled"@)
    } else if text::is_blank(config.private_key@) {
        Some("PRIVATE_KEY is required for on-chain auto claim"@)
    } else if !text::bytes32(condition_id) {
        Some("Invalid conditionId: "@ + condition_id)
    } else if text::is_blank(window_slug) && config.enable_gamma_resolution_fallback {
        Some("window slug is required for claim resolution"@)
    } else {
        None
    }
}

/// The start of a claim, given what is remembered of the market's resolution.
pub open spec fn claim_start(
    config: Config,
    window_slug: Seq<char>,
    known: Option<ResolutionCacheEntry>,
) -> ClaimMove {
    match known {
        Some(entry) => if entry.resolved {
            ClaimMove::Redeem {
                source: MarketResolutionSource::Cached,
                resolved_at_ms: entry.timestamp_ms,
            }
        } else if config.enable_gamma_resolution_fallback {
            ClaimMove::Probe { slug: text::trimmed(window_slug) }
        } else {
            ClaimMove::Done(
                unresolved(
                    MarketResolutionSource::Cached,
                    "market resolution fallback disabled (ENABLE_GAMMA_RESOLUTION_FALLBACK=false)"@,
                ),
            )
        },
        None => if config.enable_gamma_resolution_fallback {
            ClaimMove::Probe { slug: text::trimmed(window_slug) }
        } else {
            ClaimMove::Done(
                unresolved(
                    MarketResolutionSource::Polling,
                    "market resolution fallback disabled (ENABLE_GAMMA_RESOLUTION_FALLBACK=false)"@,
                ),
            )
        },
    }
}

/// What a table remembers of a market at a time.
pub open spec fn remembered(
    cache: Map<Seq<char>, ResolutionCacheEntry>,
    key: Seq<char>,
    now_ms: u64,
) -> Option<ResolutionCacheEntry> {
    if cache.contains_key(key) && is_fresh(cache[key], now_ms) {
        Some(cache[key])
    } else {
        None
    }
}

/// The key of a condition in the table: without white space around it, in lower case.
pub open spec fn condition_key(condition_id: Seq<char>) -> Seq<char> {
    text::lowercase(text::trimmed(condition_id))
}

pub fn key_of_condition(condition_id: &str) -> (r: String)
    ensures
        r@ == condition_key(condition_id@),
{
    text::lower(text::trim(condition_id))
}

/// Begins a claim, given the key of its condition.
pub fn begin_claim_with_key(
    config: &Config,
    window_slug: &str,
    condition_id: &str,
    key: &str,
    cache: &mut Table<ResolutionCacheEntry>,
    now_ms: u64,
) -> (r: ClaimAction)
    requires
        old(cache).wf(),
    ensures
        final(cache).wf(),
        match claim_obstacle(*config, window_slug@, condition_id@) {
            Some(error) => final(cache)@ == old(cache)@ && r@ == ClaimMove::Done(
                unresolved(MarketResolutionSource::Polling, error),
            ),
            None => fresh_part(old(cache)@, final(cache)@, now_ms) && r@ == claim_start(
                *config,
                window_slug@,
                remembered(old(cache)@, key@, now_ms),
            ),
        },
{
    if !config.on_chain_auto_claim_enabled {
        return ClaimAction::Done(
            unresolved_result(MarketResolutionSource::Polling, "auto-claim disabled".to_owned()),
        );
    }
    if text::blank(config.private_key.as_str()) {
        return ClaimAction::Done(
            unresolved_result(
                MarketResolutionSource::Polling,
                "PRIVATE_KEY is required for on-chain auto claim".to_owned(),
            ),
        );
    }
    if !text::is_bytes32(condition_id) {
        let mut message = "Invalid conditionId: ".to_owned();
        message.append(condition_id);
        return ClaimAction::Done(unresolved_result(MarketResolutionSource::Polling, message));
    }
    let slug = text::trim(window_slug);
    if slug.is_empty() && config.enable_gamma_resolution_fallback {
        return ClaimAction::Done(
            unresolved_result(
                MarketResolutionSource::Polling,
                "window slug is required for claim resolution".to_owned(),
            ),
        );
    }
    cleanup_resolution_cache(cache, now_ms);
    let mut source = MarketResolutionSource::Polling;
    match cache.get(key) {
        Some(entry) => {
            if entry.resolved {
                return ClaimAction::Redeem {
                    source: MarketResolutionSource::Cached,
                    resolved_at_ms: entry.timestamp_ms,
                };
            }
            source = MarketResolutionSource::Cached;
        },
        None => {},
    }
    if config.enable_gamma_resolution_fallback {
        return ClaimAction::Probe { slug: slug.to_owned() };
    }
    ClaimAction::Done(
        unresolved_result(
            source,
            "market resolution fallback disabled (ENABLE_GAMMA_RESOLUTION_FALLBACK=false)".to_owned(),
        ),
    )
}

/// Begins a claim.
pub fn process_pending_claim(
    config: &Config,
    window_slug: &str,
    condition_id: &str,
    cache: &mut Table<ResolutionCacheEntry>,
    now_ms: u64,
) -> (r: ClaimAction)
    requires
        old(cache).wf(),
    ensures
        final(cache).wf(),
        match claim_obstacle(*config, window_slug@, condition_id@) {
            Some(error) => final(cache)@ == old(cache)@ && r@ == ClaimMove::Done(
                unresolved(MarketResolutionSource::Polling, error),
            ),
            None => fresh_part(old(cache)@, final(cache)@, now_ms) && r@ == claim_start(
                *config,
                window_slug@,
                remembered(old(cache)@, condition_key(condition_id@), now_ms),
            ),
        },
{
    let key = key_of_condition(condition_id);
    begin_claim_with_key(config, window_slug, condition_id, key.as_str(), cache, now_ms)
}

/// What follows a look at the market: the redemption where it is resolved, which is remembered,
/// and the end of the claim otherwise.
pub open spec fn after_probe(resolved: bool, error: Option<Seq<char>>, now_ms: u64) -> ClaimMove {
    if resolved {
        ClaimMove::Redeem {
            source: MarketResolutionSource::GammaFallback,
            resolved_at_ms: now_ms,
        }
    } else {
        ClaimMove::Done(
            unresolved(
                MarketResolutionSource::GammaFallback,
                match error {
                    Some(e) => e,
                    None => "market unresolved"@,
                },
            ),
        )
    }
}

/// Takes in a look at the market. `key` is the key of its condition.
pub fn claim_after_probe(
    probe: GammaResolutionProbe,
    key: &str,
    cache: &mut Table<ResolutionCacheEntry>,
    now_ms: u64,
) -> (r: ClaimAction)
    requires
        old(cache).wf(),
    ensures
        final(cache).wf(),
        r@ == after_probe(probe.resolved, json::text_view(probe.error), now_ms),
        final(cache)@ == (if probe.resolved {
            old(cache)@.insert(
                key@,
                ResolutionCacheEntry { timestamp_ms: now_ms, resolved: true },
            )
        } else {
            old(cache)@
        }),
{
    if !probe.resolved {
        let error = match probe.error {
            Some(e) => e,
            None => "market unresolved".to_owned(),
        };
        return ClaimAction::Done(unresolved_result(MarketResolutionSource::GammaFallback, error));
    }
    cache.insert(key, ResolutionCacheEntry { timestamp_ms: now_ms, resolved: true });
    ClaimAction::Redeem { source: MarketResolutionSource::GammaFallback, resolved_at_ms: now_ms }
}

/// The end of a claim whose redemption came to a result.
pub open spec fn after_redeem(
    source: MarketResolutionSource,
    resolved_at_ms: u64,
    redeem: RedeemView,
) -> ClaimView {
    if redeem.completed {
        ClaimView {
            completed: true,
            tx_hash: redeem.tx_hash,
            market_resolved: true,
            resolution_source: Some(source),
            market_resolved_at_ms: Some(resolved_at_ms),
            error: None,
        }
    } else {
        ClaimView {
            completed: false,
            tx_hash: None,
            market_resolved: true,
            resolution_source: Some(source),
            market_resolved_at_ms: Some(resolved_at_ms),
            error: Some(
                match redeem.error {
                    Some(e) => e,
                    None => "redeem failed: unknown error"@,
                },
            ),
        }
    }
}

pub fn claim_after_redeem(
    source: MarketResolutionSource,
    resolved_at_ms: u64,
    redeem: RedeemAttemptResult,
) -> (r: ClaimProcessingResult)
    ensures
        claim_view(r) == after_redeem(source, resolved_at_ms, redeem@),
{
    if redeem.completed {
        ClaimProcessingResult {
            completed: true,
            tx_hash: redeem.tx_hash,
            market_resolved: true,
            resolution_source: Some(source),
            market_resolved_at_ms: Some(resolved_at_ms),
            error: None,
        }
    } else {
        let error = match redeem.error {
            Some(e) => e,
            None => "redeem failed: unknown error".to_owned(),
        };
        ClaimProcessingResult {
            completed: false,
            tx_hash: None,
            market_resolved: true,
            resolution_source: Some(source),
            market_resolved_at_ms: Some(resolved_at_ms),
            error: Some(error),
        }
    }
}

/// Nothing is redeemed before the market is known to be resolved: a claim goes on to its
/// redemption only from a remembered resolution or from a look that found the market resolved.
pub proof fn redemption_follows_resolution(
    config: Config,
    window_slug: Seq<char>,
    known: Option<ResolutionCacheEntry>,
    resolved: bool,
    error: Option<Seq<char>>,
    now_ms: u64,
)
    ensures
        claim_start(config, window_slug, known) is Redeem ==> known is Some && known->Some_0.resolved,
        after_probe(resolved, error, now_ms) is Redeem ==> resolved,
{
}

/// A resolution that was found is remembered by the next claim on the same condition, for as
/// long as resolutions are remembered.
pub proof fn resolution_is_remembered(
    before: Map<Seq<char>, ResolutionCacheEntry>,
    key: Seq<char>,
    found_ms: u64,
    later_ms: u64,
    config: Config,
    window_slug: Seq<char>,
)
    requires
        later_ms <= found_ms || later_ms - found_ms <= RESOLUTION_CACHE_TTL_MS,
    ensures
        ({
            let after = before.insert(
                key,
                ResolutionCacheEntry { timestamp_ms: found_ms, resolved: true },
            );
            claim_start(config, window_slug, remembered(after, key, later_ms))
                == (ClaimMove::Redeem {
                source: MarketResolutionSource::Cached,
                resolved_at_ms: found_ms,
            })
        }),
{
}

/// A trade is won exactly where the side that was bought is the one that the market resolved to,
/// whichever of the two that is. A won trade redeems a dollar for each share and gains what that
/// leaves over its cost; a lost one redeems nothing and loses what was spent.
pub proof fn winning_side_gains_its_payout(
    side: MarketSide,
    execution: ExecutionResult,
    resolved_outcome: MarketSide,
    payout_less_spent: Double,
)
    requires
        execution.filled_size.finite(),
        execution.spent_usd.finite(),
    ensures
        ({
            let result = trade_pnl(side, execution, resolved_outcome, payout_less_spent);
            let won = (side == MarketSide::Up && resolved_outcome == MarketSide::Up) || (side
                == MarketSide::Down && resolved_outcome == MarketSide::Down);
            &&& won <==> result.outcome == TradeResult::Win
            &&& !won <==> result.outcome == TradeResult::Loss
            &&& won ==> result.pnl_usd == payout_less_spent
            &&& won && execution.filled_size.units() > 0 ==> result.redeemed_usd
                == execution.filled_size
            &&& won && execution.filled_size.units() <= 0 ==> result.redeemed_usd.units() == 0
            &&& !won ==> result.redeemed_usd.units() == 0
            &&& !won ==> result.pnl_usd.units() == -execution.spent_usd.units()
        }),
{
    crate::double::sign_is_numeric(execution.filled_size);
    crate::double::sign_is_numeric(execution.spent_usd);
    assert((Double { bits: 0 }).units() == 0);
}

/// The two sides mirror each other: a trade on one side comes to what the same trade on the other
/// side would have come to, had the market resolved the other way.
pub proof fn sides_are_treated_alike(execution: ExecutionResult, payout_less_spent: Double)
    ensures
        trade_pnl(MarketSide::Up, execution, MarketSide::Up, payout_less_spent) == trade_pnl(
            MarketSide::Down,
            execution,
            MarketSide::Down,
            payout_less_spent,
        ),
        trade_pnl(MarketSide::Up, execution, MarketSide::Down, payout_less_spent) == trade_pnl(
            MarketSide::Down,
            execution,
            MarketSide::Up,
            payout_less_spent,
        ),
{
}

/// A redemption whose relayer reports a transaction, or whose own transaction was confirmed, ends
/// at once and in success, with exactly that transaction and without an error.
pub proof fn reported_transaction_completes_the_redemption(
    config: Config,
    attempt: u64,
    hash: Seq<char>,
)
    ensures
        redeem_step(config, attempt, RedeemEventView::Relayed(hash)) == (
            attempt,
            RedeemMove::Done(RedeemView { completed: true, tx_hash: Some(hash), error: None }),
        ),
        redeem_step(config, attempt, RedeemEventView::Redeemed(hash)) == (
            attempt,
            RedeemMove::Done(RedeemView { completed: true, tx_hash: Some(hash), error: None }),
        ),
{
}

/// With both balances at nothing there is nothing to redeem and the redemption is complete without
/// a transaction. With anything there, or with balances that are not known, it goes through the
/// relayer where that is the way that is set, and is done directly otherwise.
pub proof fn balances_decide_what_is_redeemed(
    config: Config,
    attempt: u64,
    balances: Option<(Uint256, Uint256)>,
)
    ensures
        ({
            let (after, next) = redeem_step(config, attempt, RedeemEventView::Balances(balances));
            let relayed = config.settlement_tx_mode == crate::types::SettlementTxMode::RelayerSafe;
            &&& after == attempt
            &&& (balances matches Some((yes, no)) && yes@ + no@ == 0) ==> next
                == RedeemMove::Done(RedeemView { completed: true, tx_hash: None, error: None })
            &&& !(balances matches Some((yes, no)) && yes@ + no@ == 0) && relayed ==> next
                == RedeemMove::Relay
            &&& !(balances matches Some((yes, no)) && yes@ + no@ == 0) && !relayed ==> next
                == RedeemMove::RedeemDirect
        }),
{
}

/// A relayer that fails hands over to a direct redemption exactly where the settings allow it.
pub proof fn failed_relayer_hands_over_where_allowed(
    config: Config,
    attempt: u64,
    error: Seq<char>,
)
    ensures
        config.relayer_allow_fallback_to_direct <==> redeem_step(
            config,
            attempt,
            RedeemEventView::RelayFailed(error),
        ) == (attempt, RedeemMove::RedeemDirect),
        !config.relayer_allow_fallback_to_direct ==> redeem_step(
            config,
            attempt,
            RedeemEventView::RelayFailed(error),
        ) == redeem_step(
            config,
            attempt,
            RedeemEventView::Failed("RELAYER_REDEEM_FAILED: "@ + error),
        ),
{
}

/// An attempt that failed is followed by another exactly where its error may pass and an attempt
/// is left; the pauses grow with the number of the attempt. Otherwise the redemption ends without
/// success and without a transaction, and its error ends with the words of the failure.
pub proof fn passing_errors_are_tried_again(config: Config, attempt: u64, error: Seq<char>)
    requires
        1 <= attempt,
    ensures
        ({
            let (after, next) = redeem_step(config, attempt, RedeemEventView::Failed(error));
            let lower = text::lowercase(error);
            let most = if config.redeem_internal_max_attempts == 0 {
                1
            } else {
                config.redeem_internal_max_attempts
            };
            let passes = text::contains(lower, "relayer"@) || text::contains(lower, "gas"@)
                || text::contains(lower, "out of gas"@) || text::contains(lower, "timeout"@)
                || text::contains(lower, "network"@) || text::contains(
                lower,
                "temporarily unavailable"@,
            ) || text::contains(lower, "nonce"@) || (text::contains(lower, "reverted"@)
                && !text::contains(lower, "balance"@) && !text::contains(lower, "insufficient"@));
            &&& passes && attempt < most <==> next is BackOff
            &&& next is BackOff ==> next == RedeemMove::BackOff((attempt - 1) as u64) && after
                == attempt + 1
            &&& !(next is BackOff) ==> after == attempt && (next matches RedeemMove::Done(result)
                && !result.completed && result.tx_hash is None && (result.error matches Some(e)
                && e.len() >= error.len() && e.skip(e.len() - error.len()) == error))
        }),
{
    let prefix = redeem_class(text::lowercase(error)).0;
    let e = prefix + error;
    assert(e.skip(e.len() - error.len()) =~= error);
}

/// An error keeps its words behind the name of its class, and one without a class stays as it is.
pub proof fn error_keeps_its_words(message: Seq<char>)
    ensures
        ({
            let lower = text::lowercase(message);
            let (line, retryable) = classified(message);
            &&& line.len() >= message.len() && line.skip(line.len() - message.len()) == message
            &&& text::contains(lower, "relayer"@) ==> line == "RELAYER_ERROR: "@ + message
                && retryable
            &&& !text::contains(lower, "relayer"@) && text::contains(lower, "gas"@) ==> line
                == "OUT_OF_GAS: "@ + message && retryable
            &&& !retryable && line != message ==> line == "INSUFFICIENT_BALANCE: "@ + message && (
            text::contains(lower, "balance"@) || text::contains(lower, "insufficient"@))
        }),
{
    let prefix = redeem_class(text::lowercase(message)).0;
    let line = prefix + message;
    assert(line.skip(line.len() - message.len()) =~= message);
    assert(Seq::<char>::empty() + message =~= message);
}

/// A transaction is confirmed exactly where its receipt is there and it was not reverted. Without
/// a receipt it is waited for while there is time, looked for once more when the time is up, and
/// only then taken for lost.
pub proof fn receipt_decides_the_transaction(
    tx_hash: Seq<char>,
    timeout_ms: u64,
    receipt: Option<Receipt>,
    time_is_up: bool,
    last_look: bool,
)
    ensures
        ({
            let next = confirm(tx_hash, timeout_ms, receipt, time_is_up, last_look);
            &&& next is Confirmed <==> receipt is Some && !receipt->Some_0.reverted
            &&& receipt matches Some(found) ==> (!found.reverted ==> next
                == ConfirmMove::Confirmed(found.tx_hash@))
            &&& receipt is None && !last_look && !time_is_up <==> next == ConfirmMove::Sleep(1500)
            &&& receipt is None && !last_look && time_is_up <==> next == ConfirmMove::LastLook
            &&& next is Failed <==> (receipt is Some && receipt->Some_0.reverted) || (
            receipt is None && last_look)
            &&& receipt matches Some(found) ==> (found.reverted ==> next == ConfirmMove::Failed(
                "TX_REVERTED: tx="@ + tx_hash,
            ))
        }),
{
}

/// The gas with its margin is the least whole number that covers the given percentage of the
/// estimate, or the floor where that is more: the floor of the settings, and never under what any
/// transaction takes.
pub proof fn gas_margin_is_exact(config: Config, estimate: nat, percent: u64)
    ensures
        ({
            let gas = gas_with_margin(config, estimate, percent);
            let floor = if config.redeem_min_gas_limit < 21000 {
                21000nat
            } else {
                config.redeem_min_gas_limit as nat
            };
            &&& gas >= floor
            &&& gas * 100 >= estimate * percent
            &&& gas > floor ==> (gas - 1) * 100 < estimate * percent
        }),
{
    assert(estimate * percent as nat >= 0) by (nonlinear_arith)
        requires
            estimate >= 0,
            percent >= 0,
    ;
}

/// A token id that is written as a decimal numeral names that number, as long as it has no more
/// than 256 bits, and a blank one names none.
pub proof fn token_id_names_its_number(n: nat, token_id: Seq<char>)
    ensures
        n < uint::limit() ==> token_of(text::decimal(n)) == Ok::<nat, Seq<char>>(n),
        n >= uint::limit() ==> token_of(text::decimal(n)) is Err,
        text::trimmed(token_id).len() == 0 ==> token_of(token_id) is Err,
        token_of(token_id) matches Ok(m) ==> m < uint::limit() || text::begins_with(
            text::trimmed(token_id),
            "0x"@,
        ),
{
    reveal_strlit("0x");
    let s = text::decimal(n);
    text::decimal_round_trip(n);
    text::lemma_digits_are_trimmed(s);
    if text::begins_with(s, "0x"@) {
        assert(s.subrange(0, 2) == "0x"@ || s[1] == "0x"@[1]);
        assert(text::is_digit(s[1]));
        assert("0x"@[1] == 'x');
    }
}

/// The balances to ask for are those of the funder's two tokens at the contract of the tokens; they
/// are asked for exactly where both addresses and both tokens can be read.
pub proof fn balances_are_asked_for_the_funder(
    config: Config,
    yes_token_id: Seq<char>,
    no_token_id: Seq<char>,
)
    ensures
        balance_query(config, yes_token_id, no_token_id) is Ok <==> uint::fixed_hex(
            text::trimmed(config.funder_address@),
            40,
        ) is Some && uint::fixed_hex(text::trimmed(config.ctf_contract@), 40) is Some && token_of(
            yes_token_id,
        ) is Ok && token_of(no_token_id) is Ok,
        balance_query(config, yes_token_id, no_token_id) matches Ok(query) ==> {
            &&& Some(query.owner) == uint::fixed_hex(text::trimmed(config.funder_address@), 40)
            &&& Some(query.contract) == uint::fixed_hex(text::trimmed(config.ctf_contract@), 40)
            &&& token_of(yes_token_id) == Ok::<nat, Seq<char>>(query.yes_id)
            &&& token_of(no_token_id) == Ok::<nat, Seq<char>>(query.no_id)
        },
{
}

/// A direct redemption calls the contract of the tokens for the collateral and the condition; it
/// is made exactly where the key opens a wallet and all three can be read.
pub proof fn direct_redemption_calls_the_contract(
    config: Config,
    condition_id: Seq<char>,
    opens_a_wallet: bool,
)
    ensures
        direct_redeem(config, condition_id, opens_a_wallet) is Ok <==> opens_a_wallet
            && uint::fixed_hex(text::trimmed(config.ctf_contract@), 40) is Some && uint::fixed_hex(
            text::trimmed(config.usdc_address@),
            40,
        ) is Some && uint::fixed_hex(text::trimmed(condition_id), 64) is Some,
        direct_redeem(config, condition_id, opens_a_wallet) matches Ok(call) ==> {
            &&& Some(call.contract) == uint::fixed_hex(text::trimmed(config.ctf_contract@), 40)
            &&& Some(call.collateral) == uint::fixed_hex(text::trimmed(config.usdc_address@), 40)
            &&& Some(call.condition) == uint::fixed_hex(text::trimmed(condition_id), 64)
        },
{
}

/// A claim is taken up exactly where claiming is on, there is a key, the condition is one, and
/// there is a window to ask about where it would have to be asked about.
pub proof fn claim_is_taken_up_where_it_can_be(
    config: Config,
    window_slug: Seq<char>,
    condition_id: Seq<char>,
)
    ensures
        claim_obstacle(config, window_slug, condition_id) is None <==> {
            &&& config.on_chain_auto_claim_enabled
            &&& text::trimmed(config.private_key@).len() > 0
            &&& text::is_hex_id(text::trimmed(condition_id), 64)
            &&& config.enable_gamma_resolution_fallback ==> text::trimmed(window_slug).len() > 0
        },
{
}

/// A market that is remembered as resolved is redeemed without being asked about again, as
/// resolved since it was found so. Any other is asked about under its name where that is enabled,
/// and left otherwise as not resolved.
pub proof fn known_resolution_is_redeemed(
    config: Config,
    window_slug: Seq<char>,
    known: Option<ResolutionCacheEntry>,
)
    ensures
        ({
            let next = claim_start(config, window_slug, known);
            let is_known = known is Some && known->Some_0.resolved;
            &&& is_known <==> next is Redeem
            &&& is_known ==> next == (ClaimMove::Redeem {
                source: MarketResolutionSource::Cached,
                resolved_at_ms: known->Some_0.timestamp_ms,
            })
            &&& !is_known && config.enable_gamma_resolution_fallback ==> next
                == (ClaimMove::Probe { slug: text::trimmed(window_slug) })
            &&& !is_known && !config.enable_gamma_resolution_fallback ==> (next matches
                ClaimMove::Done(result) && !result.completed && !result.market_resolved
                && result.tx_hash is None && result.error is Some)
        }),
{
}

/// A look at a market leads to its redemption exactly where it found the market resolved, and
/// otherwise ends the claim for now, as not resolved and with the error of the look.
pub proof fn probe_decides_the_claim(resolved: bool, error: Option<Seq<char>>, now_ms: u64)
    ensures
        ({
            let next = after_probe(resolved, error, now_ms);
            &&& resolved <==> next == (ClaimMove::Redeem {
                source: MarketResolutionSource::GammaFallback,
                resolved_at_ms: now_ms,
            })
            &&& !resolved <==> next is Done
            &&& next matches ClaimMove::Done(result) ==> !result.completed
                && !result.market_resolved && result.tx_hash is None
                && result.market_resolved_at_ms is None && result.resolution_source == Some(
                MarketResolutionSource::GammaFallback,
            ) && (error is Some ==> result.error == error) && result.error is Some
        }),
{
}

/// A claim is completed exactly where its redemption was, with the same transaction and no error;
/// otherwise it stays open with the redemption's error. Either way the market counts as resolved.
pub proof fn redemption_decides_the_claim(
    source: MarketResolutionSource,
    resolved_at_ms: u64,
    redeem: RedeemView,
)
    ensures
        ({
            let result = after_redeem(source, resolved_at_ms, redeem);
            &&& result.completed == redeem.completed
            &&& result.market_resolved
            &&& result.resolution_source == Some(source)
            &&& result.market_resolved_at_ms == Some(resolved_at_ms)
            &&& redeem.completed ==> result.tx_hash == redeem.tx_hash && result.error is None
            &&& !redeem.completed ==> result.tx_hash is None && result.error is Some
            &&& !redeem.completed && redeem.error is Some ==> result.error == redeem.error
        }),
{
}

/// A resolution is forgotten once it is more than ten minutes old, and not before.
pub proof fn resolution_is_forgotten_after_ten_minutes(
    cache: Map<Seq<char>, ResolutionCacheEntry>,
    key: Seq<char>,
    now_ms: u64,
)
    ensures
        remembered(cache, key, now_ms) is Some <==> cache.contains_key(key) && now_ms
            - cache[key].timestamp_ms <= 600_000,
        remembered(cache, key, now_ms) is Some ==> remembered(cache, key, now_ms) == Some(
            cache[key],
        ),
{
}

/// An error is told with the name of its kind in front: the relayer's before that of gas, then that of
/// a timeout, the network, the nonce, the balance and the transaction itself. One of no kind is told as
/// it is, and not tried again.
pub proof fn errors_are_told_by_their_kind(message: Seq<char>)
    ensures
        ({
            let lower = text::lowercase(message);
            let relayer = text::contains(lower, "relayer"@);
            let gas = text::contains(lower, "gas"@) || text::contains(lower, "out of gas"@);
            let late = text::contains(lower, "timeout"@);
            let network = text::contains(lower, "network"@) || text::contains(
                lower,
                "temporarily unavailable"@,
            );
            let nonce = text::contains(lower, "nonce"@);
            let poor = text::contains(lower, "balance"@) || text::contains(lower, "insufficient"@);
            let reverted = text::contains(lower, "reverted"@);
            let told = classified(message);
            &&& relayer ==> told == ("RELAYER_ERROR: "@ + message, true)
            &&& !relayer && gas ==> told == ("OUT_OF_GAS: "@ + message, true)
            &&& !relayer && !gas && late ==> told == ("RPC_TIMEOUT: "@ + message, true)
            &&& !relayer && !gas && !late && network ==> told == ("NETWORK_ERROR: "@ + message, true)
            &&& !relayer && !gas && !late && !network && nonce ==> told == (
                "NONCE_ERROR: "@ + message,
                true,
            )
            &&& !relayer && !gas && !late && !network && !nonce && poor ==> told == (
                "INSUFFICIENT_BALANCE: "@ + message,
                false,
            )
            &&& !relayer && !gas && !late && !network && !nonce && !poor && reverted ==> told == (
                "TX_REVERTED: "@ + message,
                true,
            )
            &&& !relayer && !gas && !late && !network && !nonce && !poor && !reverted ==> told == (
                message,
                false,
            )
        }),
{
    assert(Seq::<char>::empty() + message =~= message);
}

/// What stands in the way of a claim or a call is told in its words, the first of it first.
pub proof fn obstacles_are_told_in_their_words(
    config: Config,
    window_slug: Seq<char>,
    condition_id: Seq<char>,
    yes_token_id: Seq<char>,
    no_token_id: Seq<char>,
)
    ensures
        ({
            let on = config.on_chain_auto_claim_enabled;
            let key = text::trimmed(config.private_key@).len() > 0;
            let hash = text::bytes32(condition_id);
            let obstacle = claim_obstacle(config, window_slug, condition_id);
            &&& !on ==> obstacle == Some("auto-claim disabled"@)
            &&& on && !key ==> obstacle == Some("PRIVATE_KEY is required for on-chain auto claim"@)
            &&& on && key && !hash ==> obstacle == Some("Invalid conditionId: "@ + condition_id)
            &&& on && key && hash && config.enable_gamma_resolution_fallback && text::trimmed(
                window_slug,
            ).len() == 0 ==> obstacle == Some("window slug is required for claim resolution"@)
        }),
        ({
            let funder = uint::fixed_hex(text::trimmed(config.funder_address@), 40) is Some;
            let contract = uint::fixed_hex(text::trimmed(config.ctf_contract@), 40) is Some;
            let coin = uint::fixed_hex(text::trimmed(config.usdc_address@), 40) is Some;
            let query = balance_query(config, yes_token_id, no_token_id);
            let call = direct_redeem(config, condition_id, true);
            &&& !funder ==> query == Err::<BalanceQueryView, Seq<char>>(
                "Invalid "@ + "FUNDER_ADDRESS"@ + ": "@ + text::trimmed(config.funder_address@),
            )
            &&& funder && !contract ==> query == Err::<BalanceQueryView, Seq<char>>(
                "Invalid "@ + "CTF_CONTRACT"@ + ": "@ + text::trimmed(config.ctf_contract@),
            )
            &&& !contract ==> call == Err::<DirectRedeemView, Seq<char>>(
                "Invalid "@ + "CTF_CONTRACT"@ + ": "@ + text::trimmed(config.ctf_contract@),
            )
            &&& contract && !coin ==> call == Err::<DirectRedeemView, Seq<char>>(
                "Invalid "@ + "USDC_E"@ + ": "@ + text::trimmed(config.usdc_address@),
            )
            &&& contract && coin && uint::fixed_hex(text::trimmed(condition_id), 64) is None ==> call
                == Err::<DirectRedeemView, Seq<char>>(
                "Invalid conditionId: "@ + text::trimmed(condition_id),
            )
            &&& direct_redeem(config, condition_id, false) == Err::<DirectRedeemView, Seq<char>>(
                "invalid PRIVATE_KEY format"@,
            )
        }),
{
}

/// A transaction that was not seen in time is told with its hash and the time; a redemption that failed
/// without a word is told as such, and so is a market that is not resolved.
pub proof fn silent_failures_are_told(
    tx_hash: Seq<char>,
    timeout_ms: u64,
    source: MarketResolutionSource,
    resolved_at_ms: u64,
    redeem: RedeemView,
    config: Config,
    window_slug: Seq<char>,
    known: Option<ResolutionCacheEntry>,
)
    ensures
        confirm(tx_hash, timeout_ms, None, true, true) == ConfirmMove::Failed(
            "TX_CONFIRMATION_TIMEOUT: tx="@ + tx_hash + ", timeout="@ + text::decimal(
                timeout_ms as nat,
            ) + "ms"@,
        ),
        !redeem.completed && redeem.error is None ==> after_redeem(
            source,
            resolved_at_ms,
            redeem,
        ).error == Some("redeem failed: unknown error"@),
        after_probe(false, None, resolved_at_ms) matches ClaimMove::Done(result) && result.error
            == Some("market unresolved"@),
        claim_start(config, window_slug, known) matches ClaimMove::Done(result) ==> result.error
            == Some(
            "market resolution fallback disabled (ENABLE_GAMMA_RESOLUTION_FALLBACK=false)"@,
        ) && result.resolution_source == Some(
            if known is Some {
                MarketResolutionSource::Cached
            } else {
                MarketResolutionSource::Polling
            },
        ),
{
}

/// A hexadecimal token is the number behind its `0x`; a token that is none is complained of with its
/// text.
pub proof fn hexadecimal_tokens_are_numbers(hex: Seq<char>, token_id: Seq<char>)
    requires
        0 < hex.len() <= 64,
        uint::all_hex(hex),
    ensures
        token_of(seq!['0', 'x'] + hex) == Ok::<nat, Seq<char>>(uint::hex_number(hex)),
        text::trimmed(token_id).len() == 0 ==> token_of(token_id) == Err::<nat, Seq<char>>(
            "empty token id"@,
        ),
        text::trimmed(token_id).len() > 0 && token_of(token_id) is Err && !text::begins_with(
            text::trimmed(token_id),
            "0x"@,
        ) ==> token_of(token_id) == Err::<nat, Seq<char>>(
            "Invalid decimal token id: "@ + text::trimmed(token_id),
        ),
        token_of(token_id) is Err && text::begins_with(text::trimmed(token_id), "0x"@) ==> token_of(
            token_id,
        ) == Err::<nat, Seq<char>>("Invalid hex token id: "@ + text::trimmed(token_id)),
{
    reveal_strlit("0x");
    let s = seq!['0', 'x'] + hex;
    assert(s.subrange(0, 2) =~= "0x"@);
    assert(s.skip(2) =~= hex);
    assert(text::is_hex(hex[0]));
    assert(text::is_hex(hex[hex.len() - 1]));
    if hex.len() >= 2 {
        assert(text::is_hex(hex[1]));
    }
    assert(s.last() == hex[hex.len() - 1]);
    text::white_space_around_does_not_count(Seq::empty(), s, Seq::empty());
    assert(Seq::<char>::empty() + s + Seq::<char>::empty() =~= s);
    if text::begins_with(text::trimmed(token_id), "0x"@) {
        text::beginning_is_a_part("0x"@, text::trimmed(token_id), Seq::empty());
    }
}

} // verus!

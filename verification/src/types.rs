//! The records that the parts of the bot hand to each other.
use vstd::prelude::*;
use crate::double::Double;
use crate::json;
use crate::json::{Entry, JsonTree};

verus! {

#[derive(Clone, Copy, Debug, PartialEq, Eq, Structural)]
pub enum MarketSide {
    Up,
    Down,
}

#[derive(Clone, Copy, Debug, PartialEq, Eq, Structural)]
pub enum TradeResult {
    Win,
    Loss,
}

#[derive(Clone, Copy, Debug, PartialEq, Eq, Structural)]
pub enum LivePriceSource {
    Binance,
    ChainlinkPublic,
}

#[derive(Clone, Copy, Debug, PartialEq, Eq, Structural)]
pub enum SettlementTxMode {
    DirectEthers,
    RelayerSafe,
}

#[derive(Clone, Copy, Debug, PartialEq, Eq, Structural)]
pub enum ClaimStatus {
    Pending,
    Success,
    Failed,
}

#[derive(Clone, Copy, Debug, PartialEq, Eq, Structural)]
pub enum MarketResolutionSource {
    Polling,
    Cached,
    GammaFallback,
}

#[derive(Clone, Copy, Debug, PartialEq, Eq, Structural)]
pub enum ExecutionStatus {
    Pending,
    Filled,
    Partial,
    Cancelled,
    Failed,
    Skipped,
}

#[derive(Clone, Copy, Debug, PartialEq, Eq, Structural)]
pub enum SettlementSource {
    Binance,
    Polymarket,
}

#[derive(Clone, Copy, Debug, PartialEq, Eq, Structural)]
pub enum ResultOrderStatus {
    Pending,
    Filled,
    Partial,
    Cancelled,
    Failed,
    Skipped,
    NotExecuted,
}

#[derive(Clone, Copy, Debug, PartialEq, Eq, Structural)]
pub enum SignatureType {
    Eoa,
    Safe,
    SmartContractWallet,
}

/// The number by which the exchange knows a kind of signature.
pub open spec fn signature_code(t: SignatureType) -> u8 {
    match t {
        SignatureType::Eoa => 0,
        SignatureType::Safe => 1,
        SignatureType::SmartContractWallet => 2,
    }
}

impl SignatureType {
    pub fn as_u8(self) -> (r: u8)
        ensures
            r == signature_code(self),
    {
        match self {
            SignatureType::Eoa => 0,
            SignatureType::Safe => 1,
            SignatureType::SmartContractWallet => 2,
        }
    }
}

impl MarketSide {
    pub open spec fn name(self) -> Seq<char> {
        match self {
            MarketSide::Up => "UP"@,
            MarketSide::Down => "DOWN"@,
        }
    }

    pub fn label(self) -> (r: &'static str)
        ensures
            r@ == self.name(),
    {
        match self {
            MarketSide::Up => "UP",
            MarketSide::Down => "DOWN",
        }
    }
}

/// A five-minute market, by its start.
pub struct MarketWindow {
    pub window_start_sec: u64,
    pub close_time_sec: u64,
    pub slug: String,
}

impl MarketWindow {
    pub fn copy(&self) -> (r: MarketWindow)
        ensures
            r == *self,
    {
        MarketWindow {
            window_start_sec: self.window_start_sec,
            close_time_sec: self.close_time_sec,
            slug: self.slug.clone(),
        }
    }
}

pub struct DiscoveredMarket {
    pub slug: String,
    pub condition_id: String,
    pub yes_token_id: String,
    pub no_token_id: String,
    pub question: String,
    pub yes_price: Option<Double>,
    pub no_price: Option<Double>,
}

impl DiscoveredMarket {
    pub fn copy(&self) -> (r: DiscoveredMarket)
        ensures
            r == *self,
    {
        DiscoveredMarket {
            slug: self.slug.clone(),
            condition_id: self.condition_id.clone(),
            yes_token_id: self.yes_token_id.clone(),
            no_token_id: self.no_token_id.clone(),
            question: self.question.clone(),
            yes_price: self.yes_price,
            no_price: self.no_price,
        }
    }
}

pub struct OrderBookSnapshot {
    pub best_bid: Double,
    pub best_ask: Double,
    pub asks_present: bool,
    pub ask_levels: usize,
    pub parsed_ask_levels: usize,
    pub min_order_size: Double,
    pub tick_size: String,
}

#[derive(Clone, Copy)]
pub struct SettlementOutcome {
    pub outcome: MarketSide,
    pub open_price: Double,
    pub close_price: Double,
    pub source: SettlementSource,
}

/// What became of an order.
pub struct ExecutionResult {
    pub status: ExecutionStatus,
    pub order_id: String,
    pub filled_price: Double,
    pub filled_size: Double,
    pub spent_usd: Double,
    pub used_fallback_limit: bool,
    pub raw_response: Vec<Entry>,
}

#[verifier::ext_equal]
pub struct ExecutionView {
    pub status: ExecutionStatus,
    pub order_id: Seq<char>,
    pub filled_price: Double,
    pub filled_size: Double,
    pub spent_usd: Double,
    pub used_fallback_limit: bool,
    pub raw: Seq<(Seq<char>, JsonTree)>,
}

impl ExecutionResult {
    pub open spec fn view(self) -> ExecutionView {
        ExecutionView {
            status: self.status,
            order_id: self.order_id@,
            filled_price: self.filled_price,
            filled_size: self.filled_size,
            spent_usd: self.spent_usd,
            used_fallback_limit: self.used_fallback_limit,
            raw: json::record(self.raw_response@),
        }
    }

    pub fn copy(&self) -> (r: ExecutionResult)
        ensures
            r@ == self@,
    {
        ExecutionResult {
            status: self.status,
            order_id: self.order_id.clone(),
            filled_price: self.filled_price,
            filled_size: self.filled_size,
            spent_usd: self.spent_usd,
            used_fallback_limit: self.used_fallback_limit,
            raw_response: json::copy_record(&self.raw_response),
        }
    }
}

pub struct ClaimProcessingResult {
    pub completed: bool,
    pub tx_hash: Option<String>,
    pub market_resolved: bool,
    pub resolution_source: Option<MarketResolutionSource>,
    pub market_resolved_at_ms: Option<u64>,
    pub error: Option<String>,
}

pub struct PendingClaim {
    pub trade_id: String,
    pub window_slug: String,
    pub condition_id: String,
    pub yes_token_id: String,
    pub no_token_id: String,
    pub created_at_ms: u64,
    pub poll_count: u64,
    pub claim_attempts: u64,
    pub last_update_ms: u64,
    pub last_error: Option<String>,
}

pub struct TradeRecord {
    pub id: String,
    pub timestamp_ms: u64,
    pub mode: String,
    pub window: MarketWindow,
    pub market: DiscoveredMarket,
    pub side: MarketSide,
    pub selected_ask_price: Double,
    pub selected_bid_price: Double,
    pub stake_usd: Double,
    pub execution: ExecutionResult,
    pub settlement: SettlementOutcome,
    pub outcome: TradeResult,
    pub redeemed_usd: Double,
    pub pnl_usd: Double,
    pub claim_status: Option<ClaimStatus>,
    pub claim_attempts: Option<u64>,
    pub claim_tx_hash: Option<String>,
    pub claim_last_error: Option<String>,
    pub claim_updated_at_ms: Option<u64>,
    pub market_resolved: Option<bool>,
    pub market_resolution_source: Option<MarketResolutionSource>,
    pub market_resolved_at_ms: Option<u64>,
}

pub struct ResultRow {
    pub market: String,
    pub time: String,
    pub side: MarketSide,
    pub result: TradeResult,
    pub bid_price: Double,
    pub mode: Option<String>,
    pub ask_price: Option<Double>,
    pub order_status: Option<ResultOrderStatus>,
    pub order_id: Option<String>,
    pub filled_price: Option<Double>,
    pub filled_size: Option<Double>,
    pub spent_usd: Option<Double>,
    pub redeemed_usd: Option<Double>,
    pub pnl_usd: Option<Double>,
    pub settlement_source: Option<SettlementSource>,
    pub claim_status: Option<ClaimStatus>,
    pub claim_tx_hash: Option<String>,
}

pub struct SelectedSideSnapshot {
    pub side: MarketSide,
    pub time: String,
    pub ask_price: Double,
    pub bid_price: Double,
}

/// The settings of a run.
pub struct Config {
    pub once: bool,
    pub debug: bool,
    pub heartbeat_interval_sec: u64,
    pub silent_watchdog_sec: u64,
    pub enable_live_trading: bool,
    pub stake_usd: Double,
    pub price_range_min: Double,
    pub price_range_max: Double,
    pub entry_price_gate_enabled: bool,
    pub entry_price_retry_interval_ms: u64,
    pub entry_price_max_retries: u64,
    pub entry_slippage_percent_buy: Double,
    pub enable_fallback_gtc_limit: bool,
    pub enable_stop_loss: bool,
    pub stop_loss_price_trigger: Double,
    pub interval_check_price_trigger_ms: u64,
    pub retry_sell: u64,
    pub stop_loss_timeout_sec: u64,
    pub stop_loss_order_type: String,
    pub stop_loss_submit_retry_interval_ms: u64,
    pub stop_loss_deadline_before_close_sec: u64,
    pub check_before_close_sec: u64,
    pub resolve_delay_sec: u64,
    pub idle_poll_interval_ms: u64,
    pub market_poll_interval_ms: u64,
    pub market_lookup_max_wait_ms: u64,
    pub order_retry_interval_ms: u64,
    pub order_max_attempts: u64,
    pub status_poll_interval_ms: u64,
    pub status_poll_grace_sec: u64,
    pub polymarket_clob_url: String,
    pub polymarket_gamma_url: String,
    pub binance_base_url: String,
    pub live_price_source: LivePriceSource,
    pub chainlink_btc_usd_feed_address: String,
    pub live_price_max_staleness_ms: u64,
    pub private_key: String,
    pub funder_address: String,
    pub signature_type: SignatureType,
    pub api_key: String,
    pub api_secret: String,
    pub api_passphrase: String,
    pub telegram_bot_token: Option<String>,
    pub telegram_chat_id: Option<String>,
    pub on_chain_auto_claim_enabled: bool,
    pub settlement_tx_mode: SettlementTxMode,
    pub relayer_base_url: String,
    pub relayer_api_key: Option<String>,
    pub relayer_api_key_address: Option<String>,
    pub relayer_request_timeout_ms: u64,
    pub relayer_poll_interval_ms: u64,
    pub relayer_max_polls: u64,
    pub relayer_allow_fallback_to_direct: bool,
    pub settlement_max_attempts: u64,
    pub settlement_retry_delay_ms: u64,
    pub enable_gamma_resolution_fallback: bool,
    pub redeem_gas_limit_multiplier: Double,
    pub redeem_min_gas_limit: u64,
    pub redeem_max_fee_per_gas_gwei: Double,
    pub redeem_max_priority_fee_per_gas_gwei: Double,
    pub redeem_internal_max_attempts: u64,
    pub redeem_internal_retry_base_delay_ms: u64,
    pub redeem_internal_retry_backoff_multiplier: Double,
    pub redeem_tx_confirm_timeout_ms: u64,
    pub polygon_rpc_url: String,
    pub ctf_contract: String,
    pub usdc_address: String,
    pub output_path: String,
    pub trades_output_path: String,
    pub loss_cooldown_minutes: u64,
    pub total_loss_trades: u64,
}

impl Config {
    pub open spec fn mode_name(self) -> Seq<char> {
        if self.enable_live_trading {
            "LIVE"@
        } else {
            "PAPER"@
        }
    }

    pub fn mode(&self) -> (r: &'static str)
        ensures
            r@ == self.mode_name(),
    {
        if self.enable_live_trading {
            "LIVE"
        } else {
            "PAPER"
        }
    }
}

/// The two sides have different names, and so have the two ways to run; the kinds of signatures have
/// the numbers zero, one and two.
pub proof fn names_tell_apart(config: Config, side: MarketSide, kind: SignatureType)
    ensures
        side == MarketSide::Up <==> side.name() == "UP"@,
        side == MarketSide::Down <==> side.name() == "DOWN"@,
        config.enable_live_trading <==> config.mode_name() == "LIVE"@,
        !config.enable_live_trading <==> config.mode_name() == "PAPER"@,
        signature_code(kind) == 0 <==> kind == SignatureType::Eoa,
        signature_code(kind) == 1 <==> kind == SignatureType::Safe,
        signature_code(kind) == 2 <==> kind == SignatureType::SmartContractWallet,
{
    reveal_strlit("UP");
    reveal_strlit("DOWN");
    reveal_strlit("LIVE");
    reveal_strlit("PAPER");
    assert("UP"@.len() == 2);
    assert("DOWN"@.len() == 4);
    assert("LIVE"@.len() == 4);
    assert("PAPER"@.len() == 5);
    assert("DOWN"@[0] != "LIVE"@[0]);
}

} // verus!

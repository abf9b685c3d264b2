use bot_core::config::load_v3_config;
use bot_core::data::market_discovery::GammaResolutionProbe;
use bot_core::double::Double;
use bot_core::settlement::result_resolver::resolve_window_outcome;
use bot_core::settlement::settlement_service::{
    attempt_redeem_positions, claim_after_probe, claim_after_redeem, classify_redeem_error,
    cleanup_resolution_cache, compute_trade_pnl, gwei_to_wei, has_token_ids,
    has_zero_redeemable_balance, key_of_condition, parse_address, parse_condition_id,
    parse_token_id, prepare_balance_query, process_pending_claim, redeem_direct, redeem_gas_limit,
    redeem_gas_price, redeemable_usd, step_redeem, wait_for_tx_confirmation_with_timeout,
    ClaimAction, ConfirmAction, Receipt, RedeemAction, RedeemAttemptResult, RedeemEvent,
    ResolutionCacheEntry,
};
use bot_core::table::Table;
use bot_core::types::{
    Config, ExecutionResult, ExecutionStatus, MarketResolutionSource, MarketSide, SettlementTxMode,
    TradeResult,
};
use bot_core::uint::Uint256;

const CONDITION: &str = "0xAA00000000000000000000000000000000000000000000000000000000000001";

fn d(value: f64) -> Double {
    Double { bits: value.to_bits() }
}

fn f(value: Double) -> f64 {
    f64::from_bits(value.bits)
}

fn config() -> Config {
    let mut config = match load_v3_config(&Vec::new(), "/srv/bot", &Vec::new()) {
        Ok(config) => config,
        Err(message) => panic!("{}", message),
    };
    config.private_key =
        "0x0000000000000000000000000000000000000000000000000000000000000001".to_owned();
    config.funder_address = "0x1111111111111111111111111111111111111111".to_owned();
    config
}

fn execution(size: f64, price: f64, spent: f64) -> ExecutionResult {
    ExecutionResult {
        status: ExecutionStatus::Filled,
        order_id: "0x1".to_owned(),
        filled_price: d(price),
        filled_size: d(size),
        spent_usd: d(spent),
        used_fallback_limit: false,
        raw_response: Vec::new(),
    }
}

#[test]
fn won_trade_pays_out_the_filled_size() {
    let trade = execution(1.25, 0.8, 1.0);
    let payout = f(redeemable_usd(&trade));
    assert_eq!(payout, 1.25);
    let pnl = compute_trade_pnl(MarketSide::Up, &trade, MarketSide::Up, d(payout - 1.0));
    assert_eq!(pnl.outcome, TradeResult::Win);
    assert_eq!(f(pnl.redeemed_usd), 1.25);
    assert_eq!(f(pnl.pnl_usd), 0.25);
}

#[test]
fn lost_trade_costs_what_was_spent() {
    let trade = execution(1.25, 0.8, 1.0);
    let pnl = compute_trade_pnl(MarketSide::Up, &trade, MarketSide::Down, d(99.0));
    assert_eq!(pnl.outcome, TradeResult::Loss);
    assert_eq!(f(pnl.redeemed_usd), 0.0);
    assert_eq!(f(pnl.pnl_usd), -1.0);
}

#[test]
fn pnl_ignores_the_quoted_price() {
    let a = compute_trade_pnl(
        MarketSide::Up,
        &execution(2.0, 0.1, 1.0),
        MarketSide::Up,
        d(1.0),
    );
    let b = compute_trade_pnl(
        MarketSide::Up,
        &execution(2.0, 0.9, 1.0),
        MarketSide::Up,
        d(1.0),
    );
    assert_eq!(a.pnl_usd, b.pnl_usd);
    assert_eq!(a.redeemed_usd, b.redeemed_usd);
}

#[test]
fn there_is_no_resolver_yet() {
    match resolve_window_outcome(&config(), 0, "slug") {
        Ok(_) => panic!("there is no resolver"),
        Err(message) => assert_eq!(message, "window outcome resolver is not implemented yet"),
    }
}

#[test]
fn identifiers_are_read_or_refused() {
    assert_eq!(
        parse_address("USDC_E", " 0x2791Bca1f2de4661ED88A30C99A7a9449Aa84174 ").unwrap(),
        "0x2791bca1f2de4661ed88a30c99a7a9449aa84174"
    );
    assert_eq!(parse_address("USDC_E", "x").unwrap_err(), "Invalid USDC_E: x");
    assert_eq!(
        parse_condition_id(CONDITION).unwrap(),
        "0xaa00000000000000000000000000000000000000000000000000000000000001"
    );
    assert_eq!(parse_condition_id("0x1").unwrap_err(), "Invalid conditionId: 0x1");
    assert_eq!(parse_token_id(" 12 ").unwrap().to_text(), "12");
    assert_eq!(parse_token_id("0xff").unwrap().to_text(), "255");
    assert_eq!(parse_token_id(" ").unwrap_err(), "empty token id");
    assert_eq!(parse_token_id("0xq").unwrap_err(), "Invalid hex token id: 0xq");
    assert_eq!(parse_token_id("1a").unwrap_err(), "Invalid decimal token id: 1a");
}

#[test]
fn redeem_errors_are_classified() {
    let cases = [
        ("Relayer down", "RELAYER_ERROR: Relayer down", true),
        ("out of GAS", "OUT_OF_GAS: out of GAS", true),
        ("Timeout", "RPC_TIMEOUT: Timeout", true),
        ("temporarily unavailable", "NETWORK_ERROR: temporarily unavailable", true),
        ("bad nonce", "NONCE_ERROR: bad nonce", true),
        ("insufficient funds", "INSUFFICIENT_BALANCE: insufficient funds", false),
        ("execution reverted", "TX_REVERTED: execution reverted", true),
        ("odd", "odd", false),
    ];
    for (message, expected, retryable) in cases {
        assert_eq!(classify_redeem_error(message), (expected.to_owned(), retryable));
    }
}

#[test]
fn gas_limit_has_a_margin_and_a_floor() {
    let config = config();
    let text = |estimate: Option<u64>, percent: u64| {
        redeem_gas_limit(&config, estimate.map(Uint256::from_u64), percent)
            .expect("the gas limit fits")
            .to_text()
    };
    assert_eq!(text(Some(400_001), 130), "520002");
    assert_eq!(text(Some(100), 130), "300000");
    assert_eq!(text(None, 130), "300000");
    let huge = Uint256 { w0: u64::MAX, w1: u64::MAX, w2: u64::MAX, w3: u64::MAX };
    assert!(redeem_gas_limit(&config, Some(huge), 100).is_none());
}

#[test]
fn gwei_is_a_billion_wei() {
    assert_eq!(gwei_to_wei("100.000000000").unwrap().to_text(), "100000000000");
    assert_eq!(gwei_to_wei("0.000000001").unwrap().to_text(), "1");
    assert_eq!(gwei_to_wei("many").unwrap_err(), "failed to parse gwei to wei");
    let mut config = config();
    match redeem_gas_price(&config, "100.000000000") {
        Ok(Some(price)) => assert_eq!(price.to_text(), "100000000000"),
        _ => panic!("a price is set"),
    }
    config.redeem_max_fee_per_gas_gwei = d(0.0);
    assert!(matches!(redeem_gas_price(&config, "0.000000000"), Ok(None)));
}

#[test]
fn confirmation_waits_looks_once_more_and_gives_up() {
    let wait = |receipt: Option<Receipt>, up: bool, last: bool| {
        wait_for_tx_confirmation_with_timeout("0xt", 120000, receipt, up, last)
    };
    assert!(matches!(wait(None, false, false), ConfirmAction::Sleep(1500)));
    assert!(matches!(wait(None, true, false), ConfirmAction::LastLook));
    assert!(matches!(
        wait(None, true, true),
        ConfirmAction::Failed(m) if m == "TX_CONFIRMATION_TIMEOUT: tx=0xt, timeout=120000ms"
    ));
    assert!(matches!(
        wait(Some(Receipt { reverted: true, tx_hash: "0xt".to_owned() }), false, false),
        ConfirmAction::Failed(m) if m == "TX_REVERTED: tx=0xt"
    ));
    assert!(matches!(
        wait(Some(Receipt { reverted: false, tx_hash: "0xr".to_owned() }), true, true),
        ConfirmAction::Confirmed(h) if h == "0xr"
    ));
}

#[test]
fn balances_are_asked_for_by_number() {
    let config = config();
    assert!(has_token_ids("1", "2"));
    assert!(!has_token_ids("1", " "));
    match prepare_balance_query(&config, "0x10", "17") {
        Ok(query) => {
            assert_eq!(query.owner, "0x1111111111111111111111111111111111111111");
            assert_eq!(query.contract, "0x4d97dcd97ec945f40cf65f87097ace5ea0476045");
            assert_eq!(query.yes_id.to_text(), "16");
            assert_eq!(query.no_id.to_text(), "17");
        }
        Err(message) => panic!("{}", message),
    }
    let mut broken = config;
    broken.funder_address = "me".to_owned();
    assert!(matches!(
        prepare_balance_query(&broken, "1", "2"),
        Err(message) if message == "Invalid FUNDER_ADDRESS: me"
    ));
    let zero = Uint256::from_u64(0);
    assert!(has_zero_redeemable_balance(Some((zero, zero))));
    assert!(!has_zero_redeemable_balance(Some((zero, Uint256::from_u64(1)))));
    assert!(!has_zero_redeemable_balance(None));
}

#[test]
fn direct_redemption_names_its_contracts() {
    match redeem_direct(&config(), CONDITION) {
        Ok(call) => {
            assert_eq!(call.contract, "0x4d97dcd97ec945f40cf65f87097ace5ea0476045");
            assert_eq!(call.collateral, "0x2791bca1f2de4661ed88a30c99a7a9449aa84174");
            assert_eq!(
                call.condition,
                "0xaa00000000000000000000000000000000000000000000000000000000000001"
            );
        }
        Err(message) => panic!("{}", message),
    }
    let mut broken = config();
    broken.private_key = "0xzz".to_owned();
    assert!(matches!(
        redeem_direct(&broken, CONDITION),
        Err(message) if message == "invalid PRIVATE_KEY format"
    ));
}

#[test]
fn redemption_goes_through_its_steps() {
    let config = config();
    let (attempt, action) = attempt_redeem_positions(CONDITION);
    assert_eq!(attempt, 1);
    assert!(matches!(action, RedeemAction::CheckBalances));
    let some = Some((Uint256::from_u64(1), Uint256::from_u64(0)));
    assert!(matches!(
        step_redeem(&config, 1, RedeemEvent::Balances(some)).1,
        RedeemAction::RedeemDirect
    ));
    let (next, action) =
        step_redeem(&config, 1, RedeemEvent::Failed("rpc timeout".to_owned()));
    assert_eq!(next, 2);
    assert!(matches!(action, RedeemAction::BackOff(0)));
    match step_redeem(&config, 3, RedeemEvent::Failed("rpc timeout".to_owned())).1 {
        RedeemAction::Done(result) => {
            assert!(!result.completed);
            assert_eq!(result.error.as_deref(), Some("RPC_TIMEOUT: rpc timeout"));
        }
        _ => panic!("the attempts are used up"),
    }
    match step_redeem(&config, 1, RedeemEvent::Redeemed("0xt".to_owned())).1 {
        RedeemAction::Done(result) => {
            assert!(result.completed);
            assert_eq!(result.tx_hash.as_deref(), Some("0xt"));
        }
        _ => panic!("the redemption succeeded"),
    }
    match attempt_redeem_positions("0x1").1 {
        RedeemAction::Done(result) => assert_eq!(
            result.error.as_deref(),
            Some("Invalid conditionId for redeem: 0x1")
        ),
        _ => panic!("the condition is none"),
    }
}

#[test]
fn nothing_to_redeem_is_done() {
    let zero = Uint256::from_u64(0);
    match step_redeem(&config(), 1, RedeemEvent::Balances(Some((zero, zero)))).1 {
        RedeemAction::Done(result) => {
            assert!(result.completed);
            assert!(result.tx_hash.is_none());
        }
        _ => panic!("there is nothing to redeem"),
    }
}

#[test]
fn relayer_falls_back_to_direct_where_allowed() {
    let mut config = config();
    config.settlement_tx_mode = SettlementTxMode::RelayerSafe;
    assert!(matches!(
        step_redeem(&config, 1, RedeemEvent::Balances(None)).1,
        RedeemAction::Relay
    ));
    assert!(matches!(
        step_redeem(&config, 1, RedeemEvent::RelayFailed("down".to_owned())).1,
        RedeemAction::RedeemDirect
    ));
    config.relayer_allow_fallback_to_direct = false;
    let (next, action) = step_redeem(&config, 1, RedeemEvent::RelayFailed("down".to_owned()));
    assert_eq!(next, 2);
    assert!(matches!(action, RedeemAction::BackOff(0)));
}

#[test]
fn claims_stop_at_their_obstacles() {
    let mut cache: Table<ResolutionCacheEntry> = Table::new();
    let mut error_of = |config: &Config, slug: &str, condition: &str| {
        match process_pending_claim(config, slug, condition, &mut cache, 1000) {
            ClaimAction::Done(result) => result.error.unwrap_or_default(),
            _ => "none".to_owned(),
        }
    };
    let mut off = config();
    off.on_chain_auto_claim_enabled = false;
    assert_eq!(error_of(&off, "slug", CONDITION), "auto-claim disabled");
    let mut keyless = config();
    keyless.private_key = " ".to_owned();
    assert_eq!(
        error_of(&keyless, "slug", CONDITION),
        "PRIVATE_KEY is required for on-chain auto claim"
    );
    assert_eq!(error_of(&config(), "slug", "0x1"), "Invalid conditionId: 0x1");
    assert_eq!(
        error_of(&config(), " ", CONDITION),
        "window slug is required for claim resolution"
    );
    let mut blind = config();
    blind.enable_gamma_resolution_fallback = false;
    assert_eq!(
        error_of(&blind, "", CONDITION),
        "market resolution fallback disabled (ENABLE_GAMMA_RESOLUTION_FALLBACK=false)"
    );
}

fn probe(resolved: bool, error: Option<&str>) -> GammaResolutionProbe {
    GammaResolutionProbe {
        resolved,
        yes_payout: None,
        no_payout: None,
        error: error.map(|e| e.to_owned()),
    }
}

#[test]
fn resolution_that_was_found_is_remembered_for_a_while() {
    let config = config();
    let mut cache: Table<ResolutionCacheEntry> = Table::new();
    match process_pending_claim(&config, " slug ", CONDITION, &mut cache, 1000) {
        ClaimAction::Probe { slug } => assert_eq!(slug, "slug"),
        _ => panic!("the market is looked at first"),
    }
    let key = key_of_condition(CONDITION);
    assert_eq!(key, CONDITION.to_lowercase());
    match claim_after_probe(probe(true, None), &key, &mut cache, 2000) {
        ClaimAction::Redeem { source, resolved_at_ms } => {
            assert_eq!(source, MarketResolutionSource::GammaFallback);
            assert_eq!(resolved_at_ms, 2000);
        }
        _ => panic!("the market is resolved"),
    }
    match process_pending_claim(&config, "slug", CONDITION, &mut cache, 602_000) {
        ClaimAction::Redeem { source, resolved_at_ms } => {
            assert_eq!(source, MarketResolutionSource::Cached);
            assert_eq!(resolved_at_ms, 2000);
        }
        _ => panic!("the resolution is remembered"),
    }
    assert!(matches!(
        process_pending_claim(&config, "slug", CONDITION, &mut cache, 602_001),
        ClaimAction::Probe { .. }
    ));
    assert_eq!(cache.len(), 0);
}

#[test]
fn old_resolutions_are_forgotten() {
    let mut cache: Table<ResolutionCacheEntry> = Table::new();
    cache.insert("a", ResolutionCacheEntry { timestamp_ms: 0, resolved: true });
    cache.insert("b", ResolutionCacheEntry { timestamp_ms: 5, resolved: true });
    cleanup_resolution_cache(&mut cache, 600_005);
    assert!(!cache.contains("a"));
    assert!(cache.contains("b"));
}

#[test]
fn claim_ends_with_its_redemption() {
    let mut cache: Table<ResolutionCacheEntry> = Table::new();
    match claim_after_probe(probe(false, None), "k", &mut cache, 1) {
        ClaimAction::Done(result) => {
            assert_eq!(result.error.as_deref(), Some("market unresolved"));
            assert!(!result.market_resolved);
        }
        _ => panic!("the market is unresolved"),
    }
    let failed = claim_after_redeem(
        MarketResolutionSource::Cached,
        7,
        RedeemAttemptResult { completed: false, tx_hash: None, error: None },
    );
    assert_eq!(failed.error.as_deref(), Some("redeem failed: unknown error"));
    assert!(failed.market_resolved);
    let done = claim_after_redeem(
        MarketResolutionSource::Cached,
        7,
        RedeemAttemptResult { completed: true, tx_hash: Some("0xt".to_owned()), error: None },
    );
    assert!(done.completed);
    assert_eq!(done.market_resolved_at_ms, Some(7));
}

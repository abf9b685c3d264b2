use bot_core::double::Double;
use bot_core::storage::record_lines;
use bot_core::storage::result_logger::{log_result_row, LogStatus};
use bot_core::storage::trade_logger::{update_trade_claim_status, ClaimStatusUpdate};
use bot_core::types::{
    ClaimStatus, DiscoveredMarket, ExecutionResult, ExecutionStatus, MarketSide, MarketWindow,
    ResultRow, SettlementOutcome, SettlementSource, TradeRecord, TradeResult,
};

fn d(value: f64) -> Double {
    Double { bits: value.to_bits() }
}

fn row(market: &str) -> ResultRow {
    ResultRow {
        market: market.to_owned(),
        time: "now".to_owned(),
        side: MarketSide::Up,
        result: TradeResult::Win,
        bid_price: d(0.5),
        mode: None,
        ask_price: None,
        order_status: None,
        order_id: None,
        filled_price: None,
        filled_size: None,
        spent_usd: None,
        redeemed_usd: None,
        pnl_usd: None,
        settlement_source: None,
        claim_status: None,
        claim_tx_hash: None,
    }
}

fn record(id: &str) -> TradeRecord {
    TradeRecord {
        id: id.to_owned(),
        timestamp_ms: 5,
        mode: "LIVE".to_owned(),
        window: MarketWindow {
            window_start_sec: 0,
            close_time_sec: 300,
            slug: "btc-updown-5m-0".to_owned(),
        },
        market: DiscoveredMarket {
            slug: "btc-updown-5m-0".to_owned(),
            condition_id: "0xc".to_owned(),
            yes_token_id: "1".to_owned(),
            no_token_id: "2".to_owned(),
            question: "up?".to_owned(),
            yes_price: None,
            no_price: None,
        },
        side: MarketSide::Up,
        selected_ask_price: d(0.8),
        selected_bid_price: d(0.7),
        stake_usd: d(1.0),
        execution: ExecutionResult {
            status: ExecutionStatus::Filled,
            order_id: "0x1".to_owned(),
            filled_price: d(0.8),
            filled_size: d(1.25),
            spent_usd: d(1.0),
            used_fallback_limit: false,
            raw_response: Vec::new(),
        },
        settlement: SettlementOutcome {
            outcome: MarketSide::Up,
            open_price: d(1.0),
            close_price: d(2.0),
            source: SettlementSource::Binance,
        },
        outcome: TradeResult::Win,
        redeemed_usd: d(1.25),
        pnl_usd: d(0.25),
        claim_status: Some(ClaimStatus::Pending),
        claim_attempts: Some(0),
        claim_tx_hash: None,
        claim_last_error: Some("old".to_owned()),
        claim_updated_at_ms: None,
        market_resolved: Some(false),
        market_resolution_source: None,
        market_resolved_at_ms: None,
    }
}

#[test]
fn one_row_per_market_is_logged() {
    let mut rows = vec![row("a"), row("b")];
    assert_eq!(log_result_row(&rows, &row("b")), LogStatus::SkippedDuplicate);
    assert_eq!(log_result_row(&rows, &row("c")), LogStatus::Written);
    rows.push(row("c"));
    assert_eq!(log_result_row(&rows, &row("c")), LogStatus::SkippedDuplicate);
    assert_eq!(log_result_row(&Vec::new(), &row("a")), LogStatus::Written);
}

#[test]
fn blank_lines_of_a_log_are_passed_over() {
    assert_eq!(record_lines("{\"a\":1}\r\n\n  {\"b\":2}  \n"), vec!["{\"a\":1}", "{\"b\":2}"]);
    assert!(record_lines("").is_empty());
}

#[test]
fn update_touches_the_first_trade_of_its_name() {
    let mut records = vec![record("a"), record("b"), record("b")];
    let changed = update_trade_claim_status(
        &mut records,
        "b",
        ClaimStatusUpdate {
            claim_status: Some(ClaimStatus::Success),
            claim_attempts: Some(1),
            claim_tx_hash: Some("0xt".to_owned()),
            ..ClaimStatusUpdate::default()
        },
    );
    assert!(changed);
    assert_eq!(records[0].claim_status, Some(ClaimStatus::Pending));
    assert_eq!(records[1].claim_status, Some(ClaimStatus::Success));
    assert_eq!(records[1].claim_attempts, Some(1));
    assert_eq!(records[1].claim_tx_hash.as_deref(), Some("0xt"));
    assert_eq!(records[1].claim_last_error.as_deref(), Some("old"));
    assert_eq!(records[1].market_resolved, Some(false));
    assert_eq!(records[2].claim_status, Some(ClaimStatus::Pending));
}

#[test]
fn update_of_an_unknown_trade_changes_nothing() {
    let mut records = vec![record("a")];
    let changed = update_trade_claim_status(
        &mut records,
        "z",
        ClaimStatusUpdate {
            claim_status: Some(ClaimStatus::Failed),
            ..ClaimStatusUpdate::default()
        },
    );
    assert!(!changed);
    assert_eq!(records[0].claim_status, Some(ClaimStatus::Pending));
}

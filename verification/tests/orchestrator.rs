use bot_core::config::load_v3_config;
use bot_core::double::Double;
use bot_core::json::{parse, Json, Reading};
use bot_core::notifications::telegram_notifier::create_telegram_notifier;
use bot_core::orchestrator::claims::{
    claim_status_from_record, restore_pending_claims_from_history, should_manage_claims,
    sweep_pending_claims, to_pending_claim,
};
use bot_core::orchestrator::cycle::{
    begin_lookup, report_entry, select_side_candidate, settle_trade, trade_id, trade_id_with,
    CycleOutcome, EntryReport, SelectAction, SideCandidate, WindowSet,
};
use bot_core::orchestrator::cycle_run::{run_cycle, CycleAction, CycleEnd, CycleRun};
use bot_core::orchestrator::messages::{
    entry_message, exit_order_message, parse_post_fill_sell_limit_outcome, pnl_sign,
    startup_message, trade_message, trade_result_label, unfilled_entry_message,
};
use bot_core::orchestrator::rounds::{
    finish_cycle, run_orchestrator, single_round, RoundAction, RunState, SinglePlan,
};
use bot_core::storage::trade_logger::update_trade_claim_status;
use bot_core::table::Table;
use bot_core::types::{
    ClaimProcessingResult, ClaimStatus, Config, DiscoveredMarket, ExecutionResult, ExecutionStatus,
    MarketResolutionSource, MarketSide, MarketWindow, OrderBookSnapshot, PendingClaim,
    SettlementOutcome, SettlementSource, TradeRecord, TradeResult,
};

fn d(value: f64) -> Double {
    Double { bits: value.to_bits() }
}

fn f(value: Double) -> f64 {
    f64::from_bits(value.bits)
}

fn config() -> Config {
    let mut config = match load_v3_config(&Vec::new(), "/srv/bot", &Vec::new()) {
        Ok(config) => config,
        Err(message) => panic!("{}", message),
    };
    config.enable_live_trading = true;
    config
}

#[test]
fn single_round_sweeps_behind_its_cycle() {
    assert_eq!(single_round(true, true), SinglePlan { cycle: false, sweep: false });
    assert_eq!(single_round(true, false), SinglePlan { cycle: false, sweep: false });
    assert_eq!(single_round(false, false), SinglePlan { cycle: true, sweep: false });
    assert_eq!(single_round(false, true), SinglePlan { cycle: true, sweep: true });
}

fn window() -> MarketWindow {
    MarketWindow {
        window_start_sec: 3000,
        close_time_sec: 3300,
        slug: "btc-updown-5m-3000".to_owned(),
    }
}

fn market() -> DiscoveredMarket {
    DiscoveredMarket {
        slug: "btc-updown-5m-3000".to_owned(),
        condition_id: "0xc".to_owned(),
        yes_token_id: "1".to_owned(),
        no_token_id: "2".to_owned(),
        question: "up?".to_owned(),
        yes_price: None,
        no_price: None,
    }
}

fn book(ask: f64) -> Option<OrderBookSnapshot> {
    Some(OrderBookSnapshot {
        best_bid: d(ask - 0.02),
        best_ask: d(ask),
        asks_present: true,
        ask_levels: 1,
        parsed_ask_levels: 1,
        min_order_size: d(5.0),
        tick_size: "0.01".to_owned(),
    })
}

fn execution(size: f64, spent: f64, raw: &str) -> ExecutionResult {
    let raw_response = match parse(raw) {
        Some(Json::Object(entries)) => entries,
        _ => panic!("an object"),
    };
    ExecutionResult {
        status: ExecutionStatus::Filled,
        order_id: "0x1".to_owned(),
        filled_price: d(0.8),
        filled_size: d(size),
        spent_usd: d(spent),
        used_fallback_limit: false,
        raw_response,
    }
}

fn settled(config: &Config, id: &str) -> (TradeRecord, Option<PendingClaim>, CycleOutcome) {
    let chosen = SideCandidate {
        side: MarketSide::Up,
        token_id: "1".to_owned(),
        ask_price: d(0.8),
        bid_price: d(0.78),
    };
    let settlement = SettlementOutcome {
        outcome: MarketSide::Up,
        open_price: d(1.0),
        close_price: d(2.0),
        source: SettlementSource::Binance,
    };
    let trade = settle_trade(
        config,
        &window(),
        &market(),
        &chosen,
        &execution(1.25, 1.0, "{}"),
        settlement,
        d(0.25),
        id,
        77,
    );
    (trade.record, trade.claim, trade.outcome)
}

#[test]
fn cycle_begins_only_once_per_window() {
    let config = config();
    let mut windows = WindowSet::new();
    let (run, action) = run_cycle(&config, &mut windows, window());
    assert!(matches!(action, CycleAction::WaitUntil(3290)));
    let (run, action) = run.on_clock(&mut windows, 3300);
    assert!(matches!(action, CycleAction::Done(CycleEnd::WindowClosed)));
    assert_eq!(run.outcome(), Some(CycleOutcome::NoTrade));
    let (run, action) = run_cycle(&config, &mut windows, window());
    assert!(matches!(action, CycleAction::Done(CycleEnd::AlreadyProcessed)));
    assert_eq!(run.outcome(), Some(CycleOutcome::NoTrade));
}

#[test]
fn paper_mode_trades_nothing() {
    let mut config = config();
    config.enable_live_trading = false;
    let mut windows = WindowSet::new();
    let (_, action) = run_cycle(&config, &mut windows, window());
    assert!(matches!(action, CycleAction::Done(CycleEnd::LiveTradingDisabled)));
    assert!(windows.contains(3000));
}

#[test]
fn old_windows_are_forgotten_when_there_are_many() {
    let config = config();
    let mut windows = WindowSet::new();
    for i in 0..512u64 {
        windows.insert(i * 300);
    }
    let current = MarketWindow {
        window_start_sec: 153_600,
        close_time_sec: 153_900,
        slug: "s".to_owned(),
    };
    let (_, action) = run_cycle(&config, &mut windows, current);
    assert!(matches!(action, CycleAction::WaitUntil(153_890)));
    assert!(windows.contains(150_000));
    assert!(!windows.contains(149_700));
}

fn entering(config: &Config, windows: &mut WindowSet) -> CycleRun {
    let (run, _) = run_cycle(config, windows, window());
    let (run, action) = run.on_clock(windows, 3290);
    assert!(matches!(action, CycleAction::FetchMarket { slug } if slug == window().slug));
    let (run, action) = run.on_market(config, windows, None, 3291);
    assert!(matches!(action, CycleAction::Sleep(500)));
    let (run, action) = run.on_pause_over(config, windows);
    assert!(matches!(action, CycleAction::FetchMarket { .. }));
    let (run, action) = run.on_market(config, windows, Some(market()), 3292);
    assert!(matches!(action, CycleAction::FetchBook { side: MarketSide::Up, .. }));
    let (run, action) = run.on_book(config, windows, &book(0.8));
    match action {
        CycleAction::Enter { side, token_id, stake_usd, close_time_sec, .. } => {
            assert_eq!(side, MarketSide::Up);
            assert_eq!(token_id, "1");
            assert_eq!(f(stake_usd), f(config.stake_usd));
            assert_eq!(close_time_sec, 3300);
        }
        _ => panic!("UP is within the band"),
    }
    run
}

#[test]
fn cycle_ends_with_a_settled_trade_and_marks_its_window() {
    let config = config();
    let mut windows = WindowSet::new();
    let mut open: Table<PendingClaim> = Table::new();
    let run = entering(&config, &mut windows);
    let (run, action) =
        run.on_execution(&config, &mut windows, Some(execution(1.25, 1.0, "{}")));
    assert!(matches!(action, CycleAction::Resolve { at_sec: 3302 }));
    assert!(run.bought().is_some());
    assert!(!windows.contains(3000));
    let settlement = SettlementOutcome {
        outcome: MarketSide::Down,
        open_price: d(2.0),
        close_price: d(1.0),
        source: SettlementSource::Binance,
    };
    let (run, action) =
        run.on_settlement(&config, &mut windows, &mut open, Some(settlement), d(0.25), "t", 77);
    assert_eq!(run.outcome(), Some(CycleOutcome::Loss));
    match action {
        CycleAction::Done(CycleEnd::Settled(record)) => {
            assert_eq!(record.id, "t");
            assert_eq!(record.outcome, TradeResult::Loss);
        }
        _ => panic!("the trade is settled"),
    }
    assert!(windows.contains(3000));
    assert_eq!(open.contains("t"), should_manage_claims(&config));
    let (_, action) = run_cycle(&config, &mut windows, window());
    assert!(matches!(action, CycleAction::Done(CycleEnd::AlreadyProcessed)));
}

#[test]
fn cycle_without_a_trade_marks_its_window() {
    let config = config();
    let mut windows = WindowSet::new();
    let (run, _) = run_cycle(&config, &mut windows, window());
    let (run, _) = run.on_clock(&mut windows, 3290);
    let (_, action) = run.on_market(&config, &mut windows, None, 3300);
    assert!(matches!(action, CycleAction::Done(CycleEnd::MarketNotFound)));
    assert!(windows.contains(3000));

    let mut windows = WindowSet::new();
    let (run, _) = run_cycle(&config, &mut windows, window());
    let (run, _) = run.on_clock(&mut windows, 3290);
    let (run, _) = run.on_market(&config, &mut windows, Some(market()), 3290);
    let (run, _) = run.on_book(&config, &mut windows, &None);
    let (_, action) = run.on_book(&config, &mut windows, &None);
    assert!(matches!(action, CycleAction::Done(CycleEnd::NoCandidate)));
    assert!(windows.contains(3000));

    let mut windows = WindowSet::new();
    let run = entering(&config, &mut windows);
    let late = execution(0.0, 0.0, r#"{"reason": "late"}"#);
    let (_, action) = run.on_execution(&config, &mut windows, Some(late));
    assert!(matches!(
        action,
        CycleAction::Done(CycleEnd::NotFilled { reason }) if reason == "late"
    ));
    assert!(windows.contains(3000));

    let mut windows = WindowSet::new();
    let mut open: Table<PendingClaim> = Table::new();
    let run = entering(&config, &mut windows);
    let (run, _) = run.on_execution(&config, &mut windows, Some(execution(1.25, 1.0, "{}")));
    let (_, action) =
        run.on_settlement(&config, &mut windows, &mut open, None, d(0.0), "t", 77);
    assert!(matches!(action, CycleAction::Done(CycleEnd::Unresolved)));
    assert!(windows.contains(3000));
    assert!(!open.contains("t"));
}

#[test]
fn failed_entry_leaves_its_window_open() {
    let config = config();
    let mut windows = WindowSet::new();
    let run = entering(&config, &mut windows);
    let (run, action) = run.on_execution(&config, &mut windows, None);
    assert!(matches!(action, CycleAction::Done(CycleEnd::EntryFailed)));
    assert_eq!(run.outcome(), None);
    assert!(!windows.contains(3000));
}

#[test]
fn market_is_looked_for_until_the_deadline() {
    let config = config();
    let lookup = begin_lookup(100);
    assert_eq!(lookup.started_at_ms, 100_000);
    assert_eq!(lookup.lookup_market_until_deadline(&config, 3300, 111), Some(500));
    assert_eq!(lookup.lookup_market_until_deadline(&config, 3300, 112), None);
    assert_eq!(lookup.lookup_market_until_deadline(&config, 101, 101), None);
}

#[test]
fn up_comes_first() {
    let config = config();
    let (selection, action) = select_side_candidate(&market());
    assert!(matches!(
        action,
        SelectAction::FetchBook { side: MarketSide::Up, ref token_id } if token_id == "1"
    ));
    match selection.on_book(&config, &market(), &book(0.8)).1 {
        SelectAction::Done(Some(chosen)) => {
            assert_eq!(chosen.side, MarketSide::Up);
            assert_eq!(f(chosen.ask_price), 0.8);
        }
        _ => panic!("UP is within the band"),
    }
}

#[test]
fn down_is_taken_where_up_is_out_of_the_band() {
    let config = config();
    let (selection, _) = select_side_candidate(&market());
    let (selection, action) = selection.on_book(&config, &market(), &book(0.2));
    assert!(matches!(action, SelectAction::FetchBook { side: MarketSide::Down, .. }));
    match selection.on_book(&config, &market(), &book(0.81)).1 {
        SelectAction::Done(Some(chosen)) => assert_eq!(chosen.side, MarketSide::Down),
        _ => panic!("DOWN is within the band"),
    }
}

#[test]
fn prices_that_may_rise_are_checked_again() {
    let mut config = config();
    config.entry_price_max_retries = 1;
    config.entry_price_retry_interval_ms = 250;
    let (selection, _) = select_side_candidate(&market());
    let (selection, _) = selection.on_book(&config, &market(), &book(0.5));
    let (selection, action) = selection.on_book(&config, &market(), &book(0.5));
    assert!(matches!(action, SelectAction::Sleep(250)));
    let (selection, action) = selection.on_pause_over(&market());
    assert!(matches!(action, SelectAction::FetchBook { side: MarketSide::Up, .. }));
    let (selection, _) = selection.on_book(&config, &market(), &book(0.5));
    let (_, action) = selection.on_book(&config, &market(), &book(0.5));
    assert!(matches!(action, SelectAction::Done(None)));
}

#[test]
fn price_above_the_band_is_not_checked_again() {
    let mut config = config();
    config.entry_price_max_retries = 5;
    let (selection, _) = select_side_candidate(&market());
    let (selection, _) = selection.on_book(&config, &market(), &book(0.99));
    assert!(matches!(
        selection.on_book(&config, &market(), &book(0.02)).1,
        SelectAction::Done(None)
    ));
}

#[test]
fn entry_is_reported() {
    let config = config();
    let mut windows = WindowSet::new();
    assert!(matches!(
        report_entry(&config, &mut windows, &window(), &execution(1.25, 1.0, "{}")),
        EntryReport::Filled { resolve_target_sec: 3302 }
    ));
    assert!(!windows.contains(3000));
    match report_entry(
        &config,
        &mut windows,
        &window(),
        &execution(0.0, 0.0, r#"{"reason": "late"}"#),
    ) {
        EntryReport::NotFilled { reason } => assert_eq!(reason, "late"),
        _ => panic!("nothing was bought"),
    }
    assert!(windows.contains(3000));
}

#[test]
fn trades_have_names_of_their_own() {
    assert_eq!(trade_id_with(3000, "ff"), "v2_3000_ff");
    let a = trade_id(3000);
    let b = trade_id(3000);
    assert!(a != b);
    let suffix = a.strip_prefix("v2_3000_").expect("the name begins with its window");
    assert_eq!(suffix.len(), 32);
    assert!(suffix.chars().all(|c| c.is_ascii_digit() || ('a'..='f').contains(&c)));
}

#[test]
fn settled_trade_is_recorded_and_claimed() {
    let (record, claim, outcome) = settled(&config(), "t");
    assert_eq!(outcome, CycleOutcome::Win);
    assert_eq!(record.outcome, TradeResult::Win);
    assert_eq!(f(record.redeemed_usd), 1.25);
    assert_eq!(f(record.pnl_usd), 0.25);
    assert_eq!(f(record.stake_usd), 1.0);
    assert_eq!(record.mode, "LIVE");
    assert_eq!(record.claim_status, Some(ClaimStatus::Pending));
    let claim = claim.expect("claims are made");
    assert_eq!(claim.trade_id, "t");
    assert_eq!(claim.created_at_ms, 77);
    let again = to_pending_claim(&record, 77).expect("the claim is open");
    assert_eq!(again.trade_id, claim.trade_id);
    assert_eq!(again.claim_attempts, 0);
    let mut off = config();
    off.on_chain_auto_claim_enabled = false;
    assert!(!should_manage_claims(&off));
    let (record, claim, _) = settled(&off, "t");
    assert!(claim.is_none());
    assert!(record.claim_status.is_none());
}

#[test]
fn open_claims_are_restored_from_the_log() {
    let config = config();
    let (first, _, _) = settled(&config, "a");
    let (second, _, _) = settled(&config, "a");
    let (mut done, _, _) = settled(&config, "b");
    done.claim_status = Some(ClaimStatus::Success);
    let (mut blank, _, _) = settled(&config, "c");
    blank.market.condition_id = " ".to_owned();
    let (mut hashed, _, _) = settled(&config, "d");
    hashed.claim_status = None;
    hashed.claim_tx_hash = Some("0xt".to_owned());
    assert_eq!(claim_status_from_record(&hashed), ClaimStatus::Success);
    let mut claims: Table<PendingClaim> = Table::new();
    let count = restore_pending_claims_from_history(
        &vec![first, second, done, blank, hashed],
        &mut claims,
        5,
    );
    assert_eq!(count, 1);
    assert_eq!(claims.names(), vec!["a".to_owned()]);
}

fn processed(completed: bool, resolved: bool, error: Option<&str>) -> ClaimProcessingResult {
    ClaimProcessingResult {
        completed,
        tx_hash: if completed { Some("0xt".to_owned()) } else { None },
        market_resolved: resolved,
        resolution_source: Some(MarketResolutionSource::Cached),
        market_resolved_at_ms: None,
        error: error.map(|e| e.to_owned()),
    }
}

fn one_claim(attempts: u64) -> Table<PendingClaim> {
    let (record, _, _) = settled(&config(), "a");
    let mut claim = to_pending_claim(&record, 1).expect("the claim is open");
    claim.claim_attempts = attempts;
    let mut claims: Table<PendingClaim> = Table::new();
    claims.insert("a", claim);
    claims
}

#[test]
fn settled_claim_leaves() {
    let mut claims = one_claim(0);
    let step = sweep_pending_claims(&config(), &mut claims, "a", Ok(processed(true, true, None)), 9)
        .expect("the claim is open");
    assert!(step.settled);
    assert_eq!(claims.len(), 0);
    assert_eq!(step.update.claim_status, Some(ClaimStatus::Success));
    assert_eq!(step.update.claim_attempts, Some(1));
    assert_eq!(
        step.notice.as_deref(),
        Some("[POLYMARKET BOT CLAIM OK]\ntrade : a\nwindow: btc-updown-5m-3000\ntx    : 0xt")
    );
}

#[test]
fn unresolved_market_costs_no_attempt() {
    let mut claims = one_claim(2);
    let step = sweep_pending_claims(
        &config(),
        &mut claims,
        "a",
        Ok(processed(false, false, Some("wait"))),
        9,
    )
    .expect("the claim is open");
    assert!(step.notice.is_none());
    let claim = claims.get("a").expect("the claim stays open");
    assert_eq!(claim.claim_attempts, 2);
    assert_eq!(claim.poll_count, 1);
    assert_eq!(claim.last_error.as_deref(), Some("wait"));
}

#[test]
fn claim_is_given_up_after_its_attempts() {
    let mut claims = one_claim(2);
    let step = sweep_pending_claims(
        &config(),
        &mut claims,
        "a",
        Ok(processed(false, true, Some("no gas"))),
        9,
    )
    .expect("the claim is open");
    assert_eq!(step.update.claim_status, Some(ClaimStatus::Failed));
    assert_eq!(claims.len(), 0);
    assert_eq!(
        step.notice.as_deref(),
        Some("[POLYMARKET BOT CLAIM FAIL]\ntrade : a\nwindow: btc-updown-5m-3000\nreason: no gas")
    );
    let mut claims = one_claim(1);
    let step = sweep_pending_claims(&config(), &mut claims, "a", Err("rpc".to_owned()), 9)
        .expect("the claim is open");
    assert_eq!(step.update.claim_status, Some(ClaimStatus::Pending));
    assert_eq!(claims.get("a").map(|c| c.claim_attempts), Some(2));
    assert!(sweep_pending_claims(&config(), &mut claims, "z", Err("x".to_owned()), 9).is_none());
}

#[test]
fn log_and_open_claims_agree() {
    let (record, _, _) = settled(&config(), "a");
    let mut log = vec![record];
    let mut claims = one_claim(2);
    let step = sweep_pending_claims(&config(), &mut claims, "a", Err("rpc".to_owned()), 9)
        .expect("the claim is open");
    assert!(step.next.is_none());
    assert!(update_trade_claim_status(&mut log, "a", step.update));
    assert!(to_pending_claim(&log[0], 10).is_none());
}

#[test]
fn losses_pause_trading_until_it_is_resumed() {
    let mut config = config();
    config.telegram_bot_token = Some("T".to_owned());
    config.telegram_chat_id = Some("1".to_owned());
    config.total_loss_trades = 2;
    let mut notifier = create_telegram_notifier(&config);
    let mut state = RunState::new();
    assert!(finish_cycle(&mut state, &config, &mut notifier, CycleOutcome::Win, 10).is_empty());
    assert!(finish_cycle(&mut state, &config, &mut notifier, CycleOutcome::Loss, 10).is_empty());
    assert!(!notifier.is_paused());
    let said = finish_cycle(&mut state, &config, &mut notifier, CycleOutcome::Loss, 20);
    assert_eq!(
        said,
        vec![
            "[POLYMARKET BOT CONTROL]\nTrading paused (use /resume to continue).\nReason: loss trades reached 2/2",
            "[POLYMARKET BOT LOSS GUARD]\nlosses   : 2/2\nnext step: send /resume to continue",
        ]
    );
    assert!(notifier.is_paused());
    let plan = run_orchestrator(&mut state, notifier.is_paused(), 30);
    assert_eq!(plan.action, RoundAction::Wait(2000));
    assert!(notifier.set_paused(false, None).is_some());
    let plan = run_orchestrator(&mut state, notifier.is_paused(), 40);
    assert_eq!(plan.action, RoundAction::RunCycle);
    assert_eq!(
        plan.notices,
        vec!["[POLYMARKET BOT LOSS GUARD RESET]\nlosses   : 0\nstate    : RUNNING"]
    );
    assert_eq!(state.losses_since_resume, 0);
}

#[test]
fn loss_lets_trading_cool_down() {
    let mut config = config();
    config.loss_cooldown_minutes = 2;
    let mut notifier = create_telegram_notifier(&config);
    let mut state = RunState::new();
    let said = finish_cycle(&mut state, &config, &mut notifier, CycleOutcome::Loss, 1000);
    assert_eq!(
        said,
        vec!["[POLYMARKET BOT LOSS COOLDOWN]\nminutes  : 2\nnext step: waiting before next entry"]
    );
    assert_eq!(state.loss_cooldown_until_sec, Some(1120));
    assert_eq!(run_orchestrator(&mut state, false, 1119).action, RoundAction::Wait(2000));
    let plan = run_orchestrator(&mut state, false, 1120);
    assert_eq!(plan.action, RoundAction::RunCycle);
    assert_eq!(plan.notices, vec!["[POLYMARKET BOT LOSS COOLDOWN END]\nstate    : RUNNING"]);
    config.loss_cooldown_minutes = u64::MAX;
    let _ = finish_cycle(&mut state, &config, &mut notifier, CycleOutcome::Loss, 1000);
    assert_eq!(state.loss_cooldown_until_sec, Some(u64::MAX));
}

#[test]
fn messages_are_worded() {
    assert_eq!(trade_result_label(true), "WIN");
    assert_eq!(trade_result_label(false), "LOSS");
    assert_eq!(
        startup_message(&config(), "1.00"),
        "[POLYMARKET BOT RUST START]\nmode      : LIVE\nstake     : $1.00\ncommands  : /pause /resume /status"
    );
    assert_eq!(
        entry_message("s", MarketSide::Up, ExecutionStatus::Filled, "0x1", "1.0000", "1.250000"),
        "[POLYMARKET BOT ENTRY]\nmarket: s\nside  : UP\nstatus: FILLED\norder : 0x1\nspent : $1.0000\nfilled: 1.250000"
    );
    assert_eq!(
        unfilled_entry_message("s", MarketSide::Down, ExecutionStatus::Skipped, "late"),
        "[POLYMARKET BOT ENTRY]\nmarket: s\nside  : DOWN\nstatus: SKIPPED\nreason: late"
    );
    assert_eq!(pnl_sign(d(0.0)), "+");
    assert_eq!(pnl_sign(d(-1.0)), "");
    assert_eq!(
        trade_message(ExecutionStatus::Filled, "s", MarketSide::Up, "1.00", d(0.25), "0.25"),
        "[POLYMARKET BOT TRADE FILLED]\nwindow  : s\nside    : UP\nspent   : $1.00\npnl     : +$0.25"
    );
}

#[test]
fn exit_order_is_told() {
    let sold = execution(
        1.0,
        1.0,
        r#"{"postFillSellLimit": {"enabled": true, "attempted": true, "success": true,
            "size": 1.25, "finalPrice": "0.5", "status": "live", "orderId": "0x2"}}"#,
    );
    let outcome = parse_post_fill_sell_limit_outcome(&sold.raw_response).expect("it is enabled");
    assert!(outcome.success);
    assert!(matches!(outcome.final_price, Some(Reading::Text(ref s)) if s == "0.5"));
    assert!(matches!(outcome.size, Some(Reading::Double(_))));
    assert_eq!(
        exit_order_message("s", MarketSide::Up, "", &outcome, "1.250000", &None),
        "[POLYMARKET BOT EXIT ORDER OK]\nwindow   : s\nside     : UP\nbuyOrder : n/a\nsellType : GTC\nsellStat : live\nsellId   : 0x2\nsellQty  : 1.250000\nsellPx   : n/a\nattempted: yes\nretryable: n/a\nerrCode  : -\nerrPhase : -\nerrMsg   : -"
    );
    let off = execution(1.0, 1.0, r#"{"postFillSellLimit": {"enabled": false}}"#);
    assert!(parse_post_fill_sell_limit_outcome(&off.raw_response).is_none());
}

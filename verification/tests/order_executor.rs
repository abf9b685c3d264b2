use bot_core::config::load_v3_config;
use bot_core::double::Double;
use bot_core::execution::order_executor::{
    execute_live_entry, follow_fallback, submit_fok_buy, submit_limit_fallback, EntryAction,
    SubmitVerdict,
};
use bot_core::execution::price_band::{
    attach_fill_band_audit, buy_band_reject_reason, clamp_price, fallback_limit_price,
};
use bot_core::execution::spent::{
    compute_spent_usd, fallback_context, fok_context, SpentComputationContext,
    SpentComputationMode,
};
use bot_core::execution::status_poll::{
    begin_poll, judge_status, poll_in_time, poll_round, should_log_poll_warning,
    status_poll_deadline_sec, unseen_result, PollAction, PollRound,
};
use bot_core::execution::submit_error::{
    apply_balance_limited_sell_size, classify_submit_error_message, compact_error_message,
    parse_balance_amount_from_rejection,
};
use bot_core::execution::submit_response::{
    extract_order_id, extract_status_record, extract_submit_error_message, extract_submit_success,
    infer_submit_error_code, is_non_retryable_submit_error, summarize_top_level_keys, value_shape,
};
use bot_core::json::{find_member, parse, Entry, Json};
use bot_core::types::{Config, ExecutionResult, ExecutionStatus, OrderBookSnapshot};

fn d(value: f64) -> Double {
    Double { bits: value.to_bits() }
}

fn f(value: Double) -> f64 {
    f64::from_bits(value.bits)
}

fn json(text: &str) -> Json {
    parse(text).expect("valid JSON")
}

fn config() -> Config {
    match load_v3_config(&Vec::new(), "/srv/bot", &Vec::new()) {
        Ok(config) => config,
        Err(message) => panic!("{}", message),
    }
}

fn text_of(entries: &Vec<Entry>, key: &str) -> Option<String> {
    match find_member(entries, key) {
        Some(Json::Text(s)) => Some(s.clone()),
        _ => None,
    }
}

#[test]
fn computes_market_buy_spent_from_requested_stake() {
    let spent = compute_spent_usd(
        SpentComputationContext {
            mode: SpentComputationMode::MarketBuyRequestedStake,
            requested_stake_usd: Some(d(1.0)),
        },
        "MATCHED",
        d(2.5),
        d(0.45),
        d(2.5 * 0.45),
    );

    assert!((f(spent.spent_usd) - 1.0).abs() < 0.000001);
    assert_eq!(spent.spent_source, "requested_stake_market_buy");
}

#[test]
fn computes_partial_market_buy_spent_capped() {
    let spent = compute_spent_usd(
        SpentComputationContext {
            mode: SpentComputationMode::MarketBuyRequestedStake,
            requested_stake_usd: Some(d(1.0)),
        },
        "CANCELLED",
        d(0.5),
        d(0.7),
        d(0.5 * 0.7),
    );

    assert!((f(spent.spent_usd) - 0.35).abs() < 0.000001);
    assert_eq!(
        spent.spent_source,
        "requested_stake_market_buy_capped_partial"
    );
}

#[test]
fn partial_market_buy_never_costs_more_than_its_stake() {
    let spent = compute_spent_usd(
        SpentComputationContext {
            mode: SpentComputationMode::MarketBuyRequestedStake,
            requested_stake_usd: Some(d(1.0)),
        },
        "LIVE",
        d(3.0),
        d(0.9),
        d(3.0 * 0.9),
    );
    assert_eq!(f(spent.spent_usd), 1.0);
    assert_eq!(f(spent.implied_spent_usd), 3.0 * 0.9);
}

#[test]
fn limit_order_costs_size_times_price() {
    let spent = compute_spent_usd(
        SpentComputationContext {
            mode: SpentComputationMode::FillSizeXPrice,
            requested_stake_usd: Some(d(1.0)),
        },
        "MATCHED",
        d(2.0),
        d(0.25),
        d(0.5),
    );
    assert_eq!(f(spent.spent_usd), 0.5);
    assert_eq!(spent.spent_source, "filled_size_x_price");
    assert!(spent.requested_stake_usd.is_none());
}

#[test]
fn extracts_order_id_from_nested_data_payload() {
    let payload = json(r#"{"success": true, "data": {"order": {"orderId": "0xabc123"}}}"#);

    assert_eq!(extract_order_id(&payload), "0xabc123");
}

#[test]
fn extracts_order_id_from_plain_string_payload() {
    let payload = json(r#""0xdef456""#);
    assert_eq!(extract_order_id(&payload), "0xdef456");
}

#[test]
fn extracts_status_record_from_wrapped_array_payload() {
    let payload = json(
        r#"[{"data": {"order": {"status": "MATCHED", "size_matched": "10", "price": "0.42"}}}]"#,
    );

    let record = extract_status_record(&payload).expect("status record should be detected");
    assert_eq!(text_of(record, "status").as_deref(), Some("MATCHED"));
    assert_eq!(text_of(record, "size_matched").as_deref(), Some("10"));
}

#[test]
fn detects_submit_error_and_code() {
    let payload = json(
        r#"{"success": false, "errorMsg": "INVALID_ORDER_MIN_SIZE: order too small"}"#,
    );

    assert_eq!(extract_submit_success(&payload), Some(false));
    assert_eq!(
        extract_submit_error_message(&payload),
        Some("INVALID_ORDER_MIN_SIZE: order too small".to_owned())
    );

    let error_code = extract_submit_error_message(&payload)
        .as_deref()
        .and_then(infer_submit_error_code);
    assert_eq!(error_code.as_deref(), Some("INVALID_ORDER_MIN_SIZE"));
    assert!(is_non_retryable_submit_error(error_code.as_deref()));
}

#[test]
fn keeps_non_retryable_code_for_balance_digits_without_http_status() {
    let message = "not enough balance / allowance. balance: 1048840, order amount: 1050000";
    let classified = classify_submit_error_message(message);

    assert_eq!(classified.code, "NON_RETRYABLE_REQUEST");
    assert!(!classified.retryable);
}

#[test]
fn shrinks_post_fill_sell_size_from_balance_rejection_message() {
    let message = "not enough balance / allowance. balance: 1048840, order amount: 1050000";
    let digits = parse_balance_amount_from_rejection(message).expect("the message has a balance");
    assert_eq!(digits, "1048840");
    let balance = digits.parse::<f64>().unwrap() / 1_000_000.0;
    let safe = ((balance - 0.01) * 100.0).floor() / 100.0;
    let adjusted = apply_balance_limited_sell_size(d(1.05), message, d(balance), d(safe))
        .expect("balance-limited adjustment should produce reduced size");

    assert!((f(adjusted.0) - 1.04884).abs() < 0.000001);
    assert!((f(adjusted.1) - 1.03).abs() < 0.000001);
}

#[test]
fn size_never_grows_on_a_rejection() {
    let message = "not enough balance / allowance. balance: 9000000";
    assert!(apply_balance_limited_sell_size(d(1.05), message, d(9.0), d(8.99)).is_none());
    assert!(apply_balance_limited_sell_size(d(1.05), "rejected", d(0.5), d(0.49)).is_none());
}

#[test]
fn ignores_non_hash_generic_id_for_submit_payload() {
    let payload = json(r#"{"success": false, "id": "12345", "errorMsg": "INVALID_ORDER_MIN_SIZE"}"#);

    assert_eq!(extract_order_id(&payload), "");
}

#[test]
fn compacts_error_messages() {
    assert_eq!(compact_error_message("a\n  b\tc", 100), "a b c");
    assert_eq!(compact_error_message("abcdef", 3), "abc");
}

#[test]
fn names_the_shapes_of_answers() {
    assert_eq!(value_shape(&json("null")), "null");
    assert_eq!(value_shape(&json("[1]")), "array");
    assert_eq!(value_shape(&json("{\"a\":1}")), "object");
    assert_eq!(summarize_top_level_keys(&json("{\"b\":1,\"a\":2}")), "a,b");
    let unordered = Json::Object(vec![
        Entry { key: "b".to_owned(), value: Json::Null },
        Entry { key: "a".to_owned(), value: Json::Null },
    ]);
    assert_eq!(summarize_top_level_keys(&unordered), "a,b");
}

#[test]
fn price_band_rejects_both_ends() {
    let config = config();
    assert_eq!(buy_band_reject_reason(d(0.74), &config), Some("below_min"));
    assert_eq!(buy_band_reject_reason(d(0.75), &config), None);
    assert_eq!(buy_band_reject_reason(d(0.95), &config), None);
    assert_eq!(buy_band_reject_reason(d(0.96), &config), Some("above_max"));
    let mut open = config;
    open.entry_price_gate_enabled = false;
    assert_eq!(buy_band_reject_reason(d(0.01), &open), None);
}

#[test]
fn prices_are_clamped_to_the_reach_of_the_exchange() {
    assert_eq!(f(clamp_price(d(0.0))), 0.01);
    assert_eq!(f(clamp_price(d(0.5))), 0.5);
    assert_eq!(f(clamp_price(d(1.5))), 0.99);
    assert_eq!(f(clamp_price(d(f64::NAN))), 0.99);
}

#[test]
fn fallback_price_is_within_the_band() {
    let config = config();
    let price = f(fallback_limit_price(&config));
    assert!(0.75 <= price && price <= 0.95);
    match submit_limit_fallback(&config) {
        Ok(offered) => assert_eq!(f(offered), price),
        Err(_) => panic!("the fallback price is within the band"),
    }
}

#[test]
fn fill_outside_the_band_is_noted() {
    let filled = ExecutionResult {
        status: ExecutionStatus::Filled,
        order_id: "0x1".to_owned(),
        filled_price: d(0.99),
        filled_size: d(1.0),
        spent_usd: d(0.99),
        used_fallback_limit: false,
        raw_response: Vec::new(),
    };
    let audited = attach_fill_band_audit(filled, &config());
    assert!(!audited.raw_response.is_empty());
    assert_eq!(f(audited.filled_price), 0.99);
}

#[test]
fn rejected_order_is_not_followed() {
    let answer = json(r#"{"success": false, "errorMsg": "INVALID_ORDER_MIN_SIZE: too small"}"#);
    match submit_fok_buy(&config(), &answer, d(0.8), d(1.0), 1000) {
        SubmitVerdict::Rejected(result) => {
            assert_eq!(result.status, ExecutionStatus::Failed);
            assert_eq!(
                text_of(&result.raw_response, "submitErrorCode").as_deref(),
                Some("INVALID_ORDER_MIN_SIZE")
            );
            assert!(matches!(
                find_member(&result.raw_response, "submitTerminalNoRetry"),
                Some(Json::Bool(true))
            ));
        }
        _ => panic!("the order was rejected"),
    }
}

fn submitted(config: &Config, answer: &str) -> SubmitVerdict {
    submit_fok_buy(config, &json(answer), d(0.8), d(1.0), 1000)
}

#[test]
fn accepted_order_is_followed_by_its_id() {
    let config = config();
    match submitted(&config, r#"{"success": true, "orderID": "0xabc"}"#) {
        SubmitVerdict::Follow(run) => assert!(matches!(
            run.on_time(&config, 900),
            PollAction::FetchStatus { order_id } if order_id == "0xabc"
        )),
        _ => panic!("the order has an id"),
    }
    assert!(matches!(submitted(&config, r#"{"success": true}"#), SubmitVerdict::NoOrderId));
    assert!(follow_fallback(&config, &json("{}"), d(0.8), 1000).is_none());
}

#[test]
fn order_sent_for_a_stake_is_recorded_at_it() {
    let config = config();
    let mut run = match submitted(&config, r#"{"success": true, "orderID": "0xabc"}"#) {
        SubmitVerdict::Follow(run) => run,
        _ => panic!("the order has an id"),
    };
    let open = json(r#"{"status": "live", "size_matched": "0", "price": "0.8"}"#);
    let status = match run.on_status(&config, Some(&open)) {
        PollAction::Convert(status) => status,
        _ => panic!("the answer has a status"),
    };
    assert!(matches!(
        run.on_numbers(&config, &status, d(0.0), d(0.8), d(0.0)),
        PollAction::Sleep(1000)
    ));
    let filled = json(r#"{"status": "matched", "size_matched": "2", "price": "0.8"}"#);
    let status = match run.on_status(&config, Some(&filled)) {
        PollAction::Convert(status) => status,
        _ => panic!("the answer has a status"),
    };
    match run.on_numbers(&config, &status, d(2.0), d(0.8), d(1.6)) {
        PollAction::Done(result) => {
            assert_eq!(result.status, ExecutionStatus::Filled);
            assert_eq!(f(result.spent_usd), 1.0);
            assert!(!result.used_fallback_limit);
        }
        _ => panic!("the order is filled"),
    }
}

#[test]
fn fallback_order_is_recorded_at_its_fill() {
    let config = config();
    let mut run = follow_fallback(&config, &json(r#"{"orderID": "0xabc"}"#), d(0.8), 1000)
        .expect("the order has an id");
    let filled = json(r#"{"status": "filled", "size_matched": "2", "price": "0.8"}"#);
    let status = match run.on_status(&config, Some(&filled)) {
        PollAction::Convert(status) => status,
        _ => panic!("the answer has a status"),
    };
    match run.on_numbers(&config, &status, d(2.0), d(0.8), d(1.6)) {
        PollAction::Done(result) => {
            assert_eq!(f(result.spent_usd), 1.6);
            assert!(result.used_fallback_limit);
        }
        _ => panic!("the order is filled"),
    }
    assert!(fok_context(d(1.0)).mode == SpentComputationMode::MarketBuyRequestedStake);
    assert!(fallback_context().requested_stake_usd.is_none());
}

#[test]
fn poll_stops_at_the_eighth_unusable_answer_or_when_the_time_is_up() {
    let config = config();
    let mut run = match submitted(&config, r#"{"success": true, "orderID": "0xabc"}"#) {
        SubmitVerdict::Follow(run) => run,
        _ => panic!("the order has an id"),
    };
    for _ in 0..7 {
        assert!(matches!(run.on_status(&config, Some(&json("null"))), PollAction::Sleep(1000)));
    }
    match run.on_time(&config, 1006) {
        PollAction::Done(result) => assert_eq!(
            text_of(&result.raw_response, "reason").as_deref(),
            Some("order_status_poll_timeout")
        ),
        _ => panic!("the time is up"),
    }
    match run.on_status(&config, None) {
        PollAction::Done(result) => {
            assert_eq!(result.status, ExecutionStatus::Pending);
            assert_eq!(
                text_of(&result.raw_response, "reason").as_deref(),
                Some("order_status_unavailable")
            );
        }
        _ => panic!("no more such answers are tolerated"),
    }
}

#[test]
fn missing_status_is_retried_until_the_count_is_used_up() {
    let mut counts = begin_poll();
    assert!(matches!(poll_round(&mut counts, None), PollRound::Unavailable));
    assert_eq!(counts.empty_status_count, 1);
    assert!(matches!(
        poll_round(&mut counts, Some(&json("\"pending\""))),
        PollRound::Unavailable
    ));
    assert_eq!(counts.unsupported_payload_count, 1);
    assert!(!counts.aborted_due_to_unavailable);
    for _ in 0..6 {
        assert!(matches!(poll_round(&mut counts, None), PollRound::Unavailable));
    }
    assert!(counts.aborted_due_to_unavailable);
}

#[test]
fn filled_market_buy_is_recorded_at_its_stake() {
    let config = config();
    let mut counts = begin_poll();
    let answer = json(r#"{"status": "matched", "size_matched": "1.25", "price": "0.8"}"#);
    let status = match poll_round(&mut counts, Some(&answer)) {
        PollRound::Read(status) => status,
        PollRound::Unavailable => panic!("the answer has a status"),
    };
    assert_eq!(status.raw_status, "MATCHED");
    let context = SpentComputationContext {
        mode: SpentComputationMode::MarketBuyRequestedStake,
        requested_stake_usd: Some(d(1.0)),
    };
    let result = judge_status(
        &config, "0x1", &status, d(1.25), d(0.8), d(1.25 * 0.8), context, false,
    )
    .expect("a filled order is settled");
    assert_eq!(result.status, ExecutionStatus::Filled);
    assert_eq!(f(result.spent_usd), 1.0);
    assert_eq!(f(result.filled_size), 1.25);
}

#[test]
fn order_without_status_is_left_pending_or_failed() {
    let config = config();
    let result = unseen_result(
        &config,
        &json("{}"),
        begin_poll(),
        100,
        "0x1".to_owned(),
        d(0.8),
        false,
    );
    assert!(result.status != ExecutionStatus::Filled);
    assert_eq!(result.order_id, "0x1");
    assert_eq!(f(result.spent_usd), 0.0);
}

#[test]
fn poll_deadline_and_warnings() {
    assert_eq!(status_poll_deadline_sec(100, 5), 105);
    assert_eq!(status_poll_deadline_sec(u64::MAX, 5), u64::MAX);
    assert!(poll_in_time(104, 105));
    assert!(!poll_in_time(106, 105));
    assert!(should_log_poll_warning(3));
    assert!(!should_log_poll_warning(4));
    assert!(should_log_poll_warning(5));
}

fn book(ask: f64, present: bool) -> OrderBookSnapshot {
    OrderBookSnapshot {
        best_bid: d(0.7),
        best_ask: d(ask),
        asks_present: present,
        ask_levels: 1,
        parsed_ask_levels: 1,
        min_order_size: d(5.0),
        tick_size: "0.01".to_owned(),
    }
}

#[test]
fn entry_submits_at_the_quoted_price_and_ends_with_its_fill() {
    let config = config();
    let (mut run, start) = execute_live_entry("77", d(1.0), 1000, 900);
    assert!(matches!(start, EntryAction::Sleep(0)));
    assert!(matches!(run.on_time(&config, 900), EntryAction::FetchOrderbook { .. }));
    assert!(matches!(
        run.on_orderbook(&config, &book(0.8, true)),
        EntryAction::FetchTickSize { .. }
    ));
    match run.on_tick_size(&config, Some("0.01".to_owned()), 901) {
        EntryAction::Quote { best_ask, max_price, tick_size } => {
            assert_eq!(f(best_ask), 0.8);
            assert_eq!(f(max_price), 0.95);
            assert_eq!(tick_size, "0.01");
        }
        _ => panic!("the price is worked out next"),
    }
    match run.on_quote(&config, d(0.93), d(0.93)) {
        EntryAction::SubmitFok { token_id, stake_usd, final_price, .. } => {
            assert_eq!(token_id, "77");
            assert_eq!(f(stake_usd), 1.0);
            assert_eq!(f(final_price), 0.93);
        }
        _ => panic!("the order is submitted next"),
    }
    let filled = ExecutionResult {
        status: ExecutionStatus::Filled,
        order_id: "0x1".to_owned(),
        filled_price: d(0.8),
        filled_size: d(1.25),
        spent_usd: d(1.0),
        used_fallback_limit: false,
        raw_response: Vec::new(),
    };
    assert!(matches!(
        run.on_fok_result(&config, Some(filled), 902),
        EntryAction::AttachSell(_)
    ));
    assert_eq!(run.diagnostics().last_attempt_status.as_deref(), Some("FOK_FILLED"));
}

#[test]
fn entry_stops_at_a_price_outside_the_band() {
    let config = config();
    let (mut run, _) = execute_live_entry("77", d(1.0), 1000, 900);
    let _ = run.on_time(&config, 900);
    let _ = run.on_orderbook(&config, &book(0.97, true));
    match run.on_tick_size(&config, None, 901) {
        EntryAction::Done(result) => {
            assert_eq!(result.status, ExecutionStatus::Skipped);
            assert_eq!(
                text_of(&result.raw_response, "reason").as_deref(),
                Some("buy_price_gate_reject")
            );
            assert_eq!(text_of(&result.raw_response, "gateReason").as_deref(), Some("above_max"));
        }
        _ => panic!("the band does not allow the price"),
    }
}

#[test]
fn entry_gives_up_after_its_attempts() {
    let mut config = config();
    config.order_max_attempts = 2;
    let (mut run, _) = execute_live_entry("77", d(1.0), 1000, 900);
    let _ = run.on_time(&config, 900);
    assert!(matches!(
        run.on_orderbook_error(&config, "timeout", 900),
        EntryAction::Sleep(1000)
    ));
    let _ = run.on_time(&config, 901);
    match run.on_orderbook_error(&config, "timeout", 901) {
        EntryAction::Done(result) => assert_eq!(
            text_of(&result.raw_response, "reason").as_deref(),
            Some("order_max_attempts_exceeded")
        ),
        _ => panic!("the attempts are used up"),
    }
}

#[test]
fn entry_into_a_closed_window_is_skipped() {
    let (_, start) = execute_live_entry("77", d(1.0), 1000, 1000);
    match start {
        EntryAction::Done(result) => assert_eq!(
            text_of(&result.raw_response, "reason").as_deref(),
            Some("window_already_closed")
        ),
        _ => panic!("the window is closed"),
    }
}

#[test]
fn entry_waits_for_sellers_where_that_is_enabled() {
    let mut config = config();
    config.enable_fallback_gtc_limit = true;
    let (mut run, _) = execute_live_entry("77", d(1.0), 1000, 900);
    let _ = run.on_time(&config, 900);
    let _ = run.on_orderbook(&config, &book(0.8, false));
    match run.on_tick_size(&config, None, 901) {
        EntryAction::SubmitLimitFallback { token_id, stake_usd, tick_size } => {
            assert_eq!(token_id, "77");
            assert_eq!(f(stake_usd), 1.0);
            assert_eq!(tick_size, "0.01");
        }
        _ => panic!("an order that waits is submitted next"),
    }
    assert!(matches!(run.on_fallback_result(&config, None, 902), EntryAction::Sleep(1000)));
    assert_eq!(run.diagnostics().last_attempt_status.as_deref(), Some("GTC_NO_ORDER_ID"));
    assert_eq!(run.diagnostics().no_asks_count, 1);

    config.enable_fallback_gtc_limit = false;
    let _ = run.on_time(&config, 903);
    let _ = run.on_orderbook(&config, &book(0.8, false));
    match run.on_tick_size(&config, None, 999) {
        EntryAction::Done(result) => assert_eq!(
            text_of(&result.raw_response, "reason").as_deref(),
            Some("entry_time_budget_exhausted_after_attempt")
        ),
        _ => panic!("the close is nearer than the next attempt"),
    }
}

#[test]
fn entry_that_must_not_be_repeated_ends() {
    let config = config();
    let (mut run, _) = execute_live_entry("77", d(1.0), 1000, 900);
    let _ = run.on_time(&config, 900);
    let _ = run.on_orderbook(&config, &book(0.8, true));
    let _ = run.on_tick_size(&config, None, 901);
    let _ = run.on_quote(&config, d(0.93), d(0.93));
    let answer = json(r#"{"success": false, "errorMsg": "invalid_order_min_size: 5"}"#);
    let result = match submit_fok_buy(&config, &answer, d(0.93), d(1.0), 1000) {
        SubmitVerdict::Rejected(result) => result,
        _ => panic!("the order was rejected"),
    };
    assert!(matches!(run.on_fok_result(&config, Some(result), 902), EntryAction::Done(_)));
    assert_eq!(run.diagnostics().last_attempt_status.as_deref(), Some("FOK_TERMINAL_NO_RETRY"));
}

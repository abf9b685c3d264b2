use bot_core::config::load_v3_config;
use bot_core::double::Double;
use bot_core::execution::post_fill_sell::{
    attach_post_fill_sell_limit, begin_exit, best_bid_of, rejection_balance, skip_record,
    submit_post_fill_sell_limit, watch_stop_loss, ExitStep, SellAction, WatchAction,
};
use bot_core::failure::Failure;
use bot_core::json::{find_member, parse, Entry, Json};
use bot_core::types::{Config, ExecutionResult, ExecutionStatus, OrderBookSnapshot};

fn d(value: f64) -> Double {
    Double { bits: value.to_bits() }
}

fn f(value: Double) -> f64 {
    f64::from_bits(value.bits)
}

fn config() -> Config {
    let mut config = match load_v3_config(&Vec::new(), "/srv/bot", &Vec::new()) {
        Ok(config) => config,
        Err(message) => panic!("{}", message),
    };
    config.enable_stop_loss = true;
    config.retry_sell = 2;
    config
}

fn json(text: &str) -> Json {
    parse(text).expect("valid JSON")
}

fn text_of(entries: &Vec<Entry>, key: &str) -> Option<String> {
    match find_member(entries, key) {
        Some(Json::Text(s)) => Some(s.clone()),
        _ => None,
    }
}

#[test]
fn trigger_is_waited_for() {
    let config = config();
    assert_eq!(
        watch_stop_loss(&config, 100, 400, 100, Some(d(0.6))),
        WatchAction::Sleep(500)
    );
    assert_eq!(watch_stop_loss(&config, 100, 400, 101, Some(d(0.5))), WatchAction::Sell);
    assert_eq!(watch_stop_loss(&config, 100, 400, 101, None), WatchAction::Sleep(500));
    assert_eq!(
        watch_stop_loss(&config, 100, 400, 395, Some(d(0.1))),
        WatchAction::SkipNearClose
    );
    assert_eq!(
        watch_stop_loss(&config, 100, 4000, 400, Some(d(0.6))),
        WatchAction::SkipTimeout
    );
}

#[test]
fn bid_counts_only_where_there_is_one() {
    let mut book = OrderBookSnapshot {
        best_bid: d(0.0),
        best_ask: d(0.5),
        asks_present: true,
        ask_levels: 1,
        parsed_ask_levels: 1,
        min_order_size: d(5.0),
        tick_size: "0.01".to_owned(),
    };
    assert!(best_bid_of(&book).is_none());
    book.best_bid = d(0.4);
    assert_eq!(best_bid_of(&book).map(f), Some(0.4));
}

#[test]
fn nothing_is_sold_where_nothing_was_bought() {
    match submit_post_fill_sell_limit(&config(), "77", d(0.0)).1 {
        SellAction::Done(record) => {
            assert_eq!(text_of(&record, "status").as_deref(), Some("skipped_no_filled_size"))
        }
        _ => panic!("there is nothing to sell"),
    }
}

#[test]
fn sale_is_submitted_and_recorded() {
    let (mut run, action) = submit_post_fill_sell_limit(&config(), "77", d(1.25));
    assert!(matches!(action, SellAction::FetchTickSize { ref token_id } if token_id == "77"));
    match run.on_tick_size(None) {
        SellAction::Round { price, tick_size } => {
            assert_eq!(f(price), 0.5);
            assert_eq!(tick_size, "0.01");
        }
        _ => panic!("the price is rounded next"),
    }
    match run.on_rounded(d(0.5)) {
        SellAction::Submit { wait_ms, size, price, .. } => {
            assert_eq!(wait_ms, 0);
            assert_eq!(f(size), 1.25);
            assert_eq!(f(price), 0.5);
        }
        _ => panic!("the order is submitted next"),
    }
    match run.on_answer(&json(r#"{"success": true, "orderID": "0x9"}"#), d(0.0), d(0.0)) {
        SellAction::Done(record) => {
            assert_eq!(text_of(&record, "orderId").as_deref(), Some("0x9"));
            assert!(matches!(find_member(&record, "success"), Some(Json::Bool(true))));
        }
        _ => panic!("the order is in"),
    }
}

#[test]
fn smaller_size_is_tried_after_a_rejection() {
    let (mut run, _) = submit_post_fill_sell_limit(&config(), "77", d(1.05));
    let _ = run.on_tick_size(Some("0.01".to_owned()));
    let _ = run.on_rounded(d(0.5));
    let answer = json(
        r#"{"success": false, "errorMsg": "not enough balance / allowance. balance: 1048840"}"#,
    );
    assert_eq!(rejection_balance(&answer).as_deref(), Some("1048840"));
    match run.on_answer(&answer, d(1.04884), d(1.03)) {
        SellAction::Submit { wait_ms, size, .. } => {
            assert_eq!(wait_ms, 500);
            assert_eq!(f(size), 1.03);
        }
        _ => panic!("there is a try left"),
    }
    let error = Failure::of("operation timed out").behind("failed to post order".to_owned());
    match run.on_error(&error, false) {
        SellAction::Done(record) => {
            assert_eq!(
                text_of(&record, "errorMsg").as_deref(),
                Some("failed to post order -> operation timed out")
            );
            assert_eq!(
                text_of(&record, "status").as_deref(),
                Some("order_submit_failed_retries_exhausted")
            );
        }
        _ => panic!("the tries are used up"),
    }
}

#[test]
fn sale_is_attached_to_the_fill() {
    let record = skip_record(&config(), "77", d(1.0), true);
    assert_eq!(text_of(&record, "errorCode").as_deref(), Some("STOP_LOSS_TIMEOUT"));
    let filled = ExecutionResult {
        status: ExecutionStatus::Filled,
        order_id: "0x1".to_owned(),
        filled_price: d(0.8),
        filled_size: d(1.25),
        spent_usd: d(1.0),
        used_fallback_limit: false,
        raw_response: Vec::new(),
    };
    let mut config = config();
    config.enable_stop_loss = true;
    let filled = match begin_exit(&config, filled) {
        ExitStep::Watch(result) => result,
        ExitStep::Done(_) => panic!("the stop-loss is on"),
    };
    let result = attach_post_fill_sell_limit(&config, filled, record);
    assert!(matches!(
        find_member(&result.raw_response, "postFillSellLimit"),
        Some(Json::Object(_))
    ));
}

#[test]
fn nothing_is_sold_while_the_stop_loss_is_off() {
    let mut config = config();
    config.enable_stop_loss = false;
    let filled = ExecutionResult {
        status: ExecutionStatus::Filled,
        order_id: "0x1".to_owned(),
        filled_price: d(0.8),
        filled_size: d(1.25),
        spent_usd: d(1.0),
        used_fallback_limit: false,
        raw_response: Vec::new(),
    };
    let result = match begin_exit(&config, filled) {
        ExitStep::Done(result) => result,
        ExitStep::Watch(_) => panic!("the stop-loss is off"),
    };
    assert!(result.raw_response.is_empty());
    let record = skip_record(&config, "77", d(1.0), true);
    let result = attach_post_fill_sell_limit(&config, result, record);
    assert!(result.raw_response.is_empty());
    assert_eq!(f(result.filled_size), 1.25);
}

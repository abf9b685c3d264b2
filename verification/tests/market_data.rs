use bot_core::account::polygon_provider::{
    get_primary_polygon_rpc, get_working_polygon_provider, is_provider_healthy,
    parse_polygon_rpc_endpoints, KnownStep, SearchAction,
};
use bot_core::account::relayer_service::{
    build_helper_command, candidate_bot_roots, helper_paths, parse_helper_output, prepare_relay,
    relay_redeem_positions, resolve_helper_script, resolve_local_node_modules,
    should_use_relayer_for_settlement, unique_roots, FoundPackages, RelayerHelperOutput,
};
use bot_core::config::load_v3_config;
use bot_core::data::binance::{
    build_binance_base_urls, check_open_price, fetch_from_any_binance, fetch_window_open_price,
    http_failure, kline_path, normalize_base_url, BinanceAction,
};
use bot_core::data::chainlink_anchor::resolve_window_open_price_from_chainlink;
use bot_core::data::market_discovery::{
    derive_resolution_from_market, fallback_resolve_from_gamma, fetch_events_by_slug,
    fetch_market_by_slug, finish_probe, parse_bool_like, parse_number_array, parse_string_array,
    probe_condition, probe_gamma_resolution_by_slug, yes_no_indices, MarketScan, ProbeStep,
};
use bot_core::data::orderbook::{
    check_orderbook_status, fetch_orderbook_snapshot, parse_best_ask, parse_best_bid,
};
use bot_core::double::Double;
use bot_core::failure::Failure;
use bot_core::json::{parse, Json, Reading};
use bot_core::types::{Config, MarketSide, SettlementTxMode};
use bot_core::uint::Uint256;

const CONDITION: &str = "0xaa00000000000000000000000000000000000000000000000000000000000001";

fn d(value: f64) -> Double {
    Double { bits: value.to_bits() }
}

fn f(value: Double) -> f64 {
    f64::from_bits(value.bits)
}

fn json(text: &str) -> Json {
    parse(text).expect("valid JSON")
}

fn config() -> Config {
    match load_v3_config(&Vec::new(), "/srv/bot", &Vec::new()) {
        Ok(config) => config,
        Err(message) => panic!("{}", message),
    }
}

fn events(body: &str) -> Vec<Json> {
    match fetch_events_by_slug(200, "200 OK", body) {
        Ok(events) => events,
        Err(_) => panic!("the answer holds events"),
    }
}

fn event() -> String {
    format!(
        r#"[{{"slug": "s", "title": "BTC", "markets": [{{
            "conditionId": "{}",
            "clobTokenIds": "[\"11\", \"22\"]",
            "outcomes": "[\"Up\", \"Down\"]",
            "outcomePrices": "[0.6, 0.4]",
            "question": "BTC up?",
            "closed": false
        }}]}}]"#,
        CONDITION
    )
}

#[test]
fn lists_come_as_arrays_or_as_text() {
    assert_eq!(parse_string_array(&json(r#"["a", " b "]"#)), vec!["a", "b"]);
    assert_eq!(parse_string_array(&json(r#""[\"a\",\"b\"]""#)), vec!["a", "b"]);
    assert_eq!(parse_string_array(&json(r#""a, b""#)), vec!["a", "b"]);
    assert!(parse_string_array(&json("7")).is_empty());
    let numbers = parse_number_array(&json(r#""[\"0.6\", 0.25]""#));
    assert_eq!(numbers.len(), 2);
    assert!(numbers[0].is_none());
    assert!(matches!(&numbers[1], Some(Reading::Double(v)) if f(*v) == 0.25));
    let listed = parse_number_array(&json(r#""0.6, 0.4""#));
    assert!(matches!(&listed[0], Some(Reading::Text(s)) if s == "0.6"));
}

#[test]
fn outcomes_are_told_apart() {
    let words = |a: &str, b: &str| vec![a.to_owned(), b.to_owned()];
    assert_eq!(yes_no_indices(&words("Up", "Down")), Some((0, 1)));
    assert_eq!(yes_no_indices(&words("NO", "Yes")), Some((1, 0)));
    assert_eq!(yes_no_indices(&vec!["Up".to_owned()]), None);
}

#[test]
fn market_is_found_by_its_slug() {
    match fetch_market_by_slug(&events(&event()), "s") {
        MarketScan::Found(draft) => {
            assert_eq!(draft.condition_id, CONDITION);
            assert_eq!(draft.yes_token_id, "11");
            assert_eq!(draft.no_token_id, "22");
            assert_eq!(draft.question, "BTC up?");
            assert!(matches!(draft.yes_price, Some(Reading::Double(v)) if f(v) == 0.6));
        }
        _ => panic!("the market is there"),
    }
    assert!(matches!(fetch_market_by_slug(&events("[]"), "s"), MarketScan::NotFound));
}

#[test]
fn market_without_a_token_is_reported() {
    let body = event().replace(r#"[\"11\", \"22\"]"#, r#"[\"11\"]"#);
    assert!(matches!(fetch_market_by_slug(&events(&body), "s"), MarketScan::NotFound));
    let body = event()
        .replace(r#"[\"Up\", \"Down\"]"#, r#"[\"Flat\", \"Up\", \"Down\"]"#)
        .replace("[0.6, 0.4]", "[0.1, 0.5, 0.4]");
    assert!(matches!(fetch_market_by_slug(&events(&body), "s"), MarketScan::TokenMissing));
}

#[test]
fn failed_answers_are_told_apart() {
    assert!(matches!(
        fetch_events_by_slug(500, "500 Internal Server Error", "[]"),
        Err(error) if error.format_error_chain()
            == "Gamma fetch failed with HTTP 500 Internal Server Error"
    ));
    assert!(matches!(
        fetch_events_by_slug(200, "200 OK", "<"),
        Err(error) if error.message()
            == "error decoding response body: expected value at line 1 column 1"
    ));
    assert!(matches!(
        fetch_events_by_slug(404, "404 Not Found", "<"),
        Ok(events) if events.is_empty()
    ));
    assert!(matches!(fetch_events_by_slug(200, "200 OK", "{}"), Ok(events) if events.is_empty()));
}

#[test]
fn dearer_side_settles_a_market() {
    assert_eq!(
        fallback_resolve_from_gamma(Some(d(0.995)), Some(d(0.005))),
        Some(MarketSide::Up)
    );
    assert_eq!(
        fallback_resolve_from_gamma(Some(d(0.0)), Some(d(1.0))),
        Some(MarketSide::Down)
    );
    assert_eq!(fallback_resolve_from_gamma(Some(d(0.5)), Some(d(0.5))), None);
    assert_eq!(fallback_resolve_from_gamma(Some(d(0.6)), None), None);
    assert_eq!(fallback_resolve_from_gamma(None, None), None);
}

#[test]
fn flags_come_in_many_forms() {
    assert_eq!(parse_bool_like(Some(&json("true"))), Some(true));
    assert_eq!(parse_bool_like(Some(&json("0"))), Some(false));
    assert_eq!(parse_bool_like(Some(&json(r#"" YES ""#))), Some(true));
    assert_eq!(parse_bool_like(Some(&json(r#""maybe""#))), None);
    assert_eq!(parse_bool_like(None), None);
}

#[test]
fn probe_finds_its_market() {
    let all = events(&event());
    let normalized = match probe_condition(&format!(" {} ", CONDITION.to_uppercase().replace("0X", "0x"))) {
        Ok(id) => id,
        Err(_) => panic!("the condition is valid"),
    };
    assert_eq!(normalized, CONDITION);
    match probe_gamma_resolution_by_slug(&all, CONDITION, &normalized) {
        ProbeStep::Found(draft) => assert!(!draft.flagged),
        ProbeStep::Ended(_) => panic!("the market is there"),
    }
    match probe_gamma_resolution_by_slug(&events("[]"), CONDITION, &normalized) {
        ProbeStep::Ended(probe) => {
            assert_eq!(probe.error.as_deref(), Some("gamma event not found by slug"))
        }
        ProbeStep::Found(_) => panic!("there is no event"),
    }
    match probe_condition("0x1") {
        Ok(_) => panic!("the condition is none"),
        Err(probe) => assert_eq!(probe.error.as_deref(), Some("invalid conditionId 0x1")),
    }
}

#[test]
fn closed_market_with_payouts_is_resolved() {
    let market = json(
        r#"{"closed": true, "outcomes": ["Up", "Down"], "outcomePrices": ["1", "0"]}"#,
    );
    let draft = derive_resolution_from_market(&market);
    assert!(draft.flagged);
    let probe = finish_probe(draft.flagged, Some(d(1.0)), Some(d(0.0)), d(0.0));
    assert!(probe.resolved);
    assert_eq!(probe.yes_payout.map(f), Some(1.0));
    let open = finish_probe(false, Some(d(0.5)), Some(d(0.5)), d(0.0));
    assert!(!open.resolved);
}

#[test]
fn best_prices_are_found() {
    let (ask, present, levels, parsed) =
        parse_best_ask(&vec![Some(d(0.9)), None, Some(d(0.8)), Some(d(f64::NAN))]);
    assert_eq!(f(ask), 0.8);
    assert!(present);
    assert_eq!(levels, 4);
    assert_eq!(parsed, 2);
    assert!(!parse_best_ask(&Vec::new()).1);
    assert_eq!(f(parse_best_bid(&vec![Some(d(0.1)), Some(d(0.3)), None])), 0.3);
    let book = fetch_orderbook_snapshot(&vec![Some(d(0.3))], &vec![Some(d(0.4))], None);
    assert_eq!(f(book.best_bid), 0.3);
    assert_eq!(f(book.best_ask), 0.4);
    assert!(check_orderbook_status(200, "200 OK").is_ok());
    assert!(check_orderbook_status(503, "503 Service Unavailable").is_err());
}

#[test]
fn preferred_binance_address_comes_first() {
    assert_eq!(normalize_base_url("https://a.b/x//"), "https://a.b/x");
    let urls = build_binance_base_urls("https://a.b/x/");
    assert_eq!(urls.len(), 6);
    assert_eq!(urls[0], "https://a.b/x");
    assert_eq!(urls[1], "https://data-api.binance.vision/api/v3");
    assert_eq!(build_binance_base_urls("https://api.binance.com/api/v3/").len(), 5);
    assert_eq!(build_binance_base_urls("").len(), 5);
    let mut distinct = urls.clone();
    distinct.sort();
    distinct.dedup();
    assert_eq!(distinct.len(), urls.len());
    assert_eq!(
        kline_path(1713360000),
        "/klines?symbol=BTCUSDT&interval=1m&startTime=1713360000000&limit=1"
    );
    assert_eq!(http_failure("500", "https://a.b"), "HTTP 500 from https://a.b");
}

#[test]
fn open_price_is_in_the_first_row() {
    assert_eq!(
        fetch_window_open_price(&json(r#"[[1713360000000, "64000.5", "1", "2", "3"]]"#)).unwrap(),
        "64000.5"
    );
    assert!(fetch_window_open_price(&json("[]")).is_err());
    assert!(check_open_price(d(64000.5)).is_ok());
    assert!(check_open_price(d(0.0)).is_err());
    assert!(check_open_price(d(f64::NAN)).is_err());
}

#[test]
fn chainlink_is_not_read_yet() {
    assert!(resolve_window_open_price_from_chainlink(&config(), 0).is_err());
}

#[test]
fn endpoints_are_tried_in_turn() {
    let mut config = config();
    config.polygon_rpc_url = " https://a , https://b,https://a".to_owned();
    let endpoints = parse_polygon_rpc_endpoints(&config);
    assert_eq!(endpoints[0], "https://a");
    assert_eq!(get_primary_polygon_rpc(&config).unwrap(), "https://a");
    let mut search = match get_working_polygon_provider(&config) {
        Ok(search) => search,
        Err(message) => panic!("{}", message),
    };
    let key = search.key();
    assert_eq!(key, endpoints.join("|"));
    assert_eq!(search.known(None, None), KnownStep::Search);
    assert_eq!(search.known(Some("http://elsewhere"), Some(true)), KnownStep::Search);
    assert_eq!(search.known(Some(&key), None), KnownStep::Check);
    assert_eq!(search.known(Some(&key), Some(true)), KnownStep::Use);
    assert_eq!(search.known(Some(&key), Some(false)), KnownStep::Forget);
    for endpoint in &endpoints {
        match search.advance() {
            SearchAction::Try(next) => assert_eq!(&next, endpoint),
            SearchAction::Failed(_) => panic!("there are endpoints left"),
        }
        search.reject(endpoint, "down", false);
    }
    match search.advance() {
        SearchAction::Failed(message) => {
            assert!(message.starts_with("all polygon rpc endpoints failed: "))
        }
        SearchAction::Try(_) => panic!("every endpoint was tried"),
    }
    assert!(is_provider_healthy(Uint256::from_u64(137)).is_ok());
    assert!(is_provider_healthy(Uint256::from_u64(1)).is_err());
}

#[test]
fn first_roots_are_kept() {
    let texts = |list: &[&str]| list.iter().map(|s| s.to_string()).collect::<Vec<String>>();
    assert_eq!(unique_roots(&texts(&["/b", "/a", "/b", "/c", "/a"])), texts(&["/b", "/a", "/c"]));
    assert_eq!(
        candidate_bot_roots(Some(" /a ".to_owned()), texts(&["/b", "/a"])),
        texts(&["/a", "/b"])
    );
    assert_eq!(candidate_bot_roots(Some("  ".to_owned()), texts(&["/b", "/b"])), texts(&["/b"]));
    assert_eq!(candidate_bot_roots(None, texts(&[])), texts(&[]));
}

#[test]
fn binance_search_ends_with_a_success_or_the_last_error() {
    let bases = build_binance_base_urls("https://one.example/");
    let mut search = fetch_from_any_binance("https://one.example/", "/klines");
    for (i, base) in bases.iter().enumerate() {
        match search.advance() {
            BinanceAction::Fetch(url) => assert_eq!(url, format!("{base}/klines")),
            BinanceAction::Failed(_) => panic!("there are addresses left"),
        }
        if i % 2 == 0 {
            assert!(!search.on_answer(503, "503 Service Unavailable"));
        } else {
            search.on_error(Failure::of("refused").behind("request failed".to_owned()));
        }
    }
    match search.advance() {
        BinanceAction::Failed(error) => {
            assert_eq!(error.format_error_chain(), "request failed -> refused")
        }
        BinanceAction::Fetch(_) => panic!("every address was tried"),
    }
    match search.advance() {
        BinanceAction::Failed(error) => {
            assert_eq!(error.format_error_chain(), "all binance endpoints failed")
        }
        BinanceAction::Fetch(_) => panic!("every address was tried"),
    }
    let mut search = fetch_from_any_binance("", "/klines");
    assert!(matches!(search.advance(), BinanceAction::Fetch(_)));
    assert!(search.on_answer(204, "204 No Content"));
}

#[test]
fn helper_is_told_what_to_do() {
    let mut config = config();
    config.settlement_tx_mode = SettlementTxMode::RelayerSafe;
    assert!(should_use_relayer_for_settlement(&config));
    assert!(prepare_relay(&config, "0x1").is_err());
    let paths = helper_paths("/srv/bot");
    assert_eq!(paths.script, "/srv/bot/scripts/relayer_redeem_safe.cjs");
    assert_eq!(paths.relayer_package, "/srv/bot/node_modules/@polymarket/builder-relayer-client");
    assert_eq!(paths.ethers_package, "/srv/bot/node_modules/ethers");
    let mut found = FoundPackages { node_modules: true, relayer: true, ethers: true };
    let command = match build_helper_command(&paths, found, false, &config, CONDITION) {
        Ok(command) => command,
        Err(message) => panic!("{}", message),
    };
    assert_eq!(command.program, "node");
    assert_eq!(command.directory, "/srv/bot");
    assert_eq!(command.script, paths.script);
    let variables = command.variables;
    assert!(variables.iter().any(|(k, v)| k == "NODE_PATH" && v == "/srv/bot/node_modules"));
    found.ethers = false;
    assert!(matches!(
        build_helper_command(&paths, found, false, &config, CONDITION),
        Err(m) if m == "Missing ethers in bot-rust/node_modules. Run `npm install` in bot-rust."
    ));
    found.relayer = false;
    assert!(matches!(
        build_helper_command(&paths, found, false, &config, CONDITION),
        Err(m) if m.starts_with("Missing @polymarket/builder-relayer-client in ")
    ));
    found.node_modules = false;
    assert_eq!(
        resolve_local_node_modules(&paths.node_modules, found).unwrap_err(),
        "bot-rust local node_modules not found at /srv/bot/node_modules. Run `npm install` in bot-rust."
    );
    assert_eq!(resolve_helper_script(&vec![false, true, true]), Ok(1));
    assert!(resolve_helper_script(&vec![false]).is_err());
    assert!(variables.iter().any(|(k, v)| k == "CONDITION_ID" && v == CONDITION));
    assert!(variables.iter().any(|(k, v)| k == "RELAYER_MAX_POLLS" && v == "120"));
}

#[test]
fn helper_answers_on_its_last_line() {
    let lines = parse_helper_output("starting\n{\"ok\":false}\n{\"ok\":true}\n");
    assert_eq!(lines[0], "{\"ok\":true}");
}

#[test]
fn relay_succeeds_only_with_a_hash() {
    let answer = |ok: bool, hash: Option<&str>, error: Option<&str>| {
        Some(RelayerHelperOutput {
            ok,
            tx_hash: hash.map(|s| s.to_owned()),
            error: error.map(|s| s.to_owned()),
        })
    };
    assert_eq!(
        relay_redeem_positions(true, Some(0), answer(true, Some(CONDITION), None), "", "").unwrap(),
        CONDITION
    );
    assert_eq!(
        relay_redeem_positions(true, Some(0), answer(true, Some("0x1"), None), "", "").unwrap_err(),
        "relayer helper returned invalid tx hash: 0x1"
    );
    assert_eq!(
        relay_redeem_positions(true, Some(0), answer(true, None, None), "", "").unwrap_err(),
        "relayer helper missing txHash"
    );
    assert_eq!(
        relay_redeem_positions(true, Some(0), answer(false, None, Some("no")), "", "").unwrap_err(),
        "relayer helper reported error: no"
    );
    assert_eq!(
        relay_redeem_positions(false, None, None, " out ", "err").unwrap_err(),
        "relayer helper exited with status=signal stdout=out stderr=err"
    );
}

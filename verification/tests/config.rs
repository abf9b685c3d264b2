use bot_core::config::{
    load_v3_config, normalize_optional_address, normalize_private_key, optional_any_env, EnvNumber,
    EnvVar, FIVE_BITS, HALF_BITS, HUNDRED_BITS, ONE_AND_A_HALF_BITS, ONE_AND_THREE_TENTHS_BITS,
    SEVENTY_FIVE_CENT_BITS, THIRTY_BITS, THOUSAND_BITS, TWO_BITS,
};
use bot_core::double::{
    Double, CENT_BITS, NINETY_EIGHT_CENT_BITS, NINETY_FIVE_CENT_BITS, NINETY_NINE_CENT_BITS,
    ONE_BITS,
};
use bot_core::types::{Config, LivePriceSource, SettlementTxMode, SignatureType};

fn var(key: &str, text: &str) -> EnvVar {
    let number = text.trim().parse::<f64>().ok().map(|value| EnvNumber {
        value: Double { bits: value.to_bits() },
        floor: value.floor() as u64,
        shown: format!("{}", value),
    });
    EnvVar { key: key.to_owned(), text: text.to_owned(), number }
}

fn load(vars: &[(&str, &str)]) -> Result<Config, String> {
    let env: Vec<EnvVar> = vars.iter().map(|(key, text)| var(key, text)).collect();
    load_v3_config(&Vec::new(), "/srv/bot", &env)
}

fn complaint(vars: &[(&str, &str)]) -> String {
    match load(vars) {
        Ok(_) => panic!("the settings should be refused"),
        Err(message) => message,
    }
}

fn accepted(vars: &[(&str, &str)]) -> Config {
    match load(vars) {
        Ok(config) => config,
        Err(message) => panic!("{}", message),
    }
}

#[test]
fn constants_are_the_numbers_they_stand_for() {
    assert_eq!(CENT_BITS, 0.01f64.to_bits());
    assert_eq!(HALF_BITS, 0.5f64.to_bits());
    assert_eq!(SEVENTY_FIVE_CENT_BITS, 0.75f64.to_bits());
    assert_eq!(NINETY_FIVE_CENT_BITS, 0.95f64.to_bits());
    assert_eq!(NINETY_EIGHT_CENT_BITS, 0.98f64.to_bits());
    assert_eq!(NINETY_NINE_CENT_BITS, 0.99f64.to_bits());
    assert_eq!(ONE_BITS, 1.0f64.to_bits());
    assert_eq!(ONE_AND_THREE_TENTHS_BITS, 1.3f64.to_bits());
    assert_eq!(ONE_AND_A_HALF_BITS, 1.5f64.to_bits());
    assert_eq!(TWO_BITS, 2.0f64.to_bits());
    assert_eq!(FIVE_BITS, 5.0f64.to_bits());
    assert_eq!(THIRTY_BITS, 30.0f64.to_bits());
    assert_eq!(HUNDRED_BITS, 100.0f64.to_bits());
    assert_eq!(THOUSAND_BITS, 1000.0f64.to_bits());
}

#[test]
fn empty_environment_gives_the_defaults() {
    let config = accepted(&[]);
    assert!(!config.once);
    assert!(!config.enable_live_trading);
    assert_eq!(config.mode(), "PAPER");
    assert_eq!(config.heartbeat_interval_sec, 15);
    assert_eq!(f64::from_bits(config.stake_usd.bits), 1.0);
    assert_eq!(f64::from_bits(config.price_range_min.bits), 0.75);
    assert_eq!(f64::from_bits(config.price_range_max.bits), 0.95);
    assert_eq!(f64::from_bits(config.entry_slippage_percent_buy.bits), 1.5);
    assert_eq!(config.order_max_attempts, 4);
    assert_eq!(config.live_price_source, LivePriceSource::ChainlinkPublic);
    assert_eq!(config.signature_type, SignatureType::SmartContractWallet);
    assert_eq!(config.signature_type.as_u8(), 2);
    assert_eq!(config.settlement_tx_mode, SettlementTxMode::DirectEthers);
    assert_eq!(config.polygon_rpc_url, "https://polygon-rpc.com");
    assert!(config.telegram_bot_token.is_none());
    assert_eq!(f64::from_bits(config.redeem_gas_limit_multiplier.bits), 1.3);
    assert_eq!(config.redeem_min_gas_limit, 300000);
}

#[test]
fn log_files_lie_below_the_root() {
    let config = accepted(&[("TRADES_OUTPUT_FILE", "deals.jsonl")]);
    assert_eq!(config.output_path, "/srv/bot/result.jsonl");
    assert_eq!(config.trades_output_path, "/srv/bot/deals.jsonl");
    let config = accepted(&[
        ("OUTPUT_FILE", "logs/result.jsonl"),
        ("TRADES_OUTPUT_FILE", "/var/deals.jsonl"),
    ]);
    assert_eq!(config.output_path, "/srv/bot/logs/result.jsonl");
    assert_eq!(config.trades_output_path, "/var/deals.jsonl");
    match load_v3_config(&Vec::new(), "/srv/bot/", &Vec::new()) {
        Ok(config) => assert_eq!(config.output_path, "/srv/bot/result.jsonl"),
        Err(message) => panic!("{}", message),
    }
    match load_v3_config(&Vec::new(), "", &Vec::new()) {
        Ok(config) => assert_eq!(config.output_path, "result.jsonl"),
        Err(message) => panic!("{}", message),
    }
}

#[test]
fn command_line_goes_before_the_environment() {
    let env = vec![var("ONCE", "nonsense")];
    let argv = vec!["--once".to_owned()];
    match load_v3_config(&argv, "/srv/bot", &env) {
        Ok(config) => assert!(config.once),
        Err(message) => panic!("{}", message),
    }
    assert_eq!(
        complaint(&[("ONCE", "nonsense")]),
        "ONCE must be boolean (true/false/1/0), got: nonsense"
    );
}

#[test]
fn flags_are_read_in_any_case() {
    assert!(accepted(&[("DEBUG", " TRUE ")]).debug);
    assert!(accepted(&[("DEBUG", "1")]).debug);
    assert!(!accepted(&[("DEBUG", "0")]).debug);
    assert!(!accepted(&[("DEBUG", "  ")]).debug);
}

#[test]
fn numbers_are_checked() {
    assert_eq!(
        complaint(&[("STAKE_USD", "much")]),
        "STAKE_USD must be a valid number, got: much"
    );
    assert_eq!(
        complaint(&[("STAKE_USD", "inf")]),
        "STAKE_USD must be a finite number, got: inf"
    );
    assert_eq!(
        complaint(&[("ORDER_MAX_ATTEMPTS", "-1")]),
        "ORDER_MAX_ATTEMPTS must be >= 0, got: -1"
    );
    assert_eq!(
        complaint(&[("REDEEM_GAS_LIMIT_MULTIPLIER", "7.5")]),
        "REDEEM_GAS_LIMIT_MULTIPLIER must be between 1 and 5, got: 7.5"
    );
    assert_eq!(
        complaint(&[("REDEEM_MAX_FEE_PER_GAS_GWEI", "1001")]),
        "REDEEM_MAX_FEE_PER_GAS_GWEI must be between 0 and 1000, got: 1001"
    );
    assert_eq!(accepted(&[("ORDER_MAX_ATTEMPTS", "3.9")]).order_max_attempts, 3);
}

#[test]
fn names_are_checked() {
    assert_eq!(
        complaint(&[("LIVE_PRICE_SOURCE", "oracle")]),
        "LIVE_PRICE_SOURCE must be BINANCE or CHAINLINK_PUBLIC, got: ORACLE"
    );
    assert_eq!(
        complaint(&[("SETTLEMENT_TX_MODE", "mail")]),
        "SETTLEMENT_TX_MODE must be DIRECT_ETHERS or RELAYER_SAFE, got: MAIL"
    );
    assert_eq!(
        complaint(&[("POLYMARKET_SIGNATURE_TYPE", "3")]),
        "POLYMARKET_SIGNATURE_TYPE must be 0/1/2, got: 3"
    );
    assert_eq!(
        complaint(&[("STOP_LOSS_ORDER_TYPE", "ioc")]),
        "STOP_LOSS_ORDER_TYPE must be GTC or FOK, got: IOC"
    );
    assert_eq!(
        complaint(&[("RELAYER_API_KEY_ADDRESS", "0x12")]),
        "Expected address format 0x + 40 hex chars, got: 0x12"
    );
    assert_eq!(
        accepted(&[("LIVE_PRICE_SOURCE", "binance")]).live_price_source,
        LivePriceSource::Binance
    );
    assert_eq!(
        accepted(&[("POLYMARKET_SIGNATURE_TYPE", "0")]).signature_type,
        SignatureType::Eoa
    );
}

#[test]
fn bounds_are_checked_in_order() {
    assert_eq!(
        complaint(&[("HEARTBEAT_INTERVAL_SECONDS", "0"), ("STAKE_USD", "0")]),
        "HEARTBEAT_INTERVAL_SECONDS must be > 0"
    );
    assert_eq!(complaint(&[("STAKE_USD", "0")]), "STAKE_USD must be > 0");
    assert_eq!(
        complaint(&[("PRICE_RANGE_MAX", "1")]),
        "PRICE_RANGE_MAX must be between 0 and 1"
    );
    assert_eq!(
        complaint(&[("PRICE_RANGE_MIN", "0.95")]),
        "PRICE_RANGE_MIN must be < PRICE_RANGE_MAX"
    );
    assert_eq!(
        complaint(&[("CTF_CONTRACT", "0x1")]),
        "CTF_CONTRACT must be a valid address"
    );
    assert_eq!(
        complaint(&[("REDEEM_MIN_GAS_LIMIT", "20999")]),
        "REDEEM_MIN_GAS_LIMIT must be >= 21000"
    );
    assert_eq!(
        complaint(&[("REDEEM_MAX_PRIORITY_FEE_PER_GAS_GWEI", "101")]),
        "REDEEM_MAX_PRIORITY_FEE_PER_GAS_GWEI must be <= REDEEM_MAX_FEE_PER_GAS_GWEI"
    );
}

#[test]
fn live_trading_needs_an_account() {
    let live = ("ENABLE_LIVE_TRADING", "true");
    assert_eq!(
        complaint(&[live]),
        "Missing PRIVATE_KEY/POLYMARKET_PRIVATE_KEY when ENABLE_LIVE_TRADING=true"
    );
    let key = ("POLYMARKET_PRIVATE_KEY", "01");
    assert_eq!(
        complaint(&[live, key]),
        "Missing FUNDER_ADDRESS/POLYMARKET_FUNDER_ADDRESS/POLYMARKET_BALANCE_ADDRESS when ENABLE_LIVE_TRADING=true"
    );
    assert_eq!(
        complaint(&[live, key, ("FUNDER_ADDRESS", "me")]),
        "FUNDER_ADDRESS must be a valid 0x address"
    );
    let funder = ("POLYMARKET_BALANCE_ADDRESS", "0x1111111111111111111111111111111111111111");
    assert_eq!(
        complaint(&[live, key, funder]),
        "POLYMARKET_API_KEY is required when ENABLE_LIVE_TRADING=true"
    );
    let config = accepted(&[
        live,
        key,
        funder,
        ("POLYMARKET_API_KEY", "k"),
        ("POLYMARKET_API_SECRET", "s"),
        ("POLYMARKET_API_PASSPHRASE", "p"),
    ]);
    assert_eq!(config.private_key, "0x01");
    assert_eq!(config.funder_address, "0x1111111111111111111111111111111111111111");
    assert_eq!(config.mode(), "LIVE");
}

#[test]
fn relayer_needs_its_credentials() {
    let mode = ("SETTLEMENT_TX_MODE", "RELAYER_SAFE");
    assert_eq!(
        complaint(&[mode]),
        "RELAYER_API_KEY is required when SETTLEMENT_TX_MODE=RELAYER_SAFE"
    );
    assert_eq!(
        complaint(&[mode, ("RELAYER_API_KEY", "k")]),
        "RELAYER_API_KEY_ADDRESS is required when SETTLEMENT_TX_MODE=RELAYER_SAFE"
    );
    let off = accepted(&[mode, ("ENABLE_ONCHAIN_AUTO_CLAIM", "false")]);
    assert_eq!(off.settlement_tx_mode, SettlementTxMode::RelayerSafe);
}

#[test]
fn keys_and_addresses_are_put_into_form() {
    assert_eq!(normalize_private_key(" ab "), "0xab");
    assert_eq!(normalize_private_key("0xab"), "0xab");
    assert_eq!(normalize_optional_address(" "), Ok(None));
    assert_eq!(
        normalize_optional_address("0x1111111111111111111111111111111111111111"),
        Ok(Some("0x1111111111111111111111111111111111111111".to_owned()))
    );
}

#[test]
fn first_variable_that_says_anything_counts() {
    let env = vec![var("A", " "), var("B", " b "), var("C", "c")];
    assert_eq!(optional_any_env(&env, &["A", "B", "C"], "none"), "b");
    assert_eq!(optional_any_env(&env, &["A"], "none"), "none");
}

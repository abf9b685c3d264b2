use bot_core::config::load_v3_config;
use bot_core::double::Double;
use bot_core::execution::api_secret::{build_poly_hmac_signature, decode_api_secret, to_url_safe};
use bot_core::execution::client::{
    attach_signature, client_with_address, create_clob_client, get_clob_client, ClobClient,
    OrderNumbers, OrderTerms, SignOrderParams, Signing,
};
use bot_core::execution::exchange_api::{
    first_amount_string, order_status_path, parse_balance_allowance_payload,
    parse_balance_allowance_units, salt_fits, ConditionalBalanceAllowance,
};
use bot_core::execution::order_signing::{
    decimal_places, decimal_to_string, generate_order_salt, get_limit_order_raw_amounts,
    get_market_order_raw_amounts, normalize_address_string, normalize_tick_size_string,
    normalize_uint256_string, round_config_for_tick, Amount, AmountForms, OrderSide,
};
use bot_core::json::{find_member, parse, Entry, Json, Reading};
use bot_core::types::Config;
use bot_core::uint::Uint256;

fn d(value: f64) -> Double {
    Double { bits: value.to_bits() }
}

fn chain(error: anyhow::Error) -> String {
    error.chain().map(|cause| cause.to_string()).collect::<Vec<String>>().join(" -> ")
}

fn amount(value: f64) -> Amount {
    Amount { value: d(value), text8: format!("{:.8}", value), text12: format!("{:.12}", value) }
}

fn config() -> Config {
    let mut config = match load_v3_config(&Vec::new(), "/srv/bot", &Vec::new()) {
        Ok(config) => config,
        Err(message) => panic!("{}", message),
    };
    config.private_key =
        "0x0000000000000000000000000000000000000000000000000000000000000001".to_owned();
    config.funder_address = "0x1111111111111111111111111111111111111111".to_owned();
    config.api_key = "key".to_owned();
    config.api_secret = "aGVsbG8=".to_owned();
    config.api_passphrase = "pass".to_owned();
    config
}

fn client() -> ClobClient {
    match create_clob_client(&config()) {
        Ok(client) => client,
        Err(error) => panic!("{}", error.format_error_chain()),
    }
}

#[test]
fn normalizes_uint256_decimal() {
    let value = normalize_uint256_string("tokenId", "123456789").unwrap();
    assert_eq!(value, "123456789");
}

#[test]
fn normalizes_uint256_hex() {
    let value = normalize_uint256_string("tokenId", "0x10").unwrap();
    assert_eq!(value, "16");
}

#[test]
fn rejects_invalid_uint256() {
    let message = normalize_uint256_string("tokenId", "not-a-number").unwrap_err().message();
    assert!(message.contains("tokenId must be valid"));
}

#[test]
fn normalizes_address() {
    let value =
        normalize_address_string("maker", "0x0000000000000000000000000000000000000001").unwrap();
    assert_eq!(value.to_lowercase(), "0x0000000000000000000000000000000000000001");
}

#[test]
fn normalizing_lowers_the_case_of_an_address_and_keeps_the_result() {
    let once =
        normalize_address_string("maker", " 0x4bFb41d5B3570DeFd03C39a9A4D8dE6Bd8B8982E ").unwrap();
    assert_eq!(once, "0x4bfb41d5b3570defd03c39a9a4d8de6bd8b8982e");
    assert_eq!(normalize_address_string("maker", &once).unwrap(), once);
    assert_eq!(
        normalize_address_string("maker", "0x12").unwrap_err().message(),
        "maker must be a valid 0x address, got: 0x12"
    );
    assert_eq!(
        normalize_address_string("maker", " ").unwrap_err().format_error_chain(),
        "maker must not be empty"
    );
}

#[test]
fn uint256_has_its_limits() {
    let max = "115792089237316195423570985008687907853269984665640564039457584007913129639935";
    assert_eq!(normalize_uint256_string("n", max).unwrap(), max);
    assert_eq!(
        normalize_uint256_string(
            "n",
            "115792089237316195423570985008687907853269984665640564039457584007913129639936",
        )
        .unwrap_err()
        .message(),
        "n must be valid decimal uint256, got: 115792089237316195423570985008687907853269984665640564039457584007913129639936"
    );
    assert_eq!(
        normalize_uint256_string("n", "0xzz").unwrap_err().message(),
        "n must be valid hex uint256, got: 0xzz"
    );
    assert_eq!(normalize_uint256_string("n", "0X00ff").unwrap(), "255");
    assert_eq!(
        normalize_uint256_string("n", "  ").unwrap_err().format_error_chain(),
        "n must not be empty"
    );
}

#[test]
fn parses_balance_allowance_units_from_fixed_int() {
    let parsed = parse_balance_allowance_units("balance", "1050000").unwrap();
    assert_eq!(parsed.to_text(), "1050000");
}

#[test]
fn parses_balance_allowance_units_from_decimal() {
    let parsed = parse_balance_allowance_units("balance", "1.05").unwrap();
    assert_eq!(parsed.to_text(), "1050000");
}

#[test]
fn parses_balance_allowance_from_nested_data_shape() {
    let payload =
        parse(r#"{"data": {"balance": "1050000", "allowance": "1000000"}}"#).unwrap();

    let (balance, allowance) = parse_balance_allowance_payload(&payload).unwrap();
    assert_eq!(balance, "1050000");
    assert_eq!(allowance, "1000000");
}

#[test]
fn falls_back_allowance_to_balance_when_allowance_missing() {
    let payload = parse(r#"{"balance": "1050000"}"#).unwrap();

    let (balance, allowance) = parse_balance_allowance_payload(&payload).unwrap();
    assert_eq!(balance, "1050000");
    assert_eq!(allowance, "1050000");
}

#[test]
fn allowance_caps_what_can_be_sold() {
    let both = ConditionalBalanceAllowance {
        balance_raw: "5".to_owned(),
        allowance_raw: "3".to_owned(),
        balance_units: Uint256::from_u64(5),
        allowance_units: Uint256::from_u64(3),
    };
    assert_eq!(both.available_units().to_text(), "3");
}

#[test]
fn rounds_by_tick_size() {
    let round = round_config_for_tick(" 0.01 ").unwrap();
    assert_eq!((round.price_decimals, round.size_decimals, round.amount_decimals), (2, 2, 4));
    assert_eq!(
        round_config_for_tick("0.02").unwrap_err(),
        "unsupported tick size for signing: 0.02"
    );
}

#[test]
fn writes_decimals_without_zeros() {
    assert_eq!(decimal_to_string("1.05000000"), "1.05");
    assert_eq!(decimal_to_string("2.00000000"), "2");
    assert_eq!(decimal_to_string("0.00000000"), "0");
    assert_eq!(normalize_tick_size_string("0.01000000"), "0.01");
    assert_eq!(decimal_places("0.123400000000"), 4);
    assert_eq!(decimal_places("3.000000000000"), 0);
}

#[test]
fn salt_is_time_and_process() {
    assert_eq!(generate_order_salt(1713360000123, 4456), "1713360000123456");
}

#[test]
fn chooses_the_amount_that_fits() {
    let round = round_config_for_tick("0.01").unwrap();
    let size = amount(1.0);
    let forms = AmountForms {
        exact: amount(1.0 / 0.81),
        rounded_up: amount(1.23456791),
        rounded_down: amount(1.2345),
    };
    let raw = get_market_order_raw_amounts(d(1.0), d(0.81), round, &size, &forms).unwrap();
    assert_eq!(raw.maker.text8, "1.00000000");
    assert_eq!(raw.taker.text8, "1.23450000");
    let buy =
        get_limit_order_raw_amounts(OrderSide::Buy, d(1.0), d(0.81), round, &size, &forms).unwrap();
    assert_eq!(buy.taker.text8, "1.00000000");
    assert_eq!(buy.maker.text8, "1.23450000");
    assert!(matches!(
        get_market_order_raw_amounts(d(0.0), d(0.81), round, &size, &forms),
        Err(message) if message == "invalid market order amount"
    ));
    assert!(matches!(
        get_limit_order_raw_amounts(OrderSide::Sell, d(1.0), d(-1.0), round, &size, &forms),
        Err(message) if message == "invalid limit order price"
    ));
}

#[test]
fn signs_a_market_order() {
    let exact = AmountForms {
        exact: amount(2.0),
        rounded_up: amount(2.0),
        rounded_down: amount(2.0),
    };
    let size = amount(1.0);
    let numbers = OrderNumbers {
        amount: d(1.0),
        price: d(0.5),
        round: round_config_for_tick("0.01").unwrap(),
        size: &size,
        forms: &exact,
    };
    let terms = OrderTerms {
        token_id: "1234",
        fee_rate_bps: 0,
        neg_risk: false,
        salt: "1713360000123456",
    };
    let order = match client().create_market_order_buy(&terms, &numbers) {
        Ok(order) => order,
        Err(error) => panic!("{}", error.format_error_chain()),
    };
    assert_eq!(order.signer, "0x7e5f4552091a69125d5dfcb7b8c2659029395bdf");
    assert_eq!(order.maker, "0x1111111111111111111111111111111111111111");
    assert_eq!(order.maker_amount, "1000000");
    assert_eq!(order.taker_amount, "2000000");
    assert_eq!(
        order.signature,
        "da6fe2c496e68295bc68a718dc832315569b9f5546482de87cd2e6e77931c679616cb50fe740678859bd6f5ae9b7d698ae5c506c70200da2d73a04937ad98ff21c"
    );
    assert!(salt_fits(&order));
    let body = client().order_body(&order, "FOK", false, None);
    let parsed = parse(&body).expect("the body is JSON");
    let entries = parsed.as_object().expect("the body is an object");
    assert!(matches!(find_member(entries, "owner"), Some(Json::Text(s)) if s == "key"));
    assert!(matches!(find_member(entries, "orderType"), Some(Json::Text(s)) if s == "FOK"));
    assert!(find_member(entries, "postOnly").is_none());
}

#[test]
fn signs_a_limit_order_for_the_other_contract() {
    let computed = AmountForms {
        exact: amount(1.0),
        rounded_up: amount(1.0),
        rounded_down: amount(1.0),
    };
    let size = amount(2.0);
    let numbers = OrderNumbers {
        amount: d(2.0),
        price: d(0.5),
        round: round_config_for_tick("0.01").unwrap(),
        size: &size,
        forms: &computed,
    };
    let terms = OrderTerms {
        token_id: "0x4d2",
        fee_rate_bps: 0,
        neg_risk: true,
        salt: "1713360000123456",
    };
    let order = match client().create_limit_order_sell(&terms, &numbers) {
        Ok(order) => order,
        Err(error) => panic!("{}", error.format_error_chain()),
    };
    assert_eq!(order.token_id, "1234");
    assert_eq!(
        order.signature,
        "0d61b91d83ad66f9d0509a1289c8d15a19731cdd80905718080384f0f8b8d97b056a640c45a25953a44e9b153e7197cf1be68f937f09235d4f01c6bf810616ab1b"
    );
}

#[test]
fn client_needs_a_key() {
    let mut broken = config();
    broken.private_key = "0x12".to_owned();
    let expected = chain(
        anyhow::Error::from("0x12".parse::<ethers::signers::LocalWallet>().unwrap_err())
            .context("invalid private key format for LocalWallet"),
    );
    match create_clob_client(&broken) {
        Ok(_) => panic!("the key is none"),
        Err(error) => assert_eq!(error.format_error_chain(), expected),
    }
    match client_with_address(&config(), Err(vec!["odd".to_owned(), "even".to_owned()])) {
        Ok(_) => panic!("there is no address"),
        Err(error) => assert_eq!(
            error.format_error_chain(),
            "invalid private key format for LocalWallet -> odd -> even"
        ),
    }
    broken.private_key = " ".to_owned();
    match create_clob_client(&broken) {
        Ok(_) => panic!("there is no key"),
        Err(error) => assert_eq!(
            error.format_error_chain(),
            "private key is required for live trading client"
        ),
    }
    match get_clob_client(&config()) {
        Ok(client) => {
            assert_eq!(client.signer_address(), "0x7e5f4552091a69125d5dfcb7b8c2659029395bdf")
        }
        Err(error) => panic!("{}", error.format_error_chain()),
    }
}

#[test]
fn decodes_secrets_in_every_alphabet() {
    assert_eq!(decode_api_secret("aGVsbG8=").unwrap(), b"hello".to_vec());
    assert_eq!(decode_api_secret(" aGVsbG8 ").unwrap(), b"hello".to_vec());
    assert_eq!(decode_api_secret("-_8=").unwrap(), vec![0xfb, 0xff]);
    assert_eq!(decode_api_secret("+/8=").unwrap(), vec![0xfb, 0xff]);
    assert_eq!(decode_api_secret("-_8").unwrap(), vec![0xfb, 0xff]);
    assert_eq!(decode_api_secret("!!").unwrap_err(), "POLYMARKET_API_SECRET is empty");
    assert_eq!(
        decode_api_secret("a").unwrap_err(),
        "POLYMARKET_API_SECRET is not valid base64/base64url"
    );
}

#[test]
fn signs_messages_in_the_url_safe_alphabet() {
    assert_eq!(
        build_poly_hmac_signature(
            &b"key".to_vec(),
            "The quick brown fox jumps over the lazy dog",
        ),
        "97yD9DBThCSxMpjmqm-xQ-9NWaFJRhdZl0edvC0aPNg="
    );
    assert_eq!(to_url_safe("a+b/c="), "a-b_c=");
}

#[test]
fn headers_carry_the_signature() {
    let headers = match client().build_l2_headers(1713360000, "GET", "/data/order/0xabc", None) {
        Ok(headers) => headers,
        Err(error) => panic!("{}", error.format_error_chain()),
    };
    assert_eq!(headers.signature, "TF_E1qYqii13loDJwq0VfNWaZBz3BsYcwuS33kaswuc=");
    assert_eq!(headers.timestamp, "1713360000");
    assert_eq!(headers.address, "0x7e5f4552091a69125d5dfcb7b8c2659029395bdf");
    let posted = match client().build_l2_headers(1713360000, "POST", "/order", Some("{}")) {
        Ok(headers) => headers,
        Err(error) => panic!("{}", error.format_error_chain()),
    };
    assert_eq!(posted.signature, "iJ6k5I6sB2Bxi6YUhiOYuuMyNsy-MrZ4mfce4umSG3s=");
    assert_eq!(order_status_path("0xabc"), "/data/order/0xabc");
}

#[test]
fn reads_the_answers_of_the_exchange() {
    match ClobClient::get_tick_size(r#"{"minimum_tick_size": "0.01"}"#) {
        Ok(Some(Reading::Text(s))) => assert_eq!(s, "0.01"),
        _ => panic!("the tick size is a text"),
    }
    assert!(matches!(
        ClobClient::get_tick_size(r#"{"error": "no market"}"#),
        Err(error) if error.format_error_chain() == "tick size endpoint returned error: no market"
    ));
    assert!(matches!(
        ClobClient::check_tick_size(None),
        Err(error) if error.format_error_chain() == "tick size payload missing minimum_tick_size"
    ));
    assert_eq!(ClobClient::get_fee_rate_bps(r#"{"base_fee": 1000}"#).unwrap(), 1000);
    assert_eq!(ClobClient::get_fee_rate_bps(r#"{"base_fee": "7"}"#).unwrap(), 7);
    assert_eq!(
        ClobClient::get_fee_rate_bps("{}").unwrap_err().format_error_chain(),
        "fee rate payload missing base_fee"
    );
    assert!(ClobClient::get_neg_risk(r#"{"neg_risk": true}"#).unwrap());
    assert_eq!(
        ClobClient::get_neg_risk("nonsense").unwrap_err().format_error_chain(),
        "failed to parse neg-risk payload -> error decoding response body: expected ident at line 1 column 2 -> expected ident at line 1 column 2"
    );
}

#[test]
fn order_answers_are_kept_or_explained() {
    match ClobClient::get_order("0x1", 404, "gone") {
        Ok(value) => {
            let entries = value.as_object().expect("the explanation is an object");
            assert!(matches!(
                find_member(entries, "source"),
                Some(Json::Text(s)) if s == "get_order_http_error"
            ));
            assert!(matches!(find_member(entries, "body"), Some(Json::Text(s)) if s == "gone"));
        }
        Err(error) => panic!("{}", error.format_error_chain()),
    }
    assert!(matches!(ClobClient::post_order(200, "200 OK", " "), Ok(Json::Null)));
    assert!(matches!(
        ClobClient::post_order(500, "500 Internal Server Error", ""),
        Err(error) if error.format_error_chain()
            == "post order failed with HTTP 500 Internal Server Error and empty response body"
    ));
    match ClobClient::post_order(200, "200 OK", "{") {
        Ok(_) => panic!("the answer is not JSON"),
        Err(error) => assert_eq!(
            error.format_error_chain(),
            "failed to parse post order response (status=200 OK, body={) -> EOF while parsing an object at line 1 column 1"
        ),
    }
    match ClobClient::get_order("0x1", 200, "[") {
        Ok(_) => panic!("the answer is not JSON"),
        Err(error) => assert_eq!(
            error.format_error_chain(),
            "failed to parse order status response for 0x1 -> error decoding response body: EOF while parsing a list at line 1 column 1 -> EOF while parsing a list at line 1 column 1"
        ),
    }
}

#[test]
fn balance_answers_are_read() {
    let both = ClobClient::get_conditional_balance_allowance(
        "77",
        200,
        r#"{"balance": "1.5", "allowance": "2000000"}"#,
    );
    match both {
        Ok(both) => {
            assert_eq!(both.balance_units.to_text(), "1500000");
            assert_eq!(both.available_units().to_text(), "1500000");
        }
        Err(error) => panic!("{}", error.format_error_chain()),
    }
    assert!(matches!(
        ClobClient::get_conditional_balance_allowance("77", 500, "oops"),
        Err(error) if error.format_error_chain()
            == "balance-allowance failed with HTTP 500 body=oops tokenId=77"
    ));
    for (body, expected) in [
        (
            "nope",
            "failed to parse balance-allowance payload for token 77 body=nope -> expected ident at line 1 column 2",
        ),
        (
            r#"{"error": "busy"}"#,
            "balance-allowance endpoint returned error for token 77: busy",
        ),
        (
            r#"{"size": 1}"#,
            "unexpected balance-allowance payload shape token=77 payload={\"size\":1} -> balance-allowance payload missing balance",
        ),
    ] {
        match ClobClient::get_conditional_balance_allowance("77", 200, body) {
            Ok(_) => panic!("there is no balance"),
            Err(error) => assert_eq!(error.format_error_chain(), expected),
        }
    }
}

#[test]
fn sides_swap_what_is_given_and_taken() {
    let forms = AmountForms {
        exact: amount(1.0),
        rounded_up: amount(1.0),
        rounded_down: amount(1.0),
    };
    let size = amount(2.0);
    let numbers = OrderNumbers {
        amount: d(2.0),
        price: d(0.5),
        round: round_config_for_tick("0.01").unwrap(),
        size: &size,
        forms: &forms,
    };
    let terms = OrderTerms { token_id: "1234", fee_rate_bps: 0, neg_risk: false, salt: "7" };
    let bought = match client().create_limit_order_buy(&terms, &numbers) {
        Ok(order) => order,
        Err(error) => panic!("{}", error.format_error_chain()),
    };
    assert_eq!(bought.maker_amount, "1000000");
    assert_eq!(bought.taker_amount, "2000000");
    let sold = match client().create_market_order_sell(&terms, &numbers) {
        Ok(order) => order,
        Err(error) => panic!("{}", error.format_error_chain()),
    };
    assert_eq!(sold.maker_amount, "2000000");
    assert_eq!(sold.taker_amount, "1000000");
    assert!(bought.signature != sold.signature);
}

#[test]
fn decimals_that_are_too_many_are_dropped() {
    let long = format!("1.05{}", "0".repeat(80));
    assert_eq!(parse_balance_allowance_units("balance", &long).unwrap().to_text(), "1050000");
    assert_eq!(
        parse_balance_allowance_units("balance", "2.1234567").unwrap().to_text(),
        "2123456"
    );
    let huge = format!("{}.1234567", "9".repeat(90));
    assert_eq!(
        parse_balance_allowance_units("balance", &huge).unwrap_err().format_error_chain(),
        chain(
            anyhow::Error::from(ethers::utils::parse_units(&huge, 6).unwrap_err())
                .context(format!("balance must be valid decimal amount, got: {huge}"))
        )
    );
}

#[test]
fn amounts_are_bounded_by_their_value_alone() {
    let padded = format!("{}1.05", "0".repeat(70));
    assert_eq!(parse_balance_allowance_units("balance", &padded).unwrap().to_text(), "1050000");
    let wide = format!("1{}.5", "0".repeat(70));
    assert_eq!(
        parse_balance_allowance_units("balance", &wide).unwrap().to_text(),
        format!("1{}500000", "0".repeat(70))
    );
    assert_eq!(
        parse_balance_allowance_units("balance", "1.0500001\u{e9}").unwrap().to_text(),
        "1050000"
    );
    let over = format!("1{}.5", "0".repeat(76));
    assert_eq!(
        parse_balance_allowance_units("balance", &over).unwrap_err().format_error_chain(),
        format!("balance must be valid decimal amount, got: {over}")
    );
    assert!(parse_balance_allowance_units("balance", "1.00000\u{e9}").is_err());
    assert!(parse_balance_allowance_units("balance", "1.0\u{e9}").is_err());
    assert_eq!(parse_balance_allowance_units("balance", "1_0.5").unwrap().to_text(), "10500000");
}

#[test]
fn amounts_are_looked_for_in_the_order_of_the_keys() {
    let payload = parse(r#"{"balance": {"zeta": "9", "beta": "", "gamma": "7"}}"#).unwrap();
    let (balance, _) = parse_balance_allowance_payload(&payload).unwrap();
    assert_eq!(balance, "7");
    let entry = |key: &str, value: &str| Entry {
        key: key.to_owned(),
        value: Json::Text(value.to_owned()),
    };
    let unordered = Json::Object(vec![entry("zeta", "9"), entry("gamma", "7"), entry("beta", " ")]);
    assert_eq!(first_amount_string(&unordered).as_deref(), Some("7"));
    let preferred = Json::Object(vec![entry("alpha", "1"), entry("value", "2")]);
    assert_eq!(first_amount_string(&preferred).as_deref(), Some("2"));
}

#[test]
fn refusals_name_their_causes() {
    assert_eq!(
        normalize_uint256_string("n", "1x").unwrap_err().format_error_chain(),
        chain(
            anyhow::Error::from(ethers::types::U256::from_dec_str("1x").unwrap_err())
                .context("n must be valid decimal uint256, got: 1x")
        )
    );
    assert_eq!(
        normalize_uint256_string("n", "0xzz").unwrap_err().format_error_chain(),
        chain(
            anyhow::Error::from(ethers::types::U256::from_str_radix("zz", 16).unwrap_err())
                .context("n must be valid hex uint256, got: 0xzz")
        )
    );
    assert_eq!(
        normalize_address_string("maker", "0x12").unwrap_err().format_error_chain(),
        chain(
            anyhow::Error::from("0x12".parse::<ethers::types::Address>().unwrap_err())
                .context("maker must be a valid 0x address, got: 0x12")
        )
    );
    assert_eq!(
        client().headers_with_signature(1, "a\nb".to_owned()).err().unwrap().format_error_chain(),
        "invalid POLY_SIGNATURE header value -> failed to parse header value"
    );
}

#[test]
fn unsigned_orders_are_explained() {
    let forms = AmountForms {
        exact: amount(1.0),
        rounded_up: amount(1.0),
        rounded_down: amount(1.0),
    };
    let size = amount(2.0);
    let numbers = OrderNumbers {
        amount: d(2.0),
        price: d(0.5),
        round: round_config_for_tick("0.01").unwrap(),
        size: &size,
        forms: &forms,
    };
    let terms = OrderTerms { token_id: "12z4", fee_rate_bps: 0, neg_risk: false, salt: "7" };
    match client().create_limit_order_buy(&terms, &numbers) {
        Ok(_) => panic!("the token is no number"),
        Err(error) => assert_eq!(
            error.format_error_chain(),
            chain(
                anyhow::Error::from(ethers::types::U256::from_dec_str("12z4").unwrap_err())
                    .context("tokenId must be valid decimal uint256, got: 12z4")
            )
        ),
    }
    let terms = OrderTerms { token_id: "1234", fee_rate_bps: 0, neg_risk: false, salt: "7" };
    let label = "(tokenId=1234, maker=0x1111111111111111111111111111111111111111, signer=0x7e5f4552091a69125d5dfcb7b8c2659029395bdf, side=0, signatureType=";
    let params = |text: &'static str| SignOrderParams {
        token_id: terms.token_id,
        side: OrderSide::Buy,
        raw_maker_amount: d(1.0),
        raw_taker_amount: d(1.0),
        maker_amount_text: text,
        taker_amount_text: "1.00000000",
        salt: "7",
        fee_rate_bps: 0,
        expiration: 0,
        nonce: 0,
        neg_risk: false,
    };
    match client().create_signed_order(&params("one")) {
        Ok(_) => panic!("the amount is no number"),
        Err(error) => assert_eq!(
            error.format_error_chain(),
            chain(
                anyhow::Error::from(ethers::utils::parse_units("one", 6).unwrap_err())
                    .context("failed to encode maker amount to base units")
            )
        ),
    }
    for (signing, expected) in [
        (
            Signing::NotTypedData(vec!["missing field".to_owned()]),
            "failed to build typed-data payload for order signature ",
        ),
        (Signing::NotSigned(vec!["no key".to_owned()]), "failed to sign order typed-data "),
    ] {
        let order = client().create_limit_order_buy(&terms, &numbers).ok().unwrap();
        let message = attach_signature(order, "0x1", signing).err().unwrap().format_error_chain();
        assert!(message.starts_with(&format!("{expected}{label}")));
        assert!(message.ends_with(") -> missing field") || message.ends_with(") -> no key"));
    }
}

use bybit_rest::canonical::{canonicalize, read_query, render, write_body};
use bybit_rest::sign::{message_to_sign, sign};
use bybit_rest::utils::{get_timestamp, timestamp_from};
use std::time::{Duration, UNIX_EPOCH};
use bybit_rest::{
    AccountType, Bybit, Category, Json, OrderId, OrderType, Request, RequestError, RequestKind,
    TimeInForce, TradeDirection, RECV_WINDOW, REST_API_URL,
};

fn text(s: &str) -> Json {
    Json::Text(s.to_string())
}

fn client() -> Bybit {
    Bybit::new(Some("key".to_string()), Some("secret".to_string()))
}

fn header<'a>(request: &'a Request, name: &str) -> Option<&'a str> {
    request.headers.iter().find(|(n, _)| *n == name).map(|(_, v)| v.as_str())
}

#[test]
fn sign_matches_known_vector() {
    let signature = sign("key", "The quick brown fox jumps over the lazy dog");
    assert_eq!(signature, "f7bc83f430538424b13298e6aa6fb143ef4d59a14946175997479dbc2d1a3cd8");
}

#[test]
fn sign_is_deterministic_and_sensitive() {
    let a = sign("secret", "1722030653718key5000{}");
    let b = sign("secret", "1722030653718key5000{}");
    assert_eq!(a, b);
    assert_eq!(a.len(), 64);
    assert!(a.chars().all(|c| c.is_ascii_digit() || ('a'..='f').contains(&c)));
    assert_ne!(a, sign("secreu", "1722030653718key5000{}"));
    assert_ne!(a, sign("secret", "1722030653719key5000{}"));
    assert_ne!(a, sign("secret", "1722030653718key5001{}"));
    assert_ne!(a, sign("secret", "1722030653718key5000{ }"));
}

#[test]
fn message_concatenates_without_separators() {
    assert_eq!(message_to_sign(1722030653718, "key", "5000", "{\"a\":\"b\"}"), "1722030653718key5000{\"a\":\"b\"}");
    assert_eq!(message_to_sign(0, "", "", ""), "0");
    assert_eq!(
        message_to_sign(u128::MAX, "k", "1", "p"),
        "340282366920938463463374607431768211455k1p"
    );
}

#[test]
fn make_signature_signs_the_protocol_message() {
    let bybit = client();
    let signature = bybit.make_signature(1722030653718, "category=linear").unwrap();
    assert_eq!(signature, sign("secret", "1722030653718key5000category=linear"));
    let direct = bybit.sign_request("1722030653718key5000category=linear".to_string()).unwrap();
    assert_eq!(signature, direct);
}

#[test]
fn missing_secret_refuses_to_sign() {
    let bybit = Bybit::new(Some("key".to_string()), None);
    assert_eq!(bybit.sign_request("abc".to_string()), Err(RequestError::MissingCredential));
    assert_eq!(bybit.make_signature(1, "abc"), Err(RequestError::MissingCredential));
    assert_eq!(
        bybit.cancel_all_orders_at(Category::Linear, "ETHUSDT", 1),
        Err(RequestError::MissingCredential)
    );
}

#[test]
fn missing_key_refuses_to_sign() {
    let bybit = Bybit::new(None, Some("secret".to_string()));
    assert_eq!(bybit.make_signature(1, "abc"), Err(RequestError::MissingCredential));
    assert_eq!(
        bybit.post_request("/v5/order/cancel", 1, "00", &vec![]),
        Err(RequestError::MissingCredential)
    );
    assert_eq!(bybit.get_request("/v5/order/realtime", &vec![]), Err(RequestError::MissingCredential));
    assert!(bybit.sign_request("abc".to_string()).is_ok());
}

#[test]
fn defaults_are_the_protocol_constants() {
    let bybit = client();
    assert_eq!(bybit.base_url, "https://api.bybit.com");
    assert_eq!(bybit.recv_window, "5000");
    assert_eq!(REST_API_URL, "https://api.bybit.com");
    assert_eq!(RECV_WINDOW, "5000");
    let other = Bybit::with_config(None, None, "https://api.bybit.nl".to_string(), "10000".to_string());
    assert_eq!(other.base_url, "https://api.bybit.nl");
    assert_eq!(other.recv_window, "10000");
    assert_eq!(other.api_key, None);
}

#[test]
fn canonicalize_is_deterministic() {
    let params = vec![
        ("category".to_string(), text("linear")),
        ("symbol".to_string(), text("ETHUSDT")),
    ];
    assert_eq!(canonicalize(&params, RequestKind::Write), canonicalize(&params, RequestKind::Write));
    assert_eq!(canonicalize(&params, RequestKind::Read), canonicalize(&params, RequestKind::Read));
    assert_eq!(
        canonicalize(&params, RequestKind::Write),
        Ok("{\"category\":\"linear\",\"symbol\":\"ETHUSDT\"}".to_string())
    );
    assert_eq!(canonicalize(&params, RequestKind::Read), Ok("category=linear&symbol=ETHUSDT".to_string()));
}

#[test]
fn canonical_order_is_the_order_of_the_parameters() {
    let params = vec![("symbol".to_string(), text("ETHUSDT")), ("category".to_string(), text("linear"))];
    assert_eq!(write_body(&params), "{\"symbol\":\"ETHUSDT\",\"category\":\"linear\"}");
    assert_eq!(read_query(&params), Ok("symbol=ETHUSDT&category=linear".to_string()));
}

#[test]
fn empty_parameters() {
    assert_eq!(write_body(&vec![]), "{}");
    assert_eq!(read_query(&vec![]), Ok(String::new()));
}

#[test]
fn read_query_renders_numbers_and_booleans_and_escapes_nothing() {
    let params = vec![
        ("limit".to_string(), Json::Number("50".to_string())),
        ("open".to_string(), Json::Bool(true)),
        ("closed".to_string(), Json::Bool(false)),
        ("cursor".to_string(), text("a b&c=d%")),
    ];
    assert_eq!(read_query(&params), Ok("limit=50&open=true&closed=false&cursor=a b&c=d%".to_string()));
}

#[test]
fn read_query_rejects_nested_values() {
    let nested = vec![("filter".to_string(), Json::Object(vec![]))];
    assert_eq!(read_query(&nested), Err(RequestError::MalformedParameters));
    let list = vec![("a".to_string(), text("b")), ("ids".to_string(), Json::Array(vec![text("1")]))];
    assert_eq!(canonicalize(&list, RequestKind::Read), Err(RequestError::MalformedParameters));
    let null = vec![("a".to_string(), Json::Null)];
    assert_eq!(read_query(&null), Err(RequestError::MalformedParameters));
    assert_eq!(
        canonicalize(&list, RequestKind::Write),
        Ok("{\"a\":\"b\",\"ids\":[\"1\"]}".to_string())
    );
}

#[test]
fn render_prints_compact_json() {
    let value = Json::Object(vec![
        ("n".to_string(), Json::Null),
        ("b".to_string(), Json::Bool(false)),
        ("x".to_string(), Json::Number("-1.5e3".to_string())),
        ("s".to_string(), text("a\"b\\c\n")),
        ("l".to_string(), Json::Array(vec![Json::Number("1".to_string()), Json::Array(vec![]), text("")])),
        ("o".to_string(), Json::Object(vec![("k".to_string(), Json::Bool(true))])),
    ]);
    assert_eq!(
        render(&value),
        "{\"n\":null,\"b\":false,\"x\":-1.5e3,\"s\":\"a\\\"b\\\\c\\n\",\"l\":[1,[],\"\"],\"o\":{\"k\":true}}"
    );
}

#[test]
fn write_body_agrees_with_serde_json_on_sorted_keys() {
    let params = vec![
        ("category".to_string(), text("linear")),
        ("orderId".to_string(), text("d3075c7f-0cae-4bc0-9ace-e9b5d9055326")),
        ("symbol".to_string(), text("ETH\"USDT\u{7f}\u{1}é")),
    ];
    let mut map = serde_json::Map::new();
    for (name, value) in params.iter() {
        if let Json::Text(t) = value {
            map.insert(name.clone(), serde_json::Value::String(t.clone()));
        }
    }
    assert_eq!(write_body(&params), serde_json::Value::Object(map).to_string());
}

#[test]
fn cancel_order_request_carries_what_was_signed() {
    let bybit = client();
    let request = bybit
        .cancel_order_at(Category::Linear, "ETHUSDT", OrderId::OrderID("xxxxx".to_string()), 1722029558512)
        .unwrap();
    let body = "{\"category\":\"linear\",\"symbol\":\"ETHUSDT\",\"orderId\":\"xxxxx\"}";
    assert_eq!(request.kind, RequestKind::Write);
    assert_eq!(request.url, "https://api.bybit.com/v5/order/cancel");
    assert_eq!(request.body.as_deref(), Some(body));
    assert_eq!(request.timestamp, 1722029558512);
    assert_eq!(header(&request, "X-BAPI-API-KEY"), Some("key"));
    assert_eq!(header(&request, "X-BAPI-TIMESTAMP"), Some("1722029558512"));
    assert_eq!(header(&request, "X-BAPI-RECV-WINDOW"), Some("5000"));
    assert_eq!(header(&request, "Content-Type"), Some("application/json"));
    let signed = bybit.make_signature(1722029558512, body).unwrap();
    assert_eq!(header(&request, "X-BAPI-SIGN"), Some(signed.as_str()));
    assert_eq!(signed, sign("secret", &format!("1722029558512key5000{}", body)));
    assert_eq!(request.headers.len(), 5);
}

#[test]
fn cancel_order_by_link_id() {
    let request = client()
        .cancel_order_at(Category::Spot, "BTCUSDT", OrderId::OrderLinkID("mine".to_string()), 5)
        .unwrap();
    assert_eq!(
        request.body.as_deref(),
        Some("{\"category\":\"spot\",\"symbol\":\"BTCUSDT\",\"orderLinkId\":\"mine\"}")
    );
}

#[test]
fn cancel_all_orders_request() {
    let request = client().cancel_all_orders_at(Category::Linear, "ETHUSDT", 7).unwrap();
    assert_eq!(request.url, "https://api.bybit.com/v5/order/cancel-all");
    assert_eq!(request.body.as_deref(), Some("{\"category\":\"linear\",\"symbol\":\"ETHUSDT\"}"));
}

#[test]
fn create_limit_order_request() {
    let request = client()
        .create_order_at(
            Category::Linear,
            "ETHUSDT",
            TradeDirection::Buy,
            OrderType::Limit,
            "0.1",
            Some("3000.21"),
            Some(TimeInForce::GTC),
            1722030653718,
        )
        .unwrap();
    assert_eq!(request.url, "https://api.bybit.com/v5/order/create");
    assert_eq!(
        request.body.as_deref(),
        Some(
            "{\"category\":\"linear\",\"symbol\":\"ETHUSDT\",\"side\":\"Buy\",\"qty\":\"0.1\",\"orderType\":\"Limit\",\"price\":\"3000.21\",\"timeInForce\":\"GTC\"}"
        )
    );
}

#[test]
fn create_market_order_request() {
    let request = client()
        .create_order_at(
            Category::Linear,
            "ETHUSDT",
            TradeDirection::Sell,
            OrderType::Market,
            "0.01",
            None,
            None,
            1,
        )
        .unwrap();
    assert_eq!(
        request.body.as_deref(),
        Some("{\"category\":\"linear\",\"symbol\":\"ETHUSDT\",\"side\":\"Sell\",\"qty\":\"0.01\",\"orderType\":\"Market\"}")
    );
}

#[test]
fn limit_order_without_price_is_malformed() {
    let without_credentials = Bybit::new(None, None);
    let r = without_credentials.create_order_at(
        Category::Linear,
        "ETHUSDT",
        TradeDirection::Buy,
        OrderType::Limit,
        "0.1",
        None,
        Some(TimeInForce::PostOnly),
        1,
    );
    assert_eq!(r, Err(RequestError::MalformedParameters));
    let r = client().create_order(
        Category::Linear,
        "ETHUSDT",
        TradeDirection::Buy,
        OrderType::Limit,
        "0.1",
        None,
        None,
    );
    assert_eq!(r, Err(RequestError::MalformedParameters));
}

#[test]
fn get_orders_request_signs_the_unescaped_query() {
    let bybit = client();
    let id = OrderId::OrderID("d3075c7f-0cae-4bc0-9ace-e9b5d9055326".to_string());
    let request = bybit.get_orders_at(Category::Linear, "ETHUSDT", Some(id), 99).unwrap();
    let query = "category=linear&symbol=ETHUSDT&orderId=d3075c7f-0cae-4bc0-9ace-e9b5d9055326";
    assert_eq!(request.kind, RequestKind::Read);
    assert_eq!(request.url, format!("https://api.bybit.com/v5/order/realtime?{}", query));
    assert_eq!(request.body, None);
    assert_eq!(header(&request, "Content-Type"), None);
    assert_eq!(request.headers.len(), 4);
    let signed = bybit.make_signature(99, query).unwrap();
    assert_eq!(header(&request, "X-BAPI-SIGN"), Some(signed.as_str()));
    let all = bybit.get_orders_at(Category::Linear, "ETHUSDT", None, 99).unwrap();
    assert_eq!(all.url, "https://api.bybit.com/v5/order/realtime?category=linear&symbol=ETHUSDT");
}

#[test]
fn get_wallet_balance_request() {
    let bybit = client();
    let request = bybit.get_wallet_balance_at(AccountType::UNIFIED, None, 3).unwrap();
    assert_eq!(request.url, "https://api.bybit.com/v5/account/wallet-balance?accountType=UNIFIED");
    let request = bybit.get_wallet_balance_at(AccountType::UNIFIED, Some("USDT"), 3).unwrap();
    assert_eq!(
        request.url,
        "https://api.bybit.com/v5/account/wallet-balance?accountType=UNIFIED&symbol=USDT"
    );
}

#[test]
fn get_request_and_post_request_share_the_canonical_text() {
    let bybit = client();
    let params = vec![("category".to_string(), text("linear")), ("limit".to_string(), Json::Number("5".to_string()))];
    let read = bybit.get_request_at("/v5/order/realtime", &params, 11).unwrap();
    assert_eq!(read.url, "https://api.bybit.com/v5/order/realtime?category=linear&limit=5");
    assert_eq!(
        header(&read, "X-BAPI-SIGN"),
        Some(bybit.make_signature(11, "category=linear&limit=5").unwrap().as_str())
    );
    let body = canonicalize(&params, RequestKind::Write).unwrap();
    let signature = bybit.make_signature(11, &body).unwrap();
    let write = bybit.post_request("/v5/order/create", 11, &signature, &params).unwrap();
    assert_eq!(write.body, Some(body));
    assert_eq!(header(&write, "X-BAPI-SIGN"), Some(signature.as_str()));
    let same = bybit.signed_request_at("/v5/order/create", RequestKind::Write, &params, 11).unwrap();
    assert_eq!(same, write);
    let nested = vec![("a".to_string(), Json::Array(vec![]))];
    assert_eq!(bybit.get_request_at("/x", &nested, 1), Err(RequestError::MalformedParameters));
}

#[test]
fn requests_made_now_carry_the_clock() {
    let before = get_timestamp().unwrap();
    assert!(before > 1_600_000_000_000);
    let bybit = client();
    let request = bybit.cancel_all_orders(Category::Linear, "ETHUSDT").unwrap();
    assert!(request.timestamp >= before);
    assert_eq!(header(&request, "X-BAPI-TIMESTAMP"), Some(request.timestamp.to_string().as_str()));
    let body = request.body.clone().unwrap();
    assert_eq!(
        header(&request, "X-BAPI-SIGN"),
        Some(bybit.make_signature(request.timestamp, &body).unwrap().as_str())
    );
    assert!(bybit.get_orders(Category::Linear, "ETHUSDT", None).is_ok());
    assert!(bybit.get_wallet_balance(AccountType::UNIFIED, None).is_ok());
    assert!(bybit.cancel_order(Category::Linear, "ETHUSDT", OrderId::OrderID("x".to_string())).is_ok());
    assert!(bybit.get_request("/v5/order/realtime", &vec![]).is_ok());
}

#[test]
fn wire_spellings() {
    assert_eq!(Category::Spot.as_str(), "spot");
    assert_eq!(Category::Linear.as_str(), "linear");
    assert_eq!(TradeDirection::Buy.as_str(), "Buy");
    assert_eq!(TradeDirection::Sell.as_str(), "Sell");
    assert_eq!(OrderType::Market.as_str(), "Market");
    assert_eq!(OrderType::Limit.as_str(), "Limit");
    assert_eq!(TimeInForce::PostOnly.as_str(), "PostOnly");
    assert_eq!(TimeInForce::GTC.as_str(), "GTC");
    assert_eq!(TimeInForce::IOC.as_str(), "IOC");
    assert_eq!(TimeInForce::FOK.as_str(), "FOK");
    assert_eq!(AccountType::UNIFIED.as_str(), "UNIFIED");
    assert_eq!(TradeDirection::from_wire("Buy"), Some(TradeDirection::Buy));
    assert_eq!(TradeDirection::from_wire("Sell"), Some(TradeDirection::Sell));
    assert_eq!(TradeDirection::from_wire("buy"), None);
    assert_eq!(OrderType::from_wire("Market"), Some(OrderType::Market));
    assert_eq!(OrderType::from_wire("Limit"), Some(OrderType::Limit));
    assert_eq!(OrderType::from_wire("Stop"), None);
    assert_eq!(AccountType::from_wire("UNIFIED"), Some(AccountType::UNIFIED));
    assert_eq!(AccountType::from_wire("CONTRACT"), None);
}

#[test]
fn strings_are_escaped_as_json_asks() {
    let value = text("\u{0}\u{1}\u{8}\t\n\u{b}\u{c}\r\u{1f} \u{7f}\"\\/é\u{2028}");
    assert_eq!(
        render(&value),
        "\"\\u0000\\u0001\\b\\t\\n\\u000b\\f\\r\\u001f \u{7f}\\\"\\\\/é\u{2028}\""
    );
    assert_eq!(render(&text("")), "\"\"");
    let params = vec![("a\"b".to_string(), text("c\nd"))];
    assert_eq!(write_body(&params), "{\"a\\\"b\":\"c\\nd\"}");
    assert_eq!(read_query(&params), Ok("a\"b=c\nd".to_string()));
}

#[test]
fn wire_spellings_read_back() {
    for category in [Category::Spot, Category::Linear] {
        assert_eq!(Category::from_wire(category.as_str()), Some(category));
    }
    for side in [TradeDirection::Buy, TradeDirection::Sell] {
        assert_eq!(TradeDirection::from_wire(side.as_str()), Some(side));
    }
    for order_type in [OrderType::Market, OrderType::Limit] {
        assert_eq!(OrderType::from_wire(order_type.as_str()), Some(order_type));
    }
    for t in [TimeInForce::PostOnly, TimeInForce::GTC, TimeInForce::IOC, TimeInForce::FOK] {
        assert_eq!(TimeInForce::from_wire(t.as_str()), Some(t));
    }
    assert_eq!(Category::from_wire("Linear"), None);
    assert_eq!(TimeInForce::from_wire("gtc"), None);
    assert_eq!(TimeInForce::from_wire(""), None);
}

#[test]
fn timestamp_counts_whole_milliseconds() {
    assert_eq!(timestamp_from(Ok(Duration::from_millis(1722030653718))), Some(1722030653718));
    assert_eq!(timestamp_from(Ok(Duration::new(1, 999_999_999))), Some(1999));
    assert_eq!(timestamp_from(Ok(Duration::from_nanos(999_999))), Some(0));
    assert_eq!(
        timestamp_from(Ok(Duration::new(u64::MAX, 999_999_999))),
        Some(18446744073709551615999)
    );
    assert_eq!(timestamp_from(UNIX_EPOCH.duration_since(UNIX_EPOCH)), Some(0));
}

#[test]
fn timestamp_before_the_epoch_is_none() {
    let before = UNIX_EPOCH - Duration::from_secs(5);
    let elapsed = before.duration_since(UNIX_EPOCH);
    assert!(elapsed.is_err());
    assert_eq!(timestamp_from(elapsed), None);
}

#[test]
fn clock_does_not_run_backwards_by_much() {
    let first = get_timestamp().unwrap();
    let second = get_timestamp().unwrap();
    assert!(first > 1_600_000_000_000);
    assert!(second + 60_000 >= first);
}

#[test]
fn own_errors_come_before_the_clock() {
    let nobody = Bybit::new(None, None);
    assert_eq!(
        nobody.cancel_order(Category::Linear, "ETHUSDT", OrderId::OrderID("x".to_string())),
        Err(RequestError::MissingCredential)
    );
    assert_eq!(nobody.cancel_all_orders(Category::Linear, "ETHUSDT"), Err(RequestError::MissingCredential));
    assert_eq!(nobody.get_orders(Category::Linear, "ETHUSDT", None), Err(RequestError::MissingCredential));
    assert_eq!(
        nobody.get_wallet_balance(AccountType::UNIFIED, None),
        Err(RequestError::MissingCredential)
    );
    assert_eq!(
        nobody.create_order(
            Category::Linear,
            "ETHUSDT",
            TradeDirection::Buy,
            OrderType::Market,
            "1",
            None,
            None
        ),
        Err(RequestError::MissingCredential)
    );
    let nested = vec![("a".to_string(), Json::Array(vec![]))];
    assert_eq!(client().get_request("/x", &nested), Err(RequestError::MalformedParameters));
    assert_eq!(
        client().signed_request("/x", RequestKind::Read, &nested),
        Err(RequestError::MalformedParameters)
    );
    let without_secret = Bybit::new(Some("key".to_string()), None);
    assert_eq!(without_secret.get_request("/x", &nested), Err(RequestError::MalformedParameters));
    assert_eq!(without_secret.get_request("/x", &vec![]), Err(RequestError::MissingCredential));
}

#[test]
fn requests_made_now_agree_with_requests_at_their_timestamp() {
    let bybit = client();
    let now = bybit.get_orders(Category::Linear, "ETHUSDT", None).unwrap();
    let at = bybit.get_orders_at(Category::Linear, "ETHUSDT", None, now.timestamp).unwrap();
    assert_eq!(now, at);
    let pairs = vec![("symbol", "BTCUSDT".to_string())];
    let now = bybit.text_request("/v5/market/tickers", RequestKind::Read, pairs.clone()).unwrap();
    let at = bybit.text_request_at("/v5/market/tickers", RequestKind::Read, pairs, now.timestamp).unwrap();
    assert_eq!(now, at);
    assert_eq!(now.url, "https://api.bybit.com/v5/market/tickers?symbol=BTCUSDT");
    let params = vec![("symbol".to_string(), text("BTCUSDT"))];
    let now = bybit.signed_request("/v5/order/create", RequestKind::Write, &params).unwrap();
    let at = bybit.signed_request_at("/v5/order/create", RequestKind::Write, &params, now.timestamp);
    assert_eq!(Ok(now), at);
}

#[test]
fn signatures_are_sixty_four_lowercase_hex_digits() {
    let bybit = client();
    for signature in [
        sign("", ""),
        sign("secret", "message"),
        bybit.sign_request("1722030653718key5000".to_string()).unwrap(),
        bybit.make_signature(u128::MAX, "{}").unwrap(),
    ] {
        assert_eq!(signature.len(), 64);
        assert!(signature.chars().all(|c| c.is_ascii_digit() || ('a'..='f').contains(&c)));
    }
    assert_eq!(sign("", ""), "b613679a0814d9ec772f95d778c35fc5ff1697c493715653c6c712144292c5ad");
}

use bybit_rest::decode::{coerce_decimal, read_decimal, read_order_type, read_side};
use bybit_rest::envelope::{
    account_from, decode, decode_envelope, decode_orders, decode_payload,
    decode_status, decode_wallet_balance, envelope_from, orders_from, payload_from,
    payload_from_parsed,
};
use bybit_rest::json::member;
use bybit_rest::numbers::{is_decimal, parse_i32, parse_i64, parse_integer, parse_u128};
use bybit_rest::structures::{
    AccountInfo, CoinInfo, ContractInfo, CreateOrderResponse, LeverageFilter, Order, PositionInfo,
    TickerData,
};
use bybit_rest::{BybitResponse, Decimal, DecodeError, Json, Mismatch, OrderType, TradeDirection};

const ORDER: &str = r#"{"avgPrice":"3000.5","blockTradeId":"","cancelType":"","closeOnTrigger":true,"createType":"","createdTime":"1722030653718","cumExecFee":null,"cumExecQty":"0.05","cumExecValue":150,"isLeverage":"","lastPriceOnCreated":"","leavesQty":"","leavesValue":"","marketUnit":"","orderId":"d3075c7f-0cae-4bc0-9ace-e9b5d9055326","orderIv":"","orderLinkId":"","orderStatus":"Filled","orderType":"Market","placeType":"","positionIdx":2,"price":"3000.21","qty":0.1,"reduceOnly":false,"rejectReason":"","side":"Sell","slLimitPrice":"","slTriggerBy":"","smpGroup":-3,"smpOrderId":"","smpType":"","stopLoss":"","stopOrderType":"","symbol":"ETHUSDT","takeProfit":"","timeInForce":"","tpLimitPrice":"","tpTriggerBy":"","tpslMode":"","triggerBy":"","triggerDirection":1,"triggerPrice":"","updatedTime":""}"#;
const COIN: &str = r#"{"availableToBorrow":"","bonus":null,"accruedInterest":"","availableToWithdraw":"0","totalOrderIM":"0","equity":"1000.5","totalPositionMM":"0","usdValue":"1e3","unrealisedPnl":"0","collateralSwitch":true,"spotHedgingQty":"0","borrowAmount":"","totalPositionIM":"0","walletBalance":1000.5,"cumRealisedPnl":"0","locked":"0","marginCollateral":false,"coin":"USDT"}"#;
const ACCOUNT: &str = r#"{"totalEquity":"1234.56","accountIMRate":"0","totalMarginBalance":"0","totalInitialMargin":"0","accountType":"UNIFIED","totalAvailableBalance":"0","accountMMRate":"0","totalPerpUPL":"0","totalWalletBalance":"0","accountLTV":null,"totalMaintenanceMargin":"0","coin":[{"availableToBorrow":"","bonus":null,"accruedInterest":"","availableToWithdraw":"0","totalOrderIM":"0","equity":"1000.5","totalPositionMM":"0","usdValue":"1e3","unrealisedPnl":"0","collateralSwitch":true,"spotHedgingQty":"0","borrowAmount":"","totalPositionIM":"0","walletBalance":1000.5,"cumRealisedPnl":"0","locked":"0","marginCollateral":false,"coin":"USDT"},{"availableToBorrow":"","bonus":"0","accruedInterest":"","availableToWithdraw":"0","totalOrderIM":"0","equity":"0.25","totalPositionMM":"0","usdValue":"0","unrealisedPnl":"0","collateralSwitch":false,"spotHedgingQty":"0","borrowAmount":"","totalPositionIM":"0","walletBalance":"0","cumRealisedPnl":"0","locked":"0","marginCollateral":false,"coin":"BTC"}]}"#;
const CONTRACT: &str = r#"{"symbol":"ETHUSDT","contractType":"","status":"","baseCoin":"","quoteCoin":"","launchTime":"","deliveryTime":"","deliveryFeeRate":"","priceScale":"2","leverageFilter":{"minLeverage":"0","maxLeverage":"100.00","leverageStep":"0"},"priceFilter":{"minPrice":"0","maxPrice":"0","tickSize":"0"},"lotSizeFilter":{"maxOrderQty":"0","minOrderQty":"0","qtyStep":0.01,"postOnlyMaxOrderQty":"0","maxMktOrderQty":"0","minNotionalValue":"0"},"unifiedMarginTrade":false,"fundingInterval":480,"settleCoin":"","copyTrading":"","upperFundingRate":"0","lowerFundingRate":"0"}"#;
const POSITION: &str = r#"{"adlRankIndicator":0,"autoAddMargin":0,"avgPrice":"0","bustPrice":"","createdTime":"","cumRealisedPnl":"0","curRealisedPnl":"0","isReduceOnly":false,"leverage":"0","leverageSysUpdatedTime":"","markPrice":"0","mmrSysUpdatedTime":"","positionBalance":"0","positionIM":"0","positionIdx":0,"positionMM":"0","positionStatus":"","positionValue":"0","riskId":11,"riskLimitValue":"0","seq":9223372036854775807,"sessionAvgPrice":"","side":"Buy","size":"1.5","stopLoss":"","symbol":"ETHUSDT","takeProfit":"","tpslMode":"","tradeMode":0,"trailingStop":"0","unrealisedPnl":"0","updatedTime":""}"#;
const TICKER: &str = r#"{"ask1Price":"3000.22","ask1Size":"0","basis":"","basisRate":"","bid1Price":"0","bid1Size":"0","curPreListingPhase":"","deliveryFeeRate":"","deliveryTime":"0","fundingRate":"0","highPrice24h":"0","indexPrice":"0","lastPrice":"3000.21","lowPrice24h":"0","markPrice":"0","nextFundingTime":"0","openInterest":"0","openInterestValue":"0","preOpenPrice":"","preQty":"","predictedDeliveryPrice":"","prevPrice1h":"0","prevPrice24h":"0","price24hPcnt":"0","symbol":"ETHUSDT","turnover24h":"0","volume24h":"0"}"#;

fn text(s: &str) -> Json {
    Json::Text(s.to_string())
}

fn number(s: &str) -> Json {
    Json::Number(s.to_string())
}

fn parsed(body: &str) -> Json {
    let wrapped = format!(
        "{{\"retCode\":0,\"retMsg\":\"OK\",\"result\":{},\"retExtInfo\":{{}},\"time\":1}}",
        body
    );
    decode_payload(&wrapped).unwrap()
}

fn envelope(result: &str) -> String {
    format!(
        "{{\"retCode\":0,\"retMsg\":\"OK\",\"result\":{},\"retExtInfo\":{{}},\"time\":1722030653718}}",
        result
    )
}

fn value_of(d: &Decimal) -> f64 {
    match d {
        Decimal::Absent => 0.0,
        Decimal::Quoted(t) => t.parse().unwrap(),
        Decimal::Literal(t) => t.parse().unwrap(),
    }
}

#[test]
fn test_response_decoding() {
    let json = r#"{"retCode":0,"retMsg":"OK","result":{"orderId":"xxxx","orderLinkId":""},"retExtInfo":{},"time":1722030653718}"#;

    let resp: BybitResponse = decode_envelope(json).unwrap();
    assert_eq!(resp.ret_code, 0);
    assert_eq!(resp.ret_msg, "OK");
    assert_eq!(resp.time, 1722030653718);
    assert_eq!(resp.ret_ext_info, Json::Object(vec![]));

    let order_query: CreateOrderResponse = CreateOrderResponse::decode(&resp.result).unwrap();
    assert_eq!(order_query.order_id, "xxxx");
    assert_eq!(order_query.order_link_id, "");

    let json2 = r#"{"retCode":10010,"retMsg":"Unmatched IP, please check your API key's bound IP addresses.","result":{},"retExtInfo":{},"time":1722154324869}"#;

    let resp: BybitResponse = decode_envelope(json2).unwrap();
    assert_eq!(resp.ret_code, 10010);
    assert_eq!(resp.ret_msg, "Unmatched IP, please check your API key's bound IP addresses.");
    assert_eq!(resp.result, Json::Object(vec![]));
    assert_eq!(resp.time, 1722154324869);
}

#[test]
fn envelope_success_decodes_the_record() {
    let body = r#"{"retCode":0,"retMsg":"OK","result":{"orderId":"abc","orderLinkId":""},"retExtInfo":{},"time":1722030653718}"#;
    let record = decode::<CreateOrderResponse>(body).unwrap();
    assert_eq!(record.order_id, "abc");
    assert_eq!(record.order_link_id, "");
    assert_eq!(decode_status(body), Ok(()));
}

#[test]
fn envelope_failure_is_the_exchange_error() {
    let body = r#"{"retCode":10010,"retMsg":"Unmatched IP...","result":{},"retExtInfo":{},"time":1722154324869}"#;
    let expected = DecodeError::ExchangeError { code: 10010, message: "Unmatched IP...".to_string() };
    assert_eq!(decode::<CreateOrderResponse>(body), Err(expected));
    let expected = DecodeError::ExchangeError { code: 10010, message: "Unmatched IP...".to_string() };
    assert_eq!(decode_status(body), Err(expected));
    assert!(matches!(decode_orders(body), Err(DecodeError::ExchangeError { code: 10010, .. })));
    assert!(matches!(decode_wallet_balance(body), Err(DecodeError::ExchangeError { code: 10010, .. })));
    assert!(matches!(decode_payload(body), Err(DecodeError::ExchangeError { code: 10010, .. })));
}

#[test]
fn rejected_envelope_does_not_look_at_the_payload() {
    let body = r#"{"retCode":1,"retMsg":"no","result":[1,2,{"orderId":7}],"retExtInfo":null,"time":0}"#;
    let expected = DecodeError::ExchangeError { code: 1, message: "no".to_string() };
    assert_eq!(decode::<CreateOrderResponse>(body), Err(expected));
}

#[test]
fn invalid_envelopes() {
    assert_eq!(decode_envelope("not json"), Err(DecodeError::InvalidEnvelope));
    assert_eq!(decode_envelope(""), Err(DecodeError::InvalidEnvelope));
    assert_eq!(decode_envelope("[]"), Err(DecodeError::InvalidEnvelope));
    assert_eq!(decode_envelope("{}"), Err(DecodeError::InvalidEnvelope));
    assert_eq!(
        decode_envelope(r#"{"retMsg":"OK","result":{},"retExtInfo":{},"time":1}"#),
        Err(DecodeError::InvalidEnvelope)
    );
    assert_eq!(
        decode_envelope(r#"{"retCode":0,"result":{},"retExtInfo":{},"time":1}"#),
        Err(DecodeError::InvalidEnvelope)
    );
    assert_eq!(
        decode_envelope(r#"{"retCode":0,"retMsg":"OK","retExtInfo":{},"time":1}"#),
        Err(DecodeError::InvalidEnvelope)
    );
    assert_eq!(
        decode_envelope(r#"{"retCode":"0","retMsg":"OK","result":{},"retExtInfo":{},"time":1}"#),
        Err(DecodeError::InvalidEnvelope)
    );
    assert_eq!(
        decode_envelope(
            r#"{"retCode":9223372036854775808,"retMsg":"OK","result":{},"retExtInfo":{},"time":1}"#
        ),
        Err(DecodeError::InvalidEnvelope)
    );
    assert_eq!(
        decode_envelope(r#"{"retCode":0,"retMsg":"OK","result":{},"retExtInfo":{},"time":-1}"#),
        Err(DecodeError::InvalidEnvelope)
    );
    assert_eq!(
        decode_envelope(r#"{"retCode":0.5,"retMsg":"OK","result":{},"retExtInfo":{},"time":1}"#),
        Err(DecodeError::InvalidEnvelope)
    );
    assert_eq!(
        decode_envelope(r#"{"retCode":0,"retMsg":5,"result":{},"retExtInfo":{},"time":1}"#),
        Err(DecodeError::InvalidEnvelope)
    );
    assert_eq!(
        decode_envelope(r#"{"retCode":0,"retMsg":"OK","result":{},"retExtInfo":{},"time":1} x"#),
        Err(DecodeError::InvalidEnvelope)
    );
    assert_eq!(decode::<CreateOrderResponse>("{"), Err(DecodeError::InvalidEnvelope));
    assert_eq!(envelope_from(None), Err(DecodeError::InvalidEnvelope));
    assert_eq!(envelope_from(Some(Json::Null)), Err(DecodeError::InvalidEnvelope));
}

#[test]
fn envelope_from_a_tree() {
    let tree = Json::Object(vec![
        ("time".to_string(), number("5")),
        ("retExtInfo".to_string(), Json::Null),
        ("result".to_string(), Json::Array(vec![text("a")])),
        ("retCode".to_string(), number("9223372036854775807")),
        ("retMsg".to_string(), text("m")),
    ]);
    let envelope = envelope_from(Some(tree)).unwrap();
    assert_eq!(envelope.ret_code, i64::MAX);
    assert_eq!(envelope.ret_msg, "m");
    assert_eq!(envelope.result, Json::Array(vec![text("a")]));
    assert_eq!(envelope.ret_ext_info, Json::Null);
    assert_eq!(envelope.time, 5);
    assert_eq!(
        payload_from(envelope),
        Err(DecodeError::ExchangeError { code: i64::MAX, message: "m".to_string() })
    );
    let ok = BybitResponse {
        ret_code: 0,
        ret_msg: "OK".to_string(),
        result: text("payload"),
        ret_ext_info: Json::Null,
        time: 1,
    };
    assert_eq!(payload_from(ok), Ok(text("payload")));
    let too_big = Json::Object(vec![
        ("retCode".to_string(), number("9223372036854775808")),
        ("retMsg".to_string(), text("m")),
        ("result".to_string(), Json::Null),
        ("retExtInfo".to_string(), Json::Null),
        ("time".to_string(), number("5")),
    ]);
    assert_eq!(envelope_from(Some(too_big)), Err(DecodeError::InvalidEnvelope));
}

#[test]
fn parser_keeps_the_shape_of_the_document() {
    let tree = parsed(r#"{"a":[1,-2.5,"x",true,null,{"b":{}}],"c":"é\n"}"#);
    let expected = Json::Object(vec![
        (
            "a".to_string(),
            Json::Array(vec![
                number("1"),
                number("-2.5"),
                text("x"),
                Json::Bool(true),
                Json::Null,
                Json::Object(vec![("b".to_string(), Json::Object(vec![]))]),
            ]),
        ),
        ("c".to_string(), text("é\n")),
    ]);
    assert_eq!(tree, expected);
}

#[test]
fn member_finds_by_name() {
    let members = vec![("a".to_string(), number("1")), ("b".to_string(), number("2")), ("a".to_string(), number("3"))];
    assert_eq!(member(&members, "a"), Some(&number("1")));
    assert_eq!(member(&members, "b"), Some(&number("2")));
    assert_eq!(member(&members, "c"), None);
    assert_eq!(member(&vec![], "a"), None);
}

#[test]
fn tolerant_numeric_coercion() {
    let from_text = coerce_decimal(&text("3000.21"), "price").unwrap();
    assert_eq!(from_text, Decimal::Quoted("3000.21".to_string()));
    assert_eq!(value_of(&from_text), 3000.21);
    let tree = parsed(r#"{"price":3000.21,"qty":null,"flag":true,"list":[1],"bad":"12x","obj":{}}"#);
    let members = match &tree {
        Json::Object(members) => members,
        _ => unreachable!(),
    };
    let from_number = read_decimal(members, "price").unwrap();
    assert_eq!(from_number, Decimal::Literal("3000.21".to_string()));
    assert_eq!(value_of(&from_number), 3000.21);
    let from_null = read_decimal(members, "qty").unwrap();
    assert_eq!(from_null, Decimal::Absent);
    assert_eq!(value_of(&from_null), 0.0);
    assert_eq!(read_decimal(members, "flag"), Err(DecodeError::InvalidFieldType { field: "flag" }));
    assert_eq!(read_decimal(members, "list"), Err(DecodeError::InvalidFieldType { field: "list" }));
    assert_eq!(read_decimal(members, "obj"), Err(DecodeError::InvalidFieldType { field: "obj" }));
    assert_eq!(read_decimal(members, "bad"), Err(DecodeError::InvalidNumericString { field: "bad" }));
    assert_eq!(
        read_decimal(members, "none"),
        Err(DecodeError::SchemaMismatch { field: "none", reason: Mismatch::Missing })
    );
    assert_eq!(coerce_decimal(&Json::Bool(false), "x"), Err(DecodeError::InvalidFieldType { field: "x" }));
    assert_eq!(coerce_decimal(&Json::Array(vec![]), "x"), Err(DecodeError::InvalidFieldType { field: "x" }));
    assert_eq!(coerce_decimal(&text(""), "x"), Err(DecodeError::InvalidNumericString { field: "x" }));
}

#[test]
fn decimal_texts_are_what_the_float_parser_takes() {
    let cases = [
        "0", "1", "3000.21", "-3000.21", "+3000.21", "1.", ".5", "-.5", "1e5", "1E5", "1e+5", "1e-5",
        "1.5e10", "1.e5", ".5e5", "inf", "-inf", "+inf", "INF", "Infinity", "infinity", "-iNfInItY",
        "nan", "NaN", "-nan", "007", "0.000", "123456789012345678901234567890", "", "+", "-", ".",
        "e5", "1e", "1e+", "+-1", "--1", "1..2", "1.2.3", "1e5.5", "1e5e5", " 1", "1 ", "1_000",
        "0x10", "abc", "12x", "infinit", "infinityy", "in", "na", "nanx", "+.", "-.e1", "1,5", "½",
        "１２", "1é", "é", "1e٣", "in\u{17f}", "+e1", ".e", "..", "1ee1", "i", "infxnity",
    ];
    for case in cases {
        assert_eq!(is_decimal(case), case.parse::<f64>().is_ok(), "{:?}", case);
    }
}

#[test]
fn integer_literals() {
    assert_eq!(parse_integer("0"), Some((false, 0)));
    assert_eq!(parse_integer("-12"), Some((true, 12)));
    assert_eq!(parse_integer("007"), Some((false, 7)));
    assert_eq!(parse_integer("340282366920938463463374607431768211455"), Some((false, u128::MAX)));
    assert_eq!(parse_integer("340282366920938463463374607431768211456"), None);
    assert_eq!(parse_integer("3402823669209384634633746074317682114550"), None);
    assert_eq!(parse_integer(""), None);
    assert_eq!(parse_integer("-"), None);
    assert_eq!(parse_integer("+1"), None);
    assert_eq!(parse_integer("1.0"), None);
    assert_eq!(parse_integer("1e3"), None);
    assert_eq!(parse_integer("12a"), None);
    assert_eq!(parse_integer("١٢"), None);
    assert_eq!(parse_u128("1722030653718"), Some(1722030653718));
    assert_eq!(parse_u128("-1"), None);
    assert_eq!(parse_u128("-0"), Some(0));
    assert_eq!(parse_u128("340282366920938463463374607431768211455"), Some(u128::MAX));
    assert_eq!(parse_u128("-5"), None);
    assert_eq!(parse_i64("9223372036854775807"), Some(i64::MAX));
    assert_eq!(parse_i64("9223372036854775808"), None);
    assert_eq!(parse_i64("-9223372036854775808"), Some(i64::MIN));
    assert_eq!(parse_i64("-9223372036854775809"), None);
    assert_eq!(parse_i32("2147483647"), Some(i32::MAX));
    assert_eq!(parse_i32("2147483648"), None);
    assert_eq!(parse_i32("-2147483648"), Some(i32::MIN));
    assert_eq!(parse_i32("-2147483649"), None);
    assert_eq!(parse_i32("-42"), Some(-42));
}

#[test]
fn unknown_enum_literal_is_an_error() {
    let members = vec![
        ("orderType".to_string(), text("Stop")),
        ("side".to_string(), text("Hold")),
        ("ok".to_string(), text("Limit")),
        ("n".to_string(), number("1")),
    ];
    assert_eq!(
        read_order_type(&members, "orderType"),
        Err(DecodeError::UnknownEnumVariant { field: "orderType", value: "Stop".to_string() })
    );
    assert_eq!(
        read_side(&members, "side"),
        Err(DecodeError::UnknownEnumVariant { field: "side", value: "Hold".to_string() })
    );
    assert_eq!(read_order_type(&members, "ok"), Ok(OrderType::Limit));
    assert_eq!(
        read_side(&members, "n"),
        Err(DecodeError::SchemaMismatch { field: "n", reason: Mismatch::NotText })
    );
    let order = ORDER.replace("\"orderType\":\"Market\"", "\"orderType\":\"market\"");
    assert_eq!(
        Order::decode(&parsed(&order)),
        Err(DecodeError::UnknownEnumVariant { field: "orderType", value: "market".to_string() })
    );
}

#[test]
fn order_decodes_field_by_field() {
    let order = Order::decode(&parsed(ORDER)).unwrap();
    assert_eq!(order.avg_price, "3000.5");
    assert_eq!(order.order_id, "d3075c7f-0cae-4bc0-9ace-e9b5d9055326");
    assert_eq!(order.symbol, "ETHUSDT");
    assert_eq!(order.order_status, "Filled");
    assert_eq!(order.created_time, "1722030653718");
    assert_eq!(order.side, TradeDirection::Sell);
    assert_eq!(order.order_type, OrderType::Market);
    assert!(order.close_on_trigger);
    assert!(!order.reduce_only);
    assert_eq!(order.position_idx, 2);
    assert_eq!(order.smp_group, -3);
    assert_eq!(order.trigger_direction, 1);
    assert_eq!(value_of(&order.price), 3000.21);
    assert_eq!(value_of(&order.qty), 0.1);
    assert_eq!(order.cum_exec_fee, Decimal::Absent);
    assert_eq!(value_of(&order.cum_exec_qty), 0.05);
    assert_eq!(value_of(&order.cum_exec_value), 150.0);
    assert_eq!(order.cum_exec_value, Decimal::Literal("150".to_string()));
}

#[test]
fn order_reports_the_first_field_at_fault() {
    let missing = ORDER.replace("\"blockTradeId\":\"\",", "").replace("\"symbol\":\"ETHUSDT\",", "");
    assert_eq!(
        Order::decode(&parsed(&missing)),
        Err(DecodeError::SchemaMismatch { field: "blockTradeId", reason: Mismatch::Missing })
    );
    let wrong = ORDER.replace("\"positionIdx\":2", "\"positionIdx\":2.5");
    assert_eq!(
        Order::decode(&parsed(&wrong)),
        Err(DecodeError::SchemaMismatch { field: "positionIdx", reason: Mismatch::NotInteger })
    );
    let wrong = ORDER.replace("\"positionIdx\":2", "\"positionIdx\":2147483648");
    assert_eq!(
        Order::decode(&parsed(&wrong)),
        Err(DecodeError::SchemaMismatch { field: "positionIdx", reason: Mismatch::NotInteger })
    );
    let wrong = ORDER.replace("\"closeOnTrigger\":true", "\"closeOnTrigger\":\"true\"");
    assert_eq!(
        Order::decode(&parsed(&wrong)),
        Err(DecodeError::SchemaMismatch { field: "closeOnTrigger", reason: Mismatch::NotFlag })
    );
    let wrong = ORDER.replace("\"avgPrice\":\"3000.5\"", "\"avgPrice\":3000.5");
    assert_eq!(
        Order::decode(&parsed(&wrong)),
        Err(DecodeError::SchemaMismatch { field: "avgPrice", reason: Mismatch::NotText })
    );
    let wrong = ORDER.replace("\"price\":\"3000.21\"", "\"price\":\"three\"");
    assert_eq!(Order::decode(&parsed(&wrong)), Err(DecodeError::InvalidNumericString { field: "price" }));
    let wrong = ORDER.replace("\"price\":\"3000.21\"", "\"price\":[3000.21]");
    assert_eq!(Order::decode(&parsed(&wrong)), Err(DecodeError::InvalidFieldType { field: "price" }));
    assert_eq!(
        Order::decode(&Json::Array(vec![])),
        Err(DecodeError::SchemaMismatch { field: "order", reason: Mismatch::NotAnObject })
    );
}

#[test]
fn orders_list() {
    let body = envelope(&format!("{{\"list\":[{},{}],\"category\":\"linear\"}}", ORDER, ORDER));
    let orders = decode_orders(&body).unwrap();
    assert_eq!(orders.len(), 2);
    assert_eq!(orders[0], orders[1]);
    assert_eq!(orders[1].symbol, "ETHUSDT");
    assert_eq!(decode_orders(&envelope("{\"list\":[]}")), Ok(vec![]));
    assert_eq!(decode_orders(&envelope("{}")), Err(DecodeError::MissingListField));
    assert_eq!(decode_orders(&envelope("{\"list\":{}}")), Err(DecodeError::MissingListField));
    assert_eq!(decode_orders(&envelope("[]")), Err(DecodeError::MissingListField));
    let bad = envelope(&format!("{{\"list\":[{},{{}}]}}", ORDER));
    assert_eq!(
        decode_orders(&bad),
        Err(DecodeError::SchemaMismatch { field: "avgPrice", reason: Mismatch::Missing })
    );
    assert_eq!(orders_from(&Json::Null), Err(DecodeError::MissingListField));
}

#[test]
fn wallet_balance_takes_the_first_account() {
    let body = envelope(&format!("{{\"list\":[{},{{}}]}}", ACCOUNT));
    let account = decode_wallet_balance(&body).unwrap();
    assert_eq!(account.account_type, "UNIFIED");
    assert_eq!(value_of(&account.total_equity), 1234.56);
    assert_eq!(account.account_ltv, Decimal::Absent);
    assert_eq!(account.coin.len(), 2);
    assert_eq!(account.coin[0].coin, "USDT");
    assert_eq!(value_of(&account.coin[0].equity), 1000.5);
    assert_eq!(value_of(&account.coin[0].wallet_balance), 1000.5);
    assert_eq!(value_of(&account.coin[0].usd_value), 1000.0);
    assert_eq!(account.coin[0].bonus, Decimal::Absent);
    assert!(account.coin[0].collateral_switch);
    assert_eq!(account.coin[1].coin, "BTC");
    assert_eq!(account.coin[1], CoinInfo::decode(&parsed(COIN.replace("USDT", "BTC").replace("\"1000.5\"", "\"0.25\"").replace("1000.5", "\"0\"").replace("null", "\"0\"").replace("true", "false").replace("1e3", "0").as_str())).unwrap());
    assert_eq!(decode_wallet_balance(&envelope("{\"list\":[]}")), Err(DecodeError::EmptyList));
    assert_eq!(decode_wallet_balance(&envelope("{}")), Err(DecodeError::MissingListField));
    assert_eq!(decode_wallet_balance(&envelope("{\"list\":5}")), Err(DecodeError::MissingListField));
    assert_eq!(
        decode_wallet_balance(&envelope("{\"list\":[7]}")),
        Err(DecodeError::SchemaMismatch { field: "account_info", reason: Mismatch::NotAnObject })
    );
    assert_eq!(account_from(&Json::Object(vec![])), Err(DecodeError::MissingListField));
}

#[test]
fn account_reports_faults_in_its_coins() {
    let no_list = ACCOUNT.replace("\"coin\":[", "\"coin\":{\"x\":[").replace("}]}", "}]}}");
    assert_eq!(
        AccountInfo::decode(&parsed(&no_list)),
        Err(DecodeError::SchemaMismatch { field: "coin", reason: Mismatch::NotList })
    );
    let bad_coin = ACCOUNT.replace("\"equity\":\"0.25\"", "\"equity\":false");
    assert_eq!(AccountInfo::decode(&parsed(&bad_coin)), Err(DecodeError::InvalidFieldType { field: "equity" }));
}

#[test]
fn contract_decodes_its_filters() {
    let contract = ContractInfo::decode(&parsed(CONTRACT)).unwrap();
    assert_eq!(contract.symbol, "ETHUSDT");
    assert_eq!(contract.funding_interval, 480);
    assert_eq!(value_of(&contract.price_scale), 2.0);
    assert_eq!(value_of(&contract.leverage_filter.max_leverage), 100.0);
    assert_eq!(value_of(&contract.lot_size_filter.qty_step), 0.01);
    assert_eq!(value_of(&contract.price_filter.tick_size), 0.0);
    let wrong = CONTRACT.replace("\"maxLeverage\":\"100.00\"", "\"maxLeverage\":\"a lot\"");
    assert_eq!(
        ContractInfo::decode(&parsed(&wrong)),
        Err(DecodeError::InvalidNumericString { field: "maxLeverage" })
    );
    let wrong = CONTRACT.replace("\"priceFilter\":{", "\"priceFilter\":[],\"x\":{");
    assert_eq!(
        ContractInfo::decode(&parsed(&wrong)),
        Err(DecodeError::SchemaMismatch { field: "price_filter", reason: Mismatch::NotAnObject })
    );
    let filter = LeverageFilter::decode(&parsed(r#"{"minLeverage":1,"maxLeverage":"2","leverageStep":null}"#)).unwrap();
    assert_eq!(value_of(&filter.min_leverage), 1.0);
    assert_eq!(value_of(&filter.max_leverage), 2.0);
    assert_eq!(filter.leverage_step, Decimal::Absent);
}

#[test]
fn decode_reads_any_record_out_of_a_body() {
    let ticker: TickerData = decode(&envelope(TICKER)).unwrap();
    assert_eq!(ticker.symbol, "ETHUSDT");
    let order: Order = decode(&envelope(ORDER)).unwrap();
    assert_eq!(order.symbol, "ETHUSDT");
    assert_eq!(decode::<PositionInfo>(&envelope(POSITION)), PositionInfo::decode(&parsed(POSITION)));
    assert_eq!(decode::<ContractInfo>(&envelope(CONTRACT)), ContractInfo::decode(&parsed(CONTRACT)));
    assert_eq!(decode::<CoinInfo>(&envelope(COIN)), CoinInfo::decode(&parsed(COIN)));
    assert_eq!(
        decode::<TickerData>(&envelope("{}")),
        Err(DecodeError::SchemaMismatch { field: "ask1Price", reason: Mismatch::Missing })
    );
    assert_eq!(decode::<TickerData>("nothing"), Err(DecodeError::InvalidEnvelope));
}

#[test]
fn position_and_ticker_decode() {
    let position = PositionInfo::decode(&parsed(POSITION)).unwrap();
    assert_eq!(position.symbol, "ETHUSDT");
    assert_eq!(position.seq, i64::MAX);
    assert_eq!(position.risk_id, 11);
    assert_eq!(position.side, "Buy");
    assert_eq!(value_of(&position.size), 1.5);
    let wrong = POSITION.replace("9223372036854775807", "9223372036854775808");
    assert_eq!(
        PositionInfo::decode(&parsed(&wrong)),
        Err(DecodeError::SchemaMismatch { field: "seq", reason: Mismatch::NotInteger })
    );
    let ticker = TickerData::decode(&parsed(TICKER)).unwrap();
    assert_eq!(ticker.symbol, "ETHUSDT");
    assert_eq!(value_of(&ticker.last_price), 3000.21);
    assert_eq!(value_of(&ticker.ask1_price), 3000.22);
    let wrong = TICKER.replace("\"lastPrice\":\"3000.21\"", "\"lastPrice\":true");
    assert_eq!(TickerData::decode(&parsed(&wrong)), Err(DecodeError::InvalidFieldType { field: "lastPrice" }));
}

#[test]
fn negative_status_is_the_exchange_error() {
    let body = r#"{"retCode":-1,"retMsg":"bad","result":{},"retExtInfo":{},"time":1}"#;
    let envelope = decode_envelope(body).unwrap();
    assert_eq!(envelope.ret_code, -1);
    assert_eq!(envelope.ret_msg, "bad");
    assert_eq!(
        decode_status(body),
        Err(DecodeError::ExchangeError { code: -1, message: "bad".to_string() })
    );
    assert_eq!(
        decode_payload(body),
        Err(DecodeError::ExchangeError { code: -1, message: "bad".to_string() })
    );
    assert_eq!(
        decode::<CreateOrderResponse>(body),
        Err(DecodeError::ExchangeError { code: -1, message: "bad".to_string() })
    );
    assert_eq!(
        decode_orders(body),
        Err(DecodeError::ExchangeError { code: -1, message: "bad".to_string() })
    );
    assert_eq!(
        decode_wallet_balance(body),
        Err(DecodeError::ExchangeError { code: -1, message: "bad".to_string() })
    );
    let lowest = r#"{"retCode":-9223372036854775808,"retMsg":"","result":null,"retExtInfo":null,"time":0}"#;
    assert_eq!(
        decode_status(lowest),
        Err(DecodeError::ExchangeError { code: i64::MIN, message: String::new() })
    );
    let tree = Json::Object(vec![
        ("retCode".to_string(), number("-1")),
        ("retMsg".to_string(), text("bad")),
        ("result".to_string(), Json::Object(vec![])),
        ("retExtInfo".to_string(), Json::Object(vec![])),
        ("time".to_string(), number("1")),
    ]);
    assert_eq!(
        payload_from_parsed(Some(tree)),
        Err(DecodeError::ExchangeError { code: -1, message: "bad".to_string() })
    );
}

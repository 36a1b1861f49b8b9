use tokocrypto_cli::api::{Access, ApiRequest, Method};
use tokocrypto_cli::commands::account::AccountCommand;
use tokocrypto_cli::commands::funding::FundingCommand;
use tokocrypto_cli::commands::market::{detect_symbol_type, server_time_addendum, MarketCommand};
use tokocrypto_cli::commands::trade::OrderCommand;
use tokocrypto_cli::errors::TokocryptoError;
use tokocrypto_cli::json::{JsonNumber, JsonValue};
use tokocrypto_cli::output::OutputFormat;

fn s(v: &str) -> JsonValue {
    JsonValue::Str(v.to_string())
}

fn n(v: u64) -> JsonValue {
    JsonValue::Number(JsonNumber::PosInt(v))
}

fn obj(entries: Vec<(&str, JsonValue)>) -> JsonValue {
    JsonValue::Object(entries.into_iter().map(|(k, v)| (k.to_string(), v)).collect())
}

fn req(method: Method, access: Access, endpoint: &str, params: Vec<(&str, &str)>) -> ApiRequest {
    ApiRequest {
        method,
        access,
        endpoint: endpoint.to_string(),
        params: params.into_iter().map(|(k, v)| (k.to_string(), v.to_string())).collect(),
    }
}

fn listing() -> JsonValue {
    obj(vec![(
        "data",
        obj(vec![(
            "list",
            JsonValue::Array(vec![
                obj(vec![("symbol", s("BTC_USDT")), ("type", n(1))]),
                obj(vec![("symbol", s("TKO_BIDR")), ("type", n(2))]),
                obj(vec![("symbol", s("ABC_IDR"))]),
            ]),
        )]),
    )])
}

#[test]
fn detects_symbol_type_from_listing() {
    let l = listing();
    assert_eq!(detect_symbol_type(&l, "btc_usdt"), 1);
    assert_eq!(detect_symbol_type(&l, "BTCUSDT"), 1);
    assert_eq!(detect_symbol_type(&l, "tko-bidr"), 2);
    assert_eq!(detect_symbol_type(&l, "ABC_IDR"), 3);
    assert_eq!(detect_symbol_type(&l, "XYZ_USDT"), 3);
    assert_eq!(detect_symbol_type(&JsonValue::Null, "BTC_USDT"), 3);
}

#[test]
fn depth_request_depends_on_symbol_type() {
    let cmd = MarketCommand::Depth { symbol: "btc_usdt".to_string(), limit: 100, symbol_type: None };
    assert_eq!(cmd.symbol_to_detect().map(|s| s.as_str()), Some("btc_usdt"));
    assert_eq!(
        cmd.request(1),
        req(
            Method::Get,
            Access::Public,
            "https://www.tokocrypto.site/api/v3/depth",
            vec![("symbol", "BTCUSDT"), ("limit", "100")]
        )
    );
    assert_eq!(
        cmd.request(3),
        req(
            Method::Get,
            Access::Public,
            "https://cloudme-toko.2meta.app/api/v1/depth",
            vec![("symbol", "BTCUSDT"), ("limit", "100")]
        )
    );
}

#[test]
fn explicit_symbol_type_wins() {
    let cmd = MarketCommand::Trades {
        symbol: "tko_bidr".to_string(),
        from_id: Some(12),
        limit: 500,
        symbol_type: Some(3),
    };
    assert!(cmd.symbol_to_detect().is_none());
    let expected = req(
        Method::Get,
        Access::Public,
        "/open/v1/market/trades",
        vec![("limit", "500"), ("symbol", "TKOBIDR"), ("fromId", "12")],
    );
    assert_eq!(cmd.request(1), expected);
    assert_eq!(cmd.request(2), expected);
}

#[test]
fn klines_and_agg_trades_parameters() {
    let k = MarketCommand::Klines {
        symbol: "eth_usdt".to_string(),
        interval: "1h".to_string(),
        start_time: Some(1000),
        end_time: None,
        limit: 10,
        symbol_type: Some(1),
    };
    assert_eq!(
        k.request(3),
        req(
            Method::Get,
            Access::Public,
            "https://www.tokocrypto.site/api/v3/klines",
            vec![("interval", "1h"), ("limit", "10"), ("startTime", "1000"), ("symbol", "ETHUSDT")]
        )
    );
    let a = MarketCommand::AggTrades {
        symbol: "eth_usdt".to_string(),
        from_id: None,
        start_time: None,
        end_time: Some(-5),
        limit: 7,
        symbol_type: Some(3),
    };
    assert_eq!(
        a.request(1),
        req(
            Method::Get,
            Access::Public,
            "https://cloudme-toko.2meta.app/api/v1/aggTrades",
            vec![("limit", "7"), ("endTime", "-5"), ("symbol", "ETHUSDT")]
        )
    );
}

#[test]
fn execution_rules_take_first_filter_given() {
    let cmd = MarketCommand::ExecutionRules {
        symbol: None,
        symbols: Some("btc_usdt,eth_usdt".to_string()),
        status: Some("trading".to_string()),
    };
    assert_eq!(
        cmd.request(3),
        req(
            Method::Get,
            Access::Public,
            "https://www.tokocrypto.site/api/v3/executionRules",
            vec![("symbols", "BTCUSDT,ETHUSDT")]
        )
    );
    let by_status = MarketCommand::ExecutionRules { symbol: None, symbols: None, status: Some("halt".to_string()) };
    assert_eq!(by_status.request(3).params, vec![("symbolStatus".to_string(), "HALT".to_string())]);
}

#[test]
fn market_outputs() {
    let ping = MarketCommand::Ping.output(obj(vec![]), OutputFormat::Json);
    assert_eq!(ping.label, "Ping");
    assert_eq!(ping.addendum.as_deref(), Some("Tokocrypto API is reachable"));
    assert_eq!(ping.format, OutputFormat::Json);

    let time = MarketCommand::ServerTime.output(obj(vec![("timestamp", n(0))]), OutputFormat::Table);
    assert_eq!(time.label, "Server Time");
    assert_eq!(time.addendum.as_deref(), Some("1970-01-01 00:00:00 UTC (0)"));

    let time2 = MarketCommand::ServerTime.output(obj(vec![("data", n(1700000000000))]), OutputFormat::Table);
    assert_eq!(time2.addendum.as_deref(), Some("2023-11-14 22:13:20 UTC (1700000000000)"));

    let depth = MarketCommand::Depth { symbol: "btc_usdt".to_string(), limit: 5, symbol_type: None }
        .output(JsonValue::Null, OutputFormat::Table);
    assert_eq!(depth.label, "Order Book Depth — BTC_USDT");
}

#[test]
fn server_time_note_without_formatting() {
    assert_eq!(server_time_addendum(42, None), "42 (42)");
    assert_eq!(server_time_addendum(42, Some("then".to_string())), "then (42)");
}

fn buy(order_type: &str, tif: Option<&str>) -> OrderCommand {
    OrderCommand::Buy {
        pair: "btc_usdt".to_string(),
        order_type: order_type.to_string(),
        price: Some("100".to_string()),
        volume: Some("0.1".to_string()),
        quote_order_qty: None,
        client_id: Some("c1".to_string()),
        time_in_force: tif.map(|t| t.to_string()),
        stop_price: None,
        iceberg_qty: None,
    }
}

#[test]
fn buy_order_parameters() {
    assert_eq!(
        buy("limit", Some("gtc")).request(),
        Ok(req(
            Method::Post,
            Access::Signed,
            "/open/v1/orders",
            vec![
                ("symbol", "BTCUSDT"),
                ("side", "0"),
                ("type", "1"),
                ("price", "100"),
                ("quantity", "0.1"),
                ("clientId", "c1"),
                ("timeInForce", "1"),
            ]
        ))
    );
    let other = buy("oddtype", Some("xyz")).request().unwrap();
    assert_eq!(other.params[2], ("type".to_string(), "ODDTYPE".to_string()));
    assert_eq!(other.params[6], ("timeInForce".to_string(), "XYZ".to_string()));
}

#[test]
fn sell_order_codes() {
    let cmd = OrderCommand::Sell {
        pair: "eth-idr".to_string(),
        order_type: "STOP_LOSS_LIMIT".to_string(),
        price: None,
        volume: Some("2".to_string()),
        client_id: None,
        time_in_force: Some("fok".to_string()),
        stop_price: Some("9".to_string()),
        iceberg_qty: Some("1".to_string()),
    };
    assert_eq!(
        cmd.request().unwrap().params,
        vec![
            ("symbol".to_string(), "ETHIDR".to_string()),
            ("side".to_string(), "1".to_string()),
            ("type".to_string(), "4".to_string()),
            ("quantity".to_string(), "2".to_string()),
            ("stopPrice".to_string(), "9".to_string()),
            ("icebergQty".to_string(), "1".to_string()),
            ("timeInForce".to_string(), "3".to_string()),
        ]
    );
}

#[test]
fn cancel_needs_an_order() {
    let none = OrderCommand::Cancel { order_id: None, client_id: None };
    assert_eq!(
        none.request(),
        Err(TokocryptoError::Validation("Either order-id or client-id must be provided".to_string()))
    );
    let by_id = OrderCommand::Cancel { order_id: Some(77), client_id: None };
    assert_eq!(
        by_id.request(),
        Ok(req(Method::Post, Access::Signed, "/open/v1/orders/cancel", vec![("orderId", "77")]))
    );
}

#[test]
fn order_queries() {
    let all = OrderCommand::AllOrders {
        pair: "btc_usdt".to_string(),
        count: 20,
        order_type: -1,
        from_id: Some("5".to_string()),
    };
    assert_eq!(
        all.request(),
        Ok(req(
            Method::Get,
            Access::Signed,
            "/open/v1/orders",
            vec![("symbol", "BTCUSDT"), ("limit", "20"), ("type", "-1"), ("fromId", "5"), ("direct", "next")]
        ))
    );
    let open = OrderCommand::OpenOrders { pair: "btc_usdt".to_string(), count: 3 };
    assert_eq!(open.output(JsonValue::Null, OutputFormat::Table).label, "Open Orders — BTCUSDT");
    let q = OrderCommand::Query { order_id: 9, client_id: None };
    assert_eq!(q.output(JsonValue::Null, OutputFormat::Table).label, "Order Info — 9");
}

#[test]
fn oco_side_codes() {
    let oco = |side: &str| OrderCommand::Oco {
        pair: "btc_usdt".to_string(),
        side: side.to_string(),
        volume: "1".to_string(),
        price: "2".to_string(),
        stop_price: "3".to_string(),
        stop_limit_price: "4".to_string(),
        list_client_id: None,
    };
    assert_eq!(oco("buy").request().unwrap().params[1].1, "0");
    assert_eq!(oco("Sell").request().unwrap().params[1].1, "1");
    assert_eq!(oco("other").request().unwrap().params[1].1, "other");
}

#[test]
fn placed_order_note() {
    let result = obj(vec![("data", obj(vec![("orderId", n(123))]))]);
    let out = buy("limit", None).output(result, OutputFormat::Table);
    assert_eq!(out.label, "New Order Result");
    assert_eq!(out.addendum.as_deref(), Some("BUY order placed successfully! Order ID: 123"));
    let none = buy("limit", None).output(obj(vec![]), OutputFormat::Table);
    assert!(none.addendum.is_none());
}

#[test]
fn account_requests_and_balances() {
    assert_eq!(
        AccountCommand::Info.request(),
        req(Method::Get, Access::Signed, "/open/v1/account/spot", vec![])
    );
    assert_eq!(
        AccountCommand::Assets { asset: "btc".to_string() }.request(),
        req(Method::Get, Access::Signed, "/open/v1/account/spot/asset", vec![("asset", "BTC")])
    );
    assert_eq!(
        AccountCommand::Trades { symbol: "btcusdt".to_string(), from_id: Some(3), limit: 50 }.request(),
        req(
            Method::Get,
            Access::Signed,
            "/open/v1/orders/trades",
            vec![("symbol", "BTCUSDT"), ("limit", "50"), ("fromId", "3"), ("direct", "next")]
        )
    );
    let assets = JsonValue::Array(vec![obj(vec![("asset", s("BTC"))])]);
    let resp = obj(vec![("data", obj(vec![("accountAssets", assets.deep_clone()), ("other", n(1))]))]);
    let out = AccountCommand::Balance.output(resp, OutputFormat::Table);
    assert_eq!(out.label, "Balances");
    assert_eq!(out.data, obj(vec![("accountAssets", assets)]));
}

#[test]
fn funding_requests() {
    let w = FundingCommand::Withdraw {
        coin: "BTC".to_string(),
        amount: "0.5".to_string(),
        address: "addr".to_string(),
        tag: "mine".to_string(),
        memo: None,
        network: Some("BTC".to_string()),
    };
    assert_eq!(
        w.request(),
        req(
            Method::Post,
            Access::Signed,
            "/open/v1/withdraws",
            vec![("coin", "BTC"), ("amount", "0.5"), ("address", "addr"), ("name", "mine"), ("network", "BTC")]
        )
    );
    assert_eq!(
        w.output(JsonValue::Null, OutputFormat::Table).addendum.as_deref(),
        Some("Withdrawal of 0.5 BTC submitted successfully")
    );
    let h = FundingCommand::DepositHistory { coin: Some("IDR".to_string()), status: Some(1), limit: 10 };
    assert_eq!(
        h.request(),
        req(Method::Get, Access::Signed, "/open/v1/deposits", vec![("limit", "10"), ("coin", "IDR"), ("status", "1")])
    );
    let a = FundingCommand::DepositAddress { coin: "usdt".to_string(), network: None };
    assert_eq!(
        a.request(),
        req(Method::Get, Access::Signed, "/open/v1/deposits/address", vec![("coin", "USDT"), ("asset", "USDT")])
    );
    assert_eq!(a.output(JsonValue::Null, OutputFormat::Table).label, "Deposit Address — USDT");
}

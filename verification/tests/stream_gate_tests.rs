use tokocrypto_cli::api::{Access, ApiRequest, Method};
use tokocrypto_cli::commands::auth::{mask_key, mask_secret, AuthCommand};
use tokocrypto_cli::commands::paper::PaperCommand;
use tokocrypto_cli::commands::utility::{classify_line, ShellInput};
use tokocrypto_cli::commands::websocket::{
    depth_stream_url, keep_alive_request, listen_key, listen_token_request, matches_channel,
    stream_step, user_stream_url, wait_for, StreamBounds, Wait, WebSocketCommand, WsMessage,
};
use tokocrypto_cli::errors::TokocryptoError;
use tokocrypto_cli::gate::gate::{exchange_id, paper_order_fills, paper_order_id, paper_order_status};
use tokocrypto_cli::gate::rest::{last_trade_url, pairs_from_listing, recent_trade_fields, ticker_price_text, ticker_price_url};
use tokocrypto_cli::gate::types::{GateError, MarketPair};
use tokocrypto_cli::gate::ws::{
    depth_level, get_ws_host, group_pairs, match_pair, orderbook_stream_url, price_stream_url,
    snapshot_levels, symbol_types_from_listing, trade_event_fields, type_of_pair, SymbolTypes,
};
use tokocrypto_cli::json::{JsonNumber, JsonValue};
use tokocrypto_cli::output::OutputFormat;

fn s(v: &str) -> JsonValue {
    JsonValue::Str(v.to_string())
}

fn n(v: u64) -> JsonValue {
    JsonValue::Number(JsonNumber::PosInt(v))
}

fn obj(entries: Vec<(&str, JsonValue)>) -> JsonValue {
    JsonValue::Object(entries.into_iter().map(|(k, v)| (k.to_string(), v)).collect())
}

fn strings(v: &[&str]) -> Vec<String> {
    v.iter().map(|x| x.to_string()).collect()
}

fn listing() -> JsonValue {
    obj(vec![(
        "data",
        obj(vec![(
            "list",
            JsonValue::Array(vec![
                obj(vec![("symbol", s("BTC_USDT")), ("baseAsset", s("btc")), ("quoteAsset", s("usdt")), ("type", n(1))]),
                obj(vec![("symbol", s("TKO_BIDR")), ("baseAsset", s("TKO")), ("quoteAsset", s("BIDR")), ("type", n(2))]),
                obj(vec![("symbol", s("ODD")), ("baseAsset", s("")), ("quoteAsset", s("X"))]),
            ]),
        )]),
    )])
}

#[test]
fn masks_credentials() {
    assert_eq!(mask_key("abcdefghijkl"), "abcd...ijkl");
    assert_eq!(mask_key("short"), "short");
    assert_eq!(mask_key("12345678"), "12345678");
    assert_eq!(mask_secret("abcdefghijkl"), "abcd...ijkl");
    assert_eq!(mask_secret("short"), "(set)");
}

#[test]
fn auth_outputs() {
    let shown = AuthCommand::show_output(&Some("AKIAABCDEFGH".to_string()), &None, "/home/u/.config/t.toml", OutputFormat::Json);
    assert_eq!(
        shown.data,
        obj(vec![
            ("api_key", s("AKIA...EFGH")),
            ("api_secret", s("(not set)")),
            ("config_path", s("/home/u/.config/t.toml")),
        ])
    );
    assert_eq!(shown.label, "Auth Config");
    let saved = AuthCommand::saved_output("/tmp/c.toml", OutputFormat::Table);
    assert_eq!(saved.addendum.as_deref(), Some("Credentials saved to /tmp/c.toml"));
    let tested = AuthCommand::tested_output(OutputFormat::Table);
    assert_eq!(tested.addendum.as_deref(), Some("Authentication OK — credentials are valid"));
    let (a, b) = AuthCommand::test_requests();
    assert_eq!(a.endpoint, "/open/v1/common/time");
    assert_eq!(b.access, Access::Signed);
    let unset = AuthCommand::show_output(&None, &None, "/p", OutputFormat::Table);
    assert_eq!(
        unset.data,
        obj(vec![("api_key", s("(not set)")), ("api_secret", s("(not set)")), ("config_path", s("/p"))])
    );
    let short = AuthCommand::show_output(&Some("abc".to_string()), &Some("xyz".to_string()), "/p", OutputFormat::Table);
    assert_eq!(short.data.get("api_key"), Some(&s("abc")));
    assert_eq!(short.data.get("api_secret"), Some(&s("(set)")));
    assert_eq!(AuthCommand::reset_output(OutputFormat::Table).data, obj(vec![("reset", JsonValue::Bool(true))]));
}

#[test]
fn paper_balances() {
    let out = PaperCommand::Balance.output(OutputFormat::Table);
    assert_eq!(out.label, "Paper Balances");
    assert_eq!(out.addendum.as_deref(), Some("Paper trading is currently a simulated stub."));
    let balances = out.data.get("balances").unwrap().as_array().unwrap();
    assert_eq!(balances.len(), 3);
    assert_eq!(balances[1].get("free"), Some(&s("100000000.00")));
}

#[test]
fn shell_lines() {
    assert_eq!(classify_line("   "), ShellInput::Skip);
    assert_eq!(classify_line(" exit "), ShellInput::Exit);
    assert_eq!(classify_line("q"), ShellInput::Exit);
    assert_eq!(classify_line("?"), ShellInput::Help);
    assert_eq!(
        classify_line("market depth 'BTC USDT' --limit 5"),
        ShellInput::Run(strings(&["tokocrypto", "market", "depth", "BTC USDT", "--limit", "5"]))
    );
    assert_eq!(classify_line("market \"unclosed"), ShellInput::Invalid);
}

#[test]
fn stream_urls() {
    assert_eq!(depth_stream_url("BTC_USDT", 1), "wss://stream-cloud.tokocrypto.site/ws/btcusdt@depth");
    assert_eq!(depth_stream_url("TKO_BIDR", 2), "wss://www.tokocrypto.com/ws/tko_bidr@depth");
    assert_eq!(depth_stream_url("ABC_IDR", 3), "wss://stream-toko.2meta.app/ws/abcidr@depth");
    assert_eq!(user_stream_url("k1", 3), "wss://stream-toko.2meta.app/ws/k1");
    assert_eq!(user_stream_url("k1", 1), "wss://stream-cloud.tokocrypto.site/ws/k1");
}

#[test]
fn listen_token_handling() {
    assert_eq!(
        listen_token_request(),
        ApiRequest { method: Method::Post, access: Access::Signed, endpoint: "/open/v1/user-listen-token".to_string(), params: vec![] }
    );
    let keep = keep_alive_request("tok");
    assert_eq!(keep.method, Method::Put);
    assert_eq!(keep.params.len(), 3);
    assert_eq!(keep.params[2], ("token".to_string(), "tok".to_string()));

    let resp = obj(vec![("data", obj(vec![("listenKey", s("lk")), ("listenToken", s("lt"))]))]);
    assert_eq!(listen_key(&resp, "{}"), Ok("lk".to_string()));
    let top = obj(vec![("listenToken", s("t2"))]);
    assert_eq!(listen_key(&top, "{}"), Ok("t2".to_string()));
    assert_eq!(
        listen_key(&obj(vec![]), "{}"),
        Err(TokocryptoError::Api {
            code: -1,
            message: "Failed to extract listenKey/listenToken from response: {}".to_string()
        })
    );
}

#[test]
fn channels_filter_events() {
    assert!(matches_channel("orders", "executionReport"));
    assert!(matches_channel("orders", "listOrderStatus"));
    assert!(!matches_channel("orders", "outboundAccountPosition"));
    assert!(!matches_channel("balances", "balanceUpdate"));
    assert!(matches_channel("balances", "outboundAccountPosition"));
    assert!(matches_channel("balances", "accountBalance"));
    assert!(matches_channel("other", "anything"));
}

#[test]
fn stream_bounds() {
    let b = StreamBounds::new(Some(2), Some(3));
    assert_eq!(b.deadline(1000), Some(4000));
    assert!(!b.limit_reached(1));
    assert!(b.limit_reached(2));
    assert_eq!(StreamBounds::new(None, None).deadline(5), None);
    assert_eq!(wait_for(None, 10), Wait::Unbounded);
    assert_eq!(wait_for(Some(10), 10), Wait::Expired);
    assert_eq!(wait_for(Some(15), 10), Wait::Within(5));
    let cmd = WebSocketCommand::Orders { limit: Some(1), seconds: None, symbol_type: 1 };
    assert_eq!(cmd.bounds(), StreamBounds::new(Some(1), None));
    assert_eq!(cmd.channel().as_deref(), Some("orders"));
    assert!(WebSocketCommand::finished_output(OutputFormat::Json).label.is_empty());
}

#[test]
fn stream_steps() {
    let bounds = StreamBounds::new(Some(2), None);
    let depth = stream_step(bounds, None, 0, WsMessage::Text(Some(obj(vec![("a", n(1))]))), OutputFormat::Json);
    assert_eq!(depth.count, 1);
    assert!(!depth.stop);
    let out = depth.emit.unwrap();
    assert_eq!(out.label, "Depth Update");
    assert_eq!(out.format, OutputFormat::Json);

    let last = stream_step(bounds, None, 1, WsMessage::Text(Some(n(2))), OutputFormat::Table);
    assert_eq!(last.count, 2);
    assert!(last.stop);

    let ignored = stream_step(bounds, Some("orders"), 0, WsMessage::Text(Some(obj(vec![("e", s("balanceUpdate"))]))), OutputFormat::Table);
    assert!(ignored.emit.is_none());
    assert_eq!(ignored.count, 0);

    let order = stream_step(bounds, Some("orders"), 0, WsMessage::Text(Some(obj(vec![("e", s("executionReport"))]))), OutputFormat::Table);
    assert_eq!(order.emit.unwrap().label, "executionReport");

    let user = stream_step(bounds, Some("all"), 0, WsMessage::Text(Some(obj(vec![]))), OutputFormat::Table);
    assert_eq!(user.emit.unwrap().label, "userDataUpdate");

    let not_json = stream_step(bounds, None, 0, WsMessage::Text(None), OutputFormat::Table);
    assert!(not_json.emit.is_none() && !not_json.stop);

    let ping = stream_step(bounds, None, 0, WsMessage::Ping(vec![1, 2]), OutputFormat::Table);
    assert_eq!(ping.pong, Some(vec![1, 2]));
    let closed = stream_step(bounds, None, 0, WsMessage::Close, OutputFormat::Table);
    assert!(closed.closed && closed.stop);
    let err = stream_step(bounds, None, 0, WsMessage::Error("boom".to_string()), OutputFormat::Table);
    assert_eq!(err.error.as_deref(), Some("boom"));
    assert!(err.stop);
}

#[test]
fn gate_pairs_from_listing() {
    let pairs = pairs_from_listing(&listing()).unwrap();
    assert_eq!(
        pairs,
        vec![
            MarketPair { symbol: "BTC/USDT".to_string(), base: "BTC".to_string(), quote: "USDT".to_string(), active: true },
            MarketPair { symbol: "TKO/BIDR".to_string(), base: "TKO".to_string(), quote: "BIDR".to_string(), active: true },
        ]
    );
    assert_eq!(
        pairs_from_listing(&obj(vec![])),
        Err(GateError::Api("Missing data.list in common/symbols".to_string()))
    );
}

#[test]
fn gate_rest_urls_and_prices() {
    assert_eq!(ticker_price_url("btc/usdt"), "https://www.tokocrypto.site/api/v3/ticker/price?symbol=BTCUSDT");
    assert_eq!(last_trade_url("btc/usdt"), "https://www.tokocrypto.com/open/v1/market/trades?symbol=BTC_USDT&limit=1");
    assert_eq!(ticker_price_text(&obj(vec![("price", s("1.5"))])), Some("1.5".to_string()));
    assert_eq!(ticker_price_text(&obj(vec![("price", n(1))])), None);

    let trades = obj(vec![(
        "data",
        obj(vec![("list", JsonValue::Array(vec![obj(vec![("p", s("2.5")), ("time", n(99))])]))]),
    )]);
    assert_eq!(recent_trade_fields(&trades), Ok(("2.5".to_string(), Some(99))));
    let empty = obj(vec![("data", obj(vec![("list", JsonValue::Array(vec![]))]))]);
    assert_eq!(
        recent_trade_fields(&empty),
        Err(GateError::Api("No trades found to retrieve price".to_string()))
    );
    let no_price = obj(vec![("data", obj(vec![("list", JsonValue::Array(vec![obj(vec![])]))]))]);
    assert_eq!(
        recent_trade_fields(&no_price),
        Err(GateError::Api("Missing price field in trade data".to_string()))
    );
    assert_eq!(GateError::Api("x".to_string()).to_string(), "api error: x");
}

#[test]
fn gate_symbol_types_and_streams() {
    let types = symbol_types_from_listing(&listing()).unwrap();
    assert_eq!(types.get("BTCUSDT"), Some(1));
    assert_eq!(types.get("TKOBIDR"), Some(2));
    assert_eq!(type_of_pair(&types, "btc/usdt"), 1);
    assert_eq!(type_of_pair(&types, "tko-bidr"), 2);
    assert_eq!(type_of_pair(&types, "xyz_idr"), 3);
    assert_eq!(get_ws_host(2), "wss://www.tokocrypto.com");

    let groups = group_pairs(&strings(&["btc/usdt", "tko/bidr", "eth_usdt", "xyz_idr"]), &types).unwrap();
    assert_eq!(
        groups,
        vec![(1, strings(&["btc/usdt"])), (2, strings(&["tko/bidr"])), (3, strings(&["eth_usdt", "xyz_idr"]))]
    );
    assert_eq!(
        group_pairs(&vec![], &types),
        Err(GateError::InvalidSymbol("No pairs specified for price stream".to_string()))
    );
    assert_eq!(
        price_stream_url(2, &strings(&["TKO/BIDR"])),
        "wss://www.tokocrypto.com/stream?streams=tko_bidr@trade"
    );
    assert_eq!(
        price_stream_url(3, &strings(&["eth_usdt", "xyz-idr"])),
        "wss://stream-toko.2meta.app/stream?streams=ethusdt@trade/xyzidr@trade"
    );
    assert_eq!(match_pair(&strings(&["btc/usdt", "eth_usdt"]), "ETH_USDT"), Some("eth_usdt".to_string()));
    assert_eq!(match_pair(&strings(&["btc/usdt"]), "ETHUSDT"), None);
    assert_eq!(depth_level(1), 5);
    assert_eq!(depth_level(10), 10);
    assert_eq!(depth_level(11), 20);
    assert_eq!(orderbook_stream_url(&types, "btc/usdt", 7), "wss://stream-cloud.tokocrypto.site/ws/btcusdt@depth10");
    assert_eq!(orderbook_stream_url(&SymbolTypes::new(), "TKO/BIDR", 50), "wss://stream-toko.2meta.app/ws/tkobidr@depth20");
}

#[test]
fn gate_paper_orders() {
    assert_eq!(exchange_id(), "Tokocrypto");
    assert_eq!(paper_order_status("limit"), "OPEN");
    assert_eq!(paper_order_status("market"), "FILLED");
    assert!(!paper_order_fills("Limit"));
    assert!(paper_order_fills("MARKET"));
    assert_eq!(paper_order_id(1700000000000), "paper-tokocrypto-1700000000000");
}

#[test]
fn stream_stops_at_its_limit() {
    for (limit, expected) in [(2usize, 2usize), (1, 1), (0, 0)] {
        let bounds = StreamBounds::new(Some(limit), None);
        let mut count = 0usize;
        let mut shown = 0usize;
        for _ in 0..5 {
            let step = stream_step(bounds, None, count, WsMessage::Text(Some(n(1))), OutputFormat::Table);
            if step.emit.is_some() {
                shown += 1;
            }
            count = step.count;
            if step.stop {
                break;
            }
        }
        assert_eq!(count, expected);
        assert_eq!(shown, expected);
    }
}

#[test]
fn trade_events_of_price_streams() {
    let pairs = strings(&["btc/usdt", "tko/bidr"]);
    let msg = obj(vec![("data", obj(vec![("s", s("TKO_BIDR")), ("p", s("12.5")), ("T", n(77))]))]);
    assert_eq!(
        trade_event_fields(&msg, &pairs),
        Some(("tko/bidr".to_string(), "12.5".to_string(), 77))
    );
    let unknown = obj(vec![("data", obj(vec![("s", s("ETHUSDT")), ("p", s("1")), ("T", n(1))]))]);
    assert_eq!(trade_event_fields(&unknown, &pairs), None);
    let no_time = obj(vec![("data", obj(vec![("s", s("BTCUSDT")), ("p", s("1"))]))]);
    assert_eq!(trade_event_fields(&no_time, &pairs), None);
}

#[test]
fn order_book_snapshot_levels() {
    let level = |p: &str, q: &str| JsonValue::Array(vec![s(p), s(q)]);
    let msg = obj(vec![
        ("bids", JsonValue::Array(vec![level("9", "1"), JsonValue::Array(vec![s("8")]), level("7", "2")])),
        ("asks", JsonValue::Array(vec![JsonValue::Array(vec![n(10), s("1")]), level("11", "3")])),
    ]);
    let pair = |p: &str, q: &str| (p.to_string(), q.to_string());
    assert_eq!(
        snapshot_levels(&msg),
        Some((vec![pair("9", "1"), pair("7", "2")], vec![pair("11", "3")]))
    );
    assert_eq!(snapshot_levels(&obj(vec![("bids", JsonValue::Array(vec![]))])), None);
}

#[test]
fn gate_error_texts() {
    assert_eq!(GateError::Network("down".to_string()).to_string(), "network error: down");
    assert_eq!(GateError::WebSocket("closed".to_string()).to_string(), "websocket error: closed");
    assert_eq!(GateError::InvalidSymbol("X".to_string()).to_string(), "invalid symbol: X");
    assert_eq!(GateError::Other("?".to_string()).to_string(), "unknown error: ?");
}

#[test]
fn message_at_the_limit_is_not_handled() {
    let bounds = StreamBounds::new(Some(0), None);
    let depth = stream_step(bounds, None, 0, WsMessage::Text(Some(n(1))), OutputFormat::Table);
    assert!(depth.emit.is_none());
    assert_eq!(depth.count, 0);
    assert!(depth.stop);
    let ping = stream_step(StreamBounds::new(Some(3), None), None, 3, WsMessage::Ping(vec![7]), OutputFormat::Table);
    assert!(ping.pong.is_none() && ping.stop);
}

use tokocrypto_cli::auth::{sign, sign_params};
use tokocrypto_cli::errors::TokocryptoError;
use tokocrypto_cli::json::{JsonNumber, JsonValue};
use tokocrypto_cli::commands::paper::PaperCommand;
use tokocrypto_cli::{
    non_shell_rejection, normalize_pair, shell_context, shell_finished_output, AppContext, Cli, Command,
};
use tokocrypto_cli::output::table::{auto_table, format_value, Body, Cell};
use tokocrypto_cli::output::{success, CommandOutput, OutputFormat, Rendering};

fn s(v: &str) -> JsonValue {
    JsonValue::Str(v.to_string())
}

fn n(v: u64) -> JsonValue {
    JsonValue::Number(JsonNumber::PosInt(v))
}

fn obj(entries: Vec<(&str, JsonValue)>) -> JsonValue {
    JsonValue::Object(entries.into_iter().map(|(k, v)| (k.to_string(), v)).collect())
}

fn arr(items: Vec<JsonValue>) -> JsonValue {
    JsonValue::Array(items)
}

fn text(v: &str) -> Cell {
    Cell::Text(v.to_string())
}

#[test]
fn sign_matches_hmac_sha256_test_vector() {
    assert_eq!(
        sign("Jefe", "what do ya want for nothing?"),
        "5bdcc146bf60754e6a042426089575c75a003f089d2739839dec58b964ec3843"
    );
}

#[test]
fn sign_is_lower_case_hex_of_32_bytes() {
    let sig = sign("secret", "symbol=BTCUSDT");
    assert_eq!(sig.len(), 64);
    assert!(sig.chars().all(|c| c.is_ascii_digit() || ('a'..='f').contains(&c)));
    assert_eq!(sig, sign("secret", "symbol=BTCUSDT"));
    assert_ne!(sig, sign("other", "symbol=BTCUSDT"));
}

#[test]
fn sign_params_appends_window_time_and_signature() {
    let signed = sign_params("key", "symbol=BTCUSDT", 1700000000000, 5000);
    let base = "symbol=BTCUSDT&recvWindow=5000&timestamp=1700000000000";
    assert_eq!(signed, format!("{}&signature={}", base, sign("key", base)));
}

#[test]
fn sign_params_without_query() {
    let signed = sign_params("key", "", 42, 5000);
    let base = "recvWindow=5000&timestamp=42";
    assert_eq!(signed, format!("{}&signature={}", base, sign("key", base)));
}

#[test]
fn error_categories_and_retryability() {
    let cases = vec![
        (TokocryptoError::Api { code: -1121, message: "Invalid symbol.".to_string() }, "api", false),
        (TokocryptoError::Auth("bad key".to_string()), "auth", false),
        (TokocryptoError::Network("timeout".to_string()), "network", true),
        (TokocryptoError::Validation("x".to_string()), "validation", false),
        (TokocryptoError::RateLimit("slow down".to_string()), "rate_limit", true),
        (TokocryptoError::Config("x".to_string()), "config", false),
        (TokocryptoError::Io("x".to_string()), "io", false),
        (TokocryptoError::Parse("x".to_string()), "parse", false),
        (TokocryptoError::WebSocket("closed".to_string()), "websocket", true),
        (TokocryptoError::Internal("x".to_string()), "internal", false),
    ];
    for (e, category, retryable) in cases {
        assert_eq!(e.category(), category);
        assert_eq!(e.retryable(), retryable);
    }
}

#[test]
fn error_messages() {
    let e = TokocryptoError::Api { code: -1121, message: "Invalid symbol.".to_string() };
    assert_eq!(e.to_string(), "API error (-1121): Invalid symbol.");
    assert_eq!(TokocryptoError::Auth("bad key".to_string()).to_string(), "Authentication failed: bad key");
    assert_eq!(TokocryptoError::RateLimit("wait".to_string()).to_string(), "Rate limited: wait");
    assert_eq!(TokocryptoError::Io("disk".to_string()).to_string(), "I/O error: disk");
    assert_eq!(TokocryptoError::WebSocket("gone".to_string()).to_string(), "WebSocket error: gone");
}

#[test]
fn error_envelope() {
    let e = TokocryptoError::Network("timeout".to_string());
    assert_eq!(
        e.to_json_envelope(),
        obj(vec![
            ("error", JsonValue::Bool(true)),
            ("error_type", s("network")),
            ("message", s("Network error: timeout")),
            ("retryable", JsonValue::Bool(true)),
        ])
    );
}

#[test]
fn output_format_from_str() {
    assert_eq!(OutputFormat::from_str("json"), OutputFormat::Json);
    assert_eq!(OutputFormat::from_str("JSON"), OutputFormat::Json);
    assert_eq!(OutputFormat::from_str("table"), OutputFormat::Table);
    assert_eq!(OutputFormat::from_str("yaml"), OutputFormat::Table);
    assert_eq!(OutputFormat::default(), OutputFormat::Table);
}

#[test]
fn normalize_pair_removes_separators_and_upper_cases() {
    assert_eq!(normalize_pair("btc_usdt"), "BTCUSDT");
    assert_eq!(normalize_pair("eth-idr"), "ETHIDR");
    assert_eq!(normalize_pair("BTC/USDT"), "BTCUSDT");
    assert_eq!(normalize_pair("TKOBIDR"), "TKOBIDR");
}

#[test]
fn json_output_is_success_envelope() {
    let out = CommandOutput::new(obj(vec![("serverTime", n(5))]), "Ping")
        .with_addendum("Tokocrypto API is reachable")
        .with_format(OutputFormat::Json);
    assert_eq!(
        out.render(),
        Rendering::Json(obj(vec![
            ("success", JsonValue::Bool(true)),
            ("data", obj(vec![("serverTime", n(5))])),
            ("addendum", s("Tokocrypto API is reachable")),
        ]))
    );
}

#[test]
fn blank_output_renders_nothing() {
    let out = CommandOutput::new(JsonValue::Null, "");
    assert_eq!(out.render(), Rendering::Empty);
    assert_eq!(out.with_format(OutputFormat::Json).render(), Rendering::Empty);
}

#[test]
fn explicit_table_wins() {
    let out = CommandOutput::new(obj(vec![("a", n(1))]), "Orders")
        .with_table(vec!["Id".to_string()], vec![vec!["7".to_string()]]);
    assert_eq!(
        out.render(),
        Rendering::Table {
            body: Body::Grid {
                title: Some("Orders".to_string()),
                headers: vec!["Id".to_string()],
                rows: vec![vec!["7".to_string()]],
            },
            addendum: None,
        }
    );
}

#[test]
fn success_helper() {
    let out = success("Saved");
    assert_eq!(out.label, "Success");
    assert_eq!(out.addendum.as_deref(), Some("Saved"));
    assert_eq!(out.data, obj(vec![("success", JsonValue::Bool(true)), ("message", s("Saved"))]));
}

#[test]
fn cells_of_values() {
    assert_eq!(format_value(&JsonValue::Null), text("—"));
    assert_eq!(format_value(&JsonValue::Bool(true)), text("✓"));
    assert_eq!(format_value(&JsonValue::Bool(false)), text("✗"));
    assert_eq!(format_value(&s("abc")), text("abc"));
    assert_eq!(format_value(&n(12)), text("12"));
    assert_eq!(format_value(&JsonValue::Number(JsonNumber::NegInt(-3))), text("-3"));
    assert_eq!(format_value(&arr(vec![n(1)])), Cell::Compact(arr(vec![n(1)])));
}

#[test]
fn array_of_objects_is_records() {
    let v = arr(vec![
        obj(vec![("symbol", s("BTCUSDT")), ("price", s("1"))]),
        obj(vec![("symbol", s("ETHUSDT"))]),
    ]);
    assert_eq!(
        auto_table("Trades", &v),
        Body::Records {
            headers: vec!["symbol".to_string(), "price".to_string()],
            records: vec![vec![text("BTCUSDT"), text("1")], vec![text("ETHUSDT"), text("—")]],
        }
    );
}

#[test]
fn object_with_data_object_is_fields() {
    let v = obj(vec![(
        "data",
        obj(vec![("list", arr(vec![n(1), n(2)])), ("meta", obj(vec![("a", n(1))])), ("ok", JsonValue::Bool(true))]),
    )]);
    assert_eq!(
        auto_table("Info", &v),
        Body::Fields {
            title: Some("Info".to_string()),
            fields: vec![
                ("list".to_string(), text("[2 items]")),
                ("meta".to_string(), text("{1 fields}")),
                ("ok".to_string(), text("✓")),
            ],
        }
    );
}

#[test]
fn balances_are_listed() {
    let v = obj(vec![(
        "balances",
        arr(vec![obj(vec![("asset", s("BTC")), ("free", s("0.5"))]), obj(vec![("locked", s("1"))])]),
    )]);
    assert_eq!(
        auto_table("", &v),
        Body::Balances(vec![
            ("BTC".to_string(), "0.5".to_string(), "0".to_string()),
            ("?".to_string(), "0".to_string(), "1".to_string()),
        ])
    );
}

#[test]
fn order_book_lists_asks_highest_first() {
    let v = obj(vec![(
        "data",
        obj(vec![
            ("asks", arr(vec![arr(vec![s("10"), s("1")]), arr(vec![s("11"), s("2")]), arr(vec![s("12")])])),
            ("bids", arr(vec![arr(vec![s("9"), s("3")]), arr(vec![n(8)])])),
        ]),
    )]);
    // `data` is an object, so it is shown as fields; the book is read at the top level.
    let book = obj(vec![
        ("asks", arr(vec![arr(vec![s("10"), s("1")]), arr(vec![s("11"), s("2")]), arr(vec![s("12")])])),
        ("bids", arr(vec![arr(vec![s("9"), s("3")]), arr(vec![n(8)])])),
    ]);
    assert!(matches!(auto_table("", &v), Body::Fields { .. }));
    assert_eq!(
        auto_table("", &book),
        Body::Orderbook {
            asks: vec![("11".to_string(), "2".to_string()), ("10".to_string(), "1".to_string())],
            bids: vec![("9".to_string(), "3".to_string()), ("?".to_string(), "?".to_string())],
        }
    );
}

#[test]
fn scalars_print_as_pretty_json() {
    assert_eq!(auto_table("", &n(3)), Body::Pretty(n(3)));
    assert_eq!(auto_table("", &arr(vec![])), Body::Pretty(arr(vec![])));
    assert_eq!(auto_table("", &arr(vec![n(1)])), Body::Pretty(arr(vec![n(1)])));
}

#[test]
fn shell_and_mcp_are_refused_by_dispatch() {
    assert_eq!(
        non_shell_rejection(&Command::Shell),
        Some(TokocryptoError::Config("Shell command is not supported in this context".to_string()))
    );
    assert_eq!(
        non_shell_rejection(&Command::Mcp { allow_dangerous: true }),
        Some(TokocryptoError::Config("MCP server must be started from the main entry point".to_string()))
    );
    assert_eq!(non_shell_rejection(&Command::Paper(PaperCommand::Balance)), None);
    let out = shell_finished_output(OutputFormat::Json);
    assert_eq!(out.label, "Shell");
    assert_eq!(out.data, JsonValue::Object(vec![]));
    let ctx = AppContext { format: OutputFormat::Json, verbose: false };
    assert_eq!(shell_context(ctx, true), AppContext { format: OutputFormat::Json, verbose: true });
    assert_eq!(shell_context(ctx, false), ctx);
}

#[test]
fn host_defaults_to_the_main_site() {
    let mut cli = Cli {
        output: OutputFormat::Table,
        api_key: None,
        api_secret: None,
        verbose: false,
        host: None,
        command: Command::Shell,
    };
    assert_eq!(cli.host_or_default(), "https://www.tokocrypto.com");
    cli.host = Some("http://localhost:8080".to_string());
    assert_eq!(cli.host_or_default(), "http://localhost:8080");
}

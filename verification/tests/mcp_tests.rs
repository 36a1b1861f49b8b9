use tokocrypto_cli::json::{JsonNumber, JsonValue};
use tokocrypto_cli::mcp::registry::ToolRegistry;
use tokocrypto_cli::mcp::schema::{
    clap_command_to_schema, is_mcp_excluded_arg, is_mcp_excluded_command, ArgSpec, CommandSpec,
};
use tokocrypto_cli::mcp::server::{tool_call_args, tool_permitted};
use tokocrypto_cli::mcp::tree::cli_command_spec;

fn positional(id: &str, help: &str, required: bool) -> ArgSpec {
    ArgSpec {
        id: id.to_string(),
        help: Some(help.to_string()),
        long: None,
        short: None,
        takes_values: true,
        required,
    }
}

fn option(id: &str, long: &str) -> ArgSpec {
    ArgSpec {
        id: id.to_string(),
        help: None,
        long: Some(long.to_string()),
        short: None,
        takes_values: true,
        required: false,
    }
}

fn flag(id: &str, help: &str, long: Option<&str>) -> ArgSpec {
    ArgSpec {
        id: id.to_string(),
        help: Some(help.to_string()),
        long: long.map(|l| l.to_string()),
        short: None,
        takes_values: false,
        required: false,
    }
}

fn command(name: &str, about: Option<&str>, args: Vec<ArgSpec>, subs: Vec<CommandSpec>) -> CommandSpec {
    CommandSpec {
        name: name.to_string(),
        about: about.map(|a| a.to_string()),
        args,
        subcommands: subs,
    }
}

fn s(v: &str) -> JsonValue {
    JsonValue::Str(v.to_string())
}

fn obj(entries: Vec<(&str, JsonValue)>) -> JsonValue {
    JsonValue::Object(entries.into_iter().map(|(k, v)| (k.to_string(), v)).collect())
}

#[test]
fn test_clap_to_schema() {
    let cmd = command(
        "test",
        None,
        vec![positional("foo", "help foo", true), flag("bar", "help bar", Some("bar"))],
        vec![],
    );

    let schema = clap_command_to_schema(&cmd);
    assert_eq!(schema.get("type"), Some(&s("object")));
    let props = schema.get("properties").unwrap();
    assert!(props.get("foo").is_some());
    assert_eq!(props.get("foo").unwrap().get("type"), Some(&s("string")));
    assert_eq!(props.get("bar").unwrap().get("type"), Some(&s("boolean")));
    let required = schema.get("required").unwrap().as_array().unwrap();
    assert_eq!(required[0], s("foo"));
}

#[test]
fn schema_lists_help_as_description_and_skips_help_args() {
    let cmd = command(
        "depth",
        None,
        vec![positional("symbol", "Trading pair symbol", true), flag("help", "Print help", Some("help"))],
        vec![],
    );
    let schema = clap_command_to_schema(&cmd);
    let props = schema.get("properties").unwrap();
    assert_eq!(props.get("symbol").unwrap().get("description"), Some(&s("Trading pair symbol")));
    assert!(props.get("help").is_none());
    assert_eq!(schema.get("required").unwrap().as_array().unwrap().len(), 1);
}

#[test]
fn test_registry_build() {
    let registry = ToolRegistry::build(&cli_command_spec());
    assert!(!registry.tools().is_empty());

    // Find tokocrypto_symbols
    let entry = registry.get_tool("tokocrypto_symbols");
    assert!(entry.is_some());
    let entry = entry.unwrap();
    assert_eq!(entry.command_path, vec!["symbols"]);
    assert!(!entry.tool.description.is_empty());
}

#[test]
fn registry_names_nested_commands_by_path() {
    let registry = ToolRegistry::build(&cli_command_spec());
    let depth = registry.get_tool("tokocrypto_market_depth").unwrap();
    assert_eq!(depth.command_path, vec!["market", "depth"]);
    assert_eq!(depth.tool.description, "Get order book depth");
    assert_eq!(depth.args_meta.len(), 3);
    assert_eq!(depth.args_meta[0].id, "symbol");
    assert_eq!(depth.args_meta[0].positional_index, Some(0));
    assert_eq!(depth.args_meta[1].long.as_deref(), Some("limit"));
    assert_eq!(depth.args_meta[2].long.as_deref(), Some("symbol-type"));
    assert_eq!(
        registry.get_tool("tokocrypto_market_symbols").unwrap().command_path,
        vec!["market", "symbols"]
    );
    let buy = registry.get_tool("tokocrypto_trade_buy").unwrap();
    assert_eq!(buy.args_meta[1].id, "type");
    assert_eq!(buy.args_meta[1].long.as_deref(), Some("type"));
    for excluded in ["tokocrypto_shell", "tokocrypto_mcp", "tokocrypto_help"] {
        assert!(registry.get_tool(excluded).is_none());
    }
    // Exclusion goes by the whole path, so commands below `ws`, `auth` and
    // `paper` are offered.
    assert!(registry.get_tool("tokocrypto_ws_depth").is_some());
    let names: Vec<&str> = registry.tools().iter().map(|t| t.tool.name.as_str()).collect();
    assert_eq!(names.len(), registry.definitions().len());
    assert_eq!(&names[..3], &["tokocrypto_market_ping", "tokocrypto_market_server_time", "tokocrypto_market_symbols"]);
}

#[test]
fn dangerous_tools_need_permission() {
    let registry = ToolRegistry::build(&cli_command_spec());
    let buy = registry.get_tool("tokocrypto_trade_buy").unwrap();
    let withdraw = registry.get_tool("tokocrypto_funding_withdraw").unwrap();
    let depth = registry.get_tool("tokocrypto_market_depth").unwrap();
    let balance = registry.get_tool("tokocrypto_account_balance").unwrap();
    assert!(!tool_permitted(buy, false));
    assert!(!tool_permitted(withdraw, false));
    assert!(tool_permitted(buy, true));
    assert!(tool_permitted(withdraw, true));
    assert!(tool_permitted(depth, false));
    assert!(tool_permitted(balance, false));
}

#[test]
fn excluded_commands_and_args() {
    for key in ["shell", "mcp", "ws", "auth", "paper"] {
        assert!(is_mcp_excluded_command(key));
    }
    assert!(!is_mcp_excluded_command("market-depth"));
    for id in ["help", "version", "output", "api_key", "api_secret", "host"] {
        assert!(is_mcp_excluded_arg(id));
    }
    assert!(!is_mcp_excluded_arg("symbol"));
}

#[test]
fn tool_call_becomes_command_line() {
    let trades = command(
        "trades",
        Some("Get recent trades"),
        vec![
            positional("symbol", "Trading pair symbol", true),
            option("limit", "limit"),
            flag("verbose", "Verbose", Some("verbose")),
            flag("quiet", "Quiet", Some("quiet")),
        ],
        vec![],
    );
    let root = command("tokocrypto", None, vec![], vec![command("market", None, vec![], vec![trades])]);
    let registry = ToolRegistry::build(&root);
    let entry = registry.get_tool("tokocrypto_market_trades").unwrap();
    let arguments = obj(vec![
        ("symbol", s("BTC_USDT")),
        ("limit", JsonValue::Number(JsonNumber::PosInt(10))),
        ("verbose", JsonValue::Bool(true)),
        ("quiet", JsonValue::Bool(false)),
    ]);
    let args = tool_call_args(entry, &arguments);
    assert_eq!(
        args,
        vec!["tokocrypto", "market", "trades", "BTC_USDT", "--limit", "10", "--verbose", "-o", "json"]
    );
}

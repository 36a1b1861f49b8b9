//! The command tree of the CLI as the tool registry reads it: every
//! command with its description and arguments.

use vstd::prelude::*;

use crate::mcp::schema::{ArgM, ArgSpec, CmdM, CommandSpec, args_view, cmd_view, cmds_view, lemma_cmds_view};

verus! {

/// The model of an argument from its parts.
pub open spec fn argm(
    id: Seq<char>,
    help: Option<Seq<char>>,
    long: Option<Seq<char>>,
    short: Option<char>,
    takes_values: bool,
    required: bool,
) -> ArgM {
    ArgM { id, help, long, short, takes_values, required }
}

pub open spec fn opt_view(s: Option<&str>) -> Option<Seq<char>> {
    match s {
        Some(t) => Some(t@),
        None => None,
    }
}

fn arg(
    id: &str,
    help: Option<&str>,
    long: Option<&str>,
    short: Option<char>,
    takes_values: bool,
    required: bool,
) -> (res: ArgSpec)
    ensures
        res.view_arg() == argm(id@, opt_view(help), opt_view(long), short, takes_values, required),
{
    ArgSpec {
        id: id.to_owned(),
        help: match help {
            Some(h) => Some(h.to_owned()),
            None => None,
        },
        long: match long {
            Some(l) => Some(l.to_owned()),
            None => None,
        },
        short,
        takes_values,
        required,
    }
}

fn cmd(name: &str, about: &str, args: Vec<ArgSpec>, subcommands: Vec<CommandSpec>) -> (res: CommandSpec)
    ensures
        cmd_view(res) == (CmdM {
            name: name@,
            about: Some(about@),
            args: args_view(args@),
            subs: cmds_view(subcommands@),
        }),
{
    CommandSpec { name: name.to_owned(), about: Some(about.to_owned()), args, subcommands }
}

/// The model of the `market ping` command.
pub open spec fn market_ping_model() -> CmdM {
    CmdM {
        name: "ping"@,
        about: Some("Test connectivity to the REST API"@),
        args: seq![],
        subs: seq![],
    }
}

/// The model of the `market server-time` command.
pub open spec fn market_server_time_model() -> CmdM {
    CmdM {
        name: "server-time"@,
        about: Some("Get the current server time"@),
        args: seq![],
        subs: seq![],
    }
}

/// The model of the `market symbols` command.
pub open spec fn market_symbols_model() -> CmdM {
    CmdM {
        name: "symbols"@,
        about: Some("Get supported trading symbols and rules"@),
        args: seq![],
        subs: seq![],
    }
}

/// The model of the `market execution-rules` command.
pub open spec fn market_execution_rules_model() -> CmdM {
    CmdM {
        name: "execution-rules"@,
        about: Some("Query symbol execution rules (Price Range)"@),
        args: seq![
            argm("symbol"@, Some("Query for a single symbol"@), Some("symbol"@), None, true, false),
            argm("symbols"@, Some("Query for multiple symbols (comma separated)"@), Some("symbols"@), None, true, false),
            argm("status"@, Some("Filter by symbol status (TRADING, HALT, BREAK)"@), Some("status"@), None, true, false),
        ],
        subs: seq![],
    }
}

/// The model of the `market depth` command.
pub open spec fn market_depth_model() -> CmdM {
    CmdM {
        name: "depth"@,
        about: Some("Get order book depth"@),
        args: seq![
            argm("symbol"@, Some("Trading pair symbol (e.g., BTC_USDT or TKO_BIDR)"@), None, None, true, true),
            argm("limit"@, Some("Limit number of price levels (default: 100, max: 5000, valid: 5, 10, 20, 50, 100, 500)"@), Some("limit"@), Some('l'), true, false),
            argm("symbol_type"@, Some("Manual symbol type override (1 - Main, 2 - Next, 3 - Nextme)"@), Some("symbol-type"@), None, true, false),
        ],
        subs: seq![],
    }
}

/// The model of the `market trades` command.
pub open spec fn market_trades_model() -> CmdM {
    CmdM {
        name: "trades"@,
        about: Some("Get recent trades"@),
        args: seq![
            argm("symbol"@, Some("Trading pair symbol"@), None, None, true, true),
            argm("from_id"@, Some("Start from this trade ID"@), Some("from-id"@), None, true, false),
            argm("limit"@, Some("Limit number of trades (default: 500, max: 1000)"@), Some("limit"@), Some('l'), true, false),
            argm("symbol_type"@, Some("Manual symbol type override"@), Some("symbol-type"@), None, true, false),
        ],
        subs: seq![],
    }
}

/// The model of the `market agg-trades` command.
pub open spec fn market_agg_trades_model() -> CmdM {
    CmdM {
        name: "agg-trades"@,
        about: Some("Get compressed/aggregate trades list"@),
        args: seq![
            argm("symbol"@, Some("Trading pair symbol"@), None, None, true, true),
            argm("from_id"@, Some("Trade ID to fetch from"@), Some("from-id"@), None, true, false),
            argm("start_time"@, Some("Start time in milliseconds"@), Some("start-time"@), None, true, false),
            argm("end_time"@, Some("End time in milliseconds"@), Some("end-time"@), None, true, false),
            argm("limit"@, Some("Limit number of trades (default: 500, max: 1000)"@), Some("limit"@), Some('l'), true, false),
            argm("symbol_type"@, Some("Manual symbol type override"@), Some("symbol-type"@), None, true, false),
        ],
        subs: seq![],
    }
}

/// The model of the `market klines` command.
pub open spec fn market_klines_model() -> CmdM {
    CmdM {
        name: "klines"@,
        about: Some("Get kline/candlestick data bars"@),
        args: seq![
            argm("symbol"@, Some("Trading pair symbol"@), None, None, true, true),
            argm("interval"@, Some("Chart interval (1m, 3m, 5m, 15m, 30m, 1h, 2h, 4h, 6h, 8h, 12h, 1d, 3d, 1w, 1M)"@), Some("interval"@), Some('i'), true, false),
            argm("start_time"@, Some("Start time in milliseconds"@), Some("start-time"@), None, true, false),
            argm("end_time"@, Some("End time in milliseconds"@), Some("end-time"@), None, true, false),
            argm("limit"@, Some("Limit number of bars (default: 500, max: 1000)"@), Some("limit"@), Some('l'), true, false),
            argm("symbol_type"@, Some("Manual symbol type override"@), Some("symbol-type"@), None, true, false),
        ],
        subs: seq![],
    }
}

/// The model of the `market` command.
pub open spec fn market_model() -> CmdM {
    CmdM {
        name: "market"@,
        about: Some("Market data (public, no API key needed)"@),
        args: seq![],
        subs: seq![market_ping_model(), market_server_time_model(), market_symbols_model(), market_execution_rules_model(), market_depth_model(), market_trades_model(), market_agg_trades_model(), market_klines_model()],
    }
}

/// The model of the `symbols` command.
pub open spec fn symbols_model() -> CmdM {
    CmdM {
        name: "symbols"@,
        about: Some("Get supported trading symbols and rules"@),
        args: seq![],
        subs: seq![],
    }
}

/// The model of the `account info` command.
pub open spec fn account_info_model() -> CmdM {
    CmdM {
        name: "info"@,
        about: Some("Get current account details (commissions, permissions)"@),
        args: seq![],
        subs: seq![],
    }
}

/// The model of the `account balance` command.
pub open spec fn account_balance_model() -> CmdM {
    CmdM {
        name: "balance"@,
        about: Some("Get non-zero asset balances"@),
        args: seq![],
        subs: seq![],
    }
}

/// The model of the `account assets` command.
pub open spec fn account_assets_model() -> CmdM {
    CmdM {
        name: "assets"@,
        about: Some("Get details of a specific asset"@),
        args: seq![
            argm("asset"@, Some("Asset name (e.g., ADA, BTC, USDT)"@), None, None, true, true),
        ],
        subs: seq![],
    }
}

/// The model of the `account trades` command.
pub open spec fn account_trades_model() -> CmdM {
    CmdM {
        name: "trades"@,
        about: Some("Get your trade history for a symbol"@),
        args: seq![
            argm("symbol"@, Some("Trading pair symbol (e.g., BTC_USDT)"@), None, None, true, true),
            argm("from_id"@, Some("Start from this trade ID"@), Some("from-id"@), None, true, false),
            argm("limit"@, Some("Limit number of trades (default: 500, max: 1000)"@), Some("limit"@), Some('l'), true, false),
        ],
        subs: seq![],
    }
}

/// The model of the `account` command.
pub open spec fn account_model() -> CmdM {
    CmdM {
        name: "account"@,
        about: Some("Account information (requires API key)"@),
        args: seq![],
        subs: seq![account_info_model(), account_balance_model(), account_assets_model(), account_trades_model()],
    }
}

/// The model of the `trade buy` command.
pub open spec fn trade_buy_model() -> CmdM {
    CmdM {
        name: "buy"@,
        about: Some("Place a buy order"@),
        args: seq![
            argm("pair"@, Some("Trading pair symbol (e.g., TKO_BIDR, BTC_USDT)"@), None, None, true, true),
            argm("type"@, Some("Order type (LIMIT, MARKET, STOP_LOSS, STOP_LOSS_LIMIT, TAKE_PROFIT, TAKE_PROFIT_LIMIT, LIMIT_MAKER)"@), Some("type"@), Some('t'), true, false),
            argm("price"@, Some("Order price (required for LIMIT orders)"@), Some("price"@), Some('p'), true, false),
            argm("volume"@, Some("Order quantity (base asset)"@), Some("volume"@), Some('v'), true, false),
            argm("quote_order_qty"@, Some("Spend amount in quote asset (for MARKET buy orders)"@), Some("quote-order-qty"@), None, true, false),
            argm("client_id"@, Some("Client order ID (optional)"@), Some("client-id"@), None, true, false),
            argm("time_in_force"@, Some("Time in force (GTC, IOC, FOK, GTX)"@), Some("time-in-force"@), None, true, false),
            argm("stop_price"@, Some("Stop price (for stop loss / take profit orders)"@), Some("stop-price"@), None, true, false),
            argm("iceberg_qty"@, Some("Iceberg quantity (optional)"@), Some("iceberg-qty"@), None, true, false),
        ],
        subs: seq![],
    }
}

/// The model of the `trade sell` command.
pub open spec fn trade_sell_model() -> CmdM {
    CmdM {
        name: "sell"@,
        about: Some("Place a sell order"@),
        args: seq![
            argm("pair"@, Some("Trading pair symbol (e.g., TKO_BIDR, BTC_USDT)"@), None, None, true, true),
            argm("type"@, Some("Order type"@), Some("type"@), Some('t'), true, false),
            argm("price"@, Some("Order price (required for LIMIT orders)"@), Some("price"@), Some('p'), true, false),
            argm("volume"@, Some("Order quantity (base asset)"@), Some("volume"@), Some('v'), true, false),
            argm("client_id"@, Some("Client order ID (optional)"@), Some("client-id"@), None, true, false),
            argm("time_in_force"@, Some("Time in force (GTC, IOC, FOK, GTX)"@), Some("time-in-force"@), None, true, false),
            argm("stop_price"@, Some("Stop price (for stop loss / take profit orders)"@), Some("stop-price"@), None, true, false),
            argm("iceberg_qty"@, Some("Iceberg quantity (optional)"@), Some("iceberg-qty"@), None, true, false),
        ],
        subs: seq![],
    }
}

/// The model of the `trade cancel` command.
pub open spec fn trade_cancel_model() -> CmdM {
    CmdM {
        name: "cancel"@,
        about: Some("Cancel an active order"@),
        args: seq![
            argm("order_id"@, Some("Order ID to cancel"@), Some("order-id"@), None, true, false),
            argm("client_id"@, Some("Client order ID to cancel"@), Some("client-id"@), None, true, false),
        ],
        subs: seq![],
    }
}

/// The model of the `trade query` command.
pub open spec fn trade_query_model() -> CmdM {
    CmdM {
        name: "query"@,
        about: Some("Query a specific order's status"@),
        args: seq![
            argm("order_id"@, Some("Order ID to query"@), Some("order-id"@), None, true, true),
            argm("client_id"@, Some("Client order ID (optional)"@), Some("client-id"@), None, true, false),
        ],
        subs: seq![],
    }
}

/// The model of the `trade open-orders` command.
pub open spec fn trade_open_orders_model() -> CmdM {
    CmdM {
        name: "open-orders"@,
        about: Some("List current open orders"@),
        args: seq![
            argm("pair"@, Some("Trading pair symbol (e.g., TKO_BIDR)"@), None, None, true, true),
            argm("count"@, Some("Limit number of open orders (default: 500)"@), Some("count"@), Some('c'), true, false),
        ],
        subs: seq![],
    }
}

/// The model of the `trade all-orders` command.
pub open spec fn trade_all_orders_model() -> CmdM {
    CmdM {
        name: "all-orders"@,
        about: Some("List all orders (active, canceled, or filled)"@),
        args: seq![
            argm("pair"@, Some("Trading pair symbol (e.g., TKO_BIDR)"@), None, None, true, true),
            argm("count"@, Some("Limit number of orders (default: 500)"@), Some("count"@), Some('c'), true, false),
            argm("type"@, Some("Filter by order type (-1 = all, 1 = open, 2 = history)"@), Some("type"@), Some('t'), true, false),
            argm("from_id"@, Some("Start from this order ID"@), Some("from-id"@), None, true, false),
        ],
        subs: seq![],
    }
}

/// The model of the `trade oco` command.
pub open spec fn trade_oco_model() -> CmdM {
    CmdM {
        name: "oco"@,
        about: Some("Place a new OCO (One-Cancels-the-Other) order"@),
        args: seq![
            argm("pair"@, Some("Trading pair symbol"@), None, None, true, true),
            argm("side"@, Some("Order side (BUY or SELL)"@), Some("side"@), None, true, true),
            argm("volume"@, Some("Order quantity"@), Some("volume"@), Some('v'), true, true),
            argm("price"@, Some("Limit price"@), Some("price"@), Some('p'), true, true),
            argm("stop_price"@, Some("Stop price"@), Some("stop-price"@), None, true, true),
            argm("stop_limit_price"@, Some("Stop limit price"@), Some("stop-limit-price"@), None, true, true),
            argm("list_client_id"@, Some("Client master order ID (optional)"@), Some("list-client-id"@), None, true, false),
        ],
        subs: seq![],
    }
}

/// The model of the `trade` command.
pub open spec fn trade_model() -> CmdM {
    CmdM {
        name: "trade"@,
        about: Some("Trading operations (requires API key)"@),
        args: seq![],
        subs: seq![trade_buy_model(), trade_sell_model(), trade_cancel_model(), trade_query_model(), trade_open_orders_model(), trade_all_orders_model(), trade_oco_model()],
    }
}

/// The model of the `funding withdraw` command.
pub open spec fn funding_withdraw_model() -> CmdM {
    CmdM {
        name: "withdraw"@,
        about: Some("Withdraw crypto to an external address"@),
        args: seq![
            argm("coin"@, Some("Asset to withdraw (e.g., BTC, USDT, TKO)"@), Some("coin"@), None, true, true),
            argm("amount"@, Some("Amount to withdraw"@), Some("amount"@), None, true, true),
            argm("address"@, Some("Target wallet address"@), Some("address"@), None, true, true),
            argm("tag"@, Some("Address description tag (default: \"Withdrawal Address\")"@), Some("tag"@), None, true, false),
            argm("memo"@, Some("Memo or Tag for coins that require it (e.g. XRP, EOS)"@), Some("memo"@), None, true, false),
            argm("network"@, Some("Network to withdraw on (e.g. BSC, ETH, TRX)"@), Some("network"@), None, true, false),
        ],
        subs: seq![],
    }
}

/// The model of the `funding withdraw-history` command.
pub open spec fn funding_withdraw_history_model() -> CmdM {
    CmdM {
        name: "withdraw-history"@,
        about: Some("List crypto withdraw history"@),
        args: seq![
            argm("coin"@, Some("Filter by coin"@), Some("coin"@), None, true, false),
            argm("status"@, Some("Filter by status (0: Email Sent, 1: Cancelled, 2: Awaiting Approval, 3: Rejected, 4: Processing, 5: Failure, 6: Completed)"@), Some("status"@), None, true, false),
            argm("limit"@, Some("Limit number of records (default: 500)"@), Some("limit"@), Some('l'), true, false),
        ],
        subs: seq![],
    }
}

/// The model of the `funding deposit-history` command.
pub open spec fn funding_deposit_history_model() -> CmdM {
    CmdM {
        name: "deposit-history"@,
        about: Some("List crypto deposit history"@),
        args: seq![
            argm("coin"@, Some("Filter by coin"@), Some("coin"@), None, true, false),
            argm("status"@, Some("Filter by status (0: Pending, 6: Success, 1: Failed)"@), Some("status"@), None, true, false),
            argm("limit"@, Some("Limit number of records (default: 500)"@), Some("limit"@), Some('l'), true, false),
        ],
        subs: seq![],
    }
}

/// The model of the `funding deposit-address` command.
pub open spec fn funding_deposit_address_model() -> CmdM {
    CmdM {
        name: "deposit-address"@,
        about: Some("Get deposit address for a specific coin"@),
        args: seq![
            argm("coin"@, Some("Coin name (e.g., USDT, BTC)"@), None, None, true, true),
            argm("network"@, Some("Network type (e.g. ETH, BSC, TRX)"@), Some("network"@), None, true, false),
        ],
        subs: seq![],
    }
}

/// The model of the `funding` command.
pub open spec fn funding_model() -> CmdM {
    CmdM {
        name: "funding"@,
        about: Some("Funding: withdrawals, deposits, addresses"@),
        args: seq![],
        subs: seq![funding_withdraw_model(), funding_withdraw_history_model(), funding_deposit_history_model(), funding_deposit_address_model()],
    }
}

/// The model of the `ws depth` command.
pub open spec fn ws_depth_model() -> CmdM {
    CmdM {
        name: "depth"@,
        about: Some("Stream order book depth updates"@),
        args: seq![
            argm("symbol"@, Some("Trading pair (e.g., BTC_USDT, TKO_BIDR)"@), None, None, true, true),
            argm("limit"@, Some("Stop after receiving this many data messages"@), Some("limit"@), Some('l'), true, false),
            argm("seconds"@, Some("Stop after this many seconds"@), Some("seconds"@), None, true, false),
            argm("symbol_type"@, Some("Manual symbol type override (1 - Main, 2 - Next, 3 - Nextme)"@), Some("symbol-type"@), None, true, false),
        ],
        subs: seq![],
    }
}

/// The model of the `ws orders` command.
pub open spec fn ws_orders_model() -> CmdM {
    CmdM {
        name: "orders"@,
        about: Some("Stream private order updates (requires API credentials)"@),
        args: seq![
            argm("limit"@, Some("Stop after receiving this many data messages"@), Some("limit"@), Some('l'), true, false),
            argm("seconds"@, Some("Stop after this many seconds"@), Some("seconds"@), None, true, false),
            argm("symbol_type"@, Some("Symbol type for private listenKey stream (1 - Main, 3 - Nextme)"@), Some("symbol-type"@), None, true, false),
        ],
        subs: seq![],
    }
}

/// The model of the `ws balances` command.
pub open spec fn ws_balances_model() -> CmdM {
    CmdM {
        name: "balances"@,
        about: Some("Stream private balance updates (requires API credentials)"@),
        args: seq![
            argm("limit"@, Some("Stop after receiving this many data messages"@), Some("limit"@), Some('l'), true, false),
            argm("seconds"@, Some("Stop after this many seconds"@), Some("seconds"@), None, true, false),
            argm("symbol_type"@, Some("Symbol type for private listenKey stream (1 - Main, 3 - Nextme)"@), Some("symbol-type"@), None, true, false),
        ],
        subs: seq![],
    }
}

/// The model of the `ws` command.
pub open spec fn ws_model() -> CmdM {
    CmdM {
        name: "ws"@,
        about: Some("WebSocket real-time data streams"@),
        args: seq![],
        subs: seq![ws_depth_model(), ws_orders_model(), ws_balances_model()],
    }
}

/// The model of the `paper balance` command.
pub open spec fn paper_balance_model() -> CmdM {
    CmdM {
        name: "balance"@,
        about: Some("Show simulated paper trading balances"@),
        args: seq![],
        subs: seq![],
    }
}

/// The model of the `paper` command.
pub open spec fn paper_model() -> CmdM {
    CmdM {
        name: "paper"@,
        about: Some("Paper trading (simulated)"@),
        args: seq![],
        subs: seq![paper_balance_model()],
    }
}

/// The model of the `auth set` command.
pub open spec fn auth_set_model() -> CmdM {
    CmdM {
        name: "set"@,
        about: Some("Set API credentials"@),
        args: seq![
            argm("api_key"@, None, Some("api-key"@), None, true, true),
            argm("api_secret"@, None, Some("api-secret"@), None, true, true),
        ],
        subs: seq![],
    }
}

/// The model of the `auth show` command.
pub open spec fn auth_show_model() -> CmdM {
    CmdM {
        name: "show"@,
        about: Some("Show configured credentials (masked)"@),
        args: seq![],
        subs: seq![],
    }
}

/// The model of the `auth test` command.
pub open spec fn auth_test_model() -> CmdM {
    CmdM {
        name: "test"@,
        about: Some("Test credentials against the API"@),
        args: seq![],
        subs: seq![],
    }
}

/// The model of the `auth reset` command.
pub open spec fn auth_reset_model() -> CmdM {
    CmdM {
        name: "reset"@,
        about: Some("Delete stored credentials"@),
        args: seq![],
        subs: seq![],
    }
}

/// The model of the `auth` command.
pub open spec fn auth_model() -> CmdM {
    CmdM {
        name: "auth"@,
        about: Some("API credential management"@),
        args: seq![],
        subs: seq![auth_set_model(), auth_show_model(), auth_test_model(), auth_reset_model()],
    }
}

/// The model of the `shell` command.
pub open spec fn shell_model() -> CmdM {
    CmdM {
        name: "shell"@,
        about: Some("Interactive shell (REPL)"@),
        args: seq![],
        subs: seq![],
    }
}

/// The model of the `mcp` command.
pub open spec fn mcp_model() -> CmdM {
    CmdM {
        name: "mcp"@,
        about: Some("Run as an MCP (Model Context Protocol) server"@),
        args: seq![
            argm("allow_dangerous"@, Some("Allow dangerous commands (trade, funding)"@), Some("allow-dangerous"@), None, false, false),
        ],
        subs: seq![],
    }
}

/// The model of the `tokocrypto` command.
pub open spec fn cli_model() -> CmdM {
    CmdM {
        name: "tokocrypto"@,
        about: Some("Unofficial CLI for the Tokocrypto cryptocurrency exchange"@),
        args: seq![
            argm("output"@, Some("Output format: table or json"@), Some("output"@), Some('o'), true, false),
            argm("api_key"@, Some("API key (overrides config and env var)"@), Some("api-key"@), None, true, false),
            argm("api_secret"@, Some("API secret (overrides config and env var)"@), Some("api-secret"@), None, true, false),
            argm("verbose"@, Some("Enable verbose output"@), Some("verbose"@), Some('v'), false, false),
            argm("host"@, Some("Override API host URL"@), Some("host"@), None, true, false),
        ],
        subs: seq![market_model(), symbols_model(), account_model(), trade_model(), funding_model(), ws_model(), paper_model(), auth_model(), shell_model(), mcp_model()],
    }
}

fn market_ping_command() -> (res: CommandSpec)
    ensures
        cmd_view(res) == market_ping_model(),
{
    let args: Vec<ArgSpec> = Vec::new();
    assert(args_view(args@) =~= market_ping_model().args);
    let subs: Vec<CommandSpec> = Vec::new();
    proof {
        lemma_cmds_view(subs@);
    }
    assert(cmds_view(subs@) =~= market_ping_model().subs);
    cmd("ping", "Test connectivity to the REST API", args, subs)
}

fn market_server_time_command() -> (res: CommandSpec)
    ensures
        cmd_view(res) == market_server_time_model(),
{
    let args: Vec<ArgSpec> = Vec::new();
    assert(args_view(args@) =~= market_server_time_model().args);
    let subs: Vec<CommandSpec> = Vec::new();
    proof {
        lemma_cmds_view(subs@);
    }
    assert(cmds_view(subs@) =~= market_server_time_model().subs);
    cmd("server-time", "Get the current server time", args, subs)
}

fn market_symbols_command() -> (res: CommandSpec)
    ensures
        cmd_view(res) == market_symbols_model(),
{
    let args: Vec<ArgSpec> = Vec::new();
    assert(args_view(args@) =~= market_symbols_model().args);
    let subs: Vec<CommandSpec> = Vec::new();
    proof {
        lemma_cmds_view(subs@);
    }
    assert(cmds_view(subs@) =~= market_symbols_model().subs);
    cmd("symbols", "Get supported trading symbols and rules", args, subs)
}

fn market_execution_rules_command() -> (res: CommandSpec)
    ensures
        cmd_view(res) == market_execution_rules_model(),
{
    let mut args: Vec<ArgSpec> = Vec::new();
    args.push(arg("symbol", Some("Query for a single symbol"), Some("symbol"), None, true, false));
    args.push(arg("symbols", Some("Query for multiple symbols (comma separated)"), Some("symbols"), None, true, false));
    args.push(arg("status", Some("Filter by symbol status (TRADING, HALT, BREAK)"), Some("status"), None, true, false));
    assert(args_view(args@) =~= market_execution_rules_model().args);
    let subs: Vec<CommandSpec> = Vec::new();
    proof {
        lemma_cmds_view(subs@);
    }
    assert(cmds_view(subs@) =~= market_execution_rules_model().subs);
    cmd("execution-rules", "Query symbol execution rules (Price Range)", args, subs)
}

fn market_depth_command() -> (res: CommandSpec)
    ensures
        cmd_view(res) == market_depth_model(),
{
    let mut args: Vec<ArgSpec> = Vec::new();
    args.push(arg("symbol", Some("Trading pair symbol (e.g., BTC_USDT or TKO_BIDR)"), None, None, true, true));
    args.push(arg("limit", Some("Limit number of price levels (default: 100, max: 5000, valid: 5, 10, 20, 50, 100, 500)"), Some("limit"), Some('l'), true, false));
    args.push(arg("symbol_type", Some("Manual symbol type override (1 - Main, 2 - Next, 3 - Nextme)"), Some("symbol-type"), None, true, false));
    assert(args_view(args@) =~= market_depth_model().args);
    let subs: Vec<CommandSpec> = Vec::new();
    proof {
        lemma_cmds_view(subs@);
    }
    assert(cmds_view(subs@) =~= market_depth_model().subs);
    cmd("depth", "Get order book depth", args, subs)
}

fn market_trades_command() -> (res: CommandSpec)
    ensures
        cmd_view(res) == market_trades_model(),
{
    let mut args: Vec<ArgSpec> = Vec::new();
    args.push(arg("symbol", Some("Trading pair symbol"), None, None, true, true));
    args.push(arg("from_id", Some("Start from this trade ID"), Some("from-id"), None, true, false));
    args.push(arg("limit", Some("Limit number of trades (default: 500, max: 1000)"), Some("limit"), Some('l'), true, false));
    args.push(arg("symbol_type", Some("Manual symbol type override"), Some("symbol-type"), None, true, false));
    assert(args_view(args@) =~= market_trades_model().args);
    let subs: Vec<CommandSpec> = Vec::new();
    proof {
        lemma_cmds_view(subs@);
    }
    assert(cmds_view(subs@) =~= market_trades_model().subs);
    cmd("trades", "Get recent trades", args, subs)
}

fn market_agg_trades_command() -> (res: CommandSpec)
    ensures
        cmd_view(res) == market_agg_trades_model(),
{
    let mut args: Vec<ArgSpec> = Vec::new();
    args.push(arg("symbol", Some("Trading pair symbol"), None, None, true, true));
    args.push(arg("from_id", Some("Trade ID to fetch from"), Some("from-id"), None, true, false));
    args.push(arg("start_time", Some("Start time in milliseconds"), Some("start-time"), None, true, false));
    args.push(arg("end_time", Some("End time in milliseconds"), Some("end-time"), None, true, false));
    args.push(arg("limit", Some("Limit number of trades (default: 500, max: 1000)"), Some("limit"), Some('l'), true, false));
    args.push(arg("symbol_type", Some("Manual symbol type override"), Some("symbol-type"), None, true, false));
    assert(args_view(args@) =~= market_agg_trades_model().args);
    let subs: Vec<CommandSpec> = Vec::new();
    proof {
        lemma_cmds_view(subs@);
    }
    assert(cmds_view(subs@) =~= market_agg_trades_model().subs);
    cmd("agg-trades", "Get compressed/aggregate trades list", args, subs)
}

fn market_klines_command() -> (res: CommandSpec)
    ensures
        cmd_view(res) == market_klines_model(),
{
    let mut args: Vec<ArgSpec> = Vec::new();
    args.push(arg("symbol", Some("Trading pair symbol"), None, None, true, true));
    args.push(arg("interval", Some("Chart interval (1m, 3m, 5m, 15m, 30m, 1h, 2h, 4h, 6h, 8h, 12h, 1d, 3d, 1w, 1M)"), Some("interval"), Some('i'), true, false));
    args.push(arg("start_time", Some("Start time in milliseconds"), Some("start-time"), None, true, false));
    args.push(arg("end_time", Some("End time in milliseconds"), Some("end-time"), None, true, false));
    args.push(arg("limit", Some("Limit number of bars (default: 500, max: 1000)"), Some("limit"), Some('l'), true, false));
    args.push(arg("symbol_type", Some("Manual symbol type override"), Some("symbol-type"), None, true, false));
    assert(args_view(args@) =~= market_klines_model().args);
    let subs: Vec<CommandSpec> = Vec::new();
    proof {
        lemma_cmds_view(subs@);
    }
    assert(cmds_view(subs@) =~= market_klines_model().subs);
    cmd("klines", "Get kline/candlestick data bars", args, subs)
}

fn market_command() -> (res: CommandSpec)
    ensures
        cmd_view(res) == market_model(),
{
    let args: Vec<ArgSpec> = Vec::new();
    assert(args_view(args@) =~= market_model().args);
    let mut subs: Vec<CommandSpec> = Vec::new();
    subs.push(market_ping_command());
    subs.push(market_server_time_command());
    subs.push(market_symbols_command());
    subs.push(market_execution_rules_command());
    subs.push(market_depth_command());
    subs.push(market_trades_command());
    subs.push(market_agg_trades_command());
    subs.push(market_klines_command());
    proof {
        lemma_cmds_view(subs@);
    }
    assert(cmds_view(subs@) =~= market_model().subs);
    cmd("market", "Market data (public, no API key needed)", args, subs)
}

fn symbols_command() -> (res: CommandSpec)
    ensures
        cmd_view(res) == symbols_model(),
{
    let args: Vec<ArgSpec> = Vec::new();
    assert(args_view(args@) =~= symbols_model().args);
    let subs: Vec<CommandSpec> = Vec::new();
    proof {
        lemma_cmds_view(subs@);
    }
    assert(cmds_view(subs@) =~= symbols_model().subs);
    cmd("symbols", "Get supported trading symbols and rules", args, subs)
}

fn account_info_command() -> (res: CommandSpec)
    ensures
        cmd_view(res) == account_info_model(),
{
    let args: Vec<ArgSpec> = Vec::new();
    assert(args_view(args@) =~= account_info_model().args);
    let subs: Vec<CommandSpec> = Vec::new();
    proof {
        lemma_cmds_view(subs@);
    }
    assert(cmds_view(subs@) =~= account_info_model().subs);
    cmd("info", "Get current account details (commissions, permissions)", args, subs)
}

fn account_balance_command() -> (res: CommandSpec)
    ensures
        cmd_view(res) == account_balance_model(),
{
    let args: Vec<ArgSpec> = Vec::new();
    assert(args_view(args@) =~= account_balance_model().args);
    let subs: Vec<CommandSpec> = Vec::new();
    proof {
        lemma_cmds_view(subs@);
    }
    assert(cmds_view(subs@) =~= account_balance_model().subs);
    cmd("balance", "Get non-zero asset balances", args, subs)
}

fn account_assets_command() -> (res: CommandSpec)
    ensures
        cmd_view(res) == account_assets_model(),
{
    let mut args: Vec<ArgSpec> = Vec::new();
    args.push(arg("asset", Some("Asset name (e.g., ADA, BTC, USDT)"), None, None, true, true));
    assert(args_view(args@) =~= account_assets_model().args);
    let subs: Vec<CommandSpec> = Vec::new();
    proof {
        lemma_cmds_view(subs@);
    }
    assert(cmds_view(subs@) =~= account_assets_model().subs);
    cmd("assets", "Get details of a specific asset", args, subs)
}

fn account_trades_command() -> (res: CommandSpec)
    ensures
        cmd_view(res) == account_trades_model(),
{
    let mut args: Vec<ArgSpec> = Vec::new();
    args.push(arg("symbol", Some("Trading pair symbol (e.g., BTC_USDT)"), None, None, true, true));
    args.push(arg("from_id", Some("Start from this trade ID"), Some("from-id"), None, true, false));
    args.push(arg("limit", Some("Limit number of trades (default: 500, max: 1000)"), Some("limit"), Some('l'), true, false));
    assert(args_view(args@) =~= account_trades_model().args);
    let subs: Vec<CommandSpec> = Vec::new();
    proof {
        lemma_cmds_view(subs@);
    }
    assert(cmds_view(subs@) =~= account_trades_model().subs);
    cmd("trades", "Get your trade history for a symbol", args, subs)
}

fn account_command() -> (res: CommandSpec)
    ensures
        cmd_view(res) == account_model(),
{
    let args: Vec<ArgSpec> = Vec::new();
    assert(args_view(args@) =~= account_model().args);
    let mut subs: Vec<CommandSpec> = Vec::new();
    subs.push(account_info_command());
    subs.push(account_balance_command());
    subs.push(account_assets_command());
    subs.push(account_trades_command());
    proof {
        lemma_cmds_view(subs@);
    }
    assert(cmds_view(subs@) =~= account_model().subs);
    cmd("account", "Account information (requires API key)", args, subs)
}

fn trade_buy_command() -> (res: CommandSpec)
    ensures
        cmd_view(res) == trade_buy_model(),
{
    let mut args: Vec<ArgSpec> = Vec::new();
    args.push(arg("pair", Some("Trading pair symbol (e.g., TKO_BIDR, BTC_USDT)"), None, None, true, true));
    args.push(arg("type", Some("Order type (LIMIT, MARKET, STOP_LOSS, STOP_LOSS_LIMIT, TAKE_PROFIT, TAKE_PROFIT_LIMIT, LIMIT_MAKER)"), Some("type"), Some('t'), true, false));
    args.push(arg("price", Some("Order price (required for LIMIT orders)"), Some("price"), Some('p'), true, false));
    args.push(arg("volume", Some("Order quantity (base asset)"), Some("volume"), Some('v'), true, false));
    args.push(arg("quote_order_qty", Some("Spend amount in quote asset (for MARKET buy orders)"), Some("quote-order-qty"), None, true, false));
    args.push(arg("client_id", Some("Client order ID (optional)"), Some("client-id"), None, true, false));
    args.push(arg("time_in_force", Some("Time in force (GTC, IOC, FOK, GTX)"), Some("time-in-force"), None, true, false));
    args.push(arg("stop_price", Some("Stop price (for stop loss / take profit orders)"), Some("stop-price"), None, true, false));
    args.push(arg("iceberg_qty", Some("Iceberg quantity (optional)"), Some("iceberg-qty"), None, true, false));
    assert(args_view(args@) =~= trade_buy_model().args);
    let subs: Vec<CommandSpec> = Vec::new();
    proof {
        lemma_cmds_view(subs@);
    }
    assert(cmds_view(subs@) =~= trade_buy_model().subs);
    cmd("buy", "Place a buy order", args, subs)
}

fn trade_sell_command() -> (res: CommandSpec)
    ensures
        cmd_view(res) == trade_sell_model(),
{
    let mut args: Vec<ArgSpec> = Vec::new();
    args.push(arg("pair", Some("Trading pair symbol (e.g., TKO_BIDR, BTC_USDT)"), None, None, true, true));
    args.push(arg("type", Some("Order type"), Some("type"), Some('t'), true, false));
    args.push(arg("price", Some("Order price (required for LIMIT orders)"), Some("price"), Some('p'), true, false));
    args.push(arg("volume", Some("Order quantity (base asset)"), Some("volume"), Some('v'), true, false));
    args.push(arg("client_id", Some("Client order ID (optional)"), Some("client-id"), None, true, false));
    args.push(arg("time_in_force", Some("Time in force (GTC, IOC, FOK, GTX)"), Some("time-in-force"), None, true, false));
    args.push(arg("stop_price", Some("Stop price (for stop loss / take profit orders)"), Some("stop-price"), None, true, false));
    args.push(arg("iceberg_qty", Some("Iceberg quantity (optional)"), Some("iceberg-qty"), None, true, false));
    assert(args_view(args@) =~= trade_sell_model().args);
    let subs: Vec<CommandSpec> = Vec::new();
    proof {
        lemma_cmds_view(subs@);
    }
    assert(cmds_view(subs@) =~= trade_sell_model().subs);
    cmd("sell", "Place a sell order", args, subs)
}

fn trade_cancel_command() -> (res: CommandSpec)
    ensures
        cmd_view(res) == trade_cancel_model(),
{
    let mut args: Vec<ArgSpec> = Vec::new();
    args.push(arg("order_id", Some("Order ID to cancel"), Some("order-id"), None, true, false));
    args.push(arg("client_id", Some("Client order ID to cancel"), Some("client-id"), None, true, false));
    assert(args_view(args@) =~= trade_cancel_model().args);
    let subs: Vec<CommandSpec> = Vec::new();
    proof {
        lemma_cmds_view(subs@);
    }
    assert(cmds_view(subs@) =~= trade_cancel_model().subs);
    cmd("cancel", "Cancel an active order", args, subs)
}

fn trade_query_command() -> (res: CommandSpec)
    ensures
        cmd_view(res) == trade_query_model(),
{
    let mut args: Vec<ArgSpec> = Vec::new();
    args.push(arg("order_id", Some("Order ID to query"), Some("order-id"), None, true, true));
    args.push(arg("client_id", Some("Client order ID (optional)"), Some("client-id"), None, true, false));
    assert(args_view(args@) =~= trade_query_model().args);
    let subs: Vec<CommandSpec> = Vec::new();
    proof {
        lemma_cmds_view(subs@);
    }
    assert(cmds_view(subs@) =~= trade_query_model().subs);
    cmd("query", "Query a specific order's status", args, subs)
}

fn trade_open_orders_command() -> (res: CommandSpec)
    ensures
        cmd_view(res) == trade_open_orders_model(),
{
    let mut args: Vec<ArgSpec> = Vec::new();
    args.push(arg("pair", Some("Trading pair symbol (e.g., TKO_BIDR)"), None, None, true, true));
    args.push(arg("count", Some("Limit number of open orders (default: 500)"), Some("count"), Some('c'), true, false));
    assert(args_view(args@) =~= trade_open_orders_model().args);
    let subs: Vec<CommandSpec> = Vec::new();
    proof {
        lemma_cmds_view(subs@);
    }
    assert(cmds_view(subs@) =~= trade_open_orders_model().subs);
    cmd("open-orders", "List current open orders", args, subs)
}

fn trade_all_orders_command() -> (res: CommandSpec)
    ensures
        cmd_view(res) == trade_all_orders_model(),
{
    let mut args: Vec<ArgSpec> = Vec::new();
    args.push(arg("pair", Some("Trading pair symbol (e.g., TKO_BIDR)"), None, None, true, true));
    args.push(arg("count", Some("Limit number of orders (default: 500)"), Some("count"), Some('c'), true, false));
    args.push(arg("type", Some("Filter by order type (-1 = all, 1 = open, 2 = history)"), Some("type"), Some('t'), true, false));
    args.push(arg("from_id", Some("Start from this order ID"), Some("from-id"), None, true, false));
    assert(args_view(args@) =~= trade_all_orders_model().args);
    let subs: Vec<CommandSpec> = Vec::new();
    proof {
        lemma_cmds_view(subs@);
    }
    assert(cmds_view(subs@) =~= trade_all_orders_model().subs);
    cmd("all-orders", "List all orders (active, canceled, or filled)", args, subs)
}

fn trade_oco_command() -> (res: CommandSpec)
    ensures
        cmd_view(res) == trade_oco_model(),
{
    let mut args: Vec<ArgSpec> = Vec::new();
    args.push(arg("pair", Some("Trading pair symbol"), None, None, true, true));
    args.push(arg("side", Some("Order side (BUY or SELL)"), Some("side"), None, true, true));
    args.push(arg("volume", Some("Order quantity"), Some("volume"), Some('v'), true, true));
    args.push(arg("price", Some("Limit price"), Some("price"), Some('p'), true, true));
    args.push(arg("stop_price", Some("Stop price"), Some("stop-price"), None, true, true));
    args.push(arg("stop_limit_price", Some("Stop limit price"), Some("stop-limit-price"), None, true, true));
    args.push(arg("list_client_id", Some("Client master order ID (optional)"), Some("list-client-id"), None, true, false));
    assert(args_view(args@) =~= trade_oco_model().args);
    let subs: Vec<CommandSpec> = Vec::new();
    proof {
        lemma_cmds_view(subs@);
    }
    assert(cmds_view(subs@) =~= trade_oco_model().subs);
    cmd("oco", "Place a new OCO (One-Cancels-the-Other) order", args, subs)
}

fn trade_command() -> (res: CommandSpec)
    ensures
        cmd_view(res) == trade_model(),
{
    let args: Vec<ArgSpec> = Vec::new();
    assert(args_view(args@) =~= trade_model().args);
    let mut subs: Vec<CommandSpec> = Vec::new();
    subs.push(trade_buy_command());
    subs.push(trade_sell_command());
    subs.push(trade_cancel_command());
    subs.push(trade_query_command());
    subs.push(trade_open_orders_command());
    subs.push(trade_all_orders_command());
    subs.push(trade_oco_command());
    proof {
        lemma_cmds_view(subs@);
    }
    assert(cmds_view(subs@) =~= trade_model().subs);
    cmd("trade", "Trading operations (requires API key)", args, subs)
}

fn funding_withdraw_command() -> (res: CommandSpec)
    ensures
        cmd_view(res) == funding_withdraw_model(),
{
    let mut args: Vec<ArgSpec> = Vec::new();
    args.push(arg("coin", Some("Asset to withdraw (e.g., BTC, USDT, TKO)"), Some("coin"), None, true, true));
    args.push(arg("amount", Some("Amount to withdraw"), Some("amount"), None, true, true));
    args.push(arg("address", Some("Target wallet address"), Some("address"), None, true, true));
    args.push(arg("tag", Some("Address description tag (default: \"Withdrawal Address\")"), Some("tag"), None, true, false));
    args.push(arg("memo", Some("Memo or Tag for coins that require it (e.g. XRP, EOS)"), Some("memo"), None, true, false));
    args.push(arg("network", Some("Network to withdraw on (e.g. BSC, ETH, TRX)"), Some("network"), None, true, false));
    assert(args_view(args@) =~= funding_withdraw_model().args);
    let subs: Vec<CommandSpec> = Vec::new();
    proof {
        lemma_cmds_view(subs@);
    }
    assert(cmds_view(subs@) =~= funding_withdraw_model().subs);
    cmd("withdraw", "Withdraw crypto to an external address", args, subs)
}

fn funding_withdraw_history_command() -> (res: CommandSpec)
    ensures
        cmd_view(res) == funding_withdraw_history_model(),
{
    let mut args: Vec<ArgSpec> = Vec::new();
    args.push(arg("coin", Some("Filter by coin"), Some("coin"), None, true, false));
    args.push(arg("status", Some("Filter by status (0: Email Sent, 1: Cancelled, 2: Awaiting Approval, 3: Rejected, 4: Processing, 5: Failure, 6: Completed)"), Some("status"), None, true, false));
    args.push(arg("limit", Some("Limit number of records (default: 500)"), Some("limit"), Some('l'), true, false));
    assert(args_view(args@) =~= funding_withdraw_history_model().args);
    let subs: Vec<CommandSpec> = Vec::new();
    proof {
        lemma_cmds_view(subs@);
    }
    assert(cmds_view(subs@) =~= funding_withdraw_history_model().subs);
    cmd("withdraw-history", "List crypto withdraw history", args, subs)
}

fn funding_deposit_history_command() -> (res: CommandSpec)
    ensures
        cmd_view(res) == funding_deposit_history_model(),
{
    let mut args: Vec<ArgSpec> = Vec::new();
    args.push(arg("coin", Some("Filter by coin"), Some("coin"), None, true, false));
    args.push(arg("status", Some("Filter by status (0: Pending, 6: Success, 1: Failed)"), Some("status"), None, true, false));
    args.push(arg("limit", Some("Limit number of records (default: 500)"), Some("limit"), Some('l'), true, false));
    assert(args_view(args@) =~= funding_deposit_history_model().args);
    let subs: Vec<CommandSpec> = Vec::new();
    proof {
        lemma_cmds_view(subs@);
    }
    assert(cmds_view(subs@) =~= funding_deposit_history_model().subs);
    cmd("deposit-history", "List crypto deposit history", args, subs)
}

fn funding_deposit_address_command() -> (res: CommandSpec)
    ensures
        cmd_view(res) == funding_deposit_address_model(),
{
    let mut args: Vec<ArgSpec> = Vec::new();
    args.push(arg("coin", Some("Coin name (e.g., USDT, BTC)"), None, None, true, true));
    args.push(arg("network", Some("Network type (e.g. ETH, BSC, TRX)"), Some("network"), None, true, false));
    assert(args_view(args@) =~= funding_deposit_address_model().args);
    let subs: Vec<CommandSpec> = Vec::new();
    proof {
        lemma_cmds_view(subs@);
    }
    assert(cmds_view(subs@) =~= funding_deposit_address_model().subs);
    cmd("deposit-address", "Get deposit address for a specific coin", args, subs)
}

fn funding_command() -> (res: CommandSpec)
    ensures
        cmd_view(res) == funding_model(),
{
    let args: Vec<ArgSpec> = Vec::new();
    assert(args_view(args@) =~= funding_model().args);
    let mut subs: Vec<CommandSpec> = Vec::new();
    subs.push(funding_withdraw_command());
    subs.push(funding_withdraw_history_command());
    subs.push(funding_deposit_history_command());
    subs.push(funding_deposit_address_command());
    proof {
        lemma_cmds_view(subs@);
    }
    assert(cmds_view(subs@) =~= funding_model().subs);
    cmd("funding", "Funding: withdrawals, deposits, addresses", args, subs)
}

fn ws_depth_command() -> (res: CommandSpec)
    ensures
        cmd_view(res) == ws_depth_model(),
{
    let mut args: Vec<ArgSpec> = Vec::new();
    args.push(arg("symbol", Some("Trading pair (e.g., BTC_USDT, TKO_BIDR)"), None, None, true, true));
    args.push(arg("limit", Some("Stop after receiving this many data messages"), Some("limit"), Some('l'), true, false));
    args.push(arg("seconds", Some("Stop after this many seconds"), Some("seconds"), None, true, false));
    args.push(arg("symbol_type", Some("Manual symbol type override (1 - Main, 2 - Next, 3 - Nextme)"), Some("symbol-type"), None, true, false));
    assert(args_view(args@) =~= ws_depth_model().args);
    let subs: Vec<CommandSpec> = Vec::new();
    proof {
        lemma_cmds_view(subs@);
    }
    assert(cmds_view(subs@) =~= ws_depth_model().subs);
    cmd("depth", "Stream order book depth updates", args, subs)
}

fn ws_orders_command() -> (res: CommandSpec)
    ensures
        cmd_view(res) == ws_orders_model(),
{
    let mut args: Vec<ArgSpec> = Vec::new();
    args.push(arg("limit", Some("Stop after receiving this many data messages"), Some("limit"), Some('l'), true, false));
    args.push(arg("seconds", Some("Stop after this many seconds"), Some("seconds"), None, true, false));
    args.push(arg("symbol_type", Some("Symbol type for private listenKey stream (1 - Main, 3 - Nextme)"), Some("symbol-type"), None, true, false));
    assert(args_view(args@) =~= ws_orders_model().args);
    let subs: Vec<CommandSpec> = Vec::new();
    proof {
        lemma_cmds_view(subs@);
    }
    assert(cmds_view(subs@) =~= ws_orders_model().subs);
    cmd("orders", "Stream private order updates (requires API credentials)", args, subs)
}

fn ws_balances_command() -> (res: CommandSpec)
    ensures
        cmd_view(res) == ws_balances_model(),
{
    let mut args: Vec<ArgSpec> = Vec::new();
    args.push(arg("limit", Some("Stop after receiving this many data messages"), Some("limit"), Some('l'), true, false));
    args.push(arg("seconds", Some("Stop after this many seconds"), Some("seconds"), None, true, false));
    args.push(arg("symbol_type", Some("Symbol type for private listenKey stream (1 - Main, 3 - Nextme)"), Some("symbol-type"), None, true, false));
    assert(args_view(args@) =~= ws_balances_model().args);
    let subs: Vec<CommandSpec> = Vec::new();
    proof {
        lemma_cmds_view(subs@);
    }
    assert(cmds_view(subs@) =~= ws_balances_model().subs);
    cmd("balances", "Stream private balance updates (requires API credentials)", args, subs)
}

fn ws_command() -> (res: CommandSpec)
    ensures
        cmd_view(res) == ws_model(),
{
    let args: Vec<ArgSpec> = Vec::new();
    assert(args_view(args@) =~= ws_model().args);
    let mut subs: Vec<CommandSpec> = Vec::new();
    subs.push(ws_depth_command());
    subs.push(ws_orders_command());
    subs.push(ws_balances_command());
    proof {
        lemma_cmds_view(subs@);
    }
    assert(cmds_view(subs@) =~= ws_model().subs);
    cmd("ws", "WebSocket real-time data streams", args, subs)
}

fn paper_balance_command() -> (res: CommandSpec)
    ensures
        cmd_view(res) == paper_balance_model(),
{
    let args: Vec<ArgSpec> = Vec::new();
    assert(args_view(args@) =~= paper_balance_model().args);
    let subs: Vec<CommandSpec> = Vec::new();
    proof {
        lemma_cmds_view(subs@);
    }
    assert(cmds_view(subs@) =~= paper_balance_model().subs);
    cmd("balance", "Show simulated paper trading balances", args, subs)
}

fn paper_command() -> (res: CommandSpec)
    ensures
        cmd_view(res) == paper_model(),
{
    let args: Vec<ArgSpec> = Vec::new();
    assert(args_view(args@) =~= paper_model().args);
    let mut subs: Vec<CommandSpec> = Vec::new();
    subs.push(paper_balance_command());
    proof {
        lemma_cmds_view(subs@);
    }
    assert(cmds_view(subs@) =~= paper_model().subs);
    cmd("paper", "Paper trading (simulated)", args, subs)
}

fn auth_set_command() -> (res: CommandSpec)
    ensures
        cmd_view(res) == auth_set_model(),
{
    let mut args: Vec<ArgSpec> = Vec::new();
    args.push(arg("api_key", None, Some("api-key"), None, true, true));
    args.push(arg("api_secret", None, Some("api-secret"), None, true, true));
    assert(args_view(args@) =~= auth_set_model().args);
    let subs: Vec<CommandSpec> = Vec::new();
    proof {
        lemma_cmds_view(subs@);
    }
    assert(cmds_view(subs@) =~= auth_set_model().subs);
    cmd("set", "Set API credentials", args, subs)
}

fn auth_show_command() -> (res: CommandSpec)
    ensures
        cmd_view(res) == auth_show_model(),
{
    let args: Vec<ArgSpec> = Vec::new();
    assert(args_view(args@) =~= auth_show_model().args);
    let subs: Vec<CommandSpec> = Vec::new();
    proof {
        lemma_cmds_view(subs@);
    }
    assert(cmds_view(subs@) =~= auth_show_model().subs);
    cmd("show", "Show configured credentials (masked)", args, subs)
}

fn auth_test_command() -> (res: CommandSpec)
    ensures
        cmd_view(res) == auth_test_model(),
{
    let args: Vec<ArgSpec> = Vec::new();
    assert(args_view(args@) =~= auth_test_model().args);
    let subs: Vec<CommandSpec> = Vec::new();
    proof {
        lemma_cmds_view(subs@);
    }
    assert(cmds_view(subs@) =~= auth_test_model().subs);
    cmd("test", "Test credentials against the API", args, subs)
}

fn auth_reset_command() -> (res: CommandSpec)
    ensures
        cmd_view(res) == auth_reset_model(),
{
    let args: Vec<ArgSpec> = Vec::new();
    assert(args_view(args@) =~= auth_reset_model().args);
    let subs: Vec<CommandSpec> = Vec::new();
    proof {
        lemma_cmds_view(subs@);
    }
    assert(cmds_view(subs@) =~= auth_reset_model().subs);
    cmd("reset", "Delete stored credentials", args, subs)
}

fn auth_command() -> (res: CommandSpec)
    ensures
        cmd_view(res) == auth_model(),
{
    let args: Vec<ArgSpec> = Vec::new();
    assert(args_view(args@) =~= auth_model().args);
    let mut subs: Vec<CommandSpec> = Vec::new();
    subs.push(auth_set_command());
    subs.push(auth_show_command());
    subs.push(auth_test_command());
    subs.push(auth_reset_command());
    proof {
        lemma_cmds_view(subs@);
    }
    assert(cmds_view(subs@) =~= auth_model().subs);
    cmd("auth", "API credential management", args, subs)
}

fn shell_command() -> (res: CommandSpec)
    ensures
        cmd_view(res) == shell_model(),
{
    let args: Vec<ArgSpec> = Vec::new();
    assert(args_view(args@) =~= shell_model().args);
    let subs: Vec<CommandSpec> = Vec::new();
    proof {
        lemma_cmds_view(subs@);
    }
    assert(cmds_view(subs@) =~= shell_model().subs);
    cmd("shell", "Interactive shell (REPL)", args, subs)
}

fn mcp_command() -> (res: CommandSpec)
    ensures
        cmd_view(res) == mcp_model(),
{
    let mut args: Vec<ArgSpec> = Vec::new();
    args.push(arg("allow_dangerous", Some("Allow dangerous commands (trade, funding)"), Some("allow-dangerous"), None, false, false));
    assert(args_view(args@) =~= mcp_model().args);
    let subs: Vec<CommandSpec> = Vec::new();
    proof {
        lemma_cmds_view(subs@);
    }
    assert(cmds_view(subs@) =~= mcp_model().subs);
    cmd("mcp", "Run as an MCP (Model Context Protocol) server", args, subs)
}

/// The command tree of the CLI: the root command `tokocrypto`, its
/// global arguments and every command below it.
pub fn cli_command_spec() -> (res: CommandSpec)
    ensures
        cmd_view(res) == cli_model(),
{
    let mut args: Vec<ArgSpec> = Vec::new();
    args.push(arg("output", Some("Output format: table or json"), Some("output"), Some('o'), true, false));
    args.push(arg("api_key", Some("API key (overrides config and env var)"), Some("api-key"), None, true, false));
    args.push(arg("api_secret", Some("API secret (overrides config and env var)"), Some("api-secret"), None, true, false));
    args.push(arg("verbose", Some("Enable verbose output"), Some("verbose"), Some('v'), false, false));
    args.push(arg("host", Some("Override API host URL"), Some("host"), None, true, false));
    assert(args_view(args@) =~= cli_model().args);
    let mut subs: Vec<CommandSpec> = Vec::new();
    subs.push(market_command());
    subs.push(symbols_command());
    subs.push(account_command());
    subs.push(trade_command());
    subs.push(funding_command());
    subs.push(ws_command());
    subs.push(paper_command());
    subs.push(auth_command());
    subs.push(shell_command());
    subs.push(mcp_command());
    proof {
        lemma_cmds_view(subs@);
    }
    assert(cmds_view(subs@) =~= cli_model().subs);
    cmd("tokocrypto", "Unofficial CLI for the Tokocrypto cryptocurrency exchange", args, subs)
}

} // verus!

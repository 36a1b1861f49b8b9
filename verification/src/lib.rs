//! Verified core of a command-line client for the Tokocrypto exchange:
//! request signing, the requests each command sends, symbol handling, the
//! layout of output, and the decisions of the streaming and tool-serving
//! loops. Network, terminal and file work is left to the caller.

use vstd::prelude::*;

pub mod text;
pub mod json;
pub mod errors;
pub mod auth;
pub mod config;
pub mod api;
pub mod output;
pub mod commands;
pub mod mcp;
pub mod gate;
pub mod laws;
pub mod request_laws;

use crate::commands::account::AccountCommand;
use crate::commands::auth::AuthCommand;
use crate::commands::funding::FundingCommand;
use crate::commands::market::MarketCommand;
use crate::commands::paper::PaperCommand;
use crate::commands::trade::OrderCommand;
use crate::commands::websocket::WebSocketCommand;
use crate::errors::TokocryptoError;
use crate::json::{Json, JsonValue};
use crate::output::{CommandOutput, OutputFormat};
use crate::text::{remove_chars, to_upper, upper, without_chars};
use vstd::string::StringExecFns;

verus! {

/// The separators that may stand between the base and quote asset of a pair.
pub open spec fn pair_separators() -> Seq<char> {
    seq!['_', '-', '/']
}

/// The exchange's form of a trading pair: separators removed, upper case.
pub open spec fn pair_key(pair: Seq<char>) -> Seq<char> {
    upper(without_chars(pair, pair_separators()))
}

/// Normalizes a trading pair to the exchange's form (e.g. `btc_usdt` to `BTCUSDT`).
pub fn normalize_pair(pair: &str) -> (res: String)
    ensures
        res@ == pair_key(pair@),
{
    let seps: [char; 3] = ['_', '-', '/'];
    assert(seps@ =~= pair_separators());
    let stripped = remove_chars(pair, &seps);
    to_upper(stripped.as_str())
}

/// The parts of the global context that commands read: the output format
/// and whether output is verbose. The caller pairs it with its HTTP client.
#[derive(Debug, Clone, Copy, PartialEq, Eq, Structural)]
pub struct AppContext {
    pub format: OutputFormat,
    pub verbose: bool,
}

/// The parsed command line.
#[derive(Debug, PartialEq)]
pub struct Cli {
    /// Output format: table or json
    pub output: OutputFormat,
    /// API key (overrides config and env var)
    pub api_key: Option<String>,
    /// API secret (overrides config and env var)
    pub api_secret: Option<String>,
    /// Enable verbose output
    pub verbose: bool,
    /// Override API host URL
    pub host: Option<String>,
    pub command: Command,
}

/// The command groups of the CLI.
#[derive(Debug, PartialEq)]
pub enum Command {
    /// Market data (public, no API key needed)
    Market(MarketCommand),
    /// Get supported trading symbols and rules
    Symbols,
    /// Account information (requires API key)
    Account(AccountCommand),
    /// Trading operations (requires API key)
    Trade(OrderCommand),
    /// Funding: withdrawals, deposits, addresses
    Funding(FundingCommand),
    /// WebSocket real-time data streams
    Ws(WebSocketCommand),
    /// Paper trading (simulated)
    Paper(PaperCommand),
    /// API credential management
    Auth(AuthCommand),
    /// Interactive shell (REPL)
    Shell,
    /// Run as an MCP (Model Context Protocol) server
    Mcp { allow_dangerous: bool },
}

impl Cli {
    /// The API host: the one given, else the default host.
    pub fn host_or_default(&self) -> (res: String)
        ensures
            res@ == (match self.host {
                Some(h) => h@,
                None => crate::config::DEFAULT_HOST@,
            }),
    {
        match &self.host {
            Some(h) => h.clone(),
            None => String::from_str(crate::config::DEFAULT_HOST),
        }
    }
}

/// The error with which dispatching refuses a command that cannot run
/// there: the shell and the MCP server. Every other command is run.
pub fn non_shell_rejection(command: &Command) -> (res: Option<TokocryptoError>)
    ensures
        match command {
            Command::Shell => (res matches Some(TokocryptoError::Config(m)) && m@
                == "Shell command is not supported in this context"@),
            Command::Mcp { .. } => (res matches Some(TokocryptoError::Config(m)) && m@
                == "MCP server must be started from the main entry point"@),
            _ => res is None,
        },
{
    match command {
        Command::Shell => Some(
            TokocryptoError::Config(
                String::from_str("Shell command is not supported in this context"),
            ),
        ),
        Command::Mcp { .. } => Some(
            TokocryptoError::Config(
                String::from_str("MCP server must be started from the main entry point"),
            ),
        ),
        _ => None,
    }
}

/// The output once the interactive shell has ended: an empty object labelled `Shell`.
pub fn shell_finished_output(format: OutputFormat) -> (res: CommandOutput)
    ensures
        res.data.deep() == Json::Obj(Seq::empty()),
        res.label@ == "Shell"@,
        res.headers@.len() == 0,
        res.rows@.len() == 0,
        res.format == format,
        res.addendum is None,
{
    let data = JsonValue::object(Vec::new());
    assert(data.deep()->Obj_0 =~= Seq::<(Seq<char>, Json)>::empty());
    CommandOutput::new(data, "Shell").with_format(format)
}

/// The context of a command run from the shell: the shell's format, verbose
/// if either the shell or the command line asks for it.
pub fn shell_context(ctx: AppContext, cli_verbose: bool) -> (res: AppContext)
    ensures
        res.format == ctx.format,
        res.verbose == (cli_verbose || ctx.verbose),
{
    AppContext { format: ctx.format, verbose: cli_verbose || ctx.verbose }
}

} // verus!

//! Market data commands (public endpoints).

use vstd::prelude::*;
use vstd::string::StringExecFns;

use crate::api::{
    Access, ApiRequest, Method, RequestM, opt_dec, opt_i64_text, opt_param, params_view,
    push_opt_param, push_param, request_m,
};
use crate::config::{CLOUDME_HOST, DEFAULT_SITE_HOST};
use crate::json::{Json, JsonValue, values_deep};
use crate::output::table::opt_str;
use crate::output::{CommandOutput, OutputFormat};
use crate::text::{dec_nat, dec_u64, to_upper, u64_to_string, upper};
use crate::{normalize_pair, pair_key};

verus! {

/// Market data (public, no API key needed).
#[derive(Debug, PartialEq)]
#[allow(inconsistent_fields)]
pub enum MarketCommand {
    /// Test connectivity to the REST API
    Ping,
    /// Get the current server time
    ServerTime,
    /// Get supported trading symbols and rules
    Symbols,
    /// Query symbol execution rules (Price Range)
    ExecutionRules { symbol: Option<String>, symbols: Option<String>, status: Option<String> },
    /// Get order book depth
    Depth { symbol: String, limit: u32, symbol_type: Option<u32> },
    /// Get recent trades
    Trades { symbol: String, from_id: Option<i64>, limit: u32, symbol_type: Option<u32> },
    /// Get compressed/aggregate trades list
    AggTrades {
        symbol: String,
        from_id: Option<i64>,
        start_time: Option<i64>,
        end_time: Option<i64>,
        limit: u32,
        symbol_type: Option<u32>,
    },
    /// Get kline/candlestick data bars
    Klines {
        symbol: String,
        interval: String,
        start_time: Option<i64>,
        end_time: Option<i64>,
        limit: u32,
        symbol_type: Option<u32>,
    },
}

/// The symbol type a command uses: the one given, else the detected one.
pub open spec fn type_used(given: Option<u32>, detected: u32) -> u32 {
    match given {
        Some(t) => t,
        None => detected,
    }
}

/// The endpoint of a market query: the v3 path on the site host for main
/// symbols (type 1), else the given fallback.
pub open spec fn by_type(t: u32, main: Seq<char>, other: Seq<char>) -> Seq<char> {
    if t == 1 {
        main
    } else {
        other
    }
}

/// The pattern the server time is shown in.
pub const UTC_TIME_PATTERN: &'static str = "%Y-%m-%d %H:%M:%S UTC";

/// Whether a `strftime` pattern uses only the specifiers for year, month,
/// day, hour, minute and second (`%Y %m %d %H %M %S`), all other characters
/// being literal text. chrono formats such a pattern for any instant.
pub open spec fn plain_pattern(p: Seq<char>) -> bool
    decreases p.len(),
{
    if p.len() == 0 {
        true
    } else if p[0] == '%' {
        p.len() >= 2 && (p[1] == 'Y' || p[1] == 'm' || p[1] == 'd' || p[1] == 'H' || p[1] == 'M'
            || p[1] == 'S') && plain_pattern(p.subrange(2, p.len() as int))
    } else {
        plain_pattern(p.subrange(1, p.len() as int))
    }
}

/// What `DateTime::<Utc>::from_timestamp_millis` and then formatting the
/// instant with a `strftime` pattern give for a millisecond timestamp; none
/// where the timestamp is out of range.
pub uninterp spec fn utc_datetime_text(millis: i64, pattern: Seq<char>) -> Option<Seq<char>>;

/// Calls `chrono::DateTime::from_timestamp_millis`, then formats the instant
/// with the pattern; claims that the result is what chrono gives for the
/// timestamp and pattern. The pattern holds only specifiers that chrono
/// formats for every instant, so the formatting does not fail.
#[verifier::external_body]
fn format_utc_millis(millis: i64, pattern: &str) -> (res: Option<String>)
    requires
        plain_pattern(pattern@),
    ensures
        opt_str(res) == utc_datetime_text(millis, pattern@),
{
    match chrono::DateTime::from_timestamp_millis(millis) {
        Some(d) => Some(d.format(pattern).to_string()),
        None => None,
    }
}

proof fn lemma_plain_literal(p: Seq<char>, k: int)
    requires
        0 <= k < p.len(),
        p[k] != '%',
        plain_pattern(p.subrange(k + 1, p.len() as int)),
    ensures
        plain_pattern(p.subrange(k, p.len() as int)),
{
    let q = p.subrange(k, p.len() as int);
    assert(q.subrange(1, q.len() as int) =~= p.subrange(k + 1, p.len() as int));
}

proof fn lemma_plain_specifier(p: Seq<char>, k: int)
    requires
        0 <= k,
        k + 1 < p.len(),
        p[k] == '%',
        p[k + 1] == 'Y' || p[k + 1] == 'm' || p[k + 1] == 'd' || p[k + 1] == 'H' || p[k + 1] == 'M'
            || p[k + 1] == 'S',
        plain_pattern(p.subrange(k + 2, p.len() as int)),
    ensures
        plain_pattern(p.subrange(k, p.len() as int)),
{
    let q = p.subrange(k, p.len() as int);
    assert(q.subrange(2, q.len() as int) =~= p.subrange(k + 2, p.len() as int));
}

/// The server-time pattern is plain.
proof fn lemma_utc_time_pattern_plain()
    ensures
        plain_pattern(UTC_TIME_PATTERN@),
{
    reveal_strlit("%Y-%m-%d %H:%M:%S UTC");
    let p = UTC_TIME_PATTERN@;
    assert(p.subrange(21, 21).len() == 0);
    lemma_plain_literal(p, 20);
    lemma_plain_literal(p, 19);
    lemma_plain_literal(p, 18);
    lemma_plain_literal(p, 17);
    lemma_plain_specifier(p, 15);
    lemma_plain_literal(p, 14);
    lemma_plain_specifier(p, 12);
    lemma_plain_literal(p, 11);
    lemma_plain_specifier(p, 9);
    lemma_plain_literal(p, 8);
    lemma_plain_specifier(p, 6);
    lemma_plain_literal(p, 5);
    lemma_plain_specifier(p, 3);
    lemma_plain_literal(p, 2);
    lemma_plain_specifier(p, 0);
    assert(p.subrange(0, p.len() as int) =~= p);
}

/// The server's timestamp in a time response: `timestamp`, else `data`, else 0.
pub open spec fn server_timestamp(result: Json) -> u64 {
    match result.at("timestamp"@).as_u64() {
        Some(t) => t,
        None => match result.at("data"@).as_u64() {
            Some(t) => t,
            None => 0,
        },
    }
}

/// The note shown with the server time: the formatted time (or the raw
/// number where it cannot be formatted), then the raw number in brackets.
pub open spec fn server_time_note(ts: u64, formatted: Option<Seq<char>>) -> Seq<char> {
    let shown = match formatted {
        Some(d) => d,
        None => dec_u64(ts),
    };
    shown + " ("@ + dec_u64(ts) + ")"@
}

/// The note shown with the server time, given the formatted time.
pub fn server_time_addendum(ts: u64, formatted: Option<String>) -> (res: String)
    ensures
        res@ == server_time_note(ts, opt_str(formatted)),
{
    let raw = u64_to_string(ts);
    let mut s = match formatted {
        Some(d) => d,
        None => raw.clone(),
    };
    s.append(" (");
    s.append(raw.as_str());
    s.append(")");
    s
}

/// The symbol type of `symbol` in a symbol listing: the `type` of the first
/// entry whose symbol matches it (3 where that entry has no numeric type),
/// else 3.
pub open spec fn type_in_list(list: Seq<Json>, sym_upper: Seq<char>, clean_upper: Seq<char>) -> u32
    decreases list.len(),
{
    if list.len() == 0 {
        3
    } else {
        let s = list[0].at("symbol"@).as_str();
        if s is Some && (upper(s->0) == sym_upper || pair_key(s->0) == clean_upper) {
            match list[0].at("type"@).as_u64() {
                Some(t) => #[verifier::truncate] (t as u32),
                None => 3,
            }
        } else {
            type_in_list(list.drop_first(), sym_upper, clean_upper)
        }
    }
}

/// The symbol type of `symbol` according to a `/open/v1/common/symbols` response.
pub open spec fn detected_type(listing: Json, symbol: Seq<char>) -> u32 {
    match listing.at("data"@).at("list"@).as_array() {
        Some(list) => type_in_list(list, upper(symbol), pair_key(symbol)),
        None => 3,
    }
}

/// Detects the symbol type (1 - Main, 2 - Next, 3 - Nextme) of `symbol` from
/// the symbol listing; 3 where the listing does not name it. A listing that
/// could not be fetched is passed as `Null`.
pub fn detect_symbol_type(listing: &JsonValue, symbol: &str) -> (res: u32)
    ensures
        res == detected_type(listing.deep(), symbol@),
{
    let sym_upper = to_upper(symbol);
    let clean_upper = normalize_pair(symbol);
    let list = match listing.get("data") {
        Some(d) => match d.get("list") {
            Some(l) => l.as_array(),
            None => None,
        },
        None => None,
    };
    match list {
        Some(list) => {
            let ghost all = values_deep(list@);
            let mut i: usize = 0;
            assert(all.skip(0) =~= all);
            assert(detected_type(listing.deep(), symbol@) == type_in_list(all, sym_upper@, clean_upper@));
            while i < list.len()
                invariant
                    0 <= i <= list@.len(),
                    detected_type(listing.deep(), symbol@) == type_in_list(all, sym_upper@, clean_upper@),
                    all == values_deep(list@),
                    sym_upper@ == upper(symbol@),
                    clean_upper@ == pair_key(symbol@),
                    type_in_list(all, sym_upper@, clean_upper@) == type_in_list(
                        all.skip(i as int),
                        sym_upper@,
                        clean_upper@,
                    ),
                decreases list@.len() - i,
            {
                assert(all.skip(i as int).drop_first() =~= all.skip(i + 1));
                let item = &list[i];
                assert(all.skip(i as int)[0] == item.deep());
                match item.get("symbol") {
                    Some(sv) => match sv.as_str() {
                        Some(s) => {
                            let su = to_upper(s.as_str());
                            let sk = normalize_pair(s.as_str());
                            if su == sym_upper || sk == clean_upper {
                                return match item.get("type") {
                                    Some(tv) => match tv.as_u64() {
                                        Some(t) => #[verifier::truncate] (t as u32),
                                        None => 3,
                                    },
                                    None => 3,
                                };
                            }
                        },
                        None => {},
                    },
                    None => {},
                }
                i = i + 1;
            }
            3
        },
        None => 3,
    }
}

/// A label naming what an output is about: a title, a dash, then the subject.
pub open spec fn dash_label(title: Seq<char>, subject: Seq<char>) -> Seq<char> {
    title + " — "@ + subject
}

/// The label of an output about one symbol, shown in upper case.
pub open spec fn symbol_label(title: Seq<char>, symbol: Seq<char>) -> Seq<char> {
    dash_label(title, upper(symbol))
}

/// A title, a dash, then the subject.
pub fn dashed(title: &str, subject: &str) -> (res: String)
    ensures
        res@ == dash_label(title@, subject@),
{
    let mut s = String::from_str(title);
    s.append(" — ");
    s.append(subject);
    s
}

fn labelled(title: &str, symbol: &str) -> (res: String)
    ensures
        res@ == symbol_label(title@, symbol@),
{
    dashed(title, to_upper(symbol).as_str())
}

impl MarketCommand {
    /// The symbol whose type must be looked up before the request is built:
    /// one given without a symbol type.
    pub open spec fn lookup_of(&self) -> Option<Seq<char>> {
        match self {
            MarketCommand::Depth { symbol, symbol_type, .. }
            | MarketCommand::Trades { symbol, symbol_type, .. }
            | MarketCommand::AggTrades { symbol, symbol_type, .. }
            | MarketCommand::Klines { symbol, symbol_type, .. } => if symbol_type is None {
                Some(symbol@)
            } else {
                None
            },
            _ => None,
        }
    }

    /// The request the command sends, given the detected symbol type (used
    /// only where no symbol type was given).
    pub open spec fn request_of(&self, detected: u32) -> RequestM {
        match self {
            MarketCommand::Ping | MarketCommand::ServerTime => request_m(
                Method::Get,
                Access::Public,
                "/open/v1/common/time"@,
                Seq::empty(),
            ),
            MarketCommand::Symbols => request_m(
                Method::Get,
                Access::Public,
                "/open/v1/common/symbols"@,
                Seq::empty(),
            ),
            MarketCommand::ExecutionRules { symbol, symbols, status } => {
                let params = if symbol is Some {
                    seq![("symbol"@, pair_key(symbol->0@))]
                } else if symbols is Some {
                    seq![("symbols"@, pair_key(symbols->0@))]
                } else if status is Some {
                    seq![("symbolStatus"@, upper(status->0@))]
                } else {
                    Seq::empty()
                };
                request_m(
                    Method::Get,
                    Access::Public,
                    DEFAULT_SITE_HOST@ + "/api/v3/executionRules"@,
                    params,
                )
            },
            MarketCommand::Depth { symbol, limit, symbol_type } => request_m(
                Method::Get,
                Access::Public,
                by_type(
                    type_used(*symbol_type, detected),
                    DEFAULT_SITE_HOST@ + "/api/v3/depth"@,
                    CLOUDME_HOST@ + "/api/v1/depth"@,
                ),
                seq![("symbol"@, pair_key(symbol@)), ("limit"@, dec_nat(*limit as nat))],
            ),
            MarketCommand::Trades { symbol, from_id, limit, symbol_type } => request_m(
                Method::Get,
                Access::Public,
                by_type(
                    type_used(*symbol_type, detected),
                    DEFAULT_SITE_HOST@ + "/api/v3/trades"@,
                    "/open/v1/market/trades"@,
                ),
                seq![("limit"@, dec_nat(*limit as nat)), ("symbol"@, pair_key(symbol@))]
                    + opt_param("fromId"@, opt_dec(*from_id)),
            ),
            MarketCommand::AggTrades { symbol, from_id, start_time, end_time, limit, symbol_type } =>
            request_m(
                Method::Get,
                Access::Public,
                by_type(
                    type_used(*symbol_type, detected),
                    DEFAULT_SITE_HOST@ + "/api/v3/aggTrades"@,
                    CLOUDME_HOST@ + "/api/v1/aggTrades"@,
                ),
                seq![("limit"@, dec_nat(*limit as nat))] + opt_param("fromId"@, opt_dec(*from_id))
                    + opt_param("startTime"@, opt_dec(*start_time)) + opt_param(
                    "endTime"@,
                    opt_dec(*end_time),
                ) + seq![("symbol"@, pair_key(symbol@))],
            ),
            MarketCommand::Klines { symbol, interval, start_time, end_time, limit, symbol_type } =>
            request_m(
                Method::Get,
                Access::Public,
                by_type(
                    type_used(*symbol_type, detected),
                    DEFAULT_SITE_HOST@ + "/api/v3/klines"@,
                    CLOUDME_HOST@ + "/api/v1/klines"@,
                ),
                seq![("interval"@, interval@), ("limit"@, dec_nat(*limit as nat))] + opt_param(
                    "startTime"@,
                    opt_dec(*start_time),
                ) + opt_param("endTime"@, opt_dec(*end_time)) + seq![
                    ("symbol"@, pair_key(symbol@)),
                ],
            ),
        }
    }

    /// The label of the command's output.
    pub open spec fn label_of(&self) -> Seq<char> {
        match self {
            MarketCommand::Ping => "Ping"@,
            MarketCommand::ServerTime => "Server Time"@,
            MarketCommand::Symbols => "Supported Trading Symbols"@,
            MarketCommand::ExecutionRules { .. } => "Execution Rules (Price Range)"@,
            MarketCommand::Depth { symbol, .. } => symbol_label("Order Book Depth"@, symbol@),
            MarketCommand::Trades { symbol, .. } => symbol_label("Recent Trades"@, symbol@),
            MarketCommand::AggTrades { symbol, .. } => symbol_label("Aggregate Trades"@, symbol@),
            MarketCommand::Klines { symbol, .. } => symbol_label("Klines"@, symbol@),
        }
    }

    /// The addendum of the command's output for a response.
    pub open spec fn addendum_of(&self, result: Json) -> Option<Seq<char>> {
        match self {
            MarketCommand::Ping => Some("Tokocrypto API is reachable"@),
            MarketCommand::ServerTime => {
                let ts = server_timestamp(result);
                Some(server_time_note(ts, utc_datetime_text(ts as i64, UTC_TIME_PATTERN@)))
            },
            _ => None,
        }
    }

    /// The symbol whose type must be looked up before the request is built.
    pub fn symbol_to_detect(&self) -> (res: Option<&String>)
        ensures
            opt_str(
                match res {
                    Some(s) => Some(*s),
                    None => None,
                },
            ) == self.lookup_of(),
    {
        match self {
            MarketCommand::Depth { symbol, symbol_type, .. }
            | MarketCommand::Trades { symbol, symbol_type, .. }
            | MarketCommand::AggTrades { symbol, symbol_type, .. }
            | MarketCommand::Klines { symbol, symbol_type, .. } => if symbol_type.is_none() {
                Some(symbol)
            } else {
                None
            },
            _ => None,
        }
    }

    /// The request the command sends, given the detected symbol type.
    pub fn request(&self, detected: u32) -> (res: ApiRequest)
        ensures
            res.view_request() == self.request_of(detected),
    {
        let mut params: Vec<(String, String)> = Vec::new();
        match self {
            MarketCommand::Ping | MarketCommand::ServerTime => {
                let res = ApiRequest::new(Method::Get, Access::Public, "/open/v1/common/time", params);
                assert(res.view_request().params =~= Seq::<(Seq<char>, Seq<char>)>::empty());
                res
            },
            MarketCommand::Symbols => {
                let res = ApiRequest::new(Method::Get, Access::Public, "/open/v1/common/symbols", params);
                assert(res.view_request().params =~= Seq::<(Seq<char>, Seq<char>)>::empty());
                res
            },
            MarketCommand::ExecutionRules { symbol, symbols, status } => {
                match symbol {
                    Some(s) => push_param(&mut params, "symbol", normalize_pair(s.as_str()).as_str()),
                    None => match symbols {
                        Some(ss) => push_param(
                            &mut params,
                            "symbols",
                            normalize_pair(ss.as_str()).as_str(),
                        ),
                        None => match status {
                            Some(st) => push_param(
                                &mut params,
                                "symbolStatus",
                                to_upper(st.as_str()).as_str(),
                            ),
                            None => {},
                        },
                    },
                }
                let mut endpoint = String::from_str(DEFAULT_SITE_HOST);
                endpoint.append("/api/v3/executionRules");
                let res = ApiRequest::new(Method::Get, Access::Public, endpoint.as_str(), params);
                assert(res.view_request().params =~= self.request_of(detected).params);
                res
            },
            MarketCommand::Depth { symbol, limit, symbol_type } => {
                let t = match symbol_type {
                    Some(t) => *t,
                    None => detected,
                };
                let mut endpoint = if t == 1 {
                    String::from_str(DEFAULT_SITE_HOST)
                } else {
                    String::from_str(CLOUDME_HOST)
                };
                endpoint.append(if t == 1 { "/api/v3/depth" } else { "/api/v1/depth" });
                push_param(&mut params, "symbol", normalize_pair(symbol.as_str()).as_str());
                push_param(&mut params, "limit", u64_to_string(*limit as u64).as_str());
                let res = ApiRequest::new(Method::Get, Access::Public, endpoint.as_str(), params);
                assert(res.view_request().params =~= self.request_of(detected).params);
                res
            },
            MarketCommand::Trades { symbol, from_id, limit, symbol_type } => {
                let t = match symbol_type {
                    Some(t) => *t,
                    None => detected,
                };
                let endpoint = if t == 1 {
                    let mut e = String::from_str(DEFAULT_SITE_HOST);
                    e.append("/api/v3/trades");
                    e
                } else {
                    String::from_str("/open/v1/market/trades")
                };
                push_param(&mut params, "limit", u64_to_string(*limit as u64).as_str());
                push_param(&mut params, "symbol", normalize_pair(symbol.as_str()).as_str());
                push_opt_param(&mut params, "fromId", &opt_i64_text(*from_id));
                let res = ApiRequest::new(Method::Get, Access::Public, endpoint.as_str(), params);
                assert(res.view_request().params =~= self.request_of(detected).params);
                res
            },
            MarketCommand::AggTrades { symbol, from_id, start_time, end_time, limit, symbol_type } => {
                let t = match symbol_type {
                    Some(t) => *t,
                    None => detected,
                };
                let mut endpoint = if t == 1 {
                    String::from_str(DEFAULT_SITE_HOST)
                } else {
                    String::from_str(CLOUDME_HOST)
                };
                endpoint.append(if t == 1 { "/api/v3/aggTrades" } else { "/api/v1/aggTrades" });
                push_param(&mut params, "limit", u64_to_string(*limit as u64).as_str());
                push_opt_param(&mut params, "fromId", &opt_i64_text(*from_id));
                push_opt_param(&mut params, "startTime", &opt_i64_text(*start_time));
                push_opt_param(&mut params, "endTime", &opt_i64_text(*end_time));
                push_param(&mut params, "symbol", normalize_pair(symbol.as_str()).as_str());
                let res = ApiRequest::new(Method::Get, Access::Public, endpoint.as_str(), params);
                assert(res.view_request().params =~= self.request_of(detected).params);
                res
            },
            MarketCommand::Klines { symbol, interval, start_time, end_time, limit, symbol_type } => {
                let t = match symbol_type {
                    Some(t) => *t,
                    None => detected,
                };
                let mut endpoint = if t == 1 {
                    String::from_str(DEFAULT_SITE_HOST)
                } else {
                    String::from_str(CLOUDME_HOST)
                };
                endpoint.append(if t == 1 { "/api/v3/klines" } else { "/api/v1/klines" });
                push_param(&mut params, "interval", interval.as_str());
                push_param(&mut params, "limit", u64_to_string(*limit as u64).as_str());
                push_opt_param(&mut params, "startTime", &opt_i64_text(*start_time));
                push_opt_param(&mut params, "endTime", &opt_i64_text(*end_time));
                push_param(&mut params, "symbol", normalize_pair(symbol.as_str()).as_str());
                let res = ApiRequest::new(Method::Get, Access::Public, endpoint.as_str(), params);
                assert(res.view_request().params =~= self.request_of(detected).params);
                res
            },
        }
    }

    /// The output the command makes of a response.
    pub fn output(&self, result: JsonValue, format: OutputFormat) -> (res: CommandOutput)
        ensures
            res.data == result,
            res.label@ == self.label_of(),
            res.headers@.len() == 0,
            res.rows@.len() == 0,
            res.format == format,
            opt_str(res.addendum) == self.addendum_of(result.deep()),
    {
        let ghost data = result.deep();
        let out = match self {
            MarketCommand::Ping => CommandOutput::new(result, "Ping").with_addendum(
                "Tokocrypto API is reachable",
            ),
            MarketCommand::ServerTime => {
                let ts = match result.get("timestamp") {
                    Some(v) => v.as_u64(),
                    None => None,
                };
                let ts = match ts {
                    Some(t) => t,
                    None => match result.get("data") {
                        Some(v) => match v.as_u64() {
                            Some(t) => t,
                            None => 0,
                        },
                        None => 0,
                    },
                };
                proof {
                    lemma_utc_time_pattern_plain();
                }
                let note = server_time_addendum(ts, format_utc_millis(ts as i64, UTC_TIME_PATTERN));
                CommandOutput::new(result, "Server Time").with_addendum(note.as_str())
            },
            MarketCommand::Symbols => CommandOutput::new(result, "Supported Trading Symbols"),
            MarketCommand::ExecutionRules { .. } => CommandOutput::new(
                result,
                "Execution Rules (Price Range)",
            ),
            MarketCommand::Depth { symbol, .. } => CommandOutput::new(
                result,
                labelled("Order Book Depth", symbol.as_str()).as_str(),
            ),
            MarketCommand::Trades { symbol, .. } => CommandOutput::new(
                result,
                labelled("Recent Trades", symbol.as_str()).as_str(),
            ),
            MarketCommand::AggTrades { symbol, .. } => CommandOutput::new(
                result,
                labelled("Aggregate Trades", symbol.as_str()).as_str(),
            ),
            MarketCommand::Klines { symbol, .. } => CommandOutput::new(
                result,
                labelled("Klines", symbol.as_str()).as_str(),
            ),
        };
        out.with_format(format)
    }
}

} // verus!

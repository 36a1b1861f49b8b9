//! WebSocket real-time data streams: the stream URLs, the listen token, and
//! the decisions of the receive loop. Connecting and receiving is left to
//! the caller, which hands each message to a step function.

use vstd::prelude::*;
use vstd::string::StringExecFns;

use crate::api::{Access, ApiRequest, Method, RequestM, params_view, push_param, request_m};
use crate::errors::TokocryptoError;
use crate::json::{Json, JsonValue};
use crate::output::table::opt_str;
use crate::output::{CommandOutput, OutputFormat};
use crate::text::{contains_seq, contains_str, lower, remove_chars, str_equal, to_lower, without_chars};

verus! {

/// WebSocket real-time data streams.
#[derive(Debug, PartialEq)]
#[allow(inconsistent_fields)]
pub enum WebSocketCommand {
    /// Stream order book depth updates
    Depth { symbol: String, limit: Option<usize>, seconds: Option<u64>, symbol_type: Option<u32> },
    /// Stream private order updates (requires API credentials)
    Orders { limit: Option<usize>, seconds: Option<u64>, symbol_type: u32 },
    /// Stream private balance updates (requires API credentials)
    Balances { limit: Option<usize>, seconds: Option<u64>, symbol_type: u32 },
}

/// When a stream stops: after a number of data messages, after a number of seconds.
#[derive(Debug, Clone, Copy, PartialEq, Eq, Structural)]
pub struct StreamBounds {
    pub limit: Option<usize>,
    pub seconds: Option<u64>,
}

impl StreamBounds {
    pub fn new(limit: Option<usize>, seconds: Option<u64>) -> (res: Self)
        ensures
            res.limit == limit,
            res.seconds == seconds,
    {
        StreamBounds { limit, seconds }
    }

    /// The instant (in milliseconds on the caller's clock) at which the stream
    /// stops, counted from `now_ms`; none without a time bound.
    pub fn deadline(self, now_ms: u64) -> (res: Option<u64>)
        requires
            self.seconds matches Some(s) ==> now_ms + s * 1000 <= u64::MAX,
        ensures
            res == (match self.seconds {
                Some(s) => Some((now_ms + s * 1000) as u64),
                None => None,
            }),
    {
        match self.seconds {
            Some(s) => Some(now_ms + s * 1000),
            None => None,
        }
    }

    /// Whether `count` data messages reach the message bound.
    pub fn limit_reached(self, count: usize) -> (res: bool)
        ensures
            res == (match self.limit {
                Some(l) => count >= l,
                None => false,
            }),
    {
        match self.limit {
            Some(l) => count >= l,
            None => false,
        }
    }
}

impl WebSocketCommand {
    /// The bounds the stream runs under.
    pub fn bounds(&self) -> (res: StreamBounds)
        ensures
            res == (match self {
                WebSocketCommand::Depth { limit, seconds, .. }
                | WebSocketCommand::Orders { limit, seconds, .. }
                | WebSocketCommand::Balances { limit, seconds, .. } => StreamBounds {
                    limit: *limit,
                    seconds: *seconds,
                },
            }),
    {
        match self {
            WebSocketCommand::Depth { limit, seconds, .. }
            | WebSocketCommand::Orders { limit, seconds, .. }
            | WebSocketCommand::Balances { limit, seconds, .. } => StreamBounds::new(*limit, *seconds),
        }
    }

    /// The channel of a private stream: `orders` or `balances`; none for depth.
    pub open spec fn channel_of(&self) -> Option<Seq<char>> {
        match self {
            WebSocketCommand::Depth { .. } => None,
            WebSocketCommand::Orders { .. } => Some("orders"@),
            WebSocketCommand::Balances { .. } => Some("balances"@),
        }
    }

    /// The channel of a private stream: `orders` or `balances`; none for depth.
    pub fn channel(&self) -> (res: Option<String>)
        ensures
            opt_str(res) == self.channel_of(),
    {
        match self {
            WebSocketCommand::Depth { .. } => None,
            WebSocketCommand::Orders { .. } => Some(String::from_str("orders")),
            WebSocketCommand::Balances { .. } => Some(String::from_str("balances")),
        }
    }

    /// The output once the stream has ended: nothing more to show.
    pub fn finished_output(format: OutputFormat) -> (res: CommandOutput)
        ensures
            res.is_blank(),
            res.format == format,
    {
        proof {
            reveal_strlit("");
        }
        CommandOutput::new(JsonValue::Null, "").with_format(format)
    }
}

/// The URL of the depth stream of a symbol, by symbol type: main symbols
/// (1) lower case without underscores on the cloud stream host, Next
/// symbols (2) lower case as given on the main host, others lower case
/// without underscores on the Nextme stream host.
pub open spec fn depth_url(symbol: Seq<char>, sym_type: u32) -> Seq<char> {
    if sym_type == 1 {
        "wss://stream-cloud.tokocrypto.site/ws/"@ + lower(without_chars(symbol, seq!['_']))
            + "@depth"@
    } else if sym_type == 2 {
        "wss://www.tokocrypto.com/ws/"@ + lower(symbol) + "@depth"@
    } else {
        "wss://stream-toko.2meta.app/ws/"@ + lower(without_chars(symbol, seq!['_'])) + "@depth"@
    }
}

/// The URL of the depth stream of a symbol.
pub fn depth_stream_url(symbol: &str, sym_type: u32) -> (res: String)
    ensures
        res@ == depth_url(symbol@, sym_type),
{
    let underscore: [char; 1] = ['_'];
    assert(underscore@ =~= seq!['_']);
    let mut url = if sym_type == 1 {
        String::from_str("wss://stream-cloud.tokocrypto.site/ws/")
    } else if sym_type == 2 {
        String::from_str("wss://www.tokocrypto.com/ws/")
    } else {
        String::from_str("wss://stream-toko.2meta.app/ws/")
    };
    let name = if sym_type == 2 {
        to_lower(symbol)
    } else {
        to_lower(remove_chars(symbol, &underscore).as_str())
    };
    url.append(name.as_str());
    url.append("@depth");
    url
}

/// The URL of a private stream: the Nextme host for symbol type 3, else the cloud host.
pub open spec fn user_url(listen_key: Seq<char>, symbol_type: u32) -> Seq<char> {
    if symbol_type == 3 {
        "wss://stream-toko.2meta.app/ws/"@ + listen_key
    } else {
        "wss://stream-cloud.tokocrypto.site/ws/"@ + listen_key
    }
}

/// The URL of a private stream.
pub fn user_stream_url(listen_key: &str, symbol_type: u32) -> (res: String)
    ensures
        res@ == user_url(listen_key@, symbol_type),
{
    let mut url = if symbol_type == 3 {
        String::from_str("wss://stream-toko.2meta.app/ws/")
    } else {
        String::from_str("wss://stream-cloud.tokocrypto.site/ws/")
    };
    url.append(listen_key);
    url
}

/// The request for a listen token.
pub fn listen_token_request() -> (res: ApiRequest)
    ensures
        res.view_request() == request_m(
            Method::Post,
            Access::Signed,
            "/open/v1/user-listen-token"@,
            Seq::empty(),
        ),
{
    let res = ApiRequest::new(Method::Post, Access::Signed, "/open/v1/user-listen-token", Vec::new());
    assert(res.view_request().params =~= Seq::<(Seq<char>, Seq<char>)>::empty());
    res
}

/// The request that keeps a listen token alive.
pub fn keep_alive_request(listen_key: &str) -> (res: ApiRequest)
    ensures
        res.view_request() == request_m(
            Method::Put,
            Access::Public,
            "/open/v1/user-listen-token"@,
            seq![
                ("listenKey"@, listen_key@),
                ("listenToken"@, listen_key@),
                ("token"@, listen_key@),
            ],
        ),
{
    let mut params: Vec<(String, String)> = Vec::new();
    push_param(&mut params, "listenKey", listen_key);
    push_param(&mut params, "listenToken", listen_key);
    push_param(&mut params, "token", listen_key);
    let res = ApiRequest::new(Method::Put, Access::Public, "/open/v1/user-listen-token", params);
    assert(res.view_request().params =~= seq![
        ("listenKey"@, listen_key@),
        ("listenToken"@, listen_key@),
        ("token"@, listen_key@),
    ]);
    res
}

/// The listen token in a token response: the first string among
/// `data.token`, `data.listenKey`, `data.listenToken`, `listenKey`, `listenToken`.
pub open spec fn token_in(resp: Json) -> Option<Seq<char>> {
    let d = resp.at("data"@);
    if d.at("token"@).as_str() is Some {
        d.at("token"@).as_str()
    } else if d.at("listenKey"@).as_str() is Some {
        d.at("listenKey"@).as_str()
    } else if d.at("listenToken"@).as_str() is Some {
        d.at("listenToken"@).as_str()
    } else if resp.at("listenKey"@).as_str() is Some {
        resp.at("listenKey"@).as_str()
    } else {
        resp.at("listenToken"@).as_str()
    }
}

fn str_at(v: &JsonValue, key: &str) -> (res: Option<String>)
    ensures
        opt_str(res) == v.deep().at(key@).as_str(),
{
    match v.get(key) {
        Some(x) => match x.as_str() {
            Some(s) => Some(s.clone()),
            None => None,
        },
        None => None,
    }
}

/// The listen token of a token response; an API error quoting the response
/// (given as its JSON text) where it holds none.
pub fn listen_key(resp: &JsonValue, resp_text: &str) -> (res: Result<String, TokocryptoError>)
    ensures
        match res {
            Ok(k) => token_in(resp.deep()) == Some(k@),
            Err(e) => token_in(resp.deep()) is None && (e matches TokocryptoError::Api {
                code,
                message,
            } && code == -1 && message@ == "Failed to extract listenKey/listenToken from response: "@
                + resp_text@),
        },
{
    let found = match resp.get("data") {
        Some(d) => {
            let a = str_at(d, "token");
            if a.is_some() {
                a
            } else {
                let b = str_at(d, "listenKey");
                if b.is_some() {
                    b
                } else {
                    str_at(d, "listenToken")
                }
            }
        },
        None => None,
    };
    let found = if found.is_some() {
        found
    } else {
        let c = str_at(resp, "listenKey");
        if c.is_some() {
            c
        } else {
            str_at(resp, "listenToken")
        }
    };
    match found {
        Some(k) => Ok(k),
        None => {
            let mut message = String::from_str("Failed to extract listenKey/listenToken from response: ");
            message.append(resp_text);
            Err(TokocryptoError::Api { code: -1, message })
        },
    }
}

/// The name of the event a private-stream message carries (`e`), or
/// `userDataUpdate`.
pub open spec fn event_of(data: Json) -> Seq<char> {
    match data.at("e"@).as_str() {
        Some(e) => e,
        None => "userDataUpdate"@,
    }
}

/// Whether an event belongs to a channel: orders take execution reports and
/// order events, balances take account positions and balance events, any
/// other channel takes everything.
pub open spec fn in_channel(channel: Seq<char>, event: Seq<char>) -> bool {
    if channel == "orders"@ {
        event == "executionReport"@ || contains_seq(event, "Order"@)
    } else if channel == "balances"@ {
        event == "outboundAccountPosition"@ || contains_seq(event, "Balance"@)
    } else {
        true
    }
}

/// Whether an event belongs to a channel.
pub fn matches_channel(channel: &str, event: &str) -> (res: bool)
    ensures
        res == in_channel(channel@, event@),
{
    if str_equal(channel, "orders") {
        str_equal(event, "executionReport") || contains_str(event, "Order")
    } else if str_equal(channel, "balances") {
        str_equal(event, "outboundAccountPosition") || contains_str(event, "Balance")
    } else {
        true
    }
}

/// A message received on a stream. A text message carries its JSON value,
/// or none where the text is no JSON.
#[derive(Debug, PartialEq)]
pub enum WsMessage {
    Text(Option<JsonValue>),
    Ping(Vec<u8>),
    Close,
    Error(String),
    Other,
}

/// What the receive loop does with one message.
#[derive(Debug, PartialEq)]
pub struct WsStep {
    /// Output to print.
    pub emit: Option<CommandOutput>,
    /// A payload to answer with a pong.
    pub pong: Option<Vec<u8>>,
    /// Whether the server closed the connection.
    pub closed: bool,
    /// An error to report.
    pub error: Option<String>,
    /// The number of data messages shown so far.
    pub count: usize,
    /// Whether the loop ends.
    pub stop: bool,
}

/// How long the loop may wait for the next message.
#[derive(Debug, Clone, Copy, PartialEq, Eq, Structural)]
pub enum Wait {
    /// No time bound.
    Unbounded,
    /// At most this many milliseconds.
    Within(u64),
    /// The deadline has passed: the loop ends.
    Expired,
}

/// How long the loop may wait, given the deadline and the time now.
pub fn wait_for(deadline: Option<u64>, now_ms: u64) -> (res: Wait)
    ensures
        res == (match deadline {
            None => Wait::Unbounded,
            Some(d) => if now_ms >= d {
                Wait::Expired
            } else {
                Wait::Within((d - now_ms) as u64)
            },
        }),
{
    match deadline {
        None => Wait::Unbounded,
        Some(d) => if now_ms >= d {
            Wait::Expired
        } else {
            Wait::Within(d - now_ms)
        },
    }
}

/// The label of the output of a stream message: `Depth Update` for the depth
/// stream, else the event name.
pub open spec fn shown_label(channel: Option<Seq<char>>, data: Json) -> Seq<char> {
    match channel {
        None => "Depth Update"@,
        Some(_) => event_of(data),
    }
}

/// Whether a stream message is shown.
pub open spec fn shown(channel: Option<Seq<char>>, data: Json) -> bool {
    match channel {
        None => true,
        Some(c) => in_channel(c, event_of(data)),
    }
}

/// Whether `count` data messages already reach the message bound.
pub open spec fn limit_hit(bounds: StreamBounds, count: int) -> bool {
    match bounds.limit {
        Some(l) => count >= l,
        None => false,
    }
}

/// The step of the receive loop for one message. `channel` is none for the
/// depth stream, else the private channel; `count` is the number of data
/// messages shown so far. Where that count already reaches the bound, the
/// message is not handled and the loop stops.
pub open spec fn step_spec(
    bounds: StreamBounds,
    channel: Option<Seq<char>>,
    count: usize,
    msg: WsMessage,
) -> (bool, usize, bool) {
    // (whether output is emitted, the new count, whether the loop stops)
    if limit_hit(bounds, count as int) {
        (false, count, true)
    } else {
        handled_step(bounds, channel, count, msg)
    }
}

/// The step for a message that is handled.
pub open spec fn handled_step(
    bounds: StreamBounds,
    channel: Option<Seq<char>>,
    count: usize,
    msg: WsMessage,
) -> (bool, usize, bool) {
    let (emit, new_count, ended) = match msg {
        WsMessage::Text(Some(v)) => if shown(channel, v.deep()) {
            (true, (count + 1) as usize, false)
        } else {
            (false, count, false)
        },
        WsMessage::Close => (false, count, true),
        WsMessage::Error(_) => (false, count, true),
        _ => (false, count, false),
    };
    (emit, new_count, ended || limit_hit(bounds, new_count as int))
}

/// The step of the receive loop for one message.
pub fn stream_step(
    bounds: StreamBounds,
    channel: Option<&str>,
    count: usize,
    msg: WsMessage,
    format: OutputFormat,
) -> (res: WsStep)
    requires
        count < usize::MAX,
    ensures
        ({
            let ch = match channel {
                Some(c) => Some(c@),
                None => None,
            };
            let (emit, new_count, stop) = step_spec(bounds, ch, count, msg);
            let handled = !limit_hit(bounds, count as int);
            &&& res.count == new_count
            &&& res.stop == stop
            &&& res.emit is Some == emit
            &&& (res.emit matches Some(out) ==> (msg matches WsMessage::Text(Some(v)) && out.data
                == v && out.label@ == shown_label(ch, v.deep()) && out.format == format
                && out.addendum is None && out.headers@.len() == 0 && out.rows@.len() == 0))
            &&& (res.pong is Some <==> (handled && msg is Ping))
            &&& (handled ==> (msg matches WsMessage::Ping(p) ==> res.pong == Some(p)))
            &&& res.closed == (handled && msg is Close)
            &&& (res.error is Some <==> (handled && msg is Error))
            &&& (handled ==> (msg matches WsMessage::Error(e) ==> res.error == Some(e)))
        }),
{
    let ghost m = msg;
    let mut step = WsStep { emit: None, pong: None, closed: false, error: None, count, stop: false };
    if bounds.limit_reached(count) {
        step.stop = true;
        return step;
    }
    match msg {
        WsMessage::Text(Some(v)) => {
            match channel {
                None => {
                    step.emit = Some(CommandOutput::new(v, "Depth Update").with_format(format));
                    step.count = count + 1;
                },
                Some(c) => {
                    let event = match v.get("e") {
                        Some(e) => match e.as_str() {
                            Some(s) => s.clone(),
                            None => String::from_str("userDataUpdate"),
                        },
                        None => String::from_str("userDataUpdate"),
                    };
                    if matches_channel(c, event.as_str()) {
                        step.emit = Some(CommandOutput::new(v, event.as_str()).with_format(format));
                        step.count = count + 1;
                    }
                },
            }
        },
        WsMessage::Ping(p) => {
            step.pong = Some(p);
        },
        WsMessage::Close => {
            step.closed = true;
            step.stop = true;
        },
        WsMessage::Error(e) => {
            step.error = Some(e);
            step.stop = true;
        },
        _ => {},
    }
    if bounds.limit_reached(step.count) {
        step.stop = true;
    }
    step
}

} // verus!

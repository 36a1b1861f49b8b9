//! Plain types of the exchange adapter.

use vstd::prelude::*;
use vstd::string::StringExecFns;

verus! {

/// A trading pair as the exchange adapter lists it.
#[derive(Debug, PartialEq)]
pub struct MarketPair {
    /// e.g. `BTC/USDT`
    pub symbol: String,
    /// e.g. `BTC`
    pub base: String,
    /// e.g. `USDT`
    pub quote: String,
    pub active: bool,
}

/// The model of a pair.
pub struct PairM {
    pub symbol: Seq<char>,
    pub base: Seq<char>,
    pub quote: Seq<char>,
    pub active: bool,
}

impl MarketPair {
    pub open spec fn view_pair(&self) -> PairM {
        PairM { symbol: self.symbol@, base: self.base@, quote: self.quote@, active: self.active }
    }
}

/// Errors of the exchange adapter; each payload is the text it reports.
#[derive(Debug, PartialEq)]
pub enum GateError {
    Network(String),
    WebSocket(String),
    Api(String),
    InvalidSymbol(String),
    Other(String),
}

impl GateError {
    /// The text that the error reports.
    pub open spec fn text(&self) -> Seq<char> {
        match self {
            GateError::Network(m) => "network error: "@ + m@,
            GateError::WebSocket(m) => "websocket error: "@ + m@,
            GateError::Api(m) => "api error: "@ + m@,
            GateError::InvalidSymbol(m) => "invalid symbol: "@ + m@,
            GateError::Other(m) => "unknown error: "@ + m@,
        }
    }

    /// The text that the error reports.
    pub fn to_string(&self) -> (res: String)
        ensures
            res@ == self.text(),
    {
        let (prefix, m) = match self {
            GateError::Network(m) => ("network error: ", m),
            GateError::WebSocket(m) => ("websocket error: ", m),
            GateError::Api(m) => ("api error: ", m),
            GateError::InvalidSymbol(m) => ("invalid symbol: ", m),
            GateError::Other(m) => ("unknown error: ", m),
        };
        let mut s = String::from_str(prefix);
        s.append(m.as_str());
        s
    }
}

} // verus!

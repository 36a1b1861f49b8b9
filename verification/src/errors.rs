//! The error type of the CLI, its stable categories and the JSON envelope
//! that reports an error.

use vstd::prelude::*;
use vstd::string::StringExecFns;

use crate::json::{Json, JsonValue};
use crate::text::{dec_i64, i64_to_string};

verus! {

/// Structured error type; each variant maps to a stable category in JSON
/// error envelopes. Every payload is the text that the variant reports.
#[derive(Debug, PartialEq)]
pub enum TokocryptoError {
    Api { code: i64, message: String },
    Auth(String),
    Network(String),
    Validation(String),
    RateLimit(String),
    Config(String),
    Io(String),
    Parse(String),
    WebSocket(String),
    Internal(String),
}

impl TokocryptoError {
    /// The stable category of the error.
    pub open spec fn category_of(&self) -> Seq<char> {
        match self {
            TokocryptoError::Api { .. } => "api"@,
            TokocryptoError::Auth(_) => "auth"@,
            TokocryptoError::Network(_) => "network"@,
            TokocryptoError::Validation(_) => "validation"@,
            TokocryptoError::RateLimit(_) => "rate_limit"@,
            TokocryptoError::Config(_) => "config"@,
            TokocryptoError::Io(_) => "io"@,
            TokocryptoError::Parse(_) => "parse"@,
            TokocryptoError::WebSocket(_) => "websocket"@,
            TokocryptoError::Internal(_) => "internal"@,
        }
    }

    /// Whether retrying the failed operation may succeed.
    pub open spec fn is_retryable(&self) -> bool {
        self is Network || self is RateLimit || self is WebSocket
    }

    /// The text that the error reports.
    pub open spec fn text(&self) -> Seq<char> {
        match self {
            TokocryptoError::Api { code, message } => "API error ("@ + dec_i64(*code) + "): "@
                + message@,
            TokocryptoError::Auth(m) => "Authentication failed: "@ + m@,
            TokocryptoError::Network(m) => "Network error: "@ + m@,
            TokocryptoError::Validation(m) => "Validation error: "@ + m@,
            TokocryptoError::RateLimit(m) => "Rate limited: "@ + m@,
            TokocryptoError::Config(m) => "Configuration error: "@ + m@,
            TokocryptoError::Io(m) => "I/O error: "@ + m@,
            TokocryptoError::Parse(m) => "Parse error: "@ + m@,
            TokocryptoError::WebSocket(m) => "WebSocket error: "@ + m@,
            TokocryptoError::Internal(m) => "Internal error: "@ + m@,
        }
    }

    /// The JSON envelope that reports the error.
    pub open spec fn envelope(&self) -> Json {
        Json::Obj(
            seq![
                ("error"@, Json::Bool(true)),
                ("error_type"@, Json::Str(self.category_of())),
                ("message"@, Json::Str(self.text())),
                ("retryable"@, Json::Bool(self.is_retryable())),
            ],
        )
    }

    /// Returns the stable error category string for JSON envelopes.
    pub fn category(&self) -> (res: &'static str)
        ensures
            res@ == self.category_of(),
    {
        match self {
            TokocryptoError::Api { .. } => "api",
            TokocryptoError::Auth(_) => "auth",
            TokocryptoError::Network(_) => "network",
            TokocryptoError::Validation(_) => "validation",
            TokocryptoError::RateLimit(_) => "rate_limit",
            TokocryptoError::Config(_) => "config",
            TokocryptoError::Io(_) => "io",
            TokocryptoError::Parse(_) => "parse",
            TokocryptoError::WebSocket(_) => "websocket",
            TokocryptoError::Internal(_) => "internal",
        }
    }

    /// Whether this error is retryable.
    pub fn retryable(&self) -> (res: bool)
        ensures
            res == self.is_retryable(),
    {
        match self {
            TokocryptoError::Network(_) | TokocryptoError::RateLimit(_)
            | TokocryptoError::WebSocket(_) => true,
            _ => false,
        }
    }

    /// The text that the error reports to the user.
    pub fn to_string(&self) -> (res: String)
        ensures
            res@ == self.text(),
    {
        let (prefix, payload) = match self {
            TokocryptoError::Api { code, message } => {
                let mut s = String::from_str("API error (");
                let c = i64_to_string(*code);
                s.append(c.as_str());
                s.append("): ");
                s.append(message.as_str());
                return s;
            },
            TokocryptoError::Auth(m) => ("Authentication failed: ", m),
            TokocryptoError::Network(m) => ("Network error: ", m),
            TokocryptoError::Validation(m) => ("Validation error: ", m),
            TokocryptoError::RateLimit(m) => ("Rate limited: ", m),
            TokocryptoError::Config(m) => ("Configuration error: ", m),
            TokocryptoError::Io(m) => ("I/O error: ", m),
            TokocryptoError::Parse(m) => ("Parse error: ", m),
            TokocryptoError::WebSocket(m) => ("WebSocket error: ", m),
            TokocryptoError::Internal(m) => ("Internal error: ", m),
        };
        let mut s = String::from_str(prefix);
        s.append(payload.as_str());
        s
    }

    /// Format this error as a JSON error envelope.
    pub fn to_json_envelope(&self) -> (res: JsonValue)
        ensures
            res.deep() == self.envelope(),
    {
        let flag = JsonValue::Bool(true);
        let kind = JsonValue::string(self.category());
        let text = JsonValue::Str(self.to_string());
        let retry = JsonValue::Bool(self.retryable());
        assert(flag.deep() == Json::Bool(true));
        assert(text.deep() == Json::Str(self.text()));
        assert(retry.deep() == Json::Bool(self.is_retryable()));
        let mut entries: Vec<(String, JsonValue)> = Vec::new();
        entries.push((String::from_str("error"), flag));
        entries.push((String::from_str("error_type"), kind));
        entries.push((String::from_str("message"), text));
        entries.push((String::from_str("retryable"), retry));
        let res = JsonValue::Object(entries);
        assert(res.deep()->Obj_0 =~= self.envelope()->Obj_0);
        res
    }
}

} // verus!

//! REST requests as plain values: method, access, endpoint and the ordered
//! query parameters. Sending them is left to the caller.

use vstd::prelude::*;
use vstd::string::StringExecFns;

use crate::output::table::opt_str;
use crate::text::{dec_i64, i64_to_string};

verus! {

/// The HTTP method of a request.
#[derive(Debug, Clone, Copy, PartialEq, Eq, Structural)]
pub enum Method {
    Get,
    Post,
    Put,
}

/// Whether a request is sent as is or signed with the API credentials.
#[derive(Debug, Clone, Copy, PartialEq, Eq, Structural)]
pub enum Access {
    Public,
    Signed,
}

/// A REST request. The endpoint is a path on the configured host, or a full URL.
#[derive(Debug, PartialEq)]
pub struct ApiRequest {
    pub method: Method,
    pub access: Access,
    pub endpoint: String,
    pub params: Vec<(String, String)>,
}

/// The model of a request.
pub struct RequestM {
    pub method: Method,
    pub access: Access,
    pub endpoint: Seq<char>,
    pub params: Seq<(Seq<char>, Seq<char>)>,
}

pub open spec fn params_view(p: Seq<(String, String)>) -> Seq<(Seq<char>, Seq<char>)> {
    p.map_values(|kv: (String, String)| (kv.0@, kv.1@))
}

/// A parameter where there is a value; none otherwise.
pub open spec fn opt_param(key: Seq<char>, value: Option<Seq<char>>) -> Seq<(Seq<char>, Seq<char>)> {
    match value {
        Some(v) => seq![(key, v)],
        None => Seq::empty(),
    }
}

/// The decimal text of an optional integer.
pub open spec fn opt_dec(v: Option<i64>) -> Option<Seq<char>> {
    match v {
        Some(i) => Some(dec_i64(i)),
        None => None,
    }
}

pub open spec fn request_m(
    method: Method,
    access: Access,
    endpoint: Seq<char>,
    params: Seq<(Seq<char>, Seq<char>)>,
) -> RequestM {
    RequestM { method, access, endpoint, params }
}

impl ApiRequest {
    pub open spec fn view_request(&self) -> RequestM {
        RequestM {
            method: self.method,
            access: self.access,
            endpoint: self.endpoint@,
            params: params_view(self.params@),
        }
    }

    pub fn new(method: Method, access: Access, endpoint: &str, params: Vec<(String, String)>) -> (res:
        ApiRequest)
        ensures
            res.view_request() == request_m(method, access, endpoint@, params_view(params@)),
    {
        ApiRequest { method, access, endpoint: endpoint.to_owned(), params }
    }
}

/// Appends one parameter.
pub fn push_param(params: &mut Vec<(String, String)>, key: &str, value: &str)
    ensures
        params_view(final(params)@) == params_view(old(params)@).push((key@, value@)),
{
    params.push((key.to_owned(), value.to_owned()));
    assert(params_view(params@) =~= params_view(old(params)@).push((key@, value@)));
}

/// Appends a parameter where there is a value.
pub fn push_opt_param(params: &mut Vec<(String, String)>, key: &str, value: &Option<String>)
    ensures
        params_view(final(params)@) == params_view(old(params)@) + opt_param(key@, opt_str(*value)),
{
    match value {
        Some(v) => push_param(params, key, v.as_str()),
        None => {},
    }
    assert(params_view(params@) =~= params_view(old(params)@) + opt_param(key@, opt_str(*value)));
}

/// The decimal text of an optional integer.
pub fn opt_i64_text(v: Option<i64>) -> (res: Option<String>)
    ensures
        opt_str(res) == opt_dec(v),
{
    match v {
        Some(i) => Some(i64_to_string(i)),
        None => None,
    }
}

} // verus!

//! API credential management. Reading and writing the configuration file is
//! left to the caller; the commands here shape what is shown.

use vstd::prelude::*;
use vstd::string::{StringExecFns, StringSliceAdditionalSpecFns};
use vstd::utf8::{decode_utf8, encode_utf8, is_char_boundary};

use crate::api::{Access, ApiRequest, Method, RequestM, request_m};
use crate::json::{Json, JsonValue};
use crate::output::table::opt_str;
use crate::output::{CommandOutput, OutputFormat};

verus! {

broadcast use vstd::utf8::group_utf8_lib;

/// API credential management.
#[derive(Debug, PartialEq)]
pub enum AuthCommand {
    /// Set API credentials
    SetKeys { api_key: String, api_secret: String },
    /// Show configured credentials (masked)
    Show,
    /// Test credentials against the API
    Test,
    /// Delete stored credentials
    Reset,
}

/// Whether a credential longer than eight bytes can be cut four bytes from
/// either end (both cuts fall between characters).
pub open spec fn can_mask(s: Seq<char>) -> bool {
    let b = encode_utf8(s);
    b.len() > 8 ==> is_char_boundary(b, 4) && is_char_boundary(b, b.len() - 4)
}

/// The first four and the last four bytes of a credential, with `...` between.
pub open spec fn ends_of(s: Seq<char>) -> Seq<char> {
    let b = encode_utf8(s);
    decode_utf8(b.subrange(0, 4)) + "..."@ + decode_utf8(b.subrange(b.len() - 4, b.len() as int))
}

/// A key as shown: masked when longer than eight bytes, else as it is.
pub open spec fn masked_key(key: Seq<char>) -> Seq<char> {
    if encode_utf8(key).len() > 8 {
        ends_of(key)
    } else {
        key
    }
}

/// A secret as shown: masked when longer than eight bytes, else `(set)`.
pub open spec fn masked_secret(secret: Seq<char>) -> Seq<char> {
    if encode_utf8(secret).len() > 8 {
        ends_of(secret)
    } else {
        "(set)"@
    }
}

fn ends(s: &str) -> (res: String)
    requires
        s.spec_bytes().len() > 8,
        can_mask(s@),
    ensures
        res@ == ends_of(s@),
{
    let n = s.as_bytes().len();
    let (head, _) = s.split_at(4);
    let (_, tail) = s.split_at(n - 4);
    proof {
        assert(decode_utf8(encode_utf8(head@)) == head@);
        assert(decode_utf8(encode_utf8(tail@)) == tail@);
    }
    let mut res = head.to_owned();
    res.append("...");
    res.append(tail);
    res
}

/// The key as shown: its first and last four bytes when longer than eight bytes.
pub fn mask_key(key: &str) -> (res: String)
    requires
        can_mask(key@),
    ensures
        res@ == masked_key(key@),
{
    if key.as_bytes().len() > 8 {
        ends(key)
    } else {
        key.to_owned()
    }
}

/// The secret as shown: its first and last four bytes when longer than
/// eight bytes, else `(set)`.
pub fn mask_secret(secret: &str) -> (res: String)
    requires
        can_mask(secret@),
    ensures
        res@ == masked_secret(secret@),
{
    if secret.as_bytes().len() > 8 {
        ends(secret)
    } else {
        String::from_str("(set)")
    }
}

/// A stored credential as shown: masked by `mask` where it is set, else `(not set)`.
pub open spec fn shown_credential(v: Option<Seq<char>>, secret: bool) -> Seq<char> {
    match v {
        Some(s) => if secret {
            masked_secret(s)
        } else {
            masked_key(s)
        },
        None => "(not set)"@,
    }
}

/// Whether a stored credential, where set, can be shown masked.
pub open spec fn maskable(v: Option<Seq<char>>) -> bool {
    match v {
        Some(s) => can_mask(s),
        None => true,
    }
}

/// The data shown for the stored credentials: each masked where it is set,
/// `(not set)` where it is not.
pub open spec fn show_data(key: Option<Seq<char>>, secret: Option<Seq<char>>, path: Seq<char>) -> Json {
    Json::Obj(
        seq![
            ("api_key"@, Json::Str(shown_credential(key, false))),
            ("api_secret"@, Json::Str(shown_credential(secret, true))),
            ("config_path"@, Json::Str(path)),
        ],
    )
}

/// A one-field object.
fn single(key: &str, value: JsonValue) -> (res: JsonValue)
    ensures
        res.deep() == Json::Obj(seq![(key@, value.deep())]),
{
    let ghost vd = value.deep();
    let mut entries: Vec<(String, JsonValue)> = Vec::new();
    entries.push((key.to_owned(), value));
    let res = JsonValue::object(entries);
    assert(res.deep()->Obj_0 =~= seq![(key@, vd)]);
    res
}

impl AuthCommand {
    /// The output after credentials were saved to the file at `path`.
    pub fn saved_output(path: &str, format: OutputFormat) -> (res: CommandOutput)
        ensures
            res.data.deep() == Json::Obj(seq![("path"@, Json::Str(path@))]),
            res.label@ == "Auth Set"@,
            res.headers@.len() == 0,
            res.rows@.len() == 0,
            res.format == format,
            opt_str(res.addendum) == Some("Credentials saved to "@ + path@),
    {
        let mut note = String::from_str("Credentials saved to ");
        note.append(path);
        CommandOutput::new(single("path", JsonValue::string(path)), "Auth Set").with_addendum(
            note.as_str(),
        ).with_format(format)
    }

    /// The output showing the stored credentials, masked, and the path of
    /// the configuration file.
    pub fn show_output(
        api_key: &Option<String>,
        api_secret: &Option<String>,
        path: &str,
        format: OutputFormat,
    ) -> (res: CommandOutput)
        requires
            maskable(opt_str(*api_key)),
            maskable(opt_str(*api_secret)),
        ensures
            res.data.deep() == show_data(opt_str(*api_key), opt_str(*api_secret), path@),
            res.label@ == "Auth Config"@,
            res.headers@.len() == 0,
            res.rows@.len() == 0,
            res.format == format,
            res.addendum is None,
    {
        let k = match api_key {
            Some(key) => JsonValue::Str(mask_key(key.as_str())),
            None => JsonValue::string("(not set)"),
        };
        let s = match api_secret {
            Some(secret) => JsonValue::Str(mask_secret(secret.as_str())),
            None => JsonValue::string("(not set)"),
        };
        let p = JsonValue::string(path);
        let mut entries: Vec<(String, JsonValue)> = Vec::new();
        entries.push((String::from_str("api_key"), k));
        entries.push((String::from_str("api_secret"), s));
        entries.push((String::from_str("config_path"), p));
        let data = JsonValue::object(entries);
        assert(data.deep()->Obj_0 =~= show_data(opt_str(*api_key), opt_str(*api_secret), path@)->Obj_0);
        CommandOutput::new(data, "Auth Config").with_format(format)
    }

    /// The requests of the credential test, in order: connectivity, then a
    /// signed account query.
    pub fn test_requests() -> (res: (ApiRequest, ApiRequest))
        ensures
            res.0.view_request() == request_m(
                Method::Get,
                Access::Public,
                "/open/v1/common/time"@,
                Seq::empty(),
            ),
            res.1.view_request() == request_m(
                Method::Get,
                Access::Signed,
                "/open/v1/account/spot"@,
                Seq::empty(),
            ),
    {
        let a = ApiRequest::new(Method::Get, Access::Public, "/open/v1/common/time", Vec::new());
        let b = ApiRequest::new(Method::Get, Access::Signed, "/open/v1/account/spot", Vec::new());
        assert(a.view_request().params =~= Seq::<(Seq<char>, Seq<char>)>::empty());
        assert(b.view_request().params =~= Seq::<(Seq<char>, Seq<char>)>::empty());
        (a, b)
    }

    /// The output when both test requests succeeded.
    pub fn tested_output(format: OutputFormat) -> (res: CommandOutput)
        ensures
            res.data.deep() == Json::Obj(seq![("connectivity"@, Json::Str("ok"@))]),
            res.label@ == "Auth Test"@,
            res.headers@.len() == 0,
            res.rows@.len() == 0,
            res.format == format,
            opt_str(res.addendum) == Some("Authentication OK — credentials are valid"@),
    {
        CommandOutput::new(single("connectivity", JsonValue::string("ok")), "Auth Test")
            .with_addendum("API connectivity OK")
            .with_addendum("Authentication OK — credentials are valid")
            .with_format(format)
    }

    /// The output after the stored credentials were deleted.
    pub fn reset_output(format: OutputFormat) -> (res: CommandOutput)
        ensures
            res.data.deep() == Json::Obj(seq![("reset"@, Json::Bool(true))]),
            res.label@ == "Auth Reset"@,
            res.headers@.len() == 0,
            res.rows@.len() == 0,
            res.format == format,
            opt_str(res.addendum) == Some("Credentials deleted"@),
    {
        let flag = JsonValue::Bool(true);
        assert(flag.deep() == Json::Bool(true));
        CommandOutput::new(single("reset", flag), "Auth Reset").with_addendum(
            "Credentials deleted",
        ).with_format(format)
    }
}

} // verus!

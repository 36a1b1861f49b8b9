//! Account commands (signed endpoints).

use vstd::prelude::*;

use crate::api::{Access, ApiRequest, Method, RequestM, opt_dec, opt_param, params_view, push_param, request_m};
use crate::commands::market::{dash_label, dashed};
use crate::json::{Json, JsonValue};
use crate::output::table::opt_str;
use crate::output::{CommandOutput, OutputFormat};
use crate::text::{dec_i64, dec_nat, i64_to_string, to_upper, u64_to_string, upper};
use vstd::string::StringExecFns;

verus! {

/// Account information (requires API key).
#[derive(Debug, PartialEq)]
pub enum AccountCommand {
    /// Get current account details (commissions, permissions)
    Info,
    /// Get non-zero asset balances
    Balance,
    /// Get details of a specific asset
    Assets { asset: String },
    /// Get your trade history for a symbol
    Trades { symbol: String, from_id: Option<i64>, limit: u32 },
}

/// The data shown for balances: the `accountAssets` under `data`, alone,
/// where the response holds them; else the whole response.
pub open spec fn balance_data(result: Json) -> Json {
    match result.get("data"@) {
        Some(d) => match d.get("accountAssets"@) {
            Some(assets) => Json::Obj(seq![("accountAssets"@, assets)]),
            None => result,
        },
        None => result,
    }
}

impl AccountCommand {
    /// The request the command sends.
    pub open spec fn request_of(&self) -> RequestM {
        match self {
            AccountCommand::Info | AccountCommand::Balance => request_m(
                Method::Get,
                Access::Signed,
                "/open/v1/account/spot"@,
                Seq::empty(),
            ),
            AccountCommand::Assets { asset } => request_m(
                Method::Get,
                Access::Signed,
                "/open/v1/account/spot/asset"@,
                seq![("asset"@, upper(asset@))],
            ),
            AccountCommand::Trades { symbol, from_id, limit } => request_m(
                Method::Get,
                Access::Signed,
                "/open/v1/orders/trades"@,
                seq![("symbol"@, upper(symbol@)), ("limit"@, dec_nat(*limit as nat))]
                    + match from_id {
                    Some(f) => seq![("fromId"@, dec_i64(*f)), ("direct"@, "next"@)],
                    None => Seq::empty(),
                },
            ),
        }
    }

    /// The label of the command's output.
    pub open spec fn label_of(&self) -> Seq<char> {
        match self {
            AccountCommand::Info => "Account Info"@,
            AccountCommand::Balance => "Balances"@,
            AccountCommand::Assets { asset } => dash_label("Asset Info"@, upper(asset@)),
            AccountCommand::Trades { symbol, .. } => dash_label("Trade History"@, upper(symbol@)),
        }
    }

    /// The data of the command's output for a response.
    pub open spec fn data_of(&self, result: Json) -> Json {
        match self {
            AccountCommand::Balance => balance_data(result),
            _ => result,
        }
    }

    /// The request the command sends.
    pub fn request(&self) -> (res: ApiRequest)
        ensures
            res.view_request() == self.request_of(),
    {
        let mut params: Vec<(String, String)> = Vec::new();
        match self {
            AccountCommand::Info | AccountCommand::Balance => {
                let res = ApiRequest::new(Method::Get, Access::Signed, "/open/v1/account/spot", params);
                assert(res.view_request().params =~= self.request_of().params);
                res
            },
            AccountCommand::Assets { asset } => {
                push_param(&mut params, "asset", to_upper(asset.as_str()).as_str());
                let res = ApiRequest::new(
                    Method::Get,
                    Access::Signed,
                    "/open/v1/account/spot/asset",
                    params,
                );
                assert(res.view_request().params =~= self.request_of().params);
                res
            },
            AccountCommand::Trades { symbol, from_id, limit } => {
                push_param(&mut params, "symbol", to_upper(symbol.as_str()).as_str());
                push_param(&mut params, "limit", u64_to_string(*limit as u64).as_str());
                match from_id {
                    Some(f) => {
                        push_param(&mut params, "fromId", i64_to_string(*f).as_str());
                        push_param(&mut params, "direct", "next");
                    },
                    None => {},
                }
                let res = ApiRequest::new(Method::Get, Access::Signed, "/open/v1/orders/trades", params);
                assert(res.view_request().params =~= self.request_of().params);
                res
            },
        }
    }

    /// The output the command makes of a response.
    pub fn output(&self, result: JsonValue, format: OutputFormat) -> (res: CommandOutput)
        ensures
            res.data.deep() == self.data_of(result.deep()),
            res.label@ == self.label_of(),
            res.headers@.len() == 0,
            res.rows@.len() == 0,
            res.format == format,
            res.addendum is None,
    {
        let out = match self {
            AccountCommand::Info => CommandOutput::new(result, "Account Info"),
            AccountCommand::Balance => {
                let assets = match result.get("data") {
                    Some(d) => match d.get("accountAssets") {
                        Some(a) => Some(a.deep_clone()),
                        None => None,
                    },
                    None => None,
                };
                match assets {
                    Some(a) => {
                        let ghost ad = a.deep();
                        let mut entries: Vec<(String, JsonValue)> = Vec::new();
                        entries.push((String::from_str("accountAssets"), a));
                        let data = JsonValue::object(entries);
                        assert(data.deep()->Obj_0 =~= seq![("accountAssets"@, ad)]);
                        CommandOutput::new(data, "Balances")
                    },
                    None => CommandOutput::new(result, "Balances"),
                }
            },
            AccountCommand::Assets { asset } => CommandOutput::new(
                result,
                dashed("Asset Info", to_upper(asset.as_str()).as_str()).as_str(),
            ),
            AccountCommand::Trades { symbol, .. } => CommandOutput::new(
                result,
                dashed("Trade History", to_upper(symbol.as_str()).as_str()).as_str(),
            ),
        };
        out.with_format(format)
    }
}

} // verus!

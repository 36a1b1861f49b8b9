//! Funding commands: withdrawals, deposits, addresses (signed endpoints).

use vstd::prelude::*;
use vstd::string::StringExecFns;

use crate::api::{
    Access, ApiRequest, Method, RequestM, opt_param, params_view, push_opt_param, push_param,
    request_m,
};
use crate::commands::market::{dash_label, dashed};
use crate::json::JsonValue;
use crate::output::table::opt_str;
use crate::output::{CommandOutput, OutputFormat};
use crate::text::{dec_int, dec_nat, i64_to_string, to_upper, u64_to_string, upper};

verus! {

/// Funding: withdrawals, deposits, addresses.
#[derive(Debug, PartialEq)]
#[allow(inconsistent_fields)]
pub enum FundingCommand {
    /// Withdraw crypto to an external address
    Withdraw {
        coin: String,
        amount: String,
        address: String,
        tag: String,
        memo: Option<String>,
        network: Option<String>,
    },
    /// List crypto withdraw history
    WithdrawHistory { coin: Option<String>, status: Option<i32>, limit: u32 },
    /// List crypto deposit history
    DepositHistory { coin: Option<String>, status: Option<i32>, limit: u32 },
    /// Get deposit address for a specific coin
    DepositAddress { coin: String, network: Option<String> },
}

pub open spec fn opt_dec32(v: Option<i32>) -> Option<Seq<char>> {
    match v {
        Some(i) => Some(dec_int(i as int)),
        None => None,
    }
}

/// The parameters of a history query.
pub open spec fn history_params(coin: Option<Seq<char>>, status: Option<i32>, limit: u32) -> Seq<
    (Seq<char>, Seq<char>),
> {
    seq![("limit"@, dec_nat(limit as nat))] + opt_param("coin"@, coin) + opt_param(
        "status"@,
        opt_dec32(status),
    )
}

fn history_request(endpoint: &str, coin: &Option<String>, status: Option<i32>, limit: u32) -> (res:
    ApiRequest)
    ensures
        res.view_request() == request_m(
            Method::Get,
            Access::Signed,
            endpoint@,
            history_params(opt_str(*coin), status, limit),
        ),
{
    let mut params: Vec<(String, String)> = Vec::new();
    push_param(&mut params, "limit", u64_to_string(limit as u64).as_str());
    push_opt_param(&mut params, "coin", coin);
    let status_text = match status {
        Some(s) => Some(i64_to_string(s as i64)),
        None => None,
    };
    push_opt_param(&mut params, "status", &status_text);
    let res = ApiRequest::new(Method::Get, Access::Signed, endpoint, params);
    assert(res.view_request().params =~= history_params(opt_str(*coin), status, limit));
    res
}

impl FundingCommand {
    /// The request the command sends.
    pub open spec fn request_of(&self) -> RequestM {
        match self {
            FundingCommand::Withdraw { coin, amount, address, tag, memo, network } => request_m(
                Method::Post,
                Access::Signed,
                "/open/v1/withdraws"@,
                seq![
                    ("coin"@, coin@),
                    ("amount"@, amount@),
                    ("address"@, address@),
                    ("name"@, tag@),
                ] + opt_param("memo"@, opt_str(*memo)) + opt_param("network"@, opt_str(*network)),
            ),
            FundingCommand::WithdrawHistory { coin, status, limit } => request_m(
                Method::Get,
                Access::Signed,
                "/open/v1/withdraws"@,
                history_params(opt_str(*coin), *status, *limit),
            ),
            FundingCommand::DepositHistory { coin, status, limit } => request_m(
                Method::Get,
                Access::Signed,
                "/open/v1/deposits"@,
                history_params(opt_str(*coin), *status, *limit),
            ),
            FundingCommand::DepositAddress { coin, network } => request_m(
                Method::Get,
                Access::Signed,
                "/open/v1/deposits/address"@,
                seq![("coin"@, upper(coin@)), ("asset"@, upper(coin@))] + opt_param(
                    "network"@,
                    opt_str(*network),
                ),
            ),
        }
    }

    /// The label of the command's output.
    pub open spec fn label_of(&self) -> Seq<char> {
        match self {
            FundingCommand::Withdraw { .. } => "Withdraw Result"@,
            FundingCommand::WithdrawHistory { .. } => "Withdraw History"@,
            FundingCommand::DepositHistory { .. } => "Deposit History"@,
            FundingCommand::DepositAddress { coin, .. } => dash_label(
                "Deposit Address"@,
                upper(coin@),
            ),
        }
    }

    /// The addendum of the command's output.
    pub open spec fn addendum_of(&self) -> Option<Seq<char>> {
        match self {
            FundingCommand::Withdraw { coin, amount, .. } => Some(
                "Withdrawal of "@ + amount@ + " "@ + coin@ + " submitted successfully"@,
            ),
            _ => None,
        }
    }

    /// The request the command sends.
    pub fn request(&self) -> (res: ApiRequest)
        ensures
            res.view_request() == self.request_of(),
    {
        match self {
            FundingCommand::Withdraw { coin, amount, address, tag, memo, network } => {
                let mut params: Vec<(String, String)> = Vec::new();
                push_param(&mut params, "coin", coin.as_str());
                push_param(&mut params, "amount", amount.as_str());
                push_param(&mut params, "address", address.as_str());
                push_param(&mut params, "name", tag.as_str());
                push_opt_param(&mut params, "memo", memo);
                push_opt_param(&mut params, "network", network);
                let res = ApiRequest::new(Method::Post, Access::Signed, "/open/v1/withdraws", params);
                assert(res.view_request().params =~= self.request_of().params);
                res
            },
            FundingCommand::WithdrawHistory { coin, status, limit } => history_request(
                "/open/v1/withdraws",
                coin,
                *status,
                *limit,
            ),
            FundingCommand::DepositHistory { coin, status, limit } => history_request(
                "/open/v1/deposits",
                coin,
                *status,
                *limit,
            ),
            FundingCommand::DepositAddress { coin, network } => {
                let coin_upper = to_upper(coin.as_str());
                let mut params: Vec<(String, String)> = Vec::new();
                push_param(&mut params, "coin", coin_upper.as_str());
                push_param(&mut params, "asset", coin_upper.as_str());
                push_opt_param(&mut params, "network", network);
                let res = ApiRequest::new(
                    Method::Get,
                    Access::Signed,
                    "/open/v1/deposits/address",
                    params,
                );
                assert(res.view_request().params =~= self.request_of().params);
                res
            },
        }
    }

    /// The output the command makes of a response.
    pub fn output(&self, result: JsonValue, format: OutputFormat) -> (res: CommandOutput)
        ensures
            res.data == result,
            res.label@ == self.label_of(),
            res.headers@.len() == 0,
            res.rows@.len() == 0,
            res.format == format,
            opt_str(res.addendum) == self.addendum_of(),
    {
        let out = match self {
            FundingCommand::Withdraw { coin, amount, .. } => {
                let mut note = String::from_str("Withdrawal of ");
                note.append(amount.as_str());
                note.append(" ");
                note.append(coin.as_str());
                note.append(" submitted successfully");
                CommandOutput::new(result, "Withdraw Result").with_addendum(note.as_str())
            },
            FundingCommand::WithdrawHistory { .. } => CommandOutput::new(result, "Withdraw History"),
            FundingCommand::DepositHistory { .. } => CommandOutput::new(result, "Deposit History"),
            FundingCommand::DepositAddress { coin, .. } => CommandOutput::new(
                result,
                dashed("Deposit Address", to_upper(coin.as_str()).as_str()).as_str(),
            ),
        };
        out.with_format(format)
    }
}

} // verus!

//! Trading commands (signed endpoints).

use vstd::prelude::*;
use vstd::string::StringExecFns;

use crate::api::{
    Access, ApiRequest, Method, RequestM, opt_param, params_view, push_opt_param, push_param,
    request_m,
};
use crate::commands::market::{dash_label, dashed};
use crate::errors::TokocryptoError;
use crate::json::{Json, JsonValue};
use crate::output::table::opt_str;
use crate::output::{CommandOutput, OutputFormat};
use crate::text::{dec_i64, dec_int, dec_nat, i64_to_string, str_equal, to_upper, u64_to_string, upper};
use crate::{normalize_pair, pair_key};

verus! {

/// Trading operations (requires API key).
#[derive(Debug, PartialEq)]
#[allow(inconsistent_fields)]
pub enum OrderCommand {
    /// Place a buy order
    Buy {
        pair: String,
        order_type: String,
        price: Option<String>,
        volume: Option<String>,
        quote_order_qty: Option<String>,
        client_id: Option<String>,
        time_in_force: Option<String>,
        stop_price: Option<String>,
        iceberg_qty: Option<String>,
    },
    /// Place a sell order
    Sell {
        pair: String,
        order_type: String,
        price: Option<String>,
        volume: Option<String>,
        client_id: Option<String>,
        time_in_force: Option<String>,
        stop_price: Option<String>,
        iceberg_qty: Option<String>,
    },
    /// Cancel an active order
    Cancel { order_id: Option<i64>, client_id: Option<String> },
    /// Query a specific order's status
    Query { order_id: i64, client_id: Option<String> },
    /// List current open orders
    OpenOrders { pair: String, count: u32 },
    /// List all orders (active, canceled, or filled)
    AllOrders { pair: String, count: u32, order_type: i32, from_id: Option<String> },
    /// Place a new OCO (One-Cancels-the-Other) order
    Oco {
        pair: String,
        side: String,
        volume: String,
        price: String,
        stop_price: String,
        stop_limit_price: String,
        list_client_id: Option<String>,
    },
}

/// The exchange's code of an order side given as `BUY` or `SELL` (buy otherwise).
pub open spec fn side_code(side: Seq<char>) -> Seq<char> {
    if side == "SELL"@ {
        "1"@
    } else {
        "0"@
    }
}

/// The exchange's code of an order type given in upper case; other text is sent as is.
pub open spec fn type_code(type_upper: Seq<char>) -> Seq<char> {
    if type_upper == "LIMIT"@ {
        "1"@
    } else if type_upper == "MARKET"@ {
        "2"@
    } else if type_upper == "STOP_LOSS"@ {
        "3"@
    } else if type_upper == "STOP_LOSS_LIMIT"@ {
        "4"@
    } else if type_upper == "TAKE_PROFIT"@ {
        "5"@
    } else if type_upper == "TAKE_PROFIT_LIMIT"@ {
        "6"@
    } else if type_upper == "LIMIT_MAKER"@ {
        "7"@
    } else {
        type_upper
    }
}

/// The exchange's code of a time in force given in upper case; other text is sent as is.
pub open spec fn tif_code(tif_upper: Seq<char>) -> Seq<char> {
    if tif_upper == "GTC"@ {
        "1"@
    } else if tif_upper == "IOC"@ {
        "2"@
    } else if tif_upper == "FOK"@ {
        "3"@
    } else if tif_upper == "GTX"@ {
        "4"@
    } else {
        tif_upper
    }
}

/// The side code of an OCO order: 0 for buy, 1 for sell (in any case),
/// otherwise the side as given.
pub open spec fn oco_side(side: Seq<char>, side_upper: Seq<char>) -> Seq<char> {
    if side_upper == "BUY"@ {
        "0"@
    } else if side_upper == "SELL"@ {
        "1"@
    } else {
        side
    }
}

pub open spec fn opt_map_tif(tif: Option<Seq<char>>) -> Option<Seq<char>> {
    match tif {
        Some(t) => Some(tif_code(upper(t))),
        None => None,
    }
}

/// The parameters of a new order, in the order they are sent.
pub open spec fn order_params_of(
    symbol: Seq<char>,
    side: Seq<char>,
    order_type: Seq<char>,
    price: Option<Seq<char>>,
    quantity: Option<Seq<char>>,
    quote_order_qty: Option<Seq<char>>,
    client_id: Option<Seq<char>>,
    time_in_force: Option<Seq<char>>,
    stop_price: Option<Seq<char>>,
    iceberg_qty: Option<Seq<char>>,
) -> Seq<(Seq<char>, Seq<char>)> {
    seq![
        ("symbol"@, pair_key(symbol)),
        ("side"@, side_code(side)),
        ("type"@, type_code(upper(order_type))),
    ] + opt_param("price"@, price) + opt_param("quantity"@, quantity) + opt_param(
        "quoteOrderQty"@,
        quote_order_qty,
    ) + opt_param("clientId"@, client_id) + opt_param("stopPrice"@, stop_price) + opt_param(
        "icebergQty"@,
        iceberg_qty,
    ) + opt_param("timeInForce"@, opt_map_tif(time_in_force))
}

/// The code of an order type, given the type in upper case.
pub fn order_type_code(type_upper: &str) -> (res: String)
    ensures
        res@ == type_code(type_upper@),
{
    let code = if str_equal(type_upper, "LIMIT") {
        "1"
    } else if str_equal(type_upper, "MARKET") {
        "2"
    } else if str_equal(type_upper, "STOP_LOSS") {
        "3"
    } else if str_equal(type_upper, "STOP_LOSS_LIMIT") {
        "4"
    } else if str_equal(type_upper, "TAKE_PROFIT") {
        "5"
    } else if str_equal(type_upper, "TAKE_PROFIT_LIMIT") {
        "6"
    } else if str_equal(type_upper, "LIMIT_MAKER") {
        "7"
    } else {
        type_upper
    };
    code.to_owned()
}

/// The code of a time in force, given it in upper case.
pub fn time_in_force_code(tif_upper: &str) -> (res: String)
    ensures
        res@ == tif_code(tif_upper@),
{
    let code = if str_equal(tif_upper, "GTC") {
        "1"
    } else if str_equal(tif_upper, "IOC") {
        "2"
    } else if str_equal(tif_upper, "FOK") {
        "3"
    } else if str_equal(tif_upper, "GTX") {
        "4"
    } else {
        tif_upper
    };
    code.to_owned()
}

/// The side code of an OCO order, given the side and its upper-case form.
pub fn oco_side_code(side: &str, side_upper: &str) -> (res: String)
    ensures
        res@ == oco_side(side@, side_upper@),
{
    let code = if str_equal(side_upper, "BUY") {
        "0"
    } else if str_equal(side_upper, "SELL") {
        "1"
    } else {
        side
    };
    code.to_owned()
}

/// The parameters of a new order, in the order they are sent.
pub fn order_params(
    symbol: &str,
    side: &str,
    order_type: &str,
    price: &Option<String>,
    quantity: &Option<String>,
    quote_order_qty: &Option<String>,
    client_id: &Option<String>,
    time_in_force: &Option<String>,
    stop_price: &Option<String>,
    iceberg_qty: &Option<String>,
) -> (res: Vec<(String, String)>)
    ensures
        params_view(res@) == order_params_of(
            symbol@,
            side@,
            order_type@,
            opt_str(*price),
            opt_str(*quantity),
            opt_str(*quote_order_qty),
            opt_str(*client_id),
            opt_str(*time_in_force),
            opt_str(*stop_price),
            opt_str(*iceberg_qty),
        ),
{
    let mut params: Vec<(String, String)> = Vec::new();
    push_param(&mut params, "symbol", normalize_pair(symbol).as_str());
    push_param(&mut params, "side", if str_equal(side, "SELL") { "1" } else { "0" });
    push_param(&mut params, "type", order_type_code(to_upper(order_type).as_str()).as_str());
    push_opt_param(&mut params, "price", price);
    push_opt_param(&mut params, "quantity", quantity);
    push_opt_param(&mut params, "quoteOrderQty", quote_order_qty);
    push_opt_param(&mut params, "clientId", client_id);
    push_opt_param(&mut params, "stopPrice", stop_price);
    push_opt_param(&mut params, "icebergQty", iceberg_qty);
    let tif = match time_in_force {
        Some(t) => Some(time_in_force_code(to_upper(t.as_str()).as_str())),
        None => None,
    };
    push_opt_param(&mut params, "timeInForce", &tif);
    assert(params_view(params@) =~= order_params_of(
        symbol@,
        side@,
        order_type@,
        opt_str(*price),
        opt_str(*quantity),
        opt_str(*quote_order_qty),
        opt_str(*client_id),
        opt_str(*time_in_force),
        opt_str(*stop_price),
        opt_str(*iceberg_qty),
    ));
    params
}

/// The note shown when a new order was accepted: its side and id.
pub open spec fn placed_note(side: Seq<char>, result: Json) -> Option<Seq<char>> {
    match result.get("data"@) {
        Some(d) => match d.get("orderId"@) {
            Some(id) => match id.as_i64() {
                Some(i) => Some(side + " order placed successfully! Order ID: "@ + dec_i64(i)),
                None => None,
            },
            None => None,
        },
        None => None,
    }
}

fn placed_addendum(side: &str, result: &JsonValue) -> (res: Option<String>)
    ensures
        opt_str(res) == placed_note(side@, result.deep()),
{
    match result.get("data") {
        Some(d) => match d.get("orderId") {
            Some(id) => match id.as_i64() {
                Some(i) => {
                    let mut s = side.to_owned();
                    s.append(" order placed successfully! Order ID: ");
                    s.append(i64_to_string(i).as_str());
                    Some(s)
                },
                None => None,
            },
            None => None,
        },
        None => None,
    }
}

impl OrderCommand {
    /// The request the command sends; none where a cancellation names no order.
    pub open spec fn request_of(&self) -> Option<RequestM> {
        match self {
            OrderCommand::Buy {
                pair,
                order_type,
                price,
                volume,
                quote_order_qty,
                client_id,
                time_in_force,
                stop_price,
                iceberg_qty,
            } => Some(
                request_m(
                    Method::Post,
                    Access::Signed,
                    "/open/v1/orders"@,
                    order_params_of(
                        pair@,
                        "BUY"@,
                        order_type@,
                        opt_str(*price),
                        opt_str(*volume),
                        opt_str(*quote_order_qty),
                        opt_str(*client_id),
                        opt_str(*time_in_force),
                        opt_str(*stop_price),
                        opt_str(*iceberg_qty),
                    ),
                ),
            ),
            OrderCommand::Sell {
                pair,
                order_type,
                price,
                volume,
                client_id,
                time_in_force,
                stop_price,
                iceberg_qty,
            } => Some(
                request_m(
                    Method::Post,
                    Access::Signed,
                    "/open/v1/orders"@,
                    order_params_of(
                        pair@,
                        "SELL"@,
                        order_type@,
                        opt_str(*price),
                        opt_str(*volume),
                        None,
                        opt_str(*client_id),
                        opt_str(*time_in_force),
                        opt_str(*stop_price),
                        opt_str(*iceberg_qty),
                    ),
                ),
            ),
            OrderCommand::Cancel { order_id, client_id } => if order_id is None && client_id is None {
                None
            } else {
                Some(
                    request_m(
                        Method::Post,
                        Access::Signed,
                        "/open/v1/orders/cancel"@,
                        opt_param("orderId"@, crate::api::opt_dec(*order_id)) + opt_param(
                            "clientId"@,
                            opt_str(*client_id),
                        ),
                    ),
                )
            },
            OrderCommand::Query { order_id, client_id } => Some(
                request_m(
                    Method::Get,
                    Access::Signed,
                    "/open/v1/orders/detail"@,
                    seq![("orderId"@, dec_i64(*order_id))] + opt_param(
                        "clientId"@,
                        opt_str(*client_id),
                    ),
                ),
            ),
            OrderCommand::OpenOrders { pair, count } => Some(
                request_m(
                    Method::Get,
                    Access::Signed,
                    "/open/v1/orders"@,
                    seq![
                        ("symbol"@, pair_key(pair@)),
                        ("limit"@, dec_nat(*count as nat)),
                        ("type"@, "1"@),
                    ],
                ),
            ),
            OrderCommand::AllOrders { pair, count, order_type, from_id } => Some(
                request_m(
                    Method::Get,
                    Access::Signed,
                    "/open/v1/orders"@,
                    seq![
                        ("symbol"@, pair_key(pair@)),
                        ("limit"@, dec_nat(*count as nat)),
                        ("type"@, dec_int(*order_type as int)),
                    ] + match from_id {
                        Some(f) => seq![("fromId"@, f@), ("direct"@, "next"@)],
                        None => Seq::empty(),
                    },
                ),
            ),
            OrderCommand::Oco {
                pair,
                side,
                volume,
                price,
                stop_price,
                stop_limit_price,
                list_client_id,
            } => Some(
                request_m(
                    Method::Post,
                    Access::Signed,
                    "/open/v1/orders/oco"@,
                    seq![
                        ("symbol"@, pair_key(pair@)),
                        ("side"@, oco_side(side@, upper(side@))),
                        ("quantity"@, volume@),
                        ("price"@, price@),
                        ("stopPrice"@, stop_price@),
                        ("stopLimitPrice"@, stop_limit_price@),
                    ] + opt_param("listClientId"@, opt_str(*list_client_id)),
                ),
            ),
        }
    }

    /// The label of the command's output.
    pub open spec fn label_of(&self) -> Seq<char> {
        match self {
            OrderCommand::Buy { .. } | OrderCommand::Sell { .. } => "New Order Result"@,
            OrderCommand::Cancel { .. } => "Cancel Order Result"@,
            OrderCommand::Query { order_id, .. } => dash_label("Order Info"@, dec_i64(*order_id)),
            OrderCommand::OpenOrders { pair, .. } => dash_label("Open Orders"@, pair_key(pair@)),
            OrderCommand::AllOrders { pair, .. } => dash_label("All Orders"@, pair_key(pair@)),
            OrderCommand::Oco { pair, .. } => dash_label("OCO Order"@, pair_key(pair@)),
        }
    }

    /// The addendum of the command's output for a response.
    pub open spec fn addendum_of(&self, result: Json) -> Option<Seq<char>> {
        match self {
            OrderCommand::Buy { .. } => placed_note("BUY"@, result),
            OrderCommand::Sell { .. } => placed_note("SELL"@, result),
            _ => None,
        }
    }

    /// The request the command sends; an error where it names no order.
    pub fn request(&self) -> (res: Result<ApiRequest, TokocryptoError>)
        ensures
            match res {
                Ok(r) => self.request_of() == Some(r.view_request()),
                Err(e) => self.request_of() is None && e is Validation && e->Validation_0@
                    == "Either order-id or client-id must be provided"@,
            },
    {
        match self {
            OrderCommand::Buy {
                pair,
                order_type,
                price,
                volume,
                quote_order_qty,
                client_id,
                time_in_force,
                stop_price,
                iceberg_qty,
            } => {
                let params = order_params(
                    pair.as_str(),
                    "BUY",
                    order_type.as_str(),
                    price,
                    volume,
                    quote_order_qty,
                    client_id,
                    time_in_force,
                    stop_price,
                    iceberg_qty,
                );
                Ok(ApiRequest::new(Method::Post, Access::Signed, "/open/v1/orders", params))
            },
            OrderCommand::Sell {
                pair,
                order_type,
                price,
                volume,
                client_id,
                time_in_force,
                stop_price,
                iceberg_qty,
            } => {
                let params = order_params(
                    pair.as_str(),
                    "SELL",
                    order_type.as_str(),
                    price,
                    volume,
                    &None,
                    client_id,
                    time_in_force,
                    stop_price,
                    iceberg_qty,
                );
                Ok(ApiRequest::new(Method::Post, Access::Signed, "/open/v1/orders", params))
            },
            OrderCommand::Cancel { order_id, client_id } => {
                let mut params: Vec<(String, String)> = Vec::new();
                push_opt_param(&mut params, "orderId", &crate::api::opt_i64_text(*order_id));
                push_opt_param(&mut params, "clientId", client_id);
                assert(params_view(params@).len() == params@.len());
                if params.len() == 0 {
                    return Err(
                        TokocryptoError::Validation(
                            String::from_str("Either order-id or client-id must be provided"),
                        ),
                    );
                }
                let res = ApiRequest::new(Method::Post, Access::Signed, "/open/v1/orders/cancel", params);
                assert(res.view_request().params =~= self.request_of()->0.params);
                Ok(res)
            },
            OrderCommand::Query { order_id, client_id } => {
                let mut params: Vec<(String, String)> = Vec::new();
                push_param(&mut params, "orderId", i64_to_string(*order_id).as_str());
                push_opt_param(&mut params, "clientId", client_id);
                let res = ApiRequest::new(Method::Get, Access::Signed, "/open/v1/orders/detail", params);
                assert(res.view_request().params =~= self.request_of()->0.params);
                Ok(res)
            },
            OrderCommand::OpenOrders { pair, count } => {
                let mut params: Vec<(String, String)> = Vec::new();
                push_param(&mut params, "symbol", normalize_pair(pair.as_str()).as_str());
                push_param(&mut params, "limit", u64_to_string(*count as u64).as_str());
                push_param(&mut params, "type", "1");
                let res = ApiRequest::new(Method::Get, Access::Signed, "/open/v1/orders", params);
                assert(res.view_request().params =~= self.request_of()->0.params);
                Ok(res)
            },
            OrderCommand::AllOrders { pair, count, order_type, from_id } => {
                let mut params: Vec<(String, String)> = Vec::new();
                push_param(&mut params, "symbol", normalize_pair(pair.as_str()).as_str());
                push_param(&mut params, "limit", u64_to_string(*count as u64).as_str());
                push_param(&mut params, "type", i64_to_string(*order_type as i64).as_str());
                match from_id {
                    Some(f) => {
                        push_param(&mut params, "fromId", f.as_str());
                        push_param(&mut params, "direct", "next");
                    },
                    None => {},
                }
                let res = ApiRequest::new(Method::Get, Access::Signed, "/open/v1/orders", params);
                assert(res.view_request().params =~= self.request_of()->0.params);
                Ok(res)
            },
            OrderCommand::Oco {
                pair,
                side,
                volume,
                price,
                stop_price,
                stop_limit_price,
                list_client_id,
            } => {
                let mut params: Vec<(String, String)> = Vec::new();
                push_param(&mut params, "symbol", normalize_pair(pair.as_str()).as_str());
                let code = oco_side_code(side.as_str(), to_upper(side.as_str()).as_str());
                push_param(&mut params, "side", code.as_str());
                push_param(&mut params, "quantity", volume.as_str());
                push_param(&mut params, "price", price.as_str());
                push_param(&mut params, "stopPrice", stop_price.as_str());
                push_param(&mut params, "stopLimitPrice", stop_limit_price.as_str());
                push_opt_param(&mut params, "listClientId", list_client_id);
                let res = ApiRequest::new(Method::Post, Access::Signed, "/open/v1/orders/oco", params);
                assert(res.view_request().params =~= self.request_of()->0.params);
                Ok(res)
            },
        }
    }

    /// The output the command makes of a response.
    pub fn output(&self, result: JsonValue, format: OutputFormat) -> (res: CommandOutput)
        ensures
            res.data == result,
            res.label@ == self.label_of(),
            res.headers@.len() == 0,
            res.rows@.len() == 0,
            res.format == format,
            opt_str(res.addendum) == self.addendum_of(result.deep()),
    {
        let out = match self {
            OrderCommand::Buy { .. } | OrderCommand::Sell { .. } => {
                let side = match self {
                    OrderCommand::Sell { .. } => "SELL",
                    _ => "BUY",
                };
                let note = placed_addendum(side, &result);
                let out = CommandOutput::new(result, "New Order Result");
                match note {
                    Some(n) => out.with_addendum(n.as_str()),
                    None => out,
                }
            },
            OrderCommand::Cancel { .. } => CommandOutput::new(result, "Cancel Order Result"),
            OrderCommand::Query { order_id, .. } => CommandOutput::new(
                result,
                dashed("Order Info", i64_to_string(*order_id).as_str()).as_str(),
            ),
            OrderCommand::OpenOrders { pair, .. } => CommandOutput::new(
                result,
                dashed("Open Orders", normalize_pair(pair.as_str()).as_str()).as_str(),
            ),
            OrderCommand::AllOrders { pair, .. } => CommandOutput::new(
                result,
                dashed("All Orders", normalize_pair(pair.as_str()).as_str()).as_str(),
            ),
            OrderCommand::Oco { pair, .. } => CommandOutput::new(
                result,
                dashed("OCO Order", normalize_pair(pair.as_str()).as_str()).as_str(),
            ),
        };
        out.with_format(format)
    }
}

} // verus!

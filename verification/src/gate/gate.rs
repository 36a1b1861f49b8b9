//! The paper orders of the exchange adapter: orders are not sent; a limit order stays
//! open, any other order fills at once.

use vstd::prelude::*;
use vstd::string::StringExecFns;

use crate::text::{dec_i64, i64_to_string, str_equal, to_upper, upper};

verus! {

/// The name of the exchange.
pub fn exchange_id() -> (res: &'static str)
    ensures
        res@ == "Tokocrypto"@,
{
    "Tokocrypto"
}

/// Whether an order type, in upper case, is a limit order.
pub open spec fn is_limit(type_upper: Seq<char>) -> bool {
    type_upper == "LIMIT"@
}

/// The status of a paper order: `OPEN` for a limit order, else `FILLED`.
pub open spec fn paper_status(type_upper: Seq<char>) -> Seq<char> {
    if is_limit(type_upper) {
        "OPEN"@
    } else {
        "FILLED"@
    }
}

/// The status of a paper order, given its type in upper case.
pub fn status_for(type_upper: &str) -> (res: String)
    ensures
        res@ == paper_status(type_upper@),
{
    if str_equal(type_upper, "LIMIT") {
        String::from_str("OPEN")
    } else {
        String::from_str("FILLED")
    }
}

/// The status of a paper order of the given type.
pub fn paper_order_status(order_type: &str) -> (res: String)
    ensures
        res@ == paper_status(upper(order_type@)),
{
    status_for(to_upper(order_type).as_str())
}

/// Whether a paper order of the given type fills at once (it is no limit order).
pub fn paper_order_fills(order_type: &str) -> (res: bool)
    ensures
        res == !is_limit(upper(order_type@)),
{
    !str_equal(to_upper(order_type).as_str(), "LIMIT")
}

/// The id of a paper order placed at a millisecond timestamp.
pub fn paper_order_id(timestamp_ms: i64) -> (res: String)
    ensures
        res@ == "paper-tokocrypto-"@ + dec_i64(timestamp_ms),
{
    let mut id = String::from_str("paper-tokocrypto-");
    id.append(i64_to_string(timestamp_ms).as_str());
    id
}

} // verus!

//! Properties of the requests the commands send and of the schemas and
//! tables made from commands and responses, stated by their values.

use vstd::prelude::*;

use crate::api::{Access, Method};
use crate::commands::account::AccountCommand;
use crate::commands::funding::FundingCommand;
use crate::commands::websocket::{depth_url, user_url};
use crate::commands::market::MarketCommand;
use crate::commands::trade::{OrderCommand, tif_code, type_code};
use crate::config::{CLOUDME_HOST, DEFAULT_SITE_HOST};
use crate::json::{Json, entries_get};
use crate::mcp::schema::{ArgSpec, CommandSpec, command_schema, entries_insert, key_index, schema_properties, schema_required};
use crate::output::table::{BodyM, ask_rows, auto_body, bid_rows, book_body};
use crate::pair_key;
use crate::text::upper;

verus! {

/// Whether text names an order type of the exchange's table.
pub open spec fn known_order_type(t: Seq<char>) -> bool {
    t == "LIMIT"@ || t == "MARKET"@ || t == "STOP_LOSS"@ || t == "STOP_LOSS_LIMIT"@ || t
        == "TAKE_PROFIT"@ || t == "TAKE_PROFIT_LIMIT"@ || t == "LIMIT_MAKER"@
}

/// The exchange's table of order-type codes: LIMIT 1, MARKET 2, STOP_LOSS 3,
/// STOP_LOSS_LIMIT 4, TAKE_PROFIT 5, TAKE_PROFIT_LIMIT 6, LIMIT_MAKER 7; any
/// other text is sent as given. Distinct order types of the table never
/// share a code, and a code of the table is never the name of a type.
pub proof fn law_order_type_codes(t: Seq<char>, u: Seq<char>)
    ensures
        type_code("LIMIT"@) == "1"@,
        type_code("MARKET"@) == "2"@,
        type_code("STOP_LOSS"@) == "3"@,
        type_code("STOP_LOSS_LIMIT"@) == "4"@,
        type_code("TAKE_PROFIT"@) == "5"@,
        type_code("TAKE_PROFIT_LIMIT"@) == "6"@,
        type_code("LIMIT_MAKER"@) == "7"@,
        !known_order_type(t) ==> type_code(t) == t,
        known_order_type(t) ==> type_code(t).len() == 1,
        known_order_type(t) && known_order_type(u) && t != u ==> type_code(t) != type_code(u),
{
    reveal_strlit("LIMIT");
    reveal_strlit("MARKET");
    reveal_strlit("STOP_LOSS");
    reveal_strlit("STOP_LOSS_LIMIT");
    reveal_strlit("TAKE_PROFIT");
    reveal_strlit("TAKE_PROFIT_LIMIT");
    reveal_strlit("LIMIT_MAKER");
    reveal_strlit("1");
    reveal_strlit("2");
    reveal_strlit("3");
    reveal_strlit("4");
    reveal_strlit("5");
    reveal_strlit("6");
    reveal_strlit("7");
    assert("LIMIT"@.len() == 5);
    assert("MARKET"@.len() == 6);
    assert("STOP_LOSS"@.len() == 9);
    assert("STOP_LOSS_LIMIT"@.len() == 15);
    assert("TAKE_PROFIT"@.len() == 11);
    assert("TAKE_PROFIT_LIMIT"@.len() == 17);
    assert("LIMIT_MAKER"@.len() == 11);
    assert("LIMIT_MAKER"@[0] != "TAKE_PROFIT"@[0]);
    assert("1"@[0] != "2"@[0]);
    assert("1"@[0] != "3"@[0]);
    assert("1"@[0] != "4"@[0]);
    assert("1"@[0] != "5"@[0]);
    assert("1"@[0] != "6"@[0]);
    assert("1"@[0] != "7"@[0]);
    assert("2"@[0] != "3"@[0]);
    assert("2"@[0] != "4"@[0]);
    assert("2"@[0] != "5"@[0]);
    assert("2"@[0] != "6"@[0]);
    assert("2"@[0] != "7"@[0]);
    assert("3"@[0] != "4"@[0]);
    assert("3"@[0] != "5"@[0]);
    assert("3"@[0] != "6"@[0]);
    assert("3"@[0] != "7"@[0]);
    assert("4"@[0] != "5"@[0]);
    assert("4"@[0] != "6"@[0]);
    assert("4"@[0] != "7"@[0]);
    assert("5"@[0] != "6"@[0]);
    assert("5"@[0] != "7"@[0]);
    assert("6"@[0] != "7"@[0]);
}

/// The exchange's table of time-in-force codes: GTC 1, IOC 2, FOK 3, GTX 4;
/// any other text is sent as given.
pub proof fn law_time_in_force_codes(t: Seq<char>)
    ensures
        tif_code("GTC"@) == "1"@,
        tif_code("IOC"@) == "2"@,
        tif_code("FOK"@) == "3"@,
        tif_code("GTX"@) == "4"@,
        !(t == "GTC"@ || t == "IOC"@ || t == "FOK"@ || t == "GTX"@) ==> tif_code(t) == t,
{
    reveal_strlit("GTC");
    reveal_strlit("IOC");
    reveal_strlit("FOK");
    reveal_strlit("GTX");
    assert("GTC"@[0] != "IOC"@[0]);
    assert("GTC"@[0] != "FOK"@[0]);
    assert("GTC"@[2] != "GTX"@[2]);
    assert("IOC"@[0] != "FOK"@[0]);
}

/// A new order is a signed POST to `/open/v1/orders` whose first parameters
/// are the normalized pair, the side (0 to buy, 1 to sell) and the code of
/// its order type, taken in upper case.
pub proof fn law_new_order_parameters(cmd: OrderCommand)
    requires
        cmd is Buy || cmd is Sell,
    ensures
        ({
            let (pair, order_type, side) = match cmd {
                OrderCommand::Buy { pair, order_type, .. } => (pair@, order_type@, "0"@),
                OrderCommand::Sell { pair, order_type, .. } => (pair@, order_type@, "1"@),
                _ => (Seq::empty(), Seq::empty(), Seq::empty()),
            };
            &&& cmd.request_of() is Some
            &&& cmd.request_of()->0.method == Method::Post
            &&& cmd.request_of()->0.access == Access::Signed
            &&& cmd.request_of()->0.endpoint == "/open/v1/orders"@
            &&& cmd.request_of()->0.params.len() >= 3
            &&& cmd.request_of()->0.params[0] == ("symbol"@, pair_key(pair))
            &&& cmd.request_of()->0.params[1] == ("side"@, side)
            &&& cmd.request_of()->0.params[2] == ("type"@, type_code(upper(order_type)))
        }),
{
    reveal_strlit("SELL");
    reveal_strlit("BUY");
    assert("BUY"@.len() != "SELL"@.len());
}

/// The endpoint of a market query over a symbol: for a main symbol (type 1,
/// as given or else as detected) the site host's v3 path named after the
/// query; else the Nextme host's v1 path, or for recent trades the main
/// host's public trades path.
pub proof fn law_market_endpoints(cmd: MarketCommand, detected: u32)
    ensures
        ({
            let r = cmd.request_of(detected);
            let main = |given: Option<u32>|
                match given {
                    Some(t) => t == 1,
                    None => detected == 1,
                };
            &&& r.method == Method::Get
            &&& r.access == Access::Public
            &&& (cmd matches MarketCommand::Depth { symbol_type, .. } ==> r.endpoint == if main(
                symbol_type,
            ) {
                DEFAULT_SITE_HOST@ + "/api/v3/depth"@
            } else {
                CLOUDME_HOST@ + "/api/v1/depth"@
            })
            &&& (cmd matches MarketCommand::Trades { symbol_type, .. } ==> r.endpoint == if main(
                symbol_type,
            ) {
                DEFAULT_SITE_HOST@ + "/api/v3/trades"@
            } else {
                "/open/v1/market/trades"@
            })
            &&& (cmd matches MarketCommand::AggTrades { symbol_type, .. } ==> r.endpoint == if main(
                symbol_type,
            ) {
                DEFAULT_SITE_HOST@ + "/api/v3/aggTrades"@
            } else {
                CLOUDME_HOST@ + "/api/v1/aggTrades"@
            })
            &&& (cmd matches MarketCommand::Klines { symbol_type, .. } ==> r.endpoint == if main(
                symbol_type,
            ) {
                DEFAULT_SITE_HOST@ + "/api/v3/klines"@
            } else {
                CLOUDME_HOST@ + "/api/v1/klines"@
            })
            &&& (cmd is ExecutionRules ==> r.endpoint == DEFAULT_SITE_HOST@
                + "/api/v3/executionRules"@)
            &&& (cmd is Ping || cmd is ServerTime ==> r.endpoint == "/open/v1/common/time"@)
            &&& (cmd is Symbols ==> r.endpoint == "/open/v1/common/symbols"@)
        }),
{
}

/// The four market queries over a symbol go to four different endpoints on
/// either host: recent trades are never fetched from the aggregate-trades
/// endpoint, nor depth or klines from another query's.
pub proof fn law_market_endpoints_distinct()
    ensures
        ({
            let site = seq![
                DEFAULT_SITE_HOST@ + "/api/v3/depth"@,
                DEFAULT_SITE_HOST@ + "/api/v3/trades"@,
                DEFAULT_SITE_HOST@ + "/api/v3/aggTrades"@,
                DEFAULT_SITE_HOST@ + "/api/v3/klines"@,
            ];
            let other = seq![
                CLOUDME_HOST@ + "/api/v1/depth"@,
                "/open/v1/market/trades"@,
                CLOUDME_HOST@ + "/api/v1/aggTrades"@,
                CLOUDME_HOST@ + "/api/v1/klines"@,
            ];
            forall|i: int, j: int|
                0 <= i < 4 && 0 <= j < 4 && i != j ==> site[i] != site[j] && other[i] != other[j]
        }),
{
    reveal_strlit("https://www.tokocrypto.site");
    reveal_strlit("https://cloudme-toko.2meta.app");
    reveal_strlit("/api/v3/depth");
    reveal_strlit("/api/v3/trades");
    reveal_strlit("/api/v3/aggTrades");
    reveal_strlit("/api/v3/klines");
    reveal_strlit("/api/v1/depth");
    reveal_strlit("/api/v1/aggTrades");
    reveal_strlit("/api/v1/klines");
    reveal_strlit("/open/v1/market/trades");
    let h = DEFAULT_SITE_HOST@;
    let c = CLOUDME_HOST@;
    // Same lengths are told apart by a character after the host.
    assert((h + "/api/v3/depth"@)[h.len() as int + 8] != (h + "/api/v3/trades"@)[h.len() as int + 8]);
    assert((h + "/api/v3/depth"@)[h.len() as int + 8] != (h + "/api/v3/klines"@)[h.len() as int + 8]);
    assert((h + "/api/v3/trades"@)[h.len() as int + 8] != (h + "/api/v3/klines"@)[h.len() as int + 8]);
    assert((c + "/api/v1/depth"@)[c.len() as int + 8] != (c + "/api/v1/klines"@)[c.len() as int + 8]);
    // The public trades path is not on the Nextme host.
    assert((c + "/api/v1/depth"@)[0] != "/open/v1/market/trades"@[0]);
    assert((c + "/api/v1/aggTrades"@)[0] != "/open/v1/market/trades"@[0]);
    assert((c + "/api/v1/klines"@)[0] != "/open/v1/market/trades"@[0]);
    assert((c + "/api/v1/depth"@).len() != (c + "/api/v1/aggTrades"@).len());
    assert((c + "/api/v1/klines"@).len() != (c + "/api/v1/aggTrades"@).len());
    assert((h + "/api/v3/depth"@).len() != (h + "/api/v3/aggTrades"@).len());
    assert((h + "/api/v3/trades"@).len() != (h + "/api/v3/aggTrades"@).len());
    assert((h + "/api/v3/klines"@).len() != (h + "/api/v3/aggTrades"@).len());
}

/// Funding requests: a withdrawal is a signed POST to `/open/v1/withdraws`;
/// withdraw history is a signed GET of that same endpoint; deposit history
/// a signed GET of `/open/v1/deposits`; a deposit address a signed GET of
/// `/open/v1/deposits/address`. Withdraw history never reads deposits.
pub proof fn law_funding_endpoints(cmd: FundingCommand)
    ensures
        cmd.request_of().access == Access::Signed,
        cmd is Withdraw ==> cmd.request_of().method == Method::Post && cmd.request_of().endpoint
            == "/open/v1/withdraws"@,
        cmd is WithdrawHistory ==> cmd.request_of().method == Method::Get
            && cmd.request_of().endpoint == "/open/v1/withdraws"@,
        cmd is DepositHistory ==> cmd.request_of().method == Method::Get
            && cmd.request_of().endpoint == "/open/v1/deposits"@,
        cmd is DepositAddress ==> cmd.request_of().method == Method::Get
            && cmd.request_of().endpoint == "/open/v1/deposits/address"@,
        "/open/v1/withdraws"@ != "/open/v1/deposits"@,
        "/open/v1/deposits"@ != "/open/v1/deposits/address"@,
{
    reveal_strlit("/open/v1/withdraws");
    reveal_strlit("/open/v1/deposits");
    reveal_strlit("/open/v1/deposits/address");
    assert("/open/v1/withdraws"@[9] != "/open/v1/deposits"@[9]);
    assert("/open/v1/deposits"@.len() != "/open/v1/deposits/address"@.len());
}

/// Whether an argument with the id is one the schema describes: some
/// argument other than help and version has it.
pub open spec fn described(args: Seq<ArgSpec>, id: Seq<char>) -> bool {
    id != "help"@ && id != "version"@ && exists|j: int| 0 <= j < args.len() && (#[trigger] args[j]).id@ == id
}

/// Whether an argument with the id is described and marked required.
pub open spec fn required_arg(args: Seq<ArgSpec>, id: Seq<char>) -> bool {
    id != "help"@ && id != "version"@ && exists|j: int|
        0 <= j < args.len() && (#[trigger] args[j]).id@ == id && args[j].required
}

proof fn lemma_required_ids(args: Seq<ArgSpec>, id: Seq<char>)
    ensures
        schema_required(args).contains(id) <==> required_arg(args, id),
    decreases args.len(),
{
    if args.len() > 0 {
        let d = args.drop_last();
        lemma_required_ids(d, id);
        assert forall|j: int| 0 <= j < d.len() implies #[trigger] d[j] == args[j] by {}
        if required_arg(args, id) && !required_arg(d, id) {
            let j = choose|j: int| 0 <= j < args.len() && (#[trigger] args[j]).id@ == id && args[j].required;
            if j < args.len() - 1 {
                assert(d[j].id@ == id && d[j].required);
                assert(required_arg(d, id));
            }
            assert(schema_required(args) == schema_required(d).push(id));
            assert(schema_required(args).last() == id);
        }
        if required_arg(d, id) {
            let j = choose|j: int| 0 <= j < d.len() && (#[trigger] d[j]).id@ == id && d[j].required;
            assert(args[j] == d[j]);
            let k = choose|k: int| 0 <= k < schema_required(d).len() && schema_required(d)[k] == id;
            let a = args.last();
            if !(a.id@ == "help"@ || a.id@ == "version"@) && a.required {
                assert(schema_required(args)[k] == id);
            }
        }
        if schema_required(args).contains(id) && !schema_required(d).contains(id) {
            let a = args.last();
            let k = choose|k: int| 0 <= k < schema_required(args).len() && schema_required(args)[k] == id;
            assert(!(a.id@ == "help"@ || a.id@ == "version"@) && a.required);
            assert(k == schema_required(d).len());
            assert(args[args.len() - 1].id@ == id);
        }
    }
}

proof fn lemma_key_index_found(e: Seq<(Seq<char>, Json)>, key: Seq<char>)
    ensures
        match key_index(e, key) {
            Some(i) => 0 <= i < e.len() && e[i].0 == key,
            None => forall|i: int| 0 <= i < e.len() ==> (#[trigger] e[i]).0 != key,
        },
    decreases e.len(),
{
    if e.len() > 0 {
        let d = e.drop_last();
        lemma_key_index_found(d, key);
        match key_index(e, key) {
            Some(i) => {
                if i < d.len() {
                    assert(d[i] == e[i]);
                }
            },
            None => {
                assert forall|i: int| 0 <= i < e.len() implies (#[trigger] e[i]).0 != key by {
                    if i < d.len() {
                        assert(d[i] == e[i]);
                    }
                }
            },
        }
    }
}

proof fn lemma_entries_get_some(e: Seq<(Seq<char>, Json)>, key: Seq<char>)
    ensures
        entries_get(e, key) is Some <==> exists|i: int| 0 <= i < e.len() && (#[trigger] e[i]).0 == key,
    decreases e.len(),
{
    if e.len() > 0 {
        let d = e.drop_first();
        lemma_entries_get_some(d, key);
        if exists|i: int| 0 <= i < d.len() && (#[trigger] d[i]).0 == key {
            let i = choose|i: int| 0 <= i < d.len() && (#[trigger] d[i]).0 == key;
            assert(e[i + 1] == d[i]);
        }
        if exists|i: int| 0 <= i < e.len() && (#[trigger] e[i]).0 == key {
            let i = choose|i: int| 0 <= i < e.len() && (#[trigger] e[i]).0 == key;
            if i > 0 {
                assert(d[i - 1] == e[i]);
            }
        }
    }
}

proof fn lemma_property_keys(args: Seq<ArgSpec>, id: Seq<char>)
    ensures
        (exists|i: int| 0 <= i < schema_properties(args).len() && (#[trigger] schema_properties(args)[i]).0 == id)
            <==> described(args, id),
    decreases args.len(),
{
    if args.len() > 0 {
        let d = args.drop_last();
        let a = args.last();
        lemma_property_keys(d, id);
        assert forall|j: int| 0 <= j < d.len() implies #[trigger] d[j] == args[j] by {}
        let prev = schema_properties(d);
        let cur = schema_properties(args);
        if !(a.id@ == "help"@ || a.id@ == "version"@) {
            lemma_key_index_found(prev, a.id@);
            assert(cur == entries_insert(prev, a.id@, crate::mcp::schema::arg_schema(a)));
            match key_index(prev, a.id@) {
                Some(k) => {
                    assert(cur == prev.update(k, (a.id@, crate::mcp::schema::arg_schema(a))));
                    if exists|i: int| 0 <= i < prev.len() && (#[trigger] prev[i]).0 == id {
                        let i = choose|i: int| 0 <= i < prev.len() && (#[trigger] prev[i]).0 == id;
                        assert(cur[i].0 == id);
                    }
                    if exists|i: int| 0 <= i < cur.len() && (#[trigger] cur[i]).0 == id {
                        let i = choose|i: int| 0 <= i < cur.len() && (#[trigger] cur[i]).0 == id;
                        assert(prev[i].0 == id);
                    }
                },
                None => {
                    assert(cur == prev.push((a.id@, crate::mcp::schema::arg_schema(a))));
                    if exists|i: int| 0 <= i < prev.len() && (#[trigger] prev[i]).0 == id {
                        let i = choose|i: int| 0 <= i < prev.len() && (#[trigger] prev[i]).0 == id;
                        assert(cur[i].0 == id);
                    }
                    if exists|i: int| 0 <= i < cur.len() && (#[trigger] cur[i]).0 == id {
                        let i = choose|i: int| 0 <= i < cur.len() && (#[trigger] cur[i]).0 == id;
                        if i < prev.len() {
                            assert(prev[i].0 == id);
                        }
                    }
                    if a.id@ == id {
                        assert(cur[prev.len() as int].0 == id);
                    }
                },
            }
            if described(args, id) && !described(d, id) {
                let j = choose|j: int| 0 <= j < args.len() && (#[trigger] args[j]).id@ == id;
                if j < args.len() - 1 {
                    assert(d[j].id@ == id);
                    assert(described(d, id));
                }
            }
            if described(d, id) {
                let j = choose|j: int| 0 <= j < d.len() && (#[trigger] d[j]).id@ == id;
                assert(args[j].id@ == id);
            }
        } else {
            if described(args, id) {
                let j = choose|j: int| 0 <= j < args.len() && (#[trigger] args[j]).id@ == id;
                if j == args.len() - 1 {
                    assert(false);
                }
                assert(d[j].id@ == id);
            }
            if described(d, id) {
                let j = choose|j: int| 0 <= j < d.len() && (#[trigger] d[j]).id@ == id;
                assert(args[j].id@ == id);
            }
        }
    }
}

/// A command's schema is an object schema. Its `properties` hold a key for
/// exactly the argument ids other than help and version; its `required`
/// array holds strings, and an id is in it exactly where an argument with
/// that id (other than help and version) is marked required. So an
/// optional argument, whether or not it takes a value, is described but
/// not required.
pub proof fn law_schema_required(cmd: CommandSpec, id: Seq<char>)
    ensures
        command_schema(cmd).at("type"@) == Json::Str("object"@),
        command_schema(cmd).at("properties"@) is Obj,
        command_schema(cmd).at("required"@) is Arr,
        forall|i: int|
            0 <= i < command_schema(cmd).at("required"@)->Arr_0.len() ==> (#[trigger] command_schema(
                cmd,
            ).at("required"@)->Arr_0[i]) is Str,
        command_schema(cmd).at("required"@)->Arr_0.contains(Json::Str(id)) <==> required_arg(
            cmd.args@,
            id,
        ),
        entries_get(command_schema(cmd).at("properties"@)->Obj_0, id) is Some <==> described(
            cmd.args@,
            id,
        ),
{
    reveal_strlit("type");
    reveal_strlit("properties");
    reveal_strlit("required");
    assert("type"@.len() != "required"@.len());
    assert("type"@.len() != "properties"@.len());
    assert("properties"@.len() != "required"@.len());
    let e = command_schema(cmd)->Obj_0;
    assert(e.drop_first() =~= seq![e[1], e[2]]);
    assert(e.drop_first().drop_first() =~= seq![e[2]]);
    assert(entries_get(e.drop_first().drop_first(), "required"@) == Some(e[2].1));
    assert(entries_get(e.drop_first(), "required"@) == Some(e[2].1));
    assert(entries_get(e, "required"@) == Some(e[2].1));
    assert(entries_get(e.drop_first(), "properties"@) == Some(e[1].1));
    assert(entries_get(e, "properties"@) == Some(e[1].1));
    let req = schema_required(cmd.args@);
    let arr = req.map_values(|s: Seq<char>| Json::Str(s));
    assert(command_schema(cmd).at("required"@) == Json::Arr(arr));
    assert(command_schema(cmd).at("properties"@) == Json::Obj(schema_properties(cmd.args@)));
    lemma_required_ids(cmd.args@, id);
    if req.contains(id) {
        let k = choose|k: int| 0 <= k < req.len() && req[k] == id;
        assert(arr[k] == Json::Str(id));
    }
    if arr.contains(Json::Str(id)) {
        let k = choose|k: int| 0 <= k < arr.len() && arr[k] == Json::Str(id);
        assert(req[k] == id);
    }
    lemma_entries_get_some(schema_properties(cmd.args@), id);
    lemma_property_keys(cmd.args@, id);
}

/// The asset, free and locked text of a balance entry: each string field
/// as it is, else `?` for the asset and `0` for the amounts.
pub open spec fn balance_fields(item: Json) -> (Seq<char>, Seq<char>, Seq<char>) {
    (
        match item.at("asset"@) {
            Json::Str(s) => s,
            _ => "?"@,
        },
        match item.at("free"@) {
            Json::Str(s) => s,
            _ => "0"@,
        },
        match item.at("locked"@) {
            Json::Str(s) => s,
            _ => "0"@,
        },
    )
}

/// An object without `data` whose `balances`, or else whose
/// `accountAssets`, is an array is shown as a balances table with one
/// (asset, free, locked) row per entry of that array, in order.
pub proof fn law_balances_are_tabled(label: Seq<char>, v: Json)
    requires
        v is Obj,
        v.get("data"@) is None,
        v.at("balances"@) is Arr || v.at("accountAssets"@) is Arr,
    ensures
        ({
            let items = if v.at("balances"@) is Arr {
                v.at("balances"@)->Arr_0
            } else {
                v.at("accountAssets"@)->Arr_0
            };
            &&& auto_body(label, v) is Balances
            &&& auto_body(label, v)->Balances_0.len() == items.len()
            &&& forall|i: int|
                0 <= i < items.len() ==> (#[trigger] auto_body(label, v)->Balances_0[i])
                    == balance_fields(items[i])
        }),
{
}

/// The order requests other than new orders: a cancellation is a signed
/// POST to `/open/v1/orders/cancel` and is refused where it names neither an
/// order id nor a client id; a query is a signed GET of
/// `/open/v1/orders/detail`; open and all orders are signed GETs of
/// `/open/v1/orders` (open orders with type 1); an OCO order is a signed
/// POST to `/open/v1/orders/oco` whose side is 0 for buy and 1 for sell, in
/// any case.
pub proof fn law_order_requests(cmd: OrderCommand)
    ensures
        cmd.request_of() matches Some(r) ==> r.access == Access::Signed,
        cmd matches OrderCommand::Cancel { order_id, client_id } ==> (cmd.request_of() is None
            <==> order_id is None && client_id is None),
        cmd is Cancel && cmd.request_of() is Some ==> cmd.request_of()->0.method == Method::Post
            && cmd.request_of()->0.endpoint == "/open/v1/orders/cancel"@,
        cmd is Query ==> cmd.request_of() is Some && cmd.request_of()->0.method == Method::Get
            && cmd.request_of()->0.endpoint == "/open/v1/orders/detail"@,
        cmd is OpenOrders ==> cmd.request_of() is Some && cmd.request_of()->0.method == Method::Get
            && cmd.request_of()->0.endpoint == "/open/v1/orders"@ && cmd.request_of()->0.params[2]
            == ("type"@, "1"@),
        cmd is AllOrders ==> cmd.request_of() is Some && cmd.request_of()->0.method == Method::Get
            && cmd.request_of()->0.endpoint == "/open/v1/orders"@,
        cmd matches OrderCommand::Oco { side, .. } ==> cmd.request_of() is Some
            && cmd.request_of()->0.method == Method::Post && cmd.request_of()->0.endpoint
            == "/open/v1/orders/oco"@ && (upper(side@) == "BUY"@ ==> cmd.request_of()->0.params[1]
            == ("side"@, "0"@)) && (upper(side@) == "SELL"@ ==> cmd.request_of()->0.params[1] == (
            "side"@,
            "1"@,
        )),
{
    reveal_strlit("BUY");
    reveal_strlit("SELL");
    assert("BUY"@.len() != "SELL"@.len());
}

/// Account requests are signed GETs: details and balances of
/// `/open/v1/account/spot`, one asset (named in upper case) of
/// `/open/v1/account/spot/asset`, and trade history of
/// `/open/v1/orders/trades`.
pub proof fn law_account_requests(cmd: AccountCommand)
    ensures
        cmd.request_of().method == Method::Get,
        cmd.request_of().access == Access::Signed,
        cmd is Info || cmd is Balance ==> cmd.request_of().endpoint == "/open/v1/account/spot"@,
        cmd matches AccountCommand::Assets { asset } ==> cmd.request_of().endpoint
            == "/open/v1/account/spot/asset"@ && cmd.request_of().params == seq![
            ("asset"@, upper(asset@)),
        ],
        cmd is Trades ==> cmd.request_of().endpoint == "/open/v1/orders/trades"@,
{
}

/// The stream hosts: depth streams of main symbols (type 1) on the cloud
/// stream host, of Next symbols (type 2) on the main host, of others on the
/// Nextme stream host, each ending in `@depth`; private streams on the
/// Nextme stream host for type 3, else on the cloud stream host, ending in
/// the listen key.
pub proof fn law_stream_hosts(symbol: Seq<char>, sym_type: u32, listen_key: Seq<char>)
    ensures
        ({
            let cloud = "wss://stream-cloud.tokocrypto.site/ws/"@;
            let main = "wss://www.tokocrypto.com/ws/"@;
            let toko = "wss://stream-toko.2meta.app/ws/"@;
            let host = if sym_type == 1 {
                cloud
            } else if sym_type == 2 {
                main
            } else {
                toko
            };
            let d = depth_url(symbol, sym_type);
            let u = user_url(listen_key, sym_type);
            let uhost = if sym_type == 3 {
                toko
            } else {
                cloud
            };
            &&& d.len() >= host.len() + 6
            &&& d.subrange(0, host.len() as int) == host
            &&& d.subrange(d.len() - 6, d.len() as int) == "@depth"@
            &&& u == uhost + listen_key
        }),
{
    reveal_strlit("@depth");
    let cloud = "wss://stream-cloud.tokocrypto.site/ws/"@;
    let main = "wss://www.tokocrypto.com/ws/"@;
    let toko = "wss://stream-toko.2meta.app/ws/"@;
    let d = depth_url(symbol, sym_type);
    let host = if sym_type == 1 {
        cloud
    } else if sym_type == 2 {
        main
    } else {
        toko
    };
    let name = if sym_type == 2 {
        crate::text::lower(symbol)
    } else {
        crate::text::lower(crate::text::without_chars(symbol, seq!['_']))
    };
    assert(d == host + name + "@depth"@);
    assert(d.subrange(0, host.len() as int) =~= host);
    assert(d.subrange(d.len() - 6, d.len() as int) =~= "@depth"@);
}

/// The price and quantity text of an order-book level that is an array:
/// each of its first two values where it is a string, else `?`.
pub open spec fn level_fields(a: Seq<Json>) -> (Seq<char>, Seq<char>) {
    (
        if a.len() > 0 && a[0] is Str {
            a[0]->Str_0
        } else {
            "?"@
        },
        if a.len() > 1 && a[1] is Str {
            a[1]->Str_0
        } else {
            "?"@
        },
    )
}

proof fn lemma_all_asks_kept(levels: Seq<Json>)
    requires
        forall|i: int| 0 <= i < levels.len() ==> (#[trigger] levels[i]) is Arr && levels[i]->Arr_0.len() >= 2,
    ensures
        ask_rows(levels).len() == levels.len(),
        forall|i: int| 0 <= i < levels.len() ==> (#[trigger] ask_rows(levels)[i]) == level_fields(
            levels[i]->Arr_0,
        ),
    decreases levels.len(),
{
    if levels.len() > 0 {
        let d = levels.drop_last();
        assert forall|i: int| 0 <= i < d.len() implies (#[trigger] d[i]) is Arr && d[i]->Arr_0.len() >= 2 by {
            assert(d[i] == levels[i]);
        }
        lemma_all_asks_kept(d);
        assert forall|i: int| 0 <= i < levels.len() implies (#[trigger] ask_rows(levels)[i]) == level_fields(
            levels[i]->Arr_0,
        ) by {
            if i < d.len() {
                assert(d[i] == levels[i]);
                assert(ask_rows(levels)[i] == ask_rows(d)[i]);
            }
        }
    }
}

proof fn lemma_all_bids_kept(levels: Seq<Json>)
    requires
        forall|i: int| 0 <= i < levels.len() ==> (#[trigger] levels[i]) is Arr,
    ensures
        bid_rows(levels).len() == levels.len(),
        forall|i: int| 0 <= i < levels.len() ==> (#[trigger] bid_rows(levels)[i]) == level_fields(
            levels[i]->Arr_0,
        ),
    decreases levels.len(),
{
    if levels.len() > 0 {
        let d = levels.drop_last();
        assert forall|i: int| 0 <= i < d.len() implies (#[trigger] d[i]) is Arr by {
            assert(d[i] == levels[i]);
        }
        lemma_all_bids_kept(d);
        assert forall|i: int| 0 <= i < levels.len() implies (#[trigger] bid_rows(levels)[i]) == level_fields(
            levels[i]->Arr_0,
        ) by {
            if i < d.len() {
                assert(d[i] == levels[i]);
                assert(bid_rows(levels)[i] == bid_rows(d)[i]);
            }
        }
    }
}

/// An order book whose ask and bid levels are all arrays of price and
/// quantity shows the asks from the last given to the first (highest price
/// first, as the exchange lists them lowest first), then the bids in the
/// order given, one row per level.
pub proof fn law_order_book_rows(asks: Seq<Json>, bids: Seq<Json>)
    requires
        forall|i: int| 0 <= i < asks.len() ==> (#[trigger] asks[i]) is Arr && asks[i]->Arr_0.len() >= 2,
        forall|i: int| 0 <= i < bids.len() ==> (#[trigger] bids[i]) is Arr,
    ensures
        ({
            let b = book_body(Json::Obj(seq![("asks"@, Json::Arr(asks)), ("bids"@, Json::Arr(bids))]));
            &&& b is Orderbook
            &&& b->asks.len() == asks.len()
            &&& b->bids.len() == bids.len()
            &&& forall|i: int| 0 <= i < asks.len() ==> (#[trigger] b->asks[i]) == level_fields(
                asks[asks.len() - 1 - i]->Arr_0,
            )
            &&& forall|i: int| 0 <= i < bids.len() ==> (#[trigger] b->bids[i]) == level_fields(
                bids[i]->Arr_0,
            )
        }),
{
    reveal_strlit("asks");
    reveal_strlit("bids");
    reveal_strlit("data");
    assert("asks"@[0] != "bids"@[0]);
    assert("data"@[0] != "asks"@[0]);
    assert("data"@[0] != "bids"@[0]);
    let v = Json::Obj(seq![("asks"@, Json::Arr(asks)), ("bids"@, Json::Arr(bids))]);
    let e = v->Obj_0;
    assert(e.drop_first() =~= seq![e[1]]);
    assert(e.drop_first().drop_first() =~= Seq::<(Seq<char>, Json)>::empty());
    assert(entries_get(e.drop_first().drop_first(), "data"@) is None);
    assert(entries_get(e.drop_first(), "data"@) is None);
    assert(v.get("data"@) is None);
    assert(entries_get(e.drop_first(), "bids"@) == Some(Json::Arr(bids)));
    assert(v.at("bids"@) == Json::Arr(bids));
    assert(v.at("asks"@) == Json::Arr(asks));
    lemma_all_asks_kept(asks);
    lemma_all_bids_kept(bids);
    let b = book_body(v);
    assert forall|i: int| 0 <= i < asks.len() implies (#[trigger] b->asks[i]) == level_fields(
        asks[asks.len() - 1 - i]->Arr_0,
    ) by {
        assert(b->asks[i] == ask_rows(asks)[asks.len() - 1 - i]);
    }
}

} // verus!

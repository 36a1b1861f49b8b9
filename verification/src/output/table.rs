//! The layout of human-readable output: which table a JSON response becomes
//! and the cells of its rows. Drawing the table is left to the caller.

use vstd::prelude::*;
use vstd::string::StringExecFns;

use crate::json::{Json, JsonValue, entries_deep, values_deep};
use crate::text::{dec_nat, u64_to_string};

verus! {

/// A table cell: text, or a JSON value to be printed as compact JSON.
#[derive(Debug, PartialEq)]
pub enum Cell {
    Text(String),
    Compact(JsonValue),
}

/// The model of a cell.
pub enum CellM {
    Text(Seq<char>),
    Compact(Json),
}

/// The table (or text) that output is shown as.
#[derive(Debug, PartialEq)]
pub enum Body {
    /// Explicit headers and rows, under an optional title.
    Grid { title: Option<String>, headers: Vec<String>, rows: Vec<Vec<String>> },
    /// An array of objects: one column per key of the first object.
    Records { headers: Vec<String>, records: Vec<Vec<Cell>> },
    /// The fields of an object, one row per field, under an optional title.
    Fields { title: Option<String>, fields: Vec<(String, Cell)> },
    /// Asset balances: asset, free and locked amount of each entry.
    Balances(Vec<(String, String, String)>),
    /// An order book: asks from the highest price down, then bids.
    Orderbook { asks: Vec<(String, String)>, bids: Vec<(String, String)> },
    /// The value printed as pretty JSON.
    Pretty(JsonValue),
}

/// The model of a body.
pub enum BodyM {
    Grid { title: Option<Seq<char>>, headers: Seq<Seq<char>>, rows: Seq<Seq<Seq<char>>> },
    Records { headers: Seq<Seq<char>>, records: Seq<Seq<CellM>> },
    Fields { title: Option<Seq<char>>, fields: Seq<(Seq<char>, CellM)> },
    Balances(Seq<(Seq<char>, Seq<char>, Seq<char>)>),
    Orderbook { asks: Seq<(Seq<char>, Seq<char>)>, bids: Seq<(Seq<char>, Seq<char>)> },
    Pretty(Json),
}

pub open spec fn strs(v: Seq<String>) -> Seq<Seq<char>> {
    v.map_values(|s: String| s@)
}

pub open spec fn opt_str(o: Option<String>) -> Option<Seq<char>> {
    match o {
        Some(s) => Some(s@),
        None => None,
    }
}

pub open spec fn pairs_view(v: Seq<(String, String)>) -> Seq<(Seq<char>, Seq<char>)> {
    v.map_values(|p: (String, String)| (p.0@, p.1@))
}

impl Cell {
    pub open spec fn view_cell(&self) -> CellM {
        match self {
            Cell::Text(s) => CellM::Text(s@),
            Cell::Compact(v) => CellM::Compact(v.deep()),
        }
    }
}

impl Body {
    pub open spec fn view_body(&self) -> BodyM {
        match self {
            Body::Grid { title, headers, rows } => BodyM::Grid {
                title: opt_str(*title),
                headers: strs(headers@),
                rows: rows@.map_values(|r: Vec<String>| strs(r@)),
            },
            Body::Records { headers, records } => BodyM::Records {
                headers: strs(headers@),
                records: records@.map_values(|r: Vec<Cell>| r@.map_values(|c: Cell| c.view_cell())),
            },
            Body::Fields { title, fields } => BodyM::Fields {
                title: opt_str(*title),
                fields: fields@.map_values(|p: (String, Cell)| (p.0@, p.1.view_cell())),
            },
            Body::Balances(rows) => BodyM::Balances(
                rows@.map_values(|r: (String, String, String)| (r.0@, r.1@, r.2@)),
            ),
            Body::Orderbook { asks, bids } => BodyM::Orderbook {
                asks: pairs_view(asks@),
                bids: pairs_view(bids@),
            },
            Body::Pretty(v) => BodyM::Pretty(v.deep()),
        }
    }
}

/// How one value reads in a cell.
pub open spec fn cell_of(v: Json) -> CellM {
    match v {
        Json::Null => CellM::Text("—"@),
        Json::Bool(b) => CellM::Text(
            if b {
                "✓"@
            } else {
                "✗"@
            },
        ),
        Json::Str(s) => CellM::Text(s),
        Json::Num(n) => CellM::Text(n.text()),
        _ => CellM::Compact(v),
    }
}

/// The keys of an object, in order; none for another value.
pub open spec fn keys_of(v: Json) -> Seq<Seq<char>> {
    match v {
        Json::Obj(e) => e.map_values(|p: (Seq<char>, Json)| p.0),
        _ => Seq::empty(),
    }
}

/// One row per item, one cell per header: the item's value under the header.
pub open spec fn record_rows(items: Seq<Json>, headers: Seq<Seq<char>>) -> Seq<Seq<CellM>> {
    items.map_values(|item: Json| headers.map_values(|h: Seq<char>| cell_of(item.at(h))))
}

/// A one-line summary of an array or object.
pub open spec fn summary(v: Json) -> Seq<char> {
    match v {
        Json::Arr(a) => "["@ + dec_nat(a.len()) + " items]"@,
        Json::Obj(o) => "{"@ + dec_nat(o.len()) + " fields}"@,
        _ => Seq::empty(),
    }
}

/// How a field's value reads: a summary for an array or object, else the value.
pub open spec fn field_cell(v: Json) -> CellM {
    if v.is_array() || v.is_object() {
        CellM::Text(summary(v))
    } else {
        cell_of(v)
    }
}

/// One row per field of an object; none for another value.
pub open spec fn field_rows(v: Json) -> Seq<(Seq<char>, CellM)> {
    match v {
        Json::Obj(e) => e.map_values(|p: (Seq<char>, Json)| (p.0, field_cell(p.1))),
        _ => Seq::empty(),
    }
}

/// A string, or `default` where the value is no string.
pub open spec fn str_or(v: Json, default: Seq<char>) -> Seq<char> {
    match v {
        Json::Str(s) => s,
        _ => default,
    }
}

/// The asset, free and locked amount of a balance entry.
pub open spec fn balance_row(item: Json) -> (Seq<char>, Seq<char>, Seq<char>) {
    (str_or(item.at("asset"@), "?"@), str_or(item.at("free"@), "0"@), str_or(item.at("locked"@), "0"@))
}

/// An ask level is kept where it is an array of at least two values.
pub open spec fn ask_kept(level: Json) -> bool {
    match level {
        Json::Arr(a) => a.len() >= 2,
        _ => false,
    }
}

/// The price and quantity of a level; `?` for a missing or non-string part.
pub open spec fn level_row(level: Json) -> (Seq<char>, Seq<char>) {
    match level {
        Json::Arr(a) => (
            if a.len() > 0 {
                str_or(a[0], "?"@)
            } else {
                "?"@
            },
            if a.len() > 1 {
                str_or(a[1], "?"@)
            } else {
                "?"@
            },
        ),
        _ => ("?"@, "?"@),
    }
}

/// The kept ask levels, in the order given.
pub open spec fn ask_rows(levels: Seq<Json>) -> Seq<(Seq<char>, Seq<char>)>
    decreases levels.len(),
{
    if levels.len() == 0 {
        Seq::empty()
    } else if ask_kept(levels.last()) {
        ask_rows(levels.drop_last()).push(level_row(levels.last()))
    } else {
        ask_rows(levels.drop_last())
    }
}

/// The bid levels that are arrays, in the order given.
pub open spec fn bid_rows(levels: Seq<Json>) -> Seq<(Seq<char>, Seq<char>)>
    decreases levels.len(),
{
    if levels.len() == 0 {
        Seq::empty()
    } else if levels.last().is_array() {
        bid_rows(levels.drop_last()).push(level_row(levels.last()))
    } else {
        bid_rows(levels.drop_last())
    }
}

/// Where an order book's levels are read: under `data`, if present.
pub open spec fn book_source(v: Json) -> Json {
    match v.get("data"@) {
        Some(d) => d,
        None => v,
    }
}

pub open spec fn levels_of(v: Json, side: Seq<char>) -> Seq<Json> {
    match v.at(side).as_array() {
        Some(a) => a,
        None => Seq::empty(),
    }
}

/// The order book shown for a response.
pub open spec fn book_body(v: Json) -> BodyM {
    BodyM::Orderbook {
        asks: ask_rows(levels_of(book_source(v), "asks"@)).reverse(),
        bids: bid_rows(levels_of(book_source(v), "bids"@)),
    }
}

/// An array shown as records when its first item is an object, else as pretty JSON.
pub open spec fn array_body(v: Json) -> BodyM {
    match v {
        Json::Arr(a) => if a.len() > 0 && a[0].is_object() {
            BodyM::Records { headers: keys_of(a[0]), records: record_rows(a, keys_of(a[0])) }
        } else {
            BodyM::Pretty(v)
        },
        _ => BodyM::Pretty(v),
    }
}

pub open spec fn title_of(label: Seq<char>) -> Option<Seq<char>> {
    if label.len() == 0 {
        None
    } else {
        Some(label)
    }
}

/// The table that a JSON value is shown as when no explicit table is given.
pub open spec fn auto_body(label: Seq<char>, v: Json) -> BodyM {
    match v {
        Json::Arr(_) => array_body(v),
        Json::Obj(_) => {
            let data = v.get("data"@);
            if data is Some && data->0.is_array() {
                array_body(data->0)
            } else if data is Some && data->0.is_object() {
                BodyM::Fields { title: title_of(label), fields: field_rows(data->0) }
            } else if v.at("balances"@) is Arr {
                BodyM::Balances(v.at("balances"@)->Arr_0.map_values(|i: Json| balance_row(i)))
            } else if v.at("accountAssets"@) is Arr {
                BodyM::Balances(v.at("accountAssets"@)->Arr_0.map_values(|i: Json| balance_row(i)))
            } else if v.get("bids"@) is Some || v.get("asks"@) is Some || v.get("buys"@) is Some {
                book_body(v)
            } else {
                BodyM::Fields { title: title_of(label), fields: field_rows(v) }
            }
        },
        _ => BodyM::Pretty(v),
    }
}

/// How one value reads in a cell.
pub fn format_value(v: &JsonValue) -> (res: Cell)
    ensures
        res.view_cell() == cell_of(v.deep()),
{
    match v {
        JsonValue::Null => Cell::Text(String::from_str("—")),
        JsonValue::Bool(b) => Cell::Text(
            String::from_str(
                if *b {
                    "✓"
                } else {
                    "✗"
                },
            ),
        ),
        JsonValue::Str(s) => Cell::Text(s.clone()),
        JsonValue::Number(n) => Cell::Text(n.to_text()),
        _ => Cell::Compact(v.deep_clone()),
    }
}

fn summary_text(v: &JsonValue) -> (res: String)
    requires
        v.deep().is_array() || v.deep().is_object(),
    ensures
        res@ == summary(v.deep()),
{
    match v {
        JsonValue::Array(a) => {
            let mut s = String::from_str("[");
            s.append(u64_to_string(a.len() as u64).as_str());
            s.append(" items]");
            s
        },
        JsonValue::Object(o) => {
            let mut s = String::from_str("{");
            s.append(u64_to_string(o.len() as u64).as_str());
            s.append(" fields}");
            s
        },
        _ => String::new(),
    }
}

fn field_value(v: &JsonValue) -> (res: Cell)
    ensures
        res.view_cell() == field_cell(v.deep()),
{
    if v.is_array() || v.is_object() {
        Cell::Text(summary_text(v))
    } else {
        format_value(v)
    }
}

fn title(label: &str) -> (res: Option<String>)
    ensures
        opt_str(res) == title_of(label@),
{
    if label.is_empty() {
        None
    } else {
        Some(label.to_owned())
    }
}

/// One row per field of an object (none for another value).
pub fn key_value_rows(v: &JsonValue) -> (res: Vec<(String, Cell)>)
    ensures
        res@.map_values(|p: (String, Cell)| (p.0@, p.1.view_cell())) == field_rows(v.deep()),
{
    let mut rows: Vec<(String, Cell)> = Vec::new();
    match v.as_object() {
        Some(o) => {
            let ghost e = entries_deep(o@);
            for i in 0..o.len()
                invariant
                    e == entries_deep(o@),
                    v.deep() == Json::Obj(e),
                    rows@.len() == i,
                    forall|j: int|
                        0 <= j < i ==> (#[trigger] rows@[j]).0@ == e[j].0 && rows@[j].1.view_cell()
                            == field_cell(e[j].1),
            {
                let k = o[i].0.clone();
                let c = field_value(&o[i].1);
                rows.push((k, c));
            }
            assert(rows@.map_values(|p: (String, Cell)| (p.0@, p.1.view_cell())) =~= field_rows(
                v.deep(),
            ));
        },
        None => {
            assert(rows@.map_values(|p: (String, Cell)| (p.0@, p.1.view_cell())) =~= field_rows(
                v.deep(),
            ));
        },
    }
    rows
}

/// The column headers and rows of an array of objects: the keys of the
/// first item, and for each item its value under each key.
pub fn object_array_rows(items: &Vec<JsonValue>) -> (res: (Vec<String>, Vec<Vec<Cell>>))
    requires
        items@.len() > 0,
        items@[0].deep().is_object(),
    ensures
        strs(res.0@) == keys_of(items@[0].deep()),
        res.1@.map_values(|r: Vec<Cell>| r@.map_values(|c: Cell| c.view_cell())) == record_rows(
            values_deep(items@),
            keys_of(items@[0].deep()),
        ),
{
    let mut headers: Vec<String> = Vec::new();
    let ghost hs = keys_of(items@[0].deep());
    match items[0].as_object() {
        Some(o) => {
            for i in 0..o.len()
                invariant
                    items@[0].deep() == Json::Obj(entries_deep(o@)),
                    hs == keys_of(items@[0].deep()),
                    headers@.len() == i,
                    forall|j: int| 0 <= j < i ==> #[trigger] headers@[j]@ == hs[j],
            {
                headers.push(o[i].0.clone());
            }
        },
        None => {},
    }
    assert(strs(headers@) =~= hs);
    let mut rows: Vec<Vec<Cell>> = Vec::new();
    let ghost all = values_deep(items@);
    for i in 0..items.len()
        invariant
            all == values_deep(items@),
            strs(headers@) == hs,
            rows@.len() == i,
            forall|j: int|
                0 <= j < i ==> (#[trigger] rows@[j])@.map_values(|c: Cell| c.view_cell())
                    == hs.map_values(|h: Seq<char>| cell_of(all[j].at(h))),
    {
        let item = &items[i];
        let mut row: Vec<Cell> = Vec::new();
        for k in 0..headers.len()
            invariant
                strs(headers@) == hs,
                item.deep() == all[i as int],
                row@.len() == k,
                forall|m: int|
                    0 <= m < k ==> (#[trigger] row@[m]).view_cell() == cell_of(
                        all[i as int].at(hs[m]),
                    ),
        {
            assert(headers@[k as int]@ == hs[k as int]);
            let c = match item.get(headers[k].as_str()) {
                Some(v) => format_value(v),
                None => Cell::Text(String::from_str("—")),
            };
            row.push(c);
        }
        assert(row@.map_values(|c: Cell| c.view_cell()) =~= hs.map_values(
            |h: Seq<char>| cell_of(all[i as int].at(h)),
        ));
        rows.push(row);
    }
    assert(rows@.map_values(|r: Vec<Cell>| r@.map_values(|c: Cell| c.view_cell())) =~= record_rows(
        all,
        hs,
    ));
    (headers, rows)
}

/// The string under `key`, or `default` where there is none.
fn str_field(item: &JsonValue, key: &str, default: &str) -> (res: String)
    ensures
        res@ == str_or(item.deep().at(key@), default@),
{
    match item.get(key) {
        Some(v) => match v.as_str() {
            Some(s) => s.clone(),
            None => default.to_owned(),
        },
        None => default.to_owned(),
    }
}

/// The asset, free and locked amount of each balance entry.
pub fn balance_rows(items: &Vec<JsonValue>) -> (res: Vec<(String, String, String)>)
    ensures
        res@.map_values(|r: (String, String, String)| (r.0@, r.1@, r.2@)) == values_deep(
            items@,
        ).map_values(|i: Json| balance_row(i)),
{
    let mut rows: Vec<(String, String, String)> = Vec::new();
    for i in 0..items.len()
        invariant
            rows@.len() == i,
            forall|j: int|
                0 <= j < i ==> ((#[trigger] rows@[j]).0@, rows@[j].1@, rows@[j].2@) == balance_row(
                    items@[j].deep(),
                ),
    {
        let asset = str_field(&items[i], "asset", "?");
        let free = str_field(&items[i], "free", "0");
        let locked = str_field(&items[i], "locked", "0");
        rows.push((asset, free, locked));
    }
    assert(rows@.map_values(|r: (String, String, String)| (r.0@, r.1@, r.2@)) =~= values_deep(
        items@,
    ).map_values(|i: Json| balance_row(i)));
    rows
}

fn level_text(level: &JsonValue) -> (res: (String, String))
    ensures
        (res.0@, res.1@) == level_row(level.deep()),
{
    match level.as_array() {
        Some(a) => {
            let price = if a.len() > 0 {
                match a[0].as_str() {
                    Some(s) => s.clone(),
                    None => String::from_str("?"),
                }
            } else {
                String::from_str("?")
            };
            let qty = if a.len() > 1 {
                match a[1].as_str() {
                    Some(s) => s.clone(),
                    None => String::from_str("?"),
                }
            } else {
                String::from_str("?")
            };
            (price, qty)
        },
        None => (String::from_str("?"), String::from_str("?")),
    }
}

/// The kept ask levels (arrays of at least two values), from the last to the first.
pub fn ask_levels(levels: &Vec<JsonValue>) -> (res: Vec<(String, String)>)
    ensures
        pairs_view(res@) == ask_rows(values_deep(levels@)).reverse(),
{
    let ghost all = values_deep(levels@);
    let mut kept: Vec<(String, String)> = Vec::new();
    for i in 0..levels.len()
        invariant
            all == values_deep(levels@),
            pairs_view(kept@) == ask_rows(all.take(i as int)),
    {
        assert(all.take(i + 1).drop_last() =~= all.take(i as int));
        let keep = match levels[i].as_array() {
            Some(a) => a.len() >= 2,
            None => false,
        };
        if keep {
            kept.push(level_text(&levels[i]));
        }
        assert(pairs_view(kept@) =~= ask_rows(all.take(i + 1)));
    }
    assert(all.take(levels@.len() as int) =~= all);
    let mut res: Vec<(String, String)> = Vec::new();
    let n = kept.len();
    for i in 0..n
        invariant
            n == kept@.len(),
            res@.len() == i,
            forall|j: int| 0 <= j < i ==> #[trigger] res@[j] == kept@[n - 1 - j],
    {
        let p = &kept[n - 1 - i];
        res.push((p.0.clone(), p.1.clone()));
    }
    assert(pairs_view(res@) =~= pairs_view(kept@).reverse());
    res
}

/// The bid levels that are arrays, in the order given.
pub fn bid_levels(levels: &Vec<JsonValue>) -> (res: Vec<(String, String)>)
    ensures
        pairs_view(res@) == bid_rows(values_deep(levels@)),
{
    let ghost all = values_deep(levels@);
    let mut kept: Vec<(String, String)> = Vec::new();
    for i in 0..levels.len()
        invariant
            all == values_deep(levels@),
            pairs_view(kept@) == bid_rows(all.take(i as int)),
    {
        assert(all.take(i + 1).drop_last() =~= all.take(i as int));
        if levels[i].is_array() {
            kept.push(level_text(&levels[i]));
        }
        assert(pairs_view(kept@) =~= bid_rows(all.take(i + 1)));
    }
    assert(all.take(levels@.len() as int) =~= all);
    kept
}

fn side_levels(source: &JsonValue, side: &str) -> (res: Vec<JsonValue>)
    ensures
        values_deep(res@) == levels_of(source.deep(), side@),
{
    match source.get(side) {
        Some(v) => match v.as_array() {
            Some(a) => {
                let mut out: Vec<JsonValue> = Vec::new();
                for i in 0..a.len()
                    invariant
                        out@.len() == i,
                        forall|j: int| 0 <= j < i ==> #[trigger] out@[j].deep() == a@[j].deep(),
                {
                    out.push(a[i].deep_clone());
                }
                assert(values_deep(out@) =~= values_deep(a@));
                out
            },
            None => {
                let out: Vec<JsonValue> = Vec::new();
                assert(values_deep(out@) =~= Seq::<Json>::empty());
                out
            },
        },
        None => {
            let out: Vec<JsonValue> = Vec::new();
            assert(values_deep(out@) =~= Seq::<Json>::empty());
            out
        },
    }
}

/// The order book of a response (under `data`, if present): asks from the
/// last level to the first, then bids in order.
pub fn orderbook_rows(value: &JsonValue) -> (res: Body)
    ensures
        res.view_body() == book_body(value.deep()),
{
    let source = match value.get("data") {
        Some(d) => d,
        None => value,
    };
    let asks = ask_levels(&side_levels(source, "asks"));
    let bids = bid_levels(&side_levels(source, "bids"));
    Body::Orderbook { asks, bids }
}

fn array_table(v: &JsonValue) -> (res: Body)
    requires
        v.deep().is_array(),
    ensures
        res.view_body() == array_body(v.deep()),
{
    match v.as_array() {
        Some(a) => {
            if a.len() > 0 && a[0].is_object() {
                let (headers, rows) = object_array_rows(a);
                let res = Body::Records { headers, records: rows };
                assert(res.view_body() == array_body(v.deep()));
                res
            } else {
                Body::Pretty(v.deep_clone())
            }
        },
        None => Body::Pretty(v.deep_clone()),
    }
}

/// The table that a JSON value is shown as when no explicit table is given.
pub fn auto_table(label: &str, value: &JsonValue) -> (res: Body)
    ensures
        res.view_body() == auto_body(label@, value.deep()),
{
    if value.is_array() {
        return array_table(value);
    }
    if !value.is_object() {
        return Body::Pretty(value.deep_clone());
    }
    match value.get("data") {
        Some(data) => {
            if data.is_array() {
                return array_table(data);
            }
            if data.is_object() {
                let rows = key_value_rows(data);
                return Body::Fields { title: title(label), fields: rows };
            }
        },
        None => {},
    }
    match value.get("balances") {
        Some(b) => match b.as_array() {
            Some(items) => {
                return Body::Balances(balance_rows(items));
            },
            None => {},
        },
        None => {},
    }
    match value.get("accountAssets") {
        Some(b) => match b.as_array() {
            Some(items) => {
                return Body::Balances(balance_rows(items));
            },
            None => {},
        },
        None => {},
    }
    if value.get("bids").is_some() || value.get("asks").is_some() || value.get("buys").is_some() {
        return orderbook_rows(value);
    }
    let rows = key_value_rows(value);
    Body::Fields { title: title(label), fields: rows }
}

} // verus!

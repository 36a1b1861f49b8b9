//! What the exchange adapter's streams are built from: the symbol-type table, the
//! stream hosts and URLs, the grouping of pairs by host, and the matching
//! of stream messages to pairs. Connecting is left to the caller.

use vstd::prelude::*;
use vstd::string::StringExecFns;

use crate::gate::rest::{listing_entries, listing_list};
use crate::gate::types::GateError;
use crate::json::{Json, JsonValue, values_deep};
use crate::output::table::{opt_str, strs};
use crate::pair_key;
use crate::text::{
    dec_nat, join, join_strings, lower, remove_chars, replace_char, replace_chars, str_equal,
    to_lower, to_upper, u64_to_string, upper, without_chars,
};

verus! {

/// A table from symbols (upper case, without underscores) to symbol types.
/// Setting a symbol again replaces its type.
#[derive(Debug, PartialEq)]
pub struct SymbolTypes {
    entries: Vec<(String, u32)>,
}

/// The type stored for a key: that of its last setting.
pub open spec fn assoc_get(entries: Seq<(Seq<char>, u32)>, key: Seq<char>) -> Option<u32>
    decreases entries.len(),
{
    if entries.len() == 0 {
        None
    } else if entries.last().0 == key {
        Some(entries.last().1)
    } else {
        assoc_get(entries.drop_last(), key)
    }
}

impl SymbolTypes {
    pub closed spec fn settings(&self) -> Seq<(Seq<char>, u32)> {
        self.entries@.map_values(|e: (String, u32)| (e.0@, e.1))
    }

    /// The type stored for a symbol key.
    pub open spec fn lookup(&self, key: Seq<char>) -> Option<u32> {
        assoc_get(self.settings(), key)
    }

    /// An empty table.
    pub fn new() -> (res: Self)
        ensures
            forall|k: Seq<char>| res.lookup(k) is None,
    {
        let res = SymbolTypes { entries: Vec::new() };
        assert(res.settings() =~= Seq::<(Seq<char>, u32)>::empty());
        res
    }

    /// Sets the type of a key.
    pub fn insert(&mut self, key: String, t: u32)
        ensures
            final(self).lookup(key@) == Some(t),
            forall|k: Seq<char>| k != key@ ==> final(self).lookup(k) == old(self).lookup(k),
    {
        let ghost k0 = key@;
        let ghost before = self.settings();
        self.entries.push((key, t));
        assert(self.settings() =~= before.push((k0, t)));
        assert(self.settings().drop_last() =~= before);
    }

    /// The type of a key.
    pub fn get(&self, key: &str) -> (res: Option<u32>)
        ensures
            res == self.lookup(key@),
    {
        let ghost all = self.settings();
        let mut i: usize = self.entries.len();
        assert(all.take(i as int) =~= all);
        while i > 0
            invariant
                0 <= i <= self.entries@.len(),
                all == self.settings(),
                assoc_get(all, key@) == assoc_get(all.take(i as int), key@),
            decreases i,
        {
            assert(all.take(i as int).drop_last() =~= all.take(i - 1));
            assert(all.take(i as int).last() == (self.entries@[i - 1].0@, self.entries@[i - 1].1));
            if str_equal(self.entries[i - 1].0.as_str(), key) {
                return Some(self.entries[i - 1].1);
            }
            i = i - 1;
        }
        None
    }
}

/// The key of a symbol in the type table: underscores removed, upper case.
pub open spec fn table_key(symbol: Seq<char>) -> Seq<char> {
    upper(without_chars(symbol, seq!['_']))
}

/// The type of a listing entry: its `type`, else 3 (truncated to 32 bits).
pub open spec fn entry_type(item: Json) -> u32 {
    match item.at("type"@).as_u64() {
        Some(t) => #[verifier::truncate] (t as u32),
        None => 3,
    }
}

/// Whether a table holds exactly the types set by the entries of a listing,
/// later entries replacing earlier ones.
pub open spec fn table_of(list: Seq<Json>, key: Seq<char>) -> Option<u32>
    decreases list.len(),
{
    if list.len() == 0 {
        None
    } else {
        let item = list.last();
        match item.at("symbol"@).as_str() {
            Some(s) => if table_key(s) == key {
                Some(entry_type(item))
            } else {
                table_of(list.drop_last(), key)
            },
            None => table_of(list.drop_last(), key),
        }
    }
}

/// The symbol-type table of a `/open/v1/common/symbols` response; an API
/// error where it holds no list.
pub fn symbol_types_from_listing(listing: &JsonValue) -> (res: Result<SymbolTypes, GateError>)
    ensures
        match res {
            Ok(table) => listing_entries(listing.deep()) matches Some(list) && forall|k: Seq<char>|
                #[trigger] table.lookup(k) == table_of(list, k),
            Err(e) => listing_entries(listing.deep()) is None && (e matches GateError::Api(m) && m@
                == "Missing data.list in common/symbols"@),
        },
{
    let list = match listing_list(listing) {
        Some(l) => l,
        None => {
            return Err(GateError::Api(String::from_str("Missing data.list in common/symbols")));
        },
    };
    let ghost all = values_deep(list@);
    let underscore: [char; 1] = ['_'];
    assert(underscore@ =~= seq!['_']);
    let mut table = SymbolTypes::new();
    for i in 0..list.len()
        invariant
            all == values_deep(list@),
            underscore@ == seq!['_'],
            forall|k: Seq<char>| #[trigger] table.lookup(k) == table_of(all.take(i as int), k),
    {
        assert(all.take(i + 1).drop_last() =~= all.take(i as int));
        assert(all.take(i + 1).last() == list@[i as int].deep());
        let item = &list[i];
        let sym = match item.get("symbol") {
            Some(v) => v.as_str(),
            None => None,
        };
        match sym {
            Some(s) => {
                let t = match item.get("type") {
                    Some(v) => match v.as_u64() {
                        Some(t) => #[verifier::truncate] (t as u32),
                        None => 3,
                    },
                    None => 3,
                };
                let key = to_upper(remove_chars(s.as_str(), &underscore).as_str());
                table.insert(key, t);
            },
            None => {},
        }
        assert forall|k: Seq<char>| #[trigger] table.lookup(k) == table_of(all.take(i + 1), k) by {}
    }
    assert(all.take(list@.len() as int) =~= all);
    Ok(table)
}

/// The stream host of a symbol type.
pub open spec fn ws_host(symbol_type: u32) -> Seq<char> {
    if symbol_type == 1 {
        "wss://stream-cloud.tokocrypto.site"@
    } else if symbol_type == 2 {
        "wss://www.tokocrypto.com"@
    } else {
        "wss://stream-toko.2meta.app"@
    }
}

/// The stream host of a symbol type.
pub fn get_ws_host(symbol_type: u32) -> (res: &'static str)
    ensures
        res@ == ws_host(symbol_type),
{
    if symbol_type == 1 {
        "wss://stream-cloud.tokocrypto.site"
    } else if symbol_type == 2 {
        "wss://www.tokocrypto.com"
    } else {
        "wss://stream-toko.2meta.app"
    }
}

/// The type of a pair: its entry in the table (by its pair key), else 3.
pub open spec fn pair_type(types: SymbolTypes, pair: Seq<char>) -> u32 {
    match types.lookup(pair_key(pair)) {
        Some(t) => t,
        None => 3,
    }
}

/// The type of a pair.
pub fn type_of_pair(types: &SymbolTypes, pair: &str) -> (res: u32)
    ensures
        res == pair_type(*types, pair@),
{
    match types.get(crate::normalize_pair(pair).as_str()) {
        Some(t) => t,
        None => 3,
    }
}

/// The index of the group of a type.
pub open spec fn group_index(groups: Seq<(u32, Seq<Seq<char>>)>, t: u32) -> Option<int>
    decreases groups.len(),
{
    if groups.len() == 0 {
        None
    } else {
        match group_index(groups.drop_last(), t) {
            Some(i) => Some(i),
            None => if groups.last().0 == t {
                Some(groups.len() - 1)
            } else {
                None
            },
        }
    }
}

/// The pairs grouped by type: groups in the order their type first occurs,
/// each holding its pairs in order.
pub open spec fn grouped(types: SymbolTypes, pairs: Seq<Seq<char>>) -> Seq<(u32, Seq<Seq<char>>)>
    decreases pairs.len(),
{
    if pairs.len() == 0 {
        Seq::empty()
    } else {
        let g = grouped(types, pairs.drop_last());
        let p = pairs.last();
        let t = pair_type(types, p);
        match group_index(g, t) {
            Some(i) => g.update(i, (t, g[i].1.push(p))),
            None => g.push((t, seq![p])),
        }
    }
}

pub open spec fn groups_view(g: Seq<(u32, Vec<String>)>) -> Seq<(u32, Seq<Seq<char>>)> {
    g.map_values(|e: (u32, Vec<String>)| (e.0, strs(e.1@)))
}

proof fn lemma_group_index_prefix(g: Seq<(u32, Seq<Seq<char>>)>, n: int, t: u32)
    requires
        0 <= n <= g.len(),
        group_index(g.take(n), t) is Some,
    ensures
        group_index(g, t) == group_index(g.take(n), t),
    decreases g.len() - n,
{
    if n < g.len() {
        assert(g.take(n + 1).drop_last() =~= g.take(n));
        lemma_group_index_prefix(g, n + 1, t);
    } else {
        assert(g.take(n) =~= g);
    }
}

/// The pairs of a price stream grouped by type; an error where there are none.
pub fn group_pairs(pairs: &Vec<String>, types: &SymbolTypes) -> (res: Result<
    Vec<(u32, Vec<String>)>,
    GateError,
>)
    ensures
        match res {
            Ok(g) => pairs@.len() > 0 && groups_view(g@) == grouped(*types, strs(pairs@)),
            Err(e) => pairs@.len() == 0 && (e matches GateError::InvalidSymbol(m) && m@
                == "No pairs specified for price stream"@),
        },
{
    if pairs.len() == 0 {
        return Err(GateError::InvalidSymbol(String::from_str("No pairs specified for price stream")));
    }
    let ghost ps = strs(pairs@);
    let mut groups: Vec<(u32, Vec<String>)> = Vec::new();
    for i in 0..pairs.len()
        invariant
            ps == strs(pairs@),
            groups_view(groups@) == grouped(*types, ps.take(i as int)),
    {
        assert(ps.take(i + 1).drop_last() =~= ps.take(i as int));
        assert(ps.take(i + 1).last() == pairs@[i as int]@);
        let p = &pairs[i];
        let t = type_of_pair(types, p.as_str());
        let ghost g = groups_view(groups@);
        let mut j: usize = 0;
        let mut found = false;
        while !found && j < groups.len()
            invariant
                0 <= j <= groups@.len(),
                g == groups_view(groups@),
                found ==> j < groups@.len() && group_index(g, t) == Some(j as int),
                !found ==> group_index(g.take(j as int), t) is None,
            decreases groups@.len() - j + (if found { 0int } else { 1int }),
        {
            assert(g.take(j + 1).drop_last() =~= g.take(j as int));
            assert(g.take(j + 1).last() == g[j as int]);
            if groups[j].0 == t {
                assert(group_index(g.take(j + 1), t) == Some(j as int));
                proof {
                    lemma_group_index_prefix(g, j + 1, t);
                }
                found = true;
            } else {
                j = j + 1;
            }
        }
        if found {
            let (gt, mut members) = groups.remove(j);
            let ghost old_members = members@;
            members.push(p.clone());
            assert(strs(members@) =~= strs(old_members).push(p@));
            groups.insert(j, (t, members));
            assert(groups_view(groups@) =~= g.update(j as int, (t, g[j as int].1.push(p@))));
        } else {
            assert(g.take(j as int) =~= g);
            let mut members = Vec::new();
            members.push(p.clone());
            assert(strs(members@) =~= seq![p@]);
            groups.push((t, members));
            assert(groups_view(groups@) =~= g.push((t, seq![p@])));
        }
    }
    assert(ps.take(pairs@.len() as int) =~= ps);
    Ok(groups)
}

/// The stream name of a pair: for Next symbols (2) lower case with `/` as
/// `_`; else lower case without separators.
pub open spec fn stream_name(symbol_type: u32, pair: Seq<char>) -> Seq<char> {
    if symbol_type == 2 {
        lower(replace_char(pair, '/', '_'))
    } else {
        lower(without_chars(pair, crate::pair_separators()))
    }
}

fn stream_name_of(symbol_type: u32, pair: &str) -> (res: String)
    ensures
        res@ == stream_name(symbol_type, pair@),
{
    if symbol_type == 2 {
        to_lower(replace_chars(pair, '/', '_').as_str())
    } else {
        let seps: [char; 3] = ['_', '-', '/'];
        assert(seps@ =~= crate::pair_separators());
        to_lower(remove_chars(pair, &seps).as_str())
    }
}

/// The URL of the combined trade stream of a group of pairs.
pub open spec fn price_url(symbol_type: u32, pairs: Seq<Seq<char>>) -> Seq<char> {
    ws_host(symbol_type) + "/stream?streams="@ + join(
        pairs.map_values(|p: Seq<char>| stream_name(symbol_type, p) + "@trade"@),
        "/"@,
    )
}

/// The URL of the combined trade stream of a group of pairs.
pub fn price_stream_url(symbol_type: u32, pairs: &Vec<String>) -> (res: String)
    ensures
        res@ == price_url(symbol_type, strs(pairs@)),
{
    let mut streams: Vec<String> = Vec::new();
    for i in 0..pairs.len()
        invariant
            streams@.len() == i,
            forall|j: int|
                0 <= j < i ==> #[trigger] streams@[j]@ == stream_name(symbol_type, pairs@[j]@)
                    + "@trade"@,
    {
        let mut s = stream_name_of(symbol_type, pairs[i].as_str());
        s.append("@trade");
        streams.push(s);
    }
    assert(streams@.map_values(|p: String| p@) =~= strs(pairs@).map_values(
        |p: Seq<char>| stream_name(symbol_type, p) + "@trade"@,
    ));
    let mut url = String::from_str(get_ws_host(symbol_type));
    url.append("/stream?streams=");
    url.append(join_strings(&streams, "/").as_str());
    url
}

/// Whether a stream's symbol names a pair: both lower case without
/// separators (only `_` is removed from the stream's symbol).
pub open spec fn names_pair(pair: Seq<char>, exchange_symbol: Seq<char>) -> bool {
    lower(without_chars(pair, crate::pair_separators())) == lower(
        without_chars(exchange_symbol, seq!['_']),
    )
}

/// The first pair that a stream's symbol names.
pub open spec fn first_named(pairs: Seq<Seq<char>>, exchange_symbol: Seq<char>) -> Option<Seq<char>>
    decreases pairs.len(),
{
    if pairs.len() == 0 {
        None
    } else if names_pair(pairs[0], exchange_symbol) {
        Some(pairs[0])
    } else {
        first_named(pairs.drop_first(), exchange_symbol)
    }
}

/// The pair of the group that a trade message's symbol names.
pub fn match_pair(pairs: &Vec<String>, exchange_symbol: &str) -> (res: Option<String>)
    ensures
        opt_str(res) == first_named(strs(pairs@), exchange_symbol@),
{
    let underscore: [char; 1] = ['_'];
    assert(underscore@ =~= seq!['_']);
    let seps: [char; 3] = ['_', '-', '/'];
    assert(seps@ =~= crate::pair_separators());
    let ex = to_lower(remove_chars(exchange_symbol, &underscore).as_str());
    let ghost ps = strs(pairs@);
    let mut i: usize = 0;
    assert(ps.skip(0) =~= ps);
    while i < pairs.len()
        invariant
            0 <= i <= pairs@.len(),
            ps == strs(pairs@),
            seps@ == crate::pair_separators(),
            ex@ == lower(without_chars(exchange_symbol@, seq!['_'])),
            first_named(ps, exchange_symbol@) == first_named(ps.skip(i as int), exchange_symbol@),
        decreases pairs@.len() - i,
    {
        assert(ps.skip(i as int).drop_first() =~= ps.skip(i + 1));
        assert(ps.skip(i as int)[0] == pairs@[i as int]@);
        let norm = to_lower(remove_chars(pairs[i].as_str(), &seps).as_str());
        if norm == ex {
            return Some(pairs[i].clone());
        }
        i = i + 1;
    }
    None
}

/// What a trade message of a price stream carries: the pair of the group
/// that its symbol (`data.s`) names, its price text (`data.p`) and its time
/// (`data.T`); none where any of them is missing.
pub open spec fn trade_event(msg: Json, pairs: Seq<Seq<char>>) -> Option<(Seq<char>, Seq<char>, u64)> {
    match msg.get("data"@) {
        None => None,
        Some(d) => match (d.at("s"@).as_str(), d.at("p"@).as_str(), d.at("T"@).as_u64()) {
            (Some(s), Some(p), Some(t)) => match first_named(pairs, s) {
                Some(m) => Some((m, p, t)),
                None => None,
            },
            _ => None,
        },
    }
}

fn str_field<'a>(v: &'a JsonValue, key: &str) -> (res: Option<&'a String>)
    ensures
        match res {
            Some(s) => v.deep().at(key@).as_str() == Some(s@),
            None => v.deep().at(key@).as_str() is None,
        },
{
    match v.get(key) {
        Some(x) => x.as_str(),
        None => None,
    }
}

/// The pair, price text and time of a trade message of a price stream.
pub fn trade_event_fields(msg: &JsonValue, pairs: &Vec<String>) -> (res: Option<(String, String, u64)>)
    ensures
        match res {
            Some((m, p, t)) => trade_event(msg.deep(), strs(pairs@)) == Some((m@, p@, t)),
            None => trade_event(msg.deep(), strs(pairs@)) is None,
        },
{
    let data = match msg.get("data") {
        Some(d) => d,
        None => {
            return None;
        },
    };
    let s = str_field(data, "s");
    let p = str_field(data, "p");
    let t = match data.get("T") {
        Some(v) => v.as_u64(),
        None => None,
    };
    match (s, p, t) {
        (Some(s), Some(p), Some(t)) => match match_pair(pairs, s.as_str()) {
            Some(m) => Some((m, p.clone(), t)),
            None => None,
        },
        _ => None,
    }
}

/// The depth level of an order-book stream: 5, 10 or 20, the least that
/// covers the depth asked for (20 beyond).
pub open spec fn level_for(depth: usize) -> usize {
    if depth <= 5 {
        5
    } else if depth <= 10 {
        10
    } else {
        20
    }
}

/// The URL of the order-book stream of a pair.
pub open spec fn book_url(types: SymbolTypes, pair: Seq<char>, depth: usize) -> Seq<char> {
    let t = pair_type(types, pair);
    ws_host(t) + "/ws/"@ + stream_name(t, pair) + "@depth"@ + dec_nat(level_for(depth) as nat)
}

/// The depth level of an order-book stream.
pub fn depth_level(depth: usize) -> (res: usize)
    ensures
        res == level_for(depth),
{
    if depth <= 5 {
        5
    } else if depth <= 10 {
        10
    } else {
        20
    }
}

/// The URL of the order-book stream of a pair.
pub fn orderbook_stream_url(types: &SymbolTypes, pair: &str, depth: usize) -> (res: String)
    ensures
        res@ == book_url(*types, pair@, depth),
{
    let t = type_of_pair(types, pair);
    let mut url = String::from_str(get_ws_host(t));
    url.append("/ws/");
    url.append(stream_name_of(t, pair).as_str());
    url.append("@depth");
    url.append(u64_to_string(depth_level(depth) as u64).as_str());
    url
}

/// The price and amount text of an order-book level: an array whose first
/// two values are strings; none for anything else.
pub open spec fn level_text(level: Json) -> Option<(Seq<char>, Seq<char>)> {
    match level {
        Json::Arr(a) => if a.len() >= 2 && a[0].as_str() is Some && a[1].as_str() is Some {
            Some((a[0]->Str_0, a[1]->Str_0))
        } else {
            None
        },
        _ => None,
    }
}

/// The price and amount text of the levels that have them, in order.
pub open spec fn level_texts(levels: Seq<Json>) -> Seq<(Seq<char>, Seq<char>)>
    decreases levels.len(),
{
    if levels.len() == 0 {
        Seq::empty()
    } else {
        match level_text(levels.last()) {
            Some(l) => level_texts(levels.drop_last()).push(l),
            None => level_texts(levels.drop_last()),
        }
    }
}

/// The bid and ask levels of an order-book message; none where either list
/// is missing.
pub open spec fn snapshot_texts(msg: Json) -> Option<
    (Seq<(Seq<char>, Seq<char>)>, Seq<(Seq<char>, Seq<char>)>),
> {
    match (msg.at("bids"@).as_array(), msg.at("asks"@).as_array()) {
        (Some(b), Some(a)) => Some((level_texts(b), level_texts(a))),
        _ => None,
    }
}

fn texts_of(levels: &Vec<JsonValue>) -> (res: Vec<(String, String)>)
    ensures
        crate::output::table::pairs_view(res@) == level_texts(values_deep(levels@)),
{
    let ghost all = values_deep(levels@);
    let mut out: Vec<(String, String)> = Vec::new();
    for i in 0..levels.len()
        invariant
            all == values_deep(levels@),
            crate::output::table::pairs_view(out@) == level_texts(all.take(i as int)),
    {
        assert(all.take(i + 1).drop_last() =~= all.take(i as int));
        assert(all.take(i + 1).last() == levels@[i as int].deep());
        let ghost before = out@;
        match &levels[i] {
            JsonValue::Array(a) => {
                assert(levels@[i as int].deep()->Arr_0 =~= values_deep(a@));
                if a.len() >= 2 {
                    match (a[0].as_str(), a[1].as_str()) {
                        (Some(p), Some(q)) => {
                            out.push((p.clone(), q.clone()));
                            assert(crate::output::table::pairs_view(out@) =~= crate::output::table::pairs_view(before).push((p@, q@)));
                        },
                        _ => {},
                    }
                }
            },
            _ => {},
        }
        assert(crate::output::table::pairs_view(out@) =~= level_texts(all.take(i + 1)));
    }
    assert(all.take(levels@.len() as int) =~= all);
    out
}

/// The bid and ask levels of an order-book message, as text.
pub fn snapshot_levels(msg: &JsonValue) -> (res: Option<(Vec<(String, String)>, Vec<(String, String)>)>)
    ensures
        match res {
            Some((b, a)) => snapshot_texts(msg.deep()) == Some(
                (crate::output::table::pairs_view(b@), crate::output::table::pairs_view(a@)),
            ),
            None => snapshot_texts(msg.deep()) is None,
        },
{
    let bids = match msg.get("bids") {
        Some(v) => v.as_array(),
        None => None,
    };
    let asks = match msg.get("asks") {
        Some(v) => v.as_array(),
        None => None,
    };
    match (bids, asks) {
        (Some(b), Some(a)) => Some((texts_of(b), texts_of(a))),
        _ => None,
    }
}

} // verus!

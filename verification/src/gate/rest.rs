//! What the exchange adapter reads from REST responses, and the URLs it queries.

use vstd::prelude::*;
use vstd::string::StringExecFns;

use crate::gate::types::{GateError, MarketPair, PairM};
use crate::json::{Json, JsonValue, values_deep};
use crate::output::table::{opt_str, str_or};
use crate::pair_key;
use crate::text::{replace_char, replace_chars, to_upper, upper};

verus! {

/// The pair a symbol-listing entry describes, where its symbol, base and
/// quote are all non-empty: `BASE/QUOTE` in upper case, active.
pub open spec fn pair_of(item: Json) -> Option<PairM> {
    let symbol = str_or(item.at("symbol"@), Seq::empty());
    let base = str_or(item.at("baseAsset"@), Seq::empty());
    let quote = str_or(item.at("quoteAsset"@), Seq::empty());
    if symbol.len() > 0 && base.len() > 0 && quote.len() > 0 {
        Some(
            PairM {
                symbol: upper(base) + "/"@ + upper(quote),
                base: upper(base),
                quote: upper(quote),
                active: true,
            },
        )
    } else {
        None
    }
}

/// The pairs of the listing entries, in order.
pub open spec fn listed_pairs(list: Seq<Json>) -> Seq<PairM>
    decreases list.len(),
{
    if list.len() == 0 {
        Seq::empty()
    } else {
        match pair_of(list.last()) {
            Some(p) => listed_pairs(list.drop_last()).push(p),
            None => listed_pairs(list.drop_last()),
        }
    }
}

/// The entries of a symbol listing (`data.list`).
pub open spec fn listing_entries(listing: Json) -> Option<Seq<Json>> {
    listing.at("data"@).at("list"@).as_array()
}

pub open spec fn pairs_view(v: Seq<MarketPair>) -> Seq<PairM> {
    v.map_values(|p: MarketPair| p.view_pair())
}

fn text_at(item: &JsonValue, key: &str) -> (res: String)
    ensures
        res@ == str_or(item.deep().at(key@), Seq::empty()),
{
    match item.get(key) {
        Some(v) => match v.as_str() {
            Some(s) => s.clone(),
            None => String::new(),
        },
        None => String::new(),
    }
}

/// The entries under `data.list`.
pub fn listing_list(listing: &JsonValue) -> (res: Option<&Vec<JsonValue>>)
    ensures
        match res {
            Some(l) => listing_entries(listing.deep()) == Some(values_deep(l@)),
            None => listing_entries(listing.deep()) is None,
        },
{
    match listing.get("data") {
        Some(d) => match d.get("list") {
            Some(l) => l.as_array(),
            None => None,
        },
        None => None,
    }
}

/// The pairs of a `/open/v1/common/symbols` response; an API error where
/// it holds no list.
pub fn pairs_from_listing(listing: &JsonValue) -> (res: Result<Vec<MarketPair>, GateError>)
    ensures
        match res {
            Ok(pairs) => listing_entries(listing.deep()) matches Some(list) && pairs_view(pairs@)
                == listed_pairs(list),
            Err(e) => listing_entries(listing.deep()) is None && (e matches GateError::Api(m) && m@
                == "Missing data.list in common/symbols"@),
        },
{
    let list = match listing_list(listing) {
        Some(l) => l,
        None => {
            return Err(GateError::Api(String::from_str("Missing data.list in common/symbols")));
        },
    };
    let ghost all = values_deep(list@);
    let mut pairs: Vec<MarketPair> = Vec::new();
    for i in 0..list.len()
        invariant
            all == values_deep(list@),
            pairs_view(pairs@) == listed_pairs(all.take(i as int)),
    {
        assert(all.take(i + 1).drop_last() =~= all.take(i as int));
        assert(all.take(i + 1).last() == list@[i as int].deep());
        let item = &list[i];
        let symbol = text_at(item, "symbol");
        let base = text_at(item, "baseAsset");
        let quote = text_at(item, "quoteAsset");
        if !symbol.as_str().is_empty() && !base.as_str().is_empty() && !quote.as_str().is_empty() {
            let b = to_upper(base.as_str());
            let q = to_upper(quote.as_str());
            let mut s = b.clone();
            s.append("/");
            s.append(q.as_str());
            let ghost before = pairs@;
            pairs.push(MarketPair { symbol: s, base: b, quote: q, active: true });
            assert(pairs_view(pairs@) =~= pairs_view(before).push(pairs@.last().view_pair()));
        }
        assert(pairs_view(pairs@) =~= listed_pairs(all.take(i + 1)));
    }
    assert(all.take(list@.len() as int) =~= all);
    Ok(pairs)
}

/// The URL of the ticker price of a pair on the site host.
pub open spec fn ticker_url(pair: Seq<char>) -> Seq<char> {
    "https://www.tokocrypto.site/api/v3/ticker/price?symbol="@ + pair_key(pair)
}

/// The URL of the latest trade of a pair on the main host, the fallback
/// where the ticker gives no price.
pub open spec fn recent_trade_url(pair: Seq<char>) -> Seq<char> {
    "https://www.tokocrypto.com/open/v1/market/trades?symbol="@ + upper(replace_char(pair, '/', '_'))
        + "&limit=1"@
}

/// The URL of the ticker price of a pair.
pub fn ticker_price_url(pair: &str) -> (res: String)
    ensures
        res@ == ticker_url(pair@),
{
    let mut url = String::from_str("https://www.tokocrypto.site/api/v3/ticker/price?symbol=");
    url.append(crate::normalize_pair(pair).as_str());
    url
}

/// The URL of the latest trade of a pair.
pub fn last_trade_url(pair: &str) -> (res: String)
    ensures
        res@ == recent_trade_url(pair@),
{
    let mut url = String::from_str("https://www.tokocrypto.com/open/v1/market/trades?symbol=");
    url.append(to_upper(replace_chars(pair, '/', '_').as_str()).as_str());
    url.append("&limit=1");
    url
}

/// The price text of a ticker response (`price`), if it is a string.
pub fn ticker_price_text(resp: &JsonValue) -> (res: Option<String>)
    ensures
        opt_str(res) == resp.deep().at("price"@).as_str(),
{
    match resp.get("price") {
        Some(v) => match v.as_str() {
            Some(s) => Some(s.clone()),
            None => None,
        },
        None => None,
    }
}

/// The value under the first key present, `a` before `b`.
pub open spec fn either(item: Json, a: Seq<char>, b: Seq<char>) -> Json {
    match item.get(a) {
        Some(v) => v,
        None => item.at(b),
    }
}

/// What the exchange adapter reads from a recent-trades response: the first trade's
/// price text (`price`, else `p`) and time (`time`, else `t`), or the error
/// that explains why there is none.
pub open spec fn first_trade(resp: Json) -> Result<(Seq<char>, Option<u64>), Seq<char>> {
    match listing_entries(resp) {
        None => Err("Missing data.list in market/trades response"@),
        Some(list) => if list.len() == 0 {
            Err("No trades found to retrieve price"@)
        } else {
            match either(list[0], "price"@, "p"@).as_str() {
                None => Err("Missing price field in trade data"@),
                Some(p) => Ok((p, either(list[0], "time"@, "t"@).as_u64())),
            }
        },
    }
}

fn pick<'a>(item: &'a JsonValue, a: &str, b: &str) -> (res: Option<&'a JsonValue>)
    ensures
        match res {
            Some(v) => either(item.deep(), a@, b@) == v.deep(),
            None => either(item.deep(), a@, b@) == Json::Null,
        },
{
    match item.get(a) {
        Some(v) => Some(v),
        None => item.get(b),
    }
}

/// The first trade's price text and time in a recent-trades response.
pub fn recent_trade_fields(resp: &JsonValue) -> (res: Result<(String, Option<u64>), GateError>)
    ensures
        match res {
            Ok((p, t)) => first_trade(resp.deep()) == Ok::<(Seq<char>, Option<u64>), Seq<char>>(
                (p@, t),
            ),
            Err(e) => first_trade(resp.deep()) is Err && (e matches GateError::Api(m) && m@
                == first_trade(resp.deep())->Err_0),
        },
{
    let list = match listing_list(resp) {
        Some(l) => l,
        None => {
            return Err(
                GateError::Api(String::from_str("Missing data.list in market/trades response")),
            );
        },
    };
    if list.len() == 0 {
        return Err(GateError::Api(String::from_str("No trades found to retrieve price")));
    }
    let first = &list[0];
    assert(values_deep(list@)[0] == first.deep());
    let price = match pick(first, "price", "p") {
        Some(v) => v.as_str(),
        None => None,
    };
    let price = match price {
        Some(p) => p.clone(),
        None => {
            return Err(GateError::Api(String::from_str("Missing price field in trade data")));
        },
    };
    let time = match pick(first, "time", "t") {
        Some(v) => v.as_u64(),
        None => None,
    };
    Ok((price, time))
}

} // verus!

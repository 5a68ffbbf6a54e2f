//! The CoinGecko side of the aggregator: which CoinGecko id a ticker symbol
//! stands for, and the price request for a list of symbols.

use vstd::prelude::*;
use crate::text::{
    join_spec, join_strs, opt_str_view, same_text, str_views, to_uppercase, unicode_uppercase,
};

verus! {

/// The CoinGecko id of an upper-case ticker symbol, for the coins that the
/// aggregator tracks.
pub open spec fn spec_coingecko_id(upper: Seq<char>) -> Option<Seq<char>> {
    if upper == "BTC"@ {
        Some("bitcoin"@)
    } else if upper == "ETH"@ {
        Some("ethereum"@)
    } else if upper == "SOL"@ {
        Some("solana"@)
    } else if upper == "USDT"@ {
        Some("tether"@)
    } else if upper == "USDC"@ {
        Some("usd-coin"@)
    } else if upper == "BNB"@ {
        Some("binancecoin"@)
    } else if upper == "XRP"@ {
        Some("ripple"@)
    } else if upper == "ADA"@ {
        Some("cardano"@)
    } else if upper == "DOGE"@ {
        Some("dogecoin"@)
    } else {
        None
    }
}

/// The CoinGecko id that `symbol` stands for: the id of its upper case.
pub open spec fn spec_symbol_id(symbol: Seq<char>) -> Option<Seq<char>> {
    spec_coingecko_id(unicode_uppercase(symbol))
}

/// The table is one to one: two symbols with the same CoinGecko id are the
/// same symbol.
pub proof fn lemma_coingecko_id_injective(a: Seq<char>, b: Seq<char>)
    requires
        spec_coingecko_id(a) is Some,
        spec_coingecko_id(a) == spec_coingecko_id(b),
    ensures
        a == b,
{
    reveal_strlit("bitcoin");
    reveal_strlit("ethereum");
    reveal_strlit("solana");
    reveal_strlit("tether");
    reveal_strlit("usd-coin");
    reveal_strlit("binancecoin");
    reveal_strlit("ripple");
    reveal_strlit("cardano");
    reveal_strlit("dogecoin");
    assert("bitcoin"@.len() == 7 && "bitcoin"@[0] == 'b');
    assert("ethereum"@.len() == 8 && "ethereum"@[0] == 'e');
    assert("solana"@.len() == 6 && "solana"@[0] == 's');
    assert("tether"@.len() == 6 && "tether"@[0] == 't');
    assert("usd-coin"@.len() == 8 && "usd-coin"@[0] == 'u');
    assert("binancecoin"@.len() == 11 && "binancecoin"@[0] == 'b');
    assert("ripple"@.len() == 6 && "ripple"@[0] == 'r');
    assert("cardano"@.len() == 7 && "cardano"@[0] == 'c');
    assert("dogecoin"@.len() == 8 && "dogecoin"@[0] == 'd');
}

/// The CoinGecko id of an already upper-case symbol; `None` for a symbol the
/// aggregator does not track. The match is exact.
pub fn coingecko_id_for_upper(upper: &str) -> (id: Option<&'static str>)
    ensures
        opt_str_view(id) == spec_coingecko_id(upper@),
{
    if same_text(upper, "BTC") {
        Some("bitcoin")
    } else if same_text(upper, "ETH") {
        Some("ethereum")
    } else if same_text(upper, "SOL") {
        Some("solana")
    } else if same_text(upper, "USDT") {
        Some("tether")
    } else if same_text(upper, "USDC") {
        Some("usd-coin")
    } else if same_text(upper, "BNB") {
        Some("binancecoin")
    } else if same_text(upper, "XRP") {
        Some("ripple")
    } else if same_text(upper, "ADA") {
        Some("cardano")
    } else if same_text(upper, "DOGE") {
        Some("dogecoin")
    } else {
        None
    }
}

/// The CoinGecko id of a ticker symbol, in any letter case: the symbol is
/// brought to upper case (`str::to_uppercase`) and looked up.
pub fn symbol_to_coingecko_id(symbol: &str) -> (id: Option<&'static str>)
    ensures
        opt_str_view(id) == spec_symbol_id(symbol@),
{
    let upper = to_uppercase(symbol);
    coingecko_id_for_upper(upper.as_str())
}

/// The CoinGecko ids of the symbols that have one, in the order of the
/// symbols; symbols without an id are left out.
pub open spec fn spec_coingecko_ids(symbols: Seq<Seq<char>>) -> Seq<Seq<char>>
    decreases symbols.len(),
{
    if symbols.len() == 0 {
        Seq::<Seq<char>>::empty()
    } else {
        let rest = spec_coingecko_ids(symbols.drop_last());
        match spec_symbol_id(symbols.last()) {
            Some(id) => rest.push(id),
            None => rest,
        }
    }
}

/// `idx` lists, in increasing order, the positions of the symbols of
/// `symbols` that have a CoinGecko id, every such position once, and
/// `ids[j]` is the id of symbol `idx[j]`.
pub open spec fn id_positions(symbols: Seq<Seq<char>>, ids: Seq<Seq<char>>, idx: Seq<int>) -> bool {
    &&& idx.len() == ids.len()
    &&& forall|j: int| 0 <= j < idx.len() ==> 0 <= #[trigger] idx[j] < symbols.len() && spec_symbol_id(symbols[idx[j]]) == Some(ids[j])
    &&& forall|j: int, k: int| 0 <= j < k < idx.len() ==> #[trigger] idx[j] < #[trigger] idx[k]
    &&& forall|i: int| 0 <= i < symbols.len() && (#[trigger] spec_symbol_id(symbols[i])) is Some ==> idx.contains(i)
}

/// `ids` are exactly the CoinGecko ids of the symbols that have one, in
/// symbol order.
pub open spec fn ids_of_symbols(symbols: Seq<Seq<char>>, ids: Seq<Seq<char>>) -> bool {
    exists|idx: Seq<int>| id_positions(symbols, ids, idx)
}

proof fn lemma_id_positions(symbols: Seq<Seq<char>>) -> (idx: Seq<int>)
    ensures
        id_positions(symbols, spec_coingecko_ids(symbols), idx),
    decreases symbols.len(),
{
    if symbols.len() == 0 {
        Seq::<int>::empty()
    } else {
        let p = symbols.drop_last();
        let ip = lemma_id_positions(p);
        let last = symbols.len() - 1;
        assert forall|i: int| 0 <= i < p.len() implies p[i] == symbols[i] by {}
        match spec_symbol_id(symbols.last()) {
            Some(id) => {
                let idx = ip.push(last);
                let out = spec_coingecko_ids(symbols);
                assert(out == spec_coingecko_ids(p).push(id));
                assert forall|j: int| 0 <= j < idx.len() implies 0 <= #[trigger] idx[j] < symbols.len()
                    && spec_symbol_id(symbols[idx[j]]) == Some(out[j]) by {
                    if j < ip.len() {
                        assert(idx[j] == ip[j]);
                        assert(p[ip[j]] == symbols[ip[j]]);
                    }
                }
                assert forall|j: int, k: int| 0 <= j < k < idx.len() implies #[trigger] idx[j] < #[trigger] idx[k] by {
                    if k < ip.len() {
                        assert(idx[j] == ip[j] && idx[k] == ip[k]);
                    } else {
                        assert(idx[j] == ip[j]);
                    }
                }
                assert forall|i: int| 0 <= i < symbols.len() && (#[trigger] spec_symbol_id(symbols[i])) is Some
                    implies idx.contains(i) by {
                    if i < last {
                        assert(spec_symbol_id(p[i]) is Some);
                        let j = choose|j: int| 0 <= j < ip.len() && ip[j] == i;
                        assert(idx[j] == i);
                    } else {
                        assert(idx[idx.len() - 1] == i);
                    }
                }
                idx
            },
            None => {
                assert forall|i: int| 0 <= i < symbols.len() && (#[trigger] spec_symbol_id(symbols[i])) is Some
                    implies ip.contains(i) by {
                    assert(i < last);
                    assert(spec_symbol_id(p[i]) is Some);
                }
                ip
            },
        }
    }
}

/// Every symbol that has a CoinGecko id contributes it: the ids are those
/// of exactly the symbols that have one, each once, in symbol order, and
/// the price request names them all, comma separated, and is made exactly
/// when there is at least one.
pub proof fn lemma_ids_cover_symbols(symbols: Seq<Seq<char>>)
    ensures
        ids_of_symbols(symbols, spec_coingecko_ids(symbols)),
        spec_price_url(symbols) is Some <==> exists|i: int| 0 <= i < symbols.len() && (#[trigger] spec_symbol_id(symbols[i])) is Some,
        spec_price_url(symbols) matches Some(u) ==> exists|ids: Seq<Seq<char>>|
            #[trigger] ids_of_symbols(symbols, ids) && u == price_url_head() + join_spec(ids, ","@) + price_url_tail(),
{
    let ids = spec_coingecko_ids(symbols);
    let idx = lemma_id_positions(symbols);
    assert(id_positions(symbols, ids, idx));
    assert(ids_of_symbols(symbols, ids));
    if exists|i: int| 0 <= i < symbols.len() && (#[trigger] spec_symbol_id(symbols[i])) is Some {
        let i = choose|i: int| 0 <= i < symbols.len() && (#[trigger] spec_symbol_id(symbols[i])) is Some;
        assert(idx.contains(i));
        assert(ids.len() > 0);
    }
    if ids.len() > 0 {
        assert(spec_symbol_id(symbols[idx[0]]) is Some);
    }
}

/// The CoinGecko ids of `symbols`, in order, skipping the symbols without one.
pub fn coingecko_ids(symbols: &[&str]) -> (ids: Vec<&'static str>)
    ensures
        str_views(ids@) == spec_coingecko_ids(str_views(symbols@)),
{
    let mut ids: Vec<&'static str> = Vec::new();
    let mut i: usize = 0;
    assert(str_views(symbols@.take(0)) =~= Seq::<Seq<char>>::empty());
    while i < symbols.len()
        invariant
            i <= symbols@.len(),
            str_views(ids@) == spec_coingecko_ids(str_views(symbols@.take(i as int))),
        decreases symbols@.len() - i,
    {
        let ghost before = str_views(symbols@.take(i as int));
        assert(str_views(symbols@.take(i + 1)).drop_last() =~= before);
        assert(str_views(symbols@.take(i + 1)).last() == symbols@[i as int]@);
        match symbol_to_coingecko_id(symbols[i]) {
            Some(id) => {
                ids.push(id);
                assert(str_views(ids@) =~= spec_coingecko_ids(before).push(id@));
            },
            None => {},
        }
        i = i + 1;
    }
    assert(symbols@.take(symbols@.len() as int) =~= symbols@);
    ids
}

/// The start of the CoinGecko simple-price request, up to the ids.
pub open spec fn price_url_head() -> Seq<char> {
    "https://api.coingecko.com/api/v3/simple/price?ids="@
}

/// The rest of the CoinGecko simple-price request, after the ids.
pub open spec fn price_url_tail() -> Seq<char> {
    "&vs_currencies=usd&include_24hr_change=true&include_24hr_vol=true&include_market_cap=true"@
}

/// The simple-price request for the ids of `symbols`: `None` where no symbol
/// has an id (then nothing is to be asked), else the URL that asks for USD
/// price, 24h change, 24h volume and market cap of the ids, comma separated.
pub open spec fn spec_price_url(symbols: Seq<Seq<char>>) -> Option<Seq<char>> {
    let ids = spec_coingecko_ids(symbols);
    if ids.len() == 0 {
        None
    } else {
        Some(price_url_head() + join_spec(ids, ","@) + price_url_tail())
    }
}

/// The CoinGecko request URL for the prices of `symbols` (see
/// `spec_price_url`).
pub fn coingecko_price_url(symbols: &[&str]) -> (url: Option<String>)
    ensures
        match url {
            Some(u) => spec_price_url(str_views(symbols@)) == Some(u@),
            None => spec_price_url(str_views(symbols@)) is None,
        },
{
    let ids = coingecko_ids(symbols);
    if ids.len() == 0 {
        return None;
    }
    let joined = join_strs(&ids, ",");
    let mut url = String::from_str("https://api.coingecko.com/api/v3/simple/price?ids=");
    url.append(joined.as_str());
    url.append("&vs_currencies=usd&include_24hr_change=true&include_24hr_vol=true&include_market_cap=true");
    Some(url)
}

} // verus!

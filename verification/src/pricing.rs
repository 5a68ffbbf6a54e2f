//! The price endpoints' query: which coins a request asks for.

use vstd::prelude::*;
use crate::text::{
    count_char, join_spec, lemma_split_count, lemma_split_join, split_char, split_spec, string_views, to_uppercase,
    unicode_uppercase,
};

verus! {

/// The most snapshots that the price history answers with.
pub const PRICE_HISTORY_LIMIT: i64 = 1000;

/// The query of the price endpoints: `coins` is a comma-separated list of
/// ticker symbols.
pub struct PriceQuery {
    pub coins: String,
}

/// The symbols that the list `coins` names: its comma-separated pieces, in
/// order and empty ones included, each in upper case.
pub open spec fn spec_symbol_list(coins: Seq<char>) -> Seq<Seq<char>> {
    split_spec(coins, ',').map_values(|p: Seq<char>| unicode_uppercase(p))
}

/// One symbol per comma-separated piece: a list with `n` commas names
/// `n + 1` symbols, the `i`-th being the upper case of the `i`-th piece, and
/// the pieces, joined again with commas, give back the list.
pub proof fn lemma_one_symbol_per_piece(coins: Seq<char>)
    ensures
        spec_symbol_list(coins).len() == count_char(coins, ',') + 1,
        forall|i: int| 0 <= i < spec_symbol_list(coins).len()
            ==> #[trigger] spec_symbol_list(coins)[i] == unicode_uppercase(split_spec(coins, ',')[i]),
        join_spec(split_spec(coins, ','), seq![',']) == coins,
        forall|i: int| 0 <= i < split_spec(coins, ',').len() ==> !(#[trigger] split_spec(coins, ',')[i]).contains(','),
{
    lemma_split_count(coins, ',');
    lemma_split_join(coins, ',');
}

/// Reads a comma-separated list of symbols (see `spec_symbol_list`).
pub fn parse_symbol_list(coins: &str) -> (symbols: Vec<String>)
    ensures
        string_views(symbols@) == spec_symbol_list(coins@),
{
    let parts = split_char(coins, ',');
    let mut symbols: Vec<String> = Vec::new();
    let mut i: usize = 0;
    while i < parts.len()
        invariant
            i <= parts@.len(),
            string_views(parts@) == split_spec(coins@, ','),
            string_views(symbols@) == string_views(parts@.take(i as int)).map_values(
                |p: Seq<char>| unicode_uppercase(p),
            ),
        decreases parts@.len() - i,
    {
        let u = to_uppercase(parts[i].as_str());
        let ghost before = symbols@;
        let ghost uv = u@;
        symbols.push(u);
        assert(string_views(symbols@) =~= string_views(before).push(uv));
        assert(parts@.take(i + 1) =~= parts@.take(i as int).push(parts@[i as int]));
        assert(string_views(symbols@) =~= string_views(parts@.take(i + 1)).map_values(
            |p: Seq<char>| unicode_uppercase(p),
        ));
        i = i + 1;
    }
    assert(parts@.take(parts@.len() as int) =~= parts@);
    symbols
}

impl PriceQuery {
    /// The symbols that this query asks for (see `spec_symbol_list`).
    pub fn symbols(&self) -> (symbols: Vec<String>)
        ensures
            string_views(symbols@) == spec_symbol_list(self.coins@),
    {
        parse_symbol_list(self.coins.as_str())
    }
}

} // verus!

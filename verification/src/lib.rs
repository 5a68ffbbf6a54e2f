//! Verified core of a crypto price aggregator: the CoinGecko symbol table
//! and price request, the Bybit kline download and backfill, the records
//! that are stored, the API's token check and price query, and the
//! decisions of the background price aggregator.

pub mod text;
pub mod numeric;
pub mod json;
pub mod coingecko;
pub mod bybit;
pub mod history;
pub mod records;
pub mod auth;
pub mod pricing;
pub mod aggregator;

pub use coingecko::{symbol_to_coingecko_id, coingecko_id_for_upper, coingecko_ids, coingecko_price_url};
pub use json::JsonValue;
pub use bybit::{BybitApiKline, BybitConfig, parse_kline_array, collect_page_klines};
pub use history::{kline_url, BackfillPlan, FetchResponse, HistoryFetch};
pub use records::{kline_record, KlineError, KlineField, NewBybitKline};
pub use auth::{authorize, AuthDecision};
pub use pricing::{parse_symbol_list, PriceQuery, PRICE_HISTORY_LIMIT};
pub use aggregator::{
    default_coins, snapshot_targets, Aggregator, AggregatorAction, AggregatorEvent, AggregatorPhase, CoinSeeding,
    SeedAction, SeedEvent, SeedPhase,
    DefaultCoin, SnapshotTarget,
};
pub mod time;

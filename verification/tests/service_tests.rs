use crypto_aggregator::aggregator::{CONNECT_RETRY_SECS, CYCLE_PAUSE_SECS, EMPTY_RETRY_SECS, LOAD_RETRY_SECS};
use crypto_aggregator::{
    authorize, default_coins, snapshot_targets, Aggregator, AggregatorAction, AggregatorEvent, AggregatorPhase,
    AuthDecision,
};

fn strings(v: &[&str]) -> Vec<String> {
    v.iter().map(|s| String::from(*s)).collect()
}

#[test]
fn auth_without_token_is_open() {
    assert_eq!(authorize(None, None), AuthDecision::Unprotected);
    assert_eq!(authorize(Some(b"Bearer x"), None), AuthDecision::Unprotected);
}

#[test]
fn auth_accepts_exact_bearer_token() {
    assert_eq!(authorize(Some(b"Bearer s3cret"), Some("s3cret")), AuthDecision::Granted);
    assert_eq!(authorize(Some(b"Bearer "), Some("")), AuthDecision::Granted);
}

#[test]
fn auth_refuses_other_headers() {
    assert_eq!(authorize(None, Some("t")), AuthDecision::Refused);
    assert_eq!(authorize(Some(b"Bearer s3cret2"), Some("s3cret")), AuthDecision::Refused);
    assert_eq!(authorize(Some(b"bearer s3cret"), Some("s3cret")), AuthDecision::Refused);
    assert_eq!(authorize(Some(b"Bearer"), Some("")), AuthDecision::Refused);
    assert_eq!(authorize(Some(b"s3cret"), Some("s3cret")), AuthDecision::Refused);
    assert_eq!(authorize(Some(b"Bearer s3\x01cret"), Some("s3\u{1}cret")), AuthDecision::Refused);
    assert_eq!(authorize(Some("Bearer é".as_bytes()), Some("é")), AuthDecision::Refused);
}

#[test]
fn auth_allows_tab_in_header() {
    assert_eq!(authorize(Some(b"Bearer a\tb"), Some("a\tb")), AuthDecision::Granted);
}

#[test]
fn default_coin_table() {
    let coins = default_coins();
    let view: Vec<(&str, &str, i32)> = coins.iter().map(|c| (c.symbol, c.name, c.decimals)).collect();
    assert_eq!(
        view,
        vec![
            ("BTC", "Bitcoin", 8),
            ("ETH", "Ethereum", 18),
            ("SOL", "Solana", 9),
            ("USDT", "Tether", 6),
            ("USDC", "USD Coin", 6),
            ("BNB", "Binance Coin", 18),
            ("XRP", "Ripple", 6),
            ("ADA", "Cardano", 6),
            ("DOGE", "Dogecoin", 8),
        ]
    );
    for c in coins {
        assert!(crypto_aggregator::symbol_to_coingecko_id(c.symbol).is_some());
    }
}

#[test]
fn snapshot_targets_match_priced_coins() {
    let symbols = strings(&["btc", "XYZ", "ETH", "sol"]);
    let priced = strings(&["ethereum", "bitcoin", "cardano"]);
    let t = snapshot_targets(&symbols, &priced);
    let view: Vec<(usize, &str)> = t.iter().map(|x| (x.coin, x.gecko_id)).collect();
    assert_eq!(view, vec![(0, "bitcoin"), (2, "ethereum")]);
    assert!(snapshot_targets(&symbols, &Vec::new()).is_empty());
}

#[test]
fn aggregator_stops_if_coins_cannot_be_created() {
    let (mut a, first) = Aggregator::start();
    assert!(matches!(first, AggregatorAction::InitCoins));
    assert!(matches!(a.on_event(AggregatorEvent::InitFailed), AggregatorAction::Stop));
    assert_eq!(a.phase(), AggregatorPhase::Stopped);
}

#[test]
fn aggregator_full_cycle() {
    let (mut a, _) = Aggregator::start();
    assert!(matches!(a.on_event(AggregatorEvent::CoinsInitialized), AggregatorAction::LoadCoins));
    match a.on_event(AggregatorEvent::CoinsLoaded(strings(&["BTC", "ETH", "FOO"]))) {
        AggregatorAction::FetchPrices(s) => assert_eq!(s, strings(&["BTC", "ETH", "FOO"])),
        _ => panic!("expected a fetch"),
    }
    assert!(matches!(a.on_event(AggregatorEvent::PricesFetched(strings(&["ethereum"]))), AggregatorAction::Connect));
    match a.on_event(AggregatorEvent::Connected) {
        AggregatorAction::SaveSnapshots(t) => {
            assert_eq!(t.iter().map(|x| (x.coin, x.gecko_id)).collect::<Vec<_>>(), vec![(1, "ethereum")])
        },
        _ => panic!("expected saving"),
    }
    assert!(matches!(a.on_event(AggregatorEvent::SnapshotsSaved(1)), AggregatorAction::Sleep(n) if n == CYCLE_PAUSE_SECS));
    assert_eq!(a.phase(), AggregatorPhase::Pausing);
    assert!(matches!(a.on_event(AggregatorEvent::Slept), AggregatorAction::LoadCoins));
}

#[test]
fn aggregator_pauses_after_failures() {
    let (mut a, _) = Aggregator::start();
    a.on_event(AggregatorEvent::CoinsInitialized);
    assert!(matches!(a.on_event(AggregatorEvent::LoadFailed), AggregatorAction::Sleep(n) if n == LOAD_RETRY_SECS));
    a.on_event(AggregatorEvent::Slept);
    assert!(matches!(a.on_event(AggregatorEvent::CoinsLoaded(Vec::new())), AggregatorAction::Sleep(n) if n == EMPTY_RETRY_SECS));
    a.on_event(AggregatorEvent::Slept);
    a.on_event(AggregatorEvent::CoinsLoaded(strings(&["BTC"])));
    assert!(matches!(a.on_event(AggregatorEvent::FetchFailed), AggregatorAction::Sleep(n) if n == CYCLE_PAUSE_SECS));
    a.on_event(AggregatorEvent::Slept);
    a.on_event(AggregatorEvent::CoinsLoaded(strings(&["BTC"])));
    a.on_event(AggregatorEvent::PricesFetched(strings(&["bitcoin"])));
    assert!(matches!(a.on_event(AggregatorEvent::ConnectFailed), AggregatorAction::Sleep(n) if n == CONNECT_RETRY_SECS));
    assert_eq!(a.phase(), AggregatorPhase::Pausing);
}

use crypto_aggregator::{CoinSeeding, SeedAction, SeedEvent, SeedPhase};

fn looked_up(a: &SeedAction) -> Option<&'static str> {
    match a {
        SeedAction::Lookup(c) => Some(c.symbol),
        _ => None,
    }
}

#[test]
fn seeding_inserts_missing_coins_in_order() {
    let (mut s, first) = CoinSeeding::start();
    assert!(matches!(first, SeedAction::Connect));
    let mut a = s.on_event(SeedEvent::Connected);
    let mut inserted = Vec::new();
    let mut seen = Vec::new();
    loop {
        match a {
            SeedAction::Lookup(c) => {
                seen.push(c.symbol);
                a = s.on_event(if c.symbol == "ETH" || c.symbol == "ADA" { SeedEvent::Missing } else { SeedEvent::Found });
            }
            SeedAction::Insert(c) => {
                inserted.push(c.symbol);
                a = s.on_event(SeedEvent::Inserted);
            }
            SeedAction::Finish => break,
            _ => panic!("unexpected action"),
        }
    }
    assert_eq!(seen, vec!["BTC", "ETH", "SOL", "USDT", "USDC", "BNB", "XRP", "ADA", "DOGE"]);
    assert_eq!(inserted, vec!["ETH", "ADA"]);
    assert_eq!(s.phase(), SeedPhase::Done);
}

#[test]
fn seeding_stops_at_first_failure() {
    let (mut s, _) = CoinSeeding::start();
    assert!(matches!(s.on_event(SeedEvent::ConnectFailed), SeedAction::Fail));
    let (mut s, _) = CoinSeeding::start();
    let a = s.on_event(SeedEvent::Connected);
    assert_eq!(looked_up(&a), Some("BTC"));
    assert!(matches!(s.on_event(SeedEvent::Missing), SeedAction::Insert(c) if c.symbol == "BTC"));
    assert!(matches!(s.on_event(SeedEvent::InsertFailed), SeedAction::Fail));
    assert_eq!(s.phase(), SeedPhase::Failed);
    let (mut s, _) = CoinSeeding::start();
    s.on_event(SeedEvent::Connected);
    assert!(matches!(s.on_event(SeedEvent::LookupFailed), SeedAction::Fail));
}

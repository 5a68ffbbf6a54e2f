use crypto_aggregator::history::{BATCH_SPAN_NS, RETRY_PAUSE_MS};
use crypto_aggregator::{authorize, coingecko_id_for_upper, AuthDecision, BybitConfig, FetchResponse, HistoryFetch, JsonValue};

#[test]
fn coingecko_ids_are_distinct() {
    let symbols = ["BTC", "ETH", "SOL", "USDT", "USDC", "BNB", "XRP", "ADA", "DOGE"];
    let ids: Vec<&str> = symbols.iter().map(|s| coingecko_id_for_upper(s).unwrap()).collect();
    for i in 0..ids.len() {
        for j in 0..ids.len() {
            if i != j {
                assert_ne!(ids[i], ids[j]);
            }
        }
    }
}

#[test]
fn granted_header_names_exactly_the_token() {
    let token = "abc 123\t~";
    let header = format!("Bearer {token}");
    assert_eq!(authorize(Some(header.as_bytes()), Some(token)), AuthDecision::Granted);
    assert_eq!(authorize(Some(format!("{header} ").as_bytes()), Some(token)), AuthDecision::Refused);
    assert_eq!(authorize(Some(b"Bearer abc"), Some(token)), AuthDecision::Refused);
}

#[test]
fn download_takes_one_page_per_started_span() {
    let config = BybitConfig::from_settings(None, None, None);
    for (len, pages) in [(0i128, 0u32), (1, 1), (BATCH_SPAN_NS, 1), (BATCH_SPAN_NS + 1, 2), (3 * BATCH_SPAN_NS, 3)] {
        let start = 1_600_000_000_000i128 * 1_000_000;
        let mut f = HistoryFetch::new(&config, "ETHUSDT", "5", start, start + len);
        let mut n = 0u32;
        while f.next_request().is_some() {
            assert_eq!(f.on_response(FetchResponse::Rejected), RETRY_PAUSE_MS);
            f.on_response(FetchResponse::Page(JsonValue::Null));
            n += 1;
        }
        assert_eq!(n, pages);
    }
}

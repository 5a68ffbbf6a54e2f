use crypto_aggregator::history::{BATCH_SPAN_NS, DAY_NS, RETRY_PAUSE_MS};
use crypto_aggregator::time::{millis_of_nanos, MAX_DATETIME_MS, MIN_DATETIME_MS};
use crypto_aggregator::{
    collect_page_klines, kline_record, kline_url, parse_kline_array, BackfillPlan, BybitApiKline,
    BybitConfig, FetchResponse, HistoryFetch, JsonValue, KlineError, KlineField,
};

fn s(t: &str) -> JsonValue {
    JsonValue::Str(String::from(t))
}

fn row(items: &[&str]) -> JsonValue {
    JsonValue::Array(items.iter().map(|t| s(t)).collect())
}

fn page(rows: Vec<JsonValue>) -> JsonValue {
    JsonValue::Object(vec![
        (String::from("retCode"), JsonValue::Number(String::from("0"))),
        (
            String::from("result"),
            JsonValue::Object(vec![
                (String::from("category"), s("spot")),
                (String::from("list"), JsonValue::Array(rows)),
            ]),
        ),
    ])
}

fn kline(start: i64, open: &str, turnover: &str) -> BybitApiKline {
    BybitApiKline {
        start_time: start,
        open: String::from(open),
        high: String::from("2.5"),
        low: String::from("0.5"),
        close: String::from("1.5"),
        volume: String::from("100"),
        turnover: String::from(turnover),
    }
}

fn config() -> BybitConfig {
    BybitConfig::from_settings(Some(String::from("key")), None, Some(String::from("https://example.test")))
}

#[test]
fn json_member_and_kinds() {
    let p = page(vec![]);
    assert!(p.member("result").is_some());
    assert!(p.member("missing").is_none());
    assert!(s("x").member("result").is_none());
    assert_eq!(s("abc").as_str(), Some("abc"));
    assert_eq!(JsonValue::Null.as_str(), None);
    assert!(JsonValue::Bool(true).as_array().is_none());
    assert_eq!(row(&["a", "b"]).as_array().map(|a| a.len()), Some(2));
}

#[test]
fn json_member_takes_first_of_equal_keys() {
    let v = JsonValue::Object(vec![(String::from("k"), s("first")), (String::from("k"), s("second"))]);
    assert_eq!(v.member("k").and_then(|m| m.as_str()), Some("first"));
}

#[test]
fn kline_row_is_read() {
    let k = parse_kline_array(&row(&["1700000000000", "1.0", "2.0", "0.5", "1.5", "10", "15"])).unwrap();
    assert_eq!(k.start_time, 1_700_000_000_000);
    assert_eq!(k.open, "1.0");
    assert_eq!(k.high, "2.0");
    assert_eq!(k.low, "0.5");
    assert_eq!(k.close, "1.5");
    assert_eq!(k.volume, "10");
    assert_eq!(k.turnover, "15");
}

#[test]
fn kline_row_extra_elements_ignored() {
    let k = parse_kline_array(&row(&["5", "1", "2", "3", "4", "5", "6", "extra"])).unwrap();
    assert_eq!(k.start_time, 5);
    assert_eq!(k.turnover, "6");
}

#[test]
fn bad_kline_rows_are_refused() {
    assert!(parse_kline_array(&row(&["1", "2", "3", "4", "5", "6"])).is_none());
    assert!(parse_kline_array(&row(&["x1", "1", "2", "3", "4", "5", "6"])).is_none());
    assert!(parse_kline_array(&s("1")).is_none());
    let mut items: Vec<JsonValue> = ["1", "1", "2", "3", "4", "5", "6"].iter().map(|t| s(t)).collect();
    items[3] = JsonValue::Number(String::from("3"));
    assert!(parse_kline_array(&JsonValue::Array(items)).is_none());
}

#[test]
fn page_klines_skip_bad_rows() {
    let p = page(vec![
        row(&["1", "1", "2", "3", "4", "5", "6"]),
        row(&["bad"]),
        row(&["2", "1", "2", "3", "4", "5", "6"]),
    ]);
    let mut out = vec![kline(0, "9", "9")];
    collect_page_klines(&p, &mut out);
    assert_eq!(out.iter().map(|k| k.start_time).collect::<Vec<_>>(), vec![0, 1, 2]);
}

#[test]
fn page_without_list_adds_nothing() {
    let mut out = Vec::new();
    collect_page_klines(&JsonValue::Null, &mut out);
    collect_page_klines(&JsonValue::Object(vec![(String::from("result"), JsonValue::Null)]), &mut out);
    assert!(out.is_empty());
}

#[test]
fn config_defaults() {
    let c = BybitConfig::from_settings(None, None, None);
    assert_eq!(c.api_key, "");
    assert_eq!(c.secret, "");
    assert_eq!(c.base_url, "https://api.bybit.com");
    assert_eq!(c.rate_limit_ms, 500);
    let c = BybitConfig::from_settings(Some(String::from("k")), Some(String::from("s")), Some(String::from("u")));
    assert_eq!((c.api_key.as_str(), c.secret.as_str(), c.base_url.as_str()), ("k", "s", "u"));
}

#[test]
fn kline_request_url() {
    assert_eq!(
        kline_url("https://api.bybit.com", "BTCUSDT", "1", 1000, -2000),
        "https://api.bybit.com/v5/market/kline?category=spot&symbol=BTCUSDT&interval=1&start=1000&end=-2000&limit=200"
    );
}

const MS: i128 = 1_000_000;

#[test]
fn history_fetch_pages_through_window() {
    let start = 1_700_000_000_000i128 * MS + 123;
    let end = start + BATCH_SPAN_NS + 1;
    let mut f = HistoryFetch::new(&config(), "BTCUSDT", "1", start, end);
    let url = f.next_request().unwrap();
    assert_eq!(
        url,
        "https://example.test/v5/market/kline?category=spot&symbol=BTCUSDT&interval=1&start=1700000000000&end=1700012000000&limit=200"
    );
    assert_eq!(f.on_response(FetchResponse::Rejected), RETRY_PAUSE_MS);
    assert_eq!(f.next_request().unwrap(), url);
    let pause = f.on_response(FetchResponse::Page(page(vec![row(&["7", "1", "2", "3", "4", "5", "6"])])));
    assert_eq!(pause, 500);
    let url2 = f.next_request().unwrap();
    assert!(url2.contains("&start=1700012000000&end=1700012000000&"));
    f.on_response(FetchResponse::Page(page(vec![row(&["8", "1", "2", "3", "4", "5", "6"])])));
    assert!(f.next_request().is_none());
    let ks = f.into_klines();
    assert_eq!(ks.iter().map(|k| k.start_time).collect::<Vec<_>>(), vec![7, 8]);
}

#[test]
fn sub_millisecond_window_is_fetched() {
    let start = 5_000 * MS + 10;
    let mut f = HistoryFetch::new(&config(), "X", "1", start, start + 5);
    assert_eq!(
        f.next_request().unwrap(),
        "https://example.test/v5/market/kline?category=spot&symbol=X&interval=1&start=5000&end=5000&limit=200"
    );
    f.on_response(FetchResponse::Page(JsonValue::Null));
    assert!(f.next_request().is_none());
}

#[test]
fn negative_instants_round_down_to_milliseconds() {
    assert_eq!(millis_of_nanos(-1), -1);
    assert_eq!(millis_of_nanos(-1_000_000), -1);
    assert_eq!(millis_of_nanos(-1_000_001), -2);
    assert_eq!(millis_of_nanos(999_999), 0);
    let f = HistoryFetch::new(&config(), "X", "1", -1_500_000, 0);
    assert!(f.next_request().unwrap().contains("&start=-2&end=0&"));
}

#[test]
fn empty_window_fetches_nothing() {
    let f = HistoryFetch::new(&config(), "BTCUSDT", "1", 10, 10);
    assert!(f.next_request().is_none());
    assert!(f.into_klines().is_empty());
}

#[test]
fn backfill_plan_walks_windows() {
    let end = 1_700_000_000_000i128 * MS + 77;
    let mut p = BackfillPlan::new(end, 1);
    let start = end - 365 * DAY_NS;
    assert_eq!(p.next_batch(), Some((start, start + BATCH_SPAN_NS)));
    p.record_batch(3);
    assert_eq!(p.next_batch(), Some((start + BATCH_SPAN_NS, start + 2 * BATCH_SPAN_NS)));
    p.record_batch(0);
    assert_eq!(p.total_saved(), 3);
    let mut windows = 2u64;
    let mut last_end = 0;
    while let Some((a, b)) = p.next_batch() {
        assert!(a < b && b - a <= BATCH_SPAN_NS);
        p.record_batch(1);
        last_end = b;
        windows += 1;
    }
    assert_eq!(last_end, end);
    assert_eq!(windows, ((365 * DAY_NS + BATCH_SPAN_NS - 1) / BATCH_SPAN_NS) as u64);
    assert_eq!(p.total_saved() as u64, 3 + windows - 2);
}

#[test]
fn backfill_without_years_does_nothing() {
    let p = BackfillPlan::new(100, 0);
    assert_eq!(p.next_batch(), None);
    let q = BackfillPlan::new(0, -1);
    assert_eq!(q.next_batch(), None);
}

#[test]
fn datetime_range_matches_the_date_time_crate() {
    assert!(chrono::DateTime::from_timestamp_millis(MIN_DATETIME_MS).is_some());
    assert!(chrono::DateTime::from_timestamp_millis(MIN_DATETIME_MS - 1).is_none());
    assert!(chrono::DateTime::from_timestamp_millis(MAX_DATETIME_MS).is_some());
    assert!(chrono::DateTime::from_timestamp_millis(MAX_DATETIME_MS + 1).is_none());
}

#[test]
fn kline_record_fields() {
    let mut k = kline(1_700_000_000_000, "1.25", "7");
    k.high = String::from("3");
    k.low = String::from("0.125");
    k.close = String::from("2");
    k.volume = String::from("42.5");
    let r = kline_record("BTCUSDT", "1", &k, 42).unwrap();
    assert_eq!(r.symbol, "BTCUSDT");
    assert_eq!(r.interval, "1");
    assert_eq!(r.start_time, 1_700_000_000_000 * MS);
    assert_eq!(r.open_time, 1_700_000_000_000 * MS);
    assert_eq!(r.open.to_string(), "1.25");
    assert_eq!(r.high.to_string(), "3");
    assert_eq!(r.low.to_string(), "0.125");
    assert_eq!(r.close.to_string(), "2");
    assert_eq!(r.volume.to_string(), "42.5");
    assert_eq!(r.turnover.map(|t| t.to_string()), Some(String::from("7")));
    assert_eq!(r.confirm, Some(true));
}

#[test]
fn kline_record_out_of_range_start_uses_now() {
    let r = kline_record("X", "1", &kline(i64::MAX, "1", "1"), 42).unwrap();
    assert_eq!(r.start_time, 42);
    assert_eq!(r.open_time, 42);
    let r = kline_record("X", "1", &kline(MAX_DATETIME_MS, "1", "1"), 42).unwrap();
    assert_eq!(r.start_time, MAX_DATETIME_MS as i128 * MS);
    let r = kline_record("X", "1", &kline(MIN_DATETIME_MS - 1, "1", "1"), 42).unwrap();
    assert_eq!(r.open_time, 42);
}

#[test]
fn kline_record_reports_first_bad_field() {
    match kline_record("X", "1", &kline(1, "abc", "zzz"), 0) {
        Err(KlineError::InvalidDecimal(f, _)) => assert_eq!(f, KlineField::Open),
        Ok(_) => panic!("accepted"),
    }
    match kline_record("X", "1", &kline(1, "1", ""), 0) {
        Err(KlineError::InvalidDecimal(f, _)) => assert_eq!(f, KlineField::Turnover),
        Ok(_) => panic!("accepted"),
    }
}

//! The paged download of kline history and the backfill that drives it,
//! as state machines: the caller performs each request and reports back.
//! Instants are nanoseconds since the epoch, as precise as a date-time.

use vstd::prelude::*;
use crate::bybit::{collect_page_klines, kline_views, spec_page_klines, BybitApiKline, BybitConfig, KlineView};
use crate::json::JsonValue;
use crate::numeric::{format_i64, spec_format_i64};
use crate::time::{datetime_ns, millis_of, millis_of_nanos, MIN_DATETIME_MS, NANOS_PER_MS};

verus! {

/// The time span of one page of klines: 200 minutes, in nanoseconds.
pub const BATCH_SPAN_NS: i128 = 12_000_000_000_000;

/// The pause before asking again for a page that the API refused, in
/// milliseconds.
pub const RETRY_PAUSE_MS: u64 = 2000;

/// The kline request for the window from `start` to `end` (milliseconds):
/// spot market, the given symbol and interval, at most 200 rows.
pub open spec fn spec_kline_url(base: Seq<char>, symbol: Seq<char>, interval: Seq<char>, start: i64, end: i64) -> Seq<char> {
    base + "/v5/market/kline?category=spot&symbol="@ + symbol + "&interval="@ + interval
        + "&start="@ + spec_format_i64(start as int) + "&end="@ + spec_format_i64(end as int)
        + "&limit=200"@
}

/// Builds the kline request URL (see `spec_kline_url`).
pub fn kline_url(base: &str, symbol: &str, interval: &str, start: i64, end: i64) -> (u: String)
    ensures
        u@ == spec_kline_url(base@, symbol@, interval@, start, end),
{
    let mut u = String::from_str(base);
    u.append("/v5/market/kline?category=spot&symbol=");
    u.append(symbol);
    u.append("&interval=");
    u.append(interval);
    u.append("&start=");
    let s = format_i64(start);
    u.append(s.as_str());
    u.append("&end=");
    let e = format_i64(end);
    u.append(e.as_str());
    u.append("&limit=200");
    u
}

/// What the API answered to a page request.
pub enum FetchResponse {
    /// A status other than success: the page is asked for again.
    Rejected,
    /// A successful answer, with its JSON body.
    Page(JsonValue),
}

/// The state of a paged download of the klines from `current_start` to
/// `end`.
pub struct HistoryFetch {
    base_url: String,
    symbol: String,
    interval: String,
    current_start_ns: i128,
    end_ns: i128,
    rate_limit_ms: u64,
    klines: Vec<BybitApiKline>,
}

/// The mathematical content of a download in progress (instants in
/// nanoseconds).
pub struct HistoryFetchView {
    pub base_url: Seq<char>,
    pub symbol: Seq<char>,
    pub interval: Seq<char>,
    pub current_start: int,
    pub end: int,
    pub rate_limit_ms: u64,
    pub klines: Seq<KlineView>,
}

impl View for HistoryFetch {
    type V = HistoryFetchView;

    closed spec fn view(&self) -> HistoryFetchView {
        HistoryFetchView {
            base_url: self.base_url@,
            symbol: self.symbol@,
            interval: self.interval@,
            current_start: self.current_start_ns as int,
            end: self.end_ns as int,
            rate_limit_ms: self.rate_limit_ms,
            klines: kline_views(self.klines@),
        }
    }
}

/// A download whose end a date-time can hold and whose current start has
/// not gone below the first instant a date-time can hold.
pub open spec fn within_datetime_range(v: HistoryFetchView) -> bool {
    &&& datetime_ns(v.end)
    &&& MIN_DATETIME_MS * NANOS_PER_MS <= v.current_start
}

/// The request for the current window of a download: from its start to its
/// end, each as whole milliseconds.
pub open spec fn spec_next_url(v: HistoryFetchView) -> Seq<char> {
    spec_kline_url(v.base_url, v.symbol, v.interval, millis_of(v.current_start) as i64, millis_of(v.end) as i64)
}

impl HistoryFetch {
    /// A download of the klines of `symbol` and `interval` from `start_ns` up
    /// to `end_ns`, with nothing fetched yet.
    pub fn new(config: &BybitConfig, symbol: &str, interval: &str, start_ns: i128, end_ns: i128) -> (f: Self)
        requires
            datetime_ns(start_ns as int),
            datetime_ns(end_ns as int),
        ensures
            f@ == (HistoryFetchView {
                base_url: config.base_url@,
                symbol: symbol@,
                interval: interval@,
                current_start: start_ns as int,
                end: end_ns as int,
                rate_limit_ms: config.rate_limit_ms,
                klines: Seq::<KlineView>::empty(),
            }),
            within_datetime_range(f@),
    {
        let klines: Vec<BybitApiKline> = Vec::new();
        assert(kline_views(klines@) =~= Seq::<KlineView>::empty());
        HistoryFetch {
            base_url: config.base_url.clone(),
            symbol: String::from_str(symbol),
            interval: String::from_str(interval),
            current_start_ns: start_ns,
            end_ns,
            rate_limit_ms: config.rate_limit_ms,
            klines,
        }
    }

    /// The next page to ask for: `None` once the window has reached the end,
    /// else the request for the klines from the current start to the end.
    pub fn next_request(&self) -> (u: Option<String>)
        requires
            within_datetime_range(self@),
        ensures
            u is Some <==> self@.current_start < self@.end,
            u matches Some(url) ==> url@ == spec_next_url(self@),
    {
        if self.current_start_ns < self.end_ns {
            let start_ms = millis_of_nanos(self.current_start_ns);
            let end_ms = millis_of_nanos(self.end_ns);
            Some(kline_url(self.base_url.as_str(), self.symbol.as_str(), self.interval.as_str(), start_ms, end_ms))
        } else {
            None
        }
    }

    /// Takes in the answer to the current request and says how long to pause
    /// (milliseconds) before the next step. A refused request is asked again
    /// after two seconds, with nothing changed; a page adds its klines, moves
    /// the window on by 200 minutes and pauses for the rate limit.
    pub fn on_response(&mut self, response: FetchResponse) -> (pause_ms: u64)
        requires
            old(self)@.current_start < old(self)@.end,
            within_datetime_range(old(self)@),
        ensures
            within_datetime_range(final(self)@),
            match response {
                FetchResponse::Rejected => {
                    &&& final(self)@ == old(self)@
                    &&& pause_ms == RETRY_PAUSE_MS
                },
                FetchResponse::Page(page) => {
                    &&& final(self)@ == (HistoryFetchView {
                        current_start: old(self)@.current_start + BATCH_SPAN_NS,
                        klines: old(self)@.klines + spec_page_klines(page),
                        ..old(self)@
                    })
                    &&& pause_ms == old(self)@.rate_limit_ms
                },
            },
    {
        match response {
            FetchResponse::Rejected => RETRY_PAUSE_MS,
            FetchResponse::Page(page) => {
                collect_page_klines(&page, &mut self.klines);
                self.current_start_ns = self.current_start_ns + BATCH_SPAN_NS;
                self.rate_limit_ms
            },
        }
    }

    /// The klines fetched so far, in the order they came.
    pub fn into_klines(self) -> (v: Vec<BybitApiKline>)
        ensures
            kline_views(v@) == self@.klines,
    {
        self.klines
    }
}

/// One day, in nanoseconds.
pub const DAY_NS: i128 = 86_400_000_000_000;

/// Where a backfill of `years` years up to `end` starts: 365 days per year
/// before `end` (nanoseconds).
pub open spec fn spec_backfill_start(end: int, years: i32) -> int {
    end - 365 * years * DAY_NS
}

/// The end of the window that starts at `current`, for a backfill up to
/// `end`: 200 minutes later, but not past `end`.
pub open spec fn spec_batch_end(current: int, end: int) -> int {
    if current + BATCH_SPAN_NS < end {
        current + BATCH_SPAN_NS
    } else {
        end
    }
}

/// The state of a backfill: the windows before `current` are done, and
/// `total_saved` klines were stored for them.
pub struct BackfillPlan {
    current_ns: i128,
    end_ns: i128,
    total_saved: usize,
}

/// The mathematical content of a backfill in progress (instants in
/// nanoseconds).
pub struct BackfillView {
    pub current: int,
    pub end: int,
    pub total_saved: nat,
}

impl View for BackfillPlan {
    type V = BackfillView;

    closed spec fn view(&self) -> BackfillView {
        BackfillView {
            current: self.current_ns as int,
            end: self.end_ns as int,
            total_saved: self.total_saved as nat,
        }
    }
}

/// A backfill whose instants all lie within the range of a date-time.
pub open spec fn backfill_in_range(v: BackfillView) -> bool {
    &&& datetime_ns(v.end)
    &&& datetime_ns(v.current) || v.current == v.end
}

impl BackfillPlan {
    /// A backfill of `years` years of history up to `end_ns`, with nothing
    /// done yet. Both ends must be instants that a date-time can hold.
    pub fn new(end_ns: i128, years: i32) -> (p: Self)
        requires
            datetime_ns(end_ns as int),
            datetime_ns(spec_backfill_start(end_ns as int, years)),
        ensures
            p@ == (BackfillView {
                current: spec_backfill_start(end_ns as int, years),
                end: end_ns as int,
                total_saved: 0,
            }),
            p@.current == end_ns - 365 * years * 86_400_000_000_000,
            backfill_in_range(p@),
    {
        let span: i128 = 365 * (years as i128) * DAY_NS;
        BackfillPlan { current_ns: end_ns - span, end_ns, total_saved: 0 }
    }

    /// The next window to download, as start and end (nanoseconds): `None`
    /// once the backfill has reached its end.
    pub fn next_batch(&self) -> (w: Option<(i128, i128)>)
        requires
            backfill_in_range(self@),
        ensures
            w is Some <==> self@.current < self@.end,
            w matches Some(b) ==> b.0 == self@.current && b.1 == spec_batch_end(self@.current, self@.end),
    {
        if self.current_ns < self.end_ns {
            let batch_end: i128 = if self.current_ns + BATCH_SPAN_NS < self.end_ns {
                self.current_ns + BATCH_SPAN_NS
            } else {
                self.end_ns
            };
            Some((self.current_ns, batch_end))
        } else {
            None
        }
    }

    /// Records that the current window is done and `saved` klines of it were
    /// stored: the backfill moves on to the end of that window.
    pub fn record_batch(&mut self, saved: usize)
        requires
            backfill_in_range(old(self)@),
            old(self)@.current < old(self)@.end,
            old(self)@.total_saved + saved <= usize::MAX,
        ensures
            backfill_in_range(final(self)@),
            final(self)@ == (BackfillView {
                current: spec_batch_end(old(self)@.current, old(self)@.end),
                end: old(self)@.end,
                total_saved: old(self)@.total_saved + saved as nat,
            }),
    {
        let next: i128 = if self.current_ns + BATCH_SPAN_NS < self.end_ns {
            self.current_ns + BATCH_SPAN_NS
        } else {
            self.end_ns
        };
        self.current_ns = next;
        self.total_saved = self.total_saved + saved;
    }

    /// The number of klines stored so far.
    pub fn total_saved(&self) -> (n: usize)
        ensures
            n == self@.total_saved,
    {
        self.total_saved
    }
}

/// A backfill goes back 365 days per year: no years start at the end, and
/// each further year starts the backfill exactly 365 days (of 86,400
/// seconds) earlier.
pub proof fn lemma_backfill_years(end: int, years: i32)
    ensures
        spec_backfill_start(end, 0) == end,
        spec_backfill_start(end, years) == end - 365 * years * 86_400_000_000_000,
        years < i32::MAX ==> spec_backfill_start(end, (years + 1) as i32) == spec_backfill_start(end, years)
            - 365 * 86_400_000_000_000,
{
}

/// A backfill window fits in one page: a download of the window that
/// `next_batch` names asks for exactly one page, since after that page its
/// start has reached the window's end.
pub proof fn lemma_batch_is_one_page(current: int, end: int)
    requires
        current < end,
    ensures
        current < spec_batch_end(current, end),
        current + BATCH_SPAN_NS >= spec_batch_end(current, end),
{
}

/// The number of pages that a download from `start` to `end` takes: none
/// for an empty window, else one per started 200 minutes.
pub open spec fn spec_pages_needed(start: int, end: int) -> int {
    if end <= start {
        0
    } else {
        (end - start + BATCH_SPAN_NS - 1) / (BATCH_SPAN_NS as int)
    }
}

/// Pages always move the window by 200 minutes, so a download that started
/// at `start` has reached `end` after `k` pages exactly when `k` is at least
/// the number of pages it needs.
pub proof fn lemma_pages_to_finish(start: int, end: int, k: nat)
    ensures
        start + k * BATCH_SPAN_NS >= end <==> k >= spec_pages_needed(start, end),
{
    let span = BATCH_SPAN_NS as int;
    if end > start {
        let d = end - start;
        let n = (d + span - 1) / span;
        assert(n * span >= d && (n - 1) * span < d) by (nonlinear_arith)
            requires
                span > 0,
                d > 0,
                n == (d + span - 1) / span,
        ;
        if k >= n {
            assert(k * span >= n * span) by (nonlinear_arith)
                requires
                    k >= n,
                    span > 0,
            ;
        } else {
            assert(k * span <= (n - 1) * span) by (nonlinear_arith)
                requires
                    k <= n - 1,
                    span > 0,
            ;
        }
    } else {
        assert(k * span >= 0) by (nonlinear_arith)
            requires
                span > 0,
        ;
    }
}

} // verus!

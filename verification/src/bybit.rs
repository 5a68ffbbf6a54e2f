//! Bybit kline history: the rows of the kline endpoint, the configuration of
//! the client, and the decisions of the paged download and of the backfill.

use vstd::prelude::*;
use crate::json::{json_elements, json_member, json_text, JsonValue};
use crate::numeric::{parse_i64, spec_parse_i64};

verus! {

/// One kline (candle) as the Bybit API reports it: the start of its window
/// in milliseconds since the epoch, and its prices and amounts as text.
pub struct BybitApiKline {
    pub start_time: i64,
    pub open: String,
    pub high: String,
    pub low: String,
    pub close: String,
    pub volume: String,
    pub turnover: String,
}

/// The mathematical content of a kline.
pub struct KlineView {
    pub start_time: i64,
    pub open: Seq<char>,
    pub high: Seq<char>,
    pub low: Seq<char>,
    pub close: Seq<char>,
    pub volume: Seq<char>,
    pub turnover: Seq<char>,
}

impl View for BybitApiKline {
    type V = KlineView;

    open spec fn view(&self) -> KlineView {
        KlineView {
            start_time: self.start_time,
            open: self.open@,
            high: self.high@,
            low: self.low@,
            close: self.close@,
            volume: self.volume@,
            turnover: self.turnover@,
        }
    }
}

/// The views of a sequence of klines.
pub open spec fn kline_views(v: Seq<BybitApiKline>) -> Seq<KlineView> {
    v.map_values(|k: BybitApiKline| k@)
}

/// The kline that a row of the kline list describes: a row is an array of at
/// least seven strings (start time, open, high, low, close, volume,
/// turnover; later elements are ignored) whose first is the decimal text of
/// an `i64`. Any other row describes no kline.
pub open spec fn spec_parse_kline(row: JsonValue) -> Option<KlineView> {
    match json_elements(row) {
        Some(items) => {
            if items.len() < 7 {
                None
            } else {
                match (
                    json_text(items[0]),
                    json_text(items[1]),
                    json_text(items[2]),
                    json_text(items[3]),
                    json_text(items[4]),
                    json_text(items[5]),
                    json_text(items[6]),
                ) {
                    (Some(t), Some(o), Some(h), Some(l), Some(c), Some(v), Some(r)) => {
                        match spec_parse_i64(t) {
                            Some(start) => Some(
                                KlineView {
                                    start_time: start,
                                    open: o,
                                    high: h,
                                    low: l,
                                    close: c,
                                    volume: v,
                                    turnover: r,
                                },
                            ),
                            None => None,
                        }
                    },
                    _ => None,
                }
            }
        },
        None => None,
    }
}

/// A row describes a kline exactly when it is an array whose first seven
/// elements are strings and the first reads as an `i64`; the kline's start
/// is that number and its open, high, low, close, volume and turnover are
/// the second to seventh strings, in that order.
pub proof fn lemma_kline_row_fields(row: JsonValue)
    ensures
        spec_parse_kline(row) is Some <==> ({
            &&& json_elements(row) matches Some(items) && items.len() >= 7
            &&& forall|i: int| 0 <= i < 7 ==> (#[trigger] json_text(json_elements(row)->0[i])) is Some
            &&& spec_parse_i64(json_text(json_elements(row)->0[0])->0) is Some
        }),
        spec_parse_kline(row) matches Some(k) ==> {
            let items = json_elements(row)->0;
            &&& Some(k.start_time) == spec_parse_i64(json_text(items[0])->0)
            &&& Some(k.open) == json_text(items[1])
            &&& Some(k.high) == json_text(items[2])
            &&& Some(k.low) == json_text(items[3])
            &&& Some(k.close) == json_text(items[4])
            &&& Some(k.volume) == json_text(items[5])
            &&& Some(k.turnover) == json_text(items[6])
        },
{
    match json_elements(row) {
        Some(items) => {
            if items.len() >= 7 {
                if spec_parse_kline(row) is None {
                    if forall|i: int| 0 <= i < 7 ==> (#[trigger] json_text(items[i])) is Some {
                        assert(json_text(items[0]) is Some);
                        assert(json_text(items[1]) is Some);
                        assert(json_text(items[2]) is Some);
                        assert(json_text(items[3]) is Some);
                        assert(json_text(items[4]) is Some);
                        assert(json_text(items[5]) is Some);
                        assert(json_text(items[6]) is Some);
                    }
                } else {
                    assert forall|i: int| 0 <= i < 7 implies (#[trigger] json_text(items[i])) is Some by {
                        if i == 0 {} else if i == 1 {} else if i == 2 {} else if i == 3 {} else if i == 4 {} else if i == 5 {} else {}
                    }
                }
            }
        },
        None => {},
    }
}

fn text_of(v: &JsonValue) -> (t: Option<String>)
    ensures
        match t {
            Some(s) => json_text(*v) == Some(s@),
            None => json_text(*v) is None,
        },
{
    match v.as_str() {
        Some(s) => Some(s.to_owned()),
        None => None,
    }
}

/// Reads one row of the kline list (see `spec_parse_kline`).
pub fn parse_kline_array(row: &JsonValue) -> (k: Option<BybitApiKline>)
    ensures
        match k {
            Some(x) => spec_parse_kline(*row) == Some(x@),
            None => spec_parse_kline(*row) is None,
        },
{
    let items = match row.as_array() {
        Some(items) => items,
        None => return None,
    };
    if items.len() < 7 {
        return None;
    }
    let t = match items[0].as_str() {
        Some(t) => t,
        None => return None,
    };
    let open = match text_of(&items[1]) {
        Some(s) => s,
        None => return None,
    };
    let high = match text_of(&items[2]) {
        Some(s) => s,
        None => return None,
    };
    let low = match text_of(&items[3]) {
        Some(s) => s,
        None => return None,
    };
    let close = match text_of(&items[4]) {
        Some(s) => s,
        None => return None,
    };
    let volume = match text_of(&items[5]) {
        Some(s) => s,
        None => return None,
    };
    let turnover = match text_of(&items[6]) {
        Some(s) => s,
        None => return None,
    };
    let start_time = match parse_i64(t) {
        Some(v) => v,
        None => return None,
    };
    Some(BybitApiKline { start_time, open, high, low, close, volume, turnover })
}

/// The rows of a kline response: the array at `result.list`, if there is one.
pub open spec fn spec_kline_rows(page: JsonValue) -> Option<Seq<JsonValue>> {
    match json_member(page, "result"@) {
        Some(r) => match json_member(r, "list"@) {
            Some(l) => json_elements(l),
            None => None,
        },
        None => None,
    }
}

/// The klines of `rows` that describe one, in order; the other rows are
/// skipped.
pub open spec fn spec_parse_rows(rows: Seq<JsonValue>) -> Seq<KlineView>
    decreases rows.len(),
{
    if rows.len() == 0 {
        Seq::<KlineView>::empty()
    } else {
        let rest = spec_parse_rows(rows.drop_last());
        match spec_parse_kline(rows.last()) {
            Some(k) => rest.push(k),
            None => rest,
        }
    }
}

/// The klines that a response page holds: those of the rows of
/// `result.list`, none where the page has no such list.
pub open spec fn spec_page_klines(page: JsonValue) -> Seq<KlineView> {
    match spec_kline_rows(page) {
        Some(rows) => spec_parse_rows(rows),
        None => Seq::<KlineView>::empty(),
    }
}

/// `idx` lists, in increasing order, the positions of the rows of `rows`
/// that describe a kline, every such position once, and `out[j]` is the kline
/// of row `idx[j]`.
pub open spec fn kline_row_positions(rows: Seq<JsonValue>, out: Seq<KlineView>, idx: Seq<int>) -> bool {
    &&& idx.len() == out.len()
    &&& forall|j: int| 0 <= j < idx.len() ==> 0 <= #[trigger] idx[j] < rows.len() && spec_parse_kline(rows[idx[j]]) == Some(out[j])
    &&& forall|j: int, k: int| 0 <= j < k < idx.len() ==> #[trigger] idx[j] < #[trigger] idx[k]
    &&& forall|i: int| 0 <= i < rows.len() && (#[trigger] spec_parse_kline(rows[i])) is Some ==> idx.contains(i)
}

/// `out` holds exactly the klines of the rows of `rows` that describe one,
/// in row order.
pub open spec fn klines_of_rows(rows: Seq<JsonValue>, out: Seq<KlineView>) -> bool {
    exists|idx: Seq<int>| kline_row_positions(rows, out, idx)
}

proof fn lemma_parse_rows_positions(rows: Seq<JsonValue>) -> (idx: Seq<int>)
    ensures
        kline_row_positions(rows, spec_parse_rows(rows), idx),
    decreases rows.len(),
{
    if rows.len() == 0 {
        Seq::<int>::empty()
    } else {
        let p = rows.drop_last();
        let ip = lemma_parse_rows_positions(p);
        let last = rows.len() - 1;
        assert forall|i: int| 0 <= i < p.len() implies p[i] == rows[i] by {}
        match spec_parse_kline(rows.last()) {
            Some(k) => {
                let idx = ip.push(last);
                let out = spec_parse_rows(rows);
                assert(out == spec_parse_rows(p).push(k));
                assert forall|j: int| 0 <= j < idx.len() implies 0 <= #[trigger] idx[j] < rows.len()
                    && spec_parse_kline(rows[idx[j]]) == Some(out[j]) by {
                    if j < ip.len() {
                        assert(idx[j] == ip[j]);
                        assert(p[ip[j]] == rows[ip[j]]);
                    }
                }
                assert forall|j: int, k2: int| 0 <= j < k2 < idx.len() implies #[trigger] idx[j] < #[trigger] idx[k2] by {
                    if k2 < ip.len() {
                        assert(idx[j] == ip[j] && idx[k2] == ip[k2]);
                    } else {
                        assert(idx[j] == ip[j]);
                    }
                }
                assert forall|i: int| 0 <= i < rows.len() && (#[trigger] spec_parse_kline(rows[i])) is Some
                    implies idx.contains(i) by {
                    if i < last {
                        assert(spec_parse_kline(p[i]) is Some);
                        let j = choose|j: int| 0 <= j < ip.len() && ip[j] == i;
                        assert(idx[j] == i);
                    } else {
                        assert(idx[idx.len() - 1] == i);
                    }
                }
                idx
            },
            None => {
                assert forall|i: int| 0 <= i < rows.len() && (#[trigger] spec_parse_kline(rows[i])) is Some
                    implies ip.contains(i) by {
                    assert(i < last);
                    assert(spec_parse_kline(p[i]) is Some);
                }
                ip
            },
        }
    }
}

/// A page adds exactly the klines of the rows of its `result.list` that
/// describe one, each once and in row order, however many rows the page
/// has; a page without such a list adds none.
pub proof fn lemma_page_klines_are_its_rows(page: JsonValue)
    ensures
        match spec_kline_rows(page) {
            Some(rows) => klines_of_rows(rows, spec_page_klines(page)),
            None => spec_page_klines(page).len() == 0,
        },
{
    match spec_kline_rows(page) {
        Some(rows) => {
            let idx = lemma_parse_rows_positions(rows);
            assert(kline_row_positions(rows, spec_page_klines(page), idx));
        },
        None => {},
    }
}

/// A page of `n` rows that all describe a kline adds `n` klines, the `i`-th
/// being that of row `i`.
pub proof fn lemma_full_page(page: JsonValue)
    requires
        spec_kline_rows(page) is Some,
        forall|i: int| 0 <= i < spec_kline_rows(page)->0.len()
            ==> (#[trigger] spec_parse_kline(spec_kline_rows(page)->0[i])) is Some,
    ensures
        spec_page_klines(page).len() == spec_kline_rows(page)->0.len(),
        forall|i: int| 0 <= i < spec_kline_rows(page)->0.len()
            ==> Some(#[trigger] spec_page_klines(page)[i]) == spec_parse_kline(spec_kline_rows(page)->0[i]),
{
    let rows = spec_kline_rows(page)->0;
    lemma_all_rows_parse(rows);
}

proof fn lemma_all_rows_parse(rows: Seq<JsonValue>)
    requires
        forall|i: int| 0 <= i < rows.len() ==> (#[trigger] spec_parse_kline(rows[i])) is Some,
    ensures
        spec_parse_rows(rows).len() == rows.len(),
        forall|i: int| 0 <= i < rows.len() ==> Some(#[trigger] spec_parse_rows(rows)[i]) == spec_parse_kline(rows[i]),
    decreases rows.len(),
{
    if rows.len() > 0 {
        let p = rows.drop_last();
        assert forall|i: int| 0 <= i < p.len() implies (#[trigger] spec_parse_kline(p[i])) is Some by {
            assert(p[i] == rows[i]);
        }
        lemma_all_rows_parse(p);
        assert(spec_parse_kline(rows[rows.len() - 1]) is Some);
        assert forall|i: int| 0 <= i < rows.len() implies Some(#[trigger] spec_parse_rows(rows)[i]) == spec_parse_kline(rows[i]) by {
            if i < p.len() {
                assert(p[i] == rows[i]);
            }
        }
    }
}

/// Appends to `out` the klines that the response `page` holds, in order.
pub fn collect_page_klines(page: &JsonValue, out: &mut Vec<BybitApiKline>)
    ensures
        kline_views(final(out)@) == kline_views(old(out)@) + spec_page_klines(*page),
{
    let list = match page.member("result") {
        Some(r) => match r.member("list") {
            Some(l) => l.as_array(),
            None => None,
        },
        None => None,
    };
    let rows = match list {
        Some(rows) => rows,
        None => {
            assert(kline_views(out@) =~= kline_views(out@) + Seq::<KlineView>::empty());
            return;
        },
    };
    let ghost start = kline_views(out@);
    let mut i: usize = 0;
    assert(rows@.take(0) =~= Seq::<JsonValue>::empty());
    assert(start + spec_parse_rows(rows@.take(0)) =~= start);
    while i < rows.len()
        invariant
            i <= rows@.len(),
            kline_views(out@) == start + spec_parse_rows(rows@.take(i as int)),
        decreases rows@.len() - i,
    {
        let ghost before = rows@.take(i as int);
        assert(rows@.take(i + 1).drop_last() =~= before);
        assert(rows@.take(i + 1).last() == rows@[i as int]);
        match parse_kline_array(&rows[i]) {
            Some(k) => {
                let ghost prev = out@;
                let ghost kv = k@;
                out.push(k);
                assert(kline_views(out@) =~= kline_views(prev).push(kv));
                assert(kline_views(out@) =~= start + spec_parse_rows(before).push(kv));
            },
            None => {},
        }
        i = i + 1;
    }
    assert(rows@.take(rows@.len() as int) =~= rows@);
}

/// The base URL of the Bybit API where none is configured.
pub open spec fn default_base_url() -> Seq<char> {
    "https://api.bybit.com"@
}

/// The pause after each page, in milliseconds.
pub const RATE_LIMIT_MS: u64 = 500;

/// How to reach the Bybit API.
pub struct BybitConfig {
    pub api_key: String,
    pub secret: String,
    pub base_url: String,
    pub rate_limit_ms: u64,
}

/// The text of `o`, or `default` where there is none.
pub open spec fn text_or(o: Option<String>, default: Seq<char>) -> Seq<char> {
    match o {
        Some(s) => s@,
        None => default,
    }
}

impl BybitConfig {
    /// The configuration from the settings found (each `None` where it is not
    /// set): a missing key or secret is empty, a missing base URL is
    /// `https://api.bybit.com`, and pages are 500 ms apart.
    pub fn from_settings(api_key: Option<String>, secret: Option<String>, base_url: Option<String>) -> (c: Self)
        ensures
            c.api_key@ == text_or(api_key, Seq::<char>::empty()),
            c.secret@ == text_or(secret, Seq::<char>::empty()),
            c.base_url@ == text_or(base_url, default_base_url()),
            c.rate_limit_ms == RATE_LIMIT_MS,
    {
        let api_key = match api_key {
            Some(k) => k,
            None => String::new(),
        };
        let secret = match secret {
            Some(s) => s,
            None => String::new(),
        };
        let base_url = match base_url {
            Some(u) => u,
            None => String::from_str("https://api.bybit.com"),
        };
        BybitConfig { api_key, secret, base_url, rate_limit_ms: RATE_LIMIT_MS }
    }
}

} // verus!

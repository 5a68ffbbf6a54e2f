//! The rows that a download of klines stores: each reported kline becomes a
//! record with decimal prices, stamped with its open time.

use vstd::prelude::*;
use bigdecimal::{BigDecimal, ParseBigDecimalError};
use crate::bybit::{BybitApiKline, KlineView};
use crate::time::{datetime_ms, is_representable_millis, NANOS_PER_MS};

verus! {

#[verifier::external_type_specification]
#[verifier::external_body]
pub struct ExBigDecimal(BigDecimal);

#[verifier::external_type_specification]
#[verifier::external_body]
pub struct ExParseBigDecimalError(ParseBigDecimalError);

/// Does `BigDecimal::from_str` accept the text `s`? Its grammar (digits with
/// an optional sign, point, underscores and exponent) is the crate's own.
pub uninterp spec fn decimal_text_accepted(s: Seq<char>) -> bool;

/// The decimal that `BigDecimal::from_str` reads from an accepted text `s`.
pub uninterp spec fn decimal_of(s: Seq<char>) -> BigDecimal;

/// `BigDecimal::from_str` (base ten): succeeds exactly on the texts that the
/// crate accepts, and fails on the empty text; what it reads is a function
/// of the text alone (`decimal_of`).
#[verifier::external_body]
fn parse_decimal(s: &str) -> (r: Result<BigDecimal, ParseBigDecimalError>)
    ensures
        r is Ok <==> decimal_text_accepted(s@),
        s@.len() == 0 ==> r is Err,
        r matches Ok(d) ==> d == decimal_of(s@),
{
    s.parse::<BigDecimal>()
}

/// The price or amount of a kline whose text was refused.
#[derive(Debug, Clone, Copy, PartialEq, Eq, Structural)]
pub enum KlineField {
    Open,
    High,
    Low,
    Close,
    Volume,
    Turnover,
}

/// Why a kline could not be stored.
#[derive(Debug)]
pub enum KlineError {
    /// The text of the field is no decimal number; the parser's error comes along.
    InvalidDecimal(KlineField, ParseBigDecimalError),
}

/// A kline as it is stored: the symbol and interval it belongs to, its
/// start and open time (nanoseconds since the epoch), its prices and
/// amounts as decimals, and whether it is confirmed.
pub struct NewBybitKline {
    pub symbol: String,
    pub interval: String,
    pub start_time: i128,
    pub open_time: i128,
    pub open: BigDecimal,
    pub high: BigDecimal,
    pub low: BigDecimal,
    pub close: BigDecimal,
    pub volume: BigDecimal,
    pub turnover: Option<BigDecimal>,
    pub confirm: Option<bool>,
}

/// The open time (nanoseconds) stamped on a kline that starts at `start`
/// (milliseconds): its start where a date-time can hold it, else `now`.
pub open spec fn spec_open_time(start: i64, now: i128) -> int {
    if datetime_ms(start as int) {
        start * NANOS_PER_MS
    } else {
        now as int
    }
}

/// The first field of `k`, in the order open, high, low, close, volume,
/// turnover, whose text is no decimal; `None` where all are.
pub open spec fn spec_bad_field(k: KlineView) -> Option<KlineField> {
    if !decimal_text_accepted(k.open) {
        Some(KlineField::Open)
    } else if !decimal_text_accepted(k.high) {
        Some(KlineField::High)
    } else if !decimal_text_accepted(k.low) {
        Some(KlineField::Low)
    } else if !decimal_text_accepted(k.close) {
        Some(KlineField::Close)
    } else if !decimal_text_accepted(k.volume) {
        Some(KlineField::Volume)
    } else if !decimal_text_accepted(k.turnover) {
        Some(KlineField::Turnover)
    } else {
        None
    }
}

/// `rec` is the record of kline `k` of `symbol` and `interval`, stamped
/// while the clock read `now`: both its times are the open time, its prices
/// and amounts are the decimals of their texts, and it is confirmed.
pub open spec fn record_of(rec: NewBybitKline, symbol: Seq<char>, interval: Seq<char>, k: KlineView, now: i128) -> bool {
    &&& rec.symbol@ == symbol
    &&& rec.interval@ == interval
    &&& rec.start_time == spec_open_time(k.start_time, now)
    &&& rec.open_time == spec_open_time(k.start_time, now)
    &&& rec.open == decimal_of(k.open)
    &&& rec.high == decimal_of(k.high)
    &&& rec.low == decimal_of(k.low)
    &&& rec.close == decimal_of(k.close)
    &&& rec.volume == decimal_of(k.volume)
    &&& rec.turnover == Some(decimal_of(k.turnover))
    &&& rec.confirm == Some(true)
}

fn decimal_field(s: &String, field: KlineField) -> (r: Result<BigDecimal, KlineError>)
    ensures
        match r {
            Ok(d) => decimal_text_accepted(s@) && d == decimal_of(s@),
            Err(KlineError::InvalidDecimal(f, _)) => !decimal_text_accepted(s@) && f == field,
        },
{
    match parse_decimal(s.as_str()) {
        Ok(d) => Ok(d),
        Err(e) => Err(KlineError::InvalidDecimal(field, e)),
    }
}

/// The record of `kline`, or the first of its fields whose text is no decimal.
/// `now_ns` (the clock, in nanoseconds since the epoch) stands for the open
/// time of a kline whose start no date-time can hold.
pub fn kline_record(symbol: &str, interval: &str, kline: &BybitApiKline, now_ns: i128) -> (r: Result<NewBybitKline, KlineError>)
    ensures
        match r {
            Ok(rec) => spec_bad_field(kline@) is None && record_of(rec, symbol@, interval@, kline@, now_ns),
            Err(KlineError::InvalidDecimal(f, _)) => spec_bad_field(kline@) == Some(f),
        },
{
    let open_time: i128 = if is_representable_millis(kline.start_time) {
        (kline.start_time as i128) * NANOS_PER_MS
    } else {
        now_ns
    };
    let open = decimal_field(&kline.open, KlineField::Open)?;
    let high = decimal_field(&kline.high, KlineField::High)?;
    let low = decimal_field(&kline.low, KlineField::Low)?;
    let close = decimal_field(&kline.close, KlineField::Close)?;
    let volume = decimal_field(&kline.volume, KlineField::Volume)?;
    let turnover = decimal_field(&kline.turnover, KlineField::Turnover)?;
    Ok(NewBybitKline {
        symbol: String::from_str(symbol),
        interval: String::from_str(interval),
        start_time: open_time,
        open_time,
        open,
        high,
        low,
        close,
        volume,
        turnover: Some(turnover),
        confirm: Some(true),
    })
}

} // verus!

//! The market clock and calendar.

use vstd::prelude::*;

use crate::decode::{
    DecodeError, get_bool, get_date, get_time, get_timestamp, spec_bool_field, spec_date_field,
    spec_time_field, spec_timestamp_field
};
use crate::dates::{Date, TimeOfDay, Timestamp};
use crate::json::{JsonValue};

verus! {

/// The market's clock: whether it is open now, and when it next opens and closes.
#[derive(Debug, Clone, PartialEq)]
pub struct MarketClock {
    pub timestamp: Timestamp,
    pub is_open: bool,
    pub next_open: Timestamp,
    pub next_close: Timestamp,
}

/// Whether a parsed body has the shape of a [`MarketClock`].
pub open spec fn spec_market_clock_ok(v: JsonValue) -> bool {
    &&& spec_timestamp_field(v, "timestamp"@) is Some
    &&& spec_bool_field(v, "is_open"@) is Some
    &&& spec_timestamp_field(v, "next_open"@) is Some
    &&& spec_timestamp_field(v, "next_close"@) is Some
}

/// Whether `m` is exactly what the body `v` denotes, field by field.
pub open spec fn spec_market_clock_matches(v: JsonValue, m: MarketClock) -> bool {
    &&& Some(m.timestamp) == spec_timestamp_field(v, "timestamp"@)
    &&& m.is_open == spec_bool_field(v, "is_open"@)->0
    &&& Some(m.next_open) == spec_timestamp_field(v, "next_open"@)
    &&& Some(m.next_close) == spec_timestamp_field(v, "next_close"@)
}

/// Reads a [`MarketClock`] from a parsed response body.
#[verifier::loop_isolation(false)]
pub fn market_clock_from_json(v: &JsonValue) -> (r: Result<MarketClock, DecodeError>)
    ensures
        r is Ok <==> spec_market_clock_ok(*v),
        match r {
            Ok(m) => spec_market_clock_matches(*v, m),
            Err(_) => true,
        },
{
    let timestamp = get_timestamp(v, "timestamp")?;
    let is_open = get_bool(v, "is_open")?;
    let next_open = get_timestamp(v, "next_open")?;
    let next_close = get_timestamp(v, "next_close")?;
    Ok(MarketClock {
        timestamp,
        is_open,
        next_open,
        next_close,
    })
}

/// One trading day: its date, market hours, and settlement date.
#[derive(Debug, Clone, PartialEq)]
pub struct MarketCalendar {
    pub date: Date,
    pub open: TimeOfDay,
    pub close: TimeOfDay,
    pub settlement_date: Date,
}

/// Whether a parsed body has the shape of a [`MarketCalendar`].
pub open spec fn spec_market_calendar_ok(v: JsonValue) -> bool {
    &&& spec_date_field(v, "date"@) is Some
    &&& spec_time_field(v, "open"@) is Some
    &&& spec_time_field(v, "close"@) is Some
    &&& spec_date_field(v, "settlement_date"@) is Some
}

/// Whether `m` is exactly what the body `v` denotes, field by field.
pub open spec fn spec_market_calendar_matches(v: JsonValue, m: MarketCalendar) -> bool {
    &&& Some(m.date) == spec_date_field(v, "date"@)
    &&& Some(m.open) == spec_time_field(v, "open"@)
    &&& Some(m.close) == spec_time_field(v, "close"@)
    &&& Some(m.settlement_date) == spec_date_field(v, "settlement_date"@)
}

/// Reads a [`MarketCalendar`] from a parsed response body.
#[verifier::loop_isolation(false)]
pub fn market_calendar_from_json(v: &JsonValue) -> (r: Result<MarketCalendar, DecodeError>)
    ensures
        r is Ok <==> spec_market_calendar_ok(*v),
        match r {
            Ok(m) => spec_market_calendar_matches(*v, m),
            Err(_) => true,
        },
{
    let date = get_date(v, "date")?;
    let open = get_time(v, "open")?;
    let close = get_time(v, "close")?;
    let settlement_date = get_date(v, "settlement_date")?;
    Ok(MarketCalendar {
        date,
        open,
        close,
        settlement_date,
    })
}


/// Whether a parsed body is an array of well-formed [`MarketCalendar`] bodies.
pub open spec fn spec_market_calendars_ok(v: JsonValue) -> bool {
    match v {
        JsonValue::Arr(a) => forall|i: int| 0 <= i < a@.len() ==> spec_market_calendar_ok(#[trigger] a@[i]),
        _ => false,
    }
}

/// Reads a whole response array of [`MarketCalendar`] records.
#[verifier::loop_isolation(false)]
pub fn market_calendars_from_json(v: &JsonValue) -> (r: Result<Vec<MarketCalendar>, DecodeError>)
    ensures
        r is Ok <==> spec_market_calendars_ok(*v),
        match r {
            Ok(xs) => v matches JsonValue::Arr(a) && xs@.len() == a@.len() && (forall|i: int|
                0 <= i < a@.len() ==> spec_market_calendar_matches(#[trigger] a@[i], xs@[i])),
            Err(_) => true,
        },
{
    let arr = match v {
        JsonValue::Arr(a) => a,
        _ => {
            return Err(DecodeError::WrongType { field: String::from_str("body") });
        },
    };
    let n = arr.len();
    let mut out: Vec<MarketCalendar> = Vec::new();
    let mut i: usize = 0;
    while i < n
        invariant
            i <= n,
            out@.len() == i,
            forall|j: int|
                0 <= j < i ==> spec_market_calendar_ok(#[trigger] arr@[j]) && spec_market_calendar_matches(
                    arr@[j],
                    out@[j],
                ),
        decreases n - i,
    {
        let item = market_calendar_from_json(&arr[i])?;
        out.push(item);
        i = i + 1;
    }
    Ok(out)
}


} // verus!

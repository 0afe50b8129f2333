//! The metric side of the task: the statistics query for yesterday's
//! maximum estimated charge, and the choice of a datapoint out of what the
//! monitoring API returned.

use vstd::prelude::*;
use vstd::string::StringExecFns;
use crate::date::{Date, spec_prev_day, rfc3339_midnight, prev_day, format_rfc3339_midnight, today_utc};
use crate::errors::TaskError;

verus! {

/// One aggregated sample as the monitoring API hands it back: a timestamp,
/// when one was reported, and the maximum charge over the window in
/// micro-dollars, when one was reported.
#[derive(Clone, PartialEq, Debug)]
pub struct Datapoint {
    pub timestamp: Option<String>,
    pub maximum_micros: Option<u64>,
}

/// The aggregation window of the query: one full day, in seconds.
pub const QUERY_PERIOD_SECONDS: u32 = 86400;

/// Everything a statistics query for the billing metric says: which metric,
/// which dimension, which statistic, and over which window.
#[derive(Clone, Debug)]
pub struct MetricQuery {
    pub namespace: String,
    pub metric_name: String,
    pub dimension_name: String,
    pub dimension_value: String,
    pub statistic: String,
    pub period: u32,
    pub start_time: String,
    pub end_time: String,
}

/// The query asks for the maximum of the estimated-charges metric in USD,
/// aggregated over one day, from the midnight before `today` to the
/// midnight of `today`.
pub open spec fn query_matches(q: MetricQuery, today: Date) -> bool {
    &&& q.namespace@ == "AWS/Billing"@
    &&& q.metric_name@ == "EstimatedCharges"@
    &&& q.dimension_name@ == "Currency"@
    &&& q.dimension_value@ == "USD"@
    &&& q.statistic@ == "Maximum"@
    &&& q.period == QUERY_PERIOD_SECONDS
    &&& q.start_time@ == rfc3339_midnight(spec_prev_day(today))
    &&& q.end_time@ == rfc3339_midnight(today)
}

/// Build the query for the full calendar day before `today`.
pub fn build_query(today: Date) -> (q: MetricQuery)
    requires
        today.valid(),
        1 <= today.year <= 9999,
    ensures
        query_matches(q, today),
{
    let yesterday = prev_day(today);
    MetricQuery {
        namespace: String::from_str("AWS/Billing"),
        metric_name: String::from_str("EstimatedCharges"),
        dimension_name: String::from_str("Currency"),
        dimension_value: String::from_str("USD"),
        statistic: String::from_str("Maximum"),
        period: QUERY_PERIOD_SECONDS,
        start_time: format_rfc3339_midnight(yesterday),
        end_time: format_rfc3339_midnight(today),
    }
}

/// Build the query for the prior calendar day, taking "today" from the wall
/// clock. Whatever date the clock reports, a returned query is the correct
/// one for some valid four-digit-year date; a clock outside that range is
/// reported, not formatted wrongly.
pub fn query_for_yesterday() -> (r: Result<MetricQuery, TaskError>)
    ensures
        ({
            match r {
                Ok(q) => exists|today: Date|
                    today.valid() && 1 <= today.year <= 9999 && query_matches(q, today),
                Err(e) => e == TaskError::ClockOutOfRange,
            }
        }),
{
    let today = today_utc();
    if today.year < 1 || today.year > 9999 {
        Err(TaskError::ClockOutOfRange)
    } else {
        let q = build_query(today);
        proof {
            assert(today.valid() && 1 <= today.year <= 9999 && query_matches(q, today));
        }
        Ok(q)
    }
}

/// Take the datapoint the message will describe: the first of the returned
/// list, exactly as the API ordered them; an empty list is the explicit
/// no-data failure.
pub fn select_datapoint(points: Vec<Datapoint>) -> (r: Result<Datapoint, TaskError>)
    ensures
        points@.len() == 0 <==> r == Err::<Datapoint, TaskError>(TaskError::NoDatapoints),
        points@.len() > 0 ==> r == Ok::<Datapoint, TaskError>(points@[0]),
{
    let mut points = points;
    if points.len() == 0 {
        Err(TaskError::NoDatapoints)
    } else {
        Ok(points.remove(0))
    }
}

} // verus!

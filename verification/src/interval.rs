//! Spans of time, counted the way the database server counts them.

use diesel::dsl::IntervalDsl;
use vstd::prelude::*;

use crate::tables::Interval;

verus! {

impl Interval {
    /// A span of whole months.
    pub open spec fn of_months(n: int) -> Interval {
        Interval { microseconds: 0, days: 0, months: n as i32 }
    }

    /// A span of whole days.
    pub open spec fn of_days(n: int) -> Interval {
        Interval { microseconds: 0, days: n as i32, months: 0 }
    }

    /// A span of whole hours.
    pub open spec fn of_hours(n: int) -> Interval {
        Interval { microseconds: (n * 3_600_000_000) as i64, days: 0, months: 0 }
    }
}

/// Calls diesel's `IntervalDsl::years` on an `i32`. A year is taken to be twelve months, and
/// nothing else is counted; twelve times the number has to be an `i32`.
#[verifier::external_body]
pub(crate) fn years(n: i32) -> (span: Interval)
    requires
        i32::MIN <= 12 * n <= i32::MAX,
    ensures
        span == Interval::of_months(12 * n),
{
    let span = n.years();
    Interval { microseconds: span.microseconds, days: span.days, months: span.months }
}

/// Calls diesel's `IntervalDsl::months` on an `i32`. The span has that many months, and nothing
/// else is counted.
#[verifier::external_body]
pub(crate) fn months(n: i32) -> (span: Interval)
    ensures
        span == Interval::of_months(n as int),
{
    let span = n.months();
    Interval { microseconds: span.microseconds, days: span.days, months: span.months }
}

/// Calls diesel's `IntervalDsl::weeks` on an `i32`. A week is taken to be seven days, and nothing
/// else is counted; seven times the number has to be an `i32`.
#[verifier::external_body]
pub(crate) fn weeks(n: i32) -> (span: Interval)
    requires
        i32::MIN <= 7 * n <= i32::MAX,
    ensures
        span == Interval::of_days(7 * n),
{
    let span = n.weeks();
    Interval { microseconds: span.microseconds, days: span.days, months: span.months }
}

/// Calls diesel's `IntervalDsl::days` on an `i32`. The span has that many days, and nothing else
/// is counted.
#[verifier::external_body]
pub(crate) fn days(n: i32) -> (span: Interval)
    ensures
        span == Interval::of_days(n as int),
{
    let span = n.days();
    Interval { microseconds: span.microseconds, days: span.days, months: span.months }
}

/// Calls diesel's `IntervalDsl::hours` on an `i32`. The hours are counted in microseconds, which
/// an `i64` holds for every `i32`, and nothing else is counted.
#[verifier::external_body]
pub(crate) fn hours(n: i32) -> (span: Interval)
    ensures
        span == Interval::of_hours(n as int),
{
    let span = n.hours();
    Interval { microseconds: span.microseconds, days: span.days, months: span.months }
}

} // verus!

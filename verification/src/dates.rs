//! Temporal codec.
//!
//! The store keeps a birthday as a calendar date with no time of day; clients
//! see it as a signed epoch-millisecond timestamp at midnight UTC of that
//! date. A date is modelled as its day number: the count of whole days since
//! 1970-01-01, negative for earlier dates. Converting a timestamp to a date
//! truncates the time of day (floor division by the length of a day), so the
//! date-to-timestamp-to-date round trip is exact, while the reverse round
//! trip is exact only for timestamps already aligned to midnight UTC.

use vstd::prelude::*;

verus! {

/// Milliseconds in one UTC day.
pub const MS_PER_DAY: i64 = 86_400_000;

/// Widest day number the codec accepts, about 270 millennia away from 1970.
pub const DAY_MAX: i64 = 100_000_000;

/// Widest timestamp the codec accepts: midnight UTC of the day `DAY_MAX`.
pub const STAMP_MAX: i64 = 8_640_000_000_000_000;

/// A calendar date, stored as its day number relative to 1970-01-01.
#[derive(Clone, Copy, Debug, PartialEq, Eq, Structural)]
pub struct Date {
    pub days: i64,
}

impl Date {
    /// A date the codec can express as an epoch-millisecond timestamp.
    pub open spec fn wf(self) -> bool {
        -DAY_MAX <= self.days <= DAY_MAX
    }
}

/// Midnight UTC of a date, in epoch milliseconds.
pub open spec fn stamp_of_date(d: Date) -> int {
    d.days * (MS_PER_DAY as int)
}

/// Day number of the UTC day containing an epoch-millisecond instant.
pub open spec fn day_of_stamp(ms: int) -> int {
    ms / (MS_PER_DAY as int)
}

/// A timestamp within the range the codec accepts.
pub open spec fn stamp_in_range(ms: int) -> bool {
    -STAMP_MAX <= ms <= STAMP_MAX
}

/// The stored form of an optional transmitted birthday: the date of the UTC
/// day containing the instant, absence kept as absence.
pub open spec fn internal_of_transmitted(t: Option<i64>) -> Option<Date> {
    match t {
        Some(ms) => Some(Date { days: day_of_stamp(ms as int) as i64 }),
        None => None,
    }
}

/// Converts a stored date to its transmitted form: the epoch-millisecond
/// timestamp of midnight UTC on that date.
pub fn date_to_stamp(d: Date) -> (ms: i64)
    requires
        d.wf(),
    ensures
        ms == stamp_of_date(d),
        stamp_in_range(ms as int),
        ms as int % (MS_PER_DAY as int) == 0,
{
    proof {
        vstd::arithmetic::div_mod::lemma_mod_multiples_basic(d.days as int, MS_PER_DAY as int);
    }
    d.days * MS_PER_DAY
}

/// Converts a transmitted timestamp to the stored date: the calendar date of
/// the UTC day containing the instant, truncating any time of day.
pub fn stamp_to_date(ms: i64) -> (d: Date)
    requires
        stamp_in_range(ms as int),
    ensures
        d.days == day_of_stamp(ms as int),
        d.wf(),
{
    let ghost md: int = MS_PER_DAY as int;
    if ms >= 0 {
        let q: u64 = (ms as u64) / (MS_PER_DAY as u64);
        proof {
            assert(q * (MS_PER_DAY as u64) + (ms as u64) % (MS_PER_DAY as u64) == ms as u64);
            vstd::arithmetic::div_mod::lemma_fundamental_div_mod_converse(
                ms as int,
                md,
                q as int,
                ((ms as u64) % (MS_PER_DAY as u64)) as int,
            );
        }
        Date { days: q as i64 }
    } else {
        // For a negative instant the day number is the negated round-up of
        // the magnitude: floor(-m / p) == -ceil(m / p).
        let mag: u64 = ((-(ms + 1)) as u64) + 1;
        let q: u64 = (mag + 86_399_999) / (MS_PER_DAY as u64);
        proof {
            let m: int = mag as int;
            assert(m == -(ms as int));
            let qd: int = m / md;
            let rd: int = m % md;
            vstd::arithmetic::div_mod::lemma_fundamental_div_mod(m, md);
            if rd == 0 {
                vstd::arithmetic::div_mod::lemma_fundamental_div_mod_converse(
                    m + md - 1,
                    md,
                    qd,
                    md - 1,
                );
                vstd::arithmetic::div_mod::lemma_fundamental_div_mod_converse(
                    ms as int,
                    md,
                    -qd,
                    0,
                );
            } else {
                vstd::arithmetic::div_mod::lemma_fundamental_div_mod_converse(
                    m + md - 1,
                    md,
                    qd + 1,
                    rd - 1,
                );
                vstd::arithmetic::div_mod::lemma_fundamental_div_mod_converse(
                    ms as int,
                    md,
                    -(qd + 1),
                    md - rd,
                );
            }
            assert((mag + 86_399_999) as int / md == (m + md - 1) / md);
        }
        Date { days: -(q as i64) }
    }
}

/// Transmitted form of an optional stored birthday: absence maps to absence.
pub fn to_transmitted(b: Option<Date>) -> (r: Option<i64>)
    requires
        b matches Some(d) ==> d.wf(),
    ensures
        r is Some <==> b is Some,
        b matches Some(d) ==> r == Some(stamp_of_date(d) as i64),
{
    match b {
        Some(d) => Some(date_to_stamp(d)),
        None => None,
    }
}

/// Stored form of an optional transmitted birthday: absence maps to absence.
pub fn to_internal(t: Option<i64>) -> (r: Option<Date>)
    requires
        t matches Some(ms) ==> stamp_in_range(ms as int),
    ensures
        r == internal_of_transmitted(t),
        r matches Some(d) ==> d.wf(),
{
    match t {
        Some(ms) => Some(stamp_to_date(ms)),
        None => None,
    }
}

/// Law: a stored date survives the trip to its transmitted timestamp and
/// back unchanged.
pub proof fn lemma_date_round_trip(d: Date)
    requires
        d.wf(),
    ensures
        day_of_stamp(stamp_of_date(d)) == d.days,
{
    vstd::arithmetic::div_mod::lemma_div_multiples_vanish(
        d.days as int,
        MS_PER_DAY as int,
    );
}

/// Law: a transmitted timestamp survives the trip to its stored date and back
/// exactly when it is already aligned to midnight UTC; any other timestamp is
/// truncated to the midnight at or before it.
pub proof fn lemma_stamp_round_trip(ms: int)
    requires
        stamp_in_range(ms),
    ensures
        stamp_of_date(Date { days: day_of_stamp(ms) as i64 }) == ms <==> ms % (
        MS_PER_DAY as int) == 0,
{
    let md: int = MS_PER_DAY as int;
    vstd::arithmetic::div_mod::lemma_fundamental_div_mod(ms, md);
    assert(-DAY_MAX <= ms / md <= DAY_MAX) by (nonlinear_arith)
        requires
            -STAMP_MAX <= ms <= STAMP_MAX,
            md == 86_400_000,
            STAMP_MAX == 8_640_000_000_000_000,
            DAY_MAX == 100_000_000,
            ms == md * (ms / md) + ms % md,
            0 <= ms % md < md,
    ;
    assert((day_of_stamp(ms) as i64) as int == ms / md);
}

} // verus!

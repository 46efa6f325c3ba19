//! Instants of measurement, held as epoch seconds.
//!
//! The remote endpoint hands timestamps over as RFC 3339 text; parsing goes
//! through chrono behind a trusted wrapper. Rendering for the forwarded
//! payload is the library's own: a verified conversion from epoch seconds to
//! the `YYYY-MM-DDTHH:MM:SSZ` form, specified through the civil calendar.

use vstd::arithmetic::div_mod::{
    lemma_div_is_ordered,
    lemma_fundamental_div_mod,
    lemma_fundamental_div_mod_converse,
    lemma_mod_mod,
};
use vstd::prelude::*;

use crate::text::{dec2, dec4, push_2digits, push_4digits, push_char};

verus! {

/// The last instant the forwarder can render: 9999-12-31T23:59:59Z.
pub const MAX_EPOCH: i64 = 253402300799;

/// Whether `y` is a leap year of the Gregorian calendar.
pub open spec fn is_leap_year(y: int) -> bool {
    y % 4 == 0 && (y % 100 != 0 || y % 400 == 0)
}

/// Days in year `y`.
pub open spec fn days_in_year(y: int) -> int {
    if is_leap_year(y) {
        366
    } else {
        365
    }
}

/// Days in month `m` of year `y`.
pub open spec fn days_in_month(y: int, m: int) -> int {
    if m == 2 {
        if is_leap_year(y) {
            29
        } else {
            28
        }
    } else if m == 4 || m == 6 || m == 9 || m == 11 {
        30
    } else {
        31
    }
}

/// Days of year `y` that lie before month `m`.
pub open spec fn days_before_month(y: int, m: int) -> int
    decreases m,
{
    if m <= 1 {
        0
    } else {
        days_before_month(y, m - 1) + days_in_month(y, m - 1)
    }
}

/// Leap years from 1970 (inclusive) up to year `y` (exclusive); 477 of the
/// years before 1970 are leap years.
pub open spec fn leap_years_before(y: int) -> int {
    (y - 1) / 4 - (y - 1) / 100 + (y - 1) / 400 - 477
}

/// Days from 1970-01-01 up to the first day of year `y`.
pub open spec fn days_before_year(y: int) -> int {
    365 * (y - 1970) + leap_years_before(y)
}

/// Quotients of neighbouring dividends: dividing `a` rounds one step higher
/// than dividing `a - 1` exactly when `d` divides `a`.
proof fn lemma_div_succ(a: int, d: int)
    requires
        d > 0,
    ensures
        a / d == (a - 1) / d + (if a % d == 0 {
            1int
        } else {
            0int
        }),
{
    broadcast use vstd::arithmetic::mul::group_mul_properties;

    lemma_fundamental_div_mod(a, d);
    if a % d == 0 {
        lemma_fundamental_div_mod_converse(a - 1, d, a / d - 1, d - 1);
    } else {
        lemma_fundamental_div_mod_converse(a - 1, d, a / d, a % d - 1);
    }
}

/// Crossing from year `y` to year `y + 1` adds one counted leap year exactly
/// when `y` is one.
proof fn lemma_leap_step(y: int)
    requires
        y >= 1,
    ensures
        leap_years_before(y + 1) == leap_years_before(y) + (if is_leap_year(y) {
            1int
        } else {
            0int
        }),
{
    lemma_div_succ(y, 4);
    lemma_div_succ(y, 100);
    lemma_div_succ(y, 400);
    if y % 100 == 0 {
        lemma_mod_mod(y, 4, 25);
        assert(y % 4 == 0);
    }
    if y % 400 == 0 {
        lemma_mod_mod(y, 100, 4);
        assert(y % 100 == 0);
    }
}

/// The day count before a year grows by that year's length.
proof fn lemma_days_before_year_step(y: int)
    requires
        y >= 1970,
    ensures
        days_before_year(y + 1) == days_before_year(y) + days_in_year(y),
{
    lemma_leap_step(y);
}

/// The months of a year sum up to the year's length.
proof fn lemma_days_before_month_full(y: int)
    ensures
        days_before_month(y, 13) == days_in_year(y),
{
    reveal_with_fuel(days_before_month, 13);
}

/// The year that day `rem` after the first day of year `y` falls in, with
/// the remaining days into that year.
pub open spec fn year_and_rem(y: int, rem: int) -> (int, int)
    decreases rem,
{
    if rem >= days_in_year(y) {
        year_and_rem(y + 1, rem - days_in_year(y))
    } else {
        (y, rem)
    }
}

/// The month that day `rem` after the first day of month `m` of year `y`
/// falls in, with the remaining days into that month.
pub open spec fn month_and_rem(y: int, m: int, rem: int) -> (int, int)
    decreases 12 - m,
{
    if m < 12 && rem >= days_in_month(y, m) {
        month_and_rem(y, m + 1, rem - days_in_month(y, m))
    } else {
        (m, rem)
    }
}

/// The civil date (year, month, day) of the day `z` days after 1970-01-01.
pub open spec fn civil_of_days(z: int) -> (int, int, int) {
    let yr = year_and_rem(1970, z);
    let mr = month_and_rem(yr.0, 1, yr.1);
    (yr.0, mr.0, mr.1 + 1)
}

/// The RFC 3339 rendering of an instant given as nonnegative epoch seconds:
/// the civil date, 'T', the time of day, 'Z'.
pub open spec fn rfc3339_utc_text(t: int) -> Seq<char> {
    let date = civil_of_days(t / 86400);
    let sod = t % 86400;
    dec4(date.0 as nat) + seq!['-'] + dec2(date.1 as nat) + seq!['-'] + dec2(date.2 as nat)
        + seq!['T'] + dec2((sod / 3600) as nat) + seq![':'] + dec2(((sod / 60) % 60) as nat)
        + seq![':'] + dec2((sod % 60) as nat) + seq!['Z']
}

fn leap_year(y: u64) -> (b: bool)
    ensures
        b == is_leap_year(y as int),
{
    y % 4 == 0 && (y % 100 != 0 || y % 400 == 0)
}

fn year_days(y: u64) -> (d: u64)
    ensures
        d == days_in_year(y as int),
{
    if leap_year(y) {
        366
    } else {
        365
    }
}

fn month_days(y: u64, m: u64) -> (d: u64)
    ensures
        d == days_in_month(y as int, m as int),
{
    if m == 2 {
        if leap_year(y) {
            29
        } else {
            28
        }
    } else if m == 4 || m == 6 || m == 9 || m == 11 {
        30
    } else {
        31
    }
}

/// Renders an instant, given as epoch seconds, in the RFC 3339 form
/// `YYYY-MM-DDTHH:MM:SSZ` that the downstream payload carries.
pub fn format_rfc3339_utc(t: i64) -> (r: String)
    requires
        0 <= t <= MAX_EPOCH,
    ensures
        r@ == rfc3339_utc_text(t as int),
{
    let tu = t as u64;
    let z: u64 = tu / 86400;
    let sod: u64 = tu % 86400;
    proof {
        lemma_div_is_ordered(tu as int, 253402300799, 86400);
        assert(z <= 2932896);
        assert(days_before_year(1970) == 0);
    }
    let mut y: u64 = 1970;
    let mut rem: u64 = z;
    loop
        invariant
            1970 <= y <= 9999,
            rem <= z,
            z <= 2932896,
            year_and_rem(1970, z as int) == year_and_rem(y as int, rem as int),
            days_before_year(y as int) + rem == z,
        ensures
            1970 <= y <= 9999,
            rem < days_in_year(y as int),
            year_and_rem(1970, z as int) == (y as int, rem as int),
        decreases rem,
    {
        let dy = year_days(y);
        if rem < dy {
            break;
        }
        proof {
            lemma_days_before_year_step(y as int);
            if y == 9999 {
                assert(days_before_year(10000) == 2932897);
                assert(false);
            }
        }
        rem = rem - dy;
        y = y + 1;
    }
    let ghost rem0: int = rem as int;
    let mut m: u64 = 1;
    proof {
        assert(days_before_month(y as int, 1) == 0);
    }
    loop
        invariant
            1970 <= y <= 9999,
            1 <= m <= 12,
            month_and_rem(y as int, 1, rem0) == month_and_rem(y as int, m as int, rem as int),
            days_before_month(y as int, m as int) + rem == rem0,
            rem0 < days_in_year(y as int),
        ensures
            1 <= m <= 12,
            rem < days_in_month(y as int, m as int),
            month_and_rem(y as int, 1, rem0) == (m as int, rem as int),
        decreases 12 - m,
    {
        let dm = month_days(y, m);
        if rem < dm {
            break;
        }
        proof {
            if m == 12 {
                lemma_days_before_month_full(y as int);
                assert(days_before_month(y as int, 13) == days_before_month(y as int, 12)
                    + days_in_month(y as int, 12));
                assert(false);
            }
        }
        rem = rem - dm;
        m = m + 1;
    }
    let d = rem + 1;
    proof {
        assert(civil_of_days(z as int) == (y as int, m as int, d as int));
    }
    let hh = sod / 3600;
    let mi = (sod / 60) % 60;
    let ss = sod % 60;
    proof {
        lemma_div_is_ordered(sod as int, 86399, 3600);
        assert(hh <= 23);
    }
    let mut s = String::new();
    push_4digits(&mut s, y);
    push_char(&mut s, '-');
    push_2digits(&mut s, m);
    push_char(&mut s, '-');
    push_2digits(&mut s, d);
    push_char(&mut s, 'T');
    push_2digits(&mut s, hh);
    push_char(&mut s, ':');
    push_2digits(&mut s, mi);
    push_char(&mut s, ':');
    push_2digits(&mut s, ss);
    push_char(&mut s, 'Z');
    proof {
        assert(s@ =~= rfc3339_utc_text(t as int));
    }
    s
}

/// What chrono's RFC 3339 parser accepts, and the instant (as epoch
/// seconds) that an accepted text denotes. Left uninterpreted: the parsed
/// value is a function of the text alone, but its definition is chrono's.
pub uninterp spec fn rfc3339_epoch(s: Seq<char>) -> Option<i64>;

/// Relies on chrono's `DateTime::parse_from_rfc3339`, with
/// `DateTime::timestamp` on the parsed value: the outcome depends on the
/// text alone, and the epoch value is seconds since 1970-01-01T00:00:00Z
/// with sub-second digits discarded.
#[verifier::external_body]
pub(crate) fn parse_rfc3339_epoch(s: &str) -> (r: Option<i64>)
    ensures
        r == rfc3339_epoch(s@),
{
    chrono::DateTime::parse_from_rfc3339(s).ok().map(|dt| dt.timestamp())
}

/// Relies on chrono's `Utc::now`, with `DateTime::timestamp`: the current
/// instant as epoch seconds. Nothing is assumed of the value.
#[verifier::external_body]
pub(crate) fn now_epoch() -> i64 {
    chrono::Utc::now().timestamp()
}

} // verus!

//! The timestamp formatter: a fixed-width, sortable `YYYYMMDD_HHMMSS_mmm`
//! string with millisecond resolution.
//!
//! The calendar computation is a deliberately simplified approximation:
//! years are a fixed 365 days and months a fixed 30 days, so leap years,
//! real month lengths and calendar edge cases are not accounted for.  The
//! month and day fields count from zero.  This is a known inaccuracy of
//! the format, kept because the strings only need to be distinct and
//! sortable, not calendar-correct.

use crate::digits::{
    is_digit, lemma_decimal_len, lemma_padded, push_padded2, push_padded3, push_padded4,
    spec_padded,
};
use vstd::prelude::*;
use vstd::string::StringExecFns;

verus! {

pub const SECS_PER_MINUTE: u64 = 60;

pub const SECS_PER_HOUR: u64 = 60 * 60;

pub const SECS_PER_DAY: u64 = 24 * 60 * 60;

pub const SECS_PER_MONTH: u64 = 30 * 24 * 60 * 60;

pub const SECS_PER_YEAR: u64 = 365 * 24 * 60 * 60;

pub const NANOS_PER_MILLI: u64 = 1000000;

/// The greatest number of whole seconds since the epoch whose year field
/// still has four digits (the year 9999 ends at this bound).
pub const LAST_FOUR_DIGIT_YEAR_SEC: u64 = 253234079999;

/// The timestamp string for an instant given as whole seconds since the
/// Unix epoch plus the sub-second nanoseconds: the year (four digits or
/// more), month and day (two digits each, counted from zero), an
/// underscore, hour, minute and second (two digits each), an underscore,
/// and the milliseconds (three digits).
pub open spec fn spec_timestamp(secs: u64, nanos: u64) -> Seq<char> {
    let millis = nanos / NANOS_PER_MILLI % 1000;
    let year = 1970 + secs / SECS_PER_YEAR;
    let rem_year = secs % SECS_PER_YEAR;
    let month = rem_year / SECS_PER_MONTH;
    let rem_month = rem_year % SECS_PER_MONTH;
    let day = rem_month / SECS_PER_DAY;
    let rem_day = rem_month % SECS_PER_DAY;
    let hour = rem_day / SECS_PER_HOUR;
    let rem_hour = rem_day % SECS_PER_HOUR;
    let minute = rem_hour / SECS_PER_MINUTE;
    let second = rem_hour % SECS_PER_MINUTE;
    spec_padded(year as nat, 4) + spec_padded(month as nat, 2) + spec_padded(day as nat, 2)
        + seq!['_'] + spec_padded(hour as nat, 2) + spec_padded(minute as nat, 2) + spec_padded(
        second as nat,
        2,
    ) + seq!['_'] + spec_padded(millis as nat, 3)
}

/// The shape every timestamp of a four-digit year has: eight digits, an
/// underscore, six digits, an underscore, three digits.
pub open spec fn is_timestamp_shape(t: Seq<char>) -> bool {
    &&& t.len() == 19
    &&& t[8] == '_'
    &&& t[15] == '_'
    &&& forall|i: int| 0 <= i < 19 && i != 8 && i != 15 ==> is_digit(#[trigger] t[i])
}

/// Format the instant `secs` whole seconds plus `nanos` sub-second
/// nanoseconds after the Unix epoch.
pub fn format_timestamp(secs: u64, nanos: u64) -> (r: String)
    ensures
        r@ == spec_timestamp(secs, nanos),
{
    proof {
        vstd::arithmetic::div_mod::lemma_div_is_ordered_by_denominator(
            secs as int,
            2,
            SECS_PER_YEAR as int,
        );
        vstd::arithmetic::div_mod::lemma_div_is_ordered(secs as int, u64::MAX as int, 2);
        vstd::arithmetic::div_mod::lemma_fundamental_div_mod_converse(
            u64::MAX as int,
            2,
            9223372036854775807,
            1,
        );
    }
    let millis = nanos / NANOS_PER_MILLI % 1000;
    let year = 1970 + secs / SECS_PER_YEAR;
    let rem_year = secs % SECS_PER_YEAR;
    let month = rem_year / SECS_PER_MONTH;
    let rem_month = rem_year % SECS_PER_MONTH;
    let day = rem_month / SECS_PER_DAY;
    let rem_day = rem_month % SECS_PER_DAY;
    let hour = rem_day / SECS_PER_HOUR;
    let rem_hour = rem_day % SECS_PER_HOUR;
    let minute = rem_hour / SECS_PER_MINUTE;
    let second = rem_hour % SECS_PER_MINUTE;
    let mut r = String::new();
    push_padded4(&mut r, year);
    push_padded2(&mut r, month);
    push_padded2(&mut r, day);
    r.append("_");
    push_padded2(&mut r, hour);
    push_padded2(&mut r, minute);
    push_padded2(&mut r, second);
    r.append("_");
    push_padded3(&mut r, millis);
    proof {
        reveal_strlit("_");
        assert(r@ =~= spec_timestamp(secs, nanos));
    }
    r
}

/// Law: for every instant up to the end of the year 9999, the timestamp
/// string has the exact shape of eight digits, an underscore, six digits,
/// an underscore, and three digits.
pub proof fn lemma_timestamp_shape(secs: u64, nanos: u64)
    requires
        secs <= LAST_FOUR_DIGIT_YEAR_SEC,
    ensures
        is_timestamp_shape(spec_timestamp(secs, nanos)),
{
    let millis = nanos / NANOS_PER_MILLI % 1000;
    let year = 1970 + secs / SECS_PER_YEAR;
    let rem_year = secs % SECS_PER_YEAR;
    let month = rem_year / SECS_PER_MONTH;
    let rem_month = rem_year % SECS_PER_MONTH;
    let day = rem_month / SECS_PER_DAY;
    let rem_day = rem_month % SECS_PER_DAY;
    let hour = rem_day / SECS_PER_HOUR;
    let rem_hour = rem_day % SECS_PER_HOUR;
    let minute = rem_hour / SECS_PER_MINUTE;
    let second = rem_hour % SECS_PER_MINUTE;
    vstd::arithmetic::div_mod::lemma_div_is_ordered(
        secs as int,
        LAST_FOUR_DIGIT_YEAR_SEC as int,
        SECS_PER_YEAR as int,
    );
    vstd::arithmetic::div_mod::lemma_fundamental_div_mod_converse(
        LAST_FOUR_DIGIT_YEAR_SEC as int,
        SECS_PER_YEAR as int,
        8029,
        31535999,
    );
    assert(1970 <= year <= 9999);
    vstd::arithmetic::div_mod::lemma_mod_bound(secs as int, SECS_PER_YEAR as int);
    vstd::arithmetic::div_mod::lemma_div_is_ordered(rem_year as int, 31535999, SECS_PER_MONTH as int);
    vstd::arithmetic::div_mod::lemma_fundamental_div_mod_converse(
        31535999,
        SECS_PER_MONTH as int,
        12,
        431999,
    );
    assert(month <= 12);
    vstd::arithmetic::div_mod::lemma_mod_bound(rem_year as int, SECS_PER_MONTH as int);
    vstd::arithmetic::div_mod::lemma_div_is_ordered(rem_month as int, 2591999, SECS_PER_DAY as int);
    vstd::arithmetic::div_mod::lemma_fundamental_div_mod_converse(
        2591999,
        SECS_PER_DAY as int,
        29,
        86399,
    );
    assert(day <= 29);
    vstd::arithmetic::div_mod::lemma_mod_bound(rem_month as int, SECS_PER_DAY as int);
    vstd::arithmetic::div_mod::lemma_div_is_ordered(rem_day as int, 86399, SECS_PER_HOUR as int);
    vstd::arithmetic::div_mod::lemma_fundamental_div_mod_converse(
        86399,
        SECS_PER_HOUR as int,
        23,
        3599,
    );
    assert(hour <= 23);
    vstd::arithmetic::div_mod::lemma_mod_bound(rem_day as int, SECS_PER_HOUR as int);
    vstd::arithmetic::div_mod::lemma_div_is_ordered(rem_hour as int, 3599, SECS_PER_MINUTE as int);
    vstd::arithmetic::div_mod::lemma_fundamental_div_mod_converse(
        3599,
        SECS_PER_MINUTE as int,
        59,
        59,
    );
    assert(minute <= 59);
    vstd::arithmetic::div_mod::lemma_mod_bound(rem_hour as int, SECS_PER_MINUTE as int);
    assert(second <= 59);
    vstd::arithmetic::div_mod::lemma_div_pos_is_pos(nanos as int, NANOS_PER_MILLI as int);
    vstd::arithmetic::div_mod::lemma_mod_bound((nanos / NANOS_PER_MILLI) as int, 1000);
    assert(millis <= 999);
    lemma_decimal_len(year as nat);
    lemma_decimal_len(month as nat);
    lemma_decimal_len(day as nat);
    lemma_decimal_len(hour as nat);
    lemma_decimal_len(minute as nat);
    lemma_decimal_len(second as nat);
    lemma_decimal_len(millis as nat);
    lemma_padded(year as nat, 4);
    lemma_padded(month as nat, 2);
    lemma_padded(day as nat, 2);
    lemma_padded(hour as nat, 2);
    lemma_padded(minute as nat, 2);
    lemma_padded(second as nat, 2);
    lemma_padded(millis as nat, 3);
    let t = spec_timestamp(secs, nanos);
    assert(t.len() == 19);
    assert(t[8] == '_');
    assert(t[15] == '_');
    assert forall|i: int| 0 <= i < 19 && i != 8 && i != 15 implies is_digit(#[trigger] t[i]) by {
        if i < 4 {
            assert(t[i] == spec_padded(year as nat, 4)[i]);
        } else if i < 6 {
            assert(t[i] == spec_padded(month as nat, 2)[i - 4]);
        } else if i < 8 {
            assert(t[i] == spec_padded(day as nat, 2)[i - 6]);
        } else if i < 11 {
            assert(t[i] == spec_padded(hour as nat, 2)[i - 9]);
        } else if i < 13 {
            assert(t[i] == spec_padded(minute as nat, 2)[i - 11]);
        } else if i < 15 {
            assert(t[i] == spec_padded(second as nat, 2)[i - 13]);
        } else {
            assert(t[i] == spec_padded(millis as nat, 3)[i - 16]);
        }
    }
}

/// Relies on `std::time::SystemTime::now`, `SystemTime::duration_since`
/// and `Duration`'s accessors: the wall clock read as whole seconds since
/// the Unix epoch plus the sub-second nanoseconds, which std documents to
/// be below one billion.  A clock standing before the epoch reads as the
/// epoch itself, so the call never panics.
#[verifier::external_body]
fn now_since_epoch() -> (r: (u64, u64))
    ensures
        r.1 < 1000000000,
{
    match std::time::SystemTime::now().duration_since(std::time::UNIX_EPOCH) {
        Ok(d) => (d.as_secs(), d.subsec_nanos() as u64),
        Err(_) => (0, 0),
    }
}

/// The timestamp string for the present moment: the formatted rendering
/// of some instant read from the wall clock.
pub fn get_timestamp() -> (r: String)
    ensures
        exists|s: u64, n: u64| n < 1000000000 && r@ == spec_timestamp(s, n),
{
    let (secs, nanos) = now_since_epoch();
    let r = format_timestamp(secs, nanos);
    proof {
        assert(nanos < 1000000000 && r@ == spec_timestamp(secs, nanos));
    }
    r
}

} // verus!

use vstd::prelude::*;
use vstd::arithmetic::div_mod::lemma_mod_multiples_vanish;

use crate::handlers::numbers::digit_char;

verus! {

/// An instant, as seconds and nanoseconds since the Unix epoch (UTC).
/// A well-formed one (`wf`) is one that chrono's `DateTime<Utc>` can hold: it
/// lies in chrono's range of dates (January 1 of 262144 BCE to December 31 of
/// 262142 CE), and its nanoseconds stay below one second except in the last
/// second of a minute, where a leap second reaches up to two.
#[derive(Clone, Copy, Debug, PartialEq, Eq)]
pub struct Timestamp {
    pub secs: i64,
    pub nanos: u32,
}

/// The first second of chrono's range of dates (a midnight).
pub const MIN_SECS: i64 = -8334601228800;

/// The last second of chrono's range of dates.
pub const MAX_SECS: i64 = 8210266876799;

impl Timestamp {
    pub open spec fn wf(self) -> bool {
        &&& MIN_SECS <= self.secs <= MAX_SECS
        &&& self.nanos < 2_000_000_000
        &&& self.nanos >= 1_000_000_000 ==> self.secs % 60 == 59
    }

    /// Whether the instant is well formed.
    pub fn is_wf(&self) -> (b: bool)
        ensures
            b == self.wf(),
    {
        if !(MIN_SECS <= self.secs && self.secs <= MAX_SECS) {
            return false;
        }
        proof {
            lemma_mod_multiples_vanish(138910020480, self.secs as int, 60);
        }
        let second: i128 = (self.secs as i128 - MIN_SECS as i128) % 60;
        self.nanos < 2_000_000_000 && (self.nanos < 1_000_000_000 || second == 59)
    }
}

/// Rounds `a / b` toward zero, as Rust's integer division does.
pub open spec fn div_toward_zero(a: int, b: int) -> int {
    if a >= 0 {
        a / b
    } else {
        -((-a) / b)
    }
}

/// The seconds since midnight of an instant.
pub open spec fn time_of_day(secs: int) -> int {
    secs % 86400
}

/// The leap second that chrono counts between two instants: one more where
/// `old` is in a leap second at an earlier time of day than `now`, one less
/// where `now` is in a leap second at an earlier time of day than `old`.
pub open spec fn leap_adjustment(now: Timestamp, old: Timestamp) -> int {
    let t_now = time_of_day(now.secs as int);
    let t_old = time_of_day(old.secs as int);
    if t_now > t_old && old.nanos >= 1_000_000_000 {
        1
    } else if t_now < t_old && now.nanos >= 1_000_000_000 {
        -1
    } else {
        0
    }
}

/// The whole seconds from `old` to `now`, rounded toward zero: what
/// `now.signed_duration_since(old).num_seconds()` gives in chrono.
pub open spec fn elapsed_seconds(now: Timestamp, old: Timestamp) -> int {
    div_toward_zero(
        (now.secs - old.secs + leap_adjustment(now, old)) * 1_000_000_000 + (now.nanos - old.nanos),
        1_000_000_000,
    )
}

/// The whole minutes from `old` to `now`, rounded toward zero (chrono's `num_minutes`).
pub open spec fn elapsed_minutes(now: Timestamp, old: Timestamp) -> int {
    div_toward_zero(elapsed_seconds(now, old), 60)
}

/// The whole hours from `old` to `now`, rounded toward zero (chrono's `num_hours`).
pub open spec fn elapsed_hours(now: Timestamp, old: Timestamp) -> int {
    div_toward_zero(elapsed_seconds(now, old), 3600)
}

/// The whole minutes and whole hours from `old` to `now`, from chrono:
/// `DateTime::from_timestamp` for both instants (which gives a date for every
/// well-formed one, so the unwraps do not stop), `signed_duration_since`, then
/// `num_minutes` and `num_hours`. The claim restates chrono's arithmetic
/// (`NaiveTime::signed_duration_since` and `TimeDelta::num_seconds`): the
/// difference in seconds and nanoseconds, with the leap second counted as
/// `leap_adjustment` says, each count rounded toward zero.
#[verifier::external_body]
pub(crate) fn chrono_elapsed(now: &Timestamp, old: &Timestamp) -> (mh: (i64, i64))
    requires
        now.wf(),
        old.wf(),
    ensures
        mh.0 == elapsed_minutes(*now, *old),
        mh.1 == elapsed_hours(*now, *old),
{
    let now = chrono::DateTime::from_timestamp(now.secs, now.nanos).unwrap();
    let old = chrono::DateTime::from_timestamp(old.secs, old.nanos).unwrap();
    let delta = now.signed_duration_since(old);
    (delta.num_minutes(), delta.num_hours())
}

/// The year, month and day, in the proleptic Gregorian calendar with
/// astronomical years (there is a year 0), of the day `days` after
/// 1970-01-01.
pub open spec fn civil_from_days(days: int) -> (int, int, int) {
    let z = days + 719468;
    let era = z / 146097;
    let doe = z - era * 146097;
    let yoe = (doe - doe / 1460 + doe / 36524 - doe / 146096) / 365;
    let doy = doe - (365 * yoe + yoe / 4 - yoe / 100);
    let mp = (5 * doy + 2) / 153;
    let day = doy - (153 * mp + 2) / 5 + 1;
    let month = if mp < 10 { mp + 3 } else { mp - 9 };
    let year = yoe + era * 400 + if month <= 2 { 1int } else { 0int };
    (year, month, day)
}

/// A number below a hundred in two digits, the first of them maybe a zero.
pub open spec fn two_digits(n: int) -> Seq<char> {
    seq![digit_char((n / 10) as nat), digit_char((n % 10) as nat)]
}

/// The date of an instant as chrono's `%x` writes it: `%m/%d/%y`, month and
/// day of the month in two digits, and the year's last two digits (the year
/// taken modulo 100, also for years before year 0).
pub open spec fn short_date_text(secs: int) -> Seq<char> {
    let (year, month, day) = civil_from_days(secs / 86400);
    two_digits(month) + seq!['/'] + two_digits(day) + seq!['/'] + two_digits(year % 100)
}

/// The `%x` date of an instant, from chrono's `DateTime::from_timestamp` and
/// `format("%x")`. `from_timestamp` gives a date for every well-formed
/// instant, so the unwrap does not stop. `%x` is `%m/%d/%y` (chrono's locale
/// formats are not enabled), each field written in two digits with zeros,
/// the year as its remainder modulo 100; the day is that of the instant's
/// seconds in the proleptic Gregorian calendar, its nanoseconds aside.
#[verifier::external_body]
pub(crate) fn short_date(at: &Timestamp) -> (d: String)
    requires
        at.wf(),
    ensures
        d@ == short_date_text(at.secs as int),
{
    chrono::DateTime::from_timestamp(at.secs, at.nanos).unwrap().format("%x").to_string()
}

} // verus!

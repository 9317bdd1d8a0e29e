//! Timestamps in RFC 3339, UTC, with microseconds: `YYYY-MM-DDTHH:MM:SS.ffffffZ`.

use vstd::prelude::*;
use crate::format::{digit_char, is_digit};

verus! {

/// Seconds in a day.
pub const SECS_PER_DAY: i64 = 86400;

/// The date chrono writes for the day that many days after 1970-01-01
/// (negative before it): `YYYY-MM-DD` for years 0 to 9999.
pub uninterp spec fn civil_date_text(day: int) -> Seq<char>;

/// A number below 100 as two digits.
pub open spec fn two_digits(n: nat) -> Seq<char> {
    seq![digit_char(n / 10), digit_char(n % 10)]
}

/// A number below 1000000 as six digits, with leading zeros.
pub open spec fn six_digits(n: nat) -> Seq<char> {
    seq![
        digit_char(n / 100000),
        digit_char((n / 10000) % 10),
        digit_char((n / 1000) % 10),
        digit_char((n / 100) % 10),
        digit_char((n / 10) % 10),
        digit_char(n % 10),
    ]
}

/// `THH:MM:SS.ffffffZ` for the time of day of `secs` (seconds since the
/// epoch) and `micros` microseconds.
pub open spec fn time_of_day_text(secs: int, micros: nat) -> Seq<char> {
    let sod = secs % 86400;
    seq!['T'] + two_digits((sod / 3600) as nat) + seq![':'] + two_digits(((sod % 3600) / 60) as nat) + seq![':']
        + two_digits((sod % 60) as nat) + seq!['.'] + six_digits(micros) + seq!['Z']
}

/// The RFC 3339 text of an instant: `secs` whole seconds since 1970-01-01
/// UTC (floor, so negative before it) and `micros` microseconds more.
pub open spec fn rfc3339_text(secs: int, micros: nat) -> Seq<char> {
    civil_date_text(secs / 86400) + time_of_day_text(secs, micros)
}

/// The instant falls in the years 0000 to 9999, whose dates have four-digit years.
pub open spec fn in_four_digit_years(secs: int) -> bool {
    -719528 <= secs / 86400 <= 2932896
}

/// `YYYY-MM-DD`.
pub open spec fn is_date_text(t: Seq<char>) -> bool {
    &&& t.len() == 10
    &&& is_digit(t[0]) && is_digit(t[1]) && is_digit(t[2]) && is_digit(t[3])
    &&& t[4] == '-'
    &&& is_digit(t[5]) && is_digit(t[6])
    &&& t[7] == '-'
    &&& is_digit(t[8]) && is_digit(t[9])
}

/// `YYYY-MM-DDTHH:MM:SS.ffffffZ`.
pub open spec fn is_rfc3339_micros_utc(t: Seq<char>) -> bool {
    &&& t.len() == 27
    &&& is_date_text(t.subrange(0, 10))
    &&& t[10] == 'T'
    &&& is_digit(t[11]) && is_digit(t[12])
    &&& t[13] == ':'
    &&& is_digit(t[14]) && is_digit(t[15])
    &&& t[16] == ':'
    &&& is_digit(t[17]) && is_digit(t[18])
    &&& t[19] == '.'
    &&& forall|i: int| 20 <= i < 26 ==> is_digit(#[trigger] t[i])
    &&& t[26] == 'Z'
}

/// An instant in the years 0000 to 9999 is written as
/// `YYYY-MM-DDTHH:MM:SS.ffffffZ`, given that its date is `YYYY-MM-DD`.
pub proof fn lemma_rfc3339_shape(secs: int, micros: nat)
    requires
        is_date_text(civil_date_text(secs / 86400)),
    ensures
        is_rfc3339_micros_utc(rfc3339_text(secs, micros)),
{
    let d = civil_date_text(secs / 86400);
    let t = rfc3339_text(secs, micros);
    assert(t.subrange(0, 10) =~= d);
    assert forall|i: int| 20 <= i < 26 implies is_digit(#[trigger] t[i]) by {
        assert(t[i] == six_digits(micros)[i - 20]);
    }
}

/// Relies on chrono: `DateTime::from_timestamp(secs, nanos)` (`None` only
/// outside chrono's range of dates), then `to_rfc3339_opts(Micros, true)`,
/// which writes the date, `T`, the time of day as `HH:MM:SS`, the
/// microseconds `nanos / 1000` as six digits, and `Z`; the date is
/// `YYYY-MM-DD` for the years 0 to 9999.
#[verifier::external_body]
fn chrono_rfc3339(secs: i64, nanos: u32) -> (r: Option<String>)
    requires
        nanos < 1_000_000_000,
    ensures
        in_four_digit_years(secs as int) ==> r is Some,
        r matches Some(t) ==> t@ == civil_date_text(secs as int / 86400) + time_of_day_text(
            secs as int,
            (nanos / 1000) as nat,
        ),
        r is Some && in_four_digit_years(secs as int) ==> is_date_text(civil_date_text(secs as int / 86400)),
{
    chrono::DateTime::from_timestamp(secs, nanos).map(|t| t.to_rfc3339_opts(chrono::SecondsFormat::Micros, true))
}

/// The RFC 3339 text of an instant given as seconds since the epoch (floor)
/// and microseconds; `None` when `micros` is not below one million, or the
/// instant lies outside the dates chrono represents.
pub fn format_rfc3339(secs: i64, micros: u32) -> (r: Option<String>)
    ensures
        micros >= 1_000_000 ==> r is None,
        micros < 1_000_000 && in_four_digit_years(secs as int) ==> r is Some,
        r matches Some(t) ==> t@ == rfc3339_text(secs as int, micros as nat),
        r is Some && in_four_digit_years(secs as int) ==> is_rfc3339_micros_utc(rfc3339_text(secs as int, micros as nat)),
{
    if micros >= 1_000_000 {
        return None;
    }
    let nanos: u32 = micros * 1000;
    assert(nanos / 1000 == micros);
    let r = chrono_rfc3339(secs, nanos);
    proof {
        if r is Some && in_four_digit_years(secs as int) {
            lemma_rfc3339_shape(secs as int, micros as nat);
        }
    }
    r
}

/// Relies on `std::time::SystemTime::elapsed` on `UNIX_EPOCH`: `Ok` with the
/// time since the epoch, or `Err` with how far before it the clock reads,
/// each as whole seconds and the microseconds within the second.
#[verifier::external_body]
pub(crate) fn read_clock() -> (r: Result<(u64, u32), (u64, u32)>)
    ensures
        r matches Ok(t) ==> t.1 < 1_000_000,
        r matches Err(t) ==> t.1 < 1_000_000,
{
    match std::time::UNIX_EPOCH.elapsed() {
        Ok(d) => Ok((d.as_secs(), d.subsec_micros())),
        Err(e) => Err((e.duration().as_secs(), e.duration().subsec_micros())),
    }
}

/// The instant a clock reading stands for, as whole seconds since the epoch
/// (floor, so negative before it) and the microseconds within that second.
/// A reading is `Ok` with the time since the epoch or `Err` with the time
/// before it, each as seconds and microseconds; `None` when the seconds do
/// not fit an `i64` or the microseconds are not below one million.
pub open spec fn instant_of(reading: Result<(u64, u32), (u64, u32)>) -> Option<(int, nat)> {
    match reading {
        Ok((_, us)) if us >= 1_000_000 => None,
        Err((_, us)) if us >= 1_000_000 => None,
        Ok((s, us)) => if s <= i64::MAX {
            Some((s as int, us as nat))
        } else {
            None
        },
        Err((s, us)) => if s > i64::MAX {
            None
        } else if us == 0 {
            Some((-(s as int), 0))
        } else {
            Some((-(s as int) - 1, (1_000_000 - us) as nat))
        },
    }
}

/// The microseconds of a reading are below one million.
pub open spec fn valid_reading(reading: Result<(u64, u32), (u64, u32)>) -> bool {
    match reading {
        Ok((_, us)) => us < 1_000_000,
        Err((_, us)) => us < 1_000_000,
    }
}

/// The instant a clock reading stands for: a time before the epoch is
/// counted down from the previous whole second.
pub fn instant_from_reading(reading: Result<(u64, u32), (u64, u32)>) -> (r: Option<(i64, u32)>)
    ensures
        match r {
            Some((s, us)) => instant_of(reading) == Some((s as int, us as nat)),
            None => instant_of(reading) is None,
        },
        r matches Some(t) ==> t.1 < 1_000_000,
{
    let us = match reading {
        Ok((_, us)) => us,
        Err((_, us)) => us,
    };
    if us >= 1_000_000 {
        return None;
    }
    match reading {
        Ok((s, us)) => if s <= i64::MAX as u64 {
            Some((s as i64, us))
        } else {
            None
        },
        Err((s, us)) => if s > i64::MAX as u64 {
            None
        } else if us == 0 {
            Some((-(s as i64), 0))
        } else {
            Some((-(s as i64) - 1, 1_000_000 - us))
        },
    }
}

/// The current time as whole seconds since the epoch (floor, so negative
/// before it) and the microseconds within that second: the instant of what
/// the clock read.
pub fn now_since_epoch() -> (r: Option<(i64, u32)>)
    ensures
        exists|reading: Result<(u64, u32), (u64, u32)>|
            valid_reading(reading) && match r {
                Some((s, us)) => #[trigger] instant_of(reading) == Some((s as int, us as nat)),
                None => instant_of(reading) is None,
            },
        r matches Some(t) ==> t.1 < 1_000_000,
{
    let reading = read_clock();
    instant_from_reading(reading)
}

} // verus!

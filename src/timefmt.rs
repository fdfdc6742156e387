//! Modification times as the listing shows them: `dd-mm-yy` and `hh:mm`
//! in the local time zone.
use vstd::prelude::*;
use time::{OffsetDateTime, UtcOffset};
use crate::text::{cat, digit_char, push_char};

verus! {

/// The local date and time (year, month, day, hour, minute) that `time`
/// gives for an instant, in nanoseconds since the epoch, at an offset from
/// UTC in seconds; `None` when either is out of its range.
pub uninterp spec fn civil_of(nanos: int, offset: int) -> Option<(int, int, int, int, int)>;

/// Relies on `time::OffsetDateTime::from_unix_timestamp_nanos`,
/// `UtcOffset::from_whole_seconds` and `OffsetDateTime::checked_to_offset`,
/// and on the documented ranges of `month`, `day`, `hour` and `minute`.
#[verifier::external_body]
fn civil_parts(nanos: i128, offset: i32) -> (r: Option<(i32, u8, u8, u8, u8)>)
    ensures
        r matches Some(p) ==> civil_of(nanos as int, offset as int) == Some(
            (p.0 as int, p.1 as int, p.2 as int, p.3 as int, p.4 as int),
        ) && 1 <= p.1 <= 12 && 1 <= p.2 <= 31 && p.3 < 24 && p.4 < 60,
        r is None ==> civil_of(nanos as int, offset as int) is None,
{
    let utc = OffsetDateTime::from_unix_timestamp_nanos(nanos).ok()?;
    let local = utc.checked_to_offset(UtcOffset::from_whole_seconds(offset).ok()?)?;
    Some((local.year(), local.month() as u8, local.day(), local.hour(), local.minute()))
}

/// Relies on `time::UtcOffset::current_local_offset`: the machine's offset
/// from UTC in seconds now, or 0 when it cannot be told.
#[verifier::external_body]
fn local_offset_seconds() -> (r: i32) {
    UtcOffset::current_local_offset().map(|o| o.whole_seconds()).unwrap_or(0)
}

/// Two decimal digits of `n`, zero first when below ten.
pub open spec fn two_digits(n: int) -> Seq<char> {
    seq![digit_char(n / 10), digit_char(n % 10)]
}

fn two(n: u8) -> (r: String)
    requires
        n < 100,
    ensures
        r@ == two_digits(n as int),
{
    let mut s = String::new();
    push_char(&mut s, digit_of(n / 10));
    push_char(&mut s, digit_of(n % 10));
    s
}

fn digit_of(d: u8) -> (r: char)
    requires
        d < 10,
    ensures
        r == digit_char(d as int),
{
    match d {
        0 => '0',
        1 => '1',
        2 => '2',
        3 => '3',
        4 => '4',
        5 => '5',
        6 => '6',
        7 => '7',
        8 => '8',
        _ => '9',
    }
}

/// `r` is the date and clock text of a modification time at an offset
/// from UTC in seconds (see `format_time`).
pub open spec fn formatted(modified: Option<i128>, offset: i32, r: (String, String)) -> bool {
    match modified {
        None => r.0@.len() == 0 && r.1@.len() == 0,
        Some(t) => match civil_of(t as int, offset as int) {
            Some((y, mo, d, h, mi)) => r.0@ == two_digits(d) + seq!['-'] + two_digits(mo) + seq![
                '-',
            ] + two_digits(y % 100) && r.1@ == two_digits(h) + seq![':'] + two_digits(mi),
            None => r.0@.len() == 0 && r.1@.len() == 0,
        },
    }
}

/// The date (`dd-mm-yy`, the year's last two digits) and the clock time
/// (`hh:mm`) of a modification time at an offset from UTC in seconds; two
/// empty texts when the time is unknown or out of range.
pub fn format_time(modified: Option<i128>, offset: i32) -> (r: (String, String))
    ensures
        formatted(modified, offset, r),
        modified is None ==> r.0@.len() == 0 && r.1@.len() == 0,
{
    let t = match modified {
        Some(t) => t,
        None => {
            return (String::new(), String::new());
        },
    };
    match civil_parts(t, offset) {
        None => (String::new(), String::new()),
        Some((y, mo, d, h, mi)) => {
            let yy = (y % 100 + 100) % 100;
            proof {
                assert(yy as int == (y as int) % 100);
            }
            let mut date = two(d);
            push_char(&mut date, '-');
            let month = two(mo);
            date = cat(date.as_str(), month.as_str());
            push_char(&mut date, '-');
            let year = two(yy as u8);
            date = cat(date.as_str(), year.as_str());
            let mut clock = two(h);
            push_char(&mut clock, ':');
            let minute = two(mi);
            clock = cat(clock.as_str(), minute.as_str());
            proof {
                assert(date@ =~= two_digits(d as int) + seq!['-'] + two_digits(mo as int) + seq!['-']
                    + two_digits((y as int) % 100));
                assert(clock@ =~= two_digits(h as int) + seq![':'] + two_digits(mi as int));
            }
            (date, clock)
        },
    }
}

/// `format_time` at the machine's current offset from UTC, whatever that
/// offset is.
pub fn format_time_local(modified: Option<i128>) -> (r: (String, String))
    ensures
        exists|offset: i32| formatted(modified, offset, r),
        modified is None ==> r.0@.len() == 0 && r.1@.len() == 0,
{
    let offset = local_offset_seconds();
    let r = format_time(modified, offset);
    proof {
        match modified {
            None => {},
            Some(t) => {
                match civil_of(t as int, offset as int) {
                    Some(parts) => {},
                    None => {},
                }
            },
        }
        assert(formatted(modified, offset, r));
    }
    r
}

} // verus!

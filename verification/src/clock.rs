//! The time of day of an instant.
//!
//! An instant is a count of seconds from the start of 1970, without leap
//! seconds. Its time of day depends on its second of the day alone, so the
//! instant is first reduced to that second; the calendar library then writes
//! the clock.

use vstd::prelude::*;
use vstd::arithmetic::div_mod::{lemma_add_mod_noop, lemma_small_mod};
use chrono::{DateTime, Utc};
use std::time::{Duration, UNIX_EPOCH};
use crate::text::two_digits;

verus! {

/// The number of seconds in a day.
pub const DAY: i64 = 86_400;

/// The second of the day on which an instant falls. The days before 1970 run
/// like those after it: the second before the start of 1970 is the last of
/// its day.
pub open spec fn second_of_day(instant: int) -> nat {
    (instant % 86_400) as nat
}

/// The clock at a second of the day: hours, minutes and seconds, two digits
/// each, with colons between them.
pub open spec fn clock_text(second: nat) -> Seq<char>
    recommends
        second < 86_400,
{
    two_digits(second / 3600) + seq![':'] + two_digits(second / 60 % 60) + seq![':'] + two_digits(
        second % 60,
    )
}

/// The wall clock of an instant.
pub open spec fn wall_clock(instant: int) -> Seq<char> {
    clock_text(second_of_day(instant))
}

/// The clock that chrono writes for an instant of the first day of 1970.
///
/// The body makes a `DateTime<Utc>` of the instant (chrono's conversion from
/// `SystemTime`) and formats it with `%H:%M:%S` (`DateTime::format`). The
/// contract claims that the text is the zero-padded hour, minute and second
/// of the instant with colons between them. An instant within the first day
/// is in the range of both `SystemTime` and chrono, so neither step panics.
#[verifier::external_body]
fn utc_clock(second: u64) -> (r: String)
    requires
        second < 86_400,
    ensures
        r@ == clock_text(second as nat),
{
    let at = UNIX_EPOCH + Duration::from_secs(second);
    DateTime::<Utc>::from(at).format("%H:%M:%S").to_string()
}

/// The second of the day of an instant.
pub fn day_second(instant: i64) -> (r: u64)
    ensures
        r == second_of_day(instant as int),
        r < 86_400,
{
    let rest: i64 = instant % DAY;
    if rest < 0 {
        (rest + DAY) as u64
    } else {
        rest as u64
    }
}

/// The wall clock of an instant, as `HH:MM:SS`.
pub fn epoch_to_time(epoch: i64) -> (r: String)
    ensures
        r@ == wall_clock(epoch as int),
{
    utc_clock(day_second(epoch))
}

/// The wall clock at `offset` seconds from an instant, as `HH:MM:SS`. The sum
/// is taken in the whole numbers: it need not fit the machine's.
pub fn shifted_clock(instant: i64, offset: i64) -> (r: String)
    ensures
        r@ == wall_clock(instant + offset),
{
    let sum: u64 = day_second(instant) + day_second(offset);
    let second: u64 = if sum >= 86_400 {
        sum - 86_400
    } else {
        sum
    };
    proof {
        lemma_add_mod_noop(instant as int, offset as int, 86_400);
        lemma_small_mod(second as nat, 86_400);
        assert(sum as int % 86_400 == second) by {
            if sum >= 86_400 {
                assert((second + 86_400) % 86_400 == second % 86_400) by (nonlinear_arith)
                    requires
                        0 <= second,
                ;
            }
        }
    }
    utc_clock(second)
}

} // verus!

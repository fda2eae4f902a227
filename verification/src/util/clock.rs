use std::time::Duration;
use std::time::SystemTime;
use vstd::prelude::*;

verus! {

/// `std::time::SystemTime`, carried through the tickers as an opaque value.
#[verifier::external_type_specification]
#[verifier::external_body]
pub struct ExSystemTime(SystemTime);

/// Reads the system clock with `SystemTime::now`. The value depends on the time of the call,
/// so nothing is stated of it.
#[verifier::external_body]
pub(crate) fn system_now() -> SystemTime {
    SystemTime::now()
}

/// `SystemTime::elapsed`: the time from `earlier` to now, or `None` where the clock now reads
/// earlier than `earlier` (std returns an error then). It depends on the clock, so nothing
/// is stated of it.
#[verifier::external_body]
pub(crate) fn elapsed_since(earlier: &SystemTime) -> Option<Duration> {
    match earlier.elapsed() {
        Ok(duration) => Some(duration),
        Err(_) => None,
    }
}

/// `Duration::as_millis`: the whole milliseconds of a duration. Verus sees a `Duration` as
/// an opaque value, so nothing is stated of the count.
#[verifier::external_body]
pub(crate) fn whole_millis(duration: &Duration) -> u128 {
    duration.as_millis()
}

/// A count of elapsed milliseconds as an `i64`: zero where none could be measured (the clock
/// reads earlier than the start), `i64::MAX` where the count does not fit.
pub fn elapsed_millis_as_i64(millis: Option<u128>) -> (ms: i64)
    ensures
        ms == match millis {
            Some(m) => if m > i64::MAX {
                i64::MAX as int
            } else {
                m as int
            },
            None => 0,
        },
{
    match millis {
        Some(m) => {
            if m > 0x7fff_ffff_ffff_ffff {
                i64::MAX
            } else {
                m as i64
            }
        },
        None => 0,
    }
}

/// The milliseconds that have passed since `earlier` on the system clock, as
/// `elapsed_millis_as_i64` turns them into an `i64`.
pub fn millis_since(earlier: &SystemTime) -> (ms: i64)
    ensures
        ms >= 0,
{
    let millis = match elapsed_since(earlier) {
        Some(duration) => Some(whole_millis(&duration)),
        None => None,
    };
    elapsed_millis_as_i64(millis)
}

} // verus!

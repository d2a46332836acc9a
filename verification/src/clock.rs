//! The host clock in whole seconds.

use std::time::SystemTime;
use vstd::prelude::*;

verus! {

/// A point of the host clock.
#[verifier::external_type_specification]
#[verifier::external_body]
pub struct ExSystemTime(SystemTime);

/// `std::time::SystemTime::now` reads the host clock; nothing is claimed of the reading.
pub assume_specification[ SystemTime::now ]() -> (now: SystemTime)
;

/// Calls `SystemTime::duration_since` with the Unix epoch and takes the span apart into its whole
/// seconds and the nanoseconds beyond them; `None` stands for a point before the epoch.
///
/// Nothing is claimed of the outcome: it changes with the point of the clock, of which nothing is
/// known.
#[verifier::external_body]
fn since_epoch(now: SystemTime) -> (span: Option<(u64, u32)>)
{
    match now.duration_since(SystemTime::UNIX_EPOCH) {
        Ok(span) => Some((span.as_secs(), span.subsec_nanos())),
        Err(_) => None,
    }
}

/// The whole seconds of a span since the Unix epoch, which is given by its whole seconds and the
/// nanoseconds beyond them; `None` stands for a point before the epoch.
pub fn seconds_of(span: Option<(u64, u32)>) -> (seconds: Option<u64>)
    ensures
        seconds == (match span {
            Some((whole, _)) => Some(whole),
            None => None::<u64>,
        }),
{
    match span {
        Some((whole, _)) => Some(whole),
        None => None,
    }
}

/// Whole seconds since the Unix epoch, or `None` where the host clock lies before it: what
/// [`seconds_of`] makes of the span that the clock gives.
pub fn epoch_reading() -> (seconds: Option<u64>)
{
    seconds_of(since_epoch(SystemTime::now()))
}

} // verus!

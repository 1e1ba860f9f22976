//! Spans of time, in the whole milliseconds that the native engine counts in.

use vstd::prelude::*;
use core::time::Duration;

verus! {

/// The number of whole milliseconds that a span of time holds: what
/// `Duration::as_millis` returns for it.
pub uninterp spec fn duration_millis(duration: Duration) -> u128;

/// `core::time::Duration::as_millis`: the total number of whole milliseconds
/// contained by the span. The contract only gives that number its name.
pub assume_specification[ Duration::as_millis ](duration: &Duration) -> (millis: u128)
    ensures
        millis == duration_millis(*duration),
;

/// `core::time::Duration::from_millis`: a span of the given number of
/// milliseconds. The contract claims that the span holds exactly that many
/// whole milliseconds.
pub assume_specification[ Duration::from_millis ](millis: u64) -> (duration: Duration)
    ensures
        duration_millis(duration) == millis,
;

/// A number of milliseconds as the 32 bits that the native engine takes, if
/// it fits.
pub open spec fn narrow(millis: u128) -> Option<u32> {
    if millis <= u32::MAX {
        Some(millis as u32)
    } else {
        None
    }
}

/// A number of milliseconds as the 32 bits that the native engine takes.
/// `None` if it does not fit.
pub fn millis_to_u32(millis: u128) -> (r: Option<u32>)
    ensures
        r == narrow(millis),
{
    if millis <= 0xffff_ffff {
        Some(millis as u32)
    } else {
        None
    }
}

/// A span of time in whole milliseconds, as the native engine takes it.
/// `None` if the span is longer than 32 bits can say.
pub fn duration_to_millis(duration: Duration) -> (r: Option<u32>)
    ensures
        r == narrow(duration_millis(duration)),
{
    millis_to_u32(duration.as_millis())
}

} // verus!

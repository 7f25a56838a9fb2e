//! The wall clock, read through std's `SystemTime`. Nothing is claimed of
//! the values it gives: they depend on the machine's clock.

use vstd::prelude::*;

verus! {

#[verifier::external_type_specification]
#[verifier::external_body]
pub struct ExSystemTime(std::time::SystemTime);

/// std's `SystemTime::now`: the machine's clock, so nothing is claimed of it.
#[verifier::external_body]
pub(crate) fn system_time_now() -> std::time::SystemTime {
    std::time::SystemTime::now()
}

/// std's `SystemTime::duration_since(UNIX_EPOCH)`: `None` where the clock
/// reads before the epoch. Nothing is claimed of the value.
#[verifier::external_body]
pub(crate) fn elapsed_since_epoch(t: &std::time::SystemTime) -> Option<std::time::Duration> {
    t.duration_since(std::time::UNIX_EPOCH).ok()
}

/// std's `Duration::as_secs`: the whole seconds of a duration, which Verus
/// cannot see inside; nothing is claimed of the value.
#[verifier::external_body]
pub(crate) fn duration_as_secs(d: &std::time::Duration) -> u64 {
    d.as_secs()
}

/// std's `Duration::as_millis`, cut to 64 bits: the whole milliseconds of a
/// duration, which Verus cannot see inside; nothing is claimed of the value.
#[verifier::external_body]
pub(crate) fn duration_as_millis(d: &std::time::Duration) -> u64 {
    d.as_millis() as u64
}

} // verus!

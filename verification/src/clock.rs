//! The system clock, read as plain numbers.

use vstd::prelude::*;

verus! {

/// A reading of the system clock: `Ok((secs, nanos))` for a time that many
/// seconds and nanoseconds after the UNIX epoch, `Err((secs, nanos))` for a
/// time that long before it; the nanoseconds stay below one second.
pub open spec fn valid_reading(r: Result<(u64, u32), (u64, u32)>) -> bool {
    match r {
        Ok((_, nanos)) => nanos < 1_000_000_000,
        Err((_, nanos)) => nanos < 1_000_000_000,
    }
}

/// Reads the system clock (`SystemTime::now`) and measures the time from the
/// UNIX epoch (`SystemTime::duration_since`): the duration after the epoch,
/// or, when the clock lies before it, the duration before (the error's
/// `duration`), each as whole seconds and the nanoseconds of the last second.
/// Which time the clock reads is not stated; stated is that the nanoseconds
/// stay below a second, as `Duration::subsec_nanos` documents.
#[verifier::external_body]
pub(crate) fn system_clock_reading() -> (r: Result<(u64, u32), (u64, u32)>)
    ensures
        valid_reading(r),
{
    match std::time::SystemTime::now().duration_since(std::time::UNIX_EPOCH) {
        Ok(d) => Ok((d.as_secs(), d.subsec_nanos())),
        Err(e) => Err((e.duration().as_secs(), e.duration().subsec_nanos())),
    }
}

} // verus!

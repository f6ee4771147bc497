//! Durations, which the configuration carries to the I/O layer unchanged.
use vstd::prelude::*;
use std::time::Duration;

verus! {

/// The duration that `Duration::from_secs(secs)` returns.
pub uninterp spec fn secs_duration(secs: u64) -> Duration;

/// `std::time::Duration::from_secs`. The contract claims only that the result is
/// a function of `secs`; that it is `secs` whole seconds is left unsaid.
#[verifier::external_body]
pub(crate) fn duration_from_secs(secs: u64) -> (d: Duration)
    ensures
        d == secs_duration(secs),
{
    Duration::from_secs(secs)
}

} // verus!

//! Calls that may have to wait.
//!
//! The library never waits. A call that blocks its caller is made in steps:
//! each step looks at the state as it is and either reports the result or
//! says that the caller is still blocked. Whoever schedules the caller lets
//! it wait and takes the next step when something has changed. A bounded
//! call is told how long the caller has waited since the call began.
use vstd::prelude::*;
use std::time::Duration;

verus! {

/// What one step of a call that may have to wait reports.
#[derive(Clone, Copy, Debug, PartialEq, Eq)]
pub enum Progress<T> {
    /// Nothing to report yet: the caller is blocked.
    Blocked,
    /// The call has ended with this result.
    Done(T),
}

/// The length of a duration, in nanoseconds.
pub uninterp spec fn nanos(d: Duration) -> nat;

/// `Duration::as_nanos`: the length of the duration in nanoseconds.
#[verifier::external_body]
fn as_nanos(d: &Duration) -> (n: u128)
    ensures
        n == nanos(*d),
{
    d.as_nanos()
}

/// Whether a wait that is bounded by `limit` is over once the caller has
/// waited for `waited`: it is over when the caller has waited at least as
/// long as the limit, and never before.
pub open spec fn over(limit: Duration, waited: Duration) -> bool {
    nanos(waited) >= nanos(limit)
}

/// Whether a wait that is bounded by `limit` is over once the caller has
/// waited for `waited`.
pub fn is_over(limit: &Duration, waited: &Duration) -> (b: bool)
    ensures
        b == over(*limit, *waited),
{
    as_nanos(waited) >= as_nanos(limit)
}

/// What a step reports when the call is bounded: the result, if there is
/// one; else that the time ran out, if `expired`; else that the caller is
/// still blocked.
pub open spec fn bounded_by<T>(step: Progress<T>, expired: bool) -> Progress<Option<T>> {
    match step {
        Progress::Done(t) => Progress::Done(Some(t)),
        Progress::Blocked => if expired {
            Progress::Done(None)
        } else {
            Progress::Blocked
        },
    }
}

/// What a step reports when the call is bounded by `limit` and the caller
/// has waited for `waited`.
pub fn bounded<T>(step: Progress<T>, limit: &Duration, waited: &Duration) -> (r: Progress<
    Option<T>,
>)
    ensures
        r == bounded_by(step, over(*limit, *waited)),
{
    match step {
        Progress::Done(t) => Progress::Done(Some(t)),
        Progress::Blocked => if is_over(limit, waited) {
            Progress::Done(None)
        } else {
            Progress::Blocked
        },
    }
}

/// A bounded call never ends without a result before its time has run out,
/// and never stays blocked after it.
pub proof fn bound_is_kept<T>(step: Progress<T>, expired: bool)
    ensures
        bounded_by(step, expired) == Progress::Done(None::<T>) <==> step is Blocked && expired,
        bounded_by(step, expired) is Blocked <==> step is Blocked && !expired,
{
}

} // verus!

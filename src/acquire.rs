//! Acquiring the interface: a fixed-cadence poll over a bounded window.
//!
//! The caller measures the time since its first attempt, asks
//! [`should_attempt`] before each claim, and sleeps [`CLAIM_PERIOD_US`]
//! after each failed one.

use vstd::prelude::*;
use crate::error::LoaderError;

verus! {

/// Length of the acquisition window, in microseconds.
pub const CLAIM_TIMEOUT_US: u64 = 1_000_000;

/// Pause between two claim attempts, in microseconds.
pub const CLAIM_PERIOD_US: u64 = 200;

/// Whether a claim is attempted `elapsed_us` after the first attempt.
pub open spec fn spec_should_attempt(elapsed_us: u64) -> bool {
    elapsed_us <= CLAIM_TIMEOUT_US
}

/// Whether to attempt a claim `elapsed_us` after the first attempt: only
/// while the window is open.
pub fn should_attempt(elapsed_us: u64) -> (r: bool)
    ensures
        r == spec_should_attempt(elapsed_us),
{
    elapsed_us <= CLAIM_TIMEOUT_US
}

/// The result of the acquisition: the claimed interface if an attempt
/// succeeded within the window, else `InterfaceClaimFailed`.
pub fn claim_result<T>(claimed: Option<T>) -> (r: Result<T, LoaderError>)
    ensures
        claimed matches Some(i) ==> r == Ok::<T, LoaderError>(i),
        claimed is None ==> r == Err::<T, LoaderError>(LoaderError::InterfaceClaimFailed),
{
    match claimed {
        Some(i) => Ok(i),
        None => Err(LoaderError::InterfaceClaimFailed),
    }
}

/// Runs the acquisition on a simulated clock against a claim that always
/// fails and takes no time, and returns how long after the first attempt
/// it gives up together with the number of attempts. It gives up after
/// the window has closed, and at most one period later.
pub fn always_failing_claim() -> (r: (u64, u64))
    ensures
        CLAIM_TIMEOUT_US < r.0 <= CLAIM_TIMEOUT_US + CLAIM_PERIOD_US,
        r.0 == r.1 * CLAIM_PERIOD_US,
        r.1 == CLAIM_TIMEOUT_US / CLAIM_PERIOD_US + 1,
{
    let mut elapsed: u64 = 0;
    let mut attempts: u64 = 0;
    while should_attempt(elapsed)
        invariant
            elapsed <= CLAIM_TIMEOUT_US + CLAIM_PERIOD_US,
            elapsed == attempts * CLAIM_PERIOD_US,
        decreases CLAIM_TIMEOUT_US + CLAIM_PERIOD_US - elapsed,
    {
        attempts = attempts + 1;
        elapsed = elapsed + CLAIM_PERIOD_US;
    }
    (elapsed, attempts)
}

} // verus!

//! The deadline discipline applied to every transfer.
//!
//! The caller races each transfer against a timer; whichever finishes first
//! decides. The functions here turn the outcome of that race into the one
//! result channel the rest of the library uses.

use vstd::prelude::*;
use crate::error::LoaderError;

verus! {

/// Deadline of a single control or bulk transfer, in milliseconds.
pub const TRANSFER_TIMEOUT_MS: u64 = 5000;

/// How a transfer ended when it finished before its deadline.
#[derive(Debug, Clone, Copy, PartialEq, Eq, Structural)]
pub enum TransferStatus {
    /// The device reported success.
    Completed,
    /// The device reported another status, or the transport failed.
    Failed,
}

/// The result of a race whose transfer ended with `status`, or that the
/// timer won (`None`).
pub open spec fn spec_settle(status: Option<TransferStatus>) -> Result<(), LoaderError> {
    match status {
        None => Err(LoaderError::TransferTimeout),
        Some(TransferStatus::Completed) => Ok(()),
        Some(TransferStatus::Failed) => Err(LoaderError::TransferIoError),
    }
}

/// Normalises the outcome of a timed transfer: `None` when the deadline came
/// first, else the status the transfer ended with.
pub fn settle(status: Option<TransferStatus>) -> (r: Result<(), LoaderError>)
    ensures
        r == spec_settle(status),
{
    match status {
        None => Err(LoaderError::TransferTimeout),
        Some(TransferStatus::Completed) => Ok(()),
        Some(TransferStatus::Failed) => Err(LoaderError::TransferIoError),
    }
}

/// Whether a transfer that completes `completes_after_ms` after it starts
/// (never, if `None`) wins the race against a timer of `deadline_ms`. The
/// transfer is polled before the timer, so a tie goes to the transfer.
pub open spec fn spec_transfer_wins(completes_after_ms: Option<u64>, deadline_ms: u64) -> bool {
    match completes_after_ms {
        Some(t) => t <= deadline_ms,
        None => false,
    }
}

/// Runs the race on a simulated clock: a transfer that would complete after
/// `completes_after_ms` (never, if `None`) with `status`, against a timer of
/// `deadline_ms`. A transfer slower than the deadline gives
/// `TransferTimeout`; one that completes in time gives its own result.
pub fn race(completes_after_ms: Option<u64>, status: TransferStatus, deadline_ms: u64) -> (r:
    Result<(), LoaderError>)
    ensures
        spec_transfer_wins(completes_after_ms, deadline_ms) ==> r == spec_settle(Some(status)),
        !spec_transfer_wins(completes_after_ms, deadline_ms) ==> r == Err::<(), LoaderError>(
            LoaderError::TransferTimeout,
        ),
        r == Err::<(), LoaderError>(LoaderError::TransferTimeout) <==> !spec_transfer_wins(
            completes_after_ms,
            deadline_ms,
        ),
{
    let wins = match completes_after_ms {
        Some(t) => t <= deadline_ms,
        None => false,
    };
    if wins {
        settle(Some(status))
    } else {
        settle(None)
    }
}

/// Stores the data of a control-in response in `buf` and returns how many
/// bytes it holds. A response longer than the buffer is a transport fault.
pub fn store_response(buf: &mut Vec<u8>, data: &Vec<u8>) -> (r: Result<usize, LoaderError>)
    ensures
        data@.len() > old(buf)@.len() ==> r == Err::<usize, LoaderError>(
            LoaderError::TransferIoError,
        ) && final(buf)@ == old(buf)@,
        data@.len() <= old(buf)@.len() ==> r == Ok::<usize, LoaderError>(data@.len() as usize)
            && final(buf)@ == data@ + old(buf)@.subrange(data@.len() as int, old(buf)@.len() as int),
{
    let n = data.len();
    if n > buf.len() {
        return Err(LoaderError::TransferIoError);
    }
    let mut i: usize = 0;
    while i < n
        invariant
            n == data@.len(),
            n <= buf@.len(),
            i <= n,
            buf@.len() == old(buf)@.len(),
            forall|j: int| 0 <= j < i ==> buf@[j] == data@[j],
            forall|j: int| i <= j < buf@.len() ==> buf@[j] == old(buf)@[j],
        decreases n - i,
    {
        buf.set(i, data[i]);
        i = i + 1;
    }
    assert(buf@ =~= data@ + old(buf)@.subrange(n as int, old(buf)@.len() as int));
    Ok(n)
}

} // verus!

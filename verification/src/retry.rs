//! The sink-write retry policy: a transient failure (the device temporarily
//! unavailable, the kernel queue full) is retried a bounded number of times;
//! a permanent failure, or a transient one past the bound, escalates and
//! ends processing of the current message.

use vstd::prelude::*;

verus! {

/// How many times one sink write may be retried after a transient failure.
pub const MAX_WRITE_RETRIES: u8 = 3;

/// How a failed sink write is classified by the caller performing the I/O.
#[derive(Clone, Copy, Debug, PartialEq, Eq, Structural)]
pub enum WriteFault {
    /// The device may accept the write shortly (resource temporarily
    /// unavailable).
    Transient,
    /// The device is gone or rejected the write outright.
    Permanent,
}

/// What the writer does next.
#[derive(Clone, Copy, Debug, PartialEq, Eq, Structural)]
pub enum WriteDecision {
    /// Try the same write again.
    Retry,
    /// Give up: the failure is fatal to the current message.
    Escalate,
}

/// Decide whether a failed sink write is tried again: only a transient
/// fault, and only while fewer than `MAX_WRITE_RETRIES` retries have been
/// spent on this write.
pub fn decide_write_retry(fault: WriteFault, retries_spent: u8) -> (d: WriteDecision)
    ensures
        d == WriteDecision::Retry <==> (fault == WriteFault::Transient && retries_spent
            < MAX_WRITE_RETRIES),
        d == WriteDecision::Retry || d == WriteDecision::Escalate,
{
    match fault {
        WriteFault::Transient => {
            if retries_spent < MAX_WRITE_RETRIES {
                WriteDecision::Retry
            } else {
                WriteDecision::Escalate
            }
        }
        WriteFault::Permanent => WriteDecision::Escalate,
    }
}

} // verus!

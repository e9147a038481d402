//! What a blocking transfer call hands back, and how it is read.

use crate::config::Direction;
use vstd::prelude::*;

verus! {

/// The bit of the returned status flags by which the device signals that its
/// buffer overran and the transfer came back short.
pub const META_STATUS_OVERRUN: u32 = 1;

/// The status code with which a transfer call reports that its time budget
/// ran out.
pub const ERR_TIMEOUT: i32 = -6;

/// How a transfer ended.
#[derive(Clone, Copy, Debug, PartialEq, Eq, Structural)]
pub enum TransferStatus {
    /// The call succeeded and every requested sample is valid.
    Success,
    /// The call succeeded, but only part of the request is valid.
    Overrun,
    /// The call failed.
    Error,
}

/// Why a transfer call failed.
#[derive(Clone, Copy, Debug, PartialEq, Eq, Structural)]
pub enum TransferFailure {
    /// No data within the time budget of the call.
    Timeout,
    /// Any other failure, with the status code of the call.
    Status(i32),
}

/// A transfer call's raw outcome, as the device hands it back.
#[derive(Clone, Copy, Debug, PartialEq, Eq, Structural)]
pub struct Completion {
    /// The call's return code: zero for success.
    pub status_code: i32,
    /// The status flags of the returned metadata.
    pub status_flags: u32,
    /// The number of samples that the device says are valid.
    pub actual_count: u32,
    /// The timestamp of the returned metadata.
    pub timestamp: u64,
}

/// A transfer's outcome, read against the size of the request.
#[derive(Clone, Copy, Debug, PartialEq, Eq, Structural)]
pub struct TransferResult {
    pub status: TransferStatus,
    /// The number of valid samples, never more than were requested.
    pub actual_count: u32,
    pub timestamp: u64,
}

impl Completion {
    /// The call itself failed.
    pub open spec fn failed(self) -> bool {
        self.status_code != 0
    }

    /// The overrun bit, the lowest of the status flags, is set.
    pub open spec fn overrun(self) -> bool {
        self.status_flags % 2 == 1
    }

    /// How the transfer ended: the return code decides between failure and
    /// success, the overrun bit between a short and a full success.
    pub open spec fn status(self) -> TransferStatus {
        if self.failed() {
            TransferStatus::Error
        } else if self.overrun() {
            TransferStatus::Overrun
        } else {
            TransferStatus::Success
        }
    }

    /// The number of valid samples of a request for `frame_count`: none after
    /// a failure, all of them after a full success, and after an overrun what
    /// the device reports, capped at the request.
    pub open spec fn valid_samples(self, frame_count: u32) -> u32 {
        match self.status() {
            TransferStatus::Error => 0,
            TransferStatus::Success => frame_count,
            TransferStatus::Overrun => if self.actual_count <= frame_count {
                self.actual_count
            } else {
                frame_count
            },
        }
    }

    /// The outcome of a request for `frame_count` samples.
    pub open spec fn result(self, frame_count: u32) -> TransferResult {
        TransferResult {
            status: self.status(),
            actual_count: self.valid_samples(frame_count),
            timestamp: self.timestamp,
        }
    }

    /// Why the call failed, if it did.
    pub open spec fn failure(self) -> Option<TransferFailure> {
        if !self.failed() {
            None
        } else if self.status_code == ERR_TIMEOUT {
            Some(TransferFailure::Timeout)
        } else {
            Some(TransferFailure::Status(self.status_code))
        }
    }
}

impl TransferResult {
    /// The transfer delivered samples, all or some: the session goes on.
    pub open spec fn recoverable(self) -> bool {
        self.status != TransferStatus::Error
    }

    /// The block goes on to the power estimator: it was received, and in
    /// full.
    pub open spec fn for_diagnostics(self, direction: Direction) -> bool {
        direction == Direction::Rx && self.status == TransferStatus::Success
    }

    /// Tells whether the block of a transfer in `direction` goes on to the
    /// power estimator.
    pub fn feeds_diagnostics(&self, direction: Direction) -> (forward: bool)
        ensures
            forward == self.for_diagnostics(direction),
    {
        match (direction, self.status) {
            (Direction::Rx, TransferStatus::Success) => true,
            _ => false,
        }
    }
}

/// Tells whether the overrun bit is set in `status_flags`.
pub fn overrun_flagged(status_flags: u32) -> (set: bool)
    ensures
        set == (status_flags % 2 == 1),
{
    assert((status_flags & 1 != 0) == (status_flags % 2 == 1)) by (bit_vector);
    status_flags & META_STATUS_OVERRUN != 0
}

/// Reads a raw completion against the `frame_count` samples requested.
pub fn interpret(completion: Completion, frame_count: u32) -> (result: TransferResult)
    ensures
        result == completion.result(frame_count),
        result.actual_count <= frame_count,
        result.recoverable() == !completion.failed(),
{
    if completion.status_code != 0 {
        TransferResult {
            status: TransferStatus::Error,
            actual_count: 0,
            timestamp: completion.timestamp,
        }
    } else if overrun_flagged(completion.status_flags) {
        let valid = if completion.actual_count <= frame_count {
            completion.actual_count
        } else {
            frame_count
        };
        TransferResult {
            status: TransferStatus::Overrun,
            actual_count: valid,
            timestamp: completion.timestamp,
        }
    } else {
        TransferResult {
            status: TransferStatus::Success,
            actual_count: frame_count,
            timestamp: completion.timestamp,
        }
    }
}

/// Tells why a transfer call failed, if it did.
pub fn failure_of(completion: Completion) -> (failure: Option<TransferFailure>)
    ensures
        failure == completion.failure(),
{
    if completion.status_code == 0 {
        None
    } else if completion.status_code == ERR_TIMEOUT {
        Some(TransferFailure::Timeout)
    } else {
        Some(TransferFailure::Status(completion.status_code))
    }
}

} // verus!

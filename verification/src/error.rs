//! Why an operation on the ledger was refused.

use vstd::prelude::*;

verus! {

/// The reason an operation was refused. A refused operation changes nothing.
#[derive(Clone, Copy, Debug, PartialEq, Eq, Structural)]
pub enum LedgerError {
    /// A thread needs two or three choices.
    InvalidChoiceCount,
    /// The caller has no user record.
    UserNotRegistered,
    /// Only verified users may open threads.
    NotVerified,
    /// The caller's balance does not exceed the stake of the new thread.
    InsufficientStake,
    /// A thread with the same derived identifier exists.
    ThreadAlreadyExists,
    /// The user never opened a thread.
    UserHasNoThreads,
    /// No thread has this identifier.
    ThreadNotFound,
    /// Voting on the thread has not started.
    ThreadNotOpen,
    /// Voting on the thread has ended.
    ThreadClosed,
    /// The thread has no choice with this index.
    InvalidChoice,
    /// The voter has voted on this thread before.
    AlreadyVoted,
    /// A vote must commit more than the minimum number of points.
    PointTooLow,
    /// The voter's balance does not exceed the points to commit.
    InsufficientBalance,
    /// A space with the same derived identifier exists.
    AlreadyExists,
}

} // verus!

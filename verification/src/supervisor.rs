//! The decisions of the wait loop. The caller polls for the child and reads
//! the clock; what to do next is decided here.

use vstd::prelude::*;

verus! {

/// The time limit that stands for "no limit": the longest duration there is,
/// in nanoseconds.
pub const UNLIMITED_NANOS: u128 = 18446744073709551615999999999;

/// How long the supervisor sleeps between two polls, in microseconds.
pub const POLL_INTERVAL_MICROS: u64 = 100;

/// What the supervisor does after one poll.
#[derive(Clone, Copy, Debug, PartialEq, Eq, Structural)]
pub enum PollAction {
    /// The child has been reaped: take the stop instant and leave the loop.
    Finish,
    /// The deadline has passed: send the hard kill, and poll again at once,
    /// so that the child is reaped and its usage accounted.
    Kill,
    /// Sleep for the polling interval, then poll again.
    Sleep,
}

/// The action after a poll that found the child reaped or not, `elapsed`
/// nanoseconds after the start, under a limit of `limit` nanoseconds.
pub open spec fn poll_action(reaped: bool, elapsed_nanos: u128, limit_nanos: u128) -> PollAction {
    if reaped {
        PollAction::Finish
    } else if limit_nanos != UNLIMITED_NANOS && elapsed_nanos > limit_nanos {
        PollAction::Kill
    } else {
        PollAction::Sleep
    }
}

/// Decides what follows one poll.
pub fn next_action(reaped: bool, elapsed_nanos: u128, limit_nanos: u128) -> (action: PollAction)
    ensures
        action == poll_action(reaped, elapsed_nanos, limit_nanos),
{
    if reaped {
        PollAction::Finish
    } else if limit_nanos != UNLIMITED_NANOS && elapsed_nanos > limit_nanos {
        PollAction::Kill
    } else {
        PollAction::Sleep
    }
}

/// The supervisor leaves the loop only on a reaped child, kills only a live
/// child that is past a real limit, and never kills under "no limit".
pub proof fn lemma_poll_action(reaped: bool, elapsed_nanos: u128, limit_nanos: u128)
    ensures
        poll_action(reaped, elapsed_nanos, limit_nanos) == PollAction::Finish <==> reaped,
        poll_action(reaped, elapsed_nanos, limit_nanos) == PollAction::Kill ==> !reaped
            && elapsed_nanos > limit_nanos,
        poll_action(reaped, elapsed_nanos, UNLIMITED_NANOS) != PollAction::Kill,
{
}

} // verus!

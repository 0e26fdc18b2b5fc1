//! The vocabulary between a block and the scheduler that drives it: the
//! block asks for an action, the scheduler performs it on the channels or the
//! clock and reports what happened as an event.
use vstd::prelude::*;

verus! {

/// What the scheduler reports after performing the block's last action.
#[derive(Clone, Copy, Debug, PartialEq, Eq, Structural)]
pub enum Event {
    /// The block has been placed in the pipeline and may begin.
    Start,
    /// A dequeue returned an element with this timestamp and value.
    Received { time: u64, value: i64 },
    /// A dequeue found the input channel closed and drained.
    Closed,
    /// An enqueue completed.
    Sent,
    /// An enqueue failed because the receiving end is gone.
    SendFailed,
    /// The local clock was advanced as asked.
    Advanced,
}

/// Why a block stopped without a clean end of stream.
#[derive(Clone, Copy, Debug, PartialEq, Eq, Structural)]
pub enum BlockError {
    /// The input closed after `received` of a vector's elements had arrived,
    /// during invocation number `invocation` (counted from zero).
    PrematureClose { invocation: u64, received: usize },
    /// An entry of `W·x + b` does not fit in an `i64` (invocation `invocation`).
    Overflow { invocation: u64 },
    /// An output timestamp would pass the largest cycle the clock can hold.
    ClockOverflow,
    /// The output channel's receiving end is gone.
    SendFailed,
}

/// What a block asks the scheduler to do next.
#[derive(Clone, Copy, Debug, PartialEq, Eq, Structural)]
pub enum Action {
    /// Dequeue one element from the input channel.
    Dequeue,
    /// Enqueue `value` on the output channel, visible at cycle `time`.
    Enqueue { time: u64, value: i64 },
    /// Advance the local clock by this many cycles.
    Advance(u64),
    /// The input ended cleanly; the block is done.
    Finish,
    /// The block stops on an unrecoverable error.
    Fail(BlockError),
}

/// Where a block stands between two events.
#[derive(Clone, Copy, Debug, PartialEq, Eq, Structural)]
pub enum Phase {
    /// Not started yet.
    Ready,
    /// Waiting on a dequeue.
    Receiving,
    /// Waiting for the one cycle that each received scalar takes.
    Pacing,
    /// Waiting on an enqueue.
    Emitting,
    /// Waiting out the initiation interval.
    Cooldown,
    /// Ended cleanly.
    Done,
    /// Stopped on an error.
    Failed,
}

} // verus!

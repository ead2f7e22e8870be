//! The protocol vocabulary: outbound events and the one error the
//! consumer reports.

use vstd::prelude::*;

verus! {

/// An outbound protocol message the consumer queues for its driver:
/// a demand grant of a given size, a termination notice, or a finish
/// notice. Events are plain values, consumed once.
#[derive(Debug, PartialEq, Eq, Structural, Clone, Copy)]
pub enum ConsumerEvent {
    /// The consumer is willing to accept this many more write operations.
    Request(usize),
    /// The consumer asks its producer to stop.
    Termination,
    /// The consumer reports that the stream is complete.
    Finish,
}

/// The one failure `write` reports: a protocol violation by the driver.
#[derive(Debug, PartialEq, Eq, Structural, Clone, Copy)]
pub enum ConsumerError {
    /// The driver wrote while the consumer's demand was exhausted.
    WriteWithoutRequest,
}

} // verus!

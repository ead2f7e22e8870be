//! The byte-accepting target the consumer delivers to, and a few simple
//! in-memory sinks.

use vstd::prelude::*;

verus! {

/// The value a sink returns when a delivery attempt fails outright.
#[derive(Debug, PartialEq, Eq, Structural, Clone, Copy)]
pub struct SinkError;

/// An abstract, fallible byte-accepting target. One call to `accept` is
/// a single delivery attempt: the sink either accepts some prefix of the
/// bytes offered and reports how many, or fails. A sink never claims to
/// have accepted more bytes than it was offered.
pub trait Sink {
    fn accept(&mut self, data: &[u8]) -> (r: Result<usize, SinkError>)
        ensures
            r matches Ok(n) ==> n <= data@.len(),
    ;
}

/// A sink that rejects every delivery attempt.
pub struct FailingSink;

impl FailingSink {
    pub fn new() -> FailingSink {
        FailingSink
    }
}

impl Sink for FailingSink {
    fn accept(&mut self, data: &[u8]) -> (r: Result<usize, SinkError>) {
        Err(SinkError)
    }
}

/// A sink that fully accepts every delivery attempt.
pub struct AcceptingSink;

impl AcceptingSink {
    pub fn new() -> AcceptingSink {
        AcceptingSink
    }
}

impl Sink for AcceptingSink {
    fn accept(&mut self, data: &[u8]) -> (r: Result<usize, SinkError>) {
        Ok(data.len())
    }
}

/// A sink that accepts at most `cap` bytes of each delivery attempt, so
/// any longer delivery is accepted only in part.
pub struct LimitedSink {
    pub cap: usize,
}

impl LimitedSink {
    pub fn new(cap: usize) -> (s: LimitedSink)
        ensures
            s.cap == cap,
    {
        LimitedSink { cap }
    }
}

impl Sink for LimitedSink {
    fn accept(&mut self, data: &[u8]) -> (r: Result<usize, SinkError>) {
        if data.len() <= self.cap {
            Ok(data.len())
        } else {
            Ok(self.cap)
        }
    }
}

} // verus!

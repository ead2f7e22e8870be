//! The consumer state machine: outstanding demand, the FIFO event queue,
//! the single buffered remainder, and the `write` protocol over them.

use std::collections::VecDeque;
use vstd::prelude::*;
use vstd::slice::slice_subrange;
use vstd::slice::slice_to_vec;

use crate::event::ConsumerError;
use crate::event::ConsumerEvent;
use crate::sink::Sink;
use crate::sink::SinkError;

verus! {

/// The mathematical state of a consumer: the outstanding demand, the
/// queued events (head first), and the buffered remainder of the most
/// recent undelivered write, if any.
pub ghost struct ConsumerView {
    pub demand: nat,
    pub events: Seq<ConsumerEvent>,
    pub buffered: Option<Seq<u8>>,
}

/// The state every consumer is constructed in: one unit of demand and a
/// single queued `Request(1)` announcing it.
pub open spec fn initial_view() -> ConsumerView {
    ConsumerView { demand: 1, events: seq![ConsumerEvent::Request(1)], buffered: None }
}

/// True of an acceptance count that one delivery attempt on `data` can
/// report: a failure carries no count, and a success accepts at most the
/// bytes offered.
pub open spec fn valid_acceptance(acc: Option<int>, data: Seq<u8>) -> bool {
    match acc {
        Some(n) => 0 <= n <= data.len(),
        None => true,
    }
}

/// The acceptance count a delivery outcome reports: `None` when the sink
/// failed.
pub open spec fn acceptance_of(outcome: Result<usize, SinkError>) -> Option<int> {
    match outcome {
        Ok(n) => Some(n as int),
        Err(_) => None,
    }
}

/// How one `write` call that passed the demand check transforms the
/// consumer state, given the sink's acceptance count (`None` for a sink
/// failure). Full acceptance queues a fresh `Request(1)` and leaves
/// demand alone; a short or failed delivery spends one unit of demand
/// and overwrites the buffer with the undelivered bytes, queueing
/// nothing.
pub open spec fn write_transition(pre: ConsumerView, data: Seq<u8>, acc: Option<int>) -> ConsumerView
    recommends
        pre.demand > 0,
        valid_acceptance(acc, data),
{
    match acc {
        Some(n) => if n == data.len() {
            ConsumerView { events: pre.events.push(ConsumerEvent::Request(1)), ..pre }
        } else {
            ConsumerView { demand: (pre.demand - 1) as nat, buffered: Some(data.skip(n)), ..pre }
        },
        None => ConsumerView { demand: (pre.demand - 1) as nat, buffered: Some(data), ..pre },
    }
}

/// A pull-based flow-control adapter around an exclusively owned sink.
/// The driver may only write while the consumer has outstanding demand,
/// and learns of new demand through the queued `Request` events.
pub struct WriteAdapterConsumer<S: Sink> {
    sink: S,
    demand: usize,
    event_queue: VecDeque<ConsumerEvent>,
    buffered: Option<Vec<u8>>,
}

impl<S: Sink> View for WriteAdapterConsumer<S> {
    type V = ConsumerView;

    closed spec fn view(&self) -> ConsumerView {
        ConsumerView {
            demand: self.demand as nat,
            events: self.event_queue@,
            buffered: match self.buffered {
                Some(b) => Some(b@),
                None => None,
            },
        }
    }
}

impl<S: Sink> WriteAdapterConsumer<S> {
    /// Takes ownership of `sink` and returns a consumer holding one unit
    /// of demand, with one `Request(1)` event already queued.
    pub fn new(sink: S) -> (c: WriteAdapterConsumer<S>)
        ensures
            c@ == initial_view(),
    {
        let initial_demand: usize = 1;

        let mut consumer = WriteAdapterConsumer {
            sink,
            demand: initial_demand,
            event_queue: VecDeque::new(),
            buffered: None,
        };

        consumer.emit(ConsumerEvent::Request(initial_demand));

        proof {
            assert(consumer@.events =~= initial_view().events);
        }

        consumer
    }

    /// Appends `event` at the tail of the event queue; nothing else
    /// changes.
    pub fn emit(&mut self, event: ConsumerEvent)
        ensures
            final(self)@.events == old(self)@.events.push(event),
            final(self)@.demand == old(self)@.demand,
            final(self)@.buffered == old(self)@.buffered,
    {
        self.event_queue.push_back(event);
    }

    /// Removes and returns the event at the head of the queue, or `None`
    /// when no event is pending; never blocks.
    pub fn next_event(&mut self) -> (r: Option<ConsumerEvent>)
        ensures
            old(self)@.events.len() == 0 ==> r is None && final(self)@ == old(self)@,
            old(self)@.events.len() > 0 ==> {
                &&& r == Some(old(self)@.events[0])
                &&& final(self)@.events == old(self)@.events.skip(1)
                &&& final(self)@.demand == old(self)@.demand
                &&& final(self)@.buffered == old(self)@.buffered
            },
    {
        self.event_queue.pop_front()
    }

    /// A periodic hook reserved for future timer and retry logic; today
    /// a deliberate no-op.
    pub fn update(&mut self)
        ensures
            final(self)@ == old(self)@,
    {
    }

    /// The number of write operations the consumer currently accepts.
    pub fn current_demand(&self) -> (r: usize)
        ensures
            r == self@.demand,
    {
        self.demand
    }

    /// The buffered remainder of the most recent undelivered write, if
    /// any.
    pub fn buffered_bytes(&self) -> (r: Option<&Vec<u8>>)
        ensures
            match r {
                Some(b) => self@.buffered == Some(b@),
                None => self@.buffered is None,
            },
    {
        self.buffered.as_ref()
    }

    /// Delivers `data` to the sink once, provided demand is outstanding.
    ///
    /// With no demand the call fails with `WriteWithoutRequest` and the
    /// state is untouched. Otherwise the call succeeds and the state
    /// moves by `write_transition` under whatever acceptance count the
    /// sink reported; a short or failed delivery is absorbed into the
    /// buffer and the demand counter rather than surfaced to the caller.
    /// Queued events are never reordered or dropped, and demand never
    /// grows.
    pub fn write(&mut self, data: &[u8]) -> (r: Result<(), ConsumerError>)
        ensures
            old(self)@.demand == 0 ==> {
                &&& r == Err::<(), ConsumerError>(ConsumerError::WriteWithoutRequest)
                &&& final(self)@ == old(self)@
            },
            old(self)@.demand > 0 ==> {
                &&& r == Ok::<(), ConsumerError>(())
                &&& exists |acc: Option<int>|
                    valid_acceptance(acc, data@)
                    && final(self)@ == #[trigger] write_transition(old(self)@, data@, acc)
            },
            old(self)@.events.is_prefix_of(final(self)@.events),
            final(self)@.demand <= old(self)@.demand,
    {
        if self.demand > 0 {
            let outcome = self.sink.accept(data);
            self.handle_delivery(data, outcome);
            proof {
                let acc = acceptance_of(outcome);
                assert(valid_acceptance(acc, data@)
                    && self@ == write_transition(old(self)@, data@, acc));
                assert(old(self)@.events =~= self@.events.subrange(
                    0,
                    old(self)@.events.len() as int,
                ));
            }
            Ok(())
        } else {
            Err(ConsumerError::WriteWithoutRequest)
        }
    }

    /// Records the outcome of one delivery attempt, exactly as
    /// `write_transition` states: full acceptance queues a fresh
    /// `Request(1)`; a short or failed delivery overwrites the buffer
    /// with the undelivered bytes and spends one unit of demand.
    pub fn handle_delivery(&mut self, data: &[u8], outcome: Result<usize, SinkError>)
        requires
            old(self)@.demand > 0,
            outcome matches Ok(n) ==> n <= data@.len(),
        ensures
            final(self)@ == write_transition(old(self)@, data@, acceptance_of(outcome)),
    {
        match outcome {
            Ok(n) => {
                if n != data.len() {
                    let rest = slice_subrange(data, n, data.len());
                    self.buffered = Some(slice_to_vec(rest));
                    self.demand = self.demand - 1;
                } else {
                    self.emit(ConsumerEvent::Request(1));
                }
            },
            Err(_) => {
                self.buffered = Some(slice_to_vec(data));
                self.demand = self.demand - 1;
            },
        }
    }
}

} // verus!

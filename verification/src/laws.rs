//! The laws of the demand protocol, stated over the consumer's
//! mathematical state and proved once and for all.

use vstd::prelude::*;

use crate::consumer::initial_view;
use crate::consumer::valid_acceptance;
use crate::consumer::write_transition;
use crate::consumer::ConsumerView;
use crate::event::ConsumerEvent;

verus! {

/// A newly constructed consumer holds exactly one unit of demand, no
/// buffered bytes, and exactly one queued event, `Request(1)`: the first
/// event its driver retrieves.
pub proof fn lemma_initial_state()
    ensures
        initial_view().demand == 1,
        initial_view().events.len() == 1,
        initial_view().events[0] == ConsumerEvent::Request(1),
        initial_view().buffered is None,
{
}

/// The state after `k` consecutive writes of `data`, each one fully
/// accepted by the sink.
pub open spec fn fully_accepted_writes(pre: ConsumerView, data: Seq<u8>, k: nat) -> ConsumerView
    decreases k,
{
    if k == 0 {
        pre
    } else {
        write_transition(
            fully_accepted_writes(pre, data, (k - 1) as nat),
            data,
            Some(data.len() as int),
        )
    }
}

/// Full acceptance idempotence: however often data is written and fully
/// accepted, demand stays at its current value and the buffer is
/// untouched, while exactly one `Request(1)` event is appended per
/// write. Since demand never moves, every one of the writes passes the
/// demand check.
pub proof fn lemma_full_acceptance_idempotence(pre: ConsumerView, data: Seq<u8>, k: nat)
    requires
        pre.demand > 0,
    ensures
        fully_accepted_writes(pre, data, k).demand == pre.demand,
        fully_accepted_writes(pre, data, k).buffered == pre.buffered,
        fully_accepted_writes(pre, data, k).events
            == pre.events + Seq::new(k, |i: int| ConsumerEvent::Request(1)),
    decreases k,
{
    if k == 0 {
        assert(fully_accepted_writes(pre, data, k).events
            =~= pre.events + Seq::new(k, |i: int| ConsumerEvent::Request(1)));
    } else {
        lemma_full_acceptance_idempotence(pre, data, (k - 1) as nat);
        assert(fully_accepted_writes(pre, data, k).events
            =~= pre.events + Seq::new(k, |i: int| ConsumerEvent::Request(1)));
    }
}

/// Partial and failure monotonicity: each partial acceptance or sink
/// failure spends exactly one unit of demand, overwrites the buffer with
/// the undelivered remainder (whatever the buffer held before), and
/// appends no event.
pub proof fn lemma_partial_or_failure_spends_demand(
    pre: ConsumerView,
    data: Seq<u8>,
    acc: Option<int>,
)
    requires
        pre.demand > 0,
        valid_acceptance(acc, data),
        acc != Some(data.len() as int),
    ensures
        write_transition(pre, data, acc).demand == pre.demand - 1,
        write_transition(pre, data, acc).events == pre.events,
        write_transition(pre, data, acc).buffered == (match acc {
            Some(n) => Some(data.skip(n)),
            None => Some(data),
        }),
{
}

} // verus!

//! The callback pump. The SDK's callbacks send each notification they
//! receive into an [`EventSink`]; once per tick, after the SDK has run them,
//! the pump takes everything waiting at the [`EventSource`] and publishes it,
//! in delivery order, onto the event bus.

use crate::channel::{open_channel, send_to, try_receive};
use vstd::prelude::*;

verus! {

/// What the event bus holds after `pending` was published onto `bus`.
pub open spec fn published<E>(bus: Seq<E>, pending: Seq<E>) -> Seq<E> {
    bus + pending
}

/// Moves every pending event, in order, to the end of the bus, and leaves
/// the pending queue empty.
pub fn forward_events<E>(pending: &mut Vec<E>, bus: &mut Vec<E>)
    ensures
        final(bus)@ == published(old(bus)@, old(pending)@),
        final(pending)@ == Seq::<E>::empty(),
{
    bus.append(pending);
}

/// Publishing N pending events adds exactly N events to the bus, after what
/// it held, in the order in which they were delivered.
pub proof fn lemma_publish_keeps_count_and_order<E>(bus: Seq<E>, pending: Seq<E>)
    ensures
        published(bus, pending).len() == bus.len() + pending.len(),
        published(bus, pending).subrange(0, bus.len() as int) == bus,
        forall|i: int|
            0 <= i < pending.len() ==> #[trigger] published(bus, pending)[bus.len() + i]
                == pending[i],
{
    assert(published(bus, pending).subrange(0, bus.len() as int) =~= bus);
}

/// A pump that runs twice with nothing pending publishes nothing either time.
pub proof fn lemma_publish_nothing_twice<E>(bus: Seq<E>)
    ensures
        published(bus, Seq::empty()) == bus,
        published(published(bus, Seq::empty()), Seq::empty()) == bus,
{
    assert(published(bus, Seq::<E>::empty()) =~= bus);
}

/// The sending end that the SDK's callbacks write to.
#[verifier::reject_recursive_types(E)]
pub struct EventSink<E> {
    tx: std::sync::mpsc::Sender<E>,
}

impl<E> Clone for EventSink<E> {
    fn clone(&self) -> Self {
        EventSink { tx: self.tx.clone() }
    }
}

/// The receiving end that the pump reads.
#[verifier::reject_recursive_types(E)]
pub struct EventSource<E> {
    rx: std::sync::mpsc::Receiver<E>,
}

/// A connected sink and source.
pub fn event_channel<E>() -> (r: (EventSink<E>, EventSource<E>)) {
    let (tx, rx) = open_channel();
    (EventSink { tx }, EventSource { rx })
}

impl<E> EventSink<E> {
    /// Queues one event for the next pump; dropped if the source is gone.
    pub fn send(&self, event: E) {
        send_to(&self.tx, event);
    }
}

impl<E> EventSource<E> {
    /// Appends to `pending`, oldest first, every event that is waiting.
    pub fn receive_pending(&self, pending: &mut Vec<E>)
        ensures
            final(pending)@.len() >= old(pending)@.len(),
            final(pending)@.subrange(0, old(pending)@.len() as int) == old(pending)@,
    {
        let ghost start = pending@;
        // The length bound gives the loop a measure; a real queue never reaches it.
        while pending.len() < usize::MAX
            invariant
                pending@.len() >= start.len(),
                pending@.subrange(0, start.len() as int) == start,
            decreases usize::MAX - pending.len(),
        {
            match try_receive(&self.rx) {
                Some(event) => {
                    let ghost before = pending@;
                    pending.push(event);
                    assert(pending@.subrange(0, start.len() as int) =~= before.subrange(
                        0,
                        start.len() as int,
                    ));
                },
                None => break,
            }
        }
    }

    /// The pump's work for one tick, once the SDK has run its callbacks:
    /// publishes onto `bus`, after what it held and in delivery order, every
    /// event that is waiting.
    pub fn publish_pending(&self, bus: &mut Vec<E>)
        ensures
            final(bus)@.len() >= old(bus)@.len(),
            final(bus)@.subrange(0, old(bus)@.len() as int) == old(bus)@,
    {
        let mut pending: Vec<E> = Vec::new();
        self.receive_pending(&mut pending);
        let ghost before = bus@;
        forward_events(&mut pending, bus);
        assert(bus@.subrange(0, before.len() as int) =~= before);
    }
}

} // verus!

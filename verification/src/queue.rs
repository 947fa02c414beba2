//! The shared event queue: the one structure the notification adapters and
//! the coordinator have in common. It is a crossbeam channel; this module
//! holds both of its ends in one owned value, so that as long as the queue
//! is owned here nothing else sends into it or receives from it, and its
//! contents are exactly the events sent and not yet received, oldest first.

use vstd::prelude::*;
use crate::coordinator::Event;

verus! {

/// An event queue: the two ends of an unbounded crossbeam channel.
#[verifier::external_body]
pub struct EventQueue {
    tx: crossbeam::channel::Sender<Event>,
    rx: crossbeam::channel::Receiver<Event>,
}

/// The events the queue holds, in arrival order, oldest first.
pub uninterp spec fn queue_contents(q: EventQueue) -> Seq<Event>;

/// Relies on crossbeam_channel::unbounded: a fresh channel holds no
/// messages.
#[verifier::external_body]
pub fn new_queue() -> (q: EventQueue)
    ensures
        queue_contents(q) == Seq::<Event>::empty(),
{
    let (tx, rx) = crossbeam::channel::unbounded();
    EventQueue { tx, rx }
}

/// Relies on crossbeam_channel::Sender::send: on an unbounded channel it
/// appends the message, and fails only when the receiver is gone, which
/// cannot happen while the queue owns its receiving end.
#[verifier::external_body]
pub fn queue_send(q: &mut EventQueue, e: Event)
    ensures
        queue_contents(*final(q)) == queue_contents(*old(q)).push(e),
{
    let _ = q.tx.send(e);
}

/// Relies on crossbeam_channel::Receiver::try_recv: it returns the oldest
/// queued message, or an error when the channel holds none.
#[verifier::external_body]
pub fn queue_try_recv(q: &mut EventQueue) -> (r: Option<Event>)
    ensures
        queue_contents(*old(q)).len() == 0 ==> {
            &&& r is None
            &&& queue_contents(*final(q)) == queue_contents(*old(q))
        },
        queue_contents(*old(q)).len() > 0 ==> {
            &&& r == Some(queue_contents(*old(q))[0])
            &&& queue_contents(*final(q)) == queue_contents(*old(q)).drop_first()
        },
{
    match q.rx.try_recv() {
        Ok(e) => Some(e),
        Err(_) => None,
    }
}

/// Drain the queue: the events come out exactly as they went in, oldest
/// first — what one adapter enqueued as A then B is delivered as A then B.
pub fn drain_events(q: &mut EventQueue) -> (evts: Vec<Event>)
    ensures
        evts@ == queue_contents(*old(q)),
        queue_contents(*final(q)) == Seq::<Event>::empty(),
{
    let mut evts: Vec<Event> = Vec::new();
    loop
        invariant
            evts@ + queue_contents(*q) =~= queue_contents(*old(q)),
        ensures
            evts@ + queue_contents(*q) =~= queue_contents(*old(q)),
            queue_contents(*q).len() == 0,
        decreases queue_contents(*q).len(),
    {
        match queue_try_recv(q) {
            Some(e) => evts.push(e),
            None => break ,
        }
    }
    proof {
        assert(evts@ =~= queue_contents(*old(q)));
        assert(queue_contents(*q) =~= Seq::<Event>::empty());
    }
    evts
}

/// Enqueueing `a` and then `b` puts `a` ahead of `b` in the contents, so a
/// drain delivers `a` before `b`, whatever the queue held already.
pub proof fn lemma_fifo_order(s: Seq<Event>, a: Event, b: Event)
    ensures
        s.push(a).push(b)[s.len() as int] == a,
        s.push(a).push(b)[s.len() as int + 1] == b,
        s.len() < s.push(a).push(b).len(),
{
}

} // verus!

//! The input event queue between the render loop and the hosted system.
//!
//! One producer (the render loop's input handling) pushes; one consumer (the
//! host call that polls for input) takes, without blocking. Arrival order is
//! kept strictly. The first event ever pushed is the start signal, and the
//! bootstrap waits for exactly that event before the operating system runs.

use vstd::prelude::*;

use crate::keymap::Key;
use crate::keymap::KeyCode;

verus! {

/// One queued event.
#[derive(Clone, Copy, Debug, PartialEq, Eq, Structural)]
pub enum Event {
    /// The render loop finished its one-time setup; emitted once, first.
    Started,
    /// A key was released.
    KeyUp(Key),
    /// A key was pressed.
    KeyDown(Key),
}

/// A key transition as reported to the operating system.
#[derive(Clone, Copy, Debug, PartialEq, Eq, Structural)]
pub enum HidEvent {
    /// The key went down.
    KeyPress(KeyCode),
    /// The key came up.
    KeyRelease(KeyCode),
}

/// The oldest queued event, if any.
pub open spec fn queue_front(s: Seq<Event>) -> Option<Event> {
    if s.len() == 0 {
        None
    } else {
        Some(s[0])
    }
}

/// The queue after one take: unchanged when empty, else without its oldest
/// event.
pub open spec fn queue_rest(s: Seq<Event>) -> Seq<Event> {
    if s.len() == 0 {
        s
    } else {
        s.subrange(1, s.len() as int)
    }
}

/// A first-in first-out event queue.
pub struct EventQueue {
    items: Vec<Event>,
}

impl EventQueue {
    /// The queued events, oldest first.
    pub closed spec fn spec_items(self) -> Seq<Event> {
        self.items@
    }

    /// An empty queue.
    pub fn new() -> (r: EventQueue)
        ensures
            r.spec_items() =~= Seq::<Event>::empty(),
    {
        EventQueue { items: Vec::new() }
    }

    /// Append an event behind all queued ones.
    pub fn push(&mut self, event: Event)
        ensures
            final(self).spec_items() == old(self).spec_items().push(event),
    {
        self.items.push(event);
    }

    /// Take the oldest event without blocking: the front of the queue, or
    /// nothing when the queue is empty.
    pub fn try_take(&mut self) -> (r: Option<Event>)
        ensures
            r == queue_front(old(self).spec_items()),
            final(self).spec_items() == queue_rest(old(self).spec_items()),
    {
        if self.items.len() == 0 {
            None
        } else {
            let e = self.items.remove(0);
            proof {
                assert(self.spec_items() =~= queue_rest(old(self).spec_items()));
            }
            Some(e)
        }
    }
}

/// Events leave in arrival order: pushing three events into an empty queue
/// and taking four times yields the three events in order and then nothing.
pub proof fn lemma_event_ordering(e1: Event, e2: Event, e3: Event)
    ensures
        ({
            let s = Seq::<Event>::empty().push(e1).push(e2).push(e3);
            let s1 = queue_rest(s);
            let s2 = queue_rest(s1);
            let s3 = queue_rest(s2);
            &&& queue_front(s) == Some(e1)
            &&& queue_front(s1) == Some(e2)
            &&& queue_front(s2) == Some(e3)
            &&& queue_front(s3) is None
            &&& s3 =~= Seq::<Event>::empty()
        }),
{
    let s = Seq::<Event>::empty().push(e1).push(e2).push(e3);
    let s1 = queue_rest(s);
    let s2 = queue_rest(s1);
    assert(s.len() == 3 && s[0] == e1 && s[1] == e2 && s[2] == e3);
    assert(s1 =~= seq![e2, e3]);
    assert(s2 =~= seq![e3]);
}

} // verus!

//! The events that the launcher's background work reports, and the queue that
//! holds them until the interface takes them.
use vstd::prelude::*;
use std::collections::VecDeque;
use crate::error::{Error, error_message};

verus! {

/// What background work reports.
#[derive(Clone, Debug, PartialEq)]
pub enum Event {
    // This is a catch-all for any error it might encounter.
    Error(String),
    DownloadingWine,
    FinishedDownloadingWine,
    InitPrefix,
    FinishedInitPrefix,
    UpdatingPD2 { done: u32, total: u32 },
    DoneUpdating,
    UpdatingFilter,
    DoneUpdatingFilter,
}

/// The event that reports `e`.
pub fn error_event(e: &Error) -> (r: Event)
    ensures
        r matches Event::Error(m) && m@ == error_message(*e),
{
    Event::Error(e.message())
}

/// A fallible step's result, split into its value and the event that
/// reports its failure: a value and no event on success, no value and an
/// error event on failure.
pub fn split_fallible<T>(res: Result<T, Error>) -> (r: (Option<T>, Option<Event>))
    ensures
        match res {
            Ok(v) => r.0 == Some(v) && r.1 is None,
            Err(e) => r.0 is None && (r.1 matches Some(Event::Error(m)) && m@ == error_message(e)),
        },
{
    match res {
        Ok(v) => (Some(v), None),
        Err(e) => (None, Some(error_event(&e))),
    }
}

/// The events that were reported and not yet taken, oldest first.
#[derive(Debug)]
pub struct EventQueue {
    events: VecDeque<Event>,
}

impl View for EventQueue {
    type V = Seq<Event>;

    closed spec fn view(&self) -> Seq<Event> {
        self.events@
    }
}

impl EventQueue {
    /// A queue with no events.
    pub fn new() -> (r: EventQueue)
        ensures
            r@ == Seq::<Event>::empty(),
    {
        EventQueue { events: VecDeque::new() }
    }

    /// Reports `event`: it goes behind the events already waiting.
    pub fn notify(&mut self, event: Event)
        ensures
            final(self)@ == old(self)@.push(event),
    {
        self.events.push_back(event);
    }

    /// The number of events waiting.
    pub fn len(&self) -> (r: usize)
        ensures
            r == self@.len(),
    {
        self.events.len()
    }

    /// Takes every waiting event, oldest first, and leaves the queue empty.
    pub fn take_all(&mut self) -> (r: Vec<Event>)
        ensures
            r@ == old(self)@,
            final(self)@ == Seq::<Event>::empty(),
    {
        let ghost all = self@;
        let mut out: Vec<Event> = Vec::new();
        while self.events.len() > 0
            invariant
                all == out@ + self@,
            decreases self@.len(),
        {
            match self.events.pop_front() {
                Some(event) => {
                    out.push(event);
                },
                None => {},
            }
            assert(all =~= out@ + self@);
        }
        assert(out@ =~= all);
        out
    }
}

/// Events come out of the queue in the order they went in: whatever was
/// waiting, followed by what was reported since, each event once.
pub proof fn lemma_events_fifo(waiting: Seq<Event>, reported: Seq<Event>)
    ensures
        reported.fold_left(waiting, |q: Seq<Event>, e: Event| q.push(e)) == waiting + reported,
    decreases reported.len(),
{
    if reported.len() > 0 {
        lemma_events_fifo(waiting, reported.drop_last());
        assert(waiting + reported.drop_last() + seq![reported.last()] =~= waiting + reported);
        assert(reported.drop_last().push(reported.last()) =~= reported);
    } else {
        assert(waiting + reported =~= waiting);
    }
}

} // verus!

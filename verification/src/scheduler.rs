//! The side channel of a transform: what it asks to have emitted, at once or
//! after a delay. The requests are kept in the order in which they were
//! made; whoever runs the transform carries them out.

use vstd::prelude::*;

use crate::midi_event::{MIDIRouterEvent, RouterEventView};

verus! {

/// One request of a transform.
#[derive(Debug, PartialEq, Eq)]
pub enum Scheduled {
    /// Emit the event at once.
    Now(MIDIRouterEvent),
    /// Emit the event after so many milliseconds.
    Later(MIDIRouterEvent, u64),
}

/// A request as contracts see it.
pub enum ScheduledView {
    Now(RouterEventView),
    Later(RouterEventView, u64),
}

impl View for Scheduled {
    type V = ScheduledView;

    open spec fn view(&self) -> ScheduledView {
        match self {
            Scheduled::Now(event) => ScheduledView::Now(event@),
            Scheduled::Later(event, delay_ms) => ScheduledView::Later(event@, *delay_ms),
        }
    }
}

/// The requests of a sequence of requests, as contracts see them.
pub open spec fn requests_view(requests: Seq<Scheduled>) -> Seq<ScheduledView> {
    requests.map_values(|request: Scheduled| request@)
}

/// The handle that a transform writes its requests to.
#[derive(Debug)]
pub struct SchedulerHandler {
    queue: Vec<Scheduled>,
}

impl View for SchedulerHandler {
    type V = Seq<ScheduledView>;

    closed spec fn view(&self) -> Seq<ScheduledView> {
        requests_view(self.queue@)
    }
}

impl SchedulerHandler {
    /// A handle with no request on it.
    pub fn new() -> (handler: SchedulerHandler)
        ensures
            handler@ == Seq::<ScheduledView>::empty(),
    {
        SchedulerHandler { queue: Vec::new() }
    }

    /// Asks for `message` to be emitted at once.
    pub fn send_now(&mut self, message: MIDIRouterEvent)
        ensures
            final(self)@ == old(self)@.push(ScheduledView::Now(message@)),
    {
        self.queue.push(Scheduled::Now(message));
    }

    /// Asks for `message` to be emitted after `delay_ms` milliseconds.
    pub fn send_later(&mut self, message: MIDIRouterEvent, delay_ms: u64)
        ensures
            final(self)@ == old(self)@.push(ScheduledView::Later(message@, delay_ms)),
    {
        self.queue.push(Scheduled::Later(message, delay_ms));
    }

    /// Hands the requests over, oldest first.
    pub fn into_requests(self) -> (requests: Vec<Scheduled>)
        ensures
            requests_view(requests@) == self@,
    {
        self.queue
    }
}

} // verus!

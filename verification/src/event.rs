//! Window events and the loop signal derived from them.
use vstd::prelude::*;

verus! {

/// What the window reported, reduced to what the driver tells apart.
#[derive(Clone, Copy, Debug, PartialEq, Eq, Structural)]
pub enum Event {
    /// The window was asked to close.
    Closed,
    /// The pointer moved to the given window coordinates.
    PointerMoved(i32, i32),
    /// Any event the driver has no interest in.
    Other,
}

/// The signal a poll hands to the loop.
#[derive(Clone, Copy, Debug, PartialEq, Eq, Structural)]
pub enum LoopState {
    /// Keep cycling.
    Continue,
    /// Leave the loop for good.
    Break,
}

/// The signal one event stands for: a close request breaks the loop, every
/// other event lets it continue.
pub open spec fn signal_of(event: Event) -> LoopState {
    match event {
        Event::Closed => LoopState::Break,
        Event::PointerMoved(_, _) => LoopState::Continue,
        Event::Other => LoopState::Continue,
    }
}

/// The signal of one poll over the queued events, oldest first. The oldest
/// event alone decides, the others stay queued for later polls. An empty queue
/// gives no signal.
pub open spec fn first_signal(events: Seq<Event>) -> Option<LoopState> {
    if events.len() == 0 {
        None
    } else {
        Some(signal_of(events[0]))
    }
}

impl Event {
    /// The signal this event stands for.
    pub fn signal(&self) -> (s: LoopState)
        ensures
            s == signal_of(*self),
    {
        match self {
            Event::Closed => LoopState::Break,
            Event::PointerMoved(_, _) => LoopState::Continue,
            Event::Other => LoopState::Continue,
        }
    }
}

/// Examines the queued events, oldest first, and derives the poll's signal.
pub fn poll_signal(events: &Vec<Event>) -> (signal: Option<LoopState>)
    ensures
        signal == first_signal(events@),
{
    if events.len() == 0 {
        None
    } else {
        Some(events[0].signal())
    }
}

/// A close request at the head of the queue always breaks the loop.
pub proof fn lemma_close_breaks(events: Seq<Event>)
    requires
        events.len() > 0,
        events[0] == Event::Closed,
    ensures
        first_signal(events) == Some(LoopState::Break),
{
}

/// Any other event at the head of the queue lets the loop continue, whatever
/// follows it.
pub proof fn lemma_other_events_continue(events: Seq<Event>)
    requires
        events.len() > 0,
        events[0] != Event::Closed,
    ensures
        first_signal(events) == Some(LoopState::Continue),
{
}

} // verus!

//! Collecting events: a host waits for the next event that passes its
//! filter. What comes from the channel of events decides whether the
//! wait is over.

use vstd::prelude::*;

verus! {

/// What the channel of events gave.
#[derive(Debug)]
pub enum Received<E> {
    /// An event.
    Event(E),
    /// Events were missed, because the collector was too slow.
    Lagged,
    /// The channel is closed: no event will come any more.
    Closed,
}

/// Whether the wait is over.
#[derive(Debug)]
pub enum Verdict<E> {
    /// The wait is over, with this event, or with none at all.
    Done(Option<E>),
    /// Wait for what the channel gives next.
    Again,
}

/// Judges what the channel gave, where `passes` says whether an event
/// passes the filter of the collector. An event that passes ends the
/// wait; one that does not, and a gap in the events, let it go on; the
/// end of the channel ends it without an event.
pub fn judge<E>(received: Received<E>, passes: bool) -> (verdict: Verdict<E>)
    ensures
        verdict == match received {
            Received::Event(event) => if passes {
                Verdict::Done(Some(event))
            } else {
                Verdict::Again
            },
            Received::Lagged => Verdict::Again,
            Received::Closed => Verdict::Done(None),
        },
{
    match received {
        Received::Event(event) => if passes {
            Verdict::Done(Some(event))
        } else {
            Verdict::Again
        },
        Received::Lagged => Verdict::Again,
        Received::Closed => Verdict::Done(None),
    }
}

} // verus!

//! The one-shot signal that a producer is dead: its liveness key is gone.

use vstd::prelude::*;
use crate::state::LeaderError;

verus! {

/// The kind of a change that a watch over a liveness key reports.
#[derive(Clone, Copy, Debug, PartialEq, Eq, Structural)]
pub enum WatchEventKind {
    Put,
    Delete,
}

/// What decides a dead signal. The watch over the liveness key is opened
/// before the key is read, so no deletion falls between the two; the signal
/// then follows the events of that watch.
pub struct DeadSignal {
    fired: bool,
}

impl View for DeadSignal {
    type V = bool;

    /// Whether the signal has fired.
    closed spec fn view(&self) -> bool {
        self.fired
    }
}

/// One watch event seen by a signal that has fired or not: whether it has
/// fired afterwards, and whether this event fires it (an error for a put of a
/// producer that was presumed dead).
pub open spec fn observe_spec(fired: bool, event: WatchEventKind) -> (bool, Result<bool, LeaderError>) {
    if fired {
        (true, Ok(false))
    } else {
        match event {
            WatchEventKind::Put => (false, Err(LeaderError::CorruptedState)),
            WatchEventKind::Delete => (true, Ok(true)),
        }
    }
}

/// How many times a signal fires over a run of watch events; `None` when the
/// run meets a corrupted state, which ends the watch.
pub open spec fn fire_count(fired: bool, events: Seq<WatchEventKind>) -> Option<nat>
    decreases events.len(),
{
    if events.len() == 0 {
        Some(0)
    } else {
        let (next, r) = observe_spec(fired, events[0]);
        match r {
            Err(_) => None,
            Ok(fire) => match fire_count(next, events.drop_first()) {
                Some(n) => Some(n + if fire { 1nat } else { 0nat }),
                None => None,
            },
        }
    }
}

impl DeadSignal {
    /// Starts the signal from the number of liveness keys that the read after
    /// the watch found: with none, the producer is already dead and the
    /// signal fires at once.
    pub fn subscribe(live_key_count: i64) -> (r: DeadSignal)
        ensures
            r@ == (live_key_count == 0),
    {
        DeadSignal { fired: live_key_count == 0 }
    }

    pub fn is_fired(&self) -> (r: bool)
        ensures
            r == self@,
    {
        self.fired
    }

    /// Takes one watch event; `Ok(true)` exactly when this event fires the signal.
    pub fn observe(&mut self, event: WatchEventKind) -> (r: Result<bool, LeaderError>)
        ensures
            (final(self)@, r) == observe_spec(old(self)@, event),
    {
        if self.fired {
            Ok(false)
        } else {
            match event {
                WatchEventKind::Put => Err(LeaderError::CorruptedState),
                WatchEventKind::Delete => {
                    self.fired = true;
                    Ok(true)
                },
            }
        }
    }
}

/// A signal fires at most once, never again once fired, fires on a first
/// deletion event, and a put event seen before it fired is a corruption.
pub proof fn lemma_fires_once(fired: bool, events: Seq<WatchEventKind>)
    ensures
        fired ==> fire_count(fired, events) == Some(0nat),
        fire_count(fired, events) matches Some(n) ==> n <= 1,
        !fired && events.len() > 0 && events[0] == WatchEventKind::Delete ==> fire_count(
            fired,
            events,
        ) == Some(1nat),
        !fired && events.len() > 0 && events[0] == WatchEventKind::Put ==> fire_count(
            fired,
            events,
        ) is None,
    decreases events.len(),
{
    if events.len() > 0 {
        lemma_fires_once(true, events.drop_first());
        lemma_fires_once(fired, events.drop_first());
    }
}

} // verus!

use vstd::prelude::*;
use crate::action::{Action, ActionResult};

verus! {

/// How long an idle loop waits before it polls the queue again, in
/// milliseconds.
pub const BACKOFF_MS: u64 = 100;

/// Where a dispatch loop stands, and so what it does next.
pub enum Phase {
    /// Take the next action from the work queue.
    Polling,
    /// The queue was empty: sleep `BACKOFF_MS`, then poll again.
    Waiting,
    /// Hand this action to the worker and wait for its result.
    Working(Action),
    /// Send this result on the delivery channel.
    Delivering(ActionResult),
    /// The delivery channel has no receiver left: the loop is over.
    Stopped,
}

/// What the outside world reports back to a dispatch loop.
pub enum Event {
    /// The work queue handed out this action, or nothing.
    Taken(Option<Action>),
    /// The backoff sleep is over.
    Slept,
    /// The worker finished with this result.
    Received(ActionResult),
    /// The result was delivered (`true`), or no receiver remains (`false`).
    Sent(bool),
}

/// The phase that follows `p` on event `e`. An event that does not answer
/// what `p` asked for leaves the phase as it is.
pub open spec fn next(p: Phase, e: Event) -> Phase {
    match (p, e) {
        (Phase::Polling, Event::Taken(Some(a))) => Phase::Working(a),
        (Phase::Polling, Event::Taken(None)) => Phase::Waiting,
        (Phase::Waiting, Event::Slept) => Phase::Polling,
        (Phase::Working(_), Event::Received(r)) => Phase::Delivering(r),
        (Phase::Delivering(_), Event::Sent(true)) => Phase::Polling,
        (Phase::Delivering(_), Event::Sent(false)) => Phase::Stopped,
        (p, _) => p,
    }
}

impl Phase {
    /// A fresh loop polls first.
    pub fn Begin() -> (r: Phase)
        ensures
            r is Polling,
    {
        Phase::Polling
    }

    /// Whether the loop is over.
    pub fn IsStopped(&self) -> (r: bool)
        ensures
            r == self is Stopped,
    {
        match self {
            Phase::Stopped => true,
            _ => false,
        }
    }

    /// The phase after `event`. A worker's result, failed or not, is always
    /// delivered; the loop stops only when a delivery finds no receiver, and
    /// once stopped it stays stopped.
    pub fn Next(self, event: Event) -> (r: Phase)
        ensures
            r == next(self, event),
            (r is Stopped) <==> (self is Stopped || (self is Delivering && event == Event::Sent(
                false,
            ))),
            self is Working && event is Received ==> r == Phase::Delivering(event->Received_0),
    {
        match (self, event) {
            (Phase::Polling, Event::Taken(Some(a))) => Phase::Working(a),
            (Phase::Polling, Event::Taken(None)) => Phase::Waiting,
            (Phase::Waiting, Event::Slept) => Phase::Polling,
            (Phase::Working(_), Event::Received(r)) => Phase::Delivering(r),
            (Phase::Delivering(_), Event::Sent(true)) => Phase::Polling,
            (Phase::Delivering(_), Event::Sent(false)) => Phase::Stopped,
            (p, _) => p,
        }
    }
}

} // verus!

//! The shutdown coordinator: a state machine with the phases running and
//! draining, driven by time-stamped events.
//!
//! Times are readings of one monotonic clock, in milliseconds. The machine
//! never reads a clock itself: whoever drives it stamps each event.

use vstd::prelude::*;
use crate::routes::{dispatch, route_reply, Reply, ReplyView};

verus! {

/// A termination notification from outside the process.
#[derive(Clone, Copy, Debug, PartialEq, Eq, Structural)]
pub enum Signal {
    /// The interactive interrupt.
    Interrupt,
    /// The request to terminate the process.
    Terminate,
}

/// Something that happened and that the coordinator has to react to.
#[derive(Clone, Copy, Debug, PartialEq, Eq, Structural)]
pub enum Event {
    /// A termination signal was observed.
    Signalled(Signal),
    /// A timer that the coordinator asked for has fired.
    TimerFired,
    /// The listener has stopped and every accepted connection is finished.
    Drained,
}

/// Something the server has to do, as decided by the coordinator.
#[derive(Clone, Copy, Debug, PartialEq, Eq, Structural)]
pub enum Action {
    /// Stop accepting connections; leave the accepted ones alone.
    StopAccepting,
    /// Start a timer and report `Event::TimerFired` when it has run.
    StartGraceTimer { millis: u64 },
    /// End the process now, whatever is still in flight.
    Exit,
}

/// The phase of the coordinator.
#[derive(Clone, Copy, Debug, PartialEq, Eq, Structural)]
pub enum Phase {
    /// Connections are accepted and served.
    Running,
    /// No connection is accepted any more; `since_ms` is the time of the
    /// event that ended the running phase.
    Draining { since_ms: u64 },
}

/// A state of the coordinator as a mathematical value.
pub struct Machine {
    /// Length of the grace period, in milliseconds.
    pub grace_ms: u64,
    pub phase: Phase,
}

impl Machine {
    /// The state in which every coordinator starts.
    pub open spec fn initial(grace_ms: u64) -> Machine {
        Machine { grace_ms, phase: Phase::Running }
    }

    /// Whether new connections are accepted.
    pub open spec fn accepting(self) -> bool {
        self.phase is Running
    }

    /// The time at which the grace period ends, once draining has begun.
    /// It is not bounded by the range of the clock.
    pub open spec fn deadline(self) -> Option<int> {
        match self.phase {
            Phase::Running => None,
            Phase::Draining { since_ms } => Some(since_ms + self.grace_ms),
        }
    }

    /// Whether the grace period is over at time `now_ms`.
    pub open spec fn expired(self, now_ms: u64) -> bool {
        match self.deadline() {
            None => false,
            Some(end) => now_ms >= end,
        }
    }

    /// Whether a request on an accepted connection is still answered at time
    /// `now_ms`: always while running, and up to the deadline while draining.
    pub open spec fn serving(self, now_ms: u64) -> bool {
        !self.expired(now_ms)
    }

    /// The state after `event` at time `now_ms`. The first signal starts the
    /// drain; nothing else changes the state, and nothing ends a drain.
    pub open spec fn after(self, now_ms: u64, event: Event) -> Machine {
        if self.phase is Running && event is Signalled {
            Machine { grace_ms: self.grace_ms, phase: Phase::Draining { since_ms: now_ms } }
        } else {
            self
        }
    }

    /// The actions that `event` at time `now_ms` calls for, in the order in
    /// which they are to be performed.
    pub open spec fn emits(self, now_ms: u64, event: Event) -> Seq<Action> {
        match self.phase {
            Phase::Running => if event is Signalled {
                seq![Action::StopAccepting, Action::StartGraceTimer { millis: self.grace_ms }]
            } else {
                Seq::empty()
            },
            Phase::Draining { .. } => if self.expired(now_ms) || event is Drained {
                seq![Action::Exit]
            } else {
                Seq::empty()
            },
        }
    }

    /// The reply to a request that arrives at time `now_ms` on an accepted
    /// connection, if it still gets one.
    pub open spec fn answer(self, now_ms: u64, method: Seq<char>, path: Seq<char>) -> Option<
        ReplyView,
    > {
        if self.serving(now_ms) {
            Some(route_reply(method, path))
        } else {
            None
        }
    }
}

/// The shutdown coordinator. Its state changes through [`Coordinator::step`]
/// alone.
#[derive(Debug)]
pub struct Coordinator {
    grace_ms: u64,
    phase: Phase,
}

impl View for Coordinator {
    type V = Machine;

    closed spec fn view(&self) -> Machine {
        Machine { grace_ms: self.grace_ms, phase: self.phase }
    }
}

impl Coordinator {
    /// A coordinator in the running phase, with the given grace period.
    pub fn new(grace_ms: u64) -> (coordinator: Coordinator)
        ensures
            coordinator@ == Machine::initial(grace_ms),
    {
        Coordinator { grace_ms, phase: Phase::Running }
    }

    /// The current phase.
    pub fn phase(&self) -> (phase: Phase)
        ensures
            phase == self@.phase,
    {
        self.phase
    }

    /// The length of the grace period, in milliseconds.
    pub fn grace_ms(&self) -> (millis: u64)
        ensures
            millis == self@.grace_ms,
    {
        self.grace_ms
    }

    /// Whether new connections are accepted.
    pub fn accepting(&self) -> (open: bool)
        ensures
            open == self@.accepting(),
    {
        match self.phase {
            Phase::Running => true,
            Phase::Draining { .. } => false,
        }
    }

    /// Whether the grace period is over at time `now_ms`.
    pub fn expired(&self, now_ms: u64) -> (over: bool)
        ensures
            over == self@.expired(now_ms),
    {
        match self.phase {
            Phase::Running => false,
            Phase::Draining { since_ms } => now_ms >= since_ms && now_ms - since_ms
                >= self.grace_ms,
        }
    }

    /// Takes one event, stamped with the time at which it was observed,
    /// moves to the next state and returns the actions to perform, in order.
    pub fn step(&mut self, now_ms: u64, event: Event) -> (actions: Vec<Action>)
        ensures
            final(self)@ == old(self)@.after(now_ms, event),
            actions@ == old(self)@.emits(now_ms, event),
    {
        let mut actions: Vec<Action> = Vec::new();
        match self.phase {
            Phase::Running => {
                if let Event::Signalled(_) = event {
                    self.phase = Phase::Draining { since_ms: now_ms };
                    actions.push(Action::StopAccepting);
                    actions.push(Action::StartGraceTimer { millis: self.grace_ms });
                }
            },
            Phase::Draining { .. } => {
                let drained = match event {
                    Event::Drained => true,
                    _ => false,
                };
                if drained || self.expired(now_ms) {
                    actions.push(Action::Exit);
                }
            },
        }
        actions
    }

    /// Answers a request that arrived at time `now_ms` on an accepted
    /// connection: with the routed reply while requests are served, with
    /// nothing once the grace period is over.
    pub fn respond(&self, now_ms: u64, method: &str, path: &str) -> (reply: Option<Reply>)
        ensures
            match reply {
                Some(r) => self@.answer(now_ms, method@, path@) == Some(r@),
                None => self@.answer(now_ms, method@, path@) is None,
            },
    {
        if self.expired(now_ms) {
            None
        } else {
            Some(dispatch(method, path))
        }
    }
}

} // verus!

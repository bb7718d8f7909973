//! Runs of the coordinator over sequences of events, and what holds of
//! every run.

use vstd::prelude::*;
use crate::routes::route_reply;
use crate::shutdown::{Action, Event, Machine, Phase, Signal};

verus! {

/// An event together with the time at which it was observed.
pub struct Stamped {
    pub at_ms: u64,
    pub event: Event,
}

/// Whether some event of the trace is a termination signal.
pub open spec fn has_signal(trace: Seq<Stamped>) -> bool {
    exists|i: int| 0 <= i < trace.len() && (#[trigger] trace[i]).event is Signalled
}

/// Whether the event at index `i` is the first termination signal of the trace.
pub open spec fn first_signal_at(trace: Seq<Stamped>, i: int) -> bool {
    &&& 0 <= i < trace.len()
    &&& trace[i].event is Signalled
    &&& forall|j: int| 0 <= j < i ==> !((#[trigger] trace[j]).event is Signalled)
}

impl Machine {
    /// The state after the events of `trace`, taken in order.
    pub open spec fn run(self, trace: Seq<Stamped>) -> Machine
        decreases trace.len(),
    {
        if trace.len() == 0 {
            self
        } else {
            self.run(trace.drop_last()).after(trace.last().at_ms, trace.last().event)
        }
    }

    /// How many events of `trace` move the coordinator from running to
    /// draining.
    pub open spec fn transitions(self, trace: Seq<Stamped>) -> nat
        decreases trace.len(),
    {
        if trace.len() == 0 {
            0
        } else {
            let before = self.run(trace.drop_last());
            let after = self.run(trace);
            let moved: nat = if before.phase is Running && after.phase is Draining {
                1
            } else {
                0
            };
            self.transitions(trace.drop_last()) + moved
        }
    }
}

/// No event changes the length of the grace period.
pub proof fn lemma_grace_is_constant(m: Machine, trace: Seq<Stamped>)
    ensures
        m.run(trace).grace_ms == m.grace_ms,
    decreases trace.len(),
{
    if trace.len() > 0 {
        lemma_grace_is_constant(m, trace.drop_last());
    }
}

/// Either termination signal, observed while running, starts the drain at
/// the time of the signal: the listener is told to stop accepting, then the
/// grace timer is started, and the deadline lies one grace period later.
/// Which of the two signals it was makes no difference.
pub proof fn lemma_signal_starts_drain(m: Machine, now_ms: u64, signal: Signal)
    requires
        m.phase is Running,
    ensures
        m.after(now_ms, Event::Signalled(signal)).phase == (Phase::Draining { since_ms: now_ms }),
        m.after(now_ms, Event::Signalled(signal)).deadline() == Some(now_ms + m.grace_ms),
        m.emits(now_ms, Event::Signalled(signal)) == seq![
            Action::StopAccepting,
            Action::StartGraceTimer { millis: m.grace_ms },
        ],
        m.after(now_ms, Event::Signalled(signal)) == m.after(
            now_ms,
            Event::Signalled(Signal::Interrupt),
        ),
        m.after(now_ms, Event::Signalled(signal)) == m.after(
            now_ms,
            Event::Signalled(Signal::Terminate),
        ),
{
}

/// Once draining, always draining: no sequence of events changes the state
/// of a draining coordinator, so its deadline never moves and it never
/// accepts again.
pub proof fn lemma_drain_is_final(m: Machine, trace: Seq<Stamped>)
    requires
        m.phase is Draining,
    ensures
        m.run(trace) == m,
        m.transitions(trace) == 0,
    decreases trace.len(),
{
    if trace.len() > 0 {
        lemma_drain_is_final(m, trace.drop_last());
    }
}

/// A trace without a termination signal leaves the state as it was.
pub proof fn lemma_without_signal_nothing_moves(m: Machine, trace: Seq<Stamped>)
    requires
        !has_signal(trace),
    ensures
        m.run(trace) == m,
        m.transitions(trace) == 0,
    decreases trace.len(),
{
    if trace.len() > 0 {
        lemma_without_signal_nothing_moves(m, trace.drop_last());
    }
}

/// The drain starts at the first termination signal of a trace, and there:
/// the state after the trace is draining since the time of that signal,
/// whatever follows it.
pub proof fn lemma_drain_starts_at_first_signal(m: Machine, trace: Seq<Stamped>, i: int)
    requires
        m.phase is Running,
        first_signal_at(trace, i),
    ensures
        m.run(trace).phase == (Phase::Draining { since_ms: trace[i].at_ms }),
        m.run(trace).grace_ms == m.grace_ms,
        m.transitions(trace) == 1,
    decreases trace.len(),
{
    let front = trace.drop_last();
    if i == trace.len() - 1 {
        lemma_without_signal_nothing_moves(m, front);
    } else {
        lemma_drain_starts_at_first_signal(m, front, i);
    }
}

/// The coordinator leaves the running phase exactly once if it is running
/// and the trace holds at least one termination signal, however many signals
/// follow the first and of whichever kind; otherwise it never does.
pub proof fn lemma_exactly_one_transition(m: Machine, trace: Seq<Stamped>)
    ensures
        m.transitions(trace) == if m.phase is Running && has_signal(trace) {
            1nat
        } else {
            0nat
        },
        m.run(trace).phase is Draining <==> m.phase is Draining || has_signal(trace),
{
    if m.phase is Draining {
        lemma_drain_is_final(m, trace);
    } else if has_signal(trace) {
        let i = first_signal_index(trace);
        lemma_drain_starts_at_first_signal(m, trace, i);
    } else {
        lemma_without_signal_nothing_moves(m, trace);
    }
}

/// The index of the first termination signal of a trace that holds one.
pub proof fn first_signal_index(trace: Seq<Stamped>) -> (i: int)
    requires
        has_signal(trace),
    ensures
        first_signal_at(trace, i),
    decreases trace.len(),
{
    let front = trace.drop_last();
    assert forall|j: int| 0 <= j < front.len() implies front[j] == trace[j] by {}
    if has_signal(front) {
        first_signal_index(front)
    } else {
        trace.len() - 1
    }
}

/// After the drain has begun no connection is accepted, whatever happens
/// next; a request on a connection that was accepted before gets the reply
/// of the routing table as long as the grace period is not over.
pub proof fn lemma_draining_refuses_new_serves_accepted(
    m: Machine,
    later: Seq<Stamped>,
    now_ms: u64,
    method: Seq<char>,
    path: Seq<char>,
)
    requires
        m.phase is Draining,
    ensures
        !m.run(later).accepting(),
        now_ms < m.deadline().unwrap() ==> m.run(later).answer(now_ms, method, path) == Some(
            route_reply(method, path),
        ),
{
    lemma_drain_is_final(m, later);
}

/// The shutdown is bounded: whatever happened since the drain began, and
/// whether or not the connections are finished, every event observed at the
/// deadline or later makes the coordinator order the exit, and nothing else.
pub proof fn lemma_exit_at_deadline(
    m: Machine,
    later: Seq<Stamped>,
    now_ms: u64,
    event: Event,
)
    requires
        m.phase is Draining,
        now_ms >= m.deadline().unwrap(),
    ensures
        m.run(later).emits(now_ms, event) == seq![Action::Exit],
{
    lemma_drain_is_final(m, later);
}

} // verus!

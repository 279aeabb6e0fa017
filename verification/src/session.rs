//! The click loop of one session, as a state machine.
//!
//! The host program runs the loop: it performs the action that the session
//! asks for (wait, click, or leave the loop) and reports what happened as an
//! event. The session decides what comes next.

use crate::input::{ClickAction, InjectError, MouseButton};
use crate::interval::NANOS_PER_MILLI;
use crate::jitter::{DelayRequest, JitterConfig};
use vstd::prelude::*;

verus! {

/// Why a session's loop ended.
#[derive(Clone, Copy, Debug, PartialEq, Eq, Structural)]
pub enum EndReason {
    /// The session was cancelled.
    Cancelled,
    /// A click could not be injected.
    InjectionFailed,
    /// An event was reported that the pending action cannot produce.
    OutOfTurn,
}

/// Where the loop stands.
#[derive(Clone, Copy, Debug, PartialEq, Eq, Structural)]
pub enum Phase {
    /// The delay of this iteration is being waited.
    Waiting,
    /// The delay has elapsed and the click is being injected.
    Clicking,
    /// The loop has ended.
    Finished(EndReason),
}

/// What the host program reports to the session.
#[derive(Clone, Copy, Debug, PartialEq, Eq, Structural)]
pub enum LoopEvent {
    /// The delay elapsed before the session was cancelled.
    DelayElapsed,
    /// The cancellation signal fired.
    Cancelled,
    /// The click was injected.
    ClickSucceeded,
    /// The click could not be injected.
    ClickFailed,
}

/// What the session asks the host program to do next.
#[derive(Clone, Copy, Debug, PartialEq, Eq, Structural)]
pub enum LoopAction {
    /// Wait for the delay or for the cancellation signal, whichever comes
    /// first.
    Wait(DelayRequest),
    /// Inject one click.
    Click(MouseButton, ClickAction),
    /// Leave the loop.
    Exit(EndReason),
}

/// One scheduling session: what it clicks, at which cadence, and where its
/// loop stands.
#[derive(Clone, Copy, Debug, PartialEq, Eq, Structural)]
pub struct Session {
    pub base_delay_nanos: u64,
    pub jitter: JitterConfig,
    pub button: MouseButton,
    pub action: ClickAction,
    pub phase: Phase,
}

/// The phase that follows a phase on an event.
///
/// A click is begun only when a delay has elapsed while waiting. A
/// cancellation ends the loop from any phase, a failed click ends it, and so
/// does an event that the pending action cannot produce. A loop that has
/// ended stays as it ended.
pub open spec fn next_phase(phase: Phase, event: LoopEvent) -> Phase {
    match (phase, event) {
        (Phase::Finished(reason), _) => Phase::Finished(reason),
        (_, LoopEvent::Cancelled) => Phase::Finished(EndReason::Cancelled),
        (Phase::Waiting, LoopEvent::DelayElapsed) => Phase::Clicking,
        (Phase::Clicking, LoopEvent::ClickSucceeded) => Phase::Waiting,
        (Phase::Clicking, LoopEvent::ClickFailed) => Phase::Finished(EndReason::InjectionFailed),
        (_, _) => Phase::Finished(EndReason::OutOfTurn),
    }
}

/// Whether an event makes the loop begin a click.
pub open spec fn begins_click(phase: Phase, event: LoopEvent) -> bool {
    phase == Phase::Waiting && event == LoopEvent::DelayElapsed
}

/// The phase after a run of events, from first to last.
pub open spec fn phase_after(phase: Phase, events: Seq<LoopEvent>) -> Phase
    decreases events.len(),
{
    if events.len() == 0 {
        phase
    } else {
        next_phase(phase_after(phase, events.drop_last()), events.last())
    }
}

/// How many clicks the loop begins over a run of events.
pub open spec fn clicks_begun(phase: Phase, events: Seq<LoopEvent>) -> nat
    decreases events.len(),
{
    if events.len() == 0 {
        0
    } else {
        let before = clicks_begun(phase, events.drop_last());
        if begins_click(phase_after(phase, events.drop_last()), events.last()) {
            before + 1
        } else {
            before
        }
    }
}

/// How many of the events report an elapsed delay.
pub open spec fn delays_elapsed(events: Seq<LoopEvent>) -> nat
    decreases events.len(),
{
    if events.len() == 0 {
        0
    } else {
        let before = delays_elapsed(events.drop_last());
        if events.last() == LoopEvent::DelayElapsed {
            before + 1
        } else {
            before
        }
    }
}

impl EndReason {
    /// The error that ended the loop, where one did.
    pub open spec fn spec_error(self) -> Option<InjectError> {
        match self {
            EndReason::InjectionFailed => Some(InjectError::InjectionFailed),
            _ => None,
        }
    }

    /// The error that ended the loop, where one did: a failed click. A
    /// cancellation is no error, and neither is an event out of turn.
    pub fn error(&self) -> (error: Option<InjectError>)
        ensures
            error == self.spec_error(),
    {
        match self {
            EndReason::InjectionFailed => Some(InjectError::InjectionFailed),
            _ => None,
        }
    }
}

impl Session {
    /// A session is well formed when its base delay is at least one
    /// millisecond.
    pub open spec fn wf(self) -> bool {
        self.base_delay_nanos >= NANOS_PER_MILLI
    }

    /// The session with another phase.
    pub open spec fn with_phase(self, phase: Phase) -> Session {
        Session { phase, ..self }
    }

    /// The action that is pending in the session's phase.
    pub open spec fn spec_pending(self) -> LoopAction {
        match self.phase {
            Phase::Waiting => LoopAction::Wait(self.jitter.spec_request(self.base_delay_nanos)),
            Phase::Clicking => LoopAction::Click(self.button, self.action),
            Phase::Finished(reason) => LoopAction::Exit(reason),
        }
    }

    /// A fresh session. Its loop starts by waiting a full delay: there is no
    /// click at the start.
    pub fn new(
        base_delay_nanos: u64,
        jitter: JitterConfig,
        button: MouseButton,
        action: ClickAction,
    ) -> (session: Session)
        ensures
            session == (Session {
                base_delay_nanos,
                jitter,
                button,
                action,
                phase: Phase::Waiting,
            }),
            session.spec_pending() is Wait,
    {
        Session { base_delay_nanos, jitter, button, action, phase: Phase::Waiting }
    }

    /// The action that the host program is to perform now.
    pub fn pending(&self) -> (action: LoopAction)
        ensures
            action == self.spec_pending(),
    {
        match self.phase {
            Phase::Waiting => LoopAction::Wait(self.jitter.request(self.base_delay_nanos)),
            Phase::Clicking => LoopAction::Click(self.button, self.action),
            Phase::Finished(reason) => LoopAction::Exit(reason),
        }
    }

    /// Whether the loop has ended.
    pub fn is_finished(&self) -> (finished: bool)
        ensures
            finished == (self.phase is Finished),
    {
        match self.phase {
            Phase::Finished(_) => true,
            _ => false,
        }
    }

    /// Takes in what the host program reports and returns what it is to do
    /// next. Only the phase changes.
    pub fn step(&mut self, event: LoopEvent) -> (action: LoopAction)
        ensures
            *final(self) == old(self).with_phase(next_phase(old(self).phase, event)),
            action == final(self).spec_pending(),
            action is Click <==> begins_click(old(self).phase, event),
    {
        let next = match (self.phase, event) {
            (Phase::Finished(reason), _) => Phase::Finished(reason),
            (_, LoopEvent::Cancelled) => Phase::Finished(EndReason::Cancelled),
            (Phase::Waiting, LoopEvent::DelayElapsed) => Phase::Clicking,
            (Phase::Clicking, LoopEvent::ClickSucceeded) => Phase::Waiting,
            (Phase::Clicking, LoopEvent::ClickFailed) => Phase::Finished(
                EndReason::InjectionFailed,
            ),
            (_, _) => Phase::Finished(EndReason::OutOfTurn),
        };
        self.phase = next;
        self.pending()
    }
}

/// A loop that has ended stays as it ended and begins no click, whatever is
/// reported to it.
pub proof fn lemma_finished_is_final(reason: EndReason, events: Seq<LoopEvent>)
    ensures
        phase_after(Phase::Finished(reason), events) == Phase::Finished(reason),
        clicks_begun(Phase::Finished(reason), events) == 0,
    decreases events.len(),
{
    if events.len() > 0 {
        lemma_finished_is_final(reason, events.drop_last());
    }
}

/// Once a cancellation is reported, the loop has ended and begins no further
/// click: the clicks of the whole run are those begun before the
/// cancellation.
pub proof fn lemma_no_click_after_cancel(phase: Phase, events: Seq<LoopEvent>, at: int)
    requires
        0 <= at < events.len(),
        events[at] == LoopEvent::Cancelled,
    ensures
        phase_after(phase, events) is Finished,
        clicks_begun(phase, events) == clicks_begun(phase, events.take(at)),
    decreases events.len(),
{
    if events.len() == at + 1 {
        assert(events.drop_last() =~= events.take(at));
    } else {
        lemma_no_click_after_cancel(phase, events.drop_last(), at);
        assert(events.drop_last().take(at) =~= events.take(at));
    }
}

/// A cancellation that is reported while the loop waits ends it with no
/// click at all after it, and so does one that is reported right after a
/// click has succeeded and the next wait has begun.
pub proof fn lemma_cancel_while_waiting(later: Seq<LoopEvent>)
    ensures
        clicks_begun(Phase::Waiting, seq![LoopEvent::Cancelled] + later) == 0,
        clicks_begun(
            Phase::Clicking,
            seq![LoopEvent::ClickSucceeded, LoopEvent::Cancelled] + later,
        ) == 0,
{
    let first = seq![LoopEvent::Cancelled] + later;
    lemma_no_click_after_cancel(Phase::Waiting, first, 0);
    assert(first.take(0) =~= Seq::<LoopEvent>::empty());

    let second = seq![LoopEvent::ClickSucceeded, LoopEvent::Cancelled] + later;
    lemma_no_click_after_cancel(Phase::Clicking, second, 1);
    let head = seq![LoopEvent::ClickSucceeded];
    assert(second.take(1) =~= head);
    assert(head.drop_last() =~= Seq::<LoopEvent>::empty());
    reveal_with_fuel(clicks_begun, 2);
    reveal_with_fuel(phase_after, 2);
}

/// Clicks never pile up: over any run of events the loop begins at most one
/// click for each delay that elapsed, and while one click is being injected
/// no second one is begun.
pub proof fn lemma_one_click_per_delay(phase: Phase, events: Seq<LoopEvent>)
    ensures
        clicks_begun(phase, events) <= delays_elapsed(events),
        forall|event: LoopEvent| !begins_click(Phase::Clicking, event),
    decreases events.len(),
{
    if events.len() > 0 {
        lemma_one_click_per_delay(phase, events.drop_last());
    }
}

} // verus!

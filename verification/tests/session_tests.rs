use click::input::{ClickAction, InjectError, MouseButton};
use click::jitter::{DelayRequest, JitterConfig};
use click::session::{EndReason, LoopAction, LoopEvent, Phase, Session};

fn plain_session() -> Session {
    Session::new(
        50_000_000,
        JitterConfig { enabled: false, magnitude: 0 },
        MouseButton::Left,
        ClickAction::Double,
    )
}

fn count_clicks(session: &mut Session, events: &[LoopEvent]) -> usize {
    let mut clicks: usize = 0;
    for event in events {
        if matches!(session.step(*event), LoopAction::Click(_, _)) {
            clicks += 1;
        }
    }
    clicks
}

#[test]
fn session_starts_by_waiting_a_full_delay() {
    let session = plain_session();
    assert_eq!(session.phase, Phase::Waiting);
    assert!(!session.is_finished());
    assert_eq!(session.pending(), LoopAction::Wait(DelayRequest::Exact(50_000_000)));
}

#[test]
fn jittered_session_asks_for_a_draw() {
    let session = Session::new(
        200_000_000,
        JitterConfig { enabled: true, magnitude: 40 },
        MouseButton::Right,
        ClickAction::Single,
    );
    assert_eq!(
        session.pending(),
        LoopAction::Wait(DelayRequest::Jittered { base_millis: 200, magnitude: 40 })
    );
}

#[test]
fn elapsed_delay_leads_to_one_click_then_the_next_wait() {
    let mut session = plain_session();
    assert_eq!(
        session.step(LoopEvent::DelayElapsed),
        LoopAction::Click(MouseButton::Left, ClickAction::Double)
    );
    assert_eq!(session.phase, Phase::Clicking);
    assert_eq!(
        session.step(LoopEvent::ClickSucceeded),
        LoopAction::Wait(DelayRequest::Exact(50_000_000))
    );
    assert_eq!(session.phase, Phase::Waiting);
    assert_eq!(session.base_delay_nanos, 50_000_000);
    assert_eq!(session.button, MouseButton::Left);
    assert_eq!(session.action, ClickAction::Double);
}

#[test]
fn cancel_while_waiting_ends_without_a_click() {
    let mut session = plain_session();
    assert_eq!(session.step(LoopEvent::Cancelled), LoopAction::Exit(EndReason::Cancelled));
    assert!(session.is_finished());
    let later = [
        LoopEvent::DelayElapsed,
        LoopEvent::ClickSucceeded,
        LoopEvent::DelayElapsed,
        LoopEvent::Cancelled,
        LoopEvent::ClickFailed,
    ];
    assert_eq!(count_clicks(&mut session, &later), 0);
    assert_eq!(session.pending(), LoopAction::Exit(EndReason::Cancelled));
}

#[test]
fn cancel_right_after_a_click_gives_no_second_click() {
    let mut session = plain_session();
    let events = [
        LoopEvent::DelayElapsed,
        LoopEvent::ClickSucceeded,
        LoopEvent::Cancelled,
        LoopEvent::DelayElapsed,
        LoopEvent::DelayElapsed,
    ];
    assert_eq!(count_clicks(&mut session, &events), 1);
    assert_eq!(session.phase, Phase::Finished(EndReason::Cancelled));
}

#[test]
fn cancel_during_a_click_ends_the_loop() {
    let mut session = plain_session();
    session.step(LoopEvent::DelayElapsed);
    assert_eq!(session.step(LoopEvent::Cancelled), LoopAction::Exit(EndReason::Cancelled));
}

#[test]
fn failed_click_ends_the_session() {
    let mut session = plain_session();
    session.step(LoopEvent::DelayElapsed);
    assert_eq!(
        session.step(LoopEvent::ClickFailed),
        LoopAction::Exit(EndReason::InjectionFailed)
    );
    assert_eq!(
        session.step(LoopEvent::DelayElapsed),
        LoopAction::Exit(EndReason::InjectionFailed)
    );
    assert_eq!(session.step(LoopEvent::Cancelled), LoopAction::Exit(EndReason::InjectionFailed));
}

#[test]
fn event_out_of_turn_ends_the_session() {
    let mut session = plain_session();
    assert_eq!(session.step(LoopEvent::ClickSucceeded), LoopAction::Exit(EndReason::OutOfTurn));
    let mut session = plain_session();
    assert_eq!(session.step(LoopEvent::ClickFailed), LoopAction::Exit(EndReason::OutOfTurn));
    let mut session = plain_session();
    session.step(LoopEvent::DelayElapsed);
    assert_eq!(session.step(LoopEvent::DelayElapsed), LoopAction::Exit(EndReason::OutOfTurn));
}

#[test]
fn one_click_per_elapsed_delay() {
    let mut session = plain_session();
    let mut events: Vec<LoopEvent> = Vec::new();
    for _ in 0..25 {
        events.push(LoopEvent::DelayElapsed);
        events.push(LoopEvent::ClickSucceeded);
    }
    assert_eq!(count_clicks(&mut session, &events), 25);
    assert_eq!(session.phase, Phase::Waiting);
}

#[test]
fn only_a_failed_click_is_an_error() {
    assert_eq!(EndReason::InjectionFailed.error(), Some(InjectError::InjectionFailed));
    assert_eq!(EndReason::Cancelled.error(), None);
    assert_eq!(EndReason::OutOfTurn.error(), None);
    let mut session = plain_session();
    session.step(LoopEvent::DelayElapsed);
    match session.step(LoopEvent::ClickFailed) {
        LoopAction::Exit(reason) => {
            assert_eq!(reason.error(), Some(InjectError::InjectionFailed));
        }
        other => panic!("the loop went on: {:?}", other),
    }
}

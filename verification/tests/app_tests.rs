use click::accessibility::{
    ensure_trust, trust_result, TrustAction, TrustCheck, AX_POLL_INTERVAL_MS, AX_POLL_TIMEOUT_MS,
};
use click::app::{ClickApp, ClickerState, Command, SchedulerState, StartOutcome};
use click::input::{ClickAction, InjectError, MouseButton};
use click::interval::{IntervalMode, TimeInterval};
use click::jitter::JitterConfig;
use click::session::{EndReason, Phase, Session};
use std::time::Duration;

#[test]
fn default_settings() {
    let app = ClickApp::new(Ok(()));
    assert_eq!(app.interval_mode, IntervalMode::Time);
    assert_eq!(app.time_interval, TimeInterval::default());
    assert_eq!(app.cps, 20);
    assert_eq!(app.jitter, 0);
    assert!(!app.use_jitter);
    assert_eq!(app.mouse_button, MouseButton::Left);
    assert_eq!(app.click_type, ClickAction::Single);
    assert!(!app.is_running());
    assert_eq!(app.backend(), Ok(()));
    assert_eq!(app.calculate_interval(), Duration::from_millis(200));
}

#[test]
fn interval_follows_the_mode() {
    let mut app = ClickApp::new(Ok(()));
    app.interval_mode = IntervalMode::Cps;
    assert_eq!(app.calculate_interval(), Duration::from_millis(50));
    app.cps = 0;
    assert_eq!(app.calculate_interval(), Duration::from_millis(1000));
    app.interval_mode = IntervalMode::Time;
    app.time_interval = TimeInterval { hours: 1, minutes: 0, seconds: 0, milliseconds: 0 };
    assert_eq!(app.calculate_interval(), Duration::from_millis(3_600_000));
}

#[test]
fn start_begins_a_session_from_the_settings() {
    let mut app = ClickApp::new(Ok(()));
    app.interval_mode = IntervalMode::Cps;
    app.cps = 4;
    app.use_jitter = true;
    app.jitter = 25;
    app.mouse_button = MouseButton::Middle;
    app.click_type = ClickAction::Double;
    let expected = Session {
        base_delay_nanos: 250_000_000,
        jitter: JitterConfig { enabled: true, magnitude: 25 },
        button: MouseButton::Middle,
        action: ClickAction::Double,
        phase: Phase::Waiting,
    };
    assert_eq!(app.start_clicker(), StartOutcome::Started(expected));
    assert!(app.is_running());
    assert_eq!(app.cps, 4);
    assert_eq!(app.jitter, 25);
}

#[test]
fn start_twice_begins_one_session() {
    let mut app = ClickApp::new(Ok(()));
    assert!(matches!(app.start_clicker(), StartOutcome::Started(_)));
    assert_eq!(app.start_clicker(), StartOutcome::AlreadyRunning);
    assert_eq!(app.start_clicker(), StartOutcome::AlreadyRunning);
    assert!(app.is_running());
}

#[test]
fn stop_is_a_no_op_when_idle() {
    let mut app = ClickApp::new(Ok(()));
    assert!(!app.stop_clicker());
    assert!(!app.is_running());
    app.start_clicker();
    assert!(app.stop_clicker());
    assert!(!app.is_running());
    assert!(!app.stop_clicker());
}

#[test]
fn start_after_stop_begins_a_fresh_session() {
    let mut app = ClickApp::new(Ok(()));
    let first = app.start_clicker();
    app.stop_clicker();
    app.time_interval.milliseconds = 300;
    let second = app.start_clicker();
    assert!(matches!(first, StartOutcome::Started(s) if s.base_delay_nanos == 200_000_000));
    assert!(matches!(second, StartOutcome::Started(s) if s.base_delay_nanos == 300_000_000
        && s.phase == Phase::Waiting));
}

#[test]
fn no_backend_means_never_running() {
    let errors = [InjectError::BackendUnavailable, InjectError::PermissionDenied];
    for error in errors {
        let mut app = ClickApp::new(Err(error));
        assert_eq!(app.backend(), Err(error));
        for _ in 0..10 {
            assert_eq!(app.start_clicker(), StartOutcome::Unavailable(error));
            assert!(!app.is_running());
            assert!(!app.stop_clicker());
            assert!(!app.is_running());
        }
        let commands = [
            Command::Start,
            Command::Stop,
            Command::Start,
            Command::SessionEnded(EndReason::InjectionFailed),
            Command::Start,
        ];
        for command in commands {
            assert_eq!(app.apply(command), None);
            assert!(!app.is_running());
        }
    }
}

#[test]
fn failed_session_leaves_the_scheduler_idle() {
    let mut app = ClickApp::new(Ok(()));
    app.start_clicker();
    app.session_ended(EndReason::InjectionFailed);
    assert!(!app.is_running());
    assert!(matches!(app.start_clicker(), StartOutcome::Started(_)));
}

#[test]
fn commands_begin_sessions_only_from_idle() {
    let mut app = ClickApp::new(Ok(()));
    assert!(app.apply(Command::Start).is_some());
    assert!(app.apply(Command::Start).is_none());
    assert!(app.apply(Command::Stop).is_none());
    assert!(!app.is_running());
    assert!(app.apply(Command::Start).is_some());
    assert!(app.apply(Command::SessionEnded(EndReason::Cancelled)).is_none());
    assert!(!app.is_running());
}

#[test]
fn a_new_clicker_state_is_idle() {
    let mut app = ClickApp::new(Ok(()));
    app.start_clicker();
    app.clicker = ClickerState::new(Err(InjectError::BackendUnavailable));
    assert!(!app.is_running());
    assert_eq!(
        app.start_clicker(),
        StartOutcome::Unavailable(InjectError::BackendUnavailable)
    );
}

#[test]
fn trusted_process_goes_on_at_once() {
    assert_eq!(ensure_trust(TrustCheck::First { trusted: true }), TrustAction::Granted);
    assert_eq!(
        ensure_trust(TrustCheck::Poll { trusted: true, elapsed_ms: 0 }),
        TrustAction::Granted
    );
    assert_eq!(
        ensure_trust(TrustCheck::Poll { trusted: true, elapsed_ms: 40_000 }),
        TrustAction::Granted
    );
}

#[test]
fn untrusted_process_is_prompted_then_polls() {
    assert_eq!(ensure_trust(TrustCheck::First { trusted: false }), TrustAction::Prompt);
    assert_eq!(
        ensure_trust(TrustCheck::Poll { trusted: false, elapsed_ms: 0 }),
        TrustAction::Sleep(250)
    );
    assert_eq!(
        ensure_trust(TrustCheck::Poll { trusted: false, elapsed_ms: 29_999 }),
        TrustAction::Sleep(AX_POLL_INTERVAL_MS)
    );
}

#[test]
fn permission_wait_gives_up_after_the_timeout() {
    assert_eq!(AX_POLL_TIMEOUT_MS, 30_000);
    assert_eq!(
        ensure_trust(TrustCheck::Poll { trusted: false, elapsed_ms: 30_000 }),
        TrustAction::Denied
    );
    assert_eq!(
        ensure_trust(TrustCheck::Poll { trusted: false, elapsed_ms: u64::MAX }),
        TrustAction::Denied
    );
    let mut elapsed: u64 = 0;
    let mut sleeps: u32 = 0;
    loop {
        match ensure_trust(TrustCheck::Poll { trusted: false, elapsed_ms: elapsed }) {
            TrustAction::Sleep(ms) => {
                elapsed += ms;
                sleeps += 1;
            }
            other => {
                assert_eq!(other, TrustAction::Denied);
                break;
            }
        }
    }
    assert_eq!(sleeps, 120);
}

#[test]
fn trust_results() {
    assert_eq!(trust_result(TrustAction::Granted), Some(Ok(())));
    assert_eq!(trust_result(TrustAction::Denied), Some(Err(InjectError::PermissionDenied)));
    assert_eq!(trust_result(TrustAction::Prompt), None);
    assert_eq!(trust_result(TrustAction::Sleep(250)), None);
}

#[test]
fn scheduler_is_idle_or_running() {
    let mut app = ClickApp::new(Ok(()));
    assert_eq!(app.state(), SchedulerState::Idle);
    app.start_clicker();
    assert_eq!(app.state(), SchedulerState::Running);
    app.start_clicker();
    assert_eq!(app.state(), SchedulerState::Running);
    app.stop_clicker();
    assert_eq!(app.state(), SchedulerState::Idle);
    let mut bad = ClickApp::new(Err(InjectError::BackendUnavailable));
    bad.start_clicker();
    assert_eq!(bad.state(), SchedulerState::Idle);
}

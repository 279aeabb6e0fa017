//! The clicker's settings and its scheduler: idle or running, never twice.

use crate::input::{ClickAction, InjectError, MouseButton};
use crate::interval::{
    base_delay_nanos, compute_base_delay, duration_of_nanos, spec_base_delay_nanos,
    IntervalConfig, IntervalMode, TimeInterval,
};
use crate::jitter::JitterConfig;
use crate::session::{EndReason, Phase, Session};
use std::time::Duration;
use vstd::prelude::*;

verus! {

/// What the scheduler keeps between calls: whether input can be injected at
/// all, and whether a session is running.
#[derive(Clone, Copy, Debug)]
pub struct ClickerState {
    /// How the construction of the input backend ended, once and for all.
    backend: Result<(), InjectError>,
    is_running: bool,
}

/// The settings of the clicker, and its scheduler.
#[derive(Clone, Copy, Debug)]
pub struct ClickApp {
    pub interval_mode: IntervalMode,
    pub time_interval: TimeInterval,
    pub cps: u16,
    pub jitter: u16,
    pub use_jitter: bool,
    pub mouse_button: MouseButton,
    pub click_type: ClickAction,
    pub clicker: ClickerState,
}

/// The scheduler's state. There is no third one: a stop is over when the
/// call returns.
#[derive(Clone, Copy, Debug, PartialEq, Eq, Structural)]
pub enum SchedulerState {
    Idle,
    Running,
}

/// How a call to start ended.
#[derive(Clone, Copy, Debug, PartialEq, Eq, Structural)]
pub enum StartOutcome {
    /// The scheduler is running now, and the host program is to run the
    /// loop of this session in the background.
    Started(Session),
    /// A session was running already. Nothing changed and no loop is to be
    /// run.
    AlreadyRunning,
    /// The input backend could not be constructed, for this reason. Nothing
    /// changed and no loop is to be run.
    Unavailable(InjectError),
}

/// What can be asked of the scheduler, or reported to it.
#[derive(Clone, Copy, Debug, PartialEq, Eq, Structural)]
pub enum Command {
    Start,
    Stop,
    /// The loop of the running session ended by itself, for this reason.
    SessionEnded(EndReason),
}

impl ClickerState {
    /// A session runs only over a backend that was constructed.
    #[verifier::type_invariant]
    spec fn runs_only_with_backend(self) -> bool {
        self.is_running ==> self.backend is Ok
    }

    /// How the construction of the input backend ended.
    pub closed spec fn spec_backend(self) -> Result<(), InjectError> {
        self.backend
    }

    /// Whether a session is running.
    pub closed spec fn spec_is_running(self) -> bool {
        self.is_running
    }

    /// The same backend, running or not as given.
    pub closed spec fn with_running(self, running: bool) -> ClickerState {
        ClickerState { is_running: running, ..self }
    }

    /// An idle scheduler over a backend whose construction ended as given.
    pub fn new(backend: Result<(), InjectError>) -> (state: ClickerState)
        ensures
            state.spec_backend() == backend,
            !state.spec_is_running(),
    {
        ClickerState { backend, is_running: false }
    }

    /// Whether a session is running. None ever is where the backend could
    /// not be constructed.
    pub fn is_running(&self) -> (running: bool)
        ensures
            running == self.spec_is_running(),
            running ==> self.spec_backend() is Ok,
    {
        proof {
            use_type_invariant(self);
        }
        self.is_running
    }

    /// How the construction of the input backend ended.
    pub fn backend(&self) -> (backend: Result<(), InjectError>)
        ensures
            backend == self.spec_backend(),
    {
        self.backend
    }

    /// Sets whether a session is running. Only the scheduler's own
    /// operations do so.
    fn set_running(&mut self, running: bool)
        requires
            running ==> old(self).spec_backend() is Ok,
        ensures
            *final(self) == old(self).with_running(running),
    {
        self.is_running = running;
    }
}

/// Setting whether a scheduler state runs leaves its backend, and changes
/// nothing where it ran or rested already.
pub proof fn lemma_with_running(state: ClickerState, running: bool)
    ensures
        state.with_running(running).spec_is_running() == running,
        state.with_running(running).spec_backend() == state.spec_backend(),
        running == state.spec_is_running() ==> state.with_running(running) == state,
{
}

/// A scheduler state is known by its backend and by whether it runs.
pub proof fn lemma_state_is_its_parts(a: ClickerState, b: ClickerState)
    requires
        a.spec_backend() == b.spec_backend(),
        a.spec_is_running() == b.spec_is_running(),
    ensures
        a == b,
{
}

impl ClickApp {
    /// How the construction of the input backend ended.
    pub open spec fn spec_backend(self) -> Result<(), InjectError> {
        self.clicker.spec_backend()
    }

    /// Whether a session is running.
    pub open spec fn spec_is_running(self) -> bool {
        self.clicker.spec_is_running()
    }

    /// The same settings and backend, running or not as given.
    pub open spec fn with_running(self, running: bool) -> ClickApp {
        ClickApp { clicker: self.clicker.with_running(running), ..self }
    }

    /// Whether two values agree in every setting.
    pub open spec fn same_settings(self, other: ClickApp) -> bool {
        &&& self.interval_mode == other.interval_mode
        &&& self.time_interval == other.time_interval
        &&& self.cps == other.cps
        &&& self.jitter == other.jitter
        &&& self.use_jitter == other.use_jitter
        &&& self.mouse_button == other.mouse_button
        &&& self.click_type == other.click_type
    }

    /// The cadence that the settings describe.
    pub open spec fn spec_interval_config(self) -> IntervalConfig {
        IntervalConfig { mode: self.interval_mode, time: self.time_interval, cps: self.cps }
    }

    /// The jitter that the settings describe.
    pub open spec fn spec_jitter_config(self) -> JitterConfig {
        JitterConfig { enabled: self.use_jitter, magnitude: self.jitter }
    }

    /// The session that a start with these settings begins.
    pub open spec fn spec_session(self) -> Session {
        Session {
            base_delay_nanos: spec_base_delay_nanos(self.spec_interval_config()) as u64,
            jitter: self.spec_jitter_config(),
            button: self.mouse_button,
            action: self.click_type,
            phase: Phase::Waiting,
        }
    }

    /// What a start comes to: nothing where a session is running, the
    /// backend's error where there is no backend, else a fresh session.
    pub open spec fn spec_start_outcome(self) -> StartOutcome {
        if self.spec_is_running() {
            StartOutcome::AlreadyRunning
        } else {
            match self.spec_backend() {
                Err(error) => StartOutcome::Unavailable(error),
                Ok(_) => StartOutcome::Started(self.spec_session()),
            }
        }
    }

    /// The scheduler after a start: running where a session was begun, else
    /// unchanged.
    pub open spec fn spec_after_start(self) -> ClickApp {
        if self.spec_start_outcome() is Started {
            self.with_running(true)
        } else {
            self
        }
    }

    /// The scheduler after a command.
    pub open spec fn spec_apply(self, command: Command) -> ClickApp {
        match command {
            Command::Start => self.spec_after_start(),
            Command::Stop => self.with_running(false),
            Command::SessionEnded(_) => self.with_running(false),
        }
    }

    /// The scheduler after a run of commands, from first to last.
    pub open spec fn spec_apply_all(self, commands: Seq<Command>) -> ClickApp
        decreases commands.len(),
    {
        if commands.len() == 0 {
            self
        } else {
            self.spec_apply_all(commands.drop_last()).spec_apply(commands.last())
        }
    }

    /// How many sessions a run of commands begins.
    pub open spec fn sessions_begun(self, commands: Seq<Command>) -> nat
        decreases commands.len(),
    {
        if commands.len() == 0 {
            0
        } else {
            let before = self.sessions_begun(commands.drop_last());
            let then = self.spec_apply_all(commands.drop_last());
            if commands.last() == Command::Start && then.spec_start_outcome() is Started {
                before + 1
            } else {
                before
            }
        }
    }

    /// The default settings over a backend whose construction ended as
    /// given. The scheduler is idle.
    pub fn new(backend: Result<(), InjectError>) -> (app: ClickApp)
        ensures
            app.interval_mode == IntervalMode::Time,
            app.time_interval == (TimeInterval {
                hours: 0,
                minutes: 0,
                seconds: 0,
                milliseconds: 200,
            }),
            app.cps == 20,
            app.jitter == 0,
            !app.use_jitter,
            app.mouse_button == MouseButton::Left,
            app.click_type == ClickAction::Single,
            app.spec_backend() == backend,
            !app.spec_is_running(),
    {
        ClickApp {
            interval_mode: IntervalMode::Time,
            time_interval: TimeInterval { hours: 0, minutes: 0, seconds: 0, milliseconds: 200 },
            cps: 20,
            jitter: 0,
            use_jitter: false,
            mouse_button: MouseButton::Left,
            click_type: ClickAction::Single,
            clicker: ClickerState::new(backend),
        }
    }

    /// Whether a session is running. None ever is where the backend could
    /// not be constructed.
    pub fn is_running(&self) -> (running: bool)
        ensures
            running == self.spec_is_running(),
            running ==> self.spec_backend() is Ok,
    {
        self.clicker.is_running()
    }

    /// The scheduler's state.
    pub open spec fn spec_state(self) -> SchedulerState {
        if self.spec_is_running() {
            SchedulerState::Running
        } else {
            SchedulerState::Idle
        }
    }

    /// The scheduler's state.
    pub fn state(&self) -> (state: SchedulerState)
        ensures
            state == self.spec_state(),
            state == SchedulerState::Running ==> self.spec_backend() is Ok,
    {
        if self.clicker.is_running() {
            SchedulerState::Running
        } else {
            SchedulerState::Idle
        }
    }

    /// How the construction of the input backend ended.
    pub fn backend(&self) -> (backend: Result<(), InjectError>)
        ensures
            backend == self.spec_backend(),
    {
        self.clicker.backend()
    }

    /// The cadence that the settings describe.
    pub fn interval_config(&self) -> (config: IntervalConfig)
        ensures
            config == self.spec_interval_config(),
    {
        IntervalConfig { mode: self.interval_mode, time: self.time_interval, cps: self.cps }
    }

    /// The jitter that the settings describe.
    pub fn jitter_config(&self) -> (config: JitterConfig)
        ensures
            config == self.spec_jitter_config(),
    {
        JitterConfig { enabled: self.use_jitter, magnitude: self.jitter }
    }

    /// The base delay between two clicks under the current settings.
    pub fn calculate_interval(&self) -> (d: Duration)
        ensures
            d == duration_of_nanos(spec_base_delay_nanos(self.spec_interval_config()) as u64),
    {
        compute_base_delay(self.interval_config())
    }

    /// Starts a session unless one is running or there is no backend.
    ///
    /// Where a session is begun, it is made of the settings as they are now
    /// and the scheduler runs. In the other two cases nothing changes.
    pub fn start_clicker(&mut self) -> (outcome: StartOutcome)
        ensures
            outcome == old(self).spec_start_outcome(),
            *final(self) == old(self).spec_after_start(),
            final(self).spec_is_running() == (old(self).spec_is_running() || outcome is Started),
            final(self).spec_backend() == old(self).spec_backend(),
            outcome matches StartOutcome::Started(session) ==> session.wf(),
    {
        if self.clicker.is_running() {
            return StartOutcome::AlreadyRunning;
        }
        match self.clicker.backend() {
            Err(error) => StartOutcome::Unavailable(error),
            Ok(_) => {
                let session = Session::new(
                    base_delay_nanos(self.interval_config()),
                    self.jitter_config(),
                    self.mouse_button,
                    self.click_type,
                );
                self.clicker.set_running(true);
                StartOutcome::Started(session)
            },
        }
    }

    /// Stops the running session, if there is one. Returns whether there was
    /// one, which the host program then has to cancel.
    pub fn stop_clicker(&mut self) -> (was_running: bool)
        ensures
            was_running == old(self).spec_is_running(),
            *final(self) == old(self).with_running(false),
            !final(self).spec_is_running(),
            final(self).spec_backend() == old(self).spec_backend(),
    {
        let was_running = self.clicker.is_running();
        self.clicker.set_running(false);
        was_running
    }

    /// Takes note that the loop of the running session has ended by itself,
    /// as it does when a click fails. The scheduler is idle afterwards.
    pub fn session_ended(&mut self, reason: EndReason)
        ensures
            *final(self) == old(self).with_running(false),
            !final(self).spec_is_running(),
            final(self).spec_backend() == old(self).spec_backend(),
    {
        self.clicker.set_running(false);
    }

    /// Carries out one command.
    pub fn apply(&mut self, command: Command) -> (begun: Option<Session>)
        ensures
            *final(self) == old(self).spec_apply(command),
            begun == match command {
                Command::Start => match old(self).spec_start_outcome() {
                    StartOutcome::Started(session) => Some(session),
                    _ => None,
                },
                _ => None,
            },
    {
        match command {
            Command::Start => match self.start_clicker() {
                StartOutcome::Started(session) => Some(session),
                _ => None,
            },
            Command::Stop => {
                self.stop_clicker();
                None
            },
            Command::SessionEnded(reason) => {
                self.session_ended(reason);
                None
            },
        }
    }
}

/// No command changes a setting or the backend, and a stop or the end of a
/// session leaves the scheduler idle.
pub proof fn lemma_apply_keeps_settings(app: ClickApp, command: Command)
    ensures
        app.spec_apply(command).same_settings(app),
        app.spec_apply(command).spec_backend() == app.spec_backend(),
        command != Command::Start ==> !app.spec_apply(command).spec_is_running(),
{
}

/// Of two starts in immediate succession the second begins no session and
/// changes nothing: one loop runs, not two. The first begins one exactly
/// where the scheduler was idle over a backend that was constructed.
pub proof fn lemma_start_twice_runs_one_loop(app: ClickApp)
    ensures
        !(app.spec_after_start().spec_start_outcome() is Started),
        app.spec_after_start().spec_after_start() == app.spec_after_start(),
        app.sessions_begun(seq![Command::Start, Command::Start]) == if !app.spec_is_running()
            && app.spec_backend() is Ok {
            1nat
        } else {
            0nat
        },
        !app.spec_is_running() && app.spec_backend() is Ok ==> {
            &&& app.spec_start_outcome() == StartOutcome::Started(app.spec_session())
            &&& app.spec_after_start().spec_is_running()
            &&& app.spec_after_start().spec_start_outcome() == StartOutcome::AlreadyRunning
        },
{
    let twice = seq![Command::Start, Command::Start];
    let once = seq![Command::Start];
    assert(twice.drop_last() =~= once);
    assert(once.drop_last() =~= Seq::<Command>::empty());
    reveal_with_fuel(ClickApp::sessions_begun, 3);
    reveal_with_fuel(ClickApp::spec_apply_all, 3);
}

/// A running scheduler begins no session on a start, however often it is
/// started.
pub proof fn lemma_start_is_idempotent(app: ClickApp)
    requires
        app.spec_is_running(),
    ensures
        app.spec_start_outcome() == StartOutcome::AlreadyRunning,
        app.spec_after_start() == app,
{
}

/// Where the input backend could not be constructed, no run of commands
/// ever begins a session, and the scheduler is idle after every one of them.
pub proof fn lemma_never_runs_without_backend(app: ClickApp, commands: Seq<Command>)
    requires
        app.spec_backend() is Err,
        !app.spec_is_running(),
    ensures
        !app.spec_apply_all(commands).spec_is_running(),
        app.spec_apply_all(commands).spec_backend() == app.spec_backend(),
        app.sessions_begun(commands) == 0,
    decreases commands.len(),
{
    if commands.len() > 0 {
        lemma_never_runs_without_backend(app, commands.drop_last());
    }
}

/// How many of the commands end a session: the stops and the reports that a
/// loop has ended.
pub open spec fn ends_counted(commands: Seq<Command>) -> nat
    decreases commands.len(),
{
    if commands.len() == 0 {
        0
    } else {
        let before = ends_counted(commands.drop_last());
        if commands.last() == Command::Start {
            before
        } else {
            before + 1
        }
    }
}

/// 1 for a scheduler that runs, 0 for one that is idle.
pub open spec fn live_sessions(app: ClickApp) -> nat {
    if app.spec_is_running() {
        1
    } else {
        0
    }
}

/// At most one session runs at a time. Over any run of commands, every
/// session that is begun, and the one that ran at the outset, has been ended
/// by a command of its own, but for the one that still runs. So a run of
/// starts alone begins at most one session, and none where one ran already.
pub proof fn lemma_one_session_at_a_time(app: ClickApp, commands: Seq<Command>)
    ensures
        app.sessions_begun(commands) + live_sessions(app) <= ends_counted(commands)
            + live_sessions(app.spec_apply_all(commands)),
        app.sessions_begun(commands) + live_sessions(app) <= ends_counted(commands) + 1,
    decreases commands.len(),
{
    if commands.len() > 0 {
        lemma_one_session_at_a_time(app, commands.drop_last());
    }
}

} // verus!

//! The engine: its configuration, its observable state and the daemon it runs.
//!
//! The engine takes the decisions. Provisioning and starting go step by step: each
//! step hands out an action, and takes in what came of it.
use std::path::PathBuf;
use std::time::Duration;

use vstd::pervasive::unreached;
use vstd::prelude::*;
use vstd::string::*;

use crate::client::RcClient;
use crate::config::EngineConfig;
use crate::error::Error;
use crate::lifecycle::{wait_for_ready, DaemonProcess, HealthCheck, PROBE_PAUSE_MILLIS};
use crate::provision::{
    is_installed, InstallProbe, ProvisionAction, ProvisionEvent, ProvisionRun, ProvisionTurn,
};
use crate::state::{EngineState, SharedState};
use crate::wire::is_success;

verus! {

/// The rclone engine.
pub struct RcloneEngine {
    config: EngineConfig,
    state: SharedState,
    daemon: Option<DaemonProcess>,
}

/// What is known of an engine.
pub struct EngineView {
    /// The configuration.
    pub config: EngineConfig,
    /// The observable state.
    pub state: crate::state::StateView,
    /// The daemon that was spawned and not stopped since.
    pub daemon: Option<DaemonProcess>,
}

impl View for RcloneEngine {
    type V = EngineView;

    closed spec fn view(&self) -> EngineView {
        EngineView { config: self.config, state: self.state@, daemon: self.daemon }
    }
}

/// Where a start stands: which action it waits for.
#[derive(Debug, Clone, Copy, PartialEq, Eq, Structural)]
pub enum StartStep {
    /// Daemons of earlier runs are being killed.
    Reap,
    /// The daemon is being spawned.
    Spawn,
    /// The clock is being read.
    Clock,
    /// The daemon is being asked for its health.
    Probe,
    /// A pause between two health-checks.
    Pause,
    /// The daemon is being stopped, since it did not get ready in time.
    Halt,
    /// The start is over.
    Finished,
}

/// What came of an action.
#[derive(Debug)]
pub enum StartEvent {
    /// It is done.
    Done,
    /// The daemon was spawned on this loopback port.
    Spawned(u16),
    /// The daemon could not be spawned.
    NotSpawned(Error),
    /// So much time has passed since the daemon was spawned.
    Elapsed(Duration),
    /// The health-check was answered with this HTTP status. It passes by a success.
    Answered(u16),
    /// The health-check was not answered.
    Unanswered,
}

/// What to do next.
#[derive(Debug)]
pub enum StartAction {
    /// Kill any orphaned daemons of a previous run that use the config file.
    ReapStrays,
    /// Spawn the daemon on a free loopback port.
    Spawn,
    /// Read how much time has passed since the daemon was spawned.
    ReadClock,
    /// Ask the daemon for its health.
    Probe(HealthCheck),
    /// Sleep.
    Sleep(Duration),
    /// Stop the daemon.
    StopDaemon(DaemonProcess),
    /// The start is over.
    Finish(Result<(), Error>),
}

/// A start of the daemon.
#[derive(Debug)]
pub struct StartRun {
    cfg: EngineConfig,
    step: StartStep,
    port: u16,
    failure: Option<Error>,
}

/// What is known of a start.
pub struct StartView {
    /// The configuration that the start works to.
    pub cfg: EngineConfig,
    /// Where the start stands.
    pub step: StartStep,
    /// The port of the spawned daemon; 0 before it is spawned.
    pub port: u16,
    /// Why the start failed, while the daemon is being stopped.
    pub failure: Option<crate::error::ErrorView>,
}

/// A [`StartEvent`] with its texts as character sequences.
pub enum StartEventView {
    Done,
    Spawned(u16),
    NotSpawned(crate::error::ErrorView),
    Elapsed(Duration),
    Answered(u16),
    Unanswered,
}

/// A [`StartAction`] with its texts as character sequences and its spans in
/// nanoseconds.
pub enum StartActionView {
    ReapStrays,
    Spawn,
    ReadClock,
    Probe(crate::lifecycle::HealthCheckView),
    Sleep(nat),
    StopDaemon(DaemonProcess),
    Finish(Result<(), crate::error::ErrorView>),
}

impl View for StartEvent {
    type V = StartEventView;

    open spec fn view(&self) -> StartEventView {
        match self {
            StartEvent::Done => StartEventView::Done,
            StartEvent::Spawned(port) => StartEventView::Spawned(*port),
            StartEvent::NotSpawned(e) => StartEventView::NotSpawned(e@),
            StartEvent::Elapsed(elapsed) => StartEventView::Elapsed(*elapsed),
            StartEvent::Answered(status) => StartEventView::Answered(*status),
            StartEvent::Unanswered => StartEventView::Unanswered,
        }
    }
}

impl View for StartAction {
    type V = StartActionView;

    open spec fn view(&self) -> StartActionView {
        match self {
            StartAction::ReapStrays => StartActionView::ReapStrays,
            StartAction::Spawn => StartActionView::Spawn,
            StartAction::ReadClock => StartActionView::ReadClock,
            StartAction::Probe(check) => StartActionView::Probe(check@),
            StartAction::Sleep(span) => StartActionView::Sleep(crate::time::nanoseconds(*span)),
            StartAction::StopDaemon(daemon) => StartActionView::StopDaemon(*daemon),
            StartAction::Finish(outcome) => StartActionView::Finish(
                crate::provision::outcome_view(*outcome),
            ),
        }
    }
}

impl View for StartRun {
    type V = StartView;

    closed spec fn view(&self) -> StartView {
        StartView {
            cfg: self.cfg,
            step: self.step,
            port: self.port,
            failure: match self.failure {
                Some(e) => Some(e@),
                None => None,
            },
        }
    }
}

/// The engine in another state.
pub open spec fn in_state(engine: EngineView, state: crate::state::StateView) -> EngineView {
    EngineView { state, ..engine }
}

/// The state of an engine that has met an error.
pub open spec fn error_state(error: crate::error::ErrorView) -> crate::state::StateView {
    crate::state::StateView::Error { message: error.message() }
}

/// The state of an engine whose download begins.
pub open spec fn download_begins() -> crate::state::StateView {
    crate::state::StateView::Downloading { downloaded: 0, total: None }
}

/// The state of an engine in `state` after it was asked to provision. One that is starting
/// or ready keeps its state until a download begins.
pub open spec fn state_asked(state: crate::state::StateView) -> crate::state::StateView {
    if state is Ready || state is Starting {
        state
    } else {
        download_begins()
    }
}

/// The state of an engine in `state` after a turn of a provisioning run.
pub open spec fn state_after(
    state: crate::state::StateView,
    turn: crate::provision::TurnView,
) -> crate::state::StateView {
    match turn.action {
        crate::provision::ActionView::Finish(Ok(_)) => if state is Ready || state is Starting {
            state
        } else {
            crate::state::StateView::Stopped
        },
        crate::provision::ActionView::Finish(Err(e)) => error_state(e),
        crate::provision::ActionView::Download { url } => download_begins(),
        _ => match turn.progress {
            Some(s) => s,
            None => state,
        },
    }
}

/// The state of an engine in `state` after its installation was looked at.
pub open spec fn state_found(state: crate::state::StateView, present: bool) -> crate::state::StateView {
    if !present {
        crate::state::StateView::NotInstalled
    } else if state is NotInstalled {
        crate::state::StateView::Stopped
    } else {
        state
    }
}

/// A start that has been asked for and not been told anything yet.
pub open spec fn fresh_start(cfg: EngineConfig) -> StartView {
    StartView { cfg, step: StartStep::Reap, port: 0, failure: None }
}

/// The event is an answer to the action that the start waits for.
pub open spec fn start_expects(run: StartView, event: StartEventView) -> bool {
    match run.step {
        StartStep::Reap | StartStep::Pause => event is Done,
        StartStep::Halt => event is Done && run.failure is Some,
        StartStep::Spawn => event is Spawned || event is NotSpawned,
        StartStep::Clock => event is Elapsed,
        StartStep::Probe => event is Answered || event is Unanswered,
        StartStep::Finished => false,
    }
}

/// The event says that the health-check passed: it was answered, with a success.
pub open spec fn healthy(event: StartEventView) -> bool {
    event matches StartEventView::Answered(status) && crate::wire::success(status)
}

/// What follows an event that the start expects: the engine, the start and the next
/// action.
pub open spec fn after_start_event(
    engine: EngineView,
    run: StartView,
    event: StartEventView,
) -> (EngineView, StartView, StartActionView)
    recommends
        start_expects(run, event),
{
    match (run.step, event) {
        (StartStep::Reap, StartEventView::Done) => (
            engine,
            StartView { step: StartStep::Spawn, ..run },
            StartActionView::Spawn,
        ),
        (StartStep::Spawn, StartEventView::Spawned(port)) => (
            EngineView {
                state: crate::state::StateView::Starting,
                daemon: Some(crate::lifecycle::running_on(port)),
                ..engine
            },
            StartView { step: StartStep::Clock, port, ..run },
            StartActionView::ReadClock,
        ),
        (StartStep::Spawn, StartEventView::NotSpawned(e)) => (
            in_state(engine, error_state(e)),
            StartView { step: StartStep::Finished, ..run },
            StartActionView::Finish(Err(e)),
        ),
        (StartStep::Clock, StartEventView::Elapsed(elapsed)) => if crate::time::nanoseconds(elapsed)
            < crate::time::nanoseconds(run.cfg.startup_timeout) {
            (
                engine,
                StartView { step: StartStep::Probe, ..run },
                StartActionView::Probe(crate::lifecycle::health_check(run.port)),
            )
        } else {
            let error = crate::lifecycle::startup_timeout(run.cfg.startup_timeout);
            match engine.daemon {
                Some(daemon) => (
                    EngineView { state: error_state(error), daemon: None, ..engine },
                    StartView { step: StartStep::Halt, failure: Some(error), ..run },
                    StartActionView::StopDaemon(daemon),
                ),
                None => (
                    in_state(engine, error_state(error)),
                    StartView { step: StartStep::Finished, ..run },
                    StartActionView::Finish(Err(error)),
                ),
            }
        },
        (StartStep::Probe, _) => if healthy(event) {
            (
                in_state(engine, crate::state::StateView::Ready),
                StartView { step: StartStep::Finished, ..run },
                StartActionView::Finish(Ok(())),
            )
        } else {
            (
                engine,
                StartView { step: StartStep::Pause, ..run },
                StartActionView::Sleep(PROBE_PAUSE_MILLIS as nat * 1_000_000),
            )
        },
        (StartStep::Pause, StartEventView::Done) => (
            engine,
            StartView { step: StartStep::Clock, ..run },
            StartActionView::ReadClock,
        ),
        (StartStep::Halt, StartEventView::Done) => (
            engine,
            StartView { step: StartStep::Finished, failure: None, ..run },
            StartActionView::Finish(Err(run.failure->0)),
        ),
        _ => arbitrary(),
    }
}

impl StartRun {
    /// The configuration that the start works to.
    pub fn config(&self) -> (cfg: &EngineConfig)
        ensures
            *cfg == self@.cfg,
    {
        &self.cfg
    }

    /// Tells whether an event is an answer to the action that the start waits for.
    pub fn is_expecting(&self, event: &StartEvent) -> (yes: bool)
        ensures
            yes == start_expects(self@, event@),
    {
        match (self.step, event) {
            (StartStep::Reap | StartStep::Pause, StartEvent::Done) => true,
            (StartStep::Halt, StartEvent::Done) => self.failure.is_some(),
            (StartStep::Spawn, StartEvent::Spawned(_)) => true,
            (StartStep::Spawn, StartEvent::NotSpawned(_)) => true,
            (StartStep::Clock, StartEvent::Elapsed(_)) => true,
            (StartStep::Probe, StartEvent::Answered(_)) => true,
            (StartStep::Probe, StartEvent::Unanswered) => true,
            _ => false,
        }
    }
}

impl RcloneEngine {
    /// An engine that has not looked at its installation yet.
    pub fn new(config: EngineConfig) -> (engine: Self)
        ensures
            engine@ == (EngineView {
                config,
                state: crate::state::StateView::NotInstalled,
                daemon: None,
            }),
    {
        RcloneEngine { config, state: SharedState::new(), daemon: None }
    }

    /// The current configuration.
    pub fn config(&self) -> (cfg: &EngineConfig)
        ensures
            *cfg == self@.config,
    {
        &self.config
    }

    /// Returns the current data directory.
    pub fn data_dir(&self) -> (dir: PathBuf)
        ensures
            dir == self@.config.data_dir,
    {
        self.config.data_dir.clone()
    }

    /// Replace the data directory and re-probe install state. `probe` is what was
    /// found in the new directory.
    ///
    /// The engine uses the directory directly (the `rclone/` subdir is provided by
    /// the caller).
    pub fn set_data_dir(&mut self, data_dir: PathBuf, probe: &InstallProbe)
        ensures
            final(self)@.config.data_dir == data_dir,
            final(self)@.config.rclone_version == old(self)@.config.rclone_version,
            final(self)@.config.asset == old(self)@.config.asset,
            final(self)@.config.startup_timeout == old(self)@.config.startup_timeout,
            final(self)@.daemon == old(self)@.daemon,
            final(self)@ == ({
                let config = EngineConfig { data_dir, ..old(self)@.config };
                EngineView {
                    config,
                    state: state_found(
                        old(self)@.state,
                        crate::provision::installed(config, probe@),
                    ),
                    daemon: old(self)@.daemon,
                }
            }),
    {
        self.config.data_dir = data_dir;
        if !is_installed(&self.config, probe) {
            self.state.set(EngineState::NotInstalled);
        } else if self.state.get() == EngineState::NotInstalled {
            self.state.set(EngineState::Stopped);
        }
    }

    /// Current observable state.
    pub fn state(&self) -> (state: EngineState)
        ensures
            state@ == self@.state,
    {
        self.state.get()
    }

    /// `true` if the binary is downloaded and the version matches. `probe` is what
    /// was found in the data directory.
    pub fn is_installed(&self, probe: &InstallProbe) -> (yes: bool)
        ensures
            yes == crate::provision::installed(self@.config, probe@),
            yes == (probe.binary_exists && (probe.marker matches Some(v) && v.rclone_version@
                == self@.config.rclone_version@)),
    {
        is_installed(&self.config, probe)
    }

    /// `true` if the daemon is running and accepting rc requests.
    pub fn is_ready(&self) -> (yes: bool)
        ensures
            yes == (self@.state is Ready),
    {
        self.state.get() == EngineState::Ready
    }

    /// `true` if a start is under way or the daemon is up.
    fn is_busy(&self) -> (yes: bool)
        ensures
            yes == (self@.state is Ready || self@.state is Starting),
    {
        match self.state.get() {
            EngineState::Ready | EngineState::Starting => true,
            _ => false,
        }
    }

    /// Download and verify the rclone binary: the run that does it, and its first
    /// action.
    ///
    /// - Fast no-op if already installed at the same version: an engine that is starting
    ///   or ready keeps its state, unless there is something to download.
    /// - Progress is reported with the turns of the run.
    pub fn provision(&mut self, windows: bool) -> (first: (ProvisionRun, ProvisionTurn))
        ensures
            final(self)@ == in_state(old(self)@, state_asked(old(self)@.state)),
            final(self)@.config == old(self)@.config,
            final(self)@.daemon == old(self)@.daemon,
            first.0@ == crate::provision::fresh_run(old(self)@.config, windows),
            first.1@ == crate::provision::silently(crate::provision::ActionView::MakeBinDir),
    {
        if !self.is_busy() {
            self.state.set(EngineState::Downloading { downloaded: 0, total: None });
        }
        ProvisionRun::new(self.config.clone(), windows)
    }

    /// Takes in what came of the last action of a provisioning run and decides what to
    /// do next.
    pub fn provision_step(&mut self, run: &mut ProvisionRun, event: ProvisionEvent) -> (turn:
        ProvisionTurn)
        requires
            crate::provision::expects(old(run)@, event@),
        ensures
            (final(run)@, turn@) == crate::provision::after_event(old(run)@, event@),
            final(self)@ == in_state(old(self)@, state_after(old(self)@.state, turn@)),
            final(self)@.config == old(self)@.config,
            final(self)@.daemon == old(self)@.daemon,
    {
        let turn = run.advance(event);
        match &turn.action {
            ProvisionAction::Finish(Ok(())) => {
                if !self.is_busy() {
                    self.state.set(EngineState::Stopped);
                }
            },
            ProvisionAction::Finish(Err(e)) => {
                self.state.set(EngineState::Error { message: e.to_string() });
            },
            ProvisionAction::Download { .. } => {
                self.state.set(EngineState::Downloading { downloaded: 0, total: None });
            },
            _ => {
                if let Some(progress) = &turn.progress {
                    self.state.set(progress.clone());
                }
            },
        }
        turn
    }

    /// Spawn `rclone rcd` and wait until the health-check passes: the run that does it,
    /// and its first action. `probe` is what was found in the data directory.
    pub fn start(&mut self, probe: &InstallProbe) -> (first: Result<(StartRun, StartAction), Error>)
        ensures
            first is Ok <==> crate::provision::installed(old(self)@.config, probe@),
            first is Ok <==> (probe.binary_exists && (probe.marker matches Some(v)
                && v.rclone_version@ == old(self)@.config.rclone_version@)),
            first is Ok ==> final(self)@.state is Starting,
            final(self)@.config == old(self)@.config,
            final(self)@.daemon == old(self)@.daemon,
            first matches Ok(f) ==> {
                &&& final(self)@ == in_state(old(self)@, crate::state::StateView::Starting)
                &&& f.0@ == fresh_start(old(self)@.config)
                &&& f.1@ == StartActionView::ReapStrays
            },
            first matches Err(e) ==> {
                &&& final(self)@ == old(self)@
                &&& e@ == crate::error::ErrorView::Provision("call provision() before start()"@)
            },
    {
        if !is_installed(&self.config, probe) {
            return Err(Error::Provision("call provision() before start()".to_owned()));
        }
        self.state.set(EngineState::Starting);
        let run = StartRun {
            cfg: self.config.clone(),
            step: StartStep::Reap,
            port: 0,
            failure: None,
        };
        Ok((run, StartAction::ReapStrays))
    }

    /// Takes in what came of the last action of a start and decides what to do next.
    pub fn start_step(&mut self, run: &mut StartRun, event: StartEvent) -> (action: StartAction)
        requires
            start_expects(old(run)@, event@),
        ensures
            (final(self)@, final(run)@, action@) == after_start_event(
                old(self)@,
                old(run)@,
                event@,
            ),
    {
        match (run.step, event) {
            (StartStep::Reap, StartEvent::Done) => {
                run.step = StartStep::Spawn;
                StartAction::Spawn
            },
            (StartStep::Spawn, StartEvent::Spawned(port)) => {
                self.daemon = Some(DaemonProcess { port, running: true });
                self.state.set(EngineState::Starting);
                run.port = port;
                run.step = StartStep::Clock;
                StartAction::ReadClock
            },
            (StartStep::Spawn, StartEvent::NotSpawned(e)) => {
                self.state.set(EngineState::Error { message: e.to_string() });
                run.step = StartStep::Finished;
                StartAction::Finish(Err(e))
            },
            (StartStep::Clock, StartEvent::Elapsed(elapsed)) => {
                match wait_for_ready(run.port, elapsed, run.cfg.startup_timeout) {
                    Ok(check) => {
                        run.step = StartStep::Probe;
                        StartAction::Probe(check)
                    },
                    Err(e) => {
                        self.state.set(EngineState::Error { message: e.to_string() });
                        match self.daemon.take() {
                            Some(daemon) => {
                                run.failure = Some(e);
                                run.step = StartStep::Halt;
                                StartAction::StopDaemon(daemon)
                            },
                            None => {
                                run.step = StartStep::Finished;
                                StartAction::Finish(Err(e))
                            },
                        }
                    },
                }
            },
            (StartStep::Probe, event) => {
                let passed = match event {
                    StartEvent::Answered(status) => is_success(status),
                    _ => false,
                };
                if passed {
                    self.state.set(EngineState::Ready);
                    run.step = StartStep::Finished;
                    StartAction::Finish(Ok(()))
                } else {
                    run.step = StartStep::Pause;
                    StartAction::Sleep(Duration::from_millis(PROBE_PAUSE_MILLIS))
                }
            },
            (StartStep::Pause, StartEvent::Done) => {
                run.step = StartStep::Clock;
                StartAction::ReadClock
            },
            (StartStep::Halt, StartEvent::Done) => {
                run.step = StartStep::Finished;
                match run.failure.take() {
                    Some(e) => StartAction::Finish(Err(e)),
                    None => unreached(),
                }
            },
            _ => unreached(),
        }
    }

    /// Stop the `rclone rcd` daemon: takes it out of the engine, for the caller to stop
    /// it before [`RcloneEngine::stopped`]. Safe to call even if already stopped.
    pub fn stop(&mut self) -> (daemon: Option<DaemonProcess>)
        ensures
            daemon == old(self)@.daemon,
            final(self)@ == (EngineView { daemon: None, ..old(self)@ }),
    {
        self.daemon.take()
    }

    /// Records that the daemon taken out by [`RcloneEngine::stop`] is stopped.
    pub fn stopped(&mut self)
        ensures
            final(self)@ == in_state(old(self)@, crate::state::StateView::Stopped),
            final(self)@.state is Stopped,
            final(self)@.config == old(self)@.config,
            final(self)@.daemon == old(self)@.daemon,
    {
        self.state.set(EngineState::Stopped);
    }

    /// Returns an `RcClient` pointed at the running daemon, which must have been
    /// started (check `is_ready()` first).
    pub fn rc(&self) -> (client: RcClient)
        requires
            self@.daemon is Some,
        ensures
            client.port() == self@.daemon->0.port,
    {
        match &self.daemon {
            Some(daemon) => RcClient::new(daemon.port),
            None => unreached(),
        }
    }

    /// Returns the loopback port the daemon is bound to, or `None` if not running.
    pub fn bound_port(&self) -> (port: Option<u16>)
        ensures
            port == (match self@.daemon {
                Some(daemon) => Some(daemon.port),
                None => None,
            }),
    {
        match &self.daemon {
            Some(daemon) => Some(daemon.port),
            None => None,
        }
    }
}

/// What holds of an engine and a start of it, where nothing else is done with the engine
/// meanwhile.
pub open spec fn start_in_order(engine: EngineView, run: StartView) -> bool {
    &&& run.step is Halt <==> run.failure is Some
    &&& match run.step {
        StartStep::Reap | StartStep::Spawn => engine.state is Starting,
        StartStep::Clock | StartStep::Probe | StartStep::Pause => engine.state is Starting
            && engine.daemon == Some(crate::lifecycle::running_on(run.port)),
        StartStep::Halt => engine.daemon is None && engine.state == error_state(run.failure->0),
        StartStep::Finished => true,
    }
}

/// A start runs in order: it succeeds with the engine ready and the spawned daemon in its
/// place, and fails with the engine in the error state that shows the error. The
/// configuration stays as it is.
pub proof fn starts_run_in_order(engine: EngineView, run: StartView, event: StartEventView)
    requires
        start_in_order(engine, run),
        start_expects(run, event),
    ensures
        ({
            let (after, next, action) = after_start_event(engine, run, event);
            &&& start_in_order(after, next)
            &&& after.config == engine.config
            &&& action is Finish <==> next.step is Finished
            &&& action matches StartActionView::Finish(outcome) ==> match outcome {
                Ok(_) => after.state is Ready && after.daemon == Some(
                    crate::lifecycle::running_on(next.port),
                ),
                Err(e) => after.state == error_state(e),
            }
        }),
{
}

/// A start that is asked for of an engine with its binary installed is in order.
pub proof fn starts_begin_in_order(engine: EngineView)
    ensures
        start_in_order(
            in_state(engine, crate::state::StateView::Starting),
            fresh_start(engine.config),
        ),
{
}

/// A daemon that answers its health-check in time, with a success, is up: the engine is
/// ready, and bound to the port that the daemon was spawned on.
pub proof fn healthy_daemon_gets_ready(
    engine: EngineView,
    port: u16,
    elapsed: Duration,
    status: u16,
)
    requires
        crate::wire::success(status),
        crate::time::nanoseconds(elapsed) < crate::time::nanoseconds(engine.config.startup_timeout),
    ensures
        ({
            let starting = in_state(engine, crate::state::StateView::Starting);
            let (e1, r1, a1) = after_start_event(
                starting,
                fresh_start(engine.config),
                StartEventView::Done,
            );
            let (e2, r2, a2) = after_start_event(e1, r1, StartEventView::Spawned(port));
            let (e3, r3, a3) = after_start_event(e2, r2, StartEventView::Elapsed(elapsed));
            let (e4, r4, a4) = after_start_event(e3, r3, StartEventView::Answered(status));
            &&& a1 is Spawn
            &&& a2 is ReadClock
            &&& a3 == StartActionView::Probe(crate::lifecycle::health_check(port))
            &&& a4 == StartActionView::Finish(Ok(()))
            &&& e4 == (EngineView {
                config: engine.config,
                state: crate::state::StateView::Ready,
                daemon: Some(crate::lifecycle::running_on(port)),
            })
        }),
{
}

/// A daemon that has not answered when the time is up is stopped, and the start fails
/// with the timeout; no daemon is left in the engine.
pub proof fn late_daemon_is_stopped(engine: EngineView, run: StartView, elapsed: Duration)
    requires
        start_in_order(engine, run),
        run.step is Clock,
        crate::time::nanoseconds(elapsed) >= crate::time::nanoseconds(run.cfg.startup_timeout),
    ensures
        ({
            let (e1, r1, a1) = after_start_event(engine, run, StartEventView::Elapsed(elapsed));
            let (e2, r2, a2) = after_start_event(e1, r1, StartEventView::Done);
            let error = crate::lifecycle::startup_timeout(run.cfg.startup_timeout);
            &&& a1 == StartActionView::StopDaemon(
                crate::lifecycle::running_on(run.port),
            )
            &&& a2 == StartActionView::Finish(Err(error))
            &&& e2.daemon is None
            &&& e2.state == error_state(error)
        }),
{
}

/// A health-check: how much time had passed when it was due, and what it would bring.
pub struct Probe {
    pub elapsed: Duration,
    pub reply: StartEventView,
}

/// A start at its clock after one health-check, up to the next look at the clock or to the
/// end of the waiting. No health-check is sent where the time is up.
pub open spec fn after_probe(engine: EngineView, run: StartView, probe: Probe) -> (
    EngineView,
    StartView,
    StartActionView,
) {
    let (e1, r1, a1) = after_start_event(engine, run, StartEventView::Elapsed(probe.elapsed));
    if !(a1 is Probe) {
        (e1, r1, a1)
    } else {
        let (e2, r2, a2) = after_start_event(e1, r1, probe.reply);
        if !(a2 is Sleep) {
            (e2, r2, a2)
        } else {
            after_start_event(e2, r2, StartEventView::Done)
        }
    }
}

/// A start at its clock after a list of health-checks, up to the end of the waiting.
pub open spec fn after_probes(engine: EngineView, run: StartView, probes: Seq<Probe>) -> (
    EngineView,
    StartView,
    StartActionView,
)
    decreases probes.len(),
{
    if probes.len() == 0 {
        (engine, run, StartActionView::ReadClock)
    } else {
        let (e, r, a) = after_probe(engine, run, probes.first());
        if a is ReadClock {
            after_probes(e, r, probes.drop_first())
        } else {
            (e, r, a)
        }
    }
}

/// The probe is sent before the time is up.
pub open spec fn in_time(probe: Probe, timeout: Duration) -> bool {
    crate::time::nanoseconds(probe.elapsed) < crate::time::nanoseconds(timeout)
}

/// Health-check `i` passes, and it and all before it are sent in time.
pub open spec fn passed_at(probes: Seq<Probe>, timeout: Duration, i: int) -> bool {
    &&& 0 <= i < probes.len()
    &&& healthy(probes[i].reply)
    &&& forall|j: int| 0 <= j <= i ==> in_time(#[trigger] probes[j], timeout)
}

/// The waiting for a daemon ends well just where a health-check that is sent in time is
/// answered with a success, and then the engine is ready. Other answers, and none, are not
/// reported but tried again, with the engine still starting, until the time is up: then the
/// daemon is stopped for the timeout.
pub proof fn waiting_ends_with_a_healthy_answer(
    engine: EngineView,
    run: StartView,
    probes: Seq<Probe>,
)
    requires
        start_in_order(engine, run),
        run.step is Clock,
        forall|i: int|
            0 <= i < probes.len() ==> ((#[trigger] probes[i]).reply is Answered
                || probes[i].reply is Unanswered),
    ensures
        ({
            let (after, next, action) = after_probes(engine, run, probes);
            let timeout = run.cfg.startup_timeout;
            let error = crate::lifecycle::startup_timeout(timeout);
            let all_in_time = forall|i: int|
                0 <= i < probes.len() ==> in_time(#[trigger] probes[i], timeout);
            let passed = exists|i: int| passed_at(probes, timeout, i);
            &&& passed ==> action == StartActionView::Finish(Ok(())) && after.state is Ready
            &&& !passed && all_in_time ==> action is ReadClock && (after, next) == (engine, run)
            &&& !passed && !all_in_time ==> action == StartActionView::StopDaemon(
                crate::lifecycle::running_on(run.port),
            ) && next.failure == Some(error) && after.state == error_state(error)
        }),
    decreases probes.len(),
{
    let timeout = run.cfg.startup_timeout;
    if probes.len() > 0 {
        let first = probes[0];
        let rest = probes.drop_first();
        assert(forall|i: int| 0 <= i < rest.len() ==> #[trigger] rest[i] == probes[i + 1]);
        if !in_time(first, timeout) {
            assert(forall|i: int| !passed_at(probes, timeout, i));
        } else if healthy(first.reply) {
            assert(passed_at(probes, timeout, 0));
        } else {
            waiting_ends_with_a_healthy_answer(engine, run, rest);
            if exists|i: int| passed_at(rest, timeout, i) {
                let i = choose|i: int| passed_at(rest, timeout, i);
                assert forall|j: int| 0 <= j <= i + 1 implies in_time(
                    #[trigger] probes[j],
                    timeout,
                ) by {
                    if j > 0 {
                        assert(rest[j - 1] == probes[j]);
                    }
                }
                assert(rest[i] == probes[i + 1]);
                assert(passed_at(probes, timeout, i + 1));
            }
            if exists|i: int| passed_at(probes, timeout, i) {
                let i = choose|i: int| passed_at(probes, timeout, i);
                assert forall|j: int| 0 <= j <= i - 1 implies in_time(
                    #[trigger] rest[j],
                    timeout,
                ) by {
                    assert(rest[j] == probes[j + 1]);
                }
                assert(rest[i - 1] == probes[i]);
                assert(passed_at(rest, timeout, i - 1));
            }
            if forall|i: int| 0 <= i < rest.len() ==> in_time(#[trigger] rest[i], timeout) {
                assert forall|i: int| 0 <= i < probes.len() implies in_time(
                    #[trigger] probes[i],
                    timeout,
                ) by {
                    if i > 0 {
                        assert(rest[i - 1] == probes[i]);
                    }
                }
            } else {
                let i = choose|i: int| 0 <= i < rest.len() && !in_time(#[trigger] rest[i], timeout);
                assert(!in_time(probes[i + 1], timeout));
            }
        }
    }
}

/// The engine gets ready by a start only: no turn of provisioning and no look at the
/// installation makes it so.
pub proof fn only_a_start_gets_ready(
    state: crate::state::StateView,
    run: crate::provision::RunView,
    event: crate::provision::EventView,
    present: bool,
)
    requires
        crate::provision::expects(run, event),
        !(state is Ready),
    ensures
        !(state_after(state, crate::provision::after_event(run, event).1) is Ready),
        !(state_asked(state) is Ready),
        !(state_found(state, present) is Ready),
{
}

/// The state shows how provisioning ended: an engine that is neither starting nor ready
/// is stopped, and ready to start, after a success, and shows the error after a failure.
pub proof fn state_shows_the_outcome(
    state: crate::state::StateView,
    error: crate::error::ErrorView,
)
    ensures
        ({
            let success = crate::provision::silently(
                crate::provision::ActionView::Finish(Ok(())),
            );
            let failure = crate::provision::silently(
                crate::provision::ActionView::Finish(Err(error)),
            );
            &&& !(state is Ready || state is Starting) ==> state_after(state, success) is Stopped
            &&& state is Ready || state is Starting ==> state_after(state, success) == state
            &&& state_after(state, failure) == error_state(error)
        }),
{
}

/// Provisioning what is installed already is a no-op for an engine that is starting or
/// ready, and leaves every other engine stopped, and ready to start.
pub proof fn provisioning_again_changes_nothing(
    engine: EngineView,
    windows: bool,
    probe: crate::provision::ProbeView,
)
    requires
        crate::provision::installed(engine.config, probe),
    ensures
        ({
            let run = crate::provision::fresh_run(engine.config, windows);
            let (looking, look) = crate::provision::after_event(
                run,
                crate::provision::EventView::Done,
            );
            let (over, end) = crate::provision::after_event(
                looking,
                crate::provision::EventView::Probed(probe),
            );
            let shown = state_after(state_after(state_asked(engine.state), look), end);
            &&& look.action is ProbeInstall
            &&& end.action == crate::provision::ActionView::Finish(Ok(()))
            &&& engine.state is Ready || engine.state is Starting ==> shown == engine.state
            &&& !(engine.state is Ready || engine.state is Starting) ==> shown is Stopped
        }),
{
}

/// An engine after its daemon, if there was one, is stopped.
pub open spec fn after_stop(engine: EngineView) -> EngineView {
    in_state(EngineView { daemon: None, ..engine }, crate::state::StateView::Stopped)
}

/// Stopping is safe to repeat: it leaves the engine stopped and without a daemon, and
/// stopping once more changes nothing.
pub proof fn stopping_again_changes_nothing(engine: EngineView)
    ensures
        after_stop(engine).state is Stopped,
        after_stop(engine).daemon is None,
        after_stop(engine).config == engine.config,
        after_stop(after_stop(engine)) == after_stop(engine),
{
}

/// Looking at the installation once more, and finding the same, changes nothing.
pub proof fn looking_again_changes_nothing(state: crate::state::StateView, present: bool)
    ensures
        state_found(state_found(state, present), present) == state_found(state, present),
        !present ==> state_found(state, present) is NotInstalled,
        present ==> !(state_found(state, present) is NotInstalled),
{
}

/// Provisioning shows its own states: a turn leaves the state as it is, or shows a
/// download with the bytes counted so far, or `Installing` once the download is complete,
/// or `Stopped` at the end of a success, or the error at the end of a failure.
pub proof fn provisioning_shows_its_own_states(
    state: crate::state::StateView,
    run: crate::provision::RunView,
    event: crate::provision::EventView,
)
    requires
        crate::provision::is_consistent(run),
        crate::provision::expects(run, event),
    ensures
        ({
            let (next, turn) = crate::provision::after_event(run, event);
            let shown = state_after(state, turn);
            ||| shown == state
            ||| shown matches crate::state::StateView::Downloading { downloaded, total }
                && downloaded == next.downloaded && next.step is Fetch
            ||| shown is Installing && next.step is Load
            ||| shown is Stopped && next.step is Finished
            ||| shown is Error && next.step is Finished
        }),
{
}

/// An engine in another state is the same engine otherwise, and the state of an engine that
/// has met an error shows the whole message of the error.
pub proof fn only_the_state_changes(
    engine: EngineView,
    state: crate::state::StateView,
    error: crate::error::ErrorView,
)
    ensures
        in_state(engine, state).state == state,
        in_state(engine, state).config == engine.config,
        in_state(engine, state).daemon == engine.daemon,
        error_state(error) == (crate::state::StateView::Error { message: error.message() }),
{
}

/// A look at the installation shows `NotInstalled` where nothing is installed, `Stopped`
/// where that is news, and changes nothing otherwise.
pub proof fn looking_shows_what_is_there(state: crate::state::StateView)
    ensures
        state_found(state, false) is NotInstalled,
        state is NotInstalled ==> state_found(state, true) is Stopped,
        !(state is NotInstalled) ==> state_found(state, true) == state,
{
}

/// What provisioning shows: that a download begins, unless the engine is starting or ready;
/// with each turn what it reports; the download when it begins; `Stopped` after a success,
/// unless the engine is starting or ready; and the error after a failure.
pub proof fn provisioning_shows_what_happens(
    state: crate::state::StateView,
    shown: crate::state::StateView,
    url: Seq<char>,
    error: crate::error::ErrorView,
    action: crate::provision::ActionView,
)
    ensures
        state is Ready || state is Starting ==> state_asked(state) == state,
        !(state is Ready || state is Starting) ==> state_asked(state)
            == (crate::state::StateView::Downloading { downloaded: 0, total: None }),
        state_after(
            state,
            crate::provision::TurnView {
                action: crate::provision::ActionView::Download { url },
                progress: None,
            },
        ) == (crate::state::StateView::Downloading { downloaded: 0, total: None }),
        !(action is Finish) && !(action is Download) ==> state_after(
            state,
            crate::provision::TurnView { action, progress: Some(shown) },
        ) == shown,
        !(action is Finish) && !(action is Download) ==> state_after(
            state,
            crate::provision::TurnView { action, progress: None },
        ) == state,
        state_after(
            state,
            crate::provision::TurnView {
                action: crate::provision::ActionView::Finish(Err(error)),
                progress: None,
            },
        ) == (crate::state::StateView::Error { message: error.message() }),
        state is Ready || state is Starting ==> state_after(
            state,
            crate::provision::TurnView {
                action: crate::provision::ActionView::Finish(Ok(())),
                progress: None,
            },
        ) == state,
        !(state is Ready || state is Starting) ==> state_after(
            state,
            crate::provision::TurnView {
                action: crate::provision::ActionView::Finish(Ok(())),
                progress: None,
            },
        ) is Stopped,
{
}

/// A start goes in order: it reaps strays, spawns, and holds the daemon on its port with the
/// engine starting; then it looks at the clock before each health-check, and asks on that
/// port while there is time.
pub proof fn starts_ask_the_spawned_daemon(
    engine: EngineView,
    cfg: EngineConfig,
    port: u16,
    elapsed: Duration,
)
    ensures
        ({
            let r0 = fresh_start(cfg);
            let (e1, r1, a1) = after_start_event(engine, r0, StartEventView::Done);
            let (e2, r2, a2) = after_start_event(e1, r1, StartEventView::Spawned(port));
            let (e3, r3, a3) = after_start_event(e2, r2, StartEventView::Elapsed(elapsed));
            &&& e1 == engine && a1 is Spawn
            &&& e2.config == engine.config && e2.state is Starting
            &&& e2.daemon matches Some(daemon) && daemon.port == port && daemon.running
            &&& a2 is ReadClock
            &&& crate::time::nanoseconds(elapsed) < crate::time::nanoseconds(cfg.startup_timeout)
                ==> e3 == e2 && (a3 matches StartActionView::Probe(check) && check.method is Get
                && check.url == "http://"@ + ("127.0.0.1:"@ + crate::text::decimal(port as nat))
                + "/"@ + "rc/noop"@ && check.timeout == 2_000_000_000)
            &&& crate::time::nanoseconds(elapsed) >= crate::time::nanoseconds(cfg.startup_timeout)
                ==> e3.daemon is None && (a3 matches StartActionView::StopDaemon(daemon)
                && daemon.port == port && daemon.running)
        }),
{
}

/// A health-check passes by a status from 200 to 299, and makes the engine ready. Any other
/// status, and no answer, leave the engine as it is: after a pause of 300 milliseconds the
/// clock is read again.
pub proof fn health_checks_pass_by_success(engine: EngineView, run: StartView, status: u16)
    requires
        run.step is Probe,
    ensures
        200 <= status <= 299 ==> {
            let (e, r, a) = after_start_event(engine, run, StartEventView::Answered(status));
            &&& a == StartActionView::Finish(Ok(()))
            &&& e.state is Ready && e.daemon == engine.daemon && e.config == engine.config
        },
        !(200 <= status <= 299) ==> {
            let (e, r, a) = after_start_event(engine, run, StartEventView::Answered(status));
            let (e2, r2, a2) = after_start_event(e, r, StartEventView::Done);
            e == engine && a == StartActionView::Sleep(300_000_000) && e2 == engine && r2.step
                is Clock && a2 is ReadClock
        },
        ({
            let (e, r, a) = after_start_event(engine, run, StartEventView::Unanswered);
            let (e2, r2, a2) = after_start_event(e, r, StartEventView::Done);
            e == engine && a == StartActionView::Sleep(300_000_000) && e2 == engine && r2.step
                is Clock && a2 is ReadClock
        }),
        healthy(StartEventView::Answered(status)) <==> 200 <= status <= 299,
        !healthy(StartEventView::Unanswered),
{
}

/// A daemon that cannot be spawned ends the start with the error, which the state shows. A
/// daemon that is stopped for the timeout ends it with the timeout, in whole seconds.
pub proof fn failed_starts_say_why(
    engine: EngineView,
    run: StartView,
    error: crate::error::ErrorView,
    elapsed: Duration,
)
    ensures
        run.step is Spawn ==> {
            let (e, r, a) = after_start_event(engine, run, StartEventView::NotSpawned(error));
            &&& a == StartActionView::Finish(Err(error))
            &&& e.state == (crate::state::StateView::Error { message: error.message() })
            &&& e.config == engine.config && e.daemon == engine.daemon
        },
        run.step is Clock && crate::time::nanoseconds(elapsed) >= crate::time::nanoseconds(
            run.cfg.startup_timeout,
        ) ==> {
            let (e, r, a) = after_start_event(engine, run, StartEventView::Elapsed(elapsed));
            let seconds = (crate::time::nanoseconds(run.cfg.startup_timeout) / 1_000_000_000)
                as u64;
            let timeout = crate::error::ErrorView::StartupTimeout { seconds };
            &&& e.daemon is None && e.config == engine.config
            &&& e.state == (crate::state::StateView::Error { message: timeout.message() })
            &&& engine.daemon matches Some(daemon) ==> a == StartActionView::StopDaemon(daemon)
                && after_start_event(e, r, StartEventView::Done).2 == StartActionView::Finish(
                Err(timeout),
            ) && after_start_event(e, r, StartEventView::Done).0 == e
            &&& engine.daemon is None ==> a == StartActionView::Finish(Err(timeout))
        },
{
}

/// Every answer that an action of a start can have is expected, and a start begins with the
/// configuration that it is given.
pub proof fn start_answers_are_expected(
    run: StartView,
    port: u16,
    error: crate::error::ErrorView,
    elapsed: Duration,
    status: u16,
    cfg: EngineConfig,
)
    ensures
        run.step is Reap || run.step is Pause ==> start_expects(run, StartEventView::Done),
        run.step is Halt && run.failure is Some ==> start_expects(run, StartEventView::Done),
        run.step is Spawn ==> start_expects(run, StartEventView::Spawned(port)) && start_expects(
            run,
            StartEventView::NotSpawned(error),
        ),
        run.step is Clock ==> start_expects(run, StartEventView::Elapsed(elapsed)),
        run.step is Probe ==> start_expects(run, StartEventView::Answered(status))
            && start_expects(run, StartEventView::Unanswered),
        fresh_start(cfg).cfg == cfg,
        fresh_start(cfg).step is Reap,
        fresh_start(cfg).failure is None,
{
}

/// Views of what a start deals in keep all of it.
pub proof fn starts_are_viewed_whole(event: StartEvent, action: StartAction)
    ensures
        event is Done <==> event@ is Done,
        event is Unanswered <==> event@ is Unanswered,
        event matches StartEvent::Spawned(port) ==> event@ == StartEventView::Spawned(port),
        event matches StartEvent::NotSpawned(e) ==> event@ == StartEventView::NotSpawned(e@),
        event matches StartEvent::Elapsed(elapsed) ==> event@ == StartEventView::Elapsed(elapsed),
        event matches StartEvent::Answered(status) ==> event@ == StartEventView::Answered(status),
        action is ReapStrays <==> action@ is ReapStrays,
        action is Spawn <==> action@ is Spawn,
        action is ReadClock <==> action@ is ReadClock,
        action matches StartAction::Probe(check) ==> action@ == StartActionView::Probe(check@),
        action matches StartAction::Sleep(span) ==> action@ == StartActionView::Sleep(
            crate::time::nanoseconds(span),
        ),
        action matches StartAction::StopDaemon(daemon) ==> action@ == StartActionView::StopDaemon(
            daemon,
        ),
        action matches StartAction::Finish(Ok(_)) ==> action@ == StartActionView::Finish(Ok(())),
        action matches StartAction::Finish(Err(e)) ==> action@ == StartActionView::Finish(Err(e@)),
{
}

} // verus!

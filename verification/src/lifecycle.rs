//! The daemon process: how it is spawned, asked for its health and stopped.
use std::path::PathBuf;
use std::time::Duration;

use vstd::prelude::*;
use vstd::string::*;

use crate::client::{loopback_text, url_text};
use crate::config::{text_of_path, EngineConfig, ManagedFile};
use crate::error::Error;
use crate::time::is_over;

verus! {

/// A spawned `rclone rcd`, known by its loopback port.
#[derive(Debug, PartialEq, Eq, Structural)]
pub struct DaemonProcess {
    pub port: u16,
    /// The process has not been stopped yet.
    pub running: bool,
}

/// A daemon that was spawned on `port` and not stopped since.
pub open spec fn running_on(port: u16) -> DaemonProcess {
    DaemonProcess { port, running: true }
}

/// The daemon after it was told to stop.
pub open spec fn told_to_stop(daemon: DaemonProcess) -> DaemonProcess {
    DaemonProcess { running: false, ..daemon }
}

/// The command line that runs the daemon.
#[derive(Debug)]
pub struct DaemonCommand {
    /// The binary to run.
    pub program: PathBuf,
    /// The config file that the arguments name.
    pub config: PathBuf,
    /// The arguments, in order.
    pub args: Vec<String>,
}

/// The method of an HTTP request.
#[derive(Debug, Clone, Copy, PartialEq, Eq, Structural)]
pub enum Method {
    Get,
    Post,
}

/// Where a shutdown stands: which action it waits for.
#[derive(Debug, Clone, Copy, PartialEq, Eq, Structural)]
pub enum QuitStep {
    /// The daemon is being asked to shut down cleanly.
    Request,
    /// The daemon is given a moment to do so.
    Grace,
    /// The process is being killed.
    Kill,
    /// The process is being waited for.
    Wait,
    /// The shutdown is over.
    Finished,
}

/// What to do next to stop the daemon.
#[derive(Debug)]
pub enum QuitAction {
    /// Send an empty request.
    Send { method: Method, url: String, timeout: Duration },
    /// Sleep.
    Sleep(Duration),
    /// Kill the process.
    Kill,
    /// Wait for the process to end.
    Wait,
    /// The shutdown is over.
    Finish,
}

/// A [`QuitAction`] with its text as a character sequence and its spans in nanoseconds.
pub enum QuitActionView {
    Send { method: Method, url: Seq<char>, timeout: nat },
    Sleep(nat),
    Kill,
    Wait,
    Finish,
}

impl View for QuitAction {
    type V = QuitActionView;

    open spec fn view(&self) -> QuitActionView {
        match self {
            QuitAction::Send { method, url, timeout } => QuitActionView::Send {
                method: *method,
                url: url@,
                timeout: crate::time::nanoseconds(*timeout),
            },
            QuitAction::Sleep(span) => QuitActionView::Sleep(crate::time::nanoseconds(*span)),
            QuitAction::Kill => QuitActionView::Kill,
            QuitAction::Wait => QuitActionView::Wait,
            QuitAction::Finish => QuitActionView::Finish,
        }
    }
}

/// A shutdown of the daemon.
#[derive(Debug)]
pub struct QuitRun {
    step: QuitStep,
}

impl View for QuitRun {
    type V = QuitStep;

    closed spec fn view(&self) -> QuitStep {
        self.step
    }
}

/// How a shutdown begins: with the request, where the daemon was not stopped before.
pub open spec fn first_quit(daemon: DaemonProcess) -> (QuitStep, QuitActionView) {
    if daemon.running {
        (
            QuitStep::Request,
            QuitActionView::Send {
                method: Method::Post,
                url: crate::client::rc_url(daemon.port, "core/quit"@),
                timeout: 3 * 1_000_000_000,
            },
        )
    } else {
        (QuitStep::Finished, QuitActionView::Finish)
    }
}

/// How a shutdown goes on after an action, whether that succeeded or not.
pub open spec fn after_quit(step: QuitStep, _success: bool) -> (QuitStep, QuitActionView) {
    match step {
        QuitStep::Request => (QuitStep::Grace, QuitActionView::Sleep(500 * 1_000_000)),
        QuitStep::Grace => (QuitStep::Kill, QuitActionView::Kill),
        QuitStep::Kill => (QuitStep::Wait, QuitActionView::Wait),
        QuitStep::Wait | QuitStep::Finished => (QuitStep::Finished, QuitActionView::Finish),
    }
}

impl QuitRun {
    /// Tells whether the shutdown is over.
    pub fn is_over(&self) -> (over: bool)
        ensures
            over == (self@ is Finished),
    {
        match self.step {
            QuitStep::Finished => true,
            _ => false,
        }
    }

    /// Takes in whether the last action succeeded and decides what to do next. The shutdown
    /// goes on either way.
    pub fn advance(&mut self, _success: bool) -> (action: QuitAction)
        ensures
            (final(self)@, action@) == after_quit(old(self)@, _success),
    {
        match self.step {
            QuitStep::Request => {
                self.step = QuitStep::Grace;
                QuitAction::Sleep(Duration::from_millis(500))
            },
            QuitStep::Grace => {
                self.step = QuitStep::Kill;
                QuitAction::Kill
            },
            QuitStep::Kill => {
                self.step = QuitStep::Wait;
                QuitAction::Wait
            },
            QuitStep::Wait | QuitStep::Finished => {
                self.step = QuitStep::Finished;
                QuitAction::Finish
            },
        }
    }
}

/// The arguments of `rclone rcd` on a loopback port with a config file.
pub open spec fn daemon_args(port: u16, config: Seq<char>) -> Seq<Seq<char>> {
    seq![
        "rcd"@,
        "--rc-addr"@,
        crate::client::loopback(port),
        "--rc-no-auth"@,
        "--config"@,
        config,
    ]
}

impl DaemonProcess {
    /// The daemon on a loopback port, and the command that spawns it.
    pub fn spawn(cfg: &EngineConfig, port: u16, windows: bool) -> (spawned: (Self, DaemonCommand))
        ensures
            spawned.0 == running_on(port),
            crate::config::components(spawned.1.program) == crate::config::components(cfg.data_dir)
                + crate::config::place(ManagedFile::Binary, windows),
            crate::config::components(spawned.1.config) == crate::config::components(cfg.data_dir)
                + crate::config::place(ManagedFile::Config, windows),
            crate::text::texts_view(spawned.1.args@) == daemon_args(
                port,
                crate::config::path_text(spawned.1.config),
            ),
            spawned.0.port == port && spawned.0.running,
            spawned.1.args@.len() == 6,
            spawned.1.args@[0]@ == "rcd"@,
            spawned.1.args@[1]@ == "--rc-addr"@,
            spawned.1.args@[2]@ == "127.0.0.1:"@ + crate::text::decimal(port as nat),
            spawned.1.args@[3]@ == "--rc-no-auth"@,
            spawned.1.args@[4]@ == "--config"@,
            spawned.1.args@[5]@ == crate::config::path_text(spawned.1.config),
    {
        let program = cfg.path_of(ManagedFile::Binary, windows);
        let config = cfg.path_of(ManagedFile::Config, windows);
        let mut args: Vec<String> = Vec::new();
        args.push("rcd".to_owned());
        args.push("--rc-addr".to_owned());
        args.push(loopback_text(port));
        args.push("--rc-no-auth".to_owned());
        args.push("--config".to_owned());
        args.push(text_of_path(&config));
        assert(crate::text::texts_view(args@) =~= daemon_args(
            port,
            crate::config::path_text(config),
        ));
        (DaemonProcess { port, running: true }, DaemonCommand { program, config, args })
    }

    /// Kill the rcd process: the shutdown that does it, and its first action. It sends
    /// `core/quit` first for a clean shutdown. A daemon is stopped once: where that was done
    /// before, there is nothing to do.
    pub fn stop(&mut self) -> (first: (QuitRun, QuitAction))
        ensures
            *final(self) == told_to_stop(*old(self)),
            (first.0@, first.1@) == first_quit(*old(self)),
            final(self).port == old(self).port,
            !final(self).running,
            first.1 is Finish <==> !old(self).running,
            first.1 matches QuitAction::Send { method, url, timeout } ==> method is Post && url@
                == "http://"@ + ("127.0.0.1:"@ + crate::text::decimal(old(self).port as nat)) + "/"@
                + "core/quit"@ && crate::time::nanoseconds(timeout) == 3_000_000_000,
    {
        if self.running {
            self.running = false;
            let url = url_text(self.port, "core/quit");
            (
                QuitRun { step: QuitStep::Request },
                QuitAction::Send { method: Method::Post, url, timeout: Duration::from_secs(3) },
            )
        } else {
            (QuitRun { step: QuitStep::Finished }, QuitAction::Finish)
        }
    }
}

/// A health-check of the daemon.
#[derive(Debug)]
pub struct HealthCheck {
    pub method: Method,
    /// The URL to ask.
    pub url: String,
    /// How long the request may take.
    pub timeout: Duration,
}

/// A [`HealthCheck`] with its text as a character sequence and its timeout in
/// nanoseconds.
pub struct HealthCheckView {
    pub method: Method,
    pub url: Seq<char>,
    pub timeout: nat,
}

impl View for HealthCheck {
    type V = HealthCheckView;

    open spec fn view(&self) -> HealthCheckView {
        HealthCheckView {
            method: self.method,
            url: self.url@,
            timeout: crate::time::nanoseconds(self.timeout),
        }
    }
}

/// The health-check of the daemon on `port`: `GET /rc/noop`.
pub open spec fn health_check(port: u16) -> HealthCheckView {
    HealthCheckView {
        method: Method::Get,
        url: crate::client::rc_url(port, "rc/noop"@),
        timeout: 2 * 1_000_000_000,
    }
}

/// The error for a daemon that has not answered within `timeout`.
pub open spec fn startup_timeout(timeout: Duration) -> crate::error::ErrorView {
    crate::error::ErrorView::StartupTimeout {
        seconds: (crate::time::nanoseconds(timeout) / 1_000_000_000) as u64,
    }
}

/// How long to sleep between two health-checks, in milliseconds.
pub const PROBE_PAUSE_MILLIS: u64 = 300;

/// Decides, `elapsed` after the daemon was spawned on `port`, whether to ask for its
/// health once more.
pub fn wait_for_ready(port: u16, elapsed: Duration, timeout: Duration) -> (check: Result<
    HealthCheck,
    Error,
>)
    ensures
        check is Ok <==> crate::time::nanoseconds(elapsed) < crate::time::nanoseconds(timeout),
        check matches Ok(c) ==> c@ == health_check(port),
        check matches Err(e) ==> e@ == startup_timeout(timeout),
        check matches Ok(c) ==> {
            &&& c.method is Get
            &&& c.url@ == "http://"@ + ("127.0.0.1:"@ + crate::text::decimal(port as nat)) + "/"@
                + "rc/noop"@
            &&& crate::time::nanoseconds(c.timeout) == 2_000_000_000
        },
        check matches Err(e) ==> (e matches Error::StartupTimeout { seconds } && seconds
            == crate::time::nanoseconds(timeout) / 1_000_000_000),
{
    if is_over(elapsed, timeout) {
        Err(Error::StartupTimeout { seconds: timeout.as_secs() })
    } else {
        Ok(
            HealthCheck {
                method: Method::Get,
                url: url_text(port, "rc/noop"),
                timeout: Duration::from_secs(2),
            },
        )
    }
}

/// A daemon is asked to shut down before it is killed: first the request, then a moment to
/// act on it, then the kill and the wait for its end, whatever came of the request and of
/// the rest.
pub proof fn daemon_is_asked_before_it_is_killed(
    port: u16,
    posted: bool,
    slept: bool,
    killed: bool,
    ended: bool,
)
    ensures
        ({
            let (s0, a0) = first_quit(running_on(port));
            let (s1, a1) = after_quit(s0, posted);
            let (s2, a2) = after_quit(s1, slept);
            let (s3, a3) = after_quit(s2, killed);
            let (s4, a4) = after_quit(s3, ended);
            &&& a0 == (QuitActionView::Send {
                method: Method::Post,
                url: crate::client::rc_url(port, "core/quit"@),
                timeout: 3 * 1_000_000_000,
            })
            &&& a1 == QuitActionView::Sleep(500 * 1_000_000)
            &&& a2 is Kill
            &&& a3 is Wait
            &&& a4 is Finish
            &&& s4 is Finished
        }),
{
}

/// A daemon is stopped once: stopping it again sends nothing and kills nothing, and leaves
/// it as it is. Its port stays the same throughout.
pub proof fn daemon_is_stopped_once(daemon: DaemonProcess)
    ensures
        first_quit(told_to_stop(daemon)) == (QuitStep::Finished, QuitActionView::Finish),
        told_to_stop(told_to_stop(daemon)) == told_to_stop(daemon),
        told_to_stop(daemon).port == daemon.port,
{
}

/// The client talks to the address that the daemon was told to listen on, and that is a
/// loopback address.
pub proof fn client_and_daemon_meet_on_loopback(port: u16, config: Seq<char>, path: Seq<char>)
    ensures
        daemon_args(port, config)[1] == "--rc-addr"@,
        crate::client::rc_url(port, path) == "http://"@ + daemon_args(port, config)[2] + "/"@
            + path,
        "127.0.0.1:"@.is_prefix_of(daemon_args(port, config)[2]),
{
    let address = daemon_args(port, config)[2];
    assert(address == crate::client::loopback(port));
    assert(address.subrange(0, "127.0.0.1:"@.len() as int) == "127.0.0.1:"@);
}

/// The daemon is run with six arguments: as `rcd`, on the loopback address of its port,
/// without authentication, and with the config file, whose path stands right behind
/// `--config` as it is, character by character.
pub proof fn daemon_is_told_its_config_file(port: u16, config: Seq<char>)
    ensures
        daemon_args(port, config).len() == 6,
        daemon_args(port, config)[0] == "rcd"@,
        daemon_args(port, config)[1] == "--rc-addr"@,
        daemon_args(port, config)[2] == "127.0.0.1:"@ + crate::text::decimal(port as nat),
        daemon_args(port, config)[3] == "--rc-no-auth"@,
        daemon_args(port, config)[4] == "--config"@,
        daemon_args(port, config)[5].len() == config.len(),
        forall|i: int|
            0 <= i < config.len() ==> #[trigger] daemon_args(port, config)[5][i] == config[i],
{
}

/// The daemon is asked for its health by a GET of `/rc/noop` on its loopback port, and given
/// two seconds to answer; a start that takes too long is reported in whole seconds.
pub proof fn health_is_asked_on_loopback(port: u16, timeout: Duration)
    requires
        crate::time::nanoseconds(timeout) / 1_000_000_000 <= u64::MAX,
    ensures
        health_check(port).method is Get,
        health_check(port).url == "http://"@ + ("127.0.0.1:"@ + crate::text::decimal(port as nat))
            + "/"@ + "rc/noop"@,
        health_check(port).timeout == 2_000_000_000,
        startup_timeout(timeout) matches crate::error::ErrorView::StartupTimeout { seconds }
            && seconds == crate::time::nanoseconds(timeout) / 1_000_000_000,
        running_on(port).port == port,
        running_on(port).running,
{
}

/// Views of actions and checks keep all of them.
pub proof fn quit_actions_are_viewed_whole(action: QuitAction, check: HealthCheck)
    ensures
        action matches QuitAction::Send { method, url, timeout } ==> action@
            == (QuitActionView::Send {
            method,
            url: url@,
            timeout: crate::time::nanoseconds(timeout),
        }),
        action matches QuitAction::Sleep(span) ==> action@ == QuitActionView::Sleep(
            crate::time::nanoseconds(span),
        ),
        action is Kill <==> action@ is Kill,
        action is Wait <==> action@ is Wait,
        action is Finish <==> action@ is Finish,
        check@.method == check.method,
        check@.url == check.url@,
        check@.timeout == crate::time::nanoseconds(check.timeout),
{
}

} // verus!

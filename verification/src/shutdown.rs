//! The shutdown escalation ladder, and the plain values it sends:
//! the graceful-shutdown HTTP request and the `taskkill` arguments.
//!
//! Stopping the server escalates through three rungs: ask the server
//! to stop over HTTP and wait briefly; if it has not exited, send the
//! platform's termination signal (SIGTERM, or `taskkill` on Windows)
//! and wait again; if it still runs, force-kill it. The shell binary
//! performs each action and reports what happened as a [`KillEvent`];
//! [`ShutdownLadder::kill_server`] decides the next action.

use crate::decimal::{decimal_of, u32_decimal};
use crate::platform::Platform;
use vstd::prelude::*;

verus! {

/// How long the ladder waits for an exit after the graceful HTTP
/// request, in milliseconds.
pub const GRACEFUL_WAIT_MS: u64 = 2000;

/// How long the ladder waits for an exit after SIGTERM, in
/// milliseconds.
pub const TERM_WAIT_UNIX_MS: u64 = 3000;

/// How long the ladder waits for an exit after `taskkill`, in
/// milliseconds.
pub const TERM_WAIT_WINDOWS_MS: u64 = 2000;

/// Where the shutdown ladder stands.
#[derive(Clone, Copy, Debug, PartialEq, Eq, Structural)]
pub enum KillPhase {
    /// Nothing has been done yet.
    Start,
    /// The graceful HTTP request went out; waiting for the exit.
    GracefulWait,
    /// The termination signal went out; waiting for the exit.
    TermWait,
    /// The process is being force-killed.
    Forcing,
    /// The ladder is done; the process is gone or was never there.
    Finished,
}

/// What the shell observed since the last decision.
#[derive(Clone, Copy, Debug, PartialEq, Eq, Structural)]
pub enum KillEvent {
    /// Shutdown was requested and a child process is registered.
    Begin,
    /// Shutdown was requested but no child process is registered.
    NoProcess,
    /// The child process has exited.
    Exited,
    /// The wait window passed without an exit.
    TimedOut,
}

/// What the shell must do next.
#[derive(Clone, Copy, Debug, PartialEq, Eq, Structural)]
pub enum KillAction {
    /// Nothing; the ladder is done or the event changed nothing.
    DoNothing,
    /// Send the graceful-shutdown HTTP request, then wait up to
    /// `wait_ms` for the process to exit.
    RequestGraceful { wait_ms: u64 },
    /// Send the platform's termination signal (SIGTERM, or a
    /// non-forced `taskkill` of the process tree on Windows), then
    /// wait up to `wait_ms` for the process to exit.
    SendTermSignal { wait_ms: u64 },
    /// Force-kill the process (on Windows: a forced `taskkill`
    /// first), then wait for it unconditionally.
    ForceKill,
    /// Record the server as `Stopped`.
    MarkStopped,
}

/// The phase the ladder moves to on an event.
pub open spec fn kill_next_phase(phase: KillPhase, event: KillEvent) -> KillPhase {
    match phase {
        KillPhase::Start => match event {
            KillEvent::Begin => KillPhase::GracefulWait,
            KillEvent::NoProcess => KillPhase::Finished,
            _ => KillPhase::Start,
        },
        KillPhase::GracefulWait => match event {
            KillEvent::Exited => KillPhase::Finished,
            KillEvent::TimedOut => KillPhase::TermWait,
            _ => KillPhase::GracefulWait,
        },
        KillPhase::TermWait => match event {
            KillEvent::Exited => KillPhase::Finished,
            KillEvent::TimedOut => KillPhase::Forcing,
            _ => KillPhase::TermWait,
        },
        KillPhase::Forcing => match event {
            KillEvent::Exited => KillPhase::Finished,
            KillEvent::TimedOut => KillPhase::Finished,
            _ => KillPhase::Forcing,
        },
        KillPhase::Finished => KillPhase::Finished,
    }
}

/// The wait window after the termination signal, per platform.
pub open spec fn term_wait_ms(platform: Platform) -> u64 {
    match platform {
        Platform::Windows => TERM_WAIT_WINDOWS_MS,
        Platform::Unix => TERM_WAIT_UNIX_MS,
    }
}

/// The action the ladder orders on an event.
pub open spec fn kill_action_spec(platform: Platform, phase: KillPhase, event: KillEvent) -> KillAction {
    match phase {
        KillPhase::Start => match event {
            KillEvent::Begin => KillAction::RequestGraceful { wait_ms: GRACEFUL_WAIT_MS },
            _ => KillAction::DoNothing,
        },
        KillPhase::GracefulWait => match event {
            KillEvent::Exited => KillAction::MarkStopped,
            KillEvent::TimedOut => KillAction::SendTermSignal { wait_ms: term_wait_ms(platform) },
            _ => KillAction::DoNothing,
        },
        KillPhase::TermWait => match event {
            KillEvent::Exited => KillAction::MarkStopped,
            KillEvent::TimedOut => KillAction::ForceKill,
            _ => KillAction::DoNothing,
        },
        KillPhase::Forcing => match event {
            KillEvent::Exited => KillAction::MarkStopped,
            KillEvent::TimedOut => KillAction::MarkStopped,
            _ => KillAction::DoNothing,
        },
        KillPhase::Finished => KillAction::DoNothing,
    }
}

/// The shutdown escalation ladder for one child process.
pub struct ShutdownLadder {
    pub platform: Platform,
    pub phase: KillPhase,
}

impl ShutdownLadder {
    /// A fresh ladder, before any shutdown work.
    pub fn new(platform: Platform) -> (l: Self)
        ensures
            l.platform == platform,
            l.phase is Start,
    {
        ShutdownLadder { platform, phase: KillPhase::Start }
    }

    /// One decision step of the shutdown escalation: moves the ladder
    /// to its next phase and orders the next action. The shell calls
    /// this on the quit command and again after each action, until
    /// the ladder is `Finished`.
    pub fn kill_server(&mut self, event: KillEvent) -> (a: KillAction)
        ensures
            final(self).platform == old(self).platform,
            final(self).phase == kill_next_phase(old(self).phase, event),
            a == kill_action_spec(old(self).platform, old(self).phase, event),
    {
        let action = match self.phase {
            KillPhase::Start => match event {
                KillEvent::Begin => {
                    self.phase = KillPhase::GracefulWait;
                    KillAction::RequestGraceful { wait_ms: GRACEFUL_WAIT_MS }
                },
                KillEvent::NoProcess => {
                    self.phase = KillPhase::Finished;
                    KillAction::DoNothing
                },
                _ => KillAction::DoNothing,
            },
            KillPhase::GracefulWait => match event {
                KillEvent::Exited => {
                    self.phase = KillPhase::Finished;
                    KillAction::MarkStopped
                },
                KillEvent::TimedOut => {
                    self.phase = KillPhase::TermWait;
                    let wait_ms = match self.platform {
                        Platform::Windows => TERM_WAIT_WINDOWS_MS,
                        Platform::Unix => TERM_WAIT_UNIX_MS,
                    };
                    KillAction::SendTermSignal { wait_ms }
                },
                _ => KillAction::DoNothing,
            },
            KillPhase::TermWait => match event {
                KillEvent::Exited => {
                    self.phase = KillPhase::Finished;
                    KillAction::MarkStopped
                },
                KillEvent::TimedOut => {
                    self.phase = KillPhase::Forcing;
                    KillAction::ForceKill
                },
                _ => KillAction::DoNothing,
            },
            KillPhase::Forcing => match event {
                KillEvent::Exited => {
                    self.phase = KillPhase::Finished;
                    KillAction::MarkStopped
                },
                KillEvent::TimedOut => {
                    self.phase = KillPhase::Finished;
                    KillAction::MarkStopped
                },
                _ => KillAction::DoNothing,
            },
            KillPhase::Finished => KillAction::DoNothing,
        };
        action
    }
}

/// How far up the escalation a phase stands.
pub open spec fn phase_rank(phase: KillPhase) -> int {
    match phase {
        KillPhase::Start => 0,
        KillPhase::GracefulWait => 1,
        KillPhase::TermWait => 2,
        KillPhase::Forcing => 3,
        KillPhase::Finished => 4,
    }
}

/// The ladder never moves back down: no step returns to an earlier
/// phase, so no shutdown action is ever repeated.
pub proof fn lemma_ladder_monotone(phase: KillPhase, event: KillEvent)
    ensures
        phase_rank(kill_next_phase(phase, event)) >= phase_rank(phase),
{
}

/// The ladder makes progress: once an action's outcome is known —
/// the process exited or the wait window passed — the ladder moves
/// strictly up, so a driven shutdown always reaches `Finished`.
pub proof fn lemma_ladder_progress(phase: KillPhase, event: KillEvent)
    requires
        !(phase is Start),
        !(phase is Finished),
        event is Exited || event is TimedOut,
    ensures
        phase_rank(kill_next_phase(phase, event)) > phase_rank(phase),
{
}

/// Force-kill is the last resort: the ladder orders it only after
/// the graceful request and the termination signal have both been
/// sent and have both timed out.
pub proof fn lemma_force_kill_is_last(platform: Platform, phase: KillPhase, event: KillEvent)
    ensures
        kill_action_spec(platform, phase, event) is ForceKill ==> phase is TermWait && event
            is TimedOut,
{
}

/// A finished ladder stays finished and orders nothing more.
pub proof fn lemma_finished_absorbing(platform: Platform, event: KillEvent)
    ensures
        kill_next_phase(KillPhase::Finished, event) == KillPhase::Finished,
        kill_action_spec(platform, KillPhase::Finished, event) == KillAction::DoNothing,
{
}

/// The path of the graceful-shutdown endpoint.
pub fn shutdown_path() -> (r: &'static str)
    ensures
        r@ == "/api/system/shutdown"@,
{
    "/api/system/shutdown"
}

/// The host the server listens on.
pub fn server_host() -> (r: &'static str)
    ensures
        r@ == "127.0.0.1"@,
{
    "127.0.0.1"
}

/// The port the server listens on.
pub const SERVER_PORT: u16 = 3000;

/// The bytes of an HTTP `POST` with an empty body to `path` on
/// `host:port`, asking the peer to close the connection afterwards.
pub open spec fn http_post_spec(path: Seq<char>, host: Seq<char>, port: Seq<char>) -> Seq<char> {
    "POST "@ + path + " HTTP/1.1\r\nHost: "@ + host + ":"@ + port
        + "\r\nContent-Length: 0\r\nConnection: close\r\n\r\n"@
}

/// The graceful-shutdown request: an empty `POST` to the shutdown
/// endpoint of the local server.
pub fn shutdown_request() -> (r: String)
    ensures
        r@ == http_post_spec("/api/system/shutdown"@, "127.0.0.1"@, decimal_of(SERVER_PORT as nat)),
{
    let mut request = String::from_str("POST ");
    request.append(shutdown_path());
    request.append(" HTTP/1.1\r\nHost: ");
    request.append(server_host());
    request.append(":");
    let port = u32_decimal(SERVER_PORT as u32);
    request.append(port.as_str());
    request.append("\r\nContent-Length: 0\r\nConnection: close\r\n\r\n");
    proof {
        assert(request@ =~= http_post_spec(
            "/api/system/shutdown"@,
            "127.0.0.1"@,
            decimal_of(SERVER_PORT as nat),
        ));
    }
    request
}

/// The arguments of the `taskkill` command that terminates the
/// server's process tree on Windows: `/PID <pid> /T`, with `/F`
/// appended for a forced kill.
pub fn taskkill_args(pid: u32, force: bool) -> (args: Vec<String>)
    ensures
        args@.len() == (if force { 4int } else { 3int }),
        args@[0]@ == "/PID"@,
        args@[1]@ == decimal_of(pid as nat),
        args@[2]@ == "/T"@,
        force ==> args@[3]@ == "/F"@,
{
    let mut args: Vec<String> = Vec::new();
    args.push(String::from_str("/PID"));
    args.push(u32_decimal(pid));
    args.push(String::from_str("/T"));
    if force {
        args.push(String::from_str("/F"));
    }
    args
}

} // verus!

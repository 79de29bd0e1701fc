//! Status bookkeeping for the supervised server process, and the
//! decisions behind the monitor thread and the exit-wait loop.
//!
//! The shell binary owns the actual child process. It reports each
//! observation of that process here as a [`ProcessPoll`], and this
//! module decides what to do next and which status to record.

use crate::decimal::{i32_decimal, signed_decimal_of};
use crate::status::{menu_label, menu_label_spec, ServerStatus};
use vstd::prelude::*;

verus! {

/// How long the monitor thread sleeps between polls of the child
/// process, in milliseconds.
pub const MONITOR_POLL_INTERVAL_MS: u64 = 1000;

/// How long the exit-wait loop sleeps between polls of the child
/// process, in milliseconds.
pub const WAIT_POLL_INTERVAL_MS: u64 = 50;

/// One observation of the child process.
pub enum ProcessPoll {
    /// The process has exited. `code` is its exit code; `None` means
    /// it was terminated by a signal.
    Exited { code: Option<i32> },
    /// The process is still running.
    StillRunning,
    /// Asking the operating system about the process failed.
    PollError,
}

/// The record the shell keeps of the server: its current status.
pub struct SupervisorState {
    pub status: ServerStatus,
}

/// Holds when `status` is what the shell records for a process that
/// exited with `code`: a clean exit is `Stopped`; any other exit is
/// `Failed` with the exit code, or with `"terminated"` when the
/// process was ended by a signal.
pub open spec fn is_exit_status(code: Option<i32>, status: ServerStatus) -> bool {
    match code {
        Some(c) => if c == 0 {
            status is Stopped
        } else {
            status matches ServerStatus::Failed(reason) && reason@ == "exit code "@
                + signed_decimal_of(c as int)
        },
        None => status matches ServerStatus::Failed(reason) && reason@ == "terminated"@,
    }
}

/// The status recorded for a server process that exited with `code`.
pub fn exit_status(code: Option<i32>) -> (status: ServerStatus)
    ensures
        is_exit_status(code, status),
{
    match code {
        Some(c) => {
            if c == 0 {
                ServerStatus::Stopped
            } else {
                let mut reason = String::from_str("exit code ");
                let rendered = i32_decimal(c);
                reason.append(rendered.as_str());
                ServerStatus::Failed(reason)
            }
        },
        None => ServerStatus::Failed(String::from_str("terminated")),
    }
}

/// What the monitor thread does after one poll of the child process.
pub enum MonitorDirective {
    /// No child process is registered: the monitor thread ends.
    StopMonitoring,
    /// The child still runs, or the poll failed: sleep and poll again.
    KeepPolling,
    /// The child exited: record this status and end the thread.
    ReportExit(ServerStatus),
}

/// Decides one round of the monitor thread. `has_child` says whether
/// a child process is still registered with the shell.
pub fn monitor_decision(has_child: bool, poll: &ProcessPoll) -> (d: MonitorDirective)
    ensures
        !has_child ==> d is StopMonitoring,
        has_child && poll is StillRunning ==> d is KeepPolling,
        has_child && poll is PollError ==> d is KeepPolling,
        has_child ==> (poll matches ProcessPoll::Exited { code } ==> (d matches
            MonitorDirective::ReportExit(status) && is_exit_status(*code, status))),
{
    if !has_child {
        return MonitorDirective::StopMonitoring;
    }
    match poll {
        ProcessPoll::Exited { code } => MonitorDirective::ReportExit(exit_status(*code)),
        ProcessPoll::StillRunning => MonitorDirective::KeepPolling,
        ProcessPoll::PollError => MonitorDirective::KeepPolling,
    }
}

/// What the exit-wait loop does after one poll of the child process.
#[derive(Debug, PartialEq, Eq, Structural)]
pub enum WaitDirective {
    /// Stop waiting: the process has exited.
    Exited,
    /// Stop waiting: the timeout has passed, or the poll failed.
    GiveUp,
    /// Sleep this many milliseconds, then poll again.
    Sleep(u64),
}

/// Decides one round of the bounded wait for the child process to
/// exit: give up once `elapsed_ms` reaches `timeout_ms` or when a
/// poll fails, stop successfully when the process is gone, and sleep
/// briefly between polls otherwise.
pub fn wait_decision(elapsed_ms: u64, timeout_ms: u64, poll: &ProcessPoll) -> (d: WaitDirective)
    ensures
        elapsed_ms >= timeout_ms ==> d is GiveUp,
        elapsed_ms < timeout_ms ==> match *poll {
            ProcessPoll::Exited { .. } => d is Exited,
            ProcessPoll::StillRunning => d == WaitDirective::Sleep(WAIT_POLL_INTERVAL_MS),
            ProcessPoll::PollError => d is GiveUp,
        },
{
    if elapsed_ms >= timeout_ms {
        return WaitDirective::GiveUp;
    }
    match poll {
        ProcessPoll::Exited { .. } => WaitDirective::Exited,
        ProcessPoll::StillRunning => WaitDirective::Sleep(WAIT_POLL_INTERVAL_MS),
        ProcessPoll::PollError => WaitDirective::GiveUp,
    }
}

impl SupervisorState {
    /// A fresh shell starts with the server in `Starting`.
    pub fn new() -> (s: Self)
        ensures
            s.status is Starting,
    {
        SupervisorState { status: ServerStatus::Starting }
    }

    /// Records a new server status and returns the tray-menu label
    /// that now describes it.
    pub fn set_server_status(&mut self, status: ServerStatus) -> (label: String)
        ensures
            final(self).status == status,
            label@ == menu_label_spec(status),
    {
        let label = menu_label(&status);
        self.status = status;
        label
    }

    /// The tray-menu label for the current status, used when the
    /// status menu item is first registered.
    pub fn current_label(&self) -> (label: String)
        ensures
            label@ == menu_label_spec(self.status),
    {
        menu_label(&self.status)
    }
}

} // verus!

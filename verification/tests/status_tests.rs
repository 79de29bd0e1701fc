use jamra_shell::decimal::{i32_decimal, u32_decimal};
use jamra_shell::status::{menu_label, status_text, ServerStatus};
use jamra_shell::supervisor::{
    exit_status, monitor_decision, wait_decision, MonitorDirective, ProcessPoll, SupervisorState,
    WaitDirective,
};

#[test]
fn status_text_of_every_variant() {
    assert_eq!(status_text(&ServerStatus::Starting), "Starting...");
    assert_eq!(status_text(&ServerStatus::Running), "Running");
    assert_eq!(status_text(&ServerStatus::Stopped), "Stopped");
    assert_eq!(
        status_text(&ServerStatus::Failed("spawn error".to_string())),
        "Failed (spawn error)"
    );
    assert_eq!(status_text(&ServerStatus::DevManaged), "Managed by pnpm dev");
}

#[test]
fn menu_label_prefixes_the_status() {
    assert_eq!(menu_label(&ServerStatus::Running), "Server: Running");
    assert_eq!(
        menu_label(&ServerStatus::Failed("exit code 3".to_string())),
        "Server: Failed (exit code 3)"
    );
}

#[test]
fn decimal_rendering() {
    assert_eq!(u32_decimal(0), "0");
    assert_eq!(u32_decimal(7), "7");
    assert_eq!(u32_decimal(3000), "3000");
    assert_eq!(u32_decimal(u32::MAX), "4294967295");
    assert_eq!(i32_decimal(0), "0");
    assert_eq!(i32_decimal(-1), "-1");
    assert_eq!(i32_decimal(42), "42");
    assert_eq!(i32_decimal(i32::MIN), "-2147483648");
}

#[test]
fn clean_exit_is_stopped() {
    assert!(matches!(exit_status(Some(0)), ServerStatus::Stopped));
}

#[test]
fn nonzero_exit_is_failed_with_the_code() {
    match exit_status(Some(3)) {
        ServerStatus::Failed(reason) => assert_eq!(reason, "exit code 3"),
        _ => panic!("expected a failure status"),
    }
    match exit_status(Some(-5)) {
        ServerStatus::Failed(reason) => assert_eq!(reason, "exit code -5"),
        _ => panic!("expected a failure status"),
    }
}

#[test]
fn signal_exit_is_failed_terminated() {
    match exit_status(None) {
        ServerStatus::Failed(reason) => assert_eq!(reason, "terminated"),
        _ => panic!("expected a failure status"),
    }
}

#[test]
fn monitor_stops_without_a_child() {
    assert!(matches!(
        monitor_decision(false, &ProcessPoll::StillRunning),
        MonitorDirective::StopMonitoring
    ));
}

#[test]
fn monitor_keeps_polling_a_live_child() {
    assert!(matches!(
        monitor_decision(true, &ProcessPoll::StillRunning),
        MonitorDirective::KeepPolling
    ));
    assert!(matches!(
        monitor_decision(true, &ProcessPoll::PollError),
        MonitorDirective::KeepPolling
    ));
}

#[test]
fn monitor_reports_an_exit() {
    match monitor_decision(true, &ProcessPoll::Exited { code: Some(0) }) {
        MonitorDirective::ReportExit(status) => {
            assert!(matches!(status, ServerStatus::Stopped))
        }
        _ => panic!("expected an exit report"),
    }
    match monitor_decision(true, &ProcessPoll::Exited { code: Some(137) }) {
        MonitorDirective::ReportExit(ServerStatus::Failed(reason)) => {
            assert_eq!(reason, "exit code 137")
        }
        _ => panic!("expected a failure report"),
    }
}

#[test]
fn wait_gives_up_at_the_timeout() {
    assert_eq!(
        wait_decision(2000, 2000, &ProcessPoll::StillRunning),
        WaitDirective::GiveUp
    );
    assert_eq!(
        wait_decision(2500, 2000, &ProcessPoll::Exited { code: Some(0) }),
        WaitDirective::GiveUp
    );
}

#[test]
fn wait_sleeps_while_the_child_runs() {
    assert_eq!(
        wait_decision(0, 2000, &ProcessPoll::StillRunning),
        WaitDirective::Sleep(50)
    );
    assert_eq!(
        wait_decision(1999, 2000, &ProcessPoll::StillRunning),
        WaitDirective::Sleep(50)
    );
}

#[test]
fn wait_ends_on_exit_or_error() {
    assert_eq!(
        wait_decision(100, 2000, &ProcessPoll::Exited { code: None }),
        WaitDirective::Exited
    );
    assert_eq!(
        wait_decision(100, 2000, &ProcessPoll::PollError),
        WaitDirective::GiveUp
    );
}

#[test]
fn supervisor_starts_starting_and_records_updates() {
    let mut state = SupervisorState::new();
    assert!(matches!(state.status, ServerStatus::Starting));
    assert_eq!(state.current_label(), "Server: Starting...");
    let label = state.set_server_status(ServerStatus::Running);
    assert_eq!(label, "Server: Running");
    assert!(matches!(state.status, ServerStatus::Running));
    assert_eq!(state.current_label(), "Server: Running");
}

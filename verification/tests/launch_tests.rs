use jamra_shell::launch::{
    decision_status, missing_bundle_error, path_join, plan_launch, spawn_result_status,
    LaunchDecision, LaunchInputs, LaunchPlan,
};
use jamra_shell::platform::Platform;
use jamra_shell::status::ServerStatus;

fn unix_inputs() -> LaunchInputs {
    LaunchInputs {
        debug: false,
        platform: Platform::Unix,
        resource_dir: "/opt/app/resources".to_string(),
        log_dir: "/home/user/.local/share/app/logs".to_string(),
        data_dir: "/home/user/.local/share/app/data".to_string(),
        bundled_node_exists: true,
        server_entry_exists: true,
        node_modules_exists: true,
    }
}

fn env_value(plan: &LaunchPlan, name: &str) -> String {
    for var in plan.env.iter() {
        if var.name == name {
            return var.value.clone();
        }
    }
    panic!("environment variable not planned");
}

#[test]
fn path_join_uses_the_platform_separator() {
    assert_eq!(path_join("/opt/app", "bin", Platform::Unix), "/opt/app/bin");
    assert_eq!(path_join("C:\\app", "bin", Platform::Windows), "C:\\app\\bin");
}

#[test]
fn dev_build_leaves_the_server_managed() {
    let mut inputs = unix_inputs();
    inputs.debug = true;
    let decision = plan_launch(&inputs);
    assert!(matches!(decision, LaunchDecision::DevManaged));
    assert!(matches!(decision_status(&decision), ServerStatus::DevManaged));
}

#[test]
fn missing_entry_fails_the_launch() {
    let mut inputs = unix_inputs();
    inputs.server_entry_exists = false;
    let decision = plan_launch(&inputs);
    assert!(matches!(decision, LaunchDecision::MissingBundle));
    match decision_status(&decision) {
        ServerStatus::Failed(reason) => assert_eq!(reason, "missing bundle"),
        _ => panic!("expected a failure status"),
    }
}

#[test]
fn unix_plan_runs_the_bundled_node_on_the_entry_script() {
    let decision = plan_launch(&unix_inputs());
    let plan = match decision {
        LaunchDecision::Launch(plan) => plan,
        _ => panic!("expected a launch plan"),
    };
    assert_eq!(plan.program, "/opt/app/resources/node-runtime/node");
    assert_eq!(plan.entry_arg, "/opt/app/resources/server-bundle/dist/index.js");
    assert_eq!(plan.working_dir, "/opt/app/resources/server-bundle");
    assert!(matches!(decision_status(&LaunchDecision::Launch(plan)), ServerStatus::Starting));
}

#[test]
fn plan_falls_back_to_system_node() {
    let mut inputs = unix_inputs();
    inputs.bundled_node_exists = false;
    match plan_launch(&inputs) {
        LaunchDecision::Launch(plan) => assert_eq!(plan.program, "node"),
        _ => panic!("expected a launch plan"),
    }
}

#[test]
fn windows_plan_picks_node_exe() {
    let mut inputs = unix_inputs();
    inputs.platform = Platform::Windows;
    inputs.resource_dir = "C:\\app\\resources".to_string();
    match plan_launch(&inputs) {
        LaunchDecision::Launch(plan) => {
            assert_eq!(plan.program, "C:\\app\\resources\\node-runtime\\node.exe");
            assert_eq!(plan.entry_arg, "C:\\app\\resources\\server-bundle\\dist\\index.js");
        }
        _ => panic!("expected a launch plan"),
    }
}

#[test]
fn planned_environment_wires_the_server() {
    let inputs = unix_inputs();
    let plan = match plan_launch(&inputs) {
        LaunchDecision::Launch(plan) => plan,
        _ => panic!("expected a launch plan"),
    };
    assert_eq!(plan.env.len(), 12);
    assert_eq!(env_value(&plan, "PORT"), "3000");
    assert_eq!(env_value(&plan, "SERVER_HOST"), "127.0.0.1");
    assert_eq!(env_value(&plan, "SERVER_BASE_URL"), "http://127.0.0.1:3000");
    assert_eq!(env_value(&plan, "ELECTRON_PACKAGED"), "true");
    assert_eq!(env_value(&plan, "RESOURCES_PATH"), "/opt/app/resources");
    assert_eq!(env_value(&plan, "DB_PATH"), "/home/user/.local/share/app/data");
    assert_eq!(env_value(&plan, "JAMRA_LOG_DIR"), "/home/user/.local/share/app/logs");
    assert_eq!(env_value(&plan, "JAMRA_LOG_FILE"), "server");
    assert_eq!(env_value(&plan, "JAMRA_LOG_LEVEL"), "info");
    assert_eq!(env_value(&plan, "JAMRA_ALLOW_SHUTDOWN"), "true");
    assert_eq!(env_value(&plan, "NODE_ENV"), "production");
    assert_eq!(
        env_value(&plan, "NODE_PATH"),
        "/opt/app/resources/server-bundle/node_modules"
    );
    // The environment is listed in the order the server is started
    // with; NODE_PATH comes last.
    assert_eq!(plan.env[0].name, "PORT");
    assert_eq!(plan.env[11].name, "NODE_PATH");
}

#[test]
fn node_path_is_left_out_without_node_modules() {
    let mut inputs = unix_inputs();
    inputs.node_modules_exists = false;
    match plan_launch(&inputs) {
        LaunchDecision::Launch(plan) => {
            assert_eq!(plan.env.len(), 11);
            assert!(plan.env.iter().all(|var| var.name != "NODE_PATH"));
        }
        _ => panic!("expected a launch plan"),
    }
}

#[test]
fn spawn_outcome_statuses() {
    assert!(matches!(spawn_result_status(true), ServerStatus::Running));
    match spawn_result_status(false) {
        ServerStatus::Failed(reason) => assert_eq!(reason, "spawn error"),
        _ => panic!("expected a failure status"),
    }
}

#[test]
fn missing_bundle_error_names_the_entry() {
    assert_eq!(
        missing_bundle_error("/opt/app/resources/server-bundle/dist/index.js"),
        "Server entry point not found at /opt/app/resources/server-bundle/dist/index.js. \
         Run 'pnpm bundle:server'."
    );
}

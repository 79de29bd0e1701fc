//! Planning the server launch: which program to run, from which
//! directory, and with which environment.
//!
//! The shell binary gathers the platform directories and checks which
//! bundle files exist; [`plan_launch`] turns those plain facts into a
//! complete launch plan, or decides that no launch is wanted (a dev
//! build) or possible (a missing bundle). The shell then spawns the
//! process exactly as the plan says.

use crate::platform::Platform;
use crate::status::ServerStatus;
use vstd::prelude::*;

verus! {

/// The path separator of a platform.
pub open spec fn separator_spec(platform: Platform) -> Seq<char> {
    match platform {
        Platform::Windows => "\\"@,
        Platform::Unix => "/"@,
    }
}

/// `base` extended by one relative component.
pub open spec fn join_spec(base: Seq<char>, component: Seq<char>, platform: Platform) -> Seq<
    char,
> {
    base + separator_spec(platform) + component
}

/// Appends one relative component to a path, with the platform's
/// separator.
pub fn path_join(base: &str, component: &str, platform: Platform) -> (r: String)
    ensures
        r@ == join_spec(base@, component@, platform),
{
    let mut path = base.to_owned();
    match platform {
        Platform::Windows => path.append("\\"),
        Platform::Unix => path.append("/"),
    }
    path.append(component);
    path
}

/// Holds when `shorter` is what simplifying `original` may return:
/// the path itself, or — for a Windows verbatim path — the path with
/// its four-character `\\?\` prefix removed.
pub open spec fn simplified_rel(original: Seq<char>, shorter: Seq<char>) -> bool {
    shorter == original || (original.len() >= 4 && shorter == original.skip(4))
}

/// Relies on dunce::simplified: it returns the path unchanged, or,
/// when the path is a Windows verbatim disk path that is safe to
/// strip, the path with its first four characters (`\\?\`) removed.
#[verifier::external_body]
fn simplified_path(path: &str) -> (r: String)
    ensures
        simplified_rel(path@, r@),
{
    dunce::simplified(std::path::Path::new(path)).to_string_lossy().into_owned()
}

/// What the shell learned before planning a launch: the build kind,
/// the platform directories, and which bundle files exist.
pub struct LaunchInputs {
    /// A development build: the server is already managed externally.
    pub debug: bool,
    pub platform: Platform,
    /// The application's bundled-resource directory.
    pub resource_dir: String,
    /// The directory the server should write its logs to.
    pub log_dir: String,
    /// The directory the server should keep its data in.
    pub data_dir: String,
    /// Whether the bundled Node.js runtime exists on disk.
    pub bundled_node_exists: bool,
    /// Whether the server's entry script exists on disk.
    pub server_entry_exists: bool,
    /// Whether the bundle's `node_modules` directory exists on disk.
    pub node_modules_exists: bool,
}

/// One environment variable handed to the server process.
pub struct EnvVar {
    pub name: String,
    pub value: String,
}

/// Everything the shell needs to spawn the server process.
pub struct LaunchPlan {
    /// The program to run: the bundled Node.js runtime, or `node`
    /// from the system path.
    pub program: String,
    /// The single argument: the server's entry script.
    pub entry_arg: String,
    /// The working directory: the server bundle.
    pub working_dir: String,
    pub env: Vec<EnvVar>,
}

/// The outcome of launch planning.
pub enum LaunchDecision {
    /// A development build: the server is managed externally, and
    /// nothing is spawned.
    DevManaged,
    /// The server's entry script is missing: startup must fail.
    MissingBundle,
    /// Spawn the server as the plan says.
    Launch(LaunchPlan),
}

/// The server bundle directory.
pub open spec fn bundle_dir_spec(inputs: LaunchInputs) -> Seq<char> {
    join_spec(inputs.resource_dir@, "server-bundle"@, inputs.platform)
}

/// The server's entry script, inside the bundle.
pub open spec fn server_entry_spec(inputs: LaunchInputs) -> Seq<char> {
    join_spec(
        join_spec(bundle_dir_spec(inputs), "dist"@, inputs.platform),
        "index.js"@,
        inputs.platform,
    )
}

/// The bundle's `node_modules` directory.
pub open spec fn node_modules_spec(inputs: LaunchInputs) -> Seq<char> {
    join_spec(bundle_dir_spec(inputs), "node_modules"@, inputs.platform)
}

/// The bundled Node.js binary (`node.exe` on Windows).
pub open spec fn bundled_node_spec(inputs: LaunchInputs) -> Seq<char> {
    join_spec(
        join_spec(inputs.resource_dir@, "node-runtime"@, inputs.platform),
        if inputs.platform is Windows {
            "node.exe"@
        } else {
            "node"@
        },
        inputs.platform,
    )
}

/// Holds when `env` is exactly the environment the server process is
/// started with.
pub open spec fn env_ok(inputs: LaunchInputs, env: Seq<EnvVar>) -> bool {
    &&& env.len() == (if inputs.node_modules_exists { 12int } else { 11int })
    &&& env[0].name@ == "PORT"@ && env[0].value@ == "3000"@
    &&& env[1].name@ == "SERVER_HOST"@ && env[1].value@ == "127.0.0.1"@
    &&& env[2].name@ == "SERVER_BASE_URL"@ && env[2].value@ == "http://127.0.0.1:3000"@
    &&& env[3].name@ == "ELECTRON_PACKAGED"@ && env[3].value@ == "true"@
    &&& env[4].name@ == "RESOURCES_PATH"@ && simplified_rel(inputs.resource_dir@, env[4].value@)
    &&& env[5].name@ == "DB_PATH"@ && env[5].value@ == inputs.data_dir@
    &&& env[6].name@ == "JAMRA_LOG_DIR"@ && env[6].value@ == inputs.log_dir@
    &&& env[7].name@ == "JAMRA_LOG_FILE"@ && env[7].value@ == "server"@
    &&& env[8].name@ == "JAMRA_LOG_LEVEL"@ && env[8].value@ == (if inputs.debug {
        "debug"@
    } else {
        "info"@
    })
    &&& env[9].name@ == "JAMRA_ALLOW_SHUTDOWN"@ && env[9].value@ == "true"@
    &&& env[10].name@ == "NODE_ENV"@ && env[10].value@ == "production"@
    &&& inputs.node_modules_exists ==> env[11].name@ == "NODE_PATH"@ && env[11].value@
        == node_modules_spec(inputs)
}

/// Holds when `plan` is a faithful launch plan for `inputs`: the
/// bundled runtime when it exists and the system `node` otherwise,
/// started on the entry script, from the bundle directory, with the
/// server's environment. The program and path values are simplified
/// forms of the planned paths.
pub open spec fn plan_ok(inputs: LaunchInputs, plan: LaunchPlan) -> bool {
    &&& if inputs.bundled_node_exists {
        simplified_rel(bundled_node_spec(inputs), plan.program@)
    } else {
        plan.program@ == "node"@
    }
    &&& simplified_rel(server_entry_spec(inputs), plan.entry_arg@)
    &&& simplified_rel(bundle_dir_spec(inputs), plan.working_dir@)
    &&& env_ok(inputs, plan.env@)
}

/// Builds the environment the server process is started with.
fn build_env(inputs: &LaunchInputs) -> (env: Vec<EnvVar>)
    ensures
        env_ok(*inputs, env@),
{
    let mut env: Vec<EnvVar> = Vec::new();
    env.push(EnvVar { name: String::from_str("PORT"), value: String::from_str("3000") });
    env.push(
        EnvVar { name: String::from_str("SERVER_HOST"), value: String::from_str("127.0.0.1") },
    );
    env.push(
        EnvVar {
            name: String::from_str("SERVER_BASE_URL"),
            value: String::from_str("http://127.0.0.1:3000"),
        },
    );
    env.push(
        EnvVar { name: String::from_str("ELECTRON_PACKAGED"), value: String::from_str("true") },
    );
    env.push(
        EnvVar {
            name: String::from_str("RESOURCES_PATH"),
            value: simplified_path(inputs.resource_dir.as_str()),
        },
    );
    env.push(EnvVar { name: String::from_str("DB_PATH"), value: inputs.data_dir.clone() });
    env.push(EnvVar { name: String::from_str("JAMRA_LOG_DIR"), value: inputs.log_dir.clone() });
    env.push(
        EnvVar { name: String::from_str("JAMRA_LOG_FILE"), value: String::from_str("server") },
    );
    let level = if inputs.debug {
        String::from_str("debug")
    } else {
        String::from_str("info")
    };
    env.push(EnvVar { name: String::from_str("JAMRA_LOG_LEVEL"), value: level });
    env.push(
        EnvVar { name: String::from_str("JAMRA_ALLOW_SHUTDOWN"), value: String::from_str("true") },
    );
    env.push(EnvVar { name: String::from_str("NODE_ENV"), value: String::from_str("production") });
    if inputs.node_modules_exists {
        let bundle_dir = path_join(inputs.resource_dir.as_str(), "server-bundle", inputs.platform);
        let node_modules = path_join(bundle_dir.as_str(), "node_modules", inputs.platform);
        env.push(EnvVar { name: String::from_str("NODE_PATH"), value: node_modules });
    }
    env
}

/// Decides the launch: a development build leaves the server to its
/// external manager; a missing entry script makes startup fail; and
/// otherwise the server is spawned exactly as the returned plan says.
pub fn plan_launch(inputs: &LaunchInputs) -> (d: LaunchDecision)
    ensures
        inputs.debug ==> d is DevManaged,
        !inputs.debug && !inputs.server_entry_exists ==> d is MissingBundle,
        !inputs.debug && inputs.server_entry_exists ==> (d matches LaunchDecision::Launch(plan)
            && plan_ok(*inputs, plan)),
{
    if inputs.debug {
        return LaunchDecision::DevManaged;
    }
    if !inputs.server_entry_exists {
        return LaunchDecision::MissingBundle;
    }
    let bundle_dir = path_join(inputs.resource_dir.as_str(), "server-bundle", inputs.platform);
    let dist_dir = path_join(bundle_dir.as_str(), "dist", inputs.platform);
    let server_entry = path_join(dist_dir.as_str(), "index.js", inputs.platform);
    let program = if inputs.bundled_node_exists {
        let runtime_dir = path_join(inputs.resource_dir.as_str(), "node-runtime", inputs.platform);
        let node_name = match inputs.platform {
            Platform::Windows => "node.exe",
            Platform::Unix => "node",
        };
        let bundled_node = path_join(runtime_dir.as_str(), node_name, inputs.platform);
        simplified_path(bundled_node.as_str())
    } else {
        String::from_str("node")
    };
    let plan = LaunchPlan {
        program,
        entry_arg: simplified_path(server_entry.as_str()),
        working_dir: simplified_path(bundle_dir.as_str()),
        env: build_env(inputs),
    };
    LaunchDecision::Launch(plan)
}

/// The server status recorded for each launch decision: a dev build
/// reports `DevManaged`, a missing bundle reports a failure, and a
/// planned launch leaves the server `Starting` until the spawn is
/// attempted.
pub fn decision_status(d: &LaunchDecision) -> (status: ServerStatus)
    ensures
        d is DevManaged ==> status is DevManaged,
        d is MissingBundle ==> (status matches ServerStatus::Failed(reason) && reason@
            == "missing bundle"@),
        d is Launch ==> status is Starting,
{
    match d {
        LaunchDecision::DevManaged => ServerStatus::DevManaged,
        LaunchDecision::MissingBundle => ServerStatus::Failed(
            String::from_str("missing bundle"),
        ),
        LaunchDecision::Launch(..) => ServerStatus::Starting,
    }
}

/// The server status recorded once the spawn was attempted: the
/// server is `Running` when the process started, and `Failed` with a
/// spawn error otherwise.
pub fn spawn_result_status(spawned: bool) -> (status: ServerStatus)
    ensures
        spawned ==> status is Running,
        !spawned ==> (status matches ServerStatus::Failed(reason) && reason@ == "spawn error"@),
{
    if spawned {
        ServerStatus::Running
    } else {
        ServerStatus::Failed(String::from_str("spawn error"))
    }
}

/// The message of the error that aborts startup when the server's
/// entry script is missing.
pub fn missing_bundle_error(entry: &str) -> (r: String)
    ensures
        r@ == "Server entry point not found at "@ + entry@ + ". Run 'pnpm bundle:server'."@,
{
    let mut message = String::from_str("Server entry point not found at ");
    message.append(entry);
    message.append(". Run 'pnpm bundle:server'.");
    message
}

} // verus!

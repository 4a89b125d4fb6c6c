//! The bootstrap sequence as a state machine.
//!
//! Each step consumes the outcome of the previous outside operation and
//! decides the next one: ensure the certificate directory, check for an
//! existing pair, run the certificate tool if one is missing, read the port
//! override, create the configuration directory, write the rendered
//! configuration, and finally replace the process with the proxy. Every
//! failure other than a malformed port override is fatal and absorbs the
//! machine into its failed phase.

use vstd::prelude::*;
use crate::cert::{
    spec_tool_args, spec_generation_needed, spec_stream_text, spec_stream_view, ToolInvocation,
    cert_tool_invocation, generation_needed, tool_failure_logs,
};
use crate::config::{spec_rendered_config, render_config};
use crate::logging::{LogLine, Severity};
use crate::paths::{
    Profile, spec_ssl_dir, spec_key_path, spec_cert_path, spec_config_dir, spec_config_path,
    ssl_dir, key_path, cert_path, config_dir, config_path, https_port_var,
};
use crate::port::{spec_resolved_port, spec_port_warned, spec_colon_port, resolve_port, colon_port};

verus! {

/// The proxy the process image is replaced with.
pub const PROXY_PROGRAM: &'static str = "/sbin/nginx";

/// The fixed proxy arguments: foreground mode, logging to standard error,
/// and the explicit configuration path.
pub open spec fn spec_proxy_args() -> Seq<Seq<char>> {
    seq!["-g"@, "daemon off;"@, "-e"@, "/dev/stderr"@, "-c"@, "/etc/nginx/nginx.conf"@]
}

/// Builds the fixed proxy argument list.
pub fn proxy_args() -> (v: Vec<String>)
    ensures
        v.deep_view() == spec_proxy_args(),
{
    let mut v: Vec<String> = Vec::new();
    v.push(String::from_str("-g"));
    v.push(String::from_str("daemon off;"));
    v.push(String::from_str("-e"));
    v.push(String::from_str("/dev/stderr"));
    v.push(String::from_str("-c"));
    v.push(String::from_str("/etc/nginx/nginx.conf"));
    proof {
        assert(v.deep_view() =~~= spec_proxy_args());
    }
    v
}

/// Where the sequence stands: which outside outcome it waits for next.
#[derive(Clone, Copy, PartialEq, Eq, Structural, Debug)]
pub enum Phase {
    /// Waiting for the certificate directory to be ensured.
    AwaitDir,
    /// Waiting for the existence check of the key and certificate files.
    AwaitCertCheck,
    /// Waiting for the certificate tool to finish.
    AwaitTool,
    /// Waiting for the port override to be read from the environment.
    AwaitEnv,
    /// Waiting for the configuration directory to be created.
    AwaitConfigDir { port: u16 },
    /// Waiting for the rendered configuration to be written.
    AwaitConfigWrite { port: u16 },
    /// Waiting for the process image to be replaced by the proxy.
    AwaitExec,
    /// A fatal error occurred; the sequence is over.
    Failed,
}

/// The outcome of one outside operation, handed back to the machine.
pub enum Event {
    /// The certificate directory exists.
    DirCreated,
    /// The certificate directory could not be created.
    DirFailed { message: String },
    /// Which of the two files the existence check found.
    CertsChecked { key_exists: bool, cert_exists: bool },
    /// The certificate tool ran; each stream is `None` when not valid text.
    ToolCompleted { exit_ok: bool, stdout: Option<String>, stderr: Option<String> },
    /// The certificate tool could not be launched.
    ToolLaunchFailed { message: String },
    /// The port override, `None` when the variable is unset.
    EnvPortRead { value: Option<String> },
    /// The configuration directory exists.
    ConfigDirCreated,
    /// The configuration directory could not be created.
    ConfigDirFailed { message: String },
    /// The rendered configuration was written.
    ConfigWritten,
    /// The rendered configuration could not be written.
    ConfigWriteFailed { message: String },
    /// Replacing the process image returned, which only failure does.
    ProxyExecFailed { message: String },
}

/// The next outside operation the shell is to perform.
pub enum Action {
    /// Create the directory and all missing ancestors.
    EnsureDir { path: String },
    /// Check whether both files exist as regular files.
    CheckCerts { key_path: String, cert_path: String },
    /// Run the certificate tool synchronously, stdin closed.
    RunCertTool { invocation: ToolInvocation },
    /// Read the named environment variable.
    ReadEnvPort { name: String },
    /// Create the directory and all missing ancestors.
    CreateConfigDir { path: String },
    /// Write the contents to the path, truncating any prior content.
    WriteConfig { path: String, contents: String },
    /// Replace the process image with the program.
    ExecProxy { program: String, args: Vec<String> },
    /// Terminate with a non-zero status after logging the message as fatal.
    Abort { message: String },
    /// Nothing remains to be done.
    Stop,
}

/// The machine: the chosen path profile and the current phase.
pub struct Bootstrap {
    pub profile: Profile,
    pub phase: Phase,
}

/// One step's result: the machine after the step, the next outside
/// operation, and the diagnostic lines to emit first.
pub struct StepOutcome {
    pub state: Bootstrap,
    pub action: Action,
    pub logs: Vec<LogLine>,
}

/// Whether the machine, in this phase, expects this event.
pub open spec fn spec_event_expected(p: Phase, e: Event) -> bool {
    match (p, e) {
        (Phase::AwaitDir, Event::DirCreated) => true,
        (Phase::AwaitDir, Event::DirFailed { .. }) => true,
        (Phase::AwaitCertCheck, Event::CertsChecked { .. }) => true,
        (Phase::AwaitTool, Event::ToolCompleted { .. }) => true,
        (Phase::AwaitTool, Event::ToolLaunchFailed { .. }) => true,
        (Phase::AwaitEnv, Event::EnvPortRead { .. }) => true,
        (Phase::AwaitConfigDir { .. }, Event::ConfigDirCreated) => true,
        (Phase::AwaitConfigDir { .. }, Event::ConfigDirFailed { .. }) => true,
        (Phase::AwaitConfigWrite { .. }, Event::ConfigWritten) => true,
        (Phase::AwaitConfigWrite { .. }, Event::ConfigWriteFailed { .. }) => true,
        (Phase::AwaitExec, Event::ProxyExecFailed { .. }) => true,
        _ => false,
    }
}

/// The phase one step leads to.
pub open spec fn spec_next_phase(p: Phase, e: Event) -> Phase {
    match (p, e) {
        (Phase::AwaitDir, Event::DirCreated) => Phase::AwaitCertCheck,
        (Phase::AwaitCertCheck, Event::CertsChecked { key_exists, cert_exists }) => if key_exists
            && cert_exists {
            Phase::AwaitEnv
        } else {
            Phase::AwaitTool
        },
        (Phase::AwaitTool, Event::ToolCompleted { exit_ok, .. }) => if exit_ok {
            Phase::AwaitEnv
        } else {
            Phase::Failed
        },
        (Phase::AwaitEnv, Event::EnvPortRead { value }) => Phase::AwaitConfigDir {
            port: spec_resolved_port(value.deep_view()),
        },
        (Phase::AwaitConfigDir { port }, Event::ConfigDirCreated) => Phase::AwaitConfigWrite {
            port,
        },
        (Phase::AwaitConfigWrite { .. }, Event::ConfigWritten) => Phase::AwaitExec,
        _ => Phase::Failed,
    }
}

/// Whether this step launches the certificate tool: only the existence check
/// that found a file missing does.
pub open spec fn spec_runs_tool(p: Phase, e: Event) -> bool {
    &&& p is AwaitCertCheck
    &&& e matches Event::CertsChecked { key_exists, cert_exists } && spec_generation_needed(
        key_exists,
        cert_exists,
    )
}

/// Whether this step writes the configuration file: only the step after the
/// configuration directory was created does.
pub open spec fn spec_writes_config(p: Phase, e: Event) -> bool {
    p matches Phase::AwaitConfigDir { .. } && e is ConfigDirCreated
}

/// Starts the sequence: the first operation is to ensure the certificate
/// directory.
pub fn bootstrap_start(profile: Profile) -> (r: StepOutcome)
    ensures
        r.state.profile == profile,
        r.state.phase is AwaitDir,
        r.action matches Action::EnsureDir { path } && path@ == spec_ssl_dir(profile),
        r.logs@.len() == 0,
{
    StepOutcome {
        state: Bootstrap { profile, phase: Phase::AwaitDir },
        action: Action::EnsureDir { path: ssl_dir(profile) },
        logs: Vec::new(),
    }
}

/// Consumes one outside outcome and decides the next operation.
///
/// The contract fixes, transition by transition, the next phase, the
/// operation's arguments, and the diagnostic lines: the certificate tool runs
/// exactly when a file of the pair was missing; the configuration written is
/// the rendering for the resolved port; every fatal outcome aborts with the
/// message of its cause; an unexpected event stops the machine.
pub fn bootstrap_step(state: Bootstrap, event: Event) -> (r: StepOutcome)
    ensures
        r.state.profile == state.profile,
        r.state.phase == spec_next_phase(state.phase, event),
        (r.action matches Action::RunCertTool { .. }) == spec_runs_tool(state.phase, event),
        (r.action matches Action::WriteConfig { .. }) == spec_writes_config(state.phase, event),
        !spec_event_expected(state.phase, event) ==> (r.action is Stop && r.logs@.len() == 0),
        state.phase is AwaitDir && event is DirCreated ==> (r.action matches Action::CheckCerts {
            key_path,
            cert_path,
        } && key_path@ == spec_key_path(state.profile) && cert_path@ == spec_cert_path(
            state.profile,
        ) && r.logs@.len() == 1 && r.logs@[0].severity == Severity::Info && r.logs@[0].message@
            == "Created SSL directory "@ + spec_ssl_dir(state.profile)),
        state.phase is AwaitDir ==> (event matches Event::DirFailed { message } ==> (
        r.action matches Action::Abort { message: m } && m@ == "Could not create SSL directory "@
            + spec_ssl_dir(state.profile) + ": "@ + message@ && r.logs@.len() == 0)),
        state.phase is AwaitCertCheck ==> (event matches Event::CertsChecked {
            key_exists,
            cert_exists,
        } ==> ((!spec_generation_needed(key_exists, cert_exists) ==> (
        r.action matches Action::ReadEnvPort { name } && name@ == "FLECS_WEBAPP_HTTPS_PORT"@
            && r.logs@.len() == 1 && r.logs@[0].severity == Severity::Info && r.logs@[0].message@
            == "Both key and cert exist"@)) && (spec_generation_needed(key_exists, cert_exists)
            ==> (r.action matches Action::RunCertTool { invocation } && invocation.program@
            == "/bin/openssl"@ && invocation.env_name@ == "OPENSSL_CONF"@ && invocation.env_value@
            == "/dev/null"@ && invocation.args.deep_view() == spec_tool_args(
            spec_key_path(state.profile),
            spec_cert_path(state.profile),
        ) && r.logs@.len() == 1 && r.logs@[0].severity == Severity::Info && r.logs@[0].message@
            == "Creating new SSL certificate"@)))),
        state.phase is AwaitTool ==> (event matches Event::ToolCompleted {
            exit_ok,
            stdout,
            stderr,
        } ==> ((exit_ok ==> (r.action matches Action::ReadEnvPort { name } && name@
            == "FLECS_WEBAPP_HTTPS_PORT"@ && r.logs@.len() == 0)) && (!exit_ok ==> (
        r.action matches Action::Abort { message: m } && m@
            == "Could not create SSL certificates"@ && r.logs@.len() == 2 && r.logs@[0].severity
            == Severity::Error && r.logs@[0].message@ == "--- stdout: "@ + spec_stream_text(
            spec_stream_view(stdout),
        ) && r.logs@[1].severity == Severity::Error && r.logs@[1].message@ == "--- stderr: "@
            + spec_stream_text(spec_stream_view(stderr)))))),
        state.phase is AwaitTool ==> (event matches Event::ToolLaunchFailed { message } ==> (
        r.action matches Action::Abort { message: m } && m@ == "Could not execute openssl: "@
            + message@ && r.logs@.len() == 0)),
        state.phase is AwaitEnv ==> (event matches Event::EnvPortRead { value } ==> (
        r.action matches Action::CreateConfigDir { path } && path@ == spec_config_dir(
            state.profile,
        ) && r.logs@.len() == (if value is None {
            1int
        } else if !spec_port_warned(value.deep_view()) {
            2int
        } else {
            3int
        }) && r.logs@.last().severity == Severity::Info && r.logs@.last().message@
            == "Setting https port to "@ + spec_colon_port(spec_resolved_port(value.deep_view()))
            && (value is Some ==> r.logs@[0].severity == Severity::Info && r.logs@[0].message@
            == "FLECS_WEBAPP_HTTPS_PORT is set"@) && (spec_port_warned(value.deep_view())
            ==> r.logs@[1].severity == Severity::Warning && r.logs@[1].message@
            == "FLECS_WEBAPP_HTTPS_PORT does not contain a valid port"@))),
        event is ConfigDirCreated ==> (state.phase matches Phase::AwaitConfigDir { port } ==> (
        r.action matches Action::WriteConfig { path, contents } && path@ == spec_config_path(
            state.profile,
        ) && contents@ == spec_rendered_config(port) && r.logs@.len() == 1 && r.logs@[0].severity
            == Severity::Info && r.logs@[0].message@ == "Created config directory"@)),
        state.phase matches Phase::AwaitConfigDir { .. } ==> (event
            matches Event::ConfigDirFailed { message } ==> (r.action matches Action::Abort {
            message: m,
        } && m@ == "Could not create config directory: "@ + message@ && r.logs@.len() == 0)),
        state.phase matches Phase::AwaitConfigWrite { .. } && event is ConfigWritten ==> (
        r.action matches Action::ExecProxy { program, args } && program@ == "/sbin/nginx"@
            && args.deep_view() == spec_proxy_args() && r.logs@.len() == 1 && r.logs@[0].severity
            == Severity::Info && r.logs@[0].message@ == "Wrote nginx config"@),
        state.phase matches Phase::AwaitConfigWrite { .. } ==> (event
            matches Event::ConfigWriteFailed { message } ==> (r.action matches Action::Abort {
            message: m,
        } && m@ == "Could not write flecs-webapp.conf: "@ + message@ && r.logs@.len() == 0)),
        state.phase is AwaitExec ==> (event matches Event::ProxyExecFailed { message } ==> (
        r.action matches Action::Abort { message: m } && m@ == "Could not execute nginx: "@
            + message@ && r.logs@.len() == 0)),
{
    let profile = state.profile;
    match (state.phase, event) {
        (Phase::AwaitDir, Event::DirCreated) => {
            let mut msg = String::from_str("Created SSL directory ");
            msg.append(ssl_dir(profile).as_str());
            let mut logs: Vec<LogLine> = Vec::new();
            logs.push(LogLine { severity: Severity::Info, message: msg });
            StepOutcome {
                state: Bootstrap { profile, phase: Phase::AwaitCertCheck },
                action: Action::CheckCerts {
                    key_path: key_path(profile),
                    cert_path: cert_path(profile),
                },
                logs,
            }
        },
        (Phase::AwaitDir, Event::DirFailed { message }) => {
            let mut m = String::from_str("Could not create SSL directory ");
            m.append(ssl_dir(profile).as_str());
            m.append(": ");
            m.append(message.as_str());
            StepOutcome {
                state: Bootstrap { profile, phase: Phase::Failed },
                action: Action::Abort { message: m },
                logs: Vec::new(),
            }
        },
        (Phase::AwaitCertCheck, Event::CertsChecked { key_exists, cert_exists }) => {
            if !generation_needed(key_exists, cert_exists) {
                let mut logs: Vec<LogLine> = Vec::new();
                logs.push(
                    LogLine {
                        severity: Severity::Info,
                        message: String::from_str("Both key and cert exist"),
                    },
                );
                StepOutcome {
                    state: Bootstrap { profile, phase: Phase::AwaitEnv },
                    action: Action::ReadEnvPort { name: String::from_str(https_port_var()) },
                    logs,
                }
            } else {
                let mut logs: Vec<LogLine> = Vec::new();
                logs.push(
                    LogLine {
                        severity: Severity::Info,
                        message: String::from_str("Creating new SSL certificate"),
                    },
                );
                let key = key_path(profile);
                let cert = cert_path(profile);
                StepOutcome {
                    state: Bootstrap { profile, phase: Phase::AwaitTool },
                    action: Action::RunCertTool {
                        invocation: cert_tool_invocation(key.as_str(), cert.as_str()),
                    },
                    logs,
                }
            }
        },
        (Phase::AwaitTool, Event::ToolCompleted { exit_ok, stdout, stderr }) => {
            if exit_ok {
                StepOutcome {
                    state: Bootstrap { profile, phase: Phase::AwaitEnv },
                    action: Action::ReadEnvPort { name: String::from_str(https_port_var()) },
                    logs: Vec::new(),
                }
            } else {
                StepOutcome {
                    state: Bootstrap { profile, phase: Phase::Failed },
                    action: Action::Abort {
                        message: String::from_str("Could not create SSL certificates"),
                    },
                    logs: tool_failure_logs(&stdout, &stderr),
                }
            }
        },
        (Phase::AwaitTool, Event::ToolLaunchFailed { message }) => {
            let mut m = String::from_str("Could not execute openssl: ");
            m.append(message.as_str());
            StepOutcome {
                state: Bootstrap { profile, phase: Phase::Failed },
                action: Action::Abort { message: m },
                logs: Vec::new(),
            }
        },
        (Phase::AwaitEnv, Event::EnvPortRead { value }) => {
            let choice = resolve_port(
                match &value {
                    Some(s) => Some(s.as_str()),
                    None => None,
                },
            );
            let mut logs: Vec<LogLine> = Vec::new();
            if value.is_some() {
                logs.push(
                    LogLine {
                        severity: Severity::Info,
                        message: String::from_str("FLECS_WEBAPP_HTTPS_PORT is set"),
                    },
                );
            }
            if choice.warned {
                logs.push(
                    LogLine {
                        severity: Severity::Warning,
                        message: String::from_str(
                            "FLECS_WEBAPP_HTTPS_PORT does not contain a valid port",
                        ),
                    },
                );
            }
            let mut setting = String::from_str("Setting https port to ");
            setting.append(colon_port(choice.port).as_str());
            logs.push(LogLine { severity: Severity::Info, message: setting });
            StepOutcome {
                state: Bootstrap {
                    profile,
                    phase: Phase::AwaitConfigDir { port: choice.port },
                },
                action: Action::CreateConfigDir { path: config_dir(profile) },
                logs,
            }
        },
        (Phase::AwaitConfigDir { port }, Event::ConfigDirCreated) => {
            let mut logs: Vec<LogLine> = Vec::new();
            logs.push(
                LogLine {
                    severity: Severity::Info,
                    message: String::from_str("Created config directory"),
                },
            );
            StepOutcome {
                state: Bootstrap { profile, phase: Phase::AwaitConfigWrite { port } },
                action: Action::WriteConfig {
                    path: config_path(profile),
                    contents: render_config(port),
                },
                logs,
            }
        },
        (Phase::AwaitConfigDir { .. }, Event::ConfigDirFailed { message }) => {
            let mut m = String::from_str("Could not create config directory: ");
            m.append(message.as_str());
            StepOutcome {
                state: Bootstrap { profile, phase: Phase::Failed },
                action: Action::Abort { message: m },
                logs: Vec::new(),
            }
        },
        (Phase::AwaitConfigWrite { .. }, Event::ConfigWritten) => {
            let mut logs: Vec<LogLine> = Vec::new();
            logs.push(
                LogLine { severity: Severity::Info, message: String::from_str("Wrote nginx config") },
            );
            StepOutcome {
                state: Bootstrap { profile, phase: Phase::AwaitExec },
                action: Action::ExecProxy {
                    program: String::from_str(PROXY_PROGRAM),
                    args: proxy_args(),
                },
                logs,
            }
        },
        (Phase::AwaitConfigWrite { .. }, Event::ConfigWriteFailed { message }) => {
            let mut m = String::from_str("Could not write flecs-webapp.conf: ");
            m.append(message.as_str());
            StepOutcome {
                state: Bootstrap { profile, phase: Phase::Failed },
                action: Action::Abort { message: m },
                logs: Vec::new(),
            }
        },
        (Phase::AwaitExec, Event::ProxyExecFailed { message }) => {
            let mut m = String::from_str("Could not execute nginx: ");
            m.append(message.as_str());
            StepOutcome {
                state: Bootstrap { profile, phase: Phase::Failed },
                action: Action::Abort { message: m },
                logs: Vec::new(),
            }
        },
        (_, _) => StepOutcome {
            state: Bootstrap { profile, phase: Phase::Failed },
            action: Action::Stop,
            logs: Vec::new(),
        },
    }
}

/// The phase a sequence of events drives the machine to from its start.
pub open spec fn spec_run_phases(events: Seq<Event>) -> Phase
    decreases events.len(),
{
    if events.len() == 0 {
        Phase::AwaitDir
    } else {
        spec_next_phase(spec_run_phases(events.drop_last()), events.last())
    }
}

/// The failed phase is absorbing: no event leads out of it.
pub proof fn lemma_failed_absorbing(e: Event)
    ensures
        spec_next_phase(Phase::Failed, e) is Failed,
{
}

/// A certificate tool that cannot be launched is fatal: the machine fails.
pub proof fn lemma_tool_launch_failure_fatal(e: Event)
    requires
        e is ToolLaunchFailed,
    ensures
        spec_next_phase(Phase::AwaitTool, e) is Failed,
{
}

/// A certificate tool that exits unsuccessfully is fatal: the machine fails.
pub proof fn lemma_tool_exit_failure_fatal(e: Event)
    requires
        e matches Event::ToolCompleted { exit_ok, .. } && !exit_ok,
    ensures
        spec_next_phase(Phase::AwaitTool, e) is Failed,
{
}

proof fn lemma_failed_stays(events: Seq<Event>, i: int, j: int)
    requires
        0 <= i <= j <= events.len(),
        spec_run_phases(events.take(i)) is Failed,
    ensures
        spec_run_phases(events.take(j)) is Failed,
    decreases j - i,
{
    if j > i {
        lemma_failed_stays(events, i, j - 1);
        assert(events.take(j).drop_last() =~= events.take(j - 1));
    }
}

/// Step ordering is preserved across failure: once any step of a run has
/// failed — a tool that could not be launched among them — no later event
/// makes the run write the configuration file, and the run stays failed.
pub proof fn lemma_no_config_write_after_failure(events: Seq<Event>, i: int)
    requires
        0 <= i <= events.len(),
        spec_run_phases(events.take(i)) is Failed,
    ensures
        forall|j: int|
            i <= j < events.len() ==> !spec_writes_config(
                spec_run_phases(events.take(j)),
                events[j],
            ),
        spec_run_phases(events) is Failed,
{
    assert forall|j: int| i <= j < events.len() implies !spec_writes_config(
        spec_run_phases(events.take(j)),
        events[j],
    ) by {
        lemma_failed_stays(events, i, j);
    }
    lemma_failed_stays(events, i, events.len() as int);
    assert(events.take(events.len() as int) =~= events);
}

/// The configuration is written only right after the configuration
/// directory was created, a phase reached only through the port resolution.
pub proof fn lemma_config_write_only_after_dir(p: Phase, e: Event)
    ensures
        spec_writes_config(p, e) ==> p matches Phase::AwaitConfigDir { .. },
{
}

/// Certificate provisioning precedes configuration: the port is read only
/// once the existence check found the pair complete or the tool succeeded.
pub proof fn lemma_provisioning_precedes_config(p: Phase, e: Event)
    ensures
        spec_next_phase(p, e) is AwaitEnv ==> (p is AwaitCertCheck || p is AwaitTool),
        p is AwaitCertCheck && spec_next_phase(p, e) is AwaitEnv ==> (e
            matches Event::CertsChecked { key_exists, cert_exists } && key_exists && cert_exists),
        p is AwaitTool && spec_next_phase(p, e) is AwaitEnv ==> (e matches Event::ToolCompleted {
            exit_ok,
            ..
        } && exit_ok),
{
}

/// An existence check that finds both files skips generation and moves on.
pub proof fn lemma_existing_pair_skips_generation(e: Event)
    requires
        e matches Event::CertsChecked { key_exists, cert_exists } && key_exists && cert_exists,
    ensures
        !spec_runs_tool(Phase::AwaitCertCheck, e),
        spec_next_phase(Phase::AwaitCertCheck, e) is AwaitEnv,
{
}

/// Certificate storage as provisioning sees it: which of the two files
/// exist. The directory is persistent, so the store a run leaves behind is
/// the store the next run checks.
pub struct CertStore {
    pub key_exists: bool,
    pub cert_exists: bool,
}

/// What a successful tool run leaves behind: both files.
pub open spec fn spec_store_after_generation() -> CertStore {
    CertStore { key_exists: true, cert_exists: true }
}

/// What a run whose provisioning step succeeded leaves behind: the store
/// unchanged when the check found both files, both files when the tool ran.
pub open spec fn spec_store_after_provisioning(before: CertStore) -> CertStore {
    if spec_generation_needed(before.key_exists, before.cert_exists) {
        spec_store_after_generation()
    } else {
        before
    }
}

/// Idempotence: whatever store a first run started from, once its
/// provisioning step has succeeded, a second run's existence check finds
/// both files and does not run the certificate tool again.
pub proof fn lemma_provisioning_idempotent(before: CertStore)
    ensures
        !spec_runs_tool(
            Phase::AwaitCertCheck,
            (Event::CertsChecked {
                key_exists: spec_store_after_provisioning(before).key_exists,
                cert_exists: spec_store_after_provisioning(before).cert_exists,
            }),
        ),
{
}

} // verus!

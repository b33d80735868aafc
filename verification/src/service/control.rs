//! Control of the helper: reading its status output and stepping through an
//! install, update, uninstall, start, stop or restart.
//!
//! An operation is a small machine. It names the next thing to do outside
//! (query the status, look for the executable, run the elevated command,
//! sleep, read the configuration), the caller does it and hands the outcome
//! back, and the machine names the next thing, until it finishes.

use vstd::prelude::*;
use vstd::string::*;
use crate::service::error::{ControlOp, ServiceError};
use crate::service::ipc::{spawn_health_check, HealthMonitor, HealthMonitorView};
use crate::service::{Platform, ServiceStatus, StatusInfo};
use crate::text::{has_substring, lemma_push_deep_view, str_contains};

verus! {

/// What a status query met.
#[derive(Clone, Debug, PartialEq, Eq)]
pub enum StatusProbe {
    /// No file lies at the helper's location.
    Missing,
    /// The helper could not be launched.
    SpawnFailed,
    /// The helper ran. `stderr` is what it wrote there, as text; `decoded` is
    /// the status object read from its standard output, `None` where that
    /// output is not UTF-8 or not such an object.
    Exited {
        success: bool,
        code: Option<i32>,
        signal: Option<i32>,
        stderr: String,
        decoded: Option<StatusInfo>,
    },
}

/// The helper was refused access to its socket.
pub open spec fn denies_permission(stderr: Seq<char>) -> bool {
    has_substring(stderr, "Permission denied"@) || has_substring(stderr, "os error 13"@)
}

/// The helper's complaint reads like that of a service that is not there.
pub open spec fn reports_absence(stderr: Seq<char>) -> bool {
    ||| has_substring(stderr, "not installed"@)
    ||| has_substring(stderr, "not found"@)
    ||| has_substring(stderr, "does not exist"@)
    ||| has_substring(stderr, "找不到"@)
    ||| has_substring(stderr, "不存在"@)
}

pub open spec fn code_or_default(code: Option<i32>) -> i32 {
    match code {
        Some(c) => c,
        None => -1i32,
    }
}

pub open spec fn signal_or_default(signal: Option<i32>) -> i32 {
    match signal {
        Some(s) => s,
        None => 0i32,
    }
}

/// How a probe is read. A refused socket is a hard failure whatever else the
/// probe holds. Everything that looks like an absent or unusable helper is
/// the status `NotInstalled`, not a failure: no executable, no launch, a
/// complaint about absence, output that cannot be decoded.
pub open spec fn status_reads(probe: StatusProbe, read: Result<StatusInfo, ServiceError>) -> bool {
    match probe {
        StatusProbe::Missing => read matches Ok(info) && info.is_not_installed_placeholder(),
        StatusProbe::SpawnFailed => read matches Ok(info) && info.is_not_installed_placeholder(),
        StatusProbe::Exited { success, code, signal, stderr, decoded } => {
            if denies_permission(stderr@) {
                read == Err::<StatusInfo, ServiceError>(
                    ServiceError::PermissionDenied { details: stderr },
                )
            } else if !success {
                if reports_absence(stderr@) {
                    read matches Ok(info) && info.is_not_installed_placeholder()
                } else {
                    read == Err::<StatusInfo, ServiceError>(
                        ServiceError::StatusFailed {
                            code: code_or_default(code),
                            signal: signal_or_default(signal),
                            stderr: stderr,
                        },
                    )
                }
            } else {
                match decoded {
                    Some(info) => read == Ok::<StatusInfo, ServiceError>(info),
                    None => read matches Ok(info) && info.is_not_installed_placeholder(),
                }
            }
        },
    }
}

/// The helper's arguments for a status query.
pub open spec fn status_args() -> Seq<Seq<char>> {
    seq!["status"@, "--json"@]
}

/// The arguments with which the helper reports its status as JSON.
pub fn get_service_status_args() -> (args: Vec<String>)
    ensures
        args.deep_view() == status_args(),
{
    let mut args: Vec<String> = Vec::new();
    args.push(String::from_str("status"));
    args.push(String::from_str("--json"));
    assert(args.deep_view() =~= status_args());
    args
}

fn exit_code(code: Option<i32>) -> (out: i32)
    ensures
        out == code_or_default(code),
{
    match code {
        Some(c) => c,
        None => -1,
    }
}

fn exit_signal(signal: Option<i32>) -> (out: i32)
    ensures
        out == signal_or_default(signal),
{
    match signal {
        Some(s) => s,
        None => 0,
    }
}

/// Reads the outcome of a status query.
pub fn status(probe: StatusProbe) -> (read: Result<StatusInfo, ServiceError>)
    ensures
        status_reads(probe, read),
{
    match probe {
        StatusProbe::Missing => Ok(StatusInfo::not_installed()),
        StatusProbe::SpawnFailed => Ok(StatusInfo::not_installed()),
        StatusProbe::Exited { success, code, signal, stderr, decoded } => {
            if str_contains(stderr.as_str(), "Permission denied") || str_contains(
                stderr.as_str(),
                "os error 13",
            ) {
                return Err(ServiceError::PermissionDenied { details: stderr });
            }
            if !success {
                if str_contains(stderr.as_str(), "not installed") || str_contains(
                    stderr.as_str(),
                    "not found",
                ) || str_contains(stderr.as_str(), "does not exist") || str_contains(
                    stderr.as_str(),
                    "找不到",
                ) || str_contains(stderr.as_str(), "不存在") {
                    return Ok(StatusInfo::not_installed());
                }
                return Err(
                    ServiceError::StatusFailed {
                        code: exit_code(code),
                        signal: exit_signal(signal),
                        stderr: stderr,
                    },
                );
            }
            match decoded {
                Some(info) => Ok(info),
                None => Ok(StatusInfo::not_installed()),
            }
        },
    }
}

/// What the captured streams of a command amount to: standard output, then
/// standard error on a line of its own where there is any.
pub open spec fn combined_output(stdout: Seq<char>, stderr: Seq<char>) -> Seq<char> {
    if stderr.len() == 0 {
        stdout
    } else if stdout.len() == 0 || stdout.last() == '\n' {
        stdout + stderr
    } else {
        stdout + seq!['\n'] + stderr
    }
}

fn ends_with_newline(s: &str) -> (ends: bool)
    ensures
        ends == (s@.len() > 0 && s@.last() == '\n'),
{
    let len = s.unicode_len();
    len > 0 && s.get_char(len - 1) == '\n'
}

/// Joins what a directly launched command wrote to its two streams.
pub fn run_service_command(stdout: &str, stderr: &str) -> (output: String)
    ensures
        output@ == combined_output(stdout@, stderr@),
{
    let mut out = String::from_str(stdout);
    if !stderr.is_empty() {
        if !ends_with_newline(out.as_str()) && !out.as_str().is_empty() {
            proof {
                reveal_strlit("\n");
                assert("\n"@ =~= seq!['\n']);
            }
            out.append("\n");
        }
        out.append(stderr);
    }
    out
}

/// What an install needs to know of its surroundings.
#[derive(Clone, Debug, PartialEq, Eq)]
pub struct InstallContext {
    /// The user the service is installed for: the account's security
    /// identifier on Windows, the user name elsewhere.
    pub user: String,
    pub data_dir: String,
    pub config_dir: String,
    pub app_dir: String,
}

/// A directory as an install argument: as it is on Windows, between double
/// quotes elsewhere.
pub open spec fn dir_argument(platform: Platform, dir: Seq<char>) -> Seq<char> {
    if platform == Platform::Windows {
        dir
    } else {
        "\""@ + dir + "\""@
    }
}

/// The helper's arguments for an install.
pub open spec fn install_args(platform: Platform, context: InstallContext) -> Seq<Seq<char>> {
    seq![
        "install"@,
        "--user"@,
        context.user@,
        "--nyanpasu-data-dir"@,
        dir_argument(platform, context.data_dir@),
        "--nyanpasu-config-dir"@,
        dir_argument(platform, context.config_dir@),
        "--nyanpasu-app-dir"@,
        dir_argument(platform, context.app_dir@),
    ]
}

fn push_arg(args: &mut Vec<String>, arg: String)
    ensures
        final(args).deep_view() == old(args).deep_view().push(arg@),
{
    let ghost before = *args;
    args.push(arg);
    proof {
        lemma_push_deep_view(before, *args, arg);
    }
}

fn dir_arg(platform: Platform, dir: &String) -> (arg: String)
    ensures
        arg@ == dir_argument(platform, dir@),
{
    match platform {
        Platform::Windows => dir.clone(),
        _ => {
            let mut arg = String::from_str("\"");
            arg.append(dir.as_str());
            arg.append("\"");
            arg
        },
    }
}

/// The arguments with which the helper installs itself.
pub fn get_service_install_args(platform: Platform, context: &InstallContext) -> (args: Vec<
    String,
>)
    ensures
        args.deep_view() == install_args(platform, *context),
{
    let mut args: Vec<String> = Vec::new();
    assert(args.deep_view() =~= Seq::<Seq<char>>::empty());
    push_arg(&mut args, String::from_str("install"));
    push_arg(&mut args, String::from_str("--user"));
    push_arg(&mut args, context.user.clone());
    push_arg(&mut args, String::from_str("--nyanpasu-data-dir"));
    push_arg(&mut args, dir_arg(platform, &context.data_dir));
    push_arg(&mut args, String::from_str("--nyanpasu-config-dir"));
    push_arg(&mut args, dir_arg(platform, &context.config_dir));
    push_arg(&mut args, String::from_str("--nyanpasu-app-dir"));
    push_arg(&mut args, dir_arg(platform, &context.app_dir));
    assert(args.deep_view() =~= install_args(platform, *context));
    args
}

/// How the caller is to obtain elevated rights for a command.
#[derive(Clone, Copy, Debug, PartialEq, Eq, Structural)]
pub enum Launcher {
    /// Launch the program itself and capture what it writes (Windows).
    Direct,
    /// Go through the system's escalation front-end, without a window and
    /// without a graphical prompt of its own (Linux).
    Runas,
    /// Go through the native authorization prompt (macOS). A command that
    /// returns counts as ended with code 0 and no output.
    Sudo,
}

/// The command an operation asks the caller to run.
#[derive(Clone, Debug, PartialEq, Eq)]
pub struct CommandPlan {
    pub op: ControlOp,
    pub platform: Platform,
    /// The helper's executable.
    pub service_path: String,
    /// What an install was told of its surroundings; `None` for every other
    /// operation.
    pub context: Option<InstallContext>,
}

/// A program and its arguments, ready to launch.
#[derive(Clone, Debug, PartialEq, Eq)]
pub struct CommandLine {
    pub launcher: Launcher,
    pub program: String,
    pub args: Vec<String>,
}

pub open spec fn launcher_for(platform: Platform) -> Launcher {
    match platform {
        Platform::Windows => Launcher::Direct,
        Platform::Linux => Launcher::Runas,
        Platform::MacOs => Launcher::Sudo,
    }
}

/// On Linux a start or restart runs through a shell, which afterwards waits
/// for the helper's socket and hands it to the service's group.
pub open spec fn runs_through_shell(op: ControlOp, platform: Platform) -> bool {
    platform == Platform::Linux && (op == ControlOp::Start || op == ControlOp::Restart)
}

pub open spec fn socket_script_tail() -> Seq<char> {
    "; for i in $(seq 1 20); do [ -S /run/nyanpasu_ipc.sock ] && break; sleep 0.1; done; if [ -S /run/nyanpasu_ipc.sock ]; then chown root:nyanpasu /run/nyanpasu_ipc.sock && chmod 660 /run/nyanpasu_ipc.sock; fi"@
}

/// The shell script of a start or restart on Linux.
pub open spec fn shell_script(service_path: Seq<char>, op: ControlOp) -> Seq<char> {
    "\""@ + service_path + "\" "@ + op.word() + socket_script_tail()
}

/// The helper's own arguments for an operation.
pub open spec fn helper_args(plan: CommandPlan) -> Seq<Seq<char>> {
    match (plan.op, plan.context) {
        (ControlOp::Install, Some(context)) => install_args(plan.platform, context),
        _ => seq![plan.op.word()],
    }
}

pub open spec fn planned_program(plan: CommandPlan) -> Seq<char> {
    if runs_through_shell(plan.op, plan.platform) {
        "/bin/sh"@
    } else {
        plan.service_path@
    }
}

pub open spec fn planned_args(plan: CommandPlan) -> Seq<Seq<char>> {
    if runs_through_shell(plan.op, plan.platform) {
        seq!["-c"@, shell_script(plan.service_path@, plan.op)]
    } else {
        helper_args(plan)
    }
}

impl CommandPlan {
    /// The program to launch, its arguments, and the way to elevate.
    pub fn command_line(&self) -> (line: CommandLine)
        ensures
            line.launcher == launcher_for(self.platform),
            line.program@ == planned_program(*self),
            line.args.deep_view() == planned_args(*self),
    {
        let launcher = match self.platform {
            Platform::Windows => Launcher::Direct,
            Platform::Linux => Launcher::Runas,
            Platform::MacOs => Launcher::Sudo,
        };
        let through_shell = match (self.platform, self.op) {
            (Platform::Linux, ControlOp::Start) => true,
            (Platform::Linux, ControlOp::Restart) => true,
            _ => false,
        };
        if through_shell {
            let mut script = String::from_str("\"");
            script.append(self.service_path.as_str());
            script.append("\" ");
            script.append(self.op.subcommand());
            script.append(
                "; for i in $(seq 1 20); do [ -S /run/nyanpasu_ipc.sock ] && break; sleep 0.1; done; if [ -S /run/nyanpasu_ipc.sock ]; then chown root:nyanpasu /run/nyanpasu_ipc.sock && chmod 660 /run/nyanpasu_ipc.sock; fi",
            );
            let mut args: Vec<String> = Vec::new();
            assert(args.deep_view() =~= Seq::<Seq<char>>::empty());
            push_arg(&mut args, String::from_str("-c"));
            push_arg(&mut args, script);
            assert(args.deep_view() =~= planned_args(*self));
            CommandLine { launcher, program: String::from_str("/bin/sh"), args }
        } else {
            let args = match (self.op, &self.context) {
                (ControlOp::Install, Some(context)) => get_service_install_args(
                    self.platform,
                    context,
                ),
                _ => {
                    let mut args: Vec<String> = Vec::new();
                    assert(args.deep_view() =~= Seq::<Seq<char>>::empty());
                    push_arg(&mut args, String::from_str(self.op.subcommand()));
                    assert(args.deep_view() =~= seq![self.op.word()]);
                    args
                },
            };
            CommandLine { launcher, program: self.service_path.clone(), args }
        }
    }
}

/// How an elevated command ended.
#[derive(Clone, Debug, PartialEq, Eq)]
pub struct ProcessExit {
    pub success: bool,
    pub code: Option<i32>,
    pub signal: Option<i32>,
    /// What the command wrote, where it was captured.
    pub output: String,
}

/// Where an operation stands: what it is waiting for.
#[derive(Clone, Copy, Debug, PartialEq, Eq, Structural)]
pub enum ControlPhase {
    /// The status taken before anything is done.
    Precheck,
    /// What an install needs to know of its surroundings.
    Gathering,
    /// Whether the helper's executable exists.
    Locating,
    /// The end of the elevated command.
    Commanding,
    /// The pause before confirmation number `attempt` of an install.
    Pausing { attempt: u8 },
    /// The status of confirmation number `attempt` of an install.
    Confirming { attempt: u8 },
    /// Whether service mode is configured.
    ReadingMode,
    /// The status taken after the command.
    Verifying,
    /// Nothing: the operation is over.
    Finished,
}

/// What the caller is to do next.
#[derive(Debug, PartialEq, Eq)]
pub enum ControlAction {
    /// Query the helper's status; answer with `ControlEvent::Status`.
    QueryStatus,
    /// Find the user and the directories; answer with `ControlEvent::Context`.
    GatherContext,
    /// See whether a file lies at the helper's location; answer with
    /// `ControlEvent::Located`.
    Locate,
    /// Run the command with elevated rights, off the scheduler's workers;
    /// answer with `ControlEvent::Exited`.
    Run(CommandPlan),
    /// Sleep; answer with `ControlEvent::Waited`.
    Wait { millis: u64 },
    /// Read the configured service mode; answer with
    /// `ControlEvent::ServiceMode`.
    ReadServiceMode,
    /// The operation succeeded and the health-check loop, marked as started,
    /// is to be run.
    SpawnHealthCheck,
    /// The operation is over.
    Finish(Result<(), ServiceError>),
}

/// The outcome of what was asked for.
#[derive(Debug, PartialEq, Eq)]
pub enum ControlEvent {
    Status(Result<StatusInfo, ServiceError>),
    Context(Result<InstallContext, ServiceError>),
    Located(bool),
    Exited(Result<ProcessExit, ServiceError>),
    Waited,
    /// The configured flag, `false` where none is configured.
    ServiceMode(bool),
}

/// One run of a control operation.
#[derive(Clone, Debug, PartialEq, Eq)]
pub struct ServiceControl {
    pub op: ControlOp,
    pub platform: Platform,
    pub service_path: String,
    pub context: Option<InstallContext>,
    pub phase: ControlPhase,
}

/// The number of confirmations an install on Windows waits for, one second
/// apart, before it goes on regardless.
pub const INSTALL_CONFIRMATIONS: u8 = 30;

/// The pause before each confirmation, in milliseconds.
pub const INSTALL_CONFIRMATION_PAUSE: u64 = 1000;

/// The status before the command makes the operation a no-op: an install
/// where the helper is installed, an uninstall where it is not, a start
/// where it runs, a stop where it does not run.
pub open spec fn already_satisfied(op: ControlOp, status: Option<ServiceStatus>) -> bool {
    match (op, status) {
        (ControlOp::Install, Some(s)) => s != ServiceStatus::NotInstalled,
        (ControlOp::Uninstall, Some(s)) => s == ServiceStatus::NotInstalled,
        (ControlOp::Start, Some(s)) => s == ServiceStatus::Running,
        (ControlOp::Stop, Some(s)) => s == ServiceStatus::Stopped || s
            == ServiceStatus::NotInstalled,
        _ => false,
    }
}

/// The operation begins with a look at the status.
pub open spec fn has_precheck(op: ControlOp) -> bool {
    op == ControlOp::Install || op == ControlOp::Uninstall || op == ControlOp::Start || op
        == ControlOp::Stop
}

/// A missing executable fails the operation. For the others it ends the
/// operation in success: there is nothing to update, remove or stop.
pub open spec fn needs_executable(op: ControlOp) -> bool {
    op == ControlOp::Install || op == ControlOp::Start
}

/// The operation ends the health-check loop once its command succeeded.
pub open spec fn stops_monitor(op: ControlOp) -> bool {
    op == ControlOp::Uninstall || op == ControlOp::Stop
}

/// The status after the command shows a helper that can be reached, running
/// or stopped, so that its health is worth checking. Only an install, a
/// start and a restart look for this.
pub open spec fn reachable_after(op: ControlOp, status: Option<ServiceStatus>) -> bool {
    (op == ControlOp::Install || op == ControlOp::Start || op == ControlOp::Restart) && (status
        == Some(ServiceStatus::Running) || status == Some(ServiceStatus::Stopped))
}

pub open spec fn status_of(status: Result<StatusInfo, ServiceError>) -> Option<ServiceStatus> {
    match status {
        Ok(info) => Some(info.status),
        Err(_) => None,
    }
}

pub open spec fn plan_of(machine: ServiceControl) -> CommandPlan {
    CommandPlan {
        op: machine.op,
        platform: machine.platform,
        service_path: machine.service_path,
        context: machine.context,
    }
}

pub open spec fn process_failure(op: ControlOp, exit: ProcessExit) -> ServiceError {
    ServiceError::ProcessFailed {
        op: op,
        code: code_or_default(exit.code),
        signal: signal_or_default(exit.signal),
        output: exit.output,
    }
}

/// The machine after a step that ends the operation.
pub open spec fn finished(machine: ServiceControl) -> ServiceControl {
    ServiceControl { phase: ControlPhase::Finished, context: None, ..machine }
}

pub open spec fn moved_to(machine: ServiceControl, phase: ControlPhase) -> ServiceControl {
    ServiceControl { phase: phase, ..machine }
}

pub open spec fn succeeded() -> ControlAction {
    ControlAction::Finish(Ok(()))
}

pub open spec fn failed(error: ServiceError) -> ControlAction {
    ControlAction::Finish(Err(error))
}

/// What follows the command's success.
pub open spec fn after_command(machine: ServiceControl, monitor: HealthMonitorView) -> (
    ServiceControl,
    HealthMonitorView,
    ControlAction,
) {
    if machine.op == ControlOp::Update {
        (finished(machine), monitor, succeeded())
    } else if stops_monitor(machine.op) {
        (finished(machine), HealthMonitorView { kill_flag: true, ..monitor }, succeeded())
    } else if machine.op == ControlOp::Install && machine.platform == Platform::Windows {
        (
            moved_to(machine, ControlPhase::Pausing { attempt: 0 }),
            monitor,
            ControlAction::Wait { millis: INSTALL_CONFIRMATION_PAUSE },
        )
    } else {
        (moved_to(machine, ControlPhase::ReadingMode), monitor, ControlAction::ReadServiceMode)
    }
}

/// The step of an operation: the machine and the monitor after the outcome
/// `event`, and what the caller is to do next. An outcome that the pending
/// step did not ask for ends the operation with `UnexpectedEvent`.
pub open spec fn control_step(
    machine: ServiceControl,
    monitor: HealthMonitorView,
    event: ControlEvent,
) -> (ServiceControl, HealthMonitorView, ControlAction) {
    match (machine.phase, event) {
        (ControlPhase::Precheck, ControlEvent::Status(status)) => {
            if !has_precheck(machine.op) {
                (finished(machine), monitor, failed(ServiceError::UnexpectedEvent))
            } else if already_satisfied(machine.op, status_of(status)) {
                (finished(machine), monitor, succeeded())
            } else if machine.op == ControlOp::Install {
                (moved_to(machine, ControlPhase::Gathering), monitor, ControlAction::GatherContext)
            } else {
                (moved_to(machine, ControlPhase::Locating), monitor, ControlAction::Locate)
            }
        },
        (ControlPhase::Gathering, ControlEvent::Context(Ok(context))) => (
            ServiceControl { phase: ControlPhase::Locating, context: Some(context), ..machine },
            monitor,
            ControlAction::Locate,
        ),
        (ControlPhase::Gathering, ControlEvent::Context(Err(error))) => (
            finished(machine),
            monitor,
            failed(error),
        ),
        (ControlPhase::Locating, ControlEvent::Located(exists)) => {
            if exists {
                (
                    ServiceControl { phase: ControlPhase::Commanding, context: None, ..machine },
                    monitor,
                    ControlAction::Run(plan_of(machine)),
                )
            } else if needs_executable(machine.op) {
                (
                    finished(machine),
                    monitor,
                    failed(ServiceError::ExecutableNotFound { path: machine.service_path }),
                )
            } else {
                (finished(machine), monitor, succeeded())
            }
        },
        (ControlPhase::Commanding, ControlEvent::Exited(Err(error))) => (
            finished(machine),
            monitor,
            failed(error),
        ),
        (ControlPhase::Commanding, ControlEvent::Exited(Ok(exit))) => {
            if !exit.success {
                (finished(machine), monitor, failed(process_failure(machine.op, exit)))
            } else {
                after_command(machine, monitor)
            }
        },
        (ControlPhase::Pausing { attempt }, ControlEvent::Waited) => (
            moved_to(machine, ControlPhase::Confirming { attempt: attempt }),
            monitor,
            ControlAction::QueryStatus,
        ),
        (ControlPhase::Confirming { attempt }, ControlEvent::Status(status)) => {
            if already_satisfied(ControlOp::Install, status_of(status)) || attempt + 1
                >= INSTALL_CONFIRMATIONS {
                (
                    moved_to(machine, ControlPhase::ReadingMode),
                    monitor,
                    ControlAction::ReadServiceMode,
                )
            } else {
                (
                    moved_to(machine, ControlPhase::Pausing { attempt: (attempt + 1) as u8 }),
                    monitor,
                    ControlAction::Wait { millis: INSTALL_CONFIRMATION_PAUSE },
                )
            }
        },
        (ControlPhase::ReadingMode, ControlEvent::ServiceMode(enabled)) => {
            if enabled {
                (moved_to(machine, ControlPhase::Verifying), monitor, ControlAction::QueryStatus)
            } else {
                (finished(machine), monitor, succeeded())
            }
        },
        (ControlPhase::Verifying, ControlEvent::Status(status)) => {
            if reachable_after(machine.op, status_of(status)) && !monitor.running {
                (
                    finished(machine),
                    HealthMonitorView {
                        kill_flag: false,
                        running: true,
                        check_count: 0,
                        ..monitor
                    },
                    ControlAction::SpawnHealthCheck,
                )
            } else {
                (finished(machine), monitor, succeeded())
            }
        },
        _ => (finished(machine), monitor, failed(ServiceError::UnexpectedEvent)),
    }
}

/// The machine of an operation before its first step, and the first thing
/// it asks for.
pub open spec fn control_start(op: ControlOp, platform: Platform, service_path: String) -> (
    ServiceControl,
    ControlAction,
) {
    let machine = ServiceControl {
        op: op,
        platform: platform,
        service_path: service_path,
        context: None,
        phase: ControlPhase::Precheck,
    };
    if has_precheck(op) {
        (machine, ControlAction::QueryStatus)
    } else if op == ControlOp::Update {
        (moved_to(machine, ControlPhase::Locating), ControlAction::Locate)
    } else {
        (moved_to(machine, ControlPhase::Commanding), ControlAction::Run(plan_of(machine)))
    }
}

fn status_seen(status: &Result<StatusInfo, ServiceError>) -> (seen: Option<ServiceStatus>)
    ensures
        seen == status_of(*status),
{
    match status {
        Ok(info) => Some(info.status),
        Err(_) => None,
    }
}

fn is_already_satisfied(op: ControlOp, status: Option<ServiceStatus>) -> (satisfied: bool)
    ensures
        satisfied == already_satisfied(op, status),
{
    match (op, status) {
        (ControlOp::Install, Some(ServiceStatus::Stopped)) => true,
        (ControlOp::Install, Some(ServiceStatus::Running)) => true,
        (ControlOp::Uninstall, Some(ServiceStatus::NotInstalled)) => true,
        (ControlOp::Start, Some(ServiceStatus::Running)) => true,
        (ControlOp::Stop, Some(ServiceStatus::Stopped)) => true,
        (ControlOp::Stop, Some(ServiceStatus::NotInstalled)) => true,
        _ => false,
    }
}

fn is_reachable_after(op: ControlOp, status: Option<ServiceStatus>) -> (reachable: bool)
    ensures
        reachable == reachable_after(op, status),
{
    let looks = match op {
        ControlOp::Install => true,
        ControlOp::Start => true,
        ControlOp::Restart => true,
        _ => false,
    };
    let reached = match status {
        Some(ServiceStatus::Running) => true,
        Some(ServiceStatus::Stopped) => true,
        _ => false,
    };
    looks && reached
}

impl ServiceControl {
    /// Begins an operation on the helper at `service_path`.
    pub fn begin(op: ControlOp, platform: Platform, service_path: String) -> (started: (
        ServiceControl,
        ControlAction,
    ))
        ensures
            started == control_start(op, platform, service_path),
    {
        match op {
            ControlOp::Update => (
                ServiceControl {
                    op,
                    platform,
                    service_path,
                    context: None,
                    phase: ControlPhase::Locating,
                },
                ControlAction::Locate,
            ),
            ControlOp::Restart => {
                let plan = CommandPlan {
                    op,
                    platform,
                    service_path: service_path.clone(),
                    context: None,
                };
                (
                    ServiceControl {
                        op,
                        platform,
                        service_path,
                        context: None,
                        phase: ControlPhase::Commanding,
                    },
                    ControlAction::Run(plan),
                )
            },
            _ => (
                ServiceControl {
                    op,
                    platform,
                    service_path,
                    context: None,
                    phase: ControlPhase::Precheck,
                },
                ControlAction::QueryStatus,
            ),
        }
    }

    /// Whether the operation is over.
    pub fn is_finished(&self) -> (over: bool)
        ensures
            over == (self.phase == ControlPhase::Finished),
    {
        match self.phase {
            ControlPhase::Finished => true,
            _ => false,
        }
    }

    fn finish(&mut self, result: Result<(), ServiceError>) -> (action: ControlAction)
        ensures
            *final(self) == finished(*old(self)),
            action == ControlAction::Finish(result),
    {
        self.phase = ControlPhase::Finished;
        self.context = None;
        ControlAction::Finish(result)
    }

    fn go(&mut self, phase: ControlPhase, action: ControlAction) -> (next: ControlAction)
        ensures
            *final(self) == moved_to(*old(self), phase),
            next == action,
    {
        self.phase = phase;
        action
    }

    fn command_succeeded(&mut self, monitor: &mut HealthMonitor) -> (action: ControlAction)
        ensures
            (*final(self), final(monitor)@, action) == after_command(*old(self), old(monitor)@),
    {
        match (self.op, self.platform) {
            (ControlOp::Update, _) => self.finish(Ok(())),
            (ControlOp::Uninstall, _) => {
                monitor.request_stop();
                self.finish(Ok(()))
            },
            (ControlOp::Stop, _) => {
                monitor.request_stop();
                self.finish(Ok(()))
            },
            (ControlOp::Install, Platform::Windows) => self.go(
                ControlPhase::Pausing { attempt: 0 },
                ControlAction::Wait { millis: INSTALL_CONFIRMATION_PAUSE },
            ),
            _ => self.go(ControlPhase::ReadingMode, ControlAction::ReadServiceMode),
        }
    }

    /// Takes the outcome of what was last asked for and says what to do
    /// next. `monitor` is the health monitor that the operation may end
    /// (after an uninstall or a stop) or start (after an install, a start or
    /// a restart in service mode, where the helper is reachable and no loop
    /// runs yet).
    pub fn step(&mut self, monitor: &mut HealthMonitor, event: ControlEvent) -> (action:
        ControlAction)
        ensures
            (*final(self), final(monitor)@, action) == control_step(
                *old(self),
                old(monitor)@,
                event,
            ),
    {
        match (self.phase, event) {
            (ControlPhase::Precheck, ControlEvent::Status(status)) => {
                let seen = status_seen(&status);
                match self.op {
                    ControlOp::Update => self.finish(Err(ServiceError::UnexpectedEvent)),
                    ControlOp::Restart => self.finish(Err(ServiceError::UnexpectedEvent)),
                    ControlOp::Install => {
                        if is_already_satisfied(self.op, seen) {
                            self.finish(Ok(()))
                        } else {
                            self.go(ControlPhase::Gathering, ControlAction::GatherContext)
                        }
                    },
                    _ => {
                        if is_already_satisfied(self.op, seen) {
                            self.finish(Ok(()))
                        } else {
                            self.go(ControlPhase::Locating, ControlAction::Locate)
                        }
                    },
                }
            },
            (ControlPhase::Gathering, ControlEvent::Context(Ok(context))) => {
                self.context = Some(context);
                self.phase = ControlPhase::Locating;
                ControlAction::Locate
            },
            (ControlPhase::Gathering, ControlEvent::Context(Err(error))) => self.finish(
                Err(error),
            ),
            (ControlPhase::Locating, ControlEvent::Located(exists)) => {
                if exists {
                    let plan = CommandPlan {
                        op: self.op,
                        platform: self.platform,
                        service_path: self.service_path.clone(),
                        context: self.context.take(),
                    };
                    self.phase = ControlPhase::Commanding;
                    ControlAction::Run(plan)
                } else {
                    match self.op {
                        ControlOp::Install => {
                            let path = self.service_path.clone();
                            self.finish(Err(ServiceError::ExecutableNotFound { path }))
                        },
                        ControlOp::Start => {
                            let path = self.service_path.clone();
                            self.finish(Err(ServiceError::ExecutableNotFound { path }))
                        },
                        _ => self.finish(Ok(())),
                    }
                }
            },
            (ControlPhase::Commanding, ControlEvent::Exited(Err(error))) => self.finish(
                Err(error),
            ),
            (ControlPhase::Commanding, ControlEvent::Exited(Ok(exit))) => {
                if !exit.success {
                    let error = ServiceError::ProcessFailed {
                        op: self.op,
                        code: exit_code(exit.code),
                        signal: exit_signal(exit.signal),
                        output: exit.output,
                    };
                    self.finish(Err(error))
                } else {
                    self.command_succeeded(monitor)
                }
            },
            (ControlPhase::Pausing { attempt }, ControlEvent::Waited) => self.go(
                ControlPhase::Confirming { attempt },
                ControlAction::QueryStatus,
            ),
            (ControlPhase::Confirming { attempt }, ControlEvent::Status(status)) => {
                let seen = status_seen(&status);
                if is_already_satisfied(ControlOp::Install, seen) || attempt
                    >= INSTALL_CONFIRMATIONS - 1 {
                    self.go(ControlPhase::ReadingMode, ControlAction::ReadServiceMode)
                } else {
                    self.go(
                        ControlPhase::Pausing { attempt: attempt + 1 },
                        ControlAction::Wait { millis: INSTALL_CONFIRMATION_PAUSE },
                    )
                }
            },
            (ControlPhase::ReadingMode, ControlEvent::ServiceMode(enabled)) => {
                if enabled {
                    self.go(ControlPhase::Verifying, ControlAction::QueryStatus)
                } else {
                    self.finish(Ok(()))
                }
            },
            (ControlPhase::Verifying, ControlEvent::Status(status)) => {
                let seen = status_seen(&status);
                if is_reachable_after(self.op, seen) && !monitor.is_running() {
                    spawn_health_check(monitor);
                    self.phase = ControlPhase::Finished;
                    self.context = None;
                    ControlAction::SpawnHealthCheck
                } else {
                    self.finish(Ok(()))
                }
            },
            _ => self.finish(Err(ServiceError::UnexpectedEvent)),
        }
    }
}

/// Begins an install of the helper.
pub fn install_service(platform: Platform, service_path: String) -> (started: (
    ServiceControl,
    ControlAction,
))
    ensures
        started == control_start(ControlOp::Install, platform, service_path),
{
    ServiceControl::begin(ControlOp::Install, platform, service_path)
}

/// Begins an update of the installed helper.
pub fn update_service(platform: Platform, service_path: String) -> (started: (
    ServiceControl,
    ControlAction,
))
    ensures
        started == control_start(ControlOp::Update, platform, service_path),
{
    ServiceControl::begin(ControlOp::Update, platform, service_path)
}

/// Begins the removal of the helper.
pub fn uninstall_service(platform: Platform, service_path: String) -> (started: (
    ServiceControl,
    ControlAction,
))
    ensures
        started == control_start(ControlOp::Uninstall, platform, service_path),
{
    ServiceControl::begin(ControlOp::Uninstall, platform, service_path)
}

/// Begins a start of the helper.
pub fn start_service(platform: Platform, service_path: String) -> (started: (
    ServiceControl,
    ControlAction,
))
    ensures
        started == control_start(ControlOp::Start, platform, service_path),
{
    ServiceControl::begin(ControlOp::Start, platform, service_path)
}

/// Begins a stop of the helper.
pub fn stop_service(platform: Platform, service_path: String) -> (started: (
    ServiceControl,
    ControlAction,
))
    ensures
        started == control_start(ControlOp::Stop, platform, service_path),
{
    ServiceControl::begin(ControlOp::Stop, platform, service_path)
}

/// Begins a restart of the helper.
pub fn restart_service(platform: Platform, service_path: String) -> (started: (
    ServiceControl,
    ControlAction,
))
    ensures
        started == control_start(ControlOp::Restart, platform, service_path),
{
    ServiceControl::begin(ControlOp::Restart, platform, service_path)
}

/// An operation whose goal already holds is a no-op: an install of an
/// installed helper, an uninstall of an absent one, a start of a running one
/// and a stop of one that does not run end in success at the first answer,
/// ask for no command to be run and leave the monitor as it was. This holds
/// of every such call, however many were made before.
pub proof fn lemma_satisfied_is_noop(
    op: ControlOp,
    platform: Platform,
    service_path: String,
    monitor: HealthMonitorView,
    status: Result<StatusInfo, ServiceError>,
)
    requires
        already_satisfied(op, status_of(status)),
    ensures
        control_start(op, platform, service_path).1 == ControlAction::QueryStatus,
        control_step(
            control_start(op, platform, service_path).0,
            monitor,
            ControlEvent::Status(status),
        ) == (finished(control_start(op, platform, service_path).0), monitor, succeeded()),
{
}

/// A command is run only once the executable was found, or as the first step
/// of a restart.
pub proof fn lemma_run_follows_location(
    machine: ServiceControl,
    monitor: HealthMonitorView,
    event: ControlEvent,
)
    requires
        control_step(machine, monitor, event).2 is Run,
    ensures
        machine.phase == ControlPhase::Locating,
        event == ControlEvent::Located(true),
        control_step(machine, monitor, event).2 == ControlAction::Run(plan_of(machine)),
{
}

/// The monitor is touched by two steps only: the success of an uninstall's
/// or a stop's command raises the kill flag, and a verified install, start or
/// restart marks a loop as started where none runs.
pub proof fn lemma_monitor_changes(
    machine: ServiceControl,
    monitor: HealthMonitorView,
    event: ControlEvent,
)
    ensures
        control_step(machine, monitor, event).1 != monitor ==> ({
            ||| (machine.phase == ControlPhase::Commanding && stops_monitor(machine.op)
                && control_step(machine, monitor, event).1 == (HealthMonitorView {
                kill_flag: true,
                ..monitor
            }))
            ||| (machine.phase == ControlPhase::Verifying && !monitor.running && control_step(
                machine,
                monitor,
                event,
            ).2 == ControlAction::SpawnHealthCheck)
        }),
        control_step(machine, monitor, event).2 == ControlAction::SpawnHealthCheck
            ==> !monitor.running && control_step(machine, monitor, event).1.running,
{
}

/// How many steps a phase is from the end at most.
pub open spec fn steps_left(phase: ControlPhase) -> nat {
    match phase {
        ControlPhase::Precheck => 67,
        ControlPhase::Gathering => 66,
        ControlPhase::Locating => 65,
        ControlPhase::Commanding => 64,
        ControlPhase::Pausing { attempt } => if attempt < INSTALL_CONFIRMATIONS {
            (3 + 2 * (INSTALL_CONFIRMATIONS - attempt)) as nat
        } else {
            4
        },
        ControlPhase::Confirming { attempt } => if attempt < INSTALL_CONFIRMATIONS {
            (2 + 2 * (INSTALL_CONFIRMATIONS - attempt)) as nat
        } else {
            3
        },
        ControlPhase::ReadingMode => 2,
        ControlPhase::Verifying => 1,
        ControlPhase::Finished => 0,
    }
}

/// Every step brings an operation nearer to its end, whatever the outcome
/// handed in: an operation is over after 67 steps at most, and the
/// confirmation of an install on Windows after thirty pauses.
pub proof fn lemma_step_makes_progress(
    machine: ServiceControl,
    monitor: HealthMonitorView,
    event: ControlEvent,
)
    requires
        machine.phase != ControlPhase::Finished,
    ensures
        steps_left(control_step(machine, monitor, event).0.phase) < steps_left(machine.phase),
        (control_step(machine, monitor, event).0.phase == ControlPhase::Finished) <==> (
        control_step(machine, monitor, event).2 is Finish || control_step(
            machine,
            monitor,
            event,
        ).2 is SpawnHealthCheck),
{
}

/// A complaint about a refused socket is a hard failure whatever else the
/// probe holds: it is never read as a helper that is not installed.
pub proof fn lemma_permission_denied_is_hard(
    success: bool,
    code: Option<i32>,
    signal: Option<i32>,
    stderr: String,
    decoded: Option<StatusInfo>,
    read: Result<StatusInfo, ServiceError>,
)
    requires
        has_substring(stderr@, "Permission denied"@),
        status_reads(StatusProbe::Exited { success, code, signal, stderr, decoded }, read),
    ensures
        read == Err::<StatusInfo, ServiceError>(ServiceError::PermissionDenied { details: stderr }),
{
}

/// Output that cannot be decoded, from a helper that ended in success and
/// complained of no refused socket, is the status `NotInstalled` and no
/// failure.
pub proof fn lemma_undecodable_output_is_not_installed(
    code: Option<i32>,
    signal: Option<i32>,
    stderr: String,
    read: Result<StatusInfo, ServiceError>,
)
    requires
        !denies_permission(stderr@),
        status_reads(
            StatusProbe::Exited { success: true, code, signal, stderr, decoded: None },
            read,
        ),
    ensures
        read matches Ok(info) && info.status == ServiceStatus::NotInstalled,
{
}

} // verus!

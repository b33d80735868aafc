//! The ways in which querying or controlling the helper fails.

use vstd::prelude::*;
use vstd::string::*;
use crate::text::{push_signed_decimal, signed_decimal, str_trim, trimmed};

verus! {

/// The operations the helper's command line offers besides `status`.
#[derive(Clone, Copy, Debug, PartialEq, Eq, Structural)]
pub enum ControlOp {
    Install,
    Update,
    Uninstall,
    Start,
    Stop,
    Restart,
}

impl ControlOp {
    /// The helper's subcommand for the operation.
    pub open spec fn word(self) -> Seq<char> {
        match self {
            ControlOp::Install => "install"@,
            ControlOp::Update => "update"@,
            ControlOp::Uninstall => "uninstall"@,
            ControlOp::Start => "start"@,
            ControlOp::Stop => "stop"@,
            ControlOp::Restart => "restart"@,
        }
    }

    pub fn subcommand(&self) -> (out: &'static str)
        ensures
            out@ == self.word(),
    {
        match self {
            ControlOp::Install => "install",
            ControlOp::Update => "update",
            ControlOp::Uninstall => "uninstall",
            ControlOp::Start => "start",
            ControlOp::Stop => "stop",
            ControlOp::Restart => "restart",
        }
    }
}

/// A hard failure of a status query or of a control operation. An absent
/// helper is no failure: it is the status `NotInstalled`.
#[derive(Clone, Debug, PartialEq, Eq)]
pub enum ServiceError {
    /// The application's install directory is unknown, so no fallback
    /// location can be named.
    InstallDirUnknown,
    /// No file lies at the resolved location of the helper.
    ExecutableNotFound { path: String },
    /// The helper ran and ended unsuccessfully. `code` is -1 where the
    /// process gave none, `signal` 0 where none ended it; `output` is what
    /// was captured, as it came.
    ProcessFailed { op: ControlOp, code: i32, signal: i32, output: String },
    /// The status query was refused access to the helper's socket.
    PermissionDenied { details: String },
    /// The status query ended unsuccessfully for a reason other than an
    /// absent helper.
    StatusFailed { code: i32, signal: i32, stderr: String },
    /// The front-end that asks for elevated rights is not on this system.
    ToolMissing,
    /// The elevated command could not be launched, or what it needs could
    /// not be gathered; `message` is the cause as the system words it.
    Launch { message: String },
    /// An outcome was handed in that the pending step did not ask for.
    UnexpectedEvent,
}

/// The text for a command that ended unsuccessfully, given what it wrote
/// without the white space around it. An uninstall's text names no signal.
pub open spec fn process_failed_text(op: ControlOp, code: int, signal: int, output: Seq<char>) -> Seq<
    char,
> {
    if op == ControlOp::Uninstall {
        "failed to uninstall service, exit code: "@ + signed_decimal(code) + ", output: "@
            + output
    } else {
        "failed to "@ + op.word() + " service, exit code: "@ + signed_decimal(code)
            + ", signal: "@ + signed_decimal(signal) + ", output: "@ + output
    }
}

/// The text for a refused socket, given the helper's complaint without the
/// white space around it.
pub open spec fn permission_denied_text(details: Seq<char>) -> Seq<char> {
    "failed to query service status: permission denied. Ensure the current user has access to the service IPC socket (e.g. re-login after adding to the nyanpasu group). Details: "@
        + details
}

/// Words the failure of a command. `output` is what the command wrote,
/// already without the white space around it.
pub fn process_failed_message(op: ControlOp, code: i32, signal: i32, output: &str) -> (out: String)
    ensures
        out@ == process_failed_text(op, code as int, signal as int, output@),
{
    match op {
        ControlOp::Uninstall => {
            let mut out = String::from_str("failed to uninstall service, exit code: ");
            push_signed_decimal(&mut out, code as i64);
            out.append(", output: ");
            out.append(output);
            out
        },
        _ => {
            let mut out = String::from_str("failed to ");
            out.append(op.subcommand());
            out.append(" service, exit code: ");
            push_signed_decimal(&mut out, code as i64);
            out.append(", signal: ");
            push_signed_decimal(&mut out, signal as i64);
            out.append(", output: ");
            out.append(output);
            out
        },
    }
}

/// Words a refused socket. `details` is the helper's complaint, already
/// without the white space around it.
pub fn permission_denied_message(details: &str) -> (out: String)
    ensures
        out@ == permission_denied_text(details@),
{
    let mut out = String::from_str(
        "failed to query service status: permission denied. Ensure the current user has access to the service IPC socket (e.g. re-login after adding to the nyanpasu group). Details: ",
    );
    out.append(details);
    out
}

impl ServiceError {
    /// The text shown for the failure. What a command wrote and what the
    /// helper complained of are shown without the white space around them.
    pub open spec fn message_text(self) -> Seq<char> {
        match self {
            ServiceError::InstallDirUnknown => "failed to determine the application install directory"@,
            ServiceError::ExecutableNotFound { path } => "nyanpasu-service executable not found at: "@
                + path@,
            ServiceError::ProcessFailed { op, code, signal, output } => process_failed_text(
                op,
                code as int,
                signal as int,
                trimmed(output@),
            ),
            ServiceError::PermissionDenied { details } => permission_denied_text(
                trimmed(details@),
            ),
            ServiceError::StatusFailed { code, signal, stderr } =>
                "failed to query service status, exit code: "@ + signed_decimal(code as int)
                + ", signal: "@ + signed_decimal(signal as int) + ", stderr: "@ + stderr@,
            ServiceError::ToolMissing =>
                "failed to run privileged command: privilege escalation tool not found (pkexec/polkit). Please install polkit (pkexec) and try again"@,
            ServiceError::Launch { message } => message@,
            ServiceError::UnexpectedEvent => "unexpected outcome for the pending step"@,
        }
    }

    /// Renders the failure for display.
    pub fn message(&self) -> (out: String)
        ensures
            out@ == self.message_text(),
    {
        match self {
            ServiceError::InstallDirUnknown => String::from_str(
                "failed to determine the application install directory",
            ),
            ServiceError::ExecutableNotFound { path } => {
                let mut out = String::from_str("nyanpasu-service executable not found at: ");
                out.append(path.as_str());
                out
            },
            ServiceError::ProcessFailed { op, code, signal, output } => process_failed_message(
                *op,
                *code,
                *signal,
                str_trim(output.as_str()),
            ),
            ServiceError::PermissionDenied { details } => permission_denied_message(
                str_trim(details.as_str()),
            ),
            ServiceError::StatusFailed { code, signal, stderr } => {
                let mut out = String::from_str("failed to query service status, exit code: ");
                push_signed_decimal(&mut out, *code as i64);
                out.append(", signal: ");
                push_signed_decimal(&mut out, *signal as i64);
                out.append(", stderr: ");
                out.append(stderr.as_str());
                out
            },
            ServiceError::ToolMissing => String::from_str(
                "failed to run privileged command: privilege escalation tool not found (pkexec/polkit). Please install polkit (pkexec) and try again",
            ),
            ServiceError::Launch { message } => message.clone(),
            ServiceError::UnexpectedEvent => String::from_str(
                "unexpected outcome for the pending step",
            ),
        }
    }
}

/// What is known of a launch that failed before the helper ran.
#[derive(Clone, Debug, PartialEq, Eq)]
pub struct LaunchFailure {
    /// The system reported that the program was not found.
    pub not_found: bool,
    /// The raw error number, where the system gave one.
    pub raw_os_error: Option<i32>,
    /// The failure in the system's words.
    pub message: String,
}

/// Tells a missing escalation front-end from other launch failures. Some
/// systems report the missing program only through error number 2.
pub fn map_privilege_tool_not_found_error(failure: LaunchFailure) -> (error: ServiceError)
    ensures
        error == (if failure.not_found || failure.raw_os_error == Some(2i32) {
            ServiceError::ToolMissing
        } else {
            ServiceError::Launch { message: failure.message }
        }),
{
    let by_number = match failure.raw_os_error {
        Some(n) => n == 2,
        None => false,
    };
    if failure.not_found || by_number {
        ServiceError::ToolMissing
    } else {
        ServiceError::Launch { message: failure.message }
    }
}

} // verus!

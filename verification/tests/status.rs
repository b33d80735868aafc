use clash_nyanpasu::service::control::{run_service_command, status, StatusProbe};
use clash_nyanpasu::service::error::{
    map_privilege_tool_not_found_error, permission_denied_message, process_failed_message,
    ControlOp, LaunchFailure, ServiceError,
};
use clash_nyanpasu::service::{ServerInfo, ServiceStatus, StatusInfo};

fn exited(success: bool, stderr: &str, decoded: Option<StatusInfo>) -> StatusProbe {
    StatusProbe::Exited {
        success,
        code: Some(if success { 0 } else { 1 }),
        signal: None,
        stderr: stderr.to_string(),
        decoded,
    }
}

fn not_installed() -> StatusInfo {
    StatusInfo {
        name: String::new(),
        version: String::new(),
        status: ServiceStatus::NotInstalled,
        server: None,
    }
}

fn running() -> StatusInfo {
    StatusInfo {
        name: "nyanpasu-service".to_string(),
        version: "1.0.7".to_string(),
        status: ServiceStatus::Running,
        server: Some(ServerInfo { version: "1.0.7".to_string() }),
    }
}

#[test]
fn a_missing_executable_is_not_installed() {
    assert_eq!(status(StatusProbe::Missing), Ok(not_installed()));
    assert_eq!(StatusInfo::not_installed(), not_installed());
}

#[test]
fn a_failed_launch_is_not_installed() {
    assert_eq!(status(StatusProbe::SpawnFailed), Ok(not_installed()));
}

#[test]
fn malformed_output_with_exit_code_zero_is_not_installed() {
    assert_eq!(status(exited(true, "", None)), Ok(not_installed()));
}

#[test]
fn decoded_output_is_the_status() {
    assert_eq!(status(exited(true, "", Some(running()))), Ok(running()));
    assert_eq!(status(exited(true, "warning: slow", Some(running()))), Ok(running()));
}

#[test]
fn permission_denied_is_a_hard_error() {
    let read = status(exited(false, "  connect: Permission denied \n", None));
    let error = read.unwrap_err();
    assert_eq!(
        error,
        ServiceError::PermissionDenied { details: "  connect: Permission denied \n".to_string() }
    );
    assert_eq!(
        error.message(),
        "failed to query service status: permission denied. Ensure the current user has access to the service IPC socket (e.g. re-login after adding to the nyanpasu group). Details: connect: Permission denied"
    );
}

#[test]
fn permission_denied_wins_over_everything_else() {
    let on_success = status(exited(true, "Permission denied", Some(running())));
    assert_eq!(
        on_success,
        Err(ServiceError::PermissionDenied { details: "Permission denied".to_string() })
    );
    let with_absence = status(exited(false, "not found: Permission denied", None));
    assert!(matches!(with_absence, Err(ServiceError::PermissionDenied { .. })));
    let by_number = status(exited(false, "io error (os error 13)", None));
    assert!(matches!(by_number, Err(ServiceError::PermissionDenied { .. })));
}

#[test]
fn complaints_about_absence_are_not_installed() {
    for stderr in [
        "service is not installed",
        "unit not found",
        "the service does not exist",
        "系统找不到指定的文件",
        "指定的服务不存在",
    ] {
        assert_eq!(status(exited(false, stderr, None)), Ok(not_installed()));
        assert_eq!(status(exited(false, stderr, Some(running()))), Ok(not_installed()));
    }
}

#[test]
fn another_failure_is_an_error_with_code_and_signal() {
    let probe = StatusProbe::Exited {
        success: false,
        code: Some(3),
        signal: Some(9),
        stderr: "boom\n".to_string(),
        decoded: None,
    };
    let error = status(probe).unwrap_err();
    assert_eq!(
        error,
        ServiceError::StatusFailed { code: 3, signal: 9, stderr: "boom\n".to_string() }
    );
    assert_eq!(
        error.message(),
        "failed to query service status, exit code: 3, signal: 9, stderr: boom\n"
    );
}

#[test]
fn a_failure_without_code_or_signal_uses_the_defaults() {
    let probe = StatusProbe::Exited {
        success: false,
        code: None,
        signal: None,
        stderr: "boom".to_string(),
        decoded: None,
    };
    let error = status(probe).unwrap_err();
    assert_eq!(
        error,
        ServiceError::StatusFailed { code: -1, signal: 0, stderr: "boom".to_string() }
    );
    assert_eq!(
        error.message(),
        "failed to query service status, exit code: -1, signal: 0, stderr: boom"
    );
}

#[test]
fn the_streams_are_joined_on_separate_lines() {
    assert_eq!(run_service_command("out", "err"), "out\nerr");
    assert_eq!(run_service_command("out\n", "err"), "out\nerr");
    assert_eq!(run_service_command("", "err"), "err");
    assert_eq!(run_service_command("out", ""), "out");
    assert_eq!(run_service_command("", ""), "");
}

#[test]
fn a_missing_escalation_tool_is_told_apart() {
    let by_kind = LaunchFailure { not_found: true, raw_os_error: None, message: "x".to_string() };
    assert_eq!(map_privilege_tool_not_found_error(by_kind), ServiceError::ToolMissing);
    let by_number =
        LaunchFailure { not_found: false, raw_os_error: Some(2), message: "x".to_string() };
    assert_eq!(map_privilege_tool_not_found_error(by_number), ServiceError::ToolMissing);
    let other =
        LaunchFailure { not_found: false, raw_os_error: Some(5), message: "io".to_string() };
    assert_eq!(
        map_privilege_tool_not_found_error(other),
        ServiceError::Launch { message: "io".to_string() }
    );
    assert_eq!(
        ServiceError::ToolMissing.message(),
        "failed to run privileged command: privilege escalation tool not found (pkexec/polkit). Please install polkit (pkexec) and try again"
    );
}

#[test]
fn messages_of_the_service_errors() {
    assert_eq!(
        ServiceError::ExecutableNotFound { path: "/opt/x".to_string() }.message(),
        "nyanpasu-service executable not found at: /opt/x"
    );
    assert_eq!(
        ServiceError::ProcessFailed {
            op: ControlOp::Install,
            code: 1,
            signal: 0,
            output: " denied \n".to_string()
        }
        .message(),
        "failed to install service, exit code: 1, signal: 0, output: denied"
    );
    assert_eq!(
        ServiceError::ProcessFailed {
            op: ControlOp::Uninstall,
            code: -1,
            signal: 15,
            output: "x".to_string()
        }
        .message(),
        "failed to uninstall service, exit code: -1, output: x"
    );
    for (op, word) in [
        (ControlOp::Update, "update"),
        (ControlOp::Start, "start"),
        (ControlOp::Stop, "stop"),
        (ControlOp::Restart, "restart"),
    ] {
        assert_eq!(op.subcommand(), word);
        assert_eq!(
            ServiceError::ProcessFailed { op, code: 2, signal: 11, output: String::new() }
                .message(),
            format!("failed to {} service, exit code: 2, signal: 11, output: ", word)
        );
    }
    assert_eq!(ServiceError::Launch { message: "spawn failed".to_string() }.message(), "spawn failed");
    assert_eq!(
        ServiceError::InstallDirUnknown.message(),
        "failed to determine the application install directory"
    );
    assert_eq!(ServiceError::UnexpectedEvent.message(), "unexpected outcome for the pending step");
}

#[test]
fn the_words_for_a_failed_command() {
    assert_eq!(
        process_failed_message(ControlOp::Install, 1, 0, "denied"),
        "failed to install service, exit code: 1, signal: 0, output: denied"
    );
    assert_eq!(
        process_failed_message(ControlOp::Uninstall, -1, 9, ""),
        "failed to uninstall service, exit code: -1, output: "
    );
    assert_eq!(
        process_failed_message(ControlOp::Restart, i32::MIN, i32::MAX, " x "),
        "failed to restart service, exit code: -2147483648, signal: 2147483647, output:  x "
    );
    assert_eq!(
        permission_denied_message("socket: Permission denied"),
        "failed to query service status: permission denied. Ensure the current user has access to the service IPC socket (e.g. re-login after adding to the nyanpasu group). Details: socket: Permission denied"
    );
}

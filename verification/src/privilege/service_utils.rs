//! Small decisions shared by the handler and the commands.

use vstd::prelude::*;
use vstd::string::*;
use crate::privilege::{ConfigPatch, PrivilegeError, Request, Step};
use crate::service::control::status_of;
use crate::service::error::{ControlOp, ServiceError};
use crate::service::{ServiceStatus, StatusInfo};
use crate::text::{has_substring, str_contains};

verus! {

/// The patch that sets service mode and leaves every other flag alone.
pub fn update_service_mode_config(enable: bool) -> (patch: ConfigPatch)
    ensures
        patch == (ConfigPatch { enable_tun_mode: None, enable_service_mode: Some(enable) }),
{
    ConfigPatch { enable_tun_mode: None, enable_service_mode: Some(enable) }
}

/// The patch that sets the tunnel flag and leaves every other flag alone.
pub fn update_tun_config(enable: bool) -> (patch: ConfigPatch)
    ensures
        patch == (ConfigPatch { enable_tun_mode: Some(enable), enable_service_mode: None }),
{
    ConfigPatch { enable_tun_mode: Some(enable), enable_service_mode: None }
}

/// Whether the queried status shows a running helper. A failed query counts
/// as not running.
pub fn is_service_running(status: &Result<StatusInfo, ServiceError>) -> (running: Result<
    bool,
    ServiceError,
>)
    ensures
        running == Ok::<bool, ServiceError>(status_of(*status) == Some(ServiceStatus::Running)),
{
    match status {
        Ok(info) => match info.status {
            ServiceStatus::Running => Ok(true),
            _ => Ok(false),
        },
        Err(_) => Ok(false),
    }
}

/// Whether the queried status shows an installed helper. A failed query
/// counts as not installed.
pub fn is_service_installed(status: &Result<StatusInfo, ServiceError>) -> (installed: Result<
    bool,
    ServiceError,
>)
    ensures
        installed == Ok::<bool, ServiceError>(
            status_of(*status) is Some && status_of(*status) != Some(ServiceStatus::NotInstalled),
        ),
{
    match status {
        Ok(info) => match info.status {
            ServiceStatus::NotInstalled => Ok(false),
            _ => Ok(true),
        },
        Err(_) => Ok(false),
    }
}

/// What has to happen for the helper to run, given its queried status:
/// nothing where it runs, a start where it is stopped; an absent helper and a
/// failed query are failures.
pub open spec fn ensure_running(status: Result<StatusInfo, ServiceError>) -> Step<
    Result<(), PrivilegeError>,
> {
    match status {
        Ok(info) => match info.status {
            ServiceStatus::Running => Step::Done(Ok(())),
            ServiceStatus::Stopped => Step::Ask(Request::Control(ControlOp::Start)),
            ServiceStatus::NotInstalled => Step::Done(Err(PrivilegeError::NotInstalled)),
        },
        Err(error) => Step::Done(Err(PrivilegeError::Service(error))),
    }
}

/// The result of a control operation as the result of the procedure that
/// asked for it.
pub open spec fn controlled(result: Result<(), ServiceError>) -> Result<(), PrivilegeError> {
    match result {
        Ok(()) => Ok(()),
        Err(error) => Err(PrivilegeError::Service(error)),
    }
}

/// Sees to it that the helper runs. Where a start is asked for, its result
/// is the result.
pub fn ensure_service_running(status: Result<StatusInfo, ServiceError>) -> (step: Step<
    Result<(), PrivilegeError>,
>)
    ensures
        step == ensure_running(status),
{
    match status {
        Ok(info) => match info.status {
            ServiceStatus::Running => Step::Done(Ok(())),
            ServiceStatus::Stopped => Step::Ask(Request::Control(ControlOp::Start)),
            ServiceStatus::NotInstalled => Step::Done(Err(PrivilegeError::NotInstalled)),
        },
        Err(error) => Step::Done(Err(PrivilegeError::Service(error))),
    }
}

pub fn control_result(result: Result<(), ServiceError>) -> (out: Result<(), PrivilegeError>)
    ensures
        out == controlled(result),
{
    match result {
        Ok(()) => Ok(()),
        Err(error) => Err(PrivilegeError::Service(error)),
    }
}

/// The status in words for the user.
pub open spec fn status_message_text(status: Result<StatusInfo, ServiceError>) -> Seq<char> {
    match status {
        Ok(info) => match info.status {
            ServiceStatus::Running => "服务运行中，系统代理和TUN模式可正常使用"@,
            ServiceStatus::Stopped => "服务已安装但未运行"@,
            ServiceStatus::NotInstalled => "服务未安装，需要安装后才能使用系统代理和TUN模式"@,
        },
        Err(error) => "无法获取服务状态: "@ + error.message_text(),
    }
}

/// Describes the queried status to the user.
pub fn get_service_status_message(status: &Result<StatusInfo, ServiceError>) -> (message: String)
    ensures
        message@ == status_message_text(*status),
{
    match status {
        Ok(info) => match info.status {
            ServiceStatus::Running => String::from_str(
                "服务运行中，系统代理和TUN模式可正常使用",
            ),
            ServiceStatus::Stopped => String::from_str("服务已安装但未运行"),
            ServiceStatus::NotInstalled => String::from_str(
                "服务未安装，需要安装后才能使用系统代理和TUN模式",
            ),
        },
        Err(error) => {
            let mut out = String::from_str("无法获取服务状态: ");
            let inner = error.message();
            out.append(inner.as_str());
            out
        },
    }
}

/// The error reads like a lack of rights.
pub open spec fn mentions_rights(error: Seq<char>) -> bool {
    has_substring(error, "permission"@) || has_substring(error, "access"@)
}

/// The error reads like a missing helper or file.
pub open spec fn mentions_absence(error: Seq<char>) -> bool {
    has_substring(error, "not found"@) || has_substring(error, "not installed"@)
}

/// The failure of `operation` in words for the user: a hint at missing
/// rights first, a hint at a missing helper second, the error itself
/// otherwise.
pub open spec fn service_error_text(operation: Seq<char>, error: Seq<char>) -> Seq<char> {
    if mentions_rights(error) {
        operation + "失败: 权限不足。请确保有管理员权限。"@
    } else if mentions_absence(error) {
        operation + "失败: 服务未安装或文件缺失。"@
    } else {
        operation + "失败: "@ + error + "。请检查系统状态或重试。"@
    }
}

/// Words the failure of a service operation for the user. `error` is the
/// failure's own text.
pub fn handle_service_error(operation: &str, error: &str) -> (message: String)
    ensures
        message@ == service_error_text(operation@, error@),
{
    let mut out = String::from_str(operation);
    if str_contains(error, "permission") || str_contains(error, "access") {
        out.append("失败: 权限不足。请确保有管理员权限。");
    } else if str_contains(error, "not found") || str_contains(error, "not installed") {
        out.append("失败: 服务未安装或文件缺失。");
    } else {
        out.append("失败: ");
        out.append(error);
        out.append("。请检查系统状态或重试。");
    }
    out
}

} // verus!

//! Shorthands around the manager.

use vstd::prelude::*;
use vstd::string::*;
use crate::privilege::manager::PrivilegeManager;
use crate::privilege::{
    confirmation_required, flag_or_false, flag_set, ConfigFlags, PrivilegeError, PrivilegeMode,
    PrivilegeStatus, PrivilegedOperation, PrivilegedOperationResult,
};

verus! {

/// The operation that sets the tunnel to `enable`.
pub fn set_tun_mode(enable: bool) -> (operation: PrivilegedOperation)
    ensures
        operation == (PrivilegedOperation::SetTunMode { enable }),
{
    PrivilegedOperation::SetTunMode { enable }
}

/// Reads the end of a switch of the tunnel: a result without success is a
/// failure that carries the result's message.
pub fn tun_mode_set(executed: Result<PrivilegedOperationResult, PrivilegeError>) -> (done: Result<
    (),
    PrivilegeError,
>)
    ensures
        done == (match executed {
            Ok(result) => if result.success {
                Ok(())
            } else {
                Err(PrivilegeError::TunModeRejected { reported: result.message })
            },
            Err(error) => Err(error),
        }),
{
    match executed {
        Ok(result) => {
            if result.success {
                Ok(())
            } else {
                Err(PrivilegeError::TunModeRejected { reported: result.message })
            }
        },
        Err(error) => Err(error),
    }
}

/// The operation that sets the tunnel to the opposite of what is configured;
/// an unset flag counts as off.
pub fn toggle_tun_mode(flags: ConfigFlags) -> (operation: PrivilegedOperation)
    ensures
        operation == (PrivilegedOperation::SetTunMode { enable: !flag_set(flags.enable_tun_mode) }),
{
    set_tun_mode(!flag_or_false(flags.enable_tun_mode))
}

/// Whether the user is to be asked before `operation` is carried out.
pub fn precheck_privilege_operation(
    manager: &PrivilegeManager,
    operation: &PrivilegedOperation,
) -> (needed: Result<bool, PrivilegeError>)
    ensures
        needed == Ok::<bool, PrivilegeError>(
            manager.service_handler is None || confirmation_required(*operation),
        ),
{
    Ok(manager.requires_confirmation(operation))
}

/// Whether, after the warm-up, the user is to be warned: in service mode
/// with a helper that is not connected some operations will ask for
/// confirmation.
pub fn initialize_privilege_system(status: &PrivilegeStatus) -> (warn: bool)
    ensures
        warn == (status.current_mode == PrivilegeMode::Service && !status.service_connected),
{
    match status.current_mode {
        PrivilegeMode::Service => !status.service_connected,
        PrivilegeMode::Disabled => false,
    }
}

/// The advice that fits the state of the privilege system.
pub open spec fn recommendation_text(status: PrivilegeStatus) -> Seq<char> {
    match status.current_mode {
        PrivilegeMode::Service => if status.service_connected {
            "服务模式运行良好，享受丝滑的权限管理体验！"@
        } else {
            "服务模式已启用但服务未运行，请检查服务状态"@
        },
        PrivilegeMode::Disabled => "权限操作已禁用，某些功能可能无法正常使用"@,
    }
}

/// Advice on the configuration of privileges: one line that fits the state.
pub fn get_privilege_recommendations(status: &PrivilegeStatus) -> (advice: Result<
    Vec<String>,
    PrivilegeError,
>)
    ensures
        advice matches Ok(lines) && lines.deep_view() == seq![recommendation_text(*status)],
{
    let line = match status.current_mode {
        PrivilegeMode::Service => {
            if status.service_connected {
                String::from_str("服务模式运行良好，享受丝滑的权限管理体验！")
            } else {
                String::from_str("服务模式已启用但服务未运行，请检查服务状态")
            }
        },
        PrivilegeMode::Disabled => String::from_str(
            "权限操作已禁用，某些功能可能无法正常使用",
        ),
    };
    let mut lines: Vec<String> = Vec::new();
    lines.push(line);
    assert(lines.deep_view() =~= seq![recommendation_text(*status)]);
    Ok(lines)
}

} // verus!

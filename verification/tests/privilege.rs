use clash_nyanpasu::privilege::manager::{
    OperationPhase, OperationRun, PrivilegeManager, SetupPhase, SetupRun, WarmUpPhase, WarmUpRun,
};
use clash_nyanpasu::privilege::operations::{
    get_privilege_recommendations, initialize_privilege_system, precheck_privilege_operation,
    set_tun_mode, toggle_tun_mode, tun_mode_set,
};
use clash_nyanpasu::privilege::service_handler::{HandlerPhase, HandlerRun, ServicePrivilegeHandler};
use clash_nyanpasu::privilege::service_utils::{
    ensure_service_running, get_service_status_message, handle_service_error, is_service_installed,
    is_service_running, update_service_mode_config, update_tun_config,
};
use clash_nyanpasu::privilege::{
    ConfigFlags, ConfigPatch, OperationKind, OperationOutcome, PrivilegeError, PrivilegeMode,
    PrivilegeStatus, PrivilegedOperation, PrivilegedOperationHandler, PrivilegedOperationResult,
    Reply, Request, Step,
};
use clash_nyanpasu::service::error::{ControlOp, ServiceError};
use clash_nyanpasu::service::ipc::IpcState;
use clash_nyanpasu::service::{ServiceStatus, StatusInfo};
use std::path::PathBuf;

fn seen(status: ServiceStatus) -> Result<StatusInfo, ServiceError> {
    Ok(StatusInfo { name: "svc".to_string(), version: "1".to_string(), status, server: None })
}

fn tun(enable: bool) -> PrivilegedOperation {
    PrivilegedOperation::SetTunMode { enable }
}

fn tun_patch(enable: bool) -> ConfigPatch {
    ConfigPatch { enable_tun_mode: Some(enable), enable_service_mode: None }
}

fn flags(tun: Option<bool>, service: Option<bool>) -> ConfigFlags {
    ConfigFlags { enable_tun_mode: tun, enable_service_mode: service }
}

fn no_handler() -> PrivilegeManager {
    PrivilegeManager { service_handler: None, auto_service_setup: true }
}

fn manual() -> PrivilegeManager {
    PrivilegeManager { service_handler: Some(ServicePrivilegeHandler::new()), auto_service_setup: false }
}

type Outcome = Step<Result<OperationOutcome, PrivilegeError>>;

fn done(outcome: OperationOutcome) -> Outcome {
    Step::Done(Ok(outcome))
}

#[test]
fn the_manager_is_the_same_everywhere() {
    assert_eq!(PrivilegeManager::new(), PrivilegeManager::global());
    assert_eq!(PrivilegeManager::global(), PrivilegeManager::global());
    assert!(PrivilegeManager::new().auto_service_setup);
    assert!(PrivilegeManager::new().service_handler.is_some());
}

#[test]
fn disable_falls_back_to_the_configuration() {
    let (mut run, first) = PrivilegeManager::new().execute_operation(tun(false));
    assert_eq!(first, Step::Ask(Request::CheckAvailable));
    assert_eq!(run.step(Reply::Available(false)), Step::Ask(Request::PatchConfig(tun_patch(false))));
    let last = run.step(Reply::Patched(Ok(())));
    assert_eq!(last, done(OperationOutcome::ConfigPatched));
    assert!(run.is_finished());
    let result = OperationOutcome::ConfigPatched.into_result();
    assert_eq!(
        result,
        PrivilegedOperationResult {
            success: true,
            message: Some("已关闭TUN模式配置".to_string()),
            handler_used: "config_direct".to_string(),
        }
    );
}

#[test]
fn disable_reports_a_failed_patch_without_success() {
    let (mut run, _) = PrivilegeManager::new().execute_operation(tun(false));
    run.step(Reply::Available(false));
    let last = run.step(Reply::Patched(Err("disk full".to_string())));
    assert_eq!(last, done(OperationOutcome::ConfigPatchFailed { message: "disk full".to_string() }));
    let result = OperationOutcome::ConfigPatchFailed { message: "disk full".to_string() }.into_result();
    assert_eq!(
        result,
        PrivilegedOperationResult {
            success: false,
            message: Some("配置更新失败: disk full".to_string()),
            handler_used: "config_direct".to_string(),
        }
    );
}

#[test]
fn disable_without_a_handler_patches_at_once() {
    let (mut run, first) = no_handler().execute_operation(tun(false));
    assert_eq!(first, Step::Ask(Request::PatchConfig(tun_patch(false))));
    assert_eq!(run.phase, OperationPhase::DisablePatching);
    assert_eq!(run.step(Reply::Patched(Ok(()))), done(OperationOutcome::ConfigPatched));
}

#[test]
fn disable_through_the_service_stops_an_idle_helper() {
    let (mut run, _) = PrivilegeManager::new().execute_operation(tun(false));
    assert_eq!(run.step(Reply::Available(true)), Step::Ask(Request::Execute(tun(false))));
    assert_eq!(run.step(Reply::Executed(Ok(()))), Step::Ask(Request::ReadConfig));
    assert_eq!(
        run.step(Reply::Config(flags(Some(false), Some(true)))),
        Step::Ask(Request::Control(ControlOp::Stop))
    );
    let last = run.step(Reply::Controlled(Err(ServiceError::ToolMissing)));
    assert_eq!(last, done(OperationOutcome::Executed));
}

#[test]
fn disable_through_the_service_keeps_a_helper_in_use() {
    let (mut run, _) = PrivilegeManager::new().execute_operation(tun(false));
    run.step(Reply::Available(true));
    run.step(Reply::Executed(Ok(())));
    assert_eq!(
        run.step(Reply::Config(flags(Some(true), None))),
        done(OperationOutcome::Executed)
    );
    assert!(PrivilegeManager::new().check_and_stop_service_if_idle(flags(None, None)));
    assert!(PrivilegeManager::new().check_and_stop_service_if_idle(flags(Some(false), None)));
    assert!(!PrivilegeManager::new().check_and_stop_service_if_idle(flags(Some(true), None)));
}

#[test]
fn a_failed_disable_is_reported_and_stops_nothing() {
    let (mut run, _) = PrivilegeManager::new().execute_operation(tun(false));
    run.step(Reply::Available(true));
    let last = run.step(Reply::Executed(Err(PrivilegeError::NotInstalled)));
    assert_eq!(last, done(OperationOutcome::ExecutionFailed(PrivilegeError::NotInstalled)));
    assert!(run.is_finished());
}

#[test]
fn enable_with_an_available_helper_executes() {
    let (mut run, first) = PrivilegeManager::new().execute_operation(tun(true));
    assert_eq!(first, Step::Ask(Request::CheckAvailable));
    assert_eq!(run.step(Reply::Available(true)), Step::Ask(Request::Execute(tun(true))));
    assert_eq!(run.step(Reply::Executed(Ok(()))), done(OperationOutcome::Executed));
    assert_eq!(
        OperationOutcome::Executed.into_result(),
        PrivilegedOperationResult {
            success: true,
            message: None,
            handler_used: "service".to_string()
        }
    );
}

#[test]
fn enable_sets_the_helper_up_once() {
    let (mut run, _) = PrivilegeManager::new().execute_operation(tun(true));
    assert_eq!(run.step(Reply::Available(false)), Step::Ask(Request::AutoSetup));
    assert_eq!(run.step(Reply::SetUp(Ok(()))), Step::Ask(Request::CheckAvailable));
    assert_eq!(run.step(Reply::Available(false)), done(OperationOutcome::ServiceNotRunning));

    let (mut run, _) = PrivilegeManager::new().execute_operation(tun(true));
    run.step(Reply::Available(false));
    run.step(Reply::SetUp(Ok(())));
    assert_eq!(run.step(Reply::Available(true)), Step::Ask(Request::Execute(tun(true))));

    let (mut run, _) = PrivilegeManager::new().execute_operation(tun(true));
    run.step(Reply::Available(false));
    assert_eq!(
        run.step(Reply::SetUp(Err(PrivilegeError::ServiceUnavailable))),
        done(OperationOutcome::ServiceNotRunning)
    );
    assert_eq!(
        OperationOutcome::ServiceNotRunning.into_result(),
        PrivilegedOperationResult {
            success: false,
            message: Some("服务未启动，请先启动服务后再试".to_string()),
            handler_used: "service_not_running".to_string(),
        }
    );
}

#[test]
fn enable_without_auto_setup_or_handler_reports_not_running() {
    let (mut run, _) = manual().execute_operation(tun(true));
    assert_eq!(run.step(Reply::Available(false)), done(OperationOutcome::ServiceNotRunning));
    let (run, first) = no_handler().execute_operation(tun(true));
    assert_eq!(first, done(OperationOutcome::ServiceNotRunning));
    assert!(run.is_finished());
}

#[test]
fn a_failure_of_the_handler_is_a_result_not_an_error() {
    let (mut run, _) = PrivilegeManager::new().execute_operation(tun(true));
    run.step(Reply::Available(true));
    let error = PrivilegeError::Service(ServiceError::ToolMissing);
    let last = run.step(Reply::Executed(Err(error)));
    assert_eq!(
        last,
        done(OperationOutcome::ExecutionFailed(PrivilegeError::Service(ServiceError::ToolMissing)))
    );
    let result =
        OperationOutcome::ExecutionFailed(PrivilegeError::NotInstalled).into_result();
    assert_eq!(
        result,
        PrivilegedOperationResult {
            success: false,
            message: Some("操作失败: 服务未安装，无法启动".to_string()),
            handler_used: "service".to_string(),
        }
    );
}

#[test]
fn other_operations_take_the_enable_path() {
    let operation = PrivilegedOperation::ModifyNetworkSettings { dns: Some(vec!["1.1.1.1".to_string()]) };
    assert!(!operation.is_disable());
    assert!(tun(false).is_disable());
    assert!(!tun(true).is_disable());
    let (run, first) = PrivilegeManager::new().execute_service_operation(operation);
    assert_eq!(first, Step::Ask(Request::CheckAvailable));
    assert_eq!(run.phase, OperationPhase::EnableCheck);
}

#[test]
fn the_fallback_supports_only_the_tunnel() {
    let operation = PrivilegedOperation::UpdateCorePermissions { core_path: PathBuf::from("/core") };
    let (run, first) = no_handler().handle_disable_operation(operation);
    assert_eq!(first, done(OperationOutcome::Unsupported));
    assert!(run.is_finished());
    assert_eq!(
        OperationOutcome::Unsupported.into_result(),
        PrivilegedOperationResult {
            success: false,
            message: Some("不支持的操作".to_string()),
            handler_used: "unsupported".to_string(),
        }
    );
}

#[test]
fn a_reply_that_was_not_asked_for_fails_the_execution() {
    let (mut run, _) = PrivilegeManager::new().execute_operation(tun(true));
    assert_eq!(run.step(Reply::Slept), Step::Done(Err(PrivilegeError::UnexpectedReply)));
    assert!(run.is_finished());
    assert_eq!(run.step(Reply::Available(true)), Step::Done(Err(PrivilegeError::UnexpectedReply)));
    let mut run = OperationRun { phase: OperationPhase::EnableCheck, operation: None, auto_setup: true };
    assert_eq!(run.step(Reply::Available(true)), Step::Done(Err(PrivilegeError::UnexpectedReply)));
}

#[test]
fn setup_of_a_running_or_stopped_helper() {
    let (mut run, first) = PrivilegeManager::new().auto_setup_service();
    assert_eq!(first, Step::Ask(Request::QueryStatus));
    assert_eq!(run.step(Reply::Status(seen(ServiceStatus::Running))), Step::Done(Ok(())));

    let (mut run, _) = PrivilegeManager::new().auto_setup_service();
    assert_eq!(
        run.step(Reply::Status(seen(ServiceStatus::Stopped))),
        Step::Ask(Request::Control(ControlOp::Start))
    );
    assert_eq!(
        run.step(Reply::Controlled(Err(ServiceError::ToolMissing))),
        Step::Done(Err(PrivilegeError::Service(ServiceError::ToolMissing)))
    );
}

#[test]
fn setup_installs_an_absent_helper() {
    for status in [seen(ServiceStatus::NotInstalled), Err(ServiceError::ToolMissing)] {
        let (mut run, _) = PrivilegeManager::new().auto_setup_service();
        assert_eq!(run.step(Reply::Status(status)), Step::Ask(Request::Control(ControlOp::Install)));
        assert_eq!(
            run.step(Reply::Controlled(Ok(()))),
            Step::Ask(Request::PatchConfig(ConfigPatch {
                enable_tun_mode: None,
                enable_service_mode: Some(true)
            }))
        );
        assert_eq!(
            run.step(Reply::Patched(Err("read only".to_string()))),
            Step::Ask(Request::CheckAvailable)
        );
        assert_eq!(run.step(Reply::Available(false)), Step::Ask(Request::Sleep { secs: 2 }));
        assert_eq!(run.step(Reply::Slept), Step::Ask(Request::CheckAvailable));
        assert_eq!(
            run.step(Reply::Available(false)),
            Step::Ask(Request::Control(ControlOp::Start))
        );
        assert_eq!(run.step(Reply::Controlled(Ok(()))), Step::Done(Ok(())));
        assert_eq!(run.phase, SetupPhase::Finished);
    }
}

#[test]
fn setup_ends_as_soon_as_the_helper_is_available() {
    let (mut run, _) = PrivilegeManager::new().auto_setup_service();
    run.step(Reply::Status(seen(ServiceStatus::NotInstalled)));
    run.step(Reply::Controlled(Ok(())));
    run.step(Reply::Patched(Ok(())));
    assert_eq!(run.step(Reply::Available(true)), Step::Done(Ok(())));

    let (mut run, _) = PrivilegeManager::new().auto_setup_service();
    run.step(Reply::Status(seen(ServiceStatus::NotInstalled)));
    run.step(Reply::Controlled(Ok(())));
    run.step(Reply::Patched(Ok(())));
    run.step(Reply::Available(false));
    run.step(Reply::Slept);
    assert_eq!(run.step(Reply::Available(true)), Step::Done(Ok(())));
}

#[test]
fn setup_reports_a_failed_install() {
    let (mut run, _) = PrivilegeManager::new().auto_setup_service();
    run.step(Reply::Status(seen(ServiceStatus::NotInstalled)));
    let error = ServiceError::ExecutableNotFound { path: "/x".to_string() };
    let last = run.step(Reply::Controlled(Err(error)));
    let expected =
        PrivilegeError::InstallFailed(ServiceError::ExecutableNotFound { path: "/x".to_string() });
    assert_eq!(
        expected.message(),
        "无法安装服务: nyanpasu-service executable not found at: /x. 系统代理和TUN模式需要服务支持。"
    );
    assert_eq!(last, Step::Done(Err(expected)));
}

#[test]
fn setup_without_a_handler_or_with_a_stray_reply() {
    let (run, first) = no_handler().auto_setup_service();
    assert_eq!(first, Step::Done(Err(PrivilegeError::ServiceUnavailable)));
    assert_eq!(run, SetupRun { phase: SetupPhase::Finished });
    let (mut run, _) = PrivilegeManager::new().auto_setup_service();
    assert_eq!(run.step(Reply::Slept), Step::Done(Err(PrivilegeError::UnexpectedReply)));
}

#[test]
fn warm_up_sets_up_an_unavailable_helper() {
    let (mut run, first) = PrivilegeManager::new().warm_up();
    assert_eq!(first, Step::Ask(Request::CheckAvailable));
    assert_eq!(run.step(Reply::Available(false)), Step::Ask(Request::AutoSetup));
    assert_eq!(
        run.step(Reply::SetUp(Err(PrivilegeError::ServiceUnavailable))),
        Step::Done(Ok(()))
    );

    let (mut run, _) = PrivilegeManager::new().warm_up();
    assert_eq!(run.step(Reply::Available(true)), Step::Done(Ok(())));
    let (mut run, _) = manual().warm_up();
    assert_eq!(run.step(Reply::Available(false)), Step::Done(Ok(())));
    let (run, first) = no_handler().warm_up();
    assert_eq!(first, Step::Done(Ok(())));
    assert_eq!(run, WarmUpRun { phase: WarmUpPhase::Finished, auto_setup: true });
    let (mut run, _) = PrivilegeManager::new().warm_up();
    assert_eq!(run.step(Reply::Slept), Step::Done(Err(PrivilegeError::UnexpectedReply)));
}

#[test]
fn privilege_status_follows_the_handler() {
    assert_eq!(
        PrivilegeManager::new().get_privilege_status(true),
        PrivilegeStatus {
            service_available: true,
            service_connected: true,
            current_mode: PrivilegeMode::Service
        }
    );
    assert_eq!(
        PrivilegeManager::new().get_privilege_status(false),
        PrivilegeStatus {
            service_available: true,
            service_connected: false,
            current_mode: PrivilegeMode::Service
        }
    );
    assert_eq!(
        no_handler().get_privilege_status(true),
        PrivilegeStatus {
            service_available: false,
            service_connected: false,
            current_mode: PrivilegeMode::Service
        }
    );
    assert_eq!(PrivilegeMode::default(), PrivilegeMode::Service);
}

#[test]
fn only_the_tunnel_goes_ahead_without_asking() {
    let core = PrivilegedOperation::UpdateCorePermissions { core_path: PathBuf::from("/core") };
    let dns = PrivilegedOperation::ModifyNetworkSettings { dns: None };
    let manager = PrivilegeManager::new();
    assert!(!manager.requires_confirmation(&tun(true)));
    assert!(!manager.requires_confirmation(&tun(false)));
    assert!(manager.requires_confirmation(&core));
    assert!(manager.requires_confirmation(&dns));
    assert!(no_handler().requires_confirmation(&tun(true)));
    let handler = ServicePrivilegeHandler::new();
    assert!(!handler.requires_confirmation(&tun(true)));
    assert!(handler.requires_confirmation(&dns));
    assert_eq!(precheck_privilege_operation(&manager, &tun(true)), Ok(false));
    assert_eq!(precheck_privilege_operation(&manager, &core), Ok(true));
    assert_eq!(precheck_privilege_operation(&no_handler(), &tun(true)), Ok(true));
}

#[test]
fn the_handler_supports_only_the_tunnel() {
    let handler = ServicePrivilegeHandler::new();
    assert_eq!(handler.name(), "service");
    assert!(handler.supports_operation(&tun(true)));
    let core = PrivilegedOperation::UpdateCorePermissions { core_path: PathBuf::from("/core") };
    assert!(!handler.supports_operation(&core));
    assert_eq!(core.kind(), OperationKind::UpdateCorePermissions);
    let (run, first) = handler.execute(core);
    let expected = PrivilegeError::OperationUnsupported(OperationKind::UpdateCorePermissions);
    assert_eq!(expected.message(), "服务不支持此操作: UpdateCorePermissions");
    assert_eq!(first, Step::Done(Err(expected)));
    assert_eq!(run, HandlerRun { phase: HandlerPhase::Finished });
    let dns = PrivilegedOperation::ModifyNetworkSettings { dns: None };
    assert!(!handler.supports_operation(&dns));
    let (_, first) = handler.execute(dns);
    assert_eq!(
        first,
        Step::Done(Err(PrivilegeError::OperationUnsupported(OperationKind::ModifyNetworkSettings)))
    );
}

#[test]
fn the_handler_is_available_only_when_connected_and_running() {
    let handler = ServicePrivilegeHandler::new();
    assert!(handler.is_available(IpcState::Connected, &seen(ServiceStatus::Running)));
    assert!(!handler.is_available(IpcState::Disconnected, &seen(ServiceStatus::Running)));
    assert!(!handler.is_available(IpcState::Connected, &seen(ServiceStatus::Stopped)));
    assert!(!handler.is_available(IpcState::Connected, &seen(ServiceStatus::NotInstalled)));
    assert!(!handler.is_available(IpcState::Connected, &Err(ServiceError::ToolMissing)));
}

#[test]
fn the_handler_writes_the_flag_then_makes_the_helper_run() {
    let handler = ServicePrivilegeHandler::new();
    let (mut run, first) = handler.execute(tun(true));
    assert_eq!(first, Step::Ask(Request::PatchConfig(tun_patch(true))));
    assert_eq!(run.step(Reply::Patched(Ok(()))), Step::Ask(Request::QueryStatus));
    assert_eq!(
        run.step(Reply::Status(seen(ServiceStatus::Stopped))),
        Step::Ask(Request::Control(ControlOp::Start))
    );
    assert_eq!(run.step(Reply::Controlled(Ok(()))), Step::Done(Ok(())));

    let (mut run, _) = handler.execute(tun(false));
    run.step(Reply::Patched(Ok(())));
    assert_eq!(run.step(Reply::Status(seen(ServiceStatus::Running))), Step::Done(Ok(())));

    let (mut run, _) = handler.execute(tun(true));
    run.step(Reply::Patched(Ok(())));
    assert_eq!(
        run.step(Reply::Status(seen(ServiceStatus::NotInstalled))),
        Step::Done(Err(PrivilegeError::NotInstalled))
    );

    let (mut run, _) = handler.execute(tun(true));
    assert_eq!(
        run.step(Reply::Patched(Err("locked".to_string()))),
        Step::Done(Err(PrivilegeError::Config { message: "locked".to_string() }))
    );
    assert_eq!(
        run.step(Reply::Patched(Ok(()))),
        Step::Done(Err(PrivilegeError::UnexpectedReply))
    );
}

#[test]
fn the_commands_of_the_other_operations() {
    let handler = ServicePrivilegeHandler::new();
    let core = PrivilegedOperation::UpdateCorePermissions { core_path: PathBuf::from("/core") };
    let (mut run, first) = handler.send_privileged_command(&core);
    assert_eq!(first, Step::Ask(Request::Control(ControlOp::Restart)));
    assert_eq!(
        run.step(Reply::Controlled(Err(ServiceError::ToolMissing))),
        Step::Done(Err(PrivilegeError::Service(ServiceError::ToolMissing)))
    );
    let dns = PrivilegedOperation::ModifyNetworkSettings { dns: None };
    assert_eq!(handler.send_privileged_command(&dns).1, Step::Done(Ok(())));
    assert_eq!(handler.modify_network_settings_via_service().1, Step::Done(Ok(())));
    assert_eq!(
        handler.update_core_permissions_via_service().1,
        Step::Ask(Request::Control(ControlOp::Restart))
    );
    assert_eq!(
        handler.set_tun_mode_via_service(false).1,
        Step::Ask(Request::PatchConfig(tun_patch(false)))
    );
    assert_eq!(handler.request_core_restart().1, Step::Ask(Request::QueryStatus));
}

#[test]
fn service_utils_read_the_status() {
    assert_eq!(is_service_running(&seen(ServiceStatus::Running)), Ok(true));
    assert_eq!(is_service_running(&seen(ServiceStatus::Stopped)), Ok(false));
    assert_eq!(is_service_running(&Err(ServiceError::ToolMissing)), Ok(false));
    assert_eq!(is_service_installed(&seen(ServiceStatus::Running)), Ok(true));
    assert_eq!(is_service_installed(&seen(ServiceStatus::Stopped)), Ok(true));
    assert_eq!(is_service_installed(&seen(ServiceStatus::NotInstalled)), Ok(false));
    assert_eq!(is_service_installed(&Err(ServiceError::ToolMissing)), Ok(false));
    assert_eq!(ensure_service_running(seen(ServiceStatus::Running)), Step::Done(Ok(())));
    assert_eq!(
        ensure_service_running(seen(ServiceStatus::Stopped)),
        Step::Ask(Request::Control(ControlOp::Start))
    );
    assert_eq!(
        ensure_service_running(seen(ServiceStatus::NotInstalled)),
        Step::Done(Err(PrivilegeError::NotInstalled))
    );
    assert_eq!(
        ensure_service_running(Err(ServiceError::ToolMissing)),
        Step::Done(Err(PrivilegeError::Service(ServiceError::ToolMissing)))
    );
    assert_eq!(
        update_service_mode_config(true),
        ConfigPatch { enable_tun_mode: None, enable_service_mode: Some(true) }
    );
    assert_eq!(update_tun_config(false), tun_patch(false));
}

#[test]
fn status_messages_for_the_user() {
    assert_eq!(
        get_service_status_message(&seen(ServiceStatus::Running)),
        "服务运行中，系统代理和TUN模式可正常使用"
    );
    assert_eq!(get_service_status_message(&seen(ServiceStatus::Stopped)), "服务已安装但未运行");
    assert_eq!(
        get_service_status_message(&seen(ServiceStatus::NotInstalled)),
        "服务未安装，需要安装后才能使用系统代理和TUN模式"
    );
    assert_eq!(
        get_service_status_message(&Err(ServiceError::Launch { message: "boom".to_string() })),
        "无法获取服务状态: boom"
    );
}

#[test]
fn service_errors_in_the_users_words() {
    assert_eq!(
        handle_service_error("服务安装", "permission denied"),
        "服务安装失败: 权限不足。请确保有管理员权限。"
    );
    assert_eq!(
        handle_service_error("服务安装", "no access, not found"),
        "服务安装失败: 权限不足。请确保有管理员权限。"
    );
    assert_eq!(
        handle_service_error("服务卸载", "unit not found"),
        "服务卸载失败: 服务未安装或文件缺失。"
    );
    assert_eq!(
        handle_service_error("服务卸载", "service not installed"),
        "服务卸载失败: 服务未安装或文件缺失。"
    );
    assert_eq!(
        handle_service_error("服务卸载", "timeout"),
        "服务卸载失败: timeout。请检查系统状态或重试。"
    );
}

#[test]
fn tun_mode_shorthands() {
    assert_eq!(set_tun_mode(true), tun(true));
    assert_eq!(toggle_tun_mode(flags(None, None)), tun(true));
    assert_eq!(toggle_tun_mode(flags(Some(false), None)), tun(true));
    assert_eq!(toggle_tun_mode(flags(Some(true), None)), tun(false));
    assert_eq!(tun_mode_set(Ok(OperationOutcome::Executed.into_result())), Ok(()));
    let rejected = tun_mode_set(Ok(OperationOutcome::ServiceNotRunning.into_result()));
    let error = rejected.unwrap_err();
    assert_eq!(error.message(), "设置TUN模式失败: 服务未启动，请先启动服务后再试");
    let silent = PrivilegedOperationResult {
        success: false,
        message: None,
        handler_used: "service".to_string(),
    };
    assert_eq!(tun_mode_set(Ok(silent)).unwrap_err().message(), "设置TUN模式失败: 未知错误");
    assert_eq!(
        tun_mode_set(Err(PrivilegeError::UnexpectedReply)),
        Err(PrivilegeError::UnexpectedReply)
    );
}

#[test]
fn recommendations_and_warnings_follow_the_status() {
    let connected = PrivilegeStatus {
        service_available: true,
        service_connected: true,
        current_mode: PrivilegeMode::Service,
    };
    let disconnected = PrivilegeStatus { service_connected: false, ..connected };
    let disabled = PrivilegeStatus { current_mode: PrivilegeMode::Disabled, ..disconnected };
    assert_eq!(
        get_privilege_recommendations(&connected),
        Ok(vec!["服务模式运行良好，享受丝滑的权限管理体验！".to_string()])
    );
    assert_eq!(
        get_privilege_recommendations(&disconnected),
        Ok(vec!["服务模式已启用但服务未运行，请检查服务状态".to_string()])
    );
    assert_eq!(
        get_privilege_recommendations(&disabled),
        Ok(vec!["权限操作已禁用，某些功能可能无法正常使用".to_string()])
    );
    assert!(!initialize_privilege_system(&connected));
    assert!(initialize_privilege_system(&disconnected));
    assert!(!initialize_privilege_system(&disabled));
}

#[test]
fn messages_of_the_privilege_errors() {
    assert_eq!(PrivilegeError::NotInstalled.message(), "服务未安装，无法启动");
    assert_eq!(PrivilegeError::ServiceUnavailable.message(), "服务功能未编译或不可用");
    assert_eq!(PrivilegeError::Config { message: "x".to_string() }.message(), "x");
    assert_eq!(
        PrivilegeError::Service(ServiceError::ToolMissing).message(),
        ServiceError::ToolMissing.message()
    );
    assert_eq!(
        PrivilegeError::OperationUnsupported(OperationKind::SetTunMode).message(),
        "服务不支持此操作: SetTunMode"
    );
    assert_eq!(
        PrivilegeError::OperationUnsupported(OperationKind::ModifyNetworkSettings).message(),
        "服务不支持此操作: ModifyNetworkSettings"
    );
    assert_eq!(PrivilegeError::UnexpectedReply.message(), "unexpected reply for the pending step");
}

use clash_nyanpasu::privilege::simple_service::{
    recommendation_reads_summary, service_action, service_install, service_recommendation,
    service_remove, service_restart, service_setup, service_start, service_status,
    service_status_summary, service_stop, service_uninstall, CommandPhase, ServiceAction,
    ServiceActionType, ServiceRecommendation, ServiceReport, SimpleServiceStatus,
};
use clash_nyanpasu::privilege::{ConfigFlags, ConfigPatch, Reply, Request, Step};
use clash_nyanpasu::service::error::{ControlOp, ServiceError};
use clash_nyanpasu::service::{ServerInfo, ServiceStatus, StatusInfo};

fn seen(status: ServiceStatus) -> Result<StatusInfo, ServiceError> {
    Ok(StatusInfo {
        name: "svc".to_string(),
        version: "1".to_string(),
        status,
        server: Some(ServerInfo { version: "1.2.3".to_string() }),
    })
}

fn summary(installed: bool, status: ServiceStatus) -> Result<SimpleServiceStatus, String> {
    Ok(SimpleServiceStatus { installed, status, version: None, message: String::new() })
}

fn service_mode(enable: bool) -> Request {
    Request::PatchConfig(ConfigPatch { enable_tun_mode: None, enable_service_mode: Some(enable) })
}

#[test]
fn results_are_worded_for_the_interface() {
    assert_eq!(service_status(seen(ServiceStatus::Running)), Ok(seen(ServiceStatus::Running).unwrap()));
    assert_eq!(
        service_status(Err(ServiceError::ToolMissing)),
        Err(ServiceError::ToolMissing.message())
    );
    assert_eq!(service_install(Ok(())), Ok(()));
    let missing = ServiceError::ExecutableNotFound { path: "/x".to_string() };
    assert_eq!(
        service_install(Err(missing)),
        Err("nyanpasu-service executable not found at: /x".to_string())
    );
    assert_eq!(service_uninstall(Ok(())), Ok(()));
    assert_eq!(service_start(Ok(())), Ok(()));
    assert_eq!(service_stop(Ok(())), Ok(()));
    assert_eq!(service_restart(Ok(())), Ok(()));
    let failed = ServiceError::Launch { message: "boom".to_string() };
    assert_eq!(service_restart(Err(failed.clone())), Err("boom".to_string()));
    assert_eq!(service_stop(Err(failed.clone())), Err("boom".to_string()));
    assert_eq!(service_start(Err(failed.clone())), Err("boom".to_string()));
    assert_eq!(service_uninstall(Err(failed)), Err("boom".to_string()));
}

#[test]
fn the_summary_of_a_running_helper() {
    let out = service_status_summary(
        seen(ServiceStatus::Running),
        &seen(ServiceStatus::Running),
        &seen(ServiceStatus::Running),
    );
    assert_eq!(
        out,
        Ok(SimpleServiceStatus {
            installed: true,
            status: ServiceStatus::Running,
            version: Some("1.2.3".to_string()),
            message: "服务运行中，系统代理和TUN模式可正常使用".to_string(),
        })
    );
}

#[test]
fn the_summary_reads_each_query_for_its_own_field() {
    let first = Ok(StatusInfo {
        name: "svc".to_string(),
        version: "1".to_string(),
        status: ServiceStatus::Stopped,
        server: None,
    });
    let out = service_status_summary(
        first,
        &seen(ServiceStatus::NotInstalled),
        &Err(ServiceError::ToolMissing),
    );
    assert_eq!(
        out,
        Ok(SimpleServiceStatus {
            installed: false,
            status: ServiceStatus::Stopped,
            version: None,
            message: "服务未安装，需要安装后才能使用系统代理和TUN模式".to_string(),
        })
    );
}

#[test]
fn the_summary_of_a_failed_query() {
    let out = service_status_summary(
        Err(ServiceError::Launch { message: "boom".to_string() }),
        &seen(ServiceStatus::Running),
        &seen(ServiceStatus::Running),
    );
    assert_eq!(
        out,
        Ok(SimpleServiceStatus {
            installed: false,
            status: ServiceStatus::NotInstalled,
            version: None,
            message: "无法获取服务状态: boom".to_string(),
        })
    );
}

#[test]
fn setup_of_a_running_helper_does_nothing() {
    let (mut run, first) = service_setup();
    assert_eq!(first, Step::Ask(Request::Summarize));
    assert_eq!(
        run.step(Reply::Summary(summary(true, ServiceStatus::Running))),
        Step::Ask(Request::QueryStatus)
    );
    let last = run.step(Reply::Status(seen(ServiceStatus::Running)));
    assert_eq!(last, Step::Done(ServiceReport::AlreadyRunning));
    assert_eq!(ServiceReport::AlreadyRunning.into_message(), Ok("服务已安装并运行中".to_string()));
}

#[test]
fn setup_installs_and_starts() {
    let (mut run, _) = service_setup();
    assert_eq!(
        run.step(Reply::Summary(summary(false, ServiceStatus::NotInstalled))),
        Step::Ask(Request::Control(ControlOp::Install))
    );
    assert_eq!(run.step(Reply::Controlled(Ok(()))), Step::Ask(service_mode(true)));
    assert_eq!(
        run.step(Reply::Patched(Err("read only".to_string()))),
        Step::Ask(Request::Sleep { secs: 2 })
    );
    assert_eq!(run.step(Reply::Slept), Step::Ask(Request::Summarize));
    assert_eq!(
        run.step(Reply::Summary(summary(false, ServiceStatus::NotInstalled))),
        Step::Ask(Request::Sleep { secs: 2 })
    );
    assert_eq!(run.step(Reply::Slept), Step::Ask(Request::Summarize));
    assert_eq!(
        run.step(Reply::Summary(summary(true, ServiceStatus::Stopped))),
        Step::Ask(Request::QueryStatus)
    );
    assert_eq!(
        run.step(Reply::Status(seen(ServiceStatus::Stopped))),
        Step::Ask(Request::Control(ControlOp::Start))
    );
    assert_eq!(run.step(Reply::Controlled(Ok(()))), Step::Ask(Request::Sleep { secs: 3 }));
    assert_eq!(run.step(Reply::Slept), Step::Done(ServiceReport::Installed));
    assert_eq!(run.phase, CommandPhase::Finished);
    assert_eq!(
        ServiceReport::Installed.into_message(),
        Ok("✅ 服务安装成功！现在可以享受丝滑的TUN模式体验。".to_string())
    );
}

#[test]
fn setup_of_an_installed_helper_that_does_not_run_installs_again() {
    let (mut run, _) = service_setup();
    run.step(Reply::Summary(summary(true, ServiceStatus::Stopped)));
    assert_eq!(
        run.step(Reply::Status(seen(ServiceStatus::Stopped))),
        Step::Ask(Request::Control(ControlOp::Install))
    );
}

#[test]
fn setup_reports_a_start_that_failed() {
    let (mut run, _) = service_setup();
    run.step(Reply::Summary(summary(false, ServiceStatus::NotInstalled)));
    run.step(Reply::Controlled(Ok(())));
    run.step(Reply::Patched(Ok(())));
    run.step(Reply::Slept);
    run.step(Reply::Summary(summary(true, ServiceStatus::Stopped)));
    run.step(Reply::Status(seen(ServiceStatus::Stopped)));
    assert_eq!(
        run.step(Reply::Controlled(Err(ServiceError::ToolMissing))),
        Step::Done(ServiceReport::InstalledNotStarted)
    );
    assert_eq!(
        ServiceReport::InstalledNotStarted.into_message(),
        Ok("✅ 服务安装成功，但启动失败。请手动启动服务。".to_string())
    );
}

#[test]
fn setup_finds_the_installed_helper_running() {
    let (mut run, _) = service_setup();
    run.step(Reply::Summary(summary(false, ServiceStatus::NotInstalled)));
    run.step(Reply::Controlled(Ok(())));
    run.step(Reply::Patched(Ok(())));
    run.step(Reply::Slept);
    run.step(Reply::Summary(summary(true, ServiceStatus::Running)));
    assert_eq!(
        run.step(Reply::Status(seen(ServiceStatus::Running))),
        Step::Done(ServiceReport::Installed)
    );
}

#[test]
fn setup_gives_up_after_thirty_looks() {
    let (mut run, _) = service_setup();
    run.step(Reply::Summary(summary(false, ServiceStatus::NotInstalled)));
    run.step(Reply::Controlled(Ok(())));
    let mut step = run.step(Reply::Patched(Ok(())));
    let mut sleeps = 0;
    let mut looks = 0;
    loop {
        match step {
            Step::Ask(Request::Sleep { secs }) => {
                assert_eq!(secs, 2);
                sleeps += 1;
                step = run.step(Reply::Slept);
            }
            Step::Ask(Request::Summarize) => {
                looks += 1;
                step = run.step(Reply::Summary(summary(false, ServiceStatus::NotInstalled)));
            }
            other => {
                assert_eq!(other, Step::Done(ServiceReport::TimedOut));
                break;
            }
        }
    }
    assert_eq!(sleeps, 30);
    assert_eq!(looks, 30);
    assert_eq!(
        ServiceReport::TimedOut.into_message(),
        Ok("服务安装可能成功，但验证超时。请检查服务状态。".to_string())
    );
}

#[test]
fn setup_reports_failures() {
    let (mut run, _) = service_setup();
    assert_eq!(
        run.step(Reply::Summary(Err("no summary".to_string()))),
        Step::Done(ServiceReport::SummaryFailed("no summary".to_string()))
    );
    assert_eq!(
        ServiceReport::SummaryFailed("no summary".to_string()).into_message(),
        Err("no summary".to_string())
    );
    let (mut run, _) = service_setup();
    run.step(Reply::Summary(summary(false, ServiceStatus::NotInstalled)));
    let denied = ServiceError::Launch { message: "permission denied".to_string() };
    assert_eq!(
        run.step(Reply::Controlled(Err(denied.clone()))),
        Step::Done(ServiceReport::InstallFailed(denied.clone()))
    );
    assert_eq!(
        ServiceReport::InstallFailed(denied).into_message(),
        Err("服务安装失败: 权限不足。请确保有管理员权限。".to_string())
    );
    let (mut run, _) = service_setup();
    run.step(Reply::Summary(summary(false, ServiceStatus::NotInstalled)));
    run.step(Reply::Controlled(Ok(())));
    run.step(Reply::Patched(Ok(())));
    run.step(Reply::Slept);
    assert_eq!(
        run.step(Reply::Summary(Err("gone".to_string()))),
        Step::Done(ServiceReport::SummaryFailed("gone".to_string()))
    );
    assert_eq!(run.step(Reply::Slept), Step::Done(ServiceReport::UnexpectedReply));
    assert_eq!(
        ServiceReport::UnexpectedReply.into_message(),
        Err("unexpected reply for the pending step".to_string())
    );
}

#[test]
fn removal_stops_a_running_helper_first() {
    let (mut run, first) = service_remove();
    assert_eq!(first, Step::Ask(Request::Summarize));
    assert_eq!(
        run.step(Reply::Summary(summary(true, ServiceStatus::Running))),
        Step::Ask(Request::Control(ControlOp::Stop))
    );
    assert_eq!(
        run.step(Reply::Controlled(Err(ServiceError::ToolMissing))),
        Step::Ask(Request::Control(ControlOp::Uninstall))
    );
    assert_eq!(run.step(Reply::Controlled(Ok(()))), Step::Ask(service_mode(false)));
    assert_eq!(
        run.step(Reply::Patched(Err("read only".to_string()))),
        Step::Done(ServiceReport::Removed)
    );
    assert_eq!(
        ServiceReport::Removed.into_message(),
        Ok("✅ 服务卸载成功。系统代理和TUN模式将需要UAC权限确认。".to_string())
    );
}

#[test]
fn removal_of_a_stopped_or_absent_helper() {
    let (mut run, _) = service_remove();
    assert_eq!(
        run.step(Reply::Summary(summary(true, ServiceStatus::Stopped))),
        Step::Ask(Request::Control(ControlOp::Uninstall))
    );
    let failed = ServiceError::Launch { message: "busy".to_string() };
    assert_eq!(
        run.step(Reply::Controlled(Err(failed.clone()))),
        Step::Done(ServiceReport::RemoveFailed(failed.clone()))
    );
    assert_eq!(
        ServiceReport::RemoveFailed(failed).into_message(),
        Err("服务卸载失败: busy。请检查系统状态或重试。".to_string())
    );
    let (mut run, _) = service_remove();
    assert_eq!(
        run.step(Reply::Summary(summary(false, ServiceStatus::Running))),
        Step::Done(ServiceReport::NothingToRemove)
    );
    assert_eq!(
        ServiceReport::NothingToRemove.into_message(),
        Ok("服务未安装，无需卸载".to_string())
    );
    let (mut run, _) = service_remove();
    assert_eq!(
        run.step(Reply::Summary(Err("x".to_string()))),
        Step::Done(ServiceReport::SummaryFailed("x".to_string()))
    );
}

fn none() -> ServiceRecommendation {
    ServiceRecommendation {
        should_recommend: false,
        title: String::new(),
        message: String::new(),
        benefits: vec![],
        action_text: String::new(),
    }
}

#[test]
fn the_service_is_recommended_to_tunnel_users_without_it() {
    let flags = ConfigFlags { enable_tun_mode: Some(true), enable_service_mode: None };
    assert!(recommendation_reads_summary(flags));
    assert_eq!(
        service_recommendation(flags, summary(false, ServiceStatus::NotInstalled)),
        Ok(ServiceRecommendation {
            should_recommend: true,
            title: "建议安装服务模式".to_string(),
            message: "检测到您正在使用TUN模式。安装服务模式可以避免频繁的UAC权限确认，获得更好的使用体验。".to_string(),
            benefits: vec![
                "无需每次确认UAC权限".to_string(),
                "更快的代理切换速度".to_string(),
                "更稳定的权限管理".to_string(),
                "符合系统安全最佳实践".to_string(),
            ],
            action_text: "一键安装服务".to_string(),
        })
    );
    assert_eq!(service_recommendation(flags, summary(true, ServiceStatus::Stopped)), Ok(none()));
    assert_eq!(service_recommendation(flags, Err("x".to_string())), Err("x".to_string()));
}

#[test]
fn nothing_is_recommended_otherwise() {
    for flags in [
        ConfigFlags { enable_tun_mode: None, enable_service_mode: None },
        ConfigFlags { enable_tun_mode: Some(false), enable_service_mode: Some(false) },
        ConfigFlags { enable_tun_mode: Some(true), enable_service_mode: Some(true) },
    ] {
        assert!(!recommendation_reads_summary(flags));
        assert_eq!(
            service_recommendation(flags, summary(false, ServiceStatus::NotInstalled)),
            Ok(none())
        );
        assert_eq!(service_recommendation(flags, Err("x".to_string())), Ok(none()));
    }
}

#[test]
fn the_action_to_offer() {
    assert_eq!(
        service_action(summary(false, ServiceStatus::NotInstalled)),
        Ok(ServiceAction {
            action: ServiceActionType::Install,
            button_text: "安装服务".to_string(),
            description: "安装服务后，系统代理和TUN模式切换将无需UAC确认，提供丝滑的使用体验"
                .to_string(),
            status: ServiceStatus::NotInstalled,
            is_busy: false,
        })
    );
    assert_eq!(
        service_action(summary(true, ServiceStatus::Running)),
        Ok(ServiceAction {
            action: ServiceActionType::Uninstall,
            button_text: "卸载服务".to_string(),
            description: "服务运行中。卸载后系统代理和TUN模式将需要UAC权限确认".to_string(),
            status: ServiceStatus::Running,
            is_busy: false,
        })
    );
    assert_eq!(
        service_action(summary(true, ServiceStatus::Stopped)).unwrap().description,
        "服务已安装但未运行。可以卸载以完全移除服务"
    );
    assert_eq!(
        service_action(summary(true, ServiceStatus::NotInstalled)).unwrap().description,
        "服务未安装"
    );
    assert_eq!(service_action(Err("x".to_string())), Err("x".to_string()));
}

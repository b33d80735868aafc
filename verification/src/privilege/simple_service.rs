//! The service commands of the user interface: plain control, a summary of
//! the status, one-step setup and removal, and what to offer the user.

use vstd::prelude::*;
use vstd::string::*;
use crate::privilege::service_utils::{
    get_service_status_message, handle_service_error, service_error_text, status_message_text,
    update_service_mode_config,
};
use crate::privilege::{flag_or_false, flag_set, ConfigFlags, ConfigPatch, Reply, Request, Step};
use crate::service::control::status_of;
use crate::service::error::{ControlOp, ServiceError};
use crate::service::{ServiceStatus, StatusInfo};

verus! {

/// A result as the user interface takes it: a failure is its own message.
pub open spec fn worded<T>(result: Result<T, ServiceError>, out: Result<T, String>) -> bool {
    match result {
        Ok(value) => out == Ok::<T, String>(value),
        Err(error) => out matches Err(message) && message@ == error.message_text(),
    }
}

fn word<T>(result: Result<T, ServiceError>) -> (out: Result<T, String>)
    ensures
        worded(result, out),
{
    match result {
        Ok(value) => Ok(value),
        Err(error) => Err(error.message()),
    }
}

/// The queried status for the user interface.
pub fn service_status(queried: Result<StatusInfo, ServiceError>) -> (out: Result<
    StatusInfo,
    String,
>)
    ensures
        worded(queried, out),
{
    word(queried)
}

/// The end of an install for the user interface.
pub fn service_install(installed: Result<(), ServiceError>) -> (out: Result<(), String>)
    ensures
        worded(installed, out),
{
    word(installed)
}

/// The end of an uninstall for the user interface.
pub fn service_uninstall(uninstalled: Result<(), ServiceError>) -> (out: Result<(), String>)
    ensures
        worded(uninstalled, out),
{
    word(uninstalled)
}

/// The end of a start for the user interface.
pub fn service_start(started: Result<(), ServiceError>) -> (out: Result<(), String>)
    ensures
        worded(started, out),
{
    word(started)
}

/// The end of a stop for the user interface.
pub fn service_stop(stopped: Result<(), ServiceError>) -> (out: Result<(), String>)
    ensures
        worded(stopped, out),
{
    word(stopped)
}

/// The end of a restart for the user interface.
pub fn service_restart(restarted: Result<(), ServiceError>) -> (out: Result<(), String>)
    ensures
        worded(restarted, out),
{
    word(restarted)
}

/// The helper's status in brief.
#[derive(Clone, Debug, PartialEq, Eq)]
pub struct SimpleServiceStatus {
    pub installed: bool,
    pub status: ServiceStatus,
    /// The version of the helper's server, where it reported one.
    pub version: Option<String>,
    /// The status in words.
    pub message: String,
}

pub open spec fn server_version(info: StatusInfo) -> Option<Seq<char>> {
    match info.server {
        Some(server) => Some(server.version@),
        None => None,
    }
}

pub open spec fn shows_installed(status: Result<StatusInfo, ServiceError>) -> bool {
    status_of(status) is Some && status_of(status) != Some(ServiceStatus::NotInstalled)
}

/// What a summary holds. The status is queried three times: `queried` gives
/// the status and the version, `described` the message, `checked` whether the
/// helper is installed. Where the first query failed the others are not
/// read.
pub open spec fn summarizes(
    queried: Result<StatusInfo, ServiceError>,
    described: Result<StatusInfo, ServiceError>,
    checked: Result<StatusInfo, ServiceError>,
    summary: SimpleServiceStatus,
) -> bool {
    match queried {
        Ok(info) => {
            &&& summary.installed == shows_installed(checked)
            &&& summary.status == info.status
            &&& summary.version.deep_view() == server_version(info)
            &&& summary.message@ == status_message_text(described)
        },
        Err(error) => {
            &&& !summary.installed
            &&& summary.status == ServiceStatus::NotInstalled
            &&& summary.version is None
            &&& summary.message@ == "无法获取服务状态: "@ + error.message_text()
        },
    }
}

/// Summarizes the helper's status. It never fails: a failed query is a
/// summary of a helper that is not installed, with the failure as message.
pub fn service_status_summary(
    queried: Result<StatusInfo, ServiceError>,
    described: &Result<StatusInfo, ServiceError>,
    checked: &Result<StatusInfo, ServiceError>,
) -> (out: Result<SimpleServiceStatus, String>)
    ensures
        out matches Ok(summary) && summarizes(queried, *described, *checked, summary),
{
    match queried {
        Ok(info) => {
            let message = get_service_status_message(described);
            let installed = match checked {
                Ok(seen) => match seen.status {
                    ServiceStatus::NotInstalled => false,
                    _ => true,
                },
                Err(_) => false,
            };
            let version = match info.server {
                Some(server) => Some(server.version),
                None => None,
            };
            Ok(SimpleServiceStatus { installed, status: info.status, version, message })
        },
        Err(error) => {
            let mut message = String::from_str("无法获取服务状态: ");
            let inner = error.message();
            message.append(inner.as_str());
            Ok(
                SimpleServiceStatus {
                    installed: false,
                    status: ServiceStatus::NotInstalled,
                    version: None,
                    message,
                },
            )
        },
    }
}

/// How a one-step setup or removal ended, before it is put into words.
#[derive(Debug, PartialEq, Eq)]
pub enum ServiceReport {
    /// Setup: the helper was installed and running already.
    AlreadyRunning,
    /// Setup: the helper is installed and runs.
    Installed,
    /// Setup: the helper is installed; its start failed.
    InstalledNotStarted,
    /// Setup: the install went through, but the helper did not show as
    /// installed in time.
    TimedOut,
    /// Setup: the install failed.
    InstallFailed(ServiceError),
    /// Removal: the helper was not installed.
    NothingToRemove,
    /// Removal: the helper is uninstalled.
    Removed,
    /// Removal: the uninstall failed.
    RemoveFailed(ServiceError),
    /// The summary of the status could not be had; the message is its
    /// failure.
    SummaryFailed(String),
    /// A reply was handed in that the pending step did not ask for.
    UnexpectedReply,
}

impl ServiceReport {
    /// The report in the user's words: `Ok` for what the user can go on
    /// with, `Err` for a failure.
    pub open spec fn wording(self) -> Result<Seq<char>, Seq<char>> {
        match self {
            ServiceReport::AlreadyRunning => Ok("服务已安装并运行中"@),
            ServiceReport::Installed => Ok("✅ 服务安装成功！现在可以享受丝滑的TUN模式体验。"@),
            ServiceReport::InstalledNotStarted => Ok(
                "✅ 服务安装成功，但启动失败。请手动启动服务。"@,
            ),
            ServiceReport::TimedOut => Ok("服务安装可能成功，但验证超时。请检查服务状态。"@),
            ServiceReport::InstallFailed(error) => Err(
                service_error_text("服务安装"@, error.message_text()),
            ),
            ServiceReport::NothingToRemove => Ok("服务未安装，无需卸载"@),
            ServiceReport::Removed => Ok(
                "✅ 服务卸载成功。系统代理和TUN模式将需要UAC权限确认。"@,
            ),
            ServiceReport::RemoveFailed(error) => Err(
                service_error_text("服务卸载"@, error.message_text()),
            ),
            ServiceReport::SummaryFailed(message) => Err(message@),
            ServiceReport::UnexpectedReply => Err("unexpected reply for the pending step"@),
        }
    }

    /// Puts the report into the user's words.
    pub fn into_message(self) -> (out: Result<String, String>)
        ensures
            match self.wording() {
                Ok(text) => out matches Ok(message) && message@ == text,
                Err(text) => out matches Err(message) && message@ == text,
            },
    {
        match self {
            ServiceReport::AlreadyRunning => Ok(String::from_str("服务已安装并运行中")),
            ServiceReport::Installed => Ok(
                String::from_str("✅ 服务安装成功！现在可以享受丝滑的TUN模式体验。"),
            ),
            ServiceReport::InstalledNotStarted => Ok(
                String::from_str("✅ 服务安装成功，但启动失败。请手动启动服务。"),
            ),
            ServiceReport::TimedOut => Ok(
                String::from_str("服务安装可能成功，但验证超时。请检查服务状态。"),
            ),
            ServiceReport::InstallFailed(error) => {
                let inner = error.message();
                Err(handle_service_error("服务安装", inner.as_str()))
            },
            ServiceReport::NothingToRemove => Ok(String::from_str("服务未安装，无需卸载")),
            ServiceReport::Removed => Ok(
                String::from_str("✅ 服务卸载成功。系统代理和TUN模式将需要UAC权限确认。"),
            ),
            ServiceReport::RemoveFailed(error) => {
                let inner = error.message();
                Err(handle_service_error("服务卸载", inner.as_str()))
            },
            ServiceReport::SummaryFailed(message) => Err(message),
            ServiceReport::UnexpectedReply => Err(
                String::from_str("unexpected reply for the pending step"),
            ),
        }
    }
}

/// What a setup or removal is waiting for.
#[derive(Clone, Copy, Debug, PartialEq, Eq, Structural)]
pub enum CommandPhase {
    /// Setup: the summary before anything is done.
    Surveying,
    /// Setup: the status that shows whether an installed helper runs.
    SurveyRunning,
    /// Setup: the end of the install.
    Installing,
    /// Setup: the write of the service-mode flag.
    Enabling,
    /// Setup: the pause before look number `round` at the install.
    Waiting { round: u8 },
    /// Setup: the summary of look number `round`.
    Polling { round: u8 },
    /// Setup: the status that shows whether the installed helper runs.
    PollRunning,
    /// Setup: the end of the helper's start.
    Starting,
    /// Setup: the pause that lets the started helper come up.
    Resting,
    /// Removal: the summary before anything is done.
    Inspecting,
    /// Removal: the end of the helper's stop.
    Stopping,
    /// Removal: the end of the uninstall.
    Removing,
    /// Removal: the write of the service-mode flag.
    Disabling,
    /// Nothing: the command is over.
    Finished,
}

/// One run of a setup or of a removal.
#[derive(Clone, Copy, Debug, PartialEq, Eq, Structural)]
pub struct CommandRun {
    pub phase: CommandPhase,
}

/// The looks a setup takes at a fresh install before it gives up waiting.
pub const SETUP_ROUNDS: u8 = 30;

/// The seconds between two looks.
pub const SETUP_ROUND_SECS: u64 = 2;

/// The seconds a started helper is given to come up.
pub const SETUP_REST_SECS: u64 = 3;

pub open spec fn command_at(phase: CommandPhase, request: Request) -> (
    CommandRun,
    Step<ServiceReport>,
) {
    (CommandRun { phase: phase }, Step::Ask(request))
}

pub open spec fn command_over(report: ServiceReport) -> (CommandRun, Step<ServiceReport>) {
    (CommandRun { phase: CommandPhase::Finished }, Step::Done(report))
}

pub open spec fn summary_installed(summary: Result<SimpleServiceStatus, String>) -> bool {
    summary matches Ok(s) && s.installed
}

/// A step of a setup or a removal.
///
/// A setup of a helper that is installed and runs does nothing. Otherwise
/// the helper is installed and service mode is configured; then, every two
/// seconds and thirty times at most, the summary is looked at, and as soon as
/// it shows the helper installed the helper is started where it does not run.
///
/// A removal of a helper that is not installed does nothing. Otherwise a
/// running helper is stopped first, whether or not that succeeds; then the
/// helper is uninstalled and service mode is switched off in the
/// configuration.
pub open spec fn command_step(run: CommandRun, reply: Reply) -> (CommandRun, Step<ServiceReport>) {
    match (run.phase, reply) {
        (CommandPhase::Surveying, Reply::Summary(Err(message))) => command_over(
            ServiceReport::SummaryFailed(message),
        ),
        (CommandPhase::Surveying, Reply::Summary(Ok(summary))) => {
            if summary.installed {
                command_at(CommandPhase::SurveyRunning, Request::QueryStatus)
            } else {
                command_at(CommandPhase::Installing, Request::Control(ControlOp::Install))
            }
        },
        (CommandPhase::SurveyRunning, Reply::Status(status)) => {
            if status_of(status) == Some(ServiceStatus::Running) {
                command_over(ServiceReport::AlreadyRunning)
            } else {
                command_at(CommandPhase::Installing, Request::Control(ControlOp::Install))
            }
        },
        (CommandPhase::Installing, Reply::Controlled(Ok(()))) => command_at(
            CommandPhase::Enabling,
            Request::PatchConfig(
                ConfigPatch { enable_tun_mode: None, enable_service_mode: Some(true) },
            ),
        ),
        (CommandPhase::Installing, Reply::Controlled(Err(error))) => command_over(
            ServiceReport::InstallFailed(error),
        ),
        (CommandPhase::Enabling, Reply::Patched(_)) => command_at(
            CommandPhase::Waiting { round: 0 },
            Request::Sleep { secs: SETUP_ROUND_SECS },
        ),
        (CommandPhase::Waiting { round }, Reply::Slept) => command_at(
            CommandPhase::Polling { round: round },
            Request::Summarize,
        ),
        (CommandPhase::Polling { round }, Reply::Summary(Err(message))) => command_over(
            ServiceReport::SummaryFailed(message),
        ),
        (CommandPhase::Polling { round }, Reply::Summary(Ok(summary))) => {
            if summary.installed {
                command_at(CommandPhase::PollRunning, Request::QueryStatus)
            } else if round + 1 >= SETUP_ROUNDS {
                command_over(ServiceReport::TimedOut)
            } else {
                command_at(
                    CommandPhase::Waiting { round: (round + 1) as u8 },
                    Request::Sleep { secs: SETUP_ROUND_SECS },
                )
            }
        },
        (CommandPhase::PollRunning, Reply::Status(status)) => {
            if status_of(status) == Some(ServiceStatus::Running) {
                command_over(ServiceReport::Installed)
            } else {
                command_at(CommandPhase::Starting, Request::Control(ControlOp::Start))
            }
        },
        (CommandPhase::Starting, Reply::Controlled(Ok(()))) => command_at(
            CommandPhase::Resting,
            Request::Sleep { secs: SETUP_REST_SECS },
        ),
        (CommandPhase::Starting, Reply::Controlled(Err(_))) => command_over(
            ServiceReport::InstalledNotStarted,
        ),
        (CommandPhase::Resting, Reply::Slept) => command_over(ServiceReport::Installed),
        (CommandPhase::Inspecting, Reply::Summary(Err(message))) => command_over(
            ServiceReport::SummaryFailed(message),
        ),
        (CommandPhase::Inspecting, Reply::Summary(Ok(summary))) => {
            if !summary.installed {
                command_over(ServiceReport::NothingToRemove)
            } else if summary.status == ServiceStatus::Running {
                command_at(CommandPhase::Stopping, Request::Control(ControlOp::Stop))
            } else {
                command_at(CommandPhase::Removing, Request::Control(ControlOp::Uninstall))
            }
        },
        (CommandPhase::Stopping, Reply::Controlled(_)) => command_at(
            CommandPhase::Removing,
            Request::Control(ControlOp::Uninstall),
        ),
        (CommandPhase::Removing, Reply::Controlled(Ok(()))) => command_at(
            CommandPhase::Disabling,
            Request::PatchConfig(
                ConfigPatch { enable_tun_mode: None, enable_service_mode: Some(false) },
            ),
        ),
        (CommandPhase::Removing, Reply::Controlled(Err(error))) => command_over(
            ServiceReport::RemoveFailed(error),
        ),
        (CommandPhase::Disabling, Reply::Patched(_)) => command_over(ServiceReport::Removed),
        _ => command_over(ServiceReport::UnexpectedReply),
    }
}

fn shows_running(status: &Result<StatusInfo, ServiceError>) -> (running: bool)
    ensures
        running == (status_of(*status) == Some(ServiceStatus::Running)),
{
    match status {
        Ok(info) => match info.status {
            ServiceStatus::Running => true,
            _ => false,
        },
        Err(_) => false,
    }
}

impl CommandRun {
    fn at(&mut self, phase: CommandPhase, request: Request) -> (next: Step<ServiceReport>)
        ensures
            (*final(self), next) == command_at(phase, request),
    {
        self.phase = phase;
        Step::Ask(request)
    }

    fn over(&mut self, report: ServiceReport) -> (next: Step<ServiceReport>)
        ensures
            (*final(self), next) == command_over(report),
    {
        self.phase = CommandPhase::Finished;
        Step::Done(report)
    }

    /// Takes the reply to what was last asked for and gives the next step.
    pub fn step(&mut self, reply: Reply) -> (next: Step<ServiceReport>)
        ensures
            (*final(self), next) == command_step(*old(self), reply),
    {
        match (self.phase, reply) {
            (CommandPhase::Surveying, Reply::Summary(Err(message))) => self.over(
                ServiceReport::SummaryFailed(message),
            ),
            (CommandPhase::Surveying, Reply::Summary(Ok(summary))) => {
                if summary.installed {
                    self.at(CommandPhase::SurveyRunning, Request::QueryStatus)
                } else {
                    self.at(CommandPhase::Installing, Request::Control(ControlOp::Install))
                }
            },
            (CommandPhase::SurveyRunning, Reply::Status(status)) => {
                if shows_running(&status) {
                    self.over(ServiceReport::AlreadyRunning)
                } else {
                    self.at(CommandPhase::Installing, Request::Control(ControlOp::Install))
                }
            },
            (CommandPhase::Installing, Reply::Controlled(Ok(()))) => self.at(
                CommandPhase::Enabling,
                Request::PatchConfig(update_service_mode_config(true)),
            ),
            (CommandPhase::Installing, Reply::Controlled(Err(error))) => self.over(
                ServiceReport::InstallFailed(error),
            ),
            (CommandPhase::Enabling, Reply::Patched(_)) => self.at(
                CommandPhase::Waiting { round: 0 },
                Request::Sleep { secs: SETUP_ROUND_SECS },
            ),
            (CommandPhase::Waiting { round }, Reply::Slept) => self.at(
                CommandPhase::Polling { round },
                Request::Summarize,
            ),
            (CommandPhase::Polling { round }, Reply::Summary(Err(message))) => self.over(
                ServiceReport::SummaryFailed(message),
            ),
            (CommandPhase::Polling { round }, Reply::Summary(Ok(summary))) => {
                if summary.installed {
                    self.at(CommandPhase::PollRunning, Request::QueryStatus)
                } else if round >= SETUP_ROUNDS - 1 {
                    self.over(ServiceReport::TimedOut)
                } else {
                    self.at(
                        CommandPhase::Waiting { round: round + 1 },
                        Request::Sleep { secs: SETUP_ROUND_SECS },
                    )
                }
            },
            (CommandPhase::PollRunning, Reply::Status(status)) => {
                if shows_running(&status) {
                    self.over(ServiceReport::Installed)
                } else {
                    self.at(CommandPhase::Starting, Request::Control(ControlOp::Start))
                }
            },
            (CommandPhase::Starting, Reply::Controlled(Ok(()))) => self.at(
                CommandPhase::Resting,
                Request::Sleep { secs: SETUP_REST_SECS },
            ),
            (CommandPhase::Starting, Reply::Controlled(Err(_))) => self.over(
                ServiceReport::InstalledNotStarted,
            ),
            (CommandPhase::Resting, Reply::Slept) => self.over(ServiceReport::Installed),
            (CommandPhase::Inspecting, Reply::Summary(Err(message))) => self.over(
                ServiceReport::SummaryFailed(message),
            ),
            (CommandPhase::Inspecting, Reply::Summary(Ok(summary))) => {
                if !summary.installed {
                    self.over(ServiceReport::NothingToRemove)
                } else {
                    match summary.status {
                        ServiceStatus::Running => self.at(
                            CommandPhase::Stopping,
                            Request::Control(ControlOp::Stop),
                        ),
                        _ => self.at(
                            CommandPhase::Removing,
                            Request::Control(ControlOp::Uninstall),
                        ),
                    }
                }
            },
            (CommandPhase::Stopping, Reply::Controlled(_)) => self.at(
                CommandPhase::Removing,
                Request::Control(ControlOp::Uninstall),
            ),
            (CommandPhase::Removing, Reply::Controlled(Ok(()))) => self.at(
                CommandPhase::Disabling,
                Request::PatchConfig(update_service_mode_config(false)),
            ),
            (CommandPhase::Removing, Reply::Controlled(Err(error))) => self.over(
                ServiceReport::RemoveFailed(error),
            ),
            (CommandPhase::Disabling, Reply::Patched(_)) => self.over(ServiceReport::Removed),
            _ => self.over(ServiceReport::UnexpectedReply),
        }
    }
}

/// Begins a one-step setup: install, configure service mode, start.
pub fn service_setup() -> (started: (CommandRun, Step<ServiceReport>))
    ensures
        started == command_at(CommandPhase::Surveying, Request::Summarize),
{
    (CommandRun { phase: CommandPhase::Surveying }, Step::Ask(Request::Summarize))
}

/// Begins a removal: stop, uninstall, switch service mode off.
pub fn service_remove() -> (started: (CommandRun, Step<ServiceReport>))
    ensures
        started == command_at(CommandPhase::Inspecting, Request::Summarize),
{
    (CommandRun { phase: CommandPhase::Inspecting }, Step::Ask(Request::Summarize))
}

/// Whether and how the service is recommended to the user.
#[derive(Clone, Debug, PartialEq, Eq)]
pub struct ServiceRecommendation {
    pub should_recommend: bool,
    pub title: String,
    pub message: String,
    pub benefits: Vec<String>,
    pub action_text: String,
}

/// The summary has to be looked at: the tunnel is in use without service
/// mode.
pub open spec fn recommendation_needs_summary(flags: ConfigFlags) -> bool {
    flag_set(flags.enable_tun_mode) && !flag_set(flags.enable_service_mode)
}

pub open spec fn benefit_texts() -> Seq<Seq<char>> {
    seq![
        "无需每次确认UAC权限"@,
        "更快的代理切换速度"@,
        "更稳定的权限管理"@,
        "符合系统安全最佳实践"@,
    ]
}

/// The recommendation made where the tunnel is used without the service.
pub open spec fn is_recommendation(r: ServiceRecommendation) -> bool {
    &&& r.should_recommend
    &&& r.title@ == "建议安装服务模式"@
    &&& r.message@
        == "检测到您正在使用TUN模式。安装服务模式可以避免频繁的UAC权限确认，获得更好的使用体验。"@
    &&& r.benefits.deep_view() == benefit_texts()
    &&& r.action_text@ == "一键安装服务"@
}

/// The empty recommendation.
pub open spec fn is_no_recommendation(r: ServiceRecommendation) -> bool {
    &&& !r.should_recommend
    &&& r.title@ == Seq::<char>::empty()
    &&& r.message@ == Seq::<char>::empty()
    &&& r.benefits.deep_view() == Seq::<Seq<char>>::empty()
    &&& r.action_text@ == Seq::<char>::empty()
}

/// What `service_recommendation` returns. The summary is read only where
/// the tunnel is in use without service mode; there its failure is the
/// failure, and a helper that is not installed is recommended.
pub open spec fn recommendation_meets(
    flags: ConfigFlags,
    summary: Result<SimpleServiceStatus, String>,
    out: Result<ServiceRecommendation, String>,
) -> bool {
    if recommendation_needs_summary(flags) {
        match summary {
            Err(message) => out == Err::<ServiceRecommendation, String>(message),
            Ok(s) => out matches Ok(r) && (if s.installed {
                is_no_recommendation(r)
            } else {
                is_recommendation(r)
            }),
        }
    } else {
        out matches Ok(r) && is_no_recommendation(r)
    }
}

/// Whether `service_recommendation` reads the summary under these flags.
pub fn recommendation_reads_summary(flags: ConfigFlags) -> (reads: bool)
    ensures
        reads == recommendation_needs_summary(flags),
{
    flag_or_false(flags.enable_tun_mode) && !flag_or_false(flags.enable_service_mode)
}

/// Decides whether to recommend the service to the user.
pub fn service_recommendation(
    flags: ConfigFlags,
    summary: Result<SimpleServiceStatus, String>,
) -> (out: Result<ServiceRecommendation, String>)
    ensures
        recommendation_meets(flags, summary, out),
{
    if recommendation_reads_summary(flags) {
        match summary {
            Err(message) => {
                return Err(message);
            },
            Ok(status) => {
                if !status.installed {
                    let mut benefits: Vec<String> = Vec::new();
                    benefits.push(String::from_str("无需每次确认UAC权限"));
                    benefits.push(String::from_str("更快的代理切换速度"));
                    benefits.push(String::from_str("更稳定的权限管理"));
                    benefits.push(String::from_str("符合系统安全最佳实践"));
                    assert(benefits.deep_view() =~= benefit_texts());
                    return Ok(
                        ServiceRecommendation {
                            should_recommend: true,
                            title: String::from_str("建议安装服务模式"),
                            message: String::from_str(
                                "检测到您正在使用TUN模式。安装服务模式可以避免频繁的UAC权限确认，获得更好的使用体验。",
                            ),
                            benefits,
                            action_text: String::from_str("一键安装服务"),
                        },
                    );
                }
            },
        }
    }
    let benefits: Vec<String> = Vec::new();
    assert(benefits.deep_view() =~= Seq::<Seq<char>>::empty());
    Ok(
        ServiceRecommendation {
            should_recommend: false,
            title: String::new(),
            message: String::new(),
            benefits,
            action_text: String::new(),
        },
    )
}

/// What the user can do about the service.
#[derive(Clone, Copy, Debug, PartialEq, Eq, Structural)]
pub enum ServiceActionType {
    Install,
    Uninstall,
}

/// The action to offer, with the words for its button.
#[derive(Clone, Debug, PartialEq, Eq)]
pub struct ServiceAction {
    pub action: ServiceActionType,
    pub button_text: String,
    pub description: String,
    pub status: ServiceStatus,
    pub is_busy: bool,
}

pub open spec fn action_for(installed: bool) -> ServiceActionType {
    if installed {
        ServiceActionType::Uninstall
    } else {
        ServiceActionType::Install
    }
}

pub open spec fn button_text(action: ServiceActionType) -> Seq<char> {
    match action {
        ServiceActionType::Install => "安装服务"@,
        ServiceActionType::Uninstall => "卸载服务"@,
    }
}

pub open spec fn action_description(action: ServiceActionType, status: ServiceStatus) -> Seq<char> {
    match (action, status) {
        (ServiceActionType::Install, _) =>
            "安装服务后，系统代理和TUN模式切换将无需UAC确认，提供丝滑的使用体验"@,
        (ServiceActionType::Uninstall, ServiceStatus::Running) =>
            "服务运行中。卸载后系统代理和TUN模式将需要UAC权限确认"@,
        (ServiceActionType::Uninstall, ServiceStatus::Stopped) =>
            "服务已安装但未运行。可以卸载以完全移除服务"@,
        (ServiceActionType::Uninstall, ServiceStatus::NotInstalled) => "服务未安装"@,
    }
}

/// The action to offer for a summary: an install where the helper is not
/// installed, an uninstall where it is. The failure of the summary is the
/// failure.
pub fn service_action(summary: Result<SimpleServiceStatus, String>) -> (out: Result<
    ServiceAction,
    String,
>)
    ensures
        match summary {
            Err(message) => out == Err::<ServiceAction, String>(message),
            Ok(s) => out matches Ok(a) && a.action == action_for(s.installed) && a.button_text@
                == button_text(a.action) && a.description@ == action_description(
                a.action,
                s.status,
            ) && a.status == s.status && !a.is_busy,
        },
{
    let status = match summary {
        Ok(status) => status,
        Err(message) => {
            return Err(message);
        },
    };
    let action = if !status.installed {
        ServiceActionType::Install
    } else {
        ServiceActionType::Uninstall
    };
    let button_text = match action {
        ServiceActionType::Install => String::from_str("安装服务"),
        ServiceActionType::Uninstall => String::from_str("卸载服务"),
    };
    let description = match (action, status.status) {
        (ServiceActionType::Install, _) => String::from_str(
            "安装服务后，系统代理和TUN模式切换将无需UAC确认，提供丝滑的使用体验",
        ),
        (ServiceActionType::Uninstall, ServiceStatus::Running) => String::from_str(
            "服务运行中。卸载后系统代理和TUN模式将需要UAC权限确认",
        ),
        (ServiceActionType::Uninstall, ServiceStatus::Stopped) => String::from_str(
            "服务已安装但未运行。可以卸载以完全移除服务",
        ),
        (ServiceActionType::Uninstall, ServiceStatus::NotInstalled) => String::from_str(
            "服务未安装",
        ),
    };
    Ok(ServiceAction { action, button_text, description, status: status.status, is_busy: false })
}

/// How many steps a phase of a setup or removal is from the end at most.
pub open spec fn command_steps_left(phase: CommandPhase) -> nat {
    match phase {
        CommandPhase::Surveying => 70,
        CommandPhase::SurveyRunning => 69,
        CommandPhase::Installing => 68,
        CommandPhase::Enabling => 67,
        CommandPhase::Waiting { round } => if round < SETUP_ROUNDS {
            (4 + 2 * (SETUP_ROUNDS - round)) as nat
        } else {
            5
        },
        CommandPhase::Polling { round } => if round < SETUP_ROUNDS {
            (3 + 2 * (SETUP_ROUNDS - round)) as nat
        } else {
            4
        },
        CommandPhase::PollRunning => 3,
        CommandPhase::Starting => 2,
        CommandPhase::Resting => 1,
        CommandPhase::Inspecting => 4,
        CommandPhase::Stopping => 3,
        CommandPhase::Removing => 2,
        CommandPhase::Disabling => 1,
        CommandPhase::Finished => 0,
    }
}

/// Every step brings a setup or removal nearer to its end, whatever the
/// reply: a setup looks at a fresh install thirty times at most, and a
/// removal is over after four steps.
pub proof fn lemma_command_makes_progress(run: CommandRun, reply: Reply)
    requires
        run.phase != CommandPhase::Finished,
    ensures
        command_steps_left(command_step(run, reply).0.phase) < command_steps_left(run.phase),
        command_step(run, reply).1 is Done <==> command_step(run, reply).0.phase
            == CommandPhase::Finished,
{
}

} // verus!

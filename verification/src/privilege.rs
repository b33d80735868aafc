//! Privileged operations and the values they are reported with.
//!
//! Policy. An operation that switches something on sets the helper up by
//! itself where it is not available: it installs and starts it, once. The
//! operation that switches the tunnel off stops the helper afterwards where
//! the tunnel was its last user. What fails in carrying an operation out is
//! reported in its result, with `success` false and a message; it does not
//! fail the call.

use vstd::prelude::*;
use vstd::string::*;
use crate::service::error::{ControlOp, ServiceError};
use crate::service::StatusInfo;

pub mod manager;
pub mod operations;
pub mod service_handler;
pub mod service_utils;
pub mod simple_service;

verus! {

/// `std::path::PathBuf`, carried through without a look inside.
#[verifier::external_type_specification]
#[verifier::external_body]
pub struct ExPathBuf(std::path::PathBuf);

/// An action that needs elevated rights. The caller passes it in; it is
/// never stored beyond the call.
#[derive(Debug, PartialEq, Eq)]
pub enum PrivilegedOperation {
    /// Switch the tunnel interface on or off.
    SetTunMode { enable: bool },
    /// Change network settings.
    ModifyNetworkSettings { dns: Option<Vec<String>> },
    /// Renew the rights on the proxy core's binary.
    UpdateCorePermissions { core_path: std::path::PathBuf },
}

/// The kind of an operation, without what it carries.
#[derive(Clone, Copy, Debug, PartialEq, Eq, Structural)]
pub enum OperationKind {
    SetTunMode,
    ModifyNetworkSettings,
    UpdateCorePermissions,
}

impl OperationKind {
    pub open spec fn name_text(self) -> Seq<char> {
        match self {
            OperationKind::SetTunMode => "SetTunMode"@,
            OperationKind::ModifyNetworkSettings => "ModifyNetworkSettings"@,
            OperationKind::UpdateCorePermissions => "UpdateCorePermissions"@,
        }
    }

    pub fn name(&self) -> (out: &'static str)
        ensures
            out@ == self.name_text(),
    {
        match self {
            OperationKind::SetTunMode => "SetTunMode",
            OperationKind::ModifyNetworkSettings => "ModifyNetworkSettings",
            OperationKind::UpdateCorePermissions => "UpdateCorePermissions",
        }
    }
}

impl PrivilegedOperation {
    pub open spec fn kind_of(self) -> OperationKind {
        match self {
            PrivilegedOperation::SetTunMode { .. } => OperationKind::SetTunMode,
            PrivilegedOperation::ModifyNetworkSettings { .. } => OperationKind::ModifyNetworkSettings,
            PrivilegedOperation::UpdateCorePermissions { .. } => OperationKind::UpdateCorePermissions,
        }
    }

    pub fn kind(&self) -> (kind: OperationKind)
        ensures
            kind == self.kind_of(),
    {
        match self {
            PrivilegedOperation::SetTunMode { .. } => OperationKind::SetTunMode,
            PrivilegedOperation::ModifyNetworkSettings { .. } => OperationKind::ModifyNetworkSettings,
            PrivilegedOperation::UpdateCorePermissions { .. } => OperationKind::UpdateCorePermissions,
        }
    }

    /// The operation switches the tunnel off. Every other operation switches
    /// something on.
    pub open spec fn disables(self) -> bool {
        self == (PrivilegedOperation::SetTunMode { enable: false })
    }

    pub fn is_disable(&self) -> (disable: bool)
        ensures
            disable == self.disables(),
    {
        match self {
            PrivilegedOperation::SetTunMode { enable } => !*enable,
            _ => false,
        }
    }
}

/// A partial configuration: each flag is written where it is `Some` and left
/// alone where it is `None`.
#[derive(Clone, Copy, Debug, PartialEq, Eq, Structural)]
pub struct ConfigPatch {
    pub enable_tun_mode: Option<bool>,
    pub enable_service_mode: Option<bool>,
}

/// The flags of the effective configuration, `None` where none is set.
#[derive(Clone, Copy, Debug, PartialEq, Eq, Structural)]
pub struct ConfigFlags {
    pub enable_tun_mode: Option<bool>,
    pub enable_service_mode: Option<bool>,
}

pub open spec fn flag_set(flag: Option<bool>) -> bool {
    flag == Some(true)
}

pub fn flag_or_false(flag: Option<bool>) -> (set: bool)
    ensures
        set == flag_set(flag),
{
    match flag {
        Some(value) => value,
        None => false,
    }
}

/// Why a privileged operation, or the setting up of the helper for it, did
/// not go through.
#[derive(Debug, PartialEq, Eq)]
pub enum PrivilegeError {
    /// Querying or controlling the helper failed.
    Service(ServiceError),
    /// The helper would have to be started and is not installed.
    NotInstalled,
    /// The handler declines operations of this kind.
    OperationUnsupported(OperationKind),
    /// Writing the configuration failed; `message` is the cause as the
    /// configuration store words it.
    Config { message: String },
    /// The helper could not be installed.
    InstallFailed(ServiceError),
    /// No handler for the helper is at hand.
    ServiceUnavailable,
    /// The operation was carried out and reported no success; `reported` is
    /// the message of its result.
    TunModeRejected { reported: Option<String> },
    /// A reply was handed in that the pending step did not ask for.
    UnexpectedReply,
}

impl PrivilegeError {
    /// The text shown for the failure.
    pub open spec fn message_text(self) -> Seq<char> {
        match self {
            PrivilegeError::Service(error) => error.message_text(),
            PrivilegeError::NotInstalled => "服务未安装，无法启动"@,
            PrivilegeError::OperationUnsupported(kind) => "服务不支持此操作: "@ + kind.name_text(),
            PrivilegeError::Config { message } => message@,
            PrivilegeError::InstallFailed(error) => "无法安装服务: "@ + error.message_text()
                + ". 系统代理和TUN模式需要服务支持。"@,
            PrivilegeError::ServiceUnavailable => "服务功能未编译或不可用"@,
            PrivilegeError::TunModeRejected { reported } => "设置TUN模式失败: "@ + (match reported {
                Some(text) => text@,
                None => "未知错误"@,
            }),
            PrivilegeError::UnexpectedReply => "unexpected reply for the pending step"@,
        }
    }

    /// Renders the failure for display.
    pub fn message(&self) -> (out: String)
        ensures
            out@ == self.message_text(),
    {
        match self {
            PrivilegeError::Service(error) => error.message(),
            PrivilegeError::NotInstalled => String::from_str("服务未安装，无法启动"),
            PrivilegeError::OperationUnsupported(kind) => {
                let mut out = String::from_str("服务不支持此操作: ");
                out.append(kind.name());
                out
            },
            PrivilegeError::Config { message } => message.clone(),
            PrivilegeError::InstallFailed(error) => {
                let mut out = String::from_str("无法安装服务: ");
                let inner = error.message();
                out.append(inner.as_str());
                out.append(". 系统代理和TUN模式需要服务支持。");
                out
            },
            PrivilegeError::ServiceUnavailable => String::from_str("服务功能未编译或不可用"),
            PrivilegeError::TunModeRejected { reported } => {
                let mut out = String::from_str("设置TUN模式失败: ");
                match reported {
                    Some(text) => {
                        out.append(text.as_str());
                    },
                    None => {
                        out.append("未知错误");
                    },
                }
                out
            },
            PrivilegeError::UnexpectedReply => String::from_str(
                "unexpected reply for the pending step",
            ),
        }
    }
}

/// What a step asks the caller to do outside.
#[derive(Debug, PartialEq, Eq)]
pub enum Request {
    /// Query the helper's status; reply with `Reply::Status`.
    QueryStatus,
    /// Ask the handler whether it is available; reply with
    /// `Reply::Available`.
    CheckAvailable,
    /// Run a control operation to its end; reply with `Reply::Controlled`.
    Control(ControlOp),
    /// Write the flags to the configuration; reply with `Reply::Patched`.
    PatchConfig(ConfigPatch),
    /// Read the effective configuration; reply with `Reply::Config`.
    ReadConfig,
    /// Have the handler execute the operation; reply with `Reply::Executed`.
    Execute(PrivilegedOperation),
    /// Set the helper up; reply with `Reply::SetUp`.
    AutoSetup,
    /// Summarize the helper's status; reply with `Reply::Summary`.
    Summarize,
    /// Sleep; reply with `Reply::Slept`.
    Sleep { secs: u64 },
}

/// The outcome of what was asked for.
#[derive(Debug, PartialEq, Eq)]
pub enum Reply {
    Status(Result<StatusInfo, ServiceError>),
    Available(bool),
    Controlled(Result<(), ServiceError>),
    /// `Err` carries the cause as the configuration store words it.
    Patched(Result<(), String>),
    Config(ConfigFlags),
    Executed(Result<(), PrivilegeError>),
    SetUp(Result<(), PrivilegeError>),
    Summary(Result<crate::privilege::simple_service::SimpleServiceStatus, String>),
    Slept,
}

/// A step of a procedure that alternates decisions and outside work: either
/// a request to the caller, or the procedure's result.
#[derive(Debug, PartialEq, Eq)]
pub enum Step<T> {
    Ask(Request),
    Done(T),
}

/// The result of one operation.
#[derive(Clone, Debug, PartialEq, Eq)]
pub struct PrivilegedOperationResult {
    pub success: bool,
    pub message: Option<String>,
    pub handler_used: String,
}

/// How an operation ended, before it is put into words.
#[derive(Debug, PartialEq, Eq)]
pub enum OperationOutcome {
    /// The handler carried the operation out.
    Executed,
    /// The handler failed to carry it out.
    ExecutionFailed(PrivilegeError),
    /// The helper is not available and could not be made so.
    ServiceNotRunning,
    /// The helper is not available; the tunnel was switched off in the
    /// configuration directly.
    ConfigPatched,
    /// The helper is not available, and the configuration could not be
    /// written either.
    ConfigPatchFailed { message: String },
    /// The operation cannot be carried out without the helper.
    Unsupported,
}

impl OperationOutcome {
    pub open spec fn succeeded(self) -> bool {
        self is Executed || self is ConfigPatched
    }

    pub open spec fn message_text(self) -> Option<Seq<char>> {
        match self {
            OperationOutcome::Executed => None,
            OperationOutcome::ExecutionFailed(error) => Some("操作失败: "@ + error.message_text()),
            OperationOutcome::ServiceNotRunning => Some("服务未启动，请先启动服务后再试"@),
            OperationOutcome::ConfigPatched => Some("已关闭TUN模式配置"@),
            OperationOutcome::ConfigPatchFailed { message } => Some("配置更新失败: "@ + message@),
            OperationOutcome::Unsupported => Some("不支持的操作"@),
        }
    }

    /// The name of what handled the operation.
    pub open spec fn handler_text(self) -> Seq<char> {
        match self {
            OperationOutcome::Executed => "service"@,
            OperationOutcome::ExecutionFailed(_) => "service"@,
            OperationOutcome::ServiceNotRunning => "service_not_running"@,
            OperationOutcome::ConfigPatched => "config_direct"@,
            OperationOutcome::ConfigPatchFailed { .. } => "config_direct"@,
            OperationOutcome::Unsupported => "unsupported"@,
        }
    }

    /// Puts the outcome into the words of a result.
    pub fn into_result(self) -> (result: PrivilegedOperationResult)
        ensures
            result.success == self.succeeded(),
            result.message.deep_view() == self.message_text(),
            result.handler_used@ == self.handler_text(),
    {
        match self {
            OperationOutcome::Executed => PrivilegedOperationResult {
                success: true,
                message: None,
                handler_used: String::from_str("service"),
            },
            OperationOutcome::ExecutionFailed(error) => {
                let mut text = String::from_str("操作失败: ");
                let inner = error.message();
                text.append(inner.as_str());
                PrivilegedOperationResult {
                    success: false,
                    message: Some(text),
                    handler_used: String::from_str("service"),
                }
            },
            OperationOutcome::ServiceNotRunning => PrivilegedOperationResult {
                success: false,
                message: Some(String::from_str("服务未启动，请先启动服务后再试")),
                handler_used: String::from_str("service_not_running"),
            },
            OperationOutcome::ConfigPatched => PrivilegedOperationResult {
                success: true,
                message: Some(String::from_str("已关闭TUN模式配置")),
                handler_used: String::from_str("config_direct"),
            },
            OperationOutcome::ConfigPatchFailed { message } => {
                let mut text = String::from_str("配置更新失败: ");
                text.append(message.as_str());
                PrivilegedOperationResult {
                    success: false,
                    message: Some(text),
                    handler_used: String::from_str("config_direct"),
                }
            },
            OperationOutcome::Unsupported => PrivilegedOperationResult {
                success: false,
                message: Some(String::from_str("不支持的操作")),
                handler_used: String::from_str("unsupported"),
            },
        }
    }
}

/// The way privileged operations are carried out.
#[derive(Clone, Copy, Debug, PartialEq, Eq, Structural)]
pub enum PrivilegeMode {
    /// Through the helper service.
    Service,
    /// Not at all.
    Disabled,
}

impl Default for PrivilegeMode {
    fn default() -> (mode: PrivilegeMode)
        ensures
            mode == PrivilegeMode::Service,
    {
        PrivilegeMode::Service
    }
}

/// Where the privilege system stands.
#[derive(Clone, Copy, Debug, PartialEq, Eq, Structural)]
pub struct PrivilegeStatus {
    /// A handler for the helper is at hand.
    pub service_available: bool,
    /// That handler reports the helper as available.
    pub service_connected: bool,
    pub current_mode: PrivilegeMode,
}

/// Something that carries out privileged operations.
pub trait PrivilegedOperationHandler {
    /// The first step of carrying `operation` out.
    fn execute(&self, operation: PrivilegedOperation) -> (
        crate::privilege::service_handler::HandlerRun,
        Step<Result<(), PrivilegeError>>,
    );

    /// Whether operations can be handed over now, given the connectivity
    /// flag and a fresh status.
    fn is_available(
        &self,
        ipc_state: crate::service::ipc::IpcState,
        status: &Result<StatusInfo, ServiceError>,
    ) -> bool;

    /// The handler's name, as it appears in results.
    fn name(&self) -> &'static str;

    /// Whether the user is to be asked before the operation is carried out.
    /// Unless a handler decides otherwise, only a switch of the tunnel goes
    /// ahead without asking.
    fn requires_confirmation(&self, operation: &PrivilegedOperation) -> (required: bool)
        default_ensures
            required == confirmation_required(*operation),
    {
        match operation {
            PrivilegedOperation::SetTunMode { .. } => false,
            _ => true,
        }
    }
}

/// By default only a switch of the tunnel goes ahead without asking.
pub open spec fn confirmation_required(operation: PrivilegedOperation) -> bool {
    !(operation is SetTunMode)
}

} // verus!

//! The single entry point for privileged operations.
//!
//! The manager decides how an operation is carried out: through the handler
//! where the helper is available, after setting the helper up where it is
//! not, or, for switching the tunnel off, by writing the configuration
//! directly. Each procedure here is stepped by the caller, who does what is
//! asked for and hands the reply back.

use vstd::prelude::*;
use crate::privilege::service_handler::ServicePrivilegeHandler;
use crate::privilege::service_utils::{
    control_result, controlled, update_service_mode_config, update_tun_config,
};
use crate::privilege::{
    confirmation_required, flag_or_false, flag_set, ConfigFlags, ConfigPatch, OperationOutcome,
    PrivilegeError, PrivilegeMode, PrivilegeStatus, PrivilegedOperation,
    PrivilegedOperationHandler, Reply, Request, Step,
};
use crate::service::control::status_of;
use crate::service::error::ControlOp;
use crate::service::ServiceStatus;

verus! {

/// The manager of privileged operations. It holds no state that changes, so
/// two managers made the same way decide alike.
#[derive(Clone, Copy, Debug, PartialEq, Eq, Structural)]
pub struct PrivilegeManager {
    pub service_handler: Option<ServicePrivilegeHandler>,
    /// Whether an unavailable helper is set up without being asked for.
    pub auto_service_setup: bool,
}

/// What the execution of an operation is waiting for.
#[derive(Clone, Copy, Debug, PartialEq, Eq, Structural)]
pub enum OperationPhase {
    /// Whether the handler is available, before switching something on.
    EnableCheck,
    /// The end of the helper's setup.
    EnableSetup,
    /// Whether the handler is available after the setup.
    EnableRecheck,
    /// The handler's execution of an operation that switches something on.
    Executing,
    /// Whether the handler is available, before switching the tunnel off.
    DisableCheck,
    /// The handler's execution of the switch-off.
    DisableExecuting,
    /// The configuration that shows whether the helper is still needed.
    Idling,
    /// The end of the helper's stop.
    Stopping,
    /// The direct write of the tunnel flag.
    DisablePatching,
    /// Nothing: the execution is over.
    Finished,
}

/// One execution of one operation.
#[derive(Debug, PartialEq, Eq)]
pub struct OperationRun {
    pub phase: OperationPhase,
    /// The operation, until it is handed to the handler.
    pub operation: Option<PrivilegedOperation>,
    pub auto_setup: bool,
}

pub open spec fn run_over(run: OperationRun) -> OperationRun {
    OperationRun { phase: OperationPhase::Finished, operation: None, ..run }
}

pub open spec fn run_at(run: OperationRun, phase: OperationPhase) -> OperationRun {
    OperationRun { phase: phase, ..run }
}

pub open spec fn reported(outcome: OperationOutcome) -> Step<
    Result<OperationOutcome, PrivilegeError>,
> {
    Step::Done(Ok(outcome))
}

pub open spec fn broken() -> Step<Result<OperationOutcome, PrivilegeError>> {
    Step::Done(Err(PrivilegeError::UnexpectedReply))
}

/// Hands the held operation to the handler.
pub open spec fn hand_over(run: OperationRun, phase: OperationPhase) -> (
    OperationRun,
    Step<Result<OperationOutcome, PrivilegeError>>,
) {
    match run.operation {
        Some(operation) => (
            OperationRun { phase: phase, operation: None, ..run },
            Step::Ask(Request::Execute(operation)),
        ),
        None => (run_over(run), broken()),
    }
}

/// What is done without the helper: the tunnel is switched off in the
/// configuration; nothing else can be done.
pub open spec fn fall_back(run: OperationRun) -> (
    OperationRun,
    Step<Result<OperationOutcome, PrivilegeError>>,
) {
    match run.operation {
        Some(PrivilegedOperation::SetTunMode { .. }) => (
            OperationRun { phase: OperationPhase::DisablePatching, operation: None, ..run },
            Step::Ask(
                Request::PatchConfig(
                    ConfigPatch { enable_tun_mode: Some(false), enable_service_mode: None },
                ),
            ),
        ),
        Some(_) => (run_over(run), reported(OperationOutcome::Unsupported)),
        None => (run_over(run), broken()),
    }
}

/// The first step of switching the tunnel off.
pub open spec fn disable_start(manager: PrivilegeManager, operation: PrivilegedOperation) -> (
    OperationRun,
    Step<Result<OperationOutcome, PrivilegeError>>,
) {
    let run = OperationRun {
        phase: OperationPhase::DisableCheck,
        operation: Some(operation),
        auto_setup: manager.auto_service_setup,
    };
    if manager.service_handler is Some {
        (run, Step::Ask(Request::CheckAvailable))
    } else {
        fall_back(run)
    }
}

/// The first step of an operation.
pub open spec fn operation_start(manager: PrivilegeManager, operation: PrivilegedOperation) -> (
    OperationRun,
    Step<Result<OperationOutcome, PrivilegeError>>,
) {
    if operation.disables() {
        disable_start(manager, operation)
    } else if manager.service_handler is Some {
        (
            OperationRun {
                phase: OperationPhase::EnableCheck,
                operation: Some(operation),
                auto_setup: manager.auto_service_setup,
            },
            Step::Ask(Request::CheckAvailable),
        )
    } else {
        (
            OperationRun {
                phase: OperationPhase::Finished,
                operation: None,
                auto_setup: manager.auto_service_setup,
            },
            reported(OperationOutcome::ServiceNotRunning),
        )
    }
}

/// A later step of an operation. What the handler fails at is reported as an
/// outcome; only a reply that was not asked for fails the execution.
pub open spec fn operation_step(run: OperationRun, reply: Reply) -> (
    OperationRun,
    Step<Result<OperationOutcome, PrivilegeError>>,
) {
    match (run.phase, reply) {
        (OperationPhase::EnableCheck, Reply::Available(available)) => {
            if available {
                hand_over(run, OperationPhase::Executing)
            } else if run.auto_setup {
                (run_at(run, OperationPhase::EnableSetup), Step::Ask(Request::AutoSetup))
            } else {
                (run_over(run), reported(OperationOutcome::ServiceNotRunning))
            }
        },
        (OperationPhase::EnableSetup, Reply::SetUp(Ok(()))) => (
            run_at(run, OperationPhase::EnableRecheck),
            Step::Ask(Request::CheckAvailable),
        ),
        (OperationPhase::EnableSetup, Reply::SetUp(Err(_))) => (
            run_over(run),
            reported(OperationOutcome::ServiceNotRunning),
        ),
        (OperationPhase::EnableRecheck, Reply::Available(available)) => {
            if available {
                hand_over(run, OperationPhase::Executing)
            } else {
                (run_over(run), reported(OperationOutcome::ServiceNotRunning))
            }
        },
        (OperationPhase::Executing, Reply::Executed(Ok(()))) => (
            run_over(run),
            reported(OperationOutcome::Executed),
        ),
        (OperationPhase::Executing, Reply::Executed(Err(error))) => (
            run_over(run),
            reported(OperationOutcome::ExecutionFailed(error)),
        ),
        (OperationPhase::DisableCheck, Reply::Available(available)) => {
            if available {
                hand_over(run, OperationPhase::DisableExecuting)
            } else {
                fall_back(run)
            }
        },
        (OperationPhase::DisableExecuting, Reply::Executed(Ok(()))) => (
            run_at(run, OperationPhase::Idling),
            Step::Ask(Request::ReadConfig),
        ),
        (OperationPhase::DisableExecuting, Reply::Executed(Err(error))) => (
            run_over(run),
            reported(OperationOutcome::ExecutionFailed(error)),
        ),
        (OperationPhase::Idling, Reply::Config(flags)) => {
            if flag_set(flags.enable_tun_mode) {
                (run_over(run), reported(OperationOutcome::Executed))
            } else {
                (run_at(run, OperationPhase::Stopping), Step::Ask(Request::Control(ControlOp::Stop)))
            }
        },
        (OperationPhase::Stopping, Reply::Controlled(_)) => (
            run_over(run),
            reported(OperationOutcome::Executed),
        ),
        (OperationPhase::DisablePatching, Reply::Patched(Ok(()))) => (
            run_over(run),
            reported(OperationOutcome::ConfigPatched),
        ),
        (OperationPhase::DisablePatching, Reply::Patched(Err(message))) => (
            run_over(run),
            reported(OperationOutcome::ConfigPatchFailed { message: message }),
        ),
        _ => (run_over(run), broken()),
    }
}

impl OperationRun {
    fn over(&mut self, step: Step<Result<OperationOutcome, PrivilegeError>>) -> (next: Step<
        Result<OperationOutcome, PrivilegeError>,
    >)
        ensures
            *final(self) == run_over(*old(self)),
            next == step,
    {
        self.phase = OperationPhase::Finished;
        self.operation = None;
        step
    }

    fn hand(&mut self, phase: OperationPhase) -> (next: Step<
        Result<OperationOutcome, PrivilegeError>,
    >)
        ensures
            (*final(self), next) == hand_over(*old(self), phase),
    {
        match self.operation.take() {
            Some(operation) => {
                self.phase = phase;
                Step::Ask(Request::Execute(operation))
            },
            None => self.over(Step::Done(Err(PrivilegeError::UnexpectedReply))),
        }
    }

    fn fallback(&mut self) -> (next: Step<Result<OperationOutcome, PrivilegeError>>)
        ensures
            (*final(self), next) == fall_back(*old(self)),
    {
        match self.operation.take() {
            Some(PrivilegedOperation::SetTunMode { .. }) => {
                self.phase = OperationPhase::DisablePatching;
                Step::Ask(Request::PatchConfig(update_tun_config(false)))
            },
            Some(_) => self.over(Step::Done(Ok(OperationOutcome::Unsupported))),
            None => self.over(Step::Done(Err(PrivilegeError::UnexpectedReply))),
        }
    }

    /// Whether the execution is over.
    pub fn is_finished(&self) -> (over: bool)
        ensures
            over == (self.phase == OperationPhase::Finished),
    {
        match self.phase {
            OperationPhase::Finished => true,
            _ => false,
        }
    }

    /// Takes the reply to what was last asked for and gives the next step.
    pub fn step(&mut self, reply: Reply) -> (next: Step<Result<OperationOutcome, PrivilegeError>>)
        ensures
            (*final(self), next) == operation_step(*old(self), reply),
    {
        match (self.phase, reply) {
            (OperationPhase::EnableCheck, Reply::Available(available)) => {
                if available {
                    self.hand(OperationPhase::Executing)
                } else if self.auto_setup {
                    self.phase = OperationPhase::EnableSetup;
                    Step::Ask(Request::AutoSetup)
                } else {
                    self.over(Step::Done(Ok(OperationOutcome::ServiceNotRunning)))
                }
            },
            (OperationPhase::EnableSetup, Reply::SetUp(Ok(()))) => {
                self.phase = OperationPhase::EnableRecheck;
                Step::Ask(Request::CheckAvailable)
            },
            (OperationPhase::EnableSetup, Reply::SetUp(Err(_))) => self.over(
                Step::Done(Ok(OperationOutcome::ServiceNotRunning)),
            ),
            (OperationPhase::EnableRecheck, Reply::Available(available)) => {
                if available {
                    self.hand(OperationPhase::Executing)
                } else {
                    self.over(Step::Done(Ok(OperationOutcome::ServiceNotRunning)))
                }
            },
            (OperationPhase::Executing, Reply::Executed(Ok(()))) => self.over(
                Step::Done(Ok(OperationOutcome::Executed)),
            ),
            (OperationPhase::Executing, Reply::Executed(Err(error))) => self.over(
                Step::Done(Ok(OperationOutcome::ExecutionFailed(error))),
            ),
            (OperationPhase::DisableCheck, Reply::Available(available)) => {
                if available {
                    self.hand(OperationPhase::DisableExecuting)
                } else {
                    self.fallback()
                }
            },
            (OperationPhase::DisableExecuting, Reply::Executed(Ok(()))) => {
                self.phase = OperationPhase::Idling;
                Step::Ask(Request::ReadConfig)
            },
            (OperationPhase::DisableExecuting, Reply::Executed(Err(error))) => self.over(
                Step::Done(Ok(OperationOutcome::ExecutionFailed(error))),
            ),
            (OperationPhase::Idling, Reply::Config(flags)) => {
                if flag_or_false(flags.enable_tun_mode) {
                    self.over(Step::Done(Ok(OperationOutcome::Executed)))
                } else {
                    self.phase = OperationPhase::Stopping;
                    Step::Ask(Request::Control(ControlOp::Stop))
                }
            },
            (OperationPhase::Stopping, Reply::Controlled(_)) => self.over(
                Step::Done(Ok(OperationOutcome::Executed)),
            ),
            (OperationPhase::DisablePatching, Reply::Patched(Ok(()))) => self.over(
                Step::Done(Ok(OperationOutcome::ConfigPatched)),
            ),
            (OperationPhase::DisablePatching, Reply::Patched(Err(message))) => self.over(
                Step::Done(Ok(OperationOutcome::ConfigPatchFailed { message })),
            ),
            _ => self.over(Step::Done(Err(PrivilegeError::UnexpectedReply))),
        }
    }
}

/// What the setting up of the helper is waiting for.
#[derive(Clone, Copy, Debug, PartialEq, Eq, Structural)]
pub enum SetupPhase {
    /// The helper's status.
    Probing,
    /// The end of the start of an installed helper.
    Starting,
    /// The end of the install.
    Installing,
    /// The write of the service-mode flag.
    Enabling,
    /// Whether the handler is available after the install.
    Checking,
    /// The pause that gives the helper time to come up.
    Settling,
    /// Whether the handler is available after the pause.
    Rechecking,
    /// The end of the start after the install.
    LateStart,
    /// Nothing: the setup is over.
    Finished,
}

/// One setting up of the helper.
#[derive(Clone, Copy, Debug, PartialEq, Eq, Structural)]
pub struct SetupRun {
    pub phase: SetupPhase,
}

/// The seconds a fresh install is given to come up before it is started by
/// hand.
pub const SETUP_SETTLE_SECS: u64 = 2;

pub open spec fn setup_at(phase: SetupPhase, request: Request) -> (
    SetupRun,
    Step<Result<(), PrivilegeError>>,
) {
    (SetupRun { phase: phase }, Step::Ask(request))
}

pub open spec fn setup_over(result: Result<(), PrivilegeError>) -> (
    SetupRun,
    Step<Result<(), PrivilegeError>>,
) {
    (SetupRun { phase: SetupPhase::Finished }, Step::Done(result))
}

/// The first step of a setup.
pub open spec fn setup_start(manager: PrivilegeManager) -> (
    SetupRun,
    Step<Result<(), PrivilegeError>>,
) {
    if manager.service_handler is Some {
        setup_at(SetupPhase::Probing, Request::QueryStatus)
    } else {
        setup_over(Err(PrivilegeError::ServiceUnavailable))
    }
}

/// A later step of a setup: a running helper needs nothing, a stopped one a
/// start, an absent one (or one whose status cannot be had) an install, the
/// service-mode flag, and a start where it does not come up by itself.
pub open spec fn setup_step(run: SetupRun, reply: Reply) -> (
    SetupRun,
    Step<Result<(), PrivilegeError>>,
) {
    match (run.phase, reply) {
        (SetupPhase::Probing, Reply::Status(status)) => {
            if status_of(status) == Some(ServiceStatus::Running) {
                setup_over(Ok(()))
            } else if status_of(status) == Some(ServiceStatus::Stopped) {
                setup_at(SetupPhase::Starting, Request::Control(ControlOp::Start))
            } else {
                setup_at(SetupPhase::Installing, Request::Control(ControlOp::Install))
            }
        },
        (SetupPhase::Starting, Reply::Controlled(result)) => setup_over(controlled(result)),
        (SetupPhase::Installing, Reply::Controlled(Ok(()))) => setup_at(
            SetupPhase::Enabling,
            Request::PatchConfig(
                ConfigPatch { enable_tun_mode: None, enable_service_mode: Some(true) },
            ),
        ),
        (SetupPhase::Installing, Reply::Controlled(Err(error))) => setup_over(
            Err(PrivilegeError::InstallFailed(error)),
        ),
        (SetupPhase::Enabling, Reply::Patched(_)) => setup_at(
            SetupPhase::Checking,
            Request::CheckAvailable,
        ),
        (SetupPhase::Checking, Reply::Available(available)) => {
            if available {
                setup_over(Ok(()))
            } else {
                setup_at(SetupPhase::Settling, Request::Sleep { secs: SETUP_SETTLE_SECS })
            }
        },
        (SetupPhase::Settling, Reply::Slept) => setup_at(
            SetupPhase::Rechecking,
            Request::CheckAvailable,
        ),
        (SetupPhase::Rechecking, Reply::Available(available)) => {
            if available {
                setup_over(Ok(()))
            } else {
                setup_at(SetupPhase::LateStart, Request::Control(ControlOp::Start))
            }
        },
        (SetupPhase::LateStart, Reply::Controlled(result)) => setup_over(controlled(result)),
        _ => setup_over(Err(PrivilegeError::UnexpectedReply)),
    }
}

impl SetupRun {
    fn at(&mut self, phase: SetupPhase, request: Request) -> (next: Step<
        Result<(), PrivilegeError>,
    >)
        ensures
            (*final(self), next) == setup_at(phase, request),
    {
        self.phase = phase;
        Step::Ask(request)
    }

    fn over(&mut self, result: Result<(), PrivilegeError>) -> (next: Step<
        Result<(), PrivilegeError>,
    >)
        ensures
            (*final(self), next) == setup_over(result),
    {
        self.phase = SetupPhase::Finished;
        Step::Done(result)
    }

    /// Takes the reply to what was last asked for and gives the next step.
    pub fn step(&mut self, reply: Reply) -> (next: Step<Result<(), PrivilegeError>>)
        ensures
            (*final(self), next) == setup_step(*old(self), reply),
    {
        match (self.phase, reply) {
            (SetupPhase::Probing, Reply::Status(status)) => {
                match status {
                    Ok(info) => match info.status {
                        ServiceStatus::Running => self.over(Ok(())),
                        ServiceStatus::Stopped => self.at(
                            SetupPhase::Starting,
                            Request::Control(ControlOp::Start),
                        ),
                        ServiceStatus::NotInstalled => self.at(
                            SetupPhase::Installing,
                            Request::Control(ControlOp::Install),
                        ),
                    },
                    Err(_) => self.at(SetupPhase::Installing, Request::Control(ControlOp::Install)),
                }
            },
            (SetupPhase::Starting, Reply::Controlled(result)) => self.over(control_result(result)),
            (SetupPhase::Installing, Reply::Controlled(Ok(()))) => self.at(
                SetupPhase::Enabling,
                Request::PatchConfig(update_service_mode_config(true)),
            ),
            (SetupPhase::Installing, Reply::Controlled(Err(error))) => self.over(
                Err(PrivilegeError::InstallFailed(error)),
            ),
            (SetupPhase::Enabling, Reply::Patched(_)) => self.at(
                SetupPhase::Checking,
                Request::CheckAvailable,
            ),
            (SetupPhase::Checking, Reply::Available(available)) => {
                if available {
                    self.over(Ok(()))
                } else {
                    self.at(SetupPhase::Settling, Request::Sleep { secs: SETUP_SETTLE_SECS })
                }
            },
            (SetupPhase::Settling, Reply::Slept) => self.at(
                SetupPhase::Rechecking,
                Request::CheckAvailable,
            ),
            (SetupPhase::Rechecking, Reply::Available(available)) => {
                if available {
                    self.over(Ok(()))
                } else {
                    self.at(SetupPhase::LateStart, Request::Control(ControlOp::Start))
                }
            },
            (SetupPhase::LateStart, Reply::Controlled(result)) => self.over(
                control_result(result),
            ),
            _ => self.over(Err(PrivilegeError::UnexpectedReply)),
        }
    }
}

/// What a warm-up is waiting for.
#[derive(Clone, Copy, Debug, PartialEq, Eq, Structural)]
pub enum WarmUpPhase {
    /// Whether the handler is available.
    Checking,
    /// The end of the helper's setup.
    SettingUp,
    /// Nothing: the warm-up is over.
    Finished,
}

/// One warm-up of the privilege system.
#[derive(Clone, Copy, Debug, PartialEq, Eq, Structural)]
pub struct WarmUpRun {
    pub phase: WarmUpPhase,
    pub auto_setup: bool,
}

/// The first step of a warm-up.
pub open spec fn warm_up_start(manager: PrivilegeManager) -> (
    WarmUpRun,
    Step<Result<(), PrivilegeError>>,
) {
    if manager.service_handler is Some {
        (
            WarmUpRun { phase: WarmUpPhase::Checking, auto_setup: manager.auto_service_setup },
            Step::Ask(Request::CheckAvailable),
        )
    } else {
        (
            WarmUpRun { phase: WarmUpPhase::Finished, auto_setup: manager.auto_service_setup },
            Step::Done(Ok(())),
        )
    }
}

/// A later step of a warm-up. A setup that fails does not fail the warm-up.
pub open spec fn warm_up_step(run: WarmUpRun, reply: Reply) -> (
    WarmUpRun,
    Step<Result<(), PrivilegeError>>,
) {
    match (run.phase, reply) {
        (WarmUpPhase::Checking, Reply::Available(available)) => {
            if !available && run.auto_setup {
                (WarmUpRun { phase: WarmUpPhase::SettingUp, ..run }, Step::Ask(Request::AutoSetup))
            } else {
                (WarmUpRun { phase: WarmUpPhase::Finished, ..run }, Step::Done(Ok(())))
            }
        },
        (WarmUpPhase::SettingUp, Reply::SetUp(_)) => (
            WarmUpRun { phase: WarmUpPhase::Finished, ..run },
            Step::Done(Ok(())),
        ),
        _ => (
            WarmUpRun { phase: WarmUpPhase::Finished, ..run },
            Step::Done(Err(PrivilegeError::UnexpectedReply)),
        ),
    }
}

impl WarmUpRun {
    /// Takes the reply to what was last asked for and gives the next step.
    pub fn step(&mut self, reply: Reply) -> (next: Step<Result<(), PrivilegeError>>)
        ensures
            (*final(self), next) == warm_up_step(*old(self), reply),
    {
        match (self.phase, reply) {
            (WarmUpPhase::Checking, Reply::Available(available)) => {
                if !available && self.auto_setup {
                    self.phase = WarmUpPhase::SettingUp;
                    Step::Ask(Request::AutoSetup)
                } else {
                    self.phase = WarmUpPhase::Finished;
                    Step::Done(Ok(()))
                }
            },
            (WarmUpPhase::SettingUp, Reply::SetUp(_)) => {
                self.phase = WarmUpPhase::Finished;
                Step::Done(Ok(()))
            },
            _ => {
                self.phase = WarmUpPhase::Finished;
                Step::Done(Err(PrivilegeError::UnexpectedReply))
            },
        }
    }
}

impl PrivilegeManager {
    /// A manager with the service handler, which sets the helper up by
    /// itself.
    pub fn new() -> (manager: PrivilegeManager)
        ensures
            manager == (PrivilegeManager {
                service_handler: Some(ServicePrivilegeHandler {  }),
                auto_service_setup: true,
            }),
    {
        PrivilegeManager {
            service_handler: Some(ServicePrivilegeHandler::new()),
            auto_service_setup: true,
        }
    }

    /// The manager every part of the application uses. It is the same value
    /// wherever it is asked for.
    pub fn global() -> (manager: PrivilegeManager)
        ensures
            manager == (PrivilegeManager {
                service_handler: Some(ServicePrivilegeHandler {  }),
                auto_service_setup: true,
            }),
    {
        PrivilegeManager::new()
    }

    /// Begins the execution of `operation`.
    pub fn execute_operation(&self, operation: PrivilegedOperation) -> (started: (
        OperationRun,
        Step<Result<OperationOutcome, PrivilegeError>>,
    ))
        ensures
            started == operation_start(*self, operation),
    {
        self.execute_service_operation(operation)
    }

    /// Begins the execution of `operation` through the helper.
    pub fn execute_service_operation(&self, operation: PrivilegedOperation) -> (started: (
        OperationRun,
        Step<Result<OperationOutcome, PrivilegeError>>,
    ))
        ensures
            started == operation_start(*self, operation),
    {
        if operation.is_disable() {
            return self.handle_disable_operation(operation);
        }
        match self.service_handler {
            Some(_) => (
                OperationRun {
                    phase: OperationPhase::EnableCheck,
                    operation: Some(operation),
                    auto_setup: self.auto_service_setup,
                },
                Step::Ask(Request::CheckAvailable),
            ),
            None => (
                OperationRun {
                    phase: OperationPhase::Finished,
                    operation: None,
                    auto_setup: self.auto_service_setup,
                },
                Step::Done(Ok(OperationOutcome::ServiceNotRunning)),
            ),
        }
    }

    /// Begins a switch-off: through the handler where there is one, by the
    /// configuration otherwise.
    pub fn handle_disable_operation(&self, operation: PrivilegedOperation) -> (started: (
        OperationRun,
        Step<Result<OperationOutcome, PrivilegeError>>,
    ))
        ensures
            started == disable_start(*self, operation),
    {
        let mut run = OperationRun {
            phase: OperationPhase::DisableCheck,
            operation: Some(operation),
            auto_setup: self.auto_service_setup,
        };
        match self.service_handler {
            Some(_) => (run, Step::Ask(Request::CheckAvailable)),
            None => {
                let next = run.fallback();
                (run, next)
            },
        }
    }

    /// Decides, after a switch-off went through, whether the helper is to be
    /// stopped: it is where the tunnel is no longer configured.
    pub fn check_and_stop_service_if_idle(&self, flags: ConfigFlags) -> (stop: bool)
        ensures
            stop == !flag_set(flags.enable_tun_mode),
    {
        !flag_or_false(flags.enable_tun_mode)
    }

    /// Begins the setting up of the helper.
    pub fn auto_setup_service(&self) -> (started: (SetupRun, Step<Result<(), PrivilegeError>>))
        ensures
            started == setup_start(*self),
    {
        match self.service_handler {
            Some(_) => (SetupRun { phase: SetupPhase::Probing }, Step::Ask(Request::QueryStatus)),
            None => (
                SetupRun { phase: SetupPhase::Finished },
                Step::Done(Err(PrivilegeError::ServiceUnavailable)),
            ),
        }
    }

    /// Where the privilege system stands. `handler_available` is what the
    /// handler says of its availability; without a handler it is not read.
    pub fn get_privilege_status(&self, handler_available: bool) -> (status: PrivilegeStatus)
        ensures
            status == (PrivilegeStatus {
                service_available: self.service_handler is Some,
                service_connected: self.service_handler is Some && handler_available,
                current_mode: PrivilegeMode::Service,
            }),
    {
        match self.service_handler {
            Some(_) => PrivilegeStatus {
                service_available: true,
                service_connected: handler_available,
                current_mode: PrivilegeMode::Service,
            },
            None => PrivilegeStatus {
                service_available: false,
                service_connected: false,
                current_mode: PrivilegeMode::Service,
            },
        }
    }

    /// Whether the user is to be asked before the operation is carried out:
    /// as the handler says, and always where there is none.
    pub fn requires_confirmation(&self, operation: &PrivilegedOperation) -> (required: bool)
        ensures
            required == (self.service_handler is None || confirmation_required(*operation)),
    {
        match &self.service_handler {
            Some(handler) => handler.requires_confirmation(operation),
            None => true,
        }
    }

    /// Begins a warm-up: the helper is set up where it is not available.
    pub fn warm_up(&self) -> (started: (WarmUpRun, Step<Result<(), PrivilegeError>>))
        ensures
            started == warm_up_start(*self),
    {
        match self.service_handler {
            Some(_) => (
                WarmUpRun { phase: WarmUpPhase::Checking, auto_setup: self.auto_service_setup },
                Step::Ask(Request::CheckAvailable),
            ),
            None => (
                WarmUpRun { phase: WarmUpPhase::Finished, auto_setup: self.auto_service_setup },
                Step::Done(Ok(())),
            ),
        }
    }
}

/// Switching the tunnel off without an available helper writes
/// `enable_tun_mode = false` to the configuration directly, and the outcome
/// reports success exactly where that write succeeded.
pub proof fn lemma_disable_falls_back(manager: PrivilegeManager, written: Result<(), String>)
    ensures
        ({
            let operation = PrivilegedOperation::SetTunMode { enable: false };
            let patch = Step::<Result<OperationOutcome, PrivilegeError>>::Ask(
                Request::PatchConfig(
                    ConfigPatch { enable_tun_mode: Some(false), enable_service_mode: None },
                ),
            );
            let started = operation_start(manager, operation);
            let asked = if manager.service_handler is Some {
                operation_step(started.0, Reply::Available(false))
            } else {
                started
            };
            &&& manager.service_handler is Some ==> started.1 == Step::<
                Result<OperationOutcome, PrivilegeError>,
            >::Ask(Request::CheckAvailable)
            &&& asked.1 == patch
            &&& operation_step(asked.0, Reply::Patched(written)).1 matches Step::Done(Ok(outcome))
                && (outcome.succeeded() <==> written is Ok)
        }),
{
}

/// What the handler fails at never fails the execution: it is reported as an
/// outcome without success, which carries the handler's error.
pub proof fn lemma_handler_failure_is_reported(run: OperationRun, error: PrivilegeError)
    requires
        run.phase == OperationPhase::Executing || run.phase == OperationPhase::DisableExecuting,
    ensures
        operation_step(run, Reply::Executed(Err(error))).1 == reported(
            OperationOutcome::ExecutionFailed(error),
        ),
        !OperationOutcome::ExecutionFailed(error).succeeded(),
{
}

/// How many steps a phase of an execution is from the end at most.
pub open spec fn operation_steps_left(phase: OperationPhase) -> nat {
    match phase {
        OperationPhase::EnableCheck => 4,
        OperationPhase::EnableSetup => 3,
        OperationPhase::EnableRecheck => 2,
        OperationPhase::Executing => 1,
        OperationPhase::DisableCheck => 4,
        OperationPhase::DisableExecuting => 3,
        OperationPhase::Idling => 2,
        OperationPhase::Stopping => 1,
        OperationPhase::DisablePatching => 1,
        OperationPhase::Finished => 0,
    }
}

/// Every step brings an execution nearer to its end, whatever the reply: an
/// operation is over after five steps at most, the helper is set up at most
/// once in it and the handler executes at most once.
pub proof fn lemma_operation_makes_progress(run: OperationRun, reply: Reply)
    requires
        run.phase != OperationPhase::Finished,
    ensures
        operation_steps_left(operation_step(run, reply).0.phase) < operation_steps_left(run.phase),
        operation_step(run, reply).1 is Done <==> operation_step(run, reply).0.phase
            == OperationPhase::Finished,
{
}

/// How many steps a phase of a setup is from the end at most.
pub open spec fn setup_steps_left(phase: SetupPhase) -> nat {
    match phase {
        SetupPhase::Probing => 7,
        SetupPhase::Starting => 1,
        SetupPhase::Installing => 6,
        SetupPhase::Enabling => 5,
        SetupPhase::Checking => 4,
        SetupPhase::Settling => 3,
        SetupPhase::Rechecking => 2,
        SetupPhase::LateStart => 1,
        SetupPhase::Finished => 0,
    }
}

/// Every step brings a setup nearer to its end, whatever the reply: it
/// installs at most once, sleeps at most once and is over after seven steps.
pub proof fn lemma_setup_makes_progress(run: SetupRun, reply: Reply)
    requires
        run.phase != SetupPhase::Finished,
    ensures
        setup_steps_left(setup_step(run, reply).0.phase) < setup_steps_left(run.phase),
        setup_step(run, reply).1 is Done <==> setup_step(run, reply).0.phase
            == SetupPhase::Finished,
{
}

} // verus!

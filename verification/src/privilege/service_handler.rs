//! The handler that carries privileged operations out through the helper.

use vstd::prelude::*;
use crate::privilege::service_utils::{
    control_result, controlled, ensure_running, ensure_service_running, update_tun_config,
};
use crate::privilege::{
    confirmation_required, ConfigPatch, PrivilegeError, PrivilegedOperation,
    PrivilegedOperationHandler, Reply, Request, Step,
};
use crate::service::control::status_of;
use crate::service::error::{ControlOp, ServiceError};
use crate::service::ipc::IpcState;
use crate::service::{ServiceStatus, StatusInfo};

verus! {

/// Carries operations out by way of the helper service.
#[derive(Clone, Copy, Debug, PartialEq, Eq, Structural)]
pub struct ServicePrivilegeHandler {}

/// What a run of the handler is waiting for.
#[derive(Clone, Copy, Debug, PartialEq, Eq, Structural)]
pub enum HandlerPhase {
    /// The write of the tunnel flag.
    Patching,
    /// The status that shows whether the helper runs.
    Checking,
    /// The end of a start or restart of the helper.
    Controlling,
    /// Nothing: the run is over.
    Finished,
}

/// One run of the handler on one operation.
#[derive(Clone, Copy, Debug, PartialEq, Eq, Structural)]
pub struct HandlerRun {
    pub phase: HandlerPhase,
}

/// The handler takes only a switch of the tunnel; the other kinds need more
/// from the helper than it offers.
pub open spec fn supported(operation: PrivilegedOperation) -> bool {
    operation is SetTunMode
}

/// The handler is available where the connectivity flag reads connected and
/// a fresh status shows a running helper. The flag alone is not trusted.
pub open spec fn available(ipc_state: IpcState, status: Result<StatusInfo, ServiceError>) -> bool {
    ipc_state == IpcState::Connected && status_of(status) == Some(ServiceStatus::Running)
}

/// The first step of an operation's command, whether or not the handler
/// accepts the operation: a switch of the tunnel writes the flag first, a
/// renewal of the core's rights restarts the helper, a change of network
/// settings does nothing yet.
pub open spec fn command_start(operation: PrivilegedOperation) -> (
    HandlerRun,
    Step<Result<(), PrivilegeError>>,
) {
    match operation {
        PrivilegedOperation::SetTunMode { enable } => (
            HandlerRun { phase: HandlerPhase::Patching },
            Step::Ask(
                Request::PatchConfig(
                    ConfigPatch { enable_tun_mode: Some(enable), enable_service_mode: None },
                ),
            ),
        ),
        PrivilegedOperation::UpdateCorePermissions { .. } => (
            HandlerRun { phase: HandlerPhase::Controlling },
            Step::Ask(Request::Control(ControlOp::Restart)),
        ),
        PrivilegedOperation::ModifyNetworkSettings { .. } => (
            HandlerRun { phase: HandlerPhase::Finished },
            Step::Done(Ok(())),
        ),
    }
}

/// The first step of a run: an operation that is not supported fails at
/// once.
pub open spec fn handler_start(operation: PrivilegedOperation) -> (
    HandlerRun,
    Step<Result<(), PrivilegeError>>,
) {
    if supported(operation) {
        command_start(operation)
    } else {
        (
            HandlerRun { phase: HandlerPhase::Finished },
            Step::Done(Err(PrivilegeError::OperationUnsupported(operation.kind_of()))),
        )
    }
}

pub open spec fn phase_after(step: Step<Result<(), PrivilegeError>>) -> HandlerPhase {
    match step {
        Step::Ask(_) => HandlerPhase::Controlling,
        Step::Done(_) => HandlerPhase::Finished,
    }
}

/// A later step of a run: after the flag is written the helper is made to
/// run, which may take a start.
pub open spec fn handler_step(run: HandlerRun, reply: Reply) -> (
    HandlerRun,
    Step<Result<(), PrivilegeError>>,
) {
    match (run.phase, reply) {
        (HandlerPhase::Patching, Reply::Patched(Ok(()))) => (
            HandlerRun { phase: HandlerPhase::Checking },
            Step::Ask(Request::QueryStatus),
        ),
        (HandlerPhase::Patching, Reply::Patched(Err(message))) => (
            HandlerRun { phase: HandlerPhase::Finished },
            Step::Done(Err(PrivilegeError::Config { message: message })),
        ),
        (HandlerPhase::Checking, Reply::Status(status)) => (
            HandlerRun { phase: phase_after(ensure_running(status)) },
            ensure_running(status),
        ),
        (HandlerPhase::Controlling, Reply::Controlled(result)) => (
            HandlerRun { phase: HandlerPhase::Finished },
            Step::Done(controlled(result)),
        ),
        _ => (
            HandlerRun { phase: HandlerPhase::Finished },
            Step::Done(Err(PrivilegeError::UnexpectedReply)),
        ),
    }
}

impl ServicePrivilegeHandler {
    pub fn new() -> (handler: ServicePrivilegeHandler)
        ensures
            handler == (ServicePrivilegeHandler {  }),
    {
        ServicePrivilegeHandler {  }
    }

    /// Whether the handler takes operations of this kind.
    pub fn supports_operation(&self, operation: &PrivilegedOperation) -> (supports: bool)
        ensures
            supports == supported(*operation),
    {
        match operation {
            PrivilegedOperation::SetTunMode { .. } => true,
            PrivilegedOperation::UpdateCorePermissions { .. } => false,
            PrivilegedOperation::ModifyNetworkSettings { .. } => false,
        }
    }

    /// Begins the command of an operation.
    pub fn send_privileged_command(&self, operation: &PrivilegedOperation) -> (started: (
        HandlerRun,
        Step<Result<(), PrivilegeError>>,
    ))
        ensures
            started == command_start(*operation),
    {
        match operation {
            PrivilegedOperation::SetTunMode { enable } => self.set_tun_mode_via_service(*enable),
            PrivilegedOperation::UpdateCorePermissions { .. } =>
                self.update_core_permissions_via_service(),
            PrivilegedOperation::ModifyNetworkSettings { .. } =>
                self.modify_network_settings_via_service(),
        }
    }

    /// Begins a switch of the tunnel: the flag is written first.
    pub fn set_tun_mode_via_service(&self, enable: bool) -> (started: (
        HandlerRun,
        Step<Result<(), PrivilegeError>>,
    ))
        ensures
            started == command_start(PrivilegedOperation::SetTunMode { enable }),
    {
        (
            HandlerRun { phase: HandlerPhase::Patching },
            Step::Ask(Request::PatchConfig(update_tun_config(enable))),
        )
    }

    /// Begins a renewal of the core's rights: the helper is restarted.
    pub fn update_core_permissions_via_service(&self) -> (started: (
        HandlerRun,
        Step<Result<(), PrivilegeError>>,
    ))
        ensures
            started == (
                HandlerRun { phase: HandlerPhase::Controlling },
                Step::<Result<(), PrivilegeError>>::Ask(Request::Control(ControlOp::Restart)),
            ),
    {
        (
            HandlerRun { phase: HandlerPhase::Controlling },
            Step::Ask(Request::Control(ControlOp::Restart)),
        )
    }

    /// A change of network settings is accepted and does nothing yet.
    pub fn modify_network_settings_via_service(&self) -> (started: (
        HandlerRun,
        Step<Result<(), PrivilegeError>>,
    ))
        ensures
            started == (
                HandlerRun { phase: HandlerPhase::Finished },
                Step::<Result<(), PrivilegeError>>::Done(Ok(())),
            ),
    {
        (HandlerRun { phase: HandlerPhase::Finished }, Step::Done(Ok(())))
    }

    /// Asks for the status by which the helper is made to run.
    pub fn request_core_restart(&self) -> (started: (
        HandlerRun,
        Step<Result<(), PrivilegeError>>,
    ))
        ensures
            started == (
                HandlerRun { phase: HandlerPhase::Checking },
                Step::<Result<(), PrivilegeError>>::Ask(Request::QueryStatus),
            ),
    {
        (HandlerRun { phase: HandlerPhase::Checking }, Step::Ask(Request::QueryStatus))
    }
}

impl HandlerRun {
    /// Takes the reply to what was last asked for and gives the next step.
    pub fn step(&mut self, reply: Reply) -> (next: Step<Result<(), PrivilegeError>>)
        ensures
            (*final(self), next) == handler_step(*old(self), reply),
    {
        match (self.phase, reply) {
            (HandlerPhase::Patching, Reply::Patched(Ok(()))) => {
                self.phase = HandlerPhase::Checking;
                Step::Ask(Request::QueryStatus)
            },
            (HandlerPhase::Patching, Reply::Patched(Err(message))) => {
                self.phase = HandlerPhase::Finished;
                Step::Done(Err(PrivilegeError::Config { message }))
            },
            (HandlerPhase::Checking, Reply::Status(status)) => {
                let next = ensure_service_running(status);
                match &next {
                    Step::Ask(_) => {
                        self.phase = HandlerPhase::Controlling;
                    },
                    Step::Done(_) => {
                        self.phase = HandlerPhase::Finished;
                    },
                }
                next
            },
            (HandlerPhase::Controlling, Reply::Controlled(result)) => {
                self.phase = HandlerPhase::Finished;
                Step::Done(control_result(result))
            },
            _ => {
                self.phase = HandlerPhase::Finished;
                Step::Done(Err(PrivilegeError::UnexpectedReply))
            },
        }
    }
}

impl PrivilegedOperationHandler for ServicePrivilegeHandler {
    /// Begins a run on `operation`.
    fn execute(&self, operation: PrivilegedOperation) -> (started: (
        HandlerRun,
        Step<Result<(), PrivilegeError>>,
    ))
        ensures
            started == handler_start(operation),
    {
        if !self.supports_operation(&operation) {
            let kind = operation.kind();
            return (
                HandlerRun { phase: HandlerPhase::Finished },
                Step::Done(Err(PrivilegeError::OperationUnsupported(kind))),
            );
        }
        self.send_privileged_command(&operation)
    }

    fn is_available(
        &self,
        ipc_state: IpcState,
        status: &Result<StatusInfo, ServiceError>,
    ) -> (is_available: bool)
        ensures
            is_available == available(ipc_state, *status),
    {
        if !ipc_state.is_connected() {
            return false;
        }
        match status {
            Ok(info) => match info.status {
                ServiceStatus::Running => true,
                _ => false,
            },
            Err(_) => false,
        }
    }

    fn name(&self) -> (name: &'static str)
        ensures
            name@ == "service"@,
    {
        "service"
    }

    fn requires_confirmation(&self, operation: &PrivilegedOperation) -> (required: bool)
        ensures
            required == confirmation_required(*operation),
    {
        match operation {
            PrivilegedOperation::SetTunMode { .. } => false,
            _ => true,
        }
    }
}

/// A run of the handler is over after three replies at most: the write of
/// the flag, the status, and a start.
pub proof fn lemma_handler_makes_progress(run: HandlerRun, reply: Reply)
    requires
        run.phase != HandlerPhase::Finished,
    ensures
        handler_steps_left(handler_step(run, reply).0.phase) < handler_steps_left(run.phase),
        handler_step(run, reply).1 is Done <==> handler_step(run, reply).0.phase
            == HandlerPhase::Finished,
{
}

/// How many steps a phase of a run is from the end at most.
pub open spec fn handler_steps_left(phase: HandlerPhase) -> nat {
    match phase {
        HandlerPhase::Patching => 3,
        HandlerPhase::Checking => 2,
        HandlerPhase::Controlling => 1,
        HandlerPhase::Finished => 0,
    }
}

} // verus!

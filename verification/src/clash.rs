//! The connector that forwards the proxy core's connection events.
//!
//! The connector is started once the core runs. How long to wait for the
//! core and how often to try the connector is decided here; the caller
//! sleeps, asks the core and starts the connector.

use vstd::prelude::*;

verus! {

/// The name under which connection events are emitted.
pub const CONNECTIONS_EVENT: &'static str = "clash-connections-event";

/// How requests to the core's API are retried: delays that grow from the
/// least to the greatest, a limited number of times.
#[derive(Clone, Copy, Debug, PartialEq, Eq, Structural)]
pub struct BackoffStrategy {
    pub min_delay_millis: u64,
    pub max_delay_millis: u64,
    pub max_times: u32,
}

/// The retry strategy for the core's API.
pub fn clash_api_default_backoff_strategy() -> (strategy: BackoffStrategy)
    ensures
        strategy == (BackoffStrategy {
            min_delay_millis: 50,
            max_delay_millis: 5000,
            max_times: 5,
        }),
{
    BackoffStrategy { min_delay_millis: 50, max_delay_millis: 5000, max_times: 5 }
}

/// The looks taken at the core, one second apart, before the connector is
/// started regardless.
pub const CORE_WAIT_ROUNDS: u32 = 60;

/// The seconds a running core is given to open its API.
pub const CORE_SETTLE_SECS: u64 = 2;

/// The attempts to start the connector.
pub const CONNECTOR_ATTEMPTS: u32 = 5;

/// The seconds between two attempts.
pub const CONNECTOR_RETRY_SECS: u64 = 3;

/// What the setup of the connector is waiting for.
#[derive(Clone, Copy, Debug, PartialEq, Eq, Structural)]
pub enum ConnectorPhase {
    /// The pause before the core is looked at; `waited` looks found it not
    /// running.
    Pausing { waited: u32 },
    /// The core's state.
    Polling { waited: u32 },
    /// The pause that lets a running core open its API.
    Settling,
    /// The start of the connector; `failures` attempts failed before.
    Connecting { failures: u32 },
    /// The pause before the next attempt.
    Retrying { failures: u32 },
    /// Nothing: events are being forwarded, or the setup was broken off.
    Finished,
}

/// What the caller is to do next.
#[derive(Clone, Copy, Debug, PartialEq, Eq, Structural)]
pub enum ConnectorAction {
    /// Sleep; answer with `ConnectorEvent::Slept`.
    Sleep { secs: u64 },
    /// Ask whether the core runs; answer with `ConnectorEvent::Core`.
    QueryCore,
    /// Start the connector; answer with `ConnectorEvent::Started`.
    StartConnector,
    /// Subscribe to the connector and emit every event it sends, until it
    /// sends no more. `connected` says whether the connector started.
    Forward { connected: bool },
    /// Stop: an outcome was handed in that was not asked for.
    Abort,
}

/// The outcome of what was asked for.
#[derive(Clone, Copy, Debug, PartialEq, Eq, Structural)]
pub enum ConnectorEvent {
    Slept,
    Core { running: bool },
    Started { ok: bool },
}

/// The setup of the connector.
#[derive(Clone, Copy, Debug, PartialEq, Eq, Structural)]
pub struct ConnectorSetup {
    pub phase: ConnectorPhase,
}

/// A step of the setup. The core is looked at every second, sixty times at
/// most; a running core is given two seconds. Then the connector is started,
/// five times at most and three seconds apart. Events are forwarded in the
/// end whether or not it started.
pub open spec fn connector_step(setup: ConnectorSetup, event: ConnectorEvent) -> (
    ConnectorSetup,
    ConnectorAction,
) {
    match (setup.phase, event) {
        (ConnectorPhase::Pausing { waited }, ConnectorEvent::Slept) => (
            ConnectorSetup { phase: ConnectorPhase::Polling { waited: waited } },
            ConnectorAction::QueryCore,
        ),
        (ConnectorPhase::Polling { waited }, ConnectorEvent::Core { running }) => {
            if running {
                (
                    ConnectorSetup { phase: ConnectorPhase::Settling },
                    ConnectorAction::Sleep { secs: CORE_SETTLE_SECS },
                )
            } else if waited + 1 >= CORE_WAIT_ROUNDS {
                (
                    ConnectorSetup { phase: ConnectorPhase::Connecting { failures: 0 } },
                    ConnectorAction::StartConnector,
                )
            } else {
                (
                    ConnectorSetup { phase: ConnectorPhase::Pausing { waited: (waited + 1) as u32 } },
                    ConnectorAction::Sleep { secs: 1 },
                )
            }
        },
        (ConnectorPhase::Settling, ConnectorEvent::Slept) => (
            ConnectorSetup { phase: ConnectorPhase::Connecting { failures: 0 } },
            ConnectorAction::StartConnector,
        ),
        (ConnectorPhase::Connecting { failures }, ConnectorEvent::Started { ok }) => {
            if ok {
                (
                    ConnectorSetup { phase: ConnectorPhase::Finished },
                    ConnectorAction::Forward { connected: true },
                )
            } else if failures + 1 >= CONNECTOR_ATTEMPTS {
                (
                    ConnectorSetup { phase: ConnectorPhase::Finished },
                    ConnectorAction::Forward { connected: false },
                )
            } else {
                (
                    ConnectorSetup {
                        phase: ConnectorPhase::Retrying { failures: (failures + 1) as u32 },
                    },
                    ConnectorAction::Sleep { secs: CONNECTOR_RETRY_SECS },
                )
            }
        },
        (ConnectorPhase::Retrying { failures }, ConnectorEvent::Slept) => (
            ConnectorSetup { phase: ConnectorPhase::Connecting { failures: failures } },
            ConnectorAction::StartConnector,
        ),
        _ => (ConnectorSetup { phase: ConnectorPhase::Finished }, ConnectorAction::Abort),
    }
}

/// Begins the setup of the connector: the first look at the core comes
/// after a second.
pub fn setup() -> (started: (ConnectorSetup, ConnectorAction))
    ensures
        started == (
            ConnectorSetup { phase: ConnectorPhase::Pausing { waited: 0 } },
            ConnectorAction::Sleep { secs: 1 },
        ),
{
    (
        ConnectorSetup { phase: ConnectorPhase::Pausing { waited: 0 } },
        ConnectorAction::Sleep { secs: 1 },
    )
}

impl ConnectorSetup {
    /// Takes the outcome of what was last asked for and says what to do
    /// next.
    pub fn step(&mut self, event: ConnectorEvent) -> (action: ConnectorAction)
        ensures
            (*final(self), action) == connector_step(*old(self), event),
    {
        match (self.phase, event) {
            (ConnectorPhase::Pausing { waited }, ConnectorEvent::Slept) => {
                self.phase = ConnectorPhase::Polling { waited };
                ConnectorAction::QueryCore
            },
            (ConnectorPhase::Polling { waited }, ConnectorEvent::Core { running }) => {
                if running {
                    self.phase = ConnectorPhase::Settling;
                    ConnectorAction::Sleep { secs: CORE_SETTLE_SECS }
                } else if waited >= CORE_WAIT_ROUNDS - 1 {
                    self.phase = ConnectorPhase::Connecting { failures: 0 };
                    ConnectorAction::StartConnector
                } else {
                    self.phase = ConnectorPhase::Pausing { waited: waited + 1 };
                    ConnectorAction::Sleep { secs: 1 }
                }
            },
            (ConnectorPhase::Settling, ConnectorEvent::Slept) => {
                self.phase = ConnectorPhase::Connecting { failures: 0 };
                ConnectorAction::StartConnector
            },
            (ConnectorPhase::Connecting { failures }, ConnectorEvent::Started { ok }) => {
                if ok {
                    self.phase = ConnectorPhase::Finished;
                    ConnectorAction::Forward { connected: true }
                } else if failures >= CONNECTOR_ATTEMPTS - 1 {
                    self.phase = ConnectorPhase::Finished;
                    ConnectorAction::Forward { connected: false }
                } else {
                    self.phase = ConnectorPhase::Retrying { failures: failures + 1 };
                    ConnectorAction::Sleep { secs: CONNECTOR_RETRY_SECS }
                }
            },
            (ConnectorPhase::Retrying { failures }, ConnectorEvent::Slept) => {
                self.phase = ConnectorPhase::Connecting { failures };
                ConnectorAction::StartConnector
            },
            _ => {
                self.phase = ConnectorPhase::Finished;
                ConnectorAction::Abort
            },
        }
    }
}

/// How many steps a phase of the connector's setup is from the end at most.
pub open spec fn connector_steps_left(phase: ConnectorPhase) -> nat {
    match phase {
        ConnectorPhase::Pausing { waited } => if waited < CORE_WAIT_ROUNDS {
            (13 + 2 * (CORE_WAIT_ROUNDS - waited)) as nat
        } else {
            14
        },
        ConnectorPhase::Polling { waited } => if waited < CORE_WAIT_ROUNDS {
            (12 + 2 * (CORE_WAIT_ROUNDS - waited)) as nat
        } else {
            13
        },
        ConnectorPhase::Settling => 11,
        ConnectorPhase::Connecting { failures } => if failures < CONNECTOR_ATTEMPTS {
            (2 * (CONNECTOR_ATTEMPTS - failures)) as nat
        } else {
            1
        },
        ConnectorPhase::Retrying { failures } => if failures < CONNECTOR_ATTEMPTS {
            (1 + 2 * (CONNECTOR_ATTEMPTS - failures)) as nat
        } else {
            2
        },
        ConnectorPhase::Finished => 0,
    }
}

/// Every step brings the setup nearer to its end, whatever the outcome: the
/// core is waited for and the connector is tried a bounded number of times.
pub proof fn lemma_connector_makes_progress(setup: ConnectorSetup, event: ConnectorEvent)
    requires
        setup.phase != ConnectorPhase::Finished,
    ensures
        connector_steps_left(connector_step(setup, event).0.phase) < connector_steps_left(
            setup.phase,
        ),
        (connector_step(setup, event).1 is Forward || connector_step(setup, event).1 is Abort)
            <==> connector_step(setup, event).0.phase == ConnectorPhase::Finished,
{
}

} // verus!

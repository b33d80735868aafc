//! The connectivity flag and the loop that keeps it current.
//!
//! The flag says whether the helper's control channel is believed reachable.
//! Only the health check writes it, and only by moving from the state it
//! expects: a status that asks for the state already held changes nothing and
//! notifies nobody. The loop itself is run by the caller, one round at a time.

use vstd::prelude::*;
use crate::service::error::ServiceError;
use crate::service::{ServiceStatus, StatusInfo};

verus! {

/// Whether the helper's control channel is believed reachable.
#[derive(Clone, Copy, Debug, PartialEq, Eq, Structural)]
pub enum IpcState {
    Connected,
    Disconnected,
}

impl IpcState {
    pub fn is_connected(&self) -> (connected: bool)
        ensures
            connected == (*self == IpcState::Connected),
    {
        match self {
            IpcState::Connected => true,
            IpcState::Disconnected => false,
        }
    }
}

/// How the proxy core is currently run: by the application itself, or under
/// the helper's supervision.
#[derive(Clone, Copy, Debug, PartialEq, Eq, Structural)]
pub enum RunType {
    Normal,
    Service,
}

/// The state of the health-check loop and of the flag it maintains.
#[derive(Debug)]
pub struct HealthMonitor {
    ipc_state: IpcState,
    kill_flag: bool,
    running: bool,
    check_count: u64,
}

pub struct HealthMonitorView {
    pub ipc_state: IpcState,
    /// The loop has been asked to end.
    pub kill_flag: bool,
    /// A loop has been started and has not ended.
    pub running: bool,
    /// Status checks made since the loop was started.
    pub check_count: nat,
}

impl View for HealthMonitor {
    type V = HealthMonitorView;

    closed spec fn view(&self) -> HealthMonitorView {
        HealthMonitorView {
            ipc_state: self.ipc_state,
            kill_flag: self.kill_flag,
            running: self.running,
            check_count: self.check_count as nat,
        }
    }
}

/// What one round of the loop asks of the caller.
#[derive(Clone, Copy, Debug, PartialEq, Eq, Structural)]
pub enum HealthRound {
    /// The loop has ended. `Disconnected` has been published and is to be
    /// announced.
    Terminated,
    /// Query the helper's status and hand it to `health_probed`.
    Probe,
}

/// What follows a status check: whom to notify, and how long to sleep.
#[derive(Clone, Copy, Debug, PartialEq, Eq, Structural)]
pub struct HealthPause {
    /// The state to announce, if the check changed it.
    pub notify: Option<IpcState>,
    pub pause_secs: u64,
}

/// The state that a status asks for: `Connected` for a running helper,
/// `Disconnected` for any other status and for a failed query (`None`).
pub open spec fn wanted_state(status: Option<ServiceStatus>) -> IpcState {
    if status == Some(ServiceStatus::Running) {
        IpcState::Connected
    } else {
        IpcState::Disconnected
    }
}

/// The status that a query's result carries, `None` for a failed query.
pub open spec fn observed(status: Result<StatusInfo, ServiceError>) -> Option<ServiceStatus> {
    match status {
        Ok(info) => Some(info.status),
        Err(_) => None,
    }
}

/// The announcement due when the flag holds `held` and `wanted` is asked for.
pub open spec fn notification(held: IpcState, wanted: IpcState) -> Option<IpcState> {
    if held == wanted {
        None
    } else {
        Some(wanted)
    }
}

/// The sleep after the `count`-th status check since the loop started: five
/// seconds after each of the first three, thirty after every later one.
pub open spec fn pause_after(count: nat) -> nat {
    if count <= 3 {
        5
    } else {
        30
    }
}

/// The announcements made while the statuses `statuses` are checked in
/// order, starting with the flag at `held`.
pub open spec fn notifications(held: IpcState, statuses: Seq<Option<ServiceStatus>>) -> Seq<
    IpcState,
>
    decreases statuses.len(),
{
    if statuses.len() == 0 {
        Seq::empty()
    } else {
        let wanted = wanted_state(statuses[0]);
        let rest = notifications(wanted, statuses.drop_first());
        match notification(held, wanted) {
            Some(state) => seq![state] + rest,
            None => rest,
        }
    }
}

/// Whether the core has to be restarted after the flag moved to `state`:
/// only in service mode, and only where the flag and the way the core runs
/// disagree.
pub open spec fn restart_needed(state: IpcState, service_mode: bool, run_type: RunType) -> bool {
    service_mode && ((state == IpcState::Connected && run_type == RunType::Normal) || (state
        == IpcState::Disconnected && run_type == RunType::Service))
}

impl HealthMonitor {
    /// A monitor at rest: disconnected, no loop, no request to end one.
    pub fn new() -> (monitor: HealthMonitor)
        ensures
            monitor@ == (HealthMonitorView {
                ipc_state: IpcState::Disconnected,
                kill_flag: false,
                running: false,
                check_count: 0,
            }),
    {
        HealthMonitor {
            ipc_state: IpcState::Disconnected,
            kill_flag: false,
            running: false,
            check_count: 0,
        }
    }

    /// Whether a loop has been started and has not ended. A caller starts a
    /// loop only where this is false.
    pub fn is_running(&self) -> (running: bool)
        ensures
            running == self@.running,
    {
        self.running
    }

    pub fn kill_requested(&self) -> (requested: bool)
        ensures
            requested == self@.kill_flag,
    {
        self.kill_flag
    }

    pub fn checks_made(&self) -> (count: u64)
        ensures
            count as nat == self@.check_count,
    {
        self.check_count
    }

    /// Asks the loop to end. It does so at the start of its next round.
    pub fn request_stop(&mut self)
        ensures
            final(self)@ == (HealthMonitorView { kill_flag: true, ..old(self)@ }),
    {
        self.kill_flag = true;
    }

    /// Starts a round of the loop. With the kill flag set the loop ends here,
    /// whatever the flag held before: `Disconnected` is published and is to
    /// be announced, and the loop no longer counts as running.
    pub fn health_round(&mut self) -> (round: HealthRound)
        ensures
            old(self)@.kill_flag ==> round == HealthRound::Terminated && final(self)@ == (
            HealthMonitorView { ipc_state: IpcState::Disconnected, running: false, ..old(self)@ }),
            !old(self)@.kill_flag ==> round == HealthRound::Probe && final(self)@ == old(self)@,
    {
        if self.kill_flag {
            let _ = set_ipc_state(self, IpcState::Disconnected);
            self.running = false;
            HealthRound::Terminated
        } else {
            HealthRound::Probe
        }
    }

    /// Ends a round with the status that was queried: moves the flag, counts
    /// the check, and says how long to sleep before the next round.
    pub fn health_probed(&mut self, status: &Result<StatusInfo, ServiceError>) -> (pause:
        HealthPause)
        ensures
            final(self)@.ipc_state == wanted_state(observed(*status)),
            final(self)@.kill_flag == old(self)@.kill_flag,
            final(self)@.running == old(self)@.running,
            final(self)@.check_count == (if old(self)@.check_count < u64::MAX {
                old(self)@.check_count + 1
            } else {
                old(self)@.check_count
            }),
            pause.notify == notification(old(self)@.ipc_state, wanted_state(observed(*status))),
            pause.pause_secs == pause_after(final(self)@.check_count),
    {
        let notify = health_check(self, status);
        if self.check_count < u64::MAX {
            self.check_count = self.check_count + 1;
        }
        let pause_secs: u64 = if self.check_count <= 3 {
            5
        } else {
            30
        };
        HealthPause { notify, pause_secs }
    }
}

/// The connectivity flag as it stands.
pub fn get_ipc_state(monitor: &HealthMonitor) -> (state: IpcState)
    ensures
        state == monitor@.ipc_state,
{
    monitor.ipc_state
}

/// Stores `state` whatever the flag held, and returns the state to announce:
/// this write always announces.
pub fn set_ipc_state(monitor: &mut HealthMonitor, state: IpcState) -> (announced: IpcState)
    ensures
        final(monitor)@ == (HealthMonitorView { ipc_state: state, ..old(monitor)@ }),
        announced == state,
{
    monitor.ipc_state = state;
    state
}

/// Moves the flag from `Connected` to `Disconnected`. A flag that is not at
/// `Connected` stays as it is and nothing is announced.
pub fn dispatch_disconnected(monitor: &mut HealthMonitor) -> (announced: Option<IpcState>)
    ensures
        final(monitor)@ == (HealthMonitorView {
            ipc_state: IpcState::Disconnected,
            ..old(monitor)@
        }),
        announced == notification(old(monitor)@.ipc_state, IpcState::Disconnected),
{
    match monitor.ipc_state {
        IpcState::Connected => {
            monitor.ipc_state = IpcState::Disconnected;
            Some(IpcState::Disconnected)
        },
        IpcState::Disconnected => None,
    }
}

/// Moves the flag from `Disconnected` to `Connected`. A flag that is not at
/// `Disconnected` stays as it is and nothing is announced.
pub fn dispatch_connected(monitor: &mut HealthMonitor) -> (announced: Option<IpcState>)
    ensures
        final(monitor)@ == (HealthMonitorView { ipc_state: IpcState::Connected, ..old(monitor)@ }),
        announced == notification(old(monitor)@.ipc_state, IpcState::Connected),
{
    match monitor.ipc_state {
        IpcState::Disconnected => {
            monitor.ipc_state = IpcState::Connected;
            Some(IpcState::Connected)
        },
        IpcState::Connected => None,
    }
}

/// Decides, after the flag moved to `state`, whether the proxy core is to be
/// restarted. `service_mode` is the configured flag, `run_type` the way the
/// core runs now.
pub fn on_ipc_state_changed(state: IpcState, service_mode: bool, run_type: RunType) -> (restart:
    bool)
    ensures
        restart == restart_needed(state, service_mode, run_type),
{
    if service_mode {
        match (state, run_type) {
            (IpcState::Connected, RunType::Normal) => true,
            (IpcState::Disconnected, RunType::Service) => true,
            _ => false,
        }
    } else {
        false
    }
}

/// Marks a loop as started: the kill flag is cleared, the count of checks
/// starts anew. The caller then runs the rounds.
pub fn spawn_health_check(monitor: &mut HealthMonitor)
    ensures
        final(monitor)@ == (HealthMonitorView {
            kill_flag: false,
            running: true,
            check_count: 0,
            ..old(monitor)@
        }),
{
    monitor.kill_flag = false;
    monitor.running = true;
    monitor.check_count = 0;
}

/// Moves the flag to what the queried status asks for and returns the state
/// to announce, if the flag moved.
pub fn health_check(
    monitor: &mut HealthMonitor,
    status: &Result<StatusInfo, ServiceError>,
) -> (announced: Option<IpcState>)
    ensures
        final(monitor)@ == (HealthMonitorView {
            ipc_state: wanted_state(observed(*status)),
            ..old(monitor)@
        }),
        announced == notification(old(monitor)@.ipc_state, wanted_state(observed(*status))),
{
    match status {
        Ok(info) => match info.status {
            ServiceStatus::Running => dispatch_connected(monitor),
            ServiceStatus::Stopped => dispatch_disconnected(monitor),
            ServiceStatus::NotInstalled => dispatch_disconnected(monitor),
        },
        Err(_) => dispatch_disconnected(monitor),
    }
}

/// The first announcement differs from the state held before, and no two
/// announcements in a row name the same state: a status repeated any number
/// of times announces at most once.
pub proof fn lemma_notifications_alternate(held: IpcState, statuses: Seq<Option<ServiceStatus>>)
    ensures
        notifications(held, statuses).len() <= statuses.len(),
        notifications(held, statuses).len() > 0 ==> notifications(held, statuses)[0] != held,
        forall|i: int|
            0 <= i && i + 1 < notifications(held, statuses).len() ==> #[trigger] notifications(
                held,
                statuses,
            )[i] != notifications(held, statuses)[i + 1],
    decreases statuses.len(),
{
    if statuses.len() > 0 {
        let wanted = wanted_state(statuses[0]);
        let rest = notifications(wanted, statuses.drop_first());
        lemma_notifications_alternate(wanted, statuses.drop_first());
        lemma_notifications_reach(wanted, statuses.drop_first());
        if held != wanted {
            let all = seq![wanted] + rest;
            assert(notifications(held, statuses) == all);
            assert forall|i: int| 0 <= i && i + 1 < all.len() implies #[trigger] all[i] != all[i
                + 1] by {
                if i == 0 {
                    assert(all[1] == rest[0]);
                } else {
                    assert(all[i] == rest[i - 1]);
                    assert(all[i + 1] == rest[i]);
                }
            }
        } else {
            assert(notifications(held, statuses) == rest);
        }
    }
}

/// Every announcement names the state the flag moved to: the last one is the
/// state held at the end, which is what the last status asked for.
pub proof fn lemma_notifications_reach(held: IpcState, statuses: Seq<Option<ServiceStatus>>)
    ensures
        notifications(held, statuses).len() > 0 ==> statuses.len() > 0 && notifications(
            held,
            statuses,
        ).last() == wanted_state(statuses.last()),
        notifications(held, statuses).len() == 0 && statuses.len() > 0 ==> wanted_state(
            statuses.last(),
        ) == held,
    decreases statuses.len(),
{
    if statuses.len() > 0 {
        let wanted = wanted_state(statuses[0]);
        let tail = statuses.drop_first();
        let rest = notifications(wanted, tail);
        lemma_notifications_reach(wanted, tail);
        if tail.len() > 0 {
            assert(tail.last() == statuses.last());
        }
        if held != wanted {
            let all = seq![wanted] + rest;
            assert(notifications(held, statuses) == all);
            if rest.len() > 0 {
                assert(all.last() == rest.last());
            } else {
                assert(all.last() == wanted);
            }
        }
    }
}

/// The sleeps of a loop from its start: five seconds after each of the first
/// three checks, thirty seconds after the fourth and every later one.
pub proof fn lemma_pause_schedule(count: nat)
    ensures
        1 <= count <= 3 ==> pause_after(count) == 5,
        count >= 4 ==> pause_after(count) == 30,
{
}

} // verus!

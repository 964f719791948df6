//! When a backup starts.
use super::events::{BackupTrigger, ScheduleAction};
use super::state::{RuntimeState, ServiceRuntime};
use crate::conditions::SystemConditions;
use crate::protocol::repository_operation_allows_backup;
use crate::status::{
    transition_state, transitioned, BackupPhase, BackupState, ServiceStatus, WaitingReason,
};
use crate::text;
use crate::time::NANOSECONDS_PER_MILLISECOND;
use vstd::prelude::*;

verus! {

/// How often the conditions are looked at again, in milliseconds.
pub const CONDITION_RETRY: u64 = 60_000;

/// How often the schedule is looked at where it has no deadline, in milliseconds.
pub const IDLE_RETRY: u64 = 3_600_000;

/// What keeps a due backup from starting.
#[derive(Debug, Clone, Copy, PartialEq, Eq, Structural)]
pub enum ScheduleBlocker {
    WakeGrace,
    NetworkUnavailable,
    BatteryDisallowed,
    MeteredNetworkDisallowed,
}

/// What the schedule is decided from.
#[derive(Debug, Clone, Copy, PartialEq, Eq, Structural)]
pub struct SchedulerSnapshot {
    pub now: i128,
    pub last_success: Option<i128>,
    pub resumed_at: Option<i128>,
    pub not_before: Option<i128>,
    pub manual_requested: bool,
    pub backup_running: bool,
    pub network_required: bool,
    pub network_available: bool,
    pub on_battery: bool,
    pub metered_network: bool,
}

/// What the schedule says.
#[derive(Debug, PartialEq, Eq)]
pub enum ScheduleDecision {
    AlreadyRunning,
    Start { trigger: BackupTrigger },
    Idle { next_deadline: i128 },
    Waiting { blockers: Vec<ScheduleBlocker>, retry_at: Option<i128> },
}

pub open spec fn reason_for(blocker: ScheduleBlocker) -> WaitingReason {
    match blocker {
        ScheduleBlocker::WakeGrace => WaitingReason::WakeGrace,
        ScheduleBlocker::NetworkUnavailable => WaitingReason::Network,
        ScheduleBlocker::BatteryDisallowed => WaitingReason::Battery,
        ScheduleBlocker::MeteredNetworkDisallowed => WaitingReason::MeteredNetwork,
    }
}

pub fn waiting_reason(blocker: ScheduleBlocker) -> (reason: WaitingReason)
    ensures
        reason == reason_for(blocker),
{
    match blocker {
        ScheduleBlocker::WakeGrace => WaitingReason::WakeGrace,
        ScheduleBlocker::NetworkUnavailable => WaitingReason::Network,
        ScheduleBlocker::BatteryDisallowed => WaitingReason::Battery,
        ScheduleBlocker::MeteredNetworkDisallowed => WaitingReason::MeteredNetwork,
    }
}

/// Whether a text starts as a network share does.
pub open spec fn names_a_share(path: Seq<char>) -> bool {
    text::starts_with(path, r"\\"@) || text::starts_with(path, "//"@)
}

/// Whether a text starts with a drive letter, a colon and a separator.
pub open spec fn starts_on_a_drive(path: Seq<char>) -> bool {
    &&& path.len() >= 3
    &&& text::is_ascii_alphabetic(path[0])
    &&& path[1] == ':'
    &&& path[2] == '\\' || path[2] == '/'
}

/// Whether a repository lies on the network: shares do, local drives do not,
/// and every other text with a colon names a remote backend.
pub open spec fn needs_network(repository: Seq<char>) -> bool {
    let repository = text::trimmed(repository);
    if text::starts_with(repository, "local:"@) || text::starts_with(repository, "LOCAL:"@) {
        names_a_share(repository.subrange(6, repository.len() as int))
    } else if names_a_share(repository) {
        true
    } else if starts_on_a_drive(repository) {
        false
    } else {
        repository.contains(':')
    }
}

fn share(path: &str) -> (yes: bool)
    ensures
        yes == names_a_share(path@),
{
    text::text_starts_with(path, r"\\") || text::text_starts_with(path, "//")
}

pub fn repository_requires_network(repository: &str) -> (required: bool)
    ensures
        required == needs_network(repository@),
        ({
            let name = text::trimmed(repository@);
            let local = text::starts_with(name, "local:"@) || text::starts_with(name, "LOCAL:"@);
            let on_drive = name.len() >= 3 && text::is_ascii_alphabetic(name[0]) && name[1] == ':'
                && (name[2] == '\\' || name[2] == '/');
            &&& name.contains(':') && !local && !on_drive ==> required
            &&& !name.contains(':') && !text::starts_with(name, r"\\"@) && !text::starts_with(
                name,
                "//"@,
            ) ==> !required
        }),
{
    let ghost name = text::trimmed(repository@);
    proof {
        reveal_strlit("local:");
        reveal_strlit("LOCAL:");
        if text::starts_with(name, "local:"@) {
            assert(name.subrange(0, 6)[5] == name[5]);
        }
        if text::starts_with(name, "LOCAL:"@) {
            assert(name.subrange(0, 6)[5] == name[5]);
        }
    }
    let repository = text::trim(repository);
    let chars = text::characters(repository.as_str());
    proof {
        reveal_strlit("local:");
        reveal_strlit("LOCAL:");
        assert("local:"@.len() == 6);
        assert("LOCAL:"@.len() == 6);
    }
    if text::text_starts_with(repository.as_str(), "local:") || text::text_starts_with(
        repository.as_str(),
        "LOCAL:",
    ) {
        let path = text::text_of(&chars, 6, chars.len());
        return share(path.as_str());
    }
    if share(repository.as_str()) {
        return true;
    }
    if chars.len() >= 3 && text::ascii_alphabetic(chars[0]) && chars[1] == ':' && (chars[2] == '\\'
        || chars[2] == '/') {
        return false;
    }
    text::holds_character(&chars, ':')
}

/// When the hold of an update has to be looked at again. An installation that
/// outlasts its hold has no such time.
pub open spec fn hold_deadline(state: RuntimeState, now: i128) -> Option<i128> {
    if state.update_hold_until is Some && state.update_hold_until->0 > now {
        state.update_hold_until
    } else {
        None
    }
}

/// The state once the hold of an update was looked at. A hold that lasts, or an
/// installation, keeps the service waiting; a hold that has passed gives the
/// earlier status back.
pub open spec fn after_hold(state: RuntimeState, now: i128) -> RuntimeState {
    if state.update_pending(now) {
        RuntimeState {
            status: ServiceStatus {
                next_deadline: hold_deadline(state, now),
                ..transitioned(
                    state.status,
                    BackupState::Waiting { reason: WaitingReason::Update },
                    now,
                )
            },
            ..state
        }
    } else {
        RuntimeState {
            update_hold_until: None,
            update_hold_previous_status: None,
            status: if state.update_hold_previous_status is Some && state.status.state == (
            BackupState::Waiting { reason: WaitingReason::Update }) {
                ServiceStatus {
                    state: state.update_hold_previous_status->0.state,
                    state_since: now,
                    next_deadline: state.update_hold_previous_status->0.next_deadline,
                    ..state.status
                }
            } else {
                state.status
            },
            ..state
        }
    }
}

/// Whether the schedule is decided at all.
pub open spec fn is_schedulable(runtime: ServiceRuntime, now: i128) -> bool {
    &&& !runtime.state.update_pending(now)
    &&& runtime.config.configured()
    &&& !runtime.state.management_operation_active
    &&& runtime.state.repository_operation.allows_backup()
}

/// What the schedule is decided from.
pub open spec fn snapshot_of(
    runtime: ServiceRuntime,
    now: i128,
    conditions: SystemConditions,
) -> SchedulerSnapshot {
    let state = after_hold(runtime.state, now);
    SchedulerSnapshot {
        now,
        last_success: state.status.last_success,
        resumed_at: state.resumed_at,
        not_before: state.not_before,
        manual_requested: state.manual_requested,
        backup_running: state.status.state is Running,
        network_required: match runtime.config.repository.url {
            Some(url) => needs_network(url@),
            None => needs_network(Seq::empty()),
        },
        network_available: conditions.network_available,
        on_battery: conditions.on_battery,
        metered_network: conditions.metered_network,
    }
}

/// The state once a decision was followed.
pub open spec fn after_decision(
    state: RuntimeState,
    now: i128,
    decision: ScheduleDecision,
) -> RuntimeState {
    match decision {
        ScheduleDecision::AlreadyRunning => state,
        ScheduleDecision::Start { .. } => RuntimeState {
            status: ServiceStatus {
                state: BackupState::Running { phase: BackupPhase::PreparingSnapshot },
                state_since: now,
                last_attempt: Some(now),
                progress: None,
                next_deadline: None,
                ..state.status
            },
            manual_requested: false,
            resumed_at: None,
            not_before: None,
            ..state
        },
        ScheduleDecision::Idle { next_deadline } => RuntimeState {
            status: ServiceStatus {
                next_deadline: Some(next_deadline),
                ..if state.status.state is Waiting {
                    transitioned(state.status, BackupState::Idle, now)
                } else {
                    state.status
                }
            },
            resumed_at: None,
            ..state
        },
        ScheduleDecision::Waiting { blockers, retry_at } => RuntimeState {
            status: ServiceStatus {
                next_deadline: if retry_at is Some {
                    retry_at
                } else if state.not_before is Some {
                    state.not_before
                } else {
                    Some(now)
                },
                ..transitioned(
                    state.status,
                    BackupState::Waiting { reason: reason_for(blockers@[0]) },
                    now,
                )
            },
            ..state
        },
    }
}

/// The whole milliseconds from `now` to `deadline`, as far as they can be counted.
fn whole_milliseconds(deadline: i128, now: i128) -> (left: u64)
    requires
        now <= deadline,
    ensures
        left == ({
            let left = (deadline - now) / (NANOSECONDS_PER_MILLISECOND as int);
            if left < u64::MAX {
                left
            } else {
                u64::MAX as int
            }
        }),
{
    match deadline.checked_sub(now) {
        Some(span) => {
            let left: u128 = (span as u128) / 1_000_000;
            if left < u64::MAX as u128 {
                left as u64
            } else {
                u64::MAX
            }
        },
        None => u64::MAX,
    }
}

fn waits_for_update(state: &BackupState) -> (waits: bool)
    ensures
        waits == (*state == (BackupState::Waiting { reason: WaitingReason::Update })),
{
    match state {
        BackupState::Waiting { reason } => *reason == WaitingReason::Update,
        _ => false,
    }
}

impl ServiceRuntime {
    pub fn record_resume(&mut self, now: i128)
        ensures
            final(self).only_state_changed(*old(self)),
            final(self).state == (RuntimeState { resumed_at: Some(now), ..old(self).state }),
    {
        self.state.resumed_at = Some(now);
    }

    /// Looks at what keeps the schedule from being decided, and says what it is
    /// decided from where nothing does.
    pub fn evaluate_schedule(&mut self, now: i128, conditions: SystemConditions) -> (snapshot:
        Option<SchedulerSnapshot>)
        ensures
            final(self).only_state_changed(*old(self)),
            final(self).state == after_hold(old(self).state, now),
            snapshot == (if is_schedulable(*old(self), now) {
                Some(snapshot_of(*old(self), now, conditions))
            } else {
                None
            }),
    {
        if self.state.has_pending_update(now) {
            transition_state(
                &mut self.state.status,
                BackupState::Waiting { reason: WaitingReason::Update },
                now,
            );
            self.state.status.next_deadline = match self.state.update_hold_until {
                Some(deadline) => if deadline > now {
                    Some(deadline)
                } else {
                    None
                },
                None => None,
            };
            return None;
        }
        self.state.update_hold_until = None;
        match self.state.update_hold_previous_status.take() {
            Some(previous) => {
                if waits_for_update(&self.state.status.state) {
                    self.state.status.state = previous.state;
                    self.state.status.state_since = now;
                    self.state.status.next_deadline = previous.next_deadline;
                }
            },
            None => {},
        }
        if !self.config.is_configured() || self.state.management_operation_active
            || !repository_operation_allows_backup(&self.state.repository_operation) {
            return None;
        }
        let network_required = match &self.config.repository.url {
            Some(url) => repository_requires_network(url.as_str()),
            None => {
                let nowhere = String::new();
                repository_requires_network(nowhere.as_str())
            },
        };
        Some(
            SchedulerSnapshot {
                now,
                last_success: self.state.status.last_success,
                resumed_at: self.state.resumed_at,
                not_before: self.state.not_before,
                manual_requested: self.state.manual_requested,
                backup_running: self.state.status.state.is_running(),
                network_required,
                network_available: conditions.network_available,
                on_battery: conditions.on_battery,
                metered_network: conditions.metered_network,
            },
        )
    }

    /// Follows what the schedule says.
    pub fn apply_schedule_decision(&mut self, now: i128, decision: ScheduleDecision) -> (action:
        ScheduleAction)
        requires
            decision is Waiting ==> decision->blockers@.len() > 0,
        ensures
            final(self).only_state_changed(*old(self)),
            final(self).state == after_decision(old(self).state, now, decision),
            action == (match decision {
                ScheduleDecision::Start { trigger } => ScheduleAction::Start { trigger },
                _ => ScheduleAction::Nothing,
            }),
    {
        match decision {
            ScheduleDecision::AlreadyRunning => ScheduleAction::Nothing,
            ScheduleDecision::Start { trigger } => {
                self.state.status.state = BackupState::Running {
                    phase: BackupPhase::PreparingSnapshot,
                };
                self.state.status.state_since = now;
                self.state.status.last_attempt = Some(now);
                self.state.status.progress = None;
                self.state.status.next_deadline = None;
                self.state.manual_requested = false;
                self.state.resumed_at = None;
                self.state.not_before = None;
                ScheduleAction::Start { trigger }
            },
            ScheduleDecision::Idle { next_deadline } => {
                self.state.status.next_deadline = Some(next_deadline);
                let waiting = match &self.state.status.state {
                    BackupState::Waiting { .. } => true,
                    _ => false,
                };
                if waiting {
                    transition_state(&mut self.state.status, BackupState::Idle, now);
                }
                self.state.resumed_at = None;
                ScheduleAction::Nothing
            },
            ScheduleDecision::Waiting { blockers, retry_at } => {
                let reason = waiting_reason(blockers[0]);
                transition_state(&mut self.state.status, BackupState::Waiting { reason }, now);
                self.state.status.next_deadline = match retry_at {
                    Some(retry_at) => Some(retry_at),
                    None => match self.state.not_before {
                        Some(not_before) => Some(not_before),
                        None => Some(now),
                    },
                };
                ScheduleAction::Nothing
            },
        }
    }

    /// Whether the service waits for conditions that nobody announces.
    pub open spec fn polls_conditions(self) -> bool {
        ||| self.state.management_operation_active
        ||| self.state.status.state == (BackupState::Waiting { reason: WaitingReason::Network })
        ||| self.state.status.state == (BackupState::Waiting { reason: WaitingReason::Battery })
        ||| self.state.status.state == (BackupState::Waiting {
            reason: WaitingReason::MeteredNetwork,
        })
    }

    /// How long, in milliseconds, the event loop may sleep.
    pub open spec fn evaluation_delay(self, now: i128) -> int {
        if self.polls_conditions() {
            CONDITION_RETRY as int
        } else if self.state.status.next_deadline is None {
            IDLE_RETRY as int
        } else if self.state.status.next_deadline->0 < now {
            0
        } else {
            let left = (self.state.status.next_deadline->0 - now) / (NANOSECONDS_PER_MILLISECOND as int);
            if left < u64::MAX {
                left
            } else {
                u64::MAX as int
            }
        }
    }

    pub fn next_evaluation_delay(&self, now: i128) -> (delay: u64)
        ensures
            delay == self.evaluation_delay(now),
    {
        if self.state.management_operation_active {
            return CONDITION_RETRY;
        }
        let polls = match &self.state.status.state {
            BackupState::Waiting { reason } => match reason {
                WaitingReason::Network | WaitingReason::Battery | WaitingReason::MeteredNetwork =>
                    true,
                _ => false,
            },
            _ => false,
        };
        if polls {
            return CONDITION_RETRY;
        }
        match self.state.status.next_deadline {
            None => IDLE_RETRY,
            Some(deadline) => if deadline < now {
                0
            } else {
                whole_milliseconds(deadline, now)
            },
        }
    }
}

/// While an update is held back or installed, no backup is scheduled, whatever
/// else is known, and the service says that it waits for the update.
pub proof fn an_update_keeps_backups_from_starting(runtime: ServiceRuntime, now: i128)
    requires
        runtime.state.update_pending(now),
    ensures
        !is_schedulable(runtime, now),
        after_hold(runtime.state, now).status.state == (BackupState::Waiting {
            reason: WaitingReason::Update,
        }),
        after_hold(runtime.state, now).update_hold_previous_status
            == runtime.state.update_hold_previous_status,
{
}

/// While an update or the management keeps the schedule from being decided, the
/// event loop sleeps between two looks at it, however late any deadline is. Only
/// the last millisecond of a hold is not slept through.
pub proof fn the_loop_sleeps_while_the_schedule_is_held(runtime: ServiceRuntime, now: i128)
    requires
        runtime.state.update_pending(now) || runtime.state.management_operation_active,
    ensures
        ({
            let kept = ServiceRuntime { state: after_hold(runtime.state, now), ..runtime };
            ||| kept.evaluation_delay(now) > 0
            ||| hold_deadline(runtime.state, now) is Some && hold_deadline(runtime.state, now)->0 - now
                < NANOSECONDS_PER_MILLISECOND
        }),
{
}

/// A repository that is not verified keeps every backup from being scheduled.
pub proof fn no_backup_without_a_verified_repository(runtime: ServiceRuntime, now: i128)
    requires
        !runtime.state.repository_operation.allows_backup(),
    ensures
        !is_schedulable(runtime, now),
{
}

/// Once the hold of an update has passed, the status of before the hold is back.
pub proof fn a_passed_hold_gives_the_status_back(state: RuntimeState, now: i128)
    requires
        !state.update_pending(now),
        state.update_hold_previous_status is Some,
        state.status.state == (BackupState::Waiting { reason: WaitingReason::Update }),
    ensures
        after_hold(state, now).status.state == state.update_hold_previous_status->0.state,
        after_hold(state, now).status.next_deadline == state.update_hold_previous_status->0.next_deadline,
        after_hold(state, now).update_hold_previous_status is None,
{
}

} // verus!

//! The service process: its event loop, its worker for the management server,
//! and where its files are.
use crate::config::{chars_of, texts_of, LocalManagementConfig, ManagementMode};
use crate::outcome::{BackupOutcome, RepositoryOutcome};
use crate::paths;
use crate::protocol::{RepositoryOperationKind, UpdatePackage};
use crate::runtime::enrollment::ManagedPolicyApplyOutcome;
use crate::runtime::events::{RuntimeEvent, ScheduleAction, UpdateInstallOutcome};
use crate::status::BackupState;
use crate::text;
use vstd::prelude::*;

verus! {

/// How long cancelled work is waited for when the service stops, in seconds.
pub const SHUTDOWN_DRAIN_TIMEOUT: u64 = 10;

/// The pause after which a policy is tried again on a busy service, in seconds.
pub const MANAGEMENT_BUSY_RETRY: u64 = 30;

/// The pause between two passes of the management worker, in seconds.
pub const MANAGEMENT_PASS: u64 = 30;

/// The pause between two reports while a backup runs, in seconds.
pub const RUNNING_REPORT_CADENCE: u64 = 300;

/// The pause between two reports else, in seconds.
pub const IDLE_REPORT_CADENCE: u64 = 21_600;

/// What came of a look at the management server.
#[derive(Debug, Clone, Copy, PartialEq, Eq, Structural)]
pub enum ManagementRefreshOutcome {
    Synchronized,
    RuntimeBusy,
    Failed,
}

/// A minute, doubled with every failure after the first, and at most so often
/// that it comes to a little over an hour.
pub open spec fn backoff_seconds(failures: u32) -> int {
    60 * crate::runtime::lifecycle::doubled(
        crate::runtime::lifecycle::backoff_exponent(failures),
    )
}

/// The wait lies between a minute and sixty-four minutes.
pub proof fn the_backoff_is_bounded(failures: u32)
    ensures
        60 <= backoff_seconds(failures) <= 3840,
{
    reveal_with_fuel(crate::runtime::lifecycle::doubled, 7);
}

fn backoff(failures: u32) -> (seconds: u64)
    ensures
        seconds == backoff_seconds(failures),
        60 <= seconds <= 3840,
{
    proof {
        reveal_with_fuel(crate::runtime::lifecycle::doubled, 7);
    }
    match failures {
        0 | 1 => 60,
        2 => 120,
        3 => 240,
        4 => 480,
        5 => 960,
        6 => 1920,
        _ => 3840,
    }
}

/// The seconds until the management server is looked at again.
pub open spec fn refresh_delay(
    refresh_interval_minutes: u32,
    outcome: ManagementRefreshOutcome,
    consecutive_failures: u32,
) -> int {
    let configured = refresh_interval_minutes * 60;
    match outcome {
        ManagementRefreshOutcome::Synchronized => configured,
        ManagementRefreshOutcome::RuntimeBusy => MANAGEMENT_BUSY_RETRY as int,
        ManagementRefreshOutcome::Failed => if backoff_seconds(consecutive_failures) < configured {
            backoff_seconds(consecutive_failures)
        } else {
            configured
        },
    }
}

pub fn management_refresh_delay(
    refresh_interval_minutes: u32,
    outcome: ManagementRefreshOutcome,
    consecutive_failures: u32,
) -> (seconds: u64)
    ensures
        seconds == refresh_delay(refresh_interval_minutes, outcome, consecutive_failures),
{
    let configured: u64 = (refresh_interval_minutes as u64) * 60;
    match outcome {
        ManagementRefreshOutcome::Synchronized => configured,
        ManagementRefreshOutcome::RuntimeBusy => MANAGEMENT_BUSY_RETRY,
        ManagementRefreshOutcome::Failed => {
            let seconds = backoff(consecutive_failures);
            if seconds < configured {
                seconds
            } else {
                configured
            }
        },
    }
}

/// A failed look is never repeated later than one that went well.
pub proof fn a_failure_never_waits_longer(refresh_interval_minutes: u32, failures: u32)
    ensures
        refresh_delay(refresh_interval_minutes, ManagementRefreshOutcome::Failed, failures)
            <= refresh_delay(refresh_interval_minutes, ManagementRefreshOutcome::Synchronized, 0),
{
}

/// What became of a policy that the worker fetched.
#[derive(Debug, Clone, Copy, PartialEq, Eq, Structural)]
pub enum PolicyResult {
    /// The policy of the manifest with this number is in effect.
    Applied { sequence: u64 },
    RuntimeBusy,
    SourceChanged,
    /// There is none, or none that is new.
    Nothing,
    Failed,
}

impl PolicyResult {
    pub open spec fn comes_to(self) -> ManagementRefreshOutcome {
        match self {
            PolicyResult::Applied { .. } | PolicyResult::SourceChanged | PolicyResult::Nothing =>
                ManagementRefreshOutcome::Synchronized,
            PolicyResult::RuntimeBusy => ManagementRefreshOutcome::RuntimeBusy,
            PolicyResult::Failed => ManagementRefreshOutcome::Failed,
        }
    }

    pub fn outcome(&self) -> (outcome: ManagementRefreshOutcome)
        ensures
            outcome == self.comes_to(),
    {
        match self {
            PolicyResult::Applied { .. } | PolicyResult::SourceChanged | PolicyResult::Nothing =>
                ManagementRefreshOutcome::Synchronized,
            PolicyResult::RuntimeBusy => ManagementRefreshOutcome::RuntimeBusy,
            PolicyResult::Failed => ManagementRefreshOutcome::Failed,
        }
    }
}

/// What the policy of the manifest with this number came to on the service.
pub fn policy_result(
    applied: &Result<ManagedPolicyApplyOutcome, String>,
    sequence: u64,
) -> (result: PolicyResult)
    ensures
        result == (match applied {
            Ok(ManagedPolicyApplyOutcome::Applied) => PolicyResult::Applied { sequence },
            Ok(ManagedPolicyApplyOutcome::RuntimeBusy) => PolicyResult::RuntimeBusy,
            Ok(ManagedPolicyApplyOutcome::SourceChanged) => PolicyResult::SourceChanged,
            Err(_) => PolicyResult::Failed,
        }),
{
    match applied {
        Ok(outcome) => match outcome {
            ManagedPolicyApplyOutcome::Applied => PolicyResult::Applied { sequence },
            ManagedPolicyApplyOutcome::RuntimeBusy => PolicyResult::RuntimeBusy,
            ManagedPolicyApplyOutcome::SourceChanged => PolicyResult::SourceChanged,
        },
        Err(_) => PolicyResult::Failed,
    }
}

/// How a pass of the worker begins.
#[derive(Debug, Clone, Copy, PartialEq, Eq, Structural)]
pub enum PassStart {
    /// There is nothing to do in this pass.
    Sleep,
    /// The source is new: its policy has to be activated first.
    Activate,
    Continue,
}

/// The worker that looks after the management server. Its times are
/// nanoseconds of one clock that only goes forward.
pub struct ManagementWorker {
    pub sequence: u64,
    pub source: Option<LocalManagementConfig>,
    pub next_refresh: u128,
    pub refresh_failures: u32,
    pub next_report: u128,
    pub report_failures: u32,
    pub last_observed_state: Option<BackupState>,
}

/// The clock is so far from its end that every pause fits.
pub open spec fn clock_runs(now: u128) -> bool {
    now < 0x4000_0000_0000_0000_0000_0000_0000_0000
}

/// `now` and so many seconds more.
pub open spec fn seconds_after(now: u128, seconds: int) -> u128 {
    (now + seconds * 1_000_000_000) as u128
}

fn after_seconds(now: u128, seconds: u64) -> (later: u128)
    requires
        clock_runs(now),
    ensures
        later == seconds_after(now, seconds as int),
{
    now + (seconds as u128) * 1_000_000_000
}

/// The failures in a row after one more look.
pub open spec fn failures_with(failures: u32, failed: bool) -> u32 {
    if !failed {
        0
    } else if failures == u32::MAX {
        u32::MAX
    } else {
        (failures + 1) as u32
    }
}

impl ManagementWorker {
    /// Whether the worker knows this source.
    pub open spec fn follows(self, local: LocalManagementConfig) -> bool {
        self.source is Some && self.source->0.reads_as(local)
    }

    pub fn new(now: u128) -> (worker: ManagementWorker)
        ensures
            worker == (ManagementWorker {
                sequence: 0,
                source: None,
                next_refresh: now,
                refresh_failures: 0,
                next_report: now,
                report_failures: 0,
                last_observed_state: None,
            }),
    {
        ManagementWorker {
            sequence: 0,
            source: None,
            next_refresh: now,
            refresh_failures: 0,
            next_report: now,
            report_failures: 0,
            last_observed_state: None,
        }
    }

    /// Begins a pass with the configuration as it is on disk, where it could be
    /// read.
    pub fn begin_pass(&mut self, local: Option<&LocalManagementConfig>) -> (start: PassStart)
        ensures
            match local {
                None => start is Sleep && *final(self) == *old(self),
                Some(local) => if local.mode is Disabled {
                    &&& start is Sleep
                    &&& *final(self) == (ManagementWorker {
                        source: None,
                        sequence: 0,
                        refresh_failures: 0,
                        last_observed_state: None,
                        ..*old(self)
                    })
                } else if old(self).follows(*local) {
                    start is Continue && *final(self) == *old(self)
                } else {
                    &&& start is Activate
                    &&& *final(self) == (ManagementWorker { refresh_failures: 0, ..*old(self) })
                },
            },
    {
        let local = match local {
            Some(local) => local,
            None => return PassStart::Sleep,
        };
        if local.mode == ManagementMode::Disabled {
            self.source = None;
            self.sequence = 0;
            self.refresh_failures = 0;
            self.last_observed_state = None;
            return PassStart::Sleep;
        }
        let known = match &self.source {
            Some(source) => source.same_as(local),
            None => false,
        };
        if known {
            return PassStart::Continue;
        }
        self.refresh_failures = 0;
        PassStart::Activate
    }

    /// Takes in what the activation of a new source came to. A report is due
    /// at once.
    pub fn activated(
        &mut self,
        local: &LocalManagementConfig,
        result: PolicyResult,
        refresh_interval_minutes: u32,
        now: u128,
    )
        requires
            clock_runs(now),
        ensures
            final(self).follows(*local),
            ({
                let failures = failures_with(old(self).refresh_failures, result is Failed);
                *final(self) == (ManagementWorker {
                    sequence: match result {
                        PolicyResult::Applied { sequence } => sequence,
                        PolicyResult::Nothing => 0,
                        _ => old(self).sequence,
                    },
                    source: final(self).source,
                    refresh_failures: failures,
                    next_refresh: seconds_after(
                        now,
                        refresh_delay(refresh_interval_minutes, result.comes_to(), failures),
                    ),
                    next_report: now,
                    report_failures: 0,
                    last_observed_state: None,
                })
            }),
    {
        match result {
            PolicyResult::Applied { sequence } => {
                self.sequence = sequence;
            },
            PolicyResult::Nothing => {
                self.sequence = 0;
            },
            _ => {},
        }
        let outcome = result.outcome();
        self.refresh_failures = if outcome == ManagementRefreshOutcome::Failed {
            self.refresh_failures.saturating_add(1)
        } else {
            0
        };
        self.source = Some(local.clone());
        self.next_refresh = after_seconds(
            now,
            management_refresh_delay(refresh_interval_minutes, outcome, self.refresh_failures),
        );
        self.next_report = now;
        self.report_failures = 0;
        self.last_observed_state = None;
    }

    pub fn refresh_due(&self, now: u128) -> (due: bool)
        ensures
            due == (now >= self.next_refresh),
    {
        now >= self.next_refresh
    }

    /// Whether a policy that a refresh fetched is put into effect: only one
    /// whose number is higher.
    pub fn takes(&self, sequence: u64) -> (takes: bool)
        ensures
            takes == (sequence > self.sequence),
    {
        sequence > self.sequence
    }

    /// Takes in what a refresh came to.
    pub fn refreshed(&mut self, result: PolicyResult, refresh_interval_minutes: u32, now: u128)
        requires
            clock_runs(now),
            result matches PolicyResult::Applied { sequence } ==> sequence > old(self).sequence,
        ensures
            ({
                let failures = failures_with(old(self).refresh_failures, result is Failed);
                *final(self) == (ManagementWorker {
                    sequence: match result {
                        PolicyResult::Applied { sequence } => sequence,
                        _ => old(self).sequence,
                    },
                    refresh_failures: failures,
                    next_refresh: seconds_after(
                        now,
                        refresh_delay(refresh_interval_minutes, result.comes_to(), failures),
                    ),
                    ..*old(self)
                })
            }),
            final(self).sequence >= old(self).sequence,
    {
        match result {
            PolicyResult::Applied { sequence } => {
                self.sequence = sequence;
            },
            _ => {},
        }
        let outcome = result.outcome();
        self.refresh_failures = if outcome == ManagementRefreshOutcome::Failed {
            self.refresh_failures.saturating_add(1)
        } else {
            0
        };
        self.next_refresh = after_seconds(
            now,
            management_refresh_delay(refresh_interval_minutes, outcome, self.refresh_failures),
        );
    }

    /// Whether the server last heard of another state.
    pub open spec fn sees_change(self, state: BackupState) -> bool {
        self.last_observed_state is None || !self.last_observed_state->0.reads_as(state)
    }

    /// Whether a report is due: where the machine reports at all, on every
    /// change of the state and else when its time has come.
    pub fn report_due(&mut self, reports: bool, state: &BackupState, now: u128) -> (due: bool)
        ensures
            !reports ==> !due && *final(self) == *old(self),
            reports ==> {
                let changed = old(self).sees_change(*state);
                &&& due == (changed || now >= old(self).next_report)
                &&& *final(self) == (if changed {
                    ManagementWorker {
                        next_report: now,
                        last_observed_state: Some(*state),
                        ..*old(self)
                    }
                } else {
                    *old(self)
                })
            },
    {
        if !reports {
            return false;
        }
        let changed = match &self.last_observed_state {
            Some(previous) => !previous.same_as(state),
            None => true,
        };
        if changed {
            self.next_report = now;
            self.last_observed_state = Some(state.clone());
        }
        now >= self.next_report
    }

    /// Takes in whether a report was delivered.
    pub fn reported(&mut self, delivered: bool, state: &BackupState, now: u128)
        requires
            clock_runs(now),
        ensures
            ({
                let failures = failures_with(old(self).report_failures, !delivered);
                *final(self) == (ManagementWorker {
                    report_failures: failures,
                    next_report: seconds_after(
                        now,
                        if !delivered {
                            backoff_seconds(failures)
                        } else if state is Running {
                            RUNNING_REPORT_CADENCE as int
                        } else {
                            IDLE_REPORT_CADENCE as int
                        },
                    ),
                    ..*old(self)
                })
            }),
    {
        if delivered {
            self.report_failures = 0;
            let cadence: u64 = if state.is_running() {
                RUNNING_REPORT_CADENCE
            } else {
                IDLE_REPORT_CADENCE
            };
            self.next_report = after_seconds(now, cadence);
        } else {
            self.report_failures = self.report_failures.saturating_add(1);
            self.next_report = after_seconds(now, backoff(self.report_failures));
        }
    }
}

/// What the event loop does on an event.
#[allow(inconsistent_fields)]
pub enum LoopAction {
    Nothing,
    /// Looks at the schedule.
    Evaluate,
    CancelBackup,
    FinishBackup { outcome: BackupOutcome },
    StartRepository { operation: RepositoryOperationKind },
    /// Ends an operation that is not started.
    RefuseRepository { operation: RepositoryOperationKind, code: &'static str },
    /// Ends an operation and looks at the schedule.
    FinishRepository { operation: RepositoryOperationKind, outcome: RepositoryOutcome },
    StartUpdate { package: UpdatePackage },
    /// Ends an installation that is not started.
    RefuseUpdate { code: &'static str },
    /// Ends an installation and looks at the schedule.
    FinishUpdate { outcome: UpdateInstallOutcome },
    /// Notes that the machine woke up and looks at the schedule.
    Resume,
    /// Reports that the service stops, cancels what runs and waits for it.
    Stop,
}

/// Which workers of the event loop are at work.
#[derive(Debug, Clone, Copy, PartialEq, Eq, Structural)]
pub struct EventLoop {
    pub backup_active: bool,
    pub repository_active: bool,
}

impl EventLoop {
    pub fn new() -> (events: EventLoop)
        ensures
            !events.backup_active,
            !events.repository_active,
    {
        EventLoop { backup_active: false, repository_active: false }
    }

    pub open spec fn idle(self) -> bool {
        !self.backup_active && !self.repository_active
    }

    /// `action` is what an event comes to, and `after` are the workers then.
    pub open spec fn reacts(self, event: RuntimeEvent, action: LoopAction, after: EventLoop) -> bool {
        match event {
            RuntimeEvent::Stop => action is Stop && after == self,
            RuntimeEvent::Cancel => after == self && if self.backup_active {
                action is CancelBackup
            } else {
                action is Nothing
            },
            RuntimeEvent::BackupFinished(outcome) => {
                &&& action == (LoopAction::FinishBackup { outcome })
                &&& after == (EventLoop { backup_active: false, ..self })
            },
            RuntimeEvent::RepositoryOperationRequested(operation) => if self.idle() {
                &&& action == (LoopAction::StartRepository { operation })
                &&& after == (EventLoop { repository_active: true, ..self })
            } else {
                &&& action matches LoopAction::RefuseRepository { operation: refused, code }
                &&& refused == operation
                &&& code@ == "repository_operation_conflict"@
                &&& after == self
            },
            RuntimeEvent::RepositoryOperationFinished { operation, outcome } => {
                &&& action == (LoopAction::FinishRepository { operation, outcome })
                &&& after == (EventLoop { repository_active: false, ..self })
            },
            RuntimeEvent::UpdateInstallRequested(package) => {
                &&& after == self
                &&& if self.idle() {
                    action == (LoopAction::StartUpdate { package })
                } else {
                    action matches LoopAction::RefuseUpdate { code } && code@
                        == "update_operation_conflict"@
                }
            },
            RuntimeEvent::UpdateInstallFinished(outcome) => action == (LoopAction::FinishUpdate {
                outcome,
            }) && after == self,
            RuntimeEvent::Resume => action is Resume && after == self,
            RuntimeEvent::RunNow
            | RuntimeEvent::PowerStatusChanged
            | RuntimeEvent::TimeChanged
            | RuntimeEvent::Deferred
            | RuntimeEvent::ConfigurationChanged => action is Evaluate && after == self,
            _ => action is Nothing && after == self,
        }
    }

    pub fn react(&mut self, event: RuntimeEvent) -> (action: LoopAction)
        ensures
            old(self).reacts(event, action, *final(self)),
    {
        match event {
            RuntimeEvent::Stop => LoopAction::Stop,
            RuntimeEvent::Cancel => if self.backup_active {
                LoopAction::CancelBackup
            } else {
                LoopAction::Nothing
            },
            RuntimeEvent::BackupFinished(outcome) => {
                self.backup_active = false;
                LoopAction::FinishBackup { outcome }
            },
            RuntimeEvent::RepositoryOperationRequested(operation) => if self.backup_active
                || self.repository_active {
                LoopAction::RefuseRepository { operation, code: "repository_operation_conflict" }
            } else {
                self.repository_active = true;
                LoopAction::StartRepository { operation }
            },
            RuntimeEvent::RepositoryOperationFinished { operation, outcome } => {
                self.repository_active = false;
                LoopAction::FinishRepository { operation, outcome }
            },
            RuntimeEvent::UpdateInstallRequested(package) => if self.backup_active
                || self.repository_active {
                LoopAction::RefuseUpdate { code: "update_operation_conflict" }
            } else {
                LoopAction::StartUpdate { package }
            },
            RuntimeEvent::UpdateInstallFinished(outcome) => LoopAction::FinishUpdate { outcome },
            RuntimeEvent::Resume => LoopAction::Resume,
            RuntimeEvent::RunNow
            | RuntimeEvent::PowerStatusChanged
            | RuntimeEvent::TimeChanged
            | RuntimeEvent::Deferred
            | RuntimeEvent::ConfigurationChanged => LoopAction::Evaluate,
            _ => LoopAction::Nothing,
        }
    }

    /// The schedule is looked at only while no backup runs.
    pub fn may_evaluate(&self) -> (may: bool)
        ensures
            may == !self.backup_active,
    {
        !self.backup_active
    }

    /// Takes in what the schedule said, and whether a backup is to be started.
    pub fn evaluated(&mut self, action: ScheduleAction) -> (starts: bool)
        requires
            !old(self).backup_active,
        ensures
            starts == (action is Start),
            *final(self) == (EventLoop { backup_active: starts, ..*old(self) }),
    {
        match action {
            ScheduleAction::Start { .. } => {
                self.backup_active = true;
                true
            },
            ScheduleAction::Nothing => false,
        }
    }

    /// The worker of a backup could not be started.
    pub fn backup_start_failed(&mut self) -> (outcome: BackupOutcome)
        ensures
            *final(self) == (EventLoop { backup_active: false, ..*old(self) }),
            outcome.is_failure("executor_start_failed"@),
    {
        self.backup_active = false;
        BackupOutcome::failed("executor_start_failed")
    }

    /// The worker of an operation on the repository could not be started.
    pub fn repository_start_failed(&mut self) -> (code: &'static str)
        ensures
            *final(self) == (EventLoop { repository_active: false, ..*old(self) }),
            code@ == "executor_start_failed"@,
    {
        self.repository_active = false;
        "executor_start_failed"
    }

    /// The worker of an installation could not be started.
    pub fn update_start_failed() -> (outcome: UpdateInstallOutcome)
        ensures
            outcome matches UpdateInstallOutcome::Failed { code } && code@
                == "update_worker_start_failed"@,
    {
        UpdateInstallOutcome::Failed { code: "update_worker_start_failed" }
    }

    /// What an event comes to once the service stops: only the ends of what
    /// was cancelled still count.
    pub open spec fn drains(self, event: RuntimeEvent, action: LoopAction, after: EventLoop) -> bool {
        match event {
            RuntimeEvent::BackupFinished(outcome) => {
                &&& action == (LoopAction::FinishBackup { outcome })
                &&& after == (EventLoop { backup_active: false, ..self })
            },
            RuntimeEvent::RepositoryOperationFinished { operation, outcome } => {
                &&& action == (LoopAction::FinishRepository { operation, outcome })
                &&& after == (EventLoop { repository_active: false, ..self })
            },
            _ => action is Nothing && after == self,
        }
    }

    pub fn drain(&mut self, event: RuntimeEvent) -> (action: LoopAction)
        ensures
            old(self).drains(event, action, *final(self)),
    {
        match event {
            RuntimeEvent::BackupFinished(outcome) => {
                self.backup_active = false;
                LoopAction::FinishBackup { outcome }
            },
            RuntimeEvent::RepositoryOperationFinished { operation, outcome } => {
                self.repository_active = false;
                LoopAction::FinishRepository { operation, outcome }
            },
            _ => LoopAction::Nothing,
        }
    }

    /// How long the service still waits for what it cancelled, in nanoseconds; not
    /// at all once nothing runs or the deadline has passed.
    pub fn drain_time(&self, now: u64, deadline: u64) -> (left: Option<u64>)
        ensures
            left == (if self.idle() || now >= deadline {
                None
            } else {
                Some((deadline - now) as u64)
            }),
    {
        if (self.backup_active || self.repository_active) && now < deadline {
            Some(deadline - now)
        } else {
            None
        }
    }
}

/// An operation on the repository and an installation start only while nothing
/// else runs, and a stop starts nothing.
pub proof fn nothing_starts_beside_running_work(
    events: EventLoop,
    event: RuntimeEvent,
    action: LoopAction,
    after: EventLoop,
)
    requires
        events.reacts(event, action, after),
    ensures
        action is StartRepository || action is StartUpdate ==> events.idle(),
        events.drains(event, action, after) ==> !(action is StartRepository)
            && !(action is StartUpdate) && !(action is Evaluate),
{
}

/// What the service manager of Windows tells a service.
#[derive(Debug, Clone, Copy, PartialEq, Eq, Structural)]
pub enum ServiceControl {
    Interrogate,
    Stop,
    Shutdown,
    ResumeAutomatic,
    ResumeSuspend,
    ResumeCritical,
    PowerStatusChange,
    TimeChange,
    Other,
}

/// What the service answers to a control, and what the event loop is told.
pub struct ControlReply {
    pub implemented: bool,
    pub event: Option<RuntimeEvent>,
}

pub fn service_control(control: ServiceControl) -> (reply: ControlReply)
    ensures
        reply.implemented == !(control is Other),
        reply.event == (match control {
            ServiceControl::Stop | ServiceControl::Shutdown => Some(RuntimeEvent::Stop),
            ServiceControl::ResumeAutomatic
            | ServiceControl::ResumeSuspend
            | ServiceControl::ResumeCritical => Some(RuntimeEvent::Resume),
            ServiceControl::PowerStatusChange => Some(RuntimeEvent::PowerStatusChanged),
            ServiceControl::TimeChange => Some(RuntimeEvent::TimeChanged),
            _ => None,
        }),
{
    match control {
        ServiceControl::Interrogate => ControlReply { implemented: true, event: None },
        ServiceControl::Stop | ServiceControl::Shutdown => ControlReply {
            implemented: true,
            event: Some(RuntimeEvent::Stop),
        },
        ServiceControl::ResumeAutomatic
        | ServiceControl::ResumeSuspend
        | ServiceControl::ResumeCritical => ControlReply {
            implemented: true,
            event: Some(RuntimeEvent::Resume),
        },
        ServiceControl::PowerStatusChange => ControlReply {
            implemented: true,
            event: Some(RuntimeEvent::PowerStatusChanged),
        },
        ServiceControl::TimeChange => ControlReply {
            implemented: true,
            event: Some(RuntimeEvent::TimeChanged),
        },
        ServiceControl::Other => ControlReply { implemented: false, event: None },
    }
}

/// A stage of the process that the service manager is told of.
#[derive(Debug, Clone, Copy, PartialEq, Eq, Structural)]
pub enum ServicePhase {
    StartPending,
    Running,
    StopPending,
    Stopped,
}

/// What the service manager is told of a stage.
#[derive(Debug, Clone, Copy, PartialEq, Eq, Structural)]
pub struct PhaseReport {
    pub accepts_controls: bool,
    pub checkpoint: u32,
    pub wait_hint: u64,
}

/// Only a running service takes controls, and a pending one says how long it
/// may need.
pub fn phase_report(phase: ServicePhase) -> (report: PhaseReport)
    ensures
        report == (match phase {
            ServicePhase::StartPending => PhaseReport {
                accepts_controls: false,
                checkpoint: 1,
                wait_hint: 45,
            },
            ServicePhase::Running => PhaseReport {
                accepts_controls: true,
                checkpoint: 0,
                wait_hint: 0,
            },
            ServicePhase::StopPending => PhaseReport {
                accepts_controls: false,
                checkpoint: 1,
                wait_hint: SHUTDOWN_DRAIN_TIMEOUT,
            },
            ServicePhase::Stopped => PhaseReport {
                accepts_controls: false,
                checkpoint: 0,
                wait_hint: 0,
            },
        }),
{
    match phase {
        ServicePhase::StartPending => PhaseReport {
            accepts_controls: false,
            checkpoint: 1,
            wait_hint: 45,
        },
        ServicePhase::Running => PhaseReport {
            accepts_controls: true,
            checkpoint: 0,
            wait_hint: 0,
        },
        ServicePhase::StopPending => PhaseReport {
            accepts_controls: false,
            checkpoint: 1,
            wait_hint: SHUTDOWN_DRAIN_TIMEOUT,
        },
        ServicePhase::Stopped => PhaseReport {
            accepts_controls: false,
            checkpoint: 0,
            wait_hint: 0,
        },
    }
}

/// Where the data of the service is, given where the machine keeps such data.
pub open spec fn data_root(program_data: Option<Seq<char>>) -> Seq<char> {
    match program_data {
        Some(path) => paths::below(path, "ResticPal"@),
        None => paths::below("C:\\ProgramData"@, "ResticPal"@),
    }
}

pub fn program_data_root(program_data: Option<String>) -> (root: String)
    ensures
        root@ == data_root(chars_of(program_data)),
{
    match program_data {
        Some(path) => paths::join(path.as_str(), "ResticPal"),
        None => paths::join("C:\\ProgramData", "ResticPal"),
    }
}

pub fn default_config_path(root: &str) -> (path: String)
    ensures
        path@ == paths::below(root@, "config.toml"@),
{
    paths::join(root, "config.toml")
}

pub fn credential_store_path(root: &str) -> (path: String)
    ensures
        path@ == paths::below(root@, "Credentials"@),
{
    paths::join(root, "Credentials")
}

/// The argument after the first `--config` that has one.
pub open spec fn named_config(arguments: Seq<Seq<char>>) -> Option<Seq<char>>
    decreases arguments.len(),
{
    if arguments.len() < 2 {
        None
    } else if arguments[0] == "--config"@ {
        Some(arguments[1])
    } else {
        named_config(arguments.drop_first())
    }
}

/// The configuration file that the arguments name, or else the usual one.
pub fn config_path(arguments: &Vec<String>, root: &str) -> (path: String)
    ensures
        path@ == (match named_config(texts_of(arguments@)) {
            Some(path) => path,
            None => paths::below(root@, "config.toml"@),
        }),
{
    let mut i: usize = 0;
    proof {
        assert(texts_of(arguments@).skip(0) == texts_of(arguments@));
    }
    while i < arguments.len()
        invariant
            i <= arguments@.len(),
            named_config(texts_of(arguments@)) == named_config(texts_of(arguments@).skip(i as int)),
        decreases arguments@.len() - i,
    {
        let ghost rest = texts_of(arguments@).skip(i as int);
        proof {
            assert(rest.len() == arguments@.len() - i);
            assert(rest[0] == arguments@[i as int]@);
            assert(rest.drop_first() == texts_of(arguments@).skip(i + 1));
            if rest.len() >= 2 {
                assert(rest[1] == arguments@[i + 1]@);
            }
        }
        if arguments.len() - i >= 2 && text::same_text(arguments[i].as_str(), "--config") {
            return arguments[i + 1].clone();
        }
        i = i + 1;
    }
    default_config_path(root)
}

/// Whether the arguments ask for a trial on the console.
pub fn wants_console(arguments: &Vec<String>) -> (console: bool)
    ensures
        console == texts_of(arguments@).contains("--console"@),
{
    let wanted = "--console".to_owned();
    crate::outcome::holds_text(arguments, &wanted)
}

/// Where restic is: beside the service.
pub fn restic_path(executable: Option<String>) -> (path: String)
    ensures
        path@ == (match executable {
            Some(executable) => paths::beside(executable@, "restic.exe"@),
            None => "restic.exe"@,
        }),
{
    match executable {
        Some(executable) => paths::with_file_name(executable.as_str(), "restic.exe"),
        None => "restic.exe".to_owned(),
    }
}

/// The largest value of the registry that is read, in bytes.
pub const MAX_STAGED_URL_BYTES: u32 = 65_536;

/// Whether the registry can hold an address of so many bytes.
pub fn valid_registry_size(byte_count: u32) -> (valid: Result<(), &'static str>)
    ensures
        valid is Ok == (2 <= byte_count <= MAX_STAGED_URL_BYTES && byte_count % 2 == 0),
        valid is Err ==> valid->Err_0@ == "staged bootstrap URL has an invalid registry size"@,
{
    if byte_count < 2 || byte_count > MAX_STAGED_URL_BYTES || byte_count % 2 != 0 {
        return Err("staged bootstrap URL has an invalid registry size");
    }
    Ok(())
}

/// `String::from_utf16`: the text whose UTF-16 the units are, where there is
/// one; units that are the UTF-16 of no text are refused.
#[verifier::external_body]
fn from_utf16(units: &[u16]) -> (decoded: Option<String>)
    ensures
        match decoded {
            Some(decoded) => text::utf16_units(decoded@) == units@,
            None => forall|chars: Seq<char>| #[trigger] text::utf16_units(chars) != units@,
        },
{
    String::from_utf16(units).ok()
}

/// The units before the first that is zero.
pub open spec fn before_zero(units: Seq<u16>) -> Seq<u16>
    decreases units.len(),
{
    if units.len() == 0 || units[0] == 0 {
        Seq::empty()
    } else {
        seq![units[0]] + before_zero(units.drop_first())
    }
}

proof fn lemma_before_zero(units: Seq<u16>, length: int)
    requires
        0 <= length <= units.len(),
        forall|i: int| 0 <= i < length ==> #[trigger] units[i] != 0,
        length < units.len() ==> units[length] == 0,
    ensures
        before_zero(units) == units.take(length),
    decreases length,
{
    if length > 0 {
        assert(units[0] != 0);
        let rest = units.drop_first();
        assert forall|i: int| 0 <= i < length - 1 implies #[trigger] rest[i] != 0 by {
            assert(rest[i] == units[i + 1]);
        }
        lemma_before_zero(rest, length - 1);
        assert(seq![units[0]] + rest.take(length - 1) =~= units.take(length));
    } else {
        assert(units.take(0) == Seq::<u16>::empty());
    }
}

/// The one-time address in a decoded value of the registry; an empty value is
/// none.
pub fn staged_value(decoded: Option<String>) -> (staged: Result<Option<String>, &'static str>)
    ensures
        match decoded {
            None => staged is Err && staged->Err_0@ == "bootstrap URL is not UTF-16"@,
            Some(value) => staged == Ok::<Option<String>, &'static str>(
                if value@.len() == 0 {
                    None
                } else {
                    Some(value)
                },
            ),
        },
{
    match decoded {
        None => Err("bootstrap URL is not UTF-16"),
        Some(value) => {
            let chars = text::characters(value.as_str());
            if chars.len() == 0 {
                Ok(None)
            } else {
                Ok(Some(value))
            }
        },
    }
}

/// The one-time address that the installer left in the registry.
pub fn staged_bootstrap_url(units: &Vec<u16>) -> (staged: Result<Option<String>, &'static str>)
    ensures
        match staged {
            Ok(Some(address)) => address@.len() > 0 && text::utf16_units(address@) == before_zero(
                units@,
            ),
            Ok(None) => before_zero(units@).len() == 0,
            Err(reason) => {
                &&& reason@ == "bootstrap URL is not UTF-16"@
                &&& forall|chars: Seq<char>| #[trigger]
                    text::utf16_units(chars) != before_zero(units@)
            },
        },
{
    let mut length: usize = 0;
    let mut value: Vec<u16> = Vec::new();
    while length < units.len() && units[length] != 0
        invariant
            length <= units@.len(),
            value@ == units@.take(length as int),
            forall|i: int| 0 <= i < length ==> #[trigger] units@[i] != 0,
        decreases units@.len() - length,
    {
        value.push(units[length]);
        length = length + 1;
    }
    proof {
        lemma_before_zero(units@, length as int);
    }
    staged_value(from_utf16(value.as_slice()))
}

} // verus!

//! What changes when backups, retention, repository operations and updates end.
use super::events::{RetentionPlan, UpdateInstallOutcome};
use super::state::{configured_state, Diagnostic, RuntimeState, ServiceRuntime, ServiceStateSnapshot};
use super::state::apply_configuration_status;
use crate::config::chars_of;
use crate::diagnostics::DiagnosticLevel;
use crate::history::CompletedBackupRun;
use crate::outcome::{
    BackupOutcome, BackupOutcomeKind, RepositoryOutcome, RepositoryOutcomeKind, RetentionOutcome,
    RetentionOutcomeKind,
};
use crate::protocol::{RepositoryOperationKind, RepositoryOperationStatus};
use crate::status::{
    copy_text, BackupPhase, BackupProgress, BackupRunOutcome, BackupState, RepositoryMode,
    ServiceStatus,
};
use crate::time::{
    completion_deadline, deadline_after, move_or, representable, NANOSECONDS_PER_SECOND,
    SECONDS_PER_DAY, SECONDS_PER_MINUTE,
};
use vstd::prelude::*;

verus! {

/// The wait before the first repetition of a failed backup, in minutes.
pub const INITIAL_FAILURE_RETRY_MINUTES: i64 = 5;

/// How often the wait doubles at most.
pub const MAX_FAILURE_BACKOFF_EXPONENT: u32 = 6;

/// Two to the power of `exponent`.
pub open spec fn doubled(exponent: nat) -> int
    decreases exponent,
{
    if exponent == 0 {
        1
    } else {
        2 * doubled((exponent - 1) as nat)
    }
}

/// How often the wait has doubled after so many failures in a row.
pub open spec fn backoff_exponent(failures: u32) -> nat {
    if failures == 0 {
        0
    } else if failures - 1 > MAX_FAILURE_BACKOFF_EXPONENT {
        MAX_FAILURE_BACKOFF_EXPONENT as nat
    } else {
        (failures - 1) as nat
    }
}

/// The minutes after which a backup is repeated.
pub open spec fn retry_minutes(failures: u32) -> int {
    INITIAL_FAILURE_RETRY_MINUTES * doubled(backoff_exponent(failures))
}

proof fn lemma_doubled(exponent: nat)
    requires
        exponent <= 6,
    ensures
        1 <= doubled(exponent) <= 64,
    decreases exponent,
{
    reveal_with_fuel(doubled, 7);
}

/// The wait lies between five minutes and five hours and twenty minutes,
/// however often a backup has failed.
pub proof fn the_wait_is_bounded(failures: u32)
    ensures
        5 <= retry_minutes(failures) <= 320,
{
    lemma_doubled(backoff_exponent(failures));
}

/// Each of the first failures doubles the wait, and later ones keep it.
pub proof fn the_wait_doubles(failures: u32)
    requires
        1 <= failures < u32::MAX,
    ensures
        failures <= 6 ==> retry_minutes((failures + 1) as u32) == 2 * retry_minutes(failures),
        failures > 6 ==> retry_minutes((failures + 1) as u32) == retry_minutes(failures),
{
    if failures <= 6 {
        let next = backoff_exponent((failures + 1) as u32);
        assert(next == backoff_exponent(failures) + 1);
        assert(doubled(next) == 2 * doubled((next - 1) as nat));
        let before = doubled(backoff_exponent(failures));
        assert(INITIAL_FAILURE_RETRY_MINUTES * (2 * before) == 2 * (INITIAL_FAILURE_RETRY_MINUTES
            * before)) by (nonlinear_arith);
    }
}

fn failure_retry_minutes(failures: u32) -> (minutes: i64)
    ensures
        minutes == retry_minutes(failures),
        5 <= minutes <= 320,
{
    let exponent: u32 = if failures == 0 {
        0
    } else if failures - 1 > MAX_FAILURE_BACKOFF_EXPONENT {
        MAX_FAILURE_BACKOFF_EXPONENT
    } else {
        failures - 1
    };
    let mut factor: i64 = 1;
    let mut i: u32 = 0;
    while i < exponent
        invariant
            i <= exponent <= 6,
            factor == doubled(i as nat),
            1 <= factor <= 64,
        decreases exponent - i,
    {
        i = i + 1;
        proof {
            lemma_doubled(i as nat);
        }
        factor = 2 * factor;
    }
    proof {
        the_wait_is_bounded(failures);
    }
    INITIAL_FAILURE_RETRY_MINUTES * factor
}

/// The state of the backup once it ended so.
pub open spec fn ended_as(kind: BackupOutcomeKind) -> BackupState {
    match kind {
        BackupOutcomeKind::Succeeded => BackupState::Succeeded,
        BackupOutcomeKind::SucceededWithWarnings => BackupState::SucceededWithWarnings,
        BackupOutcomeKind::Failed { code } => BackupState::Failed { code },
        BackupOutcomeKind::Cancelled => BackupState::Cancelled,
    }
}

/// The failures in a row once a backup ended so.
pub open spec fn failures_after(failures: u32, kind: BackupOutcomeKind) -> u32 {
    match kind {
        BackupOutcomeKind::Succeeded | BackupOutcomeKind::SucceededWithWarnings => 0,
        BackupOutcomeKind::Failed { .. } => if failures == u32::MAX {
            u32::MAX
        } else {
            (failures + 1) as u32
        },
        BackupOutcomeKind::Cancelled => failures,
    }
}

/// When a backup that ended without a snapshot is tried again.
pub open spec fn retry_at(now: i128, failures: u32) -> i128 {
    (now + retry_minutes(failures) * SECONDS_PER_MINUTE * NANOSECONDS_PER_SECOND) as i128
}

/// The state once a backup ended.
pub open spec fn after_backup(
    state: RuntimeState,
    now: i128,
    outcome: BackupOutcome,
    interval_hours: u32,
) -> RuntimeState {
    let failures = failures_after(state.consecutive_failures, outcome.kind);
    let succeeded = outcome.made_a_snapshot();
    RuntimeState {
        status: ServiceStatus {
            state: ended_as(outcome.kind),
            state_since: now,
            progress: None,
            last_success: if succeeded {
                Some(now)
            } else {
                state.status.last_success
            },
            next_deadline: Some(
                if succeeded {
                    deadline_after(Some(now), now, interval_hours)
                } else {
                    retry_at(now, failures)
                },
            ),
            ..state.status
        },
        service_state: if succeeded {
            ServiceStateSnapshot { last_success: Some(now), ..state.service_state }
        } else {
            state.service_state
        },
        not_before: if succeeded {
            None
        } else {
            Some(retry_at(now, failures))
        },
        consecutive_failures: failures,
        resumed_at: None,
        ..state
    }
}

/// `run` is what the history keeps of a backup.
pub open spec fn is_history_of(
    run: CompletedBackupRun,
    started_at: i128,
    now: i128,
    outcome: BackupOutcome,
) -> bool {
    &&& run.started_at == started_at
    &&& run.completed_at == now
    &&& run.outcome == (match outcome.kind {
        BackupOutcomeKind::Succeeded => BackupRunOutcome::Succeeded,
        BackupOutcomeKind::SucceededWithWarnings => BackupRunOutcome::SucceededWithWarnings,
        BackupOutcomeKind::Failed { .. } => BackupRunOutcome::Failed,
        BackupOutcomeKind::Cancelled => BackupRunOutcome::Cancelled,
    })
    &&& run.error_code == (match outcome.kind {
        BackupOutcomeKind::SucceededWithWarnings => outcome.warning_code,
        BackupOutcomeKind::Failed { code } => Some(code),
        _ => None,
    })
    &&& match outcome.summary {
        Some(summary) => {
            &&& run.files_processed == Some(summary.files_processed)
            &&& run.bytes_processed == Some(summary.bytes_processed)
            &&& run.data_added == Some(summary.data_added)
            &&& run.snapshot_id == summary.snapshot_id
        },
        None => {
            &&& run.files_processed is None
            &&& run.bytes_processed is None
            &&& run.data_added is None
            &&& run.snapshot_id is None
        },
    }
    &&& crate::config::texts_of(run.failed_items@) == outcome.failure_details@.items
    &&& run.failed_items_omitted == outcome.failure_details@.omitted
}

/// `diagnostic` is what the log says of a backup.
pub open spec fn reports_backup_end(diagnostic: Diagnostic, outcome: BackupOutcome) -> bool {
    match outcome.kind {
        BackupOutcomeKind::Succeeded => diagnostic.reads(
            DiagnosticLevel::Information,
            "backup.succeeded"@,
            "Backup completed successfully."@,
            None,
        ),
        BackupOutcomeKind::SucceededWithWarnings => diagnostic.reads(
            DiagnosticLevel::Warning,
            "backup.warning"@,
            "Backup completed with warnings."@,
            chars_of(outcome.warning_code),
        ),
        BackupOutcomeKind::Failed { code } => diagnostic.reads(
            DiagnosticLevel::Error,
            "backup.failed"@,
            "Backup failed."@,
            Some(code@),
        ),
        BackupOutcomeKind::Cancelled => diagnostic.reads(
            DiagnosticLevel::Information,
            "backup.cancelled"@,
            "Backup was cancelled."@,
            None,
        ),
    }
}

/// What is left to do once a backup ended.
pub struct FinishedBackup {
    /// What goes to the history, where the service keeps one.
    pub run: Option<CompletedBackupRun>,
    /// Whether the state of the service has to be saved.
    pub save_state: bool,
    pub diagnostic: Diagnostic,
}

fn diagnose_backup(outcome: &BackupOutcome) -> (diagnostic: Diagnostic)
    ensures
        reports_backup_end(diagnostic, *outcome),
{
    match &outcome.kind {
        BackupOutcomeKind::Succeeded => Diagnostic {
            level: DiagnosticLevel::Information,
            event_id: "backup.succeeded",
            message: "Backup completed successfully.",
            code: None,
        },
        BackupOutcomeKind::SucceededWithWarnings => Diagnostic {
            level: DiagnosticLevel::Warning,
            event_id: "backup.warning",
            message: "Backup completed with warnings.",
            code: copy_text(&outcome.warning_code),
        },
        BackupOutcomeKind::Failed { code } => Diagnostic {
            level: DiagnosticLevel::Error,
            event_id: "backup.failed",
            message: "Backup failed.",
            code: Some(code.clone()),
        },
        BackupOutcomeKind::Cancelled => Diagnostic {
            level: DiagnosticLevel::Information,
            event_id: "backup.cancelled",
            message: "Backup was cancelled.",
            code: None,
        },
    }
}

fn history_of(started_at: i128, now: i128, outcome: &BackupOutcome) -> (run: CompletedBackupRun)
    ensures
        is_history_of(run, started_at, now, *outcome),
{
    let (run_outcome, error_code) = match &outcome.kind {
        BackupOutcomeKind::Succeeded => (BackupRunOutcome::Succeeded, None),
        BackupOutcomeKind::SucceededWithWarnings => (
            BackupRunOutcome::SucceededWithWarnings,
            copy_text(&outcome.warning_code),
        ),
        BackupOutcomeKind::Failed { code } => (BackupRunOutcome::Failed, Some(code.clone())),
        BackupOutcomeKind::Cancelled => (BackupRunOutcome::Cancelled, None),
    };
    let (files_processed, bytes_processed, data_added, snapshot_id) = match &outcome.summary {
        Some(summary) => (
            Some(summary.files_processed),
            Some(summary.bytes_processed),
            Some(summary.data_added),
            copy_text(&summary.snapshot_id),
        ),
        None => (None, None, None, None),
    };
    CompletedBackupRun {
        started_at,
        completed_at: now,
        outcome: run_outcome,
        error_code,
        files_processed,
        bytes_processed,
        data_added,
        snapshot_id,
        failed_items: crate::config::copy_texts(outcome.failure_details.items()),
        failed_items_omitted: outcome.failure_details.omitted(),
    }
}

/// What the connection is known as once an operation on the repository ended.
pub open spec fn operation_ended(
    status: RepositoryOperationStatus,
    operation: RepositoryOperationKind,
    completed_at: i128,
    outcome: RepositoryOutcome,
    saved: bool,
) -> bool {
    let failed = |code: Seq<char>|
        {
            &&& status is Failed
            &&& status->Failed_operation == operation
            &&& status->Failed_completed_at == completed_at
            &&& status->code@ == code
        };
    match outcome.kind {
        RepositoryOutcomeKind::Succeeded => if saved {
            status == (RepositoryOperationStatus::Succeeded { operation, completed_at })
        } else {
            failed("state_save_failed"@)
        },
        RepositoryOutcomeKind::Failed { code } => failed(code@),
        RepositoryOutcomeKind::Cancelled => failed("repository_operation_cancelled"@),
    }
}

/// `diagnostic` is what the log says of an operation on the repository.
pub open spec fn reports_operation_end(diagnostic: Diagnostic, outcome: RepositoryOutcome) -> bool {
    match outcome.kind {
        RepositoryOutcomeKind::Succeeded => diagnostic.reads(
            DiagnosticLevel::Information,
            "repository.operation_succeeded"@,
            "Repository operation completed successfully."@,
            None,
        ),
        RepositoryOutcomeKind::Failed { code } => diagnostic.reads(
            DiagnosticLevel::Error,
            "repository.operation_failed"@,
            "Repository operation failed."@,
            Some(code@),
        ),
        RepositoryOutcomeKind::Cancelled => diagnostic.reads(
            DiagnosticLevel::Information,
            "repository.operation_cancelled"@,
            "Repository operation was cancelled."@,
            None,
        ),
    }
}

/// The error that the retention leaves behind.
pub open spec fn retention_error(retention: RetentionOutcome) -> Option<Seq<char>> {
    match retention.kind {
        RetentionOutcomeKind::Succeeded { .. } => None,
        RetentionOutcomeKind::Failed { code } => Some(code@),
        RetentionOutcomeKind::Cancelled => Some("retention_cancelled"@),
    }
}

/// Whether it is time to prune: never pruned, or longer ago than the interval.
pub open spec fn prune_is_due(last_prune: Option<i128>, now: i128, interval_days: u32) -> bool {
    last_prune is None || now - last_prune->0 >= interval_days * SECONDS_PER_DAY
        * NANOSECONDS_PER_SECOND
}

/// The state once an installation failed: the hold is over and the earlier
/// status is back.
pub open spec fn released(state: RuntimeState, now: i128) -> RuntimeState {
    RuntimeState {
        update_install_active: false,
        update_hold_until: None,
        update_hold_previous_status: None,
        status: match state.update_hold_previous_status {
            Some(previous) => ServiceStatus {
                state: previous.state,
                state_since: now,
                next_deadline: previous.next_deadline,
                ..state.status
            },
            None => state.status,
        },
        ..state
    }
}

/// The state once the installation of an update ended. After a completed one
/// the hold stays until the installer stops the service, and an installer that
/// may still run keeps it for good.
pub open spec fn after_install(
    state: RuntimeState,
    outcome: UpdateInstallOutcome,
    now: i128,
) -> RuntimeState {
    match outcome {
        UpdateInstallOutcome::Completed { .. } => RuntimeState {
            update_install_active: false,
            ..state
        },
        UpdateInstallOutcome::Failed { .. } => released(state, now),
        UpdateInstallOutcome::Indeterminate { .. } => RuntimeState {
            update_install_active: true,
            ..state
        },
    }
}

/// Ends the hold of an update and gives the earlier status back.
pub(crate) fn release_hold(state: &mut RuntimeState, now: i128)
    ensures
        *final(state) == released(*old(state), now),
{
    state.update_install_active = false;
    state.update_hold_until = None;
    match state.update_hold_previous_status.take() {
        Some(previous) => {
            state.status.state = previous.state;
            state.status.state_since = now;
            state.status.next_deadline = previous.next_deadline;
        },
        None => {},
    }
}

impl ServiceRuntime {
    pub fn finish_update_install(&mut self, outcome: &UpdateInstallOutcome, now: i128) -> (diagnostic:
        Diagnostic)
        ensures
            final(self).only_state_changed(*old(self)),
            final(self).state == after_install(old(self).state, *outcome, now),
            match outcome {
                UpdateInstallOutcome::Completed { .. } => diagnostic.reads(
                    DiagnosticLevel::Information,
                    "update.installer_completed"@,
                    "The signed resticpal update installer completed."@,
                    None,
                ),
                UpdateInstallOutcome::Failed { code } => diagnostic.reads(
                    DiagnosticLevel::Error,
                    "update.failed"@,
                    "The signed resticpal update could not be installed."@,
                    Some(code@),
                ),
                UpdateInstallOutcome::Indeterminate { code } => diagnostic.reads(
                    DiagnosticLevel::Error,
                    "update.installer_indeterminate"@,
                    "The update installer could not be confirmed stopped; backups remain paused."@,
                    Some(code@),
                ),
            },
    {
        match outcome {
            UpdateInstallOutcome::Completed { .. } => {
                self.state.update_install_active = false;
                Diagnostic {
                    level: DiagnosticLevel::Information,
                    event_id: "update.installer_completed",
                    message: "The signed resticpal update installer completed.",
                    code: None,
                }
            },
            UpdateInstallOutcome::Failed { code } => {
                release_hold(&mut self.state, now);
                Diagnostic {
                    level: DiagnosticLevel::Error,
                    event_id: "update.failed",
                    message: "The signed resticpal update could not be installed.",
                    code: Some((*code).to_owned()),
                }
            },
            UpdateInstallOutcome::Indeterminate { code } => {
                self.state.update_install_active = true;
                Diagnostic {
                    level: DiagnosticLevel::Error,
                    event_id: "update.installer_indeterminate",
                    message: "The update installer could not be confirmed stopped; backups remain paused.",
                    code: Some((*code).to_owned()),
                }
            },
        }
    }

    /// Takes in the progress of a running backup; at any other time it is stale.
    pub fn update_progress(&mut self, progress: BackupProgress)
        ensures
            final(self).only_state_changed(*old(self)),
            final(self).state == (if old(self).state.status.state is Running {
                RuntimeState {
                    status: ServiceStatus {
                        state: BackupState::Running { phase: BackupPhase::Uploading },
                        progress: Some(progress),
                        ..old(self).state.status
                    },
                    ..old(self).state
                }
            } else {
                old(self).state
            }),
    {
        if self.state.status.state.is_running() {
            self.state.status.state = BackupState::Running { phase: BackupPhase::Uploading };
            self.state.status.progress = Some(progress);
        }
    }

    /// Starts the retention, which an append-only repository does not have.
    pub fn begin_retention(&mut self, now: i128) -> (plan: Option<RetentionPlan>)
        ensures
            final(self).only_state_changed(*old(self)),
            old(self).config.repository.mode is AppendOnly ==> plan is None && final(self).state
                == old(self).state,
            old(self).config.repository.mode is Standard ==> {
                &&& plan == Some(
                    RetentionPlan {
                        prune_due: prune_is_due(
                            old(self).state.service_state.last_prune,
                            now,
                            old(self).config.retention.prune_interval_days,
                        ),
                    },
                )
                &&& final(self).state == (RuntimeState {
                    status: ServiceStatus {
                        state: BackupState::Running { phase: BackupPhase::Retention },
                        state_since: now,
                        progress: None,
                        ..old(self).state.status
                    },
                    ..old(self).state
                })
            },
            plan is Some <==> old(self).config.repository.mode is Standard,
            plan is Some ==> match old(self).state.service_state.last_prune {
                None => plan->0.prune_due,
                Some(last_prune) => plan->0.prune_due <==> now >= last_prune
                    + old(self).config.retention.prune_interval_days * 86_400_000_000_000,
            },
    {
        if self.config.repository.mode != RepositoryMode::Standard {
            return None;
        }
        let seconds: i64 = (self.config.retention.prune_interval_days as i64) * SECONDS_PER_DAY;
        let interval: i128 = (seconds as i128) * NANOSECONDS_PER_SECOND;
        self.state.status.state = BackupState::Running { phase: BackupPhase::Retention };
        self.state.status.state_since = now;
        self.state.status.progress = None;
        let prune_due = match self.state.service_state.last_prune {
            Some(last_prune) => match now.checked_sub(last_prune) {
                Some(passed) => passed >= interval,
                None => now > last_prune,
            },
            None => true,
        };
        Some(RetentionPlan { prune_due })
    }

    /// What the log says when the retention starts.
    pub fn retention_started() -> (diagnostic: Diagnostic)
        ensures
            diagnostic.reads(
                DiagnosticLevel::Information,
                "retention.started"@,
                "Snapshot retention started."@,
                None,
            ),
    {
        Diagnostic {
            level: DiagnosticLevel::Information,
            event_id: "retention.started",
            message: "Snapshot retention started.",
            code: None,
        }
    }

    /// Remembers what the retention did; the state of the service has to be
    /// saved after it.
    pub fn record_retention(&mut self, retention: &RetentionOutcome, now: i128)
        ensures
            final(self).only_state_changed(*old(self)),
            ({
                let before = old(self).state.service_state;
                let after = final(self).state.service_state;
                &&& final(self).state == (RuntimeState { service_state: after, ..old(self).state })
                &&& chars_of(after.last_retention_error) == retention_error(*retention)
                &&& after == (ServiceStateSnapshot {
                    last_retention_error: after.last_retention_error,
                    last_retention: if retention.kind is Succeeded {
                        Some(now)
                    } else {
                        before.last_retention
                    },
                    last_prune: if retention.kind == (RetentionOutcomeKind::Succeeded {
                        pruned: true,
                    }) {
                        Some(now)
                    } else {
                        before.last_prune
                    },
                    ..before
                })
            }),
    {
        match &retention.kind {
            RetentionOutcomeKind::Succeeded { pruned } => {
                self.state.service_state.last_retention = Some(now);
                if *pruned {
                    self.state.service_state.last_prune = Some(now);
                }
                self.state.service_state.last_retention_error = None;
            },
            RetentionOutcomeKind::Failed { code } => {
                self.state.service_state.last_retention_error = Some(code.clone());
            },
            RetentionOutcomeKind::Cancelled => {
                self.state.service_state.last_retention_error = Some(
                    "retention_cancelled".to_owned(),
                );
            },
        }
    }

    /// The backup once its retention ended. What went wrong after the snapshot
    /// was made is a warning of the backup.
    pub fn finish_retention(
        backup: BackupOutcome,
        retention: &RetentionOutcome,
        state_saved: bool,
    ) -> (finished: (BackupOutcome, Diagnostic))
        ensures
            match retention_error(*retention) {
                Some(code) => {
                    &&& finished.0.warns(backup, code)
                    &&& finished.1.reads(
                        DiagnosticLevel::Warning,
                        "retention.failed"@,
                        "Snapshot retention did not complete."@,
                        Some(code),
                    )
                },
                None => if state_saved {
                    &&& finished.0 == backup
                    &&& finished.1.reads(
                        DiagnosticLevel::Information,
                        "retention.succeeded"@,
                        "Snapshot retention completed successfully."@,
                        None,
                    )
                } else {
                    &&& finished.0.warns(backup, "retention_state_save_failed"@)
                    &&& finished.1.reads(
                        DiagnosticLevel::Warning,
                        "retention.state_save_failed"@,
                        "Retention completed but its state could not be saved."@,
                        Some("retention_state_save_failed"@),
                    )
                },
            },
    {
        let warning = match &retention.kind {
            RetentionOutcomeKind::Succeeded { .. } => None,
            RetentionOutcomeKind::Failed { code } => Some(code.clone()),
            RetentionOutcomeKind::Cancelled => Some("retention_cancelled".to_owned()),
        };
        match warning {
            Some(code) => (
                backup.with_warning(code.as_str()),
                Diagnostic {
                    level: DiagnosticLevel::Warning,
                    event_id: "retention.failed",
                    message: "Snapshot retention did not complete.",
                    code: Some(code),
                },
            ),
            None => if state_saved {
                (
                    backup,
                    Diagnostic {
                        level: DiagnosticLevel::Information,
                        event_id: "retention.succeeded",
                        message: "Snapshot retention completed successfully.",
                        code: None,
                    },
                )
            } else {
                (
                    backup.with_warning("retention_state_save_failed"),
                    Diagnostic {
                        level: DiagnosticLevel::Warning,
                        event_id: "retention.state_save_failed",
                        message: "Retention completed but its state could not be saved.",
                        code: Some("retention_state_save_failed".to_owned()),
                    },
                )
            },
        }
    }

    /// Ends a backup. The times of the next attempt have to lie in the calendar.
    pub fn finish_backup_at(&mut self, now: i128, outcome: &BackupOutcome) -> (finished: FinishedBackup)
        requires
            representable(now as int),
            !outcome.made_a_snapshot() ==> representable(
                now + retry_minutes(
                    failures_after(old(self).state.consecutive_failures, outcome.kind),
                ) * SECONDS_PER_MINUTE * NANOSECONDS_PER_SECOND,
            ),
        ensures
            final(self).only_state_changed(*old(self)),
            final(self).state == after_backup(
                old(self).state,
                now,
                *outcome,
                old(self).config.schedule.interval_hours,
            ),
            finished.run is Some == old(self).stores.history is Some,
            finished.run is Some ==> is_history_of(
                finished.run->0,
                match old(self).state.status.last_attempt {
                    Some(attempt) => attempt,
                    None => now,
                },
                now,
                *outcome,
            ),
            finished.run is Some && outcome.summary is Some ==> {
                &&& finished.run->0.files_processed == Some(outcome.summary->0.files_processed)
                &&& finished.run->0.bytes_processed == Some(outcome.summary->0.bytes_processed)
                &&& finished.run->0.data_added == Some(outcome.summary->0.data_added)
                &&& finished.run->0.snapshot_id == outcome.summary->0.snapshot_id
            },
            finished.run is Some ==> {
                &&& finished.run->0.completed_at == now
                &&& finished.run->0.outcome is Succeeded <==> outcome.kind is Succeeded
                &&& finished.run->0.outcome is SucceededWithWarnings <==> outcome.kind
                    is SucceededWithWarnings
                &&& finished.run->0.outcome is Failed <==> outcome.kind is Failed
                &&& finished.run->0.outcome is Cancelled <==> outcome.kind is Cancelled
            },
            finished.save_state == (outcome.made_a_snapshot() && old(self).stores.state is Some),
            reports_backup_end(finished.diagnostic, *outcome),
    {
        let started_at = match self.state.status.last_attempt {
            Some(attempt) => attempt,
            None => now,
        };
        let succeeded = match &outcome.kind {
            BackupOutcomeKind::Succeeded | BackupOutcomeKind::SucceededWithWarnings => true,
            _ => false,
        };
        self.state.status.state = match &outcome.kind {
            BackupOutcomeKind::Succeeded => BackupState::Succeeded,
            BackupOutcomeKind::SucceededWithWarnings => BackupState::SucceededWithWarnings,
            BackupOutcomeKind::Failed { code } => BackupState::Failed { code: code.clone() },
            BackupOutcomeKind::Cancelled => BackupState::Cancelled,
        };
        if succeeded {
            self.state.status.last_success = Some(now);
            self.state.service_state.last_success = Some(now);
            self.state.status.next_deadline = Some(
                completion_deadline(Some(now), now, self.config.schedule.interval_hours),
            );
            self.state.not_before = None;
            self.state.consecutive_failures = 0;
        } else {
            let failed = match &outcome.kind {
                BackupOutcomeKind::Failed { .. } => true,
                _ => false,
            };
            if failed {
                self.state.consecutive_failures = self.state.consecutive_failures.saturating_add(1);
            }
            let minutes = failure_retry_minutes(self.state.consecutive_failures);
            let retry = move_or(now, minutes * SECONDS_PER_MINUTE, now);
            self.state.not_before = Some(retry);
            self.state.status.next_deadline = Some(retry);
        }
        self.state.resumed_at = None;
        self.state.status.state_since = now;
        self.state.status.progress = None;
        FinishedBackup {
            run: if self.stores.history.is_some() {
                Some(history_of(started_at, now, outcome))
            } else {
                None
            },
            save_state: succeeded && self.stores.state.is_some(),
            diagnostic: diagnose_backup(outcome),
        }
    }

    /// Whether the operation is the one that runs.
    pub open spec fn runs_operation(self, operation: RepositoryOperationKind) -> bool {
        self.state.repository_operation == (RepositoryOperationStatus::Running { operation })
    }

    fn is_running_operation(&self, operation: RepositoryOperationKind) -> (yes: bool)
        ensures
            yes == self.runs_operation(operation),
    {
        match &self.state.repository_operation {
            RepositoryOperationStatus::Running { operation: running } => *running == operation,
            _ => false,
        }
    }

    /// Remembers that the connection works, where the running operation showed
    /// it. Says whether the state of the service has to be saved now.
    pub fn verify_repository(
        &mut self,
        operation: RepositoryOperationKind,
        outcome: &RepositoryOutcome,
        completed_at: i128,
    ) -> (save: bool)
        ensures
            final(self).only_state_changed(*old(self)),
            save == (old(self).runs_operation(operation) && outcome.kind is Succeeded && old(
                self,
            ).stores.state is Some),
            final(self).state == (RuntimeState {
                service_state: final(self).state.service_state,
                ..old(self).state
            }),
            if old(self).runs_operation(operation) && outcome.kind is Succeeded {
                let before = old(self).state.service_state;
                let after = final(self).state.service_state;
                &&& after == (ServiceStateSnapshot {
                    verified_repository: after.verified_repository,
                    ..before
                })
                &&& old(self).config@.url is Some ==> after.verifies(old(self).config@)
                    && after.verified_repository->0.verified_at == completed_at
                &&& old(self).config@.url is None ==> after.verified_repository is None
            } else {
                final(self).state == old(self).state
            },
    {
        if !self.is_running_operation(operation) {
            return false;
        }
        match &outcome.kind {
            RepositoryOutcomeKind::Succeeded => {
                self.state.service_state.mark_repository_verified(&self.config, completed_at);
                self.stores.state.is_some()
            },
            _ => false,
        }
    }

    /// Ends an operation on the repository; one that does not run is ignored.
    pub fn finish_repository_operation(
        &mut self,
        operation: RepositoryOperationKind,
        outcome: &RepositoryOutcome,
        saved: bool,
        completed_at: i128,
    ) -> (diagnostic: Option<Diagnostic>)
        ensures
            !old(self).runs_operation(operation) ==> *final(self) == *old(self)
                && diagnostic is None,
            old(self).runs_operation(operation) ==> {
                &&& final(self).only_state_changed(*old(self))
                &&& operation_ended(
                    final(self).state.repository_operation,
                    operation,
                    completed_at,
                    *outcome,
                    saved,
                )
                &&& final(self).state == configured_state(
                    RuntimeState {
                        repository_operation: final(self).state.repository_operation,
                        ..old(self).state
                    },
                    old(self).config,
                    completed_at,
                )
                &&& diagnostic is Some
                &&& reports_operation_end(diagnostic->0, *outcome)
            },
    {
        if !self.is_running_operation(operation) {
            return None;
        }
        self.state.repository_operation = match &outcome.kind {
            RepositoryOutcomeKind::Succeeded => if saved {
                RepositoryOperationStatus::Succeeded { operation, completed_at }
            } else {
                RepositoryOperationStatus::Failed {
                    operation,
                    completed_at,
                    code: "state_save_failed".to_owned(),
                }
            },
            RepositoryOutcomeKind::Failed { code } => RepositoryOperationStatus::Failed {
                operation,
                completed_at,
                code: code.clone(),
            },
            RepositoryOutcomeKind::Cancelled => RepositoryOperationStatus::Failed {
                operation,
                completed_at,
                code: "repository_operation_cancelled".to_owned(),
            },
        };
        apply_configuration_status(&mut self.state, &self.config, completed_at);
        Some(
            match &outcome.kind {
                RepositoryOutcomeKind::Succeeded => Diagnostic {
                    level: DiagnosticLevel::Information,
                    event_id: "repository.operation_succeeded",
                    message: "Repository operation completed successfully.",
                    code: None,
                },
                RepositoryOutcomeKind::Failed { code } => Diagnostic {
                    level: DiagnosticLevel::Error,
                    event_id: "repository.operation_failed",
                    message: "Repository operation failed.",
                    code: Some(code.clone()),
                },
                RepositoryOutcomeKind::Cancelled => Diagnostic {
                    level: DiagnosticLevel::Information,
                    event_id: "repository.operation_cancelled",
                    message: "Repository operation was cancelled.",
                    code: None,
                },
            },
        )
    }
}

/// A backup that made a snapshot starts the count of failures anew and gives
/// the schedule back its interval; any other end keeps the last success.
pub proof fn a_success_forgets_the_failures(
    state: RuntimeState,
    now: i128,
    outcome: BackupOutcome,
    interval_hours: u32,
)
    ensures
        outcome.made_a_snapshot() ==> {
            &&& after_backup(state, now, outcome, interval_hours).consecutive_failures == 0
            &&& after_backup(state, now, outcome, interval_hours).not_before is None
            &&& after_backup(state, now, outcome, interval_hours).status.last_success == Some(now)
        },
        !outcome.made_a_snapshot() ==> {
            &&& after_backup(state, now, outcome, interval_hours).status.last_success
                == state.status.last_success
            &&& after_backup(state, now, outcome, interval_hours).service_state
                == state.service_state
        },
{
}

/// However a backup ends, it is not running any more.
pub proof fn a_finished_backup_does_not_run(
    state: RuntimeState,
    now: i128,
    outcome: BackupOutcome,
    interval_hours: u32,
)
    ensures
        !(after_backup(state, now, outcome, interval_hours).status.state is Running),
{
}

/// An installation that failed leaves nothing of the hold behind.
pub proof fn a_failed_update_releases_the_service(
    state: RuntimeState,
    code: &'static str,
    now: i128,
)
    ensures
        ({
            let after = after_install(state, UpdateInstallOutcome::Failed { code }, now);
            &&& !after.update_pending(now)
            &&& after.update_hold_previous_status is None
            &&& state.update_hold_previous_status is Some ==> {
                &&& after.status.state == state.update_hold_previous_status->0.state
                &&& after.status.next_deadline
                    == state.update_hold_previous_status->0.next_deadline
            }
        }),
{
}

/// An installer that may still run keeps every later time held.
pub proof fn an_unclear_installer_keeps_the_hold(
    state: RuntimeState,
    code: &'static str,
    now: i128,
    later: i128,
)
    ensures
        after_install(state, UpdateInstallOutcome::Indeterminate { code }, now).update_pending(
            later,
        ),
{
}

} // verus!

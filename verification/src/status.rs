//! The status that the service reports to every user of the machine.
use vstd::prelude::*;

verus! {

/// Why a due backup has not started.
#[derive(Debug, Clone, Copy, PartialEq, Eq, Structural)]
pub enum WaitingReason {
    WakeGrace,
    Network,
    Battery,
    MeteredNetwork,
    RepositoryValidation,
    Update,
}

#[derive(Debug, Clone, Copy, PartialEq, Eq, Structural)]
pub enum BackupPhase {
    PreparingSnapshot,
    Uploading,
    Retention,
}

#[derive(Debug, PartialEq, Eq)]
pub enum BackupState {
    Unconfigured,
    Idle,
    Waiting { reason: WaitingReason },
    Running { phase: BackupPhase },
    Succeeded,
    SucceededWithWarnings,
    Failed { code: String },
    Cancelled,
    Paused,
}

impl Clone for BackupState {
    fn clone(&self) -> (copy: BackupState)
        ensures
            copy == *self,
    {
        match self {
            BackupState::Unconfigured => BackupState::Unconfigured,
            BackupState::Idle => BackupState::Idle,
            BackupState::Waiting { reason } => BackupState::Waiting { reason: *reason },
            BackupState::Running { phase } => BackupState::Running { phase: *phase },
            BackupState::Succeeded => BackupState::Succeeded,
            BackupState::SucceededWithWarnings => BackupState::SucceededWithWarnings,
            BackupState::Failed { code } => BackupState::Failed { code: code.clone() },
            BackupState::Cancelled => BackupState::Cancelled,
            BackupState::Paused => BackupState::Paused,
        }
    }
}

impl BackupState {
    /// Whether two states read the same: failures compare by their code.
    pub open spec fn reads_as(self, other: BackupState) -> bool {
        match (self, other) {
            (BackupState::Failed { code }, BackupState::Failed { code: other_code }) => code@
                == other_code@,
            _ => self == other,
        }
    }

    pub fn same_as(&self, other: &BackupState) -> (same: bool)
        ensures
            same == self.reads_as(*other),
    {
        match (self, other) {
            (BackupState::Unconfigured, BackupState::Unconfigured) => true,
            (BackupState::Idle, BackupState::Idle) => true,
            (BackupState::Waiting { reason }, BackupState::Waiting { reason: other_reason }) =>
                *reason == *other_reason,
            (BackupState::Running { phase }, BackupState::Running { phase: other_phase }) => *phase
                == *other_phase,
            (BackupState::Succeeded, BackupState::Succeeded) => true,
            (BackupState::SucceededWithWarnings, BackupState::SucceededWithWarnings) => true,
            (BackupState::Failed { code }, BackupState::Failed { code: other_code }) => *code
                == *other_code,
            (BackupState::Cancelled, BackupState::Cancelled) => true,
            (BackupState::Paused, BackupState::Paused) => true,
            _ => false,
        }
    }

    pub fn is_running(&self) -> (running: bool)
        ensures
            running == (self is Running),
    {
        match self {
            BackupState::Running { .. } => true,
            _ => false,
        }
    }
}

#[derive(Debug, Clone, Copy, PartialEq, Eq)]
pub struct BackupProgress {
    pub percent_done: Option<u8>,
    pub files_done: u64,
    pub total_files: Option<u64>,
    pub bytes_done: u64,
    pub total_bytes: Option<u64>,
    pub error_count: u64,
}

/// Whether the machine may delete snapshots of the repository.
#[derive(Debug, Clone, Copy, PartialEq, Eq, Structural)]
pub enum RepositoryMode {
    Standard,
    AppendOnly,
}

#[derive(Debug, Clone, Copy, PartialEq, Eq, Structural)]
pub enum BackupRunOutcome {
    Succeeded,
    SucceededWithWarnings,
    Failed,
    Cancelled,
}

#[derive(Debug, PartialEq, Eq)]
pub struct ServiceStatus {
    pub state: BackupState,
    pub state_since: i128,
    pub last_attempt: Option<i128>,
    pub last_success: Option<i128>,
    pub next_deadline: Option<i128>,
    pub repository_display_name: Option<String>,
    pub repository_mode: RepositoryMode,
    pub managed_revision: Option<String>,
    pub progress: Option<BackupProgress>,
}

/// A copy of an optional text.
pub fn copy_text(text: &Option<String>) -> (copy: Option<String>)
    ensures
        copy == *text,
{
    match text {
        Some(text) => Some(text.clone()),
        None => None,
    }
}

impl Clone for ServiceStatus {
    fn clone(&self) -> (copy: ServiceStatus)
        ensures
            copy == *self,
    {
        ServiceStatus {
            state: self.state.clone(),
            state_since: self.state_since,
            last_attempt: self.last_attempt,
            last_success: self.last_success,
            next_deadline: self.next_deadline,
            repository_display_name: copy_text(&self.repository_display_name),
            repository_mode: self.repository_mode,
            managed_revision: copy_text(&self.managed_revision),
            progress: self.progress,
        }
    }
}

/// The status after a move to `next`: the time stamp changes only with the state.
pub open spec fn transitioned(status: ServiceStatus, next: BackupState, now: i128) -> ServiceStatus {
    if status.state.reads_as(next) {
        status
    } else {
        ServiceStatus { state: next, state_since: now, ..status }
    }
}

pub fn transition_state(status: &mut ServiceStatus, next: BackupState, now: i128)
    ensures
        *final(status) == transitioned(*old(status), next, now),
{
    if !status.state.same_as(&next) {
        status.state = next;
        status.state_since = now;
    }
}

} // verus!

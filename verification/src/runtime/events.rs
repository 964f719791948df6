//! What the threads of the service tell its event loop.
use crate::outcome::{BackupOutcome, RepositoryOutcome};
use crate::protocol::{
    RepositoryOperationKind, RestoreEntryView, RestoreSnapshotView, RestoreStatusView,
    UpdatePackage,
};
use vstd::prelude::*;

verus! {

/// Why a backup was started.
#[derive(Debug, Clone, Copy, PartialEq, Eq, Structural)]
pub enum BackupTrigger {
    Manual,
    Scheduled,
    ResumeCatchUp,
}

/// How the installation of an update ended.
#[derive(Debug, PartialEq, Eq)]
pub enum UpdateInstallOutcome {
    Completed { version: String },
    Failed { code: &'static str },
    Indeterminate { code: &'static str },
}

/// A listing that the recovery browser asks for.
#[derive(Debug, PartialEq, Eq)]
pub enum RestoreQueryRequest {
    Snapshots,
    Directory { snapshot_id: String, path: String },
}

#[derive(Debug, PartialEq, Eq)]
pub enum RestoreQueryOutcome {
    Snapshots(Vec<RestoreSnapshotView>),
    Directory(Vec<RestoreEntryView>),
    Failed { code: String },
    Cancelled,
}

#[allow(inconsistent_fields)]
pub enum RuntimeEvent {
    Stop,
    Resume,
    PowerStatusChanged,
    TimeChanged,
    RunNow,
    Cancel,
    Deferred,
    ConfigurationChanged,
    RepositoryOperationRequested(RepositoryOperationKind),
    RepositoryOperationFinished { operation: RepositoryOperationKind, outcome: RepositoryOutcome },
    UpdateInstallRequested(UpdatePackage),
    UpdateInstallFinished(UpdateInstallOutcome),
    BackupFinished(BackupOutcome),
    RestoreQueryRequested { query_id: u64, request: RestoreQueryRequest },
    RestoreQueryCancelled { query_id: u64 },
    RestoreQueryFinished { query_id: u64, outcome: RestoreQueryOutcome },
    RestoreRequested { job_id: u64, snapshot_id: String, path: String, destination: String },
    RestoreCancelled { job_id: u64 },
    RestoreFinished { job_id: u64, status: RestoreStatusView },
}

/// What the event loop does after it looked at the schedule.
#[derive(Debug, Clone, Copy, PartialEq, Eq, Structural)]
pub enum ScheduleAction {
    Nothing,
    Start { trigger: BackupTrigger },
}

/// What the retention after a backup has to do.
#[derive(Debug, Clone, Copy, PartialEq, Eq, Structural)]
pub struct RetentionPlan {
    pub prune_due: bool,
}

} // verus!

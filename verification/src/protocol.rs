//! What the service and its clients say to each other.
use crate::config::{ManagementMode, SecretEnvironmentVariable};
use crate::diagnostics::DiagnosticEntry;
use crate::history::BackupRunRecord;
use crate::rejection::Rejection;
use crate::status::{copy_text, RepositoryMode, ServiceStatus};
use vstd::prelude::*;

verus! {

/// Who sent a request.
#[derive(Debug, Clone, Copy, PartialEq, Eq, Structural)]
pub struct ClientIdentity {
    pub is_elevated_administrator: bool,
}

#[derive(Debug, Clone, Copy, PartialEq, Eq, Structural)]
pub enum RepositoryOperationKind {
    Validate,
    Initialize,
}

/// What is known of the connection to the repository.
#[derive(Debug, PartialEq, Eq)]
pub enum RepositoryOperationStatus {
    NotRun,
    ValidationRequired,
    Running { operation: RepositoryOperationKind },
    Succeeded { operation: RepositoryOperationKind, completed_at: i128 },
    Failed { operation: RepositoryOperationKind, completed_at: i128, code: String },
}

impl Clone for RepositoryOperationStatus {
    fn clone(&self) -> (copy: RepositoryOperationStatus)
        ensures
            copy == *self,
    {
        match self {
            RepositoryOperationStatus::NotRun => RepositoryOperationStatus::NotRun,
            RepositoryOperationStatus::ValidationRequired =>
                RepositoryOperationStatus::ValidationRequired,
            RepositoryOperationStatus::Running { operation } =>
                RepositoryOperationStatus::Running { operation: *operation },
            RepositoryOperationStatus::Succeeded { operation, completed_at } =>
                RepositoryOperationStatus::Succeeded {
                operation: *operation,
                completed_at: *completed_at,
            },
            RepositoryOperationStatus::Failed { operation, completed_at, code } =>
                RepositoryOperationStatus::Failed {
                operation: *operation,
                completed_at: *completed_at,
                code: code.clone(),
            },
        }
    }
}

impl RepositoryOperationStatus {
    /// Backups run only against a repository whose last operation succeeded.
    pub open spec fn allows_backup(self) -> bool {
        self is Succeeded
    }

    pub fn is_running(&self) -> (running: bool)
        ensures
            running == (self is Running),
    {
        match self {
            RepositoryOperationStatus::Running { .. } => true,
            _ => false,
        }
    }
}

pub fn repository_operation_allows_backup(status: &RepositoryOperationStatus) -> (allowed: bool)
    ensures
        allowed == status.allows_backup(),
{
    match status {
        RepositoryOperationStatus::Succeeded { .. } => true,
        _ => false,
    }
}

/// A signed installer that a client asks the service to install.
#[derive(Debug, PartialEq, Eq)]
pub struct UpdatePackage {
    pub version: String,
    pub url: String,
    pub signature: String,
    pub length: u64,
}

impl Clone for UpdatePackage {
    fn clone(&self) -> (copy: UpdatePackage)
        ensures
            copy == *self,
    {
        UpdatePackage {
            version: self.version.clone(),
            url: self.url.clone(),
            signature: self.signature.clone(),
            length: self.length,
        }
    }
}

/// A change of one credential of the repository.
#[derive(PartialEq, Eq)]
pub enum RepositorySecretUpdate {
    Store { variable: SecretEnvironmentVariable, value: Vec<u8> },
    Remove { variable: SecretEnvironmentVariable },
}

impl RepositorySecretUpdate {
    pub open spec fn changes(self) -> SecretEnvironmentVariable {
        match self {
            RepositorySecretUpdate::Store { variable, .. } => variable,
            RepositorySecretUpdate::Remove { variable } => variable,
        }
    }

    pub fn variable(&self) -> (variable: SecretEnvironmentVariable)
        ensures
            variable == self.changes(),
    {
        match self {
            RepositorySecretUpdate::Store { variable, .. } => *variable,
            RepositorySecretUpdate::Remove { variable } => *variable,
        }
    }
}

/// The changes of a repository that a client asks for.
#[derive(PartialEq, Eq)]
pub struct RepositoryUpdate {
    pub display_name: Option<String>,
    pub url: Option<String>,
    pub mode: Option<RepositoryMode>,
    pub options: Option<Vec<(String, String)>>,
    pub secret_updates: Vec<RepositorySecretUpdate>,
}

#[derive(Debug, Clone, Copy, PartialEq, Eq, Structural)]
pub struct ScheduleUpdate {
    pub interval_hours: Option<u32>,
    pub wake_grace_seconds: Option<u64>,
    pub wake_lock_timeout_seconds: Option<u64>,
    pub allow_on_battery: Option<bool>,
    pub allow_metered_network: Option<bool>,
}

#[derive(Debug, Clone, Copy, PartialEq, Eq, Structural)]
pub struct RetentionUpdate {
    pub daily: Option<u32>,
    pub weekly: Option<u32>,
    pub monthly: Option<u32>,
    pub yearly: Option<u32>,
    pub prune_interval_days: Option<u32>,
}

#[allow(inconsistent_fields)]
#[derive(PartialEq, Eq)]
pub enum RequestCommand {
    GetStatus,
    GetManagement,
    Enroll { bootstrap_url: Vec<u8> },
    Unenroll,
    GetRunHistory { limit: u16 },
    GetRunFailureDetails { run_id: u64 },
    GetDiagnostics { limit: u16 },
    GetBackupSources,
    DiscoverBackupSources,
    UpdateBackupSources { paths: Option<Vec<String>>, exclusions: Option<Vec<String>> },
    GetRepository,
    UpdateRepository { update: RepositoryUpdate },
    ValidateRepository,
    InitializeRepository,
    GetSchedule,
    UpdateSchedule { update: ScheduleUpdate },
    GetRetention,
    UpdateRetention { update: RetentionUpdate },
    RunBackupNow,
    CancelBackup,
    DeferBackup { minutes: u32 },
    PrepareForUpdate { hold_seconds: u32 },
    GetUpdateSettings,
    UpdateUpdateSettings { automatic_install: bool },
    InstallUpdate { package: UpdatePackage },
}

#[derive(PartialEq, Eq)]
pub struct Request {
    pub request_id: u64,
    pub command: RequestCommand,
}

impl Request {
    pub fn new(request_id: u64, command: RequestCommand) -> (request: Request)
        ensures
            request == (Request { request_id, command }),
    {
        Request { request_id, command }
    }
}

#[derive(Debug, PartialEq, Eq)]
pub struct ManagementView {
    pub mode: ManagementMode,
    pub enrolled: bool,
    pub device_id: Option<String>,
    pub manifest_url: Option<String>,
}

#[derive(Debug, PartialEq, Eq)]
pub struct BackupSourcesView {
    pub paths: Vec<String>,
    pub exclusions: Vec<String>,
    pub paths_locked: bool,
    pub exclusions_locked: bool,
}

#[derive(Debug, PartialEq, Eq)]
pub struct RepositoryView {
    pub display_name: Option<String>,
    pub url: Option<String>,
    pub mode: RepositoryMode,
    pub options: Vec<(String, String)>,
    pub configured_secrets: Vec<SecretEnvironmentVariable>,
    pub operation_status: RepositoryOperationStatus,
    pub display_name_locked: bool,
    pub url_locked: bool,
    pub mode_locked: bool,
    pub options_locked: bool,
    pub secrets_locked: bool,
}

#[derive(Debug, Clone, Copy, PartialEq, Eq, Structural)]
pub struct ScheduleView {
    pub interval_hours: u32,
    pub wake_grace_seconds: u64,
    pub wake_lock_timeout_seconds: u64,
    pub allow_on_battery: bool,
    pub allow_metered_network: bool,
    pub interval_hours_locked: bool,
    pub wake_grace_seconds_locked: bool,
    pub wake_lock_timeout_seconds_locked: bool,
    pub allow_on_battery_locked: bool,
    pub allow_metered_network_locked: bool,
}

#[derive(Debug, PartialEq, Eq)]
pub struct RetentionView {
    pub repository_mode: RepositoryMode,
    pub daily: u32,
    pub weekly: u32,
    pub monthly: u32,
    pub yearly: u32,
    pub prune_interval_days: u32,
    pub daily_locked: bool,
    pub weekly_locked: bool,
    pub monthly_locked: bool,
    pub yearly_locked: bool,
    pub prune_interval_days_locked: bool,
    pub last_retention: Option<i128>,
    pub last_prune: Option<i128>,
    pub last_error: Option<String>,
}

#[derive(Debug, Clone, Copy, PartialEq, Eq, Structural)]
pub struct UpdateSettingsView {
    pub automatic_install: bool,
    pub automatic_install_locked: bool,
}

#[derive(Debug, Clone, Copy, PartialEq, Eq, Structural)]
pub struct RestoreSettingsView {
    pub enabled: bool,
    pub enabled_locked: bool,
    pub managed: bool,
}

#[derive(Debug, PartialEq, Eq)]
pub struct BackupRunFailureDetails {
    pub run_id: u64,
    pub items: Vec<String>,
    pub omitted: u64,
}

#[derive(Debug, Clone, Copy, PartialEq, Eq, Structural)]
pub enum RestoreNodeType {
    Directory,
    File,
    Other,
}

#[derive(Debug, PartialEq, Eq)]
pub struct RestoreSnapshotView {
    pub id: String,
    pub paths: Vec<String>,
}

impl Clone for RestoreSnapshotView {
    fn clone(&self) -> (copy: RestoreSnapshotView)
        ensures
            copy.id == self.id,
            copy.paths@ == self.paths@,
    {
        RestoreSnapshotView {
            id: self.id.clone(),
            paths: crate::config::copy_texts(&self.paths),
        }
    }
}

#[derive(Debug, PartialEq, Eq)]
pub struct RestoreEntryView {
    pub path: String,
    pub node_type: RestoreNodeType,
}

impl Clone for RestoreEntryView {
    fn clone(&self) -> (copy: RestoreEntryView)
        ensures
            copy == *self,
    {
        RestoreEntryView { path: self.path.clone(), node_type: self.node_type }
    }
}

#[derive(Debug, Clone, Copy, PartialEq, Eq, Structural)]
pub enum RestoreQueryKind {
    Snapshots,
    Directory,
}

#[derive(Debug, Clone, Copy, PartialEq, Eq, Structural)]
pub enum RestoreQueryState {
    Running,
    Succeeded,
    Failed,
    Cancelled,
}

#[derive(Debug, PartialEq, Eq)]
pub struct RestoreQueryView {
    pub query_id: u64,
    pub kind: RestoreQueryKind,
    pub state: RestoreQueryState,
    pub snapshots: Vec<RestoreSnapshotView>,
    pub entries: Vec<RestoreEntryView>,
    pub total: u64,
    pub message: Option<String>,
}

#[derive(Debug, Clone, Copy, PartialEq, Eq, Structural)]
pub enum RestoreJobState {
    Idle,
    Running,
    Succeeded,
    Failed,
    Cancelled,
}

#[derive(Debug, PartialEq, Eq)]
pub struct RestoreStatusView {
    pub job_id: Option<u64>,
    pub state: RestoreJobState,
    pub files_restored: Option<u64>,
    pub bytes_restored: Option<u64>,
    pub total_files: Option<u64>,
    pub total_bytes: Option<u64>,
    pub destination: Option<String>,
    pub message: Option<String>,
}

impl RestoreStatusView {
    /// Nothing is being restored, and nothing was.
    pub open spec fn spec_idle() -> RestoreStatusView {
        RestoreStatusView {
            job_id: None,
            state: RestoreJobState::Idle,
            files_restored: None,
            bytes_restored: None,
            total_files: None,
            total_bytes: None,
            destination: None,
            message: None,
        }
    }

    pub fn idle() -> (status: RestoreStatusView)
        ensures
            status == RestoreStatusView::spec_idle(),
    {
        RestoreStatusView {
            job_id: None,
            state: RestoreJobState::Idle,
            files_restored: None,
            bytes_restored: None,
            total_files: None,
            total_bytes: None,
            destination: None,
            message: None,
        }
    }
}

impl Clone for RestoreStatusView {
    fn clone(&self) -> (copy: RestoreStatusView)
        ensures
            copy == *self,
    {
        RestoreStatusView {
            job_id: self.job_id,
            state: self.state,
            files_restored: self.files_restored,
            bytes_restored: self.bytes_restored,
            total_files: self.total_files,
            total_bytes: self.total_bytes,
            destination: copy_text(&self.destination),
            message: copy_text(&self.message),
        }
    }
}

#[allow(inconsistent_fields)]
#[derive(Debug, PartialEq, Eq)]
pub enum ResponsePayload {
    Status { status: ServiceStatus },
    Management { configuration: ManagementView },
    RunHistory { runs: Vec<BackupRunRecord> },
    RunFailureDetails { details: BackupRunFailureDetails },
    Diagnostics { entries: Vec<DiagnosticEntry> },
    BackupSources { configuration: BackupSourcesView },
    DiscoveredBackupSources { sources: Vec<String> },
    Repository { configuration: RepositoryView },
    Schedule { configuration: ScheduleView },
    Retention { configuration: RetentionView },
    UpdateSettings { configuration: UpdateSettingsView },
    RestoreSettings { configuration: RestoreSettingsView },
    RestoreQueryStarted { query_id: u64 },
    RestoreQuery { result: RestoreQueryView },
    RestoreStarted { job_id: u64 },
    RestoreStatus { status: RestoreStatusView },
    Accepted { message: String },
    Rejected { code: String, message: String },
}

impl ResponsePayload {
    /// The request was turned down for this reason.
    pub open spec fn rejects(self, rejection: Rejection) -> bool {
        self.rejects_with(rejection.code_text(), rejection.message_text())
    }

    pub open spec fn rejects_with(self, code: Seq<char>, reason: Seq<char>) -> bool {
        &&& self is Rejected
        &&& self->code@ == code
        &&& self->Rejected_message@ == reason
    }

    /// The request was taken on with this message.
    pub open spec fn accepts(self, message: Seq<char>) -> bool {
        self is Accepted && self->Accepted_message@ == message
    }
}

pub fn rejected(rejection: Rejection) -> (payload: ResponsePayload)
    ensures
        payload.rejects(rejection),
{
    rejected_with(rejection.code(), rejection.message())
}

pub fn rejected_with(code: &str, reason: &str) -> (payload: ResponsePayload)
    ensures
        payload.rejects_with(code@, reason@),
{
    ResponsePayload::Rejected { code: code.to_owned(), message: reason.to_owned() }
}

pub fn administrator_required() -> (payload: ResponsePayload)
    ensures
        payload.rejects(Rejection::AdministratorRequired),
{
    rejected(Rejection::AdministratorRequired)
}

pub fn accepted(message: &str) -> (payload: ResponsePayload)
    ensures
        payload.accepts(message@),
{
    ResponsePayload::Accepted { message: message.to_owned() }
}

#[derive(Debug, PartialEq, Eq)]
pub struct Response {
    pub request_id: u64,
    pub payload: ResponsePayload,
}

} // verus!

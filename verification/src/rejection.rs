//! Every reason for which the service turns a request down, with the code that
//! programs read and the sentence that people read.
use vstd::prelude::*;

verus! {

#[derive(Debug, Clone, Copy, PartialEq, Eq, Structural)]
pub enum Rejection {
    AdministratorRequired,
    InvalidHistoryLimit,
    HistoryUnreadable,
    HistoryMissing,
    FailureDetailsUnreadable,
    HistoryRunNotFound,
    InvalidDiagnosticsLimit,
    DiagnosticsUnreadable,
    DiagnosticsMissing,
    SourceDiscoveryFailed,
    NotConfigured,
    RepositoryNotReadyToStart,
    RepositoryNotReadyToDefer,
    RepositoryNotReadyToRestore,
    AlreadyRunning,
    RunningBackupDeferred,
    NotRunning,
    InvalidDeferral,
    ServiceStopping,
    RepositoryNotConfigured,
    RepositoryPasswordRequired,
    InitializationForbidden,
    UpdatePending,
    BackupRunningAtTest,
    RepositoryOperationRunning,
    StateSaveFailed,
    AutomaticUpdatesEnabled,
    InvalidUpdateHold,
    ServiceInstallingUpdate,
    UpdateAlreadyHeld,
    BackupRunningAtUpdate,
    OperationRunning,
    UpdateSettingLocked,
    UpdateSettingHeld,
    UpdateSettingSaveFailed,
    AutomaticUpdatesDisabled,
    UpdateMetadataInvalid,
    UpdateAlreadyInstalling,
    PromptedUpdateHeld,
    InstallWaitsForBackup,
    InstallWaitsForOperation,
    ConfigurationHeld,
    ConfigurationSaveFailed,
    RetentionManagedByServer,
    NoRetentionChanges,
    RetentionLocked,
    BackupRunningAtRetention,
    RepositoryRunningAtRetention,
    NoScheduleChanges,
    ScheduleLocked,
    BackupRunningAtSchedule,
    RepositoryRunningAtSchedule,
    NoSourceChanges,
    SourcesLocked,
    NetworkSourceUnsupported,
    SourceNamespaceUnsupported,
    SourceProtected,
    BackupRunningAtSources,
    NoRepositoryChanges,
    RepositoryLocked,
    TooManySecretUpdates,
    DuplicateSecretUpdate,
    CredentialStoreUnavailable,
    BackupRunningAtRepository,
    RepositoryRunningAtRepository,
    CredentialSaveFailed,
    InvalidBootstrapUrl,
    EnrollmentWaits,
    EnrollmentFailed,
    ConfigurationUnavailable,
    ConfigurationInvalid,
    UnmanagedSaveFailed,
    RestoreLocked,
    RestoreRunningAtSetting,
    RestoreSettingHeld,
    RestoreSettingSaveFailed,
    RestoreDisabled,
    InvalidRestoreQueryLimit,
    RestoreQueryNotFound,
    InvalidRestoreQueryOffset,
    RestoreQueryEncodingFailed,
    RestoreQueryItemTooLarge,
    RestoreQueryNotRunning,
    RestoreOfWholeRoot,
    RestorePathInvalid,
    RestorePathNotFolder,
    RestoreSnapshotInvalid,
    RestoreDestinationInvalid,
    RestoreNotRunning,
    BackupRunningAtRestore,
    RestoreRunning,
    RestoreHeld,
    RestoreSnapshotNotAuthorized,
    RestorePathNotAuthorized,
}

impl Rejection {
    pub open spec fn code_text(self) -> Seq<char> {
        match self {
            Rejection::AdministratorRequired => "administrator_required"@,
            Rejection::InvalidHistoryLimit => "invalid_history_limit"@,
            Rejection::HistoryUnreadable => "history_unavailable"@,
            Rejection::HistoryMissing => "history_unavailable"@,
            Rejection::FailureDetailsUnreadable => "history_unavailable"@,
            Rejection::HistoryRunNotFound => "history_run_not_found"@,
            Rejection::InvalidDiagnosticsLimit => "invalid_diagnostics_limit"@,
            Rejection::DiagnosticsUnreadable => "diagnostics_unavailable"@,
            Rejection::DiagnosticsMissing => "diagnostics_unavailable"@,
            Rejection::SourceDiscoveryFailed => "source_discovery_failed"@,
            Rejection::NotConfigured => "not_configured"@,
            Rejection::RepositoryNotReadyToStart => "repository_not_ready"@,
            Rejection::RepositoryNotReadyToDefer => "repository_not_ready"@,
            Rejection::RepositoryNotReadyToRestore => "repository_not_ready"@,
            Rejection::AlreadyRunning => "already_running"@,
            Rejection::RunningBackupDeferred => "already_running"@,
            Rejection::NotRunning => "not_running"@,
            Rejection::InvalidDeferral => "invalid_deferral"@,
            Rejection::ServiceStopping => "service_stopping"@,
            Rejection::RepositoryNotConfigured => "repository_not_configured"@,
            Rejection::RepositoryPasswordRequired => "repository_password_required"@,
            Rejection::InitializationForbidden => "append_only_initialization_forbidden"@,
            Rejection::UpdatePending => "update_pending"@,
            Rejection::BackupRunningAtTest => "backup_running"@,
            Rejection::RepositoryOperationRunning => "repository_operation_running"@,
            Rejection::StateSaveFailed => "state_save_failed"@,
            Rejection::AutomaticUpdatesEnabled => "automatic_updates_enabled"@,
            Rejection::InvalidUpdateHold => "invalid_update_hold"@,
            Rejection::ServiceInstallingUpdate => "update_already_running"@,
            Rejection::UpdateAlreadyHeld => "update_pending"@,
            Rejection::BackupRunningAtUpdate => "backup_running"@,
            Rejection::OperationRunning => "operation_running"@,
            Rejection::UpdateSettingLocked => "managed_field_locked"@,
            Rejection::UpdateSettingHeld => "update_pending"@,
            Rejection::UpdateSettingSaveFailed => "configuration_save_failed"@,
            Rejection::AutomaticUpdatesDisabled => "automatic_updates_disabled"@,
            Rejection::UpdateMetadataInvalid => "update_metadata_invalid"@,
            Rejection::UpdateAlreadyInstalling => "update_already_running"@,
            Rejection::PromptedUpdateHeld => "update_pending"@,
            Rejection::InstallWaitsForBackup => "backup_running"@,
            Rejection::InstallWaitsForOperation => "operation_running"@,
            Rejection::ConfigurationHeld => "update_pending"@,
            Rejection::ConfigurationSaveFailed => "configuration_save_failed"@,
            Rejection::RetentionManagedByServer => "retention_managed_by_server"@,
            Rejection::NoRetentionChanges => "no_configuration_changes"@,
            Rejection::RetentionLocked => "managed_field_locked"@,
            Rejection::BackupRunningAtRetention => "backup_running"@,
            Rejection::RepositoryRunningAtRetention => "repository_operation_running"@,
            Rejection::NoScheduleChanges => "no_configuration_changes"@,
            Rejection::ScheduleLocked => "managed_field_locked"@,
            Rejection::BackupRunningAtSchedule => "backup_running"@,
            Rejection::RepositoryRunningAtSchedule => "repository_operation_running"@,
            Rejection::NoSourceChanges => "no_configuration_changes"@,
            Rejection::SourcesLocked => "managed_field_locked"@,
            Rejection::NetworkSourceUnsupported => "unsupported_network_backup_source"@,
            Rejection::SourceNamespaceUnsupported => "unsupported_backup_source_namespace"@,
            Rejection::SourceProtected => "protected_backup_source"@,
            Rejection::BackupRunningAtSources => "backup_running"@,
            Rejection::NoRepositoryChanges => "no_configuration_changes"@,
            Rejection::RepositoryLocked => "managed_field_locked"@,
            Rejection::TooManySecretUpdates => "too_many_secret_updates"@,
            Rejection::DuplicateSecretUpdate => "duplicate_secret_update"@,
            Rejection::CredentialStoreUnavailable => "credential_store_unavailable"@,
            Rejection::BackupRunningAtRepository => "backup_running"@,
            Rejection::RepositoryRunningAtRepository => "repository_operation_running"@,
            Rejection::CredentialSaveFailed => "credential_save_failed"@,
            Rejection::InvalidBootstrapUrl => "invalid_bootstrap_url"@,
            Rejection::EnrollmentWaits => "operation_running"@,
            Rejection::EnrollmentFailed => "enrollment_failed"@,
            Rejection::ConfigurationUnavailable => "configuration_unavailable"@,
            Rejection::ConfigurationInvalid => "configuration_invalid"@,
            Rejection::UnmanagedSaveFailed => "configuration_save_failed"@,
            Rejection::RestoreLocked => "managed_field_locked"@,
            Rejection::RestoreRunningAtSetting => "restore_running"@,
            Rejection::RestoreSettingHeld => "update_pending"@,
            Rejection::RestoreSettingSaveFailed => "configuration_save_failed"@,
            Rejection::RestoreDisabled => "restore_disabled"@,
            Rejection::InvalidRestoreQueryLimit => "invalid_restore_query_limit"@,
            Rejection::RestoreQueryNotFound => "restore_query_not_found"@,
            Rejection::InvalidRestoreQueryOffset => "invalid_restore_query_offset"@,
            Rejection::RestoreQueryEncodingFailed => "restore_query_encoding_failed"@,
            Rejection::RestoreQueryItemTooLarge => "restore_query_item_too_large"@,
            Rejection::RestoreQueryNotRunning => "restore_query_not_running"@,
            Rejection::RestoreOfWholeRoot => "invalid_restore_path"@,
            Rejection::RestorePathInvalid => "invalid_restore_path"@,
            Rejection::RestorePathNotFolder => "invalid_restore_path"@,
            Rejection::RestoreSnapshotInvalid => "invalid_restore_snapshot"@,
            Rejection::RestoreDestinationInvalid => "invalid_restore_destination"@,
            Rejection::RestoreNotRunning => "restore_not_running"@,
            Rejection::BackupRunningAtRestore => "backup_running"@,
            Rejection::RestoreRunning => "restore_running"@,
            Rejection::RestoreHeld => "update_pending"@,
            Rejection::RestoreSnapshotNotAuthorized => "restore_snapshot_not_authorized"@,
            Rejection::RestorePathNotAuthorized => "restore_path_not_authorized"@,
        }
    }

    pub open spec fn message_text(self) -> Seq<char> {
        match self {
            Rejection::AdministratorRequired => "Open resticpal as an administrator to change machine backup settings."@,
            Rejection::InvalidHistoryLimit => "History requests must contain a limit from 1 through 100."@,
            Rejection::HistoryUnreadable => "Backup history could not be read from local storage."@,
            Rejection::HistoryMissing => "Backup history storage is not available."@,
            Rejection::FailureDetailsUnreadable => "Backup failure details could not be read from local storage."@,
            Rejection::HistoryRunNotFound => "The requested backup history entry does not exist."@,
            Rejection::InvalidDiagnosticsLimit => "Diagnostics requests must contain a limit from 1 through 200."@,
            Rejection::DiagnosticsUnreadable => "Operational diagnostics could not be read from local storage."@,
            Rejection::DiagnosticsMissing => "Operational diagnostics storage is not available."@,
            Rejection::SourceDiscoveryFailed => "Windows user folders could not be discovered."@,
            Rejection::NotConfigured => "Configure backup sources and a repository first."@,
            Rejection::RepositoryNotReadyToStart => "Validate or initialize the repository before starting a backup."@,
            Rejection::RepositoryNotReadyToDefer => "Validate or initialize the repository before deferring backups."@,
            Rejection::RepositoryNotReadyToRestore => "Validate the backup repository before browsing or restoring files."@,
            Rejection::AlreadyRunning => "A backup is already running."@,
            Rejection::RunningBackupDeferred => "A running backup cannot be deferred."@,
            Rejection::NotRunning => "There is no running backup to cancel."@,
            Rejection::InvalidDeferral => "A deferral must be between one minute and 24 hours."@,
            Rejection::ServiceStopping => "The backup service is stopping. Try again shortly."@,
            Rejection::RepositoryNotConfigured => "Save a repository URL before testing the connection."@,
            Rejection::RepositoryPasswordRequired => "Store the repository password before testing the connection."@,
            Rejection::InitializationForbidden => "Repository creation is disabled in append-only mode."@,
            Rejection::UpdatePending => "A resticpal update is about to start. Try again after it finishes."@,
            Rejection::BackupRunningAtTest => "Wait for the active backup to finish before testing its repository."@,
            Rejection::RepositoryOperationRunning => "A repository operation is already running."@,
            Rejection::StateSaveFailed => "Repository validation state could not be saved."@,
            Rejection::AutomaticUpdatesEnabled => "This device's effective policy requires the protected service to install updates silently."@,
            Rejection::InvalidUpdateHold => "The update hold must be between one and 30 minutes."@,
            Rejection::ServiceInstallingUpdate => "The protected service is already installing an update."@,
            Rejection::UpdateAlreadyHeld => "Another update request is already holding backup work."@,
            Rejection::BackupRunningAtUpdate => "Wait for the active backup to finish before installing the update."@,
            Rejection::OperationRunning => "Wait for the current repository or management operation to finish."@,
            Rejection::UpdateSettingLocked => "Automatic update installation is locked by managed policy."@,
            Rejection::UpdateSettingHeld => "Automatic-update mode cannot change while an update is in progress."@,
            Rejection::UpdateSettingSaveFailed => "The automatic-update setting could not be saved."@,
            Rejection::AutomaticUpdatesDisabled => "Automatic update installation is disabled by this device's effective policy."@,
            Rejection::UpdateMetadataInvalid => "The signed update metadata is invalid or does not describe a newer resticpal MSI."@,
            Rejection::UpdateAlreadyInstalling => "An update is already being installed."@,
            Rejection::PromptedUpdateHeld => "A prompted update is already holding backup work."@,
            Rejection::InstallWaitsForBackup => "The update will be retried after the active backup finishes."@,
            Rejection::InstallWaitsForOperation => "The update will be retried after the current service operation finishes."@,
            Rejection::ConfigurationHeld => "Wait for the resticpal update to finish before changing configuration."@,
            Rejection::ConfigurationSaveFailed => "The local configuration could not be saved."@,
            Rejection::RetentionManagedByServer => "Retention for an append-only repository is managed by the server."@,
            Rejection::NoRetentionChanges => "No retention changes were supplied."@,
            Rejection::RetentionLocked => "One or more retention fields are locked by managed policy."@,
            Rejection::BackupRunningAtRetention => "Wait for the active backup to finish before changing retention."@,
            Rejection::RepositoryRunningAtRetention => "Wait for the repository operation to finish before changing retention."@,
            Rejection::NoScheduleChanges => "No schedule changes were supplied."@,
            Rejection::ScheduleLocked => "One or more schedule fields are locked by managed policy."@,
            Rejection::BackupRunningAtSchedule => "Wait for the active backup to finish before changing its schedule."@,
            Rejection::RepositoryRunningAtSchedule => "Wait for the repository operation to finish before changing the schedule."@,
            Rejection::NoSourceChanges => "No backup-source changes were supplied."@,
            Rejection::SourcesLocked => "Backup sources are locked by managed policy."@,
            Rejection::NetworkSourceUnsupported => "Network folders cannot be used as backup sources yet. Choose a folder on a local Windows drive."@,
            Rejection::SourceNamespaceUnsupported => "Backup sources must use an ordinary local Windows drive path, without junction or device aliases."@,
            Rejection::SourceProtected => "The resticpal service-data folder cannot be selected as a backup source."@,
            Rejection::BackupRunningAtSources => "Wait for the active backup to finish before changing its sources."@,
            Rejection::NoRepositoryChanges => "No repository changes were supplied."@,
            Rejection::RepositoryLocked => "One or more repository fields are locked by managed policy."@,
            Rejection::TooManySecretUpdates => "Too many credential changes were supplied in one request."@,
            Rejection::DuplicateSecretUpdate => "Each credential may be changed at most once per request."@,
            Rejection::CredentialStoreUnavailable => "The protected credential store is unavailable."@,
            Rejection::BackupRunningAtRepository => "Wait for the active backup to finish before changing its repository."@,
            Rejection::RepositoryRunningAtRepository => "Wait for the repository operation to finish before changing its settings."@,
            Rejection::CredentialSaveFailed => "A repository credential could not be stored securely."@,
            Rejection::InvalidBootstrapUrl => "The bootstrap URL is not valid UTF-8."@,
            Rejection::EnrollmentWaits => "Wait for the current backup, repository, or enrollment operation to finish."@,
            Rejection::EnrollmentFailed => "Enrollment failed. Check that the one-time URL is current and try again."@,
            Rejection::ConfigurationUnavailable => "Local configuration storage is unavailable."@,
            Rejection::ConfigurationInvalid => "The remaining local configuration is invalid."@,
            Rejection::UnmanagedSaveFailed => "The unmanaged configuration could not be saved."@,
            Rejection::RestoreLocked => "File restoration is locked by managed policy."@,
            Rejection::RestoreRunningAtSetting => "Wait for the current recovery operation to finish before changing its setting."@,
            Rejection::RestoreSettingHeld => "Wait for the resticpal update to finish before changing recovery settings."@,
            Rejection::RestoreSettingSaveFailed => "The file-restoration setting could not be saved."@,
            Rejection::RestoreDisabled => "File restoration is disabled by this PC's current settings or managed policy."@,
            Rejection::InvalidRestoreQueryLimit => "Recovery listings must request between one and 100 results."@,
            Rejection::RestoreQueryNotFound => "The requested recovery listing has expired or does not exist."@,
            Rejection::InvalidRestoreQueryOffset => "The recovery listing position is outside its available results."@,
            Rejection::RestoreQueryEncodingFailed => "The recovery listing could not be encoded safely."@,
            Rejection::RestoreQueryItemTooLarge => "A recovery listing entry exceeds the safe response size."@,
            Rejection::RestoreQueryNotRunning => "The requested recovery listing is no longer running."@,
            Rejection::RestoreOfWholeRoot => "Choose one file or folder rather than the entire repository root."@,
            Rejection::RestorePathInvalid => "Choose one existing file or folder inside the selected backup."@,
            Rejection::RestorePathNotFolder => "Only backup folders can be opened in the recovery browser."@,
            Rejection::RestoreSnapshotInvalid => "Choose an exact backup snapshot from this repository."@,
            Rejection::RestoreDestinationInvalid => "Choose an existing folder on a local Windows drive."@,
            Rejection::RestoreNotRunning => "No file restore is currently running."@,
            Rejection::BackupRunningAtRestore => "Wait for the active backup to finish before browsing or restoring files."@,
            Rejection::RestoreRunning => "Another backup browsing or file-recovery operation is already running."@,
            Rejection::RestoreHeld => "Wait for the resticpal update to finish before recovering files."@,
            Rejection::RestoreSnapshotNotAuthorized => "Choose a backup belonging to this PC from the current snapshot listing."@,
            Rejection::RestorePathNotAuthorized => "Browse to the selected file or folder before recovering it."@,
        }
    }

    pub fn code(&self) -> (code: &'static str)
        ensures
            code@ == self.code_text(),
    {
        match self {
            Rejection::AdministratorRequired => "administrator_required",
            Rejection::InvalidHistoryLimit => "invalid_history_limit",
            Rejection::HistoryUnreadable => "history_unavailable",
            Rejection::HistoryMissing => "history_unavailable",
            Rejection::FailureDetailsUnreadable => "history_unavailable",
            Rejection::HistoryRunNotFound => "history_run_not_found",
            Rejection::InvalidDiagnosticsLimit => "invalid_diagnostics_limit",
            Rejection::DiagnosticsUnreadable => "diagnostics_unavailable",
            Rejection::DiagnosticsMissing => "diagnostics_unavailable",
            Rejection::SourceDiscoveryFailed => "source_discovery_failed",
            Rejection::NotConfigured => "not_configured",
            Rejection::RepositoryNotReadyToStart => "repository_not_ready",
            Rejection::RepositoryNotReadyToDefer => "repository_not_ready",
            Rejection::RepositoryNotReadyToRestore => "repository_not_ready",
            Rejection::AlreadyRunning => "already_running",
            Rejection::RunningBackupDeferred => "already_running",
            Rejection::NotRunning => "not_running",
            Rejection::InvalidDeferral => "invalid_deferral",
            Rejection::ServiceStopping => "service_stopping",
            Rejection::RepositoryNotConfigured => "repository_not_configured",
            Rejection::RepositoryPasswordRequired => "repository_password_required",
            Rejection::InitializationForbidden => "append_only_initialization_forbidden",
            Rejection::UpdatePending => "update_pending",
            Rejection::BackupRunningAtTest => "backup_running",
            Rejection::RepositoryOperationRunning => "repository_operation_running",
            Rejection::StateSaveFailed => "state_save_failed",
            Rejection::AutomaticUpdatesEnabled => "automatic_updates_enabled",
            Rejection::InvalidUpdateHold => "invalid_update_hold",
            Rejection::ServiceInstallingUpdate => "update_already_running",
            Rejection::UpdateAlreadyHeld => "update_pending",
            Rejection::BackupRunningAtUpdate => "backup_running",
            Rejection::OperationRunning => "operation_running",
            Rejection::UpdateSettingLocked => "managed_field_locked",
            Rejection::UpdateSettingHeld => "update_pending",
            Rejection::UpdateSettingSaveFailed => "configuration_save_failed",
            Rejection::AutomaticUpdatesDisabled => "automatic_updates_disabled",
            Rejection::UpdateMetadataInvalid => "update_metadata_invalid",
            Rejection::UpdateAlreadyInstalling => "update_already_running",
            Rejection::PromptedUpdateHeld => "update_pending",
            Rejection::InstallWaitsForBackup => "backup_running",
            Rejection::InstallWaitsForOperation => "operation_running",
            Rejection::ConfigurationHeld => "update_pending",
            Rejection::ConfigurationSaveFailed => "configuration_save_failed",
            Rejection::RetentionManagedByServer => "retention_managed_by_server",
            Rejection::NoRetentionChanges => "no_configuration_changes",
            Rejection::RetentionLocked => "managed_field_locked",
            Rejection::BackupRunningAtRetention => "backup_running",
            Rejection::RepositoryRunningAtRetention => "repository_operation_running",
            Rejection::NoScheduleChanges => "no_configuration_changes",
            Rejection::ScheduleLocked => "managed_field_locked",
            Rejection::BackupRunningAtSchedule => "backup_running",
            Rejection::RepositoryRunningAtSchedule => "repository_operation_running",
            Rejection::NoSourceChanges => "no_configuration_changes",
            Rejection::SourcesLocked => "managed_field_locked",
            Rejection::NetworkSourceUnsupported => "unsupported_network_backup_source",
            Rejection::SourceNamespaceUnsupported => "unsupported_backup_source_namespace",
            Rejection::SourceProtected => "protected_backup_source",
            Rejection::BackupRunningAtSources => "backup_running",
            Rejection::NoRepositoryChanges => "no_configuration_changes",
            Rejection::RepositoryLocked => "managed_field_locked",
            Rejection::TooManySecretUpdates => "too_many_secret_updates",
            Rejection::DuplicateSecretUpdate => "duplicate_secret_update",
            Rejection::CredentialStoreUnavailable => "credential_store_unavailable",
            Rejection::BackupRunningAtRepository => "backup_running",
            Rejection::RepositoryRunningAtRepository => "repository_operation_running",
            Rejection::CredentialSaveFailed => "credential_save_failed",
            Rejection::InvalidBootstrapUrl => "invalid_bootstrap_url",
            Rejection::EnrollmentWaits => "operation_running",
            Rejection::EnrollmentFailed => "enrollment_failed",
            Rejection::ConfigurationUnavailable => "configuration_unavailable",
            Rejection::ConfigurationInvalid => "configuration_invalid",
            Rejection::UnmanagedSaveFailed => "configuration_save_failed",
            Rejection::RestoreLocked => "managed_field_locked",
            Rejection::RestoreRunningAtSetting => "restore_running",
            Rejection::RestoreSettingHeld => "update_pending",
            Rejection::RestoreSettingSaveFailed => "configuration_save_failed",
            Rejection::RestoreDisabled => "restore_disabled",
            Rejection::InvalidRestoreQueryLimit => "invalid_restore_query_limit",
            Rejection::RestoreQueryNotFound => "restore_query_not_found",
            Rejection::InvalidRestoreQueryOffset => "invalid_restore_query_offset",
            Rejection::RestoreQueryEncodingFailed => "restore_query_encoding_failed",
            Rejection::RestoreQueryItemTooLarge => "restore_query_item_too_large",
            Rejection::RestoreQueryNotRunning => "restore_query_not_running",
            Rejection::RestoreOfWholeRoot => "invalid_restore_path",
            Rejection::RestorePathInvalid => "invalid_restore_path",
            Rejection::RestorePathNotFolder => "invalid_restore_path",
            Rejection::RestoreSnapshotInvalid => "invalid_restore_snapshot",
            Rejection::RestoreDestinationInvalid => "invalid_restore_destination",
            Rejection::RestoreNotRunning => "restore_not_running",
            Rejection::BackupRunningAtRestore => "backup_running",
            Rejection::RestoreRunning => "restore_running",
            Rejection::RestoreHeld => "update_pending",
            Rejection::RestoreSnapshotNotAuthorized => "restore_snapshot_not_authorized",
            Rejection::RestorePathNotAuthorized => "restore_path_not_authorized",
        }
    }

    pub fn message(&self) -> (message: &'static str)
        ensures
            message@ == self.message_text(),
    {
        match self {
            Rejection::AdministratorRequired => "Open resticpal as an administrator to change machine backup settings.",
            Rejection::InvalidHistoryLimit => "History requests must contain a limit from 1 through 100.",
            Rejection::HistoryUnreadable => "Backup history could not be read from local storage.",
            Rejection::HistoryMissing => "Backup history storage is not available.",
            Rejection::FailureDetailsUnreadable => "Backup failure details could not be read from local storage.",
            Rejection::HistoryRunNotFound => "The requested backup history entry does not exist.",
            Rejection::InvalidDiagnosticsLimit => "Diagnostics requests must contain a limit from 1 through 200.",
            Rejection::DiagnosticsUnreadable => "Operational diagnostics could not be read from local storage.",
            Rejection::DiagnosticsMissing => "Operational diagnostics storage is not available.",
            Rejection::SourceDiscoveryFailed => "Windows user folders could not be discovered.",
            Rejection::NotConfigured => "Configure backup sources and a repository first.",
            Rejection::RepositoryNotReadyToStart => "Validate or initialize the repository before starting a backup.",
            Rejection::RepositoryNotReadyToDefer => "Validate or initialize the repository before deferring backups.",
            Rejection::RepositoryNotReadyToRestore => "Validate the backup repository before browsing or restoring files.",
            Rejection::AlreadyRunning => "A backup is already running.",
            Rejection::RunningBackupDeferred => "A running backup cannot be deferred.",
            Rejection::NotRunning => "There is no running backup to cancel.",
            Rejection::InvalidDeferral => "A deferral must be between one minute and 24 hours.",
            Rejection::ServiceStopping => "The backup service is stopping. Try again shortly.",
            Rejection::RepositoryNotConfigured => "Save a repository URL before testing the connection.",
            Rejection::RepositoryPasswordRequired => "Store the repository password before testing the connection.",
            Rejection::InitializationForbidden => "Repository creation is disabled in append-only mode.",
            Rejection::UpdatePending => "A resticpal update is about to start. Try again after it finishes.",
            Rejection::BackupRunningAtTest => "Wait for the active backup to finish before testing its repository.",
            Rejection::RepositoryOperationRunning => "A repository operation is already running.",
            Rejection::StateSaveFailed => "Repository validation state could not be saved.",
            Rejection::AutomaticUpdatesEnabled => "This device's effective policy requires the protected service to install updates silently.",
            Rejection::InvalidUpdateHold => "The update hold must be between one and 30 minutes.",
            Rejection::ServiceInstallingUpdate => "The protected service is already installing an update.",
            Rejection::UpdateAlreadyHeld => "Another update request is already holding backup work.",
            Rejection::BackupRunningAtUpdate => "Wait for the active backup to finish before installing the update.",
            Rejection::OperationRunning => "Wait for the current repository or management operation to finish.",
            Rejection::UpdateSettingLocked => "Automatic update installation is locked by managed policy.",
            Rejection::UpdateSettingHeld => "Automatic-update mode cannot change while an update is in progress.",
            Rejection::UpdateSettingSaveFailed => "The automatic-update setting could not be saved.",
            Rejection::AutomaticUpdatesDisabled => "Automatic update installation is disabled by this device's effective policy.",
            Rejection::UpdateMetadataInvalid => "The signed update metadata is invalid or does not describe a newer resticpal MSI.",
            Rejection::UpdateAlreadyInstalling => "An update is already being installed.",
            Rejection::PromptedUpdateHeld => "A prompted update is already holding backup work.",
            Rejection::InstallWaitsForBackup => "The update will be retried after the active backup finishes.",
            Rejection::InstallWaitsForOperation => "The update will be retried after the current service operation finishes.",
            Rejection::ConfigurationHeld => "Wait for the resticpal update to finish before changing configuration.",
            Rejection::ConfigurationSaveFailed => "The local configuration could not be saved.",
            Rejection::RetentionManagedByServer => "Retention for an append-only repository is managed by the server.",
            Rejection::NoRetentionChanges => "No retention changes were supplied.",
            Rejection::RetentionLocked => "One or more retention fields are locked by managed policy.",
            Rejection::BackupRunningAtRetention => "Wait for the active backup to finish before changing retention.",
            Rejection::RepositoryRunningAtRetention => "Wait for the repository operation to finish before changing retention.",
            Rejection::NoScheduleChanges => "No schedule changes were supplied.",
            Rejection::ScheduleLocked => "One or more schedule fields are locked by managed policy.",
            Rejection::BackupRunningAtSchedule => "Wait for the active backup to finish before changing its schedule.",
            Rejection::RepositoryRunningAtSchedule => "Wait for the repository operation to finish before changing the schedule.",
            Rejection::NoSourceChanges => "No backup-source changes were supplied.",
            Rejection::SourcesLocked => "Backup sources are locked by managed policy.",
            Rejection::NetworkSourceUnsupported => "Network folders cannot be used as backup sources yet. Choose a folder on a local Windows drive.",
            Rejection::SourceNamespaceUnsupported => "Backup sources must use an ordinary local Windows drive path, without junction or device aliases.",
            Rejection::SourceProtected => "The resticpal service-data folder cannot be selected as a backup source.",
            Rejection::BackupRunningAtSources => "Wait for the active backup to finish before changing its sources.",
            Rejection::NoRepositoryChanges => "No repository changes were supplied.",
            Rejection::RepositoryLocked => "One or more repository fields are locked by managed policy.",
            Rejection::TooManySecretUpdates => "Too many credential changes were supplied in one request.",
            Rejection::DuplicateSecretUpdate => "Each credential may be changed at most once per request.",
            Rejection::CredentialStoreUnavailable => "The protected credential store is unavailable.",
            Rejection::BackupRunningAtRepository => "Wait for the active backup to finish before changing its repository.",
            Rejection::RepositoryRunningAtRepository => "Wait for the repository operation to finish before changing its settings.",
            Rejection::CredentialSaveFailed => "A repository credential could not be stored securely.",
            Rejection::InvalidBootstrapUrl => "The bootstrap URL is not valid UTF-8.",
            Rejection::EnrollmentWaits => "Wait for the current backup, repository, or enrollment operation to finish.",
            Rejection::EnrollmentFailed => "Enrollment failed. Check that the one-time URL is current and try again.",
            Rejection::ConfigurationUnavailable => "Local configuration storage is unavailable.",
            Rejection::ConfigurationInvalid => "The remaining local configuration is invalid.",
            Rejection::UnmanagedSaveFailed => "The unmanaged configuration could not be saved.",
            Rejection::RestoreLocked => "File restoration is locked by managed policy.",
            Rejection::RestoreRunningAtSetting => "Wait for the current recovery operation to finish before changing its setting.",
            Rejection::RestoreSettingHeld => "Wait for the resticpal update to finish before changing recovery settings.",
            Rejection::RestoreSettingSaveFailed => "The file-restoration setting could not be saved.",
            Rejection::RestoreDisabled => "File restoration is disabled by this PC's current settings or managed policy.",
            Rejection::InvalidRestoreQueryLimit => "Recovery listings must request between one and 100 results.",
            Rejection::RestoreQueryNotFound => "The requested recovery listing has expired or does not exist.",
            Rejection::InvalidRestoreQueryOffset => "The recovery listing position is outside its available results.",
            Rejection::RestoreQueryEncodingFailed => "The recovery listing could not be encoded safely.",
            Rejection::RestoreQueryItemTooLarge => "A recovery listing entry exceeds the safe response size.",
            Rejection::RestoreQueryNotRunning => "The requested recovery listing is no longer running.",
            Rejection::RestoreOfWholeRoot => "Choose one file or folder rather than the entire repository root.",
            Rejection::RestorePathInvalid => "Choose one existing file or folder inside the selected backup.",
            Rejection::RestorePathNotFolder => "Only backup folders can be opened in the recovery browser.",
            Rejection::RestoreSnapshotInvalid => "Choose an exact backup snapshot from this repository.",
            Rejection::RestoreDestinationInvalid => "Choose an existing folder on a local Windows drive.",
            Rejection::RestoreNotRunning => "No file restore is currently running.",
            Rejection::BackupRunningAtRestore => "Wait for the active backup to finish before browsing or restoring files.",
            Rejection::RestoreRunning => "Another backup browsing or file-recovery operation is already running.",
            Rejection::RestoreHeld => "Wait for the resticpal update to finish before recovering files.",
            Rejection::RestoreSnapshotNotAuthorized => "Choose a backup belonging to this PC from the current snapshot listing.",
            Rejection::RestorePathNotAuthorized => "Browse to the selected file or folder before recovering it.",
        }
    }
}

} // verus!

//! What a client is told where a request is refused.
use crate::rejection::Rejection;
use vstd::prelude::*;

verus! {

/// Each refusal has the code that clients know it by; refusals that mean the
/// same to them share one.
pub proof fn refusals_are_known_by_their_codes(rejection: Rejection)
    ensures
        rejection is AdministratorRequired ==> rejection.code_text() == "administrator_required"@,
        rejection is InvalidHistoryLimit ==> rejection.code_text() == "invalid_history_limit"@,
        rejection is HistoryUnreadable || rejection is HistoryMissing || rejection is FailureDetailsUnreadable ==> rejection.code_text() == "history_unavailable"@,
        rejection is HistoryRunNotFound ==> rejection.code_text() == "history_run_not_found"@,
        rejection is InvalidDiagnosticsLimit ==> rejection.code_text() == "invalid_diagnostics_limit"@,
        rejection is DiagnosticsUnreadable || rejection is DiagnosticsMissing ==> rejection.code_text() == "diagnostics_unavailable"@,
        rejection is SourceDiscoveryFailed ==> rejection.code_text() == "source_discovery_failed"@,
        rejection is NotConfigured ==> rejection.code_text() == "not_configured"@,
        rejection is RepositoryNotReadyToStart || rejection is RepositoryNotReadyToDefer || rejection is RepositoryNotReadyToRestore ==> rejection.code_text() == "repository_not_ready"@,
        rejection is AlreadyRunning || rejection is RunningBackupDeferred ==> rejection.code_text() == "already_running"@,
        rejection is NotRunning ==> rejection.code_text() == "not_running"@,
        rejection is InvalidDeferral ==> rejection.code_text() == "invalid_deferral"@,
        rejection is ServiceStopping ==> rejection.code_text() == "service_stopping"@,
        rejection is RepositoryNotConfigured ==> rejection.code_text() == "repository_not_configured"@,
        rejection is RepositoryPasswordRequired ==> rejection.code_text() == "repository_password_required"@,
        rejection is InitializationForbidden ==> rejection.code_text() == "append_only_initialization_forbidden"@,
        rejection is UpdatePending || rejection is UpdateAlreadyHeld || rejection is UpdateSettingHeld || rejection is PromptedUpdateHeld || rejection is ConfigurationHeld || rejection is RestoreSettingHeld || rejection is RestoreHeld ==> rejection.code_text() == "update_pending"@,
        rejection is BackupRunningAtTest || rejection is BackupRunningAtUpdate || rejection is InstallWaitsForBackup || rejection is BackupRunningAtRetention || rejection is BackupRunningAtSchedule || rejection is BackupRunningAtSources || rejection is BackupRunningAtRepository || rejection is BackupRunningAtRestore ==> rejection.code_text() == "backup_running"@,
        rejection is RepositoryOperationRunning || rejection is RepositoryRunningAtRetention || rejection is RepositoryRunningAtSchedule || rejection is RepositoryRunningAtRepository ==> rejection.code_text() == "repository_operation_running"@,
        rejection is StateSaveFailed ==> rejection.code_text() == "state_save_failed"@,
        rejection is AutomaticUpdatesEnabled ==> rejection.code_text() == "automatic_updates_enabled"@,
        rejection is InvalidUpdateHold ==> rejection.code_text() == "invalid_update_hold"@,
        rejection is ServiceInstallingUpdate || rejection is UpdateAlreadyInstalling ==> rejection.code_text() == "update_already_running"@,
        rejection is OperationRunning || rejection is InstallWaitsForOperation || rejection is EnrollmentWaits ==> rejection.code_text() == "operation_running"@,
        rejection is UpdateSettingLocked || rejection is RetentionLocked || rejection is ScheduleLocked || rejection is SourcesLocked || rejection is RepositoryLocked || rejection is RestoreLocked ==> rejection.code_text() == "managed_field_locked"@,
        rejection is UpdateSettingSaveFailed || rejection is ConfigurationSaveFailed || rejection is UnmanagedSaveFailed || rejection is RestoreSettingSaveFailed ==> rejection.code_text() == "configuration_save_failed"@,
        rejection is AutomaticUpdatesDisabled ==> rejection.code_text() == "automatic_updates_disabled"@,
        rejection is UpdateMetadataInvalid ==> rejection.code_text() == "update_metadata_invalid"@,
        rejection is RetentionManagedByServer ==> rejection.code_text() == "retention_managed_by_server"@,
        rejection is NoRetentionChanges || rejection is NoScheduleChanges || rejection is NoSourceChanges || rejection is NoRepositoryChanges ==> rejection.code_text() == "no_configuration_changes"@,
        rejection is NetworkSourceUnsupported ==> rejection.code_text() == "unsupported_network_backup_source"@,
        rejection is SourceNamespaceUnsupported ==> rejection.code_text() == "unsupported_backup_source_namespace"@,
        rejection is SourceProtected ==> rejection.code_text() == "protected_backup_source"@,
        rejection is TooManySecretUpdates ==> rejection.code_text() == "too_many_secret_updates"@,
        rejection is DuplicateSecretUpdate ==> rejection.code_text() == "duplicate_secret_update"@,
        rejection is CredentialStoreUnavailable ==> rejection.code_text() == "credential_store_unavailable"@,
        rejection is CredentialSaveFailed ==> rejection.code_text() == "credential_save_failed"@,
        rejection is InvalidBootstrapUrl ==> rejection.code_text() == "invalid_bootstrap_url"@,
        rejection is EnrollmentFailed ==> rejection.code_text() == "enrollment_failed"@,
        rejection is ConfigurationUnavailable ==> rejection.code_text() == "configuration_unavailable"@,
        rejection is ConfigurationInvalid ==> rejection.code_text() == "configuration_invalid"@,
        rejection is RestoreRunningAtSetting || rejection is RestoreRunning ==> rejection.code_text() == "restore_running"@,
        rejection is RestoreDisabled ==> rejection.code_text() == "restore_disabled"@,
        rejection is InvalidRestoreQueryLimit ==> rejection.code_text() == "invalid_restore_query_limit"@,
        rejection is RestoreQueryNotFound ==> rejection.code_text() == "restore_query_not_found"@,
        rejection is InvalidRestoreQueryOffset ==> rejection.code_text() == "invalid_restore_query_offset"@,
        rejection is RestoreQueryEncodingFailed ==> rejection.code_text() == "restore_query_encoding_failed"@,
        rejection is RestoreQueryItemTooLarge ==> rejection.code_text() == "restore_query_item_too_large"@,
        rejection is RestoreQueryNotRunning ==> rejection.code_text() == "restore_query_not_running"@,
        rejection is RestoreOfWholeRoot || rejection is RestorePathInvalid || rejection is RestorePathNotFolder ==> rejection.code_text() == "invalid_restore_path"@,
        rejection is RestoreSnapshotInvalid ==> rejection.code_text() == "invalid_restore_snapshot"@,
        rejection is RestoreDestinationInvalid ==> rejection.code_text() == "invalid_restore_destination"@,
        rejection is RestoreNotRunning ==> rejection.code_text() == "restore_not_running"@,
        rejection is RestoreSnapshotNotAuthorized ==> rejection.code_text() == "restore_snapshot_not_authorized"@,
        rejection is RestorePathNotAuthorized ==> rejection.code_text() == "restore_path_not_authorized"@,
{
}

/// Each refusal is put into words that say what to do about it.
pub proof fn refusals_are_put_into_words(rejection: Rejection)
    ensures
        rejection is AdministratorRequired ==> rejection.message_text() == "Open resticpal as an administrator to change machine backup settings."@,
        rejection is InvalidHistoryLimit ==> rejection.message_text() == "History requests must contain a limit from 1 through 100."@,
        rejection is HistoryUnreadable ==> rejection.message_text() == "Backup history could not be read from local storage."@,
        rejection is HistoryMissing ==> rejection.message_text() == "Backup history storage is not available."@,
        rejection is FailureDetailsUnreadable ==> rejection.message_text() == "Backup failure details could not be read from local storage."@,
        rejection is HistoryRunNotFound ==> rejection.message_text() == "The requested backup history entry does not exist."@,
        rejection is InvalidDiagnosticsLimit ==> rejection.message_text() == "Diagnostics requests must contain a limit from 1 through 200."@,
        rejection is DiagnosticsUnreadable ==> rejection.message_text() == "Operational diagnostics could not be read from local storage."@,
        rejection is DiagnosticsMissing ==> rejection.message_text() == "Operational diagnostics storage is not available."@,
        rejection is SourceDiscoveryFailed ==> rejection.message_text() == "Windows user folders could not be discovered."@,
        rejection is NotConfigured ==> rejection.message_text() == "Configure backup sources and a repository first."@,
        rejection is RepositoryNotReadyToStart ==> rejection.message_text() == "Validate or initialize the repository before starting a backup."@,
        rejection is RepositoryNotReadyToDefer ==> rejection.message_text() == "Validate or initialize the repository before deferring backups."@,
        rejection is RepositoryNotReadyToRestore ==> rejection.message_text() == "Validate the backup repository before browsing or restoring files."@,
        rejection is AlreadyRunning ==> rejection.message_text() == "A backup is already running."@,
        rejection is RunningBackupDeferred ==> rejection.message_text() == "A running backup cannot be deferred."@,
        rejection is NotRunning ==> rejection.message_text() == "There is no running backup to cancel."@,
        rejection is InvalidDeferral ==> rejection.message_text() == "A deferral must be between one minute and 24 hours."@,
        rejection is ServiceStopping ==> rejection.message_text() == "The backup service is stopping. Try again shortly."@,
        rejection is RepositoryNotConfigured ==> rejection.message_text() == "Save a repository URL before testing the connection."@,
        rejection is RepositoryPasswordRequired ==> rejection.message_text() == "Store the repository password before testing the connection."@,
        rejection is InitializationForbidden ==> rejection.message_text() == "Repository creation is disabled in append-only mode."@,
        rejection is UpdatePending ==> rejection.message_text() == "A resticpal update is about to start. Try again after it finishes."@,
        rejection is BackupRunningAtTest ==> rejection.message_text() == "Wait for the active backup to finish before testing its repository."@,
        rejection is RepositoryOperationRunning ==> rejection.message_text() == "A repository operation is already running."@,
        rejection is StateSaveFailed ==> rejection.message_text() == "Repository validation state could not be saved."@,
        rejection is AutomaticUpdatesEnabled ==> rejection.message_text() == "This device's effective policy requires the protected service to install updates silently."@,
        rejection is InvalidUpdateHold ==> rejection.message_text() == "The update hold must be between one and 30 minutes."@,
        rejection is ServiceInstallingUpdate ==> rejection.message_text() == "The protected service is already installing an update."@,
        rejection is UpdateAlreadyHeld ==> rejection.message_text() == "Another update request is already holding backup work."@,
        rejection is BackupRunningAtUpdate ==> rejection.message_text() == "Wait for the active backup to finish before installing the update."@,
        rejection is OperationRunning ==> rejection.message_text() == "Wait for the current repository or management operation to finish."@,
        rejection is UpdateSettingLocked ==> rejection.message_text() == "Automatic update installation is locked by managed policy."@,
        rejection is UpdateSettingHeld ==> rejection.message_text() == "Automatic-update mode cannot change while an update is in progress."@,
        rejection is UpdateSettingSaveFailed ==> rejection.message_text() == "The automatic-update setting could not be saved."@,
        rejection is AutomaticUpdatesDisabled ==> rejection.message_text() == "Automatic update installation is disabled by this device's effective policy."@,
        rejection is UpdateMetadataInvalid ==> rejection.message_text() == "The signed update metadata is invalid or does not describe a newer resticpal MSI."@,
        rejection is UpdateAlreadyInstalling ==> rejection.message_text() == "An update is already being installed."@,
        rejection is PromptedUpdateHeld ==> rejection.message_text() == "A prompted update is already holding backup work."@,
        rejection is InstallWaitsForBackup ==> rejection.message_text() == "The update will be retried after the active backup finishes."@,
        rejection is InstallWaitsForOperation ==> rejection.message_text() == "The update will be retried after the current service operation finishes."@,
        rejection is ConfigurationHeld ==> rejection.message_text() == "Wait for the resticpal update to finish before changing configuration."@,
        rejection is ConfigurationSaveFailed ==> rejection.message_text() == "The local configuration could not be saved."@,
        rejection is RetentionManagedByServer ==> rejection.message_text() == "Retention for an append-only repository is managed by the server."@,
        rejection is NoRetentionChanges ==> rejection.message_text() == "No retention changes were supplied."@,
        rejection is RetentionLocked ==> rejection.message_text() == "One or more retention fields are locked by managed policy."@,
        rejection is BackupRunningAtRetention ==> rejection.message_text() == "Wait for the active backup to finish before changing retention."@,
        rejection is RepositoryRunningAtRetention ==> rejection.message_text() == "Wait for the repository operation to finish before changing retention."@,
        rejection is NoScheduleChanges ==> rejection.message_text() == "No schedule changes were supplied."@,
        rejection is ScheduleLocked ==> rejection.message_text() == "One or more schedule fields are locked by managed policy."@,
        rejection is BackupRunningAtSchedule ==> rejection.message_text() == "Wait for the active backup to finish before changing its schedule."@,
        rejection is RepositoryRunningAtSchedule ==> rejection.message_text() == "Wait for the repository operation to finish before changing the schedule."@,
        rejection is NoSourceChanges ==> rejection.message_text() == "No backup-source changes were supplied."@,
        rejection is SourcesLocked ==> rejection.message_text() == "Backup sources are locked by managed policy."@,
        rejection is NetworkSourceUnsupported ==> rejection.message_text() == "Network folders cannot be used as backup sources yet. Choose a folder on a local Windows drive."@,
        rejection is SourceNamespaceUnsupported ==> rejection.message_text() == "Backup sources must use an ordinary local Windows drive path, without junction or device aliases."@,
        rejection is SourceProtected ==> rejection.message_text() == "The resticpal service-data folder cannot be selected as a backup source."@,
        rejection is BackupRunningAtSources ==> rejection.message_text() == "Wait for the active backup to finish before changing its sources."@,
        rejection is NoRepositoryChanges ==> rejection.message_text() == "No repository changes were supplied."@,
        rejection is RepositoryLocked ==> rejection.message_text() == "One or more repository fields are locked by managed policy."@,
        rejection is TooManySecretUpdates ==> rejection.message_text() == "Too many credential changes were supplied in one request."@,
        rejection is DuplicateSecretUpdate ==> rejection.message_text() == "Each credential may be changed at most once per request."@,
        rejection is CredentialStoreUnavailable ==> rejection.message_text() == "The protected credential store is unavailable."@,
        rejection is BackupRunningAtRepository ==> rejection.message_text() == "Wait for the active backup to finish before changing its repository."@,
        rejection is RepositoryRunningAtRepository ==> rejection.message_text() == "Wait for the repository operation to finish before changing its settings."@,
        rejection is CredentialSaveFailed ==> rejection.message_text() == "A repository credential could not be stored securely."@,
        rejection is InvalidBootstrapUrl ==> rejection.message_text() == "The bootstrap URL is not valid UTF-8."@,
        rejection is EnrollmentWaits ==> rejection.message_text() == "Wait for the current backup, repository, or enrollment operation to finish."@,
        rejection is EnrollmentFailed ==> rejection.message_text() == "Enrollment failed. Check that the one-time URL is current and try again."@,
        rejection is ConfigurationUnavailable ==> rejection.message_text() == "Local configuration storage is unavailable."@,
        rejection is ConfigurationInvalid ==> rejection.message_text() == "The remaining local configuration is invalid."@,
        rejection is UnmanagedSaveFailed ==> rejection.message_text() == "The unmanaged configuration could not be saved."@,
        rejection is RestoreLocked ==> rejection.message_text() == "File restoration is locked by managed policy."@,
        rejection is RestoreRunningAtSetting ==> rejection.message_text() == "Wait for the current recovery operation to finish before changing its setting."@,
        rejection is RestoreSettingHeld ==> rejection.message_text() == "Wait for the resticpal update to finish before changing recovery settings."@,
        rejection is RestoreSettingSaveFailed ==> rejection.message_text() == "The file-restoration setting could not be saved."@,
        rejection is RestoreDisabled ==> rejection.message_text() == "File restoration is disabled by this PC's current settings or managed policy."@,
        rejection is InvalidRestoreQueryLimit ==> rejection.message_text() == "Recovery listings must request between one and 100 results."@,
        rejection is RestoreQueryNotFound ==> rejection.message_text() == "The requested recovery listing has expired or does not exist."@,
        rejection is InvalidRestoreQueryOffset ==> rejection.message_text() == "The recovery listing position is outside its available results."@,
        rejection is RestoreQueryEncodingFailed ==> rejection.message_text() == "The recovery listing could not be encoded safely."@,
        rejection is RestoreQueryItemTooLarge ==> rejection.message_text() == "A recovery listing entry exceeds the safe response size."@,
        rejection is RestoreQueryNotRunning ==> rejection.message_text() == "The requested recovery listing is no longer running."@,
        rejection is RestoreOfWholeRoot ==> rejection.message_text() == "Choose one file or folder rather than the entire repository root."@,
        rejection is RestorePathInvalid ==> rejection.message_text() == "Choose one existing file or folder inside the selected backup."@,
        rejection is RestorePathNotFolder ==> rejection.message_text() == "Only backup folders can be opened in the recovery browser."@,
        rejection is RestoreSnapshotInvalid ==> rejection.message_text() == "Choose an exact backup snapshot from this repository."@,
        rejection is RestoreDestinationInvalid ==> rejection.message_text() == "Choose an existing folder on a local Windows drive."@,
        rejection is RestoreNotRunning ==> rejection.message_text() == "No file restore is currently running."@,
        rejection is BackupRunningAtRestore ==> rejection.message_text() == "Wait for the active backup to finish before browsing or restoring files."@,
        rejection is RestoreRunning ==> rejection.message_text() == "Another backup browsing or file-recovery operation is already running."@,
        rejection is RestoreHeld ==> rejection.message_text() == "Wait for the resticpal update to finish before recovering files."@,
        rejection is RestoreSnapshotNotAuthorized ==> rejection.message_text() == "Choose a backup belonging to this PC from the current snapshot listing."@,
        rejection is RestorePathNotAuthorized ==> rejection.message_text() == "Browse to the selected file or folder before recovering it."@,
{
}

} // verus!

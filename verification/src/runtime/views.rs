//! What an administrator is shown of the configuration.
use super::state::ServiceRuntime;
use crate::config::{
    chars_of, copy_options, copy_texts, lists, options_of, texts_of, ManagementMode, PolicyField,
};
use crate::protocol::{
    BackupSourcesView, ManagementView, RepositoryView, RestoreSettingsView, RetentionView,
    ScheduleView, UpdateSettingsView,
};
use crate::status::copy_text;
use vstd::prelude::*;

verus! {

impl ServiceRuntime {
    pub open spec fn shows_management(self, view: ManagementView) -> bool {
        &&& view.mode == self.local_config.management.mode
        &&& view.enrolled == self.local_config.management.is_enrolled()
        &&& chars_of(view.device_id) == chars_of(self.local_config.management.device_id)
        &&& chars_of(view.manifest_url) == chars_of(self.local_config.management.manifest_url)
    }

    pub fn management_view(&self) -> (view: ManagementView)
        ensures
            self.shows_management(view),
    {
        ManagementView {
            mode: self.local_config.management.mode,
            enrolled: self.local_config.management.enrolled(),
            device_id: copy_text(&self.local_config.management.device_id),
            manifest_url: copy_text(&self.local_config.management.manifest_url),
        }
    }

    pub open spec fn shows_sources(self, view: BackupSourcesView) -> bool {
        &&& texts_of(view.paths@) == self.config@.paths
        &&& texts_of(view.exclusions@) == self.config@.exclusions
        &&& view.paths_locked == self.locked(PolicyField::BackupPaths)
        &&& view.exclusions_locked == self.locked(PolicyField::BackupExclusions)
    }

    pub fn backup_sources_view(&self) -> (view: BackupSourcesView)
        ensures
            self.shows_sources(view),
    {
        BackupSourcesView {
            paths: copy_texts(&self.config.backup.paths),
            exclusions: copy_texts(&self.config.backup.exclusions),
            paths_locked: self.field_locked(PolicyField::BackupPaths),
            exclusions_locked: self.field_locked(PolicyField::BackupExclusions),
        }
    }

    /// The credentials of an enrolled machine belong to its server.
    pub open spec fn secrets_are_locked(self) -> bool {
        self.locked(PolicyField::RepositorySecretRefs)
            || self.local_config.management.is_enrolled()
    }

    pub fn repository_secrets_locked(&self) -> (locked: bool)
        ensures
            locked == self.secrets_are_locked(),
    {
        self.field_locked(PolicyField::RepositorySecretRefs)
            || self.local_config.management.enrolled()
    }

    /// The view names the credentials that are stored, and never what they hold.
    pub open spec fn shows_repository(self, view: RepositoryView) -> bool {
        &&& chars_of(view.display_name) == self.config@.display_name
        &&& chars_of(view.url) == self.config@.url
        &&& view.mode == self.config.repository.mode
        &&& options_of(view.options@) == self.config@.options
        &&& lists(view.configured_secrets@, self.config@.secret_refs)
        &&& view.operation_status == self.state.repository_operation
        &&& view.display_name_locked == self.locked(PolicyField::RepositoryDisplayName)
        &&& view.url_locked == self.locked(PolicyField::RepositoryUrl)
        &&& view.mode_locked == self.locked(PolicyField::RepositoryMode)
        &&& view.options_locked == self.locked(PolicyField::RepositoryOptions)
        &&& view.secrets_locked == self.secrets_are_locked()
    }

    pub fn repository_view(&self) -> (view: RepositoryView)
        ensures
            self.shows_repository(view),
    {
        RepositoryView {
            display_name: copy_text(&self.config.repository.display_name),
            url: copy_text(&self.config.repository.url),
            mode: self.config.repository.mode,
            options: copy_options(&self.config.repository.options),
            configured_secrets: self.config.repository.secret_refs.keys(),
            operation_status: self.state.repository_operation.clone(),
            display_name_locked: self.field_locked(PolicyField::RepositoryDisplayName),
            url_locked: self.field_locked(PolicyField::RepositoryUrl),
            mode_locked: self.field_locked(PolicyField::RepositoryMode),
            options_locked: self.field_locked(PolicyField::RepositoryOptions),
            secrets_locked: self.repository_secrets_locked(),
        }
    }

    pub open spec fn shows_schedule(self, view: ScheduleView) -> bool {
        view == (ScheduleView {
            interval_hours: self.config.schedule.interval_hours,
            wake_grace_seconds: self.config.schedule.wake_grace_seconds,
            wake_lock_timeout_seconds: self.config.schedule.wake_lock_timeout_seconds,
            allow_on_battery: self.config.schedule.allow_on_battery,
            allow_metered_network: self.config.schedule.allow_metered_network,
            interval_hours_locked: self.locked(PolicyField::ScheduleIntervalHours),
            wake_grace_seconds_locked: self.locked(PolicyField::ScheduleWakeGraceSeconds),
            wake_lock_timeout_seconds_locked: self.locked(
                PolicyField::ScheduleWakeLockTimeoutSeconds,
            ),
            allow_on_battery_locked: self.locked(PolicyField::ScheduleAllowOnBattery),
            allow_metered_network_locked: self.locked(PolicyField::ScheduleAllowMeteredNetwork),
        })
    }

    pub fn schedule_view(&self) -> (view: ScheduleView)
        ensures
            self.shows_schedule(view),
    {
        ScheduleView {
            interval_hours: self.config.schedule.interval_hours,
            wake_grace_seconds: self.config.schedule.wake_grace_seconds,
            wake_lock_timeout_seconds: self.config.schedule.wake_lock_timeout_seconds,
            allow_on_battery: self.config.schedule.allow_on_battery,
            allow_metered_network: self.config.schedule.allow_metered_network,
            interval_hours_locked: self.field_locked(PolicyField::ScheduleIntervalHours),
            wake_grace_seconds_locked: self.field_locked(PolicyField::ScheduleWakeGraceSeconds),
            wake_lock_timeout_seconds_locked: self.field_locked(
                PolicyField::ScheduleWakeLockTimeoutSeconds,
            ),
            allow_on_battery_locked: self.field_locked(PolicyField::ScheduleAllowOnBattery),
            allow_metered_network_locked: self.field_locked(
                PolicyField::ScheduleAllowMeteredNetwork,
            ),
        }
    }

    pub open spec fn shows_retention(self, view: RetentionView) -> bool {
        view == (RetentionView {
            repository_mode: self.config.repository.mode,
            daily: self.config.retention.daily,
            weekly: self.config.retention.weekly,
            monthly: self.config.retention.monthly,
            yearly: self.config.retention.yearly,
            prune_interval_days: self.config.retention.prune_interval_days,
            daily_locked: self.locked(PolicyField::RetentionDaily),
            weekly_locked: self.locked(PolicyField::RetentionWeekly),
            monthly_locked: self.locked(PolicyField::RetentionMonthly),
            yearly_locked: self.locked(PolicyField::RetentionYearly),
            prune_interval_days_locked: self.locked(PolicyField::RetentionPruneIntervalDays),
            last_retention: self.state.service_state.last_retention,
            last_prune: self.state.service_state.last_prune,
            last_error: self.state.service_state.last_retention_error,
        })
    }

    pub fn retention_view(&self) -> (view: RetentionView)
        ensures
            self.shows_retention(view),
    {
        RetentionView {
            repository_mode: self.config.repository.mode,
            daily: self.config.retention.daily,
            weekly: self.config.retention.weekly,
            monthly: self.config.retention.monthly,
            yearly: self.config.retention.yearly,
            prune_interval_days: self.config.retention.prune_interval_days,
            daily_locked: self.field_locked(PolicyField::RetentionDaily),
            weekly_locked: self.field_locked(PolicyField::RetentionWeekly),
            monthly_locked: self.field_locked(PolicyField::RetentionMonthly),
            yearly_locked: self.field_locked(PolicyField::RetentionYearly),
            prune_interval_days_locked: self.field_locked(PolicyField::RetentionPruneIntervalDays),
            last_retention: self.state.service_state.last_retention,
            last_prune: self.state.service_state.last_prune,
            last_error: copy_text(&self.state.service_state.last_retention_error),
        }
    }

    pub open spec fn shows_update_settings(self, view: UpdateSettingsView) -> bool {
        view == (UpdateSettingsView {
            automatic_install: self.config.updates.automatic_install,
            automatic_install_locked: self.locked(PolicyField::UpdateAutomaticInstall),
        })
    }

    pub fn update_settings_view(&self) -> (view: UpdateSettingsView)
        ensures
            self.shows_update_settings(view),
    {
        UpdateSettingsView {
            automatic_install: self.config.updates.automatic_install,
            automatic_install_locked: self.field_locked(PolicyField::UpdateAutomaticInstall),
        }
    }

    pub open spec fn shows_restore_settings(self, view: RestoreSettingsView) -> bool {
        view == (RestoreSettingsView {
            enabled: self.config.restore.enabled,
            enabled_locked: self.locked(PolicyField::RestoreEnabled),
            managed: !(self.local_config.management.mode is Disabled),
        })
    }

    pub fn restore_settings_view(&self) -> (view: RestoreSettingsView)
        ensures
            self.shows_restore_settings(view),
    {
        RestoreSettingsView {
            enabled: self.config.restore.enabled,
            enabled_locked: self.field_locked(PolicyField::RestoreEnabled),
            managed: self.local_config.management.mode != ManagementMode::Disabled,
        }
    }
}

} // verus!

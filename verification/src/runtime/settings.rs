//! Changes of the configuration that an administrator asks for. Each is first
//! planned, then admitted once the host has validated it, and takes effect when
//! the host has saved it.
use super::events::RuntimeEvent;
use super::restore::{clear_sensitive_restore_state, forgets_restores};
use super::state::{apply_configuration_status, configured_state, RuntimeState, ServiceRuntime};
use crate::config::{
    copy_texts, texts_of, EffectiveConfig, EffectiveConfigView, LocalConfig, LocalConfigView,
    LocalRetentionConfig, LocalScheduleConfig, PolicyField, RestoreConfig, RetentionConfig,
    ScheduleConfig, UpdateConfig,
};
use crate::executor::InvocationError;
use crate::protocol::{
    accepted, rejected, rejected_with, ClientIdentity, ResponsePayload, RetentionUpdate,
    ScheduleUpdate,
};
use crate::rejection::Rejection;
use crate::sources::{
    deduplicate_exclusions, deduplicate_paths, distinct_exclusions, distinct_paths, sources_error,
    validate_backup_source_paths, CheckedSource,
};
use crate::status::RepositoryMode;
use vstd::prelude::*;

verus! {

/// What a change is about.
#[derive(Debug, Clone, Copy, PartialEq, Eq, Structural)]
pub enum ChangeKind {
    Sources,
    Schedule,
    Retention,
    Updates { automatic_install: bool },
    Restore { enabled: bool },
}

impl ChangeKind {
    /// A switch has only valid positions; anything else has to be validated.
    pub open spec fn is_validated(self) -> bool {
        self is Sources || self is Schedule || self is Retention
    }

    /// The code under which an invalid value is turned down.
    pub open spec fn invalid_code(self) -> Seq<char>
        recommends
            self.is_validated(),
    {
        match self {
            ChangeKind::Sources => "invalid_backup_sources"@,
            ChangeKind::Schedule => "invalid_schedule"@,
            _ => "invalid_retention"@,
        }
    }

    fn invalid(&self) -> (code: &'static str)
        requires
            self.is_validated(),
        ensures
            code@ == self.invalid_code(),
    {
        match self {
            ChangeKind::Sources => "invalid_backup_sources",
            ChangeKind::Schedule => "invalid_schedule",
            _ => "invalid_retention",
        }
    }

    pub open spec fn accepted_text(self) -> Seq<char> {
        match self {
            ChangeKind::Sources => "Backup sources updated."@,
            ChangeKind::Schedule => "Backup schedule updated."@,
            ChangeKind::Retention => "Retention policy updated."@,
            ChangeKind::Updates { automatic_install } => if automatic_install {
                "Signed resticpal updates will install automatically in the background."@
            } else {
                "resticpal will ask before installing updates."@
            },
            ChangeKind::Restore { enabled } => if enabled {
                "Administrators can browse backups and restore files on this PC."@
            } else {
                "File restoration is disabled on this PC."@
            },
        }
    }

    fn accepted_message(&self) -> (message: &'static str)
        ensures
            message@ == self.accepted_text(),
    {
        match self {
            ChangeKind::Sources => "Backup sources updated.",
            ChangeKind::Schedule => "Backup schedule updated.",
            ChangeKind::Retention => "Retention policy updated.",
            ChangeKind::Updates { automatic_install } => if *automatic_install {
                "Signed resticpal updates will install automatically in the background."
            } else {
                "resticpal will ask before installing updates."
            },
            ChangeKind::Restore { enabled } => if *enabled {
                "Administrators can browse backups and restore files on this PC."
            } else {
                "File restoration is disabled on this PC."
            },
        }
    }

    pub open spec fn save_failure(self) -> Rejection {
        match self {
            ChangeKind::Updates { .. } => Rejection::UpdateSettingSaveFailed,
            ChangeKind::Restore { .. } => Rejection::RestoreSettingSaveFailed,
            _ => Rejection::ConfigurationSaveFailed,
        }
    }

    fn save_rejection(&self) -> (rejection: Rejection)
        ensures
            rejection == self.save_failure(),
    {
        match self {
            ChangeKind::Updates { .. } => Rejection::UpdateSettingSaveFailed,
            ChangeKind::Restore { .. } => Rejection::RestoreSettingSaveFailed,
            _ => Rejection::ConfigurationSaveFailed,
        }
    }
}

/// A change that was planned: both configurations as they would be.
pub struct ConfigurationChange {
    pub kind: ChangeKind,
    pub local: LocalConfig,
    pub effective: EffectiveConfig,
}

/// What is sent back, and what the event loop is told.
pub struct Reply {
    pub payload: ResponsePayload,
    pub event: Option<RuntimeEvent>,
}

/// `value` where there is one, and `fallback` else.
pub open spec fn or_else<T>(value: Option<T>, fallback: Option<T>) -> Option<T> {
    if value is Some {
        value
    } else {
        fallback
    }
}

pub open spec fn value_or<T>(value: Option<T>, fallback: T) -> T {
    match value {
        Some(value) => value,
        None => fallback,
    }
}

impl RetentionUpdate {
    pub open spec fn changes_nothing(self) -> bool {
        &&& self.daily is None
        &&& self.weekly is None
        &&& self.monthly is None
        &&& self.yearly is None
        &&& self.prune_interval_days is None
    }

    /// The administrator's settings with this change.
    pub open spec fn over_local(self, local: LocalRetentionConfig) -> LocalRetentionConfig {
        LocalRetentionConfig {
            daily: or_else(self.daily, local.daily),
            weekly: or_else(self.weekly, local.weekly),
            monthly: or_else(self.monthly, local.monthly),
            yearly: or_else(self.yearly, local.yearly),
            prune_interval_days: or_else(self.prune_interval_days, local.prune_interval_days),
        }
    }

    /// The settings in effect with this change.
    pub open spec fn over_effective(self, effective: RetentionConfig) -> RetentionConfig {
        RetentionConfig {
            daily: value_or(self.daily, effective.daily),
            weekly: value_or(self.weekly, effective.weekly),
            monthly: value_or(self.monthly, effective.monthly),
            yearly: value_or(self.yearly, effective.yearly),
            prune_interval_days: value_or(self.prune_interval_days, effective.prune_interval_days),
        }
    }
}

impl ScheduleUpdate {
    pub open spec fn changes_nothing(self) -> bool {
        &&& self.interval_hours is None
        &&& self.wake_grace_seconds is None
        &&& self.wake_lock_timeout_seconds is None
        &&& self.allow_on_battery is None
        &&& self.allow_metered_network is None
    }

    pub open spec fn over_local(self, local: LocalScheduleConfig) -> LocalScheduleConfig {
        LocalScheduleConfig {
            interval_hours: or_else(self.interval_hours, local.interval_hours),
            wake_grace_seconds: or_else(self.wake_grace_seconds, local.wake_grace_seconds),
            wake_lock_timeout_seconds: or_else(
                self.wake_lock_timeout_seconds,
                local.wake_lock_timeout_seconds,
            ),
            allow_on_battery: or_else(self.allow_on_battery, local.allow_on_battery),
            allow_metered_network: or_else(self.allow_metered_network, local.allow_metered_network),
        }
    }

    pub open spec fn over_effective(self, effective: ScheduleConfig) -> ScheduleConfig {
        ScheduleConfig {
            interval_hours: value_or(self.interval_hours, effective.interval_hours),
            wake_grace_seconds: value_or(self.wake_grace_seconds, effective.wake_grace_seconds),
            wake_lock_timeout_seconds: value_or(
                self.wake_lock_timeout_seconds,
                effective.wake_lock_timeout_seconds,
            ),
            allow_on_battery: value_or(self.allow_on_battery, effective.allow_on_battery),
            allow_metered_network: value_or(
                self.allow_metered_network,
                effective.allow_metered_network,
            ),
        }
    }
}

impl ServiceRuntime {
    /// `change` asks for these two configurations.
    pub open spec fn plans(
        self,
        change: ConfigurationChange,
        kind: ChangeKind,
        local: LocalConfigView,
        effective: EffectiveConfigView,
    ) -> bool {
        &&& change.kind == kind
        &&& change.local@ == local
        &&& change.effective@ == effective
    }

    /// Whether a change of the retention touches a locked field.
    pub open spec fn locks_retention(self, update: RetentionUpdate) -> bool {
        ||| update.daily is Some && self.locked(PolicyField::RetentionDaily)
        ||| update.weekly is Some && self.locked(PolicyField::RetentionWeekly)
        ||| update.monthly is Some && self.locked(PolicyField::RetentionMonthly)
        ||| update.yearly is Some && self.locked(PolicyField::RetentionYearly)
        ||| update.prune_interval_days is Some && self.locked(
            PolicyField::RetentionPruneIntervalDays,
        )
    }

    /// Why a change of the retention is not even planned.
    pub open spec fn retention_refusal(
        self,
        update: RetentionUpdate,
        identity: ClientIdentity,
        now: i128,
    ) -> Option<Rejection> {
        if !identity.is_elevated_administrator {
            Some(Rejection::AdministratorRequired)
        } else if self.state.update_pending(now) {
            Some(Rejection::ConfigurationHeld)
        } else if self.config.repository.mode is AppendOnly {
            Some(Rejection::RetentionManagedByServer)
        } else if update.changes_nothing() {
            Some(Rejection::NoRetentionChanges)
        } else if self.locks_retention(update) {
            Some(Rejection::RetentionLocked)
        } else {
            None
        }
    }

    pub fn update_retention(
        &self,
        update: RetentionUpdate,
        identity: ClientIdentity,
        now: i128,
    ) -> (planned: Result<ConfigurationChange, ResponsePayload>)
        ensures
            match planned {
                Ok(change) => {
                    &&& self.retention_refusal(update, identity, now) is None
                    &&& self.plans(
                        change,
                        ChangeKind::Retention,
                        LocalConfigView {
                            retention: update.over_local(self.local_config.retention),
                            ..self.local_config@
                        },
                        EffectiveConfigView {
                            retention: update.over_effective(self.config.retention),
                            ..self.config@
                        },
                    )
                    &&& update.daily is Some ==> change.local.retention.daily == update.daily
                        && change.effective.retention.daily == update.daily->0
                    &&& update.daily is None ==> change.local.retention.daily
                        == self.local_config.retention.daily && change.effective.retention.daily
                        == self.config.retention.daily
                    &&& update.weekly is Some ==> change.local.retention.weekly == update.weekly
                        && change.effective.retention.weekly == update.weekly->0
                    &&& update.weekly is None ==> change.local.retention.weekly
                        == self.local_config.retention.weekly && change.effective.retention.weekly
                        == self.config.retention.weekly
                    &&& update.monthly is Some ==> change.local.retention.monthly == update.monthly
                        && change.effective.retention.monthly == update.monthly->0
                    &&& update.monthly is None ==> change.local.retention.monthly
                        == self.local_config.retention.monthly && change.effective.retention.monthly
                        == self.config.retention.monthly
                    &&& update.yearly is Some ==> change.local.retention.yearly == update.yearly
                        && change.effective.retention.yearly == update.yearly->0
                    &&& update.yearly is None ==> change.local.retention.yearly
                        == self.local_config.retention.yearly && change.effective.retention.yearly
                        == self.config.retention.yearly
                    &&& update.prune_interval_days is Some ==> change.local.retention.prune_interval_days == update.prune_interval_days
                        && change.effective.retention.prune_interval_days == update.prune_interval_days->0
                    &&& update.prune_interval_days is None ==> change.local.retention.prune_interval_days
                        == self.local_config.retention.prune_interval_days && change.effective.retention.prune_interval_days
                        == self.config.retention.prune_interval_days
                },
                Err(payload) => {
                    &&& self.retention_refusal(update, identity, now) is Some
                    &&& payload.rejects(self.retention_refusal(update, identity, now)->0)
                },
            },
    {
        if !identity.is_elevated_administrator {
            return Err(rejected(Rejection::AdministratorRequired));
        }
        if self.state.has_pending_update(now) {
            return Err(rejected(Rejection::ConfigurationHeld));
        }
        if self.config.repository.mode == RepositoryMode::AppendOnly {
            return Err(rejected(Rejection::RetentionManagedByServer));
        }
        if update.daily.is_none() && update.weekly.is_none() && update.monthly.is_none()
            && update.yearly.is_none() && update.prune_interval_days.is_none() {
            return Err(rejected(Rejection::NoRetentionChanges));
        }
        if (update.daily.is_some() && self.field_locked(PolicyField::RetentionDaily)) || (
        update.weekly.is_some() && self.field_locked(PolicyField::RetentionWeekly)) || (
        update.monthly.is_some() && self.field_locked(PolicyField::RetentionMonthly)) || (
        update.yearly.is_some() && self.field_locked(PolicyField::RetentionYearly)) || (
        update.prune_interval_days.is_some() && self.field_locked(
            PolicyField::RetentionPruneIntervalDays,
        )) {
            return Err(rejected(Rejection::RetentionLocked));
        }
        let mut local = self.local_config.clone();
        let mut effective = self.config.clone();
        if let Some(value) = update.daily {
            local.retention.daily = Some(value);
            effective.retention.daily = value;
        }
        if let Some(value) = update.weekly {
            local.retention.weekly = Some(value);
            effective.retention.weekly = value;
        }
        if let Some(value) = update.monthly {
            local.retention.monthly = Some(value);
            effective.retention.monthly = value;
        }
        if let Some(value) = update.yearly {
            local.retention.yearly = Some(value);
            effective.retention.yearly = value;
        }
        if let Some(value) = update.prune_interval_days {
            local.retention.prune_interval_days = Some(value);
            effective.retention.prune_interval_days = value;
        }
        Ok(ConfigurationChange { kind: ChangeKind::Retention, local, effective })
    }

    pub open spec fn locks_schedule(self, update: ScheduleUpdate) -> bool {
        ||| update.interval_hours is Some && self.locked(PolicyField::ScheduleIntervalHours)
        ||| update.wake_grace_seconds is Some && self.locked(PolicyField::ScheduleWakeGraceSeconds)
        ||| update.wake_lock_timeout_seconds is Some && self.locked(
            PolicyField::ScheduleWakeLockTimeoutSeconds,
        )
        ||| update.allow_on_battery is Some && self.locked(PolicyField::ScheduleAllowOnBattery)
        ||| update.allow_metered_network is Some && self.locked(
            PolicyField::ScheduleAllowMeteredNetwork,
        )
    }

    /// Why a change of the schedule is not even planned.
    pub open spec fn schedule_refusal(
        self,
        update: ScheduleUpdate,
        identity: ClientIdentity,
        now: i128,
    ) -> Option<Rejection> {
        if !identity.is_elevated_administrator {
            Some(Rejection::AdministratorRequired)
        } else if self.state.update_pending(now) {
            Some(Rejection::ConfigurationHeld)
        } else if update.changes_nothing() {
            Some(Rejection::NoScheduleChanges)
        } else if self.locks_schedule(update) {
            Some(Rejection::ScheduleLocked)
        } else {
            None
        }
    }

    pub fn update_schedule(
        &self,
        update: ScheduleUpdate,
        identity: ClientIdentity,
        now: i128,
    ) -> (planned: Result<ConfigurationChange, ResponsePayload>)
        ensures
            match planned {
                Ok(change) => {
                    &&& self.schedule_refusal(update, identity, now) is None
                    &&& self.plans(
                        change,
                        ChangeKind::Schedule,
                        LocalConfigView {
                            schedule: update.over_local(self.local_config.schedule),
                            ..self.local_config@
                        },
                        EffectiveConfigView {
                            schedule: update.over_effective(self.config.schedule),
                            ..self.config@
                        },
                    )
                    &&& update.interval_hours is Some ==> change.local.schedule.interval_hours == update.interval_hours
                        && change.effective.schedule.interval_hours == update.interval_hours->0
                    &&& update.interval_hours is None ==> change.local.schedule.interval_hours
                        == self.local_config.schedule.interval_hours && change.effective.schedule.interval_hours
                        == self.config.schedule.interval_hours
                    &&& update.wake_grace_seconds is Some ==> change.local.schedule.wake_grace_seconds == update.wake_grace_seconds
                        && change.effective.schedule.wake_grace_seconds == update.wake_grace_seconds->0
                    &&& update.wake_grace_seconds is None ==> change.local.schedule.wake_grace_seconds
                        == self.local_config.schedule.wake_grace_seconds && change.effective.schedule.wake_grace_seconds
                        == self.config.schedule.wake_grace_seconds
                    &&& update.wake_lock_timeout_seconds is Some ==> change.local.schedule.wake_lock_timeout_seconds == update.wake_lock_timeout_seconds
                        && change.effective.schedule.wake_lock_timeout_seconds == update.wake_lock_timeout_seconds->0
                    &&& update.wake_lock_timeout_seconds is None ==> change.local.schedule.wake_lock_timeout_seconds
                        == self.local_config.schedule.wake_lock_timeout_seconds && change.effective.schedule.wake_lock_timeout_seconds
                        == self.config.schedule.wake_lock_timeout_seconds
                    &&& update.allow_on_battery is Some ==> change.local.schedule.allow_on_battery == update.allow_on_battery
                        && change.effective.schedule.allow_on_battery == update.allow_on_battery->0
                    &&& update.allow_on_battery is None ==> change.local.schedule.allow_on_battery
                        == self.local_config.schedule.allow_on_battery && change.effective.schedule.allow_on_battery
                        == self.config.schedule.allow_on_battery
                    &&& update.allow_metered_network is Some ==> change.local.schedule.allow_metered_network == update.allow_metered_network
                        && change.effective.schedule.allow_metered_network == update.allow_metered_network->0
                    &&& update.allow_metered_network is None ==> change.local.schedule.allow_metered_network
                        == self.local_config.schedule.allow_metered_network && change.effective.schedule.allow_metered_network
                        == self.config.schedule.allow_metered_network
                },
                Err(payload) => {
                    &&& self.schedule_refusal(update, identity, now) is Some
                    &&& payload.rejects(self.schedule_refusal(update, identity, now)->0)
                },
            },
    {
        if !identity.is_elevated_administrator {
            return Err(rejected(Rejection::AdministratorRequired));
        }
        if self.state.has_pending_update(now) {
            return Err(rejected(Rejection::ConfigurationHeld));
        }
        if update.interval_hours.is_none() && update.wake_grace_seconds.is_none()
            && update.wake_lock_timeout_seconds.is_none() && update.allow_on_battery.is_none()
            && update.allow_metered_network.is_none() {
            return Err(rejected(Rejection::NoScheduleChanges));
        }
        if (update.interval_hours.is_some() && self.field_locked(
            PolicyField::ScheduleIntervalHours,
        )) || (update.wake_grace_seconds.is_some() && self.field_locked(
            PolicyField::ScheduleWakeGraceSeconds,
        )) || (update.wake_lock_timeout_seconds.is_some() && self.field_locked(
            PolicyField::ScheduleWakeLockTimeoutSeconds,
        )) || (update.allow_on_battery.is_some() && self.field_locked(
            PolicyField::ScheduleAllowOnBattery,
        )) || (update.allow_metered_network.is_some() && self.field_locked(
            PolicyField::ScheduleAllowMeteredNetwork,
        )) {
            return Err(rejected(Rejection::ScheduleLocked));
        }
        let mut local = self.local_config.clone();
        let mut effective = self.config.clone();
        if let Some(value) = update.interval_hours {
            local.schedule.interval_hours = Some(value);
            effective.schedule.interval_hours = value;
        }
        if let Some(value) = update.wake_grace_seconds {
            local.schedule.wake_grace_seconds = Some(value);
            effective.schedule.wake_grace_seconds = value;
        }
        if let Some(value) = update.wake_lock_timeout_seconds {
            local.schedule.wake_lock_timeout_seconds = Some(value);
            effective.schedule.wake_lock_timeout_seconds = value;
        }
        if let Some(value) = update.allow_on_battery {
            local.schedule.allow_on_battery = Some(value);
            effective.schedule.allow_on_battery = value;
        }
        if let Some(value) = update.allow_metered_network {
            local.schedule.allow_metered_network = Some(value);
            effective.schedule.allow_metered_network = value;
        }
        Ok(ConfigurationChange { kind: ChangeKind::Schedule, local, effective })
    }

    /// Why a change of the sources is not even planned.
    pub open spec fn sources_refusal(
        self,
        changes_paths: bool,
        changes_exclusions: bool,
        identity: ClientIdentity,
        now: i128,
    ) -> Option<Rejection> {
        if !identity.is_elevated_administrator {
            Some(Rejection::AdministratorRequired)
        } else if self.state.update_pending(now) {
            Some(Rejection::ConfigurationHeld)
        } else if !changes_paths && !changes_exclusions {
            Some(Rejection::NoSourceChanges)
        } else if changes_paths && self.locked(PolicyField::BackupPaths) || changes_exclusions
            && self.locked(PolicyField::BackupExclusions) {
            Some(Rejection::SourcesLocked)
        } else {
            None
        }
    }

    pub fn update_backup_sources(
        &self,
        paths: Option<Vec<String>>,
        exclusions: Option<Vec<String>>,
        identity: ClientIdentity,
        now: i128,
    ) -> (planned: Result<ConfigurationChange, ResponsePayload>)
        ensures
            ({
                let refusal = self.sources_refusal(
                    paths is Some,
                    exclusions is Some,
                    identity,
                    now,
                );
                match planned {
                    Ok(change) => {
                        &&& refusal is None
                        &&& self.plans(
                            change,
                            ChangeKind::Sources,
                            LocalConfigView {
                                paths: match paths {
                                    Some(paths) => Some(distinct_paths(texts_of(paths@))),
                                    None => self.local_config@.paths,
                                },
                                exclusions: match exclusions {
                                    Some(exclusions) => Some(
                                        distinct_exclusions(texts_of(exclusions@)),
                                    ),
                                    None => self.local_config@.exclusions,
                                },
                                ..self.local_config@
                            },
                            EffectiveConfigView {
                                paths: match paths {
                                    Some(paths) => distinct_paths(texts_of(paths@)),
                                    None => self.config@.paths,
                                },
                                exclusions: match exclusions {
                                    Some(exclusions) => distinct_exclusions(texts_of(exclusions@)),
                                    None => self.config@.exclusions,
                                },
                                ..self.config@
                            },
                        )
                    },
                    Err(payload) => refusal is Some && payload.rejects(refusal->0),
                }
            }),
    {
        if !identity.is_elevated_administrator {
            return Err(rejected(Rejection::AdministratorRequired));
        }
        if self.state.has_pending_update(now) {
            return Err(rejected(Rejection::ConfigurationHeld));
        }
        if paths.is_none() && exclusions.is_none() {
            return Err(rejected(Rejection::NoSourceChanges));
        }
        if (paths.is_some() && self.field_locked(PolicyField::BackupPaths)) || (
        exclusions.is_some() && self.field_locked(PolicyField::BackupExclusions)) {
            return Err(rejected(Rejection::SourcesLocked));
        }
        let mut local = self.local_config.clone();
        let mut effective = self.config.clone();
        if let Some(paths) = &paths {
            let paths = deduplicate_paths(paths);
            local.backup.paths = Some(copy_texts(&paths));
            effective.backup.paths = paths;
        }
        if let Some(exclusions) = &exclusions {
            let exclusions = deduplicate_exclusions(exclusions);
            local.backup.exclusions = Some(copy_texts(&exclusions));
            effective.backup.exclusions = exclusions;
        }
        Ok(ConfigurationChange { kind: ChangeKind::Sources, local, effective })
    }

    /// Why a change of the update setting is not even planned.
    pub open spec fn update_setting_refusal(self, identity: ClientIdentity, now: i128) -> Option<
        Rejection,
    > {
        if !identity.is_elevated_administrator {
            Some(Rejection::AdministratorRequired)
        } else if self.locked(PolicyField::UpdateAutomaticInstall) {
            Some(Rejection::UpdateSettingLocked)
        } else if self.state.update_pending(now) {
            Some(Rejection::UpdateSettingHeld)
        } else {
            None
        }
    }

    pub fn update_update_settings(
        &self,
        automatic_install: bool,
        identity: ClientIdentity,
        now: i128,
    ) -> (planned: Result<ConfigurationChange, ResponsePayload>)
        ensures
            match planned {
                Ok(change) => {
                    &&& self.update_setting_refusal(identity, now) is None
                    &&& self.plans(
                        change,
                        ChangeKind::Updates { automatic_install },
                        LocalConfigView {
                            automatic_install: Some(automatic_install),
                            ..self.local_config@
                        },
                        EffectiveConfigView {
                            updates: UpdateConfig { automatic_install },
                            ..self.config@
                        },
                    )
                },
                Err(payload) => {
                    &&& self.update_setting_refusal(identity, now) is Some
                    &&& payload.rejects(self.update_setting_refusal(identity, now)->0)
                },
            },
    {
        if !identity.is_elevated_administrator {
            return Err(rejected(Rejection::AdministratorRequired));
        }
        if self.field_locked(PolicyField::UpdateAutomaticInstall) {
            return Err(rejected(Rejection::UpdateSettingLocked));
        }
        if self.state.has_pending_update(now) {
            return Err(rejected(Rejection::UpdateSettingHeld));
        }
        let mut local = self.local_config.clone();
        let mut effective = self.config.clone();
        local.updates.automatic_install = Some(automatic_install);
        effective.updates = UpdateConfig { automatic_install };
        Ok(ConfigurationChange { kind: ChangeKind::Updates { automatic_install }, local, effective })
    }

    /// Why a change of the restore setting is not even planned.
    pub open spec fn restore_setting_refusal(self, identity: ClientIdentity, now: i128) -> Option<
        Rejection,
    > {
        if !identity.is_elevated_administrator {
            Some(Rejection::AdministratorRequired)
        } else if self.locked(PolicyField::RestoreEnabled) {
            Some(Rejection::RestoreLocked)
        } else if self.state.restore_operation_active {
            Some(Rejection::RestoreRunningAtSetting)
        } else if self.state.update_pending(now) {
            Some(Rejection::RestoreSettingHeld)
        } else {
            None
        }
    }

    pub fn update_restore_settings(
        &self,
        enabled: bool,
        identity: ClientIdentity,
        now: i128,
    ) -> (planned: Result<ConfigurationChange, ResponsePayload>)
        ensures
            match planned {
                Ok(change) => {
                    &&& self.restore_setting_refusal(identity, now) is None
                    &&& self.plans(
                        change,
                        ChangeKind::Restore { enabled },
                        LocalConfigView { restore_enabled: Some(enabled), ..self.local_config@ },
                        EffectiveConfigView {
                            restore: RestoreConfig { enabled },
                            ..self.config@
                        },
                    )
                },
                Err(payload) => {
                    &&& self.restore_setting_refusal(identity, now) is Some
                    &&& payload.rejects(self.restore_setting_refusal(identity, now)->0)
                },
            },
    {
        if !identity.is_elevated_administrator {
            return Err(rejected(Rejection::AdministratorRequired));
        }
        if self.field_locked(PolicyField::RestoreEnabled) {
            return Err(rejected(Rejection::RestoreLocked));
        }
        if self.state.restore_operation_active {
            return Err(rejected(Rejection::RestoreRunningAtSetting));
        }
        if self.state.has_pending_update(now) {
            return Err(rejected(Rejection::RestoreSettingHeld));
        }
        let mut local = self.local_config.clone();
        let mut effective = self.config.clone();
        local.restore.enabled = Some(enabled);
        effective.restore = RestoreConfig { enabled };
        Ok(ConfigurationChange { kind: ChangeKind::Restore { enabled }, local, effective })
    }

    /// What of the running work keeps a planned change out.
    pub open spec fn change_refusal(self, kind: ChangeKind) -> Option<Rejection> {
        let backup_runs = self.state.status.state is Running;
        let repository_runs = self.state.repository_operation is Running;
        match kind {
            ChangeKind::Sources => if backup_runs {
                Some(Rejection::BackupRunningAtSources)
            } else {
                None
            },
            ChangeKind::Schedule => if backup_runs {
                Some(Rejection::BackupRunningAtSchedule)
            } else if repository_runs {
                Some(Rejection::RepositoryRunningAtSchedule)
            } else {
                None
            },
            ChangeKind::Retention => if backup_runs {
                Some(Rejection::BackupRunningAtRetention)
            } else if repository_runs {
                Some(Rejection::RepositoryRunningAtRetention)
            } else {
                None
            },
            _ => None,
        }
    }

    /// Whether a planned change may be saved, once the configuration that it
    /// asks for was validated.
    pub fn admit_change(&self, change: &ConfigurationChange, validation: Result<(), String>) -> (refused:
        Option<ResponsePayload>)
        requires
            change.kind.is_validated(),
        ensures
            match validation {
                Err(reason) => refused is Some && refused->0.rejects_with(
                    change.kind.invalid_code(),
                    reason@,
                ),
                Ok(_) => match self.change_refusal(change.kind) {
                    Some(rejection) => refused is Some && refused->0.rejects(rejection),
                    None => refused is None,
                },
            },
    {
        match validation {
            Err(reason) => return Some(rejected_with(change.kind.invalid(), reason.as_str())),
            Ok(_) => {},
        }
        let backup_runs = self.state.status.state.is_running();
        let repository_runs = self.state.repository_operation.is_running();
        match change.kind {
            ChangeKind::Sources => if backup_runs {
                return Some(rejected(Rejection::BackupRunningAtSources));
            },
            ChangeKind::Schedule => {
                if backup_runs {
                    return Some(rejected(Rejection::BackupRunningAtSchedule));
                }
                if repository_runs {
                    return Some(rejected(Rejection::RepositoryRunningAtSchedule));
                }
            },
            ChangeKind::Retention => {
                if backup_runs {
                    return Some(rejected(Rejection::BackupRunningAtRetention));
                }
                if repository_runs {
                    return Some(rejected(Rejection::RepositoryRunningAtRetention));
                }
            },
            _ => {},
        }
        None
    }

    /// `payload` says why folders cannot be backed up.
    pub open spec fn explains_sources(payload: ResponsePayload, error: InvocationError) -> bool {
        match error {
            InvocationError::UnsupportedNetworkBackupSource => payload.rejects(
                Rejection::NetworkSourceUnsupported,
            ),
            InvocationError::UnsupportedBackupSourceNamespace => payload.rejects(
                Rejection::SourceNamespaceUnsupported,
            ),
            InvocationError::ProtectedBackupSource => payload.rejects(Rejection::SourceProtected),
            InvocationError::Invalid { message } => payload.rejects_with(
                "invalid_backup_sources"@,
                message@,
            ),
        }
    }

    /// Whether a change of the sources may be saved: its folders are looked at
    /// before its validation is.
    pub fn admit_sources(
        &self,
        change: &ConfigurationChange,
        sources: &Vec<CheckedSource>,
        validation: Result<(), String>,
    ) -> (refused: Option<ResponsePayload>)
        requires
            change.kind is Sources,
        ensures
            match sources_error(sources@) {
                Some(error) => refused is Some && Self::explains_sources(refused->0, error),
                None => match validation {
                    Err(reason) => refused is Some && refused->0.rejects_with(
                        change.kind.invalid_code(),
                        reason@,
                    ),
                    Ok(_) => match self.change_refusal(change.kind) {
                        Some(rejection) => refused is Some && refused->0.rejects(rejection),
                        None => refused is None,
                    },
                },
            },
    {
        match validate_backup_source_paths(sources) {
            Ok(_) => self.admit_change(change, validation),
            Err(error) => Some(
                match error {
                    InvocationError::UnsupportedNetworkBackupSource => rejected(
                        Rejection::NetworkSourceUnsupported,
                    ),
                    InvocationError::UnsupportedBackupSourceNamespace => rejected(
                        Rejection::SourceNamespaceUnsupported,
                    ),
                    InvocationError::ProtectedBackupSource => rejected(Rejection::SourceProtected),
                    InvocationError::Invalid { message } => rejected_with(
                        "invalid_backup_sources",
                        message.as_str(),
                    ),
                },
            ),
        }
    }

    /// The state once a change is in effect.
    pub open spec fn state_follows(
        after: RuntimeState,
        before: RuntimeState,
        change: ConfigurationChange,
        now: i128,
    ) -> bool {
        match change.kind {
            ChangeKind::Sources | ChangeKind::Schedule => after == configured_state(
                before,
                change.effective,
                now,
            ),
            ChangeKind::Restore { enabled } => if enabled {
                after == before
            } else {
                forgets_restores(after, before)
            },
            _ => after == before,
        }
    }

    /// Puts a change into effect that was saved, where there is a file to save
    /// it to. A change that could not be saved changes nothing.
    pub fn commit_change(&mut self, change: ConfigurationChange, saved: bool, now: i128) -> (reply:
        Reply)
        requires
            old(self).well_formed(),
        ensures
            final(self).well_formed(),
            final(self).stores == old(self).stores,
            final(self).field_resolutions == old(self).field_resolutions,
            !saved ==> {
                &&& *final(self) == *old(self)
                &&& reply.payload.rejects(change.kind.save_failure())
                &&& reply.event is None
            },
            saved ==> {
                &&& final(self).config == change.effective
                &&& final(self).local_config == change.local
                &&& Self::state_follows(final(self).state, old(self).state, change, now)
                &&& reply.payload.accepts(change.kind.accepted_text())
                &&& reply.event == (if change.kind is Updates {
                    None
                } else {
                    Some(RuntimeEvent::ConfigurationChanged)
                })
            },
    {
        if !saved {
            return Reply { payload: rejected(change.kind.save_rejection()), event: None };
        }
        let kind = change.kind;
        match kind {
            ChangeKind::Sources | ChangeKind::Schedule => {
                apply_configuration_status(&mut self.state, &change.effective, now);
            },
            ChangeKind::Restore { enabled } => {
                if !enabled {
                    clear_sensitive_restore_state(&mut self.state);
                }
            },
            _ => {},
        }
        self.local_config = change.local;
        self.config = change.effective;
        Reply {
            payload: accepted(kind.accepted_message()),
            event: match kind {
                ChangeKind::Updates { .. } => None,
                _ => Some(RuntimeEvent::ConfigurationChanged),
            },
        }
    }
}

/// Whoever is not an administrator changes nothing.
pub proof fn only_administrators_change_settings(
    runtime: ServiceRuntime,
    retention: RetentionUpdate,
    schedule: ScheduleUpdate,
    changes_paths: bool,
    changes_exclusions: bool,
    now: i128,
)
    ensures
        ({
            let user = ClientIdentity { is_elevated_administrator: false };
            let refusal = Some(Rejection::AdministratorRequired);
            &&& runtime.retention_refusal(retention, user, now) == refusal
            &&& runtime.schedule_refusal(schedule, user, now) == refusal
            &&& runtime.sources_refusal(changes_paths, changes_exclusions, user, now) == refusal
            &&& runtime.update_setting_refusal(user, now) == refusal
            &&& runtime.restore_setting_refusal(user, now) == refusal
        }),
{
}

/// While an update is about to run or runs, no setting changes.
pub proof fn a_pending_update_holds_every_setting(
    runtime: ServiceRuntime,
    retention: RetentionUpdate,
    schedule: ScheduleUpdate,
    changes_paths: bool,
    changes_exclusions: bool,
    identity: ClientIdentity,
    now: i128,
)
    requires
        runtime.state.update_pending(now),
    ensures
        runtime.retention_refusal(retention, identity, now) is Some,
        runtime.schedule_refusal(schedule, identity, now) is Some,
        runtime.sources_refusal(changes_paths, changes_exclusions, identity, now) is Some,
        runtime.update_setting_refusal(identity, now) is Some,
        runtime.restore_setting_refusal(identity, now) is Some,
{
}

/// A field that policy locks keeps its value, whoever asks.
pub proof fn a_locked_field_is_never_changed(
    runtime: ServiceRuntime,
    retention: RetentionUpdate,
    schedule: ScheduleUpdate,
    changes_paths: bool,
    changes_exclusions: bool,
    identity: ClientIdentity,
    now: i128,
)
    ensures
        runtime.locks_retention(retention) ==> runtime.retention_refusal(
            retention,
            identity,
            now,
        ) is Some,
        runtime.locks_schedule(schedule) ==> runtime.schedule_refusal(
            schedule,
            identity,
            now,
        ) is Some,
        changes_paths && runtime.locked(PolicyField::BackupPaths) ==> runtime.sources_refusal(
            changes_paths,
            changes_exclusions,
            identity,
            now,
        ) is Some,
        changes_exclusions && runtime.locked(PolicyField::BackupExclusions) ==> runtime.sources_refusal(
            changes_paths,
            changes_exclusions,
            identity,
            now,
        ) is Some,
        runtime.locked(PolicyField::UpdateAutomaticInstall) ==> runtime.update_setting_refusal(
            identity,
            now,
        ) is Some,
        runtime.locked(PolicyField::RestoreEnabled) ==> runtime.restore_setting_refusal(
            identity,
            now,
        ) is Some,
{
}

/// An append-only repository is never thinned out from this machine.
pub proof fn an_append_only_retention_is_left_alone(
    runtime: ServiceRuntime,
    update: RetentionUpdate,
    identity: ClientIdentity,
    now: i128,
)
    requires
        runtime.config.repository.mode is AppendOnly,
    ensures
        runtime.retention_refusal(update, identity, now) is Some,
{
}

} // verus!

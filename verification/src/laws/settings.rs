//! What a change of the settings does, and when it is refused.
use crate::config::{
    LocalRetentionConfig, LocalScheduleConfig, PolicyField, RetentionConfig,
    ScheduleConfig,
};
use crate::protocol::{ClientIdentity, RetentionUpdate, ScheduleUpdate};
use crate::rejection::Rejection;
use crate::runtime::settings::{ChangeKind, ConfigurationChange};
use crate::runtime::state::{RuntimeState, ServiceRuntime};
use crate::status::RepositoryMode;
use vstd::prelude::*;

verus! {

/// `after` is the value that `update` names, and `before` where it names none.
pub open spec fn is_set<T>(after: T, before: T, update: Option<T>) -> bool {
    &&& update is Some ==> update == Some(after)
    &&& update is None ==> after == before
}

/// The same of a setting that may be left to the defaults.
pub open spec fn is_chosen<T>(after: Option<T>, before: Option<T>, update: Option<T>) -> bool {
    &&& update is Some ==> after == update
    &&& update is None ==> after == before
}

/// A change of the retention sets each number that it names, and no other.
pub proof fn a_retention_change_sets_what_it_names(
    update: RetentionUpdate,
    local: LocalRetentionConfig,
    effective: RetentionConfig,
)
    ensures
        is_set(update.over_effective(effective).daily, effective.daily, update.daily),
        is_set(update.over_effective(effective).weekly, effective.weekly, update.weekly),
        is_set(update.over_effective(effective).monthly, effective.monthly, update.monthly),
        is_set(update.over_effective(effective).yearly, effective.yearly, update.yearly),
        is_set(
            update.over_effective(effective).prune_interval_days,
            effective.prune_interval_days,
            update.prune_interval_days,
        ),
        is_chosen(update.over_local(local).daily, local.daily, update.daily),
        is_chosen(update.over_local(local).weekly, local.weekly, update.weekly),
        is_chosen(update.over_local(local).monthly, local.monthly, update.monthly),
        is_chosen(update.over_local(local).yearly, local.yearly, update.yearly),
        is_chosen(
            update.over_local(local).prune_interval_days,
            local.prune_interval_days,
            update.prune_interval_days,
        ),
{
}

/// A change of the schedule sets each setting that it names, and no other.
pub proof fn a_schedule_change_sets_what_it_names(
    update: ScheduleUpdate,
    local: LocalScheduleConfig,
    effective: ScheduleConfig,
)
    ensures
        is_set(
            update.over_effective(effective).interval_hours,
            effective.interval_hours,
            update.interval_hours,
        ),
        is_set(
            update.over_effective(effective).wake_grace_seconds,
            effective.wake_grace_seconds,
            update.wake_grace_seconds,
        ),
        is_set(
            update.over_effective(effective).wake_lock_timeout_seconds,
            effective.wake_lock_timeout_seconds,
            update.wake_lock_timeout_seconds,
        ),
        is_set(
            update.over_effective(effective).allow_on_battery,
            effective.allow_on_battery,
            update.allow_on_battery,
        ),
        is_set(
            update.over_effective(effective).allow_metered_network,
            effective.allow_metered_network,
            update.allow_metered_network,
        ),
        is_chosen(update.over_local(local).interval_hours, local.interval_hours, update.interval_hours),
        is_chosen(
            update.over_local(local).wake_grace_seconds,
            local.wake_grace_seconds,
            update.wake_grace_seconds,
        ),
        is_chosen(
            update.over_local(local).wake_lock_timeout_seconds,
            local.wake_lock_timeout_seconds,
            update.wake_lock_timeout_seconds,
        ),
        is_chosen(
            update.over_local(local).allow_on_battery,
            local.allow_on_battery,
            update.allow_on_battery,
        ),
        is_chosen(
            update.over_local(local).allow_metered_network,
            local.allow_metered_network,
            update.allow_metered_network,
        ),
{
}

/// A change is planned only as it was asked for, and as a change of its kind.
pub proof fn a_plan_is_what_was_asked_for(
    runtime: ServiceRuntime,
    change: ConfigurationChange,
    kind: ChangeKind,
    local: crate::config::LocalConfigView,
    effective: crate::config::EffectiveConfigView,
)
    requires
        runtime.plans(change, kind, local, effective),
    ensures
        change.kind == kind,
        change.local@ == local,
        change.effective@ == effective,
        change.effective.retention == effective.retention,
        change.effective.schedule == effective.schedule,
        change.effective.updates == effective.updates,
        change.effective.restore == effective.restore,
        change.local.retention == local.retention,
        change.local.schedule == local.schedule,
        change.local.updates.automatic_install == local.automatic_install,
        change.local.restore.enabled == local.restore_enabled,
{
}

/// Policy locks a setting where one of its entries for that very setting does.
pub proof fn a_lock_is_for_its_own_setting(runtime: ServiceRuntime, field: PolicyField)
    ensures
        runtime.locked(field) <==> exists|i: int|
            0 <= i < runtime.field_resolutions@.len() && (
            #[trigger] runtime.field_resolutions@[i]).0 == field
                && runtime.field_resolutions@[i].1.locked,
{
}

/// The retention is changed for an administrator where no update is pending, the
/// repository lets data be removed, and each number that is named is free.
pub proof fn when_the_retention_may_change(
    runtime: ServiceRuntime,
    update: RetentionUpdate,
    identity: ClientIdentity,
    now: i128,
)
    ensures
        runtime.retention_refusal(update, identity, now) is None <==> {
            &&& identity.is_elevated_administrator
            &&& !runtime.state.update_pending(now)
            &&& runtime.config.repository.mode == RepositoryMode::Standard
            &&& {
                ||| update.daily is Some
                ||| update.weekly is Some
                ||| update.monthly is Some
                ||| update.yearly is Some
                ||| update.prune_interval_days is Some
            }
            &&& update.daily is Some ==> !runtime.locked(PolicyField::RetentionDaily)
            &&& update.weekly is Some ==> !runtime.locked(PolicyField::RetentionWeekly)
            &&& update.monthly is Some ==> !runtime.locked(PolicyField::RetentionMonthly)
            &&& update.yearly is Some ==> !runtime.locked(PolicyField::RetentionYearly)
            &&& update.prune_interval_days is Some ==> !runtime.locked(
                PolicyField::RetentionPruneIntervalDays,
            )
        },
        runtime.retention_refusal(update, identity, now) is Some
            && identity.is_elevated_administrator && !runtime.state.update_pending(now) ==> {
            let refusal = runtime.retention_refusal(update, identity, now)->0;
            &&& refusal == Rejection::RetentionManagedByServer
                <==> runtime.config.repository.mode is AppendOnly
            &&& refusal == Rejection::NoRetentionChanges ==> update.daily is None
                && update.weekly is None && update.monthly is None && update.yearly is None
                && update.prune_interval_days is None
            &&& refusal == Rejection::RetentionManagedByServer || refusal
                == Rejection::NoRetentionChanges || refusal == Rejection::RetentionLocked
        },
{
}

/// The schedule is changed for an administrator where no update is pending and
/// each setting that is named is free.
pub proof fn when_the_schedule_may_change(
    runtime: ServiceRuntime,
    update: ScheduleUpdate,
    identity: ClientIdentity,
    now: i128,
)
    ensures
        runtime.schedule_refusal(update, identity, now) is None <==> {
            &&& identity.is_elevated_administrator
            &&& !runtime.state.update_pending(now)
            &&& {
                ||| update.interval_hours is Some
                ||| update.wake_grace_seconds is Some
                ||| update.wake_lock_timeout_seconds is Some
                ||| update.allow_on_battery is Some
                ||| update.allow_metered_network is Some
            }
            &&& update.interval_hours is Some ==> !runtime.locked(PolicyField::ScheduleIntervalHours)
            &&& update.wake_grace_seconds is Some ==> !runtime.locked(
                PolicyField::ScheduleWakeGraceSeconds,
            )
            &&& update.wake_lock_timeout_seconds is Some ==> !runtime.locked(
                PolicyField::ScheduleWakeLockTimeoutSeconds,
            )
            &&& update.allow_on_battery is Some ==> !runtime.locked(
                PolicyField::ScheduleAllowOnBattery,
            )
            &&& update.allow_metered_network is Some ==> !runtime.locked(
                PolicyField::ScheduleAllowMeteredNetwork,
            )
        },
        runtime.schedule_refusal(update, identity, now) is Some && identity.is_elevated_administrator
            && !runtime.state.update_pending(now) ==> {
            let refusal = runtime.schedule_refusal(update, identity, now)->0;
            &&& refusal == Rejection::NoScheduleChanges || refusal == Rejection::ScheduleLocked
            &&& refusal == Rejection::NoScheduleChanges <==> update.interval_hours is None
                && update.wake_grace_seconds is None && update.wake_lock_timeout_seconds is None
                && update.allow_on_battery is None && update.allow_metered_network is None
        },
{
}

/// The sources are changed for an administrator where no update is pending and
/// each of the two lists that is named is free.
pub proof fn when_the_sources_may_change(
    runtime: ServiceRuntime,
    paths: bool,
    exclusions: bool,
    identity: ClientIdentity,
    now: i128,
)
    ensures
        runtime.sources_refusal(paths, exclusions, identity, now) is None <==> {
            &&& identity.is_elevated_administrator
            &&& !runtime.state.update_pending(now)
            &&& paths || exclusions
            &&& paths ==> !runtime.locked(PolicyField::BackupPaths)
            &&& exclusions ==> !runtime.locked(PolicyField::BackupExclusions)
        },
        identity.is_elevated_administrator && !runtime.state.update_pending(now)
            && runtime.sources_refusal(paths, exclusions, identity, now) is Some ==> {
            let refusal = runtime.sources_refusal(paths, exclusions, identity, now)->0;
            &&& refusal == Rejection::NoSourceChanges || refusal == Rejection::SourcesLocked
            &&& refusal == Rejection::NoSourceChanges <==> !paths && !exclusions
        },
{
}

/// Whether updates install by themselves, and whether backups can be browsed,
/// is changed for an administrator where the setting is free and nothing is
/// under way that it would disturb.
pub proof fn when_a_switch_may_change(runtime: ServiceRuntime, identity: ClientIdentity, now: i128)
    ensures
        runtime.update_setting_refusal(identity, now) is None <==> {
            &&& identity.is_elevated_administrator
            &&& !runtime.locked(PolicyField::UpdateAutomaticInstall)
            &&& !runtime.state.update_pending(now)
        },
        runtime.restore_setting_refusal(identity, now) is None <==> {
            &&& identity.is_elevated_administrator
            &&& !runtime.locked(PolicyField::RestoreEnabled)
            &&& !runtime.state.restore_operation_active
            &&& !runtime.state.update_pending(now)
        },
        identity.is_elevated_administrator && runtime.locked(PolicyField::UpdateAutomaticInstall)
            ==> runtime.update_setting_refusal(identity, now) == Some(
            Rejection::UpdateSettingLocked,
        ),
        identity.is_elevated_administrator && runtime.locked(PolicyField::RestoreEnabled)
            ==> runtime.restore_setting_refusal(identity, now) == Some(Rejection::RestoreLocked),
{
}

/// Nobody but an elevated administrator changes a setting.
pub proof fn settings_are_for_administrators(
    runtime: ServiceRuntime,
    retention: RetentionUpdate,
    schedule: ScheduleUpdate,
    paths: bool,
    exclusions: bool,
    identity: ClientIdentity,
    now: i128,
)
    requires
        !identity.is_elevated_administrator,
    ensures
        runtime.retention_refusal(retention, identity, now) == Some(Rejection::AdministratorRequired),
        runtime.schedule_refusal(schedule, identity, now) == Some(Rejection::AdministratorRequired),
        runtime.sources_refusal(paths, exclusions, identity, now) == Some(
            Rejection::AdministratorRequired,
        ),
        runtime.update_setting_refusal(identity, now) == Some(Rejection::AdministratorRequired),
        runtime.restore_setting_refusal(identity, now) == Some(Rejection::AdministratorRequired),
{
}

/// A planned change has to wait for a backup that runs, and the schedule and the
/// retention for an operation on the repository too. The two switches wait for
/// neither.
pub proof fn a_change_waits_for_what_runs(runtime: ServiceRuntime, kind: ChangeKind)
    ensures
        kind is Sources ==> (runtime.change_refusal(kind) is Some
            <==> runtime.state.status.state is Running),
        kind is Schedule || kind is Retention ==> (runtime.change_refusal(kind) is Some <==> {
            ||| runtime.state.status.state is Running
            ||| runtime.state.repository_operation is Running
        }),
        kind is Updates || kind is Restore ==> runtime.change_refusal(kind) is None,
        kind is Schedule && runtime.state.status.state is Running ==> runtime.change_refusal(kind)
            == Some(Rejection::BackupRunningAtSchedule),
        kind is Retention && runtime.state.status.state is Running ==> runtime.change_refusal(kind)
            == Some(Rejection::BackupRunningAtRetention),
        kind is Sources && runtime.state.status.state is Running ==> runtime.change_refusal(kind)
            == Some(Rejection::BackupRunningAtSources),
{
}

/// A change of the retention or of the updates leaves the state alone, and so
/// does switching the recovery browser on. Switching it off forgets what it showed.
pub proof fn what_a_change_does_to_the_state(
    after: RuntimeState,
    before: RuntimeState,
    change: ConfigurationChange,
    now: i128,
)
    requires
        ServiceRuntime::state_follows(after, before, change, now),
    ensures
        change.kind is Retention || change.kind is Updates ==> after == before,
        change.kind matches ChangeKind::Restore { enabled } && enabled ==> after == before,
        change.kind matches ChangeKind::Restore { enabled } && !enabled
            && !before.restore_operation_active ==> {
            &&& after.restore_queries@.dom().len() == 0
            &&& after.authorized_restore_nodes@.dom().len() == 0
            &&& after.active_restore_query is None
        },
        after.service_state == before.service_state,
        after.repository_operation == before.repository_operation,
        after.update_hold_until == before.update_hold_until,
        after.update_install_active == before.update_install_active,
        after.consecutive_failures == before.consecutive_failures,
        after.status.last_success == before.status.last_success,
        after.status.last_attempt == before.status.last_attempt,
{
    assert(Map::<u64, crate::protocol::RestoreQueryView>::empty().dom() =~= Set::empty());
    assert(Map::<
        (Seq<char>, Seq<char>),
        crate::protocol::RestoreNodeType,
    >::empty().dom() =~= Set::empty());
}

/// A change is confirmed, and turned down, in words for that change.
pub proof fn a_change_is_confirmed_in_its_words(kind: ChangeKind)
    ensures
        kind is Sources ==> kind.accepted_text() == "Backup sources updated."@
            && kind.invalid_code() == "invalid_backup_sources"@,
        kind is Schedule ==> kind.accepted_text() == "Backup schedule updated."@
            && kind.invalid_code() == "invalid_schedule"@,
        kind is Retention ==> kind.accepted_text() == "Retention policy updated."@
            && kind.invalid_code() == "invalid_retention"@,
        kind == (ChangeKind::Updates { automatic_install: true }) ==> kind.accepted_text()
            == "Signed resticpal updates will install automatically in the background."@,
        kind == (ChangeKind::Updates { automatic_install: false }) ==> kind.accepted_text()
            == "resticpal will ask before installing updates."@,
        kind == (ChangeKind::Restore { enabled: true }) ==> kind.accepted_text()
            == "Administrators can browse backups and restore files on this PC."@,
        kind == (ChangeKind::Restore { enabled: false }) ==> kind.accepted_text()
            == "File restoration is disabled on this PC."@,
        kind.is_validated() <==> kind is Sources || kind is Schedule || kind is Retention,
        kind is Updates ==> kind.save_failure() == Rejection::UpdateSettingSaveFailed,
        kind is Restore ==> kind.save_failure() == Rejection::RestoreSettingSaveFailed,
        kind is Sources || kind is Schedule || kind is Retention ==> kind.save_failure()
            == Rejection::ConfigurationSaveFailed,
{
}

/// What is wrong with a source is told as that.
pub proof fn what_is_wrong_with_a_source_is_told(
    payload: crate::protocol::ResponsePayload,
    error: crate::executor::InvocationError,
)
    requires
        ServiceRuntime::explains_sources(payload, error),
    ensures
        error is UnsupportedNetworkBackupSource ==> payload.rejects(
            Rejection::NetworkSourceUnsupported,
        ),
        error is UnsupportedBackupSourceNamespace ==> payload.rejects(
            Rejection::SourceNamespaceUnsupported,
        ),
        error is ProtectedBackupSource ==> payload.rejects(Rejection::SourceProtected),
        error is Invalid ==> payload is Rejected && payload->code@ == "invalid_backup_sources"@
            && payload->Rejected_message@ == error->message@,
{
}

} // verus!

//! What the service starts from, what a change of the configuration does to it,
//! and what its views show.
use crate::config::{
    chars_of, lists, EffectiveConfig, EffectiveConfigView, LocalConfig, PolicyField,
    SecretEnvironmentVariable,
};
use crate::protocol::{
    BackupSourcesView, ManagementView, RepositoryOperationKind, RepositoryOperationStatus,
    RepositoryView, RestoreSettingsView, RetentionView, ScheduleView, UpdateSettingsView,
};
use crate::runtime::state::{
    configured_state, starting_operation, starting_status, ResolvedConfig, RuntimeState,
    RuntimeStores, ServiceRuntime, ServiceStateSnapshot, VerifiedRepository,
};
use crate::status::{BackupState, WaitingReason};
use crate::time::{deadline_after, representable};
use vstd::prelude::*;

verus! {

/// An update is pending while it is installed, and as long as it is held for.
pub proof fn when_an_update_is_pending(state: RuntimeState, now: i128, later: i128)
    ensures
        state.update_install_active ==> state.update_pending(now),
        state.update_hold_until is Some && now < state.update_hold_until->0 ==> state.update_pending(
            now,
        ),
        !state.update_install_active && (state.update_hold_until is None
            || state.update_hold_until->0 <= now) ==> !state.update_pending(now),
        now <= later && !state.update_pending(now) ==> !state.update_pending(later),
{
}

/// The service is busy while anything is under way that a change of the
/// management would disturb.
pub proof fn when_the_service_is_busy(state: RuntimeState, now: i128)
    ensures
        state.is_busy(now) <==> {
            ||| state.status.state is Running
            ||| state.repository_operation is Running
            ||| state.management_operation_active
            ||| state.restore_operation_active
            ||| state.update_install_active
            ||| state.update_hold_until is Some && state.update_hold_until->0 > now
        },
{
}

/// Backups run only against a repository whose last operation succeeded.
pub proof fn what_allows_backups(status: RepositoryOperationStatus)
    ensures
        status.allows_backup() <==> status is Succeeded,
        !RepositoryOperationStatus::ValidationRequired.allows_backup(),
        !RepositoryOperationStatus::NotRun.allows_backup(),
        status is Running || status is Failed ==> !status.allows_backup(),
{
}

/// A connection counts as proved where its address, its options and its
/// credentials are those that were proved.
pub proof fn what_a_proof_covers(
    proved: VerifiedRepository,
    memory: ServiceStateSnapshot,
    config: EffectiveConfigView,
)
    requires
        memory.verified_repository == Some(proved),
    ensures
        memory.verifies(config) <==> {
            &&& config.url is Some
            &&& config.url->0 == proved.url@
            &&& config.options == crate::config::options_of(proved.options@)
            &&& config.secret_refs == proved.secret_refs@
        },
        memory.requires_validation(config) <==> config.url is Some && !memory.verifies(config),
{
}

/// Without a proof a configured repository has to be validated; without a
/// repository there is nothing to validate.
pub proof fn without_a_proof(memory: ServiceStateSnapshot, config: EffectiveConfigView)
    ensures
        memory.verified_repository is None ==> (memory.requires_validation(config) <==> config.url
            is Some),
        config.url is None ==> !memory.requires_validation(config) && !memory.verifies(config),
        memory.remembers_nothing() ==> memory.last_success is None && memory.last_retention is None
            && memory.last_prune is None && memory.last_retention_error is None
            && memory.verified_repository is None,
{
}

/// A service starts ready for the repository that it proved before, and asks for
/// a proof of any other.
pub proof fn what_a_service_starts_with(memory: ServiceStateSnapshot, config: EffectiveConfigView)
    ensures
        starting_operation(memory, config).allows_backup() <==> memory.verifies(config),
        memory.verifies(config) ==> starting_operation(memory, config) == (
        RepositoryOperationStatus::Succeeded {
            operation: RepositoryOperationKind::Validate,
            completed_at: memory.verified_repository->0.verified_at,
        }),
        config.url is Some && !memory.verifies(config) ==> starting_operation(memory, config)
            is ValidationRequired,
        config.url is None ==> starting_operation(memory, config) is NotRun,
{
}

/// A service starts idle and due one interval after its last success where it
/// can back up, waits where the repository is not proved, and asks to be set up
/// where sources or a repository are missing.
pub proof fn how_a_service_starts(
    resolved: ResolvedConfig,
    memory: ServiceStateSnapshot,
    now: i128,
)
    ensures
        ({
            let status = starting_status(resolved, memory, now);
            let config = resolved.effective;
            let set_up = config.backup.paths@.len() > 0 && config.repository.url is Some;
            let proved = memory.verifies(config@);
            &&& !set_up <==> status.state is Unconfigured
            &&& set_up && proved <==> status.state is Idle
            &&& set_up && !proved <==> status.state == (BackupState::Waiting {
                reason: WaitingReason::RepositoryValidation,
            })
            &&& status.next_deadline is Some <==> set_up && proved
            &&& set_up && proved ==> status.next_deadline == Some(
                deadline_after(memory.last_success, now, config.schedule.interval_hours),
            )
            &&& status.state_since == now
            &&& status.last_success == memory.last_success
            &&& status.last_attempt is None
            &&& status.progress is None
            &&& status.repository_display_name == config.repository.display_name
            &&& status.repository_mode == config.repository.mode
            &&& status.managed_revision == resolved.managed_revision
        }),
{
}

/// A machine is set up where it has something to back up and somewhere to.
pub proof fn when_a_machine_is_set_up(config: EffectiveConfig)
    ensures
        config.configured() <==> config.backup.paths@.len() > 0 && config.repository.url is Some,
{
}

/// A change of the configuration shows the new name and mode at once. A machine
/// that is not set up has no deadline and nothing pending.
pub proof fn what_a_new_configuration_shows(
    state: RuntimeState,
    config: EffectiveConfig,
    now: i128,
)
    ensures
        ({
            let after = configured_state(state, config, now);
            &&& after.status.repository_display_name == config.repository.display_name
            &&& after.status.repository_mode == config.repository.mode
            &&& after.status.last_success == state.status.last_success
            &&& after.status.last_attempt == state.status.last_attempt
            &&& after.status.managed_revision == state.status.managed_revision
            &&& after.status.progress == state.status.progress
            &&& after.service_state == state.service_state
            &&& after.repository_operation == state.repository_operation
            &&& after.consecutive_failures == state.consecutive_failures
            &&& after.update_hold_until == state.update_hold_until
            &&& after.update_install_active == state.update_install_active
            &&& after.resumed_at == state.resumed_at
            &&& !config.configured() ==> {
                &&& after.status.state is Unconfigured
                &&& after.status.next_deadline is None
                &&& !after.manual_requested
                &&& after.not_before is None
            }
            &&& config.configured() ==> after.manual_requested == state.manual_requested
                && after.not_before == state.not_before && !(after.status.state is Unconfigured)
            &&& config.configured() && !(state.repository_operation is Succeeded) ==> {
                &&& after.status.state == (BackupState::Waiting {
                    reason: WaitingReason::RepositoryValidation,
                })
                &&& after.status.next_deadline is None
            }
        }),
{
}

/// On a machine that can back up the next backup is due one interval after the
/// last success, but not before a wait that is on is over. What it waited for
/// before it could is over.
pub proof fn when_the_next_backup_is_due(
    state: RuntimeState,
    config: EffectiveConfig,
    now: i128,
)
    requires
        config.configured(),
        state.repository_operation is Succeeded,
    ensures
        ({
            let after = configured_state(state, config, now);
            let due = deadline_after(state.status.last_success, now, config.schedule.interval_hours);
            &&& after.status.next_deadline is Some
            &&& after.status.next_deadline->0 >= due
            &&& state.not_before is None ==> after.status.next_deadline->0 == due
            &&& state.not_before is Some ==> {
                &&& after.status.next_deadline->0 >= state.not_before->0
                &&& after.status.next_deadline->0 == due || after.status.next_deadline->0
                    == state.not_before->0
            }
            &&& state.status.state is Unconfigured || state.status.state == (BackupState::Waiting {
                reason: WaitingReason::RepositoryValidation,
            }) ==> after.status.state is Idle && after.status.state_since == now
            &&& !(state.status.state is Unconfigured) && state.status.state != (
            BackupState::Waiting { reason: WaitingReason::RepositoryValidation })
                ==> after.status.state == state.status.state && after.status.state_since
                == state.status.state_since
        }),
{
}

/// The files of the service stand next to its configuration.
pub proof fn where_the_files_stand(stores: RuntimeStores, path: Seq<char>, credentials: bool)
    requires
        stores.stand_beside(path, credentials),
    ensures
        stores.config is Some && stores.config->0@ == path,
        stores.state is Some && stores.state->0@ == crate::paths::beside(path, "state.json"@),
        stores.history is Some && stores.history->0@ == crate::paths::beside(path, "state.db"@),
        stores.diagnostics is Some,
        stores.credentials == credentials,
{
}

/// The schedule that is shown is the one in effect, with the locks of policy.
pub proof fn the_schedule_is_shown(runtime: ServiceRuntime, view: ScheduleView)
    requires
        runtime.shows_schedule(view),
    ensures
        view.interval_hours == runtime.config.schedule.interval_hours,
        view.wake_grace_seconds == runtime.config.schedule.wake_grace_seconds,
        view.wake_lock_timeout_seconds == runtime.config.schedule.wake_lock_timeout_seconds,
        view.allow_on_battery == runtime.config.schedule.allow_on_battery,
        view.allow_metered_network == runtime.config.schedule.allow_metered_network,
        view.interval_hours_locked == runtime.locked(PolicyField::ScheduleIntervalHours),
        view.wake_grace_seconds_locked == runtime.locked(PolicyField::ScheduleWakeGraceSeconds),
        view.wake_lock_timeout_seconds_locked == runtime.locked(
            PolicyField::ScheduleWakeLockTimeoutSeconds,
        ),
        view.allow_on_battery_locked == runtime.locked(PolicyField::ScheduleAllowOnBattery),
        view.allow_metered_network_locked == runtime.locked(
            PolicyField::ScheduleAllowMeteredNetwork,
        ),
{
}

/// The retention that is shown is the one in effect, with its locks and with
/// what became of it last.
pub proof fn the_retention_is_shown(runtime: ServiceRuntime, view: RetentionView)
    requires
        runtime.shows_retention(view),
    ensures
        view.daily == runtime.config.retention.daily,
        view.weekly == runtime.config.retention.weekly,
        view.monthly == runtime.config.retention.monthly,
        view.yearly == runtime.config.retention.yearly,
        view.prune_interval_days == runtime.config.retention.prune_interval_days,
        view.daily_locked == runtime.locked(PolicyField::RetentionDaily),
        view.weekly_locked == runtime.locked(PolicyField::RetentionWeekly),
        view.monthly_locked == runtime.locked(PolicyField::RetentionMonthly),
        view.yearly_locked == runtime.locked(PolicyField::RetentionYearly),
        view.prune_interval_days_locked == runtime.locked(PolicyField::RetentionPruneIntervalDays),
        view.repository_mode == runtime.config.repository.mode,
        view.last_retention == runtime.state.service_state.last_retention,
        view.last_prune == runtime.state.service_state.last_prune,
        view.last_error == runtime.state.service_state.last_retention_error,
{
}

/// The repository is shown with its locks and with the names of its credentials,
/// in their order; joining a server locks the credentials.
pub proof fn the_repository_is_shown(
    runtime: ServiceRuntime,
    view: RepositoryView,
    variable: SecretEnvironmentVariable,
)
    requires
        runtime.shows_repository(view),
    ensures
        chars_of(view.url) == chars_of(runtime.config.repository.url),
        chars_of(view.display_name) == chars_of(runtime.config.repository.display_name),
        view.mode == runtime.config.repository.mode,
        view.operation_status == runtime.state.repository_operation,
        view.configured_secrets@.contains(variable)
            == runtime.config.repository.secret_refs@.contains_key(variable),
        view.display_name_locked == runtime.locked(PolicyField::RepositoryDisplayName),
        view.url_locked == runtime.locked(PolicyField::RepositoryUrl),
        view.mode_locked == runtime.locked(PolicyField::RepositoryMode),
        view.options_locked == runtime.locked(PolicyField::RepositoryOptions),
        view.secrets_locked <==> runtime.locked(PolicyField::RepositorySecretRefs)
            || runtime.local_config.management.is_enrolled(),
{
    assert(runtime.config@.secret_refs.contains_key(variable)
        == runtime.config.repository.secret_refs@.contains_key(variable));
}

/// The sources, the management and the two switches are shown as they are.
pub proof fn the_other_settings_are_shown(
    runtime: ServiceRuntime,
    sources: BackupSourcesView,
    management: ManagementView,
    updates: UpdateSettingsView,
    restore: RestoreSettingsView,
    at: int,
)
    requires
        runtime.shows_sources(sources),
        runtime.shows_management(management),
        runtime.shows_update_settings(updates),
        runtime.shows_restore_settings(restore),
    ensures
        sources.paths@.len() == runtime.config.backup.paths@.len(),
        sources.exclusions@.len() == runtime.config.backup.exclusions@.len(),
        0 <= at < sources.paths@.len() ==> sources.paths@[at]@ == runtime.config.backup.paths@[at]@,
        0 <= at < sources.exclusions@.len() ==> sources.exclusions@[at]@
            == runtime.config.backup.exclusions@[at]@,
        sources.paths_locked == runtime.locked(PolicyField::BackupPaths),
        sources.exclusions_locked == runtime.locked(PolicyField::BackupExclusions),
        management.mode == runtime.local_config.management.mode,
        management.enrolled == runtime.local_config.management.is_enrolled(),
        chars_of(management.device_id) == chars_of(runtime.local_config.management.device_id),
        chars_of(management.manifest_url) == chars_of(runtime.local_config.management.manifest_url),
        updates.automatic_install == runtime.config.updates.automatic_install,
        updates.automatic_install_locked == runtime.locked(PolicyField::UpdateAutomaticInstall),
        restore.enabled == runtime.config.restore.enabled,
        restore.enabled_locked == runtime.locked(PolicyField::RestoreEnabled),
        restore.managed <==> !(runtime.local_config.management.mode is Disabled),
{
    let paths = crate::config::texts_of(sources.paths@);
    let exclusions = crate::config::texts_of(sources.exclusions@);
    assert(paths.len() == sources.paths@.len());
    assert(exclusions.len() == sources.exclusions@.len());
    if 0 <= at < sources.paths@.len() {
        assert(paths[at] == sources.paths@[at]@);
    }
    if 0 <= at < sources.exclusions@.len() {
        assert(exclusions[at] == sources.exclusions@[at]@);
    }
}

/// A configuration is seen as it is written, each setting under its own name.
pub proof fn configurations_are_seen_as_written(effective: EffectiveConfig, local: LocalConfig)
    ensures
        effective@.paths == crate::config::texts_of(effective.backup.paths@),
        effective@.exclusions == crate::config::texts_of(effective.backup.exclusions@),
        effective@.url == chars_of(effective.repository.url),
        effective@.display_name == chars_of(effective.repository.display_name),
        effective@.mode == effective.repository.mode,
        effective@.options == crate::config::options_of(effective.repository.options@),
        effective@.secret_refs == effective.repository.secret_refs@,
        effective@.schedule == effective.schedule,
        effective@.retention == effective.retention,
        effective@.updates == effective.updates,
        effective@.restore == effective.restore,
        local.backup.paths is Some <==> local@.paths is Some,
        local.backup.paths is Some ==> local@.paths->0 == crate::config::texts_of(
            local.backup.paths->0@,
        ),
        local.backup.exclusions is Some <==> local@.exclusions is Some,
        local.backup.exclusions is Some ==> local@.exclusions->0 == crate::config::texts_of(
            local.backup.exclusions->0@,
        ),
        local@.url == chars_of(local.repository.url),
        local@.display_name == chars_of(local.repository.display_name),
        local@.mode == local.repository.mode,
        local@.schedule == local.schedule,
        local@.retention == local.retention,
        local@.automatic_install == local.updates.automatic_install,
        local@.restore_enabled == local.restore.enabled,
        local@.management == local.management,
{
}

/// Of two options of one name the later one counts, and other names keep theirs.
pub proof fn the_later_option_counts(options: Seq<(String, String)>, option: (String, String), name: Seq<char>)
    ensures
        ({
            let after = crate::config::options_of(options.push(option));
            &&& after.contains_key(option.0@)
            &&& after[option.0@] == option.1@
            &&& name != option.0@ ==> after.contains_key(name) == crate::config::options_of(
                options,
            ).contains_key(name) && after[name] == crate::config::options_of(options)[name]
            &&& crate::config::options_of(Seq::empty()).dom().len() == 0
        }),
{
    assert(options.push(option).drop_last() =~= options);
    assert(Map::<Seq<char>, Seq<char>>::empty().dom() =~= Set::empty());
}

/// Credentials are listed each once, the password of the repository first.
pub proof fn credentials_are_listed_in_order(
    variables: Seq<SecretEnvironmentVariable>,
    refs: Map<SecretEnvironmentVariable, Seq<char>>,
    i: int,
    j: int,
)
    requires
        lists(variables, refs),
        0 <= i < j < variables.len(),
    ensures
        variables[i] != variables[j],
        variables[j] is Other,
        variables[i] matches SecretEnvironmentVariable::Other(earlier) ==> (variables[j]
            matches SecretEnvironmentVariable::Other(number) ==> earlier < number),
        refs.contains_key(variables[i]),
        refs.contains_key(SecretEnvironmentVariable::ResticPassword) ==> variables[0]
            is ResticPassword,
{
    assert(variables[i].rank() < variables[j].rank());
    assert(variables.contains(variables[i]));
    if refs.contains_key(SecretEnvironmentVariable::ResticPassword) {
        let at = variables.index_of(SecretEnvironmentVariable::ResticPassword);
        assert(variables.contains(SecretEnvironmentVariable::ResticPassword));
        if at > 0 {
            assert(variables[0].rank() < variables[at].rank());
        }
    }
}

/// A service without files keeps nothing, and a new one has nothing behind it.
pub proof fn what_a_new_service_has(stores: RuntimeStores, state: RuntimeState)
    ensures
        stores.keep_nothing() <==> stores.state is None && stores.history is None && stores.config
            is None && !stores.credentials && stores.diagnostics is None,
        state.is_fresh() ==> {
            &&& state.resumed_at is None && state.not_before is None
            &&& state.update_hold_until is None && state.update_hold_previous_status is None
            &&& !state.update_install_active && !state.manual_requested
            &&& state.consecutive_failures == 0
            &&& !state.management_operation_active && !state.restore_operation_active
            &&& state.active_restore_query is None
            &&& state.restore_status.state is Idle && state.restore_status.job_id is None
            &&& state.restore_queries@ == Map::<u64, crate::protocol::RestoreQueryView>::empty()
            &&& state.restore_query_snapshot_ids@ == Map::<u64, String>::empty()
            &&& state.next_restore_identifier == 1
        },
{
}

/// A service holds no more listings and open items than it has room for.
pub proof fn what_a_service_has_room_for(runtime: ServiceRuntime, before: ServiceRuntime)
    ensures
        runtime.well_formed() ==> runtime.state.restore_queries@.dom().len() <= 8
            && runtime.state.authorized_restore_nodes.keys().len() <= 65_536,
        runtime.only_state_changed(before) ==> runtime.config == before.config
            && runtime.local_config == before.local_config && runtime.stores == before.stores
            && runtime.field_resolutions == before.field_resolutions,
{
}

/// A field is locked by its own entry.
pub proof fn a_field_is_locked_by_its_own_entry(
    fields: Seq<(PolicyField, crate::config::FieldResolution)>,
    field: PolicyField,
    at: int,
)
    ensures
        0 <= at < fields.len() && fields[at].0 == field && fields[at].1.locked
            ==> crate::config::locks(fields, field),
        crate::config::locks(fields, field) ==> exists|i: int|
            0 <= i < fields.len() && (#[trigger] fields[i]).0 == field && fields[i].1.locked,
{
}

/// Texts are seen one by one, and one that is missing is not seen.
pub proof fn texts_are_seen_as_they_are(
    texts: Seq<String>,
    maybe: Option<String>,
    lists: Option<Vec<String>>,
    at: int,
)
    ensures
        crate::config::texts_of(texts).len() == texts.len(),
        0 <= at < texts.len() ==> crate::config::texts_of(texts)[at] == texts[at]@,
        maybe is Some ==> chars_of(maybe) == Some(maybe->0@),
        maybe is None ==> chars_of(maybe) is None,
        lists is Some ==> crate::config::maybe_texts(lists) == Some(
            crate::config::texts_of(lists->0@),
        ),
        lists is None ==> crate::config::maybe_texts(lists) is None,
{
}

/// A reference is in use where some credential has it.
pub proof fn when_a_reference_is_in_use(
    refs: Map<SecretEnvironmentVariable, Seq<char>>,
    variable: SecretEnvironmentVariable,
    reference: Seq<char>,
)
    ensures
        refs.contains_key(variable) ==> crate::config::refers_to(refs, refs[variable]),
        crate::config::refers_to(refs, reference) ==> exists|user: SecretEnvironmentVariable|
            #[trigger] refs.contains_key(user) && refs[user] == reference,
{
}

} // verus!

//! What a client is answered.
use crate::config::{LocalManagementConfig, UpdateConfig};
use crate::protocol::{
    ClientIdentity, RepositoryOperationKind, RequestCommand, ResponsePayload,
};
use crate::rejection::Rejection;
use crate::runtime::events::RuntimeEvent;
use crate::runtime::repository::after_operation_request;
use crate::runtime::requests::{
    backup_deferred, backup_requested, is_for_everybody, RequestStep,
};
use crate::runtime::settings::ChangeKind;
use crate::runtime::state::{RuntimeState, ServiceRuntime};
use crate::time::representable;
use crate::updater::package_error;
use vstd::prelude::*;

verus! {

/// A refusal is told with the code and the words of its reason.
pub proof fn a_refusal_is_told(payload: ResponsePayload, rejection: Rejection, step: RequestStep)
    ensures
        payload.rejects(rejection) <==> payload is Rejected && payload->code@
            == rejection.code_text() && payload->Rejected_message@ == rejection.message_text(),
        step.rejects(rejection) <==> step is Reply && step->payload.rejects(rejection),
{
}

/// An answer and an event are what they are said to be.
pub proof fn an_answer_is_what_it_says(
    payload: ResponsePayload,
    step: RequestStep,
    event: RuntimeEvent,
    message: Seq<char>,
    code: Seq<char>,
)
    ensures
        payload.accepts(message) <==> payload is Accepted && payload->Accepted_message@ == message,
        payload.rejects_with(code, message) <==> payload is Rejected && payload->code@ == code
            && payload->Rejected_message@ == message,
        step.delivers(event, message) <==> step is Deliver && step->event == event
            && step->message@ == message,
{
}

/// Anybody may look at the status and at how updates are installed.
pub proof fn anybody_sees_the_status(
    runtime: ServiceRuntime,
    identity: ClientIdentity,
    now: i128,
    step: RequestStep,
)
    ensures
        runtime.looks_up(RequestCommand::GetStatus, identity, now, step) ==> step == (
        RequestStep::Reply { payload: ResponsePayload::Status { status: runtime.state.status } }),
        runtime.looks_up(RequestCommand::GetUpdateSettings, identity, now, step) ==> step is Reply
            && step->payload is UpdateSettings && step->payload->UpdateSettings_configuration.automatic_install
            == runtime.config.updates.automatic_install,
{
}

/// Only an administrator sees how the service is set up, and sees each part of
/// it where it was asked for.
pub proof fn administrators_see_the_settings(
    runtime: ServiceRuntime,
    identity: ClientIdentity,
    now: i128,
    step: RequestStep,
)
    ensures
        !identity.is_elevated_administrator && (runtime.looks_up(
            RequestCommand::GetManagement,
            identity,
            now,
            step,
        ) || runtime.looks_up(RequestCommand::GetBackupSources, identity, now, step)
            || runtime.looks_up(RequestCommand::GetRepository, identity, now, step)
            || runtime.looks_up(RequestCommand::GetSchedule, identity, now, step)
            || runtime.looks_up(RequestCommand::GetRetention, identity, now, step)
            || runtime.looks_up(RequestCommand::DiscoverBackupSources, identity, now, step))
            ==> step.rejects(Rejection::AdministratorRequired),
        identity.is_elevated_administrator ==> {
            &&& runtime.looks_up(RequestCommand::GetManagement, identity, now, step) ==> step
                is Reply && step->payload is Management && runtime.shows_management(
                step->payload->Management_configuration,
            )
            &&& runtime.looks_up(RequestCommand::GetBackupSources, identity, now, step) ==> step
                is Reply && step->payload is BackupSources && runtime.shows_sources(
                step->payload->BackupSources_configuration,
            )
            &&& runtime.looks_up(RequestCommand::GetRepository, identity, now, step) ==> step
                is Reply && step->payload is Repository && runtime.shows_repository(
                step->payload->Repository_configuration,
            )
            &&& runtime.looks_up(RequestCommand::GetSchedule, identity, now, step) ==> step is Reply
                && step->payload is Schedule && runtime.shows_schedule(
                step->payload->Schedule_configuration,
            )
            &&& runtime.looks_up(RequestCommand::GetRetention, identity, now, step) ==> step
                is Reply && step->payload is Retention && runtime.shows_retention(
                step->payload->Retention_configuration,
            )
            &&& runtime.looks_up(RequestCommand::DiscoverBackupSources, identity, now, step)
                ==> step is DiscoverSources
        },
{
}

/// Past runs are read for anybody, up to a hundred at once; what failed in one
/// and the log for administrators only, the log up to two hundred lines.
pub proof fn what_is_read_for_whom(
    runtime: ServiceRuntime,
    identity: ClientIdentity,
    now: i128,
    step: RequestStep,
    limit: u16,
    run_id: u64,
)
    ensures
        runtime.history_refusal(limit) is None <==> 1 <= limit <= 100 && runtime.stores.history
            is Some,
        runtime.failure_details_refusal(identity) is None <==> identity.is_elevated_administrator
            && runtime.stores.history is Some,
        runtime.diagnostics_refusal(limit, identity) is None <==> identity.is_elevated_administrator
            && 1 <= limit <= 200 && runtime.stores.diagnostics is Some,
        runtime.looks_up(RequestCommand::GetRunHistory { limit }, identity, now, step)
            && 1 <= limit <= 100 && runtime.stores.history is Some ==> step == (
        RequestStep::ReadHistory { limit: limit as usize }),
        runtime.looks_up(RequestCommand::GetRunFailureDetails { run_id }, identity, now, step)
            && identity.is_elevated_administrator && runtime.stores.history is Some ==> step == (
        RequestStep::ReadFailureDetails { run_id }),
        runtime.looks_up(RequestCommand::GetDiagnostics { limit }, identity, now, step)
            && identity.is_elevated_administrator && 1 <= limit <= 200
            && runtime.stores.diagnostics is Some ==> step == (RequestStep::ReadDiagnostics {
            limit: limit as usize,
        }),
        (limit == 0 || limit > 100) ==> runtime.history_refusal(limit) == Some(
            Rejection::InvalidHistoryLimit,
        ),
        !identity.is_elevated_administrator ==> runtime.diagnostics_refusal(limit, identity) == Some(
            Rejection::AdministratorRequired,
        ) && runtime.failure_details_refusal(identity) == Some(Rejection::AdministratorRequired),
{
}

/// A backup is asked for where the machine is set up, its repository proved, none
/// runs and no update is pending; then nothing holds it back any more.
pub proof fn when_a_backup_is_asked_for(
    runtime: ServiceRuntime,
    identity: ClientIdentity,
    now: i128,
    step: RequestStep,
    after: RuntimeState,
)
    requires
        runtime.acts(RequestCommand::RunBackupNow, identity, now, step, after),
    ensures
        runtime.run_refusal(now) is None <==> {
            &&& runtime.config.backup.paths@.len() > 0
            &&& runtime.config.repository.url is Some
            &&& runtime.state.repository_operation is Succeeded
            &&& !(runtime.state.status.state is Running)
            &&& !runtime.state.update_install_active
            &&& runtime.state.update_hold_until is None || runtime.state.update_hold_until->0 <= now
        },
        runtime.run_refusal(now) is None ==> {
            &&& step is Deliver
            &&& step->event is RunNow
            &&& after.manual_requested
            &&& after.not_before is None
            &&& after.status == runtime.state.status
            &&& after.service_state == runtime.state.service_state
            &&& after.consecutive_failures == runtime.state.consecutive_failures
            &&& after.resumed_at == runtime.state.resumed_at
        },
        runtime.run_refusal(now) is Some ==> step.rejects(runtime.run_refusal(now)->0) && after
            == runtime.state,
        !runtime.config.configured() ==> runtime.run_refusal(now) == Some(Rejection::NotConfigured),
{
}

/// A backup is put off by one minute to a whole day where it could run and does
/// not; then it comes no earlier, and is not asked for any more.
pub proof fn when_a_backup_is_put_off(
    runtime: ServiceRuntime,
    identity: ClientIdentity,
    now: i128,
    step: RequestStep,
    after: RuntimeState,
    minutes: u32,
)
    requires
        runtime.acts(RequestCommand::DeferBackup { minutes }, identity, now, step, after),
        representable(now as int),
        representable(now + minutes * 60_000_000_000),
    ensures
        runtime.deferral_refusal(minutes) is None <==> {
            &&& 1 <= minutes <= 1440
            &&& runtime.config.backup.paths@.len() > 0
            &&& runtime.config.repository.url is Some
            &&& runtime.state.repository_operation is Succeeded
            &&& !(runtime.state.status.state is Running)
        },
        minutes == 0 || minutes > 1440 ==> runtime.deferral_refusal(minutes) == Some(
            Rejection::InvalidDeferral,
        ),
        runtime.deferral_refusal(minutes) is None ==> {
            &&& step is Deliver
            &&& step->event is Deferred
            &&& !after.manual_requested
            &&& after.not_before is Some
            &&& after.not_before->0 - now == minutes * 60_000_000_000
            &&& after.status.next_deadline == after.not_before
            &&& after.status.state == runtime.state.status.state
            &&& after.status.last_success == runtime.state.status.last_success
            &&& after.service_state == runtime.state.service_state
        },
        runtime.deferral_refusal(minutes) is Some ==> step.rejects(
            runtime.deferral_refusal(minutes)->0,
        ) && after == runtime.state,
{
}

/// A backup is cancelled where one runs.
pub proof fn when_a_backup_is_cancelled(
    runtime: ServiceRuntime,
    identity: ClientIdentity,
    now: i128,
    step: RequestStep,
)
    requires
        runtime.looks_up(RequestCommand::CancelBackup, identity, now, step),
    ensures
        runtime.state.status.state is Running ==> step is Deliver && step->event is Cancel,
        !(runtime.state.status.state is Running) ==> step.rejects(Rejection::NotRunning),
{
}

/// A repository is validated or created as it was asked for.
pub proof fn operations_are_begun_as_asked(
    runtime: ServiceRuntime,
    identity: ClientIdentity,
    now: i128,
    step: RequestStep,
    after: RuntimeState,
)
    ensures
        runtime.acts(RequestCommand::ValidateRepository, identity, now, step, after) && step
            is RunOperation ==> step->operation is Validate && after == after_operation_request(
            runtime.state,
            runtime.config,
            RepositoryOperationKind::Validate,
            now,
        ),
        runtime.acts(RequestCommand::InitializeRepository, identity, now, step, after) && step
            is RunOperation ==> step->operation is Initialize && after == after_operation_request(
            runtime.state,
            runtime.config,
            RepositoryOperationKind::Initialize,
            now,
        ),
        runtime.acts(RequestCommand::ValidateRepository, identity, now, step, after)
            && runtime.operation_refusal(RepositoryOperationKind::Validate, identity, now) is None
            ==> step is RunOperation,
        runtime.acts(RequestCommand::InitializeRepository, identity, now, step, after)
            && runtime.operation_refusal(RepositoryOperationKind::Initialize, identity, now) is None
            ==> step is RunOperation,
        runtime.acts(RequestCommand::ValidateRepository, identity, now, step, after)
            && runtime.operation_refusal(RepositoryOperationKind::Validate, identity, now) is Some
            ==> step.rejects(
            runtime.operation_refusal(RepositoryOperationKind::Validate, identity, now)->0,
        ) && after == runtime.state,
{
}

/// A machine joins with the address that it was given, and leaves with the
/// configuration of a machine that nobody manages.
pub proof fn how_a_machine_joins_and_leaves(
    runtime: ServiceRuntime,
    identity: ClientIdentity,
    now: i128,
    step: RequestStep,
    after: RuntimeState,
    bootstrap_url: Vec<u8>,
)
    ensures
        runtime.acts(RequestCommand::Enroll { bootstrap_url }, identity, now, step, after)
            && runtime.enroll_refusal(bootstrap_url@, identity, now) is None ==> {
            &&& step is Enroll
            &&& step->bootstrap_url@ == vstd::utf8::decode_utf8(bootstrap_url@)
            &&& after.management_operation_active
            &&& after.status == runtime.state.status
        },
        runtime.acts(RequestCommand::Enroll { bootstrap_url }, identity, now, step, after)
            && runtime.enroll_refusal(bootstrap_url@, identity, now) is Some ==> step is Reply
            && after == runtime.state,
        runtime.looks_up(RequestCommand::Unenroll, identity, now, step) && runtime.unenroll_refusal(
            identity,
            now,
        ) is None && !(runtime.local_config.management.mode is Disabled) ==> step is Unenroll
            && step->local.management == LocalManagementConfig::unmanaged(),
        runtime.looks_up(RequestCommand::Unenroll, identity, now, step) && runtime.unenroll_refusal(
            identity,
            now,
        ) is None && runtime.local_config.management.mode is Disabled ==> step is Reply
            && step->payload is Accepted,
{
}

/// A change of a setting is planned as it was asked for, or refused.
pub proof fn changes_are_planned_as_asked(
    runtime: ServiceRuntime,
    identity: ClientIdentity,
    now: i128,
    step: RequestStep,
    automatic_install: bool,
)
    requires
        runtime.looks_up(
            RequestCommand::UpdateUpdateSettings { automatic_install },
            identity,
            now,
            step,
        ),
    ensures
        runtime.update_setting_refusal(identity, now) is Some ==> step.rejects(
            runtime.update_setting_refusal(identity, now)->0,
        ),
        runtime.update_setting_refusal(identity, now) is None ==> {
            &&& step is Change
            &&& step->Change_change.kind == (ChangeKind::Updates { automatic_install })
            &&& step->Change_change.local.updates.automatic_install == Some(automatic_install)
            &&& step->Change_change.effective.updates.automatic_install == automatic_install
            &&& step->Change_change.effective.schedule == runtime.config.schedule
            &&& step->Change_change.effective.retention == runtime.config.retention
            &&& step->Change_change.effective.restore == runtime.config.restore
        },
{
}

/// A change of the numbers of the retention or of the schedule that is planned
/// holds the numbers that were sent, each under its own name.
pub proof fn numbers_are_planned_as_sent(
    runtime: ServiceRuntime,
    identity: ClientIdentity,
    now: i128,
    step: RequestStep,
    retention: crate::protocol::RetentionUpdate,
    schedule: crate::protocol::ScheduleUpdate,
)
    requires
        step is Change,
    ensures
        runtime.looks_up(
            RequestCommand::UpdateRetention { update: retention },
            identity,
            now,
            step,
        ) ==> {
            let local = step->Change_change.local.retention;
            let effective = step->Change_change.effective.retention;
            &&& retention.daily is Some ==> local.daily == retention.daily && effective.daily
                == retention.daily->0
            &&& retention.weekly is Some ==> local.weekly == retention.weekly && effective.weekly
                == retention.weekly->0
            &&& retention.monthly is Some ==> local.monthly == retention.monthly
                && effective.monthly == retention.monthly->0
            &&& retention.yearly is Some ==> local.yearly == retention.yearly && effective.yearly
                == retention.yearly->0
            &&& retention.prune_interval_days is Some ==> local.prune_interval_days
                == retention.prune_interval_days && effective.prune_interval_days
                == retention.prune_interval_days->0
            &&& step->Change_change.kind is Retention
        },
        runtime.looks_up(
            RequestCommand::UpdateSchedule { update: schedule },
            identity,
            now,
            step,
        ) ==> {
            let local = step->Change_change.local.schedule;
            let effective = step->Change_change.effective.schedule;
            &&& schedule.interval_hours is Some ==> local.interval_hours == schedule.interval_hours
                && effective.interval_hours == schedule.interval_hours->0
            &&& schedule.wake_grace_seconds is Some ==> local.wake_grace_seconds
                == schedule.wake_grace_seconds && effective.wake_grace_seconds
                == schedule.wake_grace_seconds->0
            &&& schedule.wake_lock_timeout_seconds is Some ==> local.wake_lock_timeout_seconds
                == schedule.wake_lock_timeout_seconds && effective.wake_lock_timeout_seconds
                == schedule.wake_lock_timeout_seconds->0
            &&& schedule.allow_on_battery is Some ==> local.allow_on_battery
                == schedule.allow_on_battery && effective.allow_on_battery
                == schedule.allow_on_battery->0
            &&& schedule.allow_metered_network is Some ==> local.allow_metered_network
                == schedule.allow_metered_network && effective.allow_metered_network
                == schedule.allow_metered_network->0
            &&& step->Change_change.kind is Schedule
        },
{
}

/// A list of sources that is planned is the one that was sent, each source once,
/// and the list that was not sent stays.
pub proof fn sources_are_planned_as_sent(
    runtime: ServiceRuntime,
    identity: ClientIdentity,
    now: i128,
    step: RequestStep,
    paths: Option<Vec<String>>,
    exclusions: Option<Vec<String>>,
)
    requires
        runtime.looks_up(
            RequestCommand::UpdateBackupSources { paths, exclusions },
            identity,
            now,
            step,
        ),
        runtime.sources_refusal(paths is Some, exclusions is Some, identity, now) is None,
    ensures
        step is Change,
        step->Change_change.kind is Sources,
        paths is Some ==> step->Change_change.effective@.paths == crate::sources::distinct_paths(
            crate::config::texts_of(paths->0@),
        ) && step->Change_change.local@.paths == Some(step->Change_change.effective@.paths),
        paths is None ==> step->Change_change.effective@.paths == runtime.config@.paths
            && step->Change_change.local@.paths == runtime.local_config@.paths,
        exclusions is Some ==> step->Change_change.effective@.exclusions
            == crate::sources::distinct_exclusions(crate::config::texts_of(exclusions->0@))
            && step->Change_change.local@.exclusions == Some(
            step->Change_change.effective@.exclusions,
        ),
        exclusions is None ==> step->Change_change.effective@.exclusions
            == runtime.config@.exclusions && step->Change_change.local@.exclusions
            == runtime.local_config@.exclusions,
{
}

/// A prompted update holds the service for as long as was asked, one that the
/// service installs for half an hour, and only the latter is told to the loop.
pub proof fn how_updates_hold_the_service(
    runtime: ServiceRuntime,
    identity: ClientIdentity,
    now: i128,
    step: RequestStep,
    after: RuntimeState,
    hold_seconds: u32,
    package: crate::protocol::UpdatePackage,
)
    ensures
        runtime.acts(
            RequestCommand::PrepareForUpdate { hold_seconds },
            identity,
            now,
            step,
            after,
        ) && runtime.hold_refusal(hold_seconds, identity, now) is None ==> {
            &&& step is Reply && step->payload is Accepted
            &&& after.update_hold_until == Some(
                crate::runtime::updates::hold_end(now, hold_seconds),
            )
            &&& after.update_install_active == runtime.state.update_install_active
        },
        runtime.acts(RequestCommand::InstallUpdate { package }, identity, now, step, after)
            && runtime.install_refusal(package_error(package) is None, now) is None ==> {
            &&& step is Deliver && step->event == RuntimeEvent::UpdateInstallRequested(package)
            &&& after.update_hold_until == Some(crate::runtime::updates::hold_end(now, 1800))
            &&& after.update_install_active
        },
        runtime.acts(RequestCommand::InstallUpdate { package }, identity, now, step, after)
            && package_error(package) is Some ==> step is Reply && after == runtime.state,
{
}

/// What everybody may ask for.
pub proof fn what_is_for_everybody(command: RequestCommand)
    ensures
        is_for_everybody(command) <==> command is GetStatus || command is GetRunHistory || command
            is RunBackupNow || command is CancelBackup || command is DeferBackup || command
            is GetUpdateSettings || command is InstallUpdate,
        ServiceRuntime::is_action(command) <==> command is Enroll || command is ValidateRepository
            || command is InitializeRepository || command is RunBackupNow || command is DeferBackup
            || command is PrepareForUpdate || command is InstallUpdate,
{
}

/// A change of the repository is planned as it was asked for, with none of its
/// credentials stored yet.
pub proof fn a_repository_change_is_planned_as_asked(
    runtime: ServiceRuntime,
    identity: ClientIdentity,
    now: i128,
    step: RequestStep,
    update: crate::protocol::RepositoryUpdate,
)
    requires
        runtime.looks_up(RequestCommand::UpdateRepository { update }, identity, now, step),
        runtime.repository_refusal(update, identity, now) is None,
    ensures
        step is ChangeRepository,
        step->ChangeRepository_change.applied == 0,
        step->ChangeRepository_change.secret_updates == update.secret_updates,
        step->ChangeRepository_change.created@.len() == 0,
        step->ChangeRepository_change.retired@.len() == 0,
        step->ChangeRepository_change.connection_changed <==> update.url is Some || update.options
            is Some || update.secret_updates@.len() > 0,
        step->ChangeRepository_change.effective@ == runtime.effective_over(update),
        step->ChangeRepository_change.local@ == runtime.local_over(update),
{
    let change = step->ChangeRepository_change;
    assert(change.secret_updates@.take(0) =~= Seq::empty());
    assert(crate::config::texts_of(change.created@) =~= Seq::empty());
    assert(change.effective@ =~= runtime.effective_over(update));
}

} // verus!

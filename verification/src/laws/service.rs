//! What the event loop and the worker for the management server do, and where
//! the service finds its files.
use crate::runtime::events::{RuntimeEvent, ScheduleAction};
use crate::service::{
    backoff_seconds, before_zero, data_root, failures_with, named_config, refresh_delay,
    seconds_after, EventLoop, LoopAction, ManagementRefreshOutcome, ManagementWorker, PolicyResult,
};
use crate::config::LocalManagementConfig;
use crate::status::BackupState;
use vstd::prelude::*;

verus! {

/// Work ends where it is reported to have ended, and only then.
pub proof fn ends_are_taken_in(loop_: EventLoop, event: RuntimeEvent, action: LoopAction, after: EventLoop)
    requires
        loop_.reacts(event, action, after),
    ensures
        event is BackupFinished ==> !after.backup_active && after.repository_active
            == loop_.repository_active && action == (LoopAction::FinishBackup {
            outcome: event->BackupFinished_0,
        }),
        event is RepositoryOperationFinished ==> !after.repository_active && after.backup_active
            == loop_.backup_active && action == (LoopAction::FinishRepository {
            operation: event->RepositoryOperationFinished_operation,
            outcome: event->RepositoryOperationFinished_outcome,
        }),
        event is UpdateInstallFinished ==> action == (LoopAction::FinishUpdate {
            outcome: event->UpdateInstallFinished_0,
        }),
        !(event is BackupFinished) ==> after.backup_active == loop_.backup_active,
        !(event is RepositoryOperationFinished) && !(event is RepositoryOperationRequested)
            ==> after.repository_active == loop_.repository_active,
{
}

/// An operation and an update start only where nothing is at work, and are
/// turned down with a code else.
pub proof fn what_starts_beside_nothing(
    loop_: EventLoop,
    event: RuntimeEvent,
    action: LoopAction,
    after: EventLoop,
)
    requires
        loop_.reacts(event, action, after),
    ensures
        ({
            let free = !loop_.backup_active && !loop_.repository_active;
            &&& event is RepositoryOperationRequested && free ==> action == (
            LoopAction::StartRepository { operation: event->RepositoryOperationRequested_0 })
                && after.repository_active
            &&& event is RepositoryOperationRequested && !free ==> action is RefuseRepository
                && action->RefuseRepository_operation == event->RepositoryOperationRequested_0
                && action->RefuseRepository_code@ == "repository_operation_conflict"@
                && after == loop_
            &&& event is UpdateInstallRequested && free ==> action == (LoopAction::StartUpdate {
                package: event->UpdateInstallRequested_0,
            })
            &&& event is UpdateInstallRequested && !free ==> action is RefuseUpdate
                && action->RefuseUpdate_code@ == "update_operation_conflict"@
            &&& action is StartRepository ==> event is RepositoryOperationRequested && free
            &&& action is StartUpdate ==> event is UpdateInstallRequested && free
        }),
{
}

/// A cancellation reaches a backup that runs; a stop stops; what may have changed
/// what is due has the schedule looked at; anything else is left alone.
pub proof fn what_else_the_loop_does(
    loop_: EventLoop,
    event: RuntimeEvent,
    action: LoopAction,
    after: EventLoop,
)
    requires
        loop_.reacts(event, action, after),
    ensures
        event is Cancel && loop_.backup_active ==> action is CancelBackup,
        event is Cancel && !loop_.backup_active ==> action is Nothing,
        action is CancelBackup ==> event is Cancel && loop_.backup_active,
        event is Stop <==> action is Stop,
        event is Resume <==> action is Resume,
        event is RunNow || event is PowerStatusChanged || event is TimeChanged || event is Deferred
            || event is ConfigurationChanged <==> action is Evaluate,
{
}

/// Once the service stops, only the ends of what ran are taken in.
pub proof fn only_ends_are_drained(
    loop_: EventLoop,
    event: RuntimeEvent,
    action: LoopAction,
    after: EventLoop,
)
    requires
        loop_.drains(event, action, after),
    ensures
        event is BackupFinished ==> !after.backup_active && action == (LoopAction::FinishBackup {
            outcome: event->BackupFinished_0,
        }) && after.repository_active == loop_.repository_active,
        event is RepositoryOperationFinished ==> !after.repository_active && action == (
        LoopAction::FinishRepository {
            operation: event->RepositoryOperationFinished_operation,
            outcome: event->RepositoryOperationFinished_outcome,
        }) && after.backup_active == loop_.backup_active,
        !(event is BackupFinished) && !(event is RepositoryOperationFinished) ==> action is Nothing
            && after == loop_,
        loop_.idle() <==> !loop_.backup_active && !loop_.repository_active,
{
}

/// The wait after a failed look is a minute, twice as long after each further
/// one, and an hour and four minutes from the seventh on.
pub proof fn the_backoff_grows_to_its_end(failures: u32)
    ensures
        failures <= 1 ==> backoff_seconds(failures) == 60,
        1 <= failures <= 6 ==> backoff_seconds((failures + 1) as u32) == 2 * backoff_seconds(
            failures,
        ),
        failures >= 7 ==> backoff_seconds(failures) == 3840,
{
    reveal_with_fuel(crate::runtime::lifecycle::doubled, 8);
}

/// The server is looked at again after the interval that is configured, sooner
/// after a failure, and after half a minute where the service was busy.
pub proof fn when_the_server_is_looked_at_again(minutes: u32, failures: u32)
    ensures
        refresh_delay(minutes, ManagementRefreshOutcome::Synchronized, failures) == minutes * 60,
        refresh_delay(minutes, ManagementRefreshOutcome::RuntimeBusy, failures) == 30,
        refresh_delay(minutes, ManagementRefreshOutcome::Failed, failures) <= minutes * 60,
        refresh_delay(minutes, ManagementRefreshOutcome::Failed, failures) <= backoff_seconds(
            failures,
        ),
        refresh_delay(minutes, ManagementRefreshOutcome::Failed, failures) == minutes * 60
            || refresh_delay(minutes, ManagementRefreshOutcome::Failed, failures)
            == backoff_seconds(failures),
{
}

/// Only a failure counts as one, and only a busy service as busy.
pub proof fn what_a_policy_comes_to(result: PolicyResult)
    ensures
        result.comes_to() is Failed <==> result is Failed,
        result.comes_to() is RuntimeBusy <==> result is RuntimeBusy,
        result.comes_to() is Synchronized <==> result is Applied || result is SourceChanged
            || result is Nothing,
{
}

/// Failures in a row are counted, and a success ends the row.
pub proof fn failures_are_counted_in_a_row(failures: u32)
    ensures
        failures_with(failures, false) == 0,
        failures < u32::MAX ==> failures_with(failures, true) == failures + 1,
        failures_with(failures, true) >= failures,
        failures_with(failures, true) > 0,
{
}

/// A pause is as long as its seconds.
pub proof fn a_pause_is_as_long_as_its_seconds(now: u128, seconds: u64)
    requires
        crate::service::clock_runs(now),
    ensures
        seconds_after(now, seconds as int) - now == seconds * 1_000_000_000,
{
}

/// The worker knows a source where every field of it is as before, and sees a
/// change of the state where there is one, or where it saw none before.
pub proof fn what_the_worker_knows(
    worker: ManagementWorker,
    local: LocalManagementConfig,
    state: BackupState,
)
    ensures
        worker.source is None ==> !worker.follows(local),
        worker.source is Some ==> (worker.follows(local) <==> worker.source->0.reads_as(local)),
        worker.last_observed_state is None ==> worker.sees_change(state),
        worker.last_observed_state == Some(state) ==> !worker.sees_change(state),
        worker.last_observed_state is Some ==> (worker.sees_change(state)
            <==> !worker.last_observed_state->0.reads_as(state)),
{
}

/// The data of the service lies in its own folder below the data of programs.
pub proof fn where_the_data_lies(program_data: Seq<char>)
    ensures
        data_root(Some(program_data)) == crate::paths::below(program_data, "ResticPal"@),
        data_root(None) == data_root(Some("C:\\ProgramData"@)),
{
}

/// A configuration is named by what follows the first option for it.
pub proof fn the_first_option_names_the_configuration(
    arguments: Seq<Seq<char>>,
    at: int,
)
    requires
        0 <= at < arguments.len(),
        arguments[at] == "--config"@,
        forall|i: int| 0 <= i < at ==> #[trigger] arguments[i] != "--config"@,
    ensures
        at + 1 < arguments.len() ==> named_config(arguments) == Some(arguments[at + 1]),
        at + 1 == arguments.len() ==> named_config(arguments) is None,
    decreases arguments.len(),
{
    if at > 0 {
        let rest = arguments.drop_first();
        assert(rest[at - 1] == arguments[at]);
        assert forall|i: int| 0 <= i < at - 1 implies #[trigger] rest[i] != "--config"@ by {
            assert(rest[i] == arguments[i + 1]);
        }
        the_first_option_names_the_configuration(rest, at - 1);
    }
}

/// Without the option no configuration is named.
pub proof fn without_the_option_none_is_named(arguments: Seq<Seq<char>>)
    requires
        forall|i: int| 0 <= i < arguments.len() ==> #[trigger] arguments[i] != "--config"@,
    ensures
        named_config(arguments) is None,
    decreases arguments.len(),
{
    if arguments.len() >= 2 {
        let rest = arguments.drop_first();
        assert forall|i: int| 0 <= i < rest.len() implies #[trigger] rest[i] != "--config"@ by {
            assert(rest[i] == arguments[i + 1]);
        }
        without_the_option_none_is_named(rest);
    }
}

/// A stored text ends before its first zero.
pub proof fn a_stored_text_ends_at_zero(units: Seq<u16>, i: int)
    ensures
        before_zero(units).len() <= units.len(),
        0 <= i < before_zero(units).len() ==> before_zero(units)[i] == units[i] && units[i] != 0,
        before_zero(units).len() < units.len() ==> units[before_zero(units).len() as int] == 0,
    decreases units.len(),
{
    if units.len() > 0 && units[0] != 0 {
        let rest = units.drop_first();
        a_stored_text_ends_at_zero(rest, i - 1);
        if before_zero(rest).len() < rest.len() {
            assert(rest[before_zero(rest).len() as int] == units[before_zero(rest).len() as int + 1]);
        }
        if 0 < i < before_zero(units).len() {
            assert(before_zero(units)[i] == before_zero(rest)[i - 1]);
            assert(rest[i - 1] == units[i]);
        }
    }
}

} // verus!

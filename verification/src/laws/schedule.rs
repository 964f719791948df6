//! When a backup is due, what it waits for, and what becomes of a decision.
use crate::conditions::{ConnectionProfile, SystemConditions};
use crate::runtime::scheduler::{
    after_decision, after_hold, hold_deadline, is_schedulable, needs_network, reason_for,
    snapshot_of, ScheduleBlocker, ScheduleDecision,
};
use crate::runtime::state::{later, RuntimeState, ServiceRuntime};
use crate::status::{
    transitioned, BackupPhase, BackupState, ServiceStatus, WaitingReason,
};
use crate::text;
use crate::time::{deadline_after, moved_or, representable};
use vstd::prelude::*;

verus! {

/// A text that names a backend in front of a colon is remote, whatever the name
/// of the backend, unless it is a path on a drive or says that it is local.
pub proof fn a_named_backend_is_remote(repository: Seq<char>, colon: int)
    requires
        ({
            let name = text::trimmed(repository);
            &&& 0 <= colon < name.len()
            &&& name[colon] == ':'
            &&& !(name.len() >= 6 && name.take(6) == "local:"@)
            &&& !(name.len() >= 6 && name.take(6) == "LOCAL:"@)
            &&& !(name.len() >= 3 && text::is_ascii_alphabetic(name[0]) && name[1] == ':' && (
            name[2] == '\\' || name[2] == '/'))
        }),
    ensures
        needs_network(repository),
{
    let name = text::trimmed(repository);
    reveal_strlit("local:");
    reveal_strlit("LOCAL:");
    if text::starts_with(name, "local:"@) {
        assert(name.take(6) =~= name.subrange(0, 6));
    }
    if text::starts_with(name, "LOCAL:"@) {
        assert(name.take(6) =~= name.subrange(0, 6));
    }
    assert(name.contains(':'));
}

/// A share is remote, and stays so where it is said to be local.
pub proof fn a_share_is_remote(repository: Seq<char>, at: int)
    requires
        ({
            let name = text::trimmed(repository);
            let local = name.len() >= 6 && (name.take(6) == "local:"@ || name.take(6)
                == "LOCAL:"@);
            &&& at == (if local {
                6int
            } else {
                0
            })
            &&& name.len() >= at + 2
            &&& (name[at] == '\\' && name[at + 1] == '\\') || (name[at] == '/' && name[at + 1]
                == '/')
        }),
    ensures
        needs_network(repository),
{
    let name = text::trimmed(repository);
    reveal_strlit("local:");
    reveal_strlit("LOCAL:");
    reveal_strlit(r"\\");
    reveal_strlit("//");
    if name.len() >= 6 {
        assert(name.take(6) =~= name.subrange(0, 6));
    }
    let rest = name.subrange(at, name.len() as int);
    assert(rest[0] == name[at] && rest[1] == name[at + 1]);
    assert(name[at] == '\\' ==> rest.subrange(0, 2) =~= r"\\"@);
    assert(name[at] == '/' ==> rest.subrange(0, 2) =~= "//"@);
    if at == 0 {
        assert(rest =~= name);
    }
}

/// A path on a drive is at hand, and so is every path that is said to be local
/// and every text without a colon, as long as it is no share.
pub proof fn a_local_path_is_at_hand(repository: Seq<char>)
    requires
        ({
            let name = text::trimmed(repository);
            let local = name.len() >= 6 && (name.take(6) == "local:"@ || name.take(6)
                == "LOCAL:"@);
            let at = if local {
                6int
            } else {
                0
            };
            &&& !(name.len() >= at + 2 && name[at] == '\\' && name[at + 1] == '\\')
            &&& !(name.len() >= at + 2 && name[at] == '/' && name[at + 1] == '/')
            &&& {
                ||| local
                ||| name.len() >= 3 && text::is_ascii_alphabetic(name[0]) && name[1] == ':' && (
                name[2] == '\\' || name[2] == '/')
                ||| forall|i: int| 0 <= i < name.len() ==> #[trigger] name[i] != ':'
            }
        }),
    ensures
        !needs_network(repository),
{
    let name = text::trimmed(repository);
    reveal_strlit("local:");
    reveal_strlit("LOCAL:");
    reveal_strlit(r"\\");
    reveal_strlit("//");
    let local = name.len() >= 6 && (name.take(6) == "local:"@ || name.take(6) == "LOCAL:"@);
    if name.len() >= 6 {
        assert(name.take(6) =~= name.subrange(0, 6));
    }
    let rest = name.subrange(6, name.len() as int);
    if local {
        if text::starts_with(rest, r"\\"@) {
            assert(rest.subrange(0, 2)[0] == '\\' && rest.subrange(0, 2)[1] == '\\');
            assert(name[6] == '\\' && name[7] == '\\');
        }
        if text::starts_with(rest, "//"@) {
            assert(rest.subrange(0, 2)[0] == '/' && rest.subrange(0, 2)[1] == '/');
            assert(name[6] == '/' && name[7] == '/');
        }
    } else {
        if text::starts_with(name, "local:"@) || text::starts_with(name, "LOCAL:"@) {
            assert(false);
        }
        if text::starts_with(name, r"\\"@) {
            assert(name.subrange(0, 2)[0] == '\\' && name.subrange(0, 2)[1] == '\\');
        }
        if text::starts_with(name, "//"@) {
            assert(name.subrange(0, 2)[0] == '/' && name.subrange(0, 2)[1] == '/');
        }
    }
}

/// Space around a repository does not matter.
pub proof fn space_around_a_repository_does_not_matter(repository: Seq<char>)
    ensures
        needs_network(text::trimmed(repository)) == needs_network(repository),
{
    text::trimming_twice_is_trimming_once(repository);
}

/// The schedule is decided from what the service knows, each thing by its name.
pub proof fn the_schedule_sees_what_is(
    runtime: ServiceRuntime,
    now: i128,
    conditions: SystemConditions,
)
    requires
        !runtime.state.update_pending(now),
        runtime.state.update_hold_previous_status is None,
    ensures
        ({
            let seen = snapshot_of(runtime, now, conditions);
            &&& seen.now == now
            &&& seen.last_success == runtime.state.status.last_success
            &&& seen.resumed_at == runtime.state.resumed_at
            &&& seen.not_before == runtime.state.not_before
            &&& seen.manual_requested == runtime.state.manual_requested
            &&& seen.backup_running == (runtime.state.status.state is Running)
            &&& seen.network_available == conditions.network_available
            &&& seen.on_battery == conditions.on_battery
            &&& seen.metered_network == conditions.metered_network
            &&& runtime.config.repository.url is Some ==> seen.network_required == needs_network(
                runtime.config.repository.url->0@,
            )
        }),
{
}

/// What the schedule sees never depends on the hold that has passed, but for
/// whether a backup runs.
pub proof fn a_passed_hold_leaves_the_rest_alone(
    runtime: ServiceRuntime,
    now: i128,
    conditions: SystemConditions,
)
    requires
        !runtime.state.update_pending(now),
    ensures
        ({
            let seen = snapshot_of(runtime, now, conditions);
            &&& seen.last_success == runtime.state.status.last_success
            &&& seen.resumed_at == runtime.state.resumed_at
            &&& seen.not_before == runtime.state.not_before
            &&& seen.manual_requested == runtime.state.manual_requested
            &&& seen.on_battery == conditions.on_battery
            &&& seen.metered_network == conditions.metered_network
            &&& seen.network_available == conditions.network_available
        }),
{
}

/// The schedule is decided where sources and a repository are configured, the
/// repository was shown to work, and neither an update nor the management stands
/// in the way.
pub proof fn when_the_schedule_is_decided(runtime: ServiceRuntime, now: i128)
    ensures
        is_schedulable(runtime, now) <==> {
            &&& !runtime.state.update_install_active
            &&& runtime.state.update_hold_until is None || runtime.state.update_hold_until->0 <= now
            &&& runtime.config.backup.paths@.len() > 0
            &&& runtime.config.repository.url is Some
            &&& !runtime.state.management_operation_active
            &&& runtime.state.repository_operation is Succeeded
        },
{
}

/// A hold that lasts is looked at again when it ends.
pub proof fn a_hold_is_waited_out(state: RuntimeState, now: i128)
    ensures
        state.update_hold_until is Some && state.update_hold_until->0 > now ==> {
            &&& state.update_pending(now)
            &&& hold_deadline(state, now) == state.update_hold_until
            &&& after_hold(state, now).status.next_deadline == state.update_hold_until
        },
        state.update_pending(now) ==> {
            let kept = after_hold(state, now);
            &&& kept.status.state == (BackupState::Waiting { reason: WaitingReason::Update })
            &&& kept.update_hold_until == state.update_hold_until
            &&& kept.update_install_active == state.update_install_active
            &&& kept.manual_requested == state.manual_requested
            &&& kept.not_before == state.not_before
            &&& kept.status.last_success == state.status.last_success
            &&& kept.status.last_attempt == state.status.last_attempt
            &&& kept.status.next_deadline is Some ==> kept.status.next_deadline->0 > now
        },
        !state.update_pending(now) ==> {
            let kept = after_hold(state, now);
            &&& kept.update_hold_until is None
            &&& kept.update_hold_previous_status is None
            &&& kept.manual_requested == state.manual_requested
            &&& kept.status.last_success == state.status.last_success
            &&& state.update_hold_previous_status is None ==> kept.status == state.status
            &&& state.status.state != (BackupState::Waiting { reason: WaitingReason::Update })
                ==> kept.status == state.status
        },
{
}

/// Each blocker of the schedule is waited for under its own name.
pub proof fn a_blocker_is_waited_for_by_name(
    state: RuntimeState,
    now: i128,
    decision: ScheduleDecision,
)
    requires
        decision matches ScheduleDecision::Waiting { blockers, .. } && blockers@.len() > 0,
    ensures
        ({
            let waits = after_decision(state, now, decision);
            let first = decision->blockers@[0];
            &&& waits.status.state is Waiting
            &&& first == ScheduleBlocker::WakeGrace <==> waits.status.state == (
            BackupState::Waiting { reason: WaitingReason::WakeGrace })
            &&& first == ScheduleBlocker::NetworkUnavailable <==> waits.status.state == (
            BackupState::Waiting { reason: WaitingReason::Network })
            &&& first == ScheduleBlocker::BatteryDisallowed <==> waits.status.state == (
            BackupState::Waiting { reason: WaitingReason::Battery })
            &&& first == ScheduleBlocker::MeteredNetworkDisallowed <==> waits.status.state == (
            BackupState::Waiting { reason: WaitingReason::MeteredNetwork })
            &&& waits.status.next_deadline is Some
            &&& decision->retry_at is Some ==> waits.status.next_deadline == decision->retry_at
            &&& decision->retry_at is None && state.not_before is Some
                ==> waits.status.next_deadline == state.not_before
            &&& decision->retry_at is None && state.not_before is None
                ==> waits.status.next_deadline == Some(now)
            &&& waits.manual_requested == state.manual_requested
            &&& waits.resumed_at == state.resumed_at
            &&& waits.not_before == state.not_before
            &&& waits.status.last_attempt == state.status.last_attempt
        }),
{
}

/// A backup that starts uses up what asked for it, and is the last attempt.
pub proof fn a_start_uses_up_its_reasons(state: RuntimeState, now: i128, decision: ScheduleDecision)
    requires
        decision is Start,
    ensures
        ({
            let runs = after_decision(state, now, decision);
            &&& runs.status.state == (BackupState::Running { phase: BackupPhase::PreparingSnapshot })
            &&& runs.status.state_since == now
            &&& runs.status.last_attempt == Some(now)
            &&& runs.status.last_success == state.status.last_success
            &&& runs.status.next_deadline is None
            &&& runs.status.progress is None
            &&& !runs.manual_requested
            &&& runs.resumed_at is None
            &&& runs.not_before is None
            &&& runs.consecutive_failures == state.consecutive_failures
            &&& runs.service_state == state.service_state
            &&& runs.repository_operation == state.repository_operation
        }),
{
}

/// A service with nothing due goes back to rest until its deadline.
pub proof fn nothing_due_means_rest(state: RuntimeState, now: i128, decision: ScheduleDecision)
    requires
        decision is Idle,
    ensures
        ({
            let rests = after_decision(state, now, decision);
            &&& rests.status.next_deadline == Some(decision->next_deadline)
            &&& rests.resumed_at is None
            &&& state.status.state is Waiting ==> rests.status.state is Idle
                && rests.status.state_since == now
            &&& !(state.status.state is Waiting) ==> rests.status.state == state.status.state
                && rests.status.state_since == state.status.state_since
            &&& rests.manual_requested == state.manual_requested
            &&& rests.not_before == state.not_before
            &&& rests.status.last_attempt == state.status.last_attempt
            &&& rests.status.last_success == state.status.last_success
        }),
{
}

/// A backup that runs already is left alone.
pub proof fn a_running_backup_is_left_alone(state: RuntimeState, now: i128)
    ensures
        after_decision(state, now, ScheduleDecision::AlreadyRunning) == state,
{
}

/// The loop wakes no later than the deadline and at most a millisecond early,
/// and looks at its conditions every minute while it waits for them.
pub proof fn the_loop_wakes_in_time(runtime: ServiceRuntime, now: i128)
    ensures
        ({
            let delay = runtime.evaluation_delay(now);
            let state = runtime.state.status.state;
            let polls = runtime.state.management_operation_active || state == (
            BackupState::Waiting { reason: WaitingReason::Network }) || state == (
            BackupState::Waiting { reason: WaitingReason::Battery }) || state == (
            BackupState::Waiting { reason: WaitingReason::MeteredNetwork });
            &&& polls ==> delay == 60_000
            &&& !polls && runtime.state.status.next_deadline is None ==> delay == 3_600_000
            &&& !polls && runtime.state.status.next_deadline is Some ==> {
                let deadline = runtime.state.status.next_deadline->0;
                &&& deadline <= now ==> delay == 0
                &&& deadline > now ==> delay * 1_000_000 <= deadline - now
                &&& deadline > now && delay < u64::MAX ==> deadline - now < (delay + 1) * 1_000_000
            }
        }),
{
}

/// The next backup is due a whole number of hours after the last one, and now
/// where there was none. It is never earlier for a longer interval.
pub proof fn a_backup_is_due_one_interval_after_the_last(
    last_success: i128,
    now: i128,
    hours: u32,
    more_hours: u32,
)
    requires
        representable(last_success as int),
        hours <= more_hours,
        representable(last_success + more_hours * 3_600_000_000_000),
    ensures
        deadline_after(None, now, hours) == now,
        deadline_after(Some(last_success), now, hours) - last_success == hours * 3_600_000_000_000,
        deadline_after(Some(last_success), now, hours) <= deadline_after(
            Some(last_success),
            now,
            more_hours,
        ),
{
}

/// An interval that leads out of the calendar makes the backup due now.
pub proof fn the_calendar_ends_every_wait(instant: i128, seconds: i64, now: i128)
    ensures
        representable(instant as int) && representable(instant + seconds * 1_000_000_000)
            ==> moved_or(instant, seconds, now) - instant == seconds * 1_000_000_000,
        !representable(instant + seconds * 1_000_000_000) ==> moved_or(instant, seconds, now) == now,
{
}

/// A status that does not change keeps the time since when it holds.
pub proof fn a_status_dates_from_its_change(status: ServiceStatus, next: BackupState, now: i128)
    ensures
        ({
            let after = transitioned(status, next, now);
            &&& after.state.reads_as(next)
            &&& status.state == next ==> after == status
            &&& !status.state.reads_as(next) ==> after.state == next && after.state_since == now
            &&& after.last_attempt == status.last_attempt
            &&& after.last_success == status.last_success
            &&& after.next_deadline == status.next_deadline
            &&& after.repository_display_name == status.repository_display_name
            &&& after.repository_mode == status.repository_mode
            &&& after.managed_revision == status.managed_revision
            &&& after.progress == status.progress
        }),
{
}

/// States read the same only where they are of one kind, with the same cause.
pub proof fn states_are_told_apart(left: BackupState, right: BackupState)
    ensures
        left.reads_as(left),
        left.reads_as(right) == right.reads_as(left),
        left is Failed && right is Failed ==> (left.reads_as(right) <==> left->code@ == right->code@),
        left is Failed != right is Failed ==> !left.reads_as(right),
        !(left is Failed) && !(right is Failed) ==> (left.reads_as(right) <==> left == right),
{
}

/// The later of two times is one of them, and neither is after it.
pub proof fn the_later_is_no_earlier(left: i128, right: i128)
    ensures
        later(left, right) >= left,
        later(left, right) >= right,
        later(left, right) == left || later(left, right) == right,
{
}

/// A network is there where some profile is connected, and costs nothing where
/// some connected profile has no limit, does not roam and is within its limit.
pub proof fn what_the_machine_reports(
    conditions: SystemConditions,
    mains: bool,
    profiles: Seq<ConnectionProfile>,
    at: int,
)
    requires
        conditions.describes(mains, profiles),
    ensures
        conditions.on_battery != mains,
        0 <= at < profiles.len() && profiles[at].connected ==> conditions.network_available,
        conditions.network_available ==> exists|i: int|
            0 <= i < profiles.len() && (#[trigger] profiles[i]).connected,
        0 <= at < profiles.len() && profiles[at].connected && profiles[at].unrestricted_cost
            && !profiles[at].roaming && !profiles[at].over_data_limit ==> !conditions.metered_network,
        conditions.metered_network ==> conditions.network_available,
        conditions.network_available && !conditions.metered_network ==> exists|i: int|
            0 <= i < profiles.len() && (#[trigger] profiles[i]).connected
                && profiles[i].unrestricted_cost && !profiles[i].roaming
                && !profiles[i].over_data_limit,
{
}

} // verus!

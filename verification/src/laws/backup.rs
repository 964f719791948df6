//! What the end of a backup, of its retention and of an operation leaves behind.
use crate::config::chars_of;
use crate::history::CompletedBackupRun;
use crate::outcome::{
    is_misleading, is_safe_item, saturating_sum, BackupOutcome, BackupOutcomeKind, FailureDetails,
    RepositoryOutcome, RepositoryOutcomeKind, RetentionOutcome, RetentionOutcomeKind,
};
use crate::protocol::{RepositoryOperationKind, RepositoryOperationStatus};
use crate::runtime::lifecycle::{
    after_backup, after_install, backoff_exponent, failures_after, is_history_of, operation_ended,
    prune_is_due, released, reports_backup_end, reports_operation_end, retention_error, retry_at,
    retry_minutes,
};
use crate::runtime::events::UpdateInstallOutcome;
use crate::runtime::state::{Diagnostic, RuntimeState};
use crate::diagnostics::DiagnosticLevel;
use crate::status::{BackupRunOutcome, BackupState};
use vstd::prelude::*;

verus! {

/// A run goes into the history with the numbers of its summary, each under its
/// own name, and with its own times.
pub proof fn the_history_keeps_the_summary(
    run: CompletedBackupRun,
    started_at: i128,
    now: i128,
    outcome: BackupOutcome,
)
    requires
        is_history_of(run, started_at, now, outcome),
    ensures
        run.started_at == started_at,
        run.completed_at == now,
        outcome.summary is Some ==> {
            &&& run.files_processed == Some(outcome.summary->0.files_processed)
            &&& run.bytes_processed == Some(outcome.summary->0.bytes_processed)
            &&& run.data_added == Some(outcome.summary->0.data_added)
            &&& run.snapshot_id == outcome.summary->0.snapshot_id
        },
        outcome.summary is None ==> run.files_processed is None && run.bytes_processed is None
            && run.data_added is None && run.snapshot_id is None,
        run.failed_items@.len() == outcome.failure_details@.items.len(),
        forall|i: int|
            0 <= i < run.failed_items@.len() ==> (#[trigger] run.failed_items@[i])@
                == outcome.failure_details@.items[i],
        run.failed_items_omitted == outcome.failure_details@.omitted,
{
    assert forall|i: int| 0 <= i < run.failed_items@.len() implies (
    #[trigger] run.failed_items@[i])@ == outcome.failure_details@.items[i] by {
        assert(crate::config::texts_of(run.failed_items@)[i] == run.failed_items@[i]@);
    }
}

/// A run goes into the history as what it was, with the code of what went wrong.
pub proof fn the_history_keeps_the_outcome(
    run: CompletedBackupRun,
    started_at: i128,
    now: i128,
    outcome: BackupOutcome,
)
    requires
        is_history_of(run, started_at, now, outcome),
    ensures
        run.outcome is Succeeded <==> outcome.kind is Succeeded,
        run.outcome is SucceededWithWarnings <==> outcome.kind is SucceededWithWarnings,
        run.outcome is Failed <==> outcome.kind is Failed,
        run.outcome is Cancelled <==> outcome.kind is Cancelled,
        outcome.kind is Failed ==> run.error_code == Some(outcome.kind->code),
        outcome.kind is SucceededWithWarnings ==> run.error_code == outcome.warning_code,
        outcome.kind is Succeeded || outcome.kind is Cancelled ==> run.error_code is None,
{
}

/// Data is pruned where it never was, and where the last time is at least the
/// interval ago, and not before.
pub proof fn pruning_waits_for_its_interval(last_prune: i128, now: i128, interval_days: u32)
    ensures
        prune_is_due(None, now, interval_days),
        now - last_prune < interval_days * 86_400_000_000_000 ==> !prune_is_due(
            Some(last_prune),
            now,
            interval_days,
        ),
        now - last_prune >= interval_days * 86_400_000_000_000 ==> prune_is_due(
            Some(last_prune),
            now,
            interval_days,
        ),
{
}

/// Pruning that is due stays due as time passes, and for a shorter interval.
pub proof fn due_pruning_stays_due(
    last_prune: Option<i128>,
    now: i128,
    later: i128,
    interval_days: u32,
    shorter: u32,
)
    requires
        prune_is_due(last_prune, now, interval_days),
        now <= later,
        shorter <= interval_days,
    ensures
        prune_is_due(last_prune, later, interval_days),
        prune_is_due(last_prune, now, shorter),
{
    if last_prune is Some {
        assert(shorter * 86_400_000_000_000 <= interval_days * 86_400_000_000_000);
    }
}

/// Right after a prune nothing is pruned again, unless the interval is no time
/// at all.
pub proof fn a_prune_starts_the_interval(now: i128, interval_days: u32)
    ensures
        prune_is_due(Some(now), now, interval_days) <==> interval_days == 0,
{
}

/// What keeps a retention from succeeding is told, and a success tells nothing.
pub proof fn a_retention_tells_what_failed(retention: RetentionOutcome)
    ensures
        retention_error(retention) is None <==> retention.kind is Succeeded,
        retention.kind is Failed ==> retention_error(retention) == Some(retention.kind->code@),
        retention.kind is Cancelled ==> retention_error(retention) == Some("retention_cancelled"@),
{
}

/// A backup that made a snapshot is the last success, is due again after the
/// interval, and forgets the failures before it.
pub proof fn a_success_is_remembered(
    state: RuntimeState,
    now: i128,
    outcome: BackupOutcome,
    interval_hours: u32,
)
    requires
        outcome.kind is Succeeded || outcome.kind is SucceededWithWarnings,
    ensures
        ({
            let after = after_backup(state, now, outcome, interval_hours);
            &&& after.status.last_success == Some(now)
            &&& after.service_state.last_success == Some(now)
            &&& after.consecutive_failures == 0
            &&& after.not_before is None
            &&& crate::time::representable(now as int) && crate::time::representable(
                now + interval_hours * 3_600_000_000_000,
            ) ==> after.status.next_deadline == Some(
                (now + interval_hours * 3_600_000_000_000) as i128,
            )
            &&& outcome.kind is Succeeded ==> after.status.state is Succeeded
            &&& outcome.kind is SucceededWithWarnings ==> after.status.state
                is SucceededWithWarnings
        }),
{
}

/// A backup that made no snapshot is tried again after the wait, and what
/// succeeded before it is not forgotten. Only a failure makes the wait longer.
pub proof fn a_failure_is_tried_again(
    state: RuntimeState,
    now: i128,
    outcome: BackupOutcome,
    interval_hours: u32,
)
    requires
        outcome.kind is Failed || outcome.kind is Cancelled,
        crate::time::representable(now as int),
    ensures
        ({
            let after = after_backup(state, now, outcome, interval_hours);
            let failures = after.consecutive_failures;
            &&& after.status.last_success == state.status.last_success
            &&& after.service_state == state.service_state
            &&& outcome.kind is Cancelled ==> failures == state.consecutive_failures
            &&& outcome.kind is Failed && state.consecutive_failures < u32::MAX ==> failures
                == state.consecutive_failures + 1
            &&& outcome.kind is Failed ==> failures >= state.consecutive_failures && failures > 0
            &&& after.not_before is Some
            &&& after.not_before == after.status.next_deadline
            &&& after.not_before->0 - now == retry_minutes(failures) * 60_000_000_000
            &&& now + 300_000_000_000 <= after.not_before->0 <= now + 19_200_000_000_000
            &&& outcome.kind is Failed ==> after.status.state == (BackupState::Failed {
                code: outcome.kind->code,
            })
            &&& outcome.kind is Cancelled ==> after.status.state is Cancelled
        }),
{
    let after = after_backup(state, now, outcome, interval_hours);
    crate::runtime::lifecycle::the_wait_is_bounded(after.consecutive_failures);
}

/// Whatever a backup came to, it does not run any more, and nothing else that
/// the service is about changes.
pub proof fn an_end_changes_the_backup_alone(
    state: RuntimeState,
    now: i128,
    outcome: BackupOutcome,
    interval_hours: u32,
)
    ensures
        ({
            let after = after_backup(state, now, outcome, interval_hours);
            &&& !(after.status.state is Running)
            &&& after.status.state_since == now
            &&& after.status.progress is None
            &&& after.status.next_deadline is Some
            &&& after.resumed_at is None
            &&& after.status.last_attempt == state.status.last_attempt
            &&& after.status.repository_display_name == state.status.repository_display_name
            &&& after.status.repository_mode == state.status.repository_mode
            &&& after.status.managed_revision == state.status.managed_revision
            &&& after.manual_requested == state.manual_requested
            &&& after.repository_operation == state.repository_operation
            &&& after.update_hold_until == state.update_hold_until
            &&& after.update_install_active == state.update_install_active
            &&& after.service_state.last_prune == state.service_state.last_prune
            &&& after.service_state.last_retention == state.service_state.last_retention
            &&& after.service_state.verified_repository == state.service_state.verified_repository
        }),
{
}

/// The wait after a failure is five minutes, twice as long after each further
/// one, and from the seventh on as long as after the seventh.
pub proof fn the_wait_grows_to_its_end(failures: u32)
    ensures
        failures <= 1 ==> retry_minutes(failures) == 5,
        1 <= failures <= 6 ==> retry_minutes((failures + 1) as u32) == 2 * retry_minutes(failures),
        failures >= 7 ==> retry_minutes(failures) == 320,
{
    reveal_with_fuel(crate::runtime::lifecycle::doubled, 8);
}

/// The log tells how a backup ended: errors of failures, warnings of warnings,
/// with the code, and the rest for information.
pub proof fn the_log_tells_how_a_backup_ended(diagnostic: Diagnostic, outcome: BackupOutcome)
    requires
        reports_backup_end(diagnostic, outcome),
    ensures
        diagnostic.level is Error <==> outcome.kind is Failed,
        diagnostic.level is Warning <==> outcome.kind is SucceededWithWarnings,
        diagnostic.level is Information <==> outcome.kind is Succeeded || outcome.kind
            is Cancelled,
        outcome.kind is Failed ==> diagnostic.code is Some && diagnostic.code->0@
            == outcome.kind->code@ && diagnostic.event_id@ == "backup.failed"@,
        outcome.kind is SucceededWithWarnings ==> chars_of(diagnostic.code) == chars_of(
            outcome.warning_code,
        ) && diagnostic.event_id@ == "backup.warning"@,
        outcome.kind is Succeeded ==> diagnostic.code is None && diagnostic.event_id@
            == "backup.succeeded"@,
        outcome.kind is Cancelled ==> diagnostic.code is None && diagnostic.event_id@
            == "backup.cancelled"@,
{
}

/// The log tells how an operation on the repository ended.
pub proof fn the_log_tells_how_an_operation_ended(
    diagnostic: Diagnostic,
    outcome: RepositoryOutcome,
)
    requires
        reports_operation_end(diagnostic, outcome),
    ensures
        diagnostic.level is Error <==> outcome.kind is Failed,
        !(diagnostic.level is Warning),
        outcome.kind is Failed ==> diagnostic.code is Some && diagnostic.code->0@
            == outcome.kind->code@ && diagnostic.event_id@ == "repository.operation_failed"@,
        outcome.kind is Succeeded ==> diagnostic.code is None && diagnostic.event_id@
            == "repository.operation_succeeded"@,
        outcome.kind is Cancelled ==> diagnostic.code is None && diagnostic.event_id@
            == "repository.operation_cancelled"@,
{
}

/// A line of the log says what it was given, word for word.
pub proof fn a_line_says_what_it_was_given(
    diagnostic: Diagnostic,
    level: DiagnosticLevel,
    event_id: Seq<char>,
    message: Seq<char>,
    code: Option<Seq<char>>,
)
    requires
        diagnostic.reads(level, event_id, message, code),
    ensures
        diagnostic.level == level,
        diagnostic.event_id@ == event_id,
        diagnostic.message@ == message,
        code is None ==> diagnostic.code is None,
        code is Some ==> diagnostic.code is Some && diagnostic.code->0@ == code->0,
{
}

/// An operation allows backups only where it succeeded and that was saved. What
/// else it came to is shown as a failure of that operation at that time.
pub proof fn only_a_saved_success_allows_backups(
    status: RepositoryOperationStatus,
    operation: RepositoryOperationKind,
    completed_at: i128,
    outcome: RepositoryOutcome,
    saved: bool,
)
    requires
        operation_ended(status, operation, completed_at, outcome, saved),
    ensures
        status.allows_backup() <==> outcome.kind is Succeeded && saved,
        status.allows_backup() ==> status == (RepositoryOperationStatus::Succeeded {
            operation,
            completed_at,
        }),
        !status.allows_backup() ==> status is Failed && status->Failed_operation == operation
            && status->Failed_completed_at == completed_at,
        outcome.kind is Failed ==> status->code@ == outcome.kind->code@,
        outcome.kind is Succeeded && !saved ==> status->code@ == "state_save_failed"@,
        outcome.kind is Cancelled ==> status->code@ == "repository_operation_cancelled"@,
{
}

/// An installation that failed gives the service free with the status that it
/// had; one that completed leaves the hold to run out; one whose end is unclear
/// keeps it held.
pub proof fn what_an_installation_leaves(
    state: RuntimeState,
    outcome: UpdateInstallOutcome,
    now: i128,
)
    ensures
        ({
            let after = after_install(state, outcome, now);
            &&& after.update_install_active <==> outcome is Indeterminate
            &&& outcome is Failed ==> after.update_hold_until is None
                && after.update_hold_previous_status is None
            &&& !(outcome is Failed) ==> after.update_hold_until == state.update_hold_until
                && after.status == state.status && after.update_hold_previous_status
                == state.update_hold_previous_status
            &&& outcome is Failed && state.update_hold_previous_status is Some ==> {
                &&& after.status.state == state.update_hold_previous_status->0.state
                &&& after.status.next_deadline
                    == state.update_hold_previous_status->0.next_deadline
                &&& after.status.state_since == now
            }
            &&& outcome is Failed && state.update_hold_previous_status is None ==> after.status
                == state.status
            &&& after.status.last_success == state.status.last_success
            &&& after.status.last_attempt == state.status.last_attempt
            &&& after.service_state == state.service_state
            &&& after.manual_requested == state.manual_requested
            &&& after.not_before == state.not_before
        }),
{
}

/// A warning is added to a backup that made a snapshot, and to no other. The
/// first warning stands.
pub proof fn a_warning_joins_a_snapshot(
    after: BackupOutcome,
    before: BackupOutcome,
    code: Seq<char>,
)
    requires
        after.warns(before, code),
    ensures
        after.summary == before.summary,
        after.failure_details == before.failure_details,
        before.kind is Succeeded || before.kind is SucceededWithWarnings ==> {
            &&& after.kind is SucceededWithWarnings
            &&& after.warning_code is Some
            &&& before.warning_code is None ==> after.warning_code->0@ == code
            &&& before.warning_code is Some ==> after.warning_code->0@ == before.warning_code->0@
        },
        before.kind is Failed || before.kind is Cancelled ==> after == before,
{
}

/// A snapshot was made where the backup succeeded, with or without warnings.
pub proof fn what_made_a_snapshot(outcome: BackupOutcome)
    ensures
        outcome.made_a_snapshot() <==> outcome.kind is Succeeded || outcome.kind
            is SucceededWithWarnings,
        outcome.made_a_snapshot() <==> !(outcome.kind is Failed || outcome.kind is Cancelled),
{
}

/// A name that could mislead a reader is never kept: no control character, and
/// none that turns the direction of the text.
pub proof fn a_kept_name_does_not_mislead(item: Seq<char>, at: int)
    requires
        is_safe_item(item),
        0 <= at < item.len(),
    ensures
        item[at] > '\u{1f}',
        item[at] < '\u{7f}' || item[at] > '\u{9f}',
        item[at] < '\u{202a}' || item[at] > '\u{202e}',
        item[at] < '\u{2066}' || item[at] > '\u{2069}',
        item[at] != '\u{200e}' && item[at] != '\u{200f}' && item[at] != '\u{61c}',
        vstd::utf8::encode_utf8(item).len() <= crate::outcome::MAX_BACKUP_FAILED_ITEM_BYTES,
{
    assert(!is_misleading(item[at]));
}

/// A short printable ASCII name is kept.
pub proof fn a_plain_name_is_kept(item: Seq<char>)
    requires
        item.len() > 0,
        vstd::utf8::encode_utf8(item).len() <= crate::outcome::MAX_BACKUP_FAILED_ITEM_BYTES,
        forall|i: int| 0 <= i < item.len() ==> ' ' <= #[trigger] item[i] <= '~',
    ensures
        is_safe_item(item),
{
}

/// A name is kept at the end of the list, or counted, or was there already. What
/// was kept stays, and nothing is counted twice.
pub proof fn a_name_is_kept_or_counted(details: FailureDetails, item: Seq<char>)
    ensures
        ({
            let after = details.with_item(item);
            &&& details.items.contains(item) ==> after == details
            &&& !details.items.contains(item) && is_safe_item(item) && details.items.len()
                < crate::outcome::MAX_BACKUP_FAILED_ITEMS ==> after.items == details.items.push(item)
                && after.omitted == details.omitted
            &&& !details.items.contains(item) && (!is_safe_item(item) || details.items.len()
                >= crate::outcome::MAX_BACKUP_FAILED_ITEMS) ==> after.items == details.items && (
            details.omitted < u64::MAX ==> after.omitted == details.omitted + 1)
        }),
{
}

/// Counts add up, and stop at the largest number.
pub proof fn counts_add_up(left: u64, right: u64)
    ensures
        left + right <= u64::MAX ==> saturating_sum(left, right as int) == left + right,
        left + right > u64::MAX ==> saturating_sum(left, right as int) == u64::MAX,
{
}

/// What two streams report comes together: the counts add up where nothing of
/// the second has to be counted instead of kept.
pub proof fn merging_adds_the_counts(left: FailureDetails, omitted: u64)
    ensures
        left.merged(FailureDetails { items: Seq::empty(), omitted }).items == left.items,
        left.merged(FailureDetails { items: Seq::empty(), omitted }).omitted == saturating_sum(
            left.omitted,
            omitted as int,
        ),
        FailureDetails::none().items.len() == 0,
        FailureDetails::none().omitted == 0,
{
}

/// Items are taken in one after the other, from the first to the last.
pub proof fn items_are_taken_in_order(details: FailureDetails, first: Seq<Seq<char>>, item: Seq<char>)
    ensures
        details.with_items(Seq::empty()) == details,
        details.with_items(first.push(item)) == details.with_items(first).with_item(item),
{
    assert(first.push(item).drop_last() =~= first);
}

/// A name that is kept is a name: an empty one is not.
pub proof fn a_kept_name_is_not_empty(item: Seq<char>)
    ensures
        is_safe_item(item) ==> item.len() > 0,
        item.len() == 0 ==> !is_safe_item(item),
{
}

/// An operation is the one that runs where it was begun and has not ended.
pub proof fn which_operation_runs(
    runtime: crate::runtime::state::ServiceRuntime,
    operation: RepositoryOperationKind,
)
    ensures
        runtime.runs_operation(operation) <==> runtime.state.repository_operation is Running
            && runtime.state.repository_operation->Running_operation == operation,
{
}

/// Failures are counted in a row: a failure adds one, a success ends the row, and
/// a cancellation is neither.
pub proof fn failures_make_a_row(failures: u32, code: String)
    ensures
        failures_after(failures, BackupOutcomeKind::Succeeded) == 0,
        failures_after(failures, BackupOutcomeKind::SucceededWithWarnings) == 0,
        failures_after(failures, BackupOutcomeKind::Cancelled) == failures,
        failures < u32::MAX ==> failures_after(failures, BackupOutcomeKind::Failed { code })
            == failures + 1,
        failures_after(u32::MAX, BackupOutcomeKind::Failed { code }) == u32::MAX,
{
}

/// A retention that failed is known by its code.
pub proof fn failed_retentions_are_known_by_their_code(outcome: RetentionOutcome, code: Seq<char>)
    ensures
        outcome.is_failure(code) <==> outcome.kind is Failed && outcome.kind->code@ == code,
{
}

/// Details in bounds are a hundred names at most, no two alike, and each of them
/// one that may be shown.
pub proof fn what_details_in_bounds_are(details: crate::outcome::FailureDetails, i: int, j: int)
    requires
        details.bounded(),
        0 <= i < details.items.len(),
        0 <= j < details.items.len(),
    ensures
        details.items.len() <= 100,
        i != j ==> details.items[i] != details.items[j],
        is_safe_item(details.items[i]),
{
}

} // verus!

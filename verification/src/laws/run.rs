//! What a run of restic goes through, and what its end is reported as.
use crate::config::chars_of;
use crate::executor::{
    backup_failure, backup_warning, blocks_backup, cleanup_code, end_code, invocation_code,
    is_environment_value, operation_failure, reports_backup, reports_invocation, reports_operation,
    BackupEvent, BackupStage, ChildPoll, InvocationError, ProcessEnd, ProcessEvent, ProcessRun,
    ProcessStage, ResticOperation, RetentionEvent, RetentionRun, RetentionStage, TerminationCause,
};
use crate::outcome::{
    BackupOutcome, FailureDetails, RepositoryOutcome, RepositoryOutcomeKind, RetentionOutcomeKind,
};
use crate::output::{
    error_text, event_of, is_progress, is_summary, missing_item, reports_vss_cleanup,
    reports_vss_fallback, Findings, Line, OutputEvent, ParsedOutput, WireMessage,
};
use crate::status::RepositoryMode;
use crate::text;
use vstd::prelude::*;

verus! {

/// Only what adds to a repository, or reads it, is done to one that nothing is
/// removed from; to any other everything is.
pub proof fn an_append_only_repository_only_grows(operation: ResticOperation)
    ensures
        operation.is_allowed_in(RepositoryMode::Standard),
        !ResticOperation::Initialize.is_allowed_in(RepositoryMode::AppendOnly),
        !ResticOperation::Forget.is_allowed_in(RepositoryMode::AppendOnly),
        !ResticOperation::Prune.is_allowed_in(RepositoryMode::AppendOnly),
        operation is Backup || operation is Probe || operation is Unlock || operation is Snapshots
            || operation is Check ==> operation.is_allowed_in(RepositoryMode::AppendOnly),
{
}

/// A credential reaches the environment only as text without a NUL.
pub proof fn a_credential_is_text(bytes: Seq<u8>)
    ensures
        is_environment_value(bytes) ==> vstd::utf8::valid_utf8(bytes),
        is_environment_value(bytes) ==> forall|i: int|
            0 <= i < vstd::utf8::decode_utf8(bytes).len() ==> #[trigger] vstd::utf8::decode_utf8(
                bytes,
            )[i] != '\0',
        vstd::utf8::valid_utf8(bytes) && (forall|i: int|
            0 <= i < vstd::utf8::decode_utf8(bytes).len() ==> #[trigger] vstd::utf8::decode_utf8(
                bytes,
            )[i] != '\0') ==> is_environment_value(bytes),
{
    let chars = vstd::utf8::decode_utf8(bytes);
    if is_environment_value(bytes) {
        assert forall|i: int| 0 <= i < chars.len() implies #[trigger] chars[i] != '\0' by {
            assert(chars.contains(chars[i]));
        }
    }
}

/// A run that goes well takes one step after the other: credentials, wake lock,
/// cancellation, isolation, start, isolation of the child, its output, its end.
pub proof fn a_run_takes_its_steps_in_order(run: ProcessRun)
    ensures
        ({
            let done = ProcessEvent::Stepped { succeeded: true };
            let free = ProcessEvent::Cancellation { requested: false };
            &&& run.stage is ResolveSecrets ==> run.stage_after(done) is AcquireWakeLock
            &&& run.stage is AcquireWakeLock ==> run.stage_after(done) is CheckCancellation
            &&& run.stage is CheckCancellation ==> run.stage_after(free) is CreateJob
            &&& run.stage is CreateJob ==> run.stage_after(done) is SpawnChild
            &&& run.stage is SpawnChild ==> run.stage_after(done) is AssignJob
            &&& run.stage is AssignJob ==> run.stage_after(done) is TakePipes
            &&& run.stage is TakePipes ==> run.stage_after(done) is PollChild
        }),
{
}

/// A step that fails ends the run with its own cause.
pub proof fn a_failed_step_says_which(run: ProcessRun)
    ensures
        ({
            let failed = run.stage_after(ProcessEvent::Stepped { succeeded: false });
            &&& run.stage is ResolveSecrets ==> failed == (ProcessStage::Ended {
                end: ProcessEnd::CredentialUnavailable,
            })
            &&& run.stage is AcquireWakeLock ==> failed == (ProcessStage::Ended {
                end: ProcessEnd::WakeLockUnavailable,
            })
            &&& run.stage is CreateJob ==> failed == (ProcessStage::Ended {
                end: ProcessEnd::IsolationFailed,
            })
            &&& run.stage is SpawnChild ==> failed == (ProcessStage::Ended {
                end: ProcessEnd::StartFailed,
            })
            &&& run.stage is AssignJob ==> failed is ReapChild
            &&& run.stage is TakePipes ==> failed == (ProcessStage::Ended {
                end: ProcessEnd::OutputUnavailable,
            })
            &&& run.stage is Terminate ==> failed == (ProcessStage::Ended {
                end: ProcessEnd::TerminationFailed,
            })
            &&& run.stage is ReapChild ==> failed == (ProcessStage::Ended {
                end: ProcessEnd::IsolationFailed,
            }) && run.stage_after(ProcessEvent::Stepped { succeeded: true }) == failed
            &&& run.stage is CheckCancellation ==> run.stage_after(
                ProcessEvent::Cancellation { requested: true },
            ) == (ProcessStage::Ended { end: ProcessEnd::Cancelled })
        }),
{
}

/// A child is looked at until it ends, is cancelled or runs out of time. An end
/// that is seen counts before anything else, and a cancellation before the time.
pub proof fn what_ends_a_child(run: ProcessRun, poll: ChildPoll, cancelled: bool, elapsed: u64)
    requires
        run.stage is PollChild,
    ensures
        ({
            let next = run.stage_after(ProcessEvent::Polled { poll, cancelled, elapsed });
            &&& poll is Exited ==> next == (ProcessStage::Ended {
                end: ProcessEnd::Exited { status: poll->status },
            })
            &&& poll is Unknown ==> next == (ProcessStage::Terminate {
                cause: TerminationCause::WaitFailed,
            })
            &&& poll is Running && cancelled ==> next == (ProcessStage::Terminate {
                cause: TerminationCause::Cancelled,
            })
            &&& poll is Running && !cancelled && run.timeout is Some && run.timeout->0 <= elapsed
                ==> next == (ProcessStage::Terminate { cause: TerminationCause::TimedOut })
            &&& poll is Running && !cancelled && (run.timeout is None || elapsed < run.timeout->0)
                ==> next is PollChild
        }),
{
}

/// A child that was stopped ends the run with the reason for stopping it.
pub proof fn a_stopped_run_says_why(run: ProcessRun, cause: TerminationCause)
    requires
        run.stage == (ProcessStage::Terminate { cause }),
    ensures
        ({
            let next = run.stage_after(ProcessEvent::Stepped { succeeded: true });
            &&& next is Ended
            &&& cause is Cancelled <==> next->end is Cancelled
            &&& cause is TimedOut <==> next->end is TimedOut
            &&& cause is WaitFailed <==> next->end is WaitFailed
        }),
{
}

/// A run that ended otherwise than by its child or by a cancellation has a code
/// of its own, and no two of them share one.
pub proof fn ends_have_their_own_codes(left: ProcessEnd, right: ProcessEnd)
    ensures
        end_code(left) is None <==> left is Cancelled || left is Exited,
        end_code(left) is Some && end_code(left) == end_code(right) ==> left == right,
        left is TimedOut ==> end_code(left) == Some("repository_operation_timed_out"@),
        left is CredentialUnavailable ==> end_code(left) == Some("credential_unavailable"@),
        left is WakeLockUnavailable ==> end_code(left) == Some("wake_lock_unavailable"@),
        left is IsolationFailed ==> end_code(left) == Some("process_isolation_failed"@),
        left is StartFailed ==> end_code(left) == Some("restic_start_failed"@),
        left is OutputUnavailable ==> end_code(left) == Some("restic_output_unavailable"@),
        left is TerminationFailed ==> end_code(left) == Some("restic_termination_failed"@),
        left is WaitFailed ==> end_code(left) == Some("restic_wait_failed"@),
{
    reveal_strlit("credential_unavailable");
    reveal_strlit("wake_lock_unavailable");
    reveal_strlit("process_isolation_failed");
    reveal_strlit("restic_start_failed");
    reveal_strlit("restic_output_unavailable");
    reveal_strlit("restic_termination_failed");
    reveal_strlit("repository_operation_timed_out");
    reveal_strlit("restic_wait_failed");
    assert("credential_unavailable"@[0] == 'c');
    assert("wake_lock_unavailable"@[0] == 'w');
    assert("process_isolation_failed"@[0] == 'p');
    assert("restic_start_failed"@[7] == 's');
    assert("restic_output_unavailable"@[7] == 'o');
    assert("restic_termination_failed"@[7] == 't');
    assert("repository_operation_timed_out"@[2] == 'p');
    assert("restic_start_failed"@[2] == 's');
    assert("restic_output_unavailable"@[2] == 's');
    assert("restic_termination_failed"@[2] == 's');
    assert("restic_wait_failed"@[2] == 's');
    assert("restic_wait_failed"@[7] == 'w');
}

/// An operation on the repository succeeds exactly where restic ended well.
pub proof fn an_operation_is_what_its_process_was(
    outcome: RepositoryOutcome,
    operation: ResticOperation,
    end: ProcessEnd,
    classified: Option<Seq<char>>,
)
    requires
        reports_operation(outcome, operation, end, classified),
    ensures
        outcome.kind is Succeeded <==> end == (ProcessEnd::Exited { status: Some(0i32) }),
        outcome.kind is Cancelled <==> end is Cancelled,
        outcome.kind is Failed && !(end is Exited) ==> Some(outcome.kind->code@) == end_code(end),
        outcome.kind is Failed && end is Exited ==> outcome.kind->code@ == operation_failure(
            operation,
            end->status,
            classified,
        ),
{
}

/// A probe that restic ends with ten found no repository, whatever else was
/// said. Else what was said names the failure, and where nothing was understood
/// the operation does.
pub proof fn what_a_failed_operation_is_called(
    operation: ResticOperation,
    status: Option<i32>,
    classified: Option<Seq<char>>,
)
    ensures
        ({
            let code = operation_failure(operation, status, classified);
            let missing = operation is Probe && status == Some(10i32);
            &&& missing ==> code == "repository_not_found"@
            &&& !missing && classified is Some ==> code == classified->0
            &&& !missing && classified is None && operation is Probe ==> code
                == "repository_validation_failed"@
            &&& classified is None && operation is Initialize ==> code
                == "repository_initialization_failed"@
            &&& classified is None && !(operation is Probe) && !(operation is Initialize) ==> code
                == "repository_operation_failed"@
        }),
{
}

/// A backup succeeds only where restic ended with zero, or with three for
/// sources it could not read, and summed the snapshot up.
pub proof fn when_a_backup_made_a_snapshot(
    outcome: BackupOutcome,
    status: Option<i32>,
    output: ParsedOutput,
    stderr_output: Result<ParsedOutput, ()>,
    classified: Option<Seq<char>>,
    known_vss_fallback: bool,
)
    requires
        reports_backup(outcome, status, Ok(output), stderr_output, classified, known_vss_fallback),
    ensures
        outcome.made_a_snapshot() <==> output.summary is Some && (status == Some(0i32) || status
            == Some(3i32)),
        outcome.made_a_snapshot() ==> outcome.summary == output.summary,
        !outcome.made_a_snapshot() ==> outcome.summary is None,
        outcome.kind is Cancelled <==> status == Some(130i32),
        status == Some(0i32) && output.summary is None && output.invalid_message
            ==> outcome.kind->code@ == "restic_output_invalid"@,
        status == Some(0i32) && output.summary is None && !output.invalid_message
            ==> outcome.kind->code@ == "restic_summary_missing"@,
        status is None ==> outcome.kind is Failed && outcome.kind->code@ == "restic_terminated"@,
        status is Some && status != Some(0i32) && status != Some(130i32) && !(status == Some(3i32)
            && output.summary is Some) && classified is Some ==> outcome.kind is Failed
            && outcome.kind->code@ == classified->0,
{
}

/// A backup is clean where restic ended with zero and neither stream, nor what
/// was known before, tells of trouble with a filesystem snapshot.
pub proof fn when_a_backup_is_clean(
    outcome: BackupOutcome,
    status: Option<i32>,
    output: ParsedOutput,
    more: ParsedOutput,
    classified: Option<Seq<char>>,
    known_vss_fallback: bool,
)
    requires
        reports_backup(outcome, status, Ok(output), Ok(more), classified, known_vss_fallback),
        outcome.made_a_snapshot(),
    ensures
        outcome.kind is Succeeded <==> {
            &&& status == Some(0i32)
            &&& !known_vss_fallback
            &&& !output.vss_fallback && !more.vss_fallback
            &&& !output.vss_cleanup_failed && !more.vss_cleanup_failed
        },
        outcome.kind is SucceededWithWarnings ==> outcome.warning_code is Some
            && outcome.failure_details@ == output.failure_details@.merged(more.failure_details@),
        outcome.kind is SucceededWithWarnings ==> Some(outcome.warning_code->0@) == backup_warning(
            status == Some(3i32),
            known_vss_fallback || output.vss_fallback || more.vss_fallback,
            output.vss_cleanup_failed || more.vss_cleanup_failed,
        ),
{
}

/// Output that could not be read makes a backup fail, unless it was cancelled.
pub proof fn unreadable_output_is_a_failure(
    outcome: BackupOutcome,
    status: Option<i32>,
    stderr_output: Result<ParsedOutput, ()>,
    classified: Option<Seq<char>>,
    known_vss_fallback: bool,
)
    requires
        reports_backup(outcome, status, Err(()), stderr_output, classified, known_vss_fallback),
    ensures
        status == Some(130i32) ==> outcome.kind is Cancelled,
        status != Some(130i32) ==> outcome.kind is Failed && outcome.kind->code@
            == "restic_output_invalid"@,
{
}

/// A run that never came to an exit is reported by its own cause.
pub proof fn a_backup_is_what_its_process_was(
    outcome: BackupOutcome,
    end: ProcessEnd,
    output: Result<ParsedOutput, ()>,
    stderr_output: Result<ParsedOutput, ()>,
    classified: Option<Seq<char>>,
    known_vss_fallback: bool,
)
    requires
        reports_invocation(outcome, end, output, stderr_output, classified, known_vss_fallback),
    ensures
        end is Cancelled ==> outcome.kind is Cancelled,
        !(end is Cancelled) && !(end is Exited) ==> outcome.kind is Failed && Some(
            outcome.kind->code@,
        ) == end_code(end),
        end is Exited ==> reports_backup(
            outcome,
            end->status,
            output,
            stderr_output,
            classified,
            known_vss_fallback,
        ),
{
}

/// A failed backup is called by what restic said, and where that was not
/// understood by the number it ended with.
pub proof fn what_a_failed_backup_is_called(code: i32, classified: Option<Seq<char>>)
    ensures
        classified is Some ==> backup_failure(Some(code), classified) == classified->0,
        classified is None ==> backup_failure(Some(code), classified) == "restic_exit_"@
            + text::signed_decimal(code as int),
        backup_failure(None, classified) == "restic_terminated"@,
{
}

/// Every combination of troubles has a warning of its own, and no trouble has none.
pub proof fn warnings_name_every_trouble(partial: bool, fallback: bool, cleanup_failed: bool)
    ensures
        backup_warning(partial, fallback, cleanup_failed) is None <==> !partial && !fallback
            && !cleanup_failed,
        backup_warning(true, false, false) == Some("restic_partial_source"@),
        backup_warning(false, true, false) == Some("restic_vss_fallback"@),
        backup_warning(false, false, true) == Some("restic_vss_cleanup_failed"@),
        backup_warning(true, true, false) == Some("restic_vss_fallback_and_partial_source"@),
        backup_warning(true, false, true) == Some("restic_partial_source_and_vss_cleanup_failed"@),
        backup_warning(false, true, true) == Some("restic_vss_fallback_and_cleanup_failed"@),
        backup_warning(true, true, true) == Some(
            "restic_vss_fallback_partial_source_and_cleanup_failed"@,
        ),
{
}

/// A backup goes on after the stale locks are gone, and not without.
pub proof fn stale_locks_stop_a_backup(blocked: Option<BackupOutcome>, cleanup: RepositoryOutcome)
    requires
        blocks_backup(blocked, cleanup),
    ensures
        blocked is None <==> cleanup.kind is Succeeded,
        cleanup.kind is Cancelled ==> blocked->0.kind is Cancelled,
        cleanup.kind is Failed ==> blocked->0.kind is Failed && blocked->0.kind->code@
            == cleanup_code(cleanup.kind->code@),
        cleanup_code("repository_operation_timed_out"@) == "stale_lock_cleanup_timed_out"@,
        cleanup_code("repository_operation_failed"@) == "stale_lock_cleanup_failed"@,
        forall|code: Seq<char>|
            code != "repository_operation_timed_out"@ && code != "repository_operation_failed"@
                ==> #[trigger] cleanup_code(code) == code,
{
    reveal_strlit("repository_operation_timed_out");
    reveal_strlit("repository_operation_failed");
    assert("repository_operation_timed_out"@[21] == 't');
    assert("repository_operation_failed"@[21] == 'f');
}

/// A backup that cannot be planned says what is wrong with its sources.
pub proof fn what_an_unplanned_backup_is_called(error: InvocationError)
    ensures
        error is UnsupportedNetworkBackupSource ==> invocation_code(error)
            == "network_backup_source_unsupported"@,
        error is UnsupportedBackupSourceNamespace ==> invocation_code(error)
            == "backup_source_namespace_unsupported"@,
        error is ProtectedBackupSource ==> invocation_code(error) == "protected_backup_source"@,
        error is Invalid ==> invocation_code(error) == "invalid_configuration"@,
{
}

/// A backup is planned, freed of stale locks, planned again and executed, in
/// that order; it ends where one of these does not go well.
pub proof fn a_backup_takes_its_steps_in_order(
    before: BackupStage,
    event: BackupEvent,
    after: BackupStage,
)
    requires
        after.follows(before, event),
    ensures
        before is Plan ==> after is Plan || after is RemoveStaleLocks || after is Ended,
        before is RemoveStaleLocks ==> after is RemoveStaleLocks || after is PlanAgain || after
            is Ended,
        before is PlanAgain ==> after is PlanAgain || after is Execute || after is Ended,
        before is Execute ==> after is Execute || after is Ended,
        before is Ended ==> after == before,
        before is Plan && after is RemoveStaleLocks ==> event is Planned && event->result is Ok,
        before is RemoveStaleLocks && after is PlanAgain ==> event is CleanedUp && event->outcome.kind is Succeeded,
        before is PlanAgain && after is Execute ==> event is Planned && event->result is Ok,
        before is Execute && after is Ended ==> event == (BackupEvent::Executed {
            backup: after->outcome,
        }),
        (before is Plan || before is PlanAgain) && after is Ended ==> event is Planned && event->result is Err
            && after->outcome.kind is Failed && after->outcome.kind->code@ == invocation_code(
            event->result->Err_0,
        ),
{
}

/// Snapshots are forgotten before data is pruned, data is pruned only where that
/// is due, and the retention succeeded only where every step did.
pub proof fn a_retention_takes_its_steps_in_order(
    run: RetentionRun,
    event: RetentionEvent,
    stage: RetentionStage,
)
    requires
        run.leads_to(event, stage),
    ensures
        run.stage is Forget && stage is PlanPrune ==> run.prune_due,
        run.stage is PlanPrune && stage is Prune ==> event == (RetentionEvent::Planned {
            allowed: true,
        }),
        run.stage is PlanForget && stage is Forget ==> event == (RetentionEvent::Planned {
            allowed: true,
        }),
        (run.stage is PlanForget || run.stage is PlanPrune) && stage is Ended
            ==> stage->outcome.kind is Failed && stage->outcome.kind->code@
            == "retention_forbidden"@ && event == (RetentionEvent::Planned { allowed: false }),
        !(run.stage is Ended) && stage is Ended && stage->outcome.kind is Succeeded ==> {
            &&& event is Ran && event->outcome.kind is Succeeded
            &&& run.stage is Prune || run.stage is Forget && !run.prune_due
            &&& stage->outcome.kind == (RetentionOutcomeKind::Succeeded {
                pruned: run.stage is Prune,
            })
        },
        run.stage is Forget && event is Ran ==> {
            &&& event->outcome.kind is Cancelled ==> stage is Ended && stage->outcome.kind is Cancelled
            &&& event->outcome.kind is Failed ==> stage is Ended && stage->outcome.kind is Failed && (
            event->outcome.kind->code@ == "repository_operation_failed"@ ==> stage->outcome.kind->code@
                == "retention_forget_failed"@) && (event->outcome.kind->code@
                != "repository_operation_failed"@ ==> stage->outcome.kind->code@
                == event->outcome.kind->code@)
        },
        run.stage is Prune && event is Ran ==> {
            &&& event->outcome.kind is Cancelled ==> stage is Ended && stage->outcome.kind is Cancelled
            &&& event->outcome.kind is Failed ==> stage is Ended && stage->outcome.kind is Failed && (
            event->outcome.kind->code@ == "repository_operation_failed"@ ==> stage->outcome.kind->code@
                == "retention_prune_failed"@) && (event->outcome.kind->code@
                != "repository_operation_failed"@ ==> stage->outcome.kind->code@
                == event->outcome.kind->code@)
        },
{
}

/// A status message is progress with the numbers of the message, a summary is a
/// summary with its numbers, each under its own name.
pub proof fn a_message_keeps_its_numbers(message: WireMessage)
    ensures
        message.message_type@ == "status"@ ==> {
            &&& event_of(message) matches Some(OutputEvent::Progress(progress))
                && progress.percent_done == message.percent_done && progress.files_done
                == message.files_done && progress.total_files == message.total_files
                && progress.bytes_done == message.bytes_done && progress.total_bytes
                == message.total_bytes && progress.error_count == message.error_count
        },
        message.message_type@ == "summary"@ ==> {
            &&& event_of(message) matches Some(OutputEvent::Summary(summary))
                && summary.files_processed == message.total_files_processed
                && summary.bytes_processed == message.total_bytes_processed && summary.data_added
                == message.data_added && summary.snapshot_id == message.snapshot_id
        },
        message.message_type@ != "status"@ && message.message_type@ != "summary"@
            && message.message_type@ != "error"@ ==> event_of(message) is None,
{
    reveal_strlit("status");
    reveal_strlit("summary");
    assert("status"@[1] == 't');
    assert("summary"@[1] == 'u');
}

/// An error names the item that failed, or is counted; trouble with a filesystem
/// snapshot is neither.
pub proof fn an_error_names_its_item(message: WireMessage)
    requires
        message.message_type@ == "error"@,
    ensures
        ({
            let said = error_text(message);
            &&& event_of(message) is Some
            &&& reports_vss_fallback(said) <==> event_of(message)->0 is VssFallback
            &&& !reports_vss_fallback(said) && reports_vss_cleanup(said) <==> event_of(message)->0
                is VssCleanupFailed
            &&& !reports_vss_fallback(said) && !reports_vss_cleanup(said) && message.item is Some
                ==> event_of(message) == Some(OutputEvent::FailureItem(message.item->0))
            &&& !reports_vss_fallback(said) && !reports_vss_cleanup(said) && message.item is None
                ==> event_of(message) == Some(OutputEvent::FailureItemOmitted)
            &&& message.error_message is Some ==> said == message.error_message->0@
            &&& message.error_message is None ==> said.len() == 0
        }),
{
    reveal_strlit("status");
    reveal_strlit("summary");
    reveal_strlit("error");
    assert("error"@[0] == 'e');
    assert("status"@[0] == 's');
    assert("summary"@[0] == 's');
}

/// A plain line that ends in a fixed phrase names the source in front of it.
pub proof fn a_missing_source_is_named(source: Seq<char>, line: Seq<char>)
    requires
        source.len() > 0,
        line == source + " does not exist, skipping"@,
    ensures
        missing_item(line) == Some(source),
        missing_item(line.push('\n')) == Some(source),
        missing_item(line.push('\r').push('\n')) == Some(source),
{
    reveal_strlit(" does not exist, skipping");
    let suffix = " does not exist, skipping"@;
    assert(line.last() == 'g');
    assert(line.push('\n').drop_last() =~= line);
    assert(line.push('\r').push('\n').drop_last() =~= line.push('\r'));
    assert(line.push('\r').drop_last() =~= line);
    reveal_with_fuel(crate::output::without_line_end, 3);
    assert(line.subrange(line.len() - suffix.len(), line.len() as int) =~= suffix);
    assert(line.take(line.len() - suffix.len()) =~= source);
}

/// Each line leaves what is known as it was, but for what it says itself.
pub proof fn a_line_adds_what_it_says(before: Findings, line: Line)
    ensures
        ({
            let after = before.after_line(line);
            &&& !is_summary(line) ==> after.summary == before.summary
            &&& line matches Ok(Some(OutputEvent::Summary(summary))) ==> after.summary == Some(
                summary,
            )
            &&& after.invalid_message <==> before.invalid_message || line is Err
            &&& after.vss_fallback <==> before.vss_fallback || line == Ok::<
                Option<OutputEvent>,
                (),
            >(Some(OutputEvent::VssFallback))
            &&& after.vss_cleanup_failed <==> before.vss_cleanup_failed || line == Ok::<
                Option<OutputEvent>,
                (),
            >(Some(OutputEvent::VssCleanupFailed))
            &&& line matches Ok(Some(OutputEvent::FailureItem(item))) ==> after.failure_details
                == before.failure_details.with_item(item@)
            &&& line == Ok::<Option<OutputEvent>, ()>(Some(OutputEvent::FailureItemOmitted))
                ==> after.failure_details.items == before.failure_details.items && (
            before.failure_details.omitted < u64::MAX ==> after.failure_details.omitted
                == before.failure_details.omitted + 1)
            &&& is_progress(line) || is_summary(line) || line is Err ==> after.failure_details
                == before.failure_details
            &&& Findings::nothing().summary is None
            &&& !Findings::nothing().invalid_message
            &&& !Findings::nothing().vss_fallback && !Findings::nothing().vss_cleanup_failed
        }),
{
}

/// An error that names a snapshot it could not create, or a mount point it could
/// not take one of, says that live files were read; case does not matter.
pub proof fn what_reports_a_fallback(message: Seq<char>)
    ensures
        text::contains(text::ascii_lower(message), "failed to create snapshot for ["@)
            ==> reports_vss_fallback(message),
        reports_vss_fallback(message) && !text::contains(
            text::ascii_lower(message),
            "failed to create snapshot for ["@,
        ) ==> text::contains(text::ascii_lower(message), "mount point"@) && text::starts_with(
            text::ascii_lower(message),
            "vss error: getsnapshotproperties()"@,
        ),
        text::contains(text::ascii_lower(message), "mount point"@) && text::starts_with(
            text::ascii_lower(message),
            "vss error: getsnapshotproperties()"@,
        ) ==> reports_vss_fallback(message),
        reports_vss_cleanup(message) <==> text::contains(
            text::ascii_lower(message),
            "failed to delete vss snapshot"@,
        ),
        reports_vss_fallback(text::ascii_upper(message)) == reports_vss_fallback(message),
        reports_vss_cleanup(text::ascii_upper(message)) == reports_vss_cleanup(message),
{
    assert(text::ascii_lower(text::ascii_upper(message)) =~= text::ascii_lower(message));
}

/// Restic's diagnostics are called by what they mention.
pub proof fn diagnostics_are_called_by_what_they_mention(message: Seq<char>)
    ensures
        ({
            let code = crate::output::stderr_code(message);
            let says = |phrase: Seq<char>| text::contains(message, phrase);
            let vss = says("vss error:"@) || says("failed to create snapshot for ["@) || says(
                "failed to delete vss snapshot"@,
            ) || says("volume shadow copy service"@) || says("shadow copy provider"@);
            let denied = says("access denied"@) || says("permission denied"@) || says(
                "insufficient privilege"@,
            );
            let locked = says("already locked"@) || says("repository is locked"@) || says(
                "unable to create lock"@,
            );
            let stranger = says("unauthorized"@) || says("authentication failed"@) || says(
                "invalid access key"@,
            ) || says("wrong password"@);
            let away = says("connection refused"@) || says("connection reset"@) || says(
                "timed out"@,
            ) || says("timeout"@) || says("no such host"@) || says("name resolution"@);
            let missing = says("no such file or directory"@) || says("cannot find the path"@)
                || says("path does not exist"@);
            &&& vss ==> code == Some("restic_vss_unavailable"@)
            &&& !vss && denied ==> code == Some("restic_permission_denied"@)
            &&& !vss && !denied && locked ==> code == Some("restic_repository_locked"@)
            &&& !vss && !denied && !locked && stranger ==> code == Some(
                "restic_authentication_failed"@,
            )
            &&& !vss && !denied && !locked && !stranger && away ==> code == Some(
                "restic_repository_unreachable"@,
            )
            &&& !vss && !denied && !locked && !stranger && !away && missing ==> code == Some(
                "restic_source_unavailable"@,
            )
            &&& !vss && !denied && !locked && !stranger && !away && !missing ==> code is None
        }),
{
}

/// A failure, a cancellation, a success and a warning are what they are called.
pub proof fn outcomes_are_what_they_are_called(
    outcome: BackupOutcome,
    summary: crate::outcome::BackupSummary,
    code: Seq<char>,
    details: FailureDetails,
)
    ensures
        outcome.is_failure(code) ==> outcome.kind is Failed && outcome.kind->code@ == code
            && outcome.summary is None && outcome.warning_code is None
            && outcome.failure_details@.items.len() == 0 && outcome.failure_details@.omitted == 0,
        outcome.is_cancellation() ==> outcome.kind is Cancelled && outcome.summary is None
            && outcome.warning_code is None && outcome.failure_details@.items.len() == 0
            && outcome.failure_details@.omitted == 0,
        outcome.is_clean(summary) ==> outcome.kind is Succeeded && outcome.summary == Some(summary)
            && outcome.warning_code is None && outcome.failure_details@.items.len() == 0,
        outcome.is_warning(summary, code, details) ==> outcome.kind is SucceededWithWarnings
            && outcome.summary == Some(summary) && chars_of(outcome.warning_code) == Some(code)
            && outcome.failure_details@ == details,
{
}

/// An operation that failed is called by its code.
pub proof fn failed_operations_are_called_by_their_code(outcome: RepositoryOutcome, code: Seq<char>)
    ensures
        outcome.is_failure(code) <==> outcome.kind is Failed && outcome.kind->code@ == code,
        outcome.is_failure(code) ==> !(outcome.kind == RepositoryOutcomeKind::Succeeded),
{
}

/// A plain line names a missing source only where it ends in the phrase, with
/// something in front of it.
pub proof fn other_lines_name_no_source(line: Seq<char>, at: int)
    requires
        missing_item(line) is Some,
    ensures
        ({
            let bare = crate::output::without_line_end(line);
            &&& bare.len() > " does not exist, skipping"@.len()
            &&& missing_item(line)->0.len() > 0
            &&& bare == missing_item(line)->0 + " does not exist, skipping"@
            &&& bare.len() <= line.len()
        }),
{
    let bare = crate::output::without_line_end(line);
    let suffix = " does not exist, skipping"@;
    line_ends_go(line);
    assert(bare =~= bare.take(bare.len() - suffix.len()) + bare.subrange(
        bare.len() - suffix.len(),
        bare.len() as int,
    ));
}

/// Line ends at the end of a line go, and nothing else does.
pub proof fn line_ends_go(line: Seq<char>)
    ensures
        ({
            let bare = crate::output::without_line_end(line);
            &&& bare.len() <= line.len()
            &&& bare == line.take(bare.len() as int)
            &&& bare.len() > 0 ==> bare.last() != '\n' && bare.last() != '\r'
            &&& forall|i: int|
                bare.len() <= i < line.len() ==> #[trigger] line[i] == '\n' || line[i] == '\r'
        }),
    decreases line.len(),
{
    let bare = crate::output::without_line_end(line);
    if line.len() > 0 && (line.last() == '\r' || line.last() == '\n') {
        line_ends_go(line.drop_last());
        assert(bare =~= line.take(bare.len() as int));
        assert forall|i: int| bare.len() <= i < line.len() implies #[trigger] line[i] == '\n'
            || line[i] == '\r' by {
            if i < line.len() - 1 {
                assert(line.drop_last()[i] == line[i]);
            }
        }
    } else {
        assert(line.take(line.len() as int) =~= line);
    }
}

/// A line of up to a megabyte is handed on, and a longer one is not; the first
/// bytes of a stream are kept up to the limit.
pub proof fn what_is_handed_on(line: Result<Vec<u8>, ()>, bytes: Seq<u8>, limit: nat)
    ensures
        crate::output::hands_on(line, bytes) && bytes.len() <= 1_048_576 ==> line is Ok
            && line->Ok_0@ == bytes,
        crate::output::hands_on(line, bytes) && bytes.len() > 1_048_576 ==> line is Err,
        bytes.len() <= limit ==> crate::output::prefix_of(bytes, limit as int) == bytes,
        bytes.len() > limit ==> crate::output::prefix_of(bytes, limit as int) == bytes.take(
            limit as int,
        ),
{
}

/// A line ends behind its first line end, and where there is none at the end.
pub proof fn where_a_line_ends(bytes: Seq<u8>, from: int, i: int)
    requires
        0 <= from <= bytes.len(),
    ensures
        ({
            let end = crate::output::line_end(bytes, from);
            &&& from <= end <= bytes.len()
            &&& from <= i < end - 1 ==> bytes[i] != 10
            &&& end < bytes.len() ==> end > from && bytes[end - 1] == 10
        }),
    decreases bytes.len() - from,
{
    if from < bytes.len() && bytes[from] != 10 {
        where_a_line_ends(bytes, from + 1, i);
    }
}

/// The credential that is refused is one of those asked for, and every one
/// before it was given.
pub proof fn which_credential_is_refused<R: crate::executor::SecretResolver>(
    resolver: &R,
    references: Map<crate::config::SecretEnvironmentVariable, Seq<char>>,
    refused: crate::config::SecretEnvironmentVariable,
    error: crate::executor::SecretResolveError,
    earlier: crate::config::SecretEnvironmentVariable,
)
    requires
        crate::executor::is_first_refused(resolver, references, refused, error),
    ensures
        references.contains_key(refused),
        crate::executor::refuses(resolver, references[refused], error),
        references.contains_key(earlier) && earlier.rank() < refused.rank()
            ==> crate::executor::is_resolved(resolver, references[earlier]),
{
}

/// A new token asks for nothing, a request is one of its token alone, and a token
/// that nobody issued asks for nothing.
pub proof fn a_request_is_one_of_its_token(
    requests: Seq<bool>,
    token: crate::executor::CancellationToken,
    other: crate::executor::CancellationToken,
)
    ensures
        ({
            let issued = crate::executor::after_cancellation_step(
                requests,
                crate::executor::CancellationStep::Issue,
            );
            let cancelled = crate::executor::after_cancellation_step(
                requests,
                crate::executor::CancellationStep::Cancel { token },
            );
            &&& issued.len() == requests.len() + 1
            &&& !issued.last()
            &&& token.is_issued(requests) ==> token.is_requested(cancelled)
            &&& token.number() != other.number() ==> other.is_requested(cancelled)
                == other.is_requested(requests)
            &&& token.is_issued(requests) ==> token.is_requested(issued) == token.is_requested(
                requests,
            )
            &&& !token.is_issued(requests) ==> !token.is_requested(requests) && cancelled == requests
            &&& cancelled.len() == requests.len()
        }),
{
}

/// What was learnt of a stream is seen as it is.
pub proof fn findings_are_seen_as_they_are(parsed: ParsedOutput)
    ensures
        parsed@.summary == parsed.summary,
        parsed@.invalid_message == parsed.invalid_message,
        parsed@.failure_details == parsed.failure_details@,
        parsed@.vss_fallback == parsed.vss_fallback,
        parsed@.vss_cleanup_failed == parsed.vss_cleanup_failed,
        parsed.is_empty() ==> parsed.summary is None && !parsed.invalid_message
            && !parsed.vss_fallback && !parsed.vss_cleanup_failed
            && parsed.failure_details@.items.len() == 0 && parsed.failure_details@.omitted == 0,
{
}

/// A resolver answers for the reference that it was asked for.
pub proof fn a_resolver_answers_for_its_reference<R: crate::executor::SecretResolver>(
    resolver: &R,
    reference: Seq<char>,
    value: String,
    error: crate::executor::SecretResolveError,
)
    ensures
        crate::executor::resolves(resolver, reference, value) ==> exists|text: &str|
            text@ == reference && #[trigger] call_ensures(R::resolve, (resolver, text), Ok(value)),
        crate::executor::refuses(resolver, reference, error) ==> exists|text: &str|
            text@ == reference && #[trigger] call_ensures(R::resolve, (resolver, text), Err(error)),
        crate::executor::resolves(resolver, reference, value) ==> crate::executor::is_resolved(
            resolver,
            reference,
        ),
{
}

/// A stream is cut at its line ends and nowhere else: each line holds one, as its
/// last byte, and what has come of the next line holds none.
pub proof fn lines_end_where_they_are_cut(stream: Seq<u8>)
    ensures
        ({
            let (lines, rest) = crate::output::cut(stream);
            &&& lines.flatten() + rest == stream
            &&& forall|i: int|
                0 <= i < lines.len() ==> (#[trigger] lines[i]).len() > 0 && lines[i].last() == 10
            &&& forall|i: int, j: int|
                0 <= i < lines.len() && 0 <= j < lines[i].len() - 1 ==> #[trigger] lines[i][j] != 10
            &&& forall|j: int| 0 <= j < rest.len() ==> #[trigger] rest[j] != 10
        }),
    decreases stream.len(),
{
    let (lines, rest) = crate::output::cut(stream);
    if stream.len() > 0 {
        let (before, open) = crate::output::cut(stream.drop_last());
        lines_end_where_they_are_cut(stream.drop_last());
        assert(stream =~= stream.drop_last().push(stream.last()));
        if stream.last() == 10 {
            before.lemma_flatten_push(open.push(10));
            assert(lines.flatten() + rest =~= (before.flatten() + open).push(10));
        } else {
            assert(lines.flatten() + rest =~= (before.flatten() + open).push(stream.last()));
        }
    } else {
        assert(lines.flatten() + rest =~= stream);
    }
}

} // verus!

//! What is kept of past runs, and read back of them.
use crate::config::chars_of;
use crate::history::{
    column, difference, first_fault, has_outcome, in_calendar, instant_at, is_identifier,
    is_identifier_character, is_negative, is_readable, normalized, number_of, outcome_text,
    readable_items, reads_row, sanitized, stored_identifier, stored_number, stored_optional,
    BackupRunRecord, CompletedBackupRun, HistoryError, PreparedRun, RawRunRecord,
};
use crate::outcome::{is_safe_item, FailureDetails};
use crate::status::BackupRunOutcome;
use crate::time::{millisecond_of, representable};
use vstd::prelude::*;

verus! {

/// A run is stored with its own times and numbers, each in its own column.
pub proof fn a_run_is_stored_by_name(prepared: PreparedRun, run: CompletedBackupRun)
    requires
        prepared.stores(run),
    ensures
        prepared.started_at_ms == millisecond_of(run.started_at),
        prepared.completed_at_ms == millisecond_of(run.completed_at),
        prepared.outcome == run.outcome,
        prepared.files_processed is Some <==> run.files_processed is Some,
        prepared.bytes_processed is Some <==> run.bytes_processed is Some,
        prepared.data_added is Some <==> run.data_added is Some,
        run.files_processed is Some && run.files_processed->0 <= i64::MAX
            ==> prepared.files_processed == run.files_processed,
        run.bytes_processed is Some && run.bytes_processed->0 <= i64::MAX
            ==> prepared.bytes_processed == run.bytes_processed,
        run.data_added is Some && run.data_added->0 <= i64::MAX ==> prepared.data_added
            == run.data_added,
        run.snapshot_id is Some && is_identifier(run.snapshot_id->0@) ==> chars_of(
            prepared.snapshot_id,
        ) == chars_of(run.snapshot_id),
        run.error_code is Some && is_identifier(run.error_code->0@) ==> chars_of(
            prepared.error_code,
        ) == chars_of(run.error_code),
        run.snapshot_id is None ==> prepared.snapshot_id is None,
        run.error_code is None ==> prepared.error_code is None,
{
}

/// A row is read back by the names of its columns.
pub proof fn a_row_is_read_by_name(record: BackupRunRecord, row: RawRunRecord)
    requires
        reads_row(record, row),
        is_readable(row),
    ensures
        record.id == row.id,
        record.started_at == row.started_at_ms * 1_000_000,
        record.completed_at == row.completed_at_ms * 1_000_000,
        row.files_processed is Some ==> record.files_processed is Some && record.files_processed->0
            == row.files_processed->0,
        row.bytes_processed is Some ==> record.bytes_processed is Some && record.bytes_processed->0
            == row.bytes_processed->0,
        row.data_added is Some ==> record.data_added is Some && record.data_added->0
            == row.data_added->0,
        row.files_processed is None ==> record.files_processed is None,
        row.bytes_processed is None ==> record.bytes_processed is None,
        row.data_added is None ==> record.data_added is None,
        record.failed_item_count == row.failed_item_count,
        outcome_text(record.outcome) == row.outcome@,
        row.error_code is Some && is_identifier(row.error_code->0@) ==> record.error_code is Some
            && record.error_code->0@ == row.error_code->0@,
        row.snapshot_id is Some && is_identifier(row.snapshot_id->0@) ==> record.snapshot_id is Some
            && record.snapshot_id->0@ == row.snapshot_id->0@,
{
}

/// What was prepared is what the row holds, column by column.
pub proof fn a_row_holds_what_was_prepared(prepared: PreparedRun, id: i64, outcome: String)
    requires
        prepared.files_processed is Some ==> prepared.files_processed->0 <= i64::MAX,
        prepared.bytes_processed is Some ==> prepared.bytes_processed->0 <= i64::MAX,
        prepared.data_added is Some ==> prepared.data_added->0 <= i64::MAX,
    ensures
        ({
            let row = prepared.row(id, outcome);
            &&& row.id == id
            &&& row.outcome == outcome
            &&& row.started_at_ms == prepared.started_at_ms
            &&& row.completed_at_ms == prepared.completed_at_ms
            &&& row.error_code == prepared.error_code
            &&& row.snapshot_id == prepared.snapshot_id
            &&& prepared.files_processed is Some ==> row.files_processed is Some
                && row.files_processed->0 == prepared.files_processed->0
            &&& prepared.bytes_processed is Some ==> row.bytes_processed is Some
                && row.bytes_processed->0 == prepared.bytes_processed->0
            &&& prepared.data_added is Some ==> row.data_added is Some && row.data_added->0
                == prepared.data_added->0
            &&& prepared.files_processed is None ==> row.files_processed is None
            &&& prepared.bytes_processed is None ==> row.bytes_processed is None
            &&& prepared.data_added is None ==> row.data_added is None
        }),
{
}

/// A row is readable where its times lie in the calendar, its outcome is known
/// and none of its numbers is negative.
pub proof fn when_a_row_is_readable(row: RawRunRecord)
    ensures
        is_readable(row) <==> {
            &&& row.id >= 0
            &&& representable(row.started_at_ms * 1_000_000)
            &&& representable(row.completed_at_ms * 1_000_000)
            &&& row.outcome@ == "succeeded"@ || row.outcome@ == "succeeded_with_warnings"@
                || row.outcome@ == "failed"@ || row.outcome@ == "cancelled"@
            &&& row.files_processed is Some ==> row.files_processed->0 >= 0
            &&& row.bytes_processed is Some ==> row.bytes_processed->0 >= 0
            &&& row.data_added is Some ==> row.data_added->0 >= 0
            &&& row.failed_item_count >= 0
        },
{
    let value = row.outcome@;
    if value == "succeeded"@ {
        assert(value == outcome_text(BackupRunOutcome::Succeeded));
    }
    if value == "succeeded_with_warnings"@ {
        assert(value == outcome_text(BackupRunOutcome::SucceededWithWarnings));
    }
    if value == "failed"@ {
        assert(value == outcome_text(BackupRunOutcome::Failed));
    }
    if value == "cancelled"@ {
        assert(value == outcome_text(BackupRunOutcome::Cancelled));
    }
}

/// Each outcome is stored under its own name.
pub proof fn outcomes_are_stored_by_name(outcome: BackupRunOutcome)
    ensures
        outcome is Succeeded <==> outcome_text(outcome) == "succeeded"@,
        outcome is SucceededWithWarnings <==> outcome_text(outcome) == "succeeded_with_warnings"@,
        outcome is Failed <==> outcome_text(outcome) == "failed"@,
        outcome is Cancelled <==> outcome_text(outcome) == "cancelled"@,
{
    reveal_strlit("succeeded");
    reveal_strlit("succeeded_with_warnings");
    reveal_strlit("failed");
    reveal_strlit("cancelled");
    assert("failed"@[0] == 'f');
    assert("cancelled"@[0] == 'c');
    assert("succeeded"@[0] == 's');
    assert("succeeded_with_warnings"@[0] == 's');
    assert("succeeded"@.len() != "succeeded_with_warnings"@.len());
}

/// A code is kept where it is short and holds letters, digits, `_` and `-` only;
/// any other is dropped, and no code is changed.
pub proof fn a_code_is_kept_or_dropped(value: Seq<char>)
    ensures
        sanitized(value) is Some ==> sanitized(value) == Some(value),
        sanitized(value) is Some <==> 0 < value.len() <= 128 && forall|i: int|
            0 <= i < value.len() ==> {
                let character = #[trigger] value[i];
                ||| 'a' <= character <= 'z'
                ||| 'A' <= character <= 'Z'
                ||| '0' <= character <= '9'
                ||| character == '_'
                ||| character == '-'
            },
{
    if is_identifier(value) {
        assert forall|i: int| 0 <= i < value.len() implies ({
            let character = #[trigger] value[i];
            ||| 'a' <= character <= 'z'
            ||| 'A' <= character <= 'Z'
            ||| '0' <= character <= '9'
            ||| character == '_'
            ||| character == '-'
        }) by {
            assert(is_identifier_character(value[i]));
        }
    }
}

/// A counter is stored as it is, as far as the database can count.
pub proof fn a_counter_is_stored_as_it_is(value: u64, other: u64)
    ensures
        value <= i64::MAX ==> stored_number(value) == value,
        value > i64::MAX ==> stored_number(value) == i64::MAX,
        value <= other ==> stored_number(value) <= stored_number(other),
        stored_optional(None) is None,
        stored_optional(Some(value)) == Some(stored_number(value)),
        column(None) is None,
        number_of(None) is None,
        value <= i64::MAX ==> column(Some(value)) is Some && column(Some(value))->0 == value
            && number_of(column(Some(value))) == Some(value),
{
}

/// The first column that cannot be read is the one that is named.
pub proof fn the_first_fault_is_named(error: HistoryError, row: RawRunRecord)
    requires
        first_fault(error, row),
    ensures
        row.id < 0 ==> error == HistoryError::InvalidUnsignedValue("id"),
        row.id >= 0 && !representable(row.started_at_ms * 1_000_000) ==> error
            == HistoryError::InvalidTimestamp(row.started_at_ms),
        row.id >= 0 && representable(row.started_at_ms * 1_000_000) && !representable(
            row.completed_at_ms * 1_000_000,
        ) ==> error == HistoryError::InvalidTimestamp(row.completed_at_ms),
        row.id >= 0 && in_calendar(row.started_at_ms) && in_calendar(row.completed_at_ms)
            && has_outcome(row.outcome@) ==> !(error is InvalidTimestamp) && !(error
            is InvalidOutcome),
        row.id >= 0 && in_calendar(row.started_at_ms) && in_calendar(row.completed_at_ms)
            && !has_outcome(row.outcome@) ==> error is InvalidOutcome,
{
}

/// Names that are read back are safe, each once, in their order; a number that
/// is missing is no number.
pub proof fn names_are_read_back_once(items: Seq<Seq<char>>, item: Seq<char>)
    ensures
        readable_items(items).contains(item) <==> items.contains(item) && is_safe_item(item),
        readable_items(items).len() <= items.len(),
        readable_items(items.push(item)) == (if is_safe_item(item) && !readable_items(
            items,
        ).contains(item) {
            readable_items(items).push(item)
        } else {
            readable_items(items)
        }),
    decreases items.len(),
{
    assert(items.push(item).drop_last() =~= items);
    if items.len() > 0 {
        let fewer = items.drop_last();
        let last = items[items.len() - 1];
        names_are_read_back_once(fewer, item);
        let before = readable_items(fewer);
        let after = readable_items(items);
        if items.contains(item) {
            let at = items.index_of(item);
            if at < fewer.len() {
                assert(fewer[at] == item);
                assert(fewer.contains(item));
            }
        }
        if fewer.contains(item) {
            let at = fewer.index_of(item);
            assert(items[at] == item);
        }
        if before.contains(item) {
            let at = before.index_of(item);
            assert(after[at] == item);
        }
        if last == item && is_safe_item(item) && !before.contains(item) {
            assert(after[before.len() as int] == item);
        }
        if after.contains(item) {
            let at = after.index_of(item);
            if at < before.len() {
                assert(before[at] == item);
            } else {
                assert(items[items.len() - 1] == item);
            }
        }
    }
}

/// A difference is never below nothing.
pub proof fn a_difference_is_never_negative(left: u64, right: u64)
    ensures
        difference(left, right as int) >= 0,
        left >= right ==> difference(left, right as int) == left - right,
        left < right ==> difference(left, right as int) == 0,
        is_negative(Some(-1i64)),
        !is_negative(None),
{
}

/// Details are stored as they were counted, as far as the database can count.
pub proof fn details_are_stored_as_counted(items: Seq<Seq<char>>, omitted: u64)
    ensures
        ({
            let kept = (FailureDetails { items: Seq::empty(), omitted }).with_items(items);
            &&& normalized(items, omitted).items == kept.items
            &&& normalized(items, omitted).omitted <= kept.omitted
            &&& kept.items.len() + kept.omitted <= i64::MAX ==> normalized(items, omitted) == kept
        }),
{
}

/// A run is stored with the names that can be kept and the number of the others.
pub proof fn the_failed_items_are_stored(prepared: PreparedRun, run: CompletedBackupRun)
    requires
        prepared.stores(run),
    ensures
        prepared.failure_details@.items == normalized(
            crate::config::texts_of(run.failed_items@),
            run.failed_items_omitted,
        ).items,
        run.failed_items@.len() == 0 ==> prepared.failure_details@.items.len() == 0
            && prepared.failure_details@.omitted == normalized(
            Seq::empty(),
            run.failed_items_omitted,
        ).omitted,
{
    if run.failed_items@.len() == 0 {
        assert(crate::config::texts_of(run.failed_items@) =~= Seq::<Seq<char>>::empty());
    }
}

/// An outcome that is not known is told as it was read.
pub proof fn an_unknown_outcome_is_told(error: HistoryError, run: RawRunRecord)
    requires
        first_fault(error, run),
        run.id >= 0,
        in_calendar(run.started_at_ms),
        in_calendar(run.completed_at_ms),
        !has_outcome(run.outcome@),
    ensures
        error is InvalidOutcome,
        error->InvalidOutcome_0@ == run.outcome@,
{
}

} // verus!

//! The history of backup runs: what is stored of a run, and what a stored row
//! is read back as.
use crate::config;
use crate::outcome::{
    holds_text, is_safe_backup_failed_item, is_safe_item, saturating_sum, FailureDetails,
    MAX_BACKUP_FAILED_ITEMS,
};
use crate::status::{copy_text, BackupRunOutcome};
use crate::text;
use crate::time;
use crate::time::NANOSECONDS_PER_MILLISECOND;
use vstd::prelude::*;

verus! {

pub const HISTORY_SCHEMA_VERSION: i64 = 2;

/// The runs that are kept.
pub const MAX_STORED_RUNS: usize = 200;

/// The most runs that one request may ask for.
pub const MAX_HISTORY_RESULTS: usize = 100;

/// The longest identifier that is stored, in bytes.
pub const MAX_IDENTIFIER_BYTES: usize = 128;

/// The largest number that a column of the database holds.
pub const MAX_STORED_NUMBER: u64 = 9_223_372_036_854_775_807;

/// Why a stored row, or the database itself, cannot be read.
#[derive(Debug, PartialEq, Eq)]
pub enum HistoryError {
    UnsupportedSchema(i64),
    InvalidTimestamp(i64),
    InvalidUnsignedValue(&'static str),
    InvalidOutcome(String),
    /// An entry of the file system is not what the database may stand in.
    UnsafeStorageEntry,
    Io,
}

/// What stands under a name in the file system.
#[derive(Debug, Clone, Copy, PartialEq, Eq, Structural)]
pub enum StorageEntry {
    Missing,
    Unreadable,
    Found { is_reparse_point: bool, is_directory: bool, is_file: bool },
}

/// The database stands in a plain directory, in plain files that may still be
/// missing.
pub fn validate_storage_entry(entry: StorageEntry, directory: bool) -> (valid: Result<
    (),
    HistoryError,
>)
    ensures
        match entry {
            StorageEntry::Missing => if directory {
                valid == Err::<(), HistoryError>(HistoryError::Io)
            } else {
                valid is Ok
            },
            StorageEntry::Unreadable => valid == Err::<(), HistoryError>(HistoryError::Io),
            StorageEntry::Found { is_reparse_point, is_directory, is_file } => if !is_reparse_point
                && (if directory {
                is_directory
            } else {
                is_file
            }) {
                valid is Ok
            } else {
                valid == Err::<(), HistoryError>(HistoryError::UnsafeStorageEntry)
            },
        },
{
    match entry {
        StorageEntry::Missing => if directory {
            Err(HistoryError::Io)
        } else {
            Ok(())
        },
        StorageEntry::Unreadable => Err(HistoryError::Io),
        StorageEntry::Found { is_reparse_point, is_directory, is_file } => {
            if is_reparse_point || (directory && !is_directory) || (!directory && !is_file) {
                Err(HistoryError::UnsafeStorageEntry)
            } else {
                Ok(())
            }
        },
    }
}

/// A run as it ended.
pub struct CompletedBackupRun {
    pub started_at: i128,
    pub completed_at: i128,
    pub outcome: BackupRunOutcome,
    pub error_code: Option<String>,
    pub files_processed: Option<u64>,
    pub bytes_processed: Option<u64>,
    pub data_added: Option<u64>,
    pub snapshot_id: Option<String>,
    pub failed_items: Vec<String>,
    pub failed_items_omitted: u64,
}

/// A run as it is reported.
#[derive(Debug, PartialEq, Eq)]
pub struct BackupRunRecord {
    pub id: u64,
    pub started_at: i128,
    pub completed_at: i128,
    pub outcome: BackupRunOutcome,
    pub error_code: Option<String>,
    pub files_processed: Option<u64>,
    pub bytes_processed: Option<u64>,
    pub data_added: Option<u64>,
    pub snapshot_id: Option<String>,
    pub failed_item_count: u64,
}

/// The items of a run that could not be backed up, which only administrators see.
#[derive(Debug, PartialEq, Eq)]
pub struct StoredRunFailureDetails {
    pub items: Vec<String>,
    pub omitted: u64,
}

impl View for StoredRunFailureDetails {
    type V = FailureDetails;

    open spec fn view(&self) -> FailureDetails {
        FailureDetails { items: config::texts_of(self.items@), omitted: self.omitted }
    }
}

/// A row of the table of runs.
#[derive(Debug, PartialEq, Eq)]
pub struct RawRunRecord {
    pub id: i64,
    pub started_at_ms: i64,
    pub completed_at_ms: i64,
    pub outcome: String,
    pub error_code: Option<String>,
    pub files_processed: Option<i64>,
    pub bytes_processed: Option<i64>,
    pub data_added: Option<i64>,
    pub snapshot_id: Option<String>,
    pub failed_item_count: i64,
}

pub open spec fn is_identifier_character(character: char) -> bool {
    text::is_ascii_alphanumeric(character) || character == '_' || character == '-'
}

/// A short text of letters, digits, `_` and `-`, which can carry no path.
pub open spec fn is_identifier(value: Seq<char>) -> bool {
    &&& 0 < value.len() <= MAX_IDENTIFIER_BYTES
    &&& forall|i: int| 0 <= i < value.len() ==> is_identifier_character(#[trigger] value[i])
}

/// The identifier, where it is one.
pub open spec fn sanitized(value: Seq<char>) -> Option<Seq<char>> {
    if is_identifier(value) {
        Some(value)
    } else {
        None
    }
}

/// What is stored of an optional identifier.
pub open spec fn stored_identifier(value: Option<String>) -> Option<Seq<char>> {
    match value {
        Some(value) => sanitized(value@),
        None => None,
    }
}

pub fn sanitize_identifier(value: &str) -> (identifier: Option<String>)
    ensures
        config::chars_of(identifier) == sanitized(value@),
{
    let chars = text::characters(value);
    if chars.len() == 0 || chars.len() > MAX_IDENTIFIER_BYTES {
        return None;
    }
    let mut i: usize = 0;
    while i < chars.len()
        invariant
            i <= chars@.len(),
            chars@ == value@,
            forall|j: int| 0 <= j < i ==> is_identifier_character(#[trigger] value@[j]),
        decreases chars@.len() - i,
    {
        if !(text::ascii_alphanumeric(chars[i]) || chars[i] == '_' || chars[i] == '-') {
            proof {
                assert(!is_identifier_character(value@[i as int]));
            }
            return None;
        }
        i = i + 1;
    }
    Some(value.to_owned())
}

fn sanitize_optional(value: &Option<String>) -> (identifier: Option<String>)
    ensures
        config::chars_of(identifier) == stored_identifier(*value),
{
    match value {
        Some(value) => sanitize_identifier(value.as_str()),
        None => None,
    }
}

/// A counter as the database stores it.
pub open spec fn stored_number(value: u64) -> u64 {
    if value > MAX_STORED_NUMBER {
        MAX_STORED_NUMBER
    } else {
        value
    }
}

pub fn normalize_sql_unsigned(value: u64) -> (stored: u64)
    ensures
        stored == stored_number(value),
{
    if value > MAX_STORED_NUMBER {
        MAX_STORED_NUMBER
    } else {
        value
    }
}

pub fn to_sql_integer(value: u64) -> (stored: i64)
    ensures
        stored == stored_number(value),
{
    if value > MAX_STORED_NUMBER {
        i64::MAX
    } else {
        value as i64
    }
}

pub fn from_sql_integer(value: i64, field: &'static str) -> (read: Result<u64, HistoryError>)
    ensures
        value >= 0 ==> read == Ok::<u64, HistoryError>(value as u64),
        value < 0 ==> read == Err::<u64, HistoryError>(HistoryError::InvalidUnsignedValue(field)),
{
    if value >= 0 {
        Ok(value as u64)
    } else {
        Err(HistoryError::InvalidUnsignedValue(field))
    }
}

/// A counter that was normalised is read back as it was stored.
pub proof fn a_normalised_counter_survives_storage(value: u64)
    ensures
        stored_number(stored_number(value)) == stored_number(value),
        stored_number(value) as i64 >= 0,
        (stored_number(value) as i64) as u64 == stored_number(value),
{
}

/// What is stored of the failed items of a run: the bound on the names, and a
/// count small enough that names and count together fit a column.
pub open spec fn normalized(items: Seq<Seq<char>>, omitted: u64) -> FailureDetails {
    let kept = (FailureDetails { items: Seq::empty(), omitted }).with_items(items);
    let most = (MAX_STORED_NUMBER - kept.items.len()) as u64;
    FailureDetails {
        omitted: if kept.omitted > most {
            most
        } else {
            kept.omitted
        },
        ..kept
    }
}

pub fn normalize_failure_details(items: Vec<String>, omitted: u64) -> (details:
    StoredRunFailureDetails)
    ensures
        details@ == normalized(config::texts_of(items@), omitted),
        details@.bounded(),
        details.items@.len() + details.omitted <= MAX_STORED_NUMBER,
{
    let ghost start = FailureDetails { items: Seq::<Seq<char>>::empty(), omitted };
    let mut kept: Vec<String> = Vec::new();
    let mut count: u64 = omitted;
    proof {
        assert(config::texts_of(kept@) =~= Seq::<Seq<char>>::empty());
        assert(items@.take(0) == Seq::<String>::empty());
        assert(config::texts_of(items@.take(0)) =~= Seq::<Seq<char>>::empty());
    }
    let mut i: usize = 0;
    while i < items.len()
        invariant
            i <= items@.len(),
            (FailureDetails { items: config::texts_of(kept@), omitted: count }).bounded(),
            (FailureDetails { items: config::texts_of(kept@), omitted: count })
                == start.with_items(config::texts_of(items@.take(i as int))),
        decreases items@.len() - i,
    {
        let ghost before = FailureDetails { items: config::texts_of(kept@), omitted: count };
        proof {
            let longer = config::texts_of(items@.take(i + 1));
            assert(longer.drop_last() =~= config::texts_of(items@.take(i as int)));
            assert(longer.last() == items@[i as int]@);
            before.adding_keeps_the_bound(items@[i as int]@);
        }
        if !holds_text(&kept, &items[i]) {
            if kept.len() >= MAX_BACKUP_FAILED_ITEMS || !is_safe_backup_failed_item(
                items[i].as_str(),
            ) {
                count = count.saturating_add(1);
            } else {
                let ghost shorter = kept@;
                kept.push(items[i].clone());
                proof {
                    assert(config::texts_of(kept@) =~= config::texts_of(shorter).push(
                        items@[i as int]@,
                    ));
                }
            }
        }
        i = i + 1;
    }
    proof {
        assert(items@.take(items@.len() as int) == items@);
    }
    let most: u64 = MAX_STORED_NUMBER - (kept.len() as u64);
    let omitted = if count > most {
        most
    } else {
        count
    };
    StoredRunFailureDetails { items: kept, omitted }
}

proof fn lemma_bounded_items_stay(details: FailureDetails, items: Seq<Seq<char>>)
    requires
        details.items == Seq::<Seq<char>>::empty(),
        (FailureDetails { items, omitted: 0 }).bounded(),
    ensures
        details.with_items(items) == (FailureDetails { items, ..details }),
    decreases items.len(),
{
    if items.len() > 0 {
        let rest = items.drop_last();
        assert forall|i: int| 0 <= i < rest.len() implies is_safe_item(#[trigger] rest[i]) by {
            assert(rest[i] == items[i]);
        }
        lemma_bounded_items_stay(details, rest);
        assert(!rest.contains(items.last())) by {
            if rest.contains(items.last()) {
                let at = rest.index_of(items.last());
                assert(items[at] == items[items.len() - 1]);
            }
        }
        assert(is_safe_item(items[items.len() - 1]));
        assert(rest.push(items.last()) == items);
    } else {
        assert(items == Seq::<Seq<char>>::empty());
    }
}

/// Failed items that were normalised once are stored as they are.
pub proof fn normalising_twice_is_normalising_once(items: Seq<Seq<char>>, omitted: u64)
    ensures
        normalized(normalized(items, omitted).items, normalized(items, omitted).omitted)
            == normalized(items, omitted),
{
    let empty = FailureDetails { items: Seq::<Seq<char>>::empty(), omitted };
    empty.adding_all_keeps_the_bound(items);
    let once = normalized(items, omitted);
    lemma_bounded_items_stay(
        FailureDetails { items: Seq::empty(), omitted: once.omitted },
        once.items,
    );
}

pub open spec fn outcome_text(outcome: BackupRunOutcome) -> Seq<char> {
    match outcome {
        BackupRunOutcome::Succeeded => "succeeded"@,
        BackupRunOutcome::SucceededWithWarnings => "succeeded_with_warnings"@,
        BackupRunOutcome::Failed => "failed"@,
        BackupRunOutcome::Cancelled => "cancelled"@,
    }
}

pub fn outcome_name(outcome: BackupRunOutcome) -> (name: &'static str)
    ensures
        name@ == outcome_text(outcome),
{
    match outcome {
        BackupRunOutcome::Succeeded => "succeeded",
        BackupRunOutcome::SucceededWithWarnings => "succeeded_with_warnings",
        BackupRunOutcome::Failed => "failed",
        BackupRunOutcome::Cancelled => "cancelled",
    }
}

/// No two outcomes have the same name.
pub proof fn outcome_names_are_distinct(first: BackupRunOutcome, second: BackupRunOutcome)
    requires
        outcome_text(first) == outcome_text(second),
    ensures
        first == second,
{
    reveal_strlit("succeeded");
    reveal_strlit("succeeded_with_warnings");
    reveal_strlit("failed");
    reveal_strlit("cancelled");
    assert("succeeded"@.len() == 9);
    assert("succeeded_with_warnings"@.len() == 23);
    assert("failed"@.len() == 6);
    assert("cancelled"@.len() == 9);
    assert("succeeded"@[0] == 's');
    assert("cancelled"@[0] == 'c');
}

pub fn parse_outcome(value: &str) -> (outcome: Result<BackupRunOutcome, HistoryError>)
    ensures
        match outcome {
            Ok(outcome) => value@ == outcome_text(outcome),
            Err(error) => {
                &&& error matches HistoryError::InvalidOutcome(text) && text@ == value@
                &&& forall|outcome: BackupRunOutcome| value@ != #[trigger] outcome_text(outcome)
            },
        },
{
    if text::same_text(value, "succeeded") {
        Ok(BackupRunOutcome::Succeeded)
    } else if text::same_text(value, "succeeded_with_warnings") {
        Ok(BackupRunOutcome::SucceededWithWarnings)
    } else if text::same_text(value, "failed") {
        Ok(BackupRunOutcome::Failed)
    } else if text::same_text(value, "cancelled") {
        Ok(BackupRunOutcome::Cancelled)
    } else {
        Err(HistoryError::InvalidOutcome(value.to_owned()))
    }
}

/// Whether the calendar holds a stored time.
pub open spec fn in_calendar(milliseconds: i64) -> bool {
    time::representable(milliseconds * NANOSECONDS_PER_MILLISECOND)
}

/// The instant that a stored time is.
pub open spec fn instant_at(milliseconds: i64) -> i128 {
    (milliseconds * NANOSECONDS_PER_MILLISECOND) as i128
}

/// A stored time, where the calendar holds it.
pub fn timestamp(milliseconds: i64) -> (instant: Result<i128, HistoryError>)
    ensures
        in_calendar(milliseconds) ==> instant == Ok::<i128, HistoryError>(
            instant_at(milliseconds),
        ),
        !in_calendar(milliseconds) ==> instant == Err::<i128, HistoryError>(
            HistoryError::InvalidTimestamp(milliseconds),
        ),
{
    match time::instant_of(milliseconds) {
        Some(instant) => Ok(instant),
        None => Err(HistoryError::InvalidTimestamp(milliseconds)),
    }
}

fn optional_number(value: Option<i64>, field: &'static str) -> (read: Result<
    Option<u64>,
    HistoryError,
>)
    ensures
        value is None ==> read == Ok::<Option<u64>, HistoryError>(None),
        value is Some && value->0 >= 0 ==> read == Ok::<Option<u64>, HistoryError>(
            Some(value->0 as u64),
        ),
        value is Some && value->0 < 0 ==> read == Err::<Option<u64>, HistoryError>(
            HistoryError::InvalidUnsignedValue(field),
        ),
{
    match value {
        Some(value) => match from_sql_integer(value, field) {
            Ok(value) => Ok(Some(value)),
            Err(error) => Err(error),
        },
        None => Ok(None),
    }
}

pub open spec fn is_negative(value: Option<i64>) -> bool {
    value is Some && value->0 < 0
}

pub open spec fn has_outcome(value: Seq<char>) -> bool {
    exists|outcome: BackupRunOutcome| value == #[trigger] outcome_text(outcome)
}

/// Whether every column of a row can be read.
pub open spec fn is_readable(run: RawRunRecord) -> bool {
    &&& run.id >= 0
    &&& in_calendar(run.started_at_ms)
    &&& in_calendar(run.completed_at_ms)
    &&& has_outcome(run.outcome@)
    &&& !is_negative(run.files_processed)
    &&& !is_negative(run.bytes_processed)
    &&& !is_negative(run.data_added)
    &&& run.failed_item_count >= 0
}

pub open spec fn number_of(value: Option<i64>) -> Option<u64> {
    match value {
        Some(value) => Some(value as u64),
        None => None,
    }
}

/// `record` is what a readable row holds.
pub open spec fn reads_row(record: BackupRunRecord, run: RawRunRecord) -> bool {
    &&& record.id == run.id
    &&& record.started_at == instant_at(run.started_at_ms)
    &&& record.completed_at == instant_at(run.completed_at_ms)
    &&& outcome_text(record.outcome) == run.outcome@
    &&& config::chars_of(record.error_code) == stored_identifier(run.error_code)
    &&& record.files_processed == number_of(run.files_processed)
    &&& record.bytes_processed == number_of(run.bytes_processed)
    &&& record.data_added == number_of(run.data_added)
    &&& config::chars_of(record.snapshot_id) == stored_identifier(run.snapshot_id)
    &&& record.failed_item_count == run.failed_item_count
}

/// The first column of a row that cannot be read, as an error.
pub open spec fn first_fault(error: HistoryError, run: RawRunRecord) -> bool {
    if run.id < 0 {
        error == HistoryError::InvalidUnsignedValue("id")
    } else if !in_calendar(run.started_at_ms) {
        error == HistoryError::InvalidTimestamp(run.started_at_ms)
    } else if !in_calendar(run.completed_at_ms) {
        error == HistoryError::InvalidTimestamp(run.completed_at_ms)
    } else if !has_outcome(run.outcome@) {
        error matches HistoryError::InvalidOutcome(text) && text@ == run.outcome@
    } else if is_negative(run.files_processed) {
        error == HistoryError::InvalidUnsignedValue("files_processed")
    } else if is_negative(run.bytes_processed) {
        error == HistoryError::InvalidUnsignedValue("bytes_processed")
    } else if is_negative(run.data_added) {
        error == HistoryError::InvalidUnsignedValue("data_added")
    } else {
        error == HistoryError::InvalidUnsignedValue("failed_item_count")
    }
}

impl BackupRunRecord {
    /// Reads a row of the table of runs.
    pub fn try_from(run: RawRunRecord) -> (record: Result<BackupRunRecord, HistoryError>)
        ensures
            record is Ok == is_readable(run),
            record is Ok ==> reads_row(record->Ok_0, run),
            record is Err ==> first_fault(record->Err_0, run),
    {
        let id = match from_sql_integer(run.id, "id") {
            Ok(id) => id,
            Err(error) => return Err(error),
        };
        let started_at = match timestamp(run.started_at_ms) {
            Ok(instant) => instant,
            Err(error) => return Err(error),
        };
        let completed_at = match timestamp(run.completed_at_ms) {
            Ok(instant) => instant,
            Err(error) => return Err(error),
        };
        let outcome = match parse_outcome(run.outcome.as_str()) {
            Ok(outcome) => outcome,
            Err(error) => return Err(error),
        };
        let error_code = sanitize_optional(&run.error_code);
        let files_processed = match optional_number(run.files_processed, "files_processed") {
            Ok(value) => value,
            Err(error) => return Err(error),
        };
        let bytes_processed = match optional_number(run.bytes_processed, "bytes_processed") {
            Ok(value) => value,
            Err(error) => return Err(error),
        };
        let data_added = match optional_number(run.data_added, "data_added") {
            Ok(value) => value,
            Err(error) => return Err(error),
        };
        let snapshot_id = sanitize_optional(&run.snapshot_id);
        let failed_item_count = match from_sql_integer(run.failed_item_count, "failed_item_count") {
            Ok(count) => count,
            Err(error) => return Err(error),
        };
        Ok(
            BackupRunRecord {
                id,
                started_at,
                completed_at,
                outcome,
                error_code,
                files_processed,
                bytes_processed,
                data_added,
                snapshot_id,
                failed_item_count,
            },
        )
    }
}

/// A run as it is written to the database.
pub struct PreparedRun {
    pub started_at_ms: i64,
    pub completed_at_ms: i64,
    pub outcome: BackupRunOutcome,
    pub error_code: Option<String>,
    pub files_processed: Option<u64>,
    pub bytes_processed: Option<u64>,
    pub data_added: Option<u64>,
    pub snapshot_id: Option<String>,
    pub failure_details: StoredRunFailureDetails,
}

/// A counter as a column of the database.
pub open spec fn column(value: Option<u64>) -> Option<i64> {
    match value {
        Some(value) => Some(value as i64),
        None => None,
    }
}

pub open spec fn stored_optional(value: Option<u64>) -> Option<u64> {
    match value {
        Some(value) => Some(stored_number(value)),
        None => None,
    }
}

fn normalize_optional(value: Option<u64>) -> (stored: Option<u64>)
    ensures
        stored == stored_optional(value),
{
    match value {
        Some(value) => Some(normalize_sql_unsigned(value)),
        None => None,
    }
}

impl PreparedRun {
    /// `self` is what is stored of `run`.
    pub open spec fn stores(self, run: CompletedBackupRun) -> bool {
        &&& self.started_at_ms == time::millisecond_of(run.started_at)
        &&& self.completed_at_ms == time::millisecond_of(run.completed_at)
        &&& self.outcome == run.outcome
        &&& config::chars_of(self.error_code) == stored_identifier(run.error_code)
        &&& self.files_processed == stored_optional(run.files_processed)
        &&& self.bytes_processed == stored_optional(run.bytes_processed)
        &&& self.data_added == stored_optional(run.data_added)
        &&& config::chars_of(self.snapshot_id) == stored_identifier(run.snapshot_id)
        &&& self.failure_details@ == normalized(
            config::texts_of(run.failed_items@),
            run.failed_items_omitted,
        )
    }

    /// The row that the database holds once `self` was written under `id`.
    pub open spec fn row(self, id: i64, outcome: String) -> RawRunRecord {
        RawRunRecord {
            id,
            started_at_ms: self.started_at_ms,
            completed_at_ms: self.completed_at_ms,
            outcome,
            error_code: self.error_code,
            files_processed: column(self.files_processed),
            bytes_processed: column(self.bytes_processed),
            data_added: column(self.data_added),
            snapshot_id: self.snapshot_id,
            failed_item_count: (self.failure_details.items@.len() + self.failure_details.omitted)
                as i64,
        }
    }

    /// Prepares a run for storage.
    pub fn prepare(run: CompletedBackupRun) -> (prepared: PreparedRun)
        ensures
            prepared.stores(run),
            prepared.failure_details@.bounded(),
            prepared.failure_details.items@.len() + prepared.failure_details.omitted
                <= MAX_STORED_NUMBER,
    {
        PreparedRun {
            started_at_ms: time::milliseconds(run.started_at),
            completed_at_ms: time::milliseconds(run.completed_at),
            outcome: run.outcome,
            error_code: sanitize_optional(&run.error_code),
            files_processed: normalize_optional(run.files_processed),
            bytes_processed: normalize_optional(run.bytes_processed),
            data_added: normalize_optional(run.data_added),
            snapshot_id: sanitize_optional(&run.snapshot_id),
            failure_details: normalize_failure_details(run.failed_items, run.failed_items_omitted),
        }
    }

    /// The record of the run once the database has given it a row.
    pub fn record(&self, rowid: i64) -> (record: Result<BackupRunRecord, HistoryError>)
        ensures
            record is Ok == (rowid >= 0 && in_calendar(self.started_at_ms)
                && in_calendar(self.completed_at_ms)),
            record is Ok ==> {
                let stored = record->Ok_0;
                &&& stored.id == rowid
                &&& stored.started_at == instant_at(self.started_at_ms)
                &&& stored.completed_at == instant_at(self.completed_at_ms)
                &&& stored.outcome == self.outcome
                &&& stored.error_code == self.error_code
                &&& stored.files_processed == self.files_processed
                &&& stored.bytes_processed == self.bytes_processed
                &&& stored.data_added == self.data_added
                &&& stored.snapshot_id == self.snapshot_id
                &&& stored.failed_item_count == saturating_sum(
                    self.failure_details.omitted,
                    self.failure_details.items@.len() as int,
                )
            },
            record is Err ==> record->Err_0 == (if rowid < 0 {
                HistoryError::InvalidUnsignedValue("id")
            } else if !in_calendar(self.started_at_ms) {
                HistoryError::InvalidTimestamp(self.started_at_ms)
            } else {
                HistoryError::InvalidTimestamp(self.completed_at_ms)
            }),
    {
        let id = match from_sql_integer(rowid, "id") {
            Ok(id) => id,
            Err(error) => return Err(error),
        };
        let started_at = match timestamp(self.started_at_ms) {
            Ok(instant) => instant,
            Err(error) => return Err(error),
        };
        let completed_at = match timestamp(self.completed_at_ms) {
            Ok(instant) => instant,
            Err(error) => return Err(error),
        };
        let retained: u64 = self.failure_details.items.len() as u64;
        Ok(
            BackupRunRecord {
                id,
                started_at,
                completed_at,
                outcome: self.outcome,
                error_code: copy_text(&self.error_code),
                files_processed: self.files_processed,
                bytes_processed: self.bytes_processed,
                data_added: self.data_added,
                snapshot_id: copy_text(&self.snapshot_id),
                failed_item_count: retained.saturating_add(self.failure_details.omitted),
            },
        )
    }
}

/// A run that was prepared and stored under a number has a readable row, and
/// the row reads back as what was stored, with its times in whole milliseconds.
pub proof fn a_stored_run_reads_back(
    run: CompletedBackupRun,
    prepared: PreparedRun,
    id: i64,
    name: String,
    record: BackupRunRecord,
)
    requires
        prepared.stores(run),
        prepared.failure_details.items@.len() + prepared.failure_details.omitted
            <= MAX_STORED_NUMBER,
        id >= 0,
        time::representable(run.started_at as int),
        time::representable(run.completed_at as int),
        name@ == outcome_text(run.outcome),
        reads_row(record, prepared.row(id, name)),
    ensures
        is_readable(prepared.row(id, name)),
        record.id == id,
        record.started_at <= run.started_at < record.started_at + NANOSECONDS_PER_MILLISECOND,
        record.completed_at <= run.completed_at < record.completed_at
            + NANOSECONDS_PER_MILLISECOND,
        record.started_at as int % NANOSECONDS_PER_MILLISECOND as int == 0,
        record.completed_at as int % NANOSECONDS_PER_MILLISECOND as int == 0,
        record.outcome == run.outcome,
        config::chars_of(record.error_code) == config::chars_of(prepared.error_code),
        config::chars_of(record.snapshot_id) == config::chars_of(prepared.snapshot_id),
        record.files_processed == prepared.files_processed,
        record.bytes_processed == prepared.bytes_processed,
        record.data_added == prepared.data_added,
        record.failed_item_count == prepared.failure_details.items@.len()
            + prepared.failure_details.omitted,
{
    outcome_names_are_distinct(record.outcome, run.outcome);
    assert(has_outcome(name@));
    time::a_millisecond_holds_its_instants(run.started_at);
    time::a_millisecond_holds_its_instants(run.completed_at);
}

/// What is read back of the failed items of a run: a name that is unsafe or
/// occurs twice is counted instead.
pub open spec fn readable_items(items: Seq<Seq<char>>) -> Seq<Seq<char>>
    decreases items.len(),
{
    if items.len() == 0 {
        Seq::empty()
    } else {
        let before = readable_items(items.drop_last());
        if is_safe_item(items.last()) && !before.contains(items.last()) {
            before.push(items.last())
        } else {
            before
        }
    }
}

/// The failed items that were stored of a run are read back as they are, with
/// the count that was stored beside them.
pub proof fn stored_failures_read_back(details: FailureDetails)
    requires
        details.bounded(),
    ensures
        readable_items(details.items) == details.items,
        saturating_sum(
            details.omitted,
            difference(details.items.len() as u64, readable_items(details.items).len() as int),
        ) == details.omitted,
    decreases details.items.len(),
{
    let items = details.items;
    if items.len() > 0 {
        let rest = FailureDetails { items: items.drop_last(), ..details };
        assert forall|i: int| 0 <= i < rest.items.len() implies is_safe_item(
            #[trigger] rest.items[i],
        ) by {
            assert(rest.items[i] == items[i]);
        }
        stored_failures_read_back(rest);
        assert(!rest.items.contains(items.last())) by {
            if rest.items.contains(items.last()) {
                let at = rest.items.index_of(items.last());
                assert(items[at] == items[items.len() - 1]);
            }
        }
        assert(is_safe_item(items[items.len() - 1]));
        assert(rest.items.push(items.last()) == items);
    } else {
        assert(items == Seq::<Seq<char>>::empty());
    }
}

pub open spec fn difference(left: u64, right: int) -> int {
    if left > right {
        left - right
    } else {
        0
    }
}

/// The details that the stored names and the two stored counts amount to.
pub fn stored_failure_details(omitted: i64, stored_count: i64, stored: Vec<String>) -> (details:
    Result<StoredRunFailureDetails, HistoryError>)
    ensures
        details is Ok == (omitted >= 0 && stored_count >= 0),
        details is Ok ==> {
            let items = readable_items(config::texts_of(stored@));
            &&& details->Ok_0@.items == items
            &&& details->Ok_0.omitted == saturating_sum(
                omitted as u64,
                difference(stored_count as u64, items.len() as int),
            )
        },
        details is Err ==> details->Err_0 == HistoryError::InvalidUnsignedValue(
            if omitted < 0 {
                "failed_items_omitted"
            } else {
                "failed_item_count"
            },
        ),
{
    let omitted = match from_sql_integer(omitted, "failed_items_omitted") {
        Ok(omitted) => omitted,
        Err(error) => return Err(error),
    };
    let stored_count = match from_sql_integer(stored_count, "failed_item_count") {
        Ok(count) => count,
        Err(error) => return Err(error),
    };
    let mut items: Vec<String> = Vec::new();
    proof {
        assert(config::texts_of(items@) =~= Seq::<Seq<char>>::empty());
        assert(config::texts_of(stored@.take(0)) =~= Seq::<Seq<char>>::empty());
    }
    let mut i: usize = 0;
    while i < stored.len()
        invariant
            i <= stored@.len(),
            config::texts_of(items@) == readable_items(config::texts_of(stored@.take(i as int))),
        decreases stored@.len() - i,
    {
        proof {
            let longer = config::texts_of(stored@.take(i + 1));
            assert(longer.drop_last() =~= config::texts_of(stored@.take(i as int)));
            assert(longer.last() == stored@[i as int]@);
        }
        if is_safe_backup_failed_item(stored[i].as_str()) && !holds_text(&items, &stored[i]) {
            let ghost before = items@;
            items.push(stored[i].clone());
            proof {
                assert(config::texts_of(items@) =~= config::texts_of(before).push(
                    stored@[i as int]@,
                ));
            }
        }
        i = i + 1;
    }
    proof {
        assert(stored@.take(stored@.len() as int) == stored@);
    }
    let retained: u64 = items.len() as u64;
    let omitted = omitted.saturating_add(stored_count.saturating_sub(retained));
    Ok(StoredRunFailureDetails { items, omitted })
}

/// Whether the database can hold a run of this number.
pub fn queried_run(run_id: u64) -> (id: Option<i64>)
    ensures
        id == (if run_id <= MAX_STORED_NUMBER {
            Some(run_id as i64)
        } else {
            None
        }),
{
    if run_id <= MAX_STORED_NUMBER {
        Some(run_id as i64)
    } else {
        None
    }
}

/// How many runs are read for a request.
pub fn result_limit(limit: usize) -> (bounded: usize)
    ensures
        bounded == (if limit < 1 {
            1
        } else if limit > MAX_HISTORY_RESULTS {
            100
        } else {
            limit as int
        }),
{
    if limit < 1 {
        1
    } else if limit > MAX_HISTORY_RESULTS {
        MAX_HISTORY_RESULTS
    } else {
        limit
    }
}

/// What has to be done to a database before it is used.
#[derive(Debug, Clone, Copy, PartialEq, Eq, Structural)]
pub enum SchemaAction {
    Use,
    Create,
    Migrate { add_omitted_column: bool },
}

/// What has to be done to a database of this version, given whether it has the
/// table of runs and whether that has the column of omitted items.
pub fn schema_action(version: i64, has_runs: bool, has_omitted: bool) -> (action: Result<
    SchemaAction,
    HistoryError,
>)
    ensures
        version == HISTORY_SCHEMA_VERSION ==> action == Ok::<SchemaAction, HistoryError>(
            SchemaAction::Use,
        ),
        version == 1 ==> action == Ok::<SchemaAction, HistoryError>(
            SchemaAction::Migrate { add_omitted_column: true },
        ),
        version == 0 ==> action == Ok::<SchemaAction, HistoryError>(
            if has_runs {
                SchemaAction::Migrate { add_omitted_column: !has_omitted }
            } else {
                SchemaAction::Create
            },
        ),
        version < 0 || version > HISTORY_SCHEMA_VERSION ==> action == Err::<
            SchemaAction,
            HistoryError,
        >(HistoryError::UnsupportedSchema(version)),
{
    if version > HISTORY_SCHEMA_VERSION || version < 0 {
        Err(HistoryError::UnsupportedSchema(version))
    } else if version == 0 {
        if has_runs {
            Ok(SchemaAction::Migrate { add_omitted_column: !has_omitted })
        } else {
            Ok(SchemaAction::Create)
        }
    } else if version == 1 {
        Ok(SchemaAction::Migrate { add_omitted_column: true })
    } else {
        Ok(SchemaAction::Use)
    }
}

} // verus!

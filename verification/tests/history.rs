use resticpal::history::{
    from_sql_integer, normalize_failure_details, normalize_sql_unsigned, outcome_name,
    parse_outcome, queried_run, result_limit, sanitize_identifier, schema_action,
    stored_failure_details, timestamp, to_sql_integer, validate_storage_entry, BackupRunRecord,
    CompletedBackupRun, HistoryError, PreparedRun, RawRunRecord, SchemaAction, StorageEntry,
    HISTORY_SCHEMA_VERSION, MAX_HISTORY_RESULTS,
};
use resticpal::outcome::MAX_BACKUP_FAILED_ITEMS;
use resticpal::status::BackupRunOutcome;
use resticpal::time::{milliseconds, FIRST_INSTANT, LAST_INSTANT};

const NOW: i128 = 1_700_000_000_000_000_000;

fn run(completed_at: i128, outcome: BackupRunOutcome) -> CompletedBackupRun {
    CompletedBackupRun {
        started_at: completed_at - 3 * 60_000_000_000,
        completed_at,
        outcome,
        error_code: None,
        files_processed: Some(12),
        bytes_processed: Some(1_024),
        data_added: Some(256),
        snapshot_id: Some("abc123".to_owned()),
        failed_items: Vec::new(),
        failed_items_omitted: 0,
    }
}

/// The row of a run, as it is read from the database.
fn row(prepared: &PreparedRun, id: i64) -> RawRunRecord {
    RawRunRecord {
        id,
        started_at_ms: prepared.started_at_ms,
        completed_at_ms: prepared.completed_at_ms,
        outcome: outcome_name(prepared.outcome).to_owned(),
        error_code: prepared.error_code.clone(),
        files_processed: prepared.files_processed.map(to_sql_integer),
        bytes_processed: prepared.bytes_processed.map(to_sql_integer),
        data_added: prepared.data_added.map(to_sql_integer),
        snapshot_id: prepared.snapshot_id.clone(),
        failed_item_count: to_sql_integer(
            prepared.failure_details.items.len() as u64 + prepared.failure_details.omitted,
        ),
    }
}

#[test]
fn identifiers_are_allowlisted_before_storage() {
    let mut unsafe_run = run(NOW, BackupRunOutcome::Failed);
    unsafe_run.error_code = Some("contains spaces and a path C:\\Users\\Example".to_owned());
    unsafe_run.snapshot_id = Some("not/a/snapshot".to_owned());

    let prepared = PreparedRun::prepare(unsafe_run);
    let stored = prepared.record(1).expect("stored run");
    assert_eq!(stored.error_code, None);
    assert_eq!(stored.snapshot_id, None);

    let mut corrupt = row(&prepared, 1);
    corrupt.error_code = Some(r"C:\Users\Example\secret.txt".to_owned());
    corrupt.snapshot_id = Some("not/a/snapshot".to_owned());
    let reloaded = BackupRunRecord::try_from(corrupt).expect("reloaded history");
    assert_eq!(reloaded.error_code, None);
    assert_eq!(reloaded.snapshot_id, None);
}

#[test]
fn sensitive_failure_items_are_bounded_and_loaded_only_on_explicit_request() {
    let mut partial = run(NOW, BackupRunOutcome::SucceededWithWarnings);
    partial.error_code = Some("restic_partial_source".to_owned());
    partial.failed_items = vec![
        r"C:\Users\Example\private.txt".to_owned(),
        r"C:\Users\Example\private.txt".to_owned(),
        "C:\\Users\\Example\\line\nbreak.txt".to_owned(),
    ];
    partial
        .failed_items
        .extend((0..MAX_BACKUP_FAILED_ITEMS).map(|index| format!(r"C:\Data\failure-{index}.txt")));
    partial.failed_items_omitted = 2;

    let prepared = PreparedRun::prepare(partial);
    let stored = prepared.record(7).expect("stored warning run");

    assert_eq!(stored.failed_item_count, 104);
    let summary = BackupRunRecord::try_from(row(&prepared, 7)).expect("history summaries");
    assert_eq!(summary.failed_item_count, 104);
    assert_eq!(summary, stored);
    let read = |items: Vec<String>| {
        stored_failure_details(
            to_sql_integer(prepared.failure_details.omitted),
            items.len() as i64,
            items,
        )
        .expect("failure detail query")
    };
    let mut items = prepared.failure_details.items.clone();
    let details = read(items.clone());
    assert_eq!(details.items.len(), MAX_BACKUP_FAILED_ITEMS);
    assert_eq!(details.items[0], r"C:\Users\Example\private.txt");
    assert_eq!(details.omitted, 4);
    assert!(!details.items.iter().any(|item| item.contains('\n')));
    items[0] = "C:\\Users\\Example\\spoof\u{202e}txt.exe".to_owned();
    let reread = read(items);
    assert_eq!(reread.items.len(), MAX_BACKUP_FAILED_ITEMS - 1);
    assert_eq!(reread.omitted, 5);
    assert!(!reread.items.iter().any(|item| item.contains('\u{202e}')));
    assert!(queried_run(u64::MAX).is_none());
}

#[test]
fn counters_are_normalized_consistently_with_sqlite_storage() {
    let mut oversized = run(NOW, BackupRunOutcome::Succeeded);
    oversized.files_processed = Some(u64::MAX);

    let prepared = PreparedRun::prepare(oversized);
    let stored = prepared.record(1).expect("stored run");
    let reloaded = BackupRunRecord::try_from(row(&prepared, 1)).expect("reloaded run");

    assert_eq!(stored.files_processed, Some(i64::MAX as u64));
    assert_eq!(reloaded.files_processed, stored.files_processed);
}

#[test]
fn newer_schema_is_rejected() {
    assert!(matches!(
        schema_action(HISTORY_SCHEMA_VERSION + 1, false, false),
        Err(HistoryError::UnsupportedSchema(version)) if version == HISTORY_SCHEMA_VERSION + 1
    ));
}

#[test]
fn version_one_history_is_migrated_without_losing_runs() {
    assert_eq!(
        schema_action(1, true, false),
        Ok(SchemaAction::Migrate {
            add_omitted_column: true
        })
    );
}

#[test]
fn interrupted_legacy_schema_creation_with_version_zero_is_recovered() {
    assert_eq!(
        schema_action(0, true, false),
        Ok(SchemaAction::Migrate {
            add_omitted_column: true
        })
    );
    assert_eq!(
        schema_action(0, true, true),
        Ok(SchemaAction::Migrate {
            add_omitted_column: false
        })
    );
    assert_eq!(schema_action(0, false, false), Ok(SchemaAction::Create));
    assert_eq!(
        schema_action(HISTORY_SCHEMA_VERSION, true, true),
        Ok(SchemaAction::Use)
    );
    assert_eq!(
        schema_action(-1, false, false),
        Err(HistoryError::UnsupportedSchema(-1))
    );
}

#[test]
fn a_stored_run_is_read_back() {
    for outcome in [
        BackupRunOutcome::Succeeded,
        BackupRunOutcome::SucceededWithWarnings,
        BackupRunOutcome::Failed,
        BackupRunOutcome::Cancelled,
    ] {
        let prepared = PreparedRun::prepare(run(NOW, outcome));
        assert_eq!(
            BackupRunRecord::try_from(row(&prepared, 3)),
            prepared.record(3)
        );
        assert_eq!(parse_outcome(outcome_name(outcome)), Ok(outcome));
    }
}

#[test]
fn every_column_that_cannot_be_read_is_named() {
    let good = || row(&PreparedRun::prepare(run(NOW, BackupRunOutcome::Failed)), 1);
    let read = |change: fn(&mut RawRunRecord)| {
        let mut raw = good();
        change(&mut raw);
        BackupRunRecord::try_from(raw)
    };
    assert_eq!(
        read(|raw| raw.id = -1),
        Err(HistoryError::InvalidUnsignedValue("id"))
    );
    assert_eq!(
        read(|raw| raw.started_at_ms = i64::MAX),
        Err(HistoryError::InvalidTimestamp(i64::MAX))
    );
    assert_eq!(
        read(|raw| raw.outcome = "odd".to_owned()),
        Err(HistoryError::InvalidOutcome("odd".to_owned()))
    );
    assert_eq!(
        read(|raw| raw.data_added = Some(-2)),
        Err(HistoryError::InvalidUnsignedValue("data_added"))
    );
    assert_eq!(
        read(|raw| raw.failed_item_count = -1),
        Err(HistoryError::InvalidUnsignedValue("failed_item_count"))
    );
    assert!(read(|_| {}).is_ok());
    assert_eq!(
        stored_failure_details(-1, 0, Vec::new()),
        Err(HistoryError::InvalidUnsignedValue("failed_items_omitted"))
    );
}

#[test]
fn times_outside_the_calendar_are_refused() {
    let last = 8_210_266_876_799_999;
    assert_eq!(timestamp(last), Ok(LAST_INSTANT - 999_999));
    assert_eq!(
        timestamp(last + 1),
        Err(HistoryError::InvalidTimestamp(last + 1))
    );
    let first = -8_334_601_228_800_000;
    assert_eq!(timestamp(first), Ok(FIRST_INSTANT));
    assert_eq!(
        timestamp(first - 1),
        Err(HistoryError::InvalidTimestamp(first - 1))
    );
}

#[test]
fn times_are_stored_in_whole_milliseconds() {
    let mut precise = run(NOW, BackupRunOutcome::Succeeded);
    precise.started_at = -1;
    precise.completed_at = 1_999_999;
    let prepared = PreparedRun::prepare(precise);
    assert_eq!(prepared.started_at_ms, -1);
    assert_eq!(prepared.completed_at_ms, 1);
    let record = prepared.record(4).expect("a record");
    assert_eq!(record.started_at, -1_000_000);
    assert_eq!(record.completed_at, 1_000_000);
    assert_eq!(milliseconds(LAST_INSTANT), 8_210_266_876_799_999);
    assert_eq!(milliseconds(LAST_INSTANT + 1), i64::MAX);
    assert_eq!(milliseconds(FIRST_INSTANT - 1), i64::MIN);
}

#[test]
fn numbers_stay_within_the_database() {
    assert_eq!(to_sql_integer(u64::MAX), i64::MAX);
    assert_eq!(to_sql_integer(5), 5);
    assert_eq!(normalize_sql_unsigned(u64::MAX), i64::MAX as u64);
    assert_eq!(from_sql_integer(5, "id"), Ok(5));
    assert_eq!(
        from_sql_integer(-5, "id"),
        Err(HistoryError::InvalidUnsignedValue("id"))
    );
    assert_eq!(result_limit(0), 1);
    assert_eq!(result_limit(50), 50);
    assert_eq!(result_limit(usize::MAX), MAX_HISTORY_RESULTS);
    assert_eq!(queried_run(9), Some(9));
}

#[test]
fn identifiers_are_short_and_plain() {
    assert_eq!(sanitize_identifier("abc-123_X"), Some("abc-123_X".to_owned()));
    assert_eq!(sanitize_identifier(""), None);
    assert_eq!(sanitize_identifier("a b"), None);
    assert_eq!(sanitize_identifier(&"a".repeat(1_000)), None);
    let details = normalize_failure_details(vec!["a".to_owned(), "a".to_owned()], 3);
    assert_eq!(details.items, vec!["a"]);
    assert_eq!(details.omitted, 3);
}

#[test]
fn the_database_stands_in_plain_entries() {
    let found = |is_reparse_point, is_directory, is_file| StorageEntry::Found {
        is_reparse_point,
        is_directory,
        is_file,
    };
    assert_eq!(validate_storage_entry(StorageEntry::Missing, false), Ok(()));
    assert_eq!(
        validate_storage_entry(StorageEntry::Missing, true),
        Err(HistoryError::Io)
    );
    assert_eq!(
        validate_storage_entry(StorageEntry::Unreadable, false),
        Err(HistoryError::Io)
    );
    assert_eq!(validate_storage_entry(found(false, true, false), true), Ok(()));
    assert_eq!(validate_storage_entry(found(false, false, true), false), Ok(()));
    assert_eq!(
        validate_storage_entry(found(true, false, true), false),
        Err(HistoryError::UnsafeStorageEntry)
    );
    assert_eq!(
        validate_storage_entry(found(false, true, false), false),
        Err(HistoryError::UnsafeStorageEntry)
    );
}

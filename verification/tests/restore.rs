use resticpal::config::{
    BackupConfig, EffectiveConfig, LocalBackupConfig, LocalConfig, LocalManagementConfig,
    LocalRepositoryConfig, LocalRestoreConfig, LocalRetentionConfig, LocalScheduleConfig,
    LocalUpdateConfig, RepositoryConfig, RestoreConfig, RetentionConfig, ScheduleConfig,
    SecretRefs, UpdateConfig,
};
use resticpal::protocol::{
    ClientIdentity, ResponsePayload, RestoreEntryView, RestoreJobState, RestoreNodeType,
    RestoreQueryKind, RestoreQueryState, RestoreQueryView, RestoreSettingsView,
    RestoreSnapshotView, RestoreStatusView,
};
use resticpal::runtime::events::{RestoreQueryOutcome, RestoreQueryRequest, RuntimeEvent};
use resticpal::runtime::restore::{
    fit_page, restore_failure_message, RESPONSE_RESERVE_BYTES, snapshot_node_path, snapshot_source_path,
    validate_snapshot_selection, RestoreProgress, SelectionCheck,
};
use resticpal::runtime::state::{ResolvedConfig, ServiceRuntime};
use resticpal::status::{BackupPhase, BackupState, RepositoryMode};
use resticpal::table::Table;

const USER: ClientIdentity = ClientIdentity {
    is_elevated_administrator: false,
};
const ADMIN: ClientIdentity = ClientIdentity {
    is_elevated_administrator: true,
};
const NOW: i128 = 1_700_000_000_000_000_000;
const VALID: SelectionCheck = SelectionCheck {
    snapshot_id_is_valid: true,
    path_is_valid: true,
};

fn runtime() -> ServiceRuntime {
    let effective = EffectiveConfig {
        backup: BackupConfig {
            paths: vec![r"C:\Data".to_owned()],
            exclusions: Vec::new(),
        },
        repository: RepositoryConfig {
            display_name: None,
            url: Some("local:C:/backup".to_owned()),
            mode: RepositoryMode::Standard,
            options: Vec::new(),
            secret_refs: SecretRefs::new(),
        },
        schedule: ScheduleConfig {
            interval_hours: 24,
            wake_grace_seconds: 300,
            wake_lock_timeout_seconds: 3_600,
            allow_on_battery: true,
            allow_metered_network: true,
        },
        retention: RetentionConfig {
            daily: 7,
            weekly: 4,
            monthly: 12,
            yearly: 3,
            prune_interval_days: 7,
        },
        updates: UpdateConfig {
            automatic_install: false,
        },
        restore: RestoreConfig { enabled: true },
    };
    let local = LocalConfig {
        backup: LocalBackupConfig {
            paths: None,
            exclusions: None,
        },
        repository: LocalRepositoryConfig {
            display_name: None,
            url: None,
            mode: None,
            options: None,
            secret_refs: None,
        },
        schedule: LocalScheduleConfig {
            interval_hours: None,
            wake_grace_seconds: None,
            wake_lock_timeout_seconds: None,
            allow_on_battery: None,
            allow_metered_network: None,
        },
        retention: LocalRetentionConfig {
            daily: None,
            weekly: None,
            monthly: None,
            yearly: None,
            prune_interval_days: None,
        },
        updates: LocalUpdateConfig {
            automatic_install: None,
        },
        restore: LocalRestoreConfig { enabled: None },
        management: LocalManagementConfig::disabled(),
    };
    let resolved = ResolvedConfig {
        effective,
        managed_revision: None,
        fields: Vec::new(),
    };
    ServiceRuntime::from_resolved(resolved, local, NOW)
}

fn rejected(payload: &ResponsePayload, expected: &str) -> bool {
    matches!(payload, ResponsePayload::Rejected { code, .. } if code == expected)
}

fn refused<T>(begun: Result<T, ResponsePayload>, expected: &str) -> bool {
    match begun {
        Ok(_) => false,
        Err(payload) => rejected(&payload, expected),
    }
}

fn snapshot(id: &str) -> RestoreSnapshotView {
    RestoreSnapshotView {
        id: id.to_owned(),
        paths: vec![r"C:\Data".to_owned()],
    }
}

fn entry(path: &str, node_type: RestoreNodeType) -> RestoreEntryView {
    RestoreEntryView {
        path: path.to_owned(),
        node_type,
    }
}

fn directory(path: &str) -> RestoreQueryRequest {
    RestoreQueryRequest::Directory {
        snapshot_id: "abc".to_owned(),
        path: path.to_owned(),
    }
}

/// A runtime whose snapshots and one folder have been listed.
fn browsed() -> ServiceRuntime {
    let mut runtime = runtime();
    let (query, event) = runtime
        .begin_restore_query(RestoreQueryRequest::Snapshots, VALID, ADMIN, NOW)
        .expect("snapshots are listed");
    assert!(matches!(event, RuntimeEvent::RestoreQueryRequested { query_id, .. } if query_id == query));
    runtime.finish_restore_query(
        query,
        RestoreQueryOutcome::Snapshots(vec![snapshot("abc"), snapshot("def")]),
        &Vec::new(),
    );
    let (query, _) = runtime
        .begin_restore_query(directory("/C/Data"), VALID, ADMIN, NOW)
        .expect("a source of the snapshot is opened");
    runtime.finish_restore_query(
        query,
        RestoreQueryOutcome::Directory(vec![
            entry("/C/Data/file.txt", RestoreNodeType::File),
            entry("/C/Data/folder", RestoreNodeType::Directory),
        ]),
        &Vec::new(),
    );
    runtime
}

fn begin(runtime: &mut ServiceRuntime, path: &str) -> Result<(u64, RuntimeEvent), ResponsePayload> {
    runtime.begin_restore(
        "abc".to_owned(),
        path.to_owned(),
        r"D:\Recovered".to_owned(),
        VALID,
        260,
        ADMIN,
        NOW,
    )
}

#[test]
fn only_what_was_listed_is_opened_and_restored() {
    let mut fresh = runtime();
    assert!(refused(
        fresh.begin_restore_query(directory("/C/Data"), VALID, ADMIN, NOW),
        "restore_snapshot_not_authorized"
    ));
    let mut runtime = browsed();
    assert!(refused(
        runtime.begin_restore_query(directory("/C/Other"), VALID, ADMIN, NOW),
        "restore_path_not_authorized"
    ));
    assert!(refused(
        runtime.begin_restore_query(directory("/C/Data/file.txt"), VALID, ADMIN, NOW),
        "invalid_restore_path"
    ));
    assert!(refused(begin(&mut runtime, "/C/Data/hidden"), "restore_path_not_authorized"));
    assert!(refused(begin(&mut runtime, "/"), "invalid_restore_path"));
    assert!(matches!(
        begin(&mut runtime, "/C/Data/file.txt"),
        Ok((_, RuntimeEvent::RestoreRequested { .. }))
    ));
}

#[test]
fn recovery_is_for_administrators() {
    let mut runtime = browsed();
    assert!(refused(
        runtime.begin_restore_query(RestoreQueryRequest::Snapshots, VALID, USER, NOW),
        "administrator_required"
    ));
    assert!(refused(runtime.restore_page(1, 0, 10, USER), "administrator_required"));
    assert!(rejected(&runtime.restore_status(USER), "administrator_required"));
    assert!(refused(runtime.cancel_restore(USER), "administrator_required"));
    assert!(rejected(&runtime.restore_settings(USER), "administrator_required"));
    assert!(matches!(
        runtime.restore_settings(ADMIN),
        ResponsePayload::RestoreSettings {
            configuration: RestoreSettingsView {
                enabled: true,
                enabled_locked: false,
                managed: false,
            }
        }
    ));
}

#[test]
fn a_disabled_or_busy_service_lists_nothing() {
    let mut runtime = browsed();
    runtime.config.restore.enabled = false;
    assert!(refused(
        runtime.begin_restore_query(RestoreQueryRequest::Snapshots, VALID, ADMIN, NOW),
        "restore_disabled"
    ));
    runtime.config.restore.enabled = true;
    runtime.state.status.state = BackupState::Running {
        phase: BackupPhase::Uploading,
    };
    assert!(refused(
        runtime.begin_restore_query(RestoreQueryRequest::Snapshots, VALID, ADMIN, NOW),
        "backup_running"
    ));
    runtime.state.status.state = BackupState::Idle;
    let (query, _) = runtime
        .begin_restore_query(RestoreQueryRequest::Snapshots, VALID, ADMIN, NOW)
        .expect("the service is idle");
    assert!(refused(
        runtime.begin_restore_query(RestoreQueryRequest::Snapshots, VALID, ADMIN, NOW),
        "restore_running"
    ));
    assert!(matches!(
        runtime.cancel_restore_query(query, ADMIN),
        Ok(RuntimeEvent::RestoreQueryCancelled { query_id }) if query_id == query
    ));
    runtime.finish_restore_query(query, RestoreQueryOutcome::Cancelled, &Vec::new());
    assert!(refused(
        runtime.cancel_restore_query(query, ADMIN),
        "restore_query_not_running"
    ));
}

#[test]
fn listings_are_read_in_pages() {
    let runtime = browsed();
    let page = runtime.restore_page(1, 0, 1, ADMIN).expect("a page");
    assert_eq!(page.kind, RestoreQueryKind::Snapshots);
    assert_eq!(page.state, RestoreQueryState::Succeeded);
    assert_eq!(page.snapshots, vec![snapshot("abc")]);
    assert_eq!(page.total, 2);
    let page = runtime.restore_page(2, 1, 100, ADMIN).expect("a page");
    assert_eq!(
        page.entries,
        vec![entry("/C/Data/folder", RestoreNodeType::Directory)]
    );
    assert!(refused(runtime.restore_page(1, 3, 1, ADMIN), "invalid_restore_query_offset"));
    assert!(refused(runtime.restore_page(1, 0, 0, ADMIN), "invalid_restore_query_limit"));
    assert!(refused(runtime.restore_page(1, 0, 101, ADMIN), "invalid_restore_query_limit"));
    assert!(refused(runtime.restore_page(9, 0, 1, ADMIN), "restore_query_not_found"));
}

#[test]
fn a_page_that_is_too_large_is_shortened() {
    let page = |entries: usize| RestoreQueryView {
        query_id: 1,
        kind: RestoreQueryKind::Directory,
        state: RestoreQueryState::Succeeded,
        snapshots: Vec::new(),
        entries: (0..entries)
            .map(|index| entry(&format!("/{index}"), RestoreNodeType::File))
            .collect(),
        total: 2,
        message: None,
    };
    // Each item takes a hundred bytes, and the page itself ten.
    let encode = |page: &RestoreQueryView| Some(10 + 100 * page.entries.len());
    let shown = |payload: ResponsePayload| match payload {
        ResponsePayload::RestoreQuery { result } => result.entries.len(),
        _ => panic!("the page is shown"),
    };
    let reserve = RESPONSE_RESERVE_BYTES;
    assert_eq!(reserve, 16 * 1024);
    assert_eq!(shown(fit_page(page(3), encode, reserve + 310)), 3);
    assert_eq!(shown(fit_page(page(3), encode, reserve + 309)), 2);
    assert_eq!(shown(fit_page(page(3), encode, reserve + 10)), 0);
    assert!(rejected(
        &fit_page(page(3), encode, reserve + 9),
        "restore_query_item_too_large"
    ));
    assert!(rejected(
        &fit_page(page(1), |_: &RestoreQueryView| None, reserve + 310),
        "restore_query_encoding_failed"
    ));
}

#[test]
fn a_reply_holds_as_much_of_a_listing_as_fits() {
    let runtime = browsed();
    let encode = |page: &RestoreQueryView| Some(100 * page.entries.len());
    let ask = |limit, room: usize| {
        runtime.restore_query(2, 0, limit, ADMIN, encode, RESPONSE_RESERVE_BYTES + room)
    };
    for (limit, room, expected) in [(100, 1_000, 2), (1, 1_000, 1), (100, 199, 1), (100, 99, 0)] {
        match ask(limit, room) {
            ResponsePayload::RestoreQuery { result } => {
                assert_eq!(result.entries.len(), expected);
                assert_eq!(result.total, 2);
            }
            _ => panic!("the listing is shown"),
        }
    }
    assert!(rejected(
        &runtime.restore_query(9, 0, 1, ADMIN, encode, RESPONSE_RESERVE_BYTES),
        "restore_query_not_found"
    ));
    assert!(rejected(
        &runtime.restore_query(2, 0, 1, USER, encode, RESPONSE_RESERVE_BYTES),
        "administrator_required"
    ));
}

#[test]
fn a_restore_is_followed_to_its_end() {
    let mut runtime = browsed();
    let (job, _) = begin(&mut runtime, "/C/Data/folder").expect("a listed folder");
    assert!(refused(begin(&mut runtime, "/C/Data/folder"), "restore_running"));
    runtime.update_restore_progress(
        job,
        RestoreProgress {
            files_restored: Some(3),
            bytes_restored: Some(30),
            total_files: Some(9),
            total_bytes: None,
            destination: None,
        },
    );
    match runtime.restore_status(ADMIN) {
        ResponsePayload::RestoreStatus { status } => {
            assert_eq!(status.state, RestoreJobState::Running);
            assert_eq!(status.files_restored, Some(3));
            assert_eq!(status.total_files, Some(9));
        }
        payload => panic!("{payload:?}"),
    }
    assert!(matches!(
        runtime.cancel_restore(ADMIN),
        Ok(RuntimeEvent::RestoreCancelled { job_id }) if job_id == job
    ));
    let ended = |job_id| RestoreStatusView {
        job_id: Some(job_id),
        state: RestoreJobState::Cancelled,
        ..RestoreStatusView::idle()
    };
    assert!(runtime.finish_restore(job + 1, ended(job + 1)).is_none());
    assert!(runtime.finish_restore(job, ended(job)).is_some());
    assert!(refused(runtime.cancel_restore(ADMIN), "restore_not_running"));
}

#[test]
fn destinations_are_absolute_and_short() {
    let mut runtime = browsed();
    let mut restore = |destination: String| {
        runtime.begin_restore(
            "abc".to_owned(),
            "/C/Data/file.txt".to_owned(),
            destination,
            VALID,
            20,
            ADMIN,
            NOW,
        )
    };
    assert!(refused(restore("Recovered".to_owned()), "invalid_restore_destination"));
    assert!(refused(
        restore(format!("D:\\{}", "x".repeat(18))),
        "invalid_restore_destination"
    ));
    assert!(restore(format!("D:\\{}", "x".repeat(17))).is_ok());
}

#[test]
fn selections_are_checked() {
    let check = |snapshot_id_is_valid, path_is_valid| {
        validate_snapshot_selection(SelectionCheck {
            snapshot_id_is_valid,
            path_is_valid,
        })
        .is_none()
    };
    assert!(check(true, true));
    assert!(!check(false, true));
    assert!(!check(true, false));
}

#[test]
fn folders_have_their_place_in_a_backup() {
    assert_eq!(snapshot_node_path(r"C:\Data\x\"), Some("/C/Data/x".to_owned()));
    assert_eq!(snapshot_node_path("c:/Data"), Some("/c/Data".to_owned()));
    assert_eq!(snapshot_node_path(r"C:\"), Some("/C".to_owned()));
    assert_eq!(snapshot_node_path(r"\\server\share"), None);
    assert_eq!(
        snapshot_source_path(r"C:\Data", &vec!["/C/Data".to_owned()]),
        None
    );
}

#[test]
fn failures_are_told_without_details() {
    assert_eq!(
        restore_failure_message("restore_timed_out"),
        "File recovery exceeded its safe execution limit."
    );
    assert_eq!(
        restore_failure_message("C:\\secret"),
        "The backup repository could not complete the requested recovery operation."
    );
}

#[test]
fn an_undelivered_restore_is_taken_back() {
    let mut runtime = browsed();
    let _ = begin(&mut runtime, "/C/Data/file.txt").expect("a listed file");
    assert!(rejected(&runtime.restore_undelivered(), "service_stopping"));
    assert!(!runtime.state.restore_operation_active);
}

#[test]
fn a_table_holds_one_value_per_key() {
    let key = |name: &str| ("snapshot".to_owned(), name.to_owned());
    let mut table: Table<&'static str> = Table::new();
    table.insert(key("c"), "three");
    table.insert(key("a"), "one");
    table.insert(key("c"), "drei");
    assert_eq!(table.get(&key("c")), Some(&"drei"));
    assert_eq!(table.get(&key("b")), None);
    assert_eq!(
        table.get(&("other".to_owned(), "c".to_owned())),
        None
    );
    assert_eq!(table.len(), 2);
    assert!(table.contains_key(&key("a")));
    assert_eq!(table.take(&key("a")), Some("one"));
    assert_eq!(table.take(&key("a")), None);
    table.clear();
    assert_eq!(table.len(), 0);
}

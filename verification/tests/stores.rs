use resticpal::conditions::{profile_is_metered, ConnectionProfile, SystemConditions};
use resticpal::diagnostics::{
    archive_path, sanitize_code, DiagnosticLevel, DiagnosticLog, RotationStep, MAX_LOG_BYTES,
};
use resticpal::paths::{is_absolute, join, parent, with_extension, with_file_name};
use resticpal::sources::{deduplicate_exclusions, deduplicate_paths};
use resticpal::stores::{
    BackupHistoryStore, ConfigStoreError, LoadedConfig, LocalConfigStore, ManagedPolicyCache,
    PersistedScheduleState, ScheduleStateStore, StateStoreError, StoredFile, TemporaryFile,
    MAX_CONFIG_BYTES, MAX_STATE_BYTES, STATE_SCHEMA_VERSION,
};

fn texts(values: &[&str]) -> Vec<String> {
    values.iter().map(|value| (*value).to_owned()).collect()
}

#[test]
fn log_is_structured_bounded_and_sanitizes_codes() {
    let entry = DiagnosticLog::entry(
        5,
        DiagnosticLevel::Error,
        "backup.failed",
        "Backup failed.",
        Some("Access denied: C:\\Users\\Secret"),
    );
    let entries = DiagnosticLog::recent(vec![entry], 10);
    assert_eq!(entries.len(), 1);
    assert_eq!(entries[0].event_id, "backup.failed");
    assert_eq!(entries[0].code.as_deref(), Some("unclassified_error"));
    assert!(!format!("{entries:?}").contains(r"C:\\Users\\Secret"));
}

#[test]
fn recent_results_obey_the_requested_limit() {
    let entries = (0..5)
        .map(|at| {
            DiagnosticLog::entry(
                at,
                DiagnosticLevel::Information,
                "service.test",
                "Test event.",
                None,
            )
        })
        .collect::<Vec<_>>();

    let recent = DiagnosticLog::recent(entries, 2);
    assert_eq!(recent.len(), 2);
    assert_eq!(recent[0].timestamp, 3);
    assert_eq!(recent[1].timestamp, 4);
}

#[test]
fn missing_state_means_no_previous_success() {
    assert_eq!(
        ScheduleStateStore::load_last_success(StoredFile::Missing, None),
        Ok(None)
    );
}

#[test]
fn last_success_round_trips_and_is_atomically_replaced() {
    let first = 1_786_183_200_000_000_000;
    let second = first + 3_600_000_000_000;
    let mut file = ScheduleStateStore::save_last_success(first);
    assert_eq!(
        ScheduleStateStore::load_last_success(StoredFile::Read { length: 80 }, Some(file)),
        Ok(Some(first))
    );
    file = ScheduleStateStore::save_last_success(second);
    assert_eq!(
        ScheduleStateStore::load_last_success(StoredFile::Read { length: 80 }, Some(file)),
        Ok(Some(second))
    );
    let file = TemporaryFile::replacing("C:\\d\\state.json", "state", 12, 3).expect("a parent");
    assert_eq!(file.path(), "C:\\d\\.state-12-3.tmp");
    assert_eq!(file.to_delete(), Some("C:\\d\\.state-12-3.tmp".to_owned()));
    assert_eq!(file.disarm().to_delete(), None);
    assert!(TemporaryFile::replacing("C:\\", "state", 12, 3).is_none());
}

#[test]
fn a_state_that_cannot_be_trusted_is_an_error() {
    let load = |length, decoded| {
        ScheduleStateStore::load_last_success(StoredFile::Read { length }, decoded)
    };
    let state = PersistedScheduleState {
        schema_version: STATE_SCHEMA_VERSION + 1,
        last_success: Some(1),
    };
    assert_eq!(
        load(10, Some(state)),
        Err(StateStoreError::UnsupportedSchema(2))
    );
    assert_eq!(load(10, None), Err(StateStoreError::Json));
    assert_eq!(
        load(MAX_STATE_BYTES + 1, Some(state)),
        Err(StateStoreError::TooLarge)
    );
    assert_eq!(
        ScheduleStateStore::load_last_success(StoredFile::Unreadable, None),
        Err(StateStoreError::Io)
    );
}

#[test]
fn missing_configuration_loads_product_defaults() {
    assert_eq!(
        LocalConfigStore::load(StoredFile::Missing),
        Ok(LoadedConfig::Defaults)
    );
}

#[test]
fn configurations_are_bounded() {
    assert_eq!(
        LocalConfigStore::load(StoredFile::Missing),
        Ok(LoadedConfig::Defaults)
    );
    assert_eq!(
        LocalConfigStore::load(StoredFile::Read {
            length: MAX_CONFIG_BYTES
        }),
        Ok(LoadedConfig::Contents)
    );
    assert_eq!(
        LocalConfigStore::load(StoredFile::Read {
            length: MAX_CONFIG_BYTES + 1
        }),
        Err(ConfigStoreError::TooLarge)
    );
    assert_eq!(
        LocalConfigStore::load(StoredFile::Unreadable),
        Err(ConfigStoreError::Io)
    );
    assert_eq!(
        LocalConfigStore::save(b"a = 1".to_vec()),
        Ok(b"a = 1\n".to_vec())
    );
    assert_eq!(
        LocalConfigStore::save(vec![b'a'; MAX_CONFIG_BYTES as usize]),
        Err(ConfigStoreError::TooLarge)
    );
}

#[test]
fn files_stand_beside_the_configuration() {
    let config = "C:\\ProgramData\\ResticPal\\config.toml";
    assert_eq!(LocalConfigStore::new(config).path(), config);
    assert_eq!(
        LocalConfigStore::new(config).directory(),
        Some("C:\\ProgramData\\ResticPal".to_owned())
    );
    assert_eq!(
        ScheduleStateStore::next_to_config(config).path(),
        "C:\\ProgramData\\ResticPal\\state.json"
    );
    assert_eq!(
        ManagedPolicyCache::next_to_config(config).path(),
        "C:\\ProgramData\\ResticPal\\managed-policy-cache.json"
    );
    let history = BackupHistoryStore::next_to_config(config);
    assert_eq!(history.path(), "C:\\ProgramData\\ResticPal\\state.db");
    assert_eq!(
        history.database_files(),
        vec![
            "C:\\ProgramData\\ResticPal\\state.db",
            "C:\\ProgramData\\ResticPal\\state.db-wal",
            "C:\\ProgramData\\ResticPal\\state.db-shm",
        ]
    );
    assert_eq!(
        DiagnosticLog::next_to_config(config).path(),
        "C:\\ProgramData\\ResticPal\\Logs\\service.jsonl"
    );
}

#[test]
fn a_full_log_is_put_away() {
    let log = DiagnosticLog::next_to_config("C:\\d\\config.toml");
    assert!(!DiagnosticLog::must_rotate(MAX_LOG_BYTES - 10, 10));
    assert!(DiagnosticLog::must_rotate(MAX_LOG_BYTES - 10, 11));
    assert!(DiagnosticLog::must_rotate(u64::MAX, 1));
    let steps = log.rotate();
    assert_eq!(steps.len(), 4);
    assert_eq!(
        steps[0],
        RotationStep::Remove {
            path: "C:\\d\\Logs\\service.jsonl.3".to_owned()
        }
    );
    assert_eq!(
        steps[3],
        RotationStep::Rename {
            from: "C:\\d\\Logs\\service.jsonl".to_owned(),
            to: "C:\\d\\Logs\\service.jsonl.1".to_owned()
        }
    );
    assert_eq!(log.files()[0], "C:\\d\\Logs\\service.jsonl.3");
    assert_eq!(archive_path("C:\\d\\a.jsonl", 2), "C:\\d\\a.jsonl.2");
    assert_eq!(sanitize_code("restic_exit_1"), Some("restic_exit_1".to_owned()));
    assert_eq!(sanitize_code("No"), Some("unclassified_error".to_owned()));
}

#[test]
fn paths_are_those_of_windows() {
    assert_eq!(join("C:\\a", "b"), "C:\\a\\b");
    assert_eq!(join("C:\\a\\", "b"), "C:\\a\\b");
    assert_eq!(join("C:", "b"), "C:b");
    assert_eq!(parent("C:\\a\\b"), Some("C:\\a".to_owned()));
    assert_eq!(parent("C:\\"), None);
    assert_eq!(with_file_name("C:/a/b.txt", "c"), "C:/a\\c");
    assert_eq!(with_extension("C:\\a.d\\b.txt", "x"), "C:\\a.d\\b.x");
    assert!(is_absolute("C:\\a"));
    assert!(!is_absolute("C:a"));
    assert!(!is_absolute("\\a"));
    assert!(is_absolute("\\\\server\\share"));
}

#[test]
fn the_same_folder_is_kept_once() {
    assert_eq!(
        deduplicate_paths(&texts(&["C:\\A", "c:\\a", "D:\\b", "C:\\\u{c4}", "c:\\\u{e4}"])),
        vec!["C:\\A", "D:\\b", "C:\\\u{c4}"]
    );
    assert_eq!(
        deduplicate_exclusions(&texts(&["*.tmp", "*.TMP", "*.tmp"])),
        vec!["*.tmp", "*.TMP"]
    );
}

#[test]
fn conditions_follow_the_connected_profiles() {
    let profile = |connected, unrestricted_cost| ConnectionProfile {
        connected,
        unrestricted_cost,
        roaming: false,
        over_data_limit: false,
    };
    let conditions = SystemConditions::query(1, &vec![profile(true, false), profile(false, true)]);
    assert!(conditions.network_available && conditions.metered_network && !conditions.on_battery);
    let conditions = SystemConditions::query(0, &vec![profile(true, false), profile(true, true)]);
    assert!(conditions.network_available && !conditions.metered_network && conditions.on_battery);
    let conditions = SystemConditions::query(255, &Vec::new());
    assert!(!conditions.network_available && !conditions.metered_network && conditions.on_battery);
    let unknown = SystemConditions::conservative();
    assert!(!unknown.network_available && unknown.metered_network && unknown.on_battery);
    let mut roaming = profile(true, true);
    assert!(!profile_is_metered(&roaming));
    roaming.roaming = true;
    assert!(profile_is_metered(&roaming));
}

#[test]
fn a_verbatim_path_is_spelled_out_anew() {
    assert_eq!(join(r"\\?\C:\a\\b", "c"), r"\\?\C:\a\b\c");
    assert_eq!(join(r"\\?\C:/a", "c"), r"\\?\C:\a\c");
    assert_eq!(join(r"\\?\C:\a\b", r"..\c/./d"), r"\\?\C:\a\c\d");
    assert_eq!(join(r"\\?\C:\a", r"..\..\.."), r"\\?\C:\");
    assert_eq!(join(r"\\?\C:\a", r"\c"), r"\\?\C:\c");
    assert_eq!(join(r"\\?\C:", "c"), r"\\?\C:\c");
    assert_eq!(
        with_file_name(r"\\?\C:\a\\b\config.toml", "state.json"),
        r"\\?\C:\a\b\state.json"
    );
}

#[test]
fn a_part_may_replace_its_base() {
    assert_eq!(join(r"C:\a", r"D:\b"), r"D:\b");
    assert_eq!(join(r"C:\a", "D:b"), "D:b");
    assert_eq!(join(r"C:\a", r"\\s\h"), r"\\s\h");
    assert_eq!(join(r"C:\a", r"\b"), r"C:\b");
    assert_eq!(join(r"\\s\h\a", "/b"), r"\\s\h/b");
    assert_eq!(join("a", r"\b"), r"\b");
    assert_eq!(join("C:", "b"), "C:b");
    assert_eq!(join(r"C:\a", ""), r"C:\a\");
}

#[test]
fn a_dot_behind_a_drive_names_nothing() {
    assert_eq!(parent("C:."), None);
    assert_eq!(parent(r"C:.\a"), Some("C:.".to_owned()));
    assert_eq!(parent("."), Some(String::new()));
    assert_eq!(with_file_name(r"C:.\a", "b"), r"C:.\b");
}

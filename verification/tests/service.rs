use resticpal::config::{LocalManagementConfig, ManagementMode};
use resticpal::management::{
    bearer_authorization, begin_load, bounded_hostname, check_cache_length,
    check_enrollment_length, choose_policy, manifest_text, minimum_sequence, plan_check,
    plan_fetch, plan_report, refresh_policy, validate_effective_policy, CachedManifest, FetchPlan,
    ManagementError, ManifestCheck, PolicyCandidate, PolicyChoice, ReportPlan, MAX_CACHE_BYTES,
};
use resticpal::outcome::{BackupOutcome, BackupOutcomeKind, RepositoryOutcome};
use resticpal::protocol::{RepositoryOperationKind, UpdatePackage};
use resticpal::runtime::enrollment::ManagedPolicyApplyOutcome;
use resticpal::runtime::events::{
    BackupTrigger, RuntimeEvent, ScheduleAction, UpdateInstallOutcome,
};
use resticpal::service::{
    config_path, credential_store_path, default_config_path, management_refresh_delay,
    phase_report, policy_result, program_data_root, restic_path, service_control, staged_bootstrap_url,
    staged_value, valid_registry_size, wants_console, EventLoop, LoopAction,
    ManagementRefreshOutcome, ManagementWorker, PassStart, PhaseReport, PolicyResult,
    ServiceControl, ServicePhase,
};
use resticpal::status::{BackupPhase, BackupState};
use std::time::Duration;

const SECOND: u128 = 1_000_000_000;

fn management(mode: ManagementMode) -> LocalManagementConfig {
    LocalManagementConfig {
        mode,
        manifest_url: Some("https://example.test/manifest".to_owned()),
        signing_public_key: None,
        refresh_interval_minutes: None,
        status_url: None,
        device_id: None,
        status_token_ref: None,
        enrollment_key_ref: None,
    }
}

fn candidate(sequence: u64) -> PolicyCandidate {
    PolicyCandidate {
        sequence,
        names_secrets: false,
        resolution: Ok(()),
    }
}

fn texts(values: &[&str]) -> Vec<String> {
    values.iter().map(|value| (*value).to_owned()).collect()
}

#[test]
fn busy_runtime_retries_policy_without_waiting_for_the_full_interval() {
    assert_eq!(
        Duration::from_secs(management_refresh_delay(
            15,
            ManagementRefreshOutcome::RuntimeBusy,
            0
        )),
        Duration::from_secs(30)
    );
}

#[test]
fn failed_policy_fetch_backs_off_without_exceeding_the_configured_interval() {
    assert_eq!(
        Duration::from_secs(management_refresh_delay(
            15,
            ManagementRefreshOutcome::Failed,
            1
        )),
        Duration::from_secs(60)
    );
    assert_eq!(
        Duration::from_secs(management_refresh_delay(
            15,
            ManagementRefreshOutcome::Failed,
            8
        )),
        Duration::from_secs(15 * 60)
    );
    assert_eq!(
        Duration::from_secs(management_refresh_delay(
            15,
            ManagementRefreshOutcome::Synchronized,
            0
        )),
        Duration::from_secs(15 * 60)
    );
}

#[test]
fn plain_http_manifest_is_cached_for_offline_startup() {
    let local = management(ManagementMode::PlainManifest);
    let fetched = choose_policy(false, Err("no cache".to_owned()), Ok(candidate(12)));
    assert_eq!(fetched, Ok(PolicyChoice::Fetched));
    let cache = CachedManifest::new(&local, "{}", 5);
    assert_eq!(cache.check(&local), Ok(ManifestCheck::Plain));
    let cached = choose_policy(false, Ok(candidate(12)), Err("offline".to_owned()));
    assert_eq!(cached, Ok(PolicyChoice::Cached));
}

#[test]
fn cached_sequence_blocks_a_restart_rollback() {
    assert_eq!(minimum_sequence(&Ok(candidate(12))), Some(12));
    let after_replay = choose_policy(
        false,
        Ok(candidate(12)),
        Err("manifest sequence 11 is older than 12".to_owned()),
    );
    assert_eq!(after_replay, Ok(PolicyChoice::Cached));
}

#[test]
fn a_policy_that_cannot_come_into_effect_is_refused() {
    assert_eq!(
        choose_policy(
            false,
            Err("no cache".to_owned()),
            Err("offline".to_owned())
        ),
        Err(ManagementError::FetchAndCacheUnavailable {
            fetch: "offline".to_owned(),
            cache: "no cache".to_owned()
        })
    );
    let mut leaking = candidate(3);
    leaking.names_secrets = true;
    assert_eq!(
        validate_effective_policy(true, leaking),
        Err(ManagementError::EnrolledPolicyContainsSecretReferences)
    );
    let mut broken = candidate(3);
    broken.resolution = Err("no paths".to_owned());
    assert_eq!(
        validate_effective_policy(false, broken),
        Err(ManagementError::Host {
            reason: "no paths".to_owned()
        })
    );
    assert_eq!(
        choose_policy(false, Ok(candidate(4)), Ok(candidate(4))),
        Ok(PolicyChoice::Cached)
    );
    assert_eq!(refresh_policy(false, 4, candidate(4)), Ok(false));
    assert_eq!(refresh_policy(false, 4, candidate(5)), Ok(true));
}

#[test]
fn a_cache_of_another_source_is_not_used() {
    let local = management(ManagementMode::PlainManifest);
    let cache = CachedManifest::new(&local, "{}", 5);
    let mut moved = management(ManagementMode::PlainManifest);
    moved.manifest_url = Some("https://other.test/manifest".to_owned());
    assert_eq!(
        cache.check(&moved),
        Err(ManagementError::CacheDoesNotMatchSource)
    );
    assert_eq!(
        cache.check(&management(ManagementMode::SignedManifest)),
        Err(ManagementError::CacheDoesNotMatchSource)
    );
    assert_eq!(check_cache_length(MAX_CACHE_BYTES), Ok(()));
    assert_eq!(
        check_cache_length(MAX_CACHE_BYTES + 1),
        Err(ManagementError::CacheTooLarge)
    );
}

#[test]
fn a_fetch_is_planned_from_the_configuration() {
    let mut joined = management(ManagementMode::SignedManifest);
    joined.status_token_ref = Some("token".to_owned());
    assert_eq!(
        plan_fetch(&joined, true),
        Ok(FetchPlan {
            url: "https://example.test/manifest".to_owned(),
            token_ref: Some("token".to_owned())
        })
    );
    assert_eq!(
        plan_fetch(&joined, false),
        Err(ManagementError::CredentialStoreUnavailable)
    );
    joined.manifest_url = None;
    assert_eq!(
        plan_fetch(&joined, true),
        Err(ManagementError::MissingManifestUrl)
    );
    let mut signed = management(ManagementMode::SignedManifest);
    assert_eq!(
        plan_check(&signed, 10, 10),
        Err(ManagementError::MissingSigningKey)
    );
    signed.signing_public_key = Some("key".to_owned());
    assert_eq!(
        plan_check(&signed, 10, 10),
        Ok(ManifestCheck::Signed {
            public_key: "key".to_owned()
        })
    );
    assert_eq!(
        plan_check(&signed, 11, 10),
        Err(ManagementError::ManifestTooLarge)
    );
    assert_eq!(
        plan_check(&management(ManagementMode::Disabled), 1, 10),
        Err(ManagementError::ManagementDisabled)
    );
    assert_eq!(
        begin_load(&management(ManagementMode::Disabled), Err("x".to_owned())),
        Ok(false)
    );
    assert_eq!(
        begin_load(&signed, Err("x".to_owned())),
        Err(ManagementError::Host {
            reason: "x".to_owned()
        })
    );
    assert_eq!(check_enrollment_length(10, 10), Ok(()));
    assert_eq!(
        check_enrollment_length(11, 10),
        Err(ManagementError::EnrollmentTooLarge)
    );
}

#[test]
fn a_report_needs_an_address_a_device_and_a_token() {
    let mut local = management(ManagementMode::SignedManifest);
    assert_eq!(
        plan_report(&local),
        Err(ManagementError::StatusReportingNotConfigured)
    );
    local.status_url = Some("https://example.test/status".to_owned());
    local.device_id = Some("device".to_owned());
    local.status_token_ref = Some("token".to_owned());
    assert_eq!(
        plan_report(&local),
        Ok(ReportPlan {
            url: "https://example.test/status".to_owned(),
            device_id: "device".to_owned(),
            token_ref: "token".to_owned()
        })
    );
    assert_eq!(bearer_authorization(b"abc"), Ok("Bearer abc".to_owned()));
    assert_eq!(
        bearer_authorization(b"a\r\nb"),
        Err(ManagementError::InvalidStatusToken)
    );
    assert_eq!(
        bearer_authorization(&[0xff]),
        Err(ManagementError::InvalidStatusToken)
    );
    assert_eq!(manifest_text(b"{}"), Ok("{}".to_owned()));
    assert_eq!(manifest_text(&[0xff]), Err(ManagementError::InvalidUtf8));
    assert_eq!(bounded_hostname(None), "unknown-windows-device");
    assert_eq!(bounded_hostname(Some(String::new())), "unknown-windows-device");
    assert_eq!(bounded_hostname(Some("x".repeat(300))).len(), 256);
}

#[test]
fn a_new_source_is_activated_before_it_is_refreshed() {
    let mut worker = ManagementWorker::new(100 * SECOND);
    let local = management(ManagementMode::PlainManifest);
    assert_eq!(worker.begin_pass(None), PassStart::Sleep);
    assert_eq!(worker.begin_pass(Some(&local)), PassStart::Activate);
    worker.activated(&local, PolicyResult::Applied { sequence: 12 }, 15, 100 * SECOND);
    assert_eq!(worker.begin_pass(Some(&local)), PassStart::Continue);
    assert_eq!(worker.sequence, 12);
    assert!(!worker.refresh_due((100 + 15 * 60) * SECOND - 1));
    assert!(worker.refresh_due((100 + 15 * 60) * SECOND));
    assert!(worker.takes(13));
    assert!(!worker.takes(12));
    worker.refreshed(PolicyResult::Failed, 15, 1_000 * SECOND);
    assert_eq!(worker.refresh_failures, 1);
    assert_eq!(worker.next_refresh, 1_060 * SECOND);
    worker.refreshed(PolicyResult::RuntimeBusy, 15, 2_000 * SECOND);
    assert_eq!(worker.refresh_failures, 0);
    assert_eq!(worker.next_refresh, 2_030 * SECOND);
    assert_eq!(
        worker.begin_pass(Some(&management(ManagementMode::Disabled))),
        PassStart::Sleep
    );
    assert_eq!(worker.sequence, 0);
    assert!(worker.source.is_none());
}

#[test]
fn a_policy_counts_by_what_the_service_made_of_it() {
    for (applied, result) in [
        (
            Ok(ManagedPolicyApplyOutcome::Applied),
            PolicyResult::Applied { sequence: 7 },
        ),
        (
            Ok(ManagedPolicyApplyOutcome::RuntimeBusy),
            PolicyResult::RuntimeBusy,
        ),
        (
            Ok(ManagedPolicyApplyOutcome::SourceChanged),
            PolicyResult::SourceChanged,
        ),
        (Err("invalid".to_owned()), PolicyResult::Failed),
    ] {
        assert_eq!(policy_result(&applied, 7), result);
    }
}

#[test]
fn a_change_of_the_state_is_reported_at_once() {
    let mut worker = ManagementWorker::new(0);
    let running = BackupState::Running {
        phase: BackupPhase::Uploading,
    };
    assert!(!worker.report_due(false, &BackupState::Idle, 10 * SECOND));
    assert!(worker.report_due(true, &BackupState::Idle, 10 * SECOND));
    worker.reported(true, &BackupState::Idle, 10 * SECOND);
    assert_eq!(worker.next_report, (10 + 21_600) * SECOND);
    assert!(!worker.report_due(true, &BackupState::Idle, 11 * SECOND));
    assert!(worker.report_due(true, &running, 12 * SECOND));
    worker.reported(true, &running, 12 * SECOND);
    assert_eq!(worker.next_report, (12 + 300) * SECOND);
    worker.reported(false, &running, 400 * SECOND);
    worker.reported(false, &running, 500 * SECOND);
    assert_eq!(worker.next_report, 620 * SECOND);
}

#[test]
fn the_event_loop_runs_one_thing_at_a_time() {
    let mut events = EventLoop::new();
    assert!(events.may_evaluate());
    assert!(!events.evaluated(ScheduleAction::Nothing));
    assert!(events.evaluated(ScheduleAction::Start {
        trigger: BackupTrigger::Manual
    }));
    assert!(matches!(
        events.react(RuntimeEvent::RepositoryOperationRequested(
            RepositoryOperationKind::Validate
        )),
        LoopAction::RefuseRepository {
            code: "repository_operation_conflict",
            ..
        }
    ));
    assert!(matches!(
        events.react(RuntimeEvent::UpdateInstallRequested(UpdatePackage {
            version: "1.0.0".to_owned(),
            url: String::new(),
            signature: String::new(),
            length: 1
        })),
        LoopAction::RefuseUpdate {
            code: "update_operation_conflict"
        }
    ));
    assert!(matches!(
        events.react(RuntimeEvent::Cancel),
        LoopAction::CancelBackup
    ));
    assert!(matches!(
        events.react(RuntimeEvent::BackupFinished(BackupOutcome::cancelled())),
        LoopAction::FinishBackup { .. }
    ));
    assert!(matches!(
        events.react(RuntimeEvent::Cancel),
        LoopAction::Nothing
    ));
    assert!(matches!(
        events.react(RuntimeEvent::RepositoryOperationRequested(
            RepositoryOperationKind::Validate
        )),
        LoopAction::StartRepository { .. }
    ));
    assert_eq!(events.repository_start_failed(), "executor_start_failed");
    assert!(matches!(
        events.react(RuntimeEvent::Resume),
        LoopAction::Resume
    ));
    assert!(matches!(
        events.react(RuntimeEvent::RunNow),
        LoopAction::Evaluate
    ));
    assert!(matches!(events.react(RuntimeEvent::Stop), LoopAction::Stop));
    assert_eq!(
        EventLoop::new().backup_start_failed().kind,
        BackupOutcomeKind::Failed {
            code: "executor_start_failed".to_owned()
        }
    );
    assert_eq!(
        EventLoop::update_start_failed(),
        UpdateInstallOutcome::Failed {
            code: "update_worker_start_failed"
        }
    );
}

#[test]
fn a_stop_waits_only_for_what_was_cancelled() {
    let mut events = EventLoop {
        backup_active: true,
        repository_active: true,
    };
    assert_eq!(events.drain_time(4, 10), Some(6));
    assert_eq!(events.drain_time(10, 10), None);
    assert!(matches!(
        events.drain(RuntimeEvent::RunNow),
        LoopAction::Nothing
    ));
    assert!(matches!(
        events.drain(RuntimeEvent::BackupFinished(BackupOutcome::cancelled())),
        LoopAction::FinishBackup { .. }
    ));
    assert!(matches!(
        events.drain(RuntimeEvent::RepositoryOperationFinished {
            operation: RepositoryOperationKind::Validate,
            outcome: RepositoryOutcome::cancelled()
        }),
        LoopAction::FinishRepository { .. }
    ));
    assert_eq!(events.drain_time(4, 10), None);
}

#[test]
fn controls_of_windows_become_events() {
    let reply = service_control(ServiceControl::Shutdown);
    assert!(reply.implemented && matches!(reply.event, Some(RuntimeEvent::Stop)));
    let reply = service_control(ServiceControl::ResumeSuspend);
    assert!(reply.implemented && matches!(reply.event, Some(RuntimeEvent::Resume)));
    let reply = service_control(ServiceControl::Interrogate);
    assert!(reply.implemented && reply.event.is_none());
    let reply = service_control(ServiceControl::Other);
    assert!(!reply.implemented && reply.event.is_none());
    assert_eq!(
        phase_report(ServicePhase::StopPending),
        PhaseReport {
            accepts_controls: false,
            checkpoint: 1,
            wait_hint: 10
        }
    );
    assert!(phase_report(ServicePhase::Running).accepts_controls);
}

#[test]
fn the_files_of_the_service_are_found() {
    let root = program_data_root(Some("D:\\Data".to_owned()));
    assert_eq!(root, "D:\\Data\\ResticPal");
    assert_eq!(program_data_root(None), "C:\\ProgramData\\ResticPal");
    assert_eq!(default_config_path(&root), "D:\\Data\\ResticPal\\config.toml");
    assert_eq!(
        credential_store_path(&root),
        "D:\\Data\\ResticPal\\Credentials"
    );
    assert_eq!(
        config_path(&texts(&["service", "--config", "E:\\c.toml"]), &root),
        "E:\\c.toml"
    );
    assert_eq!(
        config_path(&texts(&["service", "--config"]), &root),
        "D:\\Data\\ResticPal\\config.toml"
    );
    assert!(wants_console(&texts(&["service", "--console"])));
    assert!(!wants_console(&texts(&["service"])));
    assert_eq!(
        restic_path(Some("C:\\p\\service.exe".to_owned())),
        "C:\\p\\restic.exe"
    );
    assert_eq!(restic_path(None), "restic.exe");
}

#[test]
fn the_staged_address_is_read_from_the_registry() {
    assert_eq!(valid_registry_size(2), Ok(()));
    assert_eq!(valid_registry_size(65_536), Ok(()));
    for size in [0, 1, 3, 65_538] {
        assert_eq!(
            valid_registry_size(size),
            Err("staged bootstrap URL has an invalid registry size")
        );
    }
    let units = |text: &str| text.encode_utf16().collect::<Vec<u16>>();
    assert_eq!(
        staged_bootstrap_url(&units("https://a/\u{1f600}\0rest")),
        Ok(Some("https://a/\u{1f600}".to_owned()))
    );
    assert_eq!(staged_bootstrap_url(&units("\0")), Ok(None));
    assert_eq!(
        staged_bootstrap_url(&vec![0xd800]),
        Err("bootstrap URL is not UTF-16")
    );
    assert_eq!(staged_value(Some(String::new())), Ok(None));
    assert_eq!(staged_value(None), Err("bootstrap URL is not UTF-16"));
}

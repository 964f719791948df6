use resticpal::config::{SecretEnvironmentVariable, SecretRefs};
use resticpal::environment::{child_environment, Assignment};
use resticpal::executor::{
    backup_invocation_error_code, backup_outcome_for_lock_cleanup, environment_value,
    finish_invocation, finish_outcome, finish_repository_invocation, report_backup,
    report_operation, repository_command, resolve_secrets, termination_result,
    unplanned_operation, BackupEvent, BackupStage,
    CancellationRequests, CancellationToken, ChildPoll, InvocationError, ProcessEnd, ProcessEvent, ProcessRun,
    ProcessStage, ResticOperation, RetentionEvent, RetentionRun, RetentionStage,
    SecretResolveError, SecretResolver, TerminationCause, UnavailableSecretResolver,
    REPOSITORY_OPERATION_TIMEOUT,
};
use resticpal::outcome::{
    BackupFailureDetails, BackupOutcome, BackupOutcomeKind, BackupSummary, RepositoryOutcome,
    RepositoryOutcomeKind, RetentionOutcomeKind,
};
use resticpal::output::{OutputEvent, ParsedOutput};
use resticpal::protocol::RepositoryOperationKind;
use resticpal::paths::{
    ordinary_windows_path, same_path, source_drive, source_is_network_path,
    source_uses_unsupported_local_namespace,
};
use resticpal::sources::{required_exclusions, validate_backup_source_paths, CheckedSource};
use resticpal::status::RepositoryMode;

struct MapSecretResolver(Vec<(String, String)>);

impl SecretResolver for MapSecretResolver {
    fn resolve(&self, reference: &str) -> Result<String, SecretResolveError> {
        self.0
            .iter()
            .find(|(name, _)| name == reference)
            .map(|(_, value)| value.clone())
            .ok_or(SecretResolveError)
    }
}

fn summary(snapshot_id: &str) -> BackupSummary {
    BackupSummary {
        files_processed: 1,
        bytes_processed: 2,
        data_added: 3,
        snapshot_id: Some(snapshot_id.to_owned()),
    }
}

fn parsed(snapshot_id: &str) -> ParsedOutput {
    ParsedOutput {
        summary: Some(summary(snapshot_id)),
        ..ParsedOutput::new()
    }
}

fn stepped(succeeded: bool) -> ProcessEvent {
    ProcessEvent::Stepped { succeeded }
}

/// A run whose child is being looked at.
fn polling(timeout: Option<u64>) -> ProcessRun {
    let mut run = ProcessRun::new(timeout);
    for event in [
        stepped(true),
        stepped(true),
        ProcessEvent::Cancellation { requested: false },
        stepped(true),
        stepped(true),
        stepped(true),
        stepped(true),
    ] {
        run.advance(event);
    }
    assert_eq!(run.stage, ProcessStage::PollChild);
    run
}

fn ended(run: ProcessRun) -> ProcessEnd {
    match run.stage {
        ProcessStage::Ended { end } => end,
        stage => panic!("{stage:?}"),
    }
}

fn source(path: &str) -> CheckedSource {
    CheckedSource {
        path: path.to_owned(),
        drive_is_remote: false,
        spelled_as_resolved: None,
        protected: false,
    }
}

#[test]
fn stale_lock_cleanup_failure_blocks_backup_with_bounded_codes() {
    assert!(backup_outcome_for_lock_cleanup(&RepositoryOutcome {
        kind: RepositoryOutcomeKind::Succeeded,
    })
    .is_none());

    for (repository_code, expected_backup_code) in [
        (
            "repository_operation_timed_out",
            "stale_lock_cleanup_timed_out",
        ),
        ("repository_operation_failed", "stale_lock_cleanup_failed"),
        (
            "restic_repository_unreachable",
            "restic_repository_unreachable",
        ),
        ("credential_unavailable", "credential_unavailable"),
    ] {
        let outcome = backup_outcome_for_lock_cleanup(&RepositoryOutcome {
            kind: RepositoryOutcomeKind::Failed {
                code: repository_code.to_owned(),
            },
        })
        .expect("cleanup failure must block the backup");
        assert_eq!(
            outcome.kind,
            BackupOutcomeKind::Failed {
                code: expected_backup_code.to_owned()
            }
        );
    }

    assert_eq!(
        backup_outcome_for_lock_cleanup(&RepositoryOutcome {
            kind: RepositoryOutcomeKind::Cancelled,
        })
        .expect("cleanup cancellation must cancel the backup")
        .kind,
        BackupOutcomeKind::Cancelled
    );
}

#[test]
fn network_sources_are_rejected_before_restic_runs() {
    for path in [r"\\server\share\Data", r"\\?\UNC\server\share\Data"] {
        assert_eq!(
            validate_backup_source_paths(&vec![source(path)]),
            Err(InvocationError::UnsupportedNetworkBackupSource)
        );
    }
}

#[test]
fn local_source_resolution_preserves_ordinary_restic_path_namespaces() {
    assert_eq!(
        ordinary_windows_path(r"\\?\C:\ProgramData\ResticPal"),
        r"C:\ProgramData\ResticPal"
    );
    assert_eq!(
        ordinary_windows_path(r"\\?\UNC\server\share\Data"),
        r"\\server\share\Data"
    );
    assert!(source_is_network_path(r"\\server\share\Data", false));
    assert!(source_uses_unsupported_local_namespace(
        r"\\.\PhysicalDrive0"
    ));
    assert!(source_uses_unsupported_local_namespace(
        r"\\?\GLOBALROOT\Device\HarddiskVolumeShadowCopy1"
    ));
    assert!(source_uses_unsupported_local_namespace(
        r"\\?\Volume{01234567-89ab-cdef-0123-456789abcdef}\Data"
    ));
}

#[test]
fn an_oversized_progress_line_does_not_fail_a_successful_backup() {
    let mut output = ParsedOutput::new();
    output.record(Err(()));
    output.record(Ok(Some(OutputEvent::Summary(summary("ok")))));
    assert!(
        output.invalid_message,
        "oversized line marks invalid_message"
    );
    assert!(output.summary.is_some(), "summary still parses");

    let outcome = finish_outcome(Some(0), Ok(output), Ok(ParsedOutput::new()), b"", false);
    assert_eq!(outcome.kind, BackupOutcomeKind::Succeeded);
    assert_eq!(
        outcome.summary.expect("summary").snapshot_id.as_deref(),
        Some("ok")
    );
}

#[test]
fn cancellation_terminates_the_process_job() {
    let mut requests = CancellationRequests::new();
    let cancellation: CancellationToken = requests.issue();
    let cancel_from_thread = cancellation.clone();
    let mut run = polling(None);
    run.advance(ProcessEvent::Polled {
        poll: ChildPoll::Running,
        cancelled: cancellation.is_cancelled(&requests),
        elapsed: 100,
    });
    assert_eq!(run.stage, ProcessStage::PollChild);
    cancel_from_thread.cancel(&mut requests);
    run.advance(ProcessEvent::Polled {
        poll: ChildPoll::Running,
        cancelled: cancellation.is_cancelled(&requests),
        elapsed: 200,
    });
    assert_eq!(
        run.stage,
        ProcessStage::Terminate {
            cause: TerminationCause::Cancelled
        }
    );
    run.advance(stepped(true));
    let outcome = finish_invocation(
        ended(run),
        Ok(ParsedOutput::new()),
        Ok(ParsedOutput::new()),
        b"",
        false,
    );

    assert_eq!(outcome.kind, BackupOutcomeKind::Cancelled);
}

#[test]
fn repository_probe_reports_success_and_not_found_without_parsing_console_text() {
    assert_eq!(
        finish_repository_invocation(
            ResticOperation::Probe,
            ProcessEnd::Exited { status: Some(0) },
            b"untrusted repository metadata",
        )
        .kind,
        RepositoryOutcomeKind::Succeeded
    );

    assert_eq!(
        finish_repository_invocation(
            ResticOperation::Probe,
            ProcessEnd::Exited { status: Some(10) },
            b"",
        )
        .kind,
        RepositoryOutcomeKind::Failed {
            code: "repository_not_found".to_owned()
        }
    );
}

#[test]
fn repository_operation_has_a_hard_timeout() {
    let mut run = polling(Some(200));
    run.advance(ProcessEvent::Polled {
        poll: ChildPoll::Running,
        cancelled: false,
        elapsed: 199,
    });
    assert_eq!(run.stage, ProcessStage::PollChild);
    run.advance(ProcessEvent::Polled {
        poll: ChildPoll::Running,
        cancelled: false,
        elapsed: 200,
    });
    run.advance(stepped(true));
    let outcome = finish_repository_invocation(ResticOperation::Unlock, ended(run), b"");

    assert_eq!(
        outcome.kind,
        RepositoryOutcomeKind::Failed {
            code: "repository_operation_timed_out".to_owned()
        }
    );
}

#[test]
fn stale_lock_cleanup_honors_backup_cancellation() {
    let mut run = polling(Some(REPOSITORY_OPERATION_TIMEOUT));
    run.advance(ProcessEvent::Polled {
        poll: ChildPoll::Running,
        cancelled: true,
        elapsed: 200,
    });
    run.advance(stepped(true));
    let outcome = finish_repository_invocation(ResticOperation::Unlock, ended(run), b"");

    assert_eq!(outcome.kind, RepositoryOutcomeKind::Cancelled);
}

#[test]
fn restic_partial_source_exit_is_a_success_with_warnings() {
    let mut stderr = ParsedOutput::new();
    stderr.record(Ok(Some(OutputEvent::FailureItem(
        r"C:\Users\Example\locked.txt".to_owned(),
    ))));
    let outcome = finish_outcome(Some(3), Ok(parsed("partial")), Ok(stderr), b"", false);

    assert_eq!(outcome.kind, BackupOutcomeKind::SucceededWithWarnings);
    assert_eq!(
        outcome.warning_code.as_deref(),
        Some("restic_partial_source")
    );
    assert_eq!(
        outcome.summary.expect("summary").snapshot_id.as_deref(),
        Some("partial")
    );
    assert_eq!(
        *outcome.failure_details.items(),
        [r"C:\Users\Example\locked.txt"]
    );
    assert_eq!(outcome.failure_details.omitted(), 0);
}

#[test]
fn successful_restic_exit_reports_vss_live_fallback_as_a_warning() {
    let mut stderr = ParsedOutput::new();
    stderr.record(Ok(Some(OutputEvent::VssFallback)));
    let outcome = finish_outcome(Some(0), Ok(parsed("live-fallback")), Ok(stderr), b"", false);

    assert_eq!(outcome.kind, BackupOutcomeKind::SucceededWithWarnings);
    assert_eq!(outcome.warning_code.as_deref(), Some("restic_vss_fallback"));
    assert_eq!(
        outcome.summary.expect("summary").snapshot_id.as_deref(),
        Some("live-fallback")
    );
    assert!(outcome.failure_details.items().is_empty());
    assert_eq!(outcome.failure_details.omitted(), 0);
}

#[test]
fn vss_fallback_remains_primary_while_partial_file_details_are_retained() {
    let mut stderr = ParsedOutput::new();
    stderr.record(Ok(Some(OutputEvent::VssFallback)));
    stderr.record(Ok(Some(OutputEvent::FailureItem(
        r"C:\Users\Example\locked.txt".to_owned(),
    ))));
    let outcome = finish_outcome(Some(3), Ok(parsed("partial-live")), Ok(stderr), b"", false);

    assert_eq!(outcome.kind, BackupOutcomeKind::SucceededWithWarnings);
    assert_eq!(
        outcome.warning_code.as_deref(),
        Some("restic_vss_fallback_and_partial_source")
    );
    assert_eq!(
        *outcome.failure_details.items(),
        [r"C:\Users\Example\locked.txt"]
    );
}

#[test]
fn known_unc_source_and_vss_cleanup_failure_are_never_plain_successes() {
    let unc_outcome = finish_outcome(
        Some(0),
        Ok(parsed("snapshot")),
        Ok(ParsedOutput::new()),
        b"",
        true,
    );
    assert_eq!(unc_outcome.kind, BackupOutcomeKind::SucceededWithWarnings);
    assert_eq!(
        unc_outcome.warning_code.as_deref(),
        Some("restic_vss_fallback")
    );

    let finish = |status: i32, snapshot_id: &str, vss_fallback: bool| {
        finish_outcome(
            Some(status),
            Ok(ParsedOutput {
                vss_fallback,
                vss_cleanup_failed: true,
                ..parsed(snapshot_id)
            }),
            Ok(ParsedOutput::new()),
            b"",
            false,
        )
    };
    let cleanup_outcome = finish(0, "snapshot", false);
    assert_eq!(
        cleanup_outcome.kind,
        BackupOutcomeKind::SucceededWithWarnings
    );
    assert_eq!(
        cleanup_outcome.warning_code.as_deref(),
        Some("restic_vss_cleanup_failed")
    );

    let combined_outcome = finish(0, "combined", true);
    assert_eq!(
        combined_outcome.warning_code.as_deref(),
        Some("restic_vss_fallback_and_cleanup_failed")
    );

    let partial_cleanup_outcome = finish(3, "partial-cleanup", false);
    assert_eq!(
        partial_cleanup_outcome.warning_code.as_deref(),
        Some("restic_partial_source_and_vss_cleanup_failed")
    );

    let fallback_partial_cleanup_outcome = finish(3, "fallback-partial-cleanup", true);
    assert_eq!(
        fallback_partial_cleanup_outcome.warning_code.as_deref(),
        Some("restic_vss_fallback_partial_source_and_cleanup_failed")
    );
}

#[test]
fn unresolved_secret_fails_before_starting_a_process() {
    let mut references = SecretRefs::new();
    references.insert(
        SecretEnvironmentVariable::ResticPassword,
        "missing".to_owned(),
    );
    let secrets = resolve_secrets(&MapSecretResolver(Vec::new()), &references);
    assert_eq!(secrets, Err(SecretResolveError));
    let mut run = ProcessRun::new(None);
    run.advance(stepped(secrets.is_ok()));
    let outcome = finish_invocation(
        ended(run),
        Ok(ParsedOutput::new()),
        Ok(ParsedOutput::new()),
        b"",
        false,
    );

    assert_eq!(
        outcome.kind,
        BackupOutcomeKind::Failed {
            code: "credential_unavailable".to_owned()
        }
    );
}

#[test]
fn dpapi_resolver_returns_a_stored_utf8_secret() {
    assert_eq!(
        environment_value(Some(b"protected-value".to_vec())),
        Ok("protected-value".to_owned())
    );
}

#[test]
fn dpapi_resolver_rejects_non_environment_values() {
    assert!(environment_value(Some(vec![0xff, 0xfe])).is_err());
    assert!(environment_value(Some(b"before\0after".to_vec())).is_err());
    assert!(environment_value(None).is_err());
}

#[test]
fn credentials_are_resolved_all_or_none() {
    let resolver = MapSecretResolver(vec![("a".to_owned(), "one".to_owned())]);
    let mut references = SecretRefs::new();
    references.insert(SecretEnvironmentVariable::Other(3), "a".to_owned());
    references.insert(SecretEnvironmentVariable::ResticPassword, "a".to_owned());
    assert_eq!(
        resolve_secrets(&resolver, &references),
        Ok(vec![
            (SecretEnvironmentVariable::ResticPassword, "one".to_owned()),
            (SecretEnvironmentVariable::Other(3), "one".to_owned()),
        ])
    );
    assert!(resolve_secrets(&UnavailableSecretResolver, &references).is_err());
}

#[test]
fn append_only_repositories_are_never_thinned_out() {
    for operation in [
        ResticOperation::Backup,
        ResticOperation::Probe,
        ResticOperation::Unlock,
        ResticOperation::Snapshots,
        ResticOperation::Check,
    ] {
        assert!(operation.allowed_in(RepositoryMode::AppendOnly));
    }
    for operation in [
        ResticOperation::Initialize,
        ResticOperation::Forget,
        ResticOperation::Prune,
    ] {
        assert!(!operation.allowed_in(RepositoryMode::AppendOnly));
        assert!(operation.allowed_in(RepositoryMode::Standard));
    }
}

#[test]
fn every_end_of_a_process_has_its_code() {
    for (end, code) in [
        (ProcessEnd::WakeLockUnavailable, "wake_lock_unavailable"),
        (ProcessEnd::IsolationFailed, "process_isolation_failed"),
        (ProcessEnd::StartFailed, "restic_start_failed"),
        (ProcessEnd::OutputUnavailable, "restic_output_unavailable"),
        (ProcessEnd::TerminationFailed, "restic_termination_failed"),
        (ProcessEnd::WaitFailed, "restic_wait_failed"),
    ] {
        assert_eq!(
            report_operation(ResticOperation::Check, end, None).kind,
            RepositoryOutcomeKind::Failed {
                code: code.to_owned()
            }
        );
    }
    let exited = ProcessEnd::Exited { status: Some(1) };
    for (operation, code) in [
        (ResticOperation::Probe, "repository_validation_failed"),
        (
            ResticOperation::Initialize,
            "repository_initialization_failed",
        ),
        (ResticOperation::Unlock, "repository_operation_failed"),
    ] {
        assert_eq!(
            report_operation(operation, exited, None).kind,
            RepositoryOutcomeKind::Failed {
                code: code.to_owned()
            }
        );
    }
    assert_eq!(
        report_operation(ResticOperation::Check, exited, Some("restic_repository_locked")).kind,
        RepositoryOutcomeKind::Failed {
            code: "restic_repository_locked".to_owned()
        }
    );
}

#[test]
fn a_failed_backup_is_named_by_its_exit_or_its_diagnostics() {
    let report = |status: Option<i32>, classified: Option<&'static str>| {
        report_backup(
            status,
            Ok(ParsedOutput::new()),
            Ok(ParsedOutput::new()),
            classified,
            false,
        )
        .kind
    };
    let failed = |code: &str| BackupOutcomeKind::Failed {
        code: code.to_owned(),
    };
    assert_eq!(report(Some(1), None), failed("restic_exit_1"));
    assert_eq!(report(Some(-5), None), failed("restic_exit_-5"));
    assert_eq!(
        report(Some(1), Some("restic_permission_denied")),
        failed("restic_permission_denied")
    );
    assert_eq!(report(None, None), failed("restic_terminated"));
}

#[test]
fn a_run_that_failed_to_start_leaves_no_child() {
    let mut run = ProcessRun::new(None);
    run.advance(stepped(true));
    run.advance(stepped(false));
    assert_eq!(ended(run), ProcessEnd::WakeLockUnavailable);
    let mut run = ProcessRun::new(None);
    run.advance(stepped(true));
    run.advance(stepped(true));
    run.advance(ProcessEvent::Cancellation { requested: true });
    assert_eq!(ended(run), ProcessEnd::Cancelled);
    let mut run = polling(None);
    run.advance(ProcessEvent::Polled {
        poll: ChildPoll::Unknown,
        cancelled: false,
        elapsed: 1,
    });
    run.advance(stepped(false));
    assert_eq!(ended(run), ProcessEnd::TerminationFailed);
}

#[test]
fn a_stopped_child_is_waited_for_only_so_long() {
    assert_eq!(termination_result(ChildPoll::Running, 4_999), None);
    assert_eq!(termination_result(ChildPoll::Running, 5_000), Some(false));
    assert_eq!(termination_result(ChildPoll::Unknown, 0), Some(false));
    assert_eq!(
        termination_result(ChildPoll::Exited { status: None }, 9_000),
        Some(true)
    );
}

#[test]
fn sources_are_checked_before_and_after_the_locks_are_removed() {
    let stage = BackupStage::Plan.advance(BackupEvent::Planned { result: Ok(()) });
    assert!(matches!(stage, BackupStage::RemoveStaleLocks));
    let stage = stage.advance(BackupEvent::CleanedUp {
        outcome: RepositoryOutcome::succeeded(),
    });
    assert!(matches!(stage, BackupStage::PlanAgain));
    match stage.advance(BackupEvent::Planned {
        result: Err(InvocationError::ProtectedBackupSource),
    }) {
        BackupStage::Ended { outcome } => assert_eq!(
            outcome.kind,
            BackupOutcomeKind::Failed {
                code: "protected_backup_source".to_owned()
            }
        ),
        _ => panic!("the second check ends the backup"),
    }
    let stage = BackupStage::PlanAgain.advance(BackupEvent::Planned { result: Ok(()) });
    assert!(matches!(stage, BackupStage::Execute));
    let stage = stage.advance(BackupEvent::Executed {
        backup: BackupOutcome::succeeded(summary("done")),
    });
    assert!(matches!(stage, BackupStage::Ended { .. }));
}

#[test]
fn invocation_errors_have_bounded_codes() {
    for (error, code) in [
        (
            InvocationError::UnsupportedNetworkBackupSource,
            "network_backup_source_unsupported",
        ),
        (
            InvocationError::UnsupportedBackupSourceNamespace,
            "backup_source_namespace_unsupported",
        ),
        (
            InvocationError::Invalid {
                message: "private".to_owned(),
            },
            "invalid_configuration",
        ),
    ] {
        assert_eq!(backup_invocation_error_code(&error), code);
    }
}

#[test]
fn retention_prunes_only_where_that_is_due() {
    let forgotten = |prune_due: bool| {
        RetentionRun::new(prune_due)
            .advance(RetentionEvent::Planned { allowed: true })
            .advance(RetentionEvent::Ran {
                outcome: RepositoryOutcome::succeeded(),
            })
    };
    match forgotten(false).stage {
        RetentionStage::Ended { outcome } => assert_eq!(
            outcome.kind,
            RetentionOutcomeKind::Succeeded { pruned: false }
        ),
        _ => panic!("nothing is pruned"),
    }
    let failed = forgotten(true)
        .advance(RetentionEvent::Planned { allowed: true })
        .advance(RetentionEvent::Ran {
            outcome: RepositoryOutcome::failed("repository_operation_failed"),
        });
    match failed.stage {
        RetentionStage::Ended { outcome } => assert_eq!(
            outcome.kind,
            RetentionOutcomeKind::Failed {
                code: "retention_prune_failed".to_owned()
            }
        ),
        _ => panic!("the retention has ended"),
    }
    match RetentionRun::new(true)
        .advance(RetentionEvent::Planned { allowed: false })
        .stage
    {
        RetentionStage::Ended { outcome } => assert_eq!(
            outcome.kind,
            RetentionOutcomeKind::Failed {
                code: "retention_forbidden".to_owned()
            }
        ),
        _ => panic!("the retention has ended"),
    }
}

#[test]
fn operations_become_commands_of_restic() {
    assert_eq!(
        repository_command(RepositoryOperationKind::Validate),
        ResticOperation::Probe
    );
    assert_eq!(
        repository_command(RepositoryOperationKind::Initialize),
        ResticOperation::Initialize
    );
    let forgetting = RetentionRun::new(true);
    assert_eq!(forgetting.command(), Some(ResticOperation::Forget));
    let pruning = forgetting
        .advance(RetentionEvent::Planned { allowed: true })
        .advance(RetentionEvent::Ran {
            outcome: RepositoryOutcome::succeeded(),
        });
    assert_eq!(pruning.command(), Some(ResticOperation::Prune));
    let ended = pruning.advance(RetentionEvent::Planned { allowed: false });
    assert_eq!(ended.command(), None);
    assert_eq!(
        unplanned_operation().kind,
        RepositoryOutcomeKind::Failed {
            code: "invalid_repository_configuration".to_owned()
        }
    );
}

#[test]
fn only_a_run_with_a_snapshot_is_followed_by_retention() {
    assert!(BackupOutcome::succeeded(summary("s")).has_snapshot());
    assert!(BackupOutcome::succeeded(summary("s"))
        .with_warning("restic_partial_source")
        .has_snapshot());
    assert!(!BackupOutcome::failed("restic_exit_1").has_snapshot());
    assert!(!BackupOutcome::cancelled().has_snapshot());
}

#[test]
fn the_cache_directory_is_given_last() {
    let given = vec![("RESTIC_CACHE_DIR".to_owned(), "C:\\Untrusted\\Cache".to_owned())];
    let secrets = vec![("RESTIC_PASSWORD".to_owned(), "test-secret".to_owned())];
    let plan = child_environment(&given, &secrets, "C:\\ProgramData\\ResticPal-Test\\Cache");
    assert_eq!(plan.len(), 10);
    assert_eq!(plan[0], Assignment::Inherit { name: "SystemRoot" });
    assert_eq!(
        plan[5],
        Assignment::Inherit {
            name: "USERPROFILE"
        }
    );
    assert_eq!(
        plan[7],
        Assignment::Give {
            name: "RESTIC_PROGRESS_FPS".to_owned(),
            value: "1".to_owned()
        }
    );
    assert_eq!(
        plan[8],
        Assignment::Give {
            name: "RESTIC_PASSWORD".to_owned(),
            value: "test-secret".to_owned()
        }
    );
    assert_eq!(
        plan[9],
        Assignment::Give {
            name: "RESTIC_CACHE_DIR".to_owned(),
            value: "C:\\ProgramData\\ResticPal-Test\\Cache".to_owned()
        }
    );
}

#[test]
fn the_service_folder_is_excluded_under_both_names() {
    assert_eq!(
        required_exclusions("C:\\Data", Some("\\\\?\\C:\\Data".to_owned())),
        vec!["C:\\Data"]
    );
    assert_eq!(
        required_exclusions("C:/Data/", Some("\\\\?\\C:\\Data".to_owned())),
        vec!["C:/Data/"]
    );
    assert_eq!(
        required_exclusions("C:\\Link", Some("\\\\?\\D:\\Real".to_owned())),
        vec!["C:\\Link", "D:\\Real"]
    );
    assert_eq!(required_exclusions("C:\\Data", None), vec!["C:\\Data"]);
}

#[test]
fn paths_are_compared_by_their_components() {
    assert!(same_path("C:\\a\\b", "c:/a/./b/"));
    assert!(!same_path("C:\\a\\b", "C:\\A\\b"));
    assert!(!same_path("C:a", "C:\\a"));
    assert!(!same_path(".\\a", "a"));
    assert!(same_path("a\\.\\b", "a\\b"));
    assert!(same_path("\\\\s\\t\\a", "//s/t/a"));
    assert!(!same_path("\\\\s\\t\\a", "\\\\s\\u\\a"));
    assert!(!same_path("\\\\?\\C:\\a", "C:\\a"));
    assert!(!same_path("a\\..\\b", "b"));
}

#[test]
fn the_first_defect_of_the_sources_is_reported() {
    let mut mapped = source("Z:\\Data");
    mapped.drive_is_remote = true;
    assert_eq!(source_drive("z:\\Data"), Some('Z'));
    assert_eq!(
        validate_backup_source_paths(&vec![source("C:\\a"), mapped]),
        Err(InvocationError::UnsupportedNetworkBackupSource)
    );
    let mut linked = source("C:\\Link");
    linked.spelled_as_resolved = Some(false);
    assert_eq!(
        validate_backup_source_paths(&vec![linked]),
        Err(InvocationError::UnsupportedBackupSourceNamespace)
    );
    let mut own = source("C:\\ProgramData\\resticpal");
    own.protected = true;
    assert_eq!(
        validate_backup_source_paths(&vec![own]),
        Err(InvocationError::ProtectedBackupSource)
    );
    assert_eq!(validate_backup_source_paths(&vec![source("C:\\a")]), Ok(()));
    assert_eq!(validate_backup_source_paths(&Vec::new()), Ok(()));
}

#[test]
fn a_warning_keeps_the_first_code() {
    let warned = BackupOutcome::warnings(
        summary("s"),
        "restic_partial_source",
        BackupFailureDetails::none(),
    )
    .with_warning("retention_prune_failed");
    assert_eq!(
        warned.warning_code.as_deref(),
        Some("restic_partial_source")
    );
    let warned = BackupOutcome::succeeded(summary("s")).with_warning("retention_prune_failed");
    assert_eq!(warned.kind, BackupOutcomeKind::SucceededWithWarnings);
    assert_eq!(
        warned.warning_code.as_deref(),
        Some("retention_prune_failed")
    );
    let failed = BackupOutcome::failed("restic_exit_1").with_warning("retention_prune_failed");
    assert_eq!(failed.warning_code, None);
}

#[test]
fn a_request_to_stop_is_shared_and_final() {
    let mut requests = CancellationRequests::new();
    let backup = requests.issue();
    let held_by_the_worker = backup.clone();
    let operation = requests.issue();
    assert_ne!(backup, operation);
    assert!(!backup.is_cancelled(&requests));
    assert!(!held_by_the_worker.is_cancelled(&requests));

    backup.cancel(&mut requests);
    assert!(backup.is_cancelled(&requests));
    assert!(held_by_the_worker.is_cancelled(&requests));
    assert!(backup.clone().is_cancelled(&requests));
    assert!(!operation.is_cancelled(&requests));

    held_by_the_worker.cancel(&mut requests);
    let later = requests.issue();
    operation.cancel(&mut requests);
    assert!(backup.is_cancelled(&requests));
    assert!(operation.is_cancelled(&requests));
    assert!(!later.is_cancelled(&requests));
    assert!(!later.is_cancelled(&CancellationRequests::new()));
}

#[test]
fn a_verbatim_drive_may_be_followed_by_either_separator() {
    assert_eq!(source_drive(r"\\?\c:/Data"), Some('C'));
    assert!(!source_is_network_path(r"\\?\C:/Data", false));
    assert!(source_is_network_path(r"\\?\C:/Data", true));
    assert!(!source_uses_unsupported_local_namespace(r"\\?\C:/Data"));
    assert_eq!(ordinary_windows_path(r"\\?\C:/Data"), r"C:\Data");
    assert!(same_path(r"\\?\C:/Data", r"\\?\c:\Data"));

    assert!(source_is_network_path(r"\\?\UNC/server\share\Data", false));
    assert_eq!(
        ordinary_windows_path(r"\\?\UNC/server\share\Data"),
        r"\\server\share\Data"
    );
    assert!(same_path(
        r"\\?\UNC/server\share\Data",
        r"\\?\UNC\server\share\Data"
    ));

    assert!(source_uses_unsupported_local_namespace(r"\\?\C:Data"));
    assert!(source_is_network_path(r"//?/C:/Data", false));
}

#[test]
fn an_ordinary_spelling_follows_each_component() {
    assert_eq!(ordinary_windows_path(r"\\?\C:"), r"C:\");
    assert_eq!(ordinary_windows_path(r"\\?\C:\a\.\\b\..\c"), r"C:\a\b\..\c");
    assert_eq!(ordinary_windows_path(r"\\?\C:\a/b"), r"C:\a/b");
    assert_eq!(ordinary_windows_path(r"\\?\C:\a\/b"), r"C:/b");
    assert_eq!(ordinary_windows_path(r"\\?\C:\a\D:b"), r"D:b");
    assert_eq!(ordinary_windows_path(r"\\?\UNC\server"), r"\\server\");
}

#[test]
fn credentials_come_in_the_order_of_their_variables() {
    let mut references = SecretRefs::new();
    for number in [7, 2, 40_000, 0] {
        references.insert(
            SecretEnvironmentVariable::Other(number),
            format!("reference-{number}"),
        );
    }
    references.insert(SecretEnvironmentVariable::ResticPassword, "password".to_owned());
    assert_eq!(
        references.keys(),
        vec![
            SecretEnvironmentVariable::ResticPassword,
            SecretEnvironmentVariable::Other(0),
            SecretEnvironmentVariable::Other(2),
            SecretEnvironmentVariable::Other(7),
            SecretEnvironmentVariable::Other(40_000),
        ]
    );
    assert_eq!(
        references.insert(SecretEnvironmentVariable::Other(2), "new".to_owned()),
        Some("reference-2".to_owned())
    );
    assert_eq!(
        references.remove(SecretEnvironmentVariable::Other(0)),
        Some("reference-0".to_owned())
    );
    assert_eq!(
        references.entries(),
        vec![
            (SecretEnvironmentVariable::ResticPassword, "password".to_owned()),
            (SecretEnvironmentVariable::Other(2), "new".to_owned()),
            (SecretEnvironmentVariable::Other(7), "reference-7".to_owned()),
            (SecretEnvironmentVariable::Other(40_000), "reference-40000".to_owned()),
        ]
    );
}

use base64::engine::general_purpose::STANDARD;
use base64::Engine;
use resticpal::conditions::SystemConditions;
use resticpal::config::{
    BackupConfig, EffectiveConfig, FieldResolution, LocalBackupConfig, LocalConfig,
    LocalManagementConfig, LocalRepositoryConfig, LocalRestoreConfig, LocalRetentionConfig,
    LocalScheduleConfig, LocalUpdateConfig, ManagementMode, PolicyField, RepositoryConfig,
    RestoreConfig, RetentionConfig, ScheduleConfig, SecretEnvironmentVariable, SecretRefs,
    UpdateConfig, ValueSource,
};
use resticpal::diagnostics::{DiagnosticEntry, DiagnosticLevel, DiagnosticLog};
use resticpal::history::{BackupRunRecord, PreparedRun, StoredRunFailureDetails};
use resticpal::outcome::{
    BackupFailureDetails, BackupOutcome, BackupOutcomeKind, BackupSummary, RepositoryOutcome,
    RepositoryOutcomeKind, RetentionOutcome, RetentionOutcomeKind,
};
use resticpal::paths::is_absolute;
use resticpal::protocol::{
    ClientIdentity, ManagementView, RepositoryOperationKind, RepositoryOperationStatus,
    RepositorySecretUpdate, RepositoryUpdate, RepositoryView, Request, RequestCommand,
    ResponsePayload, RetentionUpdate, RetentionView, ScheduleUpdate, ScheduleView, UpdatePackage,
    UpdateSettingsView,
};
use resticpal::runtime::enrollment::{
    EnrollmentCredential, EnrollmentMaterial, ManagedPolicyApplyOutcome, UnenrollOutcome,
};
use resticpal::runtime::events::{
    BackupTrigger, RetentionPlan, RuntimeEvent, ScheduleAction, UpdateInstallOutcome,
};
use resticpal::runtime::repository::{nonempty_trimmed, OperationRequest, RepositorySave};
use resticpal::runtime::requests::{
    diagnostics_reply, discovery_reply, failure_details_reply, history_reply, RequestStep,
};
use resticpal::runtime::scheduler::{
    repository_requires_network, waiting_reason, ScheduleBlocker, ScheduleDecision,
    SchedulerSnapshot,
};
use resticpal::runtime::settings::ChangeKind;
use resticpal::runtime::state::{
    starting_memory, ResolvedConfig, RuntimeStores, ServiceRuntime, ServiceStateSnapshot,
};
use resticpal::sources::CheckedSource;
use resticpal::status::{
    BackupPhase, BackupProgress, BackupRunOutcome, BackupState, RepositoryMode, ServiceStatus,
    WaitingReason,
};

const USER: ClientIdentity = ClientIdentity {
    is_elevated_administrator: false,
};
const ADMIN: ClientIdentity = ClientIdentity {
    is_elevated_administrator: true,
};
const NOW: i128 = 1_700_000_000_000_000_000;
const SECOND: i128 = 1_000_000_000;
const MINUTE: i128 = 60_000_000_000;
const HOUR: i128 = 3_600_000_000_000;
const DATA_ROOT: &str = r"C:\ProgramData\ResticPal";

fn defaults() -> EffectiveConfig {
    EffectiveConfig {
        backup: BackupConfig {
            paths: Vec::new(),
            exclusions: Vec::new(),
        },
        repository: RepositoryConfig {
            display_name: None,
            url: None,
            mode: RepositoryMode::Standard,
            options: Vec::new(),
            secret_refs: SecretRefs::new(),
        },
        schedule: ScheduleConfig {
            interval_hours: 24,
            wake_grace_seconds: 300,
            wake_lock_timeout_seconds: 3_600,
            allow_on_battery: true,
            allow_metered_network: true,
        },
        retention: RetentionConfig {
            daily: 7,
            weekly: 4,
            monthly: 12,
            yearly: 3,
            prune_interval_days: 7,
        },
        updates: UpdateConfig {
            automatic_install: false,
        },
        restore: RestoreConfig { enabled: true },
    }
}

fn local_defaults() -> LocalConfig {
    LocalConfig {
        backup: LocalBackupConfig {
            paths: None,
            exclusions: None,
        },
        repository: LocalRepositoryConfig {
            display_name: None,
            url: None,
            mode: None,
            options: None,
            secret_refs: None,
        },
        schedule: LocalScheduleConfig {
            interval_hours: None,
            wake_grace_seconds: None,
            wake_lock_timeout_seconds: None,
            allow_on_battery: None,
            allow_metered_network: None,
        },
        retention: LocalRetentionConfig {
            daily: None,
            weekly: None,
            monthly: None,
            yearly: None,
            prune_interval_days: None,
        },
        updates: LocalUpdateConfig {
            automatic_install: None,
        },
        restore: LocalRestoreConfig { enabled: None },
        management: LocalManagementConfig::disabled(),
    }
}

/// A local configuration with one source and a repository.
fn local_backup(paths: Option<&str>, url: Option<&str>) -> LocalConfig {
    let mut local = local_defaults();
    local.backup.paths = paths.map(|path| vec![path.to_owned()]);
    local.backup.exclusions = paths.map(|_| Vec::new());
    local.repository.url = url.map(str::to_owned);
    local
}

/// A policy that the server manages.
#[derive(Default)]
struct Policy {
    revision: Option<&'static str>,
    interval_hours: Option<(u32, bool)>,
    automatic_install: Option<(bool, bool)>,
}

fn managed(locked: bool) -> FieldResolution {
    FieldResolution {
        source: if locked {
            ValueSource::ManagedLocked
        } else {
            ValueSource::ManagedDefault
        },
        locked,
    }
}

/// The defaults, under what the machine says, under what policy says.
fn resolve(local: &LocalConfig, policy: &Policy) -> ResolvedConfig {
    let mut effective = defaults();
    let mut fields = Vec::new();
    let own = local.clone();
    if let Some(paths) = own.backup.paths {
        effective.backup.paths = paths;
    }
    if let Some(exclusions) = own.backup.exclusions {
        effective.backup.exclusions = exclusions;
    }
    effective.repository.display_name = own.repository.display_name;
    effective.repository.url = own.repository.url;
    effective.repository.mode = own.repository.mode.unwrap_or(RepositoryMode::Standard);
    effective.repository.options = own.repository.options.unwrap_or_default();
    if let Some(refs) = own.repository.secret_refs {
        effective.repository.secret_refs = refs;
    }
    let schedule = &mut effective.schedule;
    schedule.interval_hours = own.schedule.interval_hours.unwrap_or(schedule.interval_hours);
    schedule.wake_grace_seconds = own
        .schedule
        .wake_grace_seconds
        .unwrap_or(schedule.wake_grace_seconds);
    schedule.allow_on_battery = own
        .schedule
        .allow_on_battery
        .unwrap_or(schedule.allow_on_battery);
    effective.retention.daily = own.retention.daily.unwrap_or(effective.retention.daily);
    effective.updates.automatic_install = own.updates.automatic_install.unwrap_or(false);
    if let Some((value, locked)) = policy.interval_hours {
        if locked || own.schedule.interval_hours.is_none() {
            effective.schedule.interval_hours = value;
        }
        fields.push((PolicyField::ScheduleIntervalHours, managed(locked)));
    }
    if let Some((value, locked)) = policy.automatic_install {
        if locked || own.updates.automatic_install.is_none() {
            effective.updates.automatic_install = value;
        }
        fields.push((PolicyField::UpdateAutomaticInstall, managed(locked)));
    }
    ResolvedConfig {
        effective,
        managed_revision: policy.revision.map(str::to_owned),
        fields,
    }
}

fn validate(config: &EffectiveConfig) -> Result<(), String> {
    if config.backup.paths.iter().any(|path| !is_absolute(path)) {
        return Err("backup paths must be absolute".to_owned());
    }
    if config.schedule.interval_hours == 0 {
        return Err("the interval must be positive".to_owned());
    }
    let retention = &config.retention;
    if retention.daily + retention.weekly + retention.monthly + retention.yearly == 0 {
        return Err("retention must keep a snapshot".to_owned());
    }
    if config
        .repository
        .options
        .iter()
        .any(|(name, _)| name == "vss.exclude-volumes")
    {
        return Err("backups must use Windows filesystem snapshots".to_owned());
    }
    Ok(())
}

/// When a backup is due, and what stands in its way.
fn decide(snapshot: &SchedulerSnapshot, schedule: &ScheduleConfig) -> ScheduleDecision {
    if snapshot.backup_running {
        return ScheduleDecision::AlreadyRunning;
    }
    let manual = snapshot.manual_requested;
    let interval = i128::from(schedule.interval_hours) * HOUR;
    let due = snapshot
        .last_success
        .map_or(snapshot.now, |last| last + interval);
    let earliest = due.max(snapshot.not_before.unwrap_or(due));
    if !manual && snapshot.now < earliest {
        return ScheduleDecision::Idle {
            next_deadline: earliest,
        };
    }
    let grace_end = snapshot
        .resumed_at
        .map(|at| at + schedule.wake_grace_seconds as i128 * SECOND);
    let mut blockers = Vec::new();
    if !manual && grace_end.is_some_and(|end| snapshot.now < end) {
        blockers.push(ScheduleBlocker::WakeGrace);
    }
    if snapshot.network_required && !snapshot.network_available {
        blockers.push(ScheduleBlocker::NetworkUnavailable);
    }
    if !manual && snapshot.on_battery && !schedule.allow_on_battery {
        blockers.push(ScheduleBlocker::BatteryDisallowed);
    }
    if !manual && snapshot.metered_network && !schedule.allow_metered_network {
        blockers.push(ScheduleBlocker::MeteredNetworkDisallowed);
    }
    if !blockers.is_empty() {
        return ScheduleDecision::Waiting {
            blockers,
            retry_at: grace_end,
        };
    }
    ScheduleDecision::Start {
        trigger: if manual {
            BackupTrigger::Manual
        } else if snapshot.resumed_at.is_some() {
            BackupTrigger::ResumeCatchUp
        } else {
            BackupTrigger::Scheduled
        },
    }
}

/// A service and the machine around it.
struct Machine {
    runtime: ServiceRuntime,
    events: Vec<RuntimeEvent>,
    secrets: Vec<(String, Vec<u8>)>,
    next_secret: u32,
    saved: Option<LocalConfig>,
    runs: Vec<(BackupRunRecord, StoredRunFailureDetails)>,
    log: Vec<DiagnosticEntry>,
}

impl Machine {
    fn around(runtime: ServiceRuntime) -> Machine {
        Machine {
            runtime,
            events: Vec::new(),
            secrets: Vec::new(),
            next_secret: 1,
            saved: None,
            runs: Vec::new(),
            log: Vec::new(),
        }
    }

    /// A service without files.
    fn new(configured: bool) -> Machine {
        let mut effective = defaults();
        if configured {
            effective.backup.paths = vec![r"C:\Users\Example\Documents".to_owned()];
            effective.repository.url = Some("local:C:/backup".to_owned());
        }
        let resolved = ResolvedConfig {
            effective,
            managed_revision: None,
            fields: Vec::new(),
        };
        Machine::around(ServiceRuntime::from_resolved(
            resolved,
            local_defaults(),
            NOW,
        ))
    }

    /// A service that starts with a configuration file and what it remembers.
    fn load(
        local: LocalConfig,
        policy: &Policy,
        memory: Option<ServiceStateSnapshot>,
        credentials: bool,
    ) -> Machine {
        let (state, diagnostic) = starting_memory(Some(memory.unwrap_or(ServiceStateSnapshot::new())));
        assert!(diagnostic.is_none());
        let resolved = resolve(&local, policy);
        let stores = RuntimeStores::next_to_config(r"C:\ProgramData\ResticPal\config.toml", credentials);
        let saved = Some(local.clone());
        let mut machine = Machine::around(ServiceRuntime::from_resolved_with_state(
            resolved, local, state, stores, NOW,
        ));
        machine.saved = saved;
        machine
    }

    fn store_secret(&mut self, value: &[u8]) -> String {
        let reference = format!("reference-{}", self.next_secret);
        self.next_secret += 1;
        self.secrets.push((reference.clone(), value.to_vec()));
        reference
    }

    fn secret(&self, reference: &str) -> Option<&[u8]> {
        self.secrets
            .iter()
            .find(|(name, _)| name == reference)
            .map(|(_, value)| value.as_slice())
    }

    fn remove_secrets(&mut self, references: &[String]) {
        self.secrets.retain(|(name, _)| !references.contains(name));
    }

    fn checked(paths: &[String]) -> Vec<CheckedSource> {
        paths
            .iter()
            .map(|path| CheckedSource {
                path: path.clone(),
                drive_is_remote: false,
                spelled_as_resolved: None,
                protected: path.starts_with(DATA_ROOT),
            })
            .collect()
    }

    fn handle(&mut self, id: u64, command: RequestCommand, identity: ClientIdentity) -> ResponsePayload {
        self.handle_at(id, command, identity, NOW)
    }

    fn handle_at(
        &mut self,
        id: u64,
        command: RequestCommand,
        identity: ClientIdentity,
        now: i128,
    ) -> ResponsePayload {
        let (answered, step) = self
            .runtime
            .handle_request(Request::new(id, command), identity, now);
        assert_eq!(answered, id);
        match step {
            RequestStep::Reply { payload } => payload,
            RequestStep::Deliver { event, message } => {
                self.events.push(event);
                ResponsePayload::Accepted { message }
            }
            RequestStep::ReadHistory { limit } => {
                let runs = self
                    .runs
                    .iter()
                    .rev()
                    .take(limit)
                    .map(|(run, _)| BackupRunRecord {
                        error_code: run.error_code.clone(),
                        snapshot_id: run.snapshot_id.clone(),
                        ..*run
                    })
                    .collect();
                history_reply(Some(runs))
            }
            RequestStep::ReadFailureDetails { run_id } => {
                let details = self
                    .runs
                    .iter()
                    .find(|(run, _)| run.id == run_id)
                    .map(|(_, details)| StoredRunFailureDetails {
                        items: details.items.clone(),
                        omitted: details.omitted,
                    });
                failure_details_reply(run_id, Ok(details))
            }
            RequestStep::ReadDiagnostics { limit } => {
                let entries = std::mem::take(&mut self.log);
                diagnostics_reply(Some(DiagnosticLog::recent(entries, limit)))
            }
            RequestStep::DiscoverSources => discovery_reply(Some(Vec::new())),
            RequestStep::Enroll { .. } => self.runtime.finish_enroll(false),
            RequestStep::Unenroll { local } => {
                let resolved = resolve(&local, &Policy::default());
                self.saved = Some(local.clone());
                let (payload, reply) =
                    self.runtime
                        .commit_unenroll(local, UnenrollOutcome::Saved { resolved }, now);
                self.remove_secrets(&reply.remove);
                self.events.extend(reply.event);
                payload
            }
            RequestStep::Change { change } => {
                let validation = validate(&change.effective);
                let refused = match change.kind {
                    ChangeKind::Sources => self.runtime.admit_sources(
                        &change,
                        &Machine::checked(&change.effective.backup.paths),
                        validation,
                    ),
                    ChangeKind::Schedule | ChangeKind::Retention => {
                        self.runtime.admit_change(&change, validation)
                    }
                    ChangeKind::Updates { .. } | ChangeKind::Restore { .. } => None,
                };
                if let Some(refused) = refused {
                    return refused;
                }
                let local = change.local.clone();
                let reply = self.runtime.commit_change(change, true, now);
                self.saved = Some(local);
                self.events.extend(reply.event);
                reply.payload
            }
            RequestStep::ChangeRepository { change } => {
                let mut change = change;
                if let Some(refused) = self.runtime.admit_repository(validate(&change.effective)) {
                    return refused;
                }
                while change.applied < change.secret_updates.len() {
                    let value = match &change.secret_updates[change.applied] {
                        RepositorySecretUpdate::Store { value, .. } => Some(value.clone()),
                        RepositorySecretUpdate::Remove { .. } => None,
                    };
                    let stored = value.map(|value| self.store_secret(&value));
                    assert!(change.apply_secret(stored));
                }
                let save = match validate(&change.effective) {
                    Ok(()) => RepositorySave::Saved,
                    Err(reason) => RepositorySave::Invalid { reason },
                };
                let local = change.local.clone();
                let saves = matches!(save, RepositorySave::Saved);
                let reply = self.runtime.commit_repository(change, save, now);
                self.remove_secrets(&reply.remove);
                self.events.extend(reply.event);
                if saves {
                    self.saved = Some(local);
                }
                reply.payload
            }
            RequestStep::RunOperation { operation } => {
                self.events
                    .push(RuntimeEvent::RepositoryOperationRequested(operation));
                self.runtime.repository_operation_requested(
                    operation,
                    OperationRequest::Delivered,
                    now,
                )
            }
        }
    }

    fn evaluate(&mut self, now: i128, conditions: SystemConditions) -> ScheduleAction {
        match self.runtime.evaluate_schedule(now, conditions) {
            Some(snapshot) => {
                let decision = decide(&snapshot, &self.runtime.config.schedule);
                self.runtime.apply_schedule_decision(now, decision)
            }
            None => ScheduleAction::Nothing,
        }
    }

    fn finish_backup(&mut self, now: i128, outcome: &BackupOutcome) {
        let finished = self.runtime.finish_backup_at(now, outcome);
        if let Some(run) = finished.run {
            let prepared = PreparedRun::prepare(run);
            let id = self.runs.len() as i64 + 1;
            let record = prepared.record(id).expect("stored run");
            self.runs.push((record, prepared.failure_details));
        }
        self.log.push(DiagnosticLog::entry(
            now,
            finished.diagnostic.level,
            finished.diagnostic.event_id,
            finished.diagnostic.message,
            finished.diagnostic.code.as_deref(),
        ));
    }

    fn finish_operation(&mut self, operation: RepositoryOperationKind, outcome: &RepositoryOutcome) {
        let save = self.runtime.verify_repository(operation, outcome, NOW);
        assert_eq!(save, self.runtime.stores.state.is_some());
        self.runtime
            .finish_repository_operation(operation, outcome, true, NOW);
    }

    fn event(&mut self) -> RuntimeEvent {
        self.events.remove(0)
    }

    fn status(&self) -> ServiceStatus {
        self.runtime.status()
    }

    fn lock(&mut self, field: PolicyField) {
        self.runtime.field_resolutions.push((field, managed(true)));
    }
}

fn available_conditions() -> SystemConditions {
    SystemConditions {
        network_available: true,
        on_battery: false,
        metered_network: false,
    }
}

fn rejected(payload: &ResponsePayload, expected: &str) -> bool {
    matches!(payload, ResponsePayload::Rejected { code, .. } if code == expected)
}

fn is_accepted(payload: &ResponsePayload) -> bool {
    matches!(payload, ResponsePayload::Accepted { .. })
}

fn update_package() -> UpdatePackage {
    let version = "99.0.0";
    UpdatePackage {
        version: version.to_owned(),
        url: format!(
            "https://github.com/theatrus/resticpal/releases/download/v{version}/resticpal-{version}-x64.msi"
        ),
        signature: STANDARD.encode([0_u8; 64]),
        length: 83_329_024,
    }
}

fn no_repository_update() -> RepositoryUpdate {
    RepositoryUpdate {
        display_name: None,
        url: None,
        mode: None,
        options: None,
        secret_updates: Vec::new(),
    }
}

fn no_schedule_update() -> ScheduleUpdate {
    ScheduleUpdate {
        interval_hours: None,
        wake_grace_seconds: None,
        wake_lock_timeout_seconds: None,
        allow_on_battery: None,
        allow_metered_network: None,
    }
}

fn no_retention_update() -> RetentionUpdate {
    RetentionUpdate {
        daily: None,
        weekly: None,
        monthly: None,
        yearly: None,
        prune_interval_days: None,
    }
}

fn update_sources(path: &str) -> RequestCommand {
    RequestCommand::UpdateBackupSources {
        paths: Some(vec![path.to_owned()]),
        exclusions: None,
    }
}

fn summary(snapshot_id: &str) -> BackupSummary {
    BackupSummary {
        files_processed: 10,
        bytes_processed: 1_000,
        data_added: 200,
        snapshot_id: Some(snapshot_id.to_owned()),
    }
}

fn check_unconfigured_status() {
    let mut machine = Machine::new(false);
    assert!(matches!(
        machine.handle(1, RequestCommand::GetStatus, USER),
        ResponsePayload::Status {
            status: ServiceStatus {
                state: BackupState::Unconfigured,
                ..
            }
        }
    ));
}

#[test]
fn runtime_status_reports_an_unconfigured_service() {
    check_unconfigured_status();
}

#[test]
fn tests_status_reports_an_unconfigured_service() {
    check_unconfigured_status();
}

#[test]
fn management_state_and_enrollment_require_an_elevated_administrator() {
    let mut machine = Machine::new(false);
    assert!(rejected(
        &machine.handle(60, RequestCommand::GetManagement, USER),
        "administrator_required"
    ));
    assert!(matches!(
        machine.handle(61, RequestCommand::GetManagement, ADMIN),
        ResponsePayload::Management {
            configuration: ManagementView {
                mode: ManagementMode::Disabled,
                enrolled: false,
                ..
            }
        }
    ));
    assert!(rejected(
        &machine.handle(
            62,
            RequestCommand::Enroll {
                bootstrap_url: b"https://example.invalid/#token=secret".to_vec(),
            },
            USER,
        ),
        "administrator_required"
    ));
}

fn check_run_now() {
    let mut machine = Machine::new(true);
    let response = machine.handle(2, RequestCommand::RunBackupNow, USER);

    assert!(is_accepted(&response));
    assert!(matches!(machine.event(), RuntimeEvent::RunNow));
    assert_eq!(
        machine.evaluate(NOW, available_conditions()),
        ScheduleAction::Start {
            trigger: BackupTrigger::Manual
        }
    );
    assert!(matches!(
        machine.status().state,
        BackupState::Running {
            phase: BackupPhase::PreparingSnapshot
        }
    ));
}

#[test]
fn runtime_run_now_queues_a_scheduler_evaluation_that_starts_the_executor() {
    check_run_now();
}

#[test]
fn tests_run_now_queues_a_scheduler_evaluation_that_starts_the_executor() {
    check_run_now();
}

fn check_run_now_without_configuration() {
    let mut machine = Machine::new(false);
    assert!(rejected(
        &machine.handle(3, RequestCommand::RunBackupNow, USER),
        "not_configured"
    ));
}

#[test]
fn runtime_run_now_is_rejected_until_configuration_is_complete() {
    check_run_now_without_configuration();
}

#[test]
fn tests_run_now_is_rejected_until_configuration_is_complete() {
    check_run_now_without_configuration();
}

#[test]
fn deferral_requires_a_configured_and_verified_repository() {
    let mut unconfigured = Machine::new(false);
    assert!(rejected(
        &unconfigured.handle(30, RequestCommand::DeferBackup { minutes: 30 }, USER),
        "not_configured"
    ));

    let mut unverified = Machine::load(
        local_backup(Some(r"C:\Data"), Some("local:C:/backup")),
        &Policy::default(),
        None,
        false,
    );
    assert!(rejected(
        &unverified.handle(31, RequestCommand::DeferBackup { minutes: 30 }, USER),
        "repository_not_ready"
    ));
}

fn check_deferral() {
    let mut machine = Machine::new(true);
    let before = NOW;
    let response = machine.handle(4, RequestCommand::DeferBackup { minutes: 30 }, USER);

    assert!(is_accepted(&response));
    assert!(matches!(machine.event(), RuntimeEvent::Deferred));
    let deadline = machine
        .status()
        .next_deadline
        .expect("deferral sets a deadline");
    assert!(deadline >= before + 30 * MINUTE);
}

#[test]
fn runtime_deferral_updates_the_reported_deadline() {
    check_deferral();
}

#[test]
fn tests_deferral_updates_the_reported_deadline() {
    check_deferral();
}

#[test]
fn update_preparation_is_admin_only_bounded_and_blocks_new_backup_work() {
    let mut machine = Machine::new(true);

    assert!(rejected(
        &machine.handle(46, RequestCommand::PrepareForUpdate { hold_seconds: 900 }, USER),
        "administrator_required"
    ));
    assert!(rejected(
        &machine.handle(47, RequestCommand::PrepareForUpdate { hold_seconds: 59 }, ADMIN),
        "invalid_update_hold"
    ));
    assert!(is_accepted(&machine.handle(
        48,
        RequestCommand::PrepareForUpdate { hold_seconds: 60 },
        ADMIN
    )));
    assert!(matches!(
        machine.status().state,
        BackupState::Waiting {
            reason: WaitingReason::Update
        }
    ));

    assert!(rejected(
        &machine.handle(
            481,
            RequestCommand::UpdateUpdateSettings {
                automatic_install: true,
            },
            ADMIN,
        ),
        "update_pending"
    ));
    assert!(rejected(
        &machine.handle(
            482,
            RequestCommand::InstallUpdate {
                package: update_package(),
            },
            USER,
        ),
        "automatic_updates_disabled"
    ));

    assert!(rejected(
        &machine.handle(49, RequestCommand::RunBackupNow, USER),
        "update_pending"
    ));
    assert_eq!(
        machine.evaluate(NOW, available_conditions()),
        ScheduleAction::Nothing
    );

    let deadline = machine.status().next_deadline.expect("update deadline");
    assert!(matches!(
        machine.evaluate(deadline + SECOND, available_conditions()),
        ScheduleAction::Start { .. }
    ));
}

#[test]
fn update_preparation_rejects_an_active_backup() {
    let mut machine = Machine::new(true);
    machine.runtime.state.status.state = BackupState::Running {
        phase: BackupPhase::Uploading,
    };

    assert!(rejected(
        &machine.handle(50, RequestCommand::PrepareForUpdate { hold_seconds: 900 }, ADMIN),
        "backup_running"
    ));
}

#[test]
fn expired_update_preparation_restores_an_unconfigured_status() {
    let mut machine = Machine::new(false);
    assert!(is_accepted(&machine.handle(
        51,
        RequestCommand::PrepareForUpdate { hold_seconds: 60 },
        ADMIN
    )));

    machine.runtime.state.update_hold_until = Some(NOW - SECOND);
    assert!(is_accepted(&machine.handle(
        511,
        RequestCommand::PrepareForUpdate { hold_seconds: 60 },
        ADMIN
    )));

    let deadline = machine.status().next_deadline.expect("update deadline");
    assert_eq!(
        machine.evaluate(deadline + SECOND, available_conditions()),
        ScheduleAction::Nothing
    );
    let status = machine.status();
    assert!(matches!(status.state, BackupState::Unconfigured));
    assert_eq!(status.next_deadline, None);
}

#[test]
fn automatic_update_setting_is_admin_controlled_and_authorizes_the_tray() {
    let mut machine = Machine::new(false);
    let install = || RequestCommand::InstallUpdate {
        package: update_package(),
    };
    let set = |automatic_install| RequestCommand::UpdateUpdateSettings { automatic_install };

    assert!(rejected(
        &machine.handle(52, install(), USER),
        "automatic_updates_disabled"
    ));
    assert!(rejected(
        &machine.handle(521, install(), ADMIN),
        "automatic_updates_disabled"
    ));
    assert!(rejected(
        &machine.handle(53, set(true), USER),
        "administrator_required"
    ));
    assert!(is_accepted(&machine.handle(54, set(true), ADMIN)));
    machine.events.clear();
    assert!(matches!(
        machine.handle(55, RequestCommand::GetUpdateSettings, USER),
        ResponsePayload::UpdateSettings {
            configuration: UpdateSettingsView {
                automatic_install: true,
                automatic_install_locked: false,
            }
        }
    ));
    assert!(rejected(
        &machine.handle(551, RequestCommand::PrepareForUpdate { hold_seconds: 900 }, ADMIN),
        "automatic_updates_enabled"
    ));

    assert!(is_accepted(&machine.handle(56, install(), USER)));
    assert!(matches!(
        machine.event(),
        RuntimeEvent::UpdateInstallRequested(package) if package == update_package()
    ));
    assert!(matches!(
        machine.status().state,
        BackupState::Waiting {
            reason: WaitingReason::Update
        }
    ));

    assert!(rejected(
        &machine.handle(561, set(false), ADMIN),
        "update_pending"
    ));
    assert!(rejected(
        &machine.handle(562, RequestCommand::PrepareForUpdate { hold_seconds: 900 }, ADMIN),
        "automatic_updates_enabled"
    ));

    machine.runtime.finish_update_install(
        &UpdateInstallOutcome::Failed {
            code: "test_update_failed",
        },
        NOW,
    );
    assert!(matches!(machine.status().state, BackupState::Unconfigured));
}

#[test]
fn indeterminate_installer_keeps_backups_and_new_updates_paused() {
    let mut machine = Machine::new(true);
    assert!(is_accepted(&machine.handle(
        563,
        RequestCommand::UpdateUpdateSettings {
            automatic_install: true,
        },
        ADMIN,
    )));
    machine.events.clear();
    let install = || RequestCommand::InstallUpdate {
        package: update_package(),
    };
    assert!(is_accepted(&machine.handle(564, install(), USER)));
    assert!(matches!(
        machine.event(),
        RuntimeEvent::UpdateInstallRequested(package) if package == update_package()
    ));

    machine.runtime.finish_update_install(
        &UpdateInstallOutcome::Indeterminate {
            code: "update_installer_indeterminate",
        },
        NOW,
    );
    machine.runtime.state.update_hold_until = Some(NOW - SECOND);
    machine.runtime.config.repository.secret_refs.insert(
        SecretEnvironmentVariable::ResticPassword,
        "resticpal/repository/restic_password".to_owned(),
    );

    assert!(machine.runtime.state.update_install_active);
    assert_eq!(
        machine.evaluate(NOW, available_conditions()),
        ScheduleAction::Nothing
    );
    assert!(matches!(
        machine.status().state,
        BackupState::Waiting {
            reason: WaitingReason::Update
        }
    ));
    assert!(rejected(
        &machine.handle(565, RequestCommand::RunBackupNow, USER),
        "update_pending"
    ));
    assert!(rejected(
        &machine.handle(566, RequestCommand::ValidateRepository, ADMIN),
        "update_pending"
    ));
    assert!(rejected(
        &machine.handle(
            567,
            RequestCommand::Enroll {
                bootstrap_url: b"https://example.invalid/#token=not-consumed".to_vec(),
            },
            ADMIN,
        ),
        "operation_running"
    ));
    assert!(rejected(
        &machine.handle(568, install(), USER),
        "update_already_running"
    ));
}

#[test]
fn automatic_update_setting_persists_an_explicit_local_override() {
    let mut machine = Machine::load(local_defaults(), &Policy::default(), None, false);

    assert!(is_accepted(&machine.handle(
        57,
        RequestCommand::UpdateUpdateSettings {
            automatic_install: true,
        },
        ADMIN,
    )));
    assert!(machine.runtime.config().updates.automatic_install);

    let persisted = machine.saved.expect("persisted config");
    assert_eq!(persisted.updates.automatic_install, Some(true));

    let mut restarted = Machine::load(persisted, &Policy::default(), None, false);
    assert!(matches!(
        restarted.handle(58, RequestCommand::GetUpdateSettings, USER),
        ResponsePayload::UpdateSettings {
            configuration: UpdateSettingsView {
                automatic_install: true,
                automatic_install_locked: false,
            }
        }
    ));
}

#[test]
fn locked_managed_update_policy_is_reported_enforced_and_authorizes_the_tray() {
    let policy = Policy {
        revision: Some("managed-automatic-updates"),
        automatic_install: Some((true, true)),
        ..Policy::default()
    };
    let mut machine = Machine::load(local_defaults(), &policy, None, false);

    assert!(matches!(
        machine.handle(59, RequestCommand::GetUpdateSettings, USER),
        ResponsePayload::UpdateSettings {
            configuration: UpdateSettingsView {
                automatic_install: true,
                automatic_install_locked: true,
            }
        }
    ));
    assert!(rejected(
        &machine.handle(
            60,
            RequestCommand::UpdateUpdateSettings {
                automatic_install: false,
            },
            ADMIN,
        ),
        "managed_field_locked"
    ));
    assert_eq!(
        machine
            .saved
            .as_ref()
            .expect("unchanged local config")
            .updates
            .automatic_install,
        None
    );

    assert!(is_accepted(&machine.handle(
        61,
        RequestCommand::InstallUpdate {
            package: update_package(),
        },
        USER,
    )));
    assert!(matches!(
        machine.event(),
        RuntimeEvent::UpdateInstallRequested(package) if package == update_package()
    ));
}

#[test]
fn locked_managed_update_disablement_overrides_local_opt_in_for_every_caller() {
    let mut local = local_defaults();
    local.updates.automatic_install = Some(true);
    let policy = Policy {
        revision: Some("managed-disable-automatic-updates"),
        automatic_install: Some((false, true)),
        ..Policy::default()
    };
    let mut machine = Machine::load(local, &policy, None, false);
    assert!(matches!(
        machine.handle(62, RequestCommand::GetUpdateSettings, USER),
        ResponsePayload::UpdateSettings {
            configuration: UpdateSettingsView {
                automatic_install: false,
                automatic_install_locked: true,
            }
        }
    ));

    for identity in [USER, ADMIN] {
        assert!(rejected(
            &machine.handle(
                63,
                RequestCommand::InstallUpdate {
                    package: update_package(),
                },
                identity,
            ),
            "automatic_updates_disabled"
        ));
    }
    assert_eq!(
        machine
            .saved
            .expect("local override remains persisted")
            .updates
            .automatic_install,
        Some(true)
    );
}

#[test]
fn unrelated_configuration_saves_preserve_local_and_managed_update_state() {
    let mut local = local_defaults();
    local.updates.automatic_install = Some(true);
    let policy = Policy {
        revision: Some("managed-update-state-preservation"),
        automatic_install: Some((false, true)),
        ..Policy::default()
    };
    let mut machine = Machine::load(local, &policy, None, false);

    let unrelated_updates = vec![
        update_sources(r"C:\Data"),
        RequestCommand::UpdateSchedule {
            update: ScheduleUpdate {
                interval_hours: Some(12),
                ..no_schedule_update()
            },
        },
        RequestCommand::UpdateRetention {
            update: RetentionUpdate {
                daily: Some(14),
                ..no_retention_update()
            },
        },
        RequestCommand::UpdateRepository {
            update: RepositoryUpdate {
                display_name: Some("Preservation test".to_owned()),
                ..no_repository_update()
            },
        },
    ];

    for (index, command) in unrelated_updates.into_iter().enumerate() {
        let response = machine.handle(70 + index as u64, command, ADMIN);
        assert!(
            is_accepted(&response),
            "unrelated configuration save {index} was rejected: {response:?}"
        );
        assert!(!machine.runtime.config().updates.automatic_install);
        assert_eq!(
            machine.runtime.local_config.updates.automatic_install,
            Some(true)
        );
        assert!(machine
            .runtime
            .field_locked(PolicyField::UpdateAutomaticInstall));
    }

    let persisted = machine.saved.expect("persisted config");
    assert_eq!(persisted.updates.automatic_install, Some(true));
}

#[test]
fn configuration_mutations_wait_for_an_active_update() {
    let mut machine = Machine::new(true);
    assert!(is_accepted(&machine.handle(
        80,
        RequestCommand::UpdateUpdateSettings {
            automatic_install: true,
        },
        ADMIN,
    )));
    machine.events.clear();
    assert!(is_accepted(&machine.handle(
        81,
        RequestCommand::InstallUpdate {
            package: update_package(),
        },
        USER,
    )));
    assert!(matches!(
        machine.event(),
        RuntimeEvent::UpdateInstallRequested(package) if package == update_package()
    ));

    let mutations = vec![
        update_sources(r"C:\Blocked"),
        RequestCommand::UpdateSchedule {
            update: ScheduleUpdate {
                interval_hours: Some(7),
                ..no_schedule_update()
            },
        },
        RequestCommand::UpdateRetention {
            update: RetentionUpdate {
                daily: Some(13),
                ..no_retention_update()
            },
        },
        RequestCommand::UpdateRepository {
            update: RepositoryUpdate {
                display_name: Some("Blocked during update".to_owned()),
                ..no_repository_update()
            },
        },
    ];
    for (index, command) in mutations.into_iter().enumerate() {
        let response = machine.handle(82 + index as u64, command, ADMIN);
        assert!(
            rejected(&response, "update_pending"),
            "configuration mutation {index} was not held: {response:?}"
        );
    }
    let config = machine.runtime.config();
    assert_ne!(config.backup.paths, vec![r"C:\Blocked"]);
    assert_ne!(config.schedule.interval_hours, 7);
    assert_ne!(config.retention.daily, 13);
    assert_ne!(
        config.repository.display_name.as_deref(),
        Some("Blocked during update")
    );
}

fn check_progress_and_success() {
    let mut machine = Machine::new(true);
    assert!(is_accepted(&machine.handle(
        7,
        RequestCommand::RunBackupNow,
        USER
    )));
    assert!(matches!(machine.event(), RuntimeEvent::RunNow));
    assert!(matches!(
        machine.evaluate(NOW, available_conditions()),
        ScheduleAction::Start { .. }
    ));

    machine.runtime.update_progress(BackupProgress {
        percent_done: Some(50),
        files_done: 5,
        total_files: Some(10),
        bytes_done: 500,
        total_bytes: Some(1_000),
        error_count: 0,
    });
    assert!(matches!(
        machine.status(),
        ServiceStatus {
            state: BackupState::Running {
                phase: BackupPhase::Uploading
            },
            progress: Some(BackupProgress {
                percent_done: Some(50),
                ..
            }),
            ..
        }
    ));

    let before = NOW;
    let interval_hours = machine.runtime.config().schedule.interval_hours;
    machine.finish_backup(NOW, &BackupOutcome::succeeded(summary("snapshot")));
    let status = machine.status();
    assert_eq!(status.state, BackupState::Succeeded);
    assert!(status.last_success.is_some_and(|value| value >= before));
    assert!(status
        .next_deadline
        .is_some_and(|value| value >= before + i128::from(interval_hours) * HOUR));
    assert_eq!(status.progress, None);
}

#[test]
fn runtime_progress_and_success_update_the_canonical_status() {
    check_progress_and_success();
}

#[test]
fn tests_progress_and_success_update_the_canonical_status() {
    check_progress_and_success();
}

fn check_cancellation() {
    let mut machine = Machine::new(true);
    assert!(rejected(
        &machine.handle(8, RequestCommand::CancelBackup, USER),
        "not_running"
    ));

    let _ = machine.handle(9, RequestCommand::RunBackupNow, USER);
    assert!(matches!(machine.event(), RuntimeEvent::RunNow));
    assert!(matches!(
        machine.evaluate(NOW, available_conditions()),
        ScheduleAction::Start { .. }
    ));
    assert!(is_accepted(&machine.handle(
        10,
        RequestCommand::CancelBackup,
        USER
    )));
    assert!(matches!(machine.event(), RuntimeEvent::Cancel));
}

#[test]
fn runtime_cancellation_request_is_forwarded_only_while_running() {
    check_cancellation();
}

#[test]
fn tests_cancellation_request_is_forwarded_only_while_running() {
    check_cancellation();
}

fn check_overdue_startup() {
    let mut machine = Machine::new(true);
    assert_eq!(
        machine.evaluate(NOW, available_conditions()),
        ScheduleAction::Start {
            trigger: BackupTrigger::Scheduled
        }
    );
}

#[test]
fn runtime_overdue_startup_runs_without_a_manual_request() {
    check_overdue_startup();
}

#[test]
fn tests_overdue_startup_runs_without_a_manual_request() {
    check_overdue_startup();
}

fn check_resume() {
    let mut machine = Machine::new(true);
    let resumed_at = NOW;
    machine.runtime.record_resume(resumed_at);

    assert_eq!(
        machine.evaluate(resumed_at, available_conditions()),
        ScheduleAction::Nothing
    );
    assert!(matches!(
        machine.status().state,
        BackupState::Waiting {
            reason: WaitingReason::WakeGrace
        }
    ));
    assert_eq!(
        machine.evaluate(resumed_at + 300 * SECOND, available_conditions()),
        ScheduleAction::Start {
            trigger: BackupTrigger::ResumeCatchUp
        }
    );
}

#[test]
fn runtime_resume_catch_up_waits_for_the_configured_grace_period() {
    check_resume();
}

#[test]
fn tests_resume_catch_up_waits_for_the_configured_grace_period() {
    check_resume();
}

fn on_battery() -> SystemConditions {
    SystemConditions {
        on_battery: true,
        ..available_conditions()
    }
}

fn check_battery() {
    let mut machine = Machine::new(true);
    machine.runtime.config.schedule.allow_on_battery = false;

    assert_eq!(machine.evaluate(NOW, on_battery()), ScheduleAction::Nothing);
    assert!(matches!(
        machine.status().state,
        BackupState::Waiting {
            reason: WaitingReason::Battery
        }
    ));
    assert!(matches!(
        machine.evaluate(NOW, available_conditions()),
        ScheduleAction::Start { .. }
    ));
}

#[test]
fn runtime_battery_policy_blocks_until_power_conditions_change() {
    check_battery();
}

#[test]
fn tests_battery_policy_blocks_until_power_conditions_change() {
    check_battery();
}

#[test]
fn manual_backup_runs_on_battery_when_unattended_backups_are_disallowed() {
    let mut machine = Machine::new(true);
    machine.runtime.config.schedule.allow_on_battery = false;

    assert_eq!(machine.evaluate(NOW, on_battery()), ScheduleAction::Nothing);
    assert!(matches!(
        machine.status().state,
        BackupState::Waiting {
            reason: WaitingReason::Battery
        }
    ));

    assert!(is_accepted(&machine.handle(
        63,
        RequestCommand::RunBackupNow,
        USER
    )));
    assert!(matches!(machine.event(), RuntimeEvent::RunNow));
    assert_eq!(
        machine.evaluate(NOW, on_battery()),
        ScheduleAction::Start {
            trigger: BackupTrigger::Manual
        }
    );
}

fn check_retry_delays() {
    let mut machine = Machine::new(true);
    let now = NOW;
    let failed = || BackupOutcome::failed("repository_unreachable");
    assert!(matches!(
        machine.evaluate(now, available_conditions()),
        ScheduleAction::Start { .. }
    ));
    machine.finish_backup(now, &failed());

    assert_eq!(machine.status().next_deadline, Some(now + 5 * MINUTE));
    assert_eq!(
        machine.evaluate(now, available_conditions()),
        ScheduleAction::Nothing
    );
    assert!(matches!(machine.status().state, BackupState::Failed { .. }));

    assert!(matches!(
        machine.evaluate(now + 5 * MINUTE, available_conditions()),
        ScheduleAction::Start { .. }
    ));
    machine.finish_backup(now + 5 * MINUTE, &failed());
    assert_eq!(machine.status().next_deadline, Some(now + 15 * MINUTE));

    for _ in 0..10 {
        machine.finish_backup(now, &failed());
    }
    assert_eq!(machine.status().next_deadline, Some(now + 320 * MINUTE));
}

#[test]
fn runtime_failed_backups_use_bounded_exponential_retry_delays() {
    check_retry_delays();
}

#[test]
fn tests_failed_backups_use_bounded_exponential_retry_delays() {
    check_retry_delays();
}

#[test]
fn runtime_repository_network_detection_distinguishes_local_and_remote_targets() {
    assert!(!repository_requires_network(r"C:\Backups\restic"));
    assert!(!repository_requires_network("local:C:/Backups/restic"));
    assert!(repository_requires_network(r"\\server\share\restic"));
    assert!(repository_requires_network("s3:s3.example.test/bucket"));
    assert!(repository_requires_network(
        "sftp:user@example.test:/backup"
    ));
}

#[test]
fn tests_repository_network_detection_distinguishes_local_and_remote_targets() {
    assert!(!repository_requires_network(r"C:\Backups\restic"));
    assert!(!repository_requires_network("local:C:/Backups/restic"));
    assert!(repository_requires_network(r"\\server\share\restic"));
    assert!(repository_requires_network("//server/share/restic"));
    assert!(repository_requires_network("s3:s3.example.test/bucket"));
    assert!(repository_requires_network(
        "sftp:user@example.test:/backup"
    ));
}

#[test]
fn backup_source_configuration_requires_an_elevated_administrator() {
    let mut machine = Machine::new(true);

    for command in [
        RequestCommand::GetBackupSources,
        RequestCommand::DiscoverBackupSources,
        RequestCommand::UpdateBackupSources {
            paths: Some(vec![r"D:\Data".to_owned()]),
            exclusions: Some(Vec::new()),
        },
    ] {
        assert!(rejected(
            &machine.handle(20, command, USER),
            "administrator_required"
        ));
    }
}

#[test]
fn administrator_source_update_is_persisted_and_applied_live() {
    let mut machine = Machine::load(
        local_backup(None, Some("local:C:/backup")),
        &Policy::default(),
        None,
        false,
    );

    let response = machine.handle(
        21,
        RequestCommand::UpdateBackupSources {
            paths: Some(vec![r"D:\Data".to_owned(), r"d:\data".to_owned()]),
            exclusions: Some(vec!["**/cache/**".to_owned(), "**/cache/**".to_owned()]),
        },
        ADMIN,
    );

    assert!(is_accepted(&response));
    assert!(matches!(
        machine.event(),
        RuntimeEvent::ConfigurationChanged
    ));
    assert_eq!(machine.runtime.config().backup.paths, [r"D:\Data"]);
    assert_eq!(machine.runtime.config().backup.exclusions, ["**/cache/**"]);
    assert!(matches!(
        machine.status().state,
        BackupState::Waiting {
            reason: WaitingReason::RepositoryValidation
        }
    ));
    let persisted = machine.saved.expect("updated config should load");
    assert_eq!(persisted.backup.paths, Some(vec![r"D:\Data".to_owned()]));
}

#[test]
fn invalid_configuration_can_be_repaired_and_persisted_over_ipc() {
    let (runtime, _) = ServiceRuntime::configuration_error(
        r"C:\ProgramData\ResticPal\config.toml",
        defaults(),
        local_defaults(),
        false,
        NOW,
    );
    let mut machine = Machine::around(runtime);

    let response = machine.handle(
        32,
        RequestCommand::UpdateBackupSources {
            paths: Some(vec![r"C:\Data".to_owned()]),
            exclusions: Some(Vec::new()),
        },
        ADMIN,
    );

    assert!(is_accepted(&response));
    assert!(matches!(
        machine.event(),
        RuntimeEvent::ConfigurationChanged
    ));
    assert!(matches!(machine.status().state, BackupState::Unconfigured));
    let repaired = machine.saved.expect("repaired configuration");
    assert_eq!(repaired.backup.paths, Some(vec![r"C:\Data".to_owned()]));
}

#[test]
fn invalid_source_update_does_not_replace_configuration() {
    let mut machine = Machine::load(local_defaults(), &Policy::default(), None, false);

    assert!(rejected(
        &machine.handle(
            22,
            RequestCommand::UpdateBackupSources {
                paths: Some(vec!["relative".to_owned()]),
                exclusions: Some(Vec::new()),
            },
            ADMIN,
        ),
        "invalid_backup_sources"
    ));
    assert_eq!(machine.saved, Some(local_defaults()));
}

#[test]
fn unsafe_source_updates_are_rejected_with_actionable_copy() {
    let mut machine = Machine::load(local_defaults(), &Policy::default(), None, false);
    let update = |path: &str| RequestCommand::UpdateBackupSources {
        paths: Some(vec![path.to_owned()]),
        exclusions: Some(Vec::new()),
    };

    assert!(matches!(
        machine.handle(23, update(r"\\server\share\Data"), ADMIN),
        ResponsePayload::Rejected { ref code, ref message }
            if code == "unsupported_network_backup_source"
                && message.contains("local Windows drive")
    ));
    assert_eq!(machine.saved, Some(local_defaults()));

    assert!(matches!(
        machine.handle(24, update(DATA_ROOT), ADMIN),
        ResponsePayload::Rejected { ref code, ref message }
            if code == "protected_backup_source"
                && message.contains("service-data folder")
    ));
    assert_eq!(machine.saved, Some(local_defaults()));
}

#[test]
fn managed_source_locks_are_enforced_by_the_service() {
    let mut machine = Machine::new(true);
    machine.lock(PolicyField::BackupPaths);

    assert!(rejected(
        &machine.handle(23, update_sources(r"D:\Data"), ADMIN),
        "managed_field_locked"
    ));
}

#[test]
fn managed_policy_is_applied_live_and_reports_its_lock() {
    let mut machine = Machine::new(false);
    let policy = Policy {
        revision: Some("managed-8"),
        interval_hours: Some((8, true)),
        ..Policy::default()
    };

    let resolved = resolve(&machine.runtime.local_config, &policy);
    let (outcome, reply) = machine.runtime.apply_managed_policy_if_current(
        Ok(resolved),
        &LocalManagementConfig::disabled(),
        NOW,
    );
    assert_eq!(outcome, Ok(ManagedPolicyApplyOutcome::Applied));
    assert_eq!(machine.runtime.config().schedule.interval_hours, 8);
    assert_eq!(
        machine.status().managed_revision.as_deref(),
        Some("managed-8")
    );
    assert!(machine
        .runtime
        .field_locked(PolicyField::ScheduleIntervalHours));
    assert!(matches!(
        reply.event,
        Some(RuntimeEvent::ConfigurationChanged)
    ));
}

#[test]
fn managed_policy_waits_until_an_active_backup_finishes() {
    let mut machine = Machine::new(false);
    machine.runtime.state.status.state = BackupState::Running {
        phase: BackupPhase::Uploading,
    };
    let policy = Policy {
        revision: Some("managed-later"),
        interval_hours: Some((4, false)),
        ..Policy::default()
    };

    let resolved = resolve(&machine.runtime.local_config, &policy);
    let (outcome, reply) = machine.runtime.apply_managed_policy_if_current(
        Ok(resolved),
        &LocalManagementConfig::disabled(),
        NOW,
    );
    assert_eq!(outcome, Ok(ManagedPolicyApplyOutcome::RuntimeBusy));
    assert_eq!(machine.runtime.config().schedule.interval_hours, 24);
    assert!(machine.status().managed_revision.is_none());
    assert!(reply.event.is_none());
}

#[test]
fn a_policy_fetched_for_an_old_management_source_cannot_apply_after_unenrollment() {
    let mut local = local_defaults();
    local.management.mode = ManagementMode::PlainManifest;
    local.management.manifest_url = Some("http://127.0.0.1:9/old-policy.json".to_owned());
    local.management.refresh_interval_minutes = Some(15);
    let expected_source = local.management.clone();
    let mut machine = Machine::load(local, &Policy::default(), None, false);
    let stale_policy = Policy {
        revision: Some("stale-after-unenroll"),
        automatic_install: Some((true, true)),
        ..Policy::default()
    };

    assert!(is_accepted(&machine.handle(
        1,
        RequestCommand::Unenroll,
        ADMIN
    )));
    let resolved = resolve(&machine.runtime.local_config, &stale_policy);
    let (outcome, _) =
        machine
            .runtime
            .apply_managed_policy_if_current(Ok(resolved), &expected_source, NOW);
    assert_eq!(outcome, Ok(ManagedPolicyApplyOutcome::SourceChanged));

    assert_eq!(
        machine.runtime.local_config.management.mode,
        ManagementMode::Disabled
    );
    assert!(machine.status().managed_revision.is_none());
    assert!(!machine.runtime.config().updates.automatic_install);
    assert!(!machine
        .runtime
        .field_locked(PolicyField::UpdateAutomaticInstall));
}

#[test]
fn an_unlocked_source_field_can_change_without_overwriting_a_locked_field() {
    let mut machine = Machine::new(true);
    machine.runtime.config.backup.exclusions = vec!["managed-pattern".to_owned()];
    machine.lock(PolicyField::BackupExclusions);

    assert!(is_accepted(&machine.handle(
        24,
        update_sources(r"D:\Data"),
        ADMIN
    )));
    assert!(matches!(
        machine.event(),
        RuntimeEvent::ConfigurationChanged
    ));
    let config = machine.runtime.config();
    assert_eq!(config.backup.paths, [r"D:\Data"]);
    assert_eq!(config.backup.exclusions, ["managed-pattern"]);
    assert_eq!(config.repository.url.as_deref(), Some("local:C:/backup"));
}

#[test]
fn repository_configuration_requires_an_elevated_administrator() {
    let mut machine = Machine::new(true);
    let update = RequestCommand::UpdateRepository {
        update: RepositoryUpdate {
            display_name: Some("Backup".to_owned()),
            url: Some("local:C:/backup".to_owned()),
            mode: Some(RepositoryMode::Standard),
            options: Some(Vec::new()),
            secret_updates: Vec::new(),
        },
    };

    for command in [
        RequestCommand::GetRepository,
        update,
        RequestCommand::ValidateRepository,
        RequestCommand::InitializeRepository,
    ] {
        assert!(rejected(
            &machine.handle(30, command, USER),
            "administrator_required"
        ));
    }
}

#[test]
fn repository_update_rejects_options_that_disable_source_snapshots() {
    let mut machine = Machine::new(true);
    let response = machine.handle(
        31,
        RequestCommand::UpdateRepository {
            update: RepositoryUpdate {
                options: Some(vec![("vss.exclude-volumes".to_owned(), "C:".to_owned())]),
                ..no_repository_update()
            },
        },
        ADMIN,
    );

    assert!(matches!(
        response,
        ResponsePayload::Rejected { ref code, ref message }
            if code == "invalid_repository"
                && message.contains("must use Windows filesystem snapshots")
    ));
    assert!(machine.runtime.config().repository.options.is_empty());
}

#[test]
fn repository_credentials_rotate_without_entering_configuration_or_responses() {
    let mut machine = Machine::load(
        local_backup(Some(r"C:\Data"), None),
        &Policy::default(),
        None,
        true,
    );
    let password = SecretEnvironmentVariable::ResticPassword;
    let first_secret = "first-unique-repository-secret";

    let response = machine.handle(
        31,
        RequestCommand::UpdateRepository {
            update: RepositoryUpdate {
                display_name: Some("Managed S3".to_owned()),
                url: Some("s3:https://s3.example.test/bucket/device".to_owned()),
                mode: Some(RepositoryMode::AppendOnly),
                options: Some(vec![("s3.region".to_owned(), "us-west-2".to_owned())]),
                secret_updates: vec![RepositorySecretUpdate::Store {
                    variable: password,
                    value: first_secret.as_bytes().to_vec(),
                }],
            },
        },
        ADMIN,
    );

    assert!(is_accepted(&response));
    assert!(matches!(
        machine.event(),
        RuntimeEvent::ConfigurationChanged
    ));
    let reference = |machine: &Machine| {
        machine
            .runtime
            .config()
            .repository
            .secret_refs
            .get(password)
            .expect("a reference")
    };
    let first_reference = reference(&machine);
    assert_eq!(
        machine.secret(&first_reference).expect("first secret"),
        first_secret.as_bytes()
    );
    assert!(!format!("{:?}", machine.saved).contains(first_secret));
    let view = machine.handle(32, RequestCommand::GetRepository, ADMIN);
    assert!(matches!(
        view,
        ResponsePayload::Repository {
            configuration: RepositoryView {
                mode: RepositoryMode::AppendOnly,
                ref configured_secrets,
                ..
            }
        } if configured_secrets == &[password]
    ));
    assert!(!format!("{view:?}").contains(first_secret));
    assert!(!format!("{view:?}").contains(&first_reference));

    let second_secret = "second-unique-repository-secret";
    let change_secret = |update: RepositorySecretUpdate| RequestCommand::UpdateRepository {
        update: RepositoryUpdate {
            secret_updates: vec![update],
            ..no_repository_update()
        },
    };
    assert!(is_accepted(&machine.handle(
        33,
        change_secret(RepositorySecretUpdate::Store {
            variable: password,
            value: second_secret.as_bytes().to_vec(),
        }),
        ADMIN,
    )));
    assert!(matches!(
        machine.event(),
        RuntimeEvent::ConfigurationChanged
    ));
    let second_reference = reference(&machine);
    assert_ne!(first_reference, second_reference);
    assert_eq!(machine.secret(&first_reference), None);
    assert_eq!(
        machine.secret(&second_reference).expect("rotated secret"),
        second_secret.as_bytes()
    );

    assert!(is_accepted(&machine.handle(
        34,
        change_secret(RepositorySecretUpdate::Remove { variable: password }),
        ADMIN,
    )));
    assert!(!machine
        .runtime
        .config()
        .repository
        .secret_refs
        .contains_key(password));
    assert_eq!(machine.secret(&second_reference), None);
}

#[test]
fn repository_policy_locks_are_reported_and_enforced_per_field() {
    let mut machine = Machine::new(true);
    machine.lock(PolicyField::RepositoryUrl);

    assert!(matches!(
        machine.handle(35, RequestCommand::GetRepository, ADMIN),
        ResponsePayload::Repository {
            configuration: RepositoryView {
                url_locked: true,
                display_name_locked: false,
                ..
            }
        }
    ));
    assert!(rejected(
        &machine.handle(
            36,
            RequestCommand::UpdateRepository {
                update: RepositoryUpdate {
                    url: Some("local:D:/replacement".to_owned()),
                    ..no_repository_update()
                },
            },
            ADMIN,
        ),
        "managed_field_locked"
    ));
    assert!(is_accepted(&machine.handle(
        37,
        RequestCommand::UpdateRepository {
            update: RepositoryUpdate {
                display_name: Some("Friendly name".to_owned()),
                ..no_repository_update()
            },
        },
        ADMIN,
    )));
    assert!(matches!(
        machine.event(),
        RuntimeEvent::ConfigurationChanged
    ));
    let config = machine.runtime.config();
    assert_eq!(config.repository.url.as_deref(), Some("local:C:/backup"));
    assert_eq!(
        config.repository.display_name.as_deref(),
        Some("Friendly name")
    );
}

#[test]
fn repository_validation_is_queued_and_reported_until_completion() {
    let mut machine = Machine::new(true);
    machine.runtime.config.repository.secret_refs.insert(
        SecretEnvironmentVariable::ResticPassword,
        "repository-password".to_owned(),
    );

    assert!(is_accepted(&machine.handle(
        40,
        RequestCommand::ValidateRepository,
        ADMIN
    )));
    assert!(matches!(
        machine.event(),
        RuntimeEvent::RepositoryOperationRequested(RepositoryOperationKind::Validate)
    ));
    assert!(rejected(
        &machine.handle(41, RequestCommand::ValidateRepository, ADMIN),
        "repository_operation_running"
    ));
    assert!(matches!(
        machine.handle(42, RequestCommand::GetRepository, ADMIN),
        ResponsePayload::Repository {
            configuration: RepositoryView {
                operation_status: RepositoryOperationStatus::Running {
                    operation: RepositoryOperationKind::Validate
                },
                ..
            }
        }
    ));

    machine.finish_operation(
        RepositoryOperationKind::Validate,
        &RepositoryOutcome {
            kind: RepositoryOutcomeKind::Succeeded,
        },
    );
    assert!(matches!(
        machine.handle(43, RequestCommand::GetRepository, ADMIN),
        ResponsePayload::Repository {
            configuration: RepositoryView {
                operation_status: RepositoryOperationStatus::Succeeded {
                    operation: RepositoryOperationKind::Validate,
                    ..
                },
                ..
            }
        }
    ));
}

#[test]
fn append_only_mode_rejects_repository_initialization() {
    let mut machine = Machine::new(true);
    machine.runtime.config.repository.mode = RepositoryMode::AppendOnly;
    machine.runtime.config.repository.secret_refs.insert(
        SecretEnvironmentVariable::ResticPassword,
        "repository-password".to_owned(),
    );

    assert!(rejected(
        &machine.handle(43, RequestCommand::InitializeRepository, ADMIN),
        "append_only_initialization_forbidden"
    ));
}

fn replace_repository() -> RequestCommand {
    RequestCommand::UpdateRepository {
        update: RepositoryUpdate {
            url: Some("local:D:/replacement".to_owned()),
            ..no_repository_update()
        },
    }
}

#[test]
fn connection_changes_require_validation_before_backup() {
    let mut machine = Machine::new(true);
    assert!(is_accepted(&machine.handle(44, replace_repository(), ADMIN)));
    assert!(matches!(
        machine.event(),
        RuntimeEvent::ConfigurationChanged
    ));
    assert_eq!(
        machine.evaluate(NOW, available_conditions()),
        ScheduleAction::Nothing
    );
    assert!(matches!(
        machine.status().state,
        BackupState::Waiting {
            reason: WaitingReason::RepositoryValidation
        }
    ));

    assert!(rejected(
        &machine.handle(45, RequestCommand::RunBackupNow, ADMIN),
        "repository_not_ready"
    ));
    assert!(matches!(
        machine.handle(46, RequestCommand::GetRepository, ADMIN),
        ResponsePayload::Repository {
            configuration: RepositoryView {
                operation_status: RepositoryOperationStatus::ValidationRequired,
                ..
            }
        }
    ));
}

#[test]
fn repository_validation_gate_survives_service_restart() {
    let mut local = local_backup(Some(r"C:\Data"), Some("local:C:/backup"));
    let mut references = SecretRefs::new();
    references.insert(
        SecretEnvironmentVariable::ResticPassword,
        "repository-password".to_owned(),
    );
    local.repository.secret_refs = Some(references);
    let mut machine = Machine::load(local, &Policy::default(), None, false);

    assert!(is_accepted(&machine.handle(47, replace_repository(), ADMIN)));
    assert!(matches!(
        machine.event(),
        RuntimeEvent::ConfigurationChanged
    ));

    let mut machine = Machine::load(
        machine.saved.expect("saved configuration"),
        &Policy::default(),
        Some(machine.runtime.state.service_state),
        false,
    );
    assert_eq!(
        machine.evaluate(NOW, available_conditions()),
        ScheduleAction::Nothing
    );
    assert!(is_accepted(&machine.handle(
        48,
        RequestCommand::ValidateRepository,
        ADMIN
    )));
    assert!(matches!(
        machine.event(),
        RuntimeEvent::RepositoryOperationRequested(RepositoryOperationKind::Validate)
    ));
    machine.finish_operation(
        RepositoryOperationKind::Validate,
        &RepositoryOutcome {
            kind: RepositoryOutcomeKind::Succeeded,
        },
    );

    let mut machine = Machine::load(
        machine.saved.expect("saved configuration"),
        &Policy::default(),
        Some(machine.runtime.state.service_state),
        false,
    );
    assert!(matches!(
        machine.handle(49, RequestCommand::GetRepository, ADMIN),
        ResponsePayload::Repository {
            configuration: RepositoryView {
                operation_status: RepositoryOperationStatus::Succeeded {
                    operation: RepositoryOperationKind::Validate,
                    ..
                },
                ..
            }
        }
    ));
    assert!(matches!(
        machine.evaluate(NOW, available_conditions()),
        ScheduleAction::Start { .. }
    ));
}

#[test]
fn schedule_configuration_requires_admin_and_persists_live_updates() {
    let mut machine = Machine::load(
        local_backup(Some(r"C:\Data"), Some("local:C:/backup")),
        &Policy::default(),
        None,
        false,
    );
    let update = || RequestCommand::UpdateSchedule {
        update: ScheduleUpdate {
            interval_hours: Some(12),
            wake_grace_seconds: Some(600),
            wake_lock_timeout_seconds: Some(3_600),
            allow_on_battery: Some(false),
            allow_metered_network: Some(false),
        },
    };

    for command in [RequestCommand::GetSchedule, update()] {
        assert!(rejected(
            &machine.handle(50, command, USER),
            "administrator_required"
        ));
    }

    assert!(is_accepted(&machine.handle(51, update(), ADMIN)));
    assert!(matches!(
        machine.event(),
        RuntimeEvent::ConfigurationChanged
    ));
    let schedule = machine.runtime.config().schedule;
    assert_eq!(schedule.interval_hours, 12);
    assert_eq!(schedule.wake_grace_seconds, 600);
    assert_eq!(schedule.wake_lock_timeout_seconds, 3_600);
    assert!(!schedule.allow_on_battery);
    assert!(!schedule.allow_metered_network);
    let persisted = machine.saved.expect("persisted config");
    assert_eq!(persisted.schedule.interval_hours, Some(12));
    assert_eq!(persisted.schedule.wake_grace_seconds, Some(600));
    assert_eq!(persisted.schedule.wake_lock_timeout_seconds, Some(3_600));
    assert_eq!(persisted.schedule.allow_on_battery, Some(false));
    assert_eq!(persisted.schedule.allow_metered_network, Some(false));
}

#[test]
fn schedule_policy_locks_are_reported_and_enforced_per_field() {
    let mut machine = Machine::new(true);
    machine.lock(PolicyField::ScheduleIntervalHours);
    assert!(matches!(
        machine.handle(52, RequestCommand::GetSchedule, ADMIN),
        ResponsePayload::Schedule {
            configuration: ScheduleView {
                interval_hours_locked: true,
                allow_on_battery_locked: false,
                ..
            }
        }
    ));

    assert!(rejected(
        &machine.handle(
            53,
            RequestCommand::UpdateSchedule {
                update: ScheduleUpdate {
                    interval_hours: Some(6),
                    ..no_schedule_update()
                },
            },
            ADMIN,
        ),
        "managed_field_locked"
    ));
    assert!(is_accepted(&machine.handle(
        54,
        RequestCommand::UpdateSchedule {
            update: ScheduleUpdate {
                allow_on_battery: Some(false),
                ..no_schedule_update()
            },
        },
        ADMIN,
    )));
    assert!(matches!(
        machine.event(),
        RuntimeEvent::ConfigurationChanged
    ));
    assert_eq!(machine.runtime.config().schedule.interval_hours, 24);
    assert!(!machine.runtime.config().schedule.allow_on_battery);
}

#[test]
fn invalid_schedule_update_does_not_replace_configuration() {
    let mut machine = Machine::new(true);
    let before = machine.runtime.config().schedule;

    assert!(rejected(
        &machine.handle(
            55,
            RequestCommand::UpdateSchedule {
                update: ScheduleUpdate {
                    interval_hours: Some(0),
                    ..no_schedule_update()
                },
            },
            ADMIN,
        ),
        "invalid_schedule"
    ));
    assert_eq!(machine.runtime.config().schedule, before);
}

#[test]
fn retention_updates_are_admin_only_bounded_and_live() {
    let mut machine = Machine::new(true);
    let update = || RequestCommand::UpdateRetention {
        update: RetentionUpdate {
            daily: Some(14),
            weekly: Some(8),
            monthly: Some(18),
            yearly: Some(5),
            prune_interval_days: Some(14),
        },
    };
    assert!(rejected(
        &machine.handle(70, update(), USER),
        "administrator_required"
    ));
    assert!(is_accepted(&machine.handle(71, update(), ADMIN)));
    assert!(matches!(
        machine.event(),
        RuntimeEvent::ConfigurationChanged
    ));
    assert_eq!(machine.runtime.config().retention.daily, 14);
    assert_eq!(machine.runtime.config().retention.prune_interval_days, 14);

    assert!(rejected(
        &machine.handle(
            72,
            RequestCommand::UpdateRetention {
                update: RetentionUpdate {
                    daily: Some(0),
                    weekly: Some(0),
                    monthly: Some(0),
                    yearly: Some(0),
                    prune_interval_days: None,
                },
            },
            ADMIN,
        ),
        "invalid_retention"
    ));
}

#[test]
fn append_only_retention_is_server_managed() {
    let mut machine = Machine::new(true);
    machine.runtime.config.repository.mode = RepositoryMode::AppendOnly;
    assert_eq!(machine.runtime.begin_retention(NOW), None);
    assert!(matches!(
        machine.handle(73, RequestCommand::GetRetention, ADMIN),
        ResponsePayload::Retention {
            configuration: RetentionView {
                repository_mode: RepositoryMode::AppendOnly,
                ..
            }
        }
    ));
    assert!(rejected(
        &machine.handle(
            74,
            RequestCommand::UpdateRetention {
                update: RetentionUpdate {
                    daily: Some(30),
                    ..no_retention_update()
                },
            },
            ADMIN,
        ),
        "retention_managed_by_server"
    ));
}

#[test]
fn standard_retention_transitions_phase_and_preserves_backup_success_as_warning() {
    let mut machine = Machine::new(true);
    assert!(matches!(
        machine.evaluate(NOW, available_conditions()),
        ScheduleAction::Start { .. }
    ));
    assert_eq!(
        machine.runtime.begin_retention(NOW),
        Some(RetentionPlan { prune_due: true })
    );
    assert!(matches!(
        machine.status().state,
        BackupState::Running {
            phase: BackupPhase::Retention
        }
    ));
    let retention = RetentionOutcome {
        kind: RetentionOutcomeKind::Failed {
            code: "retention_prune_failed".to_owned(),
        },
    };
    machine.runtime.record_retention(&retention, NOW);
    let (outcome, _) = ServiceRuntime::finish_retention(
        BackupOutcome::succeeded(summary("snapshot")),
        &retention,
        true,
    );
    assert_eq!(outcome.kind, BackupOutcomeKind::SucceededWithWarnings);
    assert_eq!(
        outcome.warning_code.as_deref(),
        Some("retention_prune_failed")
    );

    let backup_warning = BackupOutcome::succeeded(summary("warning-snapshot"))
        .with_warning("restic_vss_fallback");
    let (outcome, _) = ServiceRuntime::finish_retention(backup_warning, &retention, true);
    assert_eq!(outcome.kind, BackupOutcomeKind::SucceededWithWarnings);
    assert_eq!(
        outcome.warning_code.as_deref(),
        Some("restic_vss_fallback"),
        "retention state and diagnostics must not hide the primary backup warning"
    );
}

#[test]
fn diagnostics_are_admin_only_and_never_return_raw_details() {
    let mut machine = Machine::load(local_defaults(), &Policy::default(), None, false);
    machine.log.push(DiagnosticLog::entry(
        NOW,
        DiagnosticLevel::Error,
        "backup.failed",
        "Backup failed.",
        Some("Access denied: C:\\Users\\Private"),
    ));
    assert!(rejected(
        &machine.handle(75, RequestCommand::GetDiagnostics { limit: 10 }, USER),
        "administrator_required"
    ));
    let response = machine.handle(76, RequestCommand::GetDiagnostics { limit: 10 }, ADMIN);
    let serialized = format!("{response:?}");
    assert!(matches!(response, ResponsePayload::Diagnostics { .. }));
    assert!(!serialized.contains(r"C:\Users\Private"));
}

#[test]
fn backup_history_summaries_are_user_readable_but_source_failure_paths_are_admin_only() {
    let mut verified_config = defaults();
    verified_config.repository.url = Some("local:C:/backup".to_owned());
    let mut service_state = ServiceStateSnapshot::new();
    service_state.mark_repository_verified(&verified_config, NOW);
    let mut machine = Machine::load(
        local_backup(Some(r"C:\Data"), Some("local:C:/backup")),
        &Policy::default(),
        Some(service_state),
        false,
    );
    assert!(is_accepted(&machine.handle(
        56,
        RequestCommand::RunBackupNow,
        USER
    )));
    assert!(matches!(machine.event(), RuntimeEvent::RunNow));
    assert!(matches!(
        machine.evaluate(NOW, available_conditions()),
        ScheduleAction::Start { .. }
    ));
    let private_path = r"C:\Users\Private\locked.txt";
    machine.finish_backup(
        NOW,
        &BackupOutcome::warnings(
            BackupSummary {
                files_processed: 12,
                bytes_processed: 1_024,
                data_added: 256,
                snapshot_id: Some("abc123".to_owned()),
            },
            "restic_partial_source",
            BackupFailureDetails::from_items(vec![private_path.to_owned()], 2),
        ),
    );

    let response = machine.handle(57, RequestCommand::GetRunHistory { limit: 50 }, USER);
    assert!(!format!("{response:?}").contains(private_path));
    let run_id = match &response {
        ResponsePayload::RunHistory { runs } => runs[0].id,
        _ => panic!("expected backup history"),
    };
    assert!(matches!(
        response,
        ResponsePayload::RunHistory { ref runs }
            if matches!(runs.as_slice(), [run]
                if run.outcome == BackupRunOutcome::SucceededWithWarnings
                    && run.files_processed == Some(12)
                    && run.snapshot_id.as_deref() == Some("abc123")
                    && run.failed_item_count == 3)
    ));
    assert!(rejected(
        &machine.handle(58, RequestCommand::GetRunFailureDetails { run_id }, USER),
        "administrator_required"
    ));
    assert!(matches!(
        machine.handle(59, RequestCommand::GetRunFailureDetails { run_id }, ADMIN),
        ResponsePayload::RunFailureDetails { details }
            if details.items == [private_path] && details.omitted == 2
    ));
    let diagnostics = machine.handle(60, RequestCommand::GetDiagnostics { limit: 10 }, ADMIN);
    assert!(!format!("{diagnostics:?}").contains(private_path));

    assert!(matches!(
        machine.handle(61, RequestCommand::GetRunHistory { limit: 1 }, USER),
        ResponsePayload::RunHistory { runs } if runs.len() == 1
    ));
    assert!(rejected(
        &machine.handle(63, RequestCommand::GetRunHistory { limit: 0 }, USER),
        "invalid_history_limit"
    ));
}

#[test]
fn enrollment_commit_protects_credentials_activates_policy_and_unenrolls_cleanly() {
    let mut machine = Machine::load(local_defaults(), &Policy::default(), None, true);
    let password = SecretEnvironmentVariable::ResticPassword;
    let material = EnrollmentMaterial {
        device_id: "test-device".to_owned(),
        manifest_url: "http://127.0.0.1:9/v1/manifest/test-device".to_owned(),
        status_url: "http://127.0.0.1:9/v1/status".to_owned(),
        public_key: "server-key".to_owned(),
        refresh_interval_minutes: 15,
        repository_secrets: vec![password],
    };
    assert_eq!(machine.runtime.check_enrollment_stores(), Ok(()));
    assert_eq!(
        machine
            .runtime
            .enroll(b"https://example.invalid/#token=secret", ADMIN, NOW),
        Ok("https://example.invalid/#token=secret".to_owned())
    );
    let mut created = Vec::new();
    while let Some(credential) = material.credential(created.len()) {
        let value: &[u8] = match credential {
            EnrollmentCredential::StatusToken => b"device-token",
            EnrollmentCredential::DeviceKey => &[67_u8; 32],
            EnrollmentCredential::Repository { .. } => b"repository-password",
        };
        created.push(machine.store_secret(value));
    }
    let local = machine.runtime.plan_enrollment(&material, &created);
    assert_eq!(ServiceRuntime::admit_enrollment(Ok(()), false), Ok(()));
    assert!(ServiceRuntime::admit_enrollment(Ok(()), true).is_err());
    let policy = Policy {
        revision: Some("enrollment-4"),
        ..Policy::default()
    };
    let resolved = resolve(&local, &policy);
    machine.saved = Some(local.clone());
    machine
        .runtime
        .commit_enrollment(&material, local, resolved, NOW);
    assert!(is_accepted(&machine.runtime.finish_enroll(true)));

    let local = machine.saved.clone().expect("enrolled config");
    assert_eq!(local.management.mode, ManagementMode::SignedManifest);
    assert_eq!(
        machine.status().managed_revision.as_deref(),
        Some("enrollment-4")
    );
    let status_ref = local
        .management
        .status_token_ref
        .clone()
        .expect("status reference");
    let key_ref = local
        .management
        .enrollment_key_ref
        .clone()
        .expect("key reference");
    let repository_ref = local
        .repository
        .secret_refs
        .as_ref()
        .expect("secret refs")
        .get(password)
        .expect("repository reference");
    assert_eq!(
        machine.secret(&status_ref).expect("status token"),
        b"device-token"
    );
    assert_eq!(
        machine.secret(&key_ref).expect("identity key"),
        &[67_u8; 32]
    );
    assert_eq!(
        machine.secret(&repository_ref).expect("repository secret"),
        b"repository-password"
    );
    assert!(matches!(
        machine.handle(60, RequestCommand::GetRepository, ADMIN),
        ResponsePayload::Repository {
            configuration: RepositoryView {
                ref configured_secrets,
                secrets_locked: true,
                ..
            }
        } if configured_secrets == &[password]
    ));
    assert!(rejected(
        &machine.handle(
            61,
            RequestCommand::UpdateRepository {
                update: RepositoryUpdate {
                    secret_updates: vec![RepositorySecretUpdate::Remove { variable: password }],
                    ..no_repository_update()
                },
            },
            ADMIN,
        ),
        "managed_field_locked"
    ));

    assert!(is_accepted(&machine.handle(
        1,
        RequestCommand::Unenroll,
        ADMIN
    )));
    let local = machine.saved.clone().expect("unmanaged config");
    assert_eq!(local.management.mode, ManagementMode::Disabled);
    assert!(matches!(
        machine.handle(62, RequestCommand::GetRepository, ADMIN),
        ResponsePayload::Repository {
            configuration: RepositoryView {
                secrets_locked: false,
                ..
            }
        }
    ));
    assert_eq!(machine.secret(&status_ref), None);
    assert_eq!(machine.secret(&key_ref), None);
    assert_eq!(
        machine
            .secret(&repository_ref)
            .expect("retained repository secret"),
        b"repository-password"
    );
}

#[test]
fn an_undelivered_request_is_taken_back() {
    let mut machine = Machine::new(true);
    let (_, step) =
        machine
            .runtime
            .handle_request(Request::new(1, RequestCommand::RunBackupNow), USER, NOW);
    match step {
        RequestStep::Deliver { event, .. } => {
            assert!(rejected(
                &machine.runtime.undelivered(&event, NOW),
                "service_stopping"
            ));
        }
        _ => panic!("the request is delivered"),
    }
}

#[test]
fn only_one_credential_change_per_variable_is_taken() {
    let mut machine = Machine::load(
        local_backup(Some(r"C:\Data"), Some("local:C:/backup")),
        &Policy::default(),
        None,
        true,
    );
    let remove = || RepositorySecretUpdate::Remove {
        variable: SecretEnvironmentVariable::ResticPassword,
    };
    let response = machine.handle(
        1,
        RequestCommand::UpdateRepository {
            update: RepositoryUpdate {
                secret_updates: vec![remove(), remove()],
                ..no_repository_update()
            },
        },
        ADMIN,
    );
    assert!(matches!(response, ResponsePayload::Rejected { .. }));
    assert_eq!(nonempty_trimmed("  name "), Some("name".to_owned()));
    assert_eq!(nonempty_trimmed(" \t"), None);
}

#[test]
fn blockers_become_reasons() {
    assert_eq!(
        waiting_reason(ScheduleBlocker::WakeGrace),
        WaitingReason::WakeGrace
    );
    assert_eq!(
        waiting_reason(ScheduleBlocker::NetworkUnavailable),
        WaitingReason::Network
    );
    assert_eq!(
        waiting_reason(ScheduleBlocker::MeteredNetworkDisallowed),
        WaitingReason::MeteredNetwork
    );
}

#[test]
fn a_state_that_could_not_be_read_requires_validation() {
    let (state, diagnostic) = starting_memory(None);
    let mut config = defaults();
    config.repository.url = Some("local:C:/backup".to_owned());
    assert!(state.repository_requires_validation(&config));
    assert_eq!(state.repository_verified_at(&config), None);
    assert_eq!(
        diagnostic.expect("a diagnostic").code.as_deref(),
        Some("state_load_failed")
    );
}

#[test]
fn a_verified_repository_is_known_by_its_connection() {
    let mut config = defaults();
    config.repository.url = Some("local:C:/backup".to_owned());
    let mut state = ServiceStateSnapshot::new();
    state.mark_repository_verified(&config, NOW);
    assert_eq!(state.repository_verified_at(&config), Some(NOW));
    config.repository.display_name = Some("Name".to_owned());
    assert!(!state.repository_requires_validation(&config));
    config.repository.url = Some("local:D:/backup".to_owned());
    assert!(state.repository_requires_validation(&config));
}

#[test]
fn the_order_of_options_does_not_matter() {
    let option = |name: &str, value: &str| (name.to_owned(), value.to_owned());
    let mut config = defaults();
    config.repository.url = Some("s3:example".to_owned());
    config.repository.options = vec![option("s3.region", "a"), option("s3.layout", "b")];
    let mut state = ServiceStateSnapshot::new();
    state.mark_repository_verified(&config, NOW);
    config.repository.options = vec![option("s3.layout", "b"), option("s3.region", "a")];
    assert!(!state.repository_requires_validation(&config));
    config.repository.options = vec![option("s3.layout", "b"), option("s3.region", "c")];
    assert!(state.repository_requires_validation(&config));
    config.repository.options = vec![option("s3.layout", "b")];
    assert!(state.repository_requires_validation(&config));
}

#[test]
fn the_next_look_at_the_schedule_is_bounded() {
    let machine = Machine::new(true);
    let delay = machine.runtime.next_evaluation_delay(NOW);
    assert!(delay <= 60 * 60 * 1_000, "{delay}");
}

#[test]
fn an_installer_that_outlasts_its_hold_lets_the_loop_sleep() {
    let mut machine = Machine::new(true);
    machine.runtime.state.update_install_active = true;
    machine.runtime.state.update_hold_until = Some(NOW + 5 * SECOND);
    assert_eq!(
        machine.evaluate(NOW, available_conditions()),
        ScheduleAction::Nothing
    );
    assert_eq!(machine.status().next_deadline, Some(NOW + 5 * SECOND));
    assert_eq!(machine.runtime.next_evaluation_delay(NOW), 5_000);

    let late = NOW + 6 * SECOND;
    assert_eq!(
        machine.evaluate(late, available_conditions()),
        ScheduleAction::Nothing
    );
    assert_eq!(machine.status().next_deadline, None);
    assert_eq!(machine.runtime.next_evaluation_delay(late), 3_600_000);
}

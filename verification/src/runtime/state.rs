//! The state of the running service and how it comes about.
use crate::config::{
    chars_of, copy_options, field_locked, locks, options_of, same_options, EffectiveConfig,
    EffectiveConfigView, FieldResolution, LocalConfig, PolicyField, SecretRefs,
};
use crate::diagnostics::{DiagnosticLevel, DiagnosticLog};
use crate::protocol::{
    repository_operation_allows_backup, RepositoryOperationKind, RepositoryOperationStatus,
    RestoreNodeType, RestoreQueryView, RestoreStatusView,
};
use crate::status::{
    copy_text, transition_state, transitioned, BackupState, RepositoryMode, ServiceStatus,
    WaitingReason,
};
use crate::stores::{BackupHistoryStore, LocalConfigStore, ScheduleStateStore};
use crate::table::Table;
use crate::time::{completion_deadline, deadline_after};
use std::collections::BTreeMap;
use vstd::prelude::*;

verus! {

/// The listings of the recovery browser that are kept.
pub const MAX_RETAINED_RESTORE_QUERIES: usize = 8;

/// The items of backups that the recovery browser may open or restore at once.
pub const MAX_AUTHORIZED_RESTORE_NODES: usize = 65_536;

/// A repository connection that was proved to work, with the time of the proof.
pub struct VerifiedRepository {
    pub url: String,
    pub options: Vec<(String, String)>,
    pub secret_refs: SecretRefs,
    pub verified_at: i128,
}

impl VerifiedRepository {
    /// Whether the proof is of the connection that `config` uses: its URL, its
    /// options and its credentials.
    pub open spec fn covers(self, config: EffectiveConfigView) -> bool {
        &&& config.url == Some(self.url@)
        &&& config.options == options_of(self.options@)
        &&& config.secret_refs == self.secret_refs@
    }

    fn is_for(&self, config: &EffectiveConfig) -> (same: bool)
        ensures
            same == self.covers(config@),
    {
        match &config.repository.url {
            Some(url) => *url == self.url && same_options(
                &config.repository.options,
                &self.options,
            ) && config.repository.secret_refs.same_as(&self.secret_refs),
            None => false,
        }
    }
}

/// What the service remembers over a restart.
pub struct ServiceStateSnapshot {
    pub last_success: Option<i128>,
    pub last_retention: Option<i128>,
    pub last_prune: Option<i128>,
    pub last_retention_error: Option<String>,
    pub verified_repository: Option<VerifiedRepository>,
}

impl ServiceStateSnapshot {
    /// Whether the connection of `config` was proved to work.
    pub open spec fn verifies(self, config: EffectiveConfigView) -> bool {
        self.verified_repository is Some && self.verified_repository->0.covers(config)
    }

    /// A configured repository has to be validated unless its very connection was.
    pub open spec fn requires_validation(self, config: EffectiveConfigView) -> bool {
        config.url is Some && !self.verifies(config)
    }

    pub open spec fn remembers_nothing(self) -> bool {
        &&& self.last_success is None
        &&& self.last_retention is None
        &&& self.last_prune is None
        &&& self.last_retention_error is None
        &&& self.verified_repository is None
    }

    pub fn new() -> (snapshot: ServiceStateSnapshot)
        ensures
            snapshot.remembers_nothing(),
    {
        ServiceStateSnapshot {
            last_success: None,
            last_retention: None,
            last_prune: None,
            last_retention_error: None,
            verified_repository: None,
        }
    }

    /// Forgets that any connection was proved to work.
    pub fn require_repository_validation(&mut self)
        ensures
            *final(self) == (ServiceStateSnapshot { verified_repository: None, ..*old(self) }),
    {
        self.verified_repository = None;
    }

    /// Remembers that the connection of `config` works.
    pub fn mark_repository_verified(&mut self, config: &EffectiveConfig, now: i128)
        ensures
            config@.url is Some ==> final(self).verifies(config@)
                && final(self).verified_repository->0.verified_at == now,
            config@.url is None ==> final(self).verified_repository is None,
            *final(self) == (ServiceStateSnapshot {
                verified_repository: final(self).verified_repository,
                ..*old(self)
            }),
    {
        self.verified_repository = match &config.repository.url {
            Some(url) => Some(
                VerifiedRepository {
                    url: url.clone(),
                    options: copy_options(&config.repository.options),
                    secret_refs: config.repository.secret_refs.clone(),
                    verified_at: now,
                },
            ),
            None => None,
        };
    }

    pub fn repository_requires_validation(&self, config: &EffectiveConfig) -> (required: bool)
        ensures
            required == self.requires_validation(config@),
    {
        match &self.verified_repository {
            Some(verified) => config.repository.url.is_some() && !verified.is_for(config),
            None => config.repository.url.is_some(),
        }
    }

    /// When the connection of `config` was proved to work.
    pub fn repository_verified_at(&self, config: &EffectiveConfig) -> (at: Option<i128>)
        ensures
            at == (if self.verifies(config@) {
                Some(self.verified_repository->0.verified_at)
            } else {
                None
            }),
    {
        match &self.verified_repository {
            Some(verified) => if verified.is_for(config) {
                Some(verified.verified_at)
            } else {
                None
            },
            None => None,
        }
    }

}

/// A change of the connection, in whatever field, takes the proof away.
pub proof fn a_changed_connection_must_be_validated(
    snapshot: ServiceStateSnapshot,
    before: EffectiveConfigView,
    after: EffectiveConfigView,
)
    requires
        snapshot.verifies(before),
        after.url is Some,
        after.url != before.url || after.options != before.options || after.secret_refs
            != before.secret_refs,
    ensures
        snapshot.requires_validation(after),
{
}

/// The files that the service was started with.
pub struct RuntimeStores {
    pub state: Option<ScheduleStateStore>,
    pub history: Option<BackupHistoryStore>,
    pub config: Option<LocalConfigStore>,
    pub credentials: bool,
    pub diagnostics: Option<DiagnosticLog>,
}

impl RuntimeStores {
    /// The service has no files.
    pub open spec fn keep_nothing(self) -> bool {
        &&& self.state is None
        &&& self.history is None
        &&& self.config is None
        &&& !self.credentials
        &&& self.diagnostics is None
    }

    pub fn none() -> (stores: RuntimeStores)
        ensures
            stores.keep_nothing(),
    {
        RuntimeStores {
            state: None,
            history: None,
            config: None,
            credentials: false,
            diagnostics: None,
        }
    }

    /// `self` holds the files that stand next to the configuration.
    pub open spec fn stand_beside(self, path: Seq<char>, credentials: bool) -> bool {
        &&& self.state is Some && self.state->0@ == crate::paths::beside(path, "state.json"@)
        &&& self.history is Some && self.history->0@ == crate::paths::beside(path, "state.db"@)
        &&& self.config is Some && self.config->0@ == path
        &&& self.credentials == credentials
        &&& self.diagnostics is Some && self.diagnostics->0@ == crate::diagnostics::log_beside(path)
    }

    /// The files that stand next to the configuration.
    pub fn next_to_config(path: &str, credentials: bool) -> (stores: RuntimeStores)
        ensures
            stores.stand_beside(path@, credentials),
    {
        RuntimeStores {
            state: Some(ScheduleStateStore::next_to_config(path)),
            history: Some(BackupHistoryStore::next_to_config(path)),
            config: Some(LocalConfigStore::new(path)),
            credentials,
            diagnostics: Some(DiagnosticLog::next_to_config(path)),
        }
    }
}

/// A line for the operational log.
#[derive(Debug, PartialEq, Eq)]
pub struct Diagnostic {
    pub level: DiagnosticLevel,
    pub event_id: &'static str,
    pub message: &'static str,
    pub code: Option<String>,
}

impl Diagnostic {
    pub open spec fn reads(
        self,
        level: DiagnosticLevel,
        event_id: Seq<char>,
        message: Seq<char>,
        code: Option<Seq<char>>,
    ) -> bool {
        &&& self.level == level
        &&& self.event_id@ == event_id
        &&& self.message@ == message
        &&& chars_of(self.code) == code
    }
}

/// The part of the status that a hold covers up.
pub struct HeldStatus {
    pub state: BackupState,
    pub next_deadline: Option<i128>,
}

/// Everything that changes while the service runs, apart from its configuration.
pub struct RuntimeState {
    pub status: ServiceStatus,
    pub resumed_at: Option<i128>,
    pub not_before: Option<i128>,
    pub update_hold_until: Option<i128>,
    pub update_hold_previous_status: Option<HeldStatus>,
    pub update_install_active: bool,
    pub manual_requested: bool,
    pub consecutive_failures: u32,
    pub repository_operation: RepositoryOperationStatus,
    pub service_state: ServiceStateSnapshot,
    pub management_operation_active: bool,
    pub restore_operation_active: bool,
    pub restore_queries: BTreeMap<u64, RestoreQueryView>,
    pub restore_query_snapshot_ids: BTreeMap<u64, String>,
    /// What may be opened or restored, by snapshot and by path in it.
    pub authorized_restore_nodes: Table<RestoreNodeType>,
    pub active_restore_query: Option<u64>,
    pub restore_status: RestoreStatusView,
    pub next_restore_identifier: u64,
}

impl RuntimeState {
    /// What holds in every state of the service.
    pub open spec fn well_formed(self) -> bool {
        &&& self.authorized_restore_nodes.well_formed()
        &&& self.restore_queries@.dom().len() <= MAX_RETAINED_RESTORE_QUERIES
        &&& self.authorized_restore_nodes.keys().len() <= MAX_AUTHORIZED_RESTORE_NODES
    }

    /// An update is being installed, or is about to be.
    pub open spec fn update_pending(self, now: i128) -> bool {
        self.update_install_active || (self.update_hold_until is Some && self.update_hold_until->0
            > now)
    }

    /// A backup, a repository operation or anything else that a change of the
    /// management would disturb is under way.
    pub open spec fn is_busy(self, now: i128) -> bool {
        ||| self.status.state is Running
        ||| self.repository_operation is Running
        ||| self.management_operation_active
        ||| self.restore_operation_active
        ||| self.update_pending(now)
    }

    pub fn has_pending_update(&self, now: i128) -> (pending: bool)
        ensures
            pending == self.update_pending(now),
    {
        let held = match self.update_hold_until {
            Some(deadline) => deadline > now,
            None => false,
        };
        self.update_install_active || held
    }

    pub fn busy(&self, now: i128) -> (busy: bool)
        ensures
            busy == self.is_busy(now),
    {
        self.status.state.is_running() || self.repository_operation.is_running()
            || self.management_operation_active || self.restore_operation_active
            || self.has_pending_update(now)
    }
}

/// The later of two times.
pub open spec fn later(left: i128, right: i128) -> i128 {
    if left < right {
        right
    } else {
        left
    }
}

/// The state once `config` is in effect. A configured machine whose repository
/// is not verified waits for that; a machine that is not configured has no deadline.
pub open spec fn configured_state(
    state: RuntimeState,
    config: EffectiveConfig,
    now: i128,
) -> RuntimeState {
    let named = ServiceStatus {
        repository_display_name: config.repository.display_name,
        repository_mode: config.repository.mode,
        ..state.status
    };
    if !config.configured() {
        RuntimeState {
            status: ServiceStatus {
                next_deadline: None,
                ..transitioned(named, BackupState::Unconfigured, now)
            },
            manual_requested: false,
            not_before: None,
            ..state
        }
    } else if !state.repository_operation.allows_backup() {
        RuntimeState {
            status: ServiceStatus {
                next_deadline: None,
                ..transitioned(
                    named,
                    BackupState::Waiting { reason: WaitingReason::RepositoryValidation },
                    now,
                )
            },
            ..state
        }
    } else {
        let scheduled = deadline_after(
            state.status.last_success,
            now,
            config.schedule.interval_hours,
        );
        let dated = ServiceStatus {
            next_deadline: Some(
                match state.not_before {
                    Some(not_before) => later(scheduled, not_before),
                    None => scheduled,
                },
            ),
            ..named
        };
        RuntimeState {
            status: if state.status.state is Unconfigured || state.status.state == (
            BackupState::Waiting { reason: WaitingReason::RepositoryValidation }) {
                ServiceStatus { state: BackupState::Idle, state_since: now, ..dated }
            } else {
                dated
            },
            ..state
        }
    }
}

fn waits_for_validation(state: &BackupState) -> (waits: bool)
    ensures
        waits == (*state == (BackupState::Waiting { reason: WaitingReason::RepositoryValidation })),
{
    match state {
        BackupState::Waiting { reason } => *reason == WaitingReason::RepositoryValidation,
        _ => false,
    }
}

/// Brings the status in line with the configuration.
pub fn apply_configuration_status(state: &mut RuntimeState, config: &EffectiveConfig, now: i128)
    ensures
        *final(state) == configured_state(*old(state), *config, now),
{
    state.status.repository_display_name = copy_text(&config.repository.display_name);
    state.status.repository_mode = config.repository.mode;
    if config.is_configured() {
        if !repository_operation_allows_backup(&state.repository_operation) {
            transition_state(
                &mut state.status,
                BackupState::Waiting { reason: WaitingReason::RepositoryValidation },
                now,
            );
            state.status.next_deadline = None;
            return ;
        }
        let scheduled = completion_deadline(
            state.status.last_success,
            now,
            config.schedule.interval_hours,
        );
        state.status.next_deadline = Some(
            match state.not_before {
                Some(not_before) => if scheduled < not_before {
                    not_before
                } else {
                    scheduled
                },
                None => scheduled,
            },
        );
        let unconfigured = match &state.status.state {
            BackupState::Unconfigured => true,
            _ => false,
        };
        if unconfigured || waits_for_validation(&state.status.state) {
            transition_state(&mut state.status, BackupState::Idle, now);
        }
    } else {
        transition_state(&mut state.status, BackupState::Unconfigured, now);
        state.status.next_deadline = None;
        state.manual_requested = false;
        state.not_before = None;
    }
}

/// A configuration as policy, local settings and defaults resolve to it.
pub struct ResolvedConfig {
    pub effective: EffectiveConfig,
    pub managed_revision: Option<String>,
    pub fields: Vec<(PolicyField, FieldResolution)>,
}

/// The running service.
pub struct ServiceRuntime {
    pub config: EffectiveConfig,
    pub local_config: LocalConfig,
    pub field_resolutions: Vec<(PolicyField, FieldResolution)>,
    pub stores: RuntimeStores,
    pub state: RuntimeState,
}

/// What the connection is known as when the service starts.
pub open spec fn starting_operation(
    service_state: ServiceStateSnapshot,
    config: EffectiveConfigView,
) -> RepositoryOperationStatus {
    if service_state.requires_validation(config) {
        RepositoryOperationStatus::ValidationRequired
    } else if service_state.verifies(config) {
        RepositoryOperationStatus::Succeeded {
            operation: RepositoryOperationKind::Validate,
            completed_at: service_state.verified_repository->0.verified_at,
        }
    } else {
        RepositoryOperationStatus::NotRun
    }
}

/// The status in which the service starts.
pub open spec fn starting_status(
    resolved: ResolvedConfig,
    service_state: ServiceStateSnapshot,
    now: i128,
) -> ServiceStatus {
    let config = resolved.effective;
    let ready = starting_operation(service_state, config@).allows_backup();
    ServiceStatus {
        state: if config.configured() && !ready {
            BackupState::Waiting { reason: WaitingReason::RepositoryValidation }
        } else if config.configured() {
            BackupState::Idle
        } else {
            BackupState::Unconfigured
        },
        state_since: now,
        last_attempt: None,
        last_success: service_state.last_success,
        next_deadline: if config.configured() && ready {
            Some(
                deadline_after(service_state.last_success, now, config.schedule.interval_hours),
            )
        } else {
            None
        },
        repository_display_name: config.repository.display_name,
        repository_mode: config.repository.mode,
        managed_revision: resolved.managed_revision,
        progress: None,
    }
}

impl RuntimeState {
    /// Nothing has happened since the service started.
    pub open spec fn is_fresh(self) -> bool {
        &&& self.resumed_at is None
        &&& self.not_before is None
        &&& self.update_hold_until is None
        &&& self.update_hold_previous_status is None
        &&& !self.update_install_active
        &&& !self.manual_requested
        &&& self.consecutive_failures == 0
        &&& !self.management_operation_active
        &&& !self.restore_operation_active
        &&& self.restore_queries@ == Map::<u64, RestoreQueryView>::empty()
        &&& self.restore_query_snapshot_ids@ == Map::<u64, String>::empty()
        &&& self.authorized_restore_nodes@ == Map::<
            (Seq<char>, Seq<char>),
            RestoreNodeType,
        >::empty()
        &&& self.active_restore_query is None
        &&& self.restore_status == RestoreStatusView::spec_idle()
        &&& self.next_restore_identifier == 1
    }

    fn fresh(
        status: ServiceStatus,
        repository_operation: RepositoryOperationStatus,
        service_state: ServiceStateSnapshot,
    ) -> (state: RuntimeState)
        ensures
            state.is_fresh(),
            state.well_formed(),
            state.status == status,
            state.repository_operation == repository_operation,
            state.service_state == service_state,
    {
        RuntimeState {
            status,
            resumed_at: None,
            not_before: None,
            update_hold_until: None,
            update_hold_previous_status: None,
            update_install_active: false,
            manual_requested: false,
            consecutive_failures: 0,
            repository_operation,
            service_state,
            management_operation_active: false,
            restore_operation_active: false,
            restore_queries: BTreeMap::new(),
            restore_query_snapshot_ids: BTreeMap::new(),
            authorized_restore_nodes: Table::new(),
            active_restore_query: None,
            restore_status: RestoreStatusView::idle(),
            next_restore_identifier: 1,
        }
    }
}

/// What the service remembers when it starts. Where its file could not be read
/// nothing is taken on trust, so a configured repository has to be validated.
pub fn starting_memory(loaded: Option<ServiceStateSnapshot>) -> (snapshot: (
    ServiceStateSnapshot,
    Option<Diagnostic>,
))
    ensures
        loaded is Some ==> snapshot.0 == loaded->0 && snapshot.1 is None,
        loaded is None ==> {
            &&& snapshot.0.remembers_nothing()
            &&& forall|config: EffectiveConfigView|
                config.url is Some ==> #[trigger] snapshot.0.requires_validation(config)
            &&& snapshot.1 is Some
            &&& snapshot.1->0.reads(
                DiagnosticLevel::Warning,
                "state.load_failed"@,
                "Service state could not be loaded; repository validation is required."@,
                Some("state_load_failed"@),
            )
        },
{
    match loaded {
        Some(snapshot) => (snapshot, None),
        None => (
            ServiceStateSnapshot::new(),
            Some(
                Diagnostic {
                    level: DiagnosticLevel::Warning,
                    event_id: "state.load_failed",
                    message: "Service state could not be loaded; repository validation is required.",
                    code: Some("state_load_failed".to_owned()),
                },
            ),
        ),
    }
}

impl ServiceRuntime {
    pub open spec fn well_formed(self) -> bool {
        self.state.well_formed()
    }

    /// `self` is `before` with another state.
    pub open spec fn only_state_changed(self, before: ServiceRuntime) -> bool {
        self == (ServiceRuntime { state: self.state, ..before })
    }

    /// The service as it starts with a configuration and what it remembers.
    pub fn from_resolved_with_state(
        resolved: ResolvedConfig,
        local_config: LocalConfig,
        service_state: ServiceStateSnapshot,
        stores: RuntimeStores,
        now: i128,
    ) -> (runtime: ServiceRuntime)
        ensures
            runtime.well_formed(),
            runtime.config == resolved.effective,
            runtime.local_config == local_config,
            runtime.field_resolutions == resolved.fields,
            runtime.stores == stores,
            runtime.state.is_fresh(),
            runtime.state.service_state == service_state,
            runtime.state.repository_operation == starting_operation(
                service_state,
                resolved.effective@,
            ),
            runtime.state.status == starting_status(resolved, service_state, now),
    {
        let config = resolved.effective;
        let configured = config.is_configured();
        let last_success = service_state.last_success;
        let repository_operation = if service_state.repository_requires_validation(&config) {
            RepositoryOperationStatus::ValidationRequired
        } else {
            match service_state.repository_verified_at(&config) {
                Some(completed_at) => RepositoryOperationStatus::Succeeded {
                    operation: RepositoryOperationKind::Validate,
                    completed_at,
                },
                None => RepositoryOperationStatus::NotRun,
            }
        };
        let ready = repository_operation_allows_backup(&repository_operation);
        let status = ServiceStatus {
            state: if configured && !ready {
                BackupState::Waiting { reason: WaitingReason::RepositoryValidation }
            } else if configured {
                BackupState::Idle
            } else {
                BackupState::Unconfigured
            },
            state_since: now,
            last_attempt: None,
            last_success,
            next_deadline: if configured && ready {
                Some(completion_deadline(last_success, now, config.schedule.interval_hours))
            } else {
                None
            },
            repository_display_name: copy_text(&config.repository.display_name),
            repository_mode: config.repository.mode,
            managed_revision: resolved.managed_revision,
            progress: None,
        };
        ServiceRuntime {
            config,
            local_config,
            field_resolutions: resolved.fields,
            stores,
            state: RuntimeState::fresh(status, repository_operation, service_state),
        }
    }

    /// A service without files whose repository, where it has one, is verified.
    pub fn from_resolved(resolved: ResolvedConfig, local_config: LocalConfig, now: i128) -> (runtime:
        ServiceRuntime)
        ensures
            runtime.well_formed(),
            runtime.config == resolved.effective,
            runtime.local_config == local_config,
            runtime.field_resolutions == resolved.fields,
            runtime.stores.keep_nothing(),
            runtime.state.is_fresh(),
            ({
                let memory = runtime.state.service_state;
                &&& resolved.effective@.url is Some ==> memory.verifies(resolved.effective@)
                    && memory.verified_repository->0.verified_at == now
                &&& (ServiceStateSnapshot {
                    verified_repository: None,
                    ..memory
                }).remembers_nothing()
                &&& resolved.effective@.url is None ==> memory.remembers_nothing()
                &&& runtime.state.repository_operation == starting_operation(
                    memory,
                    resolved.effective@,
                )
                &&& runtime.state.status == starting_status(resolved, memory, now)
            }),
            resolved.effective@.url is Some ==> runtime.state.repository_operation.allows_backup(),
    {
        let mut service_state = ServiceStateSnapshot::new();
        if resolved.effective.repository.url.is_some() {
            service_state.mark_repository_verified(&resolved.effective, now);
        }
        ServiceRuntime::from_resolved_with_state(
            resolved,
            local_config,
            service_state,
            RuntimeStores::none(),
            now,
        )
    }

    /// The service as it starts where its configuration could not be read: it
    /// runs nothing, and says why.
    pub fn configuration_error(
        path: &str,
        defaults: EffectiveConfig,
        local_defaults: LocalConfig,
        credentials: bool,
        now: i128,
    ) -> (started: (ServiceRuntime, Diagnostic))
        ensures
            started.0.well_formed(),
            started.0.config == defaults,
            started.0.local_config == local_defaults,
            started.0.field_resolutions@.len() == 0,
            started.0.stores.stand_beside(path@, credentials),
            started.0.state.is_fresh(),
            started.0.state.repository_operation is NotRun,
            started.0.state.service_state.remembers_nothing(),
            ({
                let status = started.0.state.status;
                &&& status.state is Failed
                &&& status.state->code@ == "configuration_invalid"@
                &&& status == (ServiceStatus {
                    state: status.state,
                    state_since: now,
                    last_attempt: None,
                    last_success: None,
                    next_deadline: None,
                    repository_display_name: None,
                    repository_mode: RepositoryMode::Standard,
                    managed_revision: None,
                    progress: None,
                })
            }),
            started.1.reads(
                DiagnosticLevel::Error,
                "configuration.invalid"@,
                "The service configuration is invalid."@,
                Some("configuration_invalid"@),
            ),
    {
        let status = ServiceStatus {
            state: BackupState::Failed { code: "configuration_invalid".to_owned() },
            state_since: now,
            last_attempt: None,
            last_success: None,
            next_deadline: None,
            repository_display_name: None,
            repository_mode: RepositoryMode::Standard,
            managed_revision: None,
            progress: None,
        };
        let runtime = ServiceRuntime {
            config: defaults,
            local_config: local_defaults,
            field_resolutions: Vec::new(),
            stores: RuntimeStores::next_to_config(path, credentials),
            state: RuntimeState::fresh(
                status,
                RepositoryOperationStatus::NotRun,
                ServiceStateSnapshot::new(),
            ),
        };
        (
            runtime,
            Diagnostic {
                level: DiagnosticLevel::Error,
                event_id: "configuration.invalid",
                message: "The service configuration is invalid.",
                code: Some("configuration_invalid".to_owned()),
            },
        )
    }

    pub fn status(&self) -> (status: ServiceStatus)
        ensures
            status == self.state.status,
    {
        self.state.status.clone()
    }

    pub fn config(&self) -> (config: EffectiveConfig)
        ensures
            config@ == self.config@,
    {
        self.config.clone()
    }

    /// Whether policy locks a field.
    pub open spec fn locked(self, field: PolicyField) -> bool {
        locks(self.field_resolutions@, field)
    }

    pub fn field_locked(&self, field: PolicyField) -> (locked: bool)
        ensures
            locked == self.locked(field),
    {
        field_locked(&self.field_resolutions, field)
    }
}

} // verus!

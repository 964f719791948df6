//! What the service answers to a client. What needs the host, a file to read
//! or a configuration to save, is handed out as a step; the rest is answered
//! on the spot.
use super::events::RuntimeEvent;
use super::lifecycle::{release_hold, released};
use super::repository::RepositoryChange;
use super::settings::{ChangeKind, ConfigurationChange};
use super::state::{RuntimeState, ServiceRuntime};
use super::updates::{held, MAX_UPDATE_HOLD_SECONDS};
use crate::config::{
    texts_of, EffectiveConfigView, LocalConfig, LocalConfigView, LocalManagementConfig,
    UpdateConfig,
};
use crate::diagnostics::{DiagnosticEntry, MAX_DIAGNOSTIC_RESULTS};
use crate::history::{BackupRunRecord, StoredRunFailureDetails, MAX_HISTORY_RESULTS};
use crate::protocol::{
    administrator_required, rejected, repository_operation_allows_backup, BackupRunFailureDetails,
    ClientIdentity, RepositoryOperationKind, Request, RequestCommand, ResponsePayload,
};
use crate::rejection::Rejection;
use crate::sources::{distinct_exclusions, distinct_paths};
use crate::status::ServiceStatus;
use crate::text;
use crate::time::{move_or, moved_or, SECONDS_PER_MINUTE};
use crate::updater::package_error;
use vstd::prelude::*;

verus! {

/// The longest deferral of a backup: one day.
pub const MAX_DEFERRAL_MINUTES: u32 = 1440;

/// What the host does for a request.
#[allow(inconsistent_fields)]
pub enum RequestStep {
    /// Sends the answer.
    Reply { payload: ResponsePayload },
    /// Tells the event loop; where it listens the answer is the message, else
    /// `undelivered` answers.
    Deliver { event: RuntimeEvent, message: String },
    ReadHistory { limit: usize },
    ReadFailureDetails { run_id: u64 },
    ReadDiagnostics { limit: usize },
    DiscoverSources,
    /// Joins the server at this one-time address.
    Enroll { bootstrap_url: String },
    /// Leaves the server, with this configuration.
    Unenroll { local: LocalConfig },
    /// Validates a change where it has to be, admits, saves and commits it.
    Change { change: ConfigurationChange },
    /// Validates, admits, saves and commits a change of the repository.
    ChangeRepository { change: RepositoryChange },
    /// Saves the state of the service and tells the event loop.
    RunOperation { operation: RepositoryOperationKind },
}

impl RequestStep {
    pub open spec fn rejects(self, rejection: Rejection) -> bool {
        self matches RequestStep::Reply { payload } && payload.rejects(rejection)
    }

    pub open spec fn delivers(self, event: RuntimeEvent, message: Seq<char>) -> bool {
        self matches RequestStep::Deliver { event: delivered, message: said } && delivered == event
            && said@ == message
    }
}

/// The state once a backup was asked for.
pub open spec fn backup_requested(state: RuntimeState) -> RuntimeState {
    RuntimeState { manual_requested: true, not_before: None, ..state }
}

/// The state once backups were put off.
pub open spec fn backup_deferred(state: RuntimeState, minutes: u32, now: i128) -> RuntimeState {
    let deadline = moved_or(now, (minutes * SECONDS_PER_MINUTE) as i64, now);
    RuntimeState {
        manual_requested: false,
        not_before: Some(deadline),
        status: ServiceStatus { next_deadline: Some(deadline), ..state.status },
        ..state
    }
}

impl ServiceRuntime {
    /// Why a backup is not started at once.
    pub open spec fn run_refusal(self, now: i128) -> Option<Rejection> {
        if !self.config.configured() {
            Some(Rejection::NotConfigured)
        } else if !self.state.repository_operation.allows_backup() {
            Some(Rejection::RepositoryNotReadyToStart)
        } else if self.state.status.state is Running {
            Some(Rejection::AlreadyRunning)
        } else if self.state.update_pending(now) {
            Some(Rejection::UpdatePending)
        } else {
            None
        }
    }

    /// Why backups are not put off.
    pub open spec fn deferral_refusal(self, minutes: u32) -> Option<Rejection> {
        if minutes == 0 || minutes > MAX_DEFERRAL_MINUTES {
            Some(Rejection::InvalidDeferral)
        } else if !self.config.configured() {
            Some(Rejection::NotConfigured)
        } else if !self.state.repository_operation.allows_backup() {
            Some(Rejection::RepositoryNotReadyToDefer)
        } else if self.state.status.state is Running {
            Some(Rejection::RunningBackupDeferred)
        } else {
            None
        }
    }

    /// Why the history is not read.
    pub open spec fn history_refusal(self, limit: u16) -> Option<Rejection> {
        if limit == 0 || limit as int > MAX_HISTORY_RESULTS {
            Some(Rejection::InvalidHistoryLimit)
        } else if self.stores.history is None {
            Some(Rejection::HistoryMissing)
        } else {
            None
        }
    }

    /// Why the files of a backup that failed are not shown.
    pub open spec fn failure_details_refusal(self, identity: ClientIdentity) -> Option<Rejection> {
        if !identity.is_elevated_administrator {
            Some(Rejection::AdministratorRequired)
        } else if self.stores.history is None {
            Some(Rejection::HistoryMissing)
        } else {
            None
        }
    }

    /// Why the operational log is not shown.
    pub open spec fn diagnostics_refusal(self, limit: u16, identity: ClientIdentity) -> Option<
        Rejection,
    > {
        if !identity.is_elevated_administrator {
            Some(Rejection::AdministratorRequired)
        } else if limit == 0 || limit as int > MAX_DIAGNOSTIC_RESULTS {
            Some(Rejection::InvalidDiagnosticsLimit)
        } else if self.stores.diagnostics is None {
            Some(Rejection::DiagnosticsMissing)
        } else {
            None
        }
    }

    /// `step` is what a change of a setting comes to, where `refusal` says why
    /// it is not planned.
    pub open spec fn plans_change(
        step: RequestStep,
        refusal: Option<Rejection>,
        kind: ChangeKind,
        local: LocalConfigView,
        effective: EffectiveConfigView,
    ) -> bool {
        match refusal {
            Some(rejection) => step.rejects(rejection),
            None => {
                &&& step matches RequestStep::Change { change }
                &&& change.kind == kind
                &&& change.local@ == local
                &&& change.effective@ == effective
            },
        }
    }

    /// `step` is what a request comes to that changes nothing by itself.
    pub open spec fn looks_up(
        self,
        command: RequestCommand,
        identity: ClientIdentity,
        now: i128,
        step: RequestStep,
    ) -> bool {
        let admin = identity.is_elevated_administrator;
        match command {
            RequestCommand::GetStatus => step == (RequestStep::Reply {
                payload: ResponsePayload::Status { status: self.state.status },
            }),
            RequestCommand::GetManagement => if admin {
                step matches RequestStep::Reply {
                    payload: ResponsePayload::Management { configuration },
                } && self.shows_management(configuration)
            } else {
                step.rejects(Rejection::AdministratorRequired)
            },
            RequestCommand::Unenroll => match self.unenroll_refusal(identity, now) {
                Some(rejection) => step.rejects(rejection),
                None => if self.local_config.management.mode is Disabled {
                    step matches RequestStep::Reply { payload } && payload.accepts(
                        "This device is already unmanaged."@,
                    )
                } else {
                    step matches RequestStep::Unenroll { local } && local@ == (LocalConfigView {
                        management: LocalManagementConfig::unmanaged(),
                        ..self.local_config@
                    })
                },
            },
            RequestCommand::GetRunHistory { limit } => match self.history_refusal(limit) {
                Some(rejection) => step.rejects(rejection),
                None => step == (RequestStep::ReadHistory { limit: limit as usize }),
            },
            RequestCommand::GetRunFailureDetails { run_id } => match self.failure_details_refusal(
                identity,
            ) {
                Some(rejection) => step.rejects(rejection),
                None => step == (RequestStep::ReadFailureDetails { run_id }),
            },
            RequestCommand::GetDiagnostics { limit } => match self.diagnostics_refusal(
                limit,
                identity,
            ) {
                Some(rejection) => step.rejects(rejection),
                None => step == (RequestStep::ReadDiagnostics { limit: limit as usize }),
            },
            RequestCommand::GetBackupSources => if admin {
                step matches RequestStep::Reply {
                    payload: ResponsePayload::BackupSources { configuration },
                } && self.shows_sources(configuration)
            } else {
                step.rejects(Rejection::AdministratorRequired)
            },
            RequestCommand::DiscoverBackupSources => if admin {
                step is DiscoverSources
            } else {
                step.rejects(Rejection::AdministratorRequired)
            },
            RequestCommand::UpdateBackupSources { paths, exclusions } => Self::plans_change(
                step,
                self.sources_refusal(paths is Some, exclusions is Some, identity, now),
                ChangeKind::Sources,
                LocalConfigView {
                    paths: match paths {
                        Some(paths) => Some(distinct_paths(texts_of(paths@))),
                        None => self.local_config@.paths,
                    },
                    exclusions: match exclusions {
                        Some(exclusions) => Some(distinct_exclusions(texts_of(exclusions@))),
                        None => self.local_config@.exclusions,
                    },
                    ..self.local_config@
                },
                EffectiveConfigView {
                    paths: match paths {
                        Some(paths) => distinct_paths(texts_of(paths@)),
                        None => self.config@.paths,
                    },
                    exclusions: match exclusions {
                        Some(exclusions) => distinct_exclusions(texts_of(exclusions@)),
                        None => self.config@.exclusions,
                    },
                    ..self.config@
                },
            ),
            RequestCommand::GetRepository => if admin {
                step matches RequestStep::Reply {
                    payload: ResponsePayload::Repository { configuration },
                } && self.shows_repository(configuration)
            } else {
                step.rejects(Rejection::AdministratorRequired)
            },
            RequestCommand::UpdateRepository { update } => match self.repository_refusal(
                update,
                identity,
                now,
            ) {
                Some(rejection) => step.rejects(rejection),
                None => {
                    &&& step matches RequestStep::ChangeRepository { change }
                    &&& change.is_applied_to(self.effective_over(update), self.local_over(update))
                    &&& change.applied == 0
                    &&& change.secret_updates == update.secret_updates
                    &&& change.connection_changed == update.changes_connection()
                    &&& change.created@.len() == 0
                    &&& change.retired@.len() == 0
                },
            },
            RequestCommand::GetSchedule => if admin {
                step matches RequestStep::Reply {
                    payload: ResponsePayload::Schedule { configuration },
                } && self.shows_schedule(configuration)
            } else {
                step.rejects(Rejection::AdministratorRequired)
            },
            RequestCommand::UpdateSchedule { update } => Self::plans_change(
                step,
                self.schedule_refusal(update, identity, now),
                ChangeKind::Schedule,
                LocalConfigView {
                    schedule: update.over_local(self.local_config.schedule),
                    ..self.local_config@
                },
                EffectiveConfigView {
                    schedule: update.over_effective(self.config.schedule),
                    ..self.config@
                },
            ),
            RequestCommand::GetRetention => if admin {
                step matches RequestStep::Reply {
                    payload: ResponsePayload::Retention { configuration },
                } && self.shows_retention(configuration)
            } else {
                step.rejects(Rejection::AdministratorRequired)
            },
            RequestCommand::UpdateRetention { update } => Self::plans_change(
                step,
                self.retention_refusal(update, identity, now),
                ChangeKind::Retention,
                LocalConfigView {
                    retention: update.over_local(self.local_config.retention),
                    ..self.local_config@
                },
                EffectiveConfigView {
                    retention: update.over_effective(self.config.retention),
                    ..self.config@
                },
            ),
            RequestCommand::CancelBackup => if self.state.status.state is Running {
                step.delivers(RuntimeEvent::Cancel, "Cancellation requested."@)
            } else {
                step.rejects(Rejection::NotRunning)
            },
            RequestCommand::GetUpdateSettings => step matches RequestStep::Reply {
                payload: ResponsePayload::UpdateSettings { configuration },
            } && self.shows_update_settings(configuration),
            RequestCommand::UpdateUpdateSettings { automatic_install } => Self::plans_change(
                step,
                self.update_setting_refusal(identity, now),
                ChangeKind::Updates { automatic_install },
                LocalConfigView {
                    automatic_install: Some(automatic_install),
                    ..self.local_config@
                },
                EffectiveConfigView {
                    updates: UpdateConfig { automatic_install },
                    ..self.config@
                },
            ),
            _ => true,
        }
    }

    /// The requests that change the state of the service by themselves.
    pub open spec fn is_action(command: RequestCommand) -> bool {
        ||| command is Enroll
        ||| command is ValidateRepository
        ||| command is InitializeRepository
        ||| command is RunBackupNow
        ||| command is DeferBackup
        ||| command is PrepareForUpdate
        ||| command is InstallUpdate
    }

    /// `step` is what a request comes to that changes the state, and `after`
    /// is the state with it.
    pub open spec fn acts(
        self,
        command: RequestCommand,
        identity: ClientIdentity,
        now: i128,
        step: RequestStep,
        after: RuntimeState,
    ) -> bool {
        let operates = |operation: RepositoryOperationKind|
            match self.operation_refusal(operation, identity, now) {
                Some(rejection) => step.rejects(rejection) && after == self.state,
                None => step == (RequestStep::RunOperation { operation }) && after
                    == super::repository::after_operation_request(
                    self.state,
                    self.config,
                    operation,
                    now,
                ),
            };
        match command {
            RequestCommand::Enroll { bootstrap_url } => match self.enroll_refusal(
                bootstrap_url@,
                identity,
                now,
            ) {
                Some(rejection) => step.rejects(rejection) && after == self.state,
                None => {
                    &&& step matches RequestStep::Enroll { bootstrap_url: url }
                    &&& url@ == vstd::utf8::decode_utf8(bootstrap_url@)
                    &&& after == (RuntimeState { management_operation_active: true, ..self.state })
                },
            },
            RequestCommand::ValidateRepository => operates(RepositoryOperationKind::Validate),
            RequestCommand::InitializeRepository => operates(RepositoryOperationKind::Initialize),
            RequestCommand::RunBackupNow => match self.run_refusal(now) {
                Some(rejection) => step.rejects(rejection) && after == self.state,
                None => {
                    &&& step.delivers(
                        RuntimeEvent::RunNow,
                        "Backup requested. Waiting for the service to start."@,
                    )
                    &&& after == backup_requested(self.state)
                },
            },
            RequestCommand::DeferBackup { minutes } => match self.deferral_refusal(minutes) {
                Some(rejection) => step.rejects(rejection) && after == self.state,
                None => {
                    &&& step.delivers(RuntimeEvent::Deferred, "Backup deferred."@)
                    &&& after == backup_deferred(self.state, minutes, now)
                },
            },
            RequestCommand::PrepareForUpdate { hold_seconds } => match self.hold_refusal(
                hold_seconds,
                identity,
                now,
            ) {
                Some(rejection) => step.rejects(rejection) && after == self.state,
                None => {
                    &&& step matches RequestStep::Reply { payload }
                    &&& payload.accepts("Backups are held briefly while the update starts."@)
                    &&& after == held(self.state, hold_seconds, false, now)
                },
            },
            RequestCommand::InstallUpdate { package } => match self.install_refusal(
                package_error(package) is None,
                now,
            ) {
                Some(rejection) => step.rejects(rejection) && after == self.state,
                None => {
                    &&& step.delivers(
                        RuntimeEvent::UpdateInstallRequested(package),
                        "resticpal "@ + package.version@
                            + " will download and install silently after signature verification."@,
                    )
                    &&& after == held(self.state, MAX_UPDATE_HOLD_SECONDS, true, now)
                },
            },
            _ => true,
        }
    }

    fn reply_to_admin(identity: ClientIdentity, payload: ResponsePayload) -> (step: RequestStep)
        ensures
            identity.is_elevated_administrator ==> step == (RequestStep::Reply { payload }),
            !identity.is_elevated_administrator ==> step.rejects(Rejection::AdministratorRequired),
    {
        if identity.is_elevated_administrator {
            RequestStep::Reply { payload }
        } else {
            RequestStep::Reply { payload: administrator_required() }
        }
    }

    fn plan_or_reply(planned: Result<ConfigurationChange, ResponsePayload>) -> (step: RequestStep)
        ensures
            match planned {
                Ok(change) => step == (RequestStep::Change { change }),
                Err(payload) => step == (RequestStep::Reply { payload }),
            },
    {
        match planned {
            Ok(change) => RequestStep::Change { change },
            Err(payload) => RequestStep::Reply { payload },
        }
    }

    fn look_up(&self, command: RequestCommand, identity: ClientIdentity, now: i128) -> (step:
        RequestStep)
        requires
            !Self::is_action(command),
        ensures
            self.looks_up(command, identity, now, step),
    {
        match command {
            RequestCommand::GetStatus => RequestStep::Reply {
                payload: ResponsePayload::Status { status: self.status() },
            },
            RequestCommand::GetManagement => Self::reply_to_admin(
                identity,
                ResponsePayload::Management { configuration: self.management_view() },
            ),
            RequestCommand::Unenroll => match self.unenroll(identity, now) {
                Ok(local) => RequestStep::Unenroll { local },
                Err(payload) => RequestStep::Reply { payload },
            },
            RequestCommand::GetRunHistory { limit } => {
                let limit = limit as usize;
                if limit == 0 || limit > MAX_HISTORY_RESULTS {
                    RequestStep::Reply { payload: rejected(Rejection::InvalidHistoryLimit) }
                } else if self.stores.history.is_some() {
                    RequestStep::ReadHistory { limit }
                } else {
                    RequestStep::Reply { payload: rejected(Rejection::HistoryMissing) }
                }
            },
            RequestCommand::GetRunFailureDetails { run_id } => if !identity.is_elevated_administrator {
                RequestStep::Reply { payload: administrator_required() }
            } else if self.stores.history.is_some() {
                RequestStep::ReadFailureDetails { run_id }
            } else {
                RequestStep::Reply { payload: rejected(Rejection::HistoryMissing) }
            },
            RequestCommand::GetDiagnostics { limit } => {
                let limit = limit as usize;
                if !identity.is_elevated_administrator {
                    RequestStep::Reply { payload: administrator_required() }
                } else if limit == 0 || limit > MAX_DIAGNOSTIC_RESULTS {
                    RequestStep::Reply { payload: rejected(Rejection::InvalidDiagnosticsLimit) }
                } else if self.stores.diagnostics.is_some() {
                    RequestStep::ReadDiagnostics { limit }
                } else {
                    RequestStep::Reply { payload: rejected(Rejection::DiagnosticsMissing) }
                }
            },
            RequestCommand::GetBackupSources => Self::reply_to_admin(
                identity,
                ResponsePayload::BackupSources { configuration: self.backup_sources_view() },
            ),
            RequestCommand::DiscoverBackupSources => if identity.is_elevated_administrator {
                RequestStep::DiscoverSources
            } else {
                RequestStep::Reply { payload: administrator_required() }
            },
            RequestCommand::UpdateBackupSources { paths, exclusions } => Self::plan_or_reply(
                self.update_backup_sources(paths, exclusions, identity, now),
            ),
            RequestCommand::GetRepository => Self::reply_to_admin(
                identity,
                ResponsePayload::Repository { configuration: self.repository_view() },
            ),
            RequestCommand::UpdateRepository { update } => match self.update_repository(
                update,
                identity,
                now,
            ) {
                Ok(change) => RequestStep::ChangeRepository { change },
                Err(payload) => RequestStep::Reply { payload },
            },
            RequestCommand::GetSchedule => Self::reply_to_admin(
                identity,
                ResponsePayload::Schedule { configuration: self.schedule_view() },
            ),
            RequestCommand::UpdateSchedule { update } => Self::plan_or_reply(
                self.update_schedule(update, identity, now),
            ),
            RequestCommand::GetRetention => Self::reply_to_admin(
                identity,
                ResponsePayload::Retention { configuration: self.retention_view() },
            ),
            RequestCommand::UpdateRetention { update } => Self::plan_or_reply(
                self.update_retention(update, identity, now),
            ),
            RequestCommand::CancelBackup => if self.state.status.state.is_running() {
                RequestStep::Deliver {
                    event: RuntimeEvent::Cancel,
                    message: "Cancellation requested.".to_owned(),
                }
            } else {
                RequestStep::Reply { payload: rejected(Rejection::NotRunning) }
            },
            RequestCommand::UpdateUpdateSettings { automatic_install } => Self::plan_or_reply(
                self.update_update_settings(automatic_install, identity, now),
            ),
            _ => RequestStep::Reply {
                payload: ResponsePayload::UpdateSettings {
                    configuration: self.update_settings_view(),
                },
            },
        }
    }

    fn request_operation(
        &mut self,
        operation: RepositoryOperationKind,
        identity: ClientIdentity,
        now: i128,
    ) -> (step: RequestStep)
        ensures
            final(self).only_state_changed(*old(self)),
            match old(self).operation_refusal(operation, identity, now) {
                Some(rejection) => step.rejects(rejection) && *final(self) == *old(self),
                None => step == (RequestStep::RunOperation { operation }) && final(self).state
                    == super::repository::after_operation_request(
                    old(self).state,
                    old(self).config,
                    operation,
                    now,
                ),
            },
    {
        match self.begin_repository_operation(operation, identity, now) {
            Some(payload) => RequestStep::Reply { payload },
            None => RequestStep::RunOperation { operation },
        }
    }

    fn request_backup(&mut self, now: i128) -> (step: RequestStep)
        ensures
            final(self).only_state_changed(*old(self)),
            match old(self).run_refusal(now) {
                Some(rejection) => step.rejects(rejection) && *final(self) == *old(self),
                None => {
                    &&& step.delivers(
                        RuntimeEvent::RunNow,
                        "Backup requested. Waiting for the service to start."@,
                    )
                    &&& final(self).state == backup_requested(old(self).state)
                },
            },
    {
        if !self.config.is_configured() {
            return RequestStep::Reply { payload: rejected(Rejection::NotConfigured) };
        }
        if !repository_operation_allows_backup(&self.state.repository_operation) {
            return RequestStep::Reply { payload: rejected(Rejection::RepositoryNotReadyToStart) };
        }
        if self.state.status.state.is_running() {
            return RequestStep::Reply { payload: rejected(Rejection::AlreadyRunning) };
        }
        if self.state.has_pending_update(now) {
            return RequestStep::Reply { payload: rejected(Rejection::UpdatePending) };
        }
        self.state.manual_requested = true;
        self.state.not_before = None;
        RequestStep::Deliver {
            event: RuntimeEvent::RunNow,
            message: "Backup requested. Waiting for the service to start.".to_owned(),
        }
    }

    fn defer_backup(&mut self, minutes: u32, now: i128) -> (step: RequestStep)
        ensures
            final(self).only_state_changed(*old(self)),
            match old(self).deferral_refusal(minutes) {
                Some(rejection) => step.rejects(rejection) && *final(self) == *old(self),
                None => {
                    &&& step.delivers(RuntimeEvent::Deferred, "Backup deferred."@)
                    &&& final(self).state == backup_deferred(old(self).state, minutes, now)
                },
            },
    {
        if minutes == 0 || minutes > MAX_DEFERRAL_MINUTES {
            return RequestStep::Reply { payload: rejected(Rejection::InvalidDeferral) };
        }
        if !self.config.is_configured() {
            return RequestStep::Reply { payload: rejected(Rejection::NotConfigured) };
        }
        if !repository_operation_allows_backup(&self.state.repository_operation) {
            return RequestStep::Reply { payload: rejected(Rejection::RepositoryNotReadyToDefer) };
        }
        if self.state.status.state.is_running() {
            return RequestStep::Reply { payload: rejected(Rejection::RunningBackupDeferred) };
        }
        let deadline = move_or(now, (minutes as i64) * SECONDS_PER_MINUTE, now);
        self.state.manual_requested = false;
        self.state.not_before = Some(deadline);
        self.state.status.next_deadline = Some(deadline);
        RequestStep::Deliver {
            event: RuntimeEvent::Deferred,
            message: "Backup deferred.".to_owned(),
        }
    }

    /// Answers a request, or hands out what the host has to do for it. A
    /// request changes the configuration only through the change that it plans,
    /// and the state only where it is one of the actions.
    pub fn handle_request(&mut self, request: Request, identity: ClientIdentity, now: i128) -> (handled:
        (u64, RequestStep))
        ensures
            handled.0 == request.request_id,
            final(self).only_state_changed(*old(self)),
            if Self::is_action(request.command) {
                old(self).acts(request.command, identity, now, handled.1, final(self).state)
            } else {
                &&& *final(self) == *old(self)
                &&& old(self).looks_up(request.command, identity, now, handled.1)
            },
            old(self).well_formed() ==> final(self).well_formed(),
    {
        let request_id = request.request_id;
        let step = match request.command {
            RequestCommand::Enroll { bootstrap_url } => match self.enroll(
                bootstrap_url.as_slice(),
                identity,
                now,
            ) {
                Ok(bootstrap_url) => RequestStep::Enroll { bootstrap_url },
                Err(payload) => RequestStep::Reply { payload },
            },
            RequestCommand::ValidateRepository => self.request_operation(
                RepositoryOperationKind::Validate,
                identity,
                now,
            ),
            RequestCommand::InitializeRepository => self.request_operation(
                RepositoryOperationKind::Initialize,
                identity,
                now,
            ),
            RequestCommand::RunBackupNow => self.request_backup(now),
            RequestCommand::DeferBackup { minutes } => self.defer_backup(minutes, now),
            RequestCommand::PrepareForUpdate { hold_seconds } => RequestStep::Reply {
                payload: self.prepare_for_update(hold_seconds, identity, now),
            },
            RequestCommand::InstallUpdate { package } => match self.begin_update_install(
                &package,
                now,
            ) {
                Some(payload) => RequestStep::Reply { payload },
                None => {
                    let front = text::joined("resticpal ", package.version.as_str());
                    let message = text::joined(
                        front.as_str(),
                        " will download and install silently after signature verification.",
                    );
                    RequestStep::Deliver {
                        event: RuntimeEvent::UpdateInstallRequested(package),
                        message,
                    }
                },
            },
            command => self.look_up(command, identity, now),
        };
        (request_id, step)
    }

    /// The answer where the event loop does not listen any more. What the
    /// request had set is taken back.
    pub fn undelivered(&mut self, event: &RuntimeEvent, now: i128) -> (payload: ResponsePayload)
        ensures
            final(self).only_state_changed(*old(self)),
            payload.rejects(Rejection::ServiceStopping),
            final(self).state == (match event {
                RuntimeEvent::RunNow => RuntimeState {
                    manual_requested: false,
                    ..old(self).state
                },
                RuntimeEvent::UpdateInstallRequested(_) => released(old(self).state, now),
                _ => old(self).state,
            }),
    {
        match event {
            RuntimeEvent::RunNow => {
                self.state.manual_requested = false;
            },
            RuntimeEvent::UpdateInstallRequested(_) => {
                release_hold(&mut self.state, now);
            },
            _ => {},
        }
        rejected(Rejection::ServiceStopping)
    }
}

/// The answer once the history was read.
pub fn history_reply(runs: Option<Vec<BackupRunRecord>>) -> (payload: ResponsePayload)
    ensures
        match runs {
            Some(runs) => payload == (ResponsePayload::RunHistory { runs }),
            None => payload.rejects(Rejection::HistoryUnreadable),
        },
{
    match runs {
        Some(runs) => ResponsePayload::RunHistory { runs },
        None => rejected(Rejection::HistoryUnreadable),
    }
}

/// The answer once the files of a backup were read: `Ok(None)` where the
/// history holds no such backup.
pub fn failure_details_reply(
    run_id: u64,
    details: Result<Option<StoredRunFailureDetails>, ()>,
) -> (payload: ResponsePayload)
    ensures
        match details {
            Ok(Some(details)) => payload == (ResponsePayload::RunFailureDetails {
                details: BackupRunFailureDetails {
                    run_id,
                    items: details.items,
                    omitted: details.omitted,
                },
            }),
            Ok(None) => payload.rejects(Rejection::HistoryRunNotFound),
            Err(_) => payload.rejects(Rejection::FailureDetailsUnreadable),
        },
{
    match details {
        Ok(Some(details)) => ResponsePayload::RunFailureDetails {
            details: BackupRunFailureDetails {
                run_id,
                items: details.items,
                omitted: details.omitted,
            },
        },
        Ok(None) => rejected(Rejection::HistoryRunNotFound),
        Err(_) => rejected(Rejection::FailureDetailsUnreadable),
    }
}

/// The answer once the operational log was read.
pub fn diagnostics_reply(entries: Option<Vec<DiagnosticEntry>>) -> (payload: ResponsePayload)
    ensures
        match entries {
            Some(entries) => payload == (ResponsePayload::Diagnostics { entries }),
            None => payload.rejects(Rejection::DiagnosticsUnreadable),
        },
{
    match entries {
        Some(entries) => ResponsePayload::Diagnostics { entries },
        None => rejected(Rejection::DiagnosticsUnreadable),
    }
}

/// The answer once the folders of the users were looked up.
pub fn discovery_reply(sources: Option<Vec<String>>) -> (payload: ResponsePayload)
    ensures
        match sources {
            Some(sources) => payload == (ResponsePayload::DiscoveredBackupSources { sources }),
            None => payload.rejects(Rejection::SourceDiscoveryFailed),
        },
{
    match sources {
        Some(sources) => ResponsePayload::DiscoveredBackupSources { sources },
        None => rejected(Rejection::SourceDiscoveryFailed),
    }
}

/// What anybody on the machine may ask for: the status, the summaries of
/// backups, a backup now, its end or its delay, the update setting, and the
/// installation of a signed update.
pub open spec fn is_for_everybody(command: RequestCommand) -> bool {
    ||| command is GetStatus
    ||| command is GetRunHistory
    ||| command is RunBackupNow
    ||| command is CancelBackup
    ||| command is DeferBackup
    ||| command is GetUpdateSettings
    ||| command is InstallUpdate
}

/// Everything else is refused to whoever is not an administrator, and changes
/// nothing.
pub proof fn the_rest_is_for_administrators(
    runtime: ServiceRuntime,
    command: RequestCommand,
    now: i128,
    step: RequestStep,
    after: RuntimeState,
)
    requires
        !is_for_everybody(command),
        ServiceRuntime::is_action(command) ==> runtime.acts(
            command,
            ClientIdentity { is_elevated_administrator: false },
            now,
            step,
            after,
        ),
        !ServiceRuntime::is_action(command) ==> runtime.looks_up(
            command,
            ClientIdentity { is_elevated_administrator: false },
            now,
            step,
        ),
    ensures
        step.rejects(Rejection::AdministratorRequired),
        ServiceRuntime::is_action(command) ==> after == runtime.state,
{
}

} // verus!

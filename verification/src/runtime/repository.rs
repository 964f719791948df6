//! Changes of the repository and its credentials, and the operations that test
//! or create it.
use super::events::RuntimeEvent;
use super::settings::{or_else, value_or};
use super::state::{
    apply_configuration_status, configured_state, RuntimeState, ServiceRuntime,
    ServiceStateSnapshot,
};
use crate::config::{
    chars_of, copy_options, options_of, refers_to, texts_of, EffectiveConfig, EffectiveConfigView,
    LocalConfig, LocalConfigView, PolicyField, SecretEnvironmentVariable, SecretRefs,
};
use crate::executor::ResticOperation;
use crate::outcome::holds_text;
use crate::protocol::{
    accepted, rejected, rejected_with, ClientIdentity, RepositoryOperationKind,
    RepositoryOperationStatus, RepositorySecretUpdate, RepositoryUpdate, ResponsePayload,
};
use crate::rejection::Rejection;
use crate::status::{
    copy_text, transition_state, transitioned, BackupState, ServiceStatus, WaitingReason,
};
use crate::text;
use vstd::prelude::*;

verus! {

/// How many credentials one request may change.
pub const MAX_SECRET_UPDATES: usize = 16;

/// The text without white space at its ends, where anything is left of it.
pub open spec fn nonempty_core(value: Seq<char>) -> Option<Seq<char>> {
    if text::trimmed(value).len() == 0 {
        None
    } else {
        Some(text::trimmed(value))
    }
}

pub fn nonempty_trimmed(value: &str) -> (core: Option<String>)
    ensures
        chars_of(core) == nonempty_core(value@),
{
    let chars = text::characters(value);
    let (start, end) = text::trim_bounds(&chars);
    if start == end {
        None
    } else {
        Some(text::text_of(&chars, start, end))
    }
}

/// Two of the changes are about one credential.
pub open spec fn changes_twice(updates: Seq<RepositorySecretUpdate>) -> bool {
    exists|i: int, j: int|
        0 <= i < j < updates.len() && (#[trigger] updates[i]).changes() == (
        #[trigger] updates[j]).changes()
}

fn has_duplicate_variable(updates: &Vec<RepositorySecretUpdate>) -> (found: bool)
    ensures
        found == changes_twice(updates@),
{
    let mut j: usize = 0;
    while j < updates.len()
        invariant
            j <= updates@.len(),
            forall|a: int, b: int|
                0 <= a < b < j ==> (#[trigger] updates@[a]).changes() != (
                #[trigger] updates@[b]).changes(),
        decreases updates@.len() - j,
    {
        let variable = updates[j].variable();
        let mut i: usize = 0;
        while i < j
            invariant
                i <= j < updates@.len(),
                variable == updates@[j as int].changes(),
                forall|a: int| 0 <= a < i ==> (#[trigger] updates@[a]).changes() != variable,
            decreases j - i,
        {
            if updates[i].variable() == variable {
                return true;
            }
            i = i + 1;
        }
        j = j + 1;
    }
    false
}

impl RepositoryUpdate {
    pub open spec fn changes_nothing(self) -> bool {
        &&& self.display_name is None
        &&& self.url is None
        &&& self.mode is None
        &&& self.options is None
        &&& self.secret_updates@.len() == 0
    }

    /// The change is one after which the connection has to be proved anew.
    pub open spec fn changes_connection(self) -> bool {
        self.url is Some || self.options is Some || self.secret_updates@.len() > 0
    }
}

/// What becomes of an optional text that a request may set; an empty one unsets it.
pub open spec fn text_over(update: Option<String>, before: Option<Seq<char>>) -> Option<Seq<char>> {
    match update {
        Some(value) => nonempty_core(value@),
        None => before,
    }
}

/// The references after the changes of credentials, where the credential store
/// filed the new values under `created`, in order.
pub open spec fn refs_after(
    before: Map<SecretEnvironmentVariable, Seq<char>>,
    updates: Seq<RepositorySecretUpdate>,
    created: Seq<Seq<char>>,
) -> Map<SecretEnvironmentVariable, Seq<char>>
    decreases updates.len(),
{
    if updates.len() == 0 {
        before
    } else {
        match updates.last() {
            RepositorySecretUpdate::Store { variable, .. } => refs_after(
                before,
                updates.drop_last(),
                created.drop_last(),
            ).insert(variable, created.last()),
            RepositorySecretUpdate::Remove { variable } => refs_after(
                before,
                updates.drop_last(),
                created,
            ).remove(variable),
        }
    }
}

/// A credential that no change names keeps its reference.
pub proof fn unnamed_credentials_stay(
    before: Map<SecretEnvironmentVariable, Seq<char>>,
    updates: Seq<RepositorySecretUpdate>,
    created: Seq<Seq<char>>,
    variable: SecretEnvironmentVariable,
)
    requires
        forall|i: int| 0 <= i < updates.len() ==> (#[trigger] updates[i]).changes() != variable,
    ensures
        ({
            let after = refs_after(before, updates, created);
            &&& after.contains_key(variable) == before.contains_key(variable)
            &&& before.contains_key(variable) ==> after[variable] == before[variable]
        }),
    decreases updates.len(),
{
    if updates.len() > 0 {
        let shorter = updates.drop_last();
        assert forall|i: int| 0 <= i < shorter.len() implies (#[trigger] shorter[i]).changes()
            != variable by {
            assert(shorter[i] == updates[i]);
        }
        assert(updates[updates.len() - 1].changes() != variable);
        match updates.last() {
            RepositorySecretUpdate::Store { .. } => {
                unnamed_credentials_stay(before, shorter, created.drop_last(), variable);
            },
            RepositorySecretUpdate::Remove { .. } => {
                unnamed_credentials_stay(before, shorter, created, variable);
            },
        }
    }
}

/// The references of the machine's own settings; none where it has no list.
pub open spec fn own_refs(local: LocalConfigView) -> Map<SecretEnvironmentVariable, Seq<char>> {
    match local.secret_refs {
        Some(refs) => refs,
        None => Map::empty(),
    }
}

/// The list with one more reference, where there is one that it does not hold.
pub open spec fn with_retired(retired: Seq<Seq<char>>, replaced: Option<Seq<char>>) -> Seq<
    Seq<char>,
> {
    if replaced is Some && !retired.contains(replaced->0) {
        retired.push(replaced->0)
    } else {
        retired
    }
}

/// The reference of a credential, where it has one.
pub open spec fn ref_of(
    refs: Map<SecretEnvironmentVariable, Seq<char>>,
    variable: SecretEnvironmentVariable,
) -> Option<Seq<char>> {
    if refs.contains_key(variable) {
        Some(refs[variable])
    } else {
        None
    }
}

/// A change of the repository that was planned.
pub struct RepositoryChange {
    pub local: LocalConfig,
    pub effective: EffectiveConfig,
    pub secret_updates: Vec<RepositorySecretUpdate>,
    /// How many of the changes of credentials are in the two configurations.
    pub applied: usize,
    pub connection_changed: bool,
    /// The references that the credential store gave new values.
    pub created: Vec<String>,
    /// The references that are not used any more.
    pub retired: Vec<String>,
}

impl RepositoryChange {
    /// The two configurations hold exactly the changes of credentials that
    /// were applied.
    pub open spec fn is_applied_to(
        self,
        effective: EffectiveConfigView,
        local: LocalConfigView,
    ) -> bool {
        let done = self.secret_updates@.take(self.applied as int);
        let created = texts_of(self.created@);
        &&& self.applied <= self.secret_updates@.len()
        &&& self.effective@ == (EffectiveConfigView {
            secret_refs: refs_after(effective.secret_refs, done, created),
            ..effective
        })
        &&& self.local@ == (LocalConfigView {
            secret_refs: if self.applied == 0 {
                local.secret_refs
            } else {
                Some(refs_after(own_refs(local), done, created))
            },
            ..local
        })
    }

    /// Applies the next change of a credential. `stored` is the reference under
    /// which the credential store keeps the new value; without one the change
    /// of the repository has failed.
    pub fn apply_secret(&mut self, stored: Option<String>) -> (applied: bool)
        requires
            old(self).applied < old(self).secret_updates@.len(),
        ensures
            ({
                let update = old(self).secret_updates@[old(self).applied as int];
                let before = old(self).effective@.secret_refs;
                let own = own_refs(old(self).local@);
                &&& applied == (update is Remove || stored is Some)
                &&& !applied ==> *final(self) == *old(self)
                &&& applied ==> {
                    &&& final(self).secret_updates == old(self).secret_updates
                    &&& final(self).connection_changed == old(self).connection_changed
                    &&& final(self).applied == old(self).applied + 1
                    &&& final(self).effective@ == (EffectiveConfigView {
                        secret_refs: match update {
                            RepositorySecretUpdate::Store { variable, .. } => before.insert(
                                variable,
                                stored->0@,
                            ),
                            RepositorySecretUpdate::Remove { variable } => before.remove(variable),
                        },
                        ..old(self).effective@
                    })
                    &&& final(self).local@ == (LocalConfigView {
                        secret_refs: Some(
                            match update {
                                RepositorySecretUpdate::Store { variable, .. } => own.insert(
                                    variable,
                                    stored->0@,
                                ),
                                RepositorySecretUpdate::Remove { variable } => own.remove(variable),
                            },
                        ),
                        ..old(self).local@
                    })
                    &&& texts_of(final(self).created@) == (match update {
                        RepositorySecretUpdate::Store { .. } => texts_of(old(self).created@).push(
                            stored->0@,
                        ),
                        RepositorySecretUpdate::Remove { .. } => texts_of(old(self).created@),
                    })
                    &&& texts_of(final(self).retired@) == with_retired(
                        texts_of(old(self).retired@),
                        ref_of(before, update.changes()),
                    )
                }
            }),
            applied ==> forall|effective: EffectiveConfigView, local: LocalConfigView| #[trigger]
                old(self).is_applied_to(effective, local) ==> final(self).is_applied_to(
                    effective,
                    local,
                ),
    {
        let ghost before = *self;
        let ghost at = self.applied as int;
        let ghost done = self.secret_updates@.take(at);
        let variable = self.secret_updates[self.applied].variable();
        let reference = match &self.secret_updates[self.applied] {
            RepositorySecretUpdate::Store { .. } => match stored {
                Some(reference) => Some(reference),
                None => return false,
            },
            RepositorySecretUpdate::Remove { .. } => None,
        };
        let mut own = match self.local.repository.secret_refs.take() {
            Some(refs) => refs,
            None => SecretRefs::new(),
        };
        let ghost own_before = own@;
        proof {
            assert(own_before == own_refs(before.local@));
            assert(self.secret_updates@.take(at + 1).drop_last() == done);
            assert(self.secret_updates@.take(at + 1).last() == self.secret_updates@[at]);
        }
        let replaced = match reference {
            Some(reference) => {
                let _ = own.insert(variable, reference.clone());
                let replaced = self.effective.repository.secret_refs.insert(
                    variable,
                    reference.clone(),
                );
                let ghost filed = reference@;
                self.created.push(reference);
                proof {
                    assert(texts_of(self.created@) == texts_of(before.created@).push(filed));
                    assert(texts_of(self.created@).drop_last() == texts_of(before.created@));
                }
                replaced
            },
            None => {
                let _ = own.remove(variable);
                self.effective.repository.secret_refs.remove(variable)
            },
        };
        self.local.repository.secret_refs = Some(own);
        if let Some(replaced) = replaced {
            if !holds_text(&self.retired, &replaced) {
                let ghost retired = replaced@;
                self.retired.push(replaced);
                proof {
                    assert(texts_of(self.retired@) == texts_of(before.retired@).push(retired));
                }
            }
        }
        let total: usize = self.secret_updates.len();
        assert(self.applied < total);
        self.applied = self.applied + 1;
        proof {
            assert forall|effective: EffectiveConfigView, local: LocalConfigView| #[trigger]
                before.is_applied_to(effective, local) implies self.is_applied_to(
                effective,
                local,
            ) by {
                let now_done = self.secret_updates@.take(self.applied as int);
                let created = texts_of(self.created@);
                assert(now_done.drop_last() == done);
                if before.applied == 0 {
                    assert(done == Seq::<RepositorySecretUpdate>::empty());
                }
                assert(refs_after(own_refs(local), done, texts_of(before.created@)) == own_before);
                assert(self.effective@.secret_refs == refs_after(
                    effective.secret_refs,
                    now_done,
                    created,
                ));
                assert(self.local@.secret_refs == Some(
                    refs_after(own_refs(local), now_done, created),
                ));
            }
        }
        true
    }

    /// The retired references that nothing uses any more.
    pub open spec fn unused(self) -> Seq<Seq<char>> {
        texts_of(self.retired@).filter(
            |reference: Seq<char>|
                !refers_to(self.effective@.secret_refs, reference),
        )
    }

    /// Keeps of the retired references those that nothing uses any more.
    fn keep_unused(&mut self)
        ensures
            *final(self) == (RepositoryChange { retired: final(self).retired, ..*old(self) }),
            texts_of(final(self).retired@) == old(self).unused(),
            forall|i: int, variable: SecretEnvironmentVariable|
                0 <= i < final(self).retired@.len() && old(self).effective@.secret_refs.contains_key(
                    variable,
                ) ==> #[trigger] old(self).effective@.secret_refs[variable] != (
                #[trigger] final(self).retired@[i])@,
    {
        let ghost unused = |reference: Seq<char>|
            !refers_to(self.effective@.secret_refs, reference);
        let mut kept: Vec<String> = Vec::new();
        let mut i: usize = 0;
        while i < self.retired.len()
            invariant
                i <= self.retired@.len(),
                unused == (|reference: Seq<char>|
                    !refers_to(self.effective@.secret_refs, reference)),
                texts_of(kept@) == texts_of(self.retired@.take(i as int)).filter(unused),
                forall|j: int, variable: SecretEnvironmentVariable|
                    0 <= j < kept@.len() && self.effective@.secret_refs.contains_key(variable)
                        ==> #[trigger] self.effective@.secret_refs[variable] != (
                    #[trigger] kept@[j])@,
            decreases self.retired@.len() - i,
        {
            let ghost before = kept@;
            let ghost seen = texts_of(self.retired@.take(i as int));
            proof {
                assert(texts_of(self.retired@.take(i + 1)) == seen.push(self.retired@[i as int]@));
                assert(seen.push(self.retired@[i as int]@).drop_last() == seen);
                reveal(Seq::filter);
            }
            if !self.effective.repository.secret_refs.contains_value(&self.retired[i]) {
                kept.push(self.retired[i].clone());
                proof {
                    assert(texts_of(kept@) == texts_of(before).push(self.retired@[i as int]@));
                }
            }
            i = i + 1;
        }
        proof {
            assert(self.retired@.take(self.retired@.len() as int) == self.retired@);
        }
        self.retired = kept;
    }
}

/// How far the host came with a change of the repository.
pub enum RepositorySave {
    CredentialNotStored,
    Invalid { reason: String },
    StateNotSaved,
    ConfigurationNotSaved,
    Saved,
}

/// What is sent back, what the event loop is told, and which credentials are
/// removed from the store.
pub struct RepositoryReply {
    pub payload: ResponsePayload,
    pub event: Option<RuntimeEvent>,
    pub remove: Vec<String>,
}

/// The state once the change is in effect. After a change of the connection
/// the repository has to be validated.
pub open spec fn after_repository_change(
    state: RuntimeState,
    change: RepositoryChange,
    now: i128,
) -> RuntimeState {
    configured_state(
        if change.connection_changed {
            RuntimeState {
                repository_operation: RepositoryOperationStatus::ValidationRequired,
                service_state: ServiceStateSnapshot {
                    verified_repository: None,
                    ..state.service_state
                },
                ..state
            }
        } else {
            state
        },
        change.effective,
        now,
    )
}

impl ServiceRuntime {
    pub open spec fn locks_repository(self, update: RepositoryUpdate) -> bool {
        ||| update.display_name is Some && self.locked(PolicyField::RepositoryDisplayName)
        ||| update.url is Some && self.locked(PolicyField::RepositoryUrl)
        ||| update.mode is Some && self.locked(PolicyField::RepositoryMode)
        ||| update.options is Some && self.locked(PolicyField::RepositoryOptions)
        ||| update.secret_updates@.len() > 0 && self.secrets_are_locked()
    }

    /// Why a change of the repository is not even planned.
    pub open spec fn repository_refusal(
        self,
        update: RepositoryUpdate,
        identity: ClientIdentity,
        now: i128,
    ) -> Option<Rejection> {
        if !identity.is_elevated_administrator {
            Some(Rejection::AdministratorRequired)
        } else if self.state.update_pending(now) {
            Some(Rejection::ConfigurationHeld)
        } else if update.changes_nothing() {
            Some(Rejection::NoRepositoryChanges)
        } else if self.locks_repository(update) {
            Some(Rejection::RepositoryLocked)
        } else if update.secret_updates@.len() > MAX_SECRET_UPDATES {
            Some(Rejection::TooManySecretUpdates)
        } else if changes_twice(update.secret_updates@) {
            Some(Rejection::DuplicateSecretUpdate)
        } else if update.secret_updates@.len() > 0 && !self.stores.credentials {
            Some(Rejection::CredentialStoreUnavailable)
        } else {
            None
        }
    }

    /// The configuration in effect with everything of the change but the credentials.
    pub open spec fn effective_over(self, update: RepositoryUpdate) -> EffectiveConfigView {
        EffectiveConfigView {
            display_name: text_over(update.display_name, self.config@.display_name),
            url: text_over(update.url, self.config@.url),
            mode: value_or(update.mode, self.config.repository.mode),
            options: match update.options {
                Some(options) => options_of(options@),
                None => self.config@.options,
            },
            ..self.config@
        }
    }

    /// The machine's own configuration with everything of the change but the credentials.
    pub open spec fn local_over(self, update: RepositoryUpdate) -> LocalConfigView {
        LocalConfigView {
            display_name: text_over(update.display_name, self.local_config@.display_name),
            url: text_over(update.url, self.local_config@.url),
            mode: or_else(update.mode, self.local_config.repository.mode),
            options: match update.options {
                Some(options) => Some(options_of(options@)),
                None => self.local_config@.options,
            },
            ..self.local_config@
        }
    }

    /// Plans a change of the repository. Its credentials are stored one by one
    /// once it was admitted.
    pub fn update_repository(
        &self,
        update: RepositoryUpdate,
        identity: ClientIdentity,
        now: i128,
    ) -> (planned: Result<RepositoryChange, ResponsePayload>)
        ensures
            match planned {
                Ok(change) => {
                    &&& self.repository_refusal(update, identity, now) is None
                    &&& change.is_applied_to(self.effective_over(update), self.local_over(update))
                    &&& change.applied == 0
                    &&& change.secret_updates == update.secret_updates
                    &&& change.connection_changed == update.changes_connection()
                    &&& change.created@.len() == 0
                    &&& change.retired@.len() == 0
                },
                Err(payload) => {
                    &&& self.repository_refusal(update, identity, now) is Some
                    &&& payload.rejects(self.repository_refusal(update, identity, now)->0)
                },
            },
    {
        let connection_changed = update.url.is_some() || update.options.is_some()
            || update.secret_updates.len() > 0;
        if !identity.is_elevated_administrator {
            return Err(rejected(Rejection::AdministratorRequired));
        }
        if self.state.has_pending_update(now) {
            return Err(rejected(Rejection::ConfigurationHeld));
        }
        if update.display_name.is_none() && update.url.is_none() && update.mode.is_none()
            && update.options.is_none() && update.secret_updates.len() == 0 {
            return Err(rejected(Rejection::NoRepositoryChanges));
        }
        if (update.display_name.is_some() && self.field_locked(
            PolicyField::RepositoryDisplayName,
        )) || (update.url.is_some() && self.field_locked(PolicyField::RepositoryUrl)) || (
        update.mode.is_some() && self.field_locked(PolicyField::RepositoryMode)) || (
        update.options.is_some() && self.field_locked(PolicyField::RepositoryOptions)) || (
        update.secret_updates.len() > 0 && self.repository_secrets_locked()) {
            return Err(rejected(Rejection::RepositoryLocked));
        }
        if update.secret_updates.len() > MAX_SECRET_UPDATES {
            return Err(rejected(Rejection::TooManySecretUpdates));
        }
        if has_duplicate_variable(&update.secret_updates) {
            return Err(rejected(Rejection::DuplicateSecretUpdate));
        }
        if update.secret_updates.len() > 0 && !self.stores.credentials {
            return Err(rejected(Rejection::CredentialStoreUnavailable));
        }
        let mut local = self.local_config.clone();
        let mut effective = self.config.clone();
        if let Some(display_name) = &update.display_name {
            let display_name = nonempty_trimmed(display_name.as_str());
            local.repository.display_name = copy_text(&display_name);
            effective.repository.display_name = display_name;
        }
        if let Some(url) = &update.url {
            let url = nonempty_trimmed(url.as_str());
            local.repository.url = copy_text(&url);
            effective.repository.url = url;
        }
        if let Some(mode) = update.mode {
            local.repository.mode = Some(mode);
            effective.repository.mode = mode;
        }
        if let Some(options) = &update.options {
            local.repository.options = Some(copy_options(options));
            effective.repository.options = copy_options(options);
        }
        let change = RepositoryChange {
            local,
            effective,
            secret_updates: update.secret_updates,
            applied: 0,
            connection_changed,
            created: Vec::new(),
            retired: Vec::new(),
        };
        proof {
            assert(change.secret_updates@.take(0) == Seq::<RepositorySecretUpdate>::empty());
        }
        Ok(change)
    }

    /// Whether a planned change may go on, once the configuration that it asks
    /// for was validated.
    pub fn admit_repository(&self, validation: Result<(), String>) -> (refused: Option<
        ResponsePayload,
    >)
        ensures
            match validation {
                Err(reason) => refused is Some && refused->0.rejects_with(
                    "invalid_repository"@,
                    reason@,
                ),
                Ok(_) => if self.state.status.state is Running {
                    refused is Some && refused->0.rejects(Rejection::BackupRunningAtRepository)
                } else if self.state.repository_operation is Running {
                    refused is Some && refused->0.rejects(Rejection::RepositoryRunningAtRepository)
                } else {
                    refused is None
                },
            },
    {
        match validation {
            Err(reason) => return Some(rejected_with("invalid_repository", reason.as_str())),
            Ok(_) => {},
        }
        if self.state.status.state.is_running() {
            return Some(rejected(Rejection::BackupRunningAtRepository));
        }
        if self.state.repository_operation.is_running() {
            return Some(rejected(Rejection::RepositoryRunningAtRepository));
        }
        None
    }

    /// What has to be saved of the service before a change of the connection
    /// is, so that the proof of the old connection never speaks for the new one.
    pub fn state_to_save(&self, change: &RepositoryChange) -> (snapshot: Option<
        ServiceStateSnapshot,
    >)
        ensures
            snapshot is Some == (change.connection_changed && self.stores.state is Some),
            snapshot is Some ==> snapshot->0 == (ServiceStateSnapshot {
                verified_repository: None,
                ..self.state.service_state
            }),
    {
        if change.connection_changed && self.stores.state.is_some() {
            Some(
                ServiceStateSnapshot {
                    last_success: self.state.service_state.last_success,
                    last_retention: self.state.service_state.last_retention,
                    last_prune: self.state.service_state.last_prune,
                    last_retention_error: copy_text(&self.state.service_state.last_retention_error),
                    verified_repository: None,
                },
            )
        } else {
            None
        }
    }

    /// Ends a change of the repository. One that failed changes nothing, and
    /// takes the credentials back that were stored for it. One that is in effect
    /// removes no credential that the repository still uses.
    pub fn commit_repository(&mut self, change: RepositoryChange, save: RepositorySave, now: i128) -> (reply:
        RepositoryReply)
        requires
            old(self).well_formed(),
        ensures
            final(self).well_formed(),
            final(self).stores == old(self).stores,
            final(self).field_resolutions == old(self).field_resolutions,
            match save {
                RepositorySave::Saved => {
                    &&& final(self).config == change.effective
                    &&& final(self).local_config == change.local
                    &&& final(self).state == after_repository_change(old(self).state, change, now)
                    &&& reply.payload.accepts("Repository settings updated."@)
                    &&& reply.event == Some(RuntimeEvent::ConfigurationChanged)
                    &&& old(self).stores.credentials ==> texts_of(reply.remove@) == change.unused()
                    &&& !old(self).stores.credentials ==> reply.remove@.len() == 0
                    &&& forall|i: int, variable: SecretEnvironmentVariable|
                        0 <= i < reply.remove@.len() && change.effective@.secret_refs.contains_key(
                            variable,
                        ) ==> #[trigger] change.effective@.secret_refs[variable] != (
                        #[trigger] reply.remove@[i])@
                },
                _ => {
                    &&& *final(self) == *old(self)
                    &&& reply.event is None
                    &&& old(self).stores.credentials ==> reply.remove == change.created
                    &&& !old(self).stores.credentials ==> reply.remove@.len() == 0
                    &&& match save {
                        RepositorySave::CredentialNotStored => reply.payload.rejects(
                            Rejection::CredentialSaveFailed,
                        ),
                        RepositorySave::Invalid { reason } => reply.payload.rejects_with(
                            "invalid_repository"@,
                            reason@,
                        ),
                        RepositorySave::StateNotSaved => reply.payload.rejects(
                            Rejection::StateSaveFailed,
                        ),
                        _ => reply.payload.rejects(Rejection::ConfigurationSaveFailed),
                    }
                },
            },
    {
        let credentials = self.stores.credentials;
        let payload = match save {
            RepositorySave::CredentialNotStored => rejected(Rejection::CredentialSaveFailed),
            RepositorySave::Invalid { reason } => rejected_with(
                "invalid_repository",
                reason.as_str(),
            ),
            RepositorySave::StateNotSaved => rejected(Rejection::StateSaveFailed),
            RepositorySave::ConfigurationNotSaved => rejected(Rejection::ConfigurationSaveFailed),
            RepositorySave::Saved => {
                let mut change = change;
                change.keep_unused();
                if change.connection_changed {
                    self.state.repository_operation = RepositoryOperationStatus::ValidationRequired;
                    self.state.service_state.require_repository_validation();
                }
                apply_configuration_status(&mut self.state, &change.effective, now);
                self.local_config = change.local;
                self.config = change.effective;
                return RepositoryReply {
                    payload: accepted("Repository settings updated."),
                    event: Some(RuntimeEvent::ConfigurationChanged),
                    remove: if credentials {
                        change.retired
                    } else {
                        Vec::new()
                    },
                };
            },
        };
        RepositoryReply {
            payload,
            event: None,
            remove: if credentials {
                change.created
            } else {
                Vec::new()
            },
        }
    }
}

/// After a change of the connection no backup runs before the repository was
/// validated: its proof is gone, in memory and in what is saved.
pub proof fn a_new_connection_must_be_validated(
    state: RuntimeState,
    change: RepositoryChange,
    now: i128,
)
    requires
        change.connection_changed,
    ensures
        ({
            let after = after_repository_change(state, change, now);
            &&& !after.repository_operation.allows_backup()
            &&& after.service_state.verified_repository is None
            &&& after.status.next_deadline is None
            &&& change.effective.configured() ==> after.status.state == (BackupState::Waiting {
                reason: WaitingReason::RepositoryValidation,
            })
            &&& !change.effective.configured() ==> after.status.state is Unconfigured
        }),
{
}

/// A change of the name or the mode alone leaves the proof of the connection.
pub proof fn a_new_name_keeps_the_proof(state: RuntimeState, change: RepositoryChange, now: i128)
    requires
        !change.connection_changed,
    ensures
        after_repository_change(state, change, now).repository_operation
            == state.repository_operation,
        after_repository_change(state, change, now).service_state == state.service_state,
{
}

/// How the request for an operation on the repository was taken on.
#[derive(Debug, Clone, Copy, PartialEq, Eq, Structural)]
pub enum OperationRequest {
    StateNotSaved,
    NotDelivered,
    Delivered,
}

/// The state once an operation on the repository was asked for. Whatever was
/// known of the connection is in doubt until the operation ends.
pub open spec fn after_operation_request(
    state: RuntimeState,
    config: EffectiveConfig,
    operation: RepositoryOperationKind,
    now: i128,
) -> RuntimeState {
    RuntimeState {
        repository_operation: RepositoryOperationStatus::Running { operation },
        status: if config.configured() {
            ServiceStatus {
                next_deadline: None,
                ..transitioned(
                    state.status,
                    BackupState::Waiting { reason: WaitingReason::RepositoryValidation },
                    now,
                )
            }
        } else {
            state.status
        },
        service_state: ServiceStateSnapshot { verified_repository: None, ..state.service_state },
        ..state
    }
}

/// The operation did not come about.
pub open spec fn operation_is_off(
    status: RepositoryOperationStatus,
    operation: RepositoryOperationKind,
    now: i128,
    code: Seq<char>,
) -> bool {
    &&& status is Failed
    &&& status->Failed_operation == operation
    &&& status->Failed_completed_at == now
    &&& status->code@ == code
}

impl ServiceRuntime {
    /// Why an operation on the repository is not taken on.
    pub open spec fn operation_refusal(
        self,
        operation: RepositoryOperationKind,
        identity: ClientIdentity,
        now: i128,
    ) -> Option<Rejection> {
        if !identity.is_elevated_administrator {
            Some(Rejection::AdministratorRequired)
        } else if self.config@.url is None {
            Some(Rejection::RepositoryNotConfigured)
        } else if !self.config@.secret_refs.contains_key(
            SecretEnvironmentVariable::ResticPassword,
        ) {
            Some(Rejection::RepositoryPasswordRequired)
        } else if operation is Initialize && !ResticOperation::Initialize.is_allowed_in(
            self.config.repository.mode,
        ) {
            Some(Rejection::InitializationForbidden)
        } else if self.state.update_pending(now) {
            Some(Rejection::UpdatePending)
        } else if self.state.status.state is Running {
            Some(Rejection::BackupRunningAtTest)
        } else if self.state.repository_operation is Running {
            Some(Rejection::RepositoryOperationRunning)
        } else {
            None
        }
    }

    /// Takes an operation on the repository on, or says why not. The host saves
    /// the state of the service and tells the event loop, and reports with
    /// `repository_operation_requested` how that went.
    pub fn begin_repository_operation(
        &mut self,
        operation: RepositoryOperationKind,
        identity: ClientIdentity,
        now: i128,
    ) -> (refused: Option<ResponsePayload>)
        ensures
            final(self).only_state_changed(*old(self)),
            match old(self).operation_refusal(operation, identity, now) {
                Some(rejection) => {
                    &&& refused is Some
                    &&& refused->0.rejects(rejection)
                    &&& *final(self) == *old(self)
                },
                None => {
                    &&& refused is None
                    &&& final(self).state == after_operation_request(
                        old(self).state,
                        old(self).config,
                        operation,
                        now,
                    )
                },
            },
    {
        if !identity.is_elevated_administrator {
            return Some(rejected(Rejection::AdministratorRequired));
        }
        if self.config.repository.url.is_none() {
            return Some(rejected(Rejection::RepositoryNotConfigured));
        }
        if !self.config.repository.secret_refs.contains_key(
            SecretEnvironmentVariable::ResticPassword,
        ) {
            return Some(rejected(Rejection::RepositoryPasswordRequired));
        }
        if operation == RepositoryOperationKind::Initialize
            && !ResticOperation::Initialize.allowed_in(self.config.repository.mode) {
            return Some(rejected(Rejection::InitializationForbidden));
        }
        if self.state.has_pending_update(now) {
            return Some(rejected(Rejection::UpdatePending));
        }
        if self.state.status.state.is_running() {
            return Some(rejected(Rejection::BackupRunningAtTest));
        }
        if self.state.repository_operation.is_running() {
            return Some(rejected(Rejection::RepositoryOperationRunning));
        }
        self.state.repository_operation = RepositoryOperationStatus::Running { operation };
        if self.config.is_configured() {
            transition_state(
                &mut self.state.status,
                BackupState::Waiting { reason: WaitingReason::RepositoryValidation },
                now,
            );
            self.state.status.next_deadline = None;
        }
        self.state.service_state.require_repository_validation();
        None
    }

    /// Answers the request for an operation on the repository once it was saved
    /// and handed on.
    pub fn repository_operation_requested(
        &mut self,
        operation: RepositoryOperationKind,
        request: OperationRequest,
        now: i128,
    ) -> (payload: ResponsePayload)
        ensures
            final(self).only_state_changed(*old(self)),
            final(self).state == (RuntimeState {
                repository_operation: final(self).state.repository_operation,
                ..old(self).state
            }),
            match request {
                OperationRequest::StateNotSaved => {
                    &&& payload.rejects(Rejection::StateSaveFailed)
                    &&& operation_is_off(
                        final(self).state.repository_operation,
                        operation,
                        now,
                        "state_save_failed"@,
                    )
                },
                OperationRequest::NotDelivered => {
                    &&& payload.rejects(Rejection::ServiceStopping)
                    &&& operation_is_off(
                        final(self).state.repository_operation,
                        operation,
                        now,
                        "service_stopping"@,
                    )
                },
                OperationRequest::Delivered => {
                    &&& *final(self) == *old(self)
                    &&& payload.accepts(
                        match operation {
                            RepositoryOperationKind::Validate =>
                                "Repository connection test started."@,
                            RepositoryOperationKind::Initialize => "Repository creation started."@,
                        },
                    )
                },
            },
    {
        match request {
            OperationRequest::StateNotSaved => {
                self.state.repository_operation = RepositoryOperationStatus::Failed {
                    operation,
                    completed_at: now,
                    code: "state_save_failed".to_owned(),
                };
                rejected(Rejection::StateSaveFailed)
            },
            OperationRequest::NotDelivered => {
                self.state.repository_operation = RepositoryOperationStatus::Failed {
                    operation,
                    completed_at: now,
                    code: "service_stopping".to_owned(),
                };
                rejected(Rejection::ServiceStopping)
            },
            OperationRequest::Delivered => match operation {
                RepositoryOperationKind::Validate => accepted(
                    "Repository connection test started.",
                ),
                RepositoryOperationKind::Initialize => accepted("Repository creation started."),
            },
        }
    }
}

/// An append-only repository is never created from this machine.
pub proof fn an_append_only_repository_is_not_created(
    runtime: ServiceRuntime,
    identity: ClientIdentity,
    now: i128,
)
    requires
        runtime.config.repository.mode is AppendOnly,
    ensures
        runtime.operation_refusal(RepositoryOperationKind::Initialize, identity, now) is Some,
{
}

/// While an operation runs no backup starts, and no second operation.
pub proof fn one_operation_at_a_time(
    state: RuntimeState,
    config: EffectiveConfig,
    operation: RepositoryOperationKind,
    now: i128,
    runtime: ServiceRuntime,
    other: RepositoryOperationKind,
    identity: ClientIdentity,
    later: i128,
)
    requires
        runtime.state == after_operation_request(state, config, operation, now),
    ensures
        !runtime.state.repository_operation.allows_backup(),
        runtime.operation_refusal(other, identity, later) is Some,
{
}

} // verus!

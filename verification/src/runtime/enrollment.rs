//! Joining and leaving a management server, and taking on its policy.
use super::events::RuntimeEvent;
use super::repository::{own_refs, ref_of};
use super::restore::{clear_sensitive_restore_state, forgets_restores};
use super::state::{
    apply_configuration_status, configured_state, ResolvedConfig, RuntimeState, ServiceRuntime,
    ServiceStateSnapshot,
};
use crate::config::{
    chars_of, texts_of, EffectiveConfig, LocalConfig, LocalConfigView, LocalManagementConfig,
    ManagementMode, SecretEnvironmentVariable, SecretRefs,
};
use crate::protocol::{
    accepted, rejected, ClientIdentity, RepositoryOperationStatus, ResponsePayload, RestoreQueryView,
};
use crate::rejection::Rejection;
use crate::status::ServiceStatus;
use crate::text;
use vstd::prelude::*;

verus! {

/// What became of a policy that was fetched.
#[derive(Debug, Clone, Copy, PartialEq, Eq, Structural)]
pub enum ManagedPolicyApplyOutcome {
    Applied,
    RuntimeBusy,
    SourceChanged,
}

/// What a server gave a machine that joined it. The secrets themselves stay
/// with the host, which files them in the credential store.
pub struct EnrollmentMaterial {
    pub device_id: String,
    pub manifest_url: String,
    pub status_url: String,
    pub public_key: String,
    pub refresh_interval_minutes: u32,
    pub repository_secrets: Vec<SecretEnvironmentVariable>,
}

/// A secret that the host files while a machine joins.
#[derive(Debug, Clone, Copy, PartialEq, Eq, Structural)]
pub enum EnrollmentCredential {
    StatusToken,
    DeviceKey,
    Repository { variable: SecretEnvironmentVariable },
}

/// The references with those of the given variables, in order.
pub open spec fn refs_with(
    before: Map<SecretEnvironmentVariable, Seq<char>>,
    variables: Seq<SecretEnvironmentVariable>,
    references: Seq<Seq<char>>,
) -> Map<SecretEnvironmentVariable, Seq<char>>
    decreases variables.len(),
{
    if variables.len() == 0 {
        before
    } else {
        refs_with(before, variables.drop_last(), references.drop_last()).insert(
            variables.last(),
            references.last(),
        )
    }
}

impl EnrollmentMaterial {
    /// The secrets in the order in which they are filed.
    pub open spec fn credentials(self) -> Seq<EnrollmentCredential> {
        seq![EnrollmentCredential::StatusToken, EnrollmentCredential::DeviceKey]
            + self.repository_secrets@.map_values(
            |variable: SecretEnvironmentVariable| EnrollmentCredential::Repository { variable },
        )
    }

    /// The secret that is filed next, after so many.
    pub fn credential(&self, filed: usize) -> (credential: Option<EnrollmentCredential>)
        ensures
            credential == (if filed < self.credentials().len() {
                Some(self.credentials()[filed as int])
            } else {
                None
            }),
    {
        if filed == 0 {
            Some(EnrollmentCredential::StatusToken)
        } else if filed == 1 {
            Some(EnrollmentCredential::DeviceKey)
        } else if filed - 2 < self.repository_secrets.len() {
            Some(
                EnrollmentCredential::Repository { variable: self.repository_secrets[filed - 2] },
            )
        } else {
            None
        }
    }

    /// The management of a machine that joined, with the references under which
    /// its secrets were filed.
    pub open spec fn manages(self, management: LocalManagementConfig, created: Seq<Seq<char>>) -> bool {
        &&& management.mode is SignedManifest
        &&& chars_of(management.manifest_url) == Some(self.manifest_url@)
        &&& chars_of(management.signing_public_key) == Some(self.public_key@)
        &&& management.refresh_interval_minutes == Some(self.refresh_interval_minutes)
        &&& chars_of(management.status_url) == Some(self.status_url@)
        &&& chars_of(management.device_id) == Some(self.device_id@)
        &&& chars_of(management.status_token_ref) == Some(created[0])
        &&& chars_of(management.enrollment_key_ref) == Some(created[1])
    }
}

/// A machine that joined a server is enrolled with it.
pub proof fn a_joined_machine_is_enrolled(
    material: EnrollmentMaterial,
    management: LocalManagementConfig,
    created: Seq<Seq<char>>,
)
    requires
        material.manages(management, created),
    ensures
        management.is_enrolled(),
{
}

/// What the host has to do once a machine joined or left, or took a policy on.
pub struct ManagementReply {
    /// Whether the state of the service has to be saved.
    pub save_state: bool,
    /// The credentials that nothing uses any more.
    pub remove: Vec<String>,
    pub event: Option<RuntimeEvent>,
}

/// The state once a policy is in effect. A repository whose connection was not
/// proved has to be validated.
pub open spec fn under_policy(
    state: RuntimeState,
    config: EffectiveConfig,
    managed_revision: Option<String>,
    now: i128,
) -> RuntimeState {
    let gated = if state.service_state.requires_validation(config@) {
        RuntimeState {
            service_state: ServiceStateSnapshot {
                verified_repository: None,
                ..state.service_state
            },
            repository_operation: RepositoryOperationStatus::ValidationRequired,
            ..state
        }
    } else {
        state
    };
    configured_state(
        RuntimeState { status: ServiceStatus { managed_revision, ..gated.status }, ..gated },
        config,
        now,
    )
}

/// `after` is `before` under a policy, with nothing left of what the recovery
/// browser knew.
pub open spec fn joins(
    after: RuntimeState,
    before: RuntimeState,
    config: EffectiveConfig,
    managed_revision: Option<String>,
    now: i128,
) -> bool {
    exists|cleared: RuntimeState| #[trigger]
        forgets_restores(cleared, before) && after == under_policy(
            cleared,
            config,
            managed_revision,
            now,
        )
}

/// `after` is `before` without policy, with nothing left of what the recovery
/// browser knew.
pub open spec fn leaves(
    after: RuntimeState,
    before: RuntimeState,
    config: EffectiveConfig,
    now: i128,
) -> bool {
    exists|cleared: RuntimeState| #[trigger]
        forgets_restores(cleared, before) && after == configured_state(
            RuntimeState {
                status: ServiceStatus { managed_revision: None, ..cleared.status },
                ..cleared
            },
            config,
            now,
        )
}

/// The references in a list of references of which some may be missing.
pub open spec fn present(reference: Option<String>) -> Seq<Seq<char>> {
    match reference {
        Some(reference) => seq![reference@],
        None => Seq::empty(),
    }
}

/// The references of repository credentials that another one took the place of.
pub open spec fn replaced_refs(
    before: LocalConfigView,
    after: LocalConfigView,
    variables: Seq<SecretEnvironmentVariable>,
) -> Seq<Seq<char>>
    decreases variables.len(),
{
    if variables.len() == 0 {
        Seq::empty()
    } else {
        let earlier = replaced_refs(before, after, variables.drop_last());
        let old_ref = ref_of(own_refs(before), variables.last());
        if old_ref is Some && ref_of(own_refs(after), variables.last()) != old_ref {
            earlier.push(old_ref->0)
        } else {
            earlier
        }
    }
}

fn own_ref(local: &LocalConfig, variable: SecretEnvironmentVariable) -> (reference: Option<String>)
    ensures
        chars_of(reference) == ref_of(own_refs(local@), variable),
{
    match &local.repository.secret_refs {
        Some(refs) => refs.get(variable),
        None => None,
    }
}

fn retired_by_enrollment(
    before: &LocalConfig,
    after: &LocalConfig,
    variables: &Vec<SecretEnvironmentVariable>,
) -> (retired: Vec<String>)
    ensures
        texts_of(retired@) == present(before.management.status_token_ref) + present(
            before.management.enrollment_key_ref,
        ) + replaced_refs(before@, after@, variables@),
{
    let mut retired: Vec<String> = Vec::new();
    if let Some(reference) = &before.management.status_token_ref {
        retired.push(reference.clone());
    }
    if let Some(reference) = &before.management.enrollment_key_ref {
        retired.push(reference.clone());
    }
    let ghost front = present(before.management.status_token_ref) + present(
        before.management.enrollment_key_ref,
    );
    proof {
        assert(texts_of(retired@) =~= front);
    }
    let mut i: usize = 0;
    while i < variables.len()
        invariant
            i <= variables@.len(),
            texts_of(retired@) == front + replaced_refs(before@, after@, variables@.take(i as int)),
        decreases variables@.len() - i,
    {
        let ghost listed = retired@;
        proof {
            assert(variables@.take(i + 1).drop_last() == variables@.take(i as int));
            assert(variables@.take(i + 1).last() == variables@[i as int]);
        }
        if let Some(reference) = own_ref(before, variables[i]) {
            let kept = match own_ref(after, variables[i]) {
                Some(current) => current == reference,
                None => false,
            };
            if !kept {
                let ghost gone = reference@;
                retired.push(reference);
                proof {
                    assert(texts_of(retired@) == texts_of(listed).push(gone));
                }
            }
        }
        i = i + 1;
    }
    proof {
        assert(variables@.take(variables@.len() as int) == variables@);
    }
    retired
}

/// How far the host came with leaving a server.
pub enum UnenrollOutcome {
    Invalid,
    NotSaved,
    Saved { resolved: ResolvedConfig },
}

impl ServiceRuntime {
    /// Reserves the service for an enrolment, unless it is at work.
    pub fn begin_management_operation(&mut self, now: i128) -> (begun: bool)
        ensures
            final(self).only_state_changed(*old(self)),
            begun == !old(self).state.is_busy(now),
            final(self).state == (RuntimeState {
                management_operation_active: begun || old(self).state.management_operation_active,
                ..old(self).state
            }),
    {
        if self.state.busy(now) {
            return false;
        }
        self.state.management_operation_active = true;
        true
    }

    /// Ends the reservation.
    pub fn end_management_operation(&mut self)
        ensures
            final(self).only_state_changed(*old(self)),
            final(self).state == (RuntimeState {
                management_operation_active: false,
                ..old(self).state
            }),
    {
        self.state.management_operation_active = false;
    }

    /// Reserves the service for the enrolment that its installer asked for.
    pub fn enroll_bootstrap(&mut self, now: i128) -> (begun: Result<(), &'static str>)
        ensures
            final(self).only_state_changed(*old(self)),
            match begun {
                Ok(_) => {
                    &&& !old(self).state.is_busy(now)
                    &&& final(self).state == (RuntimeState {
                        management_operation_active: true,
                        ..old(self).state
                    })
                },
                Err(reason) => {
                    &&& old(self).state.is_busy(now)
                    &&& *final(self) == *old(self)
                    &&& reason@ == "another service operation is active"@
                },
            },
    {
        if self.begin_management_operation(now) {
            Ok(())
        } else {
            Err("another service operation is active")
        }
    }

    /// Why an enrolment is not begun.
    pub open spec fn enroll_refusal(
        self,
        bootstrap_url: Seq<u8>,
        identity: ClientIdentity,
        now: i128,
    ) -> Option<Rejection> {
        if !identity.is_elevated_administrator {
            Some(Rejection::AdministratorRequired)
        } else if !vstd::utf8::valid_utf8(bootstrap_url) {
            Some(Rejection::InvalidBootstrapUrl)
        } else if self.state.is_busy(now) {
            Some(Rejection::EnrollmentWaits)
        } else {
            None
        }
    }

    /// Reserves the service for an enrolment and hands out the one-time address.
    pub fn enroll(&mut self, bootstrap_url: &[u8], identity: ClientIdentity, now: i128) -> (begun:
        Result<String, ResponsePayload>)
        ensures
            final(self).only_state_changed(*old(self)),
            match begun {
                Ok(url) => {
                    &&& old(self).enroll_refusal(bootstrap_url@, identity, now) is None
                    &&& url@ == vstd::utf8::decode_utf8(bootstrap_url@)
                    &&& final(self).state == (RuntimeState {
                        management_operation_active: true,
                        ..old(self).state
                    })
                },
                Err(payload) => {
                    &&& old(self).enroll_refusal(bootstrap_url@, identity, now) is Some
                    &&& payload.rejects(
                        old(self).enroll_refusal(bootstrap_url@, identity, now)->0,
                    )
                    &&& *final(self) == *old(self)
                },
            },
    {
        if !identity.is_elevated_administrator {
            return Err(rejected(Rejection::AdministratorRequired));
        }
        let url = match text::from_utf8(bootstrap_url) {
            Some(url) => url,
            None => return Err(rejected(Rejection::InvalidBootstrapUrl)),
        };
        if !self.begin_management_operation(now) {
            return Err(rejected(Rejection::EnrollmentWaits));
        }
        Ok(url)
    }

    /// Ends an enrolment and answers the request for it.
    pub fn finish_enroll(&mut self, enrolled: bool) -> (payload: ResponsePayload)
        ensures
            final(self).only_state_changed(*old(self)),
            final(self).state == (RuntimeState {
                management_operation_active: false,
                ..old(self).state
            }),
            enrolled ==> payload.accepts(
                "This device is now enrolled and its signed policy is active."@,
            ),
            !enrolled ==> payload.rejects(Rejection::EnrollmentFailed),
    {
        self.end_management_operation();
        if enrolled {
            accepted("This device is now enrolled and its signed policy is active.")
        } else {
            rejected(Rejection::EnrollmentFailed)
        }
    }

    /// Whether there are stores in which an enrolment can be kept.
    pub fn check_enrollment_stores(&self) -> (available: Result<(), &'static str>)
        ensures
            match available {
                Ok(_) => self.stores.credentials && self.stores.config is Some,
                Err(reason) => if !self.stores.credentials {
                    reason@ == "protected credential storage is unavailable"@
                } else {
                    self.stores.config is None && reason@
                        == "local configuration storage is unavailable"@
                },
            },
    {
        if !self.stores.credentials {
            return Err("protected credential storage is unavailable");
        }
        if self.stores.config.is_none() {
            return Err("local configuration storage is unavailable");
        }
        Ok(())
    }

    /// The machine's own configuration once it joined, with the references
    /// under which its secrets were filed, in the order of the secrets.
    pub fn plan_enrollment(&self, material: &EnrollmentMaterial, created: &Vec<String>) -> (local:
        LocalConfig)
        requires
            created@.len() == material.credentials().len(),
        ensures
            material.manages(local.management, texts_of(created@)),
            local@ == (LocalConfigView {
                management: local.management,
                secret_refs: Some(
                    refs_with(
                        own_refs(self.local_config@),
                        material.repository_secrets@,
                        texts_of(created@).skip(2),
                    ),
                ),
                ..self.local_config@
            }),
    {
        let mut local = self.local_config.clone();
        let mut refs = match local.repository.secret_refs.take() {
            Some(refs) => refs,
            None => SecretRefs::new(),
        };
        proof {
            assert(refs@ == own_refs(self.local_config@));
            assert(material.credentials().len() == 2 + material.repository_secrets@.len());
            assert(texts_of(created@).len() == created@.len());
        }
        let ghost filed = texts_of(created@).skip(2);
        let total: usize = created.len();
        let mut i: usize = 0;
        while i < material.repository_secrets.len()
            invariant
                total == created@.len(),
                created@.len() == 2 + material.repository_secrets@.len(),
                i <= material.repository_secrets@.len(),
                filed == texts_of(created@).skip(2),
                refs@ == refs_with(
                    own_refs(self.local_config@),
                    material.repository_secrets@.take(i as int),
                    filed.take(i as int),
                ),
            decreases material.repository_secrets@.len() - i,
        {
            let variable = material.repository_secrets[i];
            let _ = refs.insert(variable, created[2 + i].clone());
            proof {
                let variables = material.repository_secrets@.take(i + 1);
                assert(variables.drop_last() == material.repository_secrets@.take(i as int));
                assert(filed.take(i + 1).drop_last() == filed.take(i as int));
                assert(filed.take(i + 1).last() == created@[2 + i]@);
            }
            i = i + 1;
        }
        proof {
            assert(material.repository_secrets@.take(material.repository_secrets@.len() as int)
                == material.repository_secrets@);
            assert(filed.take(filed.len() as int) == filed);
            assert(texts_of(created@)[0] == created@[0]@);
            assert(texts_of(created@)[1] == created@[1]@);
        }
        local.repository.secret_refs = Some(refs);
        local.management = LocalManagementConfig {
            mode: ManagementMode::SignedManifest,
            manifest_url: Some(material.manifest_url.clone()),
            signing_public_key: Some(material.public_key.clone()),
            refresh_interval_minutes: Some(material.refresh_interval_minutes),
            status_url: Some(material.status_url.clone()),
            device_id: Some(material.device_id.clone()),
            status_token_ref: Some(created[0].clone()),
            enrollment_key_ref: Some(created[1].clone()),
        };
        local
    }

    /// Whether the policy of a server may come into effect: its management is
    /// valid, and it names no credential of this machine.
    pub fn admit_enrollment(validation: Result<(), String>, policy_names_secrets: bool) -> (admitted:
        Result<(), String>)
        ensures
            match admitted {
                Ok(_) => validation is Ok && !policy_names_secrets,
                Err(reason) => match validation {
                    Err(invalid) => reason@ == invalid@,
                    Ok(_) => policy_names_secrets && reason@
                        == "enrolled policy contains client-local credential references"@,
                },
            },
    {
        match validation {
            Err(invalid) => return Err(invalid),
            Ok(_) => {},
        }
        if policy_names_secrets {
            return Err(
                "enrolled policy contains client-local credential references".to_owned(),
            );
        }
        Ok(())
    }

    /// Puts an enrolment into effect that was saved. Nothing that the recovery
    /// browser learnt under the earlier management survives.
    pub fn commit_enrollment(
        &mut self,
        material: &EnrollmentMaterial,
        local: LocalConfig,
        resolved: ResolvedConfig,
        now: i128,
    ) -> (reply: ManagementReply)
        requires
            old(self).well_formed(),
        ensures
            final(self).well_formed(),
            final(self).stores == old(self).stores,
            final(self).config == resolved.effective,
            final(self).field_resolutions == resolved.fields,
            final(self).local_config == local,
            joins(
                final(self).state,
                old(self).state,
                resolved.effective,
                resolved.managed_revision,
                now,
            ),
            reply.save_state == (old(self).state.service_state.requires_validation(
                resolved.effective@,
            ) && old(self).stores.state is Some),
            texts_of(reply.remove@) == present(
                old(self).local_config.management.status_token_ref,
            ) + present(old(self).local_config.management.enrollment_key_ref) + replaced_refs(
                old(self).local_config@,
                local@,
                material.repository_secrets@,
            ),
            reply.event == Some(RuntimeEvent::ConfigurationChanged),
    {
        let remove = retired_by_enrollment(
            &self.local_config,
            &local,
            &material.repository_secrets,
        );
        clear_sensitive_restore_state(&mut self.state);
        let ghost cleared = self.state;
        let save_state = self.take_policy_on(resolved, now);
        self.local_config = local;
        proof {
            assert(forgets_restores(cleared, old(self).state));
        }
        ManagementReply { save_state, remove, event: Some(RuntimeEvent::ConfigurationChanged) }
    }

    fn take_policy_on(&mut self, resolved: ResolvedConfig, now: i128) -> (save_state: bool)
        ensures
            final(self).state == under_policy(
                old(self).state,
                resolved.effective,
                resolved.managed_revision,
                now,
            ),
            final(self).config == resolved.effective,
            final(self).field_resolutions == resolved.fields,
            final(self).local_config == old(self).local_config,
            final(self).stores == old(self).stores,
            save_state == (old(self).state.service_state.requires_validation(resolved.effective@)
                && old(self).stores.state is Some),
    {
        let unproved = self.state.service_state.repository_requires_validation(&resolved.effective);
        if unproved {
            self.state.service_state.require_repository_validation();
            self.state.repository_operation = RepositoryOperationStatus::ValidationRequired;
        }
        self.state.status.managed_revision = resolved.managed_revision;
        apply_configuration_status(&mut self.state, &resolved.effective, now);
        self.config = resolved.effective;
        self.field_resolutions = resolved.fields;
        unproved && self.stores.state.is_some()
    }

    /// Why a machine does not leave its server.
    pub open spec fn unenroll_refusal(self, identity: ClientIdentity, now: i128) -> Option<
        Rejection,
    > {
        if !identity.is_elevated_administrator {
            Some(Rejection::AdministratorRequired)
        } else if self.state.is_busy(now) {
            Some(Rejection::EnrollmentWaits)
        } else if self.stores.config is None {
            Some(Rejection::ConfigurationUnavailable)
        } else {
            None
        }
    }

    /// The machine's own configuration without a server, or the answer where
    /// there is nothing to do.
    pub fn unenroll(&self, identity: ClientIdentity, now: i128) -> (planned: Result<
        LocalConfig,
        ResponsePayload,
    >)
        ensures
            match planned {
                Ok(local) => {
                    &&& self.unenroll_refusal(identity, now) is None
                    &&& !(self.local_config.management.mode is Disabled)
                    &&& local@ == (LocalConfigView {
                        management: LocalManagementConfig::unmanaged(),
                        ..self.local_config@
                    })
                },
                Err(payload) => match self.unenroll_refusal(identity, now) {
                    Some(rejection) => payload.rejects(rejection),
                    None => {
                        &&& self.local_config.management.mode is Disabled
                        &&& payload.accepts("This device is already unmanaged."@)
                    },
                },
            },
    {
        if !identity.is_elevated_administrator {
            return Err(rejected(Rejection::AdministratorRequired));
        }
        if self.state.busy(now) {
            return Err(rejected(Rejection::EnrollmentWaits));
        }
        if self.stores.config.is_none() {
            return Err(rejected(Rejection::ConfigurationUnavailable));
        }
        if self.local_config.management.mode == ManagementMode::Disabled {
            return Err(accepted("This device is already unmanaged."));
        }
        let mut local = self.local_config.clone();
        local.management = LocalManagementConfig::disabled();
        Ok(local)
    }

    /// Ends leaving a server. Where it failed, nothing changes.
    pub fn commit_unenroll(&mut self, local: LocalConfig, outcome: UnenrollOutcome, now: i128) -> (answered:
        (ResponsePayload, ManagementReply))
        requires
            old(self).well_formed(),
        ensures
            final(self).well_formed(),
            final(self).stores == old(self).stores,
            !answered.1.save_state,
            match outcome {
                UnenrollOutcome::Invalid => {
                    &&& *final(self) == *old(self)
                    &&& answered.0.rejects(Rejection::ConfigurationInvalid)
                    &&& answered.1.remove@.len() == 0
                    &&& answered.1.event is None
                },
                UnenrollOutcome::NotSaved => {
                    &&& *final(self) == *old(self)
                    &&& answered.0.rejects(Rejection::UnmanagedSaveFailed)
                    &&& answered.1.remove@.len() == 0
                    &&& answered.1.event is None
                },
                UnenrollOutcome::Saved { resolved } => {
                    &&& final(self).local_config == local
                    &&& final(self).config == resolved.effective
                    &&& final(self).field_resolutions == resolved.fields
                    &&& leaves(final(self).state, old(self).state, resolved.effective, now)
                    &&& answered.0.accepts(
                        "Managed policy and reporting were removed; repository credentials remain protected locally."@,
                    )
                    &&& texts_of(answered.1.remove@) == (if old(self).stores.credentials {
                        present(old(self).local_config.management.status_token_ref) + present(
                            old(self).local_config.management.enrollment_key_ref,
                        )
                    } else {
                        Seq::empty()
                    })
                    &&& answered.1.event == Some(RuntimeEvent::ConfigurationChanged)
                },
            },
    {
        let resolved = match outcome {
            UnenrollOutcome::Invalid => return (
                rejected(Rejection::ConfigurationInvalid),
                ManagementReply { save_state: false, remove: Vec::new(), event: None },
            ),
            UnenrollOutcome::NotSaved => return (
                rejected(Rejection::UnmanagedSaveFailed),
                ManagementReply { save_state: false, remove: Vec::new(), event: None },
            ),
            UnenrollOutcome::Saved { resolved } => resolved,
        };
        let mut remove: Vec<String> = Vec::new();
        if self.stores.credentials {
            if let Some(reference) = &self.local_config.management.status_token_ref {
                remove.push(reference.clone());
            }
            if let Some(reference) = &self.local_config.management.enrollment_key_ref {
                remove.push(reference.clone());
            }
        }
        proof {
            assert(texts_of(remove@) =~= (if self.stores.credentials {
                present(self.local_config.management.status_token_ref) + present(
                    self.local_config.management.enrollment_key_ref,
                )
            } else {
                Seq::empty()
            }));
        }
        clear_sensitive_restore_state(&mut self.state);
        let ghost cleared = self.state;
        self.state.status.managed_revision = None;
        apply_configuration_status(&mut self.state, &resolved.effective, now);
        self.local_config = local;
        self.config = resolved.effective;
        self.field_resolutions = resolved.fields;
        proof {
            assert(forgets_restores(cleared, old(self).state));
        }
        (
            accepted(
                "Managed policy and reporting were removed; repository credentials remain protected locally.",
            ),
            ManagementReply {
                save_state: false,
                remove,
                event: Some(RuntimeEvent::ConfigurationChanged),
            },
        )
    }

    /// Work that a change of policy would disturb.
    pub open spec fn policy_has_to_wait(self, now: i128) -> bool {
        ||| self.state.status.state is Running
        ||| self.state.repository_operation is Running
        ||| self.state.restore_operation_active
        ||| self.state.update_pending(now)
    }

    /// The state once a policy was taken on. What the recovery browser knew is
    /// forgotten where the repository has to be validated anew.
    pub open spec fn state_under_policy(
        after: RuntimeState,
        before: RuntimeState,
        resolved: ResolvedConfig,
        now: i128,
    ) -> bool {
        if before.service_state.requires_validation(resolved.effective@) {
            joins(after, before, resolved.effective, resolved.managed_revision, now)
        } else {
            after == under_policy(before, resolved.effective, resolved.managed_revision, now)
        }
    }

    /// Takes a policy on that was fetched from a source, unless the machine has
    /// another source by now or is at work. `resolved` is what the policy
    /// resolves to with the machine's own configuration.
    pub fn apply_managed_policy_if_current(
        &mut self,
        resolved: Result<ResolvedConfig, String>,
        expected: &LocalManagementConfig,
        now: i128,
    ) -> (applied: (Result<ManagedPolicyApplyOutcome, String>, ManagementReply))
        requires
            old(self).well_formed(),
        ensures
            final(self).well_formed(),
            final(self).local_config == old(self).local_config,
            final(self).stores == old(self).stores,
            applied.1.remove@.len() == 0,
            ({
                let current = old(self).local_config.management.reads_as(*expected);
                let takes = current && resolved is Ok && !old(self).policy_has_to_wait(now);
                &&& !takes ==> {
                    &&& *final(self) == *old(self)
                    &&& !applied.1.save_state
                    &&& applied.1.event is None
                }
                &&& match applied.0 {
                    Ok(outcome) => match outcome {
                        ManagedPolicyApplyOutcome::SourceChanged => !current,
                        ManagedPolicyApplyOutcome::RuntimeBusy => current && resolved is Ok
                            && old(self).policy_has_to_wait(now),
                        ManagedPolicyApplyOutcome::Applied => takes,
                    },
                    Err(reason) => current && resolved is Err && reason == resolved->Err_0,
                }
                &&& takes ==> {
                    &&& final(self).config == resolved->Ok_0.effective
                    &&& final(self).field_resolutions == resolved->Ok_0.fields
                    &&& Self::state_under_policy(
                        final(self).state,
                        old(self).state,
                        resolved->Ok_0,
                        now,
                    )
                    &&& applied.1.save_state == (old(self).stores.state is Some
                        && old(self).state.service_state.requires_validation(
                        resolved->Ok_0.effective@,
                    ))
                    &&& applied.1.event == Some(RuntimeEvent::ConfigurationChanged)
                }
            }),
    {
        if !self.local_config.management.same_as(expected) {
            return (
                Ok(ManagedPolicyApplyOutcome::SourceChanged),
                ManagementReply { save_state: false, remove: Vec::new(), event: None },
            );
        }
        let resolved = match resolved {
            Ok(resolved) => resolved,
            Err(reason) => return (
                Err(reason),
                ManagementReply { save_state: false, remove: Vec::new(), event: None },
            ),
        };
        if self.state.status.state.is_running() || self.state.repository_operation.is_running()
            || self.state.restore_operation_active || self.state.has_pending_update(now) {
            return (
                Ok(ManagedPolicyApplyOutcome::RuntimeBusy),
                ManagementReply { save_state: false, remove: Vec::new(), event: None },
            );
        }
        if self.state.service_state.repository_requires_validation(&resolved.effective) {
            clear_sensitive_restore_state(&mut self.state);
        }
        let ghost cleared = self.state;
        let save_state = self.take_policy_on(resolved, now);
        proof {
            if old(self).state.service_state.requires_validation(resolved.effective@) {
                assert(forgets_restores(cleared, old(self).state));
            }
        }
        (
            Ok(ManagedPolicyApplyOutcome::Applied),
            ManagementReply {
                save_state,
                remove: Vec::new(),
                event: Some(RuntimeEvent::ConfigurationChanged),
            },
        )
    }
}

/// Under a policy no backup runs against a repository whose connection was not
/// proved.
pub proof fn a_policy_never_trusts_an_unproved_connection(
    state: RuntimeState,
    config: EffectiveConfig,
    managed_revision: Option<String>,
    now: i128,
)
    requires
        state.service_state.requires_validation(config@),
    ensures
        ({
            let after = under_policy(state, config, managed_revision, now);
            &&& !after.repository_operation.allows_backup()
            &&& after.service_state.verified_repository is None
        }),
{
}

/// A machine that has joined or left a server remembers nothing of earlier
/// browsing, unless it was under way.
pub proof fn a_new_server_sees_no_old_listing(
    after: RuntimeState,
    before: RuntimeState,
    config: EffectiveConfig,
    managed_revision: Option<String>,
    now: i128,
)
    requires
        !before.restore_operation_active,
        joins(after, before, config, managed_revision, now) || leaves(after, before, config, now),
    ensures
        after.restore_queries@ == Map::<u64, RestoreQueryView>::empty(),
        after.authorized_restore_nodes.keys().len() == 0,
        after.active_restore_query is None,
{
}

} // verus!

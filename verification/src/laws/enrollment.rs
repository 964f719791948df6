//! What joining and leaving a management server does.
use crate::config::{
    chars_of, EffectiveConfig, LocalConfigView, LocalManagementConfig, ManagementMode,
    SecretEnvironmentVariable,
};
use crate::protocol::{ClientIdentity, RepositoryOperationStatus};
use crate::rejection::Rejection;
use crate::runtime::enrollment::{
    joins, leaves, present, refs_with, replaced_refs, under_policy, EnrollmentCredential,
    EnrollmentMaterial,
};
use crate::runtime::repository::{own_refs, ref_of};
use crate::runtime::restore::forgets_restores;
use crate::runtime::state::{configured_state, ResolvedConfig, RuntimeState, ServiceRuntime};
use vstd::prelude::*;

verus! {

/// A machine that joined follows the server of its enrolment, each address, key
/// and credential under its own name.
pub proof fn a_machine_follows_the_server_it_joined(
    plan: EnrollmentMaterial,
    management: LocalManagementConfig,
    created: Seq<Seq<char>>,
)
    requires
        plan.manages(management, created),
        created.len() >= 2,
    ensures
        management.mode == ManagementMode::SignedManifest,
        management.is_enrolled(),
        management.manifest_url is Some && management.manifest_url->0@ == plan.manifest_url@,
        management.signing_public_key is Some && management.signing_public_key->0@
            == plan.public_key@,
        management.status_url is Some && management.status_url->0@ == plan.status_url@,
        management.device_id is Some && management.device_id->0@ == plan.device_id@,
        management.refresh_interval_minutes == Some(plan.refresh_interval_minutes),
        management.status_token_ref is Some && management.status_token_ref->0@ == created[0],
        management.enrollment_key_ref is Some && management.enrollment_key_ref->0@ == created[1],
{
}

/// The credentials of an enrolment are stored in one order: the token, the key
/// of the machine, and those of the repository as they come.
pub proof fn credentials_are_stored_in_order(plan: EnrollmentMaterial, at: int)
    ensures
        plan.credentials().len() == 2 + plan.repository_secrets@.len(),
        plan.credentials()[0] is StatusToken,
        plan.credentials()[1] is DeviceKey,
        0 <= at < plan.repository_secrets@.len() ==> plan.credentials()[at + 2] == (
        EnrollmentCredential::Repository { variable: plan.repository_secrets@[at] }),
{
}

/// Each credential of the repository gets the reference that was made for it, and
/// the others keep theirs.
pub proof fn each_credential_gets_its_reference(
    before: Map<SecretEnvironmentVariable, Seq<char>>,
    variables: Seq<SecretEnvironmentVariable>,
    references: Seq<Seq<char>>,
    at: int,
    other: SecretEnvironmentVariable,
)
    requires
        variables.len() == references.len(),
        variables.no_duplicates(),
    ensures
        0 <= at < variables.len() ==> refs_with(before, variables, references).contains_key(
            variables[at],
        ) && refs_with(before, variables, references)[variables[at]] == references[at],
        !variables.contains(other) ==> refs_with(before, variables, references).contains_key(other)
            == before.contains_key(other) && (before.contains_key(other) ==> refs_with(
            before,
            variables,
            references,
        )[other] == before[other]),
    decreases variables.len(),
{
    if variables.len() > 0 {
        let fewer = variables.drop_last();
        let shorter = references.drop_last();
        assert forall|i: int, j: int| 0 <= i < fewer.len() && 0 <= j < fewer.len() && i
            != j implies fewer[i] != fewer[j] by {
            assert(fewer[i] == variables[i] && fewer[j] == variables[j]);
        }
        each_credential_gets_its_reference(before, fewer, shorter, at, other);
        if !variables.contains(other) {
            assert(variables[variables.len() - 1] != other);
            if fewer.contains(other) {
                let i = fewer.index_of(other);
                assert(variables[i] == other);
            }
        }
        if 0 <= at < fewer.len() {
            assert(fewer[at] == variables[at]);
            assert(variables[at] != variables[variables.len() - 1]);
        }
    }
}

/// References that a new enrolment replaced are known: those whose variable has
/// another one now.
pub proof fn replaced_references_are_known(
    before: LocalConfigView,
    after: LocalConfigView,
    variables: Seq<SecretEnvironmentVariable>,
    reference: Seq<char>,
)
    ensures
        replaced_refs(before, after, variables).contains(reference) <==> exists|i: int|
            0 <= i < variables.len() && ref_of(own_refs(before), #[trigger] variables[i]) == Some(
                reference,
            ) && ref_of(own_refs(after), variables[i]) != Some(reference),
    decreases variables.len(),
{
    let all = replaced_refs(before, after, variables);
    if variables.len() > 0 {
        let fewer = variables.drop_last();
        let last = variables[variables.len() - 1];
        let earlier = replaced_refs(before, after, fewer);
        replaced_references_are_known(before, after, fewer, reference);
        let replaced = ref_of(own_refs(before), last) is Some && ref_of(own_refs(after), last)
            != ref_of(own_refs(before), last);
        if all.contains(reference) {
            let at = all.index_of(reference);
            if at < earlier.len() {
                assert(earlier[at] == reference);
                assert(earlier.contains(reference));
                let i = choose|i: int|
                    0 <= i < fewer.len() && ref_of(own_refs(before), #[trigger] fewer[i]) == Some(
                        reference,
                    ) && ref_of(own_refs(after), fewer[i]) != Some(reference);
                assert(variables[i] == fewer[i]);
            } else {
                assert(last == variables[variables.len() - 1]);
            }
        }
        if exists|i: int|
            0 <= i < variables.len() && ref_of(own_refs(before), #[trigger] variables[i]) == Some(
                reference,
            ) && ref_of(own_refs(after), variables[i]) != Some(reference) {
            let i = choose|i: int|
                0 <= i < variables.len() && ref_of(own_refs(before), #[trigger] variables[i])
                    == Some(reference) && ref_of(own_refs(after), variables[i]) != Some(reference);
            if i < fewer.len() {
                assert(fewer[i] == variables[i]);
                assert(earlier.contains(reference));
                let at = earlier.index_of(reference);
                assert(all[at] == reference);
            } else {
                assert(all[earlier.len() as int] == reference);
            }
        }
    }
}

/// A reference that is there is one, and one that is missing is none.
pub proof fn a_missing_reference_is_none(reference: Option<String>)
    ensures
        reference is Some ==> present(reference).len() == 1 && present(reference)[0]
            == reference->0@,
        reference is None ==> present(reference).len() == 0,
{
}

/// A policy shows its revision. Where the connection that it brings was not
/// proved, the repository has to be validated, and else nothing of that changes.
pub proof fn what_a_policy_does(
    state: RuntimeState,
    config: EffectiveConfig,
    managed_revision: Option<String>,
    now: i128,
)
    ensures
        ({
            let after = under_policy(state, config, managed_revision, now);
            let unproved = state.service_state.requires_validation(config@);
            &&& after.status.managed_revision == managed_revision
            &&& unproved ==> after.repository_operation is ValidationRequired
                && after.service_state.verified_repository is None
            &&& !unproved ==> after.repository_operation == state.repository_operation
                && after.service_state == state.service_state
            &&& after.service_state.last_success == state.service_state.last_success
            &&& after.status.last_success == state.status.last_success
            &&& after.status.repository_mode == config.repository.mode
            &&& after.status.repository_display_name == config.repository.display_name
            &&& after.restore_queries == state.restore_queries
        }),
{
}

/// A machine that leaves its server shows no revision any more, and keeps what
/// it knows of its repository.
pub proof fn what_leaving_does(
    after: RuntimeState,
    before: RuntimeState,
    config: EffectiveConfig,
    now: i128,
)
    requires
        leaves(after, before, config, now),
    ensures
        after.status.managed_revision is None,
        after.service_state == before.service_state,
        after.repository_operation == before.repository_operation,
        after.status.last_success == before.status.last_success,
{
}

/// A machine that joins a server shows the revision of its policy, and keeps its
/// own history.
pub proof fn what_joining_does(
    after: RuntimeState,
    before: RuntimeState,
    config: EffectiveConfig,
    managed_revision: Option<String>,
    now: i128,
)
    requires
        joins(after, before, config, managed_revision, now),
    ensures
        after.status.managed_revision == managed_revision,
        after.service_state.last_success == before.service_state.last_success,
        after.service_state.last_prune == before.service_state.last_prune,
        after.status.last_success == before.status.last_success,
        before.service_state.requires_validation(config@) ==> after.repository_operation
            is ValidationRequired,
{
}

/// A machine joins by an administrator, with an address that can be read, while
/// nothing else is under way.
pub proof fn when_a_machine_may_join(
    runtime: ServiceRuntime,
    bootstrap_url: Seq<u8>,
    identity: ClientIdentity,
    now: i128,
)
    ensures
        runtime.enroll_refusal(bootstrap_url, identity, now) is None <==> {
            &&& identity.is_elevated_administrator
            &&& vstd::utf8::valid_utf8(bootstrap_url)
            &&& !runtime.state.is_busy(now)
        },
        !identity.is_elevated_administrator ==> runtime.enroll_refusal(bootstrap_url, identity, now)
            == Some(Rejection::AdministratorRequired),
        identity.is_elevated_administrator && !vstd::utf8::valid_utf8(bootstrap_url)
            ==> runtime.enroll_refusal(bootstrap_url, identity, now) == Some(
            Rejection::InvalidBootstrapUrl,
        ),
        runtime.unenroll_refusal(identity, now) is None <==> {
            &&& identity.is_elevated_administrator
            &&& !runtime.state.is_busy(now)
            &&& runtime.stores.config is Some
        },
        !identity.is_elevated_administrator ==> runtime.unenroll_refusal(identity, now) == Some(
            Rejection::AdministratorRequired,
        ),
{
}

/// A policy waits for a backup, an operation, a restore and an update.
pub proof fn when_a_policy_waits(runtime: ServiceRuntime, now: i128)
    ensures
        runtime.policy_has_to_wait(now) <==> {
            ||| runtime.state.status.state is Running
            ||| runtime.state.repository_operation is Running
            ||| runtime.state.restore_operation_active
            ||| runtime.state.update_install_active
            ||| runtime.state.update_hold_until is Some && runtime.state.update_hold_until->0 > now
        },
{
}

/// A policy that brings another connection forgets what was browsed of the old
/// one; any other keeps it.
pub proof fn a_policy_forgets_an_old_repository(
    after: RuntimeState,
    before: RuntimeState,
    resolved: ResolvedConfig,
    now: i128,
)
    requires
        ServiceRuntime::state_under_policy(after, before, resolved, now),
    ensures
        after.status.managed_revision == resolved.managed_revision,
        !before.service_state.requires_validation(resolved.effective@) ==> after.restore_queries
            == before.restore_queries && after.repository_operation == before.repository_operation,
        before.service_state.requires_validation(resolved.effective@)
            && !before.restore_operation_active ==> after.restore_queries@.dom().len() == 0
            && after.authorized_restore_nodes@.dom().len() == 0,
        before.service_state.requires_validation(resolved.effective@)
            ==> after.repository_operation is ValidationRequired,
{
    assert(Map::<u64, crate::protocol::RestoreQueryView>::empty().dom() =~= Set::empty());
    assert(Map::<
        (Seq<char>, Seq<char>),
        crate::protocol::RestoreNodeType,
    >::empty().dom() =~= Set::empty());
}

} // verus!

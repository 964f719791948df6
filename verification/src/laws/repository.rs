//! What a change of the repository does, and who may operate on it.
use crate::config::{chars_of, EffectiveConfig, PolicyField, SecretEnvironmentVariable};
use crate::protocol::{
    ClientIdentity, RepositoryOperationKind, RepositoryOperationStatus, RepositorySecretUpdate,
    RepositoryUpdate,
};
use crate::rejection::Rejection;
use crate::runtime::repository::{
    after_operation_request, after_repository_change, changes_twice, nonempty_core, operation_is_off,
    own_refs, ref_of, refs_after, text_over, with_retired, RepositoryChange,
};
use crate::runtime::state::{RuntimeState, ServiceRuntime};
use crate::status::{BackupState, RepositoryMode, WaitingReason};
use crate::text;
use vstd::prelude::*;

verus! {

/// A name or an address is taken without the space around it, and an empty one
/// means that there is none.
pub proof fn a_text_is_taken_without_space(update: Option<String>, before: Option<Seq<char>>)
    ensures
        update is None ==> text_over(update, before) == before,
        update is Some && text::trimmed(update->0@).len() == 0 ==> text_over(update, before) is None,
        update is Some && text::trimmed(update->0@).len() > 0 ==> text_over(update, before) == Some(
            text::trimmed(update->0@),
        ),
        forall|value: Seq<char>|
            (#[trigger] nonempty_core(value) is None <==> text::trimmed(value).len() == 0),
        forall|value: Seq<char>| #[trigger]
            nonempty_core(value) is Some ==> nonempty_core(value) == Some(text::trimmed(value)),
{
}

/// A change of the repository sets what it names, on this machine and in effect,
/// and leaves every other setting alone.
pub proof fn a_repository_change_sets_what_it_names(runtime: ServiceRuntime, update: RepositoryUpdate)
    ensures
        ({
            let effective = runtime.effective_over(update);
            let local = runtime.local_over(update);
            &&& update.url is None ==> effective.url == chars_of(runtime.config.repository.url)
                && local.url == chars_of(runtime.local_config.repository.url)
            &&& update.url is Some ==> effective.url == text_over(update.url, None) && local.url
                == effective.url
            &&& update.display_name is None ==> effective.display_name == chars_of(
                runtime.config.repository.display_name,
            ) && local.display_name == chars_of(runtime.local_config.repository.display_name)
            &&& update.display_name is Some ==> effective.display_name == text_over(
                update.display_name,
                None,
            ) && local.display_name == effective.display_name
            &&& update.mode is Some ==> effective.mode == update.mode->0 && local.mode == update.mode
            &&& update.mode is None ==> effective.mode == runtime.config.repository.mode
                && local.mode == runtime.local_config.repository.mode
            &&& update.options is Some ==> effective.options == crate::config::options_of(
                update.options->0@,
            ) && local.options == Some(effective.options)
            &&& update.options is None ==> effective.options == runtime.config@.options
                && local.options == runtime.local_config@.options
            &&& effective.secret_refs == runtime.config@.secret_refs
            &&& local.secret_refs == runtime.local_config@.secret_refs
            &&& effective.schedule == runtime.config.schedule
            &&& effective.retention == runtime.config.retention
            &&& effective.paths == runtime.config@.paths
            &&& effective.exclusions == runtime.config@.exclusions
            &&& effective.updates == runtime.config.updates
            &&& effective.restore == runtime.config.restore
            &&& local.schedule == runtime.local_config.schedule
            &&& local.retention == runtime.local_config.retention
            &&& local.paths == runtime.local_config@.paths
            &&& local.exclusions == runtime.local_config@.exclusions
            &&& local.management == runtime.local_config.management
            &&& local.automatic_install == runtime.local_config@.automatic_install
            &&& local.restore_enabled == runtime.local_config@.restore_enabled
        }),
{
}

/// The address, the options and the credentials are the connection; the name and
/// the mode are not.
pub proof fn what_the_connection_is(update: RepositoryUpdate)
    ensures
        update.changes_connection() <==> update.url is Some || update.options is Some
            || update.secret_updates@.len() > 0,
        update.changes_nothing() <==> update.url is None && update.options is None
            && update.secret_updates@.len() == 0 && update.display_name is None && update.mode
            is None,
{
}

/// The repository is changed for an administrator where no update is pending,
/// each setting that is named is free, and the credentials can be stored, each
/// once and no more than sixteen.
pub proof fn when_the_repository_may_change(
    runtime: ServiceRuntime,
    update: RepositoryUpdate,
    identity: ClientIdentity,
    now: i128,
)
    ensures
        runtime.repository_refusal(update, identity, now) is None <==> {
            &&& identity.is_elevated_administrator
            &&& !runtime.state.update_pending(now)
            &&& {
                ||| update.display_name is Some
                ||| update.url is Some
                ||| update.mode is Some
                ||| update.options is Some
                ||| update.secret_updates@.len() > 0
            }
            &&& update.display_name is Some ==> !runtime.locked(PolicyField::RepositoryDisplayName)
            &&& update.url is Some ==> !runtime.locked(PolicyField::RepositoryUrl)
            &&& update.mode is Some ==> !runtime.locked(PolicyField::RepositoryMode)
            &&& update.options is Some ==> !runtime.locked(PolicyField::RepositoryOptions)
            &&& update.secret_updates@.len() > 0 ==> {
                &&& !runtime.locked(PolicyField::RepositorySecretRefs)
                &&& !runtime.local_config.management.is_enrolled()
                &&& runtime.stores.credentials
            }
            &&& update.secret_updates@.len() <= 16
            &&& forall|i: int, j: int|
                0 <= i < j < update.secret_updates@.len() ==> (
                #[trigger] update.secret_updates@[i]).changes() != (
                #[trigger] update.secret_updates@[j]).changes()
        },
        !identity.is_elevated_administrator ==> runtime.repository_refusal(update, identity, now)
            == Some(Rejection::AdministratorRequired),
        identity.is_elevated_administrator && runtime.state.update_pending(now)
            ==> runtime.repository_refusal(update, identity, now) == Some(
            Rejection::ConfigurationHeld,
        ),
{
}

/// A change of a credential is one of the variable that it names.
pub proof fn a_secret_change_is_of_its_variable(
    variable: SecretEnvironmentVariable,
    value: Vec<u8>,
    updates: Seq<RepositorySecretUpdate>,
)
    ensures
        (RepositorySecretUpdate::Store { variable, value }).changes() == variable,
        (RepositorySecretUpdate::Remove { variable }).changes() == variable,
        changes_twice(updates) <==> exists|i: int, j: int|
            0 <= i < j < updates.len() && (#[trigger] updates[i]).changes() == (
            #[trigger] updates[j]).changes(),
{
}

/// A credential that is stored has the reference that was made for it, one that
/// is removed has none, and every other keeps its own.
pub proof fn a_credential_follows_its_last_change(
    before: Map<SecretEnvironmentVariable, Seq<char>>,
    updates: Seq<RepositorySecretUpdate>,
    created: Seq<Seq<char>>,
    variable: SecretEnvironmentVariable,
    value: Vec<u8>,
    reference: Seq<char>,
    other: SecretEnvironmentVariable,
)
    requires
        other != variable,
    ensures
        ({
            let earlier = refs_after(before, updates, created);
            let stored = refs_after(
                before,
                updates.push(RepositorySecretUpdate::Store { variable, value }),
                created.push(reference),
            );
            let removed = refs_after(
                before,
                updates.push(RepositorySecretUpdate::Remove { variable }),
                created,
            );
            &&& stored.contains_key(variable) && stored[variable] == reference
            &&& !removed.contains_key(variable)
            &&& stored.contains_key(other) == earlier.contains_key(other)
            &&& removed.contains_key(other) == earlier.contains_key(other)
            &&& earlier.contains_key(other) ==> stored[other] == earlier[other] && removed[other]
                == earlier[other]
            &&& refs_after(before, Seq::empty(), created) == before
        }),
{
    let store = RepositorySecretUpdate::Store { variable, value };
    let remove = RepositorySecretUpdate::Remove { variable };
    assert(updates.push(store).drop_last() =~= updates);
    assert(updates.push(remove).drop_last() =~= updates);
    assert(created.push(reference).drop_last() =~= created);
}

/// What a credential was before is retired once, and a reference that was none
/// is not.
pub proof fn a_replaced_reference_is_retired_once(
    retired: Seq<Seq<char>>,
    replaced: Option<Seq<char>>,
    reference: Seq<char>,
)
    ensures
        replaced is None ==> with_retired(retired, replaced) == retired,
        replaced is Some ==> with_retired(retired, replaced).contains(replaced->0),
        replaced is Some && retired.contains(replaced->0) ==> with_retired(retired, replaced)
            == retired,
        replaced is Some && !retired.contains(replaced->0) ==> with_retired(retired, replaced).len()
            == retired.len() + 1,
        retired.contains(reference) ==> with_retired(retired, replaced).contains(reference),
{
    let after = with_retired(retired, replaced);
    if replaced is Some && !retired.contains(replaced->0) {
        assert(after[retired.len() as int] == replaced->0);
    }
    if retired.contains(reference) {
        let at = retired.index_of(reference);
        assert(after[at] == reference);
    }
}

/// A reference is looked up under its own variable.
pub proof fn references_are_looked_up_by_variable(
    refs: Map<SecretEnvironmentVariable, Seq<char>>,
    variable: SecretEnvironmentVariable,
    local: crate::config::LocalConfigView,
)
    ensures
        refs.contains_key(variable) ==> ref_of(refs, variable) == Some(refs[variable]),
        !refs.contains_key(variable) ==> ref_of(refs, variable) is None,
        local.secret_refs is Some ==> own_refs(local) == local.secret_refs->0,
        local.secret_refs is None ==> own_refs(local).dom().len() == 0,
{
    assert(Map::<SecretEnvironmentVariable, Seq<char>>::empty().dom() =~= Set::empty());
}

/// A new connection takes the proof away and has to be validated; any other
/// change leaves both alone.
pub proof fn what_a_repository_change_does(state: RuntimeState, change: RepositoryChange, now: i128)
    ensures
        ({
            let after = after_repository_change(state, change, now);
            &&& change.connection_changed ==> after.repository_operation is ValidationRequired
                && after.service_state.verified_repository is None
            &&& !change.connection_changed ==> after.repository_operation
                == state.repository_operation && after.service_state == state.service_state
            &&& after.service_state.last_success == state.service_state.last_success
            &&& after.service_state.last_prune == state.service_state.last_prune
            &&& after.service_state.last_retention == state.service_state.last_retention
            &&& after.status.last_success == state.status.last_success
            &&& after.status.repository_mode == change.effective.repository.mode
            &&& after.status.repository_display_name == change.effective.repository.display_name
            &&& after.update_hold_until == state.update_hold_until
        }),
{
}

/// An operation on the repository takes the proof away until it has succeeded,
/// and no backup is scheduled meanwhile.
pub proof fn what_an_operation_takes_away(
    state: RuntimeState,
    config: EffectiveConfig,
    operation: RepositoryOperationKind,
    now: i128,
)
    ensures
        ({
            let after = after_operation_request(state, config, operation, now);
            &&& after.repository_operation == (RepositoryOperationStatus::Running { operation })
            &&& after.service_state.verified_repository is None
            &&& after.service_state.last_success == state.service_state.last_success
            &&& after.service_state.last_prune == state.service_state.last_prune
            &&& config.configured() ==> after.status.state == (BackupState::Waiting {
                reason: WaitingReason::RepositoryValidation,
            }) && after.status.next_deadline is None
            &&& !config.configured() ==> after.status == state.status
            &&& after.status.last_success == state.status.last_success
            &&& after.manual_requested == state.manual_requested
            &&& after.not_before == state.not_before
        }),
{
}

/// An operation is begun by an administrator on a repository with an address and
/// a password, where nothing else runs; one that nothing is removed from is not
/// created.
pub proof fn when_an_operation_begins(
    runtime: ServiceRuntime,
    operation: RepositoryOperationKind,
    identity: ClientIdentity,
    now: i128,
)
    ensures
        runtime.operation_refusal(operation, identity, now) is None <==> {
            &&& identity.is_elevated_administrator
            &&& runtime.config.repository.url is Some
            &&& runtime.config.repository.secret_refs@.contains_key(
                SecretEnvironmentVariable::ResticPassword,
            )
            &&& operation is Initialize ==> runtime.config.repository.mode
                == RepositoryMode::Standard
            &&& !runtime.state.update_pending(now)
            &&& !(runtime.state.status.state is Running)
            &&& !(runtime.state.repository_operation is Running)
        },
        !identity.is_elevated_administrator ==> runtime.operation_refusal(operation, identity, now)
            == Some(Rejection::AdministratorRequired),
        identity.is_elevated_administrator && runtime.config.repository.url is None
            ==> runtime.operation_refusal(operation, identity, now) == Some(
            Rejection::RepositoryNotConfigured,
        ),
{
    assert(runtime.config@.secret_refs == runtime.config.repository.secret_refs@);
}

/// An operation that did not begin is shown as one that failed.
pub proof fn an_operation_that_is_off_has_failed(
    status: RepositoryOperationStatus,
    operation: RepositoryOperationKind,
    now: i128,
    code: Seq<char>,
)
    requires
        operation_is_off(status, operation, now, code),
    ensures
        !status.allows_backup(),
        status is Failed,
        status->Failed_operation == operation,
        status->Failed_completed_at == now,
        status->code@ == code,
{
}

/// Of the references that were retired, those go that no credential uses, and
/// all of them.
pub proof fn only_unused_references_go(
    change: RepositoryChange,
    at: int,
    variable: SecretEnvironmentVariable,
)
    ensures
        0 <= at < change.unused().len() ==> crate::config::texts_of(change.retired@).contains(
            change.unused()[at],
        ),
        0 <= at < change.unused().len() && change.effective.repository.secret_refs@.contains_key(
            variable,
        ) ==> change.effective.repository.secret_refs@[variable] != change.unused()[at],
        0 <= at < change.retired@.len() && !change.unused().contains(change.retired@[at]@)
            ==> exists|user: SecretEnvironmentVariable| #[trigger]
            change.effective.repository.secret_refs@.contains_key(user)
                && change.effective.repository.secret_refs@[user] == change.retired@[at]@,
{
    let retired = crate::config::texts_of(change.retired@);
    let keeps = |reference: Seq<char>|
        !crate::config::refers_to(change.effective@.secret_refs, reference);
    assert(change.unused() == retired.filter(keeps));
    assert(change.effective@.secret_refs == change.effective.repository.secret_refs@);
    if 0 <= at < change.unused().len() {
        retired.lemma_filter_pred(keeps, at);
        assert(retired.filter(keeps).contains(retired.filter(keeps)[at]));
        retired.lemma_filter_contains_rev(keeps, change.unused()[at]);
    }
    if 0 <= at < change.retired@.len() {
        assert(retired[at] == change.retired@[at]@);
        if keeps(retired[at]) {
            retired.lemma_filter_contains(keeps, at);
        }
    }
}

/// A change holds the credentials that were changed so far, in effect and on this
/// machine, and nothing else of it moves with them.
pub proof fn a_change_holds_what_was_applied(
    change: RepositoryChange,
    effective: crate::config::EffectiveConfigView,
    local: crate::config::LocalConfigView,
)
    requires
        change.is_applied_to(effective, local),
    ensures
        change.applied <= change.secret_updates@.len(),
        change.effective@.secret_refs == refs_after(
            effective.secret_refs,
            change.secret_updates@.take(change.applied as int),
            crate::config::texts_of(change.created@),
        ),
        change.effective@.url == effective.url,
        change.effective@.options == effective.options,
        change.effective@.mode == effective.mode,
        change.effective@.display_name == effective.display_name,
        change.effective@.schedule == effective.schedule,
        change.effective@.retention == effective.retention,
        change.local@.url == local.url,
        change.local@.options == local.options,
        change.local@.mode == local.mode,
        change.local@.display_name == local.display_name,
        change.local@.management == local.management,
        change.applied > 0 ==> change.local@.secret_refs == Some(
            refs_after(
                own_refs(local),
                change.secret_updates@.take(change.applied as int),
                crate::config::texts_of(change.created@),
            ),
        ),
        change.applied == 0 ==> change.local@.secret_refs == local.secret_refs,
{
}

} // verus!

//! Which managed policy is put into effect, and what is told the server.
use crate::config::{chars_of, LocalManagementConfig, ManagementMode};
use crate::management::{
    can_report, chooses, is_header_token, is_policy_error, lowest_sequence, reported_name,
    CachedManifest, ManagementError, PolicyCandidate, PolicyChoice,
};
use vstd::prelude::*;

verus! {

/// A fetched manifest that can come into effect is chosen where its number is
/// higher than that of the cached one, and where there is no cached one.
pub proof fn a_newer_manifest_is_taken(
    choice: Result<PolicyChoice, ManagementError>,
    enrolled: bool,
    cached: Result<PolicyCandidate, String>,
    fetched: PolicyCandidate,
)
    requires
        chooses(choice, enrolled, cached, Ok(fetched)),
        cached is Ok ==> fetched.sequence > cached->Ok_0.sequence,
        fetched.resolution is Ok,
        !(enrolled && fetched.names_secrets),
    ensures
        choice == Ok::<PolicyChoice, ManagementError>(PolicyChoice::Fetched),
{
}

/// A manifest with the number of the cached one brings nothing new: the cached
/// one stays, and so it does where none could be fetched.
pub proof fn a_known_manifest_changes_nothing(
    choice: Result<PolicyChoice, ManagementError>,
    enrolled: bool,
    cached: PolicyCandidate,
    fetched: Result<PolicyCandidate, String>,
)
    requires
        chooses(choice, enrolled, Ok(cached), fetched),
        fetched is Ok ==> fetched->Ok_0.sequence == cached.sequence,
    ensures
        cached.resolution is Ok && !(enrolled && cached.names_secrets) ==> choice == Ok::<
            PolicyChoice,
            ManagementError,
        >(PolicyChoice::Cached),
        enrolled && cached.names_secrets ==> choice == Err::<PolicyChoice, ManagementError>(
            ManagementError::EnrolledPolicyContainsSecretReferences,
        ),
        cached.resolution is Err && !(enrolled && cached.names_secrets) ==> choice == Err::<
            PolicyChoice,
            ManagementError,
        >(ManagementError::Host { reason: cached.resolution->Err_0 }),
{
}

/// A new manifest that cannot come into effect is refused, and the cached one
/// does not stand in for it.
pub proof fn a_new_manifest_that_is_invalid_is_refused(
    choice: Result<PolicyChoice, ManagementError>,
    enrolled: bool,
    cached: Result<PolicyCandidate, String>,
    fetched: PolicyCandidate,
)
    requires
        chooses(choice, enrolled, cached, Ok(fetched)),
        cached is Ok ==> cached->Ok_0.sequence != fetched.sequence,
    ensures
        enrolled && fetched.names_secrets ==> choice == Err::<PolicyChoice, ManagementError>(
            ManagementError::EnrolledPolicyContainsSecretReferences,
        ),
        !(enrolled && fetched.names_secrets) && fetched.resolution is Err ==> choice == Err::<
            PolicyChoice,
            ManagementError,
        >(ManagementError::Host { reason: fetched.resolution->Err_0 }),
        choice is Ok ==> choice->Ok_0 is Fetched,
{
}

/// Without a server and without a cache there is no policy, and the error says
/// why of both.
pub proof fn nothing_to_choose_from_is_an_error(
    choice: Result<PolicyChoice, ManagementError>,
    enrolled: bool,
    cache: String,
    fetch: String,
)
    requires
        chooses(choice, enrolled, Err(cache), Err(fetch)),
    ensures
        choice == Err::<PolicyChoice, ManagementError>(
            ManagementError::FetchAndCacheUnavailable { fetch, cache },
        ),
{
}

/// A machine that joined a server takes no policy that names credentials; any
/// other policy is judged by the host alone.
pub proof fn who_judges_a_policy(
    error: ManagementError,
    enrolled: bool,
    candidate: PolicyCandidate,
)
    ensures
        is_policy_error(None, enrolled, candidate) <==> candidate.resolution is Ok && !(enrolled
            && candidate.names_secrets),
        is_policy_error(Some(error), enrolled, candidate) ==> !is_policy_error(
            None,
            enrolled,
            candidate,
        ),
        enrolled && candidate.names_secrets && is_policy_error(Some(error), enrolled, candidate)
            ==> error == ManagementError::EnrolledPolicyContainsSecretReferences,
        !enrolled ==> !is_policy_error(
            Some(ManagementError::EnrolledPolicyContainsSecretReferences),
            enrolled,
            candidate,
        ),
{
}

/// A fetch asks for nothing below the number of a cached manifest.
pub proof fn the_cache_sets_the_lowest_number(cached: Result<PolicyCandidate, String>)
    ensures
        cached is Ok ==> lowest_sequence(cached) == Some(cached->Ok_0.sequence),
        cached is Err ==> lowest_sequence(cached) is None,
{
}

/// A cached manifest is used for the very source and mode that it came from.
pub proof fn a_manifest_stays_with_its_source(
    cached: CachedManifest,
    config: LocalManagementConfig,
    other: LocalManagementConfig,
)
    requires
        cached.is_from(config),
    ensures
        config.manifest_url is Some,
        config.manifest_url->0@ == cached.source_url@,
        config.mode == cached.mode,
        cached.schema_version == 1,
        cached.is_from(other) <==> other.mode == config.mode && chars_of(other.manifest_url)
            == chars_of(config.manifest_url),
{
}

/// A machine reports where it knows the address, its own number and its token.
pub proof fn a_report_needs_all_three(config: LocalManagementConfig)
    ensures
        can_report(config) <==> config.status_url is Some && config.device_id is Some
            && config.status_token_ref is Some,
{
}

/// A machine is enrolled where it follows a signed manifest and holds both of
/// the credentials that enrolment gives out.
pub proof fn who_is_enrolled(config: LocalManagementConfig)
    ensures
        config.is_enrolled() <==> config.mode == ManagementMode::SignedManifest
            && config.status_token_ref is Some && config.enrollment_key_ref is Some,
        !LocalManagementConfig::unmanaged().is_enrolled(),
        LocalManagementConfig::unmanaged().mode == ManagementMode::Disabled,
        LocalManagementConfig::unmanaged().manifest_url is None,
        LocalManagementConfig::unmanaged().status_url is None,
{
}

/// Two configurations are one source where every field says the same.
pub proof fn a_source_is_all_of_its_fields(left: LocalManagementConfig, right: LocalManagementConfig)
    ensures
        left.reads_as(left),
        left.reads_as(right) <==> right.reads_as(left),
        left.reads_as(right) ==> left.mode == right.mode && left.refresh_interval_minutes
            == right.refresh_interval_minutes,
        left.reads_as(right) && left.manifest_url is Some ==> right.manifest_url is Some
            && left.manifest_url->0@ == right.manifest_url->0@,
        left.reads_as(right) && left.signing_public_key is Some ==> right.signing_public_key is Some
            && left.signing_public_key->0@ == right.signing_public_key->0@,
        left.reads_as(right) && left.status_url is Some ==> right.status_url is Some
            && left.status_url->0@ == right.status_url->0@,
        left.reads_as(right) && left.device_id is Some ==> right.device_id is Some
            && left.device_id->0@ == right.device_id->0@,
        left.reads_as(right) && left.status_token_ref is Some ==> right.status_token_ref is Some
            && left.status_token_ref->0@ == right.status_token_ref->0@,
        left.reads_as(right) && left.enrollment_key_ref is Some ==> right.enrollment_key_ref is Some
            && left.enrollment_key_ref->0@ == right.enrollment_key_ref->0@,
        left == right ==> left.reads_as(right),
{
}

/// A machine is reported under the start of its name, which is never empty.
pub proof fn a_machine_has_a_name(name: Seq<char>)
    ensures
        reported_name(Some(name)).len() <= 256,
        reported_name(Some(name)).len() > 0,
        0 < name.len() <= 256 ==> reported_name(Some(name)) == name,
        name.len() > 256 ==> reported_name(Some(name)) == name.take(256),
        name.len() == 0 ==> reported_name(Some(name)) == reported_name(None),
{
    reveal_strlit("unknown-windows-device");
}

/// A token is sent only where it is text on one line.
pub proof fn a_token_stays_on_its_line(token: Seq<u8>, at: int)
    requires
        is_header_token(token),
        0 <= at < vstd::utf8::decode_utf8(token).len(),
    ensures
        vstd::utf8::valid_utf8(token),
        vstd::utf8::decode_utf8(token)[at] != '\n',
        vstd::utf8::decode_utf8(token)[at] != '\r',
        vstd::utf8::decode_utf8(token)[at] != '\0',
{
    assert(vstd::utf8::decode_utf8(token).contains(vstd::utf8::decode_utf8(token)[at]));
}

/// Every text without a line end or a NUL is sent as it is.
pub proof fn a_plain_token_is_sent(token: Seq<u8>)
    requires
        vstd::utf8::valid_utf8(token),
        forall|i: int|
            0 <= i < vstd::utf8::decode_utf8(token).len() ==> {
                let character = #[trigger] vstd::utf8::decode_utf8(token)[i];
                character != '\n' && character != '\r' && character != '\0'
            },
    ensures
        is_header_token(token),
{
}

} // verus!

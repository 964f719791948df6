//! Policies from a management server: how one is fetched, which of the fetched
//! and the cached one counts, and what is kept of it.
use crate::config::{chars_of, LocalManagementConfig, ManagementMode};
use crate::status::copy_text;
use crate::text;
use vstd::prelude::*;

verus! {

/// The layout of the cache.
pub const CACHE_SCHEMA_VERSION: u32 = 1;

/// The largest cache that is read or written: 2 MiB.
pub const MAX_CACHE_BYTES: u64 = 2_097_152;

/// The longest name of a machine that a server is told.
pub const MAX_HOSTNAME_CHARACTERS: usize = 256;

/// Why there is no policy, or no report.
#[derive(Debug, PartialEq, Eq)]
pub enum ManagementError {
    ManagementDisabled,
    MissingManifestUrl,
    MissingSigningKey,
    ManifestTooLarge,
    EnrollmentTooLarge,
    InvalidUtf8,
    StatusReportingNotConfigured,
    CredentialStoreUnavailable,
    InvalidStatusToken,
    EnrolledPolicyContainsSecretReferences,
    CacheTooLarge,
    CacheDoesNotMatchSource,
    FetchAndCacheUnavailable { fetch: String, cache: String },
    /// What the host found wrong: with the configuration, the manifest, the
    /// policy, the connection or a file.
    Host { reason: String },
}

/// A token that can stand in a header: UTF-8 on one line.
pub open spec fn is_header_token(token: Seq<u8>) -> bool {
    let chars = vstd::utf8::decode_utf8(token);
    &&& vstd::utf8::valid_utf8(token)
    &&& !chars.contains('\0')
    &&& !chars.contains('\r')
    &&& !chars.contains('\n')
}

/// The header that a token of the credential store makes.
pub fn bearer_authorization(token: &[u8]) -> (header: Result<String, ManagementError>)
    ensures
        match header {
            Ok(header) => is_header_token(token@) && header@ == "Bearer "@
                + vstd::utf8::decode_utf8(token@),
            Err(error) => !is_header_token(token@) && error == ManagementError::InvalidStatusToken,
        },
{
    let token = match text::from_utf8(token) {
        Some(token) => token,
        None => return Err(ManagementError::InvalidStatusToken),
    };
    let chars = text::characters(token.as_str());
    if text::holds_character(&chars, '\0') || text::holds_character(&chars, '\r')
        || text::holds_character(&chars, '\n') {
        return Err(ManagementError::InvalidStatusToken);
    }
    Ok(text::joined("Bearer ", token.as_str()))
}

/// Where a manifest is fetched, and the credential that is sent along.
#[derive(Debug, PartialEq, Eq)]
pub struct FetchPlan {
    pub url: String,
    pub token_ref: Option<String>,
}

/// A machine that joined a server identifies itself to it; a plain manifest is
/// fetched without credentials.
pub fn plan_fetch(config: &LocalManagementConfig, credentials: bool) -> (plan: Result<
    FetchPlan,
    ManagementError,
>)
    ensures
        match plan {
            Ok(plan) => {
                let identified = config.mode is SignedManifest && config.status_token_ref is Some;
                &&& chars_of(config.manifest_url) == Some(plan.url@)
                &&& identified ==> credentials
                &&& chars_of(plan.token_ref) == (if identified {
                    chars_of(config.status_token_ref)
                } else {
                    None
                })
            },
            Err(error) => if config.manifest_url is None {
                error == ManagementError::MissingManifestUrl
            } else {
                &&& config.mode is SignedManifest
                &&& config.status_token_ref is Some
                &&& !credentials
                &&& error == ManagementError::CredentialStoreUnavailable
            },
        },
{
    let url = match &config.manifest_url {
        Some(url) => url.clone(),
        None => return Err(ManagementError::MissingManifestUrl),
    };
    let token_ref = if config.mode == ManagementMode::SignedManifest {
        copy_text(&config.status_token_ref)
    } else {
        None
    };
    if token_ref.is_some() && !credentials {
        return Err(ManagementError::CredentialStoreUnavailable);
    }
    Ok(FetchPlan { url, token_ref })
}

/// How a manifest is checked.
#[derive(Debug, PartialEq, Eq)]
pub enum ManifestCheck {
    Plain,
    Signed { public_key: String },
}

/// How a manifest of this length is checked.
pub fn plan_check(config: &LocalManagementConfig, length: usize, limit: usize) -> (check: Result<
    ManifestCheck,
    ManagementError,
>)
    ensures
        match check {
            Ok(check) => {
                &&& length <= limit
                &&& match check {
                    ManifestCheck::Plain => config.mode is PlainManifest,
                    ManifestCheck::Signed { public_key } => config.mode is SignedManifest
                        && chars_of(config.signing_public_key) == Some(public_key@),
                }
            },
            Err(error) => if length > limit {
                error == ManagementError::ManifestTooLarge
            } else if config.mode is Disabled {
                error == ManagementError::ManagementDisabled
            } else {
                &&& config.mode is SignedManifest
                &&& config.signing_public_key is None
                &&& error == ManagementError::MissingSigningKey
            },
        },
{
    if length > limit {
        return Err(ManagementError::ManifestTooLarge);
    }
    match config.mode {
        ManagementMode::PlainManifest => Ok(ManifestCheck::Plain),
        ManagementMode::SignedManifest => match &config.signing_public_key {
            Some(public_key) => Ok(ManifestCheck::Signed { public_key: public_key.clone() }),
            None => Err(ManagementError::MissingSigningKey),
        },
        ManagementMode::Disabled => Err(ManagementError::ManagementDisabled),
    }
}

/// The text of a manifest that was verified.
pub fn manifest_text(document: &[u8]) -> (text: Result<String, ManagementError>)
    ensures
        match text {
            Ok(text) => vstd::utf8::valid_utf8(document@) && text@ == vstd::utf8::decode_utf8(
                document@,
            ),
            Err(error) => !vstd::utf8::valid_utf8(document@) && error
                == ManagementError::InvalidUtf8,
        },
{
    match text::from_utf8(document) {
        Some(text) => Ok(text),
        None => Err(ManagementError::InvalidUtf8),
    }
}

/// A reply to an enrolment is read only up to its limit.
pub fn check_enrollment_length(length: usize, limit: usize) -> (checked: Result<
    (),
    ManagementError,
>)
    ensures
        checked is Ok == (length <= limit),
        checked is Err ==> checked->Err_0 == ManagementError::EnrollmentTooLarge,
{
    if length > limit {
        return Err(ManagementError::EnrollmentTooLarge);
    }
    Ok(())
}

/// Where and as whom a machine reports.
#[derive(Debug, PartialEq, Eq)]
pub struct ReportPlan {
    pub url: String,
    pub device_id: String,
    pub token_ref: String,
}

/// Whether everything is there that a report needs.
pub open spec fn can_report(config: LocalManagementConfig) -> bool {
    config.status_url is Some && config.device_id is Some && config.status_token_ref is Some
}

pub fn plan_report(config: &LocalManagementConfig) -> (plan: Result<ReportPlan, ManagementError>)
    ensures
        match plan {
            Ok(plan) => {
                &&& can_report(*config)
                &&& chars_of(config.status_url) == Some(plan.url@)
                &&& chars_of(config.device_id) == Some(plan.device_id@)
                &&& chars_of(config.status_token_ref) == Some(plan.token_ref@)
            },
            Err(error) => !can_report(*config) && error
                == ManagementError::StatusReportingNotConfigured,
        },
{
    match (&config.status_url, &config.device_id, &config.status_token_ref) {
        (Some(url), Some(device_id), Some(token_ref)) => Ok(
            ReportPlan {
                url: url.clone(),
                device_id: device_id.clone(),
                token_ref: token_ref.clone(),
            },
        ),
        _ => Err(ManagementError::StatusReportingNotConfigured),
    }
}

/// The name that a server is told: at most so many characters of the name of
/// the machine.
pub open spec fn reported_name(name: Option<Seq<char>>) -> Seq<char> {
    match name {
        Some(name) => if name.len() == 0 {
            "unknown-windows-device"@
        } else if name.len() > MAX_HOSTNAME_CHARACTERS {
            name.take(MAX_HOSTNAME_CHARACTERS as int)
        } else {
            name
        },
        None => "unknown-windows-device"@,
    }
}

pub fn bounded_hostname(name: Option<String>) -> (bounded: String)
    ensures
        bounded@ == reported_name(chars_of(name)),
{
    match name {
        Some(name) => {
            let chars = text::characters(name.as_str());
            if chars.len() == 0 {
                "unknown-windows-device".to_owned()
            } else if chars.len() > MAX_HOSTNAME_CHARACTERS {
                text::text_of(&chars, 0, MAX_HOSTNAME_CHARACTERS)
            } else {
                name
            }
        },
        None => "unknown-windows-device".to_owned(),
    }
}

/// A policy as the host has read it.
pub struct PolicyCandidate {
    /// The number of the manifest, which grows with every new policy.
    pub sequence: u64,
    /// The policy names credentials of the machine.
    pub names_secrets: bool,
    /// Whether the policy can be resolved with the machine's own configuration.
    pub resolution: Result<(), String>,
}

/// `error` is what is wrong with a policy.
pub open spec fn is_policy_error(
    error: Option<ManagementError>,
    enrolled: bool,
    candidate: PolicyCandidate,
) -> bool {
    if enrolled && candidate.names_secrets {
        error == Some(ManagementError::EnrolledPolicyContainsSecretReferences)
    } else {
        match candidate.resolution {
            Err(reason) => error == Some(ManagementError::Host { reason }),
            Ok(_) => error is None,
        }
    }
}

/// Whether a policy can come into effect. `enrolled` says that the machine
/// holds a key of its server, which then delivers credentials by value.
pub fn validate_effective_policy(enrolled: bool, candidate: PolicyCandidate) -> (valid: Result<
    (),
    ManagementError,
>)
    ensures
        match valid {
            Ok(_) => is_policy_error(None, enrolled, candidate),
            Err(error) => is_policy_error(Some(error), enrolled, candidate),
        },
{
    if enrolled && candidate.names_secrets {
        return Err(ManagementError::EnrolledPolicyContainsSecretReferences);
    }
    match candidate.resolution {
        Ok(_) => Ok(()),
        Err(reason) => Err(ManagementError::Host { reason }),
    }
}

/// Which policy counts.
#[derive(Debug, Clone, Copy, PartialEq, Eq, Structural)]
pub enum PolicyChoice {
    /// The machine is not managed.
    Unmanaged,
    /// The one in the cache.
    Cached,
    /// The one that was fetched, once it was saved to the cache.
    Fetched,
}

/// The number below which no manifest is accepted.
pub open spec fn lowest_sequence(cached: Result<PolicyCandidate, String>) -> Option<u64> {
    match cached {
        Ok(cached) => Some(cached.sequence),
        Err(_) => None,
    }
}

pub fn minimum_sequence(cached: &Result<PolicyCandidate, String>) -> (lowest: Option<u64>)
    ensures
        lowest == lowest_sequence(*cached),
{
    match cached {
        Ok(cached) => Some(cached.sequence),
        Err(_) => None,
    }
}

/// Which of two policies counts: a fetched one that is new, and else the cached
/// one, be it that the fetched one has the same number or that none could be
/// fetched.
pub open spec fn chooses(
    choice: Result<PolicyChoice, ManagementError>,
    enrolled: bool,
    cached: Result<PolicyCandidate, String>,
    fetched: Result<PolicyCandidate, String>,
) -> bool {
    match (fetched, cached) {
        (Ok(fetched), _) if lowest_sequence(cached) != Some(fetched.sequence) => match choice {
            Ok(choice) => choice is Fetched && is_policy_error(None, enrolled, fetched),
            Err(error) => is_policy_error(Some(error), enrolled, fetched),
        },
        (_, Ok(cached)) => match choice {
            Ok(choice) => choice is Cached && is_policy_error(None, enrolled, cached),
            Err(error) => is_policy_error(Some(error), enrolled, cached),
        },
        (Err(fetch), Err(cache)) => choice == Err::<PolicyChoice, ManagementError>(
            ManagementError::FetchAndCacheUnavailable { fetch, cache },
        ),
        _ => false,
    }
}

/// Decides between what the cache holds and what was fetched.
pub fn choose_policy(
    enrolled: bool,
    cached: Result<PolicyCandidate, String>,
    fetched: Result<PolicyCandidate, String>,
) -> (choice: Result<PolicyChoice, ManagementError>)
    ensures
        chooses(choice, enrolled, cached, fetched),
        ({
            let accepts = |candidate: PolicyCandidate|
                candidate.resolution is Ok && !(enrolled && candidate.names_secrets);
            let news = fetched is Ok && (cached is Err || fetched->Ok_0.sequence
                != cached->Ok_0.sequence);
            &&& choice == Ok::<PolicyChoice, ManagementError>(PolicyChoice::Fetched) <==> news
                && accepts(fetched->Ok_0)
            &&& choice == Ok::<PolicyChoice, ManagementError>(PolicyChoice::Cached) <==> !news
                && cached is Ok && accepts(cached->Ok_0)
        }),
{
    match fetched {
        Ok(fetched) => match cached {
            Ok(cached) => if cached.sequence == fetched.sequence {
                match validate_effective_policy(enrolled, cached) {
                    Ok(_) => Ok(PolicyChoice::Cached),
                    Err(error) => Err(error),
                }
            } else {
                match validate_effective_policy(enrolled, fetched) {
                    Ok(_) => Ok(PolicyChoice::Fetched),
                    Err(error) => Err(error),
                }
            },
            Err(_) => match validate_effective_policy(enrolled, fetched) {
                Ok(_) => Ok(PolicyChoice::Fetched),
                Err(error) => Err(error),
            },
        },
        Err(fetch) => match cached {
            Ok(cached) => match validate_effective_policy(enrolled, cached) {
                Ok(_) => Ok(PolicyChoice::Cached),
                Err(error) => Err(error),
            },
            Err(cache) => Err(ManagementError::FetchAndCacheUnavailable { fetch, cache }),
        },
    }
}

/// A policy in the cache outlives a server that cannot be reached, and one that
/// offers an older manifest, which is turned down when it is fetched.
pub proof fn the_cache_outlives_the_server(
    choice: Result<PolicyChoice, ManagementError>,
    enrolled: bool,
    cached: PolicyCandidate,
    reason: String,
)
    requires
        chooses(choice, enrolled, Ok(cached), Err(reason)),
        is_policy_error(None, enrolled, cached),
    ensures
        choice == Ok::<PolicyChoice, ManagementError>(PolicyChoice::Cached),
{
}

/// Only a policy that can come into effect is chosen.
pub proof fn a_chosen_policy_is_valid(
    choice: Result<PolicyChoice, ManagementError>,
    enrolled: bool,
    cached: Result<PolicyCandidate, String>,
    fetched: Result<PolicyCandidate, String>,
)
    requires
        chooses(choice, enrolled, cached, fetched),
    ensures
        choice matches Ok(PolicyChoice::Cached) ==> cached is Ok && is_policy_error(
            None,
            enrolled,
            cached->Ok_0,
        ),
        choice matches Ok(PolicyChoice::Fetched) ==> fetched is Ok && is_policy_error(
            None,
            enrolled,
            fetched->Ok_0,
        ),
{
}

/// A restart never goes back to an older policy: as long as a fetch turns down
/// manifests below the number of the cached one, what is fetched and chosen has
/// a higher number.
pub proof fn no_policy_is_rolled_back(
    choice: Result<PolicyChoice, ManagementError>,
    enrolled: bool,
    cached: Result<PolicyCandidate, String>,
    fetched: PolicyCandidate,
)
    requires
        chooses(choice, enrolled, cached, Ok(fetched)),
        lowest_sequence(cached) is Some ==> fetched.sequence >= lowest_sequence(cached)->0,
        choice matches Ok(PolicyChoice::Fetched),
    ensures
        lowest_sequence(cached) is Some ==> fetched.sequence > lowest_sequence(cached)->0,
{
}

/// Whether a policy is looked for at all, once the configuration of the
/// management was validated.
pub fn begin_load(config: &LocalManagementConfig, validation: Result<(), String>) -> (begun: Result<
    bool,
    ManagementError,
>)
    ensures
        match begun {
            Ok(looks) => looks == !(config.mode is Disabled) && (looks ==> validation is Ok),
            Err(error) => !(config.mode is Disabled) && validation is Err && error == (
            ManagementError::Host { reason: validation->Err_0 }),
        },
{
    if config.mode == ManagementMode::Disabled {
        return Ok(false);
    }
    match validation {
        Ok(_) => Ok(true),
        Err(reason) => Err(ManagementError::Host { reason }),
    }
}

/// What a refresh comes to: a manifest with the number that is in effect
/// changes nothing and is not looked at; any other is saved to the cache where
/// it is valid.
pub fn refresh_policy(enrolled: bool, minimum_sequence: u64, loaded: PolicyCandidate) -> (saves:
    Result<bool, ManagementError>)
    ensures
        match saves {
            Ok(saves) => saves == (loaded.sequence != minimum_sequence) && (saves
                ==> is_policy_error(None, enrolled, loaded)),
            Err(error) => loaded.sequence != minimum_sequence && is_policy_error(
                Some(error),
                enrolled,
                loaded,
            ),
        },
{
    if loaded.sequence == minimum_sequence {
        return Ok(false);
    }
    match validate_effective_policy(enrolled, loaded) {
        Ok(_) => Ok(true),
        Err(error) => Err(error),
    }
}

/// A manifest as it is kept for a start without a connection.
#[derive(Debug, PartialEq, Eq)]
pub struct CachedManifest {
    pub schema_version: u32,
    pub mode: ManagementMode,
    pub source_url: String,
    pub verified_at: i128,
    pub document: String,
}

impl CachedManifest {
    /// Whether the manifest came from the source that is configured.
    pub open spec fn is_from(self, config: LocalManagementConfig) -> bool {
        &&& self.schema_version == CACHE_SCHEMA_VERSION
        &&& self.mode == config.mode
        &&& chars_of(config.manifest_url) == Some(self.source_url@)
    }

    pub fn new(config: &LocalManagementConfig, document: &str, verified_at: i128) -> (cached:
        CachedManifest)
        ensures
            cached.schema_version == CACHE_SCHEMA_VERSION,
            cached.mode == config.mode,
            cached.source_url@ == (match config.manifest_url {
                Some(url) => url@,
                None => ""@,
            }),
            cached.verified_at == verified_at,
            cached.document@ == document@,
            config.manifest_url is Some ==> cached.is_from(*config),
    {
        CachedManifest {
            schema_version: CACHE_SCHEMA_VERSION,
            mode: config.mode,
            source_url: match &config.manifest_url {
                Some(url) => url.clone(),
                None => "".to_owned(),
            },
            verified_at,
            document: document.to_owned(),
        }
    }

    /// How the manifest is checked again, where it is from the configured source.
    pub fn check(&self, config: &LocalManagementConfig) -> (check: Result<
        ManifestCheck,
        ManagementError,
    >)
        ensures
            match check {
                Ok(check) => {
                    &&& self.is_from(*config)
                    &&& match check {
                        ManifestCheck::Plain => self.mode is PlainManifest,
                        ManifestCheck::Signed { public_key } => self.mode is SignedManifest
                            && chars_of(config.signing_public_key) == Some(public_key@),
                    }
                },
                Err(error) => if !self.is_from(*config) {
                    error == ManagementError::CacheDoesNotMatchSource
                } else if self.mode is Disabled {
                    error == ManagementError::ManagementDisabled
                } else {
                    &&& self.mode is SignedManifest
                    &&& config.signing_public_key is None
                    &&& error == ManagementError::MissingSigningKey
                },
            },
    {
        let same_source = match &config.manifest_url {
            Some(url) => *url == self.source_url,
            None => false,
        };
        if self.schema_version != CACHE_SCHEMA_VERSION || self.mode != config.mode
            || !same_source {
            return Err(ManagementError::CacheDoesNotMatchSource);
        }
        match self.mode {
            ManagementMode::PlainManifest => Ok(ManifestCheck::Plain),
            ManagementMode::SignedManifest => match &config.signing_public_key {
                Some(public_key) => Ok(ManifestCheck::Signed { public_key: public_key.clone() }),
                None => Err(ManagementError::MissingSigningKey),
            },
            ManagementMode::Disabled => Err(ManagementError::ManagementDisabled),
        }
    }
}

/// A cache is read and written only up to its limit.
pub fn check_cache_length(length: u64) -> (checked: Result<(), ManagementError>)
    ensures
        checked is Ok == (length <= MAX_CACHE_BYTES),
        checked is Err ==> checked->Err_0 == ManagementError::CacheTooLarge,
{
    if length > MAX_CACHE_BYTES {
        return Err(ManagementError::CacheTooLarge);
    }
    Ok(())
}

/// A manifest that was cached is accepted from the cache as long as the source
/// stays the same, and refused once it does not.
pub proof fn a_cached_manifest_belongs_to_its_source(
    cached: CachedManifest,
    before: LocalManagementConfig,
    after: LocalManagementConfig,
)
    requires
        cached.is_from(before),
    ensures
        cached.is_from(after) <==> after.mode == before.mode && chars_of(after.manifest_url)
            == chars_of(before.manifest_url),
{
}

} // verus!

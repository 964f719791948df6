//! Which updates the service installs, how it makes sure of them and how it
//! follows the installer.
use crate::paths;
use crate::protocol::UpdatePackage;
use crate::runtime::events::UpdateInstallOutcome;
use crate::text;
use base64::engine::general_purpose::STANDARD;
use base64::Engine;
use ed25519_dalek::{Signature, VerifyingKey};
use vstd::prelude::*;
use vstd::utf8::encode_utf8;

verus! {

/// The largest installer that is accepted: 512 MiB.
pub const MAX_UPDATE_BYTES: u64 = 536_870_912;

/// How long an installation may take before it is given up.
pub const UPDATE_INSTALL_TIMEOUT_SECONDS: u32 = 1800;

/// The pause between two looks at the installer.
pub const INSTALLER_POLL_NANOSECONDS: u64 = 250_000_000;

/// The longest text that is read as a signature.
pub const MAX_SIGNATURE_BYTES: usize = 256;

/// Why an update was not installed.
#[derive(Debug, Clone, Copy, PartialEq, Eq, Structural)]
pub enum UpdateError {
    InvalidVersion,
    NotNewer,
    InvalidUrl,
    InvalidLength,
    InvalidPublicKey,
    InvalidSignature,
    LengthMismatch { expected: u64, actual: u64 },
    UnsafeStagingDirectory,
    UnsafeStagingEntry,
    UntrustedStagingDirectory,
    UnsafeServiceDataEntry,
    UntrustedServiceDataEntry,
    StagingProtection,
    Io,
    Http,
    InstallerStart,
    InstallerExit { code: Option<i32> },
    InstallerTimeout,
    UpdateDeadlineExpired,
    InstallerTermination,
}

impl UpdateError {
    pub open spec fn code_text(self) -> Seq<char> {
        match self {
            UpdateError::InvalidVersion
            | UpdateError::NotNewer
            | UpdateError::InvalidUrl
            | UpdateError::InvalidLength => "update_metadata_invalid"@,
            UpdateError::InvalidPublicKey | UpdateError::InvalidSignature =>
                "update_signature_invalid"@,
            UpdateError::LengthMismatch { .. } | UpdateError::Io | UpdateError::Http =>
                "update_download_failed"@,
            UpdateError::UnsafeStagingDirectory
            | UpdateError::UnsafeStagingEntry
            | UpdateError::UntrustedStagingDirectory
            | UpdateError::UnsafeServiceDataEntry
            | UpdateError::UntrustedServiceDataEntry
            | UpdateError::StagingProtection => "update_staging_unsafe"@,
            UpdateError::UpdateDeadlineExpired => "update_deadline_exceeded"@,
            UpdateError::InstallerStart | UpdateError::InstallerExit { .. } =>
                "update_installer_failed"@,
            UpdateError::InstallerTimeout | UpdateError::InstallerTermination =>
                "update_installer_indeterminate"@,
        }
    }

    pub fn code(&self) -> (code: &'static str)
        ensures
            code@ == self.code_text(),
    {
        match self {
            UpdateError::InvalidVersion
            | UpdateError::NotNewer
            | UpdateError::InvalidUrl
            | UpdateError::InvalidLength => "update_metadata_invalid",
            UpdateError::InvalidPublicKey | UpdateError::InvalidSignature =>
                "update_signature_invalid",
            UpdateError::LengthMismatch { .. } | UpdateError::Io | UpdateError::Http =>
                "update_download_failed",
            UpdateError::UnsafeStagingDirectory
            | UpdateError::UnsafeStagingEntry
            | UpdateError::UntrustedStagingDirectory
            | UpdateError::UnsafeServiceDataEntry
            | UpdateError::UntrustedServiceDataEntry
            | UpdateError::StagingProtection => "update_staging_unsafe",
            UpdateError::UpdateDeadlineExpired => "update_deadline_exceeded",
            UpdateError::InstallerStart | UpdateError::InstallerExit { .. } =>
                "update_installer_failed",
            UpdateError::InstallerTimeout | UpdateError::InstallerTermination =>
                "update_installer_indeterminate",
        }
    }

    /// The installer may still be at work.
    pub open spec fn is_indeterminate(self) -> bool {
        self is InstallerTimeout || self is InstallerTermination
    }

    pub fn installer_state_is_indeterminate(&self) -> (indeterminate: bool)
        ensures
            indeterminate == self.is_indeterminate(),
    {
        match self {
            UpdateError::InstallerTimeout | UpdateError::InstallerTermination => true,
            _ => false,
        }
    }
}

/// A version of resticpal.
#[derive(Debug, Clone, Copy, PartialEq, Eq, Structural)]
pub struct Version {
    pub major: u64,
    pub minor: u64,
    pub patch: u64,
}

impl Version {
    /// Versions are ordered by their numbers, the first of which weighs most.
    pub open spec fn is_newer_than(self, other: Version) -> bool {
        ||| self.major > other.major
        ||| self.major == other.major && self.minor > other.minor
        ||| self.major == other.major && self.minor == other.minor && self.patch > other.patch
    }

    pub fn newer_than(&self, other: &Version) -> (newer: bool)
        ensures
            newer == self.is_newer_than(*other),
    {
        self.major > other.major || (self.major == other.major && self.minor > other.minor) || (
        self.major == other.major && self.minor == other.minor && self.patch > other.patch)
    }

    /// The version that a text of exactly three numbers names.
    pub open spec fn named_by(text: Seq<char>) -> Option<Version> {
        let parts = text::pieces(text, '.');
        if parts.len() == 3 {
            match (
                text::whole_number(parts[0]),
                text::whole_number(parts[1]),
                text::whole_number(parts[2]),
            ) {
                (Some(major), Some(minor), Some(patch)) => Some(Version { major, minor, patch }),
                _ => None,
            }
        } else {
            None
        }
    }
}

/// Of two versions at most one is newer, and of two different ones exactly one is.
pub proof fn versions_are_ordered(left: Version, right: Version)
    ensures
        !(left.is_newer_than(right) && right.is_newer_than(left)),
        left != right <==> left.is_newer_than(right) || right.is_newer_than(left),
{
}

/// What is newer than a newer version is newer.
pub proof fn newer_versions_chain(first: Version, second: Version, third: Version)
    requires
        first.is_newer_than(second),
        second.is_newer_than(third),
    ensures
        first.is_newer_than(third),
{
}

pub fn parse_version(value: &str) -> (version: Option<Version>)
    ensures
        version == Version::named_by(value@),
{
    let parts = text::split_text(value, '.');
    proof {
        assert(crate::config::texts_of(parts@).len() == parts@.len());
    }
    if parts.len() != 3 {
        return None;
    }
    proof {
        assert(crate::config::texts_of(parts@)[0] == parts@[0]@);
        assert(crate::config::texts_of(parts@)[1] == parts@[1]@);
        assert(crate::config::texts_of(parts@)[2] == parts@[2]@);
    }
    match (
        text::parse_whole_number(parts[0].as_str()),
        text::parse_whole_number(parts[1].as_str()),
        text::parse_whole_number(parts[2].as_str()),
    ) {
        (Some(major), Some(minor), Some(patch)) => Some(Version { major, minor, patch }),
        _ => None,
    }
}

/// The version of this service.
pub open spec fn own_version() -> Version {
    Version { major: 0, minor: 1, patch: 0 }
}

pub fn service_version() -> (version: Version)
    ensures
        version == own_version(),
{
    Version { major: 0, minor: 1, patch: 0 }
}

/// The name of the installer of a version.
pub open spec fn installer_name(version: Seq<char>) -> Seq<char> {
    "resticpal-"@ + version + "-x64.msi"@
}

fn installer_file_name(version: &str) -> (name: String)
    ensures
        name@ == installer_name(version@),
{
    let front = text::joined("resticpal-", version);
    text::joined(front.as_str(), "-x64.msi")
}

/// Where the installer of a version is published: below `root`.
pub open spec fn release_asset(root: Seq<char>, version: Seq<char>) -> Seq<char> {
    root + version + "/"@ + installer_name(version)
}

fn release_asset_url(root: &str, version: &str) -> (url: String)
    ensures
        url@ == release_asset(root@, version@),
{
    let tagged = text::joined(root, version);
    let directory = text::joined(tagged.as_str(), "/");
    let name = installer_file_name(version);
    text::joined(directory.as_str(), name.as_str())
}

/// The two places from which an installer may come.
pub open spec fn is_release_asset(url: Seq<char>, version: Seq<char>) -> bool {
    ||| url == release_asset("https://github.com/theatrus/resticpal/releases/download/v"@, version)
    ||| url == release_asset("https://updates.resticpal.com/releases/v"@, version)
}

/// The bytes that base64 text encodes: its standard alphabet, with padding.
pub uninterp spec fn base64_standard(text: Seq<char>) -> Option<Seq<u8>>;

/// `Engine::decode` of `base64::engine::general_purpose::STANDARD`: which texts
/// are base64, and what bytes they encode, depends on the text alone.
#[verifier::external_body]
pub(crate) fn decode_base64(encoded: &str) -> (decoded: Option<Vec<u8>>)
    ensures
        decoded is Some == base64_standard(encoded@) is Some,
        decoded is Some ==> base64_standard(encoded@) == Some(decoded->0@),
{
    STANDARD.decode(encoded).ok()
}

/// Whether 32 bytes are the encoding of an Ed25519 public key.
pub uninterp spec fn is_verifying_key(bytes: Seq<u8>) -> bool;

/// `ed25519_dalek::VerifyingKey::from_bytes`: whether the bytes are a key
/// depends on the bytes alone.
#[verifier::external_body]
pub(crate) fn accepts_verifying_key(bytes: &Vec<u8>) -> (accepted: bool)
    requires
        bytes@.len() == 32,
    ensures
        accepted == is_verifying_key(bytes@),
{
    let key: Result<[u8; 32], _> = bytes.as_slice().try_into();
    key.is_ok_and(|key| VerifyingKey::from_bytes(&key).is_ok())
}

/// Whether `signature` is a strict Ed25519 signature of `message` by `key`.
pub uninterp spec fn verifies_strictly(
    key: Seq<u8>,
    message: Seq<u8>,
    signature: Seq<u8>,
) -> bool;

/// `ed25519_dalek::VerifyingKey::verify_strict`: whether the signature holds
/// depends on the key, the message and the signature alone.
#[verifier::external_body]
pub(crate) fn verify_strict(key: &Vec<u8>, message: &[u8], signature: &Vec<u8>) -> (verified: bool)
    requires
        key@.len() == 32,
        is_verifying_key(key@),
        signature@.len() == 64,
    ensures
        verified == verifies_strictly(key@, message@, signature@),
{
    let bytes: Result<[u8; 32], _> = key.as_slice().try_into();
    let signed: Result<[u8; 64], _> = signature.as_slice().try_into();
    let key = bytes.ok().and_then(|bytes| VerifyingKey::from_bytes(&bytes).ok());
    let signed = signed.ok().map(|bytes| Signature::from_bytes(&bytes));
    key.zip(signed).is_some_and(|(key, signed)| key.verify_strict(message, &signed).is_ok())
}

/// A text that is not even tried as a signature: too long, or with a character
/// that ends a line or a string.
pub open spec fn is_no_signature(value: Seq<char>) -> bool {
    ||| encode_utf8(value).len() > MAX_SIGNATURE_BYTES
    ||| value.contains('\0')
    ||| value.contains('\r')
    ||| value.contains('\n')
}

/// The signature that a text holds once its base64 was decoded.
pub open spec fn signature_in(value: Seq<char>, decoded: Option<Seq<u8>>) -> Option<Seq<u8>> {
    if is_no_signature(value) || decoded is None || decoded->0.len() != 64 {
        None
    } else {
        decoded
    }
}

/// What a decoded text is as a signature.
pub fn read_signature(value: &str, decoded: Option<Vec<u8>>) -> (signature: Result<
    Vec<u8>,
    UpdateError,
>)
    ensures
        match signature {
            Ok(bytes) => decoded is Some && signature_in(value@, Some(decoded->0@)) == Some(bytes@),
            Err(error) => error == UpdateError::InvalidSignature && (decoded is None
                || signature_in(value@, Some(decoded->0@)) is None),
        },
{
    let chars = text::characters(value);
    if value.as_bytes().len() > MAX_SIGNATURE_BYTES || text::holds_character(&chars, '\0')
        || text::holds_character(&chars, '\r') || text::holds_character(&chars, '\n') {
        return Err(UpdateError::InvalidSignature);
    }
    match decoded {
        Some(bytes) => if bytes.len() == 64 {
            Ok(bytes)
        } else {
            Err(UpdateError::InvalidSignature)
        },
        None => Err(UpdateError::InvalidSignature),
    }
}

/// The signature that a text encodes, where it is one.
pub open spec fn signature_of(value: Seq<char>) -> Option<Seq<u8>> {
    signature_in(value, base64_standard(value))
}

pub fn decode_signature(value: &str) -> (signature: Result<Vec<u8>, UpdateError>)
    ensures
        match signature {
            Ok(bytes) => signature_of(value@) == Some(bytes@),
            Err(error) => error == UpdateError::InvalidSignature && signature_of(value@) is None,
        },
{
    read_signature(value, decode_base64(value))
}

/// What is wrong with a package apart from its signature, in the order in
/// which it is looked at.
pub open spec fn metadata_error(package: UpdatePackage, current: Version) -> Option<UpdateError> {
    match Version::named_by(package.version@) {
        None => Some(UpdateError::InvalidVersion),
        Some(version) => if !version.is_newer_than(current) {
            Some(UpdateError::NotNewer)
        } else if package.length == 0 || package.length > MAX_UPDATE_BYTES {
            Some(UpdateError::InvalidLength)
        } else if !is_release_asset(package.url@, package.version@) {
            Some(UpdateError::InvalidUrl)
        } else {
            None
        },
    }
}

/// Checks everything of a package but its signature, against the installed version.
pub fn validate_metadata(package: &UpdatePackage, current: &Version) -> (valid: Result<
    (),
    UpdateError,
>)
    ensures
        match valid {
            Ok(_) => metadata_error(*package, *current) is None,
            Err(error) => metadata_error(*package, *current) == Some(error),
        },
{
    let version = match parse_version(package.version.as_str()) {
        Some(version) => version,
        None => return Err(UpdateError::InvalidVersion),
    };
    if !version.newer_than(current) {
        return Err(UpdateError::NotNewer);
    }
    if package.length == 0 || package.length > MAX_UPDATE_BYTES {
        return Err(UpdateError::InvalidLength);
    }
    let expected_github_url = release_asset_url(
        "https://github.com/theatrus/resticpal/releases/download/v",
        package.version.as_str(),
    );
    let expected_primary_url = release_asset_url(
        "https://updates.resticpal.com/releases/v",
        package.version.as_str(),
    );
    if package.url != expected_github_url && package.url != expected_primary_url {
        return Err(UpdateError::InvalidUrl);
    }
    Ok(())
}

/// What is wrong with a package.
pub open spec fn package_error(package: UpdatePackage) -> Option<UpdateError> {
    match metadata_error(package, own_version()) {
        Some(error) => Some(error),
        None => if signature_of(package.signature@) is None {
            Some(UpdateError::InvalidSignature)
        } else {
            None
        },
    }
}

/// Whether a package names a newer release, from where releases are published,
/// with a signature.
pub fn validate_package(package: &UpdatePackage) -> (valid: Result<(), UpdateError>)
    ensures
        match valid {
            Ok(_) => package_error(*package) is None,
            Err(error) => package_error(*package) == Some(error),
        },
{
    match validate_metadata(package, &service_version()) {
        Ok(_) => {},
        Err(error) => return Err(error),
    }
    match decode_signature(package.signature.as_str()) {
        Ok(_) => Ok(()),
        Err(error) => Err(error),
    }
}

/// A package that is accepted comes from one of two places, is newer than the
/// service and not too large.
pub proof fn an_accepted_package_is_a_newer_release(package: UpdatePackage)
    requires
        package_error(package) is None,
    ensures
        Version::named_by(package.version@) is Some,
        Version::named_by(package.version@)->0.is_newer_than(own_version()),
        is_release_asset(package.url@, package.version@),
        0 < package.length <= MAX_UPDATE_BYTES,
        signature_of(package.signature@) is Some,
{
}

/// The public key that a text encodes, where it is one.
pub open spec fn public_key_of(encoded: Seq<char>) -> Option<Seq<u8>> {
    let decoded = base64_standard(text::trimmed(encoded));
    if decoded is Some && decoded->0.len() == 32 && is_verifying_key(decoded->0) {
        decoded
    } else {
        None
    }
}

/// What is wrong with a signed installer.
pub open spec fn contents_error(
    contents: Seq<u8>,
    encoded_signature: Seq<char>,
    encoded_public_key: Seq<char>,
) -> Option<UpdateError> {
    verification_error(
        public_key_of(encoded_public_key) is Some,
        signature_of(encoded_signature) is Some,
        verifies_strictly(
            public_key_of(encoded_public_key)->0,
            contents,
            signature_of(encoded_signature)->0,
        ),
    )
}

/// What is wrong with a signed installer once its parts were looked at.
pub open spec fn verification_error(
    key_is_valid: bool,
    signature_is_valid: bool,
    signature_holds: bool,
) -> Option<UpdateError> {
    if !key_is_valid {
        Some(UpdateError::InvalidPublicKey)
    } else if !signature_is_valid || !signature_holds {
        Some(UpdateError::InvalidSignature)
    } else {
        None
    }
}

pub fn verification_result(
    key_is_valid: bool,
    signature_is_valid: bool,
    signature_holds: bool,
) -> (result: Result<(), UpdateError>)
    ensures
        match result {
            Ok(_) => verification_error(key_is_valid, signature_is_valid, signature_holds) is None,
            Err(error) => verification_error(key_is_valid, signature_is_valid, signature_holds)
                == Some(error),
        },
{
    if !key_is_valid {
        Err(UpdateError::InvalidPublicKey)
    } else if !signature_is_valid || !signature_holds {
        Err(UpdateError::InvalidSignature)
    } else {
        Ok(())
    }
}

/// Whether the installer carries a signature of the key.
pub fn verify_contents_with_public_key(
    contents: &[u8],
    encoded_signature: &str,
    encoded_public_key: &str,
) -> (verified: Result<(), UpdateError>)
    ensures
        match verified {
            Ok(_) => contents_error(contents@, encoded_signature@, encoded_public_key@) is None,
            Err(error) => contents_error(contents@, encoded_signature@, encoded_public_key@)
                == Some(error),
        },
{
    let trimmed = text::trim(encoded_public_key);
    let key = match decode_base64(trimmed.as_str()) {
        Some(key) => key,
        None => return verification_result(false, false, false),
    };
    if key.len() != 32 || !accepts_verifying_key(&key) {
        return verification_result(false, false, false);
    }
    let signature = match decode_signature(encoded_signature) {
        Ok(signature) => signature,
        Err(_) => return verification_result(true, false, false),
    };
    let holds = verify_strict(&key, contents, &signature);
    verification_result(true, true, holds)
}

/// Checks an opened installer: the length of the file, the length of what was
/// read from it, and its signature.
pub fn verify_open_file_with_public_key(
    file_length: u64,
    contents: &[u8],
    expected_length: u64,
    encoded_signature: &str,
    encoded_public_key: &str,
) -> (verified: Result<(), UpdateError>)
    ensures
        file_length != expected_length ==> verified == Err::<(), UpdateError>(
            UpdateError::LengthMismatch { expected: expected_length, actual: file_length },
        ),
        file_length == expected_length && contents@.len() != expected_length ==> verified == Err::<
            (),
            UpdateError,
        >(
            UpdateError::LengthMismatch {
                expected: expected_length,
                actual: contents@.len() as u64,
            },
        ),
        file_length == expected_length && contents@.len() == expected_length ==> match verified {
            Ok(_) => contents_error(contents@, encoded_signature@, encoded_public_key@) is None,
            Err(error) => contents_error(contents@, encoded_signature@, encoded_public_key@)
                == Some(error),
        },
{
    if file_length != expected_length {
        return Err(UpdateError::LengthMismatch { expected: expected_length, actual: file_length });
    }
    let read: u64 = contents.len() as u64;
    if read != expected_length {
        return Err(UpdateError::LengthMismatch { expected: expected_length, actual: read });
    }
    verify_contents_with_public_key(contents, encoded_signature, encoded_public_key)
}

/// The files of an installation.
#[derive(Debug, PartialEq, Eq)]
pub struct StagedUpdate {
    pub directory: String,
    pub installer: String,
    pub partial: String,
    pub log: String,
}

impl StagedUpdate {
    pub open spec fn lies_below(self, data_root: Seq<char>, version: Seq<char>) -> bool {
        let directory = paths::below(data_root, "Updates"@);
        &&& self.directory@ == directory
        &&& self.installer@ == paths::below(directory, installer_name(version))
        &&& self.partial@ == paths::below(directory, installer_name(version) + ".partial"@)
        &&& self.log@ == paths::below(directory, "install.log"@)
    }

    pub fn new(data_root: &str, version: &str) -> (staged: StagedUpdate)
        ensures
            staged.lies_below(data_root@, version@),
    {
        let directory = paths::join(data_root, "Updates");
        let name = installer_file_name(version);
        let partial_name = text::joined(name.as_str(), ".partial");
        StagedUpdate {
            installer: paths::join(directory.as_str(), name.as_str()),
            partial: paths::join(directory.as_str(), partial_name.as_str()),
            log: paths::join(directory.as_str(), "install.log"),
            directory,
        }
    }
}

/// What an installation does next.
#[derive(Debug, Clone, Copy, PartialEq, Eq, Structural)]
pub enum InstallStep {
    SecureDataRoot,
    SecureUpdates,
    RemovePartial,
    RemoveInstaller,
    Download,
    Rename,
    Verify,
    RemoveLog,
    Start,
    Follow,
    /// Nothing: the installer ended well.
    Installed,
    /// Removes the partial download, whatever comes of it, and fails.
    DropPartial { error: UpdateError },
    /// Removes the installer, whatever comes of it, and fails.
    DropInstaller { error: UpdateError },
    Failed { error: UpdateError },
}

/// The step after `step`, once it went so.
pub open spec fn step_after(step: InstallStep, went: Result<(), UpdateError>) -> InstallStep {
    match went {
        Ok(_) => match step {
            InstallStep::SecureDataRoot => InstallStep::SecureUpdates,
            InstallStep::SecureUpdates => InstallStep::RemovePartial,
            InstallStep::RemovePartial => InstallStep::RemoveInstaller,
            InstallStep::RemoveInstaller => InstallStep::Download,
            InstallStep::Download => InstallStep::Rename,
            InstallStep::Rename => InstallStep::Verify,
            InstallStep::Verify => InstallStep::RemoveLog,
            InstallStep::RemoveLog => InstallStep::Start,
            InstallStep::Start => InstallStep::Follow,
            InstallStep::Follow => InstallStep::Installed,
            InstallStep::DropPartial { error } => InstallStep::Failed { error },
            InstallStep::DropInstaller { error } => InstallStep::Failed { error },
            _ => step,
        },
        Err(error) => match step {
            InstallStep::Download => InstallStep::DropPartial { error },
            InstallStep::Verify | InstallStep::RemoveLog => InstallStep::DropInstaller { error },
            InstallStep::DropPartial { error: first } => InstallStep::Failed { error: first },
            InstallStep::DropInstaller { error: first } => InstallStep::Failed { error: first },
            InstallStep::Installed | InstallStep::Failed { .. } => step,
            _ => InstallStep::Failed { error },
        },
    }
}

impl InstallStep {
    /// The first step of the installation of a package.
    pub fn begin(package: &UpdatePackage) -> (step: InstallStep)
        ensures
            step == (match package_error(*package) {
                Some(error) => InstallStep::Failed { error },
                None => InstallStep::SecureDataRoot,
            }),
    {
        match validate_package(package) {
            Ok(_) => InstallStep::SecureDataRoot,
            Err(error) => InstallStep::Failed { error },
        }
    }

    pub fn advance(self, went: Result<(), UpdateError>) -> (next: InstallStep)
        ensures
            next == step_after(self, went),
    {
        match went {
            Ok(_) => match self {
                InstallStep::SecureDataRoot => InstallStep::SecureUpdates,
                InstallStep::SecureUpdates => InstallStep::RemovePartial,
                InstallStep::RemovePartial => InstallStep::RemoveInstaller,
                InstallStep::RemoveInstaller => InstallStep::Download,
                InstallStep::Download => InstallStep::Rename,
                InstallStep::Rename => InstallStep::Verify,
                InstallStep::Verify => InstallStep::RemoveLog,
                InstallStep::RemoveLog => InstallStep::Start,
                InstallStep::Start => InstallStep::Follow,
                InstallStep::Follow => InstallStep::Installed,
                InstallStep::DropPartial { error } => InstallStep::Failed { error },
                InstallStep::DropInstaller { error } => InstallStep::Failed { error },
                _ => self,
            },
            Err(error) => match self {
                InstallStep::Download => InstallStep::DropPartial { error },
                InstallStep::Verify | InstallStep::RemoveLog => InstallStep::DropInstaller {
                    error,
                },
                InstallStep::DropPartial { error: first } => InstallStep::Failed { error: first },
                InstallStep::DropInstaller { error: first } => InstallStep::Failed { error: first },
                InstallStep::Installed | InstallStep::Failed { .. } => self,
                _ => InstallStep::Failed { error },
            },
        }
    }
}

/// Nothing is started, and the log of the last installation is not touched,
/// before the installer was verified: each of these steps follows only on the
/// success of the one before it, and the first of them on a verified installer.
pub proof fn only_a_verified_installer_is_started(
    step: InstallStep,
    went: Result<(), UpdateError>,
)
    ensures
        step_after(step, went) is RemoveLog ==> step is Verify && went is Ok,
        step_after(step, went) is Start ==> step is RemoveLog && went is Ok,
        step_after(step, went) is Follow ==> step is Start && went is Ok,
        step_after(step, went) is Installed ==> step is Installed || (step is Follow && went is Ok),
{
}

/// The error that ends an installation is the first one.
pub proof fn the_first_error_stands(
    step: InstallStep,
    error: UpdateError,
    later: Result<(), UpdateError>,
)
    requires
        !(step is Installed),
        !(step is Failed),
        !(step is DropPartial),
        !(step is DropInstaller),
    ensures
        ({
            let next = step_after(step, Err(error));
            let last = step_after(next, later);
            &&& next == (InstallStep::Failed { error }) || last == (InstallStep::Failed { error })
        }),
{
}

/// Turns down an installer that was downloaded with another length.
pub fn check_download(copied: u64, expected: u64) -> (checked: Result<(), UpdateError>)
    ensures
        checked == (if copied == expected {
            Ok::<(), UpdateError>(())
        } else {
            Err(UpdateError::LengthMismatch { expected, actual: copied })
        }),
{
    if copied != expected {
        return Err(UpdateError::LengthMismatch { expected, actual: copied });
    }
    Ok(())
}

/// How an entry that stands where an update is staged is taken away.
#[derive(Debug, Clone, Copy, PartialEq, Eq, Structural)]
pub enum StagingRemoval {
    RemoveDirectory,
    RemoveFile,
}

/// A link is removed as what it is, without following it; a plain file is
/// removed; anything else is left alone.
pub fn staging_removal(is_reparse_point: bool, is_directory: bool, is_file: bool) -> (removal:
    Result<StagingRemoval, UpdateError>)
    ensures
        removal == (if is_reparse_point {
            Ok::<StagingRemoval, UpdateError>(
                if is_directory {
                    StagingRemoval::RemoveDirectory
                } else {
                    StagingRemoval::RemoveFile
                },
            )
        } else if is_file {
            Ok(StagingRemoval::RemoveFile)
        } else {
            Err(UpdateError::UnsafeStagingEntry)
        }),
{
    if is_reparse_point {
        if is_directory {
            return Ok(StagingRemoval::RemoveDirectory);
        }
        return Ok(StagingRemoval::RemoveFile);
    }
    if is_file {
        Ok(StagingRemoval::RemoveFile)
    } else {
        Err(UpdateError::UnsafeStagingEntry)
    }
}

/// What Windows says of an entry of the file system.
pub const FILE_ATTRIBUTE_DIRECTORY: u32 = 0x10;

pub const FILE_ATTRIBUTE_REPARSE_POINT: u32 = 0x400;

/// The attributes are those of a directory that is no link.
pub open spec fn is_plain_directory(attributes: u32) -> bool {
    attributes & FILE_ATTRIBUTE_DIRECTORY != 0 && attributes & FILE_ATTRIBUTE_REPARSE_POINT == 0
}

/// The attributes are those of a file that is no link.
pub open spec fn is_plain_file(attributes: u32) -> bool {
    attributes & FILE_ATTRIBUTE_DIRECTORY == 0 && attributes & FILE_ATTRIBUTE_REPARSE_POINT == 0
}

pub fn validate_directory_attributes(attributes: u32) -> (valid: Result<(), UpdateError>)
    ensures
        valid == (if is_plain_directory(attributes) {
            Ok::<(), UpdateError>(())
        } else {
            Err(UpdateError::UnsafeStagingDirectory)
        }),
{
    if attributes & FILE_ATTRIBUTE_DIRECTORY == 0 || attributes & FILE_ATTRIBUTE_REPARSE_POINT != 0 {
        return Err(UpdateError::UnsafeStagingDirectory);
    }
    Ok(())
}

pub fn validate_file_attributes(attributes: u32) -> (valid: Result<(), UpdateError>)
    ensures
        valid == (if is_plain_file(attributes) {
            Ok::<(), UpdateError>(())
        } else {
            Err(UpdateError::UnsafeServiceDataEntry)
        }),
{
    if attributes & FILE_ATTRIBUTE_DIRECTORY != 0 || attributes & FILE_ATTRIBUTE_REPARSE_POINT != 0 {
        return Err(UpdateError::UnsafeServiceDataEntry);
    }
    Ok(())
}

/// A directory is taken over where the service made it or a trusted owner has
/// it. One of another owner never is: who opened it before could still use it.
pub fn admit_directory(created: bool, enforce_trusted_owner: bool, owner_is_trusted: bool) -> (admitted:
    Result<(), UpdateError>)
    ensures
        admitted == (if created || !enforce_trusted_owner || owner_is_trusted {
            Ok::<(), UpdateError>(())
        } else {
            Err(UpdateError::UntrustedStagingDirectory)
        }),
{
    if created || !enforce_trusted_owner || owner_is_trusted {
        Ok(())
    } else {
        Err(UpdateError::UntrustedStagingDirectory)
    }
}

/// A file of the service is taken over where a trusted owner has it.
pub fn admit_file(enforce_trusted_owner: bool, owner_is_trusted: bool) -> (admitted: Result<
    (),
    UpdateError,
>)
    ensures
        admitted == (if !enforce_trusted_owner || owner_is_trusted {
            Ok::<(), UpdateError>(())
        } else {
            Err(UpdateError::UntrustedServiceDataEntry)
        }),
{
    if enforce_trusted_owner && !owner_is_trusted {
        return Err(UpdateError::UntrustedServiceDataEntry);
    }
    Ok(())
}

/// Whether the protection that was applied is the one that was asked for.
pub fn verify_protection(
    list_is_protected: bool,
    list_matches: bool,
    enforce_trusted_owner: bool,
    owner_matches: bool,
    group_matches: bool,
) -> (verified: Result<(), UpdateError>)
    ensures
        verified == (if list_is_protected && list_matches && (!enforce_trusted_owner || (
        owner_matches && group_matches)) {
            Ok::<(), UpdateError>(())
        } else {
            Err(UpdateError::UnsafeStagingDirectory)
        }),
{
    if !list_is_protected || !list_matches {
        return Err(UpdateError::UnsafeStagingDirectory);
    }
    if enforce_trusted_owner && (!owner_matches || !group_matches) {
        return Err(UpdateError::UnsafeStagingDirectory);
    }
    Ok(())
}

/// The names of `root` and of the given entries of it.
pub open spec fn listed_below(root: Seq<char>, names: Seq<Seq<char>>) -> Seq<Seq<char>> {
    names.map_values(|name: Seq<char>| paths::below(root, name))
}

/// The directories below the data root that only the system may write.
pub open spec fn protected_directory_names() -> Seq<Seq<char>> {
    seq!["Cache"@, "Credentials"@, "Logs"@, "Updates"@]
}

/// The files in the data root that only the system may write.
pub open spec fn protected_file_names() -> Seq<Seq<char>> {
    seq![
        "config.toml"@,
        "state.json"@,
        "state.db"@,
        "state.db-wal"@,
        "state.db-shm"@,
        "state.db-journal"@,
        "managed-policy-cache.json"@,
        "service-startup-errors.log"@,
    ]
}

/// Every directory that is protected before the service starts, the root first.
pub fn protected_directories(data_root: &str) -> (directories: Vec<String>)
    ensures
        crate::config::texts_of(directories@) == seq![data_root@] + listed_below(
            data_root@,
            protected_directory_names(),
        ),
{
    let directories = vec![
        data_root.to_owned(),
        paths::join(data_root, "Cache"),
        paths::join(data_root, "Credentials"),
        paths::join(data_root, "Logs"),
        paths::join(data_root, "Updates"),
    ];
    proof {
        assert(crate::config::texts_of(directories@) =~= seq![data_root@] + listed_below(
            data_root@,
            protected_directory_names(),
        ));
    }
    directories
}

/// Every file that is protected before the service starts, where it exists.
pub fn protected_files(data_root: &str) -> (files: Vec<String>)
    ensures
        crate::config::texts_of(files@) == listed_below(data_root@, protected_file_names()).push(
            paths::below(paths::below(data_root@, "Logs"@), "service.jsonl"@),
        ),
{
    let logs = paths::join(data_root, "Logs");
    let files = vec![
        paths::join(data_root, "config.toml"),
        paths::join(data_root, "state.json"),
        paths::join(data_root, "state.db"),
        paths::join(data_root, "state.db-wal"),
        paths::join(data_root, "state.db-shm"),
        paths::join(data_root, "state.db-journal"),
        paths::join(data_root, "managed-policy-cache.json"),
        paths::join(data_root, "service-startup-errors.log"),
        paths::join(logs.as_str(), "service.jsonl"),
    ];
    proof {
        assert(crate::config::texts_of(files@) =~= listed_below(
            data_root@,
            protected_file_names(),
        ).push(paths::below(paths::below(data_root@, "Logs"@), "service.jsonl"@)));
    }
    files
}

/// What the service does next while the installer runs.
#[derive(Debug, Clone, Copy, PartialEq, Eq)]
pub enum InstallerStage {
    Poll,
    Sleep { nanoseconds: u64 },
    Kill,
    /// A last look at an installer that could not be killed.
    PollOnceMore,
    Reap,
    /// Kills an installer whose state cannot be read.
    KillUnseen,
    ReapUnseen,
    Ended { result: Result<Option<i32>, UpdateError> },
}

/// How a step went that the service took on the installer.
#[derive(Debug, Clone, Copy, PartialEq, Eq, Structural)]
pub enum InstallerEvent {
    Exited { code: Option<i32> },
    Running,
    Done,
    Refused,
}

/// The stage after `stage`. Both times are nanoseconds of one clock.
pub open spec fn stage_after(
    stage: InstallerStage,
    event: InstallerEvent,
    now: u64,
    deadline: u64,
) -> InstallerStage {
    let unclear = InstallerStage::Ended { result: Err(UpdateError::InstallerTermination) };
    match stage {
        InstallerStage::Poll => match event {
            InstallerEvent::Exited { code } => InstallerStage::Ended { result: Ok(code) },
            InstallerEvent::Running => if now < deadline {
                InstallerStage::Sleep {
                    nanoseconds: if deadline - now < INSTALLER_POLL_NANOSECONDS {
                        (deadline - now) as u64
                    } else {
                        INSTALLER_POLL_NANOSECONDS
                    },
                }
            } else {
                InstallerStage::Kill
            },
            _ => InstallerStage::KillUnseen,
        },
        InstallerStage::Sleep { .. } => InstallerStage::Poll,
        InstallerStage::Kill => if event is Done {
            InstallerStage::Reap
        } else {
            InstallerStage::PollOnceMore
        },
        InstallerStage::PollOnceMore => match event {
            InstallerEvent::Exited { code } => InstallerStage::Ended { result: Ok(code) },
            _ => unclear,
        },
        InstallerStage::Reap => if event is Done {
            InstallerStage::Ended { result: Err(UpdateError::InstallerTimeout) }
        } else {
            unclear
        },
        InstallerStage::KillUnseen => if event is Done {
            InstallerStage::ReapUnseen
        } else {
            unclear
        },
        InstallerStage::ReapUnseen => unclear,
        InstallerStage::Ended { .. } => stage,
    }
}

impl InstallerStage {
    /// One step of the wait for the installer.
    pub fn wait_for_installer(self, event: InstallerEvent, now: u64, deadline: u64) -> (next:
        InstallerStage)
        ensures
            next == stage_after(self, event, now, deadline),
    {
        let unclear = InstallerStage::Ended { result: Err(UpdateError::InstallerTermination) };
        let done = event == InstallerEvent::Done;
        match self {
            InstallerStage::Poll => match event {
                InstallerEvent::Exited { code } => InstallerStage::Ended { result: Ok(code) },
                InstallerEvent::Running => if now < deadline {
                    let left: u64 = deadline - now;
                    InstallerStage::Sleep {
                        nanoseconds: if left < INSTALLER_POLL_NANOSECONDS {
                            left
                        } else {
                            INSTALLER_POLL_NANOSECONDS
                        },
                    }
                } else {
                    InstallerStage::Kill
                },
                _ => InstallerStage::KillUnseen,
            },
            InstallerStage::Sleep { .. } => InstallerStage::Poll,
            InstallerStage::Kill => if done {
                InstallerStage::Reap
            } else {
                InstallerStage::PollOnceMore
            },
            InstallerStage::PollOnceMore => match event {
                InstallerEvent::Exited { code } => InstallerStage::Ended { result: Ok(code) },
                _ => unclear,
            },
            InstallerStage::Reap => if done {
                InstallerStage::Ended { result: Err(UpdateError::InstallerTimeout) }
            } else {
                unclear
            },
            InstallerStage::KillUnseen => if done {
                InstallerStage::ReapUnseen
            } else {
                unclear
            },
            InstallerStage::ReapUnseen => unclear,
            InstallerStage::Ended { .. } => self,
        }
    }
}

/// How many steps are left at most once the deadline has passed.
pub open spec fn steps_left(stage: InstallerStage) -> nat {
    match stage {
        InstallerStage::Sleep { .. } => 4,
        InstallerStage::Poll => 3,
        InstallerStage::Kill | InstallerStage::KillUnseen => 2,
        InstallerStage::PollOnceMore | InstallerStage::Reap | InstallerStage::ReapUnseen => 1,
        InstallerStage::Ended { .. } => 0,
    }
}

/// Once the deadline has passed, every step brings the wait nearer to its end.
pub proof fn the_wait_ends_after_the_deadline(
    stage: InstallerStage,
    event: InstallerEvent,
    now: u64,
    deadline: u64,
)
    requires
        now >= deadline,
        !(stage is Ended),
    ensures
        steps_left(stage_after(stage, event, now, deadline)) < steps_left(stage),
{
}

/// The installer is never waited for past the deadline.
pub proof fn no_pause_outlasts_the_deadline(
    stage: InstallerStage,
    event: InstallerEvent,
    now: u64,
    deadline: u64,
)
    requires
        !(stage is Sleep),
    ensures
        stage_after(stage, event, now, deadline) matches InstallerStage::Sleep { nanoseconds }
            ==> 0 < nanoseconds <= INSTALLER_POLL_NANOSECONDS && now + nanoseconds <= deadline,
{
}

/// The exit code of an installer that wants the machine to be restarted.
pub const INSTALLER_RESTART_CODE: i32 = 3010;

/// What an installer that ended so is.
pub open spec fn installation_error(result: Result<Option<i32>, UpdateError>) -> Option<UpdateError> {
    match result {
        Ok(code) => if code == Some(0i32) || code == Some(INSTALLER_RESTART_CODE) {
            None
        } else {
            Some(UpdateError::InstallerExit { code })
        },
        Err(error) => Some(error),
    }
}

pub fn installation_result(result: Result<Option<i32>, UpdateError>) -> (installed: Result<
    (),
    UpdateError,
>)
    ensures
        match installed {
            Ok(_) => installation_error(result) is None,
            Err(error) => installation_error(result) == Some(error),
        },
{
    match result {
        Ok(code) => {
            let success = match code {
                Some(code) => code == 0 || code == INSTALLER_RESTART_CODE,
                None => false,
            };
            if success {
                Ok(())
            } else {
                Err(UpdateError::InstallerExit { code })
            }
        },
        Err(error) => Err(error),
    }
}

/// Whether there is time left to start the installer.
pub fn check_deadline(now: u64, deadline: u64) -> (in_time: Result<(), UpdateError>)
    ensures
        in_time == (if now >= deadline {
            Err::<(), UpdateError>(UpdateError::UpdateDeadlineExpired)
        } else {
            Ok(())
        }),
{
    if now >= deadline {
        return Err(UpdateError::UpdateDeadlineExpired);
    }
    Ok(())
}

/// `outcome` is what the service is told of an installation.
pub open spec fn reports_installation(
    outcome: UpdateInstallOutcome,
    version: Seq<char>,
    result: Result<(), UpdateError>,
) -> bool {
    match result {
        Ok(_) => outcome is Completed && outcome->version@ == version,
        Err(error) => if error.is_indeterminate() {
            outcome is Indeterminate && outcome->Indeterminate_code@ == error.code_text()
        } else {
            outcome is Failed && outcome->Failed_code@ == error.code_text()
        },
    }
}

/// What the service is told of the installation of a package.
pub fn install_outcome(package: &UpdatePackage, result: Result<(), UpdateError>) -> (outcome:
    UpdateInstallOutcome)
    ensures
        reports_installation(outcome, package.version@, result),
{
    match result {
        Ok(_) => UpdateInstallOutcome::Completed { version: package.version.clone() },
        Err(error) => if error.installer_state_is_indeterminate() {
            UpdateInstallOutcome::Indeterminate { code: error.code() }
        } else {
            UpdateInstallOutcome::Failed { code: error.code() }
        },
    }
}

/// An installer that was not seen to end is never reported as one that failed,
/// so the service stays held.
pub proof fn an_unseen_end_is_indeterminate(
    stage: InstallerStage,
    event: InstallerEvent,
    now: u64,
    deadline: u64,
)
    requires
        !(stage is Ended),
    ensures
        match stage_after(stage, event, now, deadline) {
            InstallerStage::Ended { result } => match result {
                Ok(code) => event == (InstallerEvent::Exited { code }),
                Err(error) => error.is_indeterminate(),
            },
            _ => true,
        },
{
}

} // verus!

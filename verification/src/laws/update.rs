//! Which update is trusted, how it is installed, and what the service is held for.
use crate::appcast::{
    attribute, comes_to, detached_signature_of, enclosure_of, feed_is_signed, is_signed, numbers_of,
    offered_version, offers, offers_something, UpdateCheck,
};
use crate::protocol::{ClientIdentity, UpdatePackage};
use crate::rejection::Rejection;
use crate::runtime::events::UpdateInstallOutcome;
use crate::runtime::state::{RuntimeState, ServiceRuntime};
use crate::runtime::updates::{held, hold_end, operation_runs};
use crate::status::{BackupState, WaitingReason};
use crate::text;
use crate::time::representable;
use crate::updater::{
    base64_standard, contents_error, installation_error, installer_name, is_no_signature,
    is_plain_directory, is_plain_file, is_release_asset, is_verifying_key, metadata_error,
    own_version, package_error, public_key_of, release_asset, reports_installation, signature_in,
    signature_of, stage_after, step_after, verification_error, verifies_strictly, InstallStep,
    InstallerEvent, InstallerStage, StagedUpdate, UpdateError, Version,
};
use vstd::prelude::*;

verus! {

/// A version is newer where its first number that differs is larger.
pub proof fn the_first_difference_decides(left: Version, right: Version)
    ensures
        left.major > right.major ==> left.is_newer_than(right),
        left.major < right.major ==> !left.is_newer_than(right),
        left.major == right.major && left.minor > right.minor ==> left.is_newer_than(right),
        left.major == right.major && left.minor < right.minor ==> !left.is_newer_than(right),
        left.major == right.major && left.minor == right.minor ==> (left.is_newer_than(right)
            <==> left.patch > right.patch),
        !(left.is_newer_than(right) && right.is_newer_than(left)),
{
}

/// A version is three whole numbers between dots: the major one first, the minor
/// one second, the patch last.
pub proof fn a_version_is_three_numbers(written: Seq<char>)
    ensures
        Version::named_by(written) is Some <==> {
            let parts = text::pieces(written, '.');
            &&& parts.len() == 3
            &&& text::whole_number(parts[0]) is Some
            &&& text::whole_number(parts[1]) is Some
            &&& text::whole_number(parts[2]) is Some
        },
        Version::named_by(written) is Some ==> {
            let parts = text::pieces(written, '.');
            let version = Version::named_by(written)->0;
            &&& text::whole_number(parts[0]) == Some(version.major)
            &&& text::whole_number(parts[1]) == Some(version.minor)
            &&& text::whole_number(parts[2]) == Some(version.patch)
        },
{
}

/// The numbers of a version come in their order.
pub proof fn numbers_come_in_order(version: Version)
    ensures
        numbers_of(version).len() == 3,
        numbers_of(version)[0] == version.major,
        numbers_of(version)[1] == version.minor,
        numbers_of(version)[2] == version.patch,
{
}

/// A package is offered for what it is: a newer version, of a size that is
/// neither nothing nor above half a gigabyte, from where releases are published.
pub proof fn when_a_package_is_what_it_says(package: UpdatePackage, current: Version)
    ensures
        metadata_error(package, current) is None <==> {
            &&& Version::named_by(package.version@) is Some
            &&& Version::named_by(package.version@)->0.is_newer_than(current)
            &&& 0 < package.length <= 536_870_912
            &&& is_release_asset(package.url@, package.version@)
        },
        Version::named_by(package.version@) is None ==> metadata_error(package, current) == Some(
            UpdateError::InvalidVersion,
        ),
        Version::named_by(package.version@) is Some && !Version::named_by(
            package.version@,
        )->0.is_newer_than(current) ==> metadata_error(package, current) == Some(
            UpdateError::NotNewer,
        ),
        package_error(package) is None <==> metadata_error(package, own_version()) is None
            && signature_of(package.signature@) is Some,
        metadata_error(package, own_version()) is Some ==> package_error(package)
            == metadata_error(package, own_version()),
        metadata_error(package, own_version()) is None && signature_of(package.signature@) is None
            ==> package_error(package) == Some(UpdateError::InvalidSignature),
{
}

/// A release is published under its version at one of two places, and nowhere else.
pub proof fn where_releases_are_published(url: Seq<char>, version: Seq<char>)
    ensures
        is_release_asset(url, version) <==> {
            ||| url == "https://github.com/theatrus/resticpal/releases/download/v"@ + version + "/"@
                + ("resticpal-"@ + version + "-x64.msi"@)
            ||| url == "https://updates.resticpal.com/releases/v"@ + version + "/"@ + ("resticpal-"@
                + version + "-x64.msi"@)
        },
        installer_name(version) == "resticpal-"@ + version + "-x64.msi"@,
        forall|root: Seq<char>| #[trigger]
            release_asset(root, version) == root + version + "/"@ + installer_name(version),
{
}

/// A signature is sixty-four bytes in base64 on one short line.
pub proof fn what_a_signature_is(value: Seq<char>, decoded: Option<Seq<u8>>)
    ensures
        signature_in(value, decoded) is Some ==> signature_in(value, decoded) == decoded
            && decoded->0.len() == 64 && !is_no_signature(value),
        decoded is Some && decoded->0.len() == 64 && !is_no_signature(value) ==> signature_in(
            value,
            decoded,
        ) == decoded,
        !is_no_signature(value) <==> {
            &&& vstd::utf8::encode_utf8(value).len() <= 256
            &&& forall|i: int|
                0 <= i < value.len() ==> #[trigger] value[i] != '\n' && value[i] != '\r' && value[i]
                    != '\0'
        },
        signature_of(value) == signature_in(value, base64_standard(value)),
{
    if !is_no_signature(value) {
        assert forall|i: int| 0 <= i < value.len() implies #[trigger] value[i] != '\n' && value[i]
            != '\r' && value[i] != '\0' by {
            assert(value.contains(value[i]));
        }
    }
}

/// A key is thirty-two bytes in base64, with space around it or not, that stand
/// for a key.
pub proof fn what_a_public_key_is(encoded: Seq<char>)
    ensures
        ({
            let decoded = base64_standard(text::trimmed(encoded));
            &&& public_key_of(encoded) is Some <==> decoded is Some && decoded->0.len() == 32
                && is_verifying_key(decoded->0)
            &&& public_key_of(encoded) is Some ==> public_key_of(encoded) == decoded
        }),
{
}

/// An installer is trusted exactly where the key and the signature can be read
/// and the signature holds for these contents under this key.
pub proof fn when_contents_are_trusted(
    contents: Seq<u8>,
    signature: Seq<char>,
    public_key: Seq<char>,
)
    ensures
        contents_error(contents, signature, public_key) is None <==> {
            &&& public_key_of(public_key) is Some
            &&& signature_of(signature) is Some
            &&& verifies_strictly(
                public_key_of(public_key)->0,
                contents,
                signature_of(signature)->0,
            )
        },
        public_key_of(public_key) is None ==> contents_error(contents, signature, public_key)
            == Some(UpdateError::InvalidPublicKey),
        public_key_of(public_key) is Some && contents_error(contents, signature, public_key) is Some
            ==> contents_error(contents, signature, public_key) == Some(
            UpdateError::InvalidSignature,
        ),
{
}

/// Only a key, a signature and a check that all hold verify.
pub proof fn all_three_have_to_hold(key: bool, signature: bool, holds: bool)
    ensures
        verification_error(key, signature, holds) is None <==> key && signature && holds,
        !key ==> verification_error(key, signature, holds) == Some(UpdateError::InvalidPublicKey),
        key && !(signature && holds) ==> verification_error(key, signature, holds) == Some(
            UpdateError::InvalidSignature,
        ),
{
}

/// A feed counts exactly where its detached signature is sixty-four bytes in
/// base64, the key can be read, and the signature holds for the feed.
pub proof fn when_a_feed_is_signed(document: Seq<u8>, signature: Seq<u8>, public_key: Seq<char>)
    ensures
        feed_is_signed(document, signature, public_key) <==> {
            let written = vstd::utf8::decode_utf8(signature);
            let decoded = base64_standard(text::trimmed(written));
            &&& vstd::utf8::valid_utf8(signature)
            &&& public_key_of(public_key) is Some
            &&& decoded is Some
            &&& decoded->0.len() == 64
            &&& verifies_strictly(public_key_of(public_key)->0, document, decoded->0)
        },
{
}

/// A feed offers the version, address, signature and length that it names, each
/// under its own name.
pub proof fn a_feed_offers_what_it_names(document: Seq<char>, package: UpdatePackage)
    ensures
        offers(document, package) ==> {
            let element = enclosure_of(document)->0;
            &&& offers_something(document)
            &&& offered_version(document) == Some(package.version@)
            &&& attribute(element, "url"@) == Some(package.url@)
            &&& attribute(element, "sparkle:signature"@) == Some(package.signature@)
            &&& text::unsigned_number(attribute(element, "length"@)->0) == Some(package.length)
        },
        offers_something(document) ==> {
            let element = enclosure_of(document)->0;
            &&& enclosure_of(document) is Some
            &&& offered_version(document) is Some && Version::named_by(
                offered_version(document)->0,
            ) is Some
            &&& attribute(element, "url"@) is Some
            &&& attribute(element, "sparkle:signature"@) is Some
            &&& attribute(element, "length"@) is Some
            &&& text::unsigned_number(attribute(element, "length"@)->0) is Some
        },
{
}

/// The value of an attribute stands in quotes behind its name, and is not empty.
pub proof fn an_attribute_stands_in_quotes(element: Seq<char>, name: Seq<char>)
    ensures
        attribute(element, name) is Some ==> {
            &&& attribute(element, name) == text::between(element, " "@ + name + "=\""@, "\""@)
            &&& attribute(element, name)->0.len() > 0
        },
        text::between(element, " "@ + name + "=\""@, "\""@) is Some && text::between(
            element,
            " "@ + name + "=\""@,
            "\""@,
        )->0.len() > 0 ==> attribute(element, name) is Some,
{
}

/// The first feed that offers an update decides; where none does, the version
/// is current if some feed says so, and unknown if none can be read.
pub proof fn the_first_offer_decides(checks: Seq<Option<UpdateCheck>>, at: int)
    requires
        0 <= at < checks.len(),
        checks[at] matches Some(UpdateCheck::Available(_)),
        forall|i: int|
            0 <= i < at ==> !(#[trigger] checks[i] matches Some(UpdateCheck::Available(_))),
    ensures
        comes_to(checks) == checks[at],
    decreases checks.len(),
{
    let shorter = checks.drop_last();
    if at < shorter.len() {
        assert forall|i: int| 0 <= i < at implies !(#[trigger] shorter[i] matches Some(
            UpdateCheck::Available(_),
        )) by {
            assert(shorter[i] == checks[i]);
        }
        the_first_offer_decides(shorter, at);
    } else {
        without_an_offer(shorter);
        assert forall|i: int| 0 <= i < shorter.len() implies !(#[trigger] shorter[i] matches Some(
            UpdateCheck::Available(_),
        )) by {
            assert(shorter[i] == checks[i]);
        }
    }
}

/// Without an offer the version is current exactly where some feed says so.
pub proof fn without_an_offer(checks: Seq<Option<UpdateCheck>>)
    ensures
        (forall|i: int|
            0 <= i < checks.len() ==> !(#[trigger] checks[i] matches Some(
                UpdateCheck::Available(_),
            ))) ==> {
            &&& comes_to(checks) is Some <==> exists|i: int|
                0 <= i < checks.len() && #[trigger] checks[i] == Some(UpdateCheck::Current)
            &&& comes_to(checks) is Some ==> comes_to(checks) == Some(UpdateCheck::Current)
        },
    decreases checks.len(),
{
    if checks.len() > 0 && forall|i: int|
        0 <= i < checks.len() ==> !(#[trigger] checks[i] matches Some(UpdateCheck::Available(_))) {
        let shorter = checks.drop_last();
        assert forall|i: int| 0 <= i < shorter.len() implies !(#[trigger] shorter[i] matches Some(
            UpdateCheck::Available(_),
        )) by {
            assert(shorter[i] == checks[i]);
        }
        without_an_offer(shorter);
        let last = checks[checks.len() - 1];
        assert(!(last matches Some(UpdateCheck::Available(_))));
        if comes_to(shorter) is Some {
            let i = choose|i: int|
                0 <= i < shorter.len() && #[trigger] shorter[i] == Some(UpdateCheck::Current);
            assert(checks[i] == Some(UpdateCheck::Current));
        }
        if exists|i: int| 0 <= i < checks.len() && #[trigger] checks[i] == Some(UpdateCheck::Current) {
            let i = choose|i: int|
                0 <= i < checks.len() && #[trigger] checks[i] == Some(UpdateCheck::Current);
            if i < shorter.len() {
                assert(shorter[i] == Some(UpdateCheck::Current));
            }
        }
    }
}

/// An installation that goes well takes its steps in order: what it is kept in
/// is secured and cleared, the installer is downloaded, put in place, verified
/// and only then started.
pub proof fn an_installation_takes_its_steps_in_order(step: InstallStep)
    ensures
        ({
            let next = step_after(step, Ok(()));
            &&& step is SecureDataRoot ==> next is SecureUpdates
            &&& step is SecureUpdates ==> next is RemovePartial
            &&& step is RemovePartial ==> next is RemoveInstaller
            &&& step is RemoveInstaller ==> next is Download
            &&& step is Download ==> next is Rename
            &&& step is Rename ==> next is Verify
            &&& step is Verify ==> next is RemoveLog
            &&& step is RemoveLog ==> next is Start
            &&& step is Start ==> next is Follow
            &&& step is Follow ==> next is Installed
            &&& step is DropPartial ==> next == (InstallStep::Failed {
                error: step->DropPartial_error,
            })
            &&& step is DropInstaller ==> next == (InstallStep::Failed {
                error: step->DropInstaller_error,
            })
            &&& step is Installed || step is Failed ==> next == step
        }),
{
}

/// A step that fails ends the installation with its error, once what it left
/// behind is gone: a broken download, or an installer that is not trusted.
pub proof fn a_failed_installation_cleans_up(step: InstallStep, error: UpdateError)
    ensures
        ({
            let next = step_after(step, Err(error));
            &&& step is Download ==> next == (InstallStep::DropPartial { error })
            &&& step is Verify || step is RemoveLog ==> next == (InstallStep::DropInstaller { error })
            &&& step is SecureDataRoot || step is SecureUpdates || step is RemovePartial || step
                is RemoveInstaller || step is Rename || step is Start || step is Follow ==> next == (
            InstallStep::Failed { error })
            &&& step is Installed ==> next is Installed
            &&& !(step is Installed) && !(step is Failed) ==> !(next is Installed)
        }),
{
}

/// The installer is waited for: an end that is seen counts, a pause is followed
/// by a look, and once the time has passed the installer is killed.
pub proof fn how_an_installer_is_waited_for(
    stage: InstallerStage,
    event: InstallerEvent,
    now: u64,
    deadline: u64,
)
    ensures
        ({
            let next = stage_after(stage, event, now, deadline);
            &&& (stage is Poll || stage is PollOnceMore) && event is Exited ==> next == (
            InstallerStage::Ended { result: Ok(event->code) })
            &&& stage is Poll && event is Running && now < deadline ==> next is Sleep
            &&& stage is Poll && event is Running && now >= deadline ==> next is Kill
            &&& stage is Poll && (event is Done || event is Refused) ==> next is KillUnseen
            &&& stage is Poll && event is Running && now + 250_000_000 <= deadline ==> next == (
            InstallerStage::Sleep { nanoseconds: 250_000_000 })
            &&& stage is Poll && event is Running && now < deadline < now + 250_000_000 ==> next == (
            InstallerStage::Sleep { nanoseconds: (deadline - now) as u64 })
            &&& stage is Sleep ==> next is Poll
            &&& stage is Kill && event is Done ==> next is Reap
            &&& stage is Kill && !(event is Done) ==> next is PollOnceMore
            &&& stage is Reap && event is Done ==> next == (InstallerStage::Ended {
                result: Err(UpdateError::InstallerTimeout),
            })
            &&& stage is Reap && !(event is Done) ==> next == (InstallerStage::Ended {
                result: Err(UpdateError::InstallerTermination),
            })
            &&& stage is PollOnceMore && !(event is Exited) ==> next == (InstallerStage::Ended {
                result: Err(UpdateError::InstallerTermination),
            })
            &&& stage is KillUnseen && event is Done ==> next is ReapUnseen
            &&& stage is KillUnseen && !(event is Done) ==> next == (InstallerStage::Ended {
                result: Err(UpdateError::InstallerTermination),
            })
            &&& stage is ReapUnseen ==> next == (InstallerStage::Ended {
                result: Err(UpdateError::InstallerTermination),
            })
            &&& stage is Ended ==> next == stage
        }),
{
}

/// An installer succeeded where it ended with zero, or with the number that
/// asks for a restart, and not otherwise.
pub proof fn when_an_installer_succeeded(result: Result<Option<i32>, UpdateError>)
    ensures
        installation_error(result) is None <==> result == Ok::<Option<i32>, UpdateError>(
            Some(0i32),
        ) || result == Ok::<Option<i32>, UpdateError>(Some(3010i32)),
        result is Err ==> installation_error(result) == Some(result->Err_0),
        result is Ok && installation_error(result) is Some ==> installation_error(result) == Some(
            UpdateError::InstallerExit { code: result->Ok_0 },
        ),
{
}

/// The service is told what an installation came to.
pub proof fn what_the_service_is_told(
    outcome: UpdateInstallOutcome,
    version: Seq<char>,
    result: Result<(), UpdateError>,
)
    requires
        reports_installation(outcome, version, result),
    ensures
        outcome is Completed <==> result is Ok,
        result is Ok ==> outcome->version@ == version,
        outcome is Indeterminate <==> result is Err && (result->Err_0 is InstallerTimeout
            || result->Err_0 is InstallerTermination),
        outcome is Failed ==> outcome->Failed_code@ == result->Err_0.code_text(),
        outcome is Indeterminate ==> outcome->Indeterminate_code@
            == "update_installer_indeterminate"@,
{
}

/// An error is called by the step that it belongs to.
pub proof fn errors_are_called_by_their_step(error: UpdateError)
    ensures
        error is InvalidVersion || error is NotNewer || error is InvalidUrl || error
            is InvalidLength ==> error.code_text() == "update_metadata_invalid"@,
        error is InvalidPublicKey || error is InvalidSignature ==> error.code_text()
            == "update_signature_invalid"@,
        error is LengthMismatch || error is Io || error is Http ==> error.code_text()
            == "update_download_failed"@,
        error is UnsafeStagingDirectory || error is UnsafeStagingEntry || error
            is UntrustedStagingDirectory || error is UnsafeServiceDataEntry || error
            is UntrustedServiceDataEntry || error is StagingProtection ==> error.code_text()
            == "update_staging_unsafe"@,
        error is UpdateDeadlineExpired ==> error.code_text() == "update_deadline_exceeded"@,
        error is InstallerStart || error is InstallerExit ==> error.code_text()
            == "update_installer_failed"@,
        error is InstallerTimeout || error is InstallerTermination ==> error.code_text()
            == "update_installer_indeterminate"@,
        error.is_indeterminate() <==> error is InstallerTimeout || error is InstallerTermination,
{
}

/// What is staged stands in the folder of updates: the installer under its own
/// name, the download beside it, and the log.
pub proof fn where_an_update_is_staged(
    staged: StagedUpdate,
    data_root: Seq<char>,
    version: Seq<char>,
)
    requires
        staged.lies_below(data_root, version),
    ensures
        ({
            let directory = crate::paths::below(data_root, "Updates"@);
            &&& staged.directory@ == directory
            &&& staged.installer@ == crate::paths::below(
                directory,
                "resticpal-"@ + version + "-x64.msi"@,
            )
            &&& staged.partial@ == crate::paths::below(
                directory,
                "resticpal-"@ + version + "-x64.msi"@ + ".partial"@,
            )
            &&& staged.log@ == crate::paths::below(directory, "install.log"@)
        }),
{
}

/// A folder and a file are plain where they are no link, and never both.
pub proof fn what_is_plain(attributes: u32)
    ensures
        is_plain_directory(attributes) <==> attributes & 0x10 != 0 && attributes & 0x400 == 0,
        is_plain_file(attributes) <==> attributes & 0x10 == 0 && attributes & 0x400 == 0,
        !(is_plain_directory(attributes) && is_plain_file(attributes)),
{
}

/// A hold lasts as long as was asked for, and the service waits for it with the
/// status kept that it had before the first one.
pub proof fn a_hold_lasts_as_asked(state: RuntimeState, seconds: u32, installs: bool, now: i128)
    ensures
        representable(now as int) && representable(now + seconds * 1_000_000_000) ==> hold_end(
            now,
            seconds,
        ) == now + seconds * 1_000_000_000,
        ({
            let after = held(state, seconds, installs, now);
            &&& after.update_hold_until == Some(hold_end(now, seconds))
            &&& after.status.next_deadline == Some(hold_end(now, seconds))
            &&& after.status.state == (BackupState::Waiting { reason: WaitingReason::Update })
            &&& after.update_install_active <==> installs || state.update_install_active
            &&& !after.manual_requested
            &&& after.resumed_at is None
            &&& after.update_hold_previous_status is Some
            &&& state.update_hold_previous_status is Some ==> after.update_hold_previous_status
                == state.update_hold_previous_status
            &&& state.update_hold_previous_status is None ==> {
                &&& after.update_hold_previous_status->0.state == state.status.state
                &&& after.update_hold_previous_status->0.next_deadline == state.status.next_deadline
            }
            &&& after.not_before == state.not_before
            &&& after.status.last_success == state.status.last_success
            &&& after.status.last_attempt == state.status.last_attempt
            &&& after.service_state == state.service_state
            &&& after.repository_operation == state.repository_operation
            &&& after.consecutive_failures == state.consecutive_failures
        }),
{
}

/// The service is held for a prompted update by an administrator, between a
/// minute and half an hour, where it does not install by itself and nothing runs.
pub proof fn when_the_service_is_held(
    runtime: ServiceRuntime,
    hold_seconds: u32,
    identity: ClientIdentity,
    now: i128,
)
    ensures
        runtime.hold_refusal(hold_seconds, identity, now) is None <==> {
            &&& identity.is_elevated_administrator
            &&& !runtime.config.updates.automatic_install
            &&& 60 <= hold_seconds <= 1800
            &&& !runtime.state.update_install_active
            &&& runtime.state.update_hold_until is None || runtime.state.update_hold_until->0 <= now
            &&& !(runtime.state.status.state is Running)
            &&& !(runtime.state.repository_operation is Running)
            &&& !runtime.state.management_operation_active
        },
        !identity.is_elevated_administrator ==> runtime.hold_refusal(hold_seconds, identity, now)
            == Some(Rejection::AdministratorRequired),
        identity.is_elevated_administrator && runtime.config.updates.automatic_install
            ==> runtime.hold_refusal(hold_seconds, identity, now) == Some(
            Rejection::AutomaticUpdatesEnabled,
        ),
{
}

/// The service installs an update by itself where that is switched on, the
/// package is valid, and nothing runs or is held.
pub proof fn when_the_service_installs(runtime: ServiceRuntime, package_is_valid: bool, now: i128)
    ensures
        runtime.install_refusal(package_is_valid, now) is None <==> {
            &&& runtime.config.updates.automatic_install
            &&& package_is_valid
            &&& !runtime.state.update_install_active
            &&& runtime.state.update_hold_until is None || runtime.state.update_hold_until->0 <= now
            &&& !(runtime.state.status.state is Running)
            &&& !(runtime.state.repository_operation is Running)
            &&& !runtime.state.management_operation_active
        },
        !runtime.config.updates.automatic_install ==> runtime.install_refusal(package_is_valid, now)
            == Some(Rejection::AutomaticUpdatesDisabled),
        runtime.config.updates.automatic_install && !package_is_valid ==> runtime.install_refusal(
            package_is_valid,
            now,
        ) == Some(Rejection::UpdateMetadataInvalid),
        operation_runs(runtime.state) <==> runtime.state.repository_operation is Running
            || runtime.state.management_operation_active,
{
}

/// The feeds are asked in their order, and those behind an offer are not.
pub proof fn feeds_are_asked_in_order<
    F: Fn(crate::appcast::UpdateSource) -> Option<UpdateCheck>,
>(
    sources: Seq<crate::appcast::UpdateSource>,
    check: F,
    checks: Seq<Option<UpdateCheck>>,
    at: int,
)
    requires
        crate::appcast::asked(sources, check, checks),
    ensures
        checks.len() <= sources.len(),
        0 <= at < checks.len() ==> call_ensures(check, (sources[at],), checks[at]),
        checks.len() < sources.len() ==> comes_to(checks) is Some && comes_to(checks)->0
            is Available,
{
}

} // verus!

use base64::engine::general_purpose::STANDARD;
use base64::Engine;
use ed25519_dalek::{Signer, SigningKey};
use resticpal::protocol::UpdatePackage;
use resticpal::runtime::events::UpdateInstallOutcome;
use resticpal::updater::{
    admit_directory, admit_file, check_deadline, check_download, decode_signature,
    install_outcome, installation_result, parse_version, protected_directories, protected_files,
    read_signature, service_version, staging_removal, validate_directory_attributes,
    validate_file_attributes, validate_metadata, validate_package, verification_result,
    verify_contents_with_public_key, verify_open_file_with_public_key, verify_protection,
    InstallStep, InstallerEvent, InstallerStage, StagedUpdate, StagingRemoval, UpdateError,
    Version, FILE_ATTRIBUTE_DIRECTORY, FILE_ATTRIBUTE_REPARSE_POINT, MAX_UPDATE_BYTES,
};

fn future_version() -> String {
    format!("{}.0.0", service_version().major + 1)
}

fn package(version: &str) -> UpdatePackage {
    UpdatePackage {
        version: version.to_owned(),
        url: format!(
            "https://github.com/theatrus/resticpal/releases/download/v{version}/resticpal-{version}-x64.msi"
        ),
        signature: STANDARD.encode([0_u8; 64]),
        length: 1024,
    }
}

#[test]
fn package_metadata_is_bounded_and_pinned_to_the_release_asset() {
    let version = future_version();
    assert!(validate_package(&package(&version)).is_ok());

    let mut redirected = package(&version);
    redirected.url = "https://example.test/resticpal.msi".to_owned();
    assert!(matches!(
        validate_package(&redirected),
        Err(UpdateError::InvalidUrl)
    ));

    let mut primary = package(&version);
    primary.url =
        format!("https://updates.resticpal.com/releases/v{version}/resticpal-{version}-x64.msi");
    assert!(validate_package(&primary).is_ok());

    let mut oversized = package(&version);
    oversized.length = MAX_UPDATE_BYTES + 1;
    assert!(matches!(
        validate_package(&oversized),
        Err(UpdateError::InvalidLength)
    ));
}

#[test]
fn downloaded_installer_requires_the_pinned_signature() {
    let contents = b"signed Windows Installer fixture";

    let private = SigningKey::from_bytes(&[7_u8; 32]);
    let signature = STANDARD.encode(private.sign(contents).to_bytes());
    let public = STANDARD.encode(private.verifying_key().to_bytes());
    assert!(verify_contents_with_public_key(contents, &signature, &public).is_ok());

    assert!(matches!(
        verify_contents_with_public_key(
            b"tampered Windows Installer fixture",
            &signature,
            &public
        ),
        Err(UpdateError::InvalidSignature)
    ));
}

#[test]
fn rejected_installer_preserves_the_last_successful_install_log() {
    let contents = b"invalid Windows Installer fixture";
    let private = SigningKey::from_bytes(&[9_u8; 32]);
    let invalid_signature = STANDARD.encode(private.sign(b"different bytes").to_bytes());
    let public = STANDARD.encode(private.verifying_key().to_bytes());
    let verified = verify_open_file_with_public_key(
        contents.len() as u64,
        contents,
        contents.len() as u64,
        &invalid_signature,
        &public,
    );
    assert!(matches!(verified, Err(UpdateError::InvalidSignature)));
    let next = InstallStep::Verify.advance(verified);
    assert_eq!(
        next,
        InstallStep::DropInstaller {
            error: UpdateError::InvalidSignature
        }
    );
    assert_eq!(
        next.advance(Ok(())),
        InstallStep::Failed {
            error: UpdateError::InvalidSignature
        }
    );
}

#[test]
fn installer_wait_kills_a_process_that_exceeds_its_deadline() {
    let polled = InstallerStage::Poll.wait_for_installer(InstallerEvent::Running, 100, 100);
    assert_eq!(polled, InstallerStage::Kill);
    let killed = polled.wait_for_installer(InstallerEvent::Done, 100, 100);
    assert_eq!(killed, InstallerStage::Reap);
    let ended = killed.wait_for_installer(InstallerEvent::Done, 100, 100);
    assert_eq!(
        ended,
        InstallerStage::Ended {
            result: Err(UpdateError::InstallerTimeout)
        }
    );
}

#[test]
fn versions_have_three_plain_numbers() {
    let read = |text: &str| parse_version(text).map(|v| [v.major, v.minor, v.patch]);
    assert_eq!(read("1.2.3"), Some([1, 2, 3]));
    assert_eq!(read("18446744073709551615.0.0"), Some([u64::MAX, 0, 0]));
    assert_eq!(read("18446744073709551616.0.0"), None);
    assert_eq!(read("1..3"), None);
    assert_eq!(read("+1.2.3"), None);
    assert_eq!(read(""), None);
    let newer = |left: &str, right: &str| {
        parse_version(left)
            .unwrap()
            .newer_than(&parse_version(right).unwrap())
    };
    assert!(newer("1.10.0", "1.9.9"));
    assert!(newer("2.0.0", "1.9.9"));
    assert!(newer("1.0.1", "1.0.0"));
    assert!(!newer("1.0.0", "1.0.0"));
    assert!(!newer("0.9.9", "1.0.0"));
}

#[test]
fn each_defect_of_a_package_has_its_error() {
    let current = Version {
        major: 1,
        minor: 2,
        patch: 3,
    };
    assert_eq!(
        validate_metadata(&package("1.2"), &current),
        Err(UpdateError::InvalidVersion)
    );
    assert_eq!(
        validate_metadata(&package("1.2.3"), &current),
        Err(UpdateError::NotNewer)
    );
    let mut empty = package("1.2.4");
    empty.length = 0;
    assert_eq!(
        validate_metadata(&empty, &current),
        Err(UpdateError::InvalidLength)
    );
    assert_eq!(validate_metadata(&package("1.2.4"), &current), Ok(()));
    let mut unsigned = package(&future_version());
    unsigned.signature = "not-base64".to_owned();
    assert_eq!(
        validate_package(&unsigned),
        Err(UpdateError::InvalidSignature)
    );
    assert_eq!(
        InstallStep::begin(&unsigned),
        InstallStep::Failed {
            error: UpdateError::InvalidSignature
        }
    );
    assert_eq!(
        InstallStep::begin(&package(&future_version())),
        InstallStep::SecureDataRoot
    );
}

#[test]
fn signatures_are_short_texts_of_sixty_four_bytes() {
    assert_eq!(
        decode_signature(&STANDARD.encode([7_u8; 64])),
        Ok(vec![7_u8; 64])
    );
    assert_eq!(
        decode_signature(&format!("{}\n", STANDARD.encode([7_u8; 64]))),
        Err(UpdateError::InvalidSignature)
    );
    assert_eq!(
        decode_signature(&STANDARD.encode([7_u8; 63])),
        Err(UpdateError::InvalidSignature)
    );
    assert_eq!(
        read_signature(&"A".repeat(257), Some(vec![0; 64])),
        Err(UpdateError::InvalidSignature)
    );
    assert_eq!(
        read_signature("A", None),
        Err(UpdateError::InvalidSignature)
    );
}

#[test]
fn the_key_is_looked_at_before_the_signature() {
    assert_eq!(
        verification_result(false, false, false),
        Err(UpdateError::InvalidPublicKey)
    );
    assert_eq!(
        verification_result(true, false, true),
        Err(UpdateError::InvalidSignature)
    );
    assert_eq!(
        verification_result(true, true, false),
        Err(UpdateError::InvalidSignature)
    );
    assert_eq!(verification_result(true, true, true), Ok(()));
    let signature = STANDARD.encode([0_u8; 64]);
    assert_eq!(
        verify_contents_with_public_key(b"x", &signature, "AAAA"),
        Err(UpdateError::InvalidPublicKey)
    );
    let mut no_point = [0_u8; 32];
    no_point[0] = 2;
    assert_eq!(
        verify_contents_with_public_key(b"x", &signature, &STANDARD.encode(no_point)),
        Err(UpdateError::InvalidPublicKey)
    );
}

#[test]
fn an_installer_of_another_length_is_refused() {
    let private = SigningKey::from_bytes(&[7_u8; 32]);
    let signature = STANDARD.encode(private.sign(b"abc").to_bytes());
    let public = STANDARD.encode(private.verifying_key().to_bytes());
    let verify = |file_length, contents: &[u8], expected| {
        verify_open_file_with_public_key(file_length, contents, expected, &signature, &public)
    };
    assert_eq!(verify(3, b"abc", 3), Ok(()));
    assert_eq!(
        verify(4, b"abc", 3),
        Err(UpdateError::LengthMismatch {
            expected: 3,
            actual: 4
        })
    );
    assert_eq!(
        verify(3, b"ab", 3),
        Err(UpdateError::LengthMismatch {
            expected: 3,
            actual: 2
        })
    );
    assert_eq!(check_download(5, 5), Ok(()));
    assert_eq!(
        check_download(4, 5),
        Err(UpdateError::LengthMismatch {
            expected: 5,
            actual: 4
        })
    );
}

#[test]
fn an_installation_verifies_before_it_starts() {
    let mut step = InstallStep::SecureDataRoot;
    let mut seen = Vec::new();
    while step != InstallStep::Installed {
        seen.push(step);
        step = step.advance(Ok(()));
    }
    assert_eq!(
        seen,
        vec![
            InstallStep::SecureDataRoot,
            InstallStep::SecureUpdates,
            InstallStep::RemovePartial,
            InstallStep::RemoveInstaller,
            InstallStep::Download,
            InstallStep::Rename,
            InstallStep::Verify,
            InstallStep::RemoveLog,
            InstallStep::Start,
            InstallStep::Follow,
        ]
    );
    let dropped = InstallStep::Download.advance(Err(UpdateError::Http));
    assert_eq!(
        dropped.advance(Err(UpdateError::Io)),
        InstallStep::Failed {
            error: UpdateError::Http
        }
    );
}

#[test]
fn staged_files_lie_in_the_update_directory() {
    let staged = StagedUpdate::new("C:\\ProgramData\\resticpal", "2.0.0");
    assert_eq!(staged.directory, "C:\\ProgramData\\resticpal\\Updates");
    assert_eq!(
        staged.installer,
        "C:\\ProgramData\\resticpal\\Updates\\resticpal-2.0.0-x64.msi"
    );
    assert_eq!(
        staged.partial,
        "C:\\ProgramData\\resticpal\\Updates\\resticpal-2.0.0-x64.msi.partial"
    );
    assert_eq!(
        staged.log,
        "C:\\ProgramData\\resticpal\\Updates\\install.log"
    );
    assert_eq!(
        protected_directories("C:\\d"),
        vec![
            "C:\\d",
            "C:\\d\\Cache",
            "C:\\d\\Credentials",
            "C:\\d\\Logs",
            "C:\\d\\Updates"
        ]
    );
    assert!(protected_files("C:\\d").contains(&"C:\\d\\Logs\\service.jsonl".to_owned()));
    assert_eq!(protected_files("C:\\d").len(), 9);
}

#[test]
fn only_plain_entries_of_trusted_owners_are_taken_over() {
    assert_eq!(staging_removal(true, true, false), Ok(StagingRemoval::RemoveDirectory));
    assert_eq!(staging_removal(true, false, false), Ok(StagingRemoval::RemoveFile));
    assert_eq!(staging_removal(false, false, true), Ok(StagingRemoval::RemoveFile));
    assert_eq!(
        staging_removal(false, true, false),
        Err(UpdateError::UnsafeStagingEntry)
    );
    assert_eq!(validate_directory_attributes(FILE_ATTRIBUTE_DIRECTORY), Ok(()));
    assert_eq!(
        validate_directory_attributes(FILE_ATTRIBUTE_DIRECTORY | FILE_ATTRIBUTE_REPARSE_POINT),
        Err(UpdateError::UnsafeStagingDirectory)
    );
    assert_eq!(
        validate_directory_attributes(0x20),
        Err(UpdateError::UnsafeStagingDirectory)
    );
    assert_eq!(validate_file_attributes(0x20), Ok(()));
    assert_eq!(
        validate_file_attributes(FILE_ATTRIBUTE_DIRECTORY),
        Err(UpdateError::UnsafeServiceDataEntry)
    );
    assert_eq!(admit_directory(true, true, false), Ok(()));
    assert_eq!(
        admit_directory(false, true, false),
        Err(UpdateError::UntrustedStagingDirectory)
    );
    assert_eq!(
        admit_file(true, false),
        Err(UpdateError::UntrustedServiceDataEntry)
    );
    assert_eq!(admit_file(false, false), Ok(()));
    assert_eq!(verify_protection(true, true, true, true, true), Ok(()));
    assert_eq!(verify_protection(true, true, false, false, false), Ok(()));
    assert_eq!(
        verify_protection(true, true, true, false, true),
        Err(UpdateError::UnsafeStagingDirectory)
    );
    assert_eq!(
        verify_protection(false, true, true, true, true),
        Err(UpdateError::UnsafeStagingDirectory)
    );
}

#[test]
fn the_pause_is_cut_to_the_deadline() {
    assert_eq!(
        InstallerStage::Poll.wait_for_installer(InstallerEvent::Running, 0, 1_000_000_000),
        InstallerStage::Sleep {
            nanoseconds: 250_000_000
        }
    );
    assert_eq!(
        InstallerStage::Poll.wait_for_installer(InstallerEvent::Running, 990, 1_000),
        InstallerStage::Sleep { nanoseconds: 10 }
    );
    assert_eq!(
        InstallerStage::Poll.wait_for_installer(InstallerEvent::Refused, 0, 1_000),
        InstallerStage::KillUnseen
    );
    assert_eq!(check_deadline(999, 1_000), Ok(()));
    assert_eq!(
        check_deadline(1_000, 1_000),
        Err(UpdateError::UpdateDeadlineExpired)
    );
}

#[test]
fn an_installer_that_is_lost_from_sight_is_indeterminate() {
    let lost = InstallerStage::PollOnceMore.wait_for_installer(InstallerEvent::Running, 9, 1);
    assert_eq!(
        lost,
        InstallerStage::Ended {
            result: Err(UpdateError::InstallerTermination)
        }
    );
    assert_eq!(
        install_outcome(&package("2.0.0"), Err(UpdateError::InstallerTermination)),
        UpdateInstallOutcome::Indeterminate {
            code: "update_installer_indeterminate"
        }
    );
    assert_eq!(
        install_outcome(&package("2.0.0"), Err(UpdateError::Http)),
        UpdateInstallOutcome::Failed {
            code: "update_download_failed"
        }
    );
    assert_eq!(
        install_outcome(&package("2.0.0"), Ok(())),
        UpdateInstallOutcome::Completed {
            version: "2.0.0".to_owned()
        }
    );
    assert_eq!(installation_result(Ok(Some(0))), Ok(()));
    assert_eq!(installation_result(Ok(Some(3010))), Ok(()));
    assert_eq!(
        installation_result(Ok(Some(1603))),
        Err(UpdateError::InstallerExit { code: Some(1603) })
    );
}

#[test]
fn errors_have_bounded_codes() {
    assert_eq!(UpdateError::NotNewer.code(), "update_metadata_invalid");
    assert_eq!(UpdateError::InvalidPublicKey.code(), "update_signature_invalid");
    assert_eq!(UpdateError::UnsafeStagingEntry.code(), "update_staging_unsafe");
    assert_eq!(UpdateError::UpdateDeadlineExpired.code(), "update_deadline_exceeded");
    assert_eq!(UpdateError::InstallerStart.code(), "update_installer_failed");
    assert!(UpdateError::InstallerTimeout.installer_state_is_indeterminate());
    assert!(!UpdateError::InstallerStart.installer_state_is_indeterminate());
}

use base64::engine::general_purpose::STANDARD;
use base64::Engine;
use ed25519_dalek::{Signer, SigningKey};
use resticpal::appcast::{
    check_feed_length, check_update_source, check_update_sources, extract_appcast_version,
    extract_update_package, extract_xml_attribute, parse_product_version, read_feed,
    update_appcast_sources, verify_signed_document, UpdateCheck, MAX_UPDATE_APPCAST_BYTES,
};
use resticpal::protocol::UpdatePackage;
use resticpal::updater::Version;
use std::cell::RefCell;

const FEED: &str = r#"<rss xmlns:sparkle="http://example.test/sparkle">
            <channel><item><sparkle:version>2.3.4</sparkle:version>
            <enclosure url="https://github.com/theatrus/resticpal/releases/download/v2.3.4/resticpal-2.3.4-x64.msi"
                length="83329024" sparkle:signature="c2lnbmF0dXJl" /></item></channel></rss>"#;

fn version(major: u64, minor: u64, patch: u64) -> Version {
    Version {
        major,
        minor,
        patch,
    }
}

fn package() -> UpdatePackage {
    UpdatePackage {
        version: "9.0.0".to_owned(),
        url: "https://example.test/update.msi".to_owned(),
        signature: "signature".to_owned(),
        length: 1,
    }
}

#[test]
fn appcast_versions_are_strictly_parsed_and_compared() {
    let appcast = "<rss><sparkle:version>1.2.30</sparkle:version></rss>";
    assert_eq!(extract_appcast_version(appcast), Some([1, 2, 30]));
    assert!(extract_appcast_version(appcast).unwrap() > [1, 2, 3]);

    assert_eq!(parse_product_version("1.0.1"), Some([1, 0, 1]));
    assert_eq!(parse_product_version("1.0"), None);
    assert_eq!(parse_product_version("1.0.1.0"), None);
    assert_eq!(parse_product_version("1.0-beta"), None);
    assert_eq!(extract_appcast_version("<rss />"), None);
}

#[test]
fn signed_appcast_metadata_preserves_the_msi_identity() {
    assert_eq!(
        extract_update_package(FEED),
        Some(UpdatePackage {
            version: "2.3.4".to_owned(),
            url: "https://github.com/theatrus/resticpal/releases/download/v2.3.4/resticpal-2.3.4-x64.msi".to_owned(),
            signature: "c2lnbmF0dXJl".to_owned(),
            length: 83_329_024,
        })
    );
}

#[test]
fn update_sources_try_the_primary_before_the_github_fallback() {
    let checked: RefCell<Vec<&'static str>> = RefCell::new(Vec::new());
    let available = check_update_sources(&update_appcast_sources(), |source| {
        checked.borrow_mut().push(source.appcast_url);
        (checked.borrow().len() == 2).then_some(UpdateCheck::Available(package()))
    });

    assert!(matches!(available, Some(UpdateCheck::Available(_))));
    assert_eq!(
        *checked.borrow(),
        vec![
            "https://updates.resticpal.com/appcast-v2.xml",
            "https://github.com/theatrus/resticpal/releases/latest/download/appcast-v2.xml",
        ]
    );

    checked.borrow_mut().clear();
    let fallback_available = check_update_sources(&update_appcast_sources(), |source| {
        checked.borrow_mut().push(source.appcast_url);
        if checked.borrow().len() == 1 {
            Some(UpdateCheck::Current)
        } else {
            Some(UpdateCheck::Available(package()))
        }
    });
    assert!(matches!(
        fallback_available,
        Some(UpdateCheck::Available(_))
    ));
    assert_eq!(checked.borrow().len(), 2);

    checked.borrow_mut().clear();
    let current = check_update_sources(&update_appcast_sources(), |source| {
        checked.borrow_mut().push(source.appcast_url);
        Some(UpdateCheck::Current)
    });
    assert_eq!(current, Some(UpdateCheck::Current));
    assert_eq!(
        *checked.borrow(),
        vec![
            "https://updates.resticpal.com/appcast-v2.xml",
            "https://github.com/theatrus/resticpal/releases/latest/download/appcast-v2.xml",
        ]
    );
}

#[test]
fn no_feed_that_can_be_read_says_nothing() {
    assert_eq!(check_update_sources(&update_appcast_sources(), |_| None), None);
    let asked = RefCell::new(0);
    let found = check_update_sources(&update_appcast_sources(), |_| {
        *asked.borrow_mut() += 1;
        Some(UpdateCheck::Available(package()))
    });
    assert!(found.is_some());
    assert_eq!(*asked.borrow(), 1);
}

#[test]
fn detached_update_signature_rejects_tampering() {
    let signing_key = SigningKey::from_bytes(&[42; 32]);
    let document = b"<rss><sparkle:version>1.0.2</sparkle:version></rss>";
    let signature = signing_key.sign(document);
    let signature = STANDARD.encode(signature.to_bytes());
    let public_key = STANDARD.encode(signing_key.verifying_key().to_bytes());

    assert!(verify_signed_document(document, &signature, &public_key));
    assert!(!verify_signed_document(
        b"<rss><sparkle:version>9.0.0</sparkle:version></rss>",
        &signature,
        &public_key
    ));
    assert!(!verify_signed_document(document, "not-base64", &public_key));
}

#[test]
fn a_feed_offers_only_what_is_newer_and_signed() {
    let signing_key = SigningKey::from_bytes(&[42; 32]);
    let signature = STANDARD.encode(signing_key.sign(FEED.as_bytes()).to_bytes());
    let public_key = format!(
        "{}\n",
        STANDARD.encode(signing_key.verifying_key().to_bytes())
    );
    let check = |signature: &[u8], current: &Version| {
        check_update_source(FEED.as_bytes(), signature, &public_key, current)
    };
    assert_eq!(
        check(signature.as_bytes(), &version(2, 3, 3)),
        Some(UpdateCheck::Available(
            extract_update_package(FEED).unwrap()
        ))
    );
    assert_eq!(
        check(signature.as_bytes(), &version(2, 3, 4)),
        Some(UpdateCheck::Current)
    );
    assert_eq!(check(b"AAAA", &version(2, 3, 3)), None);
    assert_eq!(check(&[0xff], &version(2, 3, 3)), None);
    assert_eq!(read_feed(FEED.as_bytes(), false, &version(0, 0, 1)), None);
    assert_eq!(read_feed(&[0xff], true, &version(0, 0, 1)), None);
    assert_eq!(
        read_feed(FEED.as_bytes(), true, &version(10, 0, 0)),
        Some(UpdateCheck::Current)
    );
}

#[test]
fn incomplete_feeds_offer_nothing() {
    assert_eq!(extract_update_package("<rss />"), None);
    assert_eq!(extract_update_package(&FEED.replace("2.3.4<", "2.3<")), None);
    assert_eq!(extract_update_package(&FEED.replace("<enclosure ", "<x ")), None);
    assert_eq!(extract_update_package(&FEED.replace("83329024", "many")), None);
    assert_eq!(
        extract_update_package(&FEED.replace("c2lnbmF0dXJl", "")),
        None
    );
    assert_eq!(
        extract_xml_attribute("<a b=\"c\" d=\"e\">", "d"),
        Some("e".to_owned())
    );
    assert_eq!(extract_xml_attribute("<a b=\"c\">", "d"), None);
    assert_eq!(extract_xml_attribute("<a b=\"\">", "b"), None);
    assert_eq!(extract_xml_attribute("<a b=\"c", "b"), None);
}

#[test]
fn long_feeds_are_not_read() {
    assert!(check_feed_length(
        MAX_UPDATE_APPCAST_BYTES,
        MAX_UPDATE_APPCAST_BYTES
    ));
    assert!(!check_feed_length(
        MAX_UPDATE_APPCAST_BYTES + 1,
        MAX_UPDATE_APPCAST_BYTES
    ));
}

//! The signed feed of releases that the tray reads.
use crate::protocol::UpdatePackage;
use crate::text;
use crate::updater::{
    accepts_verifying_key, base64_standard, decode_base64, parse_version, public_key_of,
    verifies_strictly, verify_strict, Version,
};
use vstd::prelude::*;

verus! {

/// The longest feed that is read.
pub const MAX_UPDATE_APPCAST_BYTES: usize = 262_144;

/// The longest signature of a feed that is read.
pub const MAX_UPDATE_SIGNATURE_BYTES: usize = 1_024;

/// What a feed says of the installed version.
#[derive(Debug, PartialEq, Eq)]
pub enum UpdateCheck {
    Current,
    Available(UpdatePackage),
}

/// Where a feed and its signature are.
#[derive(Debug, Clone, Copy, PartialEq, Eq)]
pub struct UpdateSource {
    pub appcast_url: &'static str,
    pub signature_url: &'static str,
}

/// The feeds, in the order in which they are asked.
pub fn update_appcast_sources() -> (sources: Vec<UpdateSource>)
    ensures
        sources@.len() == 2,
        sources@[0].appcast_url@ == "https://updates.resticpal.com/appcast-v2.xml"@,
        sources@[0].signature_url@ == "https://updates.resticpal.com/appcast-v2.xml.signature"@,
        sources@[1].appcast_url@
            == "https://github.com/theatrus/resticpal/releases/latest/download/appcast-v2.xml"@,
        sources@[1].signature_url@
            == "https://github.com/theatrus/resticpal/releases/latest/download/appcast-v2.xml.signature"@,
{
    vec![
        UpdateSource {
            appcast_url: "https://updates.resticpal.com/appcast-v2.xml",
            signature_url: "https://updates.resticpal.com/appcast-v2.xml.signature",
        },
        UpdateSource {
            appcast_url: "https://github.com/theatrus/resticpal/releases/latest/download/appcast-v2.xml",
            signature_url: "https://github.com/theatrus/resticpal/releases/latest/download/appcast-v2.xml.signature",
        },
    ]
}

/// The three numbers of a version.
pub open spec fn numbers_of(version: Version) -> Seq<u64> {
    seq![version.major, version.minor, version.patch]
}

pub fn parse_product_version(value: &str) -> (version: Option<[u64; 3]>)
    ensures
        match version {
            Some(numbers) => Version::named_by(value@) is Some && numbers@ == numbers_of(
                Version::named_by(value@)->0,
            ),
            None => Version::named_by(value@) is None,
        },
{
    match parse_version(value) {
        Some(version) => Some([version.major, version.minor, version.patch]),
        None => None,
    }
}

/// The version that a feed offers.
pub open spec fn offered_version(document: Seq<char>) -> Option<Seq<char>> {
    match text::between(document, "<sparkle:version>"@, "</sparkle:version>"@) {
        Some(value) => Some(text::trimmed(value)),
        None => None,
    }
}

fn extract_version(document: &str) -> (version: Option<String>)
    ensures
        match version {
            Some(version) => offered_version(document@) == Some(version@),
            None => offered_version(document@) is None,
        },
{
    match text::extract_between(document, "<sparkle:version>", "</sparkle:version>") {
        Some(value) => Some(text::trim(value.as_str())),
        None => None,
    }
}

pub fn extract_appcast_version(document: &str) -> (version: Option<[u64; 3]>)
    ensures
        match version {
            Some(numbers) => {
                &&& offered_version(document@) is Some
                &&& Version::named_by(offered_version(document@)->0) is Some
                &&& numbers@ == numbers_of(Version::named_by(offered_version(document@)->0)->0)
            },
            None => offered_version(document@) is None || Version::named_by(
                offered_version(document@)->0,
            ) is None,
        },
{
    match extract_version(document) {
        Some(version) => parse_product_version(version.as_str()),
        None => None,
    }
}

/// The value of an attribute of an element, where it has one that is not empty.
pub open spec fn attribute(element: Seq<char>, name: Seq<char>) -> Option<Seq<char>> {
    match text::between(element, " "@ + name + "=\""@, "\""@) {
        Some(value) => if value.len() == 0 {
            None
        } else {
            Some(value)
        },
        None => None,
    }
}

pub fn extract_xml_attribute(element: &str, name: &str) -> (value: Option<String>)
    ensures
        match value {
            Some(value) => attribute(element@, name@) == Some(value@),
            None => attribute(element@, name@) is None,
        },
{
    let front = text::joined(" ", name);
    let marker = text::joined(front.as_str(), "=\"");
    match text::extract_between(element, marker.as_str(), "\"") {
        Some(value) => {
            let chars = text::characters(value.as_str());
            if chars.len() == 0 {
                None
            } else {
                Some(value)
            }
        },
        None => None,
    }
}

/// The element of a feed that names the installer, up to its end.
pub open spec fn enclosure_of(document: Seq<char>) -> Option<Seq<char>> {
    match text::position(document, 0, "<enclosure "@) {
        Some(start) => match text::position(document, start, ">"@) {
            Some(end) => Some(document.subrange(start, end + 1)),
            None => None,
        },
        None => None,
    }
}

fn extract_enclosure(document: &str) -> (element: Option<String>)
    ensures
        match element {
            Some(element) => enclosure_of(document@) == Some(element@),
            None => enclosure_of(document@) is None,
        },
{
    proof {
        reveal_strlit(">");
    }
    let chars = text::characters(document);
    let total: usize = chars.len();
    assert(total == chars@.len());
    match text::position_of(&chars, 0, "<enclosure ") {
        Some(start) => match text::position_of(&chars, start, ">") {
            Some(end) => Some(text::text_of(&chars, start, end + 1)),
            None => None,
        },
        None => None,
    }
}

/// `package` is the installer that a feed offers.
pub open spec fn offers(document: Seq<char>, package: UpdatePackage) -> bool {
    let element = enclosure_of(document)->0;
    &&& offered_version(document) == Some(package.version@)
    &&& Version::named_by(package.version@) is Some
    &&& enclosure_of(document) is Some
    &&& attribute(element, "url"@) == Some(package.url@)
    &&& attribute(element, "sparkle:signature"@) == Some(package.signature@)
    &&& attribute(element, "length"@) is Some
    &&& text::unsigned_number(attribute(element, "length"@)->0) == Some(package.length)
}

/// Whether a feed offers an installer at all.
pub open spec fn offers_something(document: Seq<char>) -> bool {
    let element = enclosure_of(document)->0;
    &&& offered_version(document) is Some
    &&& Version::named_by(offered_version(document)->0) is Some
    &&& enclosure_of(document) is Some
    &&& attribute(element, "url"@) is Some
    &&& attribute(element, "sparkle:signature"@) is Some
    &&& attribute(element, "length"@) is Some
    &&& text::unsigned_number(attribute(element, "length"@)->0) is Some
}

/// The installer that a feed offers.
pub fn extract_update_package(document: &str) -> (package: Option<UpdatePackage>)
    ensures
        match package {
            Some(package) => offers(document@, package),
            None => !offers_something(document@),
        },
{
    let version = match extract_version(document) {
        Some(version) => version,
        None => return None,
    };
    if parse_version(version.as_str()).is_none() {
        return None;
    }
    let enclosure = match extract_enclosure(document) {
        Some(enclosure) => enclosure,
        None => return None,
    };
    let url = match extract_xml_attribute(enclosure.as_str(), "url") {
        Some(url) => url,
        None => return None,
    };
    let signature = match extract_xml_attribute(enclosure.as_str(), "sparkle:signature") {
        Some(signature) => signature,
        None => return None,
    };
    let length = match extract_xml_attribute(enclosure.as_str(), "length") {
        Some(length) => length,
        None => return None,
    };
    match text::parse_unsigned_number(length.as_str()) {
        Some(length) => Some(UpdatePackage { version, url, signature, length }),
        None => None,
    }
}

/// A feed offers at most one installer.
pub proof fn a_feed_offers_one_installer(
    document: Seq<char>,
    one: UpdatePackage,
    other: UpdatePackage,
)
    requires
        offers(document, one),
        offers(document, other),
    ensures
        one.version@ == other.version@,
        one.url@ == other.url@,
        one.signature@ == other.signature@,
        one.length == other.length,
{
}

/// The signature that a text beside a feed encodes, where it is one.
pub open spec fn detached_signature_of(encoded: Seq<char>) -> Option<Seq<u8>> {
    let decoded = base64_standard(text::trimmed(encoded));
    if decoded is Some && decoded->0.len() == 64 {
        decoded
    } else {
        None
    }
}

/// Whether a document carries a signature of the key.
pub open spec fn is_signed(document: Seq<u8>, signature: Seq<char>, public_key: Seq<char>) -> bool {
    &&& public_key_of(public_key) is Some
    &&& detached_signature_of(signature) is Some
    &&& verifies_strictly(
        public_key_of(public_key)->0,
        document,
        detached_signature_of(signature)->0,
    )
}

pub fn verify_signed_document(document: &[u8], signature: &str, public_key: &str) -> (verified:
    bool)
    ensures
        verified == is_signed(document@, signature@, public_key@),
{
    let trimmed_key = text::trim(public_key);
    let key = match decode_base64(trimmed_key.as_str()) {
        Some(key) => key,
        None => return false,
    };
    if key.len() != 32 || !accepts_verifying_key(&key) {
        return false;
    }
    let trimmed_signature = text::trim(signature);
    let signature = match decode_base64(trimmed_signature.as_str()) {
        Some(signature) => signature,
        None => return false,
    };
    if signature.len() != 64 {
        return false;
    }
    verify_strict(&key, document, &signature)
}

/// A reply that is longer than its limit is not read.
pub fn check_feed_length(length: usize, max_bytes: usize) -> (fits: bool)
    ensures
        fits == (length <= max_bytes),
{
    length <= max_bytes
}

/// What a feed whose signature was looked at says of an installed version.
pub fn read_feed(appcast: &[u8], signed: bool, current: &Version) -> (check: Option<UpdateCheck>)
    ensures
        ({
            let document = vstd::utf8::decode_utf8(appcast@);
            let readable = signed && vstd::utf8::valid_utf8(appcast@) && offers_something(document);
            match check {
                None => !readable,
                Some(UpdateCheck::Available(package)) => {
                    &&& readable
                    &&& offers(document, package)
                    &&& Version::named_by(package.version@)->0.is_newer_than(*current)
                },
                Some(UpdateCheck::Current) => {
                    &&& readable
                    &&& !Version::named_by(offered_version(document)->0)->0.is_newer_than(*current)
                },
            }
        }),
{
    if !signed {
        return None;
    }
    let document = match text::from_utf8(appcast) {
        Some(document) => document,
        None => return None,
    };
    let package = match extract_update_package(document.as_str()) {
        Some(package) => package,
        None => return None,
    };
    let available = match parse_version(package.version.as_str()) {
        Some(available) => available,
        None => return None,
    };
    if available.newer_than(current) {
        Some(UpdateCheck::Available(package))
    } else {
        Some(UpdateCheck::Current)
    }
}

/// Whether a feed and the text beside it are what the key signed.
pub open spec fn feed_is_signed(
    appcast: Seq<u8>,
    signature: Seq<u8>,
    public_key: Seq<char>,
) -> bool {
    vstd::utf8::valid_utf8(signature) && is_signed(
        appcast,
        vstd::utf8::decode_utf8(signature),
        public_key,
    )
}

/// What a feed says of an installed version. A feed without a signature of the
/// key says nothing.
pub fn check_update_source(
    appcast: &[u8],
    signature: &[u8],
    public_key: &str,
    current: &Version,
) -> (check: Option<UpdateCheck>)
    ensures
        ({
            let document = vstd::utf8::decode_utf8(appcast@);
            let readable = feed_is_signed(appcast@, signature@, public_key@)
                && vstd::utf8::valid_utf8(appcast@) && offers_something(document);
            match check {
                None => !readable,
                Some(UpdateCheck::Available(package)) => {
                    &&& readable
                    &&& offers(document, package)
                    &&& Version::named_by(package.version@)->0.is_newer_than(*current)
                },
                Some(UpdateCheck::Current) => {
                    &&& readable
                    &&& !Version::named_by(offered_version(document)->0)->0.is_newer_than(*current)
                },
            }
        }),
{
    let signed = match text::from_utf8(signature) {
        Some(signature) => verify_signed_document(appcast, signature.as_str(), public_key),
        None => false,
    };
    read_feed(appcast, signed, current)
}

/// What the feeds come to: the first that offers an update, or else that the
/// version is current where one of them says so.
pub open spec fn comes_to(checks: Seq<Option<UpdateCheck>>) -> Option<UpdateCheck>
    decreases checks.len(),
{
    if checks.len() == 0 {
        None
    } else {
        let before = comes_to(checks.drop_last());
        match (before, checks.last()) {
            (Some(UpdateCheck::Available(_)), _) => before,
            (_, Some(UpdateCheck::Available(package))) => checks.last(),
            (_, Some(UpdateCheck::Current)) => Some(UpdateCheck::Current),
            (_, None) => before,
        }
    }
}

/// These checks of the first feeds came to this; where not all of them were
/// asked, the last that was offers an update.
pub open spec fn asked<F: Fn(UpdateSource) -> Option<UpdateCheck>>(
    sources: Seq<UpdateSource>,
    check: F,
    checks: Seq<Option<UpdateCheck>>,
) -> bool {
    &&& checks.len() <= sources.len()
    &&& forall|i: int|
        0 <= i < checks.len() ==> call_ensures(check, (sources[i],), #[trigger] checks[i])
    &&& checks.len() < sources.len() ==> comes_to(checks) is Some && comes_to(checks)->0 is Available
}

/// Asks the feeds in their order until one offers an update.
pub fn check_update_sources<F: Fn(UpdateSource) -> Option<UpdateCheck>>(
    sources: &Vec<UpdateSource>,
    check: F,
) -> (found: Option<UpdateCheck>)
    requires
        forall|source: UpdateSource| #[trigger] call_requires(check, (source,)),
    ensures
        exists|checks: Seq<Option<UpdateCheck>>| #[trigger]
            asked(sources@, check, checks) && found == comes_to(checks),
{
    let mut current_feed_seen = false;
    let ghost mut checks: Seq<Option<UpdateCheck>> = Seq::empty();
    let mut i: usize = 0;
    while i < sources.len()
        invariant
            forall|source: UpdateSource| #[trigger] call_requires(check, (source,)),
            i <= sources@.len(),
            checks.len() == i,
            forall|j: int|
                0 <= j < checks.len() ==> call_ensures(check, (sources@[j],), #[trigger] checks[j]),
            comes_to(checks) == (if current_feed_seen {
                Some(UpdateCheck::Current)
            } else {
                None
            }),
        decreases sources@.len() - i,
    {
        let ghost before = checks;
        let result = check(sources[i]);
        proof {
            checks = before.push(result);
            assert(checks.drop_last() == before);
        }
        match result {
            Some(UpdateCheck::Available(package)) => {
                proof {
                    assert(asked(sources@, check, checks));
                }
                return Some(UpdateCheck::Available(package));
            },
            Some(UpdateCheck::Current) => {
                current_feed_seen = true;
            },
            None => {},
        }
        i = i + 1;
    }
    proof {
        assert(asked(sources@, check, checks));
    }
    if current_feed_seen {
        Some(UpdateCheck::Current)
    } else {
        None
    }
}

} // verus!

use centichain_keypair::CentichainKey;
use centichain_tx::keys::{AddressError, PublicKey, Signature, ADDRESS_FORMAT};
use sp_core::crypto::{Ss58AddressFormat, Ss58Codec};
use sp_core::Pair;

const ALICE: &str = "5GrwvaEF5zXb26Fz9rcQpDWS57CtERHpNehXCPcNoHGKutQY";
const ALICE_KEY: [u8; 32] = [
    0xd4, 0x35, 0x93, 0xc7, 0x15, 0xfd, 0xd3, 0x1c, 0x61, 0x14, 0x1a, 0xbd, 0x04, 0xa9, 0x9f, 0xd6,
    0x82, 0x2c, 0x85, 0x58, 0x85, 0x4c, 0xcd, 0xe3, 0x9a, 0x56, 0x84, 0xe7, 0xa5, 0x6d, 0xa2, 0x7d,
];
const PHRASE: &str = "bottom drive obey lake curtain smoke basket hold race lonely fit walk";

#[test]
fn address_parses_to_its_key_bytes() {
    let key = PublicKey::parse(ALICE).unwrap();
    assert_eq!(key.to_bytes(), ALICE_KEY);
    assert_eq!(key, PublicKey::from_bytes(ALICE_KEY));
}

#[test]
fn key_is_written_as_its_address() {
    assert_eq!(PublicKey::from_bytes(ALICE_KEY).to_ss58(), ALICE);
    assert_eq!(ADDRESS_FORMAT, 42);
}

#[test]
fn address_round_trips_for_any_key() {
    for seed in [0u8, 1, 77, 255] {
        let key = PublicKey::from_bytes([seed; 32]);
        assert_eq!(PublicKey::parse(&key.to_ss58()), Ok(key));
    }
}

#[test]
fn malformed_addresses_are_refused() {
    assert_eq!(PublicKey::parse(""), Err(AddressError::Malformed));
    assert_eq!(PublicKey::parse("not an address"), Err(AddressError::Malformed));
    // A wrong last character breaks the checksum.
    assert_eq!(
        PublicKey::parse("5GrwvaEF5zXb26Fz9rcQpDWS57CtERHpNehXCPcNoHGKutQZ"),
        Err(AddressError::Malformed)
    );
    // Too short for a 32-byte key.
    assert_eq!(PublicKey::parse("5Grwva"), Err(AddressError::Malformed));
    // Untrimmed text is no address.
    assert_eq!(PublicKey::parse(&format!(" {}", ALICE)), Err(AddressError::Malformed));
}

#[test]
fn address_of_another_registered_network_is_accepted() {
    let polkadot = sp_core::ed25519::Public::from_raw(ALICE_KEY)
        .to_ss58check_with_version(Ss58AddressFormat::from(0u16));
    assert_ne!(polkadot, ALICE);
    assert_eq!(PublicKey::parse(&polkadot), Ok(PublicKey::from_bytes(ALICE_KEY)));
}

#[test]
fn address_of_an_unregistered_format_is_refused() {
    let format = Ss58AddressFormat::custom(9999);
    assert!(format.is_custom());
    let unknown = sp_core::ed25519::Public::from_raw(ALICE_KEY).to_ss58check_with_version(format);
    assert_eq!(PublicKey::parse(&unknown), Err(AddressError::UnknownFormat));
}

#[test]
fn decoded_address_is_judged_by_format() {
    assert_eq!(PublicKey::from_decoded(None, false), Err(AddressError::Malformed));
    assert_eq!(PublicKey::from_decoded(None, true), Err(AddressError::Malformed));
    assert_eq!(
        PublicKey::from_decoded(Some((ALICE_KEY, 0)), false),
        Ok(PublicKey::from_bytes(ALICE_KEY))
    );
    assert_eq!(
        PublicKey::from_decoded(Some((ALICE_KEY, 42)), true),
        Ok(PublicKey::from_bytes(ALICE_KEY))
    );
    assert_eq!(
        PublicKey::from_decoded(Some((ALICE_KEY, 9999)), true),
        Err(AddressError::UnknownFormat)
    );
}

#[test]
fn signature_is_written_in_lowercase_hex() {
    let mut bytes = [0u8; 64];
    bytes[0] = 0xab;
    bytes[63] = 0x0f;
    let hex = Signature::from_bytes(bytes).to_hex();
    assert_eq!(hex.len(), 128);
    assert!(hex.starts_with("ab00"));
    assert!(hex.ends_with("000f"));
    assert_eq!(Signature::from_bytes(bytes).to_bytes(), bytes);
}

#[test]
fn signing_gives_a_signature_that_verifies() {
    let message = "0123abcd";
    let signature = Signature::sign(PHRASE, message).unwrap();
    let public = CentichainKey::check_phrase(&PHRASE.to_string()).unwrap();
    let outside = sp_core::ed25519::Signature::from_raw(signature.to_bytes());
    assert!(sp_core::ed25519::Pair::verify(&outside, message.as_bytes(), &public));
    assert!(!sp_core::ed25519::Pair::verify(&outside, "other".as_bytes(), &public));
}

#[test]
fn signing_is_a_function_of_phrase_and_message() {
    assert_eq!(Signature::sign(PHRASE, "m"), Signature::sign(PHRASE, "m"));
    assert_ne!(Signature::sign(PHRASE, "m"), Signature::sign(PHRASE, "n"));
}

#[test]
fn signing_with_what_is_no_seed_phrase_fails() {
    assert_eq!(Signature::sign("", "m"), None);
    assert_eq!(Signature::sign("twelve words that are not a phrase", "m"), None);
}

#[test]
fn signing_attempt_is_wrapped_as_it_is() {
    assert_eq!(Signature::from_signed(None), None);
    assert_eq!(Signature::from_signed(Some([7u8; 64])), Some(Signature::from_bytes([7u8; 64])));
}

#[test]
fn odd_texts_are_refused_without_harm() {
    assert_eq!(PublicKey::parse(&"5".repeat(1000)), Err(AddressError::Malformed));
    assert_eq!(PublicKey::parse("\u{0}\u{ffff}"), Err(AddressError::Malformed));
    assert_eq!(PublicKey::parse("0OIl"), Err(AddressError::Malformed));
    assert_eq!(Signature::sign(&"abandon ".repeat(500), "m"), None);
    assert_eq!(Signature::sign("bottom drive obey lake curtain smoke basket hold race lonely fit", "m"), None);
    assert!(Signature::sign(PHRASE, "").is_some());
}

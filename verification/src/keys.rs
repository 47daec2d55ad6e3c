//! Public keys and signatures as plain bytes, with their text forms.
//!
//! Addresses are written in SS58, the text format of Substrate networks; the
//! `sp_core` crate decodes and encodes it. Signatures are made by the
//! `centichain_keypair` crate from a seed phrase.

use crate::hash::{hex_lower, to_hex};
use centichain_keypair::CentichainKey;
use sp_core::crypto::{Ss58AddressFormat, Ss58Codec};
use sp_core::ed25519::Public;
use vstd::prelude::*;

verus! {

/// The address format under which keys are written: the generic Substrate
/// account format.
pub const ADDRESS_FORMAT: u16 = 42;

/// What `sp_core` decodes an SS58 text to: the 32 key bytes and the number of
/// the address format, or nothing where the text is malformed.
pub uninterp spec fn ss58_decoded(text: Seq<char>) -> Option<([u8; 32], u16)>;

/// Whether the registry of address formats does not know `format`.
pub uninterp spec fn ss58_format_is_custom(format: u16) -> bool;

/// The SS58 text that `sp_core` writes for a key under an address format.
pub uninterp spec fn ss58_encoded(key: Seq<u8>, format: u16) -> Seq<char>;

/// The signature that `centichain_keypair` makes over `message` with the key
/// pair of a seed phrase, or nothing where the phrase is no seed phrase.
pub uninterp spec fn phrase_signature(phrase: Seq<char>, message: Seq<char>) -> Option<[u8; 64]>;

/// Calls `Ss58Codec::from_ss58check_with_version` for an ed25519 public key.
///
/// Trusted: the key bytes and the format number that the text decodes to, or
/// `None` where the crate returns an error (bad base 58, length, prefix,
/// checksum, or a reserved format); a function of the text alone.
#[verifier::external_body]
fn ss58_decode(text: &str) -> (r: Option<([u8; 32], u16)>)
    ensures
        r == ss58_decoded(text@),
{
    match Public::from_ss58check_with_version(text) {
        Ok((key, format)) => Some((key.0, u16::from(format))),
        Err(_) => None,
    }
}

/// Calls `Ss58AddressFormat::is_custom` on the format with this number.
///
/// Trusted: whether the number is missing from the crate's registry of known
/// formats.
#[verifier::external_body]
fn format_is_custom(format: u16) -> (r: bool)
    ensures
        r == ss58_format_is_custom(format),
{
    Ss58AddressFormat::from(format).is_custom()
}

/// Calls `Ss58Codec::to_ss58check_with_version` for an ed25519 public key.
///
/// Trusted: the text is a function of the key bytes and the format number.
#[verifier::external_body]
fn ss58_encode(key: &[u8; 32], format: u16) -> (r: String)
    ensures
        r@ == ss58_encoded(key@, format),
{
    Public::from_raw(*key).to_ss58check_with_version(Ss58AddressFormat::from(format))
}

/// Calls `CentichainKey::signing`.
///
/// Trusted: the 64 signature bytes, or `None` where the crate rejects the
/// seed phrase. Ed25519 signing draws no randomness, so the bytes are a
/// function of phrase and message.
#[verifier::external_body]
fn sign_with_phrase(phrase: &str, message: &str) -> (r: Option<[u8; 64]>)
    ensures
        r == phrase_signature(phrase@, message@),
{
    match CentichainKey::signing(&phrase.to_string(), &message.to_string()) {
        Ok(signature) => Some(signature.0),
        Err(_) => None,
    }
}

/// Why a text is no address of this network.
#[derive(Clone, Copy, Debug, PartialEq, Eq)]
pub enum AddressError {
    /// The text is not well-formed SS58 for a 32-byte key.
    Malformed,
    /// The text names an address format that is neither registered nor the
    /// network's own.
    UnknownFormat,
}

/// Whether a decoded address format is accepted: every registered format is,
/// and the network's own.
pub open spec fn format_accepted(format: u16) -> bool {
    !ss58_format_is_custom(format) || format == ADDRESS_FORMAT
}

/// The key that an address text stands for, or why it stands for none.
pub open spec fn address_key(text: Seq<char>) -> Result<Seq<u8>, AddressError> {
    match ss58_decoded(text) {
        None => Err(AddressError::Malformed),
        Some((key, format)) => if format_accepted(format) {
            Ok(key@)
        } else {
            Err(AddressError::UnknownFormat)
        },
    }
}

/// An ed25519 public key: 32 bytes, compared byte by byte.
#[derive(Clone, Copy, Debug, PartialEq, Eq)]
pub struct PublicKey {
    bytes: [u8; 32],
}

impl View for PublicKey {
    type V = Seq<u8>;

    closed spec fn view(&self) -> Seq<u8> {
        self.bytes@
    }
}

impl PublicKey {
    /// The key with these bytes.
    pub fn from_bytes(bytes: [u8; 32]) -> (r: PublicKey)
        ensures
            r@ == bytes@,
    {
        PublicKey { bytes }
    }

    /// The 32 bytes of the key.
    pub fn to_bytes(&self) -> (r: [u8; 32])
        ensures
            r@ == self@,
    {
        self.bytes
    }

    /// A key has 32 bytes.
    pub proof fn lemma_len(self)
        ensures
            self@.len() == 32,
    {
    }

    /// Decides what a decoded address stands for. `decoded` is the outcome of
    /// the SS58 decoding, `custom` whether the registry lacks the decoded
    /// format.
    pub fn from_decoded(decoded: Option<([u8; 32], u16)>, custom: bool) -> (r: Result<
        PublicKey,
        AddressError,
    >)
        ensures
            decoded is None ==> r == Err::<PublicKey, AddressError>(AddressError::Malformed),
            decoded matches Some(d) ==> (if !custom || d.1 == ADDRESS_FORMAT {
                r matches Ok(key) && key@ == d.0@
            } else {
                r == Err::<PublicKey, AddressError>(AddressError::UnknownFormat)
            }),
    {
        match decoded {
            None => Err(AddressError::Malformed),
            Some((bytes, format)) => {
                if !custom || format == ADDRESS_FORMAT {
                    Ok(PublicKey { bytes })
                } else {
                    Err(AddressError::UnknownFormat)
                }
            },
        }
    }

    /// Parses an SS58 address.
    pub fn parse(text: &str) -> (r: Result<PublicKey, AddressError>)
        ensures
            match r {
                Ok(key) => address_key(text@) == Ok::<Seq<u8>, AddressError>(key@),
                Err(e) => address_key(text@) == Err::<Seq<u8>, AddressError>(e),
            },
    {
        let decoded = ss58_decode(text);
        let custom = match decoded {
            Some((_, format)) => format_is_custom(format),
            None => false,
        };
        Self::from_decoded(decoded, custom)
    }

    /// The SS58 address of the key under the network's address format.
    pub fn to_ss58(&self) -> (r: String)
        ensures
            r@ == ss58_encoded(self@, ADDRESS_FORMAT),
    {
        ss58_encode(&self.bytes, ADDRESS_FORMAT)
    }
}

/// An ed25519 signature: 64 bytes, compared byte by byte.
#[derive(Clone, Copy, Debug, PartialEq, Eq)]
pub struct Signature {
    bytes: [u8; 64],
}

impl View for Signature {
    type V = Seq<u8>;

    closed spec fn view(&self) -> Seq<u8> {
        self.bytes@
    }
}

impl Signature {
    /// The signature with these bytes.
    pub fn from_bytes(bytes: [u8; 64]) -> (r: Signature)
        ensures
            r@ == bytes@,
    {
        Signature { bytes }
    }

    /// The 64 bytes of the signature.
    pub fn to_bytes(&self) -> (r: [u8; 64])
        ensures
            r@ == self@,
    {
        self.bytes
    }

    /// A signature has 64 bytes.
    pub proof fn lemma_len(self)
        ensures
            self@.len() == 64,
    {
    }

    /// The signature in lowercase hexadecimal, 128 characters.
    pub fn to_hex(&self) -> (r: String)
        ensures
            r@ == hex_lower(self@),
    {
        to_hex(self.bytes.as_slice())
    }

    /// Wraps the outcome of a signing attempt.
    pub fn from_signed(signed: Option<[u8; 64]>) -> (r: Option<Signature>)
        ensures
            signed is None <==> r is None,
            signed matches Some(bytes) ==> r matches Some(signature) && signature@ == bytes@,
    {
        match signed {
            Some(bytes) => Some(Signature { bytes }),
            None => None,
        }
    }

    /// Signs `message` with the key pair of the seed phrase `phrase`. `None`
    /// where the phrase is no seed phrase.
    pub fn sign(phrase: &str, message: &str) -> (r: Option<Signature>)
        ensures
            r is None <==> phrase_signature(phrase@, message@) is None,
            r matches Some(signature) ==> phrase_signature(phrase@, message@) matches Some(bytes)
                && signature@ == bytes@,
    {
        Self::from_signed(sign_with_phrase(phrase, message))
    }
}

} // verus!

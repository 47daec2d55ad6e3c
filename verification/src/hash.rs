//! SHA-256 content hashing with a lowercase hexadecimal digest.

use sha2::{Digest, Sha256};
use vstd::prelude::*;
use vstd::utf8::encode_utf8;

verus! {

/// The SHA-256 digest of `data`. The algorithm itself is not modelled: this
/// names what the `sha2` crate computes.
pub uninterp spec fn sha256_digest(data: Seq<u8>) -> [u8; 32];

/// Runs `sha2::Sha256::digest` over `data`.
///
/// Trusted: the 32 bytes that come back are the SHA-256 digest of `data`,
/// a function of the input bytes alone.
#[verifier::external_body]
fn sha256(data: &[u8]) -> (digest: [u8; 32])
    ensures
        digest == sha256_digest(data@),
{
    Sha256::digest(data).into()
}

/// The lowercase hexadecimal digit for a value below sixteen.
pub open spec fn hex_digit(n: int) -> char {
    if n < 10 {
        (n + 48) as u8 as char
    } else {
        (n + 87) as u8 as char
    }
}

/// Two lowercase hexadecimal digits per byte, most significant nibble first.
pub open spec fn hex_lower(bytes: Seq<u8>) -> Seq<char>
    decreases bytes.len(),
{
    if bytes.len() == 0 {
        Seq::empty()
    } else {
        hex_lower(bytes.drop_last()).push(hex_digit(bytes.last() as int / 16)).push(
            hex_digit(bytes.last() as int % 16),
        )
    }
}

/// The digest string of a text: SHA-256 over its UTF-8 bytes, in lowercase
/// hexadecimal.
pub open spec fn digest_hex(text: Seq<char>) -> Seq<char> {
    hex_lower(sha256_digest(encode_utf8(text))@)
}

/// Every byte contributes exactly two characters.
pub proof fn lemma_hex_lower_len(bytes: Seq<u8>)
    ensures
        hex_lower(bytes).len() == 2 * bytes.len(),
    decreases bytes.len(),
{
    if bytes.len() > 0 {
        lemma_hex_lower_len(bytes.drop_last());
    }
}

pub(crate) fn hex_digit_str(n: u8) -> (r: &'static str)
    requires
        n < 16,
    ensures
        r@ == seq![hex_digit(n as int)],
{
    let r = match n {
        0 => "0",
        1 => "1",
        2 => "2",
        3 => "3",
        4 => "4",
        5 => "5",
        6 => "6",
        7 => "7",
        8 => "8",
        9 => "9",
        10 => "a",
        11 => "b",
        12 => "c",
        13 => "d",
        14 => "e",
        _ => "f",
    };
    proof {
        reveal_strlit("0");
        reveal_strlit("1");
        reveal_strlit("2");
        reveal_strlit("3");
        reveal_strlit("4");
        reveal_strlit("5");
        reveal_strlit("6");
        reveal_strlit("7");
        reveal_strlit("8");
        reveal_strlit("9");
        reveal_strlit("a");
        reveal_strlit("b");
        reveal_strlit("c");
        reveal_strlit("d");
        reveal_strlit("e");
        reveal_strlit("f");
        assert(r@ =~= seq![hex_digit(n as int)]);
    }
    r
}

/// Writes `bytes` in lowercase hexadecimal.
pub fn to_hex(bytes: &[u8]) -> (r: String)
    ensures
        r@ == hex_lower(bytes@),
{
    let mut out = String::new();
    let mut i: usize = 0;
    while i < bytes.len()
        invariant
            i <= bytes.len(),
            out@ == hex_lower(bytes@.take(i as int)),
        decreases bytes.len() - i,
    {
        let b: u8 = bytes[i];
        out.append(hex_digit_str(b / 16));
        out.append(hex_digit_str(b % 16));
        proof {
            let next = bytes@.take(i as int + 1);
            assert(next.drop_last() =~= bytes@.take(i as int));
            assert(next.last() == b);
            assert(out@ =~= hex_lower(next));
        }
        i += 1;
    }
    proof {
        assert(bytes@.take(bytes.len() as int) =~= bytes@);
    }
    out
}

/// Content hashing: SHA-256 in lowercase hexadecimal.
pub struct HashMaker;

impl HashMaker {
    /// Hashes the UTF-8 bytes of `data` and returns the digest as 64 lowercase
    /// hexadecimal characters.
    pub fn generate(data: &str) -> (r: String)
        ensures
            r@ == digest_hex(data@),
            r@.len() == 64,
    {
        let digest = sha256(data.as_bytes());
        proof {
            lemma_hex_lower_len(digest@);
        }
        to_hex(digest.as_slice())
    }
}

/// Hashing is a function of the content, and every digest string has the
/// same length: equal contents give equal digests of 64 characters.
pub proof fn lemma_digest_deterministic_fixed_length(b1: Seq<char>, b2: Seq<char>)
    ensures
        digest_hex(b1).len() == 64,
        b1 == b2 ==> digest_hex(b1) == digest_hex(b2),
{
    lemma_hex_lower_len(sha256_digest(encode_utf8(b1))@);
}

} // verus!

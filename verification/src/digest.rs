//! Content digest of an artifact: the cache key is the lowercase hex form of
//! the SHA-512 hash of the artifact's full byte contents.

use vstd::prelude::*;

use crypto::digest::Digest;

verus! {

/// The lowercase hexadecimal SHA-512 digest of a byte sequence. The digest is
/// a fixed cryptographic function of the bytes alone, so it gets a name here
/// rather than a definition; `sha512_hex` is the one way to compute it.
pub uninterp spec fn sha512_hex_of(bytes: Seq<u8>) -> Seq<char>;

/// Relies on crypto::sha2::Sha512 together with crypto::digest::Digest:
/// `input` absorbs the bytes and `result_str` returns the digest as lowercase
/// hex, two characters per digest byte. SHA-512 produces a 64-byte digest, so
/// the string has 128 characters, and it depends on the input bytes alone.
#[verifier::external_body]
pub fn sha512_hex(bytes: &[u8]) -> (r: String)
    ensures
        r@ == sha512_hex_of(bytes@),
        r@.len() == 128,
{
    let mut hasher = crypto::sha2::Sha512::new();
    hasher.input(bytes);
    hasher.result_str()
}

} // verus!

//! The transaction lookup key: a cryptographic digest of the transaction
//! bytes, rendered as upper-case hex.

use crate::error::CustomError;
use crate::hex::{hex_upper_of, hex_upper_string};
use sha2::Digest;
use vstd::prelude::*;

verus! {

/// The 32-byte SHA-256 digest of a byte string.
pub uninterp spec fn sha256_of(bytes: Seq<u8>) -> Seq<u8>;

/// Relies on sha2's Sha256: the 256-bit digest is a function of the input
/// bytes alone.
#[verifier::external_body]
fn sha256_digest(bytes: &[u8]) -> (r: Vec<u8>)
    ensures
        r@ == sha256_of(bytes@),
        r@.len() == 32,
{
    sha2::Sha256::digest(bytes).to_vec()
}

/// The digest of the given bytes as an upper-case hex string, two digits
/// per digest byte: the key under which the chain indexes a transaction.
pub fn calculate_hash(bytes: &[u8]) -> (r: Result<String, CustomError>)
    ensures
        r matches Ok(s) && s@ == hex_upper_of(sha256_of(bytes@)) && s@.len() == 64,
{
    let digest = sha256_digest(bytes);
    Ok(hex_upper_string(digest.as_slice()))
}

} // verus!

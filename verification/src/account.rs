//! Validator account identifiers: fixed-length raw bytes, readable and
//! writable as hex, and renderable as a bech32 address string.

use crate::hex::{hex_decode, hex_decode_bytes, hex_decode_ok, hex_upper_of, hex_upper_string};
use vstd::prelude::*;
use vstd::string::StringSliceAdditionalSpecFns;

verus! {

/// Number of raw bytes in an account identifier.
pub const LENGTH: usize = 20;

/// Errors from building an account identifier out of text or bytes.
#[derive(Clone, Copy, Debug, PartialEq, Eq, Structural)]
pub enum Error {
    /// The text was not a hex string of one case.
    InvalidHexAddress,
    /// The byte string did not have exactly `LENGTH` bytes.
    InvalidAccountIdLength,
}

/// A validator account identifier: `LENGTH` raw bytes.
#[derive(Copy, Clone, Eq, Hash, PartialEq, PartialOrd, Ord)]
pub struct Id([u8; LENGTH]);

impl View for Id {
    type V = Seq<u8>;

    closed spec fn view(&self) -> Seq<u8> {
        self.0@
    }
}

impl Id {
    /// Create a new account ID from raw bytes
    pub fn new(bytes: [u8; LENGTH]) -> (r: Id)
        ensures
            r@ == bytes@,
    {
        Id(bytes)
    }

    /// Borrow the account ID as a byte slice
    pub fn as_bytes(&self) -> (r: &[u8])
        ensures
            r@ == self@,
    {
        self.0.as_slice()
    }

    /// The identifier rendered as upper-case hex, two digits per byte.
    pub fn hex_string(&self) -> (r: String)
        ensures
            r@ == hex_upper_of(self@),
    {
        hex_upper_string(self.0.as_slice())
    }

    /// The identifier rendered as a bech32 address string under the given
    /// human-readable prefix.
    pub fn get_bech32_address_string(&self, prefix: &str) -> (r: String)
        ensures
            r@ == bech32_of(prefix@, self@),
    {
        bech32_encode(prefix, self.0.as_slice())
    }

    /// Build an identifier from a byte string of exactly `LENGTH` bytes.
    pub fn try_from(value: Vec<u8>) -> (r: Result<Id, Error>)
        ensures
            value@.len() == LENGTH ==> (r matches Ok(id) && id@ == value@),
            value@.len() != LENGTH ==> r == Err::<Id, Error>(Error::InvalidAccountIdLength),
    {
        if value.len() != LENGTH {
            return Err(Error::InvalidAccountIdLength);
        }
        let mut bytes: [u8; LENGTH] = [0; LENGTH];
        let mut i: usize = 0;
        while i < LENGTH
            invariant
                i <= LENGTH,
                value@.len() == LENGTH,
                forall|j: int| 0 <= j < i ==> bytes@[j] == value@[j],
            decreases LENGTH - i,
        {
            bytes[i] = value[i];
            i = i + 1;
        }
        proof {
            assert(bytes@ =~= value@);
        }
        Ok(Id(bytes))
    }

    /// Decode an identifier from hex text: upper-case digits, or failing
    /// that lower-case digits, then exactly `LENGTH` decoded bytes.
    pub fn from_str(s: &str) -> (r: Result<Id, Error>)
        ensures
            decoded_hex_bytes(s.spec_bytes()) is None ==> r == Err::<Id, Error>(
                Error::InvalidHexAddress,
            ),
            decoded_hex_bytes(s.spec_bytes()) matches Some(b) ==> if b.len() == LENGTH {
                (r matches Ok(id) && id@ == b)
            } else {
                r == Err::<Id, Error>(Error::InvalidAccountIdLength)
            },
    {
        let text = s.as_bytes();
        let decoded = match hex_decode(text, true) {
            Some(bytes) => bytes,
            None => match hex_decode(text, false) {
                Some(bytes) => bytes,
                None => {
                    return Err(Error::InvalidHexAddress);
                },
            },
        };
        Id::try_from(decoded)
    }
}

/// What a hex text stands for: decoded as upper-case digits, or failing
/// that as lower-case digits; `None` when it is neither.
pub open spec fn decoded_hex_bytes(sb: Seq<u8>) -> Option<Seq<u8>> {
    if hex_decode_ok(sb, true) {
        Some(hex_decode_bytes(sb))
    } else if hex_decode_ok(sb, false) {
        Some(hex_decode_bytes(sb))
    } else {
        None
    }
}

/// The bech32 rendering of a byte string under a human-readable prefix.
pub uninterp spec fn bech32_of(prefix: Seq<char>, data: Seq<u8>) -> Seq<char>;

/// Relies on subtle_encoding's bech32::encode: the lower-case bech32
/// encoding is a function of the prefix and the data bytes alone.
#[verifier::external_body]
fn bech32_encode(prefix: &str, data: &[u8]) -> (r: String)
    ensures
        r@ == bech32_of(prefix@, data@),
{
    subtle_encoding::bech32::encode(prefix, data)
}

} // verus!

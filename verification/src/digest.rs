//! The digest service: the SHA-256 hash of a record's canonical text, in
//! lowercase hexadecimal.

use crate::chain::Chain;
use crate::hex::{hex_char_at, hex_digit, hex_text, is_lower_hex};
use sha2::{Digest, Sha256};
use vstd::prelude::*;
use vstd::string::StringExecFns;
use vstd::utf8::encode_utf8;

verus! {

/// The SHA-256 hash of a byte sequence.
pub uninterp spec fn sha256_bytes(data: Seq<u8>) -> Seq<u8>;

/// `Sha256::digest` of the `sha2` crate. Not proved: that the bytes it
/// returns are a function of the input alone, here called `sha256_bytes`, and
/// that there are thirty-two of them.
#[verifier::external_body]
pub(crate) fn sha256(data: &[u8]) -> (hash: Vec<u8>)
    ensures
        hash@ == sha256_bytes(data@),
        hash@.len() == 32,
{
    Sha256::digest(data).to_vec()
}

/// The digest of a canonical text: the hash of its UTF-8 bytes in lowercase
/// hexadecimal.
pub open spec fn digest_of(text: Seq<char>) -> Seq<char> {
    hex_text(sha256_bytes(encode_utf8(text)))
}

/// The sentinel that stands where there is no digest: sixty-four zeros.
pub open spec fn zero_digest() -> Seq<char> {
    Seq::new(64, |i: int| '0')
}

/// A value with a canonical text: one fixed serialisation, the same on every
/// call, from which its digest is taken.
pub trait Canonical {
    /// The canonical text of the value.
    spec fn canonical_text(&self) -> Seq<char>;

    /// Writes the canonical text out.
    fn canonical(&self) -> (text: String)
        ensures
            text@ == self.canonical_text(),
    ;
}

/// A string is serialised as its JSON text.
impl Canonical for String {
    open spec fn canonical_text(&self) -> Seq<char> {
        crate::json::json_string_text(self@)
    }

    fn canonical(&self) -> (text: String) {
        crate::json::json_string(self.as_str())
    }
}

impl Chain {
    /// The digest of `item`: sixty-four lowercase hexadecimal digits that
    /// depend on the canonical text of `item` alone.
    pub fn hash<T: Canonical>(item: &T) -> (digest: String)
        ensures
            digest@ == digest_of(item.canonical_text()),
            digest@.len() == 64,
            forall|i: int| 0 <= i < 64 ==> is_lower_hex(#[trigger] digest@[i]),
    {
        let input = item.canonical();
        let result = sha256(input.as_str().as_bytes());
        proof {
            crate::hex::hex_text_shape(result@);
        }
        Chain::hex_to_string(result.as_slice())
    }

    /// Renders bytes in lowercase hexadecimal, two digits per byte.
    pub fn hex_to_string(bytes: &[u8]) -> (text: String)
        ensures
            text@ == hex_text(bytes@),
    {
        let mut text = String::new();
        let mut i: usize = 0;
        while i < bytes.len()
            invariant
                i <= bytes.len(),
                text@.len() == 2 * i,
                forall|k: int| 0 <= k < 2 * i ==> text@[k] == hex_char_at(bytes@, k),
            decreases bytes.len() - i,
        {
            let byte = bytes[i];
            text.append(hex_digit(byte / 16));
            text.append(hex_digit(byte % 16));
            i += 1;
        }
        text
    }
}

} // verus!

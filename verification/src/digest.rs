//! The transaction identifier: a Keccak-256 digest of the raw transaction
//! text, computed by the `sha3` crate and named here.

use vstd::prelude::*;
use sha3::Digest;

verus! {

/// The Keccak-256 digest of the UTF-8 encoding of a text: 32 bytes,
/// a function of the text alone.
pub uninterp spec fn keccak_of(s: Seq<char>) -> Seq<u8>;

/// Relies on `sha3::Keccak256` (through `digest::Digest::digest`): the
/// digest depends on the input bytes alone and is 32 bytes long.
#[verifier::external_body]
pub(crate) fn keccak256_of_str(s: &str) -> (r: Vec<u8>)
    ensures
        r@ == keccak_of(s@),
        r@.len() == 32,
{
    sha3::Keccak256::digest(s.as_bytes()).to_vec()
}

} // verus!

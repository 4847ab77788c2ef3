//! The hash function of the digest library.

use vstd::prelude::*;
use crypto::digest::Digest;
use crypto::sha2::Sha256;

verus! {

/// The SHA-256 digest of `data`: 32 bytes.
pub uninterp spec fn sha256(data: Seq<u8>) -> Seq<u8>;

/// `Sha256::new`, `Digest::input` and `Digest::result`: the digest of the
/// data. The hash is defined for less than 2 to the power 61 bytes, and the
/// library panics on more.
#[verifier::external_body]
pub(crate) fn sha256_digest(data: &[u8]) -> (r: [u8; 32])
    requires
        data@.len() < 0x2000_0000_0000_0000,
    ensures
        r@ == sha256(data@),
{
    let mut hasher = Sha256::new();
    hasher.input(data);
    let mut dig: [u8; 32] = [0; 32];
    hasher.result(&mut dig);
    dig
}

} // verus!

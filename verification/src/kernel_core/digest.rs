use sha2::Digest;
use vstd::prelude::*;

verus! {

/// The SHA-256 digest of a byte string, as `sha2::Sha256` computes it.
pub uninterp spec fn sha256(data: Seq<u8>) -> Seq<u8>;

/// Calls `sha2::Sha256::digest` (which feeds `data` to a fresh hasher and
/// finalizes it) and returns the 32-byte digest. Claimed: the result is the
/// SHA-256 digest of `data`, a function of `data` alone. Feeding several
/// pieces to one hasher digests their concatenation, so callers hash the
/// concatenated bytes in one call.
#[verifier::external_body]
pub(crate) fn sha256_digest(data: &[u8]) -> (out: [u8; 32])
    ensures
        out@ == sha256(data@),
{
    sha2::Sha256::digest(data).into()
}

} // verus!

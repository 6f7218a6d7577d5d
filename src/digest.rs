//! The SHA-256 digest that links blocks and checks proofs of work.

use vstd::prelude::*;

verus! {

/// A 32-byte digest.
pub type Hash = [u8; 32];

/// The SHA-256 digest of `data`.
pub uninterp spec fn sha256_of(data: Seq<u8>) -> Seq<u8>;

/// Relies on `hmac_sha256::Hash::hash`: the SHA-256 digest of the input,
/// which depends on the input bytes alone.
#[verifier::external_body]
pub(crate) fn sha256(data: &[u8]) -> (r: Hash)
    ensures
        r@ == sha256_of(data@),
{
    hmac_sha256::Hash::hash(data)
}

/// Whether two digests hold the same bytes.
pub fn same_digest(a: &Hash, b: &Hash) -> (r: bool)
    ensures
        r == (a@ == b@),
{
    let mut i: usize = 0;
    while i < 32
        invariant
            i <= 32,
            forall|j: int| 0 <= j < i ==> a@[j] == b@[j],
        decreases 32 - i,
    {
        if a[i] != b[i] {
            return false;
        }
        i = i + 1;
    }
    assert(a@ =~= b@);
    true
}

} // verus!

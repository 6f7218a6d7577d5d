//! The proof-of-work puzzle: checking a candidate and searching for one.

use vstd::prelude::*;
use crate::digest::{sha256, sha256_of};
use crate::encoding::{decimal, push_bytes, push_decimal};

verus! {

/// The number of leading zero bytes a proof's digest must have.
pub const POW_DIFFICULTY: usize = 2;

/// The bytes a candidate proof is hashed from: the decimal digits of the
/// last proof, then those of the candidate, then the last block's digest.
pub open spec fn pow_bytes(last_proof: u64, last_hash: Seq<u8>, proof: u64) -> Seq<u8> {
    decimal(last_proof as nat) + decimal(proof as nat) + last_hash
}

/// The first `POW_DIFFICULTY` bytes of `digest` are zero.
pub open spec fn has_zero_prefix(digest: Seq<u8>) -> bool {
    &&& digest.len() >= POW_DIFFICULTY
    &&& forall|i: int| 0 <= i < POW_DIFFICULTY ==> digest[i] == 0
}

/// `proof` solves the puzzle set by the last block's proof and digest.
pub open spec fn proof_is_valid(last_proof: u64, last_hash: Seq<u8>, proof: u64) -> bool {
    has_zero_prefix(sha256_of(pow_bytes(last_proof, last_hash, proof)))
}

/// Builds the bytes that a candidate proof is hashed from.
pub fn pow_input(last_proof: u64, last_hash: &crate::digest::Hash, proof: u64) -> (r: Vec<u8>)
    ensures
        r@ == pow_bytes(last_proof, last_hash@, proof),
{
    let mut out: Vec<u8> = Vec::new();
    push_decimal(&mut out, last_proof);
    push_decimal(&mut out, proof);
    push_bytes(&mut out, last_hash);
    assert(out@ =~= pow_bytes(last_proof, last_hash@, proof));
    out
}

/// Whether `digest` starts with the required number of zero bytes.
pub fn meets_difficulty(digest: &crate::digest::Hash) -> (r: bool)
    ensures
        r == has_zero_prefix(digest@),
{
    let mut i: usize = 0;
    while i < POW_DIFFICULTY
        invariant
            i <= POW_DIFFICULTY,
            forall|j: int| 0 <= j < i ==> digest@[j] == 0,
        decreases POW_DIFFICULTY - i,
    {
        if digest[i] != 0 {
            return false;
        }
        i = i + 1;
    }
    true
}

/// Whether `proof` solves the puzzle set by `last_proof` and `last_hash`.
pub fn valid_proof(last_proof: u64, last_hash: &crate::digest::Hash, proof: u64) -> (r: bool)
    ensures
        r == proof_is_valid(last_proof, last_hash@, proof),
{
    let input = pow_input(last_proof, last_hash, proof);
    let digest = sha256(input.as_slice());
    meets_difficulty(&digest)
}

/// Tries candidates 0, 1, 2, ... in turn and returns the first that solves
/// the puzzle, or `None` when no 64-bit candidate does.
pub fn find_proof(last_proof: u64, last_hash: &crate::digest::Hash) -> (r: Option<u64>)
    ensures
        match r {
            Some(p) => {
                &&& proof_is_valid(last_proof, last_hash@, p)
                &&& forall|q: u64| q < p ==> !proof_is_valid(last_proof, last_hash@, q)
            },
            None => forall|q: u64| !proof_is_valid(last_proof, last_hash@, q),
        },
{
    let mut candidate: u64 = 0;
    loop
        invariant
            forall|q: u64| q < candidate ==> !proof_is_valid(last_proof, last_hash@, q),
        decreases u64::MAX - candidate,
    {
        if valid_proof(last_proof, last_hash, candidate) {
            return Some(candidate);
        }
        if candidate == u64::MAX {
            assert forall|q: u64| !proof_is_valid(last_proof, last_hash@, q) by {
                if q < candidate {
                } else {
                    assert(q == candidate);
                }
            }
            return None;
        }
        candidate = candidate + 1;
    }
}

/// Checking a proof is a function of its inputs: equal inputs give equal
/// verdicts, whichever call produced them.
pub proof fn lemma_valid_proof_deterministic(
    last_proof: u64,
    last_hash: Seq<u8>,
    proof: u64,
    first: bool,
    second: bool,
)
    requires
        first == proof_is_valid(last_proof, last_hash, proof),
        second == proof_is_valid(last_proof, last_hash, proof),
    ensures
        first == second,
{
}

} // verus!

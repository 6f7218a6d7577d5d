//! The ledger: an append-only chain of blocks and a queue of pending
//! transactions.

use vstd::prelude::*;
use crate::block::{block_digest, genesis, is_genesis, Block, Timestamp, Tx};
use crate::digest::same_digest;
use crate::pow::{find_proof, proof_is_valid};

verus! {

/// Relies on `std::time::SystemTime::now`: the current wall-clock time as
/// elapsed time since the Unix epoch, or `None` when the clock reads earlier.
#[verifier::external_body]
fn clock_now() -> (r: Option<Timestamp>)
    ensures
        r matches Some(t) ==> t.nanos < 1_000_000_000,
{
    match std::time::SystemTime::now().duration_since(std::time::UNIX_EPOCH) {
        Ok(d) => Some(Timestamp { secs: d.as_secs(), nanos: d.subsec_nanos() }),
        Err(_) => None,
    }
}

/// A chain of blocks and the transactions waiting for the next one.
#[derive(Debug, Clone)]
pub struct Blockchain {
    pub blocks: Vec<Block>,
    pub pending_txs: Vec<Tx>,
}

impl Blockchain {
    /// Block `i + 1` carries the digest of block `i`.
    pub open spec fn linked(&self, i: int) -> bool {
        self.blocks@[i + 1].prev_hash@ == block_digest(self.blocks@[i])
    }

    /// The chain starts with genesis, each block's id is its position, and
    /// each block after genesis carries the digest of the one before.
    pub open spec fn wf(&self) -> bool {
        &&& self.blocks@.len() > 0
        &&& is_genesis(self.blocks@[0])
        &&& forall|i: int| 0 <= i < self.blocks@.len() ==> #[trigger] self.blocks@[i].id == i
        &&& forall|i: int| 0 <= i < self.blocks@.len() - 1 ==> #[trigger] self.linked(i)
    }

    /// `next` is `prev` with one more block, which seals `txs` under
    /// `proof` and links to `prev`'s last block; nothing is left pending.
    pub open spec fn sealed(prev: Blockchain, next: Blockchain, proof: u64, txs: Seq<Tx>) -> bool {
        let b = next.blocks@.last();
        &&& next.blocks@.len() == prev.blocks@.len() + 1
        &&& next.blocks@.drop_last() == prev.blocks@
        &&& b.id == prev.blocks@.len()
        &&& b.txs@ == txs
        &&& b.proof == proof
        &&& b.prev_hash@ == block_digest(prev.blocks@.last())
        &&& next.pending_txs@.len() == 0
    }

    /// A ledger holding the genesis block alone and no pending transaction.
    pub fn new() -> (r: Blockchain)
        ensures
            r.wf(),
            r.blocks@.len() == 1,
            r.pending_txs@.len() == 0,
    {
        let mut blocks: Vec<Block> = Vec::new();
        blocks.push(genesis());
        Blockchain { blocks, pending_txs: Vec::new() }
    }

    /// Seals every pending transaction into a new block stamped `time`
    /// with the given proof, which is not checked here.
    pub fn commit_block_at(&mut self, proof: u64, time: Timestamp) -> (r: &Block)
        requires
            old(self).blocks@.len() > 0,
        ensures
            Blockchain::sealed(*old(self), *final(self), proof, old(self).pending_txs@),
            final(self).blocks@.last().time == time,
            *r == final(self).blocks@.last(),
            old(self).wf() ==> final(self).wf(),
    {
        let n = self.blocks.len();
        let prev_hash = self.blocks[n - 1].hash();
        let mut txs: Vec<Tx> = Vec::new();
        std::mem::swap(&mut txs, &mut self.pending_txs);
        let block = Block { id: n as u64, time, txs, proof, prev_hash };
        self.blocks.push(block);
        proof {
            assert(self.blocks@.drop_last() =~= old(self).blocks@);
            if old(self).wf() {
                assert forall|i: int| 0 <= i < self.blocks@.len() - 1 implies #[trigger] self.linked(i) by {
                    if i < n - 1 {
                        assert(old(self).linked(i));
                    }
                }
                assert forall|i: int| 0 <= i < self.blocks@.len() implies #[trigger] self.blocks@[i].id == i by {
                    if i < n {
                        assert(old(self).blocks@[i].id == i);
                    }
                }
            }
        }
        &self.blocks[n]
    }

    /// Seals every pending transaction into a new block stamped with the
    /// current time, with the given proof, which is not checked here.
    pub fn new_block(&mut self, proof: u64) -> (r: &Block)
        requires
            old(self).blocks@.len() > 0,
        ensures
            Blockchain::sealed(*old(self), *final(self), proof, old(self).pending_txs@),
            *r == final(self).blocks@.last(),
            old(self).wf() ==> final(self).wf(),
    {
        let time = match clock_now() {
            Some(t) => t,
            None => Timestamp::epoch(),
        };
        self.commit_block_at(proof, time)
    }

    /// Queues a transaction for the next block and returns the current
    /// number of blocks.
    pub fn new_tx(&mut self, tx: Tx) -> (r: u64)
        ensures
            final(self).pending_txs@ == old(self).pending_txs@.push(tx),
            final(self).blocks@ == old(self).blocks@,
            r == old(self).blocks@.len(),
            old(self).wf() ==> final(self).wf(),
    {
        self.pending_txs.push(tx);
        proof {
            if old(self).wf() {
                assert forall|i: int| 0 <= i < self.blocks@.len() - 1 implies #[trigger] self.linked(i) by {
                    assert(old(self).linked(i));
                }
            }
        }
        self.blocks.len() as u64
    }

    /// The most recently appended block.
    pub fn last_block(&self) -> (r: &Block)
        requires
            self.blocks@.len() > 0,
        ensures
            *r == self.blocks@.last(),
    {
        &self.blocks[self.blocks.len() - 1]
    }
    /// Searches for the first proof that solves the puzzle set by the last
    /// block's proof and digest; `None` when no 64-bit candidate does.
    pub fn proof_of_work(&self) -> (r: Option<u64>)
        requires
            self.blocks@.len() > 0,
        ensures
            match r {
                Some(p) => {
                    &&& proof_is_valid(self.blocks@.last().proof, block_digest(self.blocks@.last()), p)
                    &&& forall|q: u64| q < p ==> !proof_is_valid(
                        self.blocks@.last().proof,
                        block_digest(self.blocks@.last()),
                        q,
                    )
                },
                None => forall|q: u64| !proof_is_valid(
                    self.blocks@.last().proof,
                    block_digest(self.blocks@.last()),
                    q,
                ),
            },
    {
        let last = self.last_block();
        let last_hash = last.hash();
        find_proof(last.proof, &last_hash)
    }

    /// Walks the chain and recomputes each block's digest: the position of
    /// the first block whose `prev_hash` does not match its predecessor,
    /// or `None` when every link holds.
    pub fn first_broken_link(&self) -> (r: Option<usize>)
        ensures
            match r {
                Some(k) => {
                    &&& 1 <= k < self.blocks@.len()
                    &&& !self.linked(k - 1)
                    &&& forall|i: int| 0 <= i < k - 1 ==> #[trigger] self.linked(i)
                },
                None => forall|i: int| 0 <= i < self.blocks@.len() - 1 ==> #[trigger] self.linked(i),
            },
    {
        let mut k: usize = 1;
        while k < self.blocks.len()
            invariant
                1 <= k,
                forall|i: int| 0 <= i < k - 1 ==> #[trigger] self.linked(i),
            decreases self.blocks@.len() - k,
        {
            let digest = self.blocks[k - 1].hash();
            if !same_digest(&self.blocks[k].prev_hash, &digest) {
                return Some(k);
            }
            k = k + 1;
        }
        None
    }
}

/// In a well-formed ledger every block after genesis carries the digest of
/// the block before it.
pub proof fn lemma_chain_linkage(chain: Blockchain, i: int)
    requires
        chain.wf(),
        0 <= i < chain.blocks@.len() - 1,
    ensures
        chain.blocks@[i + 1].prev_hash@ == block_digest(chain.blocks@[i]),
{
    assert(chain.linked(i));
}

} // verus!

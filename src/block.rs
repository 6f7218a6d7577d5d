//! Transactions, timestamps and blocks, and the canonical bytes a block
//! hashes to.

use vstd::prelude::*;
use vstd::utf8::encode_utf8;
use crate::digest::{sha256, sha256_of};
use crate::encoding::{push_bytes, push_u32_be, push_u64_be, u32_be, u64_be};

verus! {

/// An account name; any string is accepted.
pub type Addr = String;

/// A transfer of `amount` from one account to another.
#[derive(Debug, Clone, PartialEq, Eq)]
pub struct Tx {
    pub from: Addr,
    pub to: Addr,
    pub amount: u64,
}

/// A wall-clock instant, as time elapsed since the Unix epoch.
#[derive(Debug, Clone, Copy, PartialEq, Eq)]
pub struct Timestamp {
    pub secs: u64,
    pub nanos: u32,
}

impl Timestamp {
    /// The Unix epoch itself.
    pub fn epoch() -> (r: Timestamp)
        ensures
            r.secs == 0 && r.nanos == 0,
    {
        Timestamp { secs: 0, nanos: 0 }
    }
}

/// A sealed batch of transactions, linked to its predecessor by hash.
#[derive(Debug, Clone, PartialEq, Eq)]
pub struct Block {
    pub id: u64,
    pub time: Timestamp,
    pub txs: Vec<Tx>,
    pub proof: u64,
    pub prev_hash: crate::digest::Hash,
}

/// A string field: its UTF-8 byte count, then the bytes.
pub open spec fn str_bytes(s: Seq<char>) -> Seq<u8> {
    u64_be(encode_utf8(s).len() as u64) + encode_utf8(s)
}

/// A transaction: sender, receiver, amount.
pub open spec fn tx_bytes(t: Tx) -> Seq<u8> {
    str_bytes(t.from@) + str_bytes(t.to@) + u64_be(t.amount)
}

/// The transactions of `ts`, one after the other.
pub open spec fn txs_bytes(ts: Seq<Tx>) -> Seq<u8>
    decreases ts.len(),
{
    if ts.len() == 0 {
        Seq::empty()
    } else {
        txs_bytes(ts.drop_last()) + tx_bytes(ts.last())
    }
}

/// A block: id, time, transaction count and transactions, proof, and
/// the previous block's digest. Every field is framed, so distinct blocks
/// have distinct encodings.
pub open spec fn block_bytes(b: Block) -> Seq<u8> {
    u64_be(b.id) + u64_be(b.time.secs) + u32_be(b.time.nanos) + u64_be(b.txs@.len() as u64)
        + txs_bytes(b.txs@) + u64_be(b.proof) + b.prev_hash@
}

/// The digest a block is known by.
pub open spec fn block_digest(b: Block) -> Seq<u8> {
    sha256_of(block_bytes(b))
}

/// The fixed first block of every chain.
pub open spec fn is_genesis(b: Block) -> bool {
    &&& b.id == 0
    &&& b.time.secs == 0 && b.time.nanos == 0
    &&& b.txs@.len() == 0
    &&& b.proof == 0
    &&& b.prev_hash@ == Seq::new(32, |i: int| 0u8)
}

/// Builds the genesis block.
pub fn genesis() -> (r: Block)
    ensures
        is_genesis(r),
{
    let r = Block { id: 0, time: Timestamp::epoch(), txs: Vec::new(), proof: 0, prev_hash: [0u8; 32] };
    assert(r.prev_hash@ =~= Seq::new(32, |i: int| 0u8));
    r
}

/// Appends a framed string to `out`.
fn push_str(out: &mut Vec<u8>, s: &String)
    ensures
        final(out)@ == old(out)@ + str_bytes(s@),
{
    let bytes = s.as_str().as_bytes();
    push_u64_be(out, bytes.len() as u64);
    push_bytes(out, bytes);
    assert(final(out)@ =~= old(out)@ + str_bytes(s@));
}

/// The canonical bytes of a transaction.
pub fn encode_tx(out: &mut Vec<u8>, t: &Tx)
    ensures
        final(out)@ == old(out)@ + tx_bytes(*t),
{
    push_str(out, &t.from);
    push_str(out, &t.to);
    push_u64_be(out, t.amount);
    assert(final(out)@ =~= old(out)@ + tx_bytes(*t));
}

impl Block {
    /// The canonical bytes of this block.
    pub fn encode(&self) -> (r: Vec<u8>)
        ensures
            r@ == block_bytes(*self),
    {
        let mut out: Vec<u8> = Vec::new();
        push_u64_be(&mut out, self.id);
        push_u64_be(&mut out, self.time.secs);
        push_u32_be(&mut out, self.time.nanos);
        push_u64_be(&mut out, self.txs.len() as u64);
        let ghost head = out@;
        let mut i: usize = 0;
        while i < self.txs.len()
            invariant
                i <= self.txs@.len(),
                out@ == head + txs_bytes(self.txs@.take(i as int)),
            decreases self.txs@.len() - i,
        {
            encode_tx(&mut out, &self.txs[i]);
            proof {
                let next = self.txs@.take(i as int + 1);
                assert(next.drop_last() =~= self.txs@.take(i as int));
                assert(out@ =~= head + txs_bytes(next));
            }
            i = i + 1;
        }
        assert(self.txs@.take(self.txs@.len() as int) =~= self.txs@);
        push_u64_be(&mut out, self.proof);
        push_bytes(&mut out, &self.prev_hash);
        assert(out@ =~= block_bytes(*self));
        out
    }

    /// The SHA-256 digest of this block's canonical bytes.
    pub fn hash(&self) -> (r: crate::digest::Hash)
        ensures
            r@ == block_digest(*self),
    {
        let bytes = self.encode();
        sha256(bytes.as_slice())
    }
}

} // verus!

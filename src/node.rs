//! A mining node: an identity, the ledger it owns, and the mining workflow.

use vstd::prelude::*;
use crate::block::{block_digest, Block, Tx};
use crate::ledger::Blockchain;
use crate::pow::proof_is_valid;

verus! {

/// The amount a miner is paid for each block it mines.
pub const MINE_REWARD: u64 = 10;

/// The sender named on mining rewards.
pub const NAME_OF_GOD: &'static str = "GOD";

/// The lowercase hexadecimal digit for `d`, which is below 16.
pub open spec fn hex_char(d: u128) -> char {
    seq!['0', '1', '2', '3', '4', '5', '6', '7', '8', '9', 'a', 'b', 'c', 'd', 'e', 'f'][d as int]
}

/// Hexadecimal digit `k` of `id`, counting from the most significant.
pub open spec fn nibble(id: u128, k: int) -> u128 {
    (id >> ((124 - 4 * k) as u128)) & 0xf
}

/// The number of hyphens before position `i` of the hyphenated text.
pub open spec fn hyphens_before(i: int) -> int {
    if i < 8 {
        0
    } else if i < 13 {
        1
    } else if i < 18 {
        2
    } else if i < 23 {
        3
    } else {
        4
    }
}

/// The hyphenated text of a 128-bit identifier: 32 lowercase hexadecimal
/// digits, most significant first, grouped 8-4-4-4-12.
pub open spec fn hyphenated(id: u128) -> Seq<char> {
    Seq::new(
        36,
        |i: int|
            if i == 8 || i == 13 || i == 18 || i == 23 {
                '-'
            } else {
                hex_char(nibble(id, i - hyphens_before(i)))
            },
    )
}

/// Relies on `uuid::Uuid::new_v4` and `as_u128`: a random identifier
/// whose version field reads 4 and whose variant bits read 0b10.
#[verifier::external_body]
fn random_id() -> (r: u128)
    ensures
        (r >> 76u128) & 0xfu128 == 4u128,
        (r >> 62u128) & 0x3u128 == 2u128,
{
    uuid::Uuid::new_v4().as_u128()
}

/// Relies on `uuid::Uuid::from_u128` and the `Display` impl of `Uuid`,
/// which writes the lowercase hyphenated form.
#[verifier::external_body]
fn id_text(id: u128) -> (r: String)
    ensures
        r@ == hyphenated(id),
{
    uuid::Uuid::from_u128(id).to_string()
}

/// The reward transaction a node with identity `id` pays itself.
pub open spec fn is_reward(t: Tx, id: u128) -> bool {
    &&& t.from@ == NAME_OF_GOD@
    &&& t.to@ == hyphenated(id)
    &&& t.amount == MINE_REWARD
}

/// A node: its identity, the payee of its mining rewards, and its ledger.
pub struct Node {
    pub id: u128,
    pub chain: Blockchain,
}

impl Node {
    /// A node with a fresh random identity and a fresh ledger.
    pub fn new() -> (r: Node)
        ensures
            r.chain.wf(),
            r.chain.blocks@.len() == 1,
            r.chain.pending_txs@.len() == 0,
    {
        Node { id: random_id(), chain: Blockchain::new() }
    }

    /// Finds a proof for the next block, queues this node's reward, and
    /// seals every pending transaction into a new block. `None`, with
    /// nothing changed, when no 64-bit proof exists.
    pub fn mine(&mut self) -> (r: Option<&Block>)
        requires
            old(self).chain.blocks@.len() > 0,
        ensures
            final(self).id == old(self).id,
            old(self).chain.wf() ==> final(self).chain.wf(),
            match r {
                Some(b) => {
                    let last = old(self).chain.blocks@.last();
                    let reward = b.txs@.last();
                    &&& *b == final(self).chain.blocks@.last()
                    &&& is_reward(reward, old(self).id)
                    &&& Blockchain::sealed(
                        old(self).chain,
                        final(self).chain,
                        b.proof,
                        old(self).chain.pending_txs@.push(reward),
                    )
                    &&& proof_is_valid(last.proof, block_digest(last), b.proof)
                    &&& forall|q: u64| q < b.proof ==> !proof_is_valid(last.proof, block_digest(last), q)
                },
                None => {
                    let last = old(self).chain.blocks@.last();
                    &&& *final(self) == *old(self)
                    &&& forall|q: u64| !proof_is_valid(last.proof, block_digest(last), q)
                },
            },
    {
        let proof = match self.chain.proof_of_work() {
            Some(p) => p,
            None => return None,
        };
        let reward = Tx { from: NAME_OF_GOD.to_string(), to: id_text(self.id), amount: MINE_REWARD };
        self.chain.new_tx(reward);
        Some(self.chain.new_block(proof))
    }
}

} // verus!

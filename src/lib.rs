//! A minimal proof-of-work ledger: hash-chained blocks, a pending
//! transaction queue, and a mining workflow that rewards the miner.

pub mod encoding;
pub mod digest;
pub mod block;
pub mod pow;
pub mod ledger;
pub mod node;

pub use block::{genesis, Addr, Block, Timestamp, Tx};
pub use ledger::Blockchain;
pub use node::{Node, MINE_REWARD, NAME_OF_GOD};
pub use pow::{find_proof, meets_difficulty, pow_input, valid_proof, POW_DIFFICULTY};

use nickel_chain::{find_proof, genesis, valid_proof, Blockchain, Timestamp, Tx};

fn tx(from: &str, to: &str, amount: u64) -> Tx {
    Tx { from: from.to_string(), to: to.to_string(), amount }
}

#[test]
fn fresh_ledger_holds_genesis_only() {
    let chain = Blockchain::new();
    assert_eq!(chain.blocks.len(), 1);
    assert!(chain.pending_txs.is_empty());
    let first = chain.last_block();
    assert_eq!(first.id, 0);
    assert!(first.txs.is_empty());
    assert_eq!(first.proof, 0);
    assert_eq!(first.prev_hash, [0u8; 32]);
    assert_eq!(first.time, Timestamp { secs: 0, nanos: 0 });
    assert_eq!(*first, genesis());
    assert_eq!(chain.first_broken_link(), None);
}

#[test]
fn submitting_returns_chain_length_and_queues() {
    let mut chain = Blockchain::new();
    assert_eq!(chain.new_tx(tx("joe", "sally", 100)), 1);
    assert_eq!(chain.new_tx(tx("", "", 0)), 1);
    assert_eq!(chain.pending_txs, vec![tx("joe", "sally", 100), tx("", "", 0)]);
    assert_eq!(chain.blocks.len(), 1);
}

#[test]
fn commit_drains_queue_in_order() {
    let mut chain = Blockchain::new();
    chain.new_tx(tx("a", "b", 1));
    chain.new_tx(tx("b", "c", 2));
    chain.new_tx(tx("c", "a", u64::MAX));
    let block = chain.commit_block_at(99, Timestamp { secs: 10, nanos: 20 }).clone();
    assert_eq!(block.id, 1);
    assert_eq!(block.proof, 99);
    assert_eq!(block.time, Timestamp { secs: 10, nanos: 20 });
    assert_eq!(block.txs, vec![tx("a", "b", 1), tx("b", "c", 2), tx("c", "a", u64::MAX)]);
    assert_eq!(block.prev_hash, genesis().hash());
    assert!(chain.pending_txs.is_empty());
    assert_eq!(chain.blocks.len(), 2);
}

#[test]
fn commit_with_empty_queue_seals_empty_block() {
    let mut chain = Blockchain::new();
    let block = chain.commit_block_at(0, Timestamp { secs: 1, nanos: 0 }).clone();
    assert_eq!(block.id, 1);
    assert!(block.txs.is_empty());
}

#[test]
fn new_block_stamps_current_time() {
    let mut chain = Blockchain::new();
    chain.new_tx(tx("x", "y", 3));
    let block = chain.new_block(4).clone();
    assert_eq!(block.id, 1);
    assert_eq!(block.proof, 4);
    assert_eq!(block.txs, vec![tx("x", "y", 3)]);
    assert!(block.time.secs > 0);
    assert!(block.time.nanos < 1_000_000_000);
    assert_eq!(block.prev_hash, genesis().hash());
}

#[test]
fn every_link_holds_after_several_commits() {
    let mut chain = Blockchain::new();
    for i in 0..5u64 {
        chain.new_tx(tx("a", "b", i));
        chain.commit_block_at(i, Timestamp { secs: i, nanos: 0 });
    }
    assert_eq!(chain.blocks.len(), 6);
    for i in 0..5 {
        assert_eq!(chain.blocks[i + 1].prev_hash, chain.blocks[i].hash());
        assert_eq!(chain.blocks[i].id, i as u64);
    }
    assert_eq!(chain.first_broken_link(), None);
}

#[test]
fn tampering_is_flagged_at_first_broken_link() {
    let mut chain = Blockchain::new();
    for i in 0..4u64 {
        chain.new_tx(tx("a", "b", i));
        chain.commit_block_at(i, Timestamp { secs: i, nanos: 0 });
    }
    chain.blocks[2].txs[0].amount = 1000;
    assert_eq!(chain.first_broken_link(), Some(3));
    chain.blocks[1].proof = 55;
    assert_eq!(chain.first_broken_link(), Some(2));
}

#[test]
fn found_proof_is_the_first_valid_one() {
    let last_hash = genesis().hash();
    let p = find_proof(0, &last_hash).expect("a proof exists");
    assert!(valid_proof(0, &last_hash, p));
    for q in 0..p {
        assert!(!valid_proof(0, &last_hash, q));
    }
    let digest = hmac_sha256::Hash::hash(&nickel_chain::pow_input(0, &last_hash, p));
    assert_eq!(&digest[..2], &[0u8, 0u8]);
}

#[test]
fn proof_of_work_targets_last_block() {
    let mut chain = Blockchain::new();
    chain.commit_block_at(7, Timestamp { secs: 3, nanos: 0 });
    let p = chain.proof_of_work().expect("a proof exists");
    let last = chain.last_block();
    assert!(valid_proof(last.proof, &last.hash(), p));
    assert_eq!(find_proof(7, &last.hash()), Some(p));
}

#[test]
fn proof_check_gives_same_answer_twice() {
    let last_hash = genesis().hash();
    for p in 0..200u64 {
        assert_eq!(valid_proof(3, &last_hash, p), valid_proof(3, &last_hash, p));
    }
    let input = nickel_chain::pow_input(3, &last_hash, 1);
    let digest = hmac_sha256::Hash::hash(&input);
    assert_eq!(valid_proof(3, &last_hash, 1), digest[0] == 0 && digest[1] == 0);
}

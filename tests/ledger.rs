use powchain::block::{
    check_prefix, mine_block, search_nonces, starts_with_prefix, Block, BlockState,
};
use powchain::cancel::CancelToken;
use powchain::error::Error;
use powchain::hashing::calculate_hash;

const GENESIS_HASH: &str = "676700000000000000000000000000000000000000000000000000000000000";

fn genesis_ledger() -> BlockState {
    let mut ledger = BlockState::new();
    ledger.create_genesis_block();
    ledger
}

fn mine_on(ledger: &BlockState, data: &str) -> Block {
    let candidate = ledger.next_candidate(data.to_string());
    mine_block(candidate, &CancelToken::new(0)).expect("an uncancelled search finds a nonce")
}

#[test]
fn genesis_only_tip_has_prefix() {
    let ledger = genesis_ledger();
    assert_eq!(ledger.len(), 1);
    let tip = ledger.tip();
    assert!(tip.hash.starts_with("6767"));
    assert_eq!(tip.hash, GENESIS_HASH);
    assert_eq!(tip.hash.len(), 63);
    assert_eq!(tip.data, "DAPProptech is the way");
    assert_eq!(tip.previous_hash, "0");
    assert_eq!(tip.nonce, 3694);
}

#[test]
fn mine_one_block_on_genesis() {
    let mut ledger = genesis_ledger();
    let block = mine_on(&ledger, "A");
    assert!(block.hash.starts_with("6767"));
    assert_eq!(
        block.hash,
        calculate_hash(block.id, &block.data, &block.previous_hash, block.nonce)
    );
    assert_eq!(block.data, "A");
    assert!(ledger.add_block(block).is_ok());
    assert_eq!(ledger.len(), 2);
    let first = ledger.get(0).unwrap().clone();
    let second = ledger.get(1).unwrap().clone();
    assert_eq!(second.previous_hash, first.hash);
    assert!(ledger.get(2).is_none());
}

#[test]
fn mined_nonce_is_the_least() {
    let ledger = genesis_ledger();
    let candidate = ledger.next_candidate("least".to_string());
    let block = mine_block(candidate.clone(), &CancelToken::new(0)).unwrap();
    let again = search_nonces(&candidate, block.nonce, 1).unwrap();
    assert_eq!(again.nonce, block.nonce);
    assert_eq!(again.hash, block.hash);
    assert!(search_nonces(&candidate, 0, block.nonce).is_none());
}

#[test]
fn cancelled_search_yields_nothing() {
    let ledger = genesis_ledger();
    let candidate = ledger.next_candidate("late".to_string());
    let token = CancelToken::new(1);
    token.cancel();
    assert!(mine_block(candidate, &token).is_none());
}

#[test]
fn zero_nonce_without_prefix_is_invalid_prefix() {
    let mut ledger = genesis_ledger();
    let tip_hash = ledger.tip().hash.clone();
    let block = Block {
        id: 7,
        timestamp: 0,
        data: "x".to_string(),
        previous_hash: tip_hash,
        hash: "abcd".repeat(16),
        nonce: 0,
    };
    assert_eq!(ledger.add_block(block), Err(Error::InvalidPrefix));
    assert_eq!(ledger.len(), 1);
}

#[test]
fn add_block_on_empty_ledger_is_out_of_bounds() {
    let mut ledger = BlockState::new();
    let block = Block {
        id: 1,
        timestamp: 0,
        data: "x".to_string(),
        previous_hash: "0".to_string(),
        hash: GENESIS_HASH.to_string(),
        nonce: 0,
    };
    assert_eq!(ledger.add_block(block), Err(Error::OutOfBounds));
    assert_eq!(ledger.len(), 0);
}

#[test]
fn wrong_previous_hash_is_invalid_hash() {
    let mut ledger = genesis_ledger();
    let mut block = mine_on(&ledger, "B");
    block.previous_hash = "6767ff".to_string();
    assert_eq!(ledger.add_block(block), Err(Error::InvalidHash));
    assert_eq!(ledger.len(), 1);
}

#[test]
fn prefix_with_wrong_digest_is_invalid_hash() {
    let mut ledger = genesis_ledger();
    let mut block = mine_on(&ledger, "C");
    block.nonce = block.nonce.wrapping_add(1);
    assert_eq!(ledger.add_block(block), Err(Error::InvalidHash));
    assert_eq!(ledger.len(), 1);
}

#[test]
fn resubmitted_block_is_rejected() {
    let mut ledger = genesis_ledger();
    let block = mine_on(&ledger, "D");
    assert_eq!(ledger.add_block(block.clone()), Ok(()));
    assert_eq!(ledger.add_block(block), Err(Error::InvalidHash));
    assert_eq!(ledger.len(), 2);
}

#[test]
fn compare_hash_against_tip() {
    let ledger = genesis_ledger();
    assert_eq!(ledger.compare_hash(&GENESIS_HASH), Ok(()));
    assert_eq!(ledger.compare_hash("6767"), Err(Error::InvalidHash));
}

#[test]
fn check_prefix_outcomes() {
    let hash = calculate_hash(0, "A", "0", 5);
    assert_eq!(check_prefix(0, "A", "7767abcd", "0", 5), Err(Error::InvalidPrefix));
    assert_eq!(check_prefix(0, "A", "6767abcd", "0", 5), Err(Error::InvalidHash));
    // the recomputed digest of these fields lacks the prefix
    assert_eq!(check_prefix(0, "A", &hash, "0", 5), Err(Error::InvalidPrefix));
}

#[test]
fn check_prefix_accepts_mined_block() {
    let ledger = genesis_ledger();
    let b = mine_on(&ledger, "E");
    assert_eq!(check_prefix(b.id, &b.data, &b.hash, &b.previous_hash, b.nonce), Ok(()));
}

#[test]
fn prefix_test_on_short_and_long_strings() {
    assert!(!starts_with_prefix(""));
    assert!(!starts_with_prefix("676"));
    assert!(!starts_with_prefix("7767abc"));
    assert!(starts_with_prefix("6767"));
    assert!(starts_with_prefix("6767abc"));
}

#[test]
fn digest_of_known_fields() {
    assert_eq!(
        calculate_hash(0, "A", "0", 5),
        "1f06929866d863f955590c71fd4be5e17af6778436a4fbf61a995fdf8c202644"
    );
    assert_eq!(
        calculate_hash(0xa1a2a3a4b1b2c1c2d1d2d3d4d5d6d7d8, "hello", "6767abc", u64::MAX),
        "2ea3fbcc5ee9a047b35d61d7e83814238c857a6451f2a1bbb72360b728d0acce"
    );
}

#[test]
fn error_messages() {
    assert_eq!(Error::OutOfBounds.message(), "OutOfBounds");
    assert_eq!(Error::InvalidHash.message(), "InvalidHash");
    assert_eq!(Error::InvalidPrefix.message(), "InvalidPrefix");
    assert_eq!(Error::NetworkDial("down".to_string()).message(), "Network Dial Error: down");
    assert_eq!(
        Error::NetworkMultiaddr("bad".to_string()).message(),
        "Network Multiaddr Error: bad"
    );
    assert_eq!(
        Error::NetworkTransport("t".to_string()).message(),
        "Network Transport Error: t"
    );
    assert_eq!(
        Error::NetworkInfallible("i".to_string()).message(),
        "Network Infallible Error: i"
    );
}

#[test]
fn signal_control_cancels_old_and_mints_next() {
    let token = CancelToken::new(4);
    let held_by_worker = token.clone();
    let next = powchain::cancel::signal_control(token);
    assert!(held_by_worker.is_cancelled());
    assert!(!next.is_cancelled());
    assert_eq!(next.round(), 5);
}

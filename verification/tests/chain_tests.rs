use blockchain_node::chain::{Block, Blockchain};
use sha2::Digest;

#[test]
fn genesis_block_shape() {
    let chain = Blockchain::new();
    assert_eq!(chain.len(), 1);
    assert_eq!(chain.digest_hex_len(), 64);
    let genesis = chain.block_at(0);
    assert_eq!(genesis.index(), 0);
    assert_eq!(genesis.previous_hash().as_str(), "0".repeat(64).as_str());
    assert_eq!(genesis.data().as_str(), "genesis");
    assert_eq!(genesis.hash().len(), 64);
    assert!(genesis.hash().chars().all(|c| c.is_ascii_hexdigit() && !c.is_ascii_uppercase()));
}

#[test]
fn add_block_success_updates_head() {
    let mut chain = Blockchain::new();
    let head_hash = chain.latest().hash().clone();
    let block = Block::new(1, "block1".to_string(), head_hash);
    let block_hash = block.hash().clone();
    assert!(chain.add_block(block).is_ok());
    assert_eq!(chain.len(), 2);
    assert_eq!(chain.latest().hash().as_str(), block_hash.as_str());
    assert_eq!(chain.latest().index(), 1);
}

#[test]
fn add_block_wrong_previous_hash_fails() {
    let mut chain = Blockchain::new();
    let block = Block::new(1, "block1".to_string(), "deadbeef".to_string());
    let result = chain.add_block(block);
    assert_eq!(result, Err("Invalid block"));
    assert_eq!(chain.len(), 1);
}

#[test]
fn chain_append_scenario() {
    let mut chain = Blockchain::new();
    let genesis_hash = chain.latest().hash().clone();
    let good = Block::new(1, "block1".to_string(), genesis_hash);
    assert!(chain.add_block(good).is_ok());
    assert_eq!(chain.len(), 2);
    let bad = Block::new(2, "block2".to_string(), "deadbeef".to_string());
    assert_eq!(chain.add_block(bad), Err("Invalid block"));
    assert_eq!(chain.len(), 2);
}

#[test]
fn verify_new_block_checks_head_link() {
    let mut chain = Blockchain::new();
    let head_hash = chain.latest().hash().clone();
    let good = Block::new(1, "a".to_string(), head_hash.clone());
    let bad = Block::new(1, "a".to_string(), "00".to_string());
    assert!(chain.verify_new_block(&good));
    assert!(!chain.verify_new_block(&bad));
    assert!(chain.add_block(good).is_ok());
    // The old link is now stale: the head has moved.
    let stale = Block::new(2, "b".to_string(), head_hash);
    assert!(!chain.verify_new_block(&stale));
}

#[test]
fn calculate_hash_matches_direct_digest() {
    let raw = format!("{}{}{}{}", 1u64, "abc", "ff", 42i64);
    let expected = format!("{:x}", sha2::Sha256::digest(raw.as_bytes()));
    let got = Block::calculate_hash(1, "abc", "ff", 42);
    assert_eq!(got, expected);
}

#[test]
fn calculate_hash_negative_timestamp() {
    let raw = format!("{}{}{}{}", 7u64, "x", "0abc", -12345i64);
    let expected = format!("{:x}", sha2::Sha256::digest(raw.as_bytes()));
    let got = Block::calculate_hash(7, "x", "0abc", -12345);
    assert_eq!(got, expected);
}

#[test]
fn calculate_hash_extreme_values() {
    let raw = format!("{}{}{}{}", u64::MAX, "", "", i64::MIN);
    let expected = format!("{:x}", sha2::Sha256::digest(raw.as_bytes()));
    let got = Block::calculate_hash(u64::MAX, "", "", i64::MIN);
    assert_eq!(got, expected);
}

#[test]
fn block_bytes_round_trip() {
    let block = Block::new(3, "payload".to_string(), "00ff".to_string());
    let bytes = block.to_bytes();
    let back = Block::from_bytes(&bytes).expect("a block's own wire form must decode");
    assert_eq!(back.index(), block.index());
    assert_eq!(back.data(), block.data());
    assert_eq!(back.previous_hash(), block.previous_hash());
    assert_eq!(back.hash(), block.hash());
    assert_eq!(back.timestamp(), block.timestamp());
}

#[test]
fn block_bytes_interop_with_bincode_tuple() {
    let block = Block::new(9, "data".to_string(), "aa".to_string());
    let bytes = block.to_bytes();
    let ((index, data, previous_hash, hash, timestamp), read): (
        (u64, String, String, String, i64),
        usize,
    ) = bincode::serde::decode_from_slice(&bytes, bincode::config::standard()).unwrap();
    assert_eq!(read, bytes.len());
    assert_eq!(index, block.index());
    assert_eq!(data.as_str(), block.data().as_str());
    assert_eq!(previous_hash.as_str(), block.previous_hash().as_str());
    assert_eq!(hash.as_str(), block.hash().as_str());
    assert_eq!(timestamp, block.timestamp());
}

#[test]
fn block_from_garbage_fails() {
    assert!(Block::from_bytes(&[]).is_none());
    assert!(Block::from_bytes(&[251]).is_none());
    let bytes = vec![0u8, 2, b'a'];
    assert!(Block::from_bytes(&bytes).is_none());
}

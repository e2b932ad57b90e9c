use blockchain::{Block, Transaction, GENESIS_DETAILS, PREFIX};

fn txn(id: &str, timestamp: i64, details: &str) -> Transaction {
    Transaction {
        transaction_id: String::from(id),
        transaction_timestamp: timestamp,
        transaction_details: String::from(details),
    }
}

fn sample_block() -> Block {
    Block {
        block_number: 7,
        block_timestamp: -5,
        block_nonce: 42,
        transaction_list: vec![
            txn("a\"b", 0, "line\nnext\u{1}\u{e9}"),
            txn("2", i64::MAX, "x"),
        ],
        previous_block_hash: String::from("0"),
    }
}

#[test]
fn test_genesis_block() {
    let p2p_bc: Vec<Block> = vec![Block::genesis()];
    assert_eq!(p2p_bc[0].block_number, 1);
    assert_eq!(
        p2p_bc[0].transaction_list[0].transaction_details,
        "This is a dummy transaction as the genesis block has no transactions"
    );
}

#[test]
fn test_new_block() {
    let mut p2p_bc: Vec<Block> = vec![Block::genesis()];
    let new_txn = Transaction {
        transaction_id: String::from("1"),
        transaction_timestamp: 0,
        transaction_details: String::from("Testing a new transaction"),
    };
    let mut new_block = Block::new(vec![new_txn], &p2p_bc[p2p_bc.len() - 1]);

    Block::mine_new_block(&mut new_block, &PREFIX);
    p2p_bc.push(new_block);

    assert_eq!(p2p_bc.len(), 2);
    assert_eq!(
        p2p_bc[1].transaction_list[0].transaction_details,
        "Testing a new transaction"
    )
}

#[test]
fn genesis_fields() {
    let g = Block::genesis();
    assert_eq!(g.block_nonce, 0);
    assert_eq!(g.transaction_list.len(), 1);
    assert_eq!(g.transaction_list[0].transaction_id, "1");
    assert_eq!(g.transaction_list[0].transaction_details, GENESIS_DETAILS);
    assert_eq!(g.previous_block_hash, "0");
    assert!(g.block_timestamp > 0);
}

#[test]
fn genesis_at_fixed_time() {
    let g = Block::genesis_at(50, 100);
    assert_eq!(g.block_number, 1);
    assert_eq!(g.block_timestamp, 100);
    assert_eq!(g.transaction_list[0].transaction_timestamp, 50);
    assert_eq!(
        Block::generate_hash(&g),
        "d896531c91dff35b1a39ab9534fe5fc985691c1c614dcf105f62a917de34bcbc"
    );
}

#[test]
fn serialize_all_fields_in_order() {
    let b = sample_block();
    assert_eq!(
        b.serialize_block(),
        "{\"block_number\":7,\"block_timestamp\":-5,\"block_nonce\":42,\"transaction_list\":[{\"transaction_id\":\"a\\\"b\",\"transaction_timestamp\":0,\"transaction_details\":\"line\\nnext\\u0001\u{e9}\"},{\"transaction_id\":\"2\",\"transaction_timestamp\":9223372036854775807,\"transaction_details\":\"x\"}],\"previous_block_hash\":\"0\"}"
    );
}

#[test]
fn serialize_extremes_and_empty_list() {
    let b = Block {
        block_number: 2,
        block_timestamp: i64::MIN,
        block_nonce: u64::MAX,
        transaction_list: vec![],
        previous_block_hash: String::new(),
    };
    assert_eq!(
        b.serialize_block(),
        "{\"block_number\":2,\"block_timestamp\":-9223372036854775808,\"block_nonce\":18446744073709551615,\"transaction_list\":[],\"previous_block_hash\":\"\"}"
    );
    assert_eq!(
        Block::generate_hash(&b),
        "004eee44ac4c13cccfbb8d12a3426ec7bd6aa99bff57d8963ce5176669897817"
    );
}

#[test]
fn hash_is_sha256_hex_of_json() {
    let b = sample_block();
    let h = Block::generate_hash(&b);
    assert_eq!(h, "5e83b5c3cf7b53f8a331ab99c14d1eae56789e6745db8b8f65c80d2cd6dbe3e9");
    assert_eq!(h.len(), 64);
}

#[test]
fn hash_twice_is_identical_and_nonce_changes_it() {
    let mut b = sample_block();
    let h1 = Block::generate_hash(&b);
    let h2 = Block::generate_hash(&b);
    assert_eq!(h1, h2);
    b.block_nonce += 1;
    assert_ne!(Block::generate_hash(&b), h1);
}

#[test]
fn validity_prefix_cases() {
    assert!(Block::is_block_valid("00ab", "00"));
    assert!(!Block::is_block_valid("0a0b", "00"));
    assert!(!Block::is_block_valid("AB", "ab"));
    assert!(Block::is_block_valid("abc", ""));
    assert!(Block::is_block_valid("", ""));
    assert!(!Block::is_block_valid("a", "ab"));
    assert!(Block::is_block_valid("ab", "ab"));
}

#[test]
fn new_block_links_to_previous() {
    let g = Block::genesis_at(50, 100);
    let b = Block::new_at(vec![txn("t", 3, "d")], &g, 200);
    assert_eq!(b.block_number, 2);
    assert_eq!(b.block_timestamp, 200);
    assert_eq!(b.block_nonce, 0);
    assert_eq!(b.transaction_list.len(), 1);
    assert_eq!(b.transaction_list[0].transaction_id, "t");
    assert_eq!(b.previous_block_hash, Block::generate_hash(&g));
    let c = Block::new(vec![], &b);
    assert_eq!(c.block_number, 3);
    assert_eq!(c.previous_block_hash, Block::generate_hash(&b));
}

#[test]
fn mining_with_empty_prefix_keeps_nonce() {
    let mut b = sample_block();
    Block::mine_new_block(&mut b, "");
    assert_eq!(b.block_nonce, 42);
}

#[test]
fn mining_stops_on_first_valid_nonce() {
    let mut b = Block::genesis_at(50, 100);
    b.block_nonce = 5;
    Block::mine_new_block(&mut b, "0");
    let found = b.block_nonce;
    assert!(found >= 5);
    assert!(Block::is_block_valid(&Block::generate_hash(&b), "0"));
    let mut probe = Block::genesis_at(50, 100);
    for n in 5..found {
        probe.block_nonce = n;
        assert!(!Block::is_block_valid(&Block::generate_hash(&probe), "0"));
    }
    assert_eq!(b.block_number, 1);
    assert_eq!(b.block_timestamp, 100);
    assert_eq!(b.previous_block_hash, "0");
}

#[test]
fn chain_of_two_mined_blocks() {
    let mut g = Block::genesis();
    Block::mine_new_block(&mut g, "00");
    assert!(Block::is_block_valid(&Block::generate_hash(&g), "00"));
    let t = Transaction::new(String::from("1"), String::from("Testing a new transaction"));
    let mut b = Block::new(vec![t], &g);
    Block::mine_new_block(&mut b, "00");
    let g_hash = Block::generate_hash(&g);
    let chain: Vec<Block> = vec![g, b];
    assert_eq!(chain.len(), 2);
    assert_eq!(chain[1].previous_block_hash, g_hash);
    assert!(Block::is_block_valid(&Block::generate_hash(&chain[1]), "00"));
}

#[test]
fn transaction_factory_keeps_values() {
    let t = Transaction::new_at(String::new(), String::new(), -1);
    assert_eq!(t.transaction_id, "");
    assert_eq!(t.transaction_details, "");
    assert_eq!(t.transaction_timestamp, -1);
    let u = Transaction::new(String::from("id"), String::from("x"));
    assert_eq!(u.transaction_id, "id");
    assert!(u.transaction_timestamp > 0);
}

#[test]
fn bounded_mining_outcomes() {
    let mut b = Block::genesis_at(50, 100);
    assert!(!Block::mine_within(&mut b, "zz", 0));
    assert_eq!(b.block_nonce, 0);
    assert!(!Block::mine_within(&mut b, "zz", 5));
    assert_eq!(b.block_nonce, 5);
    assert!(Block::mine_within(&mut b, "", 1));
    assert_eq!(b.block_nonce, 5);

    let mut bounded = Block::genesis_at(50, 100);
    let mut unbounded = Block::genesis_at(50, 100);
    assert!(Block::mine_within(&mut bounded, "0", 10_000));
    Block::mine_new_block(&mut unbounded, "0");
    assert_eq!(bounded.block_nonce, unbounded.block_nonce);
}

#[test]
fn mining_at_largest_nonce_stops() {
    let mut b = Block::genesis_at(50, 100);
    b.block_nonce = u64::MAX;
    assert!(!Block::mine_within(&mut b, "zz", 3));
    assert_eq!(b.block_nonce, u64::MAX);
    Block::mine_new_block(&mut b, "zz");
    assert_eq!(b.block_nonce, u64::MAX);
}

use sha3::Digest;
use tos_coin::Block;
use tos_coin::PublicKey;
use tos_coin::Transaction;

fn sample_block(nonce: u64) -> Block {
    let t = Transaction::new(7, PublicKey { bytes: [1u8; 32] }, PublicKey { bytes: [2u8; 32] });
    Block { previous_hash: None, transactions: vec![t], timestamp: 1000, nonce }
}

fn md5_hex_of_decimal(n: u128) -> String {
    format!("{:x}", md5::compute(format!("{}", n)))
}

#[test]
fn mine_at_zero_difficulty_returns_the_first_attempt() {
    let b = sample_block(42);
    let token = b.mine(0);
    assert_eq!(token.len(), 32);
    assert_eq!(token, md5_hex_of_decimal(42 + 1));
}

#[test]
fn mine_is_deterministic_for_a_nonce() {
    let b = sample_block(987654321);
    assert_eq!(b.mine(0), b.mine(0));
    assert_eq!(b.mine(1), b.mine(1));
}

#[test]
fn mine_meets_the_difficulty_and_no_earlier_attempt_does() {
    let b = sample_block(1234567);
    let difficulty = 2;
    let token = b.mine(difficulty);
    assert_eq!(token.len(), 32);
    assert!(token.starts_with("00"));
    // The returned token is the digest of the first attempt number that
    // meets the bound.
    let mut attempt: u64 = 1;
    loop {
        let digest = md5_hex_of_decimal(b.nonce as u128 + attempt as u128);
        if digest.starts_with("00") {
            assert_eq!(token, digest);
            break;
        }
        assert_ne!(token, digest);
        attempt += 1;
    }
}

#[test]
fn block_hash_is_deterministic_and_field_sensitive() {
    let b = sample_block(5);
    let h1 = b.hash().unwrap();
    let h2 = b.hash().unwrap();
    assert_eq!(h1, h2);
    assert_eq!(h1.len(), 64);

    // The hash is the SHA3-256 digest of the canonical encoding.
    let mut hasher = sha3::Sha3_256::new();
    hasher.update(b.encode());
    assert_eq!(h1, format!("{:x}", hasher.finalize()));

    // Any changed field changes the hash.
    let mut with_prev = b.clone();
    with_prev.previous_hash = Some(String::from("00"));
    assert_ne!(b.hash().unwrap(), with_prev.hash().unwrap());

    let mut with_ts = b.clone();
    with_ts.timestamp += 1;
    assert_ne!(b.hash().unwrap(), with_ts.hash().unwrap());

    let mut with_nonce = b.clone();
    with_nonce.nonce += 1;
    assert_ne!(b.hash().unwrap(), with_nonce.hash().unwrap());

    let mut with_tx = b.clone();
    with_tx.transactions[0] =
        Transaction::new(8, PublicKey { bytes: [1u8; 32] }, PublicKey { bytes: [2u8; 32] });
    assert_ne!(b.hash().unwrap(), with_tx.hash().unwrap());
}

#[test]
fn new_block_stores_what_it_is_given() {
    let t = Transaction::new(7, PublicKey { bytes: [1u8; 32] }, PublicKey { bytes: [2u8; 32] });
    let b = Block::new(Some(String::from("prev")), vec![t]);
    assert_eq!(b.previous_hash, Some(String::from("prev")));
    assert_eq!(b.transactions, vec![t]);
}

#[test]
fn current_time_is_after_the_epoch() {
    assert!(tos_coin::current_time_millis() > 0);
}

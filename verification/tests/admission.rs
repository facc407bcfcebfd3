use ed25519_dalek::Signer;
use ed25519_dalek::SigningKey;
use tos_coin::Block;
use tos_coin::Chain;
use tos_coin::CoinError;
use tos_coin::PrivateKey;
use tos_coin::PublicKey;
use tos_coin::Signature;
use tos_coin::Transaction;
use tos_coin::Wallet;
use tos_coin::BLOCK_DIFFICULTY;
use tos_coin::MAX_TRANSACTIONS;

fn keypair(seed: u8) -> (PrivateKey, PublicKey) {
    let sk = SigningKey::from_bytes(&[seed; 32]);
    (
        PrivateKey { bytes: sk.to_bytes() },
        PublicKey { bytes: sk.verifying_key().to_bytes() },
    )
}

fn signed(t: &Transaction, sk: &PrivateKey) -> Signature {
    let key = SigningKey::from_bytes(&sk.bytes);
    Signature { bytes: key.sign(t.encode().as_bytes()).to_bytes() }
}

#[test]
fn fresh_chain_has_one_genesis_block() {
    let chain = Chain::default();
    assert_eq!(chain.blocks.len(), 1);
    assert_eq!(chain.blocks[0].previous_hash, None);
    assert_eq!(chain.blocks[0].transactions.len(), 1);
    assert_eq!(chain.blocks[0].transactions[0], Transaction::default());
}

#[test]
fn first_submission_to_a_fresh_chain_seals_the_genesis_block() {
    // Capacity-one blocks mean the genesis block is already full, so the
    // first admitted transaction seals it and opens a mined block.
    let mut chain = Chain::default();
    let genesis_hash = chain.blocks[0].hash().unwrap();
    let (sk, pk) = keypair(11);
    let (_, receiver) = keypair(12);
    let t = Transaction::new(50.0f64.to_bits(), pk, receiver);
    let sig = signed(&t, &sk);
    let result = chain.add_transaction(t, &pk, &sig).unwrap();
    let token = result.expect("sealing a full block must return the proof token");
    assert_eq!(token.len(), 32);
    assert!(token.starts_with(&"0".repeat(BLOCK_DIFFICULTY)));
    assert_eq!(chain.blocks.len(), 2);
    assert_eq!(chain.blocks[1].previous_hash, Some(genesis_hash));
    assert_eq!(chain.blocks[1].transactions, vec![t]);
}

#[test]
fn admission_appends_when_the_last_block_has_room() {
    let mut chain = Chain::default();
    // Replace the full genesis block with an empty one to exercise the
    // append path under the capacity-one bound.
    chain.blocks = vec![Block { previous_hash: None, transactions: vec![], timestamp: 9, nonce: 3 }];
    let (sk, pk) = keypair(21);
    let (_, receiver) = keypair(22);
    let t = Transaction::new(5, pk, receiver);
    let sig = signed(&t, &sk);
    let result = chain.add_transaction(t, &pk, &sig).unwrap();
    assert_eq!(result, None);
    assert_eq!(chain.blocks.len(), 1);
    assert_eq!(chain.blocks[0].transactions, vec![t]);
    assert_eq!(chain.blocks[0].timestamp, 9);
    assert_eq!(chain.blocks[0].nonce, 3);
}

#[test]
fn a_signature_from_a_different_keypair_is_rejected() {
    let mut chain = Chain::default();
    let (_, pk) = keypair(31);
    let (other_sk, _) = keypair(32);
    let (_, receiver) = keypair(33);
    let t = Transaction::new(50.0f64.to_bits(), pk, receiver);
    let sig = signed(&t, &other_sk);
    let result = chain.add_transaction(t, &pk, &sig);
    assert_eq!(result, Err(CoinError::InvalidSignature));
    assert_eq!(chain.blocks.len(), 1);
}

#[test]
fn a_signature_over_a_changed_transaction_is_rejected() {
    let mut chain = Chain::default();
    let (sk, pk) = keypair(41);
    let (_, receiver) = keypair(42);
    let t = Transaction::new(50, pk, receiver);
    let sig = signed(&t, &sk);
    // The same signature over a transaction whose encoding differs in the
    // amount must fail verification.
    let altered = Transaction::new(51, pk, receiver);
    let result = chain.add_transaction(altered, &pk, &sig);
    assert_eq!(result, Err(CoinError::InvalidSignature));
    assert_eq!(chain.blocks.len(), 1);

    // The unaltered transaction is admitted.
    let result = chain.add_transaction(t, &pk, &sig);
    assert!(result.is_ok());
    assert_eq!(chain.blocks.len(), 2);
}

#[test]
fn an_empty_chain_reports_no_genesis_block() {
    let mut chain = Chain { blocks: vec![] };
    assert_eq!(chain.last_block().unwrap_err(), CoinError::NoGenesisBlock);
    let (sk, pk) = keypair(51);
    let t = Transaction::new(1, pk, pk);
    let sig = signed(&t, &sk);
    assert_eq!(chain.add_transaction(t, &pk, &sig), Err(CoinError::NoGenesisBlock));
    assert_eq!(chain.blocks.len(), 0);
}

#[test]
fn last_block_returns_the_final_block() {
    let chain = Chain::default();
    assert_eq!(*chain.last_block().unwrap(), chain.blocks[0]);
}

#[test]
fn last_block_mut_borrows_the_final_block() {
    let mut chain = Chain::default();
    let block = chain.last_block_mut().unwrap();
    block.timestamp = 77;
    assert_eq!(chain.blocks[0].timestamp, 77);

    let mut empty = Chain { blocks: vec![] };
    assert_eq!(empty.last_block_mut().unwrap_err(), CoinError::NoGenesisBlock);
}

#[test]
fn add_block_appends_unconditionally() {
    let mut chain = Chain::default();
    let b = Block { previous_hash: Some(String::from("x")), transactions: vec![], timestamp: 1, nonce: 2 };
    chain.add_block(b.clone());
    assert_eq!(chain.blocks.len(), 2);
    assert_eq!(chain.blocks[1], b);
}

#[test]
fn a_full_block_rejects_another_transaction() {
    let t = Transaction::default();
    let mut b = Block { previous_hash: None, transactions: vec![t], timestamp: 0, nonce: 0 };
    assert!(b.is_full());
    let extra = Transaction::new(1, PublicKey { bytes: [1u8; 32] }, PublicKey { bytes: [2u8; 32] });
    assert_eq!(b.add_transaction(extra), Err(CoinError::BlockFull(MAX_TRANSACTIONS)));
    assert_eq!(b.transactions, vec![t]);

    let mut open = Block { previous_hash: None, transactions: vec![], timestamp: 0, nonce: 0 };
    assert!(!open.is_full());
    assert_eq!(open.add_transaction(extra), Ok(()));
    assert_eq!(open.transactions, vec![extra]);
}

#[test]
fn wallet_new_holds_the_given_pair() {
    let (sk, pk) = keypair(61);
    let w = Wallet::new(pk, sk);
    assert_eq!(w.public_key, pk);
    assert_eq!(w.private_key, sk);
}

#[test]
fn a_wallet_with_a_mismatched_pair_cannot_send() {
    let (_, pk) = keypair(71);
    let (other_sk, _) = keypair(72);
    let w = Wallet::new(pk, other_sk);
    let (_, receiver) = keypair(73);
    let mut chain = Chain::default();
    assert_eq!(w.send(1, receiver, &mut chain), Err(CoinError::InvalidSignature));
    assert_eq!(chain.blocks.len(), 1);
}

#[test]
fn three_wallets_extend_the_chain_end_to_end() {
    let a = Wallet::default();
    let b = Wallet::default();
    let c = Wallet::default();
    let mut chain = Chain::default();

    let token = a.send(50.0f64.to_bits(), b.public_key, &mut chain).unwrap();
    assert!(token.is_some());
    assert_eq!(chain.blocks.len(), 2);

    let token = b.send(25.0f64.to_bits(), c.public_key, &mut chain).unwrap();
    assert!(token.is_some());
    assert_eq!(chain.blocks.len(), 3);

    let token = c.send(5.0f64.to_bits(), a.public_key, &mut chain).unwrap();
    assert!(token.is_some());
    assert_eq!(chain.blocks.len(), 4);

    // The genesis block still stands untouched at index zero.
    assert_eq!(chain.blocks[0].previous_hash, None);
    assert_eq!(chain.blocks[0].transactions, vec![Transaction::default()]);

    // Every block after the genesis links to the digest of its immediate
    // predecessor, whose fields are unchanged since sealing.
    for i in 1..4 {
        assert_eq!(
            chain.blocks[i].previous_hash,
            Some(chain.blocks[i - 1].hash().unwrap()),
        );
    }
    assert_eq!(chain.blocks[1].transactions[0].amount, 50.0f64.to_bits());
    assert_eq!(chain.blocks[1].transactions[0].sender, a.public_key);
    assert_eq!(chain.blocks[1].transactions[0].receiver, b.public_key);
    assert_eq!(chain.blocks[3].transactions[0].receiver, a.public_key);
}

use tos_coin::Block;
use tos_coin::PublicKey;
use tos_coin::Transaction;
use tos_coin::DEFAULT_AMOUNT_BITS;

fn hex(bytes: &[u8]) -> String {
    let mut out = String::new();
    for b in bytes {
        out.push_str(&format!("{:02x}", b));
    }
    out
}

#[test]
fn transaction_encoding_is_canonical() {
    let sender = PublicKey { bytes: [0u8; 32] };
    let receiver = PublicKey { bytes: [0xabu8; 32] };
    let t = Transaction::new(1, sender, receiver);
    let expected = format!(
        "{{\"amount\":1,\"sender\":\"{}\",\"receiver\":\"{}\"}}",
        hex(&sender.bytes),
        hex(&receiver.bytes),
    );
    assert_eq!(t.encode(), expected);
}

#[test]
fn transaction_encoding_renders_amount_bits_in_decimal() {
    let sender = PublicKey { bytes: [7u8; 32] };
    let receiver = PublicKey { bytes: [9u8; 32] };
    let bits = 50.0f64.to_bits();
    let t = Transaction::new(bits, sender, receiver);
    let expected = format!(
        "{{\"amount\":{},\"sender\":\"{}\",\"receiver\":\"{}\"}}",
        bits,
        hex(&sender.bytes),
        hex(&receiver.bytes),
    );
    assert_eq!(t.encode(), expected);
}

#[test]
fn block_encoding_with_no_previous_hash() {
    let t = Transaction::new(3, PublicKey { bytes: [1u8; 32] }, PublicKey { bytes: [2u8; 32] });
    let b = Block { previous_hash: None, transactions: vec![t], timestamp: 1234567890123, nonce: 42 };
    let expected = format!(
        "{{\"previous_hash\":null,\"transactions\":[{}],\"timestamp\":1234567890123,\"nonce\":42}}",
        t.encode(),
    );
    assert_eq!(b.encode(), expected);
}

#[test]
fn block_encoding_with_previous_hash_and_two_transactions() {
    let t1 = Transaction::new(3, PublicKey { bytes: [1u8; 32] }, PublicKey { bytes: [2u8; 32] });
    let t2 = Transaction::new(4, PublicKey { bytes: [5u8; 32] }, PublicKey { bytes: [6u8; 32] });
    let b = Block {
        previous_hash: Some(String::from("abc123")),
        transactions: vec![t1, t2],
        timestamp: 0,
        nonce: 18446744073709551615,
    };
    let expected = format!(
        "{{\"previous_hash\":\"abc123\",\"transactions\":[{},{}],\"timestamp\":0,\"nonce\":18446744073709551615}}",
        t1.encode(),
        t2.encode(),
    );
    assert_eq!(b.encode(), expected);
}

#[test]
fn default_transaction_is_the_placeholder() {
    let t = Transaction::default();
    assert_eq!(t.amount, DEFAULT_AMOUNT_BITS);
    assert_eq!(DEFAULT_AMOUNT_BITS, 128.0f64.to_bits());
    assert_eq!(t.sender.bytes, [0u8; 32]);
    assert_eq!(t.receiver.bytes, [0u8; 32]);
}

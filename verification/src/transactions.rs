//! Transactions: immutable signed intents to move value between two
//! identities, and their canonical encoding.

use vstd::prelude::*;
use vstd::string::StringExecFns;
use crate::crypto::PublicKey;
use crate::encoding::dec_of;
use crate::encoding::hex_of;
use crate::encoding::push_decimal;
use crate::encoding::push_hex32;

verus! {

/// The raw bit pattern of the 64-bit floating-point magnitude that the
/// default (placeholder) transaction carries.
pub const DEFAULT_AMOUNT_BITS: u64 = 0x4060000000000000;

/// A transaction: a write-once value object. No validation is applied to the
/// amount, and no balance semantics exist; equality is structural.
#[derive(Debug, Clone, Copy, PartialEq, Eq)]
pub struct Transaction {
    /// The transferred magnitude, held as the raw bit pattern (`to_bits`) of a
    /// 64-bit floating-point number. The ledger never computes with it; any
    /// bit pattern, including negative or non-finite magnitudes, is accepted.
    pub amount: u64,
    /// The public key of the sender.
    pub sender: PublicKey,
    /// The public key of the receiver.
    pub receiver: PublicKey,
}

/// The canonical encoding of a transaction: a single-line document holding
/// the amount bits in decimal and both keys in hexadecimal. It is both the
/// signing payload and part of the block-hash input.
pub open spec fn tx_encoding(t: Transaction) -> Seq<char> {
    "{\"amount\":"@ + dec_of(t.amount as nat) + ",\"sender\":\""@ + hex_of(t.sender.bytes@)
        + "\",\"receiver\":\""@ + hex_of(t.receiver.bytes@) + "\"}"@
}

/// Whether a transaction is the placeholder that a default block wraps.
pub open spec fn is_placeholder_transaction(t: Transaction) -> bool {
    &&& t.amount == DEFAULT_AMOUNT_BITS
    &&& t.sender.bytes@ == Seq::new(32, |i: int| 0u8)
    &&& t.receiver.bytes@ == Seq::new(32, |i: int| 0u8)
}

/// The canonical encoding of a transaction is injective: transactions that
/// differ in the amount or in either key encode distinctly.
pub proof fn lemma_tx_encoding_injective(t1: Transaction, t2: Transaction)
    requires
        t1.amount != t2.amount || t1.sender.bytes@ != t2.sender.bytes@ || t1.receiver.bytes@
            != t2.receiver.bytes@,
    ensures
        tx_encoding(t1) != tx_encoding(t2),
{
    let l1 = "{\"amount\":"@;
    let l2 = ",\"sender\":\""@;
    let l3 = "\",\"receiver\":\""@;
    let l4 = "\"}"@;
    let d1 = dec_of(t1.amount as nat);
    let d2 = dec_of(t2.amount as nat);
    let s1 = hex_of(t1.sender.bytes@);
    let s2 = hex_of(t2.sender.bytes@);
    let r1 = hex_of(t1.receiver.bytes@);
    let r2 = hex_of(t2.receiver.bytes@);
    crate::encoding::lemma_hex_of_len(t1.sender.bytes@);
    crate::encoding::lemma_hex_of_len(t2.sender.bytes@);
    crate::encoding::lemma_hex_of_len(t1.receiver.bytes@);
    crate::encoding::lemma_hex_of_len(t2.receiver.bytes@);
    if tx_encoding(t1) == tx_encoding(t2) {
        assert(tx_encoding(t1) =~= l1 + d1 + (l2 + s1 + l3 + r1 + l4));
        assert(tx_encoding(t2) =~= l1 + d2 + (l2 + s2 + l3 + r2 + l4));
        assert(tx_encoding(t1).len() == l1.len() + d1.len() + (l2.len() + s1.len() + l3.len()
            + r1.len() + l4.len()));
        assert(tx_encoding(t2).len() == l1.len() + d2.len() + (l2.len() + s2.len() + l3.len()
            + r2.len() + l4.len()));
        assert(d1.len() == d2.len());
        crate::encoding::lemma_concat_segment(l1, d1, l2 + s1 + l3 + r1 + l4);
        crate::encoding::lemma_concat_segment(l1, d2, l2 + s2 + l3 + r2 + l4);
        assert(d1 == tx_encoding(t1).subrange(l1.len() as int, l1.len() + d1.len() as int));
        assert(d2 == tx_encoding(t2).subrange(l1.len() as int, l1.len() + d2.len() as int));
        assert(d1 == d2);
        if t1.amount != t2.amount {
            crate::encoding::lemma_dec_of_injective(t1.amount as nat, t2.amount as nat);
            assert(false);
        }
        let p1 = l1 + d1 + l2;
        let p2 = l1 + d2 + l2;
        assert(p1.len() == p2.len());
        assert(tx_encoding(t1) =~= p1 + s1 + (l3 + r1 + l4));
        assert(tx_encoding(t2) =~= p2 + s2 + (l3 + r2 + l4));
        crate::encoding::lemma_concat_segment(p1, s1, l3 + r1 + l4);
        crate::encoding::lemma_concat_segment(p2, s2, l3 + r2 + l4);
        assert(s1 == tx_encoding(t1).subrange(p1.len() as int, p1.len() + s1.len() as int));
        assert(s2 == tx_encoding(t2).subrange(p2.len() as int, p2.len() + s2.len() as int));
        assert(s1 == s2);
        if t1.sender.bytes@ != t2.sender.bytes@ {
            crate::encoding::lemma_hex_of_injective(t1.sender.bytes@, t2.sender.bytes@);
            assert(false);
        }
        let q1 = p1 + s1 + l3;
        let q2 = p2 + s2 + l3;
        assert(q1.len() == q2.len());
        assert(tx_encoding(t1) =~= q1 + r1 + l4);
        assert(tx_encoding(t2) =~= q2 + r2 + l4);
        crate::encoding::lemma_concat_segment(q1, r1, l4);
        crate::encoding::lemma_concat_segment(q2, r2, l4);
        assert(r1 == tx_encoding(t1).subrange(q1.len() as int, q1.len() + r1.len() as int));
        assert(r2 == tx_encoding(t2).subrange(q2.len() as int, q2.len() + r2.len() as int));
        assert(r1 == r2);
        if t1.receiver.bytes@ != t2.receiver.bytes@ {
            crate::encoding::lemma_hex_of_injective(t1.receiver.bytes@, t2.receiver.bytes@);
            assert(false);
        }
        assert(false);
    }
}

impl Transaction {
    /// Creates a new transaction. A pure constructor with no validation and
    /// no error path.
    pub fn new(amount: u64, sender: PublicKey, receiver: PublicKey) -> (t: Transaction)
        ensures
            t == (Transaction { amount, sender, receiver }),
    {
        Transaction { amount, sender, receiver }
    }

    /// Renders this transaction in its canonical encoding.
    pub fn encode(&self) -> (s: String)
        ensures
            s@ == tx_encoding(*self),
    {
        let mut out = String::new();
        out.append("{\"amount\":");
        push_decimal(&mut out, self.amount as u128);
        out.append(",\"sender\":\"");
        push_hex32(&mut out, &self.sender.bytes);
        out.append("\",\"receiver\":\"");
        push_hex32(&mut out, &self.receiver.bytes);
        out.append("\"}");
        proof {
            assert(out@ =~= tx_encoding(*self));
        }
        out
    }
}

impl Default for Transaction {
    /// Creates the placeholder transaction: the default amount between two
    /// all-zero identities.
    fn default() -> (t: Transaction)
        ensures
            is_placeholder_transaction(t),
    {
        let t = Transaction {
            amount: DEFAULT_AMOUNT_BITS,
            sender: PublicKey { bytes: [0u8; 32] },
            receiver: PublicKey { bytes: [0u8; 32] },
        };
        proof {
            assert(t.sender.bytes@ =~= Seq::new(32, |i: int| 0u8));
            assert(t.receiver.bytes@ =~= Seq::new(32, |i: int| 0u8));
        }
        t
    }
}

} // verus!

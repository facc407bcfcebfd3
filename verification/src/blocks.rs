//! Blocks: ordered batches of transactions with linkage to the previous
//! block, a canonical encoding, a strong identity hash, and the proof-of-work
//! search.

use vstd::prelude::*;
use vstd::string::StringExecFns;
use vstd::string::StrSliceExecFns;
use crate::crypto::md5_hex;
use crate::crypto::md5_hex_of;
use crate::crypto::sha3_256_hex;
use crate::crypto::sha3_256_hex_of;
use crate::encoding::dec_of;
use crate::encoding::push_decimal;
use crate::errors::CoinError;
use crate::time::current_time_millis;
use crate::transactions::is_placeholder_transaction;
use crate::transactions::tx_encoding;
use crate::transactions::Transaction;
use crate::MAX_TRANSACTIONS;

verus! {

/// A block: transactions, linkage to the previous block, the time of its
/// construction, and a random base for the proof-of-work search. The mining
/// token is never written back into these fields.
#[derive(Debug, Clone, PartialEq)]
pub struct Block {
    /// The hash of the previous block; `None` only for the genesis block.
    pub previous_hash: Option<String>,
    /// The transactions in the block, in admission order.
    pub transactions: Vec<Transaction>,
    /// Milliseconds since the Unix epoch, captured at construction.
    pub timestamp: u128,
    /// A random 64-bit seed drawn at construction, independent of mining.
    pub nonce: u64,
}

/// The canonical encoding of the previous-hash field: the bare word `null`,
/// or the linked hash between quotes.
pub open spec fn previous_hash_encoding(previous_hash: Option<String>) -> Seq<char> {
    match previous_hash {
        Option::None => "null"@,
        Option::Some(h) => "\""@ + h@ + "\""@,
    }
}

/// The canonical encoding of a transaction sequence: the member encodings,
/// separated by commas.
pub open spec fn txs_encoding(txs: Seq<Transaction>) -> Seq<char>
    decreases txs.len(),
{
    if txs.len() == 0 {
        Seq::empty()
    } else if txs.len() == 1 {
        tx_encoding(txs[0])
    } else {
        txs_encoding(txs.drop_last()) + ","@ + tx_encoding(txs.last())
    }
}

/// The canonical encoding of a block: a single-line document holding every
/// field, the timestamp and nonce included, so that the block's hash is
/// sensitive to each of them.
pub open spec fn block_encoding(b: Block) -> Seq<char> {
    "{\"previous_hash\":"@ + previous_hash_encoding(b.previous_hash) + ",\"transactions\":["@
        + txs_encoding(b.transactions@) + "],\"timestamp\":"@ + dec_of(b.timestamp as nat)
        + ",\"nonce\":"@ + dec_of(b.nonce as nat) + "}"@
}

/// The identity hash of a block: the hexadecimal SHA3-256 digest of its
/// canonical encoding — a function of the block's fields alone.
pub open spec fn block_hash_of(b: Block) -> Seq<char> {
    sha3_256_hex_of(block_encoding(b))
}

/// The digest probed by the proof-of-work search for a given attempt number:
/// the hexadecimal MD5 digest of the decimal rendering of nonce plus attempt.
pub open spec fn mining_attempt(nonce: u64, attempt: nat) -> Seq<char> {
    md5_hex_of(dec_of(nonce as nat + attempt))
}

/// Whether the first `difficulty` characters of a digest are all `'0'`.
pub open spec fn has_leading_zeros(digest: Seq<char>, difficulty: nat) -> bool {
    &&& difficulty <= digest.len()
    &&& forall|i: int| 0 <= i < difficulty ==> digest[i] == '0'
}

/// Whether a token is the proof-of-work solution for a nonce at a difficulty:
/// the digest of some attempt number (counted from one) that meets the
/// leading-zeros bound, where no earlier attempt meets it.
pub open spec fn is_mining_solution(nonce: u64, difficulty: nat, token: Seq<char>) -> bool {
    exists|attempt: nat|
        #![auto]
        {
            &&& 1 <= attempt
            &&& token == mining_attempt(nonce, attempt)
            &&& has_leading_zeros(token, difficulty)
            &&& forall|earlier: nat|
                1 <= earlier < attempt ==> !has_leading_zeros(
                    mining_attempt(nonce, earlier),
                    difficulty,
                )
        }
}

/// What the proof-of-work search returns for a nonce at a difficulty: the
/// solution, or — only when every attempt number a 64-bit counter reaches
/// fails the leading-zeros bound — the digest of the final attempt.
pub open spec fn is_mining_outcome(nonce: u64, difficulty: nat, token: Seq<char>) -> bool {
    ||| is_mining_solution(nonce, difficulty, token)
    ||| ((forall|a: nat|
        1 <= a <= u64::MAX ==> !has_leading_zeros(
            #[trigger] mining_attempt(nonce, a),
            difficulty,
        )) && token == mining_attempt(nonce, u64::MAX as nat))
}

/// Relies on rand::random to draw the block nonce. Nothing is assumed of the
/// value.
#[verifier::external_body]
fn random_u64() -> u64 {
    rand::random()
}

/// Whether the first `difficulty` characters of `digest` are all `'0'`.
fn starts_with_zeros(digest: &str, difficulty: usize) -> (r: bool)
    ensures
        r == has_leading_zeros(digest@, difficulty as nat),
{
    let len = digest.unicode_len();
    if difficulty > len {
        return false;
    }
    let mut i: usize = 0;
    while i < difficulty
        invariant
            i <= difficulty <= digest@.len(),
            forall|j: int| 0 <= j < i ==> digest@[j] == '0',
        decreases difficulty - i,
    {
        if digest.get_char(i) != '0' {
            return false;
        }
        i = i + 1;
    }
    true
}

impl Block {
    /// Creates a new block holding the supplied transactions verbatim, with
    /// the current time as its timestamp and a freshly drawn nonce. No bound
    /// is checked here: the caller is responsible for respecting
    /// `MAX_TRANSACTIONS`.
    pub fn new(previous_hash: Option<String>, transactions: Vec<Transaction>) -> (b: Block)
        ensures
            b.previous_hash == previous_hash,
            b.transactions == transactions,
    {
        Block { previous_hash, transactions, timestamp: current_time_millis(), nonce: random_u64() }
    }

    /// Renders this block in its canonical encoding.
    pub fn encode(&self) -> (s: String)
        ensures
            s@ == block_encoding(*self),
    {
        let mut out = String::new();
        out.append("{\"previous_hash\":");
        match &self.previous_hash {
            Option::None => out.append("null"),
            Option::Some(h) => {
                out.append("\"");
                out.append(h.as_str());
                out.append("\"");
            },
        }
        out.append(",\"transactions\":[");
        let ghost prefix = out@;
        let mut i: usize = 0;
        while i < self.transactions.len()
            invariant
                i <= self.transactions@.len(),
                out@ == prefix + txs_encoding(self.transactions@.take(i as int)),
            decreases self.transactions@.len() - i,
        {
            if i > 0 {
                out.append(",");
            }
            let encoded = self.transactions[i].encode();
            out.append(encoded.as_str());
            proof {
                let txs = self.transactions@;
                assert(txs.take(i as int + 1).drop_last() =~= txs.take(i as int));
                assert(txs.take(i as int + 1).last() == txs[i as int]);
                assert(out@ =~= prefix + txs_encoding(txs.take(i as int + 1)));
            }
            i = i + 1;
        }
        proof {
            assert(self.transactions@.take(self.transactions@.len() as int)
                =~= self.transactions@);
        }
        out.append("],\"timestamp\":");
        push_decimal(&mut out, self.timestamp);
        out.append(",\"nonce\":");
        push_decimal(&mut out, self.nonce as u128);
        out.append("}");
        proof {
            assert(out@ =~= block_encoding(*self));
        }
        out
    }

    /// Hashes the block: the hexadecimal SHA3-256 digest of its canonical
    /// encoding. The encoding is total, so this always succeeds.
    pub fn hash(&self) -> (r: Result<String, CoinError>)
        ensures
            r matches Ok(h) && h@ == block_hash_of(*self),
    {
        let encoded = self.encode();
        Ok(sha3_256_hex(encoded.as_str()))
    }

    /// The digest probed by the proof-of-work search at one attempt number.
    fn attempt_digest(&self, attempt: u64) -> (digest: String)
        ensures
            digest@ == mining_attempt(self.nonce, attempt as nat),
            digest@.len() == 32,
    {
        let mut input = String::new();
        push_decimal(&mut input, (self.nonce as u128) + (attempt as u128));
        proof {
            assert(input@ =~= dec_of(self.nonce as nat + attempt as nat));
        }
        md5_hex(input.as_str())
    }

    /// Mines the block: probes attempt numbers from one upward until the fast
    /// digest of nonce plus attempt has `difficulty` leading zeros, and
    /// returns that digest as the proof token. The token is a puzzle answer
    /// handed outward; it is never stored on the block. The search runs
    /// without a timeout over every attempt number a 64-bit counter reaches;
    /// only if every one of them fails — possible only at a difficulty that no
    /// digest of the nonce meets — is the digest of the final attempt
    /// returned.
    pub fn mine(&self, difficulty: usize) -> (token: String)
        ensures
            token@.len() == 32,
            is_mining_outcome(self.nonce, difficulty as nat, token@),
            difficulty == 0 ==> token@ == mining_attempt(self.nonce, 1),
    {
        let mut attempt: u64 = 1;
        while attempt < u64::MAX
            invariant
                1 <= attempt,
                forall|earlier: nat|
                    1 <= earlier < attempt ==> !has_leading_zeros(
                        #[trigger] mining_attempt(self.nonce, earlier),
                        difficulty as nat,
                    ),
            decreases u64::MAX - attempt,
        {
            let digest = self.attempt_digest(attempt);
            if starts_with_zeros(digest.as_str(), difficulty) {
                proof {
                    if difficulty == 0 && attempt > 1 {
                        assert(!has_leading_zeros(mining_attempt(self.nonce, 1), 0));
                        assert(false);
                    }
                    assert(is_mining_solution(self.nonce, difficulty as nat, digest@));
                }
                return digest;
            }
            attempt = attempt + 1;
        }
        let digest = self.attempt_digest(u64::MAX);
        if starts_with_zeros(digest.as_str(), difficulty) {
            proof {
                if difficulty == 0 {
                    assert(!has_leading_zeros(mining_attempt(self.nonce, 1), 0));
                    assert(false);
                }
                assert(is_mining_solution(self.nonce, difficulty as nat, digest@));
            }
            return digest;
        }
        proof {
            if difficulty == 0 {
                assert(!has_leading_zeros(mining_attempt(self.nonce, u64::MAX as nat), 0));
                assert(false);
            }
            assert(forall|a: nat|
                1 <= a <= u64::MAX ==> !has_leading_zeros(
                    #[trigger] mining_attempt(self.nonce, a),
                    difficulty as nat,
                ));
        }
        digest
    }

    /// Checks whether the block already holds `MAX_TRANSACTIONS` transactions.
    pub fn is_full(&self) -> (r: bool)
        ensures
            r == (self.transactions@.len() >= MAX_TRANSACTIONS),
    {
        self.transactions.len() >= MAX_TRANSACTIONS
    }

    /// Appends a transaction if the block is not full; otherwise reports
    /// `BlockFull` carrying the bound, and mutates nothing.
    pub fn add_transaction(&mut self, transaction: Transaction) -> (r: Result<(), CoinError>)
        ensures
            old(self).transactions@.len() >= MAX_TRANSACTIONS ==> {
                &&& r == Result::<(), CoinError>::Err(CoinError::BlockFull(MAX_TRANSACTIONS))
                &&& *final(self) == *old(self)
            },
            old(self).transactions@.len() < MAX_TRANSACTIONS ==> {
                &&& r == Result::<(), CoinError>::Ok(())
                &&& final(self).previous_hash == old(self).previous_hash
                &&& final(self).timestamp == old(self).timestamp
                &&& final(self).nonce == old(self).nonce
                &&& final(self).transactions@ == old(self).transactions@.push(transaction)
            },
    {
        if self.is_full() {
            return Err(CoinError::BlockFull(MAX_TRANSACTIONS));
        }
        self.transactions.push(transaction);
        Ok(())
    }
}

/// The block hash is deterministic: it is a function of the block's fields
/// alone — the linked hash, the transactions, the timestamp and the nonce —
/// so equal blocks hash alike.
pub proof fn lemma_block_hash_deterministic(b1: Block, b2: Block)
    requires
        b1.previous_hash == b2.previous_hash,
        b1.transactions@ == b2.transactions@,
        b1.timestamp == b2.timestamp,
        b1.nonce == b2.nonce,
    ensures
        block_hash_of(b1) == block_hash_of(b2),
{
    assert(block_encoding(b1) == block_encoding(b2));
}

/// Whether two previous-hash fields read the same: both absent, or both
/// present with the same characters.
pub open spec fn previous_hash_eq(a: Option<String>, b: Option<String>) -> bool {
    match (a, b) {
        (Option::None, Option::None) => true,
        (Option::Some(h1), Option::Some(h2)) => h1@ == h2@,
        _ => false,
    }
}

/// Changing the previous-hash link of a block, its other fields held fixed,
/// changes its canonical encoding — the hash input — so only a digest
/// collision could leave its hash unchanged.
pub proof fn lemma_block_encoding_previous_hash_sensitive(b1: Block, b2: Block)
    requires
        b1.transactions@ == b2.transactions@,
        b1.timestamp == b2.timestamp,
        b1.nonce == b2.nonce,
        !previous_hash_eq(b1.previous_hash, b2.previous_hash),
    ensures
        block_encoding(b1) != block_encoding(b2),
{
    let p = "{\"previous_hash\":"@;
    let s = ",\"transactions\":["@ + txs_encoding(b1.transactions@) + "],\"timestamp\":"@
        + dec_of(b1.timestamp as nat) + ",\"nonce\":"@ + dec_of(b1.nonce as nat) + "}"@;
    let e1 = previous_hash_encoding(b1.previous_hash);
    let e2 = previous_hash_encoding(b2.previous_hash);
    if block_encoding(b1) == block_encoding(b2) {
        assert(block_encoding(b1) =~= p + e1 + s);
        assert(block_encoding(b2) =~= p + e2 + s);
        crate::encoding::lemma_concat_cancel(p, e1, e2, s);
        let q = "\""@;
        reveal_strlit("null");
        reveal_strlit("\"");
        match (b1.previous_hash, b2.previous_hash) {
            (Option::None, Option::None) => {
                assert(false);
            },
            (Option::Some(h1), Option::Some(h2)) => {
                crate::encoding::lemma_concat_cancel(q, h1@, h2@, q);
                assert(false);
            },
            (Option::None, Option::Some(_h)) => {
                assert(e1[0] == 'n');
                assert(e2[0] == q[0]);
                assert(false);
            },
            (Option::Some(_h), Option::None) => {
                assert(e2[0] == 'n');
                assert(e1[0] == q[0]);
                assert(false);
            },
        }
    }
}

/// Changing the sole transaction of a capacity-one block — in its amount or
/// in either key — its other fields held fixed, changes the block's canonical
/// encoding, the hash input.
pub proof fn lemma_block_encoding_transaction_sensitive(b1: Block, b2: Block)
    requires
        b1.previous_hash == b2.previous_hash,
        b1.timestamp == b2.timestamp,
        b1.nonce == b2.nonce,
        b1.transactions@.len() == 1,
        b2.transactions@.len() == 1,
        b1.transactions@[0].amount != b2.transactions@[0].amount
            || b1.transactions@[0].sender.bytes@ != b2.transactions@[0].sender.bytes@
            || b1.transactions@[0].receiver.bytes@ != b2.transactions@[0].receiver.bytes@,
    ensures
        block_encoding(b1) != block_encoding(b2),
{
    let p = "{\"previous_hash\":"@ + previous_hash_encoding(b1.previous_hash)
        + ",\"transactions\":["@;
    let s = "],\"timestamp\":"@ + dec_of(b1.timestamp as nat) + ",\"nonce\":"@ + dec_of(
        b1.nonce as nat,
    ) + "}"@;
    crate::transactions::lemma_tx_encoding_injective(b1.transactions@[0], b2.transactions@[0]);
    if block_encoding(b1) == block_encoding(b2) {
        assert(txs_encoding(b1.transactions@) == tx_encoding(b1.transactions@[0]));
        assert(txs_encoding(b2.transactions@) == tx_encoding(b2.transactions@[0]));
        assert(block_encoding(b1) =~= p + tx_encoding(b1.transactions@[0]) + s);
        assert(block_encoding(b2) =~= p + tx_encoding(b2.transactions@[0]) + s);
        crate::encoding::lemma_concat_cancel(
            p,
            tx_encoding(b1.transactions@[0]),
            tx_encoding(b2.transactions@[0]),
            s,
        );
        assert(false);
    }
}

/// Changing the nonce of a block, its other fields held fixed, changes its
/// canonical encoding — the hash input — so only a digest collision could
/// leave its hash unchanged.
pub proof fn lemma_block_encoding_nonce_sensitive(b1: Block, b2: Block)
    requires
        b1.previous_hash == b2.previous_hash,
        b1.transactions@ == b2.transactions@,
        b1.timestamp == b2.timestamp,
        b1.nonce != b2.nonce,
    ensures
        block_encoding(b1) != block_encoding(b2),
{
    let p = "{\"previous_hash\":"@ + previous_hash_encoding(b1.previous_hash)
        + ",\"transactions\":["@ + txs_encoding(b1.transactions@) + "],\"timestamp\":"@ + dec_of(
        b1.timestamp as nat,
    ) + ",\"nonce\":"@;
    let s = "}"@;
    crate::encoding::lemma_dec_of_injective(b1.nonce as nat, b2.nonce as nat);
    if block_encoding(b1) == block_encoding(b2) {
        assert(block_encoding(b1) =~= p + dec_of(b1.nonce as nat) + s);
        assert(block_encoding(b2) =~= p + dec_of(b2.nonce as nat) + s);
        crate::encoding::lemma_concat_cancel(p, dec_of(b1.nonce as nat), dec_of(b2.nonce as nat), s);
        assert(false);
    }
}

/// Changing the timestamp of a block, its other fields held fixed, changes
/// its canonical encoding — the hash input — so only a digest collision could
/// leave its hash unchanged.
pub proof fn lemma_block_encoding_timestamp_sensitive(b1: Block, b2: Block)
    requires
        b1.previous_hash == b2.previous_hash,
        b1.transactions@ == b2.transactions@,
        b1.nonce == b2.nonce,
        b1.timestamp != b2.timestamp,
    ensures
        block_encoding(b1) != block_encoding(b2),
{
    let p = "{\"previous_hash\":"@ + previous_hash_encoding(b1.previous_hash)
        + ",\"transactions\":["@ + txs_encoding(b1.transactions@) + "],\"timestamp\":"@;
    let s = ",\"nonce\":"@ + dec_of(b1.nonce as nat) + "}"@;
    crate::encoding::lemma_dec_of_injective(b1.timestamp as nat, b2.timestamp as nat);
    if block_encoding(b1) == block_encoding(b2) {
        assert(block_encoding(b1) =~= p + dec_of(b1.timestamp as nat) + s);
        assert(block_encoding(b2) =~= p + dec_of(b2.timestamp as nat) + s);
        crate::encoding::lemma_concat_cancel(
            p,
            dec_of(b1.timestamp as nat),
            dec_of(b2.timestamp as nat),
            s,
        );
        assert(false);
    }
}

impl Default for Block {
    /// Creates the genesis default: a block with no previous hash, wrapping a
    /// single placeholder transaction.
    fn default() -> (b: Block)
        ensures
            b.previous_hash is None,
            b.transactions@.len() == 1,
            is_placeholder_transaction(b.transactions@[0]),
    {
        let genesis_transaction = Transaction::default();
        Block::new(None, vec![genesis_transaction])
    }
}

} // verus!

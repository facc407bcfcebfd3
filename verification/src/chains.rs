//! The chain: the append-only ordered sequence of blocks, and the admission
//! protocol that authenticates a transaction and appends it, sealing a full
//! block behind the proof-of-work puzzle.

use vstd::prelude::*;
use crate::blocks::block_hash_of;
use crate::blocks::is_mining_outcome;
use crate::blocks::Block;
use crate::crypto::verify;
use crate::crypto::PublicKey;
use crate::crypto::Signature;
use crate::crypto::ed25519_verifies;
use crate::errors::CoinError;
use crate::transactions::tx_encoding;
use crate::transactions::Transaction;
use crate::BLOCK_DIFFICULTY;
use crate::MAX_TRANSACTIONS;

verus! {

/// A chain of blocks, in strict append order. Blocks are never reordered or
/// removed; after construction the genesis block stands at index zero.
#[derive(Debug, Clone, PartialEq)]
pub struct Chain {
    pub blocks: Vec<Block>,
}

/// Whether a signature authenticates a transaction under a public key: it
/// verifies over the transaction's canonical encoding. This is the sole
/// authenticity check — nothing ties the key to the transaction's sender
/// identity.
pub open spec fn tx_authentic(t: Transaction, public_key: PublicKey, signature: Signature) -> bool {
    ed25519_verifies(public_key.bytes@, tx_encoding(t), signature.bytes@)
}

/// The admission protocol's full outcome, from the chain before the call to
/// the chain after it. `authentic` is whether the signature verifies; beyond
/// it, the outcome turns on whether a last block exists and has room.
pub open spec fn admission_outcome(
    pre: Chain,
    post: Chain,
    transaction: Transaction,
    authentic: bool,
    r: Result<Option<String>, CoinError>,
) -> bool {
    &&& (!authentic ==> {
        &&& r == Result::<Option<String>, CoinError>::Err(CoinError::InvalidSignature)
        &&& post == pre
    })
    &&& (authentic && pre.blocks@.len() == 0 ==> {
        &&& r == Result::<Option<String>, CoinError>::Err(CoinError::NoGenesisBlock)
        &&& post == pre
    })
    &&& (authentic && pre.blocks@.len() > 0 && pre.blocks@.last().transactions@.len()
        < MAX_TRANSACTIONS ==> {
        &&& r == Result::<Option<String>, CoinError>::Ok(Option::<String>::None)
        &&& post.blocks@.len() == pre.blocks@.len()
        &&& (forall|i: int|
            0 <= i < pre.blocks@.len() - 1 ==> post.blocks@[i] == pre.blocks@[i])
        &&& post.blocks@.last().previous_hash == pre.blocks@.last().previous_hash
        &&& post.blocks@.last().timestamp == pre.blocks@.last().timestamp
        &&& post.blocks@.last().nonce == pre.blocks@.last().nonce
        &&& post.blocks@.last().transactions@ == pre.blocks@.last().transactions@.push(
            transaction,
        )
    })
    &&& (authentic && pre.blocks@.len() > 0 && pre.blocks@.last().transactions@.len()
        >= MAX_TRANSACTIONS ==> {
        &&& post.blocks@.len() == pre.blocks@.len() + 1
        &&& (forall|i: int| 0 <= i < pre.blocks@.len() ==> post.blocks@[i] == pre.blocks@[i])
        &&& (post.blocks@.last().previous_hash matches Some(h) && h@ == block_hash_of(
            pre.blocks@.last(),
        ))
        &&& post.blocks@.last().transactions@ == seq![transaction]
        &&& (r matches Ok(Some(token)) && token@.len() == 32 && is_mining_outcome(
            post.blocks@.last().nonce,
            BLOCK_DIFFICULTY as nat,
            token@,
        ))
    })
}

/// Admission is append-only: whatever its outcome, it never shortens the
/// chain and never touches any block standing before the last one, so the
/// genesis block of a correctly constructed chain stands at index zero
/// forever.
pub proof fn lemma_admission_append_only(
    pre: Chain,
    post: Chain,
    transaction: Transaction,
    authentic: bool,
    r: Result<Option<String>, CoinError>,
)
    requires
        admission_outcome(pre, post, transaction, authentic, r),
    ensures
        post.blocks@.len() >= pre.blocks@.len(),
        forall|i: int| 0 <= i < pre.blocks@.len() - 1 ==> post.blocks@[i] == pre.blocks@[i],
{
}

impl Chain {
    /// Appends a block unconditionally: no linkage or proof-of-work is
    /// validated at this layer.
    pub fn add_block(&mut self, block: Block)
        ensures
            final(self).blocks@ == old(self).blocks@.push(block),
    {
        self.blocks.push(block);
    }

    /// The last block of the chain; fails only on an empty chain, which
    /// correct construction makes unreachable.
    pub fn last_block(&self) -> (r: Result<&Block, CoinError>)
        ensures
            self.blocks@.len() == 0 ==> (r matches Err(e) && e == CoinError::NoGenesisBlock),
            self.blocks@.len() > 0 ==> (r matches Ok(b) && *b == self.blocks@.last()),
    {
        if self.blocks.len() == 0 {
            Err(CoinError::NoGenesisBlock)
        } else {
            Ok(&self.blocks[self.blocks.len() - 1])
        }
    }

    /// A mutable borrow of the last block of the chain; fails only on an
    /// empty chain. Writing through the borrow rewrites the last block and
    /// nothing else.
    pub fn last_block_mut(&mut self) -> (r: Result<&mut Block, CoinError>)
        ensures
            old(self).blocks@.len() == 0 ==> (r matches Err(e) && e == CoinError::NoGenesisBlock
                && *final(self) == *old(self)),
            old(self).blocks@.len() > 0 ==> (r matches Ok(b) && *b == old(self).blocks@.last()
                && final(self).blocks@ == old(self).blocks@.update(
                old(self).blocks@.len() - 1,
                *final(b),
            )),
    {
        let n = self.blocks.len();
        if n == 0 {
            Err(CoinError::NoGenesisBlock)
        } else {
            Ok(&mut self.blocks[n - 1])
        }
    }

    /// The admission protocol: verifies the signature over the transaction's
    /// canonical encoding, then appends the transaction to the last block if
    /// it has room (returning no token), or seals the full last block — the
    /// new block links to its hash, holds the new transaction as its sole
    /// content, and is mined at the fixed difficulty before it is appended
    /// (returning the proof token). A failed admission leaves the chain
    /// unchanged.
    pub fn add_transaction(
        &mut self,
        transaction: Transaction,
        public_key: &PublicKey,
        signature: &Signature,
    ) -> (r: Result<Option<String>, CoinError>)
        ensures
            admission_outcome(
                *old(self),
                *final(self),
                transaction,
                tx_authentic(transaction, *public_key, *signature),
                r,
            ),
    {
        let encoded = transaction.encode();
        if !verify(public_key, encoded.as_str(), signature) {
            return Err(CoinError::InvalidSignature);
        }
        let n = self.blocks.len();
        if n == 0 {
            return Err(CoinError::NoGenesisBlock);
        }
        if self.blocks[n - 1].transactions.len() < MAX_TRANSACTIONS {
            let mut last = self.blocks.pop().unwrap();
            match last.add_transaction(transaction) {
                Ok(()) => {},
                Err(e) => {
                    proof {
                        assert(false);
                    }
                    return Err(e);
                },
            }
            self.blocks.push(last);
            return Ok(None);
        }
        let last_hash = match self.blocks[n - 1].hash() {
            Ok(h) => h,
            Err(e) => {
                proof {
                    assert(false);
                }
                return Err(e);
            },
        };
        let new_block = Block::new(Some(last_hash), vec![transaction]);
        proof {
            assert(new_block.transactions@ =~= seq![transaction]);
            assert(new_block.previous_hash matches Some(h) && h@ == block_hash_of(
                old(self).blocks@.last(),
            ));
        }
        let token = new_block.mine(BLOCK_DIFFICULTY);
        self.add_block(new_block);
        Ok(Some(token))
    }
}

impl Default for Chain {
    /// Creates a chain holding exactly the genesis default block.
    fn default() -> (c: Chain)
        ensures
            c.blocks@.len() == 1,
            c.blocks@[0].previous_hash is None,
            c.blocks@[0].transactions@.len() == 1,
            crate::transactions::is_placeholder_transaction(c.blocks@[0].transactions@[0]),
    {
        let genesis_block = Block::default();
        Chain { blocks: vec![genesis_block] }
    }
}

} // verus!

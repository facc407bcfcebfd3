//! The error taxonomy of the ledger. Every fallible step reports its failure
//! directly to the caller; nothing is retried.

use vstd::prelude::*;

verus! {

/// An error of the ledger.
#[derive(Debug, Clone, Copy, PartialEq, Eq, Structural)]
pub enum CoinError {
    /// The chain has no blocks, so there is no block to extend.
    NoGenesisBlock,
    /// The block already holds as many transactions as the bound it was
    /// checked against (carried as the payload).
    BlockFull(usize),
    /// The canonical encoding of a value failed. The encoder of this crate is
    /// total, so no operation here reports it; it is kept for callers that
    /// treat encoding as fallible.
    SerializationError,
    /// The signature does not verify over the transaction's canonical
    /// encoding under the given public key.
    InvalidSignature,
    /// A lookup by hash found nothing. No operation here reports it.
    HashNotFound,
}

} // verus!

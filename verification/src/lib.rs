//! A minimal single-process ledger: an append-only chain of blocks, each
//! holding signed value-transfer records, gated behind a proof-of-work puzzle.

use vstd::prelude::*;

mod blocks;
mod chains;
mod crypto;
mod encoding;
mod errors;
mod time;
mod transactions;
mod wallets;

pub use blocks::block_encoding;
pub use blocks::block_hash_of;
pub use blocks::has_leading_zeros;
pub use blocks::is_mining_solution;
pub use blocks::mining_attempt;
pub use blocks::previous_hash_encoding;
pub use blocks::previous_hash_eq;
pub use blocks::txs_encoding;
pub use blocks::is_mining_outcome;
pub use blocks::lemma_block_encoding_nonce_sensitive;
pub use blocks::lemma_block_encoding_previous_hash_sensitive;
pub use blocks::lemma_block_encoding_transaction_sensitive;
pub use blocks::lemma_block_encoding_timestamp_sensitive;
pub use blocks::lemma_block_hash_deterministic;
pub use blocks::Block;
pub use chains::admission_outcome;
pub use chains::lemma_admission_append_only;
pub use chains::tx_authentic;
pub use chains::Chain;
pub use crypto::ed25519_public_of;
pub use crypto::ed25519_verifies;
pub use crypto::md5_hex_of;
pub use crypto::sha3_256_hex_of;
pub use crypto::PrivateKey;
pub use crypto::PublicKey;
pub use crypto::Signature;
pub use encoding::dec_of;
pub use encoding::lemma_dec_of_injective;
pub use encoding::lemma_hex_of_injective;
pub use encoding::lemma_hex_of_len;
pub use encoding::lemma_dec_of_len_pos;
pub use encoding::digit_char;
pub use encoding::hex_of;
pub use encoding::hex_of_byte;
pub use errors::CoinError;
pub use time::current_time_millis;
pub use transactions::is_placeholder_transaction;
pub use transactions::lemma_tx_encoding_injective;
pub use transactions::tx_encoding;
pub use transactions::Transaction;
pub use transactions::DEFAULT_AMOUNT_BITS;
pub use wallets::Wallet;

verus! {

/// The maximum number of transactions in a block.
pub const MAX_TRANSACTIONS: usize = 1;

/// The difficulty of the proof-of-work puzzle, as a count of leading zero
/// characters required of the hexadecimal mining digest.
pub const BLOCK_DIFFICULTY: usize = 5;

} // verus!

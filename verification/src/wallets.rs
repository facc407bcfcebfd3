//! Wallets: identities holding a signing keypair, which construct, sign and
//! submit transactions to a shared chain.

use vstd::prelude::*;
use crate::chains::admission_outcome;
use crate::chains::Chain;
use crate::crypto::ed25519_public_of;
use crate::crypto::generate_keypair;
use crate::crypto::sign;
use crate::crypto::PrivateKey;
use crate::crypto::PublicKey;
use crate::errors::CoinError;
use crate::transactions::Transaction;

verus! {

/// A wallet: a keypair. The private key is the sole owner of signing
/// authority; there is no revocation or rotation.
#[derive(Debug, Clone, Copy, PartialEq, Eq)]
pub struct Wallet {
    pub public_key: PublicKey,
    pub private_key: PrivateKey,
}

impl Wallet {
    /// Whether the wallet's public key is the counterpart derived from its
    /// private key. Construction from an arbitrary pair does not force this;
    /// a freshly generated wallet has it.
    pub open spec fn well_formed(self) -> bool {
        self.public_key.bytes@ == ed25519_public_of(self.private_key.bytes@)
    }

    /// The transaction this wallet builds when sending an amount: itself as
    /// sender, by public key only.
    pub open spec fn outgoing_transaction(self, amount: u64, receiver: PublicKey) -> Transaction {
        Transaction { amount, sender: self.public_key, receiver }
    }

    /// Creates a wallet holding the given keypair. A pure constructor: the
    /// pair is not checked for being counterparts.
    pub fn new(public_key: PublicKey, private_key: PrivateKey) -> (w: Wallet)
        ensures
            w == (Wallet { public_key, private_key }),
    {
        Wallet { public_key, private_key }
    }

    /// Builds a transaction from this wallet to `receiver`, signs its
    /// canonical encoding with the private key, and submits it to the chain's
    /// admission protocol, returning its result unchanged. On a well-formed
    /// wallet the signature verifies, so admission never reports
    /// `InvalidSignature`.
    pub fn send(&self, amount: u64, receiver: PublicKey, chain: &mut Chain) -> (r: Result<
        Option<String>,
        CoinError,
    >)
        ensures
            self.well_formed() ==> admission_outcome(
                *old(chain),
                *final(chain),
                self.outgoing_transaction(amount, receiver),
                true,
                r,
            ),
            admission_outcome(
                *old(chain),
                *final(chain),
                self.outgoing_transaction(amount, receiver),
                true,
                r,
            ) || admission_outcome(
                *old(chain),
                *final(chain),
                self.outgoing_transaction(amount, receiver),
                false,
                r,
            ),
    {
        let transaction = Transaction::new(amount, self.public_key, receiver);
        let encoded = transaction.encode();
        let signature = sign(&self.private_key, encoded.as_str());
        chain.add_transaction(transaction, &self.public_key, &signature)
    }
}

impl Default for Wallet {
    /// Generates a fresh random keypair and wraps it: the resulting wallet is
    /// well formed.
    fn default() -> (w: Wallet)
        ensures
            w.well_formed(),
    {
        let (private_key, public_key) = generate_keypair();
        Wallet { public_key, private_key }
    }
}

} // verus!

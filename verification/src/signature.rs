//! Signature attachments carried by transactions and verification requests.
//!
//! The rollup-native scheme's cryptography lives outside this crate: a
//! native signature enters the library already reduced to its observable
//! content, the signer recovery computed by the caller's cryptographic layer
//! over the transaction's canonical bytes.  Base-chain signatures stay
//! opaque byte strings; what they recover to is supplied by the
//! authorization oracle when a request is verified.

use vstd::prelude::*;

use crate::primitives::PubKeyHash;

verus! {

/// Version of the native signing scheme a signature was produced under.
#[derive(Clone, Copy, PartialEq, Eq, Structural, Debug)]
pub enum TxVersion {
    Legacy,
    V1,
}

/// A rollup-native signature over a transaction's canonical bytes,
/// represented by its recovery outcome: the public-key hash the signature
/// recovers to, or `None` when recovery fails (an absent or malformed
/// signature).  Recovery is deterministic, so carrying the outcome preserves
/// every observable behaviour of carrying the raw signature.
#[derive(Clone, Copy, PartialEq, Eq, Structural, Debug)]
pub struct TxSignature {
    pub recovered_signer: Option<PubKeyHash>,
}

impl TxSignature {
    pub open spec fn spec_recover(self) -> Option<RecoveredSigner> {
        match self.recovered_signer {
            Some(h) => Some(RecoveredSigner { key_hash: h, version: TxVersion::V1 }),
            None => None,
        }
    }

    /// Restores the signer's key hash, or reports "no match".
    pub fn recover(&self) -> (r: Option<RecoveredSigner>)
        ensures
            r == self.spec_recover(),
    {
        match self.recovered_signer {
            Some(h) => Some(RecoveredSigner { key_hash: h, version: TxVersion::V1 }),
            None => None,
        }
    }
}

impl Default for TxSignature {
    /// The empty signature; it recovers to nothing.
    fn default() -> (r: Self)
        ensures
            r.recovered_signer is None,
    {
        TxSignature { recovered_signer: None }
    }
}

/// A successful signer recovery: the key hash the signature recovers to and
/// the scheme version it was checked under.
#[derive(Clone, Copy, PartialEq, Eq, Structural, Debug)]
pub struct RecoveredSigner {
    pub key_hash: PubKeyHash,
    pub version: TxVersion,
}

/// The memoized recovery result attached to an otherwise immutable
/// transaction.  Re-derivation always yields the same answer as a cold
/// computation; the cache is an optimization, never the source of truth.
#[derive(Clone, Copy, PartialEq, Eq, Structural, Debug)]
pub enum VerifiedSignatureCache {
    NotCached,
    Cached(Option<RecoveredSigner>),
}

/// A packed recoverable base-chain signature, opaque to this crate.
#[derive(Clone, PartialEq, Eq, Debug)]
pub struct PackedEthSignature {
    pub bytes: Vec<u8>,
}

/// A delegated-contract base-chain signature, validated by an oracle call
/// rather than by local recovery.
#[derive(Clone, PartialEq, Eq, Debug)]
pub struct EIP1271Signature {
    pub bytes: Vec<u8>,
}

/// The two base-chain signature forms a request may carry.
#[derive(Clone, PartialEq, Eq, Debug)]
pub enum TxEthSignature {
    EthereumSignature(PackedEthSignature),
    EIP1271Signature(EIP1271Signature),
}

/// A base-chain signature with the message its key signed.
#[derive(Clone, PartialEq, Eq, Debug)]
pub struct EthSignData {
    pub signature: TxEthSignature,
    pub message: Vec<u8>,
}

/// The aggregated signature set of a transaction batch: candidate
/// signatures over one shared batch message.
#[derive(Clone, PartialEq, Eq, Debug)]
pub struct EthBatchSignData {
    pub signatures: Vec<TxEthSignature>,
    pub message: Vec<u8>,
}

} // verus!

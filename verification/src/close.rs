//! The legacy account-close transaction kind.  The network no longer
//! executes closes; the kind survives so old records still parse, and its
//! correctness check rejects every instance.

use vstd::prelude::*;

use crate::primitives::{
    lemma_u32_be_injective, lemma_u64_be_injective, push_u32_be, spec_u32_be, spec_u64_be, Address,
};
use crate::signature::{RecoveredSigner, TxSignature, VerifiedSignatureCache};
use crate::time_range::TimeRange;

verus! {

/// Type tag of the close kind in canonical encodings.
pub const CLOSE_TX_TYPE: u8 = 4;

/// The error every close yields: the operation is disabled.
#[derive(Clone, Copy, PartialEq, Eq, Structural, Debug)]
pub struct CloseOperationsDisabled;

impl CloseOperationsDisabled {
    /// A human-readable rendering of the error.
    pub fn message(&self) -> (r: String)
        ensures
            r@ == "Close operations are disabled"@,
    {
        String::from_str("Close operations are disabled")
    }
}

/// A legacy request to close an account.
#[derive(Clone, PartialEq, Eq, Debug)]
pub struct Close {
    /// Address of the account to close.
    pub account: Address,
    /// The account's nonce at submission.
    pub nonce: u32,
    /// Validity window.
    pub time_range: TimeRange,
    /// Rollup-native signature over the canonical bytes.
    pub signature: TxSignature,
    /// Memoized signer recovery.
    pub cached_signer: VerifiedSignatureCache,
}

impl Close {
    /// The canonical byte encoding: tag, account, nonce, validity window.
    pub open spec fn spec_bytes(self) -> Seq<u8> {
        seq![(255 - CLOSE_TX_TYPE) as u8] + self.account.spec_bytes() + spec_u32_be(self.nonce)
            + self.time_range.spec_bytes()
    }

    /// The canonical byte encoding of this close.
    pub fn get_bytes(&self) -> (r: Vec<u8>)
        ensures
            r@ == self.spec_bytes(),
    {
        let mut out: Vec<u8> = Vec::new();
        out.push(255 - CLOSE_TX_TYPE);
        self.account.push_bytes(&mut out);
        push_u32_be(&mut out, self.nonce);
        self.time_range.push_bytes(&mut out);
        proof {
            assert(out@ =~= self.spec_bytes());
        }
        out
    }

    /// The signer the transaction answers with.
    pub open spec fn spec_effective_signer(self) -> Option<RecoveredSigner> {
        match self.cached_signer {
            VerifiedSignatureCache::Cached(c) => c,
            VerifiedSignatureCache::NotCached => self.signature.spec_recover(),
        }
    }

    /// Restores the signer's key hash from the native signature.
    pub fn verify_signature(&self) -> (r: Option<RecoveredSigner>)
        ensures
            r == self.spec_effective_signer(),
    {
        match &self.cached_signer {
            VerifiedSignatureCache::Cached(c) => *c,
            VerifiedSignatureCache::NotCached => self.signature.recover(),
        }
    }

    /// The canonical bytes are a pure function of the content fields and
    /// pin them down.
    pub proof fn lemma_bytes_injective(a: Close, b: Close)
        requires
            a.spec_bytes() == b.spec_bytes(),
        ensures
            a.account == b.account,
            a.nonce == b.nonce,
            a.time_range == b.time_range,
    {
        let sa = a.spec_bytes();
        let sb = b.spec_bytes();
        assert(sa.len() == 41 && sb.len() == 41);
        assert(a.account.spec_bytes() =~= sa.subrange(1, 21));
        assert(b.account.spec_bytes() =~= sb.subrange(1, 21));
        Address::lemma_bytes_injective(a.account, b.account);
        assert(spec_u32_be(a.nonce) =~= sa.subrange(21, 25));
        assert(spec_u32_be(b.nonce) =~= sb.subrange(21, 25));
        lemma_u32_be_injective(a.nonce, b.nonce);
        assert(spec_u64_be(a.time_range.valid_from) =~= sa.subrange(25, 33));
        assert(spec_u64_be(b.time_range.valid_from) =~= sb.subrange(25, 33));
        lemma_u64_be_injective(a.time_range.valid_from, b.time_range.valid_from);
        assert(spec_u64_be(a.time_range.valid_until) =~= sa.subrange(33, 41));
        assert(spec_u64_be(b.time_range.valid_until) =~= sb.subrange(33, 41));
        lemma_u64_be_injective(a.time_range.valid_until, b.time_range.valid_until);
    }

    /// Closes are disabled: every instance is rejected, whatever it holds.
    pub fn check_correctness(&mut self) -> (r: Result<(), CloseOperationsDisabled>)
        ensures
            r == Result::<(), CloseOperationsDisabled>::Err(CloseOperationsDisabled),
            *final(self) == *old(self),
    {
        Err(CloseOperationsDisabled)
    }
}

} // verus!

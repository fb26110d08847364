//! The forced-exit transaction kind: an initiator pays to push a target
//! account's whole balance of one token out to the base chain.

use vstd::prelude::*;

use crate::codec::{
    is_fee_amount_packable, lemma_fee_amount_round_trip, pack_fee_amount, spec_max_encodable,
    spec_packable, spec_packed_fee_bytes, FEE_MAX_MANTISSA,
};
use crate::primitives::{
    lemma_u16_be_injective, lemma_u32_be_injective, lemma_u64_be_injective, push_u16_be,
    push_u32_be, spec_u16_be, spec_u32_be, spec_u64_be, Address,
};
use crate::signature::{RecoveredSigner, TxSignature, VerifiedSignatureCache};
use crate::text::{
    push_address_hex, push_dec_u16, push_dec_u32, push_units, spec_dec, spec_format_units,
    spec_hex,
};
use crate::time_range::TimeRange;
use crate::{
    Amount, ServerConfig, CURRENT_TX_VERSION, MAX_ACCOUNT_ID, MAX_PROCESSABLE_TOKEN, MAX_TOKEN_ID,
};

verus! {

/// Type tag of the forced-exit kind in canonical encodings.
pub const FORCED_EXIT_TX_TYPE: u8 = 8;

/// Why a forced exit fails its correctness check.
#[derive(Clone, Copy, PartialEq, Eq, Structural, Debug)]
pub enum TransactionError {
    WrongFee,
    FeeNotPackable,
    WrongAccountId,
    WrongToken,
    WrongTimeRange,
    WrongSignature,
    WrongTokenForPayingFee,
    WrongGroup,
}

impl TransactionError {
    pub open spec fn spec_message(self) -> Seq<char> {
        match self {
            TransactionError::WrongFee => "Transaction fee is out of range"@,
            TransactionError::FeeNotPackable => "Transaction fee is not packable"@,
            TransactionError::WrongAccountId => "Account id is out of range"@,
            TransactionError::WrongToken => "Token id is out of range"@,
            TransactionError::WrongTimeRange => "Transaction validity window is malformed"@,
            TransactionError::WrongSignature => "Native signature is incorrect"@,
            TransactionError::WrongTokenForPayingFee => "Fees cannot be paid in this token"@,
            TransactionError::WrongGroup => "Transaction group does not match this operator"@,
        }
    }

    /// A human-readable rendering of the error.
    pub fn message(&self) -> (r: String)
        ensures
            r@ == self.spec_message(),
    {
        match self {
            TransactionError::WrongFee => String::from_str("Transaction fee is out of range"),
            TransactionError::FeeNotPackable => String::from_str(
                "Transaction fee is not packable",
            ),
            TransactionError::WrongAccountId => String::from_str("Account id is out of range"),
            TransactionError::WrongToken => String::from_str("Token id is out of range"),
            TransactionError::WrongTimeRange => String::from_str(
                "Transaction validity window is malformed",
            ),
            TransactionError::WrongSignature => String::from_str("Native signature is incorrect"),
            TransactionError::WrongTokenForPayingFee => String::from_str(
                "Fees cannot be paid in this token",
            ),
            TransactionError::WrongGroup => String::from_str(
                "Transaction group does not match this operator",
            ),
        }
    }
}

/// Pushes the target account's whole balance of `token` out to the base
/// chain, at the initiator's expense.
#[derive(Clone, PartialEq, Eq, Debug)]
pub struct ForcedExit {
    /// Account id of the paying initiator.
    pub initiator_account_id: u32,
    /// Address of the account being exited.
    pub target: Address,
    /// Exited token; the initiator's fee is paid in it too.
    pub token: u32,
    /// Fee for the transaction.
    pub fee: Amount,
    /// Group the exit occurs in.
    pub group: u16,
    /// The initiator's current nonce.
    pub nonce: u32,
    /// Validity window; absent on transactions from before the window was
    /// introduced.
    pub time_range: Option<TimeRange>,
    /// Rollup-native signature over the canonical bytes.
    pub signature: TxSignature,
    /// Memoized signer recovery.  An optimization only: coherent values
    /// (see `spec_cache_coherent`) never change what any check decides.
    pub cached_signer: VerifiedSignatureCache,
}

impl ForcedExit {
    /// All content fields agree; the memoization cache is allowed to differ.
    pub open spec fn spec_same_content(self, other: ForcedExit) -> bool {
        self.initiator_account_id == other.initiator_account_id && self.target == other.target
            && self.token == other.token && self.fee == other.fee && self.group == other.group
            && self.nonce == other.nonce && self.time_range == other.time_range && self.signature
            == other.signature
    }

    /// The signer the transaction answers with: the memoized recovery when
    /// present, the signature's own recovery otherwise.
    pub open spec fn spec_effective_signer(self) -> Option<RecoveredSigner> {
        match self.cached_signer {
            VerifiedSignatureCache::Cached(c) => c,
            VerifiedSignatureCache::NotCached => self.signature.spec_recover(),
        }
    }

    /// The memoization slot never contradicts a cold recovery.
    pub open spec fn spec_cache_coherent(self) -> bool {
        self.spec_effective_signer() == self.signature.spec_recover()
    }

    /// The fee lies in the 128-bit range and inside the codec's range, so
    /// the canonical bytes exist.
    pub open spec fn spec_encodable(self) -> bool {
        &&& self.fee is Value
        &&& self.fee.spec_value() as nat <= spec_max_encodable(FEE_MAX_MANTISSA as nat)
    }

    pub open spec fn spec_time_range_or_default(self) -> TimeRange {
        match self.time_range {
            Some(t) => t,
            None => TimeRange { valid_from: 0, valid_until: u64::MAX },
        }
    }

    /// The canonical byte encoding: tag, version, then the fixed-width
    /// fields in layout order, then the validity window.
    pub open spec fn spec_bytes(self) -> Seq<u8>
        recommends
            self.spec_encodable(),
    {
        seq![(255 - FORCED_EXIT_TX_TYPE) as u8, CURRENT_TX_VERSION] + spec_u32_be(
            self.initiator_account_id,
        ) + self.target.spec_bytes() + spec_u32_be(self.token) + spec_packed_fee_bytes(
            self.fee.spec_value(),
        ) + spec_u16_be(self.group) + spec_u32_be(self.nonce)
            + self.spec_time_range_or_default().spec_bytes()
    }

    /// Creates a forced exit from all required fields.
    #[allow(clippy::too_many_arguments)]
    pub fn new(
        initiator_account_id: u32,
        target: Address,
        token: u32,
        fee: Amount,
        group: u16,
        nonce: u32,
        time_range: TimeRange,
        signature: Option<TxSignature>,
    ) -> (r: ForcedExit)
        ensures
            r.initiator_account_id == initiator_account_id,
            r.target == target,
            r.token == token,
            r.fee == fee,
            r.group == group,
            r.nonce == nonce,
            r.time_range == Some(time_range),
            r.signature == match signature {
                Some(s) => s,
                None => TxSignature { recovered_signer: None },
            },
            r.spec_cache_coherent(),
    {
        match signature {
            Some(s) => ForcedExit {
                initiator_account_id,
                target,
                token,
                fee,
                group,
                nonce,
                time_range: Some(time_range),
                signature: s,
                cached_signer: VerifiedSignatureCache::Cached(s.recover()),
            },
            None => ForcedExit {
                initiator_account_id,
                target,
                token,
                fee,
                group,
                nonce,
                time_range: Some(time_range),
                signature: TxSignature { recovered_signer: None },
                cached_signer: VerifiedSignatureCache::NotCached,
            },
        }
    }

    /// The canonical byte encoding of this forced exit.
    pub fn get_bytes(&self) -> (r: Vec<u8>)
        requires
            self.spec_encodable(),
        ensures
            r@ == self.spec_bytes(),
    {
        let mut out: Vec<u8> = Vec::new();
        out.push(255 - FORCED_EXIT_TX_TYPE);
        out.push(CURRENT_TX_VERSION);
        push_u32_be(&mut out, self.initiator_account_id);
        self.target.push_bytes(&mut out);
        push_u32_be(&mut out, self.token);
        let fee = match self.fee {
            Amount::Value(v) => v,
            Amount::Oversize => vstd::pervasive::unreached(),
        };
        let mut packed_fee = pack_fee_amount(fee);
        out.append(&mut packed_fee);
        push_u16_be(&mut out, self.group);
        push_u32_be(&mut out, self.nonce);
        let time_range = match self.time_range {
            Some(t) => t,
            None => TimeRange::default(),
        };
        time_range.push_bytes(&mut out);
        proof {
            assert(out@ =~= self.spec_bytes());
        }
        out
    }

    /// Restores the signer's key hash from the native signature, answering
    /// from the memoization slot when it is filled.
    pub fn verify_signature(&self) -> (r: Option<RecoveredSigner>)
        ensures
            r == self.spec_effective_signer(),
    {
        match &self.cached_signer {
            VerifiedSignatureCache::Cached(c) => *c,
            VerifiedSignatureCache::NotCached => self.signature.recover(),
        }
    }

    /// Empties the memoization slot, so the next recovery is computed cold.
    pub fn wipe_signer_cache(&mut self)
        ensures
            final(self).spec_same_content(*old(self)),
            final(self).spec_cache_coherent(),
    {
        self.cached_signer = VerifiedSignatureCache::NotCached;
    }

    /// What the ordered correctness checks decide for a forced exit with
    /// this content and this configuration.
    pub open spec fn spec_check_correctness(self, config: ServerConfig) -> Result<
        (),
        TransactionError,
    > {
        if self.fee is Oversize {
            Err(TransactionError::WrongFee)
        } else if !spec_packable(self.fee.spec_value() as nat, FEE_MAX_MANTISSA as nat) {
            Err(TransactionError::FeeNotPackable)
        } else if self.initiator_account_id > MAX_ACCOUNT_ID {
            Err(TransactionError::WrongAccountId)
        } else if self.group != config.group_id {
            Err(TransactionError::WrongGroup)
        } else if self.token > MAX_TOKEN_ID {
            Err(TransactionError::WrongToken)
        } else if !(match self.time_range {
            Some(t) => t.spec_is_valid(),
            None => true,
        }) {
            Err(TransactionError::WrongTimeRange)
        } else if !self.fee.spec_is_zero() && self.token > MAX_PROCESSABLE_TOKEN {
            Err(TransactionError::WrongTokenForPayingFee)
        } else if self.spec_effective_signer() is None {
            Err(TransactionError::WrongSignature)
        } else {
            Ok(())
        }
    }

    /// Runs the ordered correctness checks: fee bounds and packability,
    /// initiator and token ranges, group match, window consistency, the
    /// fee-token rule, and finally native-signature recovery.  The first
    /// failing check decides the error; content is never modified, only the
    /// recovery memo is filled.
    pub fn check_correctness(&mut self, config: &ServerConfig) -> (r: Result<
        (),
        TransactionError,
    >)
        ensures
            r == old(self).spec_check_correctness(*config),
            final(self).spec_same_content(*old(self)),
            final(self).spec_effective_signer() == old(self).spec_effective_signer(),
    {
        let fee = match self.fee {
            Amount::Value(v) => v,
            Amount::Oversize => {
                return Err(TransactionError::WrongFee);
            },
        };
        if !is_fee_amount_packable(fee) {
            return Err(TransactionError::FeeNotPackable);
        }
        if self.initiator_account_id > MAX_ACCOUNT_ID {
            return Err(TransactionError::WrongAccountId);
        }
        if self.group != config.group_id {
            return Err(TransactionError::WrongGroup);
        }
        if self.token > MAX_TOKEN_ID {
            return Err(TransactionError::WrongToken);
        }
        let window_ok = match &self.time_range {
            Some(t) => t.check_correctness(),
            None => true,
        };
        if !window_ok {
            return Err(TransactionError::WrongTimeRange);
        }
        if fee != 0 && self.token > MAX_PROCESSABLE_TOKEN {
            return Err(TransactionError::WrongTokenForPayingFee);
        }
        let signer = self.verify_signature();
        self.cached_signer = VerifiedSignatureCache::Cached(signer);
        if signer.is_none() {
            return Err(TransactionError::WrongSignature);
        }
        Ok(())
    }

    /// Running the checks is idempotent: filling the recovery memo with the
    /// effective signer never changes what a later run decides.
    pub proof fn lemma_check_correctness_idempotent(
        tx1: ForcedExit,
        tx2: ForcedExit,
        config: ServerConfig,
    )
        requires
            tx1.spec_same_content(tx2),
            tx1.spec_effective_signer() == tx2.spec_effective_signer(),
        ensures
            tx1.spec_check_correctness(config) == tx2.spec_check_correctness(config),
    {
    }

    /// The canonical bytes are a pure function of the content fields, and
    /// for encodable forced exits with packable fees they pin the content
    /// down.
    #[verifier::rlimit(60)]
    pub proof fn lemma_bytes_injective(a: ForcedExit, b: ForcedExit)
        requires
            a.spec_encodable(),
            b.spec_encodable(),
            spec_packable(a.fee.spec_value() as nat, FEE_MAX_MANTISSA as nat),
            spec_packable(b.fee.spec_value() as nat, FEE_MAX_MANTISSA as nat),
            a.spec_bytes() == b.spec_bytes(),
        ensures
            a.initiator_account_id == b.initiator_account_id,
            a.target == b.target,
            a.token == b.token,
            a.fee == b.fee,
            a.group == b.group,
            a.nonce == b.nonce,
            a.spec_time_range_or_default() == b.spec_time_range_or_default(),
    {
        let sa = a.spec_bytes();
        let sb = b.spec_bytes();
        assert(sa.len() == 54 && sb.len() == 54);
        assert(spec_u32_be(a.initiator_account_id) =~= sa.subrange(2, 6));
        assert(spec_u32_be(b.initiator_account_id) =~= sb.subrange(2, 6));
        lemma_u32_be_injective(a.initiator_account_id, b.initiator_account_id);
        assert(a.target.spec_bytes() =~= sa.subrange(6, 26));
        assert(b.target.spec_bytes() =~= sb.subrange(6, 26));
        Address::lemma_bytes_injective(a.target, b.target);
        assert(spec_u32_be(a.token) =~= sa.subrange(26, 30));
        assert(spec_u32_be(b.token) =~= sb.subrange(26, 30));
        lemma_u32_be_injective(a.token, b.token);
        assert(spec_packed_fee_bytes(a.fee.spec_value()) =~= sa.subrange(30, 32));
        assert(spec_packed_fee_bytes(b.fee.spec_value()) =~= sb.subrange(30, 32));
        lemma_fee_amount_round_trip(a.fee.spec_value());
        lemma_fee_amount_round_trip(b.fee.spec_value());
        assert(a.fee.spec_value() == b.fee.spec_value());
        assert(spec_u16_be(a.group) =~= sa.subrange(32, 34));
        assert(spec_u16_be(b.group) =~= sb.subrange(32, 34));
        lemma_u16_be_injective(a.group, b.group);
        assert(spec_u32_be(a.nonce) =~= sa.subrange(34, 38));
        assert(spec_u32_be(b.nonce) =~= sb.subrange(34, 38));
        lemma_u32_be_injective(a.nonce, b.nonce);
        assert(spec_u64_be(a.spec_time_range_or_default().valid_from) =~= sa.subrange(38, 46));
        assert(spec_u64_be(b.spec_time_range_or_default().valid_from) =~= sb.subrange(38, 46));
        lemma_u64_be_injective(
            a.spec_time_range_or_default().valid_from,
            b.spec_time_range_or_default().valid_from,
        );
        assert(spec_u64_be(a.spec_time_range_or_default().valid_until) =~= sa.subrange(46, 54));
        assert(spec_u64_be(b.spec_time_range_or_default().valid_until) =~= sb.subrange(46, 54));
        lemma_u64_be_injective(
            a.spec_time_range_or_default().valid_until,
            b.spec_time_range_or_default().valid_until,
        );
    }

    /// The action line of the message a base-chain key signs for this
    /// forced exit, without the trailing nonce line.
    pub open spec fn spec_sign_message_part(self, token_symbol: Seq<char>, decimals: u8) -> Seq<
        char,
    > {
        let head = "ForcedExit "@ + token_symbol + " to: "@ + "0x"@ + spec_hex(
            self.target.spec_bytes(),
        ) + " in group: "@ + spec_dec(self.group as nat);
        if !self.fee.spec_is_zero() {
            head + "\n"@ + "Fee: "@ + spec_format_units(
                self.fee.spec_value() as nat,
                decimals as nat,
            ) + " "@ + token_symbol
        } else {
            head
        }
    }

    /// The full message a base-chain key signs: the action line plus the
    /// trailing nonce line.
    pub open spec fn spec_sign_message(self, token_symbol: Seq<char>, decimals: u8) -> Seq<char> {
        self.spec_sign_message_part(token_symbol, decimals) + "\n"@ + "Nonce: "@ + spec_dec(
            self.nonce as nat,
        )
    }

    /// Builds the action line of the base-chain sign message.
    pub fn get_ethereum_sign_message_part(&self, token_symbol: &str, decimals: u8) -> (r: String)
        requires
            self.fee is Value,
            decimals <= 77,
        ensures
            r@ == self.spec_sign_message_part(token_symbol@, decimals),
    {
        let mut message = String::new();
        let fee = match self.fee {
            Amount::Value(v) => v,
            Amount::Oversize => vstd::pervasive::unreached(),
        };
        message.append("ForcedExit ");
        message.append(token_symbol);
        message.append(" to: ");
        push_address_hex(&mut message, &self.target);
        message.append(" in group: ");
        push_dec_u16(&mut message, self.group);
        if fee != 0 {
            message.append("\n");
            message.append("Fee: ");
            push_units(&mut message, fee, decimals);
            message.append(" ");
            message.append(token_symbol);
        }
        proof {
            assert(message@ =~= self.spec_sign_message_part(token_symbol@, decimals));
        }
        message
    }

    /// Builds the full message a base-chain key signs for two-factor
    /// authentication of this forced exit.
    pub fn get_ethereum_sign_message(&self, token_symbol: &str, decimals: u8) -> (r: String)
        requires
            self.fee is Value,
            decimals <= 77,
        ensures
            r@ == self.spec_sign_message(token_symbol@, decimals),
    {
        let mut message = self.get_ethereum_sign_message_part(token_symbol, decimals);
        message.append("\n");
        message.append("Nonce: ");
        push_dec_u32(&mut message, self.nonce);
        proof {
            assert(message@ =~= self.spec_sign_message(token_symbol@, decimals));
        }
        message
    }
}

} // verus!

//! The group-change transaction kind: a withdrawal of funds from an account
//! in the operator's group to an address registered in another group.

use vstd::prelude::*;

use crate::codec::{
    is_fee_amount_packable, lemma_fee_amount_round_trip, pack_fee_amount, spec_max_encodable,
    spec_packable, spec_packed_fee_bytes, FEE_MAX_MANTISSA,
};
use crate::primitives::{
    lemma_u128_be_injective, lemma_u16_be_injective, lemma_u32_be_injective,
    lemma_u64_be_injective, push_u128_be, push_u16_be, push_u32_be, spec_u128_be, spec_u16_be,
    spec_u32_be, spec_u64_be, Address,
};
use crate::signature::{RecoveredSigner, TxSignature, VerifiedSignatureCache};
use crate::text::{
    push_address_hex, push_dec_u16, push_dec_u32, push_units, spec_dec, spec_format_units,
    spec_hex,
};
use crate::time_range::TimeRange;
use crate::{Amount, ServerConfig, MAX_ACCOUNT_ID, MAX_FUNGIBLE_TOKEN_ID, MAX_PROCESSABLE_TOKEN};

verus! {

/// Type tag of the group-change kind in canonical encodings.
pub const CHANGE_GROUP_TX_TYPE: u8 = 12;

/// Why a group change fails its correctness check.
#[derive(Clone, Copy, PartialEq, Eq, Structural, Debug)]
pub enum TransactionError {
    WrongAmount,
    AmountNotPackable,
    WrongFee,
    FeeNotPackable,
    WrongAccountId,
    WrongToken,
    WrongTimeRange,
    WrongSignature,
    WrongTokenForPayingFee,
    WrongGroup,
}

impl TransactionError {
    pub open spec fn spec_message(self) -> Seq<char> {
        match self {
            TransactionError::WrongAmount => "Transaction amount is out of range"@,
            TransactionError::AmountNotPackable => "Transaction amount is not packable"@,
            TransactionError::WrongFee => "Transaction fee is out of range"@,
            TransactionError::FeeNotPackable => "Transaction fee is not packable"@,
            TransactionError::WrongAccountId => "Account id is out of range"@,
            TransactionError::WrongToken => "Token id is out of range"@,
            TransactionError::WrongTimeRange => "Transaction validity window is malformed"@,
            TransactionError::WrongSignature => "Native signature is incorrect"@,
            TransactionError::WrongTokenForPayingFee => "Fees cannot be paid in this token"@,
            TransactionError::WrongGroup => "Transaction group does not match this operator"@,
        }
    }

    /// A human-readable rendering of the error.
    pub fn message(&self) -> (r: String)
        ensures
            r@ == self.spec_message(),
    {
        match self {
            TransactionError::WrongAmount => String::from_str("Transaction amount is out of range"),
            TransactionError::AmountNotPackable => String::from_str(
                "Transaction amount is not packable",
            ),
            TransactionError::WrongFee => String::from_str("Transaction fee is out of range"),
            TransactionError::FeeNotPackable => String::from_str(
                "Transaction fee is not packable",
            ),
            TransactionError::WrongAccountId => String::from_str("Account id is out of range"),
            TransactionError::WrongToken => String::from_str("Token id is out of range"),
            TransactionError::WrongTimeRange => String::from_str(
                "Transaction validity window is malformed",
            ),
            TransactionError::WrongSignature => String::from_str("Native signature is incorrect"),
            TransactionError::WrongTokenForPayingFee => String::from_str(
                "Fees cannot be paid in this token",
            ),
            TransactionError::WrongGroup => String::from_str(
                "Transaction group does not match this operator",
            ),
        }
    }
}

/// A withdrawal of funds from a `group1` account to a `group2` address.  The
/// canonical encoding carries the amount unpacked, so only the fee must be
/// packable.
#[derive(Clone, PartialEq, Eq, Debug)]
pub struct ChangeGroup {
    /// Account id of the transaction initiator.
    pub account_id: u32,
    /// Address the funds move from.
    pub from: Address,
    /// Destination address in the other group.
    pub to: Address,
    /// Withdrawn token; the fee is paid in it too.
    pub token: u32,
    /// Amount of funds to withdraw.
    pub amount: Amount,
    /// Fee for the transaction.
    pub fee: Amount,
    /// Group the funds leave.
    pub group1: u16,
    /// Group the funds enter.
    pub group2: u16,
    /// The initiator's current nonce.
    pub nonce: u32,
    /// Rollup-native signature over the canonical bytes.
    pub signature: TxSignature,
    /// Memoized signer recovery.  An optimization only: coherent values
    /// (see `spec_cache_coherent`) never change what any check decides.
    pub cached_signer: VerifiedSignatureCache,
    /// Set by the operator alone to ask the block builder for a fast block;
    /// requests arriving with it set are rejected upstream.
    pub fast: bool,
    /// Validity window; absent on transactions from before the window was
    /// introduced.
    pub time_range: Option<TimeRange>,
}

impl ChangeGroup {
    /// All content fields agree; the memoization cache is allowed to differ.
    pub open spec fn spec_same_content(self, other: ChangeGroup) -> bool {
        self.account_id == other.account_id && self.from == other.from && self.to == other.to
            && self.token == other.token && self.amount == other.amount && self.fee == other.fee
            && self.group1 == other.group1 && self.group2 == other.group2 && self.nonce
            == other.nonce && self.fast == other.fast && self.time_range == other.time_range
            && self.signature == other.signature
    }

    /// The signer the transaction answers with: the memoized recovery when
    /// present, the signature's own recovery otherwise.
    pub open spec fn spec_effective_signer(self) -> Option<RecoveredSigner> {
        match self.cached_signer {
            VerifiedSignatureCache::Cached(c) => c,
            VerifiedSignatureCache::NotCached => self.signature.spec_recover(),
        }
    }

    /// The memoization slot never contradicts a cold recovery.
    pub open spec fn spec_cache_coherent(self) -> bool {
        self.spec_effective_signer() == self.signature.spec_recover()
    }

    /// Both quantities lie in the 128-bit range and the fee inside the
    /// codec's range, so the canonical bytes exist.
    pub open spec fn spec_encodable(self) -> bool {
        &&& self.amount is Value
        &&& self.fee is Value
        &&& self.fee.spec_value() as nat <= spec_max_encodable(FEE_MAX_MANTISSA as nat)
    }

    /// The canonical byte encoding: tag, then the fixed-width fields in
    /// layout order (the amount unpacked), then the validity window when one
    /// is present.
    pub open spec fn spec_bytes(self) -> Seq<u8>
        recommends
            self.spec_encodable(),
    {
        seq![(255 - CHANGE_GROUP_TX_TYPE) as u8] + spec_u32_be(self.account_id)
            + self.from.spec_bytes() + self.to.spec_bytes() + spec_u32_be(self.token)
            + spec_u128_be(self.amount.spec_value()) + spec_packed_fee_bytes(self.fee.spec_value())
            + spec_u16_be(self.group1) + spec_u16_be(self.group2) + spec_u32_be(self.nonce)
            + match self.time_range {
            Some(t) => t.spec_bytes(),
            None => Seq::<u8>::empty(),
        }
    }

    /// Creates a group change from all required fields.  A missing signature
    /// is replaced by the empty one, as when the state is restored from
    /// base-chain records.
    #[allow(clippy::too_many_arguments)]
    pub fn new(
        account_id: u32,
        from: Address,
        to: Address,
        token: u32,
        amount: Amount,
        fee: Amount,
        group1: u16,
        group2: u16,
        nonce: u32,
        time_range: TimeRange,
        signature: Option<TxSignature>,
    ) -> (r: ChangeGroup)
        ensures
            r.account_id == account_id,
            r.from == from,
            r.to == to,
            r.token == token,
            r.amount == amount,
            r.fee == fee,
            r.group1 == group1,
            r.group2 == group2,
            r.nonce == nonce,
            r.fast == false,
            r.time_range == Some(time_range),
            r.signature == match signature {
                Some(s) => s,
                None => TxSignature { recovered_signer: None },
            },
            r.spec_cache_coherent(),
    {
        match signature {
            Some(s) => ChangeGroup {
                account_id,
                from,
                to,
                token,
                amount,
                fee,
                group1,
                group2,
                nonce,
                signature: s,
                cached_signer: VerifiedSignatureCache::Cached(s.recover()),
                fast: false,
                time_range: Some(time_range),
            },
            None => ChangeGroup {
                account_id,
                from,
                to,
                token,
                amount,
                fee,
                group1,
                group2,
                nonce,
                signature: TxSignature { recovered_signer: None },
                cached_signer: VerifiedSignatureCache::NotCached,
                fast: false,
                time_range: Some(time_range),
            },
        }
    }

    /// The canonical byte encoding of this group change.
    pub fn get_bytes(&self) -> (r: Vec<u8>)
        requires
            self.spec_encodable(),
        ensures
            r@ == self.spec_bytes(),
    {
        let mut out: Vec<u8> = Vec::new();
        out.push(255 - CHANGE_GROUP_TX_TYPE);
        push_u32_be(&mut out, self.account_id);
        self.from.push_bytes(&mut out);
        self.to.push_bytes(&mut out);
        push_u32_be(&mut out, self.token);
        let amount = match self.amount {
            Amount::Value(v) => v,
            Amount::Oversize => vstd::pervasive::unreached(),
        };
        let fee = match self.fee {
            Amount::Value(v) => v,
            Amount::Oversize => vstd::pervasive::unreached(),
        };
        push_u128_be(&mut out, amount);
        let mut packed_fee = pack_fee_amount(fee);
        out.append(&mut packed_fee);
        push_u16_be(&mut out, self.group1);
        push_u16_be(&mut out, self.group2);
        push_u32_be(&mut out, self.nonce);
        if let Some(time_range) = &self.time_range {
            time_range.push_bytes(&mut out);
        }
        proof {
            assert(out@ =~= self.spec_bytes());
        }
        out
    }

    /// Restores the signer's key hash from the native signature, answering
    /// from the memoization slot when it is filled.
    pub fn verify_signature(&self) -> (r: Option<RecoveredSigner>)
        ensures
            r == self.spec_effective_signer(),
    {
        match &self.cached_signer {
            VerifiedSignatureCache::Cached(c) => *c,
            VerifiedSignatureCache::NotCached => self.signature.recover(),
        }
    }

    /// Empties the memoization slot, so the next recovery is computed cold.
    pub fn wipe_signer_cache(&mut self)
        ensures
            final(self).spec_same_content(*old(self)),
            final(self).spec_cache_coherent(),
    {
        self.cached_signer = VerifiedSignatureCache::NotCached;
    }

    /// What the ordered correctness checks decide for a group change with
    /// this content and this configuration.  The amount need not be
    /// packable: its canonical encoding is unpacked.
    pub open spec fn spec_check_correctness(self, config: ServerConfig) -> Result<
        (),
        TransactionError,
    > {
        if self.amount is Oversize {
            Err(TransactionError::WrongAmount)
        } else if self.fee is Oversize {
            Err(TransactionError::WrongFee)
        } else if !spec_packable(self.fee.spec_value() as nat, FEE_MAX_MANTISSA as nat) {
            Err(TransactionError::FeeNotPackable)
        } else if self.account_id > MAX_ACCOUNT_ID {
            Err(TransactionError::WrongAccountId)
        } else if self.token > MAX_FUNGIBLE_TOKEN_ID {
            Err(TransactionError::WrongToken)
        } else if self.group1 != config.group_id {
            Err(TransactionError::WrongGroup)
        } else if !(match self.time_range {
            Some(t) => t.spec_is_valid(),
            None => true,
        }) {
            Err(TransactionError::WrongTimeRange)
        } else if !self.fee.spec_is_zero() && self.token > MAX_PROCESSABLE_TOKEN {
            Err(TransactionError::WrongTokenForPayingFee)
        } else if self.spec_effective_signer() is None {
            Err(TransactionError::WrongSignature)
        } else {
            Ok(())
        }
    }

    /// Runs the ordered correctness checks: numeric bounds, fee packability,
    /// account range, fungible token range, group match, window consistency,
    /// the fee-token rule, and finally native-signature recovery.  The first
    /// failing check decides the error; content is never modified, only the
    /// recovery memo is filled.
    pub fn check_correctness(&mut self, config: &ServerConfig) -> (r: Result<
        (),
        TransactionError,
    >)
        ensures
            r == old(self).spec_check_correctness(*config),
            final(self).spec_same_content(*old(self)),
            final(self).spec_effective_signer() == old(self).spec_effective_signer(),
    {
        let _amount = match self.amount {
            Amount::Value(v) => v,
            Amount::Oversize => {
                return Err(TransactionError::WrongAmount);
            },
        };
        let fee = match self.fee {
            Amount::Value(v) => v,
            Amount::Oversize => {
                return Err(TransactionError::WrongFee);
            },
        };
        if !is_fee_amount_packable(fee) {
            return Err(TransactionError::FeeNotPackable);
        }
        if self.account_id > MAX_ACCOUNT_ID {
            return Err(TransactionError::WrongAccountId);
        }
        if self.token > MAX_FUNGIBLE_TOKEN_ID {
            return Err(TransactionError::WrongToken);
        }
        if self.group1 != config.group_id {
            return Err(TransactionError::WrongGroup);
        }
        let window_ok = match &self.time_range {
            Some(t) => t.check_correctness(),
            None => true,
        };
        if !window_ok {
            return Err(TransactionError::WrongTimeRange);
        }
        if fee != 0 && self.token > MAX_PROCESSABLE_TOKEN {
            return Err(TransactionError::WrongTokenForPayingFee);
        }
        let signer = self.verify_signature();
        self.cached_signer = VerifiedSignatureCache::Cached(signer);
        if signer.is_none() {
            return Err(TransactionError::WrongSignature);
        }
        Ok(())
    }

    /// Running the checks is idempotent: filling the recovery memo with the
    /// effective signer never changes what a later run decides.
    pub proof fn lemma_check_correctness_idempotent(
        tx1: ChangeGroup,
        tx2: ChangeGroup,
        config: ServerConfig,
    )
        requires
            tx1.spec_same_content(tx2),
            tx1.spec_effective_signer() == tx2.spec_effective_signer(),
        ensures
            tx1.spec_check_correctness(config) == tx2.spec_check_correctness(config),
    {
    }

    /// The canonical bytes are a pure function of the content fields, and
    /// for encodable transactions with packable fees they pin the content
    /// down.
    #[verifier::rlimit(60)]
    pub proof fn lemma_bytes_injective(a: ChangeGroup, b: ChangeGroup)
        requires
            a.spec_encodable(),
            b.spec_encodable(),
            spec_packable(a.fee.spec_value() as nat, FEE_MAX_MANTISSA as nat),
            spec_packable(b.fee.spec_value() as nat, FEE_MAX_MANTISSA as nat),
            a.spec_bytes() == b.spec_bytes(),
        ensures
            a.account_id == b.account_id,
            a.from == b.from,
            a.to == b.to,
            a.token == b.token,
            a.amount == b.amount,
            a.fee == b.fee,
            a.group1 == b.group1,
            a.group2 == b.group2,
            a.nonce == b.nonce,
            a.time_range == b.time_range,
    {
        let sa = a.spec_bytes();
        let sb = b.spec_bytes();
        assert(sa.len() == if a.time_range is Some {
            91int
        } else {
            75int
        });
        assert(sb.len() == if b.time_range is Some {
            91int
        } else {
            75int
        });
        assert(spec_u32_be(a.account_id) =~= sa.subrange(1, 5));
        assert(spec_u32_be(b.account_id) =~= sb.subrange(1, 5));
        lemma_u32_be_injective(a.account_id, b.account_id);
        assert(a.from.spec_bytes() =~= sa.subrange(5, 25));
        assert(b.from.spec_bytes() =~= sb.subrange(5, 25));
        Address::lemma_bytes_injective(a.from, b.from);
        assert(a.to.spec_bytes() =~= sa.subrange(25, 45));
        assert(b.to.spec_bytes() =~= sb.subrange(25, 45));
        Address::lemma_bytes_injective(a.to, b.to);
        assert(spec_u32_be(a.token) =~= sa.subrange(45, 49));
        assert(spec_u32_be(b.token) =~= sb.subrange(45, 49));
        lemma_u32_be_injective(a.token, b.token);
        assert(spec_u128_be(a.amount.spec_value()) =~= sa.subrange(49, 65));
        assert(spec_u128_be(b.amount.spec_value()) =~= sb.subrange(49, 65));
        lemma_u128_be_injective(a.amount.spec_value(), b.amount.spec_value());
        assert(spec_packed_fee_bytes(a.fee.spec_value()) =~= sa.subrange(65, 67));
        assert(spec_packed_fee_bytes(b.fee.spec_value()) =~= sb.subrange(65, 67));
        lemma_fee_amount_round_trip(a.fee.spec_value());
        lemma_fee_amount_round_trip(b.fee.spec_value());
        assert(a.fee.spec_value() == b.fee.spec_value());
        assert(spec_u16_be(a.group1) =~= sa.subrange(67, 69));
        assert(spec_u16_be(b.group1) =~= sb.subrange(67, 69));
        lemma_u16_be_injective(a.group1, b.group1);
        assert(spec_u16_be(a.group2) =~= sa.subrange(69, 71));
        assert(spec_u16_be(b.group2) =~= sb.subrange(69, 71));
        lemma_u16_be_injective(a.group2, b.group2);
        assert(spec_u32_be(a.nonce) =~= sa.subrange(71, 75));
        assert(spec_u32_be(b.nonce) =~= sb.subrange(71, 75));
        lemma_u32_be_injective(a.nonce, b.nonce);
        if a.time_range is Some && b.time_range is Some {
            let ta = a.time_range->Some_0;
            let tb = b.time_range->Some_0;
            assert(spec_u64_be(ta.valid_from) =~= sa.subrange(75, 83));
            assert(spec_u64_be(tb.valid_from) =~= sb.subrange(75, 83));
            lemma_u64_be_injective(ta.valid_from, tb.valid_from);
            assert(spec_u64_be(ta.valid_until) =~= sa.subrange(83, 91));
            assert(spec_u64_be(tb.valid_until) =~= sb.subrange(83, 91));
            lemma_u64_be_injective(ta.valid_until, tb.valid_until);
        }
    }

    /// The action line of the message a base-chain key signs for this group
    /// change, without the trailing nonce line.
    pub open spec fn spec_sign_message_part(self, token_symbol: Seq<char>, decimals: u8) -> Seq<
        char,
    > {
        let head = if !self.amount.spec_is_zero() {
            "ChangeGroup "@ + spec_format_units(self.amount.spec_value() as nat, decimals as nat)
                + " "@ + token_symbol + " to: "@ + "0x"@ + spec_hex(self.to.spec_bytes())
                + " from group: "@ + spec_dec(self.group1 as nat) + " to group: "@ + spec_dec(
                self.group2 as nat,
            )
        } else {
            Seq::<char>::empty()
        };
        if !self.fee.spec_is_zero() {
            (if head.len() > 0 {
                head + "\n"@
            } else {
                head
            }) + "Fee: "@ + spec_format_units(self.fee.spec_value() as nat, decimals as nat) + " "@
                + token_symbol
        } else {
            head
        }
    }

    /// The full message a base-chain key signs: the action line plus the
    /// trailing nonce line.
    pub open spec fn spec_sign_message(self, token_symbol: Seq<char>, decimals: u8) -> Seq<char> {
        let part = self.spec_sign_message_part(token_symbol, decimals);
        (if part.len() > 0 {
            part + "\n"@
        } else {
            part
        }) + "Nonce: "@ + spec_dec(self.nonce as nat)
    }

    /// Builds the action line of the base-chain sign message.
    pub fn get_ethereum_sign_message_part(&self, token_symbol: &str, decimals: u8) -> (r: String)
        requires
            self.amount is Value,
            self.fee is Value,
            decimals <= 77,
        ensures
            r@ == self.spec_sign_message_part(token_symbol@, decimals),
    {
        let mut message = String::new();
        let amount = match self.amount {
            Amount::Value(v) => v,
            Amount::Oversize => vstd::pervasive::unreached(),
        };
        let fee = match self.fee {
            Amount::Value(v) => v,
            Amount::Oversize => vstd::pervasive::unreached(),
        };
        if amount != 0 {
            message.append("ChangeGroup ");
            push_units(&mut message, amount, decimals);
            message.append(" ");
            message.append(token_symbol);
            message.append(" to: ");
            push_address_hex(&mut message, &self.to);
            message.append(" from group: ");
            push_dec_u16(&mut message, self.group1);
            message.append(" to group: ");
            push_dec_u16(&mut message, self.group2);
        }
        if fee != 0 {
            if !message.as_str().is_empty() {
                message.append("\n");
            }
            message.append("Fee: ");
            push_units(&mut message, fee, decimals);
            message.append(" ");
            message.append(token_symbol);
        }
        proof {
            assert(message@ =~= self.spec_sign_message_part(token_symbol@, decimals));
        }
        message
    }

    /// Builds the full message a base-chain key signs for two-factor
    /// authentication of this group change.
    pub fn get_ethereum_sign_message(&self, token_symbol: &str, decimals: u8) -> (r: String)
        requires
            self.amount is Value,
            self.fee is Value,
            decimals <= 77,
        ensures
            r@ == self.spec_sign_message(token_symbol@, decimals),
    {
        let mut message = self.get_ethereum_sign_message_part(token_symbol, decimals);
        if !message.as_str().is_empty() {
            message.append("\n");
        }
        message.append("Nonce: ");
        push_dec_u32(&mut message, self.nonce);
        proof {
            assert(message@ =~= self.spec_sign_message(token_symbol@, decimals));
        }
        message
    }
}

} // verus!

//! The NFT-withdrawal transaction kind: moves a minted token out to a
//! base-chain address, the fee paid in a fungible token.

use vstd::prelude::*;

use crate::codec::{
    is_fee_amount_packable, lemma_fee_amount_round_trip, pack_fee_amount, spec_max_encodable,
    spec_packable, spec_packed_fee_bytes, FEE_MAX_MANTISSA,
};
use crate::primitives::{
    lemma_u16_be_injective, lemma_u32_be_injective, lemma_u64_be_injective, push_u16_be,
    push_u32_be, spec_u16_be, spec_u32_be, spec_u64_be, Address,
};
use crate::signature::{RecoveredSigner, TxSignature, VerifiedSignatureCache};
use crate::text::{
    push_address_hex, push_dec_u16, push_dec_u32, push_units, spec_dec, spec_format_units,
    spec_hex,
};
use crate::time_range::TimeRange;
use crate::{
    Amount, ServerConfig, CURRENT_TX_VERSION, MAX_ACCOUNT_ID, MAX_FUNGIBLE_TOKEN_ID,
    MAX_PROCESSABLE_TOKEN, MAX_TOKEN_ID,
};

verus! {

/// Type tag of the NFT-withdrawal kind in canonical encodings.
pub const WITHDRAW_NFT_TX_TYPE: u8 = 10;

/// Why an NFT withdrawal fails its correctness check.
#[derive(Clone, Copy, PartialEq, Eq, Structural, Debug)]
pub enum TransactionError {
    WrongFee,
    FeeNotPackable,
    WrongAccountId,
    WrongToken,
    WrongFeeToken,
    WrongTimeRange,
    WrongSignature,
    WrongGroup,
}

impl TransactionError {
    pub open spec fn spec_message(self) -> Seq<char> {
        match self {
            TransactionError::WrongFee => "Transaction fee is out of range"@,
            TransactionError::FeeNotPackable => "Transaction fee is not packable"@,
            TransactionError::WrongAccountId => "Account id is out of range"@,
            TransactionError::WrongToken => "Token id is out of range"@,
            TransactionError::WrongFeeToken => "Fees cannot be paid in this token"@,
            TransactionError::WrongTimeRange => "Transaction validity window is malformed"@,
            TransactionError::WrongSignature => "Native signature is incorrect"@,
            TransactionError::WrongGroup => "Transaction group does not match this operator"@,
        }
    }

    /// A human-readable rendering of the error.
    pub fn message(&self) -> (r: String)
        ensures
            r@ == self.spec_message(),
    {
        match self {
            TransactionError::WrongFee => String::from_str("Transaction fee is out of range"),
            TransactionError::FeeNotPackable => String::from_str(
                "Transaction fee is not packable",
            ),
            TransactionError::WrongAccountId => String::from_str("Account id is out of range"),
            TransactionError::WrongToken => String::from_str("Token id is out of range"),
            TransactionError::WrongFeeToken => String::from_str(
                "Fees cannot be paid in this token",
            ),
            TransactionError::WrongTimeRange => String::from_str(
                "Transaction validity window is malformed",
            ),
            TransactionError::WrongSignature => String::from_str("Native signature is incorrect"),
            TransactionError::WrongGroup => String::from_str(
                "Transaction group does not match this operator",
            ),
        }
    }
}

/// Moves minted token `token` out to a base-chain address.
#[derive(Clone, PartialEq, Eq, Debug)]
pub struct WithdrawNFT {
    /// Account id of the transaction initiator.
    pub account_id: u32,
    /// Rollup account the token leaves.
    pub from: Address,
    /// Base-chain address the token goes to.
    pub to: Address,
    /// The minted token being withdrawn.
    pub token: u32,
    /// Fungible token the fee is paid in.
    pub fee_token: u32,
    /// Fee for the transaction.
    pub fee: Amount,
    /// Group the withdrawal occurs in.
    pub group: u16,
    /// The initiator's current nonce.
    pub nonce: u32,
    /// Set by the operator alone to ask the block builder for a fast block.
    pub fast: bool,
    /// Validity window.
    pub time_range: TimeRange,
    /// Rollup-native signature over the canonical bytes.
    pub signature: TxSignature,
    /// Memoized signer recovery.  An optimization only: coherent values
    /// (see `spec_cache_coherent`) never change what any check decides.
    pub cached_signer: VerifiedSignatureCache,
}

impl WithdrawNFT {
    /// All content fields agree; the memoization cache is allowed to differ.
    pub open spec fn spec_same_content(self, other: WithdrawNFT) -> bool {
        self.account_id == other.account_id && self.from == other.from && self.to == other.to
            && self.token == other.token && self.fee_token == other.fee_token && self.fee
            == other.fee && self.group == other.group && self.nonce == other.nonce && self.fast
            == other.fast && self.time_range == other.time_range && self.signature
            == other.signature
    }

    /// The signer the transaction answers with: the memoized recovery when
    /// present, the signature's own recovery otherwise.
    pub open spec fn spec_effective_signer(self) -> Option<RecoveredSigner> {
        match self.cached_signer {
            VerifiedSignatureCache::Cached(c) => c,
            VerifiedSignatureCache::NotCached => self.signature.spec_recover(),
        }
    }

    /// The memoization slot never contradicts a cold recovery.
    pub open spec fn spec_cache_coherent(self) -> bool {
        self.spec_effective_signer() == self.signature.spec_recover()
    }

    /// The fee lies in the 128-bit range and inside the codec's range, so
    /// the canonical bytes exist.
    pub open spec fn spec_encodable(self) -> bool {
        &&& self.fee is Value
        &&& self.fee.spec_value() as nat <= spec_max_encodable(FEE_MAX_MANTISSA as nat)
    }

    /// The canonical byte encoding: tag, version, then the fixed-width
    /// fields in layout order, then the validity window.
    pub open spec fn spec_bytes(self) -> Seq<u8>
        recommends
            self.spec_encodable(),
    {
        seq![(255 - WITHDRAW_NFT_TX_TYPE) as u8, CURRENT_TX_VERSION] + spec_u32_be(self.account_id)
            + self.from.spec_bytes() + self.to.spec_bytes() + spec_u32_be(self.token)
            + spec_u32_be(self.fee_token) + spec_packed_fee_bytes(self.fee.spec_value())
            + spec_u16_be(self.group) + spec_u32_be(self.nonce) + self.time_range.spec_bytes()
    }

    /// Creates an NFT withdrawal from all required fields.
    #[allow(clippy::too_many_arguments)]
    pub fn new(
        account_id: u32,
        from: Address,
        to: Address,
        token: u32,
        fee_token: u32,
        fee: Amount,
        group: u16,
        nonce: u32,
        time_range: TimeRange,
        signature: Option<TxSignature>,
    ) -> (r: WithdrawNFT)
        ensures
            r.account_id == account_id,
            r.from == from,
            r.to == to,
            r.token == token,
            r.fee_token == fee_token,
            r.fee == fee,
            r.group == group,
            r.nonce == nonce,
            r.fast == false,
            r.time_range == time_range,
            r.signature == match signature {
                Some(s) => s,
                None => TxSignature { recovered_signer: None },
            },
            r.spec_cache_coherent(),
    {
        match signature {
            Some(s) => WithdrawNFT {
                account_id,
                from,
                to,
                token,
                fee_token,
                fee,
                group,
                nonce,
                fast: false,
                time_range,
                signature: s,
                cached_signer: VerifiedSignatureCache::Cached(s.recover()),
            },
            None => WithdrawNFT {
                account_id,
                from,
                to,
                token,
                fee_token,
                fee,
                group,
                nonce,
                fast: false,
                time_range,
                signature: TxSignature { recovered_signer: None },
                cached_signer: VerifiedSignatureCache::NotCached,
            },
        }
    }

    /// The canonical byte encoding of this NFT withdrawal.
    pub fn get_bytes(&self) -> (r: Vec<u8>)
        requires
            self.spec_encodable(),
        ensures
            r@ == self.spec_bytes(),
    {
        let mut out: Vec<u8> = Vec::new();
        out.push(255 - WITHDRAW_NFT_TX_TYPE);
        out.push(CURRENT_TX_VERSION);
        push_u32_be(&mut out, self.account_id);
        self.from.push_bytes(&mut out);
        self.to.push_bytes(&mut out);
        push_u32_be(&mut out, self.token);
        push_u32_be(&mut out, self.fee_token);
        let fee = match self.fee {
            Amount::Value(v) => v,
            Amount::Oversize => vstd::pervasive::unreached(),
        };
        let mut packed_fee = pack_fee_amount(fee);
        out.append(&mut packed_fee);
        push_u16_be(&mut out, self.group);
        push_u32_be(&mut out, self.nonce);
        self.time_range.push_bytes(&mut out);
        proof {
            assert(out@ =~= self.spec_bytes());
        }
        out
    }

    /// Restores the signer's key hash from the native signature, answering
    /// from the memoization slot when it is filled.
    pub fn verify_signature(&self) -> (r: Option<RecoveredSigner>)
        ensures
            r == self.spec_effective_signer(),
    {
        match &self.cached_signer {
            VerifiedSignatureCache::Cached(c) => *c,
            VerifiedSignatureCache::NotCached => self.signature.recover(),
        }
    }

    /// Empties the memoization slot, so the next recovery is computed cold.
    pub fn wipe_signer_cache(&mut self)
        ensures
            final(self).spec_same_content(*old(self)),
            final(self).spec_cache_coherent(),
    {
        self.cached_signer = VerifiedSignatureCache::NotCached;
    }

    /// What the ordered correctness checks decide for an NFT withdrawal
    /// with this content and this configuration.  The withdrawn token must
    /// lie in the minted range, the fee token in the processable range.
    pub open spec fn spec_check_correctness(self, config: ServerConfig) -> Result<
        (),
        TransactionError,
    > {
        if self.fee is Oversize {
            Err(TransactionError::WrongFee)
        } else if !spec_packable(self.fee.spec_value() as nat, FEE_MAX_MANTISSA as nat) {
            Err(TransactionError::FeeNotPackable)
        } else if self.account_id > MAX_ACCOUNT_ID {
            Err(TransactionError::WrongAccountId)
        } else if self.group != config.group_id {
            Err(TransactionError::WrongGroup)
        } else if !(MAX_FUNGIBLE_TOKEN_ID < self.token && self.token <= MAX_TOKEN_ID) {
            Err(TransactionError::WrongToken)
        } else if !self.fee.spec_is_zero() && self.fee_token > MAX_PROCESSABLE_TOKEN {
            Err(TransactionError::WrongFeeToken)
        } else if !self.time_range.spec_is_valid() {
            Err(TransactionError::WrongTimeRange)
        } else if self.spec_effective_signer() is None {
            Err(TransactionError::WrongSignature)
        } else {
            Ok(())
        }
    }

    /// Runs the ordered correctness checks: fee bounds and packability,
    /// account range, group match, the minted-token range, the fee-token
    /// rule, window consistency, and finally native-signature recovery.
    /// The first failing check decides the error; content is never
    /// modified, only the recovery memo is filled.
    pub fn check_correctness(&mut self, config: &ServerConfig) -> (r: Result<
        (),
        TransactionError,
    >)
        ensures
            r == old(self).spec_check_correctness(*config),
            final(self).spec_same_content(*old(self)),
            final(self).spec_effective_signer() == old(self).spec_effective_signer(),
    {
        let fee = match self.fee {
            Amount::Value(v) => v,
            Amount::Oversize => {
                return Err(TransactionError::WrongFee);
            },
        };
        if !is_fee_amount_packable(fee) {
            return Err(TransactionError::FeeNotPackable);
        }
        if self.account_id > MAX_ACCOUNT_ID {
            return Err(TransactionError::WrongAccountId);
        }
        if self.group != config.group_id {
            return Err(TransactionError::WrongGroup);
        }
        if !(MAX_FUNGIBLE_TOKEN_ID < self.token && self.token <= MAX_TOKEN_ID) {
            return Err(TransactionError::WrongToken);
        }
        if fee != 0 && self.fee_token > MAX_PROCESSABLE_TOKEN {
            return Err(TransactionError::WrongFeeToken);
        }
        if !self.time_range.check_correctness() {
            return Err(TransactionError::WrongTimeRange);
        }
        let signer = self.verify_signature();
        self.cached_signer = VerifiedSignatureCache::Cached(signer);
        if signer.is_none() {
            return Err(TransactionError::WrongSignature);
        }
        Ok(())
    }

    /// Running the checks is idempotent: filling the recovery memo with the
    /// effective signer never changes what a later run decides.
    pub proof fn lemma_check_correctness_idempotent(
        tx1: WithdrawNFT,
        tx2: WithdrawNFT,
        config: ServerConfig,
    )
        requires
            tx1.spec_same_content(tx2),
            tx1.spec_effective_signer() == tx2.spec_effective_signer(),
        ensures
            tx1.spec_check_correctness(config) == tx2.spec_check_correctness(config),
    {
    }

    /// The canonical bytes are a pure function of the content fields, and
    /// for encodable NFT withdrawals with packable fees they pin the
    /// content down.
    #[verifier::rlimit(60)]
    pub proof fn lemma_bytes_injective(a: WithdrawNFT, b: WithdrawNFT)
        requires
            a.spec_encodable(),
            b.spec_encodable(),
            spec_packable(a.fee.spec_value() as nat, FEE_MAX_MANTISSA as nat),
            spec_packable(b.fee.spec_value() as nat, FEE_MAX_MANTISSA as nat),
            a.spec_bytes() == b.spec_bytes(),
        ensures
            a.account_id == b.account_id,
            a.from == b.from,
            a.to == b.to,
            a.token == b.token,
            a.fee_token == b.fee_token,
            a.fee == b.fee,
            a.group == b.group,
            a.nonce == b.nonce,
            a.time_range == b.time_range,
    {
        let sa = a.spec_bytes();
        let sb = b.spec_bytes();
        assert(sa.len() == 78 && sb.len() == 78);
        assert(spec_u32_be(a.account_id) =~= sa.subrange(2, 6));
        assert(spec_u32_be(b.account_id) =~= sb.subrange(2, 6));
        lemma_u32_be_injective(a.account_id, b.account_id);
        assert(a.from.spec_bytes() =~= sa.subrange(6, 26));
        assert(b.from.spec_bytes() =~= sb.subrange(6, 26));
        Address::lemma_bytes_injective(a.from, b.from);
        assert(a.to.spec_bytes() =~= sa.subrange(26, 46));
        assert(b.to.spec_bytes() =~= sb.subrange(26, 46));
        Address::lemma_bytes_injective(a.to, b.to);
        assert(spec_u32_be(a.token) =~= sa.subrange(46, 50));
        assert(spec_u32_be(b.token) =~= sb.subrange(46, 50));
        lemma_u32_be_injective(a.token, b.token);
        assert(spec_u32_be(a.fee_token) =~= sa.subrange(50, 54));
        assert(spec_u32_be(b.fee_token) =~= sb.subrange(50, 54));
        lemma_u32_be_injective(a.fee_token, b.fee_token);
        assert(spec_packed_fee_bytes(a.fee.spec_value()) =~= sa.subrange(54, 56));
        assert(spec_packed_fee_bytes(b.fee.spec_value()) =~= sb.subrange(54, 56));
        lemma_fee_amount_round_trip(a.fee.spec_value());
        lemma_fee_amount_round_trip(b.fee.spec_value());
        assert(a.fee.spec_value() == b.fee.spec_value());
        assert(spec_u16_be(a.group) =~= sa.subrange(56, 58));
        assert(spec_u16_be(b.group) =~= sb.subrange(56, 58));
        lemma_u16_be_injective(a.group, b.group);
        assert(spec_u32_be(a.nonce) =~= sa.subrange(58, 62));
        assert(spec_u32_be(b.nonce) =~= sb.subrange(58, 62));
        lemma_u32_be_injective(a.nonce, b.nonce);
        assert(spec_u64_be(a.time_range.valid_from) =~= sa.subrange(62, 70));
        assert(spec_u64_be(b.time_range.valid_from) =~= sb.subrange(62, 70));
        lemma_u64_be_injective(a.time_range.valid_from, b.time_range.valid_from);
        assert(spec_u64_be(a.time_range.valid_until) =~= sa.subrange(70, 78));
        assert(spec_u64_be(b.time_range.valid_until) =~= sb.subrange(70, 78));
        lemma_u64_be_injective(a.time_range.valid_until, b.time_range.valid_until);
    }

    /// The action line of the message a base-chain key signs for this NFT
    /// withdrawal, without the trailing nonce line.
    pub open spec fn spec_sign_message_part(self, token_symbol: Seq<char>, decimals: u8) -> Seq<
        char,
    > {
        let head = "WithdrawNFT "@ + spec_dec(self.token as nat) + " to: "@ + "0x"@ + spec_hex(
            self.to.spec_bytes(),
        ) + " in group: "@ + spec_dec(self.group as nat);
        if !self.fee.spec_is_zero() {
            head + "\n"@ + "Fee: "@ + spec_format_units(
                self.fee.spec_value() as nat,
                decimals as nat,
            ) + " "@ + token_symbol
        } else {
            head
        }
    }

    /// The full message a base-chain key signs: the action line plus the
    /// trailing nonce line.
    pub open spec fn spec_sign_message(self, token_symbol: Seq<char>, decimals: u8) -> Seq<char> {
        self.spec_sign_message_part(token_symbol, decimals) + "\n"@ + "Nonce: "@ + spec_dec(
            self.nonce as nat,
        )
    }

    /// Builds the action line of the base-chain sign message.
    pub fn get_ethereum_sign_message_part(&self, token_symbol: &str, decimals: u8) -> (r: String)
        requires
            self.fee is Value,
            decimals <= 77,
        ensures
            r@ == self.spec_sign_message_part(token_symbol@, decimals),
    {
        let mut message = String::new();
        let fee = match self.fee {
            Amount::Value(v) => v,
            Amount::Oversize => vstd::pervasive::unreached(),
        };
        message.append("WithdrawNFT ");
        push_dec_u32(&mut message, self.token);
        message.append(" to: ");
        push_address_hex(&mut message, &self.to);
        message.append(" in group: ");
        push_dec_u16(&mut message, self.group);
        if fee != 0 {
            message.append("\n");
            message.append("Fee: ");
            push_units(&mut message, fee, decimals);
            message.append(" ");
            message.append(token_symbol);
        }
        proof {
            assert(message@ =~= self.spec_sign_message_part(token_symbol@, decimals));
        }
        message
    }

    /// Builds the full message a base-chain key signs for two-factor
    /// authentication of this NFT withdrawal.
    pub fn get_ethereum_sign_message(&self, token_symbol: &str, decimals: u8) -> (r: String)
        requires
            self.fee is Value,
            decimals <= 77,
        ensures
            r@ == self.spec_sign_message(token_symbol@, decimals),
    {
        let mut message = self.get_ethereum_sign_message_part(token_symbol, decimals);
        message.append("\n");
        message.append("Nonce: ");
        push_dec_u32(&mut message, self.nonce);
        proof {
            assert(message@ =~= self.spec_sign_message(token_symbol@, decimals));
        }
        message
    }
}

} // verus!

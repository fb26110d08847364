//! The value-transfer transaction kind: a move of funds between two rollup
//! accounts.

use vstd::prelude::*;

use crate::codec::{
    is_fee_amount_packable, is_token_amount_packable, lemma_fee_amount_round_trip,
    lemma_token_amount_round_trip, pack_fee_amount, pack_token_amount, spec_max_encodable,
    spec_packable, spec_packed_fee_bytes, spec_packed_token_bytes, spec_unpack_token_bytes,
    AMOUNT_MAX_MANTISSA, FEE_MAX_MANTISSA,
};
use crate::primitives::{
    lemma_u16_be_injective, lemma_u32_be_injective, lemma_u64_be_injective, push_u16_be,
    push_u32_be, spec_u16_be, spec_u32_be, spec_u64_be, Address, PubKeyHash,
};
use crate::signature::{RecoveredSigner, TxSignature, VerifiedSignatureCache};
use crate::text::{push_address_hex, push_dec_u16, push_dec_u32, push_units, spec_dec, spec_format_units, spec_hex};
use crate::time_range::TimeRange;
use crate::{
    Amount, ServerConfig, CURRENT_TX_VERSION, MAX_ACCOUNT_ID, MAX_PROCESSABLE_TOKEN, MAX_TOKEN_ID,
};

verus! {

/// Type tag of the transfer kind in canonical encodings.
pub const TRANSFER_TX_TYPE: u8 = 5;

/// Why a transfer fails its correctness check.
#[derive(Clone, Copy, PartialEq, Eq, Structural, Debug)]
pub enum TransactionError {
    WrongAmount,
    AmountNotPackable,
    WrongFee,
    FeeNotPackable,
    WrongAccountId,
    WrongToken,
    WrongTimeRange,
    WrongSignature,
    WrongToAddress,
    WrongTokenForPayingFee,
    WrongGroup,
    NotAllowedSender,
    NotAllowedDestination,
}

impl TransactionError {
    pub open spec fn spec_message(self) -> Seq<char> {
        match self {
            TransactionError::WrongAmount => "Transaction amount is out of range"@,
            TransactionError::AmountNotPackable => "Transaction amount is not packable"@,
            TransactionError::WrongFee => "Transaction fee is out of range"@,
            TransactionError::FeeNotPackable => "Transaction fee is not packable"@,
            TransactionError::WrongAccountId => "Account id is out of range"@,
            TransactionError::WrongToken => "Token id is out of range"@,
            TransactionError::WrongTimeRange => "Transaction validity window is malformed"@,
            TransactionError::WrongSignature => "Native signature is incorrect"@,
            TransactionError::WrongToAddress => "Transfer recipient must not be the zero address"@,
            TransactionError::WrongTokenForPayingFee => "Fees cannot be paid in this token"@,
            TransactionError::WrongGroup => "Transaction group does not match this operator"@,
            TransactionError::NotAllowedSender => "Sender is not whitelisted"@,
            TransactionError::NotAllowedDestination => "Receiver is not whitelisted"@,
        }
    }

    /// A human-readable rendering of the error.
    pub fn message(&self) -> (r: String)
        ensures
            r@ == self.spec_message(),
    {
        match self {
            TransactionError::WrongAmount => String::from_str("Transaction amount is out of range"),
            TransactionError::AmountNotPackable => String::from_str(
                "Transaction amount is not packable",
            ),
            TransactionError::WrongFee => String::from_str("Transaction fee is out of range"),
            TransactionError::FeeNotPackable => String::from_str(
                "Transaction fee is not packable",
            ),
            TransactionError::WrongAccountId => String::from_str("Account id is out of range"),
            TransactionError::WrongToken => String::from_str("Token id is out of range"),
            TransactionError::WrongTimeRange => String::from_str(
                "Transaction validity window is malformed",
            ),
            TransactionError::WrongSignature => String::from_str("Native signature is incorrect"),
            TransactionError::WrongToAddress => String::from_str(
                "Transfer recipient must not be the zero address",
            ),
            TransactionError::WrongTokenForPayingFee => String::from_str(
                "Fees cannot be paid in this token",
            ),
            TransactionError::WrongGroup => String::from_str(
                "Transaction group does not match this operator",
            ),
            TransactionError::NotAllowedSender => String::from_str("Sender is not whitelisted"),
            TransactionError::NotAllowedDestination => String::from_str(
                "Receiver is not whitelisted",
            ),
        }
    }
}

/// A move of funds from one rollup account to another, with the fee paid in
/// the transferred token.
#[derive(Clone, PartialEq, Eq, Debug)]
pub struct Transfer {
    /// Account id of the transaction initiator.
    pub account_id: u32,
    /// Address the funds move from.
    pub from: Address,
    /// Address the funds move to.
    pub to: Address,
    /// Transferred token; the fee is paid in it too.
    pub token: u32,
    /// Amount of funds to transfer.
    pub amount: Amount,
    /// Fee for the transaction.
    pub fee: Amount,
    /// Group the transfer occurs in.
    pub group: u16,
    /// The initiator's current nonce.
    pub nonce: u32,
    /// Validity window; absent on transactions from before the window was
    /// introduced.
    pub time_range: Option<TimeRange>,
    /// Rollup-native signature over the canonical bytes.
    pub signature: TxSignature,
    /// Memoized signer recovery.  An optimization only: coherent values
    /// (see `spec_cache_coherent`) never change what any check decides.
    pub cached_signer: VerifiedSignatureCache,
}

impl Transfer {
    /// All content fields agree; the memoization cache is allowed to differ.
    pub open spec fn spec_same_content(self, other: Transfer) -> bool {
        self.account_id == other.account_id && self.from == other.from && self.to == other.to
            && self.token == other.token && self.amount == other.amount && self.fee == other.fee
            && self.group == other.group && self.nonce == other.nonce && self.time_range
            == other.time_range && self.signature == other.signature
    }

    /// The signer the transaction answers with: the memoized recovery when
    /// present, the signature's own recovery otherwise.
    pub open spec fn spec_effective_signer(self) -> Option<RecoveredSigner> {
        match self.cached_signer {
            VerifiedSignatureCache::Cached(c) => c,
            VerifiedSignatureCache::NotCached => self.signature.spec_recover(),
        }
    }

    /// The memoization slot never contradicts a cold recovery.
    pub open spec fn spec_cache_coherent(self) -> bool {
        self.spec_effective_signer() == self.signature.spec_recover()
    }

    /// Both quantities lie in the 128-bit range and the fee inside the
    /// codec's range, so the canonical bytes exist.
    pub open spec fn spec_encodable(self) -> bool {
        &&& self.amount is Value
        &&& self.fee is Value
        &&& self.fee.spec_value() as nat <= spec_max_encodable(FEE_MAX_MANTISSA as nat)
    }

    pub open spec fn spec_time_range_or_default(self) -> TimeRange {
        match self.time_range {
            Some(t) => t,
            None => TimeRange { valid_from: 0, valid_until: u64::MAX },
        }
    }

    /// The canonical byte encoding, used both for signing and for hashing:
    /// tag, version, then the fixed-width fields in layout order, then the
    /// validity window.
    pub open spec fn spec_bytes(self) -> Seq<u8>
        recommends
            self.spec_encodable(),
    {
        seq![(255 - TRANSFER_TX_TYPE) as u8, CURRENT_TX_VERSION] + spec_u32_be(self.account_id)
            + self.from.spec_bytes() + self.to.spec_bytes() + spec_u32_be(self.token)
            + spec_packed_token_bytes(self.amount.spec_value()) + spec_packed_fee_bytes(
            self.fee.spec_value(),
        ) + spec_u16_be(self.group) + spec_u32_be(self.nonce)
            + self.spec_time_range_or_default().spec_bytes()
    }

    /// Creates a transfer from all required fields.  A missing signature is
    /// replaced by the empty one, as when the state is restored from
    /// base-chain records.
    #[allow(clippy::too_many_arguments)]
    pub fn new(
        account_id: u32,
        from: Address,
        to: Address,
        token: u32,
        amount: Amount,
        fee: Amount,
        group: u16,
        nonce: u32,
        time_range: TimeRange,
        signature: Option<TxSignature>,
    ) -> (r: Transfer)
        ensures
            r.account_id == account_id,
            r.from == from,
            r.to == to,
            r.token == token,
            r.amount == amount,
            r.fee == fee,
            r.group == group,
            r.nonce == nonce,
            r.time_range == Some(time_range),
            r.signature == match signature {
                Some(s) => s,
                None => TxSignature { recovered_signer: None },
            },
            r.spec_cache_coherent(),
    {
        match signature {
            Some(s) => Transfer {
                account_id,
                from,
                to,
                token,
                amount,
                fee,
                group,
                nonce,
                time_range: Some(time_range),
                signature: s,
                cached_signer: VerifiedSignatureCache::Cached(s.recover()),
            },
            None => Transfer {
                account_id,
                from,
                to,
                token,
                amount,
                fee,
                group,
                nonce,
                time_range: Some(time_range),
                signature: TxSignature { recovered_signer: None },
                cached_signer: VerifiedSignatureCache::NotCached,
            },
        }
    }

    /// The canonical byte encoding of this transfer.
    pub fn get_bytes(&self) -> (r: Vec<u8>)
        requires
            self.spec_encodable(),
        ensures
            r@ == self.spec_bytes(),
    {
        let mut out: Vec<u8> = Vec::new();
        out.push(255 - TRANSFER_TX_TYPE);
        out.push(CURRENT_TX_VERSION);
        push_u32_be(&mut out, self.account_id);
        self.from.push_bytes(&mut out);
        self.to.push_bytes(&mut out);
        push_u32_be(&mut out, self.token);
        let amount = match self.amount {
            Amount::Value(v) => v,
            Amount::Oversize => vstd::pervasive::unreached(),
        };
        let fee = match self.fee {
            Amount::Value(v) => v,
            Amount::Oversize => vstd::pervasive::unreached(),
        };
        let mut packed = pack_token_amount(amount);
        out.append(&mut packed);
        let mut packed_fee = pack_fee_amount(fee);
        out.append(&mut packed_fee);
        push_u16_be(&mut out, self.group);
        push_u32_be(&mut out, self.nonce);
        let time_range = match self.time_range {
            Some(t) => t,
            None => TimeRange::default(),
        };
        time_range.push_bytes(&mut out);
        proof {
            assert(out@ =~= self.spec_bytes());
        }
        out
    }

    /// Restores the signer's key hash from the native signature, answering
    /// from the memoization slot when it is filled.
    pub fn verify_signature(&self) -> (r: Option<RecoveredSigner>)
        ensures
            r == self.spec_effective_signer(),
    {
        match &self.cached_signer {
            VerifiedSignatureCache::Cached(c) => *c,
            VerifiedSignatureCache::NotCached => self.signature.recover(),
        }
    }

    /// Empties the memoization slot, so the next recovery is computed cold.
    pub fn wipe_signer_cache(&mut self)
        ensures
            final(self).spec_same_content(*old(self)),
            final(self).spec_cache_coherent(),
    {
        self.cached_signer = VerifiedSignatureCache::NotCached;
    }

    /// What the ordered correctness checks decide for a transfer with this
    /// content, these authorization flags and this configuration.
    pub open spec fn spec_check_correctness(
        self,
        sender_authorized: bool,
        receiver_authorized: bool,
        config: ServerConfig,
    ) -> Result<(), TransactionError> {
        if config.permissioned && !sender_authorized {
            Err(TransactionError::NotAllowedSender)
        } else if config.permissioned && !receiver_authorized {
            Err(TransactionError::NotAllowedDestination)
        } else if self.amount is Oversize {
            Err(TransactionError::WrongAmount)
        } else if self.fee is Oversize {
            Err(TransactionError::WrongFee)
        } else if !spec_packable(self.amount.spec_value() as nat, AMOUNT_MAX_MANTISSA as nat) {
            Err(TransactionError::AmountNotPackable)
        } else if !spec_packable(self.fee.spec_value() as nat, FEE_MAX_MANTISSA as nat) {
            Err(TransactionError::FeeNotPackable)
        } else if self.account_id > MAX_ACCOUNT_ID {
            Err(TransactionError::WrongAccountId)
        } else if self.group != config.group_id {
            Err(TransactionError::WrongGroup)
        } else if self.token > MAX_TOKEN_ID {
            Err(TransactionError::WrongToken)
        } else if self.to.spec_is_zero() {
            Err(TransactionError::WrongToAddress)
        } else if !(match self.time_range {
            Some(t) => t.spec_is_valid(),
            None => true,
        }) {
            Err(TransactionError::WrongTimeRange)
        } else if !self.fee.spec_is_zero() && self.token > MAX_PROCESSABLE_TOKEN {
            Err(TransactionError::WrongTokenForPayingFee)
        } else if self.spec_effective_signer() is None {
            Err(TransactionError::WrongSignature)
        } else {
            Ok(())
        }
    }

    /// Runs the ordered correctness checks: whitelist flags under
    /// permissioned mode, numeric bounds, packability, account and token
    /// ranges, group match, non-zero destination, window consistency, the
    /// fee-token rule, and finally native-signature recovery.  The first
    /// failing check decides the error; content is never modified, only the
    /// recovery memo is filled.
    pub fn check_correctness(
        &mut self,
        sender_authorized: bool,
        receiver_authorized: bool,
        config: &ServerConfig,
    ) -> (r: Result<(), TransactionError>)
        ensures
            r == old(self).spec_check_correctness(sender_authorized, receiver_authorized, *config),
            final(self).spec_same_content(*old(self)),
            final(self).spec_effective_signer() == old(self).spec_effective_signer(),
    {
        if config.permissioned {
            if !sender_authorized {
                return Err(TransactionError::NotAllowedSender);
            }
            if !receiver_authorized {
                return Err(TransactionError::NotAllowedDestination);
            }
        }
        let amount = match self.amount {
            Amount::Value(v) => v,
            Amount::Oversize => {
                return Err(TransactionError::WrongAmount);
            },
        };
        let fee = match self.fee {
            Amount::Value(v) => v,
            Amount::Oversize => {
                return Err(TransactionError::WrongFee);
            },
        };
        if !is_token_amount_packable(amount) {
            return Err(TransactionError::AmountNotPackable);
        }
        if !is_fee_amount_packable(fee) {
            return Err(TransactionError::FeeNotPackable);
        }
        if self.account_id > MAX_ACCOUNT_ID {
            return Err(TransactionError::WrongAccountId);
        }
        if self.group != config.group_id {
            return Err(TransactionError::WrongGroup);
        }
        if self.token > MAX_TOKEN_ID {
            return Err(TransactionError::WrongToken);
        }
        if self.to.is_zero() {
            return Err(TransactionError::WrongToAddress);
        }
        let window_ok = match &self.time_range {
            Some(t) => t.check_correctness(),
            None => true,
        };
        if !window_ok {
            return Err(TransactionError::WrongTimeRange);
        }
        if fee != 0 && self.token > MAX_PROCESSABLE_TOKEN {
            return Err(TransactionError::WrongTokenForPayingFee);
        }
        let signer = self.verify_signature();
        self.cached_signer = VerifiedSignatureCache::Cached(signer);
        if signer.is_none() {
            return Err(TransactionError::WrongSignature);
        }
        Ok(())
    }

    /// Running the checks is idempotent: filling the recovery memo with the
    /// effective signer never changes what a later run decides.
    pub proof fn lemma_check_correctness_idempotent(
        tx1: Transfer,
        tx2: Transfer,
        sender_authorized: bool,
        receiver_authorized: bool,
        config: ServerConfig,
    )
        requires
            tx1.spec_same_content(tx2),
            tx1.spec_effective_signer() == tx2.spec_effective_signer(),
        ensures
            tx1.spec_check_correctness(sender_authorized, receiver_authorized, config)
                == tx2.spec_check_correctness(sender_authorized, receiver_authorized, config),
    {
    }

    /// The canonical bytes are a pure function of the content fields, and
    /// for encodable, packable transactions they pin the content down: two
    /// transfers with the same bytes agree on every content field the
    /// encoding covers.
    pub proof fn lemma_bytes_injective(a: Transfer, b: Transfer)
        requires
            a.spec_encodable(),
            b.spec_encodable(),
            spec_packable(a.amount.spec_value() as nat, AMOUNT_MAX_MANTISSA as nat),
            spec_packable(b.amount.spec_value() as nat, AMOUNT_MAX_MANTISSA as nat),
            spec_packable(a.fee.spec_value() as nat, FEE_MAX_MANTISSA as nat),
            spec_packable(b.fee.spec_value() as nat, FEE_MAX_MANTISSA as nat),
            a.spec_bytes() == b.spec_bytes(),
        ensures
            a.account_id == b.account_id,
            a.from == b.from,
            a.to == b.to,
            a.token == b.token,
            a.amount == b.amount,
            a.fee == b.fee,
            a.group == b.group,
            a.nonce == b.nonce,
            a.spec_time_range_or_default() == b.spec_time_range_or_default(),
    {
        let sa = a.spec_bytes();
        let sb = b.spec_bytes();
        assert(sa.len() == 79 && sb.len() == 79);
        assert(spec_u32_be(a.account_id) =~= sa.subrange(2, 6));
        assert(spec_u32_be(b.account_id) =~= sb.subrange(2, 6));
        lemma_u32_be_injective(a.account_id, b.account_id);
        assert(a.from.spec_bytes() =~= sa.subrange(6, 26));
        assert(b.from.spec_bytes() =~= sb.subrange(6, 26));
        Address::lemma_bytes_injective(a.from, b.from);
        assert(a.to.spec_bytes() =~= sa.subrange(26, 46));
        assert(b.to.spec_bytes() =~= sb.subrange(26, 46));
        Address::lemma_bytes_injective(a.to, b.to);
        assert(spec_u32_be(a.token) =~= sa.subrange(46, 50));
        assert(spec_u32_be(b.token) =~= sb.subrange(46, 50));
        lemma_u32_be_injective(a.token, b.token);
        assert(spec_packed_token_bytes(a.amount.spec_value()) =~= sa.subrange(50, 55));
        assert(spec_packed_token_bytes(b.amount.spec_value()) =~= sb.subrange(50, 55));
        lemma_token_amount_round_trip(a.amount.spec_value());
        lemma_token_amount_round_trip(b.amount.spec_value());
        assert(spec_unpack_token_bytes(spec_packed_token_bytes(a.amount.spec_value()))
            == spec_unpack_token_bytes(spec_packed_token_bytes(b.amount.spec_value())));
        assert(a.amount.spec_value() == b.amount.spec_value());
        assert(spec_packed_fee_bytes(a.fee.spec_value()) =~= sa.subrange(55, 57));
        assert(spec_packed_fee_bytes(b.fee.spec_value()) =~= sb.subrange(55, 57));
        lemma_fee_amount_round_trip(a.fee.spec_value());
        lemma_fee_amount_round_trip(b.fee.spec_value());
        assert(a.fee.spec_value() == b.fee.spec_value());
        assert(spec_u16_be(a.group) =~= sa.subrange(57, 59));
        assert(spec_u16_be(b.group) =~= sb.subrange(57, 59));
        lemma_u16_be_injective(a.group, b.group);
        assert(spec_u32_be(a.nonce) =~= sa.subrange(59, 63));
        assert(spec_u32_be(b.nonce) =~= sb.subrange(59, 63));
        lemma_u32_be_injective(a.nonce, b.nonce);
        assert(spec_u64_be(a.spec_time_range_or_default().valid_from) =~= sa.subrange(63, 71));
        assert(spec_u64_be(b.spec_time_range_or_default().valid_from) =~= sb.subrange(63, 71));
        lemma_u64_be_injective(
            a.spec_time_range_or_default().valid_from,
            b.spec_time_range_or_default().valid_from,
        );
        assert(spec_u64_be(a.spec_time_range_or_default().valid_until) =~= sa.subrange(71, 79));
        assert(spec_u64_be(b.spec_time_range_or_default().valid_until) =~= sb.subrange(71, 79));
        lemma_u64_be_injective(
            a.spec_time_range_or_default().valid_until,
            b.spec_time_range_or_default().valid_until,
        );
    }

    /// The action line of the message a base-chain key signs for this
    /// transfer, without the trailing nonce line (a batch appends one nonce
    /// line for the whole batch).
    pub open spec fn spec_sign_message_part(self, token_symbol: Seq<char>, decimals: u8) -> Seq<
        char,
    > {
        let head = if !self.amount.spec_is_zero() {
            "Transfer "@ + spec_format_units(self.amount.spec_value() as nat, decimals as nat)
                + " "@ + token_symbol + " to: "@ + "0x"@ + spec_hex(self.to.spec_bytes())
                + " in group: "@ + spec_dec(self.group as nat)
        } else {
            Seq::<char>::empty()
        };
        if !self.fee.spec_is_zero() {
            (if head.len() > 0 {
                head + "\n"@
            } else {
                head
            }) + "Fee: "@ + spec_format_units(self.fee.spec_value() as nat, decimals as nat) + " "@
                + token_symbol
        } else {
            head
        }
    }

    /// The full message a base-chain key signs: the action line plus the
    /// trailing nonce line.
    pub open spec fn spec_sign_message(self, token_symbol: Seq<char>, decimals: u8) -> Seq<char> {
        let part = self.spec_sign_message_part(token_symbol, decimals);
        (if part.len() > 0 {
            part + "\n"@
        } else {
            part
        }) + "Nonce: "@ + spec_dec(self.nonce as nat)
    }

    /// Builds the action line of the base-chain sign message.
    pub fn get_ethereum_sign_message_part(&self, token_symbol: &str, decimals: u8) -> (r: String)
        requires
            self.amount is Value,
            self.fee is Value,
            decimals <= 77,
        ensures
            r@ == self.spec_sign_message_part(token_symbol@, decimals),
    {
        let mut message = String::new();
        let amount = match self.amount {
            Amount::Value(v) => v,
            Amount::Oversize => vstd::pervasive::unreached(),
        };
        let fee = match self.fee {
            Amount::Value(v) => v,
            Amount::Oversize => vstd::pervasive::unreached(),
        };
        if amount != 0 {
            message.append("Transfer ");
            push_units(&mut message, amount, decimals);
            message.append(" ");
            message.append(token_symbol);
            message.append(" to: ");
            push_address_hex(&mut message, &self.to);
            message.append(" in group: ");
            push_dec_u16(&mut message, self.group);
        }
        if fee != 0 {
            if !message.as_str().is_empty() {
                message.append("\n");
            }
            message.append("Fee: ");
            push_units(&mut message, fee, decimals);
            message.append(" ");
            message.append(token_symbol);
        }
        proof {
            assert(message@ =~= self.spec_sign_message_part(token_symbol@, decimals));
        }
        message
    }

    /// Builds the full message a base-chain key signs for two-factor
    /// authentication of this transfer.
    pub fn get_ethereum_sign_message(&self, token_symbol: &str, decimals: u8) -> (r: String)
        requires
            self.amount is Value,
            self.fee is Value,
            decimals <= 77,
        ensures
            r@ == self.spec_sign_message(token_symbol@, decimals),
    {
        let mut message = self.get_ethereum_sign_message_part(token_symbol, decimals);
        if !message.as_str().is_empty() {
            message.append("\n");
        }
        message.append("Nonce: ");
        push_dec_u32(&mut message, self.nonce);
        proof {
            assert(message@ =~= self.spec_sign_message(token_symbol@, decimals));
        }
        message
    }
}

} // verus!

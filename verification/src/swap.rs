//! The asset-swap transaction kind: a submitter pairs two matching orders
//! and settles them atomically, paying the fee in a token of its own.

use vstd::prelude::*;

use crate::codec::{
    is_fee_amount_packable, is_token_amount_packable, pack_fee_amount, pack_token_amount,
    spec_max_encodable, spec_packable, spec_packed_fee_bytes, spec_packed_token_bytes,
    AMOUNT_MAX_MANTISSA, FEE_MAX_MANTISSA,
};
use crate::order::{Order, OrderError};
use crate::primitives::{push_u32_be, spec_u32_be, Address};
use crate::signature::{RecoveredSigner, TxSignature, VerifiedSignatureCache};
use crate::text::{push_dec_u32, push_units, spec_dec, spec_format_units};
use crate::{
    Amount, ServerConfig, CURRENT_TX_VERSION, MAX_ACCOUNT_ID, MAX_PROCESSABLE_TOKEN,
};

verus! {

/// Type tag of the swap kind in canonical encodings.
pub const SWAP_TX_TYPE: u8 = 11;

/// Why a swap fails its correctness check.
#[derive(Clone, Copy, PartialEq, Eq, Structural, Debug)]
pub enum TransactionError {
    WrongAmount,
    AmountNotPackable,
    WrongFee,
    FeeNotPackable,
    WrongAccountId,
    WrongGroup,
    WrongFeeToken,
    MismatchedTokens,
    InvalidOrder(OrderError),
    WrongSignature,
    NotAllowedSender,
    NotAllowedDestination,
}

impl TransactionError {
    pub open spec fn spec_message(self) -> Seq<char> {
        match self {
            TransactionError::WrongAmount => "Transaction amount is out of range"@,
            TransactionError::AmountNotPackable => "Transaction amount is not packable"@,
            TransactionError::WrongFee => "Transaction fee is out of range"@,
            TransactionError::FeeNotPackable => "Transaction fee is not packable"@,
            TransactionError::WrongAccountId => "Account id is out of range"@,
            TransactionError::WrongGroup => "Transaction group does not match this operator"@,
            TransactionError::WrongFeeToken => "Fees cannot be paid in this token"@,
            TransactionError::MismatchedTokens => "The paired orders do not trade the same tokens"@,
            TransactionError::InvalidOrder(_) => "One of the paired orders is malformed"@,
            TransactionError::WrongSignature => "Native signature is incorrect"@,
            TransactionError::NotAllowedSender => "Sender is not whitelisted"@,
            TransactionError::NotAllowedDestination => "Receiver is not whitelisted"@,
        }
    }

    /// A human-readable rendering of the error.
    pub fn message(&self) -> (r: String)
        ensures
            r@ == self.spec_message(),
    {
        match self {
            TransactionError::WrongAmount => String::from_str("Transaction amount is out of range"),
            TransactionError::AmountNotPackable => String::from_str(
                "Transaction amount is not packable",
            ),
            TransactionError::WrongFee => String::from_str("Transaction fee is out of range"),
            TransactionError::FeeNotPackable => String::from_str(
                "Transaction fee is not packable",
            ),
            TransactionError::WrongAccountId => String::from_str("Account id is out of range"),
            TransactionError::WrongGroup => String::from_str(
                "Transaction group does not match this operator",
            ),
            TransactionError::WrongFeeToken => String::from_str(
                "Fees cannot be paid in this token",
            ),
            TransactionError::MismatchedTokens => String::from_str(
                "The paired orders do not trade the same tokens",
            ),
            TransactionError::InvalidOrder(_) => String::from_str(
                "One of the paired orders is malformed",
            ),
            TransactionError::WrongSignature => String::from_str("Native signature is incorrect"),
            TransactionError::NotAllowedSender => String::from_str("Sender is not whitelisted"),
            TransactionError::NotAllowedDestination => String::from_str(
                "Receiver is not whitelisted",
            ),
        }
    }
}

/// The two orders a swap settles.
#[derive(Clone, PartialEq, Eq, Debug)]
pub struct OrderPair {
    pub first: Order,
    pub second: Order,
}

/// The two settled amounts, one per order.
#[derive(Clone, Copy, PartialEq, Eq, Structural, Debug)]
pub struct AmountPair {
    pub first: Amount,
    pub second: Amount,
}

/// Settles two matching orders atomically: the first sells what the second
/// buys and buys what the second sells.
#[derive(Clone, PartialEq, Eq, Debug)]
pub struct Swap {
    /// Account id of the submitter, who pays the fee.
    pub submitter_id: u32,
    /// Address of the submitter.
    pub submitter_address: Address,
    /// Group the swap occurs in.
    pub group: u16,
    /// The submitter's current nonce.
    pub nonce: u32,
    /// The paired orders.
    pub orders: OrderPair,
    /// The settled amounts, one per order.
    pub amounts: AmountPair,
    /// Fee for the transaction.
    pub fee: Amount,
    /// Token the fee is paid in.
    pub fee_token: u32,
    /// Rollup-native signature of the submitter over the canonical bytes.
    pub signature: TxSignature,
    /// Memoized signer recovery.  An optimization only: coherent values
    /// (see `spec_cache_coherent`) never change what any check decides.
    pub cached_signer: VerifiedSignatureCache,
}

impl Swap {
    /// All content fields agree; the memoization caches, the orders' ones
    /// included, are allowed to differ.
    pub open spec fn spec_same_content(self, other: Swap) -> bool {
        self.submitter_id == other.submitter_id && self.submitter_address
            == other.submitter_address && self.group == other.group && self.nonce == other.nonce
            && self.orders.first.spec_same_content(other.orders.first) && self.orders.first.spec_effective_signer()
            == other.orders.first.spec_effective_signer() && self.orders.second.spec_same_content(
            other.orders.second,
        ) && self.orders.second.spec_effective_signer() == other.orders.second.spec_effective_signer()
            && self.amounts == other.amounts && self.fee == other.fee && self.fee_token
            == other.fee_token && self.signature == other.signature
    }

    /// The signer the transaction answers with: the memoized recovery when
    /// present, the signature's own recovery otherwise.
    pub open spec fn spec_effective_signer(self) -> Option<RecoveredSigner> {
        match self.cached_signer {
            VerifiedSignatureCache::Cached(c) => c,
            VerifiedSignatureCache::NotCached => self.signature.spec_recover(),
        }
    }

    /// The memoization slot never contradicts a cold recovery.
    pub open spec fn spec_cache_coherent(self) -> bool {
        self.spec_effective_signer() == self.signature.spec_recover()
    }

    /// All quantities lie in their encodable ranges, the orders' included,
    /// so the canonical bytes exist.
    pub open spec fn spec_encodable(self) -> bool {
        &&& self.orders.first.spec_encodable()
        &&& self.orders.second.spec_encodable()
        &&& self.amounts.first is Value
        &&& self.amounts.second is Value
        &&& self.fee is Value
        &&& self.fee.spec_value() as nat <= spec_max_encodable(FEE_MAX_MANTISSA as nat)
    }

    /// The canonical byte encoding: tag, version, the submitter, then both
    /// orders' canonical bytes, the packed settled amounts, the packed fee
    /// and the fee token.
    pub open spec fn spec_bytes(self) -> Seq<u8>
        recommends
            self.spec_encodable(),
    {
        seq![(255 - SWAP_TX_TYPE) as u8, CURRENT_TX_VERSION] + spec_u32_be(self.submitter_id)
            + self.submitter_address.spec_bytes() + spec_u32_be(self.nonce)
            + self.orders.first.spec_bytes() + self.orders.second.spec_bytes() + spec_packed_token_bytes(
            self.amounts.first.spec_value(),
        ) + spec_packed_token_bytes(self.amounts.second.spec_value()) + spec_packed_fee_bytes(
            self.fee.spec_value(),
        ) + spec_u32_be(self.fee_token)
    }

    /// The canonical byte encoding of this swap.
    pub fn get_bytes(&self) -> (r: Vec<u8>)
        requires
            self.spec_encodable(),
        ensures
            r@ == self.spec_bytes(),
    {
        let mut out: Vec<u8> = Vec::new();
        out.push(255 - SWAP_TX_TYPE);
        out.push(CURRENT_TX_VERSION);
        push_u32_be(&mut out, self.submitter_id);
        self.submitter_address.push_bytes(&mut out);
        push_u32_be(&mut out, self.nonce);
        let mut order_bytes = self.orders.first.get_bytes();
        out.append(&mut order_bytes);
        let mut order_bytes = self.orders.second.get_bytes();
        out.append(&mut order_bytes);
        let amount0 = match self.amounts.first {
            Amount::Value(v) => v,
            Amount::Oversize => vstd::pervasive::unreached(),
        };
        let amount1 = match self.amounts.second {
            Amount::Value(v) => v,
            Amount::Oversize => vstd::pervasive::unreached(),
        };
        let fee = match self.fee {
            Amount::Value(v) => v,
            Amount::Oversize => vstd::pervasive::unreached(),
        };
        let mut packed = pack_token_amount(amount0);
        out.append(&mut packed);
        let mut packed = pack_token_amount(amount1);
        out.append(&mut packed);
        let mut packed_fee = pack_fee_amount(fee);
        out.append(&mut packed_fee);
        push_u32_be(&mut out, self.fee_token);
        proof {
            assert(out@ =~= self.spec_bytes());
        }
        out
    }

    /// Restores the signer's key hash from the native signature, answering
    /// from the memoization slot when it is filled.
    pub fn verify_signature(&self) -> (r: Option<RecoveredSigner>)
        ensures
            r == self.spec_effective_signer(),
    {
        match &self.cached_signer {
            VerifiedSignatureCache::Cached(c) => *c,
            VerifiedSignatureCache::NotCached => self.signature.recover(),
        }
    }

    /// Empties the memoization slot, so the next recovery is computed cold.
    pub fn wipe_signer_cache(&mut self)
        ensures
            final(self).spec_same_content(*old(self)),
            final(self).spec_cache_coherent(),
    {
        self.cached_signer = VerifiedSignatureCache::NotCached;
    }

    /// The window in which both orders are valid: it opens with the later
    /// order and closes with the earlier one.
    pub open spec fn spec_valid_from(self) -> u64 {
        if self.orders.first.time_range.valid_from >= self.orders.second.time_range.valid_from {
            self.orders.first.time_range.valid_from
        } else {
            self.orders.second.time_range.valid_from
        }
    }

    pub open spec fn spec_valid_until(self) -> u64 {
        if self.orders.first.time_range.valid_until <= self.orders.second.time_range.valid_until {
            self.orders.first.time_range.valid_until
        } else {
            self.orders.second.time_range.valid_until
        }
    }

    /// The first moment both orders may execute.
    pub fn valid_from(&self) -> (r: u64)
        ensures
            r == self.spec_valid_from(),
    {
        if self.orders.first.time_range.valid_from >= self.orders.second.time_range.valid_from {
            self.orders.first.time_range.valid_from
        } else {
            self.orders.second.time_range.valid_from
        }
    }

    /// The last moment both orders may execute.
    pub fn valid_until(&self) -> (r: u64)
        ensures
            r == self.spec_valid_until(),
    {
        if self.orders.first.time_range.valid_until <= self.orders.second.time_range.valid_until {
            self.orders.first.time_range.valid_until
        } else {
            self.orders.second.time_range.valid_until
        }
    }

    /// What the ordered correctness checks decide for a swap with this
    /// content, these authorization flags and this configuration.
    pub open spec fn spec_check_correctness(
        self,
        sender_authorized: bool,
        receiver_authorized: bool,
        config: ServerConfig,
    ) -> Result<(), TransactionError> {
        if config.permissioned && !sender_authorized {
            Err(TransactionError::NotAllowedSender)
        } else if config.permissioned && !receiver_authorized {
            Err(TransactionError::NotAllowedDestination)
        } else if !(self.amounts.first is Value && self.amounts.second is Value) {
            Err(TransactionError::WrongAmount)
        } else if !(spec_packable(self.amounts.first.spec_value() as nat, AMOUNT_MAX_MANTISSA as nat)
            && spec_packable(self.amounts.second.spec_value() as nat, AMOUNT_MAX_MANTISSA as nat)) {
            Err(TransactionError::AmountNotPackable)
        } else if self.fee is Oversize {
            Err(TransactionError::WrongFee)
        } else if !spec_packable(self.fee.spec_value() as nat, FEE_MAX_MANTISSA as nat) {
            Err(TransactionError::FeeNotPackable)
        } else if self.submitter_id > MAX_ACCOUNT_ID {
            Err(TransactionError::WrongAccountId)
        } else if self.group != config.group_id {
            Err(TransactionError::WrongGroup)
        } else if !self.fee.spec_is_zero() && self.fee_token > MAX_PROCESSABLE_TOKEN {
            Err(TransactionError::WrongFeeToken)
        } else if !(self.orders.first.token_buy == self.orders.second.token_sell && self.orders.first.token_sell
            == self.orders.second.token_buy) {
            Err(TransactionError::MismatchedTokens)
        } else if self.orders.first.spec_check_correctness() is Err {
            Err(TransactionError::InvalidOrder(self.orders.first.spec_check_correctness()->Err_0))
        } else if self.orders.second.spec_check_correctness() is Err {
            Err(TransactionError::InvalidOrder(self.orders.second.spec_check_correctness()->Err_0))
        } else if self.spec_effective_signer() is None {
            Err(TransactionError::WrongSignature)
        } else {
            Ok(())
        }
    }

    /// Runs the ordered correctness checks: whitelist flags under
    /// permissioned mode, amount and fee bounds and packability, submitter
    /// range, group match, the fee-token rule, the orders' token pairing,
    /// both orders' own checks, and finally the submitter's
    /// native-signature recovery.  The first failing check decides the
    /// error; content is never modified, only the recovery memos are
    /// filled.
    pub fn check_correctness(
        &mut self,
        sender_authorized: bool,
        receiver_authorized: bool,
        config: &ServerConfig,
    ) -> (r: Result<(), TransactionError>)
        ensures
            r == old(self).spec_check_correctness(sender_authorized, receiver_authorized, *config),
            final(self).spec_same_content(*old(self)),
            final(self).spec_effective_signer() == old(self).spec_effective_signer(),
    {
        if config.permissioned {
            if !sender_authorized {
                return Err(TransactionError::NotAllowedSender);
            }
            if !receiver_authorized {
                return Err(TransactionError::NotAllowedDestination);
            }
        }
        let amount0 = match self.amounts.first {
            Amount::Value(v) => v,
            Amount::Oversize => {
                return Err(TransactionError::WrongAmount);
            },
        };
        let amount1 = match self.amounts.second {
            Amount::Value(v) => v,
            Amount::Oversize => {
                return Err(TransactionError::WrongAmount);
            },
        };
        if !is_token_amount_packable(amount0) || !is_token_amount_packable(amount1) {
            return Err(TransactionError::AmountNotPackable);
        }
        let fee = match self.fee {
            Amount::Value(v) => v,
            Amount::Oversize => {
                return Err(TransactionError::WrongFee);
            },
        };
        if !is_fee_amount_packable(fee) {
            return Err(TransactionError::FeeNotPackable);
        }
        if self.submitter_id > MAX_ACCOUNT_ID {
            return Err(TransactionError::WrongAccountId);
        }
        if self.group != config.group_id {
            return Err(TransactionError::WrongGroup);
        }
        if fee != 0 && self.fee_token > MAX_PROCESSABLE_TOKEN {
            return Err(TransactionError::WrongFeeToken);
        }
        if !(self.orders.first.token_buy == self.orders.second.token_sell && self.orders.first.token_sell
            == self.orders.second.token_buy) {
            return Err(TransactionError::MismatchedTokens);
        }
        match self.orders.first.check_correctness() {
            Ok(()) => (),
            Err(e) => {
                return Err(TransactionError::InvalidOrder(e));
            },
        }
        match self.orders.second.check_correctness() {
            Ok(()) => (),
            Err(e) => {
                return Err(TransactionError::InvalidOrder(e));
            },
        }
        let signer = self.verify_signature();
        self.cached_signer = VerifiedSignatureCache::Cached(signer);
        if signer.is_none() {
            return Err(TransactionError::WrongSignature);
        }
        Ok(())
    }

    /// Running the checks is idempotent: filling the recovery memos with
    /// the effective signers never changes what a later run decides.
    pub proof fn lemma_check_correctness_idempotent(
        tx1: Swap,
        tx2: Swap,
        sender_authorized: bool,
        receiver_authorized: bool,
        config: ServerConfig,
    )
        requires
            tx1.spec_same_content(tx2),
            tx1.spec_effective_signer() == tx2.spec_effective_signer(),
        ensures
            tx1.spec_check_correctness(sender_authorized, receiver_authorized, config)
                == tx2.spec_check_correctness(sender_authorized, receiver_authorized, config),
    {
    }

    /// The action line of the message a base-chain key signs for this swap,
    /// without the trailing nonce line: only the fee is named, the orders
    /// carry their own messages.
    pub open spec fn spec_sign_message_part(self, token_symbol: Seq<char>, decimals: u8) -> Seq<
        char,
    > {
        if !self.fee.spec_is_zero() {
            "Swap fee: "@ + spec_format_units(self.fee.spec_value() as nat, decimals as nat) + " "@
                + token_symbol
        } else {
            Seq::<char>::empty()
        }
    }

    /// The full message a base-chain key signs: the action line plus the
    /// trailing nonce line.
    pub open spec fn spec_sign_message(self, token_symbol: Seq<char>, decimals: u8) -> Seq<char> {
        let part = self.spec_sign_message_part(token_symbol, decimals);
        (if part.len() > 0 {
            part + "\n"@
        } else {
            part
        }) + "Nonce: "@ + spec_dec(self.nonce as nat)
    }

    /// Builds the action line of the base-chain sign message.
    pub fn get_ethereum_sign_message_part(&self, token_symbol: &str, decimals: u8) -> (r: String)
        requires
            self.fee is Value,
            decimals <= 77,
        ensures
            r@ == self.spec_sign_message_part(token_symbol@, decimals),
    {
        let mut message = String::new();
        let fee = match self.fee {
            Amount::Value(v) => v,
            Amount::Oversize => vstd::pervasive::unreached(),
        };
        if fee != 0 {
            message.append("Swap fee: ");
            push_units(&mut message, fee, decimals);
            message.append(" ");
            message.append(token_symbol);
        }
        proof {
            assert(message@ =~= self.spec_sign_message_part(token_symbol@, decimals));
        }
        message
    }

    /// Builds the full message a base-chain key signs for two-factor
    /// authentication of this swap.
    pub fn get_ethereum_sign_message(&self, token_symbol: &str, decimals: u8) -> (r: String)
        requires
            self.fee is Value,
            decimals <= 77,
        ensures
            r@ == self.spec_sign_message(token_symbol@, decimals),
    {
        let mut message = self.get_ethereum_sign_message_part(token_symbol, decimals);
        if !message.as_str().is_empty() {
            message.append("\n");
        }
        message.append("Nonce: ");
        push_dec_u32(&mut message, self.nonce);
        proof {
            assert(message@ =~= self.spec_sign_message(token_symbol@, decimals));
        }
        message
    }
}

} // verus!

//! Resource orders: signed offers to swap one token for another at a limit
//! ratio.  An order is not a transaction; it only passes through the
//! signature-verification service.

use vstd::prelude::*;

use crate::codec::{
    is_token_amount_packable, pack_token_amount, spec_packable, spec_packed_token_bytes,
    AMOUNT_MAX_MANTISSA,
};
use crate::primitives::{push_u128_be, push_u16_be, push_u32_be, spec_u128_be, spec_u16_be, spec_u32_be, Address};
use crate::signature::{RecoveredSigner, TxSignature, VerifiedSignatureCache};
use crate::text::{push_address_hex, push_dec_u128, push_dec_u32, push_units, spec_dec, spec_format_units, spec_hex};
use crate::time_range::TimeRange;
use crate::{Amount, MAX_ACCOUNT_ID, MAX_TOKEN_ID};

verus! {

/// Type tag of orders in canonical encodings.
pub const ORDER_MSG_TYPE: u8 = 0x6f;

/// Why an order fails its correctness check.
#[derive(Clone, Copy, PartialEq, Eq, Structural, Debug)]
pub enum OrderError {
    WrongPrice,
    WrongAmount,
    AmountNotPackable,
    WrongAccountId,
    WrongToken,
    WrongTimeRange,
    WrongSignature,
}

impl OrderError {
    pub open spec fn spec_message(self) -> Seq<char> {
        match self {
            OrderError::WrongPrice => "Order price is out of range"@,
            OrderError::WrongAmount => "Order amount is out of range"@,
            OrderError::AmountNotPackable => "Order amount is not packable"@,
            OrderError::WrongAccountId => "Account id is out of range"@,
            OrderError::WrongToken => "Token id is out of range"@,
            OrderError::WrongTimeRange => "Order validity window is malformed"@,
            OrderError::WrongSignature => "Native signature is incorrect"@,
        }
    }

    /// A human-readable rendering of the error.
    pub fn message(&self) -> (r: String)
        ensures
            r@ == self.spec_message(),
    {
        match self {
            OrderError::WrongPrice => String::from_str("Order price is out of range"),
            OrderError::WrongAmount => String::from_str("Order amount is out of range"),
            OrderError::AmountNotPackable => String::from_str("Order amount is not packable"),
            OrderError::WrongAccountId => String::from_str("Account id is out of range"),
            OrderError::WrongToken => String::from_str("Token id is out of range"),
            OrderError::WrongTimeRange => String::from_str("Order validity window is malformed"),
            OrderError::WrongSignature => String::from_str("Native signature is incorrect"),
        }
    }
}

/// A signed offer to sell `amount` of `token_sell` for `token_buy` at the
/// limit ratio `sell_price : buy_price`, proceeds to `recipient_address`.
#[derive(Clone, PartialEq, Eq, Debug)]
pub struct Order {
    /// Account id of the order's maker.
    pub account_id: u32,
    /// Account the bought funds go to.
    pub recipient_address: Address,
    /// Group the order lives in.
    pub group: u16,
    /// The maker's current nonce.
    pub nonce: u32,
    /// Token sold.
    pub token_sell: u32,
    /// Token bought.
    pub token_buy: u32,
    /// Limit ratio: sold units per bought unit.
    pub sell_price: Amount,
    pub buy_price: Amount,
    /// Amount of `token_sell` offered; zero makes a swap order.
    pub amount: Amount,
    /// Validity window.
    pub time_range: TimeRange,
    /// Rollup-native signature over the canonical bytes.
    pub signature: TxSignature,
    /// Memoized signer recovery.
    pub cached_signer: VerifiedSignatureCache,
}

impl Order {
    /// All content fields agree; the memoization cache is allowed to differ.
    pub open spec fn spec_same_content(self, other: Order) -> bool {
        self.account_id == other.account_id && self.recipient_address == other.recipient_address
            && self.group == other.group && self.nonce == other.nonce && self.token_sell
            == other.token_sell && self.token_buy == other.token_buy && self.sell_price
            == other.sell_price && self.buy_price == other.buy_price && self.amount == other.amount
            && self.time_range == other.time_range && self.signature == other.signature
    }

    /// The signer the order answers with.
    pub open spec fn spec_effective_signer(self) -> Option<RecoveredSigner> {
        match self.cached_signer {
            VerifiedSignatureCache::Cached(c) => c,
            VerifiedSignatureCache::NotCached => self.signature.spec_recover(),
        }
    }

    /// All quantities lie in the 128-bit range, so the canonical bytes
    /// exist.
    pub open spec fn spec_encodable(self) -> bool {
        self.amount is Value && self.sell_price is Value && self.buy_price is Value
    }

    /// The canonical byte encoding: tag, version, then the fixed-width
    /// fields in layout order, the prices unpacked and the amount packed.
    pub open spec fn spec_bytes(self) -> Seq<u8>
        recommends
            self.spec_encodable(),
    {
        seq![ORDER_MSG_TYPE, crate::CURRENT_TX_VERSION] + spec_u32_be(self.account_id)
            + self.recipient_address.spec_bytes() + spec_u32_be(self.nonce) + spec_u32_be(
            self.token_sell,
        ) + spec_u32_be(self.token_buy) + spec_u128_be(self.sell_price.spec_value())
            + spec_u128_be(self.buy_price.spec_value()) + spec_u16_be(self.group)
            + spec_packed_token_bytes(self.amount.spec_value()) + self.time_range.spec_bytes()
    }

    /// The canonical byte encoding of this order.
    pub fn get_bytes(&self) -> (r: Vec<u8>)
        requires
            self.spec_encodable(),
        ensures
            r@ == self.spec_bytes(),
    {
        let mut out: Vec<u8> = Vec::new();
        out.push(ORDER_MSG_TYPE);
        out.push(crate::CURRENT_TX_VERSION);
        push_u32_be(&mut out, self.account_id);
        self.recipient_address.push_bytes(&mut out);
        push_u32_be(&mut out, self.nonce);
        push_u32_be(&mut out, self.token_sell);
        push_u32_be(&mut out, self.token_buy);
        let sell_price = match self.sell_price {
            Amount::Value(v) => v,
            Amount::Oversize => vstd::pervasive::unreached(),
        };
        let buy_price = match self.buy_price {
            Amount::Value(v) => v,
            Amount::Oversize => vstd::pervasive::unreached(),
        };
        let amount = match self.amount {
            Amount::Value(v) => v,
            Amount::Oversize => vstd::pervasive::unreached(),
        };
        push_u128_be(&mut out, sell_price);
        push_u128_be(&mut out, buy_price);
        push_u16_be(&mut out, self.group);
        let mut packed = pack_token_amount(amount);
        out.append(&mut packed);
        self.time_range.push_bytes(&mut out);
        proof {
            assert(out@ =~= self.spec_bytes());
        }
        out
    }

    /// Restores the signer's key hash from the native signature.
    pub fn verify_signature(&self) -> (r: Option<RecoveredSigner>)
        ensures
            r == self.spec_effective_signer(),
    {
        match &self.cached_signer {
            VerifiedSignatureCache::Cached(c) => *c,
            VerifiedSignatureCache::NotCached => self.signature.recover(),
        }
    }

    /// What the ordered correctness checks decide for this order.
    pub open spec fn spec_check_correctness(self) -> Result<(), OrderError> {
        if !(self.sell_price is Value && self.buy_price is Value) {
            Err(OrderError::WrongPrice)
        } else if self.amount is Oversize {
            Err(OrderError::WrongAmount)
        } else if !spec_packable(self.amount.spec_value() as nat, AMOUNT_MAX_MANTISSA as nat) {
            Err(OrderError::AmountNotPackable)
        } else if self.account_id > MAX_ACCOUNT_ID {
            Err(OrderError::WrongAccountId)
        } else if self.token_sell > MAX_TOKEN_ID || self.token_buy > MAX_TOKEN_ID {
            Err(OrderError::WrongToken)
        } else if !self.time_range.spec_is_valid() {
            Err(OrderError::WrongTimeRange)
        } else if self.spec_effective_signer() is None {
            Err(OrderError::WrongSignature)
        } else {
            Ok(())
        }
    }

    /// Runs the ordered correctness checks: price and amount bounds, amount
    /// packability, account and token ranges, window consistency, and
    /// finally native-signature recovery.  The first failing check decides
    /// the error; content is never modified, only the recovery memo is
    /// filled.
    pub fn check_correctness(&mut self) -> (r: Result<(), OrderError>)
        ensures
            r == old(self).spec_check_correctness(),
            final(self).spec_same_content(*old(self)),
            final(self).spec_effective_signer() == old(self).spec_effective_signer(),
    {
        match self.sell_price {
            Amount::Value(_) => (),
            Amount::Oversize => {
                return Err(OrderError::WrongPrice);
            },
        }
        match self.buy_price {
            Amount::Value(_) => (),
            Amount::Oversize => {
                return Err(OrderError::WrongPrice);
            },
        }
        let amount = match self.amount {
            Amount::Value(v) => v,
            Amount::Oversize => {
                return Err(OrderError::WrongAmount);
            },
        };
        if !is_token_amount_packable(amount) {
            return Err(OrderError::AmountNotPackable);
        }
        if self.account_id > MAX_ACCOUNT_ID {
            return Err(OrderError::WrongAccountId);
        }
        if self.token_sell > MAX_TOKEN_ID || self.token_buy > MAX_TOKEN_ID {
            return Err(OrderError::WrongToken);
        }
        if !self.time_range.check_correctness() {
            return Err(OrderError::WrongTimeRange);
        }
        let signer = self.verify_signature();
        self.cached_signer = VerifiedSignatureCache::Cached(signer);
        if signer.is_none() {
            return Err(OrderError::WrongSignature);
        }
        Ok(())
    }

    /// The message a base-chain key signs for this order: the offer line,
    /// the limit ratio, the recipient and the trailing nonce line.
    pub open spec fn spec_sign_message(
        self,
        sell_symbol: Seq<char>,
        buy_symbol: Seq<char>,
        decimals: u8,
    ) -> Seq<char> {
        "Order for "@ + spec_format_units(self.amount.spec_value() as nat, decimals as nat) + " "@
            + sell_symbol + " -> "@ + buy_symbol + "\n"@ + "Ratio: "@ + spec_dec(
            self.sell_price.spec_value() as nat,
        ) + ":"@ + spec_dec(self.buy_price.spec_value() as nat) + "\n"@ + "Address: "@ + "0x"@
            + spec_hex(self.recipient_address.spec_bytes()) + "\n"@ + "Nonce: "@ + spec_dec(
            self.nonce as nat,
        )
    }

    /// Builds the message a base-chain key signs for this order.
    pub fn get_ethereum_sign_message(
        &self,
        sell_symbol: &str,
        buy_symbol: &str,
        decimals: u8,
    ) -> (r: String)
        requires
            self.spec_encodable(),
            decimals <= 77,
        ensures
            r@ == self.spec_sign_message(sell_symbol@, buy_symbol@, decimals),
    {
        let mut message = String::new();
        let amount = match self.amount {
            Amount::Value(v) => v,
            Amount::Oversize => vstd::pervasive::unreached(),
        };
        let sell_price = match self.sell_price {
            Amount::Value(v) => v,
            Amount::Oversize => vstd::pervasive::unreached(),
        };
        let buy_price = match self.buy_price {
            Amount::Value(v) => v,
            Amount::Oversize => vstd::pervasive::unreached(),
        };
        message.append("Order for ");
        push_units(&mut message, amount, decimals);
        message.append(" ");
        message.append(sell_symbol);
        message.append(" -> ");
        message.append(buy_symbol);
        message.append("\n");
        message.append("Ratio: ");
        push_dec_u128(&mut message, sell_price);
        message.append(":");
        push_dec_u128(&mut message, buy_price);
        message.append("\n");
        message.append("Address: ");
        push_address_hex(&mut message, &self.recipient_address);
        message.append("\n");
        message.append("Nonce: ");
        push_dec_u32(&mut message, self.nonce);
        proof {
            assert(message@ =~= self.spec_sign_message(sell_symbol@, buy_symbol@, decimals));
        }
        message
    }
}

} // verus!

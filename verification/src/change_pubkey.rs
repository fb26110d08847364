//! The public-key-change transaction kind: registers a new signing-key hash
//! for an account.  Authorization comes either through a base-chain message
//! signature or through an on-chain registration checked by the
//! authorization oracle — a second, independent channel.

use vstd::prelude::*;

use crate::codec::{
    is_fee_amount_packable, lemma_fee_amount_round_trip, pack_fee_amount, spec_max_encodable,
    spec_packable, spec_packed_fee_bytes, FEE_MAX_MANTISSA,
};
use crate::primitives::{
    lemma_u16_be_injective, lemma_u32_be_injective, lemma_u64_be_injective, push_u16_be,
    push_u32_be, spec_u16_be, spec_u32_be, spec_u64_be, Address, H256, PubKeyHash,
};
use crate::signature::{PackedEthSignature, RecoveredSigner, TxSignature, VerifiedSignatureCache};
use crate::text::{push_dec_u32, push_pub_key_hash_hex, push_units, spec_dec, spec_format_units, spec_hex};
use crate::time_range::TimeRange;
use crate::{Amount, ServerConfig, CURRENT_TX_VERSION, MAX_ACCOUNT_ID, MAX_PROCESSABLE_TOKEN};

verus! {

/// Type tag of the key-change kind in canonical encodings.
pub const CHANGE_PUBKEY_TX_TYPE: u8 = 7;

/// Base-chain authorization data of a key change signed with a recoverable
/// signature.
#[derive(Clone, PartialEq, Eq, Debug)]
pub struct ChangePubKeyECDSAData {
    pub eth_signature: PackedEthSignature,
    /// Hash of the batch the key change travels in; zero outside batches.
    pub batch_hash: H256,
}

/// How a key change is authorized on the base chain.
#[derive(Clone, PartialEq, Eq, Debug)]
pub enum ChangePubKeyEthAuthData {
    /// The new key hash was registered by an on-chain call; the
    /// authorization oracle confirms it.
    Onchain,
    /// The account's base-chain key signed the change message.
    ECDSA(ChangePubKeyECDSAData),
}

/// Why a key change fails its correctness check.
#[derive(Clone, Copy, PartialEq, Eq, Structural, Debug)]
pub enum TransactionError {
    WrongFee,
    FeeNotPackable,
    WrongAccountId,
    WrongGroup,
    WrongFeeToken,
    WrongTimeRange,
    WrongSignature,
}

impl TransactionError {
    pub open spec fn spec_message(self) -> Seq<char> {
        match self {
            TransactionError::WrongFee => "Transaction fee is out of range"@,
            TransactionError::FeeNotPackable => "Transaction fee is not packable"@,
            TransactionError::WrongAccountId => "Account id is out of range"@,
            TransactionError::WrongGroup => "Transaction group does not match this operator"@,
            TransactionError::WrongFeeToken => "Fees cannot be paid in this token"@,
            TransactionError::WrongTimeRange => "Transaction validity window is malformed"@,
            TransactionError::WrongSignature => "Native signature is incorrect"@,
        }
    }

    /// A human-readable rendering of the error.
    pub fn message(&self) -> (r: String)
        ensures
            r@ == self.spec_message(),
    {
        match self {
            TransactionError::WrongFee => String::from_str("Transaction fee is out of range"),
            TransactionError::FeeNotPackable => String::from_str(
                "Transaction fee is not packable",
            ),
            TransactionError::WrongAccountId => String::from_str("Account id is out of range"),
            TransactionError::WrongGroup => String::from_str(
                "Transaction group does not match this operator",
            ),
            TransactionError::WrongFeeToken => String::from_str(
                "Fees cannot be paid in this token",
            ),
            TransactionError::WrongTimeRange => String::from_str(
                "Transaction validity window is malformed",
            ),
            TransactionError::WrongSignature => String::from_str("Native signature is incorrect"),
        }
    }
}

/// Registers `new_pk_hash` as the signing key hash of `account_id`.
#[derive(Clone, PartialEq, Eq, Debug)]
pub struct ChangePubKey {
    /// Account whose key changes.
    pub account_id: u32,
    /// Address of that account.
    pub account: Address,
    /// The key hash being registered.
    pub new_pk_hash: PubKeyHash,
    /// Token the fee is paid in.
    pub fee_token: u32,
    /// Fee for the transaction.
    pub fee: Amount,
    /// Group the change occurs in.
    pub group: u16,
    /// The account's current nonce.
    pub nonce: u32,
    /// Validity window; absent on transactions from before the window was
    /// introduced.
    pub time_range: Option<TimeRange>,
    /// Rollup-native signature over the canonical bytes, under the new key.
    pub signature: TxSignature,
    /// Memoized signer recovery.  An optimization only: coherent values
    /// (see `spec_cache_coherent`) never change what any check decides.
    pub cached_signer: VerifiedSignatureCache,
    /// Base-chain authorization; `None` on restored legacy transactions,
    /// which count as on-chain authorized.
    pub eth_auth_data: Option<ChangePubKeyEthAuthData>,
}

impl ChangePubKey {
    /// All content fields agree; the memoization cache is allowed to differ.
    pub open spec fn spec_same_content(self, other: ChangePubKey) -> bool {
        self.account_id == other.account_id && self.account == other.account && self.new_pk_hash
            == other.new_pk_hash && self.fee_token == other.fee_token && self.fee == other.fee
            && self.group == other.group && self.nonce == other.nonce && self.time_range
            == other.time_range && self.signature == other.signature && self.eth_auth_data
            == other.eth_auth_data
    }

    /// The signer the transaction answers with: the memoized recovery when
    /// present, the signature's own recovery otherwise.
    pub open spec fn spec_effective_signer(self) -> Option<RecoveredSigner> {
        match self.cached_signer {
            VerifiedSignatureCache::Cached(c) => c,
            VerifiedSignatureCache::NotCached => self.signature.spec_recover(),
        }
    }

    /// The memoization slot never contradicts a cold recovery.
    pub open spec fn spec_cache_coherent(self) -> bool {
        self.spec_effective_signer() == self.signature.spec_recover()
    }

    pub open spec fn spec_is_onchain(self) -> bool {
        match self.eth_auth_data {
            None => true,
            Some(ChangePubKeyEthAuthData::Onchain) => true,
            Some(ChangePubKeyEthAuthData::ECDSA(_)) => false,
        }
    }

    /// Whether this change claims on-chain authorization, so the oracle must
    /// confirm the registration instead of a message signature.
    pub fn is_onchain(&self) -> (r: bool)
        ensures
            r == self.spec_is_onchain(),
    {
        match &self.eth_auth_data {
            None => true,
            Some(ChangePubKeyEthAuthData::Onchain) => true,
            Some(ChangePubKeyEthAuthData::ECDSA(_)) => false,
        }
    }

    /// The fee lies in the 128-bit range and inside the codec's range, so
    /// the canonical bytes exist.
    pub open spec fn spec_encodable(self) -> bool {
        &&& self.fee is Value
        &&& self.fee.spec_value() as nat <= spec_max_encodable(FEE_MAX_MANTISSA as nat)
    }

    pub open spec fn spec_time_range_or_default(self) -> TimeRange {
        match self.time_range {
            Some(t) => t,
            None => TimeRange { valid_from: 0, valid_until: u64::MAX },
        }
    }

    /// The canonical byte encoding: tag, version, then the fixed-width
    /// fields in layout order, then the validity window.
    pub open spec fn spec_bytes(self) -> Seq<u8>
        recommends
            self.spec_encodable(),
    {
        seq![(255 - CHANGE_PUBKEY_TX_TYPE) as u8, CURRENT_TX_VERSION] + spec_u32_be(self.account_id)
            + self.account.spec_bytes() + self.new_pk_hash.spec_bytes() + spec_u32_be(
            self.fee_token,
        ) + spec_packed_fee_bytes(self.fee.spec_value()) + spec_u16_be(self.group) + spec_u32_be(
            self.nonce,
        ) + self.spec_time_range_or_default().spec_bytes()
    }

    /// Creates a key change from all required fields.
    #[allow(clippy::too_many_arguments)]
    pub fn new(
        account_id: u32,
        account: Address,
        new_pk_hash: PubKeyHash,
        fee_token: u32,
        fee: Amount,
        group: u16,
        nonce: u32,
        time_range: TimeRange,
        eth_auth_data: Option<ChangePubKeyEthAuthData>,
        signature: Option<TxSignature>,
    ) -> (r: ChangePubKey)
        ensures
            r.account_id == account_id,
            r.account == account,
            r.new_pk_hash == new_pk_hash,
            r.fee_token == fee_token,
            r.fee == fee,
            r.group == group,
            r.nonce == nonce,
            r.time_range == Some(time_range),
            r.eth_auth_data == eth_auth_data,
            r.signature == match signature {
                Some(s) => s,
                None => TxSignature { recovered_signer: None },
            },
            r.spec_cache_coherent(),
    {
        match signature {
            Some(s) => ChangePubKey {
                account_id,
                account,
                new_pk_hash,
                fee_token,
                fee,
                group,
                nonce,
                time_range: Some(time_range),
                signature: s,
                cached_signer: VerifiedSignatureCache::Cached(s.recover()),
                eth_auth_data,
            },
            None => ChangePubKey {
                account_id,
                account,
                new_pk_hash,
                fee_token,
                fee,
                group,
                nonce,
                time_range: Some(time_range),
                signature: TxSignature { recovered_signer: None },
                cached_signer: VerifiedSignatureCache::NotCached,
                eth_auth_data,
            },
        }
    }

    /// The canonical byte encoding of this key change.
    pub fn get_bytes(&self) -> (r: Vec<u8>)
        requires
            self.spec_encodable(),
        ensures
            r@ == self.spec_bytes(),
    {
        let mut out: Vec<u8> = Vec::new();
        out.push(255 - CHANGE_PUBKEY_TX_TYPE);
        out.push(CURRENT_TX_VERSION);
        push_u32_be(&mut out, self.account_id);
        self.account.push_bytes(&mut out);
        self.new_pk_hash.push_bytes(&mut out);
        push_u32_be(&mut out, self.fee_token);
        let fee = match self.fee {
            Amount::Value(v) => v,
            Amount::Oversize => vstd::pervasive::unreached(),
        };
        let mut packed_fee = pack_fee_amount(fee);
        out.append(&mut packed_fee);
        push_u16_be(&mut out, self.group);
        push_u32_be(&mut out, self.nonce);
        let time_range = match self.time_range {
            Some(t) => t,
            None => TimeRange::default(),
        };
        time_range.push_bytes(&mut out);
        proof {
            assert(out@ =~= self.spec_bytes());
        }
        out
    }

    /// Restores the signer's key hash from the native signature, answering
    /// from the memoization slot when it is filled.
    pub fn verify_signature(&self) -> (r: Option<RecoveredSigner>)
        ensures
            r == self.spec_effective_signer(),
    {
        match &self.cached_signer {
            VerifiedSignatureCache::Cached(c) => *c,
            VerifiedSignatureCache::NotCached => self.signature.recover(),
        }
    }

    /// Empties the memoization slot, so the next recovery is computed cold.
    pub fn wipe_signer_cache(&mut self)
        ensures
            final(self).spec_same_content(*old(self)),
            final(self).spec_cache_coherent(),
    {
        self.cached_signer = VerifiedSignatureCache::NotCached;
    }

    /// What the ordered correctness checks decide for a key change with this
    /// content and this configuration.
    pub open spec fn spec_check_correctness(self, config: ServerConfig) -> Result<
        (),
        TransactionError,
    > {
        if self.fee is Oversize {
            Err(TransactionError::WrongFee)
        } else if !spec_packable(self.fee.spec_value() as nat, FEE_MAX_MANTISSA as nat) {
            Err(TransactionError::FeeNotPackable)
        } else if self.account_id > MAX_ACCOUNT_ID {
            Err(TransactionError::WrongAccountId)
        } else if self.group != config.group_id {
            Err(TransactionError::WrongGroup)
        } else if !self.fee.spec_is_zero() && self.fee_token > MAX_PROCESSABLE_TOKEN {
            Err(TransactionError::WrongFeeToken)
        } else if !(match self.time_range {
            Some(t) => t.spec_is_valid(),
            None => true,
        }) {
            Err(TransactionError::WrongTimeRange)
        } else if self.spec_effective_signer() is None {
            Err(TransactionError::WrongSignature)
        } else {
            Ok(())
        }
    }

    /// Runs the ordered correctness checks: fee bounds and packability,
    /// account range, group match, the fee-token rule, window consistency,
    /// and finally native-signature recovery under the new key.  The first
    /// failing check decides the error; content is never modified, only the
    /// recovery memo is filled.
    pub fn check_correctness(&mut self, config: &ServerConfig) -> (r: Result<
        (),
        TransactionError,
    >)
        ensures
            r == old(self).spec_check_correctness(*config),
            final(self).spec_same_content(*old(self)),
            final(self).spec_effective_signer() == old(self).spec_effective_signer(),
    {
        let fee = match self.fee {
            Amount::Value(v) => v,
            Amount::Oversize => {
                return Err(TransactionError::WrongFee);
            },
        };
        if !is_fee_amount_packable(fee) {
            return Err(TransactionError::FeeNotPackable);
        }
        if self.account_id > MAX_ACCOUNT_ID {
            return Err(TransactionError::WrongAccountId);
        }
        if self.group != config.group_id {
            return Err(TransactionError::WrongGroup);
        }
        if fee != 0 && self.fee_token > MAX_PROCESSABLE_TOKEN {
            return Err(TransactionError::WrongFeeToken);
        }
        let window_ok = match &self.time_range {
            Some(t) => t.check_correctness(),
            None => true,
        };
        if !window_ok {
            return Err(TransactionError::WrongTimeRange);
        }
        let signer = self.verify_signature();
        self.cached_signer = VerifiedSignatureCache::Cached(signer);
        if signer.is_none() {
            return Err(TransactionError::WrongSignature);
        }
        Ok(())
    }

    /// Running the checks is idempotent: filling the recovery memo with the
    /// effective signer never changes what a later run decides.
    pub proof fn lemma_check_correctness_idempotent(
        tx1: ChangePubKey,
        tx2: ChangePubKey,
        config: ServerConfig,
    )
        requires
            tx1.spec_same_content(tx2),
            tx1.spec_effective_signer() == tx2.spec_effective_signer(),
        ensures
            tx1.spec_check_correctness(config) == tx2.spec_check_correctness(config),
    {
    }

    /// The canonical bytes are a pure function of the content fields, and
    /// for encodable key changes with packable fees they pin the content
    /// down; the base-chain authorization data travels outside the signed
    /// bytes.
    #[verifier::rlimit(60)]
    pub proof fn lemma_bytes_injective(a: ChangePubKey, b: ChangePubKey)
        requires
            a.spec_encodable(),
            b.spec_encodable(),
            spec_packable(a.fee.spec_value() as nat, FEE_MAX_MANTISSA as nat),
            spec_packable(b.fee.spec_value() as nat, FEE_MAX_MANTISSA as nat),
            a.spec_bytes() == b.spec_bytes(),
        ensures
            a.account_id == b.account_id,
            a.account == b.account,
            a.new_pk_hash == b.new_pk_hash,
            a.fee_token == b.fee_token,
            a.fee == b.fee,
            a.group == b.group,
            a.nonce == b.nonce,
            a.spec_time_range_or_default() == b.spec_time_range_or_default(),
    {
        let sa = a.spec_bytes();
        let sb = b.spec_bytes();
        assert(sa.len() == 74 && sb.len() == 74);
        assert(spec_u32_be(a.account_id) =~= sa.subrange(2, 6));
        assert(spec_u32_be(b.account_id) =~= sb.subrange(2, 6));
        lemma_u32_be_injective(a.account_id, b.account_id);
        assert(a.account.spec_bytes() =~= sa.subrange(6, 26));
        assert(b.account.spec_bytes() =~= sb.subrange(6, 26));
        Address::lemma_bytes_injective(a.account, b.account);
        assert(a.new_pk_hash.spec_bytes() =~= sa.subrange(26, 46));
        assert(b.new_pk_hash.spec_bytes() =~= sb.subrange(26, 46));
        assert(spec_u32_be(a.new_pk_hash.hi) =~= a.new_pk_hash.spec_bytes().subrange(0, 4));
        assert(spec_u32_be(b.new_pk_hash.hi) =~= b.new_pk_hash.spec_bytes().subrange(0, 4));
        assert(crate::primitives::spec_u128_be(a.new_pk_hash.lo)
            =~= a.new_pk_hash.spec_bytes().subrange(4, 20));
        assert(crate::primitives::spec_u128_be(b.new_pk_hash.lo)
            =~= b.new_pk_hash.spec_bytes().subrange(4, 20));
        lemma_u32_be_injective(a.new_pk_hash.hi, b.new_pk_hash.hi);
        crate::primitives::lemma_u128_be_injective(a.new_pk_hash.lo, b.new_pk_hash.lo);
        assert(spec_u32_be(a.fee_token) =~= sa.subrange(46, 50));
        assert(spec_u32_be(b.fee_token) =~= sb.subrange(46, 50));
        lemma_u32_be_injective(a.fee_token, b.fee_token);
        assert(spec_packed_fee_bytes(a.fee.spec_value()) =~= sa.subrange(50, 52));
        assert(spec_packed_fee_bytes(b.fee.spec_value()) =~= sb.subrange(50, 52));
        lemma_fee_amount_round_trip(a.fee.spec_value());
        lemma_fee_amount_round_trip(b.fee.spec_value());
        assert(a.fee.spec_value() == b.fee.spec_value());
        assert(spec_u16_be(a.group) =~= sa.subrange(52, 54));
        assert(spec_u16_be(b.group) =~= sb.subrange(52, 54));
        lemma_u16_be_injective(a.group, b.group);
        assert(spec_u32_be(a.nonce) =~= sa.subrange(54, 58));
        assert(spec_u32_be(b.nonce) =~= sb.subrange(54, 58));
        lemma_u32_be_injective(a.nonce, b.nonce);
        assert(spec_u64_be(a.spec_time_range_or_default().valid_from) =~= sa.subrange(58, 66));
        assert(spec_u64_be(b.spec_time_range_or_default().valid_from) =~= sb.subrange(58, 66));
        lemma_u64_be_injective(
            a.spec_time_range_or_default().valid_from,
            b.spec_time_range_or_default().valid_from,
        );
        assert(spec_u64_be(a.spec_time_range_or_default().valid_until) =~= sa.subrange(66, 74));
        assert(spec_u64_be(b.spec_time_range_or_default().valid_until) =~= sb.subrange(66, 74));
        lemma_u64_be_injective(
            a.spec_time_range_or_default().valid_until,
            b.spec_time_range_or_default().valid_until,
        );
    }

    /// The action line of the message a base-chain key signs for this key
    /// change, without the trailing nonce line.
    pub open spec fn spec_sign_message_part(self, token_symbol: Seq<char>, decimals: u8) -> Seq<
        char,
    > {
        let head = "Set signing key: "@ + "sync:"@ + spec_hex(self.new_pk_hash.spec_bytes());
        if !self.fee.spec_is_zero() {
            head + "\n"@ + "Fee: "@ + spec_format_units(
                self.fee.spec_value() as nat,
                decimals as nat,
            ) + " "@ + token_symbol
        } else {
            head
        }
    }

    /// Builds the action line of the base-chain sign message.
    pub fn get_ethereum_sign_message_part(&self, token_symbol: &str, decimals: u8) -> (r: String)
        requires
            self.fee is Value,
            decimals <= 77,
        ensures
            r@ == self.spec_sign_message_part(token_symbol@, decimals),
    {
        let mut message = String::new();
        let fee = match self.fee {
            Amount::Value(v) => v,
            Amount::Oversize => vstd::pervasive::unreached(),
        };
        message.append("Set signing key: ");
        push_pub_key_hash_hex(&mut message, &self.new_pk_hash);
        if fee != 0 {
            message.append("\n");
            message.append("Fee: ");
            push_units(&mut message, fee, decimals);
            message.append(" ");
            message.append(token_symbol);
        }
        proof {
            assert(message@ =~= self.spec_sign_message_part(token_symbol@, decimals));
        }
        message
    }
}

} // verus!

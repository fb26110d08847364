//! The NFT-mint transaction kind: mints a non-fungible token carrying a
//! 32-byte content hash for a recipient account.

use vstd::prelude::*;

use crate::codec::{
    is_fee_amount_packable, lemma_fee_amount_round_trip, pack_fee_amount, spec_max_encodable,
    spec_packable, spec_packed_fee_bytes, FEE_MAX_MANTISSA,
};
use crate::primitives::{
    lemma_u16_be_injective, lemma_u32_be_injective, push_u16_be, push_u32_be, spec_u16_be,
    spec_u32_be, u128_from_be, u32_from_be, Address, H256,
};
use crate::signature::{RecoveredSigner, TxSignature, VerifiedSignatureCache};
use crate::text::{
    push_address_hex, push_dec_u16, push_dec_u32, push_h256_hex, push_units, spec_dec,
    spec_format_units, spec_hex,
};
use crate::{Amount, ServerConfig, CURRENT_TX_VERSION, MAX_ACCOUNT_ID, MAX_PROCESSABLE_TOKEN};

verus! {

/// Type tag of the NFT-mint kind in canonical encodings.
pub const MINT_NFT_TX_TYPE: u8 = 9;

/// Why an NFT mint fails its correctness check.
#[derive(Clone, Copy, PartialEq, Eq, Structural, Debug)]
pub enum TransactionError {
    WrongFee,
    FeeNotPackable,
    WrongCreatorId,
    WrongSignature,
    WrongFeeToken,
    WrongGroup,
    NotAllowedSender,
    NotAllowedDestination,
}

impl TransactionError {
    pub open spec fn spec_message(self) -> Seq<char> {
        match self {
            TransactionError::WrongFee => "Transaction fee is out of range"@,
            TransactionError::FeeNotPackable => "Transaction fee is not packable"@,
            TransactionError::WrongCreatorId => "Account id is out of range"@,
            TransactionError::WrongSignature => "Native signature is incorrect"@,
            TransactionError::WrongFeeToken => "Fees cannot be paid in this token"@,
            TransactionError::WrongGroup => "Transaction group does not match this operator"@,
            TransactionError::NotAllowedSender => "Sender is not whitelisted"@,
            TransactionError::NotAllowedDestination => "Receiver is not whitelisted"@,
        }
    }

    /// A human-readable rendering of the error.
    pub fn message(&self) -> (r: String)
        ensures
            r@ == self.spec_message(),
    {
        match self {
            TransactionError::WrongFee => String::from_str("Transaction fee is out of range"),
            TransactionError::FeeNotPackable => String::from_str(
                "Transaction fee is not packable",
            ),
            TransactionError::WrongCreatorId => String::from_str("Account id is out of range"),
            TransactionError::WrongSignature => String::from_str("Native signature is incorrect"),
            TransactionError::WrongFeeToken => String::from_str(
                "Fees cannot be paid in this token",
            ),
            TransactionError::WrongGroup => String::from_str(
                "Transaction group does not match this operator",
            ),
            TransactionError::NotAllowedSender => String::from_str("Sender is not whitelisted"),
            TransactionError::NotAllowedDestination => String::from_str(
                "Receiver is not whitelisted",
            ),
        }
    }
}

/// Mints a non-fungible token for `recipient`, identified by the creator's
/// account and a 32-byte content hash.
#[derive(Clone, PartialEq, Eq, Debug)]
pub struct MintNFT {
    /// Account id of the creator.
    pub creator_id: u32,
    /// Address of the creator.
    pub creator_address: Address,
    /// Hash of the data the token stands for.
    pub content_hash: H256,
    /// Account the token is minted to.
    pub recipient: Address,
    /// Fee for the transaction.
    pub fee: Amount,
    /// Token the fee is paid in.
    pub fee_token: u32,
    /// Group the mint occurs in.
    pub group: u16,
    /// The creator's current nonce.
    pub nonce: u32,
    /// Rollup-native signature over the canonical bytes.
    pub signature: TxSignature,
    /// Memoized signer recovery.  An optimization only: coherent values
    /// (see `spec_cache_coherent`) never change what any check decides.
    pub cached_signer: VerifiedSignatureCache,
}

impl MintNFT {
    /// All content fields agree; the memoization cache is allowed to differ.
    pub open spec fn spec_same_content(self, other: MintNFT) -> bool {
        self.creator_id == other.creator_id && self.creator_address == other.creator_address
            && self.content_hash == other.content_hash && self.recipient == other.recipient
            && self.fee == other.fee && self.fee_token == other.fee_token && self.group
            == other.group && self.nonce == other.nonce && self.signature == other.signature
    }

    /// The signer the transaction answers with: the memoized recovery when
    /// present, the signature's own recovery otherwise.
    pub open spec fn spec_effective_signer(self) -> Option<RecoveredSigner> {
        match self.cached_signer {
            VerifiedSignatureCache::Cached(c) => c,
            VerifiedSignatureCache::NotCached => self.signature.spec_recover(),
        }
    }

    /// The memoization slot never contradicts a cold recovery.
    pub open spec fn spec_cache_coherent(self) -> bool {
        self.spec_effective_signer() == self.signature.spec_recover()
    }

    /// The fee lies in the 128-bit range and inside the codec's range, so
    /// the canonical bytes exist.
    pub open spec fn spec_encodable(self) -> bool {
        &&& self.fee is Value
        &&& self.fee.spec_value() as nat <= spec_max_encodable(FEE_MAX_MANTISSA as nat)
    }

    /// The canonical byte encoding: tag, version, then the fixed-width
    /// fields in layout order.
    pub open spec fn spec_bytes(self) -> Seq<u8>
        recommends
            self.spec_encodable(),
    {
        seq![(255 - MINT_NFT_TX_TYPE) as u8, CURRENT_TX_VERSION] + spec_u32_be(self.creator_id)
            + self.creator_address.spec_bytes() + self.content_hash.spec_bytes()
            + self.recipient.spec_bytes() + spec_u32_be(self.fee_token) + spec_packed_fee_bytes(
            self.fee.spec_value(),
        ) + spec_u16_be(self.group) + spec_u32_be(self.nonce)
    }

    /// Creates a mint from all required fields.  A missing signature is
    /// replaced by the empty one, as when the state is restored from
    /// base-chain records.
    #[allow(clippy::too_many_arguments)]
    pub fn new(
        creator_id: u32,
        creator_address: Address,
        content_hash: H256,
        recipient: Address,
        fee: Amount,
        fee_token: u32,
        group: u16,
        nonce: u32,
        signature: Option<TxSignature>,
    ) -> (r: MintNFT)
        ensures
            r.creator_id == creator_id,
            r.creator_address == creator_address,
            r.content_hash == content_hash,
            r.recipient == recipient,
            r.fee == fee,
            r.fee_token == fee_token,
            r.group == group,
            r.nonce == nonce,
            r.signature == match signature {
                Some(s) => s,
                None => TxSignature { recovered_signer: None },
            },
            r.spec_cache_coherent(),
    {
        match signature {
            Some(s) => MintNFT {
                creator_id,
                creator_address,
                content_hash,
                recipient,
                fee,
                fee_token,
                group,
                nonce,
                signature: s,
                cached_signer: VerifiedSignatureCache::Cached(s.recover()),
            },
            None => MintNFT {
                creator_id,
                creator_address,
                content_hash,
                recipient,
                fee,
                fee_token,
                group,
                nonce,
                signature: TxSignature { recovered_signer: None },
                cached_signer: VerifiedSignatureCache::NotCached,
            },
        }
    }

    /// The canonical byte encoding of this mint.
    pub fn get_bytes(&self) -> (r: Vec<u8>)
        requires
            self.spec_encodable(),
        ensures
            r@ == self.spec_bytes(),
    {
        let mut out: Vec<u8> = Vec::new();
        out.push(255 - MINT_NFT_TX_TYPE);
        out.push(CURRENT_TX_VERSION);
        push_u32_be(&mut out, self.creator_id);
        self.creator_address.push_bytes(&mut out);
        self.content_hash.push_bytes(&mut out);
        self.recipient.push_bytes(&mut out);
        push_u32_be(&mut out, self.fee_token);
        let fee = match self.fee {
            Amount::Value(v) => v,
            Amount::Oversize => vstd::pervasive::unreached(),
        };
        let mut packed_fee = pack_fee_amount(fee);
        out.append(&mut packed_fee);
        push_u16_be(&mut out, self.group);
        push_u32_be(&mut out, self.nonce);
        proof {
            assert(out@ =~= self.spec_bytes());
        }
        out
    }

    /// Restores the signer's key hash from the native signature, answering
    /// from the memoization slot when it is filled.
    pub fn verify_signature(&self) -> (r: Option<RecoveredSigner>)
        ensures
            r == self.spec_effective_signer(),
    {
        match &self.cached_signer {
            VerifiedSignatureCache::Cached(c) => *c,
            VerifiedSignatureCache::NotCached => self.signature.recover(),
        }
    }

    /// Empties the memoization slot, so the next recovery is computed cold.
    pub fn wipe_signer_cache(&mut self)
        ensures
            final(self).spec_same_content(*old(self)),
            final(self).spec_cache_coherent(),
    {
        self.cached_signer = VerifiedSignatureCache::NotCached;
    }

    /// What the ordered correctness checks decide for a mint with this
    /// content, these authorization flags and this configuration.
    pub open spec fn spec_check_correctness(
        self,
        sender_authorized: bool,
        receiver_authorized: bool,
        config: ServerConfig,
    ) -> Result<(), TransactionError> {
        if config.permissioned && !sender_authorized {
            Err(TransactionError::NotAllowedSender)
        } else if config.permissioned && !receiver_authorized {
            Err(TransactionError::NotAllowedDestination)
        } else if self.fee is Oversize {
            Err(TransactionError::WrongFee)
        } else if !spec_packable(self.fee.spec_value() as nat, FEE_MAX_MANTISSA as nat) {
            Err(TransactionError::FeeNotPackable)
        } else if self.group != config.group_id {
            Err(TransactionError::WrongGroup)
        } else if self.creator_id > MAX_ACCOUNT_ID {
            Err(TransactionError::WrongCreatorId)
        } else if self.fee_token > MAX_PROCESSABLE_TOKEN {
            Err(TransactionError::WrongFeeToken)
        } else if self.spec_effective_signer() is None {
            Err(TransactionError::WrongSignature)
        } else {
            Ok(())
        }
    }

    /// Runs the ordered correctness checks: whitelist flags under
    /// permissioned mode, fee bounds and packability, group match, creator
    /// range, the fee-token rule, and finally native-signature recovery.
    /// The first failing check decides the error; content is never modified,
    /// only the recovery memo is filled.
    pub fn check_correctness(
        &mut self,
        sender_authorized: bool,
        receiver_authorized: bool,
        config: &ServerConfig,
    ) -> (r: Result<(), TransactionError>)
        ensures
            r == old(self).spec_check_correctness(sender_authorized, receiver_authorized, *config),
            final(self).spec_same_content(*old(self)),
            final(self).spec_effective_signer() == old(self).spec_effective_signer(),
    {
        if config.permissioned {
            if !sender_authorized {
                return Err(TransactionError::NotAllowedSender);
            }
            if !receiver_authorized {
                return Err(TransactionError::NotAllowedDestination);
            }
        }
        let fee = match self.fee {
            Amount::Value(v) => v,
            Amount::Oversize => {
                return Err(TransactionError::WrongFee);
            },
        };
        if !is_fee_amount_packable(fee) {
            return Err(TransactionError::FeeNotPackable);
        }
        if self.group != config.group_id {
            return Err(TransactionError::WrongGroup);
        }
        if self.creator_id > MAX_ACCOUNT_ID {
            return Err(TransactionError::WrongCreatorId);
        }
        if self.fee_token > MAX_PROCESSABLE_TOKEN {
            return Err(TransactionError::WrongFeeToken);
        }
        let signer = self.verify_signature();
        self.cached_signer = VerifiedSignatureCache::Cached(signer);
        if signer.is_none() {
            return Err(TransactionError::WrongSignature);
        }
        Ok(())
    }

    /// Running the checks is idempotent: filling the recovery memo with the
    /// effective signer never changes what a later run decides.
    pub proof fn lemma_check_correctness_idempotent(
        tx1: MintNFT,
        tx2: MintNFT,
        sender_authorized: bool,
        receiver_authorized: bool,
        config: ServerConfig,
    )
        requires
            tx1.spec_same_content(tx2),
            tx1.spec_effective_signer() == tx2.spec_effective_signer(),
        ensures
            tx1.spec_check_correctness(sender_authorized, receiver_authorized, config)
                == tx2.spec_check_correctness(sender_authorized, receiver_authorized, config),
    {
    }

    /// The canonical bytes are a pure function of the content fields, and
    /// for encodable mints with packable fees they pin the content down.
    #[verifier::rlimit(60)]
    pub proof fn lemma_bytes_injective(a: MintNFT, b: MintNFT)
        requires
            a.spec_encodable(),
            b.spec_encodable(),
            spec_packable(a.fee.spec_value() as nat, FEE_MAX_MANTISSA as nat),
            spec_packable(b.fee.spec_value() as nat, FEE_MAX_MANTISSA as nat),
            a.spec_bytes() == b.spec_bytes(),
        ensures
            a.creator_id == b.creator_id,
            a.creator_address == b.creator_address,
            a.content_hash == b.content_hash,
            a.recipient == b.recipient,
            a.fee == b.fee,
            a.fee_token == b.fee_token,
            a.group == b.group,
            a.nonce == b.nonce,
    {
        let sa = a.spec_bytes();
        let sb = b.spec_bytes();
        assert(sa.len() == 90 && sb.len() == 90);
        assert(spec_u32_be(a.creator_id) =~= sa.subrange(2, 6));
        assert(spec_u32_be(b.creator_id) =~= sb.subrange(2, 6));
        lemma_u32_be_injective(a.creator_id, b.creator_id);
        assert(a.creator_address.spec_bytes() =~= sa.subrange(6, 26));
        assert(b.creator_address.spec_bytes() =~= sb.subrange(6, 26));
        Address::lemma_bytes_injective(a.creator_address, b.creator_address);
        assert(a.content_hash.spec_bytes() =~= sa.subrange(26, 58));
        assert(b.content_hash.spec_bytes() =~= sb.subrange(26, 58));
        H256::lemma_bytes_injective(a.content_hash, b.content_hash);
        assert(a.recipient.spec_bytes() =~= sa.subrange(58, 78));
        assert(b.recipient.spec_bytes() =~= sb.subrange(58, 78));
        Address::lemma_bytes_injective(a.recipient, b.recipient);
        assert(spec_u32_be(a.fee_token) =~= sa.subrange(78, 82));
        assert(spec_u32_be(b.fee_token) =~= sb.subrange(78, 82));
        lemma_u32_be_injective(a.fee_token, b.fee_token);
        assert(spec_packed_fee_bytes(a.fee.spec_value()) =~= sa.subrange(82, 84));
        assert(spec_packed_fee_bytes(b.fee.spec_value()) =~= sb.subrange(82, 84));
        lemma_fee_amount_round_trip(a.fee.spec_value());
        lemma_fee_amount_round_trip(b.fee.spec_value());
        assert(a.fee.spec_value() == b.fee.spec_value());
        assert(spec_u16_be(a.group) =~= sa.subrange(84, 86));
        assert(spec_u16_be(b.group) =~= sb.subrange(84, 86));
        lemma_u16_be_injective(a.group, b.group);
        assert(spec_u32_be(a.nonce) =~= sa.subrange(86, 90));
        assert(spec_u32_be(b.nonce) =~= sb.subrange(86, 90));
        lemma_u32_be_injective(a.nonce, b.nonce);
    }

    /// The action line of the message a base-chain key signs for this mint,
    /// without the trailing nonce line.
    pub open spec fn spec_sign_message_part(self, token_symbol: Seq<char>, decimals: u8) -> Seq<
        char,
    > {
        let head = "MintNFT "@ + "0x"@ + spec_hex(self.content_hash.spec_bytes()) + " for: "@
            + "0x"@ + spec_hex(self.recipient.spec_bytes()) + ", on group: "@ + spec_dec(
            self.group as nat,
        );
        if !self.fee.spec_is_zero() {
            head + "\n"@ + "Fee: "@ + spec_format_units(
                self.fee.spec_value() as nat,
                decimals as nat,
            ) + " "@ + token_symbol
        } else {
            head
        }
    }

    /// The full message a base-chain key signs: the action line plus the
    /// trailing nonce line.
    pub open spec fn spec_sign_message(self, token_symbol: Seq<char>, decimals: u8) -> Seq<char> {
        self.spec_sign_message_part(token_symbol, decimals) + "\n"@ + "Nonce: "@ + spec_dec(
            self.nonce as nat,
        )
    }

    /// Builds the action line of the base-chain sign message.
    pub fn get_ethereum_sign_message_part(&self, token_symbol: &str, decimals: u8) -> (r: String)
        requires
            self.fee is Value,
            decimals <= 77,
        ensures
            r@ == self.spec_sign_message_part(token_symbol@, decimals),
    {
        let mut message = String::new();
        let fee = match self.fee {
            Amount::Value(v) => v,
            Amount::Oversize => vstd::pervasive::unreached(),
        };
        message.append("MintNFT ");
        push_h256_hex(&mut message, &self.content_hash);
        message.append(" for: ");
        push_address_hex(&mut message, &self.recipient);
        message.append(", on group: ");
        push_dec_u16(&mut message, self.group);
        if fee != 0 {
            message.append("\n");
            message.append("Fee: ");
            push_units(&mut message, fee, decimals);
            message.append(" ");
            message.append(token_symbol);
        }
        proof {
            assert(message@ =~= self.spec_sign_message_part(token_symbol@, decimals));
        }
        message
    }

    /// Builds the full message a base-chain key signs for two-factor
    /// authentication of this mint.
    pub fn get_ethereum_sign_message(&self, token_symbol: &str, decimals: u8) -> (r: String)
        requires
            self.fee is Value,
            decimals <= 77,
        ensures
            r@ == self.spec_sign_message(token_symbol@, decimals),
    {
        let mut message = self.get_ethereum_sign_message_part(token_symbol, decimals);
        message.append("\n");
        message.append("Nonce: ");
        push_dec_u32(&mut message, self.nonce);
        proof {
            assert(message@ =~= self.spec_sign_message(token_symbol@, decimals));
        }
        message
    }
}

/// The base-chain address a minted token's hash designates: the last twenty
/// bytes of the 32-byte token data.
pub fn calculate_token_address(data: &[u8]) -> (r: Address)
    requires
        data@.len() == 32,
    ensures
        r.spec_bytes() == data@.subrange(12, 32),
{
    let hi = u32_from_be(data[12], data[13], data[14], data[15]);
    let lo = u128_from_be(
        data[16],
        data[17],
        data[18],
        data[19],
        data[20],
        data[21],
        data[22],
        data[23],
        data[24],
        data[25],
        data[26],
        data[27],
        data[28],
        data[29],
        data[30],
        data[31],
    );
    let r = Address { hi, lo };
    proof {
        assert(r.spec_bytes() =~= data@.subrange(12, 32));
    }
    r
}

/// The numeric payload of a minted token's hash: its last sixteen bytes read
/// as a big-endian integer.
pub fn calculate_token_data(data: &[u8]) -> (r: u128)
    requires
        data@.len() == 32,
    ensures
        crate::primitives::spec_u128_be(r) == data@.subrange(16, 32),
{
    let r = u128_from_be(
        data[16],
        data[17],
        data[18],
        data[19],
        data[20],
        data[21],
        data[22],
        data[23],
        data[24],
        data[25],
        data[26],
        data[27],
        data[28],
        data[29],
        data[30],
        data[31],
    );
    proof {
        assert(crate::primitives::spec_u128_be(r) =~= data@.subrange(16, 32));
    }
    r
}

} // verus!

//! The polymorphic transaction wrapper: a closed union over the supported
//! kinds, dispatching encodings, checks and sign messages, plus the signed
//! envelope a request carries.

use vstd::prelude::*;

use crate::change_group::ChangeGroup;
use crate::change_pubkey::ChangePubKey;
use crate::close::{Close, CloseOperationsDisabled};
use crate::mint_nft::MintNFT;
use crate::operations::ChangeGroupOp;
use crate::primitives::{spec_u128_be, u128_from_be, Address, TxHash};
use crate::signature::{EthSignData, TxSignature};
use crate::time_range::TimeRange;
use crate::transfer::Transfer;
use crate::withdraw::Withdraw;
use crate::withdraw_nft::WithdrawNFT;
use crate::forced_exit::ForcedExit;
use crate::order::OrderError;
use crate::swap::Swap;
use crate::{
    change_group, change_pubkey, forced_exit, mint_nft, swap, transfer, withdraw, withdraw_nft,
    Amount, ServerConfig,
};

verus! {

/// A token as the registry resolves it for fee and message purposes.
#[derive(Clone, Debug)]
pub struct Token {
    pub id: u32,
    pub address: Address,
    pub symbol: String,
    pub decimals: u8,
}

/// The ways a caller may designate a token.
#[derive(Clone, Debug)]
pub enum TokenLike {
    Id(u32),
    Address(Address),
    Symbol(String),
}

/// Fee classes the fee estimator distinguishes.
#[derive(Clone, Copy, PartialEq, Eq, Structural, Debug)]
pub enum TxFeeTypes {
    Withdraw,
    FastWithdraw,
    Transfer,
    MintNFT,
    WithdrawNFT,
    FastWithdrawNFT,
    Swap,
    ChangePubKey,
}

/// A failed correctness check of any kind, tagged by the kind it came from.
#[derive(Clone, Copy, PartialEq, Eq, Structural, Debug)]
pub enum TransactionError {
    Transfer(transfer::TransactionError),
    Withdraw(withdraw::TransactionError),
    ChangeGroup(change_group::TransactionError),
    MintNFT(mint_nft::TransactionError),
    WithdrawNFT(withdraw_nft::TransactionError),
    ForcedExit(forced_exit::TransactionError),
    Swap(swap::TransactionError),
    ChangePubKey(change_pubkey::TransactionError),
    Close(CloseOperationsDisabled),
    Order(OrderError),
}

/// The set of layer-2 transactions this network supports.
#[derive(Clone, PartialEq, Eq, Debug)]
pub enum ZkSyncTx {
    Transfer(Box<Transfer>),
    Withdraw(Box<Withdraw>),
    Close(Box<Close>),
    ChangePubKey(Box<ChangePubKey>),
    ForcedExit(Box<ForcedExit>),
    MintNFT(Box<MintNFT>),
    Swap(Box<Swap>),
    WithdrawNFT(Box<WithdrawNFT>),
    ChangeGroup(Box<ChangeGroup>),
}

/// The name of the digest of a byte string under the 256-bit secure hash
/// this network addresses transactions by; a function of the bytes alone.
pub uninterp spec fn sha256_of(data: Seq<u8>) -> Seq<u8>;

/// Relies on parity_crypto::digest::sha256: a 32-byte digest that is a
/// function of the input bytes alone.
#[verifier::external_body]
fn sha256_digest(data: &Vec<u8>) -> (r: Vec<u8>)
    ensures
        r@ == sha256_of(data@),
        r@.len() == 32,
{
    parity_crypto::digest::sha256(data.as_slice()).to_vec()
}

impl ZkSyncTx {
    /// Whether the held kind's quantities lie within its encodable ranges,
    /// so canonical bytes exist.
    pub open spec fn spec_encodable(self) -> bool {
        match self {
            ZkSyncTx::Transfer(tx) => tx.spec_encodable(),
            ZkSyncTx::Withdraw(tx) => tx.spec_encodable(),
            ZkSyncTx::ForcedExit(tx) => tx.spec_encodable(),
            ZkSyncTx::WithdrawNFT(tx) => tx.spec_encodable(),
            ZkSyncTx::Swap(tx) => tx.spec_encodable(),
            ZkSyncTx::Close(_) => true,
            ZkSyncTx::ChangePubKey(tx) => tx.spec_encodable(),
            ZkSyncTx::MintNFT(tx) => tx.spec_encodable(),
            ZkSyncTx::ChangeGroup(tx) => tx.spec_encodable(),
        }
    }

    /// The held kind's canonical bytes.
    pub open spec fn spec_bytes(self) -> Seq<u8>
        recommends
            self.spec_encodable(),
    {
        match self {
            ZkSyncTx::Transfer(tx) => tx.spec_bytes(),
            ZkSyncTx::Withdraw(tx) => tx.spec_bytes(),
            ZkSyncTx::ForcedExit(tx) => tx.spec_bytes(),
            ZkSyncTx::WithdrawNFT(tx) => tx.spec_bytes(),
            ZkSyncTx::Swap(tx) => tx.spec_bytes(),
            ZkSyncTx::Close(tx) => tx.spec_bytes(),
            ZkSyncTx::ChangePubKey(tx) => tx.spec_bytes(),
            ZkSyncTx::MintNFT(tx) => tx.spec_bytes(),
            ZkSyncTx::ChangeGroup(tx) => tx.spec_bytes(),
        }
    }

    /// Encodes the transaction as the canonical byte sequence used for
    /// signing and hashing.
    pub fn get_bytes(&self) -> (r: Vec<u8>)
        requires
            self.spec_encodable(),
        ensures
            r@ == self.spec_bytes(),
    {
        match self {
            ZkSyncTx::Transfer(tx) => tx.get_bytes(),
            ZkSyncTx::Withdraw(tx) => tx.get_bytes(),
            ZkSyncTx::ForcedExit(tx) => tx.get_bytes(),
            ZkSyncTx::WithdrawNFT(tx) => tx.get_bytes(),
            ZkSyncTx::Swap(tx) => tx.get_bytes(),
            ZkSyncTx::Close(tx) => tx.get_bytes(),
            ZkSyncTx::ChangePubKey(tx) => tx.get_bytes(),
            ZkSyncTx::MintNFT(tx) => tx.get_bytes(),
            ZkSyncTx::ChangeGroup(tx) => tx.get_bytes(),
        }
    }

    /// The transaction's hash: the 256-bit digest of its canonical bytes,
    /// split into the hash word's two halves.
    pub fn hash(&self) -> (r: TxHash)
        requires
            self.spec_encodable(),
        ensures
            spec_u128_be(r.hi) == sha256_of(self.spec_bytes()).subrange(0, 16),
            spec_u128_be(r.lo) == sha256_of(self.spec_bytes()).subrange(16, 32),
    {
        let bytes = self.get_bytes();
        let digest = sha256_digest(&bytes);
        let hi = u128_from_be(
            digest[0],
            digest[1],
            digest[2],
            digest[3],
            digest[4],
            digest[5],
            digest[6],
            digest[7],
            digest[8],
            digest[9],
            digest[10],
            digest[11],
            digest[12],
            digest[13],
            digest[14],
            digest[15],
        );
        let lo = u128_from_be(
            digest[16],
            digest[17],
            digest[18],
            digest[19],
            digest[20],
            digest[21],
            digest[22],
            digest[23],
            digest[24],
            digest[25],
            digest[26],
            digest[27],
            digest[28],
            digest[29],
            digest[30],
            digest[31],
        );
        proof {
            assert(spec_u128_be(hi) =~= sha256_of(self.spec_bytes()).subrange(0, 16));
            assert(spec_u128_be(lo) =~= sha256_of(self.spec_bytes()).subrange(16, 32));
        }
        TxHash { hi, lo }
    }

    /// The address the transaction acts for.
    pub open spec fn spec_account(self) -> Address {
        match self {
            ZkSyncTx::Transfer(tx) => tx.from,
            ZkSyncTx::Withdraw(tx) => tx.from,
            ZkSyncTx::ForcedExit(tx) => tx.target,
            ZkSyncTx::WithdrawNFT(tx) => tx.from,
            ZkSyncTx::Swap(tx) => tx.submitter_address,
            ZkSyncTx::Close(tx) => tx.account,
            ZkSyncTx::ChangePubKey(tx) => tx.account,
            ZkSyncTx::MintNFT(tx) => tx.creator_address,
            ZkSyncTx::ChangeGroup(tx) => tx.from,
        }
    }

    /// Returns the account affected by the transaction.
    pub fn account(&self) -> (r: Address)
        ensures
            r == self.spec_account(),
    {
        match self {
            ZkSyncTx::Transfer(tx) => tx.from,
            ZkSyncTx::Withdraw(tx) => tx.from,
            ZkSyncTx::ForcedExit(tx) => tx.target,
            ZkSyncTx::WithdrawNFT(tx) => tx.from,
            ZkSyncTx::Swap(tx) => tx.submitter_address,
            ZkSyncTx::Close(tx) => tx.account,
            ZkSyncTx::ChangePubKey(tx) => tx.account,
            ZkSyncTx::MintNFT(tx) => tx.creator_address,
            ZkSyncTx::ChangeGroup(tx) => tx.from,
        }
    }

    /// Returns the account the transaction sends from.
    pub fn from_account(&self) -> (r: Address)
        ensures
            r == self.spec_account(),
    {
        self.account()
    }

    pub open spec fn spec_to_account(self) -> Option<Address> {
        match self {
            ZkSyncTx::Transfer(tx) => Some(tx.to),
            ZkSyncTx::Withdraw(tx) => Some(tx.to),
            ZkSyncTx::ForcedExit(tx) => Some(tx.target),
            ZkSyncTx::WithdrawNFT(tx) => Some(tx.to),
            ZkSyncTx::Swap(tx) => Some(tx.submitter_address),
            ZkSyncTx::Close(tx) => Some(tx.account),
            ZkSyncTx::ChangePubKey(tx) => Some(
                Address { hi: tx.new_pk_hash.hi, lo: tx.new_pk_hash.lo },
            ),
            ZkSyncTx::MintNFT(tx) => Some(tx.recipient),
            ZkSyncTx::ChangeGroup(tx) => Some(tx.to),
        }
    }

    /// Returns the account the transaction sends to, where one exists.
    pub fn to_account(&self) -> (r: Option<Address>)
        ensures
            r == self.spec_to_account(),
    {
        match self {
            ZkSyncTx::Transfer(tx) => Some(tx.to),
            ZkSyncTx::Withdraw(tx) => Some(tx.to),
            ZkSyncTx::ForcedExit(tx) => Some(tx.target),
            ZkSyncTx::WithdrawNFT(tx) => Some(tx.to),
            ZkSyncTx::Swap(tx) => Some(tx.submitter_address),
            ZkSyncTx::Close(tx) => Some(tx.account),
            ZkSyncTx::ChangePubKey(tx) => Some(
                Address { hi: tx.new_pk_hash.hi, lo: tx.new_pk_hash.lo },
            ),
            ZkSyncTx::MintNFT(tx) => Some(tx.recipient),
            ZkSyncTx::ChangeGroup(tx) => Some(tx.to),
        }
    }

    /// The token ids the transaction touches, deduplicated and ascending.
    pub open spec fn spec_tokens(self) -> Seq<u32> {
        match self {
            ZkSyncTx::Transfer(tx) => seq![tx.token],
            ZkSyncTx::Withdraw(tx) => seq![tx.token],
            ZkSyncTx::ForcedExit(tx) => seq![tx.token],
            ZkSyncTx::WithdrawNFT(tx) => if tx.token < tx.fee_token {
                seq![tx.token, tx.fee_token]
            } else if tx.token > tx.fee_token {
                seq![tx.fee_token, tx.token]
            } else {
                seq![tx.token]
            },
            ZkSyncTx::Swap(tx) => spec_insert_sorted(
                spec_insert_sorted(
                    spec_insert_sorted(Seq::empty(), tx.fee_token),
                    tx.orders.first.token_buy,
                ),
                tx.orders.first.token_sell,
            ),
            ZkSyncTx::Close(_) => seq![0u32],
            ZkSyncTx::ChangePubKey(tx) => seq![tx.fee_token],
            ZkSyncTx::MintNFT(tx) => seq![tx.fee_token],
            ZkSyncTx::ChangeGroup(tx) => seq![tx.token],
        }
    }

    /// Returns the touched token ids, deduplicated and ascending.
    pub fn tokens(&self) -> (r: Vec<u32>)
        ensures
            r@ == self.spec_tokens(),
    {
        let mut tokens: Vec<u32> = Vec::new();
        match self {
            ZkSyncTx::Transfer(tx) => tokens.push(tx.token),
            ZkSyncTx::Withdraw(tx) => tokens.push(tx.token),
            ZkSyncTx::ForcedExit(tx) => tokens.push(tx.token),
            ZkSyncTx::WithdrawNFT(tx) => {
                if tx.token < tx.fee_token {
                    tokens.push(tx.token);
                    tokens.push(tx.fee_token);
                } else if tx.token > tx.fee_token {
                    tokens.push(tx.fee_token);
                    tokens.push(tx.token);
                } else {
                    tokens.push(tx.token);
                }
            },
            ZkSyncTx::Swap(tx) => {
                insert_sorted(&mut tokens, tx.fee_token);
                insert_sorted(&mut tokens, tx.orders.first.token_buy);
                insert_sorted(&mut tokens, tx.orders.first.token_sell);
            },
            ZkSyncTx::Close(_) => tokens.push(0),
            ZkSyncTx::ChangePubKey(tx) => tokens.push(tx.fee_token),
            ZkSyncTx::MintNFT(tx) => tokens.push(tx.fee_token),
            ZkSyncTx::ChangeGroup(tx) => tokens.push(tx.token),
        }
        proof {
            assert(tokens@ =~= self.spec_tokens());
        }
        tokens
    }

    pub open spec fn spec_account_id(self) -> Result<u32, CloseOperationsDisabled> {
        match self {
            ZkSyncTx::Transfer(tx) => Ok(tx.account_id),
            ZkSyncTx::Withdraw(tx) => Ok(tx.account_id),
            ZkSyncTx::ForcedExit(tx) => Ok(tx.initiator_account_id),
            ZkSyncTx::WithdrawNFT(tx) => Ok(tx.account_id),
            ZkSyncTx::Swap(tx) => Ok(tx.submitter_id),
            ZkSyncTx::Close(_) => Err(CloseOperationsDisabled),
            ZkSyncTx::ChangePubKey(tx) => Ok(tx.account_id),
            ZkSyncTx::MintNFT(tx) => Ok(tx.creator_id),
            ZkSyncTx::ChangeGroup(tx) => Ok(tx.account_id),
        }
    }

    /// Returns the initiator's account id; closes have none.
    pub fn account_id(&self) -> (r: Result<u32, CloseOperationsDisabled>)
        ensures
            r == self.spec_account_id(),
    {
        match self {
            ZkSyncTx::Transfer(tx) => Ok(tx.account_id),
            ZkSyncTx::Withdraw(tx) => Ok(tx.account_id),
            ZkSyncTx::ForcedExit(tx) => Ok(tx.initiator_account_id),
            ZkSyncTx::WithdrawNFT(tx) => Ok(tx.account_id),
            ZkSyncTx::Swap(tx) => Ok(tx.submitter_id),
            ZkSyncTx::Close(_) => Err(CloseOperationsDisabled),
            ZkSyncTx::ChangePubKey(tx) => Ok(tx.account_id),
            ZkSyncTx::MintNFT(tx) => Ok(tx.creator_id),
            ZkSyncTx::ChangeGroup(tx) => Ok(tx.account_id),
        }
    }

    pub open spec fn spec_nonce(self) -> u32 {
        match self {
            ZkSyncTx::Transfer(tx) => tx.nonce,
            ZkSyncTx::Withdraw(tx) => tx.nonce,
            ZkSyncTx::ForcedExit(tx) => tx.nonce,
            ZkSyncTx::WithdrawNFT(tx) => tx.nonce,
            ZkSyncTx::Swap(tx) => tx.nonce,
            ZkSyncTx::Close(tx) => tx.nonce,
            ZkSyncTx::ChangePubKey(tx) => tx.nonce,
            ZkSyncTx::MintNFT(tx) => tx.nonce,
            ZkSyncTx::ChangeGroup(tx) => tx.nonce,
        }
    }

    /// Returns the account nonce associated with the transaction.
    pub fn nonce(&self) -> (r: u32)
        ensures
            r == self.spec_nonce(),
    {
        match self {
            ZkSyncTx::Transfer(tx) => tx.nonce,
            ZkSyncTx::Withdraw(tx) => tx.nonce,
            ZkSyncTx::ForcedExit(tx) => tx.nonce,
            ZkSyncTx::WithdrawNFT(tx) => tx.nonce,
            ZkSyncTx::Swap(tx) => tx.nonce,
            ZkSyncTx::Close(tx) => tx.nonce,
            ZkSyncTx::ChangePubKey(tx) => tx.nonce,
            ZkSyncTx::MintNFT(tx) => tx.nonce,
            ZkSyncTx::ChangeGroup(tx) => tx.nonce,
        }
    }

    pub open spec fn spec_signature(self) -> TxSignature {
        match self {
            ZkSyncTx::Transfer(tx) => tx.signature,
            ZkSyncTx::Withdraw(tx) => tx.signature,
            ZkSyncTx::ForcedExit(tx) => tx.signature,
            ZkSyncTx::WithdrawNFT(tx) => tx.signature,
            ZkSyncTx::Swap(tx) => tx.signature,
            ZkSyncTx::Close(tx) => tx.signature,
            ZkSyncTx::ChangePubKey(tx) => tx.signature,
            ZkSyncTx::MintNFT(tx) => tx.signature,
            ZkSyncTx::ChangeGroup(tx) => tx.signature,
        }
    }

    /// Returns the native signature carried by the held kind.
    pub fn signature(&self) -> (r: TxSignature)
        ensures
            r == self.spec_signature(),
    {
        match self {
            ZkSyncTx::Transfer(tx) => tx.signature,
            ZkSyncTx::Withdraw(tx) => tx.signature,
            ZkSyncTx::ForcedExit(tx) => tx.signature,
            ZkSyncTx::WithdrawNFT(tx) => tx.signature,
            ZkSyncTx::Swap(tx) => tx.signature,
            ZkSyncTx::Close(tx) => tx.signature,
            ZkSyncTx::ChangePubKey(tx) => tx.signature,
            ZkSyncTx::MintNFT(tx) => tx.signature,
            ZkSyncTx::ChangeGroup(tx) => tx.signature,
        }
    }

    pub open spec fn spec_token_id(self) -> u32 {
        match self {
            ZkSyncTx::Transfer(tx) => tx.token,
            ZkSyncTx::Withdraw(tx) => tx.token,
            ZkSyncTx::ForcedExit(tx) => tx.token,
            ZkSyncTx::WithdrawNFT(tx) => tx.fee_token,
            ZkSyncTx::Swap(tx) => tx.fee_token,
            ZkSyncTx::Close(_) => 0,
            ZkSyncTx::ChangePubKey(tx) => tx.fee_token,
            ZkSyncTx::MintNFT(tx) => tx.fee_token,
            ZkSyncTx::ChangeGroup(tx) => tx.token,
        }
    }

    /// Returns the token the fee is paid in; for a close, the base token,
    /// though the server declines closes before fees matter.
    pub fn token_id(&self) -> (r: u32)
        ensures
            r == self.spec_token_id(),
    {
        match self {
            ZkSyncTx::Transfer(tx) => tx.token,
            ZkSyncTx::Withdraw(tx) => tx.token,
            ZkSyncTx::ForcedExit(tx) => tx.token,
            ZkSyncTx::WithdrawNFT(tx) => tx.fee_token,
            ZkSyncTx::Swap(tx) => tx.fee_token,
            ZkSyncTx::Close(_) => 0,
            ZkSyncTx::ChangePubKey(tx) => tx.fee_token,
            ZkSyncTx::MintNFT(tx) => tx.fee_token,
            ZkSyncTx::ChangeGroup(tx) => tx.token,
        }
    }

    /// The two wrappers hold the same kind with the same content fields;
    /// only the recovery memos may differ, and the signers they answer with
    /// agree.
    pub open spec fn spec_same_content(self, other: ZkSyncTx) -> bool {
        match (self, other) {
            (ZkSyncTx::Transfer(x), ZkSyncTx::Transfer(y)) => x.spec_same_content(*y)
                && x.spec_effective_signer() == y.spec_effective_signer(),
            (ZkSyncTx::Withdraw(x), ZkSyncTx::Withdraw(y)) => x.spec_same_content(*y)
                && x.spec_effective_signer() == y.spec_effective_signer(),
            (ZkSyncTx::ForcedExit(x), ZkSyncTx::ForcedExit(y)) => x.spec_same_content(*y)
                && x.spec_effective_signer() == y.spec_effective_signer(),
            (ZkSyncTx::WithdrawNFT(x), ZkSyncTx::WithdrawNFT(y)) => x.spec_same_content(*y)
                && x.spec_effective_signer() == y.spec_effective_signer(),
            (ZkSyncTx::Swap(x), ZkSyncTx::Swap(y)) => x.spec_same_content(*y)
                && x.spec_effective_signer() == y.spec_effective_signer(),
            (ZkSyncTx::Close(x), ZkSyncTx::Close(y)) => x == y,
            (ZkSyncTx::ChangePubKey(x), ZkSyncTx::ChangePubKey(y)) => x.spec_same_content(*y)
                && x.spec_effective_signer() == y.spec_effective_signer(),
            (ZkSyncTx::MintNFT(x), ZkSyncTx::MintNFT(y)) => x.spec_same_content(*y)
                && x.spec_effective_signer() == y.spec_effective_signer(),
            (ZkSyncTx::ChangeGroup(x), ZkSyncTx::ChangeGroup(y)) => x.spec_same_content(*y)
                && x.spec_effective_signer() == y.spec_effective_signer(),
            _ => false,
        }
    }

    /// What the held kind's ordered correctness checks decide.
    pub open spec fn spec_check_correctness(
        self,
        sender_authorized: bool,
        receiver_authorized: bool,
        config: ServerConfig,
    ) -> Result<(), TransactionError> {
        match self {
            ZkSyncTx::Transfer(tx) => match tx.spec_check_correctness(
                sender_authorized,
                receiver_authorized,
                config,
            ) {
                Ok(()) => Ok(()),
                Err(e) => Err(TransactionError::Transfer(e)),
            },
            ZkSyncTx::Withdraw(tx) => match tx.spec_check_correctness(config) {
                Ok(()) => Ok(()),
                Err(e) => Err(TransactionError::Withdraw(e)),
            },
            ZkSyncTx::ForcedExit(tx) => match tx.spec_check_correctness(config) {
                Ok(()) => Ok(()),
                Err(e) => Err(TransactionError::ForcedExit(e)),
            },
            ZkSyncTx::WithdrawNFT(tx) => match tx.spec_check_correctness(config) {
                Ok(()) => Ok(()),
                Err(e) => Err(TransactionError::WithdrawNFT(e)),
            },
            ZkSyncTx::Swap(tx) => match tx.spec_check_correctness(
                sender_authorized,
                receiver_authorized,
                config,
            ) {
                Ok(()) => Ok(()),
                Err(e) => Err(TransactionError::Swap(e)),
            },
            ZkSyncTx::Close(_) => Err(TransactionError::Close(CloseOperationsDisabled)),
            ZkSyncTx::ChangePubKey(tx) => match tx.spec_check_correctness(config) {
                Ok(()) => Ok(()),
                Err(e) => Err(TransactionError::ChangePubKey(e)),
            },
            ZkSyncTx::MintNFT(tx) => match tx.spec_check_correctness(
                sender_authorized,
                receiver_authorized,
                config,
            ) {
                Ok(()) => Ok(()),
                Err(e) => Err(TransactionError::MintNFT(e)),
            },
            ZkSyncTx::ChangeGroup(tx) => match tx.spec_check_correctness(config) {
                Ok(()) => Ok(()),
                Err(e) => Err(TransactionError::ChangeGroup(e)),
            },
        }
    }

    /// Checks whether the transaction is well-formed and admissible,
    /// dispatching to the held kind's ordered checks.  Success here does not
    /// promise application will succeed: balances and nonces are the state
    /// handler's concern.
    pub fn check_correctness(
        &mut self,
        sender_authorized: bool,
        receiver_authorized: bool,
        config: &ServerConfig,
    ) -> (r: Result<(), TransactionError>)
        ensures
            r == old(self).spec_check_correctness(sender_authorized, receiver_authorized, *config),
            final(self).spec_same_content(*old(self)),
            old(self).spec_same_content(*final(self)),
    {
        match self {
            ZkSyncTx::Transfer(tx) => match tx.check_correctness(
                sender_authorized,
                receiver_authorized,
                config,
            ) {
                Ok(()) => Ok(()),
                Err(e) => Err(TransactionError::Transfer(e)),
            },
            ZkSyncTx::Withdraw(tx) => match tx.check_correctness(config) {
                Ok(()) => Ok(()),
                Err(e) => Err(TransactionError::Withdraw(e)),
            },
            ZkSyncTx::ForcedExit(tx) => match tx.check_correctness(config) {
                Ok(()) => Ok(()),
                Err(e) => Err(TransactionError::ForcedExit(e)),
            },
            ZkSyncTx::WithdrawNFT(tx) => match tx.check_correctness(config) {
                Ok(()) => Ok(()),
                Err(e) => Err(TransactionError::WithdrawNFT(e)),
            },
            ZkSyncTx::Swap(tx) => match tx.check_correctness(
                sender_authorized,
                receiver_authorized,
                config,
            ) {
                Ok(()) => Ok(()),
                Err(e) => Err(TransactionError::Swap(e)),
            },
            ZkSyncTx::Close(tx) => match tx.check_correctness() {
                Ok(()) => Ok(()),
                Err(e) => Err(TransactionError::Close(e)),
            },
            ZkSyncTx::ChangePubKey(tx) => match tx.check_correctness(config) {
                Ok(()) => Ok(()),
                Err(e) => Err(TransactionError::ChangePubKey(e)),
            },
            ZkSyncTx::MintNFT(tx) => match tx.check_correctness(
                sender_authorized,
                receiver_authorized,
                config,
            ) {
                Ok(()) => Ok(()),
                Err(e) => Err(TransactionError::MintNFT(e)),
            },
            ZkSyncTx::ChangeGroup(tx) => match tx.check_correctness(config) {
                Ok(()) => Ok(()),
                Err(e) => Err(TransactionError::ChangeGroup(e)),
            },
        }
    }

    /// Returns the message the user's base-chain key must sign to send this
    /// transaction, or `None` where no message signature applies: key
    /// changes carry their authorization to the contract instead, and closes
    /// are disabled.
    pub fn get_ethereum_sign_message(&self, token: &Token) -> (r: Option<String>)
        requires
            match self {
                ZkSyncTx::Transfer(tx) => tx.amount is Value && tx.fee is Value,
                ZkSyncTx::Withdraw(tx) => tx.amount is Value && tx.fee is Value,
                ZkSyncTx::ForcedExit(tx) => tx.fee is Value,
                ZkSyncTx::MintNFT(tx) => tx.fee is Value,
                ZkSyncTx::WithdrawNFT(tx) => tx.fee is Value,
                ZkSyncTx::Swap(tx) => tx.fee is Value,
                ZkSyncTx::ChangeGroup(tx) => tx.amount is Value && tx.fee is Value,
                _ => true,
            },
            token.decimals <= 77,
        ensures
            match self {
                ZkSyncTx::Transfer(tx) => r matches Some(m) && m@ == tx.spec_sign_message(
                    token.symbol@,
                    token.decimals,
                ),
                ZkSyncTx::Withdraw(tx) => r matches Some(m) && m@ == tx.spec_sign_message(
                    token.symbol@,
                    token.decimals,
                ),
                ZkSyncTx::ForcedExit(tx) => r matches Some(m) && m@ == tx.spec_sign_message(
                    token.symbol@,
                    token.decimals,
                ),
                ZkSyncTx::MintNFT(tx) => r matches Some(m) && m@ == tx.spec_sign_message(
                    token.symbol@,
                    token.decimals,
                ),
                ZkSyncTx::WithdrawNFT(tx) => r matches Some(m) && m@ == tx.spec_sign_message(
                    token.symbol@,
                    token.decimals,
                ),
                ZkSyncTx::Swap(tx) => r matches Some(m) && m@ == tx.spec_sign_message(
                    token.symbol@,
                    token.decimals,
                ),
                ZkSyncTx::ChangeGroup(tx) => r matches Some(m) && m@ == tx.spec_sign_message(
                    token.symbol@,
                    token.decimals,
                ),
                _ => r is None,
            },
    {
        match self {
            ZkSyncTx::Transfer(tx) => Some(
                tx.get_ethereum_sign_message(token.symbol.as_str(), token.decimals),
            ),
            ZkSyncTx::Withdraw(tx) => Some(
                tx.get_ethereum_sign_message(token.symbol.as_str(), token.decimals),
            ),
            ZkSyncTx::ForcedExit(tx) => Some(
                tx.get_ethereum_sign_message(token.symbol.as_str(), token.decimals),
            ),
            ZkSyncTx::MintNFT(tx) => Some(
                tx.get_ethereum_sign_message(token.symbol.as_str(), token.decimals),
            ),
            ZkSyncTx::WithdrawNFT(tx) => Some(
                tx.get_ethereum_sign_message(token.symbol.as_str(), token.decimals),
            ),
            ZkSyncTx::Swap(tx) => Some(
                tx.get_ethereum_sign_message(token.symbol.as_str(), token.decimals),
            ),
            ZkSyncTx::ChangeGroup(tx) => Some(
                tx.get_ethereum_sign_message(token.symbol.as_str(), token.decimals),
            ),
            _ => None,
        }
    }

    /// Returns this transaction's line of a batch message; key changes do
    /// get a line there, closes none.
    pub fn get_ethereum_sign_message_part(&self, token: &Token) -> (r: Option<String>)
        requires
            match self {
                ZkSyncTx::Transfer(tx) => tx.amount is Value && tx.fee is Value,
                ZkSyncTx::Withdraw(tx) => tx.amount is Value && tx.fee is Value,
                ZkSyncTx::ForcedExit(tx) => tx.fee is Value,
                ZkSyncTx::ChangePubKey(tx) => tx.fee is Value,
                ZkSyncTx::MintNFT(tx) => tx.fee is Value,
                ZkSyncTx::WithdrawNFT(tx) => tx.fee is Value,
                ZkSyncTx::Swap(tx) => tx.fee is Value,
                ZkSyncTx::ChangeGroup(tx) => tx.amount is Value && tx.fee is Value,
                _ => true,
            },
            token.decimals <= 77,
        ensures
            match self {
                ZkSyncTx::Transfer(tx) => r matches Some(m) && m@ == tx.spec_sign_message_part(
                    token.symbol@,
                    token.decimals,
                ),
                ZkSyncTx::Withdraw(tx) => r matches Some(m) && m@ == tx.spec_sign_message_part(
                    token.symbol@,
                    token.decimals,
                ),
                ZkSyncTx::ForcedExit(tx) => r matches Some(m) && m@ == tx.spec_sign_message_part(
                    token.symbol@,
                    token.decimals,
                ),
                ZkSyncTx::ChangePubKey(tx) => r matches Some(m) && m@ == tx.spec_sign_message_part(
                    token.symbol@,
                    token.decimals,
                ),
                ZkSyncTx::MintNFT(tx) => r matches Some(m) && m@ == tx.spec_sign_message_part(
                    token.symbol@,
                    token.decimals,
                ),
                ZkSyncTx::WithdrawNFT(tx) => r matches Some(m) && m@ == tx.spec_sign_message_part(
                    token.symbol@,
                    token.decimals,
                ),
                ZkSyncTx::Swap(tx) => r matches Some(m) && m@ == tx.spec_sign_message_part(
                    token.symbol@,
                    token.decimals,
                ),
                ZkSyncTx::ChangeGroup(tx) => r matches Some(m) && m@ == tx.spec_sign_message_part(
                    token.symbol@,
                    token.decimals,
                ),
                _ => r is None,
            },
    {
        match self {
            ZkSyncTx::Transfer(tx) => Some(
                tx.get_ethereum_sign_message_part(token.symbol.as_str(), token.decimals),
            ),
            ZkSyncTx::Withdraw(tx) => Some(
                tx.get_ethereum_sign_message_part(token.symbol.as_str(), token.decimals),
            ),
            ZkSyncTx::ForcedExit(tx) => Some(
                tx.get_ethereum_sign_message_part(token.symbol.as_str(), token.decimals),
            ),
            ZkSyncTx::ChangePubKey(tx) => Some(
                tx.get_ethereum_sign_message_part(token.symbol.as_str(), token.decimals),
            ),
            ZkSyncTx::MintNFT(tx) => Some(
                tx.get_ethereum_sign_message_part(token.symbol.as_str(), token.decimals),
            ),
            ZkSyncTx::WithdrawNFT(tx) => Some(
                tx.get_ethereum_sign_message_part(token.symbol.as_str(), token.decimals),
            ),
            ZkSyncTx::Swap(tx) => Some(
                tx.get_ethereum_sign_message_part(token.symbol.as_str(), token.decimals),
            ),
            ZkSyncTx::ChangeGroup(tx) => Some(
                tx.get_ethereum_sign_message_part(token.symbol.as_str(), token.decimals),
            ),
            _ => None,
        }
    }

    pub open spec fn spec_min_chunks(self) -> usize {
        match self {
            ZkSyncTx::Transfer(_) => 2,
            ZkSyncTx::Withdraw(_) => 6,
            ZkSyncTx::ForcedExit(_) => 6,
            ZkSyncTx::WithdrawNFT(_) => 10,
            ZkSyncTx::Swap(_) => 5,
            ZkSyncTx::Close(_) => 1,
            ZkSyncTx::ChangePubKey(_) => 6,
            ZkSyncTx::MintNFT(_) => 5,
            ZkSyncTx::ChangeGroup(_) => ChangeGroupOp::CHUNKS,
        }
    }

    /// The minimum number of block chunks this kind occupies: its per-kind
    /// constant capacity cost.
    pub fn min_chunks(&self) -> (r: usize)
        ensures
            r == self.spec_min_chunks(),
    {
        match self {
            ZkSyncTx::Transfer(_) => 2,
            ZkSyncTx::Withdraw(_) => 6,
            ZkSyncTx::ForcedExit(_) => 6,
            ZkSyncTx::WithdrawNFT(_) => 10,
            ZkSyncTx::Swap(_) => 5,
            ZkSyncTx::Close(_) => 1,
            ZkSyncTx::ChangePubKey(_) => 6,
            ZkSyncTx::MintNFT(_) => 5,
            ZkSyncTx::ChangeGroup(_) => ChangeGroupOp::CHUNKS,
        }
    }

    /// Whether the transaction moves funds out of the operator's group or
    /// off the rollup.
    pub fn is_withdraw(&self) -> (r: bool)
        ensures
            r == (self is ChangeGroup || self is Withdraw || self is ForcedExit
                || self is WithdrawNFT),
    {
        match self {
            ZkSyncTx::ChangeGroup(_) => true,
            ZkSyncTx::Withdraw(_) => true,
            ZkSyncTx::ForcedExit(_) => true,
            ZkSyncTx::WithdrawNFT(_) => true,
            _ => false,
        }
    }

    /// Whether the transaction is a legacy close.
    pub fn is_close(&self) -> (r: bool)
        ensures
            r == (self is Close),
    {
        match self {
            ZkSyncTx::Close(_) => true,
            _ => false,
        }
    }

    /// The data the fee estimator needs: fee class, token, recipient and the
    /// fee offered.
    pub open spec fn spec_fee_info(self) -> Option<(TxFeeTypes, u32, Address, Amount)> {
        match self {
            ZkSyncTx::Transfer(tx) => Some((TxFeeTypes::Transfer, tx.token, tx.to, tx.fee)),
            ZkSyncTx::Withdraw(tx) => Some(
                (
                    if tx.fast {
                        TxFeeTypes::FastWithdraw
                    } else {
                        TxFeeTypes::Withdraw
                    },
                    tx.token,
                    tx.to,
                    tx.fee,
                ),
            ),
            ZkSyncTx::ForcedExit(tx) => Some((TxFeeTypes::Withdraw, tx.token, tx.target, tx.fee)),
            ZkSyncTx::WithdrawNFT(tx) => Some(
                (
                    if tx.fast {
                        TxFeeTypes::FastWithdrawNFT
                    } else {
                        TxFeeTypes::WithdrawNFT
                    },
                    tx.fee_token,
                    tx.to,
                    tx.fee,
                ),
            ),
            ZkSyncTx::Swap(tx) => Some(
                (TxFeeTypes::Swap, tx.fee_token, tx.submitter_address, tx.fee),
            ),
            ZkSyncTx::Close(_) => None,
            ZkSyncTx::ChangePubKey(tx) => Some(
                (TxFeeTypes::ChangePubKey, tx.fee_token, tx.account, tx.fee),
            ),
            ZkSyncTx::MintNFT(tx) => Some(
                (TxFeeTypes::MintNFT, tx.fee_token, tx.creator_address, tx.fee),
            ),
            ZkSyncTx::ChangeGroup(tx) => Some(
                (
                    if tx.fast {
                        TxFeeTypes::FastWithdraw
                    } else {
                        TxFeeTypes::Withdraw
                    },
                    tx.token,
                    tx.to,
                    tx.fee,
                ),
            ),
        }
    }

    /// Returns the data required to estimate this transaction's fee, or
    /// `None` where no fee applies.
    pub fn get_fee_info(&self) -> (r: Option<(TxFeeTypes, TokenLike, Address, Amount)>)
        ensures
            match self.spec_fee_info() {
                Some(info) => r matches Some(ri) && ri.0 == info.0 && ri.1 is Id
                    && ri.1->Id_0 == info.1 && ri.2 == info.2 && ri.3 == info.3,
                None => r is None,
            },
    {
        match self {
            ZkSyncTx::Transfer(tx) => Some(
                (TxFeeTypes::Transfer, TokenLike::Id(tx.token), tx.to, tx.fee),
            ),
            ZkSyncTx::Withdraw(tx) => {
                let fee_type = if tx.fast {
                    TxFeeTypes::FastWithdraw
                } else {
                    TxFeeTypes::Withdraw
                };
                Some((fee_type, TokenLike::Id(tx.token), tx.to, tx.fee))
            },
            ZkSyncTx::ForcedExit(tx) => Some(
                (TxFeeTypes::Withdraw, TokenLike::Id(tx.token), tx.target, tx.fee),
            ),
            ZkSyncTx::WithdrawNFT(tx) => {
                let fee_type = if tx.fast {
                    TxFeeTypes::FastWithdrawNFT
                } else {
                    TxFeeTypes::WithdrawNFT
                };
                Some((fee_type, TokenLike::Id(tx.fee_token), tx.to, tx.fee))
            },
            ZkSyncTx::Swap(tx) => Some(
                (TxFeeTypes::Swap, TokenLike::Id(tx.fee_token), tx.submitter_address, tx.fee),
            ),
            ZkSyncTx::Close(_) => None,
            ZkSyncTx::ChangePubKey(tx) => Some(
                (TxFeeTypes::ChangePubKey, TokenLike::Id(tx.fee_token), tx.account, tx.fee),
            ),
            ZkSyncTx::MintNFT(tx) => Some(
                (TxFeeTypes::MintNFT, TokenLike::Id(tx.fee_token), tx.creator_address, tx.fee),
            ),
            ZkSyncTx::ChangeGroup(tx) => {
                let fee_type = if tx.fast {
                    TxFeeTypes::FastWithdraw
                } else {
                    TxFeeTypes::Withdraw
                };
                Some((fee_type, TokenLike::Id(tx.token), tx.to, tx.fee))
            },
        }
    }

    pub open spec fn spec_time_range(self) -> TimeRange {
        match self {
            ZkSyncTx::Transfer(tx) => tx.spec_time_range_or_default(),
            ZkSyncTx::Withdraw(tx) => tx.spec_time_range_or_default(),
            ZkSyncTx::ForcedExit(tx) => tx.spec_time_range_or_default(),
            ZkSyncTx::WithdrawNFT(tx) => tx.time_range,
            ZkSyncTx::Swap(tx) => TimeRange {
                valid_from: tx.spec_valid_from(),
                valid_until: tx.spec_valid_until(),
            },
            ZkSyncTx::Close(tx) => tx.time_range,
            ZkSyncTx::ChangePubKey(tx) => tx.spec_time_range_or_default(),
            ZkSyncTx::MintNFT(_) => TimeRange { valid_from: 0, valid_until: u64::MAX },
            ZkSyncTx::ChangeGroup(tx) => match tx.time_range {
                Some(t) => t,
                None => TimeRange { valid_from: 0, valid_until: u64::MAX },
            },
        }
    }

    /// Returns the transaction's validity window, unbounded where the kind
    /// carries none.
    pub fn time_range(&self) -> (r: TimeRange)
        ensures
            r == self.spec_time_range(),
    {
        match self {
            ZkSyncTx::Transfer(tx) => match tx.time_range {
                Some(t) => t,
                None => TimeRange::default(),
            },
            ZkSyncTx::Withdraw(tx) => match tx.time_range {
                Some(t) => t,
                None => TimeRange::default(),
            },
            ZkSyncTx::ForcedExit(tx) => match tx.time_range {
                Some(t) => t,
                None => TimeRange::default(),
            },
            ZkSyncTx::WithdrawNFT(tx) => tx.time_range,
            ZkSyncTx::Swap(tx) => TimeRange {
                valid_from: tx.valid_from(),
                valid_until: tx.valid_until(),
            },
            ZkSyncTx::Close(tx) => tx.time_range,
            ZkSyncTx::ChangePubKey(tx) => match tx.time_range {
                Some(t) => t,
                None => TimeRange::default(),
            },
            ZkSyncTx::MintNFT(_) => TimeRange::default(),
            ZkSyncTx::ChangeGroup(tx) => match tx.time_range {
                Some(t) => t,
                None => TimeRange::default(),
            },
        }
    }

    /// Returns the first moment the transaction may execute.
    pub fn valid_from(&self) -> (r: u64)
        ensures
            r == if self is MintNFT {
                0u64
            } else {
                self.spec_time_range().valid_from
            },
    {
        match self {
            ZkSyncTx::MintNFT(_) => 0,
            _ => self.time_range().valid_from,
        }
    }

    pub open spec fn spec_variance_name(self) -> Seq<char> {
        match self {
            ZkSyncTx::Transfer(_) => "Transfer"@,
            ZkSyncTx::Withdraw(_) => "Withdraw"@,
            ZkSyncTx::ForcedExit(_) => "ForcedExit"@,
            ZkSyncTx::WithdrawNFT(_) => "WithdrawNFT"@,
            ZkSyncTx::Swap(_) => "Swap"@,
            ZkSyncTx::Close(_) => "Close"@,
            ZkSyncTx::ChangePubKey(_) => "ChangePubKey"@,
            ZkSyncTx::MintNFT(_) => "MintNFT"@,
            ZkSyncTx::ChangeGroup(_) => "ChangeGroup"@,
        }
    }

    /// The held kind's name, for operator-facing reporting.
    pub fn variance_name(&self) -> (r: String)
        ensures
            r@ == self.spec_variance_name(),
    {
        match self {
            ZkSyncTx::Transfer(_) => String::from_str("Transfer"),
            ZkSyncTx::Withdraw(_) => String::from_str("Withdraw"),
            ZkSyncTx::ForcedExit(_) => String::from_str("ForcedExit"),
            ZkSyncTx::WithdrawNFT(_) => String::from_str("WithdrawNFT"),
            ZkSyncTx::Swap(_) => String::from_str("Swap"),
            ZkSyncTx::Close(_) => String::from_str("Close"),
            ZkSyncTx::ChangePubKey(_) => String::from_str("ChangePubKey"),
            ZkSyncTx::MintNFT(_) => String::from_str("MintNFT"),
            ZkSyncTx::ChangeGroup(_) => String::from_str("ChangeGroup"),
        }
    }
}

/// Where `x` belongs in an ascending duplicate-free list: the list with `x`
/// placed, or unchanged when already present.
pub open spec fn spec_insert_sorted(s: Seq<u32>, x: u32) -> Seq<u32>
    decreases s.len(),
{
    if s.len() == 0 {
        seq![x]
    } else if x < s[0] {
        seq![x] + s
    } else if x == s[0] {
        s
    } else {
        seq![s[0]] + spec_insert_sorted(s.drop_first(), x)
    }
}

/// Places `x` into an ascending duplicate-free list, keeping it ascending
/// and duplicate-free.
fn insert_sorted(v: &mut Vec<u32>, x: u32)
    ensures
        final(v)@ == spec_insert_sorted(old(v)@, x),
{
    let n = v.len();
    let mut i: usize = 0;
    while i < n && v[i] < x
        invariant
            n == v@.len(),
            i <= n,
            v == old(v),
            forall|j: int| 0 <= j < i ==> v@[j] < x,
        decreases n - i,
    {
        i = i + 1;
    }
    if i < n && v[i] == x {
        proof {
            lemma_insert_sorted_at(v@, x, i as int);
        }
        return ;
    }
    proof {
        lemma_insert_sorted_at(v@, x, i as int);
    }
    v.insert(i, x);
}

/// The recursive placement agrees with position-based insertion at the
/// first index whose element is not below `x`.
proof fn lemma_insert_sorted_at(s: Seq<u32>, x: u32, i: int)
    requires
        0 <= i <= s.len(),
        forall|j: int| 0 <= j < i ==> s[j] < x,
        i < s.len() ==> s[i] >= x,
    ensures
        spec_insert_sorted(s, x) == if i < s.len() && s[i] == x {
            s
        } else {
            s.insert(i, x)
        },
    decreases s.len(),
{
    if s.len() == 0 {
        assert(spec_insert_sorted(s, x) =~= s.insert(0, x));
    } else if i == 0 {
        if s[0] == x {
        } else {
            assert(x < s[0]);
            assert(seq![x] + s =~= s.insert(0, x));
        }
    } else {
        assert(s[0] < x);
        lemma_insert_sorted_at(s.drop_first(), x, i - 1);
        if i < s.len() && s[i] == x {
            assert(s.drop_first()[i - 1] == x);
            assert(seq![s[0]] + s.drop_first() =~= s);
        } else {
            assert(seq![s[0]] + s.drop_first().insert(i - 1, x) =~= s.insert(i, x));
        }
    }
}

/// A transaction plus its optional base-chain signature and message, and the
/// arrival timestamp used only for latency accounting.
#[derive(Clone, PartialEq, Eq, Debug)]
pub struct SignedZkSyncTx {
    /// The underlying transaction.
    pub tx: ZkSyncTx,
    /// The base-chain signature and the message the user's key signed;
    /// `None` where no base-chain signature is required.
    pub eth_sign_data: Option<EthSignData>,
    /// Arrival time in milliseconds since the epoch, latency accounting
    /// only.
    pub created_at_millis: u64,
}

impl SignedZkSyncTx {
    /// Milliseconds elapsed since arrival, given the present moment; zero
    /// when clocks disagree.
    pub fn elapsed(&self, now_millis: u64) -> (r: u64)
        ensures
            r == if now_millis >= self.created_at_millis {
                (now_millis - self.created_at_millis) as u64
            } else {
                0u64
            },
    {
        if now_millis >= self.created_at_millis {
            now_millis - self.created_at_millis
        } else {
            0
        }
    }
}

} // verus!

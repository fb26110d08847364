//! The deterministic state-transition handler: given an already-verified
//! transaction and the account tree, computes the resulting account
//! mutations and collected fee, enforcing nonce and balance invariants.
//!
//! Every kind follows a two-phase contract: `create_..._op` is pure
//! validation producing an immutable operation record, and `apply_..._op` is
//! the only step that mutates account state.  An application either fails
//! with a specific error and leaves the state untouched, or updates exactly
//! one account and reports the diff.

use vstd::prelude::*;

use crate::change_group::ChangeGroup;
use crate::operations::{ChangeGroupOp, FullChangeGroup, FullChangeGroupOp, ZkSyncOp};
use crate::primitives::{Address, PubKeyHash, H256};
use crate::store::{lemma_seq_map_index, KeyedVec};
use crate::{MAX_ACCOUNT_ID, MAX_FUNGIBLE_TOKEN_ID, MAX_PROCESSABLE_TOKEN, MAX_TOKEN_ID};

verus! {

/// A minted non-fungible token as the account tree remembers it.
#[derive(Clone, Debug)]
pub struct NFT {
    pub id: u32,
    pub serial_id: u32,
    pub creator_address: Address,
    pub creator_id: u32,
    pub address: Address,
    pub symbol: String,
    pub content_hash: H256,
}

/// One leaf of the account tree: an address, the key hash that validates
/// native signatures, a monotonic nonce and a balance per token.
#[derive(Debug)]
pub struct Account {
    pub address: Address,
    pub pub_key_hash: PubKeyHash,
    pub nonce: u32,
    pub balances: KeyedVec<u128>,
}

impl Account {
    pub open spec fn wf(self) -> bool {
        self.balances.wf()
    }

    /// The balance held in `token`; zero when the account never touched it.
    pub open spec fn spec_balance(self, token: u32) -> u128 {
        if self.balances@.contains_key(token as u64) {
            self.balances@[token as u64]
        } else {
            0
        }
    }

    pub fn get_balance(&self, token: u32) -> (r: u128)
        requires
            self.wf(),
        ensures
            r == self.spec_balance(token),
    {
        match self.balances.get(token as u64) {
            Some(b) => *b,
            None => 0,
        }
    }
}

/// An append-only diff record: how one application changed one account.
/// The order of such records within one application is significant and
/// preserved.
#[derive(Clone, Copy, PartialEq, Eq, Structural, Debug)]
pub enum AccountUpdate {
    UpdateBalance {
        token: u32,
        old_balance: u128,
        new_balance: u128,
        old_nonce: u32,
        new_nonce: u32,
    },
}

/// The ordered diff records of one application.
pub type AccountUpdates = Vec<(u32, AccountUpdate)>;

/// The fee one applied operation collected.
#[derive(Clone, Copy, PartialEq, Eq, Structural, Debug)]
pub struct CollectedFee {
    pub token: u32,
    pub amount: u128,
}

/// Everything a successful application reports.
#[derive(Debug)]
pub struct OpSuccess {
    pub fee: Option<CollectedFee>,
    pub updates: AccountUpdates,
    pub executed_op: ZkSyncOp,
}

/// Why creating or applying a group-change operation fails.
#[derive(Clone, Copy, PartialEq, Eq, Structural, Debug)]
pub enum ChangeGroupOpError {
    InvalidTokenId,
    InvalidFeeTokenId,
    FromAccountNotFound,
    FromAccountLocked,
    InvalidSignature,
    FromAccountIncorrect,
    NonceMismatch,
    InsufficientBalance,
}

impl ChangeGroupOpError {
    pub open spec fn spec_message(self) -> Seq<char> {
        match self {
            ChangeGroupOpError::InvalidTokenId => "Token id is out of range"@,
            ChangeGroupOpError::InvalidFeeTokenId => "Fees cannot be paid in this token"@,
            ChangeGroupOpError::FromAccountNotFound => "Sender account does not exist"@,
            ChangeGroupOpError::FromAccountLocked => "Sender account has no signing key set"@,
            ChangeGroupOpError::InvalidSignature => "Native signature does not match the account"@,
            ChangeGroupOpError::FromAccountIncorrect => "Account id does not match the sender address"@,
            ChangeGroupOpError::NonceMismatch => "Nonce does not match the account"@,
            ChangeGroupOpError::InsufficientBalance => "Balance is too low for amount and fee"@,
        }
    }

    /// A human-readable rendering of the error.
    pub fn message(&self) -> (r: String)
        ensures
            r@ == self.spec_message(),
    {
        match self {
            ChangeGroupOpError::InvalidTokenId => String::from_str("Token id is out of range"),
            ChangeGroupOpError::InvalidFeeTokenId => String::from_str(
                "Fees cannot be paid in this token",
            ),
            ChangeGroupOpError::FromAccountNotFound => String::from_str(
                "Sender account does not exist",
            ),
            ChangeGroupOpError::FromAccountLocked => String::from_str(
                "Sender account has no signing key set",
            ),
            ChangeGroupOpError::InvalidSignature => String::from_str(
                "Native signature does not match the account",
            ),
            ChangeGroupOpError::FromAccountIncorrect => String::from_str(
                "Account id does not match the sender address",
            ),
            ChangeGroupOpError::NonceMismatch => String::from_str(
                "Nonce does not match the account",
            ),
            ChangeGroupOpError::InsufficientBalance => String::from_str(
                "Balance is too low for amount and fee",
            ),
        }
    }
}

/// The first entry whose account carries `addr`, searched in storage order.
pub open spec fn spec_find_by_address(s: Seq<(u64, Account)>, addr: Address) -> Option<(
    u64,
    Account,
)>
    decreases s.len(),
{
    if s.len() == 0 {
        None
    } else if s[0].1.address == addr {
        Some(s[0])
    } else {
        spec_find_by_address(s.drop_first(), addr)
    }
}

/// The mutable account tree this operator owns, plus the registry of minted
/// tokens.  The caller serializes applications: the handler itself performs
/// no locking.
pub struct ZkSyncState {
    pub accounts: KeyedVec<Account>,
    pub nfts: KeyedVec<NFT>,
}

impl ZkSyncState {
    /// Well-formed tree: distinct keys, 32-bit account ids, per-account
    /// balance tables well-formed.
    pub open spec fn wf(self) -> bool {
        &&& self.accounts.wf()
        &&& self.nfts.wf()
        &&& forall|k: u64|
            self.accounts@.contains_key(k) ==> (#[trigger] self.accounts@[k]).wf() && k
                <= u32::MAX as u64
    }

    pub fn new() -> (r: ZkSyncState)
        ensures
            r.wf(),
            r.accounts@ == Map::<u64, Account>::empty(),
            r.nfts@ == Map::<u64, NFT>::empty(),
    {
        ZkSyncState { accounts: KeyedVec::new(), nfts: KeyedVec::new() }
    }

    /// The account stored under `id`, if any.
    pub fn get_account(&self, id: u32) -> (r: Option<&Account>)
        requires
            self.wf(),
        ensures
            match r {
                Some(a) => self.accounts@.contains_key(id as u64) && *a == self.accounts@[id as u64],
                None => !self.accounts@.contains_key(id as u64),
            },
    {
        self.accounts.get(id as u64)
    }

    /// Stores `account` under `id`, replacing any previous leaf.
    pub fn insert_account(&mut self, id: u32, account: Account)
        requires
            old(self).wf(),
            account.wf(),
        ensures
            final(self).wf(),
            final(self).accounts@ == old(self).accounts@.insert(id as u64, account),
            final(self).nfts == old(self).nfts,
    {
        self.accounts.insert(id as u64, account);
    }

    /// The first account carrying `addr`, with its id, searched in storage
    /// order.
    pub fn get_account_by_address(&self, addr: &Address) -> (r: Option<(u32, &Account)>)
        requires
            self.wf(),
        ensures
            match r {
                Some((id, a)) => {
                    &&& spec_find_by_address(self.accounts.entries@, *addr) == Some(
                        (id as u64, *a),
                    )
                    &&& self.accounts@.contains_key(id as u64)
                    &&& self.accounts@[id as u64] == *a
                    &&& a.address == addr
                },
                None => spec_find_by_address(self.accounts.entries@, *addr) is None,
            },
    {
        let ghost s = self.accounts.entries@;
        let n = self.accounts.entries.len();
        let mut i: usize = 0;
        proof {
            assert(s.skip(0) =~= s);
        }
        while i < n
            invariant
                self.wf(),
                s == self.accounts.entries@,
                n == s.len(),
                i <= n,
                spec_find_by_address(s, *addr) == spec_find_by_address(s.skip(i as int), *addr),
            decreases n - i,
        {
            let entry = &self.accounts.entries[i];
            proof {
                assert(s.skip(i as int)[0] == s[i as int]);
            }
            if entry.1.address == *addr {
                proof {
                    lemma_seq_map_index(s, i as int);
                    assert(self.accounts@.contains_key(s[i as int].0));
                    assert(s[i as int].0 <= u32::MAX as u64);
                    assert(spec_find_by_address(s.skip(i as int), *addr) == Some(s[i as int]));
                }
                return Some((entry.0 as u32, &entry.1));
            }
            i = i + 1;
            proof {
                assert(s.skip(i - 1).drop_first() =~= s.skip(i as int));
            }
        }
        proof {
            assert(s.skip(n as int) =~= Seq::<(u64, Account)>::empty());
        }
        None
    }

    /// What the pure validation phase decides for a group change against
    /// this state: the checks in order, or the operation record.
    pub open spec fn spec_create_change_group_op(self, tx: ChangeGroup) -> Result<
        ChangeGroupOp,
        ChangeGroupOpError,
    > {
        if tx.token > MAX_FUNGIBLE_TOKEN_ID {
            Err(ChangeGroupOpError::InvalidTokenId)
        } else if !tx.fee.spec_is_zero() && tx.token > MAX_PROCESSABLE_TOKEN {
            Err(ChangeGroupOpError::InvalidFeeTokenId)
        } else {
            match spec_find_by_address(self.accounts.entries@, tx.from) {
                None => Err(ChangeGroupOpError::FromAccountNotFound),
                Some((id, account)) => {
                    if account.pub_key_hash.spec_is_default() {
                        Err(ChangeGroupOpError::FromAccountLocked)
                    } else if match tx.spec_effective_signer() {
                        Some(s) => s.key_hash != account.pub_key_hash,
                        None => false,
                    } {
                        Err(ChangeGroupOpError::InvalidSignature)
                    } else if id != tx.account_id as u64 {
                        Err(ChangeGroupOpError::FromAccountIncorrect)
                    } else {
                        Ok(ChangeGroupOp { tx, account_id: tx.account_id })
                    }
                },
            }
        }
    }

    /// Pure validation of a group change: token ranges, sender existence,
    /// an established signing key, signature-to-key match, and the declared
    /// account id matching the id resolved from the sender address.  Reads
    /// state, never writes it.
    pub fn create_change_group_op(&self, tx: ChangeGroup) -> (r: Result<
        ChangeGroupOp,
        ChangeGroupOpError,
    >)
        requires
            self.wf(),
        ensures
            r == self.spec_create_change_group_op(tx),
    {
        if tx.token > MAX_FUNGIBLE_TOKEN_ID {
            return Err(ChangeGroupOpError::InvalidTokenId);
        }
        if !tx.fee.is_zero() && tx.token > MAX_PROCESSABLE_TOKEN {
            return Err(ChangeGroupOpError::InvalidFeeTokenId);
        }
        let (account_id, account) = match self.get_account_by_address(&tx.from) {
            Some(p) => p,
            None => {
                return Err(ChangeGroupOpError::FromAccountNotFound);
            },
        };
        if account.pub_key_hash.is_default() {
            return Err(ChangeGroupOpError::FromAccountLocked);
        }
        if let Some(signer) = tx.verify_signature() {
            if signer.key_hash != account.pub_key_hash {
                return Err(ChangeGroupOpError::InvalidSignature);
            }
        }
        if account_id != tx.account_id {
            return Err(ChangeGroupOpError::FromAccountIncorrect);
        }
        let id = tx.account_id;
        Ok(ChangeGroupOp { tx, account_id: id })
    }

    /// The first invariant a group-change application violates against this
    /// state, if any: account range, exact nonce, then sufficient balance
    /// (an amount or fee beyond the 128-bit range can never be covered).
    pub open spec fn spec_apply_change_group_check(self, op: ChangeGroupOp) -> Option<
        ChangeGroupOpError,
    > {
        if op.account_id > MAX_ACCOUNT_ID {
            Some(ChangeGroupOpError::FromAccountIncorrect)
        } else {
            let account = self.accounts@[op.account_id as u64];
            if op.tx.nonce != account.nonce {
                Some(ChangeGroupOpError::NonceMismatch)
            } else if !(op.tx.amount is Value && op.tx.fee is Value
                && op.tx.amount.spec_value() + op.tx.fee.spec_value() <= account.spec_balance(
                op.tx.token,
            )) {
                Some(ChangeGroupOpError::InsufficientBalance)
            } else {
                None
            }
        }
    }

    /// Applies a group-change operation: checks the account range, the exact
    /// nonce and the balance, then debits amount plus fee, increments the
    /// nonce by one, and reports one diff record and the collected fee.  On
    /// any violation the state is left exactly as it was.
    pub fn apply_change_group_op(&mut self, op: &ChangeGroupOp) -> (r: Result<
        (Option<CollectedFee>, AccountUpdates),
        ChangeGroupOpError,
    >)
        requires
            old(self).wf(),
            op.account_id <= MAX_ACCOUNT_ID ==> old(self).accounts@.contains_key(
                op.account_id as u64,
            ) && old(self).accounts@[op.account_id as u64].nonce < u32::MAX,
        ensures
            final(self).wf(),
            match r {
                Ok((fee, updates)) => {
                    let account = old(self).accounts@[op.account_id as u64];
                    let total = (op.tx.amount.spec_value() + op.tx.fee.spec_value()) as u128;
                    let old_balance = account.spec_balance(op.tx.token);
                    &&& old(self).spec_apply_change_group_check(*op) is None
                    &&& fee == Some(
                        CollectedFee { token: op.tx.token, amount: op.tx.fee.spec_value() },
                    )
                    &&& updates@ == seq![
                        (
                            op.account_id,
                            AccountUpdate::UpdateBalance {
                                token: op.tx.token,
                                old_balance: old_balance,
                                new_balance: (old_balance - total) as u128,
                                old_nonce: account.nonce,
                                new_nonce: (account.nonce + 1) as u32,
                            },
                        ),
                    ]
                    &&& final(self).nfts == old(self).nfts
                    &&& final(self).accounts@.dom() == old(self).accounts@.dom()
                    &&& forall|k: u64|
                        old(self).accounts@.contains_key(k) && k != op.account_id as u64
                            ==> #[trigger] final(self).accounts@[k] == old(self).accounts@[k]
                    &&& {
                        let na = final(self).accounts@[op.account_id as u64];
                        &&& na.address == account.address
                        &&& na.pub_key_hash == account.pub_key_hash
                        &&& na.nonce == account.nonce + 1
                        &&& na.balances@ == account.balances@.insert(
                            op.tx.token as u64,
                            (old_balance - total) as u128,
                        )
                    }
                },
                Err(e) => {
                    &&& *final(self) == *old(self)
                    &&& old(self).spec_apply_change_group_check(*op) == Some(e)
                },
            },
    {
        if op.account_id > MAX_ACCOUNT_ID {
            return Err(ChangeGroupOpError::FromAccountIncorrect);
        }
        let (old_nonce, old_balance) = {
            let account = match self.accounts.get(op.account_id as u64) {
                Some(a) => a,
                None => vstd::pervasive::unreached(),
            };
            (account.nonce, account.get_balance(op.tx.token))
        };
        if op.tx.nonce != old_nonce {
            return Err(ChangeGroupOpError::NonceMismatch);
        }
        let amount = match op.tx.amount {
            crate::Amount::Value(v) => v,
            crate::Amount::Oversize => {
                return Err(ChangeGroupOpError::InsufficientBalance);
            },
        };
        let fee = match op.tx.fee {
            crate::Amount::Value(v) => v,
            crate::Amount::Oversize => {
                return Err(ChangeGroupOpError::InsufficientBalance);
            },
        };
        let total = match amount.checked_add(fee) {
            Some(t) => t,
            None => {
                return Err(ChangeGroupOpError::InsufficientBalance);
            },
        };
        if old_balance < total {
            return Err(ChangeGroupOpError::InsufficientBalance);
        }
        let mut account = match self.accounts.remove(op.account_id as u64) {
            Some(a) => a,
            None => vstd::pervasive::unreached(),
        };
        account.balances.insert(op.tx.token as u64, old_balance - total);
        account.nonce = account.nonce + 1;
        let new_nonce = account.nonce;
        self.accounts.insert(op.account_id as u64, account);
        proof {
            assert(final(self).accounts@ =~= old(self).accounts@.insert(
                op.account_id as u64,
                final(self).accounts@[op.account_id as u64],
            ));
            assert(final(self).accounts@.dom() =~= old(self).accounts@.dom());
        }
        let mut updates: AccountUpdates = Vec::new();
        updates.push(
            (
                op.account_id,
                AccountUpdate::UpdateBalance {
                    token: op.tx.token,
                    old_balance,
                    new_balance: old_balance - total,
                    old_nonce,
                    new_nonce,
                },
            ),
        );
        proof {
            assert(updates@ =~= seq![
                (
                    op.account_id,
                    AccountUpdate::UpdateBalance {
                        token: op.tx.token,
                        old_balance: old_balance,
                        new_balance: (old_balance - total) as u128,
                        old_nonce: old_nonce,
                        new_nonce: new_nonce,
                    },
                ),
            ]);
        }
        Ok((Some(CollectedFee { token: op.tx.token, amount: fee }), updates))
    }

    /// Validates and applies a group change in one step, packaging the
    /// executed operation for the witness layer.
    pub fn apply_change_group(&mut self, tx: ChangeGroup) -> (r: Result<
        OpSuccess,
        ChangeGroupOpError,
    >)
        requires
            old(self).wf(),
            forall|k: u64|
                old(self).accounts@.contains_key(k) ==> (#[trigger] old(
                    self,
                ).accounts@[k]).nonce < u32::MAX,
        ensures
            final(self).wf(),
            match old(self).spec_create_change_group_op(tx) {
                Err(e) => r is Err && r->Err_0 == e && *final(self) == *old(self),
                Ok(op) => match old(self).spec_apply_change_group_check(op) {
                    Some(e) => r is Err && r->Err_0 == e && *final(self) == *old(self),
                    None => {
                        let account = old(self).accounts@[op.account_id as u64];
                        let total = (op.tx.amount.spec_value() + op.tx.fee.spec_value()) as u128;
                        let old_balance = account.spec_balance(op.tx.token);
                        &&& r is Ok
                        &&& r->Ok_0.executed_op is ChangeGroup
                        &&& r->Ok_0.executed_op->ChangeGroup_0 == op
                        &&& r->Ok_0.fee == Some(
                            CollectedFee { token: op.tx.token, amount: op.tx.fee.spec_value() },
                        )
                        &&& r->Ok_0.updates@ == seq![
                            (
                                op.account_id,
                                AccountUpdate::UpdateBalance {
                                    token: op.tx.token,
                                    old_balance: old_balance,
                                    new_balance: (old_balance - total) as u128,
                                    old_nonce: account.nonce,
                                    new_nonce: (account.nonce + 1) as u32,
                                },
                            ),
                        ]
                    },
                },
            },
    {
        let op = match self.create_change_group_op(tx) {
            Ok(op) => op,
            Err(e) => {
                return Err(e);
            },
        };
        proof {
            if op.account_id <= MAX_ACCOUNT_ID {
                lemma_find_gives_key(self.accounts.entries@, op.tx.from);
            }
        }
        let (fee, updates) = match self.apply_change_group_op(&op) {
            Ok(p) => p,
            Err(e) => {
                return Err(e);
            },
        };
        Ok(OpSuccess { fee, updates, executed_op: ZkSyncOp::ChangeGroup(op) })
    }
}

impl ZkSyncState {
    /// The whole balance the priority operation will drain, when the account
    /// exists under the declared id and address.
    pub open spec fn spec_full_change_group_amount(self, priority_op: FullChangeGroup) -> Option<
        u128,
    > {
        if self.accounts@.contains_key(priority_op.account_id as u64)
            && self.accounts@[priority_op.account_id as u64].address == priority_op.eth_address {
            Some(self.accounts@[priority_op.account_id as u64].spec_balance(priority_op.token))
        } else {
            None
        }
    }

    /// Pure validation of a full group change.  Authorization happened on
    /// the base-chain contract, which also enforces the token range, so a
    /// token outside it here is a fatal defect, not an input error.  The
    /// withdrawn amount is the account's whole current balance; a minted
    /// token brings its registry data along for re-registration.
    pub fn create_full_change_group_op(&self, priority_op: FullChangeGroup) -> (r:
        FullChangeGroupOp)
        requires
            self.wf(),
            priority_op.token <= MAX_TOKEN_ID,
        ensures
            r.priority_op == priority_op,
            r.withdraw_amount == self.spec_full_change_group_amount(priority_op),
            (priority_op.token > MAX_FUNGIBLE_TOKEN_ID && self.nfts@.contains_key(
                priority_op.token as u64,
            )) ==> {
                let nft = self.nfts@[priority_op.token as u64];
                r.creator_account_id == Some(nft.creator_id) && r.creator_address == Some(
                    nft.creator_address,
                ) && r.serial_id == Some(nft.serial_id) && r.content_hash == Some(nft.content_hash)
            },
            !(priority_op.token > MAX_FUNGIBLE_TOKEN_ID && self.nfts@.contains_key(
                priority_op.token as u64,
            )) ==> r.creator_account_id is None && r.creator_address is None && r.serial_id is None
                && r.content_hash is None,
    {
        let account_balance: Option<u128> = match self.get_account(priority_op.account_id) {
            Some(account) => {
                if account.address == priority_op.eth_address {
                    Some(account.get_balance(priority_op.token))
                } else {
                    None
                }
            },
            None => None,
        };
        if priority_op.token > MAX_FUNGIBLE_TOKEN_ID {
            if let Some(nft) = self.nfts.get(priority_op.token as u64) {
                return FullChangeGroupOp {
                    priority_op,
                    withdraw_amount: account_balance,
                    creator_account_id: Some(nft.creator_id),
                    creator_address: Some(nft.creator_address),
                    serial_id: Some(nft.serial_id),
                    content_hash: Some(nft.content_hash),
                };
            }
        }
        FullChangeGroupOp {
            priority_op,
            withdraw_amount: account_balance,
            creator_account_id: None,
            creator_address: None,
            serial_id: None,
            content_hash: None,
        }
    }

    /// Applies a full group change: drains the account's whole recorded
    /// balance of the token, leaving it exactly zero, without touching the
    /// nonce.  An operation with no withdrawable amount applies as a no-op.
    /// The amount was computed from the same state by `create`, so a
    /// mismatch with the current balance is state corruption and excluded by
    /// contract rather than reported.
    pub fn apply_full_change_group_op(&mut self, op: &FullChangeGroupOp) -> (r: (
        Option<CollectedFee>,
        AccountUpdates,
    ))
        requires
            old(self).wf(),
            op.withdraw_amount is Some ==> old(self).accounts@.contains_key(
                op.priority_op.account_id as u64,
            ) && old(self).accounts@[op.priority_op.account_id as u64].spec_balance(
                op.priority_op.token,
            ) == op.withdraw_amount->Some_0,
        ensures
            final(self).wf(),
            r.0 is None,
            match op.withdraw_amount {
                None => r.1@ == Seq::<(u32, AccountUpdate)>::empty() && *final(self) == *old(self),
                Some(amount) => {
                    let id = op.priority_op.account_id;
                    let account = old(self).accounts@[id as u64];
                    &&& r.1@ == seq![
                        (
                            id,
                            AccountUpdate::UpdateBalance {
                                token: op.priority_op.token,
                                old_balance: amount,
                                new_balance: 0u128,
                                old_nonce: account.nonce,
                                new_nonce: account.nonce,
                            },
                        ),
                    ]
                    &&& final(self).nfts == old(self).nfts
                    &&& final(self).accounts@.dom() == old(self).accounts@.dom()
                    &&& forall|k: u64|
                        old(self).accounts@.contains_key(k) && k != id as u64
                            ==> #[trigger] final(self).accounts@[k] == old(self).accounts@[k]
                    &&& {
                        let na = final(self).accounts@[id as u64];
                        &&& na.address == account.address
                        &&& na.pub_key_hash == account.pub_key_hash
                        &&& na.nonce == account.nonce
                        &&& na.balances@ == account.balances@.insert(
                            op.priority_op.token as u64,
                            0u128,
                        )
                    }
                },
            },
    {
        let amount = match op.withdraw_amount {
            Some(a) => a,
            None => {
                return (None, Vec::new());
            },
        };
        let id = op.priority_op.account_id;
        let mut account = match self.accounts.remove(id as u64) {
            Some(a) => a,
            None => vstd::pervasive::unreached(),
        };
        let old_balance = account.get_balance(op.priority_op.token);
        let old_nonce = account.nonce;
        account.balances.insert(op.priority_op.token as u64, 0);
        self.accounts.insert(id as u64, account);
        proof {
            assert(final(self).accounts@ =~= old(self).accounts@.insert(
                id as u64,
                final(self).accounts@[id as u64],
            ));
            assert(final(self).accounts@.dom() =~= old(self).accounts@.dom());
        }
        let mut updates: AccountUpdates = Vec::new();
        updates.push(
            (
                id,
                AccountUpdate::UpdateBalance {
                    token: op.priority_op.token,
                    old_balance,
                    new_balance: 0,
                    old_nonce,
                    new_nonce: old_nonce,
                },
            ),
        );
        proof {
            assert(updates@ =~= seq![
                (
                    id,
                    AccountUpdate::UpdateBalance {
                        token: op.priority_op.token,
                        old_balance: old_balance,
                        new_balance: 0u128,
                        old_nonce: old_nonce,
                        new_nonce: old_nonce,
                    },
                ),
            ]);
        }
        (None, updates)
    }

    /// Validates and applies a full group change in one step, packaging the
    /// executed operation for the witness layer.
    pub fn apply_full_change_group(&mut self, priority_op: FullChangeGroup) -> (r: OpSuccess)
        requires
            old(self).wf(),
            priority_op.token <= MAX_TOKEN_ID,
        ensures
            final(self).wf(),
            r.fee is None,
            r.executed_op is FullChangeGroup,
            r.executed_op->FullChangeGroup_0.priority_op == priority_op,
            r.executed_op->FullChangeGroup_0.withdraw_amount == old(
                self,
            ).spec_full_change_group_amount(priority_op),
            match old(self).spec_full_change_group_amount(priority_op) {
                None => r.updates@ == Seq::<(u32, AccountUpdate)>::empty() && *final(self) == *old(
                    self,
                ),
                Some(amount) => r.updates@ == seq![
                    (
                        priority_op.account_id,
                        AccountUpdate::UpdateBalance {
                            token: priority_op.token,
                            old_balance: amount,
                            new_balance: 0u128,
                            old_nonce: old(
                                self,
                            ).accounts@[priority_op.account_id as u64].nonce,
                            new_nonce: old(self).accounts@[priority_op.account_id as u64].nonce,
                        },
                    ),
                ],
            },
    {
        let op = self.create_full_change_group_op(priority_op);
        let (fee, updates) = self.apply_full_change_group_op(&op);
        OpSuccess { fee, updates, executed_op: ZkSyncOp::FullChangeGroup(op) }
    }
}

/// A hit of the address search is an entry of the map.
pub proof fn lemma_find_gives_key(s: Seq<(u64, Account)>, addr: Address)
    requires
        forall|a: int, b: int|
            0 <= a < b < s.len() ==> (#[trigger] s[a]).0 != (#[trigger] s[b]).0,
    ensures
        match spec_find_by_address(s, addr) {
            Some((id, account)) => seq_map_contains_pair(s, id, account),
            None => true,
        },
    decreases s.len(),
{
    if s.len() > 0 && spec_find_by_address(s, addr) is Some {
        if s[0].1.address == addr {
            lemma_seq_map_index(s, 0);
        } else {
            assert(forall|a: int, b: int|
                0 <= a < b < s.drop_first().len() ==> (#[trigger] s.drop_first()[a]).0 != (
                #[trigger] s.drop_first()[b]).0);
            lemma_find_gives_key(s.drop_first(), addr);
            let (id, account) = spec_find_by_address(s.drop_first(), addr)->Some_0;
            let i = choose|i: int|
                0 <= i < s.drop_first().len() && #[trigger] s.drop_first()[i] == (id, account);
            assert(s[i + 1] == (id, account));
            lemma_seq_map_index(s, i + 1);
        }
    }
}

/// The pair `(id, account)` stands in the map of `s`.
pub open spec fn seq_map_contains_pair(s: Seq<(u64, Account)>, id: u64, account: Account) -> bool {
    &&& crate::store::seq_map(s).contains_key(id)
    &&& crate::store::seq_map(s)[id] == account
    &&& exists|i: int| 0 <= i < s.len() && #[trigger] s[i] == (id, account)
}

} // verus!

//! Operator-facing record types: transaction receipts, batch summaries, and
//! the policy-toggle request with its signed message.

use vstd::prelude::*;

use crate::operations::{ZkSyncOp, ZkSyncPriorityOp};
use crate::primitives::{Address, PubKeyHash, TxHash, H256};
use crate::signature::{EthBatchSignData, TxEthSignature};
use crate::text::{push_dec_u64, push_pub_key_hash_hex, spec_dec, spec_hex};
use crate::zksync_tx::ZkSyncTx;

verus! {

/// How far a block has progressed on the base chain.
#[derive(Clone, Copy, PartialEq, Eq, Structural, Debug)]
pub enum BlockStatus {
    Committed,
    Finalized,
}

/// How far a transaction has progressed.
#[derive(Clone, Copy, PartialEq, Eq, Structural, Debug)]
pub enum TxInBlockStatus {
    Queued,
    Committed,
    Finalized,
    Rejected,
}

impl TxInBlockStatus {
    /// The status a block's own status implies for its transactions.
    pub fn from_block_status(status: BlockStatus) -> (r: TxInBlockStatus)
        ensures
            r == match status {
                BlockStatus::Committed => TxInBlockStatus::Committed,
                BlockStatus::Finalized => TxInBlockStatus::Finalized,
            },
    {
        match status {
            BlockStatus::Committed => TxInBlockStatus::Committed,
            BlockStatus::Finalized => TxInBlockStatus::Finalized,
        }
    }
}

/// A transaction batch as submitted, with its optional aggregated
/// signatures.
#[derive(Debug)]
pub struct IncomingTxBatch {
    pub txs: Vec<ZkSyncTx>,
    pub signature: Option<EthBatchSignData>,
}

/// Receipt of a base-chain-initiated operation.
#[derive(Clone, Copy, PartialEq, Eq, Structural, Debug)]
pub struct L1Receipt {
    pub status: TxInBlockStatus,
    pub eth_block: u64,
    pub rollup_block: Option<u32>,
    pub id: u64,
}

/// Receipt of a rollup transaction.
#[derive(Debug)]
pub struct L2Receipt {
    pub tx_hash: TxHash,
    pub rollup_block: Option<u32>,
    pub status: TxInBlockStatus,
    pub fail_reason: Option<String>,
}

/// Either receipt kind.
#[derive(Debug)]
pub enum Receipt {
    L1(L1Receipt),
    L2(L2Receipt),
}

/// One reported transaction with its execution status.
#[derive(Debug)]
pub struct Transaction {
    pub tx_hash: TxHash,
    pub block_index: Option<u32>,
    pub block_number: Option<u32>,
    pub op: TransactionData,
    pub status: TxInBlockStatus,
    pub fail_reason: Option<String>,
    pub created_at_millis: Option<u64>,
    pub batch_id: Option<u32>,
}

/// The operation a reported transaction performed.
#[derive(Debug)]
pub enum TransactionData {
    L1(L1Transaction),
    L2(L2Transaction),
}

/// A reported rollup transaction.
#[derive(Debug)]
pub enum L2Transaction {
    Tx(Box<ZkSyncTx>),
}

/// A transaction and its base-chain signature rendering, as reported.
#[derive(Debug)]
pub struct TxData {
    pub tx: Transaction,
    pub eth_signature: Option<String>,
}

/// A reported deposit.
#[derive(Clone, Copy, PartialEq, Eq, Structural, Debug)]
pub struct ApiDeposit {
    pub from: Address,
    pub token_id: u32,
    pub amount: u128,
    pub to: Address,
    pub account_id: Option<u32>,
    pub eth_hash: H256,
    pub id: u64,
    pub tx_hash: TxHash,
    pub group: u16,
}

/// A reported full exit.
#[derive(Clone, Copy, PartialEq, Eq, Structural, Debug)]
pub struct ApiFullExit {
    pub account_id: u32,
    pub token_id: u32,
    pub group: u16,
    pub eth_hash: H256,
    pub id: u64,
    pub tx_hash: TxHash,
}

/// A reported full group change.
#[derive(Clone, Copy, PartialEq, Eq, Structural, Debug)]
pub struct ApiFullChangeGroup {
    pub account_id: u32,
    pub token_id: u32,
    pub group1: u16,
    pub group2: u16,
    pub eth_hash: H256,
    pub id: u64,
    pub tx_hash: TxHash,
}

/// A reported base-chain-initiated transaction.
#[derive(Clone, Copy, PartialEq, Eq, Structural, Debug)]
pub enum L1Transaction {
    Deposit(ApiDeposit),
    FullExit(ApiFullExit),
    FullChangeGroup(ApiFullChangeGroup),
}

impl L1Transaction {
    /// Reports an executed operation, or `None` for operations that did not
    /// originate on the base chain.
    pub fn from_executed_op(op: &ZkSyncOp, eth_hash: H256, id: u64, tx_hash: TxHash) -> (r: Option<
        L1Transaction,
    >)
        ensures
            r == match *op {
                ZkSyncOp::Deposit(deposit) => Some(
                    L1Transaction::Deposit(
                        ApiDeposit {
                            from: deposit.priority_op.from,
                            token_id: deposit.priority_op.token,
                            amount: deposit.priority_op.amount,
                            to: deposit.priority_op.to,
                            account_id: Some(deposit.account_id),
                            group: deposit.priority_op.group,
                            eth_hash,
                            id,
                            tx_hash,
                        },
                    ),
                ),
                ZkSyncOp::FullExit(exit) => Some(
                    L1Transaction::FullExit(
                        ApiFullExit {
                            token_id: exit.priority_op.token,
                            account_id: exit.priority_op.account_id,
                            group: exit.priority_op.group,
                            eth_hash,
                            id,
                            tx_hash,
                        },
                    ),
                ),
                ZkSyncOp::FullChangeGroup(cg) => Some(
                    L1Transaction::FullChangeGroup(
                        ApiFullChangeGroup {
                            token_id: cg.priority_op.token,
                            account_id: cg.priority_op.account_id,
                            group1: cg.priority_op.group1,
                            group2: cg.priority_op.group2,
                            eth_hash,
                            id,
                            tx_hash,
                        },
                    ),
                ),
                ZkSyncOp::ChangeGroup(_) => None,
            },
    {
        match op {
            ZkSyncOp::Deposit(deposit) => Some(
                L1Transaction::Deposit(
                    ApiDeposit {
                        from: deposit.priority_op.from,
                        token_id: deposit.priority_op.token,
                        amount: deposit.priority_op.amount,
                        to: deposit.priority_op.to,
                        account_id: Some(deposit.account_id),
                        group: deposit.priority_op.group,
                        eth_hash,
                        id,
                        tx_hash,
                    },
                ),
            ),
            ZkSyncOp::FullExit(exit) => Some(
                L1Transaction::FullExit(
                    ApiFullExit {
                        token_id: exit.priority_op.token,
                        account_id: exit.priority_op.account_id,
                        group: exit.priority_op.group,
                        eth_hash,
                        id,
                        tx_hash,
                    },
                ),
            ),
            ZkSyncOp::FullChangeGroup(cg) => Some(
                L1Transaction::FullChangeGroup(
                    ApiFullChangeGroup {
                        token_id: cg.priority_op.token,
                        account_id: cg.priority_op.account_id,
                        group1: cg.priority_op.group1,
                        group2: cg.priority_op.group2,
                        eth_hash,
                        id,
                        tx_hash,
                    },
                ),
            ),
            ZkSyncOp::ChangeGroup(_) => None,
        }
    }

    /// Reports a priority operation still waiting to execute.
    pub fn from_pending_op(op: &ZkSyncPriorityOp, eth_hash: H256, id: u64, tx_hash: TxHash) -> (r:
        L1Transaction)
        ensures
            r == match *op {
                ZkSyncPriorityOp::Deposit(deposit) => L1Transaction::Deposit(
                    ApiDeposit {
                        from: deposit.from,
                        token_id: deposit.token,
                        amount: deposit.amount,
                        group: deposit.group,
                        to: deposit.to,
                        account_id: None,
                        eth_hash,
                        id,
                        tx_hash,
                    },
                ),
                ZkSyncPriorityOp::FullExit(exit) => L1Transaction::FullExit(
                    ApiFullExit {
                        token_id: exit.token,
                        account_id: exit.account_id,
                        group: exit.group,
                        eth_hash,
                        id,
                        tx_hash,
                    },
                ),
                ZkSyncPriorityOp::FullChangeGroup(cg) => L1Transaction::FullChangeGroup(
                    ApiFullChangeGroup {
                        token_id: cg.token,
                        account_id: cg.account_id,
                        group1: cg.group1,
                        group2: cg.group2,
                        eth_hash,
                        id,
                        tx_hash,
                    },
                ),
            },
    {
        match op {
            ZkSyncPriorityOp::Deposit(deposit) => L1Transaction::Deposit(
                ApiDeposit {
                    from: deposit.from,
                    token_id: deposit.token,
                    amount: deposit.amount,
                    group: deposit.group,
                    to: deposit.to,
                    account_id: None,
                    eth_hash,
                    id,
                    tx_hash,
                },
            ),
            ZkSyncPriorityOp::FullExit(exit) => L1Transaction::FullExit(
                ApiFullExit {
                    token_id: exit.token,
                    account_id: exit.account_id,
                    group: exit.group,
                    eth_hash,
                    id,
                    tx_hash,
                },
            ),
            ZkSyncPriorityOp::FullChangeGroup(cg) => L1Transaction::FullChangeGroup(
                ApiFullChangeGroup {
                    token_id: cg.token,
                    account_id: cg.account_id,
                    group1: cg.group1,
                    group2: cg.group2,
                    eth_hash,
                    id,
                    tx_hash,
                },
            ),
        }
    }
}

/// Answer to a submitted batch: per-transaction hashes plus the batch hash.
#[derive(Clone, Copy, PartialEq, Eq, Structural, Debug)]
pub struct TxHashSerializeWrapper(pub TxHash);

/// The server's response to a batch submission.
#[derive(Debug)]
pub struct SubmitBatchResponse {
    pub transaction_hashes: Vec<TxHashSerializeWrapper>,
    pub batch_hash: TxHash,
}

/// A reported batch and the progress of its block.
#[derive(Debug)]
pub struct ApiTxBatch {
    pub batch_hash: TxHash,
    pub transaction_hashes: Vec<TxHashSerializeWrapper>,
    pub created_at_millis: u64,
    pub batch_status: BatchStatus,
}

/// The latest progress report of a batch.
#[derive(Clone, Copy, PartialEq, Eq, Structural, Debug)]
pub struct BatchStatus {
    pub updated_at_millis: u64,
    pub last_state: TxInBlockStatus,
}

/// A request to switch two-factor authentication on or off for an account,
/// authorized by a base-chain signature over a timestamped message.
#[derive(Debug)]
pub struct Toggle2FA {
    pub enable: bool,
    /// Milliseconds since the epoch, bound into the signed message.
    pub timestamp_millis: u64,
    pub account_id: u32,
    pub signature: TxEthSignature,
    /// When supplied, transactions signed with this key hash keep skipping
    /// the base-chain signature check.
    pub pub_key_hash: Option<PubKeyHash>,
}

impl Toggle2FA {
    /// The message the account's base-chain key signs to authorize the
    /// toggle.
    pub open spec fn spec_sign_message(self) -> Seq<char> {
        let head = if self.enable {
            "By signing this message, you are opting into Two-factor Authentication protection by the Server.\n"@
                + "Transactions now require signatures by both your L1 and L2 private key.\n"@
                + "Timestamp: "@ + spec_dec(self.timestamp_millis as nat)
        } else {
            "You are opting out of Two-factor Authentication protection by the Server.\n"@
                + "Transactions now only require signatures by your L2 private key.\n"@
                + "BY SIGNING THIS MESSAGE, YOU ARE TRUSTING YOUR WALLET CLIENT TO KEEP YOUR L2 PRIVATE KEY SAFE!\n"@
                + "Timestamp: "@ + spec_dec(self.timestamp_millis as nat)
        };
        match self.pub_key_hash {
            Some(hash) => head + "\n"@ + "PubKeyHash: "@ + "sync:"@ + spec_hex(hash.spec_bytes()),
            None => head,
        }
    }

    /// Builds the message the account's base-chain key signs.  The wording
    /// is constant but the timestamp and optional key hash bind the message
    /// to this request.
    pub fn get_ethereum_sign_message(&self) -> (r: String)
        ensures
            r@ == self.spec_sign_message(),
    {
        let mut message = String::new();
        if self.enable {
            message.append(
                "By signing this message, you are opting into Two-factor Authentication protection by the Server.\n",
            );
            message.append(
                "Transactions now require signatures by both your L1 and L2 private key.\n",
            );
            message.append("Timestamp: ");
            push_dec_u64(&mut message, self.timestamp_millis);
        } else {
            message.append(
                "You are opting out of Two-factor Authentication protection by the Server.\n",
            );
            message.append(
                "Transactions now only require signatures by your L2 private key.\n",
            );
            message.append(
                "BY SIGNING THIS MESSAGE, YOU ARE TRUSTING YOUR WALLET CLIENT TO KEEP YOUR L2 PRIVATE KEY SAFE!\n",
            );
            message.append("Timestamp: ");
            push_dec_u64(&mut message, self.timestamp_millis);
        }
        if let Some(hash) = &self.pub_key_hash {
            message.append("\n");
            message.append("PubKeyHash: ");
            push_pub_key_hash_hex(&mut message, hash);
        }
        proof {
            assert(message@ =~= self.spec_sign_message());
        }
        message
    }
}

/// Answer to a toggle request.
#[derive(Clone, Copy, PartialEq, Eq, Structural, Debug)]
pub struct Toggle2FAResponse {
    pub success: bool,
}

} // verus!

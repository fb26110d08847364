use rollup_core::change_group::ChangeGroup;
use rollup_core::operations::{ChangeGroupOp, FullChangeGroup};
use rollup_core::primitives::{Address, PubKeyHash};
use rollup_core::signature::TxSignature;
use rollup_core::state::{Account, AccountUpdate, ChangeGroupOpError, CollectedFee, ZkSyncState};
use rollup_core::store::KeyedVec;
use rollup_core::time_range::TimeRange;
use rollup_core::Amount;

fn addr(n: u128) -> Address {
    Address { hi: 0, lo: n }
}

fn key_hash(n: u128) -> PubKeyHash {
    PubKeyHash { hi: 0, lo: n }
}

/// An account with one token balance.
fn account_with(address: Address, pkh: PubKeyHash, nonce: u32, token: u32, balance: u128) -> Account {
    let mut balances = KeyedVec::new();
    balances.insert(token as u64, balance);
    Account { address, pub_key_hash: pkh, nonce, balances }
}

fn transfer_like(amount: u128, fee: u128, nonce: u32) -> ChangeGroup {
    ChangeGroup::new(
        1,
        addr(0x11),
        addr(0x22),
        7,
        Amount::Value(amount),
        Amount::Value(fee),
        5,
        8,
        nonce,
        TimeRange::new(0, u64::MAX),
        Some(TxSignature { recovered_signer: Some(key_hash(0xaa)) }),
    )
}

fn state_with_account(balance: u128, nonce: u32) -> ZkSyncState {
    let mut state = ZkSyncState::new();
    state.insert_account(1, account_with(addr(0x11), key_hash(0xaa), nonce, 7, balance));
    state
}

#[test]
fn applying_a_transfer_debits_and_bumps_the_nonce() {
    // balance 100 of token 7, nonce 5; transfer of 40 + fee 10 at nonce 5
    let mut state = state_with_account(100, 5);
    let tx = transfer_like(40, 10, 5);
    let op = state.create_change_group_op(tx).expect("create should pass");
    let (fee, updates) = state.apply_change_group_op(&op).expect("apply should pass");
    assert_eq!(fee, Some(CollectedFee { token: 7, amount: 10 }));
    assert_eq!(updates.len(), 1);
    assert_eq!(
        updates[0],
        (
            1,
            AccountUpdate::UpdateBalance {
                token: 7,
                old_balance: 100,
                new_balance: 50,
                old_nonce: 5,
                new_nonce: 6,
            }
        )
    );
    let account = state.get_account(1).unwrap();
    assert_eq!(account.get_balance(7), 50);
    assert_eq!(account.nonce, 6);
}

#[test]
fn replaying_the_same_nonce_is_rejected_without_mutation() {
    let mut state = state_with_account(100, 5);
    let op = state
        .create_change_group_op(transfer_like(40, 10, 5))
        .expect("create should pass");
    state.apply_change_group_op(&op).expect("first apply should pass");
    // the same transaction again: the nonce is now 6
    let replay = state
        .create_change_group_op(transfer_like(40, 10, 5))
        .expect("create is nonce-blind");
    let result = state.apply_change_group_op(&replay);
    assert_eq!(result, Err(ChangeGroupOpError::NonceMismatch));
    let account = state.get_account(1).unwrap();
    assert_eq!(account.get_balance(7), 50);
    assert_eq!(account.nonce, 6);
}

#[test]
fn insufficient_balance_is_rejected_before_any_mutation() {
    // balance 30, amount 40 + fee 10 at the correct nonce
    let mut state = state_with_account(30, 5);
    let op = state
        .create_change_group_op(transfer_like(40, 10, 5))
        .expect("create should pass");
    let result = state.apply_change_group_op(&op);
    assert_eq!(result, Err(ChangeGroupOpError::InsufficientBalance));
    let account = state.get_account(1).unwrap();
    assert_eq!(account.get_balance(7), 30);
    assert_eq!(account.nonce, 5);
}

#[test]
fn oversize_amounts_can_never_be_covered() {
    let mut state = state_with_account(u128::MAX, 5);
    let mut tx = transfer_like(1, 0, 5);
    tx.amount = Amount::Oversize;
    let op = ChangeGroupOp { tx, account_id: 1 };
    assert_eq!(
        state.apply_change_group_op(&op),
        Err(ChangeGroupOpError::InsufficientBalance)
    );
}

#[test]
fn create_op_validates_sender_and_signature() {
    let state = state_with_account(100, 5);

    let mut tx = transfer_like(40, 10, 5);
    tx.token = 0x1_0000;
    assert_eq!(state.create_change_group_op(tx), Err(ChangeGroupOpError::InvalidTokenId));

    let mut tx = transfer_like(40, 10, 5);
    tx.token = 2000; // fee-bearing, above the processable range
    assert_eq!(state.create_change_group_op(tx), Err(ChangeGroupOpError::InvalidFeeTokenId));

    let mut tx = transfer_like(40, 10, 5);
    tx.from = addr(0x99);
    assert_eq!(state.create_change_group_op(tx), Err(ChangeGroupOpError::FromAccountNotFound));

    let mut locked_state = ZkSyncState::new();
    locked_state.insert_account(
        1,
        account_with(addr(0x11), PubKeyHash { hi: 0, lo: 0 }, 5, 7, 100),
    );
    assert_eq!(
        locked_state.create_change_group_op(transfer_like(40, 10, 5)),
        Err(ChangeGroupOpError::FromAccountLocked)
    );

    let mut tx = transfer_like(40, 10, 5);
    tx.signature = TxSignature { recovered_signer: Some(key_hash(0xbb)) };
    tx.wipe_signer_cache();
    assert_eq!(state.create_change_group_op(tx), Err(ChangeGroupOpError::InvalidSignature));

    let mut tx = transfer_like(40, 10, 5);
    tx.account_id = 2;
    assert_eq!(state.create_change_group_op(tx), Err(ChangeGroupOpError::FromAccountIncorrect));
}

#[test]
fn apply_change_group_runs_both_phases() {
    let mut state = state_with_account(100, 5);
    let success = state.apply_change_group(transfer_like(40, 10, 5)).expect("should pass");
    assert_eq!(success.fee, Some(CollectedFee { token: 7, amount: 10 }));
    assert_eq!(success.updates.len(), 1);
    assert_eq!(state.get_account(1).unwrap().get_balance(7), 50);
}

#[test]
fn full_change_group_drains_the_whole_balance() {
    let mut state = state_with_account(100, 5);
    let priority_op = FullChangeGroup {
        account_id: 1,
        eth_address: addr(0x11),
        token: 7,
        group1: 5,
        group2: 8,
    };
    let op = state.create_full_change_group_op(priority_op);
    assert_eq!(op.withdraw_amount, Some(100));
    assert_eq!(op.creator_account_id, None);
    let (fee, updates) = state.apply_full_change_group_op(&op);
    assert_eq!(fee, None);
    assert_eq!(
        updates,
        vec![(
            1,
            AccountUpdate::UpdateBalance {
                token: 7,
                old_balance: 100,
                new_balance: 0,
                old_nonce: 5,
                new_nonce: 5,
            }
        )]
    );
    let account = state.get_account(1).unwrap();
    assert_eq!(account.get_balance(7), 0);
    assert_eq!(account.nonce, 5);
}

#[test]
fn full_change_group_with_unknown_account_is_a_no_op() {
    let mut state = ZkSyncState::new();
    let priority_op = FullChangeGroup {
        account_id: 9,
        eth_address: addr(0x99),
        token: 7,
        group1: 5,
        group2: 8,
    };
    let op = state.create_full_change_group_op(priority_op);
    assert_eq!(op.withdraw_amount, None);
    let (fee, updates) = state.apply_full_change_group_op(&op);
    assert_eq!(fee, None);
    assert!(updates.is_empty());
}

#[test]
fn pubdata_round_trips_through_the_parser() {
    let tx = transfer_like(40, 10, 5);
    let op = ChangeGroupOp { tx, account_id: 1 };
    let data = op.get_public_data();
    assert_eq!(data.len(), 60);
    assert_eq!(data[0], 0x0c);
    let parsed = ChangeGroupOp::from_public_data(&data).expect("parse should pass");
    assert_eq!(parsed.account_id, 1);
    assert_eq!(parsed.tx.token, 7);
    assert_eq!(parsed.tx.amount, Amount::Value(40));
    assert_eq!(parsed.tx.fee, Amount::Value(10));
    assert_eq!(parsed.tx.to, addr(0x22));
    assert_eq!(parsed.tx.group2, 8);
    // pubdata does not carry the sender address or the nonce
    assert_eq!(parsed.tx.from, Address { hi: 0, lo: 0 });
    assert_eq!(parsed.tx.nonce, 0);
}

#[test]
fn pubdata_parser_rejects_bad_records() {
    assert_eq!(
        ChangeGroupOp::from_public_data(&vec![0u8; 59]),
        Err(rollup_core::operations::ChangeGroupOpError::PubdataSizeMismatch)
    );
    assert_eq!(
        ChangeGroupOp::from_legacy_public_data(&vec![0u8; 60]),
        Err(rollup_core::operations::ChangeGroupOpError::PubdataSizeMismatch)
    );
}

#[test]
fn withdrawal_data_has_the_queue_marker() {
    let tx = transfer_like(40, 10, 5);
    let op = ChangeGroupOp { tx, account_id: 1 };
    let data = op.get_withdrawal_data();
    assert_eq!(data[0], 1);
    assert_eq!(data.len(), 1 + 20 + 4 + 16 + 2 + 2);
    assert_eq!(op.get_updated_account_ids(), vec![1]);
}

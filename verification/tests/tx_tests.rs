use rollup_core::change_group::{self, ChangeGroup};
use rollup_core::forced_exit::{self, ForcedExit};
use rollup_core::close::Close;
use rollup_core::order::{Order, OrderError};
use rollup_core::zksync_tx::SignedZkSyncTx;
use rollup_core::signature::VerifiedSignatureCache;
use rollup_core::swap::{self, AmountPair, OrderPair, Swap};
use rollup_core::withdraw::{self, Withdraw};
use rollup_core::withdraw_nft::{self, WithdrawNFT};
use rollup_core::mint_nft::{calculate_token_address, calculate_token_data, MintNFT};
use rollup_core::primitives::{Address, PubKeyHash, H256};
use rollup_core::signature::TxSignature;
use rollup_core::time_range::TimeRange;
use rollup_core::transfer::{TransactionError, Transfer};
use rollup_core::zksync_tx::{Token, ZkSyncTx};
use rollup_core::{Amount, ServerConfig};

fn addr(n: u128) -> Address {
    Address { hi: 0, lo: n }
}

fn key_hash(n: u128) -> PubKeyHash {
    PubKeyHash { hi: 0, lo: n }
}

fn signed_by(n: u128) -> Option<TxSignature> {
    Some(TxSignature { recovered_signer: Some(key_hash(n)) })
}

fn sample_transfer() -> Transfer {
    Transfer::new(
        7,
        addr(0x11),
        addr(0x22),
        3,
        Amount::Value(1050),
        Amount::Value(10),
        5,
        9,
        TimeRange::new(0, 100),
        signed_by(0xaa),
    )
}

const CONFIG: ServerConfig = ServerConfig { group_id: 5, permissioned: false };

#[test]
fn transfer_bytes_are_deterministic() {
    let a = sample_transfer();
    let b = sample_transfer();
    assert_eq!(a.get_bytes(), b.get_bytes());
    assert_eq!(a.get_bytes().len(), 79);
}

#[test]
fn transfer_bytes_change_with_any_field() {
    let base = sample_transfer();
    let base_bytes = base.get_bytes();
    let mut other = sample_transfer();
    other.amount = Amount::Value(1060);
    assert_ne!(base_bytes, other.get_bytes());
    let mut other = sample_transfer();
    other.nonce = 10;
    assert_ne!(base_bytes, other.get_bytes());
    let mut other = sample_transfer();
    other.to = addr(0x23);
    assert_ne!(base_bytes, other.get_bytes());
    let mut other = sample_transfer();
    other.group = 6;
    assert_ne!(base_bytes, other.get_bytes());
    let mut other = sample_transfer();
    other.time_range = Some(TimeRange::new(0, 101));
    assert_ne!(base_bytes, other.get_bytes());
}

#[test]
fn transfer_check_correctness_accepts_good_input() {
    let mut tx = sample_transfer();
    assert_eq!(tx.check_correctness(true, true, &CONFIG), Ok(()));
}

#[test]
fn transfer_check_correctness_is_idempotent() {
    let mut tx = sample_transfer();
    let first = tx.check_correctness(true, true, &CONFIG);
    let second = tx.check_correctness(true, true, &CONFIG);
    assert_eq!(first, second);
    let mut bad = sample_transfer();
    bad.signature = TxSignature { recovered_signer: None };
    bad.wipe_signer_cache();
    let first = bad.check_correctness(true, true, &CONFIG);
    let second = bad.check_correctness(true, true, &CONFIG);
    assert_eq!(first, Err(TransactionError::WrongSignature));
    assert_eq!(first, second);
}

#[test]
fn transfer_check_correctness_rejects_each_violation() {
    let mut tx = sample_transfer();
    tx.amount = Amount::Oversize;
    assert_eq!(tx.check_correctness(true, true, &CONFIG), Err(TransactionError::WrongAmount));

    let mut tx = sample_transfer();
    tx.fee = Amount::Oversize;
    assert_eq!(tx.check_correctness(true, true, &CONFIG), Err(TransactionError::WrongFee));

    let mut tx = sample_transfer();
    tx.amount = Amount::Value((1u128 << 35) + 1);
    assert_eq!(
        tx.check_correctness(true, true, &CONFIG),
        Err(TransactionError::AmountNotPackable)
    );

    let mut tx = sample_transfer();
    tx.fee = Amount::Value(2048);
    assert_eq!(tx.check_correctness(true, true, &CONFIG), Err(TransactionError::FeeNotPackable));

    let mut tx = sample_transfer();
    tx.account_id = 0xFF_FFFF;
    assert_eq!(tx.check_correctness(true, true, &CONFIG), Err(TransactionError::WrongAccountId));

    let mut tx = sample_transfer();
    tx.group = 6;
    assert_eq!(tx.check_correctness(true, true, &CONFIG), Err(TransactionError::WrongGroup));

    let mut tx = sample_transfer();
    tx.token = 0x7FFF_FFFF;
    assert_eq!(tx.check_correctness(true, true, &CONFIG), Err(TransactionError::WrongToken));

    let mut tx = sample_transfer();
    tx.to = Address { hi: 0, lo: 0 };
    assert_eq!(tx.check_correctness(true, true, &CONFIG), Err(TransactionError::WrongToAddress));

    let mut tx = sample_transfer();
    tx.time_range = Some(TimeRange::new(100, 1));
    assert_eq!(tx.check_correctness(true, true, &CONFIG), Err(TransactionError::WrongTimeRange));

    let mut tx = sample_transfer();
    tx.token = 2000; // above the processable range, below the fungible range
    assert_eq!(
        tx.check_correctness(true, true, &CONFIG),
        Err(TransactionError::WrongTokenForPayingFee)
    );

    let mut tx = sample_transfer();
    tx.signature = TxSignature { recovered_signer: None };
    tx.wipe_signer_cache();
    assert_eq!(tx.check_correctness(true, true, &CONFIG), Err(TransactionError::WrongSignature));

    let permissioned = ServerConfig { group_id: 5, permissioned: true };
    let mut tx = sample_transfer();
    assert_eq!(
        tx.check_correctness(false, true, &permissioned),
        Err(TransactionError::NotAllowedSender)
    );
    let mut tx = sample_transfer();
    assert_eq!(
        tx.check_correctness(true, false, &permissioned),
        Err(TransactionError::NotAllowedDestination)
    );
}

#[test]
fn transfer_sign_message_renders_exactly() {
    let tx = sample_transfer();
    let message = tx.get_ethereum_sign_message("TKN", 2);
    assert_eq!(
        message,
        "Transfer 10.50 TKN to: 0x0000000000000000000000000000000000000022 in group: 5\n\
         Fee: 0.10 TKN\n\
         Nonce: 9"
    );
}

#[test]
fn transfer_sign_message_skips_zero_parts() {
    let mut tx = sample_transfer();
    tx.amount = Amount::Value(0);
    tx.fee = Amount::Value(0);
    assert_eq!(tx.get_ethereum_sign_message("TKN", 2), "Nonce: 9");
    let mut tx = sample_transfer();
    tx.amount = Amount::Value(0);
    assert_eq!(tx.get_ethereum_sign_message("TKN", 2), "Fee: 0.10 TKN\nNonce: 9");
}

fn sample_change_group() -> ChangeGroup {
    ChangeGroup::new(
        7,
        addr(0x11),
        addr(0x22),
        3,
        Amount::Value(40),
        Amount::Value(10),
        5,
        8,
        9,
        TimeRange::new(0, 100),
        signed_by(0xaa),
    )
}

#[test]
fn change_group_bytes_include_both_groups() {
    let tx = sample_change_group();
    let bytes = tx.get_bytes();
    assert_eq!(bytes.len(), 91);
    assert_eq!(bytes[0], 255 - 12);
    // group1 then group2 follow the packed fee
    assert_eq!(&bytes[67..71], &[0, 5, 0, 8]);
    let mut no_window = sample_change_group();
    no_window.time_range = None;
    assert_eq!(no_window.get_bytes().len(), 75);
}

#[test]
fn change_group_check_correctness_ordering() {
    let mut tx = sample_change_group();
    assert_eq!(tx.check_correctness(&CONFIG), Ok(()));

    let mut tx = sample_change_group();
    tx.token = 0x1_0000; // beyond the fungible range
    assert_eq!(
        tx.check_correctness(&CONFIG),
        Err(change_group::TransactionError::WrongToken)
    );

    let mut tx = sample_change_group();
    tx.group1 = 4;
    assert_eq!(tx.check_correctness(&CONFIG), Err(change_group::TransactionError::WrongGroup));

    let mut tx = sample_change_group();
    tx.amount = Amount::Oversize;
    assert_eq!(tx.check_correctness(&CONFIG), Err(change_group::TransactionError::WrongAmount));
}

#[test]
fn change_group_message_names_both_groups() {
    let tx = sample_change_group();
    let message = tx.get_ethereum_sign_message("TKN", 1);
    assert_eq!(
        message,
        "ChangeGroup 4.0 TKN to: 0x0000000000000000000000000000000000000022 from group: 5 to group: 8\n\
         Fee: 1.0 TKN\n\
         Nonce: 9"
    );
}

#[test]
fn mint_nft_message_and_checks() {
    let tx = MintNFT::new(
        7,
        addr(0x11),
        H256 { hi: 1, lo: 2 },
        addr(0x22),
        Amount::Value(10),
        3,
        5,
        9,
        signed_by(0xaa),
    );
    let message = tx.get_ethereum_sign_message("TKN", 2);
    assert_eq!(
        message,
        "MintNFT 0x0000000000000000000000000000000100000000000000000000000000000002 \
         for: 0x0000000000000000000000000000000000000022, on group: 5\n\
         Fee: 0.10 TKN\n\
         Nonce: 9"
    );
    let mut tx = tx;
    assert_eq!(tx.check_correctness(true, true, &CONFIG), Ok(()));
    let bytes = tx.get_bytes();
    assert_eq!(bytes.len(), 90);
    assert_eq!(bytes[0], 255 - 9);
}

#[test]
fn wrapper_hash_is_the_digest_of_canonical_bytes() {
    let tx = ZkSyncTx::Transfer(Box::new(sample_transfer()));
    let bytes = tx.get_bytes();
    let digest = parity_crypto::digest::sha256(&bytes);
    let hash = tx.hash();
    let mut expected_hi = [0u8; 16];
    expected_hi.copy_from_slice(&digest[0..16]);
    let mut expected_lo = [0u8; 16];
    expected_lo.copy_from_slice(&digest[16..32]);
    assert_eq!(hash.hi, u128::from_be_bytes(expected_hi));
    assert_eq!(hash.lo, u128::from_be_bytes(expected_lo));
    // the digest is not the input handed back
    assert_ne!(&digest[..], &bytes[0..32]);
}

#[test]
fn wrapper_dispatch_reports_the_held_kind() {
    let tx = ZkSyncTx::Transfer(Box::new(sample_transfer()));
    assert_eq!(tx.account(), addr(0x11));
    assert_eq!(tx.to_account(), Some(addr(0x22)));
    assert_eq!(tx.nonce(), 9);
    assert_eq!(tx.token_id(), 3);
    assert_eq!(tx.tokens(), vec![3]);
    assert_eq!(tx.account_id(), Ok(7));
    assert_eq!(tx.min_chunks(), 2);
    assert!(!tx.is_withdraw());
    assert!(!tx.is_close());
    assert_eq!(tx.variance_name(), "Transfer");
    let cg = ZkSyncTx::ChangeGroup(Box::new(sample_change_group()));
    assert!(cg.is_withdraw());
    assert_eq!(cg.min_chunks(), 6);
    assert_eq!(cg.variance_name(), "ChangeGroup");
}

#[test]
fn wrapper_sign_message_uses_the_resolved_token() {
    let tx = ZkSyncTx::Transfer(Box::new(sample_transfer()));
    let token = Token { id: 3, address: addr(0x33), symbol: String::from("TKN"), decimals: 2 };
    let message = tx.get_ethereum_sign_message(&token).unwrap();
    assert!(message.starts_with("Transfer 10.50 TKN to: "));
    assert!(message.ends_with("Nonce: 9"));
}

#[test]
fn token_address_and_data_read_the_hash_tail() {
    let mut data = vec![0u8; 32];
    data[12] = 0xab;
    data[31] = 0x07;
    let address = calculate_token_address(&data);
    assert_eq!(address.hi, 0xab00_0000);
    assert_eq!(address.lo, 7);
    assert_eq!(calculate_token_data(&data), 7);
}

#[test]
fn withdraw_checks_and_message() {
    let mut tx = Withdraw::new(
        7,
        addr(0x11),
        addr(0x22),
        3,
        Amount::Value(1050),
        Amount::Value(10),
        5,
        9,
        TimeRange::new(0, 100),
        signed_by(0xaa),
    );
    assert_eq!(tx.check_correctness(&CONFIG), Ok(()));
    let bytes = tx.get_bytes();
    assert_eq!(bytes.len(), 90);
    assert_eq!(bytes[0], 255 - 3);
    assert_eq!(
        tx.get_ethereum_sign_message("TKN", 2),
        "Withdraw 10.50 TKN to: 0x0000000000000000000000000000000000000022 in group: 5\n\
         Fee: 0.10 TKN\n\
         Nonce: 9"
    );
    let mut bad = tx.clone();
    bad.group = 6;
    assert_eq!(bad.check_correctness(&CONFIG), Err(withdraw::TransactionError::WrongGroup));
}

#[test]
fn forced_exit_checks_and_message() {
    let mut tx = ForcedExit::new(
        7,
        addr(0x22),
        3,
        Amount::Value(10),
        5,
        9,
        TimeRange::new(0, 100),
        signed_by(0xaa),
    );
    assert_eq!(tx.check_correctness(&CONFIG), Ok(()));
    let bytes = tx.get_bytes();
    assert_eq!(bytes.len(), 54);
    assert_eq!(bytes[0], 255 - 8);
    assert_eq!(
        tx.get_ethereum_sign_message("TKN", 2),
        "ForcedExit TKN to: 0x0000000000000000000000000000000000000022 in group: 5\n\
         Fee: 0.10 TKN\n\
         Nonce: 9"
    );
    let mut bad = tx.clone();
    bad.fee = Amount::Value(2048);
    assert_eq!(bad.check_correctness(&CONFIG), Err(forced_exit::TransactionError::FeeNotPackable));
}

#[test]
fn withdraw_nft_checks_and_message() {
    let mut tx = WithdrawNFT::new(
        7,
        addr(0x11),
        addr(0x22),
        70_000, // a minted-token id, above the fungible range
        3,
        Amount::Value(10),
        5,
        9,
        TimeRange::new(0, 100),
        signed_by(0xaa),
    );
    assert_eq!(tx.check_correctness(&CONFIG), Ok(()));
    let bytes = tx.get_bytes();
    assert_eq!(bytes.len(), 78);
    assert_eq!(bytes[0], 255 - 10);
    assert_eq!(
        tx.get_ethereum_sign_message("TKN", 2),
        "WithdrawNFT 70000 to: 0x0000000000000000000000000000000000000022 in group: 5\n\
         Fee: 0.10 TKN\n\
         Nonce: 9"
    );
    let mut bad = tx.clone();
    bad.token = 3; // fungible ids cannot be withdrawn as minted tokens
    assert_eq!(bad.check_correctness(&CONFIG), Err(withdraw_nft::TransactionError::WrongToken));
}

#[test]
fn wrapper_covers_the_new_kinds() {
    let withdraw = ZkSyncTx::Withdraw(Box::new(Withdraw::new(
        7,
        addr(0x11),
        addr(0x22),
        3,
        Amount::Value(1050),
        Amount::Value(10),
        5,
        9,
        TimeRange::new(0, 100),
        signed_by(0xaa),
    )));
    assert!(withdraw.is_withdraw());
    assert_eq!(withdraw.min_chunks(), 6);
    assert_eq!(withdraw.variance_name(), "Withdraw");
    assert_eq!(withdraw.tokens(), vec![3]);

    let forced_exit = ZkSyncTx::ForcedExit(Box::new(ForcedExit::new(
        7,
        addr(0x22),
        3,
        Amount::Value(10),
        5,
        9,
        TimeRange::new(0, 100),
        signed_by(0xaa),
    )));
    assert!(forced_exit.is_withdraw());
    assert_eq!(forced_exit.account(), addr(0x22));
    assert_eq!(forced_exit.account_id(), Ok(7));

    let withdraw_nft = ZkSyncTx::WithdrawNFT(Box::new(WithdrawNFT::new(
        7,
        addr(0x11),
        addr(0x22),
        70_000,
        3,
        Amount::Value(10),
        5,
        9,
        TimeRange::new(0, 100),
        signed_by(0xaa),
    )));
    // both touched tokens, ascending
    assert_eq!(withdraw_nft.tokens(), vec![3, 70_000]);
    assert_eq!(withdraw_nft.token_id(), 3);
    assert_eq!(withdraw_nft.min_chunks(), 10);
}

#[test]
fn swap_pairs_orders_and_checks() {
    let order = |account: u32, sell: u32, buy: u32, signer: u128| Order {
        account_id: account,
        recipient_address: addr(0x30 + account as u128),
        group: 5,
        nonce: 1,
        token_sell: sell,
        token_buy: buy,
        sell_price: Amount::Value(2),
        buy_price: Amount::Value(1),
        amount: Amount::Value(100),
        time_range: TimeRange::new(10, 90),
        signature: TxSignature { recovered_signer: Some(key_hash(signer)) },
        cached_signer: VerifiedSignatureCache::NotCached,
    };
    let mut swap_tx = Swap {
        submitter_id: 7,
        submitter_address: addr(0x11),
        group: 5,
        nonce: 9,
        orders: OrderPair { first: order(1, 3, 4, 0xb1), second: order(2, 4, 3, 0xb2) },
        amounts: AmountPair { first: Amount::Value(100), second: Amount::Value(50) },
        fee: Amount::Value(10),
        fee_token: 6,
        signature: TxSignature { recovered_signer: Some(key_hash(0xaa)) },
        cached_signer: VerifiedSignatureCache::NotCached,
    };
    assert_eq!(swap_tx.check_correctness(true, true, &CONFIG), Ok(()));
    assert_eq!(
        swap_tx.get_ethereum_sign_message("TKN", 1),
        "Swap fee: 1.0 TKN\nNonce: 9"
    );

    let mut mismatched = swap_tx.clone();
    mismatched.orders.second.token_sell = 9;
    assert_eq!(
        mismatched.check_correctness(true, true, &CONFIG),
        Err(swap::TransactionError::MismatchedTokens)
    );

    let wrapped = ZkSyncTx::Swap(Box::new(swap_tx));
    // the fee token and the two traded tokens, ascending, deduplicated
    assert_eq!(wrapped.tokens(), vec![3, 4, 6]);
    assert_eq!(wrapped.min_chunks(), 5);
    assert_eq!(wrapped.variance_name(), "Swap");
    // the swap is valid only while both orders are
    let window = wrapped.time_range();
    assert_eq!(window.valid_from, 10);
    assert_eq!(window.valid_until, 90);
    let bytes = wrapped.get_bytes();
    assert_eq!(bytes[0], 255 - 11);
}

#[test]
fn order_checks_each_violation() {
    let good = Order {
        account_id: 7,
        recipient_address: addr(0x22),
        group: 5,
        nonce: 9,
        token_sell: 3,
        token_buy: 4,
        sell_price: Amount::Value(2),
        buy_price: Amount::Value(1),
        amount: Amount::Value(1000),
        time_range: TimeRange::new(0, 100),
        signature: TxSignature { recovered_signer: Some(key_hash(0xaa)) },
        cached_signer: VerifiedSignatureCache::NotCached,
    };
    let mut order = good.clone();
    assert_eq!(order.check_correctness(), Ok(()));

    let mut order = good.clone();
    order.sell_price = Amount::Oversize;
    assert_eq!(order.check_correctness(), Err(OrderError::WrongPrice));

    let mut order = good.clone();
    order.amount = Amount::Oversize;
    assert_eq!(order.check_correctness(), Err(OrderError::WrongAmount));

    let mut order = good.clone();
    order.amount = Amount::Value((1u128 << 35) + 1);
    assert_eq!(order.check_correctness(), Err(OrderError::AmountNotPackable));

    let mut order = good.clone();
    order.account_id = 0xFF_FFFF;
    assert_eq!(order.check_correctness(), Err(OrderError::WrongAccountId));

    let mut order = good.clone();
    order.token_buy = 0x7FFF_FFFF;
    assert_eq!(order.check_correctness(), Err(OrderError::WrongToken));

    let mut order = good.clone();
    order.time_range = TimeRange::new(100, 1);
    assert_eq!(order.check_correctness(), Err(OrderError::WrongTimeRange));

    let mut order = good.clone();
    order.signature = TxSignature { recovered_signer: None };
    assert_eq!(order.check_correctness(), Err(OrderError::WrongSignature));
}

#[test]
fn elapsed_saturates_at_zero() {
    let signed = SignedZkSyncTx {
        tx: ZkSyncTx::Transfer(Box::new(sample_transfer())),
        eth_sign_data: None,
        created_at_millis: 1_000,
    };
    assert_eq!(signed.elapsed(1_500), 500);
    assert_eq!(signed.elapsed(1_000), 0);
    assert_eq!(signed.elapsed(900), 0);
}

#[test]
fn close_is_always_rejected() {
    let mut close = Close {
        account: addr(0x11),
        nonce: 9,
        time_range: TimeRange::new(0, 100),
        signature: TxSignature { recovered_signer: Some(key_hash(0xaa)) },
        cached_signer: VerifiedSignatureCache::NotCached,
    };
    assert!(close.check_correctness().is_err());
    assert_eq!(close.get_bytes().len(), 41);
    let wrapped = ZkSyncTx::Close(Box::new(close));
    assert!(wrapped.is_close());
    assert!(wrapped.account_id().is_err());
}

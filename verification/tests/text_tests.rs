use rollup_core::api::{BlockStatus, Toggle2FA, TxInBlockStatus};
use rollup_core::primitives::PubKeyHash;
use rollup_core::signature::{PackedEthSignature, TxEthSignature};

#[test]
fn toggle_message_binds_the_timestamp() {
    let toggle = Toggle2FA {
        enable: true,
        timestamp_millis: 1234,
        account_id: 7,
        signature: TxEthSignature::EthereumSignature(PackedEthSignature { bytes: vec![0; 65] }),
        pub_key_hash: None,
    };
    assert_eq!(
        toggle.get_ethereum_sign_message(),
        "By signing this message, you are opting into Two-factor Authentication protection by the Server.\n\
         Transactions now require signatures by both your L1 and L2 private key.\n\
         Timestamp: 1234"
    );
}

#[test]
fn toggle_off_message_names_the_key_hash() {
    let toggle = Toggle2FA {
        enable: false,
        timestamp_millis: 5,
        account_id: 7,
        signature: TxEthSignature::EthereumSignature(PackedEthSignature { bytes: vec![0; 65] }),
        pub_key_hash: Some(PubKeyHash { hi: 0, lo: 0xab }),
    };
    let message = toggle.get_ethereum_sign_message();
    assert!(message.starts_with(
        "You are opting out of Two-factor Authentication protection by the Server.\n"
    ));
    assert!(message.ends_with(
        "Timestamp: 5\nPubKeyHash: sync:00000000000000000000000000000000000000ab"
    ));
}

#[test]
fn block_status_maps_into_tx_status() {
    assert_eq!(
        TxInBlockStatus::from_block_status(BlockStatus::Committed),
        TxInBlockStatus::Committed
    );
    assert_eq!(
        TxInBlockStatus::from_block_status(BlockStatus::Finalized),
        TxInBlockStatus::Finalized
    );
}

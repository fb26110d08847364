use rollup_core::change_pubkey::{ChangePubKey, ChangePubKeyEthAuthData};
use rollup_core::order::Order;
use rollup_core::primitives::{Address, PubKeyHash};
use rollup_core::signature::{
    EthBatchSignData, EthSignData, PackedEthSignature, TxEthSignature, TxSignature,
    VerifiedSignatureCache,
};
use rollup_core::signature_checker::{
    match_batch, BatchRequest, EthSignatureCheck, OracleVerdict, OrderRequest, RequestData,
    Toggle2FARequest, TxAddError, TxRequest, TxVerifyInput, VerifiedTx, VerifyInput,
};
use rollup_core::time_range::TimeRange;
use rollup_core::transfer::Transfer;
use rollup_core::zksync_tx::{SignedZkSyncTx, Token, ZkSyncTx};
use rollup_core::{Amount, ServerConfig};

fn addr(n: u128) -> Address {
    Address { hi: 0, lo: n }
}

fn key_hash(n: u128) -> PubKeyHash {
    PubKeyHash { hi: 0, lo: n }
}

const CONFIG: ServerConfig = ServerConfig { group_id: 5, permissioned: false };

fn allowed_input() -> TxVerifyInput {
    TxVerifyInput {
        change_pk_onchain_auth: OracleVerdict::Allowed,
        group_transfer_auth: OracleVerdict::Allowed,
        sign_check: None,
        sender_authorized: true,
        receiver_authorized: true,
    }
}

fn sample_token() -> Token {
    Token { id: 3, address: addr(0x33), symbol: String::from("TKN"), decimals: 2 }
}

fn signed_transfer() -> SignedZkSyncTx {
    let tx = Transfer::new(
        7,
        addr(0x11),
        addr(0x22),
        3,
        Amount::Value(1000),
        Amount::Value(10),
        5,
        9,
        TimeRange::new(0, u64::MAX),
        Some(TxSignature { recovered_signer: Some(key_hash(0xaa)) }),
    );
    SignedZkSyncTx {
        tx: ZkSyncTx::Transfer(Box::new(tx)),
        eth_sign_data: None,
        created_at_millis: 0,
    }
}

fn eth_sign_data() -> EthSignData {
    EthSignData {
        signature: TxEthSignature::EthereumSignature(PackedEthSignature { bytes: vec![1; 65] }),
        message: vec![7, 7, 7],
    }
}

#[test]
fn batch_matching_covers_duplicate_senders() {
    // senders [A, A, B] against [sig_B, sig_A] over the shared message:
    // A is covered once (by sig_A), its duplicate is skipped, B by sig_B
    let a = addr(0xa);
    let b = addr(0xb);
    let senders = vec![a, a, b];
    let answers = vec![
        vec![false, true], // A: sig_B no, sig_A yes
        vec![false, true],
        vec![true, false], // B: sig_B yes
    ];
    assert!(match_batch(&senders, &answers, 2));
}

#[test]
fn batch_matching_fails_by_pigeonhole() {
    // senders [A, B, C] with only two signatures: once A and B are covered
    // the budget is spent, so C fails at once
    let senders = vec![addr(0xa), addr(0xb), addr(0xc)];
    let answers = vec![
        vec![true, false],
        vec![false, true],
        vec![true, true], // never reached: the short-circuit fires first
    ];
    assert!(!match_batch(&senders, &answers, 2));
}

#[test]
fn batch_matching_fails_when_no_candidate_recovers() {
    let senders = vec![addr(0xa), addr(0xb)];
    let answers = vec![vec![true, false], vec![false, false]];
    assert!(!match_batch(&senders, &answers, 2));
}

#[test]
fn batch_matching_short_circuits_on_duplicates_with_small_budget() {
    // [A, A, B] with a single signature: A is covered, the duplicate is
    // skipped, and B fails by pigeonhole
    let a = addr(0xa);
    let senders = vec![a, a, addr(0xb)];
    let answers = vec![vec![true], vec![true], vec![true]];
    assert!(!match_batch(&senders, &answers, 1));
}

#[test]
fn onchain_key_change_denied_by_oracle_never_reaches_native_checks() {
    // the key change carries an invalid native signature, so if the native
    // stage ran it would answer IncorrectTx; the reported error proves the
    // base-chain stage rejected first
    let cpk = ChangePubKey::new(
        7,
        addr(0x11),
        key_hash(0xcc),
        3,
        Amount::Value(10),
        5,
        9,
        TimeRange::new(0, u64::MAX),
        Some(ChangePubKeyEthAuthData::Onchain),
        None, // no native signature: the native stage would reject
    );
    let request = RequestData::Tx(TxRequest {
        tx: SignedZkSyncTx {
            tx: ZkSyncTx::ChangePubKey(Box::new(cpk)),
            eth_sign_data: None,
            created_at_millis: 0,
        },
        sender: addr(0x11),
        token: sample_token(),
    });
    let mut input = allowed_input();
    input.change_pk_onchain_auth = OracleVerdict::Denied;
    let result = VerifiedTx::verify(request, &VerifyInput::Tx(input), &CONFIG);
    assert_eq!(result.err(), Some(TxAddError::ChangePkNotAuthorized));
}

#[test]
fn unreachable_oracle_is_its_own_error() {
    let cpk = ChangePubKey::new(
        7,
        addr(0x11),
        key_hash(0xcc),
        3,
        Amount::Value(10),
        5,
        9,
        TimeRange::new(0, u64::MAX),
        None, // legacy records count as on-chain authorized
        None,
    );
    let request = RequestData::Tx(TxRequest {
        tx: SignedZkSyncTx {
            tx: ZkSyncTx::ChangePubKey(Box::new(cpk)),
            eth_sign_data: None,
            created_at_millis: 0,
        },
        sender: addr(0x11),
        token: sample_token(),
    });
    let mut input = allowed_input();
    input.change_pk_onchain_auth = OracleVerdict::Unavailable;
    let result = VerifiedTx::verify(request, &VerifyInput::Tx(input), &CONFIG);
    assert_eq!(result.err(), Some(TxAddError::OracleUnavailable));
}

#[test]
fn single_transfer_verifies_end_to_end() {
    let request = RequestData::Tx(TxRequest {
        tx: signed_transfer(),
        sender: addr(0x11),
        token: sample_token(),
    });
    let verified =
        VerifiedTx::verify(request, &VerifyInput::Tx(allowed_input()), &CONFIG).expect("verifies");
    let tx = verified.unwrap_tx();
    assert_eq!(tx.tx.nonce(), 9);
}

#[test]
fn attached_base_chain_signature_must_recover_to_the_sender() {
    let mut tx = signed_transfer();
    tx.eth_sign_data = Some(eth_sign_data());
    let request =
        RequestData::Tx(TxRequest { tx, sender: addr(0x11), token: sample_token() });
    let mut input = allowed_input();
    input.sign_check = Some(EthSignatureCheck::Recovered(Some(addr(0x99))));
    let result = VerifiedTx::verify(request, &VerifyInput::Tx(input), &CONFIG);
    assert_eq!(result.err(), Some(TxAddError::IncorrectEthSignature));
}

#[test]
fn native_rejection_surfaces_as_incorrect_tx() {
    let mut tx = signed_transfer();
    if let ZkSyncTx::Transfer(ref mut t) = tx.tx {
        t.signature = TxSignature { recovered_signer: None };
        t.cached_signer = VerifiedSignatureCache::NotCached;
    }
    let request =
        RequestData::Tx(TxRequest { tx, sender: addr(0x11), token: sample_token() });
    let result = VerifiedTx::verify(request, &VerifyInput::Tx(allowed_input()), &CONFIG);
    match result {
        Err(TxAddError::IncorrectTx(_)) => (),
        other => panic!("expected a native-stage rejection, got {other:?}"),
    }
}

#[test]
fn batch_length_mismatch_is_malformed() {
    let request = RequestData::Batch(BatchRequest {
        txs: vec![signed_transfer()],
        batch_sign_data: None,
        senders: vec![addr(0x11), addr(0x12)],
        tokens: vec![sample_token()],
    });
    let input = VerifyInput::Batch(vec![vec![], vec![]], vec![allowed_input()]);
    let result = VerifiedTx::verify(request, &input, &CONFIG);
    assert_eq!(result.err(), Some(TxAddError::Other));
}

#[test]
fn batch_with_aggregated_signatures_verifies() {
    let request = RequestData::Batch(BatchRequest {
        txs: vec![signed_transfer(), signed_transfer()],
        batch_sign_data: Some(EthBatchSignData {
            signatures: vec![TxEthSignature::EthereumSignature(PackedEthSignature {
                bytes: vec![2; 65],
            })],
            message: vec![9],
        }),
        senders: vec![addr(0x11), addr(0x11)],
        tokens: vec![sample_token(), sample_token()],
    });
    // one shared signature covering the one distinct sender
    let input = VerifyInput::Batch(
        vec![vec![true], vec![true]],
        vec![allowed_input(), allowed_input()],
    );
    let verified = VerifiedTx::verify(request, &input, &CONFIG).expect("verifies");
    let (txs, sign_data) = verified.unwrap_batch();
    assert_eq!(txs.len(), 2);
    assert!(sign_data.is_some());
}

#[test]
fn order_requests_check_signature_then_rules() {
    let order = Order {
        account_id: 7,
        recipient_address: addr(0x22),
        group: 5,
        nonce: 9,
        token_sell: 3,
        token_buy: 4,
        sell_price: Amount::Value(2),
        buy_price: Amount::Value(1),
        amount: Amount::Value(1000),
        time_range: TimeRange::new(0, u64::MAX),
        signature: TxSignature { recovered_signer: Some(key_hash(0xaa)) },
        cached_signer: VerifiedSignatureCache::NotCached,
    };
    let request = RequestData::Order(OrderRequest {
        order: Box::new(order),
        sign_data: eth_sign_data(),
        sender: addr(0x11),
    });
    // wrong recovered address: rejected at the base-chain stage
    let result = VerifiedTx::verify(
        request,
        &VerifyInput::Order(EthSignatureCheck::Recovered(Some(addr(0x99)))),
        &CONFIG,
    );
    assert_eq!(result.err(), Some(TxAddError::IncorrectEthSignature));
}

#[test]
fn toggle_requests_need_only_the_signature() {
    let request = RequestData::Toggle2FA(Toggle2FARequest {
        sign_data: eth_sign_data(),
        sender: addr(0x11),
    });
    let verified = VerifiedTx::verify(
        request,
        &VerifyInput::Toggle2FA(EthSignatureCheck::Recovered(Some(addr(0x11)))),
        &CONFIG,
    );
    assert!(verified.is_ok());
}

#[test]
fn contract_signatures_follow_the_oracle_verdict() {
    let request = RequestData::Toggle2FA(Toggle2FARequest {
        sign_data: eth_sign_data(),
        sender: addr(0x11),
    });
    let result = VerifiedTx::verify(
        request,
        &VerifyInput::Toggle2FA(EthSignatureCheck::ContractVerdict(false)),
        &CONFIG,
    );
    assert_eq!(result.err(), Some(TxAddError::IncorrectEthSignature));
    let request = RequestData::Toggle2FA(Toggle2FARequest {
        sign_data: eth_sign_data(),
        sender: addr(0x11),
    });
    let result = VerifiedTx::verify(
        request,
        &VerifyInput::Toggle2FA(EthSignatureCheck::OracleUnavailable),
        &CONFIG,
    );
    assert_eq!(result.err(), Some(TxAddError::OracleUnavailable));
}

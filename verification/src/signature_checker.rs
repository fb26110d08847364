//! The signature-verification service's decision core.
//!
//! Per request the machine passes through two authentication stages:
//! base-chain first, rollup-native second; if the first fails the second is
//! never consulted.  All outside work — address recovery, oracle calls,
//! storage lookups — reaches these functions as data gathered by the
//! caller, so every decision here is a pure function of its inputs and the
//! driving loop (queues, worker tasks, reply channels) stays outside the
//! verified core.

use vstd::prelude::*;

use crate::order::Order;
use crate::primitives::Address;
use crate::signature::{EthBatchSignData, EthSignData};
use crate::zksync_tx::{SignedZkSyncTx, Token, TransactionError, ZkSyncTx};
use crate::ServerConfig;

verus! {

/// Why a request is rejected; all terminal, none retried by this service.
#[derive(Clone, Copy, PartialEq, Eq, Structural, Debug)]
pub enum TxAddError {
    /// A base-chain signature does not authenticate the expected sender.
    IncorrectEthSignature,
    /// An on-chain key change the oracle does not confirm.
    ChangePkNotAuthorized,
    /// A group transfer the oracle does not allow.
    UserNotWhitelisted,
    /// The authorization oracle could not be reached; distinct from a
    /// negative answer, and not retried here.
    OracleUnavailable,
    /// A malformed request, such as mismatched array lengths.
    Other,
    /// The native-signature/business-rule stage failed.
    IncorrectTx(TransactionError),
}

/// A yes/no question answered by the authorization oracle, or the report
/// that it could not be reached.
#[derive(Clone, Copy, PartialEq, Eq, Structural, Debug)]
pub enum OracleVerdict {
    Allowed,
    Denied,
    Unavailable,
}

/// The outcome of checking one base-chain signature over one message, as
/// the cryptographic layer or the oracle reports it.
#[derive(Clone, Copy, PartialEq, Eq, Structural, Debug)]
pub enum EthSignatureCheck {
    /// Recoverable form: the address recovery produced, or `None` when
    /// recovery failed.
    Recovered(Option<Address>),
    /// Delegated-contract form: the oracle's verdict on the signature.
    ContractVerdict(bool),
    /// Delegated-contract form: the oracle could not be reached.
    OracleUnavailable,
}

/// Whether a signature check authenticates `sender`.
pub open spec fn spec_signature_matches(check: EthSignatureCheck, sender: Address) -> Result<
    bool,
    TxAddError,
> {
    match check {
        EthSignatureCheck::Recovered(Some(a)) => Ok(a == sender),
        EthSignatureCheck::Recovered(None) => Ok(false),
        EthSignatureCheck::ContractVerdict(b) => Ok(b),
        EthSignatureCheck::OracleUnavailable => Err(TxAddError::OracleUnavailable),
    }
}

/// Decides whether one base-chain signature authenticates `sender`: a
/// recoverable signature must recover to that exact address, a delegated
/// one is judged by the oracle, and an unreachable oracle is a fault of its
/// own.
pub fn signature_matches_sender(check: &EthSignatureCheck, sender: &Address) -> (r: Result<
    bool,
    TxAddError,
>)
    ensures
        r == spec_signature_matches(*check, *sender),
{
    match check {
        EthSignatureCheck::Recovered(Some(a)) => Ok(*a == *sender),
        EthSignatureCheck::Recovered(None) => Ok(false),
        EthSignatureCheck::ContractVerdict(b) => Ok(*b),
        EthSignatureCheck::OracleUnavailable => Err(TxAddError::OracleUnavailable),
    }
}

// ------------------------------------------------------------------
// Batch matching: cover every distinct sender with the aggregated
// signatures over the shared batch message.
// ------------------------------------------------------------------

/// The first index at or after `j` where the row answers yes.
pub open spec fn spec_first_match(row: Seq<bool>, j: int) -> Option<int>
    decreases row.len() - j,
{
    if j < 0 || j >= row.len() {
        None
    } else if row[j] {
        Some(j)
    } else {
        spec_first_match(row, j + 1)
    }
}

/// The greedy matching run from sender `i` on, with `matched` the distinct
/// senders already covered, in the order they were first covered.
/// `answers[i][j]` says whether candidate signature `j` authenticates
/// sender `i` over the shared message.  A sender already covered is
/// skipped; when the count of covered senders already equals the signature
/// count the run fails at once (no signature budget remains — the
/// pigeonhole short-circuit); otherwise the candidates are scanned in the
/// order supplied and the first hit covers the sender.
pub open spec fn spec_match_batch_from(
    senders: Seq<Address>,
    answers: Seq<Seq<bool>>,
    n_signatures: nat,
    matched: Seq<Address>,
    i: int,
) -> bool
    decreases senders.len() - i,
{
    if i < 0 || i >= senders.len() {
        true
    } else if matched.contains(senders[i]) {
        spec_match_batch_from(senders, answers, n_signatures, matched, i + 1)
    } else if matched.len() >= n_signatures {
        false
    } else {
        match spec_first_match(answers[i], 0) {
            None => false,
            Some(_) => spec_match_batch_from(
                senders,
                answers,
                n_signatures,
                matched.push(senders[i]),
                i + 1,
            ),
        }
    }
}

/// Whether the greedy matching covers every distinct sender.
pub open spec fn spec_match_batch(
    senders: Seq<Address>,
    answers: Seq<Seq<bool>>,
    n_signatures: nat,
) -> bool {
    spec_match_batch_from(senders, answers, n_signatures, Seq::empty(), 0)
}

/// Whether `x` stands in the vector.
fn address_vec_contains(v: &Vec<Address>, x: &Address) -> (r: bool)
    ensures
        r == v@.contains(*x),
{
    let n = v.len();
    let mut i: usize = 0;
    while i < n
        invariant
            n == v@.len(),
            i <= n,
            forall|j: int| 0 <= j < i ==> v@[j] != *x,
        decreases n - i,
    {
        if v[i] == *x {
            return true;
        }
        i = i + 1;
    }
    false
}

/// Runs the greedy batch matching: for each sender in original order, skip
/// it when already covered, fail at once when the signature budget is
/// exhausted, otherwise scan the candidate signatures in order and cover
/// the sender with the first that authenticates it.
pub fn match_batch(senders: &Vec<Address>, answers: &Vec<Vec<bool>>, n_signatures: usize) -> (r:
    bool)
    requires
        answers@.len() == senders@.len(),
    ensures
        r == spec_match_batch(senders@, answers.deep_view(), n_signatures as nat),
{
    let ghost answer_rows = answers.deep_view();
    let n = senders.len();
    let mut matched: Vec<Address> = Vec::new();
    let mut i: usize = 0;
    while i < n
        invariant
            n == senders@.len(),
            answers@.len() == senders@.len(),
            answer_rows == answers.deep_view(),
            i <= n,
            spec_match_batch(senders@, answer_rows, n_signatures as nat)
                == spec_match_batch_from(
                senders@,
                answer_rows,
                n_signatures as nat,
                matched@,
                i as int,
            ),
        decreases n - i,
    {
        proof {
            assert(answer_rows[i as int] == answers@[i as int]@);
        }
        if !address_vec_contains(&matched, &senders[i]) {
            if matched.len() >= n_signatures {
                return false;
            }
            // scan the candidates in the order supplied
            let row = &answers[i];
            let m = row.len();
            let mut j: usize = 0;
            let mut hit: bool = false;
            while j < m && !hit
                invariant
                    m == row@.len(),
                    j <= m,
                    row@ == answer_rows[i as int],
                    i < n,
                    hit ==> spec_first_match(answer_rows[i as int], 0) is Some,
                    !hit ==> spec_first_match(answer_rows[i as int], 0) == spec_first_match(
                        answer_rows[i as int],
                        j as int,
                    ),
                decreases m - j, (if hit { 0int } else { 1int }),
            {
                if row[j] {
                    proof {
                        assert(spec_first_match(answer_rows[i as int], j as int) == Some(
                            j as int,
                        ));
                    }
                    hit = true;
                } else {
                    j = j + 1;
                }
            }
            if !hit {
                proof {
                    assert(spec_first_match(answer_rows[i as int], m as int) is None);
                }
                return false;
            }
            matched.push(senders[i]);
        }
        i = i + 1;
    }
    true
}

// ------------------------------------------------------------------
// Requests and the verified wrapper.
// ------------------------------------------------------------------

/// A single-transaction verification request.  The sender is supplied
/// separately because the affected account and the actual sender can
/// differ; the resolved token serves legacy message formats.
#[derive(Debug)]
pub struct TxRequest {
    pub tx: SignedZkSyncTx,
    pub sender: Address,
    pub token: Token,
}

/// A batch verification request: parallel arrays of transactions, senders
/// and tokens, plus the optional aggregated signature set.
#[derive(Debug)]
pub struct BatchRequest {
    pub txs: Vec<SignedZkSyncTx>,
    pub batch_sign_data: Option<EthBatchSignData>,
    pub senders: Vec<Address>,
    pub tokens: Vec<Token>,
}

/// A resource-order verification request.
#[derive(Debug)]
pub struct OrderRequest {
    pub order: Box<Order>,
    pub sign_data: EthSignData,
    pub sender: Address,
}

/// A policy-toggle verification request.
#[derive(Debug)]
pub struct Toggle2FARequest {
    pub sign_data: EthSignData,
    pub sender: Address,
}

/// The request shapes the service accepts.
#[derive(Debug)]
pub enum RequestData {
    Tx(TxRequest),
    Batch(BatchRequest),
    Order(OrderRequest),
    Toggle2FA(Toggle2FARequest),
}

/// The payload a request wraps, as the verified wrapper will carry it.
#[derive(Debug)]
pub enum TxVariant {
    Tx(SignedZkSyncTx),
    Batch(Vec<SignedZkSyncTx>, Option<EthBatchSignData>),
    Order(Box<Order>),
    Toggle2FA,
}

impl RequestData {
    /// The payload this request asks the service to verify.
    pub fn get_tx_variant(self) -> (r: TxVariant)
        ensures
            match self {
                RequestData::Tx(request) => r == TxVariant::Tx(request.tx),
                RequestData::Batch(request) => r == TxVariant::Batch(
                    request.txs,
                    request.batch_sign_data,
                ),
                RequestData::Order(request) => r == TxVariant::Order(request.order),
                RequestData::Toggle2FA(_) => r == TxVariant::Toggle2FA,
            },
    {
        match self {
            RequestData::Tx(request) => TxVariant::Tx(request.tx),
            RequestData::Batch(request) => TxVariant::Batch(request.txs, request.batch_sign_data),
            RequestData::Order(request) => TxVariant::Order(request.order),
            RequestData::Toggle2FA(_) => TxVariant::Toggle2FA,
        }
    }
}

// ------------------------------------------------------------------
// Stage one: base-chain authentication.
// ------------------------------------------------------------------

/// The outside answers one transaction's base-chain stage consumes, plus
/// the storage whitelist flags its native stage will consume.
#[derive(Clone, Copy, PartialEq, Eq, Structural, Debug)]
pub struct TxVerifyInput {
    /// Whether the registered key change is authorized on chain; consulted
    /// only for an on-chain key change.
    pub change_pk_onchain_auth: OracleVerdict,
    /// Whether the target group accepts the destination; consulted only for
    /// a group change.
    pub group_transfer_auth: OracleVerdict,
    /// The check of the attached base-chain signature; present exactly when
    /// the transaction carries one.
    pub sign_check: Option<EthSignatureCheck>,
    /// Whitelist flag of the sender account, from storage.
    pub sender_authorized: bool,
    /// Whitelist flag of the receiver account, from storage.
    pub receiver_authorized: bool,
}

/// What the base-chain stage decides for one transaction: on-chain key
/// changes need the oracle's confirmation, group changes the target group's
/// permission, and an attached signature must authenticate the sender.
pub open spec fn spec_verify_single_tx(
    tx: SignedZkSyncTx,
    sender: Address,
    input: TxVerifyInput,
) -> Result<(), TxAddError> {
    if (tx.tx matches ZkSyncTx::ChangePubKey(cpk) && cpk.spec_is_onchain()) && !(
    input.change_pk_onchain_auth is Allowed) {
        if input.change_pk_onchain_auth is Unavailable {
            Err(TxAddError::OracleUnavailable)
        } else {
            Err(TxAddError::ChangePkNotAuthorized)
        }
    } else if tx.tx is ChangeGroup && !(input.group_transfer_auth is Allowed) {
        if input.group_transfer_auth is Unavailable {
            Err(TxAddError::OracleUnavailable)
        } else {
            Err(TxAddError::UserNotWhitelisted)
        }
    } else {
        match tx.eth_sign_data {
            None => Ok(()),
            Some(_) => match spec_signature_matches(input.sign_check->Some_0, sender) {
                Err(e) => Err(e),
                Ok(true) => Ok(()),
                Ok(false) => Err(TxAddError::IncorrectEthSignature),
            },
        }
    }
}

/// Runs one transaction's base-chain stage.  An on-chain key change that
/// the oracle denies, or whose oracle cannot be reached, is rejected here,
/// before any native check runs.
pub fn verify_eth_signature_single_tx(
    tx: &SignedZkSyncTx,
    sender: &Address,
    input: &TxVerifyInput,
) -> (r: Result<(), TxAddError>)
    requires
        tx.eth_sign_data is Some ==> input.sign_check is Some,
    ensures
        r == spec_verify_single_tx(*tx, *sender, *input),
{
    if let ZkSyncTx::ChangePubKey(change_pk) = &tx.tx {
        if change_pk.is_onchain() {
            match input.change_pk_onchain_auth {
                OracleVerdict::Allowed => (),
                OracleVerdict::Denied => {
                    return Err(TxAddError::ChangePkNotAuthorized);
                },
                OracleVerdict::Unavailable => {
                    return Err(TxAddError::OracleUnavailable);
                },
            }
        }
    }
    if let ZkSyncTx::ChangeGroup(_) = &tx.tx {
        match input.group_transfer_auth {
            OracleVerdict::Allowed => (),
            OracleVerdict::Denied => {
                return Err(TxAddError::UserNotWhitelisted);
            },
            OracleVerdict::Unavailable => {
                return Err(TxAddError::OracleUnavailable);
            },
        }
    }
    if tx.eth_sign_data.is_some() {
        let check = match &input.sign_check {
            Some(c) => c,
            None => vstd::pervasive::unreached(),
        };
        match signature_matches_sender(check, sender) {
            Err(e) => {
                return Err(e);
            },
            Ok(true) => (),
            Ok(false) => {
                return Err(TxAddError::IncorrectEthSignature);
            },
        }
    }
    Ok(())
}

/// The outside answers a whole request's base-chain stage consumes.
#[derive(Debug)]
pub enum VerifyInput {
    /// For a single transaction.
    Tx(TxVerifyInput),
    /// For a batch: the shared-signature answer table (consulted when an
    /// aggregated signature set is present; `answers[i][j]` says whether
    /// candidate `j` authenticates sender `i` over the shared message) and
    /// one per-transaction input.
    Batch(Vec<Vec<bool>>, Vec<TxVerifyInput>),
    /// For an order: the check of its attached signature.
    Order(EthSignatureCheck),
    /// For a policy toggle: the check of its attached signature.
    Toggle2FA(EthSignatureCheck),
}

/// Whether the gathered outside answers fit the request's shape.
pub open spec fn spec_input_matches(request: RequestData, input: VerifyInput) -> bool {
    match request {
        RequestData::Tx(req) => input matches VerifyInput::Tx(i) && (req.tx.eth_sign_data is Some
            ==> i.sign_check is Some),
        RequestData::Batch(req) => input matches VerifyInput::Batch(answers, per_tx) && {
            &&& per_tx.len() == req.txs.len()
            &&& answers.len() == req.senders.len()
            &&& forall|k: int|
                0 <= k < req.txs.len() ==> ((#[trigger] req.txs[k]).eth_sign_data is Some
                    ==> per_tx[k].sign_check is Some)
        },
        RequestData::Order(_) => input is Order,
        RequestData::Toggle2FA(_) => input is Toggle2FA,
    }
}

/// What the base-chain stage decides for a whole request.
pub open spec fn spec_verify_eth_signature(request: RequestData, input: VerifyInput) -> Result<
    (),
    TxAddError,
>
    recommends
        spec_input_matches(request, input),
{
    match request {
        RequestData::Tx(req) => spec_verify_single_tx(
            req.tx,
            req.sender,
            input->Tx_0,
        ),
        RequestData::Batch(req) => {
            let answers = input->Batch_0;
            let per_tx = input->Batch_1;
            if req.senders.len() != req.txs.len() {
                Err(TxAddError::Other)
            } else if (req.batch_sign_data matches Some(sd) && !spec_match_batch(
                req.senders@,
                answers.deep_view(),
                sd.signatures.len() as nat,
            )) {
                Err(TxAddError::IncorrectEthSignature)
            } else {
                spec_verify_batch_members(req.txs@, req.senders@, per_tx@, 0)
            }
        },
        RequestData::Order(req) => match spec_signature_matches(input->Order_0, req.sender) {
            Err(e) => Err(e),
            Ok(true) => Ok(()),
            Ok(false) => Err(TxAddError::IncorrectEthSignature),
        },
        RequestData::Toggle2FA(req) => match spec_signature_matches(
            input->Toggle2FA_0,
            req.sender,
        ) {
            Err(e) => Err(e),
            Ok(true) => Ok(()),
            Ok(false) => Err(TxAddError::IncorrectEthSignature),
        },
    }
}

/// The per-member base-chain checks of a batch, from member `i` on: every
/// individually signed member is still checked, after the shared-signature
/// pass.
pub open spec fn spec_verify_batch_members(
    txs: Seq<SignedZkSyncTx>,
    senders: Seq<Address>,
    per_tx: Seq<TxVerifyInput>,
    i: int,
) -> Result<(), TxAddError>
    decreases txs.len() - i,
{
    if i < 0 || i >= txs.len() {
        Ok(())
    } else {
        match spec_verify_single_tx(txs[i], senders[i], per_tx[i]) {
            Err(e) => Err(e),
            Ok(()) => spec_verify_batch_members(txs, senders, per_tx, i + 1),
        }
    }
}

/// Runs a request's base-chain stage: the single-transaction check, or for
/// a batch the length check, the shared-signature matching and then the
/// unconditional per-member recheck, or the plain signature check of an
/// order or policy toggle.
#[verifier::loop_isolation(false)]
pub fn verify_eth_signature(request: &RequestData, input: &VerifyInput) -> (r: Result<
    (),
    TxAddError,
>)
    requires
        spec_input_matches(*request, *input),
    ensures
        r == spec_verify_eth_signature(*request, *input),
{
    match request {
        RequestData::Tx(req) => {
            let tx_input = match input {
                VerifyInput::Tx(i) => i,
                _ => vstd::pervasive::unreached(),
            };
            proof {
                assert(*input == VerifyInput::Tx(*tx_input));
            }
            verify_eth_signature_single_tx(&req.tx, &req.sender, tx_input)
        },
        RequestData::Batch(req) => {
            let (answers, per_tx) = match input {
                VerifyInput::Batch(answers, per_tx) => (answers, per_tx),
                _ => vstd::pervasive::unreached(),
            };
            proof {
                assert(*input == VerifyInput::Batch(*answers, *per_tx));
            }
            if req.senders.len() != req.txs.len() {
                return Err(TxAddError::Other);
            }
            if let Some(batch_sign_data) = &req.batch_sign_data {
                if !match_batch(&req.senders, answers, batch_sign_data.signatures.len()) {
                    return Err(TxAddError::IncorrectEthSignature);
                }
            }
            // individually signed members are rechecked unconditionally
            let n = req.txs.len();
            let mut i: usize = 0;
            while i < n
                invariant
                    n == req.txs@.len(),
                    req.senders@.len() == n,
                    per_tx@.len() == n,
                    i <= n,
                    forall|k: int|
                        0 <= k < n ==> ((#[trigger] req.txs@[k]).eth_sign_data is Some
                            ==> per_tx@[k].sign_check is Some),
                    spec_verify_batch_members(req.txs@, req.senders@, per_tx@, 0)
                        == spec_verify_batch_members(req.txs@, req.senders@, per_tx@, i as int),
                decreases n - i,
            {
                match verify_eth_signature_single_tx(&req.txs[i], &req.senders[i], &per_tx[i]) {
                    Err(e) => {
                        return Err(e);
                    },
                    Ok(()) => (),
                }
                i = i + 1;
            }
            Ok(())
        },
        RequestData::Order(req) => {
            let check = match input {
                VerifyInput::Order(c) => c,
                _ => vstd::pervasive::unreached(),
            };
            proof {
                assert(*input == VerifyInput::Order(*check));
            }
            match signature_matches_sender(check, &req.sender) {
                Err(e) => Err(e),
                Ok(true) => Ok(()),
                Ok(false) => Err(TxAddError::IncorrectEthSignature),
            }
        },
        RequestData::Toggle2FA(req) => {
            let check = match input {
                VerifyInput::Toggle2FA(c) => c,
                _ => vstd::pervasive::unreached(),
            };
            proof {
                assert(*input == VerifyInput::Toggle2FA(*check));
            }
            match signature_matches_sender(check, &req.sender) {
                Err(e) => Err(e),
                Ok(true) => Ok(()),
                Ok(false) => Err(TxAddError::IncorrectEthSignature),
            }
        },
    }
}

// ------------------------------------------------------------------
// Stage two: native signatures and business rules.
// ------------------------------------------------------------------

/// What the native stage decides for the wrapped payload, given the
/// per-transaction whitelist flags.
pub open spec fn spec_verify_tx_correctness(
    tx: TxVariant,
    per_tx: Seq<TxVerifyInput>,
    config: ServerConfig,
) -> Result<(), TxAddError> {
    match tx {
        TxVariant::Tx(signed) => match signed.tx.spec_check_correctness(
            per_tx[0].sender_authorized,
            per_tx[0].receiver_authorized,
            config,
        ) {
            Ok(()) => Ok(()),
            Err(e) => Err(TxAddError::IncorrectTx(e)),
        },
        TxVariant::Batch(txs, _) => spec_verify_batch_correctness(txs@, per_tx, config, 0),
        TxVariant::Order(order) => match order.spec_check_correctness() {
            Ok(()) => Ok(()),
            Err(e) => Err(TxAddError::IncorrectTx(TransactionError::Order(e))),
        },
        TxVariant::Toggle2FA => Ok(()),
    }
}

/// The native checks of a batch's members, from member `i` on.
pub open spec fn spec_verify_batch_correctness(
    txs: Seq<SignedZkSyncTx>,
    per_tx: Seq<TxVerifyInput>,
    config: ServerConfig,
    i: int,
) -> Result<(), TxAddError>
    decreases txs.len() - i,
{
    if i < 0 || i >= txs.len() {
        Ok(())
    } else {
        match txs[i].tx.spec_check_correctness(
            per_tx[i].sender_authorized,
            per_tx[i].receiver_authorized,
            config,
        ) {
            Err(e) => Err(TxAddError::IncorrectTx(e)),
            Ok(()) => spec_verify_batch_correctness(txs, per_tx, config, i + 1),
        }
    }
}

/// Runs the native-signature/business-rule stage over the wrapped payload.
/// `per_tx` carries the storage whitelist flags, one entry per transaction.
/// There is nothing to check for a policy toggle.  The payload comes back
/// with its recovery memos filled; content is never modified.
#[verifier::loop_isolation(false)]
pub fn verify_tx_correctness(
    tx: TxVariant,
    per_tx: &Vec<TxVerifyInput>,
    config: &ServerConfig,
) -> (r: Result<TxVariant, TxAddError>)
    requires
        match tx {
            TxVariant::Tx(_) => per_tx@.len() >= 1,
            TxVariant::Batch(txs, _) => per_tx@.len() == txs@.len(),
            _ => true,
        },
    ensures
        match r {
            Ok(out) => spec_verify_tx_correctness(tx, per_tx@, *config) == Ok::<(), TxAddError>(())
                && spec_same_payload(tx, out),
            Err(e) => spec_verify_tx_correctness(tx, per_tx@, *config) == Err::<(), TxAddError>(e),
        },
{
    let ghost input_payload = tx;
    match tx {
        TxVariant::Tx(mut signed) => {
            proof {
                assert(input_payload == TxVariant::Tx(signed));
            }
            match signed.tx.check_correctness(
                per_tx[0].sender_authorized,
                per_tx[0].receiver_authorized,
                config,
            ) {
                Ok(()) => Ok(TxVariant::Tx(signed)),
                Err(e) => Err(TxAddError::IncorrectTx(e)),
            }
        },
        TxVariant::Batch(txs, batch_sign_data) => {
            let ghost original = txs@;
            proof {
                assert(input_payload == TxVariant::Batch(txs, batch_sign_data));
            }
            let mut remaining = txs;
            let mut checked: Vec<SignedZkSyncTx> = Vec::new();
            let n = remaining.len();
            let mut i: usize = 0;
            while i < n
                invariant
                    n == original.len(),
                    per_tx@.len() == n,
                    i <= n,
                    remaining@ =~= original.skip(i as int),
                    checked@.len() == i,
                    forall|k: int|
                        0 <= k < i ==> spec_same_signed_tx(#[trigger] original[k], checked@[k]),
                    spec_verify_batch_correctness(original, per_tx@, *config, 0)
                        == spec_verify_batch_correctness(original, per_tx@, *config, i as int),
                decreases n - i,
            {
                proof {
                    assert(remaining@[0] == original[i as int]);
                }
                let mut member = remaining.remove(0);
                match member.tx.check_correctness(
                    per_tx[i].sender_authorized,
                    per_tx[i].receiver_authorized,
                    config,
                ) {
                    Err(e) => {
                        return Err(TxAddError::IncorrectTx(e));
                    },
                    Ok(()) => (),
                }
                checked.push(member);
                i = i + 1;
                proof {
                    assert(remaining@ =~= original.skip(i as int));
                }
            }
            Ok(TxVariant::Batch(checked, batch_sign_data))
        },
        TxVariant::Order(mut order) => {
            proof {
                assert(input_payload == TxVariant::Order(order));
            }
            match order.check_correctness() {
                Ok(()) => Ok(TxVariant::Order(order)),
                Err(e) => Err(TxAddError::IncorrectTx(TransactionError::Order(e))),
            }
        },
        TxVariant::Toggle2FA => Ok(TxVariant::Toggle2FA),
    }
}

/// The two payloads hold the same request content; only recovery memos may
/// differ.
pub open spec fn spec_same_payload(a: TxVariant, b: TxVariant) -> bool {
    match (a, b) {
        (TxVariant::Tx(x), TxVariant::Tx(y)) => spec_same_signed_tx(x, y),
        (TxVariant::Batch(xs, xsig), TxVariant::Batch(ys, ysig)) => xsig == ysig && xs@.len()
            == ys@.len() && forall|k: int|
            0 <= k < xs@.len() ==> spec_same_signed_tx(#[trigger] xs@[k], ys@[k]),
        (TxVariant::Order(x), TxVariant::Order(y)) => x.spec_same_content(*y),
        (TxVariant::Toggle2FA, TxVariant::Toggle2FA) => true,
        _ => false,
    }
}

/// The two envelopes hold the same transaction content; only recovery
/// memos may differ.
pub open spec fn spec_same_signed_tx(a: SignedZkSyncTx, b: SignedZkSyncTx) -> bool {
    &&& a.eth_sign_data == b.eth_sign_data
    &&& a.created_at_millis == b.created_at_millis
    &&& a.tx.spec_same_content(b.tx)
}

// ------------------------------------------------------------------
// The verified wrapper.
// ------------------------------------------------------------------

/// A payload whose signatures were checked.  The field is private: no value
/// of this type exists that `verify` did not produce, so holding one is the
/// admission ticket to the state-transition handler.
#[derive(Debug)]
pub struct VerifiedTx {
    inner: TxVariant,
}

impl VerifiedTx {
    /// The verified payload.
    pub closed spec fn view(self) -> TxVariant {
        self.inner
    }

    /// Checks a request end to end: the base-chain stage first, and only
    /// when it passes the native-signature/business-rule stage.  Exactly
    /// the requests on which both stages pass yield a verified wrapper.
    #[verifier::loop_isolation(false)]
    pub fn verify(request: RequestData, input: &VerifyInput, config: &ServerConfig) -> (r: Result<
        VerifiedTx,
        TxAddError,
    >)
        requires
            spec_input_matches(request, *input),
            input matches VerifyInput::Batch(_, per_tx) ==> (request matches RequestData::Batch(
                req,
            ) && per_tx@.len() == req.txs@.len()),
        ensures
            match spec_verify_eth_signature(request, *input) {
                Err(e) => r is Err && r->Err_0 == e,
                Ok(()) => {
                    let per_tx = spec_input_per_tx(*input);
                    let payload = spec_request_payload(request);
                    match spec_verify_tx_correctness(payload, per_tx, *config) {
                        Err(e) => r is Err && r->Err_0 == e,
                        Ok(()) => r is Ok && spec_same_payload(payload, r->Ok_0@),
                    }
                },
            },
    {
        match verify_eth_signature(&request, input) {
            Ok(()) => (),
            Err(e) => {
                return Err(e);
            },
        }
        let per_tx: Vec<TxVerifyInput> = match input {
            VerifyInput::Tx(i) => {
                let mut v: Vec<TxVerifyInput> = Vec::new();
                v.push(*i);
                v
            },
            VerifyInput::Batch(_, per_tx) => {
                let mut v: Vec<TxVerifyInput> = Vec::new();
                let n = per_tx.len();
                let mut k: usize = 0;
                while k < n
                    invariant
                        n == per_tx@.len(),
                        k <= n,
                        v@ == per_tx@.take(k as int),
                    decreases n - k,
                {
                    v.push(per_tx[k]);
                    proof {
                        assert(v@ =~= per_tx@.take(k + 1));
                    }
                    k = k + 1;
                }
                proof {
                    assert(v@ =~= per_tx@);
                }
                v
            },
            VerifyInput::Order(_) => Vec::new(),
            VerifyInput::Toggle2FA(_) => Vec::new(),
        };
        let tx_variant = request.get_tx_variant();
        match verify_tx_correctness(tx_variant, &per_tx, config) {
            Ok(out) => Ok(VerifiedTx { inner: out }),
            Err(e) => Err(e),
        }
    }

    /// Takes the single transaction out of the wrapper.
    pub fn unwrap_tx(self) -> (r: SignedZkSyncTx)
        requires
            self@ is Tx,
        ensures
            self@ == TxVariant::Tx(r),
    {
        match self.inner {
            TxVariant::Tx(tx) => tx,
            _ => vstd::pervasive::unreached(),
        }
    }

    /// Takes the batch and its verified signature set out of the wrapper.
    pub fn unwrap_batch(self) -> (r: (Vec<SignedZkSyncTx>, Option<EthBatchSignData>))
        requires
            self@ is Batch,
        ensures
            self@ == TxVariant::Batch(r.0, r.1),
    {
        match self.inner {
            TxVariant::Batch(txs, batch_sign_data) => (txs, batch_sign_data),
            _ => vstd::pervasive::unreached(),
        }
    }
}

/// The per-transaction inputs a gathered answer set carries.
pub open spec fn spec_input_per_tx(input: VerifyInput) -> Seq<TxVerifyInput> {
    match input {
        VerifyInput::Tx(i) => seq![i],
        VerifyInput::Batch(_, per_tx) => per_tx@,
        VerifyInput::Order(_) => Seq::empty(),
        VerifyInput::Toggle2FA(_) => Seq::empty(),
    }
}

/// The payload a request wraps.
pub open spec fn spec_request_payload(request: RequestData) -> TxVariant {
    match request {
        RequestData::Tx(req) => TxVariant::Tx(req.tx),
        RequestData::Batch(req) => TxVariant::Batch(req.txs, req.batch_sign_data),
        RequestData::Order(req) => TxVariant::Order(req.order),
        RequestData::Toggle2FA(_) => TxVariant::Toggle2FA,
    }
}

} // verus!

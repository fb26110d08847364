//! Executed-operation records: a verified transaction paired with the
//! account it touches, its fixed-layout pubdata rendering, and the parser
//! that reads such a record back.

use vstd::prelude::*;

use crate::change_group::ChangeGroup;
use crate::codec::{pack_fee_amount, spec_packed_fee_bytes, spec_unpack_fee_bytes, unpack_fee_amount};
use crate::primitives::{
    push_u128_be, push_u16_be, push_u32_be, spec_u128_be, spec_u16_be, spec_u32_be, u128_from_be,
    u16_from_be, u32_from_be, Address, H256,
};
use crate::signature::TxSignature;
use crate::time_range::TimeRange;
use crate::Amount;

verus! {

/// Bytes per pubdata chunk in the current layout.
pub const CHUNK_BYTES: usize = 10;

/// Bytes per pubdata chunk in the legacy layout.
pub const LEGACY_CHUNK_BYTES: usize = 9;

/// Why reading a pubdata record back fails.
#[derive(Clone, Copy, PartialEq, Eq, Structural, Debug)]
pub enum ChangeGroupOpError {
    PubdataSizeMismatch,
    CannotGetFee,
}

impl ChangeGroupOpError {
    pub open spec fn spec_message(self) -> Seq<char> {
        match self {
            ChangeGroupOpError::PubdataSizeMismatch => "Pubdata size mismatch"@,
            ChangeGroupOpError::CannotGetFee => "Failed to get fee"@,
        }
    }

    /// A human-readable rendering of the error.
    pub fn message(&self) -> (r: String)
        ensures
            r@ == self.spec_message(),
    {
        match self {
            ChangeGroupOpError::PubdataSizeMismatch => String::from_str("Pubdata size mismatch"),
            ChangeGroupOpError::CannotGetFee => String::from_str("Failed to get fee"),
        }
    }
}

/// A group-change transaction together with the account id it debits,
/// derived one-to-one from a verified transaction.
#[derive(Clone, PartialEq, Eq, Debug)]
pub struct ChangeGroupOp {
    pub tx: ChangeGroup,
    pub account_id: u32,
}

impl ChangeGroupOp {
    /// Block-capacity cost of one group change.
    pub const CHUNKS: usize = 6;

    /// Operation tag in pubdata records.
    pub const OP_CODE: u8 = 0x0c;

    /// The pubdata body before padding: tag, account id, token, unpacked
    /// amount, packed fee, destination, target group.
    pub open spec fn spec_public_data_body(self) -> Seq<u8>
        recommends
            self.tx.spec_encodable(),
    {
        seq![ChangeGroupOp::OP_CODE] + spec_u32_be(self.account_id) + spec_u32_be(self.tx.token)
            + spec_u128_be(self.tx.amount.spec_value()) + spec_packed_fee_bytes(
            self.tx.fee.spec_value(),
        ) + self.tx.to.spec_bytes() + spec_u16_be(self.tx.group2)
    }

    /// The full pubdata record: the body zero-padded to whole chunks.
    pub open spec fn spec_public_data(self) -> Seq<u8> {
        self.spec_public_data_body() + Seq::new(
            (ChangeGroupOp::CHUNKS * CHUNK_BYTES - self.spec_public_data_body().len()) as nat,
            |i: int| 0u8,
        )
    }

    /// Renders the canonical pubdata record the circuit consumes: fixed
    /// field order, zero-padded to six chunks.
    pub fn get_public_data(&self) -> (r: Vec<u8>)
        requires
            self.tx.spec_encodable(),
        ensures
            r@ == self.spec_public_data(),
            r@.len() == ChangeGroupOp::CHUNKS * CHUNK_BYTES,
    {
        let mut data: Vec<u8> = Vec::new();
        data.push(ChangeGroupOp::OP_CODE);
        push_u32_be(&mut data, self.account_id);
        push_u32_be(&mut data, self.tx.token);
        let amount = match self.tx.amount {
            Amount::Value(v) => v,
            Amount::Oversize => vstd::pervasive::unreached(),
        };
        let fee = match self.tx.fee {
            Amount::Value(v) => v,
            Amount::Oversize => vstd::pervasive::unreached(),
        };
        push_u128_be(&mut data, amount);
        let mut packed_fee = pack_fee_amount(fee);
        data.append(&mut packed_fee);
        self.tx.to.push_bytes(&mut data);
        push_u16_be(&mut data, self.tx.group2);
        proof {
            assert(data@ =~= self.spec_public_data_body());
        }
        while data.len() < ChangeGroupOp::CHUNKS * CHUNK_BYTES
            invariant
                self.spec_public_data_body().len() <= data@.len() <= ChangeGroupOp::CHUNKS
                    * CHUNK_BYTES,
                data@ =~= self.spec_public_data_body() + Seq::new(
                    (data@.len() - self.spec_public_data_body().len()) as nat,
                    |i: int| 0u8,
                ),
            decreases ChangeGroupOp::CHUNKS * CHUNK_BYTES - data.len(),
        {
            data.push(0u8);
        }
        proof {
            assert(data@ =~= self.spec_public_data());
        }
        data
    }

    /// Renders the withdrawal record handed to the base-chain contract: a
    /// pending-queue marker, then destination, token, unpacked amount and
    /// the two groups.
    pub fn get_withdrawal_data(&self) -> (r: Vec<u8>)
        requires
            self.tx.amount is Value,
        ensures
            r@ == seq![1u8] + self.tx.to.spec_bytes() + spec_u32_be(self.tx.token) + spec_u128_be(
                self.tx.amount.spec_value(),
            ) + spec_u16_be(self.tx.group1) + spec_u16_be(self.tx.group2),
    {
        let mut data: Vec<u8> = Vec::new();
        // the marker asks the contract to queue the withdrawal
        data.push(1u8);
        self.tx.to.push_bytes(&mut data);
        push_u32_be(&mut data, self.tx.token);
        let amount = match self.tx.amount {
            Amount::Value(v) => v,
            Amount::Oversize => vstd::pervasive::unreached(),
        };
        push_u128_be(&mut data, amount);
        push_u16_be(&mut data, self.tx.group1);
        push_u16_be(&mut data, self.tx.group2);
        proof {
            assert(data@ =~= seq![1u8] + self.tx.to.spec_bytes() + spec_u32_be(self.tx.token)
                + spec_u128_be(self.tx.amount.spec_value()) + spec_u16_be(self.tx.group1)
                + spec_u16_be(self.tx.group2));
        }
        data
    }

    /// Reads a current-layout pubdata record back into an operation.  The
    /// initiator address and nonce are not part of pubdata and come back
    /// empty.
    pub fn from_public_data(bytes: &Vec<u8>) -> (r: Result<ChangeGroupOp, ChangeGroupOpError>)
        ensures
            match r {
                Ok(op) => bytes@.len() == ChangeGroupOp::CHUNKS * CHUNK_BYTES
                    && ChangeGroupOp::spec_parsed_fields(
                    op,
                    bytes@,
                    4,
                ),
                Err(ChangeGroupOpError::PubdataSizeMismatch) => bytes@.len()
                    != ChangeGroupOp::CHUNKS * CHUNK_BYTES,
                Err(ChangeGroupOpError::CannotGetFee) => bytes@.len() == ChangeGroupOp::CHUNKS
                    * CHUNK_BYTES && spec_unpack_fee_bytes(bytes@.subrange(25, 27)) is None,
            },
    {
        if bytes.len() != ChangeGroupOp::CHUNKS * CHUNK_BYTES {
            return Err(ChangeGroupOpError::PubdataSizeMismatch);
        }
        let account_id = u32_from_be(bytes[1], bytes[2], bytes[3], bytes[4]);
        let token = u32_from_be(bytes[5], bytes[6], bytes[7], bytes[8]);
        let amount = u128_from_be(
            bytes[9],
            bytes[10],
            bytes[11],
            bytes[12],
            bytes[13],
            bytes[14],
            bytes[15],
            bytes[16],
            bytes[17],
            bytes[18],
            bytes[19],
            bytes[20],
            bytes[21],
            bytes[22],
            bytes[23],
            bytes[24],
        );
        let mut fee_bytes: Vec<u8> = Vec::new();
        fee_bytes.push(bytes[25]);
        fee_bytes.push(bytes[26]);
        proof {
            assert(fee_bytes@ =~= bytes@.subrange(25, 27));
        }
        let fee = match unpack_fee_amount(&fee_bytes) {
            Some(f) => f,
            None => {
                return Err(ChangeGroupOpError::CannotGetFee);
            },
        };
        let to_hi = u32_from_be(bytes[27], bytes[28], bytes[29], bytes[30]);
        let to_lo = u128_from_be(
            bytes[31],
            bytes[32],
            bytes[33],
            bytes[34],
            bytes[35],
            bytes[36],
            bytes[37],
            bytes[38],
            bytes[39],
            bytes[40],
            bytes[41],
            bytes[42],
            bytes[43],
            bytes[44],
            bytes[45],
            bytes[46],
        );
        let group2 = u16_from_be(bytes[47], bytes[48]);
        let tx = ChangeGroup::new(
            account_id,
            Address::zero(),
            Address { hi: to_hi, lo: to_lo },
            token,
            Amount::Value(amount),
            Amount::Value(fee),
            0,
            group2,
            0,
            TimeRange::default(),
            None,
        );
        let op = ChangeGroupOp { tx, account_id };
        proof {
            assert(spec_u32_be(op.account_id) =~= bytes@.subrange(1, 5));
            assert(spec_u32_be(op.tx.token) =~= bytes@.subrange(5, 9));
            assert(spec_u128_be(op.tx.amount.spec_value()) =~= bytes@.subrange(9, 25));
            assert(op.tx.to.spec_bytes() =~= bytes@.subrange(27, 47));
            assert(spec_u16_be(op.tx.group2) =~= bytes@.subrange(47, 49));
        }
        Ok(op)
    }

    /// What a successful parse guarantees: every decoded field matches its
    /// slice of the record, and the fields pubdata does not carry are empty.
    pub open spec fn spec_parsed_fields(op: ChangeGroupOp, bytes: Seq<u8>, token_width: int) -> bool {
        &&& spec_u32_be(op.account_id) == bytes.subrange(1, 5)
        &&& op.tx.account_id == op.account_id
        &&& if token_width == 4 {
            spec_u32_be(op.tx.token) == bytes.subrange(5, 9)
        } else {
            op.tx.token < 0x1_0000 && spec_u16_be(op.tx.token as u16) == bytes.subrange(5, 7)
        }
        &&& op.tx.amount is Value
        &&& spec_u128_be(op.tx.amount.spec_value()) == bytes.subrange(
            5 + token_width,
            5 + token_width + 16,
        )
        &&& op.tx.fee is Value
        &&& spec_unpack_fee_bytes(
            bytes.subrange(21 + token_width, 23 + token_width),
        ) == Some(op.tx.fee.spec_value())
        &&& op.tx.to.spec_bytes() == bytes.subrange(23 + token_width, 43 + token_width)
        &&& spec_u16_be(op.tx.group2) == bytes.subrange(43 + token_width, 45 + token_width)
        &&& op.tx.from.spec_is_zero()
        &&& op.tx.group1 == 0
        &&& op.tx.nonce == 0
        &&& op.tx.signature.recovered_signer is None
    }

    /// Reads a legacy-layout pubdata record (two-byte token ids, nine-byte
    /// chunks) back into an operation.
    pub fn from_legacy_public_data(bytes: &Vec<u8>) -> (r: Result<
        ChangeGroupOp,
        ChangeGroupOpError,
    >)
        ensures
            match r {
                Ok(op) => bytes@.len() == ChangeGroupOp::CHUNKS * LEGACY_CHUNK_BYTES
                    && ChangeGroupOp::spec_parsed_fields(op, bytes@, 2),
                Err(ChangeGroupOpError::PubdataSizeMismatch) => bytes@.len()
                    != ChangeGroupOp::CHUNKS * LEGACY_CHUNK_BYTES,
                Err(ChangeGroupOpError::CannotGetFee) => bytes@.len() == ChangeGroupOp::CHUNKS
                    * LEGACY_CHUNK_BYTES && spec_unpack_fee_bytes(bytes@.subrange(23, 25)) is None,
            },
    {
        if bytes.len() != ChangeGroupOp::CHUNKS * LEGACY_CHUNK_BYTES {
            return Err(ChangeGroupOpError::PubdataSizeMismatch);
        }
        let account_id = u32_from_be(bytes[1], bytes[2], bytes[3], bytes[4]);
        let token16 = u16_from_be(bytes[5], bytes[6]);
        let amount = u128_from_be(
            bytes[7],
            bytes[8],
            bytes[9],
            bytes[10],
            bytes[11],
            bytes[12],
            bytes[13],
            bytes[14],
            bytes[15],
            bytes[16],
            bytes[17],
            bytes[18],
            bytes[19],
            bytes[20],
            bytes[21],
            bytes[22],
        );
        let mut fee_bytes: Vec<u8> = Vec::new();
        fee_bytes.push(bytes[23]);
        fee_bytes.push(bytes[24]);
        proof {
            assert(fee_bytes@ =~= bytes@.subrange(23, 25));
        }
        let fee = match unpack_fee_amount(&fee_bytes) {
            Some(f) => f,
            None => {
                return Err(ChangeGroupOpError::CannotGetFee);
            },
        };
        let to_hi = u32_from_be(bytes[25], bytes[26], bytes[27], bytes[28]);
        let to_lo = u128_from_be(
            bytes[29],
            bytes[30],
            bytes[31],
            bytes[32],
            bytes[33],
            bytes[34],
            bytes[35],
            bytes[36],
            bytes[37],
            bytes[38],
            bytes[39],
            bytes[40],
            bytes[41],
            bytes[42],
            bytes[43],
            bytes[44],
        );
        let group2 = u16_from_be(bytes[45], bytes[46]);
        let tx = ChangeGroup::new(
            account_id,
            Address::zero(),
            Address { hi: to_hi, lo: to_lo },
            token16 as u32,
            Amount::Value(amount),
            Amount::Value(fee),
            0,
            group2,
            0,
            TimeRange::default(),
            None,
        );
        let op = ChangeGroupOp { tx, account_id };
        proof {
            assert(spec_u32_be(op.account_id) =~= bytes@.subrange(1, 5));
            assert(spec_u16_be(op.tx.token as u16) =~= bytes@.subrange(5, 7));
            assert(spec_u128_be(op.tx.amount.spec_value()) =~= bytes@.subrange(7, 23));
            assert(op.tx.to.spec_bytes() =~= bytes@.subrange(25, 45));
            assert(spec_u16_be(op.tx.group2) =~= bytes@.subrange(45, 47));
        }
        Ok(op)
    }

    /// The accounts this operation updates.
    pub fn get_updated_account_ids(&self) -> (r: Vec<u32>)
        ensures
            r@ == seq![self.account_id],
    {
        let mut ids: Vec<u32> = Vec::new();
        ids.push(self.account_id);
        proof {
            assert(ids@ =~= seq![self.account_id]);
        }
        ids
    }
}

// ------------------------------------------------------------------
// Priority operations: requests authorized on the base chain rather than by
// a native signature.
// ------------------------------------------------------------------

/// A base-chain deposit into a rollup account.
#[derive(Clone, Copy, PartialEq, Eq, Structural, Debug)]
pub struct Deposit {
    pub from: Address,
    pub token: u32,
    pub amount: u128,
    pub to: Address,
    pub group: u16,
}

/// A base-chain demand to exit an account's whole balance of one token.
#[derive(Clone, Copy, PartialEq, Eq, Structural, Debug)]
pub struct FullExit {
    pub account_id: u32,
    pub eth_address: Address,
    pub token: u32,
    pub group: u16,
}

/// A base-chain demand to move an account's whole balance of one token into
/// another group.
#[derive(Clone, Copy, PartialEq, Eq, Structural, Debug)]
pub struct FullChangeGroup {
    pub account_id: u32,
    pub eth_address: Address,
    pub token: u32,
    pub group1: u16,
    pub group2: u16,
}

/// The priority operations the base chain can enqueue.
#[derive(Clone, Copy, PartialEq, Eq, Structural, Debug)]
pub enum ZkSyncPriorityOp {
    Deposit(Deposit),
    FullExit(FullExit),
    FullChangeGroup(FullChangeGroup),
}

/// An executed deposit.
#[derive(Clone, Copy, PartialEq, Eq, Structural, Debug)]
pub struct DepositOp {
    pub priority_op: Deposit,
    pub account_id: u32,
}

/// An executed full exit.
#[derive(Clone, Copy, PartialEq, Eq, Structural, Debug)]
pub struct FullExitOp {
    pub priority_op: FullExit,
    pub withdraw_amount: Option<u128>,
}

/// An executed full group change, with the data needed to re-register a
/// minted token in the target group.
#[derive(Clone, Copy, PartialEq, Eq, Structural, Debug)]
pub struct FullChangeGroupOp {
    pub priority_op: FullChangeGroup,
    pub withdraw_amount: Option<u128>,
    pub creator_account_id: Option<u32>,
    pub creator_address: Option<Address>,
    pub serial_id: Option<u32>,
    pub content_hash: Option<H256>,
}

/// Executed operations this core produces.
#[derive(Clone, PartialEq, Eq, Debug)]
pub enum ZkSyncOp {
    ChangeGroup(ChangeGroupOp),
    FullChangeGroup(FullChangeGroupOp),
    Deposit(DepositOp),
    FullExit(FullExitOp),
}

} // verus!

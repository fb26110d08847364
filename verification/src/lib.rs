//! Transaction-authentication and state-transition core of a layer-2 rollup
//! operator.
//!
//! The crate models the operator's account tree, the closed set of
//! transaction kinds with their canonical byte encodings and correctness
//! checks, the signature-verification service (including the batch
//! sender/signature matching algorithm), and the deterministic
//! state-transition handler that turns verified transactions into ordered
//! account updates and collected fees.

pub mod api;
pub mod change_group;
pub mod change_pubkey;
pub mod close;
pub mod codec;
pub mod forced_exit;
pub mod mint_nft;
pub mod operations;
pub mod order;
pub mod primitives;
pub mod signature;
pub mod signature_checker;
pub mod state;
pub mod store;
pub mod swap;
pub mod transfer;
pub mod withdraw;
pub mod withdraw_nft;
pub mod text;
pub mod time_range;
pub mod zksync_tx;

use vstd::prelude::*;

verus! {

/// Account identifiers are dense 32-bit indices into the account tree.
pub type AccountId = u32;

/// Token identifiers are 32-bit indices into the token registry.
pub type TokenId = u32;

/// Per-account monotonic transaction counter.
pub type Nonce = u32;

/// Administrative subdivision of accounts.
pub type GroupId = u16;

/// Largest legal account id: the account tree holds `2^24 - 1` leaves and
/// the last one is reserved.
pub const MAX_ACCOUNT_ID: u32 = 0xFF_FFFE;

/// Largest legal token id, minted non-fungible tokens included.
pub const MAX_TOKEN_ID: u32 = 0x7FFF_FFFE;

/// Largest fungible token id; ids above it denote minted non-fungible
/// tokens.
pub const MAX_FUNGIBLE_TOKEN_ID: u32 = 0xFFFF;

/// Largest token id fees can be paid in.
pub const MAX_PROCESSABLE_TOKEN: u32 = 0x3FF;

/// Version tag embedded in current canonical encodings.
pub const CURRENT_TX_VERSION: u8 = 1;

/// A user-submitted token quantity.  The wire format admits arbitrarily
/// large decimal values; anything beyond the 128-bit range the state machine
/// works in is recorded as `Oversize`, kept only to be rejected by the
/// correctness checks.
#[derive(Clone, Copy, PartialEq, Eq, Structural, Debug)]
pub enum Amount {
    Value(u128),
    Oversize,
}

impl Amount {
    pub open spec fn spec_value(self) -> u128
        recommends
            self is Value,
    {
        self->Value_0
    }

    pub open spec fn spec_is_zero(self) -> bool {
        self == Amount::Value(0u128)
    }

    pub fn is_zero(&self) -> (r: bool)
        ensures
            r == self.spec_is_zero(),
    {
        match self {
            Amount::Value(v) => *v == 0,
            Amount::Oversize => false,
        }
    }
}

/// Operator-wide configuration read once at startup and passed explicitly
/// into every correctness check, so the checks stay pure functions of their
/// inputs.
#[derive(Clone, Copy, PartialEq, Eq, Structural, Debug)]
pub struct ServerConfig {
    /// The group this operator serves.
    pub group_id: GroupId,
    /// Whether only whitelisted accounts may move funds.
    pub permissioned: bool,
}

} // verus!

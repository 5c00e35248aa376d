use vstd::prelude::*;
use crate::identity::Identity;

verus! {

/// Emitted by a successful initialization: the new configuration and the time.
#[derive(Clone, Copy, Debug, PartialEq, Eq)]
pub struct SetStates {
    pub fee_receiver: Identity,
    pub usdc_token: Identity,
    pub minimum_stake: u128,
    pub fee: u128,
    pub timestamp: i64,
}

/// Emitted when the owner replaces the stable token.
#[derive(Clone, Copy, Debug, PartialEq, Eq)]
pub struct SetUSDC {
    pub usdc_token: Identity,
}

/// Emitted when the owner replaces the fee receiver and the fee rate.
#[derive(Clone, Copy, Debug, PartialEq, Eq)]
pub struct SetFeeReceiverAndFee {
    pub fee_receiver: Identity,
    pub fee_percent: u128,
}

/// Emitted when the owner sets the active flag.
#[derive(Clone, Copy, Debug, PartialEq, Eq)]
pub struct InitializedStatus {
    pub status: bool,
}

} // verus!

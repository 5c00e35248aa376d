//! A single-owner custodial vault ledger: the vault's configuration record,
//! its owner-gated mutators, and the stake/unstake protocol that keeps each
//! participant's entry and the vault's staked total in step.

pub mod error;
pub mod event;
pub mod identity;
pub mod ledger;
pub mod staking;
pub mod token_account;
pub mod vault;

pub use error::ErrorCode;
pub use event::{InitializedStatus, SetFeeReceiverAndFee, SetStates, SetUSDC};
pub use identity::Identity;
pub use ledger::{StakeLedger, UserStake};
pub use staking::{
    deposit, stake, unstake, validate_token_accounts, TokenTransfer, TransferDirection,
    TOKEN_DECIMALS,
};
pub use token_account::{read_token_account, TokenAccountKeys};
pub use vault::{
    set_fee_receiver_and_fee_percent, set_stake_status, set_states_values, set_usdc_token,
    InitializeVault, FEE_BASE,
};

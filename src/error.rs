use vstd::prelude::*;

verus! {

/// Every way an operation on the vault can be rejected. A rejected operation
/// changes no state.
#[derive(Clone, Copy, Debug, PartialEq, Eq, Structural)]
pub enum ErrorCode {
    /// Initialization was attempted while the vault is already active.
    AlreadyActive,
    /// Initialization named an owner other than the one already recorded.
    OwnerConflict,
    /// A configuration change was attempted by someone other than the owner.
    CallerNotOwner,
    /// A required identity was the all-zero sentinel.
    ZeroAddress,
    /// The fee rate exceeds the fixed fee base.
    FeeTooHigh,
    /// The custody token account is not held by the custody authority.
    InvalidOwner,
    /// A token account holds some asset other than the vault's stable token.
    InvalidMint,
    /// The participant's funding account is not held by the participant.
    InvalidUserAccountOwner,
    /// A stake or unstake of zero.
    ZeroAmount,
    /// An unstake of more than the participant, or the vault, has staked.
    InsufficientStaked,
    /// The bytes of a token account do not decode as an initialized token account.
    AccountDidNotDeserialize,
    /// A staked amount or the staked total would leave the range of `u128`.
    ArithmeticOverflow,
}

} // verus!

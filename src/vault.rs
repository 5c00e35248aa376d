use vstd::prelude::*;
use crate::error::ErrorCode;
use crate::event::{InitializedStatus, SetFeeReceiverAndFee, SetStates, SetUSDC};
use crate::identity::Identity;

verus! {

/// The fixed denominator of the fee rate.
pub const FEE_BASE: u128 = 1000;

/// The vault's configuration record.
#[derive(Clone, Copy, Debug, PartialEq, Eq)]
pub struct InitializeVault {
    /// Smallest amount a participant is meant to stake.
    pub minimum_stake: u128,
    /// The accepted stable token (its mint); all-zero means unset.
    pub usdc_token: Identity,
    /// All-zero until the first initialization.
    pub owner: Identity,
    /// Where fees go; all-zero means no receiver.
    pub fee_receiver: Identity,
    /// Fee rate, as a numerator over `mbps`.
    pub fee: u128,
    /// Fee base: `FEE_BASE` once initialized.
    pub mbps: u128,
    /// Whether staking is enabled.
    pub stake_initialized: bool,
    /// Sum of all participants' staked amounts.
    pub total_staked: u128,
}

impl InitializeVault {
    /// A freshly allocated record: every field zero.
    pub fn new() -> (r: InitializeVault)
        ensures
            r.owner.spec_is_zero(),
            r.usdc_token.spec_is_zero(),
            r.fee_receiver.spec_is_zero(),
            r.minimum_stake == 0,
            r.fee == 0,
            r.mbps == 0,
            !r.stake_initialized,
            r.total_staked == 0,
            r.fee_in_range(),
            r.receiver_covers_fee(),
    {
        InitializeVault {
            minimum_stake: 0,
            usdc_token: Identity::zero(),
            owner: Identity::zero(),
            fee_receiver: Identity::zero(),
            fee: 0,
            mbps: 0,
            stake_initialized: false,
            total_staked: 0,
        }
    }

    /// The fee rate does not exceed the fee base.
    pub open spec fn fee_in_range(self) -> bool {
        self.fee <= self.mbps
    }

    /// A zero fee receiver comes with a zero fee rate.
    pub open spec fn receiver_covers_fee(self) -> bool {
        self.fee_receiver.spec_is_zero() ==> self.fee == 0
    }
}

/// Why a fee receiver and rate may not be set together, if so: a zero
/// receiver needs a zero rate, and the rate may not exceed `base`.
pub open spec fn fee_setting_error(fee_receiver: Identity, fee_percent: u128, base: u128) -> Option<ErrorCode> {
    if fee_receiver.spec_is_zero() && fee_percent != 0 {
        Some(ErrorCode::ZeroAddress)
    } else if fee_percent > base {
        Some(ErrorCode::FeeTooHigh)
    } else {
        None
    }
}

/// Why initialization by `owner` with this fee receiver and rate is refused,
/// if it is.
pub open spec fn initialize_error(
    v: InitializeVault,
    owner: Identity,
    fee_receiver: Identity,
    fee_percent: u128,
) -> Option<ErrorCode> {
    if !v.owner.spec_is_zero() && v.owner != owner {
        Some(ErrorCode::OwnerConflict)
    } else if v.stake_initialized {
        Some(ErrorCode::AlreadyActive)
    } else {
        fee_setting_error(fee_receiver, fee_percent, FEE_BASE)
    }
}

/// The record after a successful initialization.
pub open spec fn initialized(
    owner: Identity,
    fee_receiver: Identity,
    usdc_token: Identity,
    minimum_stake: u128,
    fee_percent: u128,
    vault_init: bool,
) -> InitializeVault {
    InitializeVault {
        minimum_stake,
        usdc_token,
        owner,
        fee_receiver,
        fee: fee_percent,
        mbps: FEE_BASE,
        stake_initialized: vault_init,
        total_staked: 0,
    }
}

/// Sets the whole configuration: allowed while the vault is inactive, and only
/// to the recorded owner once there is one. The fee receiver and rate are held
/// to the same rules as a later change of them, against the fixed fee base.
/// Zeroes the staked total.
pub fn set_states_values(
    vault: &mut InitializeVault,
    owner: Identity,
    fee_receiver: Identity,
    usdc_token: Identity,
    minimum_stake: u128,
    fee_percent: u128,
    vault_init: bool,
    timestamp: i64,
) -> (r: Result<SetStates, ErrorCode>)
    ensures
        initialize_error(*old(vault), owner, fee_receiver, fee_percent) matches Some(e) ==> r == Err::<SetStates, ErrorCode>(e)
            && *final(vault) == *old(vault),
        initialize_error(*old(vault), owner, fee_receiver, fee_percent) is None ==> *final(vault) == initialized(
            owner,
            fee_receiver,
            usdc_token,
            minimum_stake,
            fee_percent,
            vault_init,
        ) && r == (Ok::<SetStates, ErrorCode>(
            SetStates { fee_receiver, usdc_token, minimum_stake, fee: fee_percent, timestamp },
        )),
        old(vault).fee_in_range() ==> final(vault).fee_in_range(),
        old(vault).receiver_covers_fee() ==> final(vault).receiver_covers_fee(),
        final(vault).stake_initialized != old(vault).stake_initialized ==> r is Ok
            && !old(vault).stake_initialized,
{
    if !vault.owner.is_zero() && !vault.owner.same(&owner) {
        return Err(ErrorCode::OwnerConflict);
    }
    if vault.stake_initialized {
        return Err(ErrorCode::AlreadyActive);
    }
    if fee_receiver.is_zero() && fee_percent != 0 {
        return Err(ErrorCode::ZeroAddress);
    }
    if fee_percent > FEE_BASE {
        return Err(ErrorCode::FeeTooHigh);
    }
    vault.minimum_stake = minimum_stake;
    vault.usdc_token = usdc_token;
    vault.owner = owner;
    vault.fee_receiver = fee_receiver;
    vault.fee = fee_percent;
    vault.mbps = FEE_BASE;
    vault.stake_initialized = vault_init;
    vault.total_staked = 0;
    Ok(SetStates { fee_receiver, usdc_token, minimum_stake, fee: fee_percent, timestamp })
}

/// Why `caller` may not replace the stable token with `usdc_token`, if so.
pub open spec fn set_usdc_token_error(v: InitializeVault, caller: Identity, usdc_token: Identity) -> Option<ErrorCode> {
    if v.owner != caller {
        Some(ErrorCode::CallerNotOwner)
    } else if usdc_token.spec_is_zero() {
        Some(ErrorCode::ZeroAddress)
    } else {
        None
    }
}

/// Replaces the stable token; owner only, and not with the zero identity.
pub fn set_usdc_token(vault: &mut InitializeVault, caller: Identity, usdc_token: Identity) -> (r: Result<SetUSDC, ErrorCode>)
    ensures
        set_usdc_token_error(*old(vault), caller, usdc_token) matches Some(e) ==> r == Err::<SetUSDC, ErrorCode>(e)
            && *final(vault) == *old(vault),
        set_usdc_token_error(*old(vault), caller, usdc_token) is None ==> *final(vault) == (InitializeVault { usdc_token, ..*old(vault) })
            && r == (Ok::<SetUSDC, ErrorCode>(SetUSDC { usdc_token })),
        old(vault).fee_in_range() ==> final(vault).fee_in_range(),
        old(vault).receiver_covers_fee() ==> final(vault).receiver_covers_fee(),
        final(vault).stake_initialized == old(vault).stake_initialized,
{
    if !vault.owner.same(&caller) {
        return Err(ErrorCode::CallerNotOwner);
    }
    if usdc_token.is_zero() {
        return Err(ErrorCode::ZeroAddress);
    }
    vault.usdc_token = usdc_token;
    Ok(SetUSDC { usdc_token })
}

/// Why `caller` may not set this fee receiver and rate, if so.
pub open spec fn set_fee_error(v: InitializeVault, caller: Identity, fee_receiver: Identity, fee_percent: u128) -> Option<ErrorCode> {
    if v.owner != caller {
        Some(ErrorCode::CallerNotOwner)
    } else {
        fee_setting_error(fee_receiver, fee_percent, v.mbps)
    }
}

/// Replaces the fee receiver and the fee rate together; owner only. A zero
/// receiver is allowed only with a zero rate, and the rate may not exceed the
/// fee base.
pub fn set_fee_receiver_and_fee_percent(
    vault: &mut InitializeVault,
    caller: Identity,
    fee_receiver: Identity,
    fee_percent: u128,
) -> (r: Result<SetFeeReceiverAndFee, ErrorCode>)
    ensures
        set_fee_error(*old(vault), caller, fee_receiver, fee_percent) matches Some(e) ==> r == Err::<SetFeeReceiverAndFee, ErrorCode>(e)
            && *final(vault) == *old(vault),
        set_fee_error(*old(vault), caller, fee_receiver, fee_percent) is None ==> *final(vault) == (InitializeVault { fee_receiver, fee: fee_percent, ..*old(vault) })
            && r == (Ok::<SetFeeReceiverAndFee, ErrorCode>(SetFeeReceiverAndFee { fee_receiver, fee_percent })),
        old(vault).fee_in_range() ==> final(vault).fee_in_range(),
        old(vault).receiver_covers_fee() ==> final(vault).receiver_covers_fee(),
        final(vault).stake_initialized == old(vault).stake_initialized,
{
    if !vault.owner.same(&caller) {
        return Err(ErrorCode::CallerNotOwner);
    }
    if fee_receiver.is_zero() && fee_percent != 0 {
        return Err(ErrorCode::ZeroAddress);
    }
    if fee_percent > vault.mbps {
        return Err(ErrorCode::FeeTooHigh);
    }
    vault.fee_receiver = fee_receiver;
    vault.fee = fee_percent;
    Ok(SetFeeReceiverAndFee { fee_receiver, fee_percent })
}

/// Sets the active flag; owner only.
pub fn set_stake_status(vault: &mut InitializeVault, caller: Identity, status: bool) -> (r: Result<InitializedStatus, ErrorCode>)
    ensures
        old(vault).owner != caller ==> r == Err::<InitializedStatus, ErrorCode>(ErrorCode::CallerNotOwner)
            && *final(vault) == *old(vault),
        old(vault).owner == caller ==> *final(vault) == (InitializeVault { stake_initialized: status, ..*old(vault) })
            && r == (Ok::<InitializedStatus, ErrorCode>(InitializedStatus { status })),
        old(vault).fee_in_range() ==> final(vault).fee_in_range(),
        old(vault).receiver_covers_fee() ==> final(vault).receiver_covers_fee(),
        final(vault).stake_initialized != old(vault).stake_initialized ==> caller == old(vault).owner,
{
    if !vault.owner.same(&caller) {
        return Err(ErrorCode::CallerNotOwner);
    }
    vault.stake_initialized = status;
    Ok(InitializedStatus { status })
}

/// Initializing twice with the same owner, the first time without activating
/// the vault, is accepted the second time whenever its fee receiver and rate
/// are acceptable (and each accepted call sets every field from its own
/// arguments, see `initialized`); once a non-zero owner is recorded,
/// initialization with any other owner is refused with `OwnerConflict`.
pub proof fn initialize_twice(
    v: InitializeVault,
    owner: Identity,
    other: Identity,
    fee_receiver: Identity,
    usdc_token: Identity,
    minimum_stake: u128,
    fee_percent: u128,
    fee_receiver2: Identity,
    fee_percent2: u128,
)
    requires
        initialize_error(v, owner, fee_receiver, fee_percent) is None,
    ensures
        initialize_error(
            initialized(owner, fee_receiver, usdc_token, minimum_stake, fee_percent, false),
            owner,
            fee_receiver2,
            fee_percent2,
        ) == fee_setting_error(fee_receiver2, fee_percent2, FEE_BASE),
        !owner.spec_is_zero() && other != owner ==> initialize_error(
            initialized(owner, fee_receiver, usdc_token, minimum_stake, fee_percent, false),
            other,
            fee_receiver2,
            fee_percent2,
        ) == Some(ErrorCode::OwnerConflict),
{
}

} // verus!

use vstd::prelude::*;
use crate::error::ErrorCode;
use crate::identity::Identity;
use crate::ledger::StakeLedger;
use crate::token_account::{
    read_token_account, token_account_decodes, token_account_mint, token_account_owner,
};
use crate::vault::{initialized, InitializeVault};

verus! {

/// Decimal places of the stable token; every transfer is checked against it.
pub const TOKEN_DECIMALS: u8 = 6;

/// Which way a transfer moves tokens.
#[derive(Clone, Copy, Debug, PartialEq, Eq, Structural)]
pub enum TransferDirection {
    /// From the participant's funding account into vault custody, signed by the participant.
    FundingToCustody,
    /// From vault custody back to the participant's funding account, signed by the custody authority.
    CustodyToFunding,
}

/// A token transfer that the host must carry out for an accepted operation.
/// If the host cannot carry it out, the whole operation is void: the vault
/// and ledger must be restored to their state before the call.
#[derive(Clone, Copy, Debug, PartialEq, Eq)]
pub struct TokenTransfer {
    pub direction: TransferDirection,
    pub amount: u64,
    pub decimals: u8,
    /// Who signs the transfer.
    pub authority: Identity,
}

/// Why the custody and funding accounts do not suit a transfer of the vault's
/// stable token between `participant` and custody, if they do not. Both
/// accounts must decode; custody must be held by the custody authority,
/// funding by the participant, and both must hold the stable token.
pub open spec fn account_error(
    v: InitializeVault,
    participant: Identity,
    custody: Seq<u8>,
    funding: Seq<u8>,
    custody_authority: Identity,
) -> Option<ErrorCode> {
    if !token_account_decodes(custody) || !token_account_decodes(funding) {
        Some(ErrorCode::AccountDidNotDeserialize)
    } else if token_account_owner(custody) != custody_authority.bytes@ {
        Some(ErrorCode::InvalidOwner)
    } else if token_account_mint(custody) != v.usdc_token.bytes@ {
        Some(ErrorCode::InvalidMint)
    } else if token_account_owner(funding) != participant.bytes@ {
        Some(ErrorCode::InvalidUserAccountOwner)
    } else if token_account_mint(funding) != v.usdc_token.bytes@ {
        Some(ErrorCode::InvalidMint)
    } else {
        None
    }
}

/// Checks the custody account and the participant's funding account, in this
/// order: custody owner, custody mint, funding owner, funding mint.
pub fn validate_token_accounts(
    vault: &InitializeVault,
    participant: &Identity,
    custody_data: &[u8],
    funding_data: &[u8],
    custody_authority: &Identity,
) -> (r: Result<(), ErrorCode>)
    ensures
        r is Ok <==> account_error(*vault, *participant, custody_data@, funding_data@, *custody_authority) is None,
        account_error(*vault, *participant, custody_data@, funding_data@, *custody_authority) matches Some(e)
            ==> r == Err::<(), ErrorCode>(e),
{
    let custody = read_token_account(custody_data)?;
    let funding = read_token_account(funding_data)?;
    if !custody.owner.same(custody_authority) {
        return Err(ErrorCode::InvalidOwner);
    }
    if !custody.mint.same(&vault.usdc_token) {
        return Err(ErrorCode::InvalidMint);
    }
    if !funding.owner.same(participant) {
        return Err(ErrorCode::InvalidUserAccountOwner);
    }
    if !funding.mint.same(&vault.usdc_token) {
        return Err(ErrorCode::InvalidMint);
    }
    Ok(())
}

/// Why a deposit or stake of `amount` is refused before any arithmetic, if it is.
pub open spec fn deposit_error(
    v: InitializeVault,
    participant: Identity,
    amount: u64,
    custody: Seq<u8>,
    funding: Seq<u8>,
    custody_authority: Identity,
) -> Option<ErrorCode> {
    if amount == 0 {
        Some(ErrorCode::ZeroAmount)
    } else {
        account_error(v, participant, custody, funding, custody_authority)
    }
}

/// The transfer that moves `amount` from `participant` into custody.
pub open spec fn transfer_in(participant: Identity, amount: u64) -> TokenTransfer {
    TokenTransfer {
        direction: TransferDirection::FundingToCustody,
        amount,
        decimals: TOKEN_DECIMALS,
        authority: participant,
    }
}

/// The transfer that moves `amount` out of custody back to the participant.
pub open spec fn transfer_out(custody_authority: Identity, amount: u64) -> TokenTransfer {
    TokenTransfer {
        direction: TransferDirection::CustodyToFunding,
        amount,
        decimals: TOKEN_DECIMALS,
        authority: custody_authority,
    }
}

/// A deposit into the plain deposit vault: the checks of a stake, with no
/// ledger. Returns the transfer to carry out.
pub fn deposit(
    vault: &InitializeVault,
    participant: Identity,
    amount: u64,
    custody_data: &[u8],
    funding_data: &[u8],
    custody_authority: Identity,
) -> (r: Result<TokenTransfer, ErrorCode>)
    ensures
        deposit_error(*vault, participant, amount, custody_data@, funding_data@, custody_authority) matches Some(e)
            ==> r == Err::<TokenTransfer, ErrorCode>(e),
        deposit_error(*vault, participant, amount, custody_data@, funding_data@, custody_authority) is None
            ==> r == Ok::<TokenTransfer, ErrorCode>(transfer_in(participant, amount)),
        amount == 0 ==> r == Err::<TokenTransfer, ErrorCode>(ErrorCode::ZeroAmount),
{
    if amount == 0 {
        return Err(ErrorCode::ZeroAmount);
    }
    validate_token_accounts(vault, &participant, custody_data, funding_data, &custody_authority)?;
    Ok(TokenTransfer {
        direction: TransferDirection::FundingToCustody,
        amount,
        decimals: TOKEN_DECIMALS,
        authority: participant,
    })
}

/// Why a stake of `amount` by `participant` is refused, if it is.
pub open spec fn stake_error(
    v: InitializeVault,
    ledger: StakeLedger,
    participant: Identity,
    amount: u64,
    custody: Seq<u8>,
    funding: Seq<u8>,
    custody_authority: Identity,
) -> Option<ErrorCode> {
    if let Some(e) = deposit_error(v, participant, amount, custody, funding, custody_authority) {
        Some(e)
    } else if v.total_staked + amount > u128::MAX {
        Some(ErrorCode::ArithmeticOverflow)
    } else if ledger.staked_of(participant) + amount > u128::MAX {
        Some(ErrorCode::ArithmeticOverflow)
    } else {
        None
    }
}

/// The vault's staked total matches the sum of the ledger.
pub open spec fn stake_consistent(v: InitializeVault, ledger: StakeLedger) -> bool {
    v.total_staked == ledger.total()
}

/// Initialization zeroes the staked total: afterwards the total matches the
/// ledger exactly when nothing is staked in it.
pub proof fn initialize_stake_consistent(
    ledger: StakeLedger,
    owner: Identity,
    fee_receiver: Identity,
    usdc_token: Identity,
    minimum_stake: u128,
    fee_percent: u128,
    vault_init: bool,
)
    ensures
        stake_consistent(
            initialized(owner, fee_receiver, usdc_token, minimum_stake, fee_percent, vault_init),
            ledger,
        ) <==> ledger.total() == 0,
{
}

/// Stakes `amount` for `participant`: after the checks, adds it to the
/// participant's entry (created if needed) and to the staked total, and
/// returns the transfer into custody that must accompany the change.
pub fn stake(
    vault: &mut InitializeVault,
    ledger: &mut StakeLedger,
    participant: Identity,
    amount: u64,
    custody_data: &[u8],
    funding_data: &[u8],
    custody_authority: Identity,
) -> (r: Result<TokenTransfer, ErrorCode>)
    requires
        old(ledger).wf(),
    ensures
        final(ledger).wf(),
        stake_error(*old(vault), *old(ledger), participant, amount, custody_data@, funding_data@, custody_authority) matches Some(e)
            ==> r == Err::<TokenTransfer, ErrorCode>(e) && *final(vault) == *old(vault)
            && final(ledger).entries@ == old(ledger).entries@,
        stake_error(*old(vault), *old(ledger), participant, amount, custody_data@, funding_data@, custody_authority) is None
            ==> r == Ok::<TokenTransfer, ErrorCode>(transfer_in(participant, amount))
            && *final(vault) == (InitializeVault { total_staked: (old(vault).total_staked + amount) as u128, ..*old(vault) })
            && final(ledger).holds(participant)
            && final(ledger).staked_of(participant) == old(ledger).staked_of(participant) + amount
            && forall|q: Identity| q != participant ==> #[trigger] final(ledger).staked_of(q) == old(ledger).staked_of(q)
                && final(ledger).holds(q) == old(ledger).holds(q),
        amount == 0 ==> r == Err::<TokenTransfer, ErrorCode>(ErrorCode::ZeroAmount)
            && *final(vault) == *old(vault) && final(ledger).entries@ == old(ledger).entries@,
        stake_consistent(*old(vault), *old(ledger)) ==> stake_consistent(*final(vault), *final(ledger)),
        old(vault).fee_in_range() ==> final(vault).fee_in_range(),
        old(vault).receiver_covers_fee() ==> final(vault).receiver_covers_fee(),
        final(vault).stake_initialized == old(vault).stake_initialized,
{
    if amount == 0 {
        return Err(ErrorCode::ZeroAmount);
    }
    validate_token_accounts(vault, &participant, custody_data, funding_data, &custody_authority)?;
    let held = ledger.staked_amount(&participant);
    let total = match vault.total_staked.checked_add(amount as u128) {
        Some(t) => t,
        None => return Err(ErrorCode::ArithmeticOverflow),
    };
    let new_held = match held.checked_add(amount as u128) {
        Some(h) => h,
        None => return Err(ErrorCode::ArithmeticOverflow),
    };
    vault.total_staked = total;
    ledger.set_staked(&participant, new_held);
    Ok(TokenTransfer {
        direction: TransferDirection::FundingToCustody,
        amount,
        decimals: TOKEN_DECIMALS,
        authority: participant,
    })
}

/// Why an unstake of `amount` by `participant` is refused, if it is.
pub open spec fn unstake_error(
    v: InitializeVault,
    ledger: StakeLedger,
    participant: Identity,
    amount: u64,
    custody: Seq<u8>,
    funding: Seq<u8>,
    custody_authority: Identity,
) -> Option<ErrorCode> {
    if amount == 0 {
        Some(ErrorCode::ZeroAmount)
    } else if ledger.staked_of(participant) < amount {
        Some(ErrorCode::InsufficientStaked)
    } else if v.total_staked < amount {
        Some(ErrorCode::InsufficientStaked)
    } else {
        account_error(v, participant, custody, funding, custody_authority)
    }
}

/// Unstakes `amount` for `participant`: after the checks, takes it off the
/// participant's entry (which stays, possibly at zero) and off the staked
/// total, and returns the transfer out of custody that must follow.
pub fn unstake(
    vault: &mut InitializeVault,
    ledger: &mut StakeLedger,
    participant: Identity,
    amount: u64,
    custody_data: &[u8],
    funding_data: &[u8],
    custody_authority: Identity,
) -> (r: Result<TokenTransfer, ErrorCode>)
    requires
        old(ledger).wf(),
    ensures
        final(ledger).wf(),
        r is Ok && amount == old(ledger).staked_of(participant) ==> final(ledger).holds(participant)
            && final(ledger).staked_of(participant) == 0,
        unstake_error(*old(vault), *old(ledger), participant, amount, custody_data@, funding_data@, custody_authority) matches Some(e)
            ==> r == Err::<TokenTransfer, ErrorCode>(e) && *final(vault) == *old(vault)
            && final(ledger).entries@ == old(ledger).entries@,
        unstake_error(*old(vault), *old(ledger), participant, amount, custody_data@, funding_data@, custody_authority) is None
            ==> r == Ok::<TokenTransfer, ErrorCode>(transfer_out(custody_authority, amount))
            && *final(vault) == (InitializeVault { total_staked: (old(vault).total_staked - amount) as u128, ..*old(vault) })
            && final(ledger).holds(participant)
            && final(ledger).staked_of(participant) == old(ledger).staked_of(participant) - amount
            && forall|q: Identity| q != participant ==> #[trigger] final(ledger).staked_of(q) == old(ledger).staked_of(q)
                && final(ledger).holds(q) == old(ledger).holds(q),
        amount == 0 ==> r == Err::<TokenTransfer, ErrorCode>(ErrorCode::ZeroAmount)
            && *final(vault) == *old(vault) && final(ledger).entries@ == old(ledger).entries@,
        stake_consistent(*old(vault), *old(ledger)) ==> stake_consistent(*final(vault), *final(ledger)),
        old(vault).fee_in_range() ==> final(vault).fee_in_range(),
        old(vault).receiver_covers_fee() ==> final(vault).receiver_covers_fee(),
        final(vault).stake_initialized == old(vault).stake_initialized,
{
    if amount == 0 {
        return Err(ErrorCode::ZeroAmount);
    }
    let held = ledger.staked_amount(&participant);
    if held < amount as u128 {
        return Err(ErrorCode::InsufficientStaked);
    }
    if vault.total_staked < amount as u128 {
        return Err(ErrorCode::InsufficientStaked);
    }
    validate_token_accounts(vault, &participant, custody_data, funding_data, &custody_authority)?;
    ledger.set_staked(&participant, held - amount as u128);
    vault.total_staked = vault.total_staked - amount as u128;
    Ok(TokenTransfer {
        direction: TransferDirection::CustodyToFunding,
        amount,
        decimals: TOKEN_DECIMALS,
        authority: custody_authority,
    })
}

} // verus!

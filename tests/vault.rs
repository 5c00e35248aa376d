use usdc_stake::{
    deposit, read_token_account, set_fee_receiver_and_fee_percent, set_stake_status,
    set_states_values, set_usdc_token, stake, unstake, validate_token_accounts, ErrorCode,
    Identity, InitializeVault, StakeLedger, TokenTransfer, TransferDirection, FEE_BASE,
    TOKEN_DECIMALS,
};

fn id(b: u8) -> Identity {
    Identity::from_bytes([b; 32])
}

/// Bytes of an initialized token account holding `mint`, owned by `owner`.
fn token_account(mint: &Identity, owner: &Identity) -> Vec<u8> {
    let mut d = vec![0u8; 165];
    d[0..32].copy_from_slice(&mint.bytes);
    d[32..64].copy_from_slice(&owner.bytes);
    d[64..72].copy_from_slice(&1_000_000u64.to_le_bytes());
    d[108] = 1;
    d
}

const OWNER: u8 = 0xA1;
const RECEIVER: u8 = 0xB2;
const TOKEN: u8 = 0x7E;
const OTHER: u8 = 0xC3;
const PARTICIPANT: u8 = 0x50;
const AUTHORITY: u8 = 0xAA;

fn initialized_vault() -> InitializeVault {
    let mut v = InitializeVault::new();
    set_states_values(&mut v, id(OWNER), id(RECEIVER), id(TOKEN), 100, 10, true, 1_700_000_000)
        .unwrap();
    v
}

fn custody() -> Vec<u8> {
    token_account(&id(TOKEN), &id(AUTHORITY))
}

fn funding() -> Vec<u8> {
    token_account(&id(TOKEN), &id(PARTICIPANT))
}

#[test]
fn initialize_fresh_record() {
    let mut v = InitializeVault::new();
    let ev = set_states_values(&mut v, id(OWNER), id(RECEIVER), id(TOKEN), 100, 10, true, 42)
        .unwrap();
    assert_eq!(v.owner, id(OWNER));
    assert_eq!(v.fee, 10);
    assert_eq!(v.mbps, 1000);
    assert_eq!(v.mbps, FEE_BASE);
    assert!(v.stake_initialized);
    assert_eq!(v.total_staked, 0);
    assert_eq!(v.minimum_stake, 100);
    assert_eq!(v.usdc_token, id(TOKEN));
    assert_eq!(v.fee_receiver, id(RECEIVER));
    assert_eq!(ev.fee_receiver, id(RECEIVER));
    assert_eq!(ev.usdc_token, id(TOKEN));
    assert_eq!(ev.minimum_stake, 100);
    assert_eq!(ev.fee, 10);
    assert_eq!(ev.timestamp, 42);
}

#[test]
fn initialize_other_owner_conflicts() {
    let mut v = initialized_vault();
    let before = v;
    let r = set_states_values(&mut v, id(OTHER), id(RECEIVER), id(TOKEN), 1, 1, false, 0);
    assert_eq!(r.unwrap_err(), ErrorCode::OwnerConflict);
    assert_eq!(v, before);
}

#[test]
fn initialize_while_active_fails() {
    let mut v = initialized_vault();
    let before = v;
    let r = set_states_values(&mut v, id(OWNER), id(RECEIVER), id(TOKEN), 1, 1, false, 0);
    assert_eq!(r.unwrap_err(), ErrorCode::AlreadyActive);
    assert_eq!(v, before);
}

#[test]
fn initialize_twice_same_owner_overwrites() {
    let mut v = InitializeVault::new();
    set_states_values(&mut v, id(OWNER), id(RECEIVER), id(TOKEN), 100, 10, false, 1).unwrap();
    set_states_values(&mut v, id(OWNER), id(OTHER), id(OTHER), 7, 3, true, 2).unwrap();
    assert_eq!(v.fee_receiver, id(OTHER));
    assert_eq!(v.usdc_token, id(OTHER));
    assert_eq!(v.minimum_stake, 7);
    assert_eq!(v.fee, 3);
    assert!(v.stake_initialized);
    let r = set_states_values(&mut v, id(RECEIVER), id(OTHER), id(OTHER), 7, 3, false, 3);
    assert_eq!(r.unwrap_err(), ErrorCode::OwnerConflict);
}

#[test]
fn initialize_after_deactivation_resets_total() {
    let mut v = initialized_vault();
    v.total_staked = 500;
    set_stake_status(&mut v, id(OWNER), false).unwrap();
    set_states_values(&mut v, id(OWNER), id(RECEIVER), id(TOKEN), 100, 10, true, 0).unwrap();
    assert_eq!(v.total_staked, 0);
}

#[test]
fn set_fee_zero_receiver_with_rate_fails() {
    let mut v = initialized_vault();
    let before = v;
    let r = set_fee_receiver_and_fee_percent(&mut v, id(OWNER), Identity::zero(), 5);
    assert_eq!(r.unwrap_err(), ErrorCode::ZeroAddress);
    assert_eq!(v, before);
}

#[test]
fn set_fee_zero_receiver_zero_rate_ok() {
    let mut v = initialized_vault();
    let ev = set_fee_receiver_and_fee_percent(&mut v, id(OWNER), Identity::zero(), 0).unwrap();
    assert!(v.fee_receiver.is_zero());
    assert_eq!(v.fee, 0);
    assert_eq!(ev.fee_percent, 0);
}

#[test]
fn set_fee_at_base_ok_above_fails() {
    let mut v = initialized_vault();
    set_fee_receiver_and_fee_percent(&mut v, id(OWNER), id(OTHER), 1000).unwrap();
    assert_eq!(v.fee, 1000);
    assert_eq!(v.fee_receiver, id(OTHER));
    let r = set_fee_receiver_and_fee_percent(&mut v, id(OWNER), id(RECEIVER), 1001);
    assert_eq!(r.unwrap_err(), ErrorCode::FeeTooHigh);
    assert_eq!(v.fee, 1000);
}

#[test]
fn set_fee_by_stranger_fails() {
    let mut v = initialized_vault();
    let r = set_fee_receiver_and_fee_percent(&mut v, id(OTHER), id(OTHER), 1);
    assert_eq!(r.unwrap_err(), ErrorCode::CallerNotOwner);
    assert_eq!(v.fee, 10);
}

#[test]
fn set_usdc_token_rules() {
    let mut v = initialized_vault();
    assert_eq!(set_usdc_token(&mut v, id(OTHER), id(9)).unwrap_err(), ErrorCode::CallerNotOwner);
    assert_eq!(
        set_usdc_token(&mut v, id(OWNER), Identity::zero()).unwrap_err(),
        ErrorCode::ZeroAddress
    );
    assert_eq!(v.usdc_token, id(TOKEN));
    let ev = set_usdc_token(&mut v, id(OWNER), id(9)).unwrap();
    assert_eq!(v.usdc_token, id(9));
    assert_eq!(ev.usdc_token, id(9));
}

#[test]
fn set_stake_status_rules() {
    let mut v = initialized_vault();
    assert_eq!(set_stake_status(&mut v, id(OTHER), false).unwrap_err(), ErrorCode::CallerNotOwner);
    assert!(v.stake_initialized);
    let ev = set_stake_status(&mut v, id(OWNER), false).unwrap();
    assert!(!v.stake_initialized);
    assert!(!ev.status);
}

#[test]
fn stake_unstake_scenario() {
    let mut v = initialized_vault();
    let mut l = StakeLedger::new();
    let p = id(PARTICIPANT);
    let t = stake(&mut v, &mut l, p, 500, &custody(), &funding(), id(AUTHORITY)).unwrap();
    assert_eq!(l.staked_amount(&p), 500);
    assert_eq!(v.total_staked, 500);
    assert_eq!(
        t,
        TokenTransfer {
            direction: TransferDirection::FundingToCustody,
            amount: 500,
            decimals: TOKEN_DECIMALS,
            authority: p,
        }
    );

    let r = unstake(&mut v, &mut l, p, 600, &custody(), &funding(), id(AUTHORITY));
    assert_eq!(r.unwrap_err(), ErrorCode::InsufficientStaked);
    assert_eq!(l.staked_amount(&p), 500);
    assert_eq!(v.total_staked, 500);

    let t = unstake(&mut v, &mut l, p, 500, &custody(), &funding(), id(AUTHORITY)).unwrap();
    assert_eq!(l.staked_amount(&p), 0);
    assert_eq!(v.total_staked, 0);
    assert_eq!(t.direction, TransferDirection::CustodyToFunding);
    assert_eq!(t.amount, 500);
    assert_eq!(t.decimals, 6);
    assert_eq!(t.authority, id(AUTHORITY));
    // the entry stays, at zero
    assert!(l.find(&p).is_some());
    assert_eq!(l.entries.len(), 1);
}

#[test]
fn zero_amount_rejected() {
    let mut v = initialized_vault();
    let mut l = StakeLedger::new();
    let p = id(PARTICIPANT);
    let before = v;
    let r = stake(&mut v, &mut l, p, 0, &custody(), &funding(), id(AUTHORITY));
    assert_eq!(r.unwrap_err(), ErrorCode::ZeroAmount);
    assert_eq!(v, before);
    assert!(l.entries.is_empty());
    stake(&mut v, &mut l, p, 5, &custody(), &funding(), id(AUTHORITY)).unwrap();
    let before = v;
    let r = unstake(&mut v, &mut l, p, 0, &custody(), &funding(), id(AUTHORITY));
    assert_eq!(r.unwrap_err(), ErrorCode::ZeroAmount);
    assert_eq!(v, before);
    assert_eq!(l.staked_amount(&p), 5);
}

#[test]
fn total_matches_sum_over_participants() {
    let mut v = initialized_vault();
    let mut l = StakeLedger::new();
    let a = id(PARTICIPANT);
    let b = id(0x51);
    let fa = funding();
    let fb = token_account(&id(TOKEN), &b);
    stake(&mut v, &mut l, a, 300, &custody(), &fa, id(AUTHORITY)).unwrap();
    stake(&mut v, &mut l, b, 200, &custody(), &fb, id(AUTHORITY)).unwrap();
    stake(&mut v, &mut l, a, 50, &custody(), &fa, id(AUTHORITY)).unwrap();
    unstake(&mut v, &mut l, b, 120, &custody(), &fb, id(AUTHORITY)).unwrap();
    assert_eq!(l.staked_amount(&a), 350);
    assert_eq!(l.staked_amount(&b), 80);
    assert_eq!(v.total_staked, 430);
    let sum: u128 = l.entries.iter().map(|e| e.staked_amount).sum();
    assert_eq!(sum, v.total_staked);
    assert_eq!(l.entries.len(), 2);
}

#[test]
fn unstake_without_entry_is_insufficient() {
    let mut v = initialized_vault();
    let mut l = StakeLedger::new();
    let r = unstake(&mut v, &mut l, id(PARTICIPANT), 1, &custody(), &funding(), id(AUTHORITY));
    assert_eq!(r.unwrap_err(), ErrorCode::InsufficientStaked);
}

#[test]
fn unstake_beyond_vault_total_is_insufficient() {
    let mut v = initialized_vault();
    let mut l = StakeLedger::new();
    let p = id(PARTICIPANT);
    stake(&mut v, &mut l, p, 100, &custody(), &funding(), id(AUTHORITY)).unwrap();
    v.total_staked = 50;
    let r = unstake(&mut v, &mut l, p, 80, &custody(), &funding(), id(AUTHORITY));
    assert_eq!(r.unwrap_err(), ErrorCode::InsufficientStaked);
    assert_eq!(l.staked_amount(&p), 100);
}

#[test]
fn stake_account_checks() {
    let mut v = initialized_vault();
    let mut l = StakeLedger::new();
    let p = id(PARTICIPANT);
    let bad_owner_custody = token_account(&id(TOKEN), &id(OTHER));
    let bad_mint_custody = token_account(&id(OTHER), &id(AUTHORITY));
    let bad_owner_funding = token_account(&id(TOKEN), &id(OTHER));
    let bad_mint_funding = token_account(&id(OTHER), &p);
    let cases = [
        (bad_owner_custody, funding(), ErrorCode::InvalidOwner),
        (bad_mint_custody, funding(), ErrorCode::InvalidMint),
        (custody(), bad_owner_funding, ErrorCode::InvalidUserAccountOwner),
        (custody(), bad_mint_funding, ErrorCode::InvalidMint),
        (vec![0u8; 10], funding(), ErrorCode::AccountDidNotDeserialize),
    ];
    for (c, f, e) in cases.iter() {
        let r = stake(&mut v, &mut l, p, 10, c, f, id(AUTHORITY));
        assert_eq!(r.unwrap_err(), *e);
        assert_eq!(v.total_staked, 0);
        assert!(l.entries.is_empty());
    }
}

#[test]
fn stake_overflow_is_reported() {
    let mut v = initialized_vault();
    let mut l = StakeLedger::new();
    v.total_staked = u128::MAX - 5;
    let r = stake(&mut v, &mut l, id(PARTICIPANT), 6, &custody(), &funding(), id(AUTHORITY));
    assert_eq!(r.unwrap_err(), ErrorCode::ArithmeticOverflow);
    assert_eq!(v.total_staked, u128::MAX - 5);
    assert!(l.entries.is_empty());
}

#[test]
fn token_account_decoding() {
    let mut d = token_account(&id(3), &id(4));
    let k = read_token_account(&d).unwrap();
    assert_eq!(k.mint, id(3));
    assert_eq!(k.owner, id(4));
    d[108] = 2; // frozen still decodes
    assert!(read_token_account(&d).is_ok());
    d[108] = 0; // uninitialized
    assert_eq!(read_token_account(&d).unwrap_err(), ErrorCode::AccountDidNotDeserialize);
    d[108] = 3;
    assert!(read_token_account(&d).is_err());
    d[108] = 1;
    d[72] = 2; // bad delegate tag
    assert!(read_token_account(&d).is_err());
    d[72] = 1;
    assert!(read_token_account(&d).is_ok());
    d.push(0);
    assert!(read_token_account(&d).is_err());
}

#[test]
fn validate_and_deposit() {
    let v = initialized_vault();
    let p = id(PARTICIPANT);
    assert!(validate_token_accounts(&v, &p, &custody(), &funding(), &id(AUTHORITY)).is_ok());
    let t = deposit(&v, p, 77, &custody(), &funding(), id(AUTHORITY)).unwrap();
    assert_eq!(t.amount, 77);
    assert_eq!(t.direction, TransferDirection::FundingToCustody);
    assert_eq!(deposit(&v, p, 0, &custody(), &funding(), id(AUTHORITY)).unwrap_err(), ErrorCode::ZeroAmount);
    assert_eq!(
        deposit(&v, p, 5, &funding(), &funding(), id(AUTHORITY)).unwrap_err(),
        ErrorCode::InvalidOwner
    );
}

#[test]
fn initialize_rejects_fee_above_base() {
    let mut v = InitializeVault::new();
    let before = v;
    let r = set_states_values(&mut v, id(OWNER), id(RECEIVER), id(TOKEN), 0, 2000, false, 0);
    assert_eq!(r.unwrap_err(), ErrorCode::FeeTooHigh);
    assert_eq!(v, before);
    set_states_values(&mut v, id(OWNER), id(RECEIVER), id(TOKEN), 0, 1000, false, 0).unwrap();
    assert_eq!(v.fee, 1000);
    assert_eq!(v.mbps, 1000);
}

#[test]
fn initialize_rejects_zero_receiver_with_fee() {
    let mut v = InitializeVault::new();
    let before = v;
    let r = set_states_values(&mut v, id(OWNER), Identity::zero(), id(TOKEN), 100, 10, true, 0);
    assert_eq!(r.unwrap_err(), ErrorCode::ZeroAddress);
    assert_eq!(v, before);
    set_states_values(&mut v, id(OWNER), Identity::zero(), id(TOKEN), 100, 0, true, 0).unwrap();
    assert!(v.fee_receiver.is_zero());
    assert_eq!(v.fee, 0);
    assert!(v.stake_initialized);
}

#[test]
fn fresh_record_is_zero() {
    let v = InitializeVault::new();
    assert!(v.owner.is_zero());
    assert!(v.usdc_token.is_zero());
    assert_eq!(v.fee, 0);
    assert_eq!(v.total_staked, 0);
    assert!(!v.stake_initialized);
    assert!(!id(1).is_zero());
    assert!(id(1).same(&id(1)));
    assert!(!id(1).same(&id(2)));
}

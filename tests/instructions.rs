use vangai::error::CustomError;
use vangai::identity::Identity;
use vangai::instructions::{
    initialize, is_vangai_owner, mint, record_mint, set_cabina_wallet, set_distribution,
    set_min_lamports, set_token_fund_wallet, transfer_vangai_ownership,
};
use vangai::split::Shares;
use vangai::state::{MinterState, State};

fn id(n: u8) -> Identity {
    let mut bytes = [0u8; 32];
    bytes[0] = n;
    bytes[31] = n.wrapping_mul(7);
    Identity::new(bytes)
}

fn fresh() -> State {
    initialize(id(1), id(2), id(3)).unwrap()
}

#[test]
fn initialize_sets_defaults() {
    let s = fresh();
    assert_eq!(s.vangai_owner, id(1));
    assert_eq!(s.cabina_wallet, id(2));
    assert_eq!(s.token_fund_wallet, id(3));
    assert_eq!(s.min_lamports, 0);
    assert_eq!(s.total_points, 0);
    assert_eq!(s.vangai_owner_share_numerator, 4500);
    assert_eq!(s.cabinai_wallet_share_numerator, 4500);
    assert_eq!(s.token_fund_wallet_share_numerator, 1000);
}

#[test]
fn set_distribution_after_initialize() {
    let mut s = fresh();
    assert_eq!(set_distribution(&mut s, &id(1), 4500, 4500, 1000), Ok(()));
    let before = s;
    assert_eq!(set_distribution(&mut s, &id(1), 5000, 5000, 1), Err(CustomError::InvalidDistribution));
    assert_eq!(s, before);
}

#[test]
fn set_distribution_replaces_numerators() {
    let mut s = fresh();
    assert_eq!(set_distribution(&mut s, &id(1), 2000, 3000, 5000), Ok(()));
    assert_eq!(s.vangai_owner_share_numerator, 2000);
    assert_eq!(s.cabinai_wallet_share_numerator, 3000);
    assert_eq!(s.token_fund_wallet_share_numerator, 5000);
}

#[test]
fn set_distribution_sum_past_u64_is_refused() {
    let mut s = fresh();
    let before = s;
    let r = set_distribution(&mut s, &id(1), u64::MAX, u64::MAX, 10002);
    assert_eq!(r, Err(CustomError::InvalidDistribution));
    assert_eq!(s, before);
}

#[test]
fn mint_at_minimum_boundary() {
    let mut s = fresh();
    assert_eq!(set_min_lamports(&mut s, &id(1), 500), Ok(()));
    assert_eq!(mint(&s, 499, &id(1), &id(2), &id(3)), Err(CustomError::InvalidLamportsAmount));
    assert!(mint(&s, 500, &id(1), &id(2), &id(3)).is_ok());
}

#[test]
fn mint_with_default_numerators() {
    let mut s = fresh();
    let mut m = MinterState::new();
    let shares = mint(&s, 1000, &id(1), &id(2), &id(3)).unwrap();
    assert_eq!(shares, Shares { vangai_owner_share: 450, cabina_share: 450, token_fund_share: 100 });
    record_mint(&mut s, &mut m, 1000);
    assert_eq!(m.minter_points, 1000);
    assert_eq!(s.total_points, 1000);
}

#[test]
fn mint_wrong_destinations() {
    let s = fresh();
    assert_eq!(mint(&s, 10, &id(9), &id(2), &id(3)), Err(CustomError::InvalidVangaiOwner));
    assert_eq!(mint(&s, 10, &id(1), &id(9), &id(3)), Err(CustomError::InvalidCabinaWallet));
    assert_eq!(mint(&s, 10, &id(1), &id(2), &id(9)), Err(CustomError::InvalidTokenFundWallet));
}

#[test]
fn mint_checks_amount_before_destinations() {
    let mut s = fresh();
    set_min_lamports(&mut s, &id(1), 5).unwrap();
    assert_eq!(mint(&s, 4, &id(9), &id(9), &id(9)), Err(CustomError::InvalidLamportsAmount));
}

#[test]
fn non_owner_cannot_reconfigure() {
    let mut s = fresh();
    let before = s;
    let other = id(42);
    assert_eq!(set_distribution(&mut s, &other, 4500, 4500, 1000), Err(CustomError::InvalidVangaiOwner));
    assert_eq!(set_cabina_wallet(&mut s, &other, id(5)), Err(CustomError::InvalidVangaiOwner));
    assert_eq!(set_token_fund_wallet(&mut s, &other, id(5)), Err(CustomError::InvalidVangaiOwner));
    assert_eq!(set_min_lamports(&mut s, &other, 7), Err(CustomError::InvalidVangaiOwner));
    assert_eq!(transfer_vangai_ownership(&mut s, &other, other), Err(CustomError::InvalidVangaiOwner));
    assert_eq!(s, before);
}

#[test]
fn owner_sets_wallets_and_minimum() {
    let mut s = fresh();
    assert_eq!(set_cabina_wallet(&mut s, &id(1), id(5)), Ok(()));
    assert_eq!(set_token_fund_wallet(&mut s, &id(1), id(6)), Ok(()));
    assert_eq!(set_min_lamports(&mut s, &id(1), 77), Ok(()));
    assert_eq!(s.cabina_wallet, id(5));
    assert_eq!(s.token_fund_wallet, id(6));
    assert_eq!(s.min_lamports, 77);
    assert_eq!(mint(&s, 100, &id(1), &id(2), &id(3)), Err(CustomError::InvalidCabinaWallet));
    assert!(mint(&s, 100, &id(1), &id(5), &id(6)).is_ok());
}

#[test]
fn ownership_transfer_moves_privilege() {
    let mut s = fresh();
    assert_eq!(transfer_vangai_ownership(&mut s, &id(1), id(8)), Ok(()));
    assert_eq!(s.vangai_owner, id(8));
    assert_eq!(set_distribution(&mut s, &id(1), 4000, 4000, 2000), Err(CustomError::InvalidVangaiOwner));
    assert_eq!(set_distribution(&mut s, &id(8), 4000, 4000, 2000), Ok(()));
    assert_eq!(set_cabina_wallet(&mut s, &id(1), id(4)), Err(CustomError::InvalidVangaiOwner));
    assert_eq!(set_cabina_wallet(&mut s, &id(8), id(4)), Ok(()));
}

#[test]
fn repeated_mints_accumulate() {
    let mut s = fresh();
    let mut m = MinterState::new();
    let mut expected: u64 = 0;
    for amount in [1000u64, 0, 250, 1] {
        assert!(mint(&s, amount, &id(1), &id(2), &id(3)).is_ok());
        let before = m.minter_points;
        record_mint(&mut s, &mut m, amount);
        expected += amount;
        assert!(m.minter_points >= before);
        assert_eq!(m.minter_points, expected);
        assert_eq!(s.total_points, expected);
    }
}

#[test]
fn guard_compares_every_byte() {
    let s = fresh();
    let mut bytes = s.vangai_owner.bytes;
    assert!(is_vangai_owner(&s, &Identity::new(bytes)));
    bytes[17] ^= 1;
    assert!(!is_vangai_owner(&s, &Identity::new(bytes)));
    assert!(id(3).same_as(&id(3)));
    assert!(!id(3).same_as(&id(4)));
}

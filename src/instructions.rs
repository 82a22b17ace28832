use vstd::prelude::*;
use crate::error::CustomError;
use crate::identity::Identity;
use crate::split::{shares_of, split, valid_distribution, Shares, SHARE_DENOMINATOR};
use crate::state::{MinterState, State};

verus! {

/// Default owner share: 45%.
pub const DEFAULT_VANGAI_OWNER_NUMERATOR: u64 = 4500;

/// Default secondary share: 45%.
pub const DEFAULT_CABINA_NUMERATOR: u64 = 4500;

/// Default fund share: 10%.
pub const DEFAULT_TOKEN_FUND_NUMERATOR: u64 = 1000;

/// The configuration that `initialize` creates.
pub open spec fn initial_state(vangai_owner: Identity, cabina_wallet: Identity, token_fund_wallet: Identity) -> State {
    State {
        vangai_owner,
        cabina_wallet,
        token_fund_wallet,
        min_lamports: 0,
        total_points: 0,
        vangai_owner_share_numerator: DEFAULT_VANGAI_OWNER_NUMERATOR,
        cabinai_wallet_share_numerator: DEFAULT_CABINA_NUMERATOR,
        token_fund_wallet_share_numerator: DEFAULT_TOKEN_FUND_NUMERATOR,
    }
}

/// What `mint` decides: refusal, or the three shares to transfer.
///
/// The amount is checked first, then each destination against the live
/// configuration, in the order owner, cabina wallet, token fund wallet.
pub open spec fn mint_outcome(
    s: State,
    lamports_amount: u64,
    vangai_owner: Identity,
    cabina_wallet: Identity,
    token_fund_wallet: Identity,
) -> Result<Shares, CustomError> {
    if lamports_amount < s.min_lamports {
        Err(CustomError::InvalidLamportsAmount)
    } else if vangai_owner != s.vangai_owner {
        Err(CustomError::InvalidVangaiOwner)
    } else if cabina_wallet != s.cabina_wallet {
        Err(CustomError::InvalidCabinaWallet)
    } else if token_fund_wallet != s.token_fund_wallet {
        Err(CustomError::InvalidTokenFundWallet)
    } else {
        Ok(shares_of(lamports_amount, s.vangai_owner_share_numerator, s.cabinai_wallet_share_numerator))
    }
}

/// Both counters fit one more contribution of `lamports_amount`.
pub open spec fn can_record(s: State, m: MinterState, lamports_amount: u64) -> bool {
    &&& s.total_points + lamports_amount <= u64::MAX
    &&& m.minter_points + lamports_amount <= u64::MAX
}

/// The configuration and ledger entry after a contribution is recorded.
pub open spec fn recorded(s: State, m: MinterState, lamports_amount: u64) -> (State, MinterState) {
    (
        State { total_points: (s.total_points + lamports_amount) as u64, ..s },
        MinterState { minter_points: (m.minter_points + lamports_amount) as u64 },
    )
}

/// The result of an owner-gated change: refused, state unchanged, unless
/// `signer` is the current owner.
pub open spec fn gated(s: State, signer: Identity, changed: State) -> (State, Result<(), CustomError>) {
    if signer == s.vangai_owner {
        (changed, Ok(()))
    } else {
        (s, Err(CustomError::InvalidVangaiOwner))
    }
}

pub open spec fn transfer_ownership_outcome(s: State, signer: Identity, new_vangai_owner: Identity) -> (State, Result<(), CustomError>) {
    gated(s, signer, State { vangai_owner: new_vangai_owner, ..s })
}

pub open spec fn set_cabina_wallet_outcome(s: State, signer: Identity, cabina_wallet: Identity) -> (State, Result<(), CustomError>) {
    gated(s, signer, State { cabina_wallet, ..s })
}

pub open spec fn set_token_fund_wallet_outcome(s: State, signer: Identity, token_fund_wallet: Identity) -> (State, Result<(), CustomError>) {
    gated(s, signer, State { token_fund_wallet, ..s })
}

pub open spec fn set_min_lamports_outcome(s: State, signer: Identity, min_lamports: u64) -> (State, Result<(), CustomError>) {
    gated(s, signer, State { min_lamports, ..s })
}

/// Refused when the signer is not the owner; otherwise refused when the
/// numerators do not add up to the denominator; otherwise all three replaced.
pub open spec fn set_distribution_outcome(s: State, signer: Identity, a: u64, b: u64, c: u64) -> (State, Result<(), CustomError>) {
    if signer != s.vangai_owner {
        (s, Err(CustomError::InvalidVangaiOwner))
    } else if !valid_distribution(a as int, b as int, c as int) {
        (s, Err(CustomError::InvalidDistribution))
    } else {
        (
            State {
                vangai_owner_share_numerator: a,
                cabinai_wallet_share_numerator: b,
                token_fund_wallet_share_numerator: c,
                ..s
            },
            Ok(()),
        )
    }
}

/// The authorization guard: a privileged instruction may proceed only when
/// its signer is the stored owner.
pub fn is_vangai_owner(state: &State, signer: &Identity) -> (r: bool)
    ensures
        r == (*signer == state.vangai_owner),
{
    signer.same_as(&state.vangai_owner)
}

/// Creates the configuration: the given owner and wallets, a 45/45/10
/// split, no minimum and no points.
pub fn initialize(vangai_owner: Identity, cabina_wallet: Identity, token_fund_wallet: Identity) -> (r: Result<State, CustomError>)
    ensures
        r == Ok::<State, CustomError>(initial_state(vangai_owner, cabina_wallet, token_fund_wallet)),
        r.unwrap().wf(),
{
    let total_share: u64 = DEFAULT_VANGAI_OWNER_NUMERATOR + DEFAULT_CABINA_NUMERATOR + DEFAULT_TOKEN_FUND_NUMERATOR;
    if total_share != SHARE_DENOMINATOR {
        return Err(CustomError::InvalidDistribution);
    }
    Ok(State {
        vangai_owner,
        cabina_wallet,
        token_fund_wallet,
        min_lamports: 0,
        total_points: 0,
        vangai_owner_share_numerator: DEFAULT_VANGAI_OWNER_NUMERATOR,
        cabinai_wallet_share_numerator: DEFAULT_CABINA_NUMERATOR,
        token_fund_wallet_share_numerator: DEFAULT_TOKEN_FUND_NUMERATOR,
    })
}

/// Decides a contribution of `lamports_amount`, given the three accounts
/// that the transfers would go to.
///
/// On `Ok` the caller moves each share to its account, all three or none,
/// and then calls `record_mint`. Nothing is changed here.
pub fn mint(
    state: &State,
    lamports_amount: u64,
    vangai_owner: &Identity,
    cabina_wallet: &Identity,
    token_fund_wallet: &Identity,
) -> (r: Result<Shares, CustomError>)
    requires
        state.wf(),
    ensures
        r == mint_outcome(*state, lamports_amount, *vangai_owner, *cabina_wallet, *token_fund_wallet),
        r matches Ok(s) ==> s.vangai_owner_share + s.cabina_share + s.token_fund_share == lamports_amount,
{
    if lamports_amount < state.min_lamports {
        return Err(CustomError::InvalidLamportsAmount);
    }
    if !vangai_owner.same_as(&state.vangai_owner) {
        return Err(CustomError::InvalidVangaiOwner);
    }
    if !cabina_wallet.same_as(&state.cabina_wallet) {
        return Err(CustomError::InvalidCabinaWallet);
    }
    if !token_fund_wallet.same_as(&state.token_fund_wallet) {
        return Err(CustomError::InvalidTokenFundWallet);
    }
    Ok(split(
        lamports_amount,
        state.vangai_owner_share_numerator,
        state.cabinai_wallet_share_numerator,
        state.token_fund_wallet_share_numerator,
    ))
}

/// Records a contribution whose transfers succeeded: the contributor's
/// points and the total both grow by the full amount.
pub fn record_mint(state: &mut State, minter_state: &mut MinterState, lamports_amount: u64)
    requires
        can_record(*old(state), *old(minter_state), lamports_amount),
    ensures
        (*final(state), *final(minter_state)) == recorded(*old(state), *old(minter_state), lamports_amount),
        final(state).total_points == old(state).total_points + lamports_amount,
        final(minter_state).minter_points == old(minter_state).minter_points + lamports_amount,
        old(state).wf() ==> final(state).wf(),
{
    minter_state.minter_points = minter_state.minter_points + lamports_amount;
    state.total_points = state.total_points + lamports_amount;
}

/// Hands the owner role to `new_vangai_owner`; only the current owner may.
pub fn transfer_vangai_ownership(state: &mut State, signer: &Identity, new_vangai_owner: Identity) -> (r: Result<(), CustomError>)
    ensures
        (*final(state), r) == transfer_ownership_outcome(*old(state), *signer, new_vangai_owner),
        old(state).wf() ==> final(state).wf(),
{
    if !is_vangai_owner(state, signer) {
        return Err(CustomError::InvalidVangaiOwner);
    }
    state.vangai_owner = new_vangai_owner;
    Ok(())
}

/// Replaces the secondary recipient; only the owner may.
pub fn set_cabina_wallet(state: &mut State, signer: &Identity, cabina_wallet: Identity) -> (r: Result<(), CustomError>)
    ensures
        (*final(state), r) == set_cabina_wallet_outcome(*old(state), *signer, cabina_wallet),
        old(state).wf() ==> final(state).wf(),
{
    if !is_vangai_owner(state, signer) {
        return Err(CustomError::InvalidVangaiOwner);
    }
    state.cabina_wallet = cabina_wallet;
    Ok(())
}

/// Replaces the fund recipient; only the owner may.
pub fn set_token_fund_wallet(state: &mut State, signer: &Identity, token_fund_wallet: Identity) -> (r: Result<(), CustomError>)
    ensures
        (*final(state), r) == set_token_fund_wallet_outcome(*old(state), *signer, token_fund_wallet),
        old(state).wf() ==> final(state).wf(),
{
    if !is_vangai_owner(state, signer) {
        return Err(CustomError::InvalidVangaiOwner);
    }
    state.token_fund_wallet = token_fund_wallet;
    Ok(())
}

/// Replaces the minimum contribution.
///
/// Like every other setter this one is gated on the owner: an open
/// threshold would let anyone raise it and shut contributions out.
pub fn set_min_lamports(state: &mut State, signer: &Identity, new_min_lamports: u64) -> (r: Result<(), CustomError>)
    ensures
        (*final(state), r) == set_min_lamports_outcome(*old(state), *signer, new_min_lamports),
        old(state).wf() ==> final(state).wf(),
{
    if !is_vangai_owner(state, signer) {
        return Err(CustomError::InvalidVangaiOwner);
    }
    state.min_lamports = new_min_lamports;
    Ok(())
}

/// Replaces the three numerators at once, if the owner signed and they add
/// up to the denominator. Any sum is checked, even one past `u64`.
pub fn set_distribution(
    state: &mut State,
    signer: &Identity,
    vangai_owner_share_numerator: u64,
    cabinai_wallet_share_numerator: u64,
    token_fund_wallet_share_numerator: u64,
) -> (r: Result<(), CustomError>)
    ensures
        (*final(state), r) == set_distribution_outcome(
            *old(state),
            *signer,
            vangai_owner_share_numerator,
            cabinai_wallet_share_numerator,
            token_fund_wallet_share_numerator,
        ),
        old(state).wf() ==> final(state).wf(),
{
    if !is_vangai_owner(state, signer) {
        return Err(CustomError::InvalidVangaiOwner);
    }
    let total_share: u128 = vangai_owner_share_numerator as u128 + cabinai_wallet_share_numerator as u128
        + token_fund_wallet_share_numerator as u128;
    if total_share != SHARE_DENOMINATOR as u128 {
        return Err(CustomError::InvalidDistribution);
    }
    state.vangai_owner_share_numerator = vangai_owner_share_numerator;
    state.cabinai_wallet_share_numerator = cabinai_wallet_share_numerator;
    state.token_fund_wallet_share_numerator = token_fund_wallet_share_numerator;
    Ok(())
}

} // verus!

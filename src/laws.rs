use vstd::prelude::*;
use crate::error::CustomError;
use crate::identity::Identity;
use crate::instructions::{
    can_record, mint_outcome, recorded, set_cabina_wallet_outcome, set_distribution_outcome,
    set_min_lamports_outcome, set_token_fund_wallet_outcome, transfer_ownership_outcome,
};
use crate::split::{lemma_shares_partition_amount, valid_distribution};
use crate::state::{MinterState, State};

verus! {

/// A contribution exactly at the minimum is accepted, and one lamport less
/// is refused with `InvalidLamportsAmount`.
pub proof fn lemma_minimum_is_inclusive(
    s: State,
    vangai_owner: Identity,
    cabina_wallet: Identity,
    token_fund_wallet: Identity,
)
    requires
        s.wf(),
        s.min_lamports > 0,
        vangai_owner == s.vangai_owner,
        cabina_wallet == s.cabina_wallet,
        token_fund_wallet == s.token_fund_wallet,
    ensures
        mint_outcome(s, (s.min_lamports - 1) as u64, vangai_owner, cabina_wallet, token_fund_wallet)
            == Err::<crate::split::Shares, CustomError>(CustomError::InvalidLamportsAmount),
        mint_outcome(s, s.min_lamports, vangai_owner, cabina_wallet, token_fund_wallet) is Ok,
{
}

/// An accepted contribution is divided without loss: its three shares add
/// up to the amount.
pub proof fn lemma_mint_shares_add_up(
    s: State,
    lamports_amount: u64,
    vangai_owner: Identity,
    cabina_wallet: Identity,
    token_fund_wallet: Identity,
)
    requires
        s.wf(),
    ensures
        mint_outcome(s, lamports_amount, vangai_owner, cabina_wallet, token_fund_wallet) matches Ok(sh)
            ==> sh.vangai_owner_share + sh.cabina_share + sh.token_fund_share == lamports_amount,
{
    lemma_shares_partition_amount(
        lamports_amount,
        s.vangai_owner_share_numerator,
        s.cabinai_wallet_share_numerator,
        s.token_fund_wallet_share_numerator,
    );
}

/// A signer other than the owner cannot change the distribution, either
/// recipient or the minimum: each is refused with `InvalidVangaiOwner` and
/// the configuration stays as it was.
pub proof fn lemma_non_owner_cannot_reconfigure(
    s: State,
    signer: Identity,
    a: u64,
    b: u64,
    c: u64,
    wallet: Identity,
    min_lamports: u64,
)
    requires
        signer != s.vangai_owner,
    ensures
        set_distribution_outcome(s, signer, a, b, c) == (s, Err::<(), CustomError>(CustomError::InvalidVangaiOwner)),
        set_cabina_wallet_outcome(s, signer, wallet) == (s, Err::<(), CustomError>(CustomError::InvalidVangaiOwner)),
        set_token_fund_wallet_outcome(s, signer, wallet) == (s, Err::<(), CustomError>(CustomError::InvalidVangaiOwner)),
        set_min_lamports_outcome(s, signer, min_lamports) == (s, Err::<(), CustomError>(CustomError::InvalidVangaiOwner)),
        transfer_ownership_outcome(s, signer, wallet) == (s, Err::<(), CustomError>(CustomError::InvalidVangaiOwner)),
{
}

/// Once the owner hands the role to a different identity, the old owner's
/// privileged calls are refused and the same calls by the new owner pass.
pub proof fn lemma_ownership_transfer_moves_privilege(
    s: State,
    old_owner: Identity,
    new_owner: Identity,
    wallet: Identity,
    a: u64,
    b: u64,
    c: u64,
)
    requires
        transfer_ownership_outcome(s, old_owner, new_owner).1 is Ok,
        old_owner != new_owner,
        valid_distribution(a as int, b as int, c as int),
    ensures
        ({
            let t = transfer_ownership_outcome(s, old_owner, new_owner).0;
            &&& set_cabina_wallet_outcome(t, old_owner, wallet).1 == Err::<(), CustomError>(
                CustomError::InvalidVangaiOwner,
            )
            &&& set_cabina_wallet_outcome(t, new_owner, wallet).1 is Ok
            &&& set_distribution_outcome(t, old_owner, a, b, c).1 == Err::<(), CustomError>(
                CustomError::InvalidVangaiOwner,
            )
            &&& set_distribution_outcome(t, new_owner, a, b, c).1 is Ok
        }),
{
}

/// Two recorded contributions by one contributor add up: the points grow
/// by each full amount in turn and never decrease, and so does the total.
pub proof fn lemma_points_accumulate(s: State, m: MinterState, first: u64, second: u64)
    requires
        can_record(s, m, first),
        can_record(recorded(s, m, first).0, recorded(s, m, first).1, second),
    ensures
        ({
            let (s1, m1) = recorded(s, m, first);
            let (s2, m2) = recorded(s1, m1, second);
            &&& m.minter_points <= m1.minter_points <= m2.minter_points
            &&& m2.minter_points == m.minter_points + first + second
            &&& s2.total_points == s.total_points + first + second
        }),
{
}

} // verus!

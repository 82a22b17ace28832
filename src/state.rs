use vstd::prelude::*;
use crate::identity::Identity;
use crate::split::valid_distribution;

verus! {

/// The singleton distribution configuration.
#[derive(Clone, Copy, Debug, PartialEq, Eq)]
pub struct State {
    /// The only identity allowed to reconfigure; it also receives the owner share.
    pub vangai_owner: Identity,
    /// Receives the secondary share.
    pub cabina_wallet: Identity,
    /// Receives the fund share, rounding remainder included.
    pub token_fund_wallet: Identity,
    /// Contributions below this are refused.
    pub min_lamports: u64,
    /// Sum of every contribution ever recorded.
    pub total_points: u64,
    pub vangai_owner_share_numerator: u64,
    pub cabinai_wallet_share_numerator: u64,
    pub token_fund_wallet_share_numerator: u64,
}

impl State {
    /// The numerators describe a whole distribution.
    pub open spec fn wf(&self) -> bool {
        valid_distribution(
            self.vangai_owner_share_numerator as int,
            self.cabinai_wallet_share_numerator as int,
            self.token_fund_wallet_share_numerator as int,
        )
    }
}

/// The per-contributor ledger entry.
#[derive(Clone, Copy, Debug, PartialEq, Eq, Structural)]
pub struct MinterState {
    /// Sum of every contribution this contributor made.
    pub minter_points: u64,
}

impl MinterState {
    /// The entry of a contributor who has not contributed yet.
    pub fn new() -> (r: MinterState)
        ensures
            r.minter_points == 0,
    {
        MinterState { minter_points: 0 }
    }
}

} // verus!

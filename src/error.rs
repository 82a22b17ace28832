use vstd::prelude::*;

verus! {

/// Every way an instruction of the program can be refused.
///
/// A refused instruction changes no state and moves no lamports.
#[derive(Clone, Copy, Debug, PartialEq, Eq, Structural)]
pub enum CustomError {
    /// The contribution is below the configured minimum.
    InvalidLamportsAmount,
    /// The signer, or the owner-share destination, is not the current owner.
    InvalidVangaiOwner,
    /// The secondary-share destination is not the configured cabina wallet.
    InvalidCabinaWallet,
    /// The fund-share destination is not the configured token fund wallet.
    InvalidTokenFundWallet,
    /// The three share numerators do not add up to the denominator.
    InvalidDistribution,
}

} // verus!

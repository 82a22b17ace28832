use vstd::prelude::*;

verus! {

/// Share numerators are basis points: parts of this denominator.
pub const SHARE_DENOMINATOR: u64 = 10000;

/// How one contribution is divided among the three recipients.
#[derive(Clone, Copy, Debug, PartialEq, Eq, Structural)]
pub struct Shares {
    pub vangai_owner_share: u64,
    pub cabina_share: u64,
    pub token_fund_share: u64,
}

/// `floor(amount * numerator / 10000)`.
pub open spec fn share_of(amount: int, numerator: int) -> int {
    amount * numerator / SHARE_DENOMINATOR as int
}

/// Three numerators that describe a whole: they add up to the denominator.
pub open spec fn valid_distribution(a: int, b: int, c: int) -> bool {
    a + b + c == SHARE_DENOMINATOR as int
}

/// The split of `amount`: the first two shares are rounded down, the
/// third takes what is left, rounding remainder included.
pub open spec fn shares_of(amount: u64, vangai_owner_numerator: u64, cabina_numerator: u64) -> Shares {
    let a = share_of(amount as int, vangai_owner_numerator as int);
    let b = share_of(amount as int, cabina_numerator as int);
    Shares {
        vangai_owner_share: a as u64,
        cabina_share: b as u64,
        token_fund_share: (amount - a - b) as u64,
    }
}

/// Under a valid distribution the two rounded shares fit in the amount, so
/// the three shares of `shares_of` are exact and add up to `amount`.
pub proof fn lemma_shares_partition_amount(amount: u64, a: u64, b: u64, c: u64)
    requires
        valid_distribution(a as int, b as int, c as int),
    ensures
        ({
            let s = shares_of(amount, a, b);
            &&& s.vangai_owner_share as int == share_of(amount as int, a as int)
            &&& s.cabina_share as int == share_of(amount as int, b as int)
            &&& s.token_fund_share as int == amount - share_of(amount as int, a as int) - share_of(
                amount as int,
                b as int,
            )
            &&& s.vangai_owner_share + s.cabina_share + s.token_fund_share == amount
        }),
{
    let x = amount as int;
    let sa = share_of(x, a as int);
    let sb = share_of(x, b as int);
    assert(0 <= sa && sa * 10000 <= x * a) by (nonlinear_arith)
        requires
            sa == x * a / 10000,
            x >= 0,
            a >= 0,
    ;
    assert(0 <= sb && sb * 10000 <= x * b) by (nonlinear_arith)
        requires
            sb == x * b / 10000,
            x >= 0,
            b >= 0,
    ;
    assert(sa + sb <= x) by (nonlinear_arith)
        requires
            sa * 10000 <= x * a,
            sb * 10000 <= x * b,
            a + b <= 10000,
            x >= 0,
    ;
}

/// Splits `amount` by the numerators of a valid distribution.
///
/// The products are taken in 128 bits, so no amount can overflow them.
pub fn split(amount: u64, vangai_owner_numerator: u64, cabina_numerator: u64, token_fund_numerator: u64) -> (r: Shares)
    requires
        valid_distribution(
            vangai_owner_numerator as int,
            cabina_numerator as int,
            token_fund_numerator as int,
        ),
    ensures
        r == shares_of(amount, vangai_owner_numerator, cabina_numerator),
        r.vangai_owner_share as int == share_of(amount as int, vangai_owner_numerator as int),
        r.cabina_share as int == share_of(amount as int, cabina_numerator as int),
        r.vangai_owner_share + r.cabina_share + r.token_fund_share == amount,
{
    proof {
        lemma_shares_partition_amount(amount, vangai_owner_numerator, cabina_numerator, token_fund_numerator);
    }
    let wide: u128 = amount as u128;
    let denominator: u128 = SHARE_DENOMINATOR as u128;
    assert(wide * (vangai_owner_numerator as u128) <= u64::MAX as int * 10000) by (nonlinear_arith)
        requires
            wide <= u64::MAX,
            vangai_owner_numerator <= 10000,
    ;
    assert(wide * (cabina_numerator as u128) <= u64::MAX as int * 10000) by (nonlinear_arith)
        requires
            wide <= u64::MAX,
            cabina_numerator <= 10000,
    ;
    let vangai_owner_share = (wide * (vangai_owner_numerator as u128) / denominator) as u64;
    let cabina_share = (wide * (cabina_numerator as u128) / denominator) as u64;
    let token_fund_share = amount - vangai_owner_share - cabina_share;
    Shares { vangai_owner_share, cabina_share, token_fund_share }
}

} // verus!

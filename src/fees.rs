//! Fee, royalty and payout arithmetic of a sale.
use vstd::prelude::*;

verus! {

/// `percent` percent of `amount`, rounded down.
pub open spec fn percent_of(amount: u128, percent: u8) -> int {
    (amount as int * percent as int) / 100
}

/// Computes `percent_of` without an intermediate product that could overflow.
pub fn percent_of_amount(amount: u128, percent: u8) -> (r: u128)
    requires
        percent <= 100,
    ensures
        r as int == percent_of(amount, percent),
        r <= amount,
{
    let q = amount / 100;
    let rem = amount % 100;
    let p = percent as u128;
    proof {
        let (a, qi, ri, pi) = (amount as int, q as int, rem as int, p as int);
        assert(a == 100 * qi + ri && 0 <= ri < 100);
        assert(0 <= pi <= 100);
        assert(qi * pi <= qi * 100) by (nonlinear_arith)
            requires
                0 <= qi,
                pi <= 100,
        ;
        assert(ri * pi <= 99 * 100) by (nonlinear_arith)
            requires
                0 <= ri < 100,
                0 <= pi <= 100,
        ;
        assert(a * pi == ri * pi + (qi * pi) * 100) by (nonlinear_arith)
            requires
                a == 100 * qi + ri,
        ;
        vstd::arithmetic::div_mod::lemma_hoist_over_denominator(ri * pi, qi * pi, 100);
        assert((ri * pi) / 100 <= ri) by (nonlinear_arith)
            requires
                0 <= ri,
                0 <= pi <= 100,
        ;
    }
    q * p + rem * p / 100
}

/// How a sale of `bid` is divided.
#[derive(Clone, Copy, Debug, PartialEq, Eq, Structural)]
pub struct SettlementAmounts {
    /// The marketplace fee, kept in the treasury.
    pub fee: u128,
    /// The royalty paid to the collection's admin, on top of the rest.
    pub royalty: u128,
    /// What the seller receives: the bid less the fee.
    pub payout: u128,
}

/// Divides a sale: `fee = floor(bid * fee_percent / 100)`,
/// `royalty = floor(bid * royalty_percent / 100)`, `payout = bid - fee`.
/// The royalty is taken from the gross bid and does not reduce the payout.
pub fn settlement_amounts(bid: u128, fee_percent: u8, royalty_percent: u8) -> (r: SettlementAmounts)
    requires
        fee_percent <= 100,
        royalty_percent <= 100,
    ensures
        r.fee as int == percent_of(bid, fee_percent),
        r.royalty as int == percent_of(bid, royalty_percent),
        r.payout == bid - r.fee,
{
    let fee = percent_of_amount(bid, fee_percent);
    let royalty = percent_of_amount(bid, royalty_percent);
    SettlementAmounts { fee, royalty, payout: bid - fee }
}

} // verus!

use vstd::prelude::*;

verus! {

/// Basis points in one whole: a fee rate of this much takes everything.
pub const FEE_RATE_DENOMINATOR: u64 = 10000;

/// The fee taken from `amount` at `fee_rate` basis points, rounded down.
pub open spec fn fee_of(amount: nat, fee_rate: nat) -> nat {
    (amount * fee_rate) / (FEE_RATE_DENOMINATOR as nat)
}

/// What is left of `amount` once the fee is taken.
pub open spec fn net_amount(amount: nat, fee_rate: nat) -> int {
    amount - fee_of(amount, fee_rate)
}

/// Takes the platform fee of `fee_rate` basis points from `amount` and
/// returns the rest. The product is formed in 128 bits, so it never wraps.
pub fn collect_fees(amount: u64, fee_rate: u64) -> (r: u64)
    requires
        fee_rate <= FEE_RATE_DENOMINATOR,
    ensures
        r == net_amount(amount as nat, fee_rate as nat),
        r <= amount,
{
    proof {
        assert((amount as int) * (fee_rate as int) <= 0xffff_ffff_ffff_ffff * 10000int)
            by (nonlinear_arith)
            requires
                amount <= 0xffff_ffff_ffff_ffff,
                fee_rate <= 10000,
        ;
    }
    let product: u128 = (amount as u128) * (fee_rate as u128);
    proof {
        assert((product as int) <= (amount as int) * (FEE_RATE_DENOMINATOR as int)) by (nonlinear_arith)
            requires
                product == (amount as int) * (fee_rate as int),
                fee_rate <= FEE_RATE_DENOMINATOR,
        ;
        assert((product as int) / (FEE_RATE_DENOMINATOR as int) <= amount) by (nonlinear_arith)
            requires
                (product as int) <= (amount as int) * (FEE_RATE_DENOMINATOR as int),
                FEE_RATE_DENOMINATOR == 10000,
        ;
    }
    let fee: u128 = product / (FEE_RATE_DENOMINATOR as u128);
    amount - (fee as u64)
}

} // verus!

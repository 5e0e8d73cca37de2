use vstd::prelude::*;

use crate::errors::EscrowError;

verus! {

/// The settlement fee: `floor(amount * fee_percentage / 100)`, in exact
/// integer arithmetic.
pub open spec fn fee_of(amount: u64, fee_percentage: u8) -> int {
    (amount as int) * (fee_percentage as int) / 100
}

/// What settlement pays the recipient: the principal less the fee.
pub open spec fn payout_of(amount: u64, fee_percentage: u8) -> int {
    amount - fee_of(amount, fee_percentage)
}

/// With a fee rate of at most one hundred percent the fee never exceeds the
/// principal, so the payout is never negative.
pub proof fn lemma_fee_bounds(amount: u64, fee_percentage: u8)
    requires
        fee_percentage <= 100,
    ensures
        0 <= fee_of(amount, fee_percentage) <= amount,
        0 <= payout_of(amount, fee_percentage) <= amount,
{
    assert(0 <= (amount as int) * (fee_percentage as int) <= (amount as int) * 100)
        by (nonlinear_arith)
        requires
            0 <= amount as int,
            0 <= fee_percentage as int <= 100,
    ;
    assert((amount as int) * (fee_percentage as int) / 100 <= (amount as int) * 100 / 100)
        by (nonlinear_arith)
        requires
            0 <= (amount as int) * (fee_percentage as int) <= (amount as int) * 100,
    ;
    assert((amount as int) * 100 / 100 == amount as int) by (nonlinear_arith);
}

/// The settlement arithmetic: the fee and the payout, or `InsufficientFunds`
/// where the subtraction cannot be satisfied (a fee rate above one hundred
/// percent, which construction forbids but corrupt state could hold).
pub fn settlement_amounts(amount: u64, fee_percentage: u8) -> (r: Result<(u64, u64), EscrowError>)
    ensures
        match r {
            Ok(p) => fee_of(amount, fee_percentage) <= amount
                && p.0 == fee_of(amount, fee_percentage)
                && p.1 == payout_of(amount, fee_percentage),
            Err(e) => e == EscrowError::InsufficientFunds
                && fee_of(amount, fee_percentage) > amount,
        },
{
    proof {
        assert((amount as int) * (fee_percentage as int) <= (u64::MAX as int) * 255)
            by (nonlinear_arith)
            requires
                amount <= u64::MAX,
                fee_percentage <= 255,
        ;
    }
    let product: u128 = (amount as u128) * (fee_percentage as u128);
    let fee: u128 = product / 100;
    if fee > amount as u128 {
        Err(EscrowError::InsufficientFunds)
    } else {
        Ok((fee as u64, amount - (fee as u64)))
    }
}

} // verus!

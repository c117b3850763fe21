//! Pricing of one point update.
//!
//! The cost of a write is the sum of two bonding-curve terms,
//! `base * e^(factor/scale * n)` rounded to the nearest integer (ties away
//! from zero): one priced on how many cells are set, one on how often the
//! written cell was updated before. The exponential itself is evaluated by
//! the host in floating point and handed in as two 128-bit amounts; this
//! module checks their sum for overflow and measures the payment offered
//! against it.

use vstd::prelude::*;
use crate::error::ContractError;
use crate::msg::Coin;

verus! {

/// The mathematical sum of all offered amounts of the matching
/// denomination.
pub open spec fn spec_matched_funds(funds: Seq<Coin>, denom: Seq<char>) -> int
    decreases funds.len(),
{
    if funds.len() == 0 {
        0
    } else {
        spec_matched_funds(funds.drop_last(), denom) + if funds.last().denom@ == denom {
            funds.last().amount as int
        } else {
            0int
        }
    }
}

/// The sum never shrinks when a coin is appended.
proof fn lemma_matched_funds_nonneg(funds: Seq<Coin>, denom: Seq<char>)
    ensures
        spec_matched_funds(funds, denom) >= 0,
    decreases funds.len(),
{
    if funds.len() > 0 {
        lemma_matched_funds_nonneg(funds.drop_last(), denom);
    }
}

/// Sums the offered amounts of the matching denomination, saturating at
/// the 128-bit maximum. Saturation cannot change whether the offer covers
/// any cost expressible in 128 bits.
pub fn matched_funds(funds: &Vec<Coin>, denom: &String) -> (total: u128)
    ensures
        spec_matched_funds(funds@, denom@) <= u128::MAX ==> total == spec_matched_funds(
            funds@,
            denom@,
        ),
        spec_matched_funds(funds@, denom@) > u128::MAX ==> total == u128::MAX,
{
    let mut total: u128 = 0;
    let mut i: usize = 0;
    proof {
        assert(funds@.take(0int) =~= Seq::<Coin>::empty());
    }
    while i < funds.len()
        invariant
            i <= funds@.len(),
            spec_matched_funds(funds@.take(i as int), denom@) <= u128::MAX ==> total
                == spec_matched_funds(funds@.take(i as int), denom@),
            spec_matched_funds(funds@.take(i as int), denom@) > u128::MAX ==> total == u128::MAX,
        decreases funds@.len() - i,
    {
        let c: &Coin = &funds[i];
        proof {
            assert(funds@.take((i + 1) as int).drop_last() =~= funds@.take(i as int));
            assert(funds@.take((i + 1) as int).last() == funds@[i as int]);
            lemma_matched_funds_nonneg(funds@.take(i as int), denom@);
        }
        if c.denom == *denom {
            if c.amount > u128::MAX - total {
                total = u128::MAX;
            } else {
                total = total + c.amount;
            }
        }
        i = i + 1;
    }
    proof {
        assert(funds@.take(funds@.len() as int) =~= funds@);
    }
    total
}

/// The total cost of a write: the sum of the two bonding-curve terms, or
/// an arithmetic-overflow error where it does not fit in 128 bits.
pub fn total_cost(supply_curve_cost: u128, update_curve_cost: u128) -> (res: Result<
    u128,
    ContractError,
>)
    ensures
        supply_curve_cost + update_curve_cost <= u128::MAX ==> res == Ok::<u128, ContractError>(
            (supply_curve_cost + update_curve_cost) as u128,
        ),
        supply_curve_cost + update_curve_cost > u128::MAX ==> res == Err::<u128, ContractError>(
            ContractError::ArithmeticOverflow,
        ),
{
    if supply_curve_cost > u128::MAX - update_curve_cost {
        Err(ContractError::ArithmeticOverflow)
    } else {
        Ok(supply_curve_cost + update_curve_cost)
    }
}

} // verus!

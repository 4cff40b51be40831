//! Slippage-protection bounds.
//!
//! When buying, the caller fixes the tokens they want and the acceptable
//! *cost ceiling* is widened upward; when selling, the acceptable *output
//! floor* is narrowed downward. Both use floor division — a deliberate,
//! auditable rounding policy — and promote to 128 bits before multiplying so
//! the product can never overflow.

use vstd::prelude::*;
use vstd::arithmetic::div_mod::{lemma_div_is_ordered, lemma_div_multiples_vanish};
use vstd::arithmetic::mul::{lemma_mul_inequality, lemma_mul_upper_bound};
use crate::error::PricingError;

verus! {

/// Tolerance applied when the caller gives none: 500 basis points (5%).
/// A policy choice, stated openly rather than hidden.
pub const DEFAULT_SLIPPAGE_BASIS_POINTS: u64 = 500;

/// The widened cost ceiling: `amount * (10000 + basis_points) / 10000`,
/// floor division.
pub open spec fn spec_buy_slippage(amount: u64, basis_points: u64) -> int {
    (amount * (10000 + basis_points)) / 10000
}

/// The narrowed output floor: `amount * (10000 - basis_points) / 10000`,
/// floor division.
pub open spec fn spec_sell_slippage(amount: u64, basis_points: u64) -> int
    recommends
        basis_points <= 10000,
{
    (amount * (10000 - basis_points)) / 10000
}

/// The maximum cost acceptable when buying at the quoted cost `amount` under
/// a tolerance of `basis_points`.
///
/// Rejects a tolerance over 100%; reports overflow exactly when the widened
/// ceiling no longer fits in 64 bits.
pub fn calculate_with_slippage_buy(amount: u64, basis_points: u64) -> (r: Result<
    u64,
    PricingError,
>)
    ensures
        basis_points > 10000 ==> r == Err::<u64, PricingError>(PricingError::InvalidTolerance),
        basis_points <= 10000 && spec_buy_slippage(amount, basis_points) <= u64::MAX ==> r == Ok::<
            u64,
            PricingError,
        >(spec_buy_slippage(amount, basis_points) as u64),
        basis_points <= 10000 && spec_buy_slippage(amount, basis_points) > u64::MAX ==> r == Err::<
            u64,
            PricingError,
        >(PricingError::Overflow),
{
    if basis_points > 10000 {
        return Err(PricingError::InvalidTolerance);
    }
    proof {
        lemma_mul_upper_bound(
            amount as int,
            0xffff_ffff_ffff_ffff,
            (10000 + basis_points) as int,
            20000,
        );
    }
    let wide: u128 = (amount as u128) * ((10000 + basis_points) as u128);
    let ceiling: u128 = wide / 10000;
    if ceiling > 0xffff_ffff_ffff_ffffu128 {
        return Err(PricingError::Overflow);
    }
    Ok(ceiling as u64)
}

/// The minimum output acceptable when selling at the quoted output `amount`
/// under a tolerance of `basis_points`.
///
/// Rejects a tolerance over 100%; the narrowed floor always fits.
pub fn calculate_with_slippage_sell(amount: u64, basis_points: u64) -> (r: Result<
    u64,
    PricingError,
>)
    ensures
        basis_points > 10000 ==> r == Err::<u64, PricingError>(PricingError::InvalidTolerance),
        basis_points <= 10000 ==> r == Ok::<u64, PricingError>(
            spec_sell_slippage(amount, basis_points) as u64,
        ),
{
    if basis_points > 10000 {
        return Err(PricingError::InvalidTolerance);
    }
    proof {
        lemma_mul_upper_bound(
            amount as int,
            0xffff_ffff_ffff_ffff,
            (10000 - basis_points) as int,
            10000,
        );
        lemma_slippage_bounds(amount, basis_points);
    }
    let wide: u128 = (amount as u128) * ((10000 - basis_points) as u128);
    let floor: u128 = wide / 10000;
    Ok(floor as u64)
}

/// Law: for every tolerance within [0, 10000] the buy ceiling never falls
/// below the quoted amount, the sell floor never rises above it, and a zero
/// tolerance leaves both exactly unchanged.
pub proof fn lemma_slippage_bounds(amount: u64, basis_points: u64)
    requires
        basis_points <= 10000,
    ensures
        spec_buy_slippage(amount, basis_points) >= amount,
        0 <= spec_sell_slippage(amount, basis_points) <= amount,
        basis_points == 0 ==> spec_buy_slippage(amount, basis_points) == amount
            && spec_sell_slippage(amount, basis_points) == amount,
{
    let a = amount as int;
    let up = (10000 + basis_points) as int;
    let down = (10000 - basis_points) as int;
    lemma_mul_inequality(10000, up, a);
    lemma_mul_inequality(down, 10000, a);
    lemma_mul_inequality(0, down, a);
    assert(a * up == up * a && a * down == down * a && a * 10000 == 10000 * a)
        by (nonlinear_arith);
    lemma_div_is_ordered(10000 * a, a * up, 10000);
    lemma_div_is_ordered(0, a * down, 10000);
    lemma_div_is_ordered(a * down, 10000 * a, 10000);
    lemma_div_multiples_vanish(a, 10000);
}

} // verus!

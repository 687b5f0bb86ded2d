//! Leverage sizing: how a deposit is split into two legs and how much each leg borrows.
//!
//! A quarter of each asset funds the first leg, which borrows the quote asset; the rest
//! funds the second leg, which borrows the base asset. Each leg borrows twice the value
//! of its own funds. The decimal scale of each asset is fixed (9 places for the base
//! asset, 6 for the quote asset) rather than read from the asset's mint.

use crate::decimal::{as_u128, wad, wad_add, wad_div, wad_div_int, wad_floor, wad_mul_int};
use crate::error::ChamberError;
use vstd::prelude::*;

verus! {

/// Units of the base asset in one whole token.
pub const BASE_DECIMALS: u64 = 1_000_000_000;

/// Units of the quote asset in one whole token.
pub const QUOTE_DECIMALS: u64 = 1_000_000;

/// Target leverage: a leg holds this many times the value of its own funds.
pub const LEVERAGE: u64 = 2;

/// The funds and the borrowing of one leg.
#[derive(Debug, Clone, Copy, PartialEq, Eq, Structural)]
pub struct LegFunding {
    /// Base asset that the leg funds itself with.
    pub base_amount: u64,
    /// Quote asset that the leg funds itself with.
    pub quote_amount: u64,
    /// Base asset that the leg borrows.
    pub base_borrow: u64,
    /// Quote asset that the leg borrows.
    pub quote_borrow: u64,
}

/// The value, as a scaled decimal, of amounts of both assets at the given prices, times the
/// target leverage; `None` where a step overflows.
pub open spec fn leveraged_value(base_price: u128, base_amount: u64, quote_price: u128, quote_amount: u64) -> Option<u128> {
    match as_u128(base_price * base_amount) {
        None => None,
        Some(base_scaled) => match as_u128(quote_price * quote_amount) {
            None => None,
            Some(quote_scaled) => match as_u128(
                base_scaled as int / BASE_DECIMALS as int + quote_scaled as int / QUOTE_DECIMALS as int,
            ) {
                None => None,
                Some(total) => as_u128(total * LEVERAGE),
            },
        },
    }
}

/// The whole units of an asset worth `value` at `price`, with `decimals` units per token,
/// rounded down; `None` on a zero price or where a step overflows.
pub open spec fn borrow_amount(value: u128, price: u128, decimals: u64) -> Option<u64> {
    if price == 0 {
        None
    } else {
        match as_u128(value as int * wad() / price as int) {
            None => None,
            Some(tokens) => match as_u128(tokens * decimals) {
                None => None,
                Some(scaled) => if scaled as int / wad() <= u64::MAX {
                    Some((scaled as int / wad()) as u64)
                } else {
                    None
                },
            },
        }
    }
}

/// The share of a deposit that funds the first leg: a quarter, rounded down.
pub open spec fn first_share(amount: u64) -> u64 {
    amount / 4
}

/// The two legs that a deposit of `base_amount` and `quote_amount` is split into at the given
/// prices, or `None` where the arithmetic overflows or a price is zero.
pub open spec fn leg_sizing(base_amount: u64, quote_amount: u64, base_price: u128, quote_price: u128) -> Option<
    (LegFunding, LegFunding),
> {
    let a_base = first_share(base_amount);
    let a_quote = first_share(quote_amount);
    let b_base = (base_amount - a_base) as u64;
    let b_quote = (quote_amount - a_quote) as u64;
    match leveraged_value(base_price, a_base, quote_price, a_quote) {
        None => None,
        Some(a_value) => match borrow_amount(a_value, quote_price, QUOTE_DECIMALS) {
            None => None,
            Some(quote_borrow) => match leveraged_value(base_price, b_base, quote_price, b_quote) {
                None => None,
                Some(b_value) => match borrow_amount(b_value, base_price, BASE_DECIMALS) {
                    None => None,
                    Some(base_borrow) => Some(
                        (
                            LegFunding {
                                base_amount: a_base,
                                quote_amount: a_quote,
                                base_borrow: 0,
                                quote_borrow,
                            },
                            LegFunding {
                                base_amount: b_base,
                                quote_amount: b_quote,
                                base_borrow,
                                quote_borrow: 0,
                            },
                        ),
                    ),
                },
            },
        },
    }
}

/// Value of amounts of both assets, times the target leverage.
fn compute_leveraged_value(base_price: u128, base_amount: u64, quote_price: u128, quote_amount: u64) -> (r: Option<u128>)
    ensures
        r == leveraged_value(base_price, base_amount, quote_price, quote_amount),
{
    let base_scaled = match wad_mul_int(base_price, base_amount) {
        Some(v) => v,
        None => return None,
    };
    let quote_scaled = match wad_mul_int(quote_price, quote_amount) {
        Some(v) => v,
        None => return None,
    };
    let base_value = match wad_div_int(base_scaled, BASE_DECIMALS) {
        Some(v) => v,
        None => return None,
    };
    let quote_value = match wad_div_int(quote_scaled, QUOTE_DECIMALS) {
        Some(v) => v,
        None => return None,
    };
    let total = match wad_add(base_value, quote_value) {
        Some(v) => v,
        None => return None,
    };
    wad_mul_int(total, LEVERAGE)
}

/// Units of an asset worth `value` at `price`.
fn compute_borrow_amount(value: u128, price: u128, decimals: u64) -> (r: Option<u64>)
    ensures
        r == borrow_amount(value, price, decimals),
{
    let tokens = match wad_div(value, price) {
        Some(v) => v,
        None => return None,
    };
    let scaled = match wad_mul_int(tokens, decimals) {
        Some(v) => v,
        None => return None,
    };
    wad_floor(scaled)
}

/// Splits a deposit into its two legs at the given prices (scaled decimals): the first
/// leg borrows quote, the second borrows base.
pub fn size_legs(base_amount: u64, quote_amount: u64, base_price: u128, quote_price: u128) -> (r: Result<
    Vec<LegFunding>,
    ChamberError,
>)
    ensures
        match leg_sizing(base_amount, quote_amount, base_price, quote_price) {
            Some((a, b)) => r matches Ok(legs) && legs@ == seq![a, b],
            None => r == Err::<Vec<LegFunding>, ChamberError>(ChamberError::MathOverflow),
        },
        r matches Ok(legs) ==> legs@.len() == 2
            && legs@[0].base_amount + legs@[1].base_amount == base_amount
            && legs@[0].quote_amount + legs@[1].quote_amount == quote_amount,
{
    let a_base: u64 = if base_amount > 0 { base_amount / 4 } else { 0 };
    let a_quote: u64 = if quote_amount > 0 { quote_amount / 4 } else { 0 };
    let a_value = match compute_leveraged_value(base_price, a_base, quote_price, a_quote) {
        Some(v) => v,
        None => return Err(ChamberError::MathOverflow),
    };
    let quote_borrow = match compute_borrow_amount(a_value, quote_price, QUOTE_DECIMALS) {
        Some(v) => v,
        None => return Err(ChamberError::MathOverflow),
    };
    let b_base: u64 = base_amount - a_base;
    let b_quote: u64 = quote_amount - a_quote;
    let b_value = match compute_leveraged_value(base_price, b_base, quote_price, b_quote) {
        Some(v) => v,
        None => return Err(ChamberError::MathOverflow),
    };
    let base_borrow = match compute_borrow_amount(b_value, base_price, BASE_DECIMALS) {
        Some(v) => v,
        None => return Err(ChamberError::MathOverflow),
    };
    let mut legs: Vec<LegFunding> = Vec::new();
    legs.push(LegFunding { base_amount: a_base, quote_amount: a_quote, base_borrow: 0, quote_borrow });
    legs.push(LegFunding { base_amount: b_base, quote_amount: b_quote, base_borrow, quote_borrow: 0 });
    assert(legs@ =~= seq![legs@[0], legs@[1]]);
    Ok(legs)
}

/// No part of a deposit is lost or counted twice: whenever the sizing succeeds, at any
/// prices, the two legs' own funds add up to the deposit, for each asset.
pub proof fn lemma_legs_conserve_deposit(base_amount: u64, quote_amount: u64, base_price: u128, quote_price: u128)
    ensures
        leg_sizing(base_amount, quote_amount, base_price, quote_price) matches Some((a, b)) ==> a.base_amount
            + b.base_amount == base_amount && a.quote_amount + b.quote_amount == quote_amount,
{
}

} // verus!

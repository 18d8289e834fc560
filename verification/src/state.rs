//! The custody state: the one record that the contract keeps.

use cosmwasm_std::Uint128;
use vstd::prelude::*;

verus! {

/// Number of atomic units in one whole of a [`Decimal`]: ten to the eighteenth.
pub const DECIMAL_FRACTIONAL: u128 = 1_000_000_000_000_000_000u128;

/// A non-negative fixed-point number with eighteen fractional digits, held as its
/// count of atomic units: `atomics / 10^18`.
#[derive(Clone, Copy, Debug, PartialEq, Eq)]
pub struct Decimal {
    pub atomics: u128,
}

/// Calls `cosmwasm_std::Uint128::checked_multiply_ratio`.
///
/// Trusted: it gives `amount * numerator / denominator`, rounded down, where the
/// denominator is not zero and the quotient fits, and nothing otherwise.
#[verifier::external_body]
fn checked_multiply_ratio(amount: u128, numerator: u128, denominator: u128) -> (ratio: Option<u128>)
    ensures
        ratio == (if denominator != 0 && amount * numerator / (denominator as int) <= u128::MAX {
            Some((amount * numerator / (denominator as int)) as u128)
        } else {
            None
        }),
{
    Uint128::new(amount).checked_multiply_ratio(numerator, denominator).ok().map(|ratio| ratio.u128())
}

impl Decimal {
    /// `amount` times this number, rounded down to a whole amount.
    pub open spec fn mul_floor(self, amount: u128) -> int {
        amount * self.atomics / (DECIMAL_FRACTIONAL as int)
    }

    /// `amount` times this number, rounded down, where that fits the amounts of
    /// the ledger.
    pub fn checked_mul_floor(self, amount: u128) -> (product: Option<u128>)
        ensures
            product == (if self.mul_floor(amount) <= u128::MAX {
                Some(self.mul_floor(amount) as u128)
            } else {
                None
            }),
    {
        checked_multiply_ratio(amount, self.atomics, DECIMAL_FRACTIONAL)
    }

    /// The number of `atomics` atomic units.
    pub fn new(atomics: u128) -> (ratio: Decimal)
        ensures
            ratio.atomics == atomics,
    {
        Decimal { atomics }
    }
}

/// The product is rounded down, never up: it is the largest whole amount that is
/// not above `amount` times the number.
pub proof fn lemma_mul_floor_rounds_down(ratio: Decimal, amount: u128)
    ensures
        0 <= ratio.mul_floor(amount),
        ratio.mul_floor(amount) * DECIMAL_FRACTIONAL <= amount * ratio.atomics,
        amount * ratio.atomics < (ratio.mul_floor(amount) + 1) * DECIMAL_FRACTIONAL,
{
    let product: int = amount * ratio.atomics;
    assert(0 <= product) by (nonlinear_arith)
        requires
            product == amount * ratio.atomics,
    ;
    vstd::arithmetic::div_mod::lemma_fundamental_div_mod(product, DECIMAL_FRACTIONAL as int);
    vstd::arithmetic::div_mod::lemma_mod_bound(product, DECIMAL_FRACTIONAL as int);
    vstd::arithmetic::div_mod::lemma_div_pos_is_pos(product, DECIMAL_FRACTIONAL as int);
    assert(ratio.mul_floor(amount) * DECIMAL_FRACTIONAL == DECIMAL_FRACTIONAL * (product
        / (DECIMAL_FRACTIONAL as int))) by (nonlinear_arith)
        requires
            ratio.mul_floor(amount) == product / (DECIMAL_FRACTIONAL as int),
    ;
}

/// What the contract remembers between invocations.
#[derive(Clone, Debug, PartialEq, Eq)]
pub struct State {
    /// The locked asset. Fixed at creation.
    pub pool: String,
    /// Who receives evacuated assets and may name a successor.
    pub evacuate_address: String,
    /// Receipt tokens minted per unit of the locked asset. Fixed at creation.
    pub mint_ratio: Decimal,
}

/// The mathematical value of a [`State`].
pub struct StateView {
    pub pool: Seq<char>,
    pub evacuate_address: Seq<char>,
    pub mint_ratio: Decimal,
}

impl DeepView for State {
    type V = StateView;

    open spec fn deep_view(&self) -> StateView {
        StateView {
            pool: self.pool@,
            evacuate_address: self.evacuate_address@,
            mint_ratio: self.mint_ratio,
        }
    }
}

impl View for State {
    type V = StateView;

    open spec fn view(&self) -> StateView {
        self.deep_view()
    }
}

} // verus!

//! Native currency amounts, as the host reports balances and inbound funds.

use vstd::prelude::*;

verus! {

/// An amount of one native denomination.
#[derive(Clone, Debug, PartialEq, Eq)]
pub struct NativeCoin {
    pub denom: String,
    pub amount: u128,
}

/// The mathematical value of a [`NativeCoin`].
pub struct NativeCoinView {
    pub denom: Seq<char>,
    pub amount: u128,
}

impl DeepView for NativeCoin {
    type V = NativeCoinView;

    open spec fn deep_view(&self) -> NativeCoinView {
        NativeCoinView { denom: self.denom@, amount: self.amount }
    }
}

impl View for NativeCoin {
    type V = NativeCoinView;

    open spec fn view(&self) -> NativeCoinView {
        self.deep_view()
    }
}

impl NativeCoin {
    /// A coin of `amount` units of `denom`.
    pub fn new(amount: u128, denom: &str) -> (coin: NativeCoin)
        ensures
            coin@ == (NativeCoinView { denom: denom@, amount }),
    {
        NativeCoin { denom: denom.to_owned(), amount }
    }

    /// A copy of this coin.
    pub fn duplicate(&self) -> (coin: NativeCoin)
        ensures
            coin@ == self@,
    {
        NativeCoin { denom: self.denom.clone(), amount: self.amount }
    }
}

} // verus!

//! Native coins and externally issued tokens.

use vstd::prelude::*;

verus! {

/// An amount of a native denomination.
#[derive(Debug, PartialEq, Eq)]
pub struct NativeCoin {
    pub denom: String,
    pub amount: u128,
}

/// What a [`NativeCoin`] is: its denomination as text, and its amount.
pub struct NativeCoinView {
    pub denom: Seq<char>,
    pub amount: u128,
}

impl View for NativeCoin {
    type V = NativeCoinView;

    open spec fn view(&self) -> NativeCoinView {
        NativeCoinView { denom: self.denom@, amount: self.amount }
    }
}

impl DeepView for NativeCoin {
    type V = NativeCoinView;

    open spec fn deep_view(&self) -> NativeCoinView {
        self@
    }
}

impl Clone for NativeCoin {
    fn clone(&self) -> (c: NativeCoin)
        ensures
            c == *self,
    {
        NativeCoin { denom: self.denom.clone(), amount: self.amount }
    }
}

/// Makes a coin of `amount` units of `denom`.
pub fn coin(amount: u128, denom: &String) -> (c: NativeCoin)
    ensures
        c@ == (NativeCoinView { denom: denom@, amount }),
{
    NativeCoin { denom: denom.clone(), amount }
}

} // verus!

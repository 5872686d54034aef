//! An asset is a native coin or an externally issued token.

use crate::coin::{NativeCoin, NativeCoinView};
use crate::error::{checked_sub, underflow, ContractError, OverflowError, OverflowOperation};
use vstd::prelude::*;

verus! {

/// An amount of a token that the contract at `address` issues.
#[derive(Debug, PartialEq, Eq)]
pub struct Cw20Coin {
    pub address: String,
    pub amount: u128,
}

#[derive(Debug, PartialEq, Eq)]
pub enum Asset {
    Native(NativeCoin),
    Cw20(Cw20Coin),
}

/// What an [`Asset`] is: whether it is native, its denomination (for a
/// token, the address of its contract) and its amount.
pub struct AssetView {
    pub native: bool,
    pub denom: Seq<char>,
    pub amount: u128,
}

impl AssetView {
    /// The same asset in another amount.
    pub open spec fn with_amount(self, amount: u128) -> AssetView {
        AssetView { native: self.native, denom: self.denom, amount }
    }

    /// The asset as a native coin.
    pub open spec fn coin(self) -> NativeCoinView {
        NativeCoinView { denom: self.denom, amount: self.amount }
    }
}

impl View for Asset {
    type V = AssetView;

    open spec fn view(&self) -> AssetView {
        match self {
            Asset::Native(coin) => AssetView {
                native: true,
                denom: coin.denom@,
                amount: coin.amount,
            },
            Asset::Cw20(coin) => AssetView {
                native: false,
                denom: coin.address@,
                amount: coin.amount,
            },
        }
    }
}

impl DeepView for Asset {
    type V = AssetView;

    open spec fn deep_view(&self) -> AssetView {
        self@
    }
}

impl Clone for Asset {
    fn clone(&self) -> (a: Asset)
        ensures
            a@ == self@,
    {
        self.with_amount(self.amount())
    }
}

impl Asset {
    pub fn denom(&self) -> (d: &String)
        ensures
            d@ == self@.denom,
    {
        match self {
            Asset::Native(coin) => &coin.denom,
            Asset::Cw20(coin) => &coin.address,
        }
    }

    pub fn amount(&self) -> (a: u128)
        ensures
            a == self@.amount,
    {
        match self {
            Asset::Native(coin) => coin.amount,
            Asset::Cw20(coin) => coin.amount,
        }
    }

    /// The same asset in another amount.
    pub fn with_amount(&self, amount: u128) -> (a: Asset)
        ensures
            a@ == self@.with_amount(amount),
    {
        match self {
            Asset::Native(coin) => Asset::Native(NativeCoin { denom: coin.denom.clone(), amount }),
            Asset::Cw20(coin) => Asset::Cw20(Cw20Coin { address: coin.address.clone(), amount }),
        }
    }

    /// Adds to the amount and returns the new one. Fails, and changes
    /// nothing, where the sum leaves the range of amounts.
    pub fn add(&mut self, amount: u128) -> (r: Result<u128, ContractError>)
        ensures
            match r {
                Ok(sum) => old(self)@.amount + amount == sum && final(self)@ == old(
                    self,
                )@.with_amount(sum),
                Err(e) => old(self)@.amount + amount > u128::MAX && *final(self) == *old(self)
                    && e@ == crate::error::ContractErrorView::Overflow(
                    OverflowError { operation: OverflowOperation::Add },
                ),
            },
    {
        match self.amount().checked_add(amount) {
            Some(sum) => {
                *self = self.with_amount(sum);
                Ok(sum)
            },
            None => Err(ContractError::Overflow(OverflowError { operation: OverflowOperation::Add })),
        }
    }

    /// Takes from the amount and returns what is left. Fails, and changes
    /// nothing, where more is taken than is there.
    pub fn sub(&mut self, amount: u128) -> (r: Result<u128, ContractError>)
        ensures
            match r {
                Ok(rest) => old(self)@.amount - amount == rest && final(self)@ == old(
                    self,
                )@.with_amount(rest),
                Err(e) => old(self)@.amount < amount && *final(self) == *old(self) && e@
                    == underflow(),
            },
    {
        match checked_sub(self.amount(), amount) {
            Ok(rest) => {
                *self = self.with_amount(rest);
                Ok(rest)
            },
            Err(e) => Err(e),
        }
    }
}

/// The asset with the given denomination that comes first, if any does.
pub open spec fn find_asset(assets: Seq<AssetView>, denom: Seq<char>) -> Option<AssetView>
    decreases assets.len(),
{
    if assets.len() == 0 {
        None
    } else if assets[0].denom == denom {
        Some(assets[0])
    } else {
        find_asset(assets.subrange(1, assets.len() as int), denom)
    }
}

/// The place of the asset with the given denomination that comes first;
/// the length of the sequence if none has it.
pub open spec fn find_asset_index(assets: Seq<AssetView>, denom: Seq<char>) -> int
    decreases assets.len(),
{
    if assets.len() == 0 {
        0
    } else if assets[0].denom == denom {
        0
    } else {
        1 + find_asset_index(assets.subrange(1, assets.len() as int), denom)
    }
}

/// `find_asset` and `find_asset_index` speak of the same asset: the first
/// with the denomination, with none before it.
pub proof fn lemma_find_asset(assets: Seq<AssetView>, denom: Seq<char>)
    ensures
        0 <= find_asset_index(assets, denom) <= assets.len(),
        forall|j: int|
            0 <= j < find_asset_index(assets, denom) ==> (#[trigger] assets[j]).denom != denom,
        find_asset_index(assets, denom) < assets.len() ==> assets[find_asset_index(
            assets,
            denom,
        )].denom == denom && find_asset(assets, denom) == Some(
            assets[find_asset_index(assets, denom)],
        ),
        find_asset_index(assets, denom) == assets.len() ==> find_asset(assets, denom) is None,
    decreases assets.len(),
{
    if assets.len() > 0 && assets[0].denom != denom {
        let rest = assets.subrange(1, assets.len() as int);
        lemma_find_asset(rest, denom);
        let k = find_asset_index(rest, denom);
        assert forall|j: int| 0 <= j < 1 + k implies (#[trigger] assets[j]).denom != denom by {
            if j > 0 {
                assert(rest[j - 1] == assets[j]);
            }
        }
        if k < rest.len() {
            assert(rest[k] == assets[k + 1]);
        }
    }
}

/// If no asset before `i` has the denomination and the one at `i` has it,
/// it is the one found.
pub proof fn lemma_find_asset_at(assets: Seq<AssetView>, denom: Seq<char>, i: int)
    requires
        0 <= i <= assets.len(),
        forall|j: int| 0 <= j < i ==> (#[trigger] assets[j]).denom != denom,
        i < assets.len() ==> assets[i].denom == denom,
    ensures
        find_asset_index(assets, denom) == i,
        i < assets.len() ==> find_asset(assets, denom) == Some(assets[i]),
        i == assets.len() ==> find_asset(assets, denom) is None,
{
    lemma_find_asset(assets, denom);
    let k = find_asset_index(assets, denom);
    if k < i {
        assert(assets[k].denom == denom);
    } else if k > i {
        assert(assets[i].denom == denom);
    }
}

/// Looks for the asset with the given denomination that comes first.
pub fn find_asset_exec(assets: &Vec<Asset>, denom: &String) -> (r: Option<usize>)
    ensures
        match r {
            Some(i) => i < assets.len() && i == find_asset_index(assets.deep_view(), denom@)
                && find_asset(assets.deep_view(), denom@) == Some(assets[i as int]@),
            None => find_asset(assets.deep_view(), denom@) is None,
        },
{
    let ghost all = assets.deep_view();
    let mut i: usize = 0;
    while i < assets.len()
        invariant
            all == assets.deep_view(),
            i <= assets.len(),
            forall|j: int| 0 <= j < i ==> (#[trigger] all[j]).denom != denom@,
        decreases assets.len() - i,
    {
        if *assets[i].denom() == *denom {
            proof {
                assert(all[i as int] == assets[i as int]@);
                lemma_find_asset_at(all, denom@, i as int);
            }
            return Some(i);
        }
        assert(all[i as int] == assets[i as int]@);
        i += 1;
    }
    proof {
        lemma_find_asset_at(all, denom@, i as int);
    }
    None
}

} // verus!

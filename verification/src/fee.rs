//! The protocol fee: what is taken of an amount, and who gets it.

use crate::asset::{Asset, AssetView};
use crate::host::{Call, CallView};
use crate::math::{lemma_mul_floor_bounded, mul_floor, mul_floor_exec};
use crate::state::{ProtocolFee, ProtocolFeeView};
use vstd::prelude::*;

verus! {

/// The fee on `gross`: the fee's share of it, rounded down; nothing where
/// no fee is set.
pub open spec fn fee_of(gross: u128, fee: Option<ProtocolFeeView>) -> nat {
    match fee {
        Some(f) => mul_floor(gross, f.percent),
        None => 0,
    }
}

/// What is left of `gross` after the fee.
pub open spec fn net_of(gross: u128, fee: Option<ProtocolFeeView>) -> int {
    gross - fee_of(gross, fee)
}

/// The call that hands `amount` of `asset` to `to_address`.
pub open spec fn transfer_of(asset: AssetView, amount: u128, to_address: Seq<char>)
    -> CallView {
    CallView::Transfer { asset: asset.with_amount(amount), to_address }
}

/// The calls that pay the fee on `gross` of `asset`: one transfer to the
/// fee's receiver where the fee is positive, none otherwise.
pub open spec fn fee_transfers(asset: AssetView, gross: u128, fee: Option<ProtocolFeeView>) -> Seq<
    CallView,
> {
    match fee {
        Some(f) => if fee_of(gross, fee) > 0 {
            seq![transfer_of(asset, fee_of(gross, fee) as u128, f.fee_receiver)]
        } else {
            Seq::empty()
        },
        None => Seq::empty(),
    }
}

/// A valid fee never exceeds the amount it is taken of, and without a fee,
/// or with a fee of zero, nothing is taken.
pub proof fn lemma_fee_bounded(gross: u128, fee: Option<ProtocolFeeView>)
    requires
        fee matches Some(f) ==> f.percent.below_one(),
    ensures
        fee_of(gross, fee) <= gross,
        0 <= net_of(gross, fee) <= gross,
        (fee is None || fee->Some_0.percent.is_zero()) ==> fee_of(gross, fee) == 0
            && fee_transfers(AssetView { native: true, denom: Seq::empty(), amount: 0 }, gross, fee)
            == Seq::<CallView>::empty(),
{
    match fee {
        Some(f) => {
            lemma_mul_floor_bounded(gross, f.percent);
            if f.percent.0 == 0 {
                assert(gross as nat * 0nat == 0) by (nonlinear_arith);
            }
        },
        None => {},
    }
}

impl Asset {
    /// The call that hands the asset to `to_address`.
    pub fn transfer(self, to_address: &String) -> (msg: Call)
        ensures
            msg@ == transfer_of(self@, self@.amount, to_address@),
    {
        Call::Transfer { asset: self, to_address: to_address.clone() }
    }

    /// The call that hands `amount` of the asset's kind to `to_address`.
    pub fn transfer_amount(&self, amount: u128, to_address: &String) -> (msg: Call)
        ensures
            msg@ == transfer_of(self@, amount, to_address@),
    {
        Call::Transfer { asset: self.with_amount(amount), to_address: to_address.clone() }
    }
}

/// Takes the protocol fee of `gross` units of `asset`.
///
/// Returns what is left and, where the fee is positive, the call that pays
/// it to the fee's receiver. Without a fee, or with a fee of zero, all of
/// `gross` is left and no call is made.
pub fn apply_fee(asset: &Asset, gross: u128, fee: &Option<ProtocolFee>) -> (r: (
    u128,
    Option<Call>,
))
    requires
        fee matches Some(f) ==> f.wf(),
    ensures
        r.0 == net_of(gross, fee.deep_view()),
        match r.1 {
            Some(msg) => fee_transfers(asset@, gross, fee.deep_view()) == seq![msg@],
            None => fee_transfers(asset@, gross, fee.deep_view()) == Seq::<CallView>::empty(),
        },
        (fee is None || fee->Some_0.percent.is_zero()) ==> r.0 == gross && r.1 is None,
{
    proof {
        lemma_fee_bounded(gross, fee.deep_view());
    }
    match fee {
        Some(f) => {
            if f.percent.is_zero() {
                return (gross, None);
            }
            let fee_amount = mul_floor_exec(gross, f.percent);
            if fee_amount > 0 {
                (gross - fee_amount, Some(asset.transfer_amount(fee_amount, &f.fee_receiver)))
            } else {
                (gross, None)
            }
        },
        None => (gross, None),
    }
}

} // verus!

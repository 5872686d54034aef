//! The calls that several handlers build: a swap at the venue, and the
//! refund of what an operation left over.

use crate::asset::AssetView;
use crate::coin::{NativeCoin, NativeCoinView};
use crate::error::{ContractError, ContractErrorView, ContractResult};
use crate::fee::transfer_of;
use crate::host::{Call, CallView, Deps, Env};
use crate::snapshot::Snapshots;
use crate::state::{diff, diff_of};
use crate::swap::{
    convert_swap_operations, pools_valid, venue_hops, SwapOperation, SwapOperationView,
};
use vstd::prelude::*;

verus! {

/// The floor of an optional minimum: the minimum itself, or zero.
pub open spec fn floor_of(minimum_receive: Option<u128>) -> u128 {
    match minimum_receive {
        Some(m) => m,
        None => 0,
    }
}

/// The call that swaps `coin_in` through the hops of `operations`.
pub open spec fn swap_msg(
    sender: Seq<char>,
    coin_in: NativeCoinView,
    operations: Seq<SwapOperationView>,
    minimum_receive: Option<u128>,
) -> CallView {
    CallView::SwapExactAmountIn {
        sender,
        routes: venue_hops(operations),
        token_in: coin_in,
        token_out_min_amount: floor_of(minimum_receive),
    }
}

/// Builds the venue's swap call for one route.
///
/// Fails if and only if a hop's pool reference is not a pool identifier.
/// The floor of the call is `minimum_receive`, or zero where none is given.
pub fn create_osmosis_swap_msg(
    sender: String,
    coin_in: NativeCoin,
    swap_operations: Vec<SwapOperation>,
    minimum_receive: Option<u128>,
) -> (r: ContractResult<Call>)
    ensures
        match r {
            Ok(msg) => pools_valid(swap_operations.deep_view()) && msg@ == swap_msg(
                sender@,
                coin_in@,
                swap_operations.deep_view(),
                minimum_receive,
            ),
            Err(e) => !pools_valid(swap_operations.deep_view()) && e@
                == ContractErrorView::ParseIntPoolID,
        },
{
    let ghost operations = swap_operations.deep_view();
    match convert_swap_operations(swap_operations) {
        Ok(routes) => {
            let token_out_min_amount = match minimum_receive {
                Some(m) => m,
                None => 0,
            };
            Ok(
                Call::SwapExactAmountIn {
                    sender,
                    routes,
                    token_in: coin_in,
                    token_out_min_amount,
                },
            )
        },
        Err(e) => Err(ContractError::ParseIntPoolID(e)),
    }
}

/// The refund of what the account holds of `denom` above the recorded
/// balance: one transfer of the difference to `receiver` where it is
/// positive, none where it is zero. The error of the difference where that
/// cannot be had: nothing is recorded for `denom`, its balance cannot be
/// had, or the account holds less than was recorded.
pub open spec fn refund_of(
    snapshots: Snapshots,
    balances: Seq<AssetView>,
    denom: Seq<char>,
    receiver: Seq<char>,
) -> Result<Seq<CallView>, ContractErrorView> {
    match diff_of(snapshots, balances, denom) {
        Err(e) => Err(e),
        Ok(delta) => if delta.amount > 0 {
            Ok(seq![transfer_of(delta, delta.amount, receiver)])
        } else {
            Ok(Seq::empty())
        },
    }
}

/// Builds the refund of what the account holds of `denom` above the
/// recorded balance. Fails where the account holds less than was recorded.
pub fn create_refund_msg(deps: &Deps, env: &Env, denom: &String, receiver: &String) -> (r:
    ContractResult<Option<Call>>)
    requires
        deps.storage.wf(),
    ensures
        match r {
            Ok(Some(msg)) => refund_of(
                deps.storage@.snap_balances,
                deps.querier.balances.deep_view(),
                denom@,
                receiver@,
            ) == Ok::<Seq<CallView>, ContractErrorView>(seq![msg@]),
            Ok(None) => refund_of(
                deps.storage@.snap_balances,
                deps.querier.balances.deep_view(),
                denom@,
                receiver@,
            ) == Ok::<Seq<CallView>, ContractErrorView>(Seq::empty()),
            Err(e) => refund_of(
                deps.storage@.snap_balances,
                deps.querier.balances.deep_view(),
                denom@,
                receiver@,
            ) == Err::<Seq<CallView>, ContractErrorView>(e@),
        },
{
    let delta = match diff(deps, denom) {
        Ok(asset) => asset,
        Err(e) => {
            return Err(e);
        },
    };
    if delta.amount() > 0 {
        return Ok(Some(delta.transfer(receiver)));
    }
    Ok(None)
}

} // verus!

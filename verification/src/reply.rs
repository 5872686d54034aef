//! The continuations: what happens once the pool manager has created or
//! withdrawn a position.

use crate::asset::{find_asset_exec, find_asset_index, Asset, AssetView};
use crate::codec::{created_position_id, decode_position_id};
use crate::coin::{coin, NativeCoinView};
use crate::error::{
    checked_sub, not_found, underflow, ContractError, ContractErrorView, ContractResult, StdError,
    ZapperError,
};
use crate::fee::{apply_fee, fee_transfers, lemma_fee_bounded, net_of};
use crate::helper::{create_osmosis_swap_msg, create_refund_msg, refund_of, swap_msg};
use crate::host::{
    balance_of, outcome, Call, CallView, Deps, Env, Reply, Response, ResponseView,
    SubMsgResult, SubMsgResultView,
};
use crate::msg::{ExecuteMsg, ExecuteMsgView};
use crate::snapshot::{forget, lemma_forget, Snapshots};
use crate::state::{ProtocolFee, ProtocolFeeView, StorageView};
use crate::swap::{clone_operations, pools_valid, Route, RouteView};
use vstd::prelude::*;

verus! {

/// What happens once the position `position_id` of the pending zap-in
/// exists.
///
/// The position goes to the receiver, and so does what the account holds
/// of each pool token above the recorded balance. The pending record and
/// the records of the two tokens are removed.
pub open spec fn position_settlement(
    storage: StorageView,
    balances: Seq<AssetView>,
    contract: Seq<char>,
    position_id: u64,
) -> Result<(StorageView, ResponseView), ContractErrorView> {
    match storage.pending_position {
        None => Err(not_found()),
        Some(pending) => match refund_of(
            storage.snap_balances,
            balances,
            pending.token_0,
            pending.receiver,
        ) {
            Err(e) => Err(e),
            Ok(refund_0) => match refund_of(
                storage.snap_balances,
                balances,
                pending.token_1,
                pending.receiver,
            ) {
                Err(e) => Err(e),
                Ok(refund_1) => Ok(
                    (
                        StorageView {
                            pending_position: None,
                            snap_balances: forget(
                                forget(storage.snap_balances, pending.token_0),
                                pending.token_1,
                            ),
                            ..storage
                        },
                        ResponseView::of_messages(
                            seq![
                                CallView::TransferPositions {
                                    position_ids: seq![position_id],
                                    sender: contract,
                                    new_owner: pending.receiver,
                                },
                            ] + refund_0 + refund_1,
                        ),
                    ),
                ),
            },
        },
    }
}

/// Hands the new position of the pending zap-in to its receiver, refunds
/// what is left of the two pool tokens, and closes the zap-in.
///
/// On an error nothing is changed.
pub fn settle_position(deps: &mut Deps, env: &Env, position_id: u64) -> (r: ContractResult<
    Response,
>)
    requires
        old(deps).storage.wf(),
    ensures
        final(deps).storage.wf(),
        final(deps).querier == old(deps).querier,
        r is Err ==> *final(deps) == *old(deps),
        outcome(r, final(deps).storage@) == position_settlement(
            old(deps).storage@,
            old(deps).querier.balances.deep_view(),
            env.contract.address@,
            position_id,
        ),
{
    let ghost start = deps.storage@;
    let mut msgs: Vec<Call> = Vec::new();
    let token_0: String;
    let token_1: String;
    match &deps.storage.pending_position {
        None => {
            return Err(ContractError::Std(StdError::NotFound));
        },
        Some(pending) => {
            let receiver = pending.receiver.clone();
            token_0 = pending.token_0.clone();
            token_1 = pending.token_1.clone();
            let mut position_ids: Vec<u64> = Vec::new();
            position_ids.push(position_id);
            assert(position_ids@ =~= seq![position_id]);
            msgs.push(
                Call::TransferPositions {
                    position_ids,
                    sender: env.contract.address.clone(),
                    new_owner: receiver.clone(),
                },
            );
            let ghost first = msgs.deep_view();
            match create_refund_msg(deps, env, &token_0, &receiver) {
                Err(e) => {
                    return Err(e);
                },
                Ok(Some(msg)) => {
                    msgs.push(msg);
                },
                Ok(None) => {},
            }
            let ghost second = msgs.deep_view();
            match create_refund_msg(deps, env, &token_1, &receiver) {
                Err(e) => {
                    return Err(e);
                },
                Ok(Some(msg)) => {
                    msgs.push(msg);
                },
                Ok(None) => {},
            }
            proof {
                let refund_0 = refund_of(
                    start.snap_balances,
                    deps.querier.balances.deep_view(),
                    token_0@,
                    receiver@,
                )->Ok_0;
                let refund_1 = refund_of(
                    start.snap_balances,
                    deps.querier.balances.deep_view(),
                    token_1@,
                    receiver@,
                )->Ok_0;
                assert(second =~= first + refund_0);
                assert(msgs.deep_view() =~= first + refund_0 + refund_1);
                assert(first =~= seq![
                    CallView::TransferPositions {
                        position_ids: seq![position_id],
                        sender: env.contract.address@,
                        new_owner: receiver@,
                    },
                ]);
            }
        },
    }
    proof {
        lemma_forget(start.snap_balances, token_0@);
        lemma_forget(forget(start.snap_balances, token_0@), token_1@);
    }
    deps.storage.pending_position = None;
    deps.storage.snap_balances.remove(&token_0);
    deps.storage.snap_balances.remove(&token_1);
    Ok(Response::new().add_messages(msgs))
}

/// What the report of a position's creation leads to.
///
/// A failure ends in `CreatePositionError` with the reason that was given.
/// On success the payload must carry the identifier of the new position,
/// and the pending zap-in is settled with it.
pub open spec fn position_reply(
    storage: StorageView,
    balances: Seq<AssetView>,
    contract: Seq<char>,
    result: SubMsgResultView,
) -> Result<(StorageView, ResponseView), ContractErrorView> {
    match result {
        SubMsgResultView::Failure(reason) => Err(ContractErrorView::CreatePositionError(reason)),
        SubMsgResultView::Success(None) => Err(not_found()),
        SubMsgResultView::Success(Some(data)) => match created_position_id(data) {
            None => Err(ContractErrorView::Std(StdError::ParseErr)),
            Some(position_id) => position_settlement(storage, balances, contract, position_id),
        },
    }
}

/// Continues a zap-in once the creation of its position is reported.
///
/// On an error nothing is changed.
pub fn reply_create_position(deps: &mut Deps, env: Env, msg: Reply) -> (r: ContractResult<Response>)
    requires
        old(deps).storage.wf(),
    ensures
        final(deps).storage.wf(),
        final(deps).querier == old(deps).querier,
        r is Err ==> *final(deps) == *old(deps),
        outcome(r, final(deps).storage@) == position_reply(
            old(deps).storage@,
            old(deps).querier.balances.deep_view(),
            env.contract.address@,
            msg.result@,
        ),
{
    match msg.result {
        SubMsgResult::Success(response) => {
            let data = match response.data {
                Some(data) => data,
                None => {
                    return Err(ContractError::Std(StdError::NotFound));
                },
            };
            match decode_position_id(&data) {
                Some(position_id) => settle_position(deps, &env, position_id),
                None => Err(ContractError::Std(StdError::ParseErr)),
            }
        },
        SubMsgResult::Failure(e) => Err(ContractError::CreatePositionError(e)),
    }
}

/// What the account holds of an entry's denomination above the balance
/// that the entry records, as an asset of that amount.
pub open spec fn entry_delta(entry: (Seq<char>, u128), balances: Seq<AssetView>) -> Result<
    AssetView,
    ContractErrorView,
> {
    match balance_of(balances, entry.0) {
        Err(e) => Err(e),
        Ok(held) => if held.amount >= entry.1 {
            Ok(held.with_amount((held.amount - entry.1) as u128))
        } else {
            Err(underflow())
        },
    }
}

/// What came in of each recorded denomination, in the order of the table;
/// the error of the first denomination whose difference cannot be had.
pub open spec fn received(entries: Snapshots, balances: Seq<AssetView>) -> Result<
    Seq<AssetView>,
    ContractErrorView,
>
    decreases entries.len(),
{
    if entries.len() == 0 {
        Ok(Seq::empty())
    } else {
        match received(entries.drop_last(), balances) {
            Err(e) => Err(e),
            Ok(assets) => match entry_delta(entries.last(), balances) {
                Err(e) => Err(e),
                Ok(asset) => Ok(assets.push(asset)),
            },
        }
    }
}

/// Once the differences of the first `k` entries cannot be had, those of
/// all entries fail in the same way.
pub proof fn lemma_received_fails(entries: Snapshots, balances: Seq<AssetView>, k: int)
    requires
        0 <= k <= entries.len(),
        received(entries.take(k), balances) is Err,
    ensures
        received(entries, balances) == received(entries.take(k), balances),
    decreases entries.len(),
{
    if k == entries.len() {
        assert(entries.take(k) =~= entries);
    } else {
        assert(entries.drop_last().take(k) =~= entries.take(k));
        lemma_received_fails(entries.drop_last(), balances, k);
    }
}

/// The assets still to be swapped, and the calls made so far.
#[verifier::ext_equal]
pub struct SwapPlan {
    pub assets: Seq<AssetView>,
    pub msgs: Seq<CallView>,
}

/// The plan after one route of a zap-out.
///
/// What came in of the route's input must cover the route's amount: of a
/// denomination that is none of the assets nothing came in, so such a route
/// fails unless its amount is zero. The amount is taken from the asset; the
/// fee is paid of it, and the rest is swapped through the route's hops.
pub open spec fn route_step(
    plan: SwapPlan,
    route: RouteView,
    fee: Option<ProtocolFeeView>,
    contract: Seq<char>,
) -> Result<SwapPlan, ContractErrorView> {
    let i = find_asset_index(plan.assets, route.token_in);
    let came_in = i < plan.assets.len();
    let held = if came_in {
        plan.assets[i].amount
    } else {
        0
    };
    if held < route.offer_amount {
        Err(ContractErrorView::Zapper(ZapperError::ZapOutNotEnoughBalanceToSwap))
    } else if !pools_valid(route.operations) {
        Err(ContractErrorView::ParseIntPoolID)
    } else {
        Ok(
            SwapPlan {
                assets: if came_in {
                    plan.assets.update(
                        i,
                        plan.assets[i].with_amount((held - route.offer_amount) as u128),
                    )
                } else {
                    plan.assets
                },
                msgs: plan.msgs + (if came_in {
                    fee_transfers(plan.assets[i], route.offer_amount, fee)
                } else {
                    Seq::empty()
                }) + seq![
                    swap_msg(
                        contract,
                        NativeCoinView {
                            denom: route.token_in,
                            amount: net_of(route.offer_amount, fee) as u128,
                        },
                        route.operations,
                        route.minimum_receive,
                    ),
                ],
            },
        )
    }
}

/// The plan after the routes of a zap-out, taken in order.
pub open spec fn zap_out_swaps(
    routes: Seq<RouteView>,
    start: SwapPlan,
    fee: Option<ProtocolFeeView>,
    contract: Seq<char>,
) -> Result<SwapPlan, ContractErrorView>
    decreases routes.len(),
{
    if routes.len() == 0 {
        Ok(start)
    } else {
        match zap_out_swaps(routes.drop_last(), start, fee, contract) {
            Err(e) => Err(e),
            Ok(plan) => route_step(plan, routes.last(), fee, contract),
        }
    }
}

/// Once the first `k` routes fail, all routes fail in the same way.
pub proof fn lemma_zap_out_swaps_fails(
    routes: Seq<RouteView>,
    start: SwapPlan,
    fee: Option<ProtocolFeeView>,
    contract: Seq<char>,
    k: int,
)
    requires
        0 <= k <= routes.len(),
        zap_out_swaps(routes.take(k), start, fee, contract) is Err,
    ensures
        zap_out_swaps(routes, start, fee, contract) == zap_out_swaps(
            routes.take(k),
            start,
            fee,
            contract,
        ),
    decreases routes.len(),
{
    if k == routes.len() {
        assert(routes.take(k) =~= routes);
    } else {
        assert(routes.drop_last().take(k) =~= routes.take(k));
        lemma_zap_out_swaps_fails(routes.drop_last(), start, fee, contract, k);
    }
}

/// The request by which the orchestrator asks itself to hand back what is
/// left.
pub open spec fn transfer_funds_back_call(contract: Seq<char>, receiver: Seq<char>)
    -> CallView {
    CallView::Execute {
        contract_addr: contract,
        msg: ExecuteMsgView::TransferFundsBack { receiver },
    }
}

/// What the report of a position's withdrawal leads to.
///
/// A failure ends in `WithdrawPositionError` with the reason that was
/// given. On success what came in of each recorded denomination is taken
/// through the routes of the pending zap-out; the calls are those of the
/// routes and then the request to hand back what is left. The pending
/// record is removed, the recorded balances stay.
pub open spec fn withdrawal_reply(
    storage: StorageView,
    balances: Seq<AssetView>,
    contract: Seq<char>,
    result: SubMsgResultView,
) -> Result<(StorageView, ResponseView), ContractErrorView> {
    match result {
        SubMsgResultView::Failure(reason) => Err(ContractErrorView::WithdrawPositionError(reason)),
        SubMsgResultView::Success(_) => match storage.pending_zap_out {
            None => Err(not_found()),
            Some(pending) => match received(storage.snap_balances, balances) {
                Err(e) => Err(e),
                Ok(assets) => match zap_out_swaps(
                    pending.routes,
                    SwapPlan { assets, msgs: Seq::empty() },
                    storage.protocol_fee,
                    contract,
                ) {
                    Err(e) => Err(e),
                    Ok(plan) => Ok(
                        (
                            StorageView { pending_zap_out: None, ..storage },
                            ResponseView::of_messages(
                                plan.msgs + seq![
                                    transfer_funds_back_call(contract, pending.receiver),
                                ],
                            ),
                        ),
                    ),
                },
            },
        },
    }
}

/// Works out what came in of each recorded denomination.
pub fn collect_received(deps: &Deps) -> (r: Result<Vec<Asset>, ContractError>)
    requires
        deps.storage.wf(),
    ensures
        match r {
            Ok(assets) => received(
                deps.storage@.snap_balances,
                deps.querier.balances.deep_view(),
            ) == Ok::<Seq<AssetView>, ContractErrorView>(assets.deep_view()),
            Err(e) => received(deps.storage@.snap_balances, deps.querier.balances.deep_view())
                == Err::<Seq<AssetView>, ContractErrorView>(e@),
        },
{
    let ghost entries = deps.storage@.snap_balances;
    let ghost balances = deps.querier.balances.deep_view();
    let mut assets: Vec<Asset> = Vec::new();
    let n = deps.storage.snap_balances.len();
    let mut i: usize = 0;
    assert(assets.deep_view() =~= Seq::<AssetView>::empty());
    while i < n
        invariant
            entries == deps.storage@.snap_balances,
            balances == deps.querier.balances.deep_view(),
            n == entries.len(),
            i <= n,
            received(entries.take(i as int), balances) == Ok::<Seq<AssetView>, ContractErrorView>(
                assets.deep_view(),
            ),
        decreases n - i,
    {
        proof {
            assert(entries.take(i + 1).drop_last() =~= entries.take(i as int));
            assert(entries.take(i + 1).last() == entries[i as int]);
        }
        let ghost before = assets.deep_view();
        let denom = deps.storage.snap_balances.denom_at(i);
        let amount = deps.storage.snap_balances.amount_at(i);
        let held = match deps.querier.balance(denom) {
            Ok(asset) => asset,
            Err(e) => {
                proof {
                    lemma_received_fails(entries, balances, i + 1);
                }
                return Err(e);
            },
        };
        match checked_sub(held.amount(), amount) {
            Ok(delta) => {
                let asset = held.with_amount(delta);
                assets.push(asset);
                assert(assets.deep_view() =~= before.push(asset@));
            },
            Err(e) => {
                proof {
                    lemma_received_fails(entries, balances, i + 1);
                }
                return Err(e);
            },
        }
        i += 1;
    }
    assert(entries.take(n as int) =~= entries);
    Ok(assets)
}

/// Takes what came in through the routes of a zap-out and builds their
/// calls.
pub fn plan_zap_out_swaps(
    routes: &Vec<Route>,
    assets: &mut Vec<Asset>,
    fee: &Option<ProtocolFee>,
    contract: &String,
) -> (r: Result<Vec<Call>, ContractError>)
    requires
        fee matches Some(f) ==> f.wf(),
    ensures
        match r {
            Ok(msgs) => zap_out_swaps(
                routes.deep_view(),
                SwapPlan { assets: old(assets).deep_view(), msgs: Seq::empty() },
                fee.deep_view(),
                contract@,
            ) == Ok::<SwapPlan, ContractErrorView>(
                SwapPlan { assets: final(assets).deep_view(), msgs: msgs.deep_view() },
            ),
            Err(e) => zap_out_swaps(
                routes.deep_view(),
                SwapPlan { assets: old(assets).deep_view(), msgs: Seq::empty() },
                fee.deep_view(),
                contract@,
            ) == Err::<SwapPlan, ContractErrorView>(e@),
        },
{
    let ghost all = routes.deep_view();
    let ghost start = SwapPlan { assets: assets.deep_view(), msgs: Seq::empty() };
    let ghost fee_view = fee.deep_view();
    let mut msgs: Vec<Call> = Vec::new();
    let mut i: usize = 0;
    assert(msgs.deep_view() =~= Seq::<CallView>::empty());
    while i < routes.len()
        invariant
            all == routes.deep_view(),
            start == (SwapPlan { assets: old(assets).deep_view(), msgs: Seq::empty() }),
            fee_view == fee.deep_view(),
            fee matches Some(f) ==> f.wf(),
            i <= routes.len(),
            zap_out_swaps(all.take(i as int), start, fee_view, contract@) == Ok::<
                SwapPlan,
                ContractErrorView,
            >(SwapPlan { assets: assets.deep_view(), msgs: msgs.deep_view() }),
        decreases routes.len() - i,
    {
        proof {
            assert(all.take(i + 1).drop_last() =~= all.take(i as int));
            assert(all.take(i + 1).last() == routes[i as int]@);
        }
        let route = &routes[i];
        let ghost plan = SwapPlan { assets: assets.deep_view(), msgs: msgs.deep_view() };
        match find_asset_exec(assets, &route.token_in) {
            None => {
                proof {
                    crate::asset::lemma_find_asset(plan.assets, route@.token_in);
                    lemma_fee_bounded(route.offer_amount, fee_view);
                }
                assert(zap_out_swaps(all.take(i + 1), start, fee_view, contract@) == route_step(
                    plan,
                    route@,
                    fee_view,
                    contract@,
                ));
                if route.offer_amount > 0 {
                    proof {
                        assert(route_step(plan, route@, fee_view, contract@) is Err);
                        lemma_zap_out_swaps_fails(all, start, fee_view, contract@, i + 1);
                    }
                    return Err(
                        ContractError::Zapper(ZapperError::ZapOutNotEnoughBalanceToSwap),
                    );
                }
                let swap = match create_osmosis_swap_msg(
                    contract.clone(),
                    coin(0, &route.token_in),
                    clone_operations(&route.operations),
                    route.minimum_receive,
                ) {
                    Ok(msg) => msg,
                    Err(e) => {
                        proof {
                            assert(!pools_valid(route@.operations));
                            assert(route_step(plan, route@, fee_view, contract@) is Err);
                            lemma_zap_out_swaps_fails(all, start, fee_view, contract@, i + 1);
                        }
                        return Err(e);
                    },
                };
                msgs.push(swap);
                assert(msgs.deep_view() =~= plan.msgs + Seq::<CallView>::empty() + seq![swap@]);
            },
            Some(k) => {
                let held = assets[k].clone();
                assert(held@ == plan.assets[k as int]);
                assert(zap_out_swaps(all.take(i + 1), start, fee_view, contract@) == route_step(
                    plan,
                    route@,
                    fee_view,
                    contract@,
                ));
                if held.amount() < route.offer_amount {
                    proof {
                        assert(route_step(plan, route@, fee_view, contract@) is Err);
                        lemma_zap_out_swaps_fails(all, start, fee_view, contract@, i + 1);
                    }
                    return Err(
                        ContractError::Zapper(ZapperError::ZapOutNotEnoughBalanceToSwap),
                    );
                }
                let rest = held.amount() - route.offer_amount;
                proof {
                    lemma_fee_bounded(route.offer_amount, fee_view);
                }
                let (amount_to_swap, fee_msg) = apply_fee(&held, route.offer_amount, fee);
                let swap = match create_osmosis_swap_msg(
                    contract.clone(),
                    coin(amount_to_swap, &route.token_in),
                    clone_operations(&route.operations),
                    route.minimum_receive,
                ) {
                    Ok(msg) => msg,
                    Err(e) => {
                        proof {
                            assert(!pools_valid(route@.operations));
                            assert(route_step(plan, route@, fee_view, contract@) is Err);
                            lemma_zap_out_swaps_fails(all, start, fee_view, contract@, i + 1);
                        }
                        return Err(e);
                    },
                };
                let left = held.with_amount(rest);
                assets.set(k, left);
                assert(assets.deep_view() =~= plan.assets.update(k as int, left@));
                match fee_msg {
                    Some(msg) => {
                        msgs.push(msg);
                    },
                    None => {},
                }
                let ghost with_fee = msgs.deep_view();
                assert(with_fee =~= plan.msgs + fee_transfers(
                    held@,
                    route.offer_amount,
                    fee_view,
                ));
                msgs.push(swap);
                assert(msgs.deep_view() =~= with_fee + seq![swap@]);
            },
        }
        i += 1;
    }
    assert(all.take(routes.len() as int) =~= all);
    Ok(msgs)
}

/// Continues a zap-out once the withdrawal of its position is reported.
///
/// On an error nothing is changed.
pub fn reply_withdraw_position(deps: &mut Deps, env: Env, msg: Reply) -> (r: ContractResult<
    Response,
>)
    requires
        old(deps).storage.wf(),
    ensures
        final(deps).storage.wf(),
        final(deps).querier == old(deps).querier,
        r is Err ==> *final(deps) == *old(deps),
        outcome(r, final(deps).storage@) == withdrawal_reply(
            old(deps).storage@,
            old(deps).querier.balances.deep_view(),
            env.contract.address@,
            msg.result@,
        ),
{
    match msg.result {
        SubMsgResult::Success(_) => {
            let mut msgs: Vec<Call>;
            match &deps.storage.pending_zap_out {
                None => {
                    return Err(ContractError::Std(StdError::NotFound));
                },
                Some(pending) => {
                    let mut all_balances = match collect_received(deps) {
                        Ok(assets) => assets,
                        Err(e) => {
                            return Err(e);
                        },
                    };
                    msgs = match plan_zap_out_swaps(
                        &pending.routes,
                        &mut all_balances,
                        &deps.storage.protocol_fee,
                        &env.contract.address,
                    ) {
                        Ok(msgs) => msgs,
                        Err(e) => {
                            return Err(e);
                        },
                    };
                    let ghost swaps = msgs.deep_view();
                    let call = Call::Execute {
                        contract_addr: env.contract.address.clone(),
                        msg: ExecuteMsg::TransferFundsBack { receiver: pending.receiver.clone() },
                    };
                    msgs.push(call);
                    assert(msgs.deep_view() =~= swaps + seq![
                        transfer_funds_back_call(env.contract.address@, pending.receiver@),
                    ]);
                },
            }
            deps.storage.pending_zap_out = None;
            Ok(Response::new().add_messages(msgs))
        },
        SubMsgResult::Failure(e) => Err(ContractError::WithdrawPositionError(e)),
    }
}

} // verus!

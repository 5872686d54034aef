//! Zap-in and zap-out: the handlers that start an operation, and the one
//! that creates the position of a zap-in.

use crate::asset::{Asset, AssetView};
use crate::coin::{coin, NativeCoin, NativeCoinView};
use crate::deposit::{deposit_of, take_deposit};
use crate::error::{
    checked_sub, route_error, underflow, ContractError, ContractErrorView, ContractResult,
};
use crate::fee::{apply_fee, fee_transfers, lemma_fee_bounded, net_of};
use crate::helper::{create_osmosis_swap_msg, floor_of, swap_msg};
use crate::host::{
    balance_of, outcome, position_of, Call, CallView, Deps, Env, MessageInfo,
    PositionDetail, PositionDetailView, Response, ResponseView, SubMsg,
};
use crate::math::{tick_bits, tick_to_signed};
use crate::msg::{ExecuteMsg, ExecuteMsgView, PositionParams};
use crate::snapshot::{lemma_record, record, recorded, SnapBalances, Snapshots};
use crate::state::{
    diff, diff_of, snapshot, PendingPosition, PendingPositionView, PendingZapOut,
    PendingZapOutView, StorageView,
};
use crate::swap::{
    all_pools_valid, clone_operations, routes_verdict, validate_routes, Route, RouteView,
};
use vstd::prelude::*;

verus! {

/// The identifier under which the creation of a position reports back.
pub const CREATE_POSITION_ID: u64 = 1;

/// The identifier under which the withdrawal of a position reports back.
pub const WITHDRAW_POSITION_ID: u64 = 2;

/// The swap calls of a zap-in: one for each route, in order, each offering
/// the route's amount of the deposit's denomination.
pub open spec fn zap_in_swaps(contract: Seq<char>, denom: Seq<char>, routes: Seq<RouteView>) -> Seq<
    CallView,
> {
    Seq::new(
        routes.len(),
        |i: int|
            swap_msg(
                contract,
                NativeCoinView { denom, amount: routes[i].offer_amount },
                routes[i].operations,
                routes[i].minimum_receive,
            ),
    )
}

/// The balance to record for `token` at the start of a zap-in: what the
/// account holds of it, less the deposit where the deposit is of `token`.
pub open spec fn balance_without_deposit(held: AssetView, token: Seq<char>, deposit: AssetView)
    -> Result<u128, ContractErrorView> {
    if deposit.denom == token {
        if held.amount >= deposit.amount {
            Ok((held.amount - deposit.amount) as u128)
        } else {
            Err(underflow())
        }
    } else {
        Ok(held.amount)
    }
}

/// The request by which the orchestrator asks itself to create a position.
pub open spec fn create_position_call(contract: Seq<char>, params: PositionParams)
    -> CallView {
    CallView::Execute {
        contract_addr: contract,
        msg: ExecuteMsgView::CreatePosition { params },
    }
}

/// The state that the start of a zap-in leaves: the two pool tokens are
/// recorded with the balances `base_0` and `base_1`, and the pending record
/// names the sender as receiver.
pub open spec fn zap_in_state(
    storage: StorageView,
    sender: Seq<char>,
    params: PositionParams,
    base_0: u128,
    base_1: u128,
) -> StorageView {
    StorageView {
        snap_balances: record(
            record(storage.snap_balances, params.token_0, base_0),
            params.token_1,
            base_1,
        ),
        pending_position: Some(
            PendingPositionView {
                receiver: sender,
                pool_id: params.pool_id,
                token_0: params.token_0,
                token_1: params.token_1,
            },
        ),
        ..storage
    }
}

/// The calls of the start of a zap-in: the fee's transfer, one swap for
/// each route, and the request to create the position.
pub open spec fn zap_in_calls(
    storage: StorageView,
    contract: Seq<char>,
    params: PositionParams,
    deposit: AssetView,
    routes: Seq<RouteView>,
) -> Seq<CallView> {
    fee_transfers(deposit, deposit.amount, storage.protocol_fee) + zap_in_swaps(
        contract,
        deposit.denom,
        routes,
    ) + seq![create_position_call(contract, params)]
}

/// What the start of a zap-in does.
///
/// It fails with the first of these that applies: the deposit cannot be
/// settled; the routes offer more than the fee leaves of the deposit, or
/// one has no hop; the balance of a pool token cannot be had; the account
/// holds less of a pool token than the deposit that is of it; a pool
/// reference is no pool identifier. Otherwise the balances of the two pool
/// tokens are recorded without the deposit, and the calls are those of
/// `zap_in_calls`.
pub open spec fn zap_in(
    storage: StorageView,
    balances: Seq<AssetView>,
    contract: Seq<char>,
    sender: Seq<char>,
    funds: Seq<NativeCoinView>,
    params: PositionParams,
    asset_in: Option<AssetView>,
    routes: Seq<RouteView>,
) -> Result<(StorageView, ResponseView), ContractErrorView> {
    let settled = deposit_of(asset_in, balances, sender, funds);
    let deposit = settled->Ok_0;
    let verdict = routes_verdict(routes, net_of(deposit.amount, storage.protocol_fee) as u128);
    let held_0 = balance_of(balances, params.token_0);
    let held_1 = balance_of(balances, params.token_1);
    let base_0 = balance_without_deposit(held_0->Ok_0, params.token_0, deposit);
    let base_1 = balance_without_deposit(held_1->Ok_0, params.token_1, deposit);
    if settled is Err {
        Err(settled->Err_0)
    } else if verdict is Err {
        Err(route_error(verdict->Err_0))
    } else if held_0 is Err {
        Err(held_0->Err_0)
    } else if held_1 is Err {
        Err(held_1->Err_0)
    } else if base_0 is Err {
        Err(base_0->Err_0)
    } else if base_1 is Err {
        Err(base_1->Err_0)
    } else if !all_pools_valid(routes) {
        Err(ContractErrorView::ParseIntPoolID)
    } else {
        Ok(
            (
                zap_in_state(storage, sender, params, base_0->Ok_0, base_1->Ok_0),
                ResponseView::of_messages(zap_in_calls(storage, contract, params, deposit, routes)),
            ),
        )
    }
}

/// Builds the swap calls of a zap-in.
fn build_zap_in_swaps(contract: &String, denom: &String, routes: &Vec<Route>) -> (r: ContractResult<
    Vec<Call>,
>)
    ensures
        match r {
            Ok(msgs) => all_pools_valid(routes.deep_view()) && msgs.deep_view() == zap_in_swaps(
                contract@,
                denom@,
                routes.deep_view(),
            ),
            Err(e) => !all_pools_valid(routes.deep_view()) && e@
                == ContractErrorView::ParseIntPoolID,
        },
{
    let ghost all = routes.deep_view();
    let mut msgs: Vec<Call> = Vec::new();
    let mut i: usize = 0;
    while i < routes.len()
        invariant
            all == routes.deep_view(),
            i <= routes.len(),
            msgs.len() == i,
            forall|j: int| 0 <= j < i ==> pools_valid_at(all, j),
            forall|j: int|
                0 <= j < i ==> (#[trigger] msgs[j])@ == zap_in_swaps(contract@, denom@, all)[j],
        decreases routes.len() - i,
    {
        assert(all[i as int] == routes[i as int]@);
        let swap = create_osmosis_swap_msg(
            contract.clone(),
            coin(routes[i].offer_amount, denom),
            clone_operations(&routes[i].operations),
            routes[i].minimum_receive,
        );
        match swap {
            Ok(msg) => {
                msgs.push(msg);
            },
            Err(e) => {
                assert(!pools_valid_at(all, i as int));
                return Err(e);
            },
        }
        i += 1;
    }
    assert(msgs.deep_view() =~= zap_in_swaps(contract@, denom@, all));
    assert forall|j: int| 0 <= j < all.len() implies crate::swap::pools_valid(
        #[trigger] all[j].operations,
    ) by {
        assert(pools_valid_at(all, j));
    }
    Ok(msgs)
}

/// The position parameters of a request.
pub open spec fn position_params(
    pool_id: u64,
    token_0: Seq<char>,
    token_1: Seq<char>,
    lower_tick: u64,
    upper_tick: u64,
    token_min_amount_0: Option<u128>,
    token_min_amount_1: Option<u128>,
) -> PositionParams {
    PositionParams {
        pool_id,
        token_0,
        token_1,
        lower_tick,
        upper_tick,
        token_min_amount_0,
        token_min_amount_1,
    }
}

/// Starts a zap-in: takes the fee of the deposit, asks for the swaps and
/// for the creation of the position, and records what is pending.
///
/// On an error nothing is changed.
pub fn zap_in_liquidity(
    deps: &mut Deps,
    env: Env,
    info: MessageInfo,
    pool_id: u64,
    token_0: String,
    token_1: String,
    lower_tick: u64,
    upper_tick: u64,
    token_min_amount_0: Option<u128>,
    token_min_amount_1: Option<u128>,
    asset_in: Option<Asset>,
    routes: Vec<Route>,
) -> (r: ContractResult<Response>)
    requires
        old(deps).storage.wf(),
    ensures
        final(deps).storage.wf(),
        final(deps).querier == old(deps).querier,
        r is Err ==> *final(deps) == *old(deps),
        outcome(r, final(deps).storage@) == zap_in(
            old(deps).storage@,
            old(deps).querier.balances.deep_view(),
            env.contract.address@,
            info.sender@,
            info.funds.deep_view(),
            position_params(
                pool_id,
                token_0@,
                token_1@,
                lower_tick,
                upper_tick,
                token_min_amount_0,
                token_min_amount_1,
            ),
            asset_in.deep_view(),
            routes.deep_view(),
        ),
{
    let ghost fee = deps.storage@.protocol_fee;
    let ghost start = deps.storage@;
    let ghost params = position_params(
        pool_id,
        token_0@,
        token_1@,
        lower_tick,
        upper_tick,
        token_min_amount_0,
        token_min_amount_1,
    );
    let asset_in = match take_deposit(asset_in, deps, &env, &info) {
        Ok(asset) => asset,
        Err(e) => {
            return Err(e);
        },
    };
    proof {
        lemma_fee_bounded(asset_in@.amount, fee);
    }
    let (amount_after_fee, fee_msg) = apply_fee(
        &asset_in,
        asset_in.amount(),
        &deps.storage.protocol_fee,
    );
    match validate_routes(routes.as_slice(), amount_after_fee) {
        Ok(()) => {},
        Err(e) => {
            return Err(ContractError::from_route_error(e));
        },
    }
    let balance_0 = match deps.querier.balance(&token_0) {
        Ok(asset) => asset,
        Err(e) => {
            return Err(e);
        },
    };
    let balance_1 = match deps.querier.balance(&token_1) {
        Ok(asset) => asset,
        Err(e) => {
            return Err(e);
        },
    };
    let mut base_0 = balance_0.amount();
    if *asset_in.denom() == token_0 {
        base_0 = match checked_sub(base_0, asset_in.amount()) {
            Ok(rest) => rest,
            Err(e) => {
                return Err(e);
            },
        };
    }
    let mut base_1 = balance_1.amount();
    if *asset_in.denom() == token_1 {
        base_1 = match checked_sub(base_1, asset_in.amount()) {
            Ok(rest) => rest,
            Err(e) => {
                return Err(e);
            },
        };
    }
    let mut swaps = match build_zap_in_swaps(&env.contract.address, asset_in.denom(), &routes) {
        Ok(msgs) => msgs,
        Err(e) => {
            return Err(e);
        },
    };
    let mut msgs: Vec<Call> = Vec::new();
    match fee_msg {
        Some(msg) => {
            msgs.push(msg);
        },
        None => {},
    }
    let ghost fee_part = msgs.deep_view();
    let ghost swap_part = swaps.deep_view();
    assert(fee_part =~= fee_transfers(asset_in@, asset_in@.amount, fee));
    msgs.append(&mut swaps);
    let call = Call::Execute {
        contract_addr: env.contract.address.clone(),
        msg: ExecuteMsg::CreatePosition {
            pool_id,
            token_0: token_0.clone(),
            token_1: token_1.clone(),
            lower_tick,
            upper_tick,
            token_min_amount_0,
            token_min_amount_1,
        },
    };
    assert(call@ == create_position_call(env.contract.address@, params));
    msgs.push(call);
    assert(msgs.deep_view() =~= fee_part + swap_part + seq![
        create_position_call(env.contract.address@, params),
    ]);
    proof {
        lemma_record(start.snap_balances, token_0@, base_0);
        lemma_record(record(start.snap_balances, token_0@, base_0), token_1@, base_1);
    }
    deps.storage.snap_balances.save(&token_0, base_0);
    deps.storage.snap_balances.save(&token_1, base_1);
    deps.storage.pending_position = Some(
        PendingPosition { receiver: info.sender, pool_id, token_0, token_1 },
    );
    let response = Response::new().add_messages(msgs);
    assert(response@ =~= ResponseView::of_messages(
        fee_part + swap_part + seq![create_position_call(env.contract.address@, params)],
    ));
    Ok(response)
}

/// The coins handed to a position for one token: the amount, where it is
/// positive.
pub open spec fn provided(token: Seq<char>, amount: u128) -> Seq<NativeCoinView> {
    if amount > 0 {
        seq![NativeCoinView { denom: token, amount }]
    } else {
        Seq::empty()
    }
}

/// The call that creates a position from `amount_0` and `amount_1` of the
/// two pool tokens.
pub open spec fn create_position_msg(
    contract: Seq<char>,
    params: PositionParams,
    amount_0: u128,
    amount_1: u128,
) -> CallView {
    CallView::CreatePosition {
        pool_id: params.pool_id,
        sender: contract,
        lower_tick: tick_bits(params.lower_tick) as i64,
        upper_tick: tick_bits(params.upper_tick) as i64,
        tokens_provided: provided(params.token_0, amount_0) + provided(params.token_1, amount_1),
        token_min_amount0: floor_of(params.token_min_amount_0),
        token_min_amount1: floor_of(params.token_min_amount_1),
    }
}

/// What the creation of a zap-in's position does.
///
/// Only the orchestrator itself may ask for it. The position is created
/// from what the account holds of the two pool tokens above the recorded
/// balances, and its success is reported back. The state stays as it is.
pub open spec fn position_creation(
    storage: StorageView,
    balances: Seq<AssetView>,
    contract: Seq<char>,
    sender: Seq<char>,
    params: PositionParams,
) -> Result<(StorageView, ResponseView), ContractErrorView> {
    if sender != contract {
        Err(ContractErrorView::Unauthorized)
    } else {
        match diff_of(storage.snap_balances, balances, params.token_0) {
            Err(e) => Err(e),
            Ok(delta_0) => match diff_of(storage.snap_balances, balances, params.token_1) {
                Err(e) => Err(e),
                Ok(delta_1) => Ok(
                    (
                        storage,
                        ResponseView::of_awaited(
                            create_position_msg(contract, params, delta_0.amount, delta_1.amount),
                            CREATE_POSITION_ID,
                        ),
                    ),
                ),
            },
        }
    }
}

/// Creates the position of a zap-in from what its swaps left on the
/// account. Fails with `Unauthorized` unless the orchestrator itself asks.
pub fn create_position(
    deps: &mut Deps,
    env: Env,
    info: MessageInfo,
    pool_id: u64,
    token_0: String,
    token_1: String,
    lower_tick: u64,
    upper_tick: u64,
    token_min_amount_0: Option<u128>,
    token_min_amount_1: Option<u128>,
) -> (r: ContractResult<Response>)
    requires
        old(deps).storage.wf(),
    ensures
        *final(deps) == *old(deps),
        info.sender@ != env.contract.address@ ==> r is Err && r->Err_0@
            == ContractErrorView::Unauthorized,
        outcome(r, final(deps).storage@) == position_creation(
            old(deps).storage@,
            old(deps).querier.balances.deep_view(),
            env.contract.address@,
            info.sender@,
            position_params(
                pool_id,
                token_0@,
                token_1@,
                lower_tick,
                upper_tick,
                token_min_amount_0,
                token_min_amount_1,
            ),
        ),
{
    if !(info.sender == env.contract.address) {
        return Err(ContractError::Unauthorized);
    }
    let delta_0 = match diff(deps, &token_0) {
        Ok(asset) => asset.amount(),
        Err(e) => {
            return Err(e);
        },
    };
    let delta_1 = match diff(deps, &token_1) {
        Ok(asset) => asset.amount(),
        Err(e) => {
            return Err(e);
        },
    };
    let mut tokens_provided: Vec<NativeCoin> = Vec::new();
    if delta_0 != 0 {
        tokens_provided.push(coin(delta_0, &token_0));
    }
    if delta_1 != 0 {
        tokens_provided.push(coin(delta_1, &token_1));
    }
    assert(tokens_provided.deep_view() =~= provided(token_0@, delta_0) + provided(
        token_1@,
        delta_1,
    ));
    let msg_create_pos = Call::CreatePosition {
        pool_id,
        sender: env.contract.address.clone(),
        lower_tick: tick_to_signed(lower_tick),
        upper_tick: tick_to_signed(upper_tick),
        tokens_provided,
        token_min_amount0: match token_min_amount_0 {
            Some(m) => m,
            None => 0,
        },
        token_min_amount1: match token_min_amount_1 {
            Some(m) => m,
            None => 0,
        },
    };
    let response = Response::new().add_submessage(
        SubMsg::reply_on_success(msg_create_pos, CREATE_POSITION_ID),
    );
    assert(response@ =~= ResponseView::of_awaited(msg_create_pos@, CREATE_POSITION_ID));
    Ok(response)
}

/// The denominations that the routes end in, in the order of the routes;
/// a route without a hop ends in none.
pub open spec fn ask_denoms(routes: Seq<RouteView>) -> Seq<Seq<char>>
    decreases routes.len(),
{
    if routes.len() == 0 {
        Seq::empty()
    } else {
        ask_denoms(routes.drop_last()) + match routes.last().ask_denom() {
            Some(denom) => seq![denom],
            None => Seq::empty(),
        }
    }
}

/// The denominations whose balances a zap-out records before it withdraws:
/// the two tokens of the position, the incentives that can be claimed, and
/// what the routes end in.
pub open spec fn zap_out_denoms(position: PositionDetailView, routes: Seq<RouteView>) -> Seq<
    Seq<char>,
> {
    seq![position.token_0, position.token_1] + position.claimable_incentives + ask_denoms(routes)
}

/// The table after the balances of `denoms` are recorded one after the
/// other; the error of the first balance that cannot be had.
pub open spec fn snapshot_all(
    entries: Snapshots,
    balances: Seq<AssetView>,
    denoms: Seq<Seq<char>>,
) -> Result<Snapshots, ContractErrorView>
    decreases denoms.len(),
{
    if denoms.len() == 0 {
        Ok(entries)
    } else {
        match snapshot_all(entries, balances, denoms.drop_last()) {
            Err(e) => Err(e),
            Ok(table) => snapshot(table, balances, denoms.last()),
        }
    }
}

/// Once recording fails on the first `k` denominations, it fails in the
/// same way on all of them.
pub proof fn lemma_snapshot_all_fails(
    entries: Snapshots,
    balances: Seq<AssetView>,
    denoms: Seq<Seq<char>>,
    k: int,
)
    requires
        0 <= k <= denoms.len(),
        snapshot_all(entries, balances, denoms.take(k)) is Err,
    ensures
        snapshot_all(entries, balances, denoms) == snapshot_all(entries, balances, denoms.take(k)),
    decreases denoms.len(),
{
    if k == denoms.len() {
        assert(denoms.take(k) =~= denoms);
    } else {
        assert(denoms.drop_last().take(k) =~= denoms.take(k));
        lemma_snapshot_all_fails(entries, balances, denoms.drop_last(), k);
    }
}

/// What the start of a zap-out does.
///
/// The position must be the one that was seen. The table of recorded
/// balances is emptied and then holds the balances of the denominations of
/// `zap_out_denoms`. The pending record names the sender as receiver and
/// keeps the routes. The one call withdraws all of the position's
/// liquidity, and its success is reported back.
pub open spec fn zap_out(
    storage: StorageView,
    balances: Seq<AssetView>,
    position: Option<PositionDetailView>,
    contract: Seq<char>,
    sender: Seq<char>,
    position_id: u64,
    routes: Seq<RouteView>,
) -> Result<(StorageView, ResponseView), ContractErrorView> {
    match position_of(position, position_id) {
        Err(e) => Err(e),
        Ok(found) => match snapshot_all(
            Snapshots::empty(),
            balances,
            zap_out_denoms(found, routes),
        ) {
            Err(e) => Err(e),
            Ok(table) => Ok(
                (
                    StorageView {
                        snap_balances: table,
                        pending_zap_out: Some(PendingZapOutView { receiver: sender, routes }),
                        ..storage
                    },
                    ResponseView::of_awaited(
                        CallView::WithdrawPosition {
                            position_id,
                            sender: contract,
                            liquidity_amount: found.liquidity,
                        },
                        WITHDRAW_POSITION_ID,
                    ),
                ),
            ),
        },
    }
}

/// Lists the denominations that the routes end in.
fn collect_ask_denoms(denoms: &mut Vec<String>, routes: &Vec<Route>)
    ensures
        final(denoms).deep_view() == old(denoms).deep_view() + ask_denoms(routes.deep_view()),
{
    let ghost all = routes.deep_view();
    let ghost start = denoms.deep_view();
    let mut i: usize = 0;
    assert(ask_denoms(all.take(0)) =~= Seq::<Seq<char>>::empty());
    assert(denoms.deep_view() =~= start + ask_denoms(all.take(0)));
    while i < routes.len()
        invariant
            all == routes.deep_view(),
            i <= routes.len(),
            denoms.deep_view() == start + ask_denoms(all.take(i as int)),
        decreases routes.len() - i,
    {
        proof {
            assert(all.take(i + 1).drop_last() =~= all.take(i as int));
            assert(all.take(i + 1).last() == routes[i as int]@);
        }
        let ghost before = denoms.deep_view();
        let n = routes[i].operations.len();
        if n > 0 {
            let denom = routes[i].operations[n - 1].denom_out.clone();
            denoms.push(denom);
            assert(denoms.deep_view() =~= before.push(denom@));
            assert(routes[i as int]@.ask_denom() == Some(denom@));
        } else {
            assert(routes[i as int]@.ask_denom() is None);
        }
        assert(denoms.deep_view() =~= start + ask_denoms(all.take(i + 1)));
        i += 1;
    }
    assert(all.take(routes.len() as int) =~= all);
}

/// Lists the denominations whose balances a zap-out records.
pub fn list_zap_out_denoms(position: &PositionDetail, routes: &Vec<Route>) -> (denoms: Vec<String>)
    ensures
        denoms.deep_view() == zap_out_denoms(position@, routes.deep_view()),
{
    let ghost found = position@;
    let mut denoms: Vec<String> = Vec::new();
    denoms.push(position.token_0.clone());
    denoms.push(position.token_1.clone());
    let mut i: usize = 0;
    while i < position.claimable_incentives.len()
        invariant
            i <= position.claimable_incentives.len(),
            denoms.len() == 2 + i,
            denoms[0]@ == position.token_0@,
            denoms[1]@ == position.token_1@,
            forall|j: int|
                0 <= j < i ==> (#[trigger] denoms[2 + j])@ == position.claimable_incentives[j]@,
        decreases position.claimable_incentives.len() - i,
    {
        denoms.push(position.claimable_incentives[i].clone());
        i += 1;
    }
    proof {
        let listed = denoms.deep_view();
        let expected = seq![found.token_0, found.token_1] + found.claimable_incentives;
        assert(listed.len() == expected.len());
        assert forall|j: int| 0 <= j < listed.len() implies listed[j] == expected[j] by {
            if j >= 2 {
                assert(denoms[2 + (j - 2)]@ == position.claimable_incentives[j - 2]@);
            }
        }
        assert(listed =~= expected);
    }
    collect_ask_denoms(&mut denoms, routes);
    denoms
}

/// Records the balances of `denoms` in an empty table.
fn snapshot_denoms(deps: &Deps, denoms: &Vec<String>) -> (r: Result<SnapBalances, ContractError>)
    ensures
        match r {
            Ok(table) => table.wf() && snapshot_all(
                Snapshots::empty(),
                deps.querier.balances.deep_view(),
                denoms.deep_view(),
            ) == Ok::<Snapshots, ContractErrorView>(table@),
            Err(e) => snapshot_all(
                Snapshots::empty(),
                deps.querier.balances.deep_view(),
                denoms.deep_view(),
            ) == Err::<Snapshots, ContractErrorView>(e@),
        },
{
    let ghost all = denoms.deep_view();
    let ghost balances = deps.querier.balances.deep_view();
    let mut table = SnapBalances::new();
    let mut i: usize = 0;
    while i < denoms.len()
        invariant
            all == denoms.deep_view(),
            balances == deps.querier.balances.deep_view(),
            i <= denoms.len(),
            table.wf(),
            snapshot_all(Snapshots::empty(), balances, all.take(i as int)) == Ok::<
                Snapshots,
                ContractErrorView,
            >(table@),
        decreases denoms.len() - i,
    {
        proof {
            assert(all.take(i + 1).drop_last() =~= all.take(i as int));
            assert(all.take(i + 1).last() == denoms[i as int]@);
        }
        match deps.querier.balance(&denoms[i]) {
            Ok(asset) => {
                table.save(&denoms[i], asset.amount());
            },
            Err(e) => {
                proof {
                    lemma_snapshot_all_fails(Snapshots::empty(), balances, all, i + 1);
                }
                return Err(e);
            },
        }
        i += 1;
    }
    assert(all.take(denoms.len() as int) =~= all);
    Ok(table)
}

/// Starts a zap-out of the position `position_id`, which the orchestrator
/// must own: records the balances that the withdrawal will change, keeps
/// the routes for later, and asks for the withdrawal.
///
/// On an error nothing is changed.
pub fn zap_out_liquidity(
    deps: &mut Deps,
    env: Env,
    info: MessageInfo,
    position_id: u64,
    routes: Vec<Route>,
) -> (r: ContractResult<Response>)
    requires
        old(deps).storage.wf(),
    ensures
        final(deps).storage.wf(),
        final(deps).querier == old(deps).querier,
        r is Err ==> *final(deps) == *old(deps),
        outcome(r, final(deps).storage@) == zap_out(
            old(deps).storage@,
            old(deps).querier.balances.deep_view(),
            old(deps).querier.position_view(),
            env.contract.address@,
            info.sender@,
            position_id,
            routes.deep_view(),
        ),
{
    let denoms: Vec<String>;
    let liquidity_amount: String;
    let ghost found: PositionDetailView;
    match deps.querier.position_by_id(position_id) {
        Err(e) => {
            return Err(e);
        },
        Ok(position) => {
            proof {
                found = position@;
            }
            liquidity_amount = position.liquidity.clone();
            denoms = list_zap_out_denoms(position, &routes);
        },
    }
    let table = match snapshot_denoms(deps, &denoms) {
        Ok(table) => table,
        Err(e) => {
            return Err(e);
        },
    };
    deps.storage.snap_balances = table;
    deps.storage.pending_zap_out = Some(PendingZapOut { receiver: info.sender, routes });
    let msg = Call::WithdrawPosition {
        position_id,
        sender: env.contract.address.clone(),
        liquidity_amount,
    };
    let response = Response::new().add_submessage(
        SubMsg::reply_on_success(msg, WITHDRAW_POSITION_ID),
    );
    assert(response@ =~= ResponseView::of_awaited(msg@, WITHDRAW_POSITION_ID));
    Ok(response)
}

/// Whether every hop of the route at place `i` names a pool by a pool
/// identifier.
pub open spec fn pools_valid_at(routes: Seq<RouteView>, i: int) -> bool {
    crate::swap::pools_valid(routes[i].operations)
}

} // verus!

//! What holds of the handlers taken together.

use crate::asset::{lemma_find_asset, AssetView};
use crate::coin::NativeCoinView;
use crate::contract::{
    answer, continuation, execution, fee_registration, funds_return, funds_return_state, is_admin,
    refunds, state_after_failure,
};
use crate::deposit::deposit_of;
use crate::error::{ContractErrorView, StdError, ZapperError};
use crate::fee::{fee_of, fee_transfers, lemma_fee_bounded, net_of, transfer_of};
use crate::host::{
    balance_of, position_of, CallView, PositionDetailView, ResponseView, SubMsgResultView,
};
use crate::math::Decimal;
use crate::msg::{
    Cw20HookMsgView, ExecuteMsgView, PositionParams, QueryMsg, QueryResponseView,
};
use crate::plan::{balances_read, balances_read_by_reply, recorded_denoms};
use crate::reply::{entry_delta, received};
use crate::snapshot::{
    has_key, index_of, keys_unique, lemma_index_of, lemma_record, record, recorded, sorted,
    Snapshots,
};
use crate::state::{diff_of, snapshot, ProtocolFeeView, StorageView};
use crate::swap::{routes_verdict, some_route_empty, total_offer, RouteView};
use crate::zap::{snapshot_all, zap_in, CREATE_POSITION_ID, WITHDRAW_POSITION_ID};
use vstd::prelude::*;

verus! {

/// The balance found for a denomination is of that denomination.
pub proof fn lemma_balance_denom(balances: Seq<AssetView>, denom: Seq<char>)
    ensures
        balance_of(balances, denom) matches Ok(held) ==> held.denom == denom,
{
    lemma_find_asset(balances, denom);
}

/// Without a fee, or with a fee of zero, nothing is taken of an amount and
/// no call is made; a valid fee never takes more than the amount.
pub proof fn lemma_no_fee_identity(asset: AssetView, gross: u128, fee: Option<ProtocolFeeView>)
    requires
        fee matches Some(f) ==> f.percent.below_one(),
    ensures
        fee_of(gross, fee) + net_of(gross, fee) == gross,
        0 <= net_of(gross, fee) <= gross,
        (fee is None || fee->Some_0.percent.is_zero()) ==> net_of(gross, fee) == gross
            && fee_transfers(asset, gross, fee) == Seq::<CallView>::empty(),
{
    lemma_fee_bounded(gross, fee);
}

/// For the owner, the registration of a fee fails with `InvalidFee` exactly
/// where the fee is 100% or more; a fee below that is set, and a query
/// returns it unchanged.
pub proof fn lemma_fee_round_trip(
    storage: StorageView,
    sender: Seq<char>,
    percent: Decimal,
    fee_receiver: Seq<char>,
)
    requires
        is_admin(storage.owner, sender),
    ensures
        !percent.below_one() <==> fee_registration(storage, sender, percent, fee_receiver) == Err::<
            (StorageView, ResponseView),
            ContractErrorView,
        >(ContractErrorView::Zapper(ZapperError::InvalidFee)),
        percent.below_one() ==> fee_registration(storage, sender, percent, fee_receiver) is Ok
            && answer(
            fee_registration(storage, sender, percent, fee_receiver)->Ok_0.0,
            QueryMsg::ProtocolFee {  },
        ) == Ok::<QueryResponseView, StdError>(
            QueryResponseView::ProtocolFee(ProtocolFeeView { percent, fee_receiver }),
        ),
{
}

/// Right after the balance of a denomination is recorded, and with the
/// balances as they were, the account holds nothing of it above the record.
pub proof fn lemma_snapshot_then_diff(
    entries: Snapshots,
    balances: Seq<AssetView>,
    denom: Seq<char>,
)
    requires
        sorted(entries),
        snapshot(entries, balances, denom) is Ok,
    ensures
        diff_of(snapshot(entries, balances, denom)->Ok_0, balances, denom) matches Ok(delta)
            && delta.amount == 0,
{
    let held = balance_of(balances, denom)->Ok_0;
    lemma_record(entries, denom, held.amount);
}

/// Validation fails with `InvalidFund` exactly where the routes offer more
/// than is available. Where they do not, it fails with
/// `SwapOperationsEmpty` exactly where a route has no hop.
pub proof fn lemma_route_validation(routes: Seq<RouteView>, available: u128)
    ensures
        routes_verdict(routes, available) == Err::<(), ZapperError>(ZapperError::InvalidFund)
            <==> total_offer(routes) > available,
        total_offer(routes) <= available ==> (routes_verdict(routes, available) == Err::<
            (),
            ZapperError,
        >(ZapperError::SwapOperationsEmpty) <==> some_route_empty(routes)),
        routes_verdict(routes, available) is Ok <==> total_offer(routes) <= available
            && !some_route_empty(routes),
{
}

/// The two requests that the orchestrator sends to itself fail with
/// `Unauthorized` for every other sender.
pub proof fn lemma_self_calls_only(
    storage: StorageView,
    balances: Seq<AssetView>,
    position: Option<PositionDetailView>,
    contract: Seq<char>,
    sender: Seq<char>,
    funds: Seq<NativeCoinView>,
    params: PositionParams,
    receiver: Seq<char>,
)
    requires
        sender != contract,
    ensures
        execution(
            storage,
            balances,
            position,
            contract,
            sender,
            funds,
            ExecuteMsgView::CreatePosition { params },
        ) == Err::<(StorageView, ResponseView), ContractErrorView>(
            ContractErrorView::Unauthorized,
        ),
        execution(
            storage,
            balances,
            position,
            contract,
            sender,
            funds,
            ExecuteMsgView::TransferFundsBack { receiver },
        ) == Err::<(StorageView, ResponseView), ContractErrorView>(
            ContractErrorView::Unauthorized,
        ),
{
}

/// Whether the call is a transfer of `denom`.
pub open spec fn is_transfer_of(msg: CallView, denom: Seq<char>) -> bool {
    match msg {
        CallView::Transfer { asset, .. } => asset.denom == denom,
        _ => false,
    }
}

/// Whether the call is a transfer to `receiver`.
pub open spec fn is_transfer_to(msg: CallView, receiver: Seq<char>) -> bool {
    match msg {
        CallView::Transfer { to_address, .. } => to_address == receiver,
        _ => false,
    }
}

/// The number of transfers of `denom` among `msgs`.
pub open spec fn count_transfers(msgs: Seq<CallView>, denom: Seq<char>) -> nat
    decreases msgs.len(),
{
    if msgs.len() == 0 {
        0
    } else {
        count_transfers(msgs.drop_last(), denom) + if is_transfer_of(msgs.last(), denom) {
            1nat
        } else {
            0nat
        }
    }
}

/// Where nothing is recorded twice, the difference of an entry is the
/// difference of its denomination.
pub proof fn lemma_entry_delta(entries: Snapshots, balances: Seq<AssetView>, i: int)
    requires
        keys_unique(entries),
        0 <= i < entries.len(),
    ensures
        diff_of(entries, balances, entries[i].0) == entry_delta(entries[i], balances),
{
    lemma_index_of(entries, entries[i].0, i);
}

/// Dropping the last entry leaves what is recorded for the other
/// denominations, and no record of the last one.
proof fn lemma_drop_last_entry(entries: Snapshots, denom: Seq<char>)
    requires
        keys_unique(entries),
        entries.len() > 0,
    ensures
        keys_unique(entries.drop_last()),
        denom != entries.last().0 ==> recorded(entries.drop_last(), denom) == recorded(
            entries,
            denom,
        ),
        denom == entries.last().0 ==> recorded(entries.drop_last(), denom) is None,
{
    let shorter = entries.drop_last();
    assert forall|i: int, j: int|
        0 <= i < shorter.len() && 0 <= j < shorter.len() && i != j implies (
    #[trigger] shorter[i]).0 != (#[trigger] shorter[j]).0 by {
        assert(shorter[i] == entries[i]);
        assert(shorter[j] == entries[j]);
    }
    if has_key(shorter, denom) {
        let k = index_of(shorter, denom);
        assert(shorter[k] == entries[k]);
        lemma_index_of(entries, denom, k);
        lemma_index_of(shorter, denom, k);
    } else if denom != entries.last().0 && has_key(entries, denom) {
        let k = index_of(entries, denom);
        assert(shorter[k] == entries[k]);
    }
}

/// When the refund step succeeds, each denomination of which the account
/// holds more than was recorded gets exactly one transfer, of the
/// difference and to the receiver; no other denomination gets a transfer,
/// and every call is a transfer to the receiver.
pub proof fn lemma_refunds_complete(
    entries: Snapshots,
    balances: Seq<AssetView>,
    receiver: Seq<char>,
    denom: Seq<char>,
)
    requires
        keys_unique(entries),
        refunds(entries, balances, receiver) is Ok,
    ensures
        ({
            let msgs = refunds(entries, balances, receiver)->Ok_0;
            &&& forall|k: int| 0 <= k < msgs.len() ==> is_transfer_to(#[trigger] msgs[k], receiver)
            &&& match diff_of(entries, balances, denom) {
                Ok(delta) => if delta.amount > 0 {
                    count_transfers(msgs, denom) == 1 && msgs.contains(
                        transfer_of(delta, delta.amount, receiver),
                    )
                } else {
                    count_transfers(msgs, denom) == 0
                },
                Err(_) => !has_key(entries, denom) && count_transfers(msgs, denom) == 0,
            }
        }),
    decreases entries.len(),
{
    let msgs = refunds(entries, balances, receiver)->Ok_0;
    if entries.len() > 0 {
        let shorter = entries.drop_last();
        let last = entries.last();
        let before = refunds(shorter, balances, receiver)->Ok_0;
        let delta = entry_delta(last, balances)->Ok_0;
        lemma_drop_last_entry(entries, denom);
        lemma_refunds_complete(shorter, balances, receiver, denom);
        lemma_balance_denom(balances, last.0);
        lemma_entry_delta(entries, balances, entries.len() - 1);
        if delta.amount > 0 {
            let t = transfer_of(delta, delta.amount, receiver);
            assert(msgs == before.push(t));
            assert(msgs.drop_last() =~= before);
            assert(msgs.last() == t);
            assert forall|k: int| 0 <= k < msgs.len() implies is_transfer_to(
                #[trigger] msgs[k],
                receiver,
            ) by {
                if k < before.len() {
                    assert(msgs[k] == before[k]);
                }
            }
            if denom == last.0 {
                assert(msgs[msgs.len() - 1] == t);
            } else {
                match diff_of(entries, balances, denom) {
                    Ok(d) => {
                        if d.amount > 0 {
                            let w = transfer_of(d, d.amount, receiver);
                            let k = choose|k: int| 0 <= k < before.len() && before[k] == w;
                            assert(msgs[k] == w);
                        }
                    },
                    Err(_) => {},
                }
            }
        } else {
            assert(msgs == before);
        }
        if denom != last.0 && has_key(entries, denom) {
            assert(has_key(shorter, denom)) by {
                let k = index_of(entries, denom);
                assert(shorter[k] == entries[k]);
            }
        }
        if denom != last.0 && has_key(shorter, denom) {
            let k = index_of(shorter, denom);
            assert(shorter[k] == entries[k]);
        }
    } else {
        assert(!has_key(entries, denom));
    }
}

/// After the refund step of the orchestrator itself the table of recorded
/// balances is empty, whether the step succeeds or fails; where it
/// succeeds, its calls are the refunds.
pub proof fn lemma_refund_clears(
    storage: StorageView,
    balances: Seq<AssetView>,
    contract: Seq<char>,
    receiver: Seq<char>,
)
    ensures
        funds_return_state(storage, contract, contract).snap_balances == Snapshots::empty(),
        state_after_failure(
            storage,
            contract,
            contract,
            ExecuteMsgView::TransferFundsBack { receiver },
        ).snap_balances == Snapshots::empty(),
        funds_return(storage, balances, contract, contract, receiver) matches Ok(done)
            ==> done.0.snap_balances == Snapshots::empty() && done.1 == ResponseView::of_messages(
            refunds(storage.snap_balances, balances, receiver)->Ok_0,
        ),
{
}

/// Nothing of a deposit is lost at the start of a zap-in.
///
/// Let the deposit be of one of the two pool tokens, and let the account
/// later hold of it what it held at the start less the fee and less what
/// the routes offer. Then the deposit is the fee, plus what the routes
/// offer, plus what the account then holds above the recorded balance:
/// what is left for the position and for the refund.
pub proof fn lemma_zap_in_conserves(
    storage: StorageView,
    balances: Seq<AssetView>,
    contract: Seq<char>,
    sender: Seq<char>,
    funds: Seq<NativeCoinView>,
    params: PositionParams,
    asset_in: Option<AssetView>,
    routes: Seq<RouteView>,
    later: Seq<AssetView>,
)
    requires
        storage.wf(),
        zap_in(storage, balances, contract, sender, funds, params, asset_in, routes) is Ok,
        ({
            let deposit = deposit_of(asset_in, balances, sender, funds)->Ok_0;
            &&& deposit.denom == params.token_0 || deposit.denom == params.token_1
            &&& balance_of(later, deposit.denom) is Ok
            &&& balance_of(later, deposit.denom)->Ok_0.amount == balance_of(
                balances,
                deposit.denom,
            )->Ok_0.amount - fee_of(deposit.amount, storage.protocol_fee) - total_offer(routes)
        }),
    ensures
        ({
            let deposit = deposit_of(asset_in, balances, sender, funds)->Ok_0;
            let after = zap_in(
                storage,
                balances,
                contract,
                sender,
                funds,
                params,
                asset_in,
                routes,
            )->Ok_0.0;
            &&& diff_of(after.snap_balances, later, deposit.denom) is Ok
            &&& deposit.amount == fee_of(deposit.amount, storage.protocol_fee) + total_offer(
                routes,
            ) + diff_of(after.snap_balances, later, deposit.denom)->Ok_0.amount
        }),
{
    let deposit = deposit_of(asset_in, balances, sender, funds)->Ok_0;
    let fee = storage.protocol_fee;
    lemma_fee_bounded(deposit.amount, fee);
    let held_0 = balance_of(balances, params.token_0)->Ok_0;
    let held_1 = balance_of(balances, params.token_1)->Ok_0;
    let base_0 = crate::zap::balance_without_deposit(held_0, params.token_0, deposit)->Ok_0;
    let base_1 = crate::zap::balance_without_deposit(held_1, params.token_1, deposit)->Ok_0;
    let first = record(storage.snap_balances, params.token_0, base_0);
    lemma_record(storage.snap_balances, params.token_0, base_0);
    lemma_record(first, params.token_1, base_1);
}

/// Whether two lists of balances show the same balance for each of
/// `denoms`.
pub open spec fn agree_on(a: Seq<AssetView>, b: Seq<AssetView>, denoms: Seq<Seq<char>>) -> bool {
    forall|i: int|
        0 <= i < denoms.len() ==> balance_of(a, #[trigger] denoms[i]) == balance_of(b, denoms[i])
}

/// Recording the balances of `denoms` reads no other balance.
pub proof fn lemma_snapshot_all_reads(
    entries: Snapshots,
    a: Seq<AssetView>,
    b: Seq<AssetView>,
    denoms: Seq<Seq<char>>,
)
    requires
        agree_on(a, b, denoms),
    ensures
        snapshot_all(entries, a, denoms) == snapshot_all(entries, b, denoms),
    decreases denoms.len(),
{
    if denoms.len() > 0 {
        let shorter = denoms.drop_last();
        assert forall|i: int| 0 <= i < shorter.len() implies balance_of(a, #[trigger] shorter[i])
            == balance_of(b, shorter[i]) by {
            assert(shorter[i] == denoms[i]);
        }
        lemma_snapshot_all_reads(entries, a, b, shorter);
        assert(denoms.last() == denoms[denoms.len() - 1]);
    }
}

/// The refunds read the balances of the recorded denominations only.
pub proof fn lemma_refunds_read(
    entries: Snapshots,
    a: Seq<AssetView>,
    b: Seq<AssetView>,
    receiver: Seq<char>,
)
    requires
        agree_on(a, b, recorded_denoms(entries)),
    ensures
        refunds(entries, a, receiver) == refunds(entries, b, receiver),
        received(entries, a) == received(entries, b),
    decreases entries.len(),
{
    if entries.len() > 0 {
        let shorter = entries.drop_last();
        let denoms = recorded_denoms(entries);
        assert forall|i: int| 0 <= i < shorter.len() implies balance_of(
            a,
            #[trigger] recorded_denoms(shorter)[i],
        ) == balance_of(b, recorded_denoms(shorter)[i]) by {
            assert(recorded_denoms(shorter)[i] == denoms[i]);
        }
        lemma_refunds_read(shorter, a, b, receiver);
        assert(denoms[entries.len() - 1] == entries.last().0);
    }
}

/// A request reads no balance but those of `balances_read`: with the same
/// state and the same balances of these denominations it does the same.
pub proof fn lemma_execution_reads(
    storage: StorageView,
    a: Seq<AssetView>,
    b: Seq<AssetView>,
    position: Option<PositionDetailView>,
    contract: Seq<char>,
    sender: Seq<char>,
    funds: Seq<NativeCoinView>,
    msg: ExecuteMsgView,
)
    requires
        agree_on(a, b, balances_read(storage, position, sender, msg)),
    ensures
        execution(storage, a, position, contract, sender, funds, msg) == execution(
            storage,
            b,
            position,
            contract,
            sender,
            funds,
            msg,
        ),
{
    let denoms = balances_read(storage, position, sender, msg);
    match msg {
        ExecuteMsgView::Receive(m) => {
            assert(denoms[0] == sender);
            match m.msg {
                Cw20HookMsgView::ZapInLiquidity { params, routes } => {
                    assert(denoms[1] == params.token_0);
                    assert(denoms[2] == params.token_1);
                },
            }
        },
        ExecuteMsgView::ZapInLiquidity { params, .. } => {
            assert(denoms[0] == params.token_0);
            assert(denoms[1] == params.token_1);
        },
        ExecuteMsgView::CreatePosition { params } => {
            assert(denoms[0] == params.token_0);
            assert(denoms[1] == params.token_1);
        },
        ExecuteMsgView::ZapOutLiquidity { position_id, routes } => {
            match position_of(position, position_id) {
                Ok(found) => {
                    lemma_snapshot_all_reads(Snapshots::empty(), a, b, denoms);
                },
                Err(_) => {},
            }
        },
        ExecuteMsgView::TransferFundsBack { receiver } => {
            lemma_refunds_read(storage.snap_balances, a, b, receiver);
        },
        _ => {},
    }
}

/// A continuation reads no balance but those of `balances_read_by_reply`.
pub proof fn lemma_continuation_reads(
    storage: StorageView,
    a: Seq<AssetView>,
    b: Seq<AssetView>,
    contract: Seq<char>,
    id: u64,
    result: SubMsgResultView,
)
    requires
        agree_on(a, b, balances_read_by_reply(storage, id)),
    ensures
        continuation(storage, a, contract, id, result) == continuation(
            storage,
            b,
            contract,
            id,
            result,
        ),
{
    let denoms = balances_read_by_reply(storage, id);
    if id == CREATE_POSITION_ID {
        match storage.pending_position {
            Some(pending) => {
                assert(denoms[0] == pending.token_0);
                assert(denoms[1] == pending.token_1);
            },
            None => {},
        }
    } else if id == WITHDRAW_POSITION_ID {
        lemma_refunds_read(storage.snap_balances, a, b, Seq::empty());
    }
}

} // verus!

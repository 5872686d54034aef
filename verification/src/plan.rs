//! What a handler needs to be shown of the chain before it runs.

use crate::host::{position_of, Deps, MessageInfo, PositionDetailView, Reply};
use crate::msg::{Cw20HookMsg, Cw20HookMsgView, ExecuteMsg, ExecuteMsgView};
use crate::snapshot::Snapshots;
use crate::state::StorageView;
use crate::zap::{zap_out_denoms, CREATE_POSITION_ID, WITHDRAW_POSITION_ID};
use vstd::prelude::*;

verus! {

/// The denominations that are recorded, in the order of the table.
pub open spec fn recorded_denoms(entries: Snapshots) -> Seq<Seq<char>> {
    Seq::new(entries.len(), |i: int| entries[i].0)
}

/// The position that a request reads, if it reads one.
pub open spec fn position_read(msg: ExecuteMsgView) -> Option<u64> {
    match msg {
        ExecuteMsgView::ZapOutLiquidity { position_id, .. } => Some(position_id),
        _ => None,
    }
}

/// The position that has to be seen before the request is handled.
pub fn position_to_query(msg: &ExecuteMsg) -> (r: Option<u64>)
    ensures
        r == position_read(msg@),
{
    match msg {
        ExecuteMsg::ZapOutLiquidity { position_id, .. } => Some(*position_id),
        _ => None,
    }
}

/// The denominations whose balances a request reads.
///
/// A zap-in reads the two pool tokens, and the token itself where a token
/// is deposited. The creation of a position reads the two pool tokens. A
/// zap-out reads what it records, once its position is seen. The refund
/// step reads what is recorded.
pub open spec fn balances_read(
    storage: StorageView,
    position: Option<PositionDetailView>,
    sender: Seq<char>,
    msg: ExecuteMsgView,
) -> Seq<Seq<char>> {
    match msg {
        ExecuteMsgView::Receive(m) => match m.msg {
            Cw20HookMsgView::ZapInLiquidity { params, .. } => seq![
                sender,
                params.token_0,
                params.token_1,
            ],
        },
        ExecuteMsgView::ZapInLiquidity { params, .. } => seq![params.token_0, params.token_1],
        ExecuteMsgView::CreatePosition { params } => seq![params.token_0, params.token_1],
        ExecuteMsgView::ZapOutLiquidity { position_id, routes } => match position_of(
            position,
            position_id,
        ) {
            Ok(found) => zap_out_denoms(found, routes),
            Err(_) => Seq::empty(),
        },
        ExecuteMsgView::TransferFundsBack { .. } => recorded_denoms(storage.snap_balances),
        _ => Seq::empty(),
    }
}

/// Lists the recorded denominations.
fn list_recorded(deps: &Deps) -> (r: Vec<String>)
    ensures
        r.deep_view() == recorded_denoms(deps.storage@.snap_balances),
{
    let mut denoms: Vec<String> = Vec::new();
    let n = deps.storage.snap_balances.len();
    let mut i: usize = 0;
    while i < n
        invariant
            n == deps.storage@.snap_balances.len(),
            i <= n,
            denoms.len() == i,
            forall|j: int|
                0 <= j < i ==> (#[trigger] denoms[j])@ == deps.storage@.snap_balances[j].0,
        decreases n - i,
    {
        denoms.push(deps.storage.snap_balances.denom_at(i).clone());
        i += 1;
    }
    assert(denoms.deep_view() =~= recorded_denoms(deps.storage@.snap_balances));
    denoms
}

/// The denominations whose balances have to be seen before the request is
/// handled. The position that the request reads must have been seen.
pub fn balances_to_query(deps: &Deps, info: &MessageInfo, msg: &ExecuteMsg) -> (r: Vec<String>)
    ensures
        r.deep_view() == balances_read(
            deps.storage@,
            deps.querier.position_view(),
            info.sender@,
            msg@,
        ),
{
    let mut denoms: Vec<String> = Vec::new();
    match msg {
        ExecuteMsg::Receive(m) => match &m.msg {
            Cw20HookMsg::ZapInLiquidity { token_0, token_1, .. } => {
                denoms.push(info.sender.clone());
                denoms.push(token_0.clone());
                denoms.push(token_1.clone());
            },
        },
        ExecuteMsg::ZapInLiquidity { token_0, token_1, .. } => {
            denoms.push(token_0.clone());
            denoms.push(token_1.clone());
        },
        ExecuteMsg::CreatePosition { token_0, token_1, .. } => {
            denoms.push(token_0.clone());
            denoms.push(token_1.clone());
        },
        ExecuteMsg::ZapOutLiquidity { position_id, routes } => {
            match deps.querier.position_by_id(*position_id) {
                Ok(found) => {
                    denoms = crate::zap::list_zap_out_denoms(found, routes);
                },
                Err(_) => {},
            }
        },
        ExecuteMsg::TransferFundsBack { .. } => {
            denoms = list_recorded(deps);
        },
        _ => {},
    }
    assert(denoms.deep_view() =~= balances_read(
        deps.storage@,
        deps.querier.position_view(),
        info.sender@,
        msg@,
    ));
    denoms
}

/// The denominations whose balances a continuation reads: the two pool
/// tokens of the pending zap-in after the creation of a position, what is
/// recorded after a withdrawal.
pub open spec fn balances_read_by_reply(storage: StorageView, id: u64) -> Seq<Seq<char>> {
    if id == CREATE_POSITION_ID {
        match storage.pending_position {
            Some(pending) => seq![pending.token_0, pending.token_1],
            None => Seq::empty(),
        }
    } else if id == WITHDRAW_POSITION_ID {
        recorded_denoms(storage.snap_balances)
    } else {
        Seq::empty()
    }
}

/// The denominations whose balances have to be seen before the completion
/// signal is handled.
pub fn balances_to_query_for_reply(deps: &Deps, msg: &Reply) -> (r: Vec<String>)
    ensures
        r.deep_view() == balances_read_by_reply(deps.storage@, msg.id),
{
    let mut denoms: Vec<String> = Vec::new();
    if msg.id == CREATE_POSITION_ID {
        match &deps.storage.pending_position {
            Some(pending) => {
                denoms.push(pending.token_0.clone());
                denoms.push(pending.token_1.clone());
            },
            None => {},
        }
    } else if msg.id == WITHDRAW_POSITION_ID {
        denoms = list_recorded(deps);
    }
    assert(denoms.deep_view() =~= balances_read_by_reply(deps.storage@, msg.id));
    denoms
}

} // verus!

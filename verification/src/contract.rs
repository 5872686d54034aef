//! The entry points, and the handlers that are neither a zap nor a
//! continuation: ownership, the protocol fee, the emergency withdrawal and
//! the refund that ends every operation.

use crate::asset::{Asset, AssetView};
use crate::coin::NativeCoinView;
use crate::error::{
    checked_sub, not_found, AdminError, ContractError, ContractErrorView, ContractResult,
    StdError, ZapperError,
};
use crate::fee::transfer_of;
use crate::host::{
    outcome, Call, CallView, Deps, Env, MessageInfo, PositionDetailView, Reply,
    Response, ResponseView, SubMsgResultView,
};
use crate::math::{decimal_text, decimal_to_string, Decimal, DECIMAL_FRACTIONAL};
use crate::msg::{
    option_text, Cw20HookMsg, Cw20HookMsgView, Cw20ReceiveMsg, Cw20ReceiveMsgView, ExecuteMsg,
    ExecuteMsgView, InstantiateMsg, MigrateMsg, QueryMsg, QueryResponse, QueryResponseView,
};
use crate::reply::{
    entry_delta, position_reply, reply_create_position, reply_withdraw_position, withdrawal_reply,
};
use crate::snapshot::Snapshots;
use crate::state::{ProtocolFee, ProtocolFeeView, Storage, StorageView};
use crate::zap::{
    create_position, position_creation, zap_in, zap_in_liquidity, zap_out, zap_out_liquidity,
    CREATE_POSITION_ID, WITHDRAW_POSITION_ID,
};
use vstd::prelude::*;

verus! {

/// Whether `caller` is the owner.
pub open spec fn is_admin(owner: Option<Seq<char>>, caller: Seq<char>) -> bool {
    owner == Some(caller)
}

/// Fails with `NotAdmin` unless `caller` is the owner.
pub fn assert_admin(storage: &Storage, caller: &String) -> (r: Result<(), ContractError>)
    ensures
        match r {
            Ok(()) => is_admin(storage@.owner, caller@),
            Err(e) => !is_admin(storage@.owner, caller@) && e@ == ContractErrorView::Admin(
                AdminError::NotAdmin,
            ),
        },
{
    match &storage.owner {
        Some(owner) => if *owner == *caller {
            Ok(())
        } else {
            Err(ContractError::Admin(AdminError::NotAdmin))
        },
        None => Err(ContractError::Admin(AdminError::NotAdmin)),
    }
}

/// What a change of owner does: only the owner may ask, and the new owner
/// takes their place.
pub open spec fn owner_change(storage: StorageView, sender: Seq<char>, new_owner: Seq<char>)
    -> Result<(StorageView, ResponseView), ContractErrorView> {
    if !is_admin(storage.owner, sender) {
        Err(ContractErrorView::Admin(AdminError::NotAdmin))
    } else {
        Ok(
            (
                StorageView { owner: Some(new_owner), ..storage },
                ResponseView {
                    messages: Seq::empty(),
                    attributes: seq![
                        ("action"@, "update_admin"@),
                        ("admin"@, new_owner),
                        ("sender"@, sender),
                    ],
                },
            ),
        )
    }
}

pub fn execute_change_owner(deps: &mut Deps, info: MessageInfo, new_owner: String) -> (r:
    ContractResult<Response>)
    requires
        old(deps).storage.wf(),
    ensures
        final(deps).storage.wf(),
        final(deps).querier == old(deps).querier,
        r is Err ==> *final(deps) == *old(deps),
        outcome(r, final(deps).storage@) == owner_change(
            old(deps).storage@,
            info.sender@,
            new_owner@,
        ),
{
    match assert_admin(&deps.storage, &info.sender) {
        Ok(()) => {},
        Err(e) => {
            return Err(e);
        },
    }
    let response = Response::new().add_attribute(
        "action".to_string(),
        "update_admin".to_string(),
    ).add_attribute("admin".to_string(), new_owner.clone()).add_attribute(
        "sender".to_string(),
        info.sender,
    );
    assert(response@.attributes =~= seq![
        ("action"@, "update_admin"@),
        ("admin"@, new_owner@),
        ("sender"@, info.sender@),
    ]);
    deps.storage.owner = Some(new_owner);
    Ok(response)
}

/// What the registration of a protocol fee does: only the owner may ask,
/// and the fee must be below 100%. The fee replaces the one that was set.
pub open spec fn fee_registration(
    storage: StorageView,
    sender: Seq<char>,
    percent: Decimal,
    fee_receiver: Seq<char>,
) -> Result<(StorageView, ResponseView), ContractErrorView> {
    if !is_admin(storage.owner, sender) {
        Err(ContractErrorView::Admin(AdminError::NotAdmin))
    } else if !percent.below_one() {
        Err(ContractErrorView::Zapper(ZapperError::InvalidFee))
    } else {
        Ok(
            (
                StorageView {
                    protocol_fee: Some(ProtocolFeeView { percent, fee_receiver }),
                    ..storage
                },
                ResponseView {
                    messages: Seq::empty(),
                    attributes: seq![
                        ("action"@, "register_protocol_fee"@),
                        ("percent"@, decimal_text(percent.0)),
                        ("fee_receiver"@, fee_receiver),
                    ],
                },
            ),
        )
    }
}

/// Sets the protocol fee.
pub fn execute_register_protocol_fee(
    deps: &mut Deps,
    info: MessageInfo,
    percent: Decimal,
    fee_receiver: String,
) -> (r: ContractResult<Response>)
    requires
        old(deps).storage.wf(),
    ensures
        final(deps).storage.wf(),
        final(deps).querier == old(deps).querier,
        r is Err ==> *final(deps) == *old(deps),
        outcome(r, final(deps).storage@) == fee_registration(
            old(deps).storage@,
            info.sender@,
            percent,
            fee_receiver@,
        ),
{
    match assert_admin(&deps.storage, &info.sender) {
        Ok(()) => {},
        Err(e) => {
            return Err(e);
        },
    }
    if percent.0 >= DECIMAL_FRACTIONAL {
        return Err(ContractError::Zapper(ZapperError::InvalidFee));
    }
    let response = Response::new().add_attribute(
        "action".to_string(),
        "register_protocol_fee".to_string(),
    ).add_attribute("percent".to_string(), decimal_to_string(percent)).add_attribute(
        "fee_receiver".to_string(),
        fee_receiver.clone(),
    );
    assert(response@.attributes =~= seq![
        ("action"@, "register_protocol_fee"@),
        ("percent"@, decimal_text(percent.0)),
        ("fee_receiver"@, fee_receiver@),
    ]);
    deps.storage.protocol_fee = Some(ProtocolFee { percent, fee_receiver });
    Ok(response)
}

/// The transfers of `assets` to `receiver`, in order.
pub open spec fn transfers_of(assets: Seq<AssetView>, receiver: Seq<char>) -> Seq<CallView> {
    Seq::new(assets.len(), |i: int| transfer_of(assets[i], assets[i].amount, receiver))
}

/// What the emergency withdrawal does: only the owner may ask; each asset
/// goes to the recipient, or to the owner where none is named. The state
/// stays as it is.
pub open spec fn withdrawal(
    storage: StorageView,
    sender: Seq<char>,
    assets: Seq<AssetView>,
    recipient: Option<Seq<char>>,
) -> Result<(StorageView, ResponseView), ContractErrorView> {
    if !is_admin(storage.owner, sender) {
        Err(ContractErrorView::Admin(AdminError::NotAdmin))
    } else {
        Ok(
            (
                storage,
                ResponseView {
                    messages: crate::host::fire_and_forget_all(
                        transfers_of(
                            assets,
                            match recipient {
                                Some(r) => r,
                                None => sender,
                            },
                        ),
                    ),
                    attributes: seq![("action"@, "withdraw"@)],
                },
            ),
        )
    }
}

/// Hands assets of the account to the recipient.
pub fn execute_withdraw(
    deps: &mut Deps,
    info: MessageInfo,
    assets: Vec<Asset>,
    recipient: Option<String>,
) -> (r: ContractResult<Response>)
    requires
        old(deps).storage.wf(),
    ensures
        *final(deps) == *old(deps),
        outcome(r, final(deps).storage@) == withdrawal(
            old(deps).storage@,
            info.sender@,
            assets.deep_view(),
            option_text(recipient),
        ),
{
    match assert_admin(&deps.storage, &info.sender) {
        Ok(()) => {},
        Err(e) => {
            return Err(e);
        },
    }
    let receiver = match recipient {
        Some(r) => r,
        None => info.sender.clone(),
    };
    let mut msgs: Vec<Call> = Vec::new();
    let mut i: usize = 0;
    while i < assets.len()
        invariant
            i <= assets.len(),
            msgs.len() == i,
            forall|j: int|
                0 <= j < i ==> (#[trigger] msgs[j])@ == transfer_of(
                    assets[j]@,
                    assets[j]@.amount,
                    receiver@,
                ),
        decreases assets.len() - i,
    {
        msgs.push(assets[i].clone().transfer(&receiver));
        i += 1;
    }
    assert(msgs.deep_view() =~= transfers_of(assets.deep_view(), receiver@));
    let response = Response::new().add_attribute(
        "action".to_string(),
        "withdraw".to_string(),
    ).add_messages(msgs);
    assert(response@.attributes =~= seq![("action"@, "withdraw"@)]);
    assert(response@.messages =~= crate::host::fire_and_forget_all(
        transfers_of(assets.deep_view(), receiver@),
    ));
    Ok(response)
}

/// The refunds of what the account holds above the recorded balances, in
/// the order of the table: one transfer to `receiver` for each denomination
/// of which it holds more. The error of the first denomination whose
/// difference cannot be had.
pub open spec fn refunds(entries: Snapshots, balances: Seq<AssetView>, receiver: Seq<char>)
    -> Result<Seq<CallView>, ContractErrorView>
    decreases entries.len(),
{
    if entries.len() == 0 {
        Ok(Seq::empty())
    } else {
        match refunds(entries.drop_last(), balances, receiver) {
            Err(e) => Err(e),
            Ok(msgs) => match entry_delta(entries.last(), balances) {
                Err(e) => Err(e),
                Ok(asset) => if asset.amount > 0 {
                    Ok(msgs.push(transfer_of(asset, asset.amount, receiver)))
                } else {
                    Ok(msgs)
                },
            },
        }
    }
}

/// Once the refunds of the first `k` entries cannot be had, those of all
/// entries fail in the same way.
pub proof fn lemma_refunds_fail(
    entries: Snapshots,
    balances: Seq<AssetView>,
    receiver: Seq<char>,
    k: int,
)
    requires
        0 <= k <= entries.len(),
        refunds(entries.take(k), balances, receiver) is Err,
    ensures
        refunds(entries, balances, receiver) == refunds(entries.take(k), balances, receiver),
    decreases entries.len(),
{
    if k == entries.len() {
        assert(entries.take(k) =~= entries);
    } else {
        assert(entries.drop_last().take(k) =~= entries.take(k));
        lemma_refunds_fail(entries.drop_last(), balances, receiver, k);
    }
}

/// What the refund step returns: only the orchestrator itself may ask. What
/// the account holds above the recorded balances goes to the receiver, and
/// the table of recorded balances is emptied.
pub open spec fn funds_return(
    storage: StorageView,
    balances: Seq<AssetView>,
    contract: Seq<char>,
    sender: Seq<char>,
    receiver: Seq<char>,
) -> Result<(StorageView, ResponseView), ContractErrorView> {
    if sender != contract {
        Err(ContractErrorView::Unauthorized)
    } else {
        match refunds(storage.snap_balances, balances, receiver) {
            Err(e) => Err(e),
            Ok(msgs) => Ok(
                (funds_return_state(storage, contract, sender), ResponseView::of_messages(msgs)),
            ),
        }
    }
}

/// The state that the refund step leaves, whatever it ends in: for the
/// orchestrator itself the state without the recorded balances, for every
/// other sender the state as it was.
pub open spec fn funds_return_state(storage: StorageView, contract: Seq<char>, sender: Seq<char>)
    -> StorageView {
    if sender == contract {
        storage.with_snapshots(Snapshots::empty())
    } else {
        storage
    }
}

/// Builds the refunds of what the account holds above the recorded
/// balances.
pub fn collect_refunds(deps: &Deps, receiver: &String) -> (r: Result<Vec<Call>, ContractError>)
    requires
        deps.storage.wf(),
    ensures
        match r {
            Ok(msgs) => refunds(
                deps.storage@.snap_balances,
                deps.querier.balances.deep_view(),
                receiver@,
            ) == Ok::<Seq<CallView>, ContractErrorView>(msgs.deep_view()),
            Err(e) => refunds(
                deps.storage@.snap_balances,
                deps.querier.balances.deep_view(),
                receiver@,
            ) == Err::<Seq<CallView>, ContractErrorView>(e@),
        },
{
    let ghost entries = deps.storage@.snap_balances;
    let ghost balances = deps.querier.balances.deep_view();
    let mut msgs: Vec<Call> = Vec::new();
    let n = deps.storage.snap_balances.len();
    let mut i: usize = 0;
    assert(msgs.deep_view() =~= Seq::<CallView>::empty());
    while i < n
        invariant
            entries == deps.storage@.snap_balances,
            balances == deps.querier.balances.deep_view(),
            n == entries.len(),
            i <= n,
            refunds(entries.take(i as int), balances, receiver@) == Ok::<
                Seq<CallView>,
                ContractErrorView,
            >(msgs.deep_view()),
        decreases n - i,
    {
        proof {
            assert(entries.take(i + 1).drop_last() =~= entries.take(i as int));
            assert(entries.take(i + 1).last() == entries[i as int]);
        }
        let ghost before = msgs.deep_view();
        let denom = deps.storage.snap_balances.denom_at(i);
        let amount = deps.storage.snap_balances.amount_at(i);
        let current_balance = match deps.querier.balance(denom) {
            Ok(asset) => asset,
            Err(e) => {
                proof {
                    lemma_refunds_fail(entries, balances, receiver@, i + 1);
                }
                return Err(e);
            },
        };
        let refund_amount = match checked_sub(current_balance.amount(), amount) {
            Ok(delta) => delta,
            Err(e) => {
                proof {
                    lemma_refunds_fail(entries, balances, receiver@, i + 1);
                }
                return Err(e);
            },
        };
        if refund_amount != 0 {
            let msg = current_balance.transfer_amount(refund_amount, receiver);
            msgs.push(msg);
            assert(msgs.deep_view() =~= before.push(msg@));
        }
        i += 1;
    }
    assert(entries.take(n as int) =~= entries);
    Ok(msgs)
}

/// Hands back what an operation left over, and forgets the recorded
/// balances. Fails with `Unauthorized` unless the orchestrator itself asks,
/// and then changes nothing.
///
/// For the orchestrator itself the table of recorded balances is emptied
/// in any case: also where the step fails because a balance cannot be had
/// or the account holds less than was recorded.
pub fn execute_transfer_funds_back(deps: &mut Deps, env: Env, info: MessageInfo, receiver: String)
    -> (r: ContractResult<Response>)
    requires
        old(deps).storage.wf(),
    ensures
        final(deps).storage.wf(),
        final(deps).querier == old(deps).querier,
        info.sender@ != env.contract.address@ ==> *final(deps) == *old(deps) && r is Err
            && r->Err_0@ == ContractErrorView::Unauthorized,
        info.sender@ == env.contract.address@ ==> final(deps).storage@.snap_balances
            == Snapshots::empty(),
        final(deps).storage@ == funds_return_state(
            old(deps).storage@,
            env.contract.address@,
            info.sender@,
        ),
        outcome(r, final(deps).storage@) == funds_return(
            old(deps).storage@,
            old(deps).querier.balances.deep_view(),
            env.contract.address@,
            info.sender@,
            receiver@,
        ),
{
    if !(info.sender == env.contract.address) {
        return Err(ContractError::Unauthorized);
    }
    let built = collect_refunds(deps, &receiver);
    deps.storage.snap_balances.clear();
    match built {
        Ok(msgs) => Ok(Response::new().add_messages(msgs)),
        Err(e) => Err(e),
    }
}

/// The protocol fee that is set.
pub fn get_protocol_fee(deps: &Deps) -> (r: Result<ProtocolFee, ContractError>)
    ensures
        match r {
            Ok(fee) => deps.storage@.protocol_fee == Some(fee@),
            Err(e) => deps.storage@.protocol_fee is None && e@ == not_found(),
        },
{
    match &deps.storage.protocol_fee {
        Some(fee) => Ok(fee.clone()),
        None => Err(ContractError::Std(StdError::NotFound)),
    }
}

/// What a query is answered with.
pub open spec fn answer(storage: StorageView, msg: QueryMsg) -> Result<
    QueryResponseView,
    StdError,
> {
    match msg {
        QueryMsg::Owner {  } => Ok(QueryResponseView::Owner(storage.owner)),
        QueryMsg::ProtocolFee {  } => match storage.protocol_fee {
            Some(fee) => Ok(QueryResponseView::ProtocolFee(fee)),
            None => Err(StdError::GenericErr),
        },
    }
}

/// Answers a query about the state.
pub fn query(deps: &Deps, env: Env, msg: QueryMsg) -> (r: Result<QueryResponse, StdError>)
    ensures
        match r {
            Ok(response) => answer(deps.storage@, msg) == Ok::<QueryResponseView, StdError>(
                response@,
            ),
            Err(e) => answer(deps.storage@, msg) == Err::<QueryResponseView, StdError>(e),
        },
{
    match msg {
        QueryMsg::Owner {  } => {
            let owner = match &deps.storage.owner {
                Some(o) => Some(o.clone()),
                None => None,
            };
            Ok(QueryResponse::Owner(owner))
        },
        QueryMsg::ProtocolFee {  } => match get_protocol_fee(deps) {
            Ok(fee) => Ok(QueryResponse::ProtocolFee(fee)),
            Err(_) => Err(StdError::GenericErr),
        },
    }
}

/// What a deposit of a token leads to: the zap-in that comes with it, on
/// the amount of the token that its contract reports.
pub open spec fn reception(
    storage: StorageView,
    balances: Seq<AssetView>,
    contract: Seq<char>,
    sender: Seq<char>,
    funds: Seq<NativeCoinView>,
    msg: Cw20ReceiveMsgView,
) -> Result<(StorageView, ResponseView), ContractErrorView> {
    match msg.msg {
        Cw20HookMsgView::ZapInLiquidity { params, routes } => zap_in(
            storage,
            balances,
            contract,
            sender,
            funds,
            params,
            Some(AssetView { native: false, denom: sender, amount: msg.amount }),
            routes,
        ),
    }
}

/// Takes a deposit of a token, which the token's contract reports.
pub fn receive_cw20(deps: &mut Deps, env: Env, info: MessageInfo, cw20_msg: Cw20ReceiveMsg) -> (r:
    ContractResult<Response>)
    requires
        old(deps).storage.wf(),
    ensures
        final(deps).storage.wf(),
        final(deps).querier == old(deps).querier,
        r is Err ==> *final(deps) == *old(deps),
        outcome(r, final(deps).storage@) == reception(
            old(deps).storage@,
            old(deps).querier.balances.deep_view(),
            env.contract.address@,
            info.sender@,
            info.funds.deep_view(),
            cw20_msg@,
        ),
{
    let sent_asset = Asset::Cw20(
        crate::asset::Cw20Coin { address: info.sender.clone(), amount: cw20_msg.amount },
    );
    match cw20_msg.msg {
        Cw20HookMsg::ZapInLiquidity {
            pool_id,
            token_0,
            token_1,
            lower_tick,
            upper_tick,
            token_min_amount_0,
            token_min_amount_1,
            routes,
        } => zap_in_liquidity(
            deps,
            env,
            info,
            pool_id,
            token_0,
            token_1,
            lower_tick,
            upper_tick,
            token_min_amount_0,
            token_min_amount_1,
            Some(sent_asset),
            routes,
        ),
    }
}

/// What setting up the orchestrator does: the owner is the one that is
/// named, or else the sender.
pub open spec fn instantiation(storage: StorageView, sender: Seq<char>, owner: Option<Seq<char>>)
    -> (StorageView, ResponseView) {
    (
        StorageView {
            owner: Some(
                match owner {
                    Some(o) => o,
                    None => sender,
                },
            ),
            ..storage
        },
        ResponseView::empty(),
    )
}

/// Sets up the orchestrator.
pub fn instantiate(deps: &mut Deps, env: Env, info: MessageInfo, msg: InstantiateMsg) -> (r:
    ContractResult<Response>)
    requires
        old(deps).storage.wf(),
    ensures
        final(deps).storage.wf(),
        final(deps).querier == old(deps).querier,
        outcome(r, final(deps).storage@) == Ok::<(StorageView, ResponseView), ContractErrorView>(
            instantiation(old(deps).storage@, info.sender@, option_text(msg.owner)),
        ),
{
    let owner = match msg.owner {
        Some(o) => o,
        None => info.sender,
    };
    deps.storage.owner = Some(owner);
    Ok(Response::new())
}

/// Reports an upgrade from the version `stored_version`, which the
/// version record held before it. The state stays as it is.
pub fn migrate(deps: &mut Deps, env: Env, msg: MigrateMsg, stored_version: String) -> (r:
    ContractResult<Response>)
    ensures
        *final(deps) == *old(deps),
        r is Ok,
        r->Ok_0@ == (ResponseView {
            messages: Seq::empty(),
            attributes: seq![("new_version"@, stored_version@)],
        }),
{
    let response = Response::new().add_attribute("new_version".to_string(), stored_version);
    assert(response@.attributes =~= seq![("new_version"@, stored_version@)]);
    Ok(response)
}

/// What a request does.
pub open spec fn execution(
    storage: StorageView,
    balances: Seq<AssetView>,
    position: Option<PositionDetailView>,
    contract: Seq<char>,
    sender: Seq<char>,
    funds: Seq<NativeCoinView>,
    msg: ExecuteMsgView,
) -> Result<(StorageView, ResponseView), ContractErrorView> {
    match msg {
        ExecuteMsgView::Receive(m) => reception(storage, balances, contract, sender, funds, m),
        ExecuteMsgView::ChangeOwner { new_owner } => owner_change(storage, sender, new_owner),
        ExecuteMsgView::ZapInLiquidity { params, routes } => zap_in(
            storage,
            balances,
            contract,
            sender,
            funds,
            params,
            None,
            routes,
        ),
        ExecuteMsgView::CreatePosition { params } => position_creation(
            storage,
            balances,
            contract,
            sender,
            params,
        ),
        ExecuteMsgView::ZapOutLiquidity { position_id, routes } => zap_out(
            storage,
            balances,
            position,
            contract,
            sender,
            position_id,
            routes,
        ),
        ExecuteMsgView::TransferFundsBack { receiver } => funds_return(
            storage,
            balances,
            contract,
            sender,
            receiver,
        ),
        ExecuteMsgView::RegisterProtocolFee { percent, fee_receiver } => fee_registration(
            storage,
            sender,
            percent,
            fee_receiver,
        ),
        ExecuteMsgView::Withdraw { assets, recipient } => withdrawal(
            storage,
            sender,
            assets,
            recipient,
        ),
    }
}

/// Whether the request is the refund step, asked for by the orchestrator
/// itself.
pub open spec fn is_refund_step(contract: Seq<char>, sender: Seq<char>, msg: ExecuteMsgView)
    -> bool {
    msg is TransferFundsBack && sender == contract
}

/// The state that a failed request leaves: the state as it was, but
/// without the recorded balances after the refund step.
pub open spec fn state_after_failure(
    storage: StorageView,
    contract: Seq<char>,
    sender: Seq<char>,
    msg: ExecuteMsgView,
) -> StorageView {
    if is_refund_step(contract, sender, msg) {
        storage.with_snapshots(Snapshots::empty())
    } else {
        storage
    }
}

/// Handles a request.
///
/// On an error nothing is changed, but for the refund step, which empties
/// the table of recorded balances whatever it ends in.
pub fn execute(deps: &mut Deps, env: Env, info: MessageInfo, msg: ExecuteMsg) -> (r: ContractResult<
    Response,
>)
    requires
        old(deps).storage.wf(),
    ensures
        final(deps).storage.wf(),
        final(deps).querier == old(deps).querier,
        r is Err && !is_refund_step(env.contract.address@, info.sender@, msg@) ==> *final(deps)
            == *old(deps),
        r is Err ==> final(deps).storage@ == state_after_failure(
            old(deps).storage@,
            env.contract.address@,
            info.sender@,
            msg@,
        ),
        outcome(r, final(deps).storage@) == execution(
            old(deps).storage@,
            old(deps).querier.balances.deep_view(),
            old(deps).querier.position_view(),
            env.contract.address@,
            info.sender@,
            info.funds.deep_view(),
            msg@,
        ),
{
    match msg {
        ExecuteMsg::Receive(msg) => receive_cw20(deps, env, info, msg),
        ExecuteMsg::ChangeOwner { new_owner } => execute_change_owner(deps, info, new_owner),
        ExecuteMsg::ZapInLiquidity {
            pool_id,
            token_0,
            token_1,
            lower_tick,
            upper_tick,
            token_min_amount_0,
            token_min_amount_1,
            routes,
        } => zap_in_liquidity(
            deps,
            env,
            info,
            pool_id,
            token_0,
            token_1,
            lower_tick,
            upper_tick,
            token_min_amount_0,
            token_min_amount_1,
            None,
            routes,
        ),
        ExecuteMsg::CreatePosition {
            pool_id,
            token_0,
            token_1,
            lower_tick,
            upper_tick,
            token_min_amount_0,
            token_min_amount_1,
        } => create_position(
            deps,
            env,
            info,
            pool_id,
            token_0,
            token_1,
            lower_tick,
            upper_tick,
            token_min_amount_0,
            token_min_amount_1,
        ),
        ExecuteMsg::ZapOutLiquidity { position_id, routes } => zap_out_liquidity(
            deps,
            env,
            info,
            position_id,
            routes,
        ),
        ExecuteMsg::TransferFundsBack { receiver } => execute_transfer_funds_back(
            deps,
            env,
            info,
            receiver,
        ),
        ExecuteMsg::RegisterProtocolFee { percent, fee_receiver } => execute_register_protocol_fee(
            deps,
            info,
            percent,
            fee_receiver,
        ),
        ExecuteMsg::Withdraw { assets, recipient } => execute_withdraw(
            deps,
            info,
            assets,
            recipient,
        ),
    }
}

/// What a completion signal leads to: the continuation that its identifier
/// names, or `ReplyIdError` where it names none.
pub open spec fn continuation(
    storage: StorageView,
    balances: Seq<AssetView>,
    contract: Seq<char>,
    id: u64,
    result: SubMsgResultView,
) -> Result<(StorageView, ResponseView), ContractErrorView> {
    if id == CREATE_POSITION_ID {
        position_reply(storage, balances, contract, result)
    } else if id == WITHDRAW_POSITION_ID {
        withdrawal_reply(storage, balances, contract, result)
    } else {
        Err(ContractErrorView::Zapper(ZapperError::ReplyIdError(id)))
    }
}

/// Handles a completion signal.
///
/// On an error nothing is changed.
pub fn reply(deps: &mut Deps, env: Env, msg: Reply) -> (r: ContractResult<Response>)
    requires
        old(deps).storage.wf(),
    ensures
        final(deps).storage.wf(),
        final(deps).querier == old(deps).querier,
        r is Err ==> *final(deps) == *old(deps),
        outcome(r, final(deps).storage@) == continuation(
            old(deps).storage@,
            old(deps).querier.balances.deep_view(),
            env.contract.address@,
            msg.id,
            msg.result@,
        ),
{
    if msg.id == CREATE_POSITION_ID {
        reply_create_position(deps, env, msg)
    } else if msg.id == WITHDRAW_POSITION_ID {
        reply_withdraw_position(deps, env, msg)
    } else {
        Err(ContractError::Zapper(ZapperError::ReplyIdError(msg.id)))
    }
}

} // verus!

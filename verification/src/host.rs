//! What the host hands to a handler, and what a handler hands back.
//!
//! A handler does not call out. It is given what was seen of the account
//! when the request came in, and returns the calls that the host is to make
//! after it. The host makes them in order, and either all take effect with
//! the state that the handler left, or none does.

use crate::asset::{find_asset, find_asset_exec, Asset, AssetView};
use crate::coin::{NativeCoin, NativeCoinView};
use crate::error::{not_found, ContractError, ContractErrorView, StdError};
use crate::msg::{ExecuteMsg, ExecuteMsgView};
use crate::state::{Storage, StorageView};
use crate::swap::{SwapAmountInRoute, SwapAmountInRouteView};
use vstd::prelude::*;

verus! {

#[derive(Debug, PartialEq, Eq)]
pub struct ContractInfo {
    /// The orchestrator's own account.
    pub address: String,
}

#[derive(Debug, PartialEq, Eq)]
pub struct Env {
    pub contract: ContractInfo,
}

/// Who made a request, and which coins came with it.
#[derive(Debug, PartialEq, Eq)]
pub struct MessageInfo {
    pub sender: String,
    pub funds: Vec<NativeCoin>,
}

/// A liquidity position as the pool manager describes it.
#[derive(Debug, PartialEq, Eq)]
pub struct PositionDetail {
    pub position_id: u64,
    pub liquidity: String,
    pub token_0: String,
    pub token_1: String,
    /// The denominations of the incentives that can be claimed.
    pub claimable_incentives: Vec<String>,
}

pub struct PositionDetailView {
    pub position_id: u64,
    pub liquidity: Seq<char>,
    pub token_0: Seq<char>,
    pub token_1: Seq<char>,
    pub claimable_incentives: Seq<Seq<char>>,
}

impl View for PositionDetail {
    type V = PositionDetailView;

    open spec fn view(&self) -> PositionDetailView {
        PositionDetailView {
            position_id: self.position_id,
            liquidity: self.liquidity@,
            token_0: self.token_0@,
            token_1: self.token_1@,
            claimable_incentives: self.claimable_incentives.deep_view(),
        }
    }
}

/// What was seen of the chain when the request came in: balances of the
/// orchestrator's account, and the position that the request names, if it
/// names one. A balance that is not listed could not be had.
#[derive(Debug, PartialEq, Eq)]
pub struct Querier {
    pub balances: Vec<Asset>,
    pub position: Option<PositionDetail>,
}

/// The balance of `denom`: the asset listed first under that denomination.
pub open spec fn balance_of(balances: Seq<AssetView>, denom: Seq<char>) -> Result<
    AssetView,
    ContractErrorView,
> {
    match find_asset(balances, denom) {
        Some(asset) => Ok(asset),
        None => Err(not_found()),
    }
}

/// The position with the given identifier, where that is the one seen.
pub open spec fn position_of(position: Option<PositionDetailView>, position_id: u64) -> Result<
    PositionDetailView,
    ContractErrorView,
> {
    match position {
        Some(p) => if p.position_id == position_id {
            Ok(p)
        } else {
            Err(not_found())
        },
        None => Err(not_found()),
    }
}

impl Querier {
    pub open spec fn position_view(&self) -> Option<PositionDetailView> {
        match self.position {
            Some(p) => Some(p@),
            None => None,
        }
    }

    /// The balance that the account has of `denom`.
    pub fn balance(&self, denom: &String) -> (r: Result<Asset, ContractError>)
        ensures
            match r {
                Ok(asset) => balance_of(self.balances.deep_view(), denom@) == Ok::<
                    AssetView,
                    ContractErrorView,
                >(asset@),
                Err(e) => balance_of(self.balances.deep_view(), denom@) == Err::<
                    AssetView,
                    ContractErrorView,
                >(e@),
            },
    {
        match find_asset_exec(&self.balances, denom) {
            Some(i) => Ok(self.balances[i].clone()),
            None => Err(ContractError::Std(StdError::NotFound)),
        }
    }

    /// The position with the given identifier.
    pub fn position_by_id(&self, position_id: u64) -> (r: Result<&PositionDetail, ContractError>)
        ensures
            match r {
                Ok(p) => position_of(self.position_view(), position_id) == Ok::<
                    PositionDetailView,
                    ContractErrorView,
                >(p@),
                Err(e) => position_of(self.position_view(), position_id) == Err::<
                    PositionDetailView,
                    ContractErrorView,
                >(e@),
            },
    {
        match &self.position {
            Some(p) => if p.position_id == position_id {
                Ok(p)
            } else {
                Err(ContractError::Std(StdError::NotFound))
            },
            None => Err(ContractError::Std(StdError::NotFound)),
        }
    }
}

/// The state and what was seen of the chain.
#[derive(Debug, PartialEq, Eq)]
pub struct Deps {
    pub storage: Storage,
    pub querier: Querier,
}

/// A call that the host is to make on the orchestrator's behalf.
#[derive(Debug, PartialEq, Eq)]
pub enum Call {
    /// Hands `asset` to `to_address`.
    Transfer { asset: Asset, to_address: String },
    /// Swaps `token_in` through `routes` for at least `token_out_min_amount`.
    SwapExactAmountIn {
        sender: String,
        routes: Vec<SwapAmountInRoute>,
        token_in: NativeCoin,
        token_out_min_amount: u128,
    },
    CreatePosition {
        pool_id: u64,
        sender: String,
        lower_tick: i64,
        upper_tick: i64,
        tokens_provided: Vec<NativeCoin>,
        token_min_amount0: u128,
        token_min_amount1: u128,
    },
    WithdrawPosition { position_id: u64, sender: String, liquidity_amount: String },
    TransferPositions { position_ids: Vec<u64>, sender: String, new_owner: String },
    /// A request to the contract at `contract_addr`, with no funds.
    Execute { contract_addr: String, msg: ExecuteMsg },
}

pub enum CallView {
    Transfer { asset: AssetView, to_address: Seq<char> },
    SwapExactAmountIn {
        sender: Seq<char>,
        routes: Seq<SwapAmountInRouteView>,
        token_in: NativeCoinView,
        token_out_min_amount: u128,
    },
    CreatePosition {
        pool_id: u64,
        sender: Seq<char>,
        lower_tick: i64,
        upper_tick: i64,
        tokens_provided: Seq<NativeCoinView>,
        token_min_amount0: u128,
        token_min_amount1: u128,
    },
    WithdrawPosition { position_id: u64, sender: Seq<char>, liquidity_amount: Seq<char> },
    TransferPositions { position_ids: Seq<u64>, sender: Seq<char>, new_owner: Seq<char> },
    Execute { contract_addr: Seq<char>, msg: ExecuteMsgView },
}

impl View for Call {
    type V = CallView;

    open spec fn view(&self) -> CallView {
        match self {
            Call::Transfer { asset, to_address } => CallView::Transfer {
                asset: asset@,
                to_address: to_address@,
            },
            Call::SwapExactAmountIn {
                sender,
                routes,
                token_in,
                token_out_min_amount,
            } => CallView::SwapExactAmountIn {
                sender: sender@,
                routes: routes.deep_view(),
                token_in: token_in@,
                token_out_min_amount: *token_out_min_amount,
            },
            Call::CreatePosition {
                pool_id,
                sender,
                lower_tick,
                upper_tick,
                tokens_provided,
                token_min_amount0,
                token_min_amount1,
            } => CallView::CreatePosition {
                pool_id: *pool_id,
                sender: sender@,
                lower_tick: *lower_tick,
                upper_tick: *upper_tick,
                tokens_provided: tokens_provided.deep_view(),
                token_min_amount0: *token_min_amount0,
                token_min_amount1: *token_min_amount1,
            },
            Call::WithdrawPosition {
                position_id,
                sender,
                liquidity_amount,
            } => CallView::WithdrawPosition {
                position_id: *position_id,
                sender: sender@,
                liquidity_amount: liquidity_amount@,
            },
            Call::TransferPositions {
                position_ids,
                sender,
                new_owner,
            } => CallView::TransferPositions {
                position_ids: position_ids@,
                sender: sender@,
                new_owner: new_owner@,
            },
            Call::Execute { contract_addr, msg } => CallView::Execute {
                contract_addr: contract_addr@,
                msg: msg@,
            },
        }
    }
}

impl DeepView for Call {
    type V = CallView;

    open spec fn deep_view(&self) -> CallView {
        self@
    }
}

/// When the host reports back how a call went.
#[derive(Clone, Copy, Debug, PartialEq, Eq, Structural)]
pub enum ReplyOn {
    Always,
    Error,
    Success,
    Never,
}

/// A call together with the identifier under which its completion is
/// reported, and when it is.
#[derive(Debug, PartialEq, Eq)]
pub struct SubMsg {
    pub id: u64,
    pub msg: Call,
    pub reply_on: ReplyOn,
}

pub struct SubMsgView {
    pub id: u64,
    pub msg: CallView,
    pub reply_on: ReplyOn,
}

impl View for SubMsg {
    type V = SubMsgView;

    open spec fn view(&self) -> SubMsgView {
        SubMsgView { id: self.id, msg: self.msg@, reply_on: self.reply_on }
    }
}

impl DeepView for SubMsg {
    type V = SubMsgView;

    open spec fn deep_view(&self) -> SubMsgView {
        self@
    }
}

/// A call whose completion is not reported.
pub open spec fn fire_and_forget(msg: CallView) -> SubMsgView {
    SubMsgView { id: 0, msg, reply_on: ReplyOn::Never }
}

/// Calls whose completion is not reported.
pub open spec fn fire_and_forget_all(msgs: Seq<CallView>) -> Seq<SubMsgView> {
    Seq::new(msgs.len(), |i: int| fire_and_forget(msgs[i]))
}

/// A call whose success is reported under `id`.
pub open spec fn awaited(msg: CallView, id: u64) -> SubMsgView {
    SubMsgView { id, msg, reply_on: ReplyOn::Success }
}

impl SubMsg {
    pub fn new(msg: Call) -> (sub: SubMsg)
        ensures
            sub@ == fire_and_forget(msg@),
    {
        SubMsg { id: 0, msg, reply_on: ReplyOn::Never }
    }

    pub fn reply_on_success(msg: Call, id: u64) -> (sub: SubMsg)
        ensures
            sub@ == awaited(msg@, id),
    {
        SubMsg { id, msg, reply_on: ReplyOn::Success }
    }
}

#[derive(Debug, PartialEq, Eq)]
pub struct Attribute {
    pub key: String,
    pub value: String,
}

impl View for Attribute {
    type V = (Seq<char>, Seq<char>);

    open spec fn view(&self) -> (Seq<char>, Seq<char>) {
        (self.key@, self.value@)
    }
}

impl DeepView for Attribute {
    type V = (Seq<char>, Seq<char>);

    open spec fn deep_view(&self) -> (Seq<char>, Seq<char>) {
        self@
    }
}

/// What a handler hands back on success: the calls to make, in order, and
/// what to log.
#[derive(Debug, PartialEq, Eq)]
pub struct Response {
    pub messages: Vec<SubMsg>,
    pub attributes: Vec<Attribute>,
}

#[verifier::ext_equal]
pub struct ResponseView {
    pub messages: Seq<SubMsgView>,
    pub attributes: Seq<(Seq<char>, Seq<char>)>,
}

impl View for Response {
    type V = ResponseView;

    open spec fn view(&self) -> ResponseView {
        ResponseView {
            messages: self.messages.deep_view(),
            attributes: self.attributes.deep_view(),
        }
    }
}

impl ResponseView {
    pub open spec fn empty() -> ResponseView {
        ResponseView { messages: Seq::empty(), attributes: Seq::empty() }
    }

    /// A response that asks for `msgs` and reports none of them back.
    pub open spec fn of_messages(msgs: Seq<CallView>) -> ResponseView {
        ResponseView { messages: fire_and_forget_all(msgs), attributes: Seq::empty() }
    }

    /// A response that asks for one call and has its success reported.
    pub open spec fn of_awaited(msg: CallView, id: u64) -> ResponseView {
        ResponseView { messages: seq![awaited(msg, id)], attributes: Seq::empty() }
    }
}

impl Response {
    pub fn new() -> (r: Response)
        ensures
            r@ == ResponseView::empty(),
    {
        let r = Response { messages: Vec::new(), attributes: Vec::new() };
        assert(r@ =~= ResponseView::empty());
        r
    }

    pub fn add_attribute(self, key: String, value: String) -> (r: Response)
        ensures
            r@ == (ResponseView {
                messages: self@.messages,
                attributes: self@.attributes.push((key@, value@)),
            }),
    {
        let mut r = self;
        r.attributes.push(Attribute { key, value });
        assert(r@.attributes =~= self@.attributes.push((key@, value@)));
        assert(r@.messages =~= self@.messages);
        r
    }

    pub fn add_submessage(self, sub: SubMsg) -> (r: Response)
        ensures
            r@ == (ResponseView {
                messages: self@.messages.push(sub@),
                attributes: self@.attributes,
            }),
    {
        let mut r = self;
        r.messages.push(sub);
        assert(r@.messages =~= self@.messages.push(sub@));
        assert(r@.attributes =~= self@.attributes);
        r
    }

    pub fn add_message(self, msg: Call) -> (r: Response)
        ensures
            r@ == (ResponseView {
                messages: self@.messages.push(fire_and_forget(msg@)),
                attributes: self@.attributes,
            }),
    {
        self.add_submessage(SubMsg::new(msg))
    }

    pub fn add_messages(self, msgs: Vec<Call>) -> (r: Response)
        ensures
            r@ == (ResponseView {
                messages: self@.messages + fire_and_forget_all(msgs.deep_view()),
                attributes: self@.attributes,
            }),
    {
        let ghost all = msgs.deep_view();
        let ghost start = self@;
        let mut r = self;
        assert(r@.messages =~= start.messages + fire_and_forget_all(all.take(0)));
        for msg in it: msgs
            invariant
                all == msgs.deep_view(),
                r@.attributes == start.attributes,
                r@.messages == start.messages + fire_and_forget_all(
                    all.take(it.index() as int),
                ),
        {
            let ghost k = it.index() as int;
            assert(msg@ == all[k]);
            r = r.add_message(msg);
            assert(r@.messages =~= start.messages + fire_and_forget_all(all.take(k + 1)));
        }
        assert(all.take(all.len() as int) =~= all);
        r
    }
}

/// What a handler did: the state it left with the response it gave, or
/// the error it ended in.
pub open spec fn outcome(r: Result<Response, ContractError>, storage: StorageView) -> Result<
    (StorageView, ResponseView),
    ContractErrorView,
> {
    match r {
        Ok(response) => Ok((storage, response@)),
        Err(e) => Err(e@),
    }
}

/// What became of a call: what it returned, or why it failed.
#[derive(Debug, PartialEq, Eq)]
pub struct SubMsgResponse {
    pub data: Option<Vec<u8>>,
}

#[derive(Debug, PartialEq, Eq)]
pub enum SubMsgResult {
    Success(SubMsgResponse),
    Failure(String),
}

pub enum SubMsgResultView {
    Success(Option<Seq<u8>>),
    Failure(Seq<char>),
}

impl View for SubMsgResult {
    type V = SubMsgResultView;

    open spec fn view(&self) -> SubMsgResultView {
        match self {
            SubMsgResult::Success(response) => SubMsgResultView::Success(
                match response.data {
                    Some(data) => Some(data@),
                    None => None,
                },
            ),
            SubMsgResult::Failure(reason) => SubMsgResultView::Failure(reason@),
        }
    }
}

/// The completion signal of the call that was sent under `id`.
#[derive(Debug, PartialEq, Eq)]
pub struct Reply {
    pub id: u64,
    pub result: SubMsgResult,
}

} // verus!

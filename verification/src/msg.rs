//! The requests that the orchestrator takes.

use crate::asset::{Asset, AssetView};
use crate::math::Decimal;
use crate::state::{ProtocolFee, ProtocolFeeView};
use crate::swap::{Route, RouteView};
use vstd::prelude::*;

verus! {

#[derive(Debug, PartialEq, Eq)]
pub struct InstantiateMsg {
    pub owner: Option<String>,
}

/// The text of an optional string.
pub open spec fn option_text(text: Option<String>) -> Option<Seq<char>> {
    match text {
        Some(t) => Some(t@),
        None => None,
    }
}

/// The position that a zap-in is to create.
pub struct PositionParams {
    pub pool_id: u64,
    pub token_0: Seq<char>,
    pub token_1: Seq<char>,
    pub lower_tick: u64,
    pub upper_tick: u64,
    pub token_min_amount_0: Option<u128>,
    pub token_min_amount_1: Option<u128>,
}

/// What a token contract sends along with a deposit of its token.
#[derive(Debug, PartialEq, Eq)]
pub enum Cw20HookMsg {
    ZapInLiquidity {
        pool_id: u64,
        token_0: String,
        token_1: String,
        lower_tick: u64,
        upper_tick: u64,
        token_min_amount_0: Option<u128>,
        token_min_amount_1: Option<u128>,
        routes: Vec<Route>,
    },
}

pub enum Cw20HookMsgView {
    ZapInLiquidity { params: PositionParams, routes: Seq<RouteView> },
}

impl View for Cw20HookMsg {
    type V = Cw20HookMsgView;

    open spec fn view(&self) -> Cw20HookMsgView {
        match self {
            Cw20HookMsg::ZapInLiquidity {
                pool_id,
                token_0,
                token_1,
                lower_tick,
                upper_tick,
                token_min_amount_0,
                token_min_amount_1,
                routes,
            } => Cw20HookMsgView::ZapInLiquidity {
                params: PositionParams {
                    pool_id: *pool_id,
                    token_0: token_0@,
                    token_1: token_1@,
                    lower_tick: *lower_tick,
                    upper_tick: *upper_tick,
                    token_min_amount_0: *token_min_amount_0,
                    token_min_amount_1: *token_min_amount_1,
                },
                routes: routes.deep_view(),
            },
        }
    }
}

/// A deposit of a token, as its contract reports it: who sent the tokens,
/// how many, and what is to be done with them.
#[derive(Debug, PartialEq, Eq)]
pub struct Cw20ReceiveMsg {
    pub sender: String,
    pub amount: u128,
    pub msg: Cw20HookMsg,
}

pub struct Cw20ReceiveMsgView {
    pub sender: Seq<char>,
    pub amount: u128,
    pub msg: Cw20HookMsgView,
}

impl View for Cw20ReceiveMsg {
    type V = Cw20ReceiveMsgView;

    open spec fn view(&self) -> Cw20ReceiveMsgView {
        Cw20ReceiveMsgView { sender: self.sender@, amount: self.amount, msg: self.msg@ }
    }
}

#[derive(Debug, PartialEq, Eq)]
pub enum ExecuteMsg {
    Receive(Cw20ReceiveMsg),
    ChangeOwner { new_owner: String },
    ZapInLiquidity {
        pool_id: u64,
        token_0: String,
        token_1: String,
        lower_tick: u64,
        upper_tick: u64,
        token_min_amount_0: Option<u128>,
        token_min_amount_1: Option<u128>,
        routes: Vec<Route>,
    },
    CreatePosition {
        pool_id: u64,
        token_0: String,
        token_1: String,
        lower_tick: u64,
        upper_tick: u64,
        token_min_amount_0: Option<u128>,
        token_min_amount_1: Option<u128>,
    },
    ZapOutLiquidity { position_id: u64, routes: Vec<Route> },
    TransferFundsBack { receiver: String },
    RegisterProtocolFee { percent: Decimal, fee_receiver: String },
    Withdraw { assets: Vec<Asset>, recipient: Option<String> },
}

pub enum ExecuteMsgView {
    Receive(Cw20ReceiveMsgView),
    ChangeOwner { new_owner: Seq<char> },
    ZapInLiquidity { params: PositionParams, routes: Seq<RouteView> },
    CreatePosition { params: PositionParams },
    ZapOutLiquidity { position_id: u64, routes: Seq<RouteView> },
    TransferFundsBack { receiver: Seq<char> },
    RegisterProtocolFee { percent: Decimal, fee_receiver: Seq<char> },
    Withdraw { assets: Seq<AssetView>, recipient: Option<Seq<char>> },
}

impl View for ExecuteMsg {
    type V = ExecuteMsgView;

    open spec fn view(&self) -> ExecuteMsgView {
        match self {
            ExecuteMsg::Receive(msg) => ExecuteMsgView::Receive(msg@),
            ExecuteMsg::ChangeOwner { new_owner } => ExecuteMsgView::ChangeOwner {
                new_owner: new_owner@,
            },
            ExecuteMsg::ZapInLiquidity {
                pool_id,
                token_0,
                token_1,
                lower_tick,
                upper_tick,
                token_min_amount_0,
                token_min_amount_1,
                routes,
            } => ExecuteMsgView::ZapInLiquidity {
                params: PositionParams {
                    pool_id: *pool_id,
                    token_0: token_0@,
                    token_1: token_1@,
                    lower_tick: *lower_tick,
                    upper_tick: *upper_tick,
                    token_min_amount_0: *token_min_amount_0,
                    token_min_amount_1: *token_min_amount_1,
                },
                routes: routes.deep_view(),
            },
            ExecuteMsg::CreatePosition {
                pool_id,
                token_0,
                token_1,
                lower_tick,
                upper_tick,
                token_min_amount_0,
                token_min_amount_1,
            } => ExecuteMsgView::CreatePosition {
                params: PositionParams {
                    pool_id: *pool_id,
                    token_0: token_0@,
                    token_1: token_1@,
                    lower_tick: *lower_tick,
                    upper_tick: *upper_tick,
                    token_min_amount_0: *token_min_amount_0,
                    token_min_amount_1: *token_min_amount_1,
                },
            },
            ExecuteMsg::ZapOutLiquidity { position_id, routes } => ExecuteMsgView::ZapOutLiquidity {
                position_id: *position_id,
                routes: routes.deep_view(),
            },
            ExecuteMsg::TransferFundsBack { receiver } => ExecuteMsgView::TransferFundsBack {
                receiver: receiver@,
            },
            ExecuteMsg::RegisterProtocolFee {
                percent,
                fee_receiver,
            } => ExecuteMsgView::RegisterProtocolFee {
                percent: *percent,
                fee_receiver: fee_receiver@,
            },
            ExecuteMsg::Withdraw { assets, recipient } => ExecuteMsgView::Withdraw {
                assets: assets.deep_view(),
                recipient: option_text(*recipient),
            },
        }
    }
}

#[derive(Clone, Copy, Debug, PartialEq, Eq, Structural)]
pub enum QueryMsg {
    Owner {  },
    ProtocolFee {  },
}

#[derive(Clone, Copy, Debug, PartialEq, Eq, Structural)]
pub struct MigrateMsg {}

/// The answer to a [`QueryMsg`].
#[derive(Debug, PartialEq, Eq)]
pub enum QueryResponse {
    Owner(Option<String>),
    ProtocolFee(ProtocolFee),
}

pub enum QueryResponseView {
    Owner(Option<Seq<char>>),
    ProtocolFee(ProtocolFeeView),
}

impl View for QueryResponse {
    type V = QueryResponseView;

    open spec fn view(&self) -> QueryResponseView {
        match self {
            QueryResponse::Owner(owner) => QueryResponseView::Owner(option_text(*owner)),
            QueryResponse::ProtocolFee(fee) => QueryResponseView::ProtocolFee(fee@),
        }
    }
}

} // verus!

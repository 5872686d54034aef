//! The wire forms of the host and the venue: the calls as they are sent,
//! and what the venue reports back.

use crate::coin::{NativeCoin, NativeCoinView};
use crate::host::{Call, CallView};
use crate::swap::{SwapAmountInRoute, SwapAmountInRouteView};
use osmosis_std::types::cosmos::base::v1beta1 as base;
use osmosis_std::types::osmosis::concentratedliquidity::v1beta1 as pool_manager;
use osmosis_std::types::osmosis::gamm::v1beta1::MsgSwapExactAmountIn;
use osmosis_std::types::osmosis::poolmanager::v1beta1 as venue;
use vstd::prelude::*;

verus! {

/// `CosmosMsg` of `cosmwasm_std`: a call in the host's wire form. Nothing
/// is read of it.
#[verifier::external_type_specification]
#[verifier::external_body]
#[verifier::reject_recursive_types(T)]
pub struct ExCosmosMsg<T>(cosmwasm_std::CosmosMsg<T>);

/// `Empty` of `cosmwasm_std`: the custom part of a `CosmosMsg` that has
/// none.
#[verifier::external_type_specification]
#[verifier::external_body]
pub struct ExEmpty(cosmwasm_std::Empty);

/// The bank message that sends `amount` of `denom` to `to_address`.
pub uninterp spec fn bank_send_wire(to_address: Seq<char>, denom: Seq<char>, amount: u128)
    -> cosmwasm_std::CosmosMsg;

/// The message that has the token contract at `contract_addr` transfer
/// `amount` to `recipient`, where the request to it can be written.
pub uninterp spec fn cw20_transfer_wire(
    contract_addr: Seq<char>,
    recipient: Seq<char>,
    amount: u128,
) -> Option<cosmwasm_std::CosmosMsg>;

/// The venue's message for a swap of an exact amount in.
pub uninterp spec fn swap_wire(
    sender: Seq<char>,
    routes: Seq<SwapAmountInRouteView>,
    token_in: NativeCoinView,
    token_out_min_amount: u128,
) -> cosmwasm_std::CosmosMsg;

/// The pool manager's message for the creation of a position.
pub uninterp spec fn create_position_wire(
    pool_id: u64,
    sender: Seq<char>,
    lower_tick: i64,
    upper_tick: i64,
    tokens_provided: Seq<NativeCoinView>,
    token_min_amount0: u128,
    token_min_amount1: u128,
) -> cosmwasm_std::CosmosMsg;

/// The pool manager's message for the withdrawal of a position.
pub uninterp spec fn withdraw_position_wire(
    position_id: u64,
    sender: Seq<char>,
    liquidity_amount: Seq<char>,
) -> cosmwasm_std::CosmosMsg;

/// The pool manager's message for handing positions to a new owner.
pub uninterp spec fn transfer_positions_wire(
    position_ids: Seq<u64>,
    sender: Seq<char>,
    new_owner: Seq<char>,
) -> cosmwasm_std::CosmosMsg;

/// Builds `BankMsg::Send` of `cosmwasm_std` with one coin; the message
/// depends on the arguments alone.
#[verifier::external_body]
fn encode_bank_send(to_address: &String, denom: &String, amount: u128) -> (r:
    cosmwasm_std::CosmosMsg)
    ensures
        r == bank_send_wire(to_address@, denom@, amount),
{
    let amount = cosmwasm_std::coins(amount, denom.clone());
    cosmwasm_std::CosmosMsg::Bank(
        cosmwasm_std::BankMsg::Send { to_address: to_address.clone(), amount },
    )
}

/// Builds `WasmMsg::Execute` of `cosmwasm_std` around the transfer request
/// of `cw20`, which `to_json_binary` writes as JSON; `None` where that
/// fails. The outcome depends on the arguments alone.
#[verifier::external_body]
fn encode_cw20_transfer(contract_addr: &String, recipient: &String, amount: u128) -> (r: Option<
    cosmwasm_std::CosmosMsg,
>)
    ensures
        r == cw20_transfer_wire(contract_addr@, recipient@, amount),
{
    let amount = cosmwasm_std::Uint128::new(amount);
    let request = cw20::Cw20ExecuteMsg::Transfer { recipient: recipient.clone(), amount };
    let contract_addr = contract_addr.clone();
    cosmwasm_std::to_json_binary(&request).ok().map(
        |msg| cosmwasm_std::WasmMsg::Execute { contract_addr, msg, funds: vec![] }.into(),
    )
}

/// Builds `MsgSwapExactAmountIn` of `osmosis_std` and turns it into a
/// message of the host, which encodes it as protobuf under its type URL.
/// Amounts are written in decimal. The message depends on the arguments
/// alone.
#[verifier::external_body]
fn encode_swap(
    sender: &String,
    routes: &Vec<SwapAmountInRoute>,
    token_in: &NativeCoin,
    token_out_min_amount: u128,
) -> (r: cosmwasm_std::CosmosMsg)
    ensures
        r == swap_wire(sender@, routes.deep_view(), token_in@, token_out_min_amount),
{
    let hop = |h: &SwapAmountInRoute|
        venue::SwapAmountInRoute { pool_id: h.pool_id, token_out_denom: h.token_out_denom.clone() };
    let denom = token_in.denom.clone();
    MsgSwapExactAmountIn {
        sender: sender.clone(),
        routes: routes.iter().map(hop).collect(),
        token_in: Some(base::Coin { denom, amount: token_in.amount.to_string() }),
        token_out_min_amount: token_out_min_amount.to_string(),
    }.into()
}

/// Builds `MsgCreatePosition` of `osmosis_std` and turns it into a message
/// of the host. Amounts are written in decimal. The message depends on the
/// arguments alone.
#[verifier::external_body]
fn encode_create_position(
    pool_id: u64,
    sender: &String,
    lower_tick: i64,
    upper_tick: i64,
    tokens_provided: &Vec<NativeCoin>,
    token_min_amount0: u128,
    token_min_amount1: u128,
) -> (r: cosmwasm_std::CosmosMsg)
    ensures
        r == create_position_wire(
            pool_id,
            sender@,
            lower_tick,
            upper_tick,
            tokens_provided.deep_view(),
            token_min_amount0,
            token_min_amount1,
        ),
{
    let wire = |c: &NativeCoin|
        base::Coin { denom: c.denom.clone(), amount: c.amount.to_string() };
    pool_manager::MsgCreatePosition {
        pool_id,
        sender: sender.clone(),
        lower_tick,
        upper_tick,
        tokens_provided: tokens_provided.iter().map(wire).collect(),
        token_min_amount0: token_min_amount0.to_string(),
        token_min_amount1: token_min_amount1.to_string(),
    }.into()
}

/// Builds `MsgWithdrawPosition` of `osmosis_std` and turns it into a
/// message of the host. The message depends on the arguments alone.
#[verifier::external_body]
fn encode_withdraw_position(position_id: u64, sender: &String, liquidity_amount: &String) -> (r:
    cosmwasm_std::CosmosMsg)
    ensures
        r == withdraw_position_wire(position_id, sender@, liquidity_amount@),
{
    pool_manager::MsgWithdrawPosition {
        position_id,
        sender: sender.clone(),
        liquidity_amount: liquidity_amount.clone(),
    }.into()
}

/// Builds `MsgTransferPositions` of `osmosis_std` and turns it into a
/// message of the host. The message depends on the arguments alone.
#[verifier::external_body]
fn encode_transfer_positions(position_ids: &Vec<u64>, sender: &String, new_owner: &String) -> (r:
    cosmwasm_std::CosmosMsg)
    ensures
        r == transfer_positions_wire(position_ids@, sender@, new_owner@),
{
    pool_manager::MsgTransferPositions {
        position_ids: position_ids.clone(),
        sender: sender.clone(),
        new_owner: new_owner.clone(),
    }.into()
}

/// The wire form of a call. A transfer is a bank message for a native
/// asset and a request to the token's contract for a token. A request to
/// the orchestrator itself has none here: it is written where requests are
/// written.
pub open spec fn wire_form(call: CallView) -> Option<cosmwasm_std::CosmosMsg> {
    match call {
        CallView::Transfer { asset, to_address } => if asset.native {
            Some(bank_send_wire(to_address, asset.denom, asset.amount))
        } else {
            cw20_transfer_wire(asset.denom, to_address, asset.amount)
        },
        CallView::SwapExactAmountIn {
            sender,
            routes,
            token_in,
            token_out_min_amount,
        } => Some(swap_wire(sender, routes, token_in, token_out_min_amount)),
        CallView::CreatePosition {
            pool_id,
            sender,
            lower_tick,
            upper_tick,
            tokens_provided,
            token_min_amount0,
            token_min_amount1,
        } => Some(
            create_position_wire(
                pool_id,
                sender,
                lower_tick,
                upper_tick,
                tokens_provided,
                token_min_amount0,
                token_min_amount1,
            ),
        ),
        CallView::WithdrawPosition { position_id, sender, liquidity_amount } => Some(
            withdraw_position_wire(position_id, sender, liquidity_amount),
        ),
        CallView::TransferPositions { position_ids, sender, new_owner } => Some(
            transfer_positions_wire(position_ids, sender, new_owner),
        ),
        CallView::Execute { .. } => None,
    }
}

impl Call {
    /// The call in its wire form, where it has one.
    pub fn to_cosmos_msg(&self) -> (r: Option<cosmwasm_std::CosmosMsg>)
        ensures
            r == wire_form(self@),
            self is Execute ==> r is None,
    {
        match self {
            Call::Transfer { asset, to_address } => match asset {
                crate::asset::Asset::Native(c) => Some(
                    encode_bank_send(to_address, &c.denom, c.amount),
                ),
                crate::asset::Asset::Cw20(c) => encode_cw20_transfer(
                    &c.address,
                    to_address,
                    c.amount,
                ),
            },
            Call::SwapExactAmountIn { sender, routes, token_in, token_out_min_amount } => Some(
                encode_swap(sender, routes, token_in, *token_out_min_amount),
            ),
            Call::CreatePosition {
                pool_id,
                sender,
                lower_tick,
                upper_tick,
                tokens_provided,
                token_min_amount0,
                token_min_amount1,
            } => Some(
                encode_create_position(
                    *pool_id,
                    sender,
                    *lower_tick,
                    *upper_tick,
                    tokens_provided,
                    *token_min_amount0,
                    *token_min_amount1,
                ),
            ),
            Call::WithdrawPosition { position_id, sender, liquidity_amount } => Some(
                encode_withdraw_position(*position_id, sender, liquidity_amount),
            ),
            Call::TransferPositions { position_ids, sender, new_owner } => Some(
                encode_transfer_positions(position_ids, sender, new_owner),
            ),
            Call::Execute { .. } => None,
        }
    }
}

/// The identifier of the new position that a completion payload of the pool
/// manager carries, where the payload can be read.
pub uninterp spec fn created_position_id(data: Seq<u8>) -> Option<u64>;

/// Reads the identifier of the new position from the payload that the
/// creation of a position reports back.
///
/// Calls `MsgCreatePositionResponse::try_from(Binary)` of `osmosis_std`,
/// which decodes the bytes as a protobuf message and fails where they are
/// none; the outcome depends on the bytes alone.
#[verifier::external_body]
pub(crate) fn decode_position_id(data: &Vec<u8>) -> (r: Option<u64>)
    ensures
        r == created_position_id(data@),
{
    let payload = cosmwasm_std::Binary::from(data.clone());
    pool_manager::MsgCreatePositionResponse::try_from(payload).ok().map(|r| r.position_id)
}

} // verus!

use cosmwasm_std::{from_json, BankMsg, CosmosMsg, Uint128, WasmMsg};
use osmosis_std::types::cosmos::base::v1beta1::Coin as WireCoin;
use osmosis_std::types::osmosis::concentratedliquidity::v1beta1::{
    MsgCreatePosition, MsgTransferPositions, MsgWithdrawPosition,
};
use osmosis_std::types::osmosis::gamm::v1beta1::MsgSwapExactAmountIn;
use osmosis_std::types::osmosis::poolmanager::v1beta1::SwapAmountInRoute as WireHop;
use osmosis_zapper::asset::{Asset, Cw20Coin};
use osmosis_zapper::coin::{coin, NativeCoin};
use osmosis_zapper::host::Call;
use osmosis_zapper::msg::ExecuteMsg;
use osmosis_zapper::swap::SwapAmountInRoute;

fn wi_stargate(msg: Option<CosmosMsg>) -> (String, cosmwasm_std::Binary) {
    match msg {
        Some(CosmosMsg::Stargate { type_url, value }) => (type_url, value),
        other => panic!("a stargate message was expected, not {:?}", other),
    }
}

#[test]
fn coin_is_made_of_amount_and_denom() {
    assert_eq!(coin(5, &"A".to_string()), NativeCoin { denom: "A".to_string(), amount: 5 });
}

#[test]
fn wire_form_of_a_native_transfer() {
    let call = Call::Transfer {
        asset: Asset::Native(NativeCoin { denom: "uosmo".to_string(), amount: 12 }),
        to_address: "user".to_string(),
    };
    assert_eq!(
        call.to_cosmos_msg(),
        Some(CosmosMsg::Bank(BankMsg::Send {
            to_address: "user".to_string(),
            amount: cosmwasm_std::coins(12, "uosmo"),
        }))
    );
}

#[test]
fn wire_form_of_a_token_transfer() {
    let call = Call::Transfer {
        asset: Asset::Cw20(Cw20Coin { address: "token".to_string(), amount: 12 }),
        to_address: "user".to_string(),
    };
    match call.to_cosmos_msg() {
        Some(CosmosMsg::Wasm(WasmMsg::Execute { contract_addr, msg, funds })) => {
            assert_eq!(contract_addr, "token");
            assert_eq!(funds, vec![]);
            let request: cw20::Cw20ExecuteMsg = from_json(&msg).unwrap();
            assert_eq!(
                request,
                cw20::Cw20ExecuteMsg::Transfer {
                    recipient: "user".to_string(),
                    amount: Uint128::new(12),
                }
            );
        }
        other => panic!("a request to the token was expected, not {:?}", other),
    }
}

#[test]
fn wire_form_of_a_swap() {
    let call = Call::SwapExactAmountIn {
        sender: "zapper".to_string(),
        routes: vec![
            SwapAmountInRoute { pool_id: 1, token_out_denom: "B".to_string() },
            SwapAmountInRoute { pool_id: 22, token_out_denom: "C".to_string() },
        ],
        token_in: NativeCoin { denom: "A".to_string(), amount: 196 },
        token_out_min_amount: 7,
    };
    let (type_url, value) = wi_stargate(call.to_cosmos_msg());
    assert_eq!(type_url, "/osmosis.gamm.v1beta1.MsgSwapExactAmountIn");
    assert_eq!(
        MsgSwapExactAmountIn::try_from(value).unwrap(),
        MsgSwapExactAmountIn {
            sender: "zapper".to_string(),
            routes: vec![
                WireHop { pool_id: 1, token_out_denom: "B".to_string() },
                WireHop { pool_id: 22, token_out_denom: "C".to_string() },
            ],
            token_in: Some(WireCoin { denom: "A".to_string(), amount: "196".to_string() }),
            token_out_min_amount: "7".to_string(),
        }
    );
}

#[test]
fn wire_form_of_a_position_creation() {
    let call = Call::CreatePosition {
        pool_id: 7,
        sender: "zapper".to_string(),
        lower_tick: -100,
        upper_tick: 200,
        tokens_provided: vec![
            NativeCoin { denom: "A".to_string(), amount: 400 },
            NativeCoin { denom: "B".to_string(), amount: 590 },
        ],
        token_min_amount0: 1,
        token_min_amount1: 0,
    };
    let (type_url, value) = wi_stargate(call.to_cosmos_msg());
    assert_eq!(type_url, "/osmosis.concentratedliquidity.v1beta1.MsgCreatePosition");
    assert_eq!(
        MsgCreatePosition::try_from(value).unwrap(),
        MsgCreatePosition {
            pool_id: 7,
            sender: "zapper".to_string(),
            lower_tick: -100,
            upper_tick: 200,
            tokens_provided: vec![
                WireCoin { denom: "A".to_string(), amount: "400".to_string() },
                WireCoin { denom: "B".to_string(), amount: "590".to_string() },
            ],
            token_min_amount0: "1".to_string(),
            token_min_amount1: "0".to_string(),
        }
    );
}

#[test]
fn wire_form_of_a_withdrawal() {
    let call = Call::WithdrawPosition {
        position_id: 9,
        sender: "zapper".to_string(),
        liquidity_amount: "123.5".to_string(),
    };
    let (type_url, value) = wi_stargate(call.to_cosmos_msg());
    assert_eq!(type_url, "/osmosis.concentratedliquidity.v1beta1.MsgWithdrawPosition");
    assert_eq!(
        MsgWithdrawPosition::try_from(value).unwrap(),
        MsgWithdrawPosition {
            position_id: 9,
            sender: "zapper".to_string(),
            liquidity_amount: "123.5".to_string(),
        }
    );
}

#[test]
fn wire_form_of_a_handover() {
    let call = Call::TransferPositions {
        position_ids: vec![31, 32],
        sender: "zapper".to_string(),
        new_owner: "user".to_string(),
    };
    let (type_url, value) = wi_stargate(call.to_cosmos_msg());
    assert_eq!(type_url, "/osmosis.concentratedliquidity.v1beta1.MsgTransferPositions");
    assert_eq!(
        MsgTransferPositions::try_from(value).unwrap(),
        MsgTransferPositions {
            position_ids: vec![31, 32],
            sender: "zapper".to_string(),
            new_owner: "user".to_string(),
        }
    );
}

#[test]
fn request_to_itself_has_no_wire_form_here() {
    let call = Call::Execute {
        contract_addr: "zapper".to_string(),
        msg: ExecuteMsg::TransferFundsBack { receiver: "user".to_string() },
    };
    assert_eq!(call.to_cosmos_msg(), None);
}

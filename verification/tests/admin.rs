use osmosis_zapper::asset::{Asset, Cw20Coin};
use osmosis_zapper::coin::NativeCoin;
use osmosis_zapper::contract::{
    assert_admin, execute, execute_change_owner, execute_register_protocol_fee, execute_withdraw,
    get_protocol_fee, instantiate, migrate, query, reply,
};
use osmosis_zapper::error::{AdminError, ContractError, StdError, ZapperError};
use osmosis_zapper::host::{
    Attribute, Call, ContractInfo, Deps, Env, MessageInfo, Querier, Reply, Response, SubMsg,
    SubMsgResponse, SubMsgResult,
};
use osmosis_zapper::math::{Decimal, DECIMAL_FRACTIONAL};
use osmosis_zapper::msg::{ExecuteMsg, InstantiateMsg, MigrateMsg, QueryMsg, QueryResponse};
use osmosis_zapper::state::{ProtocolFee, Storage};

fn ad_env() -> Env {
    Env { contract: ContractInfo { address: "zapper".to_string() } }
}

fn ad_info(sender: &str) -> MessageInfo {
    MessageInfo { sender: sender.to_string(), funds: vec![] }
}

fn ad_deps() -> Deps {
    let mut deps =
        Deps { storage: Storage::new(), querier: Querier { balances: vec![], position: None } };
    instantiate(&mut deps, ad_env(), ad_info("creator"), InstantiateMsg { owner: Some("owner".to_string()) })
        .unwrap();
    deps
}

fn ad_attr(key: &str, value: &str) -> Attribute {
    Attribute { key: key.to_string(), value: value.to_string() }
}

#[test]
fn owner_is_the_one_named_or_the_sender() {
    let deps = ad_deps();
    assert_eq!(deps.storage.owner, Some("owner".to_string()));
    let mut deps =
        Deps { storage: Storage::new(), querier: Querier { balances: vec![], position: None } };
    let response =
        instantiate(&mut deps, ad_env(), ad_info("creator"), InstantiateMsg { owner: None }).unwrap();
    assert_eq!(response, Response::new());
    assert_eq!(deps.storage.owner, Some("creator".to_string()));
    assert_eq!(
        query(&deps, ad_env(), QueryMsg::Owner {}),
        Ok(QueryResponse::Owner(Some("creator".to_string())))
    );
}

#[test]
fn admin_check() {
    let deps = ad_deps();
    assert_eq!(assert_admin(&deps.storage, &"owner".to_string()), Ok(()));
    assert_eq!(
        assert_admin(&deps.storage, &"user".to_string()),
        Err(ContractError::Admin(AdminError::NotAdmin))
    );
    assert_eq!(
        assert_admin(&Storage::new(), &"owner".to_string()),
        Err(ContractError::Admin(AdminError::NotAdmin))
    );
}

#[test]
fn owner_hands_over() {
    let mut deps = ad_deps();
    assert_eq!(
        execute_change_owner(&mut deps, ad_info("user"), "user".to_string()),
        Err(ContractError::Admin(AdminError::NotAdmin))
    );
    let response = execute(
        &mut deps,
        ad_env(),
        ad_info("owner"),
        ExecuteMsg::ChangeOwner { new_owner: "next".to_string() },
    )
    .unwrap();
    assert_eq!(
        response.attributes,
        vec![ad_attr("action", "update_admin"), ad_attr("admin", "next"), ad_attr("sender", "owner")]
    );
    assert_eq!(deps.storage.owner, Some("next".to_string()));
}

#[test]
fn fee_of_one_hundred_percent_or_more_is_refused() {
    for atomics in [DECIMAL_FRACTIONAL, DECIMAL_FRACTIONAL + 1, 2 * DECIMAL_FRACTIONAL, u128::MAX] {
        let mut deps = ad_deps();
        assert_eq!(
            execute_register_protocol_fee(
                &mut deps,
                ad_info("owner"),
                Decimal(atomics),
                "collector".to_string()
            ),
            Err(ContractError::Zapper(ZapperError::InvalidFee))
        );
        assert_eq!(deps.storage.protocol_fee, None);
        assert_eq!(get_protocol_fee(&deps), Err(ContractError::Std(StdError::NotFound)));
    }
}

#[test]
fn fee_below_one_hundred_percent_is_kept_as_it_is() {
    for atomics in [0u128, 1, 20_000_000_000_000_000, DECIMAL_FRACTIONAL - 1] {
        let mut deps = ad_deps();
        execute(
            &mut deps,
            ad_env(),
            ad_info("owner"),
            ExecuteMsg::RegisterProtocolFee {
                percent: Decimal(atomics),
                fee_receiver: "collector".to_string(),
            },
        )
        .unwrap();
        let expected =
            ProtocolFee { percent: Decimal(atomics), fee_receiver: "collector".to_string() };
        assert_eq!(get_protocol_fee(&deps), Ok(expected.clone()));
        assert_eq!(
            query(&deps, ad_env(), QueryMsg::ProtocolFee {}),
            Ok(QueryResponse::ProtocolFee(expected))
        );
    }
}

#[test]
fn fee_registration_is_logged() {
    let mut deps = ad_deps();
    let response = execute_register_protocol_fee(
        &mut deps,
        ad_info("owner"),
        Decimal::percent(2),
        "collector".to_string(),
    )
    .unwrap();
    assert_eq!(
        response.attributes,
        vec![
            ad_attr("action", "register_protocol_fee"),
            ad_attr("percent", "0.02"),
            ad_attr("fee_receiver", "collector"),
        ]
    );
    assert_eq!(response.messages, vec![]);
}

#[test]
fn only_the_owner_sets_the_fee() {
    let mut deps = ad_deps();
    assert_eq!(
        execute_register_protocol_fee(
            &mut deps,
            ad_info("user"),
            Decimal::percent(2),
            "user".to_string()
        ),
        Err(ContractError::Admin(AdminError::NotAdmin))
    );
    assert_eq!(deps.storage.protocol_fee, None);
}

#[test]
fn query_of_an_unset_fee_fails() {
    let deps = ad_deps();
    assert_eq!(query(&deps, ad_env(), QueryMsg::ProtocolFee {}), Err(StdError::GenericErr));
}

#[test]
fn owner_withdraws() {
    let native = Asset::Native(NativeCoin { denom: "A".to_string(), amount: 5 });
    let token = Asset::Cw20(Cw20Coin { address: "token".to_string(), amount: 6 });
    let mut deps = ad_deps();
    let response = execute(
        &mut deps,
        ad_env(),
        ad_info("owner"),
        ExecuteMsg::Withdraw { assets: vec![native.clone(), token.clone()], recipient: None },
    )
    .unwrap();
    assert_eq!(response.attributes, vec![ad_attr("action", "withdraw")]);
    assert_eq!(
        response.messages,
        vec![
            SubMsg::new(Call::Transfer { asset: native.clone(), to_address: "owner".to_string() }),
            SubMsg::new(Call::Transfer { asset: token.clone(), to_address: "owner".to_string() }),
        ]
    );
    let response =
        execute_withdraw(&mut deps, ad_info("owner"), vec![token.clone()], Some("safe".to_string()))
            .unwrap();
    assert_eq!(
        response.messages,
        vec![SubMsg::new(token.clone().transfer(&"safe".to_string()))]
    );
    assert_eq!(
        execute_withdraw(&mut deps, ad_info("user"), vec![token], None),
        Err(ContractError::Admin(AdminError::NotAdmin))
    );
}

#[test]
fn upgrade_is_logged() {
    let mut deps = ad_deps();
    let response = migrate(&mut deps, ad_env(), MigrateMsg {}, "0.1.0".to_string()).unwrap();
    assert_eq!(response.attributes, vec![ad_attr("new_version", "0.1.0")]);
    assert_eq!(response.messages, vec![]);
    assert_eq!(deps, ad_deps());
}

#[test]
fn signal_with_an_unknown_identifier() {
    for id in [0u64, 3, u64::MAX] {
        let mut deps = ad_deps();
        let signal = Reply { id, result: SubMsgResult::Success(SubMsgResponse { data: None }) };
        assert_eq!(
            reply(&mut deps, ad_env(), signal),
            Err(ContractError::Zapper(ZapperError::ReplyIdError(id)))
        );
    }
}

#[test]
fn response_is_built_in_order() {
    let a = Call::Transfer {
        asset: Asset::Native(NativeCoin { denom: "A".to_string(), amount: 1 }),
        to_address: "x".to_string(),
    };
    let b = Call::WithdrawPosition {
        position_id: 1,
        sender: "zapper".to_string(),
        liquidity_amount: "1".to_string(),
    };
    let c = Call::TransferPositions {
        position_ids: vec![1, 2],
        sender: "zapper".to_string(),
        new_owner: "x".to_string(),
    };
    let response = Response::new()
        .add_message(c.transfer_copy())
        .add_messages(vec![a.transfer_copy(), b.transfer_copy()])
        .add_submessage(SubMsg::reply_on_success(c.transfer_copy(), 4))
        .add_attribute("k".to_string(), "v".to_string());
    let calls: Vec<&Call> = response.messages.iter().map(|sub| &sub.msg).collect();
    assert_eq!(calls, vec![&c, &a, &b, &c]);
    assert_eq!(response.messages[3].id, 4);
    assert_eq!(response.attributes, vec![ad_attr("k", "v")]);
    assert_eq!(MigrateMsg {}, MigrateMsg {});
}

trait AdCopy {
    fn transfer_copy(&self) -> Call;
}

impl AdCopy for Call {
    fn transfer_copy(&self) -> Call {
        match self {
            Call::Transfer { asset, to_address } => {
                Call::Transfer { asset: asset.clone(), to_address: to_address.clone() }
            }
            Call::WithdrawPosition { position_id, sender, liquidity_amount } => {
                Call::WithdrawPosition {
                    position_id: *position_id,
                    sender: sender.clone(),
                    liquidity_amount: liquidity_amount.clone(),
                }
            }
            Call::TransferPositions { position_ids, sender, new_owner } => Call::TransferPositions {
                position_ids: position_ids.clone(),
                sender: sender.clone(),
                new_owner: new_owner.clone(),
            },
            _ => unreachable!(),
        }
    }
}

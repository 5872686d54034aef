use osmosis_std::types::osmosis::concentratedliquidity::v1beta1::MsgCreatePositionResponse;
use osmosis_zapper::asset::{Asset, Cw20Coin};
use osmosis_zapper::coin::NativeCoin;
use osmosis_zapper::contract::{execute, receive_cw20, reply};
use osmosis_zapper::deposit::{one_coin, take_deposit};
use osmosis_zapper::error::{
    ContractError, OverflowError, OverflowOperation, PaymentError, StdError, ZapperError,
};
use osmosis_zapper::helper::create_osmosis_swap_msg;
use osmosis_zapper::host::{
    Call, ContractInfo, Deps, Env, MessageInfo, Querier, Reply, ReplyOn, Response, SubMsg,
    SubMsgResponse, SubMsgResult,
};
use osmosis_zapper::math::Decimal;
use osmosis_zapper::msg::{Cw20HookMsg, Cw20ReceiveMsg, ExecuteMsg};
use osmosis_zapper::reply::{reply_create_position, settle_position};
use osmosis_zapper::state::{PendingPosition, ProtocolFee, Storage};
use osmosis_zapper::swap::{Route, SwapAmountInRoute, SwapOperation};
use osmosis_zapper::zap::{create_position, CREATE_POSITION_ID};

fn zi_native(denom: &str, amount: u128) -> Asset {
    Asset::Native(NativeCoin { denom: denom.to_string(), amount })
}

fn zi_coin(denom: &str, amount: u128) -> NativeCoin {
    NativeCoin { denom: denom.to_string(), amount }
}

fn zi_deps(balances: Vec<Asset>) -> Deps {
    Deps { storage: Storage::new(), querier: Querier { balances, position: None } }
}

fn zi_env() -> Env {
    Env { contract: ContractInfo { address: "zapper".to_string() } }
}

fn zi_info(sender: &str, funds: Vec<NativeCoin>) -> MessageInfo {
    MessageInfo { sender: sender.to_string(), funds }
}

fn zi_hop(pool: &str, denom_in: &str, denom_out: &str) -> SwapOperation {
    SwapOperation {
        pool: pool.to_string(),
        denom_in: denom_in.to_string(),
        denom_out: denom_out.to_string(),
        interface: None,
    }
}

fn zi_route(token_in: &str, offer_amount: u128, operations: Vec<SwapOperation>) -> Route {
    Route { token_in: token_in.to_string(), offer_amount, operations, minimum_receive: None }
}

fn zi_zap_in(routes: Vec<Route>) -> ExecuteMsg {
    ExecuteMsg::ZapInLiquidity {
        pool_id: 7,
        token_0: "A".to_string(),
        token_1: "B".to_string(),
        lower_tick: 100,
        upper_tick: 200,
        token_min_amount_0: Some(1),
        token_min_amount_1: None,
        routes,
    }
}

fn zi_create_position_call() -> Call {
    Call::Execute {
        contract_addr: "zapper".to_string(),
        msg: ExecuteMsg::CreatePosition {
            pool_id: 7,
            token_0: "A".to_string(),
            token_1: "B".to_string(),
            lower_tick: 100,
            upper_tick: 200,
            token_min_amount_0: Some(1),
            token_min_amount_1: None,
        },
    }
}

fn zi_swap(amount: u128, pool_id: u64, out: &str) -> Call {
    Call::SwapExactAmountIn {
        sender: "zapper".to_string(),
        routes: vec![SwapAmountInRoute { pool_id, token_out_denom: out.to_string() }],
        token_in: zi_coin("A", amount),
        token_out_min_amount: 0,
    }
}

fn zi_created(position_id: u64) -> Reply {
    let payload = MsgCreatePositionResponse {
        position_id,
        amount0: "400".to_string(),
        amount1: "590".to_string(),
        liquidity_created: "1".to_string(),
        lower_tick: 100,
        upper_tick: 200,
    };
    Reply {
        id: CREATE_POSITION_ID,
        result: SubMsgResult::Success(SubMsgResponse { data: Some(payload.to_proto_bytes()) }),
    }
}

fn zi_messages(response: &Response) -> Vec<&Call> {
    response.messages.iter().map(|sub| &sub.msg).collect()
}

#[test]
fn one_coin_of_the_funds() {
    assert_eq!(one_coin(&zi_info("user", vec![])), Err(PaymentError::NoFunds));
    assert_eq!(one_coin(&zi_info("user", vec![zi_coin("A", 0)])), Err(PaymentError::NoFunds));
    assert_eq!(one_coin(&zi_info("user", vec![zi_coin("A", 3)])), Ok(zi_coin("A", 3)));
    assert_eq!(
        one_coin(&zi_info("user", vec![zi_coin("A", 3), zi_coin("B", 1)])),
        Err(PaymentError::MultipleDenoms)
    );
}

#[test]
fn simple_zap_in() {
    // The deposit of 1000 A has arrived on the account, which held 5 A and 2 B before.
    let mut deps = zi_deps(vec![zi_native("A", 1005), zi_native("B", 2)]);
    let user = zi_info("user", vec![zi_coin("A", 1000)]);
    let response = execute(
        &mut deps,
        zi_env(),
        user,
        zi_zap_in(vec![zi_route("A", 600, vec![zi_hop("11", "A", "B")])]),
    )
    .unwrap();

    assert_eq!(zi_messages(&response), vec![&zi_swap(600, 11, "B"), &zi_create_position_call()]);
    assert!(response.messages.iter().all(|sub| sub.reply_on == ReplyOn::Never && sub.id == 0));
    assert_eq!(deps.storage.snap_balances.load(&"A".to_string()), Some(5));
    assert_eq!(deps.storage.snap_balances.load(&"B".to_string()), Some(2));
    assert_eq!(
        deps.storage.pending_position,
        Some(PendingPosition {
            receiver: "user".to_string(),
            pool_id: 7,
            token_0: "A".to_string(),
            token_1: "B".to_string(),
        })
    );

    // The swap took 600 A and paid 590 B. The orchestrator calls itself.
    deps.querier.balances = vec![zi_native("A", 405), zi_native("B", 592)];
    let request = match response.messages.into_iter().last().unwrap().msg {
        Call::Execute { msg, .. } => msg,
        _ => panic!("a request was expected"),
    };
    let response = execute(&mut deps, zi_env(), zi_info("zapper", vec![]), request).unwrap();
    assert_eq!(
        response.messages,
        vec![SubMsg {
            id: CREATE_POSITION_ID,
            reply_on: ReplyOn::Success,
            msg: Call::CreatePosition {
                pool_id: 7,
                sender: "zapper".to_string(),
                lower_tick: 100,
                upper_tick: 200,
                tokens_provided: vec![zi_coin("A", 400), zi_coin("B", 590)],
                token_min_amount0: 1,
                token_min_amount1: 0,
            },
        }]
    );

    // The position took 390 A and 580 B.
    deps.querier.balances = vec![zi_native("A", 15), zi_native("B", 12)];
    let response = reply(&mut deps, zi_env(), zi_created(31)).unwrap();
    assert_eq!(
        zi_messages(&response),
        vec![
            &Call::TransferPositions {
                position_ids: vec![31],
                sender: "zapper".to_string(),
                new_owner: "user".to_string(),
            },
            &Call::Transfer { asset: zi_native("A", 10), to_address: "user".to_string() },
            &Call::Transfer { asset: zi_native("B", 10), to_address: "user".to_string() },
        ]
    );
    assert_eq!(deps.storage.pending_position, None);
    assert_eq!(deps.storage.snap_balances.len(), 0);
}

#[test]
fn zap_in_with_a_fee() {
    let mut deps = zi_deps(vec![zi_native("A", 1000), zi_native("B", 0)]);
    deps.storage.protocol_fee =
        Some(ProtocolFee { percent: Decimal::percent(1), fee_receiver: "collector".to_string() });
    let response = execute(
        &mut deps,
        zi_env(),
        zi_info("user", vec![zi_coin("A", 1000)]),
        zi_zap_in(vec![
            zi_route("A", 300, vec![zi_hop("11", "A", "B")]),
            zi_route("ignored", 690, vec![zi_hop("12", "A", "B")]),
        ]),
    )
    .unwrap();
    assert_eq!(
        zi_messages(&response),
        vec![
            &Call::Transfer { asset: zi_native("A", 10), to_address: "collector".to_string() },
            &zi_swap(300, 11, "B"),
            &zi_swap(690, 12, "B"),
            &zi_create_position_call(),
        ]
    );
}

#[test]
fn deposit_is_fee_and_offers_and_what_is_left() {
    let deposit = 1000u128;
    let mut deps = zi_deps(vec![zi_native("A", 1234), zi_native("B", 0)]);
    deps.storage.protocol_fee =
        Some(ProtocolFee { percent: Decimal::percent(3), fee_receiver: "collector".to_string() });
    let response = execute(
        &mut deps,
        zi_env(),
        zi_info("user", vec![zi_coin("A", deposit)]),
        zi_zap_in(vec![
            zi_route("A", 300, vec![zi_hop("11", "A", "B")]),
            zi_route("A", 250, vec![zi_hop("12", "A", "B")]),
        ]),
    )
    .unwrap();
    let mut fee = 0;
    let mut offered = 0;
    for call in zi_messages(&response) {
        match call {
            Call::Transfer { asset, .. } => fee += asset.amount(),
            Call::SwapExactAmountIn { token_in, .. } => offered += token_in.amount,
            _ => {}
        }
    }
    assert_eq!(fee, 30);
    assert_eq!(offered, 550);
    // The fee is paid and the swaps are made; nothing else touches A.
    deps.querier.balances = vec![zi_native("A", 1234 - fee - offered), zi_native("B", 77)];
    let left = osmosis_zapper::state::diff(&deps, &"A".to_string()).unwrap().amount();
    assert_eq!(left, 420);
    assert_eq!(deposit, fee + offered + left);
}

#[test]
fn routes_may_not_offer_more_than_is_left_after_the_fee() {
    let mut deps = zi_deps(vec![zi_native("A", 1000), zi_native("B", 0)]);
    deps.storage.protocol_fee =
        Some(ProtocolFee { percent: Decimal::percent(1), fee_receiver: "collector".to_string() });
    let result = execute(
        &mut deps,
        zi_env(),
        zi_info("user", vec![zi_coin("A", 1000)]),
        zi_zap_in(vec![zi_route("A", 991, vec![zi_hop("11", "A", "B")])]),
    );
    assert_eq!(result, Err(ContractError::Zapper(ZapperError::InvalidFund)));
    assert_eq!(deps.storage.pending_position, None);
}

#[test]
fn a_route_needs_a_hop() {
    let mut deps = zi_deps(vec![zi_native("A", 1000), zi_native("B", 0)]);
    let result = execute(
        &mut deps,
        zi_env(),
        zi_info("user", vec![zi_coin("A", 1000)]),
        zi_zap_in(vec![zi_route("A", 10, vec![])]),
    );
    assert_eq!(result, Err(ContractError::SwapOperationsEmpty));
}

#[test]
fn zap_in_needs_one_coin() {
    let mut deps = zi_deps(vec![zi_native("A", 1000), zi_native("B", 0)]);
    assert_eq!(
        execute(&mut deps, zi_env(), zi_info("user", vec![]), zi_zap_in(vec![])),
        Err(ContractError::Payment(PaymentError::NoFunds))
    );
    assert_eq!(
        execute(
            &mut deps,
            zi_env(),
            zi_info("user", vec![zi_coin("A", 1), zi_coin("B", 1)]),
            zi_zap_in(vec![])
        ),
        Err(ContractError::Payment(PaymentError::MultipleDenoms))
    );
}

#[test]
fn zap_in_needs_the_balances_of_the_pool_tokens() {
    let mut deps = zi_deps(vec![zi_native("A", 1000)]);
    assert_eq!(
        execute(&mut deps, zi_env(), zi_info("user", vec![zi_coin("A", 10)]), zi_zap_in(vec![])),
        Err(ContractError::Std(StdError::NotFound))
    );
}

#[test]
fn deposit_that_is_not_on_the_account() {
    let mut deps = zi_deps(vec![zi_native("A", 9), zi_native("B", 0)]);
    assert_eq!(
        execute(&mut deps, zi_env(), zi_info("user", vec![zi_coin("A", 10)]), zi_zap_in(vec![])),
        Err(ContractError::Overflow(OverflowError { operation: OverflowOperation::Sub }))
    );
}

#[test]
fn failed_zap_in_changes_nothing() {
    let mut deps = zi_deps(vec![zi_native("A", 1000), zi_native("B", 0)]);
    deps.storage.snap_balances.save(&"old".to_string(), 1);
    let before = {
        let mut copy = zi_deps(vec![zi_native("A", 1000), zi_native("B", 0)]);
        copy.storage.snap_balances.save(&"old".to_string(), 1);
        copy
    };
    let result = execute(
        &mut deps,
        zi_env(),
        zi_info("user", vec![zi_coin("A", 1000)]),
        zi_zap_in(vec![
            zi_route("A", 100, vec![zi_hop("11", "A", "B")]),
            zi_route("A", 100, vec![zi_hop("not a pool", "A", "B")]),
        ]),
    );
    assert!(matches!(result, Err(ContractError::ParseIntPoolID(_))));
    assert_eq!(deps, before);
    assert_eq!(deps.storage.pending_position, None);
}

#[test]
fn swap_call_of_a_route() {
    let msg = create_osmosis_swap_msg(
        "zapper".to_string(),
        zi_coin("A", 5),
        vec![zi_hop("1", "A", "B"), zi_hop("2", "B", "C")],
        Some(9),
    );
    assert_eq!(
        msg,
        Ok(Call::SwapExactAmountIn {
            sender: "zapper".to_string(),
            routes: vec![
                SwapAmountInRoute { pool_id: 1, token_out_denom: "B".to_string() },
                SwapAmountInRoute { pool_id: 2, token_out_denom: "C".to_string() },
            ],
            token_in: zi_coin("A", 5),
            token_out_min_amount: 9,
        })
    );
    assert!(matches!(
        create_osmosis_swap_msg("zapper".to_string(), zi_coin("A", 5), vec![zi_hop("", "A", "B")], None),
        Err(ContractError::ParseIntPoolID(_))
    ));
}

#[test]
fn floor_of_a_zap_in_route_is_its_own() {
    let mut deps = zi_deps(vec![zi_native("A", 1000), zi_native("B", 0)]);
    let mut route = zi_route("A", 100, vec![zi_hop("11", "A", "B")]);
    route.minimum_receive = Some(95);
    let response = execute(
        &mut deps,
        zi_env(),
        zi_info("user", vec![zi_coin("A", 1000)]),
        zi_zap_in(vec![route]),
    )
    .unwrap();
    match &response.messages[0].msg {
        Call::SwapExactAmountIn { token_out_min_amount, .. } => assert_eq!(*token_out_min_amount, 95),
        _ => panic!("a swap was expected"),
    }
}

#[test]
fn deposit_of_a_token() {
    let token = || Asset::Cw20(Cw20Coin { address: "token".to_string(), amount: 50 });
    let mut deps = zi_deps(vec![token(), zi_native("A", 0), zi_native("B", 0)]);
    let hook = |amount: u128| Cw20ReceiveMsg {
        sender: "user".to_string(),
        amount,
        msg: Cw20HookMsg::ZapInLiquidity {
            pool_id: 7,
            token_0: "A".to_string(),
            token_1: "B".to_string(),
            lower_tick: 100,
            upper_tick: 200,
            token_min_amount_0: Some(1),
            token_min_amount_1: None,
            routes: vec![zi_route("token", 20, vec![zi_hop("3", "token", "A")])],
        },
    };
    // More is reported than the account holds.
    assert_eq!(
        receive_cw20(&mut deps, zi_env(), zi_info("token", vec![]), hook(51)),
        Err(ContractError::Zapper(ZapperError::InvalidFund))
    );
    let response =
        execute(&mut deps, zi_env(), zi_info("token", vec![]), ExecuteMsg::Receive(hook(50)))
            .unwrap();
    assert_eq!(
        zi_messages(&response),
        vec![
            &Call::SwapExactAmountIn {
                sender: "zapper".to_string(),
                routes: vec![SwapAmountInRoute { pool_id: 3, token_out_denom: "A".to_string() }],
                token_in: zi_coin("token", 20),
                token_out_min_amount: 0,
            },
            &zi_create_position_call(),
        ]
    );
    assert_eq!(deps.storage.pending_position.as_ref().unwrap().receiver, "token");
}

#[test]
fn declared_deposit_must_be_what_came() {
    let deps = zi_deps(vec![zi_native("A", 100)]);
    let env = zi_env();
    let info = zi_info("user", vec![zi_coin("A", 10)]);
    assert_eq!(take_deposit(Some(zi_native("A", 10)), &deps, &env, &info), Ok(zi_native("A", 10)));
    assert_eq!(take_deposit(None, &deps, &env, &info), Ok(zi_native("A", 10)));
    assert_eq!(
        take_deposit(Some(zi_native("A", 11)), &deps, &env, &info),
        Err(ContractError::Zapper(ZapperError::InvalidFund))
    );
    assert_eq!(
        take_deposit(Some(zi_native("B", 10)), &deps, &env, &info),
        Err(ContractError::Zapper(ZapperError::InvalidFund))
    );
    let token = Asset::Cw20(Cw20Coin { address: "token".to_string(), amount: 1 });
    assert_eq!(take_deposit(Some(token), &deps, &env, &info), Err(ContractError::Unauthorized));
    let unknown = Asset::Cw20(Cw20Coin { address: "user".to_string(), amount: 1 });
    assert_eq!(
        take_deposit(Some(unknown), &deps, &env, &info),
        Err(ContractError::Std(StdError::NotFound))
    );
    assert_eq!(zi_native("A", 10).validate(&deps, &env, &info), Ok(()));
}

#[test]
fn only_the_orchestrator_creates_the_position() {
    let mut deps = zi_deps(vec![zi_native("A", 10), zi_native("B", 10)]);
    deps.storage.snap_balances.save(&"A".to_string(), 0);
    deps.storage.snap_balances.save(&"B".to_string(), 0);
    for sender in ["user", "owner", "zapper2", ""] {
        let result = create_position(
            &mut deps,
            zi_env(),
            zi_info(sender, vec![]),
            7,
            "A".to_string(),
            "B".to_string(),
            1,
            2,
            None,
            None,
        );
        assert_eq!(result, Err(ContractError::Unauthorized));
    }
}

#[test]
fn position_gets_only_what_is_there() {
    let mut deps = zi_deps(vec![zi_native("A", 10), zi_native("B", 4)]);
    deps.storage.snap_balances.save(&"A".to_string(), 10);
    deps.storage.snap_balances.save(&"B".to_string(), 1);
    let response = create_position(
        &mut deps,
        zi_env(),
        zi_info("zapper", vec![]),
        7,
        "A".to_string(),
        "B".to_string(),
        u64::MAX,
        5,
        None,
        Some(2),
    )
    .unwrap();
    assert_eq!(
        response.messages[0].msg,
        Call::CreatePosition {
            pool_id: 7,
            sender: "zapper".to_string(),
            lower_tick: -1,
            upper_tick: 5,
            tokens_provided: vec![zi_coin("B", 3)],
            token_min_amount0: 0,
            token_min_amount1: 2,
        }
    );
}

#[test]
fn position_needs_the_records() {
    let mut deps = zi_deps(vec![zi_native("A", 10), zi_native("B", 4)]);
    let attempt = |deps: &mut Deps| {
        create_position(
            deps,
            zi_env(),
            zi_info("zapper", vec![]),
            7,
            "A".to_string(),
            "B".to_string(),
            1,
            2,
            None,
            None,
        )
    };
    assert_eq!(attempt(&mut deps), Err(ContractError::Std(StdError::NotFound)));
    deps.storage.snap_balances.save(&"A".to_string(), 11);
    deps.storage.snap_balances.save(&"B".to_string(), 0);
    assert_eq!(
        attempt(&mut deps),
        Err(ContractError::Overflow(OverflowError { operation: OverflowOperation::Sub }))
    );
}

#[test]
fn failed_creation_is_reported_with_its_reason() {
    let mut deps = zi_deps(vec![]);
    deps.storage.pending_position = Some(PendingPosition {
        receiver: "user".to_string(),
        pool_id: 7,
        token_0: "A".to_string(),
        token_1: "B".to_string(),
    });
    let signal = Reply { id: CREATE_POSITION_ID, result: SubMsgResult::Failure("no pool".to_string()) };
    assert_eq!(
        reply_create_position(&mut deps, zi_env(), signal),
        Err(ContractError::CreatePositionError("no pool".to_string()))
    );
    assert!(deps.storage.pending_position.is_some());
}

#[test]
fn creation_must_report_the_position() {
    let mut deps = zi_deps(vec![zi_native("A", 1), zi_native("B", 1)]);
    let without = Reply {
        id: CREATE_POSITION_ID,
        result: SubMsgResult::Success(SubMsgResponse { data: None }),
    };
    assert_eq!(
        reply_create_position(&mut deps, zi_env(), without),
        Err(ContractError::Std(StdError::NotFound))
    );
    let garbled = Reply {
        id: CREATE_POSITION_ID,
        result: SubMsgResult::Success(SubMsgResponse { data: Some(vec![0xff, 0xff, 0xff]) }),
    };
    assert_eq!(
        reply_create_position(&mut deps, zi_env(), garbled),
        Err(ContractError::Std(StdError::ParseErr))
    );
    // No zap-in is pending.
    assert_eq!(
        reply_create_position(&mut deps, zi_env(), zi_created(5)),
        Err(ContractError::Std(StdError::NotFound))
    );
}

#[test]
fn reported_position_is_the_one_handed_over() {
    for position_id in [0u64, 1, 300, u64::MAX] {
        let mut deps = zi_deps(vec![zi_native("A", 1), zi_native("B", 1)]);
        deps.storage.snap_balances.save(&"A".to_string(), 1);
        deps.storage.snap_balances.save(&"B".to_string(), 1);
        deps.storage.snap_balances.save(&"C".to_string(), 1);
        deps.storage.pending_position = Some(PendingPosition {
            receiver: "user".to_string(),
            pool_id: 7,
            token_0: "A".to_string(),
            token_1: "B".to_string(),
        });
        let response = reply_create_position(&mut deps, zi_env(), zi_created(position_id)).unwrap();
        assert_eq!(
            zi_messages(&response),
            vec![&Call::TransferPositions {
                position_ids: vec![position_id],
                sender: "zapper".to_string(),
                new_owner: "user".to_string(),
            }]
        );
        assert_eq!(deps.storage.snap_balances.len(), 1);
        assert_eq!(deps.storage.snap_balances.load(&"C".to_string()), Some(1));
    }
}

#[test]
fn settling_below_a_record_fails_and_changes_nothing() {
    for (held_a, held_b) in [(4u128, 9u128), (9, 4)] {
        let mut deps = zi_deps(vec![zi_native("A", held_a), zi_native("B", held_b)]);
        deps.storage.snap_balances.save(&"A".to_string(), 5);
        deps.storage.snap_balances.save(&"B".to_string(), 5);
        deps.storage.pending_position = Some(PendingPosition {
            receiver: "user".to_string(),
            pool_id: 7,
            token_0: "A".to_string(),
            token_1: "B".to_string(),
        });
        assert_eq!(
            reply(&mut deps, zi_env(), zi_created(31)),
            Err(ContractError::Overflow(OverflowError { operation: OverflowOperation::Sub }))
        );
        assert!(deps.storage.pending_position.is_some());
        assert_eq!(deps.storage.snap_balances.len(), 2);
    }
}

#[test]
fn settling_without_a_balance_changes_nothing() {
    let mut deps = zi_deps(vec![zi_native("A", 1)]);
    deps.storage.snap_balances.save(&"A".to_string(), 0);
    deps.storage.snap_balances.save(&"B".to_string(), 0);
    deps.storage.pending_position = Some(PendingPosition {
        receiver: "user".to_string(),
        pool_id: 7,
        token_0: "A".to_string(),
        token_1: "B".to_string(),
    });
    assert_eq!(
        settle_position(&mut deps, &zi_env(), 4),
        Err(ContractError::Std(StdError::NotFound))
    );
    assert!(deps.storage.pending_position.is_some());
    assert_eq!(deps.storage.snap_balances.len(), 2);
}

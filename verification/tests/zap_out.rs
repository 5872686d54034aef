use osmosis_zapper::asset::{Asset, Cw20Coin};
use osmosis_zapper::coin::NativeCoin;
use osmosis_zapper::contract::{collect_refunds, execute, execute_transfer_funds_back, reply};
use osmosis_zapper::error::{
    ContractError, OverflowError, OverflowOperation, StdError, ZapperError,
};
use osmosis_zapper::host::{
    Call, ContractInfo, Deps, Env, MessageInfo, PositionDetail, Querier, Reply, ReplyOn, Response,
    SubMsg, SubMsgResponse, SubMsgResult,
};
use osmosis_zapper::math::Decimal;
use osmosis_zapper::msg::ExecuteMsg;
use osmosis_zapper::reply::{collect_received, plan_zap_out_swaps, reply_withdraw_position};
use osmosis_zapper::snapshot::SnapBalances;
use osmosis_zapper::state::{PendingZapOut, ProtocolFee, Storage};
use osmosis_zapper::swap::{Route, SwapAmountInRoute, SwapOperation};
use osmosis_zapper::zap::{zap_out_liquidity, WITHDRAW_POSITION_ID};

fn zo_native(denom: &str, amount: u128) -> Asset {
    Asset::Native(NativeCoin { denom: denom.to_string(), amount })
}

fn zo_env() -> Env {
    Env { contract: ContractInfo { address: "zapper".to_string() } }
}

fn zo_info(sender: &str) -> MessageInfo {
    MessageInfo { sender: sender.to_string(), funds: vec![] }
}

fn zo_hop(pool: &str, denom_in: &str, denom_out: &str) -> SwapOperation {
    SwapOperation {
        pool: pool.to_string(),
        denom_in: denom_in.to_string(),
        denom_out: denom_out.to_string(),
        interface: None,
    }
}

fn zo_route(token_in: &str, offer_amount: u128, operations: Vec<SwapOperation>) -> Route {
    Route { token_in: token_in.to_string(), offer_amount, operations, minimum_receive: None }
}

fn zo_position() -> PositionDetail {
    PositionDetail {
        position_id: 9,
        liquidity: "123.5".to_string(),
        token_0: "A".to_string(),
        token_1: "B".to_string(),
        claimable_incentives: vec!["I".to_string()],
    }
}

fn zo_deps(balances: Vec<Asset>) -> Deps {
    Deps { storage: Storage::new(), querier: Querier { balances, position: Some(zo_position()) } }
}

fn zo_entries(table: &SnapBalances) -> Vec<(String, u128)> {
    table.entries()
}

fn zo_withdrawn() -> Reply {
    Reply {
        id: WITHDRAW_POSITION_ID,
        result: SubMsgResult::Success(SubMsgResponse { data: None }),
    }
}

fn zo_messages(response: &Response) -> Vec<&Call> {
    response.messages.iter().map(|sub| &sub.msg).collect()
}

fn zo_fee(percent: u64) -> Option<ProtocolFee> {
    Some(ProtocolFee { percent: Decimal::percent(percent), fee_receiver: "collector".to_string() })
}

fn zo_started(route_amount: u128) -> Deps {
    // The account held 10 A, 20 B and no I and no C when the zap-out started.
    let mut deps = zo_deps(vec![
        zo_native("A", 10),
        zo_native("B", 20),
        zo_native("C", 0),
        zo_native("I", 0),
    ]);
    deps.storage.snap_balances.save(&"stale".to_string(), 77);
    deps.storage.protocol_fee = zo_fee(2);
    let routes = vec![zo_route("A", route_amount, vec![zo_hop("5", "A", "C")])];
    let response = execute(
        &mut deps,
        zo_env(),
        zo_info("user"),
        ExecuteMsg::ZapOutLiquidity { position_id: 9, routes },
    )
    .unwrap();
    assert_eq!(
        response.messages,
        vec![SubMsg {
            id: WITHDRAW_POSITION_ID,
            reply_on: ReplyOn::Success,
            msg: Call::WithdrawPosition {
                position_id: 9,
                sender: "zapper".to_string(),
                liquidity_amount: "123.5".to_string(),
            },
        }]
    );
    deps
}

#[test]
fn zap_out_records_what_the_withdrawal_will_change() {
    let deps = zo_started(200);
    assert_eq!(
        zo_entries(&deps.storage.snap_balances),
        vec![
            ("A".to_string(), 10),
            ("B".to_string(), 20),
            ("C".to_string(), 0),
            ("I".to_string(), 0),
        ]
    );
    assert_eq!(
        deps.storage.pending_zap_out,
        Some(PendingZapOut {
            receiver: "user".to_string(),
            routes: vec![zo_route("A", 200, vec![zo_hop("5", "A", "C")])],
        })
    );
}

#[test]
fn zap_out_with_a_fee() {
    let mut deps = zo_started(200);
    // The withdrawal yields 500 A and 300 B.
    deps.querier.balances =
        vec![zo_native("A", 510), zo_native("B", 320), zo_native("C", 0), zo_native("I", 0)];
    let response = reply(&mut deps, zo_env(), zo_withdrawn()).unwrap();
    assert_eq!(
        zo_messages(&response),
        vec![
            &Call::Transfer { asset: zo_native("A", 4), to_address: "collector".to_string() },
            &Call::SwapExactAmountIn {
                sender: "zapper".to_string(),
                routes: vec![SwapAmountInRoute { pool_id: 5, token_out_denom: "C".to_string() }],
                token_in: NativeCoin { denom: "A".to_string(), amount: 196 },
                token_out_min_amount: 0,
            },
            &Call::Execute {
                contract_addr: "zapper".to_string(),
                msg: ExecuteMsg::TransferFundsBack { receiver: "user".to_string() },
            },
        ]
    );
    assert_eq!(deps.storage.pending_zap_out, None);
    assert_eq!(deps.storage.snap_balances.len(), 4);

    // The fee is paid, and the swap took 196 A and paid 180 C.
    deps.querier.balances =
        vec![zo_native("A", 310), zo_native("B", 320), zo_native("C", 180), zo_native("I", 0)];
    let request = match response.messages.into_iter().last().unwrap().msg {
        Call::Execute { msg, .. } => msg,
        _ => panic!("a request was expected"),
    };
    let response = execute(&mut deps, zo_env(), zo_info("zapper"), request).unwrap();
    assert_eq!(
        zo_messages(&response),
        vec![
            &Call::Transfer { asset: zo_native("A", 300), to_address: "user".to_string() },
            &Call::Transfer { asset: zo_native("B", 300), to_address: "user".to_string() },
            &Call::Transfer { asset: zo_native("C", 180), to_address: "user".to_string() },
        ]
    );
    assert_eq!(deps.storage.snap_balances.len(), 0);
}

#[test]
fn zap_out_route_that_wants_more_than_came() {
    let mut deps = zo_started(600);
    deps.querier.balances =
        vec![zo_native("A", 510), zo_native("B", 320), zo_native("C", 0), zo_native("I", 0)];
    assert_eq!(
        reply(&mut deps, zo_env(), zo_withdrawn()),
        Err(ContractError::Zapper(ZapperError::ZapOutNotEnoughBalanceToSwap))
    );
    assert!(deps.storage.pending_zap_out.is_some());
    assert_eq!(deps.storage.snap_balances.len(), 4);
}

#[test]
fn zap_out_routes_share_what_came() {
    let mut assets = vec![zo_native("A", 500), zo_native("B", 300)];
    let routes = vec![
        zo_route("A", 300, vec![zo_hop("5", "A", "C")]),
        zo_route("B", 300, vec![zo_hop("7", "B", "C")]),
        zo_route("A", 200, vec![zo_hop("8", "A", "D")]),
    ];
    let msgs = plan_zap_out_swaps(&routes, &mut assets, &None, &"zapper".to_string()).unwrap();
    assert_eq!(assets, vec![zo_native("A", 0), zo_native("B", 0)]);
    let swapped: Vec<(u128, u64)> = msgs
        .iter()
        .map(|call| match call {
            Call::SwapExactAmountIn { token_in, routes, .. } => (token_in.amount, routes[0].pool_id),
            _ => panic!("a swap was expected"),
        })
        .collect();
    assert_eq!(swapped, vec![(300, 5), (300, 7), (200, 8)]);

    let mut assets = vec![zo_native("A", 500)];
    let too_much = vec![
        zo_route("A", 300, vec![zo_hop("5", "A", "C")]),
        zo_route("A", 201, vec![zo_hop("8", "A", "D")]),
    ];
    assert_eq!(
        plan_zap_out_swaps(&too_much, &mut assets, &None, &"zapper".to_string()),
        Err(ContractError::Zapper(ZapperError::ZapOutNotEnoughBalanceToSwap))
    );
}

#[test]
fn zap_out_route_of_which_nothing_came_in() {
    let mut assets = vec![zo_native("A", 500)];
    let wanting = vec![
        zo_route("A", 100, vec![zo_hop("5", "A", "C")]),
        zo_route("X", 1, vec![zo_hop("6", "X", "C")]),
    ];
    assert_eq!(
        plan_zap_out_swaps(&wanting, &mut assets, &zo_fee(2), &"zapper".to_string()),
        Err(ContractError::Zapper(ZapperError::ZapOutNotEnoughBalanceToSwap))
    );

    // A route that wants nothing draws on nothing.
    let mut assets = vec![zo_native("A", 500)];
    let idle = vec![zo_route("X", 0, vec![zo_hop("6", "X", "C")])];
    assert_eq!(
        plan_zap_out_swaps(&idle, &mut assets, &zo_fee(2), &"zapper".to_string()),
        Ok(vec![Call::SwapExactAmountIn {
            sender: "zapper".to_string(),
            routes: vec![SwapAmountInRoute { pool_id: 6, token_out_denom: "C".to_string() }],
            token_in: NativeCoin { denom: "X".to_string(), amount: 0 },
            token_out_min_amount: 0,
        }])
    );
    assert_eq!(assets, vec![zo_native("A", 500)]);
    let unreadable = vec![zo_route("X", 0, vec![zo_hop("six", "X", "C")])];
    assert!(matches!(
        plan_zap_out_swaps(&unreadable, &mut assets, &None, &"zapper".to_string()),
        Err(ContractError::ParseIntPoolID(_))
    ));
}

#[test]
fn reply_fails_for_a_route_of_which_nothing_came_in() {
    let mut deps = zo_started(200);
    deps.storage.pending_zap_out = Some(PendingZapOut {
        receiver: "user".to_string(),
        routes: vec![zo_route("X", 1, vec![zo_hop("6", "X", "C")])],
    });
    deps.querier.balances =
        vec![zo_native("A", 510), zo_native("B", 320), zo_native("C", 0), zo_native("I", 0)];
    assert_eq!(
        reply(&mut deps, zo_env(), zo_withdrawn()),
        Err(ContractError::Zapper(ZapperError::ZapOutNotEnoughBalanceToSwap))
    );
    assert!(deps.storage.pending_zap_out.is_some());
}

#[test]
fn zap_out_route_with_a_floor_and_a_bad_pool() {
    let mut assets = vec![zo_native("A", 500)];
    let mut route = zo_route("A", 100, vec![zo_hop("5", "A", "C")]);
    route.minimum_receive = Some(90);
    let msgs = plan_zap_out_swaps(&vec![route], &mut assets, &zo_fee(10), &"zapper".to_string())
        .unwrap();
    assert_eq!(
        msgs,
        vec![
            Call::Transfer { asset: zo_native("A", 10), to_address: "collector".to_string() },
            Call::SwapExactAmountIn {
                sender: "zapper".to_string(),
                routes: vec![SwapAmountInRoute { pool_id: 5, token_out_denom: "C".to_string() }],
                token_in: NativeCoin { denom: "A".to_string(), amount: 90 },
                token_out_min_amount: 90,
            },
        ]
    );
    let mut assets = vec![zo_native("A", 500)];
    let bad = vec![zo_route("A", 100, vec![zo_hop("five", "A", "C")])];
    assert!(matches!(
        plan_zap_out_swaps(&bad, &mut assets, &None, &"zapper".to_string()),
        Err(ContractError::ParseIntPoolID(_))
    ));
}

#[test]
fn what_came_in_of_each_record() {
    let mut deps = zo_deps(vec![
        zo_native("A", 15),
        Asset::Cw20(Cw20Coin { address: "token".to_string(), amount: 8 }),
    ]);
    deps.storage.snap_balances.save(&"token".to_string(), 8);
    deps.storage.snap_balances.save(&"A".to_string(), 5);
    assert_eq!(
        collect_received(&deps),
        Ok(vec![
            zo_native("A", 10),
            Asset::Cw20(Cw20Coin { address: "token".to_string(), amount: 0 }),
        ])
    );
    deps.storage.snap_balances.save(&"A".to_string(), 16);
    assert_eq!(
        collect_received(&deps),
        Err(ContractError::Overflow(OverflowError { operation: OverflowOperation::Sub }))
    );
    deps.storage.snap_balances.save(&"B".to_string(), 16);
    deps.storage.snap_balances.save(&"A".to_string(), 1);
    assert_eq!(collect_received(&deps), Err(ContractError::Std(StdError::NotFound)));
}

#[test]
fn failed_withdrawal_is_reported_with_its_reason() {
    let mut deps = zo_started(200);
    let signal =
        Reply { id: WITHDRAW_POSITION_ID, result: SubMsgResult::Failure("locked".to_string()) };
    assert_eq!(
        reply_withdraw_position(&mut deps, zo_env(), signal),
        Err(ContractError::WithdrawPositionError("locked".to_string()))
    );
    assert!(deps.storage.pending_zap_out.is_some());
}

#[test]
fn withdrawal_without_a_pending_zap_out() {
    let mut deps = zo_deps(vec![]);
    assert_eq!(
        reply_withdraw_position(&mut deps, zo_env(), zo_withdrawn()),
        Err(ContractError::Std(StdError::NotFound))
    );
}

#[test]
fn zap_out_needs_the_position() {
    let mut deps = zo_deps(vec![zo_native("A", 1), zo_native("B", 1), zo_native("I", 1)]);
    assert_eq!(
        zap_out_liquidity(&mut deps, zo_env(), zo_info("user"), 10, vec![]),
        Err(ContractError::Std(StdError::NotFound))
    );
    deps.querier.position = None;
    assert_eq!(
        zap_out_liquidity(&mut deps, zo_env(), zo_info("user"), 9, vec![]),
        Err(ContractError::Std(StdError::NotFound))
    );
    assert_eq!(deps.querier.position_by_id(9), Err(ContractError::Std(StdError::NotFound)));
}

#[test]
fn failed_zap_out_changes_nothing() {
    // The balance of the incentive cannot be had.
    let mut deps = zo_deps(vec![zo_native("A", 1), zo_native("B", 1)]);
    deps.storage.snap_balances.save(&"stale".to_string(), 77);
    assert_eq!(
        zap_out_liquidity(&mut deps, zo_env(), zo_info("user"), 9, vec![]),
        Err(ContractError::Std(StdError::NotFound))
    );
    assert_eq!(zo_entries(&deps.storage.snap_balances), vec![("stale".to_string(), 77)]);
    assert_eq!(deps.storage.pending_zap_out, None);
}

#[test]
fn zap_out_passes_over_routes_without_a_hop() {
    let mut deps = zo_deps(vec![zo_native("A", 1), zo_native("B", 2), zo_native("I", 3)]);
    let routes = vec![zo_route("A", 1, vec![]), zo_route("B", 1, vec![zo_hop("1", "B", "A")])];
    zap_out_liquidity(&mut deps, zo_env(), zo_info("user"), 9, routes).unwrap();
    assert_eq!(
        zo_entries(&deps.storage.snap_balances),
        vec![("A".to_string(), 1), ("B".to_string(), 2), ("I".to_string(), 3)]
    );
}

#[test]
fn only_the_orchestrator_hands_funds_back() {
    for sender in ["user", "owner", ""] {
        let mut deps = zo_deps(vec![zo_native("A", 10)]);
        deps.storage.snap_balances.save(&"A".to_string(), 1);
        assert_eq!(
            execute_transfer_funds_back(&mut deps, zo_env(), zo_info(sender), "user".to_string()),
            Err(ContractError::Unauthorized)
        );
        assert_eq!(deps.storage.snap_balances.len(), 1);
    }
}

#[test]
fn refund_step_pays_each_surplus_once_and_clears_the_table() {
    let mut deps = zo_deps(vec![
        zo_native("A", 10),
        zo_native("B", 5),
        zo_native("C", 7),
        Asset::Cw20(Cw20Coin { address: "token".to_string(), amount: 3 }),
    ]);
    deps.storage.snap_balances.save(&"A".to_string(), 4);
    deps.storage.snap_balances.save(&"B".to_string(), 5);
    deps.storage.snap_balances.save(&"token".to_string(), 1);
    deps.storage.snap_balances.save(&"C".to_string(), 0);
    let response =
        execute_transfer_funds_back(&mut deps, zo_env(), zo_info("zapper"), "user".to_string())
            .unwrap();
    assert_eq!(
        zo_messages(&response),
        vec![
            &Call::Transfer { asset: zo_native("A", 6), to_address: "user".to_string() },
            &Call::Transfer { asset: zo_native("C", 7), to_address: "user".to_string() },
            &Call::Transfer {
                asset: Asset::Cw20(Cw20Coin { address: "token".to_string(), amount: 2 }),
                to_address: "user".to_string(),
            },
        ]
    );
    assert_eq!(deps.storage.snap_balances.len(), 0);
}

#[test]
fn refund_step_below_a_record_fails_and_clears_the_table() {
    let mut deps = zo_deps(vec![zo_native("A", 10), zo_native("B", 4)]);
    deps.storage.snap_balances.save(&"A".to_string(), 4);
    deps.storage.snap_balances.save(&"B".to_string(), 5);
    deps.storage.owner = Some("owner".to_string());
    assert_eq!(
        execute_transfer_funds_back(&mut deps, zo_env(), zo_info("zapper"), "user".to_string()),
        Err(ContractError::Overflow(OverflowError { operation: OverflowOperation::Sub }))
    );
    assert_eq!(deps.storage.snap_balances.len(), 0);
    assert_eq!(deps.storage.owner, Some("owner".to_string()));
}

#[test]
fn refund_step_without_a_balance_fails_and_clears_the_table() {
    let mut deps = zo_deps(vec![zo_native("A", 10)]);
    deps.storage.snap_balances.save(&"A".to_string(), 4);
    deps.storage.snap_balances.save(&"B".to_string(), 5);
    let request = ExecuteMsg::TransferFundsBack { receiver: "user".to_string() };
    assert_eq!(
        execute(&mut deps, zo_env(), zo_info("zapper"), request),
        Err(ContractError::Std(StdError::NotFound))
    );
    assert_eq!(deps.storage.snap_balances.len(), 0);
}

#[test]
fn refunds_are_built_without_a_change() {
    let mut deps = zo_deps(vec![zo_native("A", 10), zo_native("B", 5)]);
    deps.storage.snap_balances.save(&"A".to_string(), 4);
    deps.storage.snap_balances.save(&"B".to_string(), 5);
    assert_eq!(
        collect_refunds(&deps, &"user".to_string()),
        Ok(vec![Call::Transfer { asset: zo_native("A", 6), to_address: "user".to_string() }])
    );
    assert_eq!(deps.storage.snap_balances.len(), 2);
}

use osmosis_zapper::asset::Asset;
use osmosis_zapper::coin::NativeCoin;
use osmosis_zapper::contract::execute;
use osmosis_zapper::host::{
    ContractInfo, Deps, Env, MessageInfo, PositionDetail, Querier, Reply, SubMsgResponse,
    SubMsgResult,
};
use osmosis_zapper::math::Decimal;
use osmosis_zapper::msg::{Cw20HookMsg, Cw20ReceiveMsg, ExecuteMsg};
use osmosis_zapper::plan::{balances_to_query, balances_to_query_for_reply, position_to_query};
use osmosis_zapper::state::{PendingPosition, Storage};
use osmosis_zapper::swap::{Route, SwapOperation};
use osmosis_zapper::zap::list_zap_out_denoms;

fn pl_deps() -> Deps {
    let mut deps =
        Deps { storage: Storage::new(), querier: Querier { balances: vec![], position: None } };
    deps.storage.snap_balances.save(&"X".to_string(), 1);
    deps.storage.snap_balances.save(&"Y".to_string(), 2);
    deps
}

fn pl_info(sender: &str) -> MessageInfo {
    MessageInfo { sender: sender.to_string(), funds: vec![] }
}

fn pl_route(out: &[&str]) -> Route {
    Route {
        token_in: "A".to_string(),
        offer_amount: 1,
        operations: out
            .iter()
            .map(|denom| SwapOperation {
                pool: "1".to_string(),
                denom_in: "A".to_string(),
                denom_out: denom.to_string(),
                interface: None,
            })
            .collect(),
        minimum_receive: None,
    }
}

fn pl_position() -> PositionDetail {
    PositionDetail {
        position_id: 9,
        liquidity: "1".to_string(),
        token_0: "A".to_string(),
        token_1: "B".to_string(),
        claimable_incentives: vec!["I".to_string(), "J".to_string()],
    }
}

fn pl_zap_in() -> ExecuteMsg {
    ExecuteMsg::ZapInLiquidity {
        pool_id: 7,
        token_0: "A".to_string(),
        token_1: "B".to_string(),
        lower_tick: 1,
        upper_tick: 2,
        token_min_amount_0: None,
        token_min_amount_1: None,
        routes: vec![pl_route(&["Z"])],
    }
}

#[test]
fn balances_that_a_zap_in_reads() {
    assert_eq!(balances_to_query(&pl_deps(), &pl_info("user"), &pl_zap_in()), vec!["A", "B"]);
    assert_eq!(position_to_query(&pl_zap_in()), None);
    let create = ExecuteMsg::CreatePosition {
        pool_id: 7,
        token_0: "A".to_string(),
        token_1: "B".to_string(),
        lower_tick: 1,
        upper_tick: 2,
        token_min_amount_0: None,
        token_min_amount_1: None,
    };
    assert_eq!(balances_to_query(&pl_deps(), &pl_info("zapper"), &create), vec!["A", "B"]);
    let deposit = ExecuteMsg::Receive(Cw20ReceiveMsg {
        sender: "user".to_string(),
        amount: 5,
        msg: Cw20HookMsg::ZapInLiquidity {
            pool_id: 7,
            token_0: "A".to_string(),
            token_1: "B".to_string(),
            lower_tick: 1,
            upper_tick: 2,
            token_min_amount_0: None,
            token_min_amount_1: None,
            routes: vec![],
        },
    });
    assert_eq!(balances_to_query(&pl_deps(), &pl_info("token"), &deposit), vec!["token", "A", "B"]);
}

#[test]
fn balances_that_a_zap_out_reads() {
    let msg = ExecuteMsg::ZapOutLiquidity {
        position_id: 9,
        routes: vec![pl_route(&["C", "D"]), pl_route(&[]), pl_route(&["A"])],
    };
    assert_eq!(position_to_query(&msg), Some(9));
    let mut deps = pl_deps();
    assert_eq!(balances_to_query(&deps, &pl_info("user"), &msg), Vec::<String>::new());
    deps.querier.position = Some(pl_position());
    assert_eq!(
        balances_to_query(&deps, &pl_info("user"), &msg),
        vec!["A", "B", "I", "J", "D", "A"]
    );
    assert_eq!(
        list_zap_out_denoms(&pl_position(), &vec![pl_route(&["C"])]),
        vec!["A", "B", "I", "J", "C"]
    );
}

#[test]
fn balances_that_the_refund_step_reads() {
    let msg = ExecuteMsg::TransferFundsBack { receiver: "user".to_string() };
    assert_eq!(balances_to_query(&pl_deps(), &pl_info("zapper"), &msg), vec!["X", "Y"]);
}

#[test]
fn requests_that_read_no_balance() {
    let deps = pl_deps();
    let info = pl_info("owner");
    for msg in [
        ExecuteMsg::ChangeOwner { new_owner: "next".to_string() },
        ExecuteMsg::RegisterProtocolFee {
            percent: Decimal::percent(1),
            fee_receiver: "collector".to_string(),
        },
        ExecuteMsg::Withdraw { assets: vec![], recipient: None },
    ] {
        assert_eq!(balances_to_query(&deps, &info, &msg), Vec::<String>::new());
        assert_eq!(position_to_query(&msg), None);
    }
}

#[test]
fn balances_that_a_continuation_reads() {
    let signal = |id: u64| Reply {
        id,
        result: SubMsgResult::Success(SubMsgResponse { data: None }),
    };
    let mut deps = pl_deps();
    assert_eq!(balances_to_query_for_reply(&deps, &signal(1)), Vec::<String>::new());
    assert_eq!(balances_to_query_for_reply(&deps, &signal(2)), vec!["X", "Y"]);
    assert_eq!(balances_to_query_for_reply(&deps, &signal(3)), Vec::<String>::new());
    deps.storage.pending_position = Some(PendingPosition {
        receiver: "user".to_string(),
        pool_id: 7,
        token_0: "A".to_string(),
        token_1: "B".to_string(),
    });
    assert_eq!(balances_to_query_for_reply(&deps, &signal(1)), vec!["A", "B"]);
}

#[test]
fn other_balances_make_no_difference() {
    let run = |balances: Vec<Asset>| {
        let mut deps = pl_deps();
        deps.querier.balances = balances;
        let info = MessageInfo {
            sender: "user".to_string(),
            funds: vec![NativeCoin { denom: "A".to_string(), amount: 10 }],
        };
        let env = Env { contract: ContractInfo { address: "zapper".to_string() } };
        let result = execute(&mut deps, env, info, pl_zap_in());
        (result, deps.storage)
    };
    let native =
        |denom: &str, amount: u128| Asset::Native(NativeCoin { denom: denom.to_string(), amount });
    let lean = run(vec![native("A", 10), native("B", 3)]);
    let rich = run(vec![native("Q", 1), native("A", 10), native("B", 3), native("A", 99)]);
    assert!(lean.0.is_ok());
    assert_eq!(lean, rich);
}

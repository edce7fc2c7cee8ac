use dexrouter::asset::{AssetInfo, Coin, Decimal};
use dexrouter::error::ContractError;
use dexrouter::msg::{
    BalanceQuery, CallPayload, Env, ExecuteMsg, InstantiateMsg, MessageInfo, PoolMsg, QueryMsg,
    SwapOperation,
};
use dexrouter::contract::{
    astroportSwap, balance_query, execute, increment, instantiate, query, reset, sparrowSwap,
};
use dexrouter::state::State;

fn env() -> Env {
    Env { contract_address: "router1selfaddr".to_string() }
}

fn info(sender: &str) -> MessageInfo {
    MessageInfo { sender: sender.to_string(), funds: vec![] }
}

#[test]
fn instantiate_records_count_and_owner() {
    let (state, resp) = instantiate(info("alice1owner"), InstantiateMsg { count: 17 });
    assert_eq!(state, State { count: 17, owner: "alice1owner".to_string() });
    assert!(resp.messages.is_empty());
}

#[test]
fn increment_adds_one() {
    let mut state = State { count: 41, owner: "alice1owner".to_string() };
    let r = increment(&mut state);
    assert!(r.is_ok());
    assert_eq!(state.count, 42);
    assert_eq!(state.owner, "alice1owner");
}

#[test]
fn reset_by_owner_overwrites_count() {
    let mut state = State { count: 41, owner: "alice1owner".to_string() };
    let r = reset(&mut state, &info("alice1owner"), -3);
    assert!(r.is_ok());
    assert_eq!(state.count, -3);
}

#[test]
fn reset_by_stranger_is_unauthorized_and_keeps_state() {
    let mut state = State { count: 41, owner: "alice1owner".to_string() };
    let r = reset(&mut state, &info("mallory1else"), 0);
    assert_eq!(r, Err(ContractError::Unauthorized));
    assert_eq!(state, State { count: 41, owner: "alice1owner".to_string() });
}

#[test]
fn query_returns_the_count() {
    let state = State { count: 7, owner: "alice1owner".to_string() };
    let resp = query(&state, QueryMsg::GetCount {});
    assert_eq!(resp.count, 7);
}

#[test]
fn sparrow_single_hop_offers_the_whole_queried_balance() {
    let offer = AssetInfo::NativeToken { denom: "uatom".to_string() };
    let r = sparrowSwap(
        "pool1a".to_string(),
        offer.clone(),
        Some(Decimal { atomics: 1_500_000_000_000_000_000 }),
        None,
        Some("bob1recipient".to_string()),
        250,
    )
    .unwrap();
    assert_eq!(r.messages.len(), 1);
    let call = &r.messages[0];
    assert_eq!(call.contract_addr, "pool1a");
    assert_eq!(call.funds, vec![Coin { denom: "uatom".to_string(), amount: 250 }]);
    assert_eq!(
        call.msg,
        CallPayload::Pool(PoolMsg::SparrowSwap {
            offer_asset_info: offer,
            belief_price: Some(Decimal { atomics: 1_500_000_000_000_000_000 }),
            max_spread: None,
            to: Some("bob1recipient".to_string()),
        })
    );
}

#[test]
fn token_offer_is_labelled_by_its_contract_address() {
    let offer = AssetInfo::Token { contract_addr: "token1contract".to_string() };
    let ask = AssetInfo::NativeToken { denom: "uyuy".to_string() };
    let r = astroportSwap(
        "pool2b".to_string(),
        offer.clone(),
        Some(ask.clone()),
        None,
        None,
        None,
        9,
    )
    .unwrap();
    let call = &r.messages[0];
    assert_eq!(call.funds, vec![Coin { denom: "token1contract".to_string(), amount: 9 }]);
    assert_eq!(
        call.msg,
        CallPayload::Pool(PoolMsg::AstroportSwap {
            offer_asset_info: offer,
            ask_asset_info: Some(ask),
            belief_price: None,
            max_spread: None,
            to: None,
        })
    );
}

#[test]
fn balance_query_for_a_swap_names_the_routers_own_holding() {
    let msg = ExecuteMsg::SparrowSwap {
        pool_address: "pool1a".to_string(),
        offer_asset_info: AssetInfo::NativeToken { denom: "uatom".to_string() },
        belief_price: None,
        max_spread: None,
        to: None,
    };
    let q = balance_query(&msg, &env(), &info("alice1caller")).unwrap();
    assert_eq!(
        q,
        Some(BalanceQuery {
            asset: AssetInfo::NativeToken { denom: "uatom".to_string() },
            account: "router1selfaddr".to_string(),
        })
    );
}

#[test]
fn balance_query_for_a_guarded_route_names_the_recipients_target_holding() {
    let target = AssetInfo::NativeToken { denom: "uyuy".to_string() };
    let msg = ExecuteMsg::Unxswap {
        steps: vec![SwapOperation::SparrowSwap {
            pool_address: "pool1a".to_string(),
            offer_asset_info: AssetInfo::NativeToken { denom: "uxux".to_string() },
            belief_price: None,
            max_spread: None,
        }],
        minimum_receive: Some(5),
        to: Some("bob1recipient".to_string()),
        target_asset_info: Some(target.clone()),
    };
    let q = balance_query(&msg, &env(), &info("alice1caller")).unwrap();
    assert_eq!(
        q,
        Some(BalanceQuery { asset: target, account: "bob1recipient".to_string() })
    );
}

#[test]
fn balance_query_needs_nothing_for_an_unguarded_route_or_the_counter() {
    let msg = ExecuteMsg::Unxswap {
        steps: vec![SwapOperation::SparrowSwap {
            pool_address: "pool1a".to_string(),
            offer_asset_info: AssetInfo::NativeToken { denom: "uxux".to_string() },
            belief_price: None,
            max_spread: None,
        }],
        minimum_receive: None,
        to: None,
        target_asset_info: None,
    };
    assert_eq!(balance_query(&msg, &env(), &info("alice1caller")), Ok(None));
    assert_eq!(balance_query(&ExecuteMsg::Increment {}, &env(), &info("a1b")), Ok(None));
    assert_eq!(
        balance_query(&ExecuteMsg::Reset { count: 0 }, &env(), &info("a1b")),
        Ok(None)
    );
}

#[test]
fn balance_query_rejects_what_execute_would_reject() {
    let msg = ExecuteMsg::Unxswap {
        steps: vec![],
        minimum_receive: None,
        to: None,
        target_asset_info: None,
    };
    assert_eq!(
        balance_query(&msg, &env(), &info("alice1caller")),
        Err(ContractError::EmptyRoute)
    );
}

#[test]
fn guard_entry_point_rejects_external_callers() {
    let msg = ExecuteMsg::AssertMinimumReceive {
        asset_info: AssetInfo::NativeToken { denom: "uyuy".to_string() },
        prev_balance: 0,
        minimum_receive: 0,
        receiver: "bob1recipient".to_string(),
    };
    // Not a self-call: the balance query is already refused ...
    assert_eq!(
        balance_query(&msg, &env(), &info("mallory1else")),
        Err(ContractError::Unauthorized)
    );
    // ... and so is the execution.
    let mut state = State { count: 0, owner: "alice1owner".to_string() };
    let r = execute(&mut state, &env(), info("mallory1else"), msg, Some(0));
    assert_eq!(r, Err(ContractError::Unauthorized));
}

#[test]
fn guard_entry_point_accepts_the_router_itself() {
    let msg = ExecuteMsg::AssertMinimumReceive {
        asset_info: AssetInfo::NativeToken { denom: "uyuy".to_string() },
        prev_balance: 100,
        minimum_receive: 50,
        receiver: "bob1recipient".to_string(),
    };
    let mut state = State { count: 0, owner: "alice1owner".to_string() };
    let r = execute(&mut state, &env(), info("router1selfaddr"), msg, Some(200));
    assert!(r.unwrap().messages.is_empty());
}

#[test]
fn guard_entry_point_validates_the_receiver() {
    let msg = ExecuteMsg::AssertMinimumReceive {
        asset_info: AssetInfo::NativeToken { denom: "uyuy".to_string() },
        prev_balance: 0,
        minimum_receive: 0,
        receiver: "NOT an address".to_string(),
    };
    let mut state = State { count: 0, owner: "alice1owner".to_string() };
    let r = execute(&mut state, &env(), info("router1selfaddr"), msg, Some(0));
    assert_eq!(r, Err(ContractError::InvalidAddress));
}

#[test]
fn execute_dispatches_the_counter_commands() {
    let mut state = State { count: 1, owner: "alice1owner".to_string() };
    let r = execute(&mut state, &env(), info("anyone1else"), ExecuteMsg::Increment {}, None);
    assert!(r.is_ok());
    assert_eq!(state.count, 2);
    let r = execute(
        &mut state,
        &env(),
        info("alice1owner"),
        ExecuteMsg::Reset { count: 10 },
        None,
    );
    assert!(r.is_ok());
    assert_eq!(state.count, 10);
}

#[test]
fn execute_rejects_an_empty_route() {
    let msg = ExecuteMsg::Unxswap {
        steps: vec![],
        minimum_receive: None,
        to: None,
        target_asset_info: None,
    };
    let mut state = State { count: 0, owner: "alice1owner".to_string() };
    let r = execute(&mut state, &env(), info("alice1caller"), msg, None);
    assert_eq!(r, Err(ContractError::EmptyRoute));
}

#[test]
fn error_kinds_name_their_cause() {
    assert_eq!(ContractError::Unauthorized.kind(), "unauthorized");
    assert_eq!(ContractError::EmptyRoute.kind(), "empty route");
    assert_eq!(ContractError::InvalidAddress.kind(), "invalid address");
    assert_eq!(ContractError::AmbiguousTargetAsset.kind(), "ambiguous target asset");
    assert_eq!(ContractError::InvalidAsset.kind(), "invalid asset");
    assert_eq!(ContractError::BalanceUnderflow.kind(), "balance underflow");
    assert_eq!(
        ContractError::InsufficientOutput { required: 2, actual: 1 }.kind(),
        "insufficient output"
    );
}

#[test]
fn execute_dispatches_a_guarded_route() {
    let target = AssetInfo::NativeToken { denom: "uyuy".to_string() };
    let msg = ExecuteMsg::Unxswap {
        steps: vec![SwapOperation::SparrowSwap {
            pool_address: "pool1a".to_string(),
            offer_asset_info: AssetInfo::NativeToken { denom: "uxux".to_string() },
            belief_price: None,
            max_spread: None,
        }],
        minimum_receive: Some(5),
        to: None,
        target_asset_info: Some(target.clone()),
    };
    let mut state = State { count: 0, owner: "alice1owner".to_string() };
    let r = execute(&mut state, &env(), info("alice1caller"), msg, Some(11)).unwrap();
    assert_eq!(r.messages.len(), 2);
    assert_eq!(
        r.messages[1].msg,
        CallPayload::Router(ExecuteMsg::AssertMinimumReceive {
            asset_info: target,
            prev_balance: 11,
            minimum_receive: 5,
            receiver: "alice1caller".to_string(),
        })
    );
}

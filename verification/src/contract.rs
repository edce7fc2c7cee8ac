//! Entry points: instantiation, the execute dispatcher over `ExecuteMsg`, the
//! single-hop pass-through swaps, the owner/counter commands, and the query.
//!
//! The router never reads the ledger itself: before `execute`, the host asks
//! `balance_query` which single balance the message needs, fetches it, and
//! hands the value in as `queried_balance`.

use vstd::prelude::*;
use crate::asset::{AssetInfo, Coin, Decimal};
use crate::error::ContractError;
use crate::guard::{assert_minimum_receive, guard_outcome};
use crate::msg::{BalanceQuery, CallPayload, Env, ExecuteMsg, GetCountResponse, InstantiateMsg,
    MessageInfo, PoolMsg, QueryMsg, Response, SwapOperation, WasmCall};
use crate::route::{op_offer_asset, op_pool_address, pool_payload, recipient_ok,
    resolved_recipient, resolved_target, unxswap, unxswap_err, unxswap_ok};
use crate::state::State;
use crate::validate::{is_valid_address, is_valid_asset, valid_address, valid_asset};

verus! {

/// Creates the owner/counter record: the sender becomes the owner.
pub fn instantiate(info: MessageInfo, msg: InstantiateMsg) -> (r: (State, Response))
    ensures
        r.0.count == msg.count,
        r.0.owner == info.sender,
        r.1.messages@.len() == 0,
{
    (State { count: msg.count, owner: info.sender }, Response { messages: Vec::new() })
}

/// Unconditionally adds one to the stored count; no authorization.
pub fn increment(state: &mut State) -> (r: Result<Response, ContractError>)
    requires
        old(state).count < i32::MAX,
    ensures
        final(state).count == old(state).count + 1,
        final(state).owner == old(state).owner,
        r is Ok && r->Ok_0.messages@.len() == 0,
{
    state.count = state.count + 1;
    Ok(Response { messages: Vec::new() })
}

/// Overwrites the count; only the stored owner may, anyone else gets
/// `Unauthorized` and the record stays as it was.
pub fn reset(state: &mut State, info: &MessageInfo, count: i32) -> (r: Result<
    Response,
    ContractError,
>)
    ensures
        info.sender@ == old(state).owner@ ==> final(state).count == count && final(state).owner
            == old(state).owner && r is Ok && r->Ok_0.messages@.len() == 0,
        info.sender@ != old(state).owner@ ==> r == Err::<Response, ContractError>(
            ContractError::Unauthorized,
        ) && *final(state) == *old(state),
{
    if !(info.sender == state.owner) {
        return Err(ContractError::Unauthorized);
    }
    state.count = count;
    Ok(Response { messages: Vec::new() })
}

/// Answers `GetCount` with the stored count.
pub fn query(state: &State, msg: QueryMsg) -> (r: GetCountResponse)
    ensures
        r.count == state.count,
{
    match msg {
        QueryMsg::GetCount {} => GetCountResponse { count: state.count },
    }
}

/// The single call a single-hop pass-through emits: the step's pool, funded
/// with the router's whole holding of the offer asset, carrying the step's
/// swap instruction for `to`.
pub open spec fn single_swap_ok(
    resp: Response,
    op: SwapOperation,
    to: Option<String>,
    offer_balance: u128,
) -> bool {
    &&& resp.messages@.len() == 1
    &&& resp.messages@[0].contract_addr == op_pool_address(op)
    &&& resp.messages@[0].funds@.len() == 1
    &&& resp.messages@[0].funds@[0] == (Coin {
        denom: op_offer_asset(op).spec_label(),
        amount: offer_balance,
    })
    &&& resp.messages@[0].msg == CallPayload::Pool(pool_payload(op, to))
}

/// Single-hop pass-through to a Family A pool. `offer_balance` is the
/// router's current holding of the offer asset, fetched by the host; the
/// whole of it is attached and offered.
#[allow(non_snake_case)]
pub fn sparrowSwap(
    pool_address: String,
    offer_asset_info: AssetInfo,
    belief_price: Option<Decimal>,
    max_spread: Option<Decimal>,
    to: Option<String>,
    offer_balance: u128,
) -> (r: Result<Response, ContractError>)
    ensures
        r is Ok,
        single_swap_ok(
            r->Ok_0,
            (SwapOperation::SparrowSwap { pool_address, offer_asset_info, belief_price, max_spread }),
            to,
            offer_balance,
        ),
{
    let denom = offer_asset_info.label();
    let mut funds: Vec<Coin> = Vec::new();
    funds.push(Coin { denom, amount: offer_balance });
    let call = WasmCall {
        contract_addr: pool_address,
        funds,
        msg: CallPayload::Pool(PoolMsg::SparrowSwap {
            offer_asset_info,
            belief_price,
            max_spread,
            to,
        }),
    };
    let mut messages: Vec<WasmCall> = Vec::new();
    messages.push(call);
    Ok(Response { messages })
}

/// Single-hop pass-through to a Family B pool; as `sparrowSwap`, with the
/// family's declared ask asset carried through.
#[allow(non_snake_case)]
pub fn astroportSwap(
    pool_address: String,
    offer_asset_info: AssetInfo,
    ask_asset_info: Option<AssetInfo>,
    belief_price: Option<Decimal>,
    max_spread: Option<Decimal>,
    to: Option<String>,
    offer_balance: u128,
) -> (r: Result<Response, ContractError>)
    ensures
        r is Ok,
        single_swap_ok(
            r->Ok_0,
            (SwapOperation::AstroportSwap {
                pool_address,
                offer_asset_info,
                ask_asset_info,
                belief_price,
                max_spread,
            }),
            to,
            offer_balance,
        ),
{
    let denom = offer_asset_info.label();
    let mut funds: Vec<Coin> = Vec::new();
    funds.push(Coin { denom, amount: offer_balance });
    let call = WasmCall {
        contract_addr: pool_address,
        funds,
        msg: CallPayload::Pool(PoolMsg::AstroportSwap {
            offer_asset_info,
            ask_asset_info,
            belief_price,
            max_spread,
            to,
        }),
    };
    let mut messages: Vec<WasmCall> = Vec::new();
    messages.push(call);
    Ok(Response { messages })
}

/// The one balance the host must fetch before `execute` can decide `msg`, or
/// the validation error the message is owed instead, or `Ok(None)` when no
/// balance is needed.
pub open spec fn spec_balance_query(msg: ExecuteMsg, env: Env, info: MessageInfo) -> Result<
    Option<BalanceQuery>,
    ContractError,
> {
    match msg {
        ExecuteMsg::SparrowSwap { offer_asset_info, .. } => Ok(
            Some(BalanceQuery { asset: offer_asset_info, account: env.contract_address }),
        ),
        ExecuteMsg::AstroportSwap { offer_asset_info, .. } => Ok(
            Some(BalanceQuery { asset: offer_asset_info, account: env.contract_address }),
        ),
        ExecuteMsg::Unxswap { steps, minimum_receive, to, target_asset_info } => {
            if steps@.len() == 0 {
                Err(ContractError::EmptyRoute)
            } else if !recipient_ok(to) {
                Err(ContractError::InvalidAddress)
            } else if minimum_receive is None {
                Ok(None)
            } else {
                match resolved_target(target_asset_info, steps@) {
                    None => Err(ContractError::AmbiguousTargetAsset),
                    Some(t) => Ok(
                        Some(
                            BalanceQuery {
                                asset: t,
                                account: resolved_recipient(to, info.sender),
                            },
                        ),
                    ),
                }
            }
        },
        ExecuteMsg::AssertMinimumReceive { asset_info, receiver, .. } => {
            if info.sender@ != env.contract_address@ {
                Err(ContractError::Unauthorized)
            } else if !valid_address(receiver@) {
                Err(ContractError::InvalidAddress)
            } else if !valid_asset(asset_info) {
                Err(ContractError::InvalidAsset)
            } else {
                Ok(Some(BalanceQuery { asset: asset_info, account: receiver }))
            }
        },
        ExecuteMsg::Increment {} => Ok(None),
        ExecuteMsg::Reset { .. } => Ok(None),
    }
}

/// Tells the host which single balance `msg` needs, after the same
/// validation `execute` will apply, so that an invalid message is refused
/// before anything is fetched.
pub fn balance_query(msg: &ExecuteMsg, env: &Env, info: &MessageInfo) -> (r: Result<
    Option<BalanceQuery>,
    ContractError,
>)
    ensures
        r == spec_balance_query(*msg, *env, *info),
{
    match msg {
        ExecuteMsg::SparrowSwap { offer_asset_info, .. } => Ok(
            Some(
                BalanceQuery {
                    asset: offer_asset_info.clone(),
                    account: env.contract_address.clone(),
                },
            ),
        ),
        ExecuteMsg::AstroportSwap { offer_asset_info, .. } => Ok(
            Some(
                BalanceQuery {
                    asset: offer_asset_info.clone(),
                    account: env.contract_address.clone(),
                },
            ),
        ),
        ExecuteMsg::Unxswap { steps, minimum_receive, to, target_asset_info } => {
            if steps.len() == 0 {
                return Err(ContractError::EmptyRoute);
            }
            let account: String = match to {
                Some(addr) => {
                    if !is_valid_address(addr.as_str()) {
                        return Err(ContractError::InvalidAddress);
                    }
                    addr.clone()
                },
                None => info.sender.clone(),
            };
            if minimum_receive.is_none() {
                return Ok(None);
            }
            let target: AssetInfo = match target_asset_info {
                Some(t) => t.clone(),
                None => match &steps[steps.len() - 1] {
                    SwapOperation::AstroportSwap { ask_asset_info: Some(a), .. } => a.clone(),
                    _ => {
                        return Err(ContractError::AmbiguousTargetAsset);
                    },
                },
            };
            Ok(Some(BalanceQuery { asset: target, account }))
        },
        ExecuteMsg::AssertMinimumReceive { asset_info, receiver, .. } => {
            if !(info.sender == env.contract_address) {
                return Err(ContractError::Unauthorized);
            }
            if !is_valid_address(receiver.as_str()) {
                return Err(ContractError::InvalidAddress);
            }
            if !is_valid_asset(asset_info) {
                return Err(ContractError::InvalidAsset);
            }
            Ok(Some(BalanceQuery { asset: asset_info.clone(), account: receiver.clone() }))
        },
        ExecuteMsg::Increment {} => Ok(None),
        ExecuteMsg::Reset { .. } => Ok(None),
    }
}

/// Whether `execute` will read `queried_balance` for this message.
pub open spec fn needs_balance(msg: ExecuteMsg) -> bool {
    match msg {
        ExecuteMsg::SparrowSwap { .. } => true,
        ExecuteMsg::AstroportSwap { .. } => true,
        ExecuteMsg::AssertMinimumReceive { .. } => true,
        ExecuteMsg::Unxswap { minimum_receive, .. } => minimum_receive is Some,
        ExecuteMsg::Increment {} => false,
        ExecuteMsg::Reset { .. } => false,
    }
}

/// `balance_query` answers `Some` exactly for the messages whose execution
/// will read the balance: a host that fetches what it names always meets
/// `execute`'s precondition.
pub proof fn lemma_balance_query_matches_need(msg: ExecuteMsg, env: Env, info: MessageInfo)
    ensures
        match spec_balance_query(msg, env, info) {
            Ok(q) => q is Some <==> needs_balance(msg),
            Err(_) => true,
        },
{
}

/// The pre-fetch validation of a route agrees with its compilation: the host
/// is refused at `balance_query` exactly when, and with the error with which,
/// `unxswap` would refuse the route.
pub proof fn lemma_balance_query_agrees_with_unxswap(msg: ExecuteMsg, env: Env, info: MessageInfo)
    requires
        msg is Unxswap,
    ensures
        match msg {
            ExecuteMsg::Unxswap { steps, minimum_receive, to, target_asset_info } => {
                match spec_balance_query(msg, env, info) {
                    Err(e) => unxswap_err(steps@, minimum_receive, to, target_asset_info) == Some(
                        e,
                    ),
                    Ok(_) => unxswap_err(steps@, minimum_receive, to, target_asset_info) is None,
                }
            },
            _ => true,
        },
{
}

/// Dispatches one request. `queried_balance` is the balance named by
/// `balance_query(msg)`, fetched by the host. The guard entry point is
/// reachable only as a self-call: any other sender gets `Unauthorized`.
pub fn execute(
    state: &mut State,
    env: &Env,
    info: MessageInfo,
    msg: ExecuteMsg,
    queried_balance: Option<u128>,
) -> (r: Result<Response, ContractError>)
    requires
        needs_balance(msg) ==> queried_balance is Some,
        msg is Increment ==> old(state).count < i32::MAX,
    ensures
        match msg {
            ExecuteMsg::Increment {} => {
                &&& final(state).count == old(state).count + 1
                &&& final(state).owner == old(state).owner
                &&& r is Ok && r->Ok_0.messages@.len() == 0
            },
            ExecuteMsg::Reset { count } => {
                &&& info.sender@ == old(state).owner@ ==> final(state).count == count
                    && final(state).owner == old(state).owner
                    && r is Ok && r->Ok_0.messages@.len() == 0
                &&& info.sender@ != old(state).owner@ ==> r == Err::<Response, ContractError>(
                    ContractError::Unauthorized,
                ) && *final(state) == *old(state)
            },
            ExecuteMsg::SparrowSwap { pool_address, offer_asset_info, belief_price, max_spread, to } => {
                &&& *final(state) == *old(state)
                &&& r is Ok
                &&& single_swap_ok(
                    r->Ok_0,
                    (SwapOperation::SparrowSwap {
                        pool_address,
                        offer_asset_info,
                        belief_price,
                        max_spread,
                    }),
                    to,
                    queried_balance->Some_0,
                )
            },
            ExecuteMsg::AstroportSwap {
                pool_address,
                offer_asset_info,
                ask_asset_info,
                belief_price,
                max_spread,
                to,
            } => {
                &&& *final(state) == *old(state)
                &&& r is Ok
                &&& single_swap_ok(
                    r->Ok_0,
                    (SwapOperation::AstroportSwap {
                        pool_address,
                        offer_asset_info,
                        ask_asset_info,
                        belief_price,
                        max_spread,
                    }),
                    to,
                    queried_balance->Some_0,
                )
            },
            ExecuteMsg::Unxswap { steps, minimum_receive, to, target_asset_info } => {
                &&& *final(state) == *old(state)
                &&& match unxswap_err(steps@, minimum_receive, to, target_asset_info) {
                    Some(e) => r == Err::<Response, ContractError>(e),
                    None => r is Ok && unxswap_ok(
                        r->Ok_0,
                        steps@,
                        minimum_receive,
                        to,
                        target_asset_info,
                        info.funds@,
                        info.sender,
                        env.contract_address,
                        queried_balance,
                    ),
                }
            },
            ExecuteMsg::AssertMinimumReceive { asset_info, prev_balance, minimum_receive, receiver } => {
                &&& *final(state) == *old(state)
                &&& if info.sender@ != env.contract_address@ {
                    r == Err::<Response, ContractError>(ContractError::Unauthorized)
                } else if !valid_address(receiver@) {
                    r == Err::<Response, ContractError>(ContractError::InvalidAddress)
                } else {
                    match guard_outcome(
                        asset_info,
                        prev_balance,
                        minimum_receive,
                        queried_balance->Some_0,
                    ) {
                        Some(e) => r == Err::<Response, ContractError>(e),
                        None => r is Ok && r->Ok_0.messages@.len() == 0,
                    }
                }
            },
        },
{
    match msg {
        ExecuteMsg::Increment {} => increment(state),
        ExecuteMsg::Reset { count } => reset(state, &info, count),
        ExecuteMsg::SparrowSwap { pool_address, offer_asset_info, belief_price, max_spread, to } =>
            sparrowSwap(
                pool_address,
                offer_asset_info,
                belief_price,
                max_spread,
                to,
                queried_balance.unwrap(),
            ),
        ExecuteMsg::AstroportSwap {
            pool_address,
            offer_asset_info,
            ask_asset_info,
            belief_price,
            max_spread,
            to,
        } => astroportSwap(
            pool_address,
            offer_asset_info,
            ask_asset_info,
            belief_price,
            max_spread,
            to,
            queried_balance.unwrap(),
        ),
        ExecuteMsg::Unxswap { steps, minimum_receive, to, target_asset_info } => unxswap(
            env,
            info,
            steps,
            minimum_receive,
            to,
            target_asset_info,
            queried_balance,
        ),
        ExecuteMsg::AssertMinimumReceive { asset_info, prev_balance, minimum_receive, receiver } => {
            if !(info.sender == env.contract_address) {
                return Err(ContractError::Unauthorized);
            }
            if !is_valid_address(receiver.as_str()) {
                return Err(ContractError::InvalidAddress);
            }
            assert_minimum_receive(
                asset_info,
                prev_balance,
                minimum_receive,
                receiver,
                queried_balance.unwrap(),
            )
        },
    }
}

} // verus!

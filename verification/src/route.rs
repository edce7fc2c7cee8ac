//! The route compiler: turns an ordered list of swap steps plus
//! recipient/minimum-output parameters into the ordered batch of calls the
//! host executor runs atomically.
//!
//! Fund-forwarding rule: only the first hop carries the caller's attached
//! funds; every later hop draws on the router's own balance, which the
//! previous hop's pool call has credited by the time it runs. Recipient
//! rule: only the last hop names the resolved recipient; earlier hops leave
//! the output with the router for the next hop.

use vstd::prelude::*;
use crate::asset::{AssetInfo, Coin};
use crate::error::ContractError;
use crate::msg::{CallPayload, Env, ExecuteMsg, MessageInfo, PoolMsg, Response, SwapOperation,
    WasmCall};
use crate::validate::{is_valid_address, valid_address};

verus! {

/// The pool a step calls.
pub open spec fn op_pool_address(op: SwapOperation) -> String {
    match op {
        SwapOperation::SparrowSwap { pool_address, .. } => pool_address,
        SwapOperation::AstroportSwap { pool_address, .. } => pool_address,
    }
}

/// The asset a step offers.
pub open spec fn op_offer_asset(op: SwapOperation) -> AssetInfo {
    match op {
        SwapOperation::SparrowSwap { offer_asset_info, .. } => offer_asset_info,
        SwapOperation::AstroportSwap { offer_asset_info, .. } => offer_asset_info,
    }
}

/// The swap instruction a step sends to its pool, crediting `to` (the router
/// itself when `to` is `None`).
pub open spec fn pool_payload(op: SwapOperation, to: Option<String>) -> PoolMsg {
    match op {
        SwapOperation::SparrowSwap { offer_asset_info, belief_price, max_spread, .. } =>
            PoolMsg::SparrowSwap { offer_asset_info, belief_price, max_spread, to },
        SwapOperation::AstroportSwap {
            offer_asset_info,
            ask_asset_info,
            belief_price,
            max_spread,
            ..
        } => PoolMsg::AstroportSwap { offer_asset_info, ask_asset_info, belief_price, max_spread, to },
    }
}

/// The adapter call emitted for one step: it targets the step's pool, carries
/// `attached` as funds, and credits `to`.
pub open spec fn is_hop_call(
    m: WasmCall,
    op: SwapOperation,
    attached: Seq<Coin>,
    to: Option<String>,
) -> bool {
    &&& m.contract_addr == op_pool_address(op)
    &&& m.funds@ == attached
    &&& m.msg == CallPayload::Pool(pool_payload(op, to))
}

/// The self-directed guard call appended when a minimum is requested: it
/// re-enters the router at `AssertMinimumReceive`, carries no funds, and
/// records the pre-route balance to compare against.
pub open spec fn is_guard_call(
    m: WasmCall,
    router: String,
    target: AssetInfo,
    prev_balance: u128,
    minimum_receive: u128,
    receiver: String,
) -> bool {
    &&& m.contract_addr == router
    &&& m.funds@.len() == 0
    &&& m.msg == CallPayload::Router(ExecuteMsg::AssertMinimumReceive {
        asset_info: target,
        prev_balance,
        minimum_receive,
        receiver,
    })
}

/// The effective recipient: the override when present, else the caller.
pub open spec fn resolved_recipient(to: Option<String>, sender: String) -> String {
    match to {
        Some(addr) => addr,
        None => sender,
    }
}

/// A recipient override must pass the address format rule; no override is
/// always acceptable.
pub open spec fn recipient_ok(to: Option<String>) -> bool {
    match to {
        Some(addr) => valid_address(addr@),
        None => true,
    }
}

/// The ask asset the last step declares, if any: only a Family B step names
/// its expected output type.
pub open spec fn last_ask(steps: Seq<SwapOperation>) -> Option<AssetInfo> {
    if steps.len() == 0 {
        None
    } else {
        match steps.last() {
            SwapOperation::AstroportSwap { ask_asset_info, .. } => ask_asset_info,
            SwapOperation::SparrowSwap { .. } => None,
        }
    }
}

/// The asset the guard measures: the explicitly supplied target when present,
/// else whatever the last step declares.
pub open spec fn resolved_target(
    target: Option<AssetInfo>,
    steps: Seq<SwapOperation>,
) -> Option<AssetInfo> {
    match target {
        Some(t) => Some(t),
        None => last_ask(steps),
    }
}

/// Exactly when and why a route request is rejected, in order: an empty
/// route, then a malformed recipient override, then a guard request whose
/// final asset cannot be resolved.
pub open spec fn unxswap_err(
    steps: Seq<SwapOperation>,
    minimum_receive: Option<u128>,
    to: Option<String>,
    target: Option<AssetInfo>,
) -> Option<ContractError> {
    if steps.len() == 0 {
        Some(ContractError::EmptyRoute)
    } else if !recipient_ok(to) {
        Some(ContractError::InvalidAddress)
    } else if minimum_receive is Some && resolved_target(target, steps) is None {
        Some(ContractError::AmbiguousTargetAsset)
    } else {
        None
    }
}

/// The whole compiled batch: one adapter call per step, in step order, with
/// the fund-forwarding and recipient rules, plus the guard call last when a
/// minimum is requested.
pub open spec fn unxswap_ok(
    resp: Response,
    steps: Seq<SwapOperation>,
    minimum_receive: Option<u128>,
    to: Option<String>,
    target: Option<AssetInfo>,
    funds: Seq<Coin>,
    sender: String,
    router: String,
    prev_balance: Option<u128>,
) -> bool {
    let n = steps.len() as int;
    let rcpt = resolved_recipient(to, sender);
    &&& resp.messages@.len() == n + (if minimum_receive is Some { 1int } else { 0int })
    &&& forall|i: int| 0 <= i < n ==> is_hop_call(
        #[trigger] resp.messages@[i],
        steps[i],
        if i == 0 { funds } else { Seq::empty() },
        if i == n - 1 { Some(rcpt) } else { None },
    )
    &&& match minimum_receive {
        Some(min) => is_guard_call(
            resp.messages@[n],
            router,
            resolved_target(target, steps)->Some_0,
            prev_balance->Some_0,
            min,
            rcpt,
        ),
        None => true,
    }
}

/// Where an emitted call credits its output: the `to` field of a pool swap
/// instruction; a router-directed call moves no swap output.
pub open spec fn call_recipient(m: WasmCall) -> Option<String> {
    match m.msg {
        CallPayload::Pool(PoolMsg::SparrowSwap { to, .. }) => to,
        CallPayload::Pool(PoolMsg::AstroportSwap { to, .. }) => to,
        CallPayload::Router(..) => None,
    }
}

/// A compiled route holds exactly one adapter call per step, plus exactly one
/// guard call when a minimum is requested and none otherwise.
pub proof fn lemma_batch_length(
    resp: Response,
    steps: Seq<SwapOperation>,
    minimum_receive: Option<u128>,
    to: Option<String>,
    target: Option<AssetInfo>,
    funds: Seq<Coin>,
    sender: String,
    router: String,
    prev_balance: Option<u128>,
)
    requires
        unxswap_ok(resp, steps, minimum_receive, to, target, funds, sender, router, prev_balance),
    ensures
        minimum_receive is Some ==> resp.messages@.len() == steps.len() + 1,
        minimum_receive is None ==> resp.messages@.len() == steps.len(),
{
}

/// Only the first adapter call of a compiled route carries the caller's
/// attached funds; every later one carries none.
pub proof fn lemma_only_first_hop_funded(
    resp: Response,
    steps: Seq<SwapOperation>,
    minimum_receive: Option<u128>,
    to: Option<String>,
    target: Option<AssetInfo>,
    funds: Seq<Coin>,
    sender: String,
    router: String,
    prev_balance: Option<u128>,
)
    requires
        unxswap_ok(resp, steps, minimum_receive, to, target, funds, sender, router, prev_balance),
        steps.len() > 0,
    ensures
        resp.messages@[0].funds@ == funds,
        forall|i: int| 0 < i < resp.messages@.len() ==> #[trigger] resp.messages@[i].funds@.len()
            == 0,
{
    assert forall|i: int| 0 < i < resp.messages@.len() implies #[trigger] resp.messages@[i].funds@.len()
        == 0 by {
        if i < steps.len() {
            assert(is_hop_call(resp.messages@[i], steps[i], Seq::empty(), if i == steps.len() - 1 {
                Some(resolved_recipient(to, sender))
            } else {
                None
            }));
        }
    }
}

/// Only the last adapter call of a compiled route names the resolved
/// recipient as output target; every earlier one leaves it unset.
pub proof fn lemma_only_last_hop_names_recipient(
    resp: Response,
    steps: Seq<SwapOperation>,
    minimum_receive: Option<u128>,
    to: Option<String>,
    target: Option<AssetInfo>,
    funds: Seq<Coin>,
    sender: String,
    router: String,
    prev_balance: Option<u128>,
)
    requires
        unxswap_ok(resp, steps, minimum_receive, to, target, funds, sender, router, prev_balance),
        steps.len() > 0,
    ensures
        call_recipient(resp.messages@[steps.len() - 1]) == Some(resolved_recipient(to, sender)),
        forall|i: int| 0 <= i < resp.messages@.len() && i != steps.len() - 1 ==> call_recipient(
            #[trigger] resp.messages@[i],
        ) is None,
{
    let n = steps.len() as int;
    let rcpt = resolved_recipient(to, sender);
    assert(is_hop_call(resp.messages@[n - 1], steps[n - 1], if n == 1 {
        funds
    } else {
        Seq::empty()
    }, Some(rcpt)));
    assert forall|i: int| 0 <= i < resp.messages@.len() && i != n - 1 implies call_recipient(
        #[trigger] resp.messages@[i],
    ) is None by {
        if i < n {
            assert(is_hop_call(resp.messages@[i], steps[i], if i == 0 {
                funds
            } else {
                Seq::empty()
            }, None));
        }
    }
}

/// Builds the adapter call for one step.
fn make_hop(op: &SwapOperation, attached: Vec<Coin>, to: Option<String>) -> (m: WasmCall)
    ensures
        m.contract_addr == op_pool_address(*op),
        m.funds == attached,
        m.msg == CallPayload::Pool(pool_payload(*op, to)),
{
    match op {
        SwapOperation::SparrowSwap { pool_address, offer_asset_info, belief_price, max_spread } =>
            WasmCall {
                contract_addr: pool_address.clone(),
                funds: attached,
                msg: CallPayload::Pool(PoolMsg::SparrowSwap {
                    offer_asset_info: offer_asset_info.clone(),
                    belief_price: *belief_price,
                    max_spread: *max_spread,
                    to,
                }),
            },
        SwapOperation::AstroportSwap {
            pool_address,
            offer_asset_info,
            ask_asset_info,
            belief_price,
            max_spread,
        } => {
            let ask = match ask_asset_info {
                Some(a) => Some(a.clone()),
                None => None,
            };
            WasmCall {
                contract_addr: pool_address.clone(),
                funds: attached,
                msg: CallPayload::Pool(PoolMsg::AstroportSwap {
                    offer_asset_info: offer_asset_info.clone(),
                    ask_asset_info: ask,
                    belief_price: *belief_price,
                    max_spread: *max_spread,
                    to,
                }),
            }
        },
    }
}

/// Compiles a route. `prev_balance` is the resolved recipient's holding of
/// the target asset at compile time, fetched by the host; it is read only
/// when a minimum is requested.
///
/// For every non-empty route this emits exactly one adapter call per step
/// plus exactly one guard call when `minimum_receive` is present and none
/// otherwise; only the first adapter call carries the caller's attached
/// funds, and only the last one names the resolved recipient.
pub fn unxswap(
    env: &Env,
    info: MessageInfo,
    steps: Vec<SwapOperation>,
    minimum_receive: Option<u128>,
    to: Option<String>,
    target_asset_info: Option<AssetInfo>,
    prev_balance: Option<u128>,
) -> (r: Result<Response, ContractError>)
    requires
        minimum_receive is Some ==> prev_balance is Some,
    ensures
        match unxswap_err(steps@, minimum_receive, to, target_asset_info) {
            Some(e) => r == Err::<Response, ContractError>(e),
            None => r is Ok && unxswap_ok(
                r->Ok_0,
                steps@,
                minimum_receive,
                to,
                target_asset_info,
                info.funds@,
                info.sender,
                env.contract_address,
                prev_balance,
            ),
        },
{
    let n = steps.len();
    if n == 0 {
        return Err(ContractError::EmptyRoute);
    }
    let MessageInfo { sender, funds } = info;
    let recipient: String = match &to {
        Some(addr) => {
            if !is_valid_address(addr.as_str()) {
                return Err(ContractError::InvalidAddress);
            }
            addr.clone()
        },
        None => sender,
    };
    let ghost funds_view = funds@;
    let ghost rcpt = resolved_recipient(to, info.sender);
    assert(recipient == rcpt);

    let mut messages: Vec<WasmCall> = Vec::new();
    let to0 = if n == 1 { Some(recipient.clone()) } else { None };
    messages.push(make_hop(&steps[0], funds, to0));
    let mut i: usize = 1;
    while i < n
        invariant
            1 <= i <= n,
            n == steps@.len(),
            messages@.len() == i,
            recipient == rcpt,
            forall|j: int| 0 <= j < i ==> is_hop_call(
                #[trigger] messages@[j],
                steps@[j],
                if j == 0 { funds_view } else { Seq::empty() },
                if j == n - 1 { Some(rcpt) } else { None },
            ),
        decreases n - i,
    {
        let to_i = if i + 1 == n { Some(recipient.clone()) } else { None };
        let empty: Vec<Coin> = Vec::new();
        messages.push(make_hop(&steps[i], empty, to_i));
        i += 1;
    }

    if let Some(min) = minimum_receive {
        let target: AssetInfo = match target_asset_info {
            Some(t) => t,
            None => match &steps[n - 1] {
                SwapOperation::AstroportSwap { ask_asset_info: Some(a), .. } => a.clone(),
                _ => {
                    return Err(ContractError::AmbiguousTargetAsset);
                },
            },
        };
        let empty: Vec<Coin> = Vec::new();
        messages.push(WasmCall {
            contract_addr: env.contract_address.clone(),
            funds: empty,
            msg: CallPayload::Router(ExecuteMsg::AssertMinimumReceive {
                asset_info: target,
                prev_balance: prev_balance.unwrap(),
                minimum_receive: min,
                receiver: recipient,
            }),
        });
    }
    Ok(Response { messages })
}

} // verus!

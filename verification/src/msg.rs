//! Request and call shapes. `ExecuteMsg` is what a caller (or the router
//! itself, for the guard) submits; `WasmCall` is one emitted call of the
//! atomic batch the host executor runs in order.

use vstd::prelude::*;
use crate::asset::{AssetInfo, Coin, Decimal};

verus! {

/// One hop of a route: which exchange family, which pool, and the asset the
/// hop offers. The offer amount is never named here: the pool draws on the
/// router's live balance at call time.
#[derive(Debug, PartialEq, Eq)]
pub enum SwapOperation {
    SparrowSwap {
        pool_address: String,
        offer_asset_info: AssetInfo,
        belief_price: Option<Decimal>,
        max_spread: Option<Decimal>,
    },
    AstroportSwap {
        pool_address: String,
        offer_asset_info: AssetInfo,
        ask_asset_info: Option<AssetInfo>,
        belief_price: Option<Decimal>,
        max_spread: Option<Decimal>,
    },
}

#[derive(Debug, PartialEq, Eq)]
pub enum ExecuteMsg {
    SparrowSwap {
        pool_address: String,
        offer_asset_info: AssetInfo,
        belief_price: Option<Decimal>,
        max_spread: Option<Decimal>,
        to: Option<String>,
    },
    AstroportSwap {
        pool_address: String,
        offer_asset_info: AssetInfo,
        ask_asset_info: Option<AssetInfo>,
        belief_price: Option<Decimal>,
        max_spread: Option<Decimal>,
        to: Option<String>,
    },
    Unxswap {
        steps: Vec<SwapOperation>,
        minimum_receive: Option<u128>,
        to: Option<String>,
        target_asset_info: Option<AssetInfo>,
    },
    /// Internal-only: the guard call the route compiler appends. The
    /// dispatcher rejects it unless the immediate caller is the router itself.
    AssertMinimumReceive {
        asset_info: AssetInfo,
        prev_balance: u128,
        minimum_receive: u128,
        receiver: String,
    },
    Increment {},
    Reset { count: i32 },
}

#[derive(Debug, PartialEq, Eq)]
pub struct InstantiateMsg {
    pub count: i32,
}

#[derive(Debug, PartialEq, Eq)]
pub enum QueryMsg {
    GetCount {},
}

#[derive(Debug, PartialEq, Eq, Structural, Clone, Copy)]
pub struct GetCountResponse {
    pub count: i32,
}

/// The adapter-specific swap instruction sent to a pool. It names the offer
/// asset type, the price bounds, and where to credit the output; the pool
/// computes the offerable amount from the router's balance at call time.
#[derive(Debug, PartialEq, Eq)]
pub enum PoolMsg {
    SparrowSwap {
        offer_asset_info: AssetInfo,
        belief_price: Option<Decimal>,
        max_spread: Option<Decimal>,
        to: Option<String>,
    },
    AstroportSwap {
        offer_asset_info: AssetInfo,
        ask_asset_info: Option<AssetInfo>,
        belief_price: Option<Decimal>,
        max_spread: Option<Decimal>,
        to: Option<String>,
    },
}

/// What one emitted call carries: a pool swap, or a re-entrant router
/// message (the guard).
#[derive(Debug, PartialEq, Eq)]
pub enum CallPayload {
    Pool(PoolMsg),
    Router(ExecuteMsg),
}

/// One call of the emitted batch: target contract, attached funds, payload.
#[derive(Debug, PartialEq, Eq)]
pub struct WasmCall {
    pub contract_addr: String,
    pub funds: Vec<Coin>,
    pub msg: CallPayload,
}

/// The ordered batch handed to the host executor, which runs it
/// all-or-nothing, strictly in order.
#[derive(Debug, PartialEq, Eq)]
pub struct Response {
    pub messages: Vec<WasmCall>,
}

/// The host environment of one invocation: the router's own address.
#[derive(Debug, PartialEq, Eq)]
pub struct Env {
    pub contract_address: String,
}

/// Who sent the current message and what funds they attached.
#[derive(Debug, PartialEq, Eq)]
pub struct MessageInfo {
    pub sender: String,
    pub funds: Vec<Coin>,
}

/// A balance the host must fetch before the router can decide: `account`'s
/// holdings of `asset`.
#[derive(Debug, PartialEq, Eq)]
pub struct BalanceQuery {
    pub asset: AssetInfo,
    pub account: String,
}

} // verus!

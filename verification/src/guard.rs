//! The slippage guard: the last call of a compiled batch re-enters the router
//! here, after every swap has run, and fails the whole transaction when the
//! recipient gained less than the caller's minimum.

use vstd::prelude::*;
use crate::asset::AssetInfo;
use crate::error::ContractError;
use crate::msg::Response;
use crate::validate::{is_valid_asset, valid_asset};

verus! {

/// Exactly when and why the guard fails: a malformed asset descriptor, a
/// balance that fell across the route (never reported as a wrapped
/// difference), or a gain below the minimum; otherwise it passes.
pub open spec fn guard_outcome(
    asset: AssetInfo,
    prev_balance: u128,
    minimum_receive: u128,
    balance_now: u128,
) -> Option<ContractError> {
    if !valid_asset(asset) {
        Some(ContractError::InvalidAsset)
    } else if balance_now < prev_balance {
        Some(ContractError::BalanceUnderflow)
    } else if balance_now - prev_balance < minimum_receive {
        Some(ContractError::InsufficientOutput {
            required: minimum_receive,
            actual: (balance_now - prev_balance) as u128,
        })
    } else {
        None
    }
}

/// Verifies the minimum-output promise. `receiver_balance` is `receiver`'s
/// holding of `asset_info` now, after the route's swaps, fetched by the
/// host; `prev_balance` is the value the route compiler recorded before
/// them. On success the emitted batch is empty: the guard only ever vetoes.
pub fn assert_minimum_receive(
    asset_info: AssetInfo,
    prev_balance: u128,
    minimum_receive: u128,
    receiver: String,
    receiver_balance: u128,
) -> (r: Result<Response, ContractError>)
    ensures
        match guard_outcome(asset_info, prev_balance, minimum_receive, receiver_balance) {
            Some(e) => r == Err::<Response, ContractError>(e),
            None => r is Ok && r->Ok_0.messages@.len() == 0,
        },
{
    if !is_valid_asset(&asset_info) {
        return Err(ContractError::InvalidAsset);
    }
    if receiver_balance < prev_balance {
        return Err(ContractError::BalanceUnderflow);
    }
    let gained = receiver_balance - prev_balance;
    if gained < minimum_receive {
        return Err(ContractError::InsufficientOutput {
            required: minimum_receive,
            actual: gained,
        });
    }
    Ok(Response { messages: Vec::new() })
}

} // verus!

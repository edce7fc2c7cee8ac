//! Asset descriptors: a fungible asset is either a native ledger denomination
//! or a contract-based token, identified by a string in both cases.

use vstd::prelude::*;

verus! {

/// A fixed-point decimal, carried through to the pools unchanged; the router
/// never computes with it. `atomics` are units of 10^-18.
#[derive(Clone, Copy, Debug, PartialEq, Eq, Structural)]
pub struct Decimal {
    pub atomics: u128,
}

/// Identifies a fungible asset, either by native denomination or by the
/// address of the token contract. Equality is structural.
#[derive(Debug, PartialEq, Eq)]
pub enum AssetInfo {
    NativeToken { denom: String },
    Token { contract_addr: String },
}

/// An amount of a native asset, as attached to a call.
#[derive(Debug, PartialEq, Eq)]
pub struct Coin {
    pub denom: String,
    pub amount: u128,
}

impl AssetInfo {
    /// The string under which the asset is tracked: the denomination for a
    /// native asset, the contract address for a token.
    pub open spec fn spec_label(self) -> String {
        match self {
            AssetInfo::NativeToken { denom } => denom,
            AssetInfo::Token { contract_addr } => contract_addr,
        }
    }

    pub fn label(&self) -> (r: String)
        ensures
            r == self.spec_label(),
    {
        match self {
            AssetInfo::NativeToken { denom } => denom.clone(),
            AssetInfo::Token { contract_addr } => contract_addr.clone(),
        }
    }
}

impl Clone for AssetInfo {
    fn clone(&self) -> (r: Self)
        ensures
            r == *self,
    {
        match self {
            AssetInfo::NativeToken { denom } => AssetInfo::NativeToken { denom: denom.clone() },
            AssetInfo::Token { contract_addr } => AssetInfo::Token {
                contract_addr: contract_addr.clone(),
            },
        }
    }
}

impl Clone for Coin {
    fn clone(&self) -> (r: Self)
        ensures
            r == *self,
    {
        Coin { denom: self.denom.clone(), amount: self.amount }
    }
}

} // verus!

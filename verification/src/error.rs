//! Every failure aborts the whole enclosing transaction; the kind carries what
//! the caller needs to decide whether to resubmit with other parameters.

use vstd::prelude::*;

verus! {

#[derive(Debug, PartialEq, Eq)]
pub enum ContractError {
    /// `reset` was called by someone other than the stored owner, or the
    /// guard entry point by someone other than the router itself.
    Unauthorized,
    /// A route was submitted with no steps.
    EmptyRoute,
    /// The recipient override fails the address format rule.
    InvalidAddress,
    /// A guard was requested but no final asset could be resolved, neither
    /// explicitly nor from the last step.
    AmbiguousTargetAsset,
    /// The guard's asset descriptor is not well formed.
    InvalidAsset,
    /// The post-route balance fell below the pre-route balance: an internal
    /// invariant breach, never reported as a wrapped difference.
    BalanceUnderflow,
    /// The route gained less than the caller's minimum.
    InsufficientOutput { required: u128, actual: u128 },
}

impl ContractError {
    /// A short name for the error kind, for hosts that report failures as text.
    pub fn kind(&self) -> (r: &'static str)
        ensures
            (*self is Unauthorized) ==> r@ == "unauthorized"@,
            (*self is EmptyRoute) ==> r@ == "empty route"@,
            (*self is InvalidAddress) ==> r@ == "invalid address"@,
            (*self is AmbiguousTargetAsset) ==> r@ == "ambiguous target asset"@,
            (*self is InvalidAsset) ==> r@ == "invalid asset"@,
            (*self is BalanceUnderflow) ==> r@ == "balance underflow"@,
            (*self is InsufficientOutput) ==> r@ == "insufficient output"@,
    {
        match self {
            ContractError::Unauthorized => "unauthorized",
            ContractError::EmptyRoute => "empty route",
            ContractError::InvalidAddress => "invalid address",
            ContractError::AmbiguousTargetAsset => "ambiguous target asset",
            ContractError::InvalidAsset => "invalid asset",
            ContractError::BalanceUnderflow => "balance underflow",
            ContractError::InsufficientOutput { .. } => "insufficient output",
        }
    }
}

} // verus!

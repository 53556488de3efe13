//! The calls that a message from Polkadot may carry.

use crate::primitives::{AccountId, Balance};
use vstd::prelude::*;

verus! {

/// A call of the balances pallet.
#[derive(Clone, Copy, Debug, PartialEq, Eq)]
pub enum BalancesCall {
    /// Moves `value` tokens from the caller to `dest`.
    Transfer { dest: AccountId, value: Balance },
    /// Any other call of the pallet.
    Other,
}

/// A call of the runtime, told apart as far as the bridge cares.
#[derive(Clone, Copy, Debug, PartialEq, Eq)]
pub enum Call {
    /// A call of the balances pallet.
    Balances(BalancesCall),
    /// A call of any other pallet.
    Other,
}

/// Call filter for messages that are coming from Polkadot.
#[derive(Clone, Copy, Debug, PartialEq, Eq)]
pub struct FromPolkadotCallFilter;

impl FromPolkadotCallFilter {
    /// Whether a message from Polkadot may make this call: a transfer of
    /// balance, and nothing else.
    pub open spec fn spec_contains(call: Call) -> bool {
        call matches Call::Balances(BalancesCall::Transfer { .. })
    }

    /// Tells whether a message from Polkadot may make `call`.
    pub fn contains(call: &Call) -> (allowed: bool)
        ensures
            allowed == Self::spec_contains(*call),
    {
        match call {
            Call::Balances(BalancesCall::Transfer { .. }) => true,
            _ => false,
        }
    }
}

} // verus!

//! Plain types that both chains and every component share.

use vstd::prelude::*;

verus! {

/// Computational cost of a transaction.
pub type Weight = u64;

/// An amount of tokens, of either chain.
pub type Balance = u128;

/// Position of a message within its lane. Valid messages never have nonce 0.
pub type MessageNonce = u64;

/// Public key of an account, of either chain.
pub type AccountId = [u8; 32];

/// Identifier of a directional message channel between the two chains.
pub type LaneId = [u8; 4];

/// Identifier of a chain.
pub type ChainId = [u8; 4];

/// What a relayer's transaction takes up at the chain that runs it.
#[derive(Clone, Copy, Debug, PartialEq, Eq)]
pub struct MessageTransaction {
    /// Weight that running the transaction takes, the base weight of every
    /// transaction left aside.
    pub dispatch_weight: Weight,
    /// Size of the encoded transaction in bytes.
    pub size: u32,
}

/// The nonces that describe the sending end of a lane.
#[derive(Clone, Copy, Debug, PartialEq, Eq)]
pub struct OutboundLaneData {
    /// Nonce of the oldest message that was not pruned yet.
    pub oldest_unpruned_nonce: MessageNonce,
    /// Nonce of the latest message that the other chain has confirmed.
    pub latest_received_nonce: MessageNonce,
    /// Nonce of the latest message that was sent.
    pub latest_generated_nonce: MessageNonce,
}

/// A lane before its first message.
pub open spec fn spec_initial_outbound_lane_data() -> OutboundLaneData {
    OutboundLaneData {
        oldest_unpruned_nonce: 1,
        latest_received_nonce: 0,
        latest_generated_nonce: 0,
    }
}

impl Default for OutboundLaneData {
    /// The state of a lane before its first message: nothing was sent,
    /// nothing was confirmed, and pruning starts at nonce 1.
    fn default() -> (data: Self)
        ensures
            data == spec_initial_outbound_lane_data(),
    {
        OutboundLaneData {
            oldest_unpruned_nonce: 1,
            latest_received_nonce: 0,
            latest_generated_nonce: 0,
        }
    }
}

/// Tells whether two accounts are the same account.
pub fn same_account(a: &AccountId, b: &AccountId) -> (same: bool)
    ensures
        same == (*a == *b),
        same == (a@ == b@),
{
    let mut i: usize = 0;
    while i < 32
        invariant
            i <= 32,
            forall|j: int| 0 <= j < i ==> a@[j] == b@[j],
        decreases 32 - i,
    {
        if a[i] != b[i] {
            return false;
        }
        i += 1;
    }
    assert(a@ =~= b@);
    assert(*a =~= *b);
    true
}

/// `x` as a weight: the largest weight where `x` is over it, nothing where
/// `x` is below zero.
pub open spec fn saturate_weight(x: int) -> Weight {
    if x > u64::MAX {
        u64::MAX
    } else if x < 0 {
        0
    } else {
        x as u64
    }
}

/// `x` as a size: the largest size where `x` is over it, nothing where `x`
/// is below zero.
pub open spec fn saturate_size(x: int) -> u32 {
    if x > u32::MAX {
        u32::MAX
    } else if x < 0 {
        0
    } else {
        x as u32
    }
}

/// `x` as a balance: the largest balance where `x` is over it, nothing where
/// `x` is below zero.
pub open spec fn saturate_balance(x: int) -> Balance {
    if x > u128::MAX {
        u128::MAX
    } else if x < 0 {
        0
    } else {
        x as u128
    }
}

} // verus!

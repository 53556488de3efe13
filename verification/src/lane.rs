//! Lanes, and which of them this bridge serves.
//!
//! A lane is named by four bytes. Read as one big-endian number, the names
//! are ordered as the byte strings are, and a collection of lanes can be
//! keyed by that number.

use crate::primitives::LaneId;
use vstd::prelude::*;

verus! {

/// The four bytes of a lane, read as one big-endian number.
pub open spec fn spec_lane_number(lane: Seq<u8>) -> u32 {
    (lane[0] * 0x100_0000 + lane[1] * 0x1_0000 + lane[2] * 0x100 + lane[3]) as u32
}

/// The lane whose bytes, read as one big-endian number, give `number`.
pub open spec fn spec_lane_of_number(number: u32) -> Seq<u8> {
    seq![
        (number / 0x100_0000) as u8,
        (number / 0x1_0000 % 0x100) as u8,
        (number / 0x100 % 0x100) as u8,
        (number % 0x100) as u8,
    ]
}

/// Messages from Polkadot are accepted on lane `[0, 0, 0, 0]` and on no
/// other.
pub open spec fn spec_is_inbound_lane_allowed(lane: Seq<u8>) -> bool {
    lane == seq![0u8, 0u8, 0u8, 0u8]
}

/// Messages to Polkadot are accepted on lane `[0, 0, 0, 0]` and on no other.
pub open spec fn spec_is_outbound_lane_allowed(lane: Seq<u8>) -> bool {
    lane == seq![0u8, 0u8, 0u8, 0u8]
}

/// Reads the four bytes of a lane as one big-endian number.
pub fn lane_number(lane: &LaneId) -> (number: u32)
    ensures
        number == spec_lane_number(lane@),
{
    let b0: u32 = lane[0] as u32;
    let b1: u32 = lane[1] as u32;
    let b2: u32 = lane[2] as u32;
    let b3: u32 = lane[3] as u32;
    b0 * 0x100_0000 + b1 * 0x1_0000 + b2 * 0x100 + b3
}

/// Writes a number as the four bytes of a lane, the highest byte first.
pub fn lane_of_number(number: u32) -> (lane: LaneId)
    ensures
        lane@ == spec_lane_of_number(number),
{
    let lane: LaneId = [
        (number / 0x100_0000) as u8,
        (number / 0x1_0000 % 0x100) as u8,
        (number / 0x100 % 0x100) as u8,
        (number % 0x100) as u8,
    ];
    assert(lane@ =~= spec_lane_of_number(number));
    lane
}

/// Tells whether messages from Polkadot are accepted on `lane`.
pub fn is_inbound_lane_allowed(lane: &LaneId) -> (allowed: bool)
    ensures
        allowed == spec_is_inbound_lane_allowed(lane@),
{
    let allowed = lane[0] == 0 && lane[1] == 0 && lane[2] == 0 && lane[3] == 0;
    proof {
        if allowed {
            assert(lane@ =~= seq![0u8, 0u8, 0u8, 0u8]);
        }
    }
    allowed
}

/// Tells whether messages to Polkadot are accepted on `lane`.
pub fn is_outbound_lane_allowed(lane: &LaneId) -> (allowed: bool)
    ensures
        allowed == spec_is_outbound_lane_allowed(lane@),
{
    let allowed = lane[0] == 0 && lane[1] == 0 && lane[2] == 0 && lane[3] == 0;
    proof {
        if allowed {
            assert(lane@ =~= seq![0u8, 0u8, 0u8, 0u8]);
        }
    }
    allowed
}

/// A lane is found again from its number.
pub proof fn lemma_lane_of_its_number(lane: Seq<u8>)
    requires
        lane.len() == 4,
    ensures
        spec_lane_of_number(spec_lane_number(lane)) == lane,
{
    let number = spec_lane_number(lane);
    let b0 = lane[0] as int;
    let b1 = lane[1] as int;
    let b2 = lane[2] as int;
    let b3 = lane[3] as int;
    assert(number == b0 * 0x100_0000 + b1 * 0x1_0000 + b2 * 0x100 + b3);
    assert(number / 0x100 == b0 * 0x1_0000 + b1 * 0x100 + b2);
    assert(number / 0x1_0000 == b0 * 0x100 + b1);
    assert(number / 0x100_0000 == b0);
    assert(number % 0x100 == b3);
    assert(number / 0x100 % 0x100 == b2);
    assert(number / 0x1_0000 % 0x100 == b1);
    assert(spec_lane_of_number(number) =~= lane);
}

/// A number is found again from its lane.
pub proof fn lemma_number_of_its_lane(number: u32)
    ensures
        spec_lane_of_number(number).len() == 4,
        spec_lane_number(spec_lane_of_number(number)) == number,
{
}

/// Two lanes with one number are one lane.
pub proof fn lemma_lane_number_is_injective(a: Seq<u8>, b: Seq<u8>)
    requires
        a.len() == 4,
        b.len() == 4,
        spec_lane_number(a) == spec_lane_number(b),
    ensures
        a == b,
{
    lemma_lane_of_its_number(a);
    lemma_lane_of_its_number(b);
}

/// The lane with the lower number is the lane whose bytes come first in
/// the order of byte strings.
pub proof fn lemma_lane_number_keeps_order(a: Seq<u8>, b: Seq<u8>)
    requires
        a.len() == 4,
        b.len() == 4,
    ensures
        spec_lane_number(a) < spec_lane_number(b) <==> {
            ||| a[0] < b[0]
            ||| a[0] == b[0] && a[1] < b[1]
            ||| a[0] == b[0] && a[1] == b[1] && a[2] < b[2]
            ||| a[0] == b[0] && a[1] == b[1] && a[2] == b[2] && a[3] < b[3]
        },
{
}

} // verus!

//! Messages that were proved to come from Polkadot, and the rule that lets
//! a batch of them in.
//!
//! A proof of messages is checked against a finalized header of Polkadot by
//! the surrounding runtime. What comes out of that check is a batch: for
//! each lane that the proof covers, the lane's messages. The batch is let in
//! as a whole or not at all. One lane that this bridge does not serve
//! rejects the whole batch, so that a relayer cannot slip a message on such
//! a lane past the rule inside an otherwise good batch.

use crate::lane::{
    is_inbound_lane_allowed, lane_number, lane_of_number, lemma_lane_of_its_number,
    spec_is_inbound_lane_allowed, spec_lane_number, spec_lane_of_number,
};
use crate::primitives::{Balance, LaneId, MessageNonce, OutboundLaneData};
use std::collections::BTreeMap;
use vstd::prelude::*;
use vstd::std_specs::btree::spec_keys_iter;
use vstd::std_specs::iter::IteratorSpec;

verus! {

/// Error that rejects a batch with a lane that this bridge does not serve.
pub const INBOUND_LANE_DISABLED: &'static str = "The inbound message lane is disaled.";

/// What names a message: its lane and its position in the lane.
#[derive(Clone, Copy, Debug, PartialEq, Eq)]
pub struct MessageKey {
    /// The lane of the message.
    pub lane_id: LaneId,
    /// The position of the message in its lane.
    pub nonce: MessageNonce,
}

/// What a message carries.
#[derive(Clone, Debug, PartialEq, Eq)]
pub struct MessageData {
    /// The encoded call and its metadata. Decoded only at dispatch.
    pub payload: Vec<u8>,
    /// What the sender has paid for delivery and dispatch.
    pub fee: Balance,
}

/// A message as the sending chain has stored it.
#[derive(Clone, Debug, PartialEq, Eq)]
pub struct Message {
    /// The name of the message.
    pub key: MessageKey,
    /// The content of the message.
    pub data: MessageData,
}

/// The messages of one lane that a proof has shown.
#[derive(Clone, Debug, PartialEq, Eq)]
pub struct ProvedLaneMessages<M> {
    /// The state of the sending end of the lane, where the proof holds it.
    pub lane_state: Option<OutboundLaneData>,
    /// The messages, in the order of their nonces.
    pub messages: Vec<M>,
}

/// The messages that a proof has shown, lane by lane. No lane occurs twice:
/// the lanes are the keys of a map, each under its number.
#[derive(Clone, Debug, PartialEq, Eq)]
pub struct ProvedMessages<M> {
    /// The messages of each lane, under the lane's number.
    pub lanes: BTreeMap<u32, ProvedLaneMessages<M>>,
}

impl<M> View for ProvedMessages<M> {
    type V = Map<u32, ProvedLaneMessages<M>>;

    /// The messages of each lane, under the lane's number.
    open spec fn view(&self) -> Map<u32, ProvedLaneMessages<M>> {
        self.lanes@
    }
}

impl<M> ProvedMessages<M> {
    /// Whether the batch holds messages of `lane`.
    pub open spec fn spec_contains_lane(&self, lane: Seq<u8>) -> bool {
        self@.contains_key(spec_lane_number(lane))
    }

    /// Whether every lane of the batch is one on which messages from
    /// Polkadot are accepted.
    pub open spec fn spec_all_lanes_allowed(&self) -> bool {
        forall|number: u32| #[trigger]
            self@.contains_key(number) ==> spec_is_inbound_lane_allowed(
                spec_lane_of_number(number),
            )
    }

    /// A batch without messages.
    pub fn new() -> (batch: Self)
        ensures
            batch@ == Map::<u32, ProvedLaneMessages<M>>::empty(),
    {
        ProvedMessages { lanes: BTreeMap::new() }
    }

    /// Puts the messages of `lane` into the batch. Where the batch held
    /// messages of that lane already, they are replaced and handed back.
    pub fn insert(&mut self, lane: LaneId, messages: ProvedLaneMessages<M>) -> (replaced: Option<
        ProvedLaneMessages<M>,
    >)
        ensures
            final(self)@ == old(self)@.insert(spec_lane_number(lane@), messages),
            old(self).spec_contains_lane(lane@) ==> replaced == Some(
                old(self)@[spec_lane_number(lane@)],
            ),
            !old(self).spec_contains_lane(lane@) ==> replaced is None,
    {
        self.lanes.insert(lane_number(&lane), messages)
    }

    /// The number of lanes in the batch.
    pub fn len(&self) -> (count: usize)
        ensures
            count == self@.dom().len(),
    {
        self.lanes.len()
    }

    /// Tells whether the batch holds messages of `lane`.
    pub fn contains_lane(&self, lane: &LaneId) -> (found: bool)
        ensures
            found == self.spec_contains_lane(lane@),
    {
        let number = lane_number(lane);
        self.lanes.contains_key(&number)
    }
}

/// What becomes of a batch that a proof has shown: it is let in where every
/// lane of it is allowed, and rejected as a whole otherwise.
pub open spec fn spec_verify_inbound_messages_lane<M>(messages: ProvedMessages<M>) -> Result<
    ProvedMessages<M>,
    &'static str,
> {
    if messages.spec_all_lanes_allowed() {
        Ok(messages)
    } else {
        Err(INBOUND_LANE_DISABLED)
    }
}

/// What becomes of the outcome of a proof of messages: a failed proof stays
/// failed, and a batch is let in or rejected by its lanes.
pub open spec fn spec_admit_proved_messages<M>(
    verified: Result<ProvedMessages<M>, &'static str>,
) -> Result<ProvedMessages<M>, &'static str> {
    match verified {
        Ok(messages) => spec_verify_inbound_messages_lane(messages),
        Err(reason) => Err(reason),
    }
}

/// Lets a batch of proved messages in where every lane of it is allowed,
/// and hands it back unchanged. One lane that is not allowed rejects the
/// whole batch.
pub fn verify_inbound_messages_lane<M>(messages: ProvedMessages<M>) -> (admitted: Result<
    ProvedMessages<M>,
    &'static str,
>)
    ensures
        admitted == spec_verify_inbound_messages_lane(messages),
        admitted matches Ok(batch) ==> batch.spec_all_lanes_allowed(),
{
    let mut all_allowed = true;
    let ghost keys = spec_keys_iter(&messages.lanes).remaining();
    for number in it: messages.lanes.keys()
        invariant
            it.seq() == keys,
            all_allowed == (forall|i: int|
                0 <= i < it.index() ==> spec_is_inbound_lane_allowed(
                    spec_lane_of_number(*#[trigger] keys[i]),
                )),
    {
        if !is_inbound_lane_allowed(&lane_of_number(*number)) {
            all_allowed = false;
        }
    }
    proof {
        lemma_keys_are_the_domain(messages, keys);
    }
    if !all_allowed {
        return Err(INBOUND_LANE_DISABLED);
    }
    Ok(messages)
}

/// Decides on the outcome of a proof of messages. A proof that has failed
/// stays failed, for the reason it failed for. A batch that the proof has
/// shown is let in where every lane of it is allowed, and rejected as a
/// whole otherwise.
pub fn admit_proved_messages<M>(verified: Result<ProvedMessages<M>, &'static str>) -> (admitted:
    Result<ProvedMessages<M>, &'static str>)
    ensures
        admitted == spec_admit_proved_messages(verified),
        admitted matches Ok(batch) ==> batch.spec_all_lanes_allowed(),
{
    match verified {
        Ok(messages) => verify_inbound_messages_lane(messages),
        Err(reason) => Err(reason),
    }
}

/// A batch with one lane that is not allowed is not a batch of allowed
/// lanes, whatever else it holds.
pub proof fn lemma_one_disabled_lane_rejects_the_batch<M>(messages: ProvedMessages<M>, lane: Seq<u8>)
    requires
        lane.len() == 4,
        messages.spec_contains_lane(lane),
        !spec_is_inbound_lane_allowed(lane),
    ensures
        !messages.spec_all_lanes_allowed(),
        spec_verify_inbound_messages_lane(messages) == Err::<ProvedMessages<M>, &'static str>(
            INBOUND_LANE_DISABLED,
        ),
{
    lemma_lane_of_its_number(lane);
    assert(messages@.contains_key(spec_lane_number(lane)));
}

/// Every lane of a batch that was let in is an allowed lane.
pub proof fn lemma_admitted_lanes_are_allowed<M>(messages: ProvedMessages<M>, lane: Seq<u8>)
    requires
        lane.len() == 4,
        spec_verify_inbound_messages_lane(messages) is Ok,
        messages.spec_contains_lane(lane),
    ensures
        spec_is_inbound_lane_allowed(lane),
        spec_verify_inbound_messages_lane(messages) == Ok::<ProvedMessages<M>, &'static str>(
            messages,
        ),
{
    lemma_lane_of_its_number(lane);
    assert(messages@.contains_key(spec_lane_number(lane)));
}

/// The keys that a walk over the lanes meets are the numbers of the lanes of
/// the batch.
proof fn lemma_keys_are_the_domain<M>(messages: ProvedMessages<M>, keys: Seq<&u32>)
    requires
        keys == spec_keys_iter(&messages.lanes).remaining(),
    ensures
        keys.len() == messages@.dom().len(),
        forall|i: int| 0 <= i < keys.len() ==> messages@.contains_key(*#[trigger] keys[i]),
        forall|number: u32| #[trigger]
            messages@.contains_key(number) ==> exists|i: int|
                0 <= i < keys.len() && *#[trigger] keys[i] == number,
{
    assert(keys.unref().to_set() == messages@.dom());
    assert forall|i: int| 0 <= i < keys.len() implies messages@.contains_key(
        *#[trigger] keys[i],
    ) by {
        assert(keys.unref()[i] == *keys[i]);
        assert(keys.unref().to_set().contains(keys.unref()[i]));
    }
    assert forall|number: u32| #[trigger] messages@.contains_key(number) implies exists|i: int|
        0 <= i < keys.len() && *#[trigger] keys[i] == number by {
        assert(keys.unref().to_set().contains(number));
        let i = choose|i: int| 0 <= i < keys.unref().len() && keys.unref()[i] == number;
        assert(*keys[i] == number);
    }
}

} // verus!

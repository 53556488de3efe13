//! The two chains, as far as the bridge needs to know them.
//!
//! A relayer runs two transactions for every message: one at Polkadot that
//! delivers the message, one at Kusama that confirms the delivery. The
//! sender pays for both in advance, so the bridge has to tell beforehand how
//! heavy and how large they will be, and what each chain will charge.
//! [`Polkadot`] and [`Kusama`] hold the weights, sizes and prices that the
//! estimates start from; the runtime fills them in from the chains'
//! constants.

use crate::fee::{
    lemma_transaction_cost_is_monotonic, saturating_mul_weight, spec_charged_weight,
    spec_transaction_cost, transaction_payment,
};
use crate::fixed::FixedU128;
use crate::inbound::{admit_proved_messages, spec_admit_proved_messages, ProvedMessages};
use crate::lane::{is_outbound_lane_allowed, spec_is_outbound_lane_allowed};
use crate::origin::{spec_linked_account, Origin};
use crate::parameters::ParameterStore;
use crate::primitives::{
    saturate_size, saturate_weight, Balance, LaneId, MessageNonce, MessageTransaction, Weight,
};
use core::ops::RangeInclusive;
use vstd::prelude::*;

verus! {

/// Largest size, in bytes, of the encoded entry of one relayer in the state
/// of a receiving lane: the relayer's account and the first and last nonce
/// that the relayer has delivered.
pub const RELAYER_ENTRY_ENCODED_SIZE: u32 = 48;

/// Size, in bytes, of an encoded message nonce.
pub const MESSAGE_NONCE_ENCODED_SIZE: u32 = 8;

/// Approximate size of the encoded state of a receiving lane with so many
/// relayer entries: the entries and one nonce. A size that does not fit is
/// the largest size.
pub open spec fn spec_inbound_lane_data_size_hint(relayers_entries: nat) -> u32 {
    saturate_size(relayers_entries * RELAYER_ENTRY_ENCODED_SIZE + MESSAGE_NONCE_ENCODED_SIZE)
}

/// `bp_messages::InboundLaneData::encoded_size_hint_u32`, for relayers that
/// are named by `sp_runtime::AccountId32`: the largest encoded size of
/// `relayers_entries` relayer entries (48 bytes each: an account of 32 bytes
/// and two nonces of 8) plus the size of one nonce, and `u32::MAX` where the
/// sum does not fit.
#[verifier::external_body]
fn inbound_lane_data_size_hint(relayers_entries: usize) -> (size: u32)
    ensures
        size == spec_inbound_lane_data_size_hint(relayers_entries as nat),
{
    bp_messages::InboundLaneData::<sp_runtime::AccountId32>::encoded_size_hint_u32(relayers_entries)
}

/// The largest dispatch weight of a message that a chain with the given
/// largest transaction weight can receive: one half is left for the
/// delivery transaction itself.
pub fn maximal_incoming_message_dispatch_weight(maximal_extrinsic_weight: Weight) -> (limit: Weight)
    ensures
        limit == maximal_extrinsic_weight / 2,
{
    maximal_extrinsic_weight / 2
}

/// Kusama from messages point of view: the chain that sends the messages
/// and receives the confirmations of their delivery.
#[derive(Clone, Copy, Debug, PartialEq, Eq)]
pub struct Kusama {
    /// How many messages a single confirmation transaction may confirm.
    pub max_unconfirmed_messages_in_confirmation_tx: MessageNonce,
    /// Largest weight of the transaction that confirms one message.
    pub max_single_message_delivery_confirmation_tx_weight: Weight,
    /// Bytes that the proof of Polkadot's storage adds to what it proves.
    pub extra_storage_proof_size: u32,
    /// Bytes that signature and extensions add to a transaction.
    pub tx_extra_bytes: u32,
    /// Weight of every transaction, whatever it does.
    pub base_extrinsic_weight: Weight,
    /// Fee for every byte of a transaction.
    pub transaction_byte_fee: Balance,
}

/// Polkadot from messages point of view: the chain that receives the
/// messages.
#[derive(Clone, Copy, Debug, PartialEq, Eq)]
pub struct Polkadot {
    /// Largest size of a transaction, in bytes.
    pub max_extrinsic_size: u32,
    /// Largest weight of a transaction.
    pub max_extrinsic_weight: Weight,
    /// Weight of the delivery of one message of the expected length.
    pub default_message_delivery_tx_weight: Weight,
    /// Weight that every byte over the expected length adds to the delivery.
    pub additional_message_byte_delivery_weight: Weight,
    /// Weight of charging the dispatch fee at Polkadot. It is part of the
    /// default delivery weight.
    pub pay_inbound_dispatch_fee_weight: Weight,
    /// Length of a message, in bytes, that the default delivery weight covers.
    pub expected_default_message_length: u32,
    /// Bytes that the proof of Kusama's storage adds to what it proves.
    pub extra_storage_proof_size: u32,
    /// Bytes that signature and extensions add to a transaction.
    pub tx_extra_bytes: u32,
    /// Weight of every transaction, whatever it does.
    pub base_extrinsic_weight: Weight,
    /// Fee for every byte of a transaction.
    pub transaction_byte_fee: Balance,
}

impl Kusama {
    /// The multiplier to expect when the confirmation is submitted: the
    /// next multiplier, raised by a tenth.
    pub open spec fn spec_future_fee_multiplier(next_fee_multiplier: FixedU128) -> FixedU128 {
        FixedU128::spec_saturating_from_rational(110, 100).spec_saturating_mul(next_fee_multiplier)
    }

    /// The transaction that confirms the delivery of one message by one
    /// relayer.
    pub open spec fn spec_estimate_delivery_confirmation_transaction(self) -> MessageTransaction {
        MessageTransaction {
            dispatch_weight: self.max_single_message_delivery_confirmation_tx_weight,
            size: saturate_size(
                spec_inbound_lane_data_size_hint(1) + self.extra_storage_proof_size
                    + self.tx_extra_bytes,
            ),
        }
    }

    /// Tells whether a message of `submitter` may enter `lane`: the lane is
    /// one that the bridge serves, and the submitter is linked to an account.
    pub fn is_message_accepted(
        submitter: &Origin,
        lane: &LaneId,
        parameters: &ParameterStore,
    ) -> (accepted: bool)
        ensures
            accepted == (spec_is_outbound_lane_allowed(lane@) && spec_linked_account(
                submitter.caller,
                parameters.allowed_message_sender,
            ) is Some),
    {
        is_outbound_lane_allowed(lane) && submitter.linked_account(parameters).is_some()
    }

    /// How many messages may wait for their confirmation on one lane.
    pub fn maximal_pending_messages_at_outbound_lane(&self) -> (limit: MessageNonce)
        ensures
            limit == self.max_unconfirmed_messages_in_confirmation_tx,
    {
        self.max_unconfirmed_messages_in_confirmation_tx
    }

    /// Estimates the transaction that confirms the delivery of one message
    /// by one relayer: its weight is the largest that such a confirmation
    /// may have, its size that of the lane state with one relayer entry, of
    /// the storage proof around it and of the transaction's own overhead.
    pub fn estimate_delivery_confirmation_transaction(&self) -> (transaction: MessageTransaction)
        ensures
            transaction == self.spec_estimate_delivery_confirmation_transaction(),
    {
        let inbound_data_size = inbound_lane_data_size_hint(1);
        MessageTransaction {
            dispatch_weight: self.max_single_message_delivery_confirmation_tx_weight,
            size: inbound_data_size.saturating_add(self.extra_storage_proof_size).saturating_add(
                self.tx_extra_bytes,
            ),
        }
    }

    /// What Kusama will charge for `transaction`. The transaction may be
    /// submitted some time from now, when the fee multiplier has grown, so
    /// the next multiplier is raised by a tenth.
    pub fn transaction_payment<F: Fn(Weight) -> Balance>(
        &self,
        next_fee_multiplier: FixedU128,
        weight_to_fee: F,
        transaction: MessageTransaction,
    ) -> (fee: Balance)
        requires
            call_requires(
                weight_to_fee,
                (spec_charged_weight(self.base_extrinsic_weight, transaction),),
            ),
        ensures
            exists|weight_fee: Balance|
                call_ensures(
                    weight_to_fee,
                    (spec_charged_weight(self.base_extrinsic_weight, transaction),),
                    weight_fee,
                ) && fee == spec_transaction_cost(
                    weight_fee,
                    self.transaction_byte_fee,
                    Self::spec_future_fee_multiplier(next_fee_multiplier),
                    transaction.size,
                ),
    {
        let multiplier = FixedU128::saturating_from_rational(110, 100).saturating_mul(
            next_fee_multiplier,
        );
        assert(multiplier == Self::spec_future_fee_multiplier(next_fee_multiplier));
        transaction_payment(
            self.base_extrinsic_weight,
            self.transaction_byte_fee,
            multiplier,
            weight_to_fee,
            transaction,
        )
    }
}

impl Polkadot {
    /// The weight of the delivery of a message of `payload_len` bytes,
    /// before the weight of the message's own dispatch is added.
    pub open spec fn spec_delivery_weight(
        self,
        payload_len: nat,
        include_pay_dispatch_fee_cost: bool,
    ) -> Weight {
        let extra_bytes = saturate_weight(
            saturate_size(payload_len as int) - self.expected_default_message_length,
        );
        let with_every_cost = saturate_weight(
            extra_bytes * self.additional_message_byte_delivery_weight
                + self.default_message_delivery_tx_weight,
        );
        if include_pay_dispatch_fee_cost {
            with_every_cost
        } else {
            saturate_weight(with_every_cost - self.pay_inbound_dispatch_fee_weight)
        }
    }

    /// The transaction that delivers a message of `payload_len` bytes.
    pub open spec fn spec_estimate_delivery_transaction(
        self,
        payload_len: nat,
        include_pay_dispatch_fee_cost: bool,
        message_dispatch_weight: Weight,
    ) -> MessageTransaction {
        MessageTransaction {
            dispatch_weight: saturate_weight(
                self.spec_delivery_weight(payload_len, include_pay_dispatch_fee_cost)
                    + message_dispatch_weight,
            ),
            size: saturate_size(
                saturate_size(payload_len as int) + self.extra_storage_proof_size
                    + self.tx_extra_bytes,
            ),
        }
    }

    /// Largest size of a transaction at Polkadot, in bytes.
    pub fn maximal_extrinsic_size(&self) -> (size: u32)
        ensures
            size == self.max_extrinsic_size,
    {
        self.max_extrinsic_size
    }

    /// The dispatch weights that a message may declare: from nothing up to
    /// half of the largest transaction weight, whatever the message holds.
    pub fn message_weight_limits(&self, _message_payload: &[u8]) -> (limits: RangeInclusive<Weight>)
        ensures
            limits@.start == 0,
            limits@.end == self.max_extrinsic_weight / 2,
            !limits@.exhausted,
    {
        let upper_limit = maximal_incoming_message_dispatch_weight(self.max_extrinsic_weight);
        0..=upper_limit
    }

    /// Estimates the transaction that delivers a message with the given
    /// payload. Every byte over the expected length adds weight to the
    /// default delivery weight. Where the dispatch fee is paid at Kusama,
    /// the weight of charging it at Polkadot is taken off. The weight of the
    /// message's dispatch comes on top. No step wraps.
    pub fn estimate_delivery_transaction(
        &self,
        message_payload: &[u8],
        include_pay_dispatch_fee_cost: bool,
        message_dispatch_weight: Weight,
    ) -> (transaction: MessageTransaction)
        ensures
            transaction == self.spec_estimate_delivery_transaction(
                message_payload@.len(),
                include_pay_dispatch_fee_cost,
                message_dispatch_weight,
            ),
    {
        let payload_len = message_payload.len();
        let message_payload_len: u32 = if payload_len > u32::MAX as usize {
            u32::MAX
        } else {
            payload_len as u32
        };
        let extra_bytes_in_payload: Weight = (message_payload_len as Weight).saturating_sub(
            self.expected_default_message_length as Weight,
        );
        let fee_payment_weight: Weight = if include_pay_dispatch_fee_cost {
            0
        } else {
            self.pay_inbound_dispatch_fee_weight
        };
        MessageTransaction {
            dispatch_weight: saturating_mul_weight(
                extra_bytes_in_payload,
                self.additional_message_byte_delivery_weight,
            ).saturating_add(self.default_message_delivery_tx_weight).saturating_sub(
                fee_payment_weight,
            ).saturating_add(message_dispatch_weight),
            size: message_payload_len.saturating_add(self.extra_storage_proof_size).saturating_add(
                self.tx_extra_bytes,
            ),
        }
    }

    /// What Polkadot will charge for `transaction`. The fee multiplier of
    /// Polkadot cannot be read from Kusama: it is the parameter that
    /// governance keeps up to date.
    pub fn transaction_payment<F: Fn(Weight) -> Balance>(
        &self,
        parameters: &ParameterStore,
        weight_to_fee: F,
        transaction: MessageTransaction,
    ) -> (fee: Balance)
        requires
            call_requires(
                weight_to_fee,
                (spec_charged_weight(self.base_extrinsic_weight, transaction),),
            ),
        ensures
            exists|weight_fee: Balance|
                call_ensures(
                    weight_to_fee,
                    (spec_charged_weight(self.base_extrinsic_weight, transaction),),
                    weight_fee,
                ) && fee == spec_transaction_cost(
                    weight_fee,
                    self.transaction_byte_fee,
                    parameters.polkadot_fee_multiplier,
                    transaction.size,
                ),
    {
        transaction_payment(
            self.base_extrinsic_weight,
            self.transaction_byte_fee,
            parameters.polkadot_fee_multiplier,
            weight_to_fee,
            transaction,
        )
    }

    /// Checks a proof that Polkadot has received messages of Kusama, and
    /// gives the lane and the state of its receiving end that the proof
    /// shows. `proof_verifier` holds the proof against a header of Polkadot
    /// that Kusama knows to be final. What it finds is handed back as it
    /// is: the lane and its state where the proof holds, and its reason
    /// where it does not.
    pub fn verify_messages_delivery_proof<P, D, V: FnOnce(P) -> Result<(LaneId, D), &'static str>>(
        proof: P,
        proof_verifier: V,
    ) -> (confirmed: Result<(LaneId, D), &'static str>)
        requires
            call_requires(proof_verifier, (proof,)),
        ensures
            call_ensures(proof_verifier, (proof,), confirmed),
    {
        proof_verifier(proof)
    }

    /// Checks a proof of messages that Polkadot has sent, and gives the
    /// messages that the proof shows, lane by lane. `proof_verifier` holds
    /// the proof against a header of Polkadot that Kusama knows to be final
    /// and decodes at most `messages_count` messages; what it rejects is
    /// rejected for its reason. Every lane that the proof covers must be an
    /// allowed lane: one that is not rejects the whole batch.
    pub fn verify_messages_proof<P, M, V: FnOnce(P, u32) -> Result<ProvedMessages<M>, &'static str>>(
        proof: P,
        messages_count: u32,
        proof_verifier: V,
    ) -> (admitted: Result<ProvedMessages<M>, &'static str>)
        requires
            call_requires(proof_verifier, (proof, messages_count)),
        ensures
            exists|verified: Result<ProvedMessages<M>, &'static str>|
                call_ensures(proof_verifier, (proof, messages_count), verified) && admitted
                    == spec_admit_proved_messages(verified),
            admitted matches Ok(batch) ==> batch.spec_all_lanes_allowed(),
    {
        let verified = proof_verifier(proof, messages_count);
        admit_proved_messages(verified)
    }
}

/// A longer message never makes for a lighter or a smaller delivery.
pub proof fn lemma_delivery_transaction_grows_with_payload(
    polkadot: Polkadot,
    short_len: nat,
    long_len: nat,
    include_pay_dispatch_fee_cost: bool,
    message_dispatch_weight: Weight,
)
    requires
        short_len <= long_len,
    ensures
        polkadot.spec_estimate_delivery_transaction(
            short_len,
            include_pay_dispatch_fee_cost,
            message_dispatch_weight,
        ).dispatch_weight <= polkadot.spec_estimate_delivery_transaction(
            long_len,
            include_pay_dispatch_fee_cost,
            message_dispatch_weight,
        ).dispatch_weight,
        polkadot.spec_estimate_delivery_transaction(
            short_len,
            include_pay_dispatch_fee_cost,
            message_dispatch_weight,
        ).size <= polkadot.spec_estimate_delivery_transaction(
            long_len,
            include_pay_dispatch_fee_cost,
            message_dispatch_weight,
        ).size,
{
    let per_byte = polkadot.additional_message_byte_delivery_weight as int;
    let short_extra = saturate_weight(
        saturate_size(short_len as int) - polkadot.expected_default_message_length,
    ) as int;
    let long_extra = saturate_weight(
        saturate_size(long_len as int) - polkadot.expected_default_message_length,
    ) as int;
    assert(short_extra * per_byte <= long_extra * per_byte) by (nonlinear_arith)
        requires
            0 <= short_extra <= long_extra,
            0 <= per_byte,
    ;
}

/// Over the expected length every further byte of a message adds the weight
/// of one additional byte to the delivery, as long as no weight goes over
/// the largest weight and, where the weight of charging the dispatch fee is
/// taken off, the delivery of the shorter message weighs at least as much.
pub proof fn lemma_delivery_weight_of_additional_bytes(
    polkadot: Polkadot,
    short_len: nat,
    long_len: nat,
    include_pay_dispatch_fee_cost: bool,
    message_dispatch_weight: Weight,
)
    requires
        polkadot.expected_default_message_length <= short_len <= long_len <= u32::MAX,
        !include_pay_dispatch_fee_cost ==> polkadot.pay_inbound_dispatch_fee_weight <= (short_len
            - polkadot.expected_default_message_length)
            * polkadot.additional_message_byte_delivery_weight
            + polkadot.default_message_delivery_tx_weight,
        (long_len - polkadot.expected_default_message_length)
            * polkadot.additional_message_byte_delivery_weight
            + polkadot.default_message_delivery_tx_weight + message_dispatch_weight <= u64::MAX,
    ensures
        polkadot.spec_estimate_delivery_transaction(
            long_len,
            include_pay_dispatch_fee_cost,
            message_dispatch_weight,
        ).dispatch_weight - polkadot.spec_estimate_delivery_transaction(
            short_len,
            include_pay_dispatch_fee_cost,
            message_dispatch_weight,
        ).dispatch_weight == (long_len - short_len)
            * polkadot.additional_message_byte_delivery_weight,
{
    let per_byte = polkadot.additional_message_byte_delivery_weight as int;
    let expected = polkadot.expected_default_message_length as int;
    let short_extra = short_len - expected;
    let long_extra = long_len - expected;
    assert(0 <= short_extra * per_byte <= long_extra * per_byte) by (nonlinear_arith)
        requires
            0 <= short_extra <= long_extra,
            0 <= per_byte,
    ;
    assert(long_extra * per_byte - short_extra * per_byte == (long_len - short_len) * per_byte)
        by (nonlinear_arith)
        requires
            long_extra - short_extra == long_len - short_len,
    ;
}

/// Where a heavier transaction never costs less by Polkadot's price list,
/// the delivery of a longer message never costs less than that of a shorter
/// one.
pub proof fn lemma_delivery_fee_grows_with_payload(
    polkadot: Polkadot,
    multiplier: FixedU128,
    weight_to_fee: spec_fn(Weight) -> Balance,
    short_len: nat,
    long_len: nat,
    include_pay_dispatch_fee_cost: bool,
    message_dispatch_weight: Weight,
)
    requires
        short_len <= long_len,
        forall|light: Weight, heavy: Weight|
            light <= heavy ==> #[trigger] weight_to_fee(light) <= #[trigger] weight_to_fee(heavy),
    ensures
        ({
            let short = polkadot.spec_estimate_delivery_transaction(
                short_len,
                include_pay_dispatch_fee_cost,
                message_dispatch_weight,
            );
            let long = polkadot.spec_estimate_delivery_transaction(
                long_len,
                include_pay_dispatch_fee_cost,
                message_dispatch_weight,
            );
            spec_transaction_cost(
                weight_to_fee(spec_charged_weight(polkadot.base_extrinsic_weight, short)),
                polkadot.transaction_byte_fee,
                multiplier,
                short.size,
            ) <= spec_transaction_cost(
                weight_to_fee(spec_charged_weight(polkadot.base_extrinsic_weight, long)),
                polkadot.transaction_byte_fee,
                multiplier,
                long.size,
            )
        }),
{
    let short = polkadot.spec_estimate_delivery_transaction(
        short_len,
        include_pay_dispatch_fee_cost,
        message_dispatch_weight,
    );
    let long = polkadot.spec_estimate_delivery_transaction(
        long_len,
        include_pay_dispatch_fee_cost,
        message_dispatch_weight,
    );
    lemma_delivery_transaction_grows_with_payload(
        polkadot,
        short_len,
        long_len,
        include_pay_dispatch_fee_cost,
        message_dispatch_weight,
    );
    let light = spec_charged_weight(polkadot.base_extrinsic_weight, short);
    let heavy = spec_charged_weight(polkadot.base_extrinsic_weight, long);
    assert(light <= heavy);
    assert(weight_to_fee(light) <= weight_to_fee(heavy));
    lemma_transaction_cost_is_monotonic(
        weight_to_fee(light),
        weight_to_fee(heavy),
        polkadot.transaction_byte_fee,
        multiplier,
        short.size,
        long.size,
    );
}

} // verus!

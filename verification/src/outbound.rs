//! The rule that a message has to pass before it leaves Kusama.
//!
//! Governance may name one allowed sender. While one is named, a message is
//! let out only where its submitter is linked to that very account. While
//! none is named, the restriction binds nobody, and every submitter that is
//! linked to an account passes. A submitter that is linked to no account
//! never passes. Only after that is the message itself looked at: its size,
//! its declared weight and the fee that comes with it are for the runtime's
//! own message verifier to judge.

use crate::origin::{spec_linked_account, Origin};
use crate::parameters::ParameterStore;
use crate::primitives::{same_account, AccountId, Balance, LaneId, OutboundLaneData, Weight};
use vstd::prelude::*;

verus! {

/// Error that rejects a message whose submitter may not send.
pub const NOT_ALLOWED_MESSAGE_SENDER: &'static str = "Cannot accept message from this account";

/// For which account of Polkadot the call of a message is dispatched.
#[derive(Clone, Copy, Debug, PartialEq, Eq)]
pub enum CallOrigin {
    /// The call is dispatched for the account that stands for Kusama's root.
    SourceRoot,
    /// The call is dispatched for an account of Polkadot, whose owner has
    /// signed for the account of Kusama that sends the message.
    TargetAccount(AccountId, AccountId),
    /// The call is dispatched for the account that is derived from the
    /// account of Kusama that sends the message.
    SourceAccount(AccountId),
}

/// Where the fee for the dispatch of a message is paid.
#[derive(Clone, Copy, Debug, PartialEq, Eq)]
pub enum DispatchFeePayment {
    /// The sender pays at Kusama, together with the delivery.
    AtSourceChain,
    /// The account that the call is dispatched for pays at Polkadot.
    AtTargetChain,
}

/// What a message to Polkadot holds.
#[derive(Clone, Debug, PartialEq, Eq)]
pub struct MessagePayload {
    /// Version of Polkadot's runtime that the call was encoded for.
    pub spec_version: u32,
    /// Weight that the sender declares for the dispatch of the call.
    pub weight: Weight,
    /// For which account the call is dispatched.
    pub origin: CallOrigin,
    /// Where the dispatch is paid for.
    pub dispatch_fee_payment: DispatchFeePayment,
    /// The encoded call.
    pub call: Vec<u8>,
}

/// Message payload for Kusama -> Polkadot messages.
pub type ToPolkadotMessagePayload = MessagePayload;

/// Whether `submitter` may send messages. Where a sender is set, the
/// submitter must be linked to that very account. Where none is set, the
/// submitter must be linked to some account.
pub open spec fn spec_is_sender_allowed(
    submitter: Origin,
    allowed_sender: Option<AccountId>,
) -> bool {
    match allowed_sender {
        Some(sender) => spec_linked_account(submitter.caller, allowed_sender) == Some(sender),
        None => spec_linked_account(submitter.caller, allowed_sender) is Some,
    }
}

/// What becomes of a message of `submitter` on which the runtime's message
/// verifier has come to `chain_outcome`: the verifier's outcome counts for
/// a submitter that may send, and nobody else is let through.
pub open spec fn spec_verify_message(
    submitter: Origin,
    allowed_sender: Option<AccountId>,
    chain_outcome: Result<(), &'static str>,
) -> Result<(), &'static str> {
    if spec_is_sender_allowed(submitter, allowed_sender) {
        chain_outcome
    } else {
        Err(NOT_ALLOWED_MESSAGE_SENDER)
    }
}

/// Message verifier for Kusama -> Polkadot messages.
#[derive(Clone, Copy, Debug, PartialEq, Eq)]
pub struct ToPolkadotMessageVerifier;

impl ToPolkadotMessageVerifier {
    /// Tells whether `submitter` may send messages to Polkadot.
    pub fn is_sender_allowed(submitter: &Origin, parameters: &ParameterStore) -> (allowed: bool)
        ensures
            allowed == spec_is_sender_allowed(*submitter, parameters.allowed_message_sender),
    {
        match (submitter.linked_account(parameters), parameters.allowed_message_sender) {
            (Some(linked), Some(allowed_sender)) => same_account(&linked, &allowed_sender),
            (Some(_), None) => true,
            (None, _) => false,
        }
    }

    /// Decides on a message, given what the runtime's message verifier has
    /// found on it. A submitter that may not send is rejected, whatever the
    /// verifier has found. For a submitter that may send the verifier's
    /// outcome stands.
    pub fn admit_message(
        parameters: &ParameterStore,
        submitter: &Origin,
        chain_outcome: Result<(), &'static str>,
    ) -> (outcome: Result<(), &'static str>)
        ensures
            outcome == spec_verify_message(
                *submitter,
                parameters.allowed_message_sender,
                chain_outcome,
            ),
            outcome is Ok ==> spec_is_sender_allowed(*submitter, parameters.allowed_message_sender),
            outcome is Ok && parameters.allowed_message_sender is Some ==> spec_linked_account(
                submitter.caller,
                parameters.allowed_message_sender,
            ) == parameters.allowed_message_sender,
    {
        if !Self::is_sender_allowed(submitter, parameters) {
            return Err(NOT_ALLOWED_MESSAGE_SENDER);
        }
        chain_outcome
    }

    /// Decides whether a message may be sent to Polkadot. The sender is
    /// checked first: a submitter that may not send is rejected, and
    /// `chain_verifier` is not asked. For a submitter that may send,
    /// `chain_verifier`, the runtime's message verifier, judges the lane,
    /// the payload and the fee, and its outcome is the outcome.
    pub fn verify_message<V>(
        parameters: &ParameterStore,
        submitter: &Origin,
        delivery_and_dispatch_fee: &Balance,
        lane: &LaneId,
        lane_outbound_data: &OutboundLaneData,
        payload: &ToPolkadotMessagePayload,
        chain_verifier: V,
    ) -> (outcome: Result<(), &'static str>) where
        V: FnOnce(
            &Origin,
            &Balance,
            &LaneId,
            &OutboundLaneData,
            &ToPolkadotMessagePayload,
        ) -> Result<(), &'static str>,

        requires
            spec_is_sender_allowed(*submitter, parameters.allowed_message_sender) ==> call_requires(
                chain_verifier,
                (submitter, delivery_and_dispatch_fee, lane, lane_outbound_data, payload),
            ),
        ensures
            !spec_is_sender_allowed(*submitter, parameters.allowed_message_sender) ==> outcome
                == Err::<(), &'static str>(NOT_ALLOWED_MESSAGE_SENDER),
            spec_is_sender_allowed(*submitter, parameters.allowed_message_sender) ==> call_ensures(
                chain_verifier,
                (submitter, delivery_and_dispatch_fee, lane, lane_outbound_data, payload),
                outcome,
            ),
            outcome is Ok ==> spec_is_sender_allowed(*submitter, parameters.allowed_message_sender),
            outcome is Ok && parameters.allowed_message_sender is Some ==> spec_linked_account(
                submitter.caller,
                parameters.allowed_message_sender,
            ) == parameters.allowed_message_sender,
    {
        if !Self::is_sender_allowed(submitter, parameters) {
            return Err(NOT_ALLOWED_MESSAGE_SENDER);
        }
        chain_verifier(submitter, delivery_and_dispatch_fee, lane, lane_outbound_data, payload)
    }
}

/// While a sender is set, a message is let out only for a submitter that is
/// linked to that very account. A submitter that is linked to no account is
/// never let out. Whoever may not send is rejected, whatever the runtime's
/// message verifier has found, and for whoever may send the verifier's
/// outcome stands.
pub proof fn lemma_only_the_allowed_sender_sends(
    submitter: Origin,
    allowed_sender: Option<AccountId>,
    chain_outcome: Result<(), &'static str>,
)
    ensures
        spec_verify_message(submitter, allowed_sender, chain_outcome) is Ok && allowed_sender
            is Some ==> spec_linked_account(submitter.caller, allowed_sender) == allowed_sender,
        spec_verify_message(submitter, allowed_sender, chain_outcome) is Ok ==> spec_linked_account(
            submitter.caller,
            allowed_sender,
        ) is Some,
        allowed_sender is Some && spec_linked_account(submitter.caller, allowed_sender)
            != allowed_sender ==> spec_verify_message(submitter, allowed_sender, chain_outcome)
            == Err::<(), &'static str>(NOT_ALLOWED_MESSAGE_SENDER),
        spec_linked_account(submitter.caller, allowed_sender) is None ==> spec_verify_message(
            submitter,
            allowed_sender,
            chain_outcome,
        ) == Err::<(), &'static str>(NOT_ALLOWED_MESSAGE_SENDER),
        spec_is_sender_allowed(submitter, allowed_sender) ==> spec_verify_message(
            submitter,
            allowed_sender,
            chain_outcome,
        ) == chain_outcome,
{
}

} // verus!

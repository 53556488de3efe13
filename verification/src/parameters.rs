//! The parameters of the bridge that governance may change.
//!
//! Three values steer the bridge: the rate at which Polkadot's tokens are
//! turned into Kusama's, the fee multiplier to expect at Polkadot, and the
//! one account that may send messages. They live in a [`ParameterStore`],
//! which is handed to every function that reads one of them. Whoever calls
//! [`WithPolkadotMessageBridgeParameter::save`] has already checked that the
//! update comes from governance.

use crate::fixed::{FixedU128, FIXED_U128_DIV};
use crate::primitives::AccountId;
use vstd::prelude::*;

verus! {

/// The conversion rate before governance sets one: one for one.
pub fn initial_polkadot_to_kusama_conversion_rate() -> (rate: FixedU128)
    ensures
        rate == FixedU128::spec_one(),
{
    FixedU128 { inner: FIXED_U128_DIV }
}

/// The fee multiplier of Polkadot before governance sets one: one.
pub fn initial_polkadot_fee_multiplier() -> (multiplier: FixedU128)
    ensures
        multiplier == FixedU128::spec_one(),
{
    FixedU128 { inner: FIXED_U128_DIV }
}

/// The current values of the bridge's parameters.
#[derive(Clone, Copy, Debug, PartialEq, Eq)]
pub struct ParameterStore {
    /// How many Kusama tokens one Polkadot token is worth.
    pub polkadot_to_kusama_conversion_rate: FixedU128,
    /// Fee multiplier at Polkadot.
    pub polkadot_fee_multiplier: FixedU128,
    /// The only Kusama account that is allowed to send messages to Polkadot.
    /// While none is set, the restriction binds nobody.
    pub allowed_message_sender: Option<AccountId>,
}

impl ParameterStore {
    /// The parameters of a bridge that governance has not touched.
    pub open spec fn spec_initial() -> ParameterStore {
        ParameterStore {
            polkadot_to_kusama_conversion_rate: FixedU128::spec_one(),
            polkadot_fee_multiplier: FixedU128::spec_one(),
            allowed_message_sender: None,
        }
    }

    /// The parameters at the bridge's start: both numbers are one, and no
    /// sender is set.
    pub fn new() -> (store: Self)
        ensures
            store == Self::spec_initial(),
    {
        ParameterStore {
            polkadot_to_kusama_conversion_rate: initial_polkadot_to_kusama_conversion_rate(),
            polkadot_fee_multiplier: initial_polkadot_fee_multiplier(),
            allowed_message_sender: None,
        }
    }
}

/// An update of one parameter of the bridge.
#[derive(Clone, Copy, Debug, PartialEq, Eq)]
pub enum WithPolkadotMessageBridgeParameter {
    /// The conversion formula is `KusamaTokens = PolkadotTokens * conversion_rate`.
    PolkadotToKusamaConversionRate(FixedU128),
    /// Fee multiplier at the Polkadot chain.
    PolkadotFeeMultiplier(FixedU128),
    /// The only Kusama account that is allowed to send messages to Polkadot.
    AllowedMessageSender(Option<AccountId>),
}

impl WithPolkadotMessageBridgeParameter {
    /// The store after this update: the parameter that the update names has
    /// the update's value, the other two are as before.
    pub open spec fn spec_save(self, store: ParameterStore) -> ParameterStore {
        match self {
            WithPolkadotMessageBridgeParameter::PolkadotToKusamaConversionRate(rate) => ParameterStore {
                polkadot_to_kusama_conversion_rate: rate,
                ..store
            },
            WithPolkadotMessageBridgeParameter::PolkadotFeeMultiplier(multiplier) => ParameterStore {
                polkadot_fee_multiplier: multiplier,
                ..store
            },
            WithPolkadotMessageBridgeParameter::AllowedMessageSender(sender) => ParameterStore {
                allowed_message_sender: sender,
                ..store
            },
        }
    }

    /// Writes the update into the store. Every value is taken as it comes:
    /// a conversion rate of zero is stored like any other.
    pub fn save(&self, store: &mut ParameterStore)
        ensures
            *final(store) == self.spec_save(*old(store)),
    {
        match *self {
            WithPolkadotMessageBridgeParameter::PolkadotToKusamaConversionRate(conversion_rate) => {
                store.polkadot_to_kusama_conversion_rate = conversion_rate;
            },
            WithPolkadotMessageBridgeParameter::PolkadotFeeMultiplier(fee_multiplier) => {
                store.polkadot_fee_multiplier = fee_multiplier;
            },
            WithPolkadotMessageBridgeParameter::AllowedMessageSender(message_sender) => {
                store.allowed_message_sender = message_sender;
            },
        }
    }
}

/// Saving an update a second time changes nothing.
pub proof fn lemma_save_is_idempotent(
    update: WithPolkadotMessageBridgeParameter,
    store: ParameterStore,
)
    ensures
        update.spec_save(update.spec_save(store)) == update.spec_save(store),
{
}

/// An update of one parameter leaves the two others as they were.
pub proof fn lemma_save_touches_one_parameter(
    update: WithPolkadotMessageBridgeParameter,
    store: ParameterStore,
)
    ensures
        !(update is PolkadotToKusamaConversionRate)
            ==> update.spec_save(store).polkadot_to_kusama_conversion_rate
            == store.polkadot_to_kusama_conversion_rate,
        !(update is PolkadotFeeMultiplier) ==> update.spec_save(store).polkadot_fee_multiplier
            == store.polkadot_fee_multiplier,
        !(update is AllowedMessageSender) ==> update.spec_save(store).allowed_message_sender
            == store.allowed_message_sender,
{
}

} // verus!

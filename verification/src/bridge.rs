//! The bridge between Kusama and Polkadot: which chains it joins, what its
//! relayers earn, and how Polkadot's tokens are valued in Kusama's.

use crate::chains::Kusama;
use crate::fee::{spec_charged_weight, spec_transaction_cost};
use crate::fixed::{lemma_mul_int_by_one, lemma_mul_int_monotonic_in_rate, FixedU128};
use crate::parameters::ParameterStore;
use crate::primitives::{Balance, ChainId, Weight};
use vstd::prelude::*;

verus! {

/// Kusama <-> Polkadot message bridge.
#[derive(Clone, Copy, Debug, PartialEq, Eq)]
pub struct WithPolkadotMessageBridge;

impl WithPolkadotMessageBridge {
    /// What relayers earn on top of the cost of their transactions, in
    /// percent of that cost.
    pub const RELAYER_FEE_PERCENT: u32 = 10;

    /// Identifier of Kusama, the chain that the bridge is part of: `ksma`.
    pub const THIS_CHAIN_ID: ChainId = [0x6b, 0x73, 0x6d, 0x61];

    /// Identifier of Polkadot, the chain at the other end: `pdot`.
    pub const BRIDGED_CHAIN_ID: ChainId = [0x70, 0x64, 0x6f, 0x74];

    /// Name of the messages pallet at Polkadot that is the other end of
    /// this bridge. It tells the ends of several bridges in one runtime
    /// apart.
    pub const BRIDGED_MESSAGES_PALLET_NAME: &'static str = "BridgeKusamaMessages";

    /// The rate that a conversion goes by: the rate that the caller gives,
    /// and the stored rate where the caller gives none.
    pub open spec fn spec_conversion_rate(
        conversion_rate_override: Option<FixedU128>,
        parameters: ParameterStore,
    ) -> FixedU128 {
        match conversion_rate_override {
            Some(rate) => rate,
            None => parameters.polkadot_to_kusama_conversion_rate,
        }
    }

    /// What an amount of Polkadot's tokens is worth in Kusama's tokens: the
    /// amount times the rate, rounded down, and the largest balance where
    /// the product does not fit.
    pub open spec fn spec_bridged_balance_to_this_balance(
        bridged_balance: Balance,
        conversion_rate_override: Option<FixedU128>,
        parameters: ParameterStore,
    ) -> Balance {
        Self::spec_conversion_rate(conversion_rate_override, parameters).spec_saturating_mul_int(
            bridged_balance,
        )
    }

    /// Converts an amount of Polkadot's tokens into Kusama's tokens, at the
    /// rate that the caller gives or, without one, at the stored rate. The
    /// product is rounded down. A product that does not fit is the largest
    /// balance: the conversion never fails and never wraps.
    pub fn bridged_balance_to_this_balance(
        bridged_balance: Balance,
        polkadot_to_kusama_conversion_rate_override: Option<FixedU128>,
        parameters: &ParameterStore,
    ) -> (this_balance: Balance)
        ensures
            this_balance == Self::spec_bridged_balance_to_this_balance(
                bridged_balance,
                polkadot_to_kusama_conversion_rate_override,
                *parameters,
            ),
    {
        let conversion_rate = match polkadot_to_kusama_conversion_rate_override {
            Some(rate) => rate,
            None => parameters.polkadot_to_kusama_conversion_rate,
        };
        conversion_rate.saturating_mul_int(bridged_balance)
    }
}

/// The cost of delivery confirmation transaction.
#[derive(Clone, Copy, Debug, PartialEq, Eq)]
pub struct GetDeliveryConfirmationTransactionFee;

impl GetDeliveryConfirmationTransactionFee {
    /// What Kusama charges the relayer who confirms the delivery of one
    /// message: the payment for the estimated confirmation transaction.
    pub fn get<F: Fn(Weight) -> Balance>(
        kusama: &Kusama,
        next_fee_multiplier: FixedU128,
        weight_to_fee: F,
    ) -> (fee: Balance)
        requires
            call_requires(
                weight_to_fee,
                (spec_charged_weight(
                    kusama.base_extrinsic_weight,
                    kusama.spec_estimate_delivery_confirmation_transaction(),
                ),),
            ),
        ensures
            exists|weight_fee: Balance|
                call_ensures(
                    weight_to_fee,
                    (spec_charged_weight(
                        kusama.base_extrinsic_weight,
                        kusama.spec_estimate_delivery_confirmation_transaction(),
                    ),),
                    weight_fee,
                ) && fee == spec_transaction_cost(
                    weight_fee,
                    kusama.transaction_byte_fee,
                    Kusama::spec_future_fee_multiplier(next_fee_multiplier),
                    kusama.spec_estimate_delivery_confirmation_transaction().size,
                ),
    {
        kusama.transaction_payment(
            next_fee_multiplier,
            weight_to_fee,
            kusama.estimate_delivery_confirmation_transaction(),
        )
    }
}

/// At a higher rate an amount of Polkadot's tokens is never worth less.
pub proof fn lemma_conversion_is_monotonic_in_rate(
    bridged_balance: Balance,
    low_rate: Option<FixedU128>,
    low_parameters: ParameterStore,
    high_rate: Option<FixedU128>,
    high_parameters: ParameterStore,
)
    requires
        WithPolkadotMessageBridge::spec_conversion_rate(low_rate, low_parameters).inner
            <= WithPolkadotMessageBridge::spec_conversion_rate(high_rate, high_parameters).inner,
    ensures
        WithPolkadotMessageBridge::spec_bridged_balance_to_this_balance(
            bridged_balance,
            low_rate,
            low_parameters,
        ) <= WithPolkadotMessageBridge::spec_bridged_balance_to_this_balance(
            bridged_balance,
            high_rate,
            high_parameters,
        ),
{
    lemma_mul_int_monotonic_in_rate(
        WithPolkadotMessageBridge::spec_conversion_rate(low_rate, low_parameters),
        WithPolkadotMessageBridge::spec_conversion_rate(high_rate, high_parameters),
        bridged_balance,
    );
}

/// At the rate one an amount of Polkadot's tokens is worth the same amount
/// of Kusama's tokens.
pub proof fn lemma_conversion_at_rate_one(
    bridged_balance: Balance,
    conversion_rate_override: Option<FixedU128>,
    parameters: ParameterStore,
)
    requires
        WithPolkadotMessageBridge::spec_conversion_rate(conversion_rate_override, parameters)
            == FixedU128::spec_one(),
    ensures
        WithPolkadotMessageBridge::spec_bridged_balance_to_this_balance(
            bridged_balance,
            conversion_rate_override,
            parameters,
        ) == bridged_balance,
{
    lemma_mul_int_by_one(bridged_balance);
}

/// A conversion gives the exact product of amount and rate, rounded down,
/// wherever that fits a balance, and the largest balance wherever it does
/// not: the result is never the remainder of a wrapped product.
pub proof fn lemma_conversion_never_wraps(
    bridged_balance: Balance,
    conversion_rate_override: Option<FixedU128>,
    parameters: ParameterStore,
)
    ensures
        ({
            let rate = WithPolkadotMessageBridge::spec_conversion_rate(
                conversion_rate_override,
                parameters,
            );
            let exact = rate.inner * bridged_balance / 1_000_000_000_000_000_000;
            let converted = WithPolkadotMessageBridge::spec_bridged_balance_to_this_balance(
                bridged_balance,
                conversion_rate_override,
                parameters,
            );
            &&& 0 <= exact
            &&& exact <= u128::MAX ==> converted == exact
            &&& exact > u128::MAX ==> converted == u128::MAX
        }),
{
    let rate = WithPolkadotMessageBridge::spec_conversion_rate(
        conversion_rate_override,
        parameters,
    );
    assert(0 <= rate.inner * bridged_balance) by (nonlinear_arith);
}

} // verus!

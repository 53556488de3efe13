use kusama_bridge_messages::bridge::{GetDeliveryConfirmationTransactionFee, WithPolkadotMessageBridge};
use kusama_bridge_messages::chains::{
    maximal_incoming_message_dispatch_weight, Kusama, Polkadot, MESSAGE_NONCE_ENCODED_SIZE,
    RELAYER_ENTRY_ENCODED_SIZE,
};
use kusama_bridge_messages::fee::{
    saturating_mul_balance, saturating_mul_weight, transaction_cost, transaction_payment,
};
use kusama_bridge_messages::fixed::{FixedU128, FIXED_U128_DIV};
use kusama_bridge_messages::parameters::{ParameterStore, WithPolkadotMessageBridgeParameter};
use kusama_bridge_messages::primitives::{Balance, MessageTransaction, Weight};
use parity_scale_codec::MaxEncodedLen;
use sp_arithmetic::FixedPointNumber;

const ONE: u128 = 1_000_000_000_000_000_000;

fn fixed(inner: u128) -> FixedU128 {
    FixedU128 { inner }
}

fn kusama() -> Kusama {
    Kusama {
        max_unconfirmed_messages_in_confirmation_tx: 8192,
        max_single_message_delivery_confirmation_tx_weight: 2_000_000_000,
        extra_storage_proof_size: 1024,
        tx_extra_bytes: 256,
        base_extrinsic_weight: 125_000_000,
        transaction_byte_fee: 10,
    }
}

fn polkadot() -> Polkadot {
    Polkadot {
        max_extrinsic_size: 3_932_160,
        max_extrinsic_weight: 1_000_000_000_000,
        default_message_delivery_tx_weight: 1_500_000_000,
        additional_message_byte_delivery_weight: 25_000,
        pay_inbound_dispatch_fee_weight: 600_000_000,
        expected_default_message_length: 128,
        extra_storage_proof_size: 1024,
        tx_extra_bytes: 256,
        base_extrinsic_weight: 125_000_000,
        transaction_byte_fee: 20,
    }
}

fn per_unit(weight: Weight) -> Balance {
    weight as Balance / 1_000
}

#[test]
fn fixed_point_unit_is_ten_to_the_eighteenth() {
    assert_eq!(FIXED_U128_DIV, ONE);
}

#[test]
fn mul_int_rounds_down() {
    assert_eq!(fixed(2 * ONE).saturating_mul_int(21), 42);
    assert_eq!(fixed(ONE + ONE / 2).saturating_mul_int(3), 4);
    assert_eq!(fixed(ONE / 2).saturating_mul_int(1), 0);
    assert_eq!(fixed(3).saturating_mul_int(333_333_333_333_333_333), 0);
    assert_eq!(fixed(3).saturating_mul_int(333_333_333_333_333_334), 1);
    assert_eq!(fixed(0).saturating_mul_int(u128::MAX), 0);
    assert_eq!(fixed(ONE).saturating_mul_int(0), 0);
}

#[test]
fn mul_int_saturates() {
    assert_eq!(fixed(u128::MAX).saturating_mul_int(ONE), u128::MAX);
    assert_eq!(fixed(u128::MAX).saturating_mul_int(ONE - 1), u128::MAX - u128::MAX / ONE - 1);
    assert_eq!(fixed(u128::MAX).saturating_mul_int(ONE + 1), u128::MAX);
    assert_eq!(fixed(u128::MAX).saturating_mul_int(u128::MAX), u128::MAX);
    assert_eq!(fixed(2 * ONE).saturating_mul_int(u128::MAX / 2), u128::MAX - 1);
    assert_eq!(fixed(2 * ONE).saturating_mul_int(u128::MAX / 2 + 1), u128::MAX);
}

#[test]
fn fixed_mul_rounds_down_and_saturates() {
    assert_eq!(fixed(2 * ONE).saturating_mul(fixed(3 * ONE)), fixed(6 * ONE));
    assert_eq!(fixed(ONE / 2).saturating_mul(fixed(ONE / 2)), fixed(ONE / 4));
    assert_eq!(fixed(1).saturating_mul(fixed(ONE - 1)), fixed(0));
    assert_eq!(fixed(1).saturating_mul(fixed(ONE)), fixed(1));
    assert_eq!(fixed(u128::MAX).saturating_mul(fixed(2 * ONE)), fixed(u128::MAX));
}

#[test]
fn from_rational_rounds_down_and_saturates() {
    assert_eq!(FixedU128::saturating_from_rational(110, 100), fixed(1_100_000_000_000_000_000));
    assert_eq!(FixedU128::saturating_from_rational(1, 3), fixed(333_333_333_333_333_333));
    assert_eq!(FixedU128::saturating_from_rational(2, 3), fixed(666_666_666_666_666_666));
    assert_eq!(FixedU128::saturating_from_rational(0, 7), fixed(0));
    assert_eq!(FixedU128::saturating_from_rational(u128::MAX, 1), fixed(u128::MAX));
}

#[test]
fn conversion_at_rate_one_changes_nothing() {
    let store = ParameterStore::new();
    for amount in [0u128, 1, 100, 10_000_000_000, u128::MAX] {
        assert_eq!(
            WithPolkadotMessageBridge::bridged_balance_to_this_balance(amount, None, &store),
            amount
        );
        assert_eq!(
            WithPolkadotMessageBridge::bridged_balance_to_this_balance(
                amount,
                Some(fixed(ONE)),
                &store
            ),
            amount
        );
    }
}

#[test]
fn conversion_uses_override_or_stored_rate() {
    let mut store = ParameterStore::new();
    WithPolkadotMessageBridgeParameter::PolkadotToKusamaConversionRate(fixed(ONE / 2))
        .save(&mut store);
    assert_eq!(WithPolkadotMessageBridge::bridged_balance_to_this_balance(100, None, &store), 50);
    assert_eq!(
        WithPolkadotMessageBridge::bridged_balance_to_this_balance(100, Some(fixed(3 * ONE)), &store),
        300
    );
    assert_eq!(WithPolkadotMessageBridge::bridged_balance_to_this_balance(101, None, &store), 50);
}

#[test]
fn conversion_is_monotonic_in_rate() {
    let store = ParameterStore::new();
    let rates = [0, 1, ONE / 3, ONE - 1, ONE, ONE + 1, 7 * ONE, u128::MAX / 2, u128::MAX];
    for amount in [0u128, 1, 999, 123_456_789_012_345_678_901, u128::MAX] {
        let mut last = 0u128;
        for rate in rates {
            let converted = WithPolkadotMessageBridge::bridged_balance_to_this_balance(
                amount,
                Some(fixed(rate)),
                &store,
            );
            assert!(converted >= last);
            last = converted;
        }
    }
}

#[test]
fn conversion_saturates_at_largest_rate() {
    let mut store = ParameterStore::new();
    WithPolkadotMessageBridgeParameter::PolkadotToKusamaConversionRate(fixed(u128::MAX))
        .save(&mut store);
    assert_eq!(
        WithPolkadotMessageBridge::bridged_balance_to_this_balance(u128::MAX / 100, None, &store),
        u128::MAX
    );
    assert_eq!(
        WithPolkadotMessageBridge::bridged_balance_to_this_balance(u128::MAX, None, &store),
        u128::MAX
    );
    assert_eq!(WithPolkadotMessageBridge::bridged_balance_to_this_balance(0, None, &store), 0);
}

#[test]
fn conversion_with_rate_zero_gives_nothing() {
    let mut store = ParameterStore::new();
    WithPolkadotMessageBridgeParameter::PolkadotToKusamaConversionRate(fixed(0)).save(&mut store);
    assert_eq!(
        WithPolkadotMessageBridge::bridged_balance_to_this_balance(u128::MAX, None, &store),
        0
    );
}

#[test]
fn bridge_is_described() {
    assert_eq!(WithPolkadotMessageBridge::RELAYER_FEE_PERCENT, 10);
    assert_eq!(&WithPolkadotMessageBridge::THIS_CHAIN_ID, b"ksma");
    assert_eq!(&WithPolkadotMessageBridge::BRIDGED_CHAIN_ID, b"pdot");
    assert_eq!(WithPolkadotMessageBridge::BRIDGED_MESSAGES_PALLET_NAME, "BridgeKusamaMessages");
}

#[test]
fn saturating_products() {
    assert_eq!(saturating_mul_balance(6, 7), 42);
    assert_eq!(saturating_mul_balance(u128::MAX, 2), u128::MAX);
    assert_eq!(saturating_mul_balance(u128::MAX, 0), 0);
    assert_eq!(saturating_mul_weight(6, 7), 42);
    assert_eq!(saturating_mul_weight(u64::MAX, 2), u64::MAX);
    assert_eq!(saturating_mul_weight(1 << 32, 1 << 32), u64::MAX);
    assert_eq!(saturating_mul_weight((1 << 32) - 1, 1 << 32), ((1u64 << 32) - 1) << 32);
}

#[test]
fn transaction_cost_is_scaled_sum_of_weight_and_length_fee() {
    assert_eq!(transaction_cost(1000, 10, fixed(ONE), 50), 1500);
    assert_eq!(transaction_cost(1000, 10, fixed(2 * ONE), 50), 3000);
    assert_eq!(transaction_cost(1000, 10, fixed(1_100_000_000_000_000_000), 50), 1650);
    assert_eq!(transaction_cost(1001, 10, fixed(ONE / 2), 50), 750);
    assert_eq!(transaction_cost(0, 0, fixed(ONE), 0), 0);
    assert_eq!(transaction_cost(1000, 10, fixed(0), 50), 0);
}

#[test]
fn transaction_cost_saturates() {
    assert_eq!(transaction_cost(u128::MAX, 1, fixed(ONE), 1), u128::MAX);
    assert_eq!(transaction_cost(5, u128::MAX, fixed(ONE), 2), u128::MAX);
    assert_eq!(transaction_cost(u128::MAX, u128::MAX, fixed(ONE / 2), u32::MAX), u128::MAX / 2);
    assert_eq!(transaction_cost(u128::MAX / 2, 0, fixed(3 * ONE), 0), u128::MAX);
}

#[test]
fn transaction_payment_charges_base_and_dispatch_weight_together() {
    let transaction = MessageTransaction { dispatch_weight: 900, size: 50 };
    let fee = transaction_payment(100, 10, fixed(2 * ONE), |weight: Weight| weight as Balance * 3, transaction);
    assert_eq!(fee, 7000);
    let heavy = MessageTransaction { dispatch_weight: u64::MAX, size: 0 };
    let fee = transaction_payment(100, 10, fixed(ONE), |weight: Weight| weight as Balance, heavy);
    assert_eq!(fee, u64::MAX as Balance);
}

#[test]
fn confirmation_transaction_is_estimated() {
    let transaction = kusama().estimate_delivery_confirmation_transaction();
    assert_eq!(transaction.dispatch_weight, 2_000_000_000);
    assert_eq!(transaction.size, 56 + 1024 + 256);
    let mut large = kusama();
    large.extra_storage_proof_size = u32::MAX - 10;
    assert_eq!(large.estimate_delivery_confirmation_transaction().size, u32::MAX);
    assert_eq!(kusama().maximal_pending_messages_at_outbound_lane(), 8192);
}

#[test]
fn kusama_payment_raises_multiplier_by_a_tenth() {
    let transaction = MessageTransaction { dispatch_weight: 875_000_000, size: 100 };
    let fee = kusama().transaction_payment(fixed(ONE), per_unit, transaction);
    assert_eq!(fee, (1_000_000 + 1_000) * 11 / 10);
    let fee = kusama().transaction_payment(fixed(2 * ONE), per_unit, transaction);
    assert_eq!(fee, (1_000_000 + 1_000) * 22 / 10);
    let fee = kusama().transaction_payment(fixed(0), per_unit, transaction);
    assert_eq!(fee, 0);
}

#[test]
fn delivery_confirmation_fee_is_payment_for_estimated_transaction() {
    let fee = GetDeliveryConfirmationTransactionFee::get(&kusama(), fixed(ONE), per_unit);
    let transaction = kusama().estimate_delivery_confirmation_transaction();
    assert_eq!(fee, kusama().transaction_payment(fixed(ONE), per_unit, transaction));
    assert_eq!(fee, (2_125_000 + 13_360) * 11 / 10);
}

#[test]
fn polkadot_payment_uses_stored_multiplier() {
    let transaction = MessageTransaction { dispatch_weight: 875_000_000, size: 100 };
    let mut store = ParameterStore::new();
    assert_eq!(polkadot().transaction_payment(&store, per_unit, transaction), 1_002_000);
    WithPolkadotMessageBridgeParameter::PolkadotFeeMultiplier(fixed(3 * ONE)).save(&mut store);
    assert_eq!(polkadot().transaction_payment(&store, per_unit, transaction), 3_006_000);
}

#[test]
fn delivery_transaction_of_default_length() {
    let payload = vec![0u8; 128];
    let transaction = polkadot().estimate_delivery_transaction(&payload, true, 1_000);
    assert_eq!(transaction.dispatch_weight, 1_500_001_000);
    assert_eq!(transaction.size, 128 + 1024 + 256);
    let transaction = polkadot().estimate_delivery_transaction(&payload, false, 1_000);
    assert_eq!(transaction.dispatch_weight, 900_001_000);
    let short = polkadot().estimate_delivery_transaction(&[], true, 0);
    assert_eq!(short.dispatch_weight, 1_500_000_000);
    assert_eq!(short.size, 1024 + 256);
}

#[test]
fn delivery_weight_grows_by_byte_over_default_length() {
    let mut last = polkadot().estimate_delivery_transaction(&vec![0u8; 128], true, 0);
    for len in 129usize..200 {
        let next = polkadot().estimate_delivery_transaction(&vec![0u8; len], true, 0);
        assert_eq!(next.dispatch_weight - last.dispatch_weight, 25_000);
        assert_eq!(next.size - last.size, 1);
        let store = ParameterStore::new();
        assert!(
            polkadot().transaction_payment(&store, per_unit, next)
                >= polkadot().transaction_payment(&store, per_unit, last)
        );
        last = next;
    }
    let long = polkadot().estimate_delivery_transaction(&vec![0u8; 228], true, 0);
    assert_eq!(long.dispatch_weight, 1_502_500_000);
}

#[test]
fn delivery_weight_saturates() {
    let mut chain = polkadot();
    chain.additional_message_byte_delivery_weight = u64::MAX;
    let transaction = chain.estimate_delivery_transaction(&vec![0u8; 130], false, 5);
    assert_eq!(transaction.dispatch_weight, u64::MAX - 600_000_000 + 5);
    let transaction = chain.estimate_delivery_transaction(&vec![0u8; 130], true, 5);
    assert_eq!(transaction.dispatch_weight, u64::MAX);
    let mut cheap = polkadot();
    cheap.default_message_delivery_tx_weight = 10;
    let transaction = cheap.estimate_delivery_transaction(&[], false, 7);
    assert_eq!(transaction.dispatch_weight, 7);
}

#[test]
fn message_weight_limits_are_half_of_largest_transaction() {
    let limits = polkadot().message_weight_limits(&[1, 2, 3]);
    assert_eq!(*limits.start(), 0);
    assert_eq!(*limits.end(), 500_000_000_000);
    assert!(limits.contains(&500_000_000_000));
    assert!(!limits.contains(&500_000_000_001));
    assert_eq!(maximal_incoming_message_dispatch_weight(7), 3);
    assert_eq!(polkadot().maximal_extrinsic_size(), 3_932_160);
}

#[test]
fn fixed_point_unit_is_that_of_the_arithmetic_crate() {
    assert_eq!(FIXED_U128_DIV, sp_arithmetic::FixedU128::DIV);
    assert_eq!(FIXED_U128_DIV, sp_arithmetic::FixedU128::accuracy());
    let half = sp_arithmetic::FixedU128::from_rational(1, 2);
    assert_eq!(half.into_inner(), FIXED_U128_DIV / 2);
    for (inner, n) in [(3u128, 7u128), (FIXED_U128_DIV / 3, 10), (u128::MAX, 2), (5 * FIXED_U128_DIV, 9)] {
        assert_eq!(
            fixed(inner).saturating_mul_int(n),
            sp_arithmetic::FixedU128::from_inner(inner).saturating_mul_int(n),
        );
    }
}

#[test]
fn encoded_sizes_are_those_of_the_messages_pallet() {
    assert_eq!(
        RELAYER_ENTRY_ENCODED_SIZE as usize,
        bp_messages::UnrewardedRelayer::<sp_runtime::AccountId32>::max_encoded_len(),
    );
    assert_eq!(
        MESSAGE_NONCE_ENCODED_SIZE as usize,
        bp_messages::MessageNonce::max_encoded_len(),
    );
    let mut chain = kusama();
    chain.extra_storage_proof_size = 0;
    chain.tx_extra_bytes = 0;
    assert_eq!(
        chain.estimate_delivery_confirmation_transaction().size,
        bp_messages::InboundLaneData::<sp_runtime::AccountId32>::encoded_size_hint_u32(1),
    );
}

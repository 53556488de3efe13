//! What a transaction costs at a chain that charges by weight and by size.
//!
//! The chain turns the weight of a transaction, the base weight of every
//! transaction included, into a fee, and adds a fee for every byte. The sum
//! is scaled by the chain's fee multiplier. No step wraps: a sum or a
//! product that does not fit is the largest balance.

use crate::fixed::{lemma_mul_int_monotonic_in_amount, FixedU128};
use crate::primitives::{saturate_balance, saturate_weight, Balance, MessageTransaction, Weight};
use vstd::arithmetic::mul::lemma_mul_inequality;
use vstd::prelude::*;

verus! {

/// The weight that the chain charges for: the base weight of every
/// transaction and the weight of this one.
pub open spec fn spec_charged_weight(
    base_extrinsic_weight: Weight,
    transaction: MessageTransaction,
) -> Weight {
    saturate_weight(base_extrinsic_weight + transaction.dispatch_weight)
}

/// The fee of a transaction of `size` bytes whose weight costs `weight_fee`.
pub open spec fn spec_transaction_cost(
    weight_fee: Balance,
    per_byte_fee: Balance,
    multiplier: FixedU128,
    size: u32,
) -> Balance {
    multiplier.spec_saturating_mul_int(
        saturate_balance(weight_fee + saturate_balance(per_byte_fee * size)),
    )
}

/// The product of two balances, or the largest balance where the product
/// does not fit.
pub fn saturating_mul_balance(a: Balance, b: Balance) -> (product: Balance)
    ensures
        product == saturate_balance(a * b),
{
    match a.checked_mul(b) {
        Some(product) => product,
        None => u128::MAX,
    }
}

/// The product of two weights, or the largest weight where the product does
/// not fit.
pub fn saturating_mul_weight(a: Weight, b: Weight) -> (product: Weight)
    ensures
        product == saturate_weight(a * b),
{
    match a.checked_mul(b) {
        Some(product) => product,
        None => u64::MAX,
    }
}

/// The fee of a transaction of `size` bytes, given the fee `weight_fee` that
/// the chain asks for the transaction's weight: the sum of `weight_fee` and
/// of `per_byte_fee` for every byte, scaled by `multiplier`.
pub fn transaction_cost(
    weight_fee: Balance,
    per_byte_fee: Balance,
    multiplier: FixedU128,
    size: u32,
) -> (fee: Balance)
    ensures
        fee == spec_transaction_cost(weight_fee, per_byte_fee, multiplier, size),
{
    let len_fee = saturating_mul_balance(per_byte_fee, size as u128);
    multiplier.saturating_mul_int(weight_fee.saturating_add(len_fee))
}

/// The fee of `transaction` at a chain with the given base weight, fee per
/// byte and fee multiplier. `weight_to_fee` is the chain's price list: it
/// is asked once, for the base weight and the transaction's weight together.
pub fn transaction_payment<F: Fn(Weight) -> Balance>(
    base_extrinsic_weight: Weight,
    per_byte_fee: Balance,
    multiplier: FixedU128,
    weight_to_fee: F,
    transaction: MessageTransaction,
) -> (fee: Balance)
    requires
        call_requires(weight_to_fee, (spec_charged_weight(base_extrinsic_weight, transaction),)),
    ensures
        exists|weight_fee: Balance|
            call_ensures(
                weight_to_fee,
                (spec_charged_weight(base_extrinsic_weight, transaction),),
                weight_fee,
            ) && fee == spec_transaction_cost(
                weight_fee,
                per_byte_fee,
                multiplier,
                transaction.size,
            ),
{
    let weight = base_extrinsic_weight.saturating_add(transaction.dispatch_weight);
    let weight_fee = weight_to_fee(weight);
    transaction_cost(weight_fee, per_byte_fee, multiplier, transaction.size)
}

/// A transaction that weighs more or is larger never costs less.
pub proof fn lemma_transaction_cost_is_monotonic(
    low_weight_fee: Balance,
    high_weight_fee: Balance,
    per_byte_fee: Balance,
    multiplier: FixedU128,
    low_size: u32,
    high_size: u32,
)
    requires
        low_weight_fee <= high_weight_fee,
        low_size <= high_size,
    ensures
        spec_transaction_cost(low_weight_fee, per_byte_fee, multiplier, low_size)
            <= spec_transaction_cost(high_weight_fee, per_byte_fee, multiplier, high_size),
{
    lemma_mul_inequality(low_size as int, high_size as int, per_byte_fee as int);
    assert(per_byte_fee * low_size <= per_byte_fee * high_size) by (nonlinear_arith)
        requires
            low_size * per_byte_fee <= high_size * per_byte_fee,
    ;
    lemma_mul_int_monotonic_in_amount(
        multiplier,
        saturate_balance(low_weight_fee + saturate_balance(per_byte_fee * low_size)),
        saturate_balance(high_weight_fee + saturate_balance(per_byte_fee * high_size)),
    );
}

} // verus!

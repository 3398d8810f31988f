//! How the weight and the length of a transaction become a fee.

use vstd::prelude::*;
use crate::constants::{fee_of, get_fee};
use crate::council::TransactionFeeInfo;
use crate::primitives::Balance;

verus! {

/// `value` if it fits in 32 bits, else the largest 32-bit number.
pub open spec fn saturated_u32(value: u64) -> u32 {
    if value > u32::MAX {
        u32::MAX
    } else {
        value as u32
    }
}

/// `SaturatedConversion::saturated_into` of `sp_arithmetic`, from 64 to 32
/// bits: a value that does not fit becomes the largest 32-bit number.
#[verifier::external_body]
fn saturated_into_u32(value: u64) -> (res: u32)
    ensures
        res == saturated_u32(value),
{
    sp_arithmetic::traits::SaturatedConversion::saturated_into(value)
}

/// The fee for `ref_time` units of weight under the parameters `info`:
/// the weight times the multiplier, at most the largest 64-bit number,
/// divided by the divider and rounded down, and no less than the minimum
/// fee.
pub open spec fn normalized_weight_fee(ref_time: u64, info: TransactionFeeInfo) -> nat {
    let product = ref_time as nat * info.weight_to_fee_multiplier as nat;
    let scaled = if product > u64::MAX {
        u64::MAX as nat
    } else {
        product
    };
    let normalized = scaled / (info.weight_to_fee_divider as nat);
    if normalized < info.minimum_transaction_fee {
        info.minimum_transaction_fee as nat
    } else {
        normalized
    }
}

/// Turns weight into a fee by the parameters that the council has set.
pub struct NormalizedWeightToFee;

impl NormalizedWeightToFee {
    /// The fee for `ref_time` units of weight under the parameters `info`.
    /// The divider must not be zero.
    pub fn weight_to_fee(ref_time: u64, info: &TransactionFeeInfo) -> (fee: Balance)
        requires
            info.weight_to_fee_divider != 0,
        ensures
            fee == normalized_weight_fee(ref_time, *info),
    {
        let scaled: u64 = match ref_time.checked_mul(info.weight_to_fee_multiplier) {
            Some(product) => product,
            None => u64::MAX,
        };
        let mut normalized_ref_time: Balance = (scaled / info.weight_to_fee_divider) as Balance;
        if normalized_ref_time < info.minimum_transaction_fee {
            normalized_ref_time = info.minimum_transaction_fee;
        }
        normalized_ref_time
    }

    /// The fee for `ref_time` units of weight under the parameters `info`,
    /// or `None` when the divider is zero and no fee is defined.
    pub fn checked_weight_to_fee(ref_time: u64, info: &TransactionFeeInfo) -> (fee: Option<Balance>)
        ensures
            fee == (if info.weight_to_fee_divider == 0 {
                None
            } else {
                Some(normalized_weight_fee(ref_time, *info) as Balance)
            }),
    {
        if info.weight_to_fee_divider == 0 {
            None
        } else {
            Some(Self::weight_to_fee(ref_time, info))
        }
    }
}

/// Turns the length of a transaction into a fee.
pub struct NormalizedLengthToFee;

impl NormalizedLengthToFee {
    /// The fee for a transaction of `ref_time` bytes: that of one item
    /// with as many bytes, of which no more than the largest 32-bit number
    /// are counted.
    pub fn weight_to_fee(ref_time: u64) -> (fee: Balance)
        ensures
            fee == fee_of(1, saturated_u32(ref_time) as nat),
    {
        let saturated_weight: u32 = saturated_into_u32(ref_time);
        get_fee(1, saturated_weight)
    }
}

} // verus!

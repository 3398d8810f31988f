//! Dividing a fee among its recipients.
//!
//! A fee is first split by a percentage into a share and a remainder that
//! add up to the fee; some shares are then halved between two recipients.

use vstd::prelude::*;
use crate::primitives::Balance;

verus! {

/// A percentage. Values above one hundred count as one hundred.
pub type Percent = u8;

/// The effective value of a percentage: at most one hundred.
pub open spec fn capped(percent: Percent) -> nat {
    if percent > 100 {
        100
    } else {
        percent as nat
    }
}

/// `percent` per cent of `amount`, rounded down.
pub open spec fn percent_of(percent: Percent, amount: Balance) -> nat {
    (amount as nat * capped(percent)) / 100
}

/// A percentage of an amount never exceeds the amount.
pub proof fn lemma_percent_of_is_bounded(percent: Percent, amount: Balance)
    ensures
        percent_of(percent, amount) <= amount,
{
    let a = amount as nat;
    let c = capped(percent);
    assert(a * c <= a * 100) by (nonlinear_arith)
        requires
            c <= 100,
    ;
    assert((a * c) / 100 <= a) by (nonlinear_arith)
        requires
            a * c <= a * 100,
    ;
}

/// Splitting by a percentage loses nothing: the share and what is left of
/// the amount add up to the amount, whatever the rounding.
pub proof fn lemma_split_is_additive(percent: Percent, amount: Balance)
    ensures
        percent_of(percent, amount) <= amount,
        percent_of(percent, amount) + (amount - percent_of(percent, amount)) == amount,
{
    lemma_percent_of_is_bounded(percent, amount);
}

/// Two halves never exceed the whole, and fall short of it by at most one
/// unit.
pub proof fn lemma_halves_are_bounded(amount: Balance)
    ensures
        2 * (amount / 2) <= amount,
        amount - 2 * (amount / 2) <= 1,
{
}

/// `Percent::from_percent(percent).mul_floor(amount)` of `sp_arithmetic`:
/// the percentage, capped at one hundred, of `amount`, rounded down. The
/// outside code computes it without overflow for every amount.
#[verifier::external_body]
fn percent_mul_floor(percent: Percent, amount: Balance) -> (part: Balance)
    ensures
        part == percent_of(percent, amount),
{
    sp_arithmetic::Percent::from_percent(percent).mul_floor(amount)
}

/// Splits `total` into `percent` per cent of it, rounded down, and the
/// remainder.
pub fn split_by_percent(percent: Percent, total: Balance) -> (parts: (Balance, Balance))
    ensures
        parts.0 == percent_of(percent, total),
        parts.0 + parts.1 == total,
{
    let share: Balance = percent_mul_floor(percent, total);
    proof {
        lemma_percent_of_is_bounded(percent, total);
    }
    (share, total - share)
}

/// Half of `amount`, rounded down.
pub fn half_of(amount: Balance) -> (half: Balance)
    ensures
        half == amount / 2,
{
    amount / 2
}

} // verus!

//! Bounded, ordered sets of accounts.
//!
//! The sets are `bounded_collections::BoundedBTreeSet`s. This module names
//! what such a set holds and states, in terms of that name, what the
//! operations of the outside crate do.

use vstd::prelude::*;
use bounded_collections::{BoundedBTreeSet, ConstU32};
use crate::primitives::AccountId;

verus! {

/// The most accounts an [`AccountSet`] can hold.
pub const ACCOUNT_SET_BOUND: u32 = 16;

/// `bounded_collections::BoundedBTreeSet`, taken as an opaque type.
#[verifier::external_type_specification]
#[verifier::external_body]
#[verifier::reject_recursive_types(T)]
#[verifier::reject_recursive_types(S)]
pub struct ExBoundedBTreeSet<T, S>(BoundedBTreeSet<T, S>);

/// `bounded_collections::ConstU32`, the type that states a bound, taken as
/// an opaque type.
#[verifier::external_type_specification]
#[verifier::external_body]
pub struct ExConstU32<const T: u32>(ConstU32<T>);

/// A set of at most [`ACCOUNT_SET_BOUND`] accounts.
pub type AccountSet = BoundedBTreeSet<AccountId, ConstU32<16>>;

/// The accounts that a set holds.
pub uninterp spec fn accounts_in(set: BoundedBTreeSet<u64, ConstU32<16>>) -> Set<u64>;

/// `BoundedBTreeSet::new`: a new set holds nothing.
#[verifier::external_body]
pub(crate) fn account_set_new() -> (set: AccountSet)
    ensures
        accounts_in(set) == Set::<AccountId>::empty(),
{
    BoundedBTreeSet::new()
}

/// `BTreeSet::len`, reached through the bounded set's `Deref`: the number
/// of accounts in the set.
#[verifier::external_body]
pub(crate) fn account_set_len(set: &AccountSet) -> (count: usize)
    ensures
        count == accounts_in(*set).len(),
{
    set.len()
}

/// `BTreeSet::contains`, reached through the bounded set's `Deref`:
/// whether `who` is in the set.
#[verifier::external_body]
pub(crate) fn account_set_contains(set: &AccountSet, who: AccountId) -> (found: bool)
    ensures
        found == accounts_in(*set).contains(who),
{
    set.contains(&who)
}

/// `BoundedBTreeSet::try_insert`: when the set holds fewer accounts than
/// its bound, or holds `who` already, `who` is inserted and the result
/// says whether it was new; otherwise the set stays as it was and `who`
/// comes back as the error.
#[verifier::external_body]
pub(crate) fn account_set_try_insert(set: &mut AccountSet, who: AccountId) -> (res: Result<
    bool,
    AccountId,
>)
    ensures
        match res {
            Ok(fresh) => {
                &&& accounts_in(*old(set)).len() < ACCOUNT_SET_BOUND || accounts_in(
                    *old(set),
                ).contains(who)
                &&& accounts_in(*final(set)) == accounts_in(*old(set)).insert(who)
                &&& fresh == !accounts_in(*old(set)).contains(who)
            },
            Err(back) => {
                &&& accounts_in(*old(set)).len() >= ACCOUNT_SET_BOUND
                &&& !accounts_in(*old(set)).contains(who)
                &&& accounts_in(*final(set)) == accounts_in(*old(set))
                &&& back == who
            },
        },
{
    set.try_insert(who)
}

/// `BoundedBTreeSet::remove`: `who` leaves the set, and the result says
/// whether it was in it.
#[verifier::external_body]
pub(crate) fn account_set_remove(set: &mut AccountSet, who: AccountId) -> (found: bool)
    ensures
        accounts_in(*final(set)) == accounts_in(*old(set)).remove(who),
        found == accounts_in(*old(set)).contains(who),
{
    set.remove(&who)
}

} // verus!

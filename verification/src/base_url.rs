//! The bounded byte string that holds a servicer's base URL.
//!
//! The string is a `bounded_collections::BoundedVec`. This module names
//! the bytes such a string holds and states, in terms of that name, what
//! the conversion from a plain vector does.

use vstd::prelude::*;
use bounded_collections::{BoundedVec, ConstU32};

verus! {

/// The most bytes a [`BaseUrl`] can hold.
pub const BASE_URL_BOUND: u32 = 256;

/// `bounded_collections::BoundedVec`, taken as an opaque type.
#[verifier::external_type_specification]
#[verifier::external_body]
#[verifier::reject_recursive_types(T)]
#[verifier::reject_recursive_types(S)]
pub struct ExBoundedVec<T, S>(BoundedVec<T, S>);

/// A byte string of at most [`BASE_URL_BOUND`] bytes.
pub type BaseUrl = BoundedVec<u8, ConstU32<256>>;

/// The bytes that a base URL holds.
pub uninterp spec fn url_bytes(url: BoundedVec<u8, ConstU32<256>>) -> Seq<u8>;

/// `Clone::clone` of `BoundedVec`: a copy of the bounded string. Nothing is
/// stated of the copy, so verified code learns nothing from it; the
/// declaration serves the `Clone` that records holding such a string
/// derive.
pub assume_specification<T, S>[ <BoundedVec<T, S> as Clone>::clone ](
    this: &BoundedVec<T, S>,
) -> (other: BoundedVec<T, S>)
    where T: Clone
;

/// `BoundedVec::try_from` for a vector: a vector within the bound becomes
/// a bounded string of the same bytes; a longer one comes back as the
/// error.
#[verifier::external_body]
pub(crate) fn base_url_try_from(bytes: Vec<u8>) -> (res: Result<BaseUrl, Vec<u8>>)
    ensures
        match res {
            Ok(url) => bytes@.len() <= BASE_URL_BOUND && url_bytes(url) == bytes@,
            Err(back) => bytes@.len() > BASE_URL_BOUND && back@ == bytes@,
        },
{
    BoundedVec::try_from(bytes)
}

} // verus!

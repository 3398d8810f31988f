//! The chain's units of currency and time, and the fee formula for stored
//! items and bytes.

use vstd::prelude::*;
use crate::primitives::{Balance, BlockNumber};

verus! {

/// Number of decimal digits of one token.
pub const TOKEN_DIGIT: u32 = 9;

/// One token in base units.
pub const TOKEN: Balance = 1_000_000_000;

pub const TOKEN_CENTS: Balance = TOKEN / 100;

pub const TOKEN_MILLIS: Balance = TOKEN / 1_000;

pub const TOKEN_MILLICENTS: Balance = TOKEN_CENTS / 1_000;

pub const TOKEN_MICROS: Balance = TOKEN_MILLIS / 1_000;

pub const TOKEN_NANOS: Balance = TOKEN_MICROS / 1_000;

/// What one byte of chain state costs.
pub const TOKEN_PER_BYTE: Balance = 14 * TOKEN_NANOS;

/// What one item of chain state costs.
pub const TOKEN_PER_ITEM: Balance = TOKEN_MICROS;

/// The smallest balance an account may keep.
pub const EXISTENTIAL_DEPOSIT: Balance = TOKEN_MICROS;

/// Seconds between blocks.
pub const BLOCKTIME: u64 = 3;

pub const BLOCKTIME_MS: u64 = BLOCKTIME * 1_000;

pub const MILLISECS_PER_BLOCK: u64 = BLOCKTIME_MS;

/// Blocks per minute.
pub const MINUTES: BlockNumber = 20;

pub const HOURS: BlockNumber = MINUTES * 60;

pub const DAYS: BlockNumber = HOURS * 24;

/// The most authorities, and council members, the chain can have.
pub const MAX_AUTHORITIES: u32 = 16;

/// The divisor that turns a reference time into a gas fee.
pub const REF_TIME_GAS_FEE_DIVIDER: u64 = 16 * 1024;

/// The fee for items and bytes as a mathematical function: every item
/// costs [`TOKEN_PER_ITEM`] and every byte [`TOKEN_PER_BYTE`].
pub open spec fn fee_of(items_count: nat, bytes_length: nat) -> nat {
    items_count * (TOKEN_PER_ITEM as nat) + bytes_length * (TOKEN_PER_BYTE as nat)
}

/// The fee for storing `items_count` items that take `bytes_length` bytes.
pub fn get_fee(items_count: u32, bytes_length: u32) -> (fee: Balance)
    ensures
        fee == fee_of(items_count as nat, bytes_length as nat),
{
    let items: Balance = items_count as Balance;
    let bytes: Balance = bytes_length as Balance;
    let item_cost: Balance = items * TOKEN_PER_ITEM;
    let byte_cost: Balance = bytes * TOKEN_PER_BYTE;
    item_cost + byte_cost
}

} // verus!

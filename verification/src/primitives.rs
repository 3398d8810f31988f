//! Identifiers, call origins and the error type shared by every module.

use vstd::prelude::*;

verus! {

/// Identifies an account. Files and devices are addressed by account-like
/// handles of the same type.
pub type AccountId = u64;

/// An amount of the chain's currency, in base units.
pub type Balance = u128;

/// A block height.
pub type BlockNumber = u32;

/// A 256-bit value (a content hash or a public key) as two 128-bit halves,
/// most significant half first.
pub type Key256 = (u128, u128);

/// Who is making a call.
#[derive(Clone, Copy, Debug, PartialEq, Eq)]
pub enum Origin {
    /// The chain's root authority.
    Root,
    /// An account that signed the call.
    Signed(AccountId),
    /// Nobody: an unsigned call.
    Unsigned,
}

/// Why a ledger operation was refused.
#[derive(Clone, Copy, Debug, PartialEq, Eq)]
pub enum LedgerError {
    /// The account does not hold the requested amount.
    FundsUnavailable,
    /// The account's balance would exceed what a `Balance` can hold.
    Overflow,
}

/// Why a command failed. A failed command leaves every piece of state as it
/// found it.
#[derive(Clone, Copy, Debug, PartialEq, Eq)]
pub enum DispatchError {
    /// The origin is not of the kind the command accepts.
    BadOrigin,
    /// The ledger refused a movement of funds.
    Ledger(LedgerError),
    /// An error of the council.
    Council(crate::council::Error),
    /// An error of the attester registry.
    Registry(crate::registry_servicers::Error),
    /// An error of the file marketplace.
    Files(crate::pda_files::Error),
    /// An error of the peer registry.
    Servicers(crate::servicer_registry::Error),
}

/// Accepts only the root origin.
pub fn ensure_root(origin: Origin) -> (res: Result<(), DispatchError>)
    ensures
        res == (if origin is Root {
            Ok::<(), DispatchError>(())
        } else {
            Err(DispatchError::BadOrigin)
        }),
{
    match origin {
        Origin::Root => Ok(()),
        _ => Err(DispatchError::BadOrigin),
    }
}

/// Accepts only a signed origin and returns the signer.
pub fn ensure_signed(origin: Origin) -> (res: Result<AccountId, DispatchError>)
    ensures
        res == (match origin {
            Origin::Signed(who) => Ok::<AccountId, DispatchError>(who),
            _ => Err(DispatchError::BadOrigin),
        }),
{
    match origin {
        Origin::Signed(who) => Ok(who),
        _ => Err(DispatchError::BadOrigin),
    }
}

/// Accepts the root origin, returning `None`, or a signed origin, returning
/// the signer.
pub fn ensure_signed_or_root(origin: Origin) -> (res: Result<Option<AccountId>, DispatchError>)
    ensures
        res == (match origin {
            Origin::Root => Ok::<Option<AccountId>, DispatchError>(None),
            Origin::Signed(who) => Ok(Some(who)),
            Origin::Unsigned => Err(DispatchError::BadOrigin),
        }),
{
    match origin {
        Origin::Root => Ok(None),
        Origin::Signed(who) => Ok(Some(who)),
        Origin::Unsigned => Err(DispatchError::BadOrigin),
    }
}

} // verus!

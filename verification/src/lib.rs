//! A permissioned economic state machine: a council that governs
//! transaction-fee parameters by proposal and vote, a file-storage
//! marketplace with per-byte fees and paid ownership transfer, and registries
//! of attestation devices and servicers with reputation scoring.
//!
//! Every command runs against explicit state values and either returns the
//! events it produced or fails leaving all state as it was.

pub mod account_set;
pub mod base_url;
pub mod constants;
pub mod council;
pub mod identity;
pub mod ledger;
pub mod pda_files;
pub mod primitives;
pub mod registry_servicers;
pub mod servicer_registry;
pub mod shares;
pub mod transaction_payment;

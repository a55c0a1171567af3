//! Verified core of two on-ledger custody programs: a relay that deposits
//! native currency into a recipient wallet on behalf of an off-chain user,
//! and a presale ledger that credits a per-user allocation counter stored in
//! a deterministically derived record while forwarding the payment to a
//! treasury vault.
//!
//! The host runtime's own duties (transaction atomicity, signature checks,
//! storage rent) stay outside; this crate proves the account validation,
//! address-derivation bookkeeping, overflow-checked arithmetic, and
//! all-or-nothing state updates that sit between them.

pub mod accounts;
pub mod deposit;
pub mod errors;
pub mod presale;
pub mod records;

use vstd::prelude::*;

verus! {

/// Machine-readable failure classes shared by the deposit relay and the
/// presale ledger. Every failure aborts the whole operation: none of them
/// leaves a partial state change behind.
#[derive(Clone, Copy, Debug, PartialEq, Eq, Structural)]
pub enum ErrorCode {
    /// An account that must have authorized the transaction did not sign it.
    Unauthorized,
    /// The caller-supplied record address differs from the address the
    /// program derives from the user identity, or no address can be derived
    /// for those seeds.
    DerivationMismatch,
    /// The counter increment or a currency computation would overflow.
    Overflow,
    /// The paying account does not hold the amount to be moved.
    InsufficientFunds,
}

} // verus!

use vstd::prelude::*;

verus! {

/// The error taxonomy of the vault core. Every operation either applies in
/// full or returns one of these and leaves every balance and record exactly
/// as it was.
#[derive(Clone, Copy, Debug, PartialEq, Eq, Structural)]
pub enum VaultError {
    /// Initialize: a state record already occupies the derived state address.
    AlreadyInitialized,
    /// Deposit, withdraw or close: no state record exists for the controller.
    VaultNotFound,
    /// A stored bump differs from the canonical bump recomputed from the
    /// record's own seeds: the record is inconsistent with its address and
    /// must be rejected, never silently repaired.
    CorruptState,
    /// Deposit or withdraw: the requested amount is zero.
    InvalidAmount,
    /// The controller's balance cannot cover the transfer or the storage
    /// cost of the new record.
    InsufficientFunds,
    /// Withdraw: the holding address holds less than the requested amount.
    InsufficientVaultBalance,
    /// No bump in the searchable range takes the derived address off the
    /// curve; practically unreachable.
    DerivationExhausted,
    /// The request is co-signed by an identity other than the vault's
    /// controller.
    Unauthorized,
}

} // verus!

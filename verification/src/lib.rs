//! A minimal custodial vault: a single controlling identity deposits and
//! withdraws funds through a deterministically derived holding address, and
//! later reclaims the storage cost of the record that binds the two.
//!
//! The crate models the slice of the ledger that one vault touches — the
//! controller's balance, the holding address's balance, and the persisted
//! state record — and proves that the four lifecycle operations (initialize,
//! deposit, withdraw, close) check authority, derivation and balances before
//! they move funds, and that every transfer conserves the total.

pub mod addressing;
pub mod errors;
pub mod state;
pub mod vault;
pub mod laws;

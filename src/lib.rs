//! Continuous payment streams: a ledger whose receivers' claimable balances
//! grow linearly with time, settled lazily against a caller-supplied clock.
//!
//! - `types`: identities, stream records, configuration, errors and the
//!   custody requests the ledger hands to the vault.
//! - `accrual`: the pure accrual engine and the settlement step.
//! - `lifecycle`: the effect of each lifecycle operation on one stream.
//! - `ledger`: the stream store and its operations.
//! - `custody`: the vault message that carries a custody request.
//! - `laws`: properties that relate several operations.
pub mod accrual;
pub mod custody;
pub mod laws;
pub mod lifecycle;
pub mod ledger;
pub mod types;

//! Custody and withdrawal guard of a token-governance ledger.
//!
//! Members deposit governing tokens into a realm's holding account and
//! receive a token owner record. Withdrawal releases the deposit only when
//! every supplied account is the canonical one for its role and the record
//! carries no unrelinquished vote, no outstanding proposal and no active lock.
pub mod address;
pub mod error;
pub mod realm;
pub mod token;
pub mod record;
pub mod proposal;
pub mod custody;
pub mod laws;

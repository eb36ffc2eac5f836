//! The operations that read the ledger.

pub mod query;

//! The operations that change the ledger.

pub mod execute;

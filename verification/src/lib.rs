//! An escrow-style insurance ledger: a registry of insurance policies run by
//! moderators and backed by one pooled vault of token collateral.

pub mod contract;
pub mod error;
pub mod execute_feat;
pub mod host;
pub mod laws;
pub mod ledger;
pub mod machine;
pub mod msg;
pub mod query_feat;
pub mod response;
pub mod state;
pub mod text;
pub mod token;

pub use crate::error::ContractError;

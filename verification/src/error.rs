//! The ways in which an operation on the ledger can be refused.

use vstd::prelude::*;
use vstd::string::*;

verus! {

/// Why an operation was refused. A refused operation changes nothing.
#[derive(Clone, Copy, Debug, PartialEq, Eq, Structural)]
pub enum ContractError {
    /// The caller of an operation for moderators is not a moderator.
    Unauthorized,
    /// A policy with the given id has already been created.
    AlreadyExistsInsurance,
    /// The policy, the vault record or the moderator record does not exist.
    NotFound,
    /// A pool holds less than the amount that was to be taken out of it.
    Underflow,
    /// A value has no valid wire form.
    Malformed,
}

impl ContractError {
    /// The message that the error is reported with.
    pub open spec fn message(self) -> Seq<char> {
        match self {
            ContractError::Unauthorized => "Unauthorized"@,
            ContractError::AlreadyExistsInsurance => "AlreadyExistsInsurance"@,
            ContractError::NotFound => "NotFound"@,
            ContractError::Underflow => "Underflow"@,
            ContractError::Malformed => "Malformed"@,
        }
    }

    /// Renders the error as its message.
    pub fn to_string(&self) -> (s: String)
        ensures
            s@ == self.message(),
    {
        match self {
            ContractError::Unauthorized => String::from_str("Unauthorized"),
            ContractError::AlreadyExistsInsurance => String::from_str("AlreadyExistsInsurance"),
            ContractError::NotFound => String::from_str("NotFound"),
            ContractError::Underflow => String::from_str("Underflow"),
            ContractError::Malformed => String::from_str("Malformed"),
        }
    }
}

} // verus!

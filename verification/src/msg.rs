//! The requests that the ledger serves.

use vstd::prelude::*;

verus! {

/// Sets the ledger up for the token contract in which the collateral is held.
#[derive(Clone, Debug, PartialEq, Eq)]
pub struct InstantiateMsg {
    pub token_address: String,
}

/// A request that changes the ledger.
///
/// Every request but `CreateInsurance` is served to moderators only.
#[derive(Clone, Debug, PartialEq, Eq)]
pub enum ExecuteMsg {
    AddModerator { new_moderator: String },
    DeleteModerator { moderator_to_remove: String },
    CreateInsurance { id_insurance: String, margin: u128 },
    UpdateAvailableInsurance { id_insurance: String, claim_amount: u128, expired_time: u64 },
    UpdateInvalidInsurance { id_insurance: String },
    ClaimInsurance { id_insurance: String },
    RefundInsurance { id_insurance: String },
    CancelInsurance { id_insurance: String },
    ExpireInsurance { id_insurance: String },
    LiquidateInsurance { id_insurance: String },
}

impl ExecuteMsg {
    /// Whether the request is served to moderators only.
    pub open spec fn is_moderated(self) -> bool {
        !(self is CreateInsurance)
    }

    /// The id of the policy that the request is about, if it is about one.
    pub open spec fn subject(self) -> Option<Seq<char>> {
        match self {
            ExecuteMsg::AddModerator { .. } => None,
            ExecuteMsg::DeleteModerator { .. } => None,
            ExecuteMsg::CreateInsurance { id_insurance, .. } => Some(id_insurance@),
            ExecuteMsg::UpdateAvailableInsurance { id_insurance, .. } => Some(id_insurance@),
            ExecuteMsg::UpdateInvalidInsurance { id_insurance } => Some(id_insurance@),
            ExecuteMsg::ClaimInsurance { id_insurance } => Some(id_insurance@),
            ExecuteMsg::RefundInsurance { id_insurance } => Some(id_insurance@),
            ExecuteMsg::CancelInsurance { id_insurance } => Some(id_insurance@),
            ExecuteMsg::ExpireInsurance { id_insurance } => Some(id_insurance@),
            ExecuteMsg::LiquidateInsurance { id_insurance } => Some(id_insurance@),
        }
    }

    /// The id of the policy that the request is about, if it is about one:
    /// the one policy that serving the request reads or writes.
    pub fn id_insurance(&self) -> (id: Option<&String>)
        ensures
            match id {
                Some(id) => self.subject() == Some(id@),
                None => self.subject() is None,
            },
    {
        match self {
            ExecuteMsg::AddModerator { .. } => None,
            ExecuteMsg::DeleteModerator { .. } => None,
            ExecuteMsg::CreateInsurance { id_insurance, .. } => Some(id_insurance),
            ExecuteMsg::UpdateAvailableInsurance { id_insurance, .. } => Some(id_insurance),
            ExecuteMsg::UpdateInvalidInsurance { id_insurance } => Some(id_insurance),
            ExecuteMsg::ClaimInsurance { id_insurance } => Some(id_insurance),
            ExecuteMsg::RefundInsurance { id_insurance } => Some(id_insurance),
            ExecuteMsg::CancelInsurance { id_insurance } => Some(id_insurance),
            ExecuteMsg::ExpireInsurance { id_insurance } => Some(id_insurance),
            ExecuteMsg::LiquidateInsurance { id_insurance } => Some(id_insurance),
        }
    }
}

/// A request that reads the ledger.
#[derive(Clone, Debug, PartialEq, Eq)]
pub enum QueryMsg {
    GetInsuranceInfo { id_insurance: String },
    GetVaultInfo {},
}

} // verus!

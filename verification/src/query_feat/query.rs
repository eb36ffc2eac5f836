//! Snapshots of a policy and of the vault.

use vstd::prelude::*;

use crate::error::ContractError;
use crate::ledger::Ledger;
use crate::state::{InsuranceInfor, Vault};

verus! {

/// The policy `id_insurance` as it is stored, settled fields included. It is
/// `NotFound` if there is no such policy.
pub fn get_insurance_info(ledger: &Ledger, id_insurance: String) -> (r: Result<
    InsuranceInfor,
    ContractError,
>)
    ensures
        match ledger@.get(id_insurance@) {
            Some(stored) => r matches Ok(info) && info@ == stored,
            None => r matches Err(e) && e == ContractError::NotFound,
        },
{
    ledger.load_insurance(&id_insurance)
}

/// The vault as it is stored. It is `NotFound` before the ledger was set up.
pub fn get_vault_info(ledger: &Ledger) -> (r: Result<Vault, ContractError>)
    ensures
        match ledger@.vault {
            Some(stored) => r matches Ok(vault) && vault@ == stored,
            None => r matches Err(e) && e == ContractError::NotFound,
        },
{
    ledger.load_vault()
}

} // verus!

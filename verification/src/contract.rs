//! The entry points of the ledger: setting it up, changing it, reading it.

use vstd::prelude::*;
use vstd::string::*;

use crate::error::ContractError;
use crate::execute_feat::execute::check_authorization;
use crate::host::{Env, MessageInfo};
use crate::laws::{
    lemma_instantiate_reconciled, lemma_step_keeps_claim_reconciled,
    lemma_step_keeps_margin_reconciled, unsettles_claims,
};
use crate::ledger::Ledger;
use crate::machine::{agrees, instantiate_outcome, step, step_fits};
use crate::msg::{ExecuteMsg, InstantiateMsg, QueryMsg};
use crate::response::Response;
use crate::state::{InsuranceInfor, Vault};
use crate::token::request_json;

verus! {

/// What a query returns.
#[derive(Clone, Debug, PartialEq, Eq)]
pub enum QueryResponse {
    InsuranceInfo(InsuranceInfor),
    VaultInfo(Vault),
}

/// Sets the ledger up: an empty vault for the token contract that `msg`
/// names, and the caller as the only moderator. The policies are left alone.
///
/// A ledger to which nothing was written is reconciled once it is set up,
/// and so is every reconciled ledger whose pools were empty.
pub fn instantiate(ledger: &mut Ledger, _env: Env, info: MessageInfo, msg: InstantiateMsg) -> (r:
    Result<Response, ContractError>)
    ensures
        final(ledger)@.unique_ids(),
        agrees(
            r,
            final(ledger)@,
            old(ledger)@,
            instantiate_outcome(old(ledger)@, info.sender@, msg.token_address@),
        ),
        r is Ok,
        old(ledger)@.reconciled() && (old(ledger)@.vault matches Some(vault)
            ==> vault.margin_pool == 0 && vault.claim_pool == 0) ==> final(ledger)@.reconciled(),
{
    proof {
        if old(ledger)@.reconciled() && (old(ledger)@.vault matches Some(vault)
            ==> vault.margin_pool == 0 && vault.claim_pool == 0) {
            lemma_instantiate_reconciled(old(ledger)@, info.sender@, msg.token_address@);
        }
    }
    let vault = Vault {
        contract_addr: msg.token_address,
        margin_pool: 0,
        claim_pool: 0,
        hakifi_fund: 0,
        third_party_fund: 0,
    };
    ledger.save_vault(vault);

    let mut moderators: Vec<String> = Vec::new();
    moderators.push(info.sender.clone());
    assert(crate::ledger::identity_views(moderators@) =~= seq![info.sender@]);
    ledger.save_moderators(moderators);
    Ok(Response::new().add_attribute("method", String::from_str("instantiate")))
}

/// Whether the pools can take what `msg` would add to them: whether
/// [`execute`] may be called with it. Only creating a policy and making one
/// available add to a pool; a request that is refused before it comes to
/// that, and every other request, can always be made.
pub fn pools_can_take(ledger: &Ledger, info: &MessageInfo, msg: &ExecuteMsg) -> (b: bool)
    ensures
        b == step_fits(ledger@, info.sender@, *msg),
{
    match msg {
        ExecuteMsg::CreateInsurance { id_insurance, margin } => {
            if ledger.has_insurance(id_insurance) {
                return true;
            }
            match ledger.load_vault() {
                Ok(vault) => vault.margin_pool.checked_add(*margin).is_some(),
                Err(_) => true,
            }
        },
        ExecuteMsg::UpdateAvailableInsurance { id_insurance, claim_amount, .. } => {
            let listed = match ledger.load_moderators() {
                Ok(moderators) => check_authorization(moderators.as_slice(), &info.sender).is_ok(),
                Err(_) => false,
            };
            if !listed || !ledger.has_insurance(id_insurance) {
                return true;
            }
            match ledger.load_vault() {
                Ok(vault) => vault.claim_pool.checked_add(*claim_amount).is_some(),
                Err(_) => true,
            }
        },
        _ => true,
    }
}

/// Serves a request that changes the ledger: the ledger and the response
/// are what [`step`] makes of it, and a refused request changes nothing.
///
/// Only a moderator is served a request for moderators. A margin pool that
/// was reconciled with the policies stays so, and so does the claim pool but
/// for the requests that [`unsettles_claims`] lists.
///
/// Identities in `msg` are taken as they are: the host checks their form
/// before it hands the request over.
pub fn execute(ledger: &mut Ledger, env: Env, info: MessageInfo, msg: ExecuteMsg) -> (r: Result<
    Response,
    ContractError,
>)
    requires
        step_fits(old(ledger)@, info.sender@, msg),
    ensures
        final(ledger)@.unique_ids(),
        agrees(
            r,
            final(ledger)@,
            old(ledger)@,
            step(
                old(ledger)@,
                env.block.time.seconds(),
                info.sender@,
                msg,
                request_json(old(ledger)@, env.contract.address@, info.sender@, msg),
            ),
        ),
        msg.is_moderated() && old(ledger)@.moderators is Some && !old(ledger)@.is_moderator(
            info.sender@,
        ) ==> r == Err::<Response, _>(ContractError::Unauthorized),
        old(ledger)@.margin_reconciled() ==> final(ledger)@.margin_reconciled(),
        old(ledger)@.claim_reconciled() && !unsettles_claims(old(ledger)@, msg)
            ==> final(ledger)@.claim_reconciled(),
{
    proof {
        let pre = old(ledger)@;
        let now = env.block.time.seconds();
        let wire = request_json(pre, env.contract.address@, info.sender@, msg);
        if step(pre, now, info.sender@, msg, wire) is Ok {
            if pre.margin_reconciled() {
                lemma_step_keeps_margin_reconciled(pre, now, info.sender@, msg, wire);
            }
            if pre.claim_reconciled() {
                lemma_step_keeps_claim_reconciled(pre, now, info.sender@, msg, wire);
            }
        }
    }
    match msg {
        ExecuteMsg::CreateInsurance { id_insurance, margin } => {
            crate::execute_feat::execute::create_insurance(ledger, env, info, id_insurance, margin)
        },
        ExecuteMsg::AddModerator { new_moderator } => {
            crate::execute_feat::execute::add_moderator(ledger, env, info, new_moderator)
        },
        ExecuteMsg::DeleteModerator { moderator_to_remove } => {
            crate::execute_feat::execute::delete_moderator(ledger, env, info, moderator_to_remove)
        },
        ExecuteMsg::UpdateAvailableInsurance { id_insurance, claim_amount, expired_time } => {
            crate::execute_feat::execute::update_available_insurance(
                ledger,
                info,
                id_insurance,
                claim_amount,
                expired_time,
            )
        },
        ExecuteMsg::UpdateInvalidInsurance { id_insurance } => {
            crate::execute_feat::execute::update_invalid_insurance(ledger, info, id_insurance)
        },
        ExecuteMsg::ClaimInsurance { id_insurance } => {
            crate::execute_feat::execute::claim_insurance(ledger, info, id_insurance)
        },
        ExecuteMsg::RefundInsurance { id_insurance } => {
            crate::execute_feat::execute::refund_insurance(ledger, info, id_insurance)
        },
        ExecuteMsg::CancelInsurance { id_insurance } => {
            crate::execute_feat::execute::cancel_insurance(ledger, info, id_insurance)
        },
        ExecuteMsg::ExpireInsurance { id_insurance } => {
            crate::execute_feat::execute::expire_insurance(ledger, env, info, id_insurance)
        },
        ExecuteMsg::LiquidateInsurance { id_insurance } => {
            crate::execute_feat::execute::liquidate_insurance(ledger, env, info, id_insurance)
        },
    }
}

/// Serves a request that reads the ledger.
pub fn query(ledger: &Ledger, _env: Env, msg: QueryMsg) -> (r: Result<QueryResponse, ContractError>)
    ensures
        match msg {
            QueryMsg::GetInsuranceInfo { id_insurance } => match ledger@.get(id_insurance@) {
                Some(stored) => r matches Ok(QueryResponse::InsuranceInfo(info)) && info@
                    == stored,
                None => r matches Err(e) && e == ContractError::NotFound,
            },
            QueryMsg::GetVaultInfo {  } => match ledger@.vault {
                Some(stored) => r matches Ok(QueryResponse::VaultInfo(vault)) && vault@ == stored,
                None => r matches Err(e) && e == ContractError::NotFound,
            },
        },
{
    match msg {
        QueryMsg::GetInsuranceInfo { id_insurance } => {
            match crate::query_feat::query::get_insurance_info(ledger, id_insurance) {
                Ok(info) => Ok(QueryResponse::InsuranceInfo(info)),
                Err(e) => Err(e),
            }
        },
        QueryMsg::GetVaultInfo {  } => {
            match crate::query_feat::query::get_vault_info(ledger) {
                Ok(vault) => Ok(QueryResponse::VaultInfo(vault)),
                Err(e) => Err(e),
            }
        },
    }
}

} // verus!

//! The moderator registry and the transitions of a policy, on a ledger.
//!
//! Each operation is proved to do what [`crate::machine`] says of it. An
//! operation that is refused leaves the ledger as it was.

use vstd::prelude::*;
use vstd::string::*;

use crate::error::ContractError;
use crate::host::{Env, MessageInfo};
use crate::ledger::{identity_views, Ledger};
use crate::machine::{
    add_moderator_outcome, agrees, claim_outcome, close_outcome, create_fits, create_outcome,
    delete_moderator_outcome, insurance_response, lemma_without_push, settle_margin_outcome,
    transfer_response, update_available_fits, update_available_outcome, without,
};
use crate::response::{Event, Response, WasmMsg};
use crate::state::{InsuranceInfor, InsuranceState, InsuranceType, Vault};
use crate::text::{u128_to_text, u64_to_text};
use crate::token::{
    claim_transfer_json, cw20_transfer_from_json, encode_transfer, encode_transfer_from,
    margin_transfer_json,
};

verus! {

/// Whether `who` is listed in `roster`, by a scan from its start.
fn is_listed(roster: &[String], who: &String) -> (b: bool)
    ensures
        b == identity_views(roster@).contains(who@),
{
    let n: usize = roster.len();
    let mut i: usize = 0;
    while i < n
        invariant
            n == roster.len(),
            i <= n,
            forall|a: int| 0 <= a < i ==> identity_views(roster@)[a] != who@,
        decreases n - i,
    {
        if roster[i] == *who {
            assert(identity_views(roster@)[i as int] == who@);
            return true;
        }
        i += 1;
    }
    false
}

/// The test before every operation that is served to moderators only: it
/// lets `sender` pass if `moderators` lists it, and is `Unauthorized`
/// otherwise.
pub fn check_authorization(moderators: &[String], sender: &String) -> (r: Result<
    (),
    ContractError,
>)
    ensures
        r == if identity_views(moderators@).contains(sender@) {
            Ok::<(), ContractError>(())
        } else {
            Err::<(), ContractError>(ContractError::Unauthorized)
        },
{
    if !is_listed(moderators, sender) {
        return Err(ContractError::Unauthorized);
    }
    Ok(())
}

/// A copy of the roster without any occurrence of `target`.
fn retain_others(roster: &Vec<String>, target: &String) -> (kept: Vec<String>)
    ensures
        identity_views(kept@) == without(identity_views(roster@), target@),
{
    let ghost all = identity_views(roster@);
    let n: usize = roster.len();
    let mut kept: Vec<String> = Vec::new();
    let mut i: usize = 0;
    while i < n
        invariant
            n == roster.len(),
            i <= n,
            all == identity_views(roster@),
            identity_views(kept@) == without(all.take(i as int), target@),
        decreases n - i,
    {
        proof {
            assert(all.take(i + 1) =~= all.take(i as int).push(roster[i as int]@));
            lemma_without_push(all.take(i as int), roster[i as int]@, target@);
        }
        if !(roster[i] == *target) {
            kept.push(roster[i].clone());
        }
        i += 1;
    }
    assert(all.take(n as int) =~= all);
    kept
}

/// The record of a policy that an operation emits.
fn insurance_event(
    id_insurance: &String,
    insurance_info: &InsuranceInfor,
    event_type: InsuranceType,
) -> (event: Event)
    ensures
        event@ == crate::machine::insurance_event(id_insurance@, insurance_info@, event_type),
{
    let event = Event::new("EInsurance")
        .add_attribute("id_insurance", id_insurance.clone())
        .add_attribute("buyer", insurance_info.buyer.clone())
        .add_attribute("margin", u128_to_text(insurance_info.margin))
        .add_attribute("claim_amount", u128_to_text(insurance_info.claim_amount))
        .add_attribute("expired_time", u64_to_text(insurance_info.expired_time))
        .add_attribute("open_time", u64_to_text(insurance_info.open_time))
        .add_attribute("state", insurance_info.state.to_string())
        .add_attribute("event_type", event_type.to_string());
    assert(event@.attributes =~= crate::machine::insurance_event(
        id_insurance@,
        insurance_info@,
        event_type,
    ).attributes);
    event
}

/// Writes a policy and the vault back and emits the policy's record.
fn save_insurance_info(
    ledger: &mut Ledger,
    id_insurance: String,
    insurance_info: InsuranceInfor,
    vault: Vault,
    event_type: InsuranceType,
) -> (response: Response)
    ensures
        final(ledger)@.unique_ids(),
        final(ledger)@ == old(ledger)@.put(id_insurance@, insurance_info@).with_vault(vault@),
        response@ == insurance_response(id_insurance@, insurance_info@, event_type),
{
    let event = insurance_event(&id_insurance, &insurance_info, event_type);
    ledger.save_insurance(id_insurance, insurance_info);
    ledger.save_vault(vault);
    Response::new().add_event(event)
}

/// The last step of an operation that moves tokens, given what encoding the
/// request to the token contract came to.
///
/// If the request was encoded, the policy and the vault are written back and
/// the response carries the policy's record and the request, addressed to
/// the vault's token contract. If it was not, nothing is written and the
/// operation is `Malformed`.
pub fn save_with_transfer(
    ledger: &mut Ledger,
    id_insurance: String,
    insurance_info: InsuranceInfor,
    vault: Vault,
    event_type: InsuranceType,
    wire: Result<Vec<u8>, cosmwasm_std::StdError>,
) -> (r: Result<Response, ContractError>)
    ensures
        r is Ok ==> final(ledger)@.unique_ids(),
        agrees(
            r,
            final(ledger)@,
            old(ledger)@,
            match wire {
                Ok(bytes) => Ok(
                    (
                        old(ledger)@.put(id_insurance@, insurance_info@).with_vault(vault@),
                        transfer_response(
                            id_insurance@,
                            insurance_info@,
                            event_type,
                            vault@.contract_addr,
                            bytes@,
                        ),
                    ),
                ),
                Err(_) => Err(ContractError::Malformed),
            },
        ),
{
    match wire {
        Ok(bytes) => {
            let transfer_msg = WasmMsg::Execute {
                contract_addr: vault.contract_addr.clone(),
                msg: bytes,
            };
            let response = save_insurance_info(
                ledger,
                id_insurance,
                insurance_info,
                vault,
                event_type,
            );
            Ok(response.add_message(transfer_msg))
        },
        Err(_) => Err(ContractError::Malformed),
    }
}

/// Puts `new_moderator` on the roster, unless it is listed already.
///
/// Served to moderators only.
pub fn add_moderator(
    ledger: &mut Ledger,
    _env: Env,
    info: MessageInfo,
    new_moderator: String,
) -> (r: Result<Response, ContractError>)
    ensures
        final(ledger)@.unique_ids(),
        agrees(
            r,
            final(ledger)@,
            old(ledger)@,
            add_moderator_outcome(old(ledger)@, info.sender@, new_moderator@),
        ),
{
    let mut moderators = ledger.load_moderators()?;
    check_authorization(moderators.as_slice(), &info.sender)?;

    if !is_listed(moderators.as_slice(), &new_moderator) {
        let ghost before = identity_views(moderators@);
        moderators.push(new_moderator);
        assert(identity_views(moderators@) =~= before.push(new_moderator@));
        ledger.save_moderators(moderators);
    }
    Ok(Response::new().add_attribute("method", String::from_str("add_moderator")))
}

/// Takes every occurrence of `moderator_to_remove` off the roster.
///
/// Served to moderators only. A moderator may remove itself, and the last
/// moderator may be removed: after that no operation for moderators can be served.
pub fn delete_moderator(
    ledger: &mut Ledger,
    _env: Env,
    info: MessageInfo,
    moderator_to_remove: String,
) -> (r: Result<Response, ContractError>)
    ensures
        final(ledger)@.unique_ids(),
        agrees(
            r,
            final(ledger)@,
            old(ledger)@,
            delete_moderator_outcome(old(ledger)@, info.sender@, moderator_to_remove@),
        ),
{
    let moderators = ledger.load_moderators()?;
    check_authorization(moderators.as_slice(), &info.sender)?;

    if is_listed(moderators.as_slice(), &moderator_to_remove) {
        let kept = retain_others(&moderators, &moderator_to_remove);
        ledger.save_moderators(kept);
    }
    Ok(Response::new().add_attribute("method", String::from_str("delete_moderator")))
}

/// Creates the policy `id_insurance` for the caller, who deposits `margin`.
///
/// Anyone may call this. The margin pool must be able to take the margin.
pub fn create_insurance(
    ledger: &mut Ledger,
    env: Env,
    info: MessageInfo,
    id_insurance: String,
    margin: u128,
) -> (r: Result<Response, ContractError>)
    requires
        create_fits(old(ledger)@, id_insurance@, margin as nat),
    ensures
        final(ledger)@.unique_ids(),
        agrees(
            r,
            final(ledger)@,
            old(ledger)@,
            create_outcome(
                old(ledger)@,
                env.block.time.seconds(),
                info.sender@,
                id_insurance@,
                margin as nat,
                cw20_transfer_from_json(info.sender@, env.contract.address@, margin as nat),
            ),
        ),
{
    if ledger.has_insurance(&id_insurance) {
        return Err(ContractError::AlreadyExistsInsurance);
    }
    let mut vault = ledger.load_vault()?;
    vault.margin_pool = vault.margin_pool + margin;

    let new_insurance = InsuranceInfor {
        buyer: info.sender.clone(),
        margin,
        claim_amount: 0,
        expired_time: 0,
        open_time: env.block.time.seconds(),
        state: InsuranceState::PENDING,
        valid: true,
    };

    let wire = encode_transfer_from(&info.sender, &env.contract.address, margin);
    save_with_transfer(ledger, id_insurance, new_insurance, vault, InsuranceType::CREATED, wire)
}

/// Makes the policy `id_insurance` available with a claim amount and an
/// expiry.
///
/// Served to moderators only. The claim pool must be able to take the claim
/// amount.
pub fn update_available_insurance(
    ledger: &mut Ledger,
    info: MessageInfo,
    id_insurance: String,
    claim_amount: u128,
    expired_time: u64,
) -> (r: Result<Response, ContractError>)
    requires
        update_available_fits(old(ledger)@, info.sender@, id_insurance@, claim_amount as nat),
    ensures
        final(ledger)@.unique_ids(),
        agrees(
            r,
            final(ledger)@,
            old(ledger)@,
            update_available_outcome(
                old(ledger)@,
                info.sender@,
                id_insurance@,
                claim_amount as nat,
                expired_time,
            ),
        ),
{
    let moderators = ledger.load_moderators()?;
    check_authorization(moderators.as_slice(), &info.sender)?;

    let mut vault = ledger.load_vault()?;
    let mut insurance_info = ledger.load_insurance(&id_insurance)?;

    insurance_info.state = InsuranceState::AVAILABLE;
    insurance_info.claim_amount = claim_amount;
    insurance_info.expired_time = expired_time;
    vault.claim_pool = vault.claim_pool + claim_amount;

    Ok(
        save_insurance_info(
            ledger,
            id_insurance,
            insurance_info,
            vault,
            InsuranceType::UPDATEAVAILABLE,
        ),
    )
}

/// Pays the margin of the policy `id_insurance` back to its buyer and puts
/// the policy in `state`.
fn settle_margin(
    ledger: &mut Ledger,
    info: MessageInfo,
    id_insurance: String,
    state: InsuranceState,
    event_type: InsuranceType,
) -> (r: Result<Response, ContractError>)
    ensures
        final(ledger)@.unique_ids(),
        agrees(
            r,
            final(ledger)@,
            old(ledger)@,
            settle_margin_outcome(
                old(ledger)@,
                info.sender@,
                id_insurance@,
                state,
                event_type,
                margin_transfer_json(old(ledger)@, id_insurance@),
            ),
        ),
{
    let moderators = ledger.load_moderators()?;
    check_authorization(moderators.as_slice(), &info.sender)?;

    let mut vault = ledger.load_vault()?;
    let mut insurance_info = ledger.load_insurance(&id_insurance)?;

    insurance_info.state = state;
    let margin: u128 = insurance_info.margin;
    vault.margin_pool = match vault.margin_pool.checked_sub(margin) {
        Some(rest) => rest,
        None => {
            return Err(ContractError::Underflow);
        },
    };
    insurance_info.margin = 0;

    let wire = encode_transfer(&insurance_info.buyer, margin);
    save_with_transfer(ledger, id_insurance, insurance_info, vault, event_type, wire)
}

/// Declares the policy `id_insurance` invalid and pays its margin back.
///
/// Served to moderators only.
pub fn update_invalid_insurance(
    ledger: &mut Ledger,
    info: MessageInfo,
    id_insurance: String,
) -> (r: Result<Response, ContractError>)
    ensures
        final(ledger)@.unique_ids(),
        agrees(
            r,
            final(ledger)@,
            old(ledger)@,
            settle_margin_outcome(
                old(ledger)@,
                info.sender@,
                id_insurance@,
                InsuranceState::INVALID,
                InsuranceType::UPDATEINVALID,
                margin_transfer_json(old(ledger)@, id_insurance@),
            ),
        ),
{
    settle_margin(
        ledger,
        info,
        id_insurance,
        InsuranceState::INVALID,
        InsuranceType::UPDATEINVALID,
    )
}

/// Pays the claim amount of the policy `id_insurance` out to its buyer.
///
/// Served to moderators only.
pub fn claim_insurance(ledger: &mut Ledger, info: MessageInfo, id_insurance: String) -> (r: Result<
    Response,
    ContractError,
>)
    ensures
        final(ledger)@.unique_ids(),
        agrees(
            r,
            final(ledger)@,
            old(ledger)@,
            claim_outcome(
                old(ledger)@,
                info.sender@,
                id_insurance@,
                claim_transfer_json(old(ledger)@, id_insurance@),
            ),
        ),
{
    let moderators = ledger.load_moderators()?;
    check_authorization(moderators.as_slice(), &info.sender)?;

    let mut insurance_info = ledger.load_insurance(&id_insurance)?;
    let mut vault = ledger.load_vault()?;

    insurance_info.state = InsuranceState::CLAIMED;
    let claim_amount: u128 = insurance_info.claim_amount;
    vault.claim_pool = match vault.claim_pool.checked_sub(claim_amount) {
        Some(rest) => rest,
        None => {
            return Err(ContractError::Underflow);
        },
    };
    insurance_info.claim_amount = 0;

    let wire = encode_transfer(&insurance_info.buyer, claim_amount);
    save_with_transfer(ledger, id_insurance, insurance_info, vault, InsuranceType::CLAIM, wire)
}

/// Refunds the policy `id_insurance`: pays its margin back to its buyer.
///
/// Served to moderators only.
pub fn refund_insurance(ledger: &mut Ledger, info: MessageInfo, id_insurance: String) -> (r: Result<
    Response,
    ContractError,
>)
    ensures
        final(ledger)@.unique_ids(),
        agrees(
            r,
            final(ledger)@,
            old(ledger)@,
            settle_margin_outcome(
                old(ledger)@,
                info.sender@,
                id_insurance@,
                InsuranceState::REFUNDED,
                InsuranceType::REFUND,
                margin_transfer_json(old(ledger)@, id_insurance@),
            ),
        ),
{
    settle_margin(ledger, info, id_insurance, InsuranceState::REFUNDED, InsuranceType::REFUND)
}

/// Cancels the policy `id_insurance`: pays its margin back to its buyer.
///
/// Served to moderators only.
pub fn cancel_insurance(ledger: &mut Ledger, info: MessageInfo, id_insurance: String) -> (r: Result<
    Response,
    ContractError,
>)
    ensures
        final(ledger)@.unique_ids(),
        agrees(
            r,
            final(ledger)@,
            old(ledger)@,
            settle_margin_outcome(
                old(ledger)@,
                info.sender@,
                id_insurance@,
                InsuranceState::CANCELED,
                InsuranceType::CANCEL,
                margin_transfer_json(old(ledger)@, id_insurance@),
            ),
        ),
{
    settle_margin(ledger, info, id_insurance, InsuranceState::CANCELED, InsuranceType::CANCEL)
}

/// Puts the policy `id_insurance` in `state` and emits its record. The
/// vault is left alone.
fn close(
    ledger: &mut Ledger,
    info: MessageInfo,
    id_insurance: String,
    state: InsuranceState,
    event_type: InsuranceType,
) -> (r: Result<Response, ContractError>)
    ensures
        final(ledger)@.unique_ids(),
        agrees(
            r,
            final(ledger)@,
            old(ledger)@,
            close_outcome(old(ledger)@, info.sender@, id_insurance@, state, event_type),
        ),
{
    let moderators = ledger.load_moderators()?;
    check_authorization(moderators.as_slice(), &info.sender)?;

    let mut insurance_info = ledger.load_insurance(&id_insurance)?;
    insurance_info.state = state;

    let event = insurance_event(&id_insurance, &insurance_info, event_type);
    ledger.save_insurance(id_insurance, insurance_info);
    Ok(Response::new().add_event(event))
}

/// Marks the policy `id_insurance` as expired.
///
/// Served to moderators only.
pub fn expire_insurance(
    ledger: &mut Ledger,
    _env: Env,
    info: MessageInfo,
    id_insurance: String,
) -> (r: Result<Response, ContractError>)
    ensures
        final(ledger)@.unique_ids(),
        agrees(
            r,
            final(ledger)@,
            old(ledger)@,
            close_outcome(
                old(ledger)@,
                info.sender@,
                id_insurance@,
                InsuranceState::EXPIRED,
                InsuranceType::EXPIRED,
            ),
        ),
{
    close(ledger, info, id_insurance, InsuranceState::EXPIRED, InsuranceType::EXPIRED)
}

/// Marks the policy `id_insurance` as liquidated.
///
/// Served to moderators only.
pub fn liquidate_insurance(
    ledger: &mut Ledger,
    _env: Env,
    info: MessageInfo,
    id_insurance: String,
) -> (r: Result<Response, ContractError>)
    ensures
        final(ledger)@.unique_ids(),
        agrees(
            r,
            final(ledger)@,
            old(ledger)@,
            close_outcome(
                old(ledger)@,
                info.sender@,
                id_insurance@,
                InsuranceState::LIQUIDATED,
                InsuranceType::LIQUIDATED,
            ),
        ),
{
    close(ledger, info, id_insurance, InsuranceState::LIQUIDATED, InsuranceType::LIQUIDATED)
}

} // verus!

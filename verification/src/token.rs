//! The wire form of the requests that the ledger sends to the token contract.
//!
//! The token contract speaks the CW20 interface. Its messages are encoded by
//! the `cw20` and `cosmwasm_std` crates. What this module says of their
//! encoding is trusted, not proved, and the rest of the library relies on no
//! more than is said here.

use vstd::prelude::*;

use crate::ledger::LedgerView;
use crate::msg::ExecuteMsg;

verus! {

/// The error type of `cosmwasm_std`, carried through without being inspected.
#[verifier::external_type_specification]
#[verifier::external_body]
pub struct ExStdError(cosmwasm_std::StdError);

/// The JSON bytes of `Cw20ExecuteMsg::Transfer { recipient, amount }` as
/// `cosmwasm_std::to_json_binary` produces them, or `None` where it reports
/// an error.
pub uninterp spec fn cw20_transfer_json(recipient: Seq<char>, amount: nat) -> Option<Seq<u8>>;

/// The JSON bytes of `Cw20ExecuteMsg::TransferFrom { owner, recipient, amount }`
/// as `cosmwasm_std::to_json_binary` produces them, or `None` where it reports
/// an error.
pub uninterp spec fn cw20_transfer_from_json(
    owner: Seq<char>,
    recipient: Seq<char>,
    amount: nat,
) -> Option<Seq<u8>>;

/// The encoded request to push the margin of the policy `id` to its buyer.
pub open spec fn margin_transfer_json(pre: LedgerView, id: Seq<char>) -> Option<Seq<u8>> {
    match pre.get(id) {
        Some(info) => cw20_transfer_json(info.buyer, info.margin),
        None => None,
    }
}

/// The encoded request to push the claim amount of the policy `id` to its
/// buyer.
pub open spec fn claim_transfer_json(pre: LedgerView, id: Seq<char>) -> Option<Seq<u8>> {
    match pre.get(id) {
        Some(info) => cw20_transfer_json(info.buyer, info.claim_amount),
        None => None,
    }
}

/// The encoded request to the token contract that goes with `msg`: to pull
/// the margin from the caller into the ledger's own account at
/// `contract_address` for a new policy, to push a margin or a claim amount
/// to the buyer for a settlement, and none for the other requests.
pub open spec fn request_json(
    pre: LedgerView,
    contract_address: Seq<char>,
    sender: Seq<char>,
    msg: ExecuteMsg,
) -> Option<Seq<u8>> {
    match msg {
        ExecuteMsg::CreateInsurance { id_insurance, margin } => cw20_transfer_from_json(
            sender,
            contract_address,
            margin as nat,
        ),
        ExecuteMsg::UpdateInvalidInsurance { id_insurance } => margin_transfer_json(
            pre,
            id_insurance@,
        ),
        ExecuteMsg::RefundInsurance { id_insurance } => margin_transfer_json(pre, id_insurance@),
        ExecuteMsg::CancelInsurance { id_insurance } => margin_transfer_json(pre, id_insurance@),
        ExecuteMsg::ClaimInsurance { id_insurance } => claim_transfer_json(pre, id_insurance@),
        _ => None,
    }
}

/// Calls `cosmwasm_std::to_json_binary` on a `Cw20ExecuteMsg::Transfer`.
///
/// Trusted: the encoding depends on the recipient and the amount alone, so
/// the outcome is the one that `cw20_transfer_json` names. When the call
/// succeeds is not claimed.
#[verifier::external_body]
pub(crate) fn encode_transfer(recipient: &String, amount: u128) -> (r: Result<
    Vec<u8>,
    cosmwasm_std::StdError,
>)
    ensures
        match r {
            Ok(bytes) => cw20_transfer_json(recipient@, amount as nat) == Some(bytes@),
            Err(_) => cw20_transfer_json(recipient@, amount as nat) is None,
        },
{
    let msg = cw20::Cw20ExecuteMsg::Transfer {
        recipient: recipient.clone(),
        amount: cosmwasm_std::Uint128::new(amount),
    };
    match cosmwasm_std::to_json_binary(&msg) {
        Ok(binary) => Ok(binary.0),
        Err(e) => Err(e),
    }
}

/// Calls `cosmwasm_std::to_json_binary` on a `Cw20ExecuteMsg::TransferFrom`.
///
/// Trusted: the encoding depends on the owner, the recipient and the amount
/// alone, so the outcome is the one that `cw20_transfer_from_json` names.
/// When the call succeeds is not claimed.
#[verifier::external_body]
pub(crate) fn encode_transfer_from(owner: &String, recipient: &String, amount: u128) -> (r: Result<
    Vec<u8>,
    cosmwasm_std::StdError,
>)
    ensures
        match r {
            Ok(bytes) => cw20_transfer_from_json(owner@, recipient@, amount as nat) == Some(bytes@),
            Err(_) => cw20_transfer_from_json(owner@, recipient@, amount as nat) is None,
        },
{
    let msg = cw20::Cw20ExecuteMsg::TransferFrom {
        owner: owner.clone(),
        recipient: recipient.clone(),
        amount: cosmwasm_std::Uint128::new(amount),
    };
    match cosmwasm_std::to_json_binary(&msg) {
        Ok(binary) => Ok(binary.0),
        Err(e) => Err(e),
    }
}

} // verus!

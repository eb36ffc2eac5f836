//! The policy state machine: what each request makes of a ledger.
//!
//! Every function here is a specification. It takes the ledger before the
//! request and gives the [`Outcome`]: the ledger after it with the response,
//! or the error with which the request is refused. The operations that run
//! on a [`crate::ledger::Ledger`] are proved to do what these functions say.
//!
//! No transition looks at the state that a policy is in: a moderator may, for
//! one, expire a policy that was already claimed.

use vstd::prelude::*;

use crate::error::ContractError;
use crate::ledger::LedgerView;
use crate::msg::ExecuteMsg;
use crate::response::{AttributeView, EventView, Response, ResponseView, WasmMsgView};
use crate::state::{InsuranceState, InsuranceType, InsuranceView, VaultView};
use crate::text::decimal_text;

verus! {

/// What a request comes to: the next ledger and the response, or the error.
pub type Outcome = Result<(LedgerView, ResponseView), ContractError>;

/// Whether an operation that ran on `pre`, left `post` and returned `r` did
/// what `outcome` says. After an error the ledger is as it was.
pub open spec fn agrees(
    r: Result<Response, ContractError>,
    post: LedgerView,
    pre: LedgerView,
    outcome: Outcome,
) -> bool {
    match outcome {
        Ok((next, response)) => r matches Ok(given) && given@ == response && post == next,
        Err(error) => r matches Err(given) && given == error && post == pre,
    }
}

/// Atomicity: an operation that returns an error was refused, and has left
/// the ledger as it was.
pub proof fn lemma_refused_changes_nothing(
    r: Result<Response, ContractError>,
    post: LedgerView,
    pre: LedgerView,
    outcome: Outcome,
)
    requires
        agrees(r, post, pre, outcome),
    ensures
        r is Err <==> outcome is Err,
        r is Err ==> post == pre,
{
}

/// The record of a policy that an operation emits.
pub open spec fn insurance_event(
    id: Seq<char>,
    info: InsuranceView,
    event_type: InsuranceType,
) -> EventView {
    EventView {
        ty: "EInsurance"@,
        attributes: seq![
            AttributeView { key: "id_insurance"@, value: id },
            AttributeView { key: "buyer"@, value: info.buyer },
            AttributeView { key: "margin"@, value: decimal_text(info.margin) },
            AttributeView { key: "claim_amount"@, value: decimal_text(info.claim_amount) },
            AttributeView { key: "expired_time"@, value: decimal_text(info.expired_time as nat) },
            AttributeView { key: "open_time"@, value: decimal_text(info.open_time as nat) },
            AttributeView { key: "state"@, value: info.state.label() },
            AttributeView { key: "event_type"@, value: event_type.label() },
        ],
    }
}

/// The response of an operation on a policy: its event, and nothing else.
pub open spec fn insurance_response(
    id: Seq<char>,
    info: InsuranceView,
    event_type: InsuranceType,
) -> ResponseView {
    ResponseView::empty().add_event(insurance_event(id, info, event_type))
}

/// The response of an operation on a policy that moves tokens: its event,
/// and the encoded request for the token contract.
pub open spec fn transfer_response(
    id: Seq<char>,
    info: InsuranceView,
    event_type: InsuranceType,
    token_contract: Seq<char>,
    wire: Seq<u8>,
) -> ResponseView {
    insurance_response(id, info, event_type).add_message(
        WasmMsgView::Execute { contract_addr: token_contract, msg: wire },
    )
}

/// The error with which `sender` is turned away from an operation that is
/// served to moderators only, if it is: `NotFound` without a moderator
/// record, `Unauthorized` if the record does not list `sender`.
pub open spec fn refusal(pre: LedgerView, sender: Seq<char>) -> Option<ContractError> {
    match pre.moderators {
        None => Some(ContractError::NotFound),
        Some(roster) => if roster.contains(sender) {
            None
        } else {
            Some(ContractError::Unauthorized)
        },
    }
}

/// The test that a member of the roster is someone else than `target`.
pub open spec fn other_than(target: Seq<char>) -> spec_fn(Seq<char>) -> bool {
    |member: Seq<char>| member != target
}

/// The roster without any occurrence of `target`.
pub open spec fn without(roster: Seq<Seq<char>>, target: Seq<char>) -> Seq<Seq<char>> {
    roster.filter(other_than(target))
}

/// Removing `target` from a roster with one more member at its end keeps
/// that member unless it is the target.
pub proof fn lemma_without_push(roster: Seq<Seq<char>>, member: Seq<char>, target: Seq<char>)
    ensures
        without(roster.push(member), target) == if member != target {
            without(roster, target).push(member)
        } else {
            without(roster, target)
        },
{
    roster.lemma_filter_push(member, other_than(target));
}

/// Setting up: the vault is empty, and the caller is the only moderator.
pub open spec fn instantiate_outcome(
    pre: LedgerView,
    sender: Seq<char>,
    token_address: Seq<char>,
) -> Outcome {
    Ok(
        (
            LedgerView {
                vault: Some(VaultView::empty(token_address)),
                moderators: Some(seq![sender]),
                insurances: pre.insurances,
            },
            ResponseView::method("instantiate"@),
        ),
    )
}

/// Adding a moderator: the roster gets `new_moderator` at its end, unless it
/// is listed already.
pub open spec fn add_moderator_outcome(
    pre: LedgerView,
    sender: Seq<char>,
    new_moderator: Seq<char>,
) -> Outcome {
    match refusal(pre, sender) {
        Some(error) => Err(error),
        None => {
            let roster = pre.moderators.unwrap();
            let next = if roster.contains(new_moderator) {
                pre
            } else {
                pre.with_moderators(roster.push(new_moderator))
            };
            Ok((next, ResponseView::method("add_moderator"@)))
        },
    }
}

/// Removing a moderator: the roster loses every occurrence of the target.
/// Nothing keeps a moderator from removing itself, or the last one.
pub open spec fn delete_moderator_outcome(
    pre: LedgerView,
    sender: Seq<char>,
    moderator_to_remove: Seq<char>,
) -> Outcome {
    match refusal(pre, sender) {
        Some(error) => Err(error),
        None => {
            let roster = pre.moderators.unwrap();
            let next = if roster.contains(moderator_to_remove) {
                pre.with_moderators(without(roster, moderator_to_remove))
            } else {
                pre
            };
            Ok((next, ResponseView::method("delete_moderator"@)))
        },
    }
}

/// Creating a policy. Anyone may do so. The policy starts `PENDING` with the
/// margin that its buyer deposits, the margin pool grows by that margin, and
/// the response asks the token contract to pull it from the buyer.
///
/// `wire` is the encoded request to the token contract, `None` if it could
/// not be encoded.
pub open spec fn create_outcome(
    pre: LedgerView,
    now: u64,
    sender: Seq<char>,
    id: Seq<char>,
    margin: nat,
    wire: Option<Seq<u8>>,
) -> Outcome {
    if pre.holds(id) {
        Err(ContractError::AlreadyExistsInsurance)
    } else if pre.vault is None {
        Err(ContractError::NotFound)
    } else if wire is None {
        Err(ContractError::Malformed)
    } else {
        let vault = pre.vault.unwrap();
        let info = InsuranceView::opened(sender, margin, now);
        Ok(
            (
                pre.put(id, info).with_vault(
                    VaultView { margin_pool: vault.margin_pool + margin, ..vault },
                ),
                transfer_response(
                    id,
                    info,
                    InsuranceType::CREATED,
                    vault.contract_addr,
                    wire.unwrap(),
                ),
            ),
        )
    }
}

/// Whether the margin pool can take the margin of the policy that is to be
/// created: the one thing that creating a policy asks of its caller. The
/// pool of a store is in range ([`crate::ledger::Ledger::lemma_in_range`]),
/// so it can always take a margin of zero.
pub open spec fn create_fits(pre: LedgerView, id: Seq<char>, margin: nat) -> bool {
    !pre.holds(id) && pre.vault is Some ==> pre.vault.unwrap().margin_pool + margin <= u128::MAX
}

/// Making a policy available: the policy becomes `AVAILABLE` with the given
/// claim amount and expiry, and the claim pool grows by the claim amount.
pub open spec fn update_available_outcome(
    pre: LedgerView,
    sender: Seq<char>,
    id: Seq<char>,
    claim_amount: nat,
    expired_time: u64,
) -> Outcome {
    match refusal(pre, sender) {
        Some(error) => Err(error),
        None => if pre.vault is None || pre.get(id) is None {
            Err(ContractError::NotFound)
        } else {
            let vault = pre.vault.unwrap();
            let info = InsuranceView {
                state: InsuranceState::AVAILABLE,
                claim_amount,
                expired_time,
                ..pre.get(id).unwrap()
            };
            Ok(
                (
                    pre.put(id, info).with_vault(
                        VaultView { claim_pool: vault.claim_pool + claim_amount, ..vault },
                    ),
                    insurance_response(id, info, InsuranceType::UPDATEAVAILABLE),
                ),
            )
        },
    }
}

/// Whether the claim pool can take the claim amount that is to be granted:
/// the one thing that making a policy available asks of its caller.
pub open spec fn update_available_fits(
    pre: LedgerView,
    sender: Seq<char>,
    id: Seq<char>,
    claim_amount: nat,
) -> bool {
    refusal(pre, sender) is None && pre.vault is Some && pre.get(id) is Some
        ==> pre.vault.unwrap().claim_pool + claim_amount <= u128::MAX
}

/// Paying a policy's margin back: the policy goes to `state` with no margin
/// left, the margin pool shrinks by the margin, and the response asks the
/// token contract to push the margin to the buyer. It is `Underflow` if the
/// pool holds less than the margin.
///
/// This is what invalidating, refunding and cancelling do; they differ in
/// `state` and `event_type`. `wire` is the encoded request to the token
/// contract, `None` if it could not be encoded.
pub open spec fn settle_margin_outcome(
    pre: LedgerView,
    sender: Seq<char>,
    id: Seq<char>,
    state: InsuranceState,
    event_type: InsuranceType,
    wire: Option<Seq<u8>>,
) -> Outcome {
    match refusal(pre, sender) {
        Some(error) => Err(error),
        None => if pre.vault is None || pre.get(id) is None {
            Err(ContractError::NotFound)
        } else if pre.get(id).unwrap().margin > pre.vault.unwrap().margin_pool {
            Err(ContractError::Underflow)
        } else if wire is None {
            Err(ContractError::Malformed)
        } else {
            let vault = pre.vault.unwrap();
            let before = pre.get(id).unwrap();
            let info = InsuranceView { state, margin: 0, ..before };
            Ok(
                (
                    pre.put(id, info).with_vault(
                        VaultView {
                            margin_pool: (vault.margin_pool - before.margin) as nat,
                            ..vault
                        },
                    ),
                    transfer_response(id, info, event_type, vault.contract_addr, wire.unwrap()),
                ),
            )
        },
    }
}

/// Paying a policy's claim out: the policy becomes `CLAIMED` with no claim
/// amount left, the claim pool shrinks by the claim amount, and the response
/// asks the token contract to push the claim amount to the buyer. It is
/// `Underflow` if the pool holds less than the claim amount.
///
/// `wire` is the encoded request to the token contract, `None` if it could
/// not be encoded.
pub open spec fn claim_outcome(
    pre: LedgerView,
    sender: Seq<char>,
    id: Seq<char>,
    wire: Option<Seq<u8>>,
) -> Outcome {
    match refusal(pre, sender) {
        Some(error) => Err(error),
        None => if pre.vault is None || pre.get(id) is None {
            Err(ContractError::NotFound)
        } else if pre.get(id).unwrap().claim_amount > pre.vault.unwrap().claim_pool {
            Err(ContractError::Underflow)
        } else if wire is None {
            Err(ContractError::Malformed)
        } else {
            let vault = pre.vault.unwrap();
            let before = pre.get(id).unwrap();
            let info = InsuranceView { state: InsuranceState::CLAIMED, claim_amount: 0, ..before };
            Ok(
                (
                    pre.put(id, info).with_vault(
                        VaultView {
                            claim_pool: (vault.claim_pool - before.claim_amount) as nat,
                            ..vault
                        },
                    ),
                    transfer_response(
                        id,
                        info,
                        InsuranceType::CLAIM,
                        vault.contract_addr,
                        wire.unwrap(),
                    ),
                ),
            )
        },
    }
}

/// Closing a policy without moving anything: the policy goes to `state`, and
/// the vault is neither read nor written.
///
/// This is what expiring and liquidating do; they differ in `state` and
/// `event_type`.
pub open spec fn close_outcome(
    pre: LedgerView,
    sender: Seq<char>,
    id: Seq<char>,
    state: InsuranceState,
    event_type: InsuranceType,
) -> Outcome {
    match refusal(pre, sender) {
        Some(error) => Err(error),
        None => match pre.get(id) {
            None => Err(ContractError::NotFound),
            Some(before) => {
                let info = InsuranceView { state, ..before };
                Ok((pre.put(id, info), insurance_response(id, info, event_type)))
            },
        },
    }
}

/// What a request makes of the ledger, at the time `now` and for the caller
/// `sender`.
///
/// `wire` is the encoded request to the token contract that goes with `msg`,
/// `None` if it could not be encoded; requests that move no tokens do not
/// look at it.
pub open spec fn step(
    pre: LedgerView,
    now: u64,
    sender: Seq<char>,
    msg: ExecuteMsg,
    wire: Option<Seq<u8>>,
) -> Outcome {
    match msg {
        ExecuteMsg::AddModerator { new_moderator } => add_moderator_outcome(
            pre,
            sender,
            new_moderator@,
        ),
        ExecuteMsg::DeleteModerator { moderator_to_remove } => delete_moderator_outcome(
            pre,
            sender,
            moderator_to_remove@,
        ),
        ExecuteMsg::CreateInsurance { id_insurance, margin } => create_outcome(
            pre,
            now,
            sender,
            id_insurance@,
            margin as nat,
            wire,
        ),
        ExecuteMsg::UpdateAvailableInsurance {
            id_insurance,
            claim_amount,
            expired_time,
        } => update_available_outcome(
            pre,
            sender,
            id_insurance@,
            claim_amount as nat,
            expired_time,
        ),
        ExecuteMsg::UpdateInvalidInsurance { id_insurance } => settle_margin_outcome(
            pre,
            sender,
            id_insurance@,
            InsuranceState::INVALID,
            InsuranceType::UPDATEINVALID,
            wire,
        ),
        ExecuteMsg::ClaimInsurance { id_insurance } => claim_outcome(
            pre,
            sender,
            id_insurance@,
            wire,
        ),
        ExecuteMsg::RefundInsurance { id_insurance } => settle_margin_outcome(
            pre,
            sender,
            id_insurance@,
            InsuranceState::REFUNDED,
            InsuranceType::REFUND,
            wire,
        ),
        ExecuteMsg::CancelInsurance { id_insurance } => settle_margin_outcome(
            pre,
            sender,
            id_insurance@,
            InsuranceState::CANCELED,
            InsuranceType::CANCEL,
            wire,
        ),
        ExecuteMsg::ExpireInsurance { id_insurance } => close_outcome(
            pre,
            sender,
            id_insurance@,
            InsuranceState::EXPIRED,
            InsuranceType::EXPIRED,
        ),
        ExecuteMsg::LiquidateInsurance { id_insurance } => close_outcome(
            pre,
            sender,
            id_insurance@,
            InsuranceState::LIQUIDATED,
            InsuranceType::LIQUIDATED,
        ),
    }
}

/// Whether the pools can take what `msg` adds to them: the one thing that a
/// request asks of its caller.
pub open spec fn step_fits(pre: LedgerView, sender: Seq<char>, msg: ExecuteMsg) -> bool {
    match msg {
        ExecuteMsg::CreateInsurance { id_insurance, margin } => create_fits(
            pre,
            id_insurance@,
            margin as nat,
        ),
        ExecuteMsg::UpdateAvailableInsurance {
            id_insurance,
            claim_amount,
            ..
        } => update_available_fits(pre, sender, id_insurance@, claim_amount as nat),
        _ => true,
    }
}

} // verus!

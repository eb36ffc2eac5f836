//! What holds of the state machine as a whole.
//!
//! The laws speak of [`crate::machine::step`], which every operation on a
//! ledger is proved to follow, and they hold whatever encoding the request
//! to the token contract came to.

use vstd::prelude::*;

use crate::error::ContractError;
use crate::ledger::LedgerView;
use crate::machine::{
    add_moderator_outcome, delete_moderator_outcome, instantiate_outcome,
    lemma_without_push, refusal, step, without,
};
use crate::msg::ExecuteMsg;
use crate::response::ResponseView;
use crate::state::{InsuranceState, InsuranceView};

verus! {

/// The requests that throw the claim pool out of step with the policies.
///
/// Paying a claim out takes the policy's claim amount from the pool whatever
/// state the policy is in, so it does so for a policy that is not
/// `AVAILABLE` and still has a claim amount. Every other transition of an
/// existing policy takes the policy out of the sum, or enters it anew, and
/// takes nothing from the pool, so it does so for a policy that is
/// `AVAILABLE` with a claim amount.
pub open spec fn unsettles_claims(pre: LedgerView, msg: ExecuteMsg) -> bool {
    match msg {
        ExecuteMsg::AddModerator { .. } => false,
        ExecuteMsg::DeleteModerator { .. } => false,
        ExecuteMsg::CreateInsurance { .. } => false,
        ExecuteMsg::ClaimInsurance { id_insurance } => pre.get(id_insurance@) matches Some(info)
            && info.state != InsuranceState::AVAILABLE && info.claim_amount > 0,
        _ => pre.get(msg.subject().unwrap()) matches Some(info) && info.claim_due() > 0,
    }
}

/// The policy that a request about a policy writes under the id that it
/// names, if the request is served.
pub open spec fn written(
    pre: LedgerView,
    now: u64,
    sender: Seq<char>,
    msg: ExecuteMsg,
) -> InsuranceView {
    let before = pre.get(msg.subject().unwrap()).unwrap();
    match msg {
        ExecuteMsg::CreateInsurance { margin, .. } => InsuranceView::opened(
            sender,
            margin as nat,
            now,
        ),
        ExecuteMsg::UpdateAvailableInsurance {
            claim_amount,
            expired_time,
            ..
        } => InsuranceView {
            state: InsuranceState::AVAILABLE,
            claim_amount: claim_amount as nat,
            expired_time,
            ..before
        },
        ExecuteMsg::UpdateInvalidInsurance { .. } => InsuranceView {
            state: InsuranceState::INVALID,
            margin: 0,
            ..before
        },
        ExecuteMsg::ClaimInsurance { .. } => InsuranceView {
            state: InsuranceState::CLAIMED,
            claim_amount: 0,
            ..before
        },
        ExecuteMsg::RefundInsurance { .. } => InsuranceView {
            state: InsuranceState::REFUNDED,
            margin: 0,
            ..before
        },
        ExecuteMsg::CancelInsurance { .. } => InsuranceView {
            state: InsuranceState::CANCELED,
            margin: 0,
            ..before
        },
        ExecuteMsg::ExpireInsurance { .. } => InsuranceView {
            state: InsuranceState::EXPIRED,
            ..before
        },
        ExecuteMsg::LiquidateInsurance { .. } => InsuranceView {
            state: InsuranceState::LIQUIDATED,
            ..before
        },
        _ => before,
    }
}

/// Locality: a request that is served writes at most one policy, the one
/// under the id that it names, and leaves all others as they are and where
/// they are. A request to change the roster writes no policy.
pub proof fn lemma_step_is_local(
    pre: LedgerView,
    now: u64,
    sender: Seq<char>,
    msg: ExecuteMsg,
    wire: Option<Seq<u8>>,
)
    requires
        step(pre, now, sender, msg, wire) is Ok,
    ensures
        step(pre, now, sender, msg, wire).unwrap().0.insurances == match msg.subject() {
            Some(id) => pre.put(id, written(pre, now, sender, msg)).insurances,
            None => pre.insurances,
        },
{
}

/// Reading after writing: after a request that is served, the policy under
/// the id that it names is the one that it wrote, and the policy under any
/// other id is the one that was there before, or still none.
pub proof fn lemma_step_then_get(
    pre: LedgerView,
    now: u64,
    sender: Seq<char>,
    msg: ExecuteMsg,
    wire: Option<Seq<u8>>,
    other: Seq<char>,
)
    requires
        pre.unique_ids(),
        step(pre, now, sender, msg, wire) is Ok,
    ensures
        ({
            let post = step(pre, now, sender, msg, wire).unwrap().0;
            match msg.subject() {
                Some(id) => {
                    &&& post.get(id) == Some(written(pre, now, sender, msg))
                    &&& other != id ==> post.get(other) == pre.get(other)
                },
                None => post.get(other) == pre.get(other),
            }
        }),
        pre.holds(other) ==> step(pre, now, sender, msg, wire).unwrap().0.holds(other),
{
    lemma_step_is_local(pre, now, sender, msg, wire);
    if msg.subject() is Some {
        pre.lemma_put_get(msg.subject().unwrap(), written(pre, now, sender, msg), other);
    }
}

/// What no transition touches: a policy keeps its buyer, the time at which
/// it was created and its reserved flag for good, and a policy is created
/// for the caller, at the time of the call, with the flag set.
pub proof fn lemma_step_keeps_policy_identity(
    pre: LedgerView,
    now: u64,
    sender: Seq<char>,
    msg: ExecuteMsg,
    wire: Option<Seq<u8>>,
)
    requires
        pre.unique_ids(),
        msg.subject() is Some,
        step(pre, now, sender, msg, wire) is Ok,
    ensures
        ({
            let id = msg.subject().unwrap();
            let after = step(pre, now, sender, msg, wire).unwrap().0.get(id).unwrap();
            match pre.get(id) {
                Some(before) => {
                    &&& after.buyer == before.buyer
                    &&& after.open_time == before.open_time
                    &&& after.valid == before.valid
                },
                None => {
                    &&& msg is CreateInsurance
                    &&& after.buyer == sender
                    &&& after.open_time == now
                    &&& after.valid
                },
            }
        }),
{
    lemma_step_then_get(pre, now, sender, msg, wire, msg.subject().unwrap());
}

/// Reconciliation of the margin pool: if the margin pool equals the margin
/// held over all policies, it still does after any request that is served.
pub proof fn lemma_step_keeps_margin_reconciled(
    pre: LedgerView,
    now: u64,
    sender: Seq<char>,
    msg: ExecuteMsg,
    wire: Option<Seq<u8>>,
)
    requires
        pre.margin_reconciled(),
        step(pre, now, sender, msg, wire) is Ok,
    ensures
        step(pre, now, sender, msg, wire).unwrap().0.margin_reconciled(),
{
    lemma_step_is_local(pre, now, sender, msg, wire);
    if msg.subject() is Some {
        pre.lemma_put_totals(msg.subject().unwrap(), written(pre, now, sender, msg));
    }
}

/// Reconciliation of the claim pool: if the claim pool equals the claim
/// amounts of the policies that are `AVAILABLE`, then after a request that
/// is served it still does, unless the request is one of those that
/// [`unsettles_claims`] lists; after one of those it does not.
pub proof fn lemma_step_keeps_claim_reconciled(
    pre: LedgerView,
    now: u64,
    sender: Seq<char>,
    msg: ExecuteMsg,
    wire: Option<Seq<u8>>,
)
    requires
        pre.claim_reconciled(),
        step(pre, now, sender, msg, wire) is Ok,
    ensures
        step(pre, now, sender, msg, wire).unwrap().0.claim_reconciled() <==> !unsettles_claims(
            pre,
            msg,
        ),
{
    lemma_step_is_local(pre, now, sender, msg, wire);
    if msg.subject() is Some {
        let id = msg.subject().unwrap();
        pre.lemma_put_totals(id, written(pre, now, sender, msg));
        if pre.holds(id) {
            pre.lemma_share_within_total(id);
        }
    }
}

/// What no request touches: the vault keeps its token contract and its two
/// reserved funds, and no request makes or removes the vault record or the
/// moderator record. Only setting the ledger up writes these.
pub proof fn lemma_step_keeps_vault_frame(
    pre: LedgerView,
    now: u64,
    sender: Seq<char>,
    msg: ExecuteMsg,
    wire: Option<Seq<u8>>,
)
    requires
        step(pre, now, sender, msg, wire) is Ok,
    ensures
        ({
            let post = step(pre, now, sender, msg, wire).unwrap().0;
            &&& post.moderators is Some <==> pre.moderators is Some
            &&& match pre.vault {
                Some(before) => post.vault matches Some(after) && after.contract_addr
                    == before.contract_addr && after.hakifi_fund == before.hakifi_fund
                    && after.third_party_fund == before.third_party_fund,
                None => post.vault is None,
            }
        }),
{
}

/// Unique ids: if no two policies share an id, none do after a request
/// that is served.
pub proof fn lemma_step_keeps_ids_unique(
    pre: LedgerView,
    now: u64,
    sender: Seq<char>,
    msg: ExecuteMsg,
    wire: Option<Seq<u8>>,
)
    requires
        pre.unique_ids(),
        step(pre, now, sender, msg, wire) is Ok,
    ensures
        step(pre, now, sender, msg, wire).unwrap().0.unique_ids(),
{
    lemma_step_is_local(pre, now, sender, msg, wire);
    if msg.subject() is Some {
        let id = msg.subject().unwrap();
        pre.lemma_put_get(id, written(pre, now, sender, msg), id);
    }
}

/// Setting up: a ledger that was reconciled, and whose pools were empty if
/// it had a vault at all, is reconciled once it is set up. A ledger to which
/// nothing was written is such a ledger.
pub proof fn lemma_instantiate_reconciled(
    pre: LedgerView,
    sender: Seq<char>,
    token_address: Seq<char>,
)
    requires
        pre.reconciled(),
        pre.vault matches Some(vault) ==> vault.margin_pool == 0 && vault.claim_pool == 0,
    ensures
        instantiate_outcome(pre, sender, token_address).unwrap().0.reconciled(),
        LedgerView::empty().reconciled(),
        LedgerView::empty().unique_ids(),
{
}

/// Authorization: a request that is served to moderators only, made by
/// someone whom the roster does not list, is `Unauthorized`. Like every
/// refused request it leaves the ledger as it was.
pub proof fn lemma_moderated_requests_need_a_moderator(
    pre: LedgerView,
    now: u64,
    sender: Seq<char>,
    msg: ExecuteMsg,
    wire: Option<Seq<u8>>,
)
    requires
        msg.is_moderated(),
        pre.moderators is Some,
        !pre.is_moderator(sender),
    ensures
        step(pre, now, sender, msg, wire) == Err::<(LedgerView, ResponseView), _>(
            ContractError::Unauthorized,
        ),
{
}

/// What removing a member from a roster comes to: the member is no longer
/// listed, every other member is listed just if it was, a roster that did
/// not list the member is left as it was, and a roster without duplicates
/// stays without.
pub proof fn lemma_without(roster: Seq<Seq<char>>, target: Seq<char>)
    ensures
        !without(roster, target).contains(target),
        forall|member: Seq<char>|
            member != target ==> (#[trigger] without(roster, target).contains(member)
                <==> roster.contains(member)),
        !roster.contains(target) ==> without(roster, target) == roster,
        roster.no_duplicates() ==> without(roster, target).no_duplicates(),
    decreases roster.len(),
{
    broadcast use vstd::seq_lib::group_seq_properties;

    if roster.len() == 0 {
        roster.lemma_filter_len(crate::machine::other_than(target));
    } else {
        let rest = roster.drop_last();
        let last = roster.last();
        assert(roster =~= rest.push(last));
        lemma_without(rest, target);
        lemma_without_push(rest, last, target);
        let kept = without(rest, target);
        assert forall|member: Seq<char>| member != target implies (#[trigger] without(
            roster,
            target,
        ).contains(member) <==> roster.contains(member)) by {
            if last != target {
                assert(kept.push(last).contains(member) <==> (kept.contains(member) || member
                    == last)) by {
                    lemma_contains_push(kept, last, member);
                }
            }
            lemma_contains_push(rest, last, member);
        }
        lemma_contains_push(rest, last, target);
        if last != target {
            lemma_contains_push(kept, last, target);
        }
        if roster.no_duplicates() && last != target {
            assert(!rest.contains(last));
            assert(!kept.contains(last));
        }
    }
}

/// A roster with one more member lists that member and whom it listed.
pub proof fn lemma_contains_push(roster: Seq<Seq<char>>, last: Seq<char>, member: Seq<char>)
    ensures
        roster.push(last).contains(member) <==> (roster.contains(member) || member == last),
{
    let longer = roster.push(last);
    if roster.contains(member) {
        let i = choose|i: int| 0 <= i < roster.len() && roster[i] == member;
        assert(longer[i] == member);
    }
    if member == last {
        assert(longer[roster.len() as int] == member);
    }
}

/// Adding a moderator twice: the second call is served and leaves the
/// roster as the first call left it.
pub proof fn lemma_add_moderator_twice(
    pre: LedgerView,
    sender: Seq<char>,
    new_moderator: Seq<char>,
)
    requires
        add_moderator_outcome(pre, sender, new_moderator) is Ok,
    ensures
        ({
            let once = add_moderator_outcome(pre, sender, new_moderator).unwrap();
            add_moderator_outcome(once.0, sender, new_moderator) == Ok::<_, ContractError>(once)
        }),
        add_moderator_outcome(pre, sender, new_moderator).unwrap().0.is_moderator(new_moderator),
{
    let roster = pre.moderators.unwrap();
    lemma_contains_push(roster, new_moderator, new_moderator);
    lemma_contains_push(roster, new_moderator, sender);
}

/// Removing someone who is not a moderator: the call is served to a
/// moderator and leaves the ledger as it was.
pub proof fn lemma_delete_absent_moderator(
    pre: LedgerView,
    sender: Seq<char>,
    moderator_to_remove: Seq<char>,
)
    requires
        pre.is_moderator(sender),
        !pre.is_moderator(moderator_to_remove),
    ensures
        delete_moderator_outcome(pre, sender, moderator_to_remove) matches Ok((post, _)) && post
            == pre,
{
}

/// Removing a moderator: it is no longer one afterwards, whoever else was
/// one still is, and nobody has become one.
pub proof fn lemma_delete_moderator_removes(
    pre: LedgerView,
    sender: Seq<char>,
    moderator_to_remove: Seq<char>,
    other: Seq<char>,
)
    requires
        delete_moderator_outcome(pre, sender, moderator_to_remove) is Ok,
    ensures
        ({
            let post = delete_moderator_outcome(pre, sender, moderator_to_remove).unwrap().0;
            &&& !post.is_moderator(moderator_to_remove)
            &&& other != moderator_to_remove ==> (post.is_moderator(other) <==> pre.is_moderator(
                other,
            ))
        }),
{
    lemma_without(pre.moderators.unwrap(), moderator_to_remove);
}

/// The roster lists nobody twice: a roster without duplicates has none after
/// a request that is served, and the roster of a ledger that was just set up
/// has none.
pub proof fn lemma_roster_stays_without_duplicates(
    pre: LedgerView,
    now: u64,
    sender: Seq<char>,
    msg: ExecuteMsg,
    wire: Option<Seq<u8>>,
    token_address: Seq<char>,
)
    requires
        pre.moderators matches Some(roster) && roster.no_duplicates(),
        step(pre, now, sender, msg, wire) is Ok,
    ensures
        step(pre, now, sender, msg, wire).unwrap().0.moderators matches Some(roster)
            && roster.no_duplicates(),
        instantiate_outcome(pre, sender, token_address).unwrap().0.moderators matches Some(roster)
            && roster.no_duplicates(),
{
    if let ExecuteMsg::DeleteModerator { moderator_to_remove } = msg {
        lemma_without(pre.moderators.unwrap(), moderator_to_remove@);
    }
}

/// The underflow guard for margins: paying a margin back is `Underflow`, and
/// changes nothing, just when the margin pool holds less than the policy's
/// margin. When it is served, the pool shrinks by exactly that margin and
/// the policy has none left; for a policy without margin, the pool stays as
/// it was.
pub proof fn lemma_margin_settlement_is_covered(
    pre: LedgerView,
    now: u64,
    sender: Seq<char>,
    msg: ExecuteMsg,
    wire: Option<Seq<u8>>,
)
    requires
        pre.unique_ids(),
        msg is UpdateInvalidInsurance || msg is RefundInsurance || msg is CancelInsurance,
        refusal(pre, sender) is None,
        pre.vault is Some,
        pre.get(msg.subject().unwrap()) is Some,
    ensures
        ({
            let id = msg.subject().unwrap();
            let margin = pre.get(id).unwrap().margin;
            let pool = pre.vault.unwrap().margin_pool;
            let outcome = step(pre, now, sender, msg, wire);
            &&& outcome == Err::<(LedgerView, ResponseView), _>(ContractError::Underflow)
                <==> margin > pool
            &&& outcome matches Ok((post, _)) ==> {
                &&& post.vault.unwrap().margin_pool + margin == pool
                &&& post.get(id).unwrap().margin == 0
            }
        }),
{
    let id = msg.subject().unwrap();
    pre.lemma_put_get(id, written(pre, now, sender, msg), id);
}

/// The underflow guard for claims: paying a claim out is `Underflow`, and
/// changes nothing, just when the claim pool holds less than the policy's
/// claim amount. When it is served, the pool shrinks by exactly that amount
/// and the policy has no claim amount left.
pub proof fn lemma_claim_settlement_is_covered(
    pre: LedgerView,
    now: u64,
    sender: Seq<char>,
    msg: ExecuteMsg,
    wire: Option<Seq<u8>>,
)
    requires
        pre.unique_ids(),
        msg is ClaimInsurance,
        refusal(pre, sender) is None,
        pre.vault is Some,
        pre.get(msg.subject().unwrap()) is Some,
    ensures
        ({
            let id = msg.subject().unwrap();
            let claim_amount = pre.get(id).unwrap().claim_amount;
            let pool = pre.vault.unwrap().claim_pool;
            let outcome = step(pre, now, sender, msg, wire);
            &&& outcome == Err::<(LedgerView, ResponseView), _>(ContractError::Underflow)
                <==> claim_amount > pool
            &&& outcome matches Ok((post, _)) ==> {
                &&& post.vault.unwrap().claim_pool + claim_amount == pool
                &&& post.get(id).unwrap().claim_amount == 0
            }
        }),
{
    let id = msg.subject().unwrap();
    pre.lemma_put_get(id, written(pre, now, sender, msg), id);
}

/// A reconciled ledger covers every settlement: paying a margin back is
/// never `Underflow` while the margin pool is reconciled, and paying the
/// claim of an `AVAILABLE` policy out is never `Underflow` while the claim
/// pool is.
pub proof fn lemma_reconciled_pools_cover(
    pre: LedgerView,
    now: u64,
    sender: Seq<char>,
    msg: ExecuteMsg,
    wire: Option<Seq<u8>>,
)
    requires
        msg is ClaimInsurance ==> pre.claim_reconciled() && (pre.get(msg.subject().unwrap())
            matches Some(info) ==> info.state == InsuranceState::AVAILABLE),
        !(msg is ClaimInsurance) ==> pre.margin_reconciled(),
    ensures
        step(pre, now, sender, msg, wire) != Err::<(LedgerView, ResponseView), _>(
            ContractError::Underflow,
        ),
{
    if msg.subject() is Some && pre.holds(msg.subject().unwrap()) {
        pre.lemma_share_within_total(msg.subject().unwrap());
    }
}

} // verus!

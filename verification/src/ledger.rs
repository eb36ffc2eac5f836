//! The ledger store: the vault record, the moderator record and the policies
//! by id, with load and save for each.
//!
//! [`LedgerView`] is the mathematical model that every contract of the
//! library speaks of. [`Ledger`] is the store itself. Its records can be read
//! by anyone, but only the operations of the library write them, and no two
//! of its policies ever share an id.

use vstd::prelude::*;

use crate::error::ContractError;
use crate::state::{InsuranceInfor, InsuranceState, InsuranceView, Vault, VaultView};

verus! {

/// A policy under its id.
#[derive(Clone, Debug, PartialEq, Eq)]
pub struct InsuranceEntry {
    pub id: String,
    pub info: InsuranceInfor,
}

/// What an [`InsuranceEntry`] holds.
pub struct EntryView {
    pub id: Seq<char>,
    pub info: InsuranceView,
}

impl View for InsuranceEntry {
    type V = EntryView;

    open spec fn view(&self) -> EntryView {
        EntryView { id: self.id@, info: self.info@ }
    }
}

/// The entries of a vector, in order.
pub open spec fn entry_views(entries: Seq<InsuranceEntry>) -> Seq<EntryView> {
    Seq::new(entries.len(), |i: int| entries[i]@)
}

/// The identities of a vector, in order.
pub open spec fn identity_views(identities: Seq<String>) -> Seq<Seq<char>> {
    Seq::new(identities.len(), |i: int| identities[i]@)
}

/// The sum of a sequence of amounts.
pub open spec fn sum(amounts: Seq<nat>) -> nat
    decreases amounts.len(),
{
    if amounts.len() == 0 {
        0
    } else {
        sum(amounts.drop_last()) + amounts.last()
    }
}

/// The margin of each entry, in order.
pub open spec fn margins(entries: Seq<EntryView>) -> Seq<nat> {
    Seq::new(entries.len(), |i: int| entries[i].info.margin)
}

/// The claim allowance owed for each entry, in order.
pub open spec fn claims_due(entries: Seq<EntryView>) -> Seq<nat> {
    Seq::new(entries.len(), |i: int| entries[i].info.claim_due())
}

/// No two entries share an id.
pub open spec fn ids_unique(entries: Seq<EntryView>) -> bool {
    forall|i: int, j: int|
        0 <= i < j < entries.len() ==> (#[trigger] entries[i]).id != (#[trigger] entries[j]).id
}

/// The state of the ledger as mathematical values.
///
/// A record that has never been written is `None`. The policies stand in the
/// order in which they were created.
pub struct LedgerView {
    pub vault: Option<VaultView>,
    pub moderators: Option<Seq<Seq<char>>>,
    pub insurances: Seq<EntryView>,
}

impl LedgerView {
    /// The ledger before anything was written to it.
    pub open spec fn empty() -> LedgerView {
        LedgerView { vault: None, moderators: None, insurances: Seq::empty() }
    }

    /// No two policies share an id.
    pub open spec fn unique_ids(self) -> bool {
        ids_unique(self.insurances)
    }

    /// Every amount fits in 128 bits.
    pub open spec fn in_range(self) -> bool {
        &&& self.vault matches Some(vault) ==> {
            &&& vault.margin_pool <= u128::MAX
            &&& vault.claim_pool <= u128::MAX
            &&& vault.hakifi_fund <= u128::MAX
            &&& vault.third_party_fund <= u128::MAX
        }
        &&& forall|i: int|
            0 <= i < self.insurances.len() ==> {
                &&& (#[trigger] self.insurances[i]).info.margin <= u128::MAX
                &&& self.insurances[i].info.claim_amount <= u128::MAX
            }
    }

    /// Whether a policy with this id exists.
    pub open spec fn holds(self, id: Seq<char>) -> bool {
        exists|i: int| 0 <= i < self.insurances.len() && (#[trigger] self.insurances[i]).id == id
    }

    /// Where the policy with this id stands, if there is one.
    pub open spec fn slot(self, id: Seq<char>) -> int {
        choose|i: int| 0 <= i < self.insurances.len() && (#[trigger] self.insurances[i]).id == id
    }

    /// The policy with this id.
    pub open spec fn get(self, id: Seq<char>) -> Option<InsuranceView> {
        if self.holds(id) {
            Some(self.insurances[self.slot(id)].info)
        } else {
            None
        }
    }

    /// The ledger with `info` as the policy under `id`: in the place of the
    /// policy that had this id, or after all others if there was none.
    pub open spec fn put(self, id: Seq<char>, info: InsuranceView) -> LedgerView {
        LedgerView {
            insurances: if self.holds(id) {
                self.insurances.update(self.slot(id), EntryView { id, info })
            } else {
                self.insurances.push(EntryView { id, info })
            },
            ..self
        }
    }

    /// The ledger with another vault record.
    pub open spec fn with_vault(self, vault: VaultView) -> LedgerView {
        LedgerView { vault: Some(vault), ..self }
    }

    /// The ledger with another moderator record.
    pub open spec fn with_moderators(self, moderators: Seq<Seq<char>>) -> LedgerView {
        LedgerView { moderators: Some(moderators), ..self }
    }

    /// Whether `who` is on the moderator record.
    pub open spec fn is_moderator(self, who: Seq<char>) -> bool {
        self.moderators matches Some(roster) && roster.contains(who)
    }

    /// The margin held over all policies. A policy whose margin was paid
    /// back holds none, so the sum is that over the policies that were not
    /// settled.
    pub open spec fn margin_total(self) -> nat {
        sum(margins(self.insurances))
    }

    /// The claim allowances owed over all policies: the claim amounts of
    /// those that are `AVAILABLE`.
    pub open spec fn claim_total(self) -> nat {
        sum(claims_due(self.insurances))
    }

    /// The margin pool equals the margin held over all policies. A ledger
    /// without a vault record holds no margin.
    pub open spec fn margin_reconciled(self) -> bool {
        match self.vault {
            Some(vault) => vault.margin_pool == self.margin_total(),
            None => self.margin_total() == 0,
        }
    }

    /// The claim pool equals the claim allowances owed over all policies. A
    /// ledger without a vault record owes none.
    pub open spec fn claim_reconciled(self) -> bool {
        match self.vault {
            Some(vault) => vault.claim_pool == self.claim_total(),
            None => self.claim_total() == 0,
        }
    }

    /// Both pools of the vault equal what the policies add up to.
    pub open spec fn reconciled(self) -> bool {
        self.margin_reconciled() && self.claim_reconciled()
    }

    /// With unique ids, an entry with the id `id` stands at `slot(id)`.
    pub proof fn lemma_slot(self, id: Seq<char>, i: int)
        requires
            self.unique_ids(),
            0 <= i < self.insurances.len(),
            self.insurances[i].id == id,
        ensures
            self.holds(id),
            self.slot(id) == i,
            self.get(id) == Some(self.insurances[i].info),
    {
    }

    /// A policy that was put under an id is the one found there, and the
    /// policies under all other ids are the ones that were found before.
    pub proof fn lemma_put_get(self, id: Seq<char>, info: InsuranceView, other: Seq<char>)
        requires
            self.unique_ids(),
        ensures
            self.put(id, info).unique_ids(),
            self.put(id, info).get(id) == Some(info),
            other != id ==> self.put(id, info).get(other) == self.get(other),
            self.put(id, info).holds(other) <==> (other == id || self.holds(other)),
    {
        let post = self.put(id, info);
        let at = if self.holds(id) {
            self.slot(id)
        } else {
            self.insurances.len() as int
        };
        post.lemma_slot(id, at);
        if self.holds(other) {
            post.lemma_slot(other, self.slot(other));
        }
    }

    /// What putting a policy does to the two totals: the new policy's share
    /// comes in, and the share of the policy that it replaces goes out.
    pub proof fn lemma_put_totals(self, id: Seq<char>, info: InsuranceView)
        ensures
            self.put(id, info).margin_total() + (match self.get(id) {
                Some(before) => before.margin,
                None => 0,
            }) == self.margin_total() + info.margin,
            self.put(id, info).claim_total() + (match self.get(id) {
                Some(before) => before.claim_due(),
                None => 0,
            }) == self.claim_total() + info.claim_due(),
    {
        let post = self.put(id, info);
        let entry = EntryView { id, info };
        if self.holds(id) {
            let k = self.slot(id);
            assert(margins(post.insurances) =~= margins(self.insurances).update(k, info.margin));
            assert(claims_due(post.insurances) =~= claims_due(self.insurances).update(
                k,
                info.claim_due(),
            ));
            lemma_sum_update(margins(self.insurances), k, info.margin);
            lemma_sum_update(claims_due(self.insurances), k, info.claim_due());
        } else {
            assert(margins(post.insurances) =~= margins(self.insurances).push(info.margin));
            assert(claims_due(post.insurances) =~= claims_due(self.insurances).push(
                info.claim_due(),
            ));
            lemma_sum_push(margins(self.insurances), info.margin);
            lemma_sum_push(claims_due(self.insurances), info.claim_due());
        }
    }

    /// No policy holds more margin than all policies together, nor is owed
    /// more than is owed for all.
    pub proof fn lemma_share_within_total(self, id: Seq<char>)
        requires
            self.holds(id),
        ensures
            self.get(id).unwrap().margin <= self.margin_total(),
            self.get(id).unwrap().claim_due() <= self.claim_total(),
    {
        let k = self.slot(id);
        lemma_sum_bounds(margins(self.insurances), k);
        lemma_sum_bounds(claims_due(self.insurances), k);
    }
}

/// The sum grows by what is pushed.
pub proof fn lemma_sum_push(amounts: Seq<nat>, amount: nat)
    ensures
        sum(amounts.push(amount)) == sum(amounts) + amount,
{
    assert(amounts.push(amount).drop_last() =~= amounts);
}

/// Replacing one amount changes the sum by the difference.
pub proof fn lemma_sum_update(amounts: Seq<nat>, i: int, amount: nat)
    requires
        0 <= i < amounts.len(),
    ensures
        sum(amounts.update(i, amount)) + amounts[i] == sum(amounts) + amount,
    decreases amounts.len(),
{
    let after = amounts.update(i, amount);
    if i == amounts.len() - 1 {
        assert(after.drop_last() =~= amounts.drop_last());
    } else {
        assert(after.drop_last() =~= amounts.drop_last().update(i, amount));
        lemma_sum_update(amounts.drop_last(), i, amount);
    }
}

/// Each amount is at most the sum.
pub proof fn lemma_sum_bounds(amounts: Seq<nat>, i: int)
    requires
        0 <= i < amounts.len(),
    ensures
        amounts[i] <= sum(amounts),
    decreases amounts.len(),
{
    if i < amounts.len() - 1 {
        lemma_sum_bounds(amounts.drop_last(), i);
    }
}

/// The sum of a prefix is at most the sum of the whole.
pub proof fn lemma_sum_prefix(amounts: Seq<nat>, n: int)
    requires
        0 <= n <= amounts.len(),
    ensures
        sum(amounts.take(n)) <= sum(amounts),
    decreases amounts.len(),
{
    if n == amounts.len() {
        assert(amounts.take(n) =~= amounts);
    } else {
        assert(amounts.drop_last().take(n) =~= amounts.take(n));
        lemma_sum_prefix(amounts.drop_last(), n);
    }
}

/// The ledger store.
#[derive(Debug, PartialEq, Eq)]
pub struct Ledger {
    vault: Option<Vault>,
    moderators: Option<Vec<String>>,
    insurances: Vec<InsuranceEntry>,
}

impl View for Ledger {
    type V = LedgerView;

    closed spec fn view(&self) -> LedgerView {
        LedgerView {
            vault: match self.vault {
                Some(vault) => Some(vault@),
                None => None,
            },
            moderators: match self.moderators {
                Some(roster) => Some(identity_views(roster@)),
                None => None,
            },
            insurances: entry_views(self.insurances@),
        }
    }
}

impl Ledger {
    /// The invariant of the store: no two policies share an id. The
    /// functions that read or write the store say so of its view.
    #[verifier::type_invariant]
    spec fn ids_kept_unique(self) -> bool {
        ids_unique(entry_views(self.insurances@))
    }

    /// The amounts that a store holds fit in 128 bits.
    pub proof fn lemma_in_range(&self)
        ensures
            self@.in_range(),
    {
    }

    /// A store to which nothing has been written.
    pub fn new() -> (ledger: Ledger)
        ensures
            ledger@ == LedgerView::empty(),
    {
        let ledger = Ledger { vault: None, moderators: None, insurances: Vec::new() };
        assert(ledger@.insurances =~= Seq::empty());
        ledger
    }

    /// A store that holds the given records, as read back from where they
    /// are kept. There is none if two of the policies share an id.
    pub fn restore(
        vault: Option<Vault>,
        moderators: Option<Vec<String>>,
        insurances: Vec<InsuranceEntry>,
    ) -> (r: Option<Ledger>)
        ensures
            match r {
                Some(ledger) => {
                    &&& ledger@.unique_ids()
                    &&& ledger@.vault == match vault {
                        Some(v) => Some(v@),
                        None => None,
                    }
                    &&& ledger@.moderators == match moderators {
                        Some(m) => Some(identity_views(m@)),
                        None => None,
                    }
                    &&& ledger@.insurances == entry_views(insurances@)
                },
                None => !ids_unique(entry_views(insurances@)),
            },
    {
        let ghost entries = entry_views(insurances@);
        let n: usize = insurances.len();
        let mut j: usize = 0;
        while j < n
            invariant
                n == insurances.len(),
                j <= n,
                entries == entry_views(insurances@),
                forall|a: int, b: int|
                    0 <= a < b < j ==> (#[trigger] entries[a]).id != (#[trigger] entries[b]).id,
            decreases n - j,
        {
            let mut i: usize = 0;
            while i < j
                invariant
                    n == insurances.len(),
                    i <= j < n,
                    entries == entry_views(insurances@),
                    forall|a: int|
                        0 <= a < i ==> (#[trigger] entries[a]).id != entries[j as int].id,
                decreases j - i,
            {
                if insurances[i].id == insurances[j].id {
                    assert(entries[i as int].id == entries[j as int].id);
                    return None;
                }
                i += 1;
            }
            j += 1;
        }
        Some(Ledger { vault, moderators, insurances })
    }

    /// Where the policy with this id stands.
    fn find(&self, id: &String) -> (r: Option<usize>)
        ensures
            self@.unique_ids(),
            match r {
                Some(i) => {
                    &&& i < self.insurances.len()
                    &&& self.insurances[i as int].id@ == id@
                    &&& self@.holds(id@)
                    &&& self@.slot(id@) == i
                },
                None => !self@.holds(id@),
            },
    {
        proof {
            use_type_invariant(self);
        }
        let n: usize = self.insurances.len();
        let mut i: usize = 0;
        while i < n
            invariant
                self@.unique_ids(),
                n == self.insurances.len(),
                i <= n,
                forall|a: int| 0 <= a < i ==> (#[trigger] self@.insurances[a]).id != id@,
            decreases n - i,
        {
            if self.insurances[i].id == *id {
                proof {
                    self@.lemma_slot(id@, i as int);
                }
                return Some(i);
            }
            i += 1;
        }
        None
    }

    /// Whether a policy with this id exists.
    pub fn has_insurance(&self, id: &String) -> (b: bool)
        ensures
            b == self@.holds(id@),
            self@.unique_ids(),
    {
        self.find(id).is_some()
    }

    /// A copy of the policy with this id, if there is one.
    pub fn may_load_insurance(&self, id: &String) -> (r: Option<InsuranceInfor>)
        ensures
            self@.unique_ids(),
            match r {
                Some(info) => self@.get(id@) == Some(info@),
                None => self@.get(id@) is None,
            },
    {
        match self.find(id) {
            Some(i) => Some(self.insurances[i].info.clone()),
            None => None,
        }
    }

    /// A copy of the policy with this id. It is `NotFound` if there is none.
    pub fn load_insurance(&self, id: &String) -> (r: Result<InsuranceInfor, ContractError>)
        ensures
            self@.unique_ids(),
            match r {
                Ok(info) => self@.get(id@) == Some(info@),
                Err(e) => self@.get(id@) is None && e == ContractError::NotFound,
            },
    {
        match self.may_load_insurance(id) {
            Some(info) => Ok(info),
            None => Err(ContractError::NotFound),
        }
    }

    /// A copy of the vault record. It is `NotFound` if there is none.
    pub fn load_vault(&self) -> (r: Result<Vault, ContractError>)
        ensures
            self@.unique_ids(),
            match r {
                Ok(vault) => self@.vault == Some(vault@),
                Err(e) => self@.vault is None && e == ContractError::NotFound,
            },
    {
        proof {
            use_type_invariant(self);
        }
        match &self.vault {
            Some(vault) => Ok(vault.clone()),
            None => Err(ContractError::NotFound),
        }
    }

    /// A copy of the moderator record. It is `NotFound` if there is none.
    pub fn load_moderators(&self) -> (r: Result<Vec<String>, ContractError>)
        ensures
            self@.unique_ids(),
            match r {
                Ok(roster) => self@.moderators == Some(identity_views(roster@)),
                Err(e) => self@.moderators is None && e == ContractError::NotFound,
            },
    {
        proof {
            use_type_invariant(self);
        }
        match &self.moderators {
            Some(roster) => {
                let n: usize = roster.len();
                let mut copy: Vec<String> = Vec::new();
                let mut i: usize = 0;
                while i < n
                    invariant
                        n == roster.len(),
                        i <= n,
                        copy.len() == i,
                        forall|a: int| 0 <= a < i ==> copy[a] == roster[a],
                    decreases n - i,
                {
                    copy.push(roster[i].clone());
                    i += 1;
                }
                Ok(copy)
            },
            None => Err(ContractError::NotFound),
        }
    }

    /// Writes the vault record.
    pub(crate) fn save_vault(&mut self, vault: Vault)
        ensures
            final(self)@ == old(self)@.with_vault(vault@),
            final(self)@.unique_ids(),
    {
        proof {
            use_type_invariant(&*self);
        }
        self.vault = Some(vault);
    }

    /// Writes the moderator record.
    pub(crate) fn save_moderators(&mut self, moderators: Vec<String>)
        ensures
            final(self)@ == old(self)@.with_moderators(identity_views(moderators@)),
            final(self)@.unique_ids(),
    {
        proof {
            use_type_invariant(&*self);
        }
        self.moderators = Some(moderators);
    }

    /// Writes the policy under its id, in the place of the one that had the
    /// id or after all others.
    pub(crate) fn save_insurance(&mut self, id: String, info: InsuranceInfor)
        ensures
            final(self)@ == old(self)@.put(id@, info@),
            final(self)@.unique_ids(),
    {
        let found = self.find(&id);
        proof {
            self@.lemma_put_get(id@, info@, id@);
        }
        let mut insurances: Vec<InsuranceEntry> = Vec::new();
        std::mem::swap(&mut insurances, &mut self.insurances);
        match found {
            Some(i) => {
                insurances.set(i, InsuranceEntry { id, info });
            },
            None => {
                insurances.push(InsuranceEntry { id, info });
            },
        }
        assert(entry_views(insurances@) =~= old(self)@.put(id@, info@).insurances);
        self.insurances = insurances;
    }

    /// Whether both pools of the vault equal what the policies add up to.
    pub fn is_reconciled(&self) -> (b: bool)
        ensures
            b == self@.reconciled(),
    {
        let ghost all_margins = margins(self@.insurances);
        let ghost all_claims = claims_due(self@.insurances);
        let n: usize = self.insurances.len();
        let mut margin: u128 = 0;
        let mut claim: u128 = 0;
        let mut i: usize = 0;
        while i < n
            invariant
                n == self.insurances.len(),
                i <= n,
                all_margins == margins(self@.insurances),
                all_claims == claims_due(self@.insurances),
                margin == sum(all_margins.take(i as int)),
                claim == sum(all_claims.take(i as int)),
            decreases n - i,
        {
            let info = &self.insurances[i].info;
            let due: u128 = match info.state {
                InsuranceState::AVAILABLE => info.claim_amount,
                _ => 0,
            };
            proof {
                assert(all_margins.take(i + 1).drop_last() =~= all_margins.take(i as int));
                assert(all_claims.take(i + 1).drop_last() =~= all_claims.take(i as int));
                lemma_sum_prefix(all_margins, i + 1);
                lemma_sum_prefix(all_claims, i + 1);
            }
            match (margin.checked_add(info.margin), claim.checked_add(due)) {
                (Some(m), Some(c)) => {
                    margin = m;
                    claim = c;
                },
                _ => {
                    return false;
                },
            }
            i += 1;
        }
        proof {
            assert(all_margins.take(n as int) =~= all_margins);
            assert(all_claims.take(n as int) =~= all_claims);
        }
        match &self.vault {
            Some(vault) => vault.margin_pool == margin && vault.claim_pool == claim,
            None => margin == 0 && claim == 0,
        }
    }
}

} // verus!

//! The records that the ledger keeps: the vault, the policies, and the tags
//! that name a policy's state and the operation behind an event.

use vstd::prelude::*;
use vstd::string::*;

verus! {

/// Where a policy stands in its lifecycle.
///
/// A policy is created `PENDING`, is made `AVAILABLE` by a moderator, and
/// ends in one of the six other states.
#[allow(non_camel_case_types)]
#[derive(Clone, Copy, Debug, PartialEq, Eq, Structural)]
pub enum InsuranceState {
    PENDING,
    AVAILABLE,
    CLAIMED,
    REFUNDED,
    LIQUIDATED,
    EXPIRED,
    CANCELED,
    INVALID,
}

impl InsuranceState {
    /// The label under which the state appears in event records.
    pub open spec fn label(self) -> Seq<char> {
        match self {
            InsuranceState::PENDING => "PENDING"@,
            InsuranceState::AVAILABLE => "AVAILABLE"@,
            InsuranceState::CLAIMED => "CLAIMED"@,
            InsuranceState::REFUNDED => "REFUNDED"@,
            InsuranceState::LIQUIDATED => "LIQUIDATED"@,
            InsuranceState::EXPIRED => "EXPIRED"@,
            InsuranceState::CANCELED => "CANCELED"@,
            InsuranceState::INVALID => "INVALID"@,
        }
    }

    /// Renders the state as its label.
    pub fn to_string(&self) -> (s: String)
        ensures
            s@ == self.label(),
    {
        match self {
            InsuranceState::PENDING => String::from_str("PENDING"),
            InsuranceState::AVAILABLE => String::from_str("AVAILABLE"),
            InsuranceState::CLAIMED => String::from_str("CLAIMED"),
            InsuranceState::REFUNDED => String::from_str("REFUNDED"),
            InsuranceState::LIQUIDATED => String::from_str("LIQUIDATED"),
            InsuranceState::EXPIRED => String::from_str("EXPIRED"),
            InsuranceState::CANCELED => String::from_str("CANCELED"),
            InsuranceState::INVALID => String::from_str("INVALID"),
        }
    }
}

/// The operation that an event record reports.
#[allow(non_camel_case_types)]
#[derive(Clone, Copy, Debug, PartialEq, Eq, Structural)]
pub enum InsuranceType {
    CREATED,
    UPDATEAVAILABLE,
    UPDATEINVALID,
    REFUND,
    CANCEL,
    CLAIM,
    EXPIRED,
    LIQUIDATED,
}

impl InsuranceType {
    /// The label under which the operation appears in event records.
    pub open spec fn label(self) -> Seq<char> {
        match self {
            InsuranceType::CREATED => "CREATED"@,
            InsuranceType::UPDATEAVAILABLE => "UPDATE_AVAILABLE"@,
            InsuranceType::UPDATEINVALID => "UPDATE_INVALID"@,
            InsuranceType::REFUND => "REFUND"@,
            InsuranceType::CANCEL => "CANCEL"@,
            InsuranceType::CLAIM => "CLAIM"@,
            InsuranceType::EXPIRED => "EXPIRED"@,
            InsuranceType::LIQUIDATED => "LIQUIDATED"@,
        }
    }

    /// Renders the operation as its label.
    pub fn to_string(&self) -> (s: String)
        ensures
            s@ == self.label(),
    {
        match self {
            InsuranceType::CREATED => String::from_str("CREATED"),
            InsuranceType::UPDATEAVAILABLE => String::from_str("UPDATE_AVAILABLE"),
            InsuranceType::UPDATEINVALID => String::from_str("UPDATE_INVALID"),
            InsuranceType::REFUND => String::from_str("REFUND"),
            InsuranceType::CANCEL => String::from_str("CANCEL"),
            InsuranceType::CLAIM => String::from_str("CLAIM"),
            InsuranceType::EXPIRED => String::from_str("EXPIRED"),
            InsuranceType::LIQUIDATED => String::from_str("LIQUIDATED"),
        }
    }
}

/// A counter and its owner. No operation of the ledger reads or writes it.
#[derive(Clone, Debug, PartialEq, Eq)]
pub struct State {
    pub count: i32,
    pub owner: String,
}

/// The pooled collateral behind all policies.
#[derive(Debug, PartialEq, Eq)]
pub struct Vault {
    /// The token contract in which the collateral is held.
    pub contract_addr: String,
    /// The margin that buyers have deposited and that has not been paid back.
    pub margin_pool: u128,
    /// The claim allowances that have been granted and not been paid out.
    pub claim_pool: u128,
    /// Reserved. No transition reads or writes it.
    pub hakifi_fund: u128,
    /// Reserved. No transition reads or writes it.
    pub third_party_fund: u128,
}

/// What a [`Vault`] holds, as mathematical values.
pub struct VaultView {
    pub contract_addr: Seq<char>,
    pub margin_pool: nat,
    pub claim_pool: nat,
    pub hakifi_fund: nat,
    pub third_party_fund: nat,
}

impl View for Vault {
    type V = VaultView;

    open spec fn view(&self) -> VaultView {
        VaultView {
            contract_addr: self.contract_addr@,
            margin_pool: self.margin_pool as nat,
            claim_pool: self.claim_pool as nat,
            hakifi_fund: self.hakifi_fund as nat,
            third_party_fund: self.third_party_fund as nat,
        }
    }
}

impl Clone for Vault {
    fn clone(&self) -> (r: Self)
        ensures
            r == *self,
    {
        Vault {
            contract_addr: self.contract_addr.clone(),
            margin_pool: self.margin_pool,
            claim_pool: self.claim_pool,
            hakifi_fund: self.hakifi_fund,
            third_party_fund: self.third_party_fund,
        }
    }
}

impl VaultView {
    /// A vault for the given token contract with nothing in it.
    pub open spec fn empty(contract_addr: Seq<char>) -> VaultView {
        VaultView {
            contract_addr,
            margin_pool: 0,
            claim_pool: 0,
            hakifi_fund: 0,
            third_party_fund: 0,
        }
    }
}

/// One insurance policy.
#[derive(Debug, PartialEq, Eq)]
pub struct InsuranceInfor {
    /// Who created the policy and is paid what it pays.
    pub buyer: String,
    /// The buyer's collateral still held for this policy.
    pub margin: u128,
    /// The payout granted to the buyer and not yet paid.
    pub claim_amount: u128,
    /// When the policy expires, in seconds since the epoch; 0 while unset.
    pub expired_time: u64,
    /// When the policy was created, in seconds since the epoch.
    pub open_time: u64,
    pub state: InsuranceState,
    /// Set at creation. Reserved: no transition reads or changes it.
    pub valid: bool,
}

/// What an [`InsuranceInfor`] holds, as mathematical values.
pub struct InsuranceView {
    pub buyer: Seq<char>,
    pub margin: nat,
    pub claim_amount: nat,
    pub expired_time: u64,
    pub open_time: u64,
    pub state: InsuranceState,
    pub valid: bool,
}

impl View for InsuranceInfor {
    type V = InsuranceView;

    open spec fn view(&self) -> InsuranceView {
        InsuranceView {
            buyer: self.buyer@,
            margin: self.margin as nat,
            claim_amount: self.claim_amount as nat,
            expired_time: self.expired_time,
            open_time: self.open_time,
            state: self.state,
            valid: self.valid,
        }
    }
}

impl Clone for InsuranceInfor {
    fn clone(&self) -> (r: Self)
        ensures
            r == *self,
    {
        InsuranceInfor {
            buyer: self.buyer.clone(),
            margin: self.margin,
            claim_amount: self.claim_amount,
            expired_time: self.expired_time,
            open_time: self.open_time,
            state: self.state,
            valid: self.valid,
        }
    }
}

impl InsuranceView {
    /// The policy as it stands right after `buyer` created it with `margin`
    /// at time `now`.
    pub open spec fn opened(buyer: Seq<char>, margin: nat, now: u64) -> InsuranceView {
        InsuranceView {
            buyer,
            margin,
            claim_amount: 0,
            expired_time: 0,
            open_time: now,
            state: InsuranceState::PENDING,
            valid: true,
        }
    }

    /// The claim allowance that the vault owes for this policy: its claim
    /// amount while the policy is `AVAILABLE`, nothing otherwise.
    pub open spec fn claim_due(self) -> nat {
        if self.state == InsuranceState::AVAILABLE {
            self.claim_amount
        } else {
            0
        }
    }
}

} // verus!

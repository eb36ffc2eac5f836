//! What the host tells an operation about the call it is serving.

use vstd::prelude::*;

verus! {

/// A point in time, in nanoseconds since the epoch.
#[derive(Clone, Copy, Debug, PartialEq, Eq, Structural)]
pub struct Timestamp {
    nanos: u64,
}

impl Timestamp {
    /// The nanoseconds since the epoch.
    pub closed spec fn spec_nanos(&self) -> u64 {
        self.nanos
    }

    /// The whole seconds since the epoch.
    pub open spec fn spec_seconds(&self) -> u64 {
        (self.spec_nanos() / 1_000_000_000) as u64
    }

    /// The point in time `nanos` nanoseconds after the epoch.
    pub fn from_nanos(nanos: u64) -> (t: Timestamp)
        ensures
            t.spec_nanos() == nanos,
    {
        Timestamp { nanos }
    }

    /// The nanoseconds since the epoch.
    #[verifier::when_used_as_spec(spec_nanos)]
    pub fn nanos(&self) -> (n: u64)
        ensures
            n == self.spec_nanos(),
    {
        self.nanos
    }

    /// The whole seconds since the epoch: the nanoseconds divided by 10^9,
    /// rounded down.
    #[verifier::when_used_as_spec(spec_seconds)]
    pub fn seconds(&self) -> (s: u64)
        ensures
            s == self.spec_seconds(),
    {
        self.nanos / 1_000_000_000
    }
}

/// The block in which the call is executed.
#[derive(Clone, Copy, Debug, PartialEq, Eq, Structural)]
pub struct BlockInfo {
    pub time: Timestamp,
}

/// The contract that runs the ledger.
#[derive(Clone, Debug, PartialEq, Eq)]
pub struct ContractInfo {
    /// The ledger's own address: the account that holds the collateral.
    pub address: String,
}

/// The environment of a call.
#[derive(Clone, Debug, PartialEq, Eq)]
pub struct Env {
    pub block: BlockInfo,
    pub contract: ContractInfo,
}

/// Who made the call.
#[derive(Clone, Debug, PartialEq, Eq)]
pub struct MessageInfo {
    pub sender: String,
}

} // verus!

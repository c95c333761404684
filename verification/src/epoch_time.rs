//! Time as a number of seconds since the Unix epoch.

use crate::decimal::{decimal, to_decimal};
use std::cmp::Ordering;
use std::time::{SystemTime, UNIX_EPOCH};
use vstd::prelude::*;
use vstd::std_specs::convert::FromSpecImpl;

verus! {

/// A timestamp: the seconds that have passed since 1970-01-01 00:00:00 UTC.
#[derive(Debug, Clone, Copy, PartialEq, Eq, Structural, Ord)]
pub struct EpochTime(u64);

/// The system clock, read as whole seconds since the epoch; `None` where the clock stands
/// before the epoch.
#[verifier::external_body]
fn clock_secs() -> Option<u64> {
    SystemTime::now().duration_since(UNIX_EPOCH).ok().map(|elapsed| elapsed.as_secs())
}

impl EpochTime {
    /// The seconds since the epoch that the timestamp stands for.
    pub closed spec fn secs(self) -> nat {
        self.0 as nat
    }

    /// The timestamp that lies `secs` seconds after the epoch.
    pub closed spec fn at(secs: u64) -> EpochTime {
        EpochTime(secs)
    }

    /// Makes a timestamp of a reading of the clock: the seconds that were read, or the
    /// epoch itself where there was none to read.
    pub fn from_clock(reading: Option<u64>) -> (t: EpochTime)
        ensures
            t.secs() == match reading {
                Some(secs) => secs as nat,
                None => 0,
            },
    {
        match reading {
            Some(secs) => EpochTime(secs),
            None => EpochTime(0),
        }
    }

    /// Returns the current time in UTC. A clock that stands before the epoch gives the
    /// epoch itself.
    pub fn now() -> EpochTime {
        EpochTime::from_clock(clock_secs())
    }

    /// Creates the timestamp that lies `secs` seconds after the epoch.
    pub fn from_secs_since_epoch(secs: u64) -> (t: EpochTime)
        ensures
            t.secs() == secs,
    {
        EpochTime(secs)
    }

    /// Returns the timestamp as a `u64`.
    pub fn as_u64(self) -> (secs: u64)
        ensures
            secs == self.secs(),
    {
        self.0
    }

    /// Adds two timestamps. Returns `None` where the sum does not fit in a `u64`.
    pub fn checked_add(self, other: EpochTime) -> (sum: Option<EpochTime>)
        ensures
            match sum {
                Some(t) => t.secs() == self.secs() + other.secs(),
                None => self.secs() + other.secs() > u64::MAX,
            },
    {
        match self.0.checked_add(other.0) {
            Some(secs) => Some(EpochTime(secs)),
            None => None,
        }
    }

    /// Subtracts `other` from the timestamp. Returns `None` where `other` is the larger.
    pub fn checked_sub(self, other: EpochTime) -> (difference: Option<EpochTime>)
        ensures
            match difference {
                Some(t) => t.secs() == self.secs() - other.secs(),
                None => self.secs() < other.secs(),
            },
    {
        match self.0.checked_sub(other.0) {
            Some(secs) => Some(EpochTime(secs)),
            None => None,
        }
    }

    /// Writes the number of seconds in decimal digits.
    pub fn to_string(&self) -> (text: String)
        ensures
            text@ == decimal(self.secs()),
    {
        to_decimal(self.0)
    }
}

impl PartialOrd for EpochTime {
    /// Orders timestamps from the earlier to the later.
    fn partial_cmp(&self, other: &Self) -> (order: Option<Ordering>) {
        if self.0 < other.0 {
            Some(Ordering::Less)
        } else if self.0 > other.0 {
            Some(Ordering::Greater)
        } else {
            Some(Ordering::Equal)
        }
    }
}

impl vstd::std_specs::cmp::PartialOrdSpecImpl for EpochTime {
    open spec fn obeys_partial_cmp_spec() -> bool {
        true
    }

    open spec fn partial_cmp_spec(&self, other: &Self) -> Option<Ordering> {
        if self.secs() < other.secs() {
            Some(Ordering::Less)
        } else if self.secs() > other.secs() {
            Some(Ordering::Greater)
        } else {
            Some(Ordering::Equal)
        }
    }
}

/// Timestamps that stand for the same second are the same timestamp.
pub proof fn lemma_same_secs_same_time(a: EpochTime, b: EpochTime)
    requires
        a.secs() == b.secs(),
    ensures
        a == b,
{
}

impl From<u64> for EpochTime {
    fn from(value: u64) -> (t: Self)
        ensures
            t.secs() == value,
    {
        EpochTime(value)
    }
}

impl FromSpecImpl<u64> for EpochTime {
    open spec fn obeys_from_spec() -> bool {
        true
    }

    open spec fn from_spec(value: u64) -> Self {
        EpochTime::at(value)
    }
}

} // verus!

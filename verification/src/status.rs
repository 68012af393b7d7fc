//! The three-level health status and its severity order.

use vstd::prelude::*;
use core::cmp::Ordering;
use vstd::std_specs::cmp::PartialOrdSpecImpl;

verus! {

/// Aggregate health of a cluster, from best to worst.
#[derive(Clone, Copy, Debug, PartialEq, Eq, Structural, Hash)]
pub enum KafkaStatus {
    /// Every partition is fully replicated.
    Green,
    /// Some partition has fewer in-sync replicas than assigned replicas.
    Yellow,
    /// Some partition has no in-sync replica at all.
    Red,
}

impl KafkaStatus {
    /// Rank of the status in the order `Green < Yellow < Red`.
    pub open spec fn rank(self) -> nat {
        match self {
            KafkaStatus::Green => 0,
            KafkaStatus::Yellow => 1,
            KafkaStatus::Red => 2,
        }
    }

    /// The worse of two statuses.
    pub open spec fn worse_of(self, other: KafkaStatus) -> KafkaStatus {
        if self.rank() >= other.rank() {
            self
        } else {
            other
        }
    }

    /// Severity as a number: 0 for `Green`, 1 for `Yellow`, 2 for `Red`.
    pub fn severity(&self) -> (level: u8)
        ensures
            level == self.rank(),
    {
        match self {
            KafkaStatus::Green => 0,
            KafkaStatus::Yellow => 1,
            KafkaStatus::Red => 2,
        }
    }

    /// Raises the status to `other` when `other` is more severe, and keeps
    /// it otherwise, so that a status once reached is never lowered.
    pub fn escalate(self, other: KafkaStatus) -> (raised: KafkaStatus)
        ensures
            raised == self.worse_of(other),
    {
        if self.severity() >= other.severity() {
            self
        } else {
            other
        }
    }
}

/// Statuses compare by severity: `Green < Yellow < Red`.
impl PartialOrd for KafkaStatus {
    fn partial_cmp(&self, other: &Self) -> (order: Option<Ordering>) {
        let left = self.severity();
        let right = other.severity();
        if left < right {
            Some(Ordering::Less)
        } else if left > right {
            Some(Ordering::Greater)
        } else {
            Some(Ordering::Equal)
        }
    }
}

impl PartialOrdSpecImpl for KafkaStatus {
    open spec fn obeys_partial_cmp_spec() -> bool {
        true
    }

    open spec fn partial_cmp_spec(&self, other: &Self) -> Option<Ordering> {
        if self.rank() < other.rank() {
            Some(Ordering::Less)
        } else if self.rank() > other.rank() {
            Some(Ordering::Greater)
        } else {
            Some(Ordering::Equal)
        }
    }
}

} // verus!

//! View-model projection of background device reads.

use crate::hid::{DpiInfo, LightingInfo, ReportRateInfo, SmartShiftStatus};
use crate::text::same_text;
use std::sync::Arc;
use vstd::prelude::*;

verus! {

/// State of a device read: unqueried, in flight, resolved, transiently failed,
/// or permanently unsupported.
#[derive(Debug, PartialEq, Eq)]
pub enum Load<T> {
    /// The selected device has not been queried yet.
    Unknown,
    /// A background read is in flight.
    Loading,
    /// The device reported its value.
    Ready(T),
    /// Transient errors exhausted the retry budget. Selecting the device again
    /// grants a fresh attempt.
    Failed(String),
    /// The device does not support the feature; never retried.
    Unsupported(String),
}

/// Per-device resolution load state.
pub type DpiStatus = Load<Arc<DpiInfo>>;

/// Per-device polling-frequency load state.
pub type ReportRateStatus = Load<Arc<ReportRateInfo>>;

/// Per-device SmartShift load state.
pub type SmartShiftLoad = Load<Arc<SmartShiftStatus>>;

/// Per-device lighting catalog load state.
pub type LightingLoad = Load<Arc<LightingInfo>>;

/// A value that can be compared with another of its type.
pub trait Comparable: Sized {
    /// What is compared.
    spec fn same_as(&self, other: &Self) -> bool;

    /// Whether the two values are the same.
    fn same(&self, other: &Self) -> (same: bool)
        ensures
            same == self.same_as(other),
    ;
}

impl Comparable for DpiInfo {
    open spec fn same_as(&self, other: &Self) -> bool {
        &&& self.current == other.current
        &&& self.capabilities@ == other.capabilities@
        &&& self.capabilities.spec_step_hint() == other.capabilities.spec_step_hint()
    }

    fn same(&self, other: &Self) -> (same: bool) {
        self.current == other.current && self.capabilities.same(&other.capabilities)
    }
}

impl Comparable for ReportRateInfo {
    open spec fn same_as(&self, other: &Self) -> bool {
        &&& self.current == other.current
        &&& self.capabilities@ == other.capabilities@
        &&& self.capabilities.spec_step_hint() == other.capabilities.spec_step_hint()
    }

    fn same(&self, other: &Self) -> (same: bool) {
        self.current == other.current && self.capabilities.same(&other.capabilities)
    }
}

impl Comparable for SmartShiftStatus {
    open spec fn same_as(&self, other: &Self) -> bool {
        *self == *other
    }

    fn same(&self, other: &Self) -> (same: bool) {
        *self == *other
    }
}

impl Comparable for LightingInfo {
    open spec fn same_as(&self, other: &Self) -> bool {
        self.prefabs@ == other.prefabs@ && self.zones@ == other.zones@
    }

    fn same(&self, other: &Self) -> (same: bool) {
        if self.prefabs.len() != other.prefabs.len() || self.zones.len() != other.zones.len() {
            return false;
        }
        let mut i: usize = 0;
        while i < self.prefabs.len()
            invariant
                i <= self.prefabs@.len(),
                self.prefabs@.len() == other.prefabs@.len(),
                forall|j: int| 0 <= j < i ==> self.prefabs@[j] == other.prefabs@[j],
            decreases self.prefabs@.len() - i,
        {
            if self.prefabs[i] != other.prefabs[i] {
                return false;
            }
            i += 1;
        }
        assert(self.prefabs@ =~= other.prefabs@);
        let mut k: usize = 0;
        while k < self.zones.len()
            invariant
                k <= self.zones@.len(),
                self.zones@.len() == other.zones@.len(),
                forall|j: int| 0 <= j < k ==> self.zones@[j] == other.zones@[j],
            decreases self.zones@.len() - k,
        {
            if self.zones[k] != other.zones[k] {
                return false;
            }
            k += 1;
        }
        assert(self.zones@ =~= other.zones@);
        true
    }
}

/// Whether two load states are the same: the same state, the same value, the
/// same message.
pub open spec fn same_load<T: Comparable>(a: Load<Arc<T>>, b: Load<Arc<T>>) -> bool {
    match (a, b) {
        (Load::Unknown, Load::Unknown) => true,
        (Load::Loading, Load::Loading) => true,
        (Load::Ready(a), Load::Ready(b)) => (*a).same_as(&*b),
        (Load::Failed(a), Load::Failed(b)) => a@ == b@,
        (Load::Unsupported(a), Load::Unsupported(b)) => a@ == b@,
        _ => false,
    }
}

impl<T: Comparable> Load<Arc<T>> {
    /// Whether two load states are the same.
    pub fn same(&self, other: &Self) -> (same: bool)
        ensures
            same == same_load(*self, *other),
    {
        match (self, other) {
            (Load::Unknown, Load::Unknown) => true,
            (Load::Loading, Load::Loading) => true,
            (Load::Ready(a), Load::Ready(b)) => (**a).same(&**b),
            (Load::Failed(a), Load::Failed(b)) => same_text(a.as_str(), b.as_str()),
            (Load::Unsupported(a), Load::Unsupported(b)) => same_text(a.as_str(), b.as_str()),
            _ => false,
        }
    }
}

impl<T> Clone for Load<Arc<T>> {
    fn clone(&self) -> (copy: Self)
        ensures
            copy == *self,
    {
        match self {
            Load::Unknown => Load::Unknown,
            Load::Loading => Load::Loading,
            Load::Ready(value) => Load::Ready(value.clone()),
            Load::Failed(message) => Load::Failed(message.clone()),
            Load::Unsupported(message) => Load::Unsupported(message.clone()),
        }
    }
}

} // verus!

//! The state of the host that the checks read: its metric registry, the plugins
//! it has initialized and the elements its pipeline has registered.
use vstd::prelude::*;

use crate::naming::ElementName;
use crate::units::{PrefixedUnit, WrappedMeasurementType};

verus! {

/// The definition of a metric, as the host registered it.
#[derive(Debug)]
pub struct MetricDefinition {
    pub name: String,
    pub unit: PrefixedUnit,
    pub value_type: WrappedMeasurementType,
}

/// An entry of the metric registry: the name it is found under, and the definition.
#[derive(Debug)]
pub struct RegisteredMetric {
    pub key: String,
    pub definition: MetricDefinition,
}

/// The metrics that the host has registered, in order of registration.
pub struct MetricRegistry {
    pub entries: Vec<RegisteredMetric>,
}

/// The lists of elements that the host's pipeline has registered.
pub struct PipelineSnapshot {
    pub sources: Vec<ElementName>,
    pub transforms: Vec<ElementName>,
    pub outputs: Vec<ElementName>,
}

/// The index of the first entry at or after `i` that is registered under `key`.
pub open spec fn first_entry_from(entries: Seq<RegisteredMetric>, key: Seq<char>, i: int) -> Option<int>
    decreases entries.len() - i,
{
    if i < 0 || i >= entries.len() {
        None
    } else if entries[i].key@ == key {
        Some(i)
    } else {
        first_entry_from(entries, key, i + 1)
    }
}

/// The index of the entry that a lookup of `key` finds: the first one registered under it.
pub open spec fn lookup(entries: Seq<RegisteredMetric>, key: Seq<char>) -> Option<int> {
    first_entry_from(entries, key, 0)
}

proof fn lemma_first_entry_from(entries: Seq<RegisteredMetric>, key: Seq<char>, i: int)
    requires
        0 <= i <= entries.len(),
    ensures
        first_entry_from(entries, key, i) matches Some(k) ==> i <= k < entries.len()
            && entries[k].key@ == key,
        first_entry_from(entries, key, i) is None <==> forall|j: int|
            i <= j < entries.len() ==> entries[j].key@ != key,
    decreases entries.len() - i,
{
    if i < entries.len() && entries[i].key@ != key {
        lemma_first_entry_from(entries, key, i + 1);
    }
}

/// What a lookup of `key` finds: an entry under that key, and none at all only
/// when no entry has that key.
pub proof fn lemma_lookup(entries: Seq<RegisteredMetric>, key: Seq<char>)
    ensures
        lookup(entries, key) matches Some(k) ==> 0 <= k < entries.len() && entries[k].key@ == key,
        lookup(entries, key) is None <==> forall|j: int|
            0 <= j < entries.len() ==> entries[j].key@ != key,
{
    lemma_first_entry_from(entries, key, 0);
}

impl MetricRegistry {
    /// The index of the entry registered under `name`, the first one if several are.
    pub fn by_name(&self, name: &String) -> (r: Option<usize>)
        ensures
            r matches Some(k) ==> lookup(self.entries@, name@) == Some(k as int),
            r is None ==> lookup(self.entries@, name@) is None,
    {
        let mut i: usize = 0;
        while i < self.entries.len()
            invariant
                i <= self.entries.len(),
                lookup(self.entries@, name@) == first_entry_from(self.entries@, name@, i as int),
            decreases self.entries.len() - i,
        {
            if self.entries[i].key == *name {
                return Some(i);
            }
            i = i + 1;
        }
        None
    }
}

} // verus!

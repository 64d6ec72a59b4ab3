//! Object generations by object number.
use std::collections::BTreeMap;
use vstd::prelude::*;

verus! {

/// The latest generation of every object number seen since the last reset. It
/// is shared by all object types and outlives the objects.
#[derive(Clone, Debug)]
pub struct SequenceHistory {
    pub entries: BTreeMap<u16, u64>,
}

impl View for SequenceHistory {
    type V = Map<u16, u64>;

    open spec fn view(&self) -> Map<u16, u64> {
        self.entries@
    }
}

impl Default for SequenceHistory {
    fn default() -> (history: SequenceHistory)
        ensures
            history@ == Map::<u16, u64>::empty(),
    {
        SequenceHistory { entries: BTreeMap::new() }
    }
}

/// The generation that follows in a history: the one after the latest of the
/// number, or zero for a number never seen.
pub open spec fn next_generation(history: Map<u16, u64>, id: u16) -> u64 {
    if history.contains_key(id) {
        if history[id] == u64::MAX {
            0
        } else {
            (history[id] + 1) as u64
        }
    } else {
        0
    }
}

impl SequenceHistory {
    /// Checks that every number in the history can be an object's.
    pub fn validate(&self) -> (valid: bool)
        ensures
            valid == (forall|id: u16| self@.contains_key(id) ==> id != 0 && id != 0xffff),
    {
        let lowest = self.entries.contains_key(&0u16);
        let highest = self.entries.contains_key(&0xffffu16);
        assert(lowest == self@.contains_key(0u16));
        assert(highest == self@.contains_key(0xffffu16));
        !lowest && !highest
    }

    /// Copies the history.
    pub fn copied(&self) -> (history: SequenceHistory)
        ensures
            history@ == self@,
    {
        SequenceHistory { entries: self.entries.clone() }
    }

    /// Returns the latest generation of an object number.
    pub fn generation(&self, id: u16) -> (generation: Option<u64>)
        ensures
            generation == (if self@.contains_key(id) {
                Some(self@[id])
            } else {
                None
            }),
    {
        match self.entries.get(&id) {
            Some(generation) => Some(*generation),
            None => None,
        }
    }

    /// Returns the generation that follows for an object number.
    pub fn next(&self, id: u16) -> (generation: u64)
        ensures
            generation == next_generation(self@, id),
    {
        match self.generation(id) {
            Some(generation) => generation.wrapping_add(1),
            None => 0,
        }
    }

    /// Records the latest generation of an object number.
    pub fn record(&mut self, id: u16, generation: u64)
        ensures
            final(self)@ == old(self)@.insert(id, generation),
    {
        self.entries.insert(id, generation);
    }

    /// Forgets every number.
    pub fn clear(&mut self)
        ensures
            final(self)@ == Map::<u16, u64>::empty(),
    {
        self.entries.clear();
    }
}

/// A number never seen starts at generation zero; after that every recorded
/// step is one further than the step before.
pub proof fn generations_count_up(history: Map<u16, u64>, id: u16)
    ensures
        !history.contains_key(id) ==> next_generation(history, id) == 0,
        history.contains_key(id) && history[id] < u64::MAX ==> next_generation(history, id)
            == history[id] + 1,
{
}

/// Recording one number leaves every other as it was.
pub proof fn recording_keeps_other_numbers(
    history: Map<u16, u64>,
    id: u16,
    generation: u64,
    other: u16,
)
    requires
        other != id,
    ensures
        next_generation(history.insert(id, generation), other) == next_generation(history, other),
        history.insert(id, generation).contains_key(id),
        history.contains_key(other) ==> history.insert(id, generation).contains_key(other),
{
}

} // verus!

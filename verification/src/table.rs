//! The frequency table: a mapping from produced value to occurrence count.
//!
//! The production loop is the sole writer ([`FrequencyTable::record`]) and the
//! query side reads it ([`FrequencyTable::lookup`]); a value never recorded
//! logically has count zero. Entries are only ever incremented, never removed
//! or decremented, for the life of the service. The hosting environment puts
//! the table behind whatever lock it shares between the producer thread and
//! the query callers; every access goes through these two methods.

use vstd::prelude::*;
use std::collections::BTreeMap;

verus! {

broadcast use vstd::std_specs::btree::group_btree_axioms, vstd::laws_cmp::group_laws_cmp;

/// The count a table holds for a value: the stored entry, or zero where the
/// value is absent.
pub open spec fn count_of(m: Map<u64, u64>, value: u64) -> u64 {
    if m.contains_key(value) {
        m[value]
    } else {
        0u64
    }
}

/// The table after one more occurrence of `value`: the entry grows by one,
/// appearing with count one where it was absent. A counter that has reached
/// the largest representable count stays there rather than wrapping.
pub open spec fn bumped(m: Map<u64, u64>, value: u64) -> Map<u64, u64> {
    m.insert(
        value,
        if count_of(m, value) < u64::MAX {
            (count_of(m, value) + 1) as u64
        } else {
            u64::MAX
        },
    )
}

/// How often `value` occurs in a sequence of produced values.
pub open spec fn occurrences(s: Seq<u64>, value: u64) -> nat
    decreases s.len(),
{
    if s.len() == 0 {
        0nat
    } else {
        occurrences(s.drop_last(), value) + if s.last() == value {
            1nat
        } else {
            0nat
        }
    }
}

/// The table state after a sequence of produced values has been recorded,
/// one [`bumped`] step per value, starting from the empty table.
pub open spec fn table_after(s: Seq<u64>) -> Map<u64, u64>
    decreases s.len(),
{
    if s.len() == 0 {
        Map::<u64, u64>::empty()
    } else {
        bumped(table_after(s.drop_last()), s.last())
    }
}

/// The mapping from produced value to occurrence count.
pub struct FrequencyTable {
    entries: BTreeMap<u64, u64>,
}

impl View for FrequencyTable {
    type V = Map<u64, u64>;

    closed spec fn view(&self) -> Map<u64, u64> {
        self.entries@
    }
}

impl FrequencyTable {
    /// A fresh table holds no entry at all.
    pub fn new() -> (t: FrequencyTable)
        ensures
            t@ == Map::<u64, u64>::empty(),
    {
        FrequencyTable { entries: BTreeMap::new() }
    }

    /// Records one more occurrence of `value`: the entry is created with
    /// count one where absent and incremented otherwise (saturating at the
    /// largest representable count).
    pub fn record(&mut self, value: u64)
        ensures
            final(self)@ == bumped(old(self)@, value),
    {
        let next = match self.entries.get(&value) {
            Some(count) => {
                if *count < u64::MAX {
                    *count + 1
                } else {
                    u64::MAX
                }
            },
            None => 1u64,
        };
        self.entries.insert(value, next);
    }

    /// Reports the current count of `value`: zero where the value was never
    /// recorded. Never fails.
    pub fn lookup(&self, value: u64) -> (count: u64)
        ensures
            count == count_of(self@, value),
    {
        match self.entries.get(&value) {
            Some(count) => *count,
            None => 0u64,
        }
    }
}

/// A value produced exactly `n` times has count `n` once all `n` record
/// steps have been applied to a table that started empty — as long as `n`
/// is representable in the count field.
pub proof fn lemma_recorded_count_is_occurrences(s: Seq<u64>, value: u64)
    requires
        occurrences(s, value) <= u64::MAX,
    ensures
        count_of(table_after(s), value) == occurrences(s, value),
    decreases s.len(),
{
    if s.len() > 0 {
        lemma_recorded_count_is_occurrences(s.drop_last(), value);
    }
}

/// A count read from the table never exceeds the number of times its value
/// was actually produced, however long the production ran — the one
/// direction of the count that even a saturated counter keeps.
pub proof fn lemma_count_never_exceeds_production(s: Seq<u64>, value: u64)
    ensures
        count_of(table_after(s), value) <= occurrences(s, value),
    decreases s.len(),
{
    if s.len() > 0 {
        lemma_count_never_exceeds_production(s.drop_last(), value);
    }
}

/// A value never produced has count zero.
pub proof fn lemma_never_produced_is_zero(s: Seq<u64>, value: u64)
    requires
        occurrences(s, value) == 0,
    ensures
        count_of(table_after(s), value) == 0,
{
    lemma_recorded_count_is_occurrences(s, value);
}

} // verus!

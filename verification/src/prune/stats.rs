//! Statistics of a run.

use vstd::prelude::*;
use std::collections::BTreeMap;
use super::category::Category;
use super::progress::PruneProgress;

verus! {

/// What a run did in one category.
#[derive(Clone, Copy, Debug, PartialEq, Eq, Structural)]
pub struct SegmentStats {
    /// Whether the category reached its target.
    pub progress: PruneProgress,
    /// Number of entries deleted from the category.
    pub deleted_count: usize,
}

/// What a run did, by category: the progress of the category and the number of
/// entries deleted from it. A category that was pruned twice in one run shows
/// the later of the two.
#[derive(Clone, Debug, PartialEq, Eq)]
pub struct RunStatistics {
    /// The entries, each under the position of its category in the order of
    /// the categories.
    entries: BTreeMap<usize, SegmentStats>,
}

impl View for RunStatistics {
    type V = Map<Category, SegmentStats>;

    closed spec fn view(&self) -> Map<Category, SegmentStats> {
        Map::new(
            |category: Category| self.slot(category) is Some,
            |category: Category| self.slot(category).unwrap(),
        )
    }
}

impl RunStatistics {
    /// What was recorded for the category, if anything.
    spec fn slot(self, category: Category) -> Option<SegmentStats> {
        let key = category.spec_index() as usize;
        if self.entries@.contains_key(key) {
            Some(self.entries@[key])
        } else {
            None
        }
    }

    /// Statistics of a run that has pruned nothing yet.
    pub fn new() -> (stats: Self)
        ensures
            stats@ == Map::<Category, SegmentStats>::empty(),
    {
        RunStatistics { entries: BTreeMap::new() }
    }

    /// Records what was done in a category, in place of what was recorded for
    /// it before.
    pub fn insert(&mut self, category: Category, progress: PruneProgress, deleted_count: usize)
        ensures
            final(self)@ == old(self)@.insert(category, SegmentStats { progress, deleted_count }),
    {
        let entry = SegmentStats { progress, deleted_count };
        self.entries.insert(category.index(), entry);
        proof {
            assert forall|other: Category|
                self.slot(other) == if other == category {
                    Some(entry)
                } else {
                    old(self).slot(other)
                } by {
                other.lemma_index_round_trip();
                category.lemma_index_round_trip();
            }
        }
    }

    /// What was recorded for a category, if anything.
    pub fn get(&self, category: Category) -> (entry: Option<SegmentStats>)
        ensures
            entry == if self@.contains_key(category) {
                Some(self@[category])
            } else {
                None
            },
    {
        let key = category.index();
        match self.entries.get(&key) {
            Some(entry) => Some(*entry),
            None => None,
        }
    }

    /// Number of categories for which something was recorded.
    pub fn len(&self) -> (len: usize)
        ensures
            len == self@.len(),
            len <= Category::COUNT,
            self@.dom().finite(),
    {
        let mut count: usize = 0;
        let mut index: usize = 0;
        proof {
            self.lemma_domain_up_to(0);
        }
        while index < Category::COUNT
            invariant
                index <= Category::COUNT,
                count <= index,
                count == self.domain_up_to(index as nat).len(),
                self.domain_up_to(index as nat).finite(),
            decreases Category::COUNT - index,
        {
            let category = match Category::from_index(index) {
                Some(category) => category,
                None => Category::Headers,
            };
            proof {
                self.lemma_domain_up_to((index + 1) as nat);
            }
            if self.get(category).is_some() {
                count += 1;
            }
            index += 1;
        }
        proof {
            assert(self.domain_up_to(Category::COUNT as nat) =~= self@.dom());
        }
        count
    }

    /// What was recorded, in the order of the categories: each category with
    /// an entry shows once, with its entry.
    pub fn entries(&self) -> (entries: Vec<(Category, SegmentStats)>)
        ensures
            forall|i: int|
                0 <= i < entries@.len() ==> self@.contains_key((#[trigger] entries@[i]).0)
                    && self@[entries@[i].0] == entries@[i].1,
            forall|i: int, j: int|
                0 <= i < j < entries@.len() ==> (#[trigger] entries@[i]).0.spec_index() < (
                #[trigger] entries@[j]).0.spec_index(),
            forall|category: Category|
                self@.contains_key(category) ==> exists|i: int|
                    0 <= i < entries@.len() && (#[trigger] entries@[i]).0 == category,
    {
        let mut entries: Vec<(Category, SegmentStats)> = Vec::new();
        let mut index: usize = 0;
        while index < Category::COUNT
            invariant
                index <= Category::COUNT,
                forall|i: int|
                    0 <= i < entries@.len() ==> self@.contains_key((#[trigger] entries@[i]).0)
                        && self@[entries@[i].0] == entries@[i].1 && entries@[i].0.spec_index()
                        < index,
                forall|i: int, j: int|
                    0 <= i < j < entries@.len() ==> (#[trigger] entries@[i]).0.spec_index() < (
                    #[trigger] entries@[j]).0.spec_index(),
                forall|category: Category|
                    self@.contains_key(category) && category.spec_index() < index ==> exists|
                        i: int,
                    |
                        0 <= i < entries@.len() && (#[trigger] entries@[i]).0 == category,
            decreases Category::COUNT - index,
        {
            let category = match Category::from_index(index) {
                Some(category) => category,
                None => Category::Headers,
            };
            let ghost before = entries@;
            if let Some(entry) = self.get(category) {
                entries.push((category, entry));
            }
            proof {
                assert forall|other: Category|
                    self@.contains_key(other) && other.spec_index() < index + 1 implies exists|
                    i: int,
                |
                    0 <= i < entries@.len() && (#[trigger] entries@[i]).0 == other by {
                    if other.spec_index() < index {
                        let i = choose|i: int|
                            0 <= i < before.len() && (#[trigger] before[i]).0 == other;
                        assert(entries@[i].0 == other);
                    } else {
                        assert(entries@[before.len() as int].0 == category);
                    }
                }
            }
            index += 1;
        }
        entries
    }

    /// Whether nothing was recorded.
    pub fn is_empty(&self) -> (empty: bool)
        ensures
            empty == (self@ == Map::<Category, SegmentStats>::empty()),
    {
        let len = self.len();
        proof {
            if len == 0 {
                self@.dom().lemma_len0_is_empty();
                assert(self@ =~= Map::<Category, SegmentStats>::empty());
            }
        }
        len == 0
    }

    /// The categories with an entry among the first `bound` of the order.
    spec fn domain_up_to(self, bound: nat) -> Set<Category> {
        Set::new(|category: Category| category.spec_index() < bound && self.slot(category) is Some)
    }

    /// The categories with an entry grow by at most one with each position,
    /// and by the category at that position.
    proof fn lemma_domain_up_to(self, bound: nat)
        ensures
            self.domain_up_to(bound).finite(),
            bound == 0 ==> self.domain_up_to(bound).len() == 0,
            bound > 0 ==> self.domain_up_to(bound).len() == self.domain_up_to(
                (bound - 1) as nat,
            ).len() + if bound <= Category::COUNT && self.slot(
                Category::spec_from_index((bound - 1) as nat),
            ) is Some {
                1nat
            } else {
                0nat
            },
        decreases bound,
    {
        if bound == 0 {
            assert(self.domain_up_to(0) =~= Set::<Category>::empty());
        } else {
            let before = (bound - 1) as nat;
            self.lemma_domain_up_to(before);
            let category = Category::spec_from_index(before);
            if bound <= Category::COUNT && self.slot(category) is Some {
                assert(self.domain_up_to(bound) =~= self.domain_up_to(before).insert(category));
            } else {
                assert(self.domain_up_to(bound) =~= self.domain_up_to(before));
            }
        }
    }
}

} // verus!

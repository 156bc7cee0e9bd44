//! What the compositor knows of each content pipeline, kept by pipeline
//! identifier in the order in which the pipelines were first named.

use vstd::prelude::*;
use crate::msg::{CompositionPipeline, PipelineId};

verus! {

/// One pipeline and what is kept for it.
#[derive(Debug, PartialEq, Eq)]
pub struct Entry<V> {
    pub id: PipelineId,
    pub value: V,
}

impl<V: Copy> Clone for Entry<V> {
    fn clone(&self) -> (copy: Self)
        ensures
            copy == *self,
    {
        *self
    }
}

impl<V: Copy> Copy for Entry<V> {

}

/// The position of the entry for a pipeline, or the number of entries if
/// there is none.
pub open spec fn position_of<V>(entries: Seq<Entry<V>>, id: PipelineId) -> int
    decreases entries.len(),
{
    if entries.len() == 0 {
        0
    } else if entries[0].id == id {
        0
    } else {
        1 + position_of(entries.skip(1), id)
    }
}

/// Whether there is an entry for a pipeline.
pub open spec fn contains<V>(entries: Seq<Entry<V>>, id: PipelineId) -> bool {
    position_of(entries, id) < entries.len()
}

/// What is kept for a pipeline, if anything.
pub open spec fn value_of<V>(entries: Seq<Entry<V>>, id: PipelineId) -> Option<V> {
    if contains(entries, id) {
        Some(entries[position_of(entries, id)].value)
    } else {
        None
    }
}

/// The entries with `value` kept for a pipeline: in place of what was kept
/// for it, or at the end.
pub open spec fn inserted<V>(entries: Seq<Entry<V>>, id: PipelineId, value: V) -> Seq<Entry<V>> {
    if contains(entries, id) {
        entries.update(position_of(entries, id), Entry { id, value })
    } else {
        entries.push(Entry { id, value })
    }
}

/// The entries without the one for a pipeline.
pub open spec fn removed<V>(entries: Seq<Entry<V>>, id: PipelineId) -> Seq<Entry<V>> {
    if contains(entries, id) {
        entries.remove(position_of(entries, id))
    } else {
        entries
    }
}

/// Whether no pipeline has two entries.
pub open spec fn distinct<V>(entries: Seq<Entry<V>>) -> bool {
    forall|i: int, j: int|
        0 <= i < j < entries.len() ==> (#[trigger] entries[i]).id != (#[trigger] entries[j]).id
}

/// The position that `position_of` gives is that of the first entry for the
/// pipeline.
pub proof fn lemma_position_of<V>(entries: Seq<Entry<V>>, id: PipelineId)
    ensures
        0 <= position_of(entries, id) <= entries.len(),
        contains(entries, id) ==> entries[position_of(entries, id)].id == id,
        forall|j: int| 0 <= j < position_of(entries, id) ==> (#[trigger] entries[j]).id != id,
    decreases entries.len(),
{
    if entries.len() > 0 && entries[0].id != id {
        let rest = entries.skip(1);
        lemma_position_of(rest, id);
        assert forall|j: int| 0 <= j < position_of(entries, id) implies (#[trigger] entries[j]).id
            != id by {
            if j > 0 {
                assert(entries[j] == rest[j - 1]);
            }
        }
    }
}

/// An entry for the pipeline at a position with none before it is the one
/// that `position_of` gives.
pub proof fn lemma_position_is_first<V>(entries: Seq<Entry<V>>, id: PipelineId, at: int)
    requires
        0 <= at <= entries.len(),
        at < entries.len() ==> entries[at].id == id,
        forall|j: int| 0 <= j < at ==> (#[trigger] entries[j]).id != id,
    ensures
        position_of(entries, id) == at,
    decreases entries.len(),
{
    if entries.len() > 0 && at > 0 {
        let rest = entries.skip(1);
        assert(entries[0].id != id);
        assert forall|j: int| 0 <= j < at - 1 implies (#[trigger] rest[j]).id != id by {
            assert(rest[j] == entries[j + 1]);
        }
        lemma_position_is_first(rest, id, at - 1);
    }
}

/// Entries by distinct pipelines behave as a map: what was inserted for a
/// pipeline is found for it, what is kept for the others stays, and a
/// pipeline that was removed is absent.
pub proof fn lemma_entries_are_a_map<V>(
    entries: Seq<Entry<V>>,
    id: PipelineId,
    value: V,
    other: PipelineId,
)
    requires
        distinct(entries),
    ensures
        distinct(inserted(entries, id, value)),
        distinct(removed(entries, id)),
        value_of(inserted(entries, id, value), id) == Some(value),
        !contains(removed(entries, id), id),
        other != id ==> value_of(inserted(entries, id, value), other) == value_of(entries, other),
        other != id ==> value_of(removed(entries, id), other) == value_of(entries, other),
{
    lemma_position_of(entries, id);
    lemma_position_of(entries, other);
    let at = position_of(entries, id);
    let other_at = position_of(entries, other);
    let more = inserted(entries, id, value);
    let fewer = removed(entries, id);
    lemma_position_is_first(more, id, at);
    if other != id {
        lemma_position_is_first(more, other, if other_at < entries.len() {
            other_at
        } else {
            more.len() as int
        });
        if contains(entries, id) {
            lemma_position_is_first(fewer, other, if other_at < at {
                other_at
            } else {
                other_at - 1
            });
        }
    }
    if contains(entries, id) {
        lemma_position_is_first(fewer, id, fewer.len() as int);
    }
}

/// Among entries by distinct pipelines, forgetting a pipeline leaves
/// nothing for it and keeps what is there for the others.
pub proof fn lemma_removal_keeps_the_rest<V>(
    entries: Seq<Entry<V>>,
    id: PipelineId,
    other: PipelineId,
)
    requires
        distinct(entries),
    ensures
        distinct(removed(entries, id)),
        !contains(removed(entries, id), id),
        other != id ==> value_of(removed(entries, id), other) == value_of(entries, other),
{
    lemma_position_of(entries, id);
    lemma_position_of(entries, other);
    let at = position_of(entries, id);
    let other_at = position_of(entries, other);
    let fewer = removed(entries, id);
    if contains(entries, id) {
        if other != id {
            lemma_position_is_first(fewer, other, if other_at < at {
                other_at
            } else {
                other_at - 1
            });
        }
        lemma_position_is_first(fewer, id, fewer.len() as int);
    }
}

/// Values kept by pipeline identifier, in the order of their first
/// insertion. No pipeline has two entries.
pub struct PipelineMap<V> {
    entries: Vec<Entry<V>>,
}

impl<V> View for PipelineMap<V> {
    type V = Seq<Entry<V>>;

    closed spec fn view(&self) -> Seq<Entry<V>> {
        self.entries@
    }
}

impl<V> PipelineMap<V> {
    /// What holds of every map: no pipeline has two entries.
    #[verifier::type_invariant]
    pub open spec fn wf(&self) -> bool {
        distinct(self@)
    }
}

impl<V: Copy> PipelineMap<V> {
    pub fn new() -> (map: PipelineMap<V>)
        ensures
            map@ == Seq::<Entry<V>>::empty(),
            distinct(map@),
    {
        PipelineMap { entries: Vec::new() }
    }

    /// The map that holds the given entries, in their order.
    pub fn from_entries(entries: Vec<Entry<V>>) -> (map: PipelineMap<V>)
        requires
            distinct(entries@),
        ensures
            map@ == entries@,
    {
        PipelineMap { entries }
    }

    /// The number of entries. No pipeline has two of them.
    pub fn len(&self) -> (n: usize)
        ensures
            n == self@.len(),
            distinct(self@),
    {
        proof {
            use_type_invariant(self);
        }
        self.entries.len()
    }

    /// Whether nothing is kept.
    pub fn is_empty(&self) -> (empty: bool)
        ensures
            empty == (self@.len() == 0),
    {
        self.entries.len() == 0
    }

    /// The entry at a position. It is the only one for its pipeline.
    pub fn entry(&self, at: usize) -> (entry: Entry<V>)
        requires
            at < self@.len(),
        ensures
            entry == self@[at as int],
            position_of(self@, entry.id) == at,
    {
        proof {
            use_type_invariant(self);
            lemma_position_is_first(self@, self@[at as int].id, at as int);
        }
        self.entries[at]
    }

    /// The position of the entry for a pipeline.
    pub fn position(&self, id: PipelineId) -> (at: Option<usize>)
        ensures
            match at {
                Some(at) => contains(self@, id) && at == position_of(self@, id),
                None => !contains(self@, id),
            },
    {
        let mut i: usize = 0;
        while i < self.entries.len()
            invariant
                i <= self.entries.len(),
                forall|j: int| 0 <= j < i ==> (#[trigger] self.entries@[j]).id != id,
            decreases self.entries.len() - i,
        {
            if self.entries[i].id == id {
                proof {
                    lemma_position_is_first(self@, id, i as int);
                }
                return Some(i);
            }
            i += 1;
        }
        proof {
            lemma_position_is_first(self@, id, i as int);
        }
        None
    }

    /// What is kept for a pipeline.
    pub fn get(&self, id: PipelineId) -> (value: Option<V>)
        ensures
            value == value_of(self@, id),
    {
        match self.position(id) {
            Some(at) => Some(self.entries[at].value),
            None => None,
        }
    }

    /// Keeps `value` for a pipeline, in place of what was kept for it. What
    /// is kept for the other pipelines stays.
    pub fn insert(&mut self, id: PipelineId, value: V)
        ensures
            final(self)@ == inserted(old(self)@, id, value),
            value_of(final(self)@, id) == Some(value),
            forall|other: PipelineId|
                other != id ==> value_of(final(self)@, other) == value_of(old(self)@, other),
    {
        proof {
            use_type_invariant(&*self);
        }
        let at = self.position(id);
        let count = self.entries.len();
        let mut entries: Vec<Entry<V>> = Vec::new();
        let mut i: usize = 0;
        while i < count
            invariant
                i <= count,
                count == self.entries@.len(),
                self@ == old(self)@,
                entries@.len() == i,
                forall|j: int|
                    0 <= j < i ==> #[trigger] entries@[j] == (if at == Some(j as usize) {
                        Entry { id, value }
                    } else {
                        self.entries@[j]
                    }),
            decreases count - i,
        {
            if at == Some(i) {
                entries.push(Entry { id, value });
            } else {
                entries.push(self.entries[i]);
            }
            i += 1;
        }
        if at.is_none() {
            entries.push(Entry { id, value });
        }
        proof {
            assert(entries@ =~= inserted(old(self)@, id, value));
            lemma_entries_are_a_map(old(self)@, id, value, id);
            assert forall|other: PipelineId| other != id implies value_of(entries@, other)
                == value_of(old(self)@, other) by {
                lemma_entries_are_a_map(old(self)@, id, value, other);
            }
        }
        self.entries = entries;
    }

    /// Forgets a pipeline: nothing is kept for it afterwards. What is kept
    /// for the other pipelines stays.
    pub fn remove(&mut self, id: PipelineId)
        ensures
            final(self)@ == removed(old(self)@, id),
            !contains(final(self)@, id),
            forall|other: PipelineId|
                other != id ==> value_of(final(self)@, other) == value_of(old(self)@, other),
    {
        proof {
            use_type_invariant(&*self);
        }
        let at = self.position(id);
        let count = self.entries.len();
        let mut entries: Vec<Entry<V>> = Vec::new();
        let mut i: usize = 0;
        while i < count
            invariant
                i <= count,
                count == self.entries@.len(),
                self@ == old(self)@,
                entries@.len() == (if at is Some && at->0 < i {
                    i - 1
                } else {
                    i as int
                }),
                forall|j: int|
                    0 <= j < entries@.len() ==> #[trigger] entries@[j] == self.entries@[if at
                        is Some && at->0 <= j {
                        j + 1
                    } else {
                        j
                    }],
            decreases count - i,
        {
            if at != Some(i) {
                entries.push(self.entries[i]);
            }
            i += 1;
        }
        proof {
            assert(entries@ =~= removed(old(self)@, id));
            lemma_removal_keeps_the_rest(old(self)@, id, id);
            assert forall|other: PipelineId| other != id implies value_of(entries@, other)
                == value_of(old(self)@, other) by {
                lemma_removal_keeps_the_rest(old(self)@, id, other);
            }
        }
        self.entries = entries;
    }
}

/// What the compositor knows of one pipeline.
#[derive(Clone, Copy, Debug, PartialEq, Eq, Structural)]
pub struct PipelineDetails {
    /// The pipeline itself, once a frame tree has named it.
    pub pipeline: Option<CompositionPipeline>,
    /// Whether animations are running.
    pub animations_running: bool,
    /// Whether there are animation callbacks.
    pub animation_callbacks_running: bool,
    /// Whether this pipeline is visible.
    pub visible: bool,
}

impl PipelineDetails {
    /// What is assumed of a pipeline that nothing is known of: it is
    /// visible and does not animate.
    pub open spec fn spec_new() -> PipelineDetails {
        PipelineDetails {
            pipeline: None,
            animations_running: false,
            animation_callbacks_running: false,
            visible: true,
        }
    }

    pub fn new() -> (details: PipelineDetails)
        ensures
            details == PipelineDetails::spec_new(),
    {
        PipelineDetails {
            pipeline: None,
            animations_running: false,
            animation_callbacks_running: false,
            visible: true,
        }
    }
}

} // verus!

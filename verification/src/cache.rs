//! A map from issue ids to their loaded timelines.

use crate::timeline::event_views;
use crate::types::{EventView, TimelineEvent};
use vstd::prelude::*;

verus! {

/// Timelines already loaded, by issue id.
#[derive(Debug)]
pub struct TimelineCache {
    entries: Vec<(String, Vec<TimelineEvent>)>,
}

/// The map that a list of entries stands for: a later entry for a key
/// overrides an earlier one.
pub open spec fn map_of(entries: Seq<(String, Vec<TimelineEvent>)>) -> Map<
    Seq<char>,
    Seq<EventView>,
>
    decreases entries.len(),
{
    if entries.len() == 0 {
        Map::empty()
    } else {
        map_of(entries.drop_last()).insert(entries.last().0@, event_views(entries.last().1@))
    }
}

impl View for TimelineCache {
    type V = Map<Seq<char>, Seq<EventView>>;

    closed spec fn view(&self) -> Map<Seq<char>, Seq<EventView>> {
        map_of(self.entries@)
    }
}

proof fn lemma_map_of_last(entries: Seq<(String, Vec<TimelineEvent>)>, key: Seq<char>, k: int)
    requires
        0 <= k < entries.len(),
        entries[k].0@ == key,
        forall|j: int| k < j < entries.len() ==> entries[j].0@ != key,
    ensures
        map_of(entries).contains_key(key),
        map_of(entries)[key] == event_views(entries[k].1@),
    decreases entries.len(),
{
    if k < entries.len() - 1 {
        let t = entries.drop_last();
        assert forall|j: int| k < j < t.len() implies t[j].0@ != key by {
            assert(t[j] == entries[j]);
        }
        lemma_map_of_last(t, key, k);
    }
}

proof fn lemma_map_of_absent(entries: Seq<(String, Vec<TimelineEvent>)>, key: Seq<char>)
    requires
        forall|j: int| 0 <= j < entries.len() ==> entries[j].0@ != key,
    ensures
        !map_of(entries).contains_key(key),
    decreases entries.len(),
{
    if entries.len() > 0 {
        let t = entries.drop_last();
        assert forall|j: int| 0 <= j < t.len() implies t[j].0@ != key by {
            assert(t[j] == entries[j]);
        }
        lemma_map_of_absent(t, key);
    }
}

proof fn lemma_map_of_update(
    entries: Seq<(String, Vec<TimelineEvent>)>,
    k: int,
    e: (String, Vec<TimelineEvent>),
)
    requires
        0 <= k < entries.len(),
        entries[k].0@ == e.0@,
        forall|j: int| k < j < entries.len() ==> entries[j].0@ != e.0@,
    ensures
        map_of(entries.update(k, e)) == map_of(entries).insert(e.0@, event_views(e.1@)),
    decreases entries.len(),
{
    let u = entries.update(k, e);
    if k == entries.len() - 1 {
        assert(u.drop_last() =~= entries.drop_last());
        assert(map_of(u) =~= map_of(entries).insert(e.0@, event_views(e.1@)));
    } else {
        let t = entries.drop_last();
        assert forall|j: int| k < j < t.len() implies t[j].0@ != e.0@ by {
            assert(t[j] == entries[j]);
        }
        lemma_map_of_update(t, k, e);
        assert(u.drop_last() =~= t.update(k, e));
        assert(u.last() == entries.last());
        assert(map_of(u) =~= map_of(entries).insert(e.0@, event_views(e.1@)));
    }
}

impl TimelineCache {
    /// An empty cache.
    pub fn new() -> (r: TimelineCache)
        ensures
            r@ == Map::<Seq<char>, Seq<EventView>>::empty(),
    {
        TimelineCache { entries: Vec::new() }
    }

    /// Position of the last entry for `key`, if any.
    fn find(&self, key: &str) -> (r: Option<usize>)
        ensures
            match r {
                Some(k) => k < self.entries@.len() && self.entries@[k as int].0@ == key@
                    && forall|j: int|
                    k < j < self.entries@.len() ==> self.entries@[j].0@ != key@,
                None => forall|j: int|
                    0 <= j < self.entries@.len() ==> self.entries@[j].0@ != key@,
            },
    {
        let mut k = self.entries.len();
        while k > 0
            invariant
                k <= self.entries@.len(),
                forall|j: int| k <= j < self.entries@.len() ==> self.entries@[j].0@ != key@,
            decreases k,
        {
            if crate::text::str_eq(self.entries[k - 1].0.as_str(), key) {
                return Some(k - 1);
            }
            k = k - 1;
        }
        None
    }

    /// Whether a timeline is cached for `key`.
    pub fn contains_key(&self, key: &str) -> (r: bool)
        ensures
            r == self@.contains_key(key@),
    {
        match self.find(key) {
            Some(k) => {
                proof {
                    lemma_map_of_last(self.entries@, key@, k as int);
                }
                true
            },
            None => {
                proof {
                    lemma_map_of_absent(self.entries@, key@);
                }
                false
            },
        }
    }

    /// The timeline cached for `key`, if any.
    pub fn get(&self, key: &str) -> (r: Option<&Vec<TimelineEvent>>)
        ensures
            match r {
                Some(v) => self@.contains_key(key@) && self@[key@] == event_views(v@),
                None => !self@.contains_key(key@),
            },
    {
        match self.find(key) {
            Some(k) => {
                proof {
                    lemma_map_of_last(self.entries@, key@, k as int);
                }
                Some(&self.entries[k].1)
            },
            None => {
                proof {
                    lemma_map_of_absent(self.entries@, key@);
                }
                None
            },
        }
    }

    /// Caches `events` for `key`, replacing what was cached for it.
    pub fn insert(&mut self, key: String, events: Vec<TimelineEvent>)
        ensures
            final(self)@ == old(self)@.insert(key@, event_views(events@)),
    {
        match self.find(key.as_str()) {
            Some(k) => {
                proof {
                    lemma_map_of_update(self.entries@, k as int, (key, events));
                }
                self.entries.set(k, (key, events));
            },
            None => {
                self.entries.push((key, events));
                assert(self.entries@.drop_last() == old(self).entries@);
            },
        }
    }

    /// Empties the cache.
    pub fn clear(&mut self)
        ensures
            final(self)@ == Map::<Seq<char>, Seq<EventView>>::empty(),
    {
        self.entries.clear();
        assert(self.entries@ =~= Seq::<(String, Vec<TimelineEvent>)>::empty());
    }
}

} // verus!

//! Scene-item bookkeeping for camera moves: the anchor an item's alignment
//! puts its position at, and the cache of scene-item ids.

use vstd::prelude::*;

use crate::keyed::{key_index, law_read_after_write, law_retain_keys, retain_keys, set_value, value_of};
use crate::obs::cache_key;
use crate::obs_events::{purge_hits, purge_matches, purge_model, CachePurge};
use crate::text::str_eq;
use vstd::string::StringExecFns;

verus! {

/// Where along one axis an item's position sits on the item.
#[derive(Debug, Clone, Copy, PartialEq, Eq, Structural)]
pub enum Anchor {
    /// The left or top edge.
    Start,
    /// The middle.
    Center,
    /// The right or bottom edge.
    End,
}

/// Alignment flag: left edge.
pub const ALIGN_LEFT: u32 = 1;
/// Alignment flag: right edge.
pub const ALIGN_RIGHT: u32 = 2;
/// Alignment flag: top edge.
pub const ALIGN_TOP: u32 = 4;
/// Alignment flag: bottom edge.
pub const ALIGN_BOTTOM: u32 = 8;

/// Flag `flag` is set in `alignment`.
pub open spec fn has_flag(alignment: u32, flag: u32) -> bool {
    alignment & flag != 0
}

/// The anchor along one axis: the first edge when its flag is set, else the
/// second edge when its flag is set, else the middle.
pub open spec fn axis_anchor(alignment: u32, first: u32, second: u32) -> Anchor {
    if has_flag(alignment, first) {
        Anchor::Start
    } else if has_flag(alignment, second) {
        Anchor::End
    } else {
        Anchor::Center
    }
}

/// The (horizontal, vertical) anchor of an item from its alignment flags
/// (left 1, right 2, top 4, bottom 8; none set is the center). Left wins
/// over right and top over bottom.
pub fn anchor_from_alignment(alignment: u32) -> (r: (Anchor, Anchor))
    ensures
        r == (axis_anchor(alignment, ALIGN_LEFT, ALIGN_RIGHT), axis_anchor(alignment, ALIGN_TOP, ALIGN_BOTTOM)),
{
    let x = if alignment & ALIGN_LEFT != 0 {
        Anchor::Start
    } else if alignment & ALIGN_RIGHT != 0 {
        Anchor::End
    } else {
        Anchor::Center
    };
    let y = if alignment & ALIGN_TOP != 0 {
        Anchor::Start
    } else if alignment & ALIGN_BOTTOM != 0 {
        Anchor::End
    } else {
        Anchor::Center
    };
    (x, y)
}

/// The ids OBS gave to scene items, by cache key `"<scene>::<source>"`.
#[derive(Debug, Clone)]
pub struct ItemIdCache {
    entries: Vec<(String, i64)>,
}

impl View for ItemIdCache {
    type V = Seq<(Seq<char>, i64)>;

    closed spec fn view(&self) -> Seq<(Seq<char>, i64)> {
        self.entries@.map_values(|p: (String, i64)| (p.0@, p.1))
    }
}

/// The keys a purge drops.
pub open spec fn purge_hit_fn(purge: CachePurge) -> spec_fn(Seq<char>) -> bool {
    |k: Seq<char>| purge_hits(purge_model(purge), k)
}

impl ItemIdCache {
    /// An empty cache.
    pub fn new() -> (r: ItemIdCache)
        ensures
            r@.len() == 0,
    {
        let c = ItemIdCache { entries: Vec::new() };
        assert(c@ =~= Seq::<(Seq<char>, i64)>::empty());
        c
    }

    /// The number of cached ids.
    pub fn len(&self) -> (r: usize)
        ensures
            r == self@.len(),
    {
        self.entries.len()
    }

    fn find(&self, key: &str) -> (r: Option<usize>)
        ensures
            r.is_some() == key_index(self@, key@, 0).is_some(),
            r matches Some(i) ==> key_index(self@, key@, 0) == Some(i as int) && i < self@.len(),
    {
        let mut i: usize = 0;
        while i < self.entries.len()
            invariant
                i <= self.entries@.len(),
                self@.len() == self.entries@.len(),
                key_index(self@, key@, 0) == key_index(self@, key@, i as int),
            decreases self.entries.len() - i,
        {
            assert(self@[i as int] == (self.entries@[i as int].0@, self.entries@[i as int].1));
            if str_eq(self.entries[i].0.as_str(), key) {
                return Some(i);
            }
            i = i + 1;
        }
        None
    }

    /// The id cached under `key`.
    pub fn get(&self, key: &str) -> (r: Option<i64>)
        ensures
            r == value_of(self@, key@),
    {
        match self.find(key) {
            Some(i) => {
                assert(self@[i as int] == (self.entries@[i as int].0@, self.entries@[i as int].1));
                Some(self.entries[i].1)
            },
            None => None,
        }
    }

    /// Cache `id` under `key`.
    pub fn insert(&mut self, key: &str, id: i64)
        ensures
            final(self)@ == set_value(old(self)@, key@, id),
    {
        let entry = (String::from_str(key), id);
        match self.find(key) {
            Some(i) => {
                self.entries.set(i, entry);
            },
            None => {
                self.entries.push(entry);
            },
        }
        assert(self@ =~= set_value(old(self)@, key@, id));
    }

    /// The id cached for item `source` of scene `scene`.
    pub fn lookup(&self, scene: &str, source: &str) -> (r: Option<i64>)
        ensures
            r == value_of(self@, scene@ + "::"@ + source@),
    {
        let key = cache_key(scene, source);
        self.get(key.as_str())
    }

    /// Cache `id` for item `source` of scene `scene`; that lookup then
    /// gives `id`, and every other key reads as before.
    pub fn remember(&mut self, scene: &str, source: &str, id: i64)
        ensures
            final(self)@ == set_value(old(self)@, scene@ + "::"@ + source@, id),
            value_of(final(self)@, scene@ + "::"@ + source@) == Some(id),
            forall|k: Seq<char>| k != scene@ + "::"@ + source@ ==> value_of(final(self)@, k) == value_of(old(self)@, k),
    {
        let key = cache_key(scene, source);
        self.insert(key.as_str(), id);
        proof {
            assert forall|k: Seq<char>| k != scene@ + "::"@ + source@ implies value_of(final(self)@, k) == value_of(old(self)@, k) by {
                law_read_after_write(old(self)@, scene@ + "::"@ + source@, id, k);
            }
            law_read_after_write(old(self)@, scene@ + "::"@ + source@, id, scene@ + "::"@ + source@);
        }
    }

    /// Drop the ids whose key `purge` hits; returns how many were dropped.
    /// The keys hit read as absent afterwards and all others as before.
    pub fn purge(&mut self, purge: &CachePurge) -> (r: usize)
        ensures
            final(self)@ == retain_keys(old(self)@, purge_hit_fn(*purge)),
            forall|k: Seq<char>| #[trigger] value_of(final(self)@, k) == (if purge_hits(purge_model(*purge), k) { None } else { value_of(old(self)@, k) }),
            r == old(self)@.len() - final(self)@.len(),
    {
        let ghost hit = purge_hit_fn(*purge);
        let ghost before = self@;
        let mut kept: Vec<(String, i64)> = Vec::new();
        let mut i: usize = 0;
        while i < self.entries.len()
            invariant
                i <= self.entries@.len(),
                before == self@,
                before.len() == self.entries@.len(),
                hit == purge_hit_fn(*purge),
                kept@.map_values(|p: (String, i64)| (p.0@, p.1)) == retain_keys(before.take(i as int), hit),
                kept@.len() <= i,
            decreases self.entries.len() - i,
        {
            assert(before[i as int] == (self.entries@[i as int].0@, self.entries@[i as int].1));
            assert(before.take(i as int) == before.take((i + 1) as int).drop_last());
            let drop = purge_matches(purge, self.entries[i].0.as_str());
            if !drop {
                let e = (self.entries[i].0.clone(), self.entries[i].1);
                kept.push(e);
                assert(kept@.map_values(|p: (String, i64)| (p.0@, p.1)) =~= retain_keys(before.take(i as int), hit).push(before[i as int]));
            }
            i = i + 1;
        }
        assert(before.take(before.len() as int) == before);
        let removed = self.entries.len() - kept.len();
        self.entries = kept;
        proof {
            assert forall|k: Seq<char>| #[trigger] value_of(self@, k) == (if purge_hits(purge_model(*purge), k) { None } else { value_of(before, k) }) by {
                law_retain_keys(before, hit, k);
            }
        }
        removed
    }
}


/// Removing a scene item, its scene or its source purges the item's cache
/// key: the key itself, the scene prefix `"<scene>::"` and the source
/// suffix `"::<source>"` all hit `"<scene>::<source>"`.
pub proof fn law_removals_hit_item_key(scene: Seq<char>, source: Seq<char>)
    ensures
        purge_hits((0, scene + "::"@ + source), scene + "::"@ + source),
        purge_hits((1, scene + "::"@), scene + "::"@ + source),
        purge_hits((2, "::"@ + source), scene + "::"@ + source),
{
    let key = scene + "::"@ + source;
    let p = scene + "::"@;
    let q = "::"@ + source;
    assert(key.subrange(0, p.len() as int) =~= p);
    assert(key.subrange(key.len() - q.len(), key.len() as int) =~= q);
}

} // verus!

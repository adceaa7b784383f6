//! The resolution cache: remote entities that were fetched recently.
//!
//! The cache is bounded twice. It never holds more than `capacity`
//! entries, the oldest leaving first, and an entry answers lookups only
//! for `ttl_secs` seconds after it was stored. A URL has at most one entry:
//! storing it again replaces the old one.

use vstd::prelude::*;
use crate::objects::{Entity, EntityView};
use crate::seq_lemmas::{
    first_index, lemma_filter_kept, lemma_filter_push, lemma_filter_subset, lemma_first_index_is,
    lemma_map_push,
    lemma_take_ends, lemma_take_push,
};

verus! {

/// One cached entity.
#[derive(Debug, PartialEq, Eq)]
pub struct CacheEntry {
    pub url: String,
    pub entity: Entity,
    /// When the entity was stored, in seconds on the caller's clock.
    pub stored_at: u64,
}

pub struct CacheEntryView {
    pub url: Seq<char>,
    pub entity: EntityView,
    pub stored_at: u64,
}

impl View for CacheEntry {
    type V = CacheEntryView;

    open spec fn view(&self) -> CacheEntryView {
        CacheEntryView { url: self.url@, entity: self.entity@, stored_at: self.stored_at }
    }
}

impl Clone for CacheEntry {
    fn clone(&self) -> (res: Self)
        ensures
            res == *self,
    {
        CacheEntry {
            url: self.url.clone(),
            entity: self.entity.clone(),
            stored_at: self.stored_at,
        }
    }
}

/// The cache of resolved remote entities.
#[derive(Debug, PartialEq, Eq)]
pub struct Cache {
    entries: Vec<CacheEntry>,
    capacity: usize,
    ttl_secs: u64,
}

pub struct CacheView {
    /// The entries, oldest first.
    pub entries: Seq<CacheEntryView>,
    pub capacity: nat,
    pub ttl_secs: u64,
}

/// Test: the entry is for `url`.
pub open spec fn with_url(url: Seq<char>) -> spec_fn(CacheEntryView) -> bool {
    |e: CacheEntryView| e.url == url
}

/// Test: the entry is for another URL than `url`.
pub open spec fn with_other_url(url: Seq<char>) -> spec_fn(CacheEntryView) -> bool {
    |e: CacheEntryView| e.url != url
}

impl CacheEntryView {
    /// An entry answers from the second it was stored until `ttl_secs`
    /// seconds later, exclusive.
    pub open spec fn fresh(self, now: u64, ttl_secs: u64) -> bool {
        self.stored_at <= now && now - self.stored_at < ttl_secs
    }
}

impl CacheView {
    /// A cache is well formed when it is within its capacity and holds at
    /// most one entry for a URL.
    pub open spec fn wf(self) -> bool {
        &&& self.entries.len() <= self.capacity
        &&& urls_unique(self.entries)
    }

    /// The entity cached for `url`, if its entry still answers at `now`.
    pub open spec fn get(self, url: Seq<char>, now: u64) -> Option<EntityView> {
        let at = first_index(self.entries, with_url(url));
        if at < self.entries.len() && self.entries[at].fresh(now, self.ttl_secs) {
            Some(self.entries[at].entity)
        } else {
            None
        }
    }

    /// The cache after `entity` was stored for `url` at `now`: the old entry
    /// for `url` is gone, the oldest entries have left to make room, and the
    /// new entry is the youngest.
    pub open spec fn put(self, url: Seq<char>, entity: EntityView, now: u64) -> CacheView {
        let others = self.entries.filter(with_other_url(url));
        let leaving = if others.len() >= self.capacity {
            others.len() - self.capacity + 1
        } else {
            0
        };
        if self.capacity == 0 {
            CacheView { entries: Seq::empty(), ..self }
        } else {
            CacheView {
                entries: others.skip(leaving).push(CacheEntryView { url, entity, stored_at: now }),
                ..self
            }
        }
    }
}

/// No two entries are for the same URL.
pub open spec fn urls_unique(entries: Seq<CacheEntryView>) -> bool {
    forall|i: int, j: int| 0 <= i < j < entries.len() ==> entries[i].url != entries[j].url
}

proof fn lemma_filter_keeps_unique(
    entries: Seq<CacheEntryView>,
    pred: spec_fn(CacheEntryView) -> bool,
)
    requires
        urls_unique(entries),
    ensures
        urls_unique(entries.filter(pred)),
    decreases entries.len(),
{
    reveal(Seq::filter);
    if entries.len() > 0 {
        let front = entries.drop_last();
        let kept = front.filter(pred);
        assert(urls_unique(front)) by {
            assert forall|i: int, j: int| 0 <= i < j < front.len() implies front[i].url
                != front[j].url by {
                assert(front[i] == entries[i] && front[j] == entries[j]);
            }
        }
        lemma_filter_keeps_unique(front, pred);
        lemma_filter_subset(front, pred);
        if pred(entries.last()) {
            let after = kept.push(entries.last());
            assert forall|i: int, j: int| 0 <= i < j < after.len() implies after[i].url
                != after[j].url by {
                if j == kept.len() {
                    let x = kept[i];
                    assert(front.contains(x));
                    let k = choose|k: int| 0 <= k < front.len() && front[k] == x;
                    assert(entries[k] == x);
                    assert(entries[k].url != entries[entries.len() - 1].url);
                } else {
                    assert(after[i] == kept[i] && after[j] == kept[j]);
                }
            }
        }
    }
}

/// Storing an entity makes any cache fit its capacity, and keeps a
/// well-formed cache well formed.
pub proof fn lemma_put_keeps_wf(cache: CacheView, url: Seq<char>, entity: EntityView, now: u64)
    ensures
        cache.put(url, entity, now).entries.len() <= cache.capacity,
        urls_unique(cache.entries) ==> cache.put(url, entity, now).wf(),
{
    let others = cache.entries.filter(with_other_url(url));
    if cache.capacity > 0 && urls_unique(cache.entries) {
        let leaving = if others.len() >= cache.capacity {
            others.len() - cache.capacity + 1
        } else {
            0
        };
        let room = others.skip(leaving);
        let after = cache.put(url, entity, now).entries;
        lemma_filter_kept(cache.entries, with_other_url(url));
        lemma_filter_keeps_unique(cache.entries, with_other_url(url));
        assert forall|i: int, j: int| 0 <= i < j < after.len() implies after[i].url
            != after[j].url by {
            assert(after[i] == others[i + leaving]);
            if j < room.len() {
                assert(after[j] == others[j + leaving]);
            } else {
                assert(with_other_url(url)(others[i + leaving]));
            }
        }
    }
}

/// Once an entity is stored, a cache that may hold anything at all
/// answers for its URL with that entity until the entry expires.
pub proof fn lemma_put_get(cache: CacheView, url: Seq<char>, entity: EntityView, now: u64)
    ensures
        cache.capacity > 0 ==> forall|later: u64|
            now <= later && later - now < cache.ttl_secs ==> #[trigger] cache.put(
                url,
                entity,
                now,
            ).get(url, later) == Some(entity),
{
    let others = cache.entries.filter(with_other_url(url));
    if cache.capacity > 0 {
        let leaving = if others.len() >= cache.capacity {
            others.len() - cache.capacity + 1
        } else {
            0
        };
        let room = others.skip(leaving);
        let after = cache.put(url, entity, now).entries;
        lemma_filter_kept(cache.entries, with_other_url(url));
        assert forall|j: int| 0 <= j < room.len() implies !with_url(url)(#[trigger] after[j]) by {
            assert(after[j] == others[j + leaving]);
        }
        lemma_first_index_is(after, with_url(url), room.len() as int);
    }
}

impl View for Cache {
    type V = CacheView;

    closed spec fn view(&self) -> CacheView {
        CacheView {
            entries: self.entries@.map_values(|e: CacheEntry| e@),
            capacity: self.capacity as nat,
            ttl_secs: self.ttl_secs,
        }
    }
}

impl Cache {
    /// An empty cache for at most `capacity` entities, each answering for
    /// `ttl_secs` seconds.
    pub fn new(capacity: usize, ttl_secs: u64) -> (cache: Cache)
        ensures
            cache@ == (CacheView { entries: Seq::empty(), capacity: capacity as nat, ttl_secs }),
            cache@.wf(),
    {
        let cache = Cache { entries: Vec::new(), capacity, ttl_secs };
        assert(cache@.entries =~= Seq::empty());
        cache
    }

    /// The entity cached for `url`, if its entry still answers at `now`.
    /// Only memory is read.
    pub fn get(&self, url: &String, now: u64) -> (found: Option<Entity>)
        ensures
            found.is_some() == self@.get(url@, now).is_some(),
            found matches Some(e) ==> self@.get(url@, now) == Some(e@),
    {
        let mut i: usize = 0;
        while i < self.entries.len()
            invariant
                i <= self.entries.len(),
                self.entries.len() == self@.entries.len(),
                forall|j: int| 0 <= j < i ==> !with_url(url@)(#[trigger] self@.entries[j]),
            decreases self.entries.len() - i,
        {
            let entry = &self.entries[i];
            if entry.url == *url {
                proof {
                    lemma_first_index_is(self@.entries, with_url(url@), i as int);
                }
                if entry.stored_at <= now && now - entry.stored_at < self.ttl_secs {
                    return Some(entry.entity.clone());
                } else {
                    return None;
                }
            }
            i += 1;
        }
        proof {
            lemma_first_index_is(self@.entries, with_url(url@), i as int);
        }
        None
    }

    /// Stores `entity` for `url` at `now`.
    pub fn put(&mut self, url: String, entity: Entity, now: u64)
        ensures
            final(self)@ == old(self)@.put(url@, entity@, now),
            final(self)@.entries.len() <= final(self)@.capacity,
            old(self)@.wf() ==> final(self)@.wf(),
    {
        proof {
            lemma_put_keeps_wf(self@, url@, entity@, now);
        }
        if self.capacity == 0 {
            self.entries = Vec::new();
            assert(self@.entries =~= Seq::empty());
            return ;
        }
        let ghost view_of = |e: CacheEntry| e@;
        let ghost keep = with_other_url(url@);
        let ghost before = self@.entries;
        let mut others: Vec<CacheEntry> = Vec::new();
        let mut i: usize = 0;
        proof {
            lemma_take_ends(before);
            reveal(Seq::filter);
            assert(others@.map_values(view_of) =~= Seq::<CacheEntryView>::empty());
        }
        while i < self.entries.len()
            invariant
                i <= self.entries.len(),
                before == self@.entries,
                before == self.entries@.map_values(view_of),
                keep == with_other_url(url@),
                others@.map_values(view_of) == before.take(i as int).filter(keep),
            decreases self.entries.len() - i,
        {
            let entry = &self.entries[i];
            proof {
                lemma_take_push(before, i as int);
                lemma_filter_push(before.take(i as int), entry@, keep);
            }
            if entry.url != url {
                let copy = entry.clone();
                proof {
                    lemma_map_push(others@, copy, view_of);
                }
                others.push(copy);
            }
            i += 1;
        }
        proof {
            lemma_take_ends(before);
        }
        let ghost kept = before.filter(keep);
        let start: usize = if others.len() >= self.capacity {
            others.len() - self.capacity + 1
        } else {
            0
        };
        let mut next: Vec<CacheEntry> = Vec::new();
        let mut j: usize = start;
        proof {
            assert(next@.map_values(view_of) =~= kept.subrange(start as int, j as int));
        }
        while j < others.len()
            invariant
                start <= j <= others.len(),
                forall|e: CacheEntry| #[trigger] view_of(e) == e@,
                others@.map_values(view_of) == kept,
                next@.map_values(view_of) == kept.subrange(start as int, j as int),
            decreases others.len() - j,
        {
            let copy = others[j].clone();
            proof {
                lemma_map_push(next@, copy, view_of);
                assert(others@.map_values(view_of)[j as int] == copy@);
                assert(kept.subrange(start as int, j as int).push(copy@) =~= kept.subrange(
                    start as int,
                    j + 1,
                ));
            }
            next.push(copy);
            j += 1;
        }
        let entry = CacheEntry { url, entity, stored_at: now };
        proof {
            lemma_map_push(next@, entry, view_of);
            assert(kept.subrange(start as int, kept.len() as int) =~= kept.skip(start as int));
        }
        next.push(entry);
        self.entries = next;
    }
}

} // verus!

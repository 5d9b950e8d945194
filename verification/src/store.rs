//! The read-through cache engine.
//!
//! A [`CacheStore`] holds string-keyed, timestamped entries in memory,
//! remembers whether its disk snapshot has been folded in since process
//! start, and judges freshness by an optional time-to-live. It is the one
//! shared object behind every outbound call: a request first consults it,
//! and only a stale or absent entry opens the slow path that runs a loader
//! and commits its result. The caller holds the instance's lock across that
//! slow path, so at most one fetch-and-persist sequence is in flight per
//! instance; the lemmas at the end of this module state what the engine
//! itself guarantees about refreshes, permanence and restarts.

use vstd::prelude::*;

verus! {

/// One cached value and the second at which it was stored. A refresh
/// replaces an entry wholesale; an entry is never mutated in place.
pub struct CacheEntry<V> {
    pub value: V,
    pub inserted_at: u64,
}

/// Whether an entry stored at `inserted_at` is still trusted at `now`:
/// always, for a permanent cache, and while its age is below the
/// time-to-live otherwise. A clock that appears to run backwards leaves
/// entries trusted rather than evicting them.
pub open spec fn spec_fresh(inserted_at: u64, now: u64, ttl: Option<u64>) -> bool {
    match ttl {
        Option::None => true,
        Option::Some(t) => (now as int) < inserted_at + t,
    }
}

/// The map described by a keyed entry list, later pairs winning.
pub open spec fn entries_map<V>(s: Seq<(String, CacheEntry<V>)>) -> Map<Seq<char>, CacheEntry<V>>
    decreases s.len(),
{
    if s.len() == 0 {
        Map::empty()
    } else {
        entries_map(s.drop_last()).insert(s.last().0@, s.last().1)
    }
}

/// No two positions of an entry list carry the same key.
pub open spec fn unique_keys<V>(s: Seq<(String, CacheEntry<V>)>) -> bool {
    forall|i: int, j: int|
        0 <= i < j < s.len() ==> (#[trigger] s[i]).0@ != (#[trigger] s[j]).0@
}

/// A key is in the map of an entry list exactly when some position carries
/// it.
pub proof fn lemma_entries_map_dom<V>(s: Seq<(String, CacheEntry<V>)>, k: Seq<char>)
    ensures
        entries_map(s).dom().contains(k) <==> exists|i: int|
            0 <= i < s.len() && (#[trigger] s[i]).0@ == k,
    decreases s.len(),
{
    if s.len() == 0 {
    } else {
        lemma_entries_map_dom(s.drop_last(), k);
        if entries_map(s).dom().contains(k) {
            if s.last().0@ != k {
                let i = choose|i: int| 0 <= i < s.len() - 1 && (#[trigger] s.drop_last()[i]).0@
                    == k;
                assert(s[i].0@ == k);
            } else {
                assert(s[s.len() - 1].0@ == k);
            }
        }
        if exists|i: int| 0 <= i < s.len() && (#[trigger] s[i]).0@ == k {
            let i = choose|i: int| 0 <= i < s.len() && (#[trigger] s[i]).0@ == k;
            if i < s.len() - 1 {
                assert(s.drop_last()[i].0@ == k);
            }
        }
    }
}

/// Under unique keys, the map of an entry list carries each position's
/// entry at that position's key.
pub proof fn lemma_entries_map_index<V>(s: Seq<(String, CacheEntry<V>)>, i: int)
    requires
        unique_keys(s),
        0 <= i < s.len(),
    ensures
        entries_map(s).dom().contains(s[i].0@),
        entries_map(s)[s[i].0@] == s[i].1,
    decreases s.len(),
{
    if i == s.len() - 1 {
    } else {
        assert(unique_keys(s.drop_last())) by {
            assert(forall|a: int, b: int|
                0 <= a < b < s.len() - 1 ==> (#[trigger] s.drop_last()[a]) == s[a]
                    && (#[trigger] s.drop_last()[b]) == s[b]);
        }
        assert(s.drop_last()[i] == s[i]);
        lemma_entries_map_index(s.drop_last(), i);
        assert(s[i].0@ != s.last().0@);
    }
}

/// The read-through cache engine: an in-memory map of timestamped entries,
/// a flag telling whether the disk snapshot has been folded in since
/// process start, and the expiry policy the instance was built with.
pub struct CacheStore<V> {
    slots: Vec<(String, CacheEntry<V>)>,
    loaded: bool,
    ttl: Option<u64>,
    sweep_on_insert: bool,
}

impl<V> CacheStore<V> {
    /// The key-to-entry map this store holds.
    pub closed spec fn contents(self) -> Map<Seq<char>, CacheEntry<V>> {
        entries_map(self.slots@)
    }

    /// The entry list behind the map, exposed for the snapshot writers.
    pub closed spec fn spec_entries(self) -> Seq<(String, CacheEntry<V>)> {
        self.slots@
    }

    /// Whether the snapshot file has been folded in since process start.
    pub closed spec fn spec_loaded(self) -> bool {
        self.loaded
    }

    /// The time-to-live this instance judges freshness by, if any.
    pub closed spec fn spec_ttl(self) -> Option<u64> {
        self.ttl
    }

    /// Whether a successful insert sweeps expired entries from the map.
    pub closed spec fn spec_sweep(self) -> bool {
        self.sweep_on_insert
    }

    /// Keys are unique in the entry list.
    pub closed spec fn wf(self) -> bool {
        unique_keys(self.slots@)
    }

    /// Whether `key` holds an entry trusted at `now`.
    pub open spec fn spec_has_fresh(self, key: Seq<char>, now: u64) -> bool {
        self.contents().dom().contains(key) && spec_fresh(
            self.contents()[key].inserted_at,
            now,
            self.spec_ttl(),
        )
    }

    /// Builds an empty, not-yet-loaded store with the given expiry policy.
    pub fn new(ttl: Option<u64>, sweep_on_insert: bool) -> (s: Self)
        ensures
            s.wf(),
            !s.spec_loaded(),
            s.contents() == Map::<Seq<char>, CacheEntry<V>>::empty(),
            s.spec_ttl() == ttl,
            s.spec_sweep() == sweep_on_insert,
    {
        CacheStore { slots: Vec::new(), loaded: false, ttl, sweep_on_insert }
    }

    /// Whether the snapshot file has been folded in since process start.
    pub fn is_loaded(&self) -> (r: bool)
        ensures
            r == self.spec_loaded(),
    {
        self.loaded
    }

    /// Records that the snapshot has been consulted, even when it was
    /// missing or unreadable and the store stays as it was.
    pub fn mark_loaded(&mut self)
        ensures
            final(self).wf() == old(self).wf(),
            final(self).contents() == old(self).contents(),
            final(self).spec_loaded(),
            final(self).spec_ttl() == old(self).spec_ttl(),
            final(self).spec_sweep() == old(self).spec_sweep(),
    {
        self.loaded = true;
    }

    /// Returns the cached value for `key` exactly when the store holds an
    /// entry for it that is still trusted at `now`: the fast path of a
    /// read, and the re-check a slow-path holder performs before it decides
    /// to run the loader.
    pub fn lookup(&self, key: &String, now: u64) -> (r: Option<&V>)
        requires
            self.wf(),
        ensures
            match r {
                Option::Some(v) => self.spec_has_fresh(key@, now) && *v == self.contents()[key@].value,
                Option::None => !self.spec_has_fresh(key@, now),
            },
    {
        let n = self.slots.len();
        let mut i: usize = 0;
        while i < n
            invariant
                0 <= i <= n,
                n == self.slots@.len(),
                self.wf(),
                forall|j: int| 0 <= j < i ==> (#[trigger] self.slots@[j]).0@ != key@,
            decreases n - i,
        {
            if self.slots[i].0 == *key {
                proof {
                    lemma_entries_map_index(self.slots@, i as int);
                }
                if is_fresh(self.slots[i].1.inserted_at, now, self.ttl) {
                    return Some(&self.slots[i].1.value);
                } else {
                    return None;
                }
            }
            i = i + 1;
        }
        proof {
            lemma_entries_map_dom(self.slots@, key@);
        }
        None
    }

    /// Whether a slow-path holder must run the loader for `key` at `now`:
    /// true exactly when no trusted entry is present.
    pub fn needs_refresh(&self, key: &String, now: u64) -> (r: bool)
        requires
            self.wf(),
        ensures
            r == !self.spec_has_fresh(key@, now),
    {
        match self.lookup(key, now) {
            Option::Some(_) => false,
            Option::None => true,
        }
    }

    /// The second at which `key` was stored, if it is present at all,
    /// fresh or not.
    pub fn stored_at(&self, key: &String) -> (r: Option<u64>)
        requires
            self.wf(),
        ensures
            match r {
                Option::Some(t) => self.contents().dom().contains(key@) && t
                    == self.contents()[key@].inserted_at,
                Option::None => !self.contents().dom().contains(key@),
            },
    {
        let n = self.slots.len();
        let mut i: usize = 0;
        while i < n
            invariant
                0 <= i <= n,
                n == self.slots@.len(),
                self.wf(),
                forall|j: int| 0 <= j < i ==> (#[trigger] self.slots@[j]).0@ != key@,
            decreases n - i,
        {
            if self.slots[i].0 == *key {
                proof {
                    lemma_entries_map_index(self.slots@, i as int);
                }
                return Some(self.slots[i].1.inserted_at);
            }
            i = i + 1;
        }
        proof {
            lemma_entries_map_dom(self.slots@, key@);
        }
        None
    }
}

/// The map with every entry that expired by `now` dropped: what the
/// eviction sweep leaves behind.
pub open spec fn spec_swept<V>(
    m: Map<Seq<char>, CacheEntry<V>>,
    now: u64,
    ttl: Option<u64>,
) -> Map<Seq<char>, CacheEntry<V>> {
    Map::<Seq<char>, CacheEntry<V>>::new(
        |k: Seq<char>| m.dom().contains(k) && spec_fresh(m[k].inserted_at, now, ttl),
        |k: Seq<char>| m[k],
    )
}

/// The map with `key` dropped and, when `sweep_at` carries a time, every
/// entry that expired by then dropped too: what one rebuilding pass keeps.
spec fn spec_kept<V>(
    m: Map<Seq<char>, CacheEntry<V>>,
    key: Seq<char>,
    sweep_at: Option<u64>,
    ttl: Option<u64>,
) -> Map<Seq<char>, CacheEntry<V>> {
    Map::<Seq<char>, CacheEntry<V>>::new(
        |k: Seq<char>| m.dom().contains(k) && k != key && (match sweep_at {
            Option::Some(nw) => spec_fresh(m[k].inserted_at, nw, ttl),
            Option::None => true,
        }),
        |k: Seq<char>| m[k],
    )
}

/// What the map holds after a successful loader run commits `value` for
/// `key` at `now`: for a sweeping instance the expired entries leave and
/// the new entry is stored; otherwise the new entry alone replaces its
/// predecessor. (Sweeping just after the insert instead would change
/// nothing under a positive time-to-live, since a just-inserted entry has
/// age zero.)
pub open spec fn spec_after_insert<V>(
    pre: CacheStore<V>,
    key: Seq<char>,
    value: V,
    now: u64,
) -> Map<Seq<char>, CacheEntry<V>> {
    let e = CacheEntry { value, inserted_at: now };
    if pre.spec_sweep() {
        spec_swept(pre.contents(), now, pre.spec_ttl()).insert(key, e)
    } else {
        pre.contents().insert(key, e)
    }
}

impl<V> CacheStore<V> {
    /// Rebuilds the entry list keeping everything but `key` (and, when
    /// `sweep_at` carries a time, everything not yet expired), then stores
    /// `e` under `key`.
    fn store_entry(&mut self, key: String, e: CacheEntry<V>, sweep_at: Option<u64>)
        requires
            old(self).wf(),
        ensures
            final(self).wf(),
            final(self).contents() == spec_kept(
                old(self).contents(),
                key@,
                sweep_at,
                old(self).spec_ttl(),
            ).insert(key@, e),
            final(self).spec_loaded() == old(self).spec_loaded(),
            final(self).spec_ttl() == old(self).spec_ttl(),
            final(self).spec_sweep() == old(self).spec_sweep(),
    {
        let ghost orig = self.slots@;
        let ghost m_kept = spec_kept(entries_map(orig), key@, sweep_at, self.ttl);
        let mut kept: Vec<(String, CacheEntry<V>)> = Vec::new();
        while self.slots.len() > 0
            invariant
                unique_keys(orig),
                self.slots@ =~= orig.skip(orig.len() - self.slots@.len()),
                self.slots@.len() <= orig.len(),
                self.spec_ttl() == old(self).spec_ttl(),
                self.spec_loaded() == old(self).spec_loaded(),
                self.spec_sweep() == old(self).spec_sweep(),
                unique_keys(kept@),
                entries_map(kept@) == spec_kept(
                    entries_map(orig.take(orig.len() - self.slots@.len())),
                    key@,
                    sweep_at,
                    self.ttl,
                ),
                forall|a: int|
                    0 <= a < kept@.len() ==> entries_map(
                        orig.take(orig.len() - self.slots@.len()),
                    ).dom().contains((#[trigger] kept@[a]).0@) && kept@[a].0@ != key@,
            decreases self.slots@.len(),
        {
            let ghost done = orig.len() - self.slots@.len();
            let ghost pre_map = entries_map(orig.take(done));
            let x = self.slots.remove(0);
            proof {
                assert(x == orig[done]);
                assert(self.slots@ =~= orig.skip(done + 1));
                assert(orig.take(done + 1).drop_last() =~= orig.take(done));
                assert(orig.take(done + 1).last() == orig[done]);
                // The key at this position has not occurred before it.
                lemma_entries_map_dom(orig.take(done), x.0@);
                if pre_map.dom().contains(x.0@) {
                    let a = choose|a: int|
                        0 <= a < done && (#[trigger] orig.take(done)[a]).0@ == x.0@;
                    assert(orig[a].0@ == orig[done as int].0@);
                    assert(false);
                }
            }
            let keep_by_key = !(x.0 == key);
            let keep_by_age = match sweep_at {
                Option::Some(nw) => is_fresh(x.1.inserted_at, nw, self.ttl),
                Option::None => true,
            };
            let ghost post_map = entries_map(orig.take(done + 1));
            proof {
                assert(post_map == pre_map.insert(x.0@, x.1));
            }
            if keep_by_key && keep_by_age {
                proof {
                    // A kept slot cannot repeat a key already kept.
                    if exists|a: int| 0 <= a < kept@.len() && (#[trigger] kept@[a]).0@ == x.0@ {
                        assert(false);
                    }
                    assert(entries_map(kept@.push(x)) == entries_map(kept@).insert(x.0@, x.1)) by {
                        assert(kept@.push(x).drop_last() =~= kept@);
                    }
                    assert(entries_map(kept@).insert(x.0@, x.1) =~= spec_kept(
                        post_map,
                        key@,
                        sweep_at,
                        self.ttl,
                    ));
                }
                kept.push(x);
            } else {
                proof {
                    assert(entries_map(kept@) =~= spec_kept(post_map, key@, sweep_at, self.ttl));
                }
            }
        }
        proof {
            assert(orig.take(orig.len() as int) =~= orig);
        }
        let ghost kept_pre = kept@;
        kept.push((key, CacheEntry { value: e.value, inserted_at: e.inserted_at }));
        proof {
            assert(entries_map(kept@) == entries_map(kept_pre).insert(key@, e)) by {
                assert(kept@.drop_last() =~= kept_pre);
                assert(kept@.last().0@ == key@);
                assert(kept@.last().1 == e);
            }
            // Uniqueness survives the final push: no kept key equals `key`.
            assert(forall|a: int, b: int|
                0 <= a < b < kept@.len() ==> (#[trigger] kept@[a]).0@ != (
                #[trigger] kept@[b]).0@) by {
                assert(forall|a: int|
                    0 <= a < kept_pre.len() ==> (#[trigger] kept@[a]) == kept_pre[a]);
            }
            assert(entries_map(kept@) == spec_kept(
                old(self).contents(),
                key@,
                sweep_at,
                old(self).spec_ttl(),
            ).insert(key@, e));
        }
        self.slots = kept;
    }

    /// Stores `value` for `key` at `now`, the commit step of a successful
    /// loader run: the new entry replaces any predecessor under the same
    /// key, and a sweeping instance also drops every entry that expired by
    /// `now`. The store itself never runs a loader; a failed loader run
    /// therefore leaves the map exactly as it was.
    pub fn insert(&mut self, key: String, value: V, now: u64)
        requires
            old(self).wf(),
        ensures
            final(self).wf(),
            final(self).contents() == spec_after_insert(*old(self), key@, value, now),
            final(self).contents().dom().contains(key@),
            final(self).contents()[key@] == (CacheEntry { value, inserted_at: now }),
            final(self).spec_loaded() == old(self).spec_loaded(),
            final(self).spec_ttl() == old(self).spec_ttl(),
            final(self).spec_sweep() == old(self).spec_sweep(),
    {
        let sweep_at: Option<u64> = if self.sweep_on_insert {
            Option::Some(now)
        } else {
            Option::None
        };
        let ghost pre = *self;
        let e = CacheEntry { value, inserted_at: now };
        self.store_entry(key, e, sweep_at);
        proof {
            let ghost k = key@;
            if pre.spec_sweep() {
                assert(spec_kept(pre.contents(), k, sweep_at, pre.spec_ttl()).insert(k, e)
                    =~= spec_swept(pre.contents(), now, pre.spec_ttl()).insert(k, e));
            } else {
                assert(spec_kept(pre.contents(), k, sweep_at, pre.spec_ttl()).insert(k, e)
                    =~= pre.contents().insert(k, e));
            }
        }
    }

    /// Folds the entries read back from the snapshot file into the store
    /// and marks it loaded: the first-touch step of the slow path. The
    /// list replaces what the store held, later duplicates winning, as a
    /// whole-map snapshot read does.
    pub fn absorb_snapshot(&mut self, entries: Vec<(String, CacheEntry<V>)>)
        requires
            old(self).wf(),
            !old(self).spec_loaded(),
        ensures
            final(self).wf(),
            final(self).spec_loaded(),
            final(self).contents() == entries_map(entries@),
            final(self).spec_ttl() == old(self).spec_ttl(),
            final(self).spec_sweep() == old(self).spec_sweep(),
    {
        let ghost src = entries@;
        let mut entries = entries;
        self.slots = Vec::new();
        while entries.len() > 0
            invariant
                self.wf(),
                entries@.len() <= src.len(),
                entries@ =~= src.skip(src.len() - entries@.len()),
                self.contents() == entries_map(src.take(src.len() - entries@.len())),
                self.spec_ttl() == old(self).spec_ttl(),
                self.spec_sweep() == old(self).spec_sweep(),
            decreases entries@.len(),
        {
            let ghost done = src.len() - entries@.len();
            let (k, e) = entries.remove(0);
            proof {
                assert(src[done] == (k, e));
                assert(entries@ =~= src.skip(done + 1));
                assert(src.take(done + 1).drop_last() =~= src.take(done));
                assert(src.take(done + 1).last() == src[done]);
            }
            let ghost pre = *self;
            self.store_entry(k, e, Option::None);
            proof {
                assert(spec_kept(pre.contents(), k@, Option::<u64>::None, pre.spec_ttl()).insert(
                    k@,
                    e,
                ) =~= pre.contents().insert(k@, e));
            }
        }
        proof {
            assert(src.take(src.len() as int) =~= src);
        }
        self.loaded = true;
    }

    /// The entry list behind the map, handed out for snapshot writing.
    pub fn entries(&self) -> (r: &Vec<(String, CacheEntry<V>)>)
        ensures
            r@ == self.spec_entries(),
            entries_map(r@) == self.contents(),
            self.wf() ==> unique_keys(r@),
    {
        &self.slots
    }
}

/// Law: a loader runs at most once per fill. After a slow-path holder
/// commits `value` for `key` at time `t`, any call that reads the store at
/// a time `t2` at which that entry is still fresh is answered from the
/// cache, so it invokes no loader. Holders of the same instance run one at
/// a time under its exclusive lock, so N calls racing on one key produce
/// exactly one loader run: the first holder commits, and every later
/// holder's re-check finds this fresh entry.
pub proof fn lemma_refresh_once<V>(
    pre: CacheStore<V>,
    post: CacheStore<V>,
    key: Seq<char>,
    value: V,
    t: u64,
    t2: u64,
)
    requires
        post.contents() == spec_after_insert(pre, key, value, t),
        post.spec_ttl() == pre.spec_ttl(),
        spec_fresh(t, t2, pre.spec_ttl()),
    ensures
        post.spec_has_fresh(key, t2),
        post.contents()[key].value == value,
{
}

/// Law: a permanent instance never refreshes a key it has seen. Once a
/// key holds an entry in a store without a time-to-live, it is trusted at
/// every time whatsoever.
pub proof fn lemma_permanent_entry<V>(s: CacheStore<V>, key: Seq<char>, now: u64)
    requires
        s.spec_ttl() is None,
        s.contents().dom().contains(key),
    ensures
        s.spec_has_fresh(key, now),
{
}

/// Law: the 600 second time-to-live draws a sharp line. An entry stored
/// at `t` in such a store is still trusted at `t + 599` and no longer
/// trusted at `t + 601`, so a read at the former is a hit and a read at
/// the latter opens the loader path, which stores a fresh timestamp.
pub proof fn lemma_ttl_window<V>(s: CacheStore<V>, key: Seq<char>, t: u64)
    requires
        s.spec_ttl() == Option::Some(600u64),
        s.contents().dom().contains(key),
        s.contents()[key].inserted_at == t,
        t + 601 <= u64::MAX,
    ensures
        s.spec_has_fresh(key, (t + 599) as u64),
        !s.spec_has_fresh(key, (t + 601) as u64),
{
}

/// Law: restarting from a snapshot preserves every answer. A store whose
/// map equals another's — as one rebuilt by `absorb_snapshot` from the
/// other's `entries` is — serves exactly the hits the other would, with
/// the same values, so no loader call is spent on a key that was persisted
/// while fresh.
pub proof fn lemma_snapshot_restart<V>(a: CacheStore<V>, b: CacheStore<V>)
    requires
        b.contents() == a.contents(),
        b.spec_ttl() == a.spec_ttl(),
    ensures
        forall|k: Seq<char>, now: u64|
            #[trigger] b.spec_has_fresh(k, now) == a.spec_has_fresh(k, now),
        forall|k: Seq<char>|
            a.contents().dom().contains(k) ==> #[trigger] b.contents()[k] == a.contents()[k],
{
}

/// Whether an entry stored at `inserted_at` is still trusted at `now`.
fn is_fresh(inserted_at: u64, now: u64, ttl: Option<u64>) -> (r: bool)
    ensures
        r == spec_fresh(inserted_at, now, ttl),
{
    match ttl {
        Option::None => true,
        Option::Some(t) => now < inserted_at || now - inserted_at < t,
    }
}

} // verus!

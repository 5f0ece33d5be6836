//! A time-bounded cache with a TTL and an idle deadline per entry, one
//! entry per key: the shape shared by the key-set cache (keyed by issuer)
//! and the service-credential cache (keyed by client credentials). An
//! entry is never served past `fetched_at + ttl`, nor past its idle
//! deadline; a refresh replaces the entry wholesale.

use vstd::prelude::*;

verus! {

pub struct CacheEntry<T> {
    pub key: String,
    pub value: T,
    /// When the value was fetched; it is never served past
    /// `fetched_at + ttl`.
    pub fetched_at: i64,
    /// The moment after which the entry counts as idle and is dropped
    /// even if its TTL has not elapsed.
    pub idle_deadline: i64,
}

/// Whether an entry may still be served at time `now`.
pub open spec fn entry_live<T>(e: CacheEntry<T>, ttl: int, now: int) -> bool {
    now < e.fetched_at + ttl && now <= e.idle_deadline
}

/// The first (with well-formedness: the only) entry stored under `key`.
pub open spec fn spec_find_entry<T>(s: Seq<CacheEntry<T>>, key: Seq<char>) -> Option<CacheEntry<T>>
    decreases s.len(),
{
    if s.len() == 0 {
        None
    } else if s[0].key@ == key {
        Some(s[0])
    } else {
        spec_find_entry(s.drop_first(), key)
    }
}

pub open spec fn keys_unique<T>(s: Seq<CacheEntry<T>>) -> bool {
    forall|i: int, j: int| #![trigger s[i], s[j]] 0 <= i < j < s.len() ==> s[i].key@ != s[j].key@
}

proof fn lemma_find_none<T>(s: Seq<CacheEntry<T>>, key: Seq<char>)
    ensures
        spec_find_entry(s, key) is None <==> (forall|i: int|
            0 <= i < s.len() ==> (#[trigger] s[i]).key@ != key),
    decreases s.len(),
{
    if s.len() > 0 {
        lemma_find_none(s.drop_first(), key);
        assert(forall|i: int| 1 <= i < s.len() ==> s[i] == #[trigger] s.drop_first()[i - 1]);
        if spec_find_entry(s, key) is None {
            assert forall|i: int| 0 <= i < s.len() implies (#[trigger] s[i]).key@ != key by {
                if i >= 1 {
                    assert(s.drop_first()[i - 1] == s[i]);
                }
            }
        } else {
            if s[0].key@ != key {
                assert(spec_find_entry(s.drop_first(), key) is Some);
                assert(!(forall|j: int|
                    0 <= j < s.drop_first().len() ==> (#[trigger] s.drop_first()[j]).key@ != key));
                let j = choose|j: int|
                    0 <= j < s.drop_first().len() && s.drop_first()[j].key@ == key;
                assert(s[j + 1].key@ == key);
            }
        }
    }
}

/// With unique keys, no entry before position `i` shares the key at `i`.
proof fn lemma_find_before_is_none<T>(s: Seq<CacheEntry<T>>, i: int)
    requires
        keys_unique(s),
        0 <= i < s.len(),
    ensures
        spec_find_entry(s.take(i), s[i].key@) is None,
{
    lemma_find_none(s.take(i), s[i].key@);
    assert forall|j: int| 0 <= j < s.take(i).len() implies (#[trigger] s.take(i)[j]).key@ != s[
        i
    ].key@ by {
        assert(s.take(i)[j] == s[j]);
        assert(s[j].key@ != s[i].key@);
    }
}

proof fn lemma_find_push<T>(s: Seq<CacheEntry<T>>, e: CacheEntry<T>, key: Seq<char>)
    ensures
        spec_find_entry(s.push(e), key) == (match spec_find_entry(s, key) {
            Some(x) => Some(x),
            None => if e.key@ == key {
                Some(e)
            } else {
                None
            },
        }),
    decreases s.len(),
{
    if s.len() == 0 {
        assert(s.push(e)[0] == e);
        assert(s.push(e).drop_first() =~= Seq::<CacheEntry<T>>::empty());
    } else {
        assert(s.push(e)[0] == s[0]);
        assert(s.push(e).drop_first() =~= s.drop_first().push(e));
        lemma_find_push(s.drop_first(), e, key);
    }
}

proof fn lemma_find_update<T>(s: Seq<CacheEntry<T>>, i: int, e: CacheEntry<T>, key: Seq<char>)
    requires
        0 <= i < s.len(),
        keys_unique(s),
        e.key@ == s[i].key@,
    ensures
        spec_find_entry(s.update(i, e), key) == (if e.key@ == key {
            Some(e)
        } else {
            spec_find_entry(s, key)
        }),
    decreases s.len(),
{
    assert(keys_unique(s.drop_first()));
    if i == 0 {
        assert(s.update(i, e)[0] == e);
        assert(s.update(i, e).drop_first() =~= s.drop_first());
        if e.key@ == key {
        } else {
            assert(s[0].key@ != key);
        }
    } else {
        assert(s.update(i, e)[0] == s[0]);
        assert(s.update(i, e).drop_first() =~= s.drop_first().update(i - 1, e));
        assert(s.drop_first()[i - 1] == s[i]);
        lemma_find_update(s.drop_first(), i - 1, e, key);
        if s[0].key@ == key {
            assert(s[i].key@ != key);
            assert(e.key@ != key);
        }
    }
}

/// A TTL-and-idle-bounded cache, one entry per key, injectable wherever a
/// remote value must be reused without ever being served stale.
pub struct TtlCache<T> {
    entries: Vec<CacheEntry<T>>,
    ttl: i64,
    idle_window: i64,
}

impl<T> View for TtlCache<T> {
    type V = Seq<CacheEntry<T>>;

    closed spec fn view(&self) -> Seq<CacheEntry<T>> {
        self.entries@
    }
}

impl<T> TtlCache<T> {
    pub closed spec fn spec_ttl(self) -> int {
        self.ttl as int
    }

    pub closed spec fn spec_idle_window(self) -> int {
        self.idle_window as int
    }

    pub open spec fn wf(self) -> bool {
        &&& self.spec_ttl() >= 1
        &&& self.spec_idle_window() >= 0
        &&& keys_unique(self@)
        &&& forall|i: int| 0 <= i < self@.len() ==> (#[trigger] self@[i]).fetched_at >= 0
    }

    pub fn new(ttl: i64, idle_window: i64) -> (r: TtlCache<T>)
        requires
            ttl >= 1,
            idle_window >= 0,
        ensures
            r.wf(),
            r@ =~= Seq::<CacheEntry<T>>::empty(),
            r.spec_ttl() == ttl,
            r.spec_idle_window() == idle_window,
    {
        TtlCache { entries: Vec::new(), ttl, idle_window }
    }

    /// How many entries the cache holds, live or not.
    pub fn len(&self) -> (r: usize)
        ensures
            r == self@.len(),
    {
        self.entries.len()
    }

    fn find_index(&self, key: &str) -> (r: Option<usize>)
        ensures
            match r {
                Some(i) => i < self@.len() && self@[i as int].key@ == key@ && spec_find_entry(
                    self@,
                    key@,
                ) == Some(self@[i as int]),
                None => spec_find_entry(self@, key@) is None,
            },
    {
        let owned_key: String = key.to_owned();
        let mut i: usize = 0;
        proof {
            assert(self@.skip(0) =~= self@);
        }
        while i < self.entries.len()
            invariant
                i <= self@.len(),
                self@ == self.entries@,
                owned_key@ == key@,
                spec_find_entry(self@, key@) == spec_find_entry(self@.skip(i as int), key@),
            decreases self@.len() - i,
        {
            proof {
                assert(self@.skip(i as int).drop_first() =~= self@.skip(i + 1));
                assert(self@.skip(i as int)[0] == self@[i as int]);
            }
            if self.entries[i].key == owned_key {
                return Some(i);
            }
            i = i + 1;
        }
        None
    }

    /// Serves the entry under `key` exactly when it is within its TTL and
    /// not idle-expired: a cached value is never served past
    /// `fetched_at + ttl`, however recently it was stored.
    pub fn peek(&self, key: &str, now: i64) -> (r: Option<&T>)
        requires
            self.wf(),
            now >= 0,
        ensures
            match r {
                Some(v) => spec_find_entry(self@, key@) matches Some(e) && entry_live(
                    e,
                    self.spec_ttl(),
                    now as int,
                ) && *v == e.value,
                None => !(spec_find_entry(self@, key@) matches Some(e) && entry_live(
                    e,
                    self.spec_ttl(),
                    now as int,
                )),
            },
    {
        match self.find_index(key) {
            Some(i) => {
                let e = &self.entries[i];
                if now - e.fetched_at < self.ttl && now <= e.idle_deadline {
                    Some(&e.value)
                } else {
                    None
                }
            },
            None => None,
        }
    }

    /// Records a use of the entry under `key`, pushing its idle deadline
    /// out to `now + idle_window`. Nothing else changes; a missing key
    /// changes nothing.
    pub fn touch(&mut self, key: &str, now: i64)
        requires
            old(self).wf(),
            now >= 0,
            now + old(self).spec_idle_window() <= i64::MAX,
        ensures
            final(self).wf(),
            final(self).spec_ttl() == old(self).spec_ttl(),
            final(self).spec_idle_window() == old(self).spec_idle_window(),
            match spec_find_entry(old(self)@, key@) {
                Some(e) => spec_find_entry(final(self)@, key@) matches Some(e2) && e2.key@ == e.key@
                    && e2.value == e.value && e2.fetched_at == e.fetched_at && e2.idle_deadline
                    == now + old(self).spec_idle_window(),
                None => final(self)@ == old(self)@,
            },
            forall|k2: Seq<char>|
                k2 != key@ ==> #[trigger] spec_find_entry(final(self)@, k2) == spec_find_entry(
                    old(self)@,
                    k2,
                ),
    {
        let idx = match self.find_index(key) {
            Some(i) => i,
            None => {
                return ;
            },
        };
        let ghost s_old = self@;
        let ghost e_old = self@[idx as int];
        let deadline = now + self.idle_window;
        let e = &mut self.entries[idx];
        e.idle_deadline = deadline;
        proof {
            let e_new = self@[idx as int];
            assert(self@ =~= s_old.update(idx as int, e_new));
            assert(forall|k2: Seq<char>| #[trigger]
                spec_find_entry(s_old.update(idx as int, e_new), k2) == (if e_new.key@ == k2 {
                    Some(e_new)
                } else {
                    spec_find_entry(s_old, k2)
                })) by {
                assert forall|k2: Seq<char>| true implies #[trigger] spec_find_entry(
                    s_old.update(idx as int, e_new),
                    k2,
                ) == (if e_new.key@ == k2 {
                    Some(e_new)
                } else {
                    spec_find_entry(s_old, k2)
                }) by {
                    lemma_find_update(s_old, idx as int, e_new, k2);
                }
            }
        }
    }

    /// Stores `value` under `key` with a fresh TTL and idle deadline,
    /// replacing any previous entry wholesale. Other keys are untouched.
    pub fn store(&mut self, key: &str, value: T, now: i64)
        requires
            old(self).wf(),
            now >= 0,
            now + old(self).spec_idle_window() <= i64::MAX,
        ensures
            final(self).wf(),
            final(self).spec_ttl() == old(self).spec_ttl(),
            final(self).spec_idle_window() == old(self).spec_idle_window(),
            spec_find_entry(final(self)@, key@) matches Some(e) && e.key@ == key@ && e.value
                == value && e.fetched_at == now && e.idle_deadline == now + old(
                self,
            ).spec_idle_window(),
            forall|k2: Seq<char>|
                k2 != key@ ==> #[trigger] spec_find_entry(final(self)@, k2) == spec_find_entry(
                    old(self)@,
                    k2,
                ),
    {
        let owned_key: String = key.to_owned();
        let deadline = now + self.idle_window;
        let entry = CacheEntry { key: owned_key, value, fetched_at: now, idle_deadline: deadline };
        let ghost s_old = self@;
        match self.find_index(key) {
            Some(idx) => {
                let ghost e_new = entry;
                self.entries[idx] = entry;
                proof {
                    assert(self@ =~= s_old.update(idx as int, e_new));
                    assert forall|k2: Seq<char>| true implies #[trigger] spec_find_entry(
                        self@,
                        k2,
                    ) == (if e_new.key@ == k2 {
                        Some(e_new)
                    } else {
                        spec_find_entry(s_old, k2)
                    }) by {
                        lemma_find_update(s_old, idx as int, e_new, k2);
                    }
                }
            },
            None => {
                let ghost e_new = entry;
                self.entries.push(entry);
                proof {
                    assert(self@ =~= s_old.push(e_new));
                    assert forall|k2: Seq<char>| true implies #[trigger] spec_find_entry(
                        self@,
                        k2,
                    ) == (match spec_find_entry(s_old, k2) {
                        Some(x) => Some(x),
                        None => if e_new.key@ == k2 {
                            Some(e_new)
                        } else {
                            None
                        },
                    }) by {
                        lemma_find_push(s_old, e_new, k2);
                    }
                    lemma_find_none(s_old, key@);
                    assert(keys_unique(self@)) by {
                        assert(forall|i: int|
                            0 <= i < s_old.len() ==> (#[trigger] s_old[i]).key@ != key@);
                        assert(forall|i: int|
                            0 <= i < self@.len() - 1 ==> self@[i] == #[trigger] s_old[i]);
                    }
                }
            },
        }
    }

    /// Drops every entry that may no longer be served at `now`, whether
    /// its TTL elapsed or it sat idle past its deadline, bounding memory
    /// across many keys. Live entries survive unchanged.
    pub fn evict_expired(&mut self, now: i64)
        requires
            old(self).wf(),
            now >= 0,
        ensures
            final(self).wf(),
            final(self).spec_ttl() == old(self).spec_ttl(),
            final(self).spec_idle_window() == old(self).spec_idle_window(),
            forall|k: Seq<char>| #[trigger]
                spec_find_entry(final(self)@, k) == (match spec_find_entry(old(self)@, k) {
                    Some(e) => if entry_live(e, old(self).spec_ttl(), now as int) {
                        Some(e)
                    } else {
                        None
                    },
                    None => None,
                }),
    {
        let ghost s_old = self@;
        let ghost ttl_g = self.spec_ttl();
        let ghost idle_g = self.spec_idle_window();
        let mut kept: Vec<CacheEntry<T>> = Vec::new();
        let mut i: usize = 0;
        let _initial_len = self.entries.len();
        proof {
            assert(self@ =~= s_old.skip(0));
            assert(s_old.len() == _initial_len as int);
        }
        while self.entries.len() > 0
            invariant
                now >= 0,
                s_old.len() <= usize::MAX,
                i + self@.len() == s_old.len(),
                self@ == s_old.skip(i as int),
                self.spec_ttl() == ttl_g,
                self.spec_idle_window() == idle_g,
                ttl_g >= 1,
                keys_unique(s_old),
                forall|j: int| 0 <= j < s_old.len() ==> (#[trigger] s_old[j]).fetched_at >= 0,
                keys_unique(kept@),
                forall|j: int| 0 <= j < kept@.len() ==> (#[trigger] kept@[j]).fetched_at >= 0,
                forall|k: Seq<char>| #[trigger]
                    spec_find_entry(kept@, k) == (match spec_find_entry(s_old.take(i as int), k) {
                        Some(e) => if entry_live(e, ttl_g, now as int) {
                            Some(e)
                        } else {
                            None
                        },
                        None => None,
                    }),
            decreases self@.len(),
        {
            let ghost kept_old = kept@;
            let e = self.entries.remove(0);
            proof {
                assert(s_old.skip(i as int)[0] == s_old[i as int]);
                assert(e == s_old[i as int]);
                assert(e.fetched_at >= 0);
                assert(self@ =~= s_old.skip(i + 1));
                assert(s_old.take(i + 1) =~= s_old.take(i as int).push(s_old[i as int]));
                lemma_find_before_is_none(s_old, i as int);
            }
            let live = now - e.fetched_at < self.ttl && now <= e.idle_deadline;
            if live {
                proof {
                    assert forall|j: int| 0 <= j < kept_old.len() implies (#[trigger] kept_old[
                        j
                    ]).key@ != s_old[i as int].key@ by {
                        if kept_old[j].key@ == s_old[i as int].key@ {
                            lemma_find_none(kept_old, kept_old[j].key@);
                            assert(spec_find_entry(kept_old, kept_old[j].key@) is Some);
                        }
                    }
                }
                kept.push(e);
                proof {
                    assert(forall|j: int|
                        0 <= j < kept@.len() - 1 ==> kept@[j] == #[trigger] kept_old[j]);
                    assert forall|k: Seq<char>| true implies #[trigger] spec_find_entry(kept@, k)
                        == (match spec_find_entry(s_old.take(i + 1), k) {
                        Some(e2) => if entry_live(e2, ttl_g, now as int) {
                            Some(e2)
                        } else {
                            None
                        },
                        None => None,
                    }) by {
                        lemma_find_push(kept_old, s_old[i as int], k);
                        lemma_find_push(s_old.take(i as int), s_old[i as int], k);
                        assert(spec_find_entry(kept_old, k) == (match spec_find_entry(
                            s_old.take(i as int),
                            k,
                        ) {
                            Some(e2) => if entry_live(e2, ttl_g, now as int) {
                                Some(e2)
                            } else {
                                None
                            },
                            None => None,
                        }));
                    }
                }
            } else {
                proof {
                    assert forall|k: Seq<char>| true implies #[trigger] spec_find_entry(kept@, k)
                        == (match spec_find_entry(s_old.take(i + 1), k) {
                        Some(e2) => if entry_live(e2, ttl_g, now as int) {
                            Some(e2)
                        } else {
                            None
                        },
                        None => None,
                    }) by {
                        lemma_find_push(s_old.take(i as int), s_old[i as int], k);
                        assert(spec_find_entry(kept@, k) == (match spec_find_entry(
                            s_old.take(i as int),
                            k,
                        ) {
                            Some(e2) => if entry_live(e2, ttl_g, now as int) {
                                Some(e2)
                            } else {
                                None
                            },
                            None => None,
                        }));
                    }
                }
            }
            i = i + 1;
        }
        proof {
            assert(s_old.take(i as int) =~= s_old);
        }
        self.entries = kept;
    }
}

} // verus!

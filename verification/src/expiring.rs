//! Time-boxed ephemeral caches.
//!
//! The message cache and the pending-interaction cache hold entries only for
//! a bounded time. A background sweeper periodically evicts every entry whose
//! deadline has passed; reads ignore expired entries even before the sweeper
//! runs, so expiry is exact and eviction timing is invisible to readers.
//! The surrounding runtime drives the sweep loop; the store itself decides
//! what leaves and what stays.

use vstd::prelude::*;

verus! {

/// One time-boxed entry.
pub struct ExpiringEntry<V> {
    /// Key of the entry.
    pub key: u64,
    /// Instant after which the entry no longer exists for readers.
    pub expires_at: u64,
    /// The stored value.
    pub value: V,
}

/// The entries that survive a sweep at the given instant: exactly those
/// whose deadline lies after it, in their stored order.
pub open spec fn spec_sweep<V>(s: Seq<ExpiringEntry<V>>, now: u64) -> Seq<ExpiringEntry<V>>
    decreases s.len(),
{
    if s.len() == 0 {
        s
    } else {
        let rest = spec_sweep(s.drop_last(), now);
        if s.last().expires_at > now {
            rest.push(s.last())
        } else {
            rest
        }
    }
}

/// The entries left after removing every entry under the given key, in
/// their stored order.
pub open spec fn spec_remove_entries<V>(s: Seq<ExpiringEntry<V>>, key: u64) -> Seq<
    ExpiringEntry<V>,
>
    decreases s.len(),
{
    if s.len() == 0 {
        s
    } else {
        let rest = spec_remove_entries(s.drop_last(), key);
        if s.last().key == key {
            rest
        } else {
            rest.push(s.last())
        }
    }
}

/// The first entry under the given key that is still live at the given
/// instant.
pub open spec fn spec_get_live<V>(s: Seq<ExpiringEntry<V>>, key: u64, now: u64) -> Option<
    ExpiringEntry<V>,
>
    decreases s.len(),
{
    if s.len() == 0 {
        None
    } else if s.first().key == key && s.first().expires_at > now {
        Some(s.first())
    } else {
        spec_get_live(s.drop_first(), key, now)
    }
}

/// Skipping a prefix without a live match does not change the lookup.
proof fn lemma_get_live_skip<V>(s: Seq<ExpiringEntry<V>>, key: u64, now: u64, i: int)
    requires
        0 <= i <= s.len(),
        forall|j: int| 0 <= j < i ==> !(s[j].key == key && s[j].expires_at > now),
    ensures
        spec_get_live(s, key, now) == spec_get_live(s.skip(i), key, now),
    decreases i,
{
    if i == 0 {
        assert(s.skip(0) =~= s);
    } else {
        lemma_get_live_skip(s, key, now, i - 1);
        assert(s.skip(i - 1).first() == s[i - 1]);
        assert(s.skip(i - 1).drop_first() =~= s.skip(i));
    }
}

/// A store of time-boxed entries, keyed by id.
///
/// Keys are not unique by construction; `insert` removes the previous
/// entries of its key first, so a well-formed history keeps one live entry
/// per key.
pub struct ExpiringCache<V> {
    entries: Vec<ExpiringEntry<V>>,
}

impl<V> View for ExpiringCache<V> {
    type V = Seq<ExpiringEntry<V>>;

    closed spec fn view(&self) -> Seq<ExpiringEntry<V>> {
        self.entries@
    }
}

impl<V> ExpiringCache<V> {
    /// An empty store.
    pub fn new() -> (r: Self)
        ensures
            r@ == Seq::<ExpiringEntry<V>>::empty(),
    {
        ExpiringCache { entries: Vec::new() }
    }

    /// Number of entries held, expired ones included until the next sweep.
    pub fn len(&self) -> (r: usize)
        ensures
            r == self@.len(),
    {
        self.entries.len()
    }

    /// Store a value under a key until the given deadline, replacing any
    /// previous entry of that key.
    pub fn insert(&mut self, key: u64, expires_at: u64, value: V)
        ensures
            final(self)@ == spec_remove_entries(old(self)@, key).push(
                ExpiringEntry { key, expires_at, value },
            ),
    {
        self.remove(key);
        self.entries.push(ExpiringEntry { key, expires_at, value });
    }

    /// Remove every entry under a key. A no-op when the key is absent.
    pub fn remove(&mut self, key: u64)
        ensures
            final(self)@ == spec_remove_entries(old(self)@, key),
    {
        let mut out: Vec<ExpiringEntry<V>> = Vec::new();
        let ghost s = self.entries@;
        let ghost mut done: int = 0;
        loop
            invariant
                0 <= done <= s.len(),
                self.entries@ == s.skip(done),
                out@ == spec_remove_entries(s.take(done), key),
            ensures
                out@ == spec_remove_entries(s, key),
            decreases s.len() - done,
        {
            if self.entries.len() == 0 {
                proof {
                    assert(s.skip(done).len() == 0);
                    assert(s.take(done) =~= s);
                }
                break ;
            }
            let entry = self.entries.remove(0);
            proof {
                assert(s.skip(done)[0] == s[done]);
                assert(s.take(done + 1) =~= s.take(done).push(s[done]));
                assert(s.take(done + 1).drop_last() =~= s.take(done));
                assert(s.skip(done).remove(0) =~= s.skip(done + 1));
            }
            if entry.key != key {
                out.push(entry);
            }
            proof {
                done = done + 1;
            }
        }
        self.entries = out;
    }

    /// Read the value stored under a key, if its deadline has not passed.
    pub fn get(&self, key: u64, now: u64) -> (r: Option<&V>)
        ensures
            match r {
                Some(v) => spec_get_live(self@, key, now) matches Some(e) && e.value == *v,
                None => spec_get_live(self@, key, now) is None,
            },
    {
        let mut i: usize = 0;
        while i < self.entries.len()
            invariant
                i <= self.entries@.len(),
                forall|j: int|
                    0 <= j < i ==> !(self.entries@[j].key == key && self.entries@[j].expires_at
                        > now),
            decreases self.entries@.len() - i,
        {
            let entry = &self.entries[i];
            if entry.key == key && entry.expires_at > now {
                proof {
                    lemma_get_live_skip(self.entries@, key, now, i as int);
                    assert(self.entries@.skip(i as int).first() == self.entries@[i as int]);
                }
                return Some(&entry.value);
            }
            i = i + 1;
        }
        proof {
            lemma_get_live_skip(self.entries@, key, now, self.entries@.len() as int);
            assert(self.entries@.skip(self.entries@.len() as int) =~= Seq::<
                ExpiringEntry<V>,
            >::empty());
        }
        None
    }

    /// Evict every entry whose deadline has passed: exactly the entries with
    /// a deadline after `now` survive, in their stored order.
    pub fn sweep(&mut self, now: u64)
        ensures
            final(self)@ == spec_sweep(old(self)@, now),
    {
        let mut out: Vec<ExpiringEntry<V>> = Vec::new();
        let ghost s = self.entries@;
        let ghost mut done: int = 0;
        loop
            invariant
                0 <= done <= s.len(),
                self.entries@ == s.skip(done),
                out@ == spec_sweep(s.take(done), now),
            ensures
                out@ == spec_sweep(s, now),
            decreases s.len() - done,
        {
            if self.entries.len() == 0 {
                proof {
                    assert(s.skip(done).len() == 0);
                    assert(s.take(done) =~= s);
                }
                break ;
            }
            let entry = self.entries.remove(0);
            proof {
                assert(s.skip(done)[0] == s[done]);
                assert(s.take(done + 1) =~= s.take(done).push(s[done]));
                assert(s.take(done + 1).drop_last() =~= s.take(done));
                assert(s.skip(done).remove(0) =~= s.skip(done + 1));
            }
            if entry.expires_at > now {
                out.push(entry);
            }
            proof {
                done = done + 1;
            }
        }
        self.entries = out;
    }
}

/// A sweep is exact: it keeps an entry if and only if the entry is live, so
/// no live entry is lost and no expired entry survives; and sweeping again
/// at the same instant changes nothing.
pub proof fn lemma_sweep_exact<V>(s: Seq<ExpiringEntry<V>>, now: u64)
    ensures
        forall|i: int| 0 <= i < spec_sweep(s, now).len() ==> #[trigger] spec_sweep(s, now)[
            i
        ].expires_at > now,
        forall|i: int| 0 <= i < s.len() && s[i].expires_at > now ==> spec_sweep(s, now).contains(
            #[trigger] s[i],
        ),
        spec_sweep(spec_sweep(s, now), now) == spec_sweep(s, now),
    decreases s.len(),
{
    if s.len() > 0 {
        lemma_sweep_exact(s.drop_last(), now);
        let rest = spec_sweep(s.drop_last(), now);
        if s.last().expires_at > now {
            assert(forall|i: int|
                0 <= i < rest.len() ==> rest.push(s.last())[i] == #[trigger] rest[i]);
            assert(rest.push(s.last())[rest.len() as int] == s.last());
            assert forall|i: int| 0 <= i < s.len() && s[i].expires_at > now implies spec_sweep(
                s,
                now,
            ).contains(#[trigger] s[i]) by {
                if i < s.len() - 1 {
                    assert(s.drop_last()[i] == s[i]);
                    assert(rest.contains(s[i]));
                    let j = choose|j: int| 0 <= j < rest.len() && rest[j] == s[i];
                    assert(rest.push(s.last())[j] == s[i]);
                } else {
                    assert(rest.push(s.last())[rest.len() as int] == s[i]);
                }
            }
            assert(spec_sweep(spec_sweep(s, now), now) =~= spec_sweep(s, now)) by {
                assert(rest.push(s.last()).drop_last() =~= rest);
            }
        } else {
            assert forall|i: int| 0 <= i < s.len() && s[i].expires_at > now implies spec_sweep(
                s,
                now,
            ).contains(#[trigger] s[i]) by {
                assert(s.drop_last()[i] == s[i]);
            }
        }
    }
}

} // verus!

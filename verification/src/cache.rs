//! Cache partitions and the cache port.
//!
//! Each entity kind owns one partition: an opaque key-to-entity mapping
//! with `get` / `commit` / `remove` operations.  A port may also be
//! absent entirely (no cache configured); every operation then
//! degenerates to the identity / no-op behaviour, so the resolution
//! funnel can be written once against the port and work unmodified in
//! both configurations.

use vstd::prelude::*;

verus! {

/// An entity that can live in a cache partition: it exposes the stable
/// key under which it is stored, and can hand out an equal copy of
/// itself (a partition keeps ownership of what was committed).
pub trait CacheEntity: Sized {
    /// The key a committed value is stored under.
    spec fn key(&self) -> u64;

    /// Executable access to the same key.
    fn entity_key(&self) -> (k: u64)
        ensures
            k == self.key(),
    ;

    /// An equal copy of the entity.
    fn duplicate(&self) -> (r: Self)
        ensures
            r == *self,
    ;
}

/// The entity stored under key `k`, reading entries front to back.
pub open spec fn seq_get<E: CacheEntity>(s: Seq<E>, k: u64) -> Option<E>
    decreases s.len(),
{
    if s.len() == 0 {
        None
    } else if s[0].key() == k {
        Some(s[0])
    } else {
        seq_get(s.drop_first(), k)
    }
}

/// The entries after committing `e`: the first entry stored under
/// `e.key()` is replaced in place, or `e` is appended if none is.
pub open spec fn seq_commit<E: CacheEntity>(s: Seq<E>, e: E) -> Seq<E>
    decreases s.len(),
{
    if s.len() == 0 {
        seq![e]
    } else if s[0].key() == e.key() {
        seq![e] + s.drop_first()
    } else {
        seq![s[0]] + seq_commit(s.drop_first(), e)
    }
}

/// The entries after removing key `k`: every entry stored under `k`
/// is dropped.
pub open spec fn seq_remove<E: CacheEntity>(s: Seq<E>, k: u64) -> Seq<E>
    decreases s.len(),
{
    if s.len() == 0 {
        s
    } else if s[0].key() == k {
        seq_remove(s.drop_first(), k)
    } else {
        seq![s[0]] + seq_remove(s.drop_first(), k)
    }
}

/// Law: committing an entity stores it under its own key.
pub proof fn lemma_commit_stores<E: CacheEntity>(s: Seq<E>, e: E)
    ensures
        seq_get(seq_commit(s, e), e.key()) == Some(e),
    decreases s.len(),
{
    if s.len() == 0 {
        assert(seq_commit(s, e) =~= seq![e]);
    } else if s[0].key() == e.key() {
        assert(seq_commit(s, e)[0] == e);
    } else {
        assert((seq![s[0]] + seq_commit(s.drop_first(), e)).drop_first() =~= seq_commit(
            s.drop_first(),
            e,
        ));
        lemma_commit_stores(s.drop_first(), e);
    }
}

/// Law: committing an entity leaves every other key unchanged.
pub proof fn lemma_commit_frame<E: CacheEntity>(s: Seq<E>, e: E, k: u64)
    requires
        k != e.key(),
    ensures
        seq_get(seq_commit(s, e), k) == seq_get(s, k),
    decreases s.len(),
{
    if s.len() == 0 {
        assert(seq_commit(s, e) =~= seq![e]);
        assert(seq_get(seq_commit(s, e), k) == seq_get(seq![e].drop_first(), k));
        assert(seq![e].drop_first() =~= Seq::<E>::empty());
    } else if s[0].key() == e.key() {
        assert((seq![e] + s.drop_first()).drop_first() =~= s.drop_first());
    } else {
        assert((seq![s[0]] + seq_commit(s.drop_first(), e)).drop_first() =~= seq_commit(
            s.drop_first(),
            e,
        ));
        lemma_commit_frame(s.drop_first(), e, k);
    }
}

/// Law: committing the same entity twice yields the same entries as
/// committing it once.
pub proof fn lemma_commit_idempotent<E: CacheEntity>(s: Seq<E>, e: E)
    ensures
        seq_commit(seq_commit(s, e), e) == seq_commit(s, e),
    decreases s.len(),
{
    if s.len() == 0 {
        assert(seq_commit(s, e) =~= seq![e]);
        assert(seq_commit(seq_commit(s, e), e) =~= seq![e] + seq![e].drop_first());
        assert(seq![e] + seq![e].drop_first() =~= seq![e]);
    } else if s[0].key() == e.key() {
        let t = seq![e] + s.drop_first();
        assert(t[0] == e);
        assert(seq_commit(t, e) =~= seq![e] + t.drop_first());
        assert(seq![e] + t.drop_first() =~= t);
    } else {
        let t = seq![s[0]] + seq_commit(s.drop_first(), e);
        assert(t[0] == s[0]);
        assert(t.drop_first() =~= seq_commit(s.drop_first(), e));
        lemma_commit_idempotent(s.drop_first(), e);
        assert(seq_commit(t, e) =~= seq![s[0]] + seq_commit(t.drop_first(), e));
        assert(seq_commit(t, e) =~= t);
    }
}

/// Law: after removing a key, no entity is stored under it.
pub proof fn lemma_remove_clears<E: CacheEntity>(s: Seq<E>, k: u64)
    ensures
        seq_get(seq_remove(s, k), k) is None,
    decreases s.len(),
{
    if s.len() == 0 {
    } else if s[0].key() == k {
        lemma_remove_clears(s.drop_first(), k);
    } else {
        assert((seq![s[0]] + seq_remove(s.drop_first(), k)).drop_first() =~= seq_remove(
            s.drop_first(),
            k,
        ));
        lemma_remove_clears(s.drop_first(), k);
    }
}

/// Law: removing a key leaves every other key unchanged.
pub proof fn lemma_remove_frame<E: CacheEntity>(s: Seq<E>, k: u64, k2: u64)
    requires
        k2 != k,
    ensures
        seq_get(seq_remove(s, k), k2) == seq_get(s, k2),
    decreases s.len(),
{
    if s.len() == 0 {
    } else if s[0].key() == k {
        lemma_remove_frame(s.drop_first(), k, k2);
    } else {
        assert((seq![s[0]] + seq_remove(s.drop_first(), k)).drop_first() =~= seq_remove(
            s.drop_first(),
            k,
        ));
        lemma_remove_frame(s.drop_first(), k, k2);
    }
}

/// One cache partition: the key-to-entity store for a single entity
/// kind.  Its behaviour is fully described by `seq_get`, `seq_commit`
/// and `seq_remove` over its view.
pub struct Partition<E> {
    entries: Vec<E>,
}

impl<E> View for Partition<E> {
    type V = Seq<E>;

    closed spec fn view(&self) -> Seq<E> {
        self.entries@
    }
}

/// `seq_get` skips any prefix that misses the key.
proof fn lemma_seq_get_skip<E: CacheEntity>(s: Seq<E>, k: u64, i: int)
    requires
        0 <= i <= s.len(),
        forall|j: int| 0 <= j < i ==> s[j].key() != k,
    ensures
        seq_get(s, k) == seq_get(s.skip(i), k),
    decreases i,
{
    if i > 0 {
        assert(s.skip(1) =~= s.drop_first());
        lemma_seq_get_skip(s.drop_first(), k, i - 1);
        assert(s.drop_first().skip(i - 1) =~= s.skip(i));
    } else {
        assert(s.skip(0) =~= s);
    }
}

/// In-place replacement of the first entry under `e.key()` is what
/// `seq_commit` says, when every earlier entry misses that key.
proof fn lemma_seq_commit_update<E: CacheEntity>(s: Seq<E>, e: E, i: int)
    requires
        0 <= i < s.len(),
        forall|j: int| 0 <= j < i ==> s[j].key() != e.key(),
        s[i].key() == e.key(),
    ensures
        seq_commit(s, e) == s.update(i, e),
    decreases i,
{
    if i == 0 {
        assert(seq_commit(s, e) =~= seq![e] + s.drop_first());
        assert(seq![e] + s.drop_first() =~= s.update(0, e));
    } else {
        lemma_seq_commit_update(s.drop_first(), e, i - 1);
        assert(seq_commit(s, e) =~= seq![s[0]] + s.drop_first().update(i - 1, e));
        assert(seq![s[0]] + s.drop_first().update(i - 1, e) =~= s.update(i, e));
    }
}

/// Appending is what `seq_commit` says, when no entry has the key.
proof fn lemma_seq_commit_push<E: CacheEntity>(s: Seq<E>, e: E)
    requires
        forall|j: int| 0 <= j < s.len() ==> s[j].key() != e.key(),
    ensures
        seq_commit(s, e) == s.push(e),
    decreases s.len(),
{
    if s.len() == 0 {
        assert(seq_commit(s, e) =~= s.push(e));
    } else {
        lemma_seq_commit_push(s.drop_first(), e);
        assert(seq_commit(s, e) =~= seq![s[0]] + s.drop_first().push(e));
        assert(seq![s[0]] + s.drop_first().push(e) =~= s.push(e));
    }
}

impl<E: CacheEntity> Partition<E> {
    /// An empty partition.
    pub fn new() -> (r: Self)
        ensures
            r@ == Seq::<E>::empty(),
    {
        Partition { entries: Vec::new() }
    }

    /// Pure local lookup; absence is a normal, non-error result.
    pub fn get(&self, k: u64) -> (r: Option<E>)
        ensures
            r == seq_get(self@, k),
    {
        let n = self.entries.len();
        let mut i: usize = 0;
        while i < n
            invariant
                n == self.entries.len(),
                0 <= i <= n,
                forall|j: int| 0 <= j < i ==> self.entries@[j].key() != k,
            decreases n - i,
        {
            if self.entries[i].entity_key() == k {
                proof {
                    lemma_seq_get_skip(self@, k, i as int);
                    assert(self@.skip(i as int)[0] == self@[i as int]);
                }
                return Some(self.entries[i].duplicate());
            }
            i += 1;
        }
        proof {
            lemma_seq_get_skip(self@, k, n as int);
            assert(self@.skip(n as int) =~= Seq::<E>::empty());
        }
        None
    }

    /// Inserts or overwrites by the entity's own key and returns the
    /// committed value, so that call chains stay fluent.
    pub fn commit(&mut self, e: E) -> (r: E)
        ensures
            final(self)@ == seq_commit(old(self)@, e),
            r == e,
    {
        let k = e.entity_key();
        let n = self.entries.len();
        let mut i: usize = 0;
        while i < n
            invariant
                n == self.entries.len(),
                self.entries@ == old(self).entries@,
                k == e.key(),
                0 <= i <= n,
                forall|j: int| 0 <= j < i ==> self.entries@[j].key() != k,
            decreases n - i,
        {
            if self.entries[i].entity_key() == k {
                let r = e.duplicate();
                proof {
                    lemma_seq_commit_update(self@, e, i as int);
                }
                self.entries.set(i, e);
                return r;
            }
            i += 1;
        }
        let r = e.duplicate();
        proof {
            lemma_seq_commit_push(self@, e);
        }
        self.entries.push(e);
        r
    }

    /// Removes every entry stored under `k`; removing an absent key is
    /// a no-op, not an error.
    pub fn remove(&mut self, k: u64)
        ensures
            final(self)@ == seq_remove(old(self)@, k),
    {
        let n = self.entries.len();
        let mut kept: Vec<E> = Vec::new();
        let mut i: usize = 0;
        while i < n
            invariant
                n == self.entries.len(),
                self.entries@ == old(self).entries@,
                0 <= i <= n,
                seq_remove(self.entries@.take(i as int), k) == kept@,
            decreases n - i,
        {
            proof {
                let t = self.entries@.take(i as int + 1);
                assert(t.drop_last() =~= self.entries@.take(i as int));
                lemma_seq_remove_snoc(self.entries@.take(i as int), self.entries@[i as int], k);
                assert(t =~= self.entries@.take(i as int).push(self.entries@[i as int]));
            }
            if self.entries[i].entity_key() != k {
                kept.push(self.entries[i].duplicate());
            }
            i += 1;
        }
        proof {
            assert(self.entries@.take(n as int) =~= self.entries@);
        }
        self.entries = kept;
    }
}

/// `seq_remove` over a sequence extended by one entry.
proof fn lemma_seq_remove_snoc<E: CacheEntity>(s: Seq<E>, e: E, k: u64)
    ensures
        seq_remove(s.push(e), k) == if e.key() == k {
            seq_remove(s, k)
        } else {
            seq_remove(s, k).push(e)
        },
    decreases s.len(),
{
    if s.len() == 0 {
        assert(s.push(e).drop_first() =~= s);
        assert(s.push(e)[0] == e);
        if e.key() == k {
        } else {
            assert(seq![e] + seq_remove(s, k) =~= seq_remove(s, k).push(e));
        }
    } else {
        assert(s.push(e).drop_first() =~= s.drop_first().push(e));
        lemma_seq_remove_snoc(s.drop_first(), e, k);
        if s[0].key() == k {
            assert(s.push(e)[0] == s[0]);
        } else {
            if e.key() == k {
            } else {
                assert(seq![s[0]] + seq_remove(s.drop_first(), k).push(e) =~= (seq![s[0]]
                    + seq_remove(s.drop_first(), k)).push(e));
            }
        }
    }
}

/// The cache capability handed to the resolution funnel: either one
/// partition, or nothing at all.  With no cache configured, `get`
/// always misses, `commit` returns its argument unchanged and `remove`
/// is a no-op.
pub struct CachePort<E> {
    store: Option<Partition<E>>,
}

impl<E: CacheEntity> CachePort<E> {
    /// Whether a cache is configured behind this port.
    pub closed spec fn configured(&self) -> bool {
        self.store is Some
    }

    /// The entries of the configured partition.
    pub closed spec fn contents(&self) -> Seq<E> {
        self.store->Some_0@
    }

    /// The entity this port yields for `k`: what the partition stores,
    /// or nothing when no cache is configured.
    pub open spec fn lookup(&self, k: u64) -> Option<E> {
        if self.configured() {
            seq_get(self.contents(), k)
        } else {
            None
        }
    }

    /// A port with an empty cache behind it.
    pub fn with_cache() -> (r: Self)
        ensures
            r.configured(),
            r.contents() == Seq::<E>::empty(),
    {
        CachePort { store: Some(Partition::new()) }
    }

    /// A port with no cache configured.
    pub fn without_cache() -> (r: Self)
        ensures
            !r.configured(),
    {
        CachePort { store: None }
    }

    /// Pure local lookup; never errors, even with no cache configured.
    pub fn get(&self, k: u64) -> (r: Option<E>)
        ensures
            r == self.lookup(k),
    {
        match &self.store {
            Some(p) => p.get(k),
            None => None,
        }
    }

    /// Inserts or overwrites by the entity's own key and returns the
    /// committed value; with no cache configured it returns its
    /// argument unchanged.
    pub fn commit(&mut self, e: E) -> (r: E)
        ensures
            r == e,
            final(self).configured() == old(self).configured(),
            old(self).configured() ==> final(self).contents() == seq_commit(
                old(self).contents(),
                e,
            ),
            !old(self).configured() ==> *final(self) == *old(self),
    {
        match &mut self.store {
            Some(p) => p.commit(e),
            None => e,
        }
    }

    /// Removes every entry stored under `k`; a no-op on an absent key
    /// or with no cache configured.
    pub fn remove(&mut self, k: u64)
        ensures
            final(self).configured() == old(self).configured(),
            old(self).configured() ==> final(self).contents() == seq_remove(
                old(self).contents(),
                k,
            ),
            !old(self).configured() ==> *final(self) == *old(self),
    {
        match &mut self.store {
            Some(p) => p.remove(k),
            None => {},
        }
    }
}

} // verus!

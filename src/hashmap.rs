//! A small open-addressing hash map with linear probing, keyed by `u64`.
use vstd::prelude::*;

verus! {

/// One step of the multiplicative byte hash: `h * 31 + b`, modulo 2^64.
pub open spec fn hash_step(h: u64, b: u8) -> u64 {
    h.wrapping_mul(31).wrapping_add(b as u64)
}

/// The hash state after feeding `bytes` to a hasher in state `h`.
pub open spec fn hash_bytes(h: u64, bytes: Seq<u8>) -> u64
    decreases bytes.len(),
{
    if bytes.len() == 0 {
        h
    } else {
        hash_step(hash_bytes(h, bytes.drop_last()), bytes.last())
    }
}

/// The bytes of a key, least significant first.
pub open spec fn key_bytes(k: u64) -> Seq<u8> {
    seq![
        k as u8,
        (k >> 8u64) as u8,
        (k >> 16u64) as u8,
        (k >> 24u64) as u8,
        (k >> 32u64) as u8,
        (k >> 40u64) as u8,
        (k >> 48u64) as u8,
        (k >> 56u64) as u8,
    ]
}

/// The hash of a key: its bytes fed to a fresh hasher.
pub open spec fn hash_key(k: u64) -> u64 {
    hash_bytes(0, key_bytes(k))
}

/// Multiplicative byte hasher.
pub struct SimpleHasher(u64);

impl View for SimpleHasher {
    type V = u64;

    closed spec fn view(&self) -> u64 {
        self.0
    }
}

impl SimpleHasher {
    /// A hasher in its initial state, zero.
    pub fn new() -> (r: Self)
        ensures
            r@ == 0,
    {
        SimpleHasher(0)
    }

    /// The current hash.
    pub fn finish(&self) -> (r: u64)
        ensures
            r == self@,
    {
        self.0
    }

    /// Feeds `bytes`, in order.
    pub fn write(&mut self, bytes: &[u8])
        ensures
            final(self)@ == hash_bytes(old(self)@, bytes@),
    {
        let ghost h0 = self@;
        let mut i: usize = 0;
        while i < bytes.len()
            invariant
                i <= bytes@.len(),
                self@ == hash_bytes(h0, bytes@.take(i as int)),
            decreases bytes@.len() - i,
        {
            self.0 = self.0.wrapping_mul(31).wrapping_add(bytes[i] as u64);
            assert(bytes@.take(i + 1).drop_last() =~= bytes@.take(i as int));
            i = i + 1;
        }
        assert(bytes@.take(i as int) =~= bytes@);
    }
}

/// Whether bucket `i` of `s` holds key `k`.
pub open spec fn key_at<V>(s: Seq<Option<(u64, V)>>, i: int, k: u64) -> bool {
    0 <= i < s.len() && s[i] is Some && s[i].unwrap().0 == k
}

/// The map that a bucket sequence with distinct keys holds.
pub open spec fn seq_map<V>(s: Seq<Option<(u64, V)>>) -> Map<u64, V> {
    Map::new(
        |k: u64| exists|i: int| key_at(s, i, k),
        |k: u64| s[choose|i: int| key_at(s, i, k)].unwrap().1,
    )
}

/// No key occupies two buckets.
pub open spec fn keys_unique<V>(s: Seq<Option<(u64, V)>>) -> bool {
    forall|i: int, j: int|
        0 <= i < s.len() && 0 <= j < s.len() && i != j && #[trigger] s[i] is Some
            && #[trigger] s[j] is Some ==> s[i].unwrap().0 != s[j].unwrap().0
}

/// Number of occupied buckets.
pub open spec fn count_some<V>(s: Seq<Option<(u64, V)>>) -> nat
    decreases s.len(),
{
    if s.len() == 0 {
        0
    } else {
        count_some(s.drop_last()) + if s.last() is Some {
            1nat
        } else {
            0nat
        }
    }
}

/// The bucket a key's probe starts at, in a table of `n` buckets.
pub open spec fn home(k: u64, n: int) -> int {
    hash_key(k) as int % n
}

/// The bucket visited at step `t` of a probe that starts at `h`.
pub open spec fn probe_pos(h: int, t: int, n: int) -> int {
    if h + t < n {
        h + t
    } else {
        h + t - n
    }
}

/// The step at which a probe that starts at `h` reaches bucket `i`.
pub open spec fn probe_dist(h: int, i: int, n: int) -> int {
    if i >= h {
        i - h
    } else {
        i + n - h
    }
}

/// Every stored key is reached from its home bucket through occupied buckets
/// only.
pub open spec fn probes_intact<V>(s: Seq<Option<(u64, V)>>) -> bool {
    forall|i: int, t: int|
        0 <= i < s.len() && #[trigger] s[i] is Some && 0 <= t < probe_dist(
            home(s[i].unwrap().0, s.len() as int),
            i,
            s.len() as int,
        ) ==> (#[trigger] s[probe_pos(home(s[i].unwrap().0, s.len() as int), t, s.len() as int)]) is Some
}

proof fn lemma_seq_map_at<V>(s: Seq<Option<(u64, V)>>, j: int)
    requires
        keys_unique(s),
        0 <= j < s.len(),
        s[j] is Some,
    ensures
        seq_map(s).contains_key(s[j].unwrap().0),
        seq_map(s)[s[j].unwrap().0] == s[j].unwrap().1,
{
    let k = s[j].unwrap().0;
    assert(key_at(s, j, k));
    let i = choose|i: int| key_at(s, i, k);
    assert(i == j);
}

proof fn lemma_seq_map_put<V>(s: Seq<Option<(u64, V)>>, j: int, k: u64, v: V)
    requires
        keys_unique(s),
        0 <= j < s.len(),
        s[j] is None || s[j].unwrap().0 == k,
        s[j] is None ==> !seq_map(s).contains_key(k),
    ensures
        keys_unique(s.update(j, Some((k, v)))),
        seq_map(s.update(j, Some((k, v)))) == seq_map(s).insert(k, v),
{
    let t = s.update(j, Some((k, v)));
    assert forall|a: int, b: int|
        0 <= a < t.len() && 0 <= b < t.len() && a != b && #[trigger] t[a] is Some
            && #[trigger] t[b] is Some implies t[a].unwrap().0 != t[b].unwrap().0 by {
        if a == j {
            assert(!key_at(s, b, k));
        } else if b == j {
            assert(!key_at(s, a, k));
        }
    }
    assert forall|x: u64| #[trigger] seq_map(t).contains_key(x) <==> seq_map(s).insert(k, v).contains_key(x) by {
        if x != k {
            if exists|i: int| key_at(s, i, x) {
                let i = choose|i: int| key_at(s, i, x);
                assert(key_at(t, i, x));
            }
            if exists|i: int| key_at(t, i, x) {
                let i = choose|i: int| key_at(t, i, x);
                assert(key_at(s, i, x));
            }
        } else {
            assert(key_at(t, j, k));
        }
    }
    assert forall|x: u64| #[trigger] seq_map(t).contains_key(x) implies seq_map(t)[x] == seq_map(s).insert(k, v)[x] by {
        let i = choose|i: int| key_at(t, i, x);
        lemma_seq_map_at(t, i);
        if x != k {
            lemma_seq_map_at(s, i);
        }
    }
    assert(seq_map(t) =~= seq_map(s).insert(k, v));
}

proof fn lemma_count_update<V>(s: Seq<Option<(u64, V)>>, j: int, e: Option<(u64, V)>)
    requires
        0 <= j < s.len(),
    ensures
        count_some(s.update(j, e)) + (if s[j] is Some { 1int } else { 0int }) == count_some(s) + (
        if e is Some {
            1int
        } else {
            0int
        }),
    decreases s.len(),
{
    let t = s.update(j, e);
    if j == s.len() - 1 {
        assert(t.drop_last() =~= s.drop_last());
    } else {
        assert(t.drop_last() =~= s.drop_last().update(j, e));
        lemma_count_update(s.drop_last(), j, e);
    }
}

proof fn lemma_count_full<V>(s: Seq<Option<(u64, V)>>)
    requires
        forall|i: int| 0 <= i < s.len() ==> #[trigger] s[i] is Some,
    ensures
        count_some(s) == s.len(),
    decreases s.len(),
{
    if s.len() > 0 {
        lemma_count_full(s.drop_last());
    }
}

proof fn lemma_count_empty<V>(s: Seq<Option<(u64, V)>>)
    requires
        forall|i: int| 0 <= i < s.len() ==> #[trigger] s[i] is None,
    ensures
        count_some(s) == 0,
    decreases s.len(),
{
    if s.len() > 0 {
        lemma_count_empty(s.drop_last());
    }
}

proof fn lemma_absent<V>(s: Seq<Option<(u64, V)>>, key: u64, h: int, t: int)
    requires
        s.len() > 0,
        keys_unique(s),
        probes_intact(s),
        h == home(key, s.len() as int),
        0 <= h < s.len(),
        0 <= t <= s.len(),
        forall|t2: int|
            0 <= t2 < t ==> (#[trigger] s[probe_pos(h, t2, s.len() as int)]) is Some && s[probe_pos(
                h,
                t2,
                s.len() as int,
            )].unwrap().0 != key,
        t < s.len() ==> s[probe_pos(h, t, s.len() as int)] is None,
    ensures
        !seq_map(s).contains_key(key),
{
    let n = s.len() as int;
    if exists|j: int| key_at(s, j, key) {
        let j = choose|j: int| key_at(s, j, key);
        let d = probe_dist(h, j, n);
        assert(probe_pos(h, d, n) == j);
        if d < t {
            assert(s[probe_pos(h, d, n)] is Some);
        } else if d == t {
        } else {
            assert(s[j] is Some);
            assert(s[probe_pos(home(s[j].unwrap().0, n), t, n)] is Some);
        }
    }
}

proof fn lemma_probes_fill<V>(s: Seq<Option<(u64, V)>>, p: int, k: u64, v: V)
    requires
        probes_intact(s),
        0 <= p < s.len(),
        s[p] is None,
        0 <= home(k, s.len() as int) < s.len(),
        forall|t2: int|
            0 <= t2 < probe_dist(home(k, s.len() as int), p, s.len() as int) ==> (#[trigger] s[probe_pos(
                home(k, s.len() as int),
                t2,
                s.len() as int,
            )]) is Some,
    ensures
        probes_intact(s.update(p, Some((k, v)))),
{
    let u = s.update(p, Some((k, v)));
    let n = s.len() as int;
    assert forall|i: int, t: int|
        0 <= i < u.len() && #[trigger] u[i] is Some && 0 <= t < probe_dist(
            home(u[i].unwrap().0, n),
            i,
            n,
        ) implies (#[trigger] u[probe_pos(home(u[i].unwrap().0, n), t, n)]) is Some by {
        let q = probe_pos(home(u[i].unwrap().0, n), t, n);
        if i == p {
            assert(s[probe_pos(home(k, n), t, n)] is Some);
        } else {
            assert(s[i] is Some);
            assert(s[probe_pos(home(s[i].unwrap().0, n), t, n)] is Some);
        }
        if q != p {
            assert(u[q] == s[q]);
        }
    }
}

proof fn lemma_probes_replace<V>(s: Seq<Option<(u64, V)>>, p: int, v: V)
    requires
        probes_intact(s),
        0 <= p < s.len(),
        s[p] is Some,
    ensures
        probes_intact(s.update(p, Some((s[p].unwrap().0, v)))),
{
    let u = s.update(p, Some((s[p].unwrap().0, v)));
    let n = s.len() as int;
    assert forall|i: int, t: int|
        0 <= i < u.len() && #[trigger] u[i] is Some && 0 <= t < probe_dist(
            home(u[i].unwrap().0, n),
            i,
            n,
        ) implies (#[trigger] u[probe_pos(home(u[i].unwrap().0, n), t, n)]) is Some by {
        assert(s[i] is Some);
        assert(s[probe_pos(home(s[i].unwrap().0, n), t, n)] is Some);
    }
}

proof fn lemma_seq_map_prepend<V>(s: Seq<Option<(u64, V)>>, m: int)
    requires
        keys_unique(s),
        1 <= m <= s.len(),
    ensures
        s[m - 1] is None ==> seq_map(s.subrange(m - 1, s.len() as int)) == seq_map(
            s.subrange(m, s.len() as int),
        ),
        s[m - 1] is Some ==> !seq_map(s.subrange(m, s.len() as int)).contains_key(s[m - 1].unwrap().0)
            && seq_map(s.subrange(m - 1, s.len() as int)) == seq_map(
            s.subrange(m, s.len() as int),
        ).insert(s[m - 1].unwrap().0, s[m - 1].unwrap().1),
{
    let n = s.len() as int;
    let a = s.subrange(m - 1, n);
    let b = s.subrange(m, n);
    assert(b =~= a.subrange(1, a.len() as int));
    assert(keys_unique(a)) by {
        assert forall|i: int, j: int|
            0 <= i < a.len() && 0 <= j < a.len() && i != j && #[trigger] a[i] is Some
                && #[trigger] a[j] is Some implies a[i].unwrap().0 != a[j].unwrap().0 by {
            assert(s[i + m - 1] is Some && s[j + m - 1] is Some);
        }
    }
    assert(keys_unique(b)) by {
        assert forall|i: int, j: int|
            0 <= i < b.len() && 0 <= j < b.len() && i != j && #[trigger] b[i] is Some
                && #[trigger] b[j] is Some implies b[i].unwrap().0 != b[j].unwrap().0 by {
            assert(s[i + m] is Some && s[j + m] is Some);
        }
    }
    let expected = if s[m - 1] is Some {
        seq_map(b).insert(s[m - 1].unwrap().0, s[m - 1].unwrap().1)
    } else {
        seq_map(b)
    };
    if s[m - 1] is Some {
        let k = s[m - 1].unwrap().0;
        if exists|i: int| key_at(b, i, k) {
            let i = choose|i: int| key_at(b, i, k);
            assert(s[i + m] is Some && s[m - 1] is Some);
        }
    }
    assert forall|x: u64| #[trigger] seq_map(a).contains_key(x) <==> expected.contains_key(x) by {
        if exists|i: int| key_at(a, i, x) {
            let i = choose|i: int| key_at(a, i, x);
            if i > 0 {
                assert(key_at(b, i - 1, x));
            }
        }
        if exists|i: int| key_at(b, i, x) {
            let i = choose|i: int| key_at(b, i, x);
            assert(key_at(a, i + 1, x));
        }
        if s[m - 1] is Some && x == s[m - 1].unwrap().0 {
            assert(key_at(a, 0, x));
        }
    }
    assert forall|x: u64| #[trigger] seq_map(a).contains_key(x) implies seq_map(a)[x] == expected[x] by {
        let i = choose|i: int| key_at(a, i, x);
        lemma_seq_map_at(a, i);
        if i > 0 {
            assert(key_at(b, i - 1, x));
            lemma_seq_map_at(b, i - 1);
        }
    }
    assert(seq_map(a) =~= expected);
}

/// Open-addressing hash map from `u64` keys to values of type `V`.
pub struct HashMap<V> {
    buckets: Vec<Option<(u64, V)>>,
    size: usize,
}

/// Number of buckets of a new map.
pub const INITIAL_CAPACITY: usize = 64;

impl<V> View for HashMap<V> {
    type V = Map<u64, V>;

    closed spec fn view(&self) -> Map<u64, V> {
        seq_map(self.buckets@)
    }
}

impl<V> HashMap<V> {
    /// The table is at least of its initial size, holds each key once, keeps
    /// every probe chain unbroken, counts its entries, and has a free bucket.
    pub closed spec fn wf(&self) -> bool {
        &&& self.buckets@.len() >= INITIAL_CAPACITY
        &&& keys_unique(self.buckets@)
        &&& probes_intact(self.buckets@)
        &&& self.size == count_some(self.buckets@)
        &&& self.size < self.buckets@.len()
    }

    /// Number of buckets.
    pub closed spec fn spec_capacity(&self) -> nat {
        self.buckets@.len()
    }

    /// Number of entries.
    pub closed spec fn spec_size(&self) -> nat {
        self.size as nat
    }

    /// An empty map with 64 buckets.
    pub fn new() -> (r: Self)
        ensures
            r.wf(),
            r@ == Map::<u64, V>::empty(),
            r.spec_capacity() == INITIAL_CAPACITY,
            r.spec_size() == 0,
    {
        let buckets = Self::empty_buckets(INITIAL_CAPACITY);
        let r = HashMap { buckets, size: 0 };
        proof {
            lemma_count_empty(r.buckets@);
            assert(r@ =~= Map::<u64, V>::empty());
        }
        r
    }

    fn empty_buckets(n: usize) -> (r: Vec<Option<(u64, V)>>)
        ensures
            r@.len() == n,
            forall|i: int| 0 <= i < n ==> #[trigger] r@[i] is None,
    {
        let mut r: Vec<Option<(u64, V)>> = Vec::with_capacity(n);
        let mut i: usize = 0;
        while i < n
            invariant
                i <= n,
                r@.len() == i,
                forall|j: int| 0 <= j < i ==> #[trigger] r@[j] is None,
            decreases n - i,
        {
            r.push(None);
            i = i + 1;
        }
        r
    }

    /// The value stored under `key`, if any.
    pub fn get(&self, key: &u64) -> (r: Option<&V>)
        requires
            self.wf(),
        ensures
            match r {
                Some(v) => self@.contains_key(*key) && self@[*key] == *v,
                None => !self@.contains_key(*key),
            },
    {
        let n = self.buckets.len();
        let h = self.hash(*key);
        let mut index = h;
        let mut t: usize = 0;
        while t < n
            invariant
                n == self.buckets@.len(),
                self.wf(),
                h == home(*key, n as int),
                h < n,
                t <= n,
                t < n ==> index == probe_pos(h as int, t as int, n as int),
                forall|t2: int|
                    0 <= t2 < t ==> (#[trigger] self.buckets@[probe_pos(h as int, t2, n as int)]) is Some
                        && self.buckets@[probe_pos(h as int, t2, n as int)].unwrap().0 != *key,
            decreases n - t,
        {
            match &self.buckets[index] {
                Some((k, v)) => {
                    if *k == *key {
                        proof {
                            lemma_seq_map_at(self.buckets@, index as int);
                        }
                        return Some(v);
                    }
                },
                None => {
                    proof {
                        lemma_absent(self.buckets@, *key, h as int, t as int);
                    }
                    return None;
                },
            }
            index = if index + 1 == n {
                0
            } else {
                index + 1
            };
            t = t + 1;
        }
        proof {
            lemma_absent(self.buckets@, *key, h as int, t as int);
        }
        None
    }

    /// Stores `value` under `key` in a table that has room for one more entry.
    fn insert_entry(&mut self, key: u64, value: V)
        requires
            old(self).wf(),
            old(self).size + 1 < old(self).buckets@.len(),
        ensures
            final(self).wf(),
            final(self)@ == old(self)@.insert(key, value),
            final(self).buckets@.len() == old(self).buckets@.len(),
            final(self).size == old(self).size + if old(self)@.contains_key(key) {
                0int
            } else {
                1int
            },
    {
        let n = self.buckets.len();
        let h = self.hash(key);
        let mut index = h;
        let mut t: usize = 0;
        while t < n
            invariant
                n == self.buckets@.len(),
                *self == *old(self),
                self.wf(),
                self.size + 1 < n,
                h == home(key, n as int),
                h < n,
                t <= n,
                t < n ==> index == probe_pos(h as int, t as int, n as int),
                forall|t2: int|
                    0 <= t2 < t ==> (#[trigger] self.buckets@[probe_pos(h as int, t2, n as int)]) is Some
                        && self.buckets@[probe_pos(h as int, t2, n as int)].unwrap().0 != key,
            decreases n - t,
        {
            let found = match &self.buckets[index] {
                Some((k, _)) => if *k == key {
                    1u8
                } else {
                    2u8
                },
                None => 0u8,
            };
            if found == 0 {
                proof {
                    let s = self.buckets@;
                    lemma_absent(s, key, h as int, t as int);
                    assert(probe_dist(h as int, index as int, n as int) == t);
                    lemma_probes_fill(s, index as int, key, value);
                    lemma_seq_map_put(s, index as int, key, value);
                    lemma_count_update(s, index as int, Some((key, value)));
                }
                self.buckets.set(index, Some((key, value)));
                self.size = self.size + 1;
                return;
            } else if found == 1 {
                proof {
                    let s = self.buckets@;
                    lemma_seq_map_at(s, index as int);
                    lemma_probes_replace(s, index as int, value);
                    lemma_seq_map_put(s, index as int, key, value);
                    lemma_count_update(s, index as int, Some((key, value)));
                }
                self.buckets.set(index, Some((key, value)));
                return;
            }
            index = if index + 1 == n {
                0
            } else {
                index + 1
            };
            t = t + 1;
        }
        proof {
            let s = self.buckets@;
            assert forall|j: int| 0 <= j < s.len() implies #[trigger] s[j] is Some by {
                assert(probe_pos(h as int, probe_dist(h as int, j, n as int), n as int) == j);
            }
            lemma_count_full(s);
        }
    }

    /// Moves every entry into a table of twice as many buckets.
    fn resize(&mut self)
        requires
            old(self).wf(),
            old(self).buckets@.len() * 2 <= usize::MAX,
        ensures
            final(self).wf(),
            final(self)@ == old(self)@,
            final(self).buckets@.len() == 2 * old(self).buckets@.len(),
            final(self).size == old(self).size,
    {
        let ghost orig = self.buckets@;
        let ghost orig_size = self.size;
        let new_capacity = self.buckets.len() * 2;
        let mut old_buckets = Self::empty_buckets(new_capacity);
        std::mem::swap(&mut self.buckets, &mut old_buckets);
        self.size = 0;
        proof {
            lemma_count_empty(self.buckets@);
            assert(self@ =~= seq_map(orig.subrange(orig.len() as int, orig.len() as int)));
            assert(old_buckets@ =~= orig.take(orig.len() as int));
        }
        while old_buckets.len() > 0
            invariant
                self.wf(),
                self.buckets@.len() == new_capacity,
                new_capacity == 2 * orig.len(),
                orig.len() >= INITIAL_CAPACITY,
                keys_unique(orig),
                count_some(orig) == orig_size,
                orig_size < orig.len(),
                old_buckets@.len() <= orig.len(),
                old_buckets@ == orig.take(old_buckets@.len() as int),
                self@ == seq_map(orig.subrange(old_buckets@.len() as int, orig.len() as int)),
                self.size + count_some(old_buckets@) == orig_size,
            decreases old_buckets@.len(),
        {
            let ghost m = old_buckets@.len() as int;
            proof {
                assert(old_buckets@.drop_last() =~= orig.take(m - 1));
                lemma_seq_map_prepend(orig, m);
            }
            let entry = old_buckets.pop();
            match entry {
                Some(Some((k, v))) => {
                    self.insert_entry(k, v);
                },
                _ => {},
            }
        }
        proof {
            assert(orig.subrange(0, orig.len() as int) =~= orig);
        }
    }

    /// Stores `value` under `key`, replacing any value stored there before.
    /// The table doubles first when it is at least 70% full.
    pub fn insert(&mut self, key: u64, value: V)
        requires
            old(self).wf(),
            old(self).spec_capacity() * 2 <= usize::MAX,
        ensures
            final(self).wf(),
            final(self)@ == old(self)@.insert(key, value),
            final(self).spec_capacity() == if old(self).spec_size() * 10 >= old(self).spec_capacity()
                * 7 {
                2 * old(self).spec_capacity()
            } else {
                old(self).spec_capacity()
            },
            final(self).spec_size() == old(self).spec_size() + if old(self)@.contains_key(key) {
                0int
            } else {
                1int
            },
    {
        if (self.size as u128) * 10 >= (self.buckets.len() as u128) * 7 {
            self.resize();
        }
        self.insert_entry(key, value);
    }

    /// Walks the entries in bucket order.
    pub fn iter(&self) -> (r: Iter<'_, V>)
        requires
            self.wf(),
        ensures
            seq_map(r.spec_buckets()) == self@,
            keys_unique(r.spec_buckets()),
            r.spec_pos() == 0,
    {
        Iter { buckets: &self.buckets, pos: 0 }
    }

    /// Number of entries.
    pub fn len(&self) -> (r: usize)
        ensures
            r == self.spec_size(),
    {
        self.size
    }

    /// Number of buckets.
    pub fn capacity(&self) -> (r: usize)
        ensures
            r == self.spec_capacity(),
    {
        self.buckets.len()
    }

    /// The bucket at which the probe for `key` starts.
    fn hash(&self, key: u64) -> (r: usize)
        requires
            self.buckets@.len() > 0,
        ensures
            r == home(key, self.buckets@.len() as int),
            r < self.buckets@.len(),
    {
        let b: Vec<u8> = vec![
            #[verifier::truncate] (key as u8),
            #[verifier::truncate] ((key >> 8u64) as u8),
            #[verifier::truncate] ((key >> 16u64) as u8),
            #[verifier::truncate] ((key >> 24u64) as u8),
            #[verifier::truncate] ((key >> 32u64) as u8),
            #[verifier::truncate] ((key >> 40u64) as u8),
            #[verifier::truncate] ((key >> 48u64) as u8),
            #[verifier::truncate] ((key >> 56u64) as u8),
        ];
        assert(b@ =~= key_bytes(key));
        let mut hasher = SimpleHasher::new();
        hasher.write(b.as_slice());
        let n = self.buckets.len();
        (hasher.finish() % (n as u64)) as usize
    }
}

/// Cursor over the entries of a [`HashMap`], in bucket order.
pub struct Iter<'a, V> {
    buckets: &'a Vec<Option<(u64, V)>>,
    pos: usize,
}

impl<'a, V> Iter<'a, V> {
    /// The buckets walked.
    pub closed spec fn spec_buckets(&self) -> Seq<Option<(u64, V)>> {
        self.buckets@
    }

    /// The first bucket not yet visited.
    pub closed spec fn spec_pos(&self) -> int {
        self.pos as int
    }

    /// The entry of the next occupied bucket, or `None` when no bucket is
    /// left.
    pub fn next(&mut self) -> (r: Option<(u64, &'a V)>)
        requires
            old(self).spec_pos() <= old(self).spec_buckets().len(),
        ensures
            final(self).spec_buckets() == old(self).spec_buckets(),
            final(self).spec_pos() <= final(self).spec_buckets().len(),
            forall|j: int|
                old(self).spec_pos() <= j < final(self).spec_pos() - if r is Some {
                    1int
                } else {
                    0int
                } ==> (#[trigger] old(self).spec_buckets()[j]) is None,
            match r {
                Some((k, v)) => {
                    &&& old(self).spec_pos() < final(self).spec_pos()
                    &&& key_at(old(self).spec_buckets(), final(self).spec_pos() - 1, k)
                    &&& old(self).spec_buckets()[final(self).spec_pos() - 1].unwrap().1 == *v
                },
                None => final(self).spec_pos() == old(self).spec_buckets().len(),
            },
    {
        let b: &'a Vec<Option<(u64, V)>> = self.buckets;
        let ghost start = self.pos as int;
        while self.pos < b.len()
            invariant
                self.buckets == b,
                b@ == old(self).spec_buckets(),
                start == old(self).spec_pos(),
                start <= self.pos <= b@.len(),
                forall|j: int| start <= j < self.pos ==> (#[trigger] b@[j]) is None,
            decreases b@.len() - self.pos,
        {
            let i = self.pos;
            self.pos = self.pos + 1;
            match &b[i] {
                Some((k, v)) => {
                    return Some((*k, v));
                },
                None => {},
            }
        }
        None
    }
}

} // verus!

//! Small verified key-value stores backed by parallel vectors.
//!
//! The contracts in this crate keep their per-identity and per-id records in
//! these stores; each store's view is a `Map` from the key to the stored
//! value, so callers' contracts can speak in plain map terms.

use vstd::prelude::*;

verus! {

/// The map described by two parallel sequences, later entries winning.
pub open spec fn kv_view<V>(keys: Seq<u64>, vals: Seq<V>) -> Map<u64, V>
    decreases keys.len(),
{
    if keys.len() == 0 {
        Map::empty()
    } else {
        kv_view(keys.drop_last(), vals.drop_last()).insert(keys.last(), vals.last())
    }
}

/// Key is present in the view exactly when it occurs in the key sequence.
proof fn lemma_kv_dom<V>(keys: Seq<u64>, vals: Seq<V>, k: u64)
    ensures
        kv_view(keys, vals).dom().contains(k) <==> keys.contains(k),
    decreases keys.len(),
{
    if keys.len() > 0 {
        lemma_kv_dom(keys.drop_last(), vals.drop_last(), k);
        if keys.contains(k) {
            let i = choose|i: int| 0 <= i < keys.len() && keys[i] == k;
            if i < keys.len() - 1 {
                assert(keys.drop_last().contains(k)) by {
                    assert(keys.drop_last()[i] == k);
                }
            }
        }
    }
}

/// With unique keys, the view at an occurring key is the parallel value.
proof fn lemma_kv_get<V>(keys: Seq<u64>, vals: Seq<V>, i: int)
    requires
        keys.len() == vals.len(),
        0 <= i < keys.len(),
        forall|p: int, q: int| 0 <= p < q < keys.len() ==> keys[p] != keys[q],
    ensures
        kv_view(keys, vals).dom().contains(keys[i]),
        kv_view(keys, vals)[keys[i]] == vals[i],
    decreases keys.len(),
{
    if i == keys.len() - 1 {
    } else {
        assert(keys[i] != keys.last());
        assert(keys.drop_last()[i] == keys[i]);
        lemma_kv_get(keys.drop_last(), vals.drop_last(), i);
    }
}

/// Updating the value at an occurring key is a map insert.
proof fn lemma_kv_update<V>(keys: Seq<u64>, vals: Seq<V>, i: int, v: V)
    requires
        keys.len() == vals.len(),
        0 <= i < keys.len(),
        forall|p: int, q: int| 0 <= p < q < keys.len() ==> keys[p] != keys[q],
    ensures
        kv_view(keys, vals.update(i, v)) =~= kv_view(keys, vals).insert(keys[i], v),
    decreases keys.len(),
{
    let n = keys.len();
    if i == n - 1 {
        assert(vals.update(i, v).drop_last() =~= vals.drop_last());
        assert(vals.update(i, v).last() == v);
    } else {
        assert(vals.update(i, v).drop_last() =~= vals.drop_last().update(i, v));
        assert(vals.update(i, v).last() == vals.last());
        assert(keys.drop_last()[i] == keys[i]);
        lemma_kv_update(keys.drop_last(), vals.drop_last(), i, v);
        assert(keys[i] != keys.last());
    }
}

/// A finite map from `u64` keys to values, stored as parallel vectors.
pub struct KvMap<V> {
    keys: Vec<u64>,
    vals: Vec<V>,
}

impl<V> View for KvMap<V> {
    type V = Map<u64, V>;

    closed spec fn view(&self) -> Map<u64, V> {
        kv_view(self.keys@, self.vals@)
    }
}

impl<V> KvMap<V> {
    /// Parallel lengths and unique keys.
    pub closed spec fn wf(&self) -> bool {
        &&& self.keys@.len() == self.vals@.len()
        &&& forall|p: int, q: int|
            0 <= p < q < self.keys@.len() ==> self.keys@[p] != self.keys@[q]
    }

    pub fn new() -> (r: Self)
        ensures
            r.wf(),
            r@ =~= Map::<u64, V>::empty(),
    {
        KvMap { keys: Vec::new(), vals: Vec::new() }
    }

    fn find(&self, k: u64) -> (r: Option<usize>)
        ensures
            match r {
                Some(i) => i < self.keys@.len() && self.keys@[i as int] == k,
                None => !self.keys@.contains(k),
            },
    {
        let n = self.keys.len();
        let mut i: usize = 0;
        while i < n
            invariant
                i <= n,
                n == self.keys@.len(),
                forall|j: int| 0 <= j < i ==> self.keys@[j] != k,
            decreases n - i,
        {
            if self.keys[i] == k {
                return Some(i);
            }
            i = i + 1;
        }
        None
    }

    /// The stored value, if the key is present.
    pub fn get(&self, k: u64) -> (r: Option<&V>)
        requires
            self.wf(),
        ensures
            match r {
                Some(v) => self@.dom().contains(k) && *v == self@[k],
                None => !self@.dom().contains(k),
            },
    {
        proof {
            lemma_kv_dom(self.keys@, self.vals@, k);
        }
        match self.find(k) {
            Some(i) => {
                proof {
                    lemma_kv_get(self.keys@, self.vals@, i as int);
                }
                Some(&self.vals[i])
            },
            None => None,
        }
    }

    /// Inserts or overwrites the value stored at the key.
    pub fn set(&mut self, k: u64, v: V)
        requires
            old(self).wf(),
        ensures
            final(self).wf(),
            final(self)@ =~= old(self)@.insert(k, v),
    {
        proof {
            lemma_kv_dom(self.keys@, self.vals@, k);
        }
        match self.find(k) {
            Some(i) => {
                proof {
                    lemma_kv_update(self.keys@, self.vals@, i as int, v);
                }
                self.vals[i] = v;
            },
            None => {
                self.keys.push(k);
                self.vals.push(v);
                proof {
                    assert(self.keys@.drop_last() =~= old(self).keys@);
                    assert(self.vals@.drop_last() =~= old(self).vals@);
                }
            },
        }
    }
}

/// The map described by two parallel sequences over pair keys.
pub open spec fn kv2_view<V>(keys: Seq<(u64, u64)>, vals: Seq<V>) -> Map<(u64, u64), V>
    decreases keys.len(),
{
    if keys.len() == 0 {
        Map::empty()
    } else {
        kv2_view(keys.drop_last(), vals.drop_last()).insert(keys.last(), vals.last())
    }
}

proof fn lemma_kv2_dom<V>(keys: Seq<(u64, u64)>, vals: Seq<V>, k: (u64, u64))
    ensures
        kv2_view(keys, vals).dom().contains(k) <==> keys.contains(k),
    decreases keys.len(),
{
    if keys.len() > 0 {
        lemma_kv2_dom(keys.drop_last(), vals.drop_last(), k);
        if keys.contains(k) {
            let i = choose|i: int| 0 <= i < keys.len() && keys[i] == k;
            if i < keys.len() - 1 {
                assert(keys.drop_last().contains(k)) by {
                    assert(keys.drop_last()[i] == k);
                }
            }
        }
    }
}

proof fn lemma_kv2_get<V>(keys: Seq<(u64, u64)>, vals: Seq<V>, i: int)
    requires
        keys.len() == vals.len(),
        0 <= i < keys.len(),
        forall|p: int, q: int| 0 <= p < q < keys.len() ==> keys[p] != keys[q],
    ensures
        kv2_view(keys, vals).dom().contains(keys[i]),
        kv2_view(keys, vals)[keys[i]] == vals[i],
    decreases keys.len(),
{
    if i == keys.len() - 1 {
    } else {
        assert(keys[i] != keys.last());
        assert(keys.drop_last()[i] == keys[i]);
        lemma_kv2_get(keys.drop_last(), vals.drop_last(), i);
    }
}

proof fn lemma_kv2_update<V>(keys: Seq<(u64, u64)>, vals: Seq<V>, i: int, v: V)
    requires
        keys.len() == vals.len(),
        0 <= i < keys.len(),
        forall|p: int, q: int| 0 <= p < q < keys.len() ==> keys[p] != keys[q],
    ensures
        kv2_view(keys, vals.update(i, v)) =~= kv2_view(keys, vals).insert(keys[i], v),
    decreases keys.len(),
{
    let n = keys.len();
    if i == n - 1 {
        assert(vals.update(i, v).drop_last() =~= vals.drop_last());
        assert(vals.update(i, v).last() == v);
    } else {
        assert(vals.update(i, v).drop_last() =~= vals.drop_last().update(i, v));
        assert(vals.update(i, v).last() == vals.last());
        assert(keys.drop_last()[i] == keys[i]);
        lemma_kv2_update(keys.drop_last(), vals.drop_last(), i, v);
        assert(keys[i] != keys.last());
    }
}

/// A finite map from `(u64, u64)` keys to values, stored as parallel vectors.
pub struct KvMap2<V> {
    keys: Vec<(u64, u64)>,
    vals: Vec<V>,
}

impl<V> View for KvMap2<V> {
    type V = Map<(u64, u64), V>;

    closed spec fn view(&self) -> Map<(u64, u64), V> {
        kv2_view(self.keys@, self.vals@)
    }
}

impl<V> KvMap2<V> {
    /// Parallel lengths and unique keys.
    pub closed spec fn wf(&self) -> bool {
        &&& self.keys@.len() == self.vals@.len()
        &&& forall|p: int, q: int|
            0 <= p < q < self.keys@.len() ==> self.keys@[p] != self.keys@[q]
    }

    pub fn new() -> (r: Self)
        ensures
            r.wf(),
            r@ =~= Map::<(u64, u64), V>::empty(),
    {
        KvMap2 { keys: Vec::new(), vals: Vec::new() }
    }

    fn find(&self, k: (u64, u64)) -> (r: Option<usize>)
        ensures
            match r {
                Some(i) => i < self.keys@.len() && self.keys@[i as int] == k,
                None => !self.keys@.contains(k),
            },
    {
        let n = self.keys.len();
        let mut i: usize = 0;
        while i < n
            invariant
                i <= n,
                n == self.keys@.len(),
                forall|j: int| 0 <= j < i ==> self.keys@[j] != k,
            decreases n - i,
        {
            let cand = self.keys[i];
            if cand.0 == k.0 && cand.1 == k.1 {
                return Some(i);
            }
            i = i + 1;
        }
        None
    }

    /// Whether the key is present.
    pub fn contains(&self, k: (u64, u64)) -> (r: bool)
        requires
            self.wf(),
        ensures
            r == self@.dom().contains(k),
    {
        proof {
            lemma_kv2_dom(self.keys@, self.vals@, k);
        }
        match self.find(k) {
            Some(i) => {
                proof {
                    lemma_kv2_get(self.keys@, self.vals@, i as int);
                }
                true
            },
            None => false,
        }
    }

    /// The stored value, if the key is present.
    pub fn get(&self, k: (u64, u64)) -> (r: Option<&V>)
        requires
            self.wf(),
        ensures
            match r {
                Some(v) => self@.dom().contains(k) && *v == self@[k],
                None => !self@.dom().contains(k),
            },
    {
        proof {
            lemma_kv2_dom(self.keys@, self.vals@, k);
        }
        match self.find(k) {
            Some(i) => {
                proof {
                    lemma_kv2_get(self.keys@, self.vals@, i as int);
                }
                Some(&self.vals[i])
            },
            None => None,
        }
    }

    /// Inserts or overwrites the value stored at the key.
    pub fn set(&mut self, k: (u64, u64), v: V)
        requires
            old(self).wf(),
        ensures
            final(self).wf(),
            final(self)@ =~= old(self)@.insert(k, v),
    {
        proof {
            lemma_kv2_dom(self.keys@, self.vals@, k);
        }
        match self.find(k) {
            Some(i) => {
                proof {
                    lemma_kv2_update(self.keys@, self.vals@, i as int, v);
                }
                self.vals[i] = v;
            },
            None => {
                self.keys.push(k);
                self.vals.push(v);
                proof {
                    assert(self.keys@.drop_last() =~= old(self).keys@);
                    assert(self.vals@.drop_last() =~= old(self).vals@);
                }
            },
        }
    }
}

/// The map described by two parallel sequences over triple keys.
pub open spec fn kv3_view<V>(keys: Seq<(u64, u64, u64)>, vals: Seq<V>) -> Map<(u64, u64, u64), V>
    decreases keys.len(),
{
    if keys.len() == 0 {
        Map::empty()
    } else {
        kv3_view(keys.drop_last(), vals.drop_last()).insert(keys.last(), vals.last())
    }
}

proof fn lemma_kv3_dom<V>(keys: Seq<(u64, u64, u64)>, vals: Seq<V>, k: (u64, u64, u64))
    ensures
        kv3_view(keys, vals).dom().contains(k) <==> keys.contains(k),
    decreases keys.len(),
{
    if keys.len() > 0 {
        lemma_kv3_dom(keys.drop_last(), vals.drop_last(), k);
        if keys.contains(k) {
            let i = choose|i: int| 0 <= i < keys.len() && keys[i] == k;
            if i < keys.len() - 1 {
                assert(keys.drop_last().contains(k)) by {
                    assert(keys.drop_last()[i] == k);
                }
            }
        }
    }
}

proof fn lemma_kv3_get<V>(keys: Seq<(u64, u64, u64)>, vals: Seq<V>, i: int)
    requires
        keys.len() == vals.len(),
        0 <= i < keys.len(),
        forall|p: int, q: int| 0 <= p < q < keys.len() ==> keys[p] != keys[q],
    ensures
        kv3_view(keys, vals).dom().contains(keys[i]),
        kv3_view(keys, vals)[keys[i]] == vals[i],
    decreases keys.len(),
{
    if i == keys.len() - 1 {
    } else {
        assert(keys[i] != keys.last());
        assert(keys.drop_last()[i] == keys[i]);
        lemma_kv3_get(keys.drop_last(), vals.drop_last(), i);
    }
}

proof fn lemma_kv3_update<V>(keys: Seq<(u64, u64, u64)>, vals: Seq<V>, i: int, v: V)
    requires
        keys.len() == vals.len(),
        0 <= i < keys.len(),
        forall|p: int, q: int| 0 <= p < q < keys.len() ==> keys[p] != keys[q],
    ensures
        kv3_view(keys, vals.update(i, v)) =~= kv3_view(keys, vals).insert(keys[i], v),
    decreases keys.len(),
{
    let n = keys.len();
    if i == n - 1 {
        assert(vals.update(i, v).drop_last() =~= vals.drop_last());
        assert(vals.update(i, v).last() == v);
    } else {
        assert(vals.update(i, v).drop_last() =~= vals.drop_last().update(i, v));
        assert(vals.update(i, v).last() == vals.last());
        assert(keys.drop_last()[i] == keys[i]);
        lemma_kv3_update(keys.drop_last(), vals.drop_last(), i, v);
        assert(keys[i] != keys.last());
    }
}

/// A finite map from `(u64, u64, u64)` keys to values, stored as parallel vectors.
pub struct KvMap3<V> {
    keys: Vec<(u64, u64, u64)>,
    vals: Vec<V>,
}

impl<V> View for KvMap3<V> {
    type V = Map<(u64, u64, u64), V>;

    closed spec fn view(&self) -> Map<(u64, u64, u64), V> {
        kv3_view(self.keys@, self.vals@)
    }
}

impl<V> KvMap3<V> {
    /// Parallel lengths and unique keys.
    pub closed spec fn wf(&self) -> bool {
        &&& self.keys@.len() == self.vals@.len()
        &&& forall|p: int, q: int|
            0 <= p < q < self.keys@.len() ==> self.keys@[p] != self.keys@[q]
    }

    pub fn new() -> (r: Self)
        ensures
            r.wf(),
            r@ =~= Map::<(u64, u64, u64), V>::empty(),
    {
        KvMap3 { keys: Vec::new(), vals: Vec::new() }
    }

    fn find(&self, k: (u64, u64, u64)) -> (r: Option<usize>)
        ensures
            match r {
                Some(i) => i < self.keys@.len() && self.keys@[i as int] == k,
                None => !self.keys@.contains(k),
            },
    {
        let n = self.keys.len();
        let mut i: usize = 0;
        while i < n
            invariant
                i <= n,
                n == self.keys@.len(),
                forall|j: int| 0 <= j < i ==> self.keys@[j] != k,
            decreases n - i,
        {
            let cand = self.keys[i];
            if cand.0 == k.0 && cand.1 == k.1 && cand.2 == k.2 {
                return Some(i);
            }
            i = i + 1;
        }
        None
    }

    /// The stored value, if the key is present.
    pub fn get(&self, k: (u64, u64, u64)) -> (r: Option<&V>)
        requires
            self.wf(),
        ensures
            match r {
                Some(v) => self@.dom().contains(k) && *v == self@[k],
                None => !self@.dom().contains(k),
            },
    {
        proof {
            lemma_kv3_dom(self.keys@, self.vals@, k);
        }
        match self.find(k) {
            Some(i) => {
                proof {
                    lemma_kv3_get(self.keys@, self.vals@, i as int);
                }
                Some(&self.vals[i])
            },
            None => None,
        }
    }

    /// Inserts or overwrites the value stored at the key.
    pub fn set(&mut self, k: (u64, u64, u64), v: V)
        requires
            old(self).wf(),
        ensures
            final(self).wf(),
            final(self)@ =~= old(self)@.insert(k, v),
    {
        proof {
            lemma_kv3_dom(self.keys@, self.vals@, k);
        }
        match self.find(k) {
            Some(i) => {
                proof {
                    lemma_kv3_update(self.keys@, self.vals@, i as int, v);
                }
                self.vals[i] = v;
            },
            None => {
                self.keys.push(k);
                self.vals.push(v);
                proof {
                    assert(self.keys@.drop_last() =~= old(self).keys@);
                    assert(self.vals@.drop_last() =~= old(self).vals@);
                }
            },
        }
    }
}

} // verus!

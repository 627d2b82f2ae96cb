use vstd::prelude::*;

verus! {

/// An identifier handed out by a [`Registry`]: a thin wrapper round an integer.
pub trait RegId: Sized + Copy {
    /// The integer this identifier stands for.
    spec fn id_value(&self) -> int;

    /// The first identifier a fresh registry hands out.
    fn new() -> (r: Self)
        ensures
            r.id_value() == 0,
    ;

    /// The identifier that follows this one.
    fn increment(self) -> (r: Self)
        requires
            self.id_value() < i64::MAX,
        ensures
            r.id_value() == self.id_value() + 1,
    ;

    /// The integer this identifier stands for, at run time.
    fn raw(&self) -> (r: i64)
        ensures
            r as int == self.id_value(),
    ;
}

/// An identifier-indexed store of values.
///
/// Values live in a dense arena: the value under identifier `n` sits in slot `n`, and a
/// removed value leaves an empty slot behind. Fresh identifiers come from a counter that only
/// ever moves forward, so an identifier is never handed out twice by `insert`.
pub struct Registry<K: RegId, V> {
    slots: Vec<Option<(K, V)>>,
    next_id: K,
}

impl<K: RegId, V> View for Registry<K, V> {
    type V = Map<int, V>;

    /// The stored values, keyed by the integer of their identifier.
    closed spec fn view(&self) -> Map<int, V> {
        Map::new(
            |n: int| 0 <= n < self.slots@.len() && self.slots@[n] is Some,
            |n: int| self.slots@[n]->Some_0.1,
        )
    }
}

/// `ks` lists the keys of `m` in increasing order, each once.
pub open spec fn lists_keys_in_order<V>(m: Map<int, V>, ks: Seq<int>) -> bool {
    &&& forall|a: int, b: int| 0 <= a < b < ks.len() ==> ks[a] < ks[b]
    &&& forall|j: int| 0 <= j < ks.len() ==> m.contains_key(#[trigger] ks[j])
    &&& forall|n: int| m.contains_key(n) ==> ks.contains(n)
}

/// The slot that holds identifier `n` in an arena of `len` slots, if there is one.
fn slot_index(n: i64, len: usize) -> (r: Option<usize>)
    ensures
        r is Some <==> 0 <= n < len,
        r is Some ==> r->Some_0 as int == n,
{
    if n < 0 || n as u64 >= len as u64 {
        None
    } else {
        Some(n as usize)
    }
}

/// Mutable borrows of two distinct elements of a slice, the one at `i` before the one at `j`.
fn split_pair_mut<T>(s: &mut [T], i: usize, j: usize) -> (r: (&mut T, &mut T))
    requires
        i < j < old(s)@.len(),
    ensures
        *r.0 == old(s)@[i as int],
        *r.1 == old(s)@[j as int],
        final(s)@ == old(s)@.update(i as int, *final(r.0)).update(j as int, *final(r.1)),
{
    let (front, back) = s.split_at_mut(j);
    let (_before, from_i) = front.split_at_mut(i);
    let a = from_i.first_mut().unwrap();
    let b = back.first_mut().unwrap();
    (a, b)
}

impl<K: RegId, V> Registry<K, V> {
    /// Every stored identifier sits in the slot of its own integer, and the counter is not
    /// negative.
    pub closed spec fn wf(&self) -> bool {
        &&& self.next_id.id_value() >= 0
        &&& forall|n: int|
            0 <= n < self.slots@.len() && (#[trigger] self.slots@[n]) is Some
                ==> self.slots@[n]->Some_0.0.id_value() == n
    }

    /// The integer of the identifier that the next `insert` hands out.
    pub closed spec fn next_key(&self) -> int {
        self.next_id.id_value()
    }

    /// The counter of a well-formed registry is never negative, so no identifier it hands out
    /// is the sentinel `-1`.
    pub proof fn lemma_next_key_nonnegative(&self)
        requires
            self.wf(),
        ensures
            self.next_key() >= 0,
    {
    }

    pub fn new() -> (r: Self)
        ensures
            r.wf(),
            r@ == Map::<int, V>::empty(),
            r.next_key() == 0,
    {
        let r = Registry { slots: Vec::new(), next_id: K::new() };
        assert(r@ =~= Map::<int, V>::empty());
        r
    }

    pub fn next_id(&self) -> (r: K)
        ensures
            r.id_value() == self.next_key(),
    {
        self.next_id
    }

    /// Stores `v` under `k`, replacing what was there.
    fn put(&mut self, k: K, v: V)
        requires
            old(self).wf(),
            0 <= k.id_value() < usize::MAX,
        ensures
            final(self).wf(),
            final(self)@ == old(self)@.insert(k.id_value(), v),
            final(self).next_id == old(self).next_id,
    {
        let n = k.raw() as usize;
        if n < self.slots.len() {
            self.slots.set(n, Some((k, v)));
        } else {
            while self.slots.len() < n
                invariant
                    self.wf(),
                    self.slots.len() <= n,
                    self@ == old(self)@,
                    self.next_id == old(self).next_id,
                decreases n - self.slots.len(),
            {
                let ghost before = self@;
                self.slots.push(None);
                assert(self@ =~= before);
            }
            self.slots.push(Some((k, v)));
        }
        assert(self@ =~= old(self)@.insert(k.id_value(), v));
    }

    /// Stores `v` under a fresh identifier and returns that identifier.
    pub fn insert(&mut self, v: V) -> (r: K)
        requires
            old(self).wf(),
            old(self).next_key() < usize::MAX,
            old(self).next_key() < i64::MAX,
        ensures
            final(self).wf(),
            r.id_value() == old(self).next_key(),
            r.id_value() >= 0,
            final(self).next_key() == old(self).next_key() + 1,
            final(self)@ == old(self)@.insert(r.id_value(), v),
    {
        let k = self.next_id;
        self.put(k, v);
        self.next_id = k.increment();
        k
    }

    /// Stores `v` under the given identifier, replacing what was there. The counter of fresh
    /// identifiers is left as it is.
    pub fn insert_with_key(&mut self, k: K, v: V)
        requires
            old(self).wf(),
            0 <= k.id_value() < usize::MAX,
        ensures
            final(self).wf(),
            final(self).next_key() == old(self).next_key(),
            final(self)@ == old(self)@.insert(k.id_value(), v),
    {
        self.put(k, v);
    }

    /// Drops every stored value. Identifiers handed out before stay used up.
    pub fn clear(&mut self)
        requires
            old(self).wf(),
        ensures
            final(self).wf(),
            final(self).next_key() == old(self).next_key(),
            final(self)@ == Map::<int, V>::empty(),
    {
        self.slots.clear();
        assert(self@ =~= Map::<int, V>::empty());
    }

    /// The value stored under `k`, if any.
    pub fn get(&self, k: &K) -> (r: Option<&V>)
        requires
            self.wf(),
        ensures
            r is Some <==> self@.contains_key(k.id_value()),
            r is Some ==> *r->Some_0 == self@[k.id_value()],
    {
        let n = match slot_index(k.raw(), self.slots.len()) {
            Some(n) => n,
            None => return None,
        };
        match &self.slots[n] {
            Some(pair) => Some(&pair.1),
            None => None,
        }
    }

    /// A mutable borrow of the value stored under `k`, if any.
    pub fn get_mut(&mut self, k: &K) -> (r: Option<&mut V>)
        requires
            old(self).wf(),
        ensures
            r is Some <==> old(self)@.contains_key(k.id_value()),
            r is Some ==> *r->Some_0 == old(self)@[k.id_value()],
            r is Some ==> final(self)@ == old(self)@.insert(k.id_value(), *final(r->Some_0)),
            r is None ==> final(self)@ == old(self)@,
            final(self).wf(),
            final(self).next_key() == old(self).next_key(),
    {
        let n = match slot_index(k.raw(), self.slots.len()) {
            Some(n) => n,
            None => return None,
        };
        match &mut self.slots[n] {
            Some(pair) => Some(&mut pair.1),
            None => None,
        }
    }

    /// Takes the value stored under `k` out of the registry.
    pub fn remove(&mut self, k: &K) -> (r: Option<V>)
        requires
            old(self).wf(),
        ensures
            r is Some <==> old(self)@.contains_key(k.id_value()),
            r is Some ==> r->Some_0 == old(self)@[k.id_value()],
            final(self)@ == old(self)@.remove(k.id_value()),
            final(self).wf(),
            final(self).next_key() == old(self).next_key(),
    {
        let n = match slot_index(k.raw(), self.slots.len()) {
            Some(n) => n,
            None => {
                assert(self@ =~= old(self)@.remove(k.id_value()));
                return None;
            },
        };
        let taken = self.slots[n].take();
        assert(self@ =~= old(self)@.remove(k.id_value()));
        match taken {
            Some(pair) => Some(pair.1),
            None => None,
        }
    }

    /// Mutable borrows of the values under two distinct identifiers. Fails when the two
    /// identifiers are the same, since the borrows would alias, or when either is absent.
    pub fn get_two_mut(&mut self, k1: &K, k2: &K) -> (r: Option<(&mut V, &mut V)>)
        requires
            old(self).wf(),
        ensures
            r is Some <==> (k1.id_value() != k2.id_value() && old(self)@.contains_key(
                k1.id_value(),
            ) && old(self)@.contains_key(k2.id_value())),
            r is Some ==> *r->Some_0.0 == old(self)@[k1.id_value()],
            r is Some ==> *r->Some_0.1 == old(self)@[k2.id_value()],
            r is Some ==> final(self)@ == old(self)@.insert(
                k1.id_value(),
                *final(r->Some_0.0),
            ).insert(k2.id_value(), *final(r->Some_0.1)),
            r is None ==> final(self)@ == old(self)@,
            final(self).wf(),
            final(self).next_key() == old(self).next_key(),
    {
        let n1 = match slot_index(k1.raw(), self.slots.len()) {
            Some(n) => n,
            None => return None,
        };
        let n2 = match slot_index(k2.raw(), self.slots.len()) {
            Some(n) => n,
            None => return None,
        };
        if n1 == n2 || self.slots[n1].is_none() || self.slots[n2].is_none() {
            return None;
        }
        let slots = self.slots.as_mut_slice();
        let (s1, s2) = if n1 < n2 {
            split_pair_mut(slots, n1, n2)
        } else {
            let (b, a) = split_pair_mut(slots, n2, n1);
            (a, b)
        };
        match (s1, s2) {
            (Some(p1), Some(p2)) => Some((&mut p1.1, &mut p2.1)),
            _ => None,
        }
    }

    /// The stored identifiers with their values, in increasing order of identifier.
    pub fn iter(&self) -> (r: Vec<(K, &V)>)
        requires
            self.wf(),
        ensures
            lists_keys_in_order(self@, r@.map_values(|p: (K, &V)| p.0.id_value())),
            r.len() == self@.len(),
            forall|j: int| 0 <= j < r.len() ==> *(#[trigger] r@[j]).1 == self@[r@[j].0.id_value()],
    {
        let mut r: Vec<(K, &V)> = Vec::new();
        let mut i: usize = 0;
        while i < self.slots.len()
            invariant
                self.wf(),
                i <= self.slots.len(),
                forall|a: int, b: int|
                    0 <= a < b < r.len() ==> r@[a].0.id_value() < r@[b].0.id_value(),
                forall|j: int|
                    0 <= j < r.len() ==> 0 <= (#[trigger] r@[j]).0.id_value() < i
                        && self@.contains_key(r@[j].0.id_value())
                        && *r@[j].1 == self@[r@[j].0.id_value()],
                forall|n: int|
                    #![trigger self@.contains_key(n)]
                    0 <= n < i && self@.contains_key(n) ==> exists|j: int|
                        0 <= j < r.len() && r@[j].0.id_value() == n,
            decreases self.slots.len() - i,
        {
            match &self.slots[i] {
                Some(pair) => {
                    let ghost old_r = r@;
                    r.push((pair.0, &pair.1));
                    assert(r@[r.len() - 1].0.id_value() == i);
                    assert forall|n: int|
                        #![trigger self@.contains_key(n)]
                        0 <= n < i + 1 && self@.contains_key(n) implies exists|j: int|
                            0 <= j < r.len() && r@[j].0.id_value() == n by {
                        if n < i {
                            let j = choose|j: int| 0 <= j < old_r.len() && old_r[j].0.id_value() == n;
                            assert(r@[j] == old_r[j]);
                        } else {
                            assert(r@[r.len() - 1].0.id_value() == n);
                        }
                    }
                },
                None => {},
            }
            i = i + 1;
        }
        let ghost ks = r@.map_values(|p: (K, &V)| p.0.id_value());
        assert forall|n: int| self@.contains_key(n) implies ks.contains(n) by {
            let j = choose|j: int| 0 <= j < r.len() && r@[j].0.id_value() == n;
            assert(ks[j] == n);
        }
        proof {
            assert(ks.to_set() =~= self@.dom());
            ks.unique_seq_to_set();
        }
        r
    }

    /// The stored identifiers, in increasing order. Together with `get_mut` this updates every
    /// stored value, one identifier at a time.
    pub fn keys(&self) -> (r: Vec<K>)
        requires
            self.wf(),
        ensures
            lists_keys_in_order(self@, r@.map_values(|k: K| k.id_value())),
            r.len() == self@.len(),
    {
        let pairs = self.iter();
        let ghost ks = pairs@.map_values(|p: (K, &V)| p.0.id_value());
        let mut r: Vec<K> = Vec::new();
        let mut i: usize = 0;
        while i < pairs.len()
            invariant
                i <= pairs.len(),
                r.len() == i,
                ks == pairs@.map_values(|p: (K, &V)| p.0.id_value()),
                forall|j: int| 0 <= j < i ==> (#[trigger] r@[j]).id_value() == ks[j],
            decreases pairs.len() - i,
        {
            r.push(pairs[i].0);
            i = i + 1;
        }
        assert(r@.map_values(|k: K| k.id_value()) =~= ks);
        r
    }

    /// The stored values, in increasing order of identifier.
    pub fn values(&self) -> (r: Vec<&V>)
        requires
            self.wf(),
        ensures
            exists|ks: Seq<int>|
                #![trigger lists_keys_in_order(self@, ks)]
                lists_keys_in_order(self@, ks) && ks.len() == r.len() && r.len() == self@.len()
                    && forall|j: int|
                    0 <= j < r.len() ==> *(#[trigger] r@[j]) == self@[ks[j]],
    {
        let pairs = self.iter();
        let ghost ks = pairs@.map_values(|p: (K, &V)| p.0.id_value());
        let mut r: Vec<&V> = Vec::new();
        let mut i: usize = 0;
        while i < pairs.len()
            invariant
                i <= pairs.len(),
                r.len() == i,
                forall|j: int| 0 <= j < i ==> *(#[trigger] r@[j]) == *pairs@[j].1,
            decreases pairs.len() - i,
        {
            r.push(pairs[i].1);
            i = i + 1;
        }
        assert(forall|j: int| 0 <= j < r.len() ==> *(#[trigger] r@[j]) == self@[ks[j]]);
        r
    }
}

/// Identifiers handed out by successive inserts count up from the counter by one each, so
/// they strictly increase and none repeats, whatever removals or other calls come between
/// them. `before[i]` is the registry just before the `i`-th insert and `ids[i]` what that
/// insert returned; each insert returns the counter and moves it forward by one, and every
/// other call of the registry leaves it as it is.
pub proof fn lemma_insert_ids_increase<K: RegId, V>(before: Seq<Registry<K, V>>, ids: Seq<K>)
    requires
        before.len() == ids.len(),
        forall|i: int| 0 <= i < ids.len() ==> (#[trigger] ids[i]).id_value() == before[i].next_key(),
        forall|i: int|
            0 <= i < ids.len() - 1 ==> (#[trigger] before[i + 1]).next_key() == before[i].next_key()
                + 1,
    ensures
        forall|i: int| 0 <= i < ids.len() ==> (#[trigger] ids[i]).id_value() == ids[0].id_value() + i,
        forall|a: int, b: int|
            0 <= a < b < ids.len() ==> (#[trigger] ids[a]).id_value() < (#[trigger] ids[b]).id_value(),
{
    assert forall|i: int| 0 <= i < ids.len() implies (#[trigger] ids[i]).id_value() == ids[0].id_value() + i by {
        lemma_counter_counts(before, i);
    }
}

proof fn lemma_counter_counts<K: RegId, V>(before: Seq<Registry<K, V>>, i: int)
    requires
        0 <= i < before.len(),
        forall|j: int|
            0 <= j < before.len() - 1 ==> (#[trigger] before[j + 1]).next_key() == before[j].next_key()
                + 1,
    ensures
        before[i].next_key() == before[0].next_key() + i,
    decreases i,
{
    if i > 0 {
        lemma_counter_counts(before, i - 1);
        assert(before[(i - 1) + 1].next_key() == before[i - 1].next_key() + 1);
    }
}

} // verus!

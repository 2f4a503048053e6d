//! The registry's backing store: a handle-keyed, append-only container whose
//! keys are minted by a counter and never reused, not even across a drain.

use vstd::prelude::*;

verus! {

/// A key-minting container: `insert` stores a value under a fresh key and
/// hands the key back, `get` resolves a key, `drain` empties the container
/// without ever letting an old key resolve again.
pub trait Container<K, V>: Sized {
    /// Whether the key space still has room for one more insertion.
    spec fn can_insert(&self) -> bool;

    /// Whether every key minted so far, the next one included, fits the key
    /// type, so that the counter can be advanced past the stored values.
    spec fn can_drain(&self) -> bool;

    fn new() -> Self;

    fn reserve(&mut self, additional: usize);

    fn insert(&mut self, t: V) -> K
        requires
            old(self).can_insert(),
    ;

    fn get(&self, k: &K) -> Option<&V>;

    fn drain(&mut self) -> Vec<V>
        requires
            old(self).can_drain(),
    ;
}

/// Values stored in insertion order, keyed by a monotonically increasing
/// counter. A drained container forgets its values but not its counter, so
/// keys minted before a drain never resolve again and are never re-minted.
pub struct CounterMap<V> {
    items: Vec<V>,
    base: usize,
}

impl<V> CounterMap<V> {
    /// The stored values, oldest first.
    pub closed spec fn contents(&self) -> Seq<V> {
        self.items@
    }

    /// The key the oldest stored value is under.
    pub closed spec fn base_key(&self) -> nat {
        self.base as nat
    }

    /// The key the next insertion will mint.
    pub open spec fn next_key(&self) -> nat {
        (self.base_key() + self.contents().len()) as nat
    }

    /// Keys under which a value is currently stored.
    pub open spec fn resolvable(&self, k: usize) -> bool {
        self.base_key() <= k < self.next_key()
    }

    /// The value stored under `k`.
    pub open spec fn lookup(&self, k: usize) -> V
        recommends
            self.resolvable(k),
    {
        self.contents()[k - self.base_key()]
    }

    pub fn new() -> (r: Self)
        ensures
            r.contents() =~= Seq::<V>::empty(),
            r.base_key() == 0,
    {
        CounterMap { items: Vec::new(), base: 0 }
    }

    pub fn reserve(&mut self, additional: usize)
        ensures
            final(self).contents() == old(self).contents(),
            final(self).base_key() == old(self).base_key(),
    {
        self.items.reserve(additional);
    }

    /// Store `t` under a fresh key and return the key.
    pub fn insert(&mut self, t: V) -> (k: usize)
        requires
            old(self).next_key() < usize::MAX,
        ensures
            k == old(self).next_key(),
            final(self).contents() == old(self).contents().push(t),
            final(self).base_key() == old(self).base_key(),
    {
        let k = self.base + self.items.len();
        self.items.push(t);
        k
    }

    /// Whether the key space still has room for one more insertion.
    pub fn has_key_space(&self) -> (b: bool)
        ensures
            b == (self.next_key() < usize::MAX),
    {
        match self.base.checked_add(self.items.len()) {
            Some(k) => k < usize::MAX,
            None => false,
        }
    }

    /// How many values are currently stored.
    pub fn len(&self) -> (n: usize)
        ensures
            n == self.contents().len(),
    {
        self.items.len()
    }

    pub fn get(&self, k: &usize) -> (r: Option<&V>)
        ensures
            match r {
                Some(v) => self.resolvable(*k) && *v == self.lookup(*k),
                None => !self.resolvable(*k),
            },
    {
        if *k >= self.base && *k - self.base < self.items.len() {
            Some(&self.items[*k - self.base])
        } else {
            None
        }
    }

    /// Hand every stored value out, oldest first, and advance the counter
    /// past all of them: no key minted before the drain resolves afterwards.
    pub fn drain(&mut self) -> (out: Vec<V>)
        requires
            old(self).next_key() <= usize::MAX,
        ensures
            out@ == old(self).contents(),
            final(self).contents() =~= Seq::<V>::empty(),
            final(self).base_key() == old(self).next_key(),
    {
        let mut out: Vec<V> = Vec::new();
        core::mem::swap(&mut out, &mut self.items);
        self.base = self.base + out.len();
        out
    }
}

impl<V> Container<usize, V> for CounterMap<V> {
    open spec fn can_insert(&self) -> bool {
        self.next_key() < usize::MAX
    }

    open spec fn can_drain(&self) -> bool {
        self.next_key() <= usize::MAX
    }

    fn new() -> Self {
        CounterMap::new()
    }

    fn reserve(&mut self, additional: usize) {
        CounterMap::reserve(self, additional);
    }

    fn insert(&mut self, t: V) -> usize {
        CounterMap::insert(self, t)
    }

    fn get(&self, k: &usize) -> Option<&V> {
        CounterMap::get(self, k)
    }

    fn drain(&mut self) -> Vec<V> {
        CounterMap::drain(self)
    }
}

} // verus!

//! Typed component storage: one sparse table per component type, indexed by
//! entity.

use vstd::prelude::*;

verus! {

/// Names one entity of a world.
#[derive(Clone, Copy, Debug, PartialEq, Eq, Structural)]
pub struct Entity {
    pub id: usize,
}

/// The components of one type, by entity.
pub struct Storage<T> {
    slots: Vec<Option<T>>,
}

impl<T: Copy> View for Storage<T> {
    type V = Map<int, T>;

    /// The component of each entity that has one.
    closed spec fn view(&self) -> Map<int, T> {
        Map::new(
            |e: int| 0 <= e < self.slots@.len() && self.slots@[e].is_some(),
            |e: int| self.slots@[e].unwrap(),
        )
    }
}

/// The entry of a map at `e`, if it has one.
pub open spec fn lookup<T>(m: Map<int, T>, e: int) -> Option<T> {
    if m.contains_key(e) {
        Some(m[e])
    } else {
        None
    }
}

/// Two maps that have the same entry, or none, for every entity are one map.
pub proof fn lemma_same_lookups<T>(a: Map<int, T>, b: Map<int, T>)
    requires
        forall|e: int| #[trigger] lookup(a, e) == lookup(b, e),
    ensures
        a == b,
{
    assert forall|e: int| a.contains_key(e) == b.contains_key(e) by {
        assert(lookup(a, e).is_some() == lookup(b, e).is_some());
    }
    assert forall|e: int| a.contains_key(e) implies a[e] == b[e] by {
        assert(lookup(a, e) == lookup(b, e));
    }
    assert(a =~= b);
}

impl<T: Copy> Storage<T> {
    /// The component of entity `e`, if it has one.
    pub open spec fn component(&self, e: int) -> Option<T> {
        lookup(self@, e)
    }

    /// One more than the largest entity id that may have a component.
    pub closed spec fn spec_len(&self) -> nat {
        self.slots@.len()
    }

    /// Every entity with a component lies below `spec_len`.
    pub broadcast proof fn lemma_below_len(&self, e: int)
        requires
            #[trigger] self@.contains_key(e),
        ensures
            0 <= e < self.spec_len(),
    {
    }

    /// An empty storage.
    pub fn new() -> (s: Self)
        ensures
            s@ == Map::<int, T>::empty(),
            s.spec_len() == 0,
    {
        let s = Storage { slots: Vec::new() };
        assert(s@ =~= Map::<int, T>::empty());
        s
    }

    /// One more than the largest entity id that may have a component.
    pub fn len(&self) -> (n: usize)
        ensures
            n == self.spec_len(),
            forall|e: int| self@.contains_key(e) ==> 0 <= e < n,
    {
        self.slots.len()
    }

    /// The component of `entity`, if it has one.
    pub fn get(&self, entity: Entity) -> (r: Option<T>)
        ensures
            r == self.component(entity.id as int),
    {
        if entity.id < self.slots.len() {
            self.slots[entity.id]
        } else {
            None
        }
    }

    /// Whether `entity` has a component here.
    pub fn contains(&self, entity: Entity) -> (r: bool)
        ensures
            r == self@.contains_key(entity.id as int),
    {
        self.get(entity).is_some()
    }

    /// Gives `entity` the component `value` and returns the one it had.
    pub fn insert(&mut self, entity: Entity, value: T) -> (previous: Option<T>)
        ensures
            final(self)@ == old(self)@.insert(entity.id as int, value),
            previous == old(self).component(entity.id as int),
            final(self).spec_len() == if entity.id < old(self).spec_len() {
                old(self).spec_len()
            } else {
                (entity.id + 1) as nat
            },
    {
        let previous = self.get(entity);
        while self.slots.len() <= entity.id
            invariant
                self@ == old(self)@,
                self.slots@.len() >= old(self).slots@.len(),
                self.slots@.len() <= entity.id + 1 || self.slots@.len() == old(self).slots@.len(),
            decreases entity.id + 1 - self.slots@.len(),
        {
            let ghost before = self@;
            self.slots.push(None);
            assert(self@ =~= before);
        }
        self.slots.set(entity.id, Some(value));
        assert(self@ =~= old(self)@.insert(entity.id as int, value));
        previous
    }

    /// Tests that every entity with a component here lies below `n`.
    pub fn is_below(&self, n: usize) -> (r: bool)
        ensures
            r == (forall|e: int| #[trigger] self@.contains_key(e) ==> 0 <= e < n),
    {
        let mut i: usize = n;
        while i < self.slots.len()
            invariant
                n <= i,
                forall|e: int| n <= e < i && e < self.slots@.len() ==> self.slots@[e].is_none(),
            decreases self.slots@.len() - i,
        {
            if self.slots[i].is_some() {
                assert(self@.contains_key(i as int));
                return false;
            }
            i += 1;
        }
        true
    }

    /// Takes the component of `entity` away and returns it.
    pub fn remove(&mut self, entity: Entity) -> (previous: Option<T>)
        ensures
            final(self)@ == old(self)@.remove(entity.id as int),
            previous == old(self).component(entity.id as int),
            final(self).spec_len() == old(self).spec_len(),
    {
        let previous = self.get(entity);
        if entity.id < self.slots.len() {
            self.slots.set(entity.id, None);
        }
        assert(self@ =~= old(self)@.remove(entity.id as int));
        previous
    }
}

} // verus!

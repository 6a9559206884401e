use vstd::prelude::*;
use crate::entity::Entity;

verus! {

/// A sparse map from entities to one kind of component.
///
/// Slots are indexed by the entity's identity; an empty slot means that the
/// entity has no component of this kind.
pub struct ComponentMap<V> {
    slots: Vec<Option<V>>,
}

impl<V> ComponentMap<V> {
    pub closed spec fn view(&self) -> Map<Entity, V> {
        Map::new(
            |e: Entity| e.index < self.slots@.len() && self.slots@[e.index as int] is Some,
            |e: Entity| self.slots@[e.index as int]->Some_0,
        )
    }

    pub fn new() -> (r: ComponentMap<V>)
        ensures
            r@ == Map::<Entity, V>::empty(),
    {
        let r = ComponentMap { slots: Vec::new() };
        assert(r@ =~= Map::<Entity, V>::empty());
        r
    }

    /// Stores `value` as the component of `e`, replacing any earlier one.
    pub fn insert(&mut self, e: Entity, value: V)
        ensures
            final(self)@ == old(self)@.insert(e, value),
    {
        while self.slots.len() <= e.index
            invariant
                self@ == old(self)@,
                forall|i: int| old(self).slots@.len() <= i < self.slots@.len() ==> self.slots@[i] is None,
                old(self).slots@.len() <= self.slots@.len(),
                forall|i: int| 0 <= i < old(self).slots@.len() ==> self.slots@[i] == old(self).slots@[i],
            decreases e.index + 1 - self.slots.len(),
        {
            self.slots.push(None);
            assert(self@ =~= old(self)@);
        }
        self.slots.set(e.index, Some(value));
        assert(self@ =~= old(self)@.insert(e, value));
    }

    /// The component of `e`, or `None` where it has none.
    pub fn get(&self, e: Entity) -> (r: Option<&V>)
        ensures
            r matches Some(v) ==> self@.contains_key(e) && *v == self@[e],
            r is None ==> !self@.contains_key(e),
    {
        if e.index < self.slots.len() {
            match &self.slots[e.index] {
                Some(v) => Some(v),
                None => None,
            }
        } else {
            None
        }
    }

    /// A mutable borrow of the component of `e`, or `None` where it has none.
    pub fn get_mut(&mut self, e: Entity) -> (r: Option<&mut V>)
        ensures
            r matches Some(v) ==> old(self)@.contains_key(e) && *v == old(self)@[e]
                && final(self)@ == old(self)@.insert(e, *final(v)),
            r is None ==> !old(self)@.contains_key(e) && final(self)@ == old(self)@,
    {
        if e.index < self.slots.len() {
            let slot = &mut self.slots[e.index];
            match slot {
                Some(v) => Some(v),
                None => None,
            }
        } else {
            None
        }
    }

    pub fn contains(&self, e: Entity) -> (r: bool)
        ensures
            r == self@.contains_key(e),
    {
        e.index < self.slots.len() && self.slots[e.index].is_some()
    }
}

} // verus!

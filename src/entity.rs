use vstd::prelude::*;

verus! {

/// An opaque identity for one tracked device, issued by [`Entities::create`].
#[derive(Clone, Copy, Debug, PartialEq, Eq, Structural, Hash)]
pub struct Entity {
    pub index: usize,
}

/// The registry of all entities, with the "system device" tag of each.
///
/// Identities are handed out in increasing order and never removed, so the
/// registry is the sequence of tags, one per entity, indexed by identity.
pub struct Entities {
    system: Vec<bool>,
}

impl Entities {
    pub closed spec fn view(&self) -> Seq<bool> {
        self.system@
    }

    /// True when `e` was issued by this registry.
    pub open spec fn has(&self, e: Entity) -> bool {
        e.index < self@.len()
    }

    /// The system tag of `e`; false for an identity the registry never issued.
    pub open spec fn tagged(&self, e: Entity) -> bool {
        self.has(e) && self@[e.index as int]
    }

    /// Every entity of `self` is still known to `later`, and keeps its system tag.
    pub open spec fn kept_in(&self, later: &Entities) -> bool {
        &&& self@.len() <= later@.len()
        &&& forall|i: int| 0 <= i < self@.len() && #[trigger] self@[i] ==> later@[i]
    }

    pub fn new() -> (r: Entities)
        ensures
            r@ == Seq::<bool>::empty(),
    {
        Entities { system: Vec::new() }
    }

    /// Issues a fresh identity, not tagged as a system device.
    pub fn create(&mut self) -> (e: Entity)
        requires
            old(self)@.len() < usize::MAX,
        ensures
            e.index == old(self)@.len(),
            final(self)@ == old(self)@.push(false),
    {
        let index = self.system.len();
        self.system.push(false);
        Entity { index }
    }

    /// Tags `e` as a system device; idempotent, and a no-op for an unknown identity.
    pub fn associate_system(&mut self, e: Entity)
        ensures
            old(self).has(e) ==> final(self)@ == old(self)@.update(e.index as int, true),
            !old(self).has(e) ==> final(self)@ == old(self)@,
    {
        if e.index < self.system.len() {
            self.system.set(e.index, true);
        }
    }

    pub fn is_system(&self, e: Entity) -> (r: bool)
        ensures
            r == self.tagged(e),
    {
        e.index < self.system.len() && self.system[e.index]
    }

    pub fn contains(&self, e: Entity) -> (r: bool)
        ensures
            r == self.has(e),
    {
        e.index < self.system.len()
    }

    pub fn len(&self) -> (r: usize)
        ensures
            r == self@.len(),
    {
        self.system.len()
    }
}

/// Once an entity is tagged as a system device, it stays tagged in every
/// later registry.
pub proof fn lemma_system_tag_persists(before: Entities, after: Entities, e: Entity)
    requires
        before.kept_in(&after),
        before.tagged(e),
    ensures
        after.tagged(e),
{
    assert(before@[e.index as int]);
}

/// Keeping entities and their tags carries over a sequence of steps.
pub proof fn lemma_kept_in_transitive(a: Entities, b: Entities, c: Entities)
    requires
        a.kept_in(&b),
        b.kept_in(&c),
    ensures
        a.kept_in(&c),
{
    assert forall|i: int| 0 <= i < a@.len() && #[trigger] a@[i] implies c@[i] by {
        assert(b@[i]);
    }
}

} // verus!

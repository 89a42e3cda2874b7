use std::collections::HashMap;
use std::sync::Arc;
use vstd::prelude::*;

verus! {

broadcast use vstd::std_specs::hash::group_hash_axioms;

/// The identifier of a reactive entity instance: the 128 bits of its UUID.
pub type EntityId = u128;

/// The behaviours of one kind, at most one for each entity identifier.
pub struct KindRegistry<B> {
    entries: HashMap<EntityId, Arc<B>>,
}

impl<B> View for KindRegistry<B> {
    type V = Map<EntityId, Arc<B>>;

    closed spec fn view(&self) -> Map<EntityId, Arc<B>> {
        self.entries@
    }
}

impl<B> KindRegistry<B> {
    /// An empty registry.
    pub fn new() -> (r: Self)
        ensures
            r@ == Map::<EntityId, Arc<B>>::empty(),
    {
        KindRegistry { entries: HashMap::new() }
    }

    /// Stores `behaviour` under `id`, replacing the entry that was there.
    pub fn insert(&mut self, id: EntityId, behaviour: Arc<B>)
        ensures
            final(self)@ == old(self)@.insert(id, behaviour),
    {
        let _ = self.entries.insert(id, behaviour);
    }

    /// Stores the outcome `built` of a construction for `id`: the behaviour
    /// on success, nothing on failure. Tells whether it stored one.
    pub fn store(&mut self, id: EntityId, built: Option<B>) -> (stored_one: bool)
        ensures
            stored(old(self)@, final(self)@, id, built),
            stored_one == built is Some,
    {
        match built {
            Some(b) => {
                self.insert(id, Arc::new(b));
                true
            },
            None => false,
        }
    }

    /// Removes the entry of `id`, if there is one, and tells whether there was.
    pub fn remove(&mut self, id: EntityId) -> (removed: bool)
        ensures
            final(self)@ == old(self)@.remove(id),
            removed == old(self)@.contains_key(id),
    {
        self.entries.remove(&id).is_some()
    }

    /// Whether an entry is stored under `id`.
    pub fn contains(&self, id: EntityId) -> (r: bool)
        ensures
            r == self@.contains_key(id),
    {
        self.entries.contains_key(&id)
    }

    /// The behaviour stored under `id`, if any.
    pub fn get(&self, id: EntityId) -> (r: Option<&Arc<B>>)
        ensures
            match r {
                Some(b) => self@.contains_key(id) && *b == self@[id],
                None => !self@.contains_key(id),
            },
    {
        self.entries.get(&id)
    }

    /// The number of entries.
    pub fn len(&self) -> (n: usize)
        ensures
            n == self@.len(),
    {
        self.entries.len()
    }
}

/// `after` is `before` once the outcome `built` of a construction for `id`
/// was stored: unchanged on a failure, else one entry under `id` holding the
/// new behaviour, replacing any earlier one.
pub open spec fn stored<B>(
    before: Map<EntityId, Arc<B>>,
    after: Map<EntityId, Arc<B>>,
    id: EntityId,
    built: Option<B>,
) -> bool {
    match built {
        None => after == before,
        Some(b) => after == before.insert(id, after[id]) && after[id] == b,
    }
}

/// A failed construction leaves the registry exactly as it was: in
/// particular it adds no entry under `id`.
pub proof fn lemma_failed_construction_adds_nothing<B>(
    before: Map<EntityId, Arc<B>>,
    after: Map<EntityId, Arc<B>>,
    id: EntityId,
)
    requires
        stored(before, after, id, None),
    ensures
        after == before,
{
}

/// A successful construction leaves exactly one entry under `id`, holding
/// the new behaviour, and every other entry as it was.
pub proof fn lemma_successful_construction_adds_one<B>(
    before: Map<EntityId, Arc<B>>,
    after: Map<EntityId, Arc<B>>,
    id: EntityId,
    b: B,
)
    requires
        stored(before, after, id, Some(b)),
    ensures
        after.contains_key(id),
        after[id] == b,
        after.remove(id) == before.remove(id),
{
    assert(after.remove(id) =~= before.remove(id));
}

/// Removing an identifier that was never stored leaves the map as it was,
/// and the identifier is still not contained (`remove` then reports false).
pub proof fn lemma_remove_absent_is_noop<B>(r: Map<EntityId, Arc<B>>, id: EntityId)
    requires
        !r.contains_key(id),
    ensures
        r.remove(id) == r,
        !r.remove(id).contains_key(id),
{
    assert(r.remove(id) =~= r);
}

/// Two inserts under one identifier leave one entry for it, holding the
/// second behaviour: the last write wins and the other entries are kept.
pub proof fn lemma_insert_twice_last_wins<B>(
    r: Map<EntityId, Arc<B>>,
    id: EntityId,
    x: Arc<B>,
    y: Arc<B>,
)
    ensures
        r.insert(id, x).insert(id, y) == r.insert(id, y),
        r.insert(id, x).insert(id, y)[id] == y,
        r.insert(id, x).insert(id, y).dom().filter(|k: EntityId| k == id) == set![id],
{
    assert(r.insert(id, x).insert(id, y) =~= r.insert(id, y));
    assert(r.insert(id, x).insert(id, y).dom().filter(|k: EntityId| k == id) =~= set![id]);
}

} // verus!

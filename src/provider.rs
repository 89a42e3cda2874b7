use std::sync::Arc;
use vstd::prelude::*;
use crate::kind::{kind_of_tag, BehaviourKind};
use crate::registry::{stored, EntityId, KindRegistry};

verus! {

/// What this library reads of a reactive entity instance: its identifier
/// and its type tag.
pub struct EntityInstance {
    pub id: EntityId,
    pub type_tag: String,
}

impl EntityInstance {
    pub fn new(id: EntityId, type_tag: String) -> (e: Self)
        ensures
            e.id == id,
            e.type_tag@ == type_tag@,
    {
        EntityInstance { id, type_tag }
    }
}

/// The HTTP behaviours, one per entity identifier.
pub struct HttpStorage<H>(pub KindRegistry<H>);

/// The JSON-RPC behaviours, one per entity identifier.
pub struct JsonRpcStorage<J>(pub KindRegistry<J>);

/// An empty store of HTTP behaviours.
pub fn create_http_storage<H>() -> (s: HttpStorage<H>)
    ensures
        s.0@ == Map::<EntityId, Arc<H>>::empty(),
{
    HttpStorage(KindRegistry::new())
}

/// An empty store of JSON-RPC behaviours.
pub fn create_json_rpc_storage<J>() -> (s: JsonRpcStorage<J>)
    ensures
        s.0@ == Map::<EntityId, Arc<J>>::empty(),
{
    JsonRpcStorage(KindRegistry::new())
}

/// Attaching and detaching HTTP and JSON-RPC behaviours, described over
/// the map of each kind.
pub trait HttpEntityBehaviourProvider<H, J> {
    /// The HTTP behaviours, by entity identifier.
    spec fn http_entries(&self) -> Map<EntityId, Arc<H>>;

    /// The JSON-RPC behaviours, by entity identifier.
    spec fn json_rpc_entries(&self) -> Map<EntityId, Arc<J>>;

    /// Builds an HTTP behaviour for `entity` and stores it under the
    /// entity's identifier if the construction succeeded.
    fn create_http<F>(&mut self, entity: &EntityInstance, make_http: F) -> (attached: bool)
        where
            F: Fn(&EntityInstance) -> Option<H>,
        requires
            forall|e: &EntityInstance| make_http.requires((e,)),
        ensures
            exists|built: Option<H>|
                {
                    &&& #[trigger] make_http.ensures((entity,), built)
                    &&& stored(old(self).http_entries(), final(self).http_entries(), entity.id, built)
                    &&& attached == built is Some
                },
            final(self).json_rpc_entries() == old(self).json_rpc_entries(),
    ;

    /// Builds a JSON-RPC behaviour for `entity` and stores it under the
    /// entity's identifier if the construction succeeded.
    fn create_json_rpc<F>(&mut self, entity: &EntityInstance, make_json_rpc: F) -> (attached: bool)
        where
            F: Fn(&EntityInstance) -> Option<J>,
        requires
            forall|e: &EntityInstance| make_json_rpc.requires((e,)),
        ensures
            exists|built: Option<J>|
                {
                    &&& #[trigger] make_json_rpc.ensures((entity,), built)
                    &&& stored(
                        old(self).json_rpc_entries(),
                        final(self).json_rpc_entries(),
                        entity.id,
                        built,
                    )
                    &&& attached == built is Some
                },
            final(self).http_entries() == old(self).http_entries(),
    ;

    /// Removes the HTTP behaviour of `entity`, if any; tells whether there was one.
    fn remove_http(&mut self, entity: &EntityInstance) -> (removed: bool)
        ensures
            final(self).http_entries() == old(self).http_entries().remove(entity.id),
            final(self).json_rpc_entries() == old(self).json_rpc_entries(),
            removed == old(self).http_entries().contains_key(entity.id),
    ;

    /// Removes the JSON-RPC behaviour of `entity`, if any; tells whether there was one.
    fn remove_json_rpc(&mut self, entity: &EntityInstance) -> (removed: bool)
        ensures
            final(self).json_rpc_entries() == old(self).json_rpc_entries().remove(entity.id),
            final(self).http_entries() == old(self).http_entries(),
            removed == old(self).json_rpc_entries().contains_key(entity.id),
    ;

    /// Removes the behaviours of every kind stored under `id`. Tells, for
    /// HTTP and then JSON-RPC, whether one was removed.
    fn remove_by_id(&mut self, id: EntityId) -> (removed: (bool, bool))
        ensures
            final(self).http_entries() == old(self).http_entries().remove(id),
            final(self).json_rpc_entries() == old(self).json_rpc_entries().remove(id),
            removed.0 == old(self).http_entries().contains_key(id),
            removed.1 == old(self).json_rpc_entries().contains_key(id),
    ;
}

/// The provider: one registry per behaviour kind.
pub struct HttpEntityBehaviourProviderImpl<H, J> {
    http: HttpStorage<H>,
    jsonrpc: JsonRpcStorage<J>,
}

impl<H, J> HttpEntityBehaviourProviderImpl<H, J> {
    /// A provider with no behaviour attached.
    pub fn new() -> (r: Self)
        ensures
            r.http_entries() == Map::<EntityId, Arc<H>>::empty(),
            r.json_rpc_entries() == Map::<EntityId, Arc<J>>::empty(),
    {
        HttpEntityBehaviourProviderImpl {
            http: create_http_storage(),
            jsonrpc: create_json_rpc_storage(),
        }
    }

    /// Whether an HTTP behaviour is stored under `id`.
    pub fn has_http(&self, id: EntityId) -> (r: bool)
        ensures
            r == self.http_entries().contains_key(id),
    {
        self.http.0.contains(id)
    }

    /// Whether a JSON-RPC behaviour is stored under `id`.
    pub fn has_json_rpc(&self, id: EntityId) -> (r: bool)
        ensures
            r == self.json_rpc_entries().contains_key(id),
    {
        self.jsonrpc.0.contains(id)
    }

    /// The HTTP behaviour stored under `id`, if any.
    pub fn http_behaviour(&self, id: EntityId) -> (r: Option<&Arc<H>>)
        ensures
            match r {
                Some(b) => self.http_entries().contains_key(id) && *b == self.http_entries()[id],
                None => !self.http_entries().contains_key(id),
            },
    {
        self.http.0.get(id)
    }

    /// The JSON-RPC behaviour stored under `id`, if any.
    pub fn json_rpc_behaviour(&self, id: EntityId) -> (r: Option<&Arc<J>>)
        ensures
            match r {
                Some(b) => self.json_rpc_entries().contains_key(id) && *b
                    == self.json_rpc_entries()[id],
                None => !self.json_rpc_entries().contains_key(id),
            },
    {
        self.jsonrpc.0.get(id)
    }

    /// Attaches to `entity` a behaviour of the kind its type tag names,
    /// built by that kind's factory; the other factory is not called. An
    /// entity whose tag names no kind is left alone. Returns the kind
    /// attached, if any.
    pub fn add_behaviours<FH, FJ>(
        &mut self,
        entity: &EntityInstance,
        make_http: FH,
        make_json_rpc: FJ,
    ) -> (attached: Option<BehaviourKind>)
        where
            FH: Fn(&EntityInstance) -> Option<H>,
            FJ: Fn(&EntityInstance) -> Option<J>,
        requires
            forall|e: &EntityInstance| make_http.requires((e,)),
            forall|e: &EntityInstance| make_json_rpc.requires((e,)),
        ensures
            match kind_of_tag(entity.type_tag@) {
                None => {
                    &&& attached is None
                    &&& final(self).http_entries() == old(self).http_entries()
                    &&& final(self).json_rpc_entries() == old(self).json_rpc_entries()
                },
                Some(BehaviourKind::Http) => {
                    &&& exists|built: Option<H>|
                        {
                            &&& #[trigger] make_http.ensures((entity,), built)
                            &&& stored(
                                old(self).http_entries(),
                                final(self).http_entries(),
                                entity.id,
                                built,
                            )
                            &&& attached == (if built is Some {
                                Some(BehaviourKind::Http)
                            } else {
                                None
                            })
                        }
                    &&& final(self).json_rpc_entries() == old(self).json_rpc_entries()
                },
                Some(BehaviourKind::JsonRpc) => {
                    &&& exists|built: Option<J>|
                        {
                            &&& #[trigger] make_json_rpc.ensures((entity,), built)
                            &&& stored(
                                old(self).json_rpc_entries(),
                                final(self).json_rpc_entries(),
                                entity.id,
                                built,
                            )
                            &&& attached == (if built is Some {
                                Some(BehaviourKind::JsonRpc)
                            } else {
                                None
                            })
                        }
                    &&& final(self).http_entries() == old(self).http_entries()
                },
            },
    {
        match BehaviourKind::of_tag(entity.type_tag.as_str()) {
            Some(BehaviourKind::Http) => {
                if self.create_http(entity, make_http) {
                    Some(BehaviourKind::Http)
                } else {
                    None
                }
            },
            Some(BehaviourKind::JsonRpc) => {
                if self.create_json_rpc(entity, make_json_rpc) {
                    Some(BehaviourKind::JsonRpc)
                } else {
                    None
                }
            },
            None => None,
        }
    }

    /// Removes from the registry of the kind that `entity`'s type tag names
    /// the entry of its identifier, if any; the other registry is untouched.
    /// Returns the kind whose entry was removed.
    pub fn remove_behaviours(&mut self, entity: &EntityInstance) -> (removed: Option<
        BehaviourKind,
    >)
        ensures
            match kind_of_tag(entity.type_tag@) {
                None => {
                    &&& removed is None
                    &&& final(self).http_entries() == old(self).http_entries()
                    &&& final(self).json_rpc_entries() == old(self).json_rpc_entries()
                },
                Some(BehaviourKind::Http) => {
                    &&& removed == (if old(self).http_entries().contains_key(entity.id) {
                        Some(BehaviourKind::Http)
                    } else {
                        None
                    })
                    &&& final(self).http_entries() == old(self).http_entries().remove(entity.id)
                    &&& final(self).json_rpc_entries() == old(self).json_rpc_entries()
                },
                Some(BehaviourKind::JsonRpc) => {
                    &&& removed == (if old(self).json_rpc_entries().contains_key(entity.id) {
                        Some(BehaviourKind::JsonRpc)
                    } else {
                        None
                    })
                    &&& final(self).json_rpc_entries() == old(self).json_rpc_entries().remove(
                        entity.id,
                    )
                    &&& final(self).http_entries() == old(self).http_entries()
                },
            },
    {
        match BehaviourKind::of_tag(entity.type_tag.as_str()) {
            Some(BehaviourKind::Http) => {
                if self.remove_http(entity) {
                    Some(BehaviourKind::Http)
                } else {
                    None
                }
            },
            Some(BehaviourKind::JsonRpc) => {
                if self.remove_json_rpc(entity) {
                    Some(BehaviourKind::JsonRpc)
                } else {
                    None
                }
            },
            None => None,
        }
    }

    /// Removes the behaviours of every kind stored under `id`; used when
    /// the entity is gone and only its identifier is left. Tells, for HTTP
    /// and then JSON-RPC, whether one was removed.
    pub fn remove_behaviours_by_id(&mut self, id: EntityId) -> (removed: (bool, bool))
        ensures
            final(self).http_entries() == old(self).http_entries().remove(id),
            final(self).json_rpc_entries() == old(self).json_rpc_entries().remove(id),
            removed.0 == old(self).http_entries().contains_key(id),
            removed.1 == old(self).json_rpc_entries().contains_key(id),
    {
        self.remove_by_id(id)
    }
}

impl<H, J> HttpEntityBehaviourProvider<H, J> for HttpEntityBehaviourProviderImpl<H, J> {
    closed spec fn http_entries(&self) -> Map<EntityId, Arc<H>> {
        self.http.0@
    }

    closed spec fn json_rpc_entries(&self) -> Map<EntityId, Arc<J>> {
        self.jsonrpc.0@
    }

    fn create_http<F>(&mut self, entity: &EntityInstance, make_http: F) -> (attached: bool)
        where
            F: Fn(&EntityInstance) -> Option<H>,
    {
        let built = make_http(entity);
        self.http.0.store(entity.id, built)
    }

    fn create_json_rpc<F>(&mut self, entity: &EntityInstance, make_json_rpc: F) -> (attached: bool)
        where
            F: Fn(&EntityInstance) -> Option<J>,
    {
        let built = make_json_rpc(entity);
        self.jsonrpc.0.store(entity.id, built)
    }

    fn remove_http(&mut self, entity: &EntityInstance) -> (removed: bool) {
        self.http.0.remove(entity.id)
    }

    fn remove_json_rpc(&mut self, entity: &EntityInstance) -> (removed: bool) {
        self.jsonrpc.0.remove(entity.id)
    }

    fn remove_by_id(&mut self, id: EntityId) -> (removed: (bool, bool)) {
        let removed_http = self.http.0.remove(id);
        let removed_json_rpc = self.jsonrpc.0.remove(id);
        (removed_http, removed_json_rpc)
    }
}

/// After successful attaches of both kinds for one identifier, removing
/// that identifier from every registry leaves it in none, and removing it
/// once more changes nothing.
pub proof fn lemma_remove_by_id_clears_both_kinds<H, J>(
    http_before: Map<EntityId, Arc<H>>,
    http: Map<EntityId, Arc<H>>,
    jsonrpc_before: Map<EntityId, Arc<J>>,
    jsonrpc: Map<EntityId, Arc<J>>,
    id: EntityId,
    h: H,
    j: J,
)
    requires
        stored(http_before, http, id, Some(h)),
        stored(jsonrpc_before, jsonrpc, id, Some(j)),
    ensures
        http.contains_key(id),
        jsonrpc.contains_key(id),
        !http.remove(id).contains_key(id),
        !jsonrpc.remove(id).contains_key(id),
        http.remove(id).remove(id) == http.remove(id),
        jsonrpc.remove(id).remove(id) == jsonrpc.remove(id),
{
    assert(http.remove(id).remove(id) =~= http.remove(id));
    assert(jsonrpc.remove(id).remove(id) =~= jsonrpc.remove(id));
}

} // verus!

use std::sync::Arc;
use vstd::prelude::*;
use vstd::rwlock::{RwLock, RwLockPredicate};
use crate::kind::{kind_of_tag, BehaviourKind};
use crate::provider::EntityInstance;
use crate::registry::{EntityId, KindRegistry};

verus! {

/// The lock of a kind registry admits every registry: a map has at most one
/// entry per identifier by construction.
pub struct AnyRegistry;

impl<B> RwLockPredicate<KindRegistry<B>> for AnyRegistry {
    open spec fn inv(self, v: KindRegistry<B>) -> bool {
        true
    }
}

/// A kind registry behind a read/write lock, shared by the threads that
/// attach and detach behaviours. Readers run together; a writer holds the
/// map alone for one step of `KindRegistry`. Other threads may change the
/// map between two calls, so what a call reports holds at the moment of
/// that call only, and nothing is promised of the map afterwards.
pub struct SharedRegistry<B> {
    lock: RwLock<KindRegistry<B>, AnyRegistry>,
}

impl<B> SharedRegistry<B> {
    pub fn new() -> (r: Self) {
        SharedRegistry { lock: RwLock::new(KindRegistry::new(), Ghost(AnyRegistry)) }
    }

    /// Stores `behaviour` under `id`, replacing the entry that was there.
    pub fn insert(&self, id: EntityId, behaviour: Arc<B>) {
        let (mut registry, handle) = self.lock.acquire_write();
        registry.insert(id, behaviour);
        handle.release_write(registry);
    }

    /// Stores the outcome `built` of a construction for `id`, under the
    /// write lock; tells whether a behaviour was stored.
    pub fn store(&self, id: EntityId, built: Option<B>) -> (stored_one: bool)
        ensures
            stored_one == built is Some,
    {
        let (mut registry, handle) = self.lock.acquire_write();
        let stored_one = registry.store(id, built);
        handle.release_write(registry);
        stored_one
    }

    /// Removes the entry of `id`, if there is one; tells whether there was.
    pub fn remove(&self, id: EntityId) -> (removed: bool) {
        let (mut registry, handle) = self.lock.acquire_write();
        let removed = registry.remove(id);
        handle.release_write(registry);
        removed
    }

    /// Whether an entry is stored under `id` at the moment of the read.
    pub fn contains(&self, id: EntityId) -> (r: bool) {
        let handle = self.lock.acquire_read();
        let r = handle.borrow().contains(id);
        handle.release_read();
        r
    }

    /// The number of entries at the moment of the read.
    pub fn len(&self) -> (n: usize) {
        let handle = self.lock.acquire_read();
        let n = handle.borrow().len();
        handle.release_read();
        n
    }
}

/// HTTP and JSON-RPC behaviours shared by several threads: one locked
/// registry per kind. The two locks are never held together, so work on one
/// kind never waits for the other, and a removal by identifier clears one
/// kind and then the other.
pub struct SharedBehaviourProvider<H, J> {
    http: SharedRegistry<H>,
    jsonrpc: SharedRegistry<J>,
}

impl<H, J> SharedBehaviourProvider<H, J> {
    pub fn new() -> (r: Self) {
        SharedBehaviourProvider { http: SharedRegistry::new(), jsonrpc: SharedRegistry::new() }
    }

    /// Whether an HTTP behaviour is stored under `id` at the moment of the read.
    pub fn has_http(&self, id: EntityId) -> (r: bool) {
        self.http.contains(id)
    }

    /// Whether a JSON-RPC behaviour is stored under `id` at the moment of the read.
    pub fn has_json_rpc(&self, id: EntityId) -> (r: bool) {
        self.jsonrpc.contains(id)
    }

    /// Attaches to `entity` a behaviour of the kind its type tag names,
    /// calling that kind's factory only, outside any lock. Returns the kind
    /// attached, if any.
    pub fn attach<FH, FJ>(
        &self,
        entity: &EntityInstance,
        make_http: FH,
        make_json_rpc: FJ,
    ) -> (attached: Option<BehaviourKind>)
        where
            FH: Fn(&EntityInstance) -> Option<H>,
            FJ: Fn(&EntityInstance) -> Option<J>,
        requires
            forall|e: &EntityInstance| make_http.requires((e,)),
            forall|e: &EntityInstance| make_json_rpc.requires((e,)),
        ensures
            match kind_of_tag(entity.type_tag@) {
                None => attached is None,
                Some(BehaviourKind::Http) => exists|built: Option<H>| #[trigger]
                    make_http.ensures((entity,), built) && attached == (if built is Some {
                        Some(BehaviourKind::Http)
                    } else {
                        None
                    }),
                Some(BehaviourKind::JsonRpc) => exists|built: Option<J>| #[trigger]
                    make_json_rpc.ensures((entity,), built) && attached == (if built is Some {
                        Some(BehaviourKind::JsonRpc)
                    } else {
                        None
                    }),
            },
    {
        match BehaviourKind::of_tag(entity.type_tag.as_str()) {
            Some(BehaviourKind::Http) => {
                let built = make_http(entity);
                if self.http.store(entity.id, built) {
                    Some(BehaviourKind::Http)
                } else {
                    None
                }
            },
            Some(BehaviourKind::JsonRpc) => {
                let built = make_json_rpc(entity);
                if self.jsonrpc.store(entity.id, built) {
                    Some(BehaviourKind::JsonRpc)
                } else {
                    None
                }
            },
            None => None,
        }
    }

    /// Removes the behaviour of the kind that `entity`'s type tag names, if
    /// any. Returns the kind whose entry was removed.
    pub fn detach(&self, entity: &EntityInstance) -> (removed: Option<BehaviourKind>)
        ensures
            kind_of_tag(entity.type_tag@) is None ==> removed is None,
            removed is Some ==> removed == kind_of_tag(entity.type_tag@),
    {
        match BehaviourKind::of_tag(entity.type_tag.as_str()) {
            Some(BehaviourKind::Http) => {
                if self.http.remove(entity.id) {
                    Some(BehaviourKind::Http)
                } else {
                    None
                }
            },
            Some(BehaviourKind::JsonRpc) => {
                if self.jsonrpc.remove(entity.id) {
                    Some(BehaviourKind::JsonRpc)
                } else {
                    None
                }
            },
            None => None,
        }
    }

    /// Removes the behaviours of every kind stored under `id`, one kind
    /// after the other. Tells, for HTTP and then JSON-RPC, whether one was
    /// removed.
    pub fn detach_by_id(&self, id: EntityId) -> (removed: (bool, bool)) {
        let removed_http = self.http.remove(id);
        let removed_json_rpc = self.jsonrpc.remove(id);
        (removed_http, removed_json_rpc)
    }
}

} // verus!

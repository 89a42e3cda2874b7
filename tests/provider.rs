use behaviour_registry::kind::{BehaviourKind, HTTP, JSONRPC};
use behaviour_registry::provider::{
    create_http_storage, create_json_rpc_storage, EntityInstance, HttpEntityBehaviourProvider,
    HttpEntityBehaviourProviderImpl,
};

fn entity(id: u128, tag: &str) -> EntityInstance {
    EntityInstance::new(id, tag.to_string())
}

#[test]
fn attach_http_entity_then_detach() {
    let mut p: HttpEntityBehaviourProviderImpl<String, u32> = HttpEntityBehaviourProviderImpl::new();
    let id = uuid::Uuid::new_v4().as_u128();
    let e1 = entity(id, HTTP);
    let r = p.add_behaviours(&e1, |e: &EntityInstance| Some(format!("poll {}", e.id)), |_e: &EntityInstance| Some(9));
    assert_eq!(r, Some(BehaviourKind::Http));
    assert!(p.has_http(id));
    assert!(!p.has_json_rpc(id));
    assert_eq!(p.http_behaviour(id).unwrap().as_str(), format!("poll {}", id));
    assert_eq!(p.remove_behaviours(&e1), Some(BehaviourKind::Http));
    assert!(!p.has_http(id));
    assert!(!p.has_json_rpc(id));
}

#[test]
fn attach_unknown_entity_changes_nothing() {
    let mut p: HttpEntityBehaviourProviderImpl<u32, u32> = HttpEntityBehaviourProviderImpl::new();
    let other = entity(7, HTTP);
    assert!(p.create_http(&other, |_e: &EntityInstance| Some(70)));
    let e2 = entity(2, "unknown");
    let r = p.add_behaviours(&e2, |_e: &EntityInstance| panic!("no factory is called"), |_e: &EntityInstance| panic!("no factory is called"));
    assert_eq!(r, None);
    assert!(!p.has_http(2));
    assert!(!p.has_json_rpc(2));
    assert!(p.has_http(7));
    assert_eq!(p.remove_behaviours(&e2), None);
    assert!(p.has_http(7));
}

#[test]
fn failed_construction_attaches_nothing() {
    let mut p: HttpEntityBehaviourProviderImpl<u32, u32> = HttpEntityBehaviourProviderImpl::new();
    let e = entity(3, JSONRPC);
    let r = p.add_behaviours(&e, |_e: &EntityInstance| Some(1), |_e: &EntityInstance| None);
    assert_eq!(r, None);
    assert!(!p.has_http(3));
    assert!(!p.has_json_rpc(3));
    assert!(!p.create_http(&e, |_e: &EntityInstance| None));
    assert!(!p.has_http(3));
}

#[test]
fn successful_construction_attaches_one_entry_of_its_kind() {
    let mut p: HttpEntityBehaviourProviderImpl<u32, u32> = HttpEntityBehaviourProviderImpl::new();
    let e = entity(4, JSONRPC);
    let r = p.add_behaviours(&e, |_e: &EntityInstance| Some(1), |_e: &EntityInstance| Some(2));
    assert_eq!(r, Some(BehaviourKind::JsonRpc));
    assert_eq!(**p.json_rpc_behaviour(4).unwrap(), 2);
    assert!(p.http_behaviour(4).is_none());
}

#[test]
fn reattach_replaces_the_behaviour() {
    let mut p: HttpEntityBehaviourProviderImpl<u32, u32> = HttpEntityBehaviourProviderImpl::new();
    let e = entity(5, HTTP);
    p.add_behaviours(&e, |_e: &EntityInstance| Some(1), |_e: &EntityInstance| None);
    p.add_behaviours(&e, |_e: &EntityInstance| Some(2), |_e: &EntityInstance| None);
    assert_eq!(**p.http_behaviour(5).unwrap(), 2);
    assert!(p.remove_http(&e));
    assert!(!p.has_http(5));
}

#[test]
fn remove_by_id_clears_every_kind_then_is_noop() {
    let mut p: HttpEntityBehaviourProviderImpl<u32, u32> = HttpEntityBehaviourProviderImpl::new();
    let e = entity(6, "anything");
    assert!(p.create_http(&e, |_e: &EntityInstance| Some(1)));
    assert!(p.create_json_rpc(&e, |_e: &EntityInstance| Some(2)));
    assert!(p.create_http(&entity(8, HTTP), |_e: &EntityInstance| Some(3)));
    assert_eq!(p.remove_behaviours_by_id(6), (true, true));
    assert!(!p.has_http(6));
    assert!(!p.has_json_rpc(6));
    assert!(p.has_http(8));
    assert_eq!(p.remove_by_id(6), (false, false));
    assert_eq!(p.remove_by_id(8), (true, false));
    assert!(!p.remove_http(&e));
    assert!(!p.remove_json_rpc(&e));
}

#[test]
fn remove_behaviours_touches_only_the_tagged_kind() {
    let mut p: HttpEntityBehaviourProviderImpl<u32, u32> = HttpEntityBehaviourProviderImpl::new();
    let e = entity(9, "anything");
    p.create_http(&e, |_e: &EntityInstance| Some(1));
    p.create_json_rpc(&e, |_e: &EntityInstance| Some(2));
    assert_eq!(p.remove_behaviours(&entity(9, JSONRPC)), Some(BehaviourKind::JsonRpc));
    assert!(p.has_http(9));
    assert!(!p.has_json_rpc(9));
    assert_eq!(p.remove_behaviours(&entity(9, JSONRPC)), None);
}

#[test]
fn storages_start_empty() {
    assert_eq!(create_http_storage::<u8>().0.len(), 0);
    assert_eq!(create_json_rpc_storage::<u8>().0.len(), 0);
}

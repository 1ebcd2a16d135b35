use bastet::{redirect_reply, MappingError, RedirectMapping, ResolveError, Status, Store};

fn mapping(ip: &str, key: &str, host: &str, port: u16) -> RedirectMapping {
    RedirectMapping {
        public_ip: ip.to_string(),
        public_key: key.to_string(),
        internal_host: host.to_string(),
        internal_port: port,
        created_at: 100,
    }
}

fn store_with_user(key: &str) -> Store {
    let mut store = Store::new();
    store.add_user(key.to_string(), 1);
    store
}

#[test]
fn stored_ipv4_mapping_resolves() {
    let mut store = store_with_user("k1");
    assert_eq!(store.add_mapping(mapping("203.0.113.7", "k1", "10.0.0.2", 8080)), Ok(()));
    let r = store.resolve_redirect(&"203.0.113.7".to_string());
    let target = r.clone().unwrap();
    assert_eq!(target.ip, "10.0.0.2");
    assert_eq!(target.port, 8080);
    let reply = redirect_reply(&r);
    assert_eq!(reply.status, Status::TemporaryRedirect);
}

#[test]
fn stored_ipv6_mapping_resolves() {
    let mut store = store_with_user("k1");
    assert_eq!(store.add_mapping(mapping("203.0.113.7", "k1", "10.0.0.2", 80)), Ok(()));
    assert_eq!(store.add_mapping(mapping("2001:db8::1", "k1", "hub.internal", 65535)), Ok(()));
    let target = store.resolve_redirect(&"2001:db8::1".to_string()).unwrap();
    assert_eq!(target.ip, "hub.internal");
    assert_eq!(target.port, 65535);
    let first = store.resolve_redirect(&"203.0.113.7".to_string()).unwrap();
    assert_eq!(first.ip, "10.0.0.2");
    assert_eq!(first.port, 80);
}

#[test]
fn unmapped_ip_is_not_found() {
    let mut store = store_with_user("k1");
    let empty = store.resolve_redirect(&"198.51.100.1".to_string());
    assert!(matches!(empty, Err(ResolveError::NotFound)));
    assert_eq!(store.add_mapping(mapping("203.0.113.7", "k1", "10.0.0.2", 80)), Ok(()));
    let r = store.resolve_redirect(&"198.51.100.1".to_string());
    assert!(matches!(r, Err(ResolveError::NotFound)));
    let reply = redirect_reply(&r);
    assert_eq!(reply.status, Status::NotFound);
    assert_ne!(reply.status, Status::InternalError);
    assert_eq!(reply.body, "No mapping found for this address");
}

#[test]
fn duplicate_ip_is_refused() {
    let mut store = store_with_user("k1");
    assert_eq!(store.add_mapping(mapping("203.0.113.7", "k1", "10.0.0.2", 80)), Ok(()));
    assert_eq!(
        store.add_mapping(mapping("203.0.113.7", "k1", "10.0.0.3", 81)),
        Err(MappingError::DuplicateIp)
    );
    let target = store.resolve_redirect(&"203.0.113.7".to_string()).unwrap();
    assert_eq!(target.ip, "10.0.0.2");
    assert_eq!(target.port, 80);
}

#[test]
fn mapping_needs_registered_key() {
    let mut store = store_with_user("k1");
    assert_eq!(
        store.add_mapping(mapping("203.0.113.7", "unknown", "10.0.0.2", 80)),
        Err(MappingError::UnknownKey)
    );
    assert!(store.resolve_redirect(&"203.0.113.7".to_string()).is_err());
}

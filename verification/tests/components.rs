use key_value_provider::assoc::AssocMap;
use key_value_provider::config::ConfigHolder;
use key_value_provider::registry::LinkDirection;
use key_value_provider::registry::LinkRegistry;
use key_value_provider::store::KvStore;

#[test]
fn assoc_insert_and_get() {
    let mut m: AssocMap<String> = AssocMap::new();
    assert_eq!(m.get("a"), None);
    assert!(!m.contains_key("a"));
    m.insert("a".to_string(), "1".to_string());
    assert_eq!(m.get("a"), Some(&"1".to_string()));
    assert!(m.contains_key("a"));
    assert_eq!(m.len(), 1);
}

#[test]
fn assoc_insert_replaces_value() {
    let mut m: AssocMap<String> = AssocMap::new();
    m.insert("a".to_string(), "1".to_string());
    m.insert("a".to_string(), "2".to_string());
    assert_eq!(m.get("a"), Some(&"2".to_string()));
    assert_eq!(m.len(), 1);
}

#[test]
fn assoc_remove_is_noop_on_absent_key() {
    let mut m: AssocMap<String> = AssocMap::new();
    m.insert("a".to_string(), "1".to_string());
    m.remove("missing");
    assert_eq!(m.len(), 1);
    m.remove("a");
    assert_eq!(m.get("a"), None);
    assert_eq!(m.len(), 0);
}

#[test]
fn assoc_clear_drops_everything() {
    let mut m: AssocMap<String> = AssocMap::new();
    m.insert("a".to_string(), "1".to_string());
    m.insert("b".to_string(), "2".to_string());
    m.clear();
    assert_eq!(m.len(), 0);
    assert_eq!(m.get("a"), None);
}

#[test]
fn assoc_duplicate_is_independent() {
    let mut m: AssocMap<String> = AssocMap::new();
    m.insert("a".to_string(), "1".to_string());
    let copy = m.duplicate();
    m.insert("a".to_string(), "changed".to_string());
    m.insert("b".to_string(), "2".to_string());
    assert_eq!(copy.get("a"), Some(&"1".to_string()));
    assert_eq!(copy.get("b"), None);
    assert_eq!(copy.len(), 1);
}

#[test]
fn store_set_then_get() {
    let mut s = KvStore::new();
    assert_eq!(s.set("k".to_string(), "v".to_string()), Ok(()));
    assert_eq!(s.get("k"), Ok(Some("v".to_string())));
    assert_eq!(s.len(), 1);
}

#[test]
fn store_absent_key_is_ok_none() {
    let s = KvStore::new();
    assert_eq!(s.get("k"), Ok(None));
}

#[test]
fn store_overwrite() {
    let mut s = KvStore::new();
    assert_eq!(s.set("k".to_string(), "v1".to_string()), Ok(()));
    assert_eq!(s.set("k".to_string(), "v2".to_string()), Ok(()));
    assert_eq!(s.get("k"), Ok(Some("v2".to_string())));
    assert_eq!(s.len(), 1);
}

#[test]
fn config_holder_applies_wholesale() {
    let mut h = ConfigHolder::new();
    assert_eq!(h.current().len(), 0);
    let mut cfg1: AssocMap<String> = AssocMap::new();
    cfg1.insert("a".to_string(), "1".to_string());
    h.apply(cfg1);
    let mut cfg2: AssocMap<String> = AssocMap::new();
    cfg2.insert("b".to_string(), "2".to_string());
    h.apply(cfg2);
    let current = h.current();
    assert_eq!(current.get("a"), None);
    assert_eq!(current.get("b"), Some(&"2".to_string()));
    assert_eq!(current.len(), 1);
}

#[test]
fn config_current_is_a_clone() {
    let mut h = ConfigHolder::new();
    let mut cfg: AssocMap<String> = AssocMap::new();
    cfg.insert("a".to_string(), "1".to_string());
    h.apply(cfg);
    let mut snapshot = h.current();
    snapshot.insert("a".to_string(), "changed".to_string());
    assert_eq!(h.current().get("a"), Some(&"1".to_string()));
}

#[test]
fn registry_register_lookup_unregister() {
    let mut r = LinkRegistry::new();
    let mut cfg: AssocMap<String> = AssocMap::new();
    cfg.insert("url".to_string(), "example".to_string());
    r.register_as_target("caller".to_string(), cfg);
    assert!(r.lookup("caller", LinkDirection::Source).is_none());
    let found = r.lookup("caller", LinkDirection::Target).expect("registered");
    assert_eq!(found.get("url"), Some(&"example".to_string()));
    r.unregister_as_target("caller");
    assert!(r.lookup("caller", LinkDirection::Target).is_none());
}

#[test]
fn registry_unregister_absent_is_noop() {
    let mut r = LinkRegistry::new();
    r.unregister_as_source("ghost");
    r.unregister_as_target("ghost");
    assert!(r.lookup("ghost", LinkDirection::Source).is_none());
    assert!(r.lookup("ghost", LinkDirection::Target).is_none());
}

#[test]
fn registry_clear_empties_both_directions() {
    let mut r = LinkRegistry::new();
    r.register_as_source("a".to_string(), AssocMap::new());
    r.register_as_target("b".to_string(), AssocMap::new());
    r.clear();
    assert!(r.lookup("a", LinkDirection::Source).is_none());
    assert!(r.lookup("b", LinkDirection::Target).is_none());
}

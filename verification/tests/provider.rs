use key_value_provider::assoc::AssocMap;
use key_value_provider::config::ConfigMap;
use key_value_provider::provider::KeyValueStoreProvider;
use key_value_provider::provider::LifecycleState;
use key_value_provider::provider::ProviderError;
use key_value_provider::registry::LinkDirection;

fn empty_config() -> ConfigMap {
    AssocMap::new()
}

fn running_provider() -> KeyValueStoreProvider {
    let mut p = KeyValueStoreProvider::new();
    assert_eq!(p.init("prov", empty_config()), Ok(()));
    p
}

#[test]
fn round_trip_set_then_get() {
    let mut p = running_provider();
    assert_eq!(p.set("k".to_string(), "v".to_string()), Ok(()));
    assert_eq!(p.get("k"), Ok(Some("v".to_string())));
}

#[test]
fn absence_is_empty_result_not_error() {
    let p = running_provider();
    assert_eq!(p.get("never-set"), Ok(None));
}

#[test]
fn overwrite_last_write_wins() {
    let mut p = running_provider();
    assert_eq!(p.set("k".to_string(), "v1".to_string()), Ok(()));
    assert_eq!(p.set("k".to_string(), "v2".to_string()), Ok(()));
    assert_eq!(p.get("k"), Ok(Some("v2".to_string())));
}

#[test]
fn detach_twice_both_succeed() {
    let mut p = running_provider();
    assert_eq!(p.attach_as_source("comp".to_string(), empty_config()), Ok(()));
    assert_eq!(p.detach_as_source("comp"), Ok(()));
    assert!(p.lookup("comp", LinkDirection::Source).is_none());
    assert_eq!(p.detach_as_source("comp"), Ok(()));
    assert!(p.lookup("comp", LinkDirection::Source).is_none());
}

#[test]
fn attach_as_target_stays_out_of_linked_to() {
    let mut p = running_provider();
    let mut config = empty_config();
    config.insert("role".to_string(), "reader".to_string());
    assert_eq!(p.attach_as_target("id".to_string(), config), Ok(()));
    assert!(p.lookup("id", LinkDirection::Source).is_none());
    let found = p.lookup("id", LinkDirection::Target).expect("target link recorded");
    assert_eq!(found.get("role"), Some(&"reader".to_string()));
}

#[test]
fn reconfiguration_replaces_wholesale() {
    let mut p = KeyValueStoreProvider::new();
    let mut cfg1 = empty_config();
    cfg1.insert("only-in-first".to_string(), "a".to_string());
    cfg1.insert("shared".to_string(), "old".to_string());
    assert_eq!(p.init("prov", cfg1), Ok(()));
    let mut cfg2 = empty_config();
    cfg2.insert("shared".to_string(), "new".to_string());
    assert_eq!(p.init("prov", cfg2), Ok(()));
    let current = p.current();
    assert_eq!(current.get("shared"), Some(&"new".to_string()));
    assert_eq!(current.get("only-in-first"), None);
    assert_eq!(current.len(), 1);
}

#[test]
fn shutdown_clears_links_and_preserves_data() {
    let mut p = running_provider();
    assert_eq!(p.attach_as_source("A".to_string(), empty_config()), Ok(()));
    assert_eq!(p.set("x".to_string(), "1".to_string()), Ok(()));
    assert_eq!(p.shutdown(), Ok(()));
    assert_eq!(p.state(), LifecycleState::Terminated);
    assert!(p.lookup("A", LinkDirection::Source).is_none());
    // Invocations are refused once shut down...
    assert_eq!(p.get("x"), Err(ProviderError::ShutDown));
    // ...but the data survives: a later init puts the provider back in
    // service over the same store.
    assert_eq!(p.init("prov", empty_config()), Ok(()));
    assert_eq!(p.get("x"), Ok(Some("1".to_string())));
}

#[test]
fn shutdown_is_idempotent() {
    let mut p = running_provider();
    assert_eq!(p.shutdown(), Ok(()));
    assert_eq!(p.shutdown(), Ok(()));
    assert_eq!(p.state(), LifecycleState::Terminated);
}

#[test]
fn refused_before_init() {
    let mut p = KeyValueStoreProvider::new();
    assert_eq!(p.state(), LifecycleState::Uninitialized);
    assert_eq!(p.get("x"), Err(ProviderError::NotReady));
    assert_eq!(p.set("x".to_string(), "1".to_string()), Err(ProviderError::NotReady));
    assert_eq!(
        p.attach_as_source("id".to_string(), AssocMap::new()),
        Err(ProviderError::NotReady)
    );
    assert_eq!(
        p.attach_as_target("id".to_string(), AssocMap::new()),
        Err(ProviderError::NotReady)
    );
    assert_eq!(p.detach_as_source("id"), Err(ProviderError::NotReady));
    assert_eq!(p.detach_as_target("id"), Err(ProviderError::NotReady));
    assert!(p.lookup("id", LinkDirection::Source).is_none());
    assert_eq!(p.current().len(), 0);
}

#[test]
fn refused_after_shutdown() {
    let mut p = running_provider();
    assert_eq!(p.shutdown(), Ok(()));
    assert_eq!(p.set("x".to_string(), "1".to_string()), Err(ProviderError::ShutDown));
    assert_eq!(
        p.attach_as_source("id".to_string(), AssocMap::new()),
        Err(ProviderError::ShutDown)
    );
    assert_eq!(
        p.attach_as_target("id".to_string(), AssocMap::new()),
        Err(ProviderError::ShutDown)
    );
    assert_eq!(p.detach_as_source("id"), Err(ProviderError::ShutDown));
    assert_eq!(p.detach_as_target("id"), Err(ProviderError::ShutDown));
}

#[test]
fn distinct_keys_lose_no_write() {
    let mut p = running_provider();
    for i in 0..50 {
        let key = format!("key-{}", i);
        let value = format!("value-{}", i);
        assert_eq!(p.set(key, value), Ok(()));
    }
    for i in 0..50 {
        let key = format!("key-{}", i);
        let value = format!("value-{}", i);
        assert_eq!(p.get(&key), Ok(Some(value)));
    }
}

#[test]
fn attach_overwrites_existing_link_config() {
    let mut p = running_provider();
    let mut first = empty_config();
    first.insert("mode".to_string(), "a".to_string());
    first.insert("extra".to_string(), "1".to_string());
    assert_eq!(p.attach_as_source("id".to_string(), first), Ok(()));
    let mut second = empty_config();
    second.insert("mode".to_string(), "b".to_string());
    assert_eq!(p.attach_as_source("id".to_string(), second), Ok(()));
    let found = p.lookup("id", LinkDirection::Source).expect("link recorded");
    assert_eq!(found.get("mode"), Some(&"b".to_string()));
    assert_eq!(found.get("extra"), None);
    assert_eq!(found.len(), 1);
}

#[test]
fn link_directions_are_independent() {
    let mut p = running_provider();
    let mut source_cfg = empty_config();
    source_cfg.insert("dir".to_string(), "source".to_string());
    let mut target_cfg = empty_config();
    target_cfg.insert("dir".to_string(), "target".to_string());
    assert_eq!(p.attach_as_source("id".to_string(), source_cfg), Ok(()));
    assert_eq!(p.attach_as_target("id".to_string(), target_cfg), Ok(()));
    let as_source = p.lookup("id", LinkDirection::Source).expect("source link");
    let as_target = p.lookup("id", LinkDirection::Target).expect("target link");
    assert_eq!(as_source.get("dir"), Some(&"source".to_string()));
    assert_eq!(as_target.get("dir"), Some(&"target".to_string()));
    assert_eq!(p.detach_as_source("id"), Ok(()));
    assert!(p.lookup("id", LinkDirection::Source).is_none());
    assert!(p.lookup("id", LinkDirection::Target).is_some());
}

#[test]
fn end_to_end_example() {
    let mut p = KeyValueStoreProvider::new();
    assert_eq!(p.init("prov", empty_config()), Ok(()));
    assert_eq!(p.set("alice".to_string(), "42".to_string()), Ok(()));
    assert_eq!(p.get("alice"), Ok(Some("42".to_string())));
    assert_eq!(p.get("bob"), Ok(None));
    let mut cfg = empty_config();
    cfg.insert("role".to_string(), "reader".to_string());
    assert_eq!(p.attach_as_target("svc-1".to_string(), cfg), Ok(()));
    let found = p.lookup("svc-1", LinkDirection::Target).expect("link recorded");
    assert_eq!(found.get("role"), Some(&"reader".to_string()));
    assert_eq!(found.len(), 1);
    assert_eq!(p.detach_as_target("svc-1"), Ok(()));
    assert!(p.lookup("svc-1", LinkDirection::Target).is_none());
}

#[test]
fn default_is_a_fresh_provider() {
    let p = KeyValueStoreProvider::default();
    assert_eq!(p.state(), LifecycleState::Uninitialized);
    assert_eq!(p.current().len(), 0);
}

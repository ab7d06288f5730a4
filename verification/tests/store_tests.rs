use sovereign_agent::agent::Agent;
use sovereign_agent::store::KeyValueStore;

#[test]
fn read_after_write_returns_the_written_value() {
    let mut agent = Agent::new();
    agent.store_data("greeting".to_string(), "hello".to_string());
    assert_eq!(agent.retrieve_data("greeting"), Some("hello".to_string()));
}

#[test]
fn never_stored_key_is_absent() {
    let agent = Agent::new();
    assert_eq!(agent.retrieve_data("missing"), None);
}

#[test]
fn overwrite_keeps_the_second_value() {
    let mut agent = Agent::new();
    agent.store_data("k".to_string(), "v1".to_string());
    agent.store_data("k".to_string(), "v2".to_string());
    assert_eq!(agent.retrieve_data("k"), Some("v2".to_string()));
}

#[test]
fn disjoint_keys_are_independently_retrievable() {
    let mut agent = Agent::new();
    let n: usize = 100;
    for i in 0..n {
        agent.store_data(format!("key-{}", i), format!("value-{}", i));
    }
    for i in 0..n {
        assert_eq!(agent.retrieve_data(&format!("key-{}", i)), Some(format!("value-{}", i)));
    }
}

#[test]
fn write_under_one_key_leaves_another_untouched() {
    let mut store = KeyValueStore::new();
    store.put("a".to_string(), "1".to_string());
    store.put("b".to_string(), "2".to_string());
    store.put("a".to_string(), "override".to_string());
    assert_eq!(store.get("b"), Some("2".to_string()));
    assert_eq!(store.get("a"), Some("override".to_string()));
}

#[test]
fn empty_key_and_empty_value_round_trip() {
    let mut store = KeyValueStore::new();
    store.put(String::new(), String::new());
    assert_eq!(store.get(""), Some(String::new()));
    assert_eq!(store.get("nonempty"), None);
}

#[test]
fn sample_data_round_trip() {
    let mut agent = Agent::new();
    let data_key = "sample_data".to_string();
    let data_value = "This is a decentralized storage example.".to_string();
    agent.store_data(data_key.clone(), data_value.clone());
    assert_eq!(agent.retrieve_data(&data_key), Some(data_value));
}

#[test]
fn keys_differing_only_late_do_not_collide() {
    let mut store = KeyValueStore::new();
    store.put("prefix-one".to_string(), "1".to_string());
    store.put("prefix-two".to_string(), "2".to_string());
    assert_eq!(store.get("prefix-one"), Some("1".to_string()));
    assert_eq!(store.get("prefix-two"), Some("2".to_string()));
    assert_eq!(store.get("prefix-"), None);
}

#[test]
fn identity_survives_store_operations() {
    let mut agent = Agent::new();
    let id_before = agent.identity.id.clone();
    agent.store_data("k".to_string(), "v".to_string());
    assert_eq!(agent.identity.id, id_before);
}

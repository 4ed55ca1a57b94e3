use corelab::registry::{AppInfo, AppRegistry, RegistryError};

fn app(id: &str, name: &str) -> AppInfo {
    AppInfo {
        id: id.to_string(),
        name: name.to_string(),
        version: "1.0.0".to_string(),
        description: format!("{} module", name),
    }
}

#[test]
fn second_registration_of_same_id_fails_and_first_stays() {
    let mut reg = AppRegistry::new();
    assert!(reg.register(app("people", "People")).is_ok());
    match reg.register(app("people", "Impostor")) {
        Err(RegistryError::DuplicateEntity(id)) => assert_eq!(id, "people"),
        other => panic!("expected a duplicate, got {:?}", other),
    }
    let kept = reg.get("people").expect("first registration kept");
    assert_eq!(kept.name, "People");
    assert_eq!(kept.description, "People module");
    assert_eq!(reg.list().len(), 1);
}

#[test]
fn duplicate_error_message_names_the_id() {
    let err = RegistryError::DuplicateEntity("people".to_string());
    assert_eq!(err.message(), "App 'people' already registered");
}

#[test]
fn unregister_unknown_id_returns_nothing_and_changes_nothing() {
    let mut reg = AppRegistry::new();
    reg.register(app("a", "A")).unwrap();
    assert!(reg.unregister("missing").is_none());
    assert_eq!(reg.list().len(), 1);
    assert_eq!(reg.get("a").unwrap().name, "A");
}

#[test]
fn unregister_returns_entry_then_nothing() {
    let mut reg = AppRegistry::new();
    reg.register(app("a", "A")).unwrap();
    reg.register(app("b", "B")).unwrap();
    let removed = reg.unregister("a").expect("was registered");
    assert_eq!(removed.id, "a");
    assert!(reg.unregister("a").is_none());
    assert!(reg.get("a").is_none());
    assert_eq!(reg.get("b").unwrap().name, "B");
    assert!(reg.register(app("a", "A2")).is_ok());
    assert_eq!(reg.get("a").unwrap().name, "A2");
}

#[test]
fn get_on_empty_registry_is_none() {
    let reg = AppRegistry::new();
    assert!(reg.get("anything").is_none());
    assert!(reg.list().is_empty());
}

#[test]
fn list_holds_every_entry_once() {
    let mut reg = AppRegistry::new();
    for id in ["x", "y", "z"] {
        reg.register(app(id, id)).unwrap();
    }
    reg.unregister("y");
    let mut ids: Vec<String> = reg.list().into_iter().map(|a| a.id).collect();
    ids.sort();
    assert_eq!(ids, vec!["x".to_string(), "z".to_string()]);
}

#[test]
fn snapshots_are_independent_of_the_registry() {
    let mut reg = AppRegistry::new();
    reg.register(app("a", "A")).unwrap();
    let mut copy = reg.get("a").unwrap();
    copy.name = "changed".to_string();
    assert_eq!(reg.get("a").unwrap().name, "A");
}

#[test]
fn default_registry_is_empty() {
    let reg = AppRegistry::default();
    assert!(reg.list().is_empty());
}

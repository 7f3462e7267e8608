use devenv::registry::{
    load, lookup_env, register_env, unregister_env, Registry, RegistryEntry, RegistryError, Stored,
};

#[test]
fn register_and_lookup_roundtrip() {
    let mut reg = Registry::new();
    let project = "/tmp/td/proj";
    register_env(&mut reg, "foo", project).unwrap();
    let got = lookup_env(&reg, "foo").unwrap();
    assert_eq!(got, project);
}

#[test]
fn duplicate_name_different_path_errors() {
    let mut reg = Registry::new();
    let first = "/tmp/td/first";
    let second = "/tmp/td/second";

    register_env(&mut reg, "dup", first).unwrap();
    let err = register_env(&mut reg, "dup", second).unwrap_err();
    let msg = err.message();
    assert!(msg.contains("already exists"));
    assert_eq!(msg, "An environment named 'dup' already exists at /tmp/td/first");
    assert_eq!(lookup_env(&reg, "dup").unwrap(), first);
}

#[test]
fn unregister_removes_entry() {
    let mut reg = Registry::new();
    let project = "/tmp/td/proj";
    register_env(&mut reg, "gone", project).unwrap();
    assert!(unregister_env(&mut reg, "gone"));
    let err = lookup_env(&reg, "gone").unwrap_err();
    let msg = err.message();
    assert!(msg.contains("not found"));
    assert_eq!(msg, "Environment 'gone' not found in registry");
}

#[test]
fn demo_scenario() {
    let mut reg = Registry::new();
    register_env(&mut reg, "demo", "/tmp/demo").unwrap();
    assert_eq!(lookup_env(&reg, "demo").unwrap(), "/tmp/demo");
    assert!(unregister_env(&mut reg, "demo"));
    assert!(matches!(lookup_env(&reg, "demo"), Err(RegistryError::NotFound { .. })));
}

#[test]
fn registering_the_same_path_again_changes_nothing() {
    let mut reg = Registry::new();
    register_env(&mut reg, "a", "/x").unwrap();
    register_env(&mut reg, "b", "/y").unwrap();
    register_env(&mut reg, "a", "/x").unwrap();
    assert_eq!(reg.entries.len(), 2);
    assert_eq!(lookup_env(&reg, "a").unwrap(), "/x");
    assert_eq!(lookup_env(&reg, "b").unwrap(), "/y");
}

#[test]
fn conflict_names_the_existing_path() {
    let mut reg = Registry::new();
    register_env(&mut reg, "a", "/x").unwrap();
    match register_env(&mut reg, "a", "/z") {
        Err(RegistryError::Conflict { name, existing }) => {
            assert_eq!(name, "a");
            assert_eq!(existing, "/x");
        }
        _ => panic!("expected a conflict"),
    }
    assert_eq!(reg.entries.len(), 1);
}

#[test]
fn unregister_of_an_unknown_name_reports_so() {
    let mut reg = Registry::new();
    assert!(!unregister_env(&mut reg, "never"));
    register_env(&mut reg, "a", "/x").unwrap();
    assert!(!unregister_env(&mut reg, "never"));
    assert_eq!(lookup_env(&reg, "a").unwrap(), "/x");
}

#[test]
fn unregister_keeps_the_other_bindings() {
    let mut reg = Registry::new();
    register_env(&mut reg, "a", "/x").unwrap();
    register_env(&mut reg, "b", "/y").unwrap();
    register_env(&mut reg, "c", "/z").unwrap();
    assert!(unregister_env(&mut reg, "b"));
    assert_eq!(lookup_env(&reg, "a").unwrap(), "/x");
    assert_eq!(lookup_env(&reg, "c").unwrap(), "/z");
    assert!(lookup_env(&reg, "b").is_err());
}

#[test]
fn a_missing_store_is_an_empty_registry() {
    let reg = load(Stored::Missing).ok().unwrap();
    assert!(reg.entries.is_empty());
}

#[test]
fn a_malformed_store_is_refused() {
    match load(Stored::Malformed) {
        Err(e) => {
            assert!(matches!(e, RegistryError::Corrupt));
            assert_eq!(e.message(), "Parsing registry.json");
        }
        Ok(_) => panic!("expected an error"),
    }
}

#[test]
fn stored_bindings_are_loaded() {
    let entries = vec![
        RegistryEntry { name: "a".to_string(), path: "/x".to_string() },
        RegistryEntry { name: "b".to_string(), path: "/y".to_string() },
        RegistryEntry { name: "a".to_string(), path: "/other".to_string() },
    ];
    let reg = load(Stored::Bindings(entries)).ok().unwrap();
    assert_eq!(reg.entries.len(), 2);
    assert_eq!(lookup_env(&reg, "a").unwrap(), "/x");
    assert_eq!(lookup_env(&reg, "b").unwrap(), "/y");
}

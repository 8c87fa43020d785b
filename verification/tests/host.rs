use ncube::data::ConfigSetting;
use ncube::host::{
    endpoint, expanded_workspace_root, find_setting, secret_key, workspace_root,
    workspace_root_value, ActorError, InsertSetting,
};

fn setting(name: &str, value: Option<&str>) -> ConfigSetting {
    ConfigSetting {
        name: name.to_string(),
        value: value.map(|v| v.to_string()),
    }
}

fn config() -> Vec<ConfigSetting> {
    vec![
        setting("workspace_root", Some("~/Ncube")),
        setting("name", Some("Alice")),
        setting("secret_key", None),
        setting("name", Some("Bob")),
    ]
}

#[test]
fn insert_setting_new_keeps_name_and_value() {
    let msg = InsertSetting::new("name".to_string(), "Alice".to_string());
    assert_eq!(msg.name, "name");
    assert_eq!(msg.value, "Alice");
}

#[test]
fn find_setting_returns_first_match() {
    let found = find_setting(config(), "name").unwrap();
    assert_eq!(found.name, "name");
    assert_eq!(found.value, Some("Alice".to_string()));
}

#[test]
fn find_setting_without_match_is_none() {
    assert!(find_setting(config(), "email").is_none());
    assert!(find_setting(vec![], "name").is_none());
}

#[test]
fn required_settings_found() {
    let root = workspace_root(config()).unwrap();
    assert_eq!(root.value, Some("~/Ncube".to_string()));
    let key = secret_key(config()).unwrap();
    assert_eq!(key.value, None);
}

#[test]
fn required_settings_missing() {
    match endpoint(config()) {
        Err(ActorError::Invalid(m)) => assert_eq!(m, "missing http endpoint"),
        other => panic!("unexpected {:?}", other),
    }
    match workspace_root(vec![]) {
        Err(ActorError::Invalid(m)) => assert_eq!(m, "missing workspace root"),
        other => panic!("unexpected {:?}", other),
    }
    match secret_key(vec![setting("endpoint", None)]) {
        Err(ActorError::Invalid(m)) => assert_eq!(m, "missing secret key"),
        other => panic!("unexpected {:?}", other),
    }
}

#[test]
fn workspace_root_value_and_expansion() {
    assert_eq!(
        workspace_root_value(setting("workspace_root", Some("~/Ncube"))).unwrap(),
        "~/Ncube"
    );
    match workspace_root_value(setting("workspace_root", None)) {
        Err(ActorError::Invalid(m)) => assert_eq!(m, "signing failed"),
        other => panic!("unexpected {:?}", other),
    }
    assert_eq!(
        expanded_workspace_root(Some("/home/a/Ncube".to_string())).unwrap(),
        "/home/a/Ncube"
    );
    match expanded_workspace_root(None) {
        Err(ActorError::Invalid(m)) => assert_eq!(m, "signing failed"),
        other => panic!("unexpected {:?}", other),
    }
}

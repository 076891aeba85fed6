use mitsusplit::credential::load;

#[test]
fn load_both_present() {
    let r = load(Some("home".to_string()), Some("secret".to_string()));
    let c = r.expect("both entries present and non-empty");
    assert_eq!(c.network_id, "home");
    assert_eq!(c.secret, "secret");
}

#[test]
fn load_missing_secret() {
    assert!(load(Some("home".to_string()), None).is_none());
}

#[test]
fn load_missing_network_id() {
    assert!(load(None, Some("secret".to_string())).is_none());
}

#[test]
fn load_both_missing() {
    assert!(load(None, None).is_none());
}

#[test]
fn load_empty_network_id() {
    assert!(load(Some(String::new()), Some("secret".to_string())).is_none());
}

#[test]
fn load_empty_secret() {
    assert!(load(Some("home".to_string()), Some(String::new())).is_none());
}

#[test]
fn load_both_empty() {
    assert!(load(Some(String::new()), Some(String::new())).is_none());
}

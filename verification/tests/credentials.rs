use voice_input::config::credentials::{
    choose_api_key, resolve_api_key, CredentialError, CredentialStore, OPENAI_ACCOUNT,
    OPENAI_ENV_VAR,
};
use voice_input::doubles::FakeCredentialStore;

fn no_env(_: &str) -> Option<String> {
    None
}

#[test]
fn credential_store_wins_over_env_and_config() {
    let store = FakeCredentialStore::with(OPENAI_ACCOUNT, "from-store");

    let key = resolve_api_key(&store, |_| Some("from-env".into()), Some("from-config"));

    assert_eq!(key.as_deref(), Some("from-store"));
}

#[test]
fn env_var_is_used_when_store_is_empty() {
    let store = FakeCredentialStore::new();

    let key = resolve_api_key(
        &store,
        |name| (name == OPENAI_ENV_VAR).then(|| "from-env".to_owned()),
        Some("from-config"),
    );

    assert_eq!(key.as_deref(), Some("from-env"));
}

#[test]
fn config_value_is_the_last_resort() {
    let store = FakeCredentialStore::new();

    let key = resolve_api_key(&store, no_env, Some("from-config"));

    assert_eq!(key.as_deref(), Some("from-config"));
}

#[test]
fn blank_values_are_skipped_and_none_means_no_key() {
    let store = FakeCredentialStore::with(OPENAI_ACCOUNT, "   ");

    assert_eq!(
        resolve_api_key(&store, |_| Some(String::new()), Some(" ")),
        None
    );
    assert_eq!(resolve_api_key(&store, no_env, None), None);
}

#[test]
fn a_broken_store_falls_through_instead_of_failing() {
    let store = FakeCredentialStore::broken();

    let key = resolve_api_key(&store, no_env, Some("from-config"));

    assert_eq!(key.as_deref(), Some("from-config"));
}

#[test]
fn env_is_not_read_when_the_store_has_a_key() {
    let store = FakeCredentialStore::with(OPENAI_ACCOUNT, "from-store");
    let key = resolve_api_key(&store, |_| panic!("env must not be read"), None);
    assert_eq!(key.as_deref(), Some("from-store"));
}

#[test]
fn choose_api_key_follows_the_priority_order() {
    let failing = Err(CredentialError::Unavailable("down".into()));
    assert_eq!(
        choose_api_key(failing.clone(), Some("env".into()), Some("cfg")).as_deref(),
        Some("env")
    );
    assert_eq!(
        choose_api_key(Ok(Some("\u{2003}".into())), Some("\t".into()), Some("cfg")).as_deref(),
        Some("cfg")
    );
    assert_eq!(choose_api_key(Ok(None), None, None), None);
    assert_eq!(
        choose_api_key(Ok(Some(" k ".into())), Some("env".into()), Some("cfg")).as_deref(),
        Some(" k ")
    );
}

#[test]
fn fake_store_sets_and_deletes_per_account() {
    let mut store = FakeCredentialStore::new();
    assert_eq!(store.get("a"), Ok(None));
    store.set("a", "1").unwrap();
    store.set("b", "2").unwrap();
    store.set("a", "3").unwrap();
    assert_eq!(store.get("a"), Ok(Some("3".to_string())));
    store.delete("a").unwrap();
    assert_eq!(store.get("a"), Ok(None));
    assert_eq!(store.get("b"), Ok(Some("2".to_string())));

    let mut broken = FakeCredentialStore::broken();
    assert!(broken.get("a").is_err());
    assert!(broken.set("a", "1").is_err());
    assert!(broken.delete("a").is_err());
}

#[test]
fn credential_error_message() {
    assert_eq!(
        CredentialError::Unavailable("locked".into()).message(),
        "credential store unavailable: locked"
    );
}

use zk_vault::errors::StoreError;
use zk_vault::models::{NewUser, User, DEFAULT_ITERATIONS};
use zk_vault::store::CredentialStore;

fn new_user(id: u128, email: &str, user_key: &str) -> NewUser {
    NewUser {
        id,
        email: email.to_string(),
        user_key: user_key.to_string(),
        salt: "salt".to_string(),
        vault: Some("vault".to_string()),
        iterations: Some(1000),
        vaultiv: Some("iv".to_string()),
    }
}

fn user(id: u128, email: &str, user_key: &str) -> User {
    User {
        id,
        email: email.to_string(),
        user_key: user_key.to_string(),
        salt: "salt".to_string(),
        vault: "vault".to_string(),
        iterations: 1000,
        vaultiv: "iv".to_string(),
    }
}

#[test]
fn new_store_is_empty_and_reachable() {
    let store = CredentialStore::new();
    assert_eq!(store.len(), 0);
    assert!(store.is_available());
    assert_eq!(store.find_by_email(&"a@x.com".to_string()), Err(StoreError::NotFound));
}

#[test]
fn create_hands_back_the_stored_record() {
    let mut store = CredentialStore::new();
    let created = store.create(new_user(1, "a@x.com", "k1")).unwrap();
    assert_eq!(created, user(1, "a@x.com", "k1"));
    assert_eq!(store.len(), 1);
    assert_eq!(store.find_by_email(&"a@x.com".to_string()), Ok(user(1, "a@x.com", "k1")));
}

#[test]
fn create_fills_in_defaults() {
    let mut store = CredentialStore::new();
    let created = store
        .create(NewUser {
            id: 9,
            email: "a@x.com".to_string(),
            user_key: "k1".to_string(),
            salt: "salt".to_string(),
            vault: None,
            iterations: None,
            vaultiv: None,
        })
        .unwrap();
    assert_eq!(created.vault, "");
    assert_eq!(created.vaultiv, "");
    assert_eq!(created.iterations, DEFAULT_ITERATIONS);
    assert_eq!(DEFAULT_ITERATIONS, 100_000);
}

#[test]
fn into_row_fills_in_each_default_by_itself() {
    let mut request = new_user(1, "a@x.com", "k1");
    request.vaultiv = None;
    let row = request.into_row();
    assert_eq!(row.vault, "vault");
    assert_eq!(row.vaultiv, "");
    assert_eq!(row.iterations, 1000);

    let mut request = new_user(1, "a@x.com", "k1");
    request.iterations = None;
    request.vault = None;
    let row = request.into_row();
    assert_eq!(row.vault, "");
    assert_eq!(row.vaultiv, "iv");
    assert_eq!(row.iterations, 100_000);
}

#[test]
fn create_refuses_a_taken_email() {
    let mut store = CredentialStore::new();
    store.create(new_user(1, "a@x.com", "k1")).unwrap();
    assert_eq!(store.create(new_user(2, "a@x.com", "k2")), Err(StoreError::Conflict));
    assert_eq!(store.len(), 1);
    assert_eq!(store.find_by_email(&"a@x.com".to_string()), Ok(user(1, "a@x.com", "k1")));
}

#[test]
fn emails_are_matched_exactly() {
    let mut store = CredentialStore::new();
    store.create(new_user(1, "a@x.com", "k1")).unwrap();
    store.create(new_user(2, "A@x.com", "k2")).unwrap();
    store.create(new_user(3, " a@x.com", "k3")).unwrap();
    assert_eq!(store.len(), 3);
    assert_eq!(store.find_by_email(&"A@x.com".to_string()).unwrap().id, 2);
    assert_eq!(store.find_by_email(&" a@x.com".to_string()).unwrap().id, 3);
    assert_eq!(store.find_by_email(&"a@x.com ".to_string()), Err(StoreError::NotFound));
}

#[test]
fn find_by_email_and_key_wants_both_to_match() {
    let mut store = CredentialStore::new();
    store.create(new_user(1, "a@x.com", "k1")).unwrap();
    store.create(new_user(2, "b@x.com", "k2")).unwrap();
    let find = |email: &str, key: &str| {
        store.find_by_email_and_key(&email.to_string(), &key.to_string())
    };
    assert_eq!(find("a@x.com", "k1"), Ok(user(1, "a@x.com", "k1")));
    assert_eq!(find("b@x.com", "k2"), Ok(user(2, "b@x.com", "k2")));
    assert_eq!(find("a@x.com", "k2"), Err(StoreError::NotFound));
    assert_eq!(find("b@x.com", "k1"), Err(StoreError::NotFound));
    assert_eq!(find("c@x.com", "k1"), Err(StoreError::NotFound));
    assert_eq!(find("a@x.com", ""), Err(StoreError::NotFound));
}

#[test]
fn an_unreachable_store_answers_nothing_and_keeps_its_records() {
    let mut store = CredentialStore::new();
    store.create(new_user(1, "a@x.com", "k1")).unwrap();
    store.set_available(false);
    assert!(!store.is_available());
    assert_eq!(store.find_by_email(&"a@x.com".to_string()), Err(StoreError::Unavailable));
    assert_eq!(store.find_by_email(&"b@x.com".to_string()), Err(StoreError::Unavailable));
    assert_eq!(
        store.find_by_email_and_key(&"a@x.com".to_string(), &"k1".to_string()),
        Err(StoreError::Unavailable)
    );
    assert_eq!(store.create(new_user(2, "b@x.com", "k2")), Err(StoreError::Unavailable));
    assert_eq!(store.create(new_user(3, "a@x.com", "k3")), Err(StoreError::Unavailable));
    assert_eq!(store.len(), 1);
    store.set_available(true);
    assert_eq!(store.find_by_email(&"a@x.com".to_string()), Ok(user(1, "a@x.com", "k1")));
    assert_eq!(store.find_by_email(&"b@x.com".to_string()), Err(StoreError::NotFound));
}

#[test]
fn clone_of_a_user_is_equal_to_it() {
    let kept = user(5, "a@x.com", "k1");
    assert_eq!(kept.clone(), kept);
}

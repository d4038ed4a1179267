use authcore::auth::AuthUser;
use authcore::operations::{signout_status, SignoutError};
use authcore::session::{Principal, SessionManager};

fn user(id: i32, hash: &str) -> AuthUser {
    AuthUser { id, password: hash.to_string() }
}

#[test]
fn sign_out() {
    let account = user(1, "$argon2id$hash-one");
    let mut store = SessionManager::new(60);
    store.issue(42, &account, 1000);
    assert_eq!(store.resolve(42, Some(&account), 1001), Principal::Authenticated(1));
    store.revoke(42);
    assert_eq!(signout_status::<()>(&Ok(())), 204);
    assert_eq!(store.resolve(42, Some(&account), 1002), Principal::Anonymous);
    assert_eq!(store.account_id_of(42), None);
}

#[test]
fn revoking_twice_is_harmless() {
    let account = user(1, "h");
    let mut store = SessionManager::new(60);
    store.issue(7, &account, 0);
    store.issue(8, &account, 0);
    store.revoke(7);
    store.revoke(7);
    assert_eq!(store.resolve(7, Some(&account), 1), Principal::Anonymous);
    assert_eq!(store.resolve(8, Some(&account), 1), Principal::Authenticated(1));
    assert_eq!(signout_status(&Err(SignoutError("store down"))), 500);
}

#[test]
fn swept_sessions_resolve_anonymous() {
    let account = user(5, "h");
    let mut store = SessionManager::new(10);
    store.issue(1, &account, 0);
    store.issue(2, &account, 95);
    store.delete_expired(100);
    assert_eq!(store.account_id_of(1), None);
    assert_eq!(store.account_id_of(2), Some(5));
    assert_eq!(store.resolve(1, Some(&account), 100), Principal::Anonymous);
    assert_eq!(store.resolve(2, Some(&account), 100), Principal::Authenticated(5));
}

#[test]
fn expiry_slides_on_use() {
    let account = user(2, "h");
    let mut store = SessionManager::new(10);
    store.issue(9, &account, 0);
    assert_eq!(store.resolve(9, Some(&account), 9), Principal::Authenticated(2));
    assert_eq!(store.resolve(9, Some(&account), 18), Principal::Authenticated(2));
    assert_eq!(store.resolve(9, Some(&account), 28), Principal::Anonymous);
}

#[test]
fn lapsed_session_is_anonymous_before_the_sweep() {
    let account = user(2, "h");
    let mut store = SessionManager::new(10);
    store.issue(9, &account, 0);
    assert_eq!(store.resolve(9, Some(&account), 10), Principal::Anonymous);
}

#[test]
fn password_change_invalidates_sessions() {
    let before = user(3, "old-hash");
    let after = user(3, "new-hash");
    let mut store = SessionManager::new(10);
    store.issue(4, &before, 0);
    assert_eq!(store.resolve(4, Some(&after), 1), Principal::Anonymous);
    assert_eq!(store.resolve(4, None, 1), Principal::Anonymous);
    assert_eq!(store.resolve(4, Some(&user(9, "old-hash")), 1), Principal::Anonymous);
    assert_eq!(store.resolve(4, Some(&before), 1), Principal::Authenticated(3));
}

#[test]
fn expiry_saturates() {
    let account = user(1, "h");
    let mut store = SessionManager::new(i64::MAX);
    store.issue(1, &account, i64::MAX - 1);
    assert_eq!(store.resolve(1, Some(&account), i64::MAX - 1), Principal::Authenticated(1));
}

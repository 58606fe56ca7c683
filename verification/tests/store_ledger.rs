use progress2win::auth::register_with_hash;
use progress2win::error::ErrorKind;
use progress2win::ledger::{PasswordResetToken, RefreshToken, SessionLedger};
use progress2win::models::{UserCreate, UserUpdate};
use progress2win::store::{CredentialStore, UserRecord};
use progress2win::users::update_user_profile_at;
use progress2win::{delete_user_account, get_user_profile, Database};

fn account(id: i64, email: &str) -> UserRecord {
    UserRecord {
        id,
        email: email.to_string(),
        password_hash: "hash".to_string(),
        first_name: "First".to_string(),
        last_name: "Last".to_string(),
        avatar_url: None,
        goals: vec!["Run 5k".to_string()],
        is_active: true,
        email_verified: true,
        created_at: 10,
        updated_at: 20,
    }
}

fn new_user(email: &str) -> UserCreate {
    UserCreate {
        email: email.to_string(),
        password: "pw".to_string(),
        first_name: "A".to_string(),
        last_name: "B".to_string(),
    }
}

#[test]
fn a_new_store_is_empty_and_starts_at_one() {
    let store = CredentialStore::new();
    assert_eq!(store.records().len(), 0);
    assert_eq!(store.next_id(), 1);
    assert!(store.find_by_email("a@x.com").is_none());
    assert!(store.find_by_id(1).is_none());
}

#[test]
fn store_finds_accounts_by_email_and_id() {
    let store =
        CredentialStore::restore(vec![account(3, "a@x.com"), account(5, "b@x.com")], 9).unwrap();
    assert_eq!(store.find_by_email("b@x.com").unwrap().id, 5);
    assert_eq!(store.find_by_email("a@x.com").unwrap().id, 3);
    assert!(store.find_by_email("B@x.com").is_none());
    assert_eq!(store.find_by_id(3).unwrap().email, "a@x.com");
    assert!(store.find_by_id(4).is_none());
    assert_eq!(store.next_id(), 9);
}

#[test]
fn store_enforces_unique_emails() {
    let mut store = CredentialStore::new();
    assert!(store.insert(new_user("a@x.com"), "h1".to_string(), 1).is_ok());
    let e = store.insert(new_user("a@x.com"), "h2".to_string(), 2).unwrap_err();
    assert_eq!(e.kind(), ErrorKind::Conflict);
    assert_eq!(e.message(), "User already exists");
    assert_eq!(store.records().len(), 1);
    assert_eq!(store.records()[0].password_hash, "h1");
    assert_eq!(store.next_id(), 2);
    assert!(store.insertion_error("a@x.com").is_some());
    assert!(store.insertion_error("b@x.com").is_none());
}

#[test]
fn store_never_hands_out_an_id_twice() {
    let mut store = CredentialStore::new();
    let first = store.insert(new_user("a@x.com"), "h".to_string(), 1).unwrap();
    store.remove(first.id);
    let second = store.insert(new_user("a@x.com"), "h".to_string(), 2).unwrap();
    assert_eq!(first.id, 1);
    assert_eq!(second.id, 2);
    assert_eq!(store.records().len(), 1);
}

#[test]
fn store_hands_out_the_last_id_but_not_one_more() {
    let mut store = CredentialStore::restore(Vec::new(), i64::MAX - 1).unwrap();
    let user = store.insert(new_user("a@x.com"), "h".to_string(), 1).unwrap();
    assert_eq!(user.id, i64::MAX - 1);
    let e = store.insert(new_user("b@x.com"), "h".to_string(), 1).unwrap_err();
    assert_eq!(e.kind(), ErrorKind::Internal);
    assert_eq!(e.message(), "No user id is left");
}

#[test]
fn restore_accepts_records_that_meet_the_invariant() {
    assert!(CredentialStore::restore(Vec::new(), 1).is_some());
    assert!(CredentialStore::restore(vec![account(1, "a@x.com")], 2).is_some());
    assert!(CredentialStore::restore(vec![account(2, "a@x.com"), account(1, "b@x.com")], 3).is_some());
}

#[test]
fn restore_rejects_records_that_break_the_invariant() {
    // The next id must be positive.
    assert!(CredentialStore::restore(Vec::new(), 0).is_none());
    // Ids must be positive and below the next id.
    assert!(CredentialStore::restore(vec![account(0, "a@x.com")], 5).is_none());
    assert!(CredentialStore::restore(vec![account(-1, "a@x.com")], 5).is_none());
    assert!(CredentialStore::restore(vec![account(5, "a@x.com")], 5).is_none());
    // Ids and emails must be unique.
    assert!(CredentialStore::restore(vec![account(1, "a@x.com"), account(1, "b@x.com")], 5).is_none());
    assert!(CredentialStore::restore(vec![account(1, "a@x.com"), account(2, "a@x.com")], 5).is_none());
    assert!(CredentialStore::restore(
        vec![account(1, "a@x.com"), account(2, "b@x.com"), account(3, "a@x.com")],
        5
    )
    .is_none());
}

#[test]
fn set_password_changes_one_account_only() {
    let mut store =
        CredentialStore::restore(vec![account(1, "a@x.com"), account(2, "b@x.com")], 3).unwrap();
    store.set_password(2, "new".to_string());
    assert_eq!(store.records()[0].password_hash, "hash");
    assert_eq!(store.records()[1].password_hash, "new");
    assert_eq!(store.records()[1].updated_at, 20);
    store.set_password(7, "lost".to_string());
    assert_eq!(store.records()[0].password_hash, "hash");
    assert_eq!(store.records()[1].password_hash, "new");
}

#[test]
fn profile_update_replaces_the_named_fields() {
    let mut db = Database::new();
    db.store = CredentialStore::restore(vec![account(1, "a@x.com"), account(2, "b@x.com")], 3).unwrap();

    let update = UserUpdate {
        first_name: Some("Jane".to_string()),
        last_name: None,
        avatar_url: Some("https://example.com/avatar.jpg".to_string()),
        goals: None,
    };
    let user = update_user_profile_at(&mut db, 1, update, 500).unwrap();
    assert_eq!(user.first_name, "Jane");
    assert_eq!(user.last_name, "Last");
    assert_eq!(user.avatar_url, Some("https://example.com/avatar.jpg".to_string()));
    assert_eq!(user.goals, vec!["Run 5k".to_string()]);
    assert_eq!(user.updated_at, 500);
    assert_eq!(user.created_at, 10);
    assert_eq!(user.email, "a@x.com");

    let other = get_user_profile(&db, 2).unwrap();
    assert_eq!(other.first_name, "First");
    assert_eq!(other.updated_at, 20);

    let update = UserUpdate {
        first_name: None,
        last_name: Some("Smith".to_string()),
        avatar_url: None,
        goals: Some(Vec::new()),
    };
    let user = update_user_profile_at(&mut db, 1, update, 600).unwrap();
    assert_eq!(user.first_name, "Jane");
    assert_eq!(user.last_name, "Smith");
    assert!(user.goals.is_empty());
    assert_eq!(user.avatar_url, Some("https://example.com/avatar.jpg".to_string()));
    assert_eq!(user.updated_at, 600);
}

#[test]
fn profile_update_without_fields_changes_nothing() {
    let mut db = Database::new();
    db.store = CredentialStore::restore(vec![account(1, "a@x.com")], 2).unwrap();
    let update = UserUpdate { first_name: None, last_name: None, avatar_url: None, goals: None };
    let user = update_user_profile_at(&mut db, 1, update, 500).unwrap();
    assert_eq!(user.first_name, "First");
    assert_eq!(user.updated_at, 20);
}

#[test]
fn profile_update_of_a_missing_account_is_not_found() {
    let mut db = Database::new();
    db.store = CredentialStore::restore(vec![account(1, "a@x.com")], 2).unwrap();
    let update = UserUpdate {
        first_name: Some("Jane".to_string()),
        last_name: None,
        avatar_url: None,
        goals: None,
    };
    let e = update_user_profile_at(&mut db, 9, update, 500).unwrap_err();
    assert_eq!(e.kind(), ErrorKind::NotFound);
    assert_eq!(e.message(), "User not found");
    assert_eq!(db.store.records()[0].first_name, "First");
}

#[test]
fn deleting_an_account_removes_its_tokens() {
    let mut db = Database::new();
    register_with_hash(&mut db, new_user("a@x.com"), "h".to_string(), 1).unwrap();
    register_with_hash(&mut db, new_user("b@x.com"), "h".to_string(), 1).unwrap();
    db.ledger.insert_refresh_token(1, "r1".to_string(), 100);
    db.ledger.insert_refresh_token(2, "r2".to_string(), 100);
    db.ledger.insert_refresh_token(1, "r3".to_string(), 100);
    db.ledger.insert_reset_token(1, "p1".to_string(), 100);
    db.ledger.insert_reset_token(2, "p2".to_string(), 100);

    assert!(delete_user_account(&mut db, 1).is_ok());
    assert!(get_user_profile(&db, 1).is_err());
    assert!(get_user_profile(&db, 2).is_ok());
    assert_eq!(db.ledger.refresh_tokens().len(), 1);
    assert_eq!(db.ledger.refresh_tokens()[0].token, "r2");
    assert_eq!(db.ledger.reset_tokens().len(), 1);
    assert_eq!(db.ledger.reset_tokens()[0].token, "p2");

    // Deleting again, or deleting an unknown account, is no failure.
    assert!(delete_user_account(&mut db, 1).is_ok());
    assert!(delete_user_account(&mut db, 99).is_ok());
    assert_eq!(db.store.records().len(), 1);
}

#[test]
fn ledger_tells_live_tokens_from_expired_ones() {
    let mut ledger = SessionLedger::new();
    ledger.insert_refresh_token(1, "t".to_string(), 100);
    assert!(ledger.has_live_refresh_token("t", 99));
    assert!(!ledger.has_live_refresh_token("t", 100));
    assert!(!ledger.has_live_refresh_token("t", 101));
    assert!(!ledger.has_live_refresh_token("u", 0));
    // A second row of the same token with a later expiry keeps it alive.
    ledger.insert_refresh_token(1, "t".to_string(), 200);
    assert!(ledger.has_live_refresh_token("t", 150));
}

#[test]
fn ledger_removes_and_rotates_every_row_of_a_token() {
    let rows = vec![
        RefreshToken { user_id: 1, token: "a".to_string(), expires_at: 10 },
        RefreshToken { user_id: 2, token: "b".to_string(), expires_at: 20 },
        RefreshToken { user_id: 1, token: "a".to_string(), expires_at: 30 },
    ];
    let mut ledger = SessionLedger::restore(rows, Vec::new());
    ledger.rotate_refresh_token("a", "c", 99);
    let rows = ledger.refresh_tokens();
    assert_eq!(rows.len(), 3);
    assert_eq!((rows[0].user_id, rows[0].token.as_str(), rows[0].expires_at), (1, "c", 99));
    assert_eq!((rows[1].user_id, rows[1].token.as_str(), rows[1].expires_at), (2, "b", 20));
    assert_eq!((rows[2].user_id, rows[2].token.as_str(), rows[2].expires_at), (1, "c", 99));

    ledger.rotate_refresh_token("missing", "d", 5);
    assert_eq!(ledger.refresh_tokens().len(), 3);

    ledger.remove_refresh_token("c");
    assert_eq!(ledger.refresh_tokens().len(), 1);
    assert_eq!(ledger.refresh_tokens()[0].token, "b");
}

#[test]
fn ledger_revokes_the_sessions_of_one_account() {
    let mut ledger = SessionLedger::new();
    ledger.insert_refresh_token(1, "a".to_string(), 10);
    ledger.insert_refresh_token(2, "b".to_string(), 10);
    ledger.insert_refresh_token(1, "c".to_string(), 10);
    ledger.insert_refresh_token(3, "d".to_string(), 10);
    ledger.insert_reset_token(1, "p".to_string(), 10);
    ledger.revoke_sessions_of(1);
    let rows = ledger.refresh_tokens();
    assert_eq!(rows.len(), 2);
    assert_eq!(rows[0].token, "b");
    assert_eq!(rows[1].token, "d");
    assert_eq!(ledger.reset_tokens().len(), 1);
}

#[test]
fn ledger_finds_the_first_usable_reset_token() {
    let rows = vec![
        PasswordResetToken { user_id: 1, token: "t".to_string(), expires_at: 50, used: true },
        PasswordResetToken { user_id: 2, token: "t".to_string(), expires_at: 10, used: false },
        PasswordResetToken { user_id: 3, token: "t".to_string(), expires_at: 50, used: false },
        PasswordResetToken { user_id: 4, token: "t".to_string(), expires_at: 90, used: false },
        PasswordResetToken { user_id: 5, token: "u".to_string(), expires_at: 90, used: false },
    ];
    let mut ledger = SessionLedger::restore(Vec::new(), rows);
    assert_eq!(ledger.find_usable_reset_token("t", 5), Some(2));
    assert_eq!(ledger.find_usable_reset_token("t", 10), Some(3));
    assert_eq!(ledger.find_usable_reset_token("t", 50), Some(4));
    assert_eq!(ledger.find_usable_reset_token("t", 90), None);
    assert_eq!(ledger.find_usable_reset_token("u", 0), Some(5));
    assert_eq!(ledger.find_usable_reset_token("v", 0), None);

    ledger.mark_reset_token_used("t");
    assert_eq!(ledger.find_usable_reset_token("t", 5), None);
    assert_eq!(ledger.find_usable_reset_token("u", 0), Some(5));
    let rows = ledger.reset_tokens();
    assert_eq!(rows.len(), 5);
    assert!(rows[0].used && rows[1].used && rows[2].used && rows[3].used);
    assert!(!rows[4].used);
}

#[test]
fn ledger_forgets_an_account_in_both_tables() {
    let mut ledger = SessionLedger::new();
    ledger.insert_refresh_token(1, "a".to_string(), 10);
    ledger.insert_refresh_token(2, "b".to_string(), 10);
    ledger.insert_reset_token(1, "p".to_string(), 10);
    ledger.insert_reset_token(2, "q".to_string(), 10);
    ledger.remove_user(2);
    assert_eq!(ledger.refresh_tokens().len(), 1);
    assert_eq!(ledger.refresh_tokens()[0].token, "a");
    assert_eq!(ledger.reset_tokens().len(), 1);
    assert_eq!(ledger.reset_tokens()[0].token, "p");
}

#[test]
fn a_new_database_signs_with_the_development_secret() {
    let db = Database::new();
    assert_eq!(db.secret, progress2win::database::DEFAULT_JWT_SECRET);
    assert_eq!(db.store.records().len(), 0);
    assert_eq!(db.ledger.refresh_tokens().len(), 0);
    let db = Database::with_secret("s3".to_string());
    assert_eq!(db.secret, "s3");
}

#[test]
fn the_latest_instant_is_that_of_the_clock() {
    assert_eq!(
        progress2win::primitives::LATEST_INSTANT,
        chrono::DateTime::<chrono::Utc>::MAX_UTC.timestamp()
    );
    assert!(chrono::DateTime::<chrono::Utc>::from_timestamp(8_210_266_876_799, 0).is_some());
    assert!(chrono::DateTime::<chrono::Utc>::from_timestamp(8_210_266_876_800, 0).is_none());
    let now = chrono::Utc::now().timestamp();
    assert!(0 <= now && now <= progress2win::primitives::LATEST_INSTANT);
}

#[test]
fn a_notification_without_a_type_is_stored_as_info() {
    let mut request = progress2win::NotificationCreate {
        user_id: 1,
        title: "Test Notification".to_string(),
        message: "This is a test notification".to_string(),
        notification_type: None,
    };
    assert_eq!(request.stored_type(), "info");
    request.notification_type = Some("warning".to_string());
    assert_eq!(request.stored_type(), "warning");
    request.notification_type = Some(String::new());
    assert_eq!(request.stored_type(), "");
}

use focusflow::auth::{
    clear_user_tokens, create_or_update_user, token_action, GoogleUserInfo, TokenAction,
    TOKEN_REFRESH_BUFFER_MILLIS,
};
use focusflow::backup::{collect_backup, decrypt_backup_data, encrypt_backup_data};
use focusflow::config::{parse_port, Config};
use focusflow::errors::AppError;
use focusflow::model::{CreateHabitRequest, CreateNoteRequest};
use focusflow::store::EntityStore;

const OWNER: u128 = 1;

fn info() -> GoogleUserInfo {
    GoogleUserInfo {
        id: "google-123".to_string(),
        email: "a@example.com".to_string(),
        name: "Ada".to_string(),
        picture: Some("pic".to_string()),
        verified_email: true,
    }
}

#[test]
fn fresh_token_is_used_as_is() {
    let now = 1_000_000;
    let later = now + TOKEN_REFRESH_BUFFER_MILLIS + 1;
    assert_eq!(token_action(true, Some(later), true, now), TokenAction::UseExisting);
}

#[test]
fn expiring_token_is_refreshed() {
    let now = 1_000_000;
    let soon = now + TOKEN_REFRESH_BUFFER_MILLIS;
    assert_eq!(token_action(true, Some(soon), false, now), TokenAction::Refresh);
    assert_eq!(token_action(true, Some(now - 1), true, now), TokenAction::Refresh);
}

#[test]
fn unknown_age_refreshes_only_with_a_refresh_token() {
    assert_eq!(token_action(true, None, true, 0), TokenAction::Refresh);
    assert_eq!(token_action(true, None, false, 0), TokenAction::Reauth);
}

#[test]
fn missing_access_token_is_reported() {
    assert_eq!(token_action(false, Some(10), true, 0), TokenAction::Missing);
}

#[test]
fn first_sign_in_creates_the_user_row() {
    let mut store = EntityStore::new();
    let id = create_or_update_user(
        &mut store,
        &info(),
        &"access-1".to_string(),
        &Some("refresh-1".to_string()),
        Some(999),
        42,
        100,
    );
    assert_eq!(id, 42);
    assert_eq!(store.users.len(), 1);
    let u = &store.users[0];
    assert_eq!(u.google_id, "google-123");
    assert_eq!(u.email, "a@example.com");
    assert_eq!(u.name, "Ada");
    assert_eq!(u.google_access_token, Some("access-1".to_string()));
    assert_eq!(u.google_refresh_token, Some("refresh-1".to_string()));
    assert_eq!(u.google_token_expires_at, Some(999));
    assert_eq!(u.last_sync_at, None);
}

#[test]
fn repeat_sign_in_updates_and_keeps_the_old_refresh_token() {
    let mut store = EntityStore::new();
    create_or_update_user(
        &mut store,
        &info(),
        &"access-1".to_string(),
        &Some("refresh-1".to_string()),
        Some(999),
        42,
        100,
    );
    // Second sign-in: no refresh token in the response, a new name.
    let mut second = info();
    second.name = "Ada L.".to_string();
    let id = create_or_update_user(
        &mut store,
        &second,
        &"access-2".to_string(),
        &None,
        Some(2000),
        77,
        200,
    );
    assert_eq!(id, 42);
    assert_eq!(store.users.len(), 1);
    let u = &store.users[0];
    assert_eq!(u.name, "Ada L.");
    assert_eq!(u.google_access_token, Some("access-2".to_string()));
    // The refresh token from the first sign-in is kept.
    assert_eq!(u.google_refresh_token, Some("refresh-1".to_string()));
    assert_eq!(u.google_token_expires_at, Some(2000));
    assert_eq!(u.updated_at, 200);
}

#[test]
fn clearing_tokens_empties_the_token_columns() {
    let mut store = EntityStore::new();
    create_or_update_user(
        &mut store,
        &info(),
        &"access-1".to_string(),
        &Some("refresh-1".to_string()),
        Some(999),
        42,
        100,
    );
    clear_user_tokens(&mut store, 42);
    let u = &store.users[0];
    assert_eq!(u.google_access_token, None);
    assert_eq!(u.google_refresh_token, None);
    assert_eq!(u.google_token_expires_at, None);
    assert_eq!(u.name, "Ada");
}

#[test]
fn backup_collects_only_the_owners_live_records() {
    let mut store = EntityStore::new();
    let note = CreateNoteRequest {
        title: "mine".to_string(),
        content: "c".to_string(),
        tags: vec!["x".to_string()],
        is_encrypted: None,
    };
    focusflow::crud::create_note(&mut store, OWNER, 10, note, 100).unwrap();
    let other = CreateNoteRequest {
        title: "theirs".to_string(),
        content: String::new(),
        tags: Vec::new(),
        is_encrypted: None,
    };
    focusflow::crud::create_note(&mut store, 2, 11, other, 100).unwrap();
    let habit = CreateHabitRequest { name: "run".to_string(), color: "red".to_string() };
    focusflow::crud::create_habit(&mut store, OWNER, 30, habit, 100).unwrap();
    focusflow::crud::delete_habit(&mut store, OWNER, 30, 150).unwrap();

    let b = collect_backup(&store, OWNER, 999);
    assert_eq!(b.user_id, OWNER);
    assert_eq!(b.created_at, 999);
    assert_eq!(b.version, "1.0");
    assert_eq!(b.notes.len(), 1);
    assert_eq!(b.notes[0].title, "mine");
    assert_eq!(b.notes[0].tags, vec!["x".to_string()]);
    assert!(b.tasks.is_empty());
    assert!(b.habits.is_empty());
}

#[test]
fn backup_encoding_matches_standard_base64() {
    assert_eq!(encrypt_backup_data(b"hi", "k"), "aGk=");
    assert_eq!(encrypt_backup_data(b"{}", "k"), "e30=");
    assert_eq!(decrypt_backup_data("aGk=", "k").unwrap(), b"hi".to_vec());
}

#[test]
fn backup_encoding_round_trips() {
    let data = b"{\"notes\":[{\"title\":\"T\"}]}";
    let encoded = encrypt_backup_data(data, "ignored-key");
    let decoded = decrypt_backup_data(&encoded, "ignored-key").unwrap();
    assert_eq!(decoded, data.to_vec());
}

#[test]
fn backup_encoding_of_empty_input_round_trips() {
    let encoded = encrypt_backup_data(b"", "k");
    assert_eq!(decrypt_backup_data(&encoded, "k").unwrap(), Vec::<u8>::new());
}

#[test]
fn garbage_backup_text_is_rejected() {
    let err = decrypt_backup_data("!!!not base64!!!", "k").unwrap_err();
    assert!(matches!(err, AppError::GoogleApi(_)));
    assert_eq!(err.http_status(), 502);
}

#[test]
fn refreshed_token_is_stored_on_the_user_row() {
    let mut store = EntityStore::new();
    create_or_update_user(
        &mut store,
        &info(),
        &"access-1".to_string(),
        &Some("refresh-1".to_string()),
        Some(999),
        42,
        100,
    );
    focusflow::auth::update_user_tokens(&mut store, 42, &"access-2".to_string(), Some(5000), 300);
    let u = &store.users[0];
    assert_eq!(u.google_access_token, Some("access-2".to_string()));
    assert_eq!(u.google_token_expires_at, Some(5000));
    assert_eq!(u.google_refresh_token, Some("refresh-1".to_string()));
    assert_eq!(u.updated_at, 300);
    // An unknown user id changes nothing.
    focusflow::auth::update_user_tokens(&mut store, 999, &"x".to_string(), None, 400);
    assert_eq!(store.users.len(), 1);
    assert_eq!(store.users[0].google_access_token, Some("access-2".to_string()));
}

#[test]
fn port_parsing_accepts_plain_numerals_only() {
    assert_eq!(parse_port("3001"), Some(3001));
    assert_eq!(parse_port("0"), Some(0));
    assert_eq!(parse_port("65535"), Some(65535));
    assert_eq!(parse_port("65536"), None);
    assert_eq!(parse_port(""), None);
    assert_eq!(parse_port("80a"), None);
    assert_eq!(parse_port("-1"), None);
}

#[test]
fn config_defaults_fill_absent_values() {
    let c = Config::from_parts(None, None, None, None, None, None, None).unwrap();
    assert_eq!(c.database_url, "postgresql://localhost/focusflow");
    assert_eq!(c.port, 3001);
    assert_eq!(c.google_client_secret, "demo-client-secret");
    assert_eq!(c.frontend_url, "http://localhost:5173");

    let c = Config::from_parts(
        Some("postgresql://db/prod".to_string()),
        Some("8080".to_string()),
        Some("s".to_string()),
        Some("cid".to_string()),
        Some("cs".to_string()),
        Some("uri".to_string()),
        Some("fe".to_string()),
    )
    .unwrap();
    assert_eq!(c.database_url, "postgresql://db/prod");
    assert_eq!(c.port, 8080);

    let err = Config::from_parts(None, Some("eighty".to_string()), None, None, None, None, None)
        .unwrap_err();
    assert!(matches!(err, AppError::Internal(_)));
}

#[test]
fn user_reports_hide_token_material() {
    let mut store = EntityStore::new();
    create_or_update_user(
        &mut store,
        &info(),
        &"access-1".to_string(),
        &Some("refresh-1".to_string()),
        Some(999),
        42,
        100,
    );
    let r = focusflow::store::UserResponse::from_user(&store.users[0]);
    assert_eq!(r.id, 42);
    assert_eq!(r.email, "a@example.com");
    assert_eq!(r.name, "Ada");
    assert_eq!(r.profile_picture, Some("pic".to_string()));
    assert_eq!(r.created_at, 100);
    assert_eq!(r.last_sync_at, None);
}


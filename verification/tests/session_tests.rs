use road_lists::session::{
    cleared_session_cookie, current_timestamp, generate_session_id, session_cookie,
    session_expires_at, session_id_from_bytes, timestamp_from_unix_seconds, SameSite,
    SESSION_DURATION_SECS,
};

#[test]
fn session_id_from_bytes_is_lowercase_hex() {
    assert_eq!(session_id_from_bytes(&[0xbe, 0xef, 0x00, 0x0f, 0xA5]), "beef000fa5");
    assert_eq!(session_id_from_bytes(&[]), "");
    assert_eq!(session_id_from_bytes(b"Hello world!"), "48656c6c6f20776f726c6421");
}

#[test]
fn generated_session_ids_are_64_hex_chars() {
    let a = generate_session_id();
    let b = generate_session_id();
    assert_eq!(a.len(), 64);
    assert!(a.chars().all(|c| c.is_ascii_digit() || ('a'..='f').contains(&c)));
    assert_ne!(a, b);
}

#[test]
fn timestamps_are_casts_of_seconds() {
    assert_eq!(timestamp_from_unix_seconds(Some(1_700_000_000)), Some(1_700_000_000));
    assert_eq!(timestamp_from_unix_seconds(Some(u64::MAX)), Some(-1));
    assert_eq!(timestamp_from_unix_seconds(None), None);
}

#[test]
fn current_timestamp_is_after_2020() {
    let now = current_timestamp().expect("clock before 1970");
    assert!(now > 1_577_836_800);
}

#[test]
fn sessions_last_seven_days() {
    assert_eq!(SESSION_DURATION_SECS, 7 * 24 * 60 * 60);
    assert_eq!(session_expires_at(1_000), 1_000 + 604_800);
    assert_eq!(session_expires_at(-604_800), 0);
}

#[test]
fn session_cookie_attributes() {
    let c = session_cookie("abc".to_string());
    assert_eq!(c.name, "session_id");
    assert_eq!(c.value, "abc");
    assert_eq!(c.path, "/");
    assert!(c.http_only);
    assert!(c.secure);
    assert!(matches!(c.same_site, SameSite::Lax));
    assert_eq!(c.max_age_secs, 604_800);
}

#[test]
fn cleared_cookie_is_empty_and_expired() {
    let c = cleared_session_cookie();
    assert_eq!(c.name, "session_id");
    assert_eq!(c.value, "");
    assert_eq!(c.path, "/");
    assert!(c.http_only);
    assert!(c.secure);
    assert!(matches!(c.same_site, SameSite::Lax));
    assert_eq!(c.max_age_secs, 0);
}

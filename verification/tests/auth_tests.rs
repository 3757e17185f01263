use road_lists::auth::{avatar_url, authorization_header, current_user_profile, database_error, login_start, login_step, new_user_name, session_cookie_value, session_user_id, ApiError, Fetched, LoginAction, LoginEvent, LoginStage, YandexProfile};
use road_lists::records::{Session, User};
use road_lists::session::SameSite;

fn profile(real: Option<&str>, display: Option<&str>, avatar: Option<&str>) -> YandexProfile {
    YandexProfile {
        id: "y-1".to_string(),
        default_email: Some("a@yandex.ru".to_string()),
        real_name: real.map(str::to_string),
        display_name: display.map(str::to_string),
        default_avatar_id: avatar.map(str::to_string),
    }
}

fn assert_error<T: std::fmt::Debug>(r: Result<T, ApiError>, status: u16, message: &str) {
    let e = r.unwrap_err();
    assert_eq!(e.status, status);
    assert_eq!(e.message, message);
}

#[test]
fn missing_cookie_is_not_authenticated() {
    assert_error(session_cookie_value(None), 401, "Not authenticated");
    assert_eq!(session_cookie_value(Some("s1".to_string())).unwrap(), "s1");
}

#[test]
fn session_lookup_outcomes() {
    let s = Session { id: "s".to_string(), user_id: 17, created_at: 0, expires_at: 10 };
    assert_eq!(session_user_id(Fetched::Row(s)).unwrap(), 17);
    assert_error(session_user_id(Fetched::NoRow), 401, "Session expired");
    assert_error(session_user_id(Fetched::Failed), 500, "Database error");
}

#[test]
fn current_user_outcomes() {
    let u = User {
        id: 5,
        yandex_id: "y".to_string(),
        email: Some("e@x".to_string()),
        name: Some("Name".to_string()),
        avatar: None,
        created_at: 1,
    };
    let p = current_user_profile(Fetched::Row(u)).unwrap();
    assert_eq!(p.id, 5);
    assert_eq!(p.name.as_deref(), Some("Name"));
    assert_eq!(p.email.as_deref(), Some("e@x"));
    assert_eq!(p.avatar, None);
    assert_error(current_user_profile(Fetched::NoRow), 401, "User not found");
    assert_error(current_user_profile(Fetched::Failed), 500, "Database error");
}

#[test]
fn database_error_text() {
    let e = database_error();
    assert_eq!((e.status, e.message.as_str()), (500, "Database error"));
}

#[test]
fn new_user_name_prefers_real_then_display_then_user() {
    assert_eq!(new_user_name(&profile(Some("Иван"), Some("ivan"), None)), "Иван");
    assert_eq!(new_user_name(&profile(None, Some("ivan"), None)), "ivan");
    assert_eq!(new_user_name(&profile(None, None, None)), "User");
}

#[test]
fn avatar_address() {
    assert_eq!(
        avatar_url(&Some("123/abc".to_string())).as_deref(),
        Some("https://avatars.yandex.net/get-yapic/123/abc/islands-200")
    );
    assert_eq!(avatar_url(&None), None);
}

#[test]
fn authorization_header_text() {
    assert_eq!(authorization_header(&"tok".to_string()), "OAuth tok");
}

fn step(stage: LoginStage, event: LoginEvent) -> (LoginStage, LoginAction) {
    login_step(stage, event, 1_000)
}

#[test]
fn login_of_a_known_user() {
    let (s, a) = login_start("code-1".to_string());
    assert!(matches!(a, LoginAction::ExchangeCode { ref code } if code == "code-1"));
    let (s, a) = step(s, LoginEvent::CodeExchanged { access_token: Some("t".to_string()) });
    assert!(matches!(a, LoginAction::FetchProfile { ref authorization } if authorization == "OAuth t"));
    let (s, a) = step(s, LoginEvent::ProfileFetched { profile: Some(profile(None, Some("d"), None)) });
    assert!(matches!(a, LoginAction::FindUser { ref yandex_id } if yandex_id == "y-1"));
    let (s, a) = step(s, LoginEvent::UserLookedUp { found: Fetched::Row(9) });
    let stored_id = match a {
        LoginAction::StoreSession { id, user_id, created_at, expires_at } => {
            assert_eq!((user_id, created_at, expires_at), (9, 1_000, 605_800));
            assert_eq!(id.len(), 64);
            id
        }
        other => panic!("unexpected {:?}", other),
    };
    let (s, a) = step(s, LoginEvent::SessionStored { stored: true });
    assert!(matches!(s, LoginStage::Done));
    match a {
        LoginAction::Respond { result: Ok(c) } => {
            assert_eq!(c.value, stored_id);
            assert_eq!(c.name, "session_id");
            assert_eq!(c.max_age_secs, 604_800);
            assert!(matches!(c.same_site, SameSite::Lax));
        }
        other => panic!("unexpected {:?}", other),
    }
}

#[test]
fn login_of_a_new_user() {
    let (s, _) = login_start("c".to_string());
    let (s, _) = step(s, LoginEvent::CodeExchanged { access_token: Some("t".to_string()) });
    let (s, _) = step(s, LoginEvent::ProfileFetched { profile: Some(profile(Some("Пётр"), None, Some("av"))) });
    let (s, a) = step(s, LoginEvent::UserLookedUp { found: Fetched::NoRow });
    match a {
        LoginAction::InsertUser { yandex_id, email, name, avatar, created_at } => {
            assert_eq!(yandex_id, "y-1");
            assert_eq!(email.as_deref(), Some("a@yandex.ru"));
            assert_eq!(name, "Пётр");
            assert_eq!(avatar.as_deref(), Some("https://avatars.yandex.net/get-yapic/av/islands-200"));
            assert_eq!(created_at, 1_000);
        }
        other => panic!("unexpected {:?}", other),
    }
    let (s, a) = step(s, LoginEvent::UserInserted { row_id: Some(33) });
    assert!(matches!(a, LoginAction::StoreSession { user_id: 33, .. }));
    let (s, a) = step(s, LoginEvent::SessionStored { stored: false });
    assert!(matches!(s, LoginStage::Done));
    match a {
        LoginAction::Respond { result: Err(e) } => assert_eq!((e.status, e.message.as_str()), (500, "Session error")),
        other => panic!("unexpected {:?}", other),
    }
}

fn expect_refusal(a: LoginAction, status: u16, message: &str) {
    match a {
        LoginAction::Respond { result: Err(e) } => assert_eq!((e.status, e.message.as_str()), (status, message)),
        other => panic!("unexpected {:?}", other),
    }
}

#[test]
fn login_refusals() {
    let (s, _) = login_start("c".to_string());
    let (_, a) = step(s, LoginEvent::CodeExchanged { access_token: None });
    expect_refusal(a, 400, "OAuth error");

    let (s, a) = step(LoginStage::FetchingProfile, LoginEvent::ProfileFetched { profile: None });
    assert!(matches!(s, LoginStage::Done));
    expect_refusal(a, 400, "User info error");

    let (_, a) = step(
        LoginStage::FindingUser { profile: profile(None, None, None) },
        LoginEvent::UserLookedUp { found: Fetched::Failed },
    );
    expect_refusal(a, 500, "Database error");

    let (_, a) = step(LoginStage::CreatingUser, LoginEvent::UserInserted { row_id: None });
    expect_refusal(a, 500, "Database error");
}

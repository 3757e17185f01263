//! Signing in with Yandex, and finding the user behind a request.

use vstd::prelude::*;
use crate::records::{Session, User};
use crate::session::{
    generate_session_id, is_session_cookie, is_session_id, session_cookie,
    session_expires_at, SessionCookie, SESSION_DURATION_SECS,
};

verus! {

/// HTTP status of a request the client got wrong.
pub const BAD_REQUEST: u16 = 400;
/// HTTP status of a request without a valid session.
pub const UNAUTHORIZED: u16 = 401;
/// HTTP status of a request for a record that does not exist.
pub const NOT_FOUND: u16 = 404;
/// HTTP status of a failure on the server's side.
pub const INTERNAL_SERVER_ERROR: u16 = 500;

/// A refused request: the HTTP status and the message the client gets.
#[derive(Debug)]
pub struct ApiError {
    pub status: u16,
    pub message: String,
}

/// Whether `e` is the refusal with this status and message.
pub open spec fn is_api_error(e: ApiError, status: u16, message: Seq<char>) -> bool {
    e.status == status && e.message@ == message
}

/// The refusal with the given status and message.
pub fn api_error(status: u16, message: &str) -> (e: ApiError)
    ensures
        is_api_error(e, status, message@),
{
    ApiError { status, message: String::from_str(message) }
}

/// The refusal of a request whose database query failed.
pub fn database_error() -> (e: ApiError)
    ensures
        is_api_error(e, INTERNAL_SERVER_ERROR, "Database error"@),
{
    api_error(INTERNAL_SERVER_ERROR, "Database error")
}

/// The outcome of a query for at most one row.
#[derive(Debug)]
pub enum Fetched<T> {
    Row(T),
    NoRow,
    Failed,
}

/// The session id that a request carries in its cookie, or the refusal of a
/// request without one.
pub fn session_cookie_value(cookie: Option<String>) -> (r: Result<String, ApiError>)
    ensures
        cookie matches Some(v) ==> r == Ok::<String, ApiError>(v),
        cookie is None ==> (r matches Err(e) && is_api_error(e, UNAUTHORIZED, "Not authenticated"@)),
{
    match cookie {
        Some(v) => Ok(v),
        None => Err(api_error(UNAUTHORIZED, "Not authenticated")),
    }
}

/// The user that an unexpired session belongs to; a request whose session is
/// unknown or expired is refused, and so is one whose lookup failed.
pub fn session_user_id(found: Fetched<Session>) -> (r: Result<i64, ApiError>)
    ensures
        found matches Fetched::Row(s) ==> r == Ok::<i64, ApiError>(s.user_id),
        found is NoRow ==> (r matches Err(e) && is_api_error(e, UNAUTHORIZED, "Session expired"@)),
        found is Failed ==> (r matches Err(e) && is_api_error(e, INTERNAL_SERVER_ERROR, "Database error"@)),
{
    match found {
        Fetched::Row(s) => Ok(s.user_id),
        Fetched::NoRow => Err(api_error(UNAUTHORIZED, "Session expired")),
        Fetched::Failed => Err(database_error()),
    }
}

/// What the service tells the browser about the signed-in user.
#[derive(Debug)]
pub struct UserProfile {
    pub id: i64,
    pub name: Option<String>,
    pub email: Option<String>,
    pub avatar: Option<String>,
}

/// The profile of the session's user; a session whose user is gone is
/// refused, and so is one whose lookup failed.
pub fn current_user_profile(found: Fetched<User>) -> (r: Result<UserProfile, ApiError>)
    ensures
        found matches Fetched::Row(u) ==> (r matches Ok(p) && p.id == u.id && p.name == u.name
            && p.email == u.email && p.avatar == u.avatar),
        found is NoRow ==> (r matches Err(e) && is_api_error(e, UNAUTHORIZED, "User not found"@)),
        found is Failed ==> (r matches Err(e) && is_api_error(e, INTERNAL_SERVER_ERROR, "Database error"@)),
{
    match found {
        Fetched::Row(u) => Ok(UserProfile { id: u.id, name: u.name, email: u.email, avatar: u.avatar }),
        Fetched::NoRow => Err(api_error(UNAUTHORIZED, "User not found")),
        Fetched::Failed => Err(database_error()),
    }
}

/// What the Yandex ID service tells about the person who signed in.
#[derive(Debug)]
pub struct YandexProfile {
    pub id: String,
    pub default_email: Option<String>,
    pub real_name: Option<String>,
    pub display_name: Option<String>,
    pub default_avatar_id: Option<String>,
}

/// The name given to a new user whose profile names nobody.
pub const DEFAULT_USER_NAME: &'static str = "User";
/// The start of the address of a Yandex avatar.
pub const AVATAR_URL_PREFIX: &'static str = "https://avatars.yandex.net/get-yapic/";
/// The end of the address of a Yandex avatar: its 200-pixel size.
pub const AVATAR_URL_SUFFIX: &'static str = "/islands-200";
/// What the access token is preceded by in the `Authorization` header.
pub const AUTHORIZATION_SCHEME: &'static str = "OAuth ";

/// The text of an optional string.
pub open spec fn opt_view(o: Option<String>) -> Option<Seq<char>> {
    match o {
        Some(s) => Some(s@),
        None => None,
    }
}

/// The name a new user is stored with: the real name, else the display
/// name, else `User`.
pub open spec fn spec_new_user_name(p: YandexProfile) -> Seq<char> {
    match p.real_name {
        Some(n) => n@,
        None => match p.display_name {
            Some(n) => n@,
            None => DEFAULT_USER_NAME@,
        },
    }
}

/// The address of the avatar with the given id.
pub open spec fn spec_avatar_url(id: Seq<char>) -> Seq<char> {
    AVATAR_URL_PREFIX@ + id + AVATAR_URL_SUFFIX@
}

/// The value of the `Authorization` header that presents an access token.
pub open spec fn spec_authorization(token: Seq<char>) -> Seq<char> {
    AUTHORIZATION_SCHEME@ + token
}

/// The name a new user is stored with: the real name, else the display
/// name, else `User`.
pub fn new_user_name(p: &YandexProfile) -> (name: String)
    ensures
        name@ == spec_new_user_name(*p),
{
    match &p.real_name {
        Some(n) => n.clone(),
        None => match &p.display_name {
            Some(n) => n.clone(),
            None => String::from_str(DEFAULT_USER_NAME),
        },
    }
}

/// The address of the avatar with the given id, where there is one.
pub fn avatar_url(avatar_id: &Option<String>) -> (url: Option<String>)
    ensures
        opt_view(url) == (match avatar_id {
            Some(id) => Some(spec_avatar_url(id@)),
            None => None::<Seq<char>>,
        }),
{
    match avatar_id {
        Some(id) => {
            let mut url = String::from_str(AVATAR_URL_PREFIX);
            url.append(id.as_str());
            url.append(AVATAR_URL_SUFFIX);
            Some(url)
        },
        None => None,
    }
}

/// The value of the `Authorization` header that presents an access token.
pub fn authorization_header(access_token: &String) -> (h: String)
    ensures
        h@ == spec_authorization(access_token@),
{
    let mut h = String::from_str(AUTHORIZATION_SCHEME);
    h.append(access_token.as_str());
    h
}

/// Where a sign-in stands: what the service waits for.
#[derive(Debug)]
pub enum LoginStage {
    /// The authorization code is being exchanged for an access token.
    ExchangingCode,
    /// The profile of the person is being fetched with the token.
    FetchingProfile,
    /// The user with the profile's Yandex id is being looked up.
    FindingUser { profile: YandexProfile },
    /// A new user is being stored.
    CreatingUser,
    /// The new session is being stored.
    StoringSession { session_id: String },
    /// The answer has been given.
    Done,
}

/// What the outside work of a sign-in step came back with.
#[derive(Debug)]
pub enum LoginEvent {
    /// The access token, or `None` where the exchange failed.
    CodeExchanged { access_token: Option<String> },
    /// The profile, or `None` where it could not be fetched or read.
    ProfileFetched { profile: Option<YandexProfile> },
    /// The id of the user with the profile's Yandex id.
    UserLookedUp { found: Fetched<i64> },
    /// The row id of the stored user, or `None` where storing failed.
    UserInserted { row_id: Option<i64> },
    /// Whether the session was stored.
    SessionStored { stored: bool },
}

/// The outside work that a sign-in step asks for next.
#[derive(Debug)]
pub enum LoginAction {
    /// Exchange the authorization code for an access token.
    ExchangeCode { code: String },
    /// Fetch the profile, sending this `Authorization` header.
    FetchProfile { authorization: String },
    /// Look up the user with this Yandex id.
    FindUser { yandex_id: String },
    /// Store a new user.
    InsertUser {
        yandex_id: String,
        email: Option<String>,
        name: String,
        avatar: Option<String>,
        created_at: i64,
    },
    /// Store a new session.
    StoreSession { id: String, user_id: i64, created_at: i64, expires_at: i64 },
    /// Answer: set the cookie and send the browser to `/`, or refuse.
    Respond { result: Result<SessionCookie, ApiError> },
}

impl LoginStage {
    /// How many steps at most are left before the answer.
    pub open spec fn steps_left(self) -> nat {
        match self {
            LoginStage::ExchangingCode => 5,
            LoginStage::FetchingProfile => 4,
            LoginStage::FindingUser { .. } => 3,
            LoginStage::CreatingUser => 2,
            LoginStage::StoringSession { .. } => 1,
            LoginStage::Done => 0,
        }
    }

    /// Whether the step from this stage uses the time: the steps that store
    /// a user or a session.
    pub open spec fn reads_clock(self) -> bool {
        self is FindingUser || self is CreatingUser
    }

    /// Whether `e` answers what this stage waits for.
    pub open spec fn expects(self, e: LoginEvent) -> bool {
        match self {
            LoginStage::ExchangingCode => e is CodeExchanged,
            LoginStage::FetchingProfile => e is ProfileFetched,
            LoginStage::FindingUser { .. } => e is UserLookedUp,
            LoginStage::CreatingUser => e is UserInserted,
            LoginStage::StoringSession { .. } => e is SessionStored,
            LoginStage::Done => false,
        }
    }
}

/// Whether `next` and `action` are what a step from `stage` on `event`, at
/// time `now`, leads to.
pub open spec fn login_transition(
    stage: LoginStage,
    event: LoginEvent,
    now: i64,
    next: LoginStage,
    action: LoginAction,
) -> bool {
    match (stage, event) {
        (LoginStage::ExchangingCode, LoginEvent::CodeExchanged { access_token }) => match access_token {
            Some(t) => next is FetchingProfile && (action matches LoginAction::FetchProfile { authorization }
                && authorization@ == spec_authorization(t@)),
            None => next is Done && (action matches LoginAction::Respond { result: Err(e) }
                && is_api_error(e, BAD_REQUEST, "OAuth error"@)),
        },
        (LoginStage::FetchingProfile, LoginEvent::ProfileFetched { profile }) => match profile {
            Some(p) => next == (LoginStage::FindingUser { profile: p }) && (action matches LoginAction::FindUser { yandex_id }
                && yandex_id == p.id),
            None => next is Done && (action matches LoginAction::Respond { result: Err(e) }
                && is_api_error(e, BAD_REQUEST, "User info error"@)),
        },
        (LoginStage::FindingUser { profile }, LoginEvent::UserLookedUp { found }) => match found {
            Fetched::Row(uid) => next matches LoginStage::StoringSession { session_id }
                && is_session_id(session_id@)
                && (action matches LoginAction::StoreSession { id, user_id: u, created_at, expires_at }
                    && id == session_id && u == uid && created_at == now
                    && expires_at == now + SESSION_DURATION_SECS),
            Fetched::NoRow => next is CreatingUser && (action matches LoginAction::InsertUser {
                yandex_id, email, name, avatar, created_at }
                && yandex_id == profile.id && email == profile.default_email
                && name@ == spec_new_user_name(profile)
                && opt_view(avatar) == (match profile.default_avatar_id {
                    Some(id) => Some(spec_avatar_url(id@)),
                    None => None::<Seq<char>>,
                })
                && created_at == now),
            Fetched::Failed => next is Done && (action matches LoginAction::Respond { result: Err(e) }
                && is_api_error(e, INTERNAL_SERVER_ERROR, "Database error"@)),
        },
        (LoginStage::CreatingUser, LoginEvent::UserInserted { row_id }) => match row_id {
            Some(uid) => next matches LoginStage::StoringSession { session_id }
                && is_session_id(session_id@)
                && (action matches LoginAction::StoreSession { id, user_id: u, created_at, expires_at }
                    && id == session_id && u == uid && created_at == now
                    && expires_at == now + SESSION_DURATION_SECS),
            None => next is Done && (action matches LoginAction::Respond { result: Err(e) }
                && is_api_error(e, INTERNAL_SERVER_ERROR, "Database error"@)),
        },
        (LoginStage::StoringSession { session_id }, LoginEvent::SessionStored { stored }) => next is Done
            && if stored {
                action matches LoginAction::Respond { result: Ok(c) }
                    && is_session_cookie(c, session_id@, SESSION_DURATION_SECS as int)
            } else {
                action matches LoginAction::Respond { result: Err(e) }
                    && is_api_error(e, INTERNAL_SERVER_ERROR, "Session error"@)
            },
        _ => false,
    }
}

/// The first step of a sign-in: exchange the code that Yandex sent back.
pub fn login_start(code: String) -> (r: (LoginStage, LoginAction))
    ensures
        r.0 is ExchangingCode,
        r.1 == (LoginAction::ExchangeCode { code }),
{
    (LoginStage::ExchangingCode, LoginAction::ExchangeCode { code })
}

/// The opening of a session for a user: a fresh id, and an expiry seven days
/// from now.
fn open_session(user_id: i64, now: i64) -> (r: (LoginStage, LoginAction))
    requires
        now + SESSION_DURATION_SECS <= i64::MAX,
    ensures
        r.0 matches LoginStage::StoringSession { session_id } && is_session_id(session_id@)
            && (r.1 matches LoginAction::StoreSession { id, user_id: u, created_at, expires_at }
                && id == session_id && u == user_id && created_at == now
                && expires_at == now + SESSION_DURATION_SECS),
{
    let session_id = generate_session_id();
    let expires_at = session_expires_at(now);
    let stored = session_id.clone();
    (LoginStage::StoringSession { session_id }, LoginAction::StoreSession {
        id: stored,
        user_id,
        created_at: now,
        expires_at,
    })
}

/// One step of a sign-in: from where it stands and what the last outside
/// work came back with, to where it stands next and what to do next. `now`
/// is the time, read for the steps that store a user or a session.
#[verifier::rlimit(30)]
pub fn login_step(stage: LoginStage, event: LoginEvent, now: i64) -> (r: (LoginStage, LoginAction))
    requires
        stage.expects(event),
        stage.reads_clock() ==> now + SESSION_DURATION_SECS <= i64::MAX,
    ensures
        login_transition(stage, event, now, r.0, r.1),
{
    match (stage, event) {
        (LoginStage::ExchangingCode, LoginEvent::CodeExchanged { access_token }) => match access_token {
            Some(t) => (LoginStage::FetchingProfile, LoginAction::FetchProfile {
                authorization: authorization_header(&t),
            }),
            None => (LoginStage::Done, LoginAction::Respond {
                result: Err(api_error(BAD_REQUEST, "OAuth error")),
            }),
        },
        (LoginStage::FetchingProfile, LoginEvent::ProfileFetched { profile }) => match profile {
            Some(p) => {
                let yandex_id = p.id.clone();
                (LoginStage::FindingUser { profile: p }, LoginAction::FindUser { yandex_id })
            },
            None => (LoginStage::Done, LoginAction::Respond {
                result: Err(api_error(BAD_REQUEST, "User info error")),
            }),
        },
        (LoginStage::FindingUser { profile }, LoginEvent::UserLookedUp { found }) => match found {
            Fetched::Row(uid) => open_session(uid, now),
            Fetched::NoRow => {
                let name = new_user_name(&profile);
                let avatar = avatar_url(&profile.default_avatar_id);
                (LoginStage::CreatingUser, LoginAction::InsertUser {
                    yandex_id: profile.id,
                    email: profile.default_email,
                    name,
                    avatar,
                    created_at: now,
                })
            },
            Fetched::Failed => (LoginStage::Done, LoginAction::Respond { result: Err(database_error()) }),
        },
        (LoginStage::CreatingUser, LoginEvent::UserInserted { row_id }) => match row_id {
            Some(uid) => open_session(uid, now),
            None => (LoginStage::Done, LoginAction::Respond { result: Err(database_error()) }),
        },
        (LoginStage::StoringSession { session_id }, LoginEvent::SessionStored { stored }) => {
            if stored {
                (LoginStage::Done, LoginAction::Respond { result: Ok(session_cookie(session_id)) })
            } else {
                (LoginStage::Done, LoginAction::Respond {
                    result: Err(api_error(INTERNAL_SERVER_ERROR, "Session error")),
                })
            }
        },
        _ => {
            proof {
                assert(false);
            }
            (LoginStage::Done, LoginAction::Respond { result: Err(database_error()) })
        },
    }
}

/// Each step of a sign-in brings it closer to its answer, and a step answers
/// exactly when it ends the sign-in; so every sign-in answers within five
/// steps, and answers once.
pub proof fn lemma_login_progress(
    stage: LoginStage,
    event: LoginEvent,
    now: i64,
    next: LoginStage,
    action: LoginAction,
)
    requires
        login_transition(stage, event, now, next, action),
    ensures
        next.steps_left() < stage.steps_left(),
        (action is Respond) <==> (next is Done),
{
}

/// A sign-in that ends with a cookie ends right after storing a session, and
/// the cookie carries that session's id and lives exactly as long as that
/// session.
pub proof fn lemma_login_cookie_is_stored_session(
    s0: LoginStage,
    e0: LoginEvent,
    now0: i64,
    s1: LoginStage,
    a1: LoginAction,
    e1: LoginEvent,
    now1: i64,
    s2: LoginStage,
    a2: LoginAction,
)
    requires
        login_transition(s0, e0, now0, s1, a1),
        login_transition(s1, e1, now1, s2, a2),
        a2 matches LoginAction::Respond { result: Ok(_) },
    ensures
        a1 matches LoginAction::StoreSession { id, created_at, expires_at, .. } && (a2 matches LoginAction::Respond {
            result: Ok(c) }
            && c.value@ == id@
            && is_session_id(id@)
            && c.max_age_secs == expires_at - created_at),
{
}

/// A new user is stored with the whole real name where the profile has one,
/// else the whole display name where it has one, else "User"; with the
/// profile's Yandex id and e-mail, and with the avatar address built from
/// the profile's avatar id where it has one.
pub proof fn lemma_new_user_from_profile(
    profile: YandexProfile,
    now: i64,
    next: LoginStage,
    action: LoginAction,
)
    requires
        login_transition(
            LoginStage::FindingUser { profile },
            LoginEvent::UserLookedUp { found: Fetched::NoRow },
            now,
            next,
            action,
        ),
    ensures
        action matches LoginAction::InsertUser { yandex_id, email, name, avatar, created_at } && {
            &&& profile.real_name matches Some(n) ==> name@ == n@
            &&& profile.real_name is None ==> (profile.display_name matches Some(n) ==> name@ == n@)
            &&& (profile.real_name is None && profile.display_name is None) ==> name@ == "User"@
            &&& yandex_id == profile.id
            &&& email == profile.default_email
            &&& (profile.default_avatar_id matches Some(id) ==> (avatar matches Some(u)
                && u@ == "https://avatars.yandex.net/get-yapic/"@ + id@ + "/islands-200"@))
            &&& (profile.default_avatar_id is None ==> avatar is None)
            &&& created_at == now
        },
{
}

/// A sign-in whose code was exchanged fetches the profile presenting the
/// access token as `OAuth <token>`; one whose exchange failed is refused as a
/// bad request with "OAuth error".
pub proof fn lemma_login_presents_token(
    access_token: Option<String>,
    now: i64,
    next: LoginStage,
    action: LoginAction,
)
    requires
        login_transition(LoginStage::ExchangingCode, LoginEvent::CodeExchanged { access_token }, now, next, action),
    ensures
        access_token matches Some(t) ==> (action matches LoginAction::FetchProfile { authorization }
            && authorization@ == "OAuth "@ + t@),
        access_token is None ==> (action matches LoginAction::Respond { result: Err(e) } && e.status == 400
            && e.message@ == "OAuth error"@),
{
}

} // verus!

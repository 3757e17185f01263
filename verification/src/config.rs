//! Where the service listens, and the addresses it talks to.

use vstd::prelude::*;

verus! {

/// The address the service is reached at where `BASE_URL` is not set.
pub const DEFAULT_BASE_URL: &'static str = "http://localhost:3000";
/// The port the service listens on where `PORT` is not set.
pub const DEFAULT_PORT: &'static str = "3000";
/// The path Yandex sends the browser back to after sign-in.
pub const CALLBACK_PATH: &'static str = "/auth/yandex/callback";
/// The host part of the address the service listens on: every interface.
pub const LISTEN_HOST: &'static str = "0.0.0.0:";
/// Yandex's authorization page.
pub const YANDEX_AUTH_URL: &'static str = "https://oauth.yandex.ru/authorize";
/// Yandex's token endpoint.
pub const YANDEX_TOKEN_URL: &'static str = "https://oauth.yandex.ru/token";
/// Where the profile of the signed-in person is fetched.
pub const YANDEX_USER_INFO_URL: &'static str = "https://login.yandex.ru/info?format=json";
/// The scopes the sign-in asks for: the e-mail address and the profile.
pub const YANDEX_SCOPES: [&'static str; 2] = ["login:email", "login:info"];
/// The SQLite database, created where missing.
pub const DATABASE_URL: &'static str = "sqlite:data/road_lists.db?mode=rwc";
/// How many connections to the database are kept at most.
pub const MAX_DB_CONNECTIONS: u32 = 5;

/// The setting given, or the default where it is not set.
pub fn setting_or(value: Option<String>, default: &str) -> (s: String)
    ensures
        value matches Some(v) ==> s == v,
        value is None ==> s@ == default@,
{
    match value {
        Some(v) => v,
        None => String::from_str(default),
    }
}

/// The address Yandex sends the browser back to: the service's address and
/// the callback path.
pub fn callback_url(base_url: &String) -> (url: String)
    ensures
        url@ == base_url@ + CALLBACK_PATH@,
{
    let mut url = base_url.clone();
    url.append(CALLBACK_PATH);
    url
}

/// The address the service listens on: every interface, the given port.
pub fn listen_address(port: &String) -> (addr: String)
    ensures
        addr@ == LISTEN_HOST@ + port@,
{
    let mut addr = String::from_str(LISTEN_HOST);
    addr.append(port.as_str());
    addr
}

} // verus!

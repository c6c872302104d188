//! Logging in through a platform account: the redirect to the platform, and
//! the checks on the way back.
use vstd::prelude::*;
use crate::error::{api_error, ApiError, ApiErrorCode, StatusCode};
use crate::ids::Id;
use crate::text::{push_str, string_of};

verus! {

/// The platforms accounts come from.
#[derive(Clone, Copy, Debug, PartialEq, Eq, Structural)]
pub enum Platform {
    Twitch,
    Discord,
    Google,
    Kick,
}

/// The name a platform goes by in URLs.
pub open spec fn platform_name(p: Platform) -> Seq<char> {
    match p {
        Platform::Twitch => "twitch"@,
        Platform::Discord => "discord"@,
        Platform::Google => "google"@,
        Platform::Kick => "kick"@,
    }
}

/// The name a platform goes by in URLs.
pub fn platform_str(p: Platform) -> (r: &'static str)
    ensures
        r@ == platform_name(p),
{
    match p {
        Platform::Twitch => "twitch",
        Platform::Discord => "discord",
        Platform::Google => "google",
        Platform::Kick => "kick",
    }
}

/// A character `urlencoding::encode` leaves as it is.
pub open spec fn unreserved(c: char) -> bool {
    ('a' <= c <= 'z') || ('A' <= c <= 'Z') || ('0' <= c <= '9') || c == '-' || c == '_' || c == '.' || c == '~'
}

/// The UTF-8 bytes of a character.
pub open spec fn utf8_bytes(c: char) -> Seq<u8> {
    let n = c as u32;
    if n < 0x80 {
        seq![n as u8]
    } else if n < 0x800 {
        seq![(0xc0 + n / 64) as u8, (0x80 + n % 64) as u8]
    } else if n < 0x10000 {
        seq![(0xe0 + n / 4096) as u8, (0x80 + (n / 64) % 64) as u8, (0x80 + n % 64) as u8]
    } else {
        seq![(0xf0 + n / 262144) as u8, (0x80 + (n / 4096) % 64) as u8, (0x80 + (n / 64) % 64) as u8, (0x80 + n % 64) as u8]
    }
}

/// An upper-case hexadecimal digit.
pub open spec fn hex_digit(d: u8) -> char {
    if d < 10 { (48 + d) as char } else { (55 + d) as char }
}

/// How `urlencoding::encode` writes one byte: a kept ASCII character as it
/// is, any other byte as `%` and two upper-case hexadecimal digits.
pub open spec fn encode_byte(b: u8) -> Seq<char> {
    if b < 0x80 && unreserved(b as char) {
        seq![b as char]
    } else {
        seq!['%', hex_digit(b / 16), hex_digit(b % 16)]
    }
}

/// The encoding of a sequence of bytes, byte by byte.
pub open spec fn encode_bytes(bs: Seq<u8>) -> Seq<char>
    decreases bs.len(),
{
    if bs.len() == 0 {
        Seq::empty()
    } else {
        encode_bytes(bs.drop_last()) + encode_byte(bs.last())
    }
}

/// The percent-encoding `urlencoding::encode` gives of a text: the
/// encoding of the UTF-8 bytes of each character, in order.
pub open spec fn url_encoded(s: Seq<char>) -> Seq<char>
    decreases s.len(),
{
    if s.len() == 0 {
        Seq::empty()
    } else {
        url_encoded(s.drop_last()) + encode_bytes(utf8_bytes(s.last()))
    }
}

/// Percent-encodes with `urlencoding::encode`, which encodes the UTF-8
/// bytes of the text one by one: ASCII letters, digits, `-`, `_`, `.` and
/// `~` stay as they are, every other byte becomes `%` and two upper-case
/// hexadecimal digits.
#[verifier::external_body]
fn url_encode(s: &str) -> (r: String)
    ensures
        r@ == url_encoded(s@),
{
    urlencoding::encode(s).into_owned()
}

/// A text made only of characters that `urlencoding::encode` keeps is left
/// as it is.
pub proof fn unreserved_text_is_kept(s: Seq<char>)
    requires
        forall|i: int| 0 <= i < s.len() ==> #[trigger] unreserved(s[i]),
    ensures
        url_encoded(s) == s,
    decreases s.len(),
{
    if s.len() > 0 {
        let c = s.last();
        assert(unreserved(s[s.len() - 1]));
        unreserved_text_is_kept(s.drop_last());
        let b = (c as u32) as u8;
        assert((c as u32) < 0x80);
        assert(b as char == c);
        assert(seq![b].drop_last() =~= Seq::<u8>::empty());
        assert(encode_bytes(Seq::<u8>::empty()) == Seq::<char>::empty());
        assert(encode_bytes(seq![b]) =~= Seq::<char>::empty() + encode_byte(b));
        assert(encode_bytes(seq![b]) =~= seq![c]);
        assert(s.drop_last() + seq![c] =~= s);
    }
}

/// The client ids the API holds for each platform.
#[derive(Clone, Debug)]
pub struct ConnectionsConfig {
    pub twitch_client_id: String,
    pub discord_client_id: String,
    pub google_client_id: String,
}

pub open spec fn auth_url(p: Platform) -> Seq<char> {
    match p {
        Platform::Twitch => "https://id.twitch.tv/oauth2/authorize?"@,
        Platform::Discord => "https://discord.com/oauth2/authorize?"@,
        _ => "https://accounts.google.com/o/oauth2/v2/auth?access_type=offline&include_granted_scopes=true&"@,
    }
}

pub open spec fn auth_scope(p: Platform) -> Seq<char> {
    match p {
        Platform::Twitch => ""@,
        Platform::Discord => "identify"@,
        _ => "https://www.googleapis.com/auth/youtube.readonly"@,
    }
}

pub open spec fn client_id_of(c: ConnectionsConfig, p: Platform) -> Seq<char> {
    match p {
        Platform::Twitch => c.twitch_client_id@,
        Platform::Discord => c.discord_client_id@,
        _ => c.google_client_id@,
    }
}

/// The address a platform sends the user back to.
pub open spec fn callback_uri(base_url: Seq<char>, p: Platform) -> Seq<char> {
    base_url + "/v3/auth?callback=true&platform="@ + platform_name(p)
}

/// The address a login request is sent to on the platform.
pub open spec fn login_location(c: ConnectionsConfig, base_url: Seq<char>, p: Platform, state: Seq<char>) -> Seq<char> {
    auth_url(p) + "client_id="@ + client_id_of(c, p) + "&redirect_uri="@ + url_encoded(callback_uri(base_url, p))
        + "&response_type=code&scope="@ + url_encoded(auth_scope(p)) + "&state="@ + state
}

/// The address a login request is sent to: the platform's authorization
/// page, with the API's client id, the encoded callback address and scope,
/// and the CSRF state. Kick is not supported.
pub fn login_redirect(config: &ConnectionsConfig, base_url: &str, platform: Platform, state: &str) -> (r: Result<String, ApiError>)
    ensures
        platform == Platform::Kick ==> r == Err::<String, ApiError>(api_error(StatusCode::BadRequest, ApiErrorCode::BadRequest, "unsupported platform")),
        platform != Platform::Kick ==> (r matches Ok(s) && s@ == login_location(*config, base_url@, platform, state@)),
{
    let (url, scope, client_id) = match platform {
        Platform::Twitch => ("https://id.twitch.tv/oauth2/authorize?", "", config.twitch_client_id.as_str()),
        Platform::Discord => ("https://discord.com/oauth2/authorize?", "identify", config.discord_client_id.as_str()),
        Platform::Google => (
            "https://accounts.google.com/o/oauth2/v2/auth?access_type=offline&include_granted_scopes=true&",
            "https://www.googleapis.com/auth/youtube.readonly",
            config.google_client_id.as_str(),
        ),
        Platform::Kick => {
            return Err(ApiError::bad_request(ApiErrorCode::BadRequest, "unsupported platform"));
        },
    };
    let mut redirect: Vec<char> = Vec::new();
    push_str(&mut redirect, base_url);
    push_str(&mut redirect, "/v3/auth?callback=true&platform=");
    push_str(&mut redirect, platform_str(platform));
    let redirect = string_of(&redirect);
    let mut out: Vec<char> = Vec::new();
    push_str(&mut out, url);
    push_str(&mut out, "client_id=");
    push_str(&mut out, client_id);
    push_str(&mut out, "&redirect_uri=");
    push_str(&mut out, url_encode(redirect.as_str()).as_str());
    push_str(&mut out, "&response_type=code&scope=");
    push_str(&mut out, url_encode(scope).as_str());
    push_str(&mut out, "&state=");
    push_str(&mut out, state);
    Ok(string_of(&out))
}

/// The query and cookie values a login callback must carry, in the order
/// they are checked.
pub fn check_callback_params(code: &Option<String>, state: &Option<String>, csrf_cookie: &Option<String>, csrf_valid: bool) -> (r: Result<(), ApiError>)
    ensures
        r == (if code is None {
            Err(api_error(StatusCode::BadRequest, ApiErrorCode::BadRequest, "missing code"))
        } else if state is None {
            Err(api_error(StatusCode::BadRequest, ApiErrorCode::BadRequest, "missing state"))
        } else if csrf_cookie is None {
            Err(api_error(StatusCode::BadRequest, ApiErrorCode::BadRequest, "missing csrf cookie"))
        } else if !csrf_valid {
            Err(api_error(StatusCode::BadRequest, ApiErrorCode::BadRequest, "invalid csrf"))
        } else {
            Ok(())
        }),
{
    if code.is_none() {
        Err(ApiError::bad_request(ApiErrorCode::BadRequest, "missing code"))
    } else if state.is_none() {
        Err(ApiError::bad_request(ApiErrorCode::BadRequest, "missing state"))
    } else if csrf_cookie.is_none() {
        Err(ApiError::bad_request(ApiErrorCode::BadRequest, "missing csrf cookie"))
    } else if !csrf_valid {
        Err(ApiError::bad_request(ApiErrorCode::BadRequest, "invalid csrf"))
    } else {
        Ok(())
    }
}

/// The checks on the connection a callback found or created: it must belong
/// to the user, and the check on login ability as the callback makes it.
/// Note that the "login disabled" refusal comes when the connection
/// allows login and no user is linking it, the reverse of what its message
/// says.
pub fn check_callback_connection(connection_user_id: Id, user_id: Id, allow_login: bool, linking_user: Option<Id>) -> (r: Result<(), ApiError>)
    ensures
        r == (if connection_user_id != user_id {
            Err(api_error(StatusCode::BadRequest, ApiErrorCode::BadRequest, "connection already connected to another account"))
        } else if allow_login && linking_user is None {
            Err(api_error(StatusCode::BadRequest, ApiErrorCode::BadRequest, "connection has login disabled"))
        } else {
            Ok(())
        }),
{
    if connection_user_id != user_id {
        Err(ApiError::bad_request(ApiErrorCode::BadRequest, "connection already connected to another account"))
    } else if allow_login && linking_user.is_none() {
        Err(ApiError::bad_request(ApiErrorCode::BadRequest, "connection has login disabled"))
    } else {
        Ok(())
    }
}

/// How long a new login session lasts, in milliseconds: thirty days.
pub const SESSION_LIFETIME_MS: i64 = 2_592_000_000;

/// When a session opened at `now` (milliseconds) expires.
pub fn session_expiry(now: i64) -> (r: i64)
    requires
        now <= i64::MAX - SESSION_LIFETIME_MS,
    ensures
        r == now + SESSION_LIFETIME_MS,
{
    now + SESSION_LIFETIME_MS
}

/// Where a finished login sends the user: the callback page with the
/// platform, and the new token when a session was opened.
pub open spec fn finish_location(callback_url: Seq<char>, p: Platform, token: Option<Seq<char>>) -> Seq<char> {
    match token {
        Some(t) => callback_url + "?platform="@ + platform_name(p) + "&token="@ + t,
        None => callback_url + "?platform="@ + platform_name(p),
    }
}

/// Where a finished login sends the user.
pub fn callback_redirect(callback_url: &str, platform: Platform, token: &Option<String>) -> (r: String)
    ensures
        r@ == finish_location(callback_url@, platform, match token {
            Some(t) => Some(t@),
            None => None,
        }),
{
    let mut out: Vec<char> = Vec::new();
    push_str(&mut out, callback_url);
    push_str(&mut out, "?platform=");
    push_str(&mut out, platform_str(platform));
    if let Some(t) = token {
        push_str(&mut out, "&token=");
        push_str(&mut out, t.as_str());
    }
    string_of(&out)
}

} // verus!

//! Sessions: who a request acts for, and how the session middleware treats
//! the token a request carries.
use std::sync::Arc;
use vstd::prelude::*;
use crate::error::{api_error, ApiError, ApiErrorCode, StatusCode};
use crate::ids::Id;
use crate::ip::IpAddress;
use crate::permissions::{permission, Permission, PermissionKind, Permissions, FLAG_HIDDEN, USER_VIEW_HIDDEN};
use crate::text::{chars_of, has_prefix, same_text, starts_with, string_of};

verus! {

/// A stored login session.
#[derive(Clone, Copy, Debug)]
pub struct UserSession {
    pub id: Id,
    pub user_id: Id,
    pub expires_at: i64,
    pub last_used_at: i64,
}

/// A user with the permissions computed for them.
#[derive(Clone, Copy, Debug)]
pub struct FullUser {
    pub id: Id,
    pub permissions: Permissions,
}

impl FullUser {
    pub fn has(&self, p: Permission) -> (r: bool)
        ensures
            r == self.permissions.grants(p),
    {
        self.permissions.has(p)
    }
}

/// Whom a request acts for.
#[derive(Clone, Copy, Debug)]
pub enum AuthState {
    Authenticated { session: UserSession, user: FullUser },
    Unauthenticated { default: Permissions },
}

/// The session of a request: who it acts for, and the client address.
#[derive(Clone, Debug)]
pub struct Session(pub Arc<AuthState>, pub IpAddress);

pub open spec fn login_required() -> ApiError {
    api_error(StatusCode::Unauthorized, ApiErrorCode::LoginRequired, "you are not logged in")
}

impl Session {
    pub open spec fn state(&self) -> AuthState {
        *self.0
    }

    /// The permissions the request acts with: the user's, or the defaults.
    pub open spec fn perms(&self) -> Permissions {
        match self.state() {
            AuthState::Authenticated { user, .. } => user.permissions,
            AuthState::Unauthenticated { default } => default,
        }
    }

    pub open spec fn uid(&self) -> Option<Id> {
        match self.state() {
            AuthState::Authenticated { user, .. } => Some(user.id),
            AuthState::Unauthenticated { .. } => None,
        }
    }

    pub fn new(state: AuthState, ip: IpAddress) -> (s: Session)
        ensures
            s.state() == state,
            s.1 == ip,
    {
        Session(Arc::new(state), ip)
    }

    /// The logged-in user's id.
    pub fn user_id(&self) -> (r: Option<Id>)
        ensures
            r == self.uid(),
    {
        match &*self.0 {
            AuthState::Authenticated { user, .. } => Some(user.id),
            AuthState::Unauthenticated { .. } => None,
        }
    }

    /// Whether the request may see `user`: users that are not hidden, hidden
    /// users for those who may view hidden users, and oneself.
    pub fn can_view(&self, user: &FullUser) -> (r: bool)
        ensures
            r == (!user.permissions.grants(permission(PermissionKind::Flag, FLAG_HIDDEN)) || self.perms().grants(
                permission(PermissionKind::User, USER_VIEW_HIDDEN),
            ) || Some(user.id) == self.uid()),
    {
        !user.has(Permission { kind: PermissionKind::Flag, bits: FLAG_HIDDEN }) || self.has(
            Permission { kind: PermissionKind::User, bits: USER_VIEW_HIDDEN },
        ) || Some(user.id) == self.user_id()
    }

    /// The login session, when logged in.
    pub fn user_session(&self) -> (r: Option<UserSession>)
        ensures
            r == (match self.state() {
                AuthState::Authenticated { session, .. } => Some(session),
                _ => None,
            }),
    {
        match &*self.0 {
            AuthState::Authenticated { session, .. } => Some(*session),
            _ => None,
        }
    }

    /// The login session's id, when logged in.
    pub fn user_session_id(&self) -> (r: Option<Id>)
        ensures
            r == (match self.state() {
                AuthState::Authenticated { session, .. } => Some(session.id),
                _ => None,
            }),
    {
        match self.user_session() {
            Some(s) => Some(s.id),
            None => None,
        }
    }

    /// The client address.
    pub fn ip(&self) -> (r: IpAddress)
        ensures
            r == self.1,
    {
        self.1
    }

    /// The logged-in user; refused when not logged in.
    pub fn user(&self) -> (r: Result<FullUser, ApiError>)
        ensures
            r == (match self.state() {
                AuthState::Authenticated { user, .. } => Ok::<FullUser, ApiError>(user),
                AuthState::Unauthenticated { .. } => Err(login_required()),
            }),
    {
        match &*self.0 {
            AuthState::Authenticated { user, .. } => Ok(*user),
            AuthState::Unauthenticated { .. } => Err(ApiError::unauthorized(ApiErrorCode::LoginRequired, "you are not logged in")),
        }
    }

    /// The permissions the request acts with.
    pub fn permissions(&self) -> (r: Permissions)
        ensures
            r == self.perms(),
    {
        match &*self.0 {
            AuthState::Authenticated { user, .. } => user.permissions,
            AuthState::Unauthenticated { default } => *default,
        }
    }

    /// Whether the request's permissions grant `p`.
    pub fn has(&self, p: Permission) -> (r: bool)
        ensures
            r == self.perms().grants(p),
    {
        let perms = self.permissions();
        perms.has(p)
    }

    /// Whether the request's permissions refuse `p`.
    pub fn denied(&self, p: Permission) -> (r: bool)
        ensures
            r == self.perms().refuses(p),
    {
        let perms = self.permissions();
        perms.denied(p)
    }
}

/// The middleware that settles the session of each request.
#[derive(Clone, Debug)]
pub struct SessionMiddleware<G>(pub Arc<G>);

/// The middleware at work in front of an inner service.
#[derive(Clone, Debug)]
pub struct SessionMiddlewareService<S, G> {
    pub inner: S,
    pub global: Arc<G>,
}

impl<G> SessionMiddleware<G> {
    pub fn new(global: Arc<G>) -> (m: SessionMiddleware<G>)
        ensures
            m.0 == global,
    {
        SessionMiddleware(global)
    }

    /// Puts the middleware in front of a service.
    pub fn layer<S>(&self, inner: S) -> (r: SessionMiddlewareService<S, G>)
        ensures
            r.inner == inner,
            r.global == self.0,
    {
        SessionMiddlewareService { inner, global: Arc::clone(&self.0) }
    }
}

impl<S, G> SessionMiddlewareService<S, G> {
    /// The session token a request carries: the auth cookie's value, else
    /// the `Authorization` header's value without its `Bearer ` prefixes.
    pub fn request_token(auth_cookie: Option<&str>, authorization: Option<&str>) -> (r: Option<String>)
        ensures
            match r {
                Some(t) => match auth_cookie {
                    Some(c) => t@ == c@,
                    None => authorization matches Some(h) && t@ == strip_leading(h@, "Bearer "@),
                },
                None => auth_cookie is None && authorization is None,
            },
    {
        match auth_cookie {
            Some(c) => Some(c.to_owned()),
            None => match authorization {
                Some(h) => Some(bearer_token(h)),
                None => None,
            },
        }
    }
}

/// Whether a request is a login request: a GET of `/v3/auth` or of a path
/// below it. A failed authentication does not stop such a request.
pub open spec fn is_v3_auth(path: Seq<char>, is_get: bool) -> bool {
    (path == "/v3/auth"@ || has_prefix(path, "/v3/auth/"@)) && is_get
}

/// Whether a request is a login request.
pub fn request_is_v3_auth(path: &str, is_get: bool) -> (r: bool)
    ensures
        r == is_v3_auth(path@, is_get),
{
    let p = chars_of(path);
    let exact = chars_of("/v3/auth");
    let below = chars_of("/v3/auth/");
    (same_text(&p, &exact) || starts_with(&p, &below)) && is_get
}

/// `s` with every leading copy of `prefix` removed, as
/// `str::trim_start_matches` does with a non-empty pattern.
pub open spec fn strip_leading(s: Seq<char>, prefix: Seq<char>) -> Seq<char>
    decreases s.len(),
{
    if prefix.len() > 0 && has_prefix(s, prefix) {
        strip_leading(s.subrange(prefix.len() as int, s.len() as int), prefix)
    } else {
        s
    }
}

/// `s` with every leading copy of `prefix` removed.
pub fn trim_start_matches(s: &Vec<char>, prefix: &Vec<char>) -> (r: Vec<char>)
    ensures
        r@ == strip_leading(s@, prefix@),
{
    let mut start: usize = 0;
    let mut rest: Vec<char> = s.clone();
    assert(rest@ == s@.subrange(0, s@.len() as int));
    while prefix.len() > 0 && starts_with(&rest, prefix)
        invariant
            start <= s@.len(),
            rest@ == s@.subrange(start as int, s@.len() as int),
            strip_leading(rest@, prefix@) == strip_leading(s@, prefix@),
        decreases rest@.len(),
    {
        assert(has_prefix(rest@, prefix@));
        assert(start + prefix@.len() <= s@.len());
        let plen = prefix.len();
        let slen = s.len();
        assert(start + plen <= slen);
        let mut next: Vec<char> = Vec::new();
        let mut i: usize = start + plen;
        let from = i;
        while i < s.len()
            invariant
                from <= i <= s@.len(),
                next@ == s@.subrange(from as int, i as int),
            decreases s@.len() - i,
        {
            next.push(s[i]);
            i = i + 1;
            assert(next@ =~= s@.subrange(from as int, i as int));
        }
        assert(rest@.subrange(prefix@.len() as int, rest@.len() as int) =~= next@);
        start = from;
        rest = next;
    }
    rest
}

/// The token in an `Authorization` header value: the value with every
/// leading `"Bearer "` removed.
pub fn bearer_token(header: &str) -> (r: String)
    ensures
        r@ == strip_leading(header@, "Bearer "@),
{
    let h = chars_of(header);
    let p = chars_of("Bearer ");
    let t = trim_start_matches(&h, &p);
    string_of(&t)
}

/// `s` with every leading and trailing `c` removed, as `str::trim_matches`
/// does with one character.
pub open spec fn trim_char(s: Seq<char>, c: char) -> Seq<char>
    decreases s.len(),
{
    if s.len() > 0 && s[0] == c {
        trim_char(s.subrange(1, s.len() as int), c)
    } else if s.len() > 0 && s.last() == c {
        trim_char(s.drop_last(), c)
    } else {
        s
    }
}

/// A session token with surrounding double quotes removed.
pub fn unquote_token(token: &str) -> (r: String)
    ensures
        r@ == trim_char(token@, '"'),
{
    let s = chars_of(token);
    let mut lo: usize = 0;
    let mut hi: usize = s.len();
    assert(s@.subrange(0, s@.len() as int) =~= s@);
    while lo < hi && (s[lo] == '"' || s[hi - 1] == '"')
        invariant
            lo <= hi <= s@.len(),
            trim_char(s@.subrange(lo as int, hi as int), '"') == trim_char(s@, '"'),
        decreases hi - lo,
    {
        let ghost cur = s@.subrange(lo as int, hi as int);
        if s[lo] == '"' {
            assert(cur.subrange(1, cur.len() as int) =~= s@.subrange(lo + 1, hi as int));
            lo = lo + 1;
        } else {
            assert(cur.drop_last() =~= s@.subrange(lo as int, hi - 1));
            hi = hi - 1;
        }
    }
    let mut out: Vec<char> = Vec::new();
    let mut i: usize = lo;
    while i < hi
        invariant
            lo <= i <= hi <= s@.len(),
            out@ == s@.subrange(lo as int, i as int),
        decreases hi - i,
    {
        out.push(s[i]);
        i = i + 1;
        assert(out@ =~= s@.subrange(lo as int, i as int));
    }
    proof {
        let cur = s@.subrange(lo as int, hi as int);
        assert(s@.subrange(0, s@.len() as int) =~= s@);
        if lo < hi {
            assert(cur[0] == s@[lo as int]);
            assert(cur.last() == s@[hi - 1]);
        }
    }
    string_of(&out)
}

pub open spec fn session_load_failed() -> ApiError {
    api_error(StatusCode::InternalServerError, ApiErrorCode::LoadError, "failed to load session")
}

pub open spec fn user_load_failed() -> ApiError {
    api_error(StatusCode::InternalServerError, ApiErrorCode::LoadError, "failed to load user")
}

/// Whom a session token stands for, given whether the token verified, the
/// stored session it names, the time, and the session's user; each lookup
/// is `Err` when the store failed. A token that does not verify, a missing
/// or expired session and a missing user give no session; a failed lookup
/// is an internal error.
pub open spec fn token_state(
    token_valid: bool,
    session: Result<Option<UserSession>, ()>,
    now: i64,
    user: Result<Option<FullUser>, ()>,
) -> Result<Option<AuthState>, ApiError> {
    if !token_valid {
        Ok(None)
    } else {
        match session {
            Err(_) => Err(session_load_failed()),
            Ok(None) => Ok(None),
            Ok(Some(s)) => if s.expires_at < now {
                Ok(None)
            } else {
                match user {
                    Err(_) => Err(user_load_failed()),
                    Ok(None) => Ok(None),
                    Ok(Some(u)) => Ok(Some(AuthState::Authenticated { session: s, user: u })),
                }
            },
        }
    }
}

/// The session a token gives a request from `ip`, from what verifying the
/// token and the store's lookups gave (see `token_state`). `session` is
/// read only for a verified token, and `user` only for a stored session
/// that has not expired.
pub fn parse_session(
    token_valid: bool,
    session: Result<Option<UserSession>, ()>,
    now: i64,
    user: Result<Option<FullUser>, ()>,
    ip: IpAddress,
) -> (r: Result<Option<Session>, ApiError>)
    ensures
        match token_state(token_valid, session, now, user) {
            Err(e) => r == Err::<Option<Session>, ApiError>(e),
            Ok(None) => r matches Ok(None),
            Ok(Some(st)) => r matches Ok(Some(s)) && s.state() == st && s.1 == ip,
        },
{
    if !token_valid {
        return Ok(None);
    }
    let s = match session {
        Err(_) => {
            return Err(ApiError::internal_server_error(ApiErrorCode::LoadError, "failed to load session"));
        },
        Ok(None) => {
            return Ok(None);
        },
        Ok(Some(s)) => s,
    };
    if session_expired(&s, now) {
        return Ok(None);
    }
    match user {
        Err(_) => Err(ApiError::internal_server_error(ApiErrorCode::LoadError, "failed to load user")),
        Ok(None) => Ok(None),
        Ok(Some(u)) => Ok(Some(Session::new(AuthState::Authenticated { session: s, user: u }, ip))),
    }
}

/// Whether a stored session has expired at the given time.
pub fn session_expired(session: &UserSession, now: i64) -> (r: bool)
    ensures
        r == (session.expires_at < now),
{
    session.expires_at < now
}

pub open spec fn invalid_session() -> ApiError {
    api_error(StatusCode::Unauthorized, ApiErrorCode::LoginRequired, "invalid session")
}

/// What the session middleware does with a token that gave no session: it
/// drops the auth cookie and marks the failure, and refuses the request
/// unless the client asked to ignore auth failures or it is a login request.
/// Gives whether authentication failed.
pub fn auth_failure_outcome(token_present: bool, session_found: bool, ignore_auth_failure: bool, is_login_request: bool) -> (r: Result<bool, ApiError>)
    ensures
        r == (if !token_present || session_found {
            Ok::<bool, ApiError>(false)
        } else if !ignore_auth_failure && !is_login_request {
            Err(invalid_session())
        } else {
            Ok(true)
        }),
{
    if !token_present || session_found {
        Ok(false)
    } else if !ignore_auth_failure && !is_login_request {
        Err(ApiError::unauthorized(ApiErrorCode::LoginRequired, "invalid session"))
    } else {
        Ok(true)
    }
}

/// Whether the client asked to ignore auth failures: the
/// `x-ignore-auth-failure` header is exactly `true`.
pub fn ignores_auth_failure(header: Option<&str>) -> (r: bool)
    ensures
        r == (match header {
            Some(h) => h@ == "true"@,
            None => false,
        }),
{
    match header {
        Some(h) => {
            let a = chars_of(h);
            let b = chars_of("true");
            same_text(&a, &b)
        },
        None => false,
    }
}

} // verus!

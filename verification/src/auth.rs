//! Resolving the caller of a request: from the request's path and headers, and from
//! what the session store answers, to a principal or a rejection.

use vstd::prelude::*;
use crate::error::Rejection;
use crate::text::{chars_of, lemma_first_sep_at, range_starts_with, split, starts_with};
use crate::text::{str_eq, trim, trim_range};

verus! {

/// The header that carries the shared secret of trusted services.
pub const API_KEY_HEADER: &'static str = "x-api-key";

/// The header that carries the cookies.
pub const COOKIE_HEADER: &'static str = "Cookie";

/// The name of the cookie whose value is the session's id.
pub const SESSION_COOKIE: &'static str = "unique-sid";

/// What the session cookie starts with: its name and the sign that parts name and
/// value.
pub const SESSION_COOKIE_PREFIX: &'static str = "unique-sid=";

/// The user id and the session id of a caller that presented the shared secret.
pub const SYSTEM_ID: &'static str = "system";

/// The caller of a request, once resolved. It lives as long as the request.
#[derive(Clone, Debug)]
pub struct AuthUser {
    pub user_id: String,
    pub session_id: String,
    pub is_system: Option<bool>,
}

/// What an `AuthUser` holds.
pub struct AuthUserView {
    pub user_id: Seq<char>,
    pub session_id: Seq<char>,
    pub is_system: Option<bool>,
}

impl View for AuthUser {
    type V = AuthUserView;

    open spec fn view(&self) -> AuthUserView {
        AuthUserView {
            user_id: self.user_id@,
            session_id: self.session_id@,
            is_system: self.is_system,
        }
    }
}

/// What the resolver reads of a stored session.
#[derive(Clone, Debug)]
pub struct Session {
    pub id: String,
    pub user_id: String,
    pub is_enable: bool,
}

/// What a `Session` holds.
pub struct SessionView {
    pub id: Seq<char>,
    pub user_id: Seq<char>,
    pub is_enable: bool,
}

impl View for Session {
    type V = SessionView;

    open spec fn view(&self) -> SessionView {
        SessionView { id: self.id@, user_id: self.user_id@, is_enable: self.is_enable }
    }
}

/// What the session store answered when asked for a session by its id.
#[derive(Clone, Debug)]
pub enum SessionLookup {
    /// The store failed.
    StoreError,
    /// The store holds no session with that id.
    Missing,
    /// The store holds this session.
    Found(Session),
}

/// What a `SessionLookup` holds.
pub enum SessionLookupView {
    StoreError,
    Missing,
    Found(SessionView),
}

impl View for SessionLookup {
    type V = SessionLookupView;

    open spec fn view(&self) -> SessionLookupView {
        match self {
            SessionLookup::StoreError => SessionLookupView::StoreError,
            SessionLookup::Missing => SessionLookupView::Missing,
            SessionLookup::Found(s) => SessionLookupView::Found(s@),
        }
    }
}

/// What the resolver reads of a request: its path, and the values of the two
/// headers that may carry a credential, where the request has them.
#[derive(Clone, Debug)]
pub struct AuthRequest {
    pub path: String,
    pub api_key: Option<String>,
    pub cookie: Option<String>,
}

/// What an `AuthRequest` holds.
pub struct AuthRequestView {
    pub path: Seq<char>,
    pub api_key: Option<Seq<char>>,
    pub cookie: Option<Seq<char>>,
}

impl View for AuthRequest {
    type V = AuthRequestView;

    open spec fn view(&self) -> AuthRequestView {
        AuthRequestView {
            path: self.path@,
            api_key: match self.api_key {
                Some(k) => Some(k@),
                None => None,
            },
            cookie: match self.cookie {
                Some(c) => Some(c@),
                None => None,
            },
        }
    }
}

/// One step of resolving a caller.
#[derive(Clone, Debug)]
pub enum AuthStep {
    /// The path needs no credential. The request passes with no principal attached,
    /// so nothing downstream can authorize it.
    Bypass,
    /// The caller is resolved.
    Authenticated(AuthUser),
    /// The request ends here.
    Rejected(Rejection),
    /// The session with this id has to be looked up before the resolver can go on.
    FindSession(String),
}

/// What an `AuthStep` holds.
pub enum AuthStepView {
    Bypass,
    Authenticated(AuthUserView),
    Rejected(Rejection),
    FindSession(Seq<char>),
}

impl View for AuthStep {
    type V = AuthStepView;

    open spec fn view(&self) -> AuthStepView {
        match self {
            AuthStep::Bypass => AuthStepView::Bypass,
            AuthStep::Authenticated(u) => AuthStepView::Authenticated(u@),
            AuthStep::Rejected(r) => AuthStepView::Rejected(*r),
            AuthStep::FindSession(t) => AuthStepView::FindSession(t@),
        }
    }
}

/// Whether `path` lies on the documentation surface, which is open to everyone.
pub open spec fn is_public_path(path: Seq<char>) -> bool {
    ||| "/swagger-ui"@.is_prefix_of(path)
    ||| "/api-docs"@.is_prefix_of(path)
    ||| "/openapi.json"@.is_prefix_of(path)
}

/// The value of the session cookie, if `piece`, one cookie of the header, is the
/// session cookie: what follows `unique-sid=`, once the white space around the
/// piece is left out.
pub open spec fn cookie_of(piece: Seq<char>) -> Option<Seq<char>> {
    let cookie = trim(piece);
    if SESSION_COOKIE_PREFIX@.is_prefix_of(cookie) {
        Some(cookie.skip(SESSION_COOKIE_PREFIX@.len() as int))
    } else {
        None
    }
}

/// The value of the first session cookie among `pieces`.
pub open spec fn find_cookie(pieces: Seq<Seq<char>>) -> Option<Seq<char>>
    decreases pieces.len(),
{
    if pieces.len() == 0 {
        None
    } else if cookie_of(pieces[0]) is Some {
        cookie_of(pieces[0])
    } else {
        find_cookie(pieces.drop_first())
    }
}

/// The session id that a `Cookie` header carries: the value of the first of its
/// cookies, separated by `;`, that is named `unique-sid`.
pub open spec fn session_token_of(header: Seq<char>) -> Option<Seq<char>> {
    find_cookie(split(header, ';'))
}

/// The principal of a caller that presented the shared secret.
pub open spec fn system_user() -> AuthUserView {
    AuthUserView { user_id: SYSTEM_ID@, session_id: SYSTEM_ID@, is_system: Some(true) }
}

/// What the resolver makes of the store's answer.
pub open spec fn session_outcome(lookup: SessionLookupView) -> Result<AuthUserView, Rejection> {
    match lookup {
        SessionLookupView::StoreError => Err(Rejection::InternalError),
        SessionLookupView::Missing => Err(Rejection::Unauthorized),
        SessionLookupView::Found(s) => if s.is_enable {
            Ok(AuthUserView { user_id: s.user_id, session_id: s.id, is_system: Some(false) })
        } else {
            Err(Rejection::Unauthorized)
        },
    }
}

/// The resolver, as a function of the request, the configured secret and the
/// store's answer, where there is one yet. The first rule that applies decides:
/// an open path; a matching secret; no session cookie; then the store's answer.
pub open spec fn resolve(
    request: AuthRequestView,
    system_secret: Seq<char>,
    lookup: Option<SessionLookupView>,
) -> AuthStepView {
    if is_public_path(request.path) {
        AuthStepView::Bypass
    } else if request.api_key == Some(system_secret) {
        AuthStepView::Authenticated(system_user())
    } else if request.cookie is None || session_token_of(request.cookie->0) is None {
        AuthStepView::Rejected(Rejection::Unauthorized)
    } else {
        match lookup {
            None => AuthStepView::FindSession(session_token_of(request.cookie->0)->0),
            Some(answer) => match session_outcome(answer) {
                Ok(user) => AuthStepView::Authenticated(user),
                Err(r) => AuthStepView::Rejected(r),
            },
        }
    }
}

/// Whether `path` lies on the documentation surface.
pub fn path_is_public(path: &str) -> (open: bool)
    ensures
        open == is_public_path(path@),
{
    starts_with(path, "/swagger-ui") || starts_with(path, "/api-docs") || starts_with(
        path,
        "/openapi.json",
    )
}

/// The session id that the `Cookie` header `header` carries.
pub fn session_token(header: &str) -> (token: Option<String>)
    ensures
        match token {
            Some(t) => session_token_of(header@) == Some(t@),
            None => session_token_of(header@) is None,
        },
{
    let v = chars_of(header);
    let prefix = chars_of(SESSION_COOKIE_PREFIX);
    let n: usize = v.len();
    let mut start: usize = 0;
    assert(v@.skip(0) =~= v@);
    loop
        invariant
            start <= n,
            n == v.len(),
            v@ == header@,
            prefix@ == SESSION_COOKIE_PREFIX@,
            session_token_of(header@) == find_cookie(split(v@.skip(start as int), ';')),
        decreases n - start,
    {
        let mut end: usize = start;
        while end < n && v[end] != ';'
            invariant
                start <= end <= n,
                n == v.len(),
                forall|k: int| start <= k < end ==> v@[k] != ';',
            decreases n - end,
        {
            end += 1;
        }
        let ghost rest = v@.skip(start as int);
        proof {
            lemma_first_sep_at(rest, ';', end - start);
            assert(rest.take(end - start) =~= v@.subrange(start as int, end as int));
            assert(end < n ==> rest.skip(end - start + 1) =~= v@.skip(end + 1));
            if end == n {
                assert(rest =~= v@.subrange(start as int, end as int));
            }
        }
        let ghost pieces = split(rest, ';');
        assert(pieces[0] == v@.subrange(start as int, end as int));
        assert(end < n ==> pieces.drop_first() =~= split(v@.skip(end + 1), ';'));
        assert(end == n ==> pieces.drop_first() =~= Seq::<Seq<char>>::empty());
        let (a, b) = trim_range(&v, start, end);
        if range_starts_with(&v, a, b, &prefix) {
            let ghost cookie = v@.subrange(a as int, b as int);
            assert(cookie.skip(prefix@.len() as int) =~= header@.subrange(
                a + prefix@.len(),
                b as int,
            ));
            let value = header.substring_char(a + prefix.len(), b);
            return Some(value.to_owned());
        }
        assert(find_cookie(pieces) == find_cookie(pieces.drop_first()));
        if end >= n {
            assert(find_cookie(Seq::<Seq<char>>::empty()) is None);
            return None;
        }
        start = end + 1;
    }
}

/// The principal of a caller that presented the shared secret.
pub fn system_principal() -> (user: AuthUser)
    ensures
        user@ == system_user(),
{
    AuthUser {
        user_id: SYSTEM_ID.to_owned(),
        session_id: SYSTEM_ID.to_owned(),
        is_system: Some(true),
    }
}

/// What the resolver makes of the store's answer: the session's user for an enabled
/// session; for a disabled one the rejection that a missing one gets.
pub fn authenticate_session(lookup: &SessionLookup) -> (r: Result<AuthUser, Rejection>)
    ensures
        match r {
            Ok(user) => session_outcome(lookup@) == Ok::<AuthUserView, Rejection>(user@),
            Err(e) => session_outcome(lookup@) == Err::<AuthUserView, Rejection>(e),
        },
{
    match lookup {
        SessionLookup::StoreError => Err(Rejection::InternalError),
        SessionLookup::Missing => Err(Rejection::Unauthorized),
        SessionLookup::Found(session) => {
            if !session.is_enable {
                return Err(Rejection::Unauthorized);
            }
            Ok(
                AuthUser {
                    user_id: session.user_id.clone(),
                    session_id: session.id.clone(),
                    is_system: Some(false),
                },
            )
        },
    }
}

/// What the store answered, if it was asked yet.
pub open spec fn lookup_view(lookup: Option<&SessionLookup>) -> Option<SessionLookupView> {
    match lookup {
        Some(answer) => Some(answer@),
        None => None,
    }
}

/// Resolves the caller of `request`. `system_secret` is the configured shared
/// secret; `lookup` is the session store's answer, or `None` as long as the store
/// has not been asked. The store needs to be asked only where the step returned is
/// `FindSession`; the caller then looks up the session with that id and calls again
/// with the answer.
pub fn auth_middleware(
    request: &AuthRequest,
    system_secret: &str,
    lookup: Option<&SessionLookup>,
) -> (step: AuthStep)
    ensures
        step@ == resolve(request@, system_secret@, lookup_view(lookup)),
{
    if path_is_public(request.path.as_str()) {
        return AuthStep::Bypass;
    }
    let key_matches = match &request.api_key {
        Some(key) => str_eq(key.as_str(), system_secret),
        None => false,
    };
    if key_matches {
        return AuthStep::Authenticated(system_principal());
    }
    let token = match &request.cookie {
        Some(header) => session_token(header.as_str()),
        None => None,
    };
    match token {
        None => AuthStep::Rejected(Rejection::Unauthorized),
        Some(id) => match lookup {
            None => AuthStep::FindSession(id),
            Some(answer) => match authenticate_session(answer) {
                Ok(user) => AuthStep::Authenticated(user),
                Err(e) => AuthStep::Rejected(e),
            },
        },
    }
}

/// A disabled session is rejected exactly as a session that does not exist.
pub proof fn lemma_disabled_session_as_missing(
    request: AuthRequestView,
    system_secret: Seq<char>,
    session: SessionView,
)
    requires
        !session.is_enable,
    ensures
        session_outcome(SessionLookupView::Found(session)) == session_outcome(
            SessionLookupView::Missing,
        ),
        session_outcome(SessionLookupView::Found(session)) == Err::<AuthUserView, Rejection>(
            Rejection::Unauthorized,
        ),
        resolve(request, system_secret, Some(SessionLookupView::Found(session))) == resolve(
            request,
            system_secret,
            Some(SessionLookupView::Missing),
        ),
{
}

/// A request that presents the shared secret, on a path that is not open to
/// everyone, is resolved to the system principal whatever the session store holds,
/// and before the store is asked.
pub proof fn lemma_system_secret_skips_store(
    request: AuthRequestView,
    system_secret: Seq<char>,
    lookup: Option<SessionLookupView>,
)
    requires
        !is_public_path(request.path),
        request.api_key == Some(system_secret),
    ensures
        resolve(request, system_secret, lookup) == AuthStepView::Authenticated(system_user()),
        resolve(request, system_secret, None) == AuthStepView::Authenticated(system_user()),
{
}

/// The store is asked for a session only after every rule that needs no store has
/// been tried: the step is `FindSession` only while no answer is at hand, and with
/// an answer at hand the resolver ends.
pub proof fn lemma_resolver_ends(
    request: AuthRequestView,
    system_secret: Seq<char>,
    answer: SessionLookupView,
)
    ensures
        !(resolve(request, system_secret, Some(answer)) is FindSession),
        resolve(request, system_secret, None) is FindSession ==> !is_public_path(request.path)
            && request.api_key != Some(system_secret) && request.cookie is Some,
{
}

} // verus!

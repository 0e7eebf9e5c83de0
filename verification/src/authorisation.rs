//! The per-request authorisation middleware: bearer-token extraction, session
//! validation and refresh, the opportunistic expiry sweep, and the
//! envelope-wrapping of every outcome.
//!
//! The request state machine: on the login route, authentication is bypassed
//! and the sweep runs with no identity attached. On every other route the
//! `Authorization` header must yield a bearer token that decrypts to a live
//! session; the session is refreshed, its account becomes the request's
//! identity, and the sweep runs. Any failure before dispatch renders an early
//! envelope, always at HTTP 200, and skips the sweep.

use vstd::prelude::*;

use crate::api_error::ApiErrorType;
use crate::envelope::{envelope, envelope_view, render, ApiResponse, HandlerResponse,
    HandlerResponseView, RenderedResponse};
use crate::store::{contains_id, index_of_id, session_with_id, SessionStore, SessionView,
    swept_sessions, Session, SESSION_TTL_SECONDS, SWEEP_GRACE_SECONDS};
use crate::token::{is_b64_url_char, token_session_id, DBId, SessionId, TokenCodec};
use crate::util::str_eq;

verus! {

/// Whether the characters `B e a r e r ' '` occupy positions `i .. i + 7` of
/// `s` and a token character (anything but a newline) follows.
pub open spec fn bearer_match_at(s: Seq<char>, i: int) -> bool {
    &&& 0 <= i
    &&& i + 8 <= s.len()
    &&& s[i] == 'B'
    &&& s[i + 1] == 'e'
    &&& s[i + 2] == 'a'
    &&& s[i + 3] == 'r'
    &&& s[i + 4] == 'e'
    &&& s[i + 5] == 'r'
    &&& s[i + 6] == ' '
    &&& s[i + 7] != '\n'
}

/// The first position at or after `from` where a bearer marker with a
/// following token character starts, if any.
pub open spec fn find_bearer_from(s: Seq<char>, from: int) -> Option<int>
    decreases s.len() - from when 0 <= from <= s.len()
{
    if from + 8 > s.len() {
        None
    } else if bearer_match_at(s, from) {
        Some(from)
    } else {
        find_bearer_from(s, from + 1)
    }
}

/// The first newline at or after `from`, or the end of the string.
pub open spec fn line_end_from(s: Seq<char>, from: int) -> int
    decreases s.len() - from when 0 <= from <= s.len()
{
    if from >= s.len() {
        from
    } else if s[from] == '\n' {
        from
    } else {
        line_end_from(s, from + 1)
    }
}

/// The token an `Authorization` header value yields: everything after the
/// first `Bearer ` marker up to the end of that line, if non-empty.
pub open spec fn bearer_token_of(s: Seq<char>) -> Option<Seq<char>> {
    match find_bearer_from(s, 0) {
        Some(i) => Some(s.subrange(i + 7, line_end_from(s, i + 7))),
        None => None,
    }
}

fn marker_at(s: &str, i: usize) -> (r: bool)
    requires
        i + 8 <= s@.len() <= usize::MAX,
    ensures
        r == bearer_match_at(s@, i as int),
{
    s.get_char(i) == 'B' && s.get_char(i + 1) == 'e' && s.get_char(i + 2) == 'a' && s.get_char(
        i + 3,
    ) == 'r' && s.get_char(i + 4) == 'e' && s.get_char(i + 5) == 'r' && s.get_char(i + 6) == ' '
        && s.get_char(i + 7) != '\n'
}

fn find_line_end(s: &str, start: usize) -> (r: usize)
    requires
        start <= s@.len(),
    ensures
        r == line_end_from(s@, start as int),
        start <= r <= s@.len(),
{
    let n = s.unicode_len();
    let mut j = start;
    while j < n
        invariant
            start <= j <= n,
            n == s@.len(),
            line_end_from(s@, start as int) == line_end_from(s@, j as int),
        decreases n - j,
    {
        if s.get_char(j) == '\n' {
            return j;
        }
        j = j + 1;
    }
    j
}

/// Extracts the bearer token from an `Authorization` header value, as the
/// pattern `Bearer (.+)` captures it: the first marker found anywhere in the
/// value, with the non-empty remainder of its line as the token.
pub fn extract_bearer_token(header: &str) -> (r: Option<String>)
    ensures
        match r {
            Some(t) => bearer_token_of(header@) == Some(t@) && t@.len() > 0,
            None => bearer_token_of(header@) is None,
        },
{
    let n = header.unicode_len();
    if n < 8 {
        return None;
    }
    let mut i: usize = 0;
    while i <= n - 8
        invariant
            n == header@.len(),
            8 <= n,
            i <= n - 7,
            find_bearer_from(header@, 0) == find_bearer_from(header@, i as int),
        decreases n - i,
    {
        if marker_at(header, i) {
            let start = i + 7;
            let tok_end = find_line_end(header, start + 1);
            proof {
                assert(line_end_from(header@, start as int) == line_end_from(
                    header@,
                    start as int + 1,
                ));
            }
            let token = header.substring_char(start, tok_end).to_owned();
            return Some(token);
        }
        i = i + 1;
    }
    None
}

/// The position right after the last `/` in `path`, or 0 when there is none.
pub open spec fn last_segment_start(path: Seq<char>) -> int
    decreases path.len(),
{
    if path.len() == 0 {
        0
    } else if path.last() == '/' {
        path.len() as int
    } else {
        last_segment_start(path.drop_last())
    }
}

/// The last segment of a path: what follows its last `/`.
pub open spec fn last_path_segment(path: Seq<char>) -> Seq<char> {
    path.subrange(last_segment_start(path), path.len() as int)
}

/// Whether a path addresses the login route.
pub open spec fn is_login_route(path: Seq<char>) -> bool {
    last_path_segment(path) == "login"@
}

fn last_segment_start_exec(path: &str) -> (r: usize)
    ensures
        r == last_segment_start(path@),
        r <= path@.len(),
{
    let n = path.unicode_len();
    let mut seg: usize = 0;
    let mut i: usize = 0;
    while i < n
        invariant
            i <= n,
            n == path@.len(),
            seg <= i,
            seg == last_segment_start(path@.take(i as int)),
        decreases n - i,
    {
        proof {
            assert(path@.take(i as int + 1).drop_last() =~= path@.take(i as int));
        }
        if path.get_char(i) == '/' {
            seg = i + 1;
        }
        i = i + 1;
    }
    proof {
        assert(path@.take(n as int) =~= path@);
    }
    seg
}

/// Decides whether a request path addresses the login route, by its last
/// segment.
pub fn route_is_login(path: &str) -> (r: bool)
    ensures
        r == is_login_route(path@),
{
    let start = last_segment_start_exec(path);
    let n = path.unicode_len();
    let seg = path.substring_char(start, n);
    str_eq(seg, "login")
}

/// The view of an optional header value.
pub open spec fn header_view(h: Option<&String>) -> Option<Seq<char>> {
    match h {
        Some(s) => Some(s@),
        None => None,
    }
}

/// The session identifier an optional `Authorization` header resolves to
/// under `secret`, if any: a header must be present, carry a bearer token,
/// and the token must decrypt to a 16-byte identifier.
pub open spec fn header_session_id(secret: Seq<u8>, header: Option<Seq<char>>) -> Option<Seq<u8>> {
    match header {
        None => None,
        Some(h) => match bearer_token_of(h) {
            None => None,
            Some(tok) => token_session_id(secret, tok),
        },
    }
}

/// The error the authentication step produces for a request, if any: every
/// structural failure collapses to `Unauthorized`; a session past its expiry
/// is the distinct `Expired`; a live session authenticates.
pub open spec fn authorize_error(
    secret: Seq<u8>,
    ss: Seq<SessionView>,
    header: Option<Seq<char>>,
    now: int,
) -> Option<ApiErrorType> {
    match header_session_id(secret, header) {
        None => Some(ApiErrorType::Unauthorized),
        Some(sid) => if !contains_id(ss, sid) {
            Some(ApiErrorType::Unauthorized)
        } else if session_with_id(ss, sid).expires_at < now {
            Some(ApiErrorType::Expired)
        } else {
            None
        },
    }
}

/// The session table after the row `sid` is refreshed at time `now`.
pub open spec fn refreshed_sessions(ss: Seq<SessionView>, sid: Seq<u8>, now: int) -> Seq<
    SessionView,
> {
    ss.update(
        index_of_id(ss, sid),
        SessionView {
            id: sid,
            account_id: session_with_id(ss, sid).account_id,
            expires_at: now + SESSION_TTL_SECONDS,
        },
    )
}

/// The first newline at or after `from` is the end of the string when no
/// character from `from` on is a newline.
proof fn lemma_line_end_without_newline(s: Seq<char>, from: int)
    requires
        0 <= from <= s.len(),
        forall|k: int| from <= k < s.len() ==> s[k] != '\n',
    ensures
        line_end_from(s, from) == s.len(),
    decreases s.len() - from,
{
    if from < s.len() {
        lemma_line_end_without_newline(s, from + 1);
    }
}

/// A well-formed Authorization header value — the `Bearer ` marker followed
/// by a non-empty, newline-free token — yields exactly that token.
pub proof fn lemma_bearer_header_round_trip(header: Seq<char>, t: Seq<char>)
    requires
        header == "Bearer "@ + t,
        t.len() > 0,
        forall|i: int| 0 <= i < t.len() ==> #[trigger] t[i] != '\n',
    ensures
        bearer_token_of(header) == Some(t),
{
    reveal_strlit("Bearer ");
    assert(header.len() == 7 + t.len());
    assert(header[0] == 'B' && header[1] == 'e' && header[2] == 'a' && header[3] == 'r'
        && header[4] == 'e' && header[5] == 'r' && header[6] == ' ');
    assert(header[7] == t[0]);
    assert(bearer_match_at(header, 0));
    assert(find_bearer_from(header, 0) == Some(0int));
    assert forall|k: int| 7 <= k < header.len() implies header[k] != '\n' by {
        assert(header[k] == t[k - 7]);
    }
    lemma_line_end_without_newline(header, 7);
    assert(header.subrange(7, header.len() as int) =~= t);
}

/// A protected request whose Authorization header is `Bearer ` followed by a
/// token minted for a live session authenticates as exactly that session:
/// the header resolves to the token, the token to the session identifier,
/// and the authentication step reports no error, so the request is
/// dispatched under that session's account.
pub proof fn lemma_header_authenticates(
    secret: Seq<u8>,
    header: Seq<char>,
    t: Seq<char>,
    sid: Seq<u8>,
    ss: Seq<SessionView>,
    now: int,
)
    requires
        header == "Bearer "@ + t,
        t.len() > 0,
        forall|i: int| 0 <= i < t.len() ==> is_b64_url_char(#[trigger] t[i]),
        token_session_id(secret, t) == Some(sid),
        contains_id(ss, sid),
        session_with_id(ss, sid).expires_at >= now,
    ensures
        header_session_id(secret, Some(header)) == Some(sid),
        authorize_error(secret, ss, Some(header), now) is None,
{
    assert forall|i: int| 0 <= i < t.len() implies #[trigger] t[i] != '\n' by {
        assert(is_b64_url_char(t[i]));
    }
    lemma_bearer_header_round_trip(header, t);
}

/// A session that exists but whose expiry predates `now` is rejected as
/// `Expired` — distinct from `Unauthorized`, so the client can tell "log in
/// again" from "access denied".
pub proof fn lemma_expired_is_distinct(
    secret: Seq<u8>,
    ss: Seq<SessionView>,
    header: Option<Seq<char>>,
    now: int,
)
    requires
        header_session_id(secret, header) matches Some(sid) && contains_id(ss, sid)
            && session_with_id(ss, sid).expires_at < now,
    ensures
        authorize_error(secret, ss, header, now) == Some(ApiErrorType::Expired),
        authorize_error(secret, ss, header, now) != Some(ApiErrorType::Unauthorized),
{
}

/// The request-scoped state the middleware establishes before dispatching:
/// the authenticated identity (absent on the login route) and the expiry the
/// envelope will carry.
pub struct RequestContext {
    pub identity: Option<DBId>,
    pub expires_at: i64,
}

/// What a downstream handler reports back: a payload, a payload together
/// with a fresh expiry (the login route), or a logical failure that leaves
/// the transport status untouched.
pub enum HandlerOutcome {
    Done(HandlerResponse),
    DoneWithExpiry(HandlerResponse, i64),
    Failed(ApiErrorType),
}

/// Renders the early-error envelope: error label, zero expiry, empty
/// payload, HTTP 200.
pub fn return_early(error: ApiErrorType) -> (r: RenderedResponse)
    ensures
        r.status == 200,
        r.body@ == envelope_view(Some(error), 0, HandlerResponseView::Empty),
{
    let body = envelope(&Some(error), 0, HandlerResponse::Empty);
    render(body)
}

/// The middleware factory, configured once with the process-wide secret.
pub struct Authorisation {
    secret: Vec<u8>,
}

impl View for Authorisation {
    type V = Seq<u8>;

    closed spec fn view(&self) -> Seq<u8> {
        self.secret@
    }
}

impl Authorisation {
    /// Captures the secret the middleware will decrypt tokens with.
    pub fn new(secret: Vec<u8>) -> (r: Authorisation)
        ensures
            r@ == secret@,
    {
        Authorisation { secret }
    }

    /// Builds the per-service middleware.
    pub fn new_transform(self) -> (r: AuthorisationMiddleware)
        ensures
            r@ == self@,
    {
        AuthorisationMiddleware { codec: TokenCodec::new(self.secret) }
    }
}

/// The middleware itself, holding the token codec for the process secret.
pub struct AuthorisationMiddleware {
    codec: TokenCodec,
}

impl View for AuthorisationMiddleware {
    type V = Seq<u8>;

    closed spec fn view(&self) -> Seq<u8> {
        self.codec@
    }
}

impl AuthorisationMiddleware {
    /// The token codec configured with the middleware's secret.
    pub fn codec(&self) -> (r: &TokenCodec)
        ensures
            r@ == self@,
    {
        &self.codec
    }

    /// The authentication step for a non-login request: extract the bearer
    /// token, decrypt it, fetch the session, reject an expired one as
    /// `Expired`, refresh a live one, and return the refreshed row.
    pub fn authorize(&self, store: &mut SessionStore, header: Option<&String>, now: i64) -> (r:
        Result<Session, ApiErrorType>)
        requires
            old(store).wf(),
            now <= i64::MAX - SESSION_TTL_SECONDS,
        ensures
            final(store).wf(),
            match r {
                Err(e) => {
                    &&& Some(e) == authorize_error(self@, old(store)@, header_view(header), now as int)
                    &&& final(store)@ == old(store)@
                },
                Ok(s) => {
                    &&& authorize_error(self@, old(store)@, header_view(header), now as int) is None
                    &&& header_session_id(self@, header_view(header)) matches Some(sid)
                    &&& s.wf()
                    &&& s@.id == header_session_id(self@, header_view(header)).unwrap()
                    &&& s@.account_id == session_with_id(
                        old(store)@,
                        header_session_id(self@, header_view(header)).unwrap(),
                    ).account_id
                    &&& s@.expires_at == now + SESSION_TTL_SECONDS
                    &&& final(store)@ == refreshed_sessions(
                        old(store)@,
                        header_session_id(self@, header_view(header)).unwrap(),
                        now as int,
                    )
                },
            },
    {
        let h = match header {
            Some(h) => h,
            None => {
                return Err(ApiErrorType::Unauthorized);
            },
        };
        let token = match extract_bearer_token(h.as_str()) {
            Some(t) => t,
            None => {
                return Err(ApiErrorType::Unauthorized);
            },
        };
        let sid = match self.codec.decrypt(token.as_str()) {
            Ok(id) => id,
            Err(e) => {
                return Err(e);
            },
        };
        let session = match store.fetch(&sid) {
            Some(s) => s,
            None => {
                return Err(ApiErrorType::Unauthorized);
            },
        };
        if session.expires_at < now {
            return Err(ApiErrorType::Expired);
        }
        match store.refresh(&sid, now) {
            Ok(s) => Ok(s),
            Err(e) => Err(e),
        }
    }

    /// ENTRY through SWEEPING: the login route bypasses authentication and
    /// carries no identity; every other route authenticates and refreshes.
    /// Both then sweep expired rows. An authentication failure renders the
    /// early envelope and skips the sweep.
    pub fn pre_handler(
        &self,
        store: &mut SessionStore,
        path: &str,
        header: Option<&String>,
        now: i64,
    ) -> (r: Result<RequestContext, RenderedResponse>)
        requires
            old(store).wf(),
            i64::MIN + SWEEP_GRACE_SECONDS <= now <= i64::MAX - SESSION_TTL_SECONDS,
        ensures
            final(store).wf(),
            match r {
                Ok(ctx) => if is_login_route(path@) {
                    &&& ctx.identity is None
                    &&& ctx.expires_at == 0
                    &&& final(store)@ == swept_sessions(old(store)@, now as int)
                } else {
                    match header_session_id(self@, header_view(header)) {
                        Some(sid) => {
                            &&& authorize_error(
                                self@,
                                old(store)@,
                                header_view(header),
                                now as int,
                            ) is None
                            &&& ctx.expires_at == now + SESSION_TTL_SECONDS
                            &&& ctx.identity matches Some(id) && id@ == session_with_id(
                                old(store)@,
                                sid,
                            ).account_id
                            &&& final(store)@ == swept_sessions(
                                refreshed_sessions(old(store)@, sid, now as int),
                                now as int,
                            )
                        },
                        None => false,
                    }
                },
                Err(resp) => {
                    &&& !is_login_route(path@)
                    &&& authorize_error(self@, old(store)@, header_view(header), now as int)
                        matches Some(e) && resp.body@ == envelope_view(
                        Some(e),
                        0,
                        HandlerResponseView::Empty,
                    )
                    &&& resp.status == 200
                    &&& final(store)@ == old(store)@
                },
            },
    {
        if route_is_login(path) {
            store.sweep(now);
            Ok(RequestContext { identity: None, expires_at: 0 })
        } else {
            match self.authorize(store, header, now) {
                Ok(session) => {
                    store.sweep(now);
                    Ok(
                        RequestContext {
                            identity: Some(session.account_id),
                            expires_at: session.expires_at,
                        },
                    )
                },
                Err(e) => Err(return_early(e)),
            }
        }
    }

    /// ENVELOPING: composes the final response from the pre-dispatch context
    /// and the handler's outcome. A logical failure keeps the context's
    /// expiry and an empty payload; the transport status is 200 throughout.
    pub fn finish(&self, ctx: RequestContext, outcome: HandlerOutcome) -> (r: RenderedResponse)
        ensures
            r.status == 200,
            match outcome {
                HandlerOutcome::Done(d) => r.body@ == envelope_view(
                    None,
                    ctx.expires_at as int,
                    d@,
                ),
                HandlerOutcome::DoneWithExpiry(d, exp) => r.body@ == envelope_view(
                    None,
                    exp as int,
                    d@,
                ),
                HandlerOutcome::Failed(e) => r.body@ == envelope_view(
                    Some(e),
                    ctx.expires_at as int,
                    HandlerResponseView::Empty,
                ),
            },
    {
        match outcome {
            HandlerOutcome::Done(d) => render(envelope(&None, ctx.expires_at, d)),
            HandlerOutcome::DoneWithExpiry(d, exp) => render(envelope(&None, exp, d)),
            HandlerOutcome::Failed(e) => render(
                envelope(&Some(e), ctx.expires_at, HandlerResponse::Empty),
            ),
        }
    }
}

} // verus!

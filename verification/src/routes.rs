//! The route handlers — login, session info, preferred-language update and
//! the not-found fallback — and drivers that run a whole request through the
//! middleware state machine.
//!
//! Handlers are the compute side of each route: they take plain values and
//! the storage tables and report a `HandlerOutcome`; the middleware wraps
//! every outcome in the uniform envelope at HTTP 200.

use vstd::prelude::*;

use crate::account::{account_with_id, account_with_name, bcrypt_verify, bcrypt_verify_of,
    contains_account_id, contains_name, index_of_account_id, AccountTable, AccountView, Lang};
use crate::api_error::ApiErrorType;
use crate::authorisation::{authorize_error, header_session_id, header_view, refreshed_sessions,
    return_early, AuthorisationMiddleware, HandlerOutcome, RequestContext};
use crate::envelope::{envelope_view, HandlerResponse, HandlerResponseView, LoginResponse,
    RenderedResponse, SessionResponse};
use crate::store::{contains_id, session_with_id, swept_sessions, SessionStore, SessionView,
    SESSION_TTL_SECONDS, SWEEP_GRACE_SECONDS};
use crate::token::{token_session_id, DBId, SessionId, TokenCodec};
use crate::util::str_eq;
use crate::validation::{valid_login, view_opt, LoginData};

verus! {

/// Seconds since the epoch at which a session expires.
pub type ExpiresAt = i64;

/// The login request body: both fields optional, validated before use.
pub struct LoginRequest {
    pub account: Option<String>,
    pub pw: Option<String>,
}

/// Credential check against the account table: an unknown name is a clean
/// `None`; a known name whose password does not verify cleanly and
/// positively is `Unauthorized`.
pub fn authenticate(cred: &LoginData, accounts: &AccountTable) -> (r: Result<
    Option<DBId>,
    ApiErrorType,
>)
    requires
        accounts.wf(),
    ensures
        match r {
            Ok(found) => match found {
                Some(id) => {
                    &&& contains_name(accounts@, cred.account_name@)
                    &&& id@ == account_with_name(accounts@, cred.account_name@).id
                    &&& id.wf()
                    &&& bcrypt_verify_of(
                        cred.password@,
                        account_with_name(accounts@, cred.account_name@).pw_hash,
                    ) == Ok::<bool, ()>(true)
                },
                None => !contains_name(accounts@, cred.account_name@),
            },
            Err(e) => {
                &&& e is Unauthorized
                &&& contains_name(accounts@, cred.account_name@)
                &&& bcrypt_verify_of(
                    cred.password@,
                    account_with_name(accounts@, cred.account_name@).pw_hash,
                ) != Ok::<bool, ()>(true)
            },
        },
{
    let account_row = match accounts.find_by_name(cred.account_name.as_str()) {
        Some(a) => a,
        None => {
            return Ok(None);
        },
    };
    match bcrypt_verify(cred.password.as_str(), account_row.pw_hash.as_str()) {
        Some(true) => Ok(Some(account_row.id)),
        _ => Err(ApiErrorType::Unauthorized),
    }
}

/// The failure the login flow reports for a credential pair, if any: a
/// validation failure, an unknown account name and a wrong password all
/// collapse to the same `Unauthorized`, so account existence cannot be
/// probed.
pub open spec fn login_auth_error(
    accounts: Seq<AccountView>,
    account: Option<Seq<char>>,
    pw: Option<Seq<char>>,
) -> Option<ApiErrorType> {
    if !valid_login(account, pw) {
        Some(ApiErrorType::Unauthorized)
    } else {
        match (account, pw) {
            (Some(name), Some(p)) => if !contains_name(accounts, name) {
                Some(ApiErrorType::Unauthorized)
            } else if bcrypt_verify_of(p, account_with_name(accounts, name).pw_hash) != Ok::<
                bool,
                (),
            >(true) {
                Some(ApiErrorType::Unauthorized)
            } else {
                None
            },
            _ => Some(ApiErrorType::Unauthorized),
        }
    }
}

/// The login flow with the fresh session identifier made explicit: validate
/// the credentials, authenticate, insert the session row, encrypt the
/// identifier into the bearer token. An identifier collision is a
/// persistence failure (`DbError`); a failed encryption is reported as
/// `Unauthorized` and leaves the inserted row in place, as the storage did
/// its work.
pub fn login_with_id(
    codec: &TokenCodec,
    accounts: &AccountTable,
    store: &mut SessionStore,
    request: &LoginRequest,
    sid: SessionId,
    now: i64,
) -> (r: HandlerOutcome)
    requires
        old(store).wf(),
        accounts.wf(),
        sid.wf(),
        now <= i64::MAX - SESSION_TTL_SECONDS,
    ensures
        final(store).wf(),
        match login_auth_error(accounts@, view_opt(&request.account), view_opt(&request.pw)) {
            Some(e0) => r matches HandlerOutcome::Failed(e) && e == e0 && final(store)@ == old(
                store,
            )@,
            None => {
                let name = view_opt(&request.account).unwrap();
                let aid = account_with_name(accounts@, name).id;
                if contains_id(old(store)@, sid@) {
                    r matches HandlerOutcome::Failed(e) && e is DbError && final(store)@ == old(
                        store,
                    )@
                } else {
                    &&& final(store)@ == old(store)@.push(
                        SessionView {
                            id: sid@,
                            account_id: aid,
                            expires_at: now + SESSION_TTL_SECONDS,
                        },
                    )
                    &&& match r {
                        HandlerOutcome::DoneWithExpiry(d, exp) => {
                            &&& exp == now + SESSION_TTL_SECONDS
                            &&& d@ matches HandlerResponseView::Login { session_token: t }
                                && token_session_id(codec@, t) == Some(sid@) && t.len() > 0
                        },
                        HandlerOutcome::Failed(e) => e is Unauthorized,
                        HandlerOutcome::Done(_) => false,
                    }
                }
            },
        },
{
    let login_data = match LoginData::parse(&request.account, &request.pw) {
        Ok(d) => d,
        Err(_) => {
            return HandlerOutcome::Failed(ApiErrorType::Unauthorized);
        },
    };
    let account_id = match authenticate(&login_data, accounts) {
        Ok(Some(id)) => id,
        Ok(None) => {
            return HandlerOutcome::Failed(ApiErrorType::Unauthorized);
        },
        Err(e) => {
            return HandlerOutcome::Failed(e);
        },
    };
    let sid_for_token = sid.duplicate();
    let expires_at = match store.create(&account_id, sid, now) {
        Ok(exp) => exp,
        Err(e) => {
            return HandlerOutcome::Failed(e);
        },
    };
    let session_token = match codec.encrypt(&sid_for_token) {
        Ok(t) => t,
        Err(e) => {
            return HandlerOutcome::Failed(e);
        },
    };
    HandlerOutcome::DoneWithExpiry(
        HandlerResponse::Login(LoginResponse { session_token }),
        expires_at,
    )
}

/// The login route handler: mints a fresh random session identifier and runs
/// the login flow with it.
pub fn login_handler(
    codec: &TokenCodec,
    accounts: &AccountTable,
    store: &mut SessionStore,
    request: &LoginRequest,
    now: i64,
) -> (r: HandlerOutcome)
    requires
        old(store).wf(),
        accounts.wf(),
        now <= i64::MAX - SESSION_TTL_SECONDS,
    ensures
        final(store).wf(),
        match login_auth_error(accounts@, view_opt(&request.account), view_opt(&request.pw)) {
            Some(e0) => r matches HandlerOutcome::Failed(e) && e == e0 && final(store)@ == old(
                store,
            )@,
            None => {
                let name = view_opt(&request.account).unwrap();
                let aid = account_with_name(accounts@, name).id;
                match r {
                    HandlerOutcome::DoneWithExpiry(d, exp) => {
                        &&& exp == now + SESSION_TTL_SECONDS
                        &&& exists|sidv: Seq<u8>|
                            #![auto]
                            {
                                &&& sidv.len() == 16
                                &&& !contains_id(old(store)@, sidv)
                                &&& final(store)@ == old(store)@.push(
                                    SessionView {
                                        id: sidv,
                                        account_id: aid,
                                        expires_at: now + SESSION_TTL_SECONDS,
                                    },
                                )
                                &&& d@ matches HandlerResponseView::Login { session_token: t }
                                    && token_session_id(codec@, t) == Some(sidv) && t.len() > 0
                            }
                    },
                    HandlerOutcome::Failed(e) => (e is DbError && final(store)@ == old(store)@) || (
                    e is Unauthorized && exists|sidv: Seq<u8>|
                        #![auto]
                        {
                            &&& sidv.len() == 16
                            &&& !contains_id(old(store)@, sidv)
                            &&& final(store)@ == old(store)@.push(
                                SessionView {
                                    id: sidv,
                                    account_id: aid,
                                    expires_at: now + SESSION_TTL_SECONDS,
                                },
                            )
                        }),
                    HandlerOutcome::Done(_) => false,
                }
            },
        },
{
    let sid = SessionId::generate();
    login_with_id(codec, accounts, store, request, sid, now)
}

/// The session-info route: looks up the authenticated account and returns
/// its name and preferred language. A vanished account is a storage-level
/// failure, reported as `DbError`.
pub fn session_handler(accounts: &AccountTable, session_id: &DBId) -> (r: HandlerOutcome)
    requires
        accounts.wf(),
    ensures
        match r {
            HandlerOutcome::Done(d) => {
                &&& contains_account_id(accounts@, session_id@)
                &&& d@ == (HandlerResponseView::Session {
                    name: account_with_id(accounts@, session_id@).name,
                    preferred_lang: account_with_id(accounts@, session_id@).preferred_language,
                })
            },
            HandlerOutcome::Failed(e) => e is DbError && !contains_account_id(
                accounts@,
                session_id@,
            ),
            HandlerOutcome::DoneWithExpiry(_, _) => false,
        },
{
    match accounts.get(session_id) {
        Some(a) => HandlerOutcome::Done(
            HandlerResponse::Session(
                SessionResponse { name: a.name, preferred_lang: a.preferred_language },
            ),
        ),
        None => HandlerOutcome::Failed(ApiErrorType::DbError),
    }
}

/// What `str::to_lowercase` maps a string to: Unicode lowercasing, locale
/// independent, a function of the characters alone.
pub uninterp spec fn lower_of(s: Seq<char>) -> Seq<char>;

/// Relies on str's `to_lowercase`.
#[verifier::external_body]
fn lowercase(s: &str) -> (r: String)
    ensures
        r@ == lower_of(s@),
{
    s.to_lowercase()
}

/// The language-update request body: the desired preferred language, as
/// text.
pub struct SessionRequest {
    pub preferred_lang: String,
}

/// A parsed language choice.
#[derive(Debug)]
pub struct NewLangData {
    lang: Lang,
}

/// Rejection of an unknown or missing language option.
#[derive(Debug)]
pub struct NewLangDataError {
    message: String,
}

impl View for NewLangDataError {
    type V = Seq<char>;

    closed spec fn view(&self) -> Seq<char> {
        self.message@
    }
}

impl NewLangDataError {
    /// The internal message.
    pub fn message(&self) -> (r: &String)
        ensures
            r@ == self@,
    {
        &self.message
    }
}

impl NewLangData {
    /// The parsed choice.
    pub closed spec fn lang(&self) -> Lang {
        self.lang
    }

    /// Accepts exactly the strings that lowercase to `de` or `en`.
    pub fn parse(req: &SessionRequest) -> (r: Result<NewLangData, NewLangDataError>)
        ensures
            if lower_of(req.preferred_lang@) == "de"@ {
                r matches Ok(d) && d.lang() == Lang::De
            } else if lower_of(req.preferred_lang@) == "en"@ {
                r matches Ok(d) && d.lang() == Lang::En
            } else {
                r matches Err(e) && e@ == "Unknown or missing option"@
            },
    {
        let low = lowercase(req.preferred_lang.as_str());
        if str_eq(low.as_str(), "de") {
            Ok(NewLangData { lang: Lang::De })
        } else if str_eq(low.as_str(), "en") {
            Ok(NewLangData { lang: Lang::En })
        } else {
            Err(NewLangDataError { message: "Unknown or missing option".to_owned() })
        }
    }

    /// The parsed language.
    pub fn into_inner(self) -> (r: Lang)
        ensures
            r == self.lang(),
    {
        self.lang
    }
}

/// The preferred-language update route: parses the submitted option
/// (`BadRequest` on anything unknown), updates the account row, and returns
/// the updated name and language. A vanished account is `DbError`.
pub fn set_user_language_handler(
    accounts: &mut AccountTable,
    request: &SessionRequest,
    session_id: &DBId,
) -> (r: HandlerOutcome)
    requires
        old(accounts).wf(),
    ensures
        final(accounts).wf(),
        ({
            let low = lower_of(request.preferred_lang@);
            if low != "de"@ && low != "en"@ {
                r matches HandlerOutcome::Failed(e) && e is BadRequest && final(accounts)@ == old(
                    accounts,
                )@
            } else {
                let lang = if low == "de"@ {
                    Lang::De
                } else {
                    Lang::En
                };
                if contains_account_id(old(accounts)@, session_id@) {
                    &&& final(accounts)@ == old(accounts)@.update(
                        index_of_account_id(old(accounts)@, session_id@),
                        AccountView {
                            preferred_language: lang,
                            ..account_with_id(old(accounts)@, session_id@)
                        },
                    )
                    &&& r matches HandlerOutcome::Done(d) && d@ == (HandlerResponseView::Session {
                        name: account_with_id(old(accounts)@, session_id@).name,
                        preferred_lang: lang,
                    })
                } else {
                    r matches HandlerOutcome::Failed(e) && e is DbError && final(accounts)@ == old(
                        accounts,
                    )@
                }
            }
        }),
{
    let lang_data = match NewLangData::parse(request) {
        Ok(d) => d,
        Err(_) => {
            return HandlerOutcome::Failed(ApiErrorType::BadRequest);
        },
    };
    match accounts.set_language(session_id, lang_data.into_inner()) {
        Ok(row) => HandlerOutcome::Done(
            HandlerResponse::Session(
                SessionResponse { name: row.name, preferred_lang: row.preferred_language },
            ),
        ),
        Err(e) => HandlerOutcome::Failed(e),
    }
}

/// The fallback for unknown API routes.
pub fn not_found_handler() -> (r: HandlerOutcome)
    ensures
        r matches HandlerOutcome::Failed(e) && e is NotFoundError,
{
    HandlerOutcome::Failed(ApiErrorType::NotFoundError)
}

/// Login with a non-existent account name and login with a wrong password
/// for an existing account are indistinguishable: both collapse to the same
/// `Unauthorized`, and the envelopes rendered for the two are identical.
pub proof fn lemma_login_failures_indistinguishable(
    accounts: Seq<AccountView>,
    account1: Option<Seq<char>>,
    pw1: Option<Seq<char>>,
    account2: Option<Seq<char>>,
    pw2: Option<Seq<char>>,
)
    requires
        valid_login(account1, pw1),
        account1 matches Some(n1) && !contains_name(accounts, n1),
        valid_login(account2, pw2),
        account2 matches Some(n2) && contains_name(accounts, n2),
        pw2 matches Some(p2) && bcrypt_verify_of(
            p2,
            account_with_name(accounts, account2.unwrap()).pw_hash,
        ) != Ok::<bool, ()>(true),
    ensures
        login_auth_error(accounts, account1, pw1) == Some(ApiErrorType::Unauthorized),
        login_auth_error(accounts, account2, pw2) == Some(ApiErrorType::Unauthorized),
        envelope_view(
            login_auth_error(accounts, account1, pw1),
            0,
            HandlerResponseView::Empty,
        ) == envelope_view(
            login_auth_error(accounts, account2, pw2),
            0,
            HandlerResponseView::Empty,
        ),
{
}

/// Drives a whole login request through the middleware state machine: the
/// login bypass with no identity, the sweep, the login handler, and the
/// envelope — always HTTP 200.
pub fn run_login_request(
    mw: &AuthorisationMiddleware,
    accounts: &AccountTable,
    store: &mut SessionStore,
    request: &LoginRequest,
    now: i64,
) -> (r: RenderedResponse)
    requires
        old(store).wf(),
        accounts.wf(),
        i64::MIN + SWEEP_GRACE_SECONDS <= now <= i64::MAX - SESSION_TTL_SECONDS,
    ensures
        final(store).wf(),
        r.status == 200,
        ({
            let swept = swept_sessions(old(store)@, now as int);
            match login_auth_error(accounts@, view_opt(&request.account), view_opt(&request.pw)) {
                Some(e0) => final(store)@ == swept && r.body@ == envelope_view(
                    Some(e0),
                    0,
                    HandlerResponseView::Empty,
                ),
                None => {
                    let name = view_opt(&request.account).unwrap();
                    let aid = account_with_name(accounts@, name).id;
                    ||| (exists|sidv: Seq<u8>|
                        #![auto]
                        {
                            &&& sidv.len() == 16
                            &&& !contains_id(swept, sidv)
                            &&& final(store)@ == swept.push(
                                SessionView {
                                    id: sidv,
                                    account_id: aid,
                                    expires_at: now + SESSION_TTL_SECONDS,
                                },
                            )
                            &&& r.body@.error == Seq::<char>::empty()
                            &&& r.body@.expires_at == now + SESSION_TTL_SECONDS
                            &&& r.body@.data matches HandlerResponseView::Login {
                                session_token: t,
                            } && token_session_id(mw@, t) == Some(sidv) && t.len() > 0
                        })
                    ||| (final(store)@ == swept && r.body@ == envelope_view(
                        Some(ApiErrorType::DbError),
                        0,
                        HandlerResponseView::Empty,
                    ))
                    ||| (r.body@ == envelope_view(
                        Some(ApiErrorType::Unauthorized),
                        0,
                        HandlerResponseView::Empty,
                    ) && exists|sidv: Seq<u8>|
                        #![auto]
                        {
                            &&& sidv.len() == 16
                            &&& !contains_id(swept, sidv)
                            &&& final(store)@ == swept.push(
                                SessionView {
                                    id: sidv,
                                    account_id: aid,
                                    expires_at: now + SESSION_TTL_SECONDS,
                                },
                            )
                        })
                },
            }
        }),
{
    store.sweep(now);
    let ctx = RequestContext { identity: None, expires_at: 0 };
    let outcome = login_handler(mw.codec(), accounts, store, request, now);
    mw.finish(ctx, outcome)
}

/// Drives a whole request to the protected session-info route through the
/// middleware state machine: authentication and refresh, the sweep, the
/// session handler, and the envelope — always HTTP 200, with every failure
/// inside the body.
pub fn run_session_request(
    mw: &AuthorisationMiddleware,
    accounts: &AccountTable,
    store: &mut SessionStore,
    header: Option<&String>,
    now: i64,
) -> (r: RenderedResponse)
    requires
        old(store).wf(),
        accounts.wf(),
        i64::MIN + SWEEP_GRACE_SECONDS <= now <= i64::MAX - SESSION_TTL_SECONDS,
    ensures
        final(store).wf(),
        r.status == 200,
        match authorize_error(mw@, old(store)@, header_view(header), now as int) {
            Some(e) => final(store)@ == old(store)@ && r.body@ == envelope_view(
                Some(e),
                0,
                HandlerResponseView::Empty,
            ),
            None => {
                let sid = header_session_id(mw@, header_view(header)).unwrap();
                let aid = session_with_id(old(store)@, sid).account_id;
                &&& final(store)@ == swept_sessions(
                    refreshed_sessions(old(store)@, sid, now as int),
                    now as int,
                )
                &&& if contains_account_id(accounts@, aid) {
                    r.body@ == envelope_view(
                        None,
                        now + SESSION_TTL_SECONDS,
                        HandlerResponseView::Session {
                            name: account_with_id(accounts@, aid).name,
                            preferred_lang: account_with_id(accounts@, aid).preferred_language,
                        },
                    )
                } else {
                    r.body@ == envelope_view(
                        Some(ApiErrorType::DbError),
                        now + SESSION_TTL_SECONDS,
                        HandlerResponseView::Empty,
                    )
                }
            },
        },
{
    let session = match mw.authorize(store, header, now) {
        Ok(s) => s,
        Err(e) => {
            return return_early(e);
        },
    };
    store.sweep(now);
    let outcome = session_handler(accounts, &session.account_id);
    let ctx = RequestContext { identity: Some(session.account_id), expires_at: session.expires_at };
    mw.finish(ctx, outcome)
}

} // verus!

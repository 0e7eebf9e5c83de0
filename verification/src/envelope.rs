//! The uniform response envelope: every successfully routed JSON request is
//! answered at HTTP 200 with a body `{error, expires_at, data}`, where
//! failure is signalled only through the `error` string and an empty payload.

use vstd::prelude::*;

use crate::account::Lang;
use crate::api_error::ApiErrorType;

verus! {

/// The payload of a successful login: the opaque bearer token the client
/// will present on subsequent requests.
#[derive(Debug)]
pub struct LoginResponse {
    pub session_token: String,
}

/// The payload of the session-info routes: the account's display name and
/// preferred language.
#[derive(Debug)]
pub struct SessionResponse {
    pub name: String,
    pub preferred_lang: Lang,
}

/// The closed set of payload shapes a handler can produce.
#[derive(Debug)]
pub enum HandlerResponse {
    Session(SessionResponse),
    Login(LoginResponse),
    Empty,
}

/// The mathematical model of a payload.
#[verifier::ext_equal]
pub enum HandlerResponseView {
    Session { name: Seq<char>, preferred_lang: Lang },
    Login { session_token: Seq<char> },
    Empty,
}

impl View for HandlerResponse {
    type V = HandlerResponseView;

    open spec fn view(&self) -> HandlerResponseView {
        match self {
            HandlerResponse::Session(s) => HandlerResponseView::Session {
                name: s.name@,
                preferred_lang: s.preferred_lang,
            },
            HandlerResponse::Login(l) => HandlerResponseView::Login {
                session_token: l.session_token@,
            },
            HandlerResponse::Empty => HandlerResponseView::Empty,
        }
    }
}

/// The mathematical model of an envelope.
#[verifier::ext_equal]
pub struct ApiResponseView {
    pub expires_at: int,
    pub error: Seq<char>,
    pub data: HandlerResponseView,
}

/// The envelope itself: the wire shape of every JSON response.
#[derive(Debug)]
pub struct ApiResponse {
    pub expires_at: i64,
    pub error: String,
    pub data: HandlerResponse,
}

impl View for ApiResponse {
    type V = ApiResponseView;

    open spec fn view(&self) -> ApiResponseView {
        ApiResponseView { expires_at: self.expires_at as int, error: self.error@, data: self.data@ }
    }
}

/// The envelope a given error slot, expiry and payload compose to: the error
/// renders to its label, or to the empty string when the slot is empty.
pub open spec fn envelope_view(
    error_slot: Option<ApiErrorType>,
    expires_at: int,
    data: HandlerResponseView,
) -> ApiResponseView {
    ApiResponseView {
        expires_at: expires_at,
        error: match error_slot {
            Some(e) => e.label_view(),
            None => Seq::<char>::empty(),
        },
        data: data,
    }
}

/// Composes the envelope from the request's error slot, the effective expiry
/// and the handler's payload.
pub fn envelope(error_slot: &Option<ApiErrorType>, expires_at: i64, data: HandlerResponse) -> (r:
    ApiResponse)
    ensures
        r@ == envelope_view(*error_slot, expires_at as int, data@),
{
    let error = match error_slot {
        Some(e) => e.label(),
        None => String::new(),
    };
    let r = ApiResponse { expires_at, error, data };
    proof {
        assert(r@ =~= envelope_view(*error_slot, expires_at as int, r.data@));
    }
    r
}

/// A fully rendered response: the transport status and the envelope body.
#[derive(Debug)]
pub struct RenderedResponse {
    pub status: u16,
    pub body: ApiResponse,
}

/// Renders an envelope for transport. The transport status is 200 for every
/// outcome this subsystem produces; failure travels only inside the body.
pub fn render(body: ApiResponse) -> (r: RenderedResponse)
    ensures
        r.status == 200,
        r.body@ == body@,
{
    RenderedResponse { status: 200, body }
}

} // verus!

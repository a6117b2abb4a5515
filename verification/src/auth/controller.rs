//! The session lifecycle controller: turns the resolver's answer into the
//! login response, and orchestrates logout.

use vstd::prelude::*;
use crate::auth::codec::{
    expired, extract, key_view, session_cookie, session_key, set_cookie_text, text_view, Cookie,
};
use crate::auth::error::AuthError;
use crate::auth::session::{
    first_step, is_final, step_after, Event, EventModel, Identity, Outcome, Step, StepModel,
    UserSession,
};
use crate::auth::store::{created, destroyed, loaded, Sessions};
use crate::config::Config;

verus! {

/// What the transport layer sends back: the status, the value of the
/// `Set-Cookie` header where there is one, and the body.
#[derive(Debug, Clone, PartialEq, Eq)]
pub struct Response {
    pub status: u16,
    pub set_cookie: Option<String>,
    pub body: String,
}

/// The mathematical content of a [`Response`].
pub struct ResponseModel {
    pub status: u16,
    pub set_cookie: Option<Seq<char>>,
    pub body: Seq<char>,
}

impl View for Response {
    type V = ResponseModel;

    open spec fn view(&self) -> ResponseModel {
        ResponseModel { status: self.status, set_cookie: key_view(self.set_cookie), body: self.body@ }
    }
}

/// The content of an optional response.
pub open spec fn response_view(r: Option<Response>) -> Option<ResponseModel> {
    match r {
        Some(response) => Some(response@),
        None => None,
    }
}

/// The status of a rejection: 503 where the store is unreachable, 401 for
/// everything else.
pub open spec fn status_of(error: AuthError) -> u16 {
    match error {
        AuthError::StoreUnavailable => 503,
        _ => 401,
    }
}

/// The body of a rejection. It names no internal detail: every failed
/// authentication reads alike.
pub open spec fn message_of(error: AuthError) -> Seq<char> {
    match error {
        AuthError::StoreUnavailable => "service unavailable"@,
        AuthError::MalformedRequest => "invalid input"@,
        _ => "invalid user"@,
    }
}

/// The response to a rejected request: its status, its message, no cookie.
pub open spec fn rejection(error: AuthError) -> ResponseModel {
    ResponseModel { status: status_of(error), set_cookie: None, body: message_of(error) }
}

/// The response to an authenticated login: 200 with an empty body, and the
/// new cookie where a session was minted.
pub open spec fn login_response(outcome: Outcome) -> ResponseModel {
    match outcome {
        Outcome::Created { cookie, body } => ResponseModel {
            status: 200,
            set_cookie: Some(set_cookie_text(cookie)),
            body: Seq::empty(),
        },
        Outcome::Existing(_) => ResponseModel { status: 200, set_cookie: None, body: Seq::empty() },
    }
}

/// The login response that a step of the resolver calls for, once it is
/// final.
pub open spec fn response_to(step: StepModel) -> Option<ResponseModel> {
    match step {
        StepModel::Resolved(outcome) => Some(login_response(outcome)),
        StepModel::Rejected(error) => Some(rejection(error)),
        _ => None,
    }
}

/// The response that turns a request away.
pub fn reject(error: AuthError) -> (r: Response)
    ensures
        r@ == rejection(error),
{
    match error {
        AuthError::StoreUnavailable => Response {
            status: 503,
            set_cookie: None,
            body: "service unavailable".to_string(),
        },
        AuthError::MalformedRequest => Response {
            status: 401,
            set_cookie: None,
            body: "invalid input".to_string(),
        },
        _ => Response { status: 401, set_cookie: None, body: "invalid user".to_string() },
    }
}

/// The login response for an authenticated request.
pub fn login(user_session: &UserSession) -> (r: Response)
    ensures
        r@ == login_response(user_session@),
{
    match user_session {
        UserSession::CreateNewSession { cookie, body } => Response {
            status: 200,
            set_cookie: Some(cookie.header_value()),
            body: String::new(),
        },
        UserSession::GetSession(_) => Response { status: 200, set_cookie: None, body: String::new() },
    }
}

/// The login response for a step of the resolver: `None` while the
/// resolver still waits for an outside call.
pub fn respond(step: &Step) -> (r: Option<Response>)
    ensures
        response_view(r) == response_to(step@),
        r.is_some() == is_final(step@),
{
    match step {
        Step::Resolved(session) => Some(login(session)),
        Step::Rejected(error) => Some(reject(*error)),
        _ => None,
    }
}

/// Where a logout stands: the one outside call it waits for, or its
/// response.
#[derive(Debug, Clone, PartialEq, Eq)]
pub enum LogoutStep {
    /// Load the session stored under `key`.
    LoadSession { key: String },
    /// Destroy the session stored under `key`.
    DestroySession { key: String },
    /// The logout is over.
    Done(Response),
}

/// The mathematical content of a [`LogoutStep`].
pub enum LogoutModel {
    LoadSession { key: Seq<char> },
    DestroySession { key: Seq<char> },
    Done(ResponseModel),
}

impl View for LogoutStep {
    type V = LogoutModel;

    open spec fn view(&self) -> LogoutModel {
        match *self {
            LogoutStep::LoadSession { key } => LogoutModel::LoadSession { key: key@ },
            LogoutStep::DestroySession { key } => LogoutModel::DestroySession { key: key@ },
            LogoutStep::Done(response) => LogoutModel::Done(response@),
        }
    }
}

/// The response to a completed logout: 200 with the cookie that expires the
/// one issued for `key`.
pub open spec fn logged_out(config: Config, key: Seq<char>) -> ResponseModel {
    ResponseModel {
        status: 200,
        set_cookie: Some(set_cookie_text(expired(session_cookie(config.session, key)))),
        body: Seq::empty(),
    }
}

/// The first step of a logout: without a session cookie the request is
/// turned away at once.
pub open spec fn logout_first(header: Option<Seq<char>>, cookie_name: Seq<char>) -> LogoutModel {
    match session_key(header, cookie_name) {
        Some(key) => LogoutModel::LoadSession { key },
        None => LogoutModel::Done(rejection(AuthError::MalformedRequest)),
    }
}

/// The step of a logout after `step`. A finished logout stays; a failure of
/// the store ends it with a rejection that leaves the client's cookie
/// alone; a key without a session is turned away; a live session is
/// destroyed, and only then is the cookie expired.
pub open spec fn logout_after(step: LogoutModel, event: EventModel, config: Config) -> LogoutModel {
    match (step, event) {
        (LogoutModel::Done(_), _) => step,
        (_, EventModel::StoreFailed) => LogoutModel::Done(rejection(AuthError::StoreUnavailable)),
        (LogoutModel::LoadSession { key }, EventModel::SessionLoaded(Some(_))) => {
            LogoutModel::DestroySession { key }
        },
        (LogoutModel::LoadSession { key }, EventModel::SessionLoaded(None)) => LogoutModel::Done(
            rejection(AuthError::InvalidSession),
        ),
        (LogoutModel::DestroySession { key }, EventModel::SessionDestroyed) => LogoutModel::Done(
            logged_out(config, key),
        ),
        _ => step,
    }
}

/// Starts a logout from the value of the request's `Cookie` header.
pub fn logout(header: Option<&str>, config: &Config) -> (r: LogoutStep)
    ensures
        r@ == logout_first(text_view(header), config.session.key@),
{
    match extract(header, &config.session) {
        Some(key) => LogoutStep::LoadSession { key },
        None => LogoutStep::Done(reject(AuthError::MalformedRequest)),
    }
}

/// Takes a logout from `step` to the next one on `event`.
pub fn logout_resume(step: LogoutStep, event: Event, config: &Config) -> (r: LogoutStep)
    ensures
        r@ == logout_after(step@, event@, *config),
{
    match step {
        LogoutStep::Done(response) => LogoutStep::Done(response),
        LogoutStep::LoadSession { key } => match event {
            Event::StoreFailed => LogoutStep::Done(reject(AuthError::StoreUnavailable)),
            Event::SessionLoaded(Some(_)) => LogoutStep::DestroySession { key },
            Event::SessionLoaded(None) => LogoutStep::Done(reject(AuthError::InvalidSession)),
            _ => LogoutStep::LoadSession { key },
        },
        LogoutStep::DestroySession { key } => match event {
            Event::StoreFailed => LogoutStep::Done(reject(AuthError::StoreUnavailable)),
            Event::SessionDestroyed => {
                let cookie = Cookie::build(&config.session, key.as_str()).expire();
                LogoutStep::Done(
                    Response {
                        status: 200,
                        set_cookie: Some(cookie.header_value()),
                        body: String::new(),
                    },
                )
            },
            _ => LogoutStep::DestroySession { key },
        },
    }
}

/// A cookie that names no stored session is a hard failure: the resolver
/// goes to the store, and on the store's answer that it holds nothing
/// under the key it rejects the request with 401 and no cookie. It never
/// falls through to the credentials in the body, and the rejection stays
/// whatever happens next, so no session is created.
pub proof fn stale_cookie_is_rejected(
    header: Option<Seq<char>>,
    payload: Option<(Seq<char>, Seq<char>)>,
    hashed: Option<Seq<char>>,
    config: Config,
)
    requires
        session_key(header, config.session.key@) is Some,
    ensures
        first_step(header, payload, config.session.key@) == (StepModel::LoadSession {
            key: session_key(header, config.session.key@).unwrap(),
        }),
        step_after(
            first_step(header, payload, config.session.key@),
            EventModel::SessionLoaded(None),
            hashed,
            config,
        ) == StepModel::Rejected(AuthError::InvalidSession),
        response_to(StepModel::Rejected(AuthError::InvalidSession)) == Some(
            ResponseModel { status: 401, set_cookie: None, body: "invalid user"@ },
        ),
        forall|event: EventModel, h: Option<Seq<char>>| #[trigger]
            step_after(StepModel::Rejected(AuthError::InvalidSession), event, h, config)
                == StepModel::Rejected(AuthError::InvalidSession),
{
}

/// A session that the store has kept is recognised when its key comes
/// back: the resolver answers with the identity that was stored, and asks
/// for no new cookie.
pub proof fn created_session_is_recognised(
    store: Sessions,
    key: Seq<char>,
    body: Identity,
    hashed: Option<Seq<char>>,
    config: Config,
)
    ensures
        step_after(
            StepModel::LoadSession { key },
            EventModel::SessionLoaded(loaded(created(store, key, body), key)),
            hashed,
            config,
        ) == StepModel::Resolved(Outcome::Existing(body)),
        response_to(StepModel::Resolved(Outcome::Existing(body))) == Some(
            ResponseModel { status: 200, set_cookie: None, body: Seq::empty() },
        ),
{
}

/// Once a session is destroyed its key opens nothing: a login with it is
/// rejected as an invalid session, and a second logout is turned away
/// with 401 and no cookie.
pub proof fn destroyed_session_is_rejected(
    store: Sessions,
    key: Seq<char>,
    hashed: Option<Seq<char>>,
    config: Config,
)
    ensures
        step_after(
            StepModel::LoadSession { key },
            EventModel::SessionLoaded(loaded(destroyed(store, key), key)),
            hashed,
            config,
        ) == StepModel::Rejected(AuthError::InvalidSession),
        logout_after(
            LogoutModel::LoadSession { key },
            EventModel::SessionLoaded(loaded(destroyed(store, key), key)),
            config,
        ) == LogoutModel::Done(rejection(AuthError::InvalidSession)),
        rejection(AuthError::InvalidSession).status == 401,
        rejection(AuthError::InvalidSession).set_cookie is None,
{
}

/// An unknown user and a wrong password are answered alike, in status,
/// header and body.
pub proof fn failure_reasons_look_alike()
    ensures
        rejection(AuthError::UserNotFound) == rejection(AuthError::InvalidCredentials),
        rejection(AuthError::UserNotFound).status == 401,
        rejection(AuthError::UserNotFound).set_cookie is None,
{
}

/// A store failure during logout is answered with 503 and no `Set-Cookie`,
/// so the client keeps its cookie and may try again.
pub proof fn failed_logout_keeps_cookie(step: LogoutModel, config: Config)
    requires
        !(step is Done),
    ensures
        logout_after(step, EventModel::StoreFailed, config) == LogoutModel::Done(
            ResponseModel { status: 503, set_cookie: None, body: "service unavailable"@ },
        ),
{
}

} // verus!

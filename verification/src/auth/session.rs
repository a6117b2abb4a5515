//! The session resolver: the per-request decision between an existing
//! session, a new one and a rejection.

use vstd::prelude::*;
use crate::auth::codec::{
    extract, session_cookie, session_key, text_view, Cookie, CookieModel,
};
use crate::auth::credentials::{argon2_encoded, verdict, verify};
use crate::auth::error::AuthError;
use crate::config::Config;
use crate::model::{User, UserModel};

verus! {

/// The authenticated principal, stored verbatim as the session's payload.
#[derive(Debug, Clone, PartialEq, Eq)]
pub struct UserSessionBody {
    pub user_id: i32,
    pub username: String,
}

/// The mathematical content of a [`UserSessionBody`].
pub struct Identity {
    pub user_id: i32,
    pub username: Seq<char>,
}

impl View for UserSessionBody {
    type V = Identity;

    open spec fn view(&self) -> Identity {
        Identity { user_id: self.user_id, username: self.username@ }
    }
}

/// How a request was authenticated.
#[derive(Debug, Clone, PartialEq, Eq)]
pub enum UserSession {
    /// A session was minted: the caller must emit the cookie.
    CreateNewSession { cookie: Cookie, body: UserSessionBody },
    /// The request's cookie named a live session: no cookie to emit.
    GetSession(UserSessionBody),
}

/// The mathematical content of a [`UserSession`].
pub enum Outcome {
    Created { cookie: CookieModel, body: Identity },
    Existing(Identity),
}

impl View for UserSession {
    type V = Outcome;

    open spec fn view(&self) -> Outcome {
        match *self {
            UserSession::CreateNewSession { cookie, body } => Outcome::Created {
                cookie: cookie@,
                body: body@,
            },
            UserSession::GetSession(body) => Outcome::Existing(body@),
        }
    }
}

/// The credentials body of a login request.
#[derive(Debug, Clone, PartialEq, Eq)]
pub struct LoginPayload {
    pub username: String,
    pub password: String,
}

/// Where the resolver stands: the one outside call it waits for, or its
/// final answer.
#[derive(Debug, Clone, PartialEq, Eq)]
pub enum Step {
    /// Load the session stored under `key`.
    LoadSession { key: String },
    /// Look up the user record named `username`.
    FindUser { username: String, password: String },
    /// Store a new session with this payload.
    StoreSession { body: UserSessionBody },
    /// The request is authenticated.
    Resolved(UserSession),
    /// The request is turned away.
    Rejected(AuthError),
}

/// The mathematical content of a [`Step`].
pub enum StepModel {
    LoadSession { key: Seq<char> },
    FindUser { username: Seq<char>, password: Seq<char> },
    StoreSession { body: Identity },
    Resolved(Outcome),
    Rejected(AuthError),
}

impl View for Step {
    type V = StepModel;

    open spec fn view(&self) -> StepModel {
        match *self {
            Step::LoadSession { key } => StepModel::LoadSession { key: key@ },
            Step::FindUser { username, password } => StepModel::FindUser {
                username: username@,
                password: password@,
            },
            Step::StoreSession { body } => StepModel::StoreSession { body: body@ },
            Step::Resolved(session) => StepModel::Resolved(session@),
            Step::Rejected(e) => StepModel::Rejected(e),
        }
    }
}

/// What an outside call came back with.
#[derive(Debug, Clone, PartialEq, Eq)]
pub enum Event {
    /// The store answered a load: the payload, or `None` for a key that is
    /// absent, expired or invalid.
    SessionLoaded(Option<UserSessionBody>),
    /// The user lookup answered.
    UserFetched(Option<User>),
    /// The store kept a new session under this key.
    SessionStored(String),
    /// The store dropped the session.
    SessionDestroyed,
    /// The store could not be reached.
    StoreFailed,
}

/// The mathematical content of an [`Event`].
pub enum EventModel {
    SessionLoaded(Option<Identity>),
    UserFetched(Option<UserModel>),
    SessionStored(Seq<char>),
    SessionDestroyed,
    StoreFailed,
}

impl View for Event {
    type V = EventModel;

    open spec fn view(&self) -> EventModel {
        match *self {
            Event::SessionLoaded(Some(body)) => EventModel::SessionLoaded(Some(body@)),
            Event::SessionLoaded(None) => EventModel::SessionLoaded(None),
            Event::UserFetched(Some(user)) => EventModel::UserFetched(Some(user@)),
            Event::UserFetched(None) => EventModel::UserFetched(None),
            Event::SessionStored(key) => EventModel::SessionStored(key@),
            Event::SessionDestroyed => EventModel::SessionDestroyed,
            Event::StoreFailed => EventModel::StoreFailed,
        }
    }
}

/// The user name and the password of an optional credentials body.
pub open spec fn payload_view(payload: Option<LoginPayload>) -> Option<(Seq<char>, Seq<char>)> {
    match payload {
        Some(p) => Some((p.username@, p.password@)),
        None => None,
    }
}

/// The resolver's first step: a cookie with the configured name sends it to
/// the store, whatever the body holds; without one, credentials send it to
/// the user lookup, and a request with neither is malformed.
pub open spec fn first_step(
    header: Option<Seq<char>>,
    payload: Option<(Seq<char>, Seq<char>)>,
    cookie_name: Seq<char>,
) -> StepModel {
    match session_key(header, cookie_name) {
        Some(key) => StepModel::LoadSession { key },
        None => match payload {
            Some(p) => StepModel::FindUser { username: p.0, password: p.1 },
            None => StepModel::Rejected(AuthError::MalformedRequest),
        },
    }
}

/// Whether a step is final: the resolver waits for nothing more.
pub open spec fn is_final(step: StepModel) -> bool {
    step is Resolved || step is Rejected
}

/// The step after `step`, given the hash of the supplied password where the
/// step is a user lookup. A final step stays; a failure of the store ends
/// any pending step; an event that does not answer the pending call leaves
/// the step as it is.
pub open spec fn step_after(
    step: StepModel,
    event: EventModel,
    hashed: Option<Seq<char>>,
    config: Config,
) -> StepModel {
    match (step, event) {
        (StepModel::Resolved(_), _) => step,
        (StepModel::Rejected(_), _) => step,
        (_, EventModel::StoreFailed) => StepModel::Rejected(AuthError::StoreUnavailable),
        (StepModel::LoadSession { key }, EventModel::SessionLoaded(Some(body))) => StepModel::Resolved(
            Outcome::Existing(body),
        ),
        (StepModel::LoadSession { key }, EventModel::SessionLoaded(None)) => StepModel::Rejected(
            AuthError::InvalidSession,
        ),
        (StepModel::FindUser { username, password }, EventModel::UserFetched(user)) => match verdict(
            username,
            user,
            hashed,
        ) {
            Ok(body) => StepModel::StoreSession { body },
            Err(e) => StepModel::Rejected(e),
        },
        (StepModel::StoreSession { body }, EventModel::SessionStored(key)) => StepModel::Resolved(
            Outcome::Created { cookie: session_cookie(config.session, key), body },
        ),
        _ => step,
    }
}

/// The hash that a step's decision rests on: that of the password a user
/// lookup carries under the configured salt.
pub open spec fn hash_for(step: StepModel, config: Config) -> Option<Seq<char>> {
    match step {
        StepModel::FindUser { username, password } => argon2_encoded(password, config.auth.salt@),
        _ => None,
    }
}

impl UserSession {
    /// Starts resolving a request from the value of its `Cookie` header and
    /// its credentials body (`None` where the body is missing or
    /// malformed).
    pub fn from_request(header: Option<&str>, payload: Option<LoginPayload>, config: &Config) -> (r:
        Step)
        ensures
            r@ == first_step(text_view(header), payload_view(payload), config.session.key@),
    {
        match extract(header, &config.session) {
            Some(key) => Step::LoadSession { key },
            None => match payload {
                Some(p) => Step::FindUser { username: p.username, password: p.password },
                None => Step::Rejected(AuthError::MalformedRequest),
            },
        }
    }

    /// Takes the resolver from `step` to the next one on `event`.
    pub fn resume(step: Step, event: Event, config: &Config) -> (r: Step)
        ensures
            r@ == step_after(step@, event@, hash_for(step@, *config), *config),
    {
        match step {
            Step::Resolved(session) => Step::Resolved(session),
            Step::Rejected(e) => Step::Rejected(e),
            Step::LoadSession { key } => match event {
                Event::StoreFailed => Step::Rejected(AuthError::StoreUnavailable),
                Event::SessionLoaded(Some(body)) => Step::Resolved(UserSession::GetSession(body)),
                Event::SessionLoaded(None) => Step::Rejected(AuthError::InvalidSession),
                _ => Step::LoadSession { key },
            },
            Step::FindUser { username, password } => match event {
                Event::StoreFailed => Step::Rejected(AuthError::StoreUnavailable),
                Event::UserFetched(user) => {
                    match verify(
                        username.as_str(),
                        password.as_str(),
                        user.as_ref(),
                        config.auth.salt.as_str(),
                    ) {
                        Ok(body) => Step::StoreSession { body },
                        Err(e) => Step::Rejected(e),
                    }
                },
                _ => Step::FindUser { username, password },
            },
            Step::StoreSession { body } => match event {
                Event::StoreFailed => Step::Rejected(AuthError::StoreUnavailable),
                Event::SessionStored(key) => Step::Resolved(
                    UserSession::CreateNewSession {
                        cookie: Cookie::build(&config.session, key.as_str()),
                        body,
                    },
                ),
                _ => Step::StoreSession { body },
            },
        }
    }
}

} // verus!

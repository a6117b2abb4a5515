use std::collections::HashMap;

use fork_backend::auth::codec::{extract, get_cookie_from_header, key_of, Cookie, RequestCookie};
use fork_backend::auth::controller::{
    login, logout, logout_resume, reject, respond, LogoutStep, Response,
};
use fork_backend::auth::credentials::{check_hash, verify};
use fork_backend::auth::error::AuthError;
use fork_backend::auth::session::{Event, LoginPayload, Step, UserSession, UserSessionBody};
use fork_backend::auth::store::{on_create, on_destroy, on_load, StoreUnavailable};
use fork_backend::config::{AuthConfig, Config, DatabaseConfig, LogConfig, SessionConfig};
use fork_backend::model::User;

const SALT: &str = "a-process-wide-salt";

fn config() -> Config {
    Config {
        database: DatabaseConfig { url: "postgres://localhost/app".to_string(), pool_size: 4 },
        log: LogConfig { level: "info".to_string() },
        session: SessionConfig {
            url: "redis://localhost".to_string(),
            key: "sid".to_string(),
            ttl: 86400,
            secure: false,
        },
        auth: AuthConfig { salt: SALT.to_string() },
    }
}

fn hash_of(password: &str) -> String {
    argon2::hash_encoded(password.as_bytes(), SALT.as_bytes(), &argon2::Config::default()).unwrap()
}

fn alice() -> User {
    User { id: 7, username: "alice".to_string(), password: hash_of("correct") }
}

fn alice_body() -> UserSessionBody {
    UserSessionBody { user_id: 7, username: "alice".to_string() }
}

fn payload(username: &str, password: &str) -> Option<LoginPayload> {
    Some(LoginPayload { username: username.to_string(), password: password.to_string() })
}

/// A store in memory: the sessions by key, and whether it can be reached.
struct Backend {
    sessions: HashMap<String, UserSessionBody>,
    users: Vec<User>,
    minted: u32,
    reachable: bool,
}

impl Backend {
    fn new() -> Backend {
        Backend { sessions: HashMap::new(), users: vec![alice()], minted: 0, reachable: true }
    }

    fn load(&self, key: &str) -> Event {
        if self.reachable {
            on_load(Ok(self.sessions.get(key).cloned()))
        } else {
            on_load(Err(StoreUnavailable))
        }
    }

    fn create(&mut self, body: UserSessionBody) -> Event {
        if !self.reachable {
            return on_create(Err(StoreUnavailable));
        }
        self.minted += 1;
        let key = format!("key{}", self.minted);
        self.sessions.insert(key.clone(), body);
        on_create(Ok(Some(key)))
    }

    fn destroy(&mut self, key: &str) -> Event {
        if self.reachable {
            self.sessions.remove(key);
            on_destroy(Ok(()))
        } else {
            on_destroy(Err(StoreUnavailable))
        }
    }

    fn find(&self, username: &str) -> Event {
        Event::UserFetched(self.users.iter().find(|u| u.username == username).cloned())
    }
}

fn drive_login(backend: &mut Backend, header: Option<&str>, body: Option<LoginPayload>) -> Response {
    let config = config();
    let mut step = UserSession::from_request(header, body, &config);
    loop {
        if let Some(response) = respond(&step) {
            return response;
        }
        let event = match &step {
            Step::LoadSession { key } => backend.load(key),
            Step::FindUser { username, .. } => backend.find(username),
            Step::StoreSession { body } => backend.create(body.clone()),
            _ => unreachable!(),
        };
        step = UserSession::resume(step, event, &config);
    }
}

fn drive_logout(backend: &mut Backend, header: Option<&str>) -> Response {
    let config = config();
    let mut step = logout(header, &config);
    loop {
        let event = match &step {
            LogoutStep::LoadSession { key } => backend.load(key),
            LogoutStep::DestroySession { key } => backend.destroy(key),
            LogoutStep::Done(response) => return response.clone(),
        };
        step = logout_resume(step, event, &config);
    }
}

#[test]
fn login_with_credentials_sets_cookie() {
    let mut backend = Backend::new();
    let response = drive_login(&mut backend, None, payload("alice", "correct"));
    assert_eq!(response.status, 200);
    assert_eq!(
        response.set_cookie,
        Some("sid=key1; HttpOnly; Path=/; Max-Age=86400".to_string())
    );
    assert_eq!(response.body, "");
    assert_eq!(backend.sessions.get("key1"), Some(&alice_body()));
}

#[test]
fn login_with_live_cookie_sets_no_cookie() {
    let mut backend = Backend::new();
    drive_login(&mut backend, None, payload("alice", "correct"));
    let response = drive_login(&mut backend, Some("sid=key1"), None);
    assert_eq!(response, Response { status: 200, set_cookie: None, body: String::new() });
    assert_eq!(backend.sessions.len(), 1);
}

#[test]
fn login_with_wrong_password_is_unauthorized() {
    let mut backend = Backend::new();
    let response = drive_login(&mut backend, None, payload("alice", "wrong"));
    assert_eq!(response.status, 401);
    assert_eq!(response.set_cookie, None);
    assert!(backend.sessions.is_empty());
}

#[test]
fn logout_destroys_session_and_expires_cookie() {
    let mut backend = Backend::new();
    drive_login(&mut backend, None, payload("alice", "correct"));
    let response = drive_logout(&mut backend, Some("sid=key1"));
    assert_eq!(response.status, 200);
    assert_eq!(response.set_cookie, Some("sid=; HttpOnly; Path=/; Max-Age=0".to_string()));
    assert_eq!(backend.load("key1"), Event::SessionLoaded(None));
}

#[test]
fn logout_without_cookie_is_unauthorized() {
    let mut backend = Backend::new();
    let response = drive_logout(&mut backend, None);
    assert_eq!(response.status, 401);
    assert_eq!(response.set_cookie, None);
}

#[test]
fn logout_with_unreachable_store_is_unavailable() {
    let mut backend = Backend::new();
    drive_login(&mut backend, None, payload("alice", "correct"));
    backend.reachable = false;
    let response = drive_logout(&mut backend, Some("sid=key1"));
    assert_eq!(
        response,
        Response { status: 503, set_cookie: None, body: "service unavailable".to_string() }
    );
    assert_eq!(backend.sessions.get("key1"), Some(&alice_body()));
}

#[test]
fn logout_fails_when_destroy_fails() {
    let config = config();
    let step = logout(Some("sid=key1"), &config);
    assert_eq!(step, LogoutStep::LoadSession { key: "key1".to_string() });
    let step = logout_resume(step, Event::SessionLoaded(Some(alice_body())), &config);
    assert_eq!(step, LogoutStep::DestroySession { key: "key1".to_string() });
    let step = logout_resume(step, Event::StoreFailed, &config);
    assert_eq!(step, LogoutStep::Done(reject(AuthError::StoreUnavailable)));
}

#[test]
fn logout_with_stale_cookie_is_unauthorized() {
    let mut backend = Backend::new();
    let response = drive_logout(&mut backend, Some("sid=gone"));
    assert_eq!(response.status, 401);
    assert_eq!(response.set_cookie, None);
}

#[test]
fn second_logout_is_unauthorized() {
    let mut backend = Backend::new();
    drive_login(&mut backend, None, payload("alice", "correct"));
    assert_eq!(drive_logout(&mut backend, Some("sid=key1")).status, 200);
    assert_eq!(drive_logout(&mut backend, Some("sid=key1")).status, 401);
}

#[test]
fn destroy_twice_succeeds_twice() {
    let mut backend = Backend::new();
    backend.sessions.insert("k".to_string(), alice_body());
    let config = config();
    let pending = LogoutStep::DestroySession { key: "k".to_string() };
    let first = logout_resume(pending.clone(), backend.destroy("k"), &config);
    let second = logout_resume(pending, backend.destroy("k"), &config);
    assert_eq!(first, second);
    assert!(matches!(second, LogoutStep::Done(Response { status: 200, .. })));
}

#[test]
fn created_session_loads_back() {
    let mut backend = Backend::new();
    let config = config();
    let stored = backend.create(alice_body());
    let step = UserSession::resume(Step::StoreSession { body: alice_body() }, stored, &config);
    let key = match step {
        Step::Resolved(UserSession::CreateNewSession { cookie, body }) => {
            assert_eq!(body, alice_body());
            cookie.value
        }
        other => panic!("unexpected step {:?}", other),
    };
    let step = UserSession::resume(Step::LoadSession { key: key.clone() }, backend.load(&key), &config);
    assert_eq!(step, Step::Resolved(UserSession::GetSession(alice_body())));
}

#[test]
fn built_cookie_extracts_to_its_key() {
    let config = config();
    let cookie = Cookie::build(&config.session, "q1w2+e3/r4==");
    let header = cookie.pair();
    assert_eq!(header, "sid=q1w2+e3/r4==");
    assert_eq!(extract(Some(header.as_str()), &config.session), Some("q1w2+e3/r4==".to_string()));
}

#[test]
fn stale_cookie_never_creates_a_session() {
    let mut backend = Backend::new();
    let response = drive_login(&mut backend, Some("sid=forged"), payload("alice", "correct"));
    assert_eq!(response, Response { status: 401, set_cookie: None, body: "invalid user".to_string() });
    assert!(backend.sessions.is_empty());
}

#[test]
fn unknown_user_and_wrong_password_look_alike() {
    let mut backend = Backend::new();
    let unknown = drive_login(&mut backend, None, payload("mallory", "correct"));
    let wrong = drive_login(&mut backend, None, payload("alice", "wrong"));
    assert_eq!(unknown, wrong);
    assert_eq!(unknown, Response { status: 401, set_cookie: None, body: "invalid user".to_string() });
    assert_eq!(reject(AuthError::UserNotFound), reject(AuthError::InvalidCredentials));
}

#[test]
fn login_without_cookie_or_body_is_malformed() {
    let config = config();
    let step = UserSession::from_request(None, None, &config);
    assert_eq!(step, Step::Rejected(AuthError::MalformedRequest));
    assert_eq!(
        respond(&step),
        Some(Response { status: 401, set_cookie: None, body: "invalid input".to_string() })
    );
}

#[test]
fn login_with_unreachable_store_is_unavailable() {
    let mut backend = Backend::new();
    backend.reachable = false;
    assert_eq!(drive_login(&mut backend, Some("sid=key1"), None).status, 503);
    assert_eq!(drive_login(&mut backend, None, payload("alice", "correct")).status, 503);
}

#[test]
fn cookie_takes_precedence_over_body() {
    let config = config();
    let step = UserSession::from_request(Some("sid=abc"), payload("alice", "correct"), &config);
    assert_eq!(step, Step::LoadSession { key: "abc".to_string() });
}

#[test]
fn foreign_cookie_falls_back_to_credentials() {
    let config = config();
    let step = UserSession::from_request(Some("theme=dark"), payload("alice", "pw"), &config);
    assert_eq!(
        step,
        Step::FindUser { username: "alice".to_string(), password: "pw".to_string() }
    );
}

#[test]
fn unanswering_event_leaves_step() {
    let config = config();
    let step = Step::LoadSession { key: "abc".to_string() };
    assert_eq!(UserSession::resume(step.clone(), Event::SessionDestroyed, &config), step);
    let done = Step::Rejected(AuthError::InvalidSession);
    assert_eq!(UserSession::resume(done.clone(), Event::StoreFailed, &config), done);
    assert_eq!(respond(&step), None);
}

#[test]
fn resolver_reports_each_error() {
    let config = config();
    let find = Step::FindUser { username: "alice".to_string(), password: "wrong".to_string() };
    assert_eq!(
        UserSession::resume(find.clone(), Event::UserFetched(None), &config),
        Step::Rejected(AuthError::UserNotFound)
    );
    assert_eq!(
        UserSession::resume(find.clone(), Event::UserFetched(Some(alice())), &config),
        Step::Rejected(AuthError::InvalidCredentials)
    );
    assert_eq!(
        UserSession::resume(find, Event::StoreFailed, &config),
        Step::Rejected(AuthError::StoreUnavailable)
    );
    assert_eq!(
        UserSession::resume(
            Step::LoadSession { key: "k".to_string() },
            Event::SessionLoaded(None),
            &config
        ),
        Step::Rejected(AuthError::InvalidSession)
    );
}

#[test]
fn verify_accepts_the_right_password_only() {
    let user = alice();
    assert_eq!(verify("alice", "correct", Some(&user), SALT), Ok(alice_body()));
    assert_eq!(verify("alice", "Correct", Some(&user), SALT), Err(AuthError::InvalidCredentials));
    assert_eq!(verify("alice", "correct", None, SALT), Err(AuthError::UserNotFound));
    assert_eq!(verify("bob", "correct", Some(&user), SALT), Err(AuthError::UserNotFound));
}

#[test]
fn verify_rejects_under_another_salt() {
    let user = alice();
    assert_eq!(
        verify("alice", "correct", Some(&user), "another-salt"),
        Err(AuthError::InvalidCredentials)
    );
    assert_eq!(verify("alice", "correct", Some(&user), "short"), Err(AuthError::InvalidCredentials));
}

#[test]
fn stored_plaintext_is_no_hash() {
    let user = User { id: 1, username: "bob".to_string(), password: "secret".to_string() };
    assert_eq!(verify("bob", "secret", Some(&user), SALT), Err(AuthError::InvalidCredentials));
}

#[test]
fn check_hash_compares_with_stored_hash() {
    let user = User { id: 3, username: "carol".to_string(), password: "$h".to_string() };
    let body = UserSessionBody { user_id: 3, username: "carol".to_string() };
    assert_eq!(check_hash("carol", Some(&user), Some("$h".to_string())), Ok(body));
    assert_eq!(
        check_hash("carol", Some(&user), Some("$x".to_string())),
        Err(AuthError::InvalidCredentials)
    );
    assert_eq!(check_hash("carol", Some(&user), None), Err(AuthError::InvalidCredentials));
    assert_eq!(check_hash("carol", None, Some("$h".to_string())), Err(AuthError::UserNotFound));
    assert_eq!(
        check_hash("dave", Some(&user), Some("$h".to_string())),
        Err(AuthError::UserNotFound)
    );
}

#[test]
fn header_parsing_fails_open() {
    assert_eq!(get_cookie_from_header(None), None);
    assert_eq!(get_cookie_from_header(Some("no pair here")), None);
    assert_eq!(get_cookie_from_header(Some("=value")), None);
    assert_eq!(get_cookie_from_header(Some("")), None);
    assert_eq!(
        get_cookie_from_header(Some(" sid = abc ; Path=/")),
        Some(RequestCookie { name: "sid".to_string(), value: "abc".to_string() })
    );
    assert_eq!(
        get_cookie_from_header(Some("sid=")),
        Some(RequestCookie { name: "sid".to_string(), value: String::new() })
    );
}

#[test]
fn key_needs_the_configured_name() {
    let config = config();
    let found = Some(RequestCookie { name: "sid".to_string(), value: "abc".to_string() });
    assert_eq!(key_of(found, &config.session), Some("abc".to_string()));
    let other = Some(RequestCookie { name: "SID".to_string(), value: "abc".to_string() });
    assert_eq!(key_of(other, &config.session), None);
    assert_eq!(key_of(None, &config.session), None);
    assert_eq!(extract(Some("garbage"), &config.session), None);
}

#[test]
fn built_cookie_has_the_session_attributes() {
    let mut config = config();
    config.session.secure = true;
    config.session.ttl = 60;
    let cookie = Cookie::build(&config.session, "abc");
    assert_eq!(
        cookie,
        Cookie {
            name: "sid".to_string(),
            value: "abc".to_string(),
            path: "/".to_string(),
            http_only: true,
            secure: true,
            max_age: 60,
        }
    );
    assert_eq!(cookie.header_value(), "sid=abc; HttpOnly; Secure; Path=/; Max-Age=60");
}

#[test]
fn expired_cookie_keeps_name_and_path() {
    let cookie = Cookie::build(&config().session, "abc").expire();
    assert_eq!(cookie.name, "sid");
    assert_eq!(cookie.path, "/");
    assert_eq!(cookie.value, "");
    assert_eq!(cookie.max_age, 0);
    assert!(cookie.http_only);
}

#[test]
fn login_maps_outcomes_to_responses() {
    let cookie = Cookie::build(&config().session, "abc");
    let created = UserSession::CreateNewSession { cookie, body: alice_body() };
    assert_eq!(
        login(&created),
        Response {
            status: 200,
            set_cookie: Some("sid=abc; HttpOnly; Path=/; Max-Age=86400".to_string()),
            body: String::new(),
        }
    );
    assert_eq!(
        login(&UserSession::GetSession(alice_body())),
        Response { status: 200, set_cookie: None, body: String::new() }
    );
}

#[test]
fn rejections_have_their_status() {
    assert_eq!(reject(AuthError::UserNotFound).status, 401);
    assert_eq!(reject(AuthError::InvalidCredentials).status, 401);
    assert_eq!(reject(AuthError::MalformedRequest).status, 401);
    assert_eq!(reject(AuthError::InvalidSession).status, 401);
    assert_eq!(reject(AuthError::StoreUnavailable).status, 503);
}

#[test]
fn store_answers_become_events() {
    assert_eq!(on_load(Ok(Some(alice_body()))), Event::SessionLoaded(Some(alice_body())));
    assert_eq!(on_load(Ok(None)), Event::SessionLoaded(None));
    assert_eq!(on_load(Err(StoreUnavailable)), Event::StoreFailed);
    assert_eq!(on_create(Ok(Some("k".to_string()))), Event::SessionStored("k".to_string()));
    assert_eq!(on_create(Ok(None)), Event::StoreFailed);
    assert_eq!(on_create(Err(StoreUnavailable)), Event::StoreFailed);
    assert_eq!(on_destroy(Ok(())), Event::SessionDestroyed);
    assert_eq!(on_destroy(Err(StoreUnavailable)), Event::StoreFailed);
}

#[test]
fn header_value_writes_flags_and_decimal_lifetime() {
    let mut cookie = Cookie {
        name: "n".to_string(),
        value: "v".to_string(),
        path: "/app".to_string(),
        http_only: false,
        secure: true,
        max_age: 1234567890,
    };
    assert_eq!(cookie.header_value(), "n=v; Secure; Path=/app; Max-Age=1234567890");
    cookie.secure = false;
    cookie.max_age = -5;
    assert_eq!(cookie.header_value(), "n=v; Path=/app; Max-Age=-5");
    cookie.max_age = i64::MIN;
    assert_eq!(cookie.header_value(), "n=v; Path=/app; Max-Age=-9223372036854775808");
    cookie.max_age = 0;
    cookie.http_only = true;
    assert_eq!(cookie.header_value(), "n=v; HttpOnly; Path=/app; Max-Age=0");
}

#[test]
fn key_with_separator_is_cut_short() {
    let config = config();
    let cookie = Cookie::build(&config.session, "left;right");
    assert_eq!(
        extract(Some(cookie.pair().as_str()), &config.session),
        Some("left".to_string())
    );
    let padded = Cookie::build(&config.session, " key ");
    assert_eq!(extract(Some(padded.pair().as_str()), &config.session), Some("key".to_string()));
}

#[test]
fn first_pair_of_the_header_counts() {
    let config = config();
    assert_eq!(extract(Some("sid=abc; theme=dark"), &config.session), Some("abc".to_string()));
    assert_eq!(extract(Some("theme=dark; sid=abc"), &config.session), None);
    assert_eq!(extract(Some("sid=a=b"), &config.session), Some("a=b".to_string()));
}

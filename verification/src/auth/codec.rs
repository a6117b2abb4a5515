//! The cookie codec: a pure transform between session keys and the text of
//! the `Cookie` and `Set-Cookie` headers.

use vstd::prelude::*;
use vstd::string::StringExecFns;
use crate::config::SessionConfig;

verus! {

/// A session cookie as the server issues it.
#[derive(Debug, Clone, PartialEq, Eq)]
pub struct Cookie {
    pub name: String,
    pub value: String,
    pub path: String,
    pub http_only: bool,
    pub secure: bool,
    /// Lifetime in seconds; zero tells the client to drop the cookie.
    pub max_age: i64,
}

/// The mathematical content of a [`Cookie`].
pub struct CookieModel {
    pub name: Seq<char>,
    pub value: Seq<char>,
    pub path: Seq<char>,
    pub http_only: bool,
    pub secure: bool,
    pub max_age: i64,
}

impl View for Cookie {
    type V = CookieModel;

    open spec fn view(&self) -> CookieModel {
        CookieModel {
            name: self.name@,
            value: self.value@,
            path: self.path@,
            http_only: self.http_only,
            secure: self.secure,
            max_age: self.max_age,
        }
    }
}

/// The name and value that a request presented.
#[derive(Debug, Clone, PartialEq, Eq)]
pub struct RequestCookie {
    pub name: String,
    pub value: String,
}

impl View for RequestCookie {
    type V = (Seq<char>, Seq<char>);

    open spec fn view(&self) -> (Seq<char>, Seq<char>) {
        (self.name@, self.value@)
    }
}

/// The name and value that the cookie parser reads out of a header value, or
/// `None` where it rejects the text.
pub uninterp spec fn cookie_parse(text: Seq<char>) -> Option<(Seq<char>, Seq<char>)>;

/// The decimal digits of `n`, most significant first.
pub open spec fn digits(n: nat) -> Seq<char>
    decreases n,
{
    let last = seq!['0', '1', '2', '3', '4', '5', '6', '7', '8', '9'][(n % 10) as int];
    if n < 10 {
        seq![last]
    } else {
        digits(n / 10).push(last)
    }
}

/// The decimal text of `n`, with a leading `-` where it is negative.
pub open spec fn decimal(n: int) -> Seq<char> {
    if n < 0 {
        seq!['-'] + digits((-n) as nat)
    } else {
        digits(n as nat)
    }
}

/// The text of a flag attribute: present or left out.
pub open spec fn flag_text(on: bool, text: Seq<char>) -> Seq<char> {
    if on {
        text
    } else {
        Seq::empty()
    }
}

/// The value of the `Set-Cookie` header that issues `cookie`: the pair,
/// then `HttpOnly` and `Secure` where they are set, the path and the
/// lifetime in seconds.
pub open spec fn set_cookie_text(cookie: CookieModel) -> Seq<char> {
    pair_text(cookie.name, cookie.value) + flag_text(cookie.http_only, "; HttpOnly"@) + flag_text(
        cookie.secure,
        "; Secure"@,
    ) + "; Path="@ + cookie.path + "; Max-Age="@ + decimal(cookie.max_age as int)
}

/// A visible ASCII character other than the separator `;`.
pub open spec fn is_cookie_char(c: char) -> bool {
    '!' <= c && c <= '~' && c != ';'
}

/// A non-empty cookie name without whitespace, `;` or `=`.
pub open spec fn is_plain_name(name: Seq<char>) -> bool {
    &&& name.len() > 0
    &&& forall|i: int| 0 <= i < name.len() ==> is_cookie_char(#[trigger] name[i]) && name[i] != '='
}

/// A cookie value without whitespace or `;`.
pub open spec fn is_plain_value(value: Seq<char>) -> bool {
    forall|i: int| 0 <= i < value.len() ==> is_cookie_char(#[trigger] value[i])
}

/// The text `name=value`, as a client sends a cookie back.
pub open spec fn pair_text(name: Seq<char>, value: Seq<char>) -> Seq<char> {
    name + seq!['='] + value
}

/// The content of an optional request cookie.
pub open spec fn option_view(r: Option<RequestCookie>) -> Option<(Seq<char>, Seq<char>)> {
    match r {
        Some(c) => Some(c@),
        None => None,
    }
}

/// The content of an optional header value.
pub open spec fn text_view(r: Option<&str>) -> Option<Seq<char>> {
    match r {
        Some(s) => Some(s@),
        None => None,
    }
}

/// The content of an optional owned text.
pub open spec fn key_view(r: Option<String>) -> Option<Seq<char>> {
    match r {
        Some(s) => Some(s@),
        None => None,
    }
}

/// Calls `cookie::Cookie::parse` and hands out the name and the value it
/// found. Trusted: the result is the parser's, a function of the text alone;
/// a text without `=` holds no pair and is rejected; and on a text
/// `name=value` made of visible ASCII without `;`, with a non-empty name
/// without `=`, the parser finds no attribute to split off and nothing to
/// trim, so it returns exactly that name and that value.
#[verifier::external_body]
fn parse_header(text: &str) -> (r: Option<RequestCookie>)
    ensures
        option_view(r) == cookie_parse(text@),
        !text@.contains('=') ==> r is None,
        forall|n: Seq<char>, v: Seq<char>|
            is_plain_name(n) && is_plain_value(v) && text@ == #[trigger] pair_text(n, v)
                ==> option_view(r) == Some((n, v)),
{
    match ::cookie::Cookie::parse(text) {
        Ok(c) => Some(RequestCookie { name: c.name().to_string(), value: c.value().to_string() }),
        Err(_) => None,
    }
}

/// Calls `cookie::Cookie::build` with the fields of `c` and formats the
/// cookie with its `Display`. Trusted: for a cookie with a path and a
/// lifetime, and without domain, same-site rule or expiry date, the
/// formatter writes `name=value`, then `; HttpOnly` and `; Secure` where
/// the flags are set, then `; Path=` with the path and `; Max-Age=` with
/// the whole seconds in decimal.
#[verifier::external_body]
fn format_cookie(c: &Cookie) -> (r: String)
    ensures
        r@ == set_cookie_text(c@),
{
    ::cookie::Cookie::build((c.name.clone(), c.value.clone()))
        .path(c.path.clone())
        .http_only(c.http_only)
        .secure(c.secure)
        .max_age(::time::Duration::seconds(c.max_age))
        .build()
        .to_string()
}

/// What a `Cookie` request header holds: the parsed name and value, or
/// `None` where the header is absent or its syntax is rejected.
pub open spec fn header_cookie(header: Option<Seq<char>>) -> Option<(Seq<char>, Seq<char>)> {
    match header {
        Some(text) => cookie_parse(text),
        None => None,
    }
}

/// The session key that a request carries: the value of the cookie in the
/// header, where that cookie bears the configured name.
pub open spec fn session_key(header: Option<Seq<char>>, name: Seq<char>) -> Option<Seq<char>> {
    match header_cookie(header) {
        Some(pair) => if pair.0 == name {
            Some(pair.1)
        } else {
            None
        },
        None => None,
    }
}

/// The cookie that carries `key` under the settings `config`.
pub open spec fn session_cookie(config: SessionConfig, key: Seq<char>) -> CookieModel {
    CookieModel {
        name: config.key@,
        value: key,
        path: seq!['/'],
        http_only: true,
        secure: config.secure,
        max_age: config.ttl,
    }
}

/// The cookie that tells a client to drop `existing`.
pub open spec fn expired(existing: CookieModel) -> CookieModel {
    CookieModel {
        name: existing.name,
        value: Seq::empty(),
        path: existing.path,
        http_only: existing.http_only,
        secure: existing.secure,
        max_age: 0,
    }
}

/// Reads the cookie of a request out of the value of its `Cookie` header.
/// A missing header and a header that the parser rejects both give `None`.
pub fn get_cookie_from_header(header: Option<&str>) -> (r: Option<RequestCookie>)
    ensures
        option_view(r) == header_cookie(text_view(header)),
        header matches Some(text) && !text@.contains('=') ==> r is None,
        forall|n: Seq<char>, v: Seq<char>|
            is_plain_name(n) && is_plain_value(v) && text_view(header) == Some(
                #[trigger] pair_text(n, v),
            ) ==> option_view(r) == Some((n, v)),
{
    match header {
        Some(text) => parse_header(text),
        None => None,
    }
}

/// The session key among what `get_cookie_from_header` found: the cookie's
/// value where the cookie bears the configured name.
pub fn key_of(found: Option<RequestCookie>, config: &SessionConfig) -> (r: Option<String>)
    ensures
        key_view(r) == match found {
            Some(c) => if c.name@ == config.key@ {
                Some(c.value@)
            } else {
                None
            },
            None => None,
        },
{
    match found {
        Some(c) => if c.name == config.key {
            Some(c.value)
        } else {
            None
        },
        None => None,
    }
}

/// Extracts the session key from the value of the `Cookie` header.
///
/// Whatever key was issued under a plain cookie name comes back unchanged
/// when the client returns it as `name=key`; a header without any pair
/// carries no key.
pub fn extract(header: Option<&str>, config: &SessionConfig) -> (r: Option<String>)
    ensures
        key_view(r) == session_key(text_view(header), config.key@),
        header matches Some(text) && !text@.contains('=') ==> r is None,
        forall|key: Seq<char>|
            is_plain_name(config.key@) && is_plain_value(key) && text_view(header) == Some(
                #[trigger] pair_text(config.key@, key),
            ) ==> key_view(r) == Some(key),
{
    key_of(get_cookie_from_header(header), config)
}

/// The path `/`, under which the session cookie is valid.
fn root_path() -> (r: String)
    ensures
        r@ == seq!['/'],
{
    proof {
        reveal_strlit("/");
    }
    let r = "/".to_string();
    assert(r@ =~= seq!['/']);
    r
}

impl Cookie {
    /// Builds the session cookie for `key`: path `/`, always `HttpOnly`,
    /// `Secure` by the deployment's policy, living as long as the session.
    pub fn build(config: &SessionConfig, key: &str) -> (r: Cookie)
        ensures
            r@ == session_cookie(*config, key@),
    {
        Cookie {
            name: config.key.clone(),
            value: key.to_string(),
            path: root_path(),
            http_only: true,
            secure: config.secure,
            max_age: config.ttl,
        }
    }

    /// The cookie that expires `self`: same name and path, no value, and a
    /// lifetime of zero.
    pub fn expire(&self) -> (r: Cookie)
        ensures
            r@ == expired(self@),
    {
        Cookie {
            name: self.name.clone(),
            value: String::new(),
            path: self.path.clone(),
            http_only: self.http_only,
            secure: self.secure,
            max_age: 0,
        }
    }

    /// The text `name=value` that a client puts in its `Cookie` header.
    pub fn pair(&self) -> (r: String)
        ensures
            r@ == pair_text(self.name@, self.value@),
    {
        proof {
            reveal_strlit("=");
        }
        let r = self.name.clone().concat("=").concat(self.value.as_str());
        assert(r@ =~= pair_text(self.name@, self.value@));
        r
    }

    /// The value of the `Set-Cookie` header that issues this cookie.
    pub fn header_value(&self) -> (r: String)
        ensures
            r@ == set_cookie_text(self@),
    {
        format_cookie(self)
    }
}

} // verus!

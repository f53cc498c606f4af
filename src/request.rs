//! The HTTP requests of the four operations.
use vstd::prelude::*;
use crate::json::{encode_json_object, json_object_text};

verus! {

/// Path of the registration endpoint.
pub const REGISTER_PATH: &'static str = "/auth/users/";

/// Path of the login endpoint.
pub const LOGIN_PATH: &'static str = "/auth/token/login/";

/// Path of the command lookup endpoint.
pub const LOOKUP_PATH: &'static str = "/api/1/command/";

/// Path of the command explanation endpoint.
pub const EXPLAIN_PATH: &'static str = "/api/1/explain/";

/// Keyword in front of the credential in the `Authorization` header.
pub const AUTH_SCHEME: &'static str = "Token ";

/// A JSON POST request, ready to send.
#[derive(Debug, PartialEq, Eq)]
pub struct HttpRequest {
    /// Full URL: the base host followed by the endpoint path.
    pub url: String,
    /// JSON object text of the body.
    pub body: String,
    /// Value of the `Authorization` header, if the request carries a credential.
    pub authorization: Option<String>,
}

/// The `Authorization` header value that carries `token`.
pub open spec fn authorization_of(token: Seq<char>) -> Seq<char> {
    AUTH_SCHEME@ + token
}

/// The header of a request made with an optional credential.
pub open spec fn authorization_view(token: Option<&str>) -> Option<Seq<char>> {
    match token {
        Some(t) => Some(authorization_of(t@)),
        None => None,
    }
}

/// The view of an optional header value.
pub open spec fn header_view(h: Option<String>) -> Option<Seq<char>> {
    match h {
        Some(s) => Some(s@),
        None => None,
    }
}

/// `r` is the registration request for `email` and `password` at `host`.
pub open spec fn is_register_request(
    r: HttpRequest,
    host: Seq<char>,
    email: Seq<char>,
    password: Seq<char>,
) -> bool {
    &&& r.url@ == host + REGISTER_PATH@
    &&& r.body@ == json_object_text(
        seq![("email"@, email), ("password"@, password), ("password_re"@, password)],
    )
    &&& r.authorization is None
}

/// `r` is the login request for `email` and `password` at `host`.
pub open spec fn is_login_request(
    r: HttpRequest,
    host: Seq<char>,
    email: Seq<char>,
    password: Seq<char>,
) -> bool {
    &&& r.url@ == host + LOGIN_PATH@
    &&& r.body@ == json_object_text(seq![("email"@, email), ("password"@, password)])
    &&& r.authorization is None
}

/// `r` asks `host` at `path` about `text`, sent under `key`, on behalf of a
/// client at `version`, with the credential if there is one.
pub open spec fn is_answer_request(
    r: HttpRequest,
    host: Seq<char>,
    path: Seq<char>,
    key: Seq<char>,
    text: Seq<char>,
    version: Seq<char>,
    token: Option<&str>,
) -> bool {
    &&& r.url@ == host + path
    &&& r.body@ == json_object_text(seq![(key, text), ("version"@, version)])
    &&& header_view(r.authorization) == authorization_view(token)
}

/// `r` asks `host` for a command matching `description`.
pub open spec fn is_lookup_request(
    r: HttpRequest,
    host: Seq<char>,
    description: Seq<char>,
    version: Seq<char>,
    token: Option<&str>,
) -> bool {
    is_answer_request(r, host, LOOKUP_PATH@, "description"@, description, version, token)
}

/// `r` asks `host` to explain the shell command `command`.
pub open spec fn is_explain_request(
    r: HttpRequest,
    host: Seq<char>,
    command: Seq<char>,
    version: Seq<char>,
    token: Option<&str>,
) -> bool {
    is_answer_request(r, host, EXPLAIN_PATH@, "command"@, command, version, token)
}

fn member(name: &str, value: &str) -> (r: (String, String))
    ensures
        r.0@ == name@,
        r.1@ == value@,
{
    (String::from_str(name), String::from_str(value))
}

fn url_of(host: &str, path: &str) -> (r: String)
    ensures
        r@ == host@ + path@,
{
    String::from_str(host).concat(path)
}

/// The request that registers a new account; the password is sent twice,
/// as the password and as its confirmation.
pub fn register_request(host: &str, email: &str, password: &str) -> (r: HttpRequest)
    ensures
        is_register_request(r, host@, email@, password@),
{
    let members = vec![
        member("email", email),
        member("password", password),
        member("password_re", password),
    ];
    let body = encode_json_object(&members);
    proof {
        assert(crate::json::member_views(members@) =~= seq![
            ("email"@, email@),
            ("password"@, password@),
            ("password_re"@, password@),
        ]);
    }
    HttpRequest { url: url_of(host, REGISTER_PATH), body, authorization: None }
}

/// The request that exchanges an email and a password for a credential.
pub fn login_request(host: &str, email: &str, password: &str) -> (r: HttpRequest)
    ensures
        is_login_request(r, host@, email@, password@),
{
    let members = vec![member("email", email), member("password", password)];
    let body = encode_json_object(&members);
    proof {
        assert(crate::json::member_views(members@) =~= seq![
            ("email"@, email@),
            ("password"@, password@),
        ]);
    }
    HttpRequest { url: url_of(host, LOGIN_PATH), body, authorization: None }
}

fn authorization(token: Option<&str>) -> (r: Option<String>)
    ensures
        header_view(r) == authorization_view(token),
{
    match token {
        Some(t) => Some(String::from_str(AUTH_SCHEME).concat(t)),
        None => None,
    }
}

/// A request to one of the two answering endpoints: the text under `key`,
/// the client's version under `"version"`, and the credential if there is one.
fn answer_request(
    host: &str,
    path: &str,
    key: &str,
    text: &str,
    version: &str,
    token: Option<&str>,
) -> (r: HttpRequest)
    ensures
        is_answer_request(r, host@, path@, key@, text@, version@, token),
{
    let members = vec![member(key, text), member("version", version)];
    let body = encode_json_object(&members);
    proof {
        assert(crate::json::member_views(members@) =~= seq![
            (key@, text@),
            ("version"@, version@),
        ]);
    }
    HttpRequest { url: url_of(host, path), body, authorization: authorization(token) }
}

/// The request that asks for a shell command matching `description`.
pub fn lookup_request(host: &str, description: &str, version: &str, token: Option<&str>) -> (r:
    HttpRequest)
    ensures
        is_lookup_request(r, host@, description@, version@, token),
{
    answer_request(host, LOOKUP_PATH, "description", description, version, token)
}

/// The request that asks for an explanation of the shell command `command`.
pub fn explain_request(host: &str, command: &str, version: &str, token: Option<&str>) -> (r:
    HttpRequest)
    ensures
        is_explain_request(r, host@, command@, version@, token),
{
    answer_request(host, EXPLAIN_PATH, "command", command, version, token)
}

} // verus!

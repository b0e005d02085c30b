//! The outbound request specification: method, URL, bearer authentication
//! material, and body. Pure assembly; no network access happens here.

use vstd::prelude::*;
use vstd::string::*;

use crate::args::ArgumentSet;

verus! {

/// HTTP methods used by the node's administrative API.
#[derive(Clone, Copy, Debug, PartialEq, Eq, Structural)]
pub enum Method {
    Get,
    Post,
    Put,
    Delete,
}

/// The body of an outbound request: absent, a raw unencoded string, or a
/// structured map to be serialized as a flat JSON object.
#[derive(Debug, Clone, PartialEq, Eq)]
pub enum Body {
    Empty,
    Raw(String),
    Json(ArgumentSet),
}

/// A fully specified outbound request, handed to the transport collaborator
/// and never mutated afterward.
#[derive(Debug, Clone, PartialEq, Eq)]
pub struct RequestSpec {
    pub method: Method,
    pub url: String,
    /// The bearer authentication material, absent for the few
    /// unauthenticated commands; normally the raw token, but a composite
    /// `user:token` string for payments made on behalf of an account.
    pub bearer: Option<String>,
    pub body: Body,
}

/// Composes a resolved method, URL, authentication material and body into
/// one request specification.
pub fn build(method: Method, url: String, bearer: Option<String>, body: Body) -> (r: RequestSpec)
    ensures
        r.method == method,
        r.url == url,
        r.bearer == bearer,
        r.body == body,
{
    RequestSpec { method, url, bearer, body }
}

/// Joins a base URL and a fixed path suffix.
pub fn url2(base: &str, suffix: &str) -> (r: String)
    ensures
        r@ == base@ + suffix@,
{
    let mut s: String = base.to_owned();
    s.append(suffix);
    s
}

/// Joins a base URL, a fixed path prefix, and one path parameter.
pub fn url3(base: &str, prefix: &str, param: &str) -> (r: String)
    ensures
        r@ == base@ + prefix@ + param@,
{
    let mut s: String = base.to_owned();
    s.append(prefix);
    s.append(param);
    s
}

/// Joins a base URL, a fixed path prefix, one path parameter, and a fixed
/// path suffix.
pub fn url4(base: &str, prefix: &str, param: &str, suffix: &str) -> (r: String)
    ensures
        r@ == base@ + prefix@ + param@ + suffix@,
{
    let mut s: String = base.to_owned();
    s.append(prefix);
    s.append(param);
    s.append(suffix);
    s
}

/// The composite bearer material `user:token` used when paying on behalf of
/// an account.
pub fn composite_bearer(user: &str, token: &str) -> (r: String)
    ensures
        r@ == user@ + ":"@ + token@,
{
    let mut s: String = user.to_owned();
    s.append(":");
    s.append(token);
    s
}

} // verus!

//! The per-command handlers and the top-level dispatch: each command path
//! resolves to exactly one handler, and each handler translates the raw
//! arguments of one invocation into an outbound request specification.

use vstd::prelude::*;

use crate::Error;
use crate::args::RawArguments;
use crate::args::auth_key;
use crate::args::first_values;
use crate::args::halve_values;
use crate::args::pairs_of;
use crate::args::extract_args;
use crate::args::unflatten_pairs;
use crate::request::Body;
use crate::request::Method;
use crate::request::RequestSpec;
use crate::request::build;
use crate::request::composite_bearer;
use crate::request::url2;
use crate::request::url3;
use crate::request::url4;

verus! {

pub open spec fn username_key() -> Seq<char> {
    "username"@
}

pub open spec fn sender_key() -> Seq<char> {
    "sender_username"@
}

pub open spec fn prefix_key() -> Seq<char> {
    "prefix"@
}

pub open spec fn destination_key() -> Seq<char> {
    "destination"@
}

pub open spec fn overwrite_key() -> Seq<char> {
    "overwrite"@
}

pub open spec fn is_admin_key() -> Seq<char> {
    "is_admin"@
}

/// The non-auth arguments of an invocation: the first value of each
/// argument that captured one, the authentication token taken out.
pub open spec fn clean_args(raw: Map<Seq<char>, Seq<Seq<char>>>) -> Map<Seq<char>, Seq<char>> {
    first_values(raw).remove(auth_key())
}

/// Whether the bearer material of a request is exactly the given string.
pub open spec fn bearer_is(req: RequestSpec, b: Seq<char>) -> bool {
    match req.bearer {
        Some(t) => t@ == b,
        None => false,
    }
}

/// Whether the body of a request is the given map serialized as JSON.
pub open spec fn body_is_json(req: RequestSpec, m: Map<Seq<char>, Seq<char>>) -> bool {
    match req.body {
        Body::Json(set) => set@ == m,
        _ => false,
    }
}

/// A handler failed because the authentication token was never captured:
/// the error every authenticated command shares.
pub open spec fn missing_auth_err(raw: Map<Seq<char>, Seq<Seq<char>>>, e: Error) -> bool {
    e matches Error::MissingAuthToken && !first_values(raw).dom().contains(auth_key())
}

/// A handler failed because one required argument is absent: the token was
/// there, the named argument was not.
pub open spec fn missing_arg_err(
    raw: Map<Seq<char>, Seq<Seq<char>>>,
    e: Error,
    key: Seq<char>,
) -> bool {
    &&& e matches Error::MissingArgument(n) && n@ == key
    &&& first_values(raw).dom().contains(auth_key())
    &&& !clean_args(raw).dom().contains(key)
}

/// What `accounts balance` produces: a GET of the account's balance path,
/// authenticated with the bare token, with no body.
pub open spec fn balance_post(
    base: Seq<char>,
    raw: Map<Seq<char>, Seq<Seq<char>>>,
    r: Result<RequestSpec, Error>,
) -> bool {
    let fv = first_values(raw);
    let args = clean_args(raw);
    match r {
        Ok(req) => {
            &&& fv.dom().contains(auth_key())
            &&& args.dom().contains(username_key())
            &&& req.method == Method::Get
            &&& req.url@ == base + "/accounts/"@ + args[username_key()] + "/balance"@
            &&& bearer_is(req, fv[auth_key()])
            &&& req.body matches Body::Empty
        },
        Err(e) => missing_auth_err(raw, e) || missing_arg_err(raw, e, username_key()),
    }
}

/// What `accounts delete` produces: a DELETE of the account's path,
/// authenticated with the bare token, with no body.
pub open spec fn delete_post(
    base: Seq<char>,
    raw: Map<Seq<char>, Seq<Seq<char>>>,
    r: Result<RequestSpec, Error>,
) -> bool {
    let fv = first_values(raw);
    let args = clean_args(raw);
    match r {
        Ok(req) => {
            &&& fv.dom().contains(auth_key())
            &&& args.dom().contains(username_key())
            &&& req.method == Method::Delete
            &&& req.url@ == base + "/accounts/"@ + args[username_key()]
            &&& bearer_is(req, fv[auth_key()])
            &&& req.body matches Body::Empty
        },
        Err(e) => missing_auth_err(raw, e) || missing_arg_err(raw, e, username_key()),
    }
}

/// What `accounts info` produces: a GET of the account's path,
/// authenticated with the bare token, with no body.
pub open spec fn info_post(
    base: Seq<char>,
    raw: Map<Seq<char>, Seq<Seq<char>>>,
    r: Result<RequestSpec, Error>,
) -> bool {
    let fv = first_values(raw);
    let args = clean_args(raw);
    match r {
        Ok(req) => {
            &&& fv.dom().contains(auth_key())
            &&& args.dom().contains(username_key())
            &&& req.method == Method::Get
            &&& req.url@ == base + "/accounts/"@ + args[username_key()]
            &&& bearer_is(req, fv[auth_key()])
            &&& req.body matches Body::Empty
        },
        Err(e) => missing_auth_err(raw, e) || missing_arg_err(raw, e, username_key()),
    }
}

/// What `accounts list` produces: a GET of the accounts collection,
/// authenticated with the bare token, all non-auth arguments ignored.
pub open spec fn list_post(
    base: Seq<char>,
    raw: Map<Seq<char>, Seq<Seq<char>>>,
    r: Result<RequestSpec, Error>,
) -> bool {
    let fv = first_values(raw);
    match r {
        Ok(req) => {
            &&& fv.dom().contains(auth_key())
            &&& req.method == Method::Get
            &&& req.url@ == base + "/accounts"@
            &&& bearer_is(req, fv[auth_key()])
            &&& req.body matches Body::Empty
        },
        Err(e) => missing_auth_err(raw, e),
    }
}

/// What `accounts create` produces. With the overwrite flag: a PUT of the
/// accounts collection with no username in the path. Without it: a POST of
/// the account's path, the username still present as a body field. Either
/// way the body is the whole clean argument map as JSON.
pub open spec fn create_post(
    base: Seq<char>,
    raw: Map<Seq<char>, Seq<Seq<char>>>,
    r: Result<RequestSpec, Error>,
) -> bool {
    let fv = first_values(raw);
    let args = clean_args(raw);
    match r {
        Ok(req) => {
            &&& fv.dom().contains(auth_key())
            &&& bearer_is(req, fv[auth_key()])
            &&& body_is_json(req, args)
            &&& if raw.dom().contains(overwrite_key()) {
                req.method == Method::Put && req.url@ == base + "/accounts"@
            } else {
                &&& args.dom().contains(username_key())
                &&& req.method == Method::Post
                &&& req.url@ == base + "/accounts/"@ + args[username_key()]
            }
        },
        Err(e) => missing_auth_err(raw, e) || (!raw.dom().contains(overwrite_key())
            && missing_arg_err(raw, e, username_key())),
    }
}

/// What `accounts update` produces with the admin flag: a PUT of the bare
/// account path, the body the clean arguments without the username.
pub open spec fn update_admin_post(
    base: Seq<char>,
    raw: Map<Seq<char>, Seq<Seq<char>>>,
    r: Result<RequestSpec, Error>,
) -> bool {
    let fv = first_values(raw);
    let args = clean_args(raw);
    match r {
        Ok(req) => {
            &&& fv.dom().contains(auth_key())
            &&& args.dom().contains(username_key())
            &&& req.method == Method::Put
            &&& req.url@ == base + "/accounts/"@ + args[username_key()]
            &&& bearer_is(req, fv[auth_key()])
            &&& body_is_json(req, args.remove(username_key()))
        },
        Err(e) => missing_auth_err(raw, e) || missing_arg_err(raw, e, username_key()),
    }
}

/// What `accounts update` produces without the admin flag: a PUT of the
/// account's settings sub-path, the body the clean arguments without the
/// username.
pub open spec fn update_settings_post(
    base: Seq<char>,
    raw: Map<Seq<char>, Seq<Seq<char>>>,
    r: Result<RequestSpec, Error>,
) -> bool {
    let fv = first_values(raw);
    let args = clean_args(raw);
    match r {
        Ok(req) => {
            &&& fv.dom().contains(auth_key())
            &&& args.dom().contains(username_key())
            &&& req.method == Method::Put
            &&& req.url@ == base + "/accounts/"@ + args[username_key()] + "/settings"@
            &&& bearer_is(req, fv[auth_key()])
            &&& body_is_json(req, args.remove(username_key()))
        },
        Err(e) => missing_auth_err(raw, e) || missing_arg_err(raw, e, username_key()),
    }
}

/// What `pay` produces: a POST of the sender's payments path, the bearer
/// material the composite `user:token`, the body the clean arguments
/// without the sender name.
pub open spec fn pay_post(
    base: Seq<char>,
    raw: Map<Seq<char>, Seq<Seq<char>>>,
    r: Result<RequestSpec, Error>,
) -> bool {
    let fv = first_values(raw);
    let args = clean_args(raw);
    match r {
        Ok(req) => {
            &&& fv.dom().contains(auth_key())
            &&& args.dom().contains(sender_key())
            &&& req.method == Method::Post
            &&& req.url@ == base + "/accounts/"@ + args[sender_key()] + "/payments"@
            &&& bearer_is(req, args[sender_key()] + ":"@ + fv[auth_key()])
            &&& body_is_json(req, args.remove(sender_key()))
        },
        Err(e) => missing_auth_err(raw, e) || missing_arg_err(raw, e, sender_key()),
    }
}

/// What `routes set` produces: a PUT of the static route's path for the
/// prefix, the body the raw destination text, not JSON-encoded.
pub open spec fn route_set_post(
    base: Seq<char>,
    raw: Map<Seq<char>, Seq<Seq<char>>>,
    r: Result<RequestSpec, Error>,
) -> bool {
    let fv = first_values(raw);
    let args = clean_args(raw);
    match r {
        Ok(req) => {
            &&& fv.dom().contains(auth_key())
            &&& args.dom().contains(prefix_key())
            &&& args.dom().contains(destination_key())
            &&& req.method == Method::Put
            &&& req.url@ == base + "/routes/static/"@ + args[prefix_key()]
            &&& bearer_is(req, fv[auth_key()])
            &&& req.body matches Body::Raw(d) && d@ == args[destination_key()]
        },
        Err(e) => missing_auth_err(raw, e) || missing_arg_err(raw, e, prefix_key()) || (
        args.dom().contains(prefix_key()) && missing_arg_err(raw, e, destination_key())),
    }
}

/// What the three batch `set-all` commands produce: a PUT of the given
/// collection path, authenticated with the bare token, the body the
/// unflattened pair map as JSON.
pub open spec fn set_all_post(
    base: Seq<char>,
    path: Seq<char>,
    raw: Map<Seq<char>, Seq<Seq<char>>>,
    r: Result<RequestSpec, Error>,
) -> bool {
    let fv = first_values(raw);
    match r {
        Ok(req) => {
            &&& fv.dom().contains(auth_key())
            &&& req.method == Method::Put
            &&& req.url@ == base + path
            &&& bearer_is(req, fv[auth_key()])
            &&& body_is_json(req, pairs_of(halve_values(raw)))
        },
        Err(e) => missing_auth_err(raw, e),
    }
}

/// What the unauthenticated read-only commands produce: a GET of the given
/// path with no bearer material and no body, whatever arguments were
/// supplied.
pub open spec fn open_get_post(
    base: Seq<char>,
    path: Seq<char>,
    r: Result<RequestSpec, Error>,
) -> bool {
    match r {
        Ok(req) => {
            &&& req.method == Method::Get
            &&& req.url@ == base + path
            &&& req.bearer matches None
            &&& req.body matches Body::Empty
        },
        Err(_) => false,
    }
}

/// The translation core bound to one node: it knows the node's base URL and
/// turns each invocation into the request to issue against it.
#[derive(Debug, Clone, PartialEq, Eq)]
pub struct NodeClient {
    pub url: String,
}

impl NodeClient {
    pub fn new(url: String) -> (r: NodeClient)
        ensures
            r.url == url,
    {
        NodeClient { url }
    }

    pub fn get_account_balance(&self, raw: &RawArguments) -> (r: Result<RequestSpec, Error>)
        ensures
            balance_post(self.url@, raw@, r),
    {
        let (auth, mut args) = match extract_args(raw) {
            Ok(p) => p,
            Err(e) => {
                return Err(e);
            },
        };
        let user = match args.remove("username") {
            Some(u) => u,
            None => {
                return Err(Error::MissingArgument("username"));
            },
        };
        let url = url4(self.url.as_str(), "/accounts/", user.as_str(), "/balance");
        Ok(build(Method::Get, url, Some(auth), Body::Empty))
    }

    pub fn delete_account(&self, raw: &RawArguments) -> (r: Result<RequestSpec, Error>)
        ensures
            delete_post(self.url@, raw@, r),
    {
        let (auth, args) = match extract_args(raw) {
            Ok(p) => p,
            Err(e) => {
                return Err(e);
            },
        };
        let user = match args.get("username") {
            Some(u) => u,
            None => {
                return Err(Error::MissingArgument("username"));
            },
        };
        let url = url3(self.url.as_str(), "/accounts/", user.as_str());
        Ok(build(Method::Delete, url, Some(auth), Body::Empty))
    }

    pub fn get_account(&self, raw: &RawArguments) -> (r: Result<RequestSpec, Error>)
        ensures
            info_post(self.url@, raw@, r),
    {
        let (auth, args) = match extract_args(raw) {
            Ok(p) => p,
            Err(e) => {
                return Err(e);
            },
        };
        let user = match args.get("username") {
            Some(u) => u,
            None => {
                return Err(Error::MissingArgument("username"));
            },
        };
        let url = url3(self.url.as_str(), "/accounts/", user.as_str());
        Ok(build(Method::Get, url, Some(auth), Body::Empty))
    }

    pub fn get_accounts(&self, raw: &RawArguments) -> (r: Result<RequestSpec, Error>)
        ensures
            list_post(self.url@, raw@, r),
    {
        let (auth, _args) = match extract_args(raw) {
            Ok(p) => p,
            Err(e) => {
                return Err(e);
            },
        };
        let url = url2(self.url.as_str(), "/accounts");
        Ok(build(Method::Get, url, Some(auth), Body::Empty))
    }

    pub fn post_or_put_accounts(&self, raw: &RawArguments) -> (r: Result<RequestSpec, Error>)
        ensures
            create_post(self.url@, raw@, r),
    {
        let (auth, args) = match extract_args(raw) {
            Ok(p) => p,
            Err(e) => {
                return Err(e);
            },
        };
        if raw.is_present("overwrite") {
            let url = url2(self.url.as_str(), "/accounts");
            Ok(build(Method::Put, url, Some(auth), Body::Json(args)))
        } else {
            let user = match args.get("username") {
                Some(u) => u,
                None => {
                    return Err(Error::MissingArgument("username"));
                },
            };
            let url = url3(self.url.as_str(), "/accounts/", user.as_str());
            Ok(build(Method::Post, url, Some(auth), Body::Json(args)))
        }
    }

    pub fn put_account(&self, raw: &RawArguments) -> (r: Result<RequestSpec, Error>)
        ensures
            update_admin_post(self.url@, raw@, r),
    {
        let (auth, mut args) = match extract_args(raw) {
            Ok(p) => p,
            Err(e) => {
                return Err(e);
            },
        };
        let user = match args.remove("username") {
            Some(u) => u,
            None => {
                return Err(Error::MissingArgument("username"));
            },
        };
        let url = url3(self.url.as_str(), "/accounts/", user.as_str());
        Ok(build(Method::Put, url, Some(auth), Body::Json(args)))
    }

    pub fn put_account_settings(&self, raw: &RawArguments) -> (r: Result<RequestSpec, Error>)
        ensures
            update_settings_post(self.url@, raw@, r),
    {
        let (auth, mut args) = match extract_args(raw) {
            Ok(p) => p,
            Err(e) => {
                return Err(e);
            },
        };
        let user = match args.remove("username") {
            Some(u) => u,
            None => {
                return Err(Error::MissingArgument("username"));
            },
        };
        let url = url4(self.url.as_str(), "/accounts/", user.as_str(), "/settings");
        Ok(build(Method::Put, url, Some(auth), Body::Json(args)))
    }

    pub fn post_account_payments(&self, raw: &RawArguments) -> (r: Result<RequestSpec, Error>)
        ensures
            pay_post(self.url@, raw@, r),
    {
        let (auth, mut args) = match extract_args(raw) {
            Ok(p) => p,
            Err(e) => {
                return Err(e);
            },
        };
        let user = match args.remove("sender_username") {
            Some(u) => u,
            None => {
                return Err(Error::MissingArgument("sender_username"));
            },
        };
        let url = url4(self.url.as_str(), "/accounts/", user.as_str(), "/payments");
        let bearer = composite_bearer(user.as_str(), auth.as_str());
        Ok(build(Method::Post, url, Some(bearer), Body::Json(args)))
    }

    pub fn put_route_static(&self, raw: &RawArguments) -> (r: Result<RequestSpec, Error>)
        ensures
            route_set_post(self.url@, raw@, r),
    {
        let (auth, args) = match extract_args(raw) {
            Ok(p) => p,
            Err(e) => {
                return Err(e);
            },
        };
        let prefix = match args.get("prefix") {
            Some(p) => p,
            None => {
                return Err(Error::MissingArgument("prefix"));
            },
        };
        let destination = match args.get("destination") {
            Some(d) => d,
            None => {
                return Err(Error::MissingArgument("destination"));
            },
        };
        let url = url3(self.url.as_str(), "/routes/static/", prefix.as_str());
        Ok(build(Method::Put, url, Some(auth), Body::Raw(destination)))
    }

    pub fn get_rates(&self, _raw: &RawArguments) -> (r: Result<RequestSpec, Error>)
        ensures
            open_get_post(self.url@, "/rates"@, r),
    {
        let url = url2(self.url.as_str(), "/rates");
        Ok(build(Method::Get, url, None, Body::Empty))
    }

    pub fn get_routes(&self, _raw: &RawArguments) -> (r: Result<RequestSpec, Error>)
        ensures
            open_get_post(self.url@, "/routes"@, r),
    {
        let url = url2(self.url.as_str(), "/routes");
        Ok(build(Method::Get, url, None, Body::Empty))
    }

    pub fn get_root(&self, _raw: &RawArguments) -> (r: Result<RequestSpec, Error>)
        ensures
            open_get_post(self.url@, "/"@, r),
    {
        let url = url2(self.url.as_str(), "/");
        Ok(build(Method::Get, url, None, Body::Empty))
    }

    pub fn put_rates(&self, raw: &RawArguments) -> (r: Result<RequestSpec, Error>)
        ensures
            set_all_post(self.url@, "/rates"@, raw@, r),
    {
        let (auth, pairs) = match unflatten_pairs(raw) {
            Ok(p) => p,
            Err(e) => {
                return Err(e);
            },
        };
        let url = url2(self.url.as_str(), "/rates");
        Ok(build(Method::Put, url, Some(auth), Body::Json(pairs.into_argument_set())))
    }

    pub fn put_routes_static(&self, raw: &RawArguments) -> (r: Result<RequestSpec, Error>)
        ensures
            set_all_post(self.url@, "/routes/static"@, raw@, r),
    {
        let (auth, pairs) = match unflatten_pairs(raw) {
            Ok(p) => p,
            Err(e) => {
                return Err(e);
            },
        };
        let url = url2(self.url.as_str(), "/routes/static");
        Ok(build(Method::Put, url, Some(auth), Body::Json(pairs.into_argument_set())))
    }

    pub fn put_settlement_engines(&self, raw: &RawArguments) -> (r: Result<RequestSpec, Error>)
        ensures
            set_all_post(self.url@, "/settlement/engines"@, raw@, r),
    {
        let (auth, pairs) = match unflatten_pairs(raw) {
            Ok(p) => p,
            Err(e) => {
                return Err(e);
            },
        };
        let url = url2(self.url.as_str(), "/settlement/engines");
        Ok(build(Method::Put, url, Some(auth), Body::Json(pairs.into_argument_set())))
    }

    /// A capability placeholder: incoming payments are a streaming
    /// subscription concern, out of the scope of the one-shot request path,
    /// so no request specification corresponds to this command.
    pub fn ws_account_payments_incoming(&self, _raw: &RawArguments) -> (r: Result<
        RequestSpec,
        Error,
    >)
        ensures
            r matches Err(e) && e matches Error::Unimplemented,
    {
        Err(Error::Unimplemented)
    }
}

} // verus!

//! The gateway in front of the articles service: anyone may read, only the
//! administrator may write, and admitted requests are forwarded to the
//! articles service.
use vstd::prelude::*;

use crate::text::concat3;

verus! {

/// The method of an HTTP request, as far as the gateway tells them apart.
pub enum Method {
    Get,
    Post,
    Put,
    Delete,
    Other,
}

/// Basic authentication sent with a request: a user id and, maybe, a password.
pub struct BasicAuth {
    pub user: String,
    pub password: Option<String>,
}

/// The administrator's user name and password.
pub struct Credentials {
    pub username: String,
    pub password: String,
}

/// Why the gateway did not pass a request on.
pub enum ProxyError {
    /// The request may not pass.
    NotAuthenticated,
    /// The articles service could not be reached.
    FailedOnProxy,
}

impl ProxyError {
    /// The text of the error.
    pub open spec fn message(&self) -> Seq<char> {
        match self {
            ProxyError::NotAuthenticated => "Not authenticated"@,
            ProxyError::FailedOnProxy => "Failed on proxy"@,
        }
    }

    /// The text of the error.
    pub fn to_string(&self) -> (res: String)
        ensures
            res@ == self.message(),
    {
        match self {
            ProxyError::NotAuthenticated => "Not authenticated".to_owned(),
            ProxyError::FailedOnProxy => "Failed on proxy".to_owned(),
        }
    }
}

/// `auth` names the administrator, with the administrator's password.
pub open spec fn is_admin(auth: Option<BasicAuth>, admin: Credentials) -> bool {
    auth matches Some(a) && a.password matches Some(p) && a.user@ == admin.username@
        && p@ == admin.password@
}

/// A request may pass: anyone may read, the administrator may write, and
/// other methods never pass.
pub open spec fn may_pass(method: Method, auth: Option<BasicAuth>, admin: Credentials) -> bool {
    match method {
        Method::Get => true,
        Method::Post | Method::Put | Method::Delete => is_admin(auth, admin),
        Method::Other => false,
    }
}

/// The address a request is forwarded to: `http://{domain}/` followed by
/// the request's path and query, or its path when it has no query part.
pub open spec fn forward_uri_of(domain: Seq<char>, path: Seq<char>, path_and_query: Option<&str>) -> Seq<char> {
    "http://"@ + domain + "/"@ + match path_and_query {
        Some(pq) => pq@,
        None => path,
    }
}

/// Whether a request may pass the gateway.
pub fn is_possible(method: &Method, auth: &Option<BasicAuth>, admin: &Credentials) -> (res: bool)
    ensures
        res == may_pass(*method, *auth, *admin),
{
    match method {
        Method::Get => true,
        Method::Post | Method::Put | Method::Delete => match auth {
            Some(a) => match &a.password {
                Some(p) => a.user == admin.username && *p == admin.password,
                None => false,
            },
            None => false,
        },
        Method::Other => false,
    }
}

/// The address a request is forwarded to.
pub fn forward_uri(domain: &str, path: &str, path_and_query: Option<&str>) -> (res: String)
    ensures
        res@ == forward_uri_of(domain@, path@, path_and_query),
{
    let target = match path_and_query {
        Some(pq) => pq,
        None => path,
    };
    let host = concat3("http://", domain, "/");
    crate::text::concat2(host.as_str(), target)
}

/// What the gateway does with a request: forwards a request that may pass to
/// the address `forward_uri` gives, and refuses any other as not
/// authenticated.
pub fn handler(
    method: &Method,
    auth: &Option<BasicAuth>,
    admin: &Credentials,
    domain: &str,
    path: &str,
    path_and_query: Option<&str>,
) -> (res: Result<String, ProxyError>)
    ensures
        may_pass(*method, *auth, *admin) ==> (res matches Ok(uri) && uri@ == forward_uri_of(
            domain@,
            path@,
            path_and_query,
        )),
        !may_pass(*method, *auth, *admin) ==> res matches Err(ProxyError::NotAuthenticated),
{
    if is_possible(method, auth, admin) {
        Ok(forward_uri(domain, path, path_and_query))
    } else {
        Err(ProxyError::NotAuthenticated)
    }
}

/// Reading is open to everyone: a GET passes whatever authentication it
/// carries.
pub proof fn lemma_reads_are_open(auth: Option<BasicAuth>, admin: Credentials)
    ensures
        may_pass(Method::Get, auth, admin),
{
}

/// Writing is the administrator's: a POST, PUT or DELETE passes exactly when
/// it carries the administrator's user name and password.
pub proof fn lemma_writes_need_admin(method: Method, auth: Option<BasicAuth>, admin: Credentials)
    requires
        method is Post || method is Put || method is Delete,
    ensures
        may_pass(method, auth, admin) <==> is_admin(auth, admin),
        auth is None ==> !may_pass(method, auth, admin),
{
}

} // verus!

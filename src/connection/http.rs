use vstd::prelude::*;

use crate::connection::auth::{authorization_of, Auth, Oidc, OidcAuthenticator, OidcToken};
use crate::connection::headers::{ascii_lower, Headers};
use crate::error::Error;

verus! {

/// The HTTP verbs that the client issues.
#[derive(Debug, Clone, Copy, PartialEq, Eq, Structural)]
pub enum Method {
    Get,
    Post,
    Put,
    Patch,
    Delete,
    Head,
}

/// Whether requests of this verb carry a JSON body.
pub open spec fn carries_body(method: Method) -> bool {
    !(method is Get)
}

/// `{scheme}://{host}/v1`, the prefix of every request URL.
pub open spec fn base_uri_of(scheme: Seq<char>, host: Seq<char>) -> Seq<char> {
    scheme + "://"@ + host + "/v1"@
}

/// The headers of a request: the configured defaults, then the `Authorization`
/// value, then the `Content-Type`; a later one replaces an earlier one of the
/// same name.
pub open spec fn request_headers(
    defaults: Map<Seq<char>, Seq<char>>,
    authorization: Option<Seq<char>>,
    content_type: Option<Seq<char>>,
) -> Map<Seq<char>, Seq<char>> {
    let with_auth = match authorization {
        Some(v) => defaults.insert(ascii_lower("Authorization"@), v),
        None => defaults,
    };
    match content_type {
        Some(c) => with_auth.insert(ascii_lower("Content-Type"@), c),
        None => with_auth,
    }
}

/// A request as values: verb, URL, headers and body.
pub type RequestView = (Method, Seq<char>, Map<Seq<char>, Seq<char>>, Option<Seq<char>>);

/// A request ready to be sent.
pub struct HttpRequest {
    pub method: Method,
    pub url: String,
    pub headers: Headers,
    pub body: Option<String>,
}

impl View for HttpRequest {
    type V = RequestView;

    open spec fn view(&self) -> RequestView {
        (
            self.method,
            self.url@,
            self.headers@,
            match self.body {
                Some(b) => Some(b@),
                None => None,
            },
        )
    }
}

/// The outcome of planning a request, as values.
pub open spec fn request_view(r: Result<HttpRequest, Error>) -> Result<RequestView, Error> {
    match r {
        Ok(req) => Ok(req@),
        Err(e) => Err(e),
    }
}

/// What [`HttpClient::new`] is configured with.
pub struct HttpParams {
    pub host: String,
    pub scheme: String,
    pub headers: Option<Headers>,
    pub auth: Auth,
}

/// Builds the requests of one connection: URL, merged headers and credentials.
pub struct HttpClient {
    base_uri: String,
    host: String,
    scheme: String,
    headers: Option<Headers>,
    auth: Auth,
}

/// The header mapping that an optional set of headers stands for.
pub open spec fn defaults_of(headers: Option<Headers>) -> Map<Seq<char>, Seq<char>> {
    match headers {
        Some(h) => h@,
        None => Map::empty(),
    }
}

/// An optional set of headers that is well formed where present.
pub open spec fn headers_wf(headers: Option<Headers>) -> bool {
    match headers {
        Some(h) => h.wf(),
        None => true,
    }
}

impl HttpClient {
    pub closed spec fn spec_base_uri(&self) -> Seq<char> {
        self.base_uri@
    }

    pub closed spec fn spec_auth(&self) -> Auth {
        self.auth
    }

    pub closed spec fn spec_defaults(&self) -> Map<Seq<char>, Seq<char>> {
        defaults_of(self.headers)
    }

    pub closed spec fn wf(&self) -> bool {
        headers_wf(self.headers)
    }

    /// The request that `method` on `path` with `body` gives, or the error
    /// that stops it.
    pub open spec fn planned(&self, method: Method, path: Seq<char>, body: Option<Seq<char>>) -> Result<
        RequestView,
        Error,
    > {
        match authorization_of(self.spec_auth()) {
            Ok(authorization) => Ok(
                (
                    method,
                    self.spec_base_uri() + path,
                    request_headers(
                        self.spec_defaults(),
                        authorization,
                        if carries_body(method) {
                            Some("application/json"@)
                        } else {
                            None
                        },
                    ),
                    body,
                ),
            ),
            Err(e) => Err(Error::Auth(e)),
        }
    }

    pub fn new(params: HttpParams) -> (r: Self)
        requires
            headers_wf(params.headers),
        ensures
            r.wf(),
            r.spec_base_uri() == base_uri_of(params.scheme@, params.host@),
            r.spec_auth() == params.auth,
            r.spec_defaults() == defaults_of(params.headers),
    {
        let base_uri = params.scheme.clone().concat("://").concat(params.host.as_str()).concat("/v1");
        HttpClient {
            base_uri,
            host: params.host,
            scheme: params.scheme,
            headers: params.headers,
            auth: params.auth,
        }
    }

    /// `{scheme}://{host}/v1`.
    pub fn base_uri(&self) -> (r: &str)
        ensures
            r@ == self.spec_base_uri(),
    {
        self.base_uri.as_str()
    }

    /// Whether a token must be obtained before each request (OIDC is in effect).
    pub fn needs_login(&self) -> (r: bool)
        ensures
            r == self.spec_auth() is Oidc,
    {
        match &self.auth {
            Auth::Oidc(_) => true,
            _ => false,
        }
    }

    /// Puts in place the token that an OIDC refresh granted (none where the
    /// grant failed); any other auth state is kept.
    pub fn login(&mut self, granted: Option<OidcToken>)
        requires
            old(self).wf(),
        ensures
            final(self).wf(),
            final(self).spec_base_uri() == old(self).spec_base_uri(),
            final(self).spec_defaults() == old(self).spec_defaults(),
            final(self).spec_auth() == (match old(self).spec_auth() {
                Auth::Oidc(o) => Auth::Oidc((Oidc { token: granted, credentials: o.credentials })),
                a => a,
            }),
    {
        let refreshed = match &self.auth {
            Auth::Oidc(config) => Some(OidcAuthenticator::new(&config.credentials).refresh(granted)),
            _ => None,
        };
        if let Some(oidc) = refreshed {
            self.auth = Auth::Oidc(oidc);
        }
    }

    /// Joins the base URI with `path`.
    fn fmt_url(&self, path: &str) -> (r: String)
        ensures
            r@ == self.spec_base_uri() + path@,
    {
        self.base_uri.clone().concat(path)
    }

    fn request(&self, method: Method, path: &str, body: Option<String>) -> (r: Result<
        HttpRequest,
        Error,
    >)
        requires
            self.wf(),
        ensures
            request_view(r) == self.planned(
                method,
                path@,
                match body {
                    Some(b) => Some(b@),
                    None => None,
                },
            ),
            r matches Ok(req) ==> req.headers.wf(),
    {
        let headers = match init_headers(self, carries_body_exec(method)) {
            Ok(h) => h,
            Err(e) => return Err(Error::Auth(e)),
        };
        Ok(HttpRequest { method, url: self.fmt_url(path), headers, body })
    }

    /// A `GET` of `path`.
    pub fn get(&self, path: &str) -> (r: Result<HttpRequest, Error>)
        requires
            self.wf(),
        ensures
            request_view(r) == self.planned(Method::Get, path@, None),
            r matches Ok(req) ==> req.headers.wf(),
    {
        self.request(Method::Get, path, None)
    }

    /// A `POST` of the JSON text `payload` to `path`.
    pub fn post(&self, path: &str, payload: String) -> (r: Result<HttpRequest, Error>)
        requires
            self.wf(),
        ensures
            request_view(r) == self.planned(Method::Post, path@, Some(payload@)),
            r matches Ok(req) ==> req.headers.wf(),
    {
        self.request(Method::Post, path, Some(payload))
    }

    /// A `PUT` of the JSON text `payload` to `path`.
    pub fn put(&self, path: &str, payload: String) -> (r: Result<HttpRequest, Error>)
        requires
            self.wf(),
        ensures
            request_view(r) == self.planned(Method::Put, path@, Some(payload@)),
            r matches Ok(req) ==> req.headers.wf(),
    {
        self.request(Method::Put, path, Some(payload))
    }

    /// A `PATCH` of the JSON text `payload` to `path`.
    pub fn patch(&self, path: &str, payload: String) -> (r: Result<HttpRequest, Error>)
        requires
            self.wf(),
        ensures
            request_view(r) == self.planned(Method::Patch, path@, Some(payload@)),
            r matches Ok(req) ==> req.headers.wf(),
    {
        self.request(Method::Patch, path, Some(payload))
    }

    /// A `DELETE` of `path` with the JSON text `payload`.
    pub fn delete(&self, path: &str, payload: String) -> (r: Result<HttpRequest, Error>)
        requires
            self.wf(),
        ensures
            request_view(r) == self.planned(Method::Delete, path@, Some(payload@)),
            r matches Ok(req) ==> req.headers.wf(),
    {
        self.request(Method::Delete, path, Some(payload))
    }

    /// A `HEAD` of `path` with the JSON text `payload`.
    pub fn head(&self, path: &str, payload: String) -> (r: Result<HttpRequest, Error>)
        requires
            self.wf(),
        ensures
            request_view(r) == self.planned(Method::Head, path@, Some(payload@)),
            r matches Ok(req) ==> req.headers.wf(),
    {
        self.request(Method::Head, path, Some(payload))
    }

    /// A GraphQL query: a `POST` of the JSON query body to `/graphql`.
    pub fn query(&self, gql_body: String) -> (r: Result<HttpRequest, Error>)
        requires
            self.wf(),
        ensures
            request_view(r) == self.planned(Method::Post, "/graphql"@, Some(gql_body@)),
            r matches Ok(req) ==> req.headers.wf(),
    {
        self.request(Method::Post, "/graphql", Some(gql_body))
    }
}

fn carries_body_exec(method: Method) -> (r: bool)
    ensures
        r == carries_body(method),
{
    match method {
        Method::Get => false,
        _ => true,
    }
}

/// Combines the default headers with the `Authorization` value of the auth
/// state and, for requests with a body, the JSON `Content-Type`.
fn init_headers(client: &HttpClient, json: bool) -> (r: Result<Headers, crate::error::AuthError>)
    requires
        client.wf(),
    ensures
        match (r, authorization_of(client.spec_auth())) {
            (Ok(h), Ok(a)) => h.wf() && h@ == request_headers(
                client.spec_defaults(),
                a,
                if json {
                    Some("application/json"@)
                } else {
                    None
                },
            ),
            (Err(e), Err(f)) => e == f,
            _ => false,
        },
{
    let mut headers = match &client.headers {
        Some(h) => h.clone(),
        None => Headers::new(),
    };
    match client.auth.authorization() {
        Ok(Some(value)) => headers.insert("Authorization", value.as_str()),
        Ok(None) => {},
        Err(e) => return Err(e),
    }
    if json {
        headers.insert("Content-Type", "application/json");
    }
    Ok(headers)
}

/// Defaults never override the computed headers: the request carries the
/// computed `Authorization` and `Content-Type` values, and every other default
/// header unchanged.
pub proof fn lemma_header_precedence(
    defaults: Map<Seq<char>, Seq<char>>,
    authorization: Seq<char>,
    content_type: Seq<char>,
    name: Seq<char>,
)
    ensures
        request_headers(defaults, Some(authorization), Some(content_type))[ascii_lower(
            "Authorization"@,
        )] == authorization,
        request_headers(defaults, Some(authorization), Some(content_type))[ascii_lower(
            "Content-Type"@,
        )] == content_type,
        defaults.contains_key(name) && name != ascii_lower("Authorization"@) && name
            != ascii_lower("Content-Type"@) ==> request_headers(
            defaults,
            Some(authorization),
            Some(content_type),
        )[name] == defaults[name],
{
    reveal_strlit("Authorization");
    reveal_strlit("Content-Type");
    assert(ascii_lower("Authorization"@).len() != ascii_lower("Content-Type"@).len());
}

/// Every request with a body carries `Content-Type: application/json`, whether
/// or not default headers are configured.
pub proof fn lemma_body_requests_are_json(
    client: HttpClient,
    method: Method,
    path: Seq<char>,
    body: Option<Seq<char>>,
)
    requires
        carries_body(method),
        client.planned(method, path, body) is Ok,
    ensures
        client.planned(method, path, body)->Ok_0.2.contains_key(ascii_lower("Content-Type"@)),
        client.planned(method, path, body)->Ok_0.2[ascii_lower("Content-Type"@)]
            == "application/json"@,
{
}

} // verus!

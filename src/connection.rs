use vstd::prelude::*;

pub mod auth;
pub mod headers;
pub mod http;

use crate::connection::auth::{Auth, OidcCredentials};
use crate::connection::headers::Headers;
use crate::connection::http::{base_uri_of, defaults_of, headers_wf, HttpClient, HttpParams};
use crate::utils::string::{trim_trailing_slash, trimmed};

verus! {

/// A configured connection: its auth state and the client that builds its requests.
pub struct Connection {
    pub auth: Auth,
    pub client: HttpClient,
}

impl Connection {
    pub open spec fn wf(&self) -> bool {
        self.client.wf()
    }

    /// Whether the connection sends credentials (an API key or OIDC).
    pub fn auth_enabled(&self) -> (r: bool)
        ensures
            r == !(self.auth is Anonymous),
    {
        match self.auth {
            Auth::Anonymous => false,
            Auth::ApiKey(_) => true,
            Auth::Oidc(_) => true,
        }
    }
}

/// The kinds of credentials a connection can be given.
pub enum AuthParams {
    Anonymous,
    AccessToken(String),
    Oidc(OidcCredentials),
}

/// Collects the configuration of a [`Connection`].
pub struct ConnectionBuilder {
    pub host: String,
    pub scheme: String,
    pub headers: Option<Headers>,
    pub auth: Auth,
}

impl ConnectionBuilder {
    /// A builder for `scheme` and `host`, with no headers and no auth.
    pub fn new(scheme: &str, host: &str) -> (r: Self)
        ensures
            r.scheme@ == scheme@,
            r.host@ == host@,
            r.headers is None,
            r.auth == Auth::Anonymous,
    {
        ConnectionBuilder {
            host: host.to_owned(),
            scheme: scheme.to_owned(),
            headers: None,
            auth: Auth::Anonymous,
        }
    }

    /// Sets the default headers of every request.
    pub fn headers(&mut self, headers: Headers) -> (r: &mut Self)
        ensures
            r.headers == Some(headers),
            r.auth == old(self).auth,
            r.host == old(self).host,
            r.scheme == old(self).scheme,
            *final(self) == *final(r),
    {
        self.headers = Some(headers);
        self
    }

    /// Sets the auth state.
    pub fn auth(&mut self, auth: Auth) -> (r: &mut Self)
        ensures
            r.auth == auth,
            r.headers == old(self).headers,
            r.host == old(self).host,
            r.scheme == old(self).scheme,
            *final(self) == *final(r),
    {
        self.auth = auth;
        self
    }

    /// A connection for the configuration, with one trailing `/` taken off the host.
    pub fn build(&self) -> (r: Connection)
        requires
            headers_wf(self.headers),
        ensures
            r.wf(),
            r.auth == self.auth,
            r.client.spec_auth() == self.auth,
            r.client.spec_base_uri() == base_uri_of(self.scheme@, trimmed(self.host@)),
            r.client.spec_defaults() == defaults_of(self.headers),
    {
        let headers = match &self.headers {
            Some(h) => Some(h.clone()),
            None => None,
        };
        Connection {
            auth: self.auth.clone(),
            client: HttpClient::new(
                HttpParams {
                    auth: self.auth.clone(),
                    scheme: self.scheme.clone(),
                    host: trim_trailing_slash(self.host.clone()),
                    headers,
                },
            ),
        }
    }
}

/// A host with one trailing `/` gives the same base URI as the host without
/// it (where what remains does not end in `/` too): `localhost:8080/` and
/// `localhost:8080` both give `{scheme}://localhost:8080/v1`.
pub proof fn lemma_trailing_slash_base_uri(scheme: Seq<char>, host: Seq<char>)
    requires
        host.len() > 0,
        host.last() == '/',
        !(host.len() > 1 && host[host.len() - 2] == '/'),
    ensures
        base_uri_of(scheme, trimmed(host)) == base_uri_of(scheme, trimmed(host.drop_last())),
{
}

} // verus!

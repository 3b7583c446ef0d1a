use vstd::prelude::*;

pub mod command;
pub mod connection;
pub mod error;
pub mod graphql;
pub mod utils;

pub use crate::command::misc::{MetaGetter, Misc};
pub use crate::command::schema::Schema;
pub use crate::command::Command;
pub use crate::connection::auth::Auth;
pub use crate::connection::headers::Headers;
pub use crate::connection::{Connection, ConnectionBuilder};
pub use crate::graphql::GraphQL;

use crate::connection::http::{base_uri_of, defaults_of, headers_wf};
use crate::utils::string::trimmed;

verus! {

/// Entry point: a connection and the command factories over it.
pub struct WeaviateClient {
    conn: Connection,
}

/// Collects the configuration of a [`WeaviateClient`].
pub struct WeaviateClientBuilder {
    host: String,
    scheme: String,
    auth: Auth,
    headers: Option<Headers>,
}

impl WeaviateClientBuilder {
    pub closed spec fn spec_scheme(&self) -> Seq<char> {
        self.scheme@
    }

    pub closed spec fn spec_host(&self) -> Seq<char> {
        self.host@
    }

    pub closed spec fn spec_auth(&self) -> Auth {
        self.auth
    }

    pub closed spec fn spec_headers(&self) -> Option<Headers> {
        self.headers
    }

    /// A builder for `scheme` and `host`, with no headers and no auth.
    pub fn new(scheme: &str, host: &str) -> (r: Self)
        ensures
            r.spec_scheme() == scheme@,
            r.spec_host() == host@,
            r.spec_auth() == Auth::Anonymous,
            r.spec_headers() is None,
    {
        WeaviateClientBuilder {
            host: host.to_owned(),
            scheme: scheme.to_owned(),
            auth: Auth::Anonymous,
            headers: None,
        }
    }

    pub fn auth(&mut self, auth: Auth) -> (r: &mut Self)
        ensures
            r.spec_auth() == auth,
            r.spec_headers() == old(self).spec_headers(),
            r.spec_host() == old(self).spec_host(),
            r.spec_scheme() == old(self).spec_scheme(),
            *final(self) == *final(r),
    {
        self.auth = auth;
        self
    }

    pub fn headers(&mut self, headers: Headers) -> (r: &mut Self)
        ensures
            r.spec_headers() == Some(headers),
            r.spec_auth() == old(self).spec_auth(),
            r.spec_host() == old(self).spec_host(),
            r.spec_scheme() == old(self).spec_scheme(),
            *final(self) == *final(r),
    {
        self.headers = Some(headers);
        self
    }

    pub fn build(self) -> (r: WeaviateClient)
        requires
            headers_wf(self.spec_headers()),
        ensures
            r.connection().wf(),
            r.connection().auth == self.spec_auth(),
            r.connection().client.spec_auth() == self.spec_auth(),
            r.connection().client.spec_base_uri() == base_uri_of(
                self.spec_scheme(),
                trimmed(self.spec_host()),
            ),
            r.connection().client.spec_defaults() == defaults_of(self.spec_headers()),
    {
        let mut builder = ConnectionBuilder::new(self.scheme.as_str(), self.host.as_str());
        builder.auth = self.auth;
        builder.headers = self.headers;
        WeaviateClient { conn: builder.build() }
    }
}

impl WeaviateClient {
    pub closed spec fn connection(&self) -> Connection {
        self.conn
    }

    /// The client's connection.
    pub fn conn(&self) -> (r: &Connection)
        ensures
            *r == self.connection(),
    {
        &self.conn
    }

    pub fn graphql(&self) -> (r: GraphQL)
        ensures
            r.spec_conn() == self.connection(),
    {
        GraphQL::new(&self.conn)
    }

    pub fn misc(&self) -> (r: Misc)
        ensures
            r.spec_conn() == self.connection(),
    {
        Misc::new(&self.conn)
    }

    pub fn schema(&self) -> (r: Schema)
        ensures
            r.spec_conn() == self.connection(),
    {
        Schema::new(&self.conn)
    }
}

} // verus!

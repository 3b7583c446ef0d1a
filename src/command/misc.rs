use vstd::prelude::*;

use crate::command::Command;
use crate::connection::http::{HttpRequest, Method, RequestView};
use crate::connection::Connection;
use crate::error::Error;

pub use crate::command::meta::{MetaGetter, MetaResponse, ModuleInfo};

verus! {

/// Factory of the server's miscellaneous commands.
pub struct Misc<'a> {
    conn: &'a Connection,
}

impl<'a> Misc<'a> {
    pub closed spec fn spec_conn(&self) -> Connection {
        *self.conn
    }

    pub fn new(conn: &'a Connection) -> (r: Self)
        ensures
            r.spec_conn() == *conn,
    {
        Misc { conn }
    }

    pub fn get_meta(self) -> (r: MetaGetter<'a>)
        ensures
            r.spec_conn() == self.spec_conn(),
    {
        MetaGetter::new(self.conn)
    }

    pub fn check_live(self) -> (r: LiveChecker<'a>)
        ensures
            r.spec_conn() == self.spec_conn(),
    {
        LiveChecker::new(self.conn)
    }

    pub fn check_ready(self) -> (r: ReadyChecker<'a>)
        ensures
            r.spec_conn() == self.spec_conn(),
    {
        ReadyChecker::new(self.conn)
    }

    pub fn get_openid_configuration(self) -> (r: OpenidConfigurationGetter<'a>)
        ensures
            r.spec_conn() == self.spec_conn(),
    {
        OpenidConfigurationGetter::new(self.conn)
    }
}

/// A status code of the 2xx or 3xx class.
pub open spec fn is_success_status(status: u16) -> bool {
    200 <= status < 400
}

/// A health probe holds when the probe got a 2xx/3xx answer and the server
/// reported a non-empty version.
pub open spec fn probe_holds(probe: Result<u16, Error>, version: Seq<char>) -> bool {
    match probe {
        Ok(status) => is_success_status(status) && version.len() > 0,
        Err(_) => false,
    }
}

/// Folds the outcome of a health probe (its status, or the error that stopped
/// it) and the resolved server version into the probe's answer; a failed
/// probe gives `false`, never an error.
pub fn health_verdict(probe: &Result<u16, Error>, version: &str) -> (r: bool)
    ensures
        r == probe_holds(*probe, version@),
{
    match probe {
        Ok(status) => 200 <= *status && *status < 400 && version.unicode_len() > 0,
        Err(_) => false,
    }
}

/// Checks that the server is live: `GET /.well-known/live`, combined with the
/// server version.
pub struct LiveChecker<'a> {
    conn: &'a Connection,
}

impl<'a> LiveChecker<'a> {
    pub closed spec fn spec_conn(&self) -> Connection {
        *self.conn
    }

    pub fn new(conn: &'a Connection) -> (r: Self)
        ensures
            r.spec_conn() == *conn,
    {
        LiveChecker { conn }
    }

    /// The command's answer, from the probe's outcome and the resolved version.
    pub fn verdict(&self, probe: &Result<u16, Error>, version: &str) -> (r: bool)
        ensures
            r == probe_holds(*probe, version@),
    {
        health_verdict(probe, version)
    }
}

impl<'a> Command<bool> for LiveChecker<'a> {
    open spec fn ready(&self) -> bool {
        self.spec_conn().wf()
    }

    open spec fn sends(&self, r: Result<RequestView, Error>) -> bool {
        r == self.spec_conn().client.planned(Method::Get, "/.well-known/live"@, None)
    }

    fn request(&self) -> (r: Result<HttpRequest, Error>) {
        self.conn.client.get("/.well-known/live")
    }
}

/// Checks that the server is ready: `GET /.well-known/ready`, combined with the
/// server version.
pub struct ReadyChecker<'a> {
    conn: &'a Connection,
}

impl<'a> ReadyChecker<'a> {
    pub closed spec fn spec_conn(&self) -> Connection {
        *self.conn
    }

    pub fn new(conn: &'a Connection) -> (r: Self)
        ensures
            r.spec_conn() == *conn,
    {
        ReadyChecker { conn }
    }

    /// The command's answer, from the probe's outcome and the resolved version.
    pub fn verdict(&self, probe: &Result<u16, Error>, version: &str) -> (r: bool)
        ensures
            r == probe_holds(*probe, version@),
    {
        health_verdict(probe, version)
    }
}

impl<'a> Command<bool> for ReadyChecker<'a> {
    open spec fn ready(&self) -> bool {
        self.spec_conn().wf()
    }

    open spec fn sends(&self, r: Result<RequestView, Error>) -> bool {
        r == self.spec_conn().client.planned(Method::Get, "/.well-known/ready"@, None)
    }

    fn request(&self) -> (r: Result<HttpRequest, Error>) {
        self.conn.client.get("/.well-known/ready")
    }
}

/// The server's OpenID configuration, kept minimal.
#[derive(Debug, Clone, Copy, PartialEq, Eq)]
pub struct OpenIdConfiguration {}

/// Fetches the OpenID configuration: `GET /.well-known/openid-configuration`.
pub struct OpenidConfigurationGetter<'a> {
    conn: &'a Connection,
}

impl<'a> OpenidConfigurationGetter<'a> {
    pub closed spec fn spec_conn(&self) -> Connection {
        *self.conn
    }

    pub fn new(conn: &'a Connection) -> (r: Self)
        ensures
            r.spec_conn() == *conn,
    {
        OpenidConfigurationGetter { conn }
    }
}

impl<'a> Command<OpenIdConfiguration> for OpenidConfigurationGetter<'a> {
    open spec fn ready(&self) -> bool {
        self.spec_conn().wf()
    }

    open spec fn sends(&self, r: Result<RequestView, Error>) -> bool {
        r == self.spec_conn().client.planned(
            Method::Get,
            "/.well-known/openid-configuration"@,
            None,
        )
    }

    fn request(&self) -> (r: Result<HttpRequest, Error>) {
        self.conn.client.get("/.well-known/openid-configuration")
    }
}

} // verus!

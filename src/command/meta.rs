use vstd::prelude::*;

use std::collections::HashMap;

use crate::command::Command;
use crate::connection::http::{HttpRequest, Method, RequestView};
use crate::connection::Connection;
use crate::error::Error;

verus! {

/// A module that the server runs.
#[derive(Debug, Clone, PartialEq, Eq)]
pub struct ModuleInfo {
    pub version: String,
    pub word_count: i32,
}

/// The server's answer to `GET /meta`.
#[derive(Debug, Clone, PartialEq, Eq)]
pub struct MetaResponse {
    pub hostname: String,
    pub modules: HashMap<String, ModuleInfo>,
    pub version: String,
}

/// Fetches the server's metadata: `GET /meta`.
pub struct MetaGetter<'a> {
    conn: &'a Connection,
}

impl<'a> MetaGetter<'a> {
    pub closed spec fn spec_conn(&self) -> Connection {
        *self.conn
    }

    pub fn new(conn: &'a Connection) -> (r: Self)
        ensures
            r.spec_conn() == *conn,
    {
        MetaGetter { conn }
    }
}

impl<'a> Clone for MetaGetter<'a> {
    fn clone(&self) -> (r: Self)
        ensures
            r.spec_conn() == self.spec_conn(),
    {
        MetaGetter { conn: self.conn }
    }
}

impl<'a> Command<MetaResponse> for MetaGetter<'a> {
    open spec fn ready(&self) -> bool {
        self.spec_conn().wf()
    }

    open spec fn sends(&self, r: Result<RequestView, Error>) -> bool {
        r == self.spec_conn().client.planned(Method::Get, "/meta"@, None)
    }

    fn request(&self) -> (r: Result<HttpRequest, Error>) {
        self.conn.client.get("/meta")
    }
}

} // verus!

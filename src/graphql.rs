use vstd::prelude::*;

use crate::command::Command;
use crate::connection::http::{HttpRequest, Method, RequestView};
use crate::connection::Connection;
use crate::error::Error;

verus! {

/// Factory of GraphQL commands.
pub struct GraphQL<'a> {
    conn: &'a Connection,
}

impl<'a> GraphQL<'a> {
    pub closed spec fn spec_conn(&self) -> Connection {
        *self.conn
    }

    pub fn new(conn: &'a Connection) -> (r: Self)
        ensures
            r.spec_conn() == *conn,
    {
        GraphQL { conn }
    }

    pub fn getter(self) -> (r: GraphQLGetter<'a>)
        ensures
            r.spec_conn() == self.spec_conn(),
            r.spec_query() is None,
            r.spec_errors() == Seq::<Seq<char>>::empty(),
    {
        GraphQLGetter::new(self.conn)
    }
}

/// A GraphQL query: `POST /graphql` with the JSON query body. Problems found
/// while the query was put together are kept and stop the request.
pub struct GraphQLGetter<'a> {
    conn: &'a Connection,
    query: Option<String>,
    errors: Vec<String>,
}

impl<'a> GraphQLGetter<'a> {
    pub closed spec fn spec_conn(&self) -> Connection {
        *self.conn
    }

    /// The JSON query body, once set.
    pub closed spec fn spec_query(&self) -> Option<Seq<char>> {
        match self.query {
            Some(q) => Some(q@),
            None => None,
        }
    }

    /// The problems recorded so far.
    pub closed spec fn spec_errors(&self) -> Seq<Seq<char>> {
        self.errors@.map_values(|e: String| e@)
    }

    pub fn new(conn: &'a Connection) -> (r: Self)
        ensures
            r.spec_conn() == *conn,
            r.spec_query() is None,
            r.spec_errors() == Seq::<Seq<char>>::empty(),
    {
        GraphQLGetter { conn, query: None, errors: Vec::new() }
    }

    /// Sets the JSON query body.
    pub fn with_query(&mut self, body: String)
        ensures
            final(self).spec_conn() == old(self).spec_conn(),
            final(self).spec_query() == Some(body@),
            final(self).spec_errors() == old(self).spec_errors(),
    {
        self.query = Some(body);
    }

    /// Records a problem with the query.
    pub fn add_error(&mut self, error: String)
        ensures
            final(self).spec_conn() == old(self).spec_conn(),
            final(self).spec_query() == old(self).spec_query(),
            final(self).spec_errors() == old(self).spec_errors().push(error@),
    {
        let ghost e = error@;
        self.errors.push(error);
        proof {
            assert(self.errors@.map_values(|e: String| e@) =~= old(self).errors@.map_values(
                |e: String| e@,
            ).push(e));
        }
    }
}

impl<'a> Command<String> for GraphQLGetter<'a> {
    open spec fn ready(&self) -> bool {
        self.spec_conn().wf()
    }

    /// The first recorded problem, else a usage error where no query was set,
    /// else the `POST` of the query.
    open spec fn sends(&self, r: Result<RequestView, Error>) -> bool {
        if self.spec_errors().len() > 0 {
            r matches Err(Error::Usage(m)) && m@ == self.spec_errors()[0]
        } else {
            match self.spec_query() {
                None => r matches Err(Error::Usage(_)),
                Some(q) => r == self.spec_conn().client.planned(Method::Post, "/graphql"@, Some(q)),
            }
        }
    }

    fn request(&self) -> (r: Result<HttpRequest, Error>) {
        if self.errors.len() > 0 {
            return Err(Error::Usage(self.errors[0].clone()));
        }
        match &self.query {
            None => Err(Error::Usage("no GraphQL query was set".to_owned())),
            Some(q) => self.conn.client.query(q.clone()),
        }
    }
}

} // verus!

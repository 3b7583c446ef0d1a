use vstd::prelude::*;

use std::collections::HashMap;

use crate::command::Command;
use crate::connection::http::{HttpRequest, Method, RequestView};
use crate::connection::Connection;
use crate::error::Error;

verus! {

/// A class of the schema.
#[derive(Debug, Clone, PartialEq, Eq)]
pub struct WeaviateClass {
    /// Name of the class as URI relative to the schema URL.
    pub class: String,
    /// Name of the vector index to use, e.g. HNSW.
    pub vector_index_type: Option<String>,
    /// Configuration of the vector index, specific to its type.
    pub vector_index_config: Option<HashMap<String, String>>,
    /// How the index is sharded and distributed in the cluster.
    pub sharding_config: Option<HashMap<String, String>>,
    /// How the vectors of this class are determined: `none`, or a module name.
    pub vectorizer: String,
    /// Configuration specific to the modules installed.
    pub module_config: Option<HashMap<String, String>>,
    /// Description of the class.
    pub description: Option<String>,
}

impl Default for WeaviateClass {
    /// No name, no options, and the vectorizer `none` that the server defaults to.
    fn default() -> (r: Self)
        ensures
            r.class@ == Seq::<char>::empty(),
            r.vector_index_type is None,
            r.vector_index_config is None,
            r.sharding_config is None,
            r.vectorizer@ == "none"@,
            r.module_config is None,
            r.description is None,
    {
        WeaviateClass {
            class: String::new(),
            vector_index_type: None,
            vector_index_config: None,
            sharding_config: None,
            vectorizer: "none".to_owned(),
            module_config: None,
            description: None,
        }
    }
}

/// The schema: its classes and metadata.
#[derive(Debug, Default, Clone, PartialEq, Eq)]
pub struct WeaviateSchema {
    /// Semantic classes that are available.
    pub classes: Vec<WeaviateClass>,
    /// Email of the maintainer.
    pub maintainer: Option<String>,
    /// Name of the schema.
    pub name: Option<String>,
}

/// Factory of the schema commands.
pub struct Schema<'a> {
    conn: &'a Connection,
}

impl<'a> Schema<'a> {
    pub closed spec fn spec_conn(&self) -> Connection {
        *self.conn
    }

    pub fn new(conn: &'a Connection) -> (r: Self)
        ensures
            r.spec_conn() == *conn,
    {
        Schema { conn }
    }

    pub fn get_schema(self) -> (r: SchemaGetter<'a>)
        ensures
            r.spec_conn() == self.spec_conn(),
    {
        SchemaGetter::new(self.conn)
    }

    /// A command that creates `class`; `payload` is its JSON encoding.
    pub fn create_class(self, class: WeaviateClass, payload: String) -> (r: ClassCreator<'a>)
        ensures
            r.spec_conn() == self.spec_conn(),
            r.spec_class() == class,
            r.spec_payload() == payload@,
    {
        ClassCreator::new(self.conn, class, payload)
    }
}

/// Fetches the whole schema: `GET /schema`.
pub struct SchemaGetter<'a> {
    conn: &'a Connection,
}

impl<'a> SchemaGetter<'a> {
    pub closed spec fn spec_conn(&self) -> Connection {
        *self.conn
    }

    pub fn new(conn: &'a Connection) -> (r: Self)
        ensures
            r.spec_conn() == *conn,
    {
        SchemaGetter { conn }
    }
}

impl<'a> Command<WeaviateSchema> for SchemaGetter<'a> {
    open spec fn ready(&self) -> bool {
        self.spec_conn().wf()
    }

    open spec fn sends(&self, r: Result<RequestView, Error>) -> bool {
        r == self.spec_conn().client.planned(Method::Get, "/schema"@, None)
    }

    fn request(&self) -> (r: Result<HttpRequest, Error>) {
        self.conn.client.get("/schema")
    }
}

/// Creates a class: `POST /schema` with the class as JSON; the server echoes
/// the class it created.
pub struct ClassCreator<'a> {
    conn: &'a Connection,
    class: WeaviateClass,
    payload: String,
}

impl<'a> ClassCreator<'a> {
    pub closed spec fn spec_conn(&self) -> Connection {
        *self.conn
    }

    pub closed spec fn spec_class(&self) -> WeaviateClass {
        self.class
    }

    pub closed spec fn spec_payload(&self) -> Seq<char> {
        self.payload@
    }

    /// A command that creates `class`; `payload` is its JSON encoding.
    pub fn new(conn: &'a Connection, class: WeaviateClass, payload: String) -> (r: Self)
        ensures
            r.spec_conn() == *conn,
            r.spec_class() == class,
            r.spec_payload() == payload@,
    {
        ClassCreator { conn, class, payload }
    }

    /// The class that is to be created.
    pub fn class(&self) -> (r: &WeaviateClass)
        ensures
            *r == self.spec_class(),
    {
        &self.class
    }
}

impl<'a> Command<WeaviateClass> for ClassCreator<'a> {
    open spec fn ready(&self) -> bool {
        self.spec_conn().wf()
    }

    open spec fn sends(&self, r: Result<RequestView, Error>) -> bool {
        r == self.spec_conn().client.planned(Method::Post, "/schema"@, Some(self.spec_payload()))
    }

    fn request(&self) -> (r: Result<HttpRequest, Error>) {
        self.conn.client.post("/schema", self.payload.clone())
    }
}

} // verus!

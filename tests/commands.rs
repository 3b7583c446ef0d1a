use std::collections::HashMap;

use weaviate_client::command::misc::{
    health_verdict, LiveChecker, MetaResponse, Misc, ModuleInfo, ReadyChecker,
};
use weaviate_client::command::schema::{ClassCreator, SchemaGetter, WeaviateClass, WeaviateSchema};
use weaviate_client::connection::http::Method;
use weaviate_client::error::Error;
use weaviate_client::{Command, ConnectionBuilder, MetaGetter, WeaviateClientBuilder};

#[test]
fn meta_getter_requests_meta() {
    let conn = ConnectionBuilder::new("http", "[::]:8080").build();
    let req = MetaGetter::new(&conn).request().expect("request");
    assert_eq!(req.method, Method::Get);
    assert_eq!(req.url, "http://[::]:8080/v1/meta");
    assert_eq!(req.body, None);
}

#[test]
fn misc_factories_target_their_endpoints() {
    let conn = ConnectionBuilder::new("http", "h").build();
    let meta = Misc::new(&conn).get_meta().request().unwrap();
    let live = Misc::new(&conn).check_live().request().unwrap();
    let ready = Misc::new(&conn).check_ready().request().unwrap();
    let openid = Misc::new(&conn).get_openid_configuration().request().unwrap();
    assert_eq!(meta.url, "http://h/v1/meta");
    assert_eq!(live.url, "http://h/v1/.well-known/live");
    assert_eq!(ready.url, "http://h/v1/.well-known/ready");
    assert_eq!(openid.url, "http://h/v1/.well-known/openid-configuration");
}

#[test]
fn live_checker_verdicts() {
    let conn = ConnectionBuilder::new("http", "h").build();
    let live = LiveChecker::new(&conn);
    assert!(live.verdict(&Ok(200), "1.19.0"));
    assert!(live.verdict(&Ok(399), "1.19.0"));
    assert!(!live.verdict(&Ok(400), "1.19.0"));
    assert!(!live.verdict(&Ok(503), "1.19.0"));
    assert!(!live.verdict(&Ok(200), ""));
    assert!(!live.verdict(&Err(Error::Transport("refused".to_owned())), "1.19.0"));
}

#[test]
fn ready_checker_verdicts() {
    let conn = ConnectionBuilder::new("http", "h").build();
    let ready = ReadyChecker::new(&conn);
    assert!(ready.verdict(&Ok(204), "1.14.0"));
    assert!(!ready.verdict(&Ok(500), "1.14.0"));
    assert!(!health_verdict(&Ok(199), "1.14.0"));
    assert!(health_verdict(&Ok(302), "x"));
}

#[test]
fn schema_getter_requests_schema() {
    let conn = ConnectionBuilder::new("http", "h").build();
    let req = SchemaGetter::new(&conn).request().unwrap();
    assert_eq!(req.method, Method::Get);
    assert_eq!(req.url, "http://h/v1/schema");
    let schema = WeaviateSchema::default();
    assert!(schema.classes.is_empty());
    assert_eq!(schema.maintainer, None);
    assert_eq!(schema.name, None);
}

#[test]
fn class_creator_posts_class() {
    let mock_class = WeaviateClass { class: "TestClass".to_owned(), ..Default::default() };
    assert_eq!(mock_class.vectorizer, "none".to_owned());
    let payload = "{\"class\":\"TestClass\",\"vectorizer\":\"none\"}".to_owned();
    let client = WeaviateClientBuilder::new("http", "h").build();
    let creator = client.schema().create_class(mock_class.clone(), payload.clone());
    assert_eq!(creator.class(), &mock_class);
    let req = creator.request().unwrap();
    assert_eq!(req.method, Method::Post);
    assert_eq!(req.url, "http://h/v1/schema");
    assert_eq!(req.body, Some(payload));
    assert_eq!(req.headers.get("Content-Type"), Some("application/json".to_owned()));
}

#[test]
fn class_creator_new_keeps_class() {
    let conn = ConnectionBuilder::new("http", "h").build();
    let class = WeaviateClass { class: "A".to_owned(), ..Default::default() };
    let creator = ClassCreator::new(&conn, class.clone(), "{}".to_owned());
    assert_eq!(creator.class(), &class);
}

#[test]
fn meta_response_equality() {
    let mut modules = HashMap::new();
    modules.insert(
        "text2vec".to_owned(),
        ModuleInfo { version: "1.0".to_owned(), word_count: 3 },
    );
    let a = MetaResponse {
        hostname: "http://[::]:8080".to_string(),
        modules,
        version: "1.19.0".to_string(),
    };
    assert_eq!(a.clone(), a);
}

#[test]
fn graphql_getter_needs_a_query() {
    let client = WeaviateClientBuilder::new("http", "h").build();
    let getter = client.graphql().getter();
    assert!(matches!(getter.request(), Err(Error::Usage(_))));

    let mut getter = client.graphql().getter();
    getter.with_query("{\"query\":\"{ Get { A { x } } }\"}".to_owned());
    let req = getter.request().unwrap();
    assert_eq!(req.url, "http://h/v1/graphql");
    assert_eq!(req.method, Method::Post);

    getter.add_error("bad limit".to_owned());
    getter.add_error("bad offset".to_owned());
    assert_eq!(getter.request().err(), Some(Error::Usage("bad limit".to_owned())));
}

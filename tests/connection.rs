use weaviate_client::connection::auth::{Auth, Oidc, OidcAuthenticator, OidcCredentials, OidcToken};
use weaviate_client::connection::http::{HttpClient, HttpParams, Method};
use weaviate_client::error::{AuthError, Error};
use weaviate_client::{ConnectionBuilder, Headers, WeaviateClientBuilder};

fn token() -> OidcToken {
    OidcToken {
        access_token: "abc".to_owned(),
        expires_in: 60,
        token_type: "Bearer".to_owned(),
        scope: "openid".to_owned(),
        refresh_token: None,
        id_token: None,
    }
}

#[test]
fn trailing_slash_host_gives_same_base_uri() {
    let with_slash = ConnectionBuilder::new("http", "localhost:8080/").build();
    let without = ConnectionBuilder::new("http", "localhost:8080").build();
    assert_eq!(with_slash.client.base_uri(), "http://localhost:8080/v1");
    assert_eq!(without.client.base_uri(), "http://localhost:8080/v1");
}

#[test]
fn get_request_has_url_and_no_content_type() {
    let conn = ConnectionBuilder::new("http", "localhost:8080").build();
    let req = conn.client.get("/meta").expect("request");
    assert_eq!(req.method, Method::Get);
    assert_eq!(req.url, "http://localhost:8080/v1/meta");
    assert_eq!(req.headers.get("Content-Type"), None);
    assert_eq!(req.headers.get("Authorization"), None);
    assert_eq!(req.body, None);
}

#[test]
fn header_precedence_with_api_key() {
    let mut defaults = Headers::new();
    defaults.insert("X-Custom", "a");
    defaults.insert("authorization", "from-defaults");
    defaults.insert("content-type", "text/plain");
    let mut builder = ConnectionBuilder::new("http", "localhost:8080");
    builder.headers(defaults).auth(Auth::ApiKey("secret".to_owned()));
    let conn = builder.build();

    let get = conn.client.get("/schema").expect("request");
    assert_eq!(get.headers.get("Authorization"), Some("secret".to_owned()));
    assert_eq!(get.headers.get("X-Custom"), Some("a".to_owned()));
    assert_eq!(get.headers.get("Content-Type"), Some("text/plain".to_owned()));

    let post = conn.client.post("/schema", "{}".to_owned()).expect("request");
    assert_eq!(post.headers.get("Authorization"), Some("secret".to_owned()));
    assert_eq!(post.headers.get("X-Custom"), Some("a".to_owned()));
    assert_eq!(post.headers.get("Content-Type"), Some("application/json".to_owned()));
    assert_eq!(post.body, Some("{}".to_owned()));
}

#[test]
fn post_without_defaults_is_json() {
    let conn = ConnectionBuilder::new("http", "localhost:8080").build();
    let post = conn.client.post("/schema", "{}".to_owned()).expect("request");
    assert_eq!(post.method, Method::Post);
    assert_eq!(post.headers.get("content-type"), Some("application/json".to_owned()));
    assert_eq!(post.headers.entries().len(), 1);
}

#[test]
fn every_body_verb_is_json() {
    let conn = ConnectionBuilder::new("https", "db.example").build();
    let reqs = vec![
        conn.client.put("/x", "1".to_owned()).expect("put"),
        conn.client.patch("/x", "2".to_owned()).expect("patch"),
        conn.client.delete("/x", "3".to_owned()).expect("delete"),
        conn.client.head("/x", "4".to_owned()).expect("head"),
        conn.client.query("5".to_owned()).expect("query"),
    ];
    let methods = vec![Method::Put, Method::Patch, Method::Delete, Method::Head, Method::Post];
    for (req, m) in reqs.iter().zip(methods) {
        assert_eq!(req.method, m);
        assert_eq!(req.headers.get("Content-Type"), Some("application/json".to_owned()));
    }
    assert_eq!(reqs[0].url, "https://db.example/v1/x");
    assert_eq!(reqs[4].url, "https://db.example/v1/graphql");
}

#[test]
fn oidc_without_token_is_missing_token() {
    let auth = Auth::Oidc(Oidc { token: None, credentials: OidcCredentials {} });
    let mut builder = ConnectionBuilder::new("http", "localhost");
    builder.auth(auth);
    let conn = builder.build();
    assert!(conn.auth_enabled());
    assert_eq!(conn.client.get("/meta").err(), Some(Error::Auth(AuthError::MissingToken)));
}

#[test]
fn oidc_login_puts_token_in_header() {
    let mut client = HttpClient::new(HttpParams {
        host: "localhost".to_owned(),
        scheme: "http".to_owned(),
        headers: None,
        auth: Auth::Oidc(Oidc { token: None, credentials: OidcCredentials {} }),
    });
    assert!(client.needs_login());
    client.login(Some(token()));
    let req = client.get("/meta").expect("request");
    assert_eq!(req.headers.get("Authorization"), Some("Bearer abc".to_owned()));
    client.login(None);
    assert_eq!(client.get("/meta").err(), Some(Error::Auth(AuthError::MissingToken)));
}

#[test]
fn login_keeps_api_key() {
    let mut client = HttpClient::new(HttpParams {
        host: "h".to_owned(),
        scheme: "http".to_owned(),
        headers: None,
        auth: Auth::ApiKey("k".to_owned()),
    });
    assert!(!client.needs_login());
    client.login(Some(token()));
    let req = client.get("/").expect("request");
    assert_eq!(req.headers.get("authorization"), Some("k".to_owned()));
    assert_eq!(req.url, "http://h/v1/");
}

#[test]
fn authenticator_refresh_takes_granted_token() {
    let auth = OidcAuthenticator::new(&OidcCredentials {});
    let oidc = auth.refresh(Some(token()));
    assert_eq!(oidc.token.map(|t| t.access_token), Some("abc".to_owned()));
    assert!(auth.refresh(None).token.is_none());
}

#[test]
fn authorization_values() {
    assert_eq!(Auth::Anonymous.authorization(), Ok(None));
    assert_eq!(Auth::ApiKey("secret".to_owned()).authorization(), Ok(Some("secret".to_owned())));
    let oidc = Auth::Oidc(Oidc { token: Some(token()), credentials: OidcCredentials {} });
    assert_eq!(oidc.authorization(), Ok(Some("Bearer abc".to_owned())));
    assert!(!Auth::Anonymous.is_enabled());
    assert!(oidc.is_enabled());
}

#[test]
fn auth_enabled_by_variant() {
    assert!(!ConnectionBuilder::new("http", "h").build().auth_enabled());
    let mut b = ConnectionBuilder::new("http", "h");
    b.auth(Auth::ApiKey("k".to_owned()));
    assert!(b.build().auth_enabled());
}

#[test]
fn two_builds_are_independent() {
    let mut b = ConnectionBuilder::new("http", "h/");
    let mut defaults = Headers::new();
    defaults.insert("X-A", "1");
    b.headers(defaults);
    let c1 = b.build();
    let c2 = b.build();
    assert_eq!(c1.client.base_uri(), c2.client.base_uri());
    assert_eq!(c1.client.get("/").unwrap().headers.get("x-a"), Some("1".to_owned()));
    assert_eq!(c2.client.get("/").unwrap().headers.get("x-a"), Some("1".to_owned()));
}

#[test]
fn headers_are_case_insensitive() {
    let mut h = Headers::new();
    h.insert("X-Custom", "a");
    h.insert("x-CUSTOM", "b");
    assert_eq!(h.get("x-custom"), Some("b".to_owned()));
    assert_eq!(h.entries().len(), 1);
    assert_eq!(h.entries()[0].0, "x-custom".to_owned());
    let copy = h.clone();
    assert_eq!(copy.get("X-CUSTOM"), Some("b".to_owned()));
}

#[test]
fn client_builder_sets_base_uri() {
    let client = WeaviateClientBuilder::new("http", "localhost:8080/").build();
    assert_eq!(client.conn().client.base_uri(), "http://localhost:8080/v1");
    assert!(!client.conn().auth_enabled());
}

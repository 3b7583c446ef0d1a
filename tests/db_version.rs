use std::collections::HashMap;

use weaviate_client::command::misc::MetaResponse;
use weaviate_client::error::Error;
use weaviate_client::utils::db_version::{
    version_supports_classname, DbVersionProvider, DbVersionSupport, VersionProvider,
    VersionWarnings,
};
use weaviate_client::{Command, ConnectionBuilder};

fn meta(version: &str) -> MetaResponse {
    MetaResponse { hostname: "h".to_owned(), modules: HashMap::new(), version: version.to_owned() }
}

#[test]
fn version_gate_values() {
    let gate = DbVersionSupport::supports_classname_namespaced_endpoints;
    assert!(gate(Some("1.14.0".to_owned())));
    assert!(!gate(Some("1.13.9".to_owned())));
    assert!(gate(Some("2.0.0".to_owned())));
    assert!(!gate(None));
    assert!(!gate(Some("garbage".to_owned())));
}

#[test]
fn version_gate_edges() {
    assert!(!version_supports_classname(""));
    assert!(!version_supports_classname("1"));
    assert!(!version_supports_classname("1."));
    assert!(!version_supports_classname(".14"));
    assert!(version_supports_classname("1.14"));
    assert!(version_supports_classname("1.140.x"));
    assert!(!version_supports_classname("1.x.0"));
    assert!(!version_supports_classname("0.99"));
    assert!(version_supports_classname("99999999999999999999.0"));
    assert!(version_supports_classname("1.99999999999999999999"));
    assert!(version_supports_classname("10.0.0-rc1"));
}

#[test]
fn get_twice_uses_cache() {
    let conn = ConnectionBuilder::new("http", "h").build();
    let mut provider = DbVersionProvider::new(&conn);
    assert_eq!(provider.get(), None);
    assert_eq!(provider.version_getter().request().unwrap().url, "http://h/v1/meta");
    let first = provider.record(Ok(meta("1.19.0")));
    assert_eq!(first, "1.19.0".to_owned());
    assert_eq!(provider.get(), Some("1.19.0".to_owned()));
    assert_eq!(provider.get_version(), "1.19.0".to_owned());
}

#[test]
fn failed_fetch_gives_empty_and_keeps_cache() {
    let conn = ConnectionBuilder::new("http", "h").build();
    let mut provider = DbVersionProvider::new(&conn);
    assert_eq!(provider.record(Err(Error::Transport("down".to_owned()))), "".to_owned());
    assert_eq!(provider.get(), None);
    assert_eq!(provider.get_version(), "".to_owned());
    provider.record(Ok(meta("1.14.0")));
    assert_eq!(provider.refresh(true), None);
    assert_eq!(provider.record(Err(Error::Decode("bad".to_owned()))), "".to_owned());
    assert_eq!(provider.refresh(false), Some("1.14.0".to_owned()));
    assert_eq!(provider.record(Ok(meta("1.20.1"))), "1.20.1".to_owned());
    assert_eq!(provider.get(), Some("1.20.1".to_owned()));
}

#[test]
fn support_of_version() {
    let conn = ConnectionBuilder::new("http", "h").build();
    let mut support = DbVersionSupport::new(DbVersionProvider::new(&conn));
    assert_eq!(support.version_provider().get(), None);
    let old = DbVersionSupport::support_of("1.13.0".to_owned());
    assert!(!old.supports);
    assert_eq!(old.version, "1.13.0".to_owned());
    let new = DbVersionSupport::support_of("1.14.1".to_owned());
    assert!(new.supports);
}

#[test]
fn warning_messages() {
    let w = VersionWarnings::new("1.13.0".to_owned());
    assert_eq!(
        w.deprecated_non_classname_namespaced_endpoints_for_objects(),
        "Usage of objects paths without className is deprecated in Weaviate 1.13.0. Please provide className parameter"
    );
    assert_eq!(
        w.deprecated_non_classname_namespaced_endpoints_for_references(),
        "Usage of references paths without className is deprecated in Weaviate 1.13.0. Please provide className parameter"
    );
    assert_eq!(
        w.deprecated_non_classname_namespaced_endpoints_for_beacons(),
        "Usage of beacons paths without className is deprecated in Weaviate 1.13.0. Please provide className parameter"
    );
    assert_eq!(
        w.not_supported_classname_namespaced_endpoints_for_objects(),
        "Usage of objects paths with className is not supported in Weaviate 1.13.0. className parameter is ignored"
    );
    assert_eq!(
        w.not_supported_classname_namespaced_endpoints_for_references(),
        "Usage of references paths with className is not supported in Weaviate 1.13.0. className parameter is ignored"
    );
    assert_eq!(
        w.not_supported_classname_namespaced_endpoints_for_beacons(),
        "Usage of beacons paths with className is not supported in Weaviate 1.13.0. className parameter is ignored"
    );
    assert_eq!(
        w.not_supported_class_parameter_in_endpoints_for_objects(),
        "Usage of objects paths with class query parameter is not supported in Weaviate 1.13.0. class query parameter is ignored"
    );
}

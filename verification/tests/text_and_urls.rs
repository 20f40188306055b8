//! Tests of the character-level utilities and the fetch-target builders.

use catalog_browser::text::{has_prefix, str_le, value_after_eq};
use catalog_browser::urls::{join_url, service_doc_url, services_url};

#[test]
fn has_prefix_decides_initial_segments() {
    assert!(has_prefix("SAP_USER=bob", "SAP_USER"));
    assert!(has_prefix("anything", ""));
    assert!(has_prefix("same", "same"));
    assert!(!has_prefix("SAP_USE", "SAP_USER"));
    assert!(!has_prefix("XSAP_USER=bob", "SAP_USER"));
}

#[test]
fn value_after_eq_splits_at_first_equals_sign() {
    assert_eq!(value_after_eq("key=value"), Some("value".to_string()));
    assert_eq!(value_after_eq("key=a=b"), Some("a=b".to_string()));
    assert_eq!(value_after_eq("="), Some("".to_string()));
    assert_eq!(value_after_eq("no separator"), None);
    assert_eq!(value_after_eq(""), None);
}

#[test]
fn str_le_is_lexicographic() {
    assert!(str_le("A", "B"));
    assert!(!str_le("B", "A"));
    assert!(str_le("A", "A"));
    assert!(str_le("A", "AB"));
    assert!(!str_le("AB", "A"));
    assert!(str_le("", "anything"));
    assert!(str_le("Z", "a"));
    // Multi-byte characters compare by unicode scalar value.
    assert!(str_le("e", "\u{00e9}"));
}

#[test]
fn service_doc_url_is_built_from_the_configured_host() {
    assert_eq!(
        service_doc_url("sapes5.sapdevcenter.com"),
        "https://sapes5.sapdevcenter.com//sap/opu/odata/iwfnd/catalogservice;v=2/"
    );
}

#[test]
fn services_url_embeds_the_catalog_name() {
    assert_eq!(
        services_url("host.example", "ES5"),
        "https://host.example//sap/opu/odata/iwfnd/catalogservice;v=2/CatalogCollection('ES5')/Services"
    );
}

#[test]
fn join_url_appends_the_relative_reference() {
    assert_eq!(join_url("https://host/base/", "CatalogCollection"), "https://host/base/CatalogCollection");
}

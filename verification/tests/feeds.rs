//! Tests of the data-shape stages: collection resolution, the
//! empty-versus-absent entries distinction, and service-list ordering.

use catalog_browser::errors::FailureKind;
use catalog_browser::feed::{
    catalogs_from_feed, resolve_catalog_collection, services_from_feed, sort_services,
    CatalogFeed, ServiceDoc, ServiceEntry, ServiceFeed,
};

fn entry(id: &str, url: &str) -> ServiceEntry {
    ServiceEntry { id: id.to_string(), metadata_url: url.to_string() }
}

#[test]
fn resolve_finds_expected_collection() {
    let doc = ServiceDoc {
        collections: vec!["FooCollection".to_string(), "CatalogCollection".to_string()],
    };
    assert_eq!(resolve_catalog_collection(&doc), Some("CatalogCollection".to_string()));
}

#[test]
fn resolve_reports_missing_collection() {
    let doc = ServiceDoc { collections: vec!["FooCollection".to_string()] };
    assert_eq!(resolve_catalog_collection(&doc), None);
}

#[test]
fn explicit_empty_catalog_list_is_valid_data() {
    let feed = CatalogFeed { id: "feed-id".to_string(), entries: Some(vec![]) };
    let titles = catalogs_from_feed(feed).unwrap();
    assert!(titles.is_empty());
}

#[test]
fn absent_catalog_entries_are_the_empty_feed_failure() {
    let feed = CatalogFeed { id: "feed-id".to_string(), entries: None };
    let f = catalogs_from_feed(feed).unwrap_err();
    assert_eq!(f.kind, FailureKind::EmptyFeedData);
    assert_eq!(f.status, 500);
    // The failure carries the feed's own identifier.
    assert_eq!(f.message, "No service catalogs have been defined: feed-id");
}

#[test]
fn catalog_titles_pass_through() {
    let feed = CatalogFeed {
        id: "feed-id".to_string(),
        entries: Some(vec!["ES5".to_string(), "ZDEMO".to_string()]),
    };
    let titles = catalogs_from_feed(feed).unwrap();
    assert_eq!(titles, vec!["ES5".to_string(), "ZDEMO".to_string()]);
}

#[test]
fn service_list_is_ordered_by_id_regardless_of_input_order() {
    let feed = ServiceFeed {
        id: "feed-id".to_string(),
        entries: Some(vec![entry("B", "u2"), entry("A", "u1")]),
    };
    let services = services_from_feed(feed).unwrap();
    assert_eq!(services.len(), 2);
    assert_eq!(services[0].id, "A");
    assert_eq!(services[0].metadata_url, "u1");
    assert_eq!(services[1].id, "B");
    assert_eq!(services[1].metadata_url, "u2");
}

#[test]
fn absent_service_entries_are_the_empty_feed_failure() {
    let feed = ServiceFeed { id: "services-feed".to_string(), entries: None };
    let f = services_from_feed(feed).unwrap_err();
    assert_eq!(f.kind, FailureKind::EmptyFeedData);
    assert_eq!(f.message, "No services found: services-feed");
}

#[test]
fn explicit_empty_service_list_is_valid_data() {
    let feed = ServiceFeed { id: "services-feed".to_string(), entries: Some(vec![]) };
    assert!(services_from_feed(feed).unwrap().is_empty());
}

#[test]
fn sort_services_orders_many_entries() {
    let mut v = vec![
        entry("ZX", "u1"),
        entry("AB", "u2"),
        entry("M", "u3"),
        entry("AB", "u4"),
        entry("AA", "u5"),
    ];
    sort_services(&mut v);
    let ids: Vec<&str> = v.iter().map(|e| e.id.as_str()).collect();
    assert_eq!(ids, vec!["AA", "AB", "AB", "M", "ZX"]);
    // Both entries with the duplicate id survive.
    let urls: Vec<&str> = v.iter().map(|e| e.metadata_url.as_str()).collect();
    assert!(urls.contains(&"u2") && urls.contains(&"u4"));
}

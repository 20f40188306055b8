//! Tests of whole pipeline runs: stage sequencing, failure absorption, and
//! the end-to-end catalog-browsing path against mock response bodies.

use catalog_browser::classify::FetchResult;
use catalog_browser::errors::FailureKind;
use catalog_browser::feed::{CatalogFeed, ServiceEntry, ServiceFeed};
use catalog_browser::pipeline::{
    on_catalog_feed_decoded, on_fetched, on_service_feed_decoded, outcome_status, start_request,
    Action, BrowseState, Outcome, Request, Stage,
};

fn config() -> Vec<String> {
    vec!["SAP_USER=bob".to_string(), "SAP_PASSWORD=secret".to_string()]
}

fn ok_fetch(status: u16, body: &str) -> FetchResult {
    FetchResult::Completed { status, body: body.to_string() }
}

fn service_doc_xml(href: &str) -> String {
    let mut xml = String::new();
    xml.push_str("<?xml version=\"1.0\" encoding=\"utf-8\"?>\n");
    xml.push_str("<app:service xmlns:app=\"http://www.w3.org/2007/app\" ");
    xml.push_str("xmlns:atom=\"http://www.w3.org/2005/Atom\" ");
    xml.push_str("xml:base=\"https://host.example//sap/opu/odata/iwfnd/catalogservice;v=2/\" ");
    xml.push_str("xml:lang=\"en\">\n");
    xml.push_str("  <app:workspace>\n");
    xml.push_str("    <atom:title type=\"text\">Data</atom:title>\n");
    xml.push_str(&format!("    <app:collection href=\"{}\">\n", href));
    xml.push_str(&format!("      <atom:title type=\"text\">{}</atom:title>\n", href));
    xml.push_str("    </app:collection>\n");
    xml.push_str("  </app:workspace>\n");
    xml.push_str("</app:service>\n");
    xml
}

fn expect_failed(state: &BrowseState) -> (&Stage, &catalog_browser::errors::Failure) {
    match state {
        BrowseState::Done { outcome: Outcome::Failed { stage, failure } } => (stage, failure),
        other => panic!("expected a failed outcome, got {:?}", other),
    }
}

#[test]
fn start_without_credentials_never_fetches() {
    let (state, action) = start_request("host.example", Request::Catalogs, &vec![]);
    assert!(matches!(action, Action::Finish));
    let (stage, failure) = expect_failed(&state);
    assert_eq!(*stage, Stage::Discovery);
    assert_eq!(failure.kind, FailureKind::MissingCredential);
}

#[test]
fn start_catalogs_fetches_service_document() {
    let (state, action) = start_request("host.example", Request::Catalogs, &config());
    assert!(matches!(state, BrowseState::AwaitingServiceDoc { .. }));
    match action {
        Action::FetchUrl { url, token } => {
            assert_eq!(url, "https://host.example//sap/opu/odata/iwfnd/catalogservice;v=2/");
            assert_eq!(token, "Ym9iOnNlY3JldA==");
        }
        other => panic!("expected a fetch, got {:?}", other),
    }
}

#[test]
fn start_services_fetches_catalog_sub_collection() {
    let request = Request::Services { catalog_name: "ES5".to_string() };
    let (state, action) = start_request("host.example", request, &config());
    assert!(matches!(state, BrowseState::AwaitingServiceFeed { .. }));
    match action {
        Action::FetchUrl { url, .. } => {
            assert_eq!(
                url,
                "https://host.example//sap/opu/odata/iwfnd/catalogservice;v=2/CatalogCollection('ES5')/Services"
            );
        }
        other => panic!("expected a fetch, got {:?}", other),
    }
}

#[test]
fn missing_collection_stops_before_the_feed_fetch() {
    let (state, _) = start_request("host.example", Request::Catalogs, &config());
    let doc = service_doc_xml("FooCollection");
    let (state, action) = on_fetched(state, ok_fetch(200, &doc));
    // The run is over and no further fetch is requested.
    assert!(matches!(action, Action::Finish));
    let (stage, failure) = expect_failed(&state);
    assert_eq!(*stage, Stage::CollectionResolution);
    assert_eq!(failure.kind, FailureKind::MissingExpectedCollection);
    assert_eq!(
        failure.message,
        "That's weird, the CatalogService does not have a collection called CatalogCollection"
    );
}

#[test]
fn root_document_request_yields_catalog_list() {
    // End to end against mock response bodies: a valid service document, then
    // a catalog feed whose decode yields two entries.
    let (state, action) = start_request("host.example", Request::Catalogs, &config());
    let fetch_url = match action {
        Action::FetchUrl { url, .. } => url,
        other => panic!("expected a fetch, got {:?}", other),
    };

    let doc = service_doc_xml("CatalogCollection");
    let (state, action) = on_fetched(state, ok_fetch(200, &doc));
    match &action {
        Action::FetchUrl { url, token } => {
            let mut expected = fetch_url.clone();
            expected.push_str("CatalogCollection");
            assert_eq!(*url, expected);
            assert_eq!(token, "Ym9iOnNlY3JldA==");
        }
        other => panic!("expected the catalog feed fetch, got {:?}", other),
    }

    let (state, action) = on_fetched(state, ok_fetch(200, "<feed>mock</feed>"));
    let body = match action {
        Action::DecodeCatalogFeed { body } => body,
        other => panic!("expected a decode request, got {:?}", other),
    };
    assert_eq!(body, "<feed>mock</feed>");

    let feed = CatalogFeed {
        id: "catalogs".to_string(),
        entries: Some(vec!["ES5".to_string(), "ZDEMO".to_string()]),
    };
    let (state, action) = on_catalog_feed_decoded(state, Ok(feed));
    assert!(matches!(action, Action::Finish));
    match &state {
        BrowseState::Done { outcome } => {
            assert_eq!(outcome_status(outcome), 200);
            match outcome {
                Outcome::CatalogList { catalogs } => {
                    assert_eq!(*catalogs, vec!["ES5".to_string(), "ZDEMO".to_string()]);
                }
                other => panic!("expected a catalog list, got {:?}", other),
            }
        }
        other => panic!("expected a finished run, got {:?}", other),
    }
}

#[test]
fn empty_catalog_list_is_a_successful_outcome() {
    let (state, _) = start_request("host.example", Request::Catalogs, &config());
    let (state, _) = on_fetched(state, ok_fetch(200, &service_doc_xml("CatalogCollection")));
    let (state, _) = on_fetched(state, ok_fetch(200, "<feed/>"));
    let feed = CatalogFeed { id: "catalogs".to_string(), entries: Some(vec![]) };
    let (state, _) = on_catalog_feed_decoded(state, Ok(feed));
    match &state {
        BrowseState::Done { outcome } => {
            assert_eq!(outcome_status(outcome), 200);
            assert!(matches!(outcome, Outcome::CatalogList { catalogs } if catalogs.is_empty()));
        }
        other => panic!("expected a finished run, got {:?}", other),
    }
}

#[test]
fn absent_catalog_entries_fail_the_run() {
    let (state, _) = start_request("host.example", Request::Catalogs, &config());
    let (state, _) = on_fetched(state, ok_fetch(200, &service_doc_xml("CatalogCollection")));
    let (state, _) = on_fetched(state, ok_fetch(200, "<feed/>"));
    let feed = CatalogFeed { id: "the-feed-id".to_string(), entries: None };
    let (state, action) = on_catalog_feed_decoded(state, Ok(feed));
    assert!(matches!(action, Action::Finish));
    let (stage, failure) = expect_failed(&state);
    assert_eq!(*stage, Stage::FeedFetch);
    assert_eq!(failure.kind, FailureKind::EmptyFeedData);
    assert_eq!(failure.message, "No service catalogs have been defined: the-feed-id");
}

#[test]
fn malformed_service_document_is_a_decode_failure() {
    let (state, _) = start_request("host.example", Request::Catalogs, &config());
    let (state, action) = on_fetched(state, ok_fetch(200, "not a service document"));
    assert!(matches!(action, Action::Finish));
    let (stage, failure) = expect_failed(&state);
    assert_eq!(*stage, Stage::Discovery);
    assert_eq!(failure.kind, FailureKind::DecodeFailure);
}

#[test]
fn unclassified_discovery_status_keeps_body() {
    let (state, _) = start_request("host.example", Request::Catalogs, &config());
    let (state, _) = on_fetched(state, ok_fetch(302, "redirected elsewhere"));
    let (stage, failure) = expect_failed(&state);
    assert_eq!(*stage, Stage::Discovery);
    assert_eq!(failure.kind, FailureKind::UnclassifiedHttp);
    assert_eq!(failure.status, 302);
    assert_eq!(failure.message, "redirected elsewhere");
}

#[test]
fn services_run_sorts_entries_by_id() {
    let request = Request::Services { catalog_name: "ES5".to_string() };
    let (state, _) = start_request("host.example", request, &config());
    let (state, action) = on_fetched(state, ok_fetch(200, "<feed>services</feed>"));
    assert!(matches!(action, Action::DecodeServiceFeed { .. }));
    let feed = ServiceFeed {
        id: "services".to_string(),
        entries: Some(vec![
            ServiceEntry { id: "B".to_string(), metadata_url: "u2".to_string() },
            ServiceEntry { id: "A".to_string(), metadata_url: "u1".to_string() },
        ]),
    };
    let (state, action) = on_service_feed_decoded(state, Ok(feed));
    assert!(matches!(action, Action::Finish));
    match &state {
        BrowseState::Done { outcome: Outcome::ServiceList { services } } => {
            assert_eq!(services.len(), 2);
            assert_eq!(services[0].id, "A");
            assert_eq!(services[1].id, "B");
        }
        other => panic!("expected a service list, got {:?}", other),
    }
}

#[test]
fn services_fetch_failure_names_the_catalog() {
    let request = Request::Services { catalog_name: "ES5".to_string() };
    let (state, _) = start_request("host.example", request, &config());
    let (state, _) = on_fetched(
        state,
        FetchResult::TransportFailure { cause: "timed out".to_string() },
    );
    let (stage, failure) = expect_failed(&state);
    assert_eq!(*stage, Stage::CatalogServices);
    assert_eq!(failure.kind, FailureKind::TransportFailure);
    assert_eq!(failure.status, 502);
    assert_eq!(
        failure.message,
        "timed out\nAn error occurred trying to read the Services in catalog ES5"
    );
}

#[test]
fn absent_service_entries_fail_the_run() {
    let request = Request::Services { catalog_name: "ES5".to_string() };
    let (state, _) = start_request("host.example", request, &config());
    let (state, _) = on_fetched(state, ok_fetch(200, "<feed/>"));
    let feed = ServiceFeed { id: "services-id".to_string(), entries: None };
    let (state, _) = on_service_feed_decoded(state, Ok(feed));
    let (stage, failure) = expect_failed(&state);
    assert_eq!(*stage, Stage::CatalogServices);
    assert_eq!(failure.kind, FailureKind::EmptyFeedData);
    assert_eq!(failure.message, "No services found: services-id");
}

#[test]
fn metadata_run_returns_body_verbatim() {
    let request = Request::Metadata { url: "https://host.example/some/$metadata".to_string() };
    let (state, action) = start_request("host.example", request, &config());
    match action {
        Action::FetchUrl { url, .. } => assert_eq!(url, "https://host.example/some/$metadata"),
        other => panic!("expected a fetch, got {:?}", other),
    }
    let (state, action) = on_fetched(state, ok_fetch(200, "<edmx>doc</edmx>"));
    assert!(matches!(action, Action::Finish));
    match &state {
        BrowseState::Done { outcome } => {
            assert_eq!(outcome_status(outcome), 200);
            assert!(matches!(outcome, Outcome::RawMetadata { body } if body == "<edmx>doc</edmx>"));
        }
        other => panic!("expected a finished run, got {:?}", other),
    }
}

#[test]
fn metadata_auth_rejection_answers_401() {
    let request = Request::Metadata { url: "https://host.example/some/$metadata".to_string() };
    let (state, _) = start_request("host.example", request, &config());
    let (state, _) = on_fetched(state, ok_fetch(401, "ignored"));
    match &state {
        BrowseState::Done { outcome } => {
            assert_eq!(outcome_status(outcome), 401);
            let (stage, failure) = expect_failed(&state);
            assert_eq!(*stage, Stage::Metadata);
            assert_eq!(failure.kind, FailureKind::AuthRejected);
            assert_eq!(failure.message, "Logon failed");
        }
        other => panic!("expected a finished run, got {:?}", other),
    }
}

#[test]
fn metadata_transport_failure_answers_upstream_unavailable() {
    let request = Request::Metadata { url: "https://host.example/x".to_string() };
    let (state, _) = start_request("host.example", request, &config());
    let (state, _) = on_fetched(
        state,
        FetchResult::TransportFailure { cause: "dns error".to_string() },
    );
    match &state {
        BrowseState::Done { outcome } => {
            assert_eq!(outcome_status(outcome), 502);
            let (_, failure) = expect_failed(&state);
            assert_eq!(failure.kind, FailureKind::TransportFailure);
            assert_eq!(failure.message, "dns error");
        }
        other => panic!("expected a finished run, got {:?}", other),
    }
}

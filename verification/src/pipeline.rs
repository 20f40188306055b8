//! The pipeline orchestrator: a state machine over the browsing stages.
//!
//! One run serves one request.  The run starts with the credential provider;
//! each following step consumes the state and the outside world's answer to
//! the previously requested action (a fetch outcome or a decoded feed) and
//! returns the next state with the next action.  The driver performing the
//! actions stays outside the library; every decision between them is made
//! here.  A run never continues past its first failure, and never mixes
//! partial results into a failure outcome.

use vstd::prelude::*;

verus! {

use vstd::string::StringExecFns;

use crate::classify::{FetchResult, classify_fetch, spec_classify_fetch};
use crate::credentials::{credential_from_config, spec_credential};
use crate::errors::{
    Failure,
    FailureView,
    decode_failure_view,
    empty_feed_view,
    missing_collection_view,
};
use crate::feed::{
    CatalogFeed,
    ServiceEntry,
    ServiceFeed,
    catalogs_from_feed,
    decode_service_doc,
    empty_catalog_feed_message,
    empty_service_feed_message,
    expected_collection,
    resolve_catalog_collection,
    service_doc_hrefs,
    services_from_feed,
    sorted_by_id,
};
use crate::urls::{join_url, service_doc_url, service_doc_url_view, services_url, services_url_view};

/// Which browsing request a pipeline run serves.
#[derive(Debug)]
pub enum Request {
    /// The catalog list behind the service document (the root route).
    Catalogs,
    /// The services inside a chosen catalog.
    Services { catalog_name: String },
    /// The raw metadata document at a caller-supplied absolute URL.
    Metadata { url: String },
}

/// The stage a failure is attributed to.
#[derive(Clone, Copy, Debug, PartialEq, Eq, Structural)]
pub enum Stage {
    /// Fetching and decoding the service document.
    Discovery,
    /// Locating the expected collection in the service document.
    CollectionResolution,
    /// Fetching and decoding the catalog feed.
    FeedFetch,
    /// Fetching and decoding the services feed of a chosen catalog.
    CatalogServices,
    /// Fetching a metadata document.
    Metadata,
}

/// The terminal result of one pipeline run, consumed exactly once by the
/// presentation layer.
#[derive(Debug)]
pub enum Outcome {
    /// The catalog titles behind the service document.
    CatalogList { catalogs: Vec<String> },
    /// The services of the chosen catalog, ordered by identifier.
    ServiceList { services: Vec<ServiceEntry> },
    /// A metadata document, verbatim.
    RawMetadata { body: String },
    /// The run's single classified failure.
    Failed { stage: Stage, failure: Failure },
}

/// The pipeline's position between steps.
#[derive(Debug)]
pub enum BrowseState {
    /// The service document was requested; its fetch outcome is next.
    AwaitingServiceDoc { base_url: String, token: String },
    /// The catalog feed was requested; its fetch outcome is next.
    AwaitingCatalogFeed,
    /// The catalog feed body awaits decoding.
    AwaitingCatalogFeedDecode,
    /// The services feed of the named catalog was requested.
    AwaitingServiceFeed { catalog_name: String },
    /// The services feed body awaits decoding.
    AwaitingServiceFeedDecode { catalog_name: String },
    /// The metadata document was requested; its fetch outcome is next.
    AwaitingMetadata,
    /// The run is over.
    Done { outcome: Outcome },
}

/// What the driver is asked to do next.
#[derive(Debug)]
pub enum Action {
    /// Perform one authenticated GET and hand back its `FetchResult`.
    FetchUrl { url: String, token: String },
    /// Decode the body as a catalog feed and hand back the result.
    DecodeCatalogFeed { body: String },
    /// Decode the body as a services feed and hand back the result.
    DecodeServiceFeed { body: String },
    /// The run is complete; the state holds the outcome.
    Finish,
}

/// The stage a failure at the very start of a request is attributed to.
pub open spec fn request_stage(request: Request) -> Stage {
    match request {
        Request::Catalogs => Stage::Discovery,
        Request::Services { .. } => Stage::CatalogServices,
        Request::Metadata { .. } => Stage::Metadata,
    }
}

/// The run ended in the given failure at the given stage, and nothing further
/// — in particular no fetch — is requested.
pub open spec fn is_failed_done(s: BrowseState, a: Action, stage: Stage, f: FailureView) -> bool {
    &&& s matches BrowseState::Done { outcome: Outcome::Failed { stage: st, failure } }
        && st == stage && failure@ == f
    &&& a is Finish
}

/// The states in which the driver owes the pipeline a fetch outcome.
pub open spec fn awaits_fetch(state: BrowseState) -> bool {
    ||| state is AwaitingServiceDoc
    ||| state is AwaitingCatalogFeed
    ||| state is AwaitingServiceFeed
    ||| state is AwaitingMetadata
}

fn done_failed(stage: Stage, failure: Failure) -> (r: (BrowseState, Action))
    ensures
        is_failed_done(r.0, r.1, stage, failure@),
{
    (BrowseState::Done { outcome: Outcome::Failed { stage, failure } }, Action::Finish)
}

/// The context line appended to a failure met while reading a catalog's
/// services.
pub open spec fn services_stage_context(message: Seq<char>, catalog: Seq<char>) -> Seq<char> {
    message + "\nAn error occurred trying to read the Services in catalog "@ + catalog
}

fn decorate_services_failure(f: Failure, catalog: &str) -> (r: Failure)
    ensures
        r@.kind == f@.kind,
        r@.status == f@.status,
        r@.message == services_stage_context(f@.message, catalog@),
{
    let mut message = f.message;
    message.append("\nAn error occurred trying to read the Services in catalog ");
    message.append(catalog);
    proof {
        assert(message@ =~= services_stage_context(f.message@, catalog@));
    }
    Failure { kind: f.kind, status: f.status, message }
}

/// Starts one pipeline run: resolves the credential and requests the first
/// fetch of the chosen request, or ends the run at once with the
/// missing-credential failure — no fetch is ever attempted without a complete
/// credential.
pub fn start_request(hostname: &str, request: Request, config: &Vec<String>) -> (r: (
    BrowseState,
    Action,
))
    ensures
        spec_credential(config.deep_view()) matches Err(f) ==> is_failed_done(
            r.0,
            r.1,
            request_stage(request),
            f,
        ),
        spec_credential(config.deep_view()) matches Ok(tok) ==> match request {
            Request::Catalogs => {
                &&& r.0 matches BrowseState::AwaitingServiceDoc { base_url, token }
                    && base_url@ == service_doc_url_view(hostname@) && token@ == tok
                &&& r.1 matches Action::FetchUrl { url, token: t } && url@ == service_doc_url_view(
                    hostname@,
                ) && t@ == tok
            },
            Request::Services { catalog_name } => {
                &&& r.0 matches BrowseState::AwaitingServiceFeed { catalog_name: c } && c
                    == catalog_name
                &&& r.1 matches Action::FetchUrl { url, token: t } && url@ == services_url_view(
                    hostname@,
                    catalog_name@,
                ) && t@ == tok
            },
            Request::Metadata { url } => {
                &&& r.0 is AwaitingMetadata
                &&& r.1 matches Action::FetchUrl { url: u, token: t } && u == url && t@ == tok
            },
        },
{
    match credential_from_config(config) {
        Err(failure) => {
            let stage = match &request {
                Request::Catalogs => Stage::Discovery,
                Request::Services { .. } => Stage::CatalogServices,
                Request::Metadata { .. } => Stage::Metadata,
            };
            done_failed(stage, failure)
        },
        Ok(token) => match request {
            Request::Catalogs => {
                let url = service_doc_url(hostname);
                let fetch_url = url.clone();
                let fetch_token = token.clone();
                (
                    BrowseState::AwaitingServiceDoc { base_url: url, token },
                    Action::FetchUrl { url: fetch_url, token: fetch_token },
                )
            },
            Request::Services { catalog_name } => {
                let url = services_url(hostname, catalog_name.as_str());
                (
                    BrowseState::AwaitingServiceFeed { catalog_name },
                    Action::FetchUrl { url, token },
                )
            },
            Request::Metadata { url } => {
                (BrowseState::AwaitingMetadata, Action::FetchUrl { url, token })
            },
        },
    }
}

/// Advances the pipeline on the outcome of the fetch it requested.
///
/// The service-document arm also resolves the expected collection: when the
/// document lacks it, the run ends with the missing-collection failure and the
/// catalog-feed fetch is never attempted.  The metadata arm returns a
/// successful body verbatim.
pub fn on_fetched(state: BrowseState, result: FetchResult) -> (r: (BrowseState, Action))
    requires
        awaits_fetch(state),
    ensures
        state matches BrowseState::AwaitingServiceDoc { base_url, token } ==> match spec_classify_fetch(
            result,
        ) {
            Err(f) => is_failed_done(r.0, r.1, Stage::Discovery, f),
            Ok(body) => match service_doc_hrefs(body) {
                Err(e) => is_failed_done(r.0, r.1, Stage::Discovery, decode_failure_view(e)),
                Ok(hrefs) => if hrefs.contains(expected_collection()) {
                    &&& r.0 is AwaitingCatalogFeed
                    &&& r.1 matches Action::FetchUrl { url, token: t } && url@ == base_url@
                        + expected_collection() && t@ == token@
                } else {
                    is_failed_done(r.0, r.1, Stage::CollectionResolution, missing_collection_view())
                },
            },
        },
        state is AwaitingCatalogFeed ==> match spec_classify_fetch(result) {
            Err(f) => is_failed_done(r.0, r.1, Stage::FeedFetch, f),
            Ok(body) => r.0 is AwaitingCatalogFeedDecode && (r.1 matches Action::DecodeCatalogFeed {
                body: b,
            } && b@ == body),
        },
        state matches BrowseState::AwaitingServiceFeed { catalog_name } ==> match spec_classify_fetch(
            result,
        ) {
            Err(f) => is_failed_done(
                r.0,
                r.1,
                Stage::CatalogServices,
                FailureView {
                    kind: f.kind,
                    status: f.status,
                    message: services_stage_context(f.message, catalog_name@),
                },
            ),
            Ok(body) => {
                &&& r.0 matches BrowseState::AwaitingServiceFeedDecode { catalog_name: c } && c
                    == catalog_name
                &&& r.1 matches Action::DecodeServiceFeed { body: b } && b@ == body
            },
        },
        state is AwaitingMetadata ==> match spec_classify_fetch(result) {
            Err(f) => is_failed_done(r.0, r.1, Stage::Metadata, f),
            Ok(body) => (r.0 matches BrowseState::Done {
                outcome: Outcome::RawMetadata { body: b },
            } && b@ == body) && r.1 is Finish,
        },
{
    match state {
        BrowseState::AwaitingServiceDoc { base_url, token } => {
            match classify_fetch(result) {
                Err(f) => done_failed(Stage::Discovery, f),
                Ok(body) => match decode_service_doc(body.as_str()) {
                    Err(e) => done_failed(Stage::Discovery, Failure::decode_failure(e)),
                    Ok(doc) => match resolve_catalog_collection(&doc) {
                        None => done_failed(
                            Stage::CollectionResolution,
                            Failure::missing_collection(),
                        ),
                        Some(href) => {
                            let url = join_url(base_url.as_str(), href.as_str());
                            (
                                BrowseState::AwaitingCatalogFeed,
                                Action::FetchUrl { url, token },
                            )
                        },
                    },
                },
            }
        },
        BrowseState::AwaitingCatalogFeed => {
            match classify_fetch(result) {
                Err(f) => done_failed(Stage::FeedFetch, f),
                Ok(body) => (
                    BrowseState::AwaitingCatalogFeedDecode,
                    Action::DecodeCatalogFeed { body },
                ),
            }
        },
        BrowseState::AwaitingServiceFeed { catalog_name } => {
            match classify_fetch(result) {
                Err(f) => {
                    let failure = decorate_services_failure(f, catalog_name.as_str());
                    done_failed(Stage::CatalogServices, failure)
                },
                Ok(body) => (
                    BrowseState::AwaitingServiceFeedDecode { catalog_name },
                    Action::DecodeServiceFeed { body },
                ),
            }
        },
        BrowseState::AwaitingMetadata => {
            match classify_fetch(result) {
                Err(f) => done_failed(Stage::Metadata, f),
                Ok(body) => (
                    BrowseState::Done { outcome: Outcome::RawMetadata { body } },
                    Action::Finish,
                ),
            }
        },
        _ => vstd::pervasive::unreached(),
    }
}

/// Advances the pipeline on the decoded catalog feed.  A feed with an explicit
/// empty entry list is a valid, empty catalog list; a feed whose entries
/// section is absent altogether ends the run with the empty-feed failure.
pub fn on_catalog_feed_decoded(state: BrowseState, result: Result<CatalogFeed, String>) -> (r: (
    BrowseState,
    Action,
))
    requires
        state is AwaitingCatalogFeedDecode,
    ensures
        result matches Err(e) ==> is_failed_done(
            r.0,
            r.1,
            Stage::FeedFetch,
            decode_failure_view(e@),
        ),
        result matches Ok(feed) ==> match feed.entries {
            None => is_failed_done(
                r.0,
                r.1,
                Stage::FeedFetch,
                empty_feed_view(empty_catalog_feed_message(feed.id@)),
            ),
            Some(titles) => (r.0 matches BrowseState::Done {
                outcome: Outcome::CatalogList { catalogs },
            } && catalogs == titles) && r.1 is Finish,
        },
{
    match result {
        Err(e) => done_failed(Stage::FeedFetch, Failure::decode_failure(e)),
        Ok(feed) => match catalogs_from_feed(feed) {
            Err(f) => done_failed(Stage::FeedFetch, f),
            Ok(catalogs) => (
                BrowseState::Done { outcome: Outcome::CatalogList { catalogs } },
                Action::Finish,
            ),
        },
    }
}

/// Advances the pipeline on the decoded services feed.  The resulting service
/// list is ordered by service identifier, independent of the feed's delivery
/// order; an absent entries section ends the run with the empty-feed failure.
pub fn on_service_feed_decoded(state: BrowseState, result: Result<ServiceFeed, String>) -> (r: (
    BrowseState,
    Action,
))
    requires
        state is AwaitingServiceFeedDecode,
    ensures
        state matches BrowseState::AwaitingServiceFeedDecode { catalog_name } ==> match result {
            Err(e) => is_failed_done(
                r.0,
                r.1,
                Stage::CatalogServices,
                decode_failure_view(services_stage_context(e@, catalog_name@)),
            ),
            Ok(feed) => match feed.entries {
                None => is_failed_done(
                    r.0,
                    r.1,
                    Stage::CatalogServices,
                    empty_feed_view(empty_service_feed_message(feed.id@)),
                ),
                Some(es) => (r.0 matches BrowseState::Done {
                    outcome: Outcome::ServiceList { services },
                } && services@.to_multiset() == es@.to_multiset() && sorted_by_id(services@)
                    && services@.len() == es@.len()) && r.1 is Finish,
            },
        },
{
    match state {
        BrowseState::AwaitingServiceFeedDecode { catalog_name } => match result {
            Err(e) => {
                let failure = decorate_services_failure(
                    Failure::decode_failure(e),
                    catalog_name.as_str(),
                );
                done_failed(Stage::CatalogServices, failure)
            },
            Ok(feed) => match services_from_feed(feed) {
                Err(f) => done_failed(Stage::CatalogServices, f),
                Ok(services) => (
                    BrowseState::Done { outcome: Outcome::ServiceList { services } },
                    Action::Finish,
                ),
            },
        },
        _ => vstd::pervasive::unreached(),
    }
}

/// The HTTP status the presentation layer answers with: 200 for every
/// successful outcome, a failure's own classified status otherwise.
pub open spec fn spec_outcome_status(outcome: Outcome) -> u16 {
    match outcome {
        Outcome::Failed { stage, failure } => failure.status,
        _ => 200,
    }
}

/// Maps an outcome to the HTTP status of the page presenting it.
pub fn outcome_status(outcome: &Outcome) -> (s: u16)
    ensures
        s == spec_outcome_status(*outcome),
{
    match outcome {
        Outcome::Failed { stage: _, failure } => failure.status,
        _ => 200,
    }
}

} // verus!

//! The failure taxonomy of the browsing pipeline.
//!
//! Every stage maps its raw outcome into exactly one `Failure` before
//! propagating it; no raw transport or decode error type crosses a stage
//! boundary.  A `Failure` also fixes the HTTP status that the presentation
//! layer answers with: the classified status for HTTP-level failures, a fixed
//! upstream-unavailable status for transport failures (which never carry a
//! trustworthy status of their own), and an internal-error status for
//! data-shape failures.

use vstd::prelude::*;

verus! {

/// The closed set of failure kinds a pipeline run can end in.
#[derive(Clone, Copy, Debug, PartialEq, Eq, Structural)]
pub enum FailureKind {
    /// The credential configuration lacks the user id or the secret.
    MissingCredential,
    /// The request never received an HTTP response.
    TransportFailure,
    /// The remote service answered 401.
    AuthRejected,
    /// The remote service answered 404.
    NotFound,
    /// The remote service answered 500 with an error envelope body.
    ProtocolError,
    /// The remote service answered a status outside the classification table.
    UnclassifiedHttp,
    /// The service document lacks the expected collection.
    MissingExpectedCollection,
    /// A feed arrived with no entries section at all.
    EmptyFeedData,
    /// A response body could not be decoded into the expected records.
    DecodeFailure,
}

/// The mathematical image of a `Failure`.
pub struct FailureView {
    pub kind: FailureKind,
    pub status: u16,
    pub message: Seq<char>,
}

/// One classified, terminal failure: its kind, the HTTP status the
/// presentation layer answers with, and a human-readable message.
#[derive(Clone, Debug)]
pub struct Failure {
    pub kind: FailureKind,
    pub status: u16,
    pub message: String,
}

impl View for Failure {
    type V = FailureView;

    open spec fn view(&self) -> FailureView {
        FailureView { kind: self.kind, status: self.status, message: self.message@ }
    }
}

pub open spec fn missing_credential_view() -> FailureView {
    FailureView {
        kind: FailureKind::MissingCredential,
        status: 500,
        message: "SAP userid and/or password missing from .env file"@,
    }
}

pub open spec fn transport_failure_view(cause: Seq<char>) -> FailureView {
    FailureView { kind: FailureKind::TransportFailure, status: 502, message: cause }
}

pub open spec fn auth_rejected_view() -> FailureView {
    FailureView { kind: FailureKind::AuthRejected, status: 401, message: "Logon failed"@ }
}

pub open spec fn not_found_view() -> FailureView {
    FailureView {
        kind: FailureKind::NotFound,
        status: 404,
        message: "Service not found.  This may be because the service has been defined, but not activated."@,
    }
}

pub open spec fn protocol_error_view(message: Seq<char>) -> FailureView {
    FailureView { kind: FailureKind::ProtocolError, status: 500, message: message }
}

pub open spec fn unclassified_http_view(status: u16, body: Seq<char>) -> FailureView {
    FailureView { kind: FailureKind::UnclassifiedHttp, status: status, message: body }
}

pub open spec fn missing_collection_view() -> FailureView {
    FailureView {
        kind: FailureKind::MissingExpectedCollection,
        status: 500,
        message: "That's weird, the CatalogService does not have a collection called CatalogCollection"@,
    }
}

pub open spec fn empty_feed_view(message: Seq<char>) -> FailureView {
    FailureView { kind: FailureKind::EmptyFeedData, status: 500, message: message }
}

pub open spec fn decode_failure_view(message: Seq<char>) -> FailureView {
    FailureView { kind: FailureKind::DecodeFailure, status: 500, message: message }
}

impl Failure {
    pub fn missing_credential() -> (r: Failure)
        ensures
            r@ == missing_credential_view(),
    {
        Failure {
            kind: FailureKind::MissingCredential,
            status: 500,
            message: "SAP userid and/or password missing from .env file".to_owned(),
        }
    }

    pub fn transport_failure(cause: String) -> (r: Failure)
        ensures
            r@ == transport_failure_view(cause@),
    {
        Failure { kind: FailureKind::TransportFailure, status: 502, message: cause }
    }

    pub fn auth_rejected() -> (r: Failure)
        ensures
            r@ == auth_rejected_view(),
    {
        Failure { kind: FailureKind::AuthRejected, status: 401, message: "Logon failed".to_owned() }
    }

    pub fn not_found() -> (r: Failure)
        ensures
            r@ == not_found_view(),
    {
        Failure {
            kind: FailureKind::NotFound,
            status: 404,
            message: "Service not found.  This may be because the service has been defined, but not activated.".to_owned(),
        }
    }

    pub fn protocol_error(message: String) -> (r: Failure)
        ensures
            r@ == protocol_error_view(message@),
    {
        Failure { kind: FailureKind::ProtocolError, status: 500, message: message }
    }

    pub fn unclassified_http(status: u16, body: String) -> (r: Failure)
        ensures
            r@ == unclassified_http_view(status, body@),
    {
        Failure { kind: FailureKind::UnclassifiedHttp, status: status, message: body }
    }

    pub fn missing_collection() -> (r: Failure)
        ensures
            r@ == missing_collection_view(),
    {
        Failure {
            kind: FailureKind::MissingExpectedCollection,
            status: 500,
            message: "That's weird, the CatalogService does not have a collection called CatalogCollection".to_owned(),
        }
    }

    pub fn empty_feed(message: String) -> (r: Failure)
        ensures
            r@ == empty_feed_view(message@),
    {
        Failure { kind: FailureKind::EmptyFeedData, status: 500, message: message }
    }

    pub fn decode_failure(message: String) -> (r: Failure)
        ensures
            r@ == decode_failure_view(message@),
    {
        Failure { kind: FailureKind::DecodeFailure, status: 500, message: message }
    }
}

} // verus!

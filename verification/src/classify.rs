//! The remote fetcher's outcome type and the error-body classifier.
//!
//! HTTP-level error codes are not transport failures: a completed exchange is
//! reported with its status and body so that callers can distinguish "the
//! protocol told us something" from "we never reached the protocol".  The
//! classifier turns a completed exchange into either the successful body or a
//! single classified failure; evaluated top-down, first match wins:
//!
//! * 200 — success, the body is the payload;
//! * 401 — authentication rejected, fixed message, body discarded;
//! * 404 — not found or not activated, fixed message, body discarded;
//! * 500 — protocol-level structured error: the body is parsed as an error
//!   envelope, and on parse failure the parse error text is surfaced instead;
//! * anything else — unclassified, the body is preserved verbatim.
//!
//! Only the 500 path pays the cost of secondary parsing: other codes carry no
//! reliable structured payload.

use vstd::prelude::*;

use std::str::FromStr;

verus! {

use crate::errors::{
    Failure,
    FailureView,
    auth_rejected_view,
    not_found_view,
    protocol_error_view,
    transport_failure_view,
    unclassified_http_view,
};

/// The raw outcome of one authenticated HTTP GET.
#[derive(Debug)]
pub enum FetchResult {
    /// The request completed at the transport level, whatever the HTTP status.
    Completed { status: u16, body: String },
    /// Connection, TLS, DNS or timeout failure: no HTTP response was received.
    TransportFailure { cause: String },
}

/// The outcome of reading an XML text as a protocol error envelope: the
/// envelope's message when the text is a well-formed envelope, or a
/// description of the parse failure.
pub uninterp spec fn error_envelope(xml: Seq<char>) -> Result<Seq<char>, Seq<char>>;

/// The message a 500 body yields: the envelope's extracted message when the
/// body parses, the parse failure description otherwise.
pub open spec fn envelope_text(xml: Seq<char>) -> Seq<char> {
    match error_envelope(xml) {
        Ok(m) => m,
        Err(e) => e,
    }
}

/// Relies on `parse_sap_atom_feed::odata_error::ODataError::from_str`: a pure
/// function of the XML text that either extracts the structured error envelope
/// — the `Ok` side carries its `message` field — or reports why the text is
/// not a well-formed envelope (the `Err` side carries that description).
#[verifier::external_body]
fn parse_error_envelope(xml: &str) -> (r: Result<String, String>)
    ensures
        r matches Ok(m) ==> (error_envelope(xml@) matches Ok(v) && v == m@),
        r matches Err(e) ==> (error_envelope(xml@) matches Err(v) && v == e@),
{
    match parse_sap_atom_feed::odata_error::ODataError::from_str(xml) {
        Ok(envelope) => Ok(envelope.message),
        Err(e) => Err(e.to_string()),
    }
}

/// Extracts the message of a protocol error body.  Never panics and never
/// propagates the parser's own error type: a body that fails to parse yields
/// the parse failure description instead.
pub fn protocol_error_message(body: &str) -> (r: String)
    ensures
        r@ == envelope_text(body@),
{
    match parse_error_envelope(body) {
        Ok(m) => m,
        Err(e) => e,
    }
}

/// What the classification table assigns to a completed exchange.
pub open spec fn spec_classify(status: u16, body: Seq<char>) -> Result<Seq<char>, FailureView> {
    if status == 200 {
        Ok(body)
    } else if status == 401 {
        Err(auth_rejected_view())
    } else if status == 404 {
        Err(not_found_view())
    } else if status == 500 {
        Err(protocol_error_view(envelope_text(body)))
    } else {
        Err(unclassified_http_view(status, body))
    }
}

/// Classifies a completed exchange by its status code, first match wins.  For
/// every status outside the table the failure is unclassified and preserves
/// the body verbatim.
pub fn classify_body(status: u16, body: String) -> (r: Result<String, Failure>)
    ensures
        match r {
            Ok(b) => spec_classify(status, body@) == Ok::<Seq<char>, FailureView>(b@),
            Err(f) => spec_classify(status, body@) == Err::<Seq<char>, FailureView>(f@),
        },
{
    if status == 200 {
        Ok(body)
    } else if status == 401 {
        Err(Failure::auth_rejected())
    } else if status == 404 {
        Err(Failure::not_found())
    } else if status == 500 {
        Err(Failure::protocol_error(protocol_error_message(body.as_str())))
    } else {
        Err(Failure::unclassified_http(status, body))
    }
}

/// What a raw fetch outcome classifies to: a transport failure carries its
/// cause and the fixed upstream-unavailable status, a completed exchange goes
/// through the classification table.
pub open spec fn spec_classify_fetch(result: FetchResult) -> Result<Seq<char>, FailureView> {
    match result {
        FetchResult::Completed { status, body } => spec_classify(status, body@),
        FetchResult::TransportFailure { cause } => Err(transport_failure_view(cause@)),
    }
}

/// Classifies a raw fetch outcome into the successful body or one failure.
pub fn classify_fetch(result: FetchResult) -> (r: Result<String, Failure>)
    ensures
        match r {
            Ok(b) => spec_classify_fetch(result) == Ok::<Seq<char>, FailureView>(b@),
            Err(f) => spec_classify_fetch(result) == Err::<Seq<char>, FailureView>(f@),
        },
{
    match result {
        FetchResult::Completed { status, body } => classify_body(status, body),
        FetchResult::TransportFailure { cause } => Err(Failure::transport_failure(cause)),
    }
}

} // verus!

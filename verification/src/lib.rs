//! A verified core for a catalog-of-services browser.
//!
//! The library models the request-scoped pipeline that turns a sequence of
//! authenticated HTTP fetches against an Atom/OData catalog service into a
//! single user-facing outcome: a catalog list, a service list, a raw metadata
//! document, or a classified failure.  Network transport, XML record decoding
//! and page rendering are external collaborators; the decisions between them
//! (credential assembly, response classification, collection resolution,
//! empty-feed detection, ordering, stage sequencing) live here and carry
//! proofs.

pub mod classify;
pub mod credentials;
pub mod errors;
pub mod feed;
pub mod pipeline;
pub mod text;
pub mod urls;

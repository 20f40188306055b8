//! Fetch-target construction.  The host portion always comes from trusted
//! configuration; caller input only ever contributes the catalog-name path
//! segment — except for the metadata stage, whose target URL is deliberately
//! operator-supplied and is not built here.

use vstd::prelude::*;

verus! {

use vstd::string::StringExecFns;

/// The fixed protocol path under the configured host.
pub open spec fn host_path() -> Seq<char> {
    "/sap/opu/odata/iwfnd"@
}

/// The catalog service's name-and-version path segment.
pub open spec fn service_name() -> Seq<char> {
    "catalogservice;v=2"@
}

/// The URL of the service document at the configured host's root path.
pub open spec fn service_doc_url_view(hostname: Seq<char>) -> Seq<char> {
    "https://"@ + hostname + "/"@ + host_path() + "/"@ + service_name() + "/"@
}

/// Builds the service-document URL for the configured host.
pub fn service_doc_url(hostname: &str) -> (r: String)
    ensures
        r@ == service_doc_url_view(hostname@),
{
    let mut url = "https://".to_owned();
    url.append(hostname);
    url.append("/");
    url.append("/sap/opu/odata/iwfnd");
    url.append("/");
    url.append("catalogservice;v=2");
    url.append("/");
    proof {
        assert(url@ =~= service_doc_url_view(hostname@));
    }
    url
}

/// The URL of the services sub-collection of one named catalog.
pub open spec fn services_url_view(hostname: Seq<char>, catalog: Seq<char>) -> Seq<char> {
    "https://"@ + hostname + "/"@ + host_path() + "/"@ + service_name()
        + "/CatalogCollection('"@ + catalog + "')/Services"@
}

/// Builds the services URL for one named catalog at the configured host.
pub fn services_url(hostname: &str, catalog: &str) -> (r: String)
    ensures
        r@ == services_url_view(hostname@, catalog@),
{
    let mut url = "https://".to_owned();
    url.append(hostname);
    url.append("/");
    url.append("/sap/opu/odata/iwfnd");
    url.append("/");
    url.append("catalogservice;v=2");
    url.append("/CatalogCollection('");
    url.append(catalog);
    url.append("')/Services");
    proof {
        assert(url@ =~= services_url_view(hostname@, catalog@));
    }
    url
}

/// Appends a relative reference to a base URL.
pub fn join_url(base: &str, href: &str) -> (r: String)
    ensures
        r@ == base@ + href@,
{
    let mut url = base.to_owned();
    url.append(href);
    url
}

} // verus!

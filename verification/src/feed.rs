//! The library's own image of decoded feed data, and the per-stage data-shape
//! logic: resolving the expected collection in a service document, telling an
//! explicitly empty feed apart from one whose entries section is absent, and
//! giving service lists a delivery-order-independent ordering.
//!
//! The structured decoding of feed bodies is an external collaborator; this
//! module holds what the pipeline reads of its results as plain values.

use vstd::prelude::*;

use std::str::FromStr;

verus! {

use vstd::string::StringExecFns;

use crate::errors::{Failure, empty_feed_view};
use crate::text::{lemma_lex_le_antisym, lemma_lex_le_total, lemma_lex_le_trans, lex_le, str_le};

broadcast use vstd::seq_lib::group_to_multiset_ensures, vstd::multiset::group_multiset_axioms;

/// One service advertised inside a catalog: its identifier and the URL of its
/// metadata document.
#[derive(Clone, Debug)]
pub struct ServiceEntry {
    pub id: String,
    pub metadata_url: String,
}

/// A decoded catalog feed: the feed's identifier plus its entries' titles.
/// `entries` is `None` when the feed had no entries section at all, and
/// `Some` — possibly of an empty list — when it had one.
#[derive(Debug)]
pub struct CatalogFeed {
    pub id: String,
    pub entries: Option<Vec<String>>,
}

/// A decoded services feed: the feed's identifier plus one entry per service.
/// `entries` distinguishes an absent entries section from an empty one, as in
/// `CatalogFeed`.
#[derive(Debug)]
pub struct ServiceFeed {
    pub id: String,
    pub entries: Option<Vec<ServiceEntry>>,
}

/// A decoded service document: the `href` of each collection its workspace
/// advertises, in document order.
#[derive(Debug)]
pub struct ServiceDoc {
    pub collections: Vec<String>,
}

/// The outcome of reading an XML text as an Atom service document: the
/// collection hrefs it advertises, or a description of the decode failure.
pub uninterp spec fn service_doc_hrefs(xml: Seq<char>) -> Result<Seq<Seq<char>>, Seq<char>>;

/// Relies on `parse_sap_atom_feed::atom::service::AtomService::from_str`: a
/// pure function of the XML text that either decodes the Atom service document
/// — the `Ok` side carries the `href` of each workspace collection, in
/// document order — or reports why the text is not a service document.
#[verifier::external_body]
pub(crate) fn decode_service_doc(xml: &str) -> (r: Result<ServiceDoc, String>)
    ensures
        r matches Ok(d) ==> (service_doc_hrefs(xml@) matches Ok(h) && h
            == d.collections.deep_view()),
        r matches Err(e) ==> (service_doc_hrefs(xml@) matches Err(d) && d == e@),
{
    match parse_sap_atom_feed::atom::service::AtomService::from_str(xml) {
        Ok(doc) => Ok(ServiceDoc {
            collections: doc.workspace.collections.into_iter().map(|c| c.href).collect(),
        }),
        Err(e) => Err(e.to_string()),
    }
}

/// The collection name the catalog-browsing pipeline expects the service
/// document to advertise.
pub open spec fn expected_collection() -> Seq<char> {
    "CatalogCollection"@
}

/// Locates the expected collection among the document's collection hrefs and
/// returns its href.  `None` exactly when no collection carries that name.
pub fn resolve_catalog_collection(doc: &ServiceDoc) -> (r: Option<String>)
    ensures
        match r {
            Some(href) => href@ == expected_collection() && doc.collections.deep_view().contains(
                expected_collection(),
            ),
            None => !doc.collections.deep_view().contains(expected_collection()),
        },
{
    let needle: String = "CatalogCollection".to_owned();
    let mut i: usize = 0;
    while i < doc.collections.len()
        invariant
            0 <= i <= doc.collections@.len(),
            needle@ == expected_collection(),
            forall|j: int| 0 <= j < i ==> doc.collections@[j]@ != expected_collection(),
        decreases doc.collections@.len() - i,
    {
        if doc.collections[i] == needle {
            proof {
                assert(doc.collections.deep_view()[i as int] == expected_collection());
            }
            return Some(needle);
        }
        i = i + 1;
    }
    proof {
        assert forall|j: int| 0 <= j < doc.collections.deep_view().len() implies doc
            .collections
            .deep_view()[j] != expected_collection() by {
            assert(doc.collections.deep_view()[j] == doc.collections@[j]@);
        }
    }
    None
}

/// The message of the failure a catalog feed without an entries section
/// yields; it carries the feed's own identifier.
pub open spec fn empty_catalog_feed_message(id: Seq<char>) -> Seq<char> {
    "No service catalogs have been defined: "@ + id
}

/// The message of the failure a services feed without an entries section
/// yields; it carries the feed's own identifier.
pub open spec fn empty_service_feed_message(id: Seq<char>) -> Seq<char> {
    "No services found: "@ + id
}

/// The catalog titles of a decoded catalog feed.  An explicit empty entry
/// list is valid data — zero catalogs — while an absent entries section is the
/// distinct empty-feed failure carrying the feed's identifier; callers can
/// tell the two apart.
pub fn catalogs_from_feed(feed: CatalogFeed) -> (r: Result<Vec<String>, Failure>)
    ensures
        match r {
            Ok(titles) => feed.entries matches Some(t) && titles == t,
            Err(f) => feed.entries is None && f@ == empty_feed_view(
                empty_catalog_feed_message(feed.id@),
            ),
        },
{
    match feed.entries {
        Some(titles) => Ok(titles),
        None => {
            let mut message = "No service catalogs have been defined: ".to_owned();
            message.append(feed.id.as_str());
            Err(Failure::empty_feed(message))
        },
    }
}

/// The services are ordered by their identifier, a stable sort key among the
/// entry's fields.
pub open spec fn sorted_by_id(s: Seq<ServiceEntry>) -> bool {
    forall|i: int, j: int| 0 <= i < j < s.len() ==> lex_le(s[i].id@, s[j].id@)
}

/// Sorts the services by identifier, by insertion into a sorted prefix.  The
/// result is a permutation of the input ordered by the sort key, whatever
/// order the feed delivered the entries in.
pub fn sort_services(v: &mut Vec<ServiceEntry>)
    ensures
        sorted_by_id(final(v)@),
        final(v)@.to_multiset() == old(v)@.to_multiset(),
        final(v)@.len() == old(v)@.len(),
{
    let n = v.len();
    if n == 0 {
        return ;
    }
    let mut i: usize = 1;
    while i < n
        invariant
            1 <= i <= n,
            v@.len() == n,
            sorted_by_id(v@.subrange(0, i as int)),
            v@.to_multiset() == old(v)@.to_multiset(),
        decreases n - i,
    {
        let ghost s0 = v@;
        let x = v.remove(i);
        let ghost s1 = v@;
        proof {
            s0.remove_ensures(i as int);
            assert(s0.to_multiset().count(x) > 0) by {
                assert(s0.contains(x));
            }
        }
        let mut p: usize = 0;
        while p < i && str_le(v[p].id.as_str(), x.id.as_str())
            invariant
                0 <= p <= i,
                i < n,
                v@ == s1,
                s1.len() == n - 1,
                forall|k: int| 0 <= k < p ==> lex_le(s1[k].id@, x.id@),
            decreases i - p,
        {
            p = p + 1;
        }
        proof {
            // Everything from the insertion point up to the old prefix end is
            // at or above the inserted element.
            if p < i {
                lemma_lex_le_total(s1[p as int].id@, x.id@);
            }
            assert forall|j: int| p <= j < i implies lex_le(x.id@, s1[j].id@) by {
                if j != p {
                    assert(s1[p as int] == s0[p as int]);
                    assert(s1[j] == s0[j]);
                    assert(lex_le(s0.subrange(0, i as int)[p as int].id@, s0.subrange(0, i as int)[j].id@));
                    lemma_lex_le_trans(x.id@, s1[p as int].id@, s1[j].id@);
                }
            }
        }
        v.insert(p, x);
        proof {
            s1.insert_ensures(p as int, x);
            let s2 = v@;
            assert(s2.to_multiset() == s0.to_multiset()) by {
                assert(s1.to_multiset() =~= s0.to_multiset().remove(x));
                assert(s2.to_multiset() =~= s0.to_multiset().remove(x).insert(x));
                assert(s0.to_multiset().remove(x).insert(x) =~= s0.to_multiset());
            }
            assert(sorted_by_id(s2.subrange(0, i + 1))) by {
                let pre = s2.subrange(0, i + 1);
                assert forall|k: int, l: int| 0 <= k < l < pre.len() implies lex_le(
                    pre[k].id@,
                    pre[l].id@,
                ) by {
                    assert(pre[k] == s2[k]);
                    assert(pre[l] == s2[l]);
                    let sp = s0.subrange(0, i as int);
                    if l < p {
                        assert(s2[k] == s1[k] && s1[k] == s0[k]);
                        assert(s2[l] == s1[l] && s1[l] == s0[l]);
                        assert(lex_le(sp[k].id@, sp[l].id@));
                    } else if l == p {
                        assert(s2[l] == x);
                        assert(s2[k] == s1[k]);
                        assert(lex_le(s1[k].id@, x.id@));
                    } else if k < p {
                        assert(s2[k] == s1[k] && s1[k] == s0[k]);
                        assert(s2[l] == s1[l - 1] && s1[l - 1] == s0[l - 1]);
                        assert(lex_le(sp[k].id@, sp[l - 1].id@));
                    } else if k == p {
                        assert(s2[k] == x);
                        assert(s2[l] == s1[l - 1]);
                        assert(lex_le(x.id@, s1[l - 1].id@));
                    } else {
                        assert(s2[k] == s1[k - 1] && s1[k - 1] == s0[k - 1]);
                        assert(s2[l] == s1[l - 1] && s1[l - 1] == s0[l - 1]);
                        assert(lex_le(sp[k - 1].id@, sp[l - 1].id@));
                    }
                }
            }
        }
        i = i + 1;
    }
    proof {
        assert(v@.subrange(0, n as int) =~= v@);
    }
}

/// The identifier sequence a service list presents.
pub open spec fn service_ids(s: Seq<ServiceEntry>) -> Seq<Seq<char>> {
    s.map_values(|e: ServiceEntry| e.id@)
}

/// Ordering the service list is deterministic: any two lists that are sorted
/// by identifier and hold the same entries present the same identifier
/// sequence, whatever order the feed delivered the entries in.
pub proof fn lemma_service_order_deterministic(s1: Seq<ServiceEntry>, s2: Seq<ServiceEntry>)
    requires
        sorted_by_id(s1),
        sorted_by_id(s2),
        s1.to_multiset() == s2.to_multiset(),
    ensures
        service_ids(s1) == service_ids(s2),
    decreases s1.len(),
{
    assert(s1.len() == s1.to_multiset().len());
    assert(s2.len() == s2.to_multiset().len());
    if s1.len() == 0 {
        assert(service_ids(s1) =~= service_ids(s2));
    } else {
        // Each list holds the other's first entry somewhere.
        assert(s1.contains(s1[0]));
        assert(s2.contains(s2[0]));
        assert(s2.to_multiset().count(s1[0]) > 0);
        assert(s1.to_multiset().count(s2[0]) > 0);
        assert(s2.contains(s1[0]));
        assert(s1.contains(s2[0]));
        let j = choose|j: int| 0 <= j < s2.len() && s2[j] == s1[0];
        let i = choose|i: int| 0 <= i < s1.len() && s1[i] == s2[0];
        // Both first entries carry the least identifier, so the identifiers
        // are equal.
        assert(lex_le(s2[0].id@, s1[0].id@)) by {
            if j == 0 {
                lemma_lex_le_total(s2[0].id@, s1[0].id@);
                lemma_lex_le_total(s1[0].id@, s2[0].id@);
            }
        }
        assert(lex_le(s1[0].id@, s2[0].id@)) by {
            if i == 0 {
                lemma_lex_le_total(s1[0].id@, s2[0].id@);
            }
        }
        lemma_lex_le_antisym(s1[0].id@, s2[0].id@);
        // Rearrange the second list so that its head is the very entry the
        // first list starts with; the identifier sequence does not change.
        let s2r = if s2[0] == s1[0] {
            s2
        } else {
            s2.update(0, s2[j]).update(j, s2[0])
        };
        assert(s2r[0] == s1[0]);
        assert(forall|k: int| 0 <= k < s2.len() ==> s2r[k].id@ == s2[k].id@) by {
            assert(s2[j].id@ == s2[0].id@);
        }
        assert(sorted_by_id(s2r));
        assert(s2r.to_multiset() == s2.to_multiset()) by {
            if s2[0] != s1[0] {
                let m = s2.to_multiset();
                let u1 = s2.update(0, s2[j]);
                assert(u1.to_multiset() == m.insert(s2[j]).remove(s2[0]));
                assert(u1[j] == s2[j]);
                assert(s2r.to_multiset() == u1.to_multiset().insert(s2[0]).remove(s2[j]));
                assert(m.insert(s2[j]).remove(s2[0]).insert(s2[0]).remove(s2[j]) =~= m);
            }
        }
        // The tails hold the same entries and stay sorted; recurse.
        let t1 = s1.drop_first();
        let t2 = s2r.drop_first();
        assert(t1 =~= s1.remove(0));
        assert(t2 =~= s2r.remove(0));
        assert(t1.to_multiset() == s1.to_multiset().remove(s1[0]));
        assert(t2.to_multiset() == s2r.to_multiset().remove(s2r[0]));
        assert(sorted_by_id(t1)) by {
            assert(forall|k: int, l: int|
                0 <= k < l < t1.len() ==> t1[k] == s1[k + 1] && t1[l] == s1[l + 1]);
        }
        assert(sorted_by_id(t2)) by {
            assert(forall|k: int, l: int|
                0 <= k < l < t2.len() ==> t2[k] == s2r[k + 1] && t2[l] == s2r[l + 1]);
        }
        lemma_service_order_deterministic(t1, t2);
        assert(s1.len() == s2r.len());
        assert(service_ids(s1) =~= service_ids(s2r)) by {
            assert(forall|k: int| 1 <= k < s1.len() ==> s1[k] == t1[k - 1]);
            assert(forall|k: int| 1 <= k < s2r.len() ==> s2r[k] == t2[k - 1]);
            assert forall|k: int| 0 <= k < s1.len() implies service_ids(s1)[k] == service_ids(
                s2r,
            )[k] by {
                if k > 0 {
                    assert(service_ids(t1)[k - 1] == t1[k - 1].id@);
                    assert(service_ids(t2)[k - 1] == t2[k - 1].id@);
                    assert(service_ids(t1) == service_ids(t2));
                }
            }
        }
        assert(service_ids(s2r) =~= service_ids(s2)) by {
            assert(forall|k: int| 0 <= k < s2.len() ==> service_ids(s2r)[k] == s2r[k].id@
                && service_ids(s2)[k] == s2[k].id@);
        }
    }
}

/// The service list of a decoded services feed, ordered by service identifier.
/// An absent entries section is the distinct empty-feed failure carrying the
/// feed's identifier.
pub fn services_from_feed(feed: ServiceFeed) -> (r: Result<Vec<ServiceEntry>, Failure>)
    ensures
        match r {
            Ok(services) => feed.entries matches Some(es) && services@.to_multiset() == es@
                .to_multiset() && sorted_by_id(services@) && services@.len() == es@.len(),
            Err(f) => feed.entries is None && f@ == empty_feed_view(
                empty_service_feed_message(feed.id@),
            ),
        },
{
    match feed.entries {
        Some(mut es) => {
            sort_services(&mut es);
            Ok(es)
        },
        None => {
            let mut message = "No services found: ".to_owned();
            message.append(feed.id.as_str());
            Err(Failure::empty_feed(message))
        },
    }
}

} // verus!

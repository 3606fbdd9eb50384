//! Federated identifiers. Every actor and object in the federation is named
//! by a URL; the logic of this crate reads two things of such an identifier:
//! its full text, which identifies the actor or object, and its host
//! (domain), which names the server that is authoritative for it.

use vstd::prelude::*;

verus! {

/// A URL-shaped federation identifier, reduced to the two components the
/// deletion core reads: the full text and the domain (URL host).
pub struct ApubId {
    pub text: String,
    pub domain: String,
}

#[verifier::ext_equal]
pub ghost struct ApubIdView {
    pub text: Seq<char>,
    pub domain: Seq<char>,
}

impl View for ApubId {
    type V = ApubIdView;

    open spec fn view(&self) -> ApubIdView {
        ApubIdView { text: self.text@, domain: self.domain@ }
    }
}

impl Clone for ApubId {
    fn clone(&self) -> (r: Self)
        ensures
            r == self,
    {
        ApubId { text: self.text.clone(), domain: self.domain.clone() }
    }
}

/// Whether two identifiers are the same identifier: same text and domain.
pub fn id_eq(a: &ApubId, b: &ApubId) -> (r: bool)
    ensures
        r == (a@ == b@),
{
    let r = a.text == b.text && a.domain == b.domain;
    proof {
        if a.text@ == b.text@ && a.domain@ == b.domain@ {
            assert(a@ =~= b@);
        }
    }
    r
}

/// Whether two identifiers belong to the same server.
pub fn domains_match(a: &ApubId, b: &ApubId) -> (r: bool)
    ensures
        r == (a@.domain == b@.domain),
{
    a.domain == b.domain
}

/// The host component of a URL string, if the string parses as a URL that
/// has one.
pub uninterp spec fn url_host_of(s: Seq<char>) -> Option<Seq<char>>;

/// Relies on `url::Url::parse` and `url::Url::host_str`: whether a string
/// parses as a URL with a host, and what that host is, depend on the
/// characters of the string alone.
#[verifier::external_body]
fn url_host(s: &str) -> (r: Option<String>)
    ensures
        r matches Some(h) ==> url_host_of(s@) == Some(h@),
        r is None ==> url_host_of(s@) is None,
{
    match url::Url::parse(s) {
        Ok(u) => u.host_str().map(|h| h.to_string()),
        Err(_) => None,
    }
}

/// Builds an `ApubId` from the text of a URL: the identifier's text is the
/// string itself and its domain is the URL's host. Returns `None` exactly
/// when the string does not parse as a URL with a host.
pub fn parse_apub_id(s: &str) -> (r: Option<ApubId>)
    ensures
        r matches Some(id) ==> id@.text == s@ && url_host_of(s@) == Some(id@.domain),
        r is None <==> url_host_of(s@) is None,
{
    match url_host(s) {
        Some(d) => Some(ApubId { text: s.to_owned(), domain: d }),
        None => None,
    }
}

} // verus!

//! Picking the certificate material for one handshake.
use vstd::prelude::*;
use crate::config::SelfSignedData;
use crate::factory::{
    ca_key_usage, entries_view, is_ca_plan, is_leaf_plan, issued_data, leaf_key_usage,
    san_matches, subject_of, CertPlan, Extension, IssuerName, SanEntry, Signer,
};
use crate::host::Host;
use crate::translate::CertSource;

verus! {

/// How the material for one handshake is obtained.
#[derive(Debug, Clone, PartialEq, Eq)]
pub enum IssueRoute {
    /// Serve the fixed key and chain.
    Fixed,
    /// Serve the leaf kept for this host, issuing and keeping one first
    /// where none is kept or it has expired.
    Cached(Host),
    /// Issue a leaf for this handshake alone, without keeping it.
    Fresh,
}

impl<C, K> CertSource<C, K> {
    /// How the material for a handshake that asks for `server_name` is
    /// obtained: a fixed source ignores the name, an issuing one keeps
    /// a leaf per host and issues a throwaway leaf where no name is asked.
    pub fn route(&self, server_name: Option<Host>) -> (r: IssueRoute)
        ensures
            self is InMemory ==> r == IssueRoute::Fixed,
            self is InMemoryIssuer && server_name is Some ==> r == IssueRoute::Cached(
                server_name->0,
            ),
            self is InMemoryIssuer && server_name is None ==> r == IssueRoute::Fresh,
    {
        match self {
            CertSource::InMemory { .. } => IssueRoute::Fixed,
            CertSource::InMemoryIssuer { .. } => match server_name {
                Some(host) => IssueRoute::Cached(host),
                None => IssueRoute::Fresh,
            },
        }
    }
}

/// The chain served with an issued leaf: the leaf, then the CA.
pub fn issued_chain<C>(leaf: C, ca_cert: C) -> (r: Vec<C>)
    ensures
        r@ == seq![leaf, ca_cert],
{
    let mut r: Vec<C> = Vec::new();
    r.push(leaf);
    r.push(ca_cert);
    assert(r@ =~= seq![leaf, ca_cert]);
    r
}

/// Leaves issued for two hosts with different names carry different
/// subject-alternative-name entries, each matching its own host.
pub proof fn lemma_issued_sans_differ(
    h1: Host,
    h2: Host,
    ca_organisation: Option<String>,
    p1: CertPlan,
    p2: CertPlan,
)
    requires
        h1.text() != h2.text(),
        is_leaf_plan(p1, issued_data(Some(h1), ca_organisation)),
        is_leaf_plan(p2, issued_data(Some(h2), ca_organisation)),
    ensures
        p1.extensions@[2] != p2.extensions@[2],
        p1.extensions@[2] == Extension::SubjectAltName(p1.extensions@[2]->SubjectAltName_0),
        san_text(p1.extensions@[2]->SubjectAltName_0) == h1.text(),
        san_text(p2.extensions@[2]->SubjectAltName_0) == h2.text(),
{
}

/// The text of a subject-alternative-name entry.
pub open spec fn san_text(s: SanEntry) -> Seq<char> {
    match s {
        SanEntry::Dns(t) => t@,
        SanEntry::Ip(t) => t@,
    }
}

/// In the pair generated for a self-signed server, the leaf names the
/// CA's subject as its issuer and is signed with the CA's key; the CA is
/// self-issued, may sign certificates and is marked as a CA, while the
/// leaf is not.
pub proof fn lemma_self_signed_leaf_chains_to_ca(data: SelfSignedData, leaf: CertPlan, ca: CertPlan)
    requires
        is_leaf_plan(leaf, data),
        is_ca_plan(ca, data),
    ensures
        leaf.issuer == IssuerName::CaSubject,
        leaf.signer == Signer::CaKey,
        entries_view(ca.subject@) == subject_of(data),
        entries_view(leaf.subject@) == entries_view(ca.subject@),
        ca.issuer == IssuerName::OwnSubject,
        ca.signer == Signer::OwnKey,
        ca.extensions@.contains(Extension::BasicConstraints { critical: true, ca: true }),
        ca.extensions@.contains(Extension::KeyUsage(ca_key_usage())),
        ca_key_usage().key_cert_sign,
        leaf.extensions@.contains(Extension::BasicConstraints { critical: false, ca: false }),
        leaf.extensions@.contains(Extension::KeyUsage(leaf_key_usage())),
        leaf.extensions@.contains(Extension::AuthorityKeyIdentifier),
        san_matches(leaf.extensions@[2]->SubjectAltName_0, data),
{
    assert(ca.extensions@[0] == Extension::BasicConstraints { critical: true, ca: true });
    assert(ca.extensions@[1] == Extension::KeyUsage(ca_key_usage()));
    assert(leaf.extensions@[0] == Extension::BasicConstraints { critical: false, ca: false });
    assert(leaf.extensions@[1] == Extension::KeyUsage(leaf_key_usage()));
    assert(leaf.extensions@[4] == Extension::AuthorityKeyIdentifier);
}

} // verus!

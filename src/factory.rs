//! What goes into a generated certificate: its key size, names, validity
//! window, extensions and signer. The signing itself happens outside the
//! library, following the plan described here.
use vstd::prelude::*;
use crate::config::SelfSignedData;
use crate::host::Host;

verus! {

/// Size in bits of every generated RSA key.
pub const KEY_BITS: u32 = 4096;

/// X.509 version field of every generated certificate (version 3).
pub const X509_VERSION: i32 = 2;

/// Size in bits of the random serial number.
pub const SERIAL_BITS: i32 = 159;

/// Days from now until a generated certificate expires.
pub const VALIDITY_DAYS: u32 = 90;

/// The attribute of a distinguished-name entry.
#[derive(Debug, Clone, Copy, PartialEq, Eq, Structural)]
pub enum NameField {
    OrganisationName,
    SubjectAltName,
    CommonName,
}

/// One entry of a distinguished name.
#[derive(Debug, Clone, PartialEq, Eq)]
pub struct NameEntry {
    pub field: NameField,
    pub value: String,
}

/// The subject-alternative-name entry of a leaf certificate.
#[derive(Debug, Clone, PartialEq, Eq)]
pub enum SanEntry {
    Dns(String),
    Ip(String),
}

/// Which name a certificate carries as its issuer.
#[derive(Debug, Clone, Copy, PartialEq, Eq, Structural)]
pub enum IssuerName {
    /// Its own subject: the certificate is self-issued.
    OwnSubject,
    /// The subject of the signing CA's certificate.
    CaSubject,
}

/// Which key signs a certificate.
#[derive(Debug, Clone, Copy, PartialEq, Eq, Structural)]
pub enum Signer {
    /// The certificate's own freshly generated key.
    OwnKey,
    /// The signing CA's key.
    CaKey,
}

/// The key-usage extension, always marked critical.
#[derive(Debug, Clone, Copy, PartialEq, Eq, Structural)]
pub struct KeyUsage {
    pub digital_signature: bool,
    pub non_repudiation: bool,
    pub key_encipherment: bool,
    pub key_cert_sign: bool,
    pub crl_sign: bool,
}

/// An X.509 v3 extension to append, in order.
#[derive(Debug, Clone, PartialEq, Eq)]
pub enum Extension {
    BasicConstraints { critical: bool, ca: bool },
    KeyUsage(KeyUsage),
    SubjectAltName(SanEntry),
    SubjectKeyIdentifier,
    /// Authority key identifier taken from the issuing CA.
    AuthorityKeyIdentifier,
}

/// Everything that decides the content of a certificate to generate.
/// The serial number is drawn at random, `SERIAL_BITS` long, and the
/// validity window runs from now to `VALIDITY_DAYS` days from now.
#[derive(Debug, Clone, PartialEq, Eq)]
pub struct CertPlan {
    pub subject: Vec<NameEntry>,
    pub issuer: IssuerName,
    pub extensions: Vec<Extension>,
    pub signer: Signer,
}

/// An entry as a pair of its attribute and its text.
pub open spec fn entry_view(e: NameEntry) -> (NameField, Seq<char>) {
    (e.field, e.value@)
}

/// Entries as pairs of attribute and text.
pub open spec fn entries_view(v: Seq<NameEntry>) -> Seq<(NameField, Seq<char>)> {
    v.map_values(|e: NameEntry| entry_view(e))
}

/// The organisation name of `data`, or "Anonymous".
pub open spec fn organisation_of(data: SelfSignedData) -> Seq<char> {
    match data.organisation_name {
        Some(o) => o@,
        None => "Anonymous"@,
    }
}

/// The text of the common name of `data`, or "localhost".
pub open spec fn common_name_of(data: SelfSignedData) -> Seq<char> {
    match data.common_name {
        Some(h) => h.text(),
        None => "localhost"@,
    }
}

/// Whether the common name of `data` is a numeric address.
pub open spec fn common_name_is_address(data: SelfSignedData) -> bool {
    match data.common_name {
        Some(h) => h is Address,
        None => false,
    }
}

/// The subject alternative names of `data` as subject entries.
pub open spec fn alt_name_entries(data: SelfSignedData) -> Seq<(NameField, Seq<char>)> {
    match data.subject_alternative_names {
        Some(names) => names@.map_values(|s: String| (NameField::SubjectAltName, s@)),
        None => Seq::empty(),
    }
}

/// The subject of a certificate generated from `data`: the organisation,
/// then each alternative name in order, then the common name.
pub open spec fn subject_of(data: SelfSignedData) -> Seq<(NameField, Seq<char>)> {
    seq![(NameField::OrganisationName, organisation_of(data))]
        + alt_name_entries(data)
        + seq![(NameField::CommonName, common_name_of(data))]
}

/// The subject-alternative-name entry for the common name of `data`.
pub open spec fn san_matches(s: SanEntry, data: SelfSignedData) -> bool {
    if common_name_is_address(data) {
        s is Ip && s->Ip_0@ == common_name_of(data)
    } else {
        s is Dns && s->Dns_0@ == common_name_of(data)
    }
}

/// The key usage of a CA certificate.
pub open spec fn ca_key_usage() -> KeyUsage {
    KeyUsage {
        digital_signature: false,
        non_repudiation: false,
        key_encipherment: false,
        key_cert_sign: true,
        crl_sign: true,
    }
}

/// The key usage of a leaf certificate.
pub open spec fn leaf_key_usage() -> KeyUsage {
    KeyUsage {
        digital_signature: true,
        non_repudiation: true,
        key_encipherment: true,
        key_cert_sign: false,
        crl_sign: false,
    }
}

/// Whether `p` describes the self-signed CA certificate for `data`.
pub open spec fn is_ca_plan(p: CertPlan, data: SelfSignedData) -> bool {
    &&& entries_view(p.subject@) == subject_of(data)
    &&& p.issuer == IssuerName::OwnSubject
    &&& p.signer == Signer::OwnKey
    &&& p.extensions@.len() == 3
    &&& p.extensions@[0] == Extension::BasicConstraints { critical: true, ca: true }
    &&& p.extensions@[1] == Extension::KeyUsage(ca_key_usage())
    &&& p.extensions@[2] == Extension::SubjectKeyIdentifier
}

/// Whether `p` describes the leaf certificate for `data`, signed by a CA.
pub open spec fn is_leaf_plan(p: CertPlan, data: SelfSignedData) -> bool {
    &&& entries_view(p.subject@) == subject_of(data)
    &&& p.issuer == IssuerName::CaSubject
    &&& p.signer == Signer::CaKey
    &&& p.extensions@.len() == 5
    &&& p.extensions@[0] == Extension::BasicConstraints { critical: false, ca: false }
    &&& p.extensions@[1] == Extension::KeyUsage(leaf_key_usage())
    &&& p.extensions@[2] is SubjectAltName
    &&& san_matches(p.extensions@[2]->SubjectAltName_0, data)
    &&& p.extensions@[3] == Extension::SubjectKeyIdentifier
    &&& p.extensions@[4] == Extension::AuthorityKeyIdentifier
}

/// The organisation name of `data`, or "Anonymous".
pub fn organisation_name(data: &SelfSignedData) -> (r: String)
    ensures
        r@ == organisation_of(*data),
{
    match &data.organisation_name {
        Some(o) => o.clone(),
        None => "Anonymous".to_owned(),
    }
}

/// The text of the common name of `data`, or "localhost".
pub fn common_name(data: &SelfSignedData) -> (r: String)
    ensures
        r@ == common_name_of(*data),
{
    match &data.common_name {
        Some(h) => h.to_text(),
        None => "localhost".to_owned(),
    }
}

/// The subject of a certificate generated from `data`.
pub fn subject_entries(data: &SelfSignedData) -> (r: Vec<NameEntry>)
    ensures
        entries_view(r@) == subject_of(*data),
{
    let mut r: Vec<NameEntry> = Vec::new();
    r.push(NameEntry { field: NameField::OrganisationName, value: organisation_name(data) });
    match &data.subject_alternative_names {
        Some(names) => {
            let mut i: usize = 0;
            while i < names.len()
                invariant
                    0 <= i <= names@.len(),
                    entries_view(r@) == seq![(NameField::OrganisationName, organisation_of(*data))]
                        + names@.subrange(0, i as int).map_values(
                        |s: String| (NameField::SubjectAltName, s@),
                    ),
                decreases names@.len() - i,
            {
                let ghost before = r@;
                r.push(NameEntry { field: NameField::SubjectAltName, value: names[i].clone() });
                proof {
                    let f = |s: String| (NameField::SubjectAltName, s@);
                    assert(names@.subrange(0, i + 1) =~= names@.subrange(0, i as int).push(
                        names@[i as int],
                    ));
                    assert(names@.subrange(0, i + 1).map_values(f) =~= names@.subrange(
                        0,
                        i as int,
                    ).map_values(f).push(f(names@[i as int])));
                    assert(entries_view(r@) =~= entries_view(before).push(entry_view(r@.last())));
                    assert(entries_view(r@) =~= seq![
                        (NameField::OrganisationName, organisation_of(*data)),
                    ] + names@.subrange(0, i + 1).map_values(f));
                }
                i = i + 1;
            }
            assert(names@.subrange(0, names@.len() as int) == names@);
        },
        None => {},
    }
    let ghost before = r@;
    r.push(NameEntry { field: NameField::CommonName, value: common_name(data) });
    assert(entries_view(r@) =~= entries_view(before).push(entry_view(r@.last())));
    assert(entries_view(r@) =~= subject_of(*data));
    r
}

/// The subject-alternative-name entry for the common name of `data`:
/// an IP entry for a numeric address, else a DNS entry.
pub fn san_entry(data: &SelfSignedData) -> (r: SanEntry)
    ensures
        san_matches(r, *data),
{
    let text = common_name(data);
    match &data.common_name {
        Some(h) => {
            if h.is_address() {
                SanEntry::Ip(text)
            } else {
                SanEntry::Dns(text)
            }
        },
        None => SanEntry::Dns(text),
    }
}

/// The self-signed CA certificate to generate for `data`.
pub fn self_signed_server_auth_gen_ca(data: &SelfSignedData) -> (r: CertPlan)
    ensures
        is_ca_plan(r, *data),
{
    let ku = KeyUsage {
        digital_signature: false,
        non_repudiation: false,
        key_encipherment: false,
        key_cert_sign: true,
        crl_sign: true,
    };
    let extensions = vec![
        Extension::BasicConstraints { critical: true, ca: true },
        Extension::KeyUsage(ku),
        Extension::SubjectKeyIdentifier,
    ];
    CertPlan {
        subject: subject_entries(data),
        issuer: IssuerName::OwnSubject,
        extensions,
        signer: Signer::OwnKey,
    }
}

/// The leaf certificate to generate for `data`, issued and signed by a CA.
pub fn self_signed_server_auth_gen_cert(data: &SelfSignedData) -> (r: CertPlan)
    ensures
        is_leaf_plan(r, *data),
{
    let ku = KeyUsage {
        digital_signature: true,
        non_repudiation: true,
        key_encipherment: true,
        key_cert_sign: false,
        crl_sign: false,
    };
    let extensions = vec![
        Extension::BasicConstraints { critical: false, ca: false },
        Extension::KeyUsage(ku),
        Extension::SubjectAltName(san_entry(data)),
        Extension::SubjectKeyIdentifier,
        Extension::AuthorityKeyIdentifier,
    ];
    CertPlan {
        subject: subject_entries(data),
        issuer: IssuerName::CaSubject,
        extensions,
        signer: Signer::CaKey,
    }
}

/// The CA certificate to generate for an issuing source configured
/// with `data`.
pub fn self_signed_server_ca(data: SelfSignedData) -> (r: CertPlan)
    ensures
        is_ca_plan(r, data),
{
    self_signed_server_auth_gen_ca(&data)
}

/// The two certificates of a self-signed server: a leaf for `data`
/// signed by a CA generated for `data`, as the chain to serve (leaf
/// first, then the CA).
pub fn self_signed_server_auth(data: SelfSignedData) -> (r: (CertPlan, CertPlan))
    ensures
        is_leaf_plan(r.0, data),
        is_ca_plan(r.1, data),
{
    let ca = self_signed_server_auth_gen_ca(&data);
    let leaf = self_signed_server_auth_gen_cert(&data);
    (leaf, ca)
}

/// The naming of a leaf issued for `server_name` by a CA whose subject
/// has the organisation `ca_organisation`.
pub open spec fn issued_data(server_name: Option<Host>, ca_organisation: Option<String>) -> SelfSignedData {
    SelfSignedData {
        organisation_name: ca_organisation,
        common_name: server_name,
        subject_alternative_names: None,
    }
}

/// The leaf certificate to issue for `server_name`, where
/// `ca_organisation` is the organisation in the CA's subject, if any.
/// Its subject is that organisation (or "Anonymous") and the host as
/// common name, without further alternative names.
pub fn issue_cert_for_ca(server_name: Option<Host>, ca_organisation: Option<String>) -> (r: CertPlan)
    ensures
        is_leaf_plan(r, issued_data(server_name, ca_organisation)),
        entries_view(r.subject@) == seq![
            (NameField::OrganisationName, organisation_of(issued_data(server_name, ca_organisation))),
            (NameField::CommonName, common_name_of(issued_data(server_name, ca_organisation))),
        ],
{
    let data = SelfSignedData {
        organisation_name: ca_organisation,
        common_name: server_name,
        subject_alternative_names: None,
    };
    let r = self_signed_server_auth_gen_cert(&data);
    assert(subject_of(data) =~= seq![
        (NameField::OrganisationName, organisation_of(data)),
        (NameField::CommonName, common_name_of(data)),
    ]);
    r
}

} // verus!

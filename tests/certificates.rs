use tls_issuer::config::SelfSignedData;
use tls_issuer::factory::{
    issue_cert_for_ca, self_signed_server_auth, self_signed_server_auth_gen_ca,
    self_signed_server_auth_gen_cert, self_signed_server_ca, CertPlan, Extension, IssuerName,
    KeyUsage, NameEntry, NameField, SanEntry, Signer,
};
use tls_issuer::host::Host;

fn entry(field: NameField, value: &str) -> NameEntry {
    NameEntry { field, value: value.to_string() }
}

fn san_of(p: &CertPlan) -> SanEntry {
    match &p.extensions[2] {
        Extension::SubjectAltName(s) => s.clone(),
        other => panic!("no subject alternative name: {:?}", other),
    }
}

fn acme() -> SelfSignedData {
    SelfSignedData {
        organisation_name: Some("Acme".to_string()),
        common_name: Some(Host::Name("proxy.local".to_string())),
        subject_alternative_names: None,
    }
}

#[test]
fn self_signed_acme_proxy_local() {
    let (leaf, ca) = self_signed_server_auth(acme());
    assert_eq!(
        ca.subject,
        vec![
            entry(NameField::OrganisationName, "Acme"),
            entry(NameField::CommonName, "proxy.local")
        ]
    );
    assert_eq!(ca.issuer, IssuerName::OwnSubject);
    assert_eq!(leaf.subject.last(), Some(&entry(NameField::CommonName, "proxy.local")));
    assert_eq!(leaf.issuer, IssuerName::CaSubject);
    assert_eq!(leaf.signer, Signer::CaKey);
    assert_eq!(san_of(&leaf), SanEntry::Dns("proxy.local".to_string()));
}

#[test]
fn defaults_are_anonymous_and_localhost() {
    let ca = self_signed_server_ca(SelfSignedData::default());
    assert_eq!(
        ca.subject,
        vec![
            entry(NameField::OrganisationName, "Anonymous"),
            entry(NameField::CommonName, "localhost")
        ]
    );
    let leaf = self_signed_server_auth_gen_cert(&SelfSignedData::default());
    assert_eq!(san_of(&leaf), SanEntry::Dns("localhost".to_string()));
}

#[test]
fn ca_extensions_in_order() {
    let ca = self_signed_server_auth_gen_ca(&acme());
    assert_eq!(ca.signer, Signer::OwnKey);
    assert_eq!(
        ca.extensions,
        vec![
            Extension::BasicConstraints { critical: true, ca: true },
            Extension::KeyUsage(KeyUsage {
                digital_signature: false,
                non_repudiation: false,
                key_encipherment: false,
                key_cert_sign: true,
                crl_sign: true,
            }),
            Extension::SubjectKeyIdentifier,
        ]
    );
}

#[test]
fn leaf_extensions_in_order() {
    let leaf = self_signed_server_auth_gen_cert(&acme());
    assert_eq!(
        leaf.extensions,
        vec![
            Extension::BasicConstraints { critical: false, ca: false },
            Extension::KeyUsage(KeyUsage {
                digital_signature: true,
                non_repudiation: true,
                key_encipherment: true,
                key_cert_sign: false,
                crl_sign: false,
            }),
            Extension::SubjectAltName(SanEntry::Dns("proxy.local".to_string())),
            Extension::SubjectKeyIdentifier,
            Extension::AuthorityKeyIdentifier,
        ]
    );
}

#[test]
fn alternative_names_sit_between_organisation_and_common_name() {
    let data = SelfSignedData {
        organisation_name: None,
        common_name: Some(Host::Name("a.test".to_string())),
        subject_alternative_names: Some(vec!["b.test".to_string(), "c.test".to_string()]),
    };
    let ca = self_signed_server_auth_gen_ca(&data);
    assert_eq!(
        ca.subject,
        vec![
            entry(NameField::OrganisationName, "Anonymous"),
            entry(NameField::SubjectAltName, "b.test"),
            entry(NameField::SubjectAltName, "c.test"),
            entry(NameField::CommonName, "a.test"),
        ]
    );
}

#[test]
fn numeric_address_gets_ip_entry() {
    let data = SelfSignedData {
        organisation_name: None,
        common_name: Some(Host::Address("127.0.0.1".to_string())),
        subject_alternative_names: None,
    };
    let leaf = self_signed_server_auth_gen_cert(&data);
    assert_eq!(san_of(&leaf), SanEntry::Ip("127.0.0.1".to_string()));
}

#[test]
fn issued_leaves_for_two_hosts_differ() {
    let a = issue_cert_for_ca(Some(Host::Name("example.com".to_string())), Some("Acme".to_string()));
    let b = issue_cert_for_ca(Some(Host::Name("other.com".to_string())), Some("Acme".to_string()));
    assert_eq!(san_of(&a), SanEntry::Dns("example.com".to_string()));
    assert_eq!(san_of(&b), SanEntry::Dns("other.com".to_string()));
    assert_ne!(san_of(&a), san_of(&b));
    assert_eq!(
        a.subject,
        vec![
            entry(NameField::OrganisationName, "Acme"),
            entry(NameField::CommonName, "example.com")
        ]
    );
}

#[test]
fn issued_leaf_without_name_or_organisation() {
    let p = issue_cert_for_ca(None, None);
    assert_eq!(
        p.subject,
        vec![
            entry(NameField::OrganisationName, "Anonymous"),
            entry(NameField::CommonName, "localhost")
        ]
    );
    assert_eq!(p.issuer, IssuerName::CaSubject);
}

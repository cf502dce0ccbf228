//! Turning a server configuration into the material an acceptor needs:
//! which documents to decode for each field, which certificates to
//! generate, and how the decoded pieces are put together.
use vstd::prelude::*;
use crate::config::{
    ApplicationProtocol, ClientVerifyMode, DataEncoding, KeyLogIntent, ProtocolVersion,
    ServerAuth, ServerAuthData, ServerCertIssuerKind, ServerConfig,
};
use crate::factory::{
    is_ca_plan, is_leaf_plan, self_signed_server_auth, self_signed_server_ca, CertPlan,
};

verus! {

/// Issued certificates are kept this many seconds (89 days).
pub const CACHE_TTL_SECS: u64 = 7689600;

/// Number of issued certificates kept when none is configured.
pub const DEFAULT_CACHE_CAPACITY: u64 = 8096;

/// The configuration field that a decoding error is about.
#[derive(Debug, Clone, Copy, PartialEq, Eq, Structural)]
pub enum ConfigField {
    ClientCertChain,
    ServerCertChain,
    ServerPrivateKey,
    CaCertChain,
    CaPrivateKey,
}

/// Malformed or missing key or certificate material in a field.
#[derive(Debug, Clone, Copy, PartialEq, Eq, Structural)]
pub struct ParseError {
    pub field: ConfigField,
}

/// One certificate document to decode.
#[derive(Debug, Clone, PartialEq, Eq)]
pub enum CertDocument {
    /// A single DER certificate.
    Der(Vec<u8>),
    /// PEM text holding zero or more certificates, in order.
    PemStack(String),
}

/// The private-key document to decode.
#[derive(Debug, Clone, PartialEq, Eq)]
pub enum KeyDocument {
    Der(Vec<u8>),
    Pem(String),
}

/// Where the certificates of an acceptor come from.
#[derive(Debug, Clone, PartialEq, Eq)]
pub enum SourcePlan {
    /// Generate a CA and a leaf signed by it, and serve the leaf.
    SelfSigned { leaf: CertPlan, ca: CertPlan },
    /// Serve a fixed key and chain.
    Single { key: KeyDocument, chain: Vec<CertDocument> },
    /// Issue leaves per host with a freshly generated CA.
    IssuerSelfSigned { ca: CertPlan, capacity: u64 },
    /// Issue leaves per host with a given CA: the last certificate of the
    /// decoded chain.
    IssuerSingle { key: KeyDocument, chain: Vec<CertDocument>, capacity: u64 },
}

/// Everything an acceptor is built from.
#[derive(Debug, Clone, PartialEq, Eq)]
pub struct AcceptorPlan {
    pub source: SourcePlan,
    /// The documents of the trusted client certificates, where clients
    /// are authenticated.
    pub client_chain: Option<Vec<CertDocument>>,
    pub alpn_protocols: Option<Vec<ApplicationProtocol>>,
    pub keylog_intent: KeyLogIntent,
    pub protocol_versions: Option<Vec<ProtocolVersion>>,
}

/// The documents that make up a certificate chain encoded as `enc`.
pub open spec fn cert_documents_of(enc: DataEncoding) -> Seq<CertDocument> {
    match enc {
        DataEncoding::Der(b) => seq![CertDocument::Der(b)],
        DataEncoding::DerStack(l) => l@.map_values(|b: Vec<u8>| CertDocument::Der(b)),
        DataEncoding::Pem(t) => seq![CertDocument::PemStack(t)],
    }
}

/// Whether `k` is the key document of a key encoded as `enc`; a stack of
/// DER documents holds its key in the first one.
pub open spec fn is_key_document(k: KeyDocument, enc: DataEncoding) -> bool {
    match enc {
        DataEncoding::Der(b) => k == KeyDocument::Der(b),
        DataEncoding::DerStack(l) => l@.len() > 0 && k == KeyDocument::Der(l@[0]),
        DataEncoding::Pem(t) => k == KeyDocument::Pem(t),
    }
}

/// Whether a key encoded as `enc` has no document at all.
pub open spec fn key_missing(enc: DataEncoding) -> bool {
    enc is DerStack && enc->DerStack_0@.len() == 0
}

/// The number of issued certificates kept for a configured maximum.
pub open spec fn capacity_of(max_cache_size: u64) -> u64 {
    if max_cache_size == 0 {
        DEFAULT_CACHE_CAPACITY
    } else {
        max_cache_size
    }
}

/// Whether `key` and `chain` are the documents that `data` gives.
pub open spec fn single_ok(key: KeyDocument, chain: Seq<CertDocument>, data: ServerAuthData) -> bool {
    is_key_document(key, data.private_key) && chain == cert_documents_of(data.cert_chain)
}

/// The encoding of the private key that `auth` gives, if any.
pub open spec fn key_encoding_of(auth: ServerAuth) -> Option<DataEncoding> {
    match auth {
        ServerAuth::SelfSigned(_) => None,
        ServerAuth::Single(d) => Some(d.private_key),
        ServerAuth::CertIssuer(i) => match i.kind {
            ServerCertIssuerKind::SelfSigned(_) => None,
            ServerCertIssuerKind::Single(d) => Some(d.private_key),
        },
    }
}

/// The field of the private key that `auth` gives.
pub open spec fn key_field_of(auth: ServerAuth) -> ConfigField {
    match auth {
        ServerAuth::CertIssuer(_) => ConfigField::CaPrivateKey,
        _ => ConfigField::ServerPrivateKey,
    }
}

/// Whether `auth` gives a private key as an empty stack of documents.
pub open spec fn key_missing_in(auth: ServerAuth) -> bool {
    key_encoding_of(auth) is Some && key_missing(key_encoding_of(auth)->0)
}

/// Whether `p` is the plan for the server authentication `auth`.
pub open spec fn is_source_plan(p: SourcePlan, auth: ServerAuth) -> bool {
    match auth {
        ServerAuth::SelfSigned(d) => p is SelfSigned && is_leaf_plan(p->SelfSigned_leaf, d)
            && is_ca_plan(p->SelfSigned_ca, d),
        ServerAuth::Single(d) => p is Single && single_ok(p->Single_key, p->Single_chain@, d),
        ServerAuth::CertIssuer(i) => match i.kind {
            ServerCertIssuerKind::SelfSigned(d) => p is IssuerSelfSigned && is_ca_plan(
                p->IssuerSelfSigned_ca,
                d,
            ) && p->IssuerSelfSigned_capacity == capacity_of(i.max_cache_size),
            ServerCertIssuerKind::Single(d) => p is IssuerSingle && single_ok(
                p->IssuerSingle_key,
                p->IssuerSingle_chain@,
                d,
            ) && p->IssuerSingle_capacity == capacity_of(i.max_cache_size),
        },
    }
}

/// The number of issued certificates kept for a configured maximum:
/// the maximum itself, or the default where it is 0.
pub fn cache_capacity(max_cache_size: u64) -> (r: u64)
    ensures
        r == capacity_of(max_cache_size),
        r > 0,
{
    if max_cache_size == 0 {
        DEFAULT_CACHE_CAPACITY
    } else {
        max_cache_size
    }
}

/// The documents that make up a certificate chain encoded as `enc`,
/// in chain order.
pub fn cert_documents(enc: DataEncoding) -> (r: Vec<CertDocument>)
    ensures
        r@ == cert_documents_of(enc),
{
    match enc {
        DataEncoding::Der(b) => vec![CertDocument::Der(b)],
        DataEncoding::DerStack(l) => {
            let ghost all = l@;
            let mut rest = l;
            let mut r: Vec<CertDocument> = Vec::new();
            while rest.len() > 0
                invariant
                    r@ + rest@.map_values(|b: Vec<u8>| CertDocument::Der(b)) == all.map_values(
                        |b: Vec<u8>| CertDocument::Der(b),
                    ),
                decreases rest@.len(),
            {
                let ghost before = rest@;
                let b = rest.remove(0);
                r.push(CertDocument::Der(b));
                assert(before.map_values(|b: Vec<u8>| CertDocument::Der(b)) =~= seq![
                    CertDocument::Der(b),
                ] + rest@.map_values(|b: Vec<u8>| CertDocument::Der(b)));
                assert(r@ + rest@.map_values(|b: Vec<u8>| CertDocument::Der(b)) =~= r@.drop_last()
                    + before.map_values(|b: Vec<u8>| CertDocument::Der(b)));
            }
            assert(rest@.map_values(|b: Vec<u8>| CertDocument::Der(b)) =~= Seq::empty());
            assert(r@ =~= r@ + rest@.map_values(|b: Vec<u8>| CertDocument::Der(b)));
            r
        },
        DataEncoding::Pem(t) => vec![CertDocument::PemStack(t)],
    }
}

/// The document of a private key encoded as `enc`; a stack of DER
/// documents holds its key in the first one, and an empty stack is an
/// error about `field`.
pub fn key_document(enc: DataEncoding, field: ConfigField) -> (r: Result<KeyDocument, ParseError>)
    ensures
        r is Err <==> key_missing(enc),
        r is Ok ==> is_key_document(r->Ok_0, enc),
        r is Err ==> r->Err_0 == (ParseError { field }),
{
    match enc {
        DataEncoding::Der(b) => Ok(KeyDocument::Der(b)),
        DataEncoding::DerStack(l) => {
            let mut l = l;
            if l.len() == 0 {
                Err(ParseError { field })
            } else {
                Ok(KeyDocument::Der(l.swap_remove(0)))
            }
        },
        DataEncoding::Pem(t) => Ok(KeyDocument::Pem(t)),
    }
}

/// The plan for the server authentication `auth`; fails only where a
/// private key is given as an empty stack of DER documents.
pub fn plan_source(auth: ServerAuth) -> (r: Result<SourcePlan, ParseError>)
    ensures
        r is Err <==> key_missing_in(auth),
        r is Ok ==> is_source_plan(r->Ok_0, auth),
        r is Err ==> r->Err_0 == (ParseError { field: key_field_of(auth) }),
{
    match auth {
        ServerAuth::SelfSigned(data) => {
            let (leaf, ca) = self_signed_server_auth(data);
            Ok(SourcePlan::SelfSigned { leaf, ca })
        },
        ServerAuth::Single(data) => {
            let chain = cert_documents(data.cert_chain);
            match key_document(data.private_key, ConfigField::ServerPrivateKey) {
                Ok(key) => Ok(SourcePlan::Single { key, chain }),
                Err(e) => Err(e),
            }
        },
        ServerAuth::CertIssuer(issuer) => {
            let capacity = cache_capacity(issuer.max_cache_size);
            match issuer.kind {
                ServerCertIssuerKind::SelfSigned(data) => {
                    let ca = self_signed_server_ca(data);
                    Ok(SourcePlan::IssuerSelfSigned { ca, capacity })
                },
                ServerCertIssuerKind::Single(data) => {
                    let chain = cert_documents(data.cert_chain);
                    match key_document(data.private_key, ConfigField::CaPrivateKey) {
                        Ok(key) => Ok(SourcePlan::IssuerSingle { key, chain, capacity }),
                        Err(e) => Err(e),
                    }
                },
            }
        },
    }
}

/// The documents of the trusted client certificates for `mode`.
pub open spec fn client_chain_of(mode: ClientVerifyMode) -> Option<Seq<CertDocument>> {
    match mode {
        ClientVerifyMode::ClientAuth(enc) => Some(cert_documents_of(enc)),
        _ => None,
    }
}

impl AcceptorPlan {
    /// The plan of an acceptor for `config`: the source of its
    /// certificates, the client certificates it trusts, and the protocol
    /// settings carried over as they are.
    pub fn from_config(config: ServerConfig) -> (r: Result<AcceptorPlan, ParseError>)
        ensures
            r is Err <==> key_missing_in(config.server_auth),
            r is Err ==> r->Err_0 == (ParseError { field: key_field_of(config.server_auth) }),
            r is Ok ==> {
                let p = r->Ok_0;
                &&& is_source_plan(p.source, config.server_auth)
                &&& match client_chain_of(config.client_verify_mode) {
                    Some(docs) => p.client_chain is Some && p.client_chain->0@ == docs,
                    None => p.client_chain is None,
                }
                &&& p.alpn_protocols == config.application_layer_protocol_negotiation
                &&& p.keylog_intent == config.key_logger
                &&& p.protocol_versions == config.protocol_versions
            },
    {
        let client_chain = match config.client_verify_mode {
            ClientVerifyMode::Auto => None,
            ClientVerifyMode::Disable => None,
            ClientVerifyMode::ClientAuth(enc) => Some(cert_documents(enc)),
        };
        match plan_source(config.server_auth) {
            Ok(source) => Ok(
                AcceptorPlan {
                    source,
                    client_chain,
                    alpn_protocols: config.application_layer_protocol_negotiation,
                    keylog_intent: config.key_logger,
                    protocol_versions: config.protocol_versions,
                },
            ),
            Err(e) => Err(e),
        }
    }
}

/// Where the certificates served by an acceptor come from, once decoded
/// or generated; `C` is a certificate and `K` a private key.
pub enum CertSource<C, K> {
    /// A fixed key and chain, leaf first.
    InMemory { private_key: K, cert_chain: Vec<C> },
    /// A CA that issues a leaf per host, keeping up to `capacity` of them.
    InMemoryIssuer { ca_key: K, ca_cert: C, capacity: u64 },
}

/// The source for a fixed key and chain, from the outcome of decoding
/// each: a failed chain is reported before a failed key.
pub fn assemble_single<C, K>(chain: Result<Vec<C>, ()>, key: Result<K, ()>) -> (r: Result<
    CertSource<C, K>,
    ParseError,
>)
    ensures
        chain is Err ==> r == Err::<CertSource<C, K>, ParseError>(
            ParseError { field: ConfigField::ServerCertChain },
        ),
        chain is Ok && key is Err ==> r == Err::<CertSource<C, K>, ParseError>(
            ParseError { field: ConfigField::ServerPrivateKey },
        ),
        chain is Ok && key is Ok ==> r == Ok::<CertSource<C, K>, ParseError>(
            CertSource::InMemory { private_key: key->Ok_0, cert_chain: chain->Ok_0 },
        ),
{
    match chain {
        Err(_) => Err(ParseError { field: ConfigField::ServerCertChain }),
        Ok(cert_chain) => match key {
            Err(_) => Err(ParseError { field: ConfigField::ServerPrivateKey }),
            Ok(private_key) => Ok(CertSource::InMemory { private_key, cert_chain }),
        },
    }
}

/// The issuing source for a given CA, from the outcome of decoding its
/// chain and key: the CA certificate is the last of the chain, the
/// others are dropped, and an empty chain is an error.
pub fn assemble_issuer<C, K>(chain: Result<Vec<C>, ()>, key: Result<K, ()>, capacity: u64) -> (r:
    Result<CertSource<C, K>, ParseError>)
    ensures
        chain is Err || (chain is Ok && chain->Ok_0@.len() == 0) ==> r == Err::<
            CertSource<C, K>,
            ParseError,
        >(ParseError { field: ConfigField::CaCertChain }),
        chain is Ok && chain->Ok_0@.len() > 0 && key is Err ==> r == Err::<
            CertSource<C, K>,
            ParseError,
        >(ParseError { field: ConfigField::CaPrivateKey }),
        chain is Ok && chain->Ok_0@.len() > 0 && key is Ok ==> r == Ok::<
            CertSource<C, K>,
            ParseError,
        >(CertSource::InMemoryIssuer { ca_key: key->Ok_0, ca_cert: chain->Ok_0@.last(), capacity }),
{
    match chain {
        Err(_) => Err(ParseError { field: ConfigField::CaCertChain }),
        Ok(mut cert_chain) => match cert_chain.pop() {
            None => Err(ParseError { field: ConfigField::CaCertChain }),
            Some(ca_cert) => match key {
                Err(_) => Err(ParseError { field: ConfigField::CaPrivateKey }),
                Ok(ca_key) => Ok(CertSource::InMemoryIssuer { ca_key, ca_cert, capacity }),
            },
        },
    }
}

/// The trusted client certificates, from the outcome of decoding them
/// where clients are authenticated: a failed or empty decoding is an
/// error.
pub fn client_trust<C>(decoded: Option<Result<Vec<C>, ()>>) -> (r: Result<Option<Vec<C>>, ParseError>)
    ensures
        decoded is None ==> r == Ok::<Option<Vec<C>>, ParseError>(None),
        decoded is Some && (decoded->0 is Err || decoded->0->Ok_0@.len() == 0) ==> r == Err::<
            Option<Vec<C>>,
            ParseError,
        >(ParseError { field: ConfigField::ClientCertChain }),
        decoded is Some && decoded->0 is Ok && decoded->0->Ok_0@.len() > 0 ==> r == Ok::<
            Option<Vec<C>>,
            ParseError,
        >(Some(decoded->0->Ok_0)),
{
    match decoded {
        None => Ok(None),
        Some(Err(_)) => Err(ParseError { field: ConfigField::ClientCertChain }),
        Some(Ok(certs)) => {
            if certs.len() == 0 {
                Err(ParseError { field: ConfigField::ClientCertChain })
            } else {
                Ok(Some(certs))
            }
        },
    }
}

/// A fixed key and chain is always accepted where the key is given at
/// all: the plan then decodes exactly the documents given.
pub proof fn lemma_static_auth_accepted(data: ServerAuthData, p: SourcePlan)
    requires
        !key_missing(data.private_key),
        is_source_plan(p, ServerAuth::Single(data)),
    ensures
        !key_missing_in(ServerAuth::Single(data)),
        p is Single,
        p->Single_chain@ == cert_documents_of(data.cert_chain),
        is_key_document(p->Single_key, data.private_key),
{
}

} // verus!

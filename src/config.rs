use vstd::prelude::*;
use crate::host::Host;

verus! {

/// How key or certificate material is encoded.
#[derive(Debug, Clone, PartialEq, Eq)]
pub enum DataEncoding {
    /// One raw DER document.
    Der(Vec<u8>),
    /// An ordered list of raw DER documents.
    DerStack(Vec<Vec<u8>>),
    /// One text blob with one or more concatenated PEM documents.
    Pem(String),
}

/// Naming for a generated certificate.
#[derive(Debug, Clone, Default, PartialEq, Eq)]
pub struct SelfSignedData {
    /// Organisation name; "Anonymous" when absent.
    pub organisation_name: Option<String>,
    /// Common name; the host "localhost" when absent.
    pub common_name: Option<Host>,
    /// Subject alternative names added to the subject.
    pub subject_alternative_names: Option<Vec<String>>,
}

/// A private key with its certificate chain, leaf first.
#[derive(Debug, Clone, PartialEq, Eq)]
pub struct ServerAuthData {
    pub private_key: DataEncoding,
    pub cert_chain: DataEncoding,
    /// A DER-encoded OCSP response, carried as is.
    pub ocsp: Option<Vec<u8>>,
}

/// Where the certificate authority of an issuing source comes from.
#[derive(Debug, Clone, PartialEq, Eq)]
pub enum ServerCertIssuerKind {
    SelfSigned(SelfSignedData),
    Single(ServerAuthData),
}

/// Configuration of an issuing source.
#[derive(Debug, Clone, PartialEq, Eq)]
pub struct ServerCertIssuerData {
    pub kind: ServerCertIssuerKind,
    /// Maximum number of issued certificates kept; 0 picks the default.
    pub max_cache_size: u64,
}

/// The kind of server authentication to use.
#[derive(Debug, Clone, PartialEq, Eq)]
pub enum ServerAuth {
    /// A certificate generated at start-up, signed by a generated CA.
    SelfSigned(SelfSignedData),
    /// A fixed key and chain given by the administrator.
    Single(ServerAuthData),
    /// Leaf certificates issued per host by an in-memory CA.
    CertIssuer(ServerCertIssuerData),
}

/// How the server verifies clients.
#[derive(Debug, Clone, PartialEq, Eq)]
pub enum ClientVerifyMode {
    Auto,
    Disable,
    /// The trusted client certificates.
    ClientAuth(DataEncoding),
}

/// Whether and where TLS key material is logged.
#[derive(Debug, Clone, PartialEq, Eq)]
pub enum KeyLogIntent {
    Disabled,
    Environment,
    File(String),
}

/// A TLS protocol version, by its wire number.
#[derive(Debug, Clone, Copy, PartialEq, Eq, Hash)]
pub struct ProtocolVersion(pub u16);

/// An ALPN protocol identifier.
#[derive(Debug, Clone, PartialEq, Eq, Hash)]
pub struct ApplicationProtocol(pub Vec<u8>);

/// Configuration of a TLS server.
#[derive(Debug, Clone, PartialEq, Eq)]
pub struct ServerConfig {
    pub server_auth: ServerAuth,
    pub protocol_versions: Option<Vec<ProtocolVersion>>,
    pub application_layer_protocol_negotiation: Option<Vec<ApplicationProtocol>>,
    pub client_verify_mode: ClientVerifyMode,
    pub key_logger: KeyLogIntent,
}

impl ServerConfig {
    /// A configuration with the given authentication and every other
    /// setting at its default.
    pub fn new(auth: ServerAuth) -> (r: ServerConfig)
        ensures
            r.server_auth == auth,
            r.protocol_versions is None,
            r.application_layer_protocol_negotiation is None,
            r.client_verify_mode == ClientVerifyMode::Auto,
            r.key_logger == KeyLogIntent::Disabled,
    {
        ServerConfig {
            server_auth: auth,
            protocol_versions: None,
            application_layer_protocol_negotiation: None,
            client_verify_mode: ClientVerifyMode::Auto,
            key_logger: KeyLogIntent::Disabled,
        }
    }
}

} // verus!

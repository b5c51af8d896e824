//! TLS configuration records.
//!
//! Two-layer security: the transport layer may demand a client certificate
//! (mTLS) and the application layer demands an API key.  This module holds
//! the pure configuration; reading certificate files and building the
//! transport objects is the composition root's business.

use vstd::prelude::*;

verus! {

/// TLS configuration for the gRPC transport.
#[derive(Clone, Debug)]
pub struct TlsConfiguration {
    /// Server certificate path (PEM format).
    pub server_cert_path: Option<String>,
    /// Server private key path (PEM format).
    pub server_key_path: Option<String>,
    /// CA certificate path for verifying client certificates (PEM format).
    pub ca_cert_path: Option<String>,
    /// Client certificate path for mTLS (PEM format).
    pub client_cert_path: Option<String>,
    /// Client private key path for mTLS (PEM format).
    pub client_key_path: Option<String>,
    /// Enable mTLS (require client certificates).
    pub enable_mtls: bool,
    /// Domain name for TLS verification.
    pub domain: String,
}

impl Default for TlsConfiguration {
    /// No TLS at all; the domain defaults to localhost.
    fn default() -> (r: TlsConfiguration)
        ensures
            r.server_cert_path is None,
            r.server_key_path is None,
            r.ca_cert_path is None,
            r.client_cert_path is None,
            r.client_key_path is None,
            !r.enable_mtls,
            r.domain@ == "localhost"@,
    {
        TlsConfiguration {
            server_cert_path: None,
            server_key_path: None,
            ca_cert_path: None,
            client_cert_path: None,
            client_key_path: None,
            enable_mtls: false,
            domain: "localhost".to_owned(),
        }
    }
}

impl TlsConfiguration {
    /// Server-side configuration: certificate and key paths, optionally a
    /// client CA for mTLS.
    pub fn new_server(
        server_cert_path: String,
        server_key_path: String,
        ca_cert_path: Option<String>,
        enable_mtls: bool,
    ) -> (r: TlsConfiguration)
        ensures
            r.server_cert_path matches Some(c) && c@ == server_cert_path@,
            r.server_key_path matches Some(k) && k@ == server_key_path@,
            r.ca_cert_path == ca_cert_path,
            r.client_cert_path is None,
            r.client_key_path is None,
            r.enable_mtls == enable_mtls,
            r.domain@ == "localhost"@,
    {
        TlsConfiguration {
            server_cert_path: Some(server_cert_path),
            server_key_path: Some(server_key_path),
            ca_cert_path,
            client_cert_path: None,
            client_key_path: None,
            enable_mtls,
            domain: "localhost".to_owned(),
        }
    }

    /// Client-side configuration: a CA to verify the server, and mTLS
    /// exactly when both a client certificate and key are given.
    pub fn new_client(
        ca_cert_path: String,
        client_cert_path: Option<String>,
        client_key_path: Option<String>,
        domain: String,
    ) -> (r: TlsConfiguration)
        ensures
            r.server_cert_path is None,
            r.server_key_path is None,
            r.ca_cert_path matches Some(c) && c@ == ca_cert_path@,
            r.client_cert_path == client_cert_path,
            r.client_key_path == client_key_path,
            r.enable_mtls <==> (client_cert_path is Some && client_key_path is Some),
            r.domain@ == domain@,
    {
        let enable_mtls = client_cert_path.is_some() && client_key_path.is_some();
        TlsConfiguration {
            server_cert_path: None,
            server_key_path: None,
            ca_cert_path: Some(ca_cert_path),
            client_cert_path,
            client_key_path,
            enable_mtls,
            domain,
        }
    }

    /// Whether server TLS is enabled: both certificate and key are set.
    pub fn is_server_tls_enabled(&self) -> (r: bool)
        ensures
            r <==> (self.server_cert_path is Some && self.server_key_path is Some),
    {
        self.server_cert_path.is_some() && self.server_key_path.is_some()
    }

    /// Whether client TLS is enabled: a CA certificate is set.
    pub fn is_client_tls_enabled(&self) -> (r: bool)
        ensures
            r <==> self.ca_cert_path is Some,
    {
        self.ca_cert_path.is_some()
    }
}

/// TLS-related failures.
#[derive(Clone, Debug)]
pub enum TlsError {
    /// A certificate file could not be read: path and cause.
    CertificateRead(String, String),
    /// A key file could not be read: path and cause.
    KeyRead(String, String),
    /// A CA certificate file could not be read: path and cause.
    CaRead(String, String),
    /// mTLS enabled but no CA certificate provided.
    MtlsNoCa,
    /// mTLS enabled but no client certificate provided.
    MtlsNoClientCert,
    /// mTLS enabled but no client key provided.
    MtlsNoClientKey,
    /// Any other configuration problem.
    Configuration(String),
}

} // verus!

//! The TLS engine (rustls) as the library sees it: its types, the calls that
//! build configurations and sessions, and what is assumed of each.

use std::sync::Arc;

use vstd::prelude::*;

use rustls::client::InvalidDnsNameError;
use rustls::{Certificate, ClientConfig, ClientConnection, PrivateKey, ServerConfig, ServerConnection, ServerName};

use crate::error::GridError;

verus! {

/// Declares rustls::ClientConfig, carried through opaque: the shared client configuration.
#[verifier::external_type_specification]
#[verifier::external_body]
pub struct ExClientConfig(ClientConfig);

/// Declares rustls::ServerConfig, carried through opaque: the shared server configuration.
#[verifier::external_type_specification]
#[verifier::external_body]
pub struct ExServerConfig(ServerConfig);

/// Declares rustls::ClientConnection, carried through opaque: one client session.
#[verifier::external_type_specification]
#[verifier::external_body]
pub struct ExClientConnection(ClientConnection);

/// Declares rustls::ServerConnection, carried through opaque: one server session.
#[verifier::external_type_specification]
#[verifier::external_body]
pub struct ExServerConnection(ServerConnection);

/// Declares rustls::ServerName, carried through opaque: the peer a client session is for.
#[verifier::external_type_specification]
#[verifier::external_body]
pub struct ExServerName(ServerName);

/// Declares rustls::client::InvalidDnsNameError: why a text names no peer.
#[verifier::external_type_specification]
#[verifier::external_body]
pub struct ExInvalidDnsNameError(InvalidDnsNameError);

/// Declares rustls::Error, read only through its `Display` text.
#[verifier::external_type_specification]
#[verifier::external_body]
pub struct ExTlsError(rustls::Error);

/// Declares rustls::Certificate: a public tuple struct of the DER bytes, read as declared.
#[verifier::external_type_specification]
pub struct ExCertificate(Certificate);

/// Declares rustls::PrivateKey: a public tuple struct of the DER bytes, read as declared.
#[verifier::external_type_specification]
pub struct ExPrivateKey(PrivateKey);

/// Whether a text names a TLS peer: a DNS name or an IP address.
pub uninterp spec fn is_server_name(host: Seq<char>) -> bool;

/// Relies on `ServerName::try_from(&str)`: it accepts a syntactically valid
/// DNS name or an IP address, and that depends on the text alone.
#[verifier::external_body]
fn server_name(host: &str) -> (r: Result<ServerName, InvalidDnsNameError>)
    ensures
        r is Ok <==> is_server_name(host@),
{
    ServerName::try_from(host)
}

/// Relies on `rustls::ClientConfig::builder`: safe defaults, the web's root
/// certificates from `webpki_roots` as trust anchors, no client certificate.
#[verifier::external_body]
fn client_config() -> Arc<ClientConfig> {
    let mut roots = rustls::RootCertStore::empty();
    roots.add_server_trust_anchors(webpki_roots::TLS_SERVER_ROOTS.0.iter().map(|ta| {
        rustls::OwnedTrustAnchor::from_subject_spki_name_constraints(ta.subject, ta.spki, ta.name_constraints)
    }));
    Arc::new(ClientConfig::builder().with_safe_defaults().with_root_certificates(roots).with_no_client_auth())
}

/// Relies on `ClientConnection::new`: a client session for the named peer.
/// It draws random values, so nothing is promised of its outcome.
#[verifier::external_body]
fn client_connection(config: Arc<ClientConfig>, name: ServerName) -> Result<ClientConnection, rustls::Error> {
    ClientConnection::new(config, name)
}

/// Relies on `ServerConnection::new`: a server session under a configuration.
#[verifier::external_body]
pub(crate) fn server_connection(config: &Arc<ServerConfig>) -> Result<ServerConnection, rustls::Error> {
    ServerConnection::new(config.clone())
}

/// Whether the TLS engine reads DER bytes as a private key it can sign with
/// (RSA, ECDSA or EdDSA).
pub uninterp spec fn is_supported_key(key: Seq<u8>) -> bool;

/// Relies on `ConfigBuilder::with_single_cert_with_ocsp_and_sct`, after safe
/// defaults and no client authentication: it succeeds only when
/// `sign::any_supported_type` reads the key as an RSA, ECDSA or EdDSA key.
/// Reading an ECDSA key also draws random bytes, so a supported key may
/// still be refused: success is not promised.
#[verifier::external_body]
pub(crate) fn single_cert_config(chain: Vec<Certificate>, key: PrivateKey, ocsp: Vec<u8>) -> (r: Result<ServerConfig, rustls::Error>)
    ensures
        r is Ok ==> is_supported_key(key.0@),
{
    ServerConfig::builder().with_safe_defaults().with_no_client_auth().with_single_cert_with_ocsp_and_sct(chain, key, ocsp, Vec::new())
}

/// A client session with the peer that `host` names, under the web's root
/// certificates.
pub fn open_session(host: &str) -> (r: Result<ClientConnection, GridError>)
    ensures
        !is_server_name(host@) ==> r matches Err(GridError::InvalidServerName),
        r matches Err(GridError::InvalidServerName) ==> !is_server_name(host@),
        r is Ok ==> is_server_name(host@),
        r matches Err(e) ==> (e is InvalidServerName || e is Tls),
{
    let name = match server_name(host) {
        Ok(n) => n,
        Err(_) => return Err(GridError::InvalidServerName),
    };
    match client_connection(client_config(), name) {
        Ok(c) => Ok(c),
        Err(e) => Err(GridError::Tls(e.to_string())),
    }
}

} // verus!

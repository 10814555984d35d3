//! The server's side: the store of key material that its TLS configuration
//! is built from, a self-signed fallback, and the configuration that every
//! accepted connection's session shares.

use std::sync::Arc;

use vstd::prelude::*;
use vstd::utf8::is_ascii_chars;

use rustls::{Certificate, PrivateKey, ServerConfig, ServerConnection};

use crate::error::GridError;
use crate::tls::{is_supported_key, server_connection, single_cert_config};

verus! {

/// Declares rcgen::RcgenError, read only through its `Display` text.
#[verifier::external_type_specification]
#[verifier::external_body]
pub struct ExRcgenError(rcgen::RcgenError);

/// Relies on `rcgen::generate_simple_self_signed`, then on
/// `Certificate::serialize_private_key_der` and `Certificate::serialize_der`:
/// a certificate for the names with a freshly generated key, as the key's
/// PKCS#8 DER bytes and the certificate's DER bytes. The key is random, so
/// nothing is promised of the bytes. Each name is written as an IA5 string,
/// which yasna's writer asserts is ASCII: non-ASCII names are left out.
/// rcgen also unwraps the reading of the key it has just generated, which
/// fails only if the system's random source fails between two draws.
#[verifier::external_body]
fn self_signed(names: &Vec<String>) -> Result<(Vec<u8>, Vec<u8>), rcgen::RcgenError>
    requires
        all_ascii(names@.map_values(|d: String| d@)),
{
    let cert = rcgen::generate_simple_self_signed(names.clone())?;
    Ok((cert.serialize_private_key_der(), cert.serialize_der()?))
}

/// What a certificate store holds, as mathematical values.
pub struct StoreModel {
    pub priv_key: Seq<u8>,
    pub ocsp: Seq<u8>,
    pub domains: Seq<Seq<char>>,
    pub chain: Seq<Seq<u8>>,
}

/// A private key (PKCS#8 DER), an OCSP response (possibly empty), the names a
/// certificate is valid for, and the certificate chain (DER), leaf first.
#[derive(Clone)]
pub struct CertificateStore {
    priv_key: Vec<u8>,
    ocsp: Vec<u8>,
    domains: Vec<String>,
    chain: Vec<Vec<u8>>,
}

impl View for CertificateStore {
    type V = StoreModel;

    closed spec fn view(&self) -> StoreModel {
        StoreModel {
            priv_key: self.priv_key@,
            ocsp: self.ocsp@,
            domains: self.domains@.map_values(|d: String| d@),
            chain: self.chain@.map_values(|c: Vec<u8>| c@),
        }
    }
}

impl CertificateStore {
    /// A store of a private key, an OCSP response and the names the
    /// certificate is valid for, with no certificate chain yet.
    pub fn new(priv_key: Vec<u8>, ocsp: Vec<u8>, domains: Vec<String>) -> (r: Self)
        ensures
            r@.priv_key == priv_key@,
            r@.ocsp == ocsp@,
            r@.domains == domains@.map_values(|d: String| d@),
            r@.chain == Seq::<Seq<u8>>::empty(),
    {
        CertificateStore { priv_key, ocsp, domains, chain: Vec::new() }
    }

    /// The store with `chain` as its certificate chain.
    pub fn with_certificates(self, chain: Vec<Vec<u8>>) -> (r: Self)
        ensures
            r@ == (StoreModel { chain: chain@.map_values(|c: Vec<u8>| c@), ..self@ }),
    {
        CertificateStore { chain, ..self }
    }

    /// The private key, for the TLS engine.
    pub fn get_privkey(self) -> (r: PrivateKey)
        ensures
            r.0@ == self@.priv_key,
    {
        PrivateKey(self.priv_key)
    }

    /// The OCSP response.
    pub fn get_ocsp(self) -> (r: Vec<u8>)
        ensures
            r@ == self@.ocsp,
    {
        self.ocsp
    }

    /// The names the certificate is valid for.
    pub fn get_domains(self) -> (r: Vec<String>)
        ensures
            r@.map_values(|d: String| d@) == self@.domains,
    {
        self.domains
    }

    /// The certificate chain, for the TLS engine; an error when the store
    /// holds none.
    pub fn get_certificates(self) -> (r: Result<Vec<Certificate>, GridError>)
        ensures
            self@.chain.len() == 0 ==> r == Err::<Vec<Certificate>, GridError>(
                GridError::NoCertificates,
            ),
            self@.chain.len() > 0 ==> (r matches Ok(v) && v@.len() == self@.chain.len() && forall|
                i: int,
            | 0 <= i < v@.len() ==> (#[trigger] v@[i]).0@ == self@.chain[i]),
    {
        if self.chain.len() == 0 {
            return Err(GridError::NoCertificates);
        }
        Ok(certificates_of(self.chain))
    }
}

/// The chain's DER bytes, each as a certificate for the TLS engine.
fn certificates_of(chain: Vec<Vec<u8>>) -> (r: Vec<Certificate>)
    ensures
        r@.len() == chain@.len(),
        forall|i: int| 0 <= i < r@.len() ==> (#[trigger] r@[i]).0@ == chain@[i]@,
{
        let mut rest = chain;
        let ghost all = rest@;
        let mut out: Vec<Certificate> = Vec::new();
        while rest.len() > 0
            invariant
                out@.len() + rest@.len() == all.len(),
                rest@ == all.subrange(out@.len() as int, all.len() as int),
                forall|i: int| 0 <= i < out@.len() ==> (#[trigger] out@[i]).0@ == all[i]@,
            decreases rest@.len(),
        {
            let der = rest.remove(0);
            out.push(Certificate(der));
        }
        out
}

/// The names a generated certificate is valid for: the given names, or
/// `localhost` when none are given.
pub open spec fn certificate_names(names: Option<Vec<String>>) -> Seq<Seq<char>> {
    match names {
        Some(v) => v@.map_values(|d: String| d@),
        None => seq![seq!['l', 'o', 'c', 'a', 'l', 'h', 'o', 's', 't']],
    }
}

/// Every name is ASCII text.
pub open spec fn all_ascii(names: Seq<Seq<char>>) -> bool {
    forall|i: int| 0 <= i < names.len() ==> is_ascii_chars(#[trigger] names[i])
}

/// The store for a generated certificate: its key, the certificate as the
/// whole chain, no OCSP response, and the names it was made for.
pub fn store_from_generated(domains: Vec<String>, key: Vec<u8>, der: Vec<u8>) -> (r: CertificateStore)
    ensures
        r@ == (StoreModel {
            priv_key: key@,
            ocsp: Seq::empty(),
            domains: domains@.map_values(|d: String| d@),
            chain: seq![der@],
        }),
{
    let mut chain: Vec<Vec<u8>> = Vec::new();
    chain.push(der);
    let r = CertificateStore { priv_key: key, ocsp: Vec::new(), domains, chain };
    assert(r@.chain =~= seq![der@]);
    r
}

/// A store holding a freshly generated self-signed certificate for the
/// given names (`localhost` when none are given), its private key, and no
/// OCSP response. Meant for development, not for production trust. A name
/// that is not ASCII cannot be written into the certificate and is [`GridError::NonAsciiName`].
pub fn gen_certificate(names: Option<Vec<String>>) -> (r: Result<CertificateStore, GridError>)
    ensures
        r matches Err(GridError::NonAsciiName) <==> !all_ascii(certificate_names(names)),
        r matches Ok(s) ==> s@.domains == certificate_names(names) && s@.ocsp.len() == 0
            && s@.chain.len() == 1,
        r matches Err(e) ==> (e is NonAsciiName || e is Certificate),
{
    let domains = match names {
        Some(a) => a,
        None => {
            let name = "localhost".to_owned();
            proof {
                reveal_strlit("localhost");
            }
            assert(name@ =~= seq!['l', 'o', 'c', 'a', 'l', 'h', 'o', 's', 't']);
            let mut v: Vec<String> = Vec::new();
            v.push(name);
            assert(v@.map_values(|d: String| d@) =~= certificate_names(names));
            v
        },
    };
    let mut i: usize = 0;
    while i < domains.len()
        invariant
            i <= domains@.len(),
            domains@.map_values(|d: String| d@) == certificate_names(names),
            forall|j: int| 0 <= j < i ==> is_ascii_chars(#[trigger] domains@[j]@),
        decreases domains@.len() - i,
    {
        if !domains[i].as_str().is_ascii() {
            assert(!is_ascii_chars(domains@.map_values(|d: String| d@)[i as int]));
            return Err(GridError::NonAsciiName);
        }
        i = i + 1;
    }
    let ghost views = domains@.map_values(|d: String| d@);
    assert forall|j: int| 0 <= j < views.len() implies is_ascii_chars(#[trigger] views[j]) by {
        assert(is_ascii_chars(domains@[j]@));
    }
    match self_signed(&domains) {
        Ok((key, der)) => Ok(store_from_generated(domains, key, der)),
        Err(e) => Err(GridError::Certificate(e.to_string())),
    }
}

/// A listener's shared TLS configuration and the port it is to listen on.
/// Each accepted connection gets a session of its own under the one
/// configuration.
pub struct GridServer {
    port: u16,
    tls_config: Arc<ServerConfig>,
    store: Ghost<StoreModel>,
}

impl GridServer {
    /// A server for `port` whose TLS configuration holds the store's chain,
    /// key and OCSP response; a self-signed store for `localhost` is
    /// generated when none is given. No client certificate is asked for.
    /// A store without a chain, a key that the TLS engine does not support,
    /// or a failed generation is an error; the TLS engine may also refuse a
    /// supported key when it cannot draw random bytes.
    pub fn new(port: u16, certs: Option<CertificateStore>) -> (r: Result<Self, GridError>)
        ensures
            r matches Ok(s) ==> s.port() == port,
            r matches Ok(s) ==> s.store().chain.len() > 0 && is_supported_key(s.store().priv_key),
            r matches Ok(s) ==> (certs matches Some(c) ==> s.store() == c@),
            r matches Ok(s) ==> (certs is None ==> s.store().domains == certificate_names(None)
                && s.store().ocsp.len() == 0 && s.store().chain.len() == 1),
            certs matches Some(c) && c@.chain.len() == 0 ==> r == Err::<Self, GridError>(
                GridError::NoCertificates,
            ),
            certs matches Some(c) ==> (r is Ok ==> is_supported_key(c@.priv_key)),
            r matches Err(GridError::NoCertificates) ==> (certs matches Some(c) && c@.chain.len()
                == 0),
            r matches Err(GridError::Certificate(_)) ==> certs is None,
            r matches Err(e) ==> (e is NoCertificates || e is Tls || e is Certificate),
    {
        proof {
            assert(all_ascii(certificate_names(None)));
        }
        let store = match certs {
            Some(a) => a,
            None => match gen_certificate(None) {
                Ok(s) => s,
                Err(e) => return Err(e),
            },
        };
        let ghost model = store@;
        let CertificateStore { priv_key, ocsp, domains: _, chain } = store;
        if chain.len() == 0 {
            return Err(GridError::NoCertificates);
        }
        let key = PrivateKey(priv_key);
        match single_cert_config(certificates_of(chain), key, ocsp) {
            Ok(config) => Ok(GridServer { port, tls_config: Arc::new(config), store: Ghost(model) }),
            Err(e) => Err(GridError::Tls(e.to_string())),
        }
    }

    /// The store that the configuration was built from.
    pub closed spec fn store(&self) -> StoreModel {
        self.store@
    }

    pub closed spec fn port(&self) -> u16 {
        self.port
    }

    /// The port to listen on.
    pub fn listen_port(&self) -> (r: u16)
        ensures
            r == self.port(),
    {
        self.port
    }

    /// A fresh session for one accepted connection, under the shared
    /// configuration.
    pub fn new_session(&self) -> (r: Result<ServerConnection, GridError>)
        ensures
            r matches Err(e) ==> e is Tls,
    {
        match server_connection(&self.tls_config) {
            Ok(c) => Ok(c),
            Err(e) => Err(GridError::Tls(e.to_string())),
        }
    }
}

} // verus!

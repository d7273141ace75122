//! TLS 1.3 configuration for QUIC endpoints: one side's rustls config,
//! server or client.
use std::sync::Arc;
use rustls::pki_types::{CertificateDer, PrivateKeyDer};
use rustls::{ClientConfig, ServerConfig};
use vstd::prelude::*;

use crate::error::{joined, text, TransportError};
use crate::outside::share;

verus! {

/// Unified TLS configuration for QUIC endpoints.
#[derive(Clone, Debug)]
pub struct TlsConfig {
    inner: TlsConfigInner,
}

#[derive(Clone, Debug)]
enum TlsConfigInner {
    Server(Arc<ServerConfig>),
    Client(Arc<ClientConfig>),
}

/// The side of a TLS configuration, with the rustls config it holds.
pub enum TlsSide {
    Server(ServerConfig),
    Client(ClientConfig),
}

impl TlsConfig {
    /// Which side this configuration is for, and its rustls config.
    pub closed spec fn side(&self) -> TlsSide {
        match self.inner {
            TlsConfigInner::Server(c) => TlsSide::Server(*c),
            TlsConfigInner::Client(c) => TlsSide::Client(*c),
        }
    }

    /// Wrap an already-built [`rustls::ServerConfig`].
    ///
    /// Make sure `alpn_protocols` includes `b"h3"`.
    pub fn server(config: ServerConfig) -> (r: Self)
        ensures
            r.side() == TlsSide::Server(config),
    {
        TlsConfig { inner: TlsConfigInner::Server(Arc::new(config)) }
    }

    /// Wrap an already-built [`rustls::ClientConfig`].
    ///
    /// Make sure `alpn_protocols` includes `b"h3"`.
    pub fn client(config: ClientConfig) -> (r: Self)
        ensures
            r.side() == TlsSide::Client(config),
    {
        TlsConfig { inner: TlsConfigInner::Client(Arc::new(config)) }
    }

    /// A second handle to the same configuration.
    pub fn duplicate(&self) -> (r: Self)
        ensures
            r.side() == self.side(),
    {
        match &self.inner {
            TlsConfigInner::Server(c) => TlsConfig { inner: TlsConfigInner::Server(share(c)) },
            TlsConfigInner::Client(c) => TlsConfig { inner: TlsConfigInner::Client(share(c)) },
        }
    }

    /// Return the inner server config, or an error if this is a client config.
    pub fn server_config(&self) -> (r: Result<Arc<ServerConfig>, TransportError>)
        ensures
            match self.side() {
                TlsSide::Server(c) => r matches Ok(a) && *a == c,
                TlsSide::Client(_) => r matches Err(TransportError::Tls(m))
                    && m@ == "expected server config"@,
            },
    {
        match &self.inner {
            TlsConfigInner::Server(c) => Ok(share(c)),
            TlsConfigInner::Client(_) => Err(TransportError::Tls(text("expected server config"))),
        }
    }

    /// Return the inner client config, or an error if this is a server config.
    pub fn client_config(&self) -> (r: Result<Arc<ClientConfig>, TransportError>)
        ensures
            match self.side() {
                TlsSide::Client(c) => r matches Ok(a) && *a == c,
                TlsSide::Server(_) => r matches Err(TransportError::Tls(m))
                    && m@ == "expected client config"@,
            },
    {
        match &self.inner {
            TlsConfigInner::Client(c) => Ok(share(c)),
            TlsConfigInner::Server(_) => Err(TransportError::Tls(text("expected client config"))),
        }
    }
}

/// The encoding of a private key in a PEM file.
#[derive(Clone, Copy, Debug, PartialEq, Eq, Structural)]
pub enum KeyFormat {
    /// An RSA key (PKCS#1).
    Pkcs1,
    /// An elliptic-curve key (SEC1).
    Sec1,
    /// A key of any algorithm (PKCS#8).
    Pkcs8,
}

/// A private key: its encoding and its DER bytes.
#[derive(Debug)]
pub struct PrivateKey {
    pub format: KeyFormat,
    pub der: Vec<u8>,
}

impl View for PrivateKey {
    type V = (KeyFormat, Seq<u8>);

    open spec fn view(&self) -> (KeyFormat, Seq<u8>) {
        (self.format, self.der@)
    }
}

/// The certificates that `rustls_pemfile::certs` reads from the PEM text
/// `pem`, each as its DER bytes and in the order of the text, or the text of
/// the first error it meets.
pub uninterp spec fn pem_certificates(pem: Seq<u8>) -> Result<Seq<Seq<u8>>, Seq<char>>;

/// The first private key that `rustls_pemfile::private_key` finds in the
/// PEM text `pem`, none when it holds none, or the text of the error it
/// meets.
pub uninterp spec fn pem_private_key(pem: Seq<u8>) -> Result<Option<(KeyFormat, Seq<u8>)>, Seq<char>>;

pub open spec fn certificates_view(r: Result<Vec<Vec<u8>>, String>) -> Result<Seq<Seq<u8>>, Seq<char>> {
    match r {
        Ok(v) => Ok(v.deep_view()),
        Err(e) => Err(e@),
    }
}

pub open spec fn private_key_view(r: Result<Option<PrivateKey>, String>) -> Result<Option<(KeyFormat, Seq<u8>)>, Seq<char>> {
    match r {
        Ok(Some(k)) => Ok(Some(k@)),
        Ok(None) => Ok(None),
        Err(e) => Err(e@),
    }
}

/// `rustls_pemfile::certs` over the bytes of a PEM file, collected: the DER
/// bytes of each certificate, or the text of the first error. The result is
/// the one named by [`pem_certificates`].
#[verifier::external_body]
fn read_pem_certificates(pem: &[u8]) -> (r: Result<Vec<Vec<u8>>, String>)
    ensures
        certificates_view(r) == pem_certificates(pem@),
{
    let mut reader = pem;
    match rustls_pemfile::certs(&mut reader).collect::<Result<Vec<_>, _>>() {
        Ok(certs) => Ok(certs.iter().map(|c| c.to_vec()).collect()),
        Err(e) => Err(e.to_string()),
    }
}

/// `rustls_pemfile::private_key` over the bytes of a PEM file: the first
/// key, with its encoding and DER bytes, or the text of the error. The
/// result is the one named by [`pem_private_key`]; the crate yields only the
/// three encodings of [`KeyFormat`].
#[verifier::external_body]
fn read_pem_private_key(pem: &[u8]) -> (r: Result<Option<PrivateKey>, String>)
    ensures
        private_key_view(r) == pem_private_key(pem@),
{
    let mut reader = pem;
    let (format, der) = match rustls_pemfile::private_key(&mut reader) {
        Ok(Some(PrivateKeyDer::Pkcs1(k))) => (KeyFormat::Pkcs1, k.secret_pkcs1_der().to_vec()),
        Ok(Some(PrivateKeyDer::Sec1(k))) => (KeyFormat::Sec1, k.secret_sec1_der().to_vec()),
        Ok(Some(PrivateKeyDer::Pkcs8(k))) => (KeyFormat::Pkcs8, k.secret_pkcs8_der().to_vec()),
        Ok(_) => return Ok(None),
        Err(e) => return Err(e.to_string()),
    };
    Ok(Some(PrivateKey { format, der }))
}

/// A version of the TLS protocol.
#[derive(Clone, Copy, Debug, PartialEq, Eq, Structural)]
pub enum TlsVersion {
    /// TLS 1.2.
    Tls12,
    /// TLS 1.3.
    Tls13,
}

/// The ALPN protocols that a rustls server configuration offers
/// (`ServerConfig::alpn_protocols`).
pub uninterp spec fn server_alpn_protocols(config: ServerConfig) -> Seq<Seq<u8>>;

/// The most early data that a rustls server configuration accepts
/// (`ServerConfig::max_early_data_size`).
pub uninterp spec fn server_max_early_data_size(config: ServerConfig) -> u32;

/// The protocol versions that a rustls server configuration enables, as
/// they were handed to `ConfigBuilder::with_protocol_versions`.
pub uninterp spec fn server_protocol_versions(config: ServerConfig) -> Set<TlsVersion>;

/// The certificate chain that a rustls server configuration presents, each
/// certificate as its DER bytes, as it was handed to
/// `ConfigBuilder::with_single_cert`.
pub uninterp spec fn server_certificate_chain(config: ServerConfig) -> Seq<Seq<u8>>;

/// The private key that a rustls server configuration signs with, as the
/// encoding and DER bytes that it was loaded from in
/// `ConfigBuilder::with_single_cert`.
pub uninterp spec fn server_private_key(config: ServerConfig) -> (KeyFormat, Seq<u8>);

/// Whether a rustls server configuration asks clients for a certificate
/// (`ClientCertVerifier::offer_client_auth` of its verifier).
pub uninterp spec fn server_asks_client_auth(config: ServerConfig) -> bool;

/// Whether the crypto provider of a rustls server configuration offers the
/// cipher suite of QUIC's initial packets (TLS13_AES_128_GCM_SHA256), as
/// `QuicServerConfig::try_from` asks.
pub uninterp spec fn server_suits_quic(config: ServerConfig) -> bool;

/// Whether the crypto provider of a rustls client configuration offers the
/// cipher suite of QUIC's initial packets (TLS13_AES_128_GCM_SHA256), as
/// `QuicClientConfig::try_from` asks.
pub uninterp spec fn client_suits_quic(config: ClientConfig) -> bool;

/// The ALPN protocols that a rustls client configuration asks for
/// (`ClientConfig::alpn_protocols`).
pub uninterp spec fn client_alpn_protocols(config: ClientConfig) -> Seq<Seq<u8>>;

/// The protocol versions that a rustls client configuration enables, as
/// they were handed to `ConfigBuilder::with_protocol_versions`.
pub uninterp spec fn client_protocol_versions(config: ClientConfig) -> Set<TlsVersion>;

/// Whether a rustls server configuration uses the ring crypto provider
/// (`rustls::crypto::ring::default_provider`).
pub uninterp spec fn server_uses_ring(config: ServerConfig) -> bool;

/// Whether a rustls client configuration uses the ring crypto provider
/// (`rustls::crypto::ring::default_provider`).
pub uninterp spec fn client_uses_ring(config: ClientConfig) -> bool;

/// Whether the root store of a rustls client configuration holds exactly
/// the trust anchors of `webpki_roots::TLS_SERVER_ROOTS`, the Mozilla root
/// certificates.
pub uninterp spec fn client_trusts_webpki_roots(config: ClientConfig) -> bool;

/// Whether a rustls client configuration presents a certificate of its own
/// when a server asks for one (`ResolvesClientCert::has_certs` of its
/// resolver).
pub uninterp spec fn client_offers_certificate(config: ClientConfig) -> bool;

/// Two rustls server configurations that differ at most in their ALPN
/// protocols and early data: same versions, identity, client
/// authentication and provider.
pub open spec fn same_server_setup(a: ServerConfig, b: ServerConfig) -> bool {
    &&& server_protocol_versions(a) == server_protocol_versions(b)
    &&& server_certificate_chain(a) == server_certificate_chain(b)
    &&& server_private_key(a) == server_private_key(b)
    &&& server_asks_client_auth(a) == server_asks_client_auth(b)
    &&& server_suits_quic(a) == server_suits_quic(b)
    &&& server_uses_ring(a) == server_uses_ring(b)
}

/// Whether the root store of a rustls client configuration holds one trust
/// anchor, made of the certificate with the DER bytes `cert`
/// (`RootCertStore::add`).
pub uninterp spec fn client_trusts_only(config: ClientConfig, cert: Seq<u8>) -> bool;

/// Two rustls client configurations that differ at most in their ALPN
/// protocols.
pub open spec fn same_client_setup(a: ClientConfig, b: ClientConfig) -> bool {
    &&& forall|cert: Seq<u8>| #[trigger] client_trusts_only(a, cert) == client_trusts_only(b, cert)
    &&& client_protocol_versions(a) == client_protocol_versions(b)
    &&& client_suits_quic(a) == client_suits_quic(b)
    &&& client_uses_ring(a) == client_uses_ring(b)
    &&& client_trusts_webpki_roots(a) == client_trusts_webpki_roots(b)
    &&& client_offers_certificate(a) == client_offers_certificate(b)
}

/// A rustls server configuration built with the ring crypto provider, for
/// the protocol versions `versions`, without client authentication and with
/// the single certificate chain `certs` and its key
/// (`ServerConfig::builder_with_provider`, `with_protocol_versions`,
/// `with_no_client_auth`, `with_single_cert`), or the text of the rustls
/// error. A configuration that is built enables exactly the versions given
/// and serves exactly that chain and key, as the builder stores them, asks
/// for no client certificate, and suits QUIC: the ring provider's
/// TLS13_AES_128_GCM_SHA256 carries QUIC keys. Whether it is built is left
/// unsaid: loading an elliptic-curve key draws on the system's random
/// source.
#[verifier::external_body]
fn server_config_with_identity(certs: Vec<Vec<u8>>, key: PrivateKey, versions: Vec<TlsVersion>) -> (r: Result<ServerConfig, String>)
    ensures
        r matches Ok(c) ==> {
            &&& server_protocol_versions(c) == versions@.to_set()
            &&& server_certificate_chain(c) == certs.deep_view()
            &&& server_private_key(c) == key@
            &&& !server_asks_client_auth(c)
            &&& server_suits_quic(c)
            &&& server_uses_ring(c)
        },
{
    let chain = certs.into_iter().map(CertificateDer::from).collect();
    let key = match key.format {
        KeyFormat::Pkcs1 => PrivateKeyDer::Pkcs1(key.der.into()),
        KeyFormat::Sec1 => PrivateKeyDer::Sec1(key.der.into()),
        KeyFormat::Pkcs8 => PrivateKeyDer::Pkcs8(key.der.into()),
    };
    let versions: Vec<_> = versions.iter().map(|v| match v {
        TlsVersion::Tls12 => &rustls::version::TLS12,
        TlsVersion::Tls13 => &rustls::version::TLS13,
    }).collect();
    let builder = ServerConfig::builder_with_provider(Arc::new(rustls::crypto::ring::default_provider()))
        .with_protocol_versions(&versions);
    builder.map_err(|e| e.to_string())?.with_no_client_auth().with_single_cert(chain, key).map_err(|e| e.to_string())
}

/// Whether rustls, asked for a server configuration with the ring provider,
/// TLS 1.3 alone, no client authentication and the identity `chain` and
/// `key` (as [`server_config_with_identity`] asks for it), can refuse it
/// with the text `message`. Whether it refuses rests on rustls and on the
/// system's random source, so this relates the identity to the refusal that
/// a call gave, and is not a function of the identity.
pub closed spec fn rustls_refuses_identity(chain: Seq<Seq<u8>>, key: (KeyFormat, Seq<u8>), message: Seq<char>) -> bool {
    exists|certs: Vec<Vec<u8>>, k: PrivateKey, versions: Vec<TlsVersion>, e: String|
        #![trigger certs.deep_view(), k@, versions@, e@]
        certs.deep_view() == chain && k@ == key && versions@ == seq![TlsVersion::Tls13] && e@ == message
            && call_ensures(server_config_with_identity, (certs, k, versions), Err::<ServerConfig, String>(e))
}

/// A rustls client configuration built with the ring crypto provider, for
/// the protocol versions `versions`, trusting the Mozilla root
/// certificates of `webpki_roots::TLS_SERVER_ROOTS` and presenting no
/// client certificate (`ClientConfig::builder_with_provider`,
/// `with_protocol_versions`, `with_root_certificates`,
/// `with_no_client_auth`), or the text of the rustls error. A configuration
/// that is built enables exactly the versions given and suits QUIC. With
/// TLS 1.3 alone it is always built: `with_protocol_versions` refuses only
/// versions without a cipher suite of the provider, or suites without a
/// key exchange group, and the ring provider has TLS 1.3 suites and groups
/// for every suite.
#[verifier::external_body]
fn client_config_with_webpki_roots(versions: Vec<TlsVersion>) -> (r: Result<ClientConfig, String>)
    ensures
        r matches Ok(c) ==> {
            &&& client_protocol_versions(c) == versions@.to_set()
            &&& client_suits_quic(c)
            &&& client_uses_ring(c)
            &&& client_trusts_webpki_roots(c)
            &&& !client_offers_certificate(c)
        },
        versions@.to_set() == set![TlsVersion::Tls13] ==> r is Ok,
{
    let mut roots = rustls::RootCertStore::empty();
    roots.extend(webpki_roots::TLS_SERVER_ROOTS.iter().cloned());
    let versions: Vec<_> = versions.iter().map(|v| match v {
        TlsVersion::Tls12 => &rustls::version::TLS12,
        TlsVersion::Tls13 => &rustls::version::TLS13,
    }).collect();
    let builder = ClientConfig::builder_with_provider(Arc::new(rustls::crypto::ring::default_provider()))
        .with_protocol_versions(&versions);
    Ok(builder.map_err(|e| e.to_string())?.with_root_certificates(roots).with_no_client_auth())
}

/// A rustls client configuration built with the ring crypto provider, for
/// the protocol versions `versions`, trusting the certificate with the DER
/// bytes `cert` alone and presenting no client certificate
/// (`RootCertStore::add`, `ClientConfig::builder_with_provider`,
/// `with_protocol_versions`, `with_root_certificates`,
/// `with_no_client_auth`), or the text of the rustls error (a certificate
/// that cannot be read as a trust anchor, or versions that the provider
/// cannot serve). A configuration that is built enables exactly the
/// versions given and suits QUIC.
#[verifier::external_body]
fn client_config_trusting(cert: Vec<u8>, versions: Vec<TlsVersion>) -> (r: Result<ClientConfig, String>)
    ensures
        r matches Ok(c) ==> {
            &&& client_protocol_versions(c) == versions@.to_set()
            &&& client_suits_quic(c)
            &&& client_uses_ring(c)
            &&& client_trusts_only(c, cert@)
            &&& !client_offers_certificate(c)
        },
{
    let mut roots = rustls::RootCertStore::empty();
    roots.add(CertificateDer::from(cert)).map_err(|e| e.to_string())?;
    let versions: Vec<_> = versions.iter().map(|v| match v {
        TlsVersion::Tls12 => &rustls::version::TLS12,
        TlsVersion::Tls13 => &rustls::version::TLS13,
    }).collect();
    let builder = ClientConfig::builder_with_provider(Arc::new(rustls::crypto::ring::default_provider()))
        .with_protocol_versions(&versions);
    Ok(builder.map_err(|e| e.to_string())?.with_root_certificates(roots).with_no_client_auth())
}

/// Whether rustls, asked for a client configuration with the ring provider
/// and TLS 1.3 alone that trusts the certificate with the DER bytes `cert`
/// alone (as [`client_config_trusting`] asks for it), can refuse it with
/// the text `message`.
pub closed spec fn rustls_refuses_trust(cert: Seq<u8>, message: Seq<char>) -> bool {
    exists|c: Vec<u8>, versions: Vec<TlsVersion>, e: String|
        #![trigger c@, versions@, e@]
        c@ == cert && versions@ == seq![TlsVersion::Tls13] && e@ == message && call_ensures(
            client_config_trusting,
            (c, versions),
            Err::<ClientConfig, String>(e),
        )
}

/// Sets the ALPN protocols that a client asks for, in order of preference
/// (`ClientConfig::alpn_protocols`); the rest of the configuration stays.
#[verifier::external_body]
fn set_client_alpn(config: &mut ClientConfig, protocols: Vec<Vec<u8>>)
    ensures
        client_alpn_protocols(*final(config)) == protocols.deep_view(),
        same_client_setup(*old(config), *final(config)),
{
    config.alpn_protocols = protocols;
}

/// Sets the ALPN protocols that a server offers, in order of preference
/// (`ServerConfig::alpn_protocols`); the rest of the configuration stays.
#[verifier::external_body]
fn set_server_alpn(config: &mut ServerConfig, protocols: Vec<Vec<u8>>)
    ensures
        server_alpn_protocols(*final(config)) == protocols.deep_view(),
        server_max_early_data_size(*final(config)) == server_max_early_data_size(*old(config)),
        same_server_setup(*old(config), *final(config)),
{
    config.alpn_protocols = protocols;
}

/// Sets the most early data that a server accepts
/// (`ServerConfig::max_early_data_size`); the rest of the configuration
/// stays.
#[verifier::external_body]
fn set_max_early_data_size(config: &mut ServerConfig, size: u32)
    ensures
        server_max_early_data_size(*final(config)) == size,
        server_alpn_protocols(*final(config)) == server_alpn_protocols(*old(config)),
        same_server_setup(*old(config), *final(config)),
{
    config.max_early_data_size = size;
}

/// Whether the certificate with the DER bytes `cert` names `name` in its
/// subject-alternative-name extension: an IP-address entry holding that
/// address when `name` reads as one, a DNS-name entry with that text
/// otherwise.
pub uninterp spec fn certificate_names(cert: Seq<u8>, name: Seq<char>) -> bool;

/// The number of entries in the subject-alternative-name extension of the
/// certificate with the DER bytes `cert` (none when it has no such
/// extension).
pub uninterp spec fn certificate_name_count(cert: Seq<u8>) -> nat;

/// A certificate that names exactly the hosts `hostnames`, one entry each,
/// in its subject-alternative-name extension.
pub open spec fn names_exactly(cert: Seq<u8>, hostnames: Seq<String>) -> bool {
    &&& certificate_name_count(cert) == hostnames.len()
    &&& forall|i: int| 0 <= i < hostnames.len() ==> #[trigger] certificate_names(cert, hostnames[i]@)
}

/// `rcgen::generate_simple_self_signed` for `hostnames`: the DER bytes of a
/// self-signed certificate and the PKCS#8 DER bytes of its fresh key, or
/// the text of the rcgen error. The certificate's subject-alternative-name
/// extension holds one entry for each host, in order (an IP-address entry
/// for a host that reads as an address, a DNS-name entry otherwise:
/// `CertificateParams::new`, `write_subject_alt_names`). The key is drawn
/// at random, and whether generation succeeds rests on the system's random
/// source too, so nothing more is stated of the outcome.
#[verifier::external_body]
fn self_signed_identity(hostnames: Vec<String>) -> (r: Result<(Vec<u8>, Vec<u8>), String>)
    ensures
        r matches Ok((cert, key)) ==> certificate_name_count(cert@) == hostnames@.len() && forall|i: int|
            0 <= i < hostnames@.len() ==> #[trigger] certificate_names(cert@, hostnames@[i]@),
{
    match rcgen::generate_simple_self_signed(hostnames) {
        Ok(c) => Ok((c.cert.der().to_vec(), c.key_pair.serialize_der())),
        Err(e) => Err(e.to_string()),
    }
}

/// Whether generating a self-signed identity for `hostnames`
/// ([`self_signed_identity`]) can give the certificate `cert` and the key
/// `key`. The key is drawn at random, so this relates the hosts to what a
/// call gave, and is not a function of the hosts.
pub closed spec fn generates_identity(hostnames: Seq<String>, cert: Seq<u8>, key: Seq<u8>) -> bool {
    exists|h: Vec<String>, c: Vec<u8>, k: Vec<u8>|
        #![trigger h@, c@, k@]
        h@ == hostnames && c@ == cert && k@ == key && call_ensures(
            self_signed_identity,
            (h,),
            Ok::<(Vec<u8>, Vec<u8>), String>((c, k)),
        )
}

/// Whether generating a self-signed identity for `hostnames` can fail with
/// the text `message`.
pub closed spec fn generation_fails(hostnames: Seq<String>, message: Seq<char>) -> bool {
    exists|h: Vec<String>, e: String|
        #![trigger h@, e@]
        h@ == hostnames && e@ == message && call_ensures(self_signed_identity, (h,), Err::<(Vec<u8>, Vec<u8>), String>(e))
}

/// `[b"h3"]`: HTTP/3 as the one ALPN protocol (`h` is byte 104, `3` is
/// byte 51).
pub fn h3_alpn() -> (r: Vec<Vec<u8>>)
    ensures
        r.deep_view() == seq![seq![104u8, 51u8]],
{
    let h3 = vec![104u8, 51u8];
    let r = vec![h3];
    assert(r.deep_view()[0] =~= seq![104u8, 51u8]);
    assert(r.deep_view() =~= seq![seq![104u8, 51u8]]);
    r
}

/// The certificate chain of a server identity, read from the bytes of a
/// PEM file: a PEM text that cannot be parsed, or that holds no
/// certificate, is refused.
pub fn pem_server_certs(cert_pem: &[u8]) -> (r: Result<Vec<Vec<u8>>, TransportError>)
    ensures
        match pem_certificates(cert_pem@) {
            Err(e) => r matches Err(TransportError::Tls(m)) && m@ == "cannot parse certs: "@ + e,
            Ok(certs) => if certs.len() == 0 {
                r matches Err(TransportError::Tls(m)) && m@ == "no certificates found in PEM file"@
            } else {
                r matches Ok(c) && c.deep_view() == certs
            },
        },
{
    match read_pem_certificates(cert_pem) {
        Err(e) => Err(TransportError::Tls(joined("cannot parse certs: ", e.as_str()))),
        Ok(certs) => {
            if certs.len() == 0 {
                Err(TransportError::Tls(text("no certificates found in PEM file")))
            } else {
                Ok(certs)
            }
        },
    }
}

/// The private key of a server identity, read from the bytes of a PEM
/// file: a PEM text that cannot be parsed, or that holds no key, is
/// refused.
pub fn pem_server_key(key_pem: &[u8]) -> (r: Result<PrivateKey, TransportError>)
    ensures
        match pem_private_key(key_pem@) {
            Err(e) => r matches Err(TransportError::Tls(m)) && m@ == "cannot parse private key: "@ + e,
            Ok(None) => r matches Err(TransportError::Tls(m)) && m@ == "no private key found in PEM file"@,
            Ok(Some(k)) => r matches Ok(key) && key@ == k,
        },
{
    match read_pem_private_key(key_pem) {
        Err(e) => Err(TransportError::Tls(joined("cannot parse private key: ", e.as_str()))),
        Ok(None) => Err(TransportError::Tls(text("no private key found in PEM file"))),
        Ok(Some(k)) => Ok(k),
    }
}

/// A server configuration `c` set up for HTTP/3: it offers `h3` alone over
/// ALPN and accepts early data of any size.
pub open spec fn is_h3_server_config(c: ServerConfig) -> bool {
    &&& server_alpn_protocols(c) == seq![seq![104u8, 51u8]]
    &&& server_max_early_data_size(c) == u32::MAX
}

/// A TLS configuration for an HTTP/3 server over TLS 1.3 alone: its server
/// configuration is set up for HTTP/3, enables TLS 1.3 and no other
/// version, suits QUIC and uses the ring provider.
pub open spec fn is_h3_tls13_server(t: TlsConfig) -> bool {
    t.side() matches TlsSide::Server(c) && is_h3_server_config(c) && server_protocol_versions(c)
        == set![TlsVersion::Tls13] && server_suits_quic(c) && server_uses_ring(c)
}

/// A TLS configuration for a server that presents the certificate chain
/// `chain`, signs with `key` and asks clients for no certificate.
pub open spec fn serves_identity(t: TlsConfig, chain: Seq<Seq<u8>>, key: (KeyFormat, Seq<u8>)) -> bool {
    t.side() matches TlsSide::Server(c) && server_certificate_chain(c) == chain && server_private_key(c)
        == key && !server_asks_client_auth(c)
}

/// `[b"grpc-quic"]`: the ALPN protocol of the benchmarks' own connections.
pub fn bench_alpn() -> (r: Vec<Vec<u8>>)
    ensures
        r.deep_view() == seq![seq![103u8, 114u8, 112u8, 99u8, 45u8, 113u8, 117u8, 105u8, 99u8]],
{
    let protocol = vec![103u8, 114u8, 112u8, 99u8, 45u8, 113u8, 117u8, 105u8, 99u8];
    let r = vec![protocol];
    assert(r.deep_view()[0] =~= seq![103u8, 114u8, 112u8, 99u8, 45u8, 113u8, 117u8, 105u8, 99u8]);
    assert(r.deep_view() =~= seq![seq![103u8, 114u8, 112u8, 99u8, 45u8, 113u8, 117u8, 105u8, 99u8]]);
    r
}

/// The TLS configurations of a benchmark's local server and of its client,
/// made of a generated identity (the DER bytes of a certificate and of its
/// PKCS#8 key) or the error of generating it: the server presents that
/// certificate, the client trusts it alone, both enable TLS 1.3 alone and
/// speak `grpc-quic` over ALPN. Whether rustls accepts the identity is its
/// own decision; a refusal, like a generation error, is a TLS error with
/// the same text.
pub fn bench_tls_pair(generated: Result<(Vec<u8>, Vec<u8>), String>) -> (r: Result<(TlsConfig, TlsConfig), TransportError>)
    ensures
        match generated {
            Err(m) => r matches Err(TransportError::Tls(e)) && e@ == m@,
            Ok((cert, key)) => match r {
                Ok((server, client)) => {
                    &&& serves_identity(server, seq![cert@], (KeyFormat::Pkcs8, key@))
                    &&& (server.side() matches TlsSide::Server(c) && server_alpn_protocols(c)
                        == bench_alpn_protocols() && server_protocol_versions(c) == set![TlsVersion::Tls13])
                    &&& (client.side() matches TlsSide::Client(c) && client_trusts_only(c, cert@)
                        && client_alpn_protocols(c) == bench_alpn_protocols()
                        && client_protocol_versions(c) == set![TlsVersion::Tls13]
                        && !client_offers_certificate(c))
                },
                Err(e) => e is Tls,
            },
        },
        generated matches Ok((cert, key)) ==> (r matches Err(e) ==> (e matches TransportError::Tls(m) && (
        rustls_refuses_identity(seq![cert@], (KeyFormat::Pkcs8, key@), m@) || rustls_refuses_trust(cert@, m@)))),
{
    match generated {
        Err(m) => Err(TransportError::Tls(m)),
        Ok((cert, key)) => {
            let ghost cert_bytes = cert@;
            let mut certs = Vec::new();
            certs.push(cert.clone());
            assert(certs.deep_view()[0] =~= cert_bytes);
            assert(certs.deep_view() =~= seq![cert_bytes]);
            let ghost key_bytes = key@;
            let identity = PrivateKey { format: KeyFormat::Pkcs8, der: key };
            let versions = tls13_only();
            let ghost asked = (certs, identity, versions);
            let build = server_config_with_identity;
            let built = build(certs, identity, versions);
            let mut server = match built {
                Ok(c) => c,
                Err(e) => {
                    assert(asked.0.deep_view() == seq![cert_bytes] && asked.1@ == (KeyFormat::Pkcs8, key_bytes));
                    assert(rustls_refuses_identity(seq![cert_bytes], (KeyFormat::Pkcs8, key_bytes), e@));
                    return Err(TransportError::Tls(e));
                },
            };
            set_server_alpn(&mut server, bench_alpn());
            let client_versions = tls13_only();
            let ghost trusted = (cert, client_versions);
            let trust = client_config_trusting;
            let mut client = match trust(cert, client_versions) {
                Ok(c) => c,
                Err(e) => {
                    assert(trusted.0@ == cert_bytes && trusted.1@ == seq![TlsVersion::Tls13]);
                    assert(rustls_refuses_trust(cert_bytes, e@));
                    return Err(TransportError::Tls(e));
                },
            };
            set_client_alpn(&mut client, bench_alpn());
            Ok((TlsConfig::server(server), TlsConfig::client(client)))
        },
    }
}

/// The TLS configurations of a benchmark's local server and of its client,
/// over a certificate generated for `localhost` and `127.0.0.1`: see
/// [`bench_tls_pair`].
pub fn bench_tls_configs() -> (r: Result<(TlsConfig, TlsConfig), TransportError>)
    ensures
        r matches Err(e) ==> e is Tls,
        r matches Ok((server, client)) ==> exists|cert: Seq<u8>, key: Seq<u8>|
            #[trigger] serves_identity(server, seq![cert], (KeyFormat::Pkcs8, key)) && (client.side() matches TlsSide::Client(c)
                && client_trusts_only(c, cert)),
        exists|hosts: Seq<String>| #[trigger] bench_hosts(hosts) && bench_tls_outcome(hosts, r),
{
    let hosts = vec![text("localhost"), text("127.0.0.1")];
    let ghost names = hosts@;
    let generate = self_signed_identity;
    let generated = generate(hosts);
    let ghost made = generated;
    let r = bench_tls_pair(generated);
    let ghost result = r;
    proof {
        assert(bench_hosts(names));
        match made {
            Ok((cert, key)) => {
                assert(generates_identity(names, cert@, key@));
                if let Ok((server, client)) = result {
                    assert(serves_identity(server, seq![cert@], (KeyFormat::Pkcs8, key@)));
                }
            },
            Err(e) => {
                assert(generation_fails(names, e@));
            },
        }
        assert(bench_tls_outcome(names, result));
    }
    r
}

/// The hosts that a benchmark's certificate is generated for: `localhost`
/// and `127.0.0.1`, in this order.
pub open spec fn bench_hosts(hosts: Seq<String>) -> bool {
    hosts.len() == 2 && hosts[0]@ == "localhost"@ && hosts[1]@ == "127.0.0.1"@
}

/// The benchmark's TLS configurations made of an identity generated for
/// `hosts`: the server presents the generated certificate and key; an
/// error is a failure of the generation or a refusal by rustls of that
/// identity or of trusting that certificate, with its text.
pub open spec fn bench_tls_outcome(hosts: Seq<String>, r: Result<(TlsConfig, TlsConfig), TransportError>) -> bool {
    match r {
        Ok((server, client)) => exists|cert: Seq<u8>, key: Seq<u8>|
            #[trigger] generates_identity(hosts, cert, key) && serves_identity(
                server,
                seq![cert],
                (KeyFormat::Pkcs8, key),
            ),
        Err(e) => e matches TransportError::Tls(m) && (generation_fails(hosts, m@) || exists|cert: Seq<u8>, key: Seq<u8>|
            #[trigger] generates_identity(hosts, cert, key) && (rustls_refuses_identity(
                seq![cert],
                (KeyFormat::Pkcs8, key),
                m@,
            ) || rustls_refuses_trust(cert, m@))),
    }
}

/// The ALPN protocols of the benchmarks' own connections, as a value.
pub open spec fn bench_alpn_protocols() -> Seq<Seq<u8>> {
    seq![seq![103u8, 114u8, 112u8, 99u8, 45u8, 113u8, 117u8, 105u8, 99u8]]
}

/// `[TLS 1.3]`: the one protocol version that servers and clients enable.
fn tls13_only() -> (r: Vec<TlsVersion>)
    ensures
        r@ == seq![TlsVersion::Tls13],
        r@.to_set() == set![TlsVersion::Tls13],
{
    let r = vec![TlsVersion::Tls13];
    proof {
        assert(r@ =~= seq![TlsVersion::Tls13]);
        assert(r@.to_set() =~= set![TlsVersion::Tls13]) by {
            assert forall|v: TlsVersion| r@.to_set().contains(v) <==> set![TlsVersion::Tls13].contains(v) by {
                if v == TlsVersion::Tls13 {
                    assert(r@[0] == v);
                }
            }
        }
    }
    r
}

impl TlsConfig {
    /// Create a default client TLS configuration.
    ///
    /// Loads the standard Mozilla root CA certificates via `webpki-roots`,
    /// enables TLS 1.3 alone and sets ALPN to `b"h3"`.
    pub fn client_default() -> (r: Self)
        ensures
            r.side() matches TlsSide::Client(c) && client_protocol_versions(c) == set![
                TlsVersion::Tls13,
            ] && client_alpn_protocols(c) == seq![seq![104u8, 51u8]] && client_suits_quic(c)
                && client_uses_ring(c) && client_trusts_webpki_roots(c) && !client_offers_certificate(c),
    {
        let built = client_config_with_webpki_roots(tls13_only());
        let mut config = built.unwrap();
        set_client_alpn(&mut config, h3_alpn());
        TlsConfig::client(config)
    }

    /// The server configuration for HTTP/3 made of a rustls configuration
    /// that was built, or the error of building it: the configuration
    /// offers `h3` alone over ALPN and accepts early data of any size; a
    /// build error is a TLS error with the same text.
    pub fn server_h3(built: Result<ServerConfig, String>) -> (r: Result<Self, TransportError>)
        ensures
            match built {
                Ok(c) => r matches Ok(t) && t.side() matches TlsSide::Server(c2) && is_h3_server_config(
                    c2,
                ) && same_server_setup(c, c2),
                Err(e) => r matches Err(TransportError::Tls(m)) && m@ == e@,
            },
    {
        match built {
            Ok(config) => {
                let mut config = config;
                set_server_alpn(&mut config, h3_alpn());
                set_max_early_data_size(&mut config, u32::MAX);
                Ok(TlsConfig::server(config))
            },
            Err(e) => Err(TransportError::Tls(e)),
        }
    }

    /// A server configuration for HTTP/3 with the identity `certs` and
    /// `key`: TLS 1.3 alone with the ring provider, no client
    /// authentication, ALPN `h3` and early data of any size. Whether rustls
    /// accepts the identity is its own decision; a refusal is a TLS error.
    pub fn server_with_identity(certs: Vec<Vec<u8>>, key: PrivateKey) -> (r: Result<Self, TransportError>)
        ensures
            match r {
                Ok(t) => is_h3_tls13_server(t) && serves_identity(t, certs.deep_view(), key@),
                Err(e) => e is Tls,
            },
            r matches Err(e) ==> e matches TransportError::Tls(m) && rustls_refuses_identity(
                certs.deep_view(),
                key@,
                m@,
            ),
    {
        let ghost chain = certs.deep_view();
        let ghost identity = key@;
        let versions = tls13_only();
        let ghost asked = (certs, key, versions);
        let build = server_config_with_identity;
        let built = build(certs, key, versions);
        let ghost outcome = built;
        proof {
            if let Err(e) = outcome {
                assert(asked.0.deep_view() == chain && asked.1@ == identity && asked.2@ == seq![TlsVersion::Tls13]);
                assert(rustls_refuses_identity(chain, identity, e@));
            }
        }
        TlsConfig::server_h3(built)
    }

    /// Load server TLS from the bytes of a PEM-encoded certificate chain
    /// (the server certificate, optionally followed by intermediate CA
    /// certificates) and of a PEM-encoded private key (PKCS#8, RSA, or
    /// ECDSA).
    ///
    /// ALPN is automatically set to `b"h3"`.
    pub fn server_from_pem(cert_pem: &[u8], key_pem: &[u8]) -> (r: Result<Self, TransportError>)
        ensures
            match pem_certificates(cert_pem@) {
                Err(e) => r matches Err(TransportError::Tls(m)) && m@ == "cannot parse certs: "@ + e,
                Ok(certs) => if certs.len() == 0 {
                    r matches Err(TransportError::Tls(m)) && m@ == "no certificates found in PEM file"@
                } else {
                    match pem_private_key(key_pem@) {
                        Err(e) => r matches Err(TransportError::Tls(m)) && m@
                            == "cannot parse private key: "@ + e,
                        Ok(None) => r matches Err(TransportError::Tls(m)) && m@
                            == "no private key found in PEM file"@,
                        Ok(Some(k)) => match r {
                            Ok(t) => is_h3_tls13_server(t) && serves_identity(t, certs, k),
                            Err(e) => e matches TransportError::Tls(m) && rustls_refuses_identity(
                                certs,
                                k,
                                m@,
                            ),
                        },
                    }
                },
            },
    {
        let certs = match pem_server_certs(cert_pem) {
            Ok(c) => c,
            Err(e) => return Err(e),
        };
        let key = match pem_server_key(key_pem) {
            Ok(k) => k,
            Err(e) => return Err(e),
        };
        TlsConfig::server_with_identity(certs, key)
    }

    /// Generate a self-signed certificate and create a server TLS config.
    ///
    /// `hostnames` — DNS names / IPs to include in the certificate SAN
    /// (e.g. `vec!["localhost", "127.0.0.1"]`).
    ///
    /// This is intended for development and testing only — not for production.
    pub fn server_self_signed(hostnames: Vec<String>) -> (r: Result<Self, TransportError>)
        ensures
            match r {
                Ok(t) => is_h3_tls13_server(t) && exists|cert: Seq<u8>, key: Seq<u8>|
                    #[trigger] serves_identity(t, seq![cert], (KeyFormat::Pkcs8, key))
                        && names_exactly(cert, hostnames@),
                Err(e) => e is Tls,
            },
            r matches Ok(t) ==> exists|cert: Seq<u8>, key: Seq<u8>|
                #[trigger] serves_identity(t, seq![cert], (KeyFormat::Pkcs8, key)) && generates_identity(
                    hostnames@,
                    cert,
                    key,
                ),
            r matches Err(e) ==> e matches TransportError::Tls(m) && (generation_fails(hostnames@, m@)
                || exists|cert: Seq<u8>, key: Seq<u8>|
                #[trigger] generates_identity(hostnames@, cert, key) && rustls_refuses_identity(
                    seq![cert],
                    (KeyFormat::Pkcs8, key),
                    m@,
                )),
    {
        let ghost names = hostnames@;
        let ghost asked = hostnames;
        let generate = self_signed_identity;
        let generated = generate(hostnames);
        let ghost made = generated;
        let r = TlsConfig::server_from_generated(generated);
        let ghost result = r;
        proof {
            match made {
                Ok((cert, key)) => {
                    assert(generates_identity(names, cert@, key@));
                    if let Ok(t) = result {
                        assert(serves_identity(t, seq![cert@], (KeyFormat::Pkcs8, key@)));
                        assert(names_exactly(cert@, names));
                    }
                },
                Err(e) => {
                    assert(generation_fails(names, e@));
                },
            }
        }
        r
    }

    /// The server configuration for HTTP/3 of a generated identity, given
    /// as the DER bytes of its certificate and of its PKCS#8 key, or the
    /// error of generating it, which becomes a TLS error with the same text.
    pub fn server_from_generated(generated: Result<(Vec<u8>, Vec<u8>), String>) -> (r: Result<Self, TransportError>)
        ensures
            match generated {
                Ok((cert, key)) => match r {
                    Ok(t) => is_h3_tls13_server(t) && serves_identity(
                        t,
                        seq![cert@],
                        (KeyFormat::Pkcs8, key@),
                    ),
                    Err(e) => e matches TransportError::Tls(m) && rustls_refuses_identity(
                        seq![cert@],
                        (KeyFormat::Pkcs8, key@),
                        m@,
                    ),
                },
                Err(m) => r matches Err(TransportError::Tls(e)) && e@ == m@,
            },
    {
        match generated {
            Ok((cert, key)) => {
                let ghost cert_bytes = cert@;
                let mut certs = Vec::new();
                certs.push(cert);
                assert(certs.deep_view()[0] =~= cert_bytes);
                assert(certs.deep_view() =~= seq![cert_bytes]);
                TlsConfig::server_with_identity(certs, PrivateKey { format: KeyFormat::Pkcs8, der: key })
            },
            Err(e) => Err(TransportError::Tls(e)),
        }
    }
}

} // verus!

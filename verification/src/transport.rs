//! QUIC connection handles, and the quinn configurations that endpoints
//! are bound with.
use std::sync::Arc;
use rustls::{ClientConfig, ServerConfig};
use vstd::prelude::*;

use crate::error::TransportError;
use crate::tls::{client_suits_quic, server_suits_quic, TlsConfig, TlsSide};

verus! {

/// A handle to an established QUIC connection.
///
/// Connections are cheap to clone: the underlying connection is
/// reference-counted.
#[derive(Clone, Debug)]
pub struct QuicConnection {
    inner: quinn::Connection,
}

impl QuicConnection {
    /// The quinn connection that this handle holds.
    pub closed spec fn connection(&self) -> quinn::Connection {
        self.inner
    }

    /// Wrap an established [`quinn::Connection`].
    pub fn new(inner: quinn::Connection) -> (r: Self)
        ensures
            r.connection() == inner,
    {
        QuicConnection { inner }
    }

    /// Returns `true` if the connection has been closed (locally or
    /// remotely).
    ///
    /// `quinn::Connection::close_reason`, tested for a reason. Nothing is
    /// stated of the answer: it changes as the connection lives.
    #[verifier::external_body]
    pub fn is_closed(&self) -> bool {
        self.inner.close_reason().is_some()
    }

    /// A stable connection identifier (useful for logging / metrics):
    /// `quinn::Connection::stable_id`. Nothing is stated of it.
    #[verifier::external_body]
    pub fn stable_id(&self) -> usize {
        self.inner.stable_id()
    }

    /// Close the connection with an application-level error code:
    /// `quinn::Connection::close`.
    #[verifier::external_body]
    pub fn close(&self, error_code: u32, reason: &[u8]) {
        self.inner.close(quinn::VarInt::from_u32(error_code), reason)
    }

    /// Access the underlying [`quinn::Connection`].
    pub fn get_ref(&self) -> (r: &quinn::Connection)
        ensures
            *r == self.connection(),
    {
        &self.inner
    }
}

/// Whether `closed` is an answer that asking `connection` whether it has
/// closed (`QuicConnection::is_closed`) can give. The answer changes as
/// the connection lives, so it is a relation between the connection and
/// the answer that a call gave, not a function of the connection.
pub open spec fn reports_closed(connection: QuicConnection, closed: bool) -> bool {
    call_ensures(QuicConnection::is_closed, (&connection,), closed)
}

/// What accepting a stream on a connection yields, given what quinn's
/// `accept_bi` gave: the stream, or nothing once the connection is closed.
/// quinn reports every way a connection ends (closed here or by the peer,
/// reset, timed out) as a connection error, so each error means the
/// connection is closed.
pub fn accepted_stream<P>(r: Result<P, quinn::ConnectionError>) -> (out: Option<Result<P, TransportError>>)
    ensures
        match r {
            Ok(p) => out == Some(Ok::<P, TransportError>(p)),
            Err(_) => out is None,
        },
{
    match r {
        Ok(p) => Some(Ok(p)),
        Err(_) => None,
    }
}

/// quinn's server configuration over a rustls one
/// (`QuicServerConfig::try_from`, then `quinn::ServerConfig::with_crypto`):
/// it is made exactly when the configuration suits QUIC, and otherwise the
/// error's text is "no initial cipher suite found".
#[verifier::external_body]
fn quinn_server_config(config: Arc<ServerConfig>) -> (r: Result<quinn::ServerConfig, String>)
    ensures
        r is Ok <==> server_suits_quic(*config),
        r matches Err(e) ==> e@ == "no initial cipher suite found"@,
{
    match quinn::crypto::rustls::QuicServerConfig::try_from(config) {
        Ok(c) => Ok(quinn::ServerConfig::with_crypto(Arc::new(c))),
        Err(e) => Err(e.to_string()),
    }
}

/// quinn's client configuration over a rustls one
/// (`QuicClientConfig::try_from`, then `quinn::ClientConfig::new`): it is
/// made exactly when the configuration suits QUIC, and otherwise the error's
/// text is "no initial cipher suite found".
#[verifier::external_body]
fn quinn_client_config(config: Arc<ClientConfig>) -> (r: Result<quinn::ClientConfig, String>)
    ensures
        r is Ok <==> client_suits_quic(*config),
        r matches Err(e) ==> e@ == "no initial cipher suite found"@,
{
    match quinn::crypto::rustls::QuicClientConfig::try_from(config) {
        Ok(c) => Ok(quinn::ClientConfig::new(Arc::new(c))),
        Err(e) => Err(e.to_string()),
    }
}

/// The outcome of making a quinn configuration: a configuration that did
/// not suit QUIC is a TLS error with the same text.
pub fn quic_config<C>(made: Result<C, String>) -> (r: Result<C, TransportError>)
    ensures
        match made {
            Ok(c) => r == Ok::<C, TransportError>(c),
            Err(m) => r matches Err(TransportError::Tls(e)) && e@ == m@,
        },
{
    match made {
        Ok(c) => Ok(c),
        Err(m) => Err(TransportError::Tls(m)),
    }
}

/// The quinn configuration that a server endpoint is bound with: `tls` must
/// be a server configuration, and one that suits QUIC.
pub fn endpoint_server_config(tls: &TlsConfig) -> (r: Result<quinn::ServerConfig, TransportError>)
    ensures
        match tls.side() {
            TlsSide::Client(_) => r matches Err(TransportError::Tls(m)) && m@
                == "expected server config"@,
            TlsSide::Server(c) => if server_suits_quic(c) {
                r is Ok
            } else {
                r matches Err(TransportError::Tls(m)) && m@ == "no initial cipher suite found"@
            },
        },
{
    match tls.server_config() {
        Ok(config) => quic_config(quinn_server_config(config)),
        Err(e) => Err(e),
    }
}

/// The quinn configuration that a client endpoint connects with: `tls`
/// must be a client configuration, and one that suits QUIC.
pub fn endpoint_client_config(tls: &TlsConfig) -> (r: Result<quinn::ClientConfig, TransportError>)
    ensures
        match tls.side() {
            TlsSide::Server(_) => r matches Err(TransportError::Tls(m)) && m@
                == "expected client config"@,
            TlsSide::Client(c) => if client_suits_quic(c) {
                r is Ok
            } else {
                r matches Err(TransportError::Tls(m)) && m@ == "no initial cipher suite found"@
            },
        },
{
    match tls.client_config() {
        Ok(config) => quic_config(quinn_client_config(config)),
        Err(e) => Err(e),
    }
}

} // verus!

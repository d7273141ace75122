//! The error types of the transport, the client and the server.
use vstd::prelude::*;

verus! {

/// Errors produced by the QUIC transport layer.
#[derive(Debug)]
pub enum TransportError {
    /// Failed to bind or configure the QUIC endpoint.
    EndpointBind(String),
    /// A QUIC connection-level error.
    Connection(quinn::ConnectionError),
    /// Failed to open or accept a QUIC stream.
    Stream(String),
    /// TLS configuration error.
    Tls(String),
    /// I/O error on an underlying socket.
    Io(std::io::Error),
}

/// Errors of the HTTP/3 layer.
#[derive(Debug)]
pub enum CoreError {
    /// An HTTP/3 stream failed.
    H3Stream(String),
    /// The HTTP/3 connection failed.
    H3Connection(String),
    /// I/O error.
    Io(std::io::Error),
    /// The QUIC transport failed.
    Transport(String),
    /// The connection was closed.
    ConnectionClosed,
    /// The peer answered with something that is not a valid response.
    InvalidResponse(String),
}

/// Errors produced by the gRPC-QUIC client.
#[derive(Debug)]
pub enum ClientError {
    /// Failed to establish the underlying QUIC connection.
    Transport(TransportError),
    /// All retry attempts were exhausted.
    RetriesExhausted {
        /// Number of attempts made.
        attempts: u32,
        /// The error from the last attempt.
        last_error: String,
    },
    /// The channel has been shut down.
    Closed,
    /// I/O error while reading/writing the QUIC stream.
    StreamIo(std::io::Error),
    /// The response from the server was malformed.
    InvalidResponse(String),
    /// Failed to build the HTTP/3 request.
    RequestBuild(String),
}

/// Errors produced by the gRPC-QUIC server.
#[derive(Debug)]
pub enum ServerError {
    /// Failed to bind the QUIC endpoint.
    Transport(TransportError),
    /// The server received a malformed request.
    InvalidRequest(String),
    /// A stream-level I/O error occurred.
    StreamIo(std::io::Error),
    /// Graceful shutdown was requested.
    Shutdown,
}

/// A `String` holding the text of `s`.
pub fn text(s: &str) -> (r: String)
    ensures
        r@ == s@,
{
    s.to_owned()
}

/// `a` followed by `b`, as a new `String`.
pub fn joined(a: &str, b: &str) -> (r: String)
    ensures
        r@ == a@ + b@,
{
    let mut r = a.to_owned();
    r.append(b);
    r
}

} // verus!

//! The server's configuration and the decisions of its accept loops.
use core::time::Duration;
use vstd::prelude::*;

use crate::error::{text, ServerError, TransportError};
use crate::time::{duration_nanos, from_secs, nanos_per_sec};
use crate::tls::TlsConfig;

verus! {

/// The streams per connection that a server allows when none is set.
pub const DEFAULT_MAX_CONCURRENT_STREAMS: u32 = 256;

/// The seconds that a server waits for its connections to drain on shutdown
/// when no other timeout is set.
pub const DEFAULT_GRACEFUL_TIMEOUT_SECS: u64 = 30;

/// The HTTP status that a server answers a request with when its service
/// fails it: 500, internal server error.
pub const SERVICE_FAILURE_STATUS: u16 = 500;

/// Builder for [`QuicServer`].
#[derive(Debug)]
pub struct QuicServerBuilder {
    tls: Option<TlsConfig>,
    max_concurrent_streams: Option<u32>,
    graceful_timeout: Duration,
}

impl QuicServerBuilder {
    pub closed spec fn spec_tls(&self) -> Option<TlsConfig> {
        self.tls
    }

    pub closed spec fn spec_max_concurrent_streams(&self) -> Option<u32> {
        self.max_concurrent_streams
    }

    pub closed spec fn spec_graceful_timeout(&self) -> Duration {
        self.graceful_timeout
    }

    /// Set the TLS configuration (required for production; test helpers available).
    pub fn tls(self, tls: TlsConfig) -> (r: Self)
        ensures
            r.spec_tls() == Some(tls),
            r.spec_max_concurrent_streams() == self.spec_max_concurrent_streams(),
            r.spec_graceful_timeout() == self.spec_graceful_timeout(),
    {
        QuicServerBuilder { tls: Some(tls), ..self }
    }

    /// Limit the number of concurrent streams per connection.
    pub fn max_concurrent_streams(self, limit: u32) -> (r: Self)
        ensures
            r.spec_tls() == self.spec_tls(),
            r.spec_max_concurrent_streams() == Some(limit),
            r.spec_graceful_timeout() == self.spec_graceful_timeout(),
    {
        QuicServerBuilder { max_concurrent_streams: Some(limit), ..self }
    }

    /// Set the timeout for graceful shutdown to drain existing streams
    /// (default 30s).
    pub fn graceful_timeout(self, timeout: Duration) -> (r: Self)
        ensures
            r.spec_tls() == self.spec_tls(),
            r.spec_max_concurrent_streams() == self.spec_max_concurrent_streams(),
            r.spec_graceful_timeout() == timeout,
    {
        QuicServerBuilder { graceful_timeout: timeout, ..self }
    }

    /// Return a configured [`QuicServer`]. The socket is bound when the
    /// server is served.
    pub fn build(self) -> (r: QuicServer)
        ensures
            r.tls == self.spec_tls(),
            r.max_concurrent_streams == match self.spec_max_concurrent_streams() {
                Some(m) => m,
                None => DEFAULT_MAX_CONCURRENT_STREAMS,
            },
            r.graceful_timeout == self.spec_graceful_timeout(),
    {
        QuicServer {
            tls: self.tls,
            max_concurrent_streams: match self.max_concurrent_streams {
                Some(m) => m,
                None => DEFAULT_MAX_CONCURRENT_STREAMS,
            },
            graceful_timeout: self.graceful_timeout,
        }
    }
}

impl Default for QuicServerBuilder {
    /// No TLS, no stream limit, a 30 s graceful timeout.
    fn default() -> (r: Self)
        ensures
            r.spec_tls() is None,
            r.spec_max_concurrent_streams() is None,
            duration_nanos(r.spec_graceful_timeout()) == DEFAULT_GRACEFUL_TIMEOUT_SECS
                * nanos_per_sec(),
    {
        QuicServerBuilder {
            tls: None,
            max_concurrent_streams: None,
            graceful_timeout: from_secs(DEFAULT_GRACEFUL_TIMEOUT_SECS),
        }
    }
}

/// A QUIC server that delegates incoming gRPC requests to a tonic service.
#[derive(Debug)]
pub struct QuicServer {
    pub tls: Option<TlsConfig>,
    pub max_concurrent_streams: u32,
    pub graceful_timeout: Duration,
}

impl QuicServer {
    /// Return a builder to configure the server.
    pub fn builder() -> (r: QuicServerBuilder)
        ensures
            r.spec_tls() is None,
            r.spec_max_concurrent_streams() is None,
            duration_nanos(r.spec_graceful_timeout()) == DEFAULT_GRACEFUL_TIMEOUT_SECS
                * nanos_per_sec(),
    {
        QuicServerBuilder::default()
    }

    /// The TLS configuration to bind with: serving requires one.
    pub fn tls_for_serving(&self) -> (r: Result<TlsConfig, ServerError>)
        ensures
            match self.tls {
                Some(t) => r matches Ok(c) && c.side() == t.side(),
                None => r matches Err(ServerError::Transport(TransportError::Tls(m)))
                    && m@ == "TLS config is required"@,
            },
    {
        match &self.tls {
            Some(t) => Ok(t.duplicate()),
            None => Err(ServerError::Transport(TransportError::Tls(text("TLS config is required")))),
        }
    }
}

/// What the accept loop of a server saw.
pub enum ServeEvent {
    /// The shutdown signal fired.
    Shutdown,
    /// The endpoint accepts no more connections.
    EndpointClosed,
    /// A connection failed while it was being accepted.
    AcceptFailed,
    /// A connection was accepted.
    Accepted,
    /// After the loop, the connections did not drain within the graceful
    /// timeout.
    DrainTimedOut,
}

/// What the accept loop of a server does next.
pub enum ServeAction {
    /// Refuse new connections, tell the connections to shut down, and leave
    /// the loop to drain them.
    RejectNewAndStop,
    /// Leave the loop to drain the connections.
    Stop,
    /// Go on accepting.
    Skip,
    /// Serve the connection in a task of its own and go on accepting.
    ServeConnection,
    /// Close the endpoint, and with it every connection, with this error
    /// code and reason.
    CloseEndpoint { error_code: u32, reason: &'static str },
}

pub open spec fn spec_serve_action(ev: ServeEvent) -> ServeAction {
    match ev {
        ServeEvent::Shutdown => ServeAction::RejectNewAndStop,
        ServeEvent::EndpointClosed => ServeAction::Stop,
        ServeEvent::AcceptFailed => ServeAction::Skip,
        ServeEvent::Accepted => ServeAction::ServeConnection,
        ServeEvent::DrainTimedOut => ServeAction::CloseEndpoint {
            error_code: 0,
            reason: "shutdown timeout",
        },
    }
}

/// The accept loop's step.
pub fn serve_action(ev: ServeEvent) -> (r: ServeAction)
    ensures
        r == spec_serve_action(ev),
{
    match ev {
        ServeEvent::Shutdown => ServeAction::RejectNewAndStop,
        ServeEvent::EndpointClosed => ServeAction::Stop,
        ServeEvent::AcceptFailed => ServeAction::Skip,
        ServeEvent::Accepted => ServeAction::ServeConnection,
        ServeEvent::DrainTimedOut => ServeAction::CloseEndpoint {
            error_code: 0,
            reason: "shutdown timeout",
        },
    }
}

/// What the request loop of one connection saw.
pub enum ConnectionEvent {
    /// The server is shutting down.
    Cancelled,
    /// The peer opens no more requests.
    NoMoreRequests,
    /// Accepting the next request failed.
    AcceptFailed,
    /// The head of an accepted request could not be read.
    ResolveFailed,
    /// A request was read.
    Request,
    /// The handler of one of the connection's requests finished.
    HandlerFinished,
}

/// What the request loop of one connection does next.
pub enum ConnectionAction {
    /// Send the HTTP/3 shutdown, then leave the loop and let the running
    /// requests finish.
    ShutdownAndStop,
    /// Leave the loop and let the running requests finish.
    Stop,
    /// Go on accepting requests.
    Skip,
    /// The connection runs as many handlers as it may: drop the request and
    /// go on.
    DropOverloaded,
    /// Handle the request in a task of its own and go on.
    HandleRequest,
}

/// The requests of one connection: how many of their handlers may run at
/// once, and how many run.
pub struct ConnectionRequests {
    limit: u32,
    running: u32,
}

/// What the request loop's step on `ev` does and leaves: a request is
/// handled while fewer handlers run than the limit allows, and dropped
/// otherwise; a finished handler frees its place; the other events end or
/// continue the loop and change no count.
pub open spec fn request_step(
    before: ConnectionRequests,
    ev: ConnectionEvent,
    r: ConnectionAction,
    after: ConnectionRequests,
) -> bool {
    &&& after.limit() == before.limit()
    &&& match ev {
        ConnectionEvent::Cancelled => r is ShutdownAndStop && after.running() == before.running(),
        ConnectionEvent::NoMoreRequests => r is Stop && after.running() == before.running(),
        ConnectionEvent::AcceptFailed => r is Stop && after.running() == before.running(),
        ConnectionEvent::ResolveFailed => r is Skip && after.running() == before.running(),
        ConnectionEvent::Request => if before.running() < before.limit() {
            r is HandleRequest && after.running() == before.running() + 1
        } else {
            r is DropOverloaded && after.running() == before.running()
        },
        ConnectionEvent::HandlerFinished => r is Skip && after.running() == if before.running() > 0 {
            before.running() - 1
        } else {
            0
        },
    }
}

impl ConnectionRequests {
    /// The most handlers of the connection that run at once.
    pub closed spec fn limit(self) -> u32 {
        self.limit
    }

    /// The handlers of the connection that run.
    pub closed spec fn running(self) -> u32 {
        self.running
    }

    /// A connection that may run `limit` handlers at once, and runs none.
    pub fn new(limit: u32) -> (r: Self)
        ensures
            r.limit() == limit,
            r.running() == 0,
    {
        ConnectionRequests { limit, running: 0 }
    }

    /// The request loop's step.
    pub fn step(&mut self, ev: ConnectionEvent) -> (r: ConnectionAction)
        ensures
            request_step(*old(self), ev, r, *final(self)),
    {
        match ev {
            ConnectionEvent::Cancelled => ConnectionAction::ShutdownAndStop,
            ConnectionEvent::NoMoreRequests => ConnectionAction::Stop,
            ConnectionEvent::AcceptFailed => ConnectionAction::Stop,
            ConnectionEvent::ResolveFailed => ConnectionAction::Skip,
            ConnectionEvent::Request => if self.running < self.limit {
                self.running = self.running + 1;
                ConnectionAction::HandleRequest
            } else {
                ConnectionAction::DropOverloaded
            },
            ConnectionEvent::HandlerFinished => {
                if self.running > 0 {
                    self.running = self.running - 1;
                }
                ConnectionAction::Skip
            },
        }
    }
}

} // verus!

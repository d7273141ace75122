//! gRPC over HTTP/3 over QUIC: the decision core of the transport.
//!
//! The modules hold the rules by which the transport parses deadlines,
//! retries calls, forwards message bodies, pools connections and runs its
//! accept loops, each stated as a contract and proved.

pub mod bench;
pub mod body;
pub mod call;
pub mod channel;
pub mod discovery;
pub mod error;
pub mod forward;
pub mod laws;
pub mod outside;
pub mod pool;
pub mod retry;
pub mod server;
pub mod text;
pub mod time;
pub mod timeout;
pub mod tls;
pub mod transport;

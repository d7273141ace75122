# grpc_quic

gRPC over HTTP/3 over QUIC for tonic: QUIC streams (quinn, rustls) in place
of HTTP/2 over TCP, with gRPC semantics untouched and message bytes passed
on as they are.

## Layout

- `src/` — the library, verified with Verus. It holds the decisions of the
  transport, each with a contract:
  - `timeout`: reading the `grpc-timeout` header;
  - `call`: the attempt loop of a call (retries, backoff index, the error
    a call ends with), and the request URI;
  - `retry`: the cap on a retry's backoff;
  - `forward`: what each side does with each frame of a body it forwards;
  - `body`: the receive side of a body as a sequence of polls (deadline,
    forwarding failures, data, trailers);
  - `pool`: the connection table, one slot per remote address;
  - `server`: server configuration, the per-connection request limit and the steps
    of the accept and request loops;
  - `channel`, `discovery`: finding a channel's remote address;
  - `tls`, `transport`: TLS configurations (PEM identities included) and
    QUIC connection handles;
  - `bench`: the benchmark payloads, echo service and latency recording;
  - `laws`: the properties that span several functions;
  - `outside`, `time`: the declared outside types and the trusted calls
    into std and the outside crates.
- `tests/` — tests of the library.
- `app/` — the async runtime around it: endpoints, the HTTP/3 sessions and
  bodies, the `tower::Service` of the channel, the server's accept loops,
  error types with `Display`, and the benchmark harness. It performs the
  I/O and hands the library plain values.

[package]
name = "grpc_quic"
version = "0.1.0"
edition = "2021"
publish = false

[dependencies]
quinn = { version = "0.11", default-features = false, features = ["runtime-tokio", "rustls-ring"] }
rustls = { version = "0.23", default-features = false, features = ["ring", "std", "logging", "tls12"] }
hdrhistogram = { version = "7", default-features = false }
tokio = { version = "1", features = ["full"] }
tonic = "0.12"
tower = { version = "0.4", features = ["util"] }
http = "1"
http-body = "1"
h3 = "0.0.8"
h3-quinn = "0.0.10"
bytes = "1"
futures = "0.3"
thiserror = "1"
rcgen = "0.13"
rustls-pemfile = "2"
webpki-roots = "0.26"
serde = { version = "1", features = ["derive"] }
serde_json = "1"
chrono = "0.4"
pin-project-lite = "0.2"

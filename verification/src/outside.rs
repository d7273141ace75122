//! Types of std and of the outside crates that run through the library,
//! declared so that they can stand in signatures and fields. Each is
//! opaque: nothing inside a value of one is read here.
use vstd::prelude::*;

verus! {

#[verifier::external_type_specification]
#[verifier::external_body]
pub struct ExIoError(std::io::Error);

#[verifier::external_type_specification]
#[verifier::external_body]
pub struct ExQuinnConnectionError(quinn::ConnectionError);

#[verifier::external_type_specification]
#[verifier::external_body]
pub struct ExQuinnConnection(quinn::Connection);

#[verifier::external_type_specification]
#[verifier::external_body]
pub struct ExQuinnServerConfig(quinn::ServerConfig);

#[verifier::external_type_specification]
#[verifier::external_body]
pub struct ExQuinnClientConfig(quinn::ClientConfig);

#[verifier::external_type_specification]
#[verifier::external_body]
pub struct ExRustlsServerConfig(rustls::ServerConfig);

#[verifier::external_type_specification]
#[verifier::external_body]
pub struct ExRustlsClientConfig(rustls::ClientConfig);

/// `quinn::Connection::clone`: the connection is reference-counted, and a
/// clone is a second handle to the same connection.
pub assume_specification[ <quinn::Connection as Clone>::clone ](c: &quinn::Connection) -> (res: quinn::Connection)
    ensures
        res == *c,
;

/// `Arc::clone`: a second handle to the same shared value.
#[verifier::external_body]
pub fn share<T>(a: &std::sync::Arc<T>) -> (res: std::sync::Arc<T>)
    ensures
        res == *a,
{
    std::sync::Arc::clone(a)
}

} // verus!

//! Where a channel connects: the remote address that the text given to
//! `connect` names.
use vstd::prelude::*;

use crate::error::{joined, ClientError};

verus! {

/// The calls that a channel runs at once when no other limit is set.
pub const DEFAULT_CONCURRENCY_LIMIT: usize = 256;

/// How the remote address of a channel is found.
pub enum RemoteChoice<A> {
    /// The text is itself this socket address.
    Address(A),
    /// The text is a service name: ask the resolver.
    Resolve,
    /// There is no way to find the address.
    Fail(ClientError),
}

/// A `RequestBuild` error with the given text.
pub open spec fn is_request_build(e: ClientError, text: Seq<char>) -> bool {
    e matches ClientError::RequestBuild(m) && m@ == text
}

/// The first step of connecting a channel to `addr_str`, given what parsing
/// the text as a socket address gave and whether a resolver is configured.
///
/// A text that parses is the address. Otherwise the resolver is asked, and
/// with no resolver the channel cannot connect.
pub fn choose_remote<A>(addr_str: &str, parsed: Option<A>, has_resolver: bool) -> (r: RemoteChoice<A>)
    ensures
        match parsed {
            Some(a) => r == RemoteChoice::Address(a),
            None => if has_resolver {
                r is Resolve
            } else {
                r matches RemoteChoice::Fail(e) && is_request_build(
                    e,
                    "invalid address and no resolver configured: "@ + addr_str@,
                )
            },
        },
{
    match parsed {
        Some(a) => RemoteChoice::Address(a),
        None => if has_resolver {
            RemoteChoice::Resolve
        } else {
            RemoteChoice::Fail(
                ClientError::RequestBuild(
                    joined("invalid address and no resolver configured: ", addr_str),
                ),
            )
        },
    }
}

/// The address that a channel to the service `addr_str` connects to, given
/// what its resolver returned: the first one, or an error when there is none.
pub fn first_resolved<A>(addr_str: &str, addrs: Vec<A>) -> (r: Result<A, ClientError>)
    ensures
        addrs@.len() == 0 ==> (r matches Err(e) && is_request_build(
            e,
            "resolver returned no addresses for: "@ + addr_str@,
        )),
        addrs@.len() > 0 ==> r == Ok::<A, ClientError>(addrs@[0]),
{
    let mut addrs = addrs;
    if addrs.len() == 0 {
        return Err(ClientError::RequestBuild(joined("resolver returned no addresses for: ", addr_str)));
    }
    Ok(addrs.remove(0))
}

} // verus!

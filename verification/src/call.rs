//! The attempt loop of one gRPC call on a channel.
//!
//! A call makes up to `max_attempts` attempts. Before every attempt but the
//! first it waits the backoff of the attempt before it. An attempt whose
//! connection or request send fails is retried; a request that cannot be
//! built, or a response that cannot be read, ends the call at once. When the
//! attempts run out the call fails with `RetriesExhausted`, carrying the
//! number of attempts and the text of the last attempt's error.
use vstd::prelude::*;

use crate::error::{joined, text, ClientError};
use crate::text::same_text;

verus! {

/// How an attempt begins.
pub enum AttemptStart {
    /// Make an attempt, first waiting the backoff of the given retry index
    /// (0 for the first retry) when there is one.
    Attempt { backoff_index: Option<u32> },
    /// No attempt is left: the call fails with this error.
    GiveUp(ClientError),
}

/// How an attempt failed. A failure that is retried carries the text of
/// its error, which is all that the call keeps of it.
pub enum AttemptFailure {
    /// No connection to the remote could be had; the text of the error.
    Connect(String),
    /// The request could not be sent on the HTTP/3 session; the text of the
    /// error.
    Send(String),
    /// The HTTP/3 request could not be built from the call; the text
    /// describes why.
    BuildRequest(String),
    /// The response head could not be read.
    Response(ClientError),
}

/// What the call does after a failed attempt.
pub enum AfterFailure {
    /// Drop the pooled connection to the remote if it has closed, then
    /// begin the next attempt.
    InvalidateAndRetry,
    /// End the call with this error.
    Fail(ClientError),
}

/// The error a call ends with when it has no attempt left:
/// `RetriesExhausted` with the number of attempts allowed and the text of
/// the last failure, or "no error captured" when no attempt failed.
pub open spec fn is_exhausted_error(e: ClientError, max_attempts: u32, last: Option<String>) -> bool {
    e matches ClientError::RetriesExhausted { attempts, last_error } && attempts == max_attempts
        && last_error@ == match last {
        Some(t) => t@,
        None => "no error captured"@,
    }
}

/// The state of the attempt loop of one call.
pub struct CallAttempts {
    max_attempts: u32,
    started: u32,
    last_error: Option<String>,
}

/// What beginning an attempt in state `before` gives and leaves: while
/// attempts are left, one more is begun, the first without a backoff and
/// attempt `k` after the backoff of retry index `k - 1`; when none is left,
/// the call gives up with `RetriesExhausted`, carrying the text of the last
/// failure.
pub open spec fn begin_outcome(before: CallAttempts, r: AttemptStart, after: CallAttempts) -> bool {
    &&& after.max_attempts() == before.max_attempts()
    &&& before.started() <= before.max_attempts() ==> after.started() <= after.max_attempts()
    &&& before.started() < before.max_attempts() ==> {
        &&& after.started() == before.started() + 1
        &&& after.last_error() == before.last_error()
        &&& r == AttemptStart::Attempt {
            backoff_index: if before.started() == 0 {
                None
            } else {
                Some((before.started() - 1) as u32)
            },
        }
    }
    &&& before.started() >= before.max_attempts() ==> {
        &&& after.started() == before.started()
        &&& after.last_error() is None
        &&& r matches AttemptStart::GiveUp(e) && is_exhausted_error(
            e,
            before.max_attempts(),
            before.last_error(),
        )
    }
}

/// What taking in `failure` in state `before` decides and leaves: the text
/// of a failed connection or send is kept as the last error, and the call
/// drops the pooled connection if it has closed and retries; a request that
/// cannot be built, or a response that cannot be read, ends the call at
/// once.
pub open spec fn fail_outcome(before: CallAttempts, failure: AttemptFailure, r: AfterFailure, after: CallAttempts) -> bool {
    &&& after.max_attempts() == before.max_attempts()
    &&& after.started() == before.started()
    &&& match failure {
        AttemptFailure::Connect(e) => r is InvalidateAndRetry && after.last_error() == Some(e),
        AttemptFailure::Send(e) => r is InvalidateAndRetry && after.last_error() == Some(e),
        AttemptFailure::BuildRequest(m) => r == AfterFailure::Fail(ClientError::RequestBuild(m))
            && after.last_error() == before.last_error(),
        AttemptFailure::Response(e) => r == AfterFailure::Fail(e) && after.last_error()
            == before.last_error(),
    }
}

impl CallAttempts {
    /// The most attempts the call may make.
    pub closed spec fn max_attempts(self) -> u32 {
        self.max_attempts
    }

    /// The attempts begun so far.
    pub closed spec fn started(self) -> u32 {
        self.started
    }

    /// The error of the last failed attempt that is kept for the end.
    pub closed spec fn last_error(self) -> Option<String> {
        self.last_error
    }

    /// A call that may make `max_attempts` attempts and has made none.
    pub fn new(max_attempts: u32) -> (r: Self)
        ensures
            r.max_attempts() == max_attempts,
            r.started() == 0,
            r.last_error() is None,
    {
        CallAttempts { max_attempts, started: 0, last_error: None }
    }

    /// Begins the next attempt, or gives the call up when none is left.
    ///
    /// Attempt `k` (from 0) waits the backoff of retry index `k - 1` first;
    /// the first attempt waits nothing.
    pub fn begin(&mut self) -> (r: AttemptStart)
        ensures
            begin_outcome(*old(self), r, *final(self)),
    {
        if self.started < self.max_attempts {
            let backoff_index = if self.started == 0 {
                None
            } else {
                Some(self.started - 1)
            };
            self.started = self.started + 1;
            AttemptStart::Attempt { backoff_index }
        } else {
            let last = self.last_error.take();
            let last_error = match last {
                Some(t) => t,
                None => text("no error captured"),
            };
            AttemptStart::GiveUp(
                ClientError::RetriesExhausted { attempts: self.max_attempts, last_error },
            )
        }
    }

    /// Takes in the failure of the current attempt.
    ///
    /// Connection and send failures are transient: the text of the error is
    /// kept and the call goes on to its next attempt. A request that cannot be built
    /// ends the call with `RequestBuild`, and a failed response read ends it
    /// with that error, both at once.
    pub fn fail(&mut self, failure: AttemptFailure) -> (r: AfterFailure)
        ensures
            fail_outcome(*old(self), failure, r, *final(self)),
    {
        match failure {
            AttemptFailure::Connect(e) => {
                self.last_error = Some(e);
                AfterFailure::InvalidateAndRetry
            },
            AttemptFailure::Send(e) => {
                self.last_error = Some(e);
                AfterFailure::InvalidateAndRetry
            },
            AttemptFailure::BuildRequest(m) => AfterFailure::Fail(ClientError::RequestBuild(m)),
            AttemptFailure::Response(e) => AfterFailure::Fail(e),
        }
    }
}

/// The error of a call whose `grpc-timeout` deadline passed first.
pub fn deadline_exceeded() -> (r: ClientError)
    ensures
        r matches ClientError::RequestBuild(m) && m@ == "DeadlineExceeded"@,
{
    ClientError::RequestBuild(text("DeadlineExceeded"))
}

/// The URI that a call is sent to: `https://`, the authority of the call's
/// URI (the channel's server name when it has none), then the path.
pub fn request_uri(authority: Option<String>, server_name: &str, path: &str) -> (r: String)
    ensures
        r@ == "https://"@ + match authority {
            Some(a) => a@,
            None => server_name@,
        } + path@,
{
    let mut uri = text("https://");
    match authority {
        Some(a) => uri.append(a.as_str()),
        None => uri.append(server_name),
    }
    uri.append(path);
    uri
}

/// Whether a request header of the call, named `name`, goes into the
/// HTTP/3 request head as it is: every header but those that the gRPC
/// headers replace (`content-type` and `te`).
pub fn keeps_header(name: &str) -> (r: bool)
    ensures
        r == !(name@ == "content-type"@ || name@ == "te"@),
{
    !(same_text(name, "content-type") || same_text(name, "te"))
}

/// The headers that every request of a call carries on top of the call's
/// own, replacing any of the same name: `content-type: application/grpc`
/// and `te: trailers`.
pub fn grpc_request_headers() -> (r: Vec<(&'static str, &'static str)>)
    ensures
        r@.len() == 2,
        r@[0].0@ == "content-type"@ && r@[0].1@ == "application/grpc"@,
        r@[1].0@ == "te"@ && r@[1].1@ == "trailers"@,
{
    vec![("content-type", "application/grpc"), ("te", "trailers")]
}

} // verus!

//! Forwarding a message body frame by frame onto an HTTP/3 stream.
//!
//! The client forwards the request body of a call; the server forwards the
//! response body of its service. Each reads the body one frame at a time and
//! decides, for every frame or failure, what to do with the stream.
use vstd::prelude::*;

verus! {

/// What reading the body, or writing the last frame, gave: the frame read
/// (of data `D` or trailers `T`), or a failure `E`.
pub enum ForwardEvent<D, T, E> {
    /// A data frame was read.
    Data(D),
    /// The trailers were read.
    Trailers(T),
    /// A frame that is neither data nor trailers was read.
    OtherFrame,
    /// Reading the body failed.
    BodyFailed(E),
    /// The body is over.
    BodyEnded,
    /// Writing a data frame to the stream failed.
    SendFailed(E),
}

/// What to do with the stream.
pub enum ForwardAction<D, T, E> {
    /// Write this data frame and read on.
    SendData(D),
    /// Write these trailers, which close the stream, and stop.
    SendTrailersAndStop(T),
    /// Drop the frame and read on.
    Skip,
    /// Finish the stream and stop.
    FinishAndStop,
    /// Report this failure to the response side and stop, leaving the
    /// stream unfinished.
    ReportAndStop(E),
    /// Stop, leaving the stream as it is.
    Stop,
}

/// What the client does when forwarding the request body of a call.
///
/// Frames are written as they were read. The request stream is finished
/// only when the body ends; a failure of the body or of a write is reported
/// to the reader of the response instead.
pub open spec fn spec_request_action<D, T, E>(ev: ForwardEvent<D, T, E>) -> ForwardAction<D, T, E> {
    match ev {
        ForwardEvent::Data(d) => ForwardAction::SendData(d),
        ForwardEvent::Trailers(t) => ForwardAction::SendTrailersAndStop(t),
        ForwardEvent::OtherFrame => ForwardAction::Skip,
        ForwardEvent::BodyFailed(e) => ForwardAction::ReportAndStop(e),
        ForwardEvent::BodyEnded => ForwardAction::FinishAndStop,
        ForwardEvent::SendFailed(e) => ForwardAction::ReportAndStop(e),
    }
}

/// The client's step of forwarding a request body.
pub fn request_action<D, T, E>(ev: ForwardEvent<D, T, E>) -> (r: ForwardAction<D, T, E>)
    ensures
        r == spec_request_action(ev),
{
    match ev {
        ForwardEvent::Data(d) => ForwardAction::SendData(d),
        ForwardEvent::Trailers(t) => ForwardAction::SendTrailersAndStop(t),
        ForwardEvent::OtherFrame => ForwardAction::Skip,
        ForwardEvent::BodyFailed(e) => ForwardAction::ReportAndStop(e),
        ForwardEvent::BodyEnded => ForwardAction::FinishAndStop,
        ForwardEvent::SendFailed(e) => ForwardAction::ReportAndStop(e),
    }
}

/// The server's forwarding of one response body.
pub struct ResponseForwarding {
    /// Whether a data frame has been read from the body.
    pub data_frame_received: bool,
}

/// What the server does when forwarding a response body, having read a data
/// frame before or not.
///
/// Frames are written as they were read, and trailers close the stream. A
/// failure of the body or of a write finishes it. When the body ends the
/// stream is finished only if a data frame was read.
pub open spec fn spec_response_action<D, T, E>(data_frame_received: bool, ev: ForwardEvent<D, T, E>) -> ForwardAction<D, T, E> {
    match ev {
        ForwardEvent::Data(d) => ForwardAction::SendData(d),
        ForwardEvent::Trailers(t) => ForwardAction::SendTrailersAndStop(t),
        ForwardEvent::OtherFrame => ForwardAction::Skip,
        ForwardEvent::BodyFailed(_) => ForwardAction::FinishAndStop,
        ForwardEvent::BodyEnded => if data_frame_received {
            ForwardAction::FinishAndStop
        } else {
            ForwardAction::Stop
        },
        ForwardEvent::SendFailed(_) => ForwardAction::FinishAndStop,
    }
}

impl ResponseForwarding {
    /// The forwarding of a body of which nothing has been read.
    pub fn new() -> (r: Self)
        ensures
            !r.data_frame_received,
    {
        ResponseForwarding { data_frame_received: false }
    }

    /// The server's step of forwarding a response body.
    pub fn step<D, T, E>(&mut self, ev: ForwardEvent<D, T, E>) -> (r: ForwardAction<D, T, E>)
        ensures
            final(self).data_frame_received == (old(self).data_frame_received || ev is Data),
            r == spec_response_action(old(self).data_frame_received, ev),
    {
        match ev {
            ForwardEvent::Data(d) => {
                self.data_frame_received = true;
                ForwardAction::SendData(d)
            },
            ForwardEvent::Trailers(t) => ForwardAction::SendTrailersAndStop(t),
            ForwardEvent::OtherFrame => ForwardAction::Skip,
            ForwardEvent::BodyFailed(_) => ForwardAction::FinishAndStop,
            ForwardEvent::BodyEnded => if self.data_frame_received {
                ForwardAction::FinishAndStop
            } else {
                ForwardAction::Stop
            },
            ForwardEvent::SendFailed(_) => ForwardAction::FinishAndStop,
        }
    }
}

} // verus!

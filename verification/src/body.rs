//! The receive side of an HTTP/3 request or response body, as a sequence of
//! polls.
//!
//! A poll of a body looks, in this order, at: the call's deadline (when
//! there is one), the channel on which the task that forwards the request
//! reports its failure (while it is open), the data frames (until they are
//! done) and the trailers (until they are done). Each look either gives the
//! poll its answer or passes on to the next source. `BodyState` decides
//! which source is looked at next and what the answer is; the caller makes
//! the looks.
use vstd::prelude::*;

verus! {

/// A source that a poll of the body looks at.
pub enum Source {
    /// The deadline of the call.
    Deadline,
    /// The channel of the task that forwards the request body.
    ForwardError,
    /// The next data frame.
    Data,
    /// The trailers.
    Trailers,
}

/// The answer of a poll of the body.
pub enum BodyPoll<D, T, E> {
    /// Nothing is ready yet.
    Pending,
    /// A data frame.
    Data(D),
    /// The trailers of the body.
    Trailers(T),
    /// The body failed.
    Failed(E),
    /// The body is over.
    End,
    /// The deadline passed: stop the forwarding task and answer with the
    /// trailers `grpc-status: 4`, `grpc-message: deadline exceeded`.
    DeadlineTrailers,
    /// The deadline passed after the trailers were given: stop the
    /// forwarding task; the body is over.
    DeadlineEnd,
}

/// What a poll does next.
pub enum BodyStep<D, T, E> {
    /// Look at this source.
    Look(Source),
    /// Answer the poll.
    Answer(BodyPoll<D, T, E>),
}

/// What the look at the forwarding task's channel saw.
pub enum ForwardWatch<E> {
    /// The task reported this failure.
    Failed(E),
    /// The task ended without reporting one.
    Closed,
    /// Nothing yet.
    Pending,
}

/// What the look at the data frames saw.
pub enum DataPoll<D, E> {
    /// A data frame.
    Frame(D),
    /// There are no more data frames.
    Finished,
    /// Reading the data failed.
    Failed(E),
    /// Nothing yet.
    Pending,
}

/// What the look at the trailers saw.
pub enum TrailersPoll<T, E> {
    /// The trailers.
    Trailers(T),
    /// The body has no trailers.
    Absent,
    /// Reading the trailers failed.
    Failed(E),
    /// Nothing yet.
    Pending,
}

/// The state that a body keeps from one poll to the next.
pub struct BodyState {
    pub data_done: bool,
    pub trailers_done: bool,
    pub closed: bool,
    pub has_deadline: bool,
    pub watching_forward: bool,
}

/// The first source at or after `from` that a poll in state `s` looks at,
/// or the end of the body when there is none.
pub open spec fn spec_from<D, T, E>(s: BodyState, from: Source) -> BodyStep<D, T, E> {
    let at_deadline = from is Deadline;
    let at_forward = at_deadline || from is ForwardError;
    let at_data = at_forward || from is Data;
    if at_deadline && s.has_deadline {
        BodyStep::Look(Source::Deadline)
    } else if at_forward && s.watching_forward {
        BodyStep::Look(Source::ForwardError)
    } else if at_data && !s.data_done {
        BodyStep::Look(Source::Data)
    } else if !s.trailers_done {
        BodyStep::Look(Source::Trailers)
    } else {
        BodyStep::Answer(BodyPoll::End)
    }
}

/// A poll that changes nothing of the flags that only grow.
pub open spec fn grows(old: BodyState, new: BodyState) -> bool {
    &&& old.data_done ==> new.data_done
    &&& old.trailers_done ==> new.trailers_done
    &&& old.closed ==> new.closed
    &&& new.has_deadline == old.has_deadline
    &&& new.watching_forward ==> old.watching_forward
}

/// The look at the deadline, as a step: once the deadline has passed the
/// body is closed and the poll answers with the deadline trailers, or with
/// the end when the trailers were given; otherwise the poll goes on.
pub open spec fn deadline_step<D, T, E>(s: BodyState, passed: bool) -> (BodyStep<D, T, E>, BodyState) {
    if passed {
        (
            BodyStep::Answer(
                if s.trailers_done {
                    BodyPoll::DeadlineEnd
                } else {
                    BodyPoll::DeadlineTrailers
                },
            ),
            BodyState { closed: true, trailers_done: true, ..s },
        )
    } else {
        (spec_from(s, Source::ForwardError), s)
    }
}

/// The look at the forwarding task's channel, as a step.
pub open spec fn forward_step<D, T, E>(s: BodyState, seen: ForwardWatch<E>) -> (BodyStep<D, T, E>, BodyState) {
    match seen {
        ForwardWatch::Failed(e) => (
            BodyStep::Answer(BodyPoll::Failed(e)),
            BodyState { watching_forward: false, ..s },
        ),
        ForwardWatch::Closed => (
            spec_from(BodyState { watching_forward: false, ..s }, Source::Data),
            BodyState { watching_forward: false, ..s },
        ),
        ForwardWatch::Pending => (spec_from(s, Source::Data), s),
    }
}

/// The look at the data frames, as a step: a frame is the answer, as it
/// was read.
pub open spec fn data_step<D, T, E>(s: BodyState, seen: DataPoll<D, E>) -> (BodyStep<D, T, E>, BodyState) {
    match seen {
        DataPoll::Frame(d) => (BodyStep::Answer(BodyPoll::Data(d)), s),
        DataPoll::Finished => (
            spec_from(BodyState { data_done: true, ..s }, Source::Trailers),
            BodyState { data_done: true, ..s },
        ),
        DataPoll::Failed(e) => (BodyStep::Answer(BodyPoll::Failed(e)), s),
        DataPoll::Pending => (BodyStep::Answer(BodyPoll::Pending), s),
    }
}

/// The look at the trailers, as a step.
pub open spec fn trailers_step<D, T, E>(s: BodyState, seen: TrailersPoll<T, E>) -> (BodyPoll<D, T, E>, BodyState) {
    match seen {
        TrailersPoll::Trailers(t) => (BodyPoll::Trailers(t), BodyState { trailers_done: true, ..s }),
        TrailersPoll::Absent => (BodyPoll::End, BodyState { trailers_done: true, ..s }),
        TrailersPoll::Failed(e) => (BodyPoll::Failed(e), BodyState { trailers_done: true, ..s }),
        TrailersPoll::Pending => (BodyPoll::Pending, s),
    }
}

/// How a poll begins, as a step.
pub open spec fn start_step<D, T, E>(s: BodyState) -> BodyStep<D, T, E> {
    if s.closed {
        BodyStep::Answer(BodyPoll::End)
    } else {
        spec_from(s, Source::Deadline)
    }
}

/// The rest of a poll from `step` in state `s`, over a stream that holds the
/// data frames `data` and then the trailers `trailers`, if any, while the
/// deadline does not pass and the forwarding task reports nothing. When
/// `ready`, the stream answers the look at its data or trailers at once;
/// otherwise it has nothing yet. The result is the answer, the state after
/// it, and the data frames left. A poll makes at most four looks, which
/// `fuel` bounds.
pub open spec fn follow<D, T, E>(
    step: BodyStep<D, T, E>,
    s: BodyState,
    data: Seq<D>,
    trailers: Option<T>,
    ready: bool,
    fuel: nat,
) -> (BodyPoll<D, T, E>, BodyState, Seq<D>)
    decreases fuel,
{
    if fuel == 0 {
        (BodyPoll::Pending, s, data)
    } else {
        match step {
            BodyStep::Answer(a) => (a, s, data),
            BodyStep::Look(Source::Deadline) => {
                let next = deadline_step::<D, T, E>(s, false);
                follow(next.0, next.1, data, trailers, ready, (fuel - 1) as nat)
            },
            BodyStep::Look(Source::ForwardError) => {
                let next = forward_step::<D, T, E>(s, ForwardWatch::Pending);
                follow(next.0, next.1, data, trailers, ready, (fuel - 1) as nat)
            },
            BodyStep::Look(Source::Data) => if !ready {
                let next = data_step::<D, T, E>(s, DataPoll::Pending);
                follow(next.0, next.1, data, trailers, ready, (fuel - 1) as nat)
            } else if data.len() > 0 {
                let next = data_step::<D, T, E>(s, DataPoll::Frame(data[0]));
                follow(next.0, next.1, data.drop_first(), trailers, ready, (fuel - 1) as nat)
            } else {
                let next = data_step::<D, T, E>(s, DataPoll::Finished);
                follow(next.0, next.1, data, trailers, ready, (fuel - 1) as nat)
            },
            BodyStep::Look(Source::Trailers) => {
                let seen = if !ready {
                    TrailersPoll::Pending
                } else {
                    match trailers {
                        Some(t) => TrailersPoll::Trailers(t),
                        None => TrailersPoll::Absent,
                    }
                };
                let next = trailers_step::<D, T, E>(s, seen);
                (next.0, next.1, data)
            },
        }
    }
}

/// One whole poll of a body in state `s` over such a stream.
pub open spec fn stream_poll<D, T, E>(s: BodyState, data: Seq<D>, trailers: Option<T>, ready: bool) -> (BodyPoll<D, T, E>, BodyState, Seq<D>) {
    follow(start_step::<D, T, E>(s), s, data, trailers, ready, 4)
}

/// The answers of successive polls of a body in state `s` over such a
/// stream, one for each entry of `ready`, which tells whether the stream
/// has its next answer at that poll.
pub open spec fn stream_polls<D, T, E>(s: BodyState, data: Seq<D>, trailers: Option<T>, ready: Seq<bool>) -> Seq<BodyPoll<D, T, E>>
    decreases ready.len(),
{
    if ready.len() == 0 {
        Seq::empty()
    } else {
        let p = stream_poll::<D, T, E>(s, data, trailers, ready[0]);
        seq![p.0].add(stream_polls(p.1, p.2, trailers, ready.drop_first()))
    }
}

/// How many of the first `i` answers of `p` are not `Pending`.
pub open spec fn answered<D, T, E>(p: Seq<BodyPoll<D, T, E>>, i: int) -> nat
    decreases i,
{
    if i <= 0 {
        0
    } else {
        answered(p, i - 1) + if p[i - 1] is Pending {
            0nat
        } else {
            1nat
        }
    }
}

/// The `i`-th answer that a body gives of a stream with the data frames
/// `data` and then the trailers `trailers`: the frames in order, then the
/// trailers if there are any, then the end for ever.
pub open spec fn stream_answer<D, T, E>(data: Seq<D>, trailers: Option<T>, i: int) -> BodyPoll<D, T, E> {
    if i < data.len() {
        BodyPoll::Data(data[i])
    } else if i == data.len() && trailers is Some {
        BodyPoll::Trailers(trailers->0)
    } else {
        BodyPoll::End
    }
}

impl BodyState {
    /// A body on the server side: it has no deadline and no forwarding task.
    pub fn server() -> (r: Self)
        ensures
            !r.data_done && !r.trailers_done && !r.closed,
            !r.has_deadline && !r.watching_forward,
    {
        BodyState {
            data_done: false,
            trailers_done: false,
            closed: false,
            has_deadline: false,
            watching_forward: false,
        }
    }

    /// A response body on the client side.
    pub fn client(has_deadline: bool, watching_forward: bool) -> (r: Self)
        ensures
            !r.data_done && !r.trailers_done && !r.closed,
            r.has_deadline == has_deadline,
            r.watching_forward == watching_forward,
    {
        BodyState { data_done: false, trailers_done: false, closed: false, has_deadline, watching_forward }
    }

    fn look_from<D, T, E>(&self, from: Source) -> (r: BodyStep<D, T, E>)
        ensures
            r == spec_from::<D, T, E>(*self, from),
    {
        let at_deadline = matches!(from, Source::Deadline);
        let at_forward = at_deadline || matches!(from, Source::ForwardError);
        let at_data = at_forward || matches!(from, Source::Data);
        if at_deadline && self.has_deadline {
            BodyStep::Look(Source::Deadline)
        } else if at_forward && self.watching_forward {
            BodyStep::Look(Source::ForwardError)
        } else if at_data && !self.data_done {
            BodyStep::Look(Source::Data)
        } else if !self.trailers_done {
            BodyStep::Look(Source::Trailers)
        } else {
            BodyStep::Answer(BodyPoll::End)
        }
    }

    /// How a poll begins: a closed body is over; any other looks at its
    /// first source.
    pub fn start<D, T, E>(&self) -> (r: BodyStep<D, T, E>)
        ensures
            r == start_step::<D, T, E>(*self),
            self.closed ==> r == BodyStep::<D, T, E>::Answer(BodyPoll::End),
            !self.closed ==> r == spec_from::<D, T, E>(*self, Source::Deadline),
            !self.closed && self.has_deadline ==> r == BodyStep::<D, T, E>::Look(Source::Deadline),
            !self.closed && !self.has_deadline && self.watching_forward ==> r == BodyStep::<
                D,
                T,
                E,
            >::Look(Source::ForwardError),
            !self.closed && !self.has_deadline && !self.watching_forward && !self.data_done ==> r
                == BodyStep::<D, T, E>::Look(Source::Data),
            !self.closed && !self.has_deadline && !self.watching_forward && self.data_done
                && !self.trailers_done ==> r == BodyStep::<D, T, E>::Look(Source::Trailers),
            !self.closed && !self.has_deadline && !self.watching_forward && self.data_done
                && self.trailers_done ==> r == BodyStep::<D, T, E>::Answer(BodyPoll::End),
    {
        if self.closed {
            BodyStep::Answer(BodyPoll::End)
        } else {
            self.look_from(Source::Deadline)
        }
    }

    /// The look at the deadline. Once it has passed the body is closed; the
    /// poll answers with the deadline trailers unless the trailers were
    /// already given.
    pub fn on_deadline<D, T, E>(&mut self, passed: bool) -> (r: BodyStep<D, T, E>)
        ensures
            (r, *final(self)) == deadline_step::<D, T, E>(*old(self), passed),
            grows(*old(self), *final(self)),
            passed ==> {
                &&& final(self).closed
                &&& final(self).trailers_done
                &&& final(self).data_done == old(self).data_done
                &&& final(self).watching_forward == old(self).watching_forward
                &&& r == BodyStep::<D, T, E>::Answer(
                    if old(self).trailers_done {
                        BodyPoll::DeadlineEnd
                    } else {
                        BodyPoll::DeadlineTrailers
                    },
                )
            },
            !passed ==> *final(self) == *old(self) && r == spec_from::<D, T, E>(
                *old(self),
                Source::ForwardError,
            ),
    {
        if passed {
            self.closed = true;
            if self.trailers_done {
                BodyStep::Answer(BodyPoll::DeadlineEnd)
            } else {
                self.trailers_done = true;
                BodyStep::Answer(BodyPoll::DeadlineTrailers)
            }
        } else {
            self.look_from(Source::ForwardError)
        }
    }

    /// The look at the forwarding task's channel. A reported failure is the
    /// answer; once the task has reported or ended, the channel is no longer
    /// watched.
    pub fn on_forward<D, T, E>(&mut self, seen: ForwardWatch<E>) -> (r: BodyStep<D, T, E>)
        ensures
            (r, *final(self)) == forward_step::<D, T, E>(*old(self), seen),
            grows(*old(self), *final(self)),
            final(self).data_done == old(self).data_done,
            final(self).trailers_done == old(self).trailers_done,
            final(self).closed == old(self).closed,
            match seen {
                ForwardWatch::Failed(e) => !final(self).watching_forward
                    && r == BodyStep::<D, T, E>::Answer(BodyPoll::Failed(e)),
                ForwardWatch::Closed => !final(self).watching_forward && r == spec_from::<D, T, E>(
                    *final(self),
                    Source::Data,
                ),
                ForwardWatch::Pending => *final(self) == *old(self) && r == spec_from::<D, T, E>(
                    *old(self),
                    Source::Data,
                ),
            },
    {
        match seen {
            ForwardWatch::Failed(e) => {
                self.watching_forward = false;
                BodyStep::Answer(BodyPoll::Failed(e))
            },
            ForwardWatch::Closed => {
                self.watching_forward = false;
                self.look_from(Source::Data)
            },
            ForwardWatch::Pending => self.look_from(Source::Data),
        }
    }

    /// The look at the data frames. A frame, a failure or nothing-yet is
    /// the answer; when the frames are over the poll goes on to the trailers.
    pub fn on_data<D, T, E>(&mut self, seen: DataPoll<D, E>) -> (r: BodyStep<D, T, E>)
        ensures
            (r, *final(self)) == data_step::<D, T, E>(*old(self), seen),
            grows(*old(self), *final(self)),
            final(self).trailers_done == old(self).trailers_done,
            final(self).closed == old(self).closed,
            final(self).watching_forward == old(self).watching_forward,
            match seen {
                DataPoll::Frame(d) => *final(self) == *old(self) && r == BodyStep::<D, T, E>::Answer(
                    BodyPoll::Data(d),
                ),
                DataPoll::Finished => final(self).data_done && r == spec_from::<D, T, E>(
                    *final(self),
                    Source::Trailers,
                ),
                DataPoll::Failed(e) => *final(self) == *old(self) && r == BodyStep::<
                    D,
                    T,
                    E,
                >::Answer(BodyPoll::Failed(e)),
                DataPoll::Pending => *final(self) == *old(self) && r == BodyStep::<
                    D,
                    T,
                    E,
                >::Answer(BodyPoll::Pending),
            },
    {
        match seen {
            DataPoll::Frame(d) => BodyStep::Answer(BodyPoll::Data(d)),
            DataPoll::Finished => {
                self.data_done = true;
                self.look_from(Source::Trailers)
            },
            DataPoll::Failed(e) => BodyStep::Answer(BodyPoll::Failed(e)),
            DataPoll::Pending => BodyStep::Answer(BodyPoll::Pending),
        }
    }

    /// The look at the trailers. Trailers, their absence and a failure each
    /// mark the trailers done.
    pub fn on_trailers<D, T, E>(&mut self, seen: TrailersPoll<T, E>) -> (r: BodyPoll<D, T, E>)
        ensures
            (r, *final(self)) == trailers_step::<D, T, E>(*old(self), seen),
            grows(*old(self), *final(self)),
            final(self).data_done == old(self).data_done,
            final(self).closed == old(self).closed,
            final(self).watching_forward == old(self).watching_forward,
            match seen {
                TrailersPoll::Trailers(t) => final(self).trailers_done && r == BodyPoll::<
                    D,
                    T,
                    E,
                >::Trailers(t),
                TrailersPoll::Absent => final(self).trailers_done && r == BodyPoll::<D, T, E>::End,
                TrailersPoll::Failed(e) => final(self).trailers_done && r == BodyPoll::<
                    D,
                    T,
                    E,
                >::Failed(e),
                TrailersPoll::Pending => *final(self) == *old(self) && r == BodyPoll::<
                    D,
                    T,
                    E,
                >::Pending,
            },
    {
        match seen {
            TrailersPoll::Trailers(t) => {
                self.trailers_done = true;
                BodyPoll::Trailers(t)
            },
            TrailersPoll::Absent => {
                self.trailers_done = true;
                BodyPoll::End
            },
            TrailersPoll::Failed(e) => {
                self.trailers_done = true;
                BodyPoll::Failed(e)
            },
            TrailersPoll::Pending => BodyPoll::Pending,
        }
    }
}

/// The trailers that a body answers with when the call's deadline passes:
/// `grpc-status: 4` (deadline exceeded) and `grpc-message: deadline
/// exceeded`.
pub fn deadline_trailers() -> (r: Vec<(&'static str, &'static str)>)
    ensures
        r@.len() == 2,
        r@[0].0@ == "grpc-status"@ && r@[0].1@ == "4"@,
        r@[1].0@ == "grpc-message"@ && r@[1].1@ == "deadline exceeded"@,
{
    vec![("grpc-status", "4"), ("grpc-message", "deadline exceeded")]
}

} // verus!

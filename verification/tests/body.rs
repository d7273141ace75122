use grpc_quic::body::{
    deadline_trailers, BodyPoll, BodyState, BodyStep, DataPoll, ForwardWatch, Source, TrailersPoll,
};

type Step = BodyStep<&'static str, &'static str, &'static str>;
type Answer = BodyPoll<&'static str, &'static str, &'static str>;

fn looks_at(step: &Step) -> Option<&'static str> {
    match step {
        BodyStep::Look(Source::Deadline) => Some("deadline"),
        BodyStep::Look(Source::ForwardError) => Some("forward"),
        BodyStep::Look(Source::Data) => Some("data"),
        BodyStep::Look(Source::Trailers) => Some("trailers"),
        BodyStep::Answer(_) => None,
    }
}

#[test]
fn server_body_yields_data_then_trailers_then_end() {
    let mut s = BodyState::server();
    let step: Step = s.start();
    assert_eq!(looks_at(&step), Some("data"));
    assert!(matches!(s.on_data::<&str, &str, &str>(DataPoll::Frame("chunk")), BodyStep::Answer(BodyPoll::Data("chunk"))));
    let step: Step = s.on_data(DataPoll::Finished);
    assert_eq!(looks_at(&step), Some("trailers"));
    let answer: Answer = s.on_trailers(TrailersPoll::Trailers("grpc-status: 0"));
    assert!(matches!(answer, BodyPoll::Trailers("grpc-status: 0")));
    let step: Step = s.start();
    assert!(matches!(step, BodyStep::Answer(BodyPoll::End)));
}

#[test]
fn body_without_trailers_ends() {
    let mut s = BodyState::server();
    let _: Step = s.on_data(DataPoll::Finished);
    let answer: Answer = s.on_trailers(TrailersPoll::Absent);
    assert!(matches!(answer, BodyPoll::End));
    assert!(s.data_done && s.trailers_done);
}

#[test]
fn data_failure_does_not_end_the_data() {
    let mut s = BodyState::server();
    let step: Step = s.on_data(DataPoll::Failed("reset"));
    assert!(matches!(step, BodyStep::Answer(BodyPoll::Failed("reset"))));
    assert!(!s.data_done);
    let step: Step = s.on_data(DataPoll::Pending);
    assert!(matches!(step, BodyStep::Answer(BodyPoll::Pending)));
}

#[test]
fn deadline_gives_status_four_trailers_once_then_closes() {
    let mut s = BodyState::client(true, true);
    let step: Step = s.start();
    assert_eq!(looks_at(&step), Some("deadline"));
    let step: Step = s.on_deadline(true);
    assert!(matches!(step, BodyStep::Answer(BodyPoll::DeadlineTrailers)));
    assert!(s.closed && s.trailers_done);
    let step: Step = s.start();
    assert!(matches!(step, BodyStep::Answer(BodyPoll::End)));
}

#[test]
fn deadline_after_trailers_only_ends() {
    let mut s = BodyState::client(true, false);
    let _: Step = s.on_data(DataPoll::Finished);
    let _: Answer = s.on_trailers(TrailersPoll::Trailers("t"));
    let step: Step = s.on_deadline(true);
    assert!(matches!(step, BodyStep::Answer(BodyPoll::DeadlineEnd)));
}

#[test]
fn forwarding_failure_is_reported_once() {
    let mut s = BodyState::client(false, true);
    let step: Step = s.start();
    assert_eq!(looks_at(&step), Some("forward"));
    let step: Step = s.on_forward(ForwardWatch::Failed("send failed"));
    assert!(matches!(step, BodyStep::Answer(BodyPoll::Failed("send failed"))));
    let step: Step = s.start();
    assert_eq!(looks_at(&step), Some("data"));
}

#[test]
fn quiet_forwarding_channel_passes_on_to_data() {
    let mut s = BodyState::client(true, true);
    let step: Step = s.on_deadline(false);
    assert_eq!(looks_at(&step), Some("forward"));
    let step: Step = s.on_forward(ForwardWatch::Pending);
    assert_eq!(looks_at(&step), Some("data"));
    assert!(s.watching_forward);
    let step: Step = s.on_forward(ForwardWatch::Closed);
    assert_eq!(looks_at(&step), Some("data"));
    assert!(!s.watching_forward);
}

#[test]
fn deadline_trailers_say_deadline_exceeded() {
    assert_eq!(deadline_trailers(), vec![("grpc-status", "4"), ("grpc-message", "deadline exceeded")]);
}

/// One poll of `state` over a stream that answers every look at once, with
/// a deadline that does not pass and a forwarding task that reports nothing.
fn quiet_poll(state: &mut BodyState, data: &mut Vec<&'static str>, trailers: Option<&'static str>) -> Answer {
    let mut step: Step = state.start();
    loop {
        step = match step {
            BodyStep::Answer(a) => return a,
            BodyStep::Look(Source::Deadline) => state.on_deadline(false),
            BodyStep::Look(Source::ForwardError) => state.on_forward(ForwardWatch::Pending),
            BodyStep::Look(Source::Data) => {
                if data.is_empty() {
                    state.on_data(DataPoll::Finished)
                } else {
                    state.on_data(DataPoll::Frame(data.remove(0)))
                }
            }
            BodyStep::Look(Source::Trailers) => {
                let seen = match trailers {
                    Some(t) => TrailersPoll::Trailers(t),
                    None => TrailersPoll::Absent,
                };
                return state.on_trailers(seen);
            }
        };
    }
}

fn answer_text(a: Answer) -> String {
    match a {
        BodyPoll::Pending => "pending".to_string(),
        BodyPoll::Data(d) => format!("data {d}"),
        BodyPoll::Trailers(t) => format!("trailers {t}"),
        BodyPoll::Failed(e) => format!("failed {e}"),
        BodyPoll::End => "end".to_string(),
        BodyPoll::DeadlineTrailers => "deadline trailers".to_string(),
        BodyPoll::DeadlineEnd => "deadline end".to_string(),
    }
}

#[test]
fn client_body_yields_the_stream_in_order_then_ends_for_ever() {
    let mut state = BodyState::client(true, true);
    let mut data = vec!["a", "b", "c"];
    let answers: Vec<String> =
        (0..6).map(|_| answer_text(quiet_poll(&mut state, &mut data, Some("grpc-status: 0")))).collect();
    assert_eq!(answers, vec!["data a", "data b", "data c", "trailers grpc-status: 0", "end", "end"]);
    let mut server = BodyState::server();
    let mut none = vec![];
    assert_eq!(answer_text(quiet_poll(&mut server, &mut none, None)), "end");
    assert_eq!(answer_text(quiet_poll(&mut server, &mut none, None)), "end");
}

/// One poll over a stream that may have nothing ready yet.
fn poll_when(state: &mut BodyState, data: &mut Vec<&'static str>, trailers: Option<&'static str>, ready: bool) -> Answer {
    let mut step: Step = state.start();
    loop {
        step = match step {
            BodyStep::Answer(a) => return a,
            BodyStep::Look(Source::Deadline) => state.on_deadline(false),
            BodyStep::Look(Source::ForwardError) => state.on_forward(ForwardWatch::Pending),
            BodyStep::Look(Source::Data) => {
                if !ready {
                    state.on_data(DataPoll::Pending)
                } else if data.is_empty() {
                    state.on_data(DataPoll::Finished)
                } else {
                    state.on_data(DataPoll::Frame(data.remove(0)))
                }
            }
            BodyStep::Look(Source::Trailers) => {
                let seen = match (ready, trailers) {
                    (false, _) => TrailersPoll::Pending,
                    (true, Some(t)) => TrailersPoll::Trailers(t),
                    (true, None) => TrailersPoll::Absent,
                };
                return state.on_trailers(seen);
            }
        };
    }
}

#[test]
fn polls_that_find_nothing_ready_keep_the_stream_in_order() {
    let mut state = BodyState::client(true, false);
    let mut data = vec!["a", "b"];
    let ready = [false, true, false, false, true, false, true, false, true];
    let answers: Vec<String> =
        ready.iter().map(|r| answer_text(poll_when(&mut state, &mut data, Some("t"), *r))).collect();
    assert_eq!(
        answers,
        vec!["pending", "data a", "pending", "pending", "data b", "pending", "trailers t", "end", "end"]
    );
}

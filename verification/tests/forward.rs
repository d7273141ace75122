use grpc_quic::forward::{request_action, ForwardAction, ForwardEvent, ResponseForwarding};

type Event = ForwardEvent<Vec<u8>, Vec<(String, String)>, String>;
type Action = ForwardAction<Vec<u8>, Vec<(String, String)>, String>;

fn trailers() -> Vec<(String, String)> {
    vec![("grpc-status".to_string(), "0".to_string())]
}

#[test]
fn client_forwarding_finishes_only_at_the_end() {
    assert_eq!(as_text(request_action(Event::Data(vec![0, 0, 0, 0, 1, 42]))), "data [0, 0, 0, 0, 1, 42]");
    assert_eq!(as_text(request_action(Event::Trailers(trailers()))), "trailers [(\"grpc-status\", \"0\")]");
    assert_eq!(as_text(request_action(Event::OtherFrame)), "skip");
    assert_eq!(as_text(request_action(Event::BodyFailed("reset".to_string()))), "report reset");
    assert_eq!(as_text(request_action(Event::SendFailed("closed".to_string()))), "report closed");
    assert_eq!(as_text(request_action(Event::BodyEnded)), "finish");
}

fn as_text(a: Action) -> String {
    match a {
        ForwardAction::SendData(d) => format!("data {d:?}"),
        ForwardAction::SendTrailersAndStop(t) => format!("trailers {t:?}"),
        ForwardAction::Skip => "skip".to_string(),
        ForwardAction::FinishAndStop => "finish".to_string(),
        ForwardAction::ReportAndStop(e) => format!("report {e}"),
        ForwardAction::Stop => "stop".to_string(),
    }
}

#[test]
fn server_forwarding_finishes_empty_body_without_finish() {
    let mut f = ResponseForwarding::new();
    assert_eq!(as_text(f.step(Event::BodyEnded)), "stop");
}

#[test]
fn server_forwarding_finishes_after_data() {
    let mut f = ResponseForwarding::new();
    assert_eq!(as_text(f.step(Event::Data(b"hello".to_vec()))), "data [104, 101, 108, 108, 111]");
    assert!(f.data_frame_received);
    assert_eq!(as_text(f.step(Event::OtherFrame)), "skip");
    assert_eq!(as_text(f.step(Event::BodyEnded)), "finish");
}

#[test]
fn server_forwarding_trailers_close_without_finish() {
    let mut f = ResponseForwarding::new();
    assert_eq!(as_text(f.step(Event::Data(vec![7]))), "data [7]");
    assert_eq!(as_text(f.step(Event::Trailers(trailers()))), "trailers [(\"grpc-status\", \"0\")]");
}

#[test]
fn server_forwarding_finishes_after_failures() {
    let mut f = ResponseForwarding::new();
    assert_eq!(as_text(f.step(Event::BodyFailed("boom".to_string()))), "finish");
    assert!(!f.data_frame_received);
    let mut g = ResponseForwarding::new();
    assert_eq!(as_text(g.step(Event::SendFailed("reset".to_string()))), "finish");
}

#[test]
fn forwarded_payload_is_the_payload_read() {
    let payload: Vec<u8> = (0..=255).collect();
    match request_action::<Vec<u8>, (), ()>(ForwardEvent::Data(payload.clone())) {
        ForwardAction::SendData(sent) => assert_eq!(sent, payload),
        _ => panic!("a data frame is sent"),
    }
    let mut f = ResponseForwarding::new();
    match f.step::<Vec<u8>, (), ()>(ForwardEvent::Data(payload.clone())) {
        ForwardAction::SendData(sent) => assert_eq!(sent, payload),
        _ => panic!("a data frame is sent"),
    }
}

use eform::hub::{Hub, RecvOutcome};
use eform::response::Response;
use eform::session::{step, SessionState, StreamAction, StreamEvent};

fn resp(id: &str, form: &str) -> Response {
    Response {
        _id: String::from(id),
        responder: String::from("u1"),
        form: String::from(form),
        answers: Vec::new(),
        created_at: 0,
    }
}

fn expect_message(hub: &Hub, rx: &mut eform::hub::Receiver) -> Response {
    match hub.recv(rx) {
        RecvOutcome::Message(m) => m.clone(),
        other => panic!("expected a message, got {:?}", outcome_name(&other)),
    }
}

fn outcome_name(o: &RecvOutcome) -> &'static str {
    match o {
        RecvOutcome::Message(_) => "Message",
        RecvOutcome::Lagged(_) => "Lagged",
        RecvOutcome::Empty => "Empty",
        RecvOutcome::Closed => "Closed",
    }
}

#[test]
fn subscribe_sees_no_history() {
    let mut hub = Hub::new(1024);
    hub.publish(resp("r1", "f1"));
    let mut rx = hub.subscribe();
    hub.publish(resp("r2", "f1"));
    let m = expect_message(&hub, &mut rx);
    assert_eq!(m._id, "r2");
    assert!(matches!(hub.recv(&mut rx), RecvOutcome::Empty));
}

#[test]
fn publish_reaches_every_subscriber() {
    let mut hub = Hub::new(1024);
    let mut rx1 = hub.subscribe();
    let mut rx2 = hub.subscribe();
    let mut rx3 = hub.subscribe();
    hub.publish(resp("r1", "f1"));

    for rx in [&mut rx1, &mut rx2, &mut rx3] {
        let m = expect_message(&hub, rx);
        assert_eq!(m._id, "r1");
        assert!(matches!(hub.recv(rx), RecvOutcome::Empty));
    }
}

#[test]
fn sessions_filter_by_form() {
    let mut hub = Hub::new(1024);
    let mut rx1 = hub.subscribe();
    let mut rx2 = hub.subscribe();
    hub.publish(resp("r1", "f1"));

    // The session watching f1 forwards the response.
    let m1 = expect_message(&hub, &mut rx1);
    let s1 = SessionState::Streaming { form: String::from("f1") };
    match step(s1, StreamEvent::Message(m1)) {
        (SessionState::Streaming { form }, StreamAction::Forward(m)) => {
            assert_eq!(form, "f1");
            assert_eq!(m._id, "r1");
        },
        _ => panic!("expected the matching session to forward"),
    }

    // The session watching f2 discards it and keeps waiting.
    let m2 = expect_message(&hub, &mut rx2);
    match step(SessionState::Streaming { form: String::from("f2") }, StreamEvent::Message(m2)) {
        (SessionState::Streaming { form }, StreamAction::Continue) => {
            assert_eq!(form, "f2");
        },
        _ => panic!("expected the other session to discard"),
    }
}

#[test]
fn lag_is_survivable() {
    let mut hub = Hub::new(2);
    let mut rx = hub.subscribe();
    hub.publish(resp("r1", "f1"));
    hub.publish(resp("r2", "f1"));
    hub.publish(resp("r3", "f1"));

    // r1 was dropped for this subscriber: a lag signal names one lost
    // message, and the session treats it as "keep going".
    match hub.recv(&mut rx) {
        RecvOutcome::Lagged(n) => assert_eq!(n, 1),
        _ => panic!("expected a lag signal"),
    }
    let streaming = SessionState::Streaming { form: String::from("f1") };
    match step(streaming, StreamEvent::Lagged) {
        (SessionState::Streaming { .. }, StreamAction::Continue) => {},
        _ => panic!("a lag signal must not terminate the session"),
    }

    // The retained messages still arrive, in order, and so does
    // anything published afterwards.
    assert_eq!(expect_message(&hub, &mut rx)._id, "r2");
    assert_eq!(expect_message(&hub, &mut rx)._id, "r3");
    assert!(matches!(hub.recv(&mut rx), RecvOutcome::Empty));
    hub.publish(resp("r4", "f1"));
    assert_eq!(expect_message(&hub, &mut rx)._id, "r4");
}

#[test]
fn closed_hub_ends_the_session() {
    let mut hub = Hub::new(8);
    let mut rx = hub.subscribe();
    hub.publish(resp("r1", "f1"));
    hub.close();

    // Pending messages drain first, then the closed state shows.
    assert_eq!(expect_message(&hub, &mut rx)._id, "r1");
    assert!(matches!(hub.recv(&mut rx), RecvOutcome::Closed));

    let streaming = SessionState::Streaming { form: String::from("f1") };
    match step(streaming, StreamEvent::Closed) {
        (SessionState::Terminated, StreamAction::Stop) => {},
        _ => panic!("hub closure must terminate the session"),
    }
}

#[test]
fn shutdown_terminates_in_one_step() {
    let streaming = SessionState::Streaming { form: String::from("f1") };
    match step(streaming, StreamEvent::Shutdown) {
        (SessionState::Terminated, StreamAction::Stop) => {},
        _ => panic!("shutdown must terminate the session in one step"),
    }

    // A terminated session delivers nothing further.
    match step(SessionState::Terminated, StreamEvent::Message(resp("r9", "f1"))) {
        (SessionState::Terminated, StreamAction::Stop) => {},
        _ => panic!("a terminated session must stay terminated"),
    }
}

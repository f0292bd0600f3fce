use eform::error::ApiError;
use eform::form::{Form, FormState, Question, QuestionType};
use eform::hub::{Hub, RecvOutcome};
use eform::response::prepare_response;
use eform::session::{init_session, step, SessionState, StreamAction, StreamEvent};
use eform::validate::{Answer, ResponseData, ValidationError};

fn survey() -> Form {
    Form {
        _id: String::from("63d1eb130d6b861224602a68"),
        owner: String::from("63d3df1e99677d2661245b5c"),
        title: String::from("TEST FORM"),
        description: String::from("end to end"),
        state: FormState::Public,
        questions: vec![
            Question {
                number: 1,
                text: String::from("Hello"),
                kind: QuestionType::TextAnswer,
                options: None,
            },
            Question {
                number: 2,
                text: String::from("Pick some"),
                kind: QuestionType::Checkboxes,
                options: Some(vec![String::from("A"), String::from("B")]),
            },
        ],
        created_at: 0,
    }
}

#[test]
fn submission_missing_checkbox_selection_is_a_422() {
    let form = survey();
    let data = ResponseData {
        answers: vec![
            Answer { number: 1, input: Some(String::from("hi")), selected_options: None },
            Answer { number: 2, input: None, selected_options: None },
        ],
    };
    let err = prepare_response(&form, "responder-1", data).expect_err("must be rejected");
    match &err {
        ApiError::Validation(v) => {
            assert_eq!(*v, ValidationError::MissingInput { number: 2 });
        },
        other => panic!("expected a validation failure, got {:?}", other),
    }
    assert_eq!(err.status_code(), 422);
}

#[test]
fn accepted_submission_reaches_the_owner_stream_once() {
    let form = survey();

    // The owner opens a live stream; a stranger may not.
    assert_eq!(
        init_session(&form, "someone-else").err(),
        Some(ApiError::Forbidden)
    );
    let session = init_session(&form, "63d3df1e99677d2661245b5c").expect("owner may stream");

    let mut hub = Hub::new(1024);
    let mut rx = hub.subscribe();

    // A valid submission is accepted and broadcast.
    let data = ResponseData {
        answers: vec![
            Answer { number: 1, input: Some(String::from("hi")), selected_options: None },
            Answer { number: 2, input: None, selected_options: Some(vec![String::from("A")]) },
        ],
    };
    let response = prepare_response(&form, "responder-1", data).expect("must be accepted");
    assert_eq!(response.form, form._id);
    assert_eq!(response.responder, "responder-1");
    assert_eq!(response._id.len(), 24);
    let response_id = response._id.clone();

    hub.publish(response);

    // The owner's session receives exactly one event, carrying the
    // persisted response's id, and then nothing more is pending.
    let delivered = match hub.recv(&mut rx) {
        RecvOutcome::Message(m) => m.clone(),
        _ => panic!("the subscribed session must receive the response"),
    };
    let (session, action) = step(session, StreamEvent::Message(delivered));
    match action {
        StreamAction::Forward(m) => assert_eq!(m._id, response_id),
        _ => panic!("the owner's session must forward the response"),
    }
    assert!(matches!(session, SessionState::Streaming { .. }));
    assert!(matches!(hub.recv(&mut rx), RecvOutcome::Empty));

    // A session for a different form would have discarded it.
    let other = SessionState::Streaming { form: String::from("ffffffffffffffffffffffff") };
    let mut rx2 = hub.subscribe();
    hub.publish(another_submission(&form, "second"));
    let delivered2 = match hub.recv(&mut rx2) {
        RecvOutcome::Message(m) => m.clone(),
        _ => panic!("the second subscriber must receive the response"),
    };
    match step(other, StreamEvent::Message(delivered2)) {
        (SessionState::Streaming { .. }, StreamAction::Continue) => {},
        _ => panic!("a session for a different form must discard"),
    }
}

fn another_submission(form: &Form, responder: &str) -> eform::response::Response {
    let data = ResponseData {
        answers: vec![
            Answer { number: 1, input: Some(String::from("again")), selected_options: None },
            Answer { number: 2, input: None, selected_options: Some(vec![String::from("B")]) },
        ],
    };
    prepare_response(form, responder, data).expect("must be accepted")
}

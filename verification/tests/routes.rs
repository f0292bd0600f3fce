use eform::account::{login_decision, register_decision, validate_email, LoginData, RegisterData};
use eform::auth_token::{bearer_token, make_claims};
use eform::chart::{chart_summary, QuestionSummary};
use eform::error::ApiError;
use eform::form::{
    anon_view_access, new_form, owner_access, sanitize_questions, view_access, Form, FormData,
    FormState, Question, QuestionType, ViewerRole,
};
use eform::ids::object_id_from_string;
use eform::response::Response;
use eform::template::{template_summary, Template};
use eform::validate::Answer;

fn sample_form(owner: &str, state: FormState) -> Form {
    Form {
        _id: String::from("63d1eb130d6b861224602a68"),
        owner: String::from(owner),
        title: String::from("TEST FORM"),
        description: String::from("a form"),
        state,
        questions: Vec::new(),
        created_at: 0,
    }
}

#[test]
fn owner_check_guards_owner_routes() {
    let form = sample_form("alice", FormState::Public);
    assert_eq!(owner_access(&form, "alice"), Ok(()));
    let denied = owner_access(&form, "mallory");
    assert_eq!(denied, Err(ApiError::Forbidden));
    assert_eq!(ApiError::Forbidden.status_code(), 403);
}

#[test]
fn private_forms_are_owner_only() {
    let form = sample_form("alice", FormState::Private);
    assert_eq!(view_access(&form, "alice"), Ok(ViewerRole::Owner));
    assert_eq!(view_access(&form, "bob"), Err(ApiError::Forbidden));

    let public = sample_form("alice", FormState::Public);
    assert_eq!(view_access(&public, "bob"), Ok(ViewerRole::Responder));
    assert_eq!(view_access(&public, "alice"), Ok(ViewerRole::Owner));
}

#[test]
fn anonymous_access_needs_anonymous_state() {
    assert_eq!(anon_view_access(&sample_form("a", FormState::Anonymous)), Ok(()));
    assert_eq!(
        anon_view_access(&sample_form("a", FormState::Public)),
        Err(ApiError::Unauthorized)
    );
    assert_eq!(ApiError::Unauthorized.status_code(), 401);
}

#[test]
fn stored_questions_lose_unused_options() {
    let questions = vec![
        Question {
            number: 1,
            text: String::from("free"),
            kind: QuestionType::TextAnswer,
            options: Some(vec![String::from("junk")]),
        },
        Question {
            number: 2,
            text: String::from("pick"),
            kind: QuestionType::MultipleChoice,
            options: Some(vec![String::from("Choice 1"), String::from("Choice 2")]),
        },
        Question {
            number: 3,
            text: String::from("when"),
            kind: QuestionType::Date,
            options: Some(vec![String::from("junk")]),
        },
        Question {
            number: 4,
            text: String::from("at"),
            kind: QuestionType::Time,
            options: Some(vec![String::from("junk")]),
        },
    ];
    let cleaned = sanitize_questions(&questions);
    assert_eq!(cleaned[0].options, None);
    assert_eq!(
        cleaned[1].options,
        Some(vec![String::from("Choice 1"), String::from("Choice 2")])
    );
    assert_eq!(cleaned[2].options, None);
    assert_eq!(cleaned[3].options, None);

    let form = new_form(
        String::from("63d1eb130d6b861224602a68"),
        String::from("alice"),
        FormData {
            title: String::from("t"),
            description: String::from("d"),
            state: FormState::Private,
            questions,
        },
        77,
    );
    assert_eq!(form.owner, "alice");
    assert_eq!(form.created_at, 77);
    assert_eq!(form.questions[0].options, None);
}

#[test]
fn object_ids_are_24_hex_digits() {
    assert!(object_id_from_string("63d1eb130d6b861224602a68").is_ok());
    assert!(object_id_from_string("63D1EB130D6B861224602A68").is_ok());
    assert_eq!(object_id_from_string("not-an-id").err(), Some(ApiError::NotFound));
    assert_eq!(object_id_from_string("63d1eb130d6b861224602a6").err(), Some(ApiError::NotFound));
    assert_eq!(
        object_id_from_string("63d1eb130d6b861224602a6z").err(),
        Some(ApiError::NotFound)
    );
    assert_eq!(ApiError::NotFound.status_code(), 404);
    assert_eq!(ApiError::Internal.status_code(), 500);
}

#[test]
fn email_rule_examples() {
    assert!(validate_email("milize_test@example.com"));
    assert!(validate_email("a+b@sub.example.org"));
    assert!(!validate_email("example.com"));
    assert!(!validate_email("test@123"));
    assert!(!validate_email("yoru @ ni . kakeru"));
}

#[test]
fn registration_hashes_and_guards() {
    let data = RegisterData {
        username: String::from("milize"),
        email: String::from("milize_test@example.com"),
        password: String::from("hello"),
    };

    let user = register_decision(&data, false).expect("registration should succeed");
    assert_eq!(user.email, "milize_test@example.com");
    assert_eq!(user.username, "milize");
    // The stored password is a digest, never the password itself.
    assert_ne!(user.password, "hello");
    assert_eq!(user.password.len(), 128);
    assert!(user.password.chars().all(|c| c.is_ascii_hexdigit()));
    assert_eq!(user._id.len(), 24);
    assert!(user._id.chars().all(|c| c.is_ascii_hexdigit()));

    // The digest is a function of the password alone.
    let again = register_decision(&data, false).expect("registration should succeed");
    assert_eq!(user.password, again.password);

    assert_eq!(register_decision(&data, true).err(), Some(ApiError::Conflict));
    assert_eq!(ApiError::Conflict.status_code(), 409);

    let bad_email = RegisterData {
        username: String::from("milize"),
        email: String::from("example.com"),
        password: String::from("hello"),
    };
    assert_eq!(register_decision(&bad_email, false).err(), Some(ApiError::MalformedEmail));
    assert_eq!(ApiError::MalformedEmail.status_code(), 422);
}

#[test]
fn empty_password_digest_is_the_known_sha512_value() {
    let data = RegisterData {
        username: String::from("u"),
        email: String::from("user@example.com"),
        password: String::new(),
    };
    let user = register_decision(&data, false).expect("registration should succeed");
    assert_eq!(
        user.password,
        "CF83E1357EEFB8BDF1542850D66D8007D620E4050B5715DC83F4A921D36CE9CE\
         47D0D13C5D85F2B0FF8318D2877EEC2F63B931BD47417A81A538327AF927DA3E"
    );
}

#[test]
fn login_follows_the_stored_digest() {
    let data = RegisterData {
        username: String::from("milize"),
        email: String::from("milize_test@example.com"),
        password: String::from("hello"),
    };
    let user = register_decision(&data, false).expect("registration should succeed");

    let good = LoginData {
        email: String::from("milize_test@example.com"),
        password: String::from("hello"),
    };
    assert_eq!(login_decision(&good, Some(&user)), Ok(user._id.clone()));

    let wrong = LoginData {
        email: String::from("milize_test@example.com"),
        password: String::from("wrong"),
    };
    assert_eq!(login_decision(&wrong, Some(&user)).err(), Some(ApiError::Unauthorized));

    assert_eq!(login_decision(&good, None).err(), Some(ApiError::NotFound));

    let malformed = LoginData { email: String::from("nope"), password: String::from("hello") };
    assert_eq!(login_decision(&malformed, Some(&user)).err(), Some(ApiError::MalformedEmail));
}

#[test]
fn bearer_scheme_is_stripped() {
    assert_eq!(bearer_token("Bearer abc.def.ghi"), "abc.def.ghi");
    assert_eq!(bearer_token("abc"), "abc");
    assert_eq!(bearer_token("Bearer Bearer x"), "x");
    assert_eq!(bearer_token("xBearer y"), "xy");
    assert_eq!(bearer_token(""), "");
    assert_eq!(bearer_token("Bearer"), "Bearer");
}

#[test]
fn claims_expire_two_hours_later() {
    let claims = make_claims("63d3df1e99677d2661245b5c", 1_000_000);
    assert_eq!(claims.exp, 1_000_000 + 7200);
    assert_eq!(claims.sub, "63d3df1e99677d2661245b5c");
}

#[test]
fn template_listing_projects_three_fields() {
    let t = Template {
        _id: String::from("63cf52e3c0ed8d6217cbb98f"),
        title: String::from("Survey"),
        description: String::from("long text"),
        questions: Vec::new(),
        thumbnail_string: Some(String::from("data:image/png;base64,xyz")),
    };
    let s = template_summary(&t);
    assert_eq!(s._id, t._id);
    assert_eq!(s.title, t.title);
    assert_eq!(s.thumbnail_string, Some(String::from("data:image/png;base64,xyz")));

    let bare = Template { thumbnail_string: None, ..t };
    assert_eq!(template_summary(&bare).thumbnail_string, None);
}

fn count_of(chart: &[QuestionSummary], number: u32, value: &str) -> Option<usize> {
    chart
        .iter()
        .find(|entry| entry.number == number)
        .and_then(|entry| entry.counts.iter().find(|vc| vc.value == value))
        .map(|vc| vc.count)
}

#[test]
fn chart_counts_inputs_and_selections() {
    let r1 = Response {
        _id: String::from("a1"),
        responder: String::from("u1"),
        form: String::from("f1"),
        answers: vec![
            Answer { number: 1, input: Some(String::from("A")), selected_options: None },
            Answer {
                number: 2,
                input: None,
                selected_options: Some(vec![String::from("X"), String::from("Y")]),
            },
        ],
        created_at: 0,
    };
    let r2 = Response {
        _id: String::from("a2"),
        responder: String::from("u2"),
        form: String::from("f1"),
        answers: vec![
            Answer { number: 1, input: Some(String::from("A")), selected_options: None },
            Answer {
                number: 2,
                input: None,
                selected_options: Some(vec![String::from("X"), String::from("X")]),
            },
        ],
        created_at: 0,
    };
    let chart = chart_summary(&vec![r1, r2]);
    assert_eq!(count_of(&chart, 1, "A"), Some(2));
    assert_eq!(count_of(&chart, 2, "X"), Some(3));
    assert_eq!(count_of(&chart, 2, "Y"), Some(1));
    assert_eq!(count_of(&chart, 2, "Z"), None);
    assert_eq!(count_of(&chart, 3, "A"), None);
}

#[test]
fn chart_prefers_input_over_selections() {
    // An answer that carries both an input and selections counts only
    // its input.
    let r = Response {
        _id: String::from("a1"),
        responder: String::from("u1"),
        form: String::from("f1"),
        answers: vec![Answer {
            number: 1,
            input: Some(String::from("A")),
            selected_options: Some(vec![String::from("B")]),
        }],
        created_at: 0,
    };
    let chart = chart_summary(&vec![r]);
    assert_eq!(count_of(&chart, 1, "A"), Some(1));
    assert_eq!(count_of(&chart, 1, "B"), None);
}

#[test]
fn chart_of_nothing_is_empty() {
    let chart = chart_summary(&Vec::new());
    assert!(chart.is_empty());

    // Answers with neither input nor selections contribute nothing.
    let r = Response {
        _id: String::from("a1"),
        responder: String::from("u1"),
        form: String::from("f1"),
        answers: vec![Answer { number: 1, input: None, selected_options: None }],
        created_at: 0,
    };
    assert!(chart_summary(&vec![r]).is_empty());
}

use eform::form::{Question, QuestionType};
use eform::validate::{validate_answers, Answer, ValidationError};

fn q(number: u32, kind: QuestionType, options: Option<Vec<&str>>) -> Question {
    Question {
        number,
        text: String::from("q"),
        kind,
        options: options.map(|opts| opts.into_iter().map(String::from).collect()),
    }
}

fn input_answer(number: u32, input: &str) -> Answer {
    Answer { number, input: Some(String::from(input)), selected_options: None }
}

fn checkbox_answer(number: u32, selected: Vec<&str>) -> Answer {
    Answer {
        number,
        input: None,
        selected_options: Some(selected.into_iter().map(String::from).collect()),
    }
}

#[test]
fn date_rule_examples() {
    let questions = vec![q(1, QuestionType::Date, None)];

    let ok = validate_answers(&questions, &vec![input_answer(1, "2024/01/15")]);
    assert_eq!(ok, Ok(()));

    let month = validate_answers(&questions, &vec![input_answer(1, "2024/13/01")]);
    assert_eq!(
        month,
        Err(ValidationError::MonthRange { number: 1, input: String::from("2024/13/01") })
    );

    let day = validate_answers(&questions, &vec![input_answer(1, "2024/1/32")]);
    assert_eq!(
        day,
        Err(ValidationError::DayRange { number: 1, input: String::from("2024/1/32") })
    );

    let format = validate_answers(&questions, &vec![input_answer(1, "2024-01-15")]);
    assert_eq!(
        format,
        Err(ValidationError::DateFormat { number: 1, input: String::from("2024-01-15") })
    );
}

#[test]
fn date_rule_details() {
    let questions = vec![q(1, QuestionType::Date, None)];

    // Single-digit parts parse; the calendar itself is not checked.
    assert_eq!(validate_answers(&questions, &vec![input_answer(1, "2024/2/30")]), Ok(()));
    // A leading plus sign parses the way `str::parse::<u32>` does.
    assert_eq!(validate_answers(&questions, &vec![input_answer(1, "2024/+1/15")]), Ok(()));
    // Empty or non-numeric parts are format failures.
    assert_eq!(
        validate_answers(&questions, &vec![input_answer(1, "2024//15")]),
        Err(ValidationError::DateFormat { number: 1, input: String::from("2024//15") })
    );
    assert_eq!(
        validate_answers(&questions, &vec![input_answer(1, "y/01/15")]),
        Err(ValidationError::DateFormat { number: 1, input: String::from("y/01/15") })
    );
    // A year beyond u32 does not parse.
    assert_eq!(
        validate_answers(&questions, &vec![input_answer(1, "99999999999/01/15")]),
        Err(ValidationError::DateFormat {
            number: 1,
            input: String::from("99999999999/01/15"),
        })
    );
    // A missing date input is rejected, not accepted.
    let missing = validate_answers(
        &questions,
        &vec![Answer { number: 1, input: None, selected_options: None }],
    );
    assert_eq!(missing, Err(ValidationError::MissingInput { number: 1 }));
}

#[test]
fn time_rule_examples() {
    let questions = vec![q(1, QuestionType::Time, None)];

    assert_eq!(validate_answers(&questions, &vec![input_answer(1, "23:59")]), Ok(()));
    assert_eq!(
        validate_answers(&questions, &vec![input_answer(1, "24:00")]),
        Err(ValidationError::HourRange { number: 1, input: String::from("24:00") })
    );
    assert_eq!(
        validate_answers(&questions, &vec![input_answer(1, "12:60")]),
        Err(ValidationError::MinuteRange { number: 1, input: String::from("12:60") })
    );
    assert_eq!(
        validate_answers(&questions, &vec![input_answer(1, "12.30")]),
        Err(ValidationError::TimeFormat { number: 1, input: String::from("12.30") })
    );
    assert_eq!(validate_answers(&questions, &vec![input_answer(1, "0:0")]), Ok(()));
}

#[test]
fn checkbox_rule_examples() {
    let questions = vec![q(1, QuestionType::Checkboxes, Some(vec!["A", "B"]))];

    assert_eq!(
        validate_answers(&questions, &vec![checkbox_answer(1, vec!["A", "B"])]),
        Ok(())
    );

    let bad = validate_answers(&questions, &vec![checkbox_answer(1, vec!["C"])]);
    assert_eq!(
        bad,
        Err(ValidationError::NotInOptions {
            number: 1,
            value: String::from("C"),
            options: vec![String::from("A"), String::from("B")],
        })
    );

    // Duplicate selections are not rejected.
    assert_eq!(
        validate_answers(&questions, &vec![checkbox_answer(1, vec!["A", "A"])]),
        Ok(())
    );

    // A checkbox question with options demands a selection list.
    let missing = validate_answers(
        &questions,
        &vec![Answer { number: 1, input: None, selected_options: None }],
    );
    assert_eq!(missing, Err(ValidationError::MissingInput { number: 1 }));

    // Without an option set, anything goes.
    let free = vec![q(1, QuestionType::Checkboxes, None)];
    assert_eq!(
        validate_answers(&free, &vec![Answer { number: 1, input: None, selected_options: None }]),
        Ok(())
    );
}

#[test]
fn option_membership_for_choice_kinds() {
    let questions = vec![q(1, QuestionType::MultipleChoice, Some(vec!["Choice 1", "Choice 2"]))];

    assert_eq!(validate_answers(&questions, &vec![input_answer(1, "Choice 2")]), Ok(()));
    assert_eq!(
        validate_answers(&questions, &vec![input_answer(1, "Choice 3")]),
        Err(ValidationError::NotInOptions {
            number: 1,
            value: String::from("Choice 3"),
            options: vec![String::from("Choice 1"), String::from("Choice 2")],
        })
    );
    let missing = validate_answers(
        &questions,
        &vec![Answer { number: 1, input: None, selected_options: None }],
    );
    assert_eq!(missing, Err(ValidationError::MissingInput { number: 1 }));

    let dropdown = vec![q(1, QuestionType::Dropdown, Some(vec!["x"]))];
    assert_eq!(
        validate_answers(&dropdown, &vec![input_answer(1, "y")]),
        Err(ValidationError::NotInOptions {
            number: 1,
            value: String::from("y"),
            options: vec![String::from("x")],
        })
    );
}

#[test]
fn text_answers_are_free() {
    let questions = vec![q(1, QuestionType::TextAnswer, None)];
    assert_eq!(validate_answers(&questions, &vec![input_answer(1, "anything at all")]), Ok(()));
    assert_eq!(
        validate_answers(
            &questions,
            &vec![Answer { number: 1, input: None, selected_options: None }],
        ),
        Ok(())
    );
}

#[test]
fn ordinal_scan_failures() {
    let questions = vec![
        q(1, QuestionType::TextAnswer, None),
        q(2, QuestionType::TextAnswer, None),
    ];

    // Fewer answers than questions.
    let short = validate_answers(&questions, &vec![input_answer(1, "a")]);
    assert_eq!(short, Err(ValidationError::MissingAnswers));

    // Number mismatch at the first differing position.
    let mismatched = validate_answers(
        &questions,
        &vec![input_answer(1, "a"), input_answer(7, "b")],
    );
    assert_eq!(mismatched, Err(ValidationError::NumberMismatch { answer: 7, question: 2 }));

    // Extra answers beyond the questions are ignored.
    let extra = validate_answers(
        &questions,
        &vec![input_answer(1, "a"), input_answer(2, "b"), input_answer(3, "c")],
    );
    assert_eq!(extra, Ok(()));

    // No questions accepts anything.
    assert_eq!(validate_answers(&Vec::new(), &vec![input_answer(9, "z")]), Ok(()));
}

#[test]
fn fail_fast_reports_first_violation() {
    let questions = vec![
        q(1, QuestionType::Date, None),
        q(2, QuestionType::Time, None),
    ];
    // Both answers are invalid; the first violation wins.
    let r = validate_answers(
        &questions,
        &vec![input_answer(1, "bad"), input_answer(2, "also bad")],
    );
    assert_eq!(r, Err(ValidationError::DateFormat { number: 1, input: String::from("bad") }));
}

#[test]
fn failure_messages_name_the_offender() {
    assert_eq!(
        ValidationError::MissingAnswers.message(),
        "Form has more questions than answers provided."
    );
    assert_eq!(
        ValidationError::NumberMismatch { answer: 7, question: 2 }.message(),
        "Answer number 7 does not match question number 2"
    );
    assert_eq!(
        ValidationError::MissingInput { number: 12 }.message(),
        "Answer number 12 is missing input"
    );
    assert_eq!(
        ValidationError::NotInOptions {
            number: 1,
            value: String::from("C"),
            options: vec![String::from("A"), String::from("B")],
        }
        .message(),
        "Answer number 1 input 'C' is not in options [\"A\", \"B\"]"
    );
    assert_eq!(
        ValidationError::MonthRange { number: 3, input: String::from("2024/13/01") }.message(),
        "Answer number 3 input '2024/13/01' has invalid input (mm accepts 01-12)."
    );
    assert_eq!(
        ValidationError::DayRange { number: 3, input: String::from("2024/1/32") }.message(),
        "Answer number 3 input '2024/1/32' has invalid input (dd accepts 01-31)."
    );
    assert_eq!(
        ValidationError::DateFormat { number: 3, input: String::from("2024-01-15") }.message(),
        "Answer number 3 input '2024-01-15' has invalid input (expected yyyy/mm/dd)."
    );
    assert_eq!(
        ValidationError::TimeFormat { number: 4, input: String::from("12.30") }.message(),
        "Answer number 4 input '12.30' has invalid input (expected hh:mm)."
    );
    assert_eq!(
        ValidationError::HourRange { number: 4, input: String::from("24:00") }.message(),
        "Answer number 4 input '24:00' has invalid input (hh accepts 00-23)."
    );
    assert_eq!(
        ValidationError::MinuteRange { number: 4, input: String::from("12:60") }.message(),
        "Answer number 4 input '12:60' has invalid input (mm accepts 00-59)."
    );
    // Large numbers render all their digits.
    assert_eq!(
        ValidationError::MissingInput { number: 4_294_967_295 }.message(),
        "Answer number 4294967295 is missing input"
    );
    // An empty option set renders as an empty list.
    assert_eq!(
        ValidationError::NotInOptions {
            number: 1,
            value: String::from("C"),
            options: Vec::new(),
        }
        .message(),
        "Answer number 1 input 'C' is not in options []"
    );
}

#[test]
fn validation_is_idempotent() {
    let questions = vec![
        q(1, QuestionType::Date, None),
        q(2, QuestionType::Checkboxes, Some(vec!["A", "B"])),
    ];
    let answers = vec![input_answer(1, "2024/01/15"), checkbox_answer(2, vec!["B"])];
    let first = validate_answers(&questions, &answers);
    let second = validate_answers(&questions, &answers);
    assert_eq!(first, second);
    assert_eq!(first, Ok(()));

    let bad = vec![input_answer(1, "2024/13/01"), checkbox_answer(2, vec!["B"])];
    let first_bad = validate_answers(&questions, &bad);
    let second_bad = validate_answers(&questions, &bad);
    assert_eq!(first_bad, second_bad);
}

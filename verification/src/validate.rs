//! The answer validator: one submission's answers are checked against a
//! form's ordered questions, stopping at the first violation. The
//! verdict is a pure function of the questions and the answers, given by
//! [`validation_verdict`], and [`validate_answers`] is proved to return
//! exactly that verdict.

use vstd::prelude::*;

use vstd::string::StringExecFns;

use crate::form::{Question, QuestionType, QuestionV};
use crate::text::{
    chars_of, clone_string_vec, dec_str, parse_u32_chars, parse_u32_spec, split_char, split_spec,
    u32_to_string,
};

verus! {

/// One respondent value for one question: a single input string (free
/// text, single choice, date or time), or a multi-select list for
/// checkbox questions.
#[derive(Clone, Debug)]
pub struct Answer {
    pub number: u32,
    pub input: Option<String>,
    pub selected_options: Option<Vec<String>>,
}

/// Mathematical value of an [`Answer`].
pub struct AnswerV {
    pub number: u32,
    pub input: Option<Seq<char>>,
    pub selected_options: Option<Seq<Seq<char>>>,
}

impl View for Answer {
    type V = AnswerV;

    open spec fn view(&self) -> AnswerV {
        AnswerV {
            number: self.number,
            input: match self.input {
                Some(s) => Some(s@),
                None => None,
            },
            selected_options: match self.selected_options {
                Some(sel) => Some(sel.deep_view()),
                None => None,
            },
        }
    }
}

impl DeepView for Answer {
    type V = AnswerV;

    open spec fn deep_view(&self) -> AnswerV {
        self.view()
    }
}

/// The body of a response submission.
#[derive(Clone, Debug)]
pub struct ResponseData {
    pub answers: Vec<Answer>,
}

/// The first violation found in a submission, naming the offending
/// answer and the reason it was rejected.
#[derive(Clone, Debug, PartialEq)]
pub enum ValidationError {
    /// The form has more questions than the submission has answers.
    MissingAnswers,
    /// The answer at some position carries a different number than the
    /// question at that position.
    NumberMismatch { answer: u32, question: u32 },
    /// A question that demands a value got none.
    MissingInput { number: u32 },
    /// A supplied value is not one of the question's allowed options.
    NotInOptions { number: u32, value: String, options: Vec<String> },
    /// A date input is not of the form `yyyy/mm/dd`.
    DateFormat { number: u32, input: String },
    /// A date input's month part is outside `01`-`12`.
    MonthRange { number: u32, input: String },
    /// A date input's day part is outside `01`-`31`.
    DayRange { number: u32, input: String },
    /// A time input is not of the form `hh:mm`.
    TimeFormat { number: u32, input: String },
    /// A time input's hour part is outside `00`-`23`.
    HourRange { number: u32, input: String },
    /// A time input's minute part is outside `00`-`59`.
    MinuteRange { number: u32, input: String },
}

/// Mathematical value of a [`ValidationError`].
pub enum ErrorV {
    MissingAnswers,
    NumberMismatch { answer: u32, question: u32 },
    MissingInput { number: u32 },
    NotInOptions { number: u32, value: Seq<char>, options: Seq<Seq<char>> },
    DateFormat { number: u32, input: Seq<char> },
    MonthRange { number: u32, input: Seq<char> },
    DayRange { number: u32, input: Seq<char> },
    TimeFormat { number: u32, input: Seq<char> },
    HourRange { number: u32, input: Seq<char> },
    MinuteRange { number: u32, input: Seq<char> },
}

impl View for ValidationError {
    type V = ErrorV;

    open spec fn view(&self) -> ErrorV {
        match self {
            ValidationError::MissingAnswers => ErrorV::MissingAnswers,
            ValidationError::NumberMismatch { answer, question } => ErrorV::NumberMismatch {
                answer: *answer,
                question: *question,
            },
            ValidationError::MissingInput { number } => ErrorV::MissingInput { number: *number },
            ValidationError::NotInOptions { number, value, options } => ErrorV::NotInOptions {
                number: *number,
                value: value@,
                options: options.deep_view(),
            },
            ValidationError::DateFormat { number, input } => ErrorV::DateFormat {
                number: *number,
                input: input@,
            },
            ValidationError::MonthRange { number, input } => ErrorV::MonthRange {
                number: *number,
                input: input@,
            },
            ValidationError::DayRange { number, input } => ErrorV::DayRange {
                number: *number,
                input: input@,
            },
            ValidationError::TimeFormat { number, input } => ErrorV::TimeFormat {
                number: *number,
                input: input@,
            },
            ValidationError::HourRange { number, input } => ErrorV::HourRange {
                number: *number,
                input: input@,
            },
            ValidationError::MinuteRange { number, input } => ErrorV::MinuteRange {
                number: *number,
                input: input@,
            },
        }
    }
}

impl DeepView for ValidationError {
    type V = ErrorV;

    open spec fn deep_view(&self) -> ErrorV {
        self.view()
    }
}

/// One option value as the option list renders it: wrapped in double
/// quotes.
pub open spec fn quoted_value(s: Seq<char>) -> Seq<char> {
    "\""@ + s + "\""@
}

/// The quoted option values joined with `", "`.
pub open spec fn joined_values(opts: Seq<Seq<char>>) -> Seq<char>
    decreases opts.len(),
{
    if opts.len() == 0 {
        Seq::empty()
    } else if opts.len() == 1 {
        quoted_value(opts[0])
    } else {
        joined_values(opts.drop_last()) + ", "@ + quoted_value(opts.last())
    }
}

/// An option set rendered for a failure message: the quoted values,
/// comma-separated, in brackets.
pub open spec fn options_list(opts: Seq<Seq<char>>) -> Seq<char> {
    "["@ + joined_values(opts) + "]"@
}

/// The common wording of the date and time failures.
pub open spec fn invalid_input_message(number: u32, input: Seq<char>, reason: Seq<char>) -> Seq<
    char,
> {
    "Answer number "@ + dec_str(number as nat) + " input '"@ + input + "' has invalid input "@
        + reason
}

impl ValidationError {
    /// The user-facing message of this failure, naming the offending
    /// answer number and, where one is involved, the offending value
    /// and the allowed options.
    pub open spec fn message_spec(&self) -> Seq<char> {
        match self {
            ValidationError::MissingAnswers => "Form has more questions than answers provided."@,
            ValidationError::NumberMismatch { answer, question } => "Answer number "@ + dec_str(
                *answer as nat,
            ) + " does not match question number "@ + dec_str(*question as nat),
            ValidationError::MissingInput { number } => "Answer number "@ + dec_str(*number as nat)
                + " is missing input"@,
            ValidationError::NotInOptions { number, value, options } => "Answer number "@
                + dec_str(*number as nat) + " input '"@ + value@ + "' is not in options "@
                + options_list(options.deep_view()),
            ValidationError::DateFormat { number, input } => invalid_input_message(
                *number,
                input@,
                "(expected yyyy/mm/dd)."@,
            ),
            ValidationError::MonthRange { number, input } => invalid_input_message(
                *number,
                input@,
                "(mm accepts 01-12)."@,
            ),
            ValidationError::DayRange { number, input } => invalid_input_message(
                *number,
                input@,
                "(dd accepts 01-31)."@,
            ),
            ValidationError::TimeFormat { number, input } => invalid_input_message(
                *number,
                input@,
                "(expected hh:mm)."@,
            ),
            ValidationError::HourRange { number, input } => invalid_input_message(
                *number,
                input@,
                "(hh accepts 00-23)."@,
            ),
            ValidationError::MinuteRange { number, input } => invalid_input_message(
                *number,
                input@,
                "(mm accepts 00-59)."@,
            ),
        }
    }

    /// Render this failure's message.
    pub fn message(&self) -> (r: String)
        ensures
            r@ == self.message_spec(),
    {
        match self {
            ValidationError::MissingAnswers => String::from_str(
                "Form has more questions than answers provided.",
            ),
            ValidationError::NumberMismatch { answer, question } => {
                let mut m = String::from_str("Answer number ");
                let a = u32_to_string(*answer);
                m.append(a.as_str());
                m.append(" does not match question number ");
                let q = u32_to_string(*question);
                m.append(q.as_str());
                proof {
                    assert(m@ =~= self.message_spec());
                }
                m
            },
            ValidationError::MissingInput { number } => {
                let mut m = String::from_str("Answer number ");
                let n = u32_to_string(*number);
                m.append(n.as_str());
                m.append(" is missing input");
                proof {
                    assert(m@ =~= self.message_spec());
                }
                m
            },
            ValidationError::NotInOptions { number, value, options } => {
                let mut m = String::from_str("Answer number ");
                let n = u32_to_string(*number);
                m.append(n.as_str());
                m.append(" input '");
                m.append(value.as_str());
                m.append("' is not in options ");
                let list = options_list_string(options);
                m.append(list.as_str());
                proof {
                    assert(m@ =~= self.message_spec());
                }
                m
            },
            ValidationError::DateFormat { number, input } => invalid_input_string(
                *number,
                input,
                "(expected yyyy/mm/dd).",
            ),
            ValidationError::MonthRange { number, input } => invalid_input_string(
                *number,
                input,
                "(mm accepts 01-12).",
            ),
            ValidationError::DayRange { number, input } => invalid_input_string(
                *number,
                input,
                "(dd accepts 01-31).",
            ),
            ValidationError::TimeFormat { number, input } => invalid_input_string(
                *number,
                input,
                "(expected hh:mm).",
            ),
            ValidationError::HourRange { number, input } => invalid_input_string(
                *number,
                input,
                "(hh accepts 00-23).",
            ),
            ValidationError::MinuteRange { number, input } => invalid_input_string(
                *number,
                input,
                "(mm accepts 00-59).",
            ),
        }
    }
}

/// Render the wording shared by the date and time failures.
fn invalid_input_string(number: u32, input: &String, reason: &str) -> (r: String)
    ensures
        r@ == invalid_input_message(number, input@, reason@),
{
    let mut m = String::from_str("Answer number ");
    let n = u32_to_string(number);
    m.append(n.as_str());
    m.append(" input '");
    m.append(input.as_str());
    m.append("' has invalid input ");
    m.append(reason);
    proof {
        assert(m@ =~= invalid_input_message(number, input@, reason@));
    }
    m
}

/// Render an option set for a failure message.
fn options_list_string(opts: &Vec<String>) -> (r: String)
    ensures
        r@ == options_list(opts.deep_view()),
{
    let ghost odv = opts.deep_view();
    let mut r = String::from_str("[");
    proof {
        assert(odv.subrange(0, 0) =~= Seq::<Seq<char>>::empty());
        assert("["@ + joined_values(odv.subrange(0, 0)) =~= "["@);
    }
    let mut i: usize = 0;
    while i < opts.len()
        invariant
            i <= odv.len(),
            odv == opts.deep_view(),
            odv.len() == opts@.len(),
            r@ == "["@ + joined_values(odv.subrange(0, i as int)),
        decreases odv.len() - i,
    {
        let ghost pre = odv.subrange(0, i as int);
        let ghost ext = odv.subrange(0, i + 1 as int);
        proof {
            assert(ext.drop_last() =~= pre);
            assert(ext.last() == odv[i as int]);
        }
        if i > 0 {
            r.append(", ");
        }
        r.append("\"");
        r.append(opts[i].as_str());
        r.append("\"");
        proof {
            assert(r@ =~= "["@ + joined_values(ext));
        }
        i = i + 1;
    }
    r.append("]");
    proof {
        assert(odv.subrange(0, odv.len() as int) =~= odv);
        assert(r@ =~= options_list(odv));
    }
    r
}

/// `v` is one of the allowed option strings.
pub open spec fn has_option(opts: Seq<Seq<char>>, v: Seq<char>) -> bool {
    exists|j: int| 0 <= j < opts.len() && opts[j] == v
}

/// The first selected value that is not an allowed option, if any.
pub open spec fn first_missing(sel: Seq<Seq<char>>, opts: Seq<Seq<char>>) -> Option<Seq<char>>
    decreases sel.len(),
{
    if sel.len() == 0 {
        None
    } else if !has_option(opts, sel[0]) {
        Some(sel[0])
    } else {
        first_missing(sel.drop_first(), opts)
    }
}

/// The violation a date input earns, if any: it must split on `/` into
/// exactly a year, a month in 01-12 and a day in 01-31, each parsing as
/// a `u32`.
pub open spec fn date_error(n: u32, s: Seq<char>) -> Option<ErrorV> {
    let parts = split_spec(s, '/');
    if parts.len() != 3 {
        Some(ErrorV::DateFormat { number: n, input: s })
    } else if parse_u32_spec(parts[0]) is None {
        Some(ErrorV::DateFormat { number: n, input: s })
    } else {
        match parse_u32_spec(parts[1]) {
            None => Some(ErrorV::DateFormat { number: n, input: s }),
            Some(m) => if m < 1 || m > 12 {
                Some(ErrorV::MonthRange { number: n, input: s })
            } else {
                match parse_u32_spec(parts[2]) {
                    None => Some(ErrorV::DateFormat { number: n, input: s }),
                    Some(d) => if d < 1 || d > 31 {
                        Some(ErrorV::DayRange { number: n, input: s })
                    } else {
                        None
                    },
                }
            },
        }
    }
}

/// The violation a time input earns, if any: it must split on `:` into
/// exactly an hour in 00-23 and a minute in 00-59.
pub open spec fn time_error(n: u32, s: Seq<char>) -> Option<ErrorV> {
    let parts = split_spec(s, ':');
    if parts.len() != 2 {
        Some(ErrorV::TimeFormat { number: n, input: s })
    } else {
        match parse_u32_spec(parts[0]) {
            None => Some(ErrorV::TimeFormat { number: n, input: s }),
            Some(h) => if h > 23 {
                Some(ErrorV::HourRange { number: n, input: s })
            } else {
                match parse_u32_spec(parts[1]) {
                    None => Some(ErrorV::TimeFormat { number: n, input: s }),
                    Some(m) => if m > 59 {
                        Some(ErrorV::MinuteRange { number: n, input: s })
                    } else {
                        None
                    },
                }
            },
        }
    }
}

/// The kind-specific rule for one answer against its question, assuming
/// the numbers already match: the first violation, or `None` when the
/// answer is acceptable.
pub open spec fn answer_fault(q: QuestionV, a: AnswerV) -> Option<ErrorV> {
    if q.kind == QuestionType::Checkboxes {
        match q.options {
            Some(opts) => match a.selected_options {
                None => Some(ErrorV::MissingInput { number: a.number }),
                Some(sel) => match first_missing(sel, opts) {
                    Some(v) => Some(ErrorV::NotInOptions {
                        number: a.number,
                        value: v,
                        options: opts,
                    }),
                    None => None,
                },
            },
            None => None,
        }
    } else if q.kind == QuestionType::Date {
        match a.input {
            None => Some(ErrorV::MissingInput { number: a.number }),
            Some(s) => date_error(a.number, s),
        }
    } else if q.kind == QuestionType::Time {
        match a.input {
            None => Some(ErrorV::MissingInput { number: a.number }),
            Some(s) => time_error(a.number, s),
        }
    } else {
        match q.options {
            Some(opts) => match a.input {
                None => Some(ErrorV::MissingInput { number: a.number }),
                Some(s) => if has_option(opts, s) {
                    None
                } else {
                    Some(ErrorV::NotInOptions { number: a.number, value: s, options: opts })
                },
            },
            None => None,
        }
    }
}

/// The ordinal scan from position `i`: the first violation at or after
/// `i`, or `None` when every remaining question is satisfied.
pub open spec fn scan_from(qs: Seq<QuestionV>, ans: Seq<AnswerV>, i: int) -> Option<ErrorV>
    decreases qs.len() - i,
{
    if i < 0 || i >= qs.len() {
        None
    } else if i >= ans.len() {
        Some(ErrorV::MissingAnswers)
    } else if ans[i].number != qs[i].number {
        Some(ErrorV::NumberMismatch { answer: ans[i].number, question: qs[i].number })
    } else {
        match answer_fault(qs[i], ans[i]) {
            Some(e) => Some(e),
            None => scan_from(qs, ans, i + 1),
        }
    }
}

/// The verdict of validation: the first violation in ordinal order, or
/// `None` when the submission is accepted.
pub open spec fn validation_verdict(qs: Seq<QuestionV>, ans: Seq<AnswerV>) -> Option<ErrorV> {
    scan_from(qs, ans, 0)
}

/// Acceptance, stated directly: there are at least as many answers as
/// questions, every answer's number matches its question's, and every
/// kind-specific rule holds.
pub open spec fn accepts(qs: Seq<QuestionV>, ans: Seq<AnswerV>) -> bool {
    &&& ans.len() >= qs.len()
    &&& forall|i: int|
        0 <= i < qs.len() ==> ans[i].number == qs[i].number && #[trigger] answer_fault(
            qs[i],
            ans[i],
        ) is None
}

proof fn lemma_scan_characterisation(qs: Seq<QuestionV>, ans: Seq<AnswerV>, i: int)
    requires
        0 <= i <= qs.len(),
    ensures
        (scan_from(qs, ans, i) is None) <==> (forall|j: int|
            i <= j < qs.len() ==> j < ans.len() && ans[j].number == qs[j].number
                && #[trigger] answer_fault(qs[j], ans[j]) is None),
    decreases qs.len() - i,
{
    if i < qs.len() {
        lemma_scan_characterisation(qs, ans, i + 1);
    }
}

/// Validation accepts a submission exactly when every question is
/// matched, in order and by number, by an answer satisfying its
/// kind-specific rule.
pub proof fn lemma_accepts_iff_no_fault(qs: Seq<QuestionV>, ans: Seq<AnswerV>)
    ensures
        (validation_verdict(qs, ans) is None) <==> accepts(qs, ans),
{
    lemma_scan_characterisation(qs, ans, 0);
    if validation_verdict(qs, ans) is None && qs.len() > 0 {
        assert(answer_fault(qs[qs.len() - 1], ans[qs.len() - 1]) is None);
        assert(qs.len() - 1 < ans.len());
    }
}

/// The verdict is a pure function of the questions and the answers:
/// re-running validation on the same pair yields the same verdict.
pub proof fn lemma_validation_deterministic(
    qs: Seq<QuestionV>,
    ans: Seq<AnswerV>,
    v1: Option<ErrorV>,
    v2: Option<ErrorV>,
)
    requires
        v1 == validation_verdict(qs, ans),
        v2 == validation_verdict(qs, ans),
    ensures
        v1 == v2,
{
}

/// Whether `s` is one of the strings of `opts`.
fn contains_string(opts: &Vec<String>, s: &String) -> (r: bool)
    ensures
        r == has_option(opts.deep_view(), s@),
{
    let mut j: usize = 0;
    while j < opts.len()
        invariant
            j <= opts@.len(),
            forall|k: int| 0 <= k < j ==> opts@[k]@ != s@,
        decreases opts@.len() - j,
    {
        if opts[j].eq(s) {
            assert(opts.deep_view()[j as int] == s@);
            return true;
        }
        j = j + 1;
    }
    assert forall|k: int| 0 <= k < opts.deep_view().len() implies opts.deep_view()[k] != s@ by {
        assert(opts@[k]@ != s@);
    }
    false
}

/// Check every selected value of a checkbox answer against the allowed
/// options, reporting the first value that is not allowed.
fn check_selected(number: u32, sel: &Vec<String>, opts: &Vec<String>) -> (r: Option<
    ValidationError,
>)
    ensures
        match r {
            None => first_missing(sel.deep_view(), opts.deep_view()) is None,
            Some(e) => {
                &&& first_missing(sel.deep_view(), opts.deep_view()) matches Some(v)
                    && e@ == (ErrorV::NotInOptions {
                    number,
                    value: v,
                    options: opts.deep_view(),
                })
            },
        },
{
    let ghost seldv = sel.deep_view();
    let ghost optsdv = opts.deep_view();
    assert(seldv.subrange(0, seldv.len() as int) =~= seldv);
    let mut j: usize = 0;
    while j < sel.len()
        invariant
            j <= seldv.len(),
            seldv == sel.deep_view(),
            optsdv == opts.deep_view(),
            seldv.len() == sel@.len(),
            first_missing(seldv, optsdv) == first_missing(
                seldv.subrange(j as int, seldv.len() as int),
                optsdv,
            ),
        decreases seldv.len() - j,
    {
        let ghost rest = seldv.subrange(j as int, seldv.len() as int);
        assert(rest.drop_first() =~= seldv.subrange(j + 1 as int, seldv.len() as int));
        assert(rest[0] == seldv[j as int]);
        if !contains_string(opts, &sel[j]) {
            return Some(ValidationError::NotInOptions {
                number,
                value: sel[j].clone(),
                options: clone_string_vec(opts),
            });
        }
        j = j + 1;
    }
    assert(seldv.subrange(seldv.len() as int, seldv.len() as int) =~= Seq::<Seq<char>>::empty());
    None
}

/// Check a date input, reporting the violation [`date_error`] names.
fn date_check(number: u32, s: &String) -> (r: Option<ValidationError>)
    ensures
        match r {
            None => date_error(number, s@) is None,
            Some(e) => date_error(number, s@) == Some(e@),
        },
{
    let cs = chars_of(s.as_str());
    let parts = split_char(&cs, '/');
    if parts.len() != 3 {
        return Some(ValidationError::DateFormat { number, input: s.clone() });
    }
    if parse_u32_chars(&parts[0]).is_none() {
        return Some(ValidationError::DateFormat { number, input: s.clone() });
    }
    match parse_u32_chars(&parts[1]) {
        None => Some(ValidationError::DateFormat { number, input: s.clone() }),
        Some(m) => {
            if m < 1 || m > 12 {
                return Some(ValidationError::MonthRange { number, input: s.clone() });
            }
            match parse_u32_chars(&parts[2]) {
                None => Some(ValidationError::DateFormat { number, input: s.clone() }),
                Some(d) => {
                    if d < 1 || d > 31 {
                        return Some(ValidationError::DayRange { number, input: s.clone() });
                    }
                    None
                },
            }
        },
    }
}

/// Check a time input, reporting the violation [`time_error`] names.
fn time_check(number: u32, s: &String) -> (r: Option<ValidationError>)
    ensures
        match r {
            None => time_error(number, s@) is None,
            Some(e) => time_error(number, s@) == Some(e@),
        },
{
    let cs = chars_of(s.as_str());
    let parts = split_char(&cs, ':');
    if parts.len() != 2 {
        return Some(ValidationError::TimeFormat { number, input: s.clone() });
    }
    match parse_u32_chars(&parts[0]) {
        None => Some(ValidationError::TimeFormat { number, input: s.clone() }),
        Some(h) => {
            if h > 23 {
                return Some(ValidationError::HourRange { number, input: s.clone() });
            }
            match parse_u32_chars(&parts[1]) {
                None => Some(ValidationError::TimeFormat { number, input: s.clone() }),
                Some(m) => {
                    if m > 59 {
                        return Some(ValidationError::MinuteRange { number, input: s.clone() });
                    }
                    None
                },
            }
        },
    }
}

/// The kind-specific rule for one answer, assuming its number already
/// matches the question's.
fn answer_check(q: &Question, a: &Answer) -> (r: Option<ValidationError>)
    ensures
        match r {
            None => answer_fault(q@, a@) is None,
            Some(e) => answer_fault(q@, a@) == Some(e@),
        },
{
    if q.kind == QuestionType::Checkboxes {
        match &q.options {
            Some(opts) => match &a.selected_options {
                None => Some(ValidationError::MissingInput { number: a.number }),
                Some(sel) => check_selected(a.number, sel, opts),
            },
            None => None,
        }
    } else if q.kind == QuestionType::Date {
        match &a.input {
            None => Some(ValidationError::MissingInput { number: a.number }),
            Some(s) => date_check(a.number, s),
        }
    } else if q.kind == QuestionType::Time {
        match &a.input {
            None => Some(ValidationError::MissingInput { number: a.number }),
            Some(s) => time_check(a.number, s),
        }
    } else {
        match &q.options {
            Some(opts) => match &a.input {
                None => Some(ValidationError::MissingInput { number: a.number }),
                Some(s) => {
                    if contains_string(opts, s) {
                        None
                    } else {
                        Some(ValidationError::NotInOptions {
                            number: a.number,
                            value: s.clone(),
                            options: clone_string_vec(opts),
                        })
                    }
                },
            },
            None => None,
        }
    }
}

/// Validate a submission's answers against a form's questions, in
/// order, stopping at the first violation. Returns `Ok` exactly when
/// [`validation_verdict`] finds no violation, and otherwise the very
/// violation it names.
pub fn validate_answers(questions: &Vec<Question>, answers: &Vec<Answer>) -> (r: Result<
    (),
    ValidationError,
>)
    ensures
        r is Ok <==> validation_verdict(questions.deep_view(), answers.deep_view()) is None,
        r matches Err(e) ==> validation_verdict(questions.deep_view(), answers.deep_view())
            == Some(e@),
{
    let ghost qs = questions.deep_view();
    let ghost ans = answers.deep_view();
    let mut i: usize = 0;
    while i < questions.len()
        invariant
            i <= qs.len(),
            qs == questions.deep_view(),
            ans == answers.deep_view(),
            qs.len() == questions@.len(),
            ans.len() == answers@.len(),
            scan_from(qs, ans, 0) == scan_from(qs, ans, i as int),
        decreases qs.len() - i,
    {
        let q = &questions[i];
        assert(q@ == qs[i as int]);
        if i >= answers.len() {
            return Err(ValidationError::MissingAnswers);
        }
        let a = &answers[i];
        assert(a@ == ans[i as int]);
        if a.number != q.number {
            return Err(ValidationError::NumberMismatch {
                answer: a.number,
                question: q.number,
            });
        }
        match answer_check(q, a) {
            Some(e) => {
                return Err(e);
            },
            None => {},
        }
        i = i + 1;
    }
    Ok(())
}

} // verus!

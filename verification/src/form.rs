//! Forms and their typed questions, together with the access decisions
//! the routes make about them: who may view a form, who owns it, and how
//! submitted question lists are normalised before a form is stored.

use vstd::prelude::*;

use crate::error::ApiError;
use crate::text::{clone_string_vec, str_eq};

verus! {

/// The closed set of question kinds. Validation dispatches on this tag;
/// adding a kind is a compile-time-checked extension of every match.
#[derive(Clone, Copy, Debug, PartialEq, Eq, Structural)]
pub enum QuestionType {
    TextAnswer,
    MultipleChoice,
    Checkboxes,
    Dropdown,
    Date,
    Time,
}

/// Who may see a form and respond to it.
#[derive(Clone, Copy, Debug, PartialEq, Eq, Structural)]
pub enum FormState {
    Private,
    Public,
    Anonymous,
}

/// One question of a form. `number` is 1-based and must match the
/// `number` of the answer at the same position in a submission.
#[derive(Clone, Debug)]
pub struct Question {
    pub number: u32,
    pub text: String,
    pub kind: QuestionType,
    pub options: Option<Vec<String>>,
}

/// Mathematical value of a [`Question`]: the same fields with strings
/// read as character sequences.
pub struct QuestionV {
    pub number: u32,
    pub text: Seq<char>,
    pub kind: QuestionType,
    pub options: Option<Seq<Seq<char>>>,
}

impl View for Question {
    type V = QuestionV;

    open spec fn view(&self) -> QuestionV {
        QuestionV {
            number: self.number,
            text: self.text@,
            kind: self.kind,
            options: match self.options {
                Some(opts) => Some(opts.deep_view()),
                None => None,
            },
        }
    }
}

impl DeepView for Question {
    type V = QuestionV;

    open spec fn deep_view(&self) -> QuestionV {
        self.view()
    }
}

/// A survey definition: ordered questions, an owner, and a visibility
/// state. `created_at` is a timestamp in milliseconds since the epoch.
#[derive(Clone, Debug)]
pub struct Form {
    pub _id: String,
    pub owner: String,
    pub title: String,
    pub description: String,
    pub state: FormState,
    pub questions: Vec<Question>,
    pub created_at: i64,
}

/// The body of a form creation or update request.
#[derive(Clone, Debug)]
pub struct FormData {
    pub title: String,
    pub description: String,
    pub state: FormState,
    pub questions: Vec<Question>,
}

/// How a viewer relates to a form it is allowed to see.
#[derive(Clone, Copy, Debug, PartialEq, Eq, Structural)]
pub enum ViewerRole {
    Owner,
    Responder,
}

/// A stored question never carries an option set for the kinds that do
/// not use one.
pub open spec fn sanitized_question(q: QuestionV) -> QuestionV {
    match q.kind {
        QuestionType::TextAnswer | QuestionType::Date | QuestionType::Time => QuestionV {
            options: None,
            ..q
        },
        _ => q,
    }
}

/// Normalise a submitted question list before it is stored: the kinds
/// that take no options have their option set cleared, everything else
/// is kept as it came.
pub fn sanitize_questions(questions: &Vec<Question>) -> (r: Vec<Question>)
    ensures
        r.deep_view().len() == questions.deep_view().len(),
        forall|i: int|
            0 <= i < r.deep_view().len() ==> r.deep_view()[i] == sanitized_question(
                #[trigger] questions.deep_view()[i],
            ),
{
    let mut r: Vec<Question> = Vec::new();
    let mut i: usize = 0;
    while i < questions.len()
        invariant
            i <= questions@.len(),
            r.deep_view().len() == i,
            forall|k: int|
                0 <= k < i ==> r.deep_view()[k] == sanitized_question(
                    #[trigger] questions.deep_view()[k],
                ),
        decreases questions@.len() - i,
    {
        let q = &questions[i];
        let options: Option<Vec<String>> = match q.kind {
            QuestionType::TextAnswer | QuestionType::Date | QuestionType::Time => None,
            _ => match &q.options {
                Some(opts) => Some(clone_string_vec(opts)),
                None => None,
            },
        };
        r.push(Question { number: q.number, text: q.text.clone(), kind: q.kind, options });
        i = i + 1;
    }
    r
}

/// Build the form a creation request stores: the caller's identity
/// becomes the owner, the questions are normalised, and the given id
/// and timestamp are attached.
pub fn new_form(id: String, owner: String, data: FormData, created_at: i64) -> (f: Form)
    ensures
        f._id == id,
        f.owner == owner,
        f.title == data.title,
        f.description == data.description,
        f.state == data.state,
        f.created_at == created_at,
        f.questions.deep_view().len() == data.questions.deep_view().len(),
        forall|i: int|
            0 <= i < f.questions.deep_view().len() ==> f.questions.deep_view()[i]
                == sanitized_question(#[trigger] data.questions.deep_view()[i]),
{
    let questions = sanitize_questions(&data.questions);
    Form {
        _id: id,
        owner,
        title: data.title,
        description: data.description,
        state: data.state,
        questions,
        created_at,
    }
}

/// Whether `user` is the owner of `form`.
pub fn is_owner(form: &Form, user: &str) -> (r: bool)
    ensures
        r == (form.owner@ == user@),
{
    str_eq(form.owner.as_str(), user)
}

/// The check every owner-only route makes: anyone who is not the
/// form's owner is turned away with an authorization failure.
pub fn owner_access(form: &Form, user: &str) -> (r: Result<(), ApiError>)
    ensures
        r is Ok <==> form.owner@ == user@,
        r matches Err(e) ==> e matches ApiError::Forbidden,
{
    if is_owner(form, user) {
        Ok(())
    } else {
        Err(ApiError::Forbidden)
    }
}

/// Whether an authenticated `user` may read `form`, and in which role:
/// a private form is visible to its owner alone; any other form is
/// visible to every authenticated user.
pub fn view_access(form: &Form, user: &str) -> (r: Result<ViewerRole, ApiError>)
    ensures
        match r {
            Ok(role) => {
                &&& !(form.state == FormState::Private && form.owner@ != user@)
                &&& (role == ViewerRole::Owner <==> form.owner@ == user@)
            },
            Err(e) => {
                &&& form.state == FormState::Private
                &&& form.owner@ != user@
                &&& e matches ApiError::Forbidden
            },
        },
{
    let owns = is_owner(form, user);
    if form.state == FormState::Private && !owns {
        Err(ApiError::Forbidden)
    } else if owns {
        Ok(ViewerRole::Owner)
    } else {
        Ok(ViewerRole::Responder)
    }
}

/// Whether an unauthenticated caller may read `form`: only forms in the
/// `Anonymous` state are open without logging in.
pub fn anon_view_access(form: &Form) -> (r: Result<(), ApiError>)
    ensures
        r is Ok <==> form.state == FormState::Anonymous,
        r matches Err(e) ==> e matches ApiError::Unauthorized,
{
    if form.state == FormState::Anonymous {
        Ok(())
    } else {
        Err(ApiError::Unauthorized)
    }
}

} // verus!

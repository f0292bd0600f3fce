//! Responses: the record one submission creates, and the decision that
//! admits a submission for persistence and broadcast.

use vstd::prelude::*;

use crate::clock::current_timestamp_millis;
use crate::error::ApiError;
use crate::form::Form;
use crate::ids::{is_object_id_hex, new_object_id_hex};
use crate::validate::{validate_answers, validation_verdict, Answer, ResponseData};

verus! {

/// One responder's complete set of answers to a form. Created exactly
/// once per accepted submission and immutable thereafter; `created_at`
/// is a timestamp in milliseconds since the epoch.
#[derive(Clone, Debug)]
pub struct Response {
    pub _id: String,
    pub responder: String,
    pub form: String,
    pub answers: Vec<Answer>,
    pub created_at: i64,
}

/// Validate a submission against its form and, when it is accepted,
/// build the response record that will be persisted and broadcast: a
/// fresh id, the submitting user as responder, the form's id, and the
/// answers exactly as submitted. Rejected submissions earn exactly the
/// violation [`validation_verdict`] names.
pub fn prepare_response(form: &Form, responder: &str, data: ResponseData) -> (r: Result<
    Response,
    ApiError,
>)
    ensures
        r is Ok <==> validation_verdict(
            form.questions.deep_view(),
            data.answers.deep_view(),
        ) is None,
        r matches Ok(resp) ==> {
            &&& resp.responder@ == responder@
            &&& resp.form@ == form._id@
            &&& resp.answers.deep_view() == data.answers.deep_view()
            &&& is_object_id_hex(resp._id@)
        },
        r matches Err(e) ==> e matches ApiError::Validation(v) && validation_verdict(
            form.questions.deep_view(),
            data.answers.deep_view(),
        ) == Some(v@),
{
    match validate_answers(&form.questions, &data.answers) {
        Err(e) => Err(ApiError::Validation(e)),
        Ok(()) => {
            let id = new_object_id_hex();
            let created_at: i64 = current_timestamp_millis();
            Ok(
                Response {
                    _id: id,
                    responder: responder.to_owned(),
                    form: form._id.clone(),
                    answers: data.answers,
                    created_at,
                },
            )
        },
    }
}

} // verus!

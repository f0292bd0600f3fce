//! Ready-made form templates offered for browsing, and the projection
//! the template list shows of each.

use vstd::prelude::*;

use crate::form::Question;

verus! {

/// A form template: a reusable form definition with an optional
/// thumbnail image, encoded as a string.
#[derive(Clone, Debug)]
pub struct Template {
    pub _id: String,
    pub title: String,
    pub description: String,
    pub questions: Vec<Question>,
    pub thumbnail_string: Option<String>,
}

/// What the template list shows of one template.
#[derive(Clone, Debug)]
pub struct TemplateSummary {
    pub _id: String,
    pub title: String,
    pub thumbnail_string: Option<String>,
}

/// The listing entry for one template: its id, its title and its
/// thumbnail, nothing else.
pub fn template_summary(t: &Template) -> (r: TemplateSummary)
    ensures
        r._id@ == t._id@,
        r.title@ == t.title@,
        match t.thumbnail_string {
            Some(s) => r.thumbnail_string matches Some(rs) && rs@ == s@,
            None => r.thumbnail_string is None,
        },
{
    TemplateSummary {
        _id: t._id.clone(),
        title: t.title.clone(),
        thumbnail_string: match &t.thumbnail_string {
            Some(s) => Some(s.clone()),
            None => None,
        },
    }
}

} // verus!

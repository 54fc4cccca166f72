//! Student progress records: listing filters and how a partial update
//! merges with the stored values.
use vstd::prelude::*;
use crate::governance::time::Timestamp;

verus! {

/// Filters of a progress listing: a search in student names.
#[derive(Debug, Clone)]
pub struct StudentProgressFilters {
    pub search: Option<String>,
}

impl Default for StudentProgressFilters {
    fn default() -> (r: Self)
        ensures
            r.search is None,
    {
        StudentProgressFilters { search: None }
    }
}

/// A new progress record.
#[derive(Debug, Clone)]
pub struct CreateStudentProgressPayload {
    pub student_name: String,
    pub score: i32,
    pub completion_date: Option<Timestamp>,
}

/// The stored values of a progress record that an update may change.
#[derive(Debug, Clone)]
pub struct StudentProgressValues {
    pub student_name: String,
    pub score: Option<i32>,
    pub completion_date: Option<Timestamp>,
}

/// A partial update: a given completion date may itself be empty, which
/// clears the stored one.
#[derive(Debug, Clone)]
pub struct UpdateStudentProgressPayload {
    pub student_name: Option<String>,
    pub score: Option<i32>,
    pub completion_date: Option<Option<Timestamp>>,
}

impl Default for UpdateStudentProgressPayload {
    fn default() -> (r: Self)
        ensures
            r.student_name is None && r.score is None && r.completion_date is None,
    {
        UpdateStudentProgressPayload { student_name: None, score: None, completion_date: None }
    }
}

/// The values written by an update: each given field replaces the stored
/// one; the score falls back to the stored score, then to 0.
pub fn merged_progress(
    current: &StudentProgressValues,
    payload: &UpdateStudentProgressPayload,
) -> (r: (String, i32, Option<Timestamp>))
    ensures
        r.0@ == match payload.student_name {
            Some(n) => n@,
            None => current.student_name@,
        },
        r.1 == match payload.score {
            Some(s) => s,
            None => match current.score {
                Some(s) => s,
                None => 0,
            },
        },
        r.2 == match payload.completion_date {
            Some(d) => d,
            None => current.completion_date,
        },
{
    let name = match &payload.student_name {
        Some(n) => n.clone(),
        None => current.student_name.clone(),
    };
    let score = match payload.score {
        Some(s) => s,
        None => match current.score {
            Some(s) => s,
            None => 0,
        },
    };
    let date = match payload.completion_date {
        Some(d) => d,
        None => current.completion_date,
    };
    (name, score, date)
}

} // verus!

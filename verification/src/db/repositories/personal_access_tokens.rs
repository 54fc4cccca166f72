//! Personal access tokens: what an insert carries.
use vstd::prelude::*;

verus! {

/// A token to record.
#[derive(Debug)]
pub struct InsertToken<'a> {
    pub tokenable_type: &'a str,
    pub tokenable_id: i64,
    pub name: &'a str,
    pub token: &'a str,
    pub abilities: Option<&'a str>,
}

} // verus!

//! User records: what an insert carries.
use vstd::prelude::*;

verus! {

/// A user to record.
#[derive(Debug)]
pub struct InsertUser<'a> {
    pub name: &'a str,
    pub email: &'a str,
    pub password: &'a str,
    pub role: &'a str,
}

} // verus!

//! Activity log listings: how they filter.
use vstd::prelude::*;

use crate::governance::time::Timestamp;

verus! {

/// Filters of an activity log listing.
#[derive(Debug, Clone)]
pub struct ActivityLogFilters {
    /// Exact match on the action.
    pub action: Option<String>,
    /// Exact match on the actor.
    pub actor_id: Option<i64>,
    /// Exact match on the subject type.
    pub subject_type: Option<String>,
    /// Earliest creation instant (inclusive).
    pub date_from: Option<Timestamp>,
    /// Latest creation instant (inclusive).
    pub date_to: Option<Timestamp>,
    /// Search in the action, subject id and the actor's name and email;
    /// an empty search is none.
    pub search: Option<String>,
}

impl Default for ActivityLogFilters {
    fn default() -> (r: Self)
        ensures
            r.action is None && r.actor_id is None && r.subject_type is None && r.date_from is None
                && r.date_to is None && r.search is None,
    {
        ActivityLogFilters {
            action: None,
            actor_id: None,
            subject_type: None,
            date_from: None,
            date_to: None,
            search: None,
        }
    }
}

} // verus!

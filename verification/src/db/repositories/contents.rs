//! Content listings: how they filter.
use vstd::prelude::*;

verus! {

/// Filters of a content listing: a search in titles, the topic (by its
/// key) and the content type.
#[derive(Debug, Clone)]
pub struct ContentFilters {
    pub search: Option<String>,
    pub topic_id: Option<u128>,
    pub content_type: Option<String>,
}

impl Default for ContentFilters {
    fn default() -> (r: Self)
        ensures
            r.search is None && r.topic_id is None && r.content_type is None,
    {
        ContentFilters { search: None, topic_id: None, content_type: None }
    }
}

} // verus!

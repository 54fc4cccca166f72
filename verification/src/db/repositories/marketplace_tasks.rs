//! Marketplace task listings: how they filter and how tasks meet their
//! contents.
use vstd::prelude::*;

use crate::db::keys::{matched_pairs, pair_matches};

verus! {

/// Filters of a task listing: a search in the titles of the tasks'
/// contents, the status and the content (by its key).
#[derive(Debug, Clone)]
pub struct MarketplaceTaskFilters {
    pub search: Option<String>,
    pub status: Option<String>,
    pub content_id: Option<u128>,
}

impl Default for MarketplaceTaskFilters {
    fn default() -> (r: Self)
        ensures
            r.search is None && r.status is None && r.content_id is None,
    {
        MarketplaceTaskFilters { search: None, status: None, content_id: None }
    }
}

/// The listed tasks whose content was fetched, in order, each as (task
/// position, position of its content among the fetched contents); a task
/// whose content is missing is left out of the listing.
pub fn attach_contents(task_content_keys: &Vec<u128>, content_keys: &Vec<u128>) -> (r: Vec<(usize, usize)>)
    ensures
        r@.map_values(|p: (usize, usize)| (p.0 as int, p.1 as int)) == matched_pairs(task_content_keys@, content_keys@),
{
    pair_matches(task_content_keys, content_keys)
}

} // verus!

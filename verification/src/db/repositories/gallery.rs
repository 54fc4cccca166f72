//! The gallery: contents that have a media file, each with its topic.
use vstd::prelude::*;

use crate::db::keys::{attach_first, attached, opt_int};

verus! {

/// Filters of the gallery: a search in titles, the content type and the
/// topic (by its key).
#[derive(Debug, Clone)]
pub struct GalleryFilters {
    pub search: Option<String>,
    pub content_type: Option<String>,
    pub topic_id: Option<u128>,
}

impl Default for GalleryFilters {
    fn default() -> (r: Self)
        ensures
            r.search is None && r.content_type is None && r.topic_id is None,
    {
        GalleryFilters { search: None, content_type: None, topic_id: None }
    }
}

/// For each gallery content, in order, the position of its topic among
/// the fetched topics (the first with the content's topic key), or
/// nothing when its topic was not fetched.
pub fn attach_topics(content_topic_keys: &Vec<u128>, topic_keys: &Vec<u128>) -> (r: Vec<Option<usize>>)
    ensures
        r@.map_values(|p: Option<usize>| opt_int(p)) == attached(content_topic_keys@, topic_keys@),
{
    attach_first(content_topic_keys, topic_keys)
}

} // verus!

//! Media file records: what an insert carries and how listings filter.
use vstd::prelude::*;

verus! {

/// A media file to record.
#[derive(Debug)]
pub struct InsertMediaFile<'a> {
    pub uploader_id: Option<i64>,
    pub file_path: &'a str,
    pub file_name: &'a str,
    pub mime_type: Option<&'a str>,
    pub size: Option<i32>,
    pub disk: &'a str,
    pub category: Option<&'a str>,
}

/// Filters of a media file listing: exact matches on uploader, category,
/// disk and MIME type, and a search in file names.
#[derive(Debug, Clone)]
pub struct MediaFileFilters {
    pub uploader_id: Option<i64>,
    pub category: Option<String>,
    pub disk: Option<String>,
    pub mime_type: Option<String>,
    pub search: Option<String>,
}

impl Default for MediaFileFilters {
    fn default() -> (r: Self)
        ensures
            r.uploader_id is None && r.category is None && r.disk is None && r.mime_type is None
                && r.search is None,
    {
        MediaFileFilters { uploader_id: None, category: None, disk: None, mime_type: None, search: None }
    }
}

} // verus!

//! Recommended projects: source kinds, listing filters and the statement
//! parts of a listing and of a partial update.
use vstd::prelude::*;
use vstd::string::*;
use crate::json::JsonValue;
use crate::governance::time::Timestamp;
use crate::db::sql::{set_parts, numbered_set_parts, string_views, where_clause, limit_clause, offset_clause, limit_offset_clause};
use crate::text::{chars_of, string_of, push_all, dec, dec_chars, views, join_chars};

verus! {

/// A project uploaded by an administrator.
pub const SOURCE_ADMIN_UPLOAD: &'static str = "admin_upload";

/// A project derived from a system topic.
pub const SOURCE_SYSTEM_TOPIC: &'static str = "system_topic";

/// A project produced by media generation.
pub const SOURCE_AI_GENERATED: &'static str = "ai_generated";

/// Filters of the administrator's listing.
#[derive(Debug)]
pub struct RecommendedProjectFilters {
    pub source_type: Option<String>,
    pub is_active: Option<bool>,
    pub search: Option<String>,
    pub limit: Option<i64>,
    pub offset: Option<i64>,
}

impl Default for RecommendedProjectFilters {
    fn default() -> (r: Self)
        ensures
            r.source_type is None && r.is_active is None && r.search is None && r.limit is None
                && r.offset is None,
    {
        RecommendedProjectFilters { source_type: None, is_active: None, search: None, limit: None, offset: None }
    }
}

/// A partial update of a recommended project: the given fields change.
#[derive(Debug)]
pub struct UpdateRecommendedProject {
    pub title: Option<String>,
    pub description: Option<String>,
    pub thumbnail_url: Option<String>,
    pub project_file_url: Option<String>,
    pub ratio: Option<String>,
    pub project_type: Option<String>,
    pub tags: Option<JsonValue>,
    pub modules: Option<JsonValue>,
    pub source_type: Option<String>,
    pub source_reference: Option<String>,
    pub source_payload: Option<JsonValue>,
    pub display_priority: Option<i32>,
    pub is_active: Option<bool>,
    pub starts_at: Option<Timestamp>,
    pub ends_at: Option<Timestamp>,
    pub updated_by: Option<i64>,
}

/// The columns of an update, in statement order, each with whether the
/// update gives it.
pub open spec fn update_columns(p: UpdateRecommendedProject) -> Seq<(&'static str, bool)> {
    seq![
        ("title", p.title is Some),
        ("description", p.description is Some),
        ("thumbnail_url", p.thumbnail_url is Some),
        ("project_file_url", p.project_file_url is Some),
        ("ratio", p.ratio is Some),
        ("project_type", p.project_type is Some),
        ("tags", p.tags is Some),
        ("modules", p.modules is Some),
        ("source_type", p.source_type is Some),
        ("source_reference", p.source_reference is Some),
        ("source_payload", p.source_payload is Some),
        ("display_priority", p.display_priority is Some),
        ("is_active", p.is_active is Some),
        ("starts_at", p.starts_at is Some),
        ("ends_at", p.ends_at is Some),
        ("updated_by", p.updated_by is Some),
    ]
}

/// The `SET` assignments of an update: `<column> = $<n>` for each given
/// field, in column order, numbered from 1.
pub fn dynamic_update_set(payload: &UpdateRecommendedProject) -> (r: Vec<String>)
    ensures
        string_views(r@) == set_parts(update_columns(*payload)),
{
    let columns: Vec<(&str, bool)> = vec![
        ("title", payload.title.is_some()),
        ("description", payload.description.is_some()),
        ("thumbnail_url", payload.thumbnail_url.is_some()),
        ("project_file_url", payload.project_file_url.is_some()),
        ("ratio", payload.ratio.is_some()),
        ("project_type", payload.project_type.is_some()),
        ("tags", payload.tags.is_some()),
        ("modules", payload.modules.is_some()),
        ("source_type", payload.source_type.is_some()),
        ("source_reference", payload.source_reference.is_some()),
        ("source_payload", payload.source_payload.is_some()),
        ("display_priority", payload.display_priority.is_some()),
        ("is_active", payload.is_active.is_some()),
        ("starts_at", payload.starts_at.is_some()),
        ("ends_at", payload.ends_at.is_some()),
        ("updated_by", payload.updated_by.is_some()),
    ];
    assert(columns@ =~= update_columns(*payload));
    numbered_set_parts(&columns)
}

/// The conditions of a listing: `source_type = $n`, `is_active = $n` and
/// `title ILIKE $n` for the given filters, numbered in that order.
pub open spec fn listing_conditions(f: RecommendedProjectFilters) -> Seq<Seq<char>> {
    set_parts(seq![("source_type", f.source_type is Some), ("is_active", f.is_active is Some)])
        + (if f.search is Some {
            seq!["title ILIKE $"@ + dec(
                set_parts(seq![("source_type", f.source_type is Some), ("is_active", f.is_active is Some)]).len() + 1,
            )]
        } else {
            Seq::empty()
        })
}

/// The `WHERE` clause of a listing (empty without filters).
pub fn listing_where_clause(filters: &RecommendedProjectFilters) -> (r: String)
    ensures
        r@ == where_clause(listing_conditions(*filters)),
{
    let mut columns: Vec<(&str, bool)> = Vec::new();
    columns.push(("source_type", filters.source_type.is_some()));
    columns.push(("is_active", filters.is_active.is_some()));
    let ghost cols = seq![("source_type", filters.source_type is Some), ("is_active", filters.is_active is Some)];
    assert(columns@ =~= cols);
    let parts = numbered_set_parts(&columns);
    let mut conditions: Vec<Vec<char>> = Vec::new();
    let mut i: usize = 0;
    while i < parts.len()
        invariant
            i <= parts.len(),
            views(conditions@) =~= string_views(parts@).take(i as int),
        decreases parts.len() - i,
    {
        let ghost before = views(conditions@);
        let c = chars_of(parts[i].as_str());
        conditions.push(c);
        assert(views(conditions@) =~= before.push(c@));
        assert(string_views(parts@)[i as int] == parts@[i as int]@);
        assert(string_views(parts@).take(i + 1) =~= string_views(parts@).take(i as int).push(parts@[i as int]@));
        i = i + 1;
    }
    assert(views(conditions@) =~= set_parts(cols));
    if filters.search.is_some() {
        let mut c = chars_of("title ILIKE $");
        proof {
            crate::db::sql::lemma_set_parts_len(cols);
        }
        let n: u32 = (conditions.len() + 1) as u32;
        push_all(&mut c, dec_chars(n).as_slice());
        let ghost before = views(conditions@);
        conditions.push(c);
        assert(views(conditions@) =~= before.push(c@));
    }
    assert(views(conditions@) =~= listing_conditions(*filters));
    if conditions.len() == 0 {
        String::new()
    } else {
        let mut text = chars_of("WHERE ");
        let joined = join_chars(&conditions, chars_of(" AND ").as_slice());
        push_all(&mut text, joined.as_slice());
        string_of(text.as_slice())
    }
}

/// The `LIMIT`/`OFFSET` tail of a listing.
pub fn listing_tail(filters: &RecommendedProjectFilters) -> (r: String)
    ensures
        r@ == limit_clause(filters.limit) + offset_clause(filters.offset),
{
    limit_offset_clause(filters.limit, filters.offset)
}

/// A new recommended project as requested; absent optional fields take
/// their defaults when stored.
#[derive(Debug)]
pub struct CreateRecommendedProject {
    pub title: String,
    pub description: Option<String>,
    pub thumbnail_url: Option<String>,
    pub project_file_url: Option<String>,
    pub ratio: Option<String>,
    pub project_type: Option<String>,
    pub tags: Option<JsonValue>,
    pub modules: Option<JsonValue>,
    pub source_type: String,
    pub source_reference: Option<String>,
    pub source_payload: Option<JsonValue>,
    pub display_priority: Option<i32>,
    pub is_active: Option<bool>,
    pub starts_at: Option<Timestamp>,
    pub ends_at: Option<Timestamp>,
    pub created_by: Option<i64>,
}

/// The stored ratio, priority and activity of a new project: `16:9`, 0 and
/// active unless given.
pub fn create_defaults(payload: &CreateRecommendedProject) -> (r: (String, i32, bool))
    ensures
        r.0@ == match payload.ratio {
            Some(x) => x@,
            None => "16:9"@,
        },
        r.1 == match payload.display_priority {
            Some(x) => x,
            None => 0,
        },
        r.2 == match payload.is_active {
            Some(x) => x,
            None => true,
        },
{
    let ratio = match &payload.ratio {
        Some(x) => x.clone(),
        None => String::from_str("16:9"),
    };
    let priority = match payload.display_priority {
        Some(x) => x,
        None => 0,
    };
    let active = match payload.is_active {
        Some(x) => x,
        None => true,
    };
    (ratio, priority, active)
}

/// A project shows at a moment when it is active and the moment lies in
/// its optional start–end window (both ends included).
pub open spec fn visible_at(is_active: bool, starts_at: Option<Timestamp>, ends_at: Option<Timestamp>, moment: Timestamp) -> bool {
    &&& is_active
    &&& match starts_at {
        Some(s) => s.secs < moment.secs || (s.secs == moment.secs && s.nanos <= moment.nanos),
        None => true,
    }
    &&& match ends_at {
        Some(e) => moment.secs < e.secs || (moment.secs == e.secs && moment.nanos <= e.nanos),
        None => true,
    }
}

} // verus!

//! The decisions of publishing a generation: which rows are published at
//! all, what artifact the renderer's response names, the title and owner
//! the published entities get, where a thumbnail comes from, and which
//! uploads a failed publication deletes again. Reading
//! the row, downloading, uploading and writing the entities are done by
//! the caller with the values decided here.
use vstd::prelude::*;
use vstd::string::*;

use crate::json::{JsonValue, get, as_str, json_get, json_get_opt, json_str};
use crate::media_gen::publication::{PublicationError, default_mime_for, spec_default_mime_for};
use crate::text::{clone_strings, dec_i64_chars, signed_dec, str_is, string_of};

verus! {

/// Storage category of published artifacts and of renderer thumbnails.
pub const ARTIFACT_CATEGORY: &'static str = "materials";

/// Storage category of generated fallback thumbnails.
pub const FALLBACK_THUMBNAIL_CATEGORY: &'static str = "gallery";

/// MIME type under which a renderer thumbnail is stored.
pub const RENDERER_THUMBNAIL_MIME: &'static str = "image/svg+xml";

/// Title of the published topic when the interpretation names none.
pub const DEFAULT_TOPIC_TITLE: &'static str = "Generated Topic";

/// What publication reads of a generation row.
#[derive(Debug)]
pub struct PublicationRow {
    pub status: String,
    pub interpretation_payload: Option<JsonValue>,
    pub generator_service_response: Option<JsonValue>,
    pub resolved_output_type: Option<String>,
    pub mime_type: Option<String>,
    pub teacher_id: Option<i64>,
}

/// What a generation that is to be published is published with.
#[derive(Debug)]
pub struct ArtifactPlan {
    /// Output type: the resolved one, else `pdf`.
    pub output_type: String,
    /// MIME type: the stored one, else the default of the output type.
    pub mime_type: String,
    /// Where the renderer put the artifact.
    pub file_url: String,
    /// The renderer's own thumbnail, when it named a non-empty one.
    pub renderer_thumbnail_url: Option<String>,
    /// Title of the topic, content and recommended project.
    pub topic_title: String,
    /// The teacher id as text, empty without a teacher.
    pub teacher_ref: String,
}

/// The outcome of looking at a generation row.
#[derive(Debug)]
pub enum PublicationPlan {
    /// The generation is completed or cancelled: nothing is published.
    AlreadySettled,
    /// The generation is published with this plan.
    Publish(ArtifactPlan),
}

/// Where a published generation's thumbnail comes from.
#[derive(Debug, Clone, Copy, PartialEq, Eq, Structural)]
pub enum ThumbnailSource {
    /// The thumbnail the renderer made, stored again under `ARTIFACT_CATEGORY`.
    Renderer,
    /// A generated fallback, stored under `FALLBACK_THUMBNAIL_CATEGORY`.
    Fallback,
}

/// Statuses after which a generation is not published again.
pub open spec fn is_settled(status: Seq<char>) -> bool {
    status == "completed"@ || status == "cancelled"@
}

/// The first of two lookups that found something.
pub open spec fn first_found(a: Option<JsonValue>, b: Option<JsonValue>) -> Option<JsonValue> {
    match a {
        Some(_) => a,
        None => b,
    }
}

/// The text under `key` in a renderer response: the member `key` itself,
/// or, when there is none, the member `key` of its member `response`.
/// A member that is there but is not a string gives nothing.
pub open spec fn response_text(resp: JsonValue, key: Seq<char>) -> Option<Seq<char>> {
    json_str(first_found(json_get(resp, key), json_get_opt(json_get(resp, "response"@), key)))
}

/// The renderer's thumbnail URL, when it is a non-empty string.
pub open spec fn renderer_thumbnail(resp: JsonValue) -> Option<Seq<char>> {
    match response_text(resp, "thumbnail_url"@) {
        Some(t) => if t.len() > 0 { Some(t) } else { None },
        None => None,
    }
}

/// The title of the interpretation's document blueprint, else the default.
pub open spec fn topic_title_of(interpretation: Option<JsonValue>) -> Seq<char> {
    match json_str(json_get_opt(json_get_opt(interpretation, "document_blueprint"@), "title"@)) {
        Some(t) => t,
        None => DEFAULT_TOPIC_TITLE@,
    }
}

/// The teacher id as text, or the empty text.
pub open spec fn teacher_ref_of(teacher_id: Option<i64>) -> Seq<char> {
    match teacher_id {
        Some(id) => signed_dec(id as int),
        None => Seq::empty(),
    }
}

/// The output type of a row: the resolved one, else `pdf`.
pub open spec fn output_type_of(resolved: Option<String>) -> Seq<char> {
    match resolved {
        Some(t) => t@,
        None => "pdf"@,
    }
}

/// The MIME type of a row: the stored one, else the output type's default.
pub open spec fn mime_type_of(stored: Option<String>, output_type: Seq<char>) -> Seq<char> {
    match stored {
        Some(m) => m@,
        None => spec_default_mime_for(output_type),
    }
}

/// The text under `key` in a renderer response (see `response_text`).
fn response_field(resp: &JsonValue, key: &str) -> (r: Option<String>)
    ensures
        match r {
            Some(s) => response_text(*resp, key@) == Some(s@),
            None => response_text(*resp, key@) is None,
        },
{
    let direct = get(resp, key);
    let found = match direct {
        Some(v) => Some(v),
        None => match get(resp, "response") {
            Some(inner) => get(inner, key),
            None => None,
        },
    };
    match as_str(found) {
        Some(s) => Some(String::from_str(s)),
        None => None,
    }
}

/// The title the published entities get (see `topic_title_of`).
pub fn topic_title(interpretation: Option<&JsonValue>) -> (r: String)
    ensures
        r@ == topic_title_of(
            match interpretation {
                Some(v) => Some(*v),
                None => None,
            },
        ),
{
    let blueprint = match interpretation {
        Some(p) => get(p, "document_blueprint"),
        None => None,
    };
    let title = match blueprint {
        Some(b) => get(b, "title"),
        None => None,
    };
    match as_str(title) {
        Some(t) => String::from_str(t),
        None => String::from_str(DEFAULT_TOPIC_TITLE),
    }
}

/// The teacher id as text, empty without a teacher.
pub fn teacher_ref(teacher_id: Option<i64>) -> (r: String)
    ensures
        r@ == teacher_ref_of(teacher_id),
{
    match teacher_id {
        Some(id) => {
            let digits = dec_i64_chars(id);
            string_of(digits.as_slice())
        },
        None => String::new(),
    }
}

/// Decide what happens to the generation `generation_id`, given its row
/// when there is one: a missing row is `NotFound`; a completed or cancelled
/// generation is left alone; otherwise the renderer's response must name
/// the artifact as a string `file_url` (else `MissingArtifact`), and the
/// plan carries the output type, MIME type, artifact and thumbnail URLs,
/// topic title and teacher reference.
pub fn plan_publication(generation_id: &str, row: Option<&PublicationRow>) -> (r: Result<PublicationPlan, PublicationError>)
    ensures
        match row {
            None => r matches Err(PublicationError::NotFound(s)) && s@ == generation_id@,
            Some(w) => if is_settled(w.status@) {
                r matches Ok(PublicationPlan::AlreadySettled)
            } else {
                match w.generator_service_response {
                    None => r matches Err(PublicationError::MissingArtifact),
                    Some(resp) => match response_text(resp, "file_url"@) {
                        None => r matches Err(PublicationError::MissingArtifact),
                        Some(url) => r matches Ok(PublicationPlan::Publish(p)) && {
                            &&& p.file_url@ == url
                            &&& p.output_type@ == output_type_of(w.resolved_output_type)
                            &&& p.mime_type@ == mime_type_of(w.mime_type, output_type_of(w.resolved_output_type))
                            &&& p.topic_title@ == topic_title_of(w.interpretation_payload)
                            &&& p.teacher_ref@ == teacher_ref_of(w.teacher_id)
                            &&& match renderer_thumbnail(resp) {
                                Some(t) => p.renderer_thumbnail_url matches Some(u) && u@ == t,
                                None => p.renderer_thumbnail_url is None,
                            }
                        },
                    },
                }
            },
        },
{
    let w = match row {
        None => return Err(PublicationError::NotFound(String::from_str(generation_id))),
        Some(w) => w,
    };
    if str_is(w.status.as_str(), "completed") || str_is(w.status.as_str(), "cancelled") {
        return Ok(PublicationPlan::AlreadySettled);
    }
    let output_type = match &w.resolved_output_type {
        Some(t) => String::from_str(t.as_str()),
        None => String::from_str("pdf"),
    };
    let mime_type = match &w.mime_type {
        Some(m) => String::from_str(m.as_str()),
        None => String::from_str(default_mime_for(output_type.as_str())),
    };
    let resp = match &w.generator_service_response {
        None => return Err(PublicationError::MissingArtifact),
        Some(resp) => resp,
    };
    let file_url = match response_field(resp, "file_url") {
        None => return Err(PublicationError::MissingArtifact),
        Some(u) => u,
    };
    let renderer_thumbnail_url = match response_field(resp, "thumbnail_url") {
        Some(t) => if t.as_str().is_empty() { None } else { Some(t) },
        None => None,
    };
    let interpretation = match &w.interpretation_payload {
        Some(p) => Some(p),
        None => None,
    };
    let plan = ArtifactPlan {
        output_type,
        mime_type,
        file_url,
        renderer_thumbnail_url,
        topic_title: topic_title(interpretation),
        teacher_ref: teacher_ref(w.teacher_id),
    };
    Ok(PublicationPlan::Publish(plan))
}

/// Where the thumbnail comes from, given what downloading the renderer's
/// thumbnail gave (nothing when there was none or the download failed):
/// the renderer's when it gave some bytes, else the fallback.
pub fn choose_thumbnail(renderer_download: Option<&[u8]>) -> (r: ThumbnailSource)
    ensures
        r == (if renderer_download matches Some(b) && b@.len() > 0 {
            ThumbnailSource::Renderer
        } else {
            ThumbnailSource::Fallback
        }),
{
    match renderer_download {
        Some(b) => if b.len() > 0 { ThumbnailSource::Renderer } else { ThumbnailSource::Fallback },
        None => ThumbnailSource::Fallback,
    }
}


/// The uploaded files to delete once a publication has run: all of them,
/// in upload order, when it failed; none when it succeeded.
pub fn compensation_paths(uploaded: &Vec<String>, succeeded: bool) -> (r: Vec<String>)
    ensures
        r@ == if succeeded { Seq::<String>::empty() } else { uploaded@ },
{
    if succeeded {
        Vec::new()
    } else {
        clone_strings(uploaded)
    }
}

} // verus!

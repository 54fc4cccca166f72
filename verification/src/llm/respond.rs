//! Delivery response composition: its route, request type, default
//! instruction, what a request carries, the metadata headers, and the
//! results it returns.
use vstd::prelude::*;
use vstd::string::*;
use crate::json::{JsonValue, json_get, json_get_opt, json_str, member_value};
use crate::governance::money::Money;
use crate::llm::call_record::answering;
use crate::llm::pipeline::{build_provider_headers, pair_views, provider_headers, result_source};

verus! {

/// Governance and ledger route of delivery responses.
pub const RESPOND_ROUTE: &'static str = "respond";

/// Request type of delivery responses in the ledger.
pub const RESPOND_REQUEST_TYPE: &'static str = "media_delivery_response";

/// Default system instruction for delivery responses.
pub const DEFAULT_RESPOND_INSTRUCTION: &'static str = "\
You are a media generation assistant helping teachers prepare their generated \
classroom material for delivery. Given the artifact details and publication \
context, compose a delivery response for the teacher. Return a valid JSON \
object following the media_delivery_response.v1 schema. Include a teacher \
message, recommended next steps, classroom tips, and ensure the response_meta \
accurately reflects the provider and model used. Write in the same language \
as the original prompt.";

/// A request to compose the delivery response of a generation.
#[derive(Debug, Clone)]
pub struct RespondInput {
    /// The generation the response belongs to.
    pub generation_id: String,
    /// Title of the generated material.
    pub title: String,
    /// Short summary of the generated content.
    pub preview_summary: String,
    /// The generated file.
    pub artifact: RespondArtifact,
    /// Where the material was published.
    pub publication: RespondPublication,
    /// Model instead of the configured one.
    pub model: Option<String>,
    /// Instruction instead of the default one.
    pub instruction: Option<String>,
}

/// A generated file.
#[derive(Debug, Clone)]
pub struct RespondArtifact {
    /// Output type: `pdf`, `docx` or `pptx`.
    pub output_type: String,
    /// Public URL of the file.
    pub file_url: String,
    /// MIME type.
    pub mime_type: String,
    /// Thumbnail URL.
    pub thumbnail_url: Option<String>,
    /// File name.
    pub filename: Option<String>,
}

/// The entities a generation was published as.
#[derive(Debug, Clone)]
pub struct RespondPublication {
    pub topic: Option<EntityNode>,
    pub content: Option<EntityNode>,
    pub recommended_project: Option<EntityNode>,
}

impl Default for RespondPublication {
    fn default() -> (r: Self)
        ensures
            r.topic is None && r.content is None && r.recommended_project is None,
    {
        RespondPublication { topic: None, content: None, recommended_project: None }
    }
}

/// A published entity.
#[derive(Debug, Clone)]
pub struct EntityNode {
    pub id: String,
    pub title: String,
}

/// The metadata headers of a delivery response, in order.
pub fn respond_headers(provider: &str, model: &str, cache_hit: bool, fallback_used: bool) -> (r: Vec<(String, String)>)
    ensures
        pair_views(r@) == provider_headers(provider@, model@, cache_hit, fallback_used),
{
    build_provider_headers(provider, model, cache_hit, fallback_used)
}

/// An optional text as JSON: the string, or null.
pub open spec fn text_json_ok(v: Option<JsonValue>, t: Option<String>) -> bool {
    match t {
        Some(s) => json_str(v) == Some(s@),
        None => v == Some(JsonValue::Null),
    }
}

/// An optional entity as JSON: `{id, title}`, or null.
pub open spec fn entity_json_ok(v: Option<JsonValue>, e: Option<EntityNode>) -> bool {
    match e {
        Some(n) => json_str(json_get_opt(v, "id"@)) == Some(n.id@)
            && json_str(json_get_opt(v, "title"@)) == Some(n.title@),
        None => v == Some(JsonValue::Null),
    }
}

fn text_json(t: &Option<String>) -> (r: JsonValue)
    ensures
        text_json_ok(Some(r), *t),
{
    match t {
        Some(s) => JsonValue::Str(String::from_str(s.as_str())),
        None => JsonValue::Null,
    }
}

fn entity_json(e: &Option<EntityNode>) -> (r: JsonValue)
    ensures
        entity_json_ok(Some(r), *e),
{
    match e {
        Some(n) => {
            let members = vec![
                (String::from_str("id"), JsonValue::Str(String::from_str(n.id.as_str()))),
                (String::from_str("title"), JsonValue::Str(String::from_str(n.title.as_str()))),
            ];
            proof {
                reveal_strlit("id");
                reveal_strlit("title");
                reveal_with_fuel(member_value, 3);
                assert("id"@.len() != "title"@.len());
            }
            JsonValue::Object(members)
        },
        None => JsonValue::Null,
    }
}

/// The request a delivery response sends to the model: the title and
/// preview summary; the artifact's output type, title, file URL, thumbnail,
/// MIME type and file name; and the published topic, content and
/// recommended project (null when absent).
pub fn respond_user_payload(input: &RespondInput) -> (r: JsonValue)
    ensures
        json_str(json_get(r, "title"@)) == Some(input.title@),
        json_str(json_get(r, "preview_summary"@)) == Some(input.preview_summary@),
        json_str(json_get_opt(json_get(r, "artifact"@), "output_type"@)) == Some(input.artifact.output_type@),
        json_str(json_get_opt(json_get(r, "artifact"@), "title"@)) == Some(input.title@),
        json_str(json_get_opt(json_get(r, "artifact"@), "file_url"@)) == Some(input.artifact.file_url@),
        text_json_ok(json_get_opt(json_get(r, "artifact"@), "thumbnail_url"@), input.artifact.thumbnail_url),
        json_str(json_get_opt(json_get(r, "artifact"@), "mime_type"@)) == Some(input.artifact.mime_type@),
        text_json_ok(json_get_opt(json_get(r, "artifact"@), "filename"@), input.artifact.filename),
        entity_json_ok(json_get_opt(json_get(r, "publication"@), "topic"@), input.publication.topic),
        entity_json_ok(json_get_opt(json_get(r, "publication"@), "content"@), input.publication.content),
        entity_json_ok(
            json_get_opt(json_get(r, "publication"@), "recommended_project"@),
            input.publication.recommended_project,
        ),
{
    let artifact = vec![
        (String::from_str("output_type"), JsonValue::Str(String::from_str(input.artifact.output_type.as_str()))),
        (String::from_str("title"), JsonValue::Str(String::from_str(input.title.as_str()))),
        (String::from_str("file_url"), JsonValue::Str(String::from_str(input.artifact.file_url.as_str()))),
        (String::from_str("thumbnail_url"), text_json(&input.artifact.thumbnail_url)),
        (String::from_str("mime_type"), JsonValue::Str(String::from_str(input.artifact.mime_type.as_str()))),
        (String::from_str("filename"), text_json(&input.artifact.filename)),
    ];
    let publication = vec![
        (String::from_str("topic"), entity_json(&input.publication.topic)),
        (String::from_str("content"), entity_json(&input.publication.content)),
        (String::from_str("recommended_project"), entity_json(&input.publication.recommended_project)),
    ];
    let members = vec![
        (String::from_str("title"), JsonValue::Str(String::from_str(input.title.as_str()))),
        (String::from_str("preview_summary"), JsonValue::Str(String::from_str(input.preview_summary.as_str()))),
        (String::from_str("artifact"), JsonValue::Object(artifact)),
        (String::from_str("publication"), JsonValue::Object(publication)),
    ];
    proof {
        reveal_strlit("title");
        reveal_strlit("preview_summary");
        reveal_strlit("artifact");
        reveal_strlit("publication");
        reveal_strlit("output_type");
        reveal_strlit("file_url");
        reveal_strlit("thumbnail_url");
        reveal_strlit("mime_type");
        reveal_strlit("filename");
        reveal_strlit("topic");
        reveal_strlit("content");
        reveal_strlit("recommended_project");
        reveal_with_fuel(member_value, 7);
        assert("file_url"@[4] != "filename"@[4]);
        assert("title"@.len() != "output_type"@.len());
        assert("file_url"@.len() != "output_type"@.len() && "file_url"@.len() != "title"@.len());
        assert("thumbnail_url"@.len() != "output_type"@.len() && "thumbnail_url"@.len() != "title"@.len()
            && "thumbnail_url"@.len() != "file_url"@.len());
        assert("mime_type"@.len() != "output_type"@.len() && "mime_type"@.len() != "title"@.len()
            && "mime_type"@.len() != "file_url"@.len() && "mime_type"@.len() != "thumbnail_url"@.len());
        assert("filename"@.len() != "output_type"@.len() && "filename"@.len() != "title"@.len()
            && "filename"@.len() != "thumbnail_url"@.len() && "filename"@.len() != "mime_type"@.len());
        assert("content"@.len() != "topic"@.len());
        assert("recommended_project"@.len() != "topic"@.len() && "recommended_project"@.len() != "content"@.len());
        assert("preview_summary"@.len() != "title"@.len());
        assert("artifact"@.len() != "title"@.len() && "artifact"@.len() != "preview_summary"@.len());
        assert("publication"@.len() != "title"@.len() && "publication"@.len() != "preview_summary"@.len()
            && "publication"@.len() != "artifact"@.len());
    }
    JsonValue::Object(members)
}

/// What a delivery response's cache key is computed from: the title,
/// preview summary, the artifact's output type, file URL and MIME type, and
/// the published topic and content (null when absent).
pub fn respond_cache_input(input: &RespondInput) -> (r: JsonValue)
    ensures
        json_str(json_get(r, "title"@)) == Some(input.title@),
        json_str(json_get(r, "preview_summary"@)) == Some(input.preview_summary@),
        json_str(json_get_opt(json_get(r, "artifact"@), "output_type"@)) == Some(input.artifact.output_type@),
        json_str(json_get_opt(json_get(r, "artifact"@), "file_url"@)) == Some(input.artifact.file_url@),
        json_str(json_get_opt(json_get(r, "artifact"@), "mime_type"@)) == Some(input.artifact.mime_type@),
        entity_json_ok(json_get(r, "topic"@), input.publication.topic),
        entity_json_ok(json_get(r, "content"@), input.publication.content),
{
    let artifact = vec![
        (String::from_str("output_type"), JsonValue::Str(String::from_str(input.artifact.output_type.as_str()))),
        (String::from_str("file_url"), JsonValue::Str(String::from_str(input.artifact.file_url.as_str()))),
        (String::from_str("mime_type"), JsonValue::Str(String::from_str(input.artifact.mime_type.as_str()))),
    ];
    let members = vec![
        (String::from_str("title"), JsonValue::Str(String::from_str(input.title.as_str()))),
        (String::from_str("preview_summary"), JsonValue::Str(String::from_str(input.preview_summary.as_str()))),
        (String::from_str("artifact"), JsonValue::Object(artifact)),
        (String::from_str("topic"), entity_json(&input.publication.topic)),
        (String::from_str("content"), entity_json(&input.publication.content)),
    ];
    proof {
        reveal_strlit("title");
        reveal_strlit("preview_summary");
        reveal_strlit("artifact");
        reveal_strlit("output_type");
        reveal_strlit("file_url");
        reveal_strlit("mime_type");
        reveal_strlit("topic");
        reveal_strlit("content");
        reveal_with_fuel(member_value, 6);
        assert("file_url"@.len() != "output_type"@.len());
        assert("mime_type"@.len() != "output_type"@.len() && "mime_type"@.len() != "file_url"@.len());
        assert("preview_summary"@.len() != "title"@.len());
        assert("artifact"@.len() != "title"@.len() && "artifact"@.len() != "preview_summary"@.len());
        assert("topic"@[2] != "title"@[2]);
        assert("topic"@.len() != "preview_summary"@.len() && "topic"@.len() != "artifact"@.len());
        assert("content"@.len() != "title"@.len() && "content"@.len() != "preview_summary"@.len()
            && "content"@.len() != "artifact"@.len() && "content"@.len() != "topic"@.len());
    }
    JsonValue::Object(members)
}


/// What a cached delivery response records of how it was made.
#[derive(Debug, Clone)]
pub struct ResponseProvenance {
    pub provider: Option<String>,
    pub model: Option<String>,
    pub llm_used: bool,
    pub fallback_triggered: bool,
}

/// A finished delivery response.
#[derive(Debug)]
pub struct RespondResult {
    pub request_id: String,
    pub generation_id: String,
    pub delivery_payload: JsonValue,
    /// `cache`, `provider` or `fallback`.
    pub source: String,
    pub llm_provider: Option<String>,
    pub llm_model: Option<String>,
    pub llm_used: bool,
    pub fallback_used: bool,
    /// The metadata headers (see `provider_headers`).
    pub response_headers: Vec<(String, String)>,
    pub latency_ms: Option<Money>,
}

/// A delivery response served from the cache: it keeps what the cached
/// response records of its provider, model, model use and fallback, and
/// its headers name the configured provider and model as a cache hit.
pub fn respond_cached_result(
    request_id: String,
    generation_id: String,
    payload: JsonValue,
    provider: &str,
    model: &str,
    recorded: ResponseProvenance,
    latency_ms: Money,
) -> (r: RespondResult)
    ensures
        r.request_id == request_id,
        r.generation_id == generation_id,
        r.delivery_payload == payload,
        r.source@ == "cache"@,
        r.llm_provider == recorded.provider,
        r.llm_model == recorded.model,
        r.llm_used == recorded.llm_used,
        r.fallback_used == recorded.fallback_triggered,
        pair_views(r.response_headers@) == provider_headers(provider@, model@, true, false),
        r.latency_ms == Some(latency_ms),
{
    RespondResult {
        request_id,
        generation_id,
        delivery_payload: payload,
        source: String::from_str("cache"),
        llm_provider: recorded.provider,
        llm_model: recorded.model,
        llm_used: recorded.llm_used,
        fallback_used: recorded.fallback_triggered,
        response_headers: build_provider_headers(provider, model, true, false),
        latency_ms: Some(latency_ms),
    }
}

/// A delivery response composed by the provider, or by the fallback when
/// the provider's answer failed its contract: it names the model the
/// provider reported, when it reported one, in place of both the provider
/// and the model; the model counts as used exactly when the fallback was
/// not; the source and headers follow.
#[allow(clippy::too_many_arguments)]
pub fn respond_answered_result(
    request_id: String,
    generation_id: String,
    payload: JsonValue,
    provider: &str,
    model: &str,
    response_model: Option<&str>,
    fallback_used: bool,
    latency_ms: Money,
) -> (r: RespondResult)
    ensures
        r.request_id == request_id,
        r.generation_id == generation_id,
        r.delivery_payload == payload,
        r.source@ == if fallback_used { "fallback"@ } else { "provider"@ },
        r.llm_provider matches Some(p) && p@ == answering(response_model, provider),
        r.llm_model matches Some(m) && m@ == answering(response_model, model),
        r.llm_used == !fallback_used,
        r.fallback_used == fallback_used,
        pair_views(r.response_headers@) == provider_headers(
            answering(response_model, provider),
            answering(response_model, model),
            false,
            fallback_used,
        ),
        r.latency_ms == Some(latency_ms),
{
    let (named_provider, named_model) = match response_model {
        Some(m) => (m, m),
        None => (provider, model),
    };
    RespondResult {
        request_id,
        generation_id,
        delivery_payload: payload,
        source: String::from_str(result_source(fallback_used)),
        llm_provider: Some(String::from_str(named_provider)),
        llm_model: Some(String::from_str(named_model)),
        llm_used: !fallback_used,
        fallback_used,
        response_headers: build_provider_headers(named_provider, named_model, false, fallback_used),
        latency_ms: Some(latency_ms),
    }
}

} // verus!

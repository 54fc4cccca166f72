//! Content drafting: its route, request type, default instruction, the
//! taxonomy hint passed to the model, the metadata headers, and the results
//! it returns.
use vstd::prelude::*;
use vstd::string::*;
use crate::governance::money::Money;
use crate::json::{JsonValue, json_get, json_get_opt, json_str, member_value, json_same, or_null, deref_opt, get, get_opt, copy_member, lemma_member_pass, lemma_member_hit};
use crate::llm::call_record::{TokenUsage, answering};
use crate::llm::interpret::{count_json, count_json_ok, usage_json};
use crate::llm::respond::text_json_ok;
use crate::llm::pipeline::{build_provider_headers, pair_views, provider_headers, result_envelope, origin_source, ResultOrigin};

verus! {

/// Governance and ledger route of drafting (it shares delivery's route).
pub const DRAFT_ROUTE: &'static str = "respond";

/// Request type of drafting in the ledger.
pub const DRAFT_REQUEST_TYPE: &'static str = "media_content_draft";

/// Default system instruction for drafting.
pub const DEFAULT_DRAFT_INSTRUCTION: &'static str = "\
You are a media generation assistant helping teachers create classroom material. \
Given the following interpretation of a teacher's request, generate the actual \
content for the document. Return a valid JSON object following the \
media_content_draft.v1 schema. Include sections with body blocks, learning \
objectives, and a teacher delivery summary. Write in the same language as the \
interpretation.";

/// A request to draft the content of a generation.
#[derive(Debug)]
pub struct DraftInput {
    /// The generation the draft belongs to.
    pub generation_id: String,
    /// The decoded interpretation payload of the interpret step.
    pub interpretation: JsonValue,
    /// Resolved output type: `pdf`, `docx` or `pptx`.
    pub resolved_output_type: String,
    /// Taxonomy hint for the model.
    pub taxonomy_hint: Option<DraftTaxonomyHint>,
    /// Model instead of the configured one.
    pub model: Option<String>,
    /// Instruction instead of the default one.
    pub instruction: Option<String>,
}

/// Taxonomy hint passed to the drafting model.
#[derive(Debug, Clone)]
pub struct DraftTaxonomyHint {
    pub schema_version: String,
    pub source: String,
    pub subject_name: Option<String>,
    pub subject_slug: Option<String>,
    pub sub_subject_name: Option<String>,
    pub sub_subject_slug: Option<String>,
    pub jenjang: Option<String>,
    pub kelas: Option<i32>,
    pub semester: Option<i32>,
    pub bab: Option<i32>,
    pub description: Option<String>,
    pub structure: Option<String>,
    pub matched_signals: Vec<String>,
}

/// The metadata headers of a drafting result, in order.
pub fn headers_for(provider: &str, model: &str, cache_hit: bool, fallback_used: bool) -> (r: Vec<(String, String)>)
    ensures
        pair_views(r@) == provider_headers(provider@, model@, cache_hit, fallback_used),
{
    build_provider_headers(provider, model, cache_hit, fallback_used)
}


/// A finished draft.
#[derive(Debug)]
pub struct DraftResult {
    pub request_id: String,
    pub generation_id: String,
    pub draft_payload: JsonValue,
    /// `cache`, `provider` or `fallback`.
    pub source: String,
    /// Provider and model, with `cache_hit` for a cached draft and the
    /// token usage for an answered one.
    pub adapter_metadata: JsonValue,
    /// Why the fallback stands in, when it does.
    pub fallback_error: Option<String>,
    /// The metadata headers (see `provider_headers`).
    pub response_headers: Vec<(String, String)>,
    pub latency_ms: Option<Money>,
}

/// What the adapter metadata of a draft says.
pub open spec fn draft_metadata_ok(
    meta: JsonValue,
    provider: Seq<char>,
    model: Seq<char>,
    cached: bool,
    usage: Option<TokenUsage>,
) -> bool {
    &&& json_str(json_get(meta, "provider"@)) == Some(provider)
    &&& json_str(json_get(meta, "model"@)) == Some(model)
    &&& cached ==> json_get(meta, "cache_hit"@) == Some(JsonValue::Bool(true))
    &&& !cached ==> match usage {
        None => json_get(meta, "usage"@) == Some(JsonValue::Null),
        Some(u) => {
            &&& count_json_ok(json_get_opt(json_get(meta, "usage"@), "prompt_tokens"@), u.prompt_tokens)
            &&& count_json_ok(json_get_opt(json_get(meta, "usage"@), "completion_tokens"@), u.completion_tokens)
            &&& count_json_ok(json_get_opt(json_get(meta, "usage"@), "total_tokens"@), u.total_tokens)
        },
    }
}

/// A draft result. A cached draft names the configured provider and model;
/// an answered one (by the provider or the fallback) names the model the
/// provider reported, when it reported one, in place of both, with the
/// token usage. The source is `fallback` exactly when a fallback reason is
/// present, and the headers follow from the names, the cache hit and the
/// fallback.
#[allow(clippy::too_many_arguments)]
pub fn draft_result(
    request_id: String,
    generation_id: String,
    payload: JsonValue,
    provider: &str,
    model: &str,
    response_model: Option<&str>,
    usage: Option<TokenUsage>,
    origin: ResultOrigin,
    latency_ms: Money,
) -> (r: DraftResult)
    ensures
        r.request_id == request_id,
        r.generation_id == generation_id,
        r.draft_payload == payload,
        r.source@ == origin_source(origin),
        match origin {
            ResultOrigin::Fallback(e) => r.fallback_error == Some(e),
            _ => r.fallback_error is None,
        },
        r.latency_ms == Some(latency_ms),
        origin is Cache ==> pair_views(r.response_headers@) == provider_headers(provider@, model@, true, false)
            && draft_metadata_ok(r.adapter_metadata, provider@, model@, true, usage),
        !(origin is Cache) ==> pair_views(r.response_headers@) == provider_headers(
            answering(response_model, provider),
            answering(response_model, model),
            false,
            origin is Fallback,
        ) && draft_metadata_ok(
            r.adapter_metadata,
            answering(response_model, provider),
            answering(response_model, model),
            false,
            usage,
        ),
{
    proof {
        reveal_strlit("provider");
        reveal_strlit("model");
        reveal_strlit("cache_hit");
        reveal_strlit("usage");
        reveal_with_fuel(member_value, 4);
        assert("model"@.len() != "provider"@.len());
        assert("cache_hit"@.len() != "provider"@.len() && "cache_hit"@.len() != "model"@.len());
        assert("usage"@.len() != "provider"@.len() && "usage"@[0] != "model"@[0]);
    }
    let cached = match origin {
        ResultOrigin::Cache => true,
        _ => false,
    };
    let (named_provider, named_model) = if cached {
        (provider, model)
    } else {
        match response_model {
            Some(m) => (m, m),
            None => (provider, model),
        }
    };
    let meta = if cached {
        JsonValue::Object(vec![
            (String::from_str("provider"), JsonValue::Str(String::from_str(named_provider))),
            (String::from_str("model"), JsonValue::Str(String::from_str(named_model))),
            (String::from_str("cache_hit"), JsonValue::Bool(true)),
        ])
    } else {
        JsonValue::Object(vec![
            (String::from_str("provider"), JsonValue::Str(String::from_str(named_provider))),
            (String::from_str("model"), JsonValue::Str(String::from_str(named_model))),
            (String::from_str("usage"), usage_json(usage)),
        ])
    };
    let envelope = result_envelope(named_provider, named_model, origin);
    DraftResult {
        request_id,
        generation_id,
        draft_payload: payload,
        source: envelope.source,
        adapter_metadata: meta,
        fallback_error: envelope.fallback_error,
        response_headers: envelope.response_headers,
        latency_ms: Some(latency_ms),
    }
}


/// A copy of the value `src` (null when there is none) stands at `out`.
pub open spec fn copied(out: Option<JsonValue>, src: Option<JsonValue>) -> bool {
    out matches Some(o) && json_same(or_null(src), o)
}

/// The interpretation's document blueprint.
pub open spec fn blueprint(interpretation: JsonValue) -> Option<JsonValue> {
    json_get(interpretation, "document_blueprint"@)
}

/// A subject context of the interpretation as `{name, slug}`, or null when
/// the interpretation has none.
pub open spec fn draft_context_ok(out: Option<JsonValue>, ctx: Option<JsonValue>, name_key: Seq<char>, slug_key: Seq<char>) -> bool {
    if or_null(ctx) == JsonValue::Null {
        out == Some(JsonValue::Null)
    } else {
        &&& copied(json_get_opt(out, "name"@), json_get_opt(ctx, name_key))
        &&& copied(json_get_opt(out, "slug"@), json_get_opt(ctx, slug_key))
    }
}

fn context_copy(ctx: Option<&JsonValue>, name_key: &str, slug_key: &str) -> (r: JsonValue)
    ensures
        draft_context_ok(Some(r), deref_opt(ctx), name_key@, slug_key@),
{
    let present = match ctx {
        None => false,
        Some(JsonValue::Null) => false,
        Some(_) => true,
    };
    if !present {
        return JsonValue::Null;
    }
    let members = vec![
        (String::from_str("name"), copy_member(ctx, name_key)),
        (String::from_str("slug"), copy_member(ctx, slug_key)),
    ];
    proof {
        reveal_strlit("name");
        reveal_strlit("slug");
        reveal_with_fuel(member_value, 3);
        assert("name"@[0] != "slug"@[0]);
    }
    JsonValue::Object(members)
}

/// What a draft's cache key is computed from: the resolved output type; the
/// interpretation's title, summary and teacher prompt; and its subject and
/// sub-subject contexts as `{name, slug}` (null when absent).
pub fn draft_cache_input(input: &DraftInput) -> (r: JsonValue)
    ensures
        json_str(json_get(r, "resolved_output_type"@)) == Some(input.resolved_output_type@),
        copied(json_get(r, "interpretation_title"@), json_get_opt(blueprint(input.interpretation), "title"@)),
        copied(json_get(r, "interpretation_summary"@), json_get_opt(blueprint(input.interpretation), "summary"@)),
        copied(json_get(r, "teacher_prompt"@), json_get(input.interpretation, "teacher_prompt"@)),
        draft_context_ok(
            json_get(r, "subject_context"@),
            json_get(input.interpretation, "subject_context"@),
            "subject_name"@,
            "subject_slug"@,
        ),
        draft_context_ok(
            json_get(r, "sub_subject_context"@),
            json_get(input.interpretation, "sub_subject_context"@),
            "sub_subject_name"@,
            "sub_subject_slug"@,
        ),
{
    let interp = Some(&input.interpretation);
    let bp = get(&input.interpretation, "document_blueprint");
    let members = vec![
        (String::from_str("resolved_output_type"), JsonValue::Str(String::from_str(input.resolved_output_type.as_str()))),
        (String::from_str("interpretation_title"), copy_member(bp, "title")),
        (String::from_str("interpretation_summary"), copy_member(bp, "summary")),
        (String::from_str("teacher_prompt"), copy_member(interp, "teacher_prompt")),
        (String::from_str("subject_context"), context_copy(get(&input.interpretation, "subject_context"), "subject_name", "subject_slug")),
        (
            String::from_str("sub_subject_context"),
            context_copy(get(&input.interpretation, "sub_subject_context"), "sub_subject_name", "sub_subject_slug"),
        ),
    ];
    proof {
        reveal_strlit("resolved_output_type");
        reveal_strlit("interpretation_title");
        reveal_strlit("interpretation_summary");
        reveal_strlit("teacher_prompt");
        reveal_strlit("subject_context");
        reveal_strlit("sub_subject_context");
        reveal_with_fuel(member_value, 7);
        assert("interpretation_title"@[0] != "resolved_output_type"@[0]);
        assert("interpretation_summary"@.len() != "resolved_output_type"@.len()
            && "interpretation_summary"@.len() != "interpretation_title"@.len());
        assert("teacher_prompt"@.len() != "resolved_output_type"@.len() && "teacher_prompt"@.len() != "interpretation_title"@.len()
            && "teacher_prompt"@.len() != "interpretation_summary"@.len());
        assert("subject_context"@.len() != "resolved_output_type"@.len() && "subject_context"@.len() != "interpretation_title"@.len()
            && "subject_context"@.len() != "interpretation_summary"@.len() && "subject_context"@.len() != "teacher_prompt"@.len());
        assert("sub_subject_context"@.len() != "resolved_output_type"@.len() && "sub_subject_context"@.len() != "interpretation_title"@.len()
            && "sub_subject_context"@.len() != "interpretation_summary"@.len() && "sub_subject_context"@.len() != "teacher_prompt"@.len()
            && "sub_subject_context"@.len() != "subject_context"@.len());
    }
    JsonValue::Object(members)
}


/// A section of the blueprint as the drafting request passes it: its
/// title, purpose, bullets and estimated length.
pub open spec fn section_ok(out: JsonValue, src: JsonValue) -> bool {
    &&& copied(json_get(out, "title"@), json_get(src, "title"@))
    &&& copied(json_get(out, "purpose"@), json_get(src, "purpose"@))
    &&& copied(json_get(out, "bullets"@), json_get(src, "bullets"@))
    &&& copied(json_get(out, "estimated_length"@), json_get(src, "estimated_length"@))
}

/// The blueprint's sections, one for one and in order (none when the
/// blueprint lists none).
pub open spec fn sections_ok(out: Option<JsonValue>, src: Option<JsonValue>) -> bool {
    out matches Some(JsonValue::Array(ys)) && match src {
        Some(JsonValue::Array(xs)) => ys@.len() == xs@.len()
            && forall|k: int| 0 <= k < xs@.len() ==> section_ok(#[trigger] ys@[k], xs@[k]),
        _ => ys@.len() == 0,
    }
}

/// The interpretation's constraints: preferred output type, what to
/// include and avoid, and tone.
pub open spec fn constraints_ok(out: Option<JsonValue>, src: Option<JsonValue>) -> bool {
    &&& copied(json_get_opt(out, "preferred_output_type"@), json_get_opt(src, "preferred_output_type"@))
    &&& copied(json_get_opt(out, "must_include"@), json_get_opt(src, "must_include"@))
    &&& copied(json_get_opt(out, "avoid"@), json_get_opt(src, "avoid"@))
    &&& copied(json_get_opt(out, "tone"@), json_get_opt(src, "tone"@))
}

/// The taxonomy hint as the drafting request passes it, or null.
pub open spec fn hint_json_ok(out: Option<JsonValue>, hint: Option<DraftTaxonomyHint>) -> bool {
    match hint {
        None => out == Some(JsonValue::Null),
        Some(h) => {
            &&& text_json_ok(json_get_opt(out, "subject_name"@), h.subject_name)
            &&& text_json_ok(json_get_opt(out, "sub_subject_name"@), h.sub_subject_name)
            &&& text_json_ok(json_get_opt(out, "jenjang"@), h.jenjang)
            &&& count_json_ok(json_get_opt(out, "kelas"@), match h.kelas {
                Some(k) => Some(k as i64),
                None => None,
            })
            &&& text_json_ok(json_get_opt(out, "structure"@), h.structure)
            &&& json_get_opt(out, "matched_signals"@) matches Some(JsonValue::Array(ys)) && ys@.len() == h.matched_signals@.len()
                && forall|k: int| 0 <= k < ys@.len() ==> json_str(Some(#[trigger] ys@[k])) == Some(h.matched_signals@[k]@)
        },
    }
}

fn section_copy(src: &JsonValue) -> (r: JsonValue)
    ensures
        section_ok(r, *src),
{
    let v = Some(src);
    let members = vec![
        (String::from_str("title"), copy_member(v, "title")),
        (String::from_str("purpose"), copy_member(v, "purpose")),
        (String::from_str("bullets"), copy_member(v, "bullets")),
        (String::from_str("estimated_length"), copy_member(v, "estimated_length")),
    ];
    proof {
        reveal_strlit("title");
        reveal_strlit("purpose");
        reveal_strlit("bullets");
        reveal_strlit("estimated_length");
        reveal_with_fuel(member_value, 5);
        assert("purpose"@[0] != "bullets"@[0]);
    }
    JsonValue::Object(members)
}

fn sections_copy(src: Option<&JsonValue>) -> (r: JsonValue)
    ensures
        sections_ok(Some(r), deref_opt(src)),
{
    let mut out: Vec<JsonValue> = Vec::new();
    match src {
        Some(JsonValue::Array(xs)) => {
            let mut i: usize = 0;
            while i < xs.len()
                invariant
                    i <= xs.len(),
                    out@.len() == i,
                    forall|k: int| 0 <= k < i ==> section_ok(#[trigger] out@[k], xs@[k]),
                decreases xs.len() - i,
            {
                out.push(section_copy(&xs[i]));
                i += 1;
            }
        },
        _ => {},
    }
    JsonValue::Array(out)
}

fn constraints_copy(src: Option<&JsonValue>) -> (r: JsonValue)
    ensures
        constraints_ok(Some(r), deref_opt(src)),
{
    let members = vec![
        (String::from_str("preferred_output_type"), copy_member(src, "preferred_output_type")),
        (String::from_str("must_include"), copy_member(src, "must_include")),
        (String::from_str("avoid"), copy_member(src, "avoid")),
        (String::from_str("tone"), copy_member(src, "tone")),
    ];
    proof {
        reveal_strlit("preferred_output_type");
        reveal_strlit("must_include");
        reveal_strlit("avoid");
        reveal_strlit("tone");
        reveal_with_fuel(member_value, 5);
    }
    JsonValue::Object(members)
}

fn opt_text(t: &Option<String>) -> (r: JsonValue)
    ensures
        text_json_ok(Some(r), *t),
{
    match t {
        Some(s) => JsonValue::Str(String::from_str(s.as_str())),
        None => JsonValue::Null,
    }
}

fn hint_json(hint: &Option<DraftTaxonomyHint>) -> (r: JsonValue)
    ensures
        hint_json_ok(Some(r), *hint),
{
    match hint {
        None => JsonValue::Null,
        Some(h) => {
            let mut signals: Vec<JsonValue> = Vec::new();
            let mut i: usize = 0;
            while i < h.matched_signals.len()
                invariant
                    i <= h.matched_signals.len(),
                    signals@.len() == i,
                    forall|k: int| 0 <= k < i ==> json_str(Some(#[trigger] signals@[k])) == Some(h.matched_signals@[k]@),
                decreases h.matched_signals.len() - i,
            {
                signals.push(JsonValue::Str(String::from_str(h.matched_signals[i].as_str())));
                i += 1;
            }
            let kelas = match h.kelas {
                Some(k) => Some(k as i64),
                None => None,
            };
            let members = vec![
                (String::from_str("subject_name"), opt_text(&h.subject_name)),
                (String::from_str("sub_subject_name"), opt_text(&h.sub_subject_name)),
                (String::from_str("jenjang"), opt_text(&h.jenjang)),
                (String::from_str("kelas"), count_json(kelas)),
                (String::from_str("structure"), opt_text(&h.structure)),
                (String::from_str("matched_signals"), JsonValue::Array(signals)),
            ];
            proof {
                reveal_strlit("subject_name");
                reveal_strlit("sub_subject_name");
                reveal_strlit("jenjang");
                reveal_strlit("kelas");
                reveal_strlit("structure");
                reveal_strlit("matched_signals");
                let m = members@;
                assert(m[0].0@ == "subject_name"@ && m[1].0@ == "sub_subject_name"@ && m[2].0@ == "jenjang"@);
                assert(m[3].0@ == "kelas"@ && m[4].0@ == "structure"@);
                assert(m[0].0@.len() == 12 && m[1].0@.len() == 16 && m[2].0@.len() == 7 && m[3].0@.len() == 5 && m[4].0@.len() == 9);
                assert("kelas"@.len() == 5 && "matched_signals"@.len() == 15);
                lemma_member_hit(m, 0);
                lemma_member_hit(m, 1);
                lemma_member_pass(m, 0, "sub_subject_name"@);
                lemma_member_hit(m, 2);
                lemma_member_pass(m, 0, "jenjang"@);
                lemma_member_pass(m, 1, "jenjang"@);
                lemma_member_hit(m, 3);
                lemma_member_pass(m, 0, "kelas"@);
                lemma_member_pass(m, 1, "kelas"@);
                lemma_member_pass(m, 2, "kelas"@);
                lemma_member_hit(m, 4);
                lemma_member_pass(m, 0, "structure"@);
                lemma_member_pass(m, 1, "structure"@);
                lemma_member_pass(m, 2, "structure"@);
                lemma_member_pass(m, 3, "structure"@);
                lemma_member_hit(m, 5);
                lemma_member_pass(m, 0, "matched_signals"@);
                lemma_member_pass(m, 1, "matched_signals"@);
                lemma_member_pass(m, 2, "matched_signals"@);
                lemma_member_pass(m, 3, "matched_signals"@);
                lemma_member_pass(m, 4, "matched_signals"@);
            }
            JsonValue::Object(members)
        },
    }
}

/// The request a draft sends to the model: the output type; the
/// blueprint's title and summary; the learning objectives; the blueprint's
/// sections (title, purpose, bullets, estimated length); the language; the
/// teacher's goal; the constraints; and the taxonomy hint (null when
/// absent).
pub fn draft_user_payload(input: &DraftInput) -> (r: JsonValue)
    ensures
        json_str(json_get(r, "output_type"@)) == Some(input.resolved_output_type@),
        copied(json_get(r, "title"@), json_get_opt(blueprint(input.interpretation), "title"@)),
        copied(json_get(r, "summary"@), json_get_opt(blueprint(input.interpretation), "summary"@)),
        copied(json_get(r, "learning_objectives"@), json_get(input.interpretation, "learning_objectives"@)),
        sections_ok(json_get(r, "sections"@), json_get_opt(blueprint(input.interpretation), "sections"@)),
        copied(json_get(r, "language"@), json_get(input.interpretation, "language"@)),
        copied(
            json_get(r, "teacher_intent_goal"@),
            json_get_opt(json_get(input.interpretation, "teacher_intent"@), "goal"@),
        ),
        constraints_ok(json_get(r, "constraints"@), json_get(input.interpretation, "constraints"@)),
        hint_json_ok(json_get(r, "taxonomy_hint"@), input.taxonomy_hint),
{
    let interp = Some(&input.interpretation);
    let bp = get(&input.interpretation, "document_blueprint");
    let sections = sections_copy(get_opt(bp, "sections"));
    let hint = hint_json(&input.taxonomy_hint);
    let members = vec![
        (String::from_str("output_type"), JsonValue::Str(String::from_str(input.resolved_output_type.as_str()))),
        (String::from_str("title"), copy_member(bp, "title")),
        (String::from_str("summary"), copy_member(bp, "summary")),
        (String::from_str("learning_objectives"), copy_member(interp, "learning_objectives")),
        (String::from_str("sections"), sections),
        (String::from_str("language"), copy_member(interp, "language")),
        (String::from_str("teacher_intent_goal"), copy_member(get(&input.interpretation, "teacher_intent"), "goal")),
        (String::from_str("constraints"), constraints_copy(get(&input.interpretation, "constraints"))),
        (String::from_str("taxonomy_hint"), hint),
    ];
    proof {
        reveal_strlit("output_type");
        reveal_strlit("title");
        reveal_strlit("summary");
        reveal_strlit("learning_objectives");
        reveal_strlit("sections");
        reveal_strlit("language");
        reveal_strlit("teacher_intent_goal");
        reveal_strlit("constraints");
        reveal_strlit("taxonomy_hint");
        assert("sections"@[0] != "language"@[0]);
        assert("learning_objectives"@[0] != "teacher_intent_goal"@[0]);
        assert("output_type"@[0] != "constraints"@[0]);
        let m = members@;
        assert(m[0].0@ == "output_type"@ && m[1].0@ == "title"@ && m[2].0@ == "summary"@ && m[3].0@ == "learning_objectives"@);
        assert(m[4].0@ == "sections"@ && m[5].0@ == "language"@ && m[6].0@ == "teacher_intent_goal"@ && m[7].0@ == "constraints"@);
        assert(m[0].0@.len() == 11 && m[1].0@.len() == 5 && m[2].0@.len() == 7 && m[3].0@.len() == 19);
        assert(m[4].0@.len() == 8 && m[5].0@.len() == 8 && m[6].0@.len() == 19 && m[7].0@.len() == 11);
        assert("taxonomy_hint"@.len() == 13);
        assert(m[5].0@[0] != m[4].0@[0] && m[3].0@[0] != m[6].0@[0]);
        lemma_member_hit(m, 0);
        lemma_member_hit(m, 1);
        lemma_member_pass(m, 0, "title"@);
        lemma_member_hit(m, 2);
        lemma_member_pass(m, 0, "summary"@);
        lemma_member_pass(m, 1, "summary"@);
        lemma_member_hit(m, 3);
        lemma_member_pass(m, 0, "learning_objectives"@);
        lemma_member_pass(m, 1, "learning_objectives"@);
        lemma_member_pass(m, 2, "learning_objectives"@);
        lemma_member_hit(m, 4);
        lemma_member_pass(m, 0, "sections"@);
        lemma_member_pass(m, 1, "sections"@);
        lemma_member_pass(m, 2, "sections"@);
        lemma_member_pass(m, 3, "sections"@);
        lemma_member_hit(m, 5);
        lemma_member_pass(m, 0, "language"@);
        lemma_member_pass(m, 1, "language"@);
        lemma_member_pass(m, 2, "language"@);
        lemma_member_pass(m, 3, "language"@);
        lemma_member_pass(m, 4, "language"@);
        lemma_member_hit(m, 6);
        lemma_member_pass(m, 0, "teacher_intent_goal"@);
        lemma_member_pass(m, 1, "teacher_intent_goal"@);
        lemma_member_pass(m, 2, "teacher_intent_goal"@);
        lemma_member_pass(m, 3, "teacher_intent_goal"@);
        lemma_member_pass(m, 4, "teacher_intent_goal"@);
        lemma_member_pass(m, 5, "teacher_intent_goal"@);
        lemma_member_hit(m, 7);
        lemma_member_pass(m, 0, "constraints"@);
        lemma_member_pass(m, 1, "constraints"@);
        lemma_member_pass(m, 2, "constraints"@);
        lemma_member_pass(m, 3, "constraints"@);
        lemma_member_pass(m, 4, "constraints"@);
        lemma_member_pass(m, 5, "constraints"@);
        lemma_member_pass(m, 6, "constraints"@);
        lemma_member_hit(m, 8);
        lemma_member_pass(m, 0, "taxonomy_hint"@);
        lemma_member_pass(m, 1, "taxonomy_hint"@);
        lemma_member_pass(m, 2, "taxonomy_hint"@);
        lemma_member_pass(m, 3, "taxonomy_hint"@);
        lemma_member_pass(m, 4, "taxonomy_hint"@);
        lemma_member_pass(m, 5, "taxonomy_hint"@);
        lemma_member_pass(m, 6, "taxonomy_hint"@);
        lemma_member_pass(m, 7, "taxonomy_hint"@);
    }
    JsonValue::Object(members)
}

} // verus!

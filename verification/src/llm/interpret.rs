//! Prompt interpretation: its route, request type, default instruction,
//! what a request carries, and the results it returns.
use vstd::prelude::*;
use vstd::string::*;

use crate::json::{JsonValue, json_get, json_get_opt, json_str, member_value};
use crate::llm::call_record::TokenUsage;
use crate::governance::money::Money;
use crate::llm::pipeline::{pair_views, provider_headers, result_envelope, ResultOrigin};
use crate::text::{chars_of, dec_i64_chars, push_all, signed_dec, string_of, trim, trim_chars};

verus! {

/// Route of interpretation in the cache, governance and the ledger.
pub const INTERPRET_ROUTE: &'static str = "interpret";

/// Request type of interpretation in the ledger.
pub const INTERPRET_REQUEST_TYPE: &'static str = "media_prompt_interpretation";

/// Default system instruction for interpretation.
pub const DEFAULT_INTERPRET_INSTRUCTION: &'static str = "\
You are a media generation assistant helping Indonesian teachers create classroom material. \
Your job is to INTERPRET the teacher's prompt and determine if enough information exists \
to generate the requested document, or if clarification is needed (PLAN MODE).

## STEP 1: INTERPRET the teacher's prompt

Parse the raw prompt and extract whatever information you can into structured fields:
- target_audience: jenjang/kelas (e.g. SD Kelas 5, SMP Kelas 7)
- output_type: format file (pdf, docx, pptx)
- subject: mata pelajaran
- topic: topik materi
- learning_objectives: tujuan pembelajaran
- page_count / slide_count: jumlah halaman/slide
- difficulty_level: tingkat kesulitan
- etc.

## STEP 2: COMPARE against minimum requirements

### Required fields per content type:
- materi_pembelajaran: target_audience, output_type
- slide_presentasi: target_audience, output_type
- rpp: target_audience, learning_objectives
- lembar_kerja: target_audience, difficulty_level
- silabus: target_audience
- penilaian: target_audience, difficulty_level, question_count

## STEP 3: DECIDE — activate PLAN MODE or generate

If ANY required field is missing → plan_mode.active = true, list missing_fields with questions.
If ALL required fields present → plan_mode.active = false, full interpretation_payload.

## OUTPUT FORMAT (JSON):

Return a valid JSON object with these top-level keys:

1. plan_mode: { active: bool, reason: string|null, detected_content_type: string, content_type_confidence: float }
2. interpreted_fields: { target_audience: string|null, output_type: string|null, subject: string|null, topic: string|null, learning_objectives: array|null, page_count: string|null, difficulty_level: string|null, ... }
3. missing_fields: [ { field_id: string, field_label: string, priority: required or recommended, question: string (in Indonesian), suggestions: array, input_type: string } ]
4. confidence: { score: float (0.0-1.0), label: low or medium or high, rationale: string|null }
5. teacher_intent: { type: generate_learning_media, goal: string, preferred_delivery_mode: digital_download, requires_clarification: bool }
6. All standard media_prompt_understanding.v1 fields (schema_version, language, output_type_candidates, document_blueprint, constraints, teacher_delivery_summary, etc.)

## RULES:
- NEVER guess jenjang/kelas. If not specified, target_audience = null and must appear in missing_fields.
- Missing_fields max = 5 items, required fields first.
- Each missing field question must be in Indonesian (Bahasa).
- confidence.score < 0.5 when most required fields are missing.
- Respond in the same language as the teacher's prompt.
- For document_blueprint.title, ALWAYS generate a highly relevant, concise, and refined title summarizing the core knowledge of the generated material. Do not just use a generic 'asal' title (e.g., use 'Rangkuman Ekosistem Kelas 5' instead of 'buatkan materi tentang ekosistem'). Keep the title concise and not overly long.";

/// Configuration key of the interpretation instruction.
pub const INTERPRET_INSTRUCTION_KEY: &'static str = "media_prompt_interpretation_instruction";

/// A request to interpret a teacher's prompt.
#[derive(Debug, Clone)]
pub struct InterpretInput {
    /// The generation the interpretation belongs to.
    pub generation_id: String,
    /// The teacher's prompt.
    pub teacher_prompt: String,
    /// Preferred output type: `auto`, `pdf`, `docx` or `pptx`.
    pub preferred_output_type: String,
    /// Subject chosen by the caller.
    pub subject_context: Option<NamedContext>,
    /// Sub-subject chosen by the caller.
    pub sub_subject_context: Option<NamedContext>,
    /// Model instead of the configured one.
    pub model: Option<String>,
    /// Instruction instead of the default one.
    pub instruction: Option<String>,
}

/// A named taxonomy entry (subject or sub-subject) with an optional slug.
#[derive(Debug, Clone)]
pub struct NamedContext {
    pub id: i64,
    pub name: String,
    pub slug: Option<String>,
}

/// The best match of a taxonomy inference, as far as the interpretation
/// reads it.
#[derive(Debug, Clone)]
pub struct TaxonomyBestMatch {
    pub subject_name: String,
    pub subject_slug: String,
    pub sub_subject_name: Option<String>,
    pub sub_subject_slug: Option<String>,
    /// School level (jenjang) of the match.
    pub jenjang: Option<String>,
    /// Class (kelas) of the match.
    pub kelas: Option<i64>,
}

/// A subject taken from an inference.
#[derive(Debug, Clone)]
pub struct SubjectInfo {
    pub name: String,
    pub slug: String,
}

/// A sub-subject taken from an inference.
#[derive(Debug, Clone)]
pub struct SubSubjectInfo {
    pub name: String,
    pub slug: String,
}

impl TaxonomyBestMatch {
    /// The matched subject, when its name is not empty.
    pub fn try_into_subject(&self) -> (r: Option<SubjectInfo>)
        ensures
            self.subject_name@.len() == 0 ==> r is None,
            self.subject_name@.len() > 0 ==> (r matches Some(i) && i.name@ == self.subject_name@
                && i.slug@ == self.subject_slug@),
    {
        if self.subject_name.as_str().is_empty() {
            return None;
        }
        Some(SubjectInfo {
            name: String::from_str(self.subject_name.as_str()),
            slug: String::from_str(self.subject_slug.as_str()),
        })
    }

    /// The matched sub-subject, when it has a non-empty name and a slug.
    pub fn try_into_sub_subject(&self) -> (r: Option<SubSubjectInfo>)
        ensures
            match (self.sub_subject_name, self.sub_subject_slug) {
                (Some(name), Some(slug)) => if name@.len() > 0 {
                    r matches Some(i) && i.name@ == name@ && i.slug@ == slug@
                } else {
                    r is None
                },
                _ => r is None,
            },
    {
        let name = match &self.sub_subject_name {
            Some(n) => n,
            None => return None,
        };
        if name.as_str().is_empty() {
            return None;
        }
        match &self.sub_subject_slug {
            Some(slug) => Some(SubSubjectInfo {
                name: String::from_str(name.as_str()),
                slug: String::from_str(slug.as_str()),
            }),
            None => None,
        }
    }
}

/// A taxonomy context as JSON, with or without its id: the id as a
/// decimal number, the name, and the slug or null; null without a context.
pub open spec fn context_json_ok(v: Option<JsonValue>, c: Option<NamedContext>, with_id: bool) -> bool {
    match c {
        Some(ctx) => {
            &&& if with_id {
                json_get_opt(v, "id"@) matches Some(JsonValue::Number(n)) && n@ == signed_dec(ctx.id as int)
            } else {
                json_get_opt(v, "id"@) is None
            }
            &&& json_str(json_get_opt(v, "name"@)) == Some(ctx.name@)
            &&& match ctx.slug {
                Some(s) => json_str(json_get_opt(v, "slug"@)) == Some(s@),
                None => json_get_opt(v, "slug"@) == Some(JsonValue::Null),
            }
        },
        None => v == Some(JsonValue::Null),
    }
}

fn context_json(c: &Option<NamedContext>, with_id: bool) -> (r: JsonValue)
    ensures
        context_json_ok(Some(r), *c, with_id),
{
    match c {
        None => JsonValue::Null,
        Some(ctx) => {
            let slug = match &ctx.slug {
                Some(s) => JsonValue::Str(String::from_str(s.as_str())),
                None => JsonValue::Null,
            };
            let name = (String::from_str("name"), JsonValue::Str(String::from_str(ctx.name.as_str())));
            let slug_member = (String::from_str("slug"), slug);
            proof {
                reveal_strlit("id");
                reveal_strlit("name");
                reveal_strlit("slug");
                reveal_with_fuel(member_value, 4);
                assert("name"@[0] != "slug"@[0]);
                assert("id"@.len() != "name"@.len() && "id"@.len() != "slug"@.len());
            }
            if with_id {
                let digits = dec_i64_chars(ctx.id);
                let id = (String::from_str("id"), JsonValue::Number(string_of(digits.as_slice())));
                JsonValue::Object(vec![id, name, slug_member])
            } else {
                JsonValue::Object(vec![name, slug_member])
            }
        },
    }
}

/// What an interpretation's cache key is computed from: the prompt as
/// given, the preferred output type, and the subject and sub-subject
/// contexts with their ids.
pub fn interpret_cache_input(input: &InterpretInput) -> (r: JsonValue)
    ensures
        json_str(json_get(r, "teacher_prompt"@)) == Some(input.teacher_prompt@),
        json_str(json_get(r, "preferred_output_type"@)) == Some(input.preferred_output_type@),
        context_json_ok(json_get(r, "subject_context"@), input.subject_context, true),
        context_json_ok(json_get(r, "sub_subject_context"@), input.sub_subject_context, true),
{
    let members = vec![
        (String::from_str("teacher_prompt"), JsonValue::Str(String::from_str(input.teacher_prompt.as_str()))),
        (String::from_str("preferred_output_type"), JsonValue::Str(String::from_str(input.preferred_output_type.as_str()))),
        (String::from_str("subject_context"), context_json(&input.subject_context, true)),
        (String::from_str("sub_subject_context"), context_json(&input.sub_subject_context, true)),
    ];
    proof {
        reveal_strlit("teacher_prompt");
        reveal_strlit("preferred_output_type");
        reveal_strlit("subject_context");
        reveal_strlit("sub_subject_context");
        reveal_with_fuel(member_value, 5);
        assert("preferred_output_type"@.len() != "teacher_prompt"@.len());
        assert("subject_context"@.len() != "teacher_prompt"@.len()
            && "subject_context"@.len() != "preferred_output_type"@.len());
        assert("sub_subject_context"@.len() != "teacher_prompt"@.len()
            && "sub_subject_context"@.len() != "preferred_output_type"@.len()
            && "sub_subject_context"@.len() != "subject_context"@.len());
    }
    JsonValue::Object(members)
}

/// The structured part of an interpretation request: the trimmed prompt,
/// the preferred output type, and the subject and sub-subject contexts
/// without their ids.
pub fn interpret_user_payload(input: &InterpretInput) -> (r: JsonValue)
    ensures
        json_str(json_get(r, "teacher_prompt"@)) == Some(trim(input.teacher_prompt@)),
        json_str(json_get(r, "preferred_output_type"@)) == Some(input.preferred_output_type@),
        context_json_ok(json_get(r, "subject_context"@), input.subject_context, false),
        context_json_ok(json_get(r, "sub_subject_context"@), input.sub_subject_context, false),
{
    let prompt = trim_chars(chars_of(input.teacher_prompt.as_str()).as_slice());
    let members = vec![
        (String::from_str("teacher_prompt"), JsonValue::Str(string_of(prompt.as_slice()))),
        (String::from_str("preferred_output_type"), JsonValue::Str(String::from_str(input.preferred_output_type.as_str()))),
        (String::from_str("subject_context"), context_json(&input.subject_context, false)),
        (String::from_str("sub_subject_context"), context_json(&input.sub_subject_context, false)),
    ];
    proof {
        reveal_strlit("teacher_prompt");
        reveal_strlit("preferred_output_type");
        reveal_strlit("subject_context");
        reveal_strlit("sub_subject_context");
        reveal_with_fuel(member_value, 5);
        assert("preferred_output_type"@.len() != "teacher_prompt"@.len());
        assert("subject_context"@.len() != "teacher_prompt"@.len()
            && "subject_context"@.len() != "preferred_output_type"@.len());
        assert("sub_subject_context"@.len() != "teacher_prompt"@.len()
            && "sub_subject_context"@.len() != "preferred_output_type"@.len()
            && "sub_subject_context"@.len() != "subject_context"@.len());
    }
    JsonValue::Object(members)
}

/// The free-text opening of an interpretation request: the trimmed prompt,
/// then ` (subject: <name>)` and ` (sub_subject: <name>)` for the contexts
/// given.
pub open spec fn message_head(input: InterpretInput) -> Seq<char> {
    trim(input.teacher_prompt@) + context_hint(" (subject: "@, input.subject_context)
        + context_hint(" (sub_subject: "@, input.sub_subject_context)
}

/// `<opening><name>)` for a context, nothing without one.
pub open spec fn context_hint(opening: Seq<char>, c: Option<NamedContext>) -> Seq<char> {
    match c {
        Some(ctx) => opening + ctx.name@ + ")"@,
        None => Seq::empty(),
    }
}

/// The free-text opening of an interpretation request (see `message_head`);
/// the structured part follows after a blank line.
pub fn interpret_message_head(input: &InterpretInput) -> (r: String)
    ensures
        r@ == message_head(*input),
{
    let mut text = trim_chars(chars_of(input.teacher_prompt.as_str()).as_slice());
    let ghost base = text@;
    match &input.subject_context {
        Some(c) => {
            push_all(&mut text, chars_of(" (subject: ").as_slice());
            push_all(&mut text, chars_of(c.name.as_str()).as_slice());
            push_all(&mut text, chars_of(")").as_slice());
        },
        None => {},
    }
    let ghost mid = text@;
    match &input.sub_subject_context {
        Some(c) => {
            push_all(&mut text, chars_of(" (sub_subject: ").as_slice());
            push_all(&mut text, chars_of(c.name.as_str()).as_slice());
            push_all(&mut text, chars_of(")").as_slice());
        },
        None => {},
    }
    proof {
        assert(mid =~= base + context_hint(" (subject: "@, input.subject_context));
        assert(text@ =~= mid + context_hint(" (sub_subject: "@, input.sub_subject_context));
        assert(text@ =~= message_head(*input));
    }
    string_of(text.as_slice())
}

/// What a taxonomy inference adds to an interpretation.
#[derive(Debug)]
pub struct TaxonomyEnrichment {
    /// The subject context to set.
    pub subject: Option<SubjectInfo>,
    /// The sub-subject context to set.
    pub sub_subject: Option<SubSubjectInfo>,
    /// The target audience to set: the label and the level.
    pub audience: Option<(String, Option<String>)>,
}

/// Whether the prompt's taxonomy needs inferring: unless the caller gave
/// both the subject and the sub-subject.
pub fn needs_taxonomy_inference(input: &InterpretInput) -> (r: bool)
    ensures
        r == !(input.subject_context is Some && input.sub_subject_context is Some),
{
    !(input.subject_context.is_some() && input.sub_subject_context.is_some())
}

/// What an inference's best match adds to an interpretation: nothing when
/// the caller gave both contexts or nothing was inferred; otherwise the
/// matched subject when neither the caller nor the interpretation gave
/// one (and its name is not empty), the matched sub-subject likewise, and
/// the matched school level and class as target audience when the
/// interpretation has none.
pub fn taxonomy_enrichment(
    input: &InterpretInput,
    payload_has_subject: bool,
    payload_has_sub_subject: bool,
    payload_has_audience: bool,
    best: Option<&TaxonomyBestMatch>,
) -> (r: TaxonomyEnrichment)
    ensures
        match best {
            None => r.subject is None && r.sub_subject is None && r.audience is None,
            Some(b) => if input.subject_context is Some && input.sub_subject_context is Some {
                r.subject is None && r.sub_subject is None && r.audience is None
            } else {
                &&& if input.subject_context is None && !payload_has_subject && b.subject_name@.len() > 0 {
                    r.subject matches Some(i) && i.name@ == b.subject_name@ && i.slug@ == b.subject_slug@
                } else {
                    r.subject is None
                }
                &&& if input.sub_subject_context is None && !payload_has_sub_subject {
                    match (b.sub_subject_name, b.sub_subject_slug) {
                        (Some(name), Some(slug)) => if name@.len() > 0 {
                            r.sub_subject matches Some(i) && i.name@ == name@ && i.slug@ == slug@
                        } else {
                            r.sub_subject is None
                        },
                        _ => r.sub_subject is None,
                    }
                } else {
                    r.sub_subject is None
                }
                &&& match b.jenjang {
                    Some(label) => if payload_has_audience {
                        r.audience is None
                    } else {
                        r.audience matches Some((l, level)) && l@ == label@ && match b.kelas {
                            Some(k) => level matches Some(t) && t@ == signed_dec(k as int),
                            None => level is None,
                        }
                    },
                    None => r.audience is None,
                }
            },
        },
{
    let none = TaxonomyEnrichment { subject: None, sub_subject: None, audience: None };
    if !needs_taxonomy_inference(input) {
        return none;
    }
    let b = match best {
        None => return none,
        Some(b) => b,
    };
    let subject = if input.subject_context.is_none() && !payload_has_subject {
        b.try_into_subject()
    } else {
        None
    };
    let sub_subject = if input.sub_subject_context.is_none() && !payload_has_sub_subject {
        b.try_into_sub_subject()
    } else {
        None
    };
    let audience = if payload_has_audience {
        None
    } else {
        match &b.jenjang {
            Some(label) => {
                let level = match b.kelas {
                    Some(k) => {
                        let digits = dec_i64_chars(k);
                        Some(string_of(digits.as_slice()))
                    },
                    None => None,
                };
                Some((String::from_str(label.as_str()), level))
            },
            None => None,
        }
    };
    TaxonomyEnrichment { subject, sub_subject, audience }
}

/// A contract failure that made the fallback stand in for the answer.
#[derive(Debug)]
pub struct ContractFailure {
    pub code: String,
    pub message: String,
    pub details: JsonValue,
}

/// An optional count as JSON: the number, or null.
pub open spec fn count_json_ok(v: Option<JsonValue>, n: Option<i64>) -> bool {
    match n {
        Some(k) => v matches Some(JsonValue::Number(t)) && t@ == signed_dec(k as int),
        None => v == Some(JsonValue::Null),
    }
}

pub(crate) fn count_json(n: Option<i64>) -> (r: JsonValue)
    ensures
        count_json_ok(Some(r), n),
{
    match n {
        Some(k) => {
            let digits = dec_i64_chars(k);
            JsonValue::Number(string_of(digits.as_slice()))
        },
        None => JsonValue::Null,
    }
}

fn opt_text_json(t: Option<&str>) -> (r: JsonValue)
    ensures
        match t {
            Some(s) => json_str(Some(r)) == Some(s@),
            None => r == JsonValue::Null,
        },
{
    match t {
        Some(s) => JsonValue::Str(String::from_str(s)),
        None => JsonValue::Null,
    }
}

pub(crate) fn usage_json(usage: Option<TokenUsage>) -> (r: JsonValue)
    ensures
        match usage {
            Some(u) => {
                &&& count_json_ok(json_get(r, "prompt_tokens"@), u.prompt_tokens)
                &&& count_json_ok(json_get(r, "completion_tokens"@), u.completion_tokens)
                &&& count_json_ok(json_get(r, "total_tokens"@), u.total_tokens)
            },
            None => r == JsonValue::Null,
        },
{
    match usage {
        None => JsonValue::Null,
        Some(u) => {
            let members = vec![
                (String::from_str("prompt_tokens"), count_json(u.prompt_tokens)),
                (String::from_str("completion_tokens"), count_json(u.completion_tokens)),
                (String::from_str("total_tokens"), count_json(u.total_tokens)),
            ];
            proof {
                reveal_strlit("prompt_tokens");
                reveal_strlit("completion_tokens");
                reveal_strlit("total_tokens");
                reveal_with_fuel(member_value, 4);
                assert("completion_tokens"@.len() != "prompt_tokens"@.len());
                assert("total_tokens"@.len() != "prompt_tokens"@.len() && "total_tokens"@.len() != "completion_tokens"@.len());
            }
            JsonValue::Object(members)
        },
    }
}

fn failure_json(f: Option<ContractFailure>) -> (r: JsonValue)
    ensures
        match f {
            Some(e) => {
                &&& json_str(json_get(r, "code"@)) == Some(e.code@)
                &&& json_str(json_get(r, "message"@)) == Some(e.message@)
                &&& json_get(r, "details"@) == Some(e.details)
            },
            None => r == JsonValue::Null,
        },
{
    match f {
        None => JsonValue::Null,
        Some(e) => {
            let members = vec![
                (String::from_str("code"), JsonValue::Str(e.code)),
                (String::from_str("message"), JsonValue::Str(e.message)),
                (String::from_str("details"), e.details),
            ];
            proof {
                reveal_strlit("code");
                reveal_strlit("message");
                reveal_strlit("details");
                reveal_with_fuel(member_value, 4);
                assert("message"@.len() != "code"@.len());
                assert("details"@[0] != "code"@[0] && "details"@[0] != "message"@[0]);
            }
            JsonValue::Object(members)
        },
    }
}

/// The audit record of an interpretation: the provider and the model that
/// answered (else the one asked for); the request as its cache key sees it;
/// the route, request type, model, provider and instruction schema; the
/// raw completion with the answering model, usage and finish reason (each
/// null when absent); the taxonomy inference and the normalized payload;
/// whether the fallback stood in, and why.
#[allow(clippy::too_many_arguments)]
pub fn interpret_audit_payload(
    provider: &str,
    model: &str,
    input: &InterpretInput,
    raw_completion: &str,
    response_model: Option<&str>,
    usage: Option<TokenUsage>,
    finish_reason: Option<&str>,
    taxonomy_inference: Option<JsonValue>,
    normalized_payload: JsonValue,
    fallback_used: bool,
    fallback_error: Option<ContractFailure>,
) -> (r: JsonValue)
    ensures
        json_str(json_get(r, "llm_provider"@)) == Some(provider@),
        json_str(json_get(r, "llm_model"@)) == Some(match response_model {
            Some(m) => m@,
            None => model@,
        }),
        json_str(json_get_opt(json_get(r, "request_payload"@), "teacher_prompt"@)) == Some(input.teacher_prompt@),
        json_str(json_get_opt(json_get(r, "request_payload"@), "preferred_output_type"@)) == Some(input.preferred_output_type@),
        context_json_ok(json_get_opt(json_get(r, "request_payload"@), "subject_context"@), input.subject_context, true),
        context_json_ok(json_get_opt(json_get(r, "request_payload"@), "sub_subject_context"@), input.sub_subject_context, true),
        json_str(json_get_opt(json_get(r, "request_meta"@), "route"@)) == Some(INTERPRET_ROUTE@),
        json_str(json_get_opt(json_get(r, "request_meta"@), "request_type"@)) == Some(INTERPRET_REQUEST_TYPE@),
        json_str(json_get_opt(json_get(r, "request_meta"@), "model"@)) == Some(model@),
        json_str(json_get_opt(json_get(r, "request_meta"@), "provider"@)) == Some(provider@),
        json_str(json_get_opt(json_get(r, "request_meta"@), "instruction_schema"@)) == Some(INTERPRET_REQUEST_TYPE@),
        json_str(json_get_opt(json_get(r, "response"@), "raw_completion"@)) == Some(raw_completion@),
        match response_model {
            Some(m) => json_str(json_get_opt(json_get(r, "response"@), "provider_model"@)) == Some(m@),
            None => json_get_opt(json_get(r, "response"@), "provider_model"@) == Some(JsonValue::Null),
        },
        match usage {
            Some(u) => {
                &&& count_json_ok(json_get_opt(json_get_opt(json_get(r, "response"@), "usage"@), "prompt_tokens"@), u.prompt_tokens)
                &&& count_json_ok(json_get_opt(json_get_opt(json_get(r, "response"@), "usage"@), "completion_tokens"@), u.completion_tokens)
                &&& count_json_ok(json_get_opt(json_get_opt(json_get(r, "response"@), "usage"@), "total_tokens"@), u.total_tokens)
            },
            None => json_get_opt(json_get(r, "response"@), "usage"@) == Some(JsonValue::Null),
        },
        match finish_reason {
            Some(f) => json_str(json_get_opt(json_get(r, "response"@), "finish_reason"@)) == Some(f@),
            None => json_get_opt(json_get(r, "response"@), "finish_reason"@) == Some(JsonValue::Null),
        },
        json_get(r, "taxonomy_inference"@) == Some(match taxonomy_inference {
            Some(t) => t,
            None => JsonValue::Null,
        }),
        json_get(r, "normalized_payload"@) == Some(normalized_payload),
        json_get(r, "used_fallback"@) == Some(JsonValue::Bool(fallback_used)),
        match fallback_error {
            Some(e) => {
                &&& json_str(json_get_opt(json_get(r, "fallback_error"@), "code"@)) == Some(e.code@)
                &&& json_str(json_get_opt(json_get(r, "fallback_error"@), "message"@)) == Some(e.message@)
                &&& json_get_opt(json_get(r, "fallback_error"@), "details"@) == Some(e.details)
            },
            None => json_get(r, "fallback_error"@) == Some(JsonValue::Null),
        },
{
    let answered = match response_model {
        Some(m) => m,
        None => model,
    };
    let meta = vec![
        (String::from_str("route"), JsonValue::Str(String::from_str(INTERPRET_ROUTE))),
        (String::from_str("request_type"), JsonValue::Str(String::from_str(INTERPRET_REQUEST_TYPE))),
        (String::from_str("model"), JsonValue::Str(String::from_str(model))),
        (String::from_str("provider"), JsonValue::Str(String::from_str(provider))),
        (String::from_str("instruction_schema"), JsonValue::Str(String::from_str(INTERPRET_REQUEST_TYPE))),
    ];
    let response = vec![
        (String::from_str("raw_completion"), JsonValue::Str(String::from_str(raw_completion))),
        (String::from_str("provider_model"), opt_text_json(response_model)),
        (String::from_str("usage"), usage_json(usage)),
        (String::from_str("finish_reason"), opt_text_json(finish_reason)),
    ];
    let taxonomy = match taxonomy_inference {
        Some(t) => t,
        None => JsonValue::Null,
    };
    let members = vec![
        (String::from_str("llm_provider"), JsonValue::Str(String::from_str(provider))),
        (String::from_str("llm_model"), JsonValue::Str(String::from_str(answered))),
        (String::from_str("request_payload"), interpret_cache_input(input)),
        (String::from_str("request_meta"), JsonValue::Object(meta)),
        (String::from_str("response"), JsonValue::Object(response)),
        (String::from_str("taxonomy_inference"), taxonomy),
        (String::from_str("normalized_payload"), normalized_payload),
        (String::from_str("used_fallback"), JsonValue::Bool(fallback_used)),
        (String::from_str("fallback_error"), failure_json(fallback_error)),
    ];
    proof {
        reveal_strlit("route");
        reveal_strlit("request_type");
        reveal_strlit("model");
        reveal_strlit("provider");
        reveal_strlit("instruction_schema");
        reveal_strlit("raw_completion");
        reveal_strlit("provider_model");
        reveal_strlit("usage");
        reveal_strlit("finish_reason");
        reveal_strlit("llm_provider");
        reveal_strlit("llm_model");
        reveal_strlit("request_payload");
        reveal_strlit("request_meta");
        reveal_strlit("response");
        reveal_strlit("taxonomy_inference");
        reveal_strlit("normalized_payload");
        reveal_strlit("used_fallback");
        reveal_strlit("fallback_error");
        reveal_with_fuel(member_value, 10);
        // request_meta keys
        assert("request_type"@.len() != "route"@.len());
        assert("model"@[0] != "route"@[0] && "model"@.len() != "request_type"@.len());
        assert("provider"@.len() != "route"@.len() && "provider"@.len() != "request_type"@.len()
            && "provider"@.len() != "model"@.len());
        assert("instruction_schema"@.len() != "route"@.len() && "instruction_schema"@.len() != "request_type"@.len()
            && "instruction_schema"@.len() != "model"@.len() && "instruction_schema"@.len() != "provider"@.len());
        // response keys
        assert("provider_model"@[0] != "raw_completion"@[0]);
        assert("usage"@.len() != "raw_completion"@.len() && "usage"@.len() != "provider_model"@.len());
        assert("finish_reason"@.len() != "raw_completion"@.len() && "finish_reason"@.len() != "provider_model"@.len()
            && "finish_reason"@.len() != "usage"@.len());
        // top-level keys
        assert("llm_model"@.len() != "llm_provider"@.len());
        assert("request_payload"@.len() != "llm_provider"@.len() && "request_payload"@.len() != "llm_model"@.len());
        assert("request_meta"@[0] != "llm_provider"@[0] && "request_meta"@.len() != "llm_model"@.len()
            && "request_meta"@.len() != "request_payload"@.len());
        assert("response"@.len() != "llm_provider"@.len() && "response"@.len() != "llm_model"@.len()
            && "response"@.len() != "request_payload"@.len() && "response"@.len() != "request_meta"@.len());
        assert("taxonomy_inference"@[0] != "llm_provider"@[0] && "taxonomy_inference"@[0] != "llm_model"@[0]
            && "taxonomy_inference"@[0] != "request_payload"@[0] && "taxonomy_inference"@[0] != "request_meta"@[0]
            && "taxonomy_inference"@[0] != "response"@[0]);
        assert("normalized_payload"@[0] != "llm_provider"@[0] && "normalized_payload"@[0] != "llm_model"@[0]
            && "normalized_payload"@[0] != "request_payload"@[0] && "normalized_payload"@[0] != "request_meta"@[0]
            && "normalized_payload"@[0] != "response"@[0] && "normalized_payload"@[0] != "taxonomy_inference"@[0]);
        assert("used_fallback"@[0] != "llm_provider"@[0] && "used_fallback"@[0] != "llm_model"@[0]
            && "used_fallback"@[0] != "request_payload"@[0] && "used_fallback"@[0] != "request_meta"@[0]
            && "used_fallback"@[0] != "response"@[0] && "used_fallback"@[0] != "taxonomy_inference"@[0]
            && "used_fallback"@[0] != "normalized_payload"@[0]);
        assert("fallback_error"@[0] != "llm_provider"@[0] && "fallback_error"@[0] != "llm_model"@[0]
            && "fallback_error"@[0] != "request_payload"@[0] && "fallback_error"@[0] != "request_meta"@[0]
            && "fallback_error"@[0] != "response"@[0] && "fallback_error"@[0] != "taxonomy_inference"@[0]
            && "fallback_error"@[0] != "normalized_payload"@[0] && "fallback_error"@[0] != "used_fallback"@[0]);
    }
    JsonValue::Object(members)
}


/// A finished interpretation.
#[derive(Debug)]
pub struct InterpretResult {
    pub request_id: String,
    pub generation_id: String,
    pub interpretation_payload: JsonValue,
    pub interpretation_audit_payload: JsonValue,
    pub llm_provider: String,
    pub llm_model: String,
    pub cache_hit: bool,
    pub fallback_used: bool,
    /// The metadata headers (see `provider_headers`).
    pub response_headers: Vec<(String, String)>,
    pub latency_ms: Option<Money>,
}

/// An interpretation result: the payload and its audit, the provider and
/// model that served it, whether it came from the cache or the fallback
/// (never both), the headers that follow from these, and the latency. The
/// fallback's reason goes into the audit, not into the result.
#[allow(clippy::too_many_arguments)]
pub fn interpret_result(
    request_id: String,
    generation_id: String,
    payload: JsonValue,
    audit: JsonValue,
    provider: &str,
    model: &str,
    origin: ResultOrigin,
    latency_ms: Money,
) -> (r: InterpretResult)
    ensures
        r.request_id == request_id,
        r.generation_id == generation_id,
        r.interpretation_payload == payload,
        r.interpretation_audit_payload == audit,
        r.llm_provider@ == provider@,
        r.llm_model@ == model@,
        r.cache_hit == (origin is Cache),
        r.fallback_used == (origin is Fallback),
        !(r.cache_hit && r.fallback_used),
        pair_views(r.response_headers@) == provider_headers(provider@, model@, r.cache_hit, r.fallback_used),
        r.latency_ms == Some(latency_ms),
{
    let envelope = result_envelope(provider, model, origin);
    InterpretResult {
        request_id,
        generation_id,
        interpretation_payload: payload,
        interpretation_audit_payload: audit,
        llm_provider: String::from_str(provider),
        llm_model: String::from_str(model),
        cache_hit: envelope.cache_hit,
        fallback_used: envelope.fallback_used,
        response_headers: envelope.response_headers,
        latency_ms: Some(latency_ms),
    }
}

} // verus!

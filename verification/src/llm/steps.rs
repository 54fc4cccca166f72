//! The requests that the interpret, draft and compose steps of a generation
//! build from what its row holds, with the defaults for what it lacks, and
//! the errors with which the steps fail.
use vstd::prelude::*;
use vstd::string::*;

use crate::json::JsonValue;
use crate::llm::draft::DraftInput;
use crate::llm::interpret::{InterpretInput, NamedContext};
use crate::llm::respond::{EntityNode, RespondArtifact, RespondInput, RespondPublication};
use crate::text::{chars_of, concat_chars, dec_i64_chars, signed_dec, string_of};

verus! {

/// Title of a delivery response when the interpretation names none.
pub const UNTITLED: &'static str = "Untitled";

/// Output type of a step when the row has none resolved.
pub const DEFAULT_STEP_OUTPUT_TYPE: &'static str = "pdf";

/// Why the draft step cannot start without an interpretation.
pub const MISSING_INTERPRETATION: &'static str = "interpretation_payload is NULL — interpret step must run first";

/// What the compose step reads of a generation row.
#[derive(Debug, Clone)]
pub struct ComposeRow {
    /// Title of the interpretation's document blueprint.
    pub title: Option<String>,
    pub resolved_output_type: Option<String>,
    pub file_url: Option<String>,
    pub mime_type: Option<String>,
    pub thumbnail_url: Option<String>,
    pub filename: Option<String>,
    /// Summary of the interpretation's document blueprint.
    pub preview_summary: Option<String>,
}

/// The text of an optional value, or a default.
pub open spec fn text_or(v: Option<String>, default: Seq<char>) -> Seq<char> {
    match v {
        Some(s) => s@,
        None => default,
    }
}

/// The views of an optional text.
pub open spec fn opt_view(v: Option<String>) -> Option<Seq<char>> {
    match v {
        Some(s) => Some(s@),
        None => None,
    }
}

fn text_or_default(v: &Option<String>, default: &str) -> (r: String)
    ensures
        r@ == text_or(*v, default@),
{
    match v {
        Some(s) => String::from_str(s.as_str()),
        None => String::from_str(default),
    }
}

fn copy_opt(v: &Option<String>) -> (r: Option<String>)
    ensures
        opt_view(r) == opt_view(*v),
{
    match v {
        Some(s) => Some(String::from_str(s.as_str())),
        None => None,
    }
}

/// A published entity, its id written in decimal.
pub fn entity_node(id: i64, title: &str) -> (r: EntityNode)
    ensures
        r.id@ == signed_dec(id as int),
        r.title@ == title@,
{
    let digits = dec_i64_chars(id);
    EntityNode { id: string_of(digits.as_slice()), title: String::from_str(title) }
}

/// The delivery-response request of the compose step: the row's title
/// (else `Untitled`), output type (else `pdf`), file URL, MIME type and
/// preview summary (each else empty), its thumbnail and file name as they
/// are, the entities found for the generation, and the configured model
/// and instruction.
pub fn compose_input(
    generation_id: &str,
    row: &ComposeRow,
    publication: RespondPublication,
) -> (r: RespondInput)
    ensures
        r.generation_id@ == generation_id@,
        r.title@ == text_or(row.title, UNTITLED@),
        r.preview_summary@ == text_or(row.preview_summary, Seq::empty()),
        r.artifact.output_type@ == text_or(row.resolved_output_type, DEFAULT_STEP_OUTPUT_TYPE@),
        r.artifact.file_url@ == text_or(row.file_url, Seq::empty()),
        r.artifact.mime_type@ == text_or(row.mime_type, Seq::empty()),
        opt_view(r.artifact.thumbnail_url) == opt_view(row.thumbnail_url),
        opt_view(r.artifact.filename) == opt_view(row.filename),
        r.publication == publication,
        r.model is None,
        r.instruction is None,
{
    proof {
        reveal_strlit("");
    }
    RespondInput {
        generation_id: String::from_str(generation_id),
        title: text_or_default(&row.title, UNTITLED),
        preview_summary: text_or_default(&row.preview_summary, ""),
        artifact: RespondArtifact {
            output_type: text_or_default(&row.resolved_output_type, DEFAULT_STEP_OUTPUT_TYPE),
            file_url: text_or_default(&row.file_url, ""),
            mime_type: text_or_default(&row.mime_type, ""),
            thumbnail_url: copy_opt(&row.thumbnail_url),
            filename: copy_opt(&row.filename),
        },
        publication,
        model: None,
        instruction: None,
    }
}

/// The taxonomy context of the interpret step: the entry `id` when its
/// name (and slug) were found, nothing when it was not.
pub fn named_context(id: i64, found: Option<(String, Option<String>)>) -> (r: Option<NamedContext>)
    ensures
        match found {
            None => r is None,
            Some((name, slug)) => r matches Some(c) && c.id == id && c.name == name && c.slug == slug,
        },
{
    match found {
        None => None,
        Some((name, slug)) => Some(NamedContext { id, name, slug }),
    }
}

/// The interpretation request of the interpret step: the row's prompt and
/// preferred output type, the contexts found, and the configured model and
/// instruction.
pub fn interpret_input(
    generation_id: &str,
    raw_prompt: String,
    preferred_output_type: String,
    subject_context: Option<NamedContext>,
    sub_subject_context: Option<NamedContext>,
) -> (r: InterpretInput)
    ensures
        r.generation_id@ == generation_id@,
        r.teacher_prompt == raw_prompt,
        r.preferred_output_type == preferred_output_type,
        r.subject_context == subject_context,
        r.sub_subject_context == sub_subject_context,
        r.model is None,
        r.instruction is None,
{
    InterpretInput {
        generation_id: String::from_str(generation_id),
        teacher_prompt: raw_prompt,
        preferred_output_type,
        subject_context,
        sub_subject_context,
        model: None,
        instruction: None,
    }
}

/// The output type the draft step asks for: the resolved one, else `pdf`.
pub fn draft_output_type(resolved: Option<String>) -> (r: String)
    ensures
        r@ == text_or(resolved, DEFAULT_STEP_OUTPUT_TYPE@),
{
    match resolved {
        Some(t) => t,
        None => String::from_str(DEFAULT_STEP_OUTPUT_TYPE),
    }
}

/// The interpretation the draft step starts from; without one the step
/// fails with `MISSING_INTERPRETATION`.
pub fn require_interpretation(payload: Option<JsonValue>) -> (r: Result<JsonValue, String>)
    ensures
        match payload {
            Some(v) => r == Ok::<JsonValue, String>(v),
            None => r matches Err(m) && m@ == MISSING_INTERPRETATION@,
        },
{
    match payload {
        Some(v) => Ok(v),
        None => Err(String::from_str(MISSING_INTERPRETATION)),
    }
}

/// The drafting request of the draft step: the interpretation the row
/// holds, its resolved output type (else `pdf`), no taxonomy hint, and the
/// configured model and instruction.
pub fn draft_input(generation_id: &str, interpretation: JsonValue, resolved_output_type: Option<String>) -> (r: DraftInput)
    ensures
        r.generation_id@ == generation_id@,
        r.interpretation == interpretation,
        r.resolved_output_type@ == text_or(resolved_output_type, DEFAULT_STEP_OUTPUT_TYPE@),
        r.taxonomy_hint is None,
        r.model is None,
        r.instruction is None,
{
    DraftInput {
        generation_id: String::from_str(generation_id),
        interpretation,
        resolved_output_type: draft_output_type(resolved_output_type),
        taxonomy_hint: None,
        model: None,
        instruction: None,
    }
}


/// The step of a generation that called a service.
#[derive(Debug, Clone, Copy, PartialEq, Eq, Structural)]
pub enum StepKind {
    Interpret,
    Draft,
    Compose,
}

/// How a service call of a step failed, with the failure's own text.
#[derive(Debug, Clone)]
pub enum StepFailure {
    /// Governance refused the call.
    RateLimited,
    Provider(String),
    Cache(String),
    Governance(String),
    Contract(String),
}

/// The name a step reports its failures under.
pub open spec fn step_label(s: StepKind) -> Seq<char> {
    match s {
        StepKind::Interpret => "interpret"@,
        StepKind::Draft => "draft"@,
        StepKind::Compose => "compose"@,
    }
}

/// What a failure says after the step's name.
pub open spec fn failure_text(f: StepFailure) -> Seq<char> {
    match f {
        StepFailure::RateLimited => "rate limited by governance — rate limited by governance policy"@,
        StepFailure::Provider(d) => "provider error — "@ + d@,
        StepFailure::Cache(d) => "cache error — "@ + d@,
        StepFailure::Governance(d) => "governance error — "@ + d@,
        StepFailure::Contract(d) => "contract error — "@ + d@,
    }
}

/// The message a step fails with: its name, `: `, then the failure.
pub open spec fn step_failure_text(s: StepKind, f: StepFailure) -> Seq<char> {
    step_label(s) + ": "@ + failure_text(f)
}

/// Why a step of a generation failed.
#[derive(Debug, Clone, PartialEq, Eq)]
pub enum StepError {
    /// The generation id is not a UUID; with the parser's message.
    InvalidUuid(String),
    /// A service call of the step failed; with the step's message.
    StepProvider(String),
}

/// The error with which a step reports a failed service call.
pub fn step_error(step: StepKind, failure: &StepFailure) -> (r: StepError)
    ensures
        r matches StepError::StepProvider(m) && m@ == step_failure_text(step, *failure),
{
    let label = match step {
        StepKind::Interpret => chars_of("interpret"),
        StepKind::Draft => chars_of("draft"),
        StepKind::Compose => chars_of("compose"),
    };
    let text = match failure {
        StepFailure::RateLimited => chars_of("rate limited by governance — rate limited by governance policy"),
        StepFailure::Provider(d) => concat_chars(chars_of("provider error — ").as_slice(), chars_of(d.as_str()).as_slice()),
        StepFailure::Cache(d) => concat_chars(chars_of("cache error — ").as_slice(), chars_of(d.as_str()).as_slice()),
        StepFailure::Governance(d) => concat_chars(chars_of("governance error — ").as_slice(), chars_of(d.as_str()).as_slice()),
        StepFailure::Contract(d) => concat_chars(chars_of("contract error — ").as_slice(), chars_of(d.as_str()).as_slice()),
    };
    let head = concat_chars(label.as_slice(), chars_of(": ").as_slice());
    let all = concat_chars(head.as_slice(), text.as_slice());
    StepError::StepProvider(string_of(all.as_slice()))
}

/// What `uuid::Uuid::parse_str` gives for a string: the UUID's 128-bit
/// value, or nothing when the string is not a UUID.
pub uninterp spec fn uuid_parse(s: Seq<char>) -> Option<u128>;

/// Calls `uuid::Uuid::parse_str` (its outcome depends on the string alone
/// and is named `uuid_parse`) and hands back the UUID's 128-bit value, or
/// the parser's error message, of whose text nothing is claimed.
#[verifier::external_body]
fn parse_uuid(s: &str) -> (r: Result<u128, String>)
    ensures
        match r {
            Ok(v) => uuid_parse(s@) == Some(v),
            Err(_) => uuid_parse(s@) is None,
        },
{
    match uuid::Uuid::parse_str(s) {
        Ok(u) => Ok(u.as_u128()),
        Err(e) => Err(e.to_string()),
    }
}

/// The generation a step works on: the UUID value of its id, or
/// `InvalidUuid` with the parser's message when the id is not a UUID.
pub fn step_generation_id(generation_id: &str) -> (r: Result<u128, StepError>)
    ensures
        match r {
            Ok(v) => uuid_parse(generation_id@) == Some(v),
            Err(e) => e is InvalidUuid && uuid_parse(generation_id@) is None,
        },
{
    match parse_uuid(generation_id) {
        Ok(v) => Ok(v),
        Err(m) => Err(StepError::InvalidUuid(m)),
    }
}

} // verus!

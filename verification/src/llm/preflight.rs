//! Preflight of a prompt: what is asked of the teacher, what counts as
//! already known, and whether the prompt is ready for generation.
//!
//! The content standards' prompt detection (content type, audience, output
//! type, fields stated by the prompt) and the content-type confidence are
//! supplied by the caller; everything decided from them is here.
use vstd::prelude::*;
use vstd::string::*;

use crate::json::{JsonValue, as_str, get, json_get, json_present, json_str};
use crate::llm::clarification::{
    ClarificationService, build_suggested_prompt, compute_gaps, compute_gaps_from_interpretation, gap_views,
    interpretation_gaps, opt_view, scan_topic, standard_gaps, suggested_prompt, topic_scan, requirement_gaps,
    requirement_missing, take_up_to,
};
use crate::llm::standards::{ContentGap, ContentType, FieldDefinition, GapRecord, MinimumRequirementField, content_type_name};
use crate::text::str_is;

verus! {

/// The content type an interpretation names, when it is one of the six.
pub open spec fn content_type_named(name: Seq<char>) -> Option<ContentType> {
    if name == "materi_pembelajaran"@ {
        Some(ContentType::MateriPembelajaran)
    } else if name == "slide_presentasi"@ {
        Some(ContentType::SlidePresentasi)
    } else if name == "rpp"@ {
        Some(ContentType::Rpp)
    } else if name == "lembar_kerja"@ {
        Some(ContentType::LembarKerja)
    } else if name == "silabus"@ {
        Some(ContentType::Silabus)
    } else if name == "penilaian"@ {
        Some(ContentType::Penilaian)
    } else {
        None
    }
}

/// An output type that counts as chosen: not empty and not `auto`.
pub open spec fn usable_output_type(s: Seq<char>) -> bool {
    s.len() > 0 && s != "auto"@
}

/// The output type of a preflight: the preferred one when usable, else the
/// interpreted one when usable, else the one the prompt names.
pub open spec fn chosen_output_type(
    preferred: Option<Seq<char>>,
    interpreted: Option<Seq<char>>,
    from_prompt: Option<Seq<char>>,
) -> Option<Seq<char>> {
    match preferred {
        Some(p) if usable_output_type(p) => Some(p),
        _ => match interpreted {
            Some(i) if usable_output_type(i) => Some(i),
            _ => from_prompt,
        },
    }
}

/// The number of gaps of the given priority.
pub open spec fn priority_count(gaps: Seq<GapRecord>, priority: Seq<char>) -> nat
    decreases gaps.len(),
{
    if gaps.len() == 0 {
        0
    } else {
        priority_count(gaps.drop_last(), priority) + if gaps.last().priority == priority { 1nat } else { 0nat }
    }
}

/// The views of an optional owned text.
pub open spec fn text_view(v: Option<String>) -> Option<Seq<char>> {
    match v {
        Some(s) => Some(s@),
        None => None,
    }
}

/// What a preflight decides.
#[derive(Debug)]
pub struct PreflightOutcome {
    pub content_type: ContentType,
    /// The questions for the missing fields.
    pub gaps: Vec<ContentGap>,
    /// The prompt with the detected audience and output type worked in.
    pub suggested_prompt: String,
    /// No required field is missing.
    pub is_ready: bool,
    pub total_required_gaps: usize,
    pub total_recommended_gaps: usize,
    /// The output type taken as known.
    pub output_type: Option<String>,
    /// The audience taken as known.
    pub audience: Option<String>,
    /// The topic the prompt or interpretation names.
    pub topic: Option<String>,
    pub subject_id: Option<i64>,
}

/// The facts every preflight outcome states of its parts.
pub open spec fn outcome_consistent(o: PreflightOutcome, raw: Seq<char>) -> bool {
    &&& o.total_required_gaps == priority_count(gap_views(o.gaps@), "required"@)
    &&& o.total_recommended_gaps == priority_count(gap_views(o.gaps@), "recommended"@)
    &&& o.is_ready == (o.total_required_gaps == 0)
    &&& o.suggested_prompt@ == suggested_prompt(raw, text_view(o.audience), text_view(o.output_type))
}

/// The content type an interpretation names, when it is one of the six.
pub fn content_type_from_name(name: &str) -> (r: Option<ContentType>)
    ensures
        r == content_type_named(name@),
{
    if str_is(name, "materi_pembelajaran") {
        Some(ContentType::MateriPembelajaran)
    } else if str_is(name, "slide_presentasi") {
        Some(ContentType::SlidePresentasi)
    } else if str_is(name, "rpp") {
        Some(ContentType::Rpp)
    } else if str_is(name, "lembar_kerja") {
        Some(ContentType::LembarKerja)
    } else if str_is(name, "silabus") {
        Some(ContentType::Silabus)
    } else if str_is(name, "penilaian") {
        Some(ContentType::Penilaian)
    } else {
        None
    }
}

/// The content type of an interpreted preflight: the one the
/// interpretation names when it is known, else the one detected in the
/// prompt.
pub fn interpreted_content_type(name: Option<&str>, from_prompt: ContentType) -> (r: ContentType)
    ensures
        r == match name {
            Some(n) => match content_type_named(n@) {
                Some(t) => t,
                None => from_prompt,
            },
            None => from_prompt,
        },
{
    match name {
        Some(n) => match content_type_from_name(n) {
            Some(t) => t,
            None => from_prompt,
        },
        None => from_prompt,
    }
}

fn is_usable_output_type(s: &str) -> (r: bool)
    ensures
        r == usable_output_type(s@),
{
    !s.is_empty() && !str_is(s, "auto")
}

/// The output type of a preflight (see `chosen_output_type`).
pub fn choose_output_type(
    preferred: &Option<String>,
    interpreted: Option<&str>,
    from_prompt: Option<String>,
) -> (r: Option<String>)
    ensures
        text_view(r) == chosen_output_type(text_view(*preferred), opt_view(interpreted), text_view(from_prompt)),
{
    match preferred {
        Some(p) => if is_usable_output_type(p.as_str()) {
            return Some(String::from_str(p.as_str()));
        },
        None => {},
    }
    match interpreted {
        Some(i) => if is_usable_output_type(i) {
            return Some(String::from_str(i));
        },
        None => {},
    }
    from_prompt
}

fn count_priority(gaps: &Vec<ContentGap>, priority: &str) -> (r: usize)
    ensures
        r == priority_count(gap_views(gaps@), priority@),
{
    let mut n: usize = 0;
    let mut i: usize = 0;
    while i < gaps.len()
        invariant
            i <= gaps.len(),
            n <= i,
            n == priority_count(gap_views(gaps@.take(i as int)), priority@),
        decreases gaps.len() - i,
    {
        assert(gap_views(gaps@.take(i + 1)).drop_last() =~= gap_views(gaps@.take(i as int)));
        assert(gap_views(gaps@.take(i + 1)).last() == gaps@[i as int]@);
        if str_is(gaps[i].priority.as_str(), priority) {
            n = n + 1;
        }
        i = i + 1;
    }
    assert(gaps@.take(gaps.len() as int) =~= gaps@);
    n
}

fn copy_text(v: &Option<String>) -> (r: Option<String>)
    ensures
        text_view(r) == text_view(*v),
{
    match v {
        Some(s) => Some(String::from_str(s.as_str())),
        None => None,
    }
}

fn outcome(
    raw_prompt: &str,
    content_type: ContentType,
    gaps: Vec<ContentGap>,
    output_type: Option<String>,
    audience: Option<String>,
    topic: Option<String>,
    subject_id: Option<i64>,
) -> (r: PreflightOutcome)
    ensures
        outcome_consistent(r, raw_prompt@),
        r.content_type == content_type,
        r.gaps@ == gaps@,
        text_view(r.output_type) == text_view(output_type),
        text_view(r.audience) == text_view(audience),
        text_view(r.topic) == text_view(topic),
        r.subject_id == subject_id,
{
    let required = count_priority(&gaps, "required");
    let recommended = count_priority(&gaps, "recommended");
    let audience_text: Option<&str> = match &audience {
        Some(a) => Some(a.as_str()),
        None => None,
    };
    let output_text: Option<&str> = match &output_type {
        Some(o) => Some(o.as_str()),
        None => None,
    };
    let suggested = build_suggested_prompt(raw_prompt, audience_text, output_text, &content_type);
    let out = copy_text(&output_type);
    let aud = copy_text(&audience);
    PreflightOutcome {
        content_type,
        gaps,
        suggested_prompt: suggested,
        is_ready: required == 0,
        total_required_gaps: required,
        total_recommended_gaps: recommended,
        output_type: out,
        audience: aud,
        topic,
        subject_id,
    }
}

impl ClarificationService {
    /// Preflight of a prompt against the clarification fields of its
    /// content type: the output type is the preferred one when usable, else
    /// the one the prompt names; a field needs a question unless it is the
    /// audience, output type or subject and that is known, or the prompt
    /// states it (`found_in_prompt`). Nothing when the prompt's topic
    /// cannot be read off its lowercase form (see `scan_topic`).
    #[allow(clippy::too_many_arguments)]
    pub fn preflight_decision(
        raw_prompt: &str,
        content_type: ContentType,
        standards: &Vec<FieldDefinition>,
        found_in_prompt: &Vec<String>,
        audience_from_prompt: Option<String>,
        output_type_from_prompt: Option<String>,
        preferred_output_type: &Option<String>,
        subject_id: Option<i64>,
    ) -> (r: Option<PreflightOutcome>)
        ensures
            r is None <==> topic_scan(raw_prompt@, 0) is None,
            r matches Some(o) ==> {
                &&& outcome_consistent(o, raw_prompt@)
                &&& o.content_type == content_type
                &&& text_view(o.output_type) == chosen_output_type(
                    text_view(*preferred_output_type),
                    None,
                    text_view(output_type_from_prompt),
                )
                &&& text_view(o.audience) == text_view(audience_from_prompt)
                &&& gap_views(o.gaps@) == standard_gaps(
                    standards@,
                    found_in_prompt@,
                    o.audience is Some,
                    o.output_type is Some,
                    subject_id is Some,
                )
                &&& topic_scan(raw_prompt@, 0) == Some(text_view(o.topic))
                &&& o.subject_id == subject_id
            },
    {
        let topic = match scan_topic(raw_prompt) {
            None => return None,
            Some(t) => t,
        };
        let output_type = choose_output_type(preferred_output_type, None, output_type_from_prompt);
        let audience_text: Option<&str> = match &audience_from_prompt {
            Some(a) => Some(a.as_str()),
            None => None,
        };
        let output_text: Option<&str> = match &output_type {
            Some(o) => Some(o.as_str()),
            None => None,
        };
        let gaps = compute_gaps(standards, found_in_prompt, audience_text, output_text, subject_id);
        Some(outcome(raw_prompt, content_type, gaps, output_type, audience_from_prompt, topic, subject_id))
    }

    /// Preflight of a prompt against the minimum requirements of the
    /// interpreted content type: the gaps are those of the interpretation
    /// (see `compute_gaps_from_interpretation`); the audience is the
    /// interpreted `target_audience` when it is a string, else the one the
    /// prompt names; the output type is the preferred one, else the
    /// interpreted one, else the prompt's (the first two only when usable);
    /// the topic is the interpreted `topic` when it is a string, else the
    /// prompt's. Nothing when the prompt's topic is needed and cannot be
    /// read off its lowercase form.
    #[allow(clippy::too_many_arguments)]
    pub fn preflight_with_interpretation_decision(
        raw_prompt: &str,
        content_type: ContentType,
        required_fields: &Vec<MinimumRequirementField>,
        recommended_fields: &Vec<MinimumRequirementField>,
        interpreted_fields: &JsonValue,
        found_in_prompt: &Vec<String>,
        audience_from_prompt: Option<String>,
        output_type_from_prompt: Option<String>,
        preferred_output_type: &Option<String>,
        subject_id: Option<i64>,
    ) -> (r: Option<PreflightOutcome>)
        ensures
            r is None <==> (json_str(json_get(*interpreted_fields, "topic"@)) is None
                && topic_scan(raw_prompt@, 0) is None),
            r matches Some(o) ==> {
                &&& outcome_consistent(o, raw_prompt@)
                &&& o.content_type == content_type
                &&& gap_views(o.gaps@) == interpretation_gaps(
                    required_fields@,
                    recommended_fields@,
                    *interpreted_fields,
                    found_in_prompt@,
                )
                &&& gap_list_shape(gap_views(o.gaps@), *interpreted_fields)
                &&& text_view(o.audience) == match json_str(json_get(*interpreted_fields, "target_audience"@)) {
                    Some(a) => Some(a),
                    None => text_view(audience_from_prompt),
                }
                &&& text_view(o.output_type) == chosen_output_type(
                    text_view(*preferred_output_type),
                    json_str(json_get(*interpreted_fields, "output_type"@)),
                    text_view(output_type_from_prompt),
                )
                &&& match json_str(json_get(*interpreted_fields, "topic"@)) {
                    Some(t) => text_view(o.topic) == Some(t),
                    None => topic_scan(raw_prompt@, 0) == Some(text_view(o.topic)),
                }
                &&& o.subject_id == subject_id
            },
    {
        let interpreted_topic = as_str(get(interpreted_fields, "topic"));
        let topic: Option<String> = match interpreted_topic {
            Some(t) => Some(String::from_str(t)),
            None => match scan_topic(raw_prompt) {
                None => return None,
                Some(t) => t,
            },
        };
        let gaps = compute_gaps_from_interpretation(required_fields, recommended_fields, interpreted_fields, found_in_prompt);
        proof {
            lemma_interpretation_gaps_shape(required_fields@, recommended_fields@, *interpreted_fields, found_in_prompt@);
        }
        let audience: Option<String> = match as_str(get(interpreted_fields, "target_audience")) {
            Some(a) => Some(String::from_str(a)),
            None => audience_from_prompt,
        };
        let interpreted_output = as_str(get(interpreted_fields, "output_type"));
        let output_type = choose_output_type(preferred_output_type, interpreted_output, output_type_from_prompt);
        Some(outcome(raw_prompt, content_type, gaps, output_type, audience, topic, subject_id))
    }
}

/// The shape of an interpretation's gap list: every gap is required or
/// recommended and the counts add up to the list; the required ones come
/// first; at most `5 - min(5, required)` are recommended; and no gap asks
/// for a field the interpretation gives.
pub open spec fn gap_list_shape(g: Seq<GapRecord>, interpreted: JsonValue) -> bool {
    let req = priority_count(g, "required"@);
    let rec = priority_count(g, "recommended"@);
    &&& req + rec == g.len()
    &&& forall|i: int, j: int| 0 <= i < j < g.len() && (#[trigger] g[i]).priority == "recommended"@
        ==> (#[trigger] g[j]).priority == "recommended"@
    &&& rec <= 5 - (if req < 5 { req as int } else { 5 })
    &&& forall|i: int| 0 <= i < g.len() ==> !json_present(json_get(interpreted, (#[trigger] g[i]).field_id))
}

proof fn lemma_count_concat(a: Seq<GapRecord>, b: Seq<GapRecord>, p: Seq<char>)
    ensures
        priority_count(a + b, p) == priority_count(a, p) + priority_count(b, p),
    decreases b.len(),
{
    if b.len() == 0 {
        assert(a + b =~= a);
    } else {
        assert((a + b).drop_last() =~= a + b.drop_last());
        lemma_count_concat(a, b.drop_last(), p);
    }
}

proof fn lemma_count_uniform(g: Seq<GapRecord>, p: Seq<char>, q: Seq<char>)
    requires
        forall|i: int| 0 <= i < g.len() ==> (#[trigger] g[i]).priority == q,
    ensures
        priority_count(g, p) == if p == q { g.len() } else { 0 },
    decreases g.len(),
{
    if g.len() > 0 {
        lemma_count_uniform(g.drop_last(), p, q);
    }
}

proof fn lemma_requirement_gaps_facts(
    fields: Seq<MinimumRequirementField>,
    interpreted: JsonValue,
    found: Seq<String>,
    p: Seq<char>,
)
    ensures
        requirement_gaps(fields, interpreted, found, p).len() <= fields.len(),
        forall|i: int| 0 <= i < requirement_gaps(fields, interpreted, found, p).len() ==> {
            &&& (#[trigger] requirement_gaps(fields, interpreted, found, p)[i]).priority == p
            &&& !json_present(json_get(interpreted, requirement_gaps(fields, interpreted, found, p)[i].field_id))
        },
    decreases fields.len(),
{
    if fields.len() > 0 {
        lemma_requirement_gaps_facts(fields.drop_last(), interpreted, found, p);
    }
}

/// The gap list of an interpretation has the shape of `gap_list_shape`.
pub proof fn lemma_interpretation_gaps_shape(
    required: Seq<MinimumRequirementField>,
    recommended: Seq<MinimumRequirementField>,
    interpreted: JsonValue,
    found_in_prompt: Seq<String>,
)
    ensures
        gap_list_shape(interpretation_gaps(required, recommended, interpreted, found_in_prompt), interpreted),
{
    reveal_strlit("required");
    reveal_strlit("recommended");
    assert("required"@ != "recommended"@) by {
        assert("required"@.len() != "recommended"@.len());
    }
    let a = requirement_gaps(required, interpreted, found_in_prompt, "required"@);
    let limit: int = if a.len() >= 5 { 0 } else { 5 - a.len() };
    let rs = take_up_to(recommended, limit);
    let b = requirement_gaps(rs, interpreted, found_in_prompt, "recommended"@);
    let g = a + b;
    assert(g == interpretation_gaps(required, recommended, interpreted, found_in_prompt));
    lemma_requirement_gaps_facts(required, interpreted, found_in_prompt, "required"@);
    lemma_requirement_gaps_facts(rs, interpreted, found_in_prompt, "recommended"@);
    lemma_count_uniform(a, "required"@, "required"@);
    lemma_count_uniform(a, "recommended"@, "required"@);
    lemma_count_uniform(b, "required"@, "recommended"@);
    lemma_count_uniform(b, "recommended"@, "recommended"@);
    lemma_count_concat(a, b, "required"@);
    lemma_count_concat(a, b, "recommended"@);
    assert(rs.len() <= limit);
    assert forall|i: int, j: int| 0 <= i < j < g.len() && (#[trigger] g[i]).priority == "recommended"@
        implies (#[trigger] g[j]).priority == "recommended"@ by {
        if i < a.len() {
            assert(g[i] == a[i]);
        }
        assert(g[j] == b[j - a.len()]);
    }
    assert forall|i: int| 0 <= i < g.len() implies !json_present(json_get(interpreted, (#[trigger] g[i]).field_id)) by {
        if i < a.len() {
            assert(g[i] == a[i]);
        } else {
            assert(g[i] == b[i - a.len()]);
        }
    }
}


/// Reading a content type's name back gives that content type, and a name
/// that is read as a content type is exactly that content type's name
/// (`ContentType::as_str`).
pub proof fn lemma_content_type_name_round_trip(t: ContentType, name: Seq<char>)
    ensures
        content_type_named(content_type_name(t)) == Some(t),
        content_type_named(name) == Some(t) <==> name == content_type_name(t),
{
    reveal_strlit("materi_pembelajaran");
    reveal_strlit("slide_presentasi");
    reveal_strlit("rpp");
    reveal_strlit("lembar_kerja");
    reveal_strlit("silabus");
    reveal_strlit("penilaian");
    assert("materi_pembelajaran"@.len() == 19 && "slide_presentasi"@.len() == 16 && "rpp"@.len() == 3);
    assert("lembar_kerja"@.len() == 12 && "silabus"@.len() == 7 && "penilaian"@.len() == 9);
}

} // verus!

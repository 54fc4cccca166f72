//! Media generations: summaries of the related taxonomy rows, payload
//! updates and how a generation's relations are put together.
use vstd::prelude::*;
use vstd::string::*;
use crate::json::JsonValue;
use crate::governance::time::Timestamp;
use crate::db::sql::{set_parts, numbered_set_parts, string_views};
use crate::db::keys::{find_first, first_position, opt_int};

verus! {

/// A subject as shown beside a generation.
#[derive(Debug, Clone)]
pub struct SubjectSummary {
    pub id: i64,
    pub name: String,
    pub slug: String,
}

/// A sub-subject as shown beside a generation.
#[derive(Debug, Clone)]
pub struct SubSubjectSummary {
    pub id: i64,
    pub subject_id: i64,
    pub name: String,
    pub slug: String,
}

/// A recommended project as shown beside a generation.
#[derive(Debug, Clone)]
pub struct RecommendedProjectSummary {
    pub id: i64,
    pub title: String,
    pub thumbnail_url: Option<String>,
    pub project_file_url: Option<String>,
    pub source_type: String,
    pub is_active: bool,
}

/// A sub-subject with its subject.
#[derive(Debug, Clone)]
pub struct SubSubjectWithSubject {
    pub sub_subject: SubSubjectSummary,
    pub subject: SubjectSummary,
}

/// The error that a generation job reported.
#[derive(Debug, Clone)]
pub struct UpdateGenerationErrorPayload {
    pub generation_error_code: String,
    pub generation_error_message: String,
}

/// A new generation request; generations are identified by their UUID's
/// 128-bit value.
#[derive(Debug, Clone)]
pub struct CreateMediaGenerationPayload {
    pub teacher_id: i64,
    pub raw_prompt: String,
    pub request_fingerprint: String,
    pub generated_from_id: Option<u128>,
    pub is_regeneration: bool,
    pub subject_id: Option<i64>,
    pub sub_subject_id: Option<i64>,
    pub preferred_output_type: String,
    pub active_duplicate_key: Option<String>,
}

/// The renderer job of a generation and its status.
#[derive(Debug, Clone)]
pub struct UpdateGenerationJobStatusPayload {
    pub generation_job_id: Option<u128>,
    pub generation_status: String,
}

/// Where a generation's file is stored and its temporary download link.
#[derive(Debug, Clone)]
pub struct UpdateS3MetadataPayload {
    pub s3_object_key: String,
    pub presigned_download_url: String,
    pub presigned_url_expires_at: Timestamp,
}

/// The outcome of a generation's clarification.
#[derive(Debug)]
pub struct UpdateClarificationStatePayload {
    pub clarification_state: Option<JsonValue>,
    pub clarified_at: Option<Timestamp>,
    pub clarification_skipped: bool,
}

/// Filters of the administrator's generation listing.
#[derive(Debug, Clone)]
pub struct AdminMediaGenerationFilters {
    pub status: Option<String>,
    pub search: Option<String>,
}

impl Default for AdminMediaGenerationFilters {
    fn default() -> (r: Self)
        ensures
            r.status is None && r.search is None,
    {
        AdminMediaGenerationFilters { status: None, search: None }
    }
}

/// A partial update of a generation's payloads: the given fields change.
#[derive(Debug)]
pub struct UpdatePayloadsPayload {
    pub interpretation_payload: Option<JsonValue>,
    pub interpretation_audit_payload: Option<JsonValue>,
    pub generation_spec_payload: Option<JsonValue>,
    pub decision_payload: Option<JsonValue>,
    pub orchestration_audit_payload: Option<JsonValue>,
    pub delivery_payload: Option<JsonValue>,
    pub generator_service_response: Option<JsonValue>,
    pub resolved_output_type: Option<String>,
    pub llm_provider: Option<String>,
    pub llm_model: Option<String>,
    pub generator_provider: Option<String>,
    pub generator_model: Option<String>,
    pub storage_path: Option<String>,
    pub file_url: Option<String>,
    pub thumbnail_url: Option<String>,
    pub mime_type: Option<String>,
    pub error_code: Option<String>,
    pub error_message: Option<String>,
}

impl Default for UpdatePayloadsPayload {
    fn default() -> (r: Self)
        ensures
            forall|i: int| 0 <= i < payload_columns(r).len() ==> !(#[trigger] payload_columns(r)[i]).1,
    {
        UpdatePayloadsPayload {
            interpretation_payload: None,
            interpretation_audit_payload: None,
            generation_spec_payload: None,
            decision_payload: None,
            orchestration_audit_payload: None,
            delivery_payload: None,
            generator_service_response: None,
            resolved_output_type: None,
            llm_provider: None,
            llm_model: None,
            generator_provider: None,
            generator_model: None,
            storage_path: None,
            file_url: None,
            thumbnail_url: None,
            mime_type: None,
            error_code: None,
            error_message: None,
        }
    }
}

/// The columns of a payload update, in statement order, each with whether
/// the update gives it.
pub open spec fn payload_columns(p: UpdatePayloadsPayload) -> Seq<(&'static str, bool)> {
    seq![
        ("interpretation_payload", p.interpretation_payload is Some),
        ("interpretation_audit_payload", p.interpretation_audit_payload is Some),
        ("generation_spec_payload", p.generation_spec_payload is Some),
        ("decision_payload", p.decision_payload is Some),
        ("orchestration_audit_payload", p.orchestration_audit_payload is Some),
        ("delivery_payload", p.delivery_payload is Some),
        ("generator_service_response", p.generator_service_response is Some),
        ("resolved_output_type", p.resolved_output_type is Some),
        ("llm_provider", p.llm_provider is Some),
        ("llm_model", p.llm_model is Some),
        ("generator_provider", p.generator_provider is Some),
        ("generator_model", p.generator_model is Some),
        ("storage_path", p.storage_path is Some),
        ("file_url", p.file_url is Some),
        ("thumbnail_url", p.thumbnail_url is Some),
        ("mime_type", p.mime_type is Some),
        ("error_code", p.error_code is Some),
        ("error_message", p.error_message is Some),
    ]
}

/// The `SET` assignments of a payload update: `<column> = $<n>` for each
/// given field, in column order, numbered from 1.
#[verifier::rlimit(50)]
pub fn build_payload_set(payload: &UpdatePayloadsPayload) -> (r: Vec<String>)
    ensures
        string_views(r@) == set_parts(payload_columns(*payload)),
{
    let columns: Vec<(&str, bool)> = vec![
        ("interpretation_payload", payload.interpretation_payload.is_some()),
        ("interpretation_audit_payload", payload.interpretation_audit_payload.is_some()),
        ("generation_spec_payload", payload.generation_spec_payload.is_some()),
        ("decision_payload", payload.decision_payload.is_some()),
        ("orchestration_audit_payload", payload.orchestration_audit_payload.is_some()),
        ("delivery_payload", payload.delivery_payload.is_some()),
        ("generator_service_response", payload.generator_service_response.is_some()),
        ("resolved_output_type", payload.resolved_output_type.is_some()),
        ("llm_provider", payload.llm_provider.is_some()),
        ("llm_model", payload.llm_model.is_some()),
        ("generator_provider", payload.generator_provider.is_some()),
        ("generator_model", payload.generator_model.is_some()),
        ("storage_path", payload.storage_path.is_some()),
        ("file_url", payload.file_url.is_some()),
        ("thumbnail_url", payload.thumbnail_url.is_some()),
        ("mime_type", payload.mime_type.is_some()),
        ("error_code", payload.error_code.is_some()),
        ("error_message", payload.error_message.is_some()),
    ];
    assert(columns@ =~= payload_columns(*payload));
    numbered_set_parts(&columns)
}

/// The subject with the given id among the fetched ones; with several
/// rows for one id the last counts (as when they are collected into a map).
pub open spec fn subject_by_id(subjects: Seq<SubjectSummary>, id: i64) -> Option<SubjectSummary>
    decreases subjects.len(),
{
    if subjects.len() == 0 {
        None
    } else if subjects.last().id == id {
        Some(subjects.last())
    } else {
        subject_by_id(subjects.drop_last(), id)
    }
}

/// The sub-subject with the given id among the fetched ones (the last
/// one with the id).
pub open spec fn sub_subject_by_id(subs: Seq<SubSubjectSummary>, id: i64) -> Option<SubSubjectSummary>
    decreases subs.len(),
{
    if subs.len() == 0 {
        None
    } else if subs.last().id == id {
        Some(subs.last())
    } else {
        sub_subject_by_id(subs.drop_last(), id)
    }
}

/// The subject of a generation, when it names one that was fetched.
pub fn relation_subject(subject_id: Option<i64>, subjects: &Vec<SubjectSummary>) -> (r: Option<SubjectSummary>)
    ensures
        r == match subject_id {
            Some(id) => subject_by_id(subjects@, id),
            None => None,
        },
{
    match subject_id {
        Some(id) => find_subject(subjects, id),
        None => None,
    }
}

fn find_subject(subjects: &Vec<SubjectSummary>, id: i64) -> (r: Option<SubjectSummary>)
    ensures
        r == subject_by_id(subjects@, id),
{
    let mut i: usize = subjects.len();
    assert(subjects@.take(subjects.len() as int) =~= subjects@);
    while i > 0
        invariant
            i <= subjects.len(),
            subject_by_id(subjects@, id) == subject_by_id(subjects@.take(i as int), id),
        decreases i,
    {
        assert(subjects@.take(i as int).drop_last() =~= subjects@.take(i - 1));
        if subjects[i - 1].id == id {
            let s = &subjects[i - 1];
            return Some(SubjectSummary { id: s.id, name: s.name.clone(), slug: s.slug.clone() });
        }
        i = i - 1;
    }
    None
}

fn find_sub_subject(subs: &Vec<SubSubjectSummary>, id: i64) -> (r: Option<SubSubjectSummary>)
    ensures
        r == sub_subject_by_id(subs@, id),
{
    let mut i: usize = subs.len();
    assert(subs@.take(subs.len() as int) =~= subs@);
    while i > 0
        invariant
            i <= subs.len(),
            sub_subject_by_id(subs@, id) == sub_subject_by_id(subs@.take(i as int), id),
        decreases i,
    {
        assert(subs@.take(i as int).drop_last() =~= subs@.take(i - 1));
        if subs[i - 1].id == id {
            let s = &subs[i - 1];
            return Some(SubSubjectSummary {
                id: s.id,
                subject_id: s.subject_id,
                name: s.name.clone(),
                slug: s.slug.clone(),
            });
        }
        i = i - 1;
    }
    None
}

/// The placeholder subject of a sub-subject whose subject was not fetched:
/// id 0, empty name and slug.
pub open spec fn is_placeholder_subject(s: SubjectSummary) -> bool {
    s.id == 0 && s.name@.len() == 0 && s.slug@.len() == 0
}

/// The sub-subject of a generation with its subject, when it names one
/// that was fetched. Its subject is looked up among the fetched subjects;
/// when it is not there, an empty subject with id 0 stands in.
/// The sub-subject relation of a generation naming `sub_subject_id`: the
/// fetched sub-subject with that id, with its fetched subject or, when that
/// was not fetched, the placeholder subject; nothing when the id is absent
/// or was not fetched.
pub open spec fn sub_subject_relation_ok(
    r: Option<SubSubjectWithSubject>,
    sub_subject_id: Option<i64>,
    subs: Seq<SubSubjectSummary>,
    subjects: Seq<SubjectSummary>,
) -> bool {
    match sub_subject_id {
        None => r is None,
        Some(id) => match sub_subject_by_id(subs, id) {
            None => r is None,
            Some(ss) => r is Some && r.unwrap().sub_subject == ss && match subject_by_id(subjects, ss.subject_id) {
                Some(s) => r.unwrap().subject == s,
                None => is_placeholder_subject(r.unwrap().subject),
            },
        },
    }
}

pub fn relation_sub_subject(
    sub_subject_id: Option<i64>,
    subs: &Vec<SubSubjectSummary>,
    subjects: &Vec<SubjectSummary>,
) -> (r: Option<SubSubjectWithSubject>)
    ensures
        sub_subject_relation_ok(r, sub_subject_id, subs@, subjects@),
{
    match sub_subject_id {
        None => None,
        Some(id) => match find_sub_subject(subs, id) {
            None => None,
            Some(ss) => {
                let subject = match find_subject(subjects, ss.subject_id) {
                    Some(s) => s,
                    None => SubjectSummary { id: 0, name: String::new(), slug: String::new() },
                };
                Some(SubSubjectWithSubject { sub_subject: ss, subject })
            },
        },
    }
}


/// The relations a generation names: its subject and sub-subject ids, and
/// the keys of its topic, content and recommended project.
#[derive(Debug, Clone, Copy)]
pub struct GenerationRefs {
    pub subject_id: Option<i64>,
    pub sub_subject_id: Option<i64>,
    pub topic: Option<u128>,
    pub content: Option<u128>,
    pub recommended_project: Option<u128>,
}

/// A generation's related rows: its subject and sub-subject as found among
/// the fetched ones, and the positions of its topic, content and
/// recommended project among the fetched keys.
#[derive(Debug)]
pub struct GenerationRelations {
    pub subject: Option<SubjectSummary>,
    pub sub_subject: Option<SubSubjectWithSubject>,
    pub topic: Option<usize>,
    pub content: Option<usize>,
    pub recommended_project: Option<usize>,
}

/// The position of the first fetched row with the key a generation names;
/// nothing when it names none.
pub open spec fn key_position(key: Option<u128>, keys: Seq<u128>) -> Option<int> {
    match key {
        Some(k) => first_position(k, keys),
        None => None,
    }
}

/// The relations of one generation among the fetched rows.
pub open spec fn relations_ok(
    r: GenerationRelations,
    g: GenerationRefs,
    subjects: Seq<SubjectSummary>,
    subs: Seq<SubSubjectSummary>,
    topic_keys: Seq<u128>,
    content_keys: Seq<u128>,
    project_keys: Seq<u128>,
) -> bool {
    &&& r.subject == match g.subject_id {
        Some(id) => subject_by_id(subjects, id),
        None => None,
    }
    &&& sub_subject_relation_ok(r.sub_subject, g.sub_subject_id, subs, subjects)
    &&& opt_int(r.topic) == key_position(g.topic, topic_keys)
    &&& opt_int(r.content) == key_position(g.content, content_keys)
    &&& opt_int(r.recommended_project) == key_position(g.recommended_project, project_keys)
}

fn position_of(key: Option<u128>, keys: &Vec<u128>) -> (r: Option<usize>)
    ensures
        opt_int(r) == key_position(key, keys@),
{
    match key {
        Some(k) => find_first(keys, k),
        None => None,
    }
}

/// The relations of each generation, in order, among the fetched subjects,
/// sub-subjects and the keys of the fetched topics, contents and
/// recommended projects.
pub fn attach_relations(
    generations: &Vec<GenerationRefs>,
    subjects: &Vec<SubjectSummary>,
    subs: &Vec<SubSubjectSummary>,
    topic_keys: &Vec<u128>,
    content_keys: &Vec<u128>,
    project_keys: &Vec<u128>,
) -> (r: Vec<GenerationRelations>)
    ensures
        r.len() == generations.len(),
        forall|i: int| 0 <= i < r.len() ==> relations_ok(
            #[trigger] r@[i],
            generations@[i],
            subjects@,
            subs@,
            topic_keys@,
            content_keys@,
            project_keys@,
        ),
{
    let mut out: Vec<GenerationRelations> = Vec::new();
    let mut i: usize = 0;
    while i < generations.len()
        invariant
            i <= generations.len(),
            out.len() == i,
            forall|k: int| 0 <= k < i ==> relations_ok(
                #[trigger] out@[k],
                generations@[k],
                subjects@,
                subs@,
                topic_keys@,
                content_keys@,
                project_keys@,
            ),
        decreases generations.len() - i,
    {
        let g = generations[i];
        let rel = GenerationRelations {
            subject: relation_subject(g.subject_id, subjects),
            sub_subject: relation_sub_subject(g.sub_subject_id, subs, subjects),
            topic: position_of(g.topic, topic_keys),
            content: position_of(g.content, content_keys),
            recommended_project: position_of(g.recommended_project, project_keys),
        };
        out.push(rel);
        i += 1;
    }
    out
}

} // verus!

verus! {

/// Most ancestors fetched when walking a generation's chain upwards.
pub const MAX_CHAIN_DEPTH: usize = 50;

/// Where a walk up the `generated_from_id` links stands: the generation to
/// fetch next, if any, and how many ancestors (the start included) were
/// fetched so far.
#[derive(Debug, Clone, Copy, PartialEq, Eq, Structural)]
pub struct AncestorWalk {
    pub next: Option<u128>,
    pub fetched: usize,
}

/// A walk that can go on: it never fetched more than the limit, and it
/// asks for another row only below the limit.
pub open spec fn walk_wf(w: AncestorWalk) -> bool {
    w.fetched <= MAX_CHAIN_DEPTH && (w.next is Some ==> w.fetched < MAX_CHAIN_DEPTH)
}

/// The walk after the row asked for was looked up: `None` when it does not
/// exist, else its own `generated_from_id`. The walk stops at a missing
/// row, at a root, and once the limit is reached.
pub open spec fn walk_next(w: AncestorWalk, found: Option<Option<u128>>) -> AncestorWalk {
    match found {
        None => AncestorWalk { next: None, fetched: w.fetched },
        Some(parent) => {
            let fetched = w.fetched + 1;
            if fetched >= MAX_CHAIN_DEPTH {
                AncestorWalk { next: None, fetched: fetched as usize }
            } else {
                AncestorWalk { next: parent, fetched: fetched as usize }
            }
        },
    }
}

/// The walk from generation `id`: fetch it first.
pub fn start_ancestor_walk(id: u128) -> (r: AncestorWalk)
    ensures
        r == (AncestorWalk { next: Some(id), fetched: 0 }),
        walk_wf(r),
{
    AncestorWalk { next: Some(id), fetched: 0 }
}

/// One step of the walk: after looking up `w.next`, what to fetch next
/// (see `walk_next`). A found row is kept by the caller as an ancestor.
pub fn ancestor_walk_step(w: AncestorWalk, found: Option<Option<u128>>) -> (r: AncestorWalk)
    requires
        walk_wf(w),
        w.next is Some,
    ensures
        r == walk_next(w, found),
        walk_wf(r),
        r.fetched == w.fetched + (if found is Some { 1int } else { 0int }),
{
    match found {
        None => AncestorWalk { next: None, fetched: w.fetched },
        Some(parent) => {
            let fetched = w.fetched + 1;
            if fetched >= MAX_CHAIN_DEPTH {
                AncestorWalk { next: None, fetched }
            } else {
                AncestorWalk { next: parent, fetched }
            }
        },
    }
}

/// A walk fetches at most `MAX_CHAIN_DEPTH` rows: from any walk that can go
/// on, each lookup of a found row counts one more fetched row, and once
/// the count reaches the limit nothing more is asked for.
pub proof fn lemma_walk_bounded(w: AncestorWalk, found: Option<Option<u128>>)
    requires
        walk_wf(w),
        w.next is Some,
    ensures
        walk_wf(walk_next(w, found)),
        walk_next(w, found).fetched == w.fetched + (if found is Some { 1int } else { 0int }),
        walk_next(w, found).fetched == MAX_CHAIN_DEPTH ==> walk_next(w, found).next is None,
{
}

/// The ancestors in the order a walk fetched them (closest first), turned
/// oldest first.
pub fn oldest_first<T>(fetched: Vec<T>) -> (r: Vec<T>)
    ensures
        r@ == fetched@.reverse(),
{
    let mut rest = fetched;
    let mut out: Vec<T> = Vec::new();
    let ghost all = rest@;
    while rest.len() > 0
        invariant
            all == rest@ + out@.reverse(),
        decreases rest.len(),
    {
        let ghost before = rest@;
        let ghost before_out = out@;
        let x = rest.pop().unwrap();
        out.push(x);
        assert(before =~= rest@.push(x));
        assert(out@.reverse() =~= seq![x] + before_out.reverse());
        assert(all =~= rest@ + out@.reverse());
    }
    assert(out@.reverse().reverse() =~= out@);
    assert(all =~= out@.reverse());
    out
}

} // verus!

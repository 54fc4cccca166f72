use std::collections::HashMap;

use klass_gateway::json::JsonValue;
use klass_gateway::llm::clarification::{
    build_question, build_question_from_requirement, build_suggested_prompt, compute_gaps,
    compute_gaps_from_interpretation, extract_topic, scan_topic, ClarificationService, ConfirmInput,
    ConfirmResult, PreflightInput,
};
use klass_gateway::llm::draft::{
    draft_cache_input, draft_result, draft_user_payload, headers_for, DraftInput, DraftTaxonomyHint, DEFAULT_DRAFT_INSTRUCTION, DRAFT_REQUEST_TYPE, DRAFT_ROUTE,
};
use klass_gateway::llm::interpret::{
    interpret_audit_payload, interpret_cache_input, interpret_result, interpret_message_head, ContractFailure, needs_taxonomy_inference, taxonomy_enrichment, interpret_user_payload, InterpretInput, NamedContext,
    SubSubjectInfo, SubjectInfo, TaxonomyBestMatch, DEFAULT_INTERPRET_INSTRUCTION, INTERPRET_INSTRUCTION_KEY,
    INTERPRET_REQUEST_TYPE, INTERPRET_ROUTE,
};
use klass_gateway::llm::respond::{
    respond_answered_result, respond_cached_result, ResponseProvenance, respond_cache_input, respond_headers, respond_user_payload, EntityNode, RespondArtifact, RespondInput, RespondPublication,
    DEFAULT_RESPOND_INSTRUCTION, RESPOND_REQUEST_TYPE, RESPOND_ROUTE,
};
use klass_gateway::llm::call_record::TokenUsage;
use klass_gateway::llm::pipeline::{result_envelope, ResultOrigin};
use klass_gateway::llm::call_record::elapsed_latency;
use klass_gateway::llm::preflight::{
    choose_output_type, content_type_from_name, interpreted_content_type,
};
use klass_gateway::llm::steps::{
    compose_input, draft_input, draft_output_type, entity_node, interpret_input, named_context,
    require_interpretation, step_error, step_generation_id, ComposeRow, StepError, StepFailure, StepKind,
};
use klass_gateway::llm::standards::{
    ContentType, FieldDefinition, FieldPriority, InputType, MinimumRequirementField,
};

fn header_map(pairs: Vec<(String, String)>) -> HashMap<String, String> {
    pairs.into_iter().collect()
}

fn answers(pairs: &[(&str, &str)]) -> Vec<(String, String)> {
    pairs.iter().map(|(k, v)| (k.to_string(), v.to_string())).collect()
}

#[test]
fn test_enrich_prompt_empty_answers() {
    let enriched = ClarificationService::enrich_prompt("Buatkan materi pecahan", &Vec::new());
    assert_eq!(enriched, "Buatkan materi pecahan");
}

#[test]
fn test_enrich_prompt_basic() {
    let a = answers(&[("target_audience", "SD_Kelas_5"), ("output_type", "pdf")]);
    let enriched = ClarificationService::enrich_prompt("Buatkan materi pecahan", &a);
    assert!(enriched.contains("SD Kelas 5"));
    assert!(enriched.contains("PDF"));
}

#[test]
fn test_enrich_prompt_deduplication() {
    let a = answers(&[("target_audience", "SD_Kelas_5"), ("output_type", "pptx"), ("slide_count", "medium")]);
    let enriched = ClarificationService::enrich_prompt("Buatkan aku 5 slide ppt materi pecahan untuk kelas 5 sd", &a);
    assert_eq!(enriched, "Buatkan aku 5 slide ppt materi pecahan untuk kelas 5 sd");
}

#[test]
fn enriched_prompt_appends_phrases_and_slides_in_order() {
    let a = answers(&[
        ("page_count", "short"),
        ("difficulty_level", "Sulit"),
        ("slide_2", "Contoh soal"),
        ("slide_1_content", "Pengertian"),
    ]);
    let enriched = ClarificationService::enrich_prompt("  Buatkan materi pecahan  ", &a);
    assert_eq!(
        enriched,
        "Buatkan materi pecahan, sebanyak 2-3 halaman, tingkat kesulitan Sulit. Rincian isi per slide:\nSlide 1: Pengertian\nSlide 2: Contoh soal"
    );
}

#[test]
fn enriching_without_answers_only_trims() {
    assert_eq!(ClarificationService::enrich_prompt("  Materi gaya  ", &Vec::new()), "Materi gaya");
    assert_eq!(ClarificationService::enrich_prompt("a, , b..", &Vec::new()), "a, b.");
}

#[test]
fn test_extract_topic() {
    assert_eq!(extract_topic("Buatkan materi tentang pecahan"), Some("pecahan".to_string()));
    assert_eq!(
        extract_topic("Buatkan presentasi about gaya tarik-menarik"),
        Some("gaya tarik-menarik".to_string())
    );
    assert_eq!(extract_topic("Buatkan materi belajar"), Some("belajar".to_string()));
    assert_eq!(extract_topic("Hello world foo bar"), None);
}

#[test]
fn topic_scan_stops_at_punctuation_and_conjunctions() {
    assert_eq!(scan_topic("Materi tentang ekosistem, untuk kelas 5"), Some(Some("ekosistem".to_string())));
    assert_eq!(scan_topic("no marker here"), Some(None));
}

fn field(id: &'static str, label: &'static str, priority: FieldPriority) -> FieldDefinition {
    FieldDefinition {
        field_id: id,
        label_id: label,
        label_en: label,
        input_type: InputType::Select,
        priority,
        suggestions: vec![],
    }
}

#[test]
fn test_build_question() {
    let f = FieldDefinition {
        field_id: "target_audience",
        label_id: "Jenjang/Kelas",
        label_en: "Grade Level",
        input_type: InputType::Select,
        priority: FieldPriority::Required,
        suggestions: vec![],
    };
    let question = build_question(&f);
    assert!(question.contains("jenjang"));
}

#[test]
fn test_compute_gaps_excludes_detected() {
    let standards = vec![
        field("target_audience", "Jenjang/Kelas", FieldPriority::Required),
        field("output_type", "Format", FieldPriority::Required),
        field("learning_objectives", "Tujuan Pembelajaran", FieldPriority::Recommended),
        field("page_count", "Jumlah Halaman", FieldPriority::Recommended),
        field("include_activities", "Latihan", FieldPriority::Recommended),
    ];
    let gaps = compute_gaps(&standards, &Vec::new(), Some("SD Kelas 5"), Some("pdf"), Some(1));
    let field_ids: Vec<&str> = gaps.iter().map(|g| g.field_id.as_str()).collect();
    assert!(!field_ids.contains(&"target_audience"));
    assert!(!field_ids.contains(&"output_type"));
}

#[test]
fn gaps_skip_fields_the_prompt_states() {
    let standards = vec![
        field("target_audience", "Jenjang/Kelas", FieldPriority::Required),
        field("page_count", "Jumlah Halaman", FieldPriority::Recommended),
        field("custom_field", "Catatan", FieldPriority::Recommended),
    ];
    let gaps = compute_gaps(&standards, &vec!["page_count".to_string()], None, None, None);
    let ids: Vec<&str> = gaps.iter().map(|g| g.field_id.as_str()).collect();
    assert_eq!(ids, vec!["target_audience", "custom_field"]);
    assert_eq!(gaps[0].priority, "required");
    assert_eq!(gaps[0].input_type, "select");
    assert_eq!(gaps[1].question, "Informasi tambahan untuk Catatan?");
}

#[test]
fn test_suggested_prompt_generation() {
    let prompt = build_suggested_prompt(
        "Buatkan materi pecahan",
        Some("SD Kelas 5"),
        Some("pdf"),
        &ContentType::MateriPembelajaran,
    );
    assert!(prompt.starts_with('B'));
    assert!(prompt.contains("SD Kelas 5"));
    assert!(prompt.contains("PDF"));
    assert!(prompt.ends_with('.'));
}

fn requirement(id: &str, label: &str, priority: &str) -> MinimumRequirementField {
    MinimumRequirementField {
        field_id: id.to_string(),
        field_label: label.to_string(),
        priority: priority.to_string(),
        input_type: "select".to_string(),
        description: label.to_string(),
        suggestions: vec![],
    }
}

fn materi_requirements() -> (Vec<MinimumRequirementField>, Vec<MinimumRequirementField>) {
    (
        vec![requirement("target_audience", "Jenjang/Kelas", "required"), requirement("output_type", "Format", "required")],
        vec![
            requirement("learning_objectives", "Tujuan", "recommended"),
            requirement("page_count", "Halaman", "recommended"),
            requirement("include_activities", "Latihan", "recommended"),
        ],
    )
}

fn object(members: &[(&str, JsonValue)]) -> JsonValue {
    JsonValue::Object(members.iter().map(|(k, v)| (k.to_string(), clone_json(v))).collect())
}

fn clone_json(v: &JsonValue) -> JsonValue {
    match v {
        JsonValue::Null => JsonValue::Null,
        JsonValue::Bool(b) => JsonValue::Bool(*b),
        JsonValue::Number(n) => JsonValue::Number(n.clone()),
        JsonValue::Str(s) => JsonValue::Str(s.clone()),
        JsonValue::Array(a) => JsonValue::Array(a.iter().map(clone_json).collect()),
        JsonValue::Object(o) => JsonValue::Object(o.iter().map(|(k, x)| (k.clone(), clone_json(x))).collect()),
    }
}

#[test]
fn test_compute_gaps_from_interpretation_required_only() {
    let (required, recommended) = materi_requirements();
    let interpreted = object(&[("target_audience", JsonValue::Str("SD Kelas 5".to_string())), ("output_type", JsonValue::Null)]);
    let gaps = compute_gaps_from_interpretation(&required, &recommended, &interpreted, &Vec::new());
    let required_gaps: Vec<&str> = gaps.iter().filter(|g| g.priority == "required").map(|g| g.field_id.as_str()).collect();
    assert!(required_gaps.contains(&"output_type"));
    assert!(!required_gaps.contains(&"target_audience"));
}

#[test]
fn test_compute_gaps_from_interpretation_all_present() {
    let (required, recommended) = materi_requirements();
    let interpreted = object(&[
        ("target_audience", JsonValue::Str("SD Kelas 5".to_string())),
        ("output_type", JsonValue::Str("pdf".to_string())),
    ]);
    let stated = vec!["target_audience".to_string(), "output_type".to_string()];
    let gaps = compute_gaps_from_interpretation(&required, &recommended, &interpreted, &stated);
    let required_gaps: Vec<&str> = gaps.iter().filter(|g| g.priority == "required").map(|g| g.field_id.as_str()).collect();
    assert!(required_gaps.is_empty());
}

#[test]
fn recommended_gaps_fill_up_to_five() {
    let required: Vec<MinimumRequirementField> =
        ["a", "b", "c", "d"].iter().map(|id| requirement(id, id, "required")).collect();
    let recommended: Vec<MinimumRequirementField> =
        ["e", "f", "g"].iter().map(|id| requirement(id, id, "recommended")).collect();
    let interpreted = object(&[("auto_field", JsonValue::Str("auto".to_string())), ("e", JsonValue::Str(" auto ".to_string()))]);
    let gaps = compute_gaps_from_interpretation(&required, &recommended, &interpreted, &Vec::new());
    let ids: Vec<&str> = gaps.iter().map(|g| g.field_id.as_str()).collect();
    assert_eq!(ids, vec!["a", "b", "c", "d", "e"]);
    assert_eq!(gaps[4].priority, "recommended");
}

#[test]
fn test_build_question_from_requirement() {
    let f = MinimumRequirementField {
        field_id: "target_audience".to_string(),
        field_label: "Jenjang/Kelas".to_string(),
        priority: "required".to_string(),
        input_type: "select".to_string(),
        description: "Test".to_string(),
        suggestions: vec![],
    };
    let question = build_question_from_requirement(&f);
    assert!(question.contains("jenjang"));
}

#[test]
fn clarification_inputs_hold_their_values() {
    let input = PreflightInput {
        raw_prompt: "Buatkan materi".to_string(),
        preferred_output_type: Some("auto".to_string()),
        subject_id: None,
        sub_subject_id: Some(3),
    };
    assert_eq!(input.sub_subject_id, Some(3));
    let confirm = ConfirmInput {
        generation_id: "g".to_string(),
        enriched_prompt: "p".to_string(),
        answers: answers(&[("output_type", "pdf")]),
        subject_id: None,
        sub_subject_id: None,
    };
    assert_eq!(confirm.answers.len(), 1);
    let result = ConfirmResult {
        generation_id: "g".to_string(),
        job_id: "j".to_string(),
        status: "queued".to_string(),
        poll_url: "/poll".to_string(),
    };
    assert_eq!(result.status, "queued");
}

#[test]
fn test_draft_constants() {
    assert_eq!(DRAFT_ROUTE, "respond");
    assert_eq!(DRAFT_REQUEST_TYPE, "media_content_draft");
    assert!(DEFAULT_DRAFT_INSTRUCTION.contains("media_content_draft.v1"));
}

#[test]
fn test_headers_for() {
    let h = header_map(headers_for("openrouter", "tencent/hy3:free", true, false));
    assert_eq!(h.get("x-klass-provider"), Some(&"openrouter".to_string()));
    assert_eq!(h.get("x-klass-cache-status"), Some(&"hit".to_string()));
    assert_eq!(h.get("x-klass-fallback-used"), Some(&"false".to_string()));
    let h2 = header_map(headers_for("openrouter", "tencent/hy3:free", false, true));
    assert_eq!(h2.get("x-klass-cache-status"), Some(&"miss".to_string()));
    assert_eq!(h2.get("x-klass-fallback-used"), Some(&"true".to_string()));
}

#[test]
fn headers_come_in_a_fixed_order() {
    let names: Vec<String> = headers_for("p", "m", false, false).into_iter().map(|(k, _)| k).collect();
    assert_eq!(names, vec!["x-klass-provider", "x-klass-model", "x-klass-cache-status", "x-klass-fallback-used"]);
}

#[test]
fn taxonomy_hint_holds_its_values() {
    let hint = DraftTaxonomyHint {
        schema_version: "media_draft_taxonomy_hint.v1".to_string(),
        source: "interpretation_context".to_string(),
        subject_name: Some("Matematika".to_string()),
        subject_slug: Some("matematika".to_string()),
        sub_subject_name: Some("Pecahan".to_string()),
        sub_subject_slug: Some("pecahan".to_string()),
        jenjang: Some("SD".to_string()),
        kelas: Some(5),
        semester: Some(1),
        bab: None,
        description: Some("Pecahan adalah bagian dari keseluruhan".to_string()),
        structure: Some("Konsep, Contoh, Latihan".to_string()),
        matched_signals: vec!["subject_phrase".to_string(), "kelas".to_string()],
    };
    assert_eq!(hint.subject_name.as_deref(), Some("Matematika"));
    assert_eq!(hint.matched_signals.len(), 2);
}

#[test]
fn test_interpret_constants() {
    assert_eq!(INTERPRET_ROUTE, "interpret");
    assert_eq!(INTERPRET_REQUEST_TYPE, "media_prompt_interpretation");
    assert!(DEFAULT_INTERPRET_INSTRUCTION.contains("media_prompt_understanding.v1"));
    assert_eq!(INTERPRET_INSTRUCTION_KEY, "media_prompt_interpretation_instruction");
}

#[test]
fn test_interpret_input_basic() {
    let input = InterpretInput {
        generation_id: "gen-123".to_string(),
        teacher_prompt: "Buatkan materi pecahan untuk kelas 5 SD".to_string(),
        preferred_output_type: "pdf".to_string(),
        subject_context: None,
        sub_subject_context: None,
        model: None,
        instruction: None,
    };
    assert_eq!(input.generation_id, "gen-123");
    assert!(input.teacher_prompt.contains("pecahan"));
}

#[test]
fn test_interpret_input_with_context() {
    let input = InterpretInput {
        generation_id: "gen-456".to_string(),
        teacher_prompt: "Materi tentang gaya".to_string(),
        preferred_output_type: "auto".to_string(),
        subject_context: Some(NamedContext { id: 1, name: "IPA".to_string(), slug: Some("ipa".to_string()) }),
        sub_subject_context: Some(NamedContext { id: 101, name: "Gaya".to_string(), slug: Some("gaya".to_string()) }),
        model: Some("minimax/minimax-m3".to_string()),
        instruction: Some("Custom instruction".to_string()),
    };
    assert!(input.subject_context.is_some());
    assert!(input.model.is_some());
    assert_eq!(input.subject_context.as_ref().unwrap().name, "IPA");
}

#[test]
fn test_named_context_defaults() {
    let ctx = NamedContext { id: 5, name: "Matematika".to_string(), slug: None };
    assert_eq!(ctx.id, 5);
    assert_eq!(ctx.name, "Matematika");
    assert!(ctx.slug.is_none());
}

fn sample_input() -> RespondInput {
    RespondInput {
        generation_id: "gen-respond-1".to_string(),
        title: "Materi Pecahan Kelas 5".to_string(),
        preview_summary: "PDF materi pecahan untuk kelas 5 SD".to_string(),
        artifact: RespondArtifact {
            output_type: "pdf".to_string(),
            file_url: "https://storage.example.com/materi-pecahan.pdf".to_string(),
            mime_type: "application/pdf".to_string(),
            thumbnail_url: None,
            filename: Some("materi-pecahan.pdf".to_string()),
        },
        publication: RespondPublication {
            topic: Some(EntityNode { id: "topic-1".to_string(), title: "Pecahan".to_string() }),
            content: Some(EntityNode { id: "content-1".to_string(), title: "Materi Pecahan".to_string() }),
            recommended_project: None,
        },
        model: None,
        instruction: None,
    }
}

#[test]
fn test_respond_constants() {
    assert_eq!(RESPOND_ROUTE, "respond");
    assert_eq!(RESPOND_REQUEST_TYPE, "media_delivery_response");
    assert!(DEFAULT_RESPOND_INSTRUCTION.contains("media_delivery_response.v1"));
}

#[test]
fn test_respond_input_defaults() {
    let input = sample_input();
    assert_eq!(input.generation_id, "gen-respond-1");
    assert_eq!(input.title, "Materi Pecahan Kelas 5");
    assert_eq!(input.artifact.output_type, "pdf");
    assert_eq!(input.artifact.file_url, "https://storage.example.com/materi-pecahan.pdf");
}

#[test]
fn test_respond_input_with_model() {
    let input = RespondInput {
        model: Some("tencent/hy3:free".to_string()),
        instruction: Some("Custom respond instruction".to_string()),
        ..sample_input()
    };
    assert_eq!(input.model.as_deref(), Some("tencent/hy3:free"));
}

#[test]
fn test_respond_artifact_basic() {
    let art = RespondArtifact {
        output_type: "pptx".to_string(),
        file_url: "https://storage.example.com/slides.pptx".to_string(),
        mime_type: "application/vnd.openxmlformats-officedocument.presentationml.presentation".to_string(),
        thumbnail_url: Some("https://storage.example.com/slides-thumb.png".to_string()),
        filename: Some("slides.pptx".to_string()),
    };
    assert_eq!(art.output_type, "pptx");
    assert!(art.thumbnail_url.is_some());
}

#[test]
fn test_respond_publication_default() {
    let pub_entity: RespondPublication = Default::default();
    assert!(pub_entity.topic.is_none());
    assert!(pub_entity.content.is_none());
    assert!(pub_entity.recommended_project.is_none());
}

#[test]
fn test_respond_publication_with_nodes() {
    let pub_entity = RespondPublication {
        topic: Some(EntityNode { id: "t1".to_string(), title: "Topic 1".to_string() }),
        content: Some(EntityNode { id: "c1".to_string(), title: "Content 1".to_string() }),
        recommended_project: Some(EntityNode { id: "r1".to_string(), title: "Project 1".to_string() }),
    };
    assert_eq!(pub_entity.topic.as_ref().unwrap().id, "t1");
    assert_eq!(pub_entity.content.as_ref().unwrap().title, "Content 1");
    assert_eq!(pub_entity.recommended_project.as_ref().unwrap().id, "r1");
}

#[test]
fn test_entity_node_construction() {
    let node = EntityNode { id: "topic-abc".to_string(), title: "Matematika".to_string() };
    assert_eq!(node.id, "topic-abc");
    assert_eq!(node.title, "Matematika");
}

#[test]
fn test_respond_headers() {
    let h = header_map(respond_headers("openrouter", "tencent/hy3:free", true, false));
    assert_eq!(h.get("x-klass-provider"), Some(&"openrouter".to_string()));
    assert_eq!(h.get("x-klass-cache-status"), Some(&"hit".to_string()));
    assert_eq!(h.get("x-klass-fallback-used"), Some(&"false".to_string()));
    let h2 = header_map(respond_headers("openrouter", "tencent/hy3:free", false, true));
    assert_eq!(h2.get("x-klass-cache-status"), Some(&"miss".to_string()));
    assert_eq!(h2.get("x-klass-fallback-used"), Some(&"true".to_string()));
}

#[test]
fn step_compose_input_defaults() {
    let row = ComposeRow {
        title: None,
        resolved_output_type: None,
        file_url: None,
        mime_type: None,
        thumbnail_url: None,
        filename: Some("a.pdf".to_string()),
        preview_summary: None,
    };
    let publication = RespondPublication {
        topic: Some(entity_node(12, "Ekosistem")),
        content: None,
        recommended_project: Some(entity_node(-3, "Proyek")),
    };
    let input = compose_input("gen-9", &row, publication);
    assert_eq!(input.generation_id, "gen-9");
    assert_eq!(input.title, "Untitled");
    assert_eq!(input.preview_summary, "");
    assert_eq!(input.artifact.output_type, "pdf");
    assert_eq!(input.artifact.file_url, "");
    assert_eq!(input.artifact.mime_type, "");
    assert_eq!(input.artifact.thumbnail_url, None);
    assert_eq!(input.artifact.filename.as_deref(), Some("a.pdf"));
    let topic = input.publication.topic.unwrap();
    assert_eq!(topic.id, "12");
    assert_eq!(topic.title, "Ekosistem");
    assert_eq!(input.publication.recommended_project.unwrap().id, "-3");
    assert!(input.model.is_none() && input.instruction.is_none());
}

#[test]
fn step_compose_input_keeps_row_values() {
    let row = ComposeRow {
        title: Some("Rangkuman".to_string()),
        resolved_output_type: Some("docx".to_string()),
        file_url: Some("https://f".to_string()),
        mime_type: Some("m".to_string()),
        thumbnail_url: Some("https://t".to_string()),
        filename: None,
        preview_summary: Some("ringkas".to_string()),
    };
    let input = compose_input("g", &row, RespondPublication::default());
    assert_eq!(input.title, "Rangkuman");
    assert_eq!(input.preview_summary, "ringkas");
    assert_eq!(input.artifact.output_type, "docx");
    assert_eq!(input.artifact.file_url, "https://f");
    assert_eq!(input.artifact.mime_type, "m");
    assert_eq!(input.artifact.thumbnail_url.as_deref(), Some("https://t"));
    assert!(input.publication.topic.is_none());
}

#[test]
fn step_interpret_and_draft_inputs() {
    assert!(named_context(5, None).is_none());
    let ctx = named_context(5, Some(("Biologi".to_string(), Some("biologi".to_string())))).unwrap();
    assert_eq!((ctx.id, ctx.name.as_str(), ctx.slug.as_deref()), (5, "Biologi", Some("biologi")));
    let input = interpret_input("g", "buat materi".to_string(), "auto".to_string(), Some(ctx), None);
    assert_eq!(input.teacher_prompt, "buat materi");
    assert_eq!(input.preferred_output_type, "auto");
    assert_eq!(input.subject_context.unwrap().id, 5);
    assert!(input.sub_subject_context.is_none() && input.model.is_none());
    assert_eq!(draft_output_type(None), "pdf");
    assert_eq!(draft_output_type(Some("pptx".to_string())), "pptx");
    assert!(matches!(require_interpretation(Some(JsonValue::Null)), Ok(JsonValue::Null)));
    assert_eq!(
        require_interpretation(None).unwrap_err(),
        "interpretation_payload is NULL — interpret step must run first"
    );
}

fn sample_interpretation() -> JsonValue {
    JsonValue::Object(vec![
        ("teacher_prompt".to_string(), JsonValue::Str("Buatkan materi pecahan kelas 5 SD".to_string())),
        (
            "document_blueprint".to_string(),
            JsonValue::Object(vec![("title".to_string(), JsonValue::Str("Materi Pecahan".to_string()))]),
        ),
    ])
}

fn sample_draft_input() -> DraftInput {
    DraftInput {
        generation_id: "gen-draft-1".to_string(),
        interpretation: sample_interpretation(),
        resolved_output_type: "pdf".to_string(),
        taxonomy_hint: None,
        model: None,
        instruction: None,
    }
}

#[test]
fn test_draft_input_defaults() {
    let input = sample_draft_input();
    assert_eq!(input.generation_id, "gen-draft-1");
    assert_eq!(input.resolved_output_type, "pdf");
    assert!(input.taxonomy_hint.is_none());
    assert!(input.model.is_none());
}

#[test]
fn test_draft_input_with_taxonomy_hint() {
    let hint = DraftTaxonomyHint {
        schema_version: "media_draft_taxonomy_hint.v1".to_string(),
        source: "interpretation_context".to_string(),
        subject_name: Some("Matematika".to_string()),
        subject_slug: Some("matematika".to_string()),
        sub_subject_name: Some("Pecahan".to_string()),
        sub_subject_slug: Some("pecahan".to_string()),
        jenjang: Some("SD".to_string()),
        kelas: Some(5),
        semester: Some(1),
        bab: None,
        description: Some("Pecahan adalah bagian dari keseluruhan".to_string()),
        structure: Some("Konsep, Contoh, Latihan".to_string()),
        matched_signals: vec!["subject_phrase".to_string(), "kelas".to_string()],
    };
    let input = DraftInput {
        taxonomy_hint: Some(hint),
        model: Some("tencent/hy3:free".to_string()),
        instruction: Some("Custom instruction".to_string()),
        ..sample_draft_input()
    };
    assert!(input.taxonomy_hint.is_some());
    assert_eq!(
        input.taxonomy_hint.as_ref().unwrap().subject_name.as_deref(),
        Some("Matematika")
    );
    assert_eq!(input.model.as_deref(), Some("tencent/hy3:free"));
}

#[test]
fn step_draft_input_from_row() {
    let input = draft_input("gen-draft-2", sample_interpretation(), None);
    assert_eq!(input.generation_id, "gen-draft-2");
    assert_eq!(input.resolved_output_type, "pdf");
    assert!(matches!(input.interpretation, JsonValue::Object(ref m) if m.len() == 2));
    assert!(input.taxonomy_hint.is_none() && input.model.is_none() && input.instruction.is_none());
    let input = draft_input("g", JsonValue::Null, Some("docx".to_string()));
    assert_eq!(input.resolved_output_type, "docx");
}

#[test]
fn test_subject_info_construction() {
    let info = SubjectInfo {
        name: "Matematika".to_string(),
        slug: "matematika".to_string(),
    };
    assert_eq!(info.name, "Matematika");
    assert_eq!(info.slug, "matematika");
}

#[test]
fn test_sub_subject_info_construction() {
    let info = SubSubjectInfo {
        name: "Pecahan".to_string(),
        slug: "pecahan".to_string(),
    };
    assert_eq!(info.name, "Pecahan");
}

fn best_match(subject: &str, sub_name: Option<&str>, sub_slug: Option<&str>) -> TaxonomyBestMatch {
    TaxonomyBestMatch {
        subject_name: subject.to_string(),
        subject_slug: subject.to_lowercase(),
        sub_subject_name: sub_name.map(|s| s.to_string()),
        sub_subject_slug: sub_slug.map(|s| s.to_string()),
        jenjang: None,
        kelas: None,
    }
}

#[test]
fn inference_best_match_empty_names_give_nothing() {
    let m = best_match("", Some(""), Some("x"));
    assert!(m.try_into_subject().is_none());
    assert!(m.try_into_sub_subject().is_none());
    assert!(best_match("IPA", None, Some("x")).try_into_sub_subject().is_none());
    assert!(best_match("IPA", Some("Gaya"), None).try_into_sub_subject().is_none());
}

#[test]
fn inference_best_match_named_entries() {
    let m = best_match("Matematika", Some("Pecahan"), Some("pecahan"));
    let s = m.try_into_subject().unwrap();
    assert_eq!((s.name.as_str(), s.slug.as_str()), ("Matematika", "matematika"));
    let ss = m.try_into_sub_subject().unwrap();
    assert_eq!((ss.name.as_str(), ss.slug.as_str()), ("Pecahan", "pecahan"));
}

fn preflight_standards() -> Vec<FieldDefinition> {
    vec![
        field("target_audience", "Jenjang/Kelas", FieldPriority::Required),
        field("output_type", "Format", FieldPriority::Required),
        field("learning_objectives", "Tujuan Pembelajaran", FieldPriority::Recommended),
        field("page_count", "Jumlah Halaman", FieldPriority::Recommended),
    ]
}

#[test]
fn preflight_decision_not_ready_without_audience() {
    let o = ClarificationService::preflight_decision(
        "Buatkan materi tentang ekosistem",
        ContentType::MateriPembelajaran,
        &preflight_standards(),
        &vec![],
        None,
        Some("pdf".to_string()),
        &Some("auto".to_string()),
        None,
    )
    .unwrap();
    let ids: Vec<&str> = o.gaps.iter().map(|g| g.field_id.as_str()).collect();
    assert_eq!(ids, vec!["target_audience", "learning_objectives", "page_count"]);
    assert_eq!((o.total_required_gaps, o.total_recommended_gaps), (1, 2));
    assert!(!o.is_ready);
    assert_eq!(o.output_type.as_deref(), Some("pdf"));
    assert_eq!(o.topic.as_deref(), Some("ekosistem"));
    assert_eq!(o.suggested_prompt, "Buatkan materi tentang ekosistem dalam format PDF.");
    assert_eq!(o.content_type, ContentType::MateriPembelajaran);
}

#[test]
fn preflight_decision_ready_when_required_known() {
    let o = ClarificationService::preflight_decision(
        "buat slide tentang fotosintesis untuk SMP kelas 7",
        ContentType::SlidePresentasi,
        &preflight_standards(),
        &vec!["page_count".to_string()],
        Some("SMP Kelas 7".to_string()),
        None,
        &Some("pptx".to_string()),
        Some(3),
    )
    .unwrap();
    let ids: Vec<&str> = o.gaps.iter().map(|g| g.field_id.as_str()).collect();
    assert_eq!(ids, vec!["learning_objectives"]);
    assert!(o.is_ready);
    assert_eq!((o.total_required_gaps, o.total_recommended_gaps), (0, 1));
    assert_eq!(o.output_type.as_deref(), Some("pptx"));
    assert_eq!(o.audience.as_deref(), Some("SMP Kelas 7"));
    assert_eq!(o.subject_id, Some(3));
}

#[test]
fn preflight_with_interpretation_decision_prefers_interpreted_values() {
    let (required, recommended) = materi_requirements();
    let interpreted = object(&[
        ("target_audience", JsonValue::Str("SD Kelas 5".to_string())),
        ("output_type", JsonValue::Str("docx".to_string())),
        ("topic", JsonValue::Str("Pecahan".to_string())),
    ]);
    let o = ClarificationService::preflight_with_interpretation_decision(
        "buatkan materi tentang perkalian",
        ContentType::MateriPembelajaran,
        &required,
        &recommended,
        &interpreted,
        &vec![],
        Some("SMP".to_string()),
        Some("pdf".to_string()),
        &None,
        None,
    )
    .unwrap();
    assert_eq!(o.audience.as_deref(), Some("SD Kelas 5"));
    assert_eq!(o.output_type.as_deref(), Some("docx"));
    assert_eq!(o.topic.as_deref(), Some("Pecahan"));
    assert!(o.is_ready);
    assert_eq!(o.total_recommended_gaps, 3);
}

#[test]
fn preflight_with_interpretation_decision_falls_back_to_prompt() {
    let (required, recommended) = materi_requirements();
    let interpreted = object(&[("output_type", JsonValue::Str("auto".to_string()))]);
    let o = ClarificationService::preflight_with_interpretation_decision(
        "buatkan materi tentang perkalian",
        ContentType::MateriPembelajaran,
        &required,
        &recommended,
        &interpreted,
        &vec![],
        None,
        Some("pdf".to_string()),
        &Some(String::new()),
        None,
    )
    .unwrap();
    assert_eq!(o.audience, None);
    assert_eq!(o.output_type.as_deref(), Some("pdf"));
    assert_eq!(o.topic.as_deref(), Some("perkalian"));
    assert!(!o.is_ready);
    assert_eq!(o.total_required_gaps, 2);
}

#[test]
fn preflight_content_type_names() {
    assert_eq!(content_type_from_name("rpp"), Some(ContentType::Rpp));
    assert_eq!(content_type_from_name("lembar_kerja"), Some(ContentType::LembarKerja));
    assert_eq!(content_type_from_name("poster"), None);
    assert_eq!(interpreted_content_type(Some("penilaian"), ContentType::Rpp), ContentType::Penilaian);
    assert_eq!(interpreted_content_type(Some("poster"), ContentType::Rpp), ContentType::Rpp);
    assert_eq!(interpreted_content_type(None, ContentType::Silabus), ContentType::Silabus);
}

#[test]
fn preflight_output_type_choice() {
    assert_eq!(choose_output_type(&Some("pptx".to_string()), Some("pdf"), None).as_deref(), Some("pptx"));
    assert_eq!(choose_output_type(&Some("auto".to_string()), Some("docx"), None).as_deref(), Some("docx"));
    assert_eq!(choose_output_type(&Some(String::new()), Some(""), Some("pdf".to_string())).as_deref(), Some("pdf"));
    assert_eq!(choose_output_type(&None, None, None), None);
}

fn sample_respond_input(with_entities: bool) -> RespondInput {
    RespondInput {
        generation_id: "gen-r".to_string(),
        title: "Materi Pecahan".to_string(),
        preview_summary: "Ringkasan".to_string(),
        artifact: RespondArtifact {
            output_type: "pdf".to_string(),
            file_url: "https://r2/a.pdf".to_string(),
            mime_type: "application/pdf".to_string(),
            thumbnail_url: if with_entities { Some("https://r2/a.svg".to_string()) } else { None },
            filename: None,
        },
        publication: if with_entities {
            RespondPublication {
                topic: Some(EntityNode { id: "7".to_string(), title: "Pecahan".to_string() }),
                content: None,
                recommended_project: Some(EntityNode { id: "9".to_string(), title: "Proyek".to_string() }),
            }
        } else {
            RespondPublication::default()
        },
        model: None,
        instruction: None,
    }
}

fn at<'a>(v: &'a JsonValue, path: &[&str]) -> Option<&'a JsonValue> {
    let mut cur = v;
    for k in path {
        cur = klass_gateway::json::get(cur, k)?;
    }
    Some(cur)
}

fn text(v: Option<&JsonValue>) -> Option<&str> {
    match v {
        Some(JsonValue::Str(s)) => Some(s.as_str()),
        _ => None,
    }
}

#[test]
fn respond_user_payload_shape() {
    let p = respond_user_payload(&sample_respond_input(true));
    assert_eq!(text(at(&p, &["title"])), Some("Materi Pecahan"));
    assert_eq!(text(at(&p, &["preview_summary"])), Some("Ringkasan"));
    assert_eq!(text(at(&p, &["artifact", "title"])), Some("Materi Pecahan"));
    assert_eq!(text(at(&p, &["artifact", "file_url"])), Some("https://r2/a.pdf"));
    assert_eq!(text(at(&p, &["artifact", "thumbnail_url"])), Some("https://r2/a.svg"));
    assert!(matches!(at(&p, &["artifact", "filename"]), Some(JsonValue::Null)));
    assert_eq!(text(at(&p, &["publication", "topic", "id"])), Some("7"));
    assert!(matches!(at(&p, &["publication", "content"]), Some(JsonValue::Null)));
    assert_eq!(text(at(&p, &["publication", "recommended_project", "title"])), Some("Proyek"));
}

#[test]
fn respond_cache_input_shape() {
    let c = respond_cache_input(&sample_respond_input(false));
    assert_eq!(text(at(&c, &["title"])), Some("Materi Pecahan"));
    assert_eq!(text(at(&c, &["artifact", "mime_type"])), Some("application/pdf"));
    assert!(at(&c, &["artifact", "thumbnail_url"]).is_none());
    assert!(matches!(at(&c, &["topic"]), Some(JsonValue::Null)));
    assert!(matches!(at(&c, &["content"]), Some(JsonValue::Null)));
    assert!(at(&c, &["publication"]).is_none());
}

fn sample_interpret_input() -> InterpretInput {
    InterpretInput {
        generation_id: "gen-i".to_string(),
        teacher_prompt: "  Buatkan materi pecahan  ".to_string(),
        preferred_output_type: "auto".to_string(),
        subject_context: Some(NamedContext { id: -4, name: "Matematika".to_string(), slug: None }),
        sub_subject_context: None,
        model: None,
        instruction: None,
    }
}

#[test]
fn interpret_cache_input_keeps_prompt_and_ids() {
    let c = interpret_cache_input(&sample_interpret_input());
    assert_eq!(text(at(&c, &["teacher_prompt"])), Some("  Buatkan materi pecahan  "));
    assert_eq!(text(at(&c, &["preferred_output_type"])), Some("auto"));
    assert!(matches!(at(&c, &["subject_context", "id"]), Some(JsonValue::Number(n)) if n == "-4"));
    assert_eq!(text(at(&c, &["subject_context", "name"])), Some("Matematika"));
    assert!(matches!(at(&c, &["subject_context", "slug"]), Some(JsonValue::Null)));
    assert!(matches!(at(&c, &["sub_subject_context"]), Some(JsonValue::Null)));
}

#[test]
fn interpret_user_payload_trims_and_drops_ids() {
    let p = interpret_user_payload(&sample_interpret_input());
    assert_eq!(text(at(&p, &["teacher_prompt"])), Some("Buatkan materi pecahan"));
    assert!(at(&p, &["subject_context", "id"]).is_none());
    assert_eq!(text(at(&p, &["subject_context", "name"])), Some("Matematika"));
}

#[test]
fn interpret_message_head_adds_context_hints() {
    let mut input = sample_interpret_input();
    assert_eq!(interpret_message_head(&input), "Buatkan materi pecahan (subject: Matematika)");
    input.sub_subject_context = Some(NamedContext { id: 2, name: "Pecahan".to_string(), slug: Some("pecahan".to_string()) });
    assert_eq!(
        interpret_message_head(&input),
        "Buatkan materi pecahan (subject: Matematika) (sub_subject: Pecahan)"
    );
    input.subject_context = None;
    input.sub_subject_context = None;
    assert_eq!(interpret_message_head(&input), "Buatkan materi pecahan");
}

#[test]
fn taxonomy_enrichment_fills_only_missing_contexts() {
    let mut input = sample_interpret_input();
    input.subject_context = None;
    let mut best = best_match("Matematika", Some("Pecahan"), Some("pecahan"));
    best.jenjang = Some("SD".to_string());
    best.kelas = Some(5);
    assert!(needs_taxonomy_inference(&input));
    let e = taxonomy_enrichment(&input, false, false, false, Some(&best));
    assert_eq!(e.subject.as_ref().map(|s| s.name.as_str()), Some("Matematika"));
    assert_eq!(e.sub_subject.as_ref().map(|s| s.slug.as_str()), Some("pecahan"));
    assert_eq!(e.audience, Some(("SD".to_string(), Some("5".to_string()))));
    let e = taxonomy_enrichment(&input, true, false, true, Some(&best));
    assert!(e.subject.is_none() && e.audience.is_none());
    assert!(e.sub_subject.is_some());
    let e = taxonomy_enrichment(&input, false, false, false, None);
    assert!(e.subject.is_none() && e.sub_subject.is_none() && e.audience.is_none());
}

#[test]
fn taxonomy_enrichment_skipped_when_both_contexts_given() {
    let mut input = sample_interpret_input();
    input.sub_subject_context = Some(NamedContext { id: 1, name: "Pecahan".to_string(), slug: None });
    assert!(!needs_taxonomy_inference(&input));
    let mut best = best_match("IPA", Some("Gaya"), Some("gaya"));
    best.jenjang = Some("SMP".to_string());
    let e = taxonomy_enrichment(&input, false, false, false, Some(&best));
    assert!(e.subject.is_none() && e.sub_subject.is_none() && e.audience.is_none());
    input.sub_subject_context = None;
    let e = taxonomy_enrichment(&input, false, false, false, Some(&best));
    assert!(e.subject.is_none());
    assert_eq!(e.audience, Some(("SMP".to_string(), None)));
}

#[test]
fn interpret_audit_payload_shape() {
    let input = sample_interpret_input();
    let usage = TokenUsage { prompt_tokens: Some(12), completion_tokens: None, total_tokens: Some(40) };
    let failure = ContractFailure {
        code: "schema_invalid".to_string(),
        message: "missing field".to_string(),
        details: JsonValue::Null,
    };
    let a = interpret_audit_payload(
        "openrouter",
        "m1",
        &input,
        "{}",
        None,
        Some(usage),
        Some("stop"),
        None,
        JsonValue::Object(vec![]),
        true,
        Some(failure),
    );
    assert_eq!(text(at(&a, &["llm_provider"])), Some("openrouter"));
    assert_eq!(text(at(&a, &["llm_model"])), Some("m1"));
    assert_eq!(text(at(&a, &["request_payload", "teacher_prompt"])), Some("  Buatkan materi pecahan  "));
    assert_eq!(text(at(&a, &["request_meta", "route"])), Some("interpret"));
    assert_eq!(text(at(&a, &["request_meta", "instruction_schema"])), Some("media_prompt_interpretation"));
    assert_eq!(text(at(&a, &["response", "raw_completion"])), Some("{}"));
    assert!(matches!(at(&a, &["response", "provider_model"]), Some(JsonValue::Null)));
    assert!(matches!(at(&a, &["response", "usage", "prompt_tokens"]), Some(JsonValue::Number(n)) if n == "12"));
    assert!(matches!(at(&a, &["response", "usage", "completion_tokens"]), Some(JsonValue::Null)));
    assert_eq!(text(at(&a, &["response", "finish_reason"])), Some("stop"));
    assert!(matches!(at(&a, &["taxonomy_inference"]), Some(JsonValue::Null)));
    assert!(matches!(at(&a, &["used_fallback"]), Some(JsonValue::Bool(true))));
    assert_eq!(text(at(&a, &["fallback_error", "code"])), Some("schema_invalid"));

    let b = interpret_audit_payload(
        "openrouter", "m1", &input, "x", Some("vendor/m2"), None, None, Some(JsonValue::Bool(true)),
        JsonValue::Null, false, None,
    );
    assert_eq!(text(at(&b, &["llm_model"])), Some("vendor/m2"));
    assert!(matches!(at(&b, &["response", "usage"]), Some(JsonValue::Null)));
    assert!(matches!(at(&b, &["taxonomy_inference"]), Some(JsonValue::Bool(true))));
    assert!(matches!(at(&b, &["fallback_error"]), Some(JsonValue::Null)));
}

#[test]
fn enrichment_keeps_the_trimmed_prompt_in_front() {
    let a = answers(&[("target_audience", "SMP_Kelas_8"), ("question_count", "10")]);
    let enriched = ClarificationService::enrich_prompt("  Buatkan kuis cahaya  ", &a);
    assert!(enriched.starts_with("Buatkan kuis cahaya"));
    assert_eq!(enriched, "Buatkan kuis cahaya, untuk jenjang SMP Kelas 8, dengan 10 soal");
}

#[test]
fn enrichment_ignores_fields_it_does_not_read() {
    let a = answers(&[("favourite_colour", "blue"), ("slide_21", "Penutup")]);
    assert_eq!(ClarificationService::enrich_prompt("  Materi gaya gesek  ", &a), "Materi gaya gesek");
}

#[test]
fn enriching_twice_adds_nothing() {
    let a = answers(&[("target_audience", "SD_Kelas_5"), ("output_type", "pdf")]);
    let once = ClarificationService::enrich_prompt("Buatkan materi pecahan", &a);
    assert_eq!(once, "Buatkan materi pecahan, untuk jenjang SD Kelas 5, dalam format PDF");
    let twice = ClarificationService::enrich_prompt(&once, &a);
    assert_eq!(twice, once);
}

#[test]
fn extracted_topics_are_trimmed_pieces_of_the_prompt() {
    let prompt = "Tolong buat ringkasan TENTANG   sistem tata surya  , lalu kuis";
    let topic = extract_topic(prompt).unwrap();
    assert_eq!(topic, "sistem tata surya");
    assert_eq!(topic.trim(), topic);
    assert!(prompt.contains(topic.as_str()));
    assert!(topic.len() > 2);
    assert!(!topic.contains(|c| c == '.' || c == ',' || c == '!' || c == '?'));
}

#[test]
fn ascii_prompts_always_scan() {
    for prompt in ["", "topic x", "about ab.", "MATERI tentang", "topik gempa bumi!"] {
        assert!(scan_topic(prompt).is_some());
    }
    assert_eq!(scan_topic("about ab."), Some(None));
    assert_eq!(scan_topic("topik gempa bumi!"), Some(Some("gempa bumi".to_string())));
}

#[test]
fn result_envelopes_follow_their_origin() {
    let cached = result_envelope("openrouter", "m1", ResultOrigin::Cache);
    assert_eq!(cached.source, "cache");
    assert!(cached.cache_hit && !cached.fallback_used && cached.fallback_error.is_none());
    assert_eq!(cached.response_headers[2], ("x-klass-cache-status".to_string(), "hit".to_string()));
    let answered = result_envelope("openrouter", "m1", ResultOrigin::Provider);
    assert_eq!(answered.source, "provider");
    assert_eq!(answered.response_headers[3], ("x-klass-fallback-used".to_string(), "false".to_string()));
    let fell_back = result_envelope("openrouter", "m1", ResultOrigin::Fallback("provider_response_contract_invalid".to_string()));
    assert_eq!(fell_back.source, "fallback");
    assert_eq!(fell_back.fallback_error.as_deref(), Some("provider_response_contract_invalid"));
    assert!(fell_back.fallback_used && !fell_back.cache_hit);
    assert_eq!(fell_back.response_headers[2].1, "miss");
    assert_eq!(fell_back.response_headers[3].1, "true");
    assert_eq!(fell_back.response_headers[0], ("x-klass-provider".to_string(), "openrouter".to_string()));
}

#[test]
fn step_failures_name_their_step() {
    let msg = |step: StepKind, failure: StepFailure| match step_error(step, &failure) {
        StepError::StepProvider(m) => m,
        StepError::InvalidUuid(m) => panic!("unexpected invalid uuid: {m}"),
    };
    assert_eq!(msg(StepKind::Interpret, StepFailure::Provider("timeout".to_string())), "interpret: provider error — timeout");
    assert_eq!(msg(StepKind::Draft, StepFailure::Cache("pool closed".to_string())), "draft: cache error — pool closed");
    assert_eq!(
        msg(StepKind::Compose, StepFailure::RateLimited),
        "compose: rate limited by governance — rate limited by governance policy"
    );
    assert_eq!(msg(StepKind::Compose, StepFailure::Governance("x".to_string())), "compose: governance error — x");
    assert_eq!(msg(StepKind::Draft, StepFailure::Contract("bad".to_string())), "draft: contract error — bad");
}

#[test]
fn step_generation_ids_must_be_uuids() {
    assert_eq!(
        step_generation_id("67e55044-10b1-426f-9247-bb680e5fe0c8"),
        Ok(0x67e5504410b1426f9247bb680e5fe0c8u128)
    );
    match step_generation_id("not-a-uuid") {
        Err(StepError::InvalidUuid(m)) => assert!(!m.is_empty()),
        other => panic!("expected an invalid uuid, got {other:?}"),
    }
}

#[test]
fn draft_results_name_their_origin() {
    let cached = draft_result(
        "req-1".to_string(),
        "gen-1".to_string(),
        JsonValue::Null,
        "openrouter",
        "tencent/hy3:free",
        Some("ignored"),
        None,
        ResultOrigin::Cache,
        elapsed_latency(120),
    );
    assert_eq!(cached.source, "cache");
    assert!(cached.fallback_error.is_none());
    assert_eq!(text(at(&cached.adapter_metadata, &["provider"])), Some("openrouter"));
    assert_eq!(text(at(&cached.adapter_metadata, &["model"])), Some("tencent/hy3:free"));
    assert!(matches!(at(&cached.adapter_metadata, &["cache_hit"]), Some(JsonValue::Bool(true))));
    assert_eq!(cached.response_headers[2].1, "hit");
    assert_eq!(cached.latency_ms.unwrap().mantissa, 120);

    let usage = TokenUsage { prompt_tokens: Some(10), completion_tokens: Some(5), total_tokens: None };
    let fell_back = draft_result(
        "req-2".to_string(),
        "gen-2".to_string(),
        JsonValue::Null,
        "openrouter",
        "tencent/hy3:free",
        Some("vendor/model-x"),
        Some(usage),
        ResultOrigin::Fallback("provider_response_contract_invalid".to_string()),
        elapsed_latency(900),
    );
    assert_eq!(fell_back.source, "fallback");
    assert_eq!(fell_back.fallback_error.as_deref(), Some("provider_response_contract_invalid"));
    assert_eq!(text(at(&fell_back.adapter_metadata, &["provider"])), Some("vendor/model-x"));
    assert!(matches!(at(&fell_back.adapter_metadata, &["usage", "prompt_tokens"]), Some(JsonValue::Number(n)) if n == "10"));
    assert!(matches!(at(&fell_back.adapter_metadata, &["usage", "total_tokens"]), Some(JsonValue::Null)));
    assert_eq!(fell_back.response_headers[0].1, "vendor/model-x");
    assert_eq!(fell_back.response_headers[1].1, "vendor/model-x");
    assert_eq!(fell_back.response_headers[2].1, "miss");
    assert_eq!(fell_back.response_headers[3].1, "true");
}

#[test]
fn interpretation_results_carry_their_flags() {
    let r = interpret_result(
        "req-3".to_string(),
        "gen-3".to_string(),
        JsonValue::Null,
        JsonValue::Null,
        "openrouter",
        "m2",
        ResultOrigin::Cache,
        elapsed_latency(5),
    );
    assert_eq!(r.llm_provider, "openrouter");
    assert_eq!(r.llm_model, "m2");
    assert!(r.cache_hit && !r.fallback_used);
    assert_eq!(r.response_headers[2].1, "hit");
    assert_eq!(r.response_headers[3].1, "false");
    let fb = interpret_result(
        "req-6".to_string(),
        "gen-6".to_string(),
        JsonValue::Null,
        JsonValue::Null,
        "openrouter",
        "m2",
        ResultOrigin::Fallback("contract".to_string()),
        elapsed_latency(6),
    );
    assert!(!fb.cache_hit && fb.fallback_used);
    assert_eq!(fb.response_headers[2].1, "miss");
    assert_eq!(fb.response_headers[3].1, "true");
}

#[test]
fn delivery_results_follow_cache_or_answer() {
    let recorded = ResponseProvenance {
        provider: Some("openrouter".to_string()),
        model: None,
        llm_used: true,
        fallback_triggered: false,
    };
    let cached = respond_cached_result(
        "req-4".to_string(),
        "gen-4".to_string(),
        JsonValue::Null,
        "openrouter",
        "m3",
        recorded,
        elapsed_latency(7),
    );
    assert_eq!(cached.source, "cache");
    assert_eq!(cached.llm_provider.as_deref(), Some("openrouter"));
    assert!(cached.llm_model.is_none());
    assert!(cached.llm_used && !cached.fallback_used);
    assert_eq!(cached.response_headers[2].1, "hit");

    let answered = respond_answered_result(
        "req-5".to_string(),
        "gen-5".to_string(),
        JsonValue::Null,
        "openrouter",
        "m3",
        None,
        true,
        elapsed_latency(8),
    );
    assert_eq!(answered.source, "fallback");
    assert_eq!(answered.llm_provider.as_deref(), Some("openrouter"));
    assert_eq!(answered.llm_model.as_deref(), Some("m3"));
    assert!(!answered.llm_used && answered.fallback_used);
    assert_eq!(answered.response_headers[3].1, "true");
}

#[test]
fn enriching_a_non_ascii_prompt_twice_adds_nothing() {
    let a = answers(&[("target_audience", "SMA_Kelas_10"), ("output_type", "docx")]);
    let once = ClarificationService::enrich_prompt("  Sejarah ΟΔΥΣΣΕΥΣ dan Ιθάκη  ", &a);
    assert_eq!(once, "Sejarah ΟΔΥΣΣΕΥΣ dan Ιθάκη, untuk jenjang SMA Kelas 10, dalam format DOCX");
    assert_eq!(ClarificationService::enrich_prompt(&once, &a), once);
    let ending_in_sigma = ClarificationService::enrich_prompt("Kisah ΟΔΥΣΣΕΥΣ", &a);
    assert_eq!(ClarificationService::enrich_prompt(&ending_in_sigma, &a), ending_in_sigma);
}

fn rich_interpretation() -> JsonValue {
    let str_ = |t: &str| JsonValue::Str(t.to_string());
    let o = |m: Vec<(&str, JsonValue)>| JsonValue::Object(m.into_iter().map(|(k, v)| (k.to_string(), v)).collect());
    o(vec![
        ("teacher_prompt", str_("Buatkan materi pecahan")),
        ("language", str_("id")),
        ("learning_objectives", JsonValue::Array(vec![str_("Memahami pecahan")])),
        ("teacher_intent", o(vec![("goal", str_("Mengajar pecahan"))])),
        ("constraints", o(vec![("tone", str_("ramah")), ("avoid", JsonValue::Array(vec![]))])),
        ("subject_context", o(vec![("subject_name", str_("Matematika")), ("subject_slug", str_("matematika"))])),
        ("sub_subject_context", JsonValue::Null),
        (
            "document_blueprint",
            o(vec![
                ("title", str_("Materi Pecahan")),
                ("summary", str_("Ringkas")),
                (
                    "sections",
                    JsonValue::Array(vec![
                        o(vec![("title", str_("Pengantar")), ("purpose", str_("Membuka")), ("bullets", JsonValue::Array(vec![str_("a")]))]),
                        o(vec![("title", str_("Latihan")), ("estimated_length", str_("short"))]),
                    ]),
                ),
            ]),
        ),
    ])
}

#[test]
fn draft_cache_input_carries_the_interpretation_keys() {
    let input = DraftInput { interpretation: rich_interpretation(), ..sample_draft_input() };
    let c = draft_cache_input(&input);
    assert_eq!(text(at(&c, &["resolved_output_type"])), Some("pdf"));
    assert_eq!(text(at(&c, &["interpretation_title"])), Some("Materi Pecahan"));
    assert_eq!(text(at(&c, &["interpretation_summary"])), Some("Ringkas"));
    assert_eq!(text(at(&c, &["teacher_prompt"])), Some("Buatkan materi pecahan"));
    assert_eq!(text(at(&c, &["subject_context", "name"])), Some("Matematika"));
    assert_eq!(text(at(&c, &["subject_context", "slug"])), Some("matematika"));
    assert!(matches!(at(&c, &["sub_subject_context"]), Some(JsonValue::Null)));
}

#[test]
fn draft_user_payload_passes_the_blueprint() {
    let hint = DraftTaxonomyHint {
        schema_version: "v1".to_string(),
        source: "s".to_string(),
        subject_name: Some("Matematika".to_string()),
        subject_slug: None,
        sub_subject_name: None,
        sub_subject_slug: None,
        jenjang: Some("SD".to_string()),
        kelas: Some(5),
        semester: None,
        bab: None,
        description: None,
        structure: None,
        matched_signals: vec!["kelas".to_string()],
    };
    let input = DraftInput { interpretation: rich_interpretation(), taxonomy_hint: Some(hint), ..sample_draft_input() };
    let p = draft_user_payload(&input);
    assert_eq!(text(at(&p, &["output_type"])), Some("pdf"));
    assert_eq!(text(at(&p, &["title"])), Some("Materi Pecahan"));
    assert_eq!(text(at(&p, &["summary"])), Some("Ringkas"));
    assert_eq!(text(at(&p, &["language"])), Some("id"));
    assert_eq!(text(at(&p, &["teacher_intent_goal"])), Some("Mengajar pecahan"));
    assert!(matches!(at(&p, &["learning_objectives"]), Some(JsonValue::Array(v)) if v.len() == 1));
    match at(&p, &["sections"]) {
        Some(JsonValue::Array(v)) => {
            assert_eq!(v.len(), 2);
            assert_eq!(text(at(&v[0], &["title"])), Some("Pengantar"));
            assert_eq!(text(at(&v[0], &["purpose"])), Some("Membuka"));
            assert!(matches!(at(&v[0], &["estimated_length"]), Some(JsonValue::Null)));
            assert_eq!(text(at(&v[1], &["estimated_length"])), Some("short"));
            assert!(matches!(at(&v[1], &["bullets"]), Some(JsonValue::Null)));
        },
        other => panic!("expected sections, got {other:?}"),
    }
    assert_eq!(text(at(&p, &["constraints", "tone"])), Some("ramah"));
    assert!(matches!(at(&p, &["constraints", "must_include"]), Some(JsonValue::Null)));
    assert!(matches!(at(&p, &["constraints", "avoid"]), Some(JsonValue::Array(v)) if v.is_empty()));
    assert_eq!(text(at(&p, &["taxonomy_hint", "subject_name"])), Some("Matematika"));
    assert!(matches!(at(&p, &["taxonomy_hint", "kelas"]), Some(JsonValue::Number(n)) if n == "5"));
    assert!(matches!(at(&p, &["taxonomy_hint", "structure"]), Some(JsonValue::Null)));
    assert!(matches!(at(&p, &["taxonomy_hint", "matched_signals"]), Some(JsonValue::Array(v)) if v.len() == 1));

    let bare = draft_user_payload(&sample_draft_input());
    assert!(matches!(at(&bare, &["sections"]), Some(JsonValue::Array(v)) if v.is_empty()));
    assert!(matches!(at(&bare, &["taxonomy_hint"]), Some(JsonValue::Null)));
}

use klass_gateway::db::keys::{attach_first, find_first, pair_matches};
use klass_gateway::db::repositories::activity_logs::ActivityLogFilters;
use klass_gateway::db::repositories::contents::ContentFilters;
use klass_gateway::db::repositories::gallery::{attach_topics, GalleryFilters};
use klass_gateway::db::repositories::marketplace_tasks::{attach_contents, MarketplaceTaskFilters};
use klass_gateway::db::pagination::{PaginationMeta, PaginationParams, PaginationQuery};
use klass_gateway::db::repositories::assignments::{
    default_trackable_source_types, extract_topic_reference_from_item_id, make_recommendation_key,
    plan_tracked_assignments, resolve_source_reference, TrackableFeedItem, SOURCE_ADMIN_UPLOAD,
    SOURCE_AI_GENERATED, SOURCE_SYSTEM_TOPIC,
};
use klass_gateway::db::repositories::media_files::{InsertMediaFile, MediaFileFilters};
use klass_gateway::db::repositories::media_generations::{
    ancestor_walk_step, oldest_first, start_ancestor_walk, AncestorWalk, MAX_CHAIN_DEPTH,
    build_payload_set, CreateMediaGenerationPayload, UpdateClarificationStatePayload,
    UpdateGenerationJobStatusPayload, UpdateS3MetadataPayload, relation_sub_subject, relation_subject, AdminMediaGenerationFilters,
    RecommendedProjectSummary, SubSubjectSummary, SubSubjectWithSubject, SubjectSummary, attach_relations, GenerationRefs,
    UpdateGenerationErrorPayload, UpdatePayloadsPayload,
};
use klass_gateway::db::repositories::personal_access_tokens::InsertToken;
use klass_gateway::db::repositories::recommended_projects::{
    create_defaults, dynamic_update_set, listing_tail, listing_where_clause,
    CreateRecommendedProject, RecommendedProjectFilters, UpdateRecommendedProject,
};
use klass_gateway::db::repositories::student_progress::{
    merged_progress, CreateStudentProgressPayload, StudentProgressFilters, StudentProgressValues,
    UpdateStudentProgressPayload,
};
use klass_gateway::db::repositories::system_settings::{
    coerce_setting_value, parse_bool_setting, setting_or_default, BulkUpdateItem,
};
use klass_gateway::db::repositories::topics::{group_children, TopicFilters};
use klass_gateway::db::repositories::users::InsertUser;
use klass_gateway::db::seed::{
    compute_sub_subject_display_order, display_order_in_range, extract_subjects_and_sub_subjects,
    plan_sub_subject_inserts, return_true, slugify, subject_display_order, SeedSubSubject,
    SubjectJsonEntry,
};
use klass_gateway::db::sql::{
    contains_pattern, limit_offset_clause, numbered_set_parts, optional_contains_pattern, search_pattern,
};
use klass_gateway::governance::time::Timestamp;
use klass_gateway::server::cors_allowed_origins;
use klass_gateway::json::JsonValue;

fn parse(page: Option<i64>, per_page: Option<i64>) -> PaginationQuery {
    PaginationQuery::parse(PaginationParams { page, per_page })
}

#[test]
fn test_default_pagination() {
    let pq = parse(None, None);
    assert_eq!(pq.page, 1);
    assert_eq!(pq.per_page, 15);
}

#[test]
fn test_custom_pagination() {
    let pq = parse(Some(3), Some(20));
    assert_eq!(pq.page, 3);
    assert_eq!(pq.per_page, 20);
}

#[test]
fn test_per_page_capped_at_max() {
    let pq = parse(Some(1), Some(100));
    assert_eq!(pq.per_page, 50);
}

#[test]
fn test_page_minimum_is_one() {
    let pq = parse(Some(0), Some(10));
    assert_eq!(pq.page, 1);
}

#[test]
fn test_negative_page_becomes_one() {
    let pq = parse(Some(-5), None);
    assert_eq!(pq.page, 1);
}

#[test]
fn test_zero_per_page_becomes_one() {
    let pq = parse(None, Some(0));
    assert_eq!(pq.per_page, 1);
}

#[test]
fn test_negative_per_page_becomes_one() {
    let pq = parse(None, Some(-10));
    assert_eq!(pq.per_page, 1);
}

#[test]
fn test_offset_calculation() {
    let pq = PaginationQuery { page: 3, per_page: 15 };
    assert_eq!(pq.offset(), 30);
}

#[test]
fn test_offset_first_page() {
    let pq = PaginationQuery { page: 1, per_page: 15 };
    assert_eq!(pq.offset(), 0);
}

#[test]
fn test_limit_equals_per_page() {
    let pq = PaginationQuery { page: 1, per_page: 25 };
    assert_eq!(pq.limit(), 25);
}

#[test]
fn test_meta_basic() {
    let meta = PaginationMeta::new(1, 15, 100);
    assert_eq!(meta.current_page, 1);
    assert_eq!(meta.last_page, 7);
    assert_eq!(meta.per_page, 15);
    assert_eq!(meta.total, 100);
}

#[test]
fn test_meta_exact_division() {
    let meta = PaginationMeta::new(1, 15, 30);
    assert_eq!(meta.last_page, 2);
}

#[test]
fn test_meta_zero_total() {
    let meta = PaginationMeta::new(1, 15, 0);
    assert_eq!(meta.last_page, 1);
    assert_eq!(meta.total, 0);
}

#[test]
fn test_meta_single_item() {
    let meta = PaginationMeta::new(1, 15, 1);
    assert_eq!(meta.last_page, 1);
}

#[test]
fn test_meta_from_query() {
    let query = PaginationQuery { page: 2, per_page: 10 };
    let meta = PaginationMeta::from_query(&query, 42);
    assert_eq!(meta.current_page, 2);
    assert_eq!(meta.last_page, 5);
    assert_eq!(meta.per_page, 10);
    assert_eq!(meta.total, 42);
}

#[test]
fn test_meta_last_page_with_remainder() {
    let meta = PaginationMeta::new(1, 15, 31);
    assert_eq!(meta.last_page, 3);
}

#[test]
fn pages_up_to_the_last_hold_rows_and_later_ones_do_not() {
    let total = 31;
    let meta = PaginationMeta::new(1, 15, total);
    for page in 1..=5 {
        let q = PaginationQuery { page, per_page: 15 };
        assert_eq!(q.offset() < total, page <= meta.last_page);
    }
}

#[test]
fn parsed_queries_stay_in_bounds() {
    for page in [None, Some(i64::MIN), Some(-1), Some(0), Some(1), Some(7)] {
        for per_page in [None, Some(i64::MIN), Some(0), Some(1), Some(49), Some(50), Some(51), Some(i64::MAX)] {
            let q = parse(page, per_page);
            assert!(q.page >= 1);
            assert!(1 <= q.per_page && q.per_page <= 50);
        }
    }
}

fn feed_item(id: &str, source_type: &str, source_reference: Option<&str>) -> TrackableFeedItem {
    TrackableFeedItem {
        id: id.to_string(),
        source_type: source_type.to_string(),
        source_reference: source_reference.map(|s| s.to_string()),
        source_payload_topic_id: None,
        source_payload_source_reference: None,
        subject_id: None,
        sub_subject_id: None,
    }
}

#[test]
fn test_make_recommendation_key() {
    assert_eq!(make_recommendation_key("system_topic", "topic-abc"), "system_topic:topic-abc");
}

#[test]
fn test_extract_topic_reference_from_item_id() {
    assert_eq!(extract_topic_reference_from_item_id("system_topic_topic-123"), Some("topic-123".to_string()));
    assert_eq!(extract_topic_reference_from_item_id("admin_curated_1"), None);
    assert_eq!(extract_topic_reference_from_item_id("system_topic_"), None);
}

#[test]
fn test_resolve_source_reference_uses_source_reference_field() {
    let item = feed_item("system_topic_topic-abc", SOURCE_SYSTEM_TOPIC, Some("topic-abc"));
    assert_eq!(resolve_source_reference(&item), "topic-abc");
}

#[test]
fn test_resolve_source_reference_falls_back_to_topic_id() {
    let mut item = feed_item("system_topic_topic-abc", SOURCE_SYSTEM_TOPIC, None);
    item.source_payload_topic_id = Some("topic-xyz".to_string());
    assert_eq!(resolve_source_reference(&item), "topic-xyz");
}

#[test]
fn test_resolve_source_reference_falls_back_to_item_id_extraction() {
    let item = feed_item("system_topic_topic-abc", SOURCE_SYSTEM_TOPIC, None);
    assert_eq!(resolve_source_reference(&item), "topic-abc");
}

#[test]
fn test_resolve_source_reference_falls_back_to_item_id() {
    let item = feed_item("proj-42", SOURCE_AI_GENERATED, None);
    assert_eq!(resolve_source_reference(&item), "proj-42");
}

#[test]
fn test_default_trackable_source_types() {
    let types = default_trackable_source_types();
    assert!(types.contains(&SOURCE_SYSTEM_TOPIC.to_string()));
    assert!(types.contains(&SOURCE_AI_GENERATED.to_string()));
    assert!(!types.contains(&SOURCE_ADMIN_UPLOAD.to_string()));
}

#[test]
fn tracked_assignments_skip_untracked_sources_and_repeated_keys() {
    let items = vec![
        feed_item("system_topic_t1", SOURCE_SYSTEM_TOPIC, None),
        feed_item("admin_1", SOURCE_ADMIN_UPLOAD, None),
        feed_item("other", SOURCE_SYSTEM_TOPIC, Some("t1")),
        feed_item("proj-9", SOURCE_AI_GENERATED, None),
    ];
    let rows = plan_tracked_assignments(&items, &default_trackable_source_types());
    let keys: Vec<&str> = rows.iter().map(|r| r.recommendation_key.as_str()).collect();
    assert_eq!(keys, vec!["system_topic:t1", "ai_generated:proj-9"]);
    assert_eq!(rows[0].recommendation_item_id, "system_topic_t1");
    assert_eq!(rows[1].source_reference, "proj-9");
}

#[test]
fn test_media_file_filters_default() {
    let filters = MediaFileFilters::default();
    assert!(filters.uploader_id.is_none());
    assert!(filters.category.is_none());
    assert!(filters.disk.is_none());
    assert!(filters.mime_type.is_none());
    assert!(filters.search.is_none());
}

#[test]
fn test_media_file_filters_custom() {
    let filters = MediaFileFilters {
        uploader_id: Some(42),
        category: Some("avatars".to_string()),
        disk: Some("r2".to_string()),
        mime_type: Some("image/png".to_string()),
        search: Some("profile".to_string()),
    };
    assert_eq!(filters.uploader_id, Some(42));
    assert_eq!(filters.category.as_deref(), Some("avatars"));
    assert_eq!(filters.disk.as_deref(), Some("r2"));
    assert_eq!(filters.mime_type.as_deref(), Some("image/png"));
    assert_eq!(filters.search.as_deref(), Some("profile"));
}

#[test]
fn test_insert_media_file_data() {
    let data = InsertMediaFile {
        uploader_id: Some(1),
        file_path: "avatars/user_1.png",
        file_name: "profile.png",
        mime_type: Some("image/png"),
        size: Some(2048),
        disk: "r2",
        category: Some("avatars"),
    };
    assert_eq!(data.file_path, "avatars/user_1.png");
    assert_eq!(data.file_name, "profile.png");
    assert_eq!(data.mime_type, Some("image/png"));
    assert_eq!(data.size, Some(2048));
    assert_eq!(data.disk, "r2");
    assert_eq!(data.category, Some("avatars"));
}

#[test]
fn test_insert_media_file_data_with_nulls() {
    let data = InsertMediaFile {
        uploader_id: None,
        file_path: "materials/lesson_1.pdf",
        file_name: "lesson_1.pdf",
        mime_type: None,
        size: None,
        disk: "r2",
        category: None,
    };
    assert!(data.uploader_id.is_none());
    assert!(data.mime_type.is_none());
    assert!(data.size.is_none());
    assert!(data.category.is_none());
}

#[test]
fn test_search_pattern_empty_string_treated_as_none() {
    let filters = MediaFileFilters { search: Some(String::new()), ..Default::default() };
    assert!(search_pattern(&filters.search).is_none());
}

#[test]
fn test_search_pattern_non_empty() {
    let filters = MediaFileFilters { search: Some("math".to_string()), ..Default::default() };
    assert_eq!(search_pattern(&filters.search).as_deref(), Some("%math%"));
}

#[test]
fn search_pattern_of_absent_search_is_none() {
    assert!(search_pattern(&None).is_none());
    assert_eq!(contains_pattern(""), "%%");
}

#[test]
fn test_update_payloads_payload_default() {
    let payload = UpdatePayloadsPayload::default();
    assert!(payload.resolved_output_type.is_none());
    assert!(payload.llm_provider.is_none());
}

#[test]
fn test_update_payloads_with_values() {
    let payload = UpdatePayloadsPayload {
        interpretation_payload: Some(JsonValue::Object(vec![(
            "key".to_string(),
            JsonValue::Str("value".to_string()),
        )])),
        resolved_output_type: Some("pdf".to_string()),
        llm_provider: Some("openrouter".to_string()),
        ..Default::default()
    };
    assert!(payload.interpretation_payload.is_some());
    assert_eq!(payload.resolved_output_type.as_deref(), Some("pdf"));
    assert_eq!(payload.llm_provider.as_deref(), Some("openrouter"));
    assert!(payload.delivery_payload.is_none());
}

#[test]
fn test_subject_summary_struct() {
    let subject = SubjectSummary { id: 1, name: "Matematika".to_string(), slug: "matematika".to_string() };
    assert_eq!(subject.name, "Matematika");
}

#[test]
fn test_sub_subject_with_subject_struct() {
    let sub_subject = SubSubjectSummary { id: 10, subject_id: 1, name: "Pecahan".to_string(), slug: "pecahan".to_string() };
    let subject = SubjectSummary { id: 1, name: "Matematika".to_string(), slug: "matematika".to_string() };
    let sws = SubSubjectWithSubject { sub_subject, subject };
    assert_eq!(sws.sub_subject.name, "Pecahan");
    assert_eq!(sws.subject.name, "Matematika");
}

#[test]
fn test_recommended_project_summary_struct() {
    let project = RecommendedProjectSummary {
        id: 1,
        title: "Project Matematika".to_string(),
        thumbnail_url: None,
        project_file_url: None,
        source_type: "ai_generated".to_string(),
        is_active: true,
    };
    assert_eq!(project.source_type, "ai_generated");
}

#[test]
fn test_build_payload_set_empty() {
    let payload = UpdatePayloadsPayload::default();
    let parts = build_payload_set(&payload);
    assert!(parts.is_empty());
}

#[test]
fn test_build_payload_set_some_fields() {
    let payload = UpdatePayloadsPayload {
        resolved_output_type: Some("pdf".to_string()),
        llm_provider: Some("openrouter".to_string()),
        interpretation_payload: Some(JsonValue::Object(vec![(
            "key".to_string(),
            JsonValue::Str("val".to_string()),
        )])),
        ..Default::default()
    };
    let parts = build_payload_set(&payload);
    assert_eq!(parts.len(), 3);
    assert!(parts.contains(&"interpretation_payload = $1".to_string()));
}

#[test]
fn payload_set_numbers_columns_in_order() {
    let payload = UpdatePayloadsPayload {
        error_message: Some("boom".to_string()),
        file_url: Some("https://x/y.pdf".to_string()),
        llm_model: Some("m".to_string()),
        ..Default::default()
    };
    assert_eq!(
        build_payload_set(&payload),
        vec!["llm_model = $1".to_string(), "file_url = $2".to_string(), "error_message = $3".to_string()]
    );
}

#[test]
fn generation_error_and_admin_filters_hold_their_values() {
    let payload = UpdateGenerationErrorPayload {
        generation_error_code: "RENDER_FAILED".to_string(),
        generation_error_message: "timeout".to_string(),
    };
    assert_eq!(payload.generation_error_code, "RENDER_FAILED");
    let filters = AdminMediaGenerationFilters::default();
    assert!(filters.status.is_none() && filters.search.is_none());
}

#[test]
fn relations_look_up_subjects_and_fill_a_missing_parent() {
    let subjects = vec![SubjectSummary { id: 1, name: "Matematika".to_string(), slug: "matematika".to_string() }];
    let subs = vec![
        SubSubjectSummary { id: 10, subject_id: 1, name: "Pecahan".to_string(), slug: "pecahan".to_string() },
        SubSubjectSummary { id: 11, subject_id: 2, name: "Gaya".to_string(), slug: "gaya".to_string() },
    ];
    assert_eq!(relation_subject(Some(1), &subjects).unwrap().name, "Matematika");
    assert!(relation_subject(Some(2), &subjects).is_none());
    assert!(relation_subject(None, &subjects).is_none());
    let with = relation_sub_subject(Some(10), &subs, &subjects).unwrap();
    assert_eq!(with.subject.slug, "matematika");
    let orphan = relation_sub_subject(Some(11), &subs, &subjects).unwrap();
    assert_eq!(orphan.subject.id, 0);
    assert_eq!(orphan.subject.name, "");
    assert!(relation_sub_subject(Some(12), &subs, &subjects).is_none());
}

#[test]
fn test_source_type_constants() {
    assert_eq!(klass_gateway::db::repositories::recommended_projects::SOURCE_ADMIN_UPLOAD, "admin_upload");
    assert_eq!(klass_gateway::db::repositories::recommended_projects::SOURCE_SYSTEM_TOPIC, "system_topic");
    assert_eq!(klass_gateway::db::repositories::recommended_projects::SOURCE_AI_GENERATED, "ai_generated");
}

fn empty_update() -> UpdateRecommendedProject {
    UpdateRecommendedProject {
        title: None,
        description: None,
        thumbnail_url: None,
        project_file_url: None,
        ratio: None,
        project_type: None,
        tags: None,
        modules: None,
        source_type: None,
        source_reference: None,
        source_payload: None,
        display_priority: None,
        is_active: None,
        starts_at: None,
        ends_at: None,
        updated_by: None,
    }
}

#[test]
fn recommended_projects_test_create_payload_defaults() {
    let payload = CreateRecommendedProject {
        title: "Test Project".to_string(),
        description: None,
        thumbnail_url: None,
        project_file_url: None,
        ratio: None,
        project_type: None,
        tags: None,
        modules: None,
        source_type: SOURCE_ADMIN_UPLOAD.to_string(),
        source_reference: None,
        source_payload: None,
        display_priority: None,
        is_active: None,
        starts_at: None,
        ends_at: None,
        created_by: None,
    };
    assert_eq!(payload.title, "Test Project");
    assert_eq!(payload.source_type, SOURCE_ADMIN_UPLOAD);
    assert_eq!(create_defaults(&payload), ("16:9".to_string(), 0, true));
}

#[test]
fn test_update_payload_empty() {
    let payload = empty_update();
    assert!(payload.title.is_none());
    assert!(dynamic_update_set(&payload).is_empty());
}

#[test]
fn update_set_numbers_given_fields() {
    let mut payload = empty_update();
    payload.description = Some("d".to_string());
    payload.is_active = Some(false);
    payload.updated_by = Some(7);
    assert_eq!(
        dynamic_update_set(&payload),
        vec!["description = $1".to_string(), "is_active = $2".to_string(), "updated_by = $3".to_string()]
    );
}

#[test]
fn test_visible_query_conditions() {
    let moment = chrono::DateTime::parse_from_rfc3339("2026-04-03T12:00:00Z")
        .unwrap()
        .with_timezone(&chrono::Utc);
    assert_eq!(moment.to_rfc3339(), "2026-04-03T12:00:00+00:00");
}

#[test]
fn test_find_all_empty_filters_no_panic() {
    let filters = RecommendedProjectFilters::default();
    assert!(filters.source_type.is_none());
    assert!(filters.is_active.is_none());
    assert!(filters.search.is_none());
    assert!(filters.limit.is_none());
    assert!(filters.offset.is_none());
    assert_eq!(listing_where_clause(&filters), "");
    assert_eq!(listing_tail(&filters), "");
}

#[test]
fn listing_clauses_follow_the_given_filters() {
    let filters = RecommendedProjectFilters {
        source_type: None,
        is_active: Some(true),
        search: Some("mat".to_string()),
        limit: Some(10),
        offset: Some(-20),
    };
    assert_eq!(listing_where_clause(&filters), "WHERE is_active = $1 AND title ILIKE $2");
    assert_eq!(listing_tail(&filters), " LIMIT 10 OFFSET -20");
    assert_eq!(limit_offset_clause(None, Some(i64::MIN)), " OFFSET -9223372036854775808");
}

#[test]
fn numbered_parts_skip_absent_columns() {
    let cols = vec![("a", false), ("b", true), ("c", false), ("d", true)];
    assert_eq!(numbered_set_parts(&cols), vec!["b = $1".to_string(), "d = $2".to_string()]);
}

#[test]
fn test_student_progress_filters_default() {
    let filters = StudentProgressFilters::default();
    assert!(filters.search.is_none());
}

#[test]
fn test_student_progress_filters_custom() {
    let filters = StudentProgressFilters { search: Some("john".to_string()) };
    assert_eq!(filters.search.as_deref(), Some("john"));
}

#[test]
fn test_create_payload_null_completion_date() {
    let payload = CreateStudentProgressPayload { student_name: "Ani".to_string(), score: 90, completion_date: None };
    assert!(payload.completion_date.is_none());
}

#[test]
fn test_update_payload_default() {
    let payload = UpdateStudentProgressPayload::default();
    assert!(payload.student_name.is_none());
    assert!(payload.score.is_none());
    assert!(payload.completion_date.is_none());
}

#[test]
fn test_update_payload_partial() {
    let payload = UpdateStudentProgressPayload {
        student_name: Some("Updated Name".to_string()),
        score: None,
        completion_date: Some(None),
    };
    assert_eq!(payload.student_name.as_deref(), Some("Updated Name"));
    assert!(payload.score.is_none());
    assert_eq!(payload.completion_date, Some(None));
}

#[test]
fn progress_update_merges_with_stored_values() {
    let current = StudentProgressValues {
        student_name: "Budi".to_string(),
        score: None,
        completion_date: Some(Timestamp { secs: 100, nanos: 0 }),
    };
    let cleared = UpdateStudentProgressPayload { student_name: None, score: None, completion_date: Some(None) };
    assert_eq!(merged_progress(&current, &cleared), ("Budi".to_string(), 0, None));
    let renamed = UpdateStudentProgressPayload { student_name: Some("Ani".to_string()), score: Some(77), completion_date: None };
    assert_eq!(
        merged_progress(&current, &renamed),
        ("Ani".to_string(), 77, Some(Timestamp { secs: 100, nanos: 0 }))
    );
}

#[test]
fn test_coerce_boolean_true_variants() {
    for truthy in &["true", "True", "TRUE", "1", "yes", "Yes", "YES", "on", "On", "ON"] {
        assert_eq!(coerce_setting_value(truthy, "boolean"), "true", "expected 'true' for input '{truthy}'");
    }
}

#[test]
fn test_coerce_boolean_false_variants() {
    for falsy in &["false", "False", "FALSE", "0", "no", "No", "NO", "off", "Off", "OFF"] {
        assert_eq!(coerce_setting_value(falsy, "boolean"), "false", "expected 'false' for input '{falsy}'");
    }
}

#[test]
fn test_coerce_boolean_unknown_falls_to_false() {
    assert_eq!(coerce_setting_value("banana", "boolean"), "false");
    assert_eq!(coerce_setting_value("", "boolean"), "false");
    assert_eq!(coerce_setting_value("  ", "boolean"), "false");
}

#[test]
fn test_coerce_boolean_whitespace_trimmed() {
    assert_eq!(coerce_setting_value("  true  ", "boolean"), "true");
    assert_eq!(coerce_setting_value("  FALSE  ", "boolean"), "false");
}

#[test]
fn test_coerce_non_boolean_passthrough() {
    assert_eq!(coerce_setting_value("hello", "text"), "hello");
    assert_eq!(coerce_setting_value("42", "number"), "42");
    assert_eq!(coerce_setting_value("{\"a\":1}", "json"), "{\"a\":1}");
    assert_eq!(coerce_setting_value("", "text"), "");
}

#[test]
fn test_parse_bool_setting_true() {
    assert_eq!(parse_bool_setting(Some("true"), "boolean"), Some(true));
    assert_eq!(parse_bool_setting(Some("1"), "boolean"), Some(true));
    assert_eq!(parse_bool_setting(Some("yes"), "boolean"), Some(true));
    assert_eq!(parse_bool_setting(Some("on"), "boolean"), Some(true));
}

#[test]
fn test_parse_bool_setting_false() {
    assert_eq!(parse_bool_setting(Some("false"), "boolean"), Some(false));
    assert_eq!(parse_bool_setting(Some("0"), "boolean"), Some(false));
    assert_eq!(parse_bool_setting(Some("no"), "boolean"), Some(false));
    assert_eq!(parse_bool_setting(Some("off"), "boolean"), Some(false));
}

#[test]
fn test_parse_bool_setting_null_value() {
    assert_eq!(parse_bool_setting(None, "boolean"), None);
}

#[test]
fn test_parse_bool_setting_non_boolean_type() {
    assert_eq!(parse_bool_setting(Some("true"), "text"), None);
    assert_eq!(parse_bool_setting(Some("42"), "number"), None);
    assert_eq!(parse_bool_setting(None, "text"), None);
}

#[test]
fn test_parse_bool_setting_unrecognised_falls_to_false() {
    assert_eq!(parse_bool_setting(Some("banana"), "boolean"), Some(false));
    assert_eq!(parse_bool_setting(Some("maybe"), "boolean"), Some(false));
}

#[test]
fn coerced_booleans_parse_back() {
    for raw in ["TRUE", " yes ", "on", "0", "nope", ""] {
        let stored = coerce_setting_value(raw, "boolean");
        assert_eq!(parse_bool_setting(Some(&stored), "boolean"), parse_bool_setting(Some(raw), "boolean"));
        assert_eq!(coerce_setting_value(&stored, "boolean"), stored);
    }
}

#[test]
fn test_bulk_update_item_creation() {
    let item = BulkUpdateItem { key: "site_name".to_string(), value: Some("Klass 2.0".to_string()), type_hint: None };
    assert_eq!(item.key, "site_name");
    assert_eq!(item.value.as_deref(), Some("Klass 2.0"));
    assert!(item.type_hint.is_none());
}

#[test]
fn test_bulk_update_item_with_type_hint() {
    let item = BulkUpdateItem {
        key: "feature_x".to_string(),
        value: Some("true".to_string()),
        type_hint: Some("boolean".to_string()),
    };
    assert_eq!(item.type_hint.as_deref(), Some("boolean"));
}

#[test]
fn test_bulk_update_item_null_value() {
    let item = BulkUpdateItem { key: "old_setting".to_string(), value: None, type_hint: None };
    assert!(item.value.is_none());
}

#[test]
fn test_bulk_update_empty_is_noop() {
    let updates: Vec<BulkUpdateItem> = vec![];
    assert!(updates.is_empty());
}

#[test]
fn test_get_with_fallback_default() {
    let result = setting_or_default(None, Some("fallback"));
    assert_eq!(result, Some("fallback".to_string()));
}

#[test]
fn test_get_without_default() {
    let result: Option<String> = setting_or_default(None, None);
    assert!(result.is_none());
}

#[test]
fn stored_setting_wins_over_default() {
    assert_eq!(setting_or_default(Some(Some("v".to_string())), Some("d")), Some("v".to_string()));
    assert_eq!(setting_or_default(Some(None), Some("d")), None);
}

#[test]
fn test_topic_filters_default() {
    let filters = TopicFilters::default();
    assert!(filters.search.is_none());
    assert!(filters.teacher_id.is_none());
    assert!(filters.subject_id.is_none());
    assert!(filters.sub_subject_id.is_none());
    assert!(filters.is_published.is_none());
}

#[test]
fn test_topic_filters_custom() {
    let filters = TopicFilters {
        search: Some("math".to_string()),
        teacher_id: Some("123".to_string()),
        subject_id: Some(1),
        sub_subject_id: Some(2),
        is_published: Some(true),
    };
    assert_eq!(filters.search.as_deref(), Some("math"));
    assert_eq!(filters.teacher_id.as_deref(), Some("123"));
    assert_eq!(filters.subject_id, Some(1));
    assert_eq!(filters.sub_subject_id, Some(2));
    assert_eq!(filters.is_published, Some(true));
}

#[test]
fn contents_get_their_own_tasks_in_order() {
    let groups = group_children(&vec![7, 9, 11], &vec![9, 7, 9, 3]);
    assert_eq!(groups, vec![vec![1], vec![0, 2], vec![]]);
}

#[test]
fn insert_records_hold_their_values() {
    let user = InsertUser { name: "Ani", email: "ani@example.com", password: "hash", role: "teacher" };
    assert_eq!(user.role, "teacher");
    let token = InsertToken { tokenable_type: "user", tokenable_id: 3, name: "cli", token: "h", abilities: None };
    assert_eq!(token.tokenable_id, 3);
    assert!(token.abilities.is_none());
}

fn entry(subject: Option<&str>, slug: Option<&str>, sub: Option<&str>, sub_slug: Option<&str>) -> SubjectJsonEntry {
    SubjectJsonEntry {
        jenjang: Some("SD".to_string()),
        subject: subject.map(|s| s.to_string()),
        subject_slug: slug.map(|s| s.to_string()),
        kelas: Some(1),
        semester: Some(1),
        bab: Some(1),
        sub_subject: sub.map(|s| s.to_string()),
        sub_subject_slug: sub_slug.map(|s| s.to_string()),
        deskripsi_singkat: None,
        description: None,
        is_active: return_true(),
    }
}

#[test]
fn test_extract_subjects_empty() {
    let (subjects, sub_subjects) = extract_subjects_and_sub_subjects(&[]);
    assert!(subjects.is_empty());
    assert!(sub_subjects.is_empty());
}

#[test]
fn test_extract_subjects_single_entry() {
    let entries = vec![SubjectJsonEntry {
        jenjang: Some("SD".to_string()),
        subject: Some("Mathematics".to_string()),
        subject_slug: Some("mathematics-sd".to_string()),
        kelas: Some(1),
        semester: Some(1),
        bab: Some(1),
        sub_subject: Some("Addition".to_string()),
        sub_subject_slug: Some("addition".to_string()),
        deskripsi_singkat: Some("Learn addition".to_string()),
        description: None,
        is_active: true,
    }];
    let (subjects, sub_subjects) = extract_subjects_and_sub_subjects(&entries);
    assert_eq!(subjects.len(), 1);
    assert_eq!(subjects[0].name, "Mathematics");
    assert_eq!(subjects[0].slug, "mathematics-sd");
    assert_eq!(sub_subjects.len(), 1);
    assert_eq!(sub_subjects[0].name, "Addition");
    assert_eq!(sub_subjects[0].subject_slug, "mathematics-sd");
}

#[test]
fn test_extract_subjects_deduplicates() {
    let mut second = entry(Some("Math"), Some("math-sd"), Some("Subtraction"), Some("subtraction"));
    second.semester = Some(2);
    second.bab = Some(2);
    let entries = vec![entry(Some("Math"), Some("math-sd"), Some("Addition"), Some("addition")), second];
    let (subjects, sub_subjects) = extract_subjects_and_sub_subjects(&entries);
    assert_eq!(subjects.len(), 1, "should deduplicate subjects");
    assert_eq!(sub_subjects.len(), 2, "should keep both sub_subjects");
}

#[test]
fn test_extract_skips_invalid_entries() {
    let entries = vec![
        SubjectJsonEntry {
            jenjang: None,
            subject: None,
            subject_slug: None,
            kelas: None,
            semester: None,
            bab: None,
            sub_subject: Some("Only sub".to_string()),
            sub_subject_slug: None,
            deskripsi_singkat: None,
            description: None,
            is_active: true,
        },
        SubjectJsonEntry {
            jenjang: None,
            subject: Some("Subject".to_string()),
            subject_slug: None,
            kelas: None,
            semester: None,
            bab: None,
            sub_subject: None,
            sub_subject_slug: None,
            deskripsi_singkat: None,
            description: None,
            is_active: true,
        },
    ];
    let (subjects, sub_subjects) = extract_subjects_and_sub_subjects(&entries);
    assert!(subjects.is_empty(), "no valid subjects");
    assert!(sub_subjects.is_empty(), "no valid sub_subjects");
}

#[test]
fn test_compute_display_order() {
    let sub = SeedSubSubject {
        subject_slug: "math".to_string(),
        name: "Test".to_string(),
        slug: "test".to_string(),
        description: "".to_string(),
        kelas: 5,
        semester: 2,
        bab: 3,
    };
    assert_eq!(compute_sub_subject_display_order(&sub), 50203);
}

#[test]
fn test_subject_slug_uniqueness() {
    let entries = vec![
        entry(Some("IPA"), None, Some("Gaya"), None),
        entry(Some(" Bahasa Indonesia "), None, Some("Puisi"), None),
        entry(Some("IPA"), Some("ipa"), Some("Energi"), None),
        entry(Some("Matematika"), Some("matematika"), Some("Pecahan"), None),
    ];
    let (subjects, subs) = extract_subjects_and_sub_subjects(&entries);
    let mut slugs = std::collections::HashSet::new();
    for s in &subjects {
        assert!(slugs.insert(s.slug.clone()), "duplicate subject slug: {}", s.slug);
    }
    let ordered: Vec<&str> = subjects.iter().map(|s| s.slug.as_str()).collect();
    assert_eq!(ordered, vec!["bahasa-indonesia", "ipa", "matematika"]);
    assert_eq!(subjects[0].description, "Bahasa Indonesia \u{2014} Kurikulum Merdeka SD");
    assert_eq!(subs.len(), 4);
    for sub in &subs {
        assert!(subjects.iter().any(|s| s.slug == sub.subject_slug));
    }
}

#[test]
fn slugs_collapse_separators_and_lowercase() {
    assert_eq!(slugify("  Ilmu Pengetahuan -- Alam!! "), "ilmu-pengetahuan-alam");
    assert_eq!(slugify("Énergi & Gaya"), "nergi-gaya");
    assert_eq!(slugify("---"), "");
    assert_eq!(slugify("Kelas_5"), "kelas-5");
}

fn seed_sub(subject_slug: &str, slug: &str, kelas: i64, semester: i64, bab: i64) -> SeedSubSubject {
    SeedSubSubject {
        subject_slug: subject_slug.to_string(),
        name: slug.to_uppercase(),
        slug: slug.to_string(),
        description: format!("about {slug}"),
        kelas,
        semester,
        bab,
    }
}

#[test]
fn seed_plan_sub_subject_inserts_skips_unstored_subjects() {
    let subs = vec![
        seed_sub("ipa", "gaya", 5, 1, 2),
        seed_sub("ips", "peta", 4, 2, 1),
        seed_sub("ipa", "energi", 6, 2, 10),
    ];
    let ids = vec![("ipa".to_string(), 11i64), ("matematika".to_string(), 12i64)];
    let rows = plan_sub_subject_inserts(&subs, &ids);
    assert_eq!(rows.len(), 2);
    assert_eq!(
        (rows[0].subject_id, rows[0].slug.as_str(), rows[0].name.as_str(), rows[0].display_order),
        (11, "gaya", "GAYA", 50102)
    );
    assert_eq!(rows[0].description, "about gaya");
    assert_eq!((rows[1].subject_id, rows[1].slug.as_str(), rows[1].display_order), (11, "energi", 60210));
}

#[test]
fn seed_subject_display_order_counts_from_one() {
    assert_eq!(subject_display_order(0), 1);
    assert_eq!(subject_display_order(41), 42);
}

#[test]
fn seed_display_order_range_check() {
    assert!(display_order_in_range(12, 2, 99));
    assert!(display_order_in_range(-3, 0, 0));
    assert!(!display_order_in_range(300_000, 0, 0));
    assert!(!display_order_in_range(0, 30_000_000, 0));
    assert!(!display_order_in_range(214_748, 36, 48));
    assert!(display_order_in_range(214_748, 36, 47));
}

fn instant(t: chrono::DateTime<chrono::Utc>) -> Timestamp {
    Timestamp { secs: t.timestamp(), nanos: t.timestamp_subsec_nanos() }
}

#[test]
fn test_activity_log_filters_default() {
    let filters = ActivityLogFilters::default();
    assert!(filters.action.is_none());
    assert!(filters.actor_id.is_none());
    assert!(filters.subject_type.is_none());
    assert!(filters.date_from.is_none());
    assert!(filters.date_to.is_none());
    assert!(filters.search.is_none());
}

#[test]
fn test_activity_log_filters_custom() {
    let now = instant(chrono::Utc::now());
    let filters = ActivityLogFilters {
        action: Some("create_topic".to_string()),
        actor_id: Some(42),
        subject_type: Some("topic".to_string()),
        date_from: Some(now),
        date_to: Some(now),
        search: Some("math".to_string()),
    };

    assert_eq!(filters.action.as_deref(), Some("create_topic"));
    assert_eq!(filters.actor_id, Some(42));
    assert_eq!(filters.subject_type.as_deref(), Some("topic"));
    assert_eq!(filters.search.as_deref(), Some("math"));
}

#[test]
fn test_filter_with_search_empty_string() {
    let filters = ActivityLogFilters {
        search: Some(String::new()),
        ..Default::default()
    };

    // Empty search should be treated as None (no filter)
    let pattern = search_pattern(&filters.search);
    assert!(pattern.is_none());
}

#[test]
fn test_filter_with_search_non_empty() {
    let filters = ActivityLogFilters {
        search: Some("test".to_string()),
        ..Default::default()
    };

    let pattern = search_pattern(&filters.search);
    assert_eq!(pattern.as_deref(), Some("%test%"));
}

#[test]
fn test_date_range_filters() {
    let from = instant(chrono::DateTime::from_timestamp(1720000000, 0).unwrap());
    let to = instant(chrono::DateTime::from_timestamp(1720100000, 0).unwrap());

    let filters = ActivityLogFilters {
        date_from: Some(from),
        date_to: Some(to),
        ..Default::default()
    };

    assert!(filters.date_from.unwrap() < filters.date_to.unwrap());
}

#[test]
fn test_content_filters_default() {
    let filters = ContentFilters::default();
    assert!(filters.search.is_none());
    assert!(filters.topic_id.is_none());
    assert!(filters.content_type.is_none());
}

#[test]
fn test_content_filters_custom() {
    let topic_id = uuid::Uuid::new_v4().as_u128();
    let filters = ContentFilters {
        search: Some("module".to_string()),
        topic_id: Some(topic_id),
        content_type: Some("quiz".to_string()),
    };
    assert_eq!(filters.search.as_deref(), Some("module"));
    assert_eq!(filters.topic_id, Some(topic_id));
    assert_eq!(filters.content_type.as_deref(), Some("quiz"));
}

#[test]
fn test_gallery_filters_default() {
    let filters = GalleryFilters::default();
    assert!(filters.search.is_none());
    assert!(filters.content_type.is_none());
    assert!(filters.topic_id.is_none());
}

#[test]
fn test_gallery_filters_custom() {
    let topic_id = uuid::Uuid::new_v4().as_u128();
    let filters = GalleryFilters {
        search: Some("math".to_string()),
        content_type: Some("module".to_string()),
        topic_id: Some(topic_id),
    };
    assert_eq!(filters.search.as_deref(), Some("math"));
    assert_eq!(filters.content_type.as_deref(), Some("module"));
    assert_eq!(filters.topic_id, Some(topic_id));
}

#[test]
fn test_marketplace_task_filters_default() {
    let filters = MarketplaceTaskFilters::default();
    assert!(filters.search.is_none());
    assert!(filters.status.is_none());
    assert!(filters.content_id.is_none());
}

#[test]
fn test_marketplace_task_filters_custom() {
    let content_id = uuid::Uuid::new_v4().as_u128();
    let filters = MarketplaceTaskFilters {
        search: Some("math".to_string()),
        status: Some("open".to_string()),
        content_id: Some(content_id),
    };
    assert_eq!(filters.search.as_deref(), Some("math"));
    assert_eq!(filters.status.as_deref(), Some("open"));
    assert_eq!(filters.content_id, Some(content_id));
}

#[test]
fn listing_search_patterns_keep_empty_text() {
    assert_eq!(optional_contains_pattern(&Some(String::new())).as_deref(), Some("%%"));
    assert_eq!(optional_contains_pattern(&Some("math".to_string())).as_deref(), Some("%math%"));
    assert_eq!(optional_contains_pattern(&None), None);
}

#[test]
fn keys_first_match_wins() {
    let keys = vec![7u128, 3, 7, 9];
    assert_eq!(find_first(&keys, 7), Some(0));
    assert_eq!(find_first(&keys, 9), Some(3));
    assert_eq!(find_first(&keys, 4), None);
    assert_eq!(attach_first(&vec![9, 4, 7], &keys), vec![Some(3), None, Some(0)]);
    assert_eq!(pair_matches(&vec![4, 3, 5, 9], &keys), vec![(1, 1), (3, 3)]);
}

#[test]
fn gallery_contents_get_their_topics() {
    let content_topics = vec![20u128, 10, 30, 10];
    let topics = vec![10u128, 20];
    assert_eq!(attach_topics(&content_topics, &topics), vec![Some(1), Some(0), None, Some(0)]);
    assert!(attach_topics(&vec![], &topics).is_empty());
}

#[test]
fn marketplace_tasks_without_content_are_dropped() {
    let task_contents = vec![5u128, 6, 5, 8];
    let contents = vec![8u128, 5];
    assert_eq!(attach_contents(&task_contents, &contents), vec![(0, 1), (2, 1), (3, 0)]);
    assert!(attach_contents(&task_contents, &vec![]).is_empty());
}

#[test]
fn cors_any_origin_settings() {
    assert_eq!(cors_allowed_origins(""), None);
    assert_eq!(cors_allowed_origins("*"), None);
    assert_eq!(cors_allowed_origins(" , ,"), None);
    assert_eq!(cors_allowed_origins("bad\u{7f}origin"), None);
}

#[test]
fn cors_origin_list_is_trimmed_and_filtered() {
    assert_eq!(
        cors_allowed_origins(" https://a.example , ,https://b.example,\u{1}x,  "),
        Some(vec!["https://a.example".to_string(), "https://b.example".to_string()])
    );
    assert_eq!(cors_allowed_origins("http://localhost:3000"), Some(vec!["http://localhost:3000".to_string()]));
    assert_eq!(cors_allowed_origins("https://ü.example"), Some(vec!["https://ü.example".to_string()]));
}

fn walk_chain(start: u128, parent_of: &dyn Fn(u128) -> Option<Option<u128>>) -> (Vec<u128>, usize) {
    let mut walk = start_ancestor_walk(start);
    let mut rows = Vec::new();
    let mut lookups = 0;
    while let Some(id) = walk.next {
        lookups += 1;
        let found = parent_of(id);
        if found.is_some() {
            rows.push(id);
        }
        walk = ancestor_walk_step(walk, found);
    }
    (oldest_first(rows), lookups)
}

#[test]
fn chain_walk_reaches_the_root() {
    // 4 <- 3 <- 2 <- 1 (1 is the root)
    let (chain, lookups) = walk_chain(4, &|id| if (1..=4).contains(&id) {
        Some(if id == 1 { None } else { Some(id - 1) })
    } else {
        None
    });
    assert_eq!(chain, vec![1, 2, 3, 4]);
    assert_eq!(lookups, 4);
}

#[test]
fn chain_walk_stops_at_missing_row() {
    let (chain, lookups) = walk_chain(7, &|id| if id == 7 { Some(Some(6)) } else { None });
    assert_eq!(chain, vec![7]);
    assert_eq!(lookups, 2);
    let (chain, _) = walk_chain(9, &|_| None);
    assert!(chain.is_empty());
}

#[test]
fn chain_walk_is_bounded_on_cycles() {
    let (chain, lookups) = walk_chain(1, &|id| Some(Some(if id == 1 { 2 } else { 1 })));
    assert_eq!(chain.len(), MAX_CHAIN_DEPTH);
    assert_eq!(lookups, MAX_CHAIN_DEPTH);
    let done = ancestor_walk_step(AncestorWalk { next: Some(5), fetched: 49 }, Some(Some(4)));
    assert_eq!(done, AncestorWalk { next: None, fetched: 50 });
}

#[test]
fn oldest_first_reverses() {
    assert_eq!(oldest_first(vec!["c", "b", "a"]), vec!["a", "b", "c"]);
    assert_eq!(oldest_first(Vec::<u8>::new()), Vec::<u8>::new());
}

#[test]
fn test_create_payload_structure() {
    let payload = CreateStudentProgressPayload {
        student_name: "Budi".to_string(),
        score: 85,
        completion_date: Some(instant(chrono::Utc::now())),
    };
    assert_eq!(payload.student_name, "Budi");
    assert_eq!(payload.score, 85);
    assert!(payload.completion_date.is_some());
}

#[test]
fn test_create_payload_defaults() {
    let payload = CreateMediaGenerationPayload {
        teacher_id: 42,
        raw_prompt: "Test prompt".to_string(),
        request_fingerprint: "fingerprint_1".to_string(),
        generated_from_id: None,
        is_regeneration: false,
        subject_id: None,
        sub_subject_id: None,
        preferred_output_type: "auto".to_string(),
        active_duplicate_key: None,
    };

    assert_eq!(payload.teacher_id, 42);
    assert_eq!(payload.preferred_output_type, "auto");
    assert!(!payload.is_regeneration);
}

#[test]
fn test_update_clarification_state_payload() {
    let answers = JsonValue::Object(vec![(
        "target_audience".to_string(),
        JsonValue::Str("SD_Kelas_5".to_string()),
    )]);
    let payload = UpdateClarificationStatePayload {
        clarification_state: Some(JsonValue::Object(vec![
            ("answers".to_string(), answers),
            (
                "suggested_prompt".to_string(),
                JsonValue::Str("Buatkan materi pecahan untuk SD Kelas 5".to_string()),
            ),
        ])),
        clarified_at: Some(instant(chrono::Utc::now())),
        clarification_skipped: false,
    };

    assert!(payload.clarification_state.is_some());
    assert!(payload.clarified_at.is_some());
    assert!(!payload.clarification_skipped);
}

#[test]
fn test_update_clarification_state_payload_skipped() {
    let payload = UpdateClarificationStatePayload {
        clarification_state: Some(JsonValue::Object(vec![
            ("answers".to_string(), JsonValue::Object(vec![])),
            ("skipped".to_string(), JsonValue::Bool(true)),
        ])),
        clarified_at: Some(instant(chrono::Utc::now())),
        clarification_skipped: true,
    };

    assert!(payload.clarification_skipped);
}

#[test]
fn generation_job_and_storage_payloads() {
    let job = uuid::Uuid::new_v4();
    let status = UpdateGenerationJobStatusPayload {
        generation_job_id: Some(job.as_u128()),
        generation_status: "queued".to_string(),
    };
    assert_eq!(status.generation_job_id.map(uuid::Uuid::from_u128), Some(job));
    let s3 = UpdateS3MetadataPayload {
        s3_object_key: "materials/a.pdf".to_string(),
        presigned_download_url: "https://r2/a.pdf?sig".to_string(),
        presigned_url_expires_at: Timestamp { secs: 1_720_000_000, nanos: 0 },
    };
    assert_eq!(s3.presigned_url_expires_at.secs, 1_720_000_000);
}

#[test]
fn relations_are_attached_per_generation_in_order() {
    let subjects = vec![SubjectSummary { id: 1, name: "Matematika".to_string(), slug: "matematika".to_string() }];
    let subs = vec![SubSubjectSummary { id: 7, subject_id: 2, name: "Pecahan".to_string(), slug: "pecahan".to_string() }];
    let generations = vec![
        GenerationRefs { subject_id: Some(1), sub_subject_id: Some(7), topic: Some(30), content: None, recommended_project: Some(9) },
        GenerationRefs { subject_id: Some(5), sub_subject_id: None, topic: Some(31), content: Some(40), recommended_project: None },
    ];
    let rel = attach_relations(&generations, &subjects, &subs, &vec![31, 30, 30], &vec![40], &vec![8, 9]);
    assert_eq!(rel.len(), 2);
    assert_eq!(rel[0].subject.as_ref().map(|s| s.id), Some(1));
    let ss = rel[0].sub_subject.as_ref().unwrap();
    assert_eq!(ss.sub_subject.id, 7);
    assert_eq!(ss.subject.id, 0);
    assert_eq!(rel[0].topic, Some(1));
    assert_eq!(rel[0].content, None);
    assert_eq!(rel[0].recommended_project, Some(1));
    assert!(rel[1].subject.is_none());
    assert!(rel[1].sub_subject.is_none());
    assert_eq!(rel[1].topic, Some(0));
    assert_eq!(rel[1].content, Some(0));
    assert_eq!(rel[1].recommended_project, None);
}

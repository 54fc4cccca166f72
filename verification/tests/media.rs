use sha2::{Digest, Sha256};

use klass_gateway::json::{get, is_field_present_in_json, JsonValue};
use klass_gateway::matching::{build_seed, seed_hash_value};
use klass_gateway::media_gen::publication::{
    build_delivery_payload, content_type_from_output, default_mime_for, has_pdf_eof_marker,
    mime_label, thumbnail_accent, validate_integrity, PublicationError, SvgFallbackGenerator,
};
use klass_gateway::media_gen::publish::{
    choose_thumbnail, compensation_paths, plan_publication, teacher_ref, topic_title, PublicationPlan, PublicationRow,
    ThumbnailSource,
};
use klass_gateway::media_gen::python_client::{
    build_job_request_body, extract_error_message, jobs_url, map_error_code, renderer_base_url,
    retry_attempts, submission_outcome, trimmed_base_url, webhook_url, PythonClientError,
};

fn obj(members: Vec<(&str, JsonValue)>) -> JsonValue {
    JsonValue::Object(members.into_iter().map(|(k, v)| (k.to_string(), v)).collect())
}

fn s(text: &str) -> JsonValue {
    JsonValue::Str(text.to_string())
}

fn path<'a>(v: &'a JsonValue, keys: &[&str]) -> Option<&'a JsonValue> {
    let mut cur = v;
    for k in keys {
        cur = get(cur, k)?;
    }
    Some(cur)
}

fn text_at(v: &JsonValue, keys: &[&str]) -> Option<String> {
    match path(v, keys) {
        Some(JsonValue::Str(t)) => Some(t.clone()),
        _ => None,
    }
}

#[test]
fn test_build_delivery_payload_shape() {
    let payload = build_delivery_payload(
        "https://cdn.example.com/materials/file.pdf",
        Some("https://cdn.example.com/materials/thumb.svg"),
        "pdf",
        "application/pdf",
    );
    assert_eq!(text_at(&payload, &["schema_version"]).as_deref(), Some("media_delivery_response.v1"));
    assert_eq!(text_at(&payload, &["response_meta", "provider"]).as_deref(), Some("python-renderer"));
    assert!(matches!(path(&payload, &["fallback", "triggered"]), Some(JsonValue::Bool(false))));
    assert_eq!(
        text_at(&payload, &["artifact", "file_url"]).as_deref(),
        Some("https://cdn.example.com/materials/file.pdf")
    );
    assert_eq!(text_at(&payload, &["artifact", "output_type"]).as_deref(), Some("pdf"));
}

#[test]
fn test_build_delivery_payload_no_thumbnail() {
    let payload = build_delivery_payload(
        "https://cdn.example.com/materials/slides.pptx",
        None,
        "pptx",
        "application/vnd.openxmlformats-officedocument.presentationml.presentation",
    );
    assert!(matches!(path(&payload, &["artifact", "thumbnail_url"]), Some(JsonValue::Null)));
}

#[test]
fn test_default_mime_for_pdf() {
    assert_eq!(default_mime_for("pdf"), "application/pdf");
}

#[test]
fn test_default_mime_for_pptx() {
    assert_eq!(default_mime_for("pptx"), "application/vnd.openxmlformats-officedocument.presentationml.presentation");
}

#[test]
fn test_default_mime_for_docx() {
    assert_eq!(default_mime_for("docx"), "application/vnd.openxmlformats-officedocument.wordprocessingml.document");
}

#[test]
fn test_default_mime_for_unknown() {
    assert_eq!(default_mime_for("html"), "application/octet-stream");
}

#[test]
fn test_thumbnail_accent_pdf() {
    assert_eq!(thumbnail_accent("application/pdf"), "#E74C3C");
}

#[test]
fn test_thumbnail_accent_pptx() {
    assert_eq!(
        thumbnail_accent("application/vnd.openxmlformats-officedocument.presentationml.presentation"),
        "#F39C12"
    );
}

#[test]
fn test_thumbnail_accent_default() {
    assert_eq!(thumbnail_accent("text/plain"), "#3498DB");
}

#[test]
fn test_mime_label_pdf() {
    assert_eq!(mime_label("application/pdf"), "PDF Document");
}

#[test]
fn test_mime_label_pptx() {
    assert_eq!(
        mime_label("application/vnd.openxmlformats-officedocument.presentationml.presentation"),
        "Presentation"
    );
}

#[test]
fn mime_labels_of_documents_and_others() {
    assert_eq!(mime_label("application/msword"), "Document");
    assert_eq!(mime_label("image/png"), "Media File");
}

#[test]
fn test_svg_fallback_generates_valid_svg() {
    let gen = SvgFallbackGenerator;
    let (bytes, mime) = gen.generate(b"fake pdf content", "application/pdf").unwrap();
    let svg = String::from_utf8(bytes).unwrap();
    assert_eq!(mime, "image/svg+xml");
    assert!(svg.contains("<svg"));
    assert!(svg.contains("</svg>"));
    assert!(svg.contains("#E74C3C"));
}

#[test]
fn test_svg_fallback_pptx_accent() {
    let gen = SvgFallbackGenerator;
    let (bytes, _) = gen
        .generate(
            b"fake pptx content",
            "application/vnd.openxmlformats-officedocument.presentationml.presentation",
        )
        .unwrap();
    let svg = String::from_utf8(bytes).unwrap();
    assert!(svg.contains("#F39C12"));
}

#[test]
fn svg_fallback_carries_size_and_label() {
    let (bytes, _) = SvgFallbackGenerator.generate(b"", "text/plain").unwrap();
    let svg = String::from_utf8(bytes).unwrap();
    assert!(svg.starts_with("<svg xmlns=\"http://www.w3.org/2000/svg\" width=\"1280\" height=\"720\""));
    assert!(svg.contains("fill=\"#3498DB22\""));
    assert!(svg.contains("width=\"1160\" height=\"600\""));
    assert!(svg.contains(">Media File</text>\n</svg>"));
}

#[test]
fn test_validate_integrity_empty() {
    let result = validate_integrity(&[], "application/pdf");
    assert!(result.is_err());
    assert!(result.unwrap_err().message().contains("empty"));
}

#[test]
fn test_validate_integrity_pdf_valid() {
    let content = b"%PDFsome content %%EOF".to_vec();
    assert!(validate_integrity(&content, "application/pdf").is_ok());
}

#[test]
fn test_validate_integrity_pdf_missing_magic() {
    let content = b"Not a PDF at all%%EOF";
    let result = validate_integrity(content, "application/pdf");
    assert!(result.is_err());
    assert!(result.unwrap_err().message().contains("%PDF"));
}

#[test]
fn test_validate_integrity_pptx_valid() {
    let content = b"PK\x03\x04valid zip content".to_vec();
    let result = validate_integrity(
        &content,
        "application/vnd.openxmlformats-officedocument.presentationml.presentation",
    );
    assert!(result.is_ok());
}

#[test]
fn test_validate_integrity_ooxml_missing_magic() {
    let content = b"Not a valid OOXML file";
    let result = validate_integrity(
        content,
        "application/vnd.openxmlformats-officedocument.wordprocessingml.document",
    );
    assert!(result.is_err());
    assert!(result.unwrap_err().message().contains("PK"));
}

#[test]
fn test_validate_integrity_pdf_with_trailing_newline() {
    let content = b"%PDFsome content %%EOF\n".to_vec();
    assert!(validate_integrity(&content, "application/pdf").is_ok());
}

#[test]
fn test_validate_integrity_pdf_with_trailing_crlf() {
    let content = b"%PDFsome content %%EOF\r\n".to_vec();
    assert!(validate_integrity(&content, "application/pdf").is_ok());
}

#[test]
fn pdf_without_trailer_and_other_types() {
    let result = validate_integrity(b"%PDF-1.7 body", "application/pdf");
    assert!(result.unwrap_err().message().contains("%%EOF"));
    assert!(validate_integrity(b"anything", "image/png").is_ok());
}

#[test]
fn publication_test_error_display_not_found() {
    let err = PublicationError::NotFound("gen-1".to_string());
    assert!(err.message().contains("not found"));
}

#[test]
fn test_error_display_integrity() {
    let err = PublicationError::Integrity("checksum mismatch".to_string());
    assert!(err.message().contains("integrity check failed"));
}

#[test]
fn test_error_display_missing_artifact() {
    let err = PublicationError::MissingArtifact;
    assert!(err.message().contains("artifact not found"));
}

#[test]
fn test_content_type_from_output_pdf() {
    assert_eq!(content_type_from_output("pdf"), "module");
}

#[test]
fn test_content_type_from_output_pptx() {
    assert_eq!(content_type_from_output("pptx"), "module");
}

#[test]
fn test_content_type_from_output_docx() {
    assert_eq!(content_type_from_output("docx"), "module");
}

#[test]
fn test_content_type_from_output_unknown() {
    assert_eq!(content_type_from_output("html"), "module");
}

#[test]
fn test_has_pdf_eof_marker_exact() {
    assert!(has_pdf_eof_marker(b"%PDF-1.4 content %%EOF"));
}

#[test]
fn test_has_pdf_eof_marker_trailing_whitespace() {
    assert!(has_pdf_eof_marker(b"%PDF-1.4 content %%EOF\n"));
}

#[test]
fn test_has_pdf_eof_marker_trailing_crlf() {
    assert!(has_pdf_eof_marker(b"%PDF-1.4 content %%EOF\r\n"));
}

#[test]
fn test_has_pdf_eof_marker_trailing_spaces() {
    assert!(has_pdf_eof_marker(b"%PDF-1.4 content %%EOF   \n\n"));
}

#[test]
fn test_has_pdf_eof_marker_absent() {
    assert!(!has_pdf_eof_marker(b"%PDF-1.4 no eof marker here"));
}

#[test]
fn eof_marker_must_lie_in_the_last_kilobyte() {
    let mut content = b"%PDF %%EOF".to_vec();
    content.extend(std::iter::repeat(b' ').take(1024));
    assert!(!has_pdf_eof_marker(&content));
    content.truncate(content.len() - 10);
    assert!(has_pdf_eof_marker(&content));
}

#[test]
fn test_map_error_code_laravel_hint() {
    let body = obj(vec![("error", obj(vec![("laravel_error_code_hint", s("RENDERER_TIMEOUT"))]))]);
    assert_eq!(map_error_code(500, &body), "RENDERER_TIMEOUT");
}

#[test]
fn test_map_error_code_top_level_code() {
    let body = obj(vec![("error_code", s("INVALID_INPUT"))]);
    assert_eq!(map_error_code(400, &body), "INVALID_INPUT");
}

#[test]
fn test_map_error_code_5xx_returns_unavailable() {
    let body = obj(vec![]);
    assert_eq!(map_error_code(503, &body), "PYTHON_SERVICE_UNAVAILABLE");
    assert_eq!(map_error_code(502, &body), "PYTHON_SERVICE_UNAVAILABLE");
}

#[test]
fn test_map_error_code_429_returns_unavailable() {
    let body = obj(vec![]);
    assert_eq!(map_error_code(429, &body), "PYTHON_SERVICE_UNAVAILABLE");
}

#[test]
fn test_map_error_code_4xx_returns_invalid() {
    let body = obj(vec![]);
    assert_eq!(map_error_code(400, &body), "ARTIFACT_INVALID");
    assert_eq!(map_error_code(422, &body), "ARTIFACT_INVALID");
}

#[test]
fn empty_hints_fall_through_to_the_status() {
    let body = obj(vec![
        ("error", obj(vec![("laravel_error_code_hint", s(""))])),
        ("error_code", s("")),
    ]);
    assert_eq!(map_error_code(599, &body), "PYTHON_SERVICE_UNAVAILABLE");
    assert_eq!(map_error_code(600, &JsonValue::Null), "ARTIFACT_INVALID");
}

#[test]
fn test_extract_error_message_nested_error() {
    let body = obj(vec![("error", obj(vec![("message", s("spec validation failed"))]))]);
    assert_eq!(extract_error_message(&body), "spec validation failed");
}

#[test]
fn test_extract_error_message_top_level() {
    let body = obj(vec![("message", s("Service unavailable"))]);
    assert_eq!(extract_error_message(&body), "Service unavailable");
}

#[test]
fn test_extract_error_message_fallback() {
    let body = obj(vec![]);
    assert_eq!(extract_error_message(&body), "Unknown error from Python renderer");
}

#[test]
fn error_message_falls_back_to_error_message_field() {
    let body = obj(vec![("error", s("flat")), ("error_message", s("detail"))]);
    assert_eq!(extract_error_message(&body), "detail");
}

#[test]
fn python_client_test_error_display_not_found() {
    let err = PythonClientError::NotFound("gen-1".to_string());
    assert!(err.message().contains("not found"));
}

#[test]
fn test_error_display_missing_spec() {
    let err = PythonClientError::MissingSpec("gen-1".to_string());
    assert!(err.message().contains("generation spec payload missing"));
}

#[test]
fn test_error_display_renderer_error() {
    let err = PythonClientError::RendererError {
        code: "PYTHON_SERVICE_UNAVAILABLE".to_string(),
        message: "timeout".to_string(),
        status: 503,
        raw_body: JsonValue::Null,
    };
    let msg = err.message();
    assert!(msg.contains("PYTHON_SERVICE_UNAVAILABLE"));
    assert!(msg.contains("timeout"));
}

#[test]
fn submissions_succeed_on_2xx_and_map_errors_otherwise() {
    assert!(submission_outcome(202, JsonValue::Null).is_ok());
    assert!(submission_outcome(200, JsonValue::Null).is_ok());
    let body = obj(vec![("message", s("busy"))]);
    match submission_outcome(503, body) {
        Err(PythonClientError::RendererError { code, message, status, .. }) => {
            assert_eq!(code, "PYTHON_SERVICE_UNAVAILABLE");
            assert_eq!(message, "busy");
            assert_eq!(status, 503);
        }
        other => panic!("unexpected outcome: {:?}", other),
    }
}

#[test]
fn base_urls_lose_trailing_slashes_and_jobs_path() {
    assert_eq!(renderer_base_url("https://r.example.com/v1/jobs/"), "https://r.example.com");
    assert_eq!(renderer_base_url("https://r.example.com//v1/jobs"), "https://r.example.com");
    assert_eq!(renderer_base_url("https://r.example.com/api/"), "https://r.example.com/api");
    assert_eq!(trimmed_base_url("https://gw.example.com///"), "https://gw.example.com");
    assert_eq!(jobs_url("https://r.example.com"), "https://r.example.com/v1/jobs");
    assert_eq!(webhook_url("https://gw"), "https://gw/internal/media-generations/webhook");
    assert_eq!(retry_attempts(0), 1);
    assert_eq!(retry_attempts(3), 3);
}

#[test]
fn job_request_body_carries_ids_spec_and_callback() {
    let body = build_job_request_body("gen-1", "job-2", obj(vec![("output", s("pdf"))]), "https://gw/hook");
    assert_eq!(text_at(&body, &["generation_id"]).as_deref(), Some("gen-1"));
    assert_eq!(text_at(&body, &["job_id"]).as_deref(), Some("job-2"));
    assert_eq!(text_at(&body, &["generation_spec", "output"]).as_deref(), Some("pdf"));
    assert_eq!(text_at(&body, &["webhook_url"]).as_deref(), Some("https://gw/hook"));
}

#[test]
fn field_presence_ignores_null_blank_and_auto() {
    assert!(!is_field_present_in_json(None));
    assert!(!is_field_present_in_json(Some(&JsonValue::Null)));
    assert!(!is_field_present_in_json(Some(&s("  "))));
    assert!(!is_field_present_in_json(Some(&s(" auto "))));
    assert!(is_field_present_in_json(Some(&s("pdf"))));
    assert!(!is_field_present_in_json(Some(&JsonValue::Array(vec![]))));
    assert!(is_field_present_in_json(Some(&JsonValue::Bool(false))));
    assert!(is_field_present_in_json(Some(&JsonValue::Number("0".to_string()))));
}

#[test]
fn seeds_join_id_label_and_generation() {
    let gen = [7u8; 16];
    let seed = build_seed(-2, b":success", &gen);
    let mut expected = (-2i64).to_le_bytes().to_vec();
    expected.extend_from_slice(b":success");
    expected.extend_from_slice(&gen);
    assert_eq!(seed, expected);
}

#[test]
fn seed_hash_value_reads_the_digest_prefix() {
    let digest = Sha256::digest(b"test-seed");
    let expected = u64::from_be_bytes([
        digest[0], digest[1], digest[2], digest[3], digest[4], digest[5], digest[6], digest[7],
    ]);
    assert_eq!(seed_hash_value(b"test-seed"), expected);
    assert_ne!(seed_hash_value(b"user-1"), seed_hash_value(b"user-2"));
}

fn publication_row(status: &str, response: Option<JsonValue>) -> PublicationRow {
    PublicationRow {
        status: status.to_string(),
        interpretation_payload: Some(obj(vec![(
            "document_blueprint",
            obj(vec![("title", s("Rangkuman Ekosistem Kelas 5"))]),
        )])),
        generator_service_response: response,
        resolved_output_type: Some("pptx".to_string()),
        mime_type: None,
        teacher_id: Some(42),
    }
}

#[test]
fn publish_plan_missing_row_is_not_found() {
    match plan_publication("gen-1", None) {
        Err(PublicationError::NotFound(id)) => assert_eq!(id, "gen-1"),
        other => panic!("unexpected {:?}", other),
    }
}

#[test]
fn publish_plan_settled_rows_are_left_alone() {
    for status in ["completed", "cancelled"] {
        let row = publication_row(status, None);
        assert!(matches!(plan_publication("g", Some(&row)), Ok(PublicationPlan::AlreadySettled)));
    }
}

#[test]
fn publish_plan_requires_artifact_url() {
    let row = publication_row("publishing", None);
    assert!(matches!(plan_publication("g", Some(&row)), Err(PublicationError::MissingArtifact)));
    let row = publication_row("publishing", Some(obj(vec![("file_url", JsonValue::Null)])));
    assert!(matches!(plan_publication("g", Some(&row)), Err(PublicationError::MissingArtifact)));
    let row = publication_row("publishing", Some(obj(vec![("status", s("ok"))])));
    assert!(matches!(plan_publication("g", Some(&row)), Err(PublicationError::MissingArtifact)));
}

#[test]
fn publish_plan_reads_direct_and_nested_urls() {
    let direct = publication_row(
        "publishing",
        Some(obj(vec![
            ("file_url", s("https://r/a.pptx")),
            ("thumbnail_url", s("https://r/a.svg")),
        ])),
    );
    match plan_publication("g", Some(&direct)) {
        Ok(PublicationPlan::Publish(p)) => {
            assert_eq!(p.file_url, "https://r/a.pptx");
            assert_eq!(p.renderer_thumbnail_url.as_deref(), Some("https://r/a.svg"));
            assert_eq!(p.output_type, "pptx");
            assert_eq!(
                p.mime_type,
                "application/vnd.openxmlformats-officedocument.presentationml.presentation"
            );
            assert_eq!(p.topic_title, "Rangkuman Ekosistem Kelas 5");
            assert_eq!(p.teacher_ref, "42");
        }
        other => panic!("unexpected {:?}", other),
    }
    let nested = PublicationRow {
        status: "publishing".to_string(),
        interpretation_payload: None,
        generator_service_response: Some(obj(vec![(
            "response",
            obj(vec![("file_url", s("https://r/b.pdf")), ("thumbnail_url", s(""))]),
        )])),
        resolved_output_type: None,
        mime_type: Some("application/pdf".to_string()),
        teacher_id: None,
    };
    match plan_publication("g", Some(&nested)) {
        Ok(PublicationPlan::Publish(p)) => {
            assert_eq!(p.file_url, "https://r/b.pdf");
            assert_eq!(p.renderer_thumbnail_url, None);
            assert_eq!(p.output_type, "pdf");
            assert_eq!(p.mime_type, "application/pdf");
            assert_eq!(p.topic_title, "Generated Topic");
            assert_eq!(p.teacher_ref, "");
        }
        other => panic!("unexpected {:?}", other),
    }
}

#[test]
fn publish_topic_title_and_teacher_ref() {
    assert_eq!(topic_title(None), "Generated Topic");
    let no_title = obj(vec![("document_blueprint", obj(vec![("summary", s("x"))]))]);
    assert_eq!(topic_title(Some(&no_title)), "Generated Topic");
    assert_eq!(teacher_ref(Some(-7)), "-7");
    assert_eq!(teacher_ref(Some(1234567)), "1234567");
    assert_eq!(teacher_ref(None), "");
}

#[test]
fn publish_thumbnail_source() {
    assert_eq!(choose_thumbnail(Some(b"<svg/>".as_slice())), ThumbnailSource::Renderer);
    assert_eq!(choose_thumbnail(Some(b"".as_slice())), ThumbnailSource::Fallback);
    assert_eq!(choose_thumbnail(None), ThumbnailSource::Fallback);
}

#[test]
fn failed_publications_delete_every_upload() {
    let uploaded = vec!["materials/a.pdf".to_string(), "gallery/a.svg".to_string()];
    assert_eq!(compensation_paths(&uploaded, false), uploaded);
    assert!(compensation_paths(&uploaded, true).is_empty());
    assert!(compensation_paths(&Vec::new(), false).is_empty());
}

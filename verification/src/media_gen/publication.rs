//! Media publication rules: artifact integrity checks, MIME defaults,
//! thumbnail styling and content typing.
use vstd::prelude::*;
use vstd::string::*;

use crate::text::{chars_of, contains_chars, seq_contains, str_is};
use crate::json::{JsonValue, json_get, json_get_opt, json_str, member_value};

verus! {

/// `%PDF`, the first bytes of a PDF file.
pub open spec fn pdf_magic() -> Seq<u8> {
    seq![0x25u8, 0x50u8, 0x44u8, 0x46u8]
}

/// `PK\x03\x04`, the first bytes of a ZIP-based OOXML file.
pub open spec fn ooxml_magic() -> Seq<u8> {
    seq![0x50u8, 0x4bu8, 0x03u8, 0x04u8]
}

/// `%%EOF`, the PDF trailer marker.
pub open spec fn pdf_eof() -> Seq<u8> {
    seq![0x25u8, 0x25u8, 0x45u8, 0x4fu8, 0x46u8]
}

/// `%%EOF` occurs within the last 1024 bytes of `b`.
pub open spec fn spec_has_pdf_eof_marker(b: Seq<u8>) -> bool {
    let tail_start = if b.len() > 1024 { b.len() - 1024 } else { 0 };
    exists|i: int| tail_start <= i && i + 5 <= b.len() && #[trigger] b.subrange(i, i + 5) == pdf_eof()
}

fn bytes_at(b: &[u8], i: usize, pat: &[u8]) -> (r: bool)
    requires
        i + pat.len() <= b.len(),
    ensures
        r == (b@.subrange(i as int, i + pat.len()) == pat@),
{
    let mut j: usize = 0;
    while j < pat.len()
        invariant
            i + pat.len() <= b.len(),
            j <= pat.len(),
            forall|k: int| 0 <= k < j ==> b@[i + k] == pat@[k],
        decreases pat.len() - j,
    {
        if b[i + j] != pat[j] {
            assert(b@.subrange(i as int, i + pat.len())[j as int] != pat@[j as int]);
            return false;
        }
        j += 1;
    }
    assert(b@.subrange(i as int, i + pat.len()) =~= pat@);
    true
}

/// Whether `%%EOF` occurs within the last 1024 bytes; generators often put
/// whitespace after the marker.
pub fn has_pdf_eof_marker(bytes: &[u8]) -> (r: bool)
    ensures
        r == spec_has_pdf_eof_marker(bytes@),
{
    let marker: [u8; 5] = [0x25, 0x25, 0x45, 0x4f, 0x46];
    assert(marker@ =~= pdf_eof());
    let tail_start: usize = if bytes.len() > 1024 { bytes.len() - 1024 } else { 0 };
    if bytes.len() < 5 || bytes.len() - 5 < tail_start {
        return false;
    }
    let mut i: usize = tail_start;
    while i <= bytes.len() - 5
        invariant
            bytes.len() >= 5,
            tail_start <= i <= bytes.len() - 4,
            tail_start == if bytes@.len() > 1024 { bytes@.len() - 1024 } else { 0 },
            marker@ == pdf_eof(),
            forall|k: int| tail_start <= k < i ==> #[trigger] bytes@.subrange(k, k + 5) != pdf_eof(),
        decreases bytes.len() - i,
    {
        if bytes_at(bytes, i, marker.as_slice()) {
            return true;
        }
        i += 1;
    }
    false
}

/// Whether `b` starts with `pat`.
pub open spec fn bytes_start_with(b: Seq<u8>, pat: Seq<u8>) -> bool {
    pat.len() <= b.len() && b.subrange(0, pat.len() as int) == pat
}

fn starts_with_bytes(b: &[u8], pat: &[u8]) -> (r: bool)
    ensures
        r == bytes_start_with(b@, pat@),
{
    if pat.len() > b.len() {
        return false;
    }
    bytes_at(b, 0, pat)
}

/// Accent colour of the fallback thumbnail: red for PDF, orange for
/// presentations, blue otherwise.
pub open spec fn accent_of(mime: Seq<char>) -> Seq<char> {
    if seq_contains(mime, "pdf"@) {
        "#E74C3C"@
    } else if seq_contains(mime, "presentation"@) {
        "#F39C12"@
    } else {
        "#3498DB"@
    }
}

/// Human label of a MIME type.
pub open spec fn label_of(mime: Seq<char>) -> Seq<char> {
    if seq_contains(mime, "pdf"@) {
        "PDF Document"@
    } else if seq_contains(mime, "presentation"@) {
        "Presentation"@
    } else if seq_contains(mime, "word"@) || seq_contains(mime, "document"@) {
        "Document"@
    } else {
        "Media File"@
    }
}

/// Accent colour of the fallback thumbnail (see `accent_of`).
pub fn thumbnail_accent(mime_type: &str) -> (r: &'static str)
    ensures
        r@ == accent_of(mime_type@),
{
    let m = chars_of(mime_type);
    if contains_chars(m.as_slice(), chars_of("pdf").as_slice()) {
        "#E74C3C"
    } else if contains_chars(m.as_slice(), chars_of("presentation").as_slice()) {
        "#F39C12"
    } else {
        "#3498DB"
    }
}

/// Human label for a MIME type (see `label_of`).
pub fn mime_label(mime_type: &str) -> (r: &'static str)
    ensures
        r@ == label_of(mime_type@),
{
    let m = chars_of(mime_type);
    if contains_chars(m.as_slice(), chars_of("pdf").as_slice()) {
        "PDF Document"
    } else if contains_chars(m.as_slice(), chars_of("presentation").as_slice()) {
        "Presentation"
    } else if contains_chars(m.as_slice(), chars_of("word").as_slice())
        || contains_chars(m.as_slice(), chars_of("document").as_slice()) {
        "Document"
    } else {
        "Media File"
    }
}

/// Default MIME type of an output type.
pub open spec fn spec_default_mime_for(output_type: Seq<char>) -> Seq<char> {
    if output_type == "pdf"@ {
        "application/pdf"@
    } else if output_type == "pptx"@ {
        "application/vnd.openxmlformats-officedocument.presentationml.presentation"@
    } else if output_type == "docx"@ {
        "application/vnd.openxmlformats-officedocument.wordprocessingml.document"@
    } else {
        "application/octet-stream"@
    }
}

/// Default MIME type for an output type (pdf, pptx, docx; anything else is
/// `application/octet-stream`).
pub fn default_mime_for(output_type: &str) -> (r: &'static str)
    ensures
        r@ == spec_default_mime_for(output_type@),
{
    if str_is(output_type, "pdf") {
        "application/pdf"
    } else if str_is(output_type, "pptx") {
        "application/vnd.openxmlformats-officedocument.presentationml.presentation"
    } else if str_is(output_type, "docx") {
        "application/vnd.openxmlformats-officedocument.wordprocessingml.document"
    } else {
        "application/octet-stream"
    }
}

/// Content type of a published artifact: always `module`, whatever the
/// file format (the format stays on the generation row).
pub fn content_type_from_output(_output_type: &str) -> (r: &'static str)
    ensures
        r@ == "module"@,
{
    "module"
}

} // verus!

verus! {

/// Opaque declaration of `reqwest::Error`.
#[verifier::external_type_specification]
#[verifier::external_body]
pub struct ExReqwestError(reqwest::Error);

/// Opaque declaration of `sqlx::Error`.
#[verifier::external_type_specification]
#[verifier::external_body]
pub struct ExSqlxError(sqlx::Error);

/// Opaque declaration of `serde_json::Error`.
#[verifier::external_type_specification]
#[verifier::external_body]
pub struct ExSerdeJsonError(serde_json::Error);

/// Errors of the publication pipeline.
#[derive(Debug)]
pub enum PublicationError {
    /// Generation not found.
    NotFound(String),
    /// Artifact not found in the generator response.
    MissingArtifact,
    /// Integrity validation failed.
    Integrity(String),
    /// Artifact download failed.
    Download(reqwest::Error),
    /// Upload to object storage failed.
    Upload(String),
    /// Database error.
    Database(sqlx::Error),
    /// JSON error.
    Json(serde_json::Error),
    /// Malformed generation id.
    InvalidUuid(String),
}

/// The integrity failure, if any, of an artifact of the given MIME type:
/// empty artifacts fail; PDFs need the `%PDF` header and a `%%EOF` marker
/// in their last 1024 bytes; OOXML documents need the ZIP header.
pub open spec fn integrity_failure(b: Seq<u8>, mime: Seq<char>) -> Option<Seq<char>> {
    if b.len() == 0 {
        Some("artifact is empty"@)
    } else if seq_contains(mime, "pdf"@) {
        if !bytes_start_with(b, pdf_magic()) {
            Some("PDF file missing %PDF header magic bytes"@)
        } else if !spec_has_pdf_eof_marker(b) {
            Some("PDF file missing %%EOF trailer"@)
        } else {
            None
        }
    } else if seq_contains(mime, "officedocument"@) || seq_contains(mime, "presentation"@)
        || seq_contains(mime, "word"@) {
        if !bytes_start_with(b, ooxml_magic()) {
            Some("OOXML file missing PK\\x03\\x04 (ZIP) magic bytes"@)
        } else {
            None
        }
    } else {
        None
    }
}

/// Validate an artifact's magic bytes and format markers.
pub fn validate_integrity(bytes: &[u8], mime_type: &str) -> (r: Result<(), PublicationError>)
    ensures
        match integrity_failure(bytes@, mime_type@) {
            None => r is Ok,
            Some(msg) => r matches Err(PublicationError::Integrity(m)) && m@ == msg,
        },
{
    if bytes.len() == 0 {
        return Err(PublicationError::Integrity(String::from_str("artifact is empty")));
    }
    let m = chars_of(mime_type);
    if contains_chars(m.as_slice(), chars_of("pdf").as_slice()) {
        let magic: [u8; 4] = [0x25, 0x50, 0x44, 0x46];
        assert(magic@ =~= pdf_magic());
        if !starts_with_bytes(bytes, magic.as_slice()) {
            return Err(PublicationError::Integrity(String::from_str("PDF file missing %PDF header magic bytes")));
        }
        if !has_pdf_eof_marker(bytes) {
            return Err(PublicationError::Integrity(String::from_str("PDF file missing %%EOF trailer")));
        }
    } else if contains_chars(m.as_slice(), chars_of("officedocument").as_slice())
        || contains_chars(m.as_slice(), chars_of("presentation").as_slice())
        || contains_chars(m.as_slice(), chars_of("word").as_slice()) {
        let magic: [u8; 4] = [0x50, 0x4b, 0x03, 0x04];
        assert(magic@ =~= ooxml_magic());
        if !starts_with_bytes(bytes, magic.as_slice()) {
            return Err(PublicationError::Integrity(String::from_str("OOXML file missing PK\\x03\\x04 (ZIP) magic bytes")));
        }
    }
    Ok(())
}

} // verus!

verus! {

/// Calls `<reqwest::Error as Display>::fmt` through `format!`.
#[verifier::external_body]
pub(crate) fn reqwest_error_text(e: &reqwest::Error) -> String {
    format!("{e}")
}

/// Calls `<sqlx::Error as Display>::fmt` through `format!`.
#[verifier::external_body]
pub(crate) fn sqlx_error_text(e: &sqlx::Error) -> String {
    format!("{e}")
}

/// Calls `<serde_json::Error as Display>::fmt` through `format!`.
#[verifier::external_body]
pub(crate) fn serde_json_error_text(e: &serde_json::Error) -> String {
    format!("{e}")
}

impl PublicationError {
    /// Human-readable description of the error.
    pub fn message(&self) -> (r: String)
        ensures
            match self {
                PublicationError::NotFound(s) => r@ == "generation not found: "@ + s@,
                PublicationError::MissingArtifact => r@ == "artifact not found in generator response"@,
                PublicationError::Integrity(s) => r@ == "integrity check failed: "@ + s@,
                PublicationError::Download(_) => crate::text::seq_starts_with(r@, "failed to download artifact: "@),
                PublicationError::Upload(s) => r@ == "R2 upload failed: "@ + s@,
                PublicationError::Database(_) => crate::text::seq_starts_with(r@, "database error: "@),
                PublicationError::Json(_) => crate::text::seq_starts_with(r@, "JSON error: "@),
                PublicationError::InvalidUuid(s) => r@ == "invalid UUID: "@ + s@,
            },
    {
        match self {
            PublicationError::NotFound(s) => String::from_str("generation not found: ").concat(s.as_str()),
            PublicationError::MissingArtifact => String::from_str("artifact not found in generator response"),
            PublicationError::Integrity(s) => String::from_str("integrity check failed: ").concat(s.as_str()),
            PublicationError::Download(e) => {
                let t = reqwest_error_text(e);
                let r = String::from_str("failed to download artifact: ").concat(t.as_str());
                assert(r@.subrange(0, "failed to download artifact: "@.len() as int) =~= "failed to download artifact: "@);
                r
            },
            PublicationError::Upload(s) => String::from_str("R2 upload failed: ").concat(s.as_str()),
            PublicationError::Database(e) => {
                let t = sqlx_error_text(e);
                let r = String::from_str("database error: ").concat(t.as_str());
                assert(r@.subrange(0, "database error: "@.len() as int) =~= "database error: "@);
                r
            },
            PublicationError::Json(e) => {
                let t = serde_json_error_text(e);
                let r = String::from_str("JSON error: ").concat(t.as_str());
                assert(r@.subrange(0, "JSON error: "@.len() as int) =~= "JSON error: "@);
                r
            },
            PublicationError::InvalidUuid(s) => String::from_str("invalid UUID: ").concat(s.as_str()),
        }
    }
}

} // verus!

verus! {

/// Width of a fallback thumbnail, in pixels.
pub const THUMBNAIL_WIDTH: u32 = 1280;

/// Height of a fallback thumbnail, in pixels.
pub const THUMBNAIL_HEIGHT: u32 = 720;

/// The fallback thumbnail of a MIME type: a 1280×720 card in the type's
/// accent colour, with `KLASS`, `Generated Media` and the type's label.
pub open spec fn fallback_svg(mime: Seq<char>) -> Seq<char> {
    "<svg xmlns=\"http://www.w3.org/2000/svg\" width=\"1280\" height=\"720\" viewBox=\"0 0 1280 720\">\n  <rect width=\"1280\" height=\"720\" fill=\""@
        + accent_of(mime)
        + "22\" rx=\"24\"/>\n  <rect x=\"60\" y=\"60\" width=\"1160\" height=\"600\" rx=\"16\" fill=\"white\" stroke=\""@
        + accent_of(mime)
        + "\" stroke-width=\"3\"/>\n  <text x=\"640\" y=\"320\" font-family=\"Arial,sans-serif\" font-size=\"64\" fill=\""@
        + accent_of(mime)
        + "\" text-anchor=\"middle\" font-weight=\"bold\">KLASS</text>\n  <text x=\"640\" y=\"400\" font-family=\"Arial,sans-serif\" font-size=\"36\" fill=\"#555\" text-anchor=\"middle\">Generated Media</text>\n  <text x=\"640\" y=\"460\" font-family=\"Arial,sans-serif\" font-size=\"28\" fill=\"#888\" text-anchor=\"middle\">"@
        + label_of(mime)
        + "</text>\n</svg>"@
}

/// Thumbnail generator that draws an SVG card when the renderer gave no
/// thumbnail.
pub struct SvgFallbackGenerator;

impl SvgFallbackGenerator {
    /// The fallback thumbnail of an artifact, as UTF-8 bytes, with its MIME
    /// type `image/svg+xml`; the artifact's bytes are not read.
    pub fn generate(&self, artifact: &[u8], mime_type: &str) -> (r: Result<(Vec<u8>, String), PublicationError>)
        ensures
            r matches Ok((bytes, mime)) && bytes@ == vstd::utf8::encode_utf8(fallback_svg(mime_type@))
                && mime@ == "image/svg+xml"@,
    {
        let accent = thumbnail_accent(mime_type);
        let label = mime_label(mime_type);
        let svg = String::from_str("<svg xmlns=\"http://www.w3.org/2000/svg\" width=\"1280\" height=\"720\" viewBox=\"0 0 1280 720\">\n  <rect width=\"1280\" height=\"720\" fill=\"");
        let svg = svg.concat(accent);
        let svg = svg.concat("22\" rx=\"24\"/>\n  <rect x=\"60\" y=\"60\" width=\"1160\" height=\"600\" rx=\"16\" fill=\"white\" stroke=\"");
        let svg = svg.concat(accent);
        let svg = svg.concat("\" stroke-width=\"3\"/>\n  <text x=\"640\" y=\"320\" font-family=\"Arial,sans-serif\" font-size=\"64\" fill=\"");
        let svg = svg.concat(accent);
        let svg = svg.concat("\" text-anchor=\"middle\" font-weight=\"bold\">KLASS</text>\n  <text x=\"640\" y=\"400\" font-family=\"Arial,sans-serif\" font-size=\"36\" fill=\"#555\" text-anchor=\"middle\">Generated Media</text>\n  <text x=\"640\" y=\"460\" font-family=\"Arial,sans-serif\" font-size=\"28\" fill=\"#888\" text-anchor=\"middle\">");
        let svg = svg.concat(label);
        let svg = svg.concat("</text>\n</svg>");
        let bytes = svg.as_str().as_bytes_vec();
        Ok((bytes, String::from_str("image/svg+xml")))
    }
}

/// The delivery payload stored on a published generation: the delivery
/// schema version, the renderer as provider (no LLM), no fallback, and the
/// artifact's URL, thumbnail, output type and MIME type.
pub fn build_delivery_payload(
    file_url: &str,
    thumbnail_url: Option<&str>,
    output_type: &str,
    mime_type: &str,
) -> (r: JsonValue)
    ensures
        json_str(json_get(r, "schema_version"@)) == Some("media_delivery_response.v1"@),
        json_str(json_get_opt(json_get(r, "artifact"@), "file_url"@)) == Some(file_url@),
        json_str(json_get_opt(json_get(r, "artifact"@), "output_type"@)) == Some(output_type@),
        json_str(json_get_opt(json_get(r, "artifact"@), "mime_type"@)) == Some(mime_type@),
        match thumbnail_url {
            Some(t) => json_str(json_get_opt(json_get(r, "artifact"@), "thumbnail_url"@)) == Some(t@),
            None => json_get_opt(json_get(r, "artifact"@), "thumbnail_url"@) == Some(JsonValue::Null),
        },
        json_str(json_get_opt(json_get(r, "response_meta"@), "provider"@)) == Some("python-renderer"@),
        json_get_opt(json_get(r, "response_meta"@), "llm_used"@) == Some(JsonValue::Bool(false)),
        json_get_opt(json_get(r, "fallback"@), "triggered"@) == Some(JsonValue::Bool(false)),
{
    let meta = vec![
        (String::from_str("provider"), JsonValue::Str(String::from_str("python-renderer"))),
        (String::from_str("model"), JsonValue::Str(String::from_str("hf-space-v3"))),
        (String::from_str("llm_used"), JsonValue::Bool(false)),
    ];
    let fallback = vec![
        (String::from_str("triggered"), JsonValue::Bool(false)),
        (String::from_str("reason_code"), JsonValue::Null),
        (String::from_str("action"), JsonValue::Null),
    ];
    let thumb = match thumbnail_url {
        Some(t) => JsonValue::Str(String::from_str(t)),
        None => JsonValue::Null,
    };
    let artifact = vec![
        (String::from_str("file_url"), JsonValue::Str(String::from_str(file_url))),
        (String::from_str("thumbnail_url"), thumb),
        (String::from_str("output_type"), JsonValue::Str(String::from_str(output_type))),
        (String::from_str("mime_type"), JsonValue::Str(String::from_str(mime_type))),
    ];
    let members = vec![
        (String::from_str("schema_version"), JsonValue::Str(String::from_str("media_delivery_response.v1"))),
        (String::from_str("response_meta"), JsonValue::Object(meta)),
        (String::from_str("fallback"), JsonValue::Object(fallback)),
        (String::from_str("artifact"), JsonValue::Object(artifact)),
    ];
    proof {
        reveal_strlit("schema_version");
        reveal_strlit("response_meta");
        reveal_strlit("fallback");
        reveal_strlit("artifact");
        reveal_strlit("provider");
        reveal_strlit("model");
        reveal_strlit("llm_used");
        reveal_strlit("triggered");
        reveal_strlit("reason_code");
        reveal_strlit("action");
        reveal_strlit("file_url");
        reveal_strlit("thumbnail_url");
        reveal_strlit("output_type");
        reveal_strlit("mime_type");
        lemma_member_steps(members@);
        lemma_member_steps(members@.drop_first());
        lemma_member_steps(members@.drop_first().drop_first());
        assert("artifact"@[0] != "fallback"@[0]);
        assert("artifact"@.len() != "schema_version"@.len() && "artifact"@.len() != "response_meta"@.len());
        lemma_member_steps(artifact@);
        lemma_member_steps(artifact@.drop_first());
        lemma_member_steps(artifact@.drop_first().drop_first());
        assert("mime_type"@.len() != "output_type"@.len() && "mime_type"@.len() != "thumbnail_url"@.len());
        assert("mime_type"@[0] != "file_url"@[0] && "output_type"@[0] != "file_url"@[0]);
        lemma_member_steps(meta@);
        lemma_member_steps(meta@.drop_first());
        assert("llm_used"@.len() != "provider"@.len() || "llm_used"@[0] != "provider"@[0]);
        assert("llm_used"@[0] != "model"@[0]);
        lemma_member_steps(fallback@);
        lemma_member_steps(artifact@);
    }
    JsonValue::Object(members)
}

/// Looking a key up in a short member list steps through the members.
proof fn lemma_member_steps(m: Seq<(String, JsonValue)>)
    ensures
        forall|k: Seq<char>| m.len() > 0 && m[0].0@ != k ==> #[trigger] member_value(m, k) == member_value(m.drop_first(), k),
        m.len() > 1 ==> m.drop_first()[0] == m[1],
        m.len() > 2 ==> m.drop_first().drop_first()[0] == m[2],
        m.len() > 3 ==> m.drop_first().drop_first().drop_first()[0] == m[3],
{
}

} // verus!

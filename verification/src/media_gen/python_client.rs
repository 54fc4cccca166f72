//! Rules of the renderer client: where jobs go, what a job request holds,
//! and how a rejected submission is reported.
use vstd::prelude::*;
use vstd::string::*;

use crate::json::{JsonValue, get, as_str, json_get, json_get_opt, json_str, member_value};
use crate::text::{chars_of, string_of, trim_end_char, strip_trailing, seq_ends_with, ends_with_chars, seq_starts_with};
use crate::media_gen::publication::{reqwest_error_text, sqlx_error_text, serde_json_error_text};

verus! {

/// Job submission path on the renderer.
pub const JOBS_PATH: &'static str = "/v1/jobs";

/// Path on this gateway where the renderer reports job completion.
pub const WEBHOOK_PATH: &'static str = "/internal/media-generations/webhook";

/// Error code of an unreachable or overloaded renderer.
pub const ERROR_PYTHON_SERVICE_UNAVAILABLE: &'static str = "PYTHON_SERVICE_UNAVAILABLE";

/// Error code of a request that the renderer refused.
pub const ERROR_ARTIFACT_INVALID: &'static str = "ARTIFACT_INVALID";

/// Errors of the renderer client.
#[derive(Debug)]
pub enum PythonClientError {
    /// Generation not found.
    NotFound(String),
    /// Generation spec payload is missing.
    MissingSpec(String),
    /// HTTP request failed (transport, timeout).
    Http(reqwest::Error),
    /// The renderer answered with an error.
    RendererError { code: String, message: String, status: u16, raw_body: JsonValue },
    /// Database error.
    Database(sqlx::Error),
    /// JSON error.
    Json(serde_json::Error),
    /// Malformed generation id.
    InvalidUuid(String),
}

impl PythonClientError {
    /// Human-readable description of the error.
    pub fn message(&self) -> (r: String)
        ensures
            match self {
                PythonClientError::NotFound(s) => r@ == "generation not found: "@ + s@,
                PythonClientError::MissingSpec(s) => r@ == "generation spec payload missing for "@ + s@,
                PythonClientError::Http(_) => seq_starts_with(r@, "HTTP request failed: "@),
                PythonClientError::RendererError { code, message, .. } =>
                    r@ == "Python renderer error ("@ + code@ + "): "@ + message@,
                PythonClientError::Database(_) => seq_starts_with(r@, "database error: "@),
                PythonClientError::Json(_) => seq_starts_with(r@, "JSON error: "@),
                PythonClientError::InvalidUuid(s) => r@ == "invalid UUID: "@ + s@,
            },
    {
        match self {
            PythonClientError::NotFound(s) => String::from_str("generation not found: ").concat(s.as_str()),
            PythonClientError::MissingSpec(s) =>
                String::from_str("generation spec payload missing for ").concat(s.as_str()),
            PythonClientError::Http(e) => {
                let t = reqwest_error_text(e);
                let r = String::from_str("HTTP request failed: ").concat(t.as_str());
                assert(r@.subrange(0, "HTTP request failed: "@.len() as int) =~= "HTTP request failed: "@);
                r
            },
            PythonClientError::RendererError { code, message, .. } => {
                let r = String::from_str("Python renderer error (").concat(code.as_str());
                let r = r.concat("): ");
                r.concat(message.as_str())
            },
            PythonClientError::Database(e) => {
                let t = sqlx_error_text(e);
                let r = String::from_str("database error: ").concat(t.as_str());
                assert(r@.subrange(0, "database error: "@.len() as int) =~= "database error: "@);
                r
            },
            PythonClientError::Json(e) => {
                let t = serde_json_error_text(e);
                let r = String::from_str("JSON error: ").concat(t.as_str());
                assert(r@.subrange(0, "JSON error: "@.len() as int) =~= "JSON error: "@);
                r
            },
            PythonClientError::InvalidUuid(s) => String::from_str("invalid UUID: ").concat(s.as_str()),
        }
    }
}

/// The renderer base URL of a configured URL: trailing `/` go, and so does
/// a trailing `/v1/jobs` (with the `/` before it), since the jobs path is
/// appended to the base later.
pub open spec fn renderer_base(raw: Seq<char>) -> Seq<char> {
    let t = strip_trailing(raw, '/');
    if seq_ends_with(t, "/v1/jobs"@) {
        strip_trailing(t.subrange(0, t.len() - 8), '/')
    } else {
        t
    }
}

/// The renderer base URL of a configured URL (see `renderer_base`).
pub fn renderer_base_url(raw: &str) -> (r: String)
    ensures
        r@ == renderer_base(raw@),
{
    let c = chars_of(raw);
    let t = trim_end_char(c.as_slice(), '/');
    let jobs = chars_of("/v1/jobs");
    proof {
        reveal_strlit("/v1/jobs");
    }
    if ends_with_chars(t.as_slice(), jobs.as_slice()) {
        let mut head: Vec<char> = Vec::new();
        let n = t.len() - jobs.len();
        let mut k: usize = 0;
        while k < n
            invariant
                k <= n,
                n == t.len() - 8,
                head@ =~= t@.take(k as int),
            decreases n - k,
        {
            head.push(t[k]);
            k = k + 1;
        }
        assert(head@ =~= t@.subrange(0, t@.len() - 8));
        let h = trim_end_char(head.as_slice(), '/');
        string_of(h.as_slice())
    } else {
        string_of(t.as_slice())
    }
}

/// A base URL without its trailing `/`.
pub fn trimmed_base_url(raw: &str) -> (r: String)
    ensures
        r@ == strip_trailing(raw@, '/'),
{
    let c = chars_of(raw);
    let t = trim_end_char(c.as_slice(), '/');
    string_of(t.as_slice())
}

/// The job submission URL of a renderer base URL.
pub fn jobs_url(base_url: &str) -> (r: String)
    ensures
        r@ == base_url@ + "/v1/jobs"@,
{
    String::from_str(base_url).concat("/v1/jobs")
}

/// The completion callback URL of a gateway base URL.
pub fn webhook_url(webhook_base_url: &str) -> (r: String)
    ensures
        r@ == webhook_base_url@ + "/internal/media-generations/webhook"@,
{
    String::from_str(webhook_base_url).concat("/internal/media-generations/webhook")
}

/// At least one attempt.
pub fn retry_attempts(configured: u32) -> (r: u32)
    ensures
        r == if configured >= 1 { configured } else { 1 },
{
    if configured >= 1 { configured } else { 1 }
}

/// The body of a job submission: the generation and job ids, the
/// generation spec and the callback URL.
pub fn build_job_request_body(
    generation_id: &str,
    job_id: &str,
    generation_spec: JsonValue,
    webhook_url: &str,
) -> (r: JsonValue)
    ensures
        json_str(json_get(r, "generation_id"@)) == Some(generation_id@),
        json_str(json_get(r, "job_id"@)) == Some(job_id@),
        json_get(r, "generation_spec"@) == Some(generation_spec),
        json_str(json_get(r, "webhook_url"@)) == Some(webhook_url@),
        r matches JsonValue::Object(m) && m.len() == 4,
{
    let mut members: Vec<(String, JsonValue)> = Vec::new();
    members.push((String::from_str("generation_id"), JsonValue::Str(String::from_str(generation_id))));
    members.push((String::from_str("job_id"), JsonValue::Str(String::from_str(job_id))));
    members.push((String::from_str("generation_spec"), generation_spec));
    members.push((String::from_str("webhook_url"), JsonValue::Str(String::from_str(webhook_url))));
    proof {
        reveal_strlit("generation_id");
        reveal_strlit("job_id");
        reveal_strlit("generation_spec");
        reveal_strlit("webhook_url");
        let m = members@;
        assert(m[0].0@ == "generation_id"@);
        assert(m.drop_first()[0] == m[1]);
        assert(m.drop_first().drop_first()[0] == m[2]);
        assert(m.drop_first().drop_first().drop_first()[0] == m[3]);
        assert("generation_id"@ != "job_id"@ && "generation_id"@.len() != "generation_spec"@.len());
        assert("job_id"@ != "generation_spec"@);
        assert(member_value(m, "job_id"@) == member_value(m.drop_first(), "job_id"@));
        assert(member_value(m, "generation_spec"@) == member_value(m.drop_first(), "generation_spec"@));
        assert(member_value(m.drop_first(), "generation_spec"@) == member_value(m.drop_first().drop_first(), "generation_spec"@));
        let w = "webhook_url"@;
        assert(w.len() == 11 && "generation_id"@.len() == 13 && "job_id"@.len() == 6
            && "generation_spec"@.len() == 15);
        assert(member_value(m, w) == member_value(m.drop_first(), w));
        assert(member_value(m.drop_first(), w) == member_value(m.drop_first().drop_first(), w));
        assert(member_value(m.drop_first().drop_first(), w)
            == member_value(m.drop_first().drop_first().drop_first(), w));
    }
    JsonValue::Object(members)
}

/// The error code of a rejected submission: the body's
/// `error.laravel_error_code_hint`, else its `error_code` (each when a
/// non-empty string), else `PYTHON_SERVICE_UNAVAILABLE` for 429 and 5xx,
/// else `ARTIFACT_INVALID`.
pub open spec fn error_code_for(status: u16, body: JsonValue) -> Seq<char> {
    let hint = json_str(json_get_opt(json_get(body, "error"@), "laravel_error_code_hint"@));
    let code = json_str(json_get(body, "error_code"@));
    if hint is Some && hint.unwrap().len() > 0 {
        hint.unwrap()
    } else if code is Some && code.unwrap().len() > 0 {
        code.unwrap()
    } else if status == 429 || (500 <= status && status <= 599) {
        "PYTHON_SERVICE_UNAVAILABLE"@
    } else {
        "ARTIFACT_INVALID"@
    }
}

/// The error code of a rejected submission (see `error_code_for`).
pub fn map_error_code(status: u16, body: &JsonValue) -> (r: String)
    ensures
        r@ == error_code_for(status, *body),
{
    let error = get(body, "error");
    let hint = match error {
        Some(e) => as_str(get(e, "laravel_error_code_hint")),
        None => None,
    };
    match hint {
        Some(h) => {
            if h.unicode_len() > 0 {
                return String::from_str(h);
            }
        },
        None => {},
    }
    match as_str(get(body, "error_code")) {
        Some(c) => {
            if c.unicode_len() > 0 {
                return String::from_str(c);
            }
        },
        None => {},
    }
    if status == 429 || (500 <= status && status <= 599) {
        String::from_str(ERROR_PYTHON_SERVICE_UNAVAILABLE)
    } else {
        String::from_str(ERROR_ARTIFACT_INVALID)
    }
}

/// The message of a rejected submission: `error.message`, else `message`,
/// else `error_message` (each when a string), else a generic text.
pub open spec fn error_message_for(body: JsonValue) -> Seq<char> {
    let nested = json_str(json_get_opt(json_get(body, "error"@), "message"@));
    let top = json_str(json_get(body, "message"@));
    let other = json_str(json_get(body, "error_message"@));
    if nested is Some {
        nested.unwrap()
    } else if top is Some {
        top.unwrap()
    } else if other is Some {
        other.unwrap()
    } else {
        "Unknown error from Python renderer"@
    }
}

/// The message of a rejected submission (see `error_message_for`).
pub fn extract_error_message(body: &JsonValue) -> (r: String)
    ensures
        r@ == error_message_for(*body),
{
    let nested = match get(body, "error") {
        Some(e) => as_str(get(e, "message")),
        None => None,
    };
    match nested {
        Some(m) => return String::from_str(m),
        None => {},
    }
    match as_str(get(body, "message")) {
        Some(m) => return String::from_str(m),
        None => {},
    }
    match as_str(get(body, "error_message")) {
        Some(m) => String::from_str(m),
        None => String::from_str("Unknown error from Python renderer"),
    }
}

/// The outcome of a job submission from the renderer's answer: accepted
/// (202, or any 2xx) is success; anything else is a renderer error with
/// the mapped code and message and the body kept.
pub fn submission_outcome(status: u16, body: JsonValue) -> (r: Result<(), PythonClientError>)
    ensures
        (200 <= status && status <= 299) ==> r is Ok,
        !(200 <= status && status <= 299) ==> (r matches Err(PythonClientError::RendererError {
            code,
            message,
            status: s,
            raw_body,
        }) && code@ == error_code_for(status, body) && message@ == error_message_for(body)
            && s == status && raw_body == body),
{
    if status == 202 || (200 <= status && status <= 299) {
        Ok(())
    } else {
        let code = map_error_code(status, &body);
        let message = extract_error_message(&body);
        Err(PythonClientError::RendererError { code, message, status, raw_body: body })
    }
}

} // verus!

//! LLM request ledger: what an entry records, and the entries of
//! completed and failed requests.
use vstd::prelude::*;
use vstd::string::*;

use crate::governance::money::Money;
use crate::governance::time::Timestamp;
use crate::json::JsonValue;

verus! {

/// Cache outcome of an LLM request.
#[derive(Debug, Clone, Copy, PartialEq, Eq)]
pub enum CacheStatus {
    Hit,
    Miss,
    Bypass,
}

impl CacheStatus {
    /// Wire name of the cache status.
    pub fn as_str(&self) -> (r: &'static str)
        ensures
            r@ == match self {
                CacheStatus::Hit => "hit"@,
                CacheStatus::Miss => "miss"@,
                CacheStatus::Bypass => "bypass"@,
            },
    {
        match self {
            CacheStatus::Hit => "hit",
            CacheStatus::Miss => "miss",
            CacheStatus::Bypass => "bypass",
        }
    }
}

} // verus!

verus! {

/// Insert of a ledger entry, returning the stored row.
pub const INSERT_SQL: &'static str = "
INSERT INTO llm_request_ledger (
    request_id, generation_id, route, request_type,
    provider, primary_provider, model, requested_model,
    latency_ms, retry_count, cache_status, final_status,
    error_class, error_code, fallback_used, fallback_reason,
    attempted_providers, upstream_request_id, provider_response_id,
    provider_model_version, finish_reason, candidate_index,
    input_tokens, output_tokens, total_tokens, estimated_cost_usd,
    cache_key, metadata, created_at, completed_at
) VALUES (
    $1, $2, $3, $4,
    $5, $6, $7, $8,
    $9, $10, $11, $12,
    $13, $14, $15, $16,
    $17, $18, $19,
    $20, $21, $22,
    $23, $24, $25, $26,
    $27, $28, NOW(), $29
)
RETURNING id, request_id, generation_id, route, request_type,
          provider, primary_provider, model, requested_model,
          latency_ms, retry_count, cache_status, final_status,
          error_class, error_code, fallback_used, fallback_reason,
          attempted_providers, upstream_request_id, provider_response_id,
          provider_model_version, finish_reason, candidate_index,
          input_tokens, output_tokens, total_tokens, estimated_cost_usd,
          cache_key, metadata, created_at, completed_at
";

} // verus!

verus! {

/// A ledger entry to insert.
#[derive(Debug)]
pub struct LedgerRecordInput {
    pub request_id: String,
    pub generation_id: String,
    pub route: String,
    pub request_type: String,
    pub provider: String,
    pub primary_provider: String,
    pub model: String,
    pub requested_model: String,
    pub latency_ms: Option<Money>,
    pub retry_count: i32,
    pub cache_status: CacheStatus,
    pub final_status: String,
    pub error_class: Option<String>,
    pub error_code: Option<String>,
    pub fallback_used: bool,
    pub fallback_reason: Option<String>,
    pub attempted_providers: Vec<String>,
    pub upstream_request_id: Option<String>,
    pub provider_response_id: Option<String>,
    pub provider_model_version: Option<String>,
    pub finish_reason: Option<String>,
    pub candidate_index: Option<i32>,
    pub input_tokens: Option<i64>,
    pub output_tokens: Option<i64>,
    pub total_tokens: Option<i64>,
    pub estimated_cost_usd: Option<Money>,
    pub cache_key: Option<String>,
    pub metadata: JsonValue,
    /// When the request completed (set on success and on failure).
    pub completed_at: Option<Timestamp>,
}

/// The text of an optional borrowed string.
pub open spec fn opt_text(v: Option<&str>) -> Option<Seq<char>> {
    match v {
        Some(s) => Some(s@),
        None => None,
    }
}

/// The text of an optional owned string.
pub open spec fn opt_string_text(v: Option<String>) -> Option<Seq<char>> {
    match v {
        Some(s) => Some(s@),
        None => None,
    }
}

fn owned(v: Option<&str>) -> (r: Option<String>)
    ensures
        opt_string_text(r) == opt_text(v),
{
    match v {
        Some(s) => Some(String::from_str(s)),
        None => None,
    }
}

/// The entry of a request that completed at `now`: status `completed`, the
/// given metrics, no error and no provider response details.
#[allow(clippy::too_many_arguments)]
pub fn completed_entry(
    request_id: &str,
    generation_id: &str,
    route: &str,
    request_type: &str,
    provider: &str,
    primary_provider: &str,
    model: &str,
    requested_model: &str,
    latency_ms: Option<Money>,
    retry_count: i32,
    cache_status: CacheStatus,
    input_tokens: Option<i64>,
    output_tokens: Option<i64>,
    total_tokens: Option<i64>,
    estimated_cost_usd: Option<Money>,
    fallback_used: bool,
    fallback_reason: Option<&str>,
    attempted_providers: Vec<String>,
    cache_key: Option<&str>,
    metadata: JsonValue,
    now: Timestamp,
) -> (r: LedgerRecordInput)
    ensures
        r.request_id@ == request_id@,
        r.generation_id@ == generation_id@,
        r.route@ == route@,
        r.request_type@ == request_type@,
        r.provider@ == provider@,
        r.primary_provider@ == primary_provider@,
        r.model@ == model@,
        r.requested_model@ == requested_model@,
        r.latency_ms == latency_ms,
        r.retry_count == retry_count,
        r.cache_status == cache_status,
        r.final_status@ == "completed"@,
        r.error_class is None,
        r.error_code is None,
        r.fallback_used == fallback_used,
        opt_string_text(r.fallback_reason) == opt_text(fallback_reason),
        r.attempted_providers == attempted_providers,
        r.upstream_request_id is None,
        r.provider_response_id is None,
        r.provider_model_version is None,
        r.finish_reason is None,
        r.candidate_index is None,
        r.input_tokens == input_tokens,
        r.output_tokens == output_tokens,
        r.total_tokens == total_tokens,
        r.estimated_cost_usd == estimated_cost_usd,
        opt_string_text(r.cache_key) == opt_text(cache_key),
        r.metadata == metadata,
        r.completed_at == Some(now),
{
    LedgerRecordInput {
        request_id: String::from_str(request_id),
        generation_id: String::from_str(generation_id),
        route: String::from_str(route),
        request_type: String::from_str(request_type),
        provider: String::from_str(provider),
        primary_provider: String::from_str(primary_provider),
        model: String::from_str(model),
        requested_model: String::from_str(requested_model),
        latency_ms,
        retry_count,
        cache_status,
        final_status: String::from_str("completed"),
        error_class: None,
        error_code: None,
        fallback_used,
        fallback_reason: owned(fallback_reason),
        attempted_providers,
        upstream_request_id: None,
        provider_response_id: None,
        provider_model_version: None,
        finish_reason: None,
        candidate_index: None,
        input_tokens,
        output_tokens,
        total_tokens,
        estimated_cost_usd,
        cache_key: owned(cache_key),
        metadata,
        completed_at: Some(now),
    }
}

/// The entry of a request that failed at `now`: status `failed`, the error
/// class and code, no latency, retries, token counts, cost or cache key.
#[allow(clippy::too_many_arguments)]
pub fn failed_entry(
    request_id: &str,
    generation_id: &str,
    route: &str,
    request_type: &str,
    provider: &str,
    primary_provider: &str,
    model: &str,
    requested_model: &str,
    cache_status: CacheStatus,
    error_class: Option<&str>,
    error_code: Option<&str>,
    fallback_used: bool,
    fallback_reason: Option<&str>,
    attempted_providers: Vec<String>,
    metadata: JsonValue,
    now: Timestamp,
) -> (r: LedgerRecordInput)
    ensures
        r.request_id@ == request_id@,
        r.generation_id@ == generation_id@,
        r.route@ == route@,
        r.request_type@ == request_type@,
        r.provider@ == provider@,
        r.primary_provider@ == primary_provider@,
        r.model@ == model@,
        r.requested_model@ == requested_model@,
        r.latency_ms is None,
        r.retry_count == 0,
        r.cache_status == cache_status,
        r.final_status@ == "failed"@,
        opt_string_text(r.error_class) == opt_text(error_class),
        opt_string_text(r.error_code) == opt_text(error_code),
        r.fallback_used == fallback_used,
        opt_string_text(r.fallback_reason) == opt_text(fallback_reason),
        r.attempted_providers == attempted_providers,
        r.upstream_request_id is None,
        r.provider_response_id is None,
        r.provider_model_version is None,
        r.finish_reason is None,
        r.candidate_index is None,
        r.input_tokens is None,
        r.output_tokens is None,
        r.total_tokens is None,
        r.estimated_cost_usd is None,
        r.cache_key is None,
        r.metadata == metadata,
        r.completed_at == Some(now),
{
    LedgerRecordInput {
        request_id: String::from_str(request_id),
        generation_id: String::from_str(generation_id),
        route: String::from_str(route),
        request_type: String::from_str(request_type),
        provider: String::from_str(provider),
        primary_provider: String::from_str(primary_provider),
        model: String::from_str(model),
        requested_model: String::from_str(requested_model),
        latency_ms: None,
        retry_count: 0,
        cache_status,
        final_status: String::from_str("failed"),
        error_class: owned(error_class),
        error_code: owned(error_code),
        fallback_used,
        fallback_reason: owned(fallback_reason),
        attempted_providers,
        upstream_request_id: None,
        provider_response_id: None,
        provider_model_version: None,
        finish_reason: None,
        candidate_index: None,
        input_tokens: None,
        output_tokens: None,
        total_tokens: None,
        estimated_cost_usd: None,
        cache_key: None,
        metadata,
        completed_at: Some(now),
    }
}

} // verus!

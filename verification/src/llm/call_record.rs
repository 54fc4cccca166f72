//! What the ledger records of a governed LLM call: an answer served from
//! the cache, a provider answer (with its token usage and cost) and a
//! provider failure, each with the metadata the services attach.
use vstd::prelude::*;
use vstd::string::*;

use crate::governance::ledger::{completed_entry, failed_entry, CacheStatus, LedgerRecordInput, opt_string_text, opt_text};
use crate::governance::money::{Money, money_zero};
use crate::governance::time::Timestamp;
use crate::json::{JsonValue, json_get, member_value};
use crate::llm::pipeline::CompletionPlan;

verus! {

/// Token usage as a provider reports it; each count may be missing.
#[derive(Debug, Clone, Copy)]
pub struct TokenUsage {
    pub prompt_tokens: Option<i64>,
    pub completion_tokens: Option<i64>,
    pub total_tokens: Option<i64>,
}

/// The token counts recorded for an answer: none without a usage report,
/// else each reported count, a missing one counting as zero.
#[derive(Debug, Clone, Copy, PartialEq, Eq, Structural)]
pub struct UsageCounts {
    pub input: Option<i64>,
    pub output: Option<i64>,
    pub total: Option<i64>,
}

/// A reported count, zero when missing.
pub open spec fn count_or_zero(v: Option<i64>) -> i64 {
    match v {
        Some(n) => n,
        None => 0,
    }
}

/// The counts recorded for a usage report.
pub open spec fn counts_of(usage: Option<TokenUsage>) -> UsageCounts {
    match usage {
        None => UsageCounts { input: None, output: None, total: None },
        Some(u) => UsageCounts {
            input: Some(count_or_zero(u.prompt_tokens)),
            output: Some(count_or_zero(u.completion_tokens)),
            total: Some(count_or_zero(u.total_tokens)),
        },
    }
}

/// The token counts recorded for a usage report (see `counts_of`).
pub fn usage_counts(usage: Option<TokenUsage>) -> (r: UsageCounts)
    ensures
        r == counts_of(usage),
{
    match usage {
        None => UsageCounts { input: None, output: None, total: None },
        Some(u) => UsageCounts {
            input: Some(match u.prompt_tokens { Some(n) => n, None => 0 }),
            output: Some(match u.completion_tokens { Some(n) => n, None => 0 }),
            total: Some(match u.total_tokens { Some(n) => n, None => 0 }),
        },
    }
}

/// The latency recorded for a call that took `millis` milliseconds: the
/// decimal `millis / 1000`.
pub fn elapsed_latency(millis: i64) -> (r: Money)
    ensures
        r.mantissa == millis,
        r.scale == 3,
{
    Money { mantissa: millis as i128, scale: 3 }
}

/// The model a provider says it answered with, else the one asked for.
pub open spec fn answering(response_model: Option<&str>, asked: &str) -> Seq<char> {
    match response_model {
        Some(m) => m@,
        None => asked@,
    }
}

/// The text of a member of `v` that is a string value.
pub open spec fn member_text(v: JsonValue, key: Seq<char>) -> Option<Seq<char>> {
    match json_get(v, key) {
        Some(JsonValue::Str(s)) => Some(s@),
        _ => None,
    }
}

/// The metadata of an answer served from the cache:
/// `{source, cache_hit: true, cache_source}`.
pub fn hit_metadata(source: &str, cache_source: &str) -> (r: JsonValue)
    ensures
        member_text(r, "source"@) == Some(source@),
        json_get(r, "cache_hit"@) == Some(JsonValue::Bool(true)),
        member_text(r, "cache_source"@) == Some(cache_source@),
{
    let members = vec![
        (String::from_str("source"), JsonValue::Str(String::from_str(source))),
        (String::from_str("cache_hit"), JsonValue::Bool(true)),
        (String::from_str("cache_source"), JsonValue::Str(String::from_str(cache_source))),
    ];
    proof {
        reveal_strlit("source");
        reveal_strlit("cache_hit");
        reveal_strlit("cache_source");
        reveal_with_fuel(member_value, 4);
        assert("cache_hit"@.len() != "source"@.len());
        assert("cache_source"@.len() != "source"@.len());
        assert("cache_source"@.len() != "cache_hit"@.len());
    }
    JsonValue::Object(members)
}

/// The metadata of a provider answer:
/// `{source, cache_hit: false, fallback_used}`.
pub fn answer_metadata(source: &str, fallback_used: bool) -> (r: JsonValue)
    ensures
        member_text(r, "source"@) == Some(source@),
        json_get(r, "cache_hit"@) == Some(JsonValue::Bool(false)),
        json_get(r, "fallback_used"@) == Some(JsonValue::Bool(fallback_used)),
{
    let members = vec![
        (String::from_str("source"), JsonValue::Str(String::from_str(source))),
        (String::from_str("cache_hit"), JsonValue::Bool(false)),
        (String::from_str("fallback_used"), JsonValue::Bool(fallback_used)),
    ];
    proof {
        reveal_strlit("source");
        reveal_strlit("cache_hit");
        reveal_strlit("fallback_used");
        reveal_with_fuel(member_value, 4);
        assert("cache_hit"@.len() != "source"@.len());
        assert("fallback_used"@.len() != "source"@.len());
        assert("fallback_used"@.len() != "cache_hit"@.len());
    }
    JsonValue::Object(members)
}

/// The metadata of a provider failure: `{source, error}`.
pub fn failure_metadata(source: &str, error: &str) -> (r: JsonValue)
    ensures
        member_text(r, "source"@) == Some(source@),
        member_text(r, "error"@) == Some(error@),
{
    let members = vec![
        (String::from_str("source"), JsonValue::Str(String::from_str(source))),
        (String::from_str("error"), JsonValue::Str(String::from_str(error))),
    ];
    proof {
        reveal_strlit("source");
        reveal_strlit("error");
        reveal_with_fuel(member_value, 3);
        assert("error"@.len() != "source"@.len());
    }
    JsonValue::Object(members)
}

/// The entry of an answer served from the cache at `now`: the provider
/// and model as asked, a cache hit, no retries, no token counts, zero
/// cost, no fallback, the provider as the only one tried.
#[allow(clippy::too_many_arguments)]
pub fn cache_hit_entry(
    request_id: &str,
    generation_id: &str,
    route: &str,
    request_type: &str,
    provider: &str,
    model: &str,
    latency: Money,
    cache_key: &str,
    metadata: JsonValue,
    now: Timestamp,
) -> (r: LedgerRecordInput)
    ensures
        r.request_id@ == request_id@,
        r.generation_id@ == generation_id@,
        r.route@ == route@,
        r.request_type@ == request_type@,
        r.provider@ == provider@,
        r.primary_provider@ == provider@,
        r.model@ == model@,
        r.requested_model@ == model@,
        r.latency_ms == Some(latency),
        r.retry_count == 0,
        r.cache_status == CacheStatus::Hit,
        r.final_status@ == "completed"@,
        r.input_tokens is None && r.output_tokens is None && r.total_tokens is None,
        r.estimated_cost_usd matches Some(c) && c.mantissa == 0,
        !r.fallback_used,
        r.fallback_reason is None,
        r.attempted_providers@.len() == 1 && r.attempted_providers@[0]@ == provider@,
        opt_string_text(r.cache_key) == Some(cache_key@),
        r.metadata == metadata,
        r.completed_at == Some(now),
        r.error_class is None && r.error_code is None,
{
    let tried = vec![String::from_str(provider)];
    completed_entry(
        request_id,
        generation_id,
        route,
        request_type,
        provider,
        provider,
        model,
        model,
        Some(latency),
        0,
        CacheStatus::Hit,
        None,
        None,
        None,
        Some(money_zero()),
        false,
        None,
        tried,
        Some(cache_key),
        metadata,
        now,
    )
}

/// The entry of a provider answer at `now`: the provider and model the
/// answer names (else those asked for) beside the ones asked for, the
/// cache status and fallback of the completion plan, the token counts of
/// the usage report, the estimated cost, the contract error that made the
/// fallback stand in, the provider as the only one tried.
#[allow(clippy::too_many_arguments)]
pub fn answer_entry(
    request_id: &str,
    generation_id: &str,
    route: &str,
    request_type: &str,
    provider: &str,
    model: &str,
    response_model: Option<&str>,
    latency: Money,
    plan: CompletionPlan,
    usage: Option<TokenUsage>,
    cost: Money,
    fallback_error: Option<&str>,
    cache_key: &str,
    metadata: JsonValue,
    now: Timestamp,
) -> (r: LedgerRecordInput)
    ensures
        r.request_id@ == request_id@,
        r.generation_id@ == generation_id@,
        r.route@ == route@,
        r.request_type@ == request_type@,
        r.provider@ == answering(response_model, provider),
        r.primary_provider@ == provider@,
        r.model@ == answering(response_model, model),
        r.requested_model@ == model@,
        r.latency_ms == Some(latency),
        r.retry_count == 0,
        r.cache_status == plan.cache_status,
        r.final_status@ == "completed"@,
        r.input_tokens == counts_of(usage).input,
        r.output_tokens == counts_of(usage).output,
        r.total_tokens == counts_of(usage).total,
        r.estimated_cost_usd == Some(cost),
        r.fallback_used == plan.fallback_used,
        opt_string_text(r.fallback_reason) == opt_text(fallback_error),
        r.attempted_providers@.len() == 1 && r.attempted_providers@[0]@ == provider@,
        opt_string_text(r.cache_key) == Some(cache_key@),
        r.metadata == metadata,
        r.completed_at == Some(now),
        r.error_class is None && r.error_code is None,
{
    let counts = usage_counts(usage);
    let served_provider = match response_model {
        Some(m) => m,
        None => provider,
    };
    let served_model = match response_model {
        Some(m) => m,
        None => model,
    };
    let tried = vec![String::from_str(provider)];
    completed_entry(
        request_id,
        generation_id,
        route,
        request_type,
        served_provider,
        provider,
        served_model,
        model,
        Some(latency),
        0,
        plan.cache_status,
        counts.input,
        counts.output,
        counts.total,
        Some(cost),
        plan.fallback_used,
        fallback_error,
        tried,
        Some(cache_key),
        metadata,
        now,
    )
}

/// The entry of a provider failure at `now`: a miss, the error class and
/// the error's text as code, no fallback, the provider as the only one
/// tried.
#[allow(clippy::too_many_arguments)]
pub fn failure_entry(
    request_id: &str,
    generation_id: &str,
    route: &str,
    request_type: &str,
    provider: &str,
    model: &str,
    error_class: &str,
    error_text: &str,
    metadata: JsonValue,
    now: Timestamp,
) -> (r: LedgerRecordInput)
    ensures
        r.request_id@ == request_id@,
        r.generation_id@ == generation_id@,
        r.route@ == route@,
        r.request_type@ == request_type@,
        r.provider@ == provider@,
        r.primary_provider@ == provider@,
        r.model@ == model@,
        r.requested_model@ == model@,
        r.cache_status == CacheStatus::Miss,
        r.final_status@ == "failed"@,
        opt_string_text(r.error_class) == Some(error_class@),
        opt_string_text(r.error_code) == Some(error_text@),
        !r.fallback_used,
        r.fallback_reason is None,
        r.attempted_providers@.len() == 1 && r.attempted_providers@[0]@ == provider@,
        r.latency_ms is None && r.estimated_cost_usd is None && r.cache_key is None,
        r.metadata == metadata,
        r.completed_at == Some(now),
{
    let tried = vec![String::from_str(provider)];
    failed_entry(
        request_id,
        generation_id,
        route,
        request_type,
        provider,
        provider,
        model,
        model,
        CacheStatus::Miss,
        Some(error_class),
        Some(error_text),
        false,
        None,
        tried,
        metadata,
        now,
    )
}

} // verus!

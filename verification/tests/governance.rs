use chrono::{DateTime, Timelike, Utc};
use rust_decimal::Decimal;

use klass_gateway::governance::ledger::{
    completed_entry, failed_entry, CacheStatus, LedgerRecordInput, INSERT_SQL,
};
use klass_gateway::json::{get, JsonValue};
use klass_gateway::llm::call_record::{
    answer_entry, answer_metadata, cache_hit_entry, elapsed_latency, failure_entry, failure_metadata,
    hit_metadata, usage_counts, TokenUsage, UsageCounts,
};
use klass_gateway::governance::money::Money;
use klass_gateway::governance::price_catalog::{
    estimate_cost_checked, estimate_cost_inner, PriceEntry, FIND_ACTIVE_SQL,
};
use klass_gateway::governance::rate_limit::{
    denial_mutation, estimated_cost_or_default, exhausted_decision, policy_check, preflight_step,
    try_preflight_step, usage_mutation, window_end, window_start, ExhaustionAction, PreflightStep,
    RateLimitBucket, RateLimitPolicy, RateLimitRoute, ScopeType, WindowUnit, APPLICABLE_POLICIES_SQL,
    BUCKET_UPSERT_SQL, POLICY_UPSERT_SQL,
};
use klass_gateway::governance::time::Timestamp;
use klass_gateway::llm::pipeline::{
    completion_plan, pipeline_step, result_source, PipelineAction, PipelineEvent, PipelineState,
};

fn dec(m: Money) -> Decimal {
    Decimal::from_i128_with_scale(m.mantissa, m.scale)
}

fn money(d: Decimal) -> Money {
    Money { mantissa: d.mantissa(), scale: d.scale() }
}

fn ts(dt: DateTime<Utc>) -> Timestamp {
    Timestamp { secs: dt.timestamp(), nanos: dt.timestamp_subsec_nanos() }
}

fn dt(t: Timestamp) -> DateTime<Utc> {
    DateTime::from_timestamp(t.secs, t.nanos).unwrap()
}

fn epoch() -> Timestamp {
    Timestamp { secs: 0, nanos: 0 }
}

#[test]
fn test_cache_status_as_str() {
    assert_eq!(CacheStatus::Hit.as_str(), "hit");
    assert_eq!(CacheStatus::Miss.as_str(), "miss");
    assert_eq!(CacheStatus::Bypass.as_str(), "bypass");
}

#[test]
fn ledger_test_sql_literal() {
    assert!(INSERT_SQL.contains("INSERT INTO llm_request_ledger"));
    assert!(INSERT_SQL.contains("RETURNING id"));
}

fn make_price(input_rate: Decimal, output_rate: Decimal) -> PriceEntry {
    PriceEntry {
        id: 1,
        provider: "xiaomi".to_string(),
        model: "mimo-v2.5-pro".to_string(),
        input_cost_per_unit_usd: Some(money(input_rate)),
        output_cost_per_unit_usd: Some(money(output_rate)),
        effective_from: epoch(),
        is_active: true,
        created_at: epoch(),
        updated_at: epoch(),
    }
}

#[test]
fn test_estimate_cost_with_pricing() {
    let entry = Some(make_price(Decimal::new(10, 2), Decimal::new(40, 2)));
    let cost = estimate_cost_inner(&entry, 1_000_000, 500_000);
    assert_eq!(dec(cost.input_cost_usd), Decimal::new(10, 2));
    assert_eq!(dec(cost.output_cost_usd), Decimal::new(20, 2));
    assert_eq!(dec(cost.total_cost_usd), Decimal::new(30, 2));
}

#[test]
fn test_estimate_cost_with_defaults() {
    let cost = estimate_cost_inner(&None, 1_000_000, 500_000);
    assert_eq!(dec(cost.input_cost_usd), Decimal::new(10, 2));
    assert_eq!(dec(cost.output_cost_usd), Decimal::new(20, 2));
    assert_eq!(dec(cost.total_cost_usd), Decimal::new(30, 2));
}

#[test]
fn test_estimate_cost_zero_tokens() {
    let cost = estimate_cost_inner(&None, 0, 0);
    assert_eq!(dec(cost.total_cost_usd), Decimal::ZERO);
}

#[test]
fn test_estimate_cost_small_request() {
    let entry = Some(make_price(Decimal::new(10, 2), Decimal::new(40, 2)));
    let cost = estimate_cost_inner(&entry, 500, 1000);
    assert!(dec(cost.input_cost_usd) > Decimal::ZERO);
    assert!(dec(cost.output_cost_usd) > Decimal::ZERO);
    let expected_total = Decimal::new(45, 5);
    assert!((dec(cost.total_cost_usd) - expected_total).abs() < Decimal::new(1, 6));
}

#[test]
fn test_estimate_cost_with_null_rates() {
    let entry = Some(PriceEntry {
        id: 2,
        provider: "unknown".to_string(),
        model: "unknown".to_string(),
        input_cost_per_unit_usd: None,
        output_cost_per_unit_usd: None,
        effective_from: epoch(),
        is_active: true,
        created_at: epoch(),
        updated_at: epoch(),
    });
    let cost = estimate_cost_inner(&entry, 1_000_000, 1_000_000);
    assert_eq!(dec(cost.total_cost_usd), Decimal::new(50, 2));
}

#[test]
fn negative_token_counts_cost_nothing() {
    let cost = estimate_cost_checked(&None, -5, 2_000_000).unwrap();
    assert_eq!(dec(cost.input_cost_usd), Decimal::ZERO);
    assert_eq!(dec(cost.output_cost_usd), Decimal::new(80, 2));
}

#[test]
fn unrepresentable_estimates_are_reported() {
    let huge = make_price(Decimal::MAX, Decimal::MAX);
    assert!(estimate_cost_checked(&Some(huge), i64::MAX, i64::MAX).is_none());
}

#[test]
fn price_catalog_test_sql_literal() {
    assert!(FIND_ACTIVE_SQL.contains("SELECT"));
    assert!(FIND_ACTIVE_SQL.contains("llm_price_catalog"));
}

#[test]
fn test_window_start_minute() {
    let at = DateTime::from_timestamp(1000, 123_456_789).unwrap();
    let ws = dt(window_start(ts(at), WindowUnit::Minute));
    assert_eq!(ws.second(), 0);
    assert_eq!(ws.nanosecond(), 0);
}

#[test]
fn test_window_start_hour() {
    let at = DateTime::from_timestamp(3600 + 120 + 30, 0).unwrap();
    let ws = dt(window_start(ts(at), WindowUnit::Hour));
    assert_eq!(ws.minute(), 0);
    assert_eq!(ws.second(), 0);
}

#[test]
fn test_window_start_day() {
    let at = DateTime::from_timestamp(86400 + 3600 + 120, 0).unwrap();
    let ws = dt(window_start(ts(at), WindowUnit::Day));
    assert_eq!(ws.hour(), 0);
    assert_eq!(ws.minute(), 0);
    assert_eq!(ws.second(), 0);
}

#[test]
fn test_window_end_minute() {
    let start = DateTime::from_timestamp(1000, 0).unwrap();
    let end = dt(window_end(ts(start), WindowUnit::Minute));
    assert_eq!(end.timestamp(), start.timestamp() + 60);
}

#[test]
fn test_window_end_hour() {
    let start = DateTime::from_timestamp(3600, 0).unwrap();
    let end = dt(window_end(ts(start), WindowUnit::Hour));
    assert_eq!(end.timestamp(), start.timestamp() + 3600);
}

#[test]
fn test_window_end_day() {
    let start = DateTime::from_timestamp(86400, 0).unwrap();
    let end = dt(window_end(ts(start), WindowUnit::Day));
    assert_eq!(end.timestamp(), start.timestamp() + 86400);
}

#[test]
fn windows_hold_their_instant_before_the_epoch_too() {
    for secs in [-86401i64, -1, 0, 59, 61, 1_700_000_123] {
        let at = Timestamp { secs, nanos: 5 };
        for unit in [WindowUnit::Minute, WindowUnit::Hour, WindowUnit::Day] {
            let start = window_start(at, unit);
            let end = window_end(start, unit);
            assert!(start.secs <= at.secs && at.secs < end.secs);
            assert_eq!(window_start(start, unit), start);
        }
    }
    assert_eq!(window_start(Timestamp { secs: -1, nanos: 0 }, WindowUnit::Minute).secs, -60);
}

#[test]
fn test_route_conversion() {
    assert_eq!(RateLimitRoute::from("interpret"), RateLimitRoute::Interpret);
    assert_eq!(RateLimitRoute::from("respond"), RateLimitRoute::Respond);
    assert_eq!(RateLimitRoute::from("all"), RateLimitRoute::All);
    assert_eq!(RateLimitRoute::from("unknown"), RateLimitRoute::All);
}

#[test]
fn test_exhausted_decision_interpret_is_deny() {
    let d = exhausted_decision("interpret", "dp", "m");
    assert!(!d.allowed);
    assert_eq!(d.action, ExhaustionAction::Deny);
}

#[test]
fn test_exhausted_decision_respond_is_degrade() {
    let d = exhausted_decision("respond", "dp", "m");
    assert!(d.allowed);
    assert_eq!(d.action, ExhaustionAction::Degrade);
}

#[test]
fn exhausted_decision_allows_only_when_degrading() {
    for route in ["interpret", "respond", "all", "draft", ""] {
        let d = exhausted_decision(route, "p", "m");
        assert_eq!(d.allowed, d.action == ExhaustionAction::Degrade);
    }
}

#[test]
fn test_scope_type_as_str() {
    assert_eq!(ScopeType::Global.as_str(), "global");
    assert_eq!(ScopeType::Route.as_str(), "route");
}

#[test]
fn test_window_unit_as_str() {
    assert_eq!(WindowUnit::Minute.as_str(), "minute");
    assert_eq!(WindowUnit::Hour.as_str(), "hour");
    assert_eq!(WindowUnit::Day.as_str(), "day");
}

#[test]
fn test_sql_literals() {
    assert!(POLICY_UPSERT_SQL.contains("INSERT INTO llm_rate_limit_policies"));
    assert!(APPLICABLE_POLICIES_SQL.contains("SELECT"));
    assert!(BUCKET_UPSERT_SQL.contains("ON CONFLICT (policy_id, window_started_at)"));
}

fn policy(max_requests: Option<i64>, max_cost: Option<Decimal>) -> RateLimitPolicy {
    RateLimitPolicy {
        id: 4,
        scope_type: "route".to_string(),
        strategy: "fixed_window".to_string(),
        route: "interpret".to_string(),
        provider: "*".to_string(),
        model: "*".to_string(),
        window_unit: "day".to_string(),
        max_requests,
        max_input_tokens: None,
        max_output_tokens: None,
        max_total_tokens: None,
        max_estimated_cost_usd: max_cost.map(money),
        enabled: true,
        created_at: epoch(),
        updated_at: epoch(),
    }
}

fn bucket(request_count: i64, cost: Decimal) -> RateLimitBucket {
    RateLimitBucket {
        id: 1,
        policy_id: 4,
        scope_type: "route".to_string(),
        strategy: "fixed_window".to_string(),
        route: "interpret".to_string(),
        provider: "*".to_string(),
        model: "*".to_string(),
        window_unit: "day".to_string(),
        window_started_at: epoch(),
        window_ends_at: Timestamp { secs: 86400, nanos: 0 },
        request_count,
        input_tokens: 0,
        output_tokens: 0,
        total_tokens: 0,
        estimated_cost_usd: money(cost),
        deny_count: 0,
        last_request_id: None,
        last_generation_id: None,
        last_seen_at: epoch(),
        created_at: epoch(),
        updated_at: epoch(),
    }
}

#[test]
fn request_limit_exhausts_on_the_request_past_it() {
    let p = policy(Some(10), None);
    let zero = money(Decimal::ZERO);
    assert_eq!(policy_check(&p, 9, zero, zero), Some(false));
    assert_eq!(policy_check(&p, 10, zero, zero), Some(true));
    assert_eq!(policy_check(&policy(None, None), 1_000_000, zero, zero), Some(false));
}

#[test]
fn cost_limit_compares_projected_spend() {
    let p = policy(None, Some(Decimal::new(100, 2)));
    let est = estimated_cost_or_default(None);
    assert_eq!(dec(est), Decimal::new(1, 4));
    assert_eq!(policy_check(&p, 0, money(Decimal::new(9999, 4)), est), Some(false));
    assert_eq!(policy_check(&p, 0, money(Decimal::new(99995, 5)), money(Decimal::new(1, 3))), Some(true));
}

#[test]
fn preflight_denies_with_the_route_decision() {
    let p = policy(Some(1), None);
    let zero = money(Decimal::ZERO);
    let step = preflight_step("interpret", "p", "m", &p, &bucket(1, Decimal::ZERO), zero);
    assert_eq!(step, PreflightStep::Deny(exhausted_decision("interpret", "p", "m")));
    let step = try_preflight_step("respond", "p", "m", &p, &bucket(0, Decimal::ZERO), zero);
    assert_eq!(step, Some(PreflightStep::Continue));
}

#[test]
fn usage_and_denial_mutations_move_their_counters() {
    let p = policy(Some(1), None);
    let used = usage_mutation(&p, 10, 20, 30, money(Decimal::new(5, 3)), "req", "gen");
    assert_eq!((used.request_count, used.deny_count, used.total_tokens), (1, 0, 30));
    assert_eq!(used.last_request_id.as_deref(), Some("req"));
    let denied = denial_mutation(&p, "req2", "gen2");
    assert_eq!((denied.request_count, denied.deny_count, denied.input_tokens), (0, 1, 0));
    assert_eq!(denied.policy_id, p.id);
    assert_eq!(denied.last_generation_id.as_deref(), Some("gen2"));
}

fn drive(events: &[PipelineEvent]) -> (PipelineState, Vec<PipelineAction>) {
    let mut state = PipelineState::Start;
    let mut actions = Vec::new();
    for e in events {
        let (next, action) = pipeline_step(state, *e);
        state = next;
        actions.push(action);
    }
    (state, actions)
}

#[test]
fn denied_calls_are_refused_without_the_provider() {
    let (state, actions) = drive(&[PipelineEvent::Begin, PipelineEvent::Decided(ExhaustionAction::Deny)]);
    assert_eq!(state, PipelineState::Done);
    assert_eq!(actions, vec![PipelineAction::CheckGovernance, PipelineAction::RejectRateLimited]);
}

#[test]
fn degraded_calls_skip_the_cache() {
    let (state, actions) = drive(&[
        PipelineEvent::Begin,
        PipelineEvent::Decided(ExhaustionAction::Degrade),
        PipelineEvent::ProviderAnswered,
    ]);
    assert_eq!(state, PipelineState::Done);
    assert_eq!(actions[1], PipelineAction::CallProvider { should_cache: false });
    assert!(!actions.contains(&PipelineAction::LookupCache));
}

#[test]
fn lock_holders_release_the_lock() {
    let (state, actions) = drive(&[
        PipelineEvent::Begin,
        PipelineEvent::Decided(ExhaustionAction::Allow),
        PipelineEvent::Looked { hit: false },
        PipelineEvent::Locked { acquired: true },
        PipelineEvent::ProviderAnswered,
        PipelineEvent::Released,
    ]);
    assert_eq!(state, PipelineState::Done);
    assert_eq!(actions[3], PipelineAction::CallProvider { should_cache: true });
    assert_eq!(actions[4], PipelineAction::ReleaseLock);
}

#[test]
fn waiters_serve_the_filled_cache_or_call_without_the_lock() {
    let (state, actions) = drive(&[
        PipelineEvent::Begin,
        PipelineEvent::Decided(ExhaustionAction::Allow),
        PipelineEvent::Looked { hit: false },
        PipelineEvent::Locked { acquired: false },
        PipelineEvent::Waited { hit: true },
    ]);
    assert_eq!(state, PipelineState::Done);
    assert_eq!(actions[4], PipelineAction::ServeCached { after_wait: true });
    let (state, actions) = drive(&[
        PipelineEvent::Begin,
        PipelineEvent::Decided(ExhaustionAction::Allow),
        PipelineEvent::Looked { hit: false },
        PipelineEvent::Locked { acquired: false },
        PipelineEvent::Waited { hit: false },
        PipelineEvent::ProviderAnswered,
    ]);
    assert_eq!(state, PipelineState::Done);
    assert!(!actions.contains(&PipelineAction::ReleaseLock));
    assert_eq!(drive(&[PipelineEvent::Released]).1, vec![PipelineAction::Ignore]);
}

#[test]
fn completion_plans_cache_only_valid_answers() {
    let valid = completion_plan(true, true);
    assert!(valid.store_in_cache && !valid.fallback_used);
    assert_eq!(valid.cache_status.as_str(), "miss");
    let invalid = completion_plan(true, false);
    assert!(!invalid.store_in_cache && invalid.fallback_used);
    assert_eq!(invalid.cache_status.as_str(), "bypass");
    assert!(!completion_plan(false, true).store_in_cache);
    assert_eq!(result_source(true), "fallback");
    assert_eq!(result_source(false), "provider");
}

fn json_obj(key: &str, value: JsonValue) -> JsonValue {
    JsonValue::Object(vec![(key.to_string(), value)])
}

#[test]
fn test_ledger_record_input_all_fields() {
    let input = LedgerRecordInput {
        request_id: "req-1".to_string(),
        generation_id: "gen-1".to_string(),
        route: "interpret".to_string(),
        request_type: "media_prompt_interpretation".to_string(),
        provider: "tencent".to_string(),
        primary_provider: "tencent".to_string(),
        model: "hy3:free".to_string(),
        requested_model: "hy3:free".to_string(),
        latency_ms: Some(money(Decimal::new(1234, 2))), // 12.34 ms
        retry_count: 0,
        cache_status: CacheStatus::Miss,
        final_status: "completed".to_string(),
        error_class: None,
        error_code: None,
        fallback_used: false,
        fallback_reason: None,
        attempted_providers: vec!["tencent".to_string()],
        upstream_request_id: None,
        provider_response_id: Some("resp-abc".to_string()),
        provider_model_version: None,
        finish_reason: Some("stop".to_string()),
        candidate_index: Some(0),
        input_tokens: Some(150),
        output_tokens: Some(200),
        total_tokens: Some(350),
        estimated_cost_usd: Some(money(Decimal::new(42, 6))), // 0.000042
        cache_key: Some("abc123...".to_string()),
        metadata: json_obj("source", JsonValue::Str("test".to_string())),
        completed_at: None,
    };

    assert_eq!(input.route, "interpret");
    assert_eq!(input.request_type, "media_prompt_interpretation");
    assert_eq!(input.cache_status.as_str(), "miss");
    assert_eq!(input.total_tokens, Some(350));
}

#[test]
fn test_ledger_record_input_failure() {
    let input = LedgerRecordInput {
        request_id: "req-2".to_string(),
        generation_id: "gen-2".to_string(),
        route: "respond".to_string(),
        request_type: "media_delivery_response".to_string(),
        provider: "tencent".to_string(),
        primary_provider: "tencent".to_string(),
        model: "hy3:free".to_string(),
        requested_model: "hy3:free".to_string(),
        latency_ms: None,
        retry_count: 2,
        cache_status: CacheStatus::Bypass,
        final_status: "failed".to_string(),
        error_class: Some("ProviderError".to_string()),
        error_code: Some("provider_unavailable".to_string()),
        fallback_used: true,
        fallback_reason: Some("primary provider failed".to_string()),
        attempted_providers: vec!["tencent".to_string(), "gemini".to_string()],
        upstream_request_id: None,
        provider_response_id: None,
        provider_model_version: None,
        finish_reason: None,
        candidate_index: None,
        input_tokens: None,
        output_tokens: None,
        total_tokens: None,
        estimated_cost_usd: None,
        cache_key: None,
        metadata: json_obj("attempted_fallback", JsonValue::Bool(true)),
        completed_at: None,
    };

    assert_eq!(input.final_status, "failed");
    assert!(input.fallback_used);
    assert_eq!(input.attempted_providers.len(), 2);
}

#[test]
fn test_cache_hit_input() {
    let input = LedgerRecordInput {
        request_id: "req-3".to_string(),
        generation_id: "gen-3".to_string(),
        route: "interpret".to_string(),
        request_type: "media_prompt_interpretation".to_string(),
        provider: "tencent".to_string(),
        primary_provider: "tencent".to_string(),
        model: "hy3:free".to_string(),
        requested_model: "hy3:free".to_string(),
        latency_ms: Some(money(Decimal::new(5, 1))), // 0.5 ms
        retry_count: 0,
        cache_status: CacheStatus::Hit,
        final_status: "completed".to_string(),
        error_class: None,
        error_code: None,
        fallback_used: false,
        fallback_reason: None,
        attempted_providers: vec!["tencent".to_string()],
        upstream_request_id: None,
        provider_response_id: None,
        provider_model_version: None,
        finish_reason: Some("stop".to_string()),
        candidate_index: Some(0),
        input_tokens: None,
        output_tokens: None,
        total_tokens: None,
        estimated_cost_usd: Some(money(Decimal::ZERO)),
        cache_key: Some("def456...".to_string()),
        metadata: json_obj("cache_source", JsonValue::Str("interpretation_cache".to_string())),
        completed_at: None,
    };

    assert_eq!(input.cache_status.as_str(), "hit");
    assert_eq!(input.estimated_cost_usd.map(dec), Some(Decimal::ZERO));
}

#[test]
fn ledger_completed_entry_fields() {
    let now = Timestamp { secs: 1_720_000_000, nanos: 5 };
    let e = completed_entry(
        "req-9",
        "gen-9",
        "interpret",
        "media_prompt_interpretation",
        "gemini",
        "tencent",
        "gemini-2",
        "hy3:free",
        Some(money(Decimal::new(1234, 2))),
        1,
        CacheStatus::Miss,
        Some(10),
        Some(20),
        Some(30),
        Some(money(Decimal::new(42, 6))),
        true,
        Some("primary failed"),
        vec!["tencent".to_string(), "gemini".to_string()],
        Some("key-1"),
        JsonValue::Null,
        now,
    );
    assert_eq!(e.final_status, "completed");
    assert_eq!((e.provider.as_str(), e.primary_provider.as_str()), ("gemini", "tencent"));
    assert_eq!((e.model.as_str(), e.requested_model.as_str()), ("gemini-2", "hy3:free"));
    assert_eq!(e.latency_ms.map(dec), Some(Decimal::new(1234, 2)));
    assert_eq!(e.retry_count, 1);
    assert_eq!(e.cache_status, CacheStatus::Miss);
    assert_eq!((e.input_tokens, e.output_tokens, e.total_tokens), (Some(10), Some(20), Some(30)));
    assert_eq!(e.estimated_cost_usd.map(dec), Some(Decimal::new(42, 6)));
    assert!(e.fallback_used);
    assert_eq!(e.fallback_reason.as_deref(), Some("primary failed"));
    assert_eq!(e.attempted_providers.len(), 2);
    assert_eq!(e.cache_key.as_deref(), Some("key-1"));
    assert!(e.error_class.is_none() && e.error_code.is_none() && e.finish_reason.is_none());
    assert_eq!(e.completed_at, Some(now));
}

#[test]
fn ledger_failed_entry_fields() {
    let now = Timestamp { secs: 1_720_000_100, nanos: 0 };
    let e = failed_entry(
        "req-8",
        "gen-8",
        "respond",
        "media_delivery_response",
        "tencent",
        "tencent",
        "hy3:free",
        "hy3:free",
        CacheStatus::Bypass,
        Some("ProviderError"),
        Some("provider_unavailable"),
        false,
        None,
        vec!["tencent".to_string()],
        json_obj("attempted_fallback", JsonValue::Bool(false)),
        now,
    );
    assert_eq!(e.final_status, "failed");
    assert_eq!(e.error_class.as_deref(), Some("ProviderError"));
    assert_eq!(e.error_code.as_deref(), Some("provider_unavailable"));
    assert!(e.latency_ms.is_none() && e.estimated_cost_usd.is_none() && e.cache_key.is_none());
    assert_eq!(e.retry_count, 0);
    assert!(e.fallback_reason.is_none());
    assert_eq!(e.cache_status.as_str(), "bypass");
    assert_eq!(e.completed_at, Some(now));
}

#[test]
fn call_record_usage_counts() {
    assert_eq!(usage_counts(None), UsageCounts { input: None, output: None, total: None });
    let u = TokenUsage { prompt_tokens: Some(120), completion_tokens: None, total_tokens: Some(300) };
    assert_eq!(usage_counts(Some(u)), UsageCounts { input: Some(120), output: Some(0), total: Some(300) });
}

#[test]
fn call_record_latency_is_milliseconds_over_a_thousand() {
    assert_eq!(dec(elapsed_latency(1234)), Decimal::new(1234, 3));
    assert_eq!(dec(elapsed_latency(0)), Decimal::ZERO);
}

#[test]
fn call_record_metadata_shapes() {
    let m = hit_metadata("draft_service", "content_draft_cache");
    assert!(matches!(get(&m, "source"), Some(JsonValue::Str(s)) if s == "draft_service"));
    assert!(matches!(get(&m, "cache_hit"), Some(JsonValue::Bool(true))));
    assert!(matches!(get(&m, "cache_source"), Some(JsonValue::Str(s)) if s == "content_draft_cache"));
    let m = answer_metadata("respond_service", true);
    assert!(matches!(get(&m, "cache_hit"), Some(JsonValue::Bool(false))));
    assert!(matches!(get(&m, "fallback_used"), Some(JsonValue::Bool(true))));
    let m = failure_metadata("interpretation_service", "timeout");
    assert!(matches!(get(&m, "error"), Some(JsonValue::Str(s)) if s == "timeout"));
}

#[test]
fn call_record_cache_hit_entry() {
    let now = Timestamp { secs: 1_720_000_000, nanos: 0 };
    let e = cache_hit_entry(
        "r", "g", "respond", "media_content_draft", "openrouter", "m1", elapsed_latency(7), "key",
        JsonValue::Null, now,
    );
    assert_eq!(e.cache_status, CacheStatus::Hit);
    assert_eq!((e.provider.as_str(), e.primary_provider.as_str()), ("openrouter", "openrouter"));
    assert_eq!((e.model.as_str(), e.requested_model.as_str()), ("m1", "m1"));
    assert_eq!(e.estimated_cost_usd.map(dec), Some(Decimal::ZERO));
    assert_eq!(e.attempted_providers, vec!["openrouter".to_string()]);
    assert_eq!(e.cache_key.as_deref(), Some("key"));
    assert!(e.input_tokens.is_none() && !e.fallback_used);
    assert_eq!(e.final_status, "completed");
}

#[test]
fn call_record_answer_entry_uses_response_model() {
    let now = Timestamp { secs: 1_720_000_000, nanos: 0 };
    let plan = completion_plan(true, false);
    let usage = TokenUsage { prompt_tokens: Some(10), completion_tokens: Some(20), total_tokens: None };
    let e = answer_entry(
        "r", "g", "interpret", "media_prompt_interpretation", "openrouter", "m1", Some("vendor/m2"),
        elapsed_latency(50), plan, Some(usage), money(Decimal::new(42, 6)), Some("schema_invalid"), "key",
        JsonValue::Null, now,
    );
    assert_eq!((e.provider.as_str(), e.primary_provider.as_str()), ("vendor/m2", "openrouter"));
    assert_eq!((e.model.as_str(), e.requested_model.as_str()), ("vendor/m2", "m1"));
    assert_eq!(e.cache_status, CacheStatus::Bypass);
    assert!(e.fallback_used);
    assert_eq!(e.fallback_reason.as_deref(), Some("schema_invalid"));
    assert_eq!((e.input_tokens, e.output_tokens, e.total_tokens), (Some(10), Some(20), Some(0)));
    let plain = answer_entry(
        "r", "g", "interpret", "t", "openrouter", "m1", None, elapsed_latency(1), completion_plan(true, true),
        None, money(Decimal::ZERO), None, "key", JsonValue::Null, now,
    );
    assert_eq!((plain.provider.as_str(), plain.model.as_str()), ("openrouter", "m1"));
    assert_eq!(plain.cache_status, CacheStatus::Miss);
    assert!(plain.total_tokens.is_none());
}

#[test]
fn call_record_failure_entry() {
    let now = Timestamp { secs: 5, nanos: 0 };
    let e = failure_entry("r", "g", "respond", "t", "openrouter", "m1", "ProviderError", "boom", JsonValue::Null, now);
    assert_eq!(e.final_status, "failed");
    assert_eq!(e.cache_status, CacheStatus::Miss);
    assert_eq!(e.error_class.as_deref(), Some("ProviderError"));
    assert_eq!(e.error_code.as_deref(), Some("boom"));
    assert!(!e.fallback_used && e.latency_ms.is_none());
}

//! LLM rate-limit governance: routes, scopes, fixed windows, bucket
//! mutations and the per-policy budget decision.
use vstd::prelude::*;
use vstd::string::*;

use crate::governance::money::{money_checked_add, money_greater, money_gt, money_new, money_wf, money_zero, decimal_checked_add, Money};
use crate::governance::time::{timestamp_wf, Timestamp, MAX_UTC_SECS, MIN_UTC_SECS};
use crate::text::str_is;

verus! {

/// Route of a rate-limit policy.
#[derive(Debug, Clone, Copy, PartialEq, Eq, Structural)]
pub enum RateLimitRoute {
    All,
    Interpret,
    Respond,
}

impl RateLimitRoute {
    /// Wire name of the route.
    pub fn as_str(&self) -> (r: &'static str)
        ensures
            r@ == match self {
                RateLimitRoute::All => "all"@,
                RateLimitRoute::Interpret => "interpret"@,
                RateLimitRoute::Respond => "respond"@,
            },
    {
        match self {
            RateLimitRoute::All => "all",
            RateLimitRoute::Interpret => "interpret",
            RateLimitRoute::Respond => "respond",
        }
    }

    /// The route named `s`; unknown names mean all routes.
    pub fn from(s: &str) -> (r: Self)
        ensures
            r == if s@ == "interpret"@ {
                RateLimitRoute::Interpret
            } else if s@ == "respond"@ {
                RateLimitRoute::Respond
            } else {
                RateLimitRoute::All
            },
    {
        if str_is(s, "interpret") {
            RateLimitRoute::Interpret
        } else if str_is(s, "respond") {
            RateLimitRoute::Respond
        } else {
            RateLimitRoute::All
        }
    }
}

/// Scope of a rate-limit policy.
#[derive(Debug, Clone, Copy, PartialEq, Eq, Structural)]
pub enum ScopeType {
    Global,
    Route,
    Provider,
    Model,
}

impl ScopeType {
    /// Wire name of the scope.
    pub fn as_str(&self) -> (r: &'static str)
        ensures
            r@ == match self {
                ScopeType::Global => "global"@,
                ScopeType::Route => "route"@,
                ScopeType::Provider => "provider"@,
                ScopeType::Model => "model"@,
            },
    {
        match self {
            ScopeType::Global => "global",
            ScopeType::Route => "route",
            ScopeType::Provider => "provider",
            ScopeType::Model => "model",
        }
    }
}

/// Length of a fixed rate-limit window.
#[derive(Debug, Clone, Copy, PartialEq, Eq, Structural)]
pub enum WindowUnit {
    Minute,
    Hour,
    Day,
}

impl WindowUnit {
    /// Wire name of the window unit.
    pub fn as_str(&self) -> (r: &'static str)
        ensures
            r@ == match self {
                WindowUnit::Minute => "minute"@,
                WindowUnit::Hour => "hour"@,
                WindowUnit::Day => "day"@,
            },
    {
        match self {
            WindowUnit::Minute => "minute",
            WindowUnit::Hour => "hour",
            WindowUnit::Day => "day",
        }
    }

    /// The unit stored in a policy row: "minute", "hour", anything else a day.
    pub fn parse_stored(s: &str) -> (r: Self)
        ensures
            r == if s@ == "minute"@ {
                WindowUnit::Minute
            } else if s@ == "hour"@ {
                WindowUnit::Hour
            } else {
                WindowUnit::Day
            },
    {
        if str_is(s, "minute") {
            WindowUnit::Minute
        } else if str_is(s, "hour") {
            WindowUnit::Hour
        } else {
            WindowUnit::Day
        }
    }
}

/// Seconds in a window.
pub open spec fn window_secs(unit: WindowUnit) -> int {
    match unit {
        WindowUnit::Minute => 60,
        WindowUnit::Hour => 3600,
        WindowUnit::Day => 86400,
    }
}

/// Start of the fixed window holding `at`: `at` truncated to the minute,
/// hour or day (UTC).
pub open spec fn spec_window_start(at: Timestamp, unit: WindowUnit) -> Timestamp {
    Timestamp { secs: (at.secs - (at.secs as int) % window_secs(unit)) as i64, nanos: 0 }
}

/// Start of the fixed window (minute, hour or day) holding `at`.
pub fn window_start(at: Timestamp, unit: WindowUnit) -> (r: Timestamp)
    requires
        timestamp_wf(at),
    ensures
        r == spec_window_start(at, unit),
        timestamp_wf(r),
{
    let w: i64 = match unit {
        WindowUnit::Minute => 60,
        WindowUnit::Hour => 3600,
        WindowUnit::Day => 86400,
    };
    let rem: i64 = if at.secs >= 0 {
        at.secs % w
    } else {
        let q = (-at.secs) % w;
        if q == 0 { 0 } else { w - q }
    };
    assert(rem == (at.secs as int) % window_secs(unit)) by (nonlinear_arith)
        requires
            w == window_secs(unit),
            w > 0,
            at.secs >= 0 ==> rem == (at.secs as int) % (w as int),
            at.secs < 0 ==> rem == (if (-(at.secs as int)) % (w as int) == 0 { 0 } else { w - (-(at.secs as int)) % (w as int) }),
    ;
    assert((at.secs as int) % window_secs(unit) <= at.secs - MIN_UTC_SECS) by (nonlinear_arith)
        requires
            w == window_secs(unit),
            w == 60 || w == 3600 || w == 86400,
            MIN_UTC_SECS <= at.secs,
            MIN_UTC_SECS % 86400 == 0,
    ;
    Timestamp { secs: at.secs - rem, nanos: 0 }
}

/// End of a window: its start plus one minute, hour or day.
pub open spec fn spec_window_end(start: Timestamp, unit: WindowUnit) -> Timestamp {
    Timestamp { secs: (start.secs + window_secs(unit)) as i64, nanos: start.nanos }
}

/// End of the window that starts at `start`.
pub fn window_end(start: Timestamp, unit: WindowUnit) -> (r: Timestamp)
    requires
        timestamp_wf(start),
        start.secs + window_secs(unit) <= MAX_UTC_SECS,
    ensures
        r == spec_window_end(start, unit),
        timestamp_wf(r),
{
    let w: i64 = match unit {
        WindowUnit::Minute => 60,
        WindowUnit::Hour => 3600,
        WindowUnit::Day => 86400,
    };
    Timestamp { secs: start.secs + w, nanos: start.nanos }
}

/// How an exhausted budget is handled.
#[derive(Debug, Clone, Copy, PartialEq, Eq, Structural)]
pub enum ExhaustionAction {
    Allow,
    Deny,
    Degrade,
}

/// Outcome of a preflight check.
#[derive(Debug, Clone, Copy, PartialEq, Eq, Structural)]
pub struct PreflightDecision {
    pub allowed: bool,
    pub action: ExhaustionAction,
}

/// Decision for an exhausted budget: responses degrade (and go ahead);
/// interpretation and every other route is denied.
pub open spec fn spec_exhausted_decision(route: Seq<char>) -> PreflightDecision {
    if route == "respond"@ {
        PreflightDecision { allowed: true, action: ExhaustionAction::Degrade }
    } else {
        PreflightDecision { allowed: false, action: ExhaustionAction::Deny }
    }
}

/// Decision when a route's budget is exhausted.
pub fn exhausted_decision(route: &str, _provider: &str, _model: &str) -> (r: PreflightDecision)
    ensures
        r == spec_exhausted_decision(route@),
{
    proof {
        reveal_strlit("respond");
        reveal_strlit("interpret");
        assert("respond"@ != "interpret"@) by {
            assert("respond"@.len() != "interpret"@.len());
        }
    }
    let action = if str_is(route, "interpret") {
        ExhaustionAction::Deny
    } else if str_is(route, "respond") {
        ExhaustionAction::Degrade
    } else {
        ExhaustionAction::Deny
    };
    let allowed = match action {
        ExhaustionAction::Degrade => true,
        _ => false,
    };
    PreflightDecision { allowed, action }
}

/// Decision when every applicable policy has budget left.
pub fn allow_decision() -> (r: PreflightDecision)
    ensures
        r == (PreflightDecision { allowed: true, action: ExhaustionAction::Allow }),
{
    PreflightDecision { allowed: true, action: ExhaustionAction::Allow }
}

} // verus!

verus! {

/// A rate-limit policy row.
#[derive(Debug, Clone)]
pub struct RateLimitPolicy {
    pub id: i64,
    pub scope_type: String,
    pub strategy: String,
    pub route: String,
    pub provider: String,
    pub model: String,
    pub window_unit: String,
    pub max_requests: Option<i64>,
    pub max_input_tokens: Option<i64>,
    pub max_output_tokens: Option<i64>,
    pub max_total_tokens: Option<i64>,
    pub max_estimated_cost_usd: Option<Money>,
    pub enabled: bool,
    pub created_at: Timestamp,
    pub updated_at: Timestamp,
}

/// A rate-limit bucket row: the counters of one policy window.
#[derive(Debug, Clone)]
pub struct RateLimitBucket {
    pub id: i64,
    pub policy_id: i64,
    pub scope_type: String,
    pub strategy: String,
    pub route: String,
    pub provider: String,
    pub model: String,
    pub window_unit: String,
    pub window_started_at: Timestamp,
    pub window_ends_at: Timestamp,
    pub request_count: i64,
    pub input_tokens: i64,
    pub output_tokens: i64,
    pub total_tokens: i64,
    pub estimated_cost_usd: Money,
    pub deny_count: i64,
    pub last_request_id: Option<String>,
    pub last_generation_id: Option<String>,
    pub last_seen_at: Timestamp,
    pub created_at: Timestamp,
    pub updated_at: Timestamp,
}

/// Increments applied to a policy's window bucket.
#[derive(Debug, Clone)]
pub struct BucketMutation {
    pub policy_id: i64,
    pub route: String,
    pub provider: String,
    pub model: String,
    pub window_unit: String,
    pub request_count: i64,
    pub input_tokens: i64,
    pub output_tokens: i64,
    pub total_tokens: i64,
    pub estimated_cost_usd: Money,
    pub deny_count: i64,
    pub last_request_id: Option<String>,
    pub last_generation_id: Option<String>,
}

/// The mutation targets the policy's own dimensions.
pub open spec fn mutation_for(m: BucketMutation, p: RateLimitPolicy) -> bool {
    &&& m.policy_id == p.id
    &&& m.route@ == p.route@
    &&& m.provider@ == p.provider@
    &&& m.model@ == p.model@
    &&& m.window_unit@ == p.window_unit@
}

fn mutation_base(policy: &RateLimitPolicy) -> (r: BucketMutation)
    ensures
        mutation_for(r, *policy),
        r.request_count == 0,
        r.input_tokens == 0,
        r.output_tokens == 0,
        r.total_tokens == 0,
        r.estimated_cost_usd.mantissa == 0,
        r.deny_count == 0,
        r.last_request_id is None,
        r.last_generation_id is None,
{
    BucketMutation {
        policy_id: policy.id,
        route: policy.route.clone(),
        provider: policy.provider.clone(),
        model: policy.model.clone(),
        window_unit: policy.window_unit.clone(),
        request_count: 0,
        input_tokens: 0,
        output_tokens: 0,
        total_tokens: 0,
        estimated_cost_usd: money_zero(),
        deny_count: 0,
        last_request_id: None,
        last_generation_id: None,
    }
}

/// Zero-increment mutation used to read a window's bucket.
pub fn check_mutation(policy: &RateLimitPolicy) -> (r: BucketMutation)
    ensures
        mutation_for(r, *policy),
        r.request_count == 0,
        r.input_tokens == 0,
        r.output_tokens == 0,
        r.total_tokens == 0,
        r.estimated_cost_usd.mantissa == 0,
        r.deny_count == 0,
        r.last_request_id is None,
        r.last_generation_id is None,
{
    mutation_base(policy)
}

/// Mutation recording a served request: one request plus its token usage
/// and cost, no denial.
pub fn usage_mutation(
    policy: &RateLimitPolicy,
    input_tokens: i64,
    output_tokens: i64,
    total_tokens: i64,
    estimated_cost_usd: Money,
    request_id: &str,
    generation_id: &str,
) -> (r: BucketMutation)
    ensures
        mutation_for(r, *policy),
        r.request_count == 1,
        r.input_tokens == input_tokens,
        r.output_tokens == output_tokens,
        r.total_tokens == total_tokens,
        r.estimated_cost_usd == estimated_cost_usd,
        r.deny_count == 0,
        r.last_request_id matches Some(s) && s@ == request_id@,
        r.last_generation_id matches Some(s) && s@ == generation_id@,
{
    let mut m = mutation_base(policy);
    m.request_count = 1;
    m.input_tokens = input_tokens;
    m.output_tokens = output_tokens;
    m.total_tokens = total_tokens;
    m.estimated_cost_usd = estimated_cost_usd;
    m.last_request_id = Some(String::from_str(request_id));
    m.last_generation_id = Some(String::from_str(generation_id));
    m
}

/// Mutation recording a denied request: only the denial counter moves.
pub fn denial_mutation(policy: &RateLimitPolicy, request_id: &str, generation_id: &str) -> (r: BucketMutation)
    ensures
        mutation_for(r, *policy),
        r.request_count == 0,
        r.input_tokens == 0,
        r.output_tokens == 0,
        r.total_tokens == 0,
        r.estimated_cost_usd.mantissa == 0,
        r.deny_count == 1,
        r.last_request_id matches Some(s) && s@ == request_id@,
        r.last_generation_id matches Some(s) && s@ == generation_id@,
{
    let mut m = mutation_base(policy);
    m.deny_count = 1;
    m.last_request_id = Some(String::from_str(request_id));
    m.last_generation_id = Some(String::from_str(generation_id));
    m
}

/// Cost assumed for a request when no projection is given: 0.0001 USD.
pub fn estimated_cost_or_default(projected: Option<Money>) -> (r: Money)
    ensures
        r == match projected {
            Some(c) => c,
            None => Money { mantissa: 1, scale: 4 },
        },
{
    match projected {
        Some(c) => c,
        None => money_new(1, 4),
    }
}

/// The request limit is reached: one more request would exceed it.
pub open spec fn request_limit_hit(max_requests: Option<i64>, bucket_request_count: i64) -> bool {
    max_requests matches Some(m) && bucket_request_count + 1 > m
}

/// Outcome of checking one policy against its bucket: `Some(true)` when the
/// budget is exhausted, `Some(false)` when the request fits, `None` when
/// the projected cost cannot be represented.
pub open spec fn spec_policy_check(
    max_requests: Option<i64>,
    max_cost: Option<Money>,
    bucket_request_count: i64,
    bucket_cost: Money,
    estimated_cost: Money,
) -> Option<bool> {
    if request_limit_hit(max_requests, bucket_request_count) {
        Some(true)
    } else {
        match max_cost {
            None => Some(false),
            Some(c) => match decimal_checked_add(bucket_cost.mantissa as int, bucket_cost.scale as nat, estimated_cost.mantissa as int, estimated_cost.scale as nat) {
                None => None,
                Some(sum) => Some(money_gt(Money { mantissa: sum.0 as i128, scale: sum.1 as u32 }, c)),
            },
        }
    }
}

/// Check a policy: exhausted when one more request would pass the request
/// limit, or when the bucket's cost plus the estimated cost would pass the
/// cost limit; `None` when that sum is not representable.
pub fn policy_check(policy: &RateLimitPolicy, bucket_request_count: i64, bucket_cost: Money, estimated_cost: Money) -> (r: Option<bool>)
    requires
        bucket_request_count < i64::MAX,
        money_wf(bucket_cost),
        money_wf(estimated_cost),
        policy.max_estimated_cost_usd matches Some(c) ==> money_wf(c),
    ensures
        r == spec_policy_check(policy.max_requests, policy.max_estimated_cost_usd, bucket_request_count, bucket_cost, estimated_cost),
{
    if let Some(max_req) = policy.max_requests {
        if bucket_request_count + 1 > max_req {
            return Some(true);
        }
    }
    match policy.max_estimated_cost_usd {
        None => Some(false),
        Some(max_cost) => match money_checked_add(bucket_cost, estimated_cost) {
            None => None,
            Some(projected) => Some(money_greater(projected, max_cost)),
        },
    }
}

/// Whether a policy's budget is exhausted (see `policy_check`).
pub fn policy_exhausted(policy: &RateLimitPolicy, bucket_request_count: i64, bucket_cost: Money, estimated_cost: Money) -> (r: bool)
    requires
        bucket_request_count < i64::MAX,
        money_wf(bucket_cost),
        money_wf(estimated_cost),
        policy.max_estimated_cost_usd matches Some(c) ==> money_wf(c),
        spec_policy_check(policy.max_requests, policy.max_estimated_cost_usd, bucket_request_count, bucket_cost, estimated_cost) is Some,
    ensures
        Some(r) == spec_policy_check(policy.max_requests, policy.max_estimated_cost_usd, bucket_request_count, bucket_cost, estimated_cost),
{
    match policy_check(policy, bucket_request_count, bucket_cost, estimated_cost) {
        Some(b) => b,
        None => false,
    }
}

/// What the preflight loop does after reading a policy's bucket.
#[derive(Debug, Clone, Copy, PartialEq, Eq, Structural)]
pub enum PreflightStep {
    /// This policy has budget left: check the next one (or allow).
    Continue,
    /// Record a denial on this policy's bucket, then answer with the decision.
    Deny(PreflightDecision),
}

/// One step of the preflight check: after reading the bucket of a policy,
/// either go on or deny (with the route's exhaustion decision).
pub fn preflight_step(
    route: &str,
    provider: &str,
    model: &str,
    policy: &RateLimitPolicy,
    bucket: &RateLimitBucket,
    estimated_cost: Money,
) -> (r: PreflightStep)
    requires
        bucket.request_count < i64::MAX,
        money_wf(bucket.estimated_cost_usd),
        money_wf(estimated_cost),
        policy.max_estimated_cost_usd matches Some(c) ==> money_wf(c),
        spec_policy_check(policy.max_requests, policy.max_estimated_cost_usd, bucket.request_count, bucket.estimated_cost_usd, estimated_cost) is Some,
    ensures
        r == if spec_policy_check(policy.max_requests, policy.max_estimated_cost_usd, bucket.request_count, bucket.estimated_cost_usd, estimated_cost) == Some(true) {
            PreflightStep::Deny(spec_exhausted_decision(route@))
        } else {
            PreflightStep::Continue
        },
{
    if policy_exhausted(policy, bucket.request_count, bucket.estimated_cost_usd, estimated_cost) {
        PreflightStep::Deny(exhausted_decision(route, provider, model))
    } else {
        PreflightStep::Continue
    }
}

} // verus!

verus! {

/// One preflight step for any bucket: `None` when the bucket's cost plus
/// the estimated cost is not representable (the step cannot be decided),
/// otherwise the step `preflight_step` takes.
pub fn try_preflight_step(
    route: &str,
    provider: &str,
    model: &str,
    policy: &RateLimitPolicy,
    bucket: &RateLimitBucket,
    estimated_cost: Money,
) -> (r: Option<PreflightStep>)
    requires
        bucket.request_count < i64::MAX,
        money_wf(bucket.estimated_cost_usd),
        money_wf(estimated_cost),
        policy.max_estimated_cost_usd matches Some(c) ==> money_wf(c),
    ensures
        match spec_policy_check(policy.max_requests, policy.max_estimated_cost_usd, bucket.request_count, bucket.estimated_cost_usd, estimated_cost) {
            None => r is None,
            Some(true) => r == Some(PreflightStep::Deny(spec_exhausted_decision(route@))),
            Some(false) => r == Some(PreflightStep::Continue),
        },
{
    match policy_check(policy, bucket.request_count, bucket.estimated_cost_usd, estimated_cost) {
        None => None,
        Some(_) => Some(preflight_step(route, provider, model, policy, bucket, estimated_cost)),
    }
}

/// Route matching every route.
pub const ROUTE_ALL: &'static str = "all";
/// Interpretation route.
pub const ROUTE_INTERPRET: &'static str = "interpret";
/// Response route.
pub const ROUTE_RESPOND: &'static str = "respond";
/// Provider or model matching every value.
pub const DIMENSION_WILDCARD: &'static str = "*";

/// Upsert of a default policy.
pub const POLICY_UPSERT_SQL: &'static str = "
INSERT INTO llm_rate_limit_policies
    (scope_type, strategy, route, provider, model, window_unit,
     max_requests, max_input_tokens, max_output_tokens, max_total_tokens,
     max_estimated_cost_usd, enabled, updated_at)
VALUES ($1, 'fixed_window', $2, $3, $4, $5,
        $6, $7, $8, $9, $10, TRUE, NOW())
ON CONFLICT (scope_type, route, provider, model, window_unit)
DO UPDATE SET
    strategy        = EXCLUDED.strategy,
    max_requests    = EXCLUDED.max_requests,
    max_input_tokens  = EXCLUDED.max_input_tokens,
    max_output_tokens = EXCLUDED.max_output_tokens,
    max_total_tokens  = EXCLUDED.max_total_tokens,
    max_estimated_cost_usd = EXCLUDED.max_estimated_cost_usd,
    enabled         = EXCLUDED.enabled,
    updated_at      = NOW()
RETURNING *
";

/// Enabled policies applying to a route, provider and model, shortest
/// window first, then route, provider, model and global scopes.
pub const APPLICABLE_POLICIES_SQL: &'static str = "
SELECT id, scope_type, strategy, route, provider, model, window_unit,
       max_requests, max_input_tokens, max_output_tokens, max_total_tokens,
       max_estimated_cost_usd, enabled, created_at, updated_at
FROM llm_rate_limit_policies
WHERE enabled = TRUE
  AND (route = $1 OR route = 'all')
  AND (provider = $2 OR provider = '*')
  AND (model = $3 OR model = '*')
ORDER BY
    CASE window_unit WHEN 'minute' THEN 1 WHEN 'hour' THEN 2 ELSE 3 END ASC,
    CASE scope_type WHEN 'route' THEN 1 WHEN 'provider' THEN 2 WHEN 'model' THEN 3 ELSE 4 END ASC,
    id ASC
";

/// Fixed-window bucket upsert that adds the mutation's counters.
pub const BUCKET_UPSERT_SQL: &'static str = "
INSERT INTO llm_rate_limit_buckets
    (policy_id, scope_type, strategy, route, provider, model, window_unit,
     window_started_at, window_ends_at,
     request_count, input_tokens, output_tokens, total_tokens,
     estimated_cost_usd, deny_count,
     last_request_id, last_generation_id, last_seen_at, updated_at)
VALUES ($1, $2, 'fixed_window', $3, $4, $5, $6,
        $7, $8,
        $9, $10, $11, $12, $13, $14,
        $15, $16, NOW(), NOW())
ON CONFLICT (policy_id, window_started_at)
DO UPDATE SET
    request_count       = llm_rate_limit_buckets.request_count + EXCLUDED.request_count,
    input_tokens        = llm_rate_limit_buckets.input_tokens + EXCLUDED.input_tokens,
    output_tokens       = llm_rate_limit_buckets.output_tokens + EXCLUDED.output_tokens,
    total_tokens        = llm_rate_limit_buckets.total_tokens + EXCLUDED.total_tokens,
    estimated_cost_usd  = llm_rate_limit_buckets.estimated_cost_usd + EXCLUDED.estimated_cost_usd,
    deny_count          = llm_rate_limit_buckets.deny_count + EXCLUDED.deny_count,
    last_request_id     = COALESCE(EXCLUDED.last_request_id, llm_rate_limit_buckets.last_request_id),
    last_generation_id  = COALESCE(EXCLUDED.last_generation_id, llm_rate_limit_buckets.last_generation_id),
    last_seen_at        = NOW(),
    updated_at          = NOW()
RETURNING *
";

/// The window of an instant holds it: it starts at a multiple of its
/// length, at or before the instant, and ends after it; the window of its
/// start is itself.
pub proof fn lemma_window_holds_instant(at: Timestamp, unit: WindowUnit)
    requires
        timestamp_wf(at),
    ensures
        spec_window_start(at, unit).secs <= at.secs,
        at.secs < spec_window_start(at, unit).secs + window_secs(unit),
        (spec_window_start(at, unit).secs as int) % window_secs(unit) == 0,
        spec_window_start(spec_window_start(at, unit), unit) == spec_window_start(at, unit),
{
    let w = window_secs(unit);
    let x = at.secs as int;
    let r = x % w;
    assert(0 <= r < w);
    assert(r <= x - MIN_UTC_SECS) by (nonlinear_arith)
        requires
            w == 60 || w == 3600 || w == 86400,
            r == x % w,
            MIN_UTC_SECS <= x,
            MIN_UTC_SECS % 86400 == 0,
    ;
    let s = x - r;
    assert(s % w == 0) by {
        vstd::arithmetic::div_mod::lemma_fundamental_div_mod(x, w);
        vstd::arithmetic::div_mod::lemma_mod_multiples_basic(x / w, w);
        assert(s == (x / w) * w) by (nonlinear_arith)
            requires
                x == w * (x / w) + r,
                s == x - r,
        ;
    }
}

/// An exhausted budget lets the request go ahead exactly when the route
/// degrades; interpretation is always denied.
pub proof fn lemma_exhausted_allowed_iff_degraded(route: Seq<char>)
    ensures
        spec_exhausted_decision(route).allowed <==> spec_exhausted_decision(route).action == ExhaustionAction::Degrade,
        route == "interpret"@ ==> spec_exhausted_decision(route).action == ExhaustionAction::Deny,
{
    reveal_strlit("respond");
    reveal_strlit("interpret");
    assert("respond"@.len() != "interpret"@.len());
}

/// A policy without a request limit or a cost limit never exhausts.
pub proof fn lemma_unlimited_policy_never_exhausts(bucket_request_count: i64, bucket_cost: Money, estimated_cost: Money)
    ensures
        spec_policy_check(None, None, bucket_request_count, bucket_cost, estimated_cost) == Some(false),
{
}

/// A policy whose request limit the next request would pass is exhausted,
/// whatever the costs.
pub proof fn lemma_request_limit_exhausts(
    max_requests: i64,
    max_cost: Option<Money>,
    bucket_request_count: i64,
    bucket_cost: Money,
    estimated_cost: Money,
)
    requires
        bucket_request_count + 1 > max_requests,
    ensures
        spec_policy_check(Some(max_requests), max_cost, bucket_request_count, bucket_cost, estimated_cost) == Some(true),
{
}


/// A policy's budget is exhausted exactly when one more request would pass
/// its request limit, or when it has a cost limit and the bucket's cost
/// plus the estimated cost (the decimal sum) passes that limit: a cost over
/// the limit exhausts the budget whatever the request limit. The outcome is
/// unknown only when the request limit is not reached and that sum cannot
/// be represented.
pub proof fn lemma_exhaustion_is_either_limit(
    max_requests: Option<i64>,
    max_cost: Option<Money>,
    bucket_request_count: i64,
    bucket_cost: Money,
    estimated_cost: Money,
)
    ensures
        ({
            let sum = decimal_checked_add(
                bucket_cost.mantissa as int,
                bucket_cost.scale as nat,
                estimated_cost.mantissa as int,
                estimated_cost.scale as nat,
            );
            let requests_over = max_requests matches Some(m) && bucket_request_count + 1 > m;
            let cost_over = max_cost matches Some(c) && sum matches Some(t)
                && money_gt(Money { mantissa: t.0 as i128, scale: t.1 as u32 }, c);
            let outcome = spec_policy_check(max_requests, max_cost, bucket_request_count, bucket_cost, estimated_cost);
            &&& outcome == Some(true) <==> requests_over || cost_over
            &&& cost_over ==> outcome == Some(true)
            &&& outcome is None <==> !requests_over && max_cost is Some && sum is None
            &&& outcome == Some(false) <==> !requests_over && !cost_over && (max_cost is None || sum is Some)
        }),
{
}

} // verus!

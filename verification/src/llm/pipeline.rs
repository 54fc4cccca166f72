//! The decisions of a governed, cached LLM call, shared by interpretation,
//! drafting and delivery: governance first, then the cache, an
//! anti-stampede lock or a wait for another request, then the provider.
//! The caller performs each action and reports what came of it.
use vstd::prelude::*;
use vstd::string::*;
use crate::governance::rate_limit::ExhaustionAction;
use crate::governance::ledger::CacheStatus;

verus! {

/// Where a governed LLM call stands.
#[derive(Debug, Clone, Copy, PartialEq, Eq)]
pub enum PipelineState {
    /// Nothing done yet.
    Start,
    /// Waiting for the governance decision.
    Governance,
    /// Waiting for the cache lookup.
    CacheLookup,
    /// Waiting for the anti-stampede lock.
    Locking,
    /// Waiting for another request to fill the cache.
    Waiting,
    /// Waiting for the provider: whether its answer may be stored, and
    /// whether this request holds the lock.
    Provider { should_cache: bool, holds_lock: bool },
    /// Waiting for the lock to be released.
    Releasing,
    /// Finished.
    Done,
}

/// What came of the last action.
#[derive(Debug, Clone, Copy)]
pub enum PipelineEvent {
    /// The call begins.
    Begin,
    /// Governance decided.
    Decided(ExhaustionAction),
    /// The cache was looked up.
    Looked { hit: bool },
    /// The lock was tried.
    Locked { acquired: bool },
    /// The wait for another request ended.
    Waited { hit: bool },
    /// The provider call ended (with an answer or an error).
    ProviderAnswered,
    /// The lock was released (or releasing it failed, which is logged).
    Released,
}

/// What to do next.
#[derive(Debug, Clone, Copy, PartialEq, Eq)]
pub enum PipelineAction {
    /// Ask governance for a decision.
    CheckGovernance,
    /// Look the request up in the cache.
    LookupCache,
    /// Try to take the anti-stampede lock.
    AcquireLock,
    /// Wait for the request that holds the lock to fill the cache.
    WaitForEntry,
    /// Answer from the cache entry (found at once or after waiting).
    ServeCached { after_wait: bool },
    /// Call the provider; store the answer in the cache when allowed.
    CallProvider { should_cache: bool },
    /// Release the anti-stampede lock.
    ReleaseLock,
    /// Refuse the call: governance denied it.
    RejectRateLimited,
    /// Return the result.
    Finish,
    /// The event does not fit the state; nothing to do.
    Ignore,
}

/// The next state and action of a governed LLM call.
pub open spec fn next_step(s: PipelineState, e: PipelineEvent) -> (PipelineState, PipelineAction) {
    match (s, e) {
        (PipelineState::Start, PipelineEvent::Begin) => (PipelineState::Governance, PipelineAction::CheckGovernance),
        (PipelineState::Governance, PipelineEvent::Decided(a)) => match a {
            ExhaustionAction::Deny => (PipelineState::Done, PipelineAction::RejectRateLimited),
            ExhaustionAction::Degrade => (
                PipelineState::Provider { should_cache: false, holds_lock: false },
                PipelineAction::CallProvider { should_cache: false },
            ),
            ExhaustionAction::Allow => (PipelineState::CacheLookup, PipelineAction::LookupCache),
        },
        (PipelineState::CacheLookup, PipelineEvent::Looked { hit }) => if hit {
            (PipelineState::Done, PipelineAction::ServeCached { after_wait: false })
        } else {
            (PipelineState::Locking, PipelineAction::AcquireLock)
        },
        (PipelineState::Locking, PipelineEvent::Locked { acquired }) => if acquired {
            (
                PipelineState::Provider { should_cache: true, holds_lock: true },
                PipelineAction::CallProvider { should_cache: true },
            )
        } else {
            (PipelineState::Waiting, PipelineAction::WaitForEntry)
        },
        (PipelineState::Waiting, PipelineEvent::Waited { hit }) => if hit {
            (PipelineState::Done, PipelineAction::ServeCached { after_wait: true })
        } else {
            (
                PipelineState::Provider { should_cache: true, holds_lock: false },
                PipelineAction::CallProvider { should_cache: true },
            )
        },
        (PipelineState::Provider { should_cache, holds_lock }, PipelineEvent::ProviderAnswered) => if holds_lock {
            (PipelineState::Releasing, PipelineAction::ReleaseLock)
        } else {
            (PipelineState::Done, PipelineAction::Finish)
        },
        (PipelineState::Releasing, PipelineEvent::Released) => (PipelineState::Done, PipelineAction::Finish),
        _ => (s, PipelineAction::Ignore),
    }
}

/// The next state and action of a governed LLM call (see `next_step`).
pub fn pipeline_step(state: PipelineState, event: PipelineEvent) -> (r: (PipelineState, PipelineAction))
    ensures
        r == next_step(state, event),
{
    match (state, event) {
        (PipelineState::Start, PipelineEvent::Begin) => (PipelineState::Governance, PipelineAction::CheckGovernance),
        (PipelineState::Governance, PipelineEvent::Decided(a)) => match a {
            ExhaustionAction::Deny => (PipelineState::Done, PipelineAction::RejectRateLimited),
            ExhaustionAction::Degrade => (
                PipelineState::Provider { should_cache: false, holds_lock: false },
                PipelineAction::CallProvider { should_cache: false },
            ),
            ExhaustionAction::Allow => (PipelineState::CacheLookup, PipelineAction::LookupCache),
        },
        (PipelineState::CacheLookup, PipelineEvent::Looked { hit }) => if hit {
            (PipelineState::Done, PipelineAction::ServeCached { after_wait: false })
        } else {
            (PipelineState::Locking, PipelineAction::AcquireLock)
        },
        (PipelineState::Locking, PipelineEvent::Locked { acquired }) => if acquired {
            (
                PipelineState::Provider { should_cache: true, holds_lock: true },
                PipelineAction::CallProvider { should_cache: true },
            )
        } else {
            (PipelineState::Waiting, PipelineAction::WaitForEntry)
        },
        (PipelineState::Waiting, PipelineEvent::Waited { hit }) => if hit {
            (PipelineState::Done, PipelineAction::ServeCached { after_wait: true })
        } else {
            (
                PipelineState::Provider { should_cache: true, holds_lock: false },
                PipelineAction::CallProvider { should_cache: true },
            )
        },
        (PipelineState::Provider { should_cache, holds_lock }, PipelineEvent::ProviderAnswered) => if holds_lock {
            (PipelineState::Releasing, PipelineAction::ReleaseLock)
        } else {
            (PipelineState::Done, PipelineAction::Finish)
        },
        (PipelineState::Releasing, PipelineEvent::Released) => (PipelineState::Done, PipelineAction::Finish),
        _ => (state, PipelineAction::Ignore),
    }
}

/// The state after a sequence of events, from `s`.
pub open spec fn run(s: PipelineState, events: Seq<PipelineEvent>) -> PipelineState
    decreases events.len(),
{
    if events.len() == 0 {
        s
    } else {
        run(next_step(s, events[0]).0, events.drop_first())
    }
}

/// The actions emitted along a sequence of events, from `s`.
pub open spec fn actions(s: PipelineState, events: Seq<PipelineEvent>) -> Seq<PipelineAction>
    decreases events.len(),
{
    if events.len() == 0 {
        Seq::empty()
    } else {
        seq![next_step(s, events[0]).1] + actions(next_step(s, events[0]).0, events.drop_first())
    }
}

/// A state in which this request holds the anti-stampede lock.
pub open spec fn holds_lock(s: PipelineState) -> bool {
    s matches PipelineState::Provider { holds_lock: true, .. } || s == PipelineState::Releasing
}

/// A call that governance denies ends at once, refused, without calling
/// the provider or touching the cache.
pub proof fn lemma_denied_call_is_refused()
    ensures
        next_step(PipelineState::Governance, PipelineEvent::Decided(ExhaustionAction::Deny))
            == (PipelineState::Done, PipelineAction::RejectRateLimited),
{
}

/// A degraded call goes to the provider at once and its answer is never
/// stored in the cache.
pub proof fn lemma_degraded_call_bypasses_cache()
    ensures
        next_step(PipelineState::Governance, PipelineEvent::Decided(ExhaustionAction::Degrade)).1
            == (PipelineAction::CallProvider { should_cache: false }),
{
}

/// A call that holds the lock while waiting for the provider asks to
/// release it before it finishes: whatever events follow, a run from there
/// that ends finished emitted `ReleaseLock`.
pub proof fn lemma_lock_released_before_done(s: PipelineState, events: Seq<PipelineEvent>)
    requires
        s matches PipelineState::Provider { holds_lock: true, .. },
        run(s, events) == PipelineState::Done,
    ensures
        actions(s, events).contains(PipelineAction::ReleaseLock),
    decreases events.len(),
{
    let (n, a) = next_step(s, events[0]);
    if a == PipelineAction::ReleaseLock {
        assert(actions(s, events)[0] == PipelineAction::ReleaseLock);
    } else {
        assert(n == s);
        lemma_lock_released_before_done(n, events.drop_first());
        let rest = actions(n, events.drop_first());
        let k = choose|k: int| 0 <= k < rest.len() && rest[k] == PipelineAction::ReleaseLock;
        assert(actions(s, events)[k + 1] == PipelineAction::ReleaseLock);
    }
}

/// Only a request that acquired the lock holds it: every step into a
/// lock-holding state comes from the lock being granted, or stays in one.
pub proof fn lemma_lock_only_when_granted(s: PipelineState, e: PipelineEvent)
    requires
        !holds_lock(s),
        holds_lock(next_step(s, e).0),
    ensures
        s == PipelineState::Locking && e == (PipelineEvent::Locked { acquired: true }),
{
}

/// What a finished provider answer leads to.
#[derive(Debug, Clone, Copy)]
pub struct CompletionPlan {
    /// Store the answer in the cache.
    pub store_in_cache: bool,
    /// The contract fallback stands in for the answer.
    pub fallback_used: bool,
    /// How the ledger records the call.
    pub cache_status: CacheStatus,
}

/// What a provider answer leads to: an answer that fails its contract is
/// replaced by the fallback, recorded as bypassing the cache and never
/// stored; a valid answer is recorded as a miss and stored when the call
/// allows it.
pub fn completion_plan(should_cache: bool, contract_valid: bool) -> (r: CompletionPlan)
    ensures
        r.fallback_used == !contract_valid,
        r.store_in_cache == (should_cache && contract_valid),
        r.cache_status == if contract_valid { CacheStatus::Miss } else { CacheStatus::Bypass },
{
    CompletionPlan {
        store_in_cache: should_cache && contract_valid,
        fallback_used: !contract_valid,
        cache_status: if contract_valid { CacheStatus::Miss } else { CacheStatus::Bypass },
    }
}

/// Where a result came from: the fallback or the provider.
pub fn result_source(fallback_used: bool) -> (r: &'static str)
    ensures
        r@ == if fallback_used { "fallback"@ } else { "provider"@ },
{
    if fallback_used { "fallback" } else { "provider" }
}

/// The metadata headers of a result: provider, model, cache status
/// (`hit`/`miss`) and whether the fallback was used (`true`/`false`).
pub open spec fn provider_headers(provider: Seq<char>, model: Seq<char>, cache_hit: bool, fallback_used: bool) -> Seq<(Seq<char>, Seq<char>)> {
    seq![
        ("x-klass-provider"@, provider),
        ("x-klass-model"@, model),
        ("x-klass-cache-status"@, if cache_hit { "hit"@ } else { "miss"@ }),
        ("x-klass-fallback-used"@, if fallback_used { "true"@ } else { "false"@ }),
    ]
}

/// The views of a list of string pairs.
pub open spec fn pair_views(v: Seq<(String, String)>) -> Seq<(Seq<char>, Seq<char>)> {
    v.map_values(|p: (String, String)| (p.0@, p.1@))
}

/// The metadata headers of a result (see `provider_headers`).
pub fn build_provider_headers(provider: &str, model: &str, cache_hit: bool, fallback_used: bool) -> (r: Vec<(String, String)>)
    ensures
        pair_views(r@) == provider_headers(provider@, model@, cache_hit, fallback_used),
{
    let mut h: Vec<(String, String)> = Vec::new();
    h.push((String::from_str("x-klass-provider"), String::from_str(provider)));
    h.push((String::from_str("x-klass-model"), String::from_str(model)));
    h.push((
        String::from_str("x-klass-cache-status"),
        String::from_str(if cache_hit { "hit" } else { "miss" }),
    ));
    h.push((
        String::from_str("x-klass-fallback-used"),
        String::from_str(if fallback_used { "true" } else { "false" }),
    ));
    assert(pair_views(h@) =~= provider_headers(provider@, model@, cache_hit, fallback_used));
    h
}


/// Where a finished result came from.
#[derive(Debug, Clone)]
pub enum ResultOrigin {
    /// A cached answer.
    Cache,
    /// A provider answer that met its contract.
    Provider,
    /// The fallback, standing in for an answer that failed; with the reason.
    Fallback(String),
}

/// What every result of a governed call carries besides its payload.
#[derive(Debug, Clone)]
pub struct ResultEnvelope {
    /// `cache`, `provider` or `fallback`.
    pub source: String,
    pub cache_hit: bool,
    pub fallback_used: bool,
    /// Why the fallback stands in, when it does.
    pub fallback_error: Option<String>,
    /// The metadata headers (see `provider_headers`).
    pub response_headers: Vec<(String, String)>,
}

/// The source named for a result of the given origin.
pub open spec fn origin_source(o: ResultOrigin) -> Seq<char> {
    match o {
        ResultOrigin::Cache => "cache"@,
        ResultOrigin::Provider => "provider"@,
        ResultOrigin::Fallback(_) => "fallback"@,
    }
}

/// The envelope of a result: its source, whether it was a cache hit or the
/// fallback, the fallback's reason, and the metadata headers that follow
/// from these. The source is `fallback` exactly when a fallback reason is
/// present.
pub fn result_envelope(provider: &str, model: &str, origin: ResultOrigin) -> (r: ResultEnvelope)
    ensures
        r.source@ == origin_source(origin),
        r.cache_hit == (origin is Cache),
        r.fallback_used == (origin is Fallback),
        match origin {
            ResultOrigin::Fallback(e) => r.fallback_error == Some(e),
            _ => r.fallback_error is None,
        },
        (r.source@ == "fallback"@) == (r.fallback_error is Some),
        pair_views(r.response_headers@) == provider_headers(provider@, model@, r.cache_hit, r.fallback_used),
{
    proof {
        reveal_strlit("cache");
        reveal_strlit("provider");
        reveal_strlit("fallback");
        assert("cache"@.len() != "fallback"@.len());
        assert("provider"@.len() == "fallback"@.len() && "provider"@[0] != "fallback"@[0]);
    }
    match origin {
        ResultOrigin::Cache => ResultEnvelope {
            source: String::from_str("cache"),
            cache_hit: true,
            fallback_used: false,
            fallback_error: None,
            response_headers: build_provider_headers(provider, model, true, false),
        },
        ResultOrigin::Provider => ResultEnvelope {
            source: String::from_str("provider"),
            cache_hit: false,
            fallback_used: false,
            fallback_error: None,
            response_headers: build_provider_headers(provider, model, false, false),
        },
        ResultOrigin::Fallback(e) => ResultEnvelope {
            source: String::from_str("fallback"),
            cache_hit: false,
            fallback_used: true,
            fallback_error: Some(e),
            response_headers: build_provider_headers(provider, model, false, true),
        },
    }
}

} // verus!

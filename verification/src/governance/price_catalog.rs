//! LLM price catalog: cost estimates from token counts.
use vstd::prelude::*;

use crate::governance::money::{
    decimal_checked_add, decimal_checked_div, decimal_checked_mul, money_checked_add, money_checked_div,
    money_checked_mul, money_new, money_wf, money_zero, Money,
};
use crate::governance::time::Timestamp;

verus! {

/// A price catalog row; rates are USD per one million tokens.
#[derive(Debug, Clone)]
pub struct PriceEntry {
    pub id: i64,
    pub provider: String,
    pub model: String,
    pub input_cost_per_unit_usd: Option<Money>,
    pub output_cost_per_unit_usd: Option<Money>,
    pub effective_from: Timestamp,
    pub is_active: bool,
    pub created_at: Timestamp,
    pub updated_at: Timestamp,
}

/// An estimated request cost.
#[derive(Debug, Clone, Copy)]
pub struct CostEstimate {
    pub input_cost_usd: Money,
    pub output_cost_usd: Money,
    pub total_cost_usd: Money,
}

/// Active price of a provider and model.
pub const FIND_ACTIVE_SQL: &'static str = "
SELECT id, provider, model, input_cost_per_unit_usd, output_cost_per_unit_usd,
       effective_from, is_active, created_at, updated_at
FROM llm_price_catalog
WHERE provider = $1
  AND model = $2
  AND is_active = TRUE
  AND effective_from <= NOW()
ORDER BY effective_from DESC
LIMIT 1
";

/// Default input rate: 0.10 USD per million tokens.
pub open spec fn default_input_rate() -> Money {
    Money { mantissa: 10, scale: 2 }
}

/// Default output rate: 0.40 USD per million tokens.
pub open spec fn default_output_rate() -> Money {
    Money { mantissa: 40, scale: 2 }
}

/// The (input, output) rates used for an optional catalog entry.
pub open spec fn rates_of(entry: Option<PriceEntry>) -> (Money, Money) {
    match entry {
        Some(e) => (
            match e.input_cost_per_unit_usd { Some(r) => r, None => default_input_rate() },
            match e.output_cost_per_unit_usd { Some(r) => r, None => default_output_rate() },
        ),
        None => (default_input_rate(), default_output_rate()),
    }
}

/// The decimal view of a (mantissa, scale) pair.
pub open spec fn as_money(p: (int, nat)) -> Money {
    Money { mantissa: p.0 as i128, scale: p.1 as u32 }
}

/// Cost of `tokens` at `rate` per million: `rate * tokens / 1_000_000` for
/// positive counts, zero otherwise; `None` when not representable.
pub open spec fn token_cost(rate: Money, tokens: i64) -> Option<Money> {
    if tokens > 0 {
        match decimal_checked_mul(rate.mantissa as int, rate.scale as nat, tokens as int, 0) {
            None => None,
            Some(p) => match decimal_checked_div(p.0, p.1, 1_000_000, 0) {
                None => None,
                Some(q) => Some(as_money(q)),
            },
        }
    } else {
        Some(Money { mantissa: 0, scale: 0 })
    }
}

/// The cost estimate, or `None` when some step is not representable.
pub open spec fn spec_estimate(entry: Option<PriceEntry>, input_tokens: i64, output_tokens: i64) -> Option<CostEstimate> {
    let (ir, or) = rates_of(entry);
    match (token_cost(ir, input_tokens), token_cost(or, output_tokens)) {
        (Some(i), Some(o)) => match decimal_checked_add(i.mantissa as int, i.scale as nat, o.mantissa as int, o.scale as nat) {
            Some(t) => Some(CostEstimate { input_cost_usd: i, output_cost_usd: o, total_cost_usd: as_money(t) }),
            None => None,
        },
        _ => None,
    }
}

/// Rates of an entry are representable decimals.
pub open spec fn entry_wf(entry: Option<PriceEntry>) -> bool {
    entry matches Some(e) ==> {
        &&& (e.input_cost_per_unit_usd matches Some(r) ==> money_wf(r))
        &&& (e.output_cost_per_unit_usd matches Some(r) ==> money_wf(r))
    }
}

fn token_cost_exec(rate: Money, tokens: i64) -> (r: Option<Money>)
    requires
        money_wf(rate),
    ensures
        r == token_cost(rate, tokens),
        r matches Some(m) ==> money_wf(m),
{
    if tokens > 0 {
        match money_checked_mul(rate, money_new(tokens, 0)) {
            None => None,
            Some(p) => money_checked_div(p, money_new(1_000_000, 0)),
        }
    } else {
        Some(money_zero())
    }
}

/// Estimate a request's cost, or `None` when the arithmetic overflows.
///
/// Rates come from the entry, each defaulting to 0.10 (input) and 0.40
/// (output) USD per million tokens; each side costs `rate * tokens /
/// 1_000_000` when its token count is positive and zero otherwise, and the
/// total is their sum.
pub fn estimate_cost_checked(price_entry: &Option<PriceEntry>, input_tokens: i64, output_tokens: i64) -> (r: Option<CostEstimate>)
    requires
        entry_wf(*price_entry),
    ensures
        r == spec_estimate(*price_entry, input_tokens, output_tokens),
{
    let (input_rate, output_rate) = match price_entry {
        Some(entry) => (
            match entry.input_cost_per_unit_usd { Some(r) => r, None => money_new(10, 2) },
            match entry.output_cost_per_unit_usd { Some(r) => r, None => money_new(40, 2) },
        ),
        None => (money_new(10, 2), money_new(40, 2)),
    };
    let input_cost = match token_cost_exec(input_rate, input_tokens) {
        Some(c) => c,
        None => return None,
    };
    let output_cost = match token_cost_exec(output_rate, output_tokens) {
        Some(c) => c,
        None => return None,
    };
    match money_checked_add(input_cost, output_cost) {
        Some(total) => Some(CostEstimate { input_cost_usd: input_cost, output_cost_usd: output_cost, total_cost_usd: total }),
        None => None,
    }
}

/// Estimate a request's cost (see `estimate_cost_checked`) for inputs on
/// which the arithmetic does not overflow.
pub fn estimate_cost_inner(price_entry: &Option<PriceEntry>, input_tokens: i64, output_tokens: i64) -> (r: CostEstimate)
    requires
        entry_wf(*price_entry),
        spec_estimate(*price_entry, input_tokens, output_tokens) is Some,
    ensures
        Some(r) == spec_estimate(*price_entry, input_tokens, output_tokens),
{
    match estimate_cost_checked(price_entry, input_tokens, output_tokens) {
        Some(c) => c,
        None => CostEstimate { input_cost_usd: money_zero(), output_cost_usd: money_zero(), total_cost_usd: money_zero() },
    }
}

/// A side with no tokens (zero or a negative count) costs nothing, at any
/// rate; in particular a request without tokens has zero input and output
/// costs.
pub proof fn lemma_no_tokens_cost_nothing(entry: Option<PriceEntry>, input_tokens: i64, output_tokens: i64)
    ensures
        spec_estimate(entry, input_tokens, output_tokens) matches Some(e) ==> {
            &&& (input_tokens <= 0 ==> e.input_cost_usd.mantissa == 0)
            &&& (output_tokens <= 0 ==> e.output_cost_usd.mantissa == 0)
        },
{
}

} // verus!

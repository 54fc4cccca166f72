//! USD amounts as fixed-point decimals, computed with `rust_decimal`.
use vstd::prelude::*;

use rust_decimal::Decimal;

verus! {

/// A decimal amount `mantissa / 10^scale`, the representation that
/// `rust_decimal::Decimal` uses.
#[derive(Debug, Clone, Copy)]
pub struct Money {
    pub mantissa: i128,
    pub scale: u32,
}

/// Largest magnitude of a decimal mantissa (96 bits).
pub const MAX_MANTISSA: i128 = 0xFFFF_FFFF_FFFF_FFFF_FFFF_FFFF;

/// Largest decimal scale.
pub const MAX_SCALE: u32 = 28;

/// A representable decimal.
pub open spec fn money_wf(m: Money) -> bool {
    m.scale <= MAX_SCALE && -MAX_MANTISSA <= m.mantissa <= MAX_MANTISSA
}

/// `10^n`.
pub open spec fn pow10(n: nat) -> int
    decreases n,
{
    if n == 0 { 1 } else { 10 * pow10((n - 1) as nat) }
}

/// `a` is numerically greater than `b`.
pub open spec fn money_gt(a: Money, b: Money) -> bool {
    a.mantissa * pow10(b.scale as nat) > b.mantissa * pow10(a.scale as nat)
}

/// `Decimal::new(num, scale)`: the decimal `num / 10^scale`.
pub fn money_new(num: i64, scale: u32) -> (r: Money)
    requires
        scale <= MAX_SCALE,
    ensures
        r.mantissa == num,
        r.scale == scale,
        money_wf(r),
{
    Money { mantissa: num as i128, scale }
}

/// Zero.
pub fn money_zero() -> (r: Money)
    ensures
        r.mantissa == 0,
        r.scale == 0,
        money_wf(r),
{
    Money { mantissa: 0, scale: 0 }
}

/// What `Decimal::checked_add` returns for two decimals, as
/// (mantissa, scale); `None` when the sum overflows.
pub uninterp spec fn decimal_checked_add(a_mantissa: int, a_scale: nat, b_mantissa: int, b_scale: nat) -> Option<(int, nat)>;

/// What `Decimal::checked_mul` returns for two decimals, as
/// (mantissa, scale); `None` when the product overflows.
pub uninterp spec fn decimal_checked_mul(a_mantissa: int, a_scale: nat, b_mantissa: int, b_scale: nat) -> Option<(int, nat)>;

/// What `Decimal::checked_div` returns for two decimals, as
/// (mantissa, scale); `None` on division by zero or overflow.
pub uninterp spec fn decimal_checked_div(a_mantissa: int, a_scale: nat, b_mantissa: int, b_scale: nat) -> Option<(int, nat)>;

/// The (mantissa, scale) view of an optional decimal.
pub open spec fn money_opt_view(r: Option<Money>) -> Option<(int, nat)> {
    match r {
        Some(m) => Some((m.mantissa as int, m.scale as nat)),
        None => None,
    }
}

/// Calls `Decimal::checked_add` on the two decimals; the result is named
/// `decimal_checked_add`, and a returned decimal is representable.
#[verifier::external_body]
pub(crate) fn money_checked_add(a: Money, b: Money) -> (r: Option<Money>)
    requires
        money_wf(a),
        money_wf(b),
    ensures
        money_opt_view(r) == decimal_checked_add(a.mantissa as int, a.scale as nat, b.mantissa as int, b.scale as nat),
        r matches Some(m) ==> money_wf(m),
{
    let x = Decimal::from_i128_with_scale(a.mantissa, a.scale);
    let y = Decimal::from_i128_with_scale(b.mantissa, b.scale);
    x.checked_add(y).map(|d| Money { mantissa: d.mantissa(), scale: d.scale() })
}

/// Calls `Decimal::checked_mul` on the two decimals; the result is named
/// `decimal_checked_mul`, and a returned decimal is representable.
#[verifier::external_body]
pub(crate) fn money_checked_mul(a: Money, b: Money) -> (r: Option<Money>)
    requires
        money_wf(a),
        money_wf(b),
    ensures
        money_opt_view(r) == decimal_checked_mul(a.mantissa as int, a.scale as nat, b.mantissa as int, b.scale as nat),
        r matches Some(m) ==> money_wf(m),
{
    let x = Decimal::from_i128_with_scale(a.mantissa, a.scale);
    let y = Decimal::from_i128_with_scale(b.mantissa, b.scale);
    x.checked_mul(y).map(|d| Money { mantissa: d.mantissa(), scale: d.scale() })
}

/// Calls `Decimal::checked_div` on the two decimals; the result is named
/// `decimal_checked_div`, and a returned decimal is representable.
#[verifier::external_body]
pub(crate) fn money_checked_div(a: Money, b: Money) -> (r: Option<Money>)
    requires
        money_wf(a),
        money_wf(b),
    ensures
        money_opt_view(r) == decimal_checked_div(a.mantissa as int, a.scale as nat, b.mantissa as int, b.scale as nat),
        r matches Some(m) ==> money_wf(m),
{
    let x = Decimal::from_i128_with_scale(a.mantissa, a.scale);
    let y = Decimal::from_i128_with_scale(b.mantissa, b.scale);
    x.checked_div(y).map(|d| Money { mantissa: d.mantissa(), scale: d.scale() })
}

/// Calls `<Decimal as PartialOrd>::gt`, which compares numeric values.
#[verifier::external_body]
pub(crate) fn money_greater(a: Money, b: Money) -> (r: bool)
    requires
        money_wf(a),
        money_wf(b),
    ensures
        r == money_gt(a, b),
{
    let x = Decimal::from_i128_with_scale(a.mantissa, a.scale);
    let y = Decimal::from_i128_with_scale(b.mantissa, b.scale);
    x > y
}

} // verus!

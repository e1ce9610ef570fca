use vstd::prelude::*;

verus! {

/// Seconds in a 365-day year; lock periods are expressed in seconds.
pub const SECONDS_PER_YEAR: u64 = 365 * 24 * 60 * 60;

/// Reward rates are annual rates in basis points.
pub const RATE_DENOMINATOR: u64 = 10000;

/// Fee rates are in thousandths of the principal.
pub const FEE_DENOMINATOR: u64 = 1000;

/// The reward owed for holding `principal` for `lock_period` seconds at an
/// annual rate of `rate` basis points, rounded down. A lock period that is not
/// positive earns nothing.
pub open spec fn exact_reward(principal: u64, rate: u64, lock_period: i64) -> int {
    if lock_period <= 0 {
        0
    } else {
        (principal as int) * (rate as int) * (lock_period as int) / (RATE_DENOMINATOR as int
            * SECONDS_PER_YEAR as int)
    }
}

/// `exact_reward`, capped at `u64::MAX`.
pub open spec fn reward_of(principal: u64, rate: u64, lock_period: i64) -> u64 {
    let exact = exact_reward(principal, rate, lock_period);
    if exact > u64::MAX as int {
        u64::MAX
    } else {
        exact as u64
    }
}

/// The protocol fee taken from `principal` at a fee rate of `fee_rate`
/// thousandths, rounded down.
pub open spec fn fee_of(principal: u64, fee_rate: u64) -> int {
    (principal as int) * (fee_rate as int) / (FEE_DENOMINATOR as int)
}

proof fn lemma_product_bound(a: u64, b: u64)
    ensures
        (a as int) * (b as int) <= u128::MAX as int,
{
    assert((a as int) * (b as int) <= (u64::MAX as int) * (u64::MAX as int)) by (nonlinear_arith);
}

/// Computes `exact_reward(principal, rate, lock_period)`; `None` exactly when
/// it lies beyond the range of `u64`.
pub fn checked_reward(principal: u64, rate: u64, lock_period: i64) -> (r: Option<u64>)
    ensures
        r is Some <==> exact_reward(principal, rate, lock_period) <= u64::MAX as int,
        r matches Some(v) ==> v as int == exact_reward(principal, rate, lock_period),
{
    if lock_period <= 0 {
        return Some(0);
    }
    assert(SECONDS_PER_YEAR == 31536000 && RATE_DENOMINATOR == 10000);
    let rate_unit: u128 = RATE_DENOMINATOR as u128;
    let year: u128 = SECONDS_PER_YEAR as u128;
    assert(rate_unit * year == 315360000000) by (nonlinear_arith)
        requires
            rate_unit == 10000,
            year == 31536000,
    ;
    let denom: u128 = rate_unit * year;
    proof {
        lemma_product_bound(principal, rate);
    }
    let per_second: u128 = principal as u128 * rate as u128;
    match per_second.checked_mul(lock_period as u128) {
        Some(total) => {
            let q: u128 = total / denom;
            if q > u64::MAX as u128 {
                None
            } else {
                Some(q as u64)
            }
        },
        None => {
            proof {
                let t = (per_second as int) * (lock_period as int);
                let d = denom as int;
                assert(t > u128::MAX as int);
                vstd::arithmetic::div_mod::lemma_div_is_ordered(u128::MAX as int, t, d);
                let k = u64::MAX as int + 1;
                assert(d * k <= u128::MAX as int);
                vstd::arithmetic::div_mod::lemma_div_is_ordered(d * k, u128::MAX as int, d);
                vstd::arithmetic::div_mod::lemma_div_multiples_vanish(k, d);
                assert(t == (principal as int) * (rate as int) * (lock_period as int));
            }
            None
        },
    }
}

/// Computes `reward_of(principal, rate, lock_period)`.
pub fn compute_reward(principal: u64, rate: u64, lock_period: i64) -> (r: u64)
    ensures
        r == reward_of(principal, rate, lock_period),
{
    match checked_reward(principal, rate, lock_period) {
        Some(v) => v,
        None => u64::MAX,
    }
}

/// Splits `principal` into the protocol fee and the net principal returned to
/// the participant. Fails exactly when the fee would exceed the principal,
/// which happens only for fee rates above `FEE_DENOMINATOR`.
pub fn split_fee(principal: u64, fee_rate: u64) -> (r: Option<(u64, u64)>)
    ensures
        r is Some <==> fee_of(principal, fee_rate) <= principal as int,
        r matches Some((fee, net)) ==> fee as int == fee_of(principal, fee_rate) && net as int
            == principal as int - fee_of(principal, fee_rate),
{
    proof {
        lemma_product_bound(principal, fee_rate);
    }
    let fee: u128 = (principal as u128 * fee_rate as u128) / (FEE_DENOMINATOR as u128);
    if fee > principal as u128 {
        None
    } else {
        let fee_amount = fee as u64;
        Some((fee_amount, principal - fee_amount))
    }
}

/// For every fee rate up to `FEE_DENOMINATOR`, the fee never exceeds the
/// principal, and the fee and the net principal add up to the principal
/// exactly.
pub proof fn lemma_fee_split_exact(principal: u64, fee_rate: u64)
    requires
        fee_rate <= FEE_DENOMINATOR,
    ensures
        0 <= fee_of(principal, fee_rate) <= principal as int,
        fee_of(principal, fee_rate) + (principal as int - fee_of(principal, fee_rate))
            == principal as int,
{
    let p = principal as int;
    let f = fee_rate as int;
    assert(0 <= p * f <= p * 1000) by (nonlinear_arith)
        requires
            0 <= p,
            0 <= f <= 1000,
    ;
    vstd::arithmetic::div_mod::lemma_div_is_ordered(p * f, p * 1000, 1000);
    vstd::arithmetic::div_mod::lemma_div_is_ordered(0, p * f, 1000);
    vstd::arithmetic::div_mod::lemma_div_multiples_vanish(p, 1000);
}

} // verus!

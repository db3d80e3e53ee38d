//! Prices and time-based accrual shared by both game variants.
use vstd::prelude::*;

verus! {

/// What a new building costs, and what every player starts with.
pub const BUILDING_PRICE: u64 = 100;

/// The gold balance of a freshly created player.
pub const STARTING_GOLD: u64 = 100;

/// Scale of the level-up price: `level * rate * LEVEL_PRICE_FACTOR * accrual`.
pub const LEVEL_PRICE_FACTOR: u64 = 100;

/// The balance reached after `elapsed` time units, growing by `rate` once per
/// full period of `divisor` units.
pub open spec fn accrued(balance: int, rate: int, divisor: int, elapsed: int) -> int {
    balance + (elapsed / divisor) * rate
}

/// The price of raising a building from `level` to `level + 1`.
pub open spec fn level_price(level: int, divisor: int, rate: int) -> int {
    level * divisor * LEVEL_PRICE_FACTOR * rate
}

/// Computes `accrued(balance, rate, divisor, elapsed)`, or `None` when it
/// exceeds `u64::MAX`.
pub fn accrue(balance: u64, rate: u64, divisor: u32, elapsed: u64) -> (r: Option<u64>)
    requires
        divisor >= 1,
    ensures
        accrued(balance as int, rate as int, divisor as int, elapsed as int) <= u64::MAX
            ==> r == Some(accrued(balance as int, rate as int, divisor as int, elapsed as int) as u64),
        accrued(balance as int, rate as int, divisor as int, elapsed as int) > u64::MAX
            ==> r is None,
{
    let periods: u64 = elapsed / (divisor as u64);
    assert((periods as int) * (rate as int) <= (u64::MAX as int) * (u64::MAX as int))
        by (nonlinear_arith)
        requires
            periods <= u64::MAX,
            rate <= u64::MAX,
    ;
    let growth: u128 = (periods as u128) * (rate as u128);
    let total: u128 = (balance as u128) + growth;
    if total > (u64::MAX as u128) {
        None
    } else {
        Some(total as u64)
    }
}

/// Computes `level_price(level, divisor, rate)`, or `None` when it exceeds
/// `u64::MAX`.
pub fn next_level_price(level: u64, divisor: u32, rate: u64) -> (r: Option<u64>)
    ensures
        level_price(level as int, divisor as int, rate as int) <= u64::MAX
            ==> r == Some(level_price(level as int, divisor as int, rate as int) as u64),
        level_price(level as int, divisor as int, rate as int) > u64::MAX ==> r is None,
{
    assert((level as int) * (divisor as int) * 100 <= (u64::MAX as int) * (u32::MAX as int) * 100)
        by (nonlinear_arith)
        requires
            level <= u64::MAX,
            divisor <= u32::MAX,
    ;
    let base: u128 = (level as u128) * (divisor as u128) * (LEVEL_PRICE_FACTOR as u128);
    if rate == 0 {
        assert(level_price(level as int, divisor as int, rate as int) == 0) by (nonlinear_arith)
            requires
                rate == 0,
        ;
        Some(0)
    } else if base > (u64::MAX as u128) {
        assert(level_price(level as int, divisor as int, rate as int) > u64::MAX)
            by (nonlinear_arith)
            requires
                base as int == (level as int) * (divisor as int) * 100,
                base > u64::MAX,
                rate >= 1,
        ;
        None
    } else {
        assert((base as int) * (rate as int) <= (u64::MAX as int) * (u64::MAX as int))
            by (nonlinear_arith)
            requires
                base <= u64::MAX,
                rate <= u64::MAX,
        ;
        let price: u128 = base * (rate as u128);
        if price > (u64::MAX as u128) {
            None
        } else {
            Some(price as u64)
        }
    }
}

/// The price of a level-up is never negative.
pub proof fn lemma_price_nonnegative(level: nat, divisor: nat, rate: nat)
    ensures
        level_price(level as int, divisor as int, rate as int) >= 0,
{
    assert((level as int) * (divisor as int) * 100 * (rate as int) >= 0) by (nonlinear_arith);
}

/// Time shorter than one period accrues nothing.
pub proof fn lemma_accrual_within_period(balance: int, rate: int, divisor: int, elapsed: int)
    requires
        divisor >= 1,
        0 <= elapsed < divisor,
    ensures
        accrued(balance, rate, divisor, elapsed) == balance,
{
    assert(elapsed / divisor == 0) by (nonlinear_arith)
        requires
            divisor >= 1,
            0 <= elapsed < divisor,
    ;
}

/// Exactly `periods` whole periods accrue `periods * rate`.
pub proof fn lemma_accrual_whole_periods(balance: int, rate: int, divisor: int, periods: nat)
    ensures
        divisor >= 1 ==> accrued(balance, rate, divisor, divisor * periods) == balance + periods
            * rate,
{
    if divisor >= 1 {
        vstd::arithmetic::div_mod::lemma_div_multiples_vanish(periods as int, divisor);
    }
}

} // verus!

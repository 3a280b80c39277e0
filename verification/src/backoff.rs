//! The delay that each backoff strategy puts before a retry.
//!
//! Retries are counted from zero. Delays are whole milliseconds: where a
//! multiplier has a fraction, each step of an exponential backoff is
//! rounded down.

use vstd::prelude::*;
use vstd::arithmetic::power::pow;
use crate::config::BackoffStrategy;

verus! {

/// The delay that grows from `initial` by `multiplier` thousandths per
/// retry, before any cap: each step multiplies and rounds down.
pub open spec fn scaled(initial: nat, multiplier: nat, retry: nat) -> nat
    decreases retry,
{
    if retry == 0 {
        initial
    } else {
        scaled(initial, multiplier, (retry - 1) as nat) * multiplier / 1000
    }
}

/// The delay in milliseconds before retry number `retry`: constant for a
/// fixed strategy; `initial * multiplier^retry`, capped at the maximum, for
/// an exponential one; `initial + retry * increment`, without a cap, for a
/// linear one.
pub open spec fn delay(strategy: BackoffStrategy, retry: nat) -> nat {
    match strategy {
        BackoffStrategy::Fixed { delay_ms } => delay_ms as nat,
        BackoffStrategy::Exponential { initial_delay_ms, multiplier, max_delay_ms } => {
            let grown = scaled(initial_delay_ms as nat, multiplier.count as nat, retry);
            if grown <= max_delay_ms {
                grown
            } else {
                max_delay_ms as nat
            }
        },
        BackoffStrategy::Linear { initial_delay_ms, increment_ms } => (initial_delay_ms + retry
            * increment_ms) as nat,
    }
}

/// With a multiplier of one or more the delay never shrinks.
pub proof fn lemma_scaled_grows(initial: nat, multiplier: nat, early: nat, late: nat)
    requires
        multiplier >= 1000,
        early <= late,
    ensures
        scaled(initial, multiplier, early) <= scaled(initial, multiplier, late),
    decreases late,
{
    if early < late {
        lemma_scaled_grows(initial, multiplier, early, (late - 1) as nat);
        let x = scaled(initial, multiplier, (late - 1) as nat);
        assert(x * multiplier / 1000 >= x) by (nonlinear_arith)
            requires
                multiplier >= 1000,
        ;
    }
}

/// With a multiplier of one or less the delay never grows.
pub proof fn lemma_scaled_shrinks(initial: nat, multiplier: nat, retry: nat)
    requires
        multiplier <= 1000,
    ensures
        scaled(initial, multiplier, retry) <= initial,
    decreases retry,
{
    if retry > 0 {
        lemma_scaled_shrinks(initial, multiplier, (retry - 1) as nat);
        let x = scaled(initial, multiplier, (retry - 1) as nat);
        assert(x * multiplier / 1000 <= x) by (nonlinear_arith)
            requires
                multiplier <= 1000,
        ;
    }
}

/// With a whole multiplier `factor` no step rounds: the uncapped delay is
/// `initial * factor^retry`.
pub proof fn lemma_scaled_by_whole_factor(initial: nat, factor: nat, retry: nat)
    ensures
        scaled(initial, 1000 * factor, retry) == initial * pow(factor as int, retry),
    decreases retry,
{
    reveal(pow);
    if retry > 0 {
        lemma_scaled_by_whole_factor(initial, factor, (retry - 1) as nat);
        let x = scaled(initial, 1000 * factor, (retry - 1) as nat);
        let p = pow(factor as int, (retry - 1) as nat);
        assert(x * (1000 * factor) / 1000 == x * factor) by (nonlinear_arith);
        assert((initial * p) * factor == initial * (factor * p)) by (nonlinear_arith);
    }
}

/// An exponential delay never exceeds its cap, and a fixed delay never
/// changes.
pub proof fn lemma_delay_bounds(strategy: BackoffStrategy, retry: nat)
    ensures
        strategy matches BackoffStrategy::Exponential { max_delay_ms, .. } ==> delay(
            strategy,
            retry,
        ) <= max_delay_ms,
        strategy matches BackoffStrategy::Fixed { delay_ms } ==> delay(strategy, retry)
            == delay_ms,
{
}

fn exponential_delay(initial: u64, multiplier: u64, cap: u64, retry: u32) -> (r: u64)
    ensures
        r == delay(
            BackoffStrategy::Exponential {
                initial_delay_ms: initial,
                multiplier: crate::config::Thousandths { count: multiplier },
                max_delay_ms: cap,
            },
            retry as nat,
        ),
{
    let mut current: u64 = initial;
    let mut k: u32 = 0;
    while k < retry
        invariant
            k <= retry,
            current == scaled(initial as nat, multiplier as nat, k as nat),
        decreases retry - k,
    {
        assert(current * multiplier <= u64::MAX * u64::MAX) by (nonlinear_arith)
            requires
                current <= u64::MAX,
                multiplier <= u64::MAX,
        ;
        let product: u128 = (current as u128) * (multiplier as u128);
        let next: u128 = product / 1000;
        if multiplier >= 1000 && next >= cap as u128 {
            proof {
                lemma_scaled_grows(
                    initial as nat,
                    multiplier as nat,
                    (k + 1) as nat,
                    retry as nat,
                );
            }
            return cap;
        }
        proof {
            if multiplier < 1000 {
                lemma_scaled_shrinks(initial as nat, multiplier as nat, (k + 1) as nat);
            }
        }
        current = next as u64;
        k += 1;
    }
    if current <= cap {
        current
    } else {
        cap
    }
}

impl BackoffStrategy {
    /// The delay in milliseconds before retry number `retry`, counted from
    /// zero. `None` where a linear delay does not fit in 64 bits.
    pub fn delay_ms(&self, retry: u32) -> (r: Option<u64>)
        ensures
            r == (if delay(*self, retry as nat) <= u64::MAX {
                Some(delay(*self, retry as nat) as u64)
            } else {
                None
            }),
    {
        match *self {
            BackoffStrategy::Fixed { delay_ms } => Some(delay_ms),
            BackoffStrategy::Exponential { initial_delay_ms, multiplier, max_delay_ms } => Some(
                exponential_delay(initial_delay_ms, multiplier.count, max_delay_ms, retry),
            ),
            BackoffStrategy::Linear { initial_delay_ms, increment_ms } => {
                assert(retry * increment_ms <= u32::MAX * u64::MAX) by (nonlinear_arith)
                    requires
                        retry <= u32::MAX,
                        increment_ms <= u64::MAX,
                ;
                let growth: u128 = (retry as u128) * (increment_ms as u128);
                let total: u128 = (initial_delay_ms as u128) + growth;
                if total <= u64::MAX as u128 {
                    Some(total as u64)
                } else {
                    None
                }
            },
        }
    }
}

} // verus!

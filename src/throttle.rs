//! The hash-rate throttle: how long to sleep after a search so that the work
//! done appears to have run at the target rate, and which rate to report.
//!
//! Rates are counted in hundredths of a hash per second and times in
//! nanoseconds, so that both are whole numbers.

use vstd::prelude::*;
use vstd::arithmetic::div_mod::{lemma_fundamental_div_mod, lemma_fundamental_div_mod_converse};
use crate::search::{last_nonce, MAX_DIFFICULTY};

verus! {

/// Nanoseconds in a second.
pub const NANOS_PER_SECOND: u64 = 1_000_000_000;

/// Rate units in one hash per second.
pub const RATE_UNITS_PER_HASH: u64 = 100;

/// Work units times this, divided by a rate, gives nanoseconds.
pub const SCALE: u128 = 100_000_000_000;

pub open spec fn scale() -> nat {
    RATE_UNITS_PER_HASH as nat * NANOS_PER_SECOND as nat
}

/// The work that a search stands for: the nonce it found, or on a miss the
/// whole search space of `space` nonces.
pub open spec fn work_of(found: Option<u64>, space: u64) -> u64 {
    match found {
        Some(k) => k,
        None => space,
    }
}

/// The number of nonces that a search at difficulty `diff` tries.
pub open spec fn space_of(diff: nat) -> nat {
    last_nonce(diff) + 1
}

/// How long `work` hashes take at `rate` (in hundredths of a hash per
/// second), in whole nanoseconds.
pub open spec fn needed_ns(work: nat, rate: nat) -> nat {
    work * scale() / rate
}

/// The sleep that pads a search of `elapsed` nanoseconds up to the time
/// `work` needs at `rate`: never negative, and capped at `u64::MAX`.
pub open spec fn sleep_ns(work: nat, elapsed: nat, rate: nat) -> nat {
    let need = needed_ns(work, rate);
    if need <= elapsed {
        0
    } else if need - elapsed > u64::MAX {
        u64::MAX as nat
    } else {
        (need - elapsed) as nat
    }
}

/// The rate, in hundredths of a hash per second, at which `work` hashes ran
/// in `total` nanoseconds; a span of zero counts as one nanosecond, and the
/// rate is capped at `u64::MAX`.
pub open spec fn rate_of(work: nat, total: nat) -> nat {
    let span = if total == 0 { 1 } else { total };
    let r = work * scale() / span;
    if r > u64::MAX { u64::MAX as nat } else { r }
}

/// The number of nonces that a search at difficulty `diff` tries.
pub fn search_space(diff: u64) -> (r: u64)
    requires
        diff <= MAX_DIFFICULTY,
    ensures
        r as nat == space_of(diff as nat),
{
    100 * diff + 1
}

/// The work units of a search outcome over `space` nonces.
pub fn work_units(found: Option<u64>, space: u64) -> (r: u64)
    ensures
        r == work_of(found, space),
{
    match found {
        Some(k) => k,
        None => space,
    }
}

proof fn lemma_scaled_fits(work: u64)
    ensures
        work as nat * scale() <= u64::MAX as nat * scale(),
        u64::MAX as nat * scale() < u128::MAX,
        scale() == SCALE,
{
    assert(work as nat * scale() <= u64::MAX as nat * scale()) by (nonlinear_arith)
        requires
            work <= u64::MAX,
            scale() == 100_000_000_000,
    ;
}

/// The time to sleep after a search that took `elapsed_ns` and did `work`
/// hashes, so that the whole took `work / target_rate`: zero when the search
/// was already slower than that.
pub fn sleep_duration(work: u64, elapsed_ns: u64, target_rate: u64) -> (r: u64)
    requires
        target_rate > 0,
    ensures
        r as nat == sleep_ns(work as nat, elapsed_ns as nat, target_rate as nat),
{
    proof {
        lemma_scaled_fits(work);
    }
    let need: u128 = (work as u128) * SCALE / (target_rate as u128);
    if need <= elapsed_ns as u128 {
        0
    } else if need - elapsed_ns as u128 > u64::MAX as u128 {
        u64::MAX
    } else {
        (need - elapsed_ns as u128) as u64
    }
}

/// The rate to report for `work` hashes that took `total_ns` in all, search
/// and sleep together.
pub fn reported_rate(work: u64, total_ns: u64) -> (r: u64)
    ensures
        r as nat == rate_of(work as nat, total_ns as nat),
{
    proof {
        lemma_scaled_fits(work);
    }
    let span: u128 = if total_ns == 0 { 1 } else { total_ns as u128 };
    let rate: u128 = (work as u128) * SCALE / span;
    if rate > u64::MAX as u128 {
        u64::MAX
    } else {
        rate as u64
    }
}

/// Under a clock that measures exactly, a search that finished within the
/// time its work needs at the target rate is reported at exactly that rate
/// once the throttle's sleep is added, provided the work needs at least as
/// many nanoseconds as the rate has units.
pub proof fn lemma_throttled_rate_is_target(work: nat, elapsed: nat, rate: nat)
    requires
        rate > 0,
        elapsed <= needed_ns(work, rate) <= u64::MAX,
        rate <= needed_ns(work, rate),
    ensures
        rate_of(work, elapsed + sleep_ns(work, elapsed, rate)) == rate,
{
    let x = work * scale();
    let n = needed_ns(work, rate);
    assert(elapsed + sleep_ns(work, elapsed, rate) == n);
    lemma_fundamental_div_mod(x as int, rate as int);
    let m = x % rate;
    assert(x == rate * n + m);
    assert(0 <= m < rate);
    assert(n > 0);
    let rem = x - n * rate;
    assert(rem == m) by (nonlinear_arith)
        requires
            x == rate * n + m,
            rem == x - n * rate,
    ;
    assert(0 <= rem < n);
    lemma_fundamental_div_mod_converse(x as int, n as int, rate as int, rem as int);
    assert(x / n == rate);
}

/// The sleep is never negative, and it is zero exactly when the search alone
/// took at least the time that the work needs at the target rate.
pub proof fn lemma_sleep_clamps_at_zero(work: nat, elapsed: nat, rate: nat)
    requires
        rate > 0,
    ensures
        sleep_ns(work, elapsed, rate) >= 0,
        sleep_ns(work, elapsed, rate) == 0 <==> elapsed >= needed_ns(work, rate),
        elapsed < needed_ns(work, rate) && needed_ns(work, rate) - elapsed <= u64::MAX
            ==> sleep_ns(work, elapsed, rate) == needed_ns(work, rate) - elapsed,
{
}

} // verus!

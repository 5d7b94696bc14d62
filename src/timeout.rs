use vstd::prelude::*;

verus! {

/// How finely the platform's blocking-read timer can express a timeout.
#[derive(Clone, Copy, Debug, PartialEq, Eq, Structural)]
pub enum TimerGranularity {
    /// Timeouts are counted in whole deciseconds (POSIX `VTIME`).
    Decisecond,
    /// Timeouts are honoured to the millisecond.
    Millisecond,
}

/// The largest timeout that still rounds up to a multiple of 100 within `u64`.
pub const MAX_COARSE_TIMEOUT_MS: u64 = 18446744073709551600;

/// The smallest multiple of 100 that is at least `t`.
pub open spec fn round_up_to_decisecond(t: int) -> int {
    if t % 100 == 0 {
        t
    } else {
        t - t % 100 + 100
    }
}

/// The timeout that a platform of granularity `g` applies for a request of `t` ms.
pub open spec fn normalized_timeout(t: int, g: TimerGranularity) -> int {
    match g {
        TimerGranularity::Decisecond => round_up_to_decisecond(t),
        TimerGranularity::Millisecond => t,
    }
}

/// Rounds a requested timeout (in milliseconds) to what the platform's timer
/// can represent, never below the request. Zero ("block indefinitely") stays zero.
pub fn normalize_timeout_ms(timeout_ms: u64, granularity: TimerGranularity) -> (r: u64)
    requires
        granularity == TimerGranularity::Decisecond ==> timeout_ms <= MAX_COARSE_TIMEOUT_MS,
    ensures
        r == normalized_timeout(timeout_ms as int, granularity),
{
    match granularity {
        TimerGranularity::Decisecond => {
            let rem: u64 = timeout_ms % 100;
            if rem == 0 {
                timeout_ms
            } else {
                timeout_ms - rem + 100
            }
        },
        TimerGranularity::Millisecond => timeout_ms,
    }
}

/// On a decisecond timer the applied timeout is the least multiple of 100
/// that is not below the request, and a zero request is kept as zero.
pub proof fn lemma_coarse_timeout_is_least_multiple(t: int, m: int)
    requires
        0 <= t,
        0 <= m,
        m % 100 == 0,
        m >= t,
    ensures
        normalized_timeout(t, TimerGranularity::Decisecond) >= t,
        normalized_timeout(t, TimerGranularity::Decisecond) % 100 == 0,
        normalized_timeout(t, TimerGranularity::Decisecond) <= m,
        normalized_timeout(0, TimerGranularity::Decisecond) == 0,
{
    let r = normalized_timeout(t, TimerGranularity::Decisecond);
    assert(r % 100 == 0 && r >= t && r <= m) by (nonlinear_arith)
        requires
            r == round_up_to_decisecond(t),
            0 <= t,
            0 <= m,
            m % 100 == 0,
            m >= t,
    ;
}

} // verus!

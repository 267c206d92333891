//! NAV ingestion and price freshness: staleness check, jump-limit circuit
//! breaker, optional confidence-width gate.

use vstd::prelude::*;
use vstd::arithmetic::mul::lemma_mul_inequality;

use crate::market::Market;
use crate::math::ratio_bps_spec;
use crate::{AccountId, ErrorCode};

verus! {

/// How long the circuit breaker locks out price updates and trading after a
/// rejected NAV jump, in seconds.
pub const BREAKER_COOLDOWN_SECS: i64 = 300;

/// Why a trading or liquidation operation may not rely on the stored NAV at
/// time `now`, or `None` when the price is usable: the circuit breaker is
/// still armed, no NAV was ever validated, the time source regressed below
/// the NAV's timestamp, or the NAV is older than the staleness bound.
pub open spec fn price_gate_err(m: Market, now: i64) -> Option<ErrorCode> {
    if now < m.circuit_breaker_until {
        Some(ErrorCode::CircuitBreaker)
    } else if m.last_nav == 0 {
        Some(ErrorCode::PriceNotSet)
    } else if now < m.last_ts {
        Some(ErrorCode::ClockWentBackwards)
    } else if now - m.last_ts > m.price_stale_seconds {
        Some(ErrorCode::PriceStale)
    } else {
        None
    }
}

/// Check that the stored NAV is usable at time `now` (see `price_gate_err`).
pub fn ensure_price_fresh(m: &Market, now: i64) -> (r: Result<(), ErrorCode>)
    ensures
        match r {
            Ok(()) => price_gate_err(*m, now) is None,
            Err(e) => price_gate_err(*m, now) == Some(e),
        },
{
    if now < m.circuit_breaker_until {
        return Err(ErrorCode::CircuitBreaker);
    }
    if m.last_nav == 0 {
        return Err(ErrorCode::PriceNotSet);
    }
    if now < m.last_ts {
        return Err(ErrorCode::ClockWentBackwards);
    }
    let age: i128 = (now as i128) - (m.last_ts as i128);
    if age > m.price_stale_seconds as i128 {
        return Err(ErrorCode::PriceStale);
    }
    Ok(())
}

/// The confidence gate rejects: a cap is configured, a confidence width was
/// supplied, and the width relative to the NAV exceeds the cap.
pub open spec fn confidence_too_wide(m: Market, nav: u64, confidence: Option<u64>) -> bool {
    m.max_confidence_bps > 0 && match confidence {
        Some(c) => ratio_bps_spec(c as int, if nav == 0 { 1int } else { nav as int })
            > m.max_confidence_bps,
        None => false,
    }
}

/// The absolute relative NAV move in basis points, against the stored NAV.
pub open spec fn jump_bps_spec(m: Market, nav: u64) -> int {
    ratio_bps_spec(
        if nav >= m.last_nav { nav - m.last_nav } else { m.last_nav - nav },
        m.last_nav as int,
    )
}

/// The jump limit rejects: a previous NAV exists and the relative move
/// exceeds the configured cap.
pub open spec fn jump_too_large(m: Market, nav: u64) -> bool {
    m.last_nav != 0 && jump_bps_spec(m, nav) > m.max_nav_jump_bps
}

/// Why a NAV update is rejected, or `None` when it is stored, checked in
/// this order: paused market, wrong oracle authority, armed circuit breaker,
/// confidence width over the cap, relative jump over the limit.
pub open spec fn post_nav_err(
    m: Market,
    caller: AccountId,
    nav: u64,
    confidence: Option<u64>,
    now: i64,
) -> Option<ErrorCode> {
    if m.paused {
        Some(ErrorCode::MarketPaused)
    } else if caller != m.oracle_authority {
        Some(ErrorCode::Unauthorized)
    } else if now < m.circuit_breaker_until {
        Some(ErrorCode::CircuitBreaker)
    } else if confidence_too_wide(m, nav, confidence) {
        Some(ErrorCode::OracleConfidenceTooWide)
    } else if jump_too_large(m, nav) {
        Some(ErrorCode::PriceJumpTooLarge)
    } else {
        None
    }
}

fn ratio_bps_small(num: u64, denom: u64) -> (r: u128)
    requires
        denom >= 1,
    ensures
        r == ratio_bps_spec(num as int, denom as int),
{
    proof {
        lemma_mul_inequality(num as int, u64::MAX as int, 10000);
    }
    let x: u128 = (num as u128) * 10000;
    x / (denom as u128)
}

/// Validate and store a NAV update at time `now`.
///
/// On success the NAV and its timestamp replace the stored pair. On the
/// jump-limit path the update is rejected *and* the circuit breaker is armed
/// for `BREAKER_COOLDOWN_SECS` past `now`; every other rejection leaves the
/// market unchanged. While the breaker is armed, every update — whatever its
/// magnitude — is rejected with `CircuitBreaker`. The timestamp must leave
/// room for the breaker deadline in the clock's range.
pub fn post_nav(
    m: &mut Market,
    caller: AccountId,
    nav: u64,
    nav_confidence: Option<u64>,
    now: i64,
) -> (r: Result<(), ErrorCode>)
    requires
        now <= i64::MAX - BREAKER_COOLDOWN_SECS,
    ensures
        match r {
            Ok(()) => post_nav_err(*old(m), caller, nav, nav_confidence, now) is None && *final(m)
                == (Market { last_nav: nav, last_ts: now, ..*old(m) }),
            Err(e) => post_nav_err(*old(m), caller, nav, nav_confidence, now) == Some(e) && (if e
                == ErrorCode::PriceJumpTooLarge {
                *final(m) == (Market {
                    circuit_breaker_until: (now + BREAKER_COOLDOWN_SECS) as i64,
                    ..*old(m)
                })
            } else {
                *final(m) == *old(m)
            }),
        },
{
    if m.paused {
        return Err(ErrorCode::MarketPaused);
    }
    if caller != m.oracle_authority {
        return Err(ErrorCode::Unauthorized);
    }
    if now < m.circuit_breaker_until {
        return Err(ErrorCode::CircuitBreaker);
    }
    if m.max_confidence_bps > 0 {
        if let Some(conf) = nav_confidence {
            let denom = if nav == 0 {
                1u64
            } else {
                nav
            };
            let conf_bps = ratio_bps_small(conf, denom);
            if conf_bps > m.max_confidence_bps as u128 {
                return Err(ErrorCode::OracleConfidenceTooWide);
            }
        }
    }
    if m.last_nav != 0 {
        let diff = if nav >= m.last_nav {
            nav - m.last_nav
        } else {
            m.last_nav - nav
        };
        let jump_bps = ratio_bps_small(diff, m.last_nav);
        if jump_bps > m.max_nav_jump_bps as u128 {
            m.circuit_breaker_until = now + BREAKER_COOLDOWN_SECS;
            return Err(ErrorCode::PriceJumpTooLarge);
        }
    }
    m.last_nav = nav;
    m.last_ts = now;
    Ok(())
}

} // verus!

//! A cash-settled, bilateral synthetic-futures risk engine.
//!
//! Two counterparties open a leveraged position referencing an externally
//! reported net-asset-value (NAV) feed, post margin in a common settlement
//! asset, and settle gains and losses against each other when the position
//! closes or is liquidated. The engine is pure: it validates inputs, computes
//! every balance movement exactly, and reports the movements to the caller,
//! which owns the ledger and the transactional boundary. Every operation
//! either succeeds and describes its full effect, or fails with a specific
//! error and leaves all state unchanged (with the one documented exception of
//! the NAV jump-limit path, which arms the circuit breaker before rejecting).

use vstd::prelude::*;

pub mod math;
pub mod market;
pub mod oracle;
pub mod deal;
pub mod liquidation;

verus! {

/// Precision of position sizes: one whole unit is `10^UNIT_DECIMALS`.
pub const UNIT_DECIMALS: u8 = 6;

/// An opaque party / account identity. The engine only ever compares
/// identities for equality; authentication of callers is the integration
/// layer's concern. The all-zero value is the sentinel for "no identity"
/// (an unused admin slot).
#[derive(Clone, Copy, PartialEq, Eq, Structural, Debug)]
pub struct AccountId(pub u128);

/// True of the sentinel identity that marks an unused admin slot.
pub open spec fn is_sentinel(a: AccountId) -> bool {
    a.0 == 0
}

/// Why an operation was rejected. Every failure is atomic: the operation
/// performs no balance movement and (except for the documented jump-limit
/// path) changes no state.
#[derive(Clone, Copy, PartialEq, Eq, Structural, Debug)]
pub enum ErrorCode {
    /// A checked arithmetic step overflowed; the operation can never succeed
    /// as submitted (parameter or precision misconfiguration).
    MathOverflow,
    /// The market's paused flag is set.
    MarketPaused,
    /// The caller is not the identity the operation requires.
    Unauthorized,
    /// A position size of zero was requested.
    ZeroSize,
    /// No NAV has ever been validated for this market.
    PriceNotSet,
    /// The time source regressed below the last NAV timestamp.
    ClockWentBackwards,
    /// The last validated NAV is older than the staleness bound.
    PriceStale,
    /// A deposit is below the initial-margin plus fee requirement, the
    /// effective margin is zero, or a vault cannot cover a required movement.
    InsufficientMargin,
    /// The deal is not open.
    NotOpen,
    /// The deal is already open.
    AlreadyOpen,
    /// Neither maintenance margin nor the leverage cap is breached.
    NotLiquidatable,
    /// The notional-to-margin ratio exceeds the market's leverage cap.
    LeverageTooHigh,
    /// The reported confidence width exceeds the configured cap.
    OracleConfidenceTooWide,
    /// The NAV moved more than the jump limit; the circuit breaker is armed.
    PriceJumpTooLarge,
    /// The circuit breaker lockout has not elapsed yet.
    CircuitBreaker,
    /// No timelocked parameter change is pending.
    NoPendingParams,
    /// The pending parameter change's effective time has not been reached.
    TimelockNotExpired,
    /// Too few distinct admin-set members among the authenticated co-signers.
    NotEnoughSigners,
}

} // verus!

//! Liquidation: maintenance-margin and leverage-cap breach detection, full
//! liquidation with bounty and settlement, partial liquidation back to
//! initial margin, and the socialized-loss pause trigger.

use vstd::prelude::*;

use crate::deal::Deal;
use crate::market::Market;
use crate::math::{
    bps,
    bps_ok,
    bps_spec,
    lemma_bps_bounds,
    clamp_i128,
    clamp_spec,
    notional_ok,
    notional_quote,
    notional_spec,
    pnl_long_spec,
    pnl_ok,
    pnl_quote,
    ratio_bps_ok,
    ratio_bps_spec,
    ratio_bps_u128,
};
use crate::oracle::{ensure_price_fresh, price_gate_err};
use crate::ErrorCode;

verus! {

/// What a successful full liquidation paid and settled: the bounty leaves
/// first (from the long vault, then the short — a fixed policy, not a
/// fairness rule), then the remaining pool settles exactly as a close. The
/// bounty and the two payouts together drain the original pool exactly.
#[derive(Clone, Copy, PartialEq, Eq, Structural, Debug)]
pub struct DealLiquidated {
    pub market: crate::AccountId,
    pub bounty_paid: u128,
    pub bounty_from_long: u64,
    pub bounty_from_short: u64,
    pub long_payout: u128,
    pub short_payout: u128,
    pub close_nav: u64,
}

/// What a successful partial liquidation moved out of the healthy side's
/// vault: `bounty_paid` to the liquidator and `deficit_take` into the
/// deficient side's vault, `take_total` in all — never more than the
/// caller's `max_bounty_take` bound. The deal stays open.
#[derive(Clone, Copy, PartialEq, Eq, Structural, Debug)]
pub struct PartialLiquidation {
    pub market: crate::AccountId,
    pub under_is_long: bool,
    pub deficit: u64,
    pub bounty_paid: u64,
    pub deficit_take: u64,
    pub take_total: u64,
}

/// The maintenance-margin rate with its safety buffer, the sum saturating at
/// the rate type's range.
pub open spec fn mm_rate_spec(m: Market) -> int {
    if m.maintenance_margin_bps + m.mm_buffer_bps > u16::MAX {
        u16::MAX as int
    } else {
        m.maintenance_margin_bps + m.mm_buffer_bps
    }
}

/// Why a full liquidation is rejected, or `None`, checked in this order:
/// deal not open, paused market, unusable price, overflow in the notional,
/// the maintenance requirement, the PnL or either equity, overflow in the
/// leverage ratio, and finally `NotLiquidatable` unless at least one side's
/// equity is below the buffered maintenance requirement, the pool is empty,
/// or the pool-based leverage exceeds the cap.
pub open spec fn liquidate_err(m: Market, d: Deal, now: i64) -> Option<ErrorCode> {
    let n = notional_spec(d.size, m.last_nav, m.price_decimals, m.quote_decimals);
    let pnl = pnl_long_spec(d.size, d.entry_nav, m.last_nav, m.price_decimals, m.quote_decimals);
    let pool = d.long_margin + d.short_margin;
    let mm_required = bps_spec(n, mm_rate_spec(m));
    if !d.is_open {
        Some(ErrorCode::NotOpen)
    } else if m.paused {
        Some(ErrorCode::MarketPaused)
    } else if price_gate_err(m, now) is Some {
        price_gate_err(m, now)
    } else if !notional_ok(d.size, m.last_nav, m.price_decimals, m.quote_decimals) {
        Some(ErrorCode::MathOverflow)
    } else if !bps_ok(n, mm_rate_spec(m)) {
        Some(ErrorCode::MathOverflow)
    } else if !pnl_ok(d.size, d.entry_nav, m.last_nav, m.price_decimals, m.quote_decimals) {
        Some(ErrorCode::MathOverflow)
    } else if d.long_margin + pnl > i128::MAX {
        Some(ErrorCode::MathOverflow)
    } else if d.short_margin - pnl > i128::MAX {
        Some(ErrorCode::MathOverflow)
    } else if pool > 0 && !ratio_bps_ok(n, pool) {
        Some(ErrorCode::MathOverflow)
    } else if !(d.long_margin + pnl < mm_required || d.short_margin - pnl < mm_required || pool
        == 0 || ratio_bps_spec(n, pool) > m.max_leverage_bps) {
        Some(ErrorCode::NotLiquidatable)
    } else {
        None
    }
}

/// Liquidate a deal whose maintenance margin or leverage cap is breached.
///
/// The bounty, `liquidator_bps` of the pool, is drawn from the long vault
/// first, then the short; the remaining pool then settles exactly as a
/// close: the long side's balance plus its PnL, clamped into the remaining
/// pool, and the short side gets the rest. Value is only moved, never
/// created or destroyed: bounty and payouts sum exactly to the pre-call
/// pool. If either payout is exactly zero — a side wiped out — the market is
/// paused as a socialized-loss floor. Both vaults drain to zero and the deal
/// closes for good; a failed call changes nothing.
#[verifier::rlimit(60)]
pub fn liquidate(m: &mut Market, deal: &mut Deal, now: i64) -> (r: Result<
    DealLiquidated,
    ErrorCode,
>)
    requires
        old(m).liquidator_bps <= 10000,
    ensures
        match r {
            Ok(o) => ({
                let pnl = pnl_long_spec(
                    old(deal).size,
                    old(deal).entry_nav,
                    old(m).last_nav,
                    old(m).price_decimals,
                    old(m).quote_decimals,
                );
                let pool = old(deal).long_margin + old(deal).short_margin;
                let bounty = bps_spec(pool, old(m).liquidator_bps as int);
                let take_long = if bounty <= old(deal).long_margin {
                    bounty
                } else {
                    old(deal).long_margin as int
                };
                let take_short = bounty - take_long;
                let after_long = old(deal).long_margin - take_long;
                let new_pool = pool - bounty;
                let lp = clamp_spec(after_long + pnl, 0, new_pool);
                let sp = new_pool - lp;
                &&& liquidate_err(*old(m), *old(deal), now) is None
                &&& o.market == old(deal).market
                &&& o.bounty_paid == bounty
                &&& o.bounty_from_long == take_long
                &&& o.bounty_from_short == take_short
                &&& o.long_payout == lp
                &&& o.short_payout == sp
                &&& o.close_nav == old(m).last_nav
                &&& o.bounty_paid + o.long_payout + o.short_payout == pool
                &&& *final(deal) == (Deal {
                    is_open: false,
                    long_margin: 0,
                    short_margin: 0,
                    ..*old(deal)
                })
                &&& *final(m) == (Market { paused: lp == 0 || sp == 0, ..*old(m) })
            }),
            Err(e) => liquidate_err(*old(m), *old(deal), now) == Some(e) && *final(m) == *old(m)
                && *final(deal) == *old(deal),
        },
{
    if !deal.is_open {
        return Err(ErrorCode::NotOpen);
    }
    if m.paused {
        return Err(ErrorCode::MarketPaused);
    }
    match ensure_price_fresh(m, now) {
        Ok(()) => {},
        Err(e) => {
            return Err(e);
        },
    }
    let notional_q = match notional_quote(deal.size, m.last_nav, m.price_decimals, m.quote_decimals) {
        Ok(v) => v,
        Err(e) => {
            return Err(e);
        },
    };
    let mm_rate: u16 = if m.maintenance_margin_bps > u16::MAX - m.mm_buffer_bps {
        u16::MAX
    } else {
        m.maintenance_margin_bps + m.mm_buffer_bps
    };
    let mm_required = match bps(notional_q, mm_rate) {
        Ok(v) => v,
        Err(e) => {
            return Err(e);
        },
    };
    let pnl_long = match pnl_quote(deal.size, deal.entry_nav, m.last_nav, m.price_decimals, m.quote_decimals) {
        Ok(v) => v,
        Err(e) => {
            return Err(e);
        },
    };
    if pnl_long > 0 && (deal.long_margin as i128) > i128::MAX - pnl_long {
        return Err(ErrorCode::MathOverflow);
    }
    let long_eq: i128 = deal.long_margin as i128 + pnl_long;
    if pnl_long < 0 && (deal.short_margin as i128) > i128::MAX + pnl_long {
        return Err(ErrorCode::MathOverflow);
    }
    let short_eq: i128 = deal.short_margin as i128 - pnl_long;
    let pool: u128 = deal.long_margin as u128 + deal.short_margin as u128;
    let over_lev: bool = if pool > 0 {
        let lev_bps = match ratio_bps_u128(notional_q, pool) {
            Ok(v) => v,
            Err(e) => {
                return Err(e);
            },
        };
        lev_bps > m.max_leverage_bps as u128
    } else {
        true
    };
    let mm_breach_long = mm_required > i128::MAX as u128 || long_eq < mm_required as i128;
    let mm_breach_short = mm_required > i128::MAX as u128 || short_eq < mm_required as i128;
    if !(mm_breach_long || mm_breach_short || over_lev) {
        return Err(ErrorCode::NotLiquidatable);
    }
    proof {
        lemma_bps_bounds(pool, m.liquidator_bps);
    }
    // with a well-formed rate the basis-point product of a two-vault pool
    // cannot overflow, so this call cannot fail
    let bounty = match bps(pool, m.liquidator_bps) {
        Ok(v) => v,
        Err(_) => {
            proof {
                assert(false);
            }
            return Err(ErrorCode::MathOverflow);
        },
    };
    let take_long: u64 = if bounty <= deal.long_margin as u128 {
        bounty as u64
    } else {
        deal.long_margin
    };
    let take_short: u64 = (bounty - take_long as u128) as u64;
    let after_long: u64 = deal.long_margin - take_long;
    let after_short: u64 = deal.short_margin - take_short;
    let new_pool: u128 = after_long as u128 + after_short as u128;
    let desired_long: i128 = after_long as i128 + pnl_long;
    let long_payout = clamp_i128(desired_long, 0, new_pool as i128) as u128;
    let short_payout = new_pool - long_payout;
    let depleted = long_payout == 0 || short_payout == 0;
    deal.is_open = false;
    deal.long_margin = 0;
    deal.short_margin = 0;
    m.paused = depleted;
    Ok(
        DealLiquidated {
            market: deal.market,
            bounty_paid: bounty,
            bounty_from_long: take_long,
            bounty_from_short: take_short,
            long_payout,
            short_payout,
            close_nav: m.last_nav,
        },
    )
}

/// Why a partial liquidation is rejected, or `None`, checked in this order:
/// deal not open, paused market, unusable price, overflow in the notional or
/// the initial-margin requirement, overflow in the PnL or either equity,
/// `NotLiquidatable` when neither side is below initial margin, overflow of
/// the deficit, a healthy vault that cannot cover the take
/// (`InsufficientMargin`), and overflow of the deficient side's new balance
/// or equity.
pub open spec fn liquidate_to_im_err(m: Market, d: Deal, max_bounty_take: u64, now: i64) -> Option<
    ErrorCode,
> {
    let n = notional_spec(d.size, m.last_nav, m.price_decimals, m.quote_decimals);
    let im_required = bps_spec(n, m.initial_margin_bps as int);
    let pnl = pnl_long_spec(d.size, d.entry_nav, m.last_nav, m.price_decimals, m.quote_decimals);
    let long_eq = d.long_margin + pnl;
    let short_eq = d.short_margin - pnl;
    if !d.is_open {
        Some(ErrorCode::NotOpen)
    } else if m.paused {
        Some(ErrorCode::MarketPaused)
    } else if price_gate_err(m, now) is Some {
        price_gate_err(m, now)
    } else if !notional_ok(d.size, m.last_nav, m.price_decimals, m.quote_decimals) {
        Some(ErrorCode::MathOverflow)
    } else if !bps_ok(n, m.initial_margin_bps as int) {
        Some(ErrorCode::MathOverflow)
    } else if im_required > i128::MAX {
        Some(ErrorCode::MathOverflow)
    } else if !pnl_ok(d.size, d.entry_nav, m.last_nav, m.price_decimals, m.quote_decimals) {
        Some(ErrorCode::MathOverflow)
    } else if long_eq > i128::MAX {
        Some(ErrorCode::MathOverflow)
    } else if short_eq > i128::MAX {
        Some(ErrorCode::MathOverflow)
    } else if long_eq >= im_required && short_eq >= im_required {
        Some(ErrorCode::NotLiquidatable)
    } else {
        let under_is_long = long_eq < im_required;
        let under_eq = if under_is_long {
            long_eq
        } else {
            short_eq
        };
        let deficit = im_required - under_eq;
        if deficit > u64::MAX {
            Some(ErrorCode::MathOverflow)
        } else {
            let bounty = bps_spec(deficit, m.liquidator_bps as int);
            let take_total = if deficit + bounty <= max_bounty_take {
                deficit + bounty
            } else {
                max_bounty_take as int
            };
            let bounty_paid = if bounty <= take_total {
                bounty
            } else {
                take_total
            };
            let deficit_take = take_total - bounty_paid;
            let healthy_margin = if under_is_long {
                d.short_margin
            } else {
                d.long_margin
            };
            let under_margin = if under_is_long {
                d.long_margin
            } else {
                d.short_margin
            };
            if healthy_margin < take_total {
                Some(ErrorCode::InsufficientMargin)
            } else if under_margin + deficit_take > u64::MAX {
                Some(ErrorCode::MathOverflow)
            } else if under_eq + deficit_take > i128::MAX {
                Some(ErrorCode::MathOverflow)
            } else {
                None
            }
        }
    }
}

/// Partially liquidate: move just enough out of the healthy side's vault to
/// bring the under-margined side back to *initial* margin, rewarding the
/// caller with a bounty on the deficit.
///
/// `take_total = min(deficit + bounty, max_bounty_take)`: the caller bounds
/// the total extraction, and never more than `take_total` leaves the healthy
/// vault. The bounty is paid first (capped by `take_total`), the rest tops
/// up the deficient vault, raising the deficient side's equity by exactly
/// `deficit_take`. The deal stays open; if either side is still below
/// initial margin afterwards, the market is paused as a socialized-loss
/// floor. A failed call changes nothing.
#[verifier::rlimit(60)]
pub fn liquidate_to_im(m: &mut Market, deal: &mut Deal, max_bounty_take: u64, now: i64) -> (r:
    Result<PartialLiquidation, ErrorCode>)
    requires
        old(m).liquidator_bps <= 10000,
    ensures
        match r {
            Ok(o) => ({
                let n = notional_spec(
                    old(deal).size,
                    old(m).last_nav,
                    old(m).price_decimals,
                    old(m).quote_decimals,
                );
                let im_required = bps_spec(n, old(m).initial_margin_bps as int);
                let pnl = pnl_long_spec(
                    old(deal).size,
                    old(deal).entry_nav,
                    old(m).last_nav,
                    old(m).price_decimals,
                    old(m).quote_decimals,
                );
                let long_eq = old(deal).long_margin + pnl;
                let short_eq = old(deal).short_margin - pnl;
                let under_is_long = long_eq < im_required;
                let under_eq = if under_is_long {
                    long_eq
                } else {
                    short_eq
                };
                let deficit = im_required - under_eq;
                let bounty = bps_spec(deficit, old(m).liquidator_bps as int);
                let take_total = if deficit + bounty <= max_bounty_take {
                    deficit + bounty
                } else {
                    max_bounty_take as int
                };
                let bounty_paid = if bounty <= take_total {
                    bounty
                } else {
                    take_total
                };
                let deficit_take = take_total - bounty_paid;
                let new_long = if under_is_long {
                    old(deal).long_margin + deficit_take
                } else {
                    old(deal).long_margin - take_total
                };
                let new_short = if under_is_long {
                    old(deal).short_margin - take_total
                } else {
                    old(deal).short_margin + deficit_take
                };
                let still_under = new_long + pnl < im_required || new_short - pnl < im_required;
                &&& liquidate_to_im_err(*old(m), *old(deal), max_bounty_take, now) is None
                &&& o.market == old(deal).market
                &&& o.under_is_long == under_is_long
                &&& o.deficit == deficit
                &&& o.bounty_paid == bounty_paid
                &&& o.deficit_take == deficit_take
                &&& o.take_total == take_total
                &&& o.take_total <= max_bounty_take
                &&& *final(deal) == (Deal {
                    long_margin: new_long as u64,
                    short_margin: new_short as u64,
                    ..*old(deal)
                })
                &&& final(deal).is_open
                &&& (if under_is_long {
                    final(deal).long_margin + pnl
                } else {
                    final(deal).short_margin - pnl
                }) == under_eq + deficit_take
                &&& *final(m) == (Market { paused: still_under, ..*old(m) })
            }),
            Err(e) => liquidate_to_im_err(*old(m), *old(deal), max_bounty_take, now) == Some(e)
                && *final(m) == *old(m) && *final(deal) == *old(deal),
        },
{
    if !deal.is_open {
        return Err(ErrorCode::NotOpen);
    }
    if m.paused {
        return Err(ErrorCode::MarketPaused);
    }
    match ensure_price_fresh(m, now) {
        Ok(()) => {},
        Err(e) => {
            return Err(e);
        },
    }
    let notional_q = match notional_quote(deal.size, m.last_nav, m.price_decimals, m.quote_decimals) {
        Ok(v) => v,
        Err(e) => {
            return Err(e);
        },
    };
    let im_required_wide = match bps(notional_q, m.initial_margin_bps) {
        Ok(v) => v,
        Err(e) => {
            return Err(e);
        },
    };
    if im_required_wide > i128::MAX as u128 {
        return Err(ErrorCode::MathOverflow);
    }
    let im_required: i128 = im_required_wide as i128;
    let pnl_long = match pnl_quote(deal.size, deal.entry_nav, m.last_nav, m.price_decimals, m.quote_decimals) {
        Ok(v) => v,
        Err(e) => {
            return Err(e);
        },
    };
    if pnl_long > 0 && (deal.long_margin as i128) > i128::MAX - pnl_long {
        return Err(ErrorCode::MathOverflow);
    }
    let long_eq: i128 = deal.long_margin as i128 + pnl_long;
    if pnl_long < 0 && (deal.short_margin as i128) > i128::MAX + pnl_long {
        return Err(ErrorCode::MathOverflow);
    }
    let short_eq: i128 = deal.short_margin as i128 - pnl_long;
    let (under_is_long, under_eq): (bool, i128) = if long_eq < im_required {
        (true, long_eq)
    } else if short_eq < im_required {
        (false, short_eq)
    } else {
        return Err(ErrorCode::NotLiquidatable);
    };
    let deficit_wide: u128 = if under_eq >= 0 {
        (im_required - under_eq) as u128
    } else {
        im_required as u128 + (-under_eq) as u128
    };
    if deficit_wide > u64::MAX as u128 {
        return Err(ErrorCode::MathOverflow);
    }
    let deficit: u64 = deficit_wide as u64;
    proof {
        lemma_bps_bounds(deficit as u128, m.liquidator_bps);
    }
    // with a well-formed rate the basis-point product of the deficit cannot
    // overflow, so this call cannot fail, and the bounty fits the deficit
    let bounty: u64 = match bps(deficit as u128, m.liquidator_bps) {
        Ok(v) => v as u64,
        Err(_) => {
            proof {
                assert(false);
            }
            return Err(ErrorCode::MathOverflow);
        },
    };
    let take_sum: u128 = deficit as u128 + bounty as u128;
    let take_total: u64 = if take_sum <= max_bounty_take as u128 {
        take_sum as u64
    } else {
        max_bounty_take
    };
    let bounty_paid: u64 = if bounty <= take_total {
        bounty
    } else {
        take_total
    };
    let deficit_take: u64 = take_total - bounty_paid;
    let healthy_margin: u64 = if under_is_long {
        deal.short_margin
    } else {
        deal.long_margin
    };
    let under_margin: u64 = if under_is_long {
        deal.long_margin
    } else {
        deal.short_margin
    };
    if healthy_margin < take_total {
        return Err(ErrorCode::InsufficientMargin);
    }
    if deficit_take > u64::MAX - under_margin {
        return Err(ErrorCode::MathOverflow);
    }
    let new_under_margin: u64 = under_margin + deficit_take;
    if under_eq > i128::MAX - deficit_take as i128 {
        return Err(ErrorCode::MathOverflow);
    }
    let new_healthy_margin: u64 = healthy_margin - take_total;
    let (new_long, new_short): (u64, u64) = if under_is_long {
        (new_under_margin, new_healthy_margin)
    } else {
        (new_healthy_margin, new_under_margin)
    };
    deal.long_margin = new_long;
    deal.short_margin = new_short;
    let long_eq2: i128 = new_long as i128 + pnl_long;
    let short_eq2: i128 = new_short as i128 - pnl_long;
    m.paused = long_eq2 < im_required || short_eq2 < im_required;
    Ok(
        PartialLiquidation {
            market: deal.market,
            under_is_long,
            deficit,
            bounty_paid,
            deficit_take,
            take_total,
        },
    )
}

} // verus!

//! The bilateral position (Deal): open, margin-add and close lifecycle with
//! exact margin accounting.
//!
//! The engine owns the margin-vault balances as plain integers; the caller
//! mirrors every reported movement onto its ledger inside one transactional
//! boundary, so an operation either applies in full or not at all.

use vstd::prelude::*;
use vstd::arithmetic::div_mod::{lemma_div_is_ordered, lemma_div_is_ordered_by_denominator};

use crate::market::Market;
use crate::math::{
    bps,
    bps_ok,
    bps_spec,
    clamp_i128,
    clamp_spec,
    notional_ok,
    notional_quote,
    notional_spec,
    pnl_long_spec,
    pnl_ok,
    pnl_quote,
    ratio_bps_ok,
    ratio_bps_spec,
    ratio_bps_u128,
};
use crate::oracle::{ensure_price_fresh, price_gate_err};
use crate::{AccountId, ErrorCode};

verus! {

/// One bilateral position between a long and a short party on one market.
/// `long_margin` and `short_margin` are the two margin-vault balances in
/// settlement-asset units; they are drained to exactly zero when the deal
/// closes.
#[derive(Clone, Copy, PartialEq, Eq, Structural, Debug)]
pub struct Deal {
    pub market: AccountId,
    pub long: AccountId,
    pub short: AccountId,
    pub size: u64,
    pub entry_nav: u64,
    pub is_open: bool,
    pub long_margin: u64,
    pub short_margin: u64,
    pub client_order_id: u64,
}

/// The quantities a successful open computed, for observability and for the
/// ledger: each party's deposit moves into their margin vault, then each
/// vault pays `open_fee_each` into the market's fee vault.
#[derive(Clone, Copy, PartialEq, Eq, Structural, Debug)]
pub struct DealOpened {
    pub market: AccountId,
    pub long: AccountId,
    pub short: AccountId,
    pub size: u64,
    pub entry_nav: u64,
    pub notional_quote: u128,
    pub long_deposit: u64,
    pub short_deposit: u64,
    pub open_fee_each: u64,
}

/// The settlement a successful close computed: `long_payout` leaves for the
/// long party, `short_payout` for the short party, and together they drain
/// the two vaults exactly.
#[derive(Clone, Copy, PartialEq, Eq, Structural, Debug)]
pub struct DealClosed {
    pub market: AccountId,
    pub long_payout: u128,
    pub short_payout: u128,
    pub close_nav: u64,
}

/// Why an open is rejected, or `None` when it succeeds, checked in this
/// order: paused market, zero size, unusable price, arithmetic overflow in
/// the notional or either basis-point product, a deposit below the
/// initial-margin-plus-fee requirement, zero effective margin, overflow in
/// the leverage ratio, leverage over the cap, an already-open deal.
pub open spec fn open_deal_err(
    m: Market,
    d: Deal,
    size: u64,
    long_deposit: u64,
    short_deposit: u64,
    now: i64,
) -> Option<ErrorCode> {
    let n = notional_spec(size, m.last_nav, m.price_decimals, m.quote_decimals);
    let fee_total = bps_spec(n, m.fee_bps as int);
    let fee_each = fee_total / 2;
    let im_each = bps_spec(n, m.initial_margin_bps as int);
    let effective = long_deposit + short_deposit - fee_total;
    if m.paused {
        Some(ErrorCode::MarketPaused)
    } else if size == 0 {
        Some(ErrorCode::ZeroSize)
    } else if price_gate_err(m, now) is Some {
        price_gate_err(m, now)
    } else if !notional_ok(size, m.last_nav, m.price_decimals, m.quote_decimals) {
        Some(ErrorCode::MathOverflow)
    } else if !bps_ok(n, m.fee_bps as int) {
        Some(ErrorCode::MathOverflow)
    } else if !bps_ok(n, m.initial_margin_bps as int) {
        Some(ErrorCode::MathOverflow)
    } else if long_deposit < im_each + fee_each {
        Some(ErrorCode::InsufficientMargin)
    } else if short_deposit < im_each + fee_each {
        Some(ErrorCode::InsufficientMargin)
    } else if effective <= 0 {
        Some(ErrorCode::InsufficientMargin)
    } else if !ratio_bps_ok(n, effective) {
        Some(ErrorCode::MathOverflow)
    } else if ratio_bps_spec(n, effective) > m.max_leverage_bps {
        Some(ErrorCode::LeverageTooHigh)
    } else if d.is_open {
        Some(ErrorCode::AlreadyOpen)
    } else {
        None
    }
}

/// Open a bilateral deal on `market` at the last validated NAV.
///
/// `deal` is the freshly allocated record the position will live in. On
/// success each deposit lands in its side's margin vault and each vault then
/// pays half the open fee (integer floor; an odd unit is lost, not
/// reimbursed) to the market's fee vault, so each side's recorded margin is
/// its deposit minus `open_fee_each`. On failure the record is untouched: a
/// failed attempt never opens a deal.
pub fn open_deal(
    deal: &mut Deal,
    market: &Market,
    market_id: AccountId,
    long: AccountId,
    short: AccountId,
    client_order_id: u64,
    size: u64,
    long_deposit: u64,
    short_deposit: u64,
    now: i64,
) -> (r: Result<DealOpened, ErrorCode>)
    ensures
        match r {
            Ok(o) => {
                let n = notional_spec(size, market.last_nav, market.price_decimals, market.quote_decimals);
                let fee_each = bps_spec(n, market.fee_bps as int) / 2;
                &&& open_deal_err(*market, *old(deal), size, long_deposit, short_deposit, now)
                    is None
                &&& *final(deal) == (Deal {
                    market: market_id,
                    long,
                    short,
                    size,
                    entry_nav: market.last_nav,
                    is_open: true,
                    long_margin: (long_deposit - fee_each) as u64,
                    short_margin: (short_deposit - fee_each) as u64,
                    client_order_id,
                })
                &&& o == (DealOpened {
                    market: market_id,
                    long,
                    short,
                    size,
                    entry_nav: market.last_nav,
                    notional_quote: n as u128,
                    long_deposit,
                    short_deposit,
                    open_fee_each: fee_each as u64,
                })
            },
            Err(e) => open_deal_err(*market, *old(deal), size, long_deposit, short_deposit, now)
                == Some(e) && *final(deal) == *old(deal),
        },
{
    if market.paused {
        return Err(ErrorCode::MarketPaused);
    }
    if size == 0 {
        return Err(ErrorCode::ZeroSize);
    }
    match ensure_price_fresh(market, now) {
        Ok(()) => {},
        Err(e) => {
            return Err(e);
        },
    }
    let entry_nav = market.last_nav;
    let notional_q = match notional_quote(size, entry_nav, market.price_decimals, market.quote_decimals) {
        Ok(v) => v,
        Err(e) => {
            return Err(e);
        },
    };
    let open_fee_total = match bps(notional_q, market.fee_bps) {
        Ok(v) => v,
        Err(e) => {
            return Err(e);
        },
    };
    let open_fee_each = open_fee_total / 2;
    let im_required_each = match bps(notional_q, market.initial_margin_bps) {
        Ok(v) => v,
        Err(e) => {
            return Err(e);
        },
    };
    proof {
        lemma_div_is_ordered(
            notional_q as int * market.fee_bps as int,
            u128::MAX as int,
            10000,
        );
        lemma_div_is_ordered(
            notional_q as int * market.initial_margin_bps as int,
            u128::MAX as int,
            10000,
        );
        lemma_div_is_ordered_by_denominator(u128::MAX as int, 2, 10000);
        lemma_div_is_ordered(open_fee_total as int, u128::MAX as int / 10000, 2);
    }
    if (long_deposit as u128) < im_required_each + open_fee_each {
        return Err(ErrorCode::InsufficientMargin);
    }
    if (short_deposit as u128) < im_required_each + open_fee_each {
        return Err(ErrorCode::InsufficientMargin);
    }
    let deposit_sum: u128 = long_deposit as u128 + short_deposit as u128;
    if deposit_sum <= open_fee_total {
        return Err(ErrorCode::InsufficientMargin);
    }
    let effective_total_margin = deposit_sum - open_fee_total;
    let lev_bps = match ratio_bps_u128(notional_q, effective_total_margin) {
        Ok(v) => v,
        Err(e) => {
            return Err(e);
        },
    };
    if lev_bps > market.max_leverage_bps as u128 {
        return Err(ErrorCode::LeverageTooHigh);
    }
    if deal.is_open {
        return Err(ErrorCode::AlreadyOpen);
    }
    let fee_each_64: u64 = open_fee_each as u64;
    deal.market = market_id;
    deal.long = long;
    deal.short = short;
    deal.size = size;
    deal.entry_nav = entry_nav;
    deal.is_open = true;
    deal.long_margin = long_deposit - fee_each_64;
    deal.short_margin = short_deposit - fee_each_64;
    deal.client_order_id = client_order_id;
    Ok(
        DealOpened {
            market: market_id,
            long,
            short,
            size,
            entry_nav,
            notional_quote: notional_q,
            long_deposit,
            short_deposit,
            open_fee_each: fee_each_64,
        },
    )
}

/// Why a margin top-up is rejected, or `None`: the deal is not open, the
/// caller is not that side's party, or the vault balance would overflow.
pub open spec fn add_margin_err(d: Deal, party: AccountId, side_is_long: bool, amount: u64) -> Option<
    ErrorCode,
> {
    let side_party = if side_is_long { d.long } else { d.short };
    let balance = if side_is_long { d.long_margin } else { d.short_margin };
    if !d.is_open {
        Some(ErrorCode::NotOpen)
    } else if party != side_party {
        Some(ErrorCode::Unauthorized)
    } else if balance + amount > u64::MAX {
        Some(ErrorCode::MathOverflow)
    } else {
        None
    }
}

/// Move `amount` from the long party into the long margin vault.
pub fn add_margin_long(deal: &mut Deal, caller: AccountId, amount: u64) -> (r: Result<
    (),
    ErrorCode,
>)
    ensures
        match r {
            Ok(()) => add_margin_err(*old(deal), caller, true, amount) is None && *final(deal)
                == (Deal {
                long_margin: (old(deal).long_margin + amount) as u64,
                ..*old(deal)
            }),
            Err(e) => add_margin_err(*old(deal), caller, true, amount) == Some(e) && *final(deal)
                == *old(deal),
        },
{
    if !deal.is_open {
        return Err(ErrorCode::NotOpen);
    }
    if caller != deal.long {
        return Err(ErrorCode::Unauthorized);
    }
    if amount > u64::MAX - deal.long_margin {
        return Err(ErrorCode::MathOverflow);
    }
    deal.long_margin = deal.long_margin + amount;
    Ok(())
}

/// Move `amount` from the short party into the short margin vault.
pub fn add_margin_short(deal: &mut Deal, caller: AccountId, amount: u64) -> (r: Result<
    (),
    ErrorCode,
>)
    ensures
        match r {
            Ok(()) => add_margin_err(*old(deal), caller, false, amount) is None && *final(deal)
                == (Deal {
                short_margin: (old(deal).short_margin + amount) as u64,
                ..*old(deal)
            }),
            Err(e) => add_margin_err(*old(deal), caller, false, amount) == Some(e) && *final(deal)
                == *old(deal),
        },
{
    if !deal.is_open {
        return Err(ErrorCode::NotOpen);
    }
    if caller != deal.short {
        return Err(ErrorCode::Unauthorized);
    }
    if amount > u64::MAX - deal.short_margin {
        return Err(ErrorCode::MathOverflow);
    }
    deal.short_margin = deal.short_margin + amount;
    Ok(())
}

/// Why a close is rejected, or `None`, checked in this order: deal not open,
/// paused market, unusable price, PnL overflow, long-equity overflow.
pub open spec fn close_deal_err(m: Market, d: Deal, now: i64) -> Option<ErrorCode> {
    if !d.is_open {
        Some(ErrorCode::NotOpen)
    } else if m.paused {
        Some(ErrorCode::MarketPaused)
    } else if price_gate_err(m, now) is Some {
        price_gate_err(m, now)
    } else if !pnl_ok(d.size, d.entry_nav, m.last_nav, m.price_decimals, m.quote_decimals) {
        Some(ErrorCode::MathOverflow)
    } else if d.long_margin + pnl_long_spec(
        d.size,
        d.entry_nav,
        m.last_nav,
        m.price_decimals,
        m.quote_decimals,
    ) > i128::MAX {
        Some(ErrorCode::MathOverflow)
    } else {
        None
    }
}

/// The long side's payout at close: its vault balance plus its signed PnL,
/// clamped between zero and the whole pool.
pub open spec fn long_payout_spec(m: Market, d: Deal) -> int {
    clamp_spec(
        d.long_margin + pnl_long_spec(d.size, d.entry_nav, m.last_nav, m.price_decimals, m.quote_decimals),
        0,
        d.long_margin + d.short_margin,
    )
}

/// Close the deal at the current NAV and settle.
///
/// The pool is the two vault balances together; the long side receives its
/// balance plus its signed PnL clamped into `[0, pool]`, the short side
/// receives exactly the rest. Settlement only transfers value — the payouts
/// always sum exactly to the pool — and drains both vaults to zero, after
/// which the record is closed for good. A failed close changes nothing.
pub fn close_deal(deal: &mut Deal, market: &Market, now: i64) -> (r: Result<DealClosed, ErrorCode>)
    ensures
        match r {
            Ok(o) => {
                let pool = old(deal).long_margin + old(deal).short_margin;
                let lp = long_payout_spec(*market, *old(deal));
                &&& close_deal_err(*market, *old(deal), now) is None
                &&& o.market == old(deal).market
                &&& o.long_payout == lp
                &&& o.short_payout == pool - lp
                &&& o.long_payout + o.short_payout == pool
                &&& o.close_nav == market.last_nav
                &&& *final(deal) == (Deal {
                    is_open: false,
                    long_margin: 0,
                    short_margin: 0,
                    ..*old(deal)
                })
            },
            Err(e) => close_deal_err(*market, *old(deal), now) == Some(e) && *final(deal) == *old(
                deal,
            ),
        },
{
    if !deal.is_open {
        return Err(ErrorCode::NotOpen);
    }
    if market.paused {
        return Err(ErrorCode::MarketPaused);
    }
    match ensure_price_fresh(market, now) {
        Ok(()) => {},
        Err(e) => {
            return Err(e);
        },
    }
    let total_pool: u128 = deal.long_margin as u128 + deal.short_margin as u128;
    let pnl_long = match pnl_quote(
        deal.size,
        deal.entry_nav,
        market.last_nav,
        market.price_decimals,
        market.quote_decimals,
    ) {
        Ok(v) => v,
        Err(e) => {
            return Err(e);
        },
    };
    if pnl_long > 0 && deal.long_margin as i128 > i128::MAX - pnl_long {
        return Err(ErrorCode::MathOverflow);
    }
    let desired_long: i128 = deal.long_margin as i128 + pnl_long;
    let long_payout = clamp_i128(desired_long, 0, total_pool as i128) as u128;
    let short_payout = total_pool - long_payout;
    deal.is_open = false;
    deal.long_margin = 0;
    deal.short_margin = 0;
    Ok(
        DealClosed {
            market: deal.market,
            long_payout,
            short_payout,
            close_nav: market.last_nav,
        },
    )
}

} // verus!

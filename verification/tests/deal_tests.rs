use synthetic_stack_futures::deal::{
    add_margin_long, add_margin_short, close_deal, open_deal, Deal,
};
use synthetic_stack_futures::market::{init_market, Market, MarketInitParams};
use synthetic_stack_futures::oracle::post_nav;
use synthetic_stack_futures::{AccountId, ErrorCode};

fn long_id() -> AccountId {
    AccountId(100)
}

fn short_id() -> AccountId {
    AccountId(200)
}

fn market_id() -> AccountId {
    AccountId(5)
}

/// The reference market: six decimals everywhere, 10% initial margin, 1% fee.
fn priced_market() -> Market {
    let params = MarketInitParams {
        oracle_authority: AccountId(9),
        price_decimals: 6,
        initial_margin_bps: 1000,
        maintenance_margin_bps: 500,
        fee_bps: 100,
        liquidator_bps: 100,
        price_stale_seconds: 3600,
        max_leverage_bps: 60000,
        max_nav_jump_bps: 2000,
        max_confidence_bps: None,
        mm_buffer_bps: None,
        admin_threshold: None,
    };
    let mut m = init_market(AccountId(1), AccountId(2), 6, AccountId(3), params);
    // NAV 100.0
    post_nav(&mut m, AccountId(9), 100_000000, None, 1_000).unwrap();
    m
}

fn fresh_record() -> Deal {
    Deal {
        market: AccountId(0),
        long: AccountId(0),
        short: AccountId(0),
        size: 0,
        entry_nav: 0,
        is_open: false,
        long_margin: 0,
        short_margin: 0,
        client_order_id: 0,
    }
}

fn open_reference_deal(m: &Market) -> Deal {
    let mut d = fresh_record();
    open_deal(
        &mut d,
        m,
        market_id(),
        long_id(),
        short_id(),
        7,
        1_000_000,
        10_500000,
        10_500000,
        1_000,
    )
    .unwrap();
    d
}

#[test]
fn open_reference_scenario_exact_quantities() {
    // size 1.0 unit at NAV 100.0 with im 1000 bps and fee 100 bps:
    // notional 100.0, im_each 10.0, fee_total 1.0, fee_each 0.5;
    // deposits of 10.5 satisfy the requirement with zero slack.
    let m = priced_market();
    let mut d = fresh_record();
    let o = open_deal(
        &mut d,
        &m,
        market_id(),
        long_id(),
        short_id(),
        7,
        1_000_000,
        10_500000,
        10_500000,
        1_000,
    )
    .unwrap();
    assert_eq!(o.notional_quote, 100_000000);
    assert_eq!(o.open_fee_each, 500000);
    assert_eq!(o.entry_nav, 100_000000);
    assert_eq!(o.long_deposit, 10_500000);
    assert_eq!(o.short_deposit, 10_500000);
    assert!(d.is_open);
    assert_eq!(d.market, market_id());
    assert_eq!(d.long, long_id());
    assert_eq!(d.short, short_id());
    assert_eq!(d.size, 1_000_000);
    assert_eq!(d.entry_nav, 100_000000);
    assert_eq!(d.client_order_id, 7);
    // each vault holds the deposit minus its fee share
    assert_eq!(d.long_margin, 10_000000);
    assert_eq!(d.short_margin, 10_000000);
}

#[test]
fn open_rejects_deposit_one_unit_short() {
    let m = priced_market();
    let mut d = fresh_record();
    let before = d;
    let r = open_deal(
        &mut d,
        &m,
        market_id(),
        long_id(),
        short_id(),
        7,
        1_000_000,
        10_499999,
        10_500000,
        1_000,
    );
    assert_eq!(r, Err(ErrorCode::InsufficientMargin));
    // a failed attempt never opens a deal
    assert_eq!(d, before);
    let r2 = open_deal(
        &mut d,
        &m,
        market_id(),
        long_id(),
        short_id(),
        7,
        1_000_000,
        10_500000,
        10_499999,
        1_000,
    );
    assert_eq!(r2, Err(ErrorCode::InsufficientMargin));
    assert_eq!(d, before);
}

#[test]
fn open_rejects_zero_size_and_paused() {
    let mut m = priced_market();
    let mut d = fresh_record();
    let r = open_deal(
        &mut d,
        &m,
        market_id(),
        long_id(),
        short_id(),
        7,
        0,
        10_500000,
        10_500000,
        1_000,
    );
    assert_eq!(r, Err(ErrorCode::ZeroSize));
    m.paused = true;
    let r2 = open_deal(
        &mut d,
        &m,
        market_id(),
        long_id(),
        short_id(),
        7,
        1_000_000,
        10_500000,
        10_500000,
        1_000,
    );
    assert_eq!(r2, Err(ErrorCode::MarketPaused));
    assert!(!d.is_open);
}

#[test]
fn open_rejects_stale_price() {
    let m = priced_market();
    let mut d = fresh_record();
    let r = open_deal(
        &mut d,
        &m,
        market_id(),
        long_id(),
        short_id(),
        7,
        1_000_000,
        10_500000,
        10_500000,
        1_000 + 3601,
    );
    assert_eq!(r, Err(ErrorCode::PriceStale));
}

#[test]
fn open_rejects_price_not_set() {
    let params = MarketInitParams {
        oracle_authority: AccountId(9),
        price_decimals: 6,
        initial_margin_bps: 1000,
        maintenance_margin_bps: 500,
        fee_bps: 100,
        liquidator_bps: 100,
        price_stale_seconds: 3600,
        max_leverage_bps: 60000,
        max_nav_jump_bps: 2000,
        max_confidence_bps: None,
        mm_buffer_bps: None,
        admin_threshold: None,
    };
    let m = init_market(AccountId(1), AccountId(2), 6, AccountId(3), params);
    let mut d = fresh_record();
    let r = open_deal(
        &mut d,
        &m,
        market_id(),
        long_id(),
        short_id(),
        7,
        1_000_000,
        10_500000,
        10_500000,
        1_000,
    );
    assert_eq!(r, Err(ErrorCode::PriceNotSet));
}

#[test]
fn open_rejects_excess_leverage() {
    let mut m = priced_market();
    m.initial_margin_bps = 100;  // 1% margin would allow 100x
    m.max_leverage_bps = 30000;  // cap at 3x
    let mut d = fresh_record();
    // deposits cover margin + fee but leave leverage near 50x
    let r = open_deal(
        &mut d,
        &m,
        market_id(),
        long_id(),
        short_id(),
        7,
        1_000_000,
        1_500000,
        1_500000,
        1_000,
    );
    assert_eq!(r, Err(ErrorCode::LeverageTooHigh));
    assert!(!d.is_open);
}

#[test]
fn open_rejects_already_open() {
    let m = priced_market();
    let mut d = open_reference_deal(&m);
    let before = d;
    let r = open_deal(
        &mut d,
        &m,
        market_id(),
        long_id(),
        short_id(),
        8,
        1_000_000,
        10_500000,
        10_500000,
        1_000,
    );
    assert_eq!(r, Err(ErrorCode::AlreadyOpen));
    assert_eq!(d, before);
}

#[test]
fn add_margin_updates_the_right_vault() {
    let m = priced_market();
    let mut d = open_reference_deal(&m);
    assert_eq!(add_margin_long(&mut d, long_id(), 2_000000), Ok(()));
    assert_eq!(d.long_margin, 12_000000);
    assert_eq!(d.short_margin, 10_000000);
    assert_eq!(add_margin_short(&mut d, short_id(), 500000), Ok(()));
    assert_eq!(d.short_margin, 10_500000);
}

#[test]
fn add_margin_rejects_wrong_party() {
    let m = priced_market();
    let mut d = open_reference_deal(&m);
    assert_eq!(
        add_margin_long(&mut d, short_id(), 1_000000),
        Err(ErrorCode::Unauthorized)
    );
    assert_eq!(
        add_margin_short(&mut d, long_id(), 1_000000),
        Err(ErrorCode::Unauthorized)
    );
    assert_eq!(d.long_margin, 10_000000);
    assert_eq!(d.short_margin, 10_000000);
}

#[test]
fn add_margin_rejects_closed_deal() {
    let mut d = fresh_record();
    assert_eq!(add_margin_long(&mut d, long_id(), 1), Err(ErrorCode::NotOpen));
    assert_eq!(add_margin_short(&mut d, short_id(), 1), Err(ErrorCode::NotOpen));
}

#[test]
fn add_margin_rejects_balance_overflow() {
    let m = priced_market();
    let mut d = open_reference_deal(&m);
    assert_eq!(
        add_margin_long(&mut d, long_id(), u64::MAX),
        Err(ErrorCode::MathOverflow)
    );
    assert_eq!(d.long_margin, 10_000000);
}

#[test]
fn close_after_up_move_gives_long_the_whole_pool() {
    // NAV 100.0 -> 110.0: pnl_long +10.0; with both vaults at 10.0,
    // long_payout = clamp(20.0, 0, 20.0) = 20.0 and short gets nothing.
    let mut m = priced_market();
    let mut d = open_reference_deal(&m);
    post_nav(&mut m, AccountId(9), 110_000000, None, 1_100).unwrap();
    let o = close_deal(&mut d, &m, 1_100).unwrap();
    assert_eq!(o.long_payout, 20_000000);
    assert_eq!(o.short_payout, 0);
    assert_eq!(o.close_nav, 110_000000);
    assert!(!d.is_open);
    assert_eq!(d.long_margin, 0);
    assert_eq!(d.short_margin, 0);
}

#[test]
fn close_flat_returns_both_margins() {
    let m = priced_market();
    let mut d = open_reference_deal(&m);
    let o = close_deal(&mut d, &m, 1_200).unwrap();
    assert_eq!(o.long_payout, 10_000000);
    assert_eq!(o.short_payout, 10_000000);
    assert_eq!(o.long_payout + o.short_payout, 20_000000);
}

#[test]
fn close_conserves_the_pool_on_down_moves() {
    let mut m = priced_market();
    let mut d = open_reference_deal(&m);
    // NAV 100.0 -> 96.5: pnl_long -3.5
    post_nav(&mut m, AccountId(9), 96_500000, None, 1_100).unwrap();
    let o = close_deal(&mut d, &m, 1_100).unwrap();
    assert_eq!(o.long_payout, 6_500000);
    assert_eq!(o.short_payout, 13_500000);
    assert_eq!(o.long_payout + o.short_payout, 20_000000);
}

#[test]
fn close_clamps_when_long_is_wiped_out() {
    let mut m = priced_market();
    let mut d = open_reference_deal(&m);
    // NAV 100.0 -> 85.0 (within two 10%-jump posts): pnl_long -15.0,
    // below the long vault: the payout clamps at zero
    post_nav(&mut m, AccountId(9), 92_000000, None, 1_050).unwrap();
    post_nav(&mut m, AccountId(9), 85_000000, None, 1_100).unwrap();
    let o = close_deal(&mut d, &m, 1_100).unwrap();
    assert_eq!(o.long_payout, 0);
    assert_eq!(o.short_payout, 20_000000);
}

#[test]
fn close_on_closed_deal_fails_not_open() {
    let m = priced_market();
    let mut d = open_reference_deal(&m);
    close_deal(&mut d, &m, 1_000).unwrap();
    let before = d;
    assert_eq!(close_deal(&mut d, &m, 1_000), Err(ErrorCode::NotOpen));
    assert_eq!(d, before);
}

#[test]
fn close_rejected_when_paused() {
    let mut m = priced_market();
    let mut d = open_reference_deal(&m);
    m.paused = true;
    assert_eq!(close_deal(&mut d, &m, 1_000), Err(ErrorCode::MarketPaused));
    assert!(d.is_open);
}

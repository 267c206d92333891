use synthetic_stack_futures::market::{
    apply_market_updates, count_admin_signers, execute_market_params, init_market, pause_market,
    propose_market_params, require_admin_or_multisig, require_multisig, rotate_authority,
    update_market_params, Market, MarketInitParams, MarketUpdateParams,
};
use synthetic_stack_futures::{AccountId, ErrorCode};

fn base_params() -> MarketInitParams {
    MarketInitParams {
        oracle_authority: AccountId(9),
        price_decimals: 6,
        initial_margin_bps: 1000,
        maintenance_margin_bps: 500,
        fee_bps: 100,
        liquidator_bps: 100,
        price_stale_seconds: 3600,
        max_leverage_bps: 60000,
        max_nav_jump_bps: 2000,
        max_confidence_bps: None,
        mm_buffer_bps: None,
        admin_threshold: None,
    }
}

fn base_market() -> Market {
    init_market(AccountId(1), AccountId(2), 6, AccountId(3), base_params())
}

#[test]
fn init_market_fields_and_defaults() {
    let m = base_market();
    assert_eq!(m.authority, AccountId(1));
    assert_eq!(m.quote_mint, AccountId(2));
    assert_eq!(m.stack_id, AccountId(3));
    assert_eq!(m.oracle_authority, AccountId(9));
    assert_eq!(m.price_decimals, 6);
    assert_eq!(m.quote_decimals, 6);
    assert_eq!(m.initial_margin_bps, 1000);
    assert_eq!(m.maintenance_margin_bps, 500);
    assert_eq!(m.fee_bps, 100);
    assert_eq!(m.liquidator_bps, 100);
    assert_eq!(m.price_stale_seconds, 3600);
    assert_eq!(m.last_nav, 0);
    assert_eq!(m.last_ts, 0);
    assert!(!m.paused);
    assert_eq!(m.max_leverage_bps, 60000);
    assert_eq!(m.max_nav_jump_bps, 2000);
    // defaults: confidence gate disabled, 1% buffer, threshold one
    assert_eq!(m.max_confidence_bps, 0);
    assert_eq!(m.mm_buffer_bps, 100);
    assert_eq!(m.admin_threshold, 1);
    assert_eq!(m.circuit_breaker_until, 0);
    assert_eq!(m.admins, vec![AccountId(1)]);
    assert!(m.pending.is_none());
}

#[test]
fn init_market_explicit_options() {
    let mut p = base_params();
    p.max_confidence_bps = Some(50);
    p.mm_buffer_bps = Some(250);
    p.admin_threshold = Some(2);
    let m = init_market(AccountId(1), AccountId(2), 9, AccountId(3), p);
    assert_eq!(m.max_confidence_bps, 50);
    assert_eq!(m.mm_buffer_bps, 250);
    assert_eq!(m.admin_threshold, 2);
    assert_eq!(m.quote_decimals, 9);
}

#[test]
fn pause_by_authority() {
    let mut m = base_market();
    let no_signers: Vec<AccountId> = Vec::new();
    assert_eq!(pause_market(&mut m, AccountId(1), &no_signers, true), Ok(()));
    assert!(m.paused);
    assert_eq!(pause_market(&mut m, AccountId(1), &no_signers, false), Ok(()));
    assert!(!m.paused);
}

#[test]
fn pause_by_stranger_fails() {
    let mut m = base_market();
    let no_signers: Vec<AccountId> = Vec::new();
    assert_eq!(
        pause_market(&mut m, AccountId(77), &no_signers, true),
        Err(ErrorCode::NotEnoughSigners)
    );
    assert!(!m.paused);
}

#[test]
fn multisig_counts_distinct_members_only() {
    let admins = vec![AccountId(10), AccountId(11), AccountId(0), AccountId(11)];
    // a duplicate signer entry and a duplicate admin entry each count once;
    // the sentinel slot never counts
    let signers = vec![AccountId(11), AccountId(11), AccountId(0), AccountId(10), AccountId(99)];
    assert_eq!(count_admin_signers(&admins, &signers), 2);
    let nobody = vec![AccountId(98)];
    assert_eq!(count_admin_signers(&admins, &nobody), 0);
}

#[test]
fn multisig_threshold_enforced() {
    let mut m = base_market();
    m.admins = vec![AccountId(10), AccountId(11), AccountId(12)];
    m.admin_threshold = 2;
    let one = vec![AccountId(10)];
    let two = vec![AccountId(12), AccountId(10)];
    assert_eq!(require_multisig(&m, &one), Err(ErrorCode::NotEnoughSigners));
    assert_eq!(require_multisig(&m, &two), Ok(()));
    // the governance authority needs no co-signers at all
    let none: Vec<AccountId> = Vec::new();
    assert_eq!(require_admin_or_multisig(&m, AccountId(1), &none), Ok(()));
    assert_eq!(
        require_admin_or_multisig(&m, AccountId(55), &one),
        Err(ErrorCode::NotEnoughSigners)
    );
    assert_eq!(require_admin_or_multisig(&m, AccountId(55), &two), Ok(()));
}

fn update_fee_only(fee: u16) -> MarketUpdateParams {
    MarketUpdateParams {
        oracle_authority: None,
        initial_margin_bps: None,
        maintenance_margin_bps: None,
        fee_bps: Some(fee),
        liquidator_bps: None,
        price_stale_seconds: None,
        max_leverage_bps: None,
        max_nav_jump_bps: None,
        max_confidence_bps: None,
        mm_buffer_bps: None,
        admin_threshold: None,
    }
}

#[test]
fn apply_updates_touches_only_given_fields() {
    let mut m = base_market();
    let before = m.clone();
    let mut p = update_fee_only(42);
    p.oracle_authority = Some(AccountId(1234));
    apply_market_updates(&mut m, &p);
    assert_eq!(m.fee_bps, 42);
    assert_eq!(m.oracle_authority, AccountId(1234));
    assert_eq!(m.initial_margin_bps, before.initial_margin_bps);
    assert_eq!(m.maintenance_margin_bps, before.maintenance_margin_bps);
    assert_eq!(m.last_nav, before.last_nav);
    assert_eq!(m.admins, before.admins);
    assert_eq!(m.paused, before.paused);
}

#[test]
fn update_params_requires_authorization() {
    let mut m = base_market();
    let none: Vec<AccountId> = Vec::new();
    let p = update_fee_only(7);
    assert_eq!(
        update_market_params(&mut m, AccountId(66), &none, &p),
        Err(ErrorCode::NotEnoughSigners)
    );
    assert_eq!(m.fee_bps, 100);
    assert_eq!(update_market_params(&mut m, AccountId(1), &none, &p), Ok(()));
    assert_eq!(m.fee_bps, 7);
}

#[test]
fn timelock_propose_then_execute() {
    let mut m = base_market();
    let none: Vec<AccountId> = Vec::new();
    let p = update_fee_only(55);
    // nothing pending yet
    assert_eq!(
        execute_market_params(&mut m, AccountId(1), &none, 1_000),
        Err(ErrorCode::NoPendingParams)
    );
    assert_eq!(
        propose_market_params(&mut m, AccountId(1), &none, &p, 600, 1_000),
        Ok(())
    );
    let pending = m.pending.unwrap();
    assert_eq!(pending.eta, 1_600);
    assert_eq!(pending.params.fee_bps, Some(55));
    // too early
    assert_eq!(
        execute_market_params(&mut m, AccountId(1), &none, 1_599),
        Err(ErrorCode::TimelockNotExpired)
    );
    assert_eq!(m.fee_bps, 100);
    // on time: applied and cleared
    assert_eq!(execute_market_params(&mut m, AccountId(1), &none, 1_600), Ok(()));
    assert_eq!(m.fee_bps, 55);
    assert!(m.pending.is_none());
}

#[test]
fn repropose_overwrites_pending() {
    let mut m = base_market();
    let none: Vec<AccountId> = Vec::new();
    assert_eq!(
        propose_market_params(&mut m, AccountId(1), &none, &update_fee_only(11), 100, 0),
        Ok(())
    );
    assert_eq!(
        propose_market_params(&mut m, AccountId(1), &none, &update_fee_only(22), 500, 0),
        Ok(())
    );
    let pending = m.pending.unwrap();
    assert_eq!(pending.params.fee_bps, Some(22));
    assert_eq!(pending.eta, 500);
}

#[test]
fn rotate_authority_keeps_first_admin_slot_in_sync() {
    let mut m = base_market();
    m.admins = vec![AccountId(1), AccountId(20)];
    let none: Vec<AccountId> = Vec::new();
    assert_eq!(
        rotate_authority(&mut m, AccountId(40), &none, AccountId(40)),
        Err(ErrorCode::NotEnoughSigners)
    );
    assert_eq!(rotate_authority(&mut m, AccountId(1), &none, AccountId(40)), Ok(()));
    assert_eq!(m.authority, AccountId(40));
    assert_eq!(m.admins, vec![AccountId(40), AccountId(20)]);
    // the new authority is authorized from now on
    assert_eq!(pause_market(&mut m, AccountId(40), &none, true), Ok(()));
    assert!(m.paused);
}

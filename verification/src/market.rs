//! Market configuration and governance: risk and fee parameters, the admin
//! set with its signature threshold, immediate and timelocked parameter
//! changes, authority rotation and the pause flag.

use vstd::prelude::*;

use crate::{AccountId, ErrorCode, is_sentinel};

verus! {

/// Parameters supplied when a market is created.
#[derive(Clone, Copy, PartialEq, Eq, Debug)]
pub struct MarketInitParams {
    pub oracle_authority: AccountId,
    pub price_decimals: u8,
    pub initial_margin_bps: u16,
    pub maintenance_margin_bps: u16,
    pub fee_bps: u16,
    pub liquidator_bps: u16,
    pub price_stale_seconds: u32,
    pub max_leverage_bps: u16,
    pub max_nav_jump_bps: u16,
    pub max_confidence_bps: Option<u16>,
    pub mm_buffer_bps: Option<u16>,
    pub admin_threshold: Option<u8>,
}

/// An update: every field is optional, unspecified fields are left unchanged.
#[derive(Clone, Copy, PartialEq, Eq, Debug)]
pub struct MarketUpdateParams {
    pub oracle_authority: Option<AccountId>,
    pub initial_margin_bps: Option<u16>,
    pub maintenance_margin_bps: Option<u16>,
    pub fee_bps: Option<u16>,
    pub liquidator_bps: Option<u16>,
    pub price_stale_seconds: Option<u32>,
    pub max_leverage_bps: Option<u16>,
    pub max_nav_jump_bps: Option<u16>,
    pub max_confidence_bps: Option<u16>,
    pub mm_buffer_bps: Option<u16>,
    pub admin_threshold: Option<u8>,
}

/// The single outstanding timelocked parameter change: the parameters and the
/// earliest time at which they may be applied.
#[derive(Clone, Copy, PartialEq, Eq, Debug)]
pub struct PendingParams {
    pub params: MarketUpdateParams,
    pub eta: i64,
}

/// One market: a (governance authority, settlement asset, synthetic
/// reference) tuple with its risk parameters, oracle state and admin set.
#[derive(Clone, PartialEq, Eq, Debug)]
pub struct Market {
    pub authority: AccountId,
    pub quote_mint: AccountId,
    pub oracle_authority: AccountId,
    pub stack_id: AccountId,
    pub price_decimals: u8,
    pub quote_decimals: u8,
    pub initial_margin_bps: u16,
    pub maintenance_margin_bps: u16,
    pub fee_bps: u16,
    pub liquidator_bps: u16,
    pub price_stale_seconds: u32,
    pub last_nav: u64,
    pub last_ts: i64,
    pub paused: bool,
    pub max_leverage_bps: u16,
    pub max_nav_jump_bps: u16,
    pub max_confidence_bps: u16,
    pub circuit_breaker_until: i64,
    pub mm_buffer_bps: u16,
    pub admin_threshold: u8,
    pub admins: Vec<AccountId>,
    pub pending: Option<PendingParams>,
}

impl MarketInitParams {
    /// The four rates are genuine basis-point fractions (at most 100%).
    pub open spec fn wf(&self) -> bool {
        &&& self.initial_margin_bps <= 10000
        &&& self.maintenance_margin_bps <= 10000
        &&& self.fee_bps <= 10000
        &&& self.liquidator_bps <= 10000
    }
}

impl MarketUpdateParams {
    /// Any rate the update carries stays a genuine basis-point fraction.
    pub open spec fn wf(&self) -> bool {
        &&& match self.initial_margin_bps {
            Some(x) => x <= 10000,
            None => true,
        }
        &&& match self.maintenance_margin_bps {
            Some(x) => x <= 10000,
            None => true,
        }
        &&& match self.fee_bps {
            Some(x) => x <= 10000,
            None => true,
        }
        &&& match self.liquidator_bps {
            Some(x) => x <= 10000,
            None => true,
        }
    }
}

impl Market {
    /// Well-formedness: the rate parameters are genuine basis-point
    /// fractions, the admin set is never empty (the governance authority
    /// always occupies the first slot), and a pending change, if any, keeps
    /// the rates well-formed when applied.
    pub open spec fn wf(&self) -> bool {
        &&& self.initial_margin_bps <= 10000
        &&& self.maintenance_margin_bps <= 10000
        &&& self.fee_bps <= 10000
        &&& self.liquidator_bps <= 10000
        &&& self.admins.len() >= 1
        &&& match self.pending {
            Some(p) => p.params.wf(),
            None => true,
        }
    }
}

/// Create a market. The confidence cap defaults to disabled, the
/// maintenance-margin buffer to 100 bps and the admin threshold to one; the
/// governance authority becomes the sole admin-set member. The price state
/// starts empty (`last_nav == 0` gates all trading), the market unpaused and
/// the circuit breaker unarmed.
pub fn init_market(
    authority: AccountId,
    quote_mint: AccountId,
    quote_decimals: u8,
    stack_id: AccountId,
    params: MarketInitParams,
) -> (m: Market)
    requires
        params.wf(),
    ensures
        m.authority == authority,
        m.quote_mint == quote_mint,
        m.oracle_authority == params.oracle_authority,
        m.stack_id == stack_id,
        m.price_decimals == params.price_decimals,
        m.quote_decimals == quote_decimals,
        m.initial_margin_bps == params.initial_margin_bps,
        m.maintenance_margin_bps == params.maintenance_margin_bps,
        m.fee_bps == params.fee_bps,
        m.liquidator_bps == params.liquidator_bps,
        m.price_stale_seconds == params.price_stale_seconds,
        m.last_nav == 0,
        m.last_ts == 0,
        !m.paused,
        m.max_leverage_bps == params.max_leverage_bps,
        m.max_nav_jump_bps == params.max_nav_jump_bps,
        m.max_confidence_bps == match params.max_confidence_bps {
            Some(x) => x,
            None => 0,
        },
        m.circuit_breaker_until == 0,
        m.mm_buffer_bps == match params.mm_buffer_bps {
            Some(x) => x,
            None => 100,
        },
        m.admin_threshold == match params.admin_threshold {
            Some(x) => x,
            None => 1,
        },
        m.admins@ == seq![authority],
        m.pending is None,
        m.wf(),
{
    let mut admins: Vec<AccountId> = Vec::new();
    admins.push(authority);
    proof {
        assert(admins@ =~= seq![authority]);
    }
    Market {
        authority,
        quote_mint,
        oracle_authority: params.oracle_authority,
        stack_id,
        price_decimals: params.price_decimals,
        quote_decimals,
        initial_margin_bps: params.initial_margin_bps,
        maintenance_margin_bps: params.maintenance_margin_bps,
        fee_bps: params.fee_bps,
        liquidator_bps: params.liquidator_bps,
        price_stale_seconds: params.price_stale_seconds,
        last_nav: 0,
        last_ts: 0,
        paused: false,
        max_leverage_bps: params.max_leverage_bps,
        max_nav_jump_bps: params.max_nav_jump_bps,
        max_confidence_bps: match params.max_confidence_bps {
            Some(x) => x,
            None => 0,
        },
        circuit_breaker_until: 0,
        mm_buffer_bps: match params.mm_buffer_bps {
            Some(x) => x,
            None => 100,
        },
        admin_threshold: match params.admin_threshold {
            Some(x) => x,
            None => 1,
        },
        admins,
        pending: None,
    }
}

/// The distinct, non-sentinel admin-set members that are present among the
/// authenticated co-signers of a call.
pub open spec fn admin_signer_set(admins: Seq<AccountId>, signers: Seq<AccountId>) -> Set<
    AccountId,
> {
    Set::new(|a: AccountId| admins.contains(a) && !is_sentinel(a) && signers.contains(a))
}

/// Whether the multisig predicate holds: enough distinct, non-sentinel
/// admin-set members co-signed.
pub open spec fn multisig_ok(m: Market, signers: Seq<AccountId>) -> bool {
    admin_signer_set(m.admins@, signers).finite() && admin_signer_set(m.admins@, signers).len()
        >= m.admin_threshold
}

/// The authorization predicate for governance operations: the governance
/// authority itself, or enough admin-set co-signers.
pub open spec fn authorized_spec(m: Market, caller: AccountId, signers: Seq<AccountId>) -> bool {
    caller == m.authority || multisig_ok(m, signers)
}

fn vec_contains_id(v: &Vec<AccountId>, a: AccountId) -> (r: bool)
    ensures
        r == v@.contains(a),
{
    let mut i: usize = 0;
    while i < v.len()
        invariant
            0 <= i <= v@.len(),
            forall|j: int| 0 <= j < i ==> v@[j] != a,
        decreases v@.len() - i,
    {
        if v[i] == a {
            return true;
        }
        i = i + 1;
    }
    false
}

fn prefix_contains_id(v: &Vec<AccountId>, end: usize, a: AccountId) -> (r: bool)
    requires
        end <= v@.len(),
    ensures
        r == v@.take(end as int).contains(a),
{
    let mut i: usize = 0;
    while i < end
        invariant
            0 <= i <= end <= v@.len(),
            forall|j: int| 0 <= j < i ==> v@[j] != a,
        decreases end - i,
    {
        if v[i] == a {
            proof {
                assert(v@.take(end as int)[i as int] == a);
            }
            return true;
        }
        i = i + 1;
    }
    proof {
        assert forall|j: int| 0 <= j < v@.take(end as int).len() implies v@.take(end as int)[j]
            != a by {
            assert(v@.take(end as int)[j] == v@[j]);
        }
    }
    false
}

/// Count the distinct, non-sentinel admin-set members present among the
/// authenticated co-signers: the cardinality of `admin_signer_set`.
pub fn count_admin_signers(admins: &Vec<AccountId>, signers: &Vec<AccountId>) -> (n: usize)
    ensures
        admin_signer_set(admins@, signers@).finite(),
        n == admin_signer_set(admins@, signers@).len(),
{
    let ghost all = admins@;
    let mut n: usize = 0;
    let mut i: usize = 0;
    proof {
        assert(admin_signer_set(all.take(0), signers@) =~= Set::<AccountId>::empty());
    }
    while i < admins.len()
        invariant
            0 <= i <= all.len(),
            all == admins@,
            admin_signer_set(all.take(i as int), signers@).finite(),
            n == admin_signer_set(all.take(i as int), signers@).len(),
            n <= i,
        decreases all.len() - i,
    {
        let a = admins[i];
        let ghost pre = admin_signer_set(all.take(i as int), signers@);
        let counted = a.0 != 0 && vec_contains_id(signers, a) && !prefix_contains_id(
            admins,
            i,
            a,
        );
        proof {
            assert forall|x: AccountId| all.take(i as int).contains(x) implies all.take(
                i + 1,
            ).contains(x) by {
                let j = choose|j: int|
                    0 <= j < all.take(i as int).len() && #[trigger] all.take(i as int)[j] == x;
                assert(all.take(i + 1)[j] == x);
            }
            assert(all.take(i + 1)[i as int] == a);
            assert forall|x: AccountId| all.take(i + 1).contains(x) implies (all.take(
                i as int,
            ).contains(x) || x == a) by {
                let j = choose|j: int|
                    0 <= j < all.take(i + 1).len() && #[trigger] all.take(i + 1)[j] == x;
                if j < i {
                    assert(all.take(i as int)[j] == x);
                }
            }
            if counted {
                assert(admin_signer_set(all.take(i + 1), signers@) =~= pre.insert(a));
                assert(!pre.contains(a));
            } else {
                assert(admin_signer_set(all.take(i + 1), signers@) =~= pre);
            }
        }
        if counted {
            n = n + 1;
        }
        i = i + 1;
    }
    proof {
        assert(all.take(all.len() as int) =~= all);
    }
    n
}

/// The multisig check alone: enough distinct, non-sentinel admin-set members
/// among the authenticated co-signers, or `NotEnoughSigners`.
pub fn require_multisig(m: &Market, signers: &Vec<AccountId>) -> (r: Result<(), ErrorCode>)
    ensures
        match r {
            Ok(()) => multisig_ok(*m, signers@),
            Err(e) => e == ErrorCode::NotEnoughSigners && !multisig_ok(*m, signers@),
        },
{
    let n = count_admin_signers(&m.admins, signers);
    if n >= m.admin_threshold as usize {
        Ok(())
    } else {
        Err(ErrorCode::NotEnoughSigners)
    }
}

/// The governance authorization gate: the governance authority itself passes
/// outright, anyone else needs the multisig.
pub fn require_admin_or_multisig(
    m: &Market,
    authority_key: AccountId,
    signers: &Vec<AccountId>,
) -> (r: Result<(), ErrorCode>)
    ensures
        match r {
            Ok(()) => authorized_spec(*m, authority_key, signers@),
            Err(e) => e == ErrorCode::NotEnoughSigners && !authorized_spec(
                *m,
                authority_key,
                signers@,
            ),
        },
{
    if authority_key == m.authority {
        return Ok(());
    }
    require_multisig(m, signers)
}

/// `m` with every field the update carries replaced, the rest unchanged.
pub open spec fn apply_updates_spec(m: Market, p: MarketUpdateParams) -> Market {
    Market {
        oracle_authority: match p.oracle_authority {
            Some(x) => x,
            None => m.oracle_authority,
        },
        initial_margin_bps: match p.initial_margin_bps {
            Some(x) => x,
            None => m.initial_margin_bps,
        },
        maintenance_margin_bps: match p.maintenance_margin_bps {
            Some(x) => x,
            None => m.maintenance_margin_bps,
        },
        fee_bps: match p.fee_bps {
            Some(x) => x,
            None => m.fee_bps,
        },
        liquidator_bps: match p.liquidator_bps {
            Some(x) => x,
            None => m.liquidator_bps,
        },
        price_stale_seconds: match p.price_stale_seconds {
            Some(x) => x,
            None => m.price_stale_seconds,
        },
        max_leverage_bps: match p.max_leverage_bps {
            Some(x) => x,
            None => m.max_leverage_bps,
        },
        max_nav_jump_bps: match p.max_nav_jump_bps {
            Some(x) => x,
            None => m.max_nav_jump_bps,
        },
        max_confidence_bps: match p.max_confidence_bps {
            Some(x) => x,
            None => m.max_confidence_bps,
        },
        mm_buffer_bps: match p.mm_buffer_bps {
            Some(x) => x,
            None => m.mm_buffer_bps,
        },
        admin_threshold: match p.admin_threshold {
            Some(x) => x,
            None => m.admin_threshold,
        },
        ..m
    }
}

/// Apply an update in place: each field the update carries replaces the
/// market's, unspecified fields are left unchanged.
pub fn apply_market_updates(m: &mut Market, p: &MarketUpdateParams)
    ensures
        *final(m) == apply_updates_spec(*old(m), *p),
{
    if let Some(x) = p.oracle_authority {
        m.oracle_authority = x;
    }
    if let Some(x) = p.initial_margin_bps {
        m.initial_margin_bps = x;
    }
    if let Some(x) = p.maintenance_margin_bps {
        m.maintenance_margin_bps = x;
    }
    if let Some(x) = p.fee_bps {
        m.fee_bps = x;
    }
    if let Some(x) = p.liquidator_bps {
        m.liquidator_bps = x;
    }
    if let Some(x) = p.price_stale_seconds {
        m.price_stale_seconds = x;
    }
    if let Some(x) = p.max_leverage_bps {
        m.max_leverage_bps = x;
    }
    if let Some(x) = p.max_nav_jump_bps {
        m.max_nav_jump_bps = x;
    }
    if let Some(x) = p.max_confidence_bps {
        m.max_confidence_bps = x;
    }
    if let Some(x) = p.mm_buffer_bps {
        m.mm_buffer_bps = x;
    }
    if let Some(x) = p.admin_threshold {
        m.admin_threshold = x;
    }
}

/// Set or clear the pause flag. When paused, NAV posting and every trading
/// and liquidation operation is rejected with `MarketPaused`.
pub fn pause_market(
    m: &mut Market,
    caller: AccountId,
    signers: &Vec<AccountId>,
    paused: bool,
) -> (r: Result<(), ErrorCode>)
    ensures
        match r {
            Ok(()) => authorized_spec(*old(m), caller, signers@) && *final(m) == (Market {
                paused,
                ..*old(m)
            }),
            Err(e) => e == ErrorCode::NotEnoughSigners && !authorized_spec(
                *old(m),
                caller,
                signers@,
            ) && *final(m) == *old(m),
        },
{
    match require_admin_or_multisig(m, caller, signers) {
        Ok(()) => {
            m.paused = paused;
            Ok(())
        },
        Err(e) => Err(e),
    }
}

/// Apply a parameter update immediately, after authorization.
pub fn update_market_params(
    m: &mut Market,
    caller: AccountId,
    signers: &Vec<AccountId>,
    params: &MarketUpdateParams,
) -> (r: Result<(), ErrorCode>)
    requires
        params.wf(),
    ensures
        match r {
            Ok(()) => authorized_spec(*old(m), caller, signers@) && *final(m) == apply_updates_spec(
                *old(m),
                *params,
            ),
            Err(e) => e == ErrorCode::NotEnoughSigners && !authorized_spec(
                *old(m),
                caller,
                signers@,
            ) && *final(m) == *old(m),
        },
{
    match require_admin_or_multisig(m, caller, signers) {
        Ok(()) => {
            apply_market_updates(m, params);
            Ok(())
        },
        Err(e) => Err(e),
    }
}

/// Store a timelocked parameter change effective `delay_secs` from now,
/// overwriting any prior pending change. The effective time must fit the
/// clock's range.
pub fn propose_market_params(
    m: &mut Market,
    caller: AccountId,
    signers: &Vec<AccountId>,
    params: &MarketUpdateParams,
    delay_secs: i64,
    now: i64,
) -> (r: Result<(), ErrorCode>)
    requires
        params.wf(),
        i64::MIN <= now + delay_secs <= i64::MAX,
    ensures
        match r {
            Ok(()) => authorized_spec(*old(m), caller, signers@) && *final(m) == (Market {
                pending: Some(
                    PendingParams { params: *params, eta: (now + delay_secs) as i64 },
                ),
                ..*old(m)
            }),
            Err(e) => e == ErrorCode::NotEnoughSigners && !authorized_spec(
                *old(m),
                caller,
                signers@,
            ) && *final(m) == *old(m),
        },
{
    match require_admin_or_multisig(m, caller, signers) {
        Ok(()) => {
            m.pending = Some(PendingParams { params: *params, eta: now + delay_secs });
            Ok(())
        },
        Err(e) => Err(e),
    }
}

/// Apply the pending timelocked change once its effective time has been
/// reached, and clear the pending slot.
pub fn execute_market_params(
    m: &mut Market,
    caller: AccountId,
    signers: &Vec<AccountId>,
    now: i64,
) -> (r: Result<(), ErrorCode>)
    ensures
        match r {
            Ok(()) => {
                &&& authorized_spec(*old(m), caller, signers@)
                &&& old(m).pending is Some
                &&& now >= old(m).pending->Some_0.eta
                &&& *final(m) == (Market {
                    pending: None,
                    ..apply_updates_spec(*old(m), old(m).pending->Some_0.params)
                })
            },
            Err(e) => *final(m) == *old(m) && (if e == ErrorCode::NotEnoughSigners {
                !authorized_spec(*old(m), caller, signers@)
            } else if e == ErrorCode::NoPendingParams {
                authorized_spec(*old(m), caller, signers@) && old(m).pending is None
            } else {
                e == ErrorCode::TimelockNotExpired && authorized_spec(*old(m), caller, signers@)
                    && old(m).pending is Some && now < old(m).pending->Some_0.eta
            }),
        },
{
    match require_admin_or_multisig(m, caller, signers) {
        Ok(()) => {},
        Err(e) => {
            return Err(e);
        },
    }
    let (pending_params, eta): (MarketUpdateParams, i64) = match &m.pending {
        Some(p) => (p.params, p.eta),
        None => {
            return Err(ErrorCode::NoPendingParams);
        },
    };
    if now < eta {
        return Err(ErrorCode::TimelockNotExpired);
    }
    apply_market_updates(m, &pending_params);
    m.pending = None;
    Ok(())
}

/// Replace the governance authority; the first admin-set slot is kept in
/// sync with it (a deliberate simplification, not a security boundary).
pub fn rotate_authority(
    m: &mut Market,
    caller: AccountId,
    signers: &Vec<AccountId>,
    new_authority: AccountId,
) -> (r: Result<(), ErrorCode>)
    requires
        old(m).admins.len() >= 1,
    ensures
        match r {
            Ok(()) => {
                &&& authorized_spec(*old(m), caller, signers@)
                &&& *final(m) == (Market {
                    authority: new_authority,
                    admins: final(m).admins,
                    ..*old(m)
                })
                &&& final(m).admins@ == old(m).admins@.update(0, new_authority)
            },
            Err(e) => e == ErrorCode::NotEnoughSigners && !authorized_spec(
                *old(m),
                caller,
                signers@,
            ) && *final(m) == *old(m),
        },
{
    match require_admin_or_multisig(m, caller, signers) {
        Ok(()) => {
            m.authority = new_authority;
            m.admins.set(0, new_authority);
            Ok(())
        },
        Err(e) => Err(e),
    }
}

} // verus!

//! Full liquidation of an unhealthy position: the liquidator pays the borrower's entire debt
//! on both markets and receives all of its alpha collateral, minus the platform's cut of
//! `min(fee, (C - D) / C)` of each netuid's collateral (nothing when the collateral does not
//! cover the debt).

use vstd::prelude::*;
use crate::ratio::{Ratio, RATIO_ONE, scale_floor};
use crate::types::{AccountId, Balance};
use super::{
    Error, Liquidated, MarketState, PoolEffect, PoolEnv, PoolEvent, PoolFailure, PoolResult,
    Position, pos_key, position_key, scaled_debt_to_face,
};
use super::pool::{PoolView, TusdtLendingPool};
use super::rates::accrue_outcome;
use super::risk::{collateral_price_spec, health_factor_spec, oracle_price_spec, platform_share_spec, full_seizure_split};
use super::borrow::{face_of, with_principal};
use super::collateral::with_total_collateral;
use super::ops::{accrual_effects, with_position};

verus! {

broadcast use vstd::std_specs::hash::group_hash_axioms;

/// The outcome of a liquidation: the new state, the effects before the closing event, and the
/// event's contents (netuids seized, alpha seized, platform alpha, TAO debt covered, TUSDT debt
/// covered); or the effects attempted and the error.
pub type LiquidationOutcome = Result<(PoolView, Seq<PoolEffect>, (Seq<u16>, u64, u64, u64, u64)), (Seq<PoolEffect>, Error)>;

/// `e` emits the liquidation event with these contents.
pub open spec fn is_liquidated_event(
    e: PoolEffect,
    user: AccountId,
    liquidator: AccountId,
    summary: (Seq<u16>, u64, u64, u64, u64),
) -> bool {
    e matches PoolEffect::Emit(PoolEvent::Liquidated(ev)) && ev.user == user && ev.liquidator == liquidator
        && ev.collateral_netuids@ == summary.0 && ev.collateral_seized == summary.1
        && ev.platform_alpha == summary.2 && ev.debt_covered_tao == summary.3
        && ev.debt_covered_tusdt == summary.4
}

/// `r` reports the liquidation outcome `o`, and on success the state reached is `o`'s.
pub open spec fn liquidation_reached(new: PoolView, r: PoolResult, o: LiquidationOutcome, user: AccountId, liquidator: AccountId) -> bool {
    match o {
        Ok((v, effs, summary)) => r matches Ok(x) && x@.len() == effs.len() + 1 && x@.take(effs.len() as int) == effs
            && is_liquidated_event(x@.last(), user, liquidator, summary) && new == v,
        Err((att, e)) => r matches Err(f) && f.attempted@ == att && f.error == e,
    }
}

/// `r` reports the liquidation outcome `o`; on failure the state is unchanged.
pub open spec fn liquidation_settled(old: PoolView, new: PoolView, r: PoolResult, o: LiquidationOutcome, user: AccountId, liquidator: AccountId) -> bool {
    &&& liquidation_reached(new, r, o, user, liquidator)
    &&& (o is Err ==> new == old)
}

/// The alpha collateral of `user` over the market ids `keys`, scanned in order: the running
/// total value and the (netuid, principal) entries with principal, or the first error.
pub open spec fn seizable_scan(v: PoolView, env: PoolEnv, user: AccountId, keys: Seq<u8>, total: int, entries: Seq<(u16, Balance)>) -> Result<(int, Seq<(u16, Balance)>), Error>
    decreases keys.len(),
{
    if keys.len() == 0 {
        Ok((total, entries))
    } else {
        let m = keys[0];
        let rest = keys.drop_first();
        if m < 2 {
            seizable_scan(v, env, user, rest, total, entries)
        } else if !v.market_to_netuid.contains_key(m) {
            Err(Error::MarketNotFound)
        } else {
            let netuid = v.market_to_netuid[m];
            let principal = v.position(m, user).alpha_principal;
            if principal == 0 {
                seizable_scan(v, env, user, rest, total, entries)
            } else {
                match collateral_price_spec(v, env, netuid) {
                    Err(e) => Err(e),
                    Ok(p) => if principal * p.inner > u128::MAX
                        || total + scale_floor(principal as int, p.inner as int) > u128::MAX {
                        Err(Error::ArithmeticError)
                    } else {
                        seizable_scan(v, env, user, rest, total + scale_floor(principal as int, p.inner as int), entries.push((netuid, principal)))
                    },
                }
            }
        }
    }
}

/// The platform's share of a netuid's collateral in this liquidation. The fee rate is the
/// market's `liquidation_bonus`: the alpha market parameters carry no separate liquidation-fee
/// field, so the bonus is the one rate they offer for it.
pub open spec fn platform_share_of(v: PoolView, netuid: u16, cv: int, dv: int) -> int {
    platform_share_spec(cv, dv, v.alpha_params_of(netuid).liquidation_bonus.inner as int)
}

/// The platform's alpha out of `principal`.
pub open spec fn platform_cut(v: PoolView, netuid: u16, principal: Balance, cv: int, dv: int) -> int {
    scale_floor(principal as int, platform_share_of(v, netuid, cv, dv))
}

/// The totals of seized alpha and of the platform's alpha over `entries`.
pub open spec fn seize_scan(v: PoolView, entries: Seq<(u16, Balance)>, cv: int, dv: int, seized: int, platform: int) -> Result<(int, int), Error>
    decreases entries.len(),
{
    if entries.len() == 0 {
        Ok((seized, platform))
    } else {
        let (netuid, principal) = entries[0];
        let pp = platform_cut(v, netuid, principal, cv, dv);
        if seized + principal > u128::MAX || platform + pp > u128::MAX {
            Err(Error::ArithmeticError)
        } else {
            seize_scan(v, entries.drop_first(), cv, dv, seized + principal, platform + pp)
        }
    }
}

/// The state with `user`'s debt in market `m` retired in full.
pub open spec fn clear_debt(v: PoolView, m: u8, user: AccountId) -> Result<PoolView, Error> {
    let pos = v.position(m, user);
    let s = v.market(m).unwrap();
    if pos.scaled_debt == 0 {
        Ok(v)
    } else if s.total_scaled_debt < pos.scaled_debt {
        Err(Error::ArithmeticError)
    } else {
        let ts = (s.total_scaled_debt - pos.scaled_debt) as u64;
        match face_of(ts, s.borrow_index.inner) {
            None => Err(Error::ArithmeticError),
            Some(f) => Ok(with_position(
                with_principal(v.with_market(m, MarketState { total_scaled_debt: ts, total_debt: f as u64, ..s }), m, user, 0),
                m,
                user,
                Position { scaled_debt: 0, ..pos },
            )),
        }
    }
}

/// The state with `user`'s alpha positions of `entries` emptied and the netuids' booked
/// collateral reduced.
pub open spec fn clear_scan(user: AccountId, entries: Seq<(u16, Balance)>, v: PoolView) -> Result<PoolView, Error>
    decreases entries.len(),
{
    if entries.len() == 0 {
        Ok(v)
    } else {
        let (netuid, principal) = entries[0];
        if !v.netuid_to_market.contains_key(netuid) {
            Err(Error::UnapprovedNetuid)
        } else {
            let mid = v.netuid_to_market[netuid];
            let pos = v.position(mid, user);
            let v1 = with_position(v, mid, user, Position { alpha_principal: 0, ..pos });
            let cur = v1.total_collateral(netuid);
            if cur < principal {
                Err(Error::ArithmeticError)
            } else {
                clear_scan(user, entries.drop_first(), with_total_collateral(v1, netuid, (cur - principal) as u64))
            }
        }
    }
}

/// The stake transfers of a liquidation: per netuid the platform's cut, then the rest to the
/// liquidator (each only when non-zero).
pub open spec fn stake_transfers(v: PoolView, entries: Seq<(u16, Balance)>, cv: int, dv: int, liquidator: AccountId) -> Seq<PoolEffect>
    decreases entries.len(),
{
    if entries.len() == 0 {
        Seq::empty()
    } else {
        let (netuid, principal) = entries[0];
        let pp = platform_cut(v, netuid, principal, cv, dv);
        let lp = principal - pp;
        let a = if pp > 0 {
            seq![PoolEffect::TransferStake { dest: v.platform, hotkey: v.pool_hotkey, netuid, amount: pp as u64 }]
        } else {
            Seq::empty()
        };
        let b = if lp > 0 {
            seq![PoolEffect::TransferStake { dest: liquidator, hotkey: v.pool_hotkey, netuid, amount: lp as u64 }]
        } else {
            Seq::empty()
        };
        a + b + stake_transfers(v, entries.drop_first(), cv, dv, liquidator)
    }
}

/// The face debt of `user` in market `m` (0 without scaled debt), when it fits a `Balance`.
pub open spec fn debt_face(v: PoolView, m: u8, user: AccountId) -> Option<int> {
    let scaled = v.position(m, user).scaled_debt;
    if scaled == 0 { Some(0) } else { face_of(scaled, v.market(m).unwrap().borrow_index.inner) }
}

/// The liquidation of `borrower` by the caller.
pub open spec fn liquidate_spec(v: PoolView, env: PoolEnv, borrower: AccountId) -> LiquidationOutcome {
    if v.paused {
        Err((Seq::empty(), Error::ContractPaused))
    } else if v.busy {
        Err((Seq::empty(), Error::Reentrancy))
    } else {
        match accrue_outcome(PoolView { busy: true, ..v }, env, 0) {
            Err(e) => Err((Seq::empty(), e)),
            Ok((v1, ev0)) => match accrue_outcome(v1, env, 1) {
                Err(e) => Err((accrual_effects(ev0), e)),
                Ok((v2, ev1)) => liquidation_checked(v2, env, borrower, accrual_effects(ev0) + accrual_effects(ev1)),
            },
        }
    }
}

/// The checks of a liquidation after both markets accrued, and the totals it settles at.
pub open spec fn liquidation_checked(v2: PoolView, env: PoolEnv, b: AccountId, pre: Seq<PoolEffect>) -> LiquidationOutcome {
    match health_factor_spec(v2, env, b) {
        Err(e) => Err((pre, e)),
        Ok(h) => if !(h matches Some(hf) && hf.inner < RATIO_ONE) {
            Err((pre, Error::NotLiquidatable))
        } else {
            match oracle_price_spec(v2, env) {
                Err(e) => Err((pre, e)),
                Ok(price) => match seizable_scan(v2, env, b, v2.market_keys, 0, Seq::empty()) {
                    Err(e) => Err((pre, e)),
                    Ok((cv, entries)) => if cv > u64::MAX {
                        Err((pre, Error::ArithmeticError))
                    } else if entries.len() == 0 {
                        Err((pre, Error::ZeroAmount))
                    } else {
                        match debt_face(v2, 0, b) {
                            None => Err((pre, Error::ArithmeticError)),
                            Some(tao_debt) => match debt_face(v2, 1, b) {
                                None => Err((pre, Error::ArithmeticError)),
                                Some(tusdt_debt) => if tao_debt * price.inner > u128::MAX
                                    || scale_floor(tao_debt, price.inner as int) > u64::MAX
                                    || scale_floor(tao_debt, price.inner as int) + tusdt_debt > u64::MAX {
                                    Err((pre, Error::ArithmeticError))
                                } else if scale_floor(tao_debt, price.inner as int) + tusdt_debt == 0 {
                                    Err((pre, Error::ZeroAmount))
                                } else {
                                    liquidation_booked(v2, env, b, pre, cv, scale_floor(tao_debt, price.inner as int) + tusdt_debt,
                                        entries, tao_debt as u64, tusdt_debt as u64)
                                },
                            },
                        }
                    },
                },
            }
        },
    }
}

/// The settlement of a liquidation at collateral value `cv` and debt value `dv`.
pub open spec fn liquidation_booked(
    v2: PoolView,
    env: PoolEnv,
    b: AccountId,
    pre: Seq<PoolEffect>,
    cv: int,
    dv: int,
    entries: Seq<(u16, Balance)>,
    tao_debt: u64,
    tusdt_debt: u64,
) -> LiquidationOutcome {
    match seize_scan(v2, entries, cv, dv, 0, 0) {
        Err(e) => Err((pre, e)),
        Ok((seized, platform)) => match clear_debt(v2, 0, b) {
            Err(e) => Err((pre, e)),
            Ok(v3) => match clear_debt(v3, 1, b) {
                Err(e) => Err((pre, e)),
                Ok(v4) => match clear_scan(b, entries, v4) {
                    Err(e) => Err((pre, e)),
                    Ok(v5) => {
                        let liquidator = env.caller;
                        let tv = env.transferred_value;
                        let p1 = if tusdt_debt > 0 { pre.push(PoolEffect::TusdtTransferFrom { from: liquidator, amount: tusdt_debt }) } else { pre };
                        if tao_debt > 0 && tv < tao_debt {
                            Err((p1, Error::TransferFailed))
                        } else {
                            let p2 = if tao_debt > 0 && tv > tao_debt {
                                p1.push(PoolEffect::TransferNative { to: liquidator, amount: (tv - tao_debt) as u64 })
                            } else {
                                p1
                            };
                            let p3 = p2 + stake_transfers(v2, entries, cv, dv, liquidator);
                            if seized > u64::MAX || platform > u64::MAX {
                                Err((p3, Error::ArithmeticError))
                            } else {
                                Ok((
                                    PoolView { busy: false, ..v5 },
                                    p3,
                                    (entries.map_values(|e: (u16, Balance)| e.0), seized as u64, platform as u64, tao_debt, tusdt_debt),
                                ))
                            }
                        }
                    },
                },
            },
        },
    }
}

proof fn lemma_share_at_most_one(cv: int, dv: int, fee: int)
    requires
        0 <= cv,
        0 <= dv,
        0 <= fee,
    ensures
        0 <= platform_share_spec(cv, dv, fee) <= RATIO_ONE,
{
    if cv > dv {
        assert(0 <= ((cv - dv) * RATIO_ONE) / cv <= RATIO_ONE) by (nonlinear_arith)
            requires cv > dv, dv >= 0;
    }
}

proof fn lemma_cut_at_most_principal(principal: int, share: int)
    requires
        0 <= principal <= u64::MAX,
        0 <= share <= RATIO_ONE,
    ensures
        principal * share <= u128::MAX,
        0 <= scale_floor(principal, share) <= principal,
{
    assert(principal * share <= principal * RATIO_ONE) by (nonlinear_arith)
        requires 0 <= principal, share <= RATIO_ONE;
    assert(0 <= (principal * share) / (RATIO_ONE as int) <= principal) by (nonlinear_arith)
        requires 0 <= principal, 0 <= share <= RATIO_ONE;
}

/// Emptying alpha positions touches neither market's accrual state nor any scaled debt.
proof fn lemma_clear_scan_keeps_debt(user: AccountId, entries: Seq<(u16, Balance)>, v: PoolView)
    requires
        clear_scan(user, entries, v) is Ok,
    ensures
        clear_scan(user, entries, v)->Ok_0.market_tao == v.market_tao,
        clear_scan(user, entries, v)->Ok_0.market_tusdt == v.market_tusdt,
        forall|m: u8, u: AccountId| #[trigger] clear_scan(user, entries, v)->Ok_0.position(m, u).scaled_debt == v.position(m, u).scaled_debt,
    decreases entries.len(),
{
    if entries.len() > 0 {
        let (netuid, principal) = entries[0];
        let mid = v.netuid_to_market[netuid];
        let pos = v.position(mid, user);
        let v1 = with_position(v, mid, user, Position { alpha_principal: 0, ..pos });
        let cur = v1.total_collateral(netuid);
        let v2 = with_total_collateral(v1, netuid, (cur - principal) as u64);
        lemma_clear_scan_keeps_debt(user, entries.drop_first(), v2);
        assert forall|m: u8, u: AccountId| #[trigger] v2.position(m, u).scaled_debt == v.position(m, u).scaled_debt by {
            if pos_key(m, u) == pos_key(mid, user) {
            }
        }
    }
}

/// A liquidation that succeeds retires the borrower's whole debt in both markets, and each
/// market's scaled total drops by exactly the borrower's former scaled debt there.
pub proof fn law_liquidation_clears_debt_in_lockstep(v: PoolView, env: PoolEnv, borrower: AccountId)
    requires
        liquidate_spec(v, env, borrower) is Ok,
    ensures
        ({
            let v2 = liquidate_spec(v, env, borrower)->Ok_0.0;
            &&& v2.position(0, borrower).scaled_debt == 0
            &&& v2.position(1, borrower).scaled_debt == 0
            &&& v.market_tao.total_scaled_debt - v2.market_tao.total_scaled_debt == v.position(0, borrower).scaled_debt
            &&& v.market_tusdt.total_scaled_debt - v2.market_tusdt.total_scaled_debt == v.position(1, borrower).scaled_debt
        }),
{
    let vb = PoolView { busy: true, ..v };
    super::borrow::lemma_accrue_keeps_ledger(vb, env, 0);
    let v1 = accrue_outcome(vb, env, 0)->Ok_0.0;
    super::borrow::lemma_accrue_keeps_ledger(v1, env, 1);
    let v2 = accrue_outcome(v1, env, 1)->Ok_0.0;
    super::lemma_pos_key_injective(0, borrower, 1, borrower);
    let v3 = clear_debt(v2, 0, borrower)->Ok_0;
    let v4 = clear_debt(v3, 1, borrower)->Ok_0;
    assert(v4.position(0, borrower).scaled_debt == 0);
    let p = liquidate_spec(v, env, borrower)->Ok_0;
    let (cv, entries) = seizable_scan(v2, env, borrower, v2.market_keys, 0, Seq::empty())->Ok_0;
    lemma_clear_scan_keeps_debt(borrower, entries, v4);
    assert(v4.position(1, borrower).scaled_debt == 0);
    assert(v.market_tao.total_scaled_debt - v4.market_tao.total_scaled_debt == v.position(0, borrower).scaled_debt);
    assert(v.market_tusdt.total_scaled_debt - v4.market_tusdt.total_scaled_debt == v.position(1, borrower).scaled_debt);
    let v5 = clear_scan(borrower, entries, v4)->Ok_0;
    assert(p.0 == PoolView { busy: false, ..v5 });
    assert(v5.position(0, borrower).scaled_debt == v4.position(0, borrower).scaled_debt);
    assert(v5.position(1, borrower).scaled_debt == v4.position(1, borrower).scaled_debt);
}

impl TusdtLendingPool {
    /// Liquidates `borrower` in full, as [`liquidate_spec`] states: the caller (liquidator) pays
    /// the borrower's entire TAO debt (with the call's value, excess refunded) and TUSDT debt
    /// (pulled), and the borrower's alpha collateral goes to the platform (its cut) and the
    /// liquidator (the rest).
    pub fn liquidate(&mut self, env: &PoolEnv, borrower: AccountId) -> (r: PoolResult)
        ensures
            liquidation_settled(old(self)@, final(self)@, r, liquidate_spec(old(self)@, *env, borrower), borrower, env.caller),
    {
        let saved = self.snapshot();
        let r = self.liquidate_steps(env, borrower);
        if r.is_err() {
            *self = saved;
        }
        r
    }

    fn liquidate_steps(&mut self, env: &PoolEnv, borrower: AccountId) -> (r: PoolResult)
        ensures
            liquidation_reached(final(self)@, r, liquidate_spec(old(self)@, *env, borrower), borrower, env.caller),
    {
        if self.paused {
            return Err(PoolFailure { attempted: Vec::new(), error: Error::ContractPaused });
        }
        if self.busy {
            return Err(PoolFailure { attempted: Vec::new(), error: Error::Reentrancy });
        }
        self.busy = true;
        let mut effects: Vec<PoolEffect> = Vec::new();
        match self.accrue_into(env, 0, &mut effects) {
            Ok(()) => {},
            Err(e) => return Err(PoolFailure { attempted: effects, error: e }),
        }
        match self.accrue_into(env, 1, &mut effects) {
            Ok(()) => {},
            Err(e) => return Err(PoolFailure { attempted: effects, error: e }),
        }
        self.liquidation_checks(env, borrower, effects)
    }

    /// The (netuid, principal) entries of `user`'s alpha collateral and its total value.
    fn seizable_collateral(&self, env: &PoolEnv, user: AccountId) -> (r: Result<(u128, Vec<(u16, Balance)>), Error>)
        ensures
            match seizable_scan(self@, *env, user, self@.market_keys, 0, Seq::empty()) {
                Ok((t, es)) => r matches Ok((x, v)) && x == t && v@ == es,
                Err(e) => r == Err::<(u128, Vec<(u16, Balance)>), Error>(e),
            },
    {
        let mut total: u128 = 0;
        let mut entries: Vec<(u16, Balance)> = Vec::new();
        let count = self.market_keys.len();
        let mut i: usize = 0;
        assert(self@.market_keys.skip(0) =~= self@.market_keys);
        while i < count
            invariant
                count == self@.market_keys.len(),
                i <= count,
                seizable_scan(self@, *env, user, self@.market_keys, 0, Seq::empty())
                    == seizable_scan(self@, *env, user, self@.market_keys.skip(i as int), total as int, entries@),
            decreases count - i,
        {
            let ghost rest = self@.market_keys.skip(i as int);
            assert(rest.drop_first() =~= self@.market_keys.skip(i + 1));
            let market_id = self.market_keys[i];
            if market_id >= 2 {
                let netuid = match self.market_to_netuid.get(&market_id) {
                    Some(n) => *n,
                    None => return Err(Error::MarketNotFound),
                };
                let pos = self.position_or_zero(market_id, user);
                if pos.alpha_principal != 0 {
                    let price = match self.collateral_price(env, netuid) {
                        Ok(p) => p,
                        Err(e) => return Err(e),
                    };
                    let value = match price.checked_mul_value(pos.alpha_principal as u128) {
                        Some(x) => x,
                        None => return Err(Error::ArithmeticError),
                    };
                    total = match total.checked_add(value) {
                        Some(t) => t,
                        None => return Err(Error::ArithmeticError),
                    };
                    entries.push((netuid, pos.alpha_principal));
                }
            }
            i = i + 1;
        }
        assert(self@.market_keys.skip(count as int).len() == 0);
        Ok((total, entries))
    }

    /// The seized and platform totals over `entries`, with each entry's platform share.
    fn seizure_totals(&self, entries: &Vec<(u16, Balance)>, cv: Balance, dv: Balance) -> (r: Result<(u128, u128, Vec<Ratio>), Error>)
        ensures
            match seize_scan(self@, entries@, cv as int, dv as int, 0, 0) {
                Ok((s, p)) => r matches Ok((x, y, shares)) && x == s && y == p && shares@.len() == entries@.len()
                    && forall|j: int| 0 <= j < entries@.len() ==> (#[trigger] shares@[j]).inner == platform_share_of(self@, entries@[j].0, cv as int, dv as int),
                Err(e) => r matches Err(x) && x == e,
            },
    {
        let mut seized: u128 = 0;
        let mut platform: u128 = 0;
        let mut shares: Vec<Ratio> = Vec::new();
        let n = entries.len();
        let mut i: usize = 0;
        assert(entries@.skip(0) =~= entries@);
        while i < n
            invariant
                n == entries@.len(),
                i <= n,
                shares@.len() == i,
                forall|j: int| 0 <= j < i ==> (#[trigger] shares@[j]).inner == platform_share_of(self@, entries@[j].0, cv as int, dv as int),
                seize_scan(self@, entries@, cv as int, dv as int, 0, 0)
                    == seize_scan(self@, entries@.skip(i as int), cv as int, dv as int, seized as int, platform as int),
            decreases n - i,
        {
            let ghost rest = entries@.skip(i as int);
            assert(rest.drop_first() =~= entries@.skip(i + 1));
            let (netuid, principal) = entries[i];
            let fee = self.alpha_params_or_default(netuid).liquidation_bonus;
            let share = match full_seizure_split(cv, dv, fee) {
                Ok((_, s)) => s,
                Err(e) => return Err(e),
            };
            proof {
                lemma_share_at_most_one(cv as int, dv as int, fee.inner as int);
                lemma_cut_at_most_principal(principal as int, share.inner as int);
            }
            let pp = match share.checked_mul_value(principal as u128) {
                Some(x) => x,
                None => return Err(Error::ArithmeticError),
            };
            seized = match seized.checked_add(principal as u128) {
                Some(x) => x,
                None => return Err(Error::ArithmeticError),
            };
            platform = match platform.checked_add(pp) {
                Some(x) => x,
                None => return Err(Error::ArithmeticError),
            };
            shares.push(share);
            i = i + 1;
        }
        assert(entries@.skip(n as int).len() == 0);
        Ok((seized, platform, shares))
    }

    /// Retires `user`'s debt in market `m`, as [`clear_debt`] states.
    fn clear_debt_of(&mut self, m: u8, user: AccountId) -> (r: Result<(), Error>)
        requires
            m < 2,
        ensures
            match clear_debt(old(self)@, m, user) {
                Ok(v) => r is Ok && final(self)@ == v,
                Err(e) => r == Err::<(), Error>(e),
            },
    {
        let pos = self.position_or_zero(m, user);
        if pos.scaled_debt == 0 {
            return Ok(());
        }
        let s = self.market_state(m);
        if s.total_scaled_debt < pos.scaled_debt {
            return Err(Error::ArithmeticError);
        }
        let ts = s.total_scaled_debt - pos.scaled_debt;
        let face = match scaled_debt_to_face(ts, s.borrow_index) {
            Some(f) => f,
            None => return Err(Error::ArithmeticError),
        };
        self.store_market(m, MarketState { total_scaled_debt: ts, total_debt: face, ..s });
        self.debt_principal.insert(position_key(m, user), 0);
        self.set_position(m, user, Position { scaled_debt: 0, ..pos });
        Ok(())
    }

    /// Empties `user`'s alpha positions of `entries`, as [`clear_scan`] states.
    fn clear_collateral(&mut self, user: AccountId, entries: &Vec<(u16, Balance)>) -> (r: Result<(), Error>)
        ensures
            match clear_scan(user, entries@, old(self)@) {
                Ok(v) => r is Ok && final(self)@ == v,
                Err(e) => r == Err::<(), Error>(e),
            },
    {
        let n = entries.len();
        let mut i: usize = 0;
        assert(entries@.skip(0) =~= entries@);
        while i < n
            invariant
                n == entries@.len(),
                i <= n,
                clear_scan(user, entries@, old(self)@) == clear_scan(user, entries@.skip(i as int), self@),
            decreases n - i,
        {
            let ghost rest = entries@.skip(i as int);
            assert(rest.drop_first() =~= entries@.skip(i + 1));
            let (netuid, principal) = entries[i];
            let mid = match self.netuid_to_market.get(&netuid) {
                Some(m) => *m,
                None => return Err(Error::UnapprovedNetuid),
            };
            let pos = self.position_or_zero(mid, user);
            self.set_position(mid, user, Position { alpha_principal: 0, ..pos });
            let cur = self.total_collateral_or_zero(netuid);
            if cur < principal {
                return Err(Error::ArithmeticError);
            }
            self.netuid_total_collateral.insert(netuid, cur - principal);
            i = i + 1;
        }
        assert(entries@.skip(n as int).len() == 0);
        Ok(())
    }

    fn liquidation_checks(&mut self, env: &PoolEnv, b: AccountId, effects: Vec<PoolEffect>) -> (r: PoolResult)
        ensures
            liquidation_reached(final(self)@, r, liquidation_checked(old(self)@, *env, b, effects@), b, env.caller),
    {
        let health = match self.get_health_factor(env, b) {
            Ok(h) => h,
            Err(e) => return Err(PoolFailure { attempted: effects, error: e }),
        };
        let liquidatable = match health {
            Some(hf) => hf.inner < RATIO_ONE,
            None => false,
        };
        if !liquidatable {
            return Err(PoolFailure { attempted: effects, error: Error::NotLiquidatable });
        }
        let price = match self.get_oracle_price(env) {
            Ok(p) => p,
            Err(e) => return Err(PoolFailure { attempted: effects, error: e }),
        };
        let (total, entries) = match self.seizable_collateral(env, b) {
            Ok(x) => x,
            Err(e) => return Err(PoolFailure { attempted: effects, error: e }),
        };
        let cv = match crate::types::balance_from_u128(total) {
            Some(c) => c,
            None => return Err(PoolFailure { attempted: effects, error: Error::ArithmeticError }),
        };
        if entries.len() == 0 {
            return Err(PoolFailure { attempted: effects, error: Error::ZeroAmount });
        }
        let tao_pos = self.position_or_zero(0, b);
        let tao_debt: Balance = if tao_pos.scaled_debt == 0 {
            0
        } else {
            match scaled_debt_to_face(tao_pos.scaled_debt, self.market_tao.borrow_index) {
                Some(d) => d,
                None => return Err(PoolFailure { attempted: effects, error: Error::ArithmeticError }),
            }
        };
        let tusdt_pos = self.position_or_zero(1, b);
        let tusdt_debt: Balance = if tusdt_pos.scaled_debt == 0 {
            0
        } else {
            match scaled_debt_to_face(tusdt_pos.scaled_debt, self.market_tusdt.borrow_index) {
                Some(d) => d,
                None => return Err(PoolFailure { attempted: effects, error: Error::ArithmeticError }),
            }
        };
        let tao_value = match price.checked_mul_value(tao_debt as u128) {
            Some(x) => match crate::types::balance_from_u128(x) {
                Some(v) => v,
                None => return Err(PoolFailure { attempted: effects, error: Error::ArithmeticError }),
            },
            None => return Err(PoolFailure { attempted: effects, error: Error::ArithmeticError }),
        };
        let dv = match tao_value.checked_add(tusdt_debt) {
            Some(d) => d,
            None => return Err(PoolFailure { attempted: effects, error: Error::ArithmeticError }),
        };
        if dv == 0 {
            return Err(PoolFailure { attempted: effects, error: Error::ZeroAmount });
        }
        self.liquidation_booking(env, b, effects, cv, dv, entries, tao_debt, tusdt_debt)
    }

    fn liquidation_booking(
        &mut self,
        env: &PoolEnv,
        b: AccountId,
        effects: Vec<PoolEffect>,
        cv: Balance,
        dv: Balance,
        entries: Vec<(u16, Balance)>,
        tao_debt: Balance,
        tusdt_debt: Balance,
    ) -> (r: PoolResult)
        ensures
            liquidation_reached(final(self)@, r, liquidation_booked(old(self)@, *env, b, effects@, cv as int, dv as int, entries@, tao_debt, tusdt_debt), b, env.caller),
    {
        let ghost v2 = self@;
        let mut effects = effects;
        let ghost pre = effects@;
        let (seized, platform_total, shares) = match self.seizure_totals(&entries, cv, dv) {
            Ok(x) => x,
            Err(e) => return Err(PoolFailure { attempted: effects, error: e }),
        };
        let platform = self.platform;
        let hotkey = self.pool_hotkey;
        match self.clear_debt_of(0, b) {
            Ok(()) => {},
            Err(e) => return Err(PoolFailure { attempted: effects, error: e }),
        }
        match self.clear_debt_of(1, b) {
            Ok(()) => {},
            Err(e) => return Err(PoolFailure { attempted: effects, error: e }),
        }
        match self.clear_collateral(b, &entries) {
            Ok(()) => {},
            Err(e) => return Err(PoolFailure { attempted: effects, error: e }),
        }
        let liquidator = env.caller;
        if tusdt_debt > 0 {
            effects.push(PoolEffect::TusdtTransferFrom { from: liquidator, amount: tusdt_debt });
        }
        if tao_debt > 0 {
            if env.transferred_value < tao_debt {
                return Err(PoolFailure { attempted: effects, error: Error::TransferFailed });
            }
            if env.transferred_value > tao_debt {
                effects.push(PoolEffect::TransferNative { to: liquidator, amount: env.transferred_value - tao_debt });
            }
        }
        let ghost p2 = effects@;
        let n = entries.len();
        let mut i: usize = 0;
        assert(entries@.skip(0) =~= entries@);
        assert(p2 + Seq::<PoolEffect>::empty() =~= p2);
        while i < n
            invariant
                n == entries@.len(),
                i <= n,
                shares@.len() == n,
                platform == v2.platform,
                hotkey == v2.pool_hotkey,
                forall|j: int| 0 <= j < n ==> (#[trigger] shares@[j]).inner == platform_share_of(v2, entries@[j].0, cv as int, dv as int),
                p2 + stake_transfers(v2, entries@, cv as int, dv as int, liquidator)
                    == effects@ + stake_transfers(v2, entries@.skip(i as int), cv as int, dv as int, liquidator),
            decreases n - i,
        {
            let ghost before = effects@;
            let ghost rest = entries@.skip(i as int);
            assert(rest.drop_first() =~= entries@.skip(i + 1));
            let (netuid, principal) = entries[i];
            let share = shares[i];
            proof {
                lemma_share_at_most_one(cv as int, dv as int, v2.alpha_params_of(netuid).liquidation_bonus.inner as int);
                lemma_cut_at_most_principal(principal as int, share.inner as int);
            }
            let pp = ((principal as u128) * share.inner / RATIO_ONE) as u64;
            let lp = principal - pp;
            if pp > 0 {
                effects.push(PoolEffect::TransferStake { dest: platform, hotkey, netuid, amount: pp });
            }
            if lp > 0 {
                effects.push(PoolEffect::TransferStake { dest: liquidator, hotkey, netuid, amount: lp });
            }
            proof {
                let a = if pp > 0 {
                    seq![PoolEffect::TransferStake { dest: platform, hotkey, netuid, amount: pp }]
                } else {
                    Seq::<PoolEffect>::empty()
                };
                let bb = if lp > 0 {
                    seq![PoolEffect::TransferStake { dest: liquidator, hotkey, netuid, amount: lp }]
                } else {
                    Seq::<PoolEffect>::empty()
                };
                assert(effects@ =~= before + a + bb);
                let tail = stake_transfers(v2, entries@.skip(i + 1), cv as int, dv as int, liquidator);
                assert(stake_transfers(v2, rest, cv as int, dv as int, liquidator) == a + bb + tail);
                assert(before + (a + bb + tail) =~= effects@ + tail);
            }
            i = i + 1;
        }
        assert(entries@.skip(n as int).len() == 0);
        assert(effects@ + Seq::<PoolEffect>::empty() =~= effects@);
        let ghost p3 = effects@;
        let seized_b = match crate::types::balance_from_u128(seized) {
            Some(x) => x,
            None => return Err(PoolFailure { attempted: effects, error: Error::ArithmeticError }),
        };
        let platform_b = match crate::types::balance_from_u128(platform_total) {
            Some(x) => x,
            None => return Err(PoolFailure { attempted: effects, error: Error::ArithmeticError }),
        };
        let mut netuids: Vec<u16> = Vec::new();
        let mut k: usize = 0;
        while k < n
            invariant
                n == entries@.len(),
                k <= n,
                netuids@ == entries@.take(k as int).map_values(|e: (u16, Balance)| e.0),
            decreases n - k,
        {
            netuids.push(entries[k].0);
            k = k + 1;
            assert(netuids@ =~= entries@.take(k as int).map_values(|e: (u16, Balance)| e.0));
        }
        assert(entries@.take(n as int) =~= entries@);
        effects.push(PoolEffect::Emit(PoolEvent::Liquidated(Liquidated {
            user: b,
            liquidator,
            collateral_netuids: netuids,
            collateral_seized: seized_b,
            platform_alpha: platform_b,
            debt_covered_tao: tao_debt,
            debt_covered_tusdt: tusdt_debt,
        })));
        self.busy = false;
        proof {
            assert(effects@.take(p3.len() as int) =~= p3);
        }
        Ok(effects)
    }
}

} // verus!

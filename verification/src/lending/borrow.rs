//! Borrowing against alpha collateral, with the first hour of interest charged up front, and
//! repaying debt. Debt is booked in scaled units (`face / borrow_index`, rounded up) in lockstep
//! on the position and the market total.

use vstd::prelude::*;
use crate::ratio::{RATIO_ONE, scale_floor, unscale_ceil};
use crate::types::{AccountId, Balance};
use super::{
    Borrowed, Error, MarketState, PoolEffect, PoolEnv, PoolEvent, PoolResult, Position, Repaid,
    pos_key, position_key, scaled_debt_to_face,
};
use super::pool::{PoolView, TusdtLendingPool};
use super::rates::{accrue_outcome, market_cash_spec, prepaid_hour_spec, charge_prepaid_hour};
use super::risk::{oracle_price_spec, available_borrow_spec};
use super::ops::{Outcome, fail, reached, settled, accrual_effects, with_position, top_up_spec, failure, refusal};

verus! {

broadcast use vstd::std_specs::hash::group_hash_axioms;

/// `floor(scaled * index)` when it fits a `Balance`.
pub open spec fn face_of(scaled: Balance, index: u128) -> Option<int> {
    if scaled * index > u128::MAX || scale_floor(scaled as int, index as int) > u64::MAX {
        None
    } else {
        Some(scale_floor(scaled as int, index as int))
    }
}

/// `ceil(face / index)` when defined and it fits a `Balance`.
pub open spec fn scaled_of(face: Balance, index: u128) -> Option<int> {
    if index == 0 || unscale_ceil(face as int, index as int) > u64::MAX {
        None
    } else {
        Some(unscale_ceil(face as int, index as int))
    }
}

/// The borrow cap (face units) of market `m`; 0 means unlimited.
pub open spec fn borrow_cap(v: PoolView, m: u8) -> Balance {
    if m == 0 { v.global_params.borrow_cap_tao } else { v.global_params.borrow_cap_tusdt }
}

/// The state with the debt principal of `user` in `m` set to `b`.
pub open spec fn with_principal(v: PoolView, m: u8, user: u64, b: Balance) -> PoolView {
    PoolView { debt_principal: v.debt_principal.insert(pos_key(m, user), b), ..v }
}

/// A borrow of `amount` from market `m` (0 = TAO, 1 = TUSDT).
pub open spec fn borrow_spec(v: PoolView, env: PoolEnv, m: u8, amount: Balance) -> Outcome {
    if v.paused {
        fail(Seq::empty(), Error::ContractPaused)
    } else if amount == 0 {
        fail(Seq::empty(), Error::ZeroAmount)
    } else if v.busy {
        fail(Seq::empty(), Error::Reentrancy)
    } else {
        match accrue_outcome(PoolView { busy: true, ..v }, env, m) {
            Err(e) => fail(Seq::empty(), e),
            Ok((v1, ev)) => borrow_checked(v1, env, m, amount, accrual_effects(ev)),
        }
    }
}

/// Cap and liquidity checks of a borrow, and for TAO the root-stake top-up.
pub open spec fn borrow_checked(v1: PoolView, env: PoolEnv, m: u8, amount: Balance, pre: Seq<PoolEffect>) -> Outcome {
    let s = v1.market(m).unwrap();
    let cap = borrow_cap(v1, m);
    if cap > 0 && s.total_debt + amount > u64::MAX {
        fail(pre, Error::ArithmeticError)
    } else if cap > 0 && s.total_debt + amount > cap {
        fail(pre, Error::BorrowCapExceeded)
    } else {
        match market_cash_spec(v1, env, m) {
            Err(e) => fail(pre, e),
            Ok(cash) => if amount > cash {
                fail(pre, Error::LiquidityInsufficient)
            } else if m == 0 && amount > env.native_balance {
                let shortfall = (amount - env.native_balance) as u64;
                match top_up_spec(v1, env, shortfall) {
                    Err(e) => fail(pre, e),
                    Ok((got, v2, effs)) => if got < shortfall {
                        fail(pre + effs, Error::LiquidityInsufficient)
                    } else {
                        borrow_health(v2, env, m, amount, cash, pre + effs)
                    },
                }
            } else {
                borrow_health(v1, env, m, amount, cash, pre)
            },
        }
    }
}

/// The TUSDT value of borrowing `amount` from market `m`.
pub open spec fn borrow_value(v: PoolView, env: PoolEnv, m: u8, amount: Balance) -> Result<int, Error> {
    if m == 1 {
        Ok(amount as int)
    } else {
        match oracle_price_spec(v, env) {
            Err(e) => Err(e),
            Ok(p) => if amount * p.inner > u128::MAX || scale_floor(amount as int, p.inner as int) > u64::MAX {
                Err(Error::ArithmeticError)
            } else {
                Ok(scale_floor(amount as int, p.inner as int))
            },
        }
    }
}

/// The health check of a borrow: its TUSDT value must not exceed what the caller may still
/// borrow.
pub open spec fn borrow_health(v2: PoolView, env: PoolEnv, m: u8, amount: Balance, cash: Balance, pre: Seq<PoolEffect>) -> Outcome {
    match borrow_value(v2, env, m, amount) {
        Err(e) => fail(pre, e),
        Ok(value) => match available_borrow_spec(v2, env, env.caller) {
            Err(e) => fail(pre, e),
            Ok(available) => if value > available {
                fail(pre, Error::BorrowHealthExceeded)
            } else {
                borrow_booked(v2, env, m, amount, cash, pre)
            },
        },
    }
}

/// The booking of a borrow: the prepaid hour, the scaled debt on the position and the market,
/// the principal, and the payout.
pub open spec fn borrow_booked(v2: PoolView, env: PoolEnv, m: u8, amount: Balance, cash: Balance, pre: Seq<PoolEffect>) -> Outcome {
    match prepaid_hour_spec(v2.market(m).unwrap(), v2.rate_params(m).unwrap(), cash, amount) {
        Err(e) => fail(pre, e),
        Ok((s1, premium)) => if amount + premium > u64::MAX {
            fail(pre, Error::ArithmeticError)
        } else {
            let index = s1.borrow_index.inner;
            match scaled_of((amount + premium) as u64, index) {
                None => fail(pre, Error::ArithmeticError),
                Some(scaled) => if s1.total_scaled_debt + scaled > u64::MAX {
                    fail(pre, Error::ArithmeticError)
                } else {
                    let total_scaled = (s1.total_scaled_debt + scaled) as u64;
                    let pos = v2.position(m, env.caller);
                    let principal = v2.principal(m, env.caller);
                    match face_of(total_scaled, index) {
                        None => fail(pre, Error::ArithmeticError),
                        Some(face) => if pos.scaled_debt + scaled > u64::MAX || principal + amount > u64::MAX {
                            fail(pre, Error::ArithmeticError)
                        } else {
                            let s2 = MarketState { total_scaled_debt: total_scaled, total_debt: face as u64, ..s1 };
                            let v3 = with_position(
                                with_principal(v2.with_market(m, s2), m, env.caller, (principal + amount) as u64),
                                m,
                                env.caller,
                                Position { scaled_debt: (pos.scaled_debt + scaled) as u64, ..pos },
                            );
                            let payout = if m == 0 {
                                PoolEffect::TransferNative { to: env.caller, amount }
                            } else {
                                PoolEffect::TusdtTransfer { to: env.caller, amount }
                            };
                            Ok((
                                PoolView { busy: false, ..v3 },
                                pre + seq![payout, PoolEffect::Emit(PoolEvent::Borrowed(Borrowed { market: m, user: env.caller, amount }))],
                            ))
                        },
                    }
                },
            }
        },
    }
}

/// A repayment of up to `amount` of debt in market `m` (0 = TAO, paid with the call's value;
/// 1 = TUSDT, pulled with `transfer_from`).
pub open spec fn repay_spec(v: PoolView, env: PoolEnv, m: u8, amount: Balance) -> Outcome {
    if v.paused {
        fail(Seq::empty(), Error::ContractPaused)
    } else if v.busy {
        fail(Seq::empty(), Error::Reentrancy)
    } else {
        match accrue_outcome(PoolView { busy: true, ..v }, env, m) {
            Err(e) => fail(Seq::empty(), e),
            Ok((v1, ev)) => repay_booked(v1, env, m, amount, accrual_effects(ev)),
        }
    }
}

/// The current debt of a position: its face value, or 0 when that does not fit a `Balance`.
pub open spec fn repayable_debt(s: MarketState, pos: Position) -> int {
    if pos.scaled_debt == 0 {
        0
    } else {
        match face_of(pos.scaled_debt, s.borrow_index.inner) {
            Some(d) => d,
            None => 0,
        }
    }
}

/// The booking of a repayment after interest accrued.
pub open spec fn repay_booked(v1: PoolView, env: PoolEnv, m: u8, amount: Balance, pre: Seq<PoolEffect>) -> Outcome {
    let s = v1.market(m).unwrap();
    let pos = v1.position(m, env.caller);
    let debt = repayable_debt(s, pos);
    let repay = if amount <= debt { amount as int } else { debt };
    // Below the whole debt, the scaled units credited are capped one short of the position,
    // so a partial repayment never clears it through rounding.
    if repay == 0 {
        Ok((PoolView { busy: false, ..v1 }, pre))
    } else {
        let scaled_opt: Option<int> = if repay >= debt {
            Some(pos.scaled_debt as int)
        } else {
            match scaled_of(repay as u64, s.borrow_index.inner) {
                None => None,
                Some(c) => Some(if c < pos.scaled_debt { c } else { pos.scaled_debt - 1 }),
            }
        };
        match scaled_opt {
            None => fail(pre, Error::ArithmeticError),
            Some(scaled_repaid) => if scaled_repaid == 0 {
                fail(pre, Error::ZeroAmount)
            } else if m == 0 && env.transferred_value < repay {
                fail(pre, Error::TransferFailed)
            } else {
                let pre2 = if m == 0 {
                    if env.transferred_value > repay {
                        pre.push(PoolEffect::TransferNative { to: env.caller, amount: (env.transferred_value - repay) as u64 })
                    } else {
                        pre
                    }
                } else {
                    pre.push(PoolEffect::TusdtTransferFrom { from: env.caller, amount: repay as u64 })
                };
                if s.total_scaled_debt < scaled_repaid {
                    fail(pre2, Error::ArithmeticError)
                } else {
                    let total_scaled = (s.total_scaled_debt - scaled_repaid) as u64;
                    match face_of(total_scaled, s.borrow_index.inner) {
                        None => fail(pre2, Error::ArithmeticError),
                        Some(face) => {
                            let principal = v1.principal(m, env.caller);
                            let s2 = MarketState { total_scaled_debt: total_scaled, total_debt: face as u64, ..s };
                            let v2 = with_position(
                                with_principal(
                                    v1.with_market(m, s2),
                                    m,
                                    env.caller,
                                    if principal >= repay { (principal - repay) as u64 } else { 0 },
                                ),
                                m,
                                env.caller,
                                Position { scaled_debt: (pos.scaled_debt - scaled_repaid) as u64, ..pos },
                            );
                            Ok((
                                PoolView { busy: false, ..v2 },
                                pre2.push(PoolEffect::Emit(PoolEvent::Repaid(Repaid { market: m, user: env.caller, amount: repay as u64 }))),
                            ))
                        },
                    }
                }
            },
        }
    }
}

/// The scaled-debt ledger of market `m` in `v`: its total and the caller's position.
pub open spec fn scaled_ledger(v: PoolView, m: u8, user: AccountId) -> (int, int) {
    (v.market(m).unwrap().total_scaled_debt as int, v.position(m, user).scaled_debt as int)
}

/// Interest accrual never touches positions nor the scaled debt total.
pub(crate) proof fn lemma_accrue_keeps_ledger(v: PoolView, env: PoolEnv, m: u8)
    requires
        m < 2,
        accrue_outcome(v, env, m) is Ok,
    ensures
        accrue_outcome(v, env, m)->Ok_0.0.positions == v.positions,
        accrue_outcome(v, env, m)->Ok_0.0.market_tao.total_scaled_debt == v.market_tao.total_scaled_debt,
        accrue_outcome(v, env, m)->Ok_0.0.market_tusdt.total_scaled_debt == v.market_tusdt.total_scaled_debt,
{
}

/// A repayment that succeeds removes the same scaled units from the market total and from the
/// repaying position.
pub proof fn law_repay_lockstep(v: PoolView, env: PoolEnv, m: u8, amount: Balance)
    requires
        m < 2,
        repay_spec(v, env, m, amount) is Ok,
    ensures
        ({
            let before = scaled_ledger(v, m, env.caller);
            let after = scaled_ledger(repay_spec(v, env, m, amount)->Ok_0.0, m, env.caller);
            before.0 - after.0 == before.1 - after.1 && after.1 <= before.1
        }),
{
    lemma_accrue_keeps_ledger(PoolView { busy: true, ..v }, env, m);
}

/// A repayment of at least the whole current debt clears the position's scaled debt exactly
/// when it succeeds.
pub proof fn law_full_repay_clears_position(v: PoolView, env: PoolEnv, m: u8, amount: Balance)
    requires
        m < 2,
        repay_spec(v, env, m, amount) is Ok,
        !v.paused,
        !v.busy,
        ({
            let v1 = accrue_outcome(PoolView { busy: true, ..v }, env, m)->Ok_0.0;
            let debt = repayable_debt(v1.market(m).unwrap(), v1.position(m, env.caller));
            debt > 0 && amount >= debt
        }),
    ensures
        repay_spec(v, env, m, amount)->Ok_0.0.position(m, env.caller).scaled_debt == 0,
{
}

/// A repayment of less than the whole current debt never clears the position: when it
/// succeeds, at least one scaled unit of debt stays.
pub proof fn law_partial_repay_keeps_position(v: PoolView, env: PoolEnv, m: u8, amount: Balance)
    requires
        m < 2,
        repay_spec(v, env, m, amount) is Ok,
        !v.paused,
        !v.busy,
        ({
            let v1 = accrue_outcome(PoolView { busy: true, ..v }, env, m)->Ok_0.0;
            amount < repayable_debt(v1.market(m).unwrap(), v1.position(m, env.caller))
        }),
    ensures
        repay_spec(v, env, m, amount)->Ok_0.0.position(m, env.caller).scaled_debt >= 1,
{
    lemma_accrue_keeps_ledger(PoolView { busy: true, ..v }, env, m);
}

/// A borrow that succeeds adds the same positive number of scaled units to the market total
/// and to the borrowing position.
pub proof fn law_borrow_lockstep(v: PoolView, env: PoolEnv, m: u8, amount: Balance)
    requires
        m < 2,
        borrow_spec(v, env, m, amount) is Ok,
    ensures
        ({
            let before = scaled_ledger(v, m, env.caller);
            let after = scaled_ledger(borrow_spec(v, env, m, amount)->Ok_0.0, m, env.caller);
            after.0 - before.0 == after.1 - before.1 && after.1 > before.1
        }),
{
    let vb = PoolView { busy: true, ..v };
    lemma_accrue_keeps_ledger(vb, env, m);
    let v1 = accrue_outcome(vb, env, m)->Ok_0.0;
    let pre = accrual_effects(accrue_outcome(vb, env, m)->Ok_0.1);
    let cash = market_cash_spec(v1, env, m)->Ok_0;
    if m == 0 && amount > env.native_balance {
        let shortfall = (amount - env.native_balance) as u64;
        let t = top_up_spec(v1, env, shortfall)->Ok_0;
        lemma_booked_lockstep(t.1, env, m, amount, cash, pre + t.2);
    } else {
        lemma_booked_lockstep(v1, env, m, amount, cash, pre);
    }
}

/// The booking step of a borrow keeps the scaled ledger in lockstep.
proof fn lemma_booked_lockstep(v2: PoolView, env: PoolEnv, m: u8, amount: Balance, cash: Balance, pre: Seq<PoolEffect>)
    requires
        m < 2,
        amount > 0,
        borrow_booked(v2, env, m, amount, cash, pre) is Ok,
    ensures
        ({
            let before = scaled_ledger(v2, m, env.caller);
            let after = scaled_ledger(borrow_booked(v2, env, m, amount, cash, pre)->Ok_0.0, m, env.caller);
            after.0 - before.0 == after.1 - before.1 && after.1 > before.1
        }),
{
    let (s1, premium) = prepaid_hour_spec(v2.market(m).unwrap(), v2.rate_params(m).unwrap(), cash, amount)->Ok_0;
    crate::ratio::law_ceil_scaling_is_positive((amount + premium) as int, s1.borrow_index.inner as int);
}

impl TusdtLendingPool {
    /// Borrows `amount` of TAO against the caller's alpha collateral, as [`borrow_spec`] states
    /// for market 0. One hour of interest is charged up front.
    pub fn borrow_tao(&mut self, env: &PoolEnv, amount: Balance) -> (r: PoolResult)
        ensures
            settled(old(self)@, final(self)@, r, borrow_spec(old(self)@, *env, 0, amount)),
    {
        let saved = self.snapshot();
        let r = self.borrow_steps(env, 0, amount);
        if r.is_err() {
            *self = saved;
        }
        r
    }

    /// Borrows `amount` of TUSDT against the caller's alpha collateral, as [`borrow_spec`]
    /// states for market 1. One hour of interest is charged up front.
    pub fn borrow_tusdt(&mut self, env: &PoolEnv, amount: Balance) -> (r: PoolResult)
        ensures
            settled(old(self)@, final(self)@, r, borrow_spec(old(self)@, *env, 1, amount)),
    {
        let saved = self.snapshot();
        let r = self.borrow_steps(env, 1, amount);
        if r.is_err() {
            *self = saved;
        }
        r
    }

    /// Repays up to `amount` of TAO debt (sent with the call), as [`repay_spec`] states for
    /// market 0; excess value is refunded. After a successful repayment the host runs the
    /// best-effort sweep ([`TusdtLendingPool::begin_sweep`]).
    pub fn repay_tao(&mut self, env: &PoolEnv, amount: Balance) -> (r: PoolResult)
        ensures
            settled(old(self)@, final(self)@, r, repay_spec(old(self)@, *env, 0, amount)),
    {
        let saved = self.snapshot();
        let r = self.repay_steps(env, 0, amount);
        if r.is_err() {
            *self = saved;
        }
        r
    }

    /// Repays up to `amount` of TUSDT debt (pulled from the caller), as [`repay_spec`] states
    /// for market 1.
    pub fn repay_tusdt(&mut self, env: &PoolEnv, amount: Balance) -> (r: PoolResult)
        ensures
            settled(old(self)@, final(self)@, r, repay_spec(old(self)@, *env, 1, amount)),
    {
        let saved = self.snapshot();
        let r = self.repay_steps(env, 1, amount);
        if r.is_err() {
            *self = saved;
        }
        r
    }

    fn borrow_steps(&mut self, env: &PoolEnv, m: u8, amount: Balance) -> (r: PoolResult)
        requires
            m < 2,
        ensures
            reached(final(self)@, r, borrow_spec(old(self)@, *env, m, amount)),
    {
        if self.paused {
            return refusal(Error::ContractPaused);
        }
        if amount == 0 {
            return refusal(Error::ZeroAmount);
        }
        if self.busy {
            return refusal(Error::Reentrancy);
        }
        self.busy = true;
        let mut effects: Vec<PoolEffect> = Vec::new();
        match self.accrue_into(env, m, &mut effects) {
            Ok(()) => {},
            Err(e) => return refusal(e),
        }
        self.borrow_checks(env, m, amount, effects)
    }

    #[verifier::spinoff_prover]
    #[verifier::rlimit(30)]
    fn borrow_checks(&mut self, env: &PoolEnv, m: u8, amount: Balance, effects: Vec<PoolEffect>) -> (r: PoolResult)
        requires
            m < 2,
        ensures
            reached(final(self)@, r, borrow_checked(old(self)@, *env, m, amount, effects@)),
    {
        let mut effects = effects;
        let s = self.market_state(m);
        let cap = if m == 0 { self.global_params.borrow_cap_tao } else { self.global_params.borrow_cap_tusdt };
        if cap > 0 {
            let projected = match s.total_debt.checked_add(amount) {
                Some(p) => p,
                None => return failure(effects, Error::ArithmeticError),
            };
            if projected > cap {
                return failure(effects, Error::BorrowCapExceeded);
            }
        }
        let cash = match self.market_cash(env, m) {
            Ok(c) => c,
            Err(e) => return failure(effects, e),
        };
        if amount > cash {
            return failure(effects, Error::LiquidityInsufficient);
        }
        if m == 0 && amount > env.native_balance {
            let shortfall = amount - env.native_balance;
            let got = match self.top_up_free(env, shortfall, &mut effects) {
                Ok(g) => g,
                Err(e) => return failure(effects, e),
            };
            if got < shortfall {
                return failure(effects, Error::LiquidityInsufficient);
            }
        }
        let value: Balance = if m == 1 {
            amount
        } else {
            let price = match self.get_oracle_price(env) {
                Ok(p) => p,
                Err(e) => return failure(effects, e),
            };
            match price.checked_mul_value(amount as u128) {
                Some(x) => match crate::types::balance_from_u128(x) {
                    Some(b) => b,
                    None => return failure(effects, Error::ArithmeticError),
                },
                None => return failure(effects, Error::ArithmeticError),
            }
        };
        let available = match self.get_available_borrow_tusdt(env, env.caller) {
            Ok(a) => a,
            Err(e) => return failure(effects, e),
        };
        if value > available {
            return failure(effects, Error::BorrowHealthExceeded);
        }
        self.borrow_booking(env, m, amount, cash, effects)
    }

    fn borrow_booking(&mut self, env: &PoolEnv, m: u8, amount: Balance, cash: Balance, effects: Vec<PoolEffect>) -> (r: PoolResult)
        requires
            m < 2,
        ensures
            reached(final(self)@, r, borrow_booked(old(self)@, *env, m, amount, cash, effects@)),
    {
        let mut effects = effects;
        let ghost pre = effects@;
        let s = self.market_state(m);
        let params = if m == 0 { self.params_tao } else { self.params_tusdt };
        let (s1, premium) = match charge_prepaid_hour(s, &params, cash, amount) {
            Ok(x) => x,
            Err(e) => return failure(effects, e),
        };
        let debt_booked = match amount.checked_add(premium) {
            Some(d) => d,
            None => return failure(effects, Error::ArithmeticError),
        };
        proof {
            assert((debt_booked as int) * RATIO_ONE <= u128::MAX) by (nonlinear_arith)
                requires 0 <= debt_booked <= u64::MAX;
        }
        let scaled = match s1.borrow_index.checked_div_value_ceil(debt_booked as u128) {
            Some(x) => match crate::types::balance_from_u128(x) {
                Some(b) => b,
                None => return failure(effects, Error::ArithmeticError),
            },
            None => return failure(effects, Error::ArithmeticError),
        };
        let total_scaled = match s1.total_scaled_debt.checked_add(scaled) {
            Some(t) => t,
            None => return failure(effects, Error::ArithmeticError),
        };
        let face = match scaled_debt_to_face(total_scaled, s1.borrow_index) {
            Some(f) => f,
            None => return failure(effects, Error::ArithmeticError),
        };
        let caller = env.caller;
        let mut pos = self.position_or_zero(m, caller);
        pos.scaled_debt = match pos.scaled_debt.checked_add(scaled) {
            Some(x) => x,
            None => return failure(effects, Error::ArithmeticError),
        };
        let principal = self.principal_or_zero(m, caller);
        let new_principal = match principal.checked_add(amount) {
            Some(x) => x,
            None => return failure(effects, Error::ArithmeticError),
        };
        let s2 = MarketState { total_scaled_debt: total_scaled, total_debt: face, ..s1 };
        self.store_market(m, s2);
        self.debt_principal.insert(position_key(m, caller), new_principal);
        self.set_position(m, caller, pos);
        if m == 0 {
            effects.push(PoolEffect::TransferNative { to: caller, amount });
        } else {
            effects.push(PoolEffect::TusdtTransfer { to: caller, amount });
        }
        effects.push(PoolEffect::Emit(PoolEvent::Borrowed(Borrowed { market: m, user: caller, amount })));
        self.busy = false;
        proof {
            let o = borrow_booked(old(self)@, *env, m, amount, cash, pre);
            assert(o is Ok);
            assert(final(self)@ == o->Ok_0.0);
            assert(effects@ =~= o->Ok_0.1);
        }
        Ok(effects)
    }

    fn repay_steps(&mut self, env: &PoolEnv, m: u8, amount: Balance) -> (r: PoolResult)
        requires
            m < 2,
        ensures
            reached(final(self)@, r, repay_spec(old(self)@, *env, m, amount)),
    {
        if self.paused {
            return refusal(Error::ContractPaused);
        }
        if self.busy {
            return refusal(Error::Reentrancy);
        }
        self.busy = true;
        let mut effects: Vec<PoolEffect> = Vec::new();
        match self.accrue_into(env, m, &mut effects) {
            Ok(()) => {},
            Err(e) => return refusal(e),
        }
        self.repay_booking(env, m, amount, effects)
    }

    fn repay_booking(&mut self, env: &PoolEnv, m: u8, amount: Balance, effects: Vec<PoolEffect>) -> (r: PoolResult)
        requires
            m < 2,
        ensures
            reached(final(self)@, r, repay_booked(old(self)@, *env, m, amount, effects@)),
    {
        let mut effects = effects;
        let ghost pre = effects@;
        let caller = env.caller;
        let s = self.market_state(m);
        let pos = self.position_or_zero(m, caller);
        let debt: Balance = if pos.scaled_debt == 0 {
            0
        } else {
            match scaled_debt_to_face(pos.scaled_debt, s.borrow_index) {
                Some(d) => d,
                None => 0,
            }
        };
        let repay = if amount <= debt { amount } else { debt };
        if repay == 0 {
            self.busy = false;
            return Ok(effects);
        }
        proof {
            assert((repay as int) * RATIO_ONE <= u128::MAX) by (nonlinear_arith)
                requires 0 <= repay <= u64::MAX;
        }
        let scaled_repaid: Balance = if repay >= debt {
            pos.scaled_debt
        } else {
            let c = match s.borrow_index.checked_div_value_ceil(repay as u128) {
                Some(x) => match crate::types::balance_from_u128(x) {
                    Some(b) => b,
                    None => return failure(effects, Error::ArithmeticError),
                },
                None => return failure(effects, Error::ArithmeticError),
            };
            // A partial repayment never clears the position through rounding: at least one
            // scaled unit stays.
            if c < pos.scaled_debt { c } else { pos.scaled_debt - 1 }
        };
        if scaled_repaid == 0 {
            return failure(effects, Error::ZeroAmount);
        }
        if m == 0 {
            if env.transferred_value < repay {
                return failure(effects, Error::TransferFailed);
            }
            if env.transferred_value > repay {
                effects.push(PoolEffect::TransferNative { to: caller, amount: env.transferred_value - repay });
            }
        } else {
            effects.push(PoolEffect::TusdtTransferFrom { from: caller, amount: repay });
        }
        if s.total_scaled_debt < scaled_repaid {
            return failure(effects, Error::ArithmeticError);
        }
        let total_scaled = s.total_scaled_debt - scaled_repaid;
        let face = match scaled_debt_to_face(total_scaled, s.borrow_index) {
            Some(f) => f,
            None => return failure(effects, Error::ArithmeticError),
        };
        let principal = self.principal_or_zero(m, caller);
        let s2 = MarketState { total_scaled_debt: total_scaled, total_debt: face, ..s };
        let mut pos2 = pos;
        pos2.scaled_debt = pos.scaled_debt - scaled_repaid;
        self.store_market(m, s2);
        self.debt_principal.insert(position_key(m, caller), principal.saturating_sub(repay));
        self.set_position(m, caller, pos2);
        effects.push(PoolEffect::Emit(PoolEvent::Repaid(Repaid { market: m, user: caller, amount: repay })));
        self.busy = false;
        proof {
            let o = repay_booked(old(self)@, *env, m, amount, pre);
            assert(o is Ok);
            assert(final(self)@ == o->Ok_0.0);
            assert(effects@ =~= o->Ok_0.1);
        }
        Ok(effects)
    }
}

} // verus!

//! Interest-rate math: the borrow-rate curve, hourly compounding accrual, the prepaid first
//! hour of a new borrow, and a market's cash.

use vstd::prelude::*;
use crate::ratio::{Ratio, RATIO_ONE, mul_floor, pow_inner, scale_floor};
use crate::types::{Balance, HOURS_PER_YEAR, MILLISECONDS_PER_HOUR};
use super::{Error, MarketAccrued, MarketState, PoolEnv};
use super::params::InterestRateParams;
use super::pool::TusdtLendingPool;

verus! {

/// `a + b` as ratios, or `None` on overflow.
pub fn ratio_add(a: Ratio, b: Ratio) -> (r: Option<Ratio>)
    ensures
        r is Some <==> a.inner + b.inner <= u128::MAX,
        r matches Some(x) ==> x.inner == a.inner + b.inner,
{
    a.checked_add(b)
}

/// `a - b` as ratios, or `None` when `b > a`.
pub fn ratio_sub(a: Ratio, b: Ratio) -> (r: Option<Ratio>)
    ensures
        r is Some <==> b.inner <= a.inner,
        r matches Some(x) ==> x.inner == a.inner - b.inner,
{
    a.checked_sub(b)
}

/// Fixed-point division `num / denom` = `floor(num * 10^18 / denom)`, or `None` on a zero
/// denominator or an overflow.
pub fn div_ratio(num: Ratio, denom: Ratio) -> (r: Option<Ratio>)
    ensures
        r is Some <==> (denom.inner != 0 && num.inner * RATIO_ONE <= u128::MAX),
        r matches Some(x) ==> x.inner == (num.inner * RATIO_ONE) / (denom.inner as int),
{
    match num.inner.checked_mul(RATIO_ONE) {
        Some(p) => if denom.inner == 0 {
            None
        } else {
            Some(Ratio::from_inner(p / denom.inner))
        },
        None => None,
    }
}

/// The annual borrow rate (inner value) at `util`:
/// `base + slope1 * util / optimal` up to the optimal utilization, and
/// `base + slope1 + slope2 * (util - optimal) / (1 - optimal)` above it; `None` on an overflow
/// or a zero divisor.
pub open spec fn borrow_rate_spec(p: InterestRateParams, util: int) -> Option<int> {
    let base = p.base_rate.inner as int;
    let opt = p.optimal_utilization.inner as int;
    if util == 0 {
        Some(base)
    } else if util <= opt {
        if util * RATIO_ONE > u128::MAX || opt == 0 {
            None
        } else {
            let fraction = (util * RATIO_ONE) / opt;
            if p.slope1.inner * fraction > u128::MAX {
                None
            } else {
                let term = mul_floor(p.slope1.inner as int, fraction);
                if base + term > u128::MAX { None } else { Some(base + term) }
            }
        }
    } else {
        if opt > RATIO_ONE {
            None
        } else {
            let range = RATIO_ONE - opt;
            let excess = util - opt;
            if excess * RATIO_ONE > u128::MAX || range == 0 {
                None
            } else {
                let fraction = (excess * RATIO_ONE) / range;
                if p.slope2.inner * fraction > u128::MAX {
                    None
                } else {
                    let term = mul_floor(p.slope2.inner as int, fraction);
                    if base + p.slope1.inner > u128::MAX || base + p.slope1.inner + term > u128::MAX {
                        None
                    } else {
                        Some(base + p.slope1.inner + term)
                    }
                }
            }
        }
    }
}

/// Computes the annual borrow rate at `utilization` from the market's curve. Fails with
/// `ArithmeticError` exactly when [`borrow_rate_spec`] has no value.
pub fn compute_borrow_rate(params: &InterestRateParams, utilization: Ratio) -> (r: Result<Ratio, Error>)
    ensures
        r is Ok <==> borrow_rate_spec(*params, utilization.inner as int) is Some,
        r matches Ok(x) ==> borrow_rate_spec(*params, utilization.inner as int) == Some(x.inner as int),
        r matches Err(e) ==> e == Error::ArithmeticError,
{
    if utilization.is_zero() {
        return Ok(params.base_rate);
    }
    if utilization.inner <= params.optimal_utilization.inner {
        let fraction = match div_ratio(utilization, params.optimal_utilization) {
            Some(f) => f,
            None => return Err(Error::ArithmeticError),
        };
        let term = match params.slope1.checked_mul(fraction) {
            Some(t) => t,
            None => return Err(Error::ArithmeticError),
        };
        match ratio_add(params.base_rate, term) {
            Some(x) => Ok(x),
            None => Err(Error::ArithmeticError),
        }
    } else {
        let range = match ratio_sub(Ratio::one(), params.optimal_utilization) {
            Some(x) => x,
            None => return Err(Error::ArithmeticError),
        };
        let excess = match ratio_sub(utilization, params.optimal_utilization) {
            Some(x) => x,
            None => return Err(Error::ArithmeticError),
        };
        let fraction = match div_ratio(excess, range) {
            Some(f) => f,
            None => return Err(Error::ArithmeticError),
        };
        let term = match params.slope2.checked_mul(fraction) {
            Some(t) => t,
            None => return Err(Error::ArithmeticError),
        };
        let a = match ratio_add(params.base_rate, params.slope1) {
            Some(x) => x,
            None => return Err(Error::ArithmeticError),
        };
        match ratio_add(a, term) {
            Some(x) => Ok(x),
            None => Err(Error::ArithmeticError),
        }
    }
}

/// Utilization `debt / (debt + cash)` as an inner ratio value (0 when both are zero), or `None`
/// when `debt + cash` overflows a `Balance`.
pub open spec fn utilization_spec(debt: int, cash: int) -> Option<int> {
    if debt + cash > u64::MAX {
        None
    } else if debt + cash == 0 {
        Some(0)
    } else {
        Some((debt * RATIO_ONE) / (debt + cash))
    }
}

/// The utilization ratio of `numerator` debt over `total` liquidity (0 when `total` is 0).
pub fn utilization_of(numerator: Balance, total: Balance) -> (r: Ratio)
    ensures
        total == 0 ==> r.inner == 0,
        total != 0 ==> r.inner == (numerator * RATIO_ONE) / (total as int),
{
    if total == 0 {
        return Ratio::from_inner(0);
    }
    proof {
        assert((numerator as int) * RATIO_ONE <= u128::MAX) by (nonlinear_arith)
            requires 0 <= numerator <= u64::MAX;
    }
    let x = Ratio::from_inner((numerator as u128) * RATIO_ONE);
    Ratio::from_inner(x.inner / (total as u128))
}

/// The rates of one accrual window, or `None` on an overflow: (utilization, annual borrow
/// rate, annual supply rate, borrow growth, supply growth), as inner values.
pub open spec fn accrual_rates(p: InterestRateParams, util: int, dt_hours: nat) -> Option<(int, int, int, int, int)> {
    match borrow_rate_spec(p, util) {
        None => None,
        Some(br) => {
            let br_hourly = br / (HOURS_PER_YEAR as int);
            if p.reserve_factor.inner > RATIO_ONE {
                None
            } else {
                let one_minus_rf = RATIO_ONE - p.reserve_factor.inner;
                if br * util > u128::MAX {
                    None
                } else {
                    let x = mul_floor(br, util);
                    if x * one_minus_rf > u128::MAX {
                        None
                    } else {
                        let sr = mul_floor(x, one_minus_rf);
                        let sr_hourly = sr / (HOURS_PER_YEAR as int);
                        if RATIO_ONE + br_hourly > u128::MAX {
                            None
                        } else {
                            match pow_inner(RATIO_ONE + br_hourly, dt_hours) {
                                None => None,
                                Some(bg) => if RATIO_ONE + sr_hourly > u128::MAX {
                                    None
                                } else {
                                    match pow_inner(RATIO_ONE + sr_hourly, dt_hours) {
                                        None => None,
                                        Some(sg) => Some((util, br, sr, bg, sg)),
                                    }
                                },
                            }
                        }
                    }
                }
            }
        },
    }
}

/// The state of a market after accruing interest up to `now` with `cash` in the pool, and the
/// accrual event, or the error. Only whole hours are charged and `last_update` advances by whole
/// hours; a market without debt just moves `last_update` to `now`.
pub open spec fn accrue_spec(market_id: u8, s: MarketState, p: InterestRateParams, cash: Balance, now: u64) -> Result<(MarketState, Option<MarketAccrued>), Error> {
    if now < s.last_update {
        Err(Error::ArithmeticError)
    } else {
        let dt_ms = now - s.last_update;
        let dt_hours = dt_ms / (MILLISECONDS_PER_HOUR as int);
        if s.total_scaled_debt == 0 {
            if dt_ms > 0 {
                Ok((MarketState { last_update: now, ..s }, None))
            } else {
                Ok((s, None))
            }
        } else if dt_hours == 0 {
            Ok((s, None))
        } else {
            match utilization_spec(s.total_debt as int, cash as int) {
                None => Err(Error::ArithmeticError),
                Some(util) => match accrual_rates(p, util, dt_hours as nat) {
                    None => Err(Error::ArithmeticError),
                    Some((u, br, sr, bg, sg)) => {
                        if s.borrow_index.inner * bg > u128::MAX {
                            Err(Error::ArithmeticError)
                        } else {
                            let new_index = mul_floor(s.borrow_index.inner as int, bg);
                            let face = scale_floor(s.total_scaled_debt as int, new_index);
                            if s.total_scaled_debt * new_index > u128::MAX || face > u64::MAX || face < s.total_debt {
                                Err(Error::ArithmeticError)
                            } else if s.exchange_rate.inner * sg > u128::MAX {
                                Err(Error::ArithmeticError)
                            } else {
                                let debt_interest = face - s.total_debt;
                                let new_rate = mul_floor(s.exchange_rate.inner as int, sg);
                                let growth = new_rate - s.exchange_rate.inner;
                                let supply_interest = if growth >= 0 && s.total_supplied * growth <= u128::MAX
                                    && scale_floor(s.total_supplied as int, growth) <= u64::MAX {
                                    scale_floor(s.total_supplied as int, growth)
                                } else {
                                    0
                                };
                                let reserve_delta = if debt_interest > supply_interest { debt_interest - supply_interest } else { 0 };
                                if s.reserve_accrued + reserve_delta > u64::MAX
                                    || s.last_update + dt_hours * MILLISECONDS_PER_HOUR > u64::MAX {
                                    Err(Error::ArithmeticError)
                                } else {
                                    Ok((
                                        MarketState {
                                            total_debt: face as u64,
                                            borrow_index: Ratio { inner: new_index as u128 },
                                            exchange_rate: Ratio { inner: new_rate as u128 },
                                            reserve_accrued: (s.reserve_accrued + reserve_delta) as u64,
                                            last_update: (s.last_update + dt_hours * MILLISECONDS_PER_HOUR) as u64,
                                            ..s
                                        },
                                        Some(MarketAccrued {
                                            market: market_id,
                                            dt_hours: dt_hours as u64,
                                            utilization: u as u128,
                                            borrow_rate: br as u128,
                                            supply_rate: sr as u128,
                                            reserve_delta: reserve_delta as u64,
                                        }),
                                    ))
                                }
                            }
                        }
                    },
                },
            }
        }
    }
}

/// Accrues interest on one market's state, as [`accrue_spec`] states.
pub fn accrue_market(market_id: u8, state: MarketState, params: &InterestRateParams, cash: Balance, now: u64) -> (r: Result<(MarketState, Option<MarketAccrued>), Error>)
    ensures
        r == accrue_spec(market_id, state, *params, cash, now),
{
    if now < state.last_update {
        return Err(Error::ArithmeticError);
    }
    let dt_ms = now - state.last_update;
    let dt_hours = dt_ms / MILLISECONDS_PER_HOUR;
    if state.total_scaled_debt == 0 {
        if dt_ms > 0 {
            return Ok((MarketState { last_update: now, ..state }, None));
        }
        return Ok((state, None));
    }
    if dt_hours == 0 {
        return Ok((state, None));
    }
    let total_liquidity = match state.total_debt.checked_add(cash) {
        Some(v) => v,
        None => return Err(Error::ArithmeticError),
    };
    let utilization = utilization_of(state.total_debt, total_liquidity);
    let borrow_rate_annual = match compute_borrow_rate(params, utilization) {
        Ok(r) => r,
        Err(e) => return Err(e),
    };
    let borrow_rate_hourly = Ratio::from_inner(borrow_rate_annual.inner / HOURS_PER_YEAR);
    let one_minus_rf = match ratio_sub(Ratio::one(), params.reserve_factor) {
        Some(x) => x,
        None => return Err(Error::ArithmeticError),
    };
    let x = match borrow_rate_annual.checked_mul(utilization) {
        Some(x) => x,
        None => return Err(Error::ArithmeticError),
    };
    let supply_rate_annual = match x.checked_mul(one_minus_rf) {
        Some(x) => x,
        None => return Err(Error::ArithmeticError),
    };
    let supply_rate_hourly = Ratio::from_inner(supply_rate_annual.inner / HOURS_PER_YEAR);
    let bbase = match ratio_add(Ratio::one(), borrow_rate_hourly) {
        Some(x) => x,
        None => return Err(Error::ArithmeticError),
    };
    let borrow_growth = match bbase.checked_pow(dt_hours) {
        Some(x) => x,
        None => return Err(Error::ArithmeticError),
    };
    let sbase = match ratio_add(Ratio::one(), supply_rate_hourly) {
        Some(x) => x,
        None => return Err(Error::ArithmeticError),
    };
    let supply_growth = match sbase.checked_pow(dt_hours) {
        Some(x) => x,
        None => return Err(Error::ArithmeticError),
    };
    let new_borrow_index = match state.borrow_index.checked_mul(borrow_growth) {
        Some(x) => x,
        None => return Err(Error::ArithmeticError),
    };
    let debt_before = state.total_debt;
    let new_debt = match super::scaled_debt_to_face(state.total_scaled_debt, new_borrow_index) {
        Some(v) => v,
        None => return Err(Error::ArithmeticError),
    };
    if new_debt < debt_before {
        return Err(Error::ArithmeticError);
    }
    let debt_interest = new_debt - debt_before;
    let new_exchange_rate = match state.exchange_rate.checked_mul(supply_growth) {
        Some(x) => x,
        None => return Err(Error::ArithmeticError),
    };
    let supply_interest: Balance = match ratio_sub(new_exchange_rate, state.exchange_rate) {
        Some(g) => match g.checked_mul_value(state.total_supplied as u128) {
            Some(v) => match crate::types::balance_from_u128(v) {
                Some(b) => b,
                None => 0,
            },
            None => 0,
        },
        None => 0,
    };
    let reserve_delta = debt_interest.saturating_sub(supply_interest);
    let reserve_accrued = match state.reserve_accrued.checked_add(reserve_delta) {
        Some(v) => v,
        None => return Err(Error::ArithmeticError),
    };
    proof {
        assert((dt_hours as int) * (MILLISECONDS_PER_HOUR as int) <= (dt_ms as int)) by (nonlinear_arith)
            requires (dt_hours as int) == (dt_ms as int) / (MILLISECONDS_PER_HOUR as int), dt_ms >= 0;
    }
    let advance = dt_hours * MILLISECONDS_PER_HOUR;
    let last_update = match state.last_update.checked_add(advance) {
        Some(v) => v,
        None => return Err(Error::ArithmeticError),
    };
    let new_state = MarketState {
        total_debt: new_debt,
        borrow_index: new_borrow_index,
        exchange_rate: new_exchange_rate,
        reserve_accrued,
        last_update,
        ..state
    };
    Ok((
        new_state,
        Some(MarketAccrued {
            market: market_id,
            dt_hours,
            utilization: utilization.inner,
            borrow_rate: borrow_rate_annual.inner,
            supply_rate: supply_rate_annual.inner,
            reserve_delta,
        }),
    ))
}

impl TusdtLendingPool {
    /// The pool's cash for a market: the free native balance plus root stake for market 0, the
    /// TUSDT balance for market 1. Fails with `MarketNotFound` for other ids and
    /// `ArithmeticError` on overflow.
    pub fn market_cash(&self, env: &PoolEnv, market_id: u8) -> (r: Result<Balance, Error>)
        ensures
            r == market_cash_spec(self@, *env, market_id),
    {
        match market_id {
            0 => match env.native_balance.checked_add(self.staked_tao) {
                Some(v) => Ok(v),
                None => Err(Error::ArithmeticError),
            },
            1 => Ok(env.tusdt_balance),
            _ => Err(Error::MarketNotFound),
        }
    }

    /// Accrues interest on a supply/borrow market (0 = TAO, 1 = TUSDT), as [`accrue_spec`]
    /// states, and returns the accrual event; a no-op for alpha markets (id 2 and up).
    pub fn accrue_interest(&mut self, env: &PoolEnv, market_id: u8) -> (r: Result<Option<MarketAccrued>, Error>)
        ensures
            match accrue_outcome(old(self)@, *env, market_id) {
                Ok((v, ev)) => r == Ok::<Option<MarketAccrued>, Error>(ev) && final(self)@ == v,
                Err(e) => r == Err::<Option<MarketAccrued>, Error>(e) && final(self)@ == old(self)@,
            },
    {
        if market_id >= 2 {
            return Ok(None);
        }
        let (state, params) = if market_id == 0 {
            (self.market_tao, self.params_tao)
        } else {
            (self.market_tusdt, self.params_tusdt)
        };
        let needs_cash = env.now >= state.last_update && state.total_scaled_debt != 0
            && env.now - state.last_update >= MILLISECONDS_PER_HOUR;
        let cash = if needs_cash {
            match self.market_cash(env, market_id) {
                Ok(c) => c,
                Err(e) => return Err(e),
            }
        } else {
            0
        };
        match accrue_market(market_id, state, &params, cash, env.now) {
            Ok((s, ev)) => {
                if market_id == 0 {
                    self.market_tao = s;
                } else {
                    self.market_tusdt = s;
                }
                Ok(ev)
            },
            Err(e) => Err(e),
        }
    }
}

/// The cash of a market as [`TusdtLendingPool::market_cash`] computes it.
pub open spec fn market_cash_spec(v: super::pool::PoolView, env: PoolEnv, market_id: u8) -> Result<Balance, Error> {
    if market_id == 0 {
        if env.native_balance + v.staked_tao > u64::MAX {
            Err(Error::ArithmeticError)
        } else {
            Ok((env.native_balance + v.staked_tao) as u64)
        }
    } else if market_id == 1 {
        Ok(env.tusdt_balance)
    } else {
        Err(Error::MarketNotFound)
    }
}

/// Whether accruing a market reads the pool's cash: only a market with debt and at least one
/// whole elapsed hour gets past the early exits of [`accrue_spec`], whose outcome otherwise does
/// not depend on the cash.
pub open spec fn accrue_needs_cash(s: MarketState, now: u64) -> bool {
    now >= s.last_update && s.total_scaled_debt != 0 && now - s.last_update >= MILLISECONDS_PER_HOUR
}

/// The pool after accruing market `market_id`, with the accrual event. The cash is read only
/// when [`accrue_needs_cash`] holds.
pub open spec fn accrue_outcome(v: super::pool::PoolView, env: PoolEnv, market_id: u8) -> Result<(super::pool::PoolView, Option<MarketAccrued>), Error> {
    if market_id >= 2 {
        Ok((v, None))
    } else {
        let cash_read = if accrue_needs_cash(v.market(market_id).unwrap(), env.now) {
            market_cash_spec(v, env, market_id)
        } else {
            Ok(0u64)
        };
        match cash_read {
            Err(e) => Err(e),
            Ok(cash) => match accrue_spec(market_id, v.market(market_id).unwrap(), v.rate_params(market_id).unwrap(), cash, env.now) {
                Err(e) => Err(e),
                Ok((s, ev)) => Ok((v.with_market(market_id, s), ev)),
            },
        }
    }
}

/// The premium of a new borrow: one hour of interest on `amount` at the rate the market will
/// have after the borrow, and the market state with the premium split between suppliers (by
/// growing the exchange rate) and the reserve.
pub open spec fn prepaid_hour_spec(s: MarketState, p: InterestRateParams, cash: Balance, amount: Balance) -> Result<(MarketState, Balance), Error> {
    if s.total_debt + cash > u64::MAX || s.total_debt + amount > u64::MAX {
        Err(Error::ArithmeticError)
    } else {
        let total = s.total_debt + cash;
        let util = if total == 0 { 0 } else { ((s.total_debt + amount) * RATIO_ONE) / total };
        match borrow_rate_spec(p, util) {
            None => Err(Error::ArithmeticError),
            Some(br) => {
                let hourly = br / (HOURS_PER_YEAR as int);
                if amount * hourly > u128::MAX || scale_floor(amount as int, hourly) > u64::MAX {
                    Err(Error::ArithmeticError)
                } else {
                    let premium = scale_floor(amount as int, hourly);
                    if premium == 0 {
                        Ok((s, 0))
                    } else {
                        let supply_share_opt: Option<int> = if s.total_supplied == 0 {
                            Some(0)
                        } else if p.reserve_factor.inner > RATIO_ONE {
                            None
                        } else {
                            let keep = RATIO_ONE - p.reserve_factor.inner;
                            if premium * keep > u128::MAX || scale_floor(premium, keep) > u64::MAX {
                                None
                            } else {
                                Some(scale_floor(premium, keep))
                            }
                        };
                        match supply_share_opt {
                            None => Err(Error::ArithmeticError),
                            Some(supply_share) => {
                                if supply_share > premium {
                                    Err(Error::ArithmeticError)
                                } else {
                                    let reserve_share = premium - supply_share;
                                    let rate = if supply_share > 0 {
                                        s.exchange_rate.inner + (supply_share * RATIO_ONE) / (s.total_supplied as int)
                                    } else {
                                        s.exchange_rate.inner as int
                                    };
                                    if rate > u128::MAX || s.reserve_accrued + reserve_share > u64::MAX {
                                        Err(Error::ArithmeticError)
                                    } else {
                                        Ok((
                                            MarketState {
                                                exchange_rate: Ratio { inner: rate as u128 },
                                                reserve_accrued: (s.reserve_accrued + reserve_share) as u64,
                                                ..s
                                            },
                                            premium as u64,
                                        ))
                                    }
                                }
                            },
                        }
                    }
                }
            },
        }
    }
}

/// Charges a new borrow of `amount` one hour of interest up front, as [`prepaid_hour_spec`]
/// states: returns the premium and the market state with the premium booked.
pub fn charge_prepaid_hour(state: MarketState, params: &InterestRateParams, cash: Balance, amount: Balance) -> (r: Result<(MarketState, Balance), Error>)
    ensures
        r == prepaid_hour_spec(state, *params, cash, amount),
{
    let total_liquidity = match state.total_debt.checked_add(cash) {
        Some(v) => v,
        None => return Err(Error::ArithmeticError),
    };
    let projected_debt = match state.total_debt.checked_add(amount) {
        Some(v) => v,
        None => return Err(Error::ArithmeticError),
    };
    let utilization = utilization_of(projected_debt, total_liquidity);
    let borrow_rate_annual = match compute_borrow_rate(params, utilization) {
        Ok(r) => r,
        Err(e) => return Err(e),
    };
    let borrow_rate_hourly = Ratio::from_inner(borrow_rate_annual.inner / HOURS_PER_YEAR);
    let premium = match borrow_rate_hourly.checked_mul_value(amount as u128) {
        Some(v) => match crate::types::balance_from_u128(v) {
            Some(b) => b,
            None => return Err(Error::ArithmeticError),
        },
        None => return Err(Error::ArithmeticError),
    };
    if premium == 0 {
        return Ok((state, 0));
    }
    let supply_share: Balance = if state.total_supplied == 0 {
        0
    } else {
        match ratio_sub(Ratio::one(), params.reserve_factor) {
            Some(keep) => match keep.checked_mul_value(premium as u128) {
                Some(v) => match crate::types::balance_from_u128(v) {
                    Some(b) => b,
                    None => return Err(Error::ArithmeticError),
                },
                None => return Err(Error::ArithmeticError),
            },
            None => return Err(Error::ArithmeticError),
        }
    };
    if supply_share > premium {
        return Err(Error::ArithmeticError);
    }
    let reserve_share = premium - supply_share;
    let mut new_state = state;
    if supply_share > 0 {
        proof {
            assert((supply_share as int) * RATIO_ONE <= u128::MAX) by (nonlinear_arith)
                requires 0 <= supply_share <= u64::MAX;
        }
        let delta = Ratio::from_inner((supply_share as u128) * RATIO_ONE / (state.total_supplied as u128));
        new_state.exchange_rate = match ratio_add(state.exchange_rate, delta) {
            Some(x) => x,
            None => return Err(Error::ArithmeticError),
        };
    }
    new_state.reserve_accrued = match state.reserve_accrued.checked_add(reserve_share) {
        Some(v) => v,
        None => return Err(Error::ArithmeticError),
    };
    Ok((new_state, premium))
}

/// `a * b / 10^18` is non-negative for non-negative factors.
proof fn lemma_mul_floor_nonneg(a: int, b: int)
    requires
        a >= 0,
        b >= 0,
    ensures
        mul_floor(a, b) >= 0,
{
    assert((a * b) / (RATIO_ONE as int) >= 0) by (nonlinear_arith)
        requires
            a >= 0,
            b >= 0,
    ;
}

/// A borrow rate read off the curve at a non-negative utilization is non-negative.
proof fn lemma_borrow_rate_nonneg(p: InterestRateParams, util: int)
    requires
        util >= 0,
        borrow_rate_spec(p, util) is Some,
    ensures
        borrow_rate_spec(p, util)->Some_0 >= 0,
{
    let opt = p.optimal_utilization.inner as int;
    if util != 0 && util <= opt {
        let fraction = (util * RATIO_ONE) / opt;
        assert(fraction >= 0) by (nonlinear_arith)
            requires
                util >= 0,
                opt > 0,
                fraction == (util * RATIO_ONE) / opt,
        ;
        lemma_mul_floor_nonneg(p.slope1.inner as int, fraction);
    } else if util > opt {
        let range = RATIO_ONE - opt;
        let excess = util - opt;
        let fraction = (excess * RATIO_ONE) / range;
        if range > 0 {
            assert(fraction >= 0) by (nonlinear_arith)
                requires
                    excess >= 0,
                    range > 0,
                    fraction == (excess * RATIO_ONE) / range,
            ;
            lemma_mul_floor_nonneg(p.slope2.inner as int, fraction);
        }
    }
}

/// Compounding a factor of at least 1.0 gives at least 1.0.
proof fn lemma_pow_at_least_one(base: int, n: nat)
    requires
        base >= RATIO_ONE,
        pow_inner(base, n) is Some,
    ensures
        pow_inner(base, n)->Some_0 >= RATIO_ONE,
    decreases n,
{
    if n > 0 {
        lemma_pow_at_least_one(base, (n - 1) as nat);
        let q = pow_inner(base, (n - 1) as nat)->Some_0;
        lemma_mul_floor_grows(q, base);
    }
}

/// Multiplying by a factor of at least 1.0 never shrinks a non-negative value.
proof fn lemma_mul_floor_grows(a: int, f: int)
    requires
        a >= 0,
        f >= RATIO_ONE,
    ensures
        mul_floor(a, f) >= a,
{
    let one = RATIO_ONE as int;
    assert((a * f) / one >= a) by (nonlinear_arith)
        requires
            a >= 0,
            f >= one,
            one > 0,
    ;
}

/// Interest accrual never changes the scaled debt total, never lowers the borrow index or the
/// exchange rate, and when interest accrues the face debt total is re-derived from the scaled
/// total at the new index.
pub proof fn law_accrual_keeps_scaled_total(market_id: u8, s: MarketState, p: InterestRateParams, cash: Balance, now: u64)
    requires
        accrue_spec(market_id, s, p, cash, now) is Ok,
    ensures
        ({
            let (s2, ev) = accrue_spec(market_id, s, p, cash, now)->Ok_0;
            &&& s2.total_scaled_debt == s.total_scaled_debt
            &&& s2.borrow_index.inner >= s.borrow_index.inner
            &&& s2.exchange_rate.inner >= s.exchange_rate.inner
            &&& ev is Some ==> s2.total_debt == scale_floor(s.total_scaled_debt as int, s2.borrow_index.inner as int)
        }),
{
    let dt_ms = now - s.last_update;
    let dt_hours = dt_ms / (MILLISECONDS_PER_HOUR as int);
    if s.total_scaled_debt != 0 && dt_hours != 0 {
        let util = utilization_spec(s.total_debt as int, cash as int)->Some_0;
        assert(util >= 0) by (nonlinear_arith)
            requires
                utilization_spec(s.total_debt as int, cash as int) is Some,
                util == utilization_spec(s.total_debt as int, cash as int)->Some_0,
                s.total_debt >= 0,
                cash >= 0,
        {
        }
        let br = borrow_rate_spec(p, util)->Some_0;
        lemma_borrow_rate_nonneg(p, util);
        let r = accrual_rates(p, util, dt_hours as nat)->Some_0;
        let x = mul_floor(br, util);
        lemma_mul_floor_nonneg(br, util);
        let sr = mul_floor(x, RATIO_ONE - p.reserve_factor.inner);
        lemma_mul_floor_nonneg(x, RATIO_ONE - p.reserve_factor.inner);
        assert(br / (HOURS_PER_YEAR as int) >= 0);
        assert(sr / (HOURS_PER_YEAR as int) >= 0);
        lemma_pow_at_least_one(RATIO_ONE + br / (HOURS_PER_YEAR as int), dt_hours as nat);
        lemma_pow_at_least_one(RATIO_ONE + sr / (HOURS_PER_YEAR as int), dt_hours as nat);
        lemma_mul_floor_grows(s.borrow_index.inner as int, r.3);
        lemma_mul_floor_grows(s.exchange_rate.inner as int, r.4);
    }
}

/// An accrual books to the reserve exactly the face-debt interest not owed to suppliers: with
/// `debt_interest` the growth of the face debt total and `supplier_interest` the growth of the
/// exchange rate applied to the supplied lTokens (`floor(total_supplied * growth / 10^18)`,
/// counted as 0 when it does not fit a balance), the reserve grows by
/// `max(0, debt_interest - supplier_interest)`, which the event reports; an accrual without an
/// event leaves the reserve alone.
pub proof fn law_accrual_books_reserve_share(market_id: u8, s: MarketState, p: InterestRateParams, cash: Balance, now: u64)
    requires
        accrue_spec(market_id, s, p, cash, now) is Ok,
    ensures
        ({
            let (s2, ev) = accrue_spec(market_id, s, p, cash, now)->Ok_0;
            let debt_interest = s2.total_debt - s.total_debt;
            let growth = s2.exchange_rate.inner - s.exchange_rate.inner;
            let owed = (s.total_supplied as int) * growth / (RATIO_ONE as int);
            let supplier_interest = if s.total_supplied * growth <= u128::MAX && owed <= u64::MAX { owed } else { 0 };
            let booked = if debt_interest > supplier_interest { debt_interest - supplier_interest } else { 0 };
            &&& ev is None ==> s2.reserve_accrued == s.reserve_accrued
            &&& ev is Some ==> s2.reserve_accrued == s.reserve_accrued + booked
                && ev->Some_0.reserve_delta == booked
                && debt_interest >= 0
        }),
{
    let (s2, ev) = accrue_spec(market_id, s, p, cash, now)->Ok_0;
    law_accrual_keeps_scaled_total(market_id, s, p, cash, now);
    if ev is Some {
        let dt_hours = (now - s.last_update) / (MILLISECONDS_PER_HOUR as int);
        let util = utilization_spec(s.total_debt as int, cash as int)->Some_0;
        let r = accrual_rates(p, util, dt_hours as nat)->Some_0;
        let new_rate = mul_floor(s.exchange_rate.inner as int, r.4);
        assert(util >= 0) by (nonlinear_arith)
            requires
                utilization_spec(s.total_debt as int, cash as int) is Some,
                util == utilization_spec(s.total_debt as int, cash as int)->Some_0,
                s.total_debt >= 0,
                cash >= 0,
        {
        }
        let br = borrow_rate_spec(p, util)->Some_0;
        lemma_borrow_rate_nonneg(p, util);
        let x = mul_floor(br, util);
        lemma_mul_floor_nonneg(br, util);
        let sr = mul_floor(x, RATIO_ONE - p.reserve_factor.inner);
        lemma_mul_floor_nonneg(x, RATIO_ONE - p.reserve_factor.inner);
        assert(sr / (HOURS_PER_YEAR as int) >= 0);
        lemma_pow_at_least_one(RATIO_ONE + sr / (HOURS_PER_YEAR as int), dt_hours as nat);
        assert(r.4 >= 0);
        assert(new_rate <= (s.exchange_rate.inner as int) * r.4) by (nonlinear_arith)
            requires
                new_rate == mul_floor(s.exchange_rate.inner as int, r.4),
                s.exchange_rate.inner >= 0,
                r.4 >= 0,
        {
        }
        assert(s2.exchange_rate.inner == new_rate);
        let growth = s2.exchange_rate.inner - s.exchange_rate.inner;
        assert(growth >= 0);
        assert((s.total_supplied as int) * growth >= 0) by (nonlinear_arith)
            requires s.total_supplied >= 0, growth >= 0;
        assert(s2.reserve_accrued == s.reserve_accrued + ev->Some_0.reserve_delta);
        let debt_interest = s2.total_debt - s.total_debt;
        let owed = (s.total_supplied as int) * growth / (RATIO_ONE as int);
        let supplier_interest = if s.total_supplied * growth <= u128::MAX && owed <= u64::MAX { owed } else { 0 };
        let booked = if debt_interest > supplier_interest { debt_interest - supplier_interest } else { 0 };
        assert(ev->Some_0.reserve_delta == booked);
        assert(s2.reserve_accrued == s.reserve_accrued + booked);
    }
}

/// Accrual charges whole hours only: a market with debt moves its clock forward by exactly the
/// whole hours elapsed (keeping the sub-hour remainder for the next accrual) and reports them;
/// a market without debt just moves its clock to `now`; under one hour with debt nothing
/// changes. The clock never passes `now`.
pub proof fn law_accrual_charges_whole_hours(market_id: u8, s: MarketState, p: InterestRateParams, cash: Balance, now: u64)
    requires
        accrue_spec(market_id, s, p, cash, now) is Ok,
    ensures
        ({
            let (s2, ev) = accrue_spec(market_id, s, p, cash, now)->Ok_0;
            let hours = (now - s.last_update) / (MILLISECONDS_PER_HOUR as int);
            &&& now >= s.last_update
            &&& s2.last_update <= now
            &&& s.total_scaled_debt == 0 ==> ev is None && s2 == (MarketState { last_update: now, ..s })
            &&& s.total_scaled_debt != 0 && hours == 0 ==> ev is None && s2 == s
            &&& s.total_scaled_debt != 0 && hours > 0 ==> ev is Some
                && ev->Some_0.dt_hours == hours
                && s2.last_update == s.last_update + hours * MILLISECONDS_PER_HOUR
                && now - s2.last_update < MILLISECONDS_PER_HOUR
        }),
{
    let hours = (now - s.last_update) / (MILLISECONDS_PER_HOUR as int);
    assert(hours * (MILLISECONDS_PER_HOUR as int) <= now - s.last_update < (hours + 1) * (MILLISECONDS_PER_HOUR as int)) by (nonlinear_arith)
        requires
            hours == (now - s.last_update) / (MILLISECONDS_PER_HOUR as int),
            now - s.last_update >= 0,
    ;
}

} // verus!

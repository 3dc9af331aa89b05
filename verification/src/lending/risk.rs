//! Pricing and risk: the oracle price with freshness, alpha collateral prices, collateral and
//! debt values, the health factor, borrowing capacity and the liquidation split.

use vstd::prelude::*;
use crate::ratio::{Ratio, RATIO_ONE, RATIO_BPS, mul_floor, scale_floor};
use crate::types::{AccountId, Balance};
use super::{Error, PoolEnv, assoc_lookup, lookup_u64, health_factor_from_values};
use super::pool::{PoolView, TusdtLendingPool};

verus! {

broadcast use vstd::std_specs::hash::group_hash_axioms;

/// The TUSDT/TAO price, enforcing that it exists, is not from the future, is no older than
/// `max_oracle_age_ms`, and is non-zero.
pub open spec fn oracle_price_spec(v: PoolView, env: PoolEnv) -> Result<Ratio, Error> {
    match env.oracle_price {
        None => Err(Error::OraclePriceUnavailable),
        Some(pd) => if pd.committed_at > env.now {
            Err(Error::OraclePriceUnavailable)
        } else if env.now - pd.committed_at > v.global_params.max_oracle_age_ms {
            Err(Error::OraclePriceStale)
        } else if pd.price.inner == 0 {
            Err(Error::OraclePriceUnavailable)
        } else {
            Ok(pd.price)
        },
    }
}

/// An alpha price in RAO (10^9 per alpha) as a ratio: `rao * 10^18 / 10^9`.
pub open spec fn rao_ratio(rao: int) -> int {
    (rao * RATIO_ONE) / 1_000_000_000
}

/// The alpha collateral price of `netuid` in TUSDT per alpha: the oracle price times the
/// chain-extension alpha price.
pub open spec fn collateral_price_spec(v: PoolView, env: PoolEnv, netuid: u16) -> Result<Ratio, Error> {
    match oracle_price_spec(v, env) {
        Err(e) => Err(e),
        Ok(p) => match assoc_lookup(env.alpha_prices@, netuid) {
            None => Err(Error::ChainExtensionFailed),
            Some(rao) => {
                let a = rao_ratio(rao as int);
                if p.inner * a > u128::MAX {
                    Err(Error::ArithmeticError)
                } else {
                    Ok(Ratio { inner: mul_floor(p.inner as int, a) as u128 })
                }
            },
        },
    }
}

/// One step of the scan for the highest liquidation threshold among markets where `user` holds
/// alpha.
pub open spec fn max_threshold_step(v: PoolView, user: AccountId, acc: Result<int, Error>, m: u8) -> Result<int, Error> {
    match acc {
        Err(e) => Err(e),
        Ok(mx) => if m < 2 {
            Ok(mx)
        } else if !v.market_to_netuid.contains_key(m) {
            Err(Error::MarketNotFound)
        } else if v.position(m, user).alpha_principal == 0 {
            Ok(mx)
        } else {
            let lt = v.alpha_params_of(v.market_to_netuid[m]).liquidation_threshold.inner as int;
            if lt > mx { Ok(lt) } else { Ok(mx) }
        },
    }
}

/// The scan for the highest liquidation threshold over `keys`.
pub open spec fn max_threshold_scan(v: PoolView, user: AccountId, keys: Seq<u8>) -> Result<int, Error>
    decreases keys.len(),
{
    if keys.len() == 0 {
        Ok(0)
    } else {
        max_threshold_step(v, user, max_threshold_scan(v, user, keys.drop_last()), keys.last())
    }
}

/// The highest liquidation threshold among the markets where `user` holds alpha, or 60% when
/// there is none.
pub open spec fn max_threshold_spec(v: PoolView, user: AccountId) -> Result<Ratio, Error> {
    match max_threshold_scan(v, user, v.market_keys) {
        Err(e) => Err(e),
        Ok(mx) => if mx == 0 { Ok(Ratio { inner: (6000 * RATIO_BPS) as u128 }) } else { Ok(Ratio { inner: mx as u128 }) },
    }
}

/// One step of the scan for the lowest collateral factor among markets where `user` holds
/// alpha: (lowest factor so far, whether any was found).
pub open spec fn min_factor_step(v: PoolView, user: AccountId, acc: Result<(int, bool), Error>, m: u8) -> Result<(int, bool), Error> {
    match acc {
        Err(e) => Err(e),
        Ok((mn, found)) => if m < 2 {
            Ok((mn, found))
        } else if !v.market_to_netuid.contains_key(m) {
            Err(Error::MarketNotFound)
        } else if v.position(m, user).alpha_principal == 0 {
            Ok((mn, found))
        } else {
            let cf = v.alpha_params_of(v.market_to_netuid[m]).collateral_factor.inner as int;
            if cf < mn { Ok((cf, true)) } else { Ok((mn, true)) }
        },
    }
}

/// The scan for the lowest collateral factor over `keys`.
pub open spec fn min_factor_scan(v: PoolView, user: AccountId, keys: Seq<u8>) -> Result<(int, bool), Error>
    decreases keys.len(),
{
    if keys.len() == 0 {
        Ok((RATIO_ONE as int, false))
    } else {
        min_factor_step(v, user, min_factor_scan(v, user, keys.drop_last()), keys.last())
    }
}

/// The lowest collateral factor among the markets where `user` holds alpha (at most 1.0), or 0
/// when there is none.
pub open spec fn min_factor_spec(v: PoolView, user: AccountId) -> Result<Ratio, Error> {
    match min_factor_scan(v, user, v.market_keys) {
        Err(e) => Err(e),
        Ok((mn, found)) => if !found { Ok(Ratio { inner: 0 }) } else { Ok(Ratio { inner: mn as u128 }) },
    }
}

/// The effective alpha collateral of `user` on `netuid` (its principal).
pub open spec fn effective_alpha_spec(v: PoolView, user: AccountId, netuid: u16) -> Result<Balance, Error> {
    if !v.netuid_to_market.contains_key(netuid) {
        Err(Error::UnapprovedNetuid)
    } else {
        Ok(v.position(v.netuid_to_market[netuid], user).alpha_principal)
    }
}

/// One step of the collateral-value sum.
pub open spec fn collateral_step(v: PoolView, env: PoolEnv, user: AccountId, acc: Result<int, Error>, m: u8) -> Result<int, Error> {
    match acc {
        Err(e) => Err(e),
        Ok(total) => if m < 2 {
            Ok(total)
        } else if !v.market_to_netuid.contains_key(m) {
            Err(Error::MarketNotFound)
        } else {
            let netuid = v.market_to_netuid[m];
            match effective_alpha_spec(v, user, netuid) {
                Err(e) => Err(e),
                Ok(eff) => if eff == 0 {
                    Ok(total)
                } else {
                    match collateral_price_spec(v, env, netuid) {
                        Err(e) => Err(e),
                        Ok(p) => if eff * p.inner > u128::MAX {
                            Err(Error::ArithmeticError)
                        } else if total + scale_floor(eff as int, p.inner as int) > u128::MAX {
                            Err(Error::ArithmeticError)
                        } else {
                            Ok(total + scale_floor(eff as int, p.inner as int))
                        },
                    }
                },
            }
        },
    }
}

/// The collateral-value sum over `keys`.
pub open spec fn collateral_scan(v: PoolView, env: PoolEnv, user: AccountId, keys: Seq<u8>) -> Result<int, Error>
    decreases keys.len(),
{
    if keys.len() == 0 {
        Ok(0)
    } else {
        collateral_step(v, env, user, collateral_scan(v, env, user, keys.drop_last()), keys.last())
    }
}

/// The value of `user`'s alpha collateral in TUSDT across all alpha markets.
pub open spec fn collateral_value_spec(v: PoolView, env: PoolEnv, user: AccountId) -> Result<Balance, Error> {
    match collateral_scan(v, env, user, v.market_keys) {
        Err(e) => Err(e),
        Ok(t) => if t > u64::MAX { Err(Error::ArithmeticError) } else { Ok(t as u64) },
    }
}

/// The face debt of `user` in a supply/borrow market (`scaled * index`, unnarrowed), or `None`
/// on overflow.
pub open spec fn face_debt_wide(v: PoolView, market: u8, user: AccountId) -> Option<int> {
    let scaled = v.position(market, user).scaled_debt;
    let index = v.market(market).unwrap().borrow_index.inner;
    if scaled == 0 {
        Some(0)
    } else if scaled * index > u128::MAX {
        None
    } else {
        Some(scale_floor(scaled as int, index as int))
    }
}

/// The value of `user`'s debt in TUSDT: the TUSDT debt plus the TAO debt at the oracle price.
pub open spec fn debt_value_spec(v: PoolView, env: PoolEnv, user: AccountId) -> Result<Balance, Error> {
    match face_debt_wide(v, 1, user) {
        None => Err(Error::ArithmeticError),
        Some(tusdt_debt) => match face_debt_wide(v, 0, user) {
            None => Err(Error::ArithmeticError),
            Some(tao_debt) => {
                let tao_value: Result<int, Error> = if tao_debt > 0 {
                    match oracle_price_spec(v, env) {
                        Err(e) => Err(e),
                        Ok(p) => if tao_debt * p.inner > u128::MAX {
                            Err(Error::ArithmeticError)
                        } else {
                            Ok(scale_floor(tao_debt, p.inner as int))
                        },
                    }
                } else {
                    Ok(0)
                };
                match tao_value {
                    Err(e) => Err(e),
                    Ok(tv) => if tusdt_debt + tv > u128::MAX || tusdt_debt + tv > u64::MAX {
                        Err(Error::ArithmeticError)
                    } else {
                        Ok((tusdt_debt + tv) as u64)
                    },
                }
            },
        },
    }
}

/// The health factor `(threshold * collateral) / debt`: `None` without debt, `Some(0)` without
/// collateral.
pub open spec fn health_factor_spec(v: PoolView, env: PoolEnv, user: AccountId) -> Result<Option<Ratio>, Error> {
    match debt_value_spec(v, env, user) {
        Err(e) => Err(e),
        Ok(d) => if d == 0 {
            Ok(None)
        } else {
            match collateral_value_spec(v, env, user) {
                Err(e) => Err(e),
                Ok(c) => if c == 0 {
                    Ok(Some(Ratio { inner: 0 }))
                } else {
                    match max_threshold_spec(v, user) {
                        Err(e) => Err(e),
                        Ok(t) => {
                            let w = scale_floor(c as int, t.inner as int);
                            if c * t.inner > u128::MAX || w * RATIO_ONE > u128::MAX {
                                Err(Error::ArithmeticError)
                            } else {
                                Ok(Some(Ratio { inner: ((w * RATIO_ONE) / (d as int)) as u128 }))
                            }
                        },
                    }
                },
            }
        },
    }
}

/// The extra TUSDT `user` may borrow: `min collateral factor * collateral - debt`, floored at 0.
pub open spec fn available_borrow_spec(v: PoolView, env: PoolEnv, user: AccountId) -> Result<Balance, Error> {
    match collateral_value_spec(v, env, user) {
        Err(e) => Err(e),
        Ok(c) => if c == 0 {
            Ok(0)
        } else {
            match debt_value_spec(v, env, user) {
                Err(e) => Err(e),
                Ok(d) => match min_factor_spec(v, user) {
                    Err(e) => Err(e),
                    Ok(f) => if c * f.inner > u128::MAX || scale_floor(c as int, f.inner as int) > u64::MAX {
                        Err(Error::ArithmeticError)
                    } else {
                        let mx = scale_floor(c as int, f.inner as int);
                        if mx <= d { Ok(0) } else { Ok((mx - d) as u64) }
                    },
                },
            }
        },
    }
}

/// The platform's share of a full seizure: `min(fee, (C - D) / C)` when the collateral value
/// `C` exceeds the debt value `D`, otherwise 0 (as an inner ratio value).
pub open spec fn platform_share_spec(collateral_value: int, debt_value: int, fee: int) -> int {
    if collateral_value > debt_value {
        let surplus_share = ((collateral_value - debt_value) * RATIO_ONE) / collateral_value;
        if fee < surplus_share { fee } else { surplus_share }
    } else {
        0
    }
}

/// Splits a full liquidation: the liquidator pays the whole debt value, and the platform takes
/// `min(fee, (C - D) / C)` of the collateral when the collateral covers the debt, nothing
/// otherwise.
pub fn full_seizure_split(collateral_value: Balance, debt_value: Balance, fee: Ratio) -> (r: Result<(Balance, Ratio), Error>)
    ensures
        r matches Ok((pay, share)) && pay == debt_value && share.inner == platform_share_spec(collateral_value as int, debt_value as int, fee.inner as int),
{
    if collateral_value > debt_value {
        let surplus = collateral_value - debt_value;
        proof {
            assert((surplus as int) * RATIO_ONE <= u128::MAX) by (nonlinear_arith)
                requires 0 <= surplus <= u64::MAX;
        }
        let surplus_share = Ratio::from_inner((surplus as u128) * RATIO_ONE / (collateral_value as u128));
        let platform_share = if fee.inner < surplus_share.inner { fee } else { surplus_share };
        Ok((debt_value, platform_share))
    } else {
        Ok((debt_value, Ratio::from_inner(0)))
    }
}

/// Converts an alpha price in RAO (10^9 per alpha) to a ratio.
pub fn alpha_price_rao_to_ratio(alpha_price_rao: u64) -> (r: Result<Ratio, Error>)
    ensures
        r matches Ok(x) && x.inner == rao_ratio(alpha_price_rao as int),
{
    proof {
        assert((alpha_price_rao as int) * RATIO_ONE <= u128::MAX) by (nonlinear_arith)
            requires 0 <= alpha_price_rao <= u64::MAX;
    }
    Ok(Ratio::from_inner((alpha_price_rao as u128) * RATIO_ONE / 1_000_000_000))
}

impl TusdtLendingPool {
    /// The TUSDT/TAO oracle price, as [`oracle_price_spec`] states.
    pub fn get_oracle_price(&self, env: &PoolEnv) -> (r: Result<Ratio, Error>)
        ensures
            r == oracle_price_spec(self@, *env),
    {
        let price_data = match env.oracle_price {
            Some(p) => p,
            None => return Err(Error::OraclePriceUnavailable),
        };
        if price_data.committed_at > env.now {
            return Err(Error::OraclePriceUnavailable);
        }
        let age = env.now - price_data.committed_at;
        if age > self.global_params.max_oracle_age_ms {
            return Err(Error::OraclePriceStale);
        }
        if price_data.price.is_zero() {
            return Err(Error::OraclePriceUnavailable);
        }
        Ok(price_data.price)
    }

    /// The alpha collateral price of `netuid`, as [`collateral_price_spec`] states.
    pub fn collateral_price(&self, env: &PoolEnv, netuid: u16) -> (r: Result<Ratio, Error>)
        ensures
            r == collateral_price_spec(self@, *env, netuid),
    {
        let tusdt_per_tao = match self.get_oracle_price(env) {
            Ok(p) => p,
            Err(e) => return Err(e),
        };
        let rao = match lookup_u64(&env.alpha_prices, netuid) {
            Some(r) => r,
            None => return Err(Error::ChainExtensionFailed),
        };
        let alpha_to_tao = match alpha_price_rao_to_ratio(rao) {
            Ok(a) => a,
            Err(e) => return Err(e),
        };
        match tusdt_per_tao.checked_mul(alpha_to_tao) {
            Some(x) => Ok(x),
            None => Err(Error::ArithmeticError),
        }
    }

    /// The effective alpha collateral of `user` on `netuid`: its principal. Fails with
    /// `UnapprovedNetuid`.
    pub fn effective_alpha(&self, user: AccountId, netuid: u16) -> (r: Result<Balance, Error>)
        ensures
            r == effective_alpha_spec(self@, user, netuid),
    {
        let market_id = match self.netuid_to_market.get(&netuid) {
            Some(m) => *m,
            None => return Err(Error::UnapprovedNetuid),
        };
        let pos = self.position_or_zero(market_id, user);
        Ok(pos.alpha_principal)
    }

    /// The highest liquidation threshold among markets where `user` holds alpha (60% when
    /// none).
    pub fn max_liquidation_threshold_for_user(&self, user: AccountId) -> (r: Result<Ratio, Error>)
        ensures
            r == max_threshold_spec(self@, user),
    {
        let mut max_threshold: u128 = 0;
        let count = self.market_keys.len();
        let mut i: usize = 0;
        while i < count
            invariant
                count == self.market_keys@.len(),
                i <= count,
                max_threshold_scan(self@, user, self.market_keys@.take(i as int)) == Ok::<int, Error>(max_threshold as int),
            decreases count - i,
        {
            let market_id = self.market_keys[i];
            assert(self.market_keys@.take(i + 1).drop_last() =~= self.market_keys@.take(i as int));
            if market_id >= 2 {
                let netuid = match self.market_to_netuid.get(&market_id) {
                    Some(n) => *n,
                    None => {
                        proof { lemma_threshold_err_stays(self@, user, self.market_keys@, (i + 1) as int); }
                        return Err(Error::MarketNotFound);
                    },
                };
                let pos = self.position_or_zero(market_id, user);
                if pos.alpha_principal != 0 {
                    let params = self.alpha_params_or_default(netuid);
                    if params.liquidation_threshold.inner > max_threshold {
                        max_threshold = params.liquidation_threshold.inner;
                    }
                }
            }
            i = i + 1;
        }
        assert(self.market_keys@.take(count as int) =~= self.market_keys@);
        if max_threshold == 0 {
            return Ok(Ratio::from_basis_points(6000));
        }
        Ok(Ratio::from_inner(max_threshold))
    }

    /// The lowest collateral factor among markets where `user` holds alpha (0 when none).
    pub fn min_collateral_factor_for_user(&self, user: AccountId) -> (r: Result<Ratio, Error>)
        ensures
            r == min_factor_spec(self@, user),
    {
        let mut min_factor: u128 = RATIO_ONE;
        let mut found = false;
        let count = self.market_keys.len();
        let mut i: usize = 0;
        while i < count
            invariant
                count == self.market_keys@.len(),
                i <= count,
                min_factor_scan(self@, user, self.market_keys@.take(i as int)) == Ok::<(int, bool), Error>((min_factor as int, found)),
            decreases count - i,
        {
            let market_id = self.market_keys[i];
            assert(self.market_keys@.take(i + 1).drop_last() =~= self.market_keys@.take(i as int));
            if market_id >= 2 {
                let netuid = match self.market_to_netuid.get(&market_id) {
                    Some(n) => *n,
                    None => {
                        proof { lemma_factor_err_stays(self@, user, self.market_keys@, (i + 1) as int); }
                        return Err(Error::MarketNotFound);
                    },
                };
                let pos = self.position_or_zero(market_id, user);
                if pos.alpha_principal != 0 {
                    found = true;
                    let params = self.alpha_params_or_default(netuid);
                    if params.collateral_factor.inner < min_factor {
                        min_factor = params.collateral_factor.inner;
                    }
                }
            }
            i = i + 1;
        }
        assert(self.market_keys@.take(count as int) =~= self.market_keys@);
        if !found {
            return Ok(Ratio::from_inner(0));
        }
        Ok(Ratio::from_inner(min_factor))
    }

    /// The value of `user`'s alpha collateral in TUSDT, as [`collateral_value_spec`] states.
    pub fn get_collateral_value_tusdt(&self, env: &PoolEnv, user: AccountId) -> (r: Result<Balance, Error>)
        ensures
            r == collateral_value_spec(self@, *env, user),
    {
        let mut total: u128 = 0;
        let count = self.market_keys.len();
        let mut i: usize = 0;
        while i < count
            invariant
                count == self.market_keys@.len(),
                i <= count,
                collateral_scan(self@, *env, user, self.market_keys@.take(i as int)) == Ok::<int, Error>(total as int),
            decreases count - i,
        {
            let market_id = self.market_keys[i];
            assert(self.market_keys@.take(i + 1).drop_last() =~= self.market_keys@.take(i as int));
            if market_id >= 2 {
                let netuid = match self.market_to_netuid.get(&market_id) {
                    Some(n) => *n,
                    None => {
                        proof { lemma_collateral_err_stays(self@, *env, user, self.market_keys@, (i + 1) as int); }
                        return Err(Error::MarketNotFound);
                    },
                };
                let effective = match self.effective_alpha(user, netuid) {
                    Ok(e) => e,
                    Err(e) => {
                        proof { lemma_collateral_err_stays(self@, *env, user, self.market_keys@, (i + 1) as int); }
                        return Err(e);
                    },
                };
                if effective != 0 {
                    let price = match self.collateral_price(env, netuid) {
                        Ok(p) => p,
                        Err(e) => {
                            proof { lemma_collateral_err_stays(self@, *env, user, self.market_keys@, (i + 1) as int); }
                            return Err(e);
                        },
                    };
                    let value = match price.checked_mul_value(effective as u128) {
                        Some(v) => v,
                        None => {
                            proof { lemma_collateral_err_stays(self@, *env, user, self.market_keys@, (i + 1) as int); }
                            return Err(Error::ArithmeticError);
                        },
                    };
                    total = match total.checked_add(value) {
                        Some(t) => t,
                        None => {
                            proof { lemma_collateral_err_stays(self@, *env, user, self.market_keys@, (i + 1) as int); }
                            return Err(Error::ArithmeticError);
                        },
                    };
                }
            }
            i = i + 1;
        }
        assert(self.market_keys@.take(count as int) =~= self.market_keys@);
        match crate::types::balance_from_u128(total) {
            Some(b) => Ok(b),
            None => Err(Error::ArithmeticError),
        }
    }

    /// The face debt of `user` in a supply/borrow market, unnarrowed.
    fn face_debt(&self, market: u8, user: AccountId) -> (r: Option<u128>)
        requires
            market < 2,
        ensures
            r matches Some(x) ==> face_debt_wide(self@, market, user) == Some(x as int),
            r is None <==> face_debt_wide(self@, market, user) is None,
    {
        let pos = self.position_or_zero(market, user);
        let index = if market == 0 { self.market_tao.borrow_index } else { self.market_tusdt.borrow_index };
        if pos.scaled_debt == 0 {
            Some(0)
        } else {
            index.checked_mul_value(pos.scaled_debt as u128)
        }
    }

    /// The value of `user`'s debt in TUSDT, as [`debt_value_spec`] states.
    pub fn get_debt_value_tusdt(&self, env: &PoolEnv, user: AccountId) -> (r: Result<Balance, Error>)
        ensures
            r == debt_value_spec(self@, *env, user),
    {
        let tusdt_debt = match self.face_debt(1, user) {
            Some(d) => d,
            None => return Err(Error::ArithmeticError),
        };
        let tao_debt = match self.face_debt(0, user) {
            Some(d) => d,
            None => return Err(Error::ArithmeticError),
        };
        let tao_debt_tusdt: u128 = if tao_debt > 0 {
            let price = match self.get_oracle_price(env) {
                Ok(p) => p,
                Err(e) => return Err(e),
            };
            match price.checked_mul_value(tao_debt) {
                Some(v) => v,
                None => return Err(Error::ArithmeticError),
            }
        } else {
            0
        };
        match tusdt_debt.checked_add(tao_debt_tusdt) {
            Some(s) => match crate::types::balance_from_u128(s) {
                Some(b) => Ok(b),
                None => Err(Error::ArithmeticError),
            },
            None => Err(Error::ArithmeticError),
        }
    }

    /// The health factor of `user`, as [`health_factor_spec`] states.
    pub fn get_health_factor(&self, env: &PoolEnv, user: AccountId) -> (r: Result<Option<Ratio>, Error>)
        ensures
            r == health_factor_spec(self@, *env, user),
    {
        let debt_value = match self.get_debt_value_tusdt(env, user) {
            Ok(d) => d,
            Err(e) => return Err(e),
        };
        if debt_value == 0 {
            return Ok(None);
        }
        let collateral_value = match self.get_collateral_value_tusdt(env, user) {
            Ok(c) => c,
            Err(e) => return Err(e),
        };
        if collateral_value == 0 {
            return Ok(Some(Ratio::from_inner(0)));
        }
        let threshold = match self.max_liquidation_threshold_for_user(user) {
            Ok(t) => t,
            Err(e) => return Err(e),
        };
        match health_factor_from_values(threshold, collateral_value, debt_value) {
            Some(h) => Ok(Some(h)),
            None => Err(Error::ArithmeticError),
        }
    }

    /// The extra TUSDT `user` may borrow, as [`available_borrow_spec`] states.
    pub fn get_available_borrow_tusdt(&self, env: &PoolEnv, user: AccountId) -> (r: Result<Balance, Error>)
        ensures
            r == available_borrow_spec(self@, *env, user),
    {
        let collateral_value = match self.get_collateral_value_tusdt(env, user) {
            Ok(c) => c,
            Err(e) => return Err(e),
        };
        if collateral_value == 0 {
            return Ok(0);
        }
        let debt_value = match self.get_debt_value_tusdt(env, user) {
            Ok(d) => d,
            Err(e) => return Err(e),
        };
        let factor = match self.min_collateral_factor_for_user(user) {
            Ok(f) => f,
            Err(e) => return Err(e),
        };
        let max_borrow = match factor.checked_mul_value(collateral_value as u128) {
            Some(v) => match crate::types::balance_from_u128(v) {
                Some(b) => b,
                None => return Err(Error::ArithmeticError),
            },
            None => return Err(Error::ArithmeticError),
        };
        if max_borrow <= debt_value {
            return Ok(0);
        }
        Ok(max_borrow - debt_value)
    }

    /// Whether `user`'s health factor is below 1.0 (false without debt).
    pub fn is_liquidatable(&self, env: &PoolEnv, user: AccountId) -> (r: Result<bool, Error>)
        ensures
            match health_factor_spec(self@, *env, user) {
                Err(e) => r == Err::<bool, Error>(e),
                Ok(None) => r == Ok::<bool, Error>(false),
                Ok(Some(h)) => r == Ok::<bool, Error>(h.inner < RATIO_ONE),
            },
    {
        match self.get_health_factor(env, user) {
            Err(e) => Err(e),
            Ok(None) => Ok(false),
            Ok(Some(hf)) => Ok(hf.inner < RATIO_ONE),
        }
    }
}

proof fn lemma_threshold_err_stays(v: PoolView, user: AccountId, keys: Seq<u8>, n: int)
    requires
        0 < n <= keys.len(),
        max_threshold_scan(v, user, keys.take(n)) is Err,
    ensures
        max_threshold_scan(v, user, keys) is Err,
        max_threshold_scan(v, user, keys) == max_threshold_scan(v, user, keys.take(n)),
    decreases keys.len() - n,
{
    if n < keys.len() {
        assert(keys.take(n + 1).drop_last() =~= keys.take(n));
        lemma_threshold_err_stays(v, user, keys, n + 1);
    } else {
        assert(keys.take(n) =~= keys);
    }
}

proof fn lemma_factor_err_stays(v: PoolView, user: AccountId, keys: Seq<u8>, n: int)
    requires
        0 < n <= keys.len(),
        min_factor_scan(v, user, keys.take(n)) is Err,
    ensures
        min_factor_scan(v, user, keys) == min_factor_scan(v, user, keys.take(n)),
    decreases keys.len() - n,
{
    if n < keys.len() {
        assert(keys.take(n + 1).drop_last() =~= keys.take(n));
        lemma_factor_err_stays(v, user, keys, n + 1);
    } else {
        assert(keys.take(n) =~= keys);
    }
}

proof fn lemma_collateral_err_stays(v: PoolView, env: PoolEnv, user: AccountId, keys: Seq<u8>, n: int)
    requires
        0 < n <= keys.len(),
        collateral_scan(v, env, user, keys.take(n)) is Err,
    ensures
        collateral_scan(v, env, user, keys) == collateral_scan(v, env, user, keys.take(n)),
    decreases keys.len() - n,
{
    if n < keys.len() {
        assert(keys.take(n + 1).drop_last() =~= keys.take(n));
        lemma_collateral_err_stays(v, env, user, keys, n + 1);
    } else {
        assert(keys.take(n) =~= keys);
    }
}

/// A user's debt value counts both markets: the TUSDT face debt plus the TAO face debt converted
/// at the oracle price, each face debt being `floor(scaled * borrow index / 10^18)`. So it is
/// never below either part, and non-zero TAO debt worth at least one unit at the oracle price
/// gives a non-zero debt value and a health factor.
pub proof fn law_debt_value_counts_both_markets(v: PoolView, env: PoolEnv, user: AccountId)
    requires
        debt_value_spec(v, env, user) is Ok,
    ensures
        ({
            let d = debt_value_spec(v, env, user)->Ok_0 as int;
            let tusdt = (v.position(1, user).scaled_debt as int) * (v.market(1).unwrap().borrow_index.inner as int) / (RATIO_ONE as int);
            let tao = (v.position(0, user).scaled_debt as int) * (v.market(0).unwrap().borrow_index.inner as int) / (RATIO_ONE as int);
            &&& tao == 0 ==> d == tusdt
            &&& tao > 0 ==> env.oracle_price is Some
                && d == tusdt + tao * (env.oracle_price->Some_0.price.inner as int) / (RATIO_ONE as int)
            &&& d >= tusdt
            &&& tao > 0 ==> d >= tao * (env.oracle_price->Some_0.price.inner as int) / (RATIO_ONE as int)
            &&& d > 0 ==> !(health_factor_spec(v, env, user) matches Ok(None))
        }),
{
    let tusdt_w = face_debt_wide(v, 1, user)->Some_0;
    let tao_w = face_debt_wide(v, 0, user)->Some_0;
    let s0 = v.position(0, user).scaled_debt as int;
    let s1 = v.position(1, user).scaled_debt as int;
    if s0 == 0 {
        assert(s0 * (v.market(0).unwrap().borrow_index.inner as int) == 0);
    }
    if s1 == 0 {
        assert(s1 * (v.market(1).unwrap().borrow_index.inner as int) == 0);
    }
    if tao_w > 0 {
        let pr = env.oracle_price->Some_0.price.inner as int;
        assert(tao_w * pr >= 0) by (nonlinear_arith) requires tao_w >= 0, pr >= 0;
    }
}

/// The platform's share of a full seizure is `min(fee, floor((C - D) * 10^18 / C))` when the
/// collateral value `C` exceeds the debt value `D`, and 0 otherwise: it never exceeds the fee
/// nor the collateral's surplus share, so the liquidator keeps the rest of the surplus.
pub proof fn law_platform_share_is_capped_by_fee(collateral_value: Balance, debt_value: Balance, fee: Ratio)
    ensures
        ({
            let share = platform_share_spec(collateral_value as int, debt_value as int, fee.inner as int);
            let surplus = if collateral_value > debt_value {
                (collateral_value - debt_value) * (RATIO_ONE as int) / (collateral_value as int)
            } else {
                0
            };
            &&& collateral_value <= debt_value ==> share == 0
            &&& collateral_value > debt_value ==> share <= fee.inner && share <= surplus
            &&& collateral_value > debt_value ==> (share == fee.inner || share == surplus)
        }),
{
}

/// The liquidation threshold of alpha market `m`.
pub open spec fn threshold_of(v: PoolView, m: u8) -> int {
    v.alpha_params_of(v.market_to_netuid[m]).liquidation_threshold.inner as int
}

/// The collateral factor of alpha market `m`.
pub open spec fn factor_of(v: PoolView, m: u8) -> int {
    v.alpha_params_of(v.market_to_netuid[m]).collateral_factor.inner as int
}

/// Whether `user` holds alpha collateral in alpha market `m`.
pub open spec fn holds_alpha(v: PoolView, m: u8, user: AccountId) -> bool {
    m >= 2 && v.position(m, user).alpha_principal > 0
}

proof fn lemma_threshold_scan(v: PoolView, user: AccountId, keys: Seq<u8>)
    ensures
        max_threshold_scan(v, user, keys) matches Ok(mx) ==> {
            &&& mx >= 0
            &&& forall|i: int| 0 <= i < keys.len() && #[trigger] holds_alpha(v, keys[i], user) ==> mx >= threshold_of(v, keys[i])
            &&& mx == 0 || exists|i: int| 0 <= i < keys.len() && #[trigger] holds_alpha(v, keys[i], user) && mx == threshold_of(v, keys[i])
        },
    decreases keys.len(),
{
    if keys.len() > 0 {
        let init = keys.drop_last();
        lemma_threshold_scan(v, user, init);
        let n = keys.len() - 1;
        if max_threshold_scan(v, user, keys) is Ok {
            let mx = max_threshold_scan(v, user, keys)->Ok_0;
            let prev = max_threshold_scan(v, user, init)->Ok_0;
            assert(keys.last() == keys[n]);
            assert forall|i: int| 0 <= i < keys.len() && #[trigger] holds_alpha(v, keys[i], user) implies mx >= threshold_of(v, keys[i]) by {
                if i < n {
                    assert(init[i] == keys[i]);
                    assert(holds_alpha(v, init[i], user));
                }
            }
            if mx != 0 {
                if mx == prev {
                    let i = choose|i: int| 0 <= i < init.len() && #[trigger] holds_alpha(v, init[i], user) && prev == threshold_of(v, init[i]);
                    assert(keys[i] == init[i]);
                    assert(holds_alpha(v, keys[i], user));
                } else {
                    assert(holds_alpha(v, keys[n], user));
                }
            }
        }
    }
}

proof fn lemma_factor_scan(v: PoolView, user: AccountId, keys: Seq<u8>)
    ensures
        min_factor_scan(v, user, keys) matches Ok((mn, found)) ==> {
            &&& mn <= RATIO_ONE
            &&& !found ==> mn == RATIO_ONE
            &&& forall|i: int| 0 <= i < keys.len() && #[trigger] holds_alpha(v, keys[i], user) ==> mn <= factor_of(v, keys[i])
            &&& found <==> exists|i: int| 0 <= i < keys.len() && #[trigger] holds_alpha(v, keys[i], user)
            &&& (found && mn < RATIO_ONE) ==> exists|i: int| 0 <= i < keys.len() && #[trigger] holds_alpha(v, keys[i], user) && mn == factor_of(v, keys[i])
        },
    decreases keys.len(),
{
    if keys.len() > 0 {
        let init = keys.drop_last();
        lemma_factor_scan(v, user, init);
        let n = keys.len() - 1;
        if min_factor_scan(v, user, keys) is Ok {
            let (mn, found) = min_factor_scan(v, user, keys)->Ok_0;
            let (pmn, pfound) = min_factor_scan(v, user, init)->Ok_0;
            assert(keys.last() == keys[n]);
            assert(found == (pfound || holds_alpha(v, keys[n], user)));
            assert forall|i: int| 0 <= i < keys.len() && #[trigger] holds_alpha(v, keys[i], user) implies mn <= factor_of(v, keys[i]) by {
                if i < n {
                    assert(init[i] == keys[i]);
                    assert(holds_alpha(v, init[i], user));
                }
            }
            if pfound {
                let i = choose|i: int| 0 <= i < init.len() && #[trigger] holds_alpha(v, init[i], user);
                assert(keys[i] == init[i]);
                assert(holds_alpha(v, keys[i], user));
            }
            if exists|i: int| 0 <= i < keys.len() && #[trigger] holds_alpha(v, keys[i], user) {
                let i = choose|i: int| 0 <= i < keys.len() && #[trigger] holds_alpha(v, keys[i], user);
                if i < n {
                    assert(init[i] == keys[i]);
                    assert(holds_alpha(v, init[i], user));
                }
            }
            if found && mn < RATIO_ONE {
                if mn == pmn && pfound && pmn < RATIO_ONE {
                    let i = choose|i: int| 0 <= i < init.len() && #[trigger] holds_alpha(v, init[i], user) && pmn == factor_of(v, init[i]);
                    assert(keys[i] == init[i]);
                    assert(holds_alpha(v, keys[i], user));
                } else {
                    assert(holds_alpha(v, keys[n], user));
                }
            }
        }
    }
}

/// The liquidation threshold a user's health is measured with is the highest threshold among
/// the alpha markets where the user holds collateral (60% when there is none), and the
/// collateral factor that bounds borrowing is the lowest factor among them (0 when there is
/// none).
pub proof fn law_risk_parameters_follow_held_markets(v: PoolView, user: AccountId)
    ensures
        max_threshold_spec(v, user) matches Ok(t) ==> {
            &&& forall|i: int| 0 <= i < v.market_keys.len() && #[trigger] holds_alpha(v, v.market_keys[i], user)
                ==> t.inner >= threshold_of(v, v.market_keys[i])
            &&& (t.inner == 6000 * RATIO_BPS || exists|i: int| 0 <= i < v.market_keys.len()
                && #[trigger] holds_alpha(v, v.market_keys[i], user) && t.inner == threshold_of(v, v.market_keys[i]))
        },
        min_factor_spec(v, user) matches Ok(f) ==> {
            &&& forall|i: int| 0 <= i < v.market_keys.len() && #[trigger] holds_alpha(v, v.market_keys[i], user)
                ==> f.inner <= factor_of(v, v.market_keys[i])
            &&& f.inner <= RATIO_ONE
            &&& !(exists|i: int| 0 <= i < v.market_keys.len() && #[trigger] holds_alpha(v, v.market_keys[i], user)) ==> f.inner == 0
            &&& (exists|i: int| 0 <= i < v.market_keys.len() && #[trigger] holds_alpha(v, v.market_keys[i], user)) && f.inner < RATIO_ONE
                ==> exists|i: int| 0 <= i < v.market_keys.len() && #[trigger] holds_alpha(v, v.market_keys[i], user) && f.inner == factor_of(v, v.market_keys[i])
        },
{
    lemma_threshold_scan(v, user, v.market_keys);
    lemma_factor_scan(v, user, v.market_keys);
}

/// The health factor is the threshold-weighted collateral value over the debt value:
/// `floor(floor(C * t / 10^18) * 10^18 / D)` with `C` the collateral value, `t` the liquidation
/// threshold and `D` the debt value; there is none exactly when the debt value is 0, and it is
/// 0 when there is debt but no collateral. A user is liquidatable exactly when it is below 1.0.
pub proof fn law_health_factor_weighs_collateral_against_debt(v: PoolView, env: PoolEnv, user: AccountId)
    requires
        health_factor_spec(v, env, user) is Ok,
    ensures
        debt_value_spec(v, env, user) is Ok,
        ({
            let d = debt_value_spec(v, env, user)->Ok_0 as int;
            let h = health_factor_spec(v, env, user)->Ok_0;
            &&& (h is None <==> d == 0)
            &&& d > 0 ==> collateral_value_spec(v, env, user) is Ok
            &&& d > 0 && collateral_value_spec(v, env, user)->Ok_0 == 0 ==> h == Some(Ratio { inner: 0 })
            &&& d > 0 && collateral_value_spec(v, env, user)->Ok_0 > 0 ==> max_threshold_spec(v, user) is Ok
                && h->Some_0.inner == ((collateral_value_spec(v, env, user)->Ok_0 as int)
                    * (max_threshold_spec(v, user)->Ok_0.inner as int) / (RATIO_ONE as int)) * (RATIO_ONE as int) / d
        }),
{
}

} // verus!

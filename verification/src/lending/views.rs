//! Read-only queries of the lending pool: market state and rates, positions and debts, the
//! alpha market list, paginated position listings and role/parameter getters.

use vstd::prelude::*;
use crate::ratio::{Ratio, RATIO_ONE, mul_floor, scale_floor};
use crate::types::{AccountId, Balance};
use super::{
    MarketState, PoolEnv, Position, RootStakeConfig, UserMarketPosition, PAGE_SIZE, pos_key,
    position_key, compute_available_liquidity, compute_redeem_amount, scaled_debt_to_face,
};
use super::params::{
    AlphaMarketParams, AlphaMarketParamsConfig, InterestRateParamsConfig,
    PendingAlphaParamsUpdate, PendingGlobalParamsUpdate, PendingInterestParamsUpdate,
    PoolGlobalParamsConfig, bps_or_zero,
};
use super::pool::{PoolView, TusdtLendingPool};
use super::rates::{borrow_rate_spec, compute_borrow_rate, market_cash_spec, utilization_spec};
use super::borrow::face_of;
use super::supply::redeem_amount;
use super::admin::pending_market;

verus! {

broadcast use vstd::std_specs::hash::group_hash_axioms;

/// The stored position of `user` in `market`, if one was ever written.
pub open spec fn stored_position(v: PoolView, market: u8, user: AccountId) -> Option<Position> {
    if v.positions.contains_key(pos_key(market, user)) { Some(v.positions[pos_key(market, user)]) } else { None }
}

/// The utilization of market `m` at the current cash, if it can be computed.
pub open spec fn utilization_view(v: PoolView, env: PoolEnv, m: u8) -> Option<int> {
    match v.market(m) {
        None => None,
        Some(s) => match market_cash_spec(v, env, m) {
            Err(_) => None,
            Ok(cash) => utilization_spec(s.total_debt as int, cash as int),
        },
    }
}

/// The annual supply rate at utilization `u` and borrow rate `br`: `br * u * (1 - reserve
/// factor)`, if it can be computed.
pub open spec fn supply_rate_of(br: int, u: int, rf: int) -> Option<int> {
    if br * u > u128::MAX || rf > RATIO_ONE {
        None
    } else {
        let x = mul_floor(br, u);
        if x * (RATIO_ONE - rf) > u128::MAX { None } else { Some(mul_floor(x, RATIO_ONE - rf)) }
    }
}

/// `(netuid, params)` of every approved alpha market among `keys`, in order.
pub open spec fn alpha_markets_of(v: PoolView, keys: Seq<u8>) -> Seq<(u16, AlphaMarketParams)>
    decreases keys.len(),
{
    if keys.len() == 0 {
        Seq::empty()
    } else {
        let m = keys[0];
        let rest = alpha_markets_of(v, keys.drop_first());
        if m >= 2 && v.market_to_netuid.contains_key(m) {
            seq![(v.market_to_netuid[m], v.alpha_params_of(v.market_to_netuid[m]))] + rest
        } else {
            rest
        }
    }
}

/// `(market_id, netuid)` of every approved alpha market among `keys`, in order.
pub open spec fn alpha_ids_of(v: PoolView, keys: Seq<u8>) -> Seq<(u8, u16)>
    decreases keys.len(),
{
    if keys.len() == 0 {
        Seq::empty()
    } else {
        let m = keys[0];
        let rest = alpha_ids_of(v, keys.drop_first());
        if m >= 2 && v.market_to_netuid.contains_key(m) { seq![(m, v.market_to_netuid[m])] + rest } else { rest }
    }
}

/// How many of `keys` are alpha market ids (2 and up).
pub open spec fn alpha_id_count(keys: Seq<u8>) -> nat
    decreases keys.len(),
{
    if keys.len() == 0 { 0 } else { (if keys[0] >= 2 { 1nat } else { 0nat }) + alpha_id_count(keys.drop_first()) }
}

/// The window of the position-key index shown on `page`.
pub open spec fn page_window(v: PoolView, page: u32) -> Seq<(u8, AccountId)> {
    let start = if page * PAGE_SIZE > u32::MAX { u32::MAX as int } else { page * PAGE_SIZE };
    let stop = if start + PAGE_SIZE > u32::MAX { u32::MAX as int } else { start + PAGE_SIZE };
    let len = v.position_keys.len() as int;
    let end = if stop <= len { stop } else { len };
    if start >= end { Seq::empty() } else { v.position_keys.subrange(start, end) }
}

/// The positions of `keys` (each key once, keys without a stored position skipped), after
/// `seen` keys were listed into `out`.
pub open spec fn list_positions(v: PoolView, keys: Seq<(u8, AccountId)>, seen: Seq<(u8, AccountId)>, out: Seq<((u8, AccountId), Position)>) -> Seq<((u8, AccountId), Position)>
    decreases keys.len(),
{
    if keys.len() == 0 {
        out
    } else {
        let k = keys[0];
        let rest = keys.drop_first();
        if seen.contains(k) {
            list_positions(v, rest, seen, out)
        } else {
            match stored_position(v, k.0, k.1) {
                Some(p) => list_positions(v, rest, seen.push(k), out.push((k, p))),
                None => list_positions(v, rest, seen.push(k), out),
            }
        }
    }
}

/// The keys of `user` among `keys`, in order.
pub open spec fn keys_of_user(keys: Seq<(u8, AccountId)>, user: AccountId) -> Seq<(u8, AccountId)> {
    keys.filter(|k: (u8, AccountId)| k.1 == user)
}

/// A user's position in a market with face values resolved.
pub open spec fn market_view(v: PoolView, m: u8, user: AccountId, exists: bool) -> UserMarketPosition {
    let pos = v.position(m, user);
    let supply_face: Option<Balance> = match v.market(m) {
        Some(s) => match redeem_amount(MarketState { total_supplied: 1, ..s }, pos.ltoken_balance) {
            Some(x) => Some(x as u64),
            None => None,
        },
        None => if pos.ltoken_balance == 0 { Some(0) } else { None },
    };
    let debt_face: Option<Balance> = match v.market(m) {
        Some(s) => match face_of(pos.scaled_debt, s.borrow_index.inner) {
            Some(x) => Some(x as u64),
            None => None,
        },
        None => if pos.scaled_debt == 0 { Some(0) } else { None },
    };
    UserMarketPosition {
        market_id: m,
        market_exists: exists,
        alpha_netuid: if m < 2 || !v.market_to_netuid.contains_key(m) { None } else { Some(v.market_to_netuid[m]) },
        has_position: !super::position_is_zero(pos),
        ltoken_balance: pos.ltoken_balance,
        supply_face,
        scaled_debt: pos.scaled_debt,
        debt_face,
        alpha_principal: pos.alpha_principal,
    }
}

/// The views of every market among `keys` where `user` holds something, in order.
pub open spec fn positions_of_user(v: PoolView, keys: Seq<u8>, user: AccountId) -> Seq<UserMarketPosition>
    decreases keys.len(),
{
    if keys.len() == 0 {
        Seq::empty()
    } else {
        let view = market_view(v, keys[0], user, true);
        let rest = positions_of_user(v, keys.drop_first(), user);
        if view.has_position { seq![view] + rest } else { rest }
    }
}

proof fn lemma_list_step(v: PoolView, keys: Seq<(u8, AccountId)>, seen: Seq<(u8, AccountId)>, out: Seq<((u8, AccountId), Position)>, i: int)
    requires
        0 <= i < keys.len(),
    ensures
        keys.skip(i).drop_first() == keys.skip(i + 1),
        keys.skip(i)[0] == keys[i],
{
    assert(keys.skip(i).drop_first() =~= keys.skip(i + 1));
}

impl TusdtLendingPool {
    /// The accrual state of a supply/borrow market (`None` for other ids).
    pub fn get_market_state(&self, market_id: u8) -> (r: Option<MarketState>)
        ensures
            r == self@.market(market_id),
    {
        if market_id < 2 { Some(self.market_state(market_id)) } else { None }
    }

    /// The last accrual timestamps of markets 0 and 1.
    pub fn get_last_interest_accrual_times(&self) -> (r: Option<(u64, u64)>)
        ensures
            r == Some((self.market_tao.last_update, self.market_tusdt.last_update)),
    {
        Some((self.market_tao.last_update, self.market_tusdt.last_update))
    }

    /// The stored position of `user` in `market_id`, `None` when none was ever written.
    pub fn get_position(&self, market_id: u8, user: AccountId) -> (r: Option<Position>)
        ensures
            r == stored_position(self@, market_id, user),
    {
        match self.positions.get(&position_key(market_id, user)) {
            Some(p) => Some(*p),
            None => None,
        }
    }

    /// The lToken exchange rate of a supply/borrow market.
    pub fn get_exchange_rate(&self, market_id: u8) -> (r: Option<Ratio>)
        ensures
            r == (match self@.market(market_id) { Some(s) => Some(s.exchange_rate), None => None }),
    {
        if market_id < 2 { Some(self.market_state(market_id).exchange_rate) } else { None }
    }

    /// The borrow index of a supply/borrow market.
    pub fn get_borrow_index(&self, market_id: u8) -> (r: Option<Ratio>)
        ensures
            r == (match self@.market(market_id) { Some(s) => Some(s.borrow_index), None => None }),
    {
        if market_id < 2 { Some(self.market_state(market_id).borrow_index) } else { None }
    }

    /// The utilization `debt / (debt + cash)` of a supply/borrow market.
    pub fn get_utilization(&self, env: &PoolEnv, market_id: u8) -> (r: Option<Ratio>)
        ensures
            match utilization_view(self@, *env, market_id) {
                Some(u) => r == Some(Ratio { inner: u as u128 }),
                None => r is None,
            },
    {
        if market_id >= 2 {
            return None;
        }
        let s = self.market_state(market_id);
        let cash = match self.market_cash(env, market_id) {
            Ok(c) => c,
            Err(_) => return None,
        };
        let total = match s.total_debt.checked_add(cash) {
            Some(t) => t,
            None => return None,
        };
        Some(super::rates::utilization_of(s.total_debt, total))
    }

    /// The supplier-withdrawable face liquidity of a supply/borrow market:
    /// `min(cash, total_supplied * exchange_rate)`.
    pub fn get_market_available_liquidity(&self, env: &PoolEnv, market_id: u8) -> (r: Option<Balance>)
        ensures
            market_id >= 2 ==> r is None,
            market_id < 2 ==> match market_cash_spec(self@, *env, market_id) {
                Err(_) => r is None,
                Ok(cash) => {
                    let s = self@.market(market_id).unwrap();
                    match redeem_amount(MarketState { total_supplied: 1, ..s }, s.total_supplied) {
                        None => r is None,
                        Some(face) => r == Some((if cash <= face { cash as int } else { face }) as u64),
                    }
                },
            },
    {
        if market_id >= 2 {
            return None;
        }
        let s = self.market_state(market_id);
        let cash = match self.market_cash(env, market_id) {
            Ok(c) => c,
            Err(_) => return None,
        };
        compute_available_liquidity(cash, s.total_supplied, s.exchange_rate)
    }

    /// The TAO booked as staked on the root subnet.
    pub fn get_tao_staked(&self) -> (r: Balance)
        ensures
            r == self.staked_tao,
    {
        self.staked_tao
    }

    /// The root-staking configuration.
    pub fn get_root_stake_config(&self) -> (r: RootStakeConfig)
        ensures
            r == (RootStakeConfig {
                root_hotkey: self.root_hotkey,
                staking_enabled: self.staking_enabled,
                stake_buffer: self.stake_buffer,
                sweep_threshold: self.sweep_threshold,
                stake_floor: self.stake_floor,
            }),
    {
        RootStakeConfig {
            root_hotkey: self.root_hotkey,
            staking_enabled: self.staking_enabled,
            stake_buffer: self.stake_buffer,
            sweep_threshold: self.sweep_threshold,
            stake_floor: self.stake_floor,
        }
    }

    /// The annual borrow rate of a supply/borrow market at its current utilization.
    pub fn get_borrow_rate(&self, env: &PoolEnv, market_id: u8) -> (r: Option<Ratio>)
        ensures
            match utilization_view(self@, *env, market_id) {
                None => r is None,
                Some(u) => match borrow_rate_spec(self@.rate_params(market_id).unwrap(), u) {
                    None => r is None,
                    Some(br) => r == Some(Ratio { inner: br as u128 }),
                },
            },
    {
        let u = match self.get_utilization(env, market_id) {
            Some(u) => u,
            None => return None,
        };
        let params = if market_id == 0 { self.params_tao } else { self.params_tusdt };
        match compute_borrow_rate(&params, u) {
            Ok(x) => Some(x),
            Err(_) => None,
        }
    }

    /// The annual supply rate of a supply/borrow market at its current utilization:
    /// `borrow rate * utilization * (1 - reserve factor)`.
    pub fn get_supply_rate(&self, env: &PoolEnv, market_id: u8) -> (r: Option<Ratio>)
        ensures
            match utilization_view(self@, *env, market_id) {
                None => r is None,
                Some(u) => {
                    let p = self@.rate_params(market_id).unwrap();
                    match borrow_rate_spec(p, u) {
                        None => r is None,
                        Some(br) => match supply_rate_of(br, u, p.reserve_factor.inner as int) {
                            None => r is None,
                            Some(sr) => r == Some(Ratio { inner: sr as u128 }),
                        },
                    }
                },
            },
    {
        let u = match self.get_utilization(env, market_id) {
            Some(u) => u,
            None => return None,
        };
        let params = if market_id == 0 { self.params_tao } else { self.params_tusdt };
        let br = match compute_borrow_rate(&params, u) {
            Ok(x) => x,
            Err(_) => return None,
        };
        let x = match br.checked_mul(u) {
            Some(x) => x,
            None => return None,
        };
        if params.reserve_factor.inner > RATIO_ONE {
            return None;
        }
        let one_minus_rf = Ratio::from_inner(RATIO_ONE - params.reserve_factor.inner);
        x.checked_mul(one_minus_rf)
    }

    /// The underlying value of `user`'s lTokens in a supply/borrow market (`None` for alpha
    /// markets, a user without a stored position, or an overflow).
    pub fn get_underlying_balance(&self, market_id: u8, user: AccountId) -> (r: Option<Balance>)
        ensures
            market_id > 1 ==> r is None,
            market_id <= 1 ==> match stored_position(self@, market_id, user) {
                None => r is None,
                Some(p) => {
                    let s = self@.market(market_id).unwrap();
                    match redeem_amount(MarketState { total_supplied: 1, ..s }, p.ltoken_balance) {
                        None => r is None,
                        Some(x) => r == Some(x as u64),
                    }
                },
            },
    {
        if market_id > 1 {
            return None;
        }
        let pos = match self.get_position(market_id, user) {
            Some(p) => p,
            None => return None,
        };
        let s = self.market_state(market_id);
        compute_redeem_amount(pos.ltoken_balance, s.exchange_rate)
    }

    /// `user`'s current debt in a supply/borrow market, with accrued interest.
    pub fn get_user_debt(&self, market_id: u8, user: AccountId) -> (r: Option<Balance>)
        ensures
            market_id > 1 ==> r is None,
            market_id <= 1 ==> match face_of(self@.position(market_id, user).scaled_debt, self@.market(market_id).unwrap().borrow_index.inner) {
                None => r is None,
                Some(x) => r == Some(x as u64),
            },
    {
        if market_id > 1 {
            return None;
        }
        let pos = self.position_or_zero(market_id, user);
        let s = self.market_state(market_id);
        if pos.scaled_debt == 0 {
            return Some(0);
        }
        scaled_debt_to_face(pos.scaled_debt, s.borrow_index)
    }

    /// `user`'s debt in a supply/borrow market as `(debt, principal)`: the principal is the
    /// booked principal (or the scaled debt when larger), capped at the debt.
    pub fn get_user_debt_details(&self, market_id: u8, user: AccountId) -> (r: Option<(Balance, Balance)>)
        ensures
            market_id > 1 ==> r is None,
            market_id <= 1 ==> match face_of(self@.position(market_id, user).scaled_debt, self@.market(market_id).unwrap().borrow_index.inner) {
                None => r is None,
                Some(d) => {
                    let booked = self@.principal(market_id, user);
                    let scaled = self@.position(market_id, user).scaled_debt;
                    let base = if booked >= scaled { booked } else { scaled };
                    r == Some((d as u64, if base <= d { base } else { d as u64 }))
                },
            },
    {
        if market_id > 1 {
            return None;
        }
        let pos = self.position_or_zero(market_id, user);
        let s = self.market_state(market_id);
        let debt: Balance = if pos.scaled_debt == 0 {
            0
        } else {
            match scaled_debt_to_face(pos.scaled_debt, s.borrow_index) {
                Some(d) => d,
                None => return None,
            }
        };
        proof {
            if pos.scaled_debt == 0 {
                assert(scale_floor(0, s.borrow_index.inner as int) == 0) by (nonlinear_arith);
                assert(0 * s.borrow_index.inner == 0) by (nonlinear_arith);
            }
        }
        let booked = self.principal_or_zero(market_id, user);
        let base = if booked >= pos.scaled_debt { booked } else { pos.scaled_debt };
        Some((debt, if base <= debt { base } else { debt }))
    }

    /// Every approved alpha market as `(netuid, params)`, in creation order.
    pub fn get_alpha_markets(&self) -> (r: Vec<(u16, AlphaMarketParams)>)
        ensures
            r@ == alpha_markets_of(self@, self@.market_keys),
    {
        let mut result: Vec<(u16, AlphaMarketParams)> = Vec::new();
        let n = self.market_keys.len();
        let mut i: usize = 0;
        assert(self@.market_keys.skip(0) =~= self@.market_keys);
        while i < n
            invariant
                n == self@.market_keys.len(),
                i <= n,
                alpha_markets_of(self@, self@.market_keys) == result@ + alpha_markets_of(self@, self@.market_keys.skip(i as int)),
            decreases n - i,
        {
            let ghost rest = self@.market_keys.skip(i as int);
            assert(rest.drop_first() =~= self@.market_keys.skip(i + 1));
            let m = self.market_keys[i];
            if m >= 2 {
                match self.market_to_netuid.get(&m) {
                    Some(netuid) => {
                        let netuid = *netuid;
                        let ghost before = result@;
                        result.push((netuid, self.alpha_params_or_default(netuid)));
                        assert(before + alpha_markets_of(self@, rest) =~= result@ + alpha_markets_of(self@, self@.market_keys.skip(i + 1)));
                    },
                    None => {},
                }
            }
            i = i + 1;
        }
        assert(result@ + Seq::<(u16, AlphaMarketParams)>::empty() =~= result@);
        result
    }

    /// `user`'s alpha principal on `netuid` (`None` for an unapproved netuid or no stored
    /// position).
    pub fn get_user_alpha_position(&self, user: AccountId, netuid: u16) -> (r: Option<Balance>)
        ensures
            r == (if !self@.netuid_to_market.contains_key(netuid) {
                None
            } else {
                match stored_position(self@, self@.netuid_to_market[netuid], user) {
                    Some(p) => Some(p.alpha_principal),
                    None => None,
                }
            }),
    {
        let m = match self.netuid_to_market.get(&netuid) {
            Some(m) => *m,
            None => return None,
        };
        match self.get_position(m, user) {
            Some(p) => Some(p.alpha_principal),
            None => None,
        }
    }

    /// The alpha principal booked on `netuid` (`None` when none was ever booked).
    pub fn get_netuid_total_collateral(&self, netuid: u16) -> (r: Option<Balance>)
        ensures
            r == (if self@.netuid_total_collateral.contains_key(netuid) { Some(self@.netuid_total_collateral[netuid]) } else { None }),
    {
        match self.netuid_total_collateral.get(&netuid) {
            Some(b) => Some(*b),
            None => None,
        }
    }

    /// Whether `netuid` is an approved alpha market.
    pub fn is_approved_netuid(&self, netuid: u16) -> (b: bool)
        ensures
            b == self@.netuid_to_market.contains_key(netuid),
    {
        self.netuid_to_market.get(&netuid).is_some()
    }

    /// The number of alpha market ids ever created (ids 2 and up), saturating at `u32::MAX`.
    pub fn get_active_netuids_count(&self) -> (r: u32)
        ensures
            r == (if alpha_id_count(self@.market_keys) > u32::MAX { u32::MAX as nat } else { alpha_id_count(self@.market_keys) }),
    {
        let mut count: u32 = 0;
        let n = self.market_keys.len();
        let mut i: usize = 0;
        assert(self@.market_keys.skip(0) =~= self@.market_keys);
        while i < n
            invariant
                n == self@.market_keys.len(),
                i <= n,
                (if alpha_id_count(self@.market_keys) > u32::MAX { u32::MAX as nat } else { alpha_id_count(self@.market_keys) })
                    == (if count + alpha_id_count(self@.market_keys.skip(i as int)) > u32::MAX { u32::MAX as nat } else { (count + alpha_id_count(self@.market_keys.skip(i as int))) as nat }),
            decreases n - i,
        {
            let ghost rest = self@.market_keys.skip(i as int);
            assert(rest.drop_first() =~= self@.market_keys.skip(i + 1));
            if self.market_keys[i] >= 2 {
                count = count.saturating_add(1);
            }
            i = i + 1;
        }
        assert(alpha_id_count(self@.market_keys.skip(n as int)) == 0);
        count
    }

    /// The page boundaries `[start, end)` of `page` in the position-key index.
    fn page_bounds(&self, page: u32) -> (r: (usize, usize))
        ensures
            r.0 <= r.1 <= self@.position_keys.len(),
            page_window(self@, page) == self@.position_keys.subrange(r.0 as int, r.1 as int),
    {
        let prod: u64 = (page as u64) * (PAGE_SIZE as u64);
        let start: u32 = if prod > u32::MAX as u64 { u32::MAX } else { prod as u32 };
        let stop = start.saturating_add(PAGE_SIZE);
        let len = self.position_keys.len();
        let end: usize = if (stop as usize) <= len { stop as usize } else { len };
        if (start as usize) >= end {
            proof {
                assert(self@.position_keys.subrange(end as int, end as int) =~= Seq::<(u8, AccountId)>::empty());
            }
            return (end, end);
        }
        (start as usize, end)
    }

    /// Up to [`PAGE_SIZE`] positions of `user` from the window of `page` in the global key index
    /// (deprecated for per-user queries: see [`TusdtLendingPool::get_user_positions`]).
    pub fn get_positions(&self, user: AccountId, page: u32) -> (r: Vec<(u8, Position)>)
        ensures
            r@ == list_positions(self@, keys_of_user(page_window(self@, page), user), Seq::empty(), Seq::empty())
                .map_values(|e: ((u8, AccountId), Position)| (e.0.0, e.1)),
    {
        let (start, end) = self.page_bounds(page);
        let ghost window = self@.position_keys.subrange(start as int, end as int);
        let mut mine: Vec<(u8, AccountId)> = Vec::new();
        let mut i = start;
        while i < end
            invariant
                start <= i <= end <= self@.position_keys.len(),
                window == self@.position_keys.subrange(start as int, end as int),
                mine@ == keys_of_user(window.take(i - start), user),
            decreases end - i,
        {
            let k = self.position_keys[i];
            proof {
                assert(window.take(i - start + 1).drop_last() =~= window.take(i - start));
                assert(window.take(i - start + 1).last() == k);
                reveal(Seq::filter);
            }
            if k.1 == user {
                mine.push(k);
            }
            i = i + 1;
        }
        assert(window.take(end - start) =~= window);
        let listed = self.list_keys(&mine);
        let mut result: Vec<(u8, Position)> = Vec::new();
        let mut j: usize = 0;
        while j < listed.len()
            invariant
                j <= listed@.len(),
                result@ == listed@.take(j as int).map_values(|e: ((u8, AccountId), Position)| (e.0.0, e.1)),
            decreases listed@.len() - j,
        {
            let e = listed[j];
            result.push((e.0.0, e.1));
            j = j + 1;
            assert(result@ =~= listed@.take(j as int).map_values(|e: ((u8, AccountId), Position)| (e.0.0, e.1)));
        }
        assert(listed@.take(listed@.len() as int) =~= listed@);
        result
    }

    /// Up to [`PAGE_SIZE`] positions across all users from the window of `page` in the key
    /// index.
    pub fn get_all_positions(&self, page: u32) -> (r: Vec<((u8, AccountId), Position)>)
        ensures
            r@ == list_positions(self@, page_window(self@, page), Seq::empty(), Seq::empty()),
    {
        let (start, end) = self.page_bounds(page);
        let mut window: Vec<(u8, AccountId)> = Vec::new();
        let mut i = start;
        while i < end
            invariant
                start <= i <= end <= self@.position_keys.len(),
                window@ == self@.position_keys.subrange(start as int, i as int),
            decreases end - i,
        {
            window.push(self.position_keys[i]);
            i = i + 1;
            assert(window@ =~= self@.position_keys.subrange(start as int, i as int));
        }
        self.list_keys(&window)
    }

    /// The stored positions of `keys`, each key once.
    fn list_keys(&self, keys: &Vec<(u8, AccountId)>) -> (r: Vec<((u8, AccountId), Position)>)
        ensures
            r@ == list_positions(self@, keys@, Seq::empty(), Seq::empty()),
    {
        let mut seen: Vec<(u8, AccountId)> = Vec::new();
        let mut result: Vec<((u8, AccountId), Position)> = Vec::new();
        let n = keys.len();
        let mut i: usize = 0;
        assert(keys@.skip(0) =~= keys@);
        while i < n
            invariant
                n == keys@.len(),
                i <= n,
                list_positions(self@, keys@, Seq::empty(), Seq::empty())
                    == list_positions(self@, keys@.skip(i as int), seen@, result@),
            decreases n - i,
        {
            proof { lemma_list_step(self@, keys@, seen@, result@, i as int); }
            let k = keys[i];
            if !super::pool::keys_contain(&seen, k.0, k.1) {
                seen.push(k);
                match self.get_position(k.0, k.1) {
                    Some(p) => result.push((k, p)),
                    None => {},
                }
            }
            i = i + 1;
        }
        assert(keys@.skip(n as int).len() == 0);
        result
    }

    /// Whether `market_id` is among the market ids ever created.
    pub fn market_exists(&self, market_id: u8) -> (b: bool)
        ensures
            b == self@.market_keys.contains(market_id),
    {
        let n = self.market_keys.len();
        let mut i: usize = 0;
        while i < n
            invariant
                n == self@.market_keys.len(),
                i <= n,
                forall|j: int| 0 <= j < i ==> self@.market_keys[j] != market_id,
            decreases n - i,
        {
            if self.market_keys[i] == market_id {
                assert(self@.market_keys[i as int] == market_id);
                return true;
            }
            i = i + 1;
        }
        false
    }

    /// `user`'s position in `market_id` with face values resolved, as [`market_view`] states.
    pub fn user_market_view(&self, market_id: u8, user: AccountId, market_exists: bool) -> (r: UserMarketPosition)
        ensures
            r == market_view(self@, market_id, user, market_exists),
    {
        let pos = self.position_or_zero(market_id, user);
        let state = self.get_market_state(market_id);
        let supply_face = match state {
            Some(s) => compute_redeem_amount(pos.ltoken_balance, s.exchange_rate),
            None => if pos.ltoken_balance == 0 { Some(0) } else { None },
        };
        let debt_face = match state {
            Some(s) => scaled_debt_to_face(pos.scaled_debt, s.borrow_index),
            None => if pos.scaled_debt == 0 { Some(0) } else { None },
        };
        let alpha_netuid = if market_id < 2 {
            None
        } else {
            match self.market_to_netuid.get(&market_id) {
                Some(n) => Some(*n),
                None => None,
            }
        };
        UserMarketPosition {
            market_id,
            market_exists,
            alpha_netuid,
            has_position: pos.ltoken_balance != 0 || pos.scaled_debt != 0 || pos.alpha_principal != 0,
            ltoken_balance: pos.ltoken_balance,
            supply_face,
            scaled_debt: pos.scaled_debt,
            debt_face,
            alpha_principal: pos.alpha_principal,
        }
    }

    /// `user`'s position in any `market_id`, never failing: an unknown id reports
    /// `market_exists == false`.
    pub fn get_user_market_position(&self, market_id: u8, user: AccountId) -> (r: UserMarketPosition)
        ensures
            r == market_view(self@, market_id, user, self@.market_keys.contains(market_id)),
    {
        let exists = self.market_exists(market_id);
        self.user_market_view(market_id, user, exists)
    }

    /// `user`'s positions in every market where it holds something, in market-id creation
    /// order.
    pub fn get_user_positions(&self, user: AccountId) -> (r: Vec<UserMarketPosition>)
        ensures
            r@ == positions_of_user(self@, self@.market_keys, user),
    {
        let mut result: Vec<UserMarketPosition> = Vec::new();
        let n = self.market_keys.len();
        let mut i: usize = 0;
        assert(self@.market_keys.skip(0) =~= self@.market_keys);
        while i < n
            invariant
                n == self@.market_keys.len(),
                i <= n,
                positions_of_user(self@, self@.market_keys, user) == result@ + positions_of_user(self@, self@.market_keys.skip(i as int), user),
            decreases n - i,
        {
            let ghost rest = self@.market_keys.skip(i as int);
            assert(rest.drop_first() =~= self@.market_keys.skip(i + 1));
            let view = self.user_market_view(self.market_keys[i], user, true);
            let ghost before = result@;
            if view.has_position {
                result.push(view);
            }
            assert(before + positions_of_user(self@, rest, user) =~= result@ + positions_of_user(self@, self@.market_keys.skip(i + 1), user));
            i = i + 1;
        }
        assert(result@ + Seq::<UserMarketPosition>::empty() =~= result@);
        result
    }

    /// Every approved alpha market as `(market_id, netuid)`, in creation order.
    pub fn get_alpha_market_ids(&self) -> (r: Vec<(u8, u16)>)
        ensures
            r@ == alpha_ids_of(self@, self@.market_keys),
    {
        let mut result: Vec<(u8, u16)> = Vec::new();
        let n = self.market_keys.len();
        let mut i: usize = 0;
        assert(self@.market_keys.skip(0) =~= self@.market_keys);
        while i < n
            invariant
                n == self@.market_keys.len(),
                i <= n,
                alpha_ids_of(self@, self@.market_keys) == result@ + alpha_ids_of(self@, self@.market_keys.skip(i as int)),
            decreases n - i,
        {
            let ghost rest = self@.market_keys.skip(i as int);
            assert(rest.drop_first() =~= self@.market_keys.skip(i + 1));
            let m = self.market_keys[i];
            let ghost before = result@;
            if m >= 2 {
                match self.market_to_netuid.get(&m) {
                    Some(netuid) => result.push((m, *netuid)),
                    None => {},
                }
            }
            assert(before + alpha_ids_of(self@, rest) =~= result@ + alpha_ids_of(self@, self@.market_keys.skip(i + 1)));
            i = i + 1;
        }
        assert(result@ + Seq::<(u8, u16)>::empty() =~= result@);
        result
    }

    /// The pending alpha params update of `netuid`.
    pub fn get_pending_alpha_params_update(&self, netuid: u16) -> (r: Option<PendingAlphaParamsUpdate>)
        ensures
            r == (if self@.pending_alpha_params.contains_key(netuid) { Some(self@.pending_alpha_params[netuid]) } else { None }),
    {
        match self.pending_alpha_params.get(&netuid) {
            Some(p) => Some(*p),
            None => None,
        }
    }

    /// The pending interest-rate update of `market_id`.
    pub fn get_pending_market_params_update(&self, market_id: u8) -> (r: Option<PendingInterestParamsUpdate>)
        ensures
            r == pending_market(self@, market_id),
    {
        if market_id == 0 {
            self.pending_params_tao
        } else if market_id == 1 {
            self.pending_params_tusdt
        } else {
            None
        }
    }

    /// The pending global params update.
    pub fn get_pending_global_params_update(&self) -> (r: Option<PendingGlobalParamsUpdate>)
        ensures
            r == self.pending_global_params,
    {
        self.pending_global_params
    }

    /// The governance account.
    pub fn governance(&self) -> (r: AccountId)
        ensures
            r == self.governance,
    {
        self.governance
    }

    /// The maintainer account.
    pub fn maintainer(&self) -> (r: AccountId)
        ensures
            r == self.maintainer,
    {
        self.maintainer
    }

    /// The treasury account.
    pub fn treasury(&self) -> (r: AccountId)
        ensures
            r == self.treasury,
    {
        self.treasury
    }

    /// The platform account.
    pub fn platform(&self) -> (r: AccountId)
        ensures
            r == self.platform,
    {
        self.platform
    }

    /// Whether the pool is paused.
    pub fn paused(&self) -> (r: bool)
        ensures
            r == self.paused,
    {
        self.paused
    }

    /// The oracle contract.
    pub fn get_oracle_address(&self) -> (r: AccountId)
        ensures
            r == self.oracle,
    {
        self.oracle
    }

    /// The TUSDT token contract.
    pub fn get_tusdt_address(&self) -> (r: AccountId)
        ensures
            r == self.tusdt,
    {
        self.tusdt
    }

    /// The lToken contract of market 0 or 1.
    pub fn get_ltoken_address(&self, market: u8) -> (r: Option<AccountId>)
        ensures
            r == (if market == 0 { Some(self.ltoken_tao) } else if market == 1 { Some(self.ltoken_tusdt) } else { None }),
    {
        if market == 0 {
            Some(self.ltoken_tao)
        } else if market == 1 {
            Some(self.ltoken_tusdt)
        } else {
            None
        }
    }

    /// The staking hotkey of the alpha collateral.
    pub fn get_pool_hotkey(&self) -> (r: AccountId)
        ensures
            r == self.pool_hotkey,
    {
        self.pool_hotkey
    }

    /// The global params in basis points.
    pub fn get_global_params(&self) -> (r: PoolGlobalParamsConfig)
        ensures
            r == (PoolGlobalParamsConfig {
                max_oracle_age_ms: self.global_params.max_oracle_age_ms,
                close_factor: bps_or_zero(self.global_params.close_factor),
                performance_fee: bps_or_zero(self.global_params.performance_fee),
                supply_cap_tao: self.global_params.supply_cap_tao,
                supply_cap_tusdt: self.global_params.supply_cap_tusdt,
                borrow_cap_tao: self.global_params.borrow_cap_tao,
                borrow_cap_tusdt: self.global_params.borrow_cap_tusdt,
            }),
    {
        self.global_params.to_config()
    }

    /// The interest-rate curve of market 0 or 1 in basis points.
    pub fn get_market_params(&self, market_id: u8) -> (r: Option<InterestRateParamsConfig>)
        ensures
            match self@.rate_params(market_id) {
                None => r is None,
                Some(p) => r == Some(InterestRateParamsConfig {
                    base_rate: bps_or_zero(p.base_rate),
                    slope1: bps_or_zero(p.slope1),
                    slope2: bps_or_zero(p.slope2),
                    optimal_utilization: bps_or_zero(p.optimal_utilization),
                    reserve_factor: bps_or_zero(p.reserve_factor),
                }),
            },
    {
        if market_id == 0 {
            Some(self.params_tao.to_config())
        } else if market_id == 1 {
            Some(self.params_tusdt.to_config())
        } else {
            None
        }
    }

    /// The configured alpha params of `netuid` in basis points (`None` when unconfigured).
    pub fn get_alpha_params(&self, netuid: u16) -> (r: Option<AlphaMarketParamsConfig>)
        ensures
            match (if self@.alpha_params.contains_key(netuid) { Some(self@.alpha_params[netuid]) } else { None::<AlphaMarketParams> }) {
                None => r is None,
                Some(p) => r == Some(AlphaMarketParamsConfig {
                    collateral_factor: bps_or_zero(p.collateral_factor),
                    liquidation_threshold: bps_or_zero(p.liquidation_threshold),
                    liquidation_bonus: bps_or_zero(p.liquidation_bonus),
                    supply_cap: p.supply_cap,
                }),
            },
    {
        match self.alpha_params.get(&netuid) {
            Some(p) => Some(p.to_config()),
            None => None,
        }
    }
}

} // verus!

//! Governance and keeper messages of the lending pool: accrual and reserve claims, alpha
//! market approval, timelocked parameter updates, roles and addresses, pausing, surplus
//! sweeps and the root-staking configuration.

use vstd::prelude::*;
use crate::types::{AccountId, Balance};
use super::{
    AlphaParamsUpdateCancelled, AlphaParamsUpdateScheduled, AlphaParamsUpdated, Error,
    GlobalParamsUpdateCancelled, GlobalParamsUpdateScheduled, GlobalParamsUpdated,
    LTokenAddressUpdated, MarketParamsUpdateCancelled, MarketParamsUpdateScheduled,
    MarketParamsUpdated, MarketState, NetuidApproved, PoolEffect, PoolEnv, PoolEvent,
    PoolGovernanceUpdated, PoolHotkeyChanged, PoolMaintainerUpdated, PoolNativeTransferredToTreasury,
    PoolOracleAddressUpdated, PoolPaused, PoolPlatformUpdated, PoolResult, PoolSurplusTusdtClaimed,
    PoolTreasuryUpdated, PoolUnpaused, ReserveClaimed, RootStakeConfigUpdated, StakedIdleTao,
    MIN_ROOT_STAKE_FLOOR, assoc_lookup, lookup_u64, reserve_claimable,
};
use super::params::{
    AlphaMarketParams, AlphaMarketParamsConfig, InterestRateParams, InterestRateParamsConfig,
    PendingAlphaParamsUpdate, PendingGlobalParamsUpdate, PendingInterestParamsUpdate,
    PoolGlobalParams, PoolGlobalParamsConfig, PARAMS_TIMELOCK_MS, alpha_config_valid,
    alpha_params_of, alpha_params_valid, global_config_valid, global_params_of,
    global_params_valid, interest_config_valid, interest_params_of, interest_params_valid,
    alpha_params_from_config, global_params_from_config, interest_params_from_config,
    validate_alpha_params, validate_global_params, validate_interest_params,
};
use super::pool::{PoolView, TusdtLendingPool};
use super::rates::accrue_outcome;
use super::supply::supplied_face;
use super::ops::{Outcome, fail, reached, settled, accrual_effects, top_up_spec, sweep_excess, failure, refusal};

verus! {

broadcast use vstd::std_specs::hash::group_hash_axioms;

/// An accepted change: the new state and the single event it emits.
pub open spec fn announced(v: PoolView, ev: PoolEvent) -> Outcome {
    Ok((v, seq![PoolEffect::Emit(ev)]))
}

/// A basis-point interest-rate config converted and validated, or the error.
pub open spec fn interest_config_check(c: InterestRateParamsConfig) -> Result<InterestRateParams, Error> {
    if !interest_config_valid(c) {
        Err(if 0 < c.optimal_utilization <= 10_000 && c.slope1 + c.slope2 > u32::MAX { Error::ArithmeticError } else { Error::InvalidParam })
    } else {
        let p = interest_params_of(c);
        if !interest_params_valid(p) {
            Err(if p.base_rate.inner + p.slope1.inner + p.slope2.inner > u128::MAX { Error::ArithmeticError } else { Error::InvalidRatio })
        } else {
            Ok(p)
        }
    }
}

/// A basis-point alpha config converted and validated, or the error.
pub open spec fn alpha_config_check(c: AlphaMarketParamsConfig) -> Result<AlphaMarketParams, Error> {
    if !alpha_config_valid(c) {
        Err(Error::InvalidParam)
    } else if !alpha_params_valid(alpha_params_of(c)) {
        Err(Error::InvalidRatio)
    } else {
        Ok(alpha_params_of(c))
    }
}

/// A basis-point global config converted and validated, or the error.
pub open spec fn global_config_check(c: PoolGlobalParamsConfig) -> Result<PoolGlobalParams, Error> {
    if !global_config_valid(c) {
        Err(Error::InvalidParam)
    } else if !global_params_valid(global_params_of(c)) {
        Err(Error::InvalidRatio)
    } else {
        Ok(global_params_of(c))
    }
}

/// Converts and validates an interest-rate config, as [`interest_config_check`] states.
pub fn check_interest_config(c: InterestRateParamsConfig) -> (r: Result<InterestRateParams, Error>)
    ensures
        r == interest_config_check(c),
{
    let p = match interest_params_from_config(c) {
        Ok(p) => p,
        Err(e) => return Err(e),
    };
    match validate_interest_params(&p) {
        Ok(()) => Ok(p),
        Err(e) => Err(e),
    }
}

/// Converts and validates an alpha config, as [`alpha_config_check`] states.
pub fn check_alpha_config(c: AlphaMarketParamsConfig) -> (r: Result<AlphaMarketParams, Error>)
    ensures
        r == alpha_config_check(c),
{
    let p = match alpha_params_from_config(c) {
        Ok(p) => p,
        Err(e) => return Err(e),
    };
    match validate_alpha_params(&p) {
        Ok(()) => Ok(p),
        Err(e) => Err(e),
    }
}

/// Converts and validates a global config, as [`global_config_check`] states.
pub fn check_global_config(c: PoolGlobalParamsConfig) -> (r: Result<PoolGlobalParams, Error>)
    ensures
        r == global_config_check(c),
{
    let p = match global_params_from_config(c) {
        Ok(p) => p,
        Err(e) => return Err(e),
    };
    match validate_global_params(&p) {
        Ok(()) => Ok(p),
        Err(e) => Err(e),
    }
}

/// Whether `caller` holds the maintainer role (the maintainer or governance).
pub open spec fn is_maintainer(v: PoolView, caller: AccountId) -> bool {
    caller == v.maintainer || caller == v.governance
}

/// The pending interest-rate update of market `m`.
pub open spec fn pending_market(v: PoolView, m: u8) -> Option<PendingInterestParamsUpdate> {
    if m == 0 { v.pending_params_tao } else if m == 1 { v.pending_params_tusdt } else { None }
}

/// The state with the pending interest-rate update of market `m` (0 or 1) set to `p`.
pub open spec fn with_pending_market(v: PoolView, m: u8, p: Option<PendingInterestParamsUpdate>) -> PoolView {
    if m == 0 { PoolView { pending_params_tao: p, ..v } } else { PoolView { pending_params_tusdt: p, ..v } }
}

/// The state with the interest-rate curve of market `m` (0 or 1) set to `p`.
pub open spec fn with_rate_params(v: PoolView, m: u8, p: InterestRateParams) -> PoolView {
    if m == 0 { PoolView { params_tao: p, ..v } } else { PoolView { params_tusdt: p, ..v } }
}

/// Accrual of both supply/borrow markets.
pub open spec fn accrue_both_spec(v: PoolView, env: PoolEnv) -> Outcome {
    if v.paused {
        fail(Seq::empty(), Error::ContractPaused)
    } else if v.busy {
        fail(Seq::empty(), Error::Reentrancy)
    } else {
        match accrue_outcome(PoolView { busy: true, ..v }, env, 0) {
            Err(e) => fail(Seq::empty(), e),
            Ok((v1, ev0)) => match accrue_outcome(v1, env, 1) {
                Err(e) => fail(accrual_effects(ev0), e),
                Ok((v2, ev1)) => Ok((PoolView { busy: false, ..v2 }, accrual_effects(ev0) + accrual_effects(ev1))),
            },
        }
    }
}

/// A claim of market `m`'s reserve for the treasury, capped at the claimable cash (for TAO the
/// free balance above `stake_buffer`).
pub open spec fn claim_reserve_spec(v: PoolView, env: PoolEnv, m: u8) -> Outcome {
    if v.busy {
        fail(Seq::empty(), Error::Reentrancy)
    } else {
        match accrue_outcome(PoolView { busy: true, ..v }, env, m) {
            Err(e) => fail(Seq::empty(), e),
            Ok((v1, ev)) => {
                let pre = accrual_effects(ev);
                if m >= 2 {
                    fail(pre, Error::MarketNotFound)
                } else {
                    let s = v1.market(m).unwrap();
                    let cash: int = if m == 0 {
                        if env.native_balance > v1.stake_buffer { env.native_balance - v1.stake_buffer } else { 0 }
                    } else {
                        env.tusdt_balance as int
                    };
                    let claim = if s.reserve_accrued <= cash { s.reserve_accrued as int } else { cash };
                    if claim == 0 {
                        Ok((PoolView { busy: false, ..v1 }, pre))
                    } else {
                        let v2 = v1.with_market(m, MarketState { reserve_accrued: (s.reserve_accrued - claim) as u64, ..s });
                        let pay = if m == 0 {
                            PoolEffect::TransferNative { to: v1.treasury, amount: claim as u64 }
                        } else {
                            PoolEffect::TusdtTransfer { to: v1.treasury, amount: claim as u64 }
                        };
                        Ok((
                            PoolView { busy: false, ..v2 },
                            pre + seq![pay, PoolEffect::Emit(PoolEvent::ReserveClaimed(ReserveClaimed { market: m, amount: claim as u64 }))],
                        ))
                    }
                }
            },
        }
    }
}

/// Approving (`approved`) or removing `netuid` as an alpha market.
pub open spec fn set_approved_netuid_spec(v: PoolView, caller: AccountId, netuid: u16, approved: bool) -> Outcome {
    if !is_maintainer(v, caller) {
        fail(Seq::empty(), Error::NotMaintainer)
    } else if approved {
        if v.netuid_to_market.contains_key(netuid) {
            Ok((v, Seq::empty()))
        } else if v.next_alpha_market_id == u8::MAX {
            fail(Seq::empty(), Error::ArithmeticError)
        } else {
            let id = v.next_alpha_market_id;
            announced(
                PoolView {
                    netuid_to_market: v.netuid_to_market.insert(netuid, id),
                    market_to_netuid: v.market_to_netuid.insert(id, netuid),
                    market_keys: v.market_keys.push(id),
                    next_alpha_market_id: (id + 1) as u8,
                    ..v
                },
                PoolEvent::NetuidApproved(NetuidApproved { netuid, approved: true, market_id: Some(id) }),
            )
        }
    } else if !v.netuid_to_market.contains_key(netuid) {
        Ok((v, Seq::empty()))
    } else if v.total_collateral(netuid) > 0 {
        fail(Seq::empty(), Error::NetuidHasPositions)
    } else {
        announced(
            PoolView {
                netuid_to_market: v.netuid_to_market.remove(netuid),
                market_to_netuid: v.market_to_netuid.remove(v.netuid_to_market[netuid]),
                ..v
            },
            PoolEvent::NetuidApproved(NetuidApproved { netuid, approved: false, market_id: None }),
        )
    }
}

/// The moves of all available stake from `old_hotkey` to `new_hotkey` over `netuids`, after
/// the moves `acc`; a failed availability query stops with `ChainExtensionFailed`.
pub open spec fn hotkey_moves(env: PoolEnv, old_hotkey: AccountId, new_hotkey: AccountId, netuids: Seq<u16>, acc: Seq<PoolEffect>) -> Result<Seq<PoolEffect>, (Seq<PoolEffect>, Error)>
    decreases netuids.len(),
{
    if netuids.len() == 0 {
        Ok(acc)
    } else {
        match assoc_lookup(env.stake_available@, netuids[0]) {
            None => Err((acc, Error::ChainExtensionFailed)),
            Some(a) => hotkey_moves(
                env,
                old_hotkey,
                new_hotkey,
                netuids.drop_first(),
                if a > 0 {
                    acc.push(PoolEffect::MoveStake { from_hotkey: old_hotkey, to_hotkey: new_hotkey, netuid: netuids[0], amount: a })
                } else {
                    acc
                },
            ),
        }
    }
}

/// Migration of the pool's staking hotkey to `new_hotkey`, moving all available stake of
/// `netuids` (at most 32).
pub open spec fn update_pool_hotkey_spec(v: PoolView, env: PoolEnv, new_hotkey: AccountId, netuids: Seq<u16>) -> Outcome {
    if !is_maintainer(v, env.caller) {
        fail(Seq::empty(), Error::NotMaintainer)
    } else if netuids.len() > 32 {
        fail(Seq::empty(), Error::TooManyNetuids)
    } else {
        match hotkey_moves(env, v.pool_hotkey, new_hotkey, netuids, Seq::empty()) {
            Err((att, e)) => fail(att, e),
            Ok(moves) => Ok((
                PoolView { pool_hotkey: new_hotkey, ..v },
                moves.push(PoolEffect::Emit(PoolEvent::PoolHotkeyChanged(PoolHotkeyChanged { old_hotkey: v.pool_hotkey, new_hotkey }))),
            )),
        }
    }
}

/// A market's committed claims on its cash: supplier face value (0 when it does not fit a
/// `Balance`) plus the accrued reserve.
pub open spec fn obligations_spec(v: PoolView, m: u8) -> Result<Balance, Error> {
    if m >= 2 {
        Err(Error::MarketNotFound)
    } else {
        let s = v.market(m).unwrap();
        let face = match supplied_face(s) { Some(f) => f, None => 0 };
        if face + s.reserve_accrued > u64::MAX { Err(Error::ArithmeticError) } else { Ok((face + s.reserve_accrued) as u64) }
    }
}

/// The free TAO the treasury sweep may take: the balance above the TAO market's obligations
/// (0 when they cannot be computed), `stake_buffer` and a 1-unit guard; `None` when nothing.
pub open spec fn sweepable_spec(v: PoolView, env: PoolEnv) -> Option<Balance> {
    let obligations: int = match obligations_spec(v, 0) { Ok(o) => o as int, Err(_) => 0 };
    let a = if env.native_balance > obligations { env.native_balance - obligations } else { 0 };
    let b = if a > v.stake_buffer { a - v.stake_buffer } else { 0 };
    if b <= 1 { None } else { Some((b - 1) as u64) }
}

/// A sweep of surplus TUSDT (cash above the market's obligations), up to `amount`, to the
/// treasury.
pub open spec fn claim_surplus_spec(v: PoolView, env: PoolEnv, amount: Balance) -> Outcome {
    if !is_maintainer(v, env.caller) {
        fail(Seq::empty(), Error::NotMaintainer)
    } else if v.busy {
        fail(Seq::empty(), Error::Reentrancy)
    } else {
        match accrue_outcome(PoolView { busy: true, ..v }, env, 1) {
            Err(e) => fail(Seq::empty(), e),
            Ok((v1, ev)) => match obligations_spec(v1, 1) {
                Err(e) => fail(accrual_effects(ev), e),
                Ok(ob) => {
                    let free = if env.tusdt_balance > ob { env.tusdt_balance - ob } else { 0 };
                    let claim = if amount <= free { amount as int } else { free };
                    if claim == 0 {
                        Ok((PoolView { busy: false, ..v1 }, accrual_effects(ev)))
                    } else {
                        Ok((
                            PoolView { busy: false, ..v1 },
                            accrual_effects(ev) + seq![
                                PoolEffect::TusdtTransfer { to: v1.treasury, amount: claim as u64 },
                                PoolEffect::Emit(PoolEvent::PoolSurplusTusdtClaimed(PoolSurplusTusdtClaimed { recipient: v1.treasury, amount: claim as u64 })),
                            ],
                        ))
                    }
                },
            },
        }
    }
}

/// A sweep of free TAO above the obligations, the staking sleeve and a 1-unit guard to the
/// treasury.
pub open spec fn native_to_treasury_spec(v: PoolView, env: PoolEnv) -> Outcome {
    if !is_maintainer(v, env.caller) {
        fail(Seq::empty(), Error::NotMaintainer)
    } else {
        match accrue_outcome(v, env, 0) {
            Err(e) => fail(Seq::empty(), e),
            Ok((v1, ev)) => match sweepable_spec(v1, env) {
                None => Ok((v1, accrual_effects(ev))),
                Some(a) => Ok((
                    v1,
                    accrual_effects(ev) + seq![
                        PoolEffect::TransferNative { to: v1.treasury, amount: a },
                        PoolEffect::Emit(PoolEvent::PoolNativeTransferredToTreasury(PoolNativeTransferredToTreasury { amount: a })),
                    ],
                )),
            },
        }
    }
}

/// A new root-staking configuration; a hotkey change with stake booked first unstakes it all.
pub open spec fn root_stake_config_spec(
    v: PoolView,
    env: PoolEnv,
    root_hotkey: AccountId,
    staking_enabled: bool,
    stake_buffer: Balance,
    sweep_threshold: Balance,
    stake_floor: Balance,
) -> Outcome {
    if env.caller != v.governance {
        fail(Seq::empty(), Error::NotGovernance)
    } else if stake_floor < MIN_ROOT_STAKE_FLOOR || stake_buffer < stake_floor {
        fail(Seq::empty(), Error::InvalidParam)
    } else {
        let unstaked: Result<(PoolView, Seq<PoolEffect>), (Seq<PoolEffect>, Error)> = if v.staked_tao > 0 && root_hotkey != v.root_hotkey {
            if v.busy {
                Err((Seq::empty(), Error::Reentrancy))
            } else {
                match top_up_spec(PoolView { busy: true, ..v }, env, v.staked_tao) {
                    Err(e) => Err((Seq::empty(), e)),
                    Ok((got, v2, effs)) => if got < v.staked_tao {
                        Err((effs, Error::LiquidityInsufficient))
                    } else {
                        Ok((PoolView { busy: false, ..v2 }, effs))
                    },
                }
            }
        } else {
            Ok((v, Seq::empty()))
        };
        match unstaked {
            Err((att, e)) => fail(att, e),
            Ok((v2, effs)) => Ok((
                PoolView { root_hotkey, staking_enabled, stake_buffer, sweep_threshold, stake_floor, ..v2 },
                effs.push(PoolEffect::Emit(PoolEvent::RootStakeConfigUpdated(RootStakeConfigUpdated {
                    root_hotkey,
                    staking_enabled,
                    stake_buffer,
                    sweep_threshold,
                    stake_floor,
                }))),
            )),
        }
    }
}

/// The keeper sweep of idle TAO into root stake.
pub open spec fn sweep_spec(v: PoolView, env: PoolEnv) -> Outcome {
    if v.paused {
        fail(Seq::empty(), Error::ContractPaused)
    } else if v.busy {
        fail(Seq::empty(), Error::Reentrancy)
    } else {
        match sweep_excess(v, env) {
            None => Ok((v, Seq::empty())),
            Some(x) => {
                let stake = seq![PoolEffect::AddRootStake { hotkey: v.root_hotkey, amount: x }];
                if v.staked_tao + x > u64::MAX {
                    fail(stake, Error::ArithmeticError)
                } else {
                    Ok((
                        PoolView { last_sweep_block: Some(env.block), staked_tao: (v.staked_tao + x) as u64, ..v },
                        stake.push(PoolEffect::Emit(PoolEvent::StakedIdleTao(StakedIdleTao { amount: x }))),
                    ))
                }
            },
        }
    }
}

impl TusdtLendingPool {
    /// Accrues interest on both supply/borrow markets (permissionless), as
    /// [`accrue_both_spec`] states.
    pub fn accrue_market_interest(&mut self, env: &PoolEnv) -> (r: PoolResult)
        ensures
            settled(old(self)@, final(self)@, r, accrue_both_spec(old(self)@, *env)),
    {
        if self.paused {
            return refusal(Error::ContractPaused);
        }
        if self.busy {
            return refusal(Error::Reentrancy);
        }
        let saved = self.snapshot();
        self.busy = true;
        let mut effects: Vec<PoolEffect> = Vec::new();
        match self.accrue_into(env, 0, &mut effects) {
            Ok(()) => {},
            Err(e) => {
                *self = saved;
                return refusal(e);
            },
        }
        match self.accrue_into(env, 1, &mut effects) {
            Ok(()) => {},
            Err(e) => {
                *self = saved;
                return failure(effects, e);
            },
        }
        self.busy = false;
        Ok(effects)
    }

    /// Claims market `market_id`'s accrued reserve for the treasury (permissionless), as
    /// [`claim_reserve_spec`] states.
    pub fn claim_reserve(&mut self, env: &PoolEnv, market_id: u8) -> (r: PoolResult)
        ensures
            settled(old(self)@, final(self)@, r, claim_reserve_spec(old(self)@, *env, market_id)),
    {
        if self.busy {
            return refusal(Error::Reentrancy);
        }
        let saved = self.snapshot();
        self.busy = true;
        let mut effects: Vec<PoolEffect> = Vec::new();
        match self.accrue_into(env, market_id, &mut effects) {
            Ok(()) => {},
            Err(e) => {
                *self = saved;
                return refusal(e);
            },
        }
        if market_id >= 2 {
            *self = saved;
            return failure(effects, Error::MarketNotFound);
        }
        let ghost pre = effects@;
        let s = self.market_state(market_id);
        let cash = if market_id == 0 {
            env.native_balance.saturating_sub(self.stake_buffer)
        } else {
            env.tusdt_balance
        };
        let claim = reserve_claimable(s.reserve_accrued, cash);
        if claim == 0 {
            self.busy = false;
            return Ok(effects);
        }
        self.store_market(market_id, MarketState { reserve_accrued: s.reserve_accrued - claim, ..s });
        if market_id == 0 {
            effects.push(PoolEffect::TransferNative { to: self.treasury, amount: claim });
        } else {
            effects.push(PoolEffect::TusdtTransfer { to: self.treasury, amount: claim });
        }
        effects.push(PoolEffect::Emit(PoolEvent::ReserveClaimed(ReserveClaimed { market: market_id, amount: claim })));
        self.busy = false;
        assert(effects@ =~= claim_reserve_spec(old(self)@, *env, market_id)->Ok_0.1);
        Ok(effects)
    }

    /// Approves (`approved`) or removes `netuid` as an alpha market, as
    /// [`set_approved_netuid_spec`] states. Maintainer only.
    pub fn set_approved_netuid(&mut self, caller: AccountId, netuid: u16, approved: bool) -> (r: PoolResult)
        ensures
            settled(old(self)@, final(self)@, r, set_approved_netuid_spec(old(self)@, caller, netuid, approved)),
    {
        match self.ensure_maintainer(caller) {
            Ok(()) => {},
            Err(e) => return refusal(e),
        }
        let mut effects: Vec<PoolEffect> = Vec::new();
        if approved {
            if self.netuid_to_market.get(&netuid).is_some() {
                return Ok(effects);
            }
            let market_id = self.next_alpha_market_id;
            if market_id == u8::MAX {
                return refusal(Error::ArithmeticError);
            }
            self.netuid_to_market.insert(netuid, market_id);
            self.market_to_netuid.insert(market_id, netuid);
            self.market_keys.push(market_id);
            self.next_alpha_market_id = market_id + 1;
            effects.push(PoolEffect::Emit(PoolEvent::NetuidApproved(NetuidApproved { netuid, approved: true, market_id: Some(market_id) })));
        } else {
            let market_id = match self.netuid_to_market.get(&netuid) {
                Some(m) => *m,
                None => return Ok(effects),
            };
            if self.total_collateral_or_zero(netuid) > 0 {
                return refusal(Error::NetuidHasPositions);
            }
            self.netuid_to_market.remove(&netuid);
            self.market_to_netuid.remove(&market_id);
            effects.push(PoolEffect::Emit(PoolEvent::NetuidApproved(NetuidApproved { netuid, approved: false, market_id: None })));
        }
        assert(effects@ =~= set_approved_netuid_spec(old(self)@, caller, netuid, approved)->Ok_0.1);
        Ok(effects)
    }

    /// Schedules new alpha params for an approved `netuid`, executable after the timelock.
    /// Maintainer only.
    pub fn set_alpha_params(&mut self, caller: AccountId, now: u64, netuid: u16, config: AlphaMarketParamsConfig) -> (r: PoolResult)
        ensures
            settled(old(self)@, final(self)@, r, if !is_maintainer(old(self)@, caller) {
                fail(Seq::empty(), Error::NotMaintainer)
            } else if !old(self)@.netuid_to_market.contains_key(netuid) {
                fail(Seq::empty(), Error::UnapprovedNetuid)
            } else if alpha_config_check(config) is Err {
                fail(Seq::empty(), alpha_config_check(config)->Err_0)
            } else if now + PARAMS_TIMELOCK_MS > u64::MAX {
                fail(Seq::empty(), Error::ArithmeticError)
            } else {
                announced(
                    PoolView {
                        pending_alpha_params: old(self)@.pending_alpha_params.insert(netuid, PendingAlphaParamsUpdate { params: config, execute_after: (now + PARAMS_TIMELOCK_MS) as u64 }),
                        ..old(self)@
                    },
                    PoolEvent::AlphaParamsUpdateScheduled(AlphaParamsUpdateScheduled { netuid, execute_after: (now + PARAMS_TIMELOCK_MS) as u64 }),
                )
            }),
    {
        match self.ensure_maintainer(caller) {
            Ok(()) => {},
            Err(e) => return refusal(e),
        }
        match self.ensure_approved_netuid(netuid) {
            Ok(()) => {},
            Err(e) => return refusal(e),
        }
        match check_alpha_config(config) {
            Ok(_) => {},
            Err(e) => return refusal(e),
        }
        let execute_after = match now.checked_add(PARAMS_TIMELOCK_MS) {
            Some(t) => t,
            None => return refusal(Error::ArithmeticError),
        };
        self.pending_alpha_params.insert(netuid, PendingAlphaParamsUpdate { params: config, execute_after });
        let mut effects: Vec<PoolEffect> = Vec::new();
        effects.push(PoolEffect::Emit(PoolEvent::AlphaParamsUpdateScheduled(AlphaParamsUpdateScheduled { netuid, execute_after })));
        Ok(effects)
    }

    /// Applies the pending alpha params of `netuid` once its timelock has passed
    /// (permissionless).
    pub fn execute_alpha_params_update(&mut self, now: u64, netuid: u16) -> (r: PoolResult)
        ensures
            settled(old(self)@, final(self)@, r, if !old(self)@.pending_alpha_params.contains_key(netuid) {
                fail(Seq::empty(), Error::NoPendingAlphaParamsUpdate)
            } else if now < old(self)@.pending_alpha_params[netuid].execute_after {
                fail(Seq::empty(), Error::ParamsUpdateTimelockActive)
            } else if alpha_config_check(old(self)@.pending_alpha_params[netuid].params) is Err {
                fail(Seq::empty(), alpha_config_check(old(self)@.pending_alpha_params[netuid].params)->Err_0)
            } else {
                announced(
                    PoolView {
                        alpha_params: old(self)@.alpha_params.insert(netuid, alpha_config_check(old(self)@.pending_alpha_params[netuid].params)->Ok_0),
                        pending_alpha_params: old(self)@.pending_alpha_params.remove(netuid),
                        ..old(self)@
                    },
                    PoolEvent::AlphaParamsUpdated(AlphaParamsUpdated { netuid }),
                )
            }),
    {
        let pending = match self.pending_alpha_params.get(&netuid) {
            Some(p) => *p,
            None => return refusal(Error::NoPendingAlphaParamsUpdate),
        };
        if now < pending.execute_after {
            return refusal(Error::ParamsUpdateTimelockActive);
        }
        let params = match check_alpha_config(pending.params) {
            Ok(p) => p,
            Err(e) => return refusal(e),
        };
        self.alpha_params.insert(netuid, params);
        self.pending_alpha_params.remove(&netuid);
        let mut effects: Vec<PoolEffect> = Vec::new();
        effects.push(PoolEffect::Emit(PoolEvent::AlphaParamsUpdated(AlphaParamsUpdated { netuid })));
        Ok(effects)
    }

    /// Cancels the pending alpha params of `netuid`. Maintainer only.
    pub fn cancel_alpha_params_update(&mut self, caller: AccountId, netuid: u16) -> (r: PoolResult)
        ensures
            settled(old(self)@, final(self)@, r, if !is_maintainer(old(self)@, caller) {
                fail(Seq::empty(), Error::NotMaintainer)
            } else if !old(self)@.pending_alpha_params.contains_key(netuid) {
                fail(Seq::empty(), Error::NoPendingAlphaParamsUpdate)
            } else {
                announced(
                    PoolView { pending_alpha_params: old(self)@.pending_alpha_params.remove(netuid), ..old(self)@ },
                    PoolEvent::AlphaParamsUpdateCancelled(AlphaParamsUpdateCancelled { netuid }),
                )
            }),
    {
        match self.ensure_maintainer(caller) {
            Ok(()) => {},
            Err(e) => return refusal(e),
        }
        if self.pending_alpha_params.get(&netuid).is_none() {
            return refusal(Error::NoPendingAlphaParamsUpdate);
        }
        self.pending_alpha_params.remove(&netuid);
        let mut effects: Vec<PoolEffect> = Vec::new();
        effects.push(PoolEffect::Emit(PoolEvent::AlphaParamsUpdateCancelled(AlphaParamsUpdateCancelled { netuid })));
        Ok(effects)
    }

    /// Schedules a new interest-rate curve for market `market_id` (0 or 1), executable after the
    /// timelock. Maintainer only.
    pub fn set_market_params(&mut self, caller: AccountId, now: u64, market_id: u8, config: InterestRateParamsConfig) -> (r: PoolResult)
        ensures
            settled(old(self)@, final(self)@, r, if !is_maintainer(old(self)@, caller) {
                fail(Seq::empty(), Error::NotMaintainer)
            } else if market_id > 1 {
                fail(Seq::empty(), Error::MarketNotFound)
            } else if interest_config_check(config) is Err {
                fail(Seq::empty(), interest_config_check(config)->Err_0)
            } else if now + PARAMS_TIMELOCK_MS > u64::MAX {
                fail(Seq::empty(), Error::ArithmeticError)
            } else {
                announced(
                    with_pending_market(old(self)@, market_id, Some(PendingInterestParamsUpdate { params: config, execute_after: (now + PARAMS_TIMELOCK_MS) as u64 })),
                    PoolEvent::MarketParamsUpdateScheduled(MarketParamsUpdateScheduled { market: market_id, execute_after: (now + PARAMS_TIMELOCK_MS) as u64 }),
                )
            }),
    {
        match self.ensure_maintainer(caller) {
            Ok(()) => {},
            Err(e) => return refusal(e),
        }
        if market_id > 1 {
            return refusal(Error::MarketNotFound);
        }
        match check_interest_config(config) {
            Ok(_) => {},
            Err(e) => return refusal(e),
        }
        let execute_after = match now.checked_add(PARAMS_TIMELOCK_MS) {
            Some(t) => t,
            None => return refusal(Error::ArithmeticError),
        };
        let pending = Some(PendingInterestParamsUpdate { params: config, execute_after });
        if market_id == 0 {
            self.pending_params_tao = pending;
        } else {
            self.pending_params_tusdt = pending;
        }
        let mut effects: Vec<PoolEffect> = Vec::new();
        effects.push(PoolEffect::Emit(PoolEvent::MarketParamsUpdateScheduled(MarketParamsUpdateScheduled { market: market_id, execute_after })));
        Ok(effects)
    }

    /// Applies the pending interest-rate curve of market `market_id` once its timelock has
    /// passed (permissionless).
    pub fn execute_market_params_update(&mut self, now: u64, market_id: u8) -> (r: PoolResult)
        ensures
            settled(old(self)@, final(self)@, r, match pending_market(old(self)@, market_id) {
                None => fail(Seq::empty(), Error::NoPendingMarketParamsUpdate),
                Some(p) => if now < p.execute_after {
                    fail(Seq::empty(), Error::ParamsUpdateTimelockActive)
                } else {
                    match interest_config_check(p.params) {
                        Err(e) => fail(Seq::empty(), e),
                        Ok(params) => announced(
                            with_pending_market(with_rate_params(old(self)@, market_id, params), market_id, None),
                            PoolEvent::MarketParamsUpdated(MarketParamsUpdated { market: market_id }),
                        ),
                    }
                },
            }),
    {
        let pending = if market_id == 0 {
            self.pending_params_tao
        } else if market_id == 1 {
            self.pending_params_tusdt
        } else {
            None
        };
        let p = match pending {
            Some(p) => p,
            None => return refusal(Error::NoPendingMarketParamsUpdate),
        };
        if now < p.execute_after {
            return refusal(Error::ParamsUpdateTimelockActive);
        }
        let params = match check_interest_config(p.params) {
            Ok(x) => x,
            Err(e) => return refusal(e),
        };
        if market_id == 0 {
            self.params_tao = params;
            self.pending_params_tao = None;
        } else {
            self.params_tusdt = params;
            self.pending_params_tusdt = None;
        }
        let mut effects: Vec<PoolEffect> = Vec::new();
        effects.push(PoolEffect::Emit(PoolEvent::MarketParamsUpdated(MarketParamsUpdated { market: market_id })));
        Ok(effects)
    }

    /// Cancels the pending interest-rate curve of market `market_id`. Maintainer only.
    pub fn cancel_market_params_update(&mut self, caller: AccountId, market_id: u8) -> (r: PoolResult)
        ensures
            settled(old(self)@, final(self)@, r, if !is_maintainer(old(self)@, caller) {
                fail(Seq::empty(), Error::NotMaintainer)
            } else if pending_market(old(self)@, market_id) is None {
                fail(Seq::empty(), Error::NoPendingMarketParamsUpdate)
            } else {
                announced(
                    with_pending_market(old(self)@, market_id, None),
                    PoolEvent::MarketParamsUpdateCancelled(MarketParamsUpdateCancelled { market: market_id }),
                )
            }),
    {
        match self.ensure_maintainer(caller) {
            Ok(()) => {},
            Err(e) => return refusal(e),
        }
        if market_id == 0 && self.pending_params_tao.is_some() {
            self.pending_params_tao = None;
        } else if market_id == 1 && self.pending_params_tusdt.is_some() {
            self.pending_params_tusdt = None;
        } else {
            return refusal(Error::NoPendingMarketParamsUpdate);
        }
        let mut effects: Vec<PoolEffect> = Vec::new();
        effects.push(PoolEffect::Emit(PoolEvent::MarketParamsUpdateCancelled(MarketParamsUpdateCancelled { market: market_id })));
        Ok(effects)
    }

    /// Schedules new global params, executable after the timelock. Maintainer only.
    pub fn set_global_params(&mut self, caller: AccountId, now: u64, config: PoolGlobalParamsConfig) -> (r: PoolResult)
        ensures
            settled(old(self)@, final(self)@, r, if !is_maintainer(old(self)@, caller) {
                fail(Seq::empty(), Error::NotMaintainer)
            } else if global_config_check(config) is Err {
                fail(Seq::empty(), global_config_check(config)->Err_0)
            } else if now + PARAMS_TIMELOCK_MS > u64::MAX {
                fail(Seq::empty(), Error::ArithmeticError)
            } else {
                announced(
                    PoolView { pending_global_params: Some(PendingGlobalParamsUpdate { params: config, execute_after: (now + PARAMS_TIMELOCK_MS) as u64 }), ..old(self)@ },
                    PoolEvent::GlobalParamsUpdateScheduled(GlobalParamsUpdateScheduled { execute_after: (now + PARAMS_TIMELOCK_MS) as u64 }),
                )
            }),
    {
        match self.ensure_maintainer(caller) {
            Ok(()) => {},
            Err(e) => return refusal(e),
        }
        match check_global_config(config) {
            Ok(_) => {},
            Err(e) => return refusal(e),
        }
        let execute_after = match now.checked_add(PARAMS_TIMELOCK_MS) {
            Some(t) => t,
            None => return refusal(Error::ArithmeticError),
        };
        self.pending_global_params = Some(PendingGlobalParamsUpdate { params: config, execute_after });
        let mut effects: Vec<PoolEffect> = Vec::new();
        effects.push(PoolEffect::Emit(PoolEvent::GlobalParamsUpdateScheduled(GlobalParamsUpdateScheduled { execute_after })));
        Ok(effects)
    }

    /// Applies the pending global params once the timelock has passed (permissionless).
    pub fn execute_global_params_update(&mut self, now: u64) -> (r: PoolResult)
        ensures
            settled(old(self)@, final(self)@, r, match old(self)@.pending_global_params {
                None => fail(Seq::empty(), Error::NoPendingGlobalParamsUpdate),
                Some(p) => if now < p.execute_after {
                    fail(Seq::empty(), Error::ParamsUpdateTimelockActive)
                } else {
                    match global_config_check(p.params) {
                        Err(e) => fail(Seq::empty(), e),
                        Ok(params) => announced(
                            PoolView { global_params: params, pending_global_params: None, ..old(self)@ },
                            PoolEvent::GlobalParamsUpdated(GlobalParamsUpdated {}),
                        ),
                    }
                },
            }),
    {
        let p = match self.pending_global_params {
            Some(p) => p,
            None => return refusal(Error::NoPendingGlobalParamsUpdate),
        };
        if now < p.execute_after {
            return refusal(Error::ParamsUpdateTimelockActive);
        }
        let params = match check_global_config(p.params) {
            Ok(x) => x,
            Err(e) => return refusal(e),
        };
        self.global_params = params;
        self.pending_global_params = None;
        let mut effects: Vec<PoolEffect> = Vec::new();
        effects.push(PoolEffect::Emit(PoolEvent::GlobalParamsUpdated(GlobalParamsUpdated {})));
        Ok(effects)
    }

    /// Cancels the pending global params. Maintainer only.
    pub fn cancel_global_params_update(&mut self, caller: AccountId) -> (r: PoolResult)
        ensures
            settled(old(self)@, final(self)@, r, if !is_maintainer(old(self)@, caller) {
                fail(Seq::empty(), Error::NotMaintainer)
            } else if old(self)@.pending_global_params is None {
                fail(Seq::empty(), Error::NoPendingGlobalParamsUpdate)
            } else {
                announced(
                    PoolView { pending_global_params: None, ..old(self)@ },
                    PoolEvent::GlobalParamsUpdateCancelled(GlobalParamsUpdateCancelled {}),
                )
            }),
    {
        match self.ensure_maintainer(caller) {
            Ok(()) => {},
            Err(e) => return refusal(e),
        }
        if self.pending_global_params.is_none() {
            return refusal(Error::NoPendingGlobalParamsUpdate);
        }
        self.pending_global_params = None;
        let mut effects: Vec<PoolEffect> = Vec::new();
        effects.push(PoolEffect::Emit(PoolEvent::GlobalParamsUpdateCancelled(GlobalParamsUpdateCancelled {})));
        Ok(effects)
    }

    /// Transfers the governance role. Governance only.
    pub fn update_governance(&mut self, caller: AccountId, new_governance: AccountId) -> (r: PoolResult)
        ensures
            settled(old(self)@, final(self)@, r, if caller != old(self)@.governance {
                fail(Seq::empty(), Error::NotGovernance)
            } else {
                announced(
                    PoolView { governance: new_governance, ..old(self)@ },
                    PoolEvent::PoolGovernanceUpdated(PoolGovernanceUpdated { previous: old(self)@.governance, new: new_governance }),
                )
            }),
    {
        match self.ensure_governance(caller) {
            Ok(()) => {},
            Err(e) => return refusal(e),
        }
        let previous = self.governance;
        self.governance = new_governance;
        let mut effects: Vec<PoolEffect> = Vec::new();
        effects.push(PoolEffect::Emit(PoolEvent::PoolGovernanceUpdated(PoolGovernanceUpdated { previous, new: new_governance })));
        Ok(effects)
    }

    /// Sets the maintainer role. Governance only.
    pub fn update_maintainer(&mut self, caller: AccountId, new_maintainer: AccountId) -> (r: PoolResult)
        ensures
            settled(old(self)@, final(self)@, r, if caller != old(self)@.governance {
                fail(Seq::empty(), Error::NotGovernance)
            } else {
                announced(
                    PoolView { maintainer: new_maintainer, ..old(self)@ },
                    PoolEvent::PoolMaintainerUpdated(PoolMaintainerUpdated { new_maintainer }),
                )
            }),
    {
        match self.ensure_governance(caller) {
            Ok(()) => {},
            Err(e) => return refusal(e),
        }
        self.maintainer = new_maintainer;
        let mut effects: Vec<PoolEffect> = Vec::new();
        effects.push(PoolEffect::Emit(PoolEvent::PoolMaintainerUpdated(PoolMaintainerUpdated { new_maintainer })));
        Ok(effects)
    }

    /// Sets the treasury account. Governance only.
    pub fn update_treasury(&mut self, caller: AccountId, new_treasury: AccountId) -> (r: PoolResult)
        ensures
            settled(old(self)@, final(self)@, r, if caller != old(self)@.governance {
                fail(Seq::empty(), Error::NotGovernance)
            } else {
                announced(
                    PoolView { treasury: new_treasury, ..old(self)@ },
                    PoolEvent::PoolTreasuryUpdated(PoolTreasuryUpdated { previous: old(self)@.treasury, new: new_treasury }),
                )
            }),
    {
        match self.ensure_governance(caller) {
            Ok(()) => {},
            Err(e) => return refusal(e),
        }
        let previous = self.treasury;
        self.treasury = new_treasury;
        let mut effects: Vec<PoolEffect> = Vec::new();
        effects.push(PoolEffect::Emit(PoolEvent::PoolTreasuryUpdated(PoolTreasuryUpdated { previous, new: new_treasury })));
        Ok(effects)
    }

    /// Sets the platform account. Maintainer only.
    pub fn update_platform(&mut self, caller: AccountId, new_platform: AccountId) -> (r: PoolResult)
        ensures
            settled(old(self)@, final(self)@, r, if !is_maintainer(old(self)@, caller) {
                fail(Seq::empty(), Error::NotMaintainer)
            } else {
                announced(
                    PoolView { platform: new_platform, ..old(self)@ },
                    PoolEvent::PoolPlatformUpdated(PoolPlatformUpdated { previous: old(self)@.platform, new: new_platform }),
                )
            }),
    {
        match self.ensure_maintainer(caller) {
            Ok(()) => {},
            Err(e) => return refusal(e),
        }
        let previous = self.platform;
        self.platform = new_platform;
        let mut effects: Vec<PoolEffect> = Vec::new();
        effects.push(PoolEffect::Emit(PoolEvent::PoolPlatformUpdated(PoolPlatformUpdated { previous, new: new_platform })));
        Ok(effects)
    }

    /// Points the pool at a new oracle contract. Maintainer only.
    pub fn update_oracle_address(&mut self, caller: AccountId, new_oracle: AccountId) -> (r: PoolResult)
        ensures
            settled(old(self)@, final(self)@, r, if !is_maintainer(old(self)@, caller) {
                fail(Seq::empty(), Error::NotMaintainer)
            } else {
                announced(
                    PoolView { oracle: new_oracle, ..old(self)@ },
                    PoolEvent::PoolOracleAddressUpdated(PoolOracleAddressUpdated { previous: old(self)@.oracle, new: new_oracle }),
                )
            }),
    {
        match self.ensure_maintainer(caller) {
            Ok(()) => {},
            Err(e) => return refusal(e),
        }
        let previous = self.oracle;
        self.oracle = new_oracle;
        let mut effects: Vec<PoolEffect> = Vec::new();
        effects.push(PoolEffect::Emit(PoolEvent::PoolOracleAddressUpdated(PoolOracleAddressUpdated { previous, new: new_oracle })));
        Ok(effects)
    }

    /// Replaces the lToken contract of market `market_id` (0 or 1). Maintainer only.
    pub fn update_ltoken_address(&mut self, caller: AccountId, market_id: u8, new_ltoken: AccountId) -> (r: PoolResult)
        ensures
            settled(old(self)@, final(self)@, r, if !is_maintainer(old(self)@, caller) {
                fail(Seq::empty(), Error::NotMaintainer)
            } else if market_id == 0 {
                announced(
                    PoolView { ltoken_tao: new_ltoken, ..old(self)@ },
                    PoolEvent::LTokenAddressUpdated(LTokenAddressUpdated { market: 0, old_ltoken: old(self)@.ltoken_tao, new_ltoken }),
                )
            } else if market_id == 1 {
                announced(
                    PoolView { ltoken_tusdt: new_ltoken, ..old(self)@ },
                    PoolEvent::LTokenAddressUpdated(LTokenAddressUpdated { market: 1, old_ltoken: old(self)@.ltoken_tusdt, new_ltoken }),
                )
            } else {
                fail(Seq::empty(), Error::MarketNotFound)
            }),
    {
        match self.ensure_maintainer(caller) {
            Ok(()) => {},
            Err(e) => return refusal(e),
        }
        let old_ltoken = if market_id == 0 {
            let o = self.ltoken_tao;
            self.ltoken_tao = new_ltoken;
            o
        } else if market_id == 1 {
            let o = self.ltoken_tusdt;
            self.ltoken_tusdt = new_ltoken;
            o
        } else {
            return refusal(Error::MarketNotFound);
        };
        let mut effects: Vec<PoolEffect> = Vec::new();
        effects.push(PoolEffect::Emit(PoolEvent::LTokenAddressUpdated(LTokenAddressUpdated { market: market_id, old_ltoken, new_ltoken })));
        Ok(effects)
    }

    /// Migrates the staking hotkey, moving all available stake of `netuids`, as
    /// [`update_pool_hotkey_spec`] states. Maintainer only.
    pub fn update_pool_hotkey(&mut self, env: &PoolEnv, new_hotkey: AccountId, netuids: Vec<u16>) -> (r: PoolResult)
        ensures
            settled(old(self)@, final(self)@, r, update_pool_hotkey_spec(old(self)@, *env, new_hotkey, netuids@)),
    {
        match self.ensure_maintainer(env.caller) {
            Ok(()) => {},
            Err(e) => return refusal(e),
        }
        if netuids.len() > 32 {
            return refusal(Error::TooManyNetuids);
        }
        let old_hotkey = self.pool_hotkey;
        let mut effects: Vec<PoolEffect> = Vec::new();
        let n = netuids.len();
        let mut i: usize = 0;
        assert(netuids@.skip(0) =~= netuids@);
        while i < n
            invariant
                n == netuids@.len(),
                i <= n,
                old_hotkey == old(self)@.pool_hotkey,
                self@ == old(self)@,
                is_maintainer(old(self)@, env.caller),
                n <= 32,
                hotkey_moves(*env, old_hotkey, new_hotkey, netuids@, Seq::empty())
                    == hotkey_moves(*env, old_hotkey, new_hotkey, netuids@.skip(i as int), effects@),
            decreases n - i,
        {
            let ghost rest = netuids@.skip(i as int);
            assert(rest.drop_first() =~= netuids@.skip(i + 1));
            let netuid = netuids[i];
            assert(rest[0] == netuid);
            let available = match lookup_u64(&env.stake_available, netuid) {
                Some(a) => a,
                None => {
                    return failure(effects, Error::ChainExtensionFailed);
                },
            };
            if available > 0 {
                effects.push(PoolEffect::MoveStake { from_hotkey: old_hotkey, to_hotkey: new_hotkey, netuid, amount: available });
            }
            i = i + 1;
        }
        assert(netuids@.skip(n as int).len() == 0);
        self.pool_hotkey = new_hotkey;
        effects.push(PoolEffect::Emit(PoolEvent::PoolHotkeyChanged(PoolHotkeyChanged { old_hotkey, new_hotkey })));
        Ok(effects)
    }

    /// Pauses the pool. Governance or platform only.
    pub fn pause(&mut self, caller: AccountId) -> (r: PoolResult)
        ensures
            settled(old(self)@, final(self)@, r, if caller != old(self)@.governance && caller != old(self)@.platform {
                fail(Seq::empty(), Error::NotGovernanceOrPlatform)
            } else {
                announced(PoolView { paused: true, ..old(self)@ }, PoolEvent::PoolPaused(PoolPaused {}))
            }),
    {
        match self.ensure_governance_or_platform(caller) {
            Ok(()) => {},
            Err(e) => return refusal(e),
        }
        self.paused = true;
        let mut effects: Vec<PoolEffect> = Vec::new();
        effects.push(PoolEffect::Emit(PoolEvent::PoolPaused(PoolPaused {})));
        Ok(effects)
    }

    /// Unpauses the pool. Maintainer only.
    pub fn unpause(&mut self, caller: AccountId) -> (r: PoolResult)
        ensures
            settled(old(self)@, final(self)@, r, if !is_maintainer(old(self)@, caller) {
                fail(Seq::empty(), Error::NotMaintainer)
            } else {
                announced(PoolView { paused: false, ..old(self)@ }, PoolEvent::PoolUnpaused(PoolUnpaused {}))
            }),
    {
        match self.ensure_maintainer(caller) {
            Ok(()) => {},
            Err(e) => return refusal(e),
        }
        self.paused = false;
        let mut effects: Vec<PoolEffect> = Vec::new();
        effects.push(PoolEffect::Emit(PoolEvent::PoolUnpaused(PoolUnpaused {})));
        Ok(effects)
    }

    /// A market's committed claims on its cash, as [`obligations_spec`] states.
    pub fn market_obligations(&self, market_id: u8) -> (r: Result<Balance, Error>)
        ensures
            r == obligations_spec(self@, market_id),
    {
        if market_id >= 2 {
            return Err(Error::MarketNotFound);
        }
        let s = self.market_state(market_id);
        let face = match super::compute_redeem_amount(s.total_supplied, s.exchange_rate) {
            Some(f) => f,
            None => 0,
        };
        match face.checked_add(s.reserve_accrued) {
            Some(x) => Ok(x),
            None => Err(Error::ArithmeticError),
        }
    }

    /// The free TAO the treasury sweep may take, as [`sweepable_spec`] states.
    pub fn treasury_sweepable(&self, env: &PoolEnv) -> (r: Option<Balance>)
        ensures
            r == sweepable_spec(self@, *env),
    {
        let obligations = match self.market_obligations(0) {
            Ok(o) => o,
            Err(_) => 0,
        };
        let sweepable = env.native_balance.saturating_sub(obligations).saturating_sub(self.stake_buffer);
        if sweepable <= 1 {
            return None;
        }
        Some(sweepable - 1)
    }

    /// Sweeps surplus TUSDT, up to `amount`, to the treasury, as [`claim_surplus_spec`] states.
    /// Maintainer only.
    pub fn claim_surplus_tusdt(&mut self, env: &PoolEnv, amount: Balance) -> (r: PoolResult)
        ensures
            settled(old(self)@, final(self)@, r, claim_surplus_spec(old(self)@, *env, amount)),
    {
        match self.ensure_maintainer(env.caller) {
            Ok(()) => {},
            Err(e) => return refusal(e),
        }
        if self.busy {
            return refusal(Error::Reentrancy);
        }
        let saved = self.snapshot();
        self.busy = true;
        let mut effects: Vec<PoolEffect> = Vec::new();
        match self.accrue_into(env, 1, &mut effects) {
            Ok(()) => {},
            Err(e) => {
                *self = saved;
                return refusal(e);
            },
        }
        let ghost pre = effects@;
        let obligations = match self.market_obligations(1) {
            Ok(o) => o,
            Err(e) => {
                *self = saved;
                return failure(effects, e);
            },
        };
        let free = env.tusdt_balance.saturating_sub(obligations);
        let claim = if amount <= free { amount } else { free };
        self.busy = false;
        if claim == 0 {
            return Ok(effects);
        }
        effects.push(PoolEffect::TusdtTransfer { to: self.treasury, amount: claim });
        effects.push(PoolEffect::Emit(PoolEvent::PoolSurplusTusdtClaimed(PoolSurplusTusdtClaimed { recipient: self.treasury, amount: claim })));
        assert(effects@ =~= claim_surplus_spec(old(self)@, *env, amount)->Ok_0.1);
        Ok(effects)
    }

    /// Sweeps free TAO above the obligations, the staking sleeve and a 1-unit guard to the
    /// treasury, as [`native_to_treasury_spec`] states. Maintainer only.
    pub fn transfer_native_to_treasury(&mut self, env: &PoolEnv) -> (r: PoolResult)
        ensures
            settled(old(self)@, final(self)@, r, native_to_treasury_spec(old(self)@, *env)),
    {
        match self.ensure_maintainer(env.caller) {
            Ok(()) => {},
            Err(e) => return refusal(e),
        }
        let mut effects: Vec<PoolEffect> = Vec::new();
        match self.accrue_into(env, 0, &mut effects) {
            Ok(()) => {},
            Err(e) => return refusal(e),
        }
        let ghost pre = effects@;
        match self.treasury_sweepable(env) {
            None => Ok(effects),
            Some(a) => {
                effects.push(PoolEffect::TransferNative { to: self.treasury, amount: a });
                effects.push(PoolEffect::Emit(PoolEvent::PoolNativeTransferredToTreasury(PoolNativeTransferredToTreasury { amount: a })));
                assert(effects@ =~= native_to_treasury_spec(old(self)@, *env)->Ok_0.1);
                Ok(effects)
            },
        }
    }

    /// Sets the root-staking configuration, as [`root_stake_config_spec`] states. Governance
    /// only.
    pub fn set_root_stake_config(
        &mut self,
        env: &PoolEnv,
        root_hotkey: AccountId,
        staking_enabled: bool,
        stake_buffer: Balance,
        sweep_threshold: Balance,
        stake_floor: Balance,
    ) -> (r: PoolResult)
        ensures
            settled(old(self)@, final(self)@, r, root_stake_config_spec(old(self)@, *env, root_hotkey, staking_enabled, stake_buffer, sweep_threshold, stake_floor)),
    {
        match self.ensure_governance(env.caller) {
            Ok(()) => {},
            Err(e) => return refusal(e),
        }
        if stake_floor < MIN_ROOT_STAKE_FLOOR || stake_buffer < stake_floor {
            return refusal(Error::InvalidParam);
        }
        let mut effects: Vec<PoolEffect> = Vec::new();
        if self.staked_tao > 0 && root_hotkey != self.root_hotkey {
            if self.busy {
                return refusal(Error::Reentrancy);
            }
            let saved = self.snapshot();
            self.busy = true;
            let booked = self.staked_tao;
            let got = match self.top_up_free(env, booked, &mut effects) {
                Ok(g) => g,
                Err(e) => {
                    *self = saved;
                    return refusal(e);
                },
            };
            if got < booked {
                *self = saved;
                return failure(effects, Error::LiquidityInsufficient);
            }
            self.busy = false;
        }
        self.root_hotkey = root_hotkey;
        self.staking_enabled = staking_enabled;
        self.stake_buffer = stake_buffer;
        self.sweep_threshold = sweep_threshold;
        self.stake_floor = stake_floor;
        effects.push(PoolEffect::Emit(PoolEvent::RootStakeConfigUpdated(RootStakeConfigUpdated {
            root_hotkey,
            staking_enabled,
            stake_buffer,
            sweep_threshold,
            stake_floor,
        })));
        Ok(effects)
    }

    /// Keeper message: stakes idle TAO into the root subnet, as [`sweep_spec`] states.
    pub fn sweep(&mut self, env: &PoolEnv) -> (r: PoolResult)
        ensures
            settled(old(self)@, final(self)@, r, sweep_spec(old(self)@, *env)),
    {
        if self.paused {
            return refusal(Error::ContractPaused);
        }
        if self.busy {
            return refusal(Error::Reentrancy);
        }
        let mut effects: Vec<PoolEffect> = Vec::new();
        let x = match self.sweep_plan(env) {
            Some(x) => x,
            None => return Ok(effects),
        };
        effects.push(PoolEffect::AddRootStake { hotkey: self.root_hotkey, amount: x });
        let staked = match self.staked_tao.checked_add(x) {
            Some(s) => s,
            None => return failure(effects, Error::ArithmeticError),
        };
        self.last_sweep_block = Some(env.block);
        self.staked_tao = staked;
        effects.push(PoolEffect::Emit(PoolEvent::StakedIdleTao(StakedIdleTao { amount: x })));
        Ok(effects)
    }
}

} // verus!

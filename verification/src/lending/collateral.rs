//! Alpha collateral: depositing stake, withdrawing it while the position stays healthy, and
//! recovering unbooked excess stake for the treasury.

use vstd::prelude::*;
use crate::ratio::RATIO_ONE;
use crate::types::{AccountId, Balance};
use super::{
    AlphaCollateralDeposited, AlphaCollateralWithdrawn, AlphaExcessClaimed, Error, PoolEffect,
    PoolEnv, PoolEvent, PoolFailure, PoolResult, Position, assoc_lookup, lookup_u64, pos_key,
    position_key,
};
use super::pool::{PoolView, TusdtLendingPool};
use super::risk::{health_factor_spec, collateral_scan, max_threshold_scan, collateral_value_spec, max_threshold_spec, debt_value_spec};
use super::ops::{Outcome, fail, reached, settled, settled_with, with_position, failure, refusal, host_error, carried_out};

verus! {

broadcast use vstd::std_specs::hash::group_hash_axioms;

/// The state with the booked collateral of `netuid` set to `b`.
pub open spec fn with_total_collateral(v: PoolView, netuid: u16, b: Balance) -> PoolView {
    PoolView { netuid_total_collateral: v.netuid_total_collateral.insert(netuid, b), ..v }
}

/// A deposit of `amount` alpha stake on `netuid` as collateral.
pub open spec fn deposit_alpha_spec(v: PoolView, env: PoolEnv, netuid: u16, amount: Balance) -> Outcome {
    let current = v.total_collateral(netuid);
    let cap = v.alpha_params_of(netuid).supply_cap;
    if v.paused {
        fail(Seq::empty(), Error::ContractPaused)
    } else if amount == 0 {
        fail(Seq::empty(), Error::ZeroAmount)
    } else if !v.netuid_to_market.contains_key(netuid) {
        fail(Seq::empty(), Error::UnapprovedNetuid)
    } else if cap > 0 && current + amount > u64::MAX {
        fail(Seq::empty(), Error::ArithmeticError)
    } else if cap > 0 && current + amount > cap {
        fail(Seq::empty(), Error::SupplyCapExceeded)
    } else if v.busy {
        fail(Seq::empty(), Error::Reentrancy)
    } else {
        let pull = seq![PoolEffect::CallerTransferStake { hotkey: v.pool_hotkey, netuid, amount }];
        let market_id = v.netuid_to_market[netuid];
        let pos = v.position(market_id, env.caller);
        if pos.alpha_principal + amount > u64::MAX || current + amount > u64::MAX {
            fail(pull, Error::ArithmeticError)
        } else {
            let v2 = with_total_collateral(
                with_position(v, market_id, env.caller, Position { alpha_principal: (pos.alpha_principal + amount) as u64, ..pos }),
                netuid,
                (current + amount) as u64,
            );
            Ok((
                v2,
                pull.push(PoolEffect::Emit(PoolEvent::AlphaCollateralDeposited(AlphaCollateralDeposited {
                    netuid,
                    user: env.caller,
                    amount,
                    market_id,
                }))),
            ))
        }
    }
}

/// A collateral deposit pulls the caller's stake first of all: when that pull fails, the
/// message ends with `StakeTransferFailed`, no effect has been carried out, and `settle` puts
/// the pool back, so nothing is booked.
pub proof fn law_failed_stake_pull_books_nothing(v: PoolView, env: PoolEnv, netuid: u16, amount: Balance)
    requires
        deposit_alpha_spec(v, env, netuid, amount) is Ok,
    ensures
        ({
            let effs = deposit_alpha_spec(v, env, netuid, amount)->Ok_0.1;
            &&& effs.len() > 0
            &&& effs[0] == (PoolEffect::CallerTransferStake { hotkey: v.pool_hotkey, netuid, amount })
            &&& host_error(effs, None, Some(0)) == Some(Error::StakeTransferFailed)
            &&& carried_out(effs, Some(0)).len() == 0
        }),
{
}

/// The state a withdrawal's health check is taken on: the position and the booked collateral
/// already reduced by `amount` (the key index untouched).
pub open spec fn withdraw_probe(v: PoolView, netuid: u16, market_id: u8, user: AccountId, amount: Balance) -> PoolView {
    let pos = v.position(market_id, user);
    PoolView {
        positions: v.positions.insert(pos_key(market_id, user), Position { alpha_principal: (pos.alpha_principal - amount) as u64, ..pos }),
        netuid_total_collateral: v.netuid_total_collateral.insert(netuid, (v.total_collateral(netuid) - amount) as u64),
        ..v
    }
}

/// A withdrawal of `amount` alpha collateral on `netuid` to `dest_coldkey`; refused when it
/// would leave a position with debt below a health factor of 1.0.
pub open spec fn withdraw_alpha_spec(v: PoolView, env: PoolEnv, netuid: u16, amount: Balance, dest_coldkey: AccountId) -> Outcome {
    if v.paused {
        fail(Seq::empty(), Error::ContractPaused)
    } else if amount == 0 {
        fail(Seq::empty(), Error::ZeroAmount)
    } else if v.busy {
        fail(Seq::empty(), Error::Reentrancy)
    } else if !v.netuid_to_market.contains_key(netuid) {
        fail(Seq::empty(), Error::UnapprovedNetuid)
    } else {
        let market_id = v.netuid_to_market[netuid];
        let pos = v.position(market_id, env.caller);
        let current = v.total_collateral(netuid);
        let has_debt = v.position(0, env.caller).scaled_debt > 0 || v.position(1, env.caller).scaled_debt > 0;
        if pos.alpha_principal < amount {
            fail(Seq::empty(), Error::InsufficientCollateral)
        } else {
            match assoc_lookup(env.stake_available@, netuid) {
                None => fail(Seq::empty(), Error::ChainExtensionFailed),
                Some(available) => if amount > available {
                    fail(Seq::empty(), Error::InsufficientAvailableStake)
                } else if current < amount {
                    fail(Seq::empty(), Error::ArithmeticError)
                } else {
                    let health = if has_debt {
                        health_factor_spec(withdraw_probe(PoolView { busy: true, ..v }, netuid, market_id, env.caller, amount), env, env.caller)
                    } else {
                        Ok(None)
                    };
                    match health {
                        Err(e) => fail(Seq::empty(), e),
                        Ok(h) => if h matches Some(hf) && hf.inner < RATIO_ONE {
                            fail(Seq::empty(), Error::HealthFactorBelowThreshold)
                        } else {
                            let v2 = with_total_collateral(
                                with_position(v, market_id, env.caller, Position { alpha_principal: (pos.alpha_principal - amount) as u64, ..pos }),
                                netuid,
                                (current - amount) as u64,
                            );
                            Ok((
                                v2,
                                seq![
                                    PoolEffect::TransferStake { dest: dest_coldkey, hotkey: v.pool_hotkey, netuid, amount },
                                    PoolEffect::Emit(PoolEvent::AlphaCollateralWithdrawn(AlphaCollateralWithdrawn {
                                        netuid,
                                        user: env.caller,
                                        amount,
                                        effective: amount,
                                        dest_coldkey,
                                    })),
                                ],
                            ))
                        },
                    }
                },
            }
        }
    }
}

/// The unbooked stake on `netuid` to unstake for the treasury: the available stake above the
/// booked collateral, `None` when there is none.
pub open spec fn alpha_excess_spec(v: PoolView, env: PoolEnv, netuid: u16) -> Result<Option<Balance>, Error> {
    if v.busy {
        Err(Error::Reentrancy)
    } else if !v.netuid_to_market.contains_key(netuid) {
        Err(Error::UnapprovedNetuid)
    } else {
        match assoc_lookup(env.stake_available@, netuid) {
            None => Err(Error::ChainExtensionFailed),
            Some(available) => if available <= v.total_collateral(netuid) {
                Ok(None)
            } else {
                Ok(Some((available - v.total_collateral(netuid)) as u64))
            },
        }
    }
}

impl TusdtLendingPool {
    /// Deposits `amount` of the caller's alpha stake on `netuid` as collateral, as
    /// [`deposit_alpha_spec`] states; returns the netuid's market id.
    pub fn deposit_alpha(&mut self, env: &PoolEnv, netuid: u16, amount: Balance) -> (r: Result<(u8, Vec<PoolEffect>), PoolFailure>)
        ensures
            settled_with(old(self)@, final(self)@, r, deposit_alpha_spec(old(self)@, *env, netuid, amount), old(self)@.netuid_to_market[netuid]),
    {
        if self.paused {
            return Err(PoolFailure { attempted: Vec::new(), error: Error::ContractPaused });
        }
        if amount == 0 {
            return Err(PoolFailure { attempted: Vec::new(), error: Error::ZeroAmount });
        }
        let market_id = match self.netuid_to_market.get(&netuid) {
            Some(m) => *m,
            None => return Err(PoolFailure { attempted: Vec::new(), error: Error::UnapprovedNetuid }),
        };
        let params = self.alpha_params_or_default(netuid);
        let current = self.total_collateral_or_zero(netuid);
        if params.supply_cap > 0 {
            let projected = match current.checked_add(amount) {
                Some(p) => p,
                None => return Err(PoolFailure { attempted: Vec::new(), error: Error::ArithmeticError }),
            };
            if projected > params.supply_cap {
                return Err(PoolFailure { attempted: Vec::new(), error: Error::SupplyCapExceeded });
            }
        }
        if self.busy {
            return Err(PoolFailure { attempted: Vec::new(), error: Error::Reentrancy });
        }
        let mut effects: Vec<PoolEffect> = Vec::new();
        effects.push(PoolEffect::CallerTransferStake { hotkey: self.pool_hotkey, netuid, amount });
        let caller = env.caller;
        let mut pos = self.position_or_zero(market_id, caller);
        pos.alpha_principal = match pos.alpha_principal.checked_add(amount) {
            Some(x) => x,
            None => return Err(PoolFailure { attempted: effects, error: Error::ArithmeticError }),
        };
        let total = match current.checked_add(amount) {
            Some(x) => x,
            None => return Err(PoolFailure { attempted: effects, error: Error::ArithmeticError }),
        };
        self.set_position(market_id, caller, pos);
        self.netuid_total_collateral.insert(netuid, total);
        effects.push(PoolEffect::Emit(PoolEvent::AlphaCollateralDeposited(AlphaCollateralDeposited {
            netuid,
            user: caller,
            amount,
            market_id,
        })));
        proof {
            let o = deposit_alpha_spec(old(self)@, *env, netuid, amount);
            assert(o is Ok);
            assert(final(self)@ == o->Ok_0.0);
            assert(effects@ =~= o->Ok_0.1);
        }
        Ok((market_id, effects))
    }

    /// Withdraws `amount` of alpha collateral on `netuid` to `dest_coldkey`, as
    /// [`withdraw_alpha_spec`] states.
    pub fn withdraw_alpha(&mut self, env: &PoolEnv, netuid: u16, amount: Balance, dest_coldkey: AccountId) -> (r: PoolResult)
        ensures
            settled(old(self)@, final(self)@, r, withdraw_alpha_spec(old(self)@, *env, netuid, amount, dest_coldkey)),
    {
        let saved = self.snapshot();
        let r = self.withdraw_alpha_steps(env, netuid, amount, dest_coldkey);
        if r.is_err() {
            *self = saved;
        }
        r
    }

    fn withdraw_alpha_steps(&mut self, env: &PoolEnv, netuid: u16, amount: Balance, dest_coldkey: AccountId) -> (r: PoolResult)
        ensures
            reached(final(self)@, r, withdraw_alpha_spec(old(self)@, *env, netuid, amount, dest_coldkey)),
    {
        if self.paused {
            return refusal(Error::ContractPaused);
        }
        if amount == 0 {
            return refusal(Error::ZeroAmount);
        }
        if self.busy {
            return refusal(Error::Reentrancy);
        }
        self.busy = true;
        let ghost vb = self@;
        let caller = env.caller;
        let market_id = match self.netuid_to_market.get(&netuid) {
            Some(m) => *m,
            None => return refusal(Error::UnapprovedNetuid),
        };
        let pos = self.position_or_zero(market_id, caller);
        if pos.alpha_principal < amount {
            return refusal(Error::InsufficientCollateral);
        }
        let available = match lookup_u64(&env.stake_available, netuid) {
            Some(a) => a,
            None => return refusal(Error::ChainExtensionFailed),
        };
        if amount > available {
            return refusal(Error::InsufficientAvailableStake);
        }
        let current = self.total_collateral_or_zero(netuid);
        if current < amount {
            return refusal(Error::ArithmeticError);
        }
        let has_debt = self.position_or_zero(0, caller).scaled_debt > 0 || self.position_or_zero(1, caller).scaled_debt > 0;
        if has_debt {
            let mut probe = pos;
            probe.alpha_principal = pos.alpha_principal - amount;
            self.positions.insert(position_key(market_id, caller), probe);
            self.netuid_total_collateral.insert(netuid, current - amount);
            assert(self@ == withdraw_probe(vb, netuid, market_id, caller, amount));
            let health = match self.get_health_factor(env, caller) {
                Ok(h) => h,
                Err(e) => return refusal(e),
            };
            self.positions.insert(position_key(market_id, caller), pos);
            self.netuid_total_collateral.insert(netuid, current);
            match health {
                Some(hf) => {
                    if hf.inner < RATIO_ONE {
                        return refusal(Error::HealthFactorBelowThreshold);
                    }
                },
                None => {},
            }
        }
        let ghost vr = self@;
        let mut pos2 = pos;
        pos2.alpha_principal = pos.alpha_principal - amount;
        self.busy = false;
        self.set_position(market_id, caller, pos2);
        self.netuid_total_collateral.insert(netuid, current - amount);
        let mut effects: Vec<PoolEffect> = Vec::new();
        effects.push(PoolEffect::TransferStake { dest: dest_coldkey, hotkey: self.pool_hotkey, netuid, amount });
        effects.push(PoolEffect::Emit(PoolEvent::AlphaCollateralWithdrawn(AlphaCollateralWithdrawn {
            netuid,
            user: caller,
            amount,
            effective: amount,
            dest_coldkey,
        })));
        proof {
            let o = withdraw_alpha_spec(old(self)@, *env, netuid, amount, dest_coldkey);
            assert(vr.positions =~= old(self)@.positions.insert(pos_key(market_id, caller), pos));
            assert(o is Ok);
            assert(final(self)@.positions =~= o->Ok_0.0.positions);
            assert(final(self)@.netuid_total_collateral =~= o->Ok_0.0.netuid_total_collateral);
            assert(final(self)@ == o->Ok_0.0);
            assert(effects@ =~= o->Ok_0.1);
        }
        Ok(effects)
    }

    /// First half of recovering unbooked alpha for the treasury: the excess stake on `netuid`
    /// to unstake, as [`alpha_excess_spec`] states (`None` when there is none). The host unstakes
    /// it into the pool's free balance and completes the claim with
    /// [`TusdtLendingPool::complete_alpha_excess_claim`].
    pub fn claim_alpha_excess(&self, env: &PoolEnv, netuid: u16) -> (r: Result<Option<Balance>, Error>)
        ensures
            r == alpha_excess_spec(self@, *env, netuid),
    {
        if self.busy {
            return Err(Error::Reentrancy);
        }
        if self.netuid_to_market.get(&netuid).is_none() {
            return Err(Error::UnapprovedNetuid);
        }
        let available = match lookup_u64(&env.stake_available, netuid) {
            Some(a) => a,
            None => return Err(Error::ChainExtensionFailed),
        };
        let total = self.total_collateral_or_zero(netuid);
        if available <= total {
            return Ok(None);
        }
        Ok(Some(available - total))
    }

    /// Second half of the excess claim, after `excess` alpha on `netuid` was unstaked and the
    /// free balance moved from `balance_before` to `balance_after`: the TAO received goes to the
    /// treasury (when non-zero) and the claim is announced. Fails with `ArithmeticError` when the
    /// balance fell.
    pub fn complete_alpha_excess_claim(&self, netuid: u16, excess: Balance, balance_before: Balance, balance_after: Balance) -> (r: Result<Vec<PoolEffect>, Error>)
        ensures
            balance_after < balance_before ==> r == Err::<Vec<PoolEffect>, Error>(Error::ArithmeticError),
            balance_after >= balance_before ==> (r matches Ok(effs) && effs@ == (if balance_after > balance_before {
                seq![PoolEffect::TransferNative { to: self.treasury, amount: (balance_after - balance_before) as u64 }]
            } else {
                Seq::empty()
            }).push(PoolEffect::Emit(PoolEvent::AlphaExcessClaimed(AlphaExcessClaimed {
                netuid,
                excess_alpha: excess,
                tao_received: (balance_after - balance_before) as u64,
                recipient: self.treasury,
            })))),
    {
        if balance_after < balance_before {
            return Err(Error::ArithmeticError);
        }
        let tao_received = balance_after - balance_before;
        let mut effects: Vec<PoolEffect> = Vec::new();
        if tao_received > 0 {
            effects.push(PoolEffect::TransferNative { to: self.treasury, amount: tao_received });
        }
        effects.push(PoolEffect::Emit(PoolEvent::AlphaExcessClaimed(AlphaExcessClaimed {
            netuid,
            excess_alpha: excess,
            tao_received,
            recipient: self.treasury,
        })));
        Ok(effects)
    }
}

/// The valuation of a user reads neither the reentrancy flag nor the position-key index.
proof fn lemma_valuation_ignores_bookkeeping(x: PoolView, y: PoolView, env: PoolEnv, user: AccountId, keys: Seq<u8>)
    requires
        y == (PoolView { busy: y.busy, position_keys: y.position_keys, ..x }),
    ensures
        collateral_scan(x, env, user, keys) == collateral_scan(y, env, user, keys),
        max_threshold_scan(x, user, keys) == max_threshold_scan(y, user, keys),
    decreases keys.len(),
{
    if keys.len() > 0 {
        lemma_valuation_ignores_bookkeeping(x, y, env, user, keys.drop_last());
    }
}

/// An alpha withdrawal by a user with debt in either supply/borrow market never leaves the
/// user unhealthy: after a successful withdrawal, the user's health factor in the new state is
/// at least 1.0, or the user has no debt value left.
pub proof fn law_withdrawal_keeps_indebted_user_healthy(
    v: PoolView,
    env: PoolEnv,
    netuid: u16,
    amount: Balance,
    dest_coldkey: AccountId,
)
    requires
        withdraw_alpha_spec(v, env, netuid, amount, dest_coldkey) is Ok,
        v.position(0, env.caller).scaled_debt > 0 || v.position(1, env.caller).scaled_debt > 0,
    ensures
        ({
            let v2 = withdraw_alpha_spec(v, env, netuid, amount, dest_coldkey)->Ok_0.0;
            health_factor_spec(v2, env, env.caller) matches Ok(h) && (h matches Some(hf) ==> hf.inner >= RATIO_ONE)
        }),
{
    let market_id = v.netuid_to_market[netuid];
    let probe = withdraw_probe(PoolView { busy: true, ..v }, netuid, market_id, env.caller, amount);
    let v2 = withdraw_alpha_spec(v, env, netuid, amount, dest_coldkey)->Ok_0.0;
    assert(v2 == (PoolView { busy: v2.busy, position_keys: v2.position_keys, ..probe }));
    lemma_valuation_ignores_bookkeeping(probe, v2, env, env.caller, probe.market_keys);
    assert(collateral_value_spec(v2, env, env.caller) == collateral_value_spec(probe, env, env.caller));
    assert(max_threshold_spec(v2, env.caller) == max_threshold_spec(probe, env.caller));
    assert(debt_value_spec(v2, env, env.caller) == debt_value_spec(probe, env, env.caller));
    assert(health_factor_spec(v2, env, env.caller) == health_factor_spec(probe, env, env.caller));
}

/// A successful alpha withdrawal moves exactly `amount`: the user's principal in the netuid's
/// market and the netuid's booked collateral both drop by it, the stake transferred out to
/// `dest_coldkey` is that amount, and no other position changes.
pub proof fn law_withdrawal_moves_exactly_the_amount(
    v: PoolView,
    env: PoolEnv,
    netuid: u16,
    amount: Balance,
    dest_coldkey: AccountId,
)
    requires
        withdraw_alpha_spec(v, env, netuid, amount, dest_coldkey) is Ok,
    ensures
        ({
            let (v2, effs) = withdraw_alpha_spec(v, env, netuid, amount, dest_coldkey)->Ok_0;
            let m = v.netuid_to_market[netuid];
            &&& v.netuid_to_market.contains_key(netuid)
            &&& v2.position(m, env.caller).alpha_principal == v.position(m, env.caller).alpha_principal - amount
            &&& v2.total_collateral(netuid) == v.total_collateral(netuid) - amount
            &&& v2.position(m, env.caller).scaled_debt == v.position(m, env.caller).scaled_debt
            &&& v2.position(m, env.caller).ltoken_balance == v.position(m, env.caller).ltoken_balance
            &&& forall|mk: u8, u: AccountId| (mk, u) != (m, env.caller) ==> #[trigger] v2.position(mk, u) == v.position(mk, u)
            &&& effs[0] == (PoolEffect::TransferStake { dest: dest_coldkey, hotkey: v.pool_hotkey, netuid, amount })
        }),
{
    let m = v.netuid_to_market[netuid];
    assert forall|mk: u8, u: AccountId| (mk, u) != (m, env.caller) implies #[trigger] withdraw_alpha_spec(v, env, netuid, amount, dest_coldkey)->Ok_0.0.position(mk, u) == v.position(mk, u) by {
        super::lemma_pos_key_injective(mk, u, m, env.caller);
    }
}

} // verus!

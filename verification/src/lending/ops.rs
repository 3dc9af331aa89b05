//! How a pool message's outcome is stated, and the shared steps of the messages: interest
//! accrual with its event, the position update with its key-index upkeep, and the root-subnet
//! staking sleeve (unstaking to cover an outflow, sweeping idle TAO).

use vstd::prelude::*;
use crate::types::{AccountId, Balance};
use super::{
    Error, MarketAccrued, MarketState, PoolEffect, PoolEnv, PoolEvent, PoolFailure, PoolResult, Position,
    StakedIdleTao, UnstakedIdleTao, position_is_zero, pos_key, assoc_lookup, lookup_u64,
};
use super::pool::{PoolView, TusdtLendingPool, swap_remove_all};
use super::rates::accrue_outcome;

verus! {

/// The abstract outcome of a pool message: the new state with the effects to carry out, or the
/// effects attempted before the failure with its error.
pub type Outcome = Result<(PoolView, Seq<PoolEffect>), (Seq<PoolEffect>, Error)>;

/// A failure after `attempted` effects.
pub open spec fn fail(attempted: Seq<PoolEffect>, e: Error) -> Outcome {
    Err((attempted, e))
}

/// `r` reports outcome `o`, and on success the state reached is `o`'s.
pub open spec fn reached(new: PoolView, r: PoolResult, o: Outcome) -> bool {
    match o {
        Ok((v, effs)) => r matches Ok(x) && x@ == effs && new == v,
        Err((att, e)) => r matches Err(f) && f.attempted@ == att && f.error == e,
    }
}

/// `r` reports outcome `o`; on success the state is `o`'s, on failure it is unchanged.
pub open spec fn settled(old: PoolView, new: PoolView, r: PoolResult, o: Outcome) -> bool {
    &&& reached(new, r, o)
    &&& (o is Err ==> new == old)
}

/// `r` reports outcome `o` with the value `t` beside the effects; on failure the state is
/// unchanged.
pub open spec fn settled_with<T>(old: PoolView, new: PoolView, r: Result<(T, Vec<PoolEffect>), PoolFailure>, o: Outcome, t: T) -> bool {
    match o {
        Ok((v, effs)) => r matches Ok((x, e)) && x == t && e@ == effs && new == v,
        Err((att, err)) => r matches Err(f) && f.attempted@ == att && f.error == err && new == old,
    }
}

/// The error a message ends with once the host has carried out its effects in order:
/// `attempted` are the effects of a success, or those a failure attempts first; `error` is the
/// failure's own error (`None` for a success); `failed` is the index of the first effect that
/// failed, whose error takes precedence.
pub open spec fn host_error(attempted: Seq<PoolEffect>, error: Option<Error>, failed: Option<int>) -> Option<Error> {
    match failed {
        Some(i) => Some(super::effect_error(attempted[i])),
        None => error,
    }
}

/// The effects the host carried out: those before the first failed one, or all of them.
pub open spec fn carried_out(attempted: Seq<PoolEffect>, failed: Option<int>) -> Seq<PoolEffect> {
    match failed {
        Some(i) => attempted.take(i),
        None => attempted,
    }
}

/// How an effect failure is told to [`TusdtLendingPool::settle`]: the index of the first effect
/// that failed, as a spec value.
pub open spec fn failed_at(failed: Option<usize>) -> Option<int> {
    match failed {
        Some(i) => Some(i as int),
        None => None,
    }
}

impl TusdtLendingPool {
    /// Settles a message after the host carried out its effects in order, stopping at the first
    /// that failed. `before` is the pool as it was before the message (see
    /// [`TusdtLendingPool::snapshot`]), `attempted` and `error` the message's effects and error
    /// (`None` for a success), `failed` the index of the failed effect. A message whose effect
    /// failed fails with that effect's error, a failed message with its own error; either way
    /// the pool is put back to `before`. A success keeps the new state.
    pub fn settle(
        &mut self,
        before: TusdtLendingPool,
        attempted: &Vec<PoolEffect>,
        error: Option<Error>,
        failed: Option<usize>,
    ) -> (r: Result<(), Error>)
        requires
            failed matches Some(i) ==> i < attempted.len(),
        ensures
            r == (match host_error(attempted@, error, failed_at(failed)) {
                Some(e) => Err::<(), Error>(e),
                None => Ok::<(), Error>(()),
            }),
            r is Ok ==> final(self)@ == old(self)@,
            r is Err ==> final(self)@ == before@,
    {
        let outcome: Option<Error> = match failed {
            Some(i) => Some(super::effect_error_of(&attempted[i])),
            None => error,
        };
        match outcome {
            Some(e) => {
                *self = before;
                Err(e)
            },
            None => Ok(()),
        }
    }
}

/// The accrual event as effects.
pub open spec fn accrual_effects(ev: Option<MarketAccrued>) -> Seq<PoolEffect> {
    match ev {
        Some(e) => seq![PoolEffect::Emit(PoolEvent::MarketAccrued(e))],
        None => Seq::empty(),
    }
}

/// The position-key index after the position of `user` in `market` changed.
pub open spec fn keys_after(v: PoolView, market: u8, user: AccountId) -> Seq<(u8, AccountId)> {
    if position_is_zero(v.position(market, user)) {
        swap_remove_all(v.position_keys, (market, user), v.position_keys.len())
    } else if v.position_keys.to_multiset().count((market, user)) == 1 {
        v.position_keys
    } else {
        swap_remove_all(v.position_keys, (market, user), v.position_keys.len()).push((market, user))
    }
}

/// The state with the position of `user` in `market` set to `p` and the key index kept in
/// step.
pub open spec fn with_position(v: PoolView, market: u8, user: AccountId, p: Position) -> PoolView {
    let v1 = PoolView { positions: v.positions.insert(pos_key(market, user), p), ..v };
    PoolView { position_keys: keys_after(v1, market, user), ..v1 }
}

/// How much root stake to unstake to cover `shortfall`: `min(shortfall, available, staked)`,
/// or all of it when the remainder would fall below `stake_floor`.
pub open spec fn top_up_take(shortfall: int, available: int, staked: int, floor: int) -> int {
    let m1 = if shortfall <= available { shortfall } else { available };
    let take = if m1 <= staked { m1 } else { staked };
    let remainder = staked - take;
    if take != 0 && remainder > 0 && remainder < floor { staked } else { take }
}

/// Unstaking root stake to cover a `shortfall` of free TAO: the amount received, the new state
/// and the effects, or the error. A failed availability query or unstake is
/// `LiquidityInsufficient`.
pub open spec fn top_up_spec(v: PoolView, env: PoolEnv, shortfall: Balance) -> Result<(Balance, PoolView, Seq<PoolEffect>), Error> {
    if shortfall == 0 || v.staked_tao == 0 {
        Ok((0, v, Seq::empty()))
    } else {
        match assoc_lookup(env.stake_available@, 0) {
            None => Err(Error::LiquidityInsufficient),
            Some(available) => {
                let take = top_up_take(shortfall as int, available as int, v.staked_tao as int, v.stake_floor as int);
                if take == 0 {
                    Ok((0, v, Seq::empty()))
                } else {
                    Ok((
                        take as u64,
                        PoolView { staked_tao: (v.staked_tao - take) as u64, ..v },
                        seq![
                            PoolEffect::RemoveRootStake { hotkey: v.root_hotkey, amount: take as u64 },
                            PoolEffect::Emit(PoolEvent::UnstakedIdleTao(UnstakedIdleTao { amount: take as u64 })),
                        ],
                    ))
                }
            },
        }
    }
}

/// The idle TAO a sweep would stake: the free balance above `stake_buffer + sweep_threshold`
/// when staking is enabled, the pool is not paused, no sweep ran this block and the excess
/// reaches `stake_floor`.
pub open spec fn sweep_excess(v: PoolView, env: PoolEnv) -> Option<Balance> {
    let buffered = if v.stake_buffer + v.sweep_threshold > u64::MAX { u64::MAX as int } else { v.stake_buffer + v.sweep_threshold };
    let excess = if env.native_balance > buffered { env.native_balance - buffered } else { 0 };
    if !v.staking_enabled || v.paused || v.last_sweep_block == Some(env.block) || excess < v.stake_floor {
        None
    } else {
        Some(excess as u64)
    }
}

/// Builds a failure result.
pub fn failure(attempted: Vec<PoolEffect>, error: Error) -> (r: PoolResult)
    ensures
        r matches Err(f) && f.attempted@ == attempted@ && f.error == error,
{
    Err(PoolFailure { attempted, error })
}

/// Builds a failure result with no effects attempted.
pub fn refusal(error: Error) -> (r: PoolResult)
    ensures
        r matches Err(f) && f.attempted@ == Seq::<PoolEffect>::empty() && f.error == error,
{
    Err(PoolFailure { attempted: Vec::new(), error })
}

impl TusdtLendingPool {
    /// The accrual state of supply/borrow market `market` (0 or 1).
    pub fn market_state(&self, market: u8) -> (s: MarketState)
        requires
            market < 2,
        ensures
            s == self@.market(market).unwrap(),
    {
        if market == 0 { self.market_tao } else { self.market_tusdt }
    }

    /// Replaces the accrual state of supply/borrow market `market` (0 or 1).
    pub fn store_market(&mut self, market: u8, s: MarketState)
        requires
            market < 2,
        ensures
            final(self)@ == old(self)@.with_market(market, s),
    {
        if market == 0 {
            self.market_tao = s;
        } else {
            self.market_tusdt = s;
        }
    }

    /// Accrues market `market_id` (as [`accrue_outcome`] states) and appends its event to
    /// `effects`.
    pub fn accrue_into(&mut self, env: &PoolEnv, market_id: u8, effects: &mut Vec<PoolEffect>) -> (r: Result<(), Error>)
        ensures
            match accrue_outcome(old(self)@, *env, market_id) {
                Ok((v, ev)) => r is Ok && final(self)@ == v && final(effects)@ == old(effects)@ + accrual_effects(ev),
                Err(e) => r == Err::<(), Error>(e) && final(self)@ == old(self)@ && final(effects)@ == old(effects)@,
            },
    {
        match self.accrue_interest(env, market_id) {
            Ok(ev) => {
                match ev {
                    Some(e) => {
                        effects.push(PoolEffect::Emit(PoolEvent::MarketAccrued(e)));
                    },
                    None => {
                        assert(old(effects)@ + accrual_effects(ev) =~= old(effects)@);
                    },
                }
                Ok(())
            },
            Err(e) => Err(e),
        }
    }

    /// Writes the position of `user` in `market` and keeps the key index in step.
    pub fn set_position(&mut self, market: u8, user: AccountId, p: Position)
        ensures
            final(self)@ == with_position(old(self)@, market, user, p),
    {
        self.put_position(market, user, p);
        self.update_position_key(market, user);
    }

    /// Unstakes root stake to cover `shortfall` of free TAO, as [`top_up_spec`] states,
    /// appending the effects to `effects`; returns the amount received.
    pub fn top_up_free(&mut self, env: &PoolEnv, shortfall: Balance, effects: &mut Vec<PoolEffect>) -> (r: Result<Balance, Error>)
        ensures
            match top_up_spec(old(self)@, *env, shortfall) {
                Ok((got, v, effs)) => r == Ok::<Balance, Error>(got) && final(self)@ == v && final(effects)@ == old(effects)@ + effs,
                Err(e) => r == Err::<Balance, Error>(e) && final(self)@ == old(self)@ && final(effects)@ == old(effects)@,
            },
    {
        if shortfall == 0 || self.staked_tao == 0 {
            assert(old(effects)@ + Seq::<PoolEffect>::empty() =~= old(effects)@);
            return Ok(0);
        }
        let available = match lookup_u64(&env.stake_available, 0) {
            Some(a) => a,
            None => return Err(Error::LiquidityInsufficient),
        };
        let m1 = if shortfall <= available { shortfall } else { available };
        let mut take = if m1 <= self.staked_tao { m1 } else { self.staked_tao };
        if take == 0 {
            assert(old(effects)@ + Seq::<PoolEffect>::empty() =~= old(effects)@);
            return Ok(0);
        }
        let remainder = self.staked_tao - take;
        if remainder > 0 && remainder < self.stake_floor {
            take = self.staked_tao;
        }
        effects.push(PoolEffect::RemoveRootStake { hotkey: self.root_hotkey, amount: take });
        self.staked_tao = self.staked_tao - take;
        effects.push(PoolEffect::Emit(PoolEvent::UnstakedIdleTao(UnstakedIdleTao { amount: take })));
        proof {
            let effs = seq![
                PoolEffect::RemoveRootStake { hotkey: old(self)@.root_hotkey, amount: take },
                PoolEffect::Emit(PoolEvent::UnstakedIdleTao(UnstakedIdleTao { amount: take })),
            ];
            assert(final(effects)@ =~= old(effects)@ + effs);
        }
        Ok(take)
    }

    /// The idle TAO a sweep would stake now, as [`sweep_excess`] states.
    pub fn sweep_plan(&self, env: &PoolEnv) -> (r: Option<Balance>)
        ensures
            r == sweep_excess(self@, *env),
    {
        if !self.staking_enabled || self.paused {
            return None;
        }
        if self.last_sweep_block == Some(env.block) {
            return None;
        }
        let buffered = self.stake_buffer.saturating_add(self.sweep_threshold);
        let excess = env.native_balance.saturating_sub(buffered);
        if excess < self.stake_floor {
            return None;
        }
        Some(excess)
    }

    /// First half of the best-effort sweep that follows a TAO supply or repayment: when
    /// [`sweep_excess`] has an amount, stamps this block as swept and returns the amount, which
    /// the host then stakes on the root subnet (and, if that succeeds, books with
    /// [`TusdtLendingPool::finish_sweep`]). A failed stake leaves the stamp, as the sweep is
    /// best-effort.
    pub fn begin_sweep(&mut self, env: &PoolEnv) -> (r: Option<Balance>)
        ensures
            r == sweep_excess(old(self)@, *env),
            r is None ==> final(self)@ == old(self)@,
            r is Some ==> final(self)@ == (PoolView { last_sweep_block: Some(env.block), ..old(self)@ }),
    {
        let plan = self.sweep_plan(env);
        if plan.is_some() {
            self.last_sweep_block = Some(env.block);
        }
        plan
    }

    /// Second half of the best-effort sweep: books `amount` of root stake once it was staked.
    /// Fails with `ArithmeticError` (state unchanged) when the booking overflows.
    pub fn finish_sweep(&mut self, amount: Balance) -> (r: Result<StakedIdleTao, Error>)
        ensures
            old(self).staked_tao + amount <= u64::MAX ==> r == Ok::<StakedIdleTao, Error>(StakedIdleTao { amount })
                && final(self)@ == (PoolView { staked_tao: (old(self).staked_tao + amount) as u64, ..old(self)@ }),
            old(self).staked_tao + amount > u64::MAX ==> r == Err::<StakedIdleTao, Error>(Error::ArithmeticError)
                && final(self)@ == old(self)@,
    {
        match self.staked_tao.checked_add(amount) {
            Some(s) => {
                self.staked_tao = s;
                Ok(StakedIdleTao { amount })
            },
            None => Err(Error::ArithmeticError),
        }
    }
}

/// Every position write keeps the key list in step with the positions: the written pair occurs
/// exactly once when its position is non-zero and not at all when it is zero, whatever repeats
/// of it older states left; a pair listed exactly once keeps its place; every other pair keeps
/// its number of occurrences, repeats included; and a list without repeats stays without
/// repeats.
pub proof fn law_position_keys_follow_positions(v: PoolView, market: u8, user: AccountId)
    ensures
        keys_after(v, market, user).contains((market, user)) <==> !position_is_zero(v.position(market, user)),
        keys_after(v, market, user).to_multiset().count((market, user))
            == (if position_is_zero(v.position(market, user)) { 0nat } else { 1nat }),
        forall|x: (u8, AccountId)| x != (market, user) ==> (#[trigger] keys_after(v, market, user).contains(x) <==> v.position_keys.contains(x)),
        forall|x: (u8, AccountId)| x != (market, user) ==>
            #[trigger] keys_after(v, market, user).to_multiset().count(x) == v.position_keys.to_multiset().count(x),
        !position_is_zero(v.position(market, user)) && v.position_keys.to_multiset().count((market, user)) == 1
            ==> keys_after(v, market, user) == v.position_keys,
        super::pool::keys_distinct(v.position_keys) ==> super::pool::keys_distinct(keys_after(v, market, user)),
{
    broadcast use vstd::multiset::group_multiset_axioms, vstd::seq_lib::to_multiset_build, vstd::seq_lib::to_multiset_contains;
    let s = v.position_keys;
    let key = (market, user);
    super::pool::law_key_removal(s, key);
    let r = swap_remove_all(s, key, s.len());
    if !position_is_zero(v.position(market, user)) {
        if s.to_multiset().count(key) != 1 {
            let t = r.push(key);
            assert(t[r.len() as int] == key);
            assert(!r.contains(key));
            assert forall|x: (u8, AccountId)| x != key implies (#[trigger] t.contains(x) <==> s.contains(x)) by {
                assert(t.to_multiset().count(x) == r.to_multiset().count(x));
                assert(r.to_multiset().count(x) == s.to_multiset().count(x));
                assert(t.contains(x) <==> t.to_multiset().count(x) > 0);
                assert(s.contains(x) <==> s.to_multiset().count(x) > 0);
            }
            if super::pool::keys_distinct(s) {
                assert forall|a: int, b: int| 0 <= a < b < t.len() implies t[a] != t[b] by {
                    if b == r.len() {
                        assert(r[a] == t[a]);
                        assert(r.contains(r[a]));
                    } else {
                        assert(r[a] == t[a] && r[b] == t[b]);
                    }
                }
            }
        }
    }
}

} // verus!

//! Supplying liquidity to a market for lTokens, and withdrawing it by burning them.

use vstd::prelude::*;
use crate::ratio::{Ratio, RATIO_ONE, scale_floor, unscale_floor};
use crate::types::Balance;
use super::{
    Error, LiquidDeposited, LiquidWithdrawn, MarketState, PoolEffect, PoolEnv, PoolEvent,
    PoolResult, Position, compute_mint_amount, compute_redeem_amount,
};
use super::pool::{PoolView, TusdtLendingPool};
use super::rates::{accrue_outcome, market_cash_spec};
use super::ops::{Outcome, fail, reached, settled, accrual_effects, with_position, top_up_spec, failure, refusal, host_error, carried_out};

verus! {

/// The face value of a market's supply (`total_supplied * exchange_rate`), when it fits a
/// `Balance`.
pub open spec fn supplied_face(s: MarketState) -> Option<int> {
    if s.total_supplied * s.exchange_rate.inner > u128::MAX
        || scale_floor(s.total_supplied as int, s.exchange_rate.inner as int) > u64::MAX {
        None
    } else {
        Some(scale_floor(s.total_supplied as int, s.exchange_rate.inner as int))
    }
}

/// The supply cap (face units) of market `m`; 0 means unlimited.
pub open spec fn supply_cap(v: PoolView, m: u8) -> Balance {
    if m == 0 { v.global_params.supply_cap_tao } else { v.global_params.supply_cap_tusdt }
}

/// lTokens minted for supplying `amount`: 1:1 while the market or the lToken is empty,
/// otherwise `floor(amount / exchange_rate)`; `None` when that is undefined or overflows.
pub open spec fn mint_amount(s: MarketState, ltoken_supply: Balance, amount: Balance) -> Option<int> {
    if ltoken_supply == 0 || s.total_supplied == 0 {
        Some(amount as int)
    } else if s.exchange_rate.inner == 0 || unscale_floor(amount as int, s.exchange_rate.inner as int) > u64::MAX {
        None
    } else {
        Some(unscale_floor(amount as int, s.exchange_rate.inner as int))
    }
}

/// The lToken total supply of market `m` as read from the chain.
pub open spec fn ltoken_supply_of(env: PoolEnv, m: u8) -> Balance {
    if m == 0 { env.ltao_supply } else { env.ltusdt_supply }
}

/// A supply of `amount` to market `m` (0 = TAO, paid with the call's value; 1 = TUSDT, pulled
/// with `transfer_from`).
pub open spec fn supply_spec(v: PoolView, env: PoolEnv, m: u8, amount: Balance) -> Outcome {
    if v.paused {
        fail(Seq::empty(), Error::ContractPaused)
    } else if amount == 0 {
        fail(Seq::empty(), Error::ZeroAmount)
    } else if m == 0 && env.transferred_value < amount {
        fail(Seq::empty(), Error::TransferFailed)
    } else if v.busy {
        fail(Seq::empty(), Error::Reentrancy)
    } else {
        match accrue_outcome(PoolView { busy: true, ..v }, env, m) {
            Err(e) => fail(Seq::empty(), e),
            Ok((v1, ev)) => supply_booked(v1, env, m, amount, accrual_effects(ev)),
        }
    }
}

/// The part of a supply after interest accrued: cap check, pull, mint and booking.
pub open spec fn supply_booked(v1: PoolView, env: PoolEnv, m: u8, amount: Balance, pre: Seq<PoolEffect>) -> Outcome {
    let s = v1.market(m).unwrap();
    let cap = supply_cap(v1, m);
    if cap > 0 && supplied_face(s) is None {
        fail(pre, Error::ArithmeticError)
    } else if cap > 0 && supplied_face(s).unwrap() + amount > u64::MAX {
        fail(pre, Error::ArithmeticError)
    } else if cap > 0 && supplied_face(s).unwrap() + amount > cap {
        fail(pre, Error::SupplyCapExceeded)
    } else {
        let pre2 = if m == 1 { pre.push(PoolEffect::TusdtTransferFrom { from: env.caller, amount }) } else { pre };
        match mint_amount(s, ltoken_supply_of(env, m), amount) {
            None => fail(pre2, Error::ArithmeticError),
            Some(scaled) => {
                let pos = v1.position(m, env.caller);
                if scaled == 0 {
                    fail(pre2, Error::MintBelowPrecision)
                } else if s.total_supplied + scaled > u64::MAX || pos.ltoken_balance + scaled > u64::MAX {
                    fail(pre2, Error::ArithmeticError)
                } else {
                    let s2 = MarketState {
                        total_supplied: (s.total_supplied + scaled) as u64,
                        exchange_rate: if s.total_supplied == 0 { Ratio { inner: RATIO_ONE } } else { s.exchange_rate },
                        ..s
                    };
                    let v2 = with_position(
                        v1.with_market(m, s2),
                        m,
                        env.caller,
                        Position { ltoken_balance: (pos.ltoken_balance + scaled) as u64, ..pos },
                    );
                    let refund = if m == 0 && env.transferred_value > amount {
                        seq![PoolEffect::TransferNative { to: env.caller, amount: (env.transferred_value - amount) as u64 }]
                    } else {
                        Seq::empty()
                    };
                    Ok((
                        PoolView { busy: false, ..v2 },
                        pre2 + seq![PoolEffect::LTokenMint { market: m, to: env.caller, amount: scaled as u64 }] + refund
                            + seq![PoolEffect::Emit(PoolEvent::LiquidDeposited(LiquidDeposited {
                                market: m,
                                user: env.caller,
                                amount,
                                ltoken_scaled: scaled as u64,
                            }))],
                    ))
                }
            },
        }
    }
}

/// A withdrawal of `ltoken_amount` lTokens from market `m`.
pub open spec fn withdraw_spec(v: PoolView, env: PoolEnv, m: u8, ltoken_amount: Balance) -> Outcome {
    if v.paused {
        fail(Seq::empty(), Error::ContractPaused)
    } else if ltoken_amount == 0 {
        fail(Seq::empty(), Error::ZeroAmount)
    } else if v.busy {
        fail(Seq::empty(), Error::Reentrancy)
    } else {
        match accrue_outcome(PoolView { busy: true, ..v }, env, m) {
            Err(e) => fail(Seq::empty(), e),
            Ok((v1, ev)) => withdraw_checked(v1, env, m, ltoken_amount, accrual_effects(ev)),
        }
    }
}

/// The underlying redeemed for `ltoken_amount`: 0 from an empty market, otherwise
/// `floor(ltokens * exchange_rate)`; `None` on an overflow.
pub open spec fn redeem_amount(s: MarketState, ltoken_amount: Balance) -> Option<int> {
    if s.total_supplied == 0 {
        Some(0)
    } else if ltoken_amount * s.exchange_rate.inner > u128::MAX
        || scale_floor(ltoken_amount as int, s.exchange_rate.inner as int) > u64::MAX {
        None
    } else {
        Some(scale_floor(ltoken_amount as int, s.exchange_rate.inner as int))
    }
}

/// The part of a withdrawal after interest accrued: balance, rounding and liquidity checks,
/// and for TAO the root-stake top-up.
pub open spec fn withdraw_checked(v1: PoolView, env: PoolEnv, m: u8, ltoken_amount: Balance, pre: Seq<PoolEffect>) -> Outcome {
    let s = v1.market(m).unwrap();
    let pos = v1.position(m, env.caller);
    if pos.ltoken_balance < ltoken_amount {
        fail(pre, Error::InsufficientLTokenBalance)
    } else {
        match redeem_amount(s, ltoken_amount) {
            None => fail(pre, Error::ArithmeticError),
            Some(underlying) => if underlying == 0 {
                fail(pre, Error::MintBelowPrecision)
            } else {
                match market_cash_spec(v1, env, m) {
                    Err(e) => fail(pre, e),
                    Ok(cash) => if underlying > cash {
                        fail(pre, Error::LiquidityInsufficient)
                    } else if m == 0 && underlying > env.native_balance {
                        let shortfall = (underlying - env.native_balance) as u64;
                        match top_up_spec(v1, env, shortfall) {
                            Err(e) => fail(pre, e),
                            Ok((got, v2, effs)) => if got < shortfall {
                                fail(pre + effs, Error::LiquidityInsufficient)
                            } else {
                                withdraw_booked(v2, env, m, ltoken_amount, underlying as u64, pre + effs)
                            },
                        }
                    } else {
                        withdraw_booked(v1, env, m, ltoken_amount, underlying as u64, pre)
                    },
                }
            },
        }
    }
}

/// The booking of a withdrawal: burn, market and position update, payout.
pub open spec fn withdraw_booked(v2: PoolView, env: PoolEnv, m: u8, ltoken_amount: Balance, underlying: Balance, pre: Seq<PoolEffect>) -> Outcome {
    let s = v2.market(m).unwrap();
    let pos = v2.position(m, env.caller);
    let pre2 = pre.push(PoolEffect::LTokenBurn { market: m, from: env.caller, amount: ltoken_amount });
    if s.total_supplied < ltoken_amount {
        fail(pre2, Error::ArithmeticError)
    } else {
        let left = (s.total_supplied - ltoken_amount) as u64;
        let s2 = MarketState {
            total_supplied: left,
            exchange_rate: if left == 0 { Ratio { inner: RATIO_ONE } } else { s.exchange_rate },
            ..s
        };
        let v3 = with_position(
            v2.with_market(m, s2),
            m,
            env.caller,
            Position { ltoken_balance: (pos.ltoken_balance - ltoken_amount) as u64, ..pos },
        );
        let payout = if m == 0 {
            PoolEffect::TransferNative { to: env.caller, amount: underlying }
        } else {
            PoolEffect::TusdtTransfer { to: env.caller, amount: underlying }
        };
        Ok((
            PoolView { busy: false, ..v3 },
            pre2 + seq![payout, PoolEffect::Emit(PoolEvent::LiquidWithdrawn(LiquidWithdrawn {
                market: m,
                user: env.caller,
                amount: underlying,
                ltoken_scaled: ltoken_amount,
            }))],
        ))
    }
}

/// Where the TUSDT pull of a supply stands among its effects: right after the accrual event, if
/// any.
pub open spec fn supply_pull_index(v: PoolView, env: PoolEnv) -> int {
    accrual_effects(accrue_outcome(PoolView { busy: true, ..v }, env, 1)->Ok_0.1).len() as int
}

/// A TUSDT supply pulls the supplied amount from the caller before any other effect that can
/// fail and before its mint: when the pull fails, the message ends with
/// `TokenTransferFromFailed`, no lTUSDT has been minted, and `settle` puts the pool back.
pub proof fn law_failed_pull_mints_nothing(v: PoolView, env: PoolEnv, amount: Balance)
    requires
        supply_spec(v, env, 1, amount) is Ok,
    ensures
        ({
            let effs = supply_spec(v, env, 1, amount)->Ok_0.1;
            let i = supply_pull_index(v, env);
            &&& 0 <= i < effs.len()
            &&& effs[i] == (PoolEffect::TusdtTransferFrom { from: env.caller, amount })
            &&& forall|j: int| 0 <= j < i ==> #[trigger] effs[j] is Emit
            &&& host_error(effs, None, Some(i)) == Some(Error::TokenTransferFromFailed)
            &&& forall|j: int| 0 <= j < carried_out(effs, Some(i)).len()
                    ==> !(#[trigger] carried_out(effs, Some(i))[j] is LTokenMint)
        }),
{
    let effs = supply_spec(v, env, 1, amount)->Ok_0.1;
    let i = supply_pull_index(v, env);
    assert forall|j: int| 0 <= j < carried_out(effs, Some(i)).len()
        implies !(#[trigger] carried_out(effs, Some(i))[j] is LTokenMint) by {
        assert(carried_out(effs, Some(i))[j] == effs[j]);
    }
}

/// At an unchanged exchange rate, redeeming the lTokens minted for a supply of `amount` gives
/// back at most `amount`: supplying and withdrawing never over-credits.
pub proof fn law_mint_then_redeem_never_over_credits(s: MarketState, ltoken_supply: Balance, amount: Balance)
    requires
        s.total_supplied > 0,
        mint_amount(s, ltoken_supply, amount) is Some,
        mint_amount(s, ltoken_supply, amount)->Some_0 <= u64::MAX,
        ltoken_supply == 0 ==> s.exchange_rate.inner <= RATIO_ONE,
    ensures
        redeem_amount(s, mint_amount(s, ltoken_supply, amount)->Some_0 as u64) matches Some(r) ==> r <= amount,
{
    let one = RATIO_ONE as int;
    let r = s.exchange_rate.inner as int;
    let a = amount as int;
    if ltoken_supply == 0 {
        assert((a * r) / one <= a) by (nonlinear_arith)
            requires
                a >= 0,
                0 <= r <= one,
                one > 0,
        ;
    } else {
        let l = (a * one) / r;
        assert((l * r) / one <= a) by (nonlinear_arith)
            requires
                a >= 0,
                r >= 1,
                one > 0,
                l == (a * one) / r,
        ;
    }
}

impl TusdtLendingPool {
    /// Supplies `amount` of TAO (sent with the call as `env.transferred_value`) and mints lTAO
    /// at the current exchange rate, as [`supply_spec`] states for market 0; any excess value
    /// is refunded. After a successful supply the host runs the best-effort sweep
    /// ([`TusdtLendingPool::begin_sweep`]).
    pub fn supply_tao(&mut self, env: &PoolEnv, amount: Balance) -> (r: PoolResult)
        ensures
            settled(old(self)@, final(self)@, r, supply_spec(old(self)@, *env, 0, amount)),
    {
        let saved = self.snapshot();
        let r = self.supply_steps(env, 0, amount);
        if r.is_err() {
            *self = saved;
        }
        r
    }

    /// Supplies `amount` of TUSDT (pulled from the caller) and mints lTUSDT at the current
    /// exchange rate, as [`supply_spec`] states for market 1.
    pub fn supply_tusdt(&mut self, env: &PoolEnv, amount: Balance) -> (r: PoolResult)
        ensures
            settled(old(self)@, final(self)@, r, supply_spec(old(self)@, *env, 1, amount)),
    {
        let saved = self.snapshot();
        let r = self.supply_steps(env, 1, amount);
        if r.is_err() {
            *self = saved;
        }
        r
    }

    /// Withdraws TAO by burning `ltoken_amount` lTAO, as [`withdraw_spec`] states for market 0,
    /// unstaking root stake when the free balance cannot cover the payout.
    pub fn withdraw_tao(&mut self, env: &PoolEnv, ltoken_amount: Balance) -> (r: PoolResult)
        ensures
            settled(old(self)@, final(self)@, r, withdraw_spec(old(self)@, *env, 0, ltoken_amount)),
    {
        let saved = self.snapshot();
        let r = self.withdraw_steps(env, 0, ltoken_amount);
        if r.is_err() {
            *self = saved;
        }
        r
    }

    /// Withdraws TUSDT by burning `ltoken_amount` lTUSDT, as [`withdraw_spec`] states for
    /// market 1.
    pub fn withdraw_tusdt(&mut self, env: &PoolEnv, ltoken_amount: Balance) -> (r: PoolResult)
        ensures
            settled(old(self)@, final(self)@, r, withdraw_spec(old(self)@, *env, 1, ltoken_amount)),
    {
        let saved = self.snapshot();
        let r = self.withdraw_steps(env, 1, ltoken_amount);
        if r.is_err() {
            *self = saved;
        }
        r
    }

    fn supply_steps(&mut self, env: &PoolEnv, m: u8, amount: Balance) -> (r: PoolResult)
        requires
            m < 2,
        ensures
            reached(final(self)@, r, supply_spec(old(self)@, *env, m, amount)),
    {
        if self.paused {
            return refusal(Error::ContractPaused);
        }
        if amount == 0 {
            return refusal(Error::ZeroAmount);
        }
        if m == 0 && env.transferred_value < amount {
            return refusal(Error::TransferFailed);
        }
        if self.busy {
            return refusal(Error::Reentrancy);
        }
        self.busy = true;
        let mut effects: Vec<PoolEffect> = Vec::new();
        match self.accrue_into(env, m, &mut effects) {
            Ok(()) => {},
            Err(e) => return refusal(e),
        }
        self.supply_booking(env, m, amount, effects)
    }

    fn supply_booking(&mut self, env: &PoolEnv, m: u8, amount: Balance, effects: Vec<PoolEffect>) -> (r: PoolResult)
        requires
            m < 2,
        ensures
            reached(final(self)@, r, supply_booked(old(self)@, *env, m, amount, effects@)),
    {
        let mut effects = effects;
        let ghost pre = effects@;
        let s = self.market_state(m);
        let cap = if m == 0 { self.global_params.supply_cap_tao } else { self.global_params.supply_cap_tusdt };
        if cap > 0 {
            let face = match compute_redeem_amount(s.total_supplied, s.exchange_rate) {
                Some(f) => f,
                None => return failure(effects, Error::ArithmeticError),
            };
            let projected = match face.checked_add(amount) {
                Some(p) => p,
                None => return failure(effects, Error::ArithmeticError),
            };
            if projected > cap {
                return failure(effects, Error::SupplyCapExceeded);
            }
        }
        if m == 1 {
            effects.push(PoolEffect::TusdtTransferFrom { from: env.caller, amount });
        }
        let ltoken_supply = if m == 0 { env.ltao_supply } else { env.ltusdt_supply };
        let scaled = if ltoken_supply == 0 || s.total_supplied == 0 {
            amount
        } else {
            match compute_mint_amount(amount, s.exchange_rate) {
                Some(x) => x,
                None => return failure(effects, Error::ArithmeticError),
            }
        };
        if scaled == 0 {
            return failure(effects, Error::MintBelowPrecision);
        }
        let mut s2 = s;
        if s2.total_supplied == 0 {
            s2.exchange_rate = Ratio::one();
        }
        s2.total_supplied = match s2.total_supplied.checked_add(scaled) {
            Some(x) => x,
            None => return failure(effects, Error::ArithmeticError),
        };
        let caller = env.caller;
        let mut pos = self.position_or_zero(m, caller);
        pos.ltoken_balance = match pos.ltoken_balance.checked_add(scaled) {
            Some(x) => x,
            None => return failure(effects, Error::ArithmeticError),
        };
        self.store_market(m, s2);
        self.set_position(m, caller, pos);
        effects.push(PoolEffect::LTokenMint { market: m, to: caller, amount: scaled });
        if m == 0 && env.transferred_value > amount {
            effects.push(PoolEffect::TransferNative { to: caller, amount: env.transferred_value - amount });
        }
        effects.push(PoolEffect::Emit(PoolEvent::LiquidDeposited(LiquidDeposited {
            market: m,
            user: caller,
            amount,
            ltoken_scaled: scaled,
        })));
        self.busy = false;
        proof {
            let o = supply_booked(old(self)@, *env, m, amount, pre);
            assert(o is Ok);
            assert(final(self)@ == o->Ok_0.0);
            assert(effects@ =~= o->Ok_0.1);
        }
        Ok(effects)
    }

    #[verifier::spinoff_prover]
    #[verifier::rlimit(40)]
    fn withdraw_steps(&mut self, env: &PoolEnv, m: u8, ltoken_amount: Balance) -> (r: PoolResult)
        requires
            m < 2,
        ensures
            reached(final(self)@, r, withdraw_spec(old(self)@, *env, m, ltoken_amount)),
    {
        if self.paused {
            return refusal(Error::ContractPaused);
        }
        if ltoken_amount == 0 {
            return refusal(Error::ZeroAmount);
        }
        if self.busy {
            return refusal(Error::Reentrancy);
        }
        self.busy = true;
        let mut effects: Vec<PoolEffect> = Vec::new();
        match self.accrue_into(env, m, &mut effects) {
            Ok(()) => {},
            Err(e) => return refusal(e),
        }
        let ghost v1 = self@;
        let ghost pre = effects@;
        let caller = env.caller;
        let s = self.market_state(m);
        let pos = self.position_or_zero(m, caller);
        if pos.ltoken_balance < ltoken_amount {
            return failure(effects, Error::InsufficientLTokenBalance);
        }
        let underlying = if s.total_supplied == 0 {
            0
        } else {
            match compute_redeem_amount(ltoken_amount, s.exchange_rate) {
                Some(u) => u,
                None => return failure(effects, Error::ArithmeticError),
            }
        };
        if underlying == 0 {
            return failure(effects, Error::MintBelowPrecision);
        }
        let cash = match self.market_cash(env, m) {
            Ok(c) => c,
            Err(e) => return failure(effects, e),
        };
        if underlying > cash {
            return failure(effects, Error::LiquidityInsufficient);
        }
        if m == 0 && underlying > env.native_balance {
            let shortfall = underlying - env.native_balance;
            let got = match self.top_up_free(env, shortfall, &mut effects) {
                Ok(g) => g,
                Err(e) => return failure(effects, e),
            };
            if got < shortfall {
                return failure(effects, Error::LiquidityInsufficient);
            }
        }
        let ghost v2 = self@;
        let ghost pre_b = effects@;
        assert(self@.market(m) == v1.market(m));
        assert(self@.position(m, caller) == v1.position(m, caller));
        effects.push(PoolEffect::LTokenBurn { market: m, from: caller, amount: ltoken_amount });
        if s.total_supplied < ltoken_amount {
            return failure(effects, Error::ArithmeticError);
        }
        let mut s2 = s;
        s2.total_supplied = s.total_supplied - ltoken_amount;
        super::reset_exchange_rate_when_drained(&mut s2);
        let mut pos2 = pos;
        pos2.ltoken_balance = pos.ltoken_balance - ltoken_amount;
        self.store_market(m, s2);
        self.set_position(m, caller, pos2);
        if m == 0 {
            effects.push(PoolEffect::TransferNative { to: caller, amount: underlying });
        } else {
            effects.push(PoolEffect::TusdtTransfer { to: caller, amount: underlying });
        }
        effects.push(PoolEffect::Emit(PoolEvent::LiquidWithdrawn(LiquidWithdrawn {
            market: m,
            user: caller,
            amount: underlying,
            ltoken_scaled: ltoken_amount,
        })));
        self.busy = false;
        proof {
            let o = withdraw_booked(v2, *env, m, ltoken_amount, underlying, pre_b);
            assert(o is Ok);
            assert(final(self)@ == o->Ok_0.0);
            assert(effects@ =~= o->Ok_0.1);
        }
        Ok(effects)
    }
}

} // verus!

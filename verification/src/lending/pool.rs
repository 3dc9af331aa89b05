//! Storage of the lending pool, its abstract view, constructors, role checks and the
//! position-key index.

use vstd::prelude::*;
use std::collections::HashMap;
use crate::ratio::{Ratio, RATIO_ONE};
use crate::types::{AccountId, Balance, BlockNumber, Timestamp};
use super::{Error, MarketState, Position, zero_position, position_is_zero, pos_key, position_key, DEFAULT_STAKE_BUFFER, MIN_ROOT_STAKE_FLOOR};
use super::params::{
    AlphaMarketParams, InterestRateParams, PendingAlphaParamsUpdate, PendingGlobalParamsUpdate,
    PendingInterestParamsUpdate, PoolGlobalParams, default_tao_interest_params,
    default_tusdt_interest_params, default_global_params,
};

verus! {

broadcast use vstd::std_specs::hash::group_hash_axioms;

/// Lending pool storage.
pub struct TusdtLendingPool {
    pub governance: AccountId,
    pub maintainer: AccountId,
    pub treasury: AccountId,
    pub platform: AccountId,
    pub paused: bool,
    /// Reentrancy guard; false between messages.
    pub busy: bool,
    /// TUSDT/TAO price oracle contract.
    pub oracle: AccountId,
    /// TUSDT token contract.
    pub tusdt: AccountId,
    /// Staking hotkey of all alpha collateral.
    pub pool_hotkey: AccountId,
    /// Accrual state of market 0 (TAO).
    pub market_tao: MarketState,
    /// Accrual state of market 1 (TUSDT).
    pub market_tusdt: MarketState,
    /// Every market id ever created, in creation order.
    pub market_keys: Vec<u8>,
    /// lTAO token contract.
    pub ltoken_tao: AccountId,
    /// lTUSDT token contract.
    pub ltoken_tusdt: AccountId,
    /// Approved netuid to alpha market id.
    pub netuid_to_market: HashMap<u16, u8>,
    /// Alpha market id to netuid.
    pub market_to_netuid: HashMap<u8, u16>,
    /// Next alpha market id.
    pub next_alpha_market_id: u8,
    /// Interest-rate curve of market 0.
    pub params_tao: InterestRateParams,
    /// Interest-rate curve of market 1.
    pub params_tusdt: InterestRateParams,
    pub alpha_params: HashMap<u16, AlphaMarketParams>,
    pub pending_params_tao: Option<PendingInterestParamsUpdate>,
    pub pending_params_tusdt: Option<PendingInterestParamsUpdate>,
    pub pending_alpha_params: HashMap<u16, PendingAlphaParamsUpdate>,
    pub global_params: PoolGlobalParams,
    pub pending_global_params: Option<PendingGlobalParamsUpdate>,
    /// Total alpha principal booked per netuid.
    pub netuid_total_collateral: HashMap<u16, Balance>,
    /// Positions by `pos_key(market, user)`.
    pub positions: HashMap<u128, Position>,
    /// Keys of non-zero positions, for paginated enumeration.
    pub position_keys: Vec<(u8, AccountId)>,
    /// Outstanding debt principal by `pos_key(market, user)`.
    pub debt_principal: HashMap<u128, Balance>,
    pub root_hotkey: AccountId,
    pub staked_tao: Balance,
    pub stake_buffer: Balance,
    pub sweep_threshold: Balance,
    pub stake_floor: Balance,
    pub last_sweep_block: Option<BlockNumber>,
    pub staking_enabled: bool,
}

/// The abstract state of the pool.
pub struct PoolView {
    pub governance: AccountId,
    pub maintainer: AccountId,
    pub treasury: AccountId,
    pub platform: AccountId,
    pub paused: bool,
    pub busy: bool,
    pub oracle: AccountId,
    pub tusdt: AccountId,
    pub pool_hotkey: AccountId,
    pub market_tao: MarketState,
    pub market_tusdt: MarketState,
    pub market_keys: Seq<u8>,
    pub ltoken_tao: AccountId,
    pub ltoken_tusdt: AccountId,
    pub netuid_to_market: Map<u16, u8>,
    pub market_to_netuid: Map<u8, u16>,
    pub next_alpha_market_id: u8,
    pub params_tao: InterestRateParams,
    pub params_tusdt: InterestRateParams,
    pub alpha_params: Map<u16, AlphaMarketParams>,
    pub pending_params_tao: Option<PendingInterestParamsUpdate>,
    pub pending_params_tusdt: Option<PendingInterestParamsUpdate>,
    pub pending_alpha_params: Map<u16, PendingAlphaParamsUpdate>,
    pub global_params: PoolGlobalParams,
    pub pending_global_params: Option<PendingGlobalParamsUpdate>,
    pub netuid_total_collateral: Map<u16, Balance>,
    pub positions: Map<u128, Position>,
    pub position_keys: Seq<(u8, AccountId)>,
    pub debt_principal: Map<u128, Balance>,
    pub root_hotkey: AccountId,
    pub staked_tao: Balance,
    pub stake_buffer: Balance,
    pub sweep_threshold: Balance,
    pub stake_floor: Balance,
    pub last_sweep_block: Option<BlockNumber>,
    pub staking_enabled: bool,
}

impl View for TusdtLendingPool {
    type V = PoolView;

    open spec fn view(&self) -> PoolView {
        PoolView {
            governance: self.governance,
            maintainer: self.maintainer,
            treasury: self.treasury,
            platform: self.platform,
            paused: self.paused,
            busy: self.busy,
            oracle: self.oracle,
            tusdt: self.tusdt,
            pool_hotkey: self.pool_hotkey,
            market_tao: self.market_tao,
            market_tusdt: self.market_tusdt,
            market_keys: self.market_keys@,
            ltoken_tao: self.ltoken_tao,
            ltoken_tusdt: self.ltoken_tusdt,
            netuid_to_market: self.netuid_to_market@,
            market_to_netuid: self.market_to_netuid@,
            next_alpha_market_id: self.next_alpha_market_id,
            params_tao: self.params_tao,
            params_tusdt: self.params_tusdt,
            alpha_params: self.alpha_params@,
            pending_params_tao: self.pending_params_tao,
            pending_params_tusdt: self.pending_params_tusdt,
            pending_alpha_params: self.pending_alpha_params@,
            global_params: self.global_params,
            pending_global_params: self.pending_global_params,
            netuid_total_collateral: self.netuid_total_collateral@,
            positions: self.positions@,
            position_keys: self.position_keys@,
            debt_principal: self.debt_principal@,
            root_hotkey: self.root_hotkey,
            staked_tao: self.staked_tao,
            stake_buffer: self.stake_buffer,
            sweep_threshold: self.sweep_threshold,
            stake_floor: self.stake_floor,
            last_sweep_block: self.last_sweep_block,
            staking_enabled: self.staking_enabled,
        }
    }
}

impl PoolView {
    /// The position of `user` in `market` (all zero when none is stored).
    pub open spec fn position(self, market: u8, user: AccountId) -> Position {
        if self.positions.contains_key(pos_key(market, user)) {
            self.positions[pos_key(market, user)]
        } else {
            zero_position()
        }
    }

    /// The booked debt principal of `user` in `market` (0 when none is stored).
    pub open spec fn principal(self, market: u8, user: AccountId) -> Balance {
        if self.debt_principal.contains_key(pos_key(market, user)) {
            self.debt_principal[pos_key(market, user)]
        } else {
            0
        }
    }

    /// The accrual state of a supply/borrow market.
    pub open spec fn market(self, id: u8) -> Option<MarketState> {
        if id == 0 {
            Some(self.market_tao)
        } else if id == 1 {
            Some(self.market_tusdt)
        } else {
            None
        }
    }

    /// The interest-rate curve of a supply/borrow market.
    pub open spec fn rate_params(self, id: u8) -> Option<InterestRateParams> {
        if id == 0 {
            Some(self.params_tao)
        } else if id == 1 {
            Some(self.params_tusdt)
        } else {
            None
        }
    }

    /// The booked alpha collateral of `netuid` (0 when none).
    pub open spec fn total_collateral(self, netuid: u16) -> Balance {
        if self.netuid_total_collateral.contains_key(netuid) {
            self.netuid_total_collateral[netuid]
        } else {
            0
        }
    }

    /// The alpha params of `netuid` (the defaults when none are set).
    pub open spec fn alpha_params_of(self, netuid: u16) -> AlphaMarketParams {
        if self.alpha_params.contains_key(netuid) {
            self.alpha_params[netuid]
        } else {
            super::params::default_alpha_params_spec()
        }
    }

    /// The view with market `id`'s accrual state replaced.
    pub open spec fn with_market(self, id: u8, s: MarketState) -> PoolView {
        if id == 0 {
            PoolView { market_tao: s, ..self }
        } else {
            PoolView { market_tusdt: s, ..self }
        }
    }
}

/// A freshly constructed pool whose deployer is `caller`.
pub open spec fn initial_pool(
    caller: AccountId,
    now: Timestamp,
    treasury: AccountId,
    tusdt_address: AccountId,
    oracle_address: AccountId,
    ltao_address: AccountId,
    ltusdt_address: AccountId,
    pool_hotkey: AccountId,
) -> PoolView {
    PoolView {
        governance: caller,
        maintainer: caller,
        treasury,
        platform: caller,
        paused: false,
        busy: false,
        oracle: oracle_address,
        tusdt: tusdt_address,
        pool_hotkey,
        market_tao: MarketState {
            total_supplied: 0,
            total_debt: 0,
            total_scaled_debt: 0,
            borrow_index: Ratio { inner: RATIO_ONE },
            exchange_rate: Ratio { inner: RATIO_ONE },
            reserve_accrued: 0,
            last_update: now,
        },
        market_tusdt: MarketState {
            total_supplied: 0,
            total_debt: 0,
            total_scaled_debt: 0,
            borrow_index: Ratio { inner: RATIO_ONE },
            exchange_rate: Ratio { inner: RATIO_ONE },
            reserve_accrued: 0,
            last_update: now,
        },
        market_keys: seq![0u8, 1u8],
        ltoken_tao: ltao_address,
        ltoken_tusdt: ltusdt_address,
        netuid_to_market: Map::empty(),
        market_to_netuid: Map::empty(),
        next_alpha_market_id: 2,
        params_tao: InterestRateParams {
            base_rate: super::params::bps(0),
            slope1: super::params::bps(400),
            slope2: super::params::bps(9600),
            optimal_utilization: super::params::bps(8000),
            reserve_factor: super::params::bps(2000),
        },
        params_tusdt: InterestRateParams {
            base_rate: super::params::bps(0),
            slope1: super::params::bps(300),
            slope2: super::params::bps(9700),
            optimal_utilization: super::params::bps(8000),
            reserve_factor: super::params::bps(2000),
        },
        alpha_params: Map::empty(),
        pending_params_tao: None,
        pending_params_tusdt: None,
        pending_alpha_params: Map::empty(),
        global_params: PoolGlobalParams {
            max_oracle_age_ms: 1_800_000,
            close_factor: super::params::bps(5000),
            performance_fee: super::params::bps(2500),
            supply_cap_tao: 0,
            supply_cap_tusdt: 0,
            borrow_cap_tao: 0,
            borrow_cap_tusdt: 0,
        },
        pending_global_params: None,
        netuid_total_collateral: Map::empty(),
        positions: Map::empty(),
        position_keys: Seq::empty(),
        debt_principal: Map::empty(),
        root_hotkey: pool_hotkey,
        staked_tao: 0,
        stake_buffer: DEFAULT_STAKE_BUFFER,
        sweep_threshold: 0,
        stake_floor: MIN_ROOT_STAKE_FLOOR,
        last_sweep_block: None,
        staking_enabled: false,
    }
}

/// Removes every occurrence of `key` from `s`, scanning backward from index `i - 1` and moving
/// the tail element into each matching slot.
pub open spec fn swap_remove_all(s: Seq<(u8, AccountId)>, key: (u8, AccountId), i: nat) -> Seq<(u8, AccountId)>
    decreases i,
{
    if i == 0 || i > s.len() {
        s
    } else {
        let j = (i - 1) as int;
        if s[j] == key {
            let last = s.len() - 1;
            let moved = if j != last { s.update(j, s[last]) } else { s };
            swap_remove_all(moved.drop_last(), key, j as nat)
        } else {
            swap_remove_all(s, key, j as nat)
        }
    }
}

/// Whether `keys` holds the pair `(market, user)`.
pub fn keys_contain(keys: &Vec<(u8, AccountId)>, market: u8, user: AccountId) -> (b: bool)
    ensures
        b == keys@.contains((market, user)),
{
    let mut i: usize = 0;
    while i < keys.len()
        invariant
            i <= keys.len(),
            forall|j: int| 0 <= j < i ==> keys@[j] != (market, user),
        decreases keys.len() - i,
    {
        let k = keys[i];
        if k.0 == market && k.1 == user {
            assert(keys@[i as int] == (market, user));
            return true;
        }
        i = i + 1;
    }
    false
}

/// How many times `(market, user)` occurs in `keys`.
pub fn keys_count(keys: &Vec<(u8, AccountId)>, market: u8, user: AccountId) -> (n: usize)
    ensures
        n == keys@.to_multiset().count((market, user)),
{
    broadcast use vstd::multiset::group_multiset_axioms, vstd::seq_lib::to_multiset_build, vstd::seq_lib::to_multiset_contains;
    let mut n: usize = 0;
    let mut i: usize = 0;
    assert(keys@.take(0) =~= Seq::<(u8, AccountId)>::empty());
    assert(!keys@.take(0).contains((market, user)));
    while i < keys.len()
        invariant
            i <= keys.len(),
            n <= i,
            n == keys@.take(i as int).to_multiset().count((market, user)),
        decreases keys.len() - i,
    {
        let ghost prev = keys@.take(i as int);
        assert(keys@.take(i + 1) =~= prev.push(keys@[i as int]));
        proof {
            vstd::seq_lib::to_multiset_build(prev, keys@[i as int]);
        }
        let k = keys[i];
        if k.0 == market && k.1 == user {
            n = n + 1;
        }
        i = i + 1;
    }
    assert(keys@.take(i as int) =~= keys@);
    n
}

impl TusdtLendingPool {
    /// A pool deployed by `caller` at `now`, with the given treasury, token, oracle, lToken
    /// contracts and staking hotkey. The deployer becomes governance, maintainer and platform.
    pub fn new(
        caller: AccountId,
        now: Timestamp,
        treasury: AccountId,
        tusdt_address: AccountId,
        oracle_address: AccountId,
        ltao_address: AccountId,
        ltusdt_address: AccountId,
        pool_hotkey: AccountId,
    ) -> (p: TusdtLendingPool)
        ensures
            p@ == initial_pool(caller, now, treasury, tusdt_address, oracle_address, ltao_address, ltusdt_address, pool_hotkey),
    {
        let mut market_keys: Vec<u8> = Vec::new();
        market_keys.push(0);
        market_keys.push(1);
        let p = TusdtLendingPool {
            governance: caller,
            maintainer: caller,
            treasury,
            platform: caller,
            paused: false,
            busy: false,
            oracle: oracle_address,
            tusdt: tusdt_address,
            pool_hotkey,
            market_tao: MarketState::new(now),
            market_tusdt: MarketState::new(now),
            market_keys,
            ltoken_tao: ltao_address,
            ltoken_tusdt: ltusdt_address,
            netuid_to_market: HashMap::new(),
            market_to_netuid: HashMap::new(),
            next_alpha_market_id: 2,
            params_tao: default_tao_interest_params(),
            params_tusdt: default_tusdt_interest_params(),
            alpha_params: HashMap::new(),
            pending_params_tao: None,
            pending_params_tusdt: None,
            pending_alpha_params: HashMap::new(),
            global_params: default_global_params(),
            pending_global_params: None,
            netuid_total_collateral: HashMap::new(),
            positions: HashMap::new(),
            position_keys: Vec::new(),
            debt_principal: HashMap::new(),
            root_hotkey: pool_hotkey,
            staked_tao: 0,
            stake_buffer: DEFAULT_STAKE_BUFFER,
            sweep_threshold: 0,
            stake_floor: MIN_ROOT_STAKE_FLOOR,
            last_sweep_block: None,
            staking_enabled: false,
        };
        assert(p@.market_keys =~= seq![0u8, 1u8]);
        p
    }

    /// Upgrade constructor: a new pool reusing existing lToken contracts (the same state as
    /// [`TusdtLendingPool::new`]).
    pub fn new_upgrade(
        caller: AccountId,
        now: Timestamp,
        treasury: AccountId,
        tusdt_address: AccountId,
        oracle_address: AccountId,
        ltao_address: AccountId,
        ltusdt_address: AccountId,
        pool_hotkey: AccountId,
    ) -> (p: TusdtLendingPool)
        ensures
            p@ == initial_pool(caller, now, treasury, tusdt_address, oracle_address, ltao_address, ltusdt_address, pool_hotkey),
    {
        Self::new(caller, now, treasury, tusdt_address, oracle_address, ltao_address, ltusdt_address, pool_hotkey)
    }

    /// A copy of the whole state.
    pub fn snapshot(&self) -> (c: TusdtLendingPool)
        ensures
            c@ == self@,
    {
        let mut market_keys: Vec<u8> = Vec::new();
        let mut i: usize = 0;
        while i < self.market_keys.len()
            invariant
                i <= self.market_keys.len(),
                market_keys@ == self.market_keys@.take(i as int),
            decreases self.market_keys.len() - i,
        {
            market_keys.push(self.market_keys[i]);
            i = i + 1;
            assert(market_keys@ =~= self.market_keys@.take(i as int));
        }
        assert(market_keys@ =~= self.market_keys@);
        let mut position_keys: Vec<(u8, AccountId)> = Vec::new();
        let mut j: usize = 0;
        while j < self.position_keys.len()
            invariant
                j <= self.position_keys.len(),
                position_keys@ == self.position_keys@.take(j as int),
            decreases self.position_keys.len() - j,
        {
            let k = self.position_keys[j];
            position_keys.push((k.0, k.1));
            j = j + 1;
            assert(position_keys@ =~= self.position_keys@.take(j as int));
        }
        assert(position_keys@ =~= self.position_keys@);
        TusdtLendingPool {
            governance: self.governance,
            maintainer: self.maintainer,
            treasury: self.treasury,
            platform: self.platform,
            paused: self.paused,
            busy: self.busy,
            oracle: self.oracle,
            tusdt: self.tusdt,
            pool_hotkey: self.pool_hotkey,
            market_tao: self.market_tao,
            market_tusdt: self.market_tusdt,
            market_keys,
            ltoken_tao: self.ltoken_tao,
            ltoken_tusdt: self.ltoken_tusdt,
            netuid_to_market: self.netuid_to_market.clone(),
            market_to_netuid: self.market_to_netuid.clone(),
            next_alpha_market_id: self.next_alpha_market_id,
            params_tao: self.params_tao,
            params_tusdt: self.params_tusdt,
            alpha_params: self.alpha_params.clone(),
            pending_params_tao: self.pending_params_tao,
            pending_params_tusdt: self.pending_params_tusdt,
            pending_alpha_params: self.pending_alpha_params.clone(),
            global_params: self.global_params,
            pending_global_params: self.pending_global_params,
            netuid_total_collateral: self.netuid_total_collateral.clone(),
            positions: self.positions.clone(),
            position_keys,
            debt_principal: self.debt_principal.clone(),
            root_hotkey: self.root_hotkey,
            staked_tao: self.staked_tao,
            stake_buffer: self.stake_buffer,
            sweep_threshold: self.sweep_threshold,
            stake_floor: self.stake_floor,
            last_sweep_block: self.last_sweep_block,
            staking_enabled: self.staking_enabled,
        }
    }

    // ── Reentrancy guard ──

    /// Takes the reentrancy guard; fails with `Reentrancy` when it is already held.
    pub fn ensure_idle(&mut self) -> (r: Result<(), Error>)
        ensures
            r is Ok <==> !old(self).busy,
            r matches Err(e) ==> e == Error::Reentrancy && final(self)@ == old(self)@,
            r is Ok ==> final(self)@ == (PoolView { busy: true, ..old(self)@ }),
    {
        if self.busy {
            return Err(Error::Reentrancy);
        }
        self.busy = true;
        Ok(())
    }

    /// Releases the reentrancy guard.
    pub fn set_idle(&mut self)
        ensures
            final(self)@ == (PoolView { busy: false, ..old(self)@ }),
    {
        self.busy = false;
    }

    // ── Role checks ──

    /// Fails with `NotGovernance` unless `caller` is governance.
    pub fn ensure_governance(&self, caller: AccountId) -> (r: Result<(), Error>)
        ensures
            r is Ok <==> caller == self.governance,
            r matches Err(e) ==> e == Error::NotGovernance,
    {
        if caller != self.governance {
            return Err(Error::NotGovernance);
        }
        Ok(())
    }

    /// Fails with `NotGovernanceOrPlatform` unless `caller` is governance or the platform.
    pub fn ensure_governance_or_platform(&self, caller: AccountId) -> (r: Result<(), Error>)
        ensures
            r is Ok <==> (caller == self.governance || caller == self.platform),
            r matches Err(e) ==> e == Error::NotGovernanceOrPlatform,
    {
        if caller != self.governance && caller != self.platform {
            return Err(Error::NotGovernanceOrPlatform);
        }
        Ok(())
    }

    /// Fails with `NotMaintainer` unless `caller` is the maintainer or governance.
    pub fn ensure_maintainer(&self, caller: AccountId) -> (r: Result<(), Error>)
        ensures
            r is Ok <==> (caller == self.maintainer || caller == self.governance),
            r matches Err(e) ==> e == Error::NotMaintainer,
    {
        if caller != self.maintainer && caller != self.governance {
            return Err(Error::NotMaintainer);
        }
        Ok(())
    }

    /// Fails with `ContractPaused` when the pool is paused.
    pub fn ensure_not_paused(&self) -> (r: Result<(), Error>)
        ensures
            r is Ok <==> !self.paused,
            r matches Err(e) ==> e == Error::ContractPaused,
    {
        if self.paused {
            return Err(Error::ContractPaused);
        }
        Ok(())
    }

    /// Fails with `UnapprovedNetuid` unless `netuid` is an approved alpha market.
    pub fn ensure_approved_netuid(&self, netuid: u16) -> (r: Result<(), Error>)
        ensures
            r is Ok <==> self@.netuid_to_market.contains_key(netuid),
            r matches Err(e) ==> e == Error::UnapprovedNetuid,
    {
        if self.netuid_to_market.get(&netuid).is_none() {
            return Err(Error::UnapprovedNetuid);
        }
        Ok(())
    }

    // ── Stored values ──

    /// The stored position of `user` in `market` (all zero when none).
    pub fn position_or_zero(&self, market: u8, user: AccountId) -> (p: Position)
        ensures
            p == self@.position(market, user),
    {
        match self.positions.get(&position_key(market, user)) {
            Some(p) => *p,
            None => Position { ltoken_balance: 0, scaled_debt: 0, alpha_principal: 0 },
        }
    }

    /// The booked debt principal of `user` in `market` (0 when none).
    pub fn principal_or_zero(&self, market: u8, user: AccountId) -> (b: Balance)
        ensures
            b == self@.principal(market, user),
    {
        match self.debt_principal.get(&position_key(market, user)) {
            Some(b) => *b,
            None => 0,
        }
    }

    /// The booked alpha collateral of `netuid` (0 when none).
    pub fn total_collateral_or_zero(&self, netuid: u16) -> (b: Balance)
        ensures
            b == self@.total_collateral(netuid),
    {
        match self.netuid_total_collateral.get(&netuid) {
            Some(b) => *b,
            None => 0,
        }
    }

    /// The alpha params of `netuid` (the defaults when none are set).
    pub fn alpha_params_or_default(&self, netuid: u16) -> (p: AlphaMarketParams)
        ensures
            p == self@.alpha_params_of(netuid),
    {
        match self.alpha_params.get(&netuid) {
            Some(p) => *p,
            None => super::params::default_alpha_params(),
        }
    }

    /// Writes the position of `user` in `market`.
    pub fn put_position(&mut self, market: u8, user: AccountId, p: Position)
        ensures
            final(self)@ == (PoolView { positions: old(self)@.positions.insert(pos_key(market, user), p), ..old(self)@ }),
    {
        self.positions.insert(position_key(market, user), p);
    }

    // ── Position key index ──

    /// Removes every occurrence of `key` from the position-key index, scanning backward and
    /// moving the tail element into each matching slot.
    pub fn remove_position_key(&mut self, key: (u8, AccountId))
        ensures
            final(self)@ == (PoolView { position_keys: swap_remove_all(old(self)@.position_keys, key, old(self)@.position_keys.len()), ..old(self)@ }),
    {
        let mut i = self.position_keys.len();
        while i > 0
            invariant
                i <= self.position_keys.len(),
                swap_remove_all(self@.position_keys, key, i as nat) == swap_remove_all(old(self)@.position_keys, key, old(self)@.position_keys.len()),
                self@ == (PoolView { position_keys: self@.position_keys, ..old(self)@ }),
            decreases i,
        {
            i = i - 1;
            let k = self.position_keys[i];
            if k.0 == key.0 && k.1 == key.1 {
                let last = self.position_keys.len() - 1;
                if i != last {
                    let tail = self.position_keys[last];
                    self.position_keys.set(i, tail);
                }
                let _ = self.position_keys.pop();
            }
        }
    }

    /// Keeps the position-key index in step with the position of `user` in `market`: when it
    /// is all zero every occurrence of its key is removed; otherwise a key listed exactly once
    /// stays in place, and any other count (none, or repeats left from older states) is healed
    /// by removing every occurrence and appending the key once.
    pub fn update_position_key(&mut self, market: u8, user: AccountId)
        ensures
            position_is_zero(old(self)@.position(market, user)) ==> final(self)@ == (PoolView { position_keys: swap_remove_all(old(self)@.position_keys, (market, user), old(self)@.position_keys.len()), ..old(self)@ }),
            !position_is_zero(old(self)@.position(market, user)) ==> final(self)@ == (PoolView {
                position_keys: if old(self)@.position_keys.to_multiset().count((market, user)) == 1 {
                    old(self)@.position_keys
                } else {
                    swap_remove_all(old(self)@.position_keys, (market, user), old(self)@.position_keys.len()).push((market, user))
                },
                ..old(self)@
            }),
    {
        let key = (market, user);
        let pos = self.position_or_zero(market, user);
        let is_zero = pos.ltoken_balance == 0 && pos.scaled_debt == 0 && pos.alpha_principal == 0;
        if is_zero {
            self.remove_position_key(key);
        } else {
            let n = keys_count(&self.position_keys, market, user);
            if n != 1 {
                self.remove_position_key(key);
                self.position_keys.push(key);
            }
        }
    }
}

/// No pair occurs twice in `s`.
pub open spec fn keys_distinct(s: Seq<(u8, AccountId)>) -> bool {
    forall|a: int, b: int| 0 <= a < b < s.len() ==> s[a] != s[b]
}

proof fn lemma_swap_remove_all(s: Seq<(u8, AccountId)>, key: (u8, AccountId), i: nat)
    requires
        i <= s.len(),
        forall|k: int| i <= k < s.len() ==> s[k] != key,
    ensures
        forall|x: (u8, AccountId)| #[trigger] swap_remove_all(s, key, i).contains(x) <==> (s.contains(x) && x != key),
        keys_distinct(s) ==> keys_distinct(swap_remove_all(s, key, i)),
    decreases i,
{
    if i == 0 {
        assert forall|x: (u8, AccountId)| #[trigger] s.contains(x) implies x != key by {
            let k = choose|k: int| 0 <= k < s.len() && s[k] == x;
        }
        assert(swap_remove_all(s, key, i) == s);
    } else {
        let j = (i - 1) as int;
        if s[j] == key {
            let last = s.len() - 1;
            let moved = if j != last { s.update(j, s[last]) } else { s };
            let t = moved.drop_last();
            lemma_swap_remove_all(t, key, j as nat);
            assert(swap_remove_all(s, key, i) == swap_remove_all(t, key, j as nat));
            assert forall|x: (u8, AccountId)| x != key implies (#[trigger] t.contains(x) <==> s.contains(x)) by {
                if s.contains(x) {
                    let k = choose|k: int| 0 <= k < s.len() && s[k] == x;
                    if k == last && j != last {
                        assert(t[j] == x);
                    } else {
                        assert(t[k] == x);
                    }
                }
                if t.contains(x) {
                    let k = choose|k: int| 0 <= k < t.len() && t[k] == x;
                    if k == j && j != last {
                        assert(s[last] == x);
                    } else {
                        assert(s[k] == x);
                    }
                }
            }
            if keys_distinct(s) {
                assert forall|a: int, b: int| 0 <= a < b < t.len() implies t[a] != t[b] by {
                    let sa = if a == j && j != last { last } else { a };
                    let sb = if b == j && j != last { last } else { b };
                    assert(t[a] == s[sa] && t[b] == s[sb]);
                }
            }
            assert forall|x: (u8, AccountId)| #[trigger] swap_remove_all(s, key, i).contains(x) <==> (s.contains(x) && x != key) by {
                assert(swap_remove_all(t, key, j as nat).contains(x) <==> (t.contains(x) && x != key));
                if x != key {
                    assert(t.contains(x) <==> s.contains(x));
                }
            }
        } else {
            lemma_swap_remove_all(s, key, j as nat);
            assert(swap_remove_all(s, key, i) == swap_remove_all(s, key, j as nat));
        }
    }
}

proof fn lemma_swap_remove_all_counts(s: Seq<(u8, AccountId)>, key: (u8, AccountId), i: nat)
    requires
        i <= s.len(),
    ensures
        forall|x: (u8, AccountId)| x != key ==> #[trigger] swap_remove_all(s, key, i).to_multiset().count(x) == s.to_multiset().count(x),
    decreases i,
{
    broadcast use vstd::multiset::group_multiset_axioms, vstd::seq_lib::to_multiset_remove, vstd::seq_lib::to_multiset_update;
    if i > 0 {
        let j = (i - 1) as int;
        if s[j] == key {
            let last = s.len() - 1;
            let moved = if j != last { s.update(j, s[last]) } else { s };
            let t = moved.drop_last();
            lemma_swap_remove_all_counts(t, key, j as nat);
            assert(swap_remove_all(s, key, i) == swap_remove_all(t, key, j as nat));
            assert(t =~= moved.remove(last));
            assert forall|x: (u8, AccountId)| x != key implies #[trigger] t.to_multiset().count(x) == s.to_multiset().count(x) by {
                if j != last {
                    assert(moved.to_multiset() == s.to_multiset().insert(s[last]).remove(s[j]));
                    assert(moved[last] == s[last]);
                }
            }
        } else {
            lemma_swap_remove_all_counts(s, key, j as nat);
            assert(swap_remove_all(s, key, i) == swap_remove_all(s, key, j as nat));
        }
    } else {
        assert(swap_remove_all(s, key, i) == s);
    }
}

/// Swap-removing `key` from a key list drops every occurrence of it and keeps every other
/// pair as often as it occurred, repeats included; a list without repeats stays without
/// repeats.
pub proof fn law_key_removal(s: Seq<(u8, AccountId)>, key: (u8, AccountId))
    ensures
        forall|x: (u8, AccountId)| #[trigger] swap_remove_all(s, key, s.len()).contains(x) <==> (s.contains(x) && x != key),
        forall|x: (u8, AccountId)| x != key ==> #[trigger] swap_remove_all(s, key, s.len()).to_multiset().count(x) == s.to_multiset().count(x),
        swap_remove_all(s, key, s.len()).to_multiset().count(key) == 0,
        keys_distinct(s) ==> keys_distinct(swap_remove_all(s, key, s.len())),
{
    broadcast use vstd::seq_lib::to_multiset_contains;
    lemma_swap_remove_all(s, key, s.len());
    lemma_swap_remove_all_counts(s, key, s.len());
    assert(!swap_remove_all(s, key, s.len()).contains(key));
}

} // verus!

//! The lending pool: TAO and TUSDT supply/borrow markets (ids 0 and 1) with interest accrual,
//! and alpha-stake collateral markets (ids 2 and up, one per approved subnet).
//!
//! Values the pool reads from the chain during a message (balances, the oracle price, alpha
//! prices, stake availability) are handed in as a [`PoolEnv`]. A message returns the effects
//! the host must carry out, in order ([`PoolEffect`]); if one fails, the message fails with that
//! effect's error and its state change is discarded, as a reverted contract call is:
//! `TusdtLendingPool::settle` states and performs that step.

use vstd::prelude::*;
use std::collections::HashMap;
use crate::ratio::{Ratio, RATIO_ONE, scale_floor, unscale_floor};
use crate::types::{AccountId, Balance, BlockNumber, Timestamp};
use crate::oracle::PriceData;

pub mod params;
pub mod rates;
pub mod risk;
pub mod pool;
pub mod ops;
pub mod supply;
pub mod borrow;
pub mod collateral;
pub mod liquidation;
pub mod admin;
pub mod views;

use params::{
    AlphaMarketParams, InterestRateParams, PendingAlphaParamsUpdate, PendingGlobalParamsUpdate,
    PendingInterestParamsUpdate, PoolGlobalParams,
};

verus! {

broadcast use vstd::std_specs::hash::group_hash_axioms;

/// Page size of the paginated position reads.
pub const PAGE_SIZE: u32 = 10;

/// Minimum alpha stake amount for collateral operations (9-decimal units).
pub const MIN_STAKE: Balance = 100_000;

/// Minimum `stake_floor` for root-subnet staking (0.002 TAO).
pub const MIN_ROOT_STAKE_FLOOR: Balance = 2_000_000;

/// Default `stake_buffer` for root-subnet staking (1 TAO kept liquid).
pub const DEFAULT_STAKE_BUFFER: Balance = 1_000_000_000;

/// Which asset a user interacts with.
#[derive(Debug, Clone, Copy, PartialEq, Eq, Structural)]
pub enum Asset {
    TAO,
    TUSDT,
}

/// Errors of the lending pool.
#[derive(Debug, Clone, Copy, PartialEq, Eq, Structural)]
pub enum Error {
    NotGovernance,
    NotGovernanceOrPlatform,
    NotMaintainer,
    ContractPaused,
    Reentrancy,
    ZeroAmount,
    LiquidityInsufficient,
    MintBelowPrecision,
    InsufficientLTokenBalance,
    SupplyCapExceeded,
    BorrowCapExceeded,
    BorrowHealthExceeded,
    RepayAmountTooHigh,
    UnapprovedNetuid,
    NetuidHasPositions,
    InsufficientCollateral,
    InsufficientAvailableStake,
    StakeTransferFailed,
    ChainExtensionFailed,
    NoAlphaStakeFound,
    TooManyNetuids,
    OracleCallFailed,
    OraclePriceUnavailable,
    OraclePriceStale,
    HealthFactorBelowThreshold,
    NotLiquidatable,
    InvalidCollateralNetuid,
    InvalidDebtMarket,
    CloseFactorExceeded,
    CollateralAwardExceedsPosition,
    InvalidRatio,
    InvalidParam,
    NoPendingMarketParamsUpdate,
    NoPendingAlphaParamsUpdate,
    NoPendingGlobalParamsUpdate,
    ParamsUpdateTimelockActive,
    TokenContractCallFailed,
    TokenTransferFromFailed,
    LTokenCallFailed,
    TransferFailed,
    MarketNotFound,
    PositionNotFound,
    ArithmeticError,
}

/// Runtime accrual state of a supply/borrow market (ids 0 and 1).
#[derive(Debug, Clone, Copy, PartialEq, Eq, Structural)]
pub struct MarketState {
    /// Total supplied, in lToken (scaled) units: face value is `total_supplied * exchange_rate`.
    pub total_supplied: Balance,
    /// Face value of all debt: `floor(total_scaled_debt * borrow_index)`.
    pub total_debt: Balance,
    /// Sum of every position's scaled debt.
    pub total_scaled_debt: Balance,
    /// Debt accumulator: a position owes `scaled_debt * borrow_index`.
    pub borrow_index: Ratio,
    /// lToken exchange rate: underlying per lToken.
    pub exchange_rate: Ratio,
    /// Protocol share of accrued interest, in underlying units.
    pub reserve_accrued: Balance,
    /// Timestamp (ms) up to which interest has been accrued.
    pub last_update: u64,
}

impl MarketState {
    /// A fresh market at time `now`: nothing supplied or borrowed, index and rate at 1.0.
    pub fn new(now: u64) -> (s: MarketState)
        ensures
            s == (MarketState {
                total_supplied: 0,
                total_debt: 0,
                total_scaled_debt: 0,
                borrow_index: Ratio { inner: RATIO_ONE },
                exchange_rate: Ratio { inner: RATIO_ONE },
                reserve_accrued: 0,
                last_update: now,
            }),
    {
        MarketState {
            total_supplied: 0,
            total_debt: 0,
            total_scaled_debt: 0,
            borrow_index: Ratio::one(),
            exchange_rate: Ratio::one(),
            reserve_accrued: 0,
            last_update: now,
        }
    }
}

/// A user's position in one market.
#[derive(Debug, Clone, Copy, PartialEq, Eq, Structural)]
pub struct Position {
    /// lToken receipt balance (supply markets only).
    pub ltoken_balance: Balance,
    /// Scaled debt: the debt is `scaled_debt * borrow_index`.
    pub scaled_debt: Balance,
    /// Alpha principal deposited (alpha markets only).
    pub alpha_principal: Balance,
}

/// The all-zero position.
pub open spec fn zero_position() -> Position {
    Position { ltoken_balance: 0, scaled_debt: 0, alpha_principal: 0 }
}

/// Whether a position holds anything.
pub open spec fn position_is_zero(p: Position) -> bool {
    p.ltoken_balance == 0 && p.scaled_debt == 0 && p.alpha_principal == 0
}

/// A user's position in one market with face values resolved.
#[derive(Debug, Clone, Copy, PartialEq, Eq, Structural)]
pub struct UserMarketPosition {
    pub market_id: u8,
    pub market_exists: bool,
    pub alpha_netuid: Option<u16>,
    pub has_position: bool,
    pub ltoken_balance: Balance,
    pub supply_face: Option<Balance>,
    pub scaled_debt: Balance,
    pub debt_face: Option<Balance>,
    pub alpha_principal: Balance,
}

/// Root-subnet staking configuration of idle TAO.
#[derive(Debug, Clone, Copy, PartialEq, Eq, Structural)]
pub struct RootStakeConfig {
    pub root_hotkey: AccountId,
    pub staking_enabled: bool,
    pub stake_buffer: Balance,
    pub sweep_threshold: Balance,
    pub stake_floor: Balance,
}

// ── Events ──

/// Emitted when a user supplies liquidity.
#[derive(Debug, Clone, Copy, PartialEq, Eq, Structural)]
pub struct LiquidDeposited {
    pub market: u8,
    pub user: AccountId,
    pub amount: Balance,
    pub ltoken_scaled: Balance,
}

/// Emitted when a user withdraws liquidity by burning lTokens.
#[derive(Debug, Clone, Copy, PartialEq, Eq, Structural)]
pub struct LiquidWithdrawn {
    pub market: u8,
    pub user: AccountId,
    pub amount: Balance,
    pub ltoken_scaled: Balance,
}

/// Emitted when a user borrows.
#[derive(Debug, Clone, Copy, PartialEq, Eq, Structural)]
pub struct Borrowed {
    pub market: u8,
    pub user: AccountId,
    pub amount: Balance,
}

/// Emitted when a user repays.
#[derive(Debug, Clone, Copy, PartialEq, Eq, Structural)]
pub struct Repaid {
    pub market: u8,
    pub user: AccountId,
    pub amount: Balance,
}

/// Emitted when a user deposits alpha collateral.
#[derive(Debug, Clone, Copy, PartialEq, Eq, Structural)]
pub struct AlphaCollateralDeposited {
    pub netuid: u16,
    pub user: AccountId,
    pub amount: Balance,
    pub market_id: u8,
}

/// Emitted when a user withdraws alpha collateral.
#[derive(Debug, Clone, Copy, PartialEq, Eq, Structural)]
pub struct AlphaCollateralWithdrawn {
    pub netuid: u16,
    pub user: AccountId,
    pub amount: Balance,
    pub effective: Balance,
    pub dest_coldkey: AccountId,
}

/// Emitted when a position is liquidated in full.
#[derive(Debug, Clone, PartialEq, Eq)]
pub struct Liquidated {
    pub user: AccountId,
    pub liquidator: AccountId,
    pub collateral_netuids: Vec<u16>,
    pub collateral_seized: Balance,
    pub platform_alpha: Balance,
    pub debt_covered_tao: Balance,
    pub debt_covered_tusdt: Balance,
}

/// Emitted when excess alpha is unstaked and its TAO sent to the treasury.
#[derive(Debug, Clone, Copy, PartialEq, Eq, Structural)]
pub struct AlphaExcessClaimed {
    pub netuid: u16,
    pub excess_alpha: Balance,
    pub tao_received: Balance,
    pub recipient: AccountId,
}

/// Emitted when reserve fees are claimed.
#[derive(Debug, Clone, Copy, PartialEq, Eq, Structural)]
pub struct ReserveClaimed {
    pub market: u8,
    pub amount: Balance,
}

/// Emitted after interest accrues on a supply/borrow market.
#[derive(Debug, Clone, Copy, PartialEq, Eq, Structural)]
pub struct MarketAccrued {
    pub market: u8,
    pub dt_hours: u64,
    pub utilization: u128,
    pub borrow_rate: u128,
    pub supply_rate: u128,
    pub reserve_delta: Balance,
}

/// Emitted when an interest-rate params update is scheduled.
#[derive(Debug, Clone, Copy, PartialEq, Eq, Structural)]
pub struct MarketParamsUpdateScheduled {
    pub market: u8,
    pub execute_after: u64,
}

/// Emitted when a scheduled interest-rate params update executes.
#[derive(Debug, Clone, Copy, PartialEq, Eq, Structural)]
pub struct MarketParamsUpdated {
    pub market: u8,
}

/// Emitted when a scheduled interest-rate params update is cancelled.
#[derive(Debug, Clone, Copy, PartialEq, Eq, Structural)]
pub struct MarketParamsUpdateCancelled {
    pub market: u8,
}

/// Emitted when an alpha params update is scheduled.
#[derive(Debug, Clone, Copy, PartialEq, Eq, Structural)]
pub struct AlphaParamsUpdateScheduled {
    pub netuid: u16,
    pub execute_after: u64,
}

/// Emitted when a scheduled alpha params update executes.
#[derive(Debug, Clone, Copy, PartialEq, Eq, Structural)]
pub struct AlphaParamsUpdated {
    pub netuid: u16,
}

/// Emitted when a scheduled alpha params update is cancelled.
#[derive(Debug, Clone, Copy, PartialEq, Eq, Structural)]
pub struct AlphaParamsUpdateCancelled {
    pub netuid: u16,
}

/// Emitted when a global params update is scheduled.
#[derive(Debug, Clone, Copy, PartialEq, Eq, Structural)]
pub struct GlobalParamsUpdateScheduled {
    pub execute_after: u64,
}

/// Emitted when a scheduled global params update executes.
#[derive(Debug, Clone, Copy, PartialEq, Eq, Structural)]
pub struct GlobalParamsUpdated {}

/// Emitted when a scheduled global params update is cancelled.
#[derive(Debug, Clone, Copy, PartialEq, Eq, Structural)]
pub struct GlobalParamsUpdateCancelled {}

/// Emitted when a subnet is approved or removed as an alpha market.
#[derive(Debug, Clone, Copy, PartialEq, Eq, Structural)]
pub struct NetuidApproved {
    pub netuid: u16,
    pub approved: bool,
    pub market_id: Option<u8>,
}

/// Emitted when a market's lToken address changes.
#[derive(Debug, Clone, Copy, PartialEq, Eq, Structural)]
pub struct LTokenAddressUpdated {
    pub market: u8,
    pub old_ltoken: AccountId,
    pub new_ltoken: AccountId,
}

/// Emitted when the governance role moves.
#[derive(Debug, Clone, Copy, PartialEq, Eq, Structural)]
pub struct PoolGovernanceUpdated {
    pub previous: AccountId,
    pub new: AccountId,
}

/// Emitted when the treasury account changes.
#[derive(Debug, Clone, Copy, PartialEq, Eq, Structural)]
pub struct PoolTreasuryUpdated {
    pub previous: AccountId,
    pub new: AccountId,
}

/// Emitted when the platform account changes.
#[derive(Debug, Clone, Copy, PartialEq, Eq, Structural)]
pub struct PoolPlatformUpdated {
    pub previous: AccountId,
    pub new: AccountId,
}

/// Emitted when the staking hotkey is migrated.
#[derive(Debug, Clone, Copy, PartialEq, Eq, Structural)]
pub struct PoolHotkeyChanged {
    pub old_hotkey: AccountId,
    pub new_hotkey: AccountId,
}

/// Emitted when the oracle address changes.
#[derive(Debug, Clone, Copy, PartialEq, Eq, Structural)]
pub struct PoolOracleAddressUpdated {
    pub previous: AccountId,
    pub new: AccountId,
}

/// Emitted when the TUSDT token address changes.
#[derive(Debug, Clone, Copy, PartialEq, Eq, Structural)]
pub struct TusdtAddressUpdated {
    pub previous: AccountId,
    pub new: AccountId,
}

/// Emitted when the pool is paused.
#[derive(Debug, Clone, Copy, PartialEq, Eq, Structural)]
pub struct PoolPaused {}

/// Emitted when the pool is unpaused.
#[derive(Debug, Clone, Copy, PartialEq, Eq, Structural)]
pub struct PoolUnpaused {}

/// Emitted when surplus TUSDT is swept to the treasury.
#[derive(Debug, Clone, Copy, PartialEq, Eq, Structural)]
pub struct PoolSurplusTusdtClaimed {
    pub recipient: AccountId,
    pub amount: Balance,
}

/// Emitted when native TAO is swept to the treasury.
#[derive(Debug, Clone, Copy, PartialEq, Eq, Structural)]
pub struct PoolNativeTransferredToTreasury {
    pub amount: Balance,
}

/// Emitted when idle TAO is staked on the root subnet.
#[derive(Debug, Clone, Copy, PartialEq, Eq, Structural)]
pub struct StakedIdleTao {
    pub amount: Balance,
}

/// Emitted when root stake is unstaked to cover an outflow.
#[derive(Debug, Clone, Copy, PartialEq, Eq, Structural)]
pub struct UnstakedIdleTao {
    pub amount: Balance,
}

/// Emitted when the root staking configuration changes.
#[derive(Debug, Clone, Copy, PartialEq, Eq, Structural)]
pub struct RootStakeConfigUpdated {
    pub root_hotkey: AccountId,
    pub staking_enabled: bool,
    pub stake_buffer: Balance,
    pub sweep_threshold: Balance,
    pub stake_floor: Balance,
}

/// Emitted when the maintainer role changes.
#[derive(Debug, Clone, Copy, PartialEq, Eq, Structural)]
pub struct PoolMaintainerUpdated {
    pub new_maintainer: AccountId,
}

/// An event emitted by a pool message.
#[derive(Debug, Clone, PartialEq, Eq)]
pub enum PoolEvent {
    LiquidDeposited(LiquidDeposited),
    LiquidWithdrawn(LiquidWithdrawn),
    Borrowed(Borrowed),
    Repaid(Repaid),
    AlphaCollateralDeposited(AlphaCollateralDeposited),
    AlphaCollateralWithdrawn(AlphaCollateralWithdrawn),
    Liquidated(Liquidated),
    AlphaExcessClaimed(AlphaExcessClaimed),
    ReserveClaimed(ReserveClaimed),
    MarketAccrued(MarketAccrued),
    MarketParamsUpdateScheduled(MarketParamsUpdateScheduled),
    MarketParamsUpdated(MarketParamsUpdated),
    MarketParamsUpdateCancelled(MarketParamsUpdateCancelled),
    AlphaParamsUpdateScheduled(AlphaParamsUpdateScheduled),
    AlphaParamsUpdated(AlphaParamsUpdated),
    AlphaParamsUpdateCancelled(AlphaParamsUpdateCancelled),
    GlobalParamsUpdateScheduled(GlobalParamsUpdateScheduled),
    GlobalParamsUpdated(GlobalParamsUpdated),
    GlobalParamsUpdateCancelled(GlobalParamsUpdateCancelled),
    NetuidApproved(NetuidApproved),
    LTokenAddressUpdated(LTokenAddressUpdated),
    PoolGovernanceUpdated(PoolGovernanceUpdated),
    PoolTreasuryUpdated(PoolTreasuryUpdated),
    PoolPlatformUpdated(PoolPlatformUpdated),
    PoolHotkeyChanged(PoolHotkeyChanged),
    PoolOracleAddressUpdated(PoolOracleAddressUpdated),
    PoolPaused(PoolPaused),
    PoolUnpaused(PoolUnpaused),
    PoolSurplusTusdtClaimed(PoolSurplusTusdtClaimed),
    PoolNativeTransferredToTreasury(PoolNativeTransferredToTreasury),
    StakedIdleTao(StakedIdleTao),
    UnstakedIdleTao(UnstakedIdleTao),
    RootStakeConfigUpdated(RootStakeConfigUpdated),
    PoolMaintainerUpdated(PoolMaintainerUpdated),
}

/// An outside effect a pool message asks the host to carry out. Each effect but `Emit` may
/// fail; the failure's error is [`effect_error`].
#[derive(Debug, Clone, PartialEq, Eq)]
pub enum PoolEffect {
    /// Send native TAO from the pool.
    TransferNative { to: AccountId, amount: Balance },
    /// `tusdt.transfer(to, amount)` from the pool.
    TusdtTransfer { to: AccountId, amount: Balance },
    /// `tusdt.transfer_from(from, pool, amount)`.
    TusdtTransferFrom { from: AccountId, amount: Balance },
    /// Mint lTokens of a supply market (0 = lTAO, 1 = lTUSDT).
    LTokenMint { market: u8, to: AccountId, amount: Balance },
    /// Burn lTokens of a supply market.
    LTokenBurn { market: u8, from: AccountId, amount: Balance },
    /// Pull the caller's stake under `hotkey` on `netuid` into the pool.
    CallerTransferStake { hotkey: AccountId, netuid: u16, amount: Balance },
    /// Transfer the pool's stake under `hotkey` on `netuid` to `dest`.
    TransferStake { dest: AccountId, hotkey: AccountId, netuid: u16, amount: Balance },
    /// Unstake from the root subnet into the pool's free balance (fails as
    /// `LiquidityInsufficient`).
    RemoveRootStake { hotkey: AccountId, amount: Balance },
    /// Unstake alpha on `netuid` into the pool's free balance.
    RemoveStake { hotkey: AccountId, netuid: u16, amount: Balance },
    /// Stake free TAO on the root subnet.
    AddRootStake { hotkey: AccountId, amount: Balance },
    /// Move the pool's stake on `netuid` from one hotkey to another.
    MoveStake { from_hotkey: AccountId, to_hotkey: AccountId, netuid: u16, amount: Balance },
    /// Emit an event.
    Emit(PoolEvent),
}

/// The error a message reports when an effect fails.
pub open spec fn effect_error(e: PoolEffect) -> Error {
    match e {
        PoolEffect::TransferNative { .. } => Error::TransferFailed,
        PoolEffect::TusdtTransfer { .. } => Error::TokenContractCallFailed,
        PoolEffect::TusdtTransferFrom { .. } => Error::TokenTransferFromFailed,
        PoolEffect::LTokenMint { .. } => Error::LTokenCallFailed,
        PoolEffect::LTokenBurn { .. } => Error::LTokenCallFailed,
        PoolEffect::CallerTransferStake { .. } => Error::StakeTransferFailed,
        PoolEffect::TransferStake { .. } => Error::ChainExtensionFailed,
        PoolEffect::RemoveRootStake { .. } => Error::LiquidityInsufficient,
        PoolEffect::RemoveStake { .. } => Error::ChainExtensionFailed,
        PoolEffect::AddRootStake { .. } => Error::ChainExtensionFailed,
        PoolEffect::MoveStake { .. } => Error::ChainExtensionFailed,
        PoolEffect::Emit(_) => Error::ArithmeticError,
    }
}

/// The error a message reports when effect `e` fails, as [`effect_error`] states.
pub fn effect_error_of(e: &PoolEffect) -> (r: Error)
    ensures
        r == effect_error(*e),
{
    match e {
        PoolEffect::TransferNative { .. } => Error::TransferFailed,
        PoolEffect::TusdtTransfer { .. } => Error::TokenContractCallFailed,
        PoolEffect::TusdtTransferFrom { .. } => Error::TokenTransferFromFailed,
        PoolEffect::LTokenMint { .. } => Error::LTokenCallFailed,
        PoolEffect::LTokenBurn { .. } => Error::LTokenCallFailed,
        PoolEffect::CallerTransferStake { .. } => Error::StakeTransferFailed,
        PoolEffect::TransferStake { .. } => Error::ChainExtensionFailed,
        PoolEffect::RemoveRootStake { .. } => Error::LiquidityInsufficient,
        PoolEffect::RemoveStake { .. } => Error::ChainExtensionFailed,
        PoolEffect::AddRootStake { .. } => Error::ChainExtensionFailed,
        PoolEffect::MoveStake { .. } => Error::ChainExtensionFailed,
        PoolEffect::Emit(_) => Error::ArithmeticError,
    }
}

/// A failed message: the effects to attempt first (whose own failure takes precedence), then
/// the error. The state change of a failed message is discarded.
#[derive(Debug, Clone, PartialEq, Eq)]
pub struct PoolFailure {
    pub attempted: Vec<PoolEffect>,
    pub error: Error,
}

/// Result of a pool message: the effects of a success, in order, or the failure.
pub type PoolResult = Result<Vec<PoolEffect>, PoolFailure>;

/// What the pool reads from the chain during one message.
#[derive(Debug, Clone, PartialEq, Eq)]
pub struct PoolEnv {
    /// The calling account.
    pub caller: AccountId,
    /// Block timestamp (ms).
    pub now: Timestamp,
    /// Block number.
    pub block: BlockNumber,
    /// The pool's free native balance (including any value sent with the call).
    pub native_balance: Balance,
    /// Native value sent with the call.
    pub transferred_value: Balance,
    /// The pool's TUSDT token balance.
    pub tusdt_balance: Balance,
    /// Total supply of the lTAO token.
    pub ltao_supply: Balance,
    /// Total supply of the lTUSDT token.
    pub ltusdt_supply: Balance,
    /// The oracle's latest committed price, if any.
    pub oracle_price: Option<PriceData>,
    /// Chain-extension alpha price (RAO per alpha) by netuid; a missing netuid is a failed query.
    pub alpha_prices: Vec<(u16, u64)>,
    /// Chain-extension available stake of the pool by netuid; a missing netuid is a failed query.
    pub stake_available: Vec<(u16, Balance)>,
}

/// The first value recorded for `k` in an association list.
pub open spec fn assoc_lookup<V>(s: Seq<(u16, V)>, k: u16) -> Option<V>
    decreases s.len(),
{
    if s.len() == 0 {
        None
    } else if s[0].0 == k {
        Some(s[0].1)
    } else {
        assoc_lookup(s.drop_first(), k)
    }
}

/// The first value recorded for `k` in an association list.
pub fn lookup_u64(s: &Vec<(u16, u64)>, k: u16) -> (r: Option<u64>)
    ensures
        r == assoc_lookup(s@, k),
{
    let mut i: usize = 0;
    assert(s@.skip(0) =~= s@);
    while i < s.len()
        invariant
            i <= s.len(),
            assoc_lookup(s@, k) == assoc_lookup(s@.skip(i as int), k),
        decreases s.len() - i,
    {
        assert(s@.skip(i as int).drop_first() =~= s@.skip(i + 1));
        if s[i].0 == k {
            return Some(s[i].1);
        }
        i = i + 1;
    }
    assert(s@.skip(i as int).len() == 0);
    None
}

/// The key under which the position of `user` in `market` is stored.
pub open spec fn pos_key(market: u8, user: AccountId) -> u128 {
    ((market as int) * 0x1_0000_0000_0000_0000 + (user as int)) as u128
}

/// The key under which the position of `user` in `market` is stored.
pub fn position_key(market: u8, user: AccountId) -> (k: u128)
    ensures
        k == pos_key(market, user),
{
    proof {
        assert((market as int) * 0x1_0000_0000_0000_0000 + (user as int) <= u128::MAX) by (nonlinear_arith)
            requires 0 <= market < 256, 0 <= user < 0x1_0000_0000_0000_0000;
    }
    (market as u128) * 0x1_0000_0000_0000_0000u128 + (user as u128)
}

/// Position keys of distinct (market, user) pairs differ.
pub proof fn lemma_pos_key_injective(m1: u8, a1: AccountId, m2: u8, a2: AccountId)
    ensures
        pos_key(m1, a1) == pos_key(m2, a2) ==> m1 == m2 && a1 == a2,
{
    assert(pos_key(m1, a1) == pos_key(m2, a2) ==> m1 == m2 && a1 == a2) by (nonlinear_arith)
        requires
            0 <= a1 < 0x1_0000_0000_0000_0000,
            0 <= a2 < 0x1_0000_0000_0000_0000,
            0 <= m1 < 256,
            0 <= m2 < 256,
    ;
}

// ── Pure market math ──

/// lTokens minted for supplying `amount` at `exchange_rate`: `floor(amount / rate)`, or `None`
/// on a zero rate or an overflow.
pub fn compute_mint_amount(amount: Balance, exchange_rate: Ratio) -> (r: Option<Balance>)
    ensures
        r is Some <==> (exchange_rate.inner != 0 && unscale_floor(amount as int, exchange_rate.inner as int) <= u64::MAX),
        r matches Some(v) ==> v == unscale_floor(amount as int, exchange_rate.inner as int),
{
    proof {
        assert((amount as int) * RATIO_ONE <= u128::MAX) by (nonlinear_arith)
            requires 0 <= amount <= u64::MAX;
    }
    match exchange_rate.checked_div_value(amount as u128) {
        Some(v) => crate::types::balance_from_u128(v),
        None => None,
    }
}

/// Underlying redeemable for `ltoken_amount` at `exchange_rate`: `floor(ltokens * rate)`, or
/// `None` on an overflow.
pub fn compute_redeem_amount(ltoken_amount: Balance, exchange_rate: Ratio) -> (r: Option<Balance>)
    ensures
        r is Some <==> (ltoken_amount * exchange_rate.inner <= u128::MAX && scale_floor(ltoken_amount as int, exchange_rate.inner as int) <= u64::MAX),
        r matches Some(v) ==> v == scale_floor(ltoken_amount as int, exchange_rate.inner as int),
{
    match exchange_rate.checked_mul_value(ltoken_amount as u128) {
        Some(v) => crate::types::balance_from_u128(v),
        None => None,
    }
}

/// Supplier-withdrawable face liquidity: `min(cash, floor(total_supplied * rate))`, or `None`
/// when the face value overflows.
pub fn compute_available_liquidity(cash: Balance, total_supplied: Balance, exchange_rate: Ratio) -> (r: Option<Balance>)
    ensures
        r is Some <==> (total_supplied * exchange_rate.inner <= u128::MAX && scale_floor(total_supplied as int, exchange_rate.inner as int) <= u64::MAX),
        r matches Some(v) ==> v == (if cash <= scale_floor(total_supplied as int, exchange_rate.inner as int) { cash as int } else { scale_floor(total_supplied as int, exchange_rate.inner as int) }),
{
    let face = match compute_redeem_amount(total_supplied, exchange_rate) {
        Some(f) => f,
        None => return None,
    };
    Some(if cash <= face { cash } else { face })
}

/// Resets the exchange rate to 1.0 once a market has fully drained.
pub fn reset_exchange_rate_when_drained(state: &mut MarketState)
    ensures
        old(state).total_supplied == 0 ==> *final(state) == (MarketState { exchange_rate: Ratio { inner: RATIO_ONE }, ..*old(state) }),
        old(state).total_supplied != 0 ==> *final(state) == *old(state),
{
    if state.total_supplied == 0 {
        state.exchange_rate = Ratio::one();
    }
}

/// Face value of scaled debt under a borrow index: `floor(scaled * index)`, or `None` on an
/// overflow.
pub fn scaled_debt_to_face(scaled: Balance, index: Ratio) -> (r: Option<Balance>)
    ensures
        r is Some <==> (scaled * index.inner <= u128::MAX && scale_floor(scaled as int, index.inner as int) <= u64::MAX),
        r matches Some(v) ==> v == scale_floor(scaled as int, index.inner as int),
{
    match index.checked_mul_value(scaled as u128) {
        Some(v) => crate::types::balance_from_u128(v),
        None => None,
    }
}

/// The part of the reserve the treasury may claim: the reserve capped at the cash.
pub fn reserve_claimable(reserve: Balance, cash: Balance) -> (r: Balance)
    ensures
        r == (if reserve <= cash { reserve } else { cash }),
{
    if reserve <= cash { reserve } else { cash }
}

/// `(threshold * collateral_value) / debt_value` as a ratio, or `None` on an overflow or a
/// zero debt.
pub fn health_factor_from_values(threshold: Ratio, collateral_value: Balance, debt_value: Balance) -> (r: Option<Ratio>)
    ensures
        r is Some <==> (debt_value != 0 && collateral_value * threshold.inner <= u128::MAX
            && scale_floor(collateral_value as int, threshold.inner as int) * RATIO_ONE <= u128::MAX),
        r matches Some(h) ==> h.inner == (scale_floor(collateral_value as int, threshold.inner as int) * RATIO_ONE) / (debt_value as int),
{
    match threshold.checked_mul_value(collateral_value as u128) {
        Some(weighted) => match Ratio::checked_from_integer(weighted) {
            Some(w) => w.checked_div_int(debt_value as u128),
            None => None,
        },
        None => None,
    }
}

} // verus!

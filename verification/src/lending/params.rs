//! Interest-rate, alpha-market and global parameters of the lending pool: their internal
//! (ratio) and external (basis-point) forms, defaults, and validation.

use vstd::prelude::*;
use crate::ratio::{Ratio, RATIO_BPS, RATIO_ONE};
use crate::types::Balance;
use super::Error;

verus! {

/// Timelock delay (ms) a pending parameter update must wait before it can execute (24 hours).
pub const PARAMS_TIMELOCK_MS: u64 = 86_400_000;

/// Per-market interest-rate parameters (ratios).
#[derive(Debug, Clone, Copy, PartialEq, Eq, Structural)]
pub struct InterestRateParams {
    pub base_rate: Ratio,
    pub slope1: Ratio,
    pub slope2: Ratio,
    pub optimal_utilization: Ratio,
    pub reserve_factor: Ratio,
}

/// External form of the interest-rate parameters (basis points).
#[derive(Debug, Clone, Copy, PartialEq, Eq, Structural)]
pub struct InterestRateParamsConfig {
    pub base_rate: u32,
    pub slope1: u32,
    pub slope2: u32,
    pub optimal_utilization: u32,
    pub reserve_factor: u32,
}

/// Per-netuid alpha collateral parameters (ratios).
#[derive(Debug, Clone, Copy, PartialEq, Eq, Structural)]
pub struct AlphaMarketParams {
    pub collateral_factor: Ratio,
    pub liquidation_threshold: Ratio,
    pub liquidation_bonus: Ratio,
    pub supply_cap: Balance,
}

/// External form of the alpha market parameters (basis points).
#[derive(Debug, Clone, Copy, PartialEq, Eq, Structural)]
pub struct AlphaMarketParamsConfig {
    pub collateral_factor: u32,
    pub liquidation_threshold: u32,
    pub liquidation_bonus: u32,
    pub supply_cap: Balance,
}

/// Global pool parameters (ratios).
#[derive(Debug, Clone, Copy, PartialEq, Eq, Structural)]
pub struct PoolGlobalParams {
    pub max_oracle_age_ms: u64,
    pub close_factor: Ratio,
    pub performance_fee: Ratio,
    pub supply_cap_tao: Balance,
    pub supply_cap_tusdt: Balance,
    pub borrow_cap_tao: Balance,
    pub borrow_cap_tusdt: Balance,
}

/// External form of the global parameters (ratios in basis points).
#[derive(Debug, Clone, Copy, PartialEq, Eq, Structural)]
pub struct PoolGlobalParamsConfig {
    pub max_oracle_age_ms: u64,
    pub close_factor: u32,
    pub performance_fee: u32,
    pub supply_cap_tao: Balance,
    pub supply_cap_tusdt: Balance,
    pub borrow_cap_tao: Balance,
    pub borrow_cap_tusdt: Balance,
}

/// A queued interest-rate parameter update awaiting its timelock.
#[derive(Debug, Clone, Copy, PartialEq, Eq, Structural)]
pub struct PendingInterestParamsUpdate {
    pub params: InterestRateParamsConfig,
    pub execute_after: u64,
}

/// A queued alpha-market parameter update awaiting its timelock.
#[derive(Debug, Clone, Copy, PartialEq, Eq, Structural)]
pub struct PendingAlphaParamsUpdate {
    pub params: AlphaMarketParamsConfig,
    pub execute_after: u64,
}

/// A queued global parameter update awaiting its timelock.
#[derive(Debug, Clone, Copy, PartialEq, Eq, Structural)]
pub struct PendingGlobalParamsUpdate {
    pub params: PoolGlobalParamsConfig,
    pub execute_after: u64,
}

/// A ratio in whole basis points, or 0 when that does not fit a `u32`.
pub open spec fn bps_or_zero(r: Ratio) -> u32 {
    if r.inner / RATIO_BPS <= u32::MAX {
        (r.inner / RATIO_BPS) as u32
    } else {
        0
    }
}

fn ratio_to_bps(r: Ratio) -> (b: u32)
    ensures
        b == bps_or_zero(r),
{
    match r.to_basis_points() {
        Some(v) => v,
        None => 0,
    }
}

impl InterestRateParams {
    /// The parameters in basis points (a ratio that does not fit reads as 0).
    pub fn to_config(&self) -> (c: InterestRateParamsConfig)
        ensures
            c == (InterestRateParamsConfig {
                base_rate: bps_or_zero(self.base_rate),
                slope1: bps_or_zero(self.slope1),
                slope2: bps_or_zero(self.slope2),
                optimal_utilization: bps_or_zero(self.optimal_utilization),
                reserve_factor: bps_or_zero(self.reserve_factor),
            }),
    {
        InterestRateParamsConfig {
            base_rate: ratio_to_bps(self.base_rate),
            slope1: ratio_to_bps(self.slope1),
            slope2: ratio_to_bps(self.slope2),
            optimal_utilization: ratio_to_bps(self.optimal_utilization),
            reserve_factor: ratio_to_bps(self.reserve_factor),
        }
    }
}

impl AlphaMarketParams {
    /// The parameters in basis points (a ratio that does not fit reads as 0).
    pub fn to_config(&self) -> (c: AlphaMarketParamsConfig)
        ensures
            c == (AlphaMarketParamsConfig {
                collateral_factor: bps_or_zero(self.collateral_factor),
                liquidation_threshold: bps_or_zero(self.liquidation_threshold),
                liquidation_bonus: bps_or_zero(self.liquidation_bonus),
                supply_cap: self.supply_cap,
            }),
    {
        AlphaMarketParamsConfig {
            collateral_factor: ratio_to_bps(self.collateral_factor),
            liquidation_threshold: ratio_to_bps(self.liquidation_threshold),
            liquidation_bonus: ratio_to_bps(self.liquidation_bonus),
            supply_cap: self.supply_cap,
        }
    }
}

impl PoolGlobalParams {
    /// The parameters with ratios in basis points (a ratio that does not fit reads as 0).
    pub fn to_config(&self) -> (c: PoolGlobalParamsConfig)
        ensures
            c == (PoolGlobalParamsConfig {
                max_oracle_age_ms: self.max_oracle_age_ms,
                close_factor: bps_or_zero(self.close_factor),
                performance_fee: bps_or_zero(self.performance_fee),
                supply_cap_tao: self.supply_cap_tao,
                supply_cap_tusdt: self.supply_cap_tusdt,
                borrow_cap_tao: self.borrow_cap_tao,
                borrow_cap_tusdt: self.borrow_cap_tusdt,
            }),
    {
        PoolGlobalParamsConfig {
            max_oracle_age_ms: self.max_oracle_age_ms,
            close_factor: ratio_to_bps(self.close_factor),
            performance_fee: ratio_to_bps(self.performance_fee),
            supply_cap_tao: self.supply_cap_tao,
            supply_cap_tusdt: self.supply_cap_tusdt,
            borrow_cap_tao: self.borrow_cap_tao,
            borrow_cap_tusdt: self.borrow_cap_tusdt,
        }
    }
}

/// The ratio of `bps` basis points.
pub open spec fn bps(b: int) -> Ratio {
    Ratio { inner: (b * RATIO_BPS) as u128 }
}

/// Default TAO market curve: base 0%, slope1 4%, slope2 96%, optimal 80%, reserve factor 20%.
pub fn default_tao_interest_params() -> (p: InterestRateParams)
    ensures
        p == (InterestRateParams {
            base_rate: bps(0),
            slope1: bps(400),
            slope2: bps(9600),
            optimal_utilization: bps(8000),
            reserve_factor: bps(2000),
        }),
{
    InterestRateParams {
        base_rate: Ratio::from_inner(0),
        slope1: Ratio::from_basis_points(400),
        slope2: Ratio::from_basis_points(9600),
        optimal_utilization: Ratio::from_basis_points(8000),
        reserve_factor: Ratio::from_basis_points(2000),
    }
}

/// Default TUSDT market curve: base 0%, slope1 3%, slope2 97%, optimal 80%, reserve factor 20%.
pub fn default_tusdt_interest_params() -> (p: InterestRateParams)
    ensures
        p == (InterestRateParams {
            base_rate: bps(0),
            slope1: bps(300),
            slope2: bps(9700),
            optimal_utilization: bps(8000),
            reserve_factor: bps(2000),
        }),
{
    InterestRateParams {
        base_rate: Ratio::from_inner(0),
        slope1: Ratio::from_basis_points(300),
        slope2: Ratio::from_basis_points(9700),
        optimal_utilization: Ratio::from_basis_points(8000),
        reserve_factor: Ratio::from_basis_points(2000),
    }
}

/// Default alpha market: collateral factor 50%, liquidation threshold 60%, bonus 5%, no cap.
pub open spec fn default_alpha_params_spec() -> AlphaMarketParams {
    AlphaMarketParams {
        collateral_factor: bps(5000),
        liquidation_threshold: bps(6000),
        liquidation_bonus: bps(500),
        supply_cap: 0,
    }
}

/// Default alpha market: collateral factor 50%, liquidation threshold 60%, bonus 5%, no cap.
pub fn default_alpha_params() -> (p: AlphaMarketParams)
    ensures
        p == default_alpha_params_spec(),
{
    AlphaMarketParams {
        collateral_factor: Ratio::from_basis_points(5000),
        liquidation_threshold: Ratio::from_basis_points(6000),
        liquidation_bonus: Ratio::from_basis_points(500),
        supply_cap: 0,
    }
}

/// Default global parameters: 30 min oracle age, 50% close factor, 25% performance fee, no caps.
pub fn default_global_params() -> (p: PoolGlobalParams)
    ensures
        p == (PoolGlobalParams {
            max_oracle_age_ms: 1_800_000,
            close_factor: bps(5000),
            performance_fee: bps(2500),
            supply_cap_tao: 0,
            supply_cap_tusdt: 0,
            borrow_cap_tao: 0,
            borrow_cap_tusdt: 0,
        }),
{
    PoolGlobalParams {
        max_oracle_age_ms: 1_800_000,
        close_factor: Ratio::from_basis_points(5000),
        performance_fee: Ratio::from_basis_points(2500),
        supply_cap_tao: 0,
        supply_cap_tusdt: 0,
        borrow_cap_tao: 0,
        borrow_cap_tusdt: 0,
    }
}

/// Whether an interest-rate config is accepted: optimal utilization in (0, 10_000], slopes
/// summing to at most 10_000, reserve factor below 10_000.
pub open spec fn interest_config_valid(c: InterestRateParamsConfig) -> bool {
    &&& 0 < c.optimal_utilization <= 10_000
    &&& c.slope1 + c.slope2 <= 10_000
    &&& c.reserve_factor < 10_000
}

/// The ratio form of an interest-rate config.
pub open spec fn interest_params_of(c: InterestRateParamsConfig) -> InterestRateParams {
    InterestRateParams {
        base_rate: bps(c.base_rate as int),
        slope1: bps(c.slope1 as int),
        slope2: bps(c.slope2 as int),
        optimal_utilization: bps(c.optimal_utilization as int),
        reserve_factor: bps(c.reserve_factor as int),
    }
}

/// Whether internal interest-rate params are accepted: base + slopes at most 100%, optimal
/// utilization in (0, 100%], reserve factor below 100%.
pub open spec fn interest_params_valid(p: InterestRateParams) -> bool {
    &&& p.base_rate.inner + p.slope1.inner + p.slope2.inner <= 10_000 * RATIO_BPS
    &&& 0 < p.optimal_utilization.inner <= RATIO_ONE
    &&& p.reserve_factor.inner < RATIO_ONE
}

/// Whether an alpha config is accepted: collateral factor below the liquidation threshold, the
/// threshold at most 10_000, bonus at most 2_500.
pub open spec fn alpha_config_valid(c: AlphaMarketParamsConfig) -> bool {
    &&& c.collateral_factor < c.liquidation_threshold
    &&& c.liquidation_threshold <= 10_000
    &&& c.liquidation_bonus <= 2_500
}

/// The ratio form of an alpha config.
pub open spec fn alpha_params_of(c: AlphaMarketParamsConfig) -> AlphaMarketParams {
    AlphaMarketParams {
        collateral_factor: bps(c.collateral_factor as int),
        liquidation_threshold: bps(c.liquidation_threshold as int),
        liquidation_bonus: bps(c.liquidation_bonus as int),
        supply_cap: c.supply_cap,
    }
}

/// Whether internal alpha params are accepted: collateral factor in (0, threshold), threshold
/// at most 100%, bonus at most 25%.
pub open spec fn alpha_params_valid(p: AlphaMarketParams) -> bool {
    &&& 0 < p.collateral_factor.inner < p.liquidation_threshold.inner
    &&& p.liquidation_threshold.inner <= RATIO_ONE
    &&& p.liquidation_bonus.inner <= 2_500 * RATIO_BPS
}

/// Whether a global config is accepted: oracle age above 0, close factor in (0, 5_000],
/// performance fee at most 5_000.
pub open spec fn global_config_valid(c: PoolGlobalParamsConfig) -> bool {
    &&& c.max_oracle_age_ms > 0
    &&& 0 < c.close_factor <= 5_000
    &&& c.performance_fee <= 5_000
}

/// The ratio form of a global config.
pub open spec fn global_params_of(c: PoolGlobalParamsConfig) -> PoolGlobalParams {
    PoolGlobalParams {
        max_oracle_age_ms: c.max_oracle_age_ms,
        close_factor: bps(c.close_factor as int),
        performance_fee: bps(c.performance_fee as int),
        supply_cap_tao: c.supply_cap_tao,
        supply_cap_tusdt: c.supply_cap_tusdt,
        borrow_cap_tao: c.borrow_cap_tao,
        borrow_cap_tusdt: c.borrow_cap_tusdt,
    }
}

/// Whether internal global params are accepted (the same bounds as the config).
pub open spec fn global_params_valid(p: PoolGlobalParams) -> bool {
    &&& p.max_oracle_age_ms > 0
    &&& 0 < p.close_factor.inner <= 5_000 * RATIO_BPS
    &&& p.performance_fee.inner <= 5_000 * RATIO_BPS
}

/// Validates a basis-point interest-rate config and converts it to ratios. Fails with
/// `InvalidParam` on an out-of-range config.
pub fn interest_params_from_config(config: InterestRateParamsConfig) -> (r: Result<
    InterestRateParams,
    Error,
>)
    ensures
        r is Ok <==> interest_config_valid(config),
        r matches Ok(p) ==> p == interest_params_of(config),
        r matches Err(e) ==> (if 0 < config.optimal_utilization <= 10_000 && config.slope1
            + config.slope2 > u32::MAX {
            e == Error::ArithmeticError
        } else {
            e == Error::InvalidParam
        }),
{
    if config.optimal_utilization == 0 || config.optimal_utilization > 10_000 {
        return Err(Error::InvalidParam);
    }
    let slope_total = match config.slope1.checked_add(config.slope2) {
        Some(v) => v,
        None => return Err(Error::ArithmeticError),
    };
    if slope_total > 10_000 {
        return Err(Error::InvalidParam);
    }
    if config.reserve_factor >= 10_000 {
        return Err(Error::InvalidParam);
    }
    Ok(InterestRateParams {
        base_rate: Ratio::from_basis_points(config.base_rate),
        slope1: Ratio::from_basis_points(config.slope1),
        slope2: Ratio::from_basis_points(config.slope2),
        optimal_utilization: Ratio::from_basis_points(config.optimal_utilization),
        reserve_factor: Ratio::from_basis_points(config.reserve_factor),
    })
}

/// Validates internal interest-rate params. Fails with `InvalidRatio` when out of range, or
/// `ArithmeticError` when base + slopes overflow.
pub fn validate_interest_params(params: &InterestRateParams) -> (r: Result<(), Error>)
    ensures
        r is Ok <==> interest_params_valid(*params),
        r matches Err(e) ==> (if params.base_rate.inner + params.slope1.inner + params.slope2.inner
            > u128::MAX {
            e == Error::ArithmeticError
        } else {
            e == Error::InvalidRatio
        }),
{
    let a = match params.base_rate.inner.checked_add(params.slope1.inner) {
        Some(v) => v,
        None => return Err(Error::ArithmeticError),
    };
    let max_rate = match a.checked_add(params.slope2.inner) {
        Some(v) => v,
        None => return Err(Error::ArithmeticError),
    };
    if max_rate > Ratio::from_basis_points(10_000).into_inner() {
        return Err(Error::InvalidRatio);
    }
    if params.optimal_utilization.is_zero() || params.optimal_utilization.inner
        > Ratio::one().into_inner() {
        return Err(Error::InvalidRatio);
    }
    if params.reserve_factor.inner >= Ratio::one().into_inner() {
        return Err(Error::InvalidRatio);
    }
    Ok(())
}

/// Validates a basis-point alpha config and converts it to ratios. Fails with `InvalidParam`.
pub fn alpha_params_from_config(config: AlphaMarketParamsConfig) -> (r: Result<
    AlphaMarketParams,
    Error,
>)
    ensures
        r is Ok <==> alpha_config_valid(config),
        r matches Ok(p) ==> p == alpha_params_of(config),
        r matches Err(e) ==> e == Error::InvalidParam,
{
    if config.collateral_factor >= config.liquidation_threshold {
        return Err(Error::InvalidParam);
    }
    if config.liquidation_threshold > 10_000 {
        return Err(Error::InvalidParam);
    }
    if config.liquidation_bonus > 2_500 {
        return Err(Error::InvalidParam);
    }
    Ok(AlphaMarketParams {
        collateral_factor: Ratio::from_basis_points(config.collateral_factor),
        liquidation_threshold: Ratio::from_basis_points(config.liquidation_threshold),
        liquidation_bonus: Ratio::from_basis_points(config.liquidation_bonus),
        supply_cap: config.supply_cap,
    })
}

/// Validates internal alpha params. Fails with `InvalidRatio`.
pub fn validate_alpha_params(params: &AlphaMarketParams) -> (r: Result<(), Error>)
    ensures
        r is Ok <==> alpha_params_valid(*params),
        r matches Err(e) ==> e == Error::InvalidRatio,
{
    if params.collateral_factor.is_zero() || params.collateral_factor.inner
        >= params.liquidation_threshold.inner {
        return Err(Error::InvalidRatio);
    }
    if params.liquidation_threshold.inner > Ratio::one().into_inner() {
        return Err(Error::InvalidRatio);
    }
    if params.liquidation_bonus.inner > Ratio::from_basis_points(2_500).into_inner() {
        return Err(Error::InvalidRatio);
    }
    Ok(())
}

/// Validates a global config and converts it to ratios. Fails with `InvalidParam`.
pub fn global_params_from_config(config: PoolGlobalParamsConfig) -> (r: Result<
    PoolGlobalParams,
    Error,
>)
    ensures
        r is Ok <==> global_config_valid(config),
        r matches Ok(p) ==> p == global_params_of(config),
        r matches Err(e) ==> e == Error::InvalidParam,
{
    if config.max_oracle_age_ms == 0 {
        return Err(Error::InvalidParam);
    }
    if config.close_factor == 0 || config.close_factor > 5_000 {
        return Err(Error::InvalidParam);
    }
    if config.performance_fee > 5_000 {
        return Err(Error::InvalidParam);
    }
    Ok(PoolGlobalParams {
        max_oracle_age_ms: config.max_oracle_age_ms,
        close_factor: Ratio::from_basis_points(config.close_factor),
        performance_fee: Ratio::from_basis_points(config.performance_fee),
        supply_cap_tao: config.supply_cap_tao,
        supply_cap_tusdt: config.supply_cap_tusdt,
        borrow_cap_tao: config.borrow_cap_tao,
        borrow_cap_tusdt: config.borrow_cap_tusdt,
    })
}

/// Validates internal global params. Fails with `InvalidRatio`.
pub fn validate_global_params(params: &PoolGlobalParams) -> (r: Result<(), Error>)
    ensures
        r is Ok <==> global_params_valid(*params),
        r matches Err(e) ==> e == Error::InvalidRatio,
{
    if params.max_oracle_age_ms == 0 {
        return Err(Error::InvalidRatio);
    }
    if params.close_factor.is_zero() || params.close_factor.inner > Ratio::from_basis_points(
        5_000,
    ).into_inner() {
        return Err(Error::InvalidRatio);
    }
    if params.performance_fee.inner > Ratio::from_basis_points(5_000).into_inner() {
        return Err(Error::InvalidRatio);
    }
    Ok(())
}

/// Converting an accepted interest-rate config to ratios and back gives the config again, and
/// the converted params pass validation.
pub proof fn law_interest_config_round_trip(c: InterestRateParamsConfig)
    requires
        interest_config_valid(c),
    ensures
        c.base_rate + c.slope1 + c.slope2 <= 10_000 ==> interest_params_valid(interest_params_of(c)),
        (InterestRateParamsConfig {
            base_rate: bps_or_zero(interest_params_of(c).base_rate),
            slope1: bps_or_zero(interest_params_of(c).slope1),
            slope2: bps_or_zero(interest_params_of(c).slope2),
            optimal_utilization: bps_or_zero(interest_params_of(c).optimal_utilization),
            reserve_factor: bps_or_zero(interest_params_of(c).reserve_factor),
        }) == c,
{
    lemma_bps_round_trip(c.base_rate);
    lemma_bps_round_trip(c.slope1);
    lemma_bps_round_trip(c.slope2);
    lemma_bps_round_trip(c.optimal_utilization);
    lemma_bps_round_trip(c.reserve_factor);
    assert(((c.base_rate as int) + (c.slope1 as int) + (c.slope2 as int)) * (RATIO_BPS as int)
        == (c.base_rate as int) * (RATIO_BPS as int) + (c.slope1 as int) * (RATIO_BPS as int) + (c.slope2 as int) * (RATIO_BPS as int)) by (nonlinear_arith);
    assert(c.base_rate + c.slope1 + c.slope2 <= 10_000 ==> ((c.base_rate as int) + (c.slope1 as int) + (c.slope2 as int)) * (RATIO_BPS as int) <= 10_000 * (RATIO_BPS as int)) by (nonlinear_arith);
    assert((c.optimal_utilization as int) * (RATIO_BPS as int) <= 10_000 * (RATIO_BPS as int)) by (nonlinear_arith)
        requires c.optimal_utilization <= 10_000;
    assert((c.reserve_factor as int) * (RATIO_BPS as int) < 10_000 * (RATIO_BPS as int)) by (nonlinear_arith)
        requires c.reserve_factor < 10_000;
}

/// Converting an accepted alpha config to ratios and back gives the config again, and the
/// converted params pass validation when the collateral factor is non-zero.
pub proof fn law_alpha_config_round_trip(c: AlphaMarketParamsConfig)
    requires
        alpha_config_valid(c),
    ensures
        c.collateral_factor > 0 ==> alpha_params_valid(alpha_params_of(c)),
        (AlphaMarketParamsConfig {
            collateral_factor: bps_or_zero(alpha_params_of(c).collateral_factor),
            liquidation_threshold: bps_or_zero(alpha_params_of(c).liquidation_threshold),
            liquidation_bonus: bps_or_zero(alpha_params_of(c).liquidation_bonus),
            supply_cap: alpha_params_of(c).supply_cap,
        }) == c,
{
    lemma_bps_round_trip(c.collateral_factor);
    lemma_bps_round_trip(c.liquidation_threshold);
    lemma_bps_round_trip(c.liquidation_bonus);
}

/// Converting an accepted global config to ratios and back gives the config again, and the
/// converted params pass validation.
pub proof fn law_global_config_round_trip(c: PoolGlobalParamsConfig)
    requires
        global_config_valid(c),
    ensures
        global_params_valid(global_params_of(c)),
        (PoolGlobalParamsConfig {
            max_oracle_age_ms: global_params_of(c).max_oracle_age_ms,
            close_factor: bps_or_zero(global_params_of(c).close_factor),
            performance_fee: bps_or_zero(global_params_of(c).performance_fee),
            supply_cap_tao: global_params_of(c).supply_cap_tao,
            supply_cap_tusdt: global_params_of(c).supply_cap_tusdt,
            borrow_cap_tao: global_params_of(c).borrow_cap_tao,
            borrow_cap_tusdt: global_params_of(c).borrow_cap_tusdt,
        }) == c,
{
    lemma_bps_round_trip(c.close_factor);
    lemma_bps_round_trip(c.performance_fee);
}

proof fn lemma_bps_round_trip(b: u32)
    ensures
        bps_or_zero(bps(b as int)) == b,
        bps(b as int).inner == b * RATIO_BPS,
{
    assert(((b as int) * (RATIO_BPS as int)) / (RATIO_BPS as int) == b as int) by (nonlinear_arith);
}

} // verus!

use tusdt::lending::params::{
    alpha_params_from_config, default_global_params, global_params_from_config,
    interest_params_from_config, AlphaMarketParamsConfig, InterestRateParams,
    InterestRateParamsConfig, PoolGlobalParamsConfig, PARAMS_TIMELOCK_MS,
};
use tusdt::lending::pool::TusdtLendingPool;
use tusdt::lending::rates::{accrue_market, compute_borrow_rate, utilization_of};
use tusdt::lending::{
    compute_mint_amount, compute_redeem_amount, health_factor_from_values, reserve_claimable,
    reset_exchange_rate_when_drained, scaled_debt_to_face, Error, MarketState, PoolEffect,
    PoolEnv, Position, MIN_ROOT_STAKE_FLOOR,
};
use tusdt::oracle::PriceData;
use tusdt::ratio::Ratio;
use tusdt::types::MILLISECONDS_PER_HOUR;

const ALICE: u64 = 1;
const BOB: u64 = 2;
const CHARLIE: u64 = 3;
const DJANGO: u64 = 4;
const EVE: u64 = 5;
const FRANK: u64 = 6;

const ONE: u128 = 1_000_000_000_000_000_000;

fn setup() -> TusdtLendingPool {
    TusdtLendingPool::new(ALICE, 0, ALICE, DJANGO, FRANK, CHARLIE, EVE, BOB)
}

fn env(caller: u64) -> PoolEnv {
    PoolEnv {
        caller,
        now: 0,
        block: 1,
        native_balance: 0,
        transferred_value: 0,
        tusdt_balance: 0,
        ltao_supply: 0,
        ltusdt_supply: 0,
        oracle_price: None,
        alpha_prices: Vec::new(),
        stake_available: Vec::new(),
    }
}

fn priced_env(caller: u64, alpha_rao: u64) -> PoolEnv {
    let mut e = env(caller);
    e.oracle_price = Some(PriceData {
        round_id: 0,
        price: Ratio::from_inner(ONE),
        median_price: Ratio::from_inner(ONE),
        reporter_count: 3,
        committed_at: 0,
        was_overridden: false,
    });
    e.alpha_prices = vec![(7, alpha_rao)];
    e
}

fn error_of(r: Result<Vec<PoolEffect>, tusdt::lending::PoolFailure>) -> Option<Error> {
    r.err().map(|f| f.error)
}

fn default_rate_params() -> InterestRateParams {
    InterestRateParams {
        base_rate: Ratio::from_inner(0),
        slope1: Ratio::from_basis_points(400),
        slope2: Ratio::from_basis_points(9600),
        optimal_utilization: Ratio::from_basis_points(8000),
        reserve_factor: Ratio::from_basis_points(2000),
    }
}

fn global_config() -> PoolGlobalParamsConfig {
    PoolGlobalParamsConfig {
        max_oracle_age_ms: 1_800_000,
        close_factor: 5000,
        performance_fee: 2500,
        supply_cap_tao: 0,
        supply_cap_tusdt: 0,
        borrow_cap_tao: 0,
        borrow_cap_tusdt: 0,
    }
}

// ── Constructor & access control ──

#[test]
fn constructor_sets_roles() {
    let pool = setup();
    assert_eq!(pool.governance(), ALICE);
    assert_eq!(pool.maintainer(), ALICE);
    assert_eq!(pool.treasury(), ALICE);
    assert_eq!(pool.platform(), ALICE);
    assert_eq!(pool.get_tusdt_address(), DJANGO);
    assert_eq!(pool.get_oracle_address(), FRANK);
    assert_eq!(pool.get_ltoken_address(0), Some(CHARLIE));
    assert_eq!(pool.get_ltoken_address(1), Some(EVE));
    assert_eq!(pool.get_ltoken_address(2), None);
    assert_eq!(pool.get_pool_hotkey(), BOB);
}

#[test]
fn paused_by_default() {
    assert!(!setup().paused());
}

#[test]
fn governance_can_pause_and_unpause() {
    let mut pool = setup();
    assert!(pool.pause(ALICE).is_ok());
    assert!(pool.paused());
    assert!(pool.unpause(ALICE).is_ok());
    assert!(!pool.paused());
}

#[test]
fn non_governance_cannot_pause() {
    let mut pool = setup();
    assert_eq!(error_of(pool.pause(BOB)), Some(Error::NotGovernanceOrPlatform));
    assert!(!pool.paused());
}

#[test]
fn platform_can_pause() {
    let mut pool = setup();
    assert!(pool.update_platform(ALICE, BOB).is_ok());
    assert_eq!(pool.platform(), BOB);
    assert!(pool.pause(BOB).is_ok());
    assert!(pool.paused());
}

#[test]
fn non_governance_cannot_unpause() {
    let mut pool = setup();
    assert!(pool.pause(ALICE).is_ok());
    assert_eq!(error_of(pool.unpause(BOB)), Some(Error::NotMaintainer));
    assert!(pool.paused());
}

#[test]
fn governance_can_update_governance() {
    let mut pool = setup();
    assert!(pool.update_governance(ALICE, BOB).is_ok());
    assert_eq!(pool.governance(), BOB);
    assert_eq!(error_of(pool.update_governance(ALICE, CHARLIE)), Some(Error::NotGovernance));
}

#[test]
fn governance_can_update_treasury() {
    let mut pool = setup();
    assert!(pool.update_treasury(ALICE, BOB).is_ok());
    assert_eq!(pool.treasury(), BOB);
    assert_eq!(error_of(pool.update_treasury(BOB, CHARLIE)), Some(Error::NotGovernance));
}

#[test]
fn maintainer_roles() {
    let mut pool = setup();
    assert!(pool.update_maintainer(ALICE, BOB).is_ok());
    assert_eq!(pool.maintainer(), BOB);
    assert!(pool.set_approved_netuid(BOB, 7, true).is_ok());
    assert_eq!(error_of(pool.update_governance(BOB, BOB)), Some(Error::NotGovernance));
    assert_eq!(error_of(pool.update_maintainer(BOB, CHARLIE)), Some(Error::NotGovernance));
    assert_eq!(error_of(pool.set_approved_netuid(CHARLIE, 8, true)), Some(Error::NotMaintainer));
}

// ── Netuid management ──

#[test]
fn governance_can_add_and_remove_alpha_market() {
    let mut pool = setup();
    assert!(!pool.is_approved_netuid(7));
    assert!(pool.set_approved_netuid(ALICE, 7, true).is_ok());
    assert!(pool.is_approved_netuid(7));
    assert_eq!(pool.get_alpha_market_ids(), vec![(2, 7)]);
    assert!(pool.set_approved_netuid(ALICE, 7, false).is_ok());
    assert!(!pool.is_approved_netuid(7));
    // The market id stays allocated: the count walks every market id ever created.
    assert_eq!(pool.get_active_netuids_count(), 1);
}

#[test]
fn duplicate_approval_is_noop() {
    let mut pool = setup();
    assert!(pool.set_approved_netuid(ALICE, 7, true).is_ok());
    assert_eq!(pool.set_approved_netuid(ALICE, 7, true), Ok(Vec::new()));
    assert_eq!(pool.get_active_netuids_count(), 1);
}

#[test]
fn removing_unapproved_netuid_is_noop() {
    let mut pool = setup();
    assert_eq!(pool.set_approved_netuid(ALICE, 9, false), Ok(Vec::new()));
}

#[test]
fn alpha_markets_list() {
    let mut pool = setup();
    assert!(pool.set_approved_netuid(ALICE, 7, true).is_ok());
    assert!(pool.set_approved_netuid(ALICE, 11, true).is_ok());
    assert_eq!(pool.get_active_netuids_count(), 2);
    let markets = pool.get_alpha_markets();
    assert_eq!(markets.len(), 2);
    assert_eq!(markets[0].0, 7);
    assert_eq!(markets[1].0, 11);
    assert_eq!(pool.get_alpha_market_ids(), vec![(2, 7), (3, 11)]);
}

#[test]
fn cannot_remove_netuid_with_positions() {
    let mut pool = setup();
    assert!(pool.set_approved_netuid(ALICE, 7, true).is_ok());
    assert!(pool.deposit_alpha(&env(BOB), 7, 1_000).is_ok());
    assert_eq!(error_of(pool.set_approved_netuid(ALICE, 7, false)), Some(Error::NetuidHasPositions));
}

// ── Interest curve ──

#[test]
fn borrow_rate_zero_at_zero_utilization() {
    assert_eq!(compute_borrow_rate(&default_rate_params(), Ratio::from_inner(0)), Ok(Ratio::from_inner(0)));
}

#[test]
fn borrow_rate_in_zone_1() {
    assert_eq!(compute_borrow_rate(&default_rate_params(), Ratio::from_basis_points(4000)), Ok(Ratio::from_basis_points(200)));
}

#[test]
fn borrow_rate_at_optimal() {
    assert_eq!(compute_borrow_rate(&default_rate_params(), Ratio::from_basis_points(8000)), Ok(Ratio::from_basis_points(400)));
}

#[test]
fn borrow_rate_in_zone_2() {
    assert_eq!(compute_borrow_rate(&default_rate_params(), Ratio::from_basis_points(9000)), Ok(Ratio::from_basis_points(5200)));
}

#[test]
fn borrow_rate_at_full_utilization() {
    assert_eq!(compute_borrow_rate(&default_rate_params(), Ratio::one()), Ok(Ratio::from_basis_points(10_000)));
}

#[test]
fn borrow_rate_with_nonzero_base() {
    let params = InterestRateParams {
        base_rate: Ratio::from_basis_points(100),
        slope1: Ratio::from_basis_points(300),
        slope2: Ratio::from_basis_points(9000),
        optimal_utilization: Ratio::from_basis_points(8000),
        reserve_factor: Ratio::from_basis_points(2000),
    };
    assert_eq!(compute_borrow_rate(&params, Ratio::from_basis_points(4000)), Ok(Ratio::from_basis_points(250)));
}

#[test]
fn utilization_values() {
    assert_eq!(utilization_of(0, 0), Ratio::from_inner(0));
    assert_eq!(utilization_of(25, 100), Ratio::from_basis_points(2500));
    assert_eq!(utilization_of(1, 3), Ratio::from_inner(333_333_333_333_333_333));
}

// ── Parameter validation ──

#[test]
fn valid_interest_params_accepted() {
    let config = InterestRateParamsConfig { base_rate: 0, slope1: 400, slope2: 9600, optimal_utilization: 8000, reserve_factor: 2000 };
    let params = interest_params_from_config(config).unwrap();
    assert_eq!(params.base_rate, Ratio::from_basis_points(0));
    assert_eq!(params.slope1, Ratio::from_basis_points(400));
    assert_eq!(params.to_config(), config);
}

#[test]
fn interest_params_rejects_zero_optimal() {
    let config = InterestRateParamsConfig { base_rate: 0, slope1: 400, slope2: 9600, optimal_utilization: 0, reserve_factor: 2000 };
    assert_eq!(interest_params_from_config(config), Err(Error::InvalidParam));
}

#[test]
fn interest_params_rejects_slope_overflow() {
    let config = InterestRateParamsConfig { base_rate: 0, slope1: 6000, slope2: 6000, optimal_utilization: 8000, reserve_factor: 2000 };
    assert_eq!(interest_params_from_config(config), Err(Error::InvalidParam));
}

#[test]
fn interest_params_rejects_full_reserve_factor() {
    let config = InterestRateParamsConfig { base_rate: 0, slope1: 400, slope2: 9600, optimal_utilization: 8000, reserve_factor: 10_000 };
    assert_eq!(interest_params_from_config(config), Err(Error::InvalidParam));
}

#[test]
fn valid_alpha_params_accepted() {
    let config = AlphaMarketParamsConfig { collateral_factor: 5000, liquidation_threshold: 6000, liquidation_bonus: 500, supply_cap: 0 };
    let params = alpha_params_from_config(config).unwrap();
    assert_eq!(params.collateral_factor, Ratio::from_basis_points(5000));
    assert_eq!(params.liquidation_threshold, Ratio::from_basis_points(6000));
    assert_eq!(params.to_config(), config);
}

#[test]
fn alpha_params_rejects_cf_ge_lt() {
    let config = AlphaMarketParamsConfig { collateral_factor: 6000, liquidation_threshold: 5000, liquidation_bonus: 500, supply_cap: 0 };
    assert_eq!(alpha_params_from_config(config), Err(Error::InvalidParam));
}

#[test]
fn alpha_params_rejects_high_bonus() {
    let config = AlphaMarketParamsConfig { collateral_factor: 5000, liquidation_threshold: 6000, liquidation_bonus: 3000, supply_cap: 0 };
    assert_eq!(alpha_params_from_config(config), Err(Error::InvalidParam));
}

#[test]
fn valid_global_params_accepted() {
    let params = global_params_from_config(global_config()).unwrap();
    assert_eq!(params.close_factor, Ratio::from_basis_points(5000));
    assert_eq!(params, default_global_params());
    assert_eq!(params.to_config(), global_config());
}

#[test]
fn global_params_rejects_zero_oracle_age() {
    let mut config = global_config();
    config.max_oracle_age_ms = 0;
    assert_eq!(global_params_from_config(config), Err(Error::InvalidParam));
}

#[test]
fn global_params_rejects_zero_close_factor() {
    let mut config = global_config();
    config.close_factor = 0;
    assert_eq!(global_params_from_config(config), Err(Error::InvalidParam));
}

#[test]
fn global_params_rejects_high_close_factor() {
    let mut config = global_config();
    config.close_factor = 6000;
    assert_eq!(global_params_from_config(config), Err(Error::InvalidParam));
}

// ── Timelocked parameter updates ──

#[test]
fn schedule_and_execute_market_params() {
    let mut pool = setup();
    let config = InterestRateParamsConfig { base_rate: 100, slope1: 500, slope2: 9000, optimal_utilization: 7000, reserve_factor: 1000 };
    assert!(pool.set_market_params(ALICE, 0, 1, config).is_ok());
    assert_eq!(pool.get_pending_market_params_update(1).unwrap().execute_after, PARAMS_TIMELOCK_MS);
    assert_eq!(error_of(pool.execute_market_params_update(PARAMS_TIMELOCK_MS - 1, 1)), Some(Error::ParamsUpdateTimelockActive));
    assert!(pool.execute_market_params_update(PARAMS_TIMELOCK_MS, 1).is_ok());
    assert_eq!(pool.get_market_params(1), Some(config));
    assert_eq!(pool.get_pending_market_params_update(1), None);
}

#[test]
fn cancel_market_params_update() {
    let mut pool = setup();
    let config = InterestRateParamsConfig { base_rate: 100, slope1: 500, slope2: 9000, optimal_utilization: 7000, reserve_factor: 1000 };
    let before = pool.get_market_params(0);
    assert!(pool.set_market_params(ALICE, 0, 0, config).is_ok());
    assert_eq!(error_of(pool.cancel_market_params_update(BOB, 0)), Some(Error::NotMaintainer));
    assert!(pool.cancel_market_params_update(ALICE, 0).is_ok());
    assert_eq!(pool.get_pending_market_params_update(0), None);
    assert_eq!(pool.get_market_params(0), before);
}

#[test]
fn non_governance_cannot_schedule_market_params() {
    let mut pool = setup();
    let config = InterestRateParamsConfig { base_rate: 100, slope1: 500, slope2: 9000, optimal_utilization: 7000, reserve_factor: 1000 };
    assert_eq!(error_of(pool.set_market_params(BOB, 0, 0, config)), Some(Error::NotMaintainer));
}

#[test]
fn cancel_without_pending_is_error() {
    let mut pool = setup();
    assert_eq!(error_of(pool.cancel_market_params_update(ALICE, 0)), Some(Error::NoPendingMarketParamsUpdate));
    assert_eq!(error_of(pool.cancel_global_params_update(ALICE)), Some(Error::NoPendingGlobalParamsUpdate));
}

#[test]
fn execute_without_pending_is_error() {
    let mut pool = setup();
    assert_eq!(error_of(pool.execute_market_params_update(0, 0)), Some(Error::NoPendingMarketParamsUpdate));
    assert_eq!(error_of(pool.execute_global_params_update(0)), Some(Error::NoPendingGlobalParamsUpdate));
}

#[test]
fn schedule_and_execute_global_params() {
    let mut pool = setup();
    let mut config = global_config();
    config.borrow_cap_tusdt = 1_000;
    assert!(pool.set_global_params(ALICE, 5, config).is_ok());
    assert_eq!(error_of(pool.execute_global_params_update(PARAMS_TIMELOCK_MS)), Some(Error::ParamsUpdateTimelockActive));
    assert!(pool.execute_global_params_update(PARAMS_TIMELOCK_MS + 5).is_ok());
    assert_eq!(pool.get_global_params(), config);
}

#[test]
fn schedule_and_execute_alpha_params() {
    let mut pool = setup();
    let config = AlphaMarketParamsConfig { collateral_factor: 4000, liquidation_threshold: 7000, liquidation_bonus: 800, supply_cap: 10 };
    assert_eq!(error_of(pool.set_alpha_params(ALICE, 0, 7, config)), Some(Error::UnapprovedNetuid));
    assert!(pool.set_approved_netuid(ALICE, 7, true).is_ok());
    assert_eq!(pool.get_alpha_params(7), None);
    assert!(pool.set_alpha_params(ALICE, 0, 7, config).is_ok());
    assert!(pool.execute_alpha_params_update(PARAMS_TIMELOCK_MS, 7).is_ok());
    assert_eq!(pool.get_alpha_params(7), Some(config));
}

#[test]
fn cancel_alpha_params_update() {
    let mut pool = setup();
    let config = AlphaMarketParamsConfig { collateral_factor: 4000, liquidation_threshold: 7000, liquidation_bonus: 800, supply_cap: 10 };
    assert!(pool.set_approved_netuid(ALICE, 7, true).is_ok());
    assert!(pool.set_alpha_params(ALICE, 0, 7, config).is_ok());
    assert!(pool.get_pending_alpha_params_update(7).is_some());
    assert!(pool.cancel_alpha_params_update(ALICE, 7).is_ok());
    assert!(pool.get_pending_alpha_params_update(7).is_none());
    assert_eq!(error_of(pool.cancel_alpha_params_update(ALICE, 7)), Some(Error::NoPendingAlphaParamsUpdate));
}

// ── Alpha collateral ──

#[test]
fn deposit_alpha_succeeds() {
    let mut pool = setup();
    assert!(pool.set_approved_netuid(ALICE, 7, true).is_ok());
    let (market, effects) = pool.deposit_alpha(&env(BOB), 7, 1_000).unwrap();
    assert_eq!(market, 2);
    assert_eq!(effects[0], PoolEffect::CallerTransferStake { hotkey: BOB, netuid: 7, amount: 1_000 });
    assert_eq!(effects.len(), 2);
    assert_eq!(pool.get_user_alpha_position(BOB, 7), Some(1_000));
    assert_eq!(pool.get_netuid_total_collateral(7), Some(1_000));
    assert_eq!(pool.get_position(2, BOB).unwrap().alpha_principal, 1_000);
}

#[test]
fn deposit_alpha_rejects_zero_amount() {
    let mut pool = setup();
    assert!(pool.set_approved_netuid(ALICE, 7, true).is_ok());
    assert_eq!(pool.deposit_alpha(&env(BOB), 7, 0).err().map(|f| f.error), Some(Error::ZeroAmount));
}

#[test]
fn deposit_alpha_rejects_unapproved_netuid() {
    let mut pool = setup();
    assert_eq!(pool.deposit_alpha(&env(BOB), 7, 5).err().map(|f| f.error), Some(Error::UnapprovedNetuid));
}

#[test]
fn deposit_alpha_rejected_when_paused() {
    let mut pool = setup();
    assert!(pool.set_approved_netuid(ALICE, 7, true).is_ok());
    assert!(pool.pause(ALICE).is_ok());
    assert_eq!(pool.deposit_alpha(&env(BOB), 7, 5).err().map(|f| f.error), Some(Error::ContractPaused));
    assert!(pool.unpause(ALICE).is_ok());
    assert!(pool.deposit_alpha(&env(BOB), 7, 5).is_ok());
}

#[test]
fn withdraw_alpha_round_trip() {
    let mut pool = setup();
    assert!(pool.set_approved_netuid(ALICE, 7, true).is_ok());
    assert!(pool.deposit_alpha(&env(BOB), 7, 1_000).is_ok());
    let mut e = env(BOB);
    assert_eq!(error_of(pool.withdraw_alpha(&e, 7, 400, BOB)), Some(Error::ChainExtensionFailed));
    e.stake_available = vec![(7, 10_000)];
    let effects = pool.withdraw_alpha(&e, 7, 400, CHARLIE).unwrap();
    assert!(effects.contains(&PoolEffect::TransferStake { dest: CHARLIE, hotkey: BOB, netuid: 7, amount: 400 }));
    assert_eq!(pool.get_user_alpha_position(BOB, 7), Some(600));
    assert_eq!(error_of(pool.withdraw_alpha(&e, 7, 601, BOB)), Some(Error::InsufficientCollateral));
    assert!(pool.withdraw_alpha(&e, 7, 600, BOB).is_ok());
    assert_eq!(pool.get_netuid_total_collateral(7), Some(0));
    assert!(pool.get_all_positions(0).is_empty());
}

// ── Market state and conversions ──

#[test]
fn market_state_defaults() {
    let pool = setup();
    let s = pool.get_market_state(0).unwrap();
    assert_eq!(s, MarketState::new(0));
    assert_eq!(pool.get_market_state(2), None);
    assert_eq!(pool.get_exchange_rate(1), Some(Ratio::one()));
    assert_eq!(pool.get_borrow_index(0), Some(Ratio::one()));
    assert_eq!(pool.get_last_interest_accrual_times(), Some((0, 0)));
}

#[test]
fn utilization_zero_when_idle() {
    let pool = setup();
    assert_eq!(pool.get_utilization(&env(ALICE), 0), Some(Ratio::from_inner(0)));
    assert_eq!(pool.get_borrow_rate(&env(ALICE), 0), Some(Ratio::from_inner(0)));
}

#[test]
fn exchange_rate_starts_at_one() {
    assert_eq!(compute_mint_amount(100, Ratio::one()), Some(100));
    assert_eq!(compute_redeem_amount(100, Ratio::one()), Some(100));
}

#[test]
fn mint_amount_scales_by_exchange_rate() {
    let rate = Ratio::from_inner(1_100_000_000_000_000_000);
    assert_eq!(compute_mint_amount(110_000_000_000, rate), Some(100_000_000_000));
    assert_eq!(compute_mint_amount(1, rate), Some(0));
}

#[test]
fn redeem_amount_includes_accrued_interest() {
    let rate = Ratio::from_inner(1_100_000_000_000_000_000);
    assert_eq!(compute_redeem_amount(100_000_000_000, rate), Some(110_000_000_000));
}

#[test]
fn supply_then_redeem_never_over_credits() {
    let rate = Ratio::from_inner(1_000_316_946_018_546_683);
    for amount in [1u64, 7, 999, 5_000_000_000, 123_456_789_012] {
        let minted = compute_mint_amount(amount, rate).unwrap();
        assert!(compute_redeem_amount(minted, rate).unwrap() <= amount);
    }
}

#[test]
fn exchange_rate_resets_when_market_fully_drains() {
    let mut state = MarketState {
        total_supplied: 0,
        total_debt: 0,
        total_scaled_debt: 0,
        borrow_index: Ratio::from_inner(1_050_000_000_000_000_000),
        exchange_rate: Ratio::from_inner(1_100_000_000_000_000_000),
        reserve_accrued: 0,
        last_update: 0,
    };
    reset_exchange_rate_when_drained(&mut state);
    assert_eq!(state.exchange_rate, Ratio::one());
    assert_eq!(state.borrow_index, Ratio::from_inner(1_050_000_000_000_000_000));
}

#[test]
fn exchange_rate_survives_debt_repayment_while_supplied() {
    let mut state = MarketState {
        total_supplied: 100_000_000_000,
        total_debt: 0,
        total_scaled_debt: 0,
        borrow_index: Ratio::one(),
        exchange_rate: Ratio::from_inner(1_100_000_000_000_000_000),
        reserve_accrued: 0,
        last_update: 0,
    };
    reset_exchange_rate_when_drained(&mut state);
    assert_eq!(state.exchange_rate, Ratio::from_inner(1_100_000_000_000_000_000));
}

#[test]
fn borrow_scaling_divides_amount_by_borrow_index() {
    let amount: u128 = 10_000_000_000;
    assert_eq!(Ratio::one().checked_div_value(amount), Some(amount));
    let two = Ratio::from_inner(2 * ONE);
    assert_eq!(two.checked_div_value(amount), Some(5_000_000_000));
}

#[test]
fn borrow_scaling_rounds_up_to_never_understate_debt() {
    let amount: u128 = 5_000_000_000;
    let index = Ratio::from_inner(1_000_316_946_018_546_683);
    let scaled_floor = index.checked_div_value(amount).unwrap();
    let scaled_ceil = index.checked_div_value_ceil(amount).unwrap();
    assert_eq!(scaled_floor, 4_998_415_772);
    assert_eq!(scaled_ceil, 4_998_415_773);
    assert_eq!(index.checked_mul_value(scaled_floor), Some(4_999_999_999));
    let debt_ceil = index.checked_mul_value(scaled_ceil).unwrap();
    assert_eq!(debt_ceil, 5_000_000_000);
    let partial = debt_ceil - 1;
    let scaled_repaid = index.checked_div_value_ceil(partial).unwrap();
    assert_eq!(scaled_repaid, scaled_ceil - 1);
    assert_eq!(index.checked_mul_value(scaled_ceil - scaled_repaid), Some(1));
    assert_eq!(index.checked_div_value_ceil(debt_ceil), Some(scaled_ceil));
}

#[test]
fn full_repay_bookkeeping_clears_position_and_total_exactly() {
    let index = Ratio::from_inner(1_000_316_946_018_546_683);
    for scaled in [1u128, 2] {
        let debt = index.checked_mul_value(scaled).unwrap();
        assert_eq!(debt, scaled);
        assert_eq!(index.checked_div_value_ceil(debt), Some(scaled));
        assert_eq!(scaled_debt_to_face(0, index), Some(0));
    }
}

#[test]
fn scaled_total_keeps_face_total_at_least_the_sum_of_user_debts() {
    let index = Ratio::from_inner(1_400_000_000_000_000_000);
    let total_face = scaled_debt_to_face(5, index).unwrap();
    let a_face = scaled_debt_to_face(2, index).unwrap();
    let b_face = scaled_debt_to_face(3, index).unwrap();
    assert_eq!((total_face, a_face, b_face), (7, 2, 4));
    assert!(total_face >= a_face + b_face);
    assert_eq!(index.checked_div_value_ceil(a_face as u128), Some(2));
    assert!(scaled_debt_to_face(3, index).unwrap() >= b_face);
    assert_eq!(index.checked_div_value_ceil(b_face as u128), Some(3));
}

#[test]
fn liquidate_bookkeeping_subtracts_the_same_scaled_units_from_total_and_position() {
    let index = Ratio::from_inner(1_400_000_000_000_000_000);
    let borrower_debt = scaled_debt_to_face(3, index).unwrap();
    assert_eq!(borrower_debt, 4);
    assert_eq!(index.checked_div_value_ceil(borrower_debt as u128), Some(3));
    assert_eq!(scaled_debt_to_face(5, index), Some(7));
}

#[test]
fn sub_index_repay_credits_one_scaled_unit_instead_of_being_rejected() {
    let index = Ratio::from_inner(1_000_160_150_930_897_932);
    let one_rao = index.checked_div_value_ceil(1).unwrap();
    assert_eq!(one_rao, 1);
    assert!(index.checked_mul_value(one_rao).unwrap() >= 1);
}

#[test]
fn reserve_and_health_helpers() {
    assert_eq!(reserve_claimable(10, 4), 4);
    assert_eq!(reserve_claimable(3, 40), 3);
    assert_eq!(health_factor_from_values(Ratio::from_basis_points(6000), 1_000, 0), None);
    assert_eq!(health_factor_from_values(Ratio::from_basis_points(6000), 1_000, 600), Some(Ratio::one()));
    assert_eq!(health_factor_from_values(Ratio::from_basis_points(6000), 1_000, 1_200), Some(Ratio::from_basis_points(5000)));
}

// ── Interest accrual ──

#[test]
fn accrue_interest_derives_face_total_from_scaled_total() {
    let mut pool = setup();
    let scaled: u64 = 128_000_000_000;
    pool.store_market(0, MarketState {
        total_supplied: 130_000_000_000,
        total_debt: scaled,
        total_scaled_debt: scaled,
        borrow_index: Ratio::one(),
        exchange_rate: Ratio::one(),
        reserve_accrued: 0,
        last_update: 0,
    });
    let mut e = env(ALICE);
    e.now = MILLISECONDS_PER_HOUR + 1;
    e.native_balance = 2_000_000_000;
    assert!(pool.accrue_interest(&e, 0).unwrap().is_some());
    let state = pool.get_market_state(0).unwrap();
    assert_eq!(state.total_scaled_debt, scaled);
    assert_eq!(Some(state.total_debt), scaled_debt_to_face(scaled, state.borrow_index));
    assert!(state.total_debt > scaled);
    assert!(state.exchange_rate.inner > ONE);
    // The remainder below a whole hour is kept for the next accrual.
    assert_eq!(state.last_update, MILLISECONDS_PER_HOUR);
}

#[test]
fn sub_hour_accrual_is_a_noop() {
    let state = MarketState {
        total_supplied: 100,
        total_debt: 50,
        total_scaled_debt: 50,
        borrow_index: Ratio::one(),
        exchange_rate: Ratio::one(),
        reserve_accrued: 0,
        last_update: 10,
    };
    let params = default_rate_params();
    assert_eq!(accrue_market(0, state, &params, 50, 10 + MILLISECONDS_PER_HOUR - 1), Ok((state, None)));
    assert_eq!(accrue_market(0, state, &params, 50, 9), Err(Error::ArithmeticError));
}

#[test]
fn accrual_of_an_idle_market_only_moves_the_clock() {
    let state = MarketState::new(0);
    let (s2, ev) = accrue_market(1, state, &default_rate_params(), 0, 5 * MILLISECONDS_PER_HOUR + 3).unwrap();
    assert_eq!(ev, None);
    assert_eq!(s2.last_update, 5 * MILLISECONDS_PER_HOUR + 3);
    assert_eq!(s2.borrow_index, Ratio::one());
}

// ── Supply / withdraw ──

#[test]
fn supply_and_withdraw_tusdt() {
    let mut pool = setup();
    let effects = pool.supply_tusdt(&env(ALICE), 500).unwrap();
    assert!(effects.contains(&PoolEffect::TusdtTransferFrom { from: ALICE, amount: 500 }));
    assert!(effects.contains(&PoolEffect::LTokenMint { market: 1, to: ALICE, amount: 500 }));
    assert_eq!(pool.get_position(1, ALICE).unwrap().ltoken_balance, 500);
    assert_eq!(pool.get_market_state(1).unwrap().total_supplied, 500);
    assert_eq!(pool.get_underlying_balance(1, ALICE), Some(500));
    assert_eq!(error_of(pool.supply_tusdt(&env(ALICE), 0)), Some(Error::ZeroAmount));

    let mut e = env(ALICE);
    e.tusdt_balance = 500;
    e.ltusdt_supply = 500;
    assert_eq!(error_of(pool.withdraw_tusdt(&e, 501)), Some(Error::InsufficientLTokenBalance));
    let effects = pool.withdraw_tusdt(&e, 200).unwrap();
    assert!(effects.contains(&PoolEffect::TusdtTransfer { to: ALICE, amount: 200 }));
    assert!(effects.contains(&PoolEffect::LTokenBurn { market: 1, from: ALICE, amount: 200 }));
    assert_eq!(pool.get_position(1, ALICE).unwrap().ltoken_balance, 300);
    assert_eq!(pool.get_market_state(1).unwrap().total_supplied, 300);
}

#[test]
fn supply_rejected_when_paused() {
    let mut pool = setup();
    assert!(pool.pause(ALICE).is_ok());
    assert_eq!(error_of(pool.supply_tusdt(&env(ALICE), 5)), Some(Error::ContractPaused));
    assert_eq!(pool.get_position(1, ALICE), None);
}

// ── Borrow / repay / liquidate ──

fn funded_pool() -> TusdtLendingPool {
    let mut pool = setup();
    assert!(pool.set_approved_netuid(ALICE, 7, true).is_ok());
    assert!(pool.deposit_alpha(&env(BOB), 7, 1_000_000_000_000).is_ok());
    assert!(pool.supply_tusdt(&env(ALICE), 500_000_000_000).is_ok());
    pool
}

#[test]
fn borrow_and_repay_tusdt_in_lockstep() {
    let mut pool = funded_pool();
    let mut e = priced_env(BOB, 1_000_000_000);
    e.tusdt_balance = 500_000_000_000;
    e.ltusdt_supply = 500_000_000_000;
    let effects = pool.borrow_tusdt(&e, 100_000_000_000).unwrap();
    assert!(effects.contains(&PoolEffect::TusdtTransfer { to: BOB, amount: 100_000_000_000 }));
    let pos = pool.get_position(1, BOB).unwrap();
    let state = pool.get_market_state(1).unwrap();
    assert!(pos.scaled_debt >= 100_000_000_000);
    assert_eq!(state.total_scaled_debt, pos.scaled_debt);
    let debt = pool.get_user_debt(1, BOB).unwrap();
    assert!(debt >= 100_000_000_000);
    // The prepaid hour is part of the scaled debt, so the principal estimate is the whole debt.
    assert!(debt > 100_000_000_000);
    assert_eq!(pool.get_user_debt_details(1, BOB), Some((debt, debt)));

    // Borrowing beyond the collateral factor is refused and changes nothing.
    assert_eq!(error_of(pool.borrow_tusdt(&e, 450_000_000_000)), Some(Error::BorrowHealthExceeded));
    assert_eq!(pool.get_position(1, BOB).unwrap(), pos);

    let mut r = env(BOB);
    r.tusdt_balance = 400_000_000_000;
    let effects = pool.repay_tusdt(&r, u64::MAX).unwrap();
    assert!(effects.contains(&PoolEffect::TusdtTransferFrom { from: BOB, amount: debt }));
    assert_eq!(pool.get_user_debt(1, BOB), Some(0));
    assert_eq!(pool.get_market_state(1).unwrap().total_scaled_debt, 0);
    assert_eq!(pool.get_market_state(1).unwrap().total_debt, 0);
}

#[test]
fn borrow_requires_oracle_price() {
    let mut pool = funded_pool();
    let mut e = env(BOB);
    e.tusdt_balance = 500_000_000_000;
    assert_eq!(error_of(pool.borrow_tusdt(&e, 1_000)), Some(Error::OraclePriceUnavailable));
    let mut stale = priced_env(BOB, 1_000_000_000);
    stale.tusdt_balance = 500_000_000_000;
    stale.now = 1_800_001;
    assert_eq!(error_of(pool.borrow_tusdt(&stale, 1_000)), Some(Error::OraclePriceStale));
    assert_eq!(error_of(pool.borrow_tusdt(&e, 0)), Some(Error::ZeroAmount));
}

#[test]
fn borrow_rejects_beyond_liquidity() {
    let mut pool = funded_pool();
    let mut e = priced_env(BOB, 1_000_000_000);
    e.tusdt_balance = 10;
    assert_eq!(error_of(pool.borrow_tusdt(&e, 11)), Some(Error::LiquidityInsufficient));
}

#[test]
fn liquidation_clears_borrower_debt_and_seizes_collateral() {
    let mut pool = funded_pool();
    let mut e = priced_env(BOB, 1_000_000_000);
    e.tusdt_balance = 500_000_000_000;
    assert!(pool.borrow_tusdt(&e, 400_000_000_000).is_ok());
    let debt = pool.get_user_debt(1, BOB).unwrap();

    // Healthy borrowers cannot be liquidated.
    let mut l = priced_env(CHARLIE, 1_000_000_000);
    l.tusdt_balance = 100_000_000_000;
    assert_eq!(error_of(pool.liquidate(&l, BOB)), Some(Error::NotLiquidatable));
    assert_eq!(pool.is_liquidatable(&l, BOB), Ok(false));

    // The alpha price halves: the position falls below its liquidation threshold.
    let mut l = priced_env(CHARLIE, 500_000_000);
    l.tusdt_balance = 100_000_000_000;
    assert_eq!(pool.is_liquidatable(&l, BOB), Ok(true));
    let total_before = pool.get_market_state(1).unwrap().total_scaled_debt;
    let scaled_before = pool.get_position(1, BOB).unwrap().scaled_debt;
    let effects = pool.liquidate(&l, BOB).unwrap();
    assert!(effects.contains(&PoolEffect::TusdtTransferFrom { from: CHARLIE, amount: debt }));
    assert_eq!(pool.get_user_debt(1, BOB), Some(0));
    assert_eq!(pool.get_user_alpha_position(BOB, 7), Some(0));
    assert_eq!(pool.get_netuid_total_collateral(7), Some(0));
    assert_eq!(total_before - pool.get_market_state(1).unwrap().total_scaled_debt, scaled_before);
    let seized: u64 = effects
        .iter()
        .map(|e| match e {
            PoolEffect::TransferStake { amount, .. } => *amount,
            _ => 0,
        })
        .sum();
    assert_eq!(seized, 1_000_000_000_000);
}

// ── Position keys ──

#[test]
fn update_position_key_tracks_nonzero_positions() {
    let mut pool = setup();
    let p = Position { ltoken_balance: 5, scaled_debt: 0, alpha_principal: 0 };
    pool.put_position(0, ALICE, p);
    pool.update_position_key(0, ALICE);
    pool.update_position_key(0, ALICE);
    assert_eq!(pool.get_all_positions(0), vec![((0, ALICE), p)]);
    pool.put_position(0, ALICE, Position { ltoken_balance: 0, scaled_debt: 0, alpha_principal: 0 });
    pool.update_position_key(0, ALICE);
    assert!(pool.get_all_positions(0).is_empty());
}

#[test]
fn update_position_key_self_heals_legacy_duplicates() {
    let mut pool = setup();
    let p = Position { ltoken_balance: 100, scaled_debt: 0, alpha_principal: 0 };
    pool.put_position(0, ALICE, p);
    pool.put_position(1, BOB, Position { ltoken_balance: 7, scaled_debt: 0, alpha_principal: 0 });
    pool.update_position_key(1, BOB);
    pool.position_keys.push((0, ALICE));
    pool.position_keys.push((0, ALICE));
    pool.position_keys.push((0, ALICE));
    // Reads drop the repeats.
    let all = pool.get_all_positions(0);
    assert_eq!(all.len(), 2);
    // The update removes every repeat and keeps the key exactly once.
    pool.update_position_key(0, ALICE);
    assert_eq!(pool.position_keys.iter().filter(|k| **k == (0, ALICE)).count(), 1);
    assert_eq!(pool.position_keys.iter().filter(|k| **k == (1, BOB)).count(), 1);
    assert_eq!(pool.position_keys.len(), 2);
    let all = pool.get_all_positions(0);
    assert_eq!(all.len(), 2);
    assert!(all.contains(&((0, ALICE), p)));
    // A second update changes nothing.
    let before = pool.position_keys.clone();
    pool.update_position_key(0, ALICE);
    assert_eq!(pool.position_keys, before);
}

#[test]
fn swap_removal_preserves_other_keys() {
    let mut pool = setup();
    for (m, u) in [(0u8, ALICE), (1, BOB), (0, CHARLIE), (1, DJANGO)] {
        pool.put_position(m, u, Position { ltoken_balance: 1, scaled_debt: 0, alpha_principal: 0 });
        pool.update_position_key(m, u);
    }
    pool.remove_position_key((1, BOB));
    let keys: Vec<(u8, u64)> = pool.get_all_positions(0).into_iter().map(|(k, _)| k).collect();
    assert_eq!(keys.len(), 3);
    assert!(keys.contains(&(0, ALICE)));
    assert!(keys.contains(&(0, CHARLIE)));
    assert!(keys.contains(&(1, DJANGO)));
    assert!(!keys.contains(&(1, BOB)));
}

#[test]
fn multi_market_positions_independent() {
    let mut pool = setup();
    assert!(pool.set_approved_netuid(ALICE, 7, true).is_ok());
    assert!(pool.supply_tusdt(&env(BOB), 50).is_ok());
    assert!(pool.deposit_alpha(&env(BOB), 7, 70).is_ok());
    let mine = pool.get_positions(BOB, 0);
    assert_eq!(mine.len(), 2);
    assert_eq!(pool.get_position(1, BOB).unwrap().ltoken_balance, 50);
    assert_eq!(pool.get_position(2, BOB).unwrap().alpha_principal, 70);
    let views = pool.get_user_positions(BOB);
    assert!(views.iter().any(|v| v.market_id == 2 && v.alpha_principal == 70 && v.alpha_netuid == Some(7)));
}

// ── Root staking ──

#[test]
fn root_stake_config_access_control_and_getter() {
    let mut pool = setup();
    assert_eq!(error_of(pool.set_root_stake_config(&env(BOB), BOB, true, 5_000_000, 0, MIN_ROOT_STAKE_FLOOR)), Some(Error::NotGovernance));
    assert!(pool.set_root_stake_config(&env(ALICE), FRANK, true, 5_000_000, 7, MIN_ROOT_STAKE_FLOOR).is_ok());
    let c = pool.get_root_stake_config();
    assert_eq!((c.root_hotkey, c.staking_enabled, c.stake_buffer, c.sweep_threshold, c.stake_floor), (FRANK, true, 5_000_000, 7, MIN_ROOT_STAKE_FLOOR));
}

#[test]
fn root_stake_config_enforces_invariants() {
    let mut pool = setup();
    assert_eq!(error_of(pool.set_root_stake_config(&env(ALICE), BOB, true, 5_000_000, 0, MIN_ROOT_STAKE_FLOOR - 1)), Some(Error::InvalidParam));
    assert_eq!(error_of(pool.set_root_stake_config(&env(ALICE), BOB, true, MIN_ROOT_STAKE_FLOOR, 0, MIN_ROOT_STAKE_FLOOR + 1)), Some(Error::InvalidParam));
}

#[test]
fn sweep_stakes_excess_above_buffer() {
    let mut pool = setup();
    assert!(pool.set_root_stake_config(&env(ALICE), FRANK, true, 5_000_000, 0, MIN_ROOT_STAKE_FLOOR).is_ok());
    let mut e = env(EVE);
    e.native_balance = 9_000_000;
    let effects = pool.sweep(&e).unwrap();
    assert!(effects.contains(&PoolEffect::AddRootStake { hotkey: FRANK, amount: 4_000_000 }));
    assert_eq!(pool.get_tao_staked(), 4_000_000);
    // Once per block.
    assert_eq!(pool.sweep(&e), Ok(Vec::new()));
    assert_eq!(pool.get_tao_staked(), 4_000_000);
}

#[test]
fn sweep_noop_when_disabled_or_below_floor() {
    let mut pool = setup();
    let mut e = env(EVE);
    e.native_balance = 9_000_000_000;
    assert_eq!(pool.sweep(&e), Ok(Vec::new()));
    assert!(pool.set_root_stake_config(&env(ALICE), FRANK, true, 5_000_000, 0, MIN_ROOT_STAKE_FLOOR).is_ok());
    e.native_balance = 5_000_000 + MIN_ROOT_STAKE_FLOOR - 1;
    assert_eq!(pool.sweep(&e), Ok(Vec::new()));
    assert_eq!(pool.get_tao_staked(), 0);
}

#[test]
fn supply_tao_refunds_excess_value_and_checks_payment() {
    let mut pool = setup();
    let mut e = env(BOB);
    e.transferred_value = 5;
    assert_eq!(error_of(pool.supply_tao(&e, 6)), Some(Error::TransferFailed));
    e.transferred_value = 8;
    e.native_balance = 8;
    let effects = pool.supply_tao(&e, 6).unwrap();
    assert!(effects.contains(&PoolEffect::LTokenMint { market: 0, to: BOB, amount: 6 }));
    assert!(effects.contains(&PoolEffect::TransferNative { to: BOB, amount: 2 }));
    assert_eq!(pool.get_position(0, BOB).unwrap().ltoken_balance, 6);
}

#[test]
fn supply_cap_is_enforced() {
    let mut pool = setup();
    let mut config = global_config();
    config.supply_cap_tusdt = 100;
    assert!(pool.set_global_params(ALICE, 0, config).is_ok());
    assert!(pool.execute_global_params_update(PARAMS_TIMELOCK_MS).is_ok());
    assert!(pool.supply_tusdt(&env(BOB), 60).is_ok());
    assert_eq!(error_of(pool.supply_tusdt(&env(BOB), 41)), Some(Error::SupplyCapExceeded));
    assert!(pool.supply_tusdt(&env(BOB), 40).is_ok());
}

#[test]
fn supply_below_one_ltoken_is_refused() {
    let mut pool = setup();
    pool.store_market(1, MarketState {
        total_supplied: 100,
        total_debt: 0,
        total_scaled_debt: 0,
        borrow_index: Ratio::one(),
        exchange_rate: Ratio::from_inner(2 * ONE),
        reserve_accrued: 0,
        last_update: 0,
    });
    let mut e = env(BOB);
    e.ltusdt_supply = 100;
    let failure = pool.supply_tusdt(&e, 1).unwrap_err();
    assert_eq!(failure.error, Error::MintBelowPrecision);
    // The pull was already attempted when the mint came out empty.
    assert_eq!(failure.attempted, vec![PoolEffect::TusdtTransferFrom { from: BOB, amount: 1 }]);
    assert_eq!(pool.get_market_state(1).unwrap().total_supplied, 100);
}

#[test]
fn withdraw_tao_unstakes_root_stake_to_cover_shortfall() {
    let mut pool = setup();
    let mut e = env(BOB);
    e.transferred_value = 10_000_000;
    e.native_balance = 10_000_000;
    assert!(pool.supply_tao(&e, 10_000_000).is_ok());
    assert!(pool.set_root_stake_config(&env(ALICE), FRANK, true, 2_000_000, 0, MIN_ROOT_STAKE_FLOOR).is_ok());
    let mut s = env(EVE);
    s.native_balance = 10_000_000;
    assert!(pool.sweep(&s).is_ok());
    assert_eq!(pool.get_tao_staked(), 8_000_000);
    let mut w = env(BOB);
    w.native_balance = 2_000_000;
    w.ltao_supply = 10_000_000;
    w.stake_available = vec![(0, 8_000_000)];
    let effects = pool.withdraw_tao(&w, 5_000_000).unwrap();
    assert!(effects.contains(&PoolEffect::RemoveRootStake { hotkey: FRANK, amount: 3_000_000 }));
    assert!(effects.contains(&PoolEffect::TransferNative { to: BOB, amount: 5_000_000 }));
    assert_eq!(pool.get_tao_staked(), 5_000_000);
    assert_eq!(pool.get_position(0, BOB).unwrap().ltoken_balance, 5_000_000);
}

#[test]
fn reentrant_messages_are_refused() {
    let mut pool = setup();
    assert!(pool.ensure_idle().is_ok());
    assert_eq!(pool.ensure_idle(), Err(Error::Reentrancy));
    assert_eq!(error_of(pool.supply_tusdt(&env(BOB), 5)), Some(Error::Reentrancy));
    pool.set_idle();
    assert!(pool.supply_tusdt(&env(BOB), 5).is_ok());
}

// ── Settling effects, accrual edge cases, partial repayment ──

#[test]
fn supply_tusdt_fails_when_pull_fails() {
    let mut pool = setup();
    let before = pool.snapshot();
    let effects = pool.supply_tusdt(&env(ALICE), 500).unwrap();
    let pull = effects
        .iter()
        .position(|e| *e == PoolEffect::TusdtTransferFrom { from: ALICE, amount: 500 })
        .unwrap();
    let mint = effects.iter().position(|e| matches!(e, PoolEffect::LTokenMint { .. })).unwrap();
    assert!(pull < mint);
    assert_eq!(pool.settle(before, &effects, None, Some(pull)), Err(Error::TokenTransferFromFailed));
    assert_eq!(pool.get_position(1, ALICE), None);
    assert_eq!(pool.get_market_state(1).unwrap().total_supplied, 0);
}

#[test]
fn deposit_alpha_fails_on_transfer_failure() {
    let mut pool = setup();
    assert!(pool.set_approved_netuid(ALICE, 7, true).is_ok());
    let before = pool.snapshot();
    let (_, effects) = pool.deposit_alpha(&env(ALICE), 7, 500).unwrap();
    assert_eq!(pool.settle(before, &effects, None, Some(0)), Err(Error::StakeTransferFailed));
    assert_eq!(pool.get_user_alpha_position(ALICE, 7), None);
    assert_eq!(pool.get_netuid_total_collateral(7), None);
}

#[test]
fn settle_keeps_a_success_and_reports_a_failure() {
    let mut pool = setup();
    let before = pool.snapshot();
    let effects = pool.supply_tusdt(&env(ALICE), 500).unwrap();
    assert_eq!(pool.settle(before, &effects, None, None), Ok(()));
    assert_eq!(pool.get_position(1, ALICE).unwrap().ltoken_balance, 500);
    let before = pool.snapshot();
    let failure = pool.supply_tusdt(&env(ALICE), 0).unwrap_err();
    assert_eq!(pool.settle(before, &failure.attempted, Some(failure.error), None), Err(Error::ZeroAmount));
    assert_eq!(pool.get_position(1, ALICE).unwrap().ltoken_balance, 500);
}

#[test]
fn accrual_of_debt_free_market_ignores_cash_overflow() {
    let mut pool = setup();
    pool.staked_tao = 10;
    let mut e = env(ALICE);
    e.native_balance = u64::MAX;
    e.now = 5_000;
    assert_eq!(pool.accrue_interest(&e, 0), Ok(None));
    assert_eq!(pool.get_market_state(0).unwrap().last_update, 5_000);
    assert_eq!(pool.get_market_state(0).unwrap().borrow_index, Ratio::one());
}

#[test]
fn partial_repay_never_clears_the_position() {
    let mut pool = setup();
    pool.market_tusdt.borrow_index = Ratio::from_inner(1_400_000_000_000_000_000);
    pool.market_tusdt.total_scaled_debt = 3;
    pool.market_tusdt.total_debt = 4;
    pool.set_position(1, BOB, Position { ltoken_balance: 0, scaled_debt: 3, alpha_principal: 0 });
    assert_eq!(pool.get_user_debt(1, BOB), Some(4));
    let effects = pool.repay_tusdt(&env(BOB), 3).unwrap();
    assert!(effects.contains(&PoolEffect::TusdtTransferFrom { from: BOB, amount: 3 }));
    assert_eq!(pool.get_position(1, BOB).unwrap().scaled_debt, 1);
    assert_eq!(pool.get_market_state(1).unwrap().total_scaled_debt, 1);
    assert_eq!(pool.get_user_debt(1, BOB), Some(1));
}

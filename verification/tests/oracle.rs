use tusdt::oracle::{
    Error, PriceData, PriceSubmission, PriceSubmissionMetadata, RoundSummary, StakeLookup,
    TusdtOracle, DEFAULT_MIN_SUBMITTER_STAKE, MAX_ROUND_SUBMISSIONS,
};
use tusdt::ratio::Ratio;

const ALICE: u64 = 1;
const BOB: u64 = 2;
const CHARLIE: u64 = 3;
const DJANGO: u64 = 4;
const EVE: u64 = 5;
const FRANK: u64 = 6;

fn whole(n: u128) -> Ratio {
    Ratio::from_inner(n * 1_000_000_000_000_000_000)
}

fn report_meta(reporter: u64) -> PriceSubmissionMetadata {
    PriceSubmissionMetadata { hot_key: reporter, provider: None }
}

fn staked() -> StakeLookup {
    StakeLookup::Found { is_registered: true, stake: 2_000_000_000_000 }
}

fn submit_report(oracle: &mut TusdtOracle, reporter: u64, price: u128) {
    assert!(oracle.submit_price(reporter, whole(price), report_meta(reporter), staked()).is_ok());
}

fn oracle_with_validator(validator: u64) -> TusdtOracle {
    let mut oracle = TusdtOracle::new(ALICE, ALICE, 113);
    assert!(oracle.set_validator(ALICE, Some(validator)).is_ok());
    oracle
}

#[test]
fn subnet_registration_is_required() {
    let mut oracle = TusdtOracle::new(ALICE, ALICE, 113);
    assert_eq!(
        oracle.submit_price(BOB, whole(10), report_meta(BOB), StakeLookup::Missing),
        Err(Error::NotRegisteredInSubnet)
    );
    assert_eq!(
        oracle.submit_price(BOB, whole(10), report_meta(BOB), StakeLookup::Found { is_registered: false, stake: 2_000_000_000_000 }),
        Err(Error::NotRegisteredInSubnet)
    );
}

#[test]
fn zero_price_is_rejected() {
    let mut oracle = TusdtOracle::new(ALICE, ALICE, 113);
    assert_eq!(oracle.submit_price(BOB, whole(0), report_meta(BOB), staked()), Err(Error::InvalidPrice));
}

#[test]
fn invalid_hotkey_rejected() {
    let mut oracle = TusdtOracle::new(ALICE, ALICE, 113);
    assert_eq!(oracle.submit_price(BOB, whole(10), report_meta(0), staked()), Err(Error::InvalidHotkey));
}

#[test]
fn chain_extension_failure_rejected() {
    let mut oracle = TusdtOracle::new(ALICE, ALICE, 113);
    assert_eq!(
        oracle.submit_price(BOB, whole(10), report_meta(BOB), StakeLookup::Failed),
        Err(Error::ChainExtensionFailed)
    );
}

#[test]
fn insufficient_stake_rejected() {
    let mut oracle = TusdtOracle::new(ALICE, ALICE, 113);
    assert_eq!(
        oracle.submit_price(BOB, whole(10), report_meta(BOB), StakeLookup::Found { is_registered: true, stake: 1 }),
        Err(Error::InsufficientStake)
    );
    // The minimum itself is not enough: the stake must exceed it.
    assert_eq!(
        oracle.submit_price(BOB, whole(10), report_meta(BOB), StakeLookup::Found { is_registered: true, stake: DEFAULT_MIN_SUBMITTER_STAKE }),
        Err(Error::InsufficientStake)
    );
    assert!(oracle
        .submit_price(BOB, whole(10), report_meta(BOB), StakeLookup::Found { is_registered: true, stake: DEFAULT_MIN_SUBMITTER_STAKE + 1 })
        .is_ok());
}

#[test]
fn reporter_resubmission_replaces_previous_value() {
    let mut oracle = TusdtOracle::new(ALICE, ALICE, 113);
    submit_report(&mut oracle, BOB, 10);
    let replaced = oracle.submit_price(BOB, whole(12), report_meta(BOB), staked()).unwrap();
    assert!(replaced.replaced_existing);
    submit_report(&mut oracle, CHARLIE, 13);
    submit_report(&mut oracle, DJANGO, 14);
    assert_eq!(
        oracle.get_current_round_summary(),
        RoundSummary { round_id: 0, reporter_count: 3, median_price: Some(whole(13)) }
    );
    assert_eq!(
        oracle.get_round_submissions(0),
        vec![
            PriceSubmission { reporter: BOB, price: whole(12), metadata: report_meta(BOB) },
            PriceSubmission { reporter: CHARLIE, price: whole(13), metadata: report_meta(CHARLIE) },
            PriceSubmission { reporter: DJANGO, price: whole(14), metadata: report_meta(DJANGO) },
        ]
    );
}

#[test]
fn commit_is_blocked_below_quorum() {
    let mut oracle = oracle_with_validator(DJANGO);
    submit_report(&mut oracle, BOB, 10);
    submit_report(&mut oracle, CHARLIE, 20);
    assert_eq!(oracle.commit_round(DJANGO, 0, None), Err(Error::NotEnoughSubmissions));
    assert_eq!(oracle.current_round_id(), 0);
}

#[test]
fn commit_requires_validator() {
    let mut oracle = oracle_with_validator(DJANGO);
    assert_eq!(oracle.commit_round(BOB, 0, Some(whole(5))), Err(Error::NotValidator));
}

#[test]
fn override_allows_commit_without_submissions() {
    let mut oracle = oracle_with_validator(BOB);
    let (committed, event) = oracle.commit_round(BOB, 55, Some(whole(42))).unwrap();
    assert_eq!(
        committed,
        PriceData {
            round_id: 0,
            price: whole(42),
            median_price: whole(42),
            reporter_count: 0,
            committed_at: 55,
            was_overridden: true,
        }
    );
    assert_eq!(event.committed_price, whole(42));
    assert_eq!(oracle.get_latest_price(), Some(committed));
    assert_eq!(oracle.current_round_id(), 1);
}

#[test]
fn override_bypasses_quorum_and_keeps_available_median() {
    let mut oracle = oracle_with_validator(CHARLIE);
    submit_report(&mut oracle, BOB, 10);
    let (committed, _) = oracle.commit_round(CHARLIE, 88, Some(whole(25))).unwrap();
    assert_eq!(committed.price, whole(25));
    assert_eq!(committed.median_price, whole(10));
    assert_eq!(committed.reporter_count, 1);
    assert!(committed.was_overridden);
}

#[test]
fn median_is_used_for_three_submissions() {
    let mut oracle = oracle_with_validator(EVE);
    submit_report(&mut oracle, BOB, 30);
    submit_report(&mut oracle, CHARLIE, 10);
    submit_report(&mut oracle, DJANGO, 20);
    let (committed, _) = oracle.commit_round(EVE, 7, None).unwrap();
    assert_eq!(committed.price, whole(20));
    assert_eq!(committed.median_price, whole(20));
    assert!(!committed.was_overridden);
}

#[test]
fn median_is_used_for_five_submissions() {
    let mut oracle = oracle_with_validator(FRANK);
    submit_report(&mut oracle, BOB, 50);
    submit_report(&mut oracle, CHARLIE, 10);
    submit_report(&mut oracle, DJANGO, 40);
    submit_report(&mut oracle, EVE, 20);
    submit_report(&mut oracle, 7, 30);
    assert_eq!(oracle.commit_round(FRANK, 1, None).unwrap().0.price, whole(30));
}

#[test]
fn median_is_averaged_for_four_submissions() {
    let mut oracle = oracle_with_validator(FRANK);
    submit_report(&mut oracle, BOB, 40);
    submit_report(&mut oracle, CHARLIE, 10);
    submit_report(&mut oracle, DJANGO, 30);
    submit_report(&mut oracle, EVE, 20);
    assert_eq!(
        oracle.get_current_round_summary(),
        RoundSummary { round_id: 0, reporter_count: 4, median_price: Some(whole(25)) }
    );
    let (committed, _) = oracle.commit_round(FRANK, 123, None).unwrap();
    assert_eq!(
        committed,
        PriceData {
            round_id: 0,
            price: whole(25),
            median_price: whole(25),
            reporter_count: 4,
            committed_at: 123,
            was_overridden: false,
        }
    );
}

#[test]
fn median_of_even_count_floors_the_mean() {
    let mut oracle = TusdtOracle::new(ALICE, ALICE, 113);
    for (r, p) in [(BOB, 1u128), (CHARLIE, 2), (DJANGO, 4), (EVE, 8)] {
        assert!(oracle.submit_price(r, Ratio::from_inner(p), report_meta(r), staked()).is_ok());
    }
    assert_eq!(oracle.compute_round_median(0), Ok(Some(Ratio::from_inner(3))));
}

#[test]
fn median_between_smallest_and_largest_submission() {
    let mut oracle = TusdtOracle::new(ALICE, ALICE, 113);
    for (r, p) in [(BOB, 7u128), (CHARLIE, 100), (DJANGO, 3), (EVE, 55), (FRANK, 9), (7, 12)] {
        submit_report(&mut oracle, r, p);
    }
    let m = oracle.compute_round_median(0).unwrap().unwrap();
    assert_eq!(m, Ratio::from_inner((whole(9).inner + whole(12).inner) / 2));
    assert!(whole(3).inner <= m.inner && m.inner <= whole(100).inner);
}

#[test]
fn median_overflow_is_arithmetic_error() {
    let mut oracle = TusdtOracle::new(ALICE, ALICE, 113);
    assert!(oracle.submit_price(BOB, Ratio::from_inner(u128::MAX), report_meta(BOB), staked()).is_ok());
    assert!(oracle.submit_price(CHARLIE, Ratio::from_inner(u128::MAX), report_meta(CHARLIE), staked()).is_ok());
    assert_eq!(oracle.compute_round_median(0), Err(Error::ArithmeticError));
}

#[test]
fn empty_round_has_no_median() {
    let oracle = TusdtOracle::new(ALICE, ALICE, 113);
    assert_eq!(oracle.compute_round_median(0), Ok(None));
    assert_eq!(oracle.get_current_round_summary(), RoundSummary { round_id: 0, reporter_count: 0, median_price: None });
}

#[test]
fn first_commit_skips_deviation_check() {
    let mut oracle = oracle_with_validator(BOB);
    assert!(oracle.commit_round(BOB, 0, Some(whole(1_000))).is_ok());
}

#[test]
fn validator_commit_within_deviation_succeeds() {
    let mut oracle = oracle_with_validator(BOB);
    assert!(oracle.commit_round(BOB, 0, Some(whole(100))).is_ok());
    assert!(oracle.commit_round(BOB, 1, Some(whole(104))).is_ok());
    // The band is inclusive: 10% of 104 is 10.4.
    assert!(oracle.commit_round(BOB, 2, Some(Ratio::from_inner(whole(104).inner + whole(104).inner / 10))).is_ok());
}

#[test]
fn validator_commit_outside_deviation_is_rejected() {
    let mut oracle = oracle_with_validator(BOB);
    assert!(oracle.commit_round(BOB, 0, Some(whole(100))).is_ok());
    assert_eq!(oracle.commit_round(BOB, 1, Some(whole(130))), Err(Error::PriceDeviationExceeded));
    assert_eq!(oracle.commit_round(BOB, 1, Some(whole(89))), Err(Error::PriceDeviationExceeded));
    assert_eq!(oracle.current_round_id(), 1);
}

#[test]
fn median_commit_outside_deviation_is_rejected() {
    let mut oracle = oracle_with_validator(EVE);
    assert!(oracle.commit_round(EVE, 0, Some(whole(100))).is_ok());
    submit_report(&mut oracle, BOB, 200);
    submit_report(&mut oracle, CHARLIE, 210);
    submit_report(&mut oracle, DJANGO, 220);
    assert_eq!(oracle.commit_round(EVE, 1, None), Err(Error::PriceDeviationExceeded));
}

#[test]
fn governance_commit_bypasses_deviation_and_quorum() {
    let mut oracle = oracle_with_validator(BOB);
    assert!(oracle.commit_round(BOB, 0, Some(whole(100))).is_ok());
    let (committed, _) = oracle.commit_round_governance(ALICE, 9, whole(300)).unwrap();
    assert_eq!(committed.price, whole(300));
    assert_eq!(committed.median_price, whole(300));
    assert!(committed.was_overridden);
    assert_eq!(oracle.get_round_price(1), Some(committed));
}

#[test]
fn governance_commit_rejects_zero_price() {
    let mut oracle = TusdtOracle::new(ALICE, ALICE, 113);
    assert_eq!(oracle.commit_round_governance(ALICE, 0, whole(0)), Err(Error::InvalidPrice));
}

#[test]
fn governance_commit_requires_governance_caller() {
    let mut oracle = TusdtOracle::new(ALICE, ALICE, 113);
    assert_eq!(oracle.commit_round_governance(BOB, 0, whole(5)), Err(Error::NotGovernance));
}

#[test]
fn governance_can_widen_deviation_threshold() {
    let mut oracle = oracle_with_validator(BOB);
    assert!(oracle.commit_round(BOB, 0, Some(whole(100))).is_ok());
    assert!(oracle.set_max_price_deviation(ALICE, Ratio::from_inner(500_000_000_000_000_000)).is_ok());
    assert!(oracle.commit_round(BOB, 1, Some(whole(140))).is_ok());
}

#[test]
fn set_max_price_deviation_requires_governance() {
    let mut oracle = TusdtOracle::new(ALICE, ALICE, 113);
    assert_eq!(oracle.set_max_price_deviation(BOB, whole(1)), Err(Error::NotGovernance));
}

#[test]
fn set_netuid_and_get_netuid() {
    let mut oracle = TusdtOracle::new(ALICE, ALICE, 113);
    assert!(oracle.set_netuid(ALICE, 7).is_ok());
    assert_eq!(oracle.get_netuid(), 7);
    assert_eq!(oracle.set_netuid(BOB, 8), Err(Error::NotGovernance));
    assert_eq!(oracle.get_netuid(), 7);
}

#[test]
fn set_min_submitter_stake_and_get() {
    let mut oracle = TusdtOracle::new(ALICE, ALICE, 113);
    assert_eq!(oracle.min_submitter_stake(), DEFAULT_MIN_SUBMITTER_STAKE);
    assert!(oracle.set_min_submitter_stake(ALICE, 5).is_ok());
    assert_eq!(oracle.min_submitter_stake(), 5);
    assert_eq!(oracle.set_min_submitter_stake(BOB, 6), Err(Error::NotGovernance));
}

#[test]
fn controller_updates_oracle_governance() {
    let mut oracle = TusdtOracle::new(ALICE, BOB, 113);
    assert_eq!(oracle.update_governance(BOB, CHARLIE), Err(Error::NotController));
    assert!(oracle.update_governance(ALICE, CHARLIE).is_ok());
    assert_eq!(oracle.governance(), CHARLIE);
}

#[test]
fn commit_advances_the_round() {
    let mut oracle = oracle_with_validator(BOB);
    submit_report(&mut oracle, CHARLIE, 10);
    assert!(oracle.commit_round(BOB, 0, Some(whole(10))).is_ok());
    assert_eq!(oracle.current_round_id(), 1);
    assert_eq!(oracle.get_current_round_summary(), RoundSummary { round_id: 1, reporter_count: 0, median_price: None });
    assert_eq!(oracle.get_round_submissions(0).len(), 1);
}

#[test]
fn committed_round_history_supports_pagination() {
    let mut oracle = oracle_with_validator(BOB);
    for i in 0..12u64 {
        assert!(oracle.commit_round(BOB, i, Some(whole(100))).is_ok());
    }
    assert_eq!(oracle.get_price_history_count(), 12);
    let first = oracle.get_price_history(0);
    assert_eq!(first.len(), 10);
    assert_eq!(first[0].round_id, 11);
    assert_eq!(first[9].round_id, 2);
    let second = oracle.get_price_history(1);
    assert_eq!(second.len(), 2);
    assert_eq!(second[1].round_id, 0);
    assert!(oracle.get_price_history(2).is_empty());
}

#[test]
fn provider_field_persisted() {
    let mut oracle = TusdtOracle::new(ALICE, ALICE, 113);
    let m = PriceSubmissionMetadata { hot_key: 9, provider: Some(b"binance".to_vec()) };
    assert!(oracle.submit_price(BOB, whole(10), m.clone(), staked()).is_ok());
    assert_eq!(oracle.get_round_submissions(0), vec![PriceSubmission { reporter: BOB, price: whole(10), metadata: m }]);
}

#[test]
fn round_submission_count_is_bounded() {
    let mut oracle = TusdtOracle::new(ALICE, ALICE, 113);
    for r in 0..MAX_ROUND_SUBMISSIONS as u64 {
        assert!(oracle.submit_price(100 + r, whole(1), report_meta(100 + r), staked()).is_ok());
    }
    assert_eq!(oracle.submit_price(9_999, whole(1), report_meta(9_999), staked()), Err(Error::MaxSubmissionsReached));
    // A reporter already counted may still replace its price.
    assert!(oracle.submit_price(100, whole(2), report_meta(100), staked()).is_ok());
}

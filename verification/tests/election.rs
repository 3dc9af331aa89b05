use tusdt::election::{
    CandidateStake, ElectionSnapshot, Error, GovernanceCall, Phase, TusdtElection,
    MIN_CANDIDATE_STAKE, TERM_LENGTH_MS,
};
use tusdt::voting::MS_PER_DAY;

const ALICE: u64 = 1;
const BOB: u64 = 2;
const DJANGO: u64 = 4;
const EVE: u64 = 5;
const FRANK: u64 = 6;
const GOV: u64 = 99;
const BALANCE: u128 = 4_000_000_000_000;

fn cycle_day(day: u64) -> u64 {
    (730 + day - 1) * MS_PER_DAY
}

fn snapshot(circulating_supply: u128) -> Option<ElectionSnapshot> {
    Some(ElectionSnapshot { root: [7u8; 32], circulating_supply, netuid: 113, snapshot_block: 0 })
}

fn stake() -> CandidateStake {
    CandidateStake::Stake(20_000_000_000_000)
}

fn make_election() -> TusdtElection {
    TusdtElection::new(GOV, FRANK, 113, 0)
}

fn scheduled(supply: u128) -> TusdtElection {
    let mut e = make_election();
    assert!(e.schedule_election(cycle_day(1), snapshot(supply)).is_ok());
    e
}

fn with_candidate(candidate: u64, netuid: u16) -> TusdtElection {
    let mut e = scheduled(1_000_000);
    assert!(e.register_candidate(candidate, cycle_day(1), netuid, candidate, stake()).is_ok());
    e
}

fn approve(e: &mut TusdtElection, voter: u64, now: u64, candidate: u64) -> Result<u128, Error> {
    e.cast_approval(voter, now, candidate, voter, BALANCE, 10_000, true).map(|ev| ev.weight)
}

#[test]
fn constructor_sets_defaults() {
    let e = make_election();
    assert_eq!(e.phase(), Phase::Idle);
    assert_eq!(e.incumbent(), FRANK);
    assert_eq!(e.active_netuid(), 113);
    assert_eq!(e.cycle_id(), 0);
    assert_eq!(e.next_election_ts(), 730 * MS_PER_DAY);
    assert_eq!(e.next_election_ts(), TERM_LENGTH_MS);
    assert_eq!(e.min_candidate_stake(), MIN_CANDIDATE_STAKE);
    assert_eq!(e.terms_served(FRANK), 1);
    assert_eq!(e.terms_served(ALICE), 0);
    assert!(e.maintainer_elect().is_none());
    assert!(!e.is_in_transition());
    assert_eq!(e.governance(), GOV);
}

#[test]
fn schedule_opens_registration() {
    let e = scheduled(1_000_000);
    assert_eq!(e.phase(), Phase::Registration);
    assert_eq!(e.cycle_id(), 1);
    assert_eq!(e.quorum(), 200_000);
}

#[test]
fn schedule_rejects_before_anchor() {
    let mut e = TusdtElection::new(GOV, FRANK, 113, cycle_day(5));
    assert_eq!(e.schedule_election(0, snapshot(1)), Err(Error::NotElectionTime));
    assert_eq!(e.phase(), Phase::Idle);
}

#[test]
fn schedule_rejects_when_not_idle() {
    let mut e = scheduled(1_000_000);
    assert_eq!(e.schedule_election(cycle_day(2), snapshot(1)), Err(Error::WrongPhase));
}

#[test]
fn schedule_requires_snapshot() {
    let mut e = make_election();
    assert_eq!(e.schedule_election(cycle_day(1), None), Err(Error::NoSnapshot));
    assert_eq!(e.phase(), Phase::Idle);
}

#[test]
fn emergency_bypasses_cadence_anchor() {
    let mut e = TusdtElection::new(GOV, FRANK, 113, cycle_day(20));
    assert_eq!(e.schedule_election(0, snapshot(1)), Err(Error::NotElectionTime));
    assert!(e.trigger_emergency_election(FRANK).is_ok());
    let ev = e.schedule_election(0, snapshot(1)).unwrap();
    assert!(ev.emergency);
    assert_eq!(e.phase(), Phase::Registration);
}

#[test]
fn trigger_emergency_requires_incumbent() {
    let mut e = make_election();
    assert_eq!(e.trigger_emergency_election(ALICE), Err(Error::NotIncumbent));
}

#[test]
fn register_happy_path() {
    let e = with_candidate(DJANGO, 200);
    assert_eq!(e.candidate_list(), vec![DJANGO]);
    assert_eq!(e.get_candidate(DJANGO).unwrap().netuid, 200);
}

#[test]
fn register_rejects_outside_registration() {
    let mut e = make_election();
    assert_eq!(e.register_candidate(DJANGO, 0, 200, DJANGO, stake()), Err(Error::WrongPhase));
}

#[test]
fn register_rejects_zero_netuid() {
    let mut e = scheduled(1_000_000);
    assert_eq!(e.register_candidate(DJANGO, 0, 0, DJANGO, stake()), Err(Error::InvalidNetuid));
}

#[test]
fn register_rejects_already_registered() {
    let mut e = with_candidate(DJANGO, 200);
    assert_eq!(e.register_candidate(DJANGO, 0, 200, DJANGO, stake()), Err(Error::AlreadyRegistered));
}

#[test]
fn register_rejects_insufficient_stake() {
    let mut e = scheduled(1_000_000);
    assert_eq!(
        e.register_candidate(DJANGO, 0, 200, DJANGO, CandidateStake::Stake(1)),
        Err(Error::InsufficientStake)
    );
    assert_eq!(
        e.register_candidate(DJANGO, 0, 200, DJANGO, CandidateStake::Stake(MIN_CANDIDATE_STAKE - 1)),
        Err(Error::InsufficientStake)
    );
    assert!(e.register_candidate(DJANGO, 0, 200, DJANGO, CandidateStake::Stake(MIN_CANDIDATE_STAKE)).is_ok());
}

#[test]
fn register_rejects_no_stake_record() {
    let mut e = scheduled(1_000_000);
    assert_eq!(e.register_candidate(DJANGO, 0, 200, DJANGO, CandidateStake::NotFound), Err(Error::NoStake));
    assert_eq!(
        e.register_candidate(DJANGO, 0, 200, DJANGO, CandidateStake::QueryFailed),
        Err(Error::StakeQueryFailed)
    );
}

#[test]
fn register_rejects_at_term_limit() {
    // The incumbent has one term; after winning again it has two and may not run a third time.
    let mut e = with_candidate(FRANK, 113);
    assert!(approve(&mut e, ALICE, cycle_day(5), FRANK).is_ok());
    assert!(e.finalize(cycle_day(10)).is_ok());
    assert!(e.activate(cycle_day(15)).is_ok());
    assert_eq!(e.terms_served(FRANK), 2);
    assert!(e.schedule_election(cycle_day(1) + TERM_LENGTH_MS, snapshot(1_000_000)).is_ok());
    assert_eq!(
        e.register_candidate(FRANK, cycle_day(1) + TERM_LENGTH_MS, 113, FRANK, stake()),
        Err(Error::TermLimitReached)
    );
}

#[test]
fn first_vote_before_day_five_is_rejected() {
    let mut e = with_candidate(DJANGO, 200);
    assert_eq!(approve(&mut e, ALICE, cycle_day(4), DJANGO), Err(Error::NotElectionTime));
    assert_eq!(e.phase(), Phase::Registration);
}

#[test]
fn first_vote_opens_voting_window() {
    let mut e = with_candidate(DJANGO, 200);
    assert_eq!(approve(&mut e, ALICE, cycle_day(5), DJANGO), Ok(2_000_000));
    assert_eq!(e.phase(), Phase::Voting);
    assert_eq!(e.voting_window(), (cycle_day(5), cycle_day(5) + 5 * MS_PER_DAY));
    assert_eq!(e.approval_weight(DJANGO), 2_000_000);
    assert_eq!(e.total_participating_power(), 2_000_000);
}

#[test]
fn cast_approval_rejects_after_window_closes() {
    let mut e = with_candidate(DJANGO, 200);
    assert!(approve(&mut e, ALICE, cycle_day(5), DJANGO).is_ok());
    assert_eq!(approve(&mut e, FRANK, cycle_day(10), DJANGO), Err(Error::VotingClosed));
}

#[test]
fn cast_approval_happy_path() {
    let mut e = with_candidate(DJANGO, 200);
    assert!(approve(&mut e, ALICE, cycle_day(5), DJANGO).is_ok());
    assert_eq!(e.approval_weight(DJANGO), 2_000_000);
    assert_eq!(e.total_participating_power(), 2_000_000);
    assert_eq!(e.total_voted_balance(), BALANCE);
    assert_eq!(e.leading_candidate(), Some((DJANGO, 2_000_000)));
}

#[test]
fn cast_approval_applies_multiplier() {
    let mut e = with_candidate(DJANGO, 200);
    let ev = e.cast_approval(ALICE, cycle_day(5), DJANGO, ALICE, BALANCE, 8_000, true).unwrap();
    assert_eq!(ev.weight, 1_600_000);
    assert_eq!(e.approval_weight(DJANGO), 1_600_000);
}

#[test]
fn cast_approval_rejects_invalid_proof() {
    let mut e = with_candidate(DJANGO, 200);
    assert_eq!(
        e.cast_approval(ALICE, cycle_day(5), DJANGO, ALICE, 8_000_000_000_000, 10_000, false),
        Err(Error::InvalidProof)
    );
}

#[test]
fn cast_approval_rejects_zero_power() {
    let mut e = with_candidate(DJANGO, 200);
    assert_eq!(e.cast_approval(ALICE, cycle_day(5), DJANGO, ALICE, 0, 10_000, true), Err(Error::NoStake));
}

#[test]
fn cast_approval_rejects_unregistered_candidate() {
    let mut e = with_candidate(DJANGO, 200);
    assert_eq!(approve(&mut e, ALICE, cycle_day(5), EVE), Err(Error::CandidateNotFound));
}

#[test]
fn cast_approval_rejects_double() {
    let mut e = with_candidate(DJANGO, 200);
    assert!(approve(&mut e, ALICE, cycle_day(5), DJANGO).is_ok());
    assert_eq!(approve(&mut e, ALICE, cycle_day(6), DJANGO), Err(Error::AlreadyApproved));
}

#[test]
fn cast_approval_rejects_outside_voting() {
    let mut e = make_election();
    assert_eq!(approve(&mut e, ALICE, cycle_day(5), DJANGO), Err(Error::WrongPhase));
}

#[test]
fn cast_approval_rejects_second_candidate() {
    let mut e = with_candidate(DJANGO, 200);
    assert!(e.register_candidate(EVE, cycle_day(1), 300, EVE, stake()).is_ok());
    assert!(approve(&mut e, ALICE, cycle_day(5), DJANGO).is_ok());
    assert_eq!(approve(&mut e, ALICE, cycle_day(5), EVE), Err(Error::AlreadyApproved));
    assert_eq!(e.approval_weight(DJANGO), 2_000_000);
    assert_eq!(e.approval_weight(EVE), 0);
    assert_eq!(e.total_participating_power(), 2_000_000);
}

#[test]
fn finalize_records_winner_over_50_percent() {
    let mut e = with_candidate(DJANGO, 200);
    assert!(approve(&mut e, ALICE, cycle_day(5), DJANGO).is_ok());
    let ev = e.finalize(cycle_day(10)).unwrap();
    assert_eq!(ev.winner, Some(DJANGO));
    assert_eq!(e.phase(), Phase::Elected);
    let elect = e.maintainer_elect().unwrap();
    assert_eq!(elect.who, DJANGO);
    assert_eq!(elect.netuid, 200);
    assert_eq!(elect.approval_weight, 2_000_000);
    assert_eq!(e.next_election_ts(), 730 * MS_PER_DAY);
}

#[test]
fn finalize_tie_at_50_50_keeps_incumbent() {
    let mut e = with_candidate(DJANGO, 200);
    assert!(e.register_candidate(EVE, cycle_day(1), 300, EVE, stake()).is_ok());
    assert!(approve(&mut e, ALICE, cycle_day(5), DJANGO).is_ok());
    assert!(approve(&mut e, FRANK, cycle_day(5), EVE).is_ok());
    assert_eq!(e.total_participating_power(), 4_000_000);
    let ev = e.finalize(cycle_day(10)).unwrap();
    assert_eq!(ev.winner, None);
    assert_eq!(e.phase(), Phase::Idle);
    assert!(e.maintainer_elect().is_none());
    assert_eq!(e.incumbent(), FRANK);
    assert_eq!(e.next_election_ts(), 2 * 730 * MS_PER_DAY);
}

#[test]
fn finalize_rejects_before_voting_ends() {
    let mut e = with_candidate(DJANGO, 200);
    assert!(approve(&mut e, ALICE, cycle_day(5), DJANGO).is_ok());
    assert_eq!(e.finalize(cycle_day(6)), Err(Error::VotingStillOpen));
}

#[test]
fn finalize_rejects_wrong_phase() {
    let mut e = make_election();
    assert_eq!(e.finalize(cycle_day(10)), Err(Error::WrongPhase));
}

#[test]
fn finalize_no_winner_when_quorum_unmet() {
    let mut e = scheduled(100_000_000_000_000);
    assert!(e.register_candidate(DJANGO, cycle_day(1), 200, DJANGO, stake()).is_ok());
    assert!(approve(&mut e, ALICE, cycle_day(5), DJANGO).is_ok());
    assert_eq!(e.quorum(), 20_000_000_000_000);
    assert_eq!(e.total_voted_balance(), BALANCE);
    assert!(e.finalize(cycle_day(10)).is_ok());
    assert_eq!(e.phase(), Phase::Idle);
    assert!(e.maintainer_elect().is_none());
    assert_eq!(e.incumbent(), FRANK);
    assert_eq!(e.next_election_ts(), 2 * 730 * MS_PER_DAY);
}

#[test]
fn activate_rejects_before_activation_day() {
    let mut e = with_candidate(DJANGO, 200);
    assert!(approve(&mut e, ALICE, cycle_day(5), DJANGO).is_ok());
    assert!(e.finalize(cycle_day(10)).is_ok());
    assert_eq!(e.activate(cycle_day(10)), Err((None, Error::BeforeActivationDay)));
}

#[test]
fn activate_rejects_wrong_phase() {
    let mut e = make_election();
    assert_eq!(e.activate(cycle_day(15)), Err((None, Error::WrongPhase)));
}

#[test]
fn activate_installs_winner_and_starts_transition() {
    let mut e = with_candidate(DJANGO, 200);
    assert!(approve(&mut e, ALICE, cycle_day(5), DJANGO).is_ok());
    assert!(e.finalize(cycle_day(10)).is_ok());
    let (call, started, ev) = e.activate(cycle_day(15)).unwrap();
    assert_eq!(call, GovernanceCall::ElectMaintainer(DJANGO));
    let t = started.unwrap();
    assert_eq!((t.from_netuid, t.to_netuid), (113, 200));
    assert_eq!(ev.new_maintainer, DJANGO);
    assert_eq!(e.incumbent(), DJANGO);
    assert_eq!(e.terms_served(DJANGO), 1);
    assert_eq!(e.phase(), Phase::Idle);
    assert!(e.is_in_transition());
    assert_eq!(e.next_election_ts(), 2 * 730 * MS_PER_DAY);
    assert_eq!(e.end_transition(cycle_day(16)), Err(Error::TransitionActive));
    let (call2, ended) = e.end_transition(t.ends_at).unwrap();
    assert_eq!(call2, GovernanceCall::SetNetuid(200));
    assert_eq!(ended.netuid, 200);
    assert_eq!(e.active_netuid(), 200);
    assert!(!e.is_in_transition());
}

#[test]
fn end_transition_rejects_when_none() {
    let mut e = make_election();
    assert_eq!(e.end_transition(cycle_day(1)), Err(Error::NoTransition));
}

#[test]
fn cancel_cycle_resets_to_idle() {
    let mut e = make_election();
    assert_eq!(e.cancel_cycle(FRANK), Err(Error::WrongPhase));
    assert!(e.schedule_election(cycle_day(1), snapshot(1_000_000)).is_ok());
    assert!(e.register_candidate(DJANGO, cycle_day(1), 200, DJANGO, stake()).is_ok());
    assert!(e.cancel_cycle(FRANK).is_ok());
    assert_eq!(e.phase(), Phase::Idle);
    assert!(e.candidate_list().is_empty());
}

#[test]
fn cancel_cycle_requires_incumbent() {
    let mut e = scheduled(1_000_000);
    assert_eq!(e.cancel_cycle(ALICE), Err(Error::NotIncumbent));
}

#[test]
fn cancel_cycle_rejected_outside_registration() {
    let mut e = with_candidate(DJANGO, 200);
    assert!(approve(&mut e, ALICE, cycle_day(5), DJANGO).is_ok());
    assert_eq!(e.cancel_cycle(FRANK), Err(Error::WrongPhase));
    assert_eq!(e.phase(), Phase::Voting);
}

#[test]
fn voting_window_is_fixed_to_the_calendar() {
    let mut e = with_candidate(DJANGO, 200);
    assert!(approve(&mut e, ALICE, cycle_day(7), DJANGO).is_ok());
    assert_eq!(e.voting_window(), (cycle_day(7), cycle_day(10)));
}

#[test]
fn first_vote_on_close_day_is_rejected() {
    let mut e = with_candidate(DJANGO, 200);
    assert_eq!(approve(&mut e, ALICE, cycle_day(10), DJANGO), Err(Error::NotElectionTime));
    assert_eq!(e.phase(), Phase::Registration);
    let _ = BOB;
}

#[test]
fn tally_sums_approvals_and_keeps_the_earlier_leader_on_a_tie() {
    let mut e = with_candidate(DJANGO, 7);
    assert!(e.register_candidate(EVE, cycle_day(1), 8, EVE, stake()).is_ok());
    assert_eq!(e.leading_candidate(), None);
    let w1 = approve(&mut e, ALICE, cycle_day(5), DJANGO).unwrap();
    assert_eq!(e.leading_candidate(), Some((DJANGO, w1)));
    let w2 = approve(&mut e, BOB, cycle_day(6), EVE).unwrap();
    assert_eq!(w1, w2);
    assert_eq!(e.leading_candidate(), Some((DJANGO, w1)));
    let w3 = e.cast_approval(FRANK, cycle_day(6), EVE, FRANK, 1_000_000_000_000, 10_000, true).unwrap().weight;
    assert_eq!(e.leading_candidate(), Some((EVE, w2 + w3)));
    let total: u128 = e.candidate_list().iter().map(|c| e.approval_weight(*c)).sum();
    assert_eq!(total, e.total_participating_power());
    assert_eq!(e.total_participating_power(), w1 + w2 + w3);
    assert_eq!(e.total_voted_balance(), BALANCE + BALANCE + 1_000_000_000_000);
}

use tusdt::forward::{GovernanceForward, VaultGlobalParamsConfig};
use tusdt::governance::{Error, GovernanceParams, ProposalKind, ProposalStatus, TusdtGovernance};
use tusdt::ratio::Ratio;
use tusdt::treasury::{Fund, TokenKind};
use tusdt::voting::MS_PER_DAY;

const ALICE: u64 = 1;
const BOB: u64 = 2;
const CHARLIE: u64 = 3;
const DJANGO: u64 = 4;
const EVE: u64 = 5;
const FRANK: u64 = 6;

const IN_WINDOW_TS: u64 = 22 * MS_PER_DAY;

fn month_day(day: u64) -> u64 {
    (day - 1) * MS_PER_DAY
}

fn make_governance_no_snapshot() -> TusdtGovernance {
    let mut gov = TusdtGovernance::new(DJANGO, EVE, FRANK, CHARLIE, ALICE, FRANK);
    assert!(gov.set_council(ALICE, vec![ALICE, BOB, CHARLIE, DJANGO, EVE]).is_ok());
    gov
}

fn make_governance() -> TusdtGovernance {
    let mut gov = make_governance_no_snapshot();
    assert!(gov.submit_snapshot(ALICE, [0u8; 32], 0, 0).is_ok());
    gov
}

fn submit_default(gov: &mut TusdtGovernance, now: u64) -> Result<u64, Error> {
    gov.submit_proposal(ALICE, now, String::from("bafy"), ProposalKind::NonFunding).map(|(id, _)| id)
}

fn quick_params() -> GovernanceParams {
    let mut p = GovernanceParams::default_params();
    p.voting_period_ms = 1;
    p
}

#[test]
fn constructor_sets_maintainer_and_defaults() {
    let gov = make_governance_no_snapshot();
    assert_eq!(gov.maintainer(), ALICE);
    assert_eq!(gov.council().len(), 5);
    assert!(gov.is_council(ALICE));
    assert!(!gov.is_council(FRANK));
    assert_eq!(gov.proposal_count(), 0);
    assert_eq!(gov.netuid(), 113);
    let p = gov.params();
    assert_eq!(p.voting_period_ms, 7 * 24 * 60 * 60 * 1_000);
    assert_eq!(p.approval_bps, 5_001);
    assert_eq!(p.quorum_bps, 2_000);
    assert_eq!(p.min_proposer_stake, 1_000_000_000_000);
    assert_eq!(p.submission_open_day, 20);
    assert_eq!(p.submission_close_day, 27);
    assert_eq!(gov.current_epoch(), 0);
    assert!(gov.get_snapshot(1).is_none());
    assert_eq!(gov.quorum(1), 0);
    assert_eq!((gov.treasury(), gov.vault_address(), gov.auction_address(), gov.oracle_address()), (DJANGO, EVE, FRANK, CHARLIE));
    assert_eq!(gov.election(), FRANK);
}

#[test]
fn submit_proposal_rejects_without_snapshot() {
    let mut gov = make_governance_no_snapshot();
    assert_eq!(submit_default(&mut gov, IN_WINDOW_TS), Err(Error::NoSnapshot));
}

#[test]
fn submit_proposal_rejects_empty_cid() {
    let mut gov = make_governance();
    let res = gov.submit_proposal(ALICE, IN_WINDOW_TS, String::new(), ProposalKind::NonFunding);
    assert_eq!(res.map(|(id, _)| id), Err(Error::InvalidCid));
}

#[test]
fn submit_proposal_rejects_oversized_cid() {
    let mut gov = make_governance();
    let long_cid = String::from_utf8(vec![b'a'; 97]).unwrap();
    let res = gov.submit_proposal(ALICE, IN_WINDOW_TS, long_cid, ProposalKind::NonFunding);
    assert_eq!(res.map(|(id, _)| id), Err(Error::InvalidCid));
    let max_cid = String::from_utf8(vec![b'a'; 96]).unwrap();
    assert!(gov.submit_proposal(ALICE, IN_WINDOW_TS, max_cid, ProposalKind::NonFunding).is_ok());
    // The limit is in bytes: 49 two-byte characters are 98 bytes.
    let wide = "é".repeat(49);
    let res = gov.submit_proposal(ALICE, IN_WINDOW_TS, wide, ProposalKind::NonFunding);
    assert_eq!(res.map(|(id, _)| id), Err(Error::InvalidCid));
}

#[test]
fn submit_proposal_rejects_zero_amount_funding() {
    let mut gov = make_governance();
    let res = gov.submit_proposal(
        ALICE,
        IN_WINDOW_TS,
        String::from("bafy..."),
        ProposalKind::Funding { fund: Fund::Operation, token_kind: TokenKind::Tusdt, amount: 0, recipient: BOB },
    );
    assert_eq!(res.map(|(id, _)| id), Err(Error::InvalidAmount));
}

#[test]
fn submit_proposal_happy_path_increments_count() {
    let mut gov = make_governance();
    let (id, ev) = gov.submit_proposal(ALICE, IN_WINDOW_TS, String::from("bafy-cid-1"), ProposalKind::NonFunding).unwrap();
    assert_eq!(id, 1);
    assert_eq!(ev.voting_ends_at, IN_WINDOW_TS + 7 * MS_PER_DAY);
    assert_eq!(gov.proposal_count(), 1);
    let p = gov.get_proposal(1).unwrap();
    assert_eq!(p.id, 1);
    assert_eq!(p.cid, "bafy-cid-1");
    assert_eq!(p.status, ProposalStatus::Active);
    assert_eq!(p.yes, 0);
    assert_eq!(p.no, 0);
    assert_eq!(p.snapshot_epoch, 1);
    assert_eq!(submit_default(&mut gov, IN_WINDOW_TS), Ok(2));
    assert_eq!(gov.proposal_count(), 2);
}

#[test]
fn submit_proposal_rejects_non_council() {
    let mut gov = make_governance();
    let res = gov.submit_proposal(FRANK, IN_WINDOW_TS, String::from("bafy"), ProposalKind::NonFunding);
    assert_eq!(res.map(|(id, _)| id), Err(Error::NotCouncil));
    assert_eq!(gov.proposal_count(), 0);
}

#[test]
fn submit_proposal_rejects_before_window_opens() {
    let mut gov = make_governance();
    assert_eq!(submit_default(&mut gov, month_day(19)), Err(Error::OutsideSubmissionWindow));
    assert_eq!(gov.proposal_count(), 0);
}

#[test]
fn submit_proposal_rejects_after_window_closes() {
    let mut gov = make_governance();
    assert_eq!(submit_default(&mut gov, month_day(28)), Err(Error::OutsideSubmissionWindow));
    assert_eq!(gov.proposal_count(), 0);
}

#[test]
fn submit_proposal_allows_on_window_boundaries() {
    let mut gov = make_governance();
    assert!(submit_default(&mut gov, month_day(20)).is_ok());
    assert!(submit_default(&mut gov, month_day(27) + MS_PER_DAY - 1).is_ok());
    assert_eq!(gov.proposal_count(), 2);
}

#[test]
fn update_params_rejects_invalid_submission_window() {
    let mut gov = make_governance();
    let mut bad = GovernanceParams::default_params();
    bad.submission_open_day = 0;
    assert_eq!(gov.update_params(ALICE, bad), Err(Error::InvalidParams));
    let mut bad = GovernanceParams::default_params();
    bad.submission_open_day = 20;
    bad.submission_close_day = 10;
    assert_eq!(gov.update_params(ALICE, bad), Err(Error::InvalidParams));
    let mut bad = GovernanceParams::default_params();
    bad.submission_close_day = 29;
    assert_eq!(gov.update_params(ALICE, bad), Err(Error::InvalidParams));
}

#[test]
fn submit_proposal_respects_updated_window() {
    let mut gov = make_governance();
    let mut p = GovernanceParams::default_params();
    p.submission_open_day = 10;
    p.submission_close_day = 12;
    assert!(gov.update_params(ALICE, p).is_ok());
    assert_eq!(submit_default(&mut gov, month_day(15)), Err(Error::OutsideSubmissionWindow));
    assert!(submit_default(&mut gov, month_day(11)).is_ok());
    assert_eq!(gov.proposal_count(), 1);
}

#[test]
fn vote_weight_is_sqrt_of_balance() {
    let mut gov = make_governance();
    let id = submit_default(&mut gov, IN_WINDOW_TS).unwrap();
    let ev = gov.vote(ALICE, IN_WINDOW_TS, id, BOB, true, 4_000_000_000_000, 10_000, true).unwrap();
    assert_eq!(ev.weight, 2_000_000);
    let p = gov.get_proposal(id).unwrap();
    assert_eq!(p.yes, 2_000_000);
    assert_eq!(p.no, 0);
    assert!(gov.has_voted(id, ALICE, BOB));
}

#[test]
fn vote_weight_applies_time_staked_multiplier() {
    let mut gov = make_governance();
    let id = submit_default(&mut gov, IN_WINDOW_TS).unwrap();
    assert!(gov.vote(ALICE, IN_WINDOW_TS, id, BOB, false, 4_000_000_000_000, 8_000, true).is_ok());
    let p = gov.get_proposal(id).unwrap();
    assert_eq!((p.yes, p.no), (0, 1_600_000));
}

#[test]
fn vote_rejects_invalid_proof() {
    let mut gov = make_governance();
    let id = submit_default(&mut gov, IN_WINDOW_TS).unwrap();
    assert_eq!(gov.vote(ALICE, IN_WINDOW_TS, id, BOB, true, 4_000_000_000_000, 10_000, false), Err(Error::InvalidProof));
    assert!(!gov.has_voted(id, ALICE, BOB));
}

#[test]
fn vote_rejects_double_vote_for_same_pair() {
    let mut gov = make_governance();
    let id = submit_default(&mut gov, IN_WINDOW_TS).unwrap();
    assert!(gov.vote(ALICE, IN_WINDOW_TS, id, BOB, true, 4_000_000_000_000, 10_000, true).is_ok());
    assert_eq!(gov.vote(ALICE, IN_WINDOW_TS, id, BOB, false, 4_000_000_000_000, 10_000, true), Err(Error::AlreadyVoted));
    // Another hotkey of the same coldkey is a different leaf.
    assert!(gov.vote(ALICE, IN_WINDOW_TS, id, CHARLIE, false, 9, 10_000, true).is_ok());
    let p = gov.get_proposal(id).unwrap();
    assert_eq!((p.yes, p.no), (2_000_000, 3));
}

#[test]
fn vote_errors() {
    let mut gov = make_governance();
    assert_eq!(gov.vote(ALICE, IN_WINDOW_TS, 9, BOB, true, 4, 10_000, true), Err(Error::ProposalNotFound));
    let id = submit_default(&mut gov, IN_WINDOW_TS).unwrap();
    assert_eq!(gov.vote(ALICE, IN_WINDOW_TS, id, BOB, true, 0, 10_000, true), Err(Error::NoStake));
    assert_eq!(
        gov.vote(ALICE, IN_WINDOW_TS + 7 * MS_PER_DAY, id, BOB, true, 4, 10_000, true),
        Err(Error::VotingClosed)
    );
}

#[test]
fn update_params_rejects_non_maintainer() {
    let mut gov = make_governance();
    assert_eq!(gov.update_params(BOB, GovernanceParams::default_params()), Err(Error::NotMaintainer));
}

#[test]
fn update_params_rejects_invalid_approval_bps() {
    let mut gov = make_governance();
    let mut bad = GovernanceParams::default_params();
    bad.approval_bps = 0;
    assert_eq!(gov.update_params(ALICE, bad), Err(Error::InvalidParams));
    bad.approval_bps = 10_001;
    assert_eq!(gov.update_params(ALICE, bad), Err(Error::InvalidParams));
}

#[test]
fn update_params_rejects_zero_voting_period() {
    let mut gov = make_governance();
    let mut bad = GovernanceParams::default_params();
    bad.voting_period_ms = 0;
    assert_eq!(gov.update_params(ALICE, bad), Err(Error::InvalidParams));
}

#[test]
fn update_params_rejects_invalid_quorum_bps() {
    let mut gov = make_governance();
    let mut bad = GovernanceParams::default_params();
    bad.quorum_bps = 10_001;
    assert_eq!(gov.update_params(ALICE, bad), Err(Error::InvalidParams));
}

#[test]
fn update_params_happy_path() {
    let mut gov = make_governance();
    let mut p = GovernanceParams::default_params();
    p.quorum_bps = 3_000;
    p.approval_bps = 6_667;
    p.voting_period_ms = 24 * 60 * 60 * 1_000;
    assert!(gov.update_params(ALICE, p).is_ok());
    assert_eq!(gov.params().quorum_bps, 3_000);
    assert_eq!(gov.params().approval_bps, 6_667);
    assert_eq!(gov.params().voting_period_ms, 24 * 60 * 60 * 1_000);
}

#[test]
fn finalize_before_voting_ends_fails() {
    let mut gov = make_governance();
    let id = submit_default(&mut gov, IN_WINDOW_TS).unwrap();
    assert_eq!(gov.finalize(IN_WINDOW_TS, id), Err(Error::VotingStillOpen));
}

#[test]
fn execute_on_non_passed_fails() {
    let mut gov = make_governance();
    let id = submit_default(&mut gov, IN_WINDOW_TS).unwrap();
    assert_eq!(gov.execute(id).map(|(r, _)| r), Err(Error::NotPassed));
    assert_eq!(gov.execute(77).map(|(r, _)| r), Err(Error::ProposalNotFound));
}

#[test]
fn finalize_rejects_when_quorum_not_met() {
    let mut gov = make_governance();
    assert!(gov.update_params(ALICE, quick_params()).is_ok());
    assert!(gov.submit_snapshot(ALICE, [1u8; 32], 1_000_000, 0).is_ok());
    let id = submit_default(&mut gov, IN_WINDOW_TS).unwrap();
    let ev = gov.finalize(IN_WINDOW_TS + 1, id).unwrap();
    assert_eq!(ev.status, ProposalStatus::Rejected);
    assert_eq!(gov.get_proposal(id).unwrap().status, ProposalStatus::Rejected);
    assert_eq!(gov.finalize(IN_WINDOW_TS + 1, id), Err(Error::ProposalNotActive));
}

#[test]
fn quorum_is_20_percent_of_circulating_supply_by_default() {
    let mut gov = make_governance();
    let (epoch, _) = gov.submit_snapshot(ALICE, [0u8; 32], 1_000_000, 0).unwrap();
    assert_eq!(gov.get_snapshot(epoch).unwrap().circulating_supply, 1_000_000);
    assert_eq!(gov.quorum(epoch), 200_000);
}

#[test]
fn submit_snapshot_rejects_non_council() {
    let mut gov = make_governance();
    let before = gov.current_epoch();
    assert_eq!(gov.submit_snapshot(FRANK, [0u8; 32], 1_000_000, 0).map(|(e, _)| e), Err(Error::NotCouncil));
    assert_eq!(gov.current_epoch(), before);
}

#[test]
fn finalize_passes_when_quorum_met() {
    let mut gov = make_governance();
    assert!(gov.update_params(ALICE, quick_params()).is_ok());
    let balance = 4_000_000_000_000;
    let (epoch, _) = gov.submit_snapshot(ALICE, [2u8; 32], 1_000_000, 0).unwrap();
    assert!(gov.quorum(epoch) < balance);
    let id = submit_default(&mut gov, IN_WINDOW_TS).unwrap();
    assert!(gov.vote(ALICE, IN_WINDOW_TS, id, BOB, true, balance, 10_000, true).is_ok());
    let ev = gov.finalize(IN_WINDOW_TS + 2, id).unwrap();
    assert_eq!(ev.status, ProposalStatus::Passed);
    let p = gov.get_proposal(id).unwrap();
    assert_eq!(p.status, ProposalStatus::Passed);
    assert_eq!(p.voted_balance, balance);
    let (release, _) = gov.execute(id).unwrap();
    assert_eq!(release, None);
    assert_eq!(gov.get_proposal(id).unwrap().status, ProposalStatus::Executed);
    assert_eq!(gov.execute(id).map(|(r, _)| r), Err(Error::AlreadyExecuted));
}

#[test]
fn passed_funding_proposal_releases_treasury_funds() {
    let mut gov = make_governance();
    assert!(gov.update_params(ALICE, quick_params()).is_ok());
    assert!(gov.submit_snapshot(ALICE, [2u8; 32], 10, 0).is_ok());
    let kind = ProposalKind::Funding { fund: Fund::Insurance, token_kind: TokenKind::Native, amount: 77, recipient: DJANGO };
    let (id, _) = gov.submit_proposal(BOB, IN_WINDOW_TS, String::from("fund"), kind).unwrap();
    assert!(gov.vote(ALICE, IN_WINDOW_TS, id, BOB, true, 100, 10_000, true).is_ok());
    assert!(gov.vote(CHARLIE, IN_WINDOW_TS, id, CHARLIE, false, 81, 10_000, true).is_ok());
    assert_eq!(gov.finalize(IN_WINDOW_TS + 5, id).unwrap().status, ProposalStatus::Passed);
    let (release, ev) = gov.execute(id).unwrap();
    let r = release.unwrap();
    assert_eq!((r.fund, r.token_kind, r.amount, r.recipient), (Fund::Insurance, TokenKind::Native, 77, DJANGO));
    assert_eq!(ev.proposal_id, id);
}

#[test]
fn finalize_rejects_when_voted_balance_below_quorum() {
    let mut gov = make_governance();
    assert!(gov.update_params(ALICE, quick_params()).is_ok());
    let balance = 1_000_000;
    let (epoch, _) = gov.submit_snapshot(ALICE, [3u8; 32], 100_000_000, 0).unwrap();
    assert_eq!(gov.quorum(epoch), 20_000_000);
    let id = submit_default(&mut gov, IN_WINDOW_TS).unwrap();
    assert!(gov.vote(ALICE, IN_WINDOW_TS, id, BOB, true, balance, 10_000, true).is_ok());
    assert!(gov.finalize(IN_WINDOW_TS + 2, id).is_ok());
    let p = gov.get_proposal(id).unwrap();
    assert_eq!(p.status, ProposalStatus::Rejected);
    assert_eq!(p.voted_balance, balance);
}

#[test]
fn election_installs_maintainer() {
    let mut gov = make_governance();
    assert_eq!(gov.election(), FRANK);
    assert_eq!(gov.elect_maintainer(ALICE, BOB).map(|e| e.new), Err(Error::NotElection));
    let ev = gov.elect_maintainer(FRANK, BOB).unwrap();
    assert_eq!((ev.previous, ev.new), (ALICE, BOB));
    assert_eq!(gov.maintainer(), BOB);
    assert!(gov.election_set_netuid(FRANK, 99).is_ok());
    assert_eq!(gov.netuid(), 99);
    assert!(gov.update_params(BOB, GovernanceParams::default_params()).is_ok());
    assert_eq!(gov.update_params(ALICE, GovernanceParams::default_params()), Err(Error::NotMaintainer));
}

#[test]
fn election_entries_reject_non_election_callers() {
    let mut gov = make_governance();
    assert_eq!(gov.elect_maintainer(ALICE, BOB).map(|e| e.new), Err(Error::NotElection));
    assert_eq!(gov.elect_maintainer(BOB, BOB).map(|e| e.new), Err(Error::NotElection));
    assert_eq!(gov.election_set_netuid(ALICE, 5), Err(Error::NotElection));
    assert_eq!(gov.netuid(), 113);
}

#[test]
fn set_council_replaces_membership() {
    let mut gov = make_governance();
    let ev = gov.set_council(ALICE, vec![FRANK, 10, 11, 12, 13]).unwrap();
    assert_eq!(ev.members, vec![FRANK, 10, 11, 12, 13]);
    assert!(gov.is_council(FRANK));
    assert!(!gov.is_council(BOB));
}

#[test]
fn set_council_rejects_non_maintainer() {
    let mut gov = make_governance();
    assert_eq!(gov.set_council(BOB, vec![1, 2, 3, 4, 5]).map(|e| e.members), Err(Error::NotMaintainer));
}

#[test]
fn set_council_rejects_wrong_size() {
    let mut gov = make_governance();
    assert_eq!(gov.set_council(ALICE, vec![1, 2, 3, 4]).map(|e| e.members), Err(Error::InvalidCouncil));
    assert_eq!(gov.set_council(ALICE, vec![1, 2, 3, 4, 5, 6]).map(|e| e.members), Err(Error::InvalidCouncil));
}

#[test]
fn set_council_rejects_duplicates() {
    let mut gov = make_governance();
    assert_eq!(gov.set_council(ALICE, vec![1, 2, 3, 2, 5]).map(|e| e.members), Err(Error::InvalidCouncil));
    assert_eq!(gov.council(), vec![ALICE, BOB, CHARLIE, DJANGO, EVE]);
}

#[test]
fn vault_maintainer_forwarders_reject_non_maintainer() {
    let gov = make_governance();
    assert_eq!(gov.vault_update_treasury(BOB, BOB), Err(Error::NotMaintainer));
    assert_eq!(gov.vault_update_platform(BOB, BOB), Err(Error::NotMaintainer));
    assert_eq!(gov.vault_unpause(BOB), Err(Error::NotMaintainer));
    assert_eq!(gov.vault_cancel_contract_params_update(BOB, 1), Err(Error::NotMaintainer));
    assert_eq!(gov.vault_set_approved_netuid(BOB, 1, true), Err(Error::NotMaintainer));
    let config = VaultGlobalParamsConfig {
        transaction_fee: 30,
        auction_duration_ms: 3_600_000,
        max_oracle_age_ms: 1_800_000,
        vault_creation_fee: 0,
    };
    assert_eq!(gov.vault_set_global_params(BOB, config), Err(Error::NotMaintainer));
    assert_eq!(gov.vault_set_global_params(ALICE, config), Ok(GovernanceForward::VaultSetGlobalParams { config }));
    assert_eq!(gov.vault_cancel_global_params_update(BOB), Err(Error::NotMaintainer));
    assert_eq!(gov.vault_update_treasury(ALICE, BOB), Ok(GovernanceForward::VaultUpdateTreasury { new_treasury: BOB }));
    assert_eq!(
        gov.vault_set_hotkey(ALICE, 9, vec![1, 2]),
        Ok(GovernanceForward::VaultSetHotkey { new_hotkey: 9, netuids: vec![1, 2] })
    );
}

#[test]
fn oracle_and_auction_maintainer_forwarders_reject_non_maintainer() {
    let gov = make_governance();
    assert_eq!(gov.oracle_set_validator(BOB, Some(BOB)), Err(Error::NotMaintainer));
    assert_eq!(gov.oracle_set_max_price_deviation(BOB, Ratio::from_basis_points(500)), Err(Error::NotMaintainer));
    assert_eq!(gov.auction_set_admin(BOB, Some(BOB)), Err(Error::NotMaintainer));
    assert_eq!(gov.oracle_commit_round(BOB, Ratio::from_basis_points(10_000)), Err(Error::NotMaintainer));
    let call = gov.oracle_commit_round(ALICE, Ratio::from_basis_points(10_000)).unwrap();
    assert_eq!(call, GovernanceForward::OracleCommitRound { price: Ratio::from_basis_points(10_000) });
    assert_eq!(call.failure_error(), Error::OracleCallFailed);
    assert_eq!(gov.auction_set_admin(ALICE, None).unwrap().failure_error(), Error::AuctionCallFailed);
}

#[test]
fn council_forwarders_reject_non_council() {
    let gov = make_governance();
    assert_eq!(gov.vault_pause(FRANK), Err(Error::NotCouncil));
    let call = gov.vault_pause(BOB).unwrap();
    assert_eq!(call, GovernanceForward::VaultPause);
    assert_eq!(call.failure_error(), Error::VaultCallFailed);
}

#[test]
fn pool_forwarders_are_maintainer_only() {
    let gov = make_governance();
    assert_eq!(gov.pool_unpause(BOB), Err(Error::NotMaintainer));
    assert_eq!(gov.pool_claim_surplus_tusdt(ALICE, 5), Ok(GovernanceForward::PoolClaimSurplusTusdt { amount: 5 }));
    assert_eq!(gov.pool_update_maintainer(ALICE, 3).unwrap().failure_error(), Error::PoolCallFailed);
    assert_eq!(gov.vault_set_token_controller(ALICE, 3).unwrap().failure_error(), Error::VaultTokenCallFailed);
}

#[test]
fn address_updates_are_maintainer_only() {
    let mut gov = make_governance();
    assert_eq!(gov.update_pool_address(BOB, 42).map(|e| e.new_pool), Err(Error::NotMaintainer));
    assert_eq!(gov.update_pool_address(ALICE, 42).map(|e| e.new_pool), Ok(42));
    assert_eq!(gov.pool_address(), 42);
    assert!(gov.update_vault_address(ALICE, 43).is_ok());
    assert!(gov.update_auction_address(ALICE, 44).is_ok());
    assert!(gov.update_oracle_address(ALICE, 45).is_ok());
    assert!(gov.update_treasury_address(ALICE, 46).is_ok());
    assert_eq!((gov.vault_address(), gov.auction_address(), gov.oracle_address(), gov.treasury()), (43, 44, 45, 46));
}

#[test]
fn vault_get_hotkey_names_the_read() {
    let gov = make_governance();
    assert_eq!(gov.vault_get_hotkey(), GovernanceForward::VaultGetHotkey);
    assert_eq!(GovernanceForward::VaultGetHotkey.failure_error(), Error::VaultCallFailed);
}

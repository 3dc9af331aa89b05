//! The maintainer election: a two-year cycle (Idle, Registration, Voting, Elected) with
//! approval voting by a governance snapshot electorate weighted by quadratic time-staked voting
//! power, a turnout quorum and a strict-majority bar, and a six-month migration when the winner
//! governs a different subnet.
//!
//! What the chain and governance hold is handed in by the host: the electorate snapshot read from
//! governance, a candidate's stake record, and whether a voter's Merkle proof matches the
//! snapshot root. Installing the winner and switching the subnet are calls into governance that
//! the host makes ([`GovernanceCall`]); if such a call fails, the message fails with
//! `GovernanceCallFailed` and its state change is discarded. A failed message leaves the
//! election unchanged.

use vstd::prelude::*;
use std::collections::HashMap;
use crate::types::{AccountId, BPS_DENOMINATOR, Timestamp};
use crate::voting::{MerkleHash, MS_PER_DAY, calendar_day, day_of_month, voting_power, voting_power_spec};

verus! {

broadcast use vstd::std_specs::hash::group_hash_axioms;

/// One term (730 days).
pub const TERM_LENGTH_MS: u64 = 63_072_000_000;

/// Day of the month on which voting opens.
pub const VOTE_OPEN_DAY: u8 = 5;

/// Day of the month on which voting closes.
pub const VOTE_CLOSE_DAY: u8 = 10;

/// Earliest day of the month on which a winner may be activated.
pub const ACTIVATION_DAY: u8 = 15;

/// Migration window after a different-subnet winner activates (182 days).
pub const TRANSITION_MS: u64 = 15_724_800_000;

/// Terms an account may serve.
pub const MAX_TERMS: u32 = 2;

/// Majority bar in basis points (strictly above it wins).
pub const APPROVAL_THRESHOLD_BPS: u32 = 5_000;

/// Turnout quorum in basis points of the snapshot's circulating supply.
pub const QUORUM_BPS: u32 = 2_000;

/// Alpha a candidate must hold in the subnet it registers for.
pub const MIN_CANDIDATE_STAKE: u128 = 10_000_000_000_000;

/// Lifecycle stage of the current cycle.
#[derive(Debug, Clone, Copy, PartialEq, Eq, Structural)]
pub enum Phase {
    Idle,
    Registration,
    Voting,
    Elected,
}

/// A registered candidacy for the current cycle.
#[derive(Debug, Clone, Copy, PartialEq, Eq, Structural)]
pub struct Candidacy {
    pub netuid: u16,
    pub registered_at: Timestamp,
}

/// The electorate snapshot of a cycle, read from governance at scheduling.
#[derive(Debug, Clone, Copy, PartialEq, Eq)]
pub struct ElectionSnapshot {
    pub root: MerkleHash,
    pub circulating_supply: u128,
    pub netuid: u16,
    pub snapshot_block: u32,
}

/// The winner recorded at finalization.
#[derive(Debug, Clone, Copy, PartialEq, Eq, Structural)]
pub struct MaintainerElect {
    pub who: AccountId,
    pub netuid: u16,
    pub approval_weight: u128,
    pub decided_at: Timestamp,
}

/// An in-flight migration to the winner's subnet.
#[derive(Debug, Clone, Copy, PartialEq, Eq, Structural)]
pub struct Transition {
    pub from_netuid: u16,
    pub to_netuid: u16,
    pub ends_at: Timestamp,
}

/// Emitted when a cycle opens.
#[derive(Debug, Clone, Copy, PartialEq, Eq, Structural)]
pub struct ElectionScheduled {
    pub cycle_id: u64,
    pub emergency: bool,
    pub scheduled_at: Timestamp,
}

/// Emitted when a candidate registers.
#[derive(Debug, Clone, Copy, PartialEq, Eq, Structural)]
pub struct CandidateRegistered {
    pub cycle_id: u64,
    pub candidate: AccountId,
    pub netuid: u16,
}

/// Emitted when a leaf approves a candidate.
#[derive(Debug, Clone, Copy, PartialEq, Eq, Structural)]
pub struct ApprovalCast {
    pub cycle_id: u64,
    pub candidate: AccountId,
    pub coldkey: AccountId,
    pub weight: u128,
}

/// Emitted when a cycle is finalized.
#[derive(Debug, Clone, Copy, PartialEq, Eq, Structural)]
pub struct ElectionFinalized {
    pub cycle_id: u64,
    pub winner: Option<AccountId>,
    pub netuid: u16,
    pub approval_weight: u128,
    pub total_voting_power: u128,
}

/// Emitted when the winner is installed.
#[derive(Debug, Clone, Copy, PartialEq, Eq, Structural)]
pub struct MaintainerActivated {
    pub cycle_id: u64,
    pub new_maintainer: AccountId,
    pub active_netuid: u16,
}

/// Emitted when a migration begins.
#[derive(Debug, Clone, Copy, PartialEq, Eq, Structural)]
pub struct TransitionStarted {
    pub from_netuid: u16,
    pub to_netuid: u16,
    pub ends_at: Timestamp,
}

/// Emitted when a migration completes.
#[derive(Debug, Clone, Copy, PartialEq, Eq, Structural)]
pub struct TransitionEnded {
    pub netuid: u16,
}

/// Emitted when the incumbent flags an emergency election.
#[derive(Debug, Clone, Copy, PartialEq, Eq, Structural)]
pub struct EmergencyElectionTriggered {
    pub triggered_by: AccountId,
}

/// Errors of the election.
#[derive(Debug, Clone, Copy, PartialEq, Eq, Structural)]
pub enum Error {
    NotIncumbent,
    WrongPhase,
    NotElectionTime,
    VotingClosed,
    VotingStillOpen,
    BeforeActivationDay,
    CandidateNotFound,
    AlreadyRegistered,
    TermLimitReached,
    InvalidNetuid,
    InsufficientStake,
    StakeQueryFailed,
    NoSnapshot,
    InvalidProof,
    NoStake,
    AlreadyApproved,
    NoWinner,
    NoTransition,
    TransitionActive,
    NoEmergencyPending,
    GovernanceCallFailed,
    ArithmeticError,
}

/// The chain's stake record of a candidate (coldkey, hotkey) on the claimed subnet.
#[derive(Debug, Clone, Copy, PartialEq, Eq, Structural)]
pub enum CandidateStake {
    /// The chain query failed.
    QueryFailed,
    /// No stake record exists.
    NotFound,
    /// The candidate's alpha stake.
    Stake(u128),
}

/// A call into governance that the host makes on the election's behalf.
#[derive(Debug, Clone, Copy, PartialEq, Eq, Structural)]
pub enum GovernanceCall {
    /// `governance.elect_maintainer(who)`.
    ElectMaintainer(AccountId),
    /// `governance.election_set_netuid(netuid)`.
    SetNetuid(u16),
}

/// The key of a per-cycle record of `who`.
pub open spec fn cycle_key(cycle: u64, who: AccountId) -> u128 {
    ((cycle as int) * 0x1_0000_0000_0000_0000 + (who as int)) as u128
}

fn cycle_key_of(cycle: u64, who: AccountId) -> (k: u128)
    ensures
        k == cycle_key(cycle, who),
{
    proof {
        assert((cycle as int) * 0x1_0000_0000_0000_0000 + (who as int) <= u128::MAX) by (nonlinear_arith)
            requires 0 <= cycle <= u64::MAX, 0 <= who <= u64::MAX;
    }
    (cycle as u128) * 0x1_0000_0000_0000_0000u128 + (who as u128)
}

/// Whether `v` holds the triple `t`.
pub fn contains_triple(v: &Vec<(u64, AccountId, AccountId)>, t: (u64, AccountId, AccountId)) -> (b: bool)
    ensures
        b == v@.contains(t),
{
    let mut i: usize = 0;
    while i < v.len()
        invariant
            i <= v.len(),
            forall|j: int| 0 <= j < i ==> v@[j] != t,
        decreases v.len() - i,
    {
        let x = v[i];
        if x.0 == t.0 && x.1 == t.1 && x.2 == t.2 {
            assert(v@[i as int] == t);
            return true;
        }
        i = i + 1;
    }
    false
}

/// Election storage.
pub struct TusdtElection {
    pub governance: AccountId,
    pub genesis_election_ts: Timestamp,
    /// Elapsed terms; the next election is `genesis + term_index * TERM_LENGTH_MS`.
    pub term_index: u32,
    pub next_election_ts: Timestamp,
    pub incumbent: AccountId,
    pub active_netuid: u16,
    pub terms_served: HashMap<AccountId, u32>,
    pub phase: Phase,
    pub cycle_id: u64,
    /// Candidacies by `cycle_key(cycle, candidate)`.
    pub candidates: HashMap<u128, Candidacy>,
    pub candidate_list: Vec<AccountId>,
    /// Approval weight by `cycle_key(cycle, candidate)`.
    pub approvals: HashMap<u128, u128>,
    /// The (cycle, coldkey, hotkey) leaves that have voted.
    pub participated: Vec<(u64, AccountId, AccountId)>,
    pub total_voting_power: u128,
    pub total_voted_balance: u128,
    pub leading_candidate: Option<AccountId>,
    pub leading_weight: u128,
    pub election_snapshot: Option<ElectionSnapshot>,
    pub voting_opens_at: Timestamp,
    pub voting_ends_at: Timestamp,
    pub maintainer_elect: Option<MaintainerElect>,
    pub transition: Option<Transition>,
    pub emergency_pending: bool,
}

/// The abstract state of the election.
pub struct ElectionView {
    pub governance: AccountId,
    pub genesis_election_ts: Timestamp,
    pub term_index: u32,
    pub next_election_ts: Timestamp,
    pub incumbent: AccountId,
    pub active_netuid: u16,
    pub terms_served: Map<AccountId, u32>,
    pub phase: Phase,
    pub cycle_id: u64,
    pub candidates: Map<u128, Candidacy>,
    pub candidate_list: Seq<AccountId>,
    pub approvals: Map<u128, u128>,
    pub participated: Seq<(u64, AccountId, AccountId)>,
    pub total_voting_power: u128,
    pub total_voted_balance: u128,
    pub leading_candidate: Option<AccountId>,
    pub leading_weight: u128,
    pub election_snapshot: Option<ElectionSnapshot>,
    pub voting_opens_at: Timestamp,
    pub voting_ends_at: Timestamp,
    pub maintainer_elect: Option<MaintainerElect>,
    pub transition: Option<Transition>,
    pub emergency_pending: bool,
}

impl View for TusdtElection {
    type V = ElectionView;

    open spec fn view(&self) -> ElectionView {
        ElectionView {
            governance: self.governance,
            genesis_election_ts: self.genesis_election_ts,
            term_index: self.term_index,
            next_election_ts: self.next_election_ts,
            incumbent: self.incumbent,
            active_netuid: self.active_netuid,
            terms_served: self.terms_served@,
            phase: self.phase,
            cycle_id: self.cycle_id,
            candidates: self.candidates@,
            candidate_list: self.candidate_list@,
            approvals: self.approvals@,
            participated: self.participated@,
            total_voting_power: self.total_voting_power,
            total_voted_balance: self.total_voted_balance,
            leading_candidate: self.leading_candidate,
            leading_weight: self.leading_weight,
            election_snapshot: self.election_snapshot,
            voting_opens_at: self.voting_opens_at,
            voting_ends_at: self.voting_ends_at,
            maintainer_elect: self.maintainer_elect,
            transition: self.transition,
            emergency_pending: self.emergency_pending,
        }
    }
}

impl ElectionView {
    /// Terms served by `who` (0 when none recorded).
    pub open spec fn terms(self, who: AccountId) -> u32 {
        if self.terms_served.contains_key(who) { self.terms_served[who] } else { 0 }
    }

    /// The approval weight of `candidate` in the current cycle (0 when none).
    pub open spec fn approval(self, candidate: AccountId) -> u128 {
        approval_in(self.approvals, self.cycle_id, candidate)
    }

    /// Whether `candidate` is registered in the current cycle.
    pub open spec fn is_candidate(self, candidate: AccountId) -> bool {
        self.candidates.contains_key(cycle_key(self.cycle_id, candidate))
    }
}

/// The term limit holds: no account has served more than [`MAX_TERMS`] terms; while a cycle is
/// open every registered candidate may still serve another term, and so may a recorded winner;
/// and no candidacy exists for a cycle that has not opened yet.
pub open spec fn term_limits_hold(v: ElectionView) -> bool {
    &&& forall|who: AccountId| #[trigger] v.terms(who) <= MAX_TERMS
    &&& (v.phase == Phase::Registration || v.phase == Phase::Voting)
        ==> forall|who: AccountId| #[trigger] v.is_candidate(who) ==> v.terms(who) < MAX_TERMS
    &&& (v.phase == Phase::Elected && v.maintainer_elect is Some) ==> v.terms(v.maintainer_elect->Some_0.who) < MAX_TERMS
    &&& forall|c: u64, who: AccountId| c > v.cycle_id ==> !(#[trigger] v.candidates.contains_key(cycle_key(c, who)))
}

/// The approval weight of `candidate` in cycle `cycle` (0 when none).
pub open spec fn approval_in(approvals: Map<u128, u128>, cycle: u64, candidate: AccountId) -> u128 {
    let k = cycle_key(cycle, candidate);
    if approvals.contains_key(k) { approvals[k] } else { 0 }
}

/// The sum of the approvals of `cands` in cycle `cycle`.
pub open spec fn approval_sum(approvals: Map<u128, u128>, cycle: u64, cands: Seq<AccountId>) -> int
    decreases cands.len(),
{
    if cands.len() == 0 {
        0
    } else {
        approval_sum(approvals, cycle, cands.drop_last()) + approval_in(approvals, cycle, cands.last())
    }
}

/// The running tally of an open cycle agrees with its approvals: the candidate list names each
/// registered candidate once; only candidates hold approvals; the approvals add up to the
/// participating power; and the leader (none before the first vote) holds the highest approval.
pub open spec fn open_tally_holds(v: ElectionView) -> bool {
    &&& v.candidate_list.no_duplicates()
    &&& forall|c: AccountId| #[trigger] v.is_candidate(c) <==> v.candidate_list.contains(c)
    &&& forall|c: AccountId| !v.candidate_list.contains(c) ==> #[trigger] v.approval(c) == 0
    &&& approval_sum(v.approvals, v.cycle_id, v.candidate_list) == v.total_voting_power
    &&& forall|c: AccountId| v.candidate_list.contains(c) ==> #[trigger] v.approval(c) <= v.leading_weight
    &&& match v.leading_candidate {
        None => v.leading_weight == 0,
        Some(c) => v.candidate_list.contains(c) && v.approval(c) == v.leading_weight,
    }
}

/// The tally holds: no approval or candidacy exists for a cycle that has not opened yet, and
/// while a cycle is open its running tally agrees with its approvals.
pub open spec fn tally_holds(v: ElectionView) -> bool {
    &&& forall|c: u64, who: AccountId| c > v.cycle_id ==> !(#[trigger] v.approvals.contains_key(cycle_key(c, who)))
    &&& forall|c: u64, who: AccountId| c > v.cycle_id ==> !(#[trigger] v.candidates.contains_key(cycle_key(c, who)))
    &&& (v.phase == Phase::Registration || v.phase == Phase::Voting) ==> open_tally_holds(v)
}

/// Raising one candidate's approval by `weight` raises the sum over a list without repeats by
/// `weight` when the candidate is listed, and leaves it otherwise.
proof fn lemma_sum_bump(a: Map<u128, u128>, b: Map<u128, u128>, cycle: u64, cands: Seq<AccountId>, cand: AccountId, weight: int)
    requires
        cands.no_duplicates(),
        forall|c: AccountId| c != cand ==> #[trigger] approval_in(b, cycle, c) == approval_in(a, cycle, c),
        approval_in(b, cycle, cand) == approval_in(a, cycle, cand) + weight,
    ensures
        approval_sum(b, cycle, cands) == approval_sum(a, cycle, cands) + (if cands.contains(cand) { weight } else { 0 }),
    decreases cands.len(),
{
    if cands.len() > 0 {
        let init = cands.drop_last();
        assert(init.no_duplicates()) by {
            assert forall|i: int, j: int| 0 <= i < init.len() && 0 <= j < init.len() && i != j implies init[i] != init[j] by {
                assert(init[i] == cands[i]);
                assert(init[j] == cands[j]);
            }
        }
        lemma_sum_bump(a, b, cycle, init, cand, weight);
        let n = cands.len() - 1;
        if cands.contains(cand) {
            let i = choose|i: int| 0 <= i < cands.len() && cands[i] == cand;
            if i < n {
                assert(init[i] == cand);
                assert(cands.last() != cand);
            } else {
                if init.contains(cand) {
                    let j = choose|j: int| 0 <= j < init.len() && init[j] == cand;
                    assert(cands[j] == cands[n]);
                }
            }
        } else {
            assert(cands.last() != cand) by {
                assert(cands[n] == cands.last());
            }
            if init.contains(cand) {
                let j = choose|j: int| 0 <= j < init.len() && init[j] == cand;
                assert(cands[j] == cand);
            }
        }
    }
}

/// The tally carries over to a state with the same approvals, candidacies, cycle, candidate
/// list, totals and leader, whose open phase was open before.
proof fn lemma_tally_carry(v: ElectionView, w: ElectionView)
    requires
        tally_holds(v),
        w.approvals == v.approvals,
        w.candidates == v.candidates,
        w.cycle_id == v.cycle_id,
        w.candidate_list == v.candidate_list,
        w.total_voting_power == v.total_voting_power,
        w.leading_candidate == v.leading_candidate,
        w.leading_weight == v.leading_weight,
        (w.phase == Phase::Registration || w.phase == Phase::Voting) ==> (v.phase == Phase::Registration || v.phase == Phase::Voting),
    ensures
        tally_holds(w),
{
    assert forall|c: u64, who: AccountId| c > w.cycle_id implies !(#[trigger] w.approvals.contains_key(cycle_key(c, who))) by {
        assert(!v.approvals.contains_key(cycle_key(c, who)));
    }
    assert forall|c: u64, who: AccountId| c > w.cycle_id implies !(#[trigger] w.candidates.contains_key(cycle_key(c, who))) by {
        assert(!v.candidates.contains_key(cycle_key(c, who)));
    }
    if w.phase == Phase::Registration || w.phase == Phase::Voting {
        assert forall|c: AccountId| #[trigger] w.is_candidate(c) <==> w.candidate_list.contains(c) by {
            assert(v.is_candidate(c) <==> v.candidate_list.contains(c));
        }
        assert forall|c: AccountId| !w.candidate_list.contains(c) implies #[trigger] w.approval(c) == 0 by {
            assert(v.approval(c) == 0);
        }
        assert forall|c: AccountId| w.candidate_list.contains(c) implies #[trigger] w.approval(c) <= w.leading_weight by {
            assert(v.approval(c) <= v.leading_weight);
        }
    }
}

/// Leaving the open phases keeps the tally: only the absence of approvals and candidacies for
/// cycles not yet opened is owed outside them.
proof fn lemma_tally_close(v: ElectionView, w: ElectionView)
    requires
        tally_holds(v),
        w.approvals == v.approvals,
        w.candidates == v.candidates,
        w.cycle_id == v.cycle_id,
        w.phase != Phase::Registration,
        w.phase != Phase::Voting,
    ensures
        tally_holds(w),
{
    assert forall|c: u64, who: AccountId| c > w.cycle_id implies !(#[trigger] w.approvals.contains_key(cycle_key(c, who))) by {
        assert(!v.approvals.contains_key(cycle_key(c, who)));
    }
    assert forall|c: u64, who: AccountId| c > w.cycle_id implies !(#[trigger] w.candidates.contains_key(cycle_key(c, who))) by {
        assert(!v.candidates.contains_key(cycle_key(c, who)));
    }
}

/// Opening the next cycle starts an empty tally: no candidate, no approval, no leader.
proof fn lemma_tally_schedule(v: ElectionView, w: ElectionView)
    requires
        tally_holds(v),
        v.cycle_id < u64::MAX,
        w.approvals == v.approvals,
        w.candidates == v.candidates,
        w.cycle_id == v.cycle_id + 1,
        w.candidate_list == Seq::<AccountId>::empty(),
        w.total_voting_power == 0,
        w.leading_candidate is None,
        w.leading_weight == 0,
    ensures
        tally_holds(w),
        open_tally_holds(w),
{
    assert forall|c: u64, who: AccountId| c > w.cycle_id implies !(#[trigger] w.approvals.contains_key(cycle_key(c, who))) by {
        assert(!v.approvals.contains_key(cycle_key(c, who)));
    }
    assert forall|c: u64, who: AccountId| c > w.cycle_id implies !(#[trigger] w.candidates.contains_key(cycle_key(c, who))) by {
        assert(!v.candidates.contains_key(cycle_key(c, who)));
    }
    assert forall|c: AccountId| #[trigger] w.is_candidate(c) <==> w.candidate_list.contains(c) by {
        assert(!v.candidates.contains_key(cycle_key(w.cycle_id, c)));
    }
    assert forall|c: AccountId| !w.candidate_list.contains(c) implies #[trigger] w.approval(c) == 0 by {
        assert(!v.approvals.contains_key(cycle_key(w.cycle_id, c)));
    }
}

/// Registering a new candidate lists it once, with no approval yet.
proof fn lemma_tally_register(v: ElectionView, w: ElectionView, caller: AccountId, cand: Candidacy)
    requires
        tally_holds(v),
        v.phase == Phase::Registration,
        !v.is_candidate(caller),
        w.approvals == v.approvals,
        w.candidates == v.candidates.insert(cycle_key(v.cycle_id, caller), cand),
        w.cycle_id == v.cycle_id,
        w.phase == v.phase,
        w.candidate_list == v.candidate_list.push(caller),
        w.total_voting_power == v.total_voting_power,
        w.leading_candidate == v.leading_candidate,
        w.leading_weight == v.leading_weight,
    ensures
        tally_holds(w),
{
    assert forall|c: u64, who: AccountId| c > w.cycle_id implies !(#[trigger] w.approvals.contains_key(cycle_key(c, who))) by {
        assert(!v.approvals.contains_key(cycle_key(c, who)));
    }
    assert forall|c: u64, who: AccountId| c > w.cycle_id implies !(#[trigger] w.candidates.contains_key(cycle_key(c, who))) by {
        lemma_cycle_key_injective(c, who, v.cycle_id, caller);
        assert(!v.candidates.contains_key(cycle_key(c, who)));
    }
    let l = v.candidate_list;
    assert(!l.contains(caller));
    assert forall|c: AccountId| #[trigger] w.candidate_list.contains(c) <==> (l.contains(c) || c == caller) by {
        if w.candidate_list.contains(c) {
            let i = choose|i: int| 0 <= i < w.candidate_list.len() && w.candidate_list[i] == c;
            if i < l.len() {
                assert(l[i] == c);
            }
        }
        if l.contains(c) {
            let i = choose|i: int| 0 <= i < l.len() && l[i] == c;
            assert(w.candidate_list[i] == c);
        }
        if c == caller {
            assert(w.candidate_list[l.len() as int] == c);
        }
    }
    assert(w.candidate_list.no_duplicates()) by {
        assert forall|i: int, j: int| 0 <= i < w.candidate_list.len() && 0 <= j < w.candidate_list.len() && i != j
            implies w.candidate_list[i] != w.candidate_list[j] by {
            if i < l.len() && j < l.len() {
            } else if i < l.len() {
                assert(l.contains(l[i]));
            } else if j < l.len() {
                assert(l.contains(l[j]));
            }
        }
    }
    assert forall|c: AccountId| #[trigger] w.is_candidate(c) <==> w.candidate_list.contains(c) by {
        lemma_cycle_key_injective(v.cycle_id, c, v.cycle_id, caller);
        assert(v.is_candidate(c) <==> l.contains(c));
    }
    assert forall|c: AccountId| !w.candidate_list.contains(c) implies #[trigger] w.approval(c) == 0 by {
        assert(v.approval(c) == 0);
    }
    assert(v.approval(caller) == 0);
    assert(w.candidate_list.drop_last() =~= l);
    assert forall|c: AccountId| w.candidate_list.contains(c) implies #[trigger] w.approval(c) <= w.leading_weight by {
        if c != caller {
            assert(v.approval(c) <= v.leading_weight);
        }
    }
    match w.leading_candidate {
        None => {},
        Some(c) => {
            assert(w.candidate_list.contains(c));
        },
    }
}

/// Keys of distinct (cycle, account) pairs differ.
proof fn lemma_cycle_key_injective(c1: u64, w1: AccountId, c2: u64, w2: AccountId)
    ensures
        cycle_key(c1, w1) == cycle_key(c2, w2) ==> c1 == c2 && w1 == w2,
{
    assert(cycle_key(c1, w1) == cycle_key(c2, w2) ==> c1 == c2 && w1 == w2) by (nonlinear_arith)
        requires
            0 <= w1 < 0x1_0000_0000_0000_0000,
            0 <= w2 < 0x1_0000_0000_0000_0000,
            0 <= c1 < 0x1_0000_0000_0000_0000,
            0 <= c2 < 0x1_0000_0000_0000_0000,
    ;
}

/// The term limit carries over to a state with the same terms, candidacies and cycle, whose open
/// phase was open before and whose recorded winner was recorded before.
proof fn lemma_limits_carry(v: ElectionView, w: ElectionView)
    requires
        term_limits_hold(v),
        w.terms_served == v.terms_served,
        w.candidates == v.candidates,
        w.cycle_id == v.cycle_id,
        (w.phase == Phase::Registration || w.phase == Phase::Voting) ==> (v.phase == Phase::Registration || v.phase == Phase::Voting),
        (w.phase == Phase::Elected && w.maintainer_elect is Some) ==> (v.phase == Phase::Elected && v.maintainer_elect == w.maintainer_elect),
    ensures
        term_limits_hold(w),
{
    assert forall|who: AccountId| #[trigger] w.terms(who) <= MAX_TERMS by {
        assert(v.terms(who) <= MAX_TERMS);
    }
    if w.phase == Phase::Registration || w.phase == Phase::Voting {
        assert forall|who: AccountId| #[trigger] w.is_candidate(who) implies w.terms(who) < MAX_TERMS by {
            assert(v.is_candidate(who));
        }
    }
    assert forall|c: u64, who: AccountId| c > w.cycle_id implies !(#[trigger] w.candidates.contains_key(cycle_key(c, who))) by {
        assert(!v.candidates.contains_key(cycle_key(c, who)));
    }
}

/// Opening the next cycle keeps the term limit: the new cycle has no candidacies yet.
proof fn lemma_limits_schedule(v: ElectionView, w: ElectionView)
    requires
        term_limits_hold(v),
        v.cycle_id < u64::MAX,
        w.terms_served == v.terms_served,
        w.candidates == v.candidates,
        w.cycle_id == v.cycle_id + 1,
        w.phase == Phase::Registration,
    ensures
        term_limits_hold(w),
{
    assert forall|who: AccountId| #[trigger] w.terms(who) <= MAX_TERMS by {
        assert(v.terms(who) <= MAX_TERMS);
    }
    assert forall|who: AccountId| #[trigger] w.is_candidate(who) implies w.terms(who) < MAX_TERMS by {
        assert(!v.candidates.contains_key(cycle_key(w.cycle_id, who)));
    }
    assert forall|c: u64, who: AccountId| c > w.cycle_id implies !(#[trigger] w.candidates.contains_key(cycle_key(c, who))) by {
        assert(!v.candidates.contains_key(cycle_key(c, who)));
    }
}

/// Registering a candidate that may still serve another term keeps the term limit.
proof fn lemma_limits_register(v: ElectionView, w: ElectionView, caller: AccountId, cand: Candidacy)
    requires
        term_limits_hold(v),
        v.phase == Phase::Registration,
        v.terms(caller) < MAX_TERMS,
        w.terms_served == v.terms_served,
        w.candidates == v.candidates.insert(cycle_key(v.cycle_id, caller), cand),
        w.cycle_id == v.cycle_id,
        w.phase == v.phase,
    ensures
        term_limits_hold(w),
{
    assert forall|who: AccountId| #[trigger] w.terms(who) <= MAX_TERMS by {
        assert(v.terms(who) <= MAX_TERMS);
    }
    assert forall|who: AccountId| #[trigger] w.is_candidate(who) implies w.terms(who) < MAX_TERMS by {
        lemma_cycle_key_injective(v.cycle_id, who, v.cycle_id, caller);
        if who != caller {
            assert(v.is_candidate(who));
        }
    }
    assert forall|c: u64, who: AccountId| c > w.cycle_id implies !(#[trigger] w.candidates.contains_key(cycle_key(c, who))) by {
        lemma_cycle_key_injective(c, who, v.cycle_id, caller);
        assert(!v.candidates.contains_key(cycle_key(c, who)));
    }
}

/// Recording a registered candidate as the winner keeps the term limit.
proof fn lemma_limits_win(v: ElectionView, w: ElectionView)
    requires
        term_limits_hold(v),
        v.phase == Phase::Voting,
        w.maintainer_elect is Some,
        v.is_candidate(w.maintainer_elect->Some_0.who),
        w.terms_served == v.terms_served,
        w.candidates == v.candidates,
        w.cycle_id == v.cycle_id,
        w.phase == Phase::Elected,
    ensures
        term_limits_hold(w),
{
    assert forall|who: AccountId| #[trigger] w.terms(who) <= MAX_TERMS by {
        assert(v.terms(who) <= MAX_TERMS);
    }
    assert(v.terms(w.maintainer_elect->Some_0.who) < MAX_TERMS);
    assert forall|c: u64, who: AccountId| c > w.cycle_id implies !(#[trigger] w.candidates.contains_key(cycle_key(c, who))) by {
        assert(!v.candidates.contains_key(cycle_key(c, who)));
    }
}

/// Seating the recorded winner for one more term keeps the term limit.
proof fn lemma_limits_seat(v: ElectionView, w: ElectionView)
    requires
        term_limits_hold(v),
        v.phase == Phase::Elected,
        v.maintainer_elect is Some,
        w.terms_served == v.terms_served.insert(v.maintainer_elect->Some_0.who, (v.terms(v.maintainer_elect->Some_0.who) + 1) as u32),
        w.candidates == v.candidates,
        w.cycle_id == v.cycle_id,
        w.phase == Phase::Idle,
    ensures
        term_limits_hold(w),
{
    let e = v.maintainer_elect->Some_0.who;
    assert forall|who: AccountId| #[trigger] w.terms(who) <= MAX_TERMS by {
        assert(v.terms(who) <= MAX_TERMS);
    }
    assert forall|c: u64, who: AccountId| c > w.cycle_id implies !(#[trigger] w.candidates.contains_key(cycle_key(c, who))) by {
        assert(!v.candidates.contains_key(cycle_key(c, who)));
    }
}

/// The cadence after one more term: `term_index + 1` and the next election
/// `genesis + term_index * TERM_LENGTH_MS`, or `None` on an overflow.
pub open spec fn advanced(v: ElectionView) -> Option<ElectionView> {
    if v.term_index == u32::MAX {
        None
    } else {
        let ti = v.term_index + 1;
        if ti * TERM_LENGTH_MS > u64::MAX || v.genesis_election_ts + ti * TERM_LENGTH_MS > u64::MAX {
            None
        } else {
            Some(ElectionView { term_index: ti as u32, next_election_ts: (v.genesis_election_ts + ti * TERM_LENGTH_MS) as u64, ..v })
        }
    }
}

/// The turnout quorum of a snapshot: `circulating_supply * QUORUM_BPS / 10_000` (0 without one),
/// or `None` on an overflow.
pub open spec fn quorum_of(s: Option<ElectionSnapshot>) -> Option<int> {
    let supply: int = match s { Some(x) => x.circulating_supply as int, None => 0 };
    if supply * QUORUM_BPS > u128::MAX { None } else { Some((supply * QUORUM_BPS) / (BPS_DENOMINATOR as int)) }
}

/// Opening a cycle at `now` with the governance snapshot `snapshot`.
pub open spec fn schedule_spec(v: ElectionView, now: u64, snapshot: Option<ElectionSnapshot>) -> Result<(ElectionView, ElectionScheduled), Error> {
    if v.phase != Phase::Idle {
        Err(Error::WrongPhase)
    } else if !v.emergency_pending && now < v.next_election_ts {
        Err(Error::NotElectionTime)
    } else if snapshot is None {
        Err(Error::NoSnapshot)
    } else if v.cycle_id == u64::MAX {
        Err(Error::ArithmeticError)
    } else {
        let c = (v.cycle_id + 1) as u64;
        Ok((
            ElectionView {
                cycle_id: c,
                candidate_list: Seq::empty(),
                total_voting_power: 0,
                total_voted_balance: 0,
                leading_candidate: None,
                leading_weight: 0,
                maintainer_elect: None,
                voting_opens_at: 0,
                voting_ends_at: 0,
                emergency_pending: false,
                election_snapshot: snapshot,
                phase: Phase::Registration,
                ..v
            },
            ElectionScheduled { cycle_id: c, emergency: v.emergency_pending, scheduled_at: now },
        ))
    }
}

/// The voting window opened by the first vote at `now` (on the 5th to the 9th): it ends at the
/// start of the 10th.
pub open spec fn window_end(now: u64) -> int {
    (now / MS_PER_DAY) * MS_PER_DAY + (VOTE_CLOSE_DAY - calendar_day(now)) * MS_PER_DAY
}

/// A vote by leaf (`coldkey`, `hotkey`) with snapshot `balance` and `multiplier_bps` for
/// `candidate` at `now`; `proof_valid` says whether its Merkle proof matches the snapshot root.
pub open spec fn approval_spec(
    v: ElectionView,
    coldkey: AccountId,
    now: u64,
    candidate: AccountId,
    hotkey: AccountId,
    balance: u128,
    multiplier_bps: u32,
    proof_valid: bool,
) -> Result<(ElectionView, ApprovalCast), Error> {
    let opened: Result<ElectionView, Error> = if v.phase == Phase::Registration {
        let day = calendar_day(now);
        if !(VOTE_OPEN_DAY <= day < VOTE_CLOSE_DAY) {
            Err(Error::NotElectionTime)
        } else if window_end(now) > u64::MAX {
            Err(Error::ArithmeticError)
        } else {
            Ok(ElectionView { voting_opens_at: now, voting_ends_at: window_end(now) as u64, phase: Phase::Voting, ..v })
        }
    } else if v.phase == Phase::Voting {
        if now >= v.voting_ends_at { Err(Error::VotingClosed) } else { Ok(v) }
    } else {
        Err(Error::WrongPhase)
    };
    match opened {
        Err(e) => Err(e),
        Ok(v1) => {
            let weight = voting_power_spec(balance, multiplier_bps);
            let updated = v1.approval(candidate) + weight;
            if !v1.is_candidate(candidate) {
                Err(Error::CandidateNotFound)
            } else if v1.participated.contains((v1.cycle_id, coldkey, hotkey)) {
                Err(Error::AlreadyApproved)
            } else if v1.election_snapshot is None {
                Err(Error::NoSnapshot)
            } else if !proof_valid {
                Err(Error::InvalidProof)
            } else if weight == 0 {
                Err(Error::NoStake)
            } else if updated > u128::MAX || v1.total_voting_power + weight > u128::MAX
                || v1.total_voted_balance + balance > u128::MAX {
                Err(Error::ArithmeticError)
            } else {
                let lead = updated > v1.leading_weight;
                Ok((
                    ElectionView {
                        approvals: v1.approvals.insert(cycle_key(v1.cycle_id, candidate), updated as u128),
                        leading_weight: if lead { updated as u128 } else { v1.leading_weight },
                        leading_candidate: if lead { Some(candidate) } else { v1.leading_candidate },
                        participated: v1.participated.push((v1.cycle_id, coldkey, hotkey)),
                        total_voting_power: (v1.total_voting_power + weight) as u128,
                        total_voted_balance: (v1.total_voted_balance + balance) as u128,
                        ..v1
                    },
                    ApprovalCast { cycle_id: v1.cycle_id, candidate, coldkey, weight: weight as u128 },
                ))
            }
        },
    }
}

/// Closing the vote at `now`: the leader wins when turnout reaches the quorum and its weight
/// is strictly above half of the participating power; otherwise the incumbent stays and the
/// cadence advances.
pub open spec fn finalize_spec(v: ElectionView, now: u64) -> Result<(ElectionView, ElectionFinalized), Error> {
    if v.phase != Phase::Voting {
        Err(Error::WrongPhase)
    } else if now < v.voting_ends_at {
        Err(Error::VotingStillOpen)
    } else {
        let best = v.leading_weight;
        match quorum_of(v.election_snapshot) {
            None => Err(Error::ArithmeticError),
            Some(q) => if best * BPS_DENOMINATOR > u128::MAX || v.total_voting_power * APPROVAL_THRESHOLD_BPS > u128::MAX {
                Err(Error::ArithmeticError)
            } else if v.total_voted_balance >= q && best > 0
                && best * BPS_DENOMINATOR > v.total_voting_power * APPROVAL_THRESHOLD_BPS {
                match v.leading_candidate {
                    None => Err(Error::NoWinner),
                    Some(who) => if !v.is_candidate(who) {
                        Err(Error::CandidateNotFound)
                    } else {
                        let c = v.candidates[cycle_key(v.cycle_id, who)];
                        Ok((
                            ElectionView {
                                maintainer_elect: Some(MaintainerElect { who, netuid: c.netuid, approval_weight: best, decided_at: now }),
                                phase: Phase::Elected,
                                ..v
                            },
                            ElectionFinalized { cycle_id: v.cycle_id, winner: Some(who), netuid: c.netuid, approval_weight: best, total_voting_power: v.total_voting_power },
                        ))
                    },
                }
            } else {
                match advanced(ElectionView { maintainer_elect: None, phase: Phase::Idle, ..v }) {
                    None => Err(Error::ArithmeticError),
                    Some(v2) => Ok((
                        v2,
                        ElectionFinalized { cycle_id: v.cycle_id, winner: None, netuid: 0, approval_weight: best, total_voting_power: v.total_voting_power },
                    )),
                }
            },
        }
    }
}

/// The failure of a message that may first make a governance call: the call attempted before
/// the failure (if any) and the error.
pub type CallFailure = (Option<GovernanceCall>, Error);

/// Installing the elected maintainer at `now` (on or after the 15th): the governance call to
/// make, the new state and the events.
pub open spec fn activate_spec(v: ElectionView, now: u64) -> Result<(ElectionView, GovernanceCall, Option<TransitionStarted>, MaintainerActivated), CallFailure> {
    if v.phase != Phase::Elected {
        Err((None, Error::WrongPhase))
    } else if v.maintainer_elect is None {
        Err((None, Error::NoWinner))
    } else if now < v.voting_ends_at {
        Err((None, Error::VotingStillOpen))
    } else if calendar_day(now) < ACTIVATION_DAY {
        Err((None, Error::BeforeActivationDay))
    } else {
        let e = v.maintainer_elect->Some_0;
        let call = GovernanceCall::ElectMaintainer(e.who);
        let moving = e.netuid != v.active_netuid;
        if moving && now + TRANSITION_MS > u64::MAX {
            Err((Some(call), Error::ArithmeticError))
        } else if v.terms(e.who) == u32::MAX {
            Err((Some(call), Error::ArithmeticError))
        } else {
            let t = Transition { from_netuid: v.active_netuid, to_netuid: e.netuid, ends_at: (now + TRANSITION_MS) as u64 };
            let v1 = ElectionView {
                transition: if moving { Some(t) } else { v.transition },
                incumbent: e.who,
                terms_served: v.terms_served.insert(e.who, (v.terms(e.who) + 1) as u32),
                ..v
            };
            match advanced(v1) {
                None => Err((Some(call), Error::ArithmeticError)),
                Some(v2) => Ok((
                    ElectionView { maintainer_elect: None, phase: Phase::Idle, ..v2 },
                    call,
                    if moving { Some(TransitionStarted { from_netuid: t.from_netuid, to_netuid: t.to_netuid, ends_at: t.ends_at }) } else { None },
                    MaintainerActivated { cycle_id: v.cycle_id, new_maintainer: e.who, active_netuid: v.active_netuid },
                )),
            }
        }
    }
}

impl TusdtElection {
    /// Fails with `NotIncumbent` unless `caller` is the incumbent.
    fn ensure_incumbent(&self, caller: AccountId) -> (r: Result<(), Error>)
        ensures
            r is Ok <==> caller == self.incumbent,
            r matches Err(e) ==> e == Error::NotIncumbent,
    {
        if !(caller == self.incumbent) {
            return Err(Error::NotIncumbent);
        }
        Ok(())
    }

    /// An election deployed at `now` for `governance_address`, with `initial_incumbent` seated
    /// (counted as one served term) governing `initial_netuid`; the first election is one term
    /// later.
    pub fn new(governance_address: AccountId, initial_incumbent: AccountId, initial_netuid: u16, now: Timestamp) -> (e: TusdtElection)
        ensures
            term_limits_hold(e@),
            tally_holds(e@),
            e@ == (ElectionView {
                governance: governance_address,
                genesis_election_ts: now,
                term_index: 1,
                next_election_ts: (if now + TERM_LENGTH_MS > u64::MAX { u64::MAX as int } else { now + TERM_LENGTH_MS }) as u64,
                incumbent: initial_incumbent,
                active_netuid: initial_netuid,
                terms_served: Map::empty().insert(initial_incumbent, 1u32),
                phase: Phase::Idle,
                cycle_id: 0,
                candidates: Map::empty(),
                candidate_list: Seq::empty(),
                approvals: Map::empty(),
                participated: Seq::empty(),
                total_voting_power: 0,
                total_voted_balance: 0,
                leading_candidate: None,
                leading_weight: 0,
                election_snapshot: None,
                voting_opens_at: 0,
                voting_ends_at: 0,
                maintainer_elect: None,
                transition: None,
                emergency_pending: false,
            }),
    {
        let mut terms_served: HashMap<AccountId, u32> = HashMap::new();
        terms_served.insert(initial_incumbent, 1);
        TusdtElection {
            governance: governance_address,
            genesis_election_ts: now,
            term_index: 1,
            next_election_ts: now.saturating_add(TERM_LENGTH_MS),
            incumbent: initial_incumbent,
            active_netuid: initial_netuid,
            terms_served,
            phase: Phase::Idle,
            cycle_id: 0,
            candidates: HashMap::new(),
            candidate_list: Vec::new(),
            approvals: HashMap::new(),
            participated: Vec::new(),
            total_voting_power: 0,
            total_voted_balance: 0,
            leading_candidate: None,
            leading_weight: 0,
            election_snapshot: None,
            voting_opens_at: 0,
            voting_ends_at: 0,
            maintainer_elect: None,
            transition: None,
            emergency_pending: false,
        }
    }

    /// The governance contract.
    pub fn governance(&self) -> (r: AccountId)
        ensures
            r == self.governance,
    {
        self.governance
    }

    /// The alpha a candidate must hold.
    pub fn min_candidate_stake(&self) -> (r: u128)
        ensures
            r == MIN_CANDIDATE_STAKE,
    {
        MIN_CANDIDATE_STAKE
    }

    /// The seated maintainer.
    pub fn incumbent(&self) -> (r: AccountId)
        ensures
            r == self.incumbent,
    {
        self.incumbent
    }

    /// The governing subnet.
    pub fn active_netuid(&self) -> (r: u16)
        ensures
            r == self.active_netuid,
    {
        self.active_netuid
    }

    /// The current phase.
    pub fn phase(&self) -> (r: Phase)
        ensures
            r == self.phase,
    {
        self.phase
    }

    /// The current cycle.
    pub fn cycle_id(&self) -> (r: u64)
        ensures
            r == self.cycle_id,
    {
        self.cycle_id
    }

    /// The earliest time of the next election.
    pub fn next_election_ts(&self) -> (r: Timestamp)
        ensures
            r == self.next_election_ts,
    {
        self.next_election_ts
    }

    /// Terms served by `who`.
    pub fn terms_served(&self, who: AccountId) -> (r: u32)
        ensures
            r == self@.terms(who),
    {
        match self.terms_served.get(&who) {
            Some(t) => *t,
            None => 0,
        }
    }

    /// `candidate`'s candidacy in the current cycle.
    pub fn get_candidate(&self, candidate: AccountId) -> (r: Option<Candidacy>)
        ensures
            r == (if self@.is_candidate(candidate) { Some(self@.candidates[cycle_key(self.cycle_id, candidate)]) } else { None }),
    {
        match self.candidates.get(&cycle_key_of(self.cycle_id, candidate)) {
            Some(c) => Some(*c),
            None => None,
        }
    }

    /// The candidates of the current cycle in registration order.
    pub fn candidate_list(&self) -> (r: Vec<AccountId>)
        ensures
            r@ == self@.candidate_list,
    {
        let mut out: Vec<AccountId> = Vec::new();
        let mut i: usize = 0;
        while i < self.candidate_list.len()
            invariant
                i <= self.candidate_list.len(),
                out@ == self@.candidate_list.take(i as int),
            decreases self.candidate_list.len() - i,
        {
            out.push(self.candidate_list[i]);
            i = i + 1;
            assert(out@ =~= self@.candidate_list.take(i as int));
        }
        assert(self@.candidate_list.take(self.candidate_list.len() as int) =~= self@.candidate_list);
        out
    }

    /// `candidate`'s approval weight in the current cycle.
    pub fn approval_weight(&self, candidate: AccountId) -> (r: u128)
        ensures
            r == self@.approval(candidate),
    {
        match self.approvals.get(&cycle_key_of(self.cycle_id, candidate)) {
            Some(w) => *w,
            None => 0,
        }
    }

    /// The voting power of the leaves that have voted this cycle.
    pub fn total_participating_power(&self) -> (r: u128)
        ensures
            r == self.total_voting_power,
    {
        self.total_voting_power
    }

    /// The snapshot balance of the leaves that have voted this cycle.
    pub fn total_voted_balance(&self) -> (r: u128)
        ensures
            r == self.total_voted_balance,
    {
        self.total_voted_balance
    }

    /// The turnout quorum of the current cycle (saturating; 0 without a snapshot).
    pub fn quorum(&self) -> (r: u128)
        ensures
            ({
                let supply: int = match self.election_snapshot { Some(x) => x.circulating_supply as int, None => 0 };
                r == (if supply * QUORUM_BPS > u128::MAX { u128::MAX as int } else { supply * QUORUM_BPS }) / (BPS_DENOMINATOR as int)
            }),
    {
        match self.election_snapshot {
            Some(s) => {
                let prod = match s.circulating_supply.checked_mul(QUORUM_BPS as u128) {
                    Some(p) => p,
                    None => u128::MAX,
                };
                prod / (BPS_DENOMINATOR as u128)
            },
            None => 0,
        }
    }

    /// The running leader with its weight.
    pub fn leading_candidate(&self) -> (r: Option<(AccountId, u128)>)
        ensures
            r == (match self.leading_candidate { Some(c) => Some((c, self.leading_weight)), None => None }),
    {
        match self.leading_candidate {
            Some(c) => Some((c, self.leading_weight)),
            None => None,
        }
    }

    /// The recorded winner awaiting activation.
    pub fn maintainer_elect(&self) -> (r: Option<MaintainerElect>)
        ensures
            r == self.maintainer_elect,
    {
        self.maintainer_elect
    }

    /// The migration in flight.
    pub fn transition(&self) -> (r: Option<Transition>)
        ensures
            r == self.transition,
    {
        self.transition
    }

    /// Whether a migration is in flight.
    pub fn is_in_transition(&self) -> (r: bool)
        ensures
            r == self.transition is Some,
    {
        self.transition.is_some()
    }

    /// The voting window `(opens_at, ends_at)`.
    pub fn voting_window(&self) -> (r: (Timestamp, Timestamp))
        ensures
            r == (self.voting_opens_at, self.voting_ends_at),
    {
        (self.voting_opens_at, self.voting_ends_at)
    }

    fn advance_cadence(&mut self) -> (r: Result<(), Error>)
        ensures
            match advanced(old(self)@) {
                Some(v) => r is Ok && final(self)@ == v,
                None => r == Err::<(), Error>(Error::ArithmeticError) && final(self)@ == old(self)@,
            },
    {
        if self.term_index == u32::MAX {
            return Err(Error::ArithmeticError);
        }
        let ti = self.term_index + 1;
        let offset = match (ti as u64).checked_mul(TERM_LENGTH_MS) {
            Some(o) => o,
            None => return Err(Error::ArithmeticError),
        };
        let next = match self.genesis_election_ts.checked_add(offset) {
            Some(n) => n,
            None => return Err(Error::ArithmeticError),
        };
        self.term_index = ti;
        self.next_election_ts = next;
        Ok(())
    }

    /// Opens a new cycle at `now` with governance's latest `snapshot`, as [`schedule_spec`]
    /// states: once the cadence anchor is reached, or at once after an emergency was flagged.
    pub fn schedule_election(&mut self, now: u64, snapshot: Option<ElectionSnapshot>) -> (r: Result<ElectionScheduled, Error>)
        ensures
            term_limits_hold(old(self)@) ==> term_limits_hold(final(self)@),
            tally_holds(old(self)@) ==> tally_holds(final(self)@),
            match schedule_spec(old(self)@, now, snapshot) {
                Ok((v, ev)) => r == Ok::<ElectionScheduled, Error>(ev) && final(self)@ == v,
                Err(e) => r == Err::<ElectionScheduled, Error>(e) && final(self)@ == old(self)@,
            },
    {
        if self.phase != Phase::Idle {
            return Err(Error::WrongPhase);
        }
        let emergency = self.emergency_pending;
        if !emergency && now < self.next_election_ts {
            return Err(Error::NotElectionTime);
        }
        if snapshot.is_none() {
            return Err(Error::NoSnapshot);
        }
        if self.cycle_id == u64::MAX {
            return Err(Error::ArithmeticError);
        }
        self.cycle_id = self.cycle_id + 1;
        self.candidate_list = Vec::new();
        self.total_voting_power = 0;
        self.total_voted_balance = 0;
        self.leading_candidate = None;
        self.leading_weight = 0;
        self.maintainer_elect = None;
        self.voting_opens_at = 0;
        self.voting_ends_at = 0;
        self.emergency_pending = false;
        self.election_snapshot = snapshot;
        self.phase = Phase::Registration;
        proof {
            if term_limits_hold(old(self)@) {
                lemma_limits_schedule(old(self)@, self@);
            }
            if tally_holds(old(self)@) {
                lemma_tally_schedule(old(self)@, self@);
            }
        }
        Ok(ElectionScheduled { cycle_id: self.cycle_id, emergency, scheduled_at: now })
    }

    /// Registers `caller` as a candidate governing `netuid` at `now`, given the chain's stake
    /// record of (`hotkey`, caller) on `netuid`: it must hold at least [`MIN_CANDIDATE_STAKE`]
    /// and have served fewer than [`MAX_TERMS`] terms.
    pub fn register_candidate(&mut self, caller: AccountId, now: u64, netuid: u16, hotkey: AccountId, stake: CandidateStake) -> (r: Result<CandidateRegistered, Error>)
        ensures
            term_limits_hold(old(self)@) ==> term_limits_hold(final(self)@),
            tally_holds(old(self)@) ==> tally_holds(final(self)@),
            ({
                let v = old(self)@;
                if v.phase != Phase::Registration {
                    r == Err::<CandidateRegistered, Error>(Error::WrongPhase) && final(self)@ == v
                } else if netuid == 0 {
                    r == Err::<CandidateRegistered, Error>(Error::InvalidNetuid) && final(self)@ == v
                } else if v.terms(caller) >= MAX_TERMS {
                    r == Err::<CandidateRegistered, Error>(Error::TermLimitReached) && final(self)@ == v
                } else if v.is_candidate(caller) {
                    r == Err::<CandidateRegistered, Error>(Error::AlreadyRegistered) && final(self)@ == v
                } else if stake == CandidateStake::QueryFailed {
                    r == Err::<CandidateRegistered, Error>(Error::StakeQueryFailed) && final(self)@ == v
                } else if stake == CandidateStake::NotFound {
                    r == Err::<CandidateRegistered, Error>(Error::NoStake) && final(self)@ == v
                } else if stake->Stake_0 < MIN_CANDIDATE_STAKE {
                    r == Err::<CandidateRegistered, Error>(Error::InsufficientStake) && final(self)@ == v
                } else {
                    r == Ok::<CandidateRegistered, Error>(CandidateRegistered { cycle_id: v.cycle_id, candidate: caller, netuid })
                        && final(self)@ == (ElectionView {
                            candidates: v.candidates.insert(cycle_key(v.cycle_id, caller), Candidacy { netuid, registered_at: now }),
                            candidate_list: v.candidate_list.push(caller),
                            ..v
                        })
                }
            }),
    {
        if self.phase != Phase::Registration {
            return Err(Error::WrongPhase);
        }
        if netuid == 0 {
            return Err(Error::InvalidNetuid);
        }
        if self.terms_served(caller) >= MAX_TERMS {
            return Err(Error::TermLimitReached);
        }
        let k = cycle_key_of(self.cycle_id, caller);
        if self.candidates.get(&k).is_some() {
            return Err(Error::AlreadyRegistered);
        }
        let amount = match stake {
            CandidateStake::QueryFailed => return Err(Error::StakeQueryFailed),
            CandidateStake::NotFound => return Err(Error::NoStake),
            CandidateStake::Stake(a) => a,
        };
        if amount < MIN_CANDIDATE_STAKE {
            return Err(Error::InsufficientStake);
        }
        self.candidates.insert(k, Candidacy { netuid, registered_at: now });
        self.candidate_list.push(caller);
        proof {
            if term_limits_hold(old(self)@) {
                lemma_limits_register(old(self)@, self@, caller, Candidacy { netuid, registered_at: now });
            }
            if tally_holds(old(self)@) {
                lemma_tally_register(old(self)@, self@, caller, Candidacy { netuid, registered_at: now });
            }
        }
        Ok(CandidateRegistered { cycle_id: self.cycle_id, candidate: caller, netuid })
    }

    /// Casts leaf (`caller`, `hotkey`)'s single vote for `candidate` at `now`, as
    /// [`approval_spec`] states; `proof_valid` says whether the leaf's Merkle proof of
    /// (`caller`, `hotkey`, `balance`, `multiplier_bps`) matches the cycle's snapshot root. The
    /// first vote (on the 5th to the 9th) opens voting until the 10th.
    ///
    /// `proof_valid` is a trusted input: this function does not hash the leaf nor walk the
    /// proof, so nothing here ties `balance` and `multiplier_bps` to the snapshot root; the
    /// caller must compute it with the snapshot's leaf hash and Merkle verification.
    pub fn cast_approval(
        &mut self,
        caller: AccountId,
        now: u64,
        candidate: AccountId,
        hotkey: AccountId,
        balance: u128,
        multiplier_bps: u32,
        proof_valid: bool,
    ) -> (r: Result<ApprovalCast, Error>)
        ensures
            term_limits_hold(old(self)@) ==> term_limits_hold(final(self)@),
            tally_holds(old(self)@) ==> tally_holds(final(self)@),
            match approval_spec(old(self)@, caller, now, candidate, hotkey, balance, multiplier_bps, proof_valid) {
                Ok((v, ev)) => r == Ok::<ApprovalCast, Error>(ev) && final(self)@ == v,
                Err(e) => r == Err::<ApprovalCast, Error>(e) && final(self)@ == old(self)@,
            },
    {
        let mut opens = self.voting_opens_at;
        let mut ends = self.voting_ends_at;
        let mut phase = self.phase;
        match self.phase {
            Phase::Registration => {
                let day = day_of_month(now);
                if !(VOTE_OPEN_DAY <= day && day < VOTE_CLOSE_DAY) {
                    return Err(Error::NotElectionTime);
                }
                let start_of_today = now / MS_PER_DAY * MS_PER_DAY;
                let days_until_close = (VOTE_CLOSE_DAY - day) as u64;
                let span = days_until_close * MS_PER_DAY;
                ends = match start_of_today.checked_add(span) {
                    Some(e) => e,
                    None => return Err(Error::ArithmeticError),
                };
                opens = now;
                phase = Phase::Voting;
            },
            Phase::Voting => {
                if now >= self.voting_ends_at {
                    return Err(Error::VotingClosed);
                }
            },
            _ => return Err(Error::WrongPhase),
        }
        let ck = cycle_key_of(self.cycle_id, candidate);
        if self.candidates.get(&ck).is_none() {
            return Err(Error::CandidateNotFound);
        }
        let vote = (self.cycle_id, caller, hotkey);
        if contains_triple(&self.participated, vote) {
            return Err(Error::AlreadyApproved);
        }
        if self.election_snapshot.is_none() {
            return Err(Error::NoSnapshot);
        }
        if !proof_valid {
            return Err(Error::InvalidProof);
        }
        let weight = match voting_power(balance, multiplier_bps) {
            Some(w) => w,
            None => return Err(Error::ArithmeticError),
        };
        if weight == 0 {
            return Err(Error::NoStake);
        }
        let current = self.approval_weight(candidate);
        let updated = match current.checked_add(weight) {
            Some(u) => u,
            None => return Err(Error::ArithmeticError),
        };
        let total_power = match self.total_voting_power.checked_add(weight) {
            Some(t) => t,
            None => return Err(Error::ArithmeticError),
        };
        let total_balance = match self.total_voted_balance.checked_add(balance) {
            Some(t) => t,
            None => return Err(Error::ArithmeticError),
        };
        self.voting_opens_at = opens;
        self.voting_ends_at = ends;
        self.phase = phase;
        self.approvals.insert(ck, updated);
        if updated > self.leading_weight {
            self.leading_weight = updated;
            self.leading_candidate = Some(candidate);
        }
        self.participated.push(vote);
        self.total_voting_power = total_power;
        self.total_voted_balance = total_balance;
        proof {
            if term_limits_hold(old(self)@) {
                lemma_limits_carry(old(self)@, self@);
            }
            if tally_holds(old(self)@) {
                law_tally_follows_approvals(old(self)@, caller, now, candidate, hotkey, balance, multiplier_bps, proof_valid);
            }
        }
        Ok(ApprovalCast { cycle_id: self.cycle_id, candidate, coldkey: caller, weight })
    }

    /// Closes the vote at `now`, as [`finalize_spec`] states.
    pub fn finalize(&mut self, now: u64) -> (r: Result<ElectionFinalized, Error>)
        ensures
            term_limits_hold(old(self)@) ==> term_limits_hold(final(self)@),
            tally_holds(old(self)@) ==> tally_holds(final(self)@),
            match finalize_spec(old(self)@, now) {
                Ok((v, ev)) => r == Ok::<ElectionFinalized, Error>(ev) && final(self)@ == v,
                Err(e) => r == Err::<ElectionFinalized, Error>(e) && final(self)@ == old(self)@,
            },
    {
        if self.phase != Phase::Voting {
            return Err(Error::WrongPhase);
        }
        if now < self.voting_ends_at {
            return Err(Error::VotingStillOpen);
        }
        let best = self.leading_weight;
        let supply: u128 = match self.election_snapshot {
            Some(s) => s.circulating_supply,
            None => 0,
        };
        let quorum = match supply.checked_mul(QUORUM_BPS as u128) {
            Some(x) => x / (BPS_DENOMINATOR as u128),
            None => return Err(Error::ArithmeticError),
        };
        let lhs = match best.checked_mul(BPS_DENOMINATOR as u128) {
            Some(x) => x,
            None => return Err(Error::ArithmeticError),
        };
        let rhs = match self.total_voting_power.checked_mul(APPROVAL_THRESHOLD_BPS as u128) {
            Some(x) => x,
            None => return Err(Error::ArithmeticError),
        };
        let has_winner = self.total_voted_balance >= quorum && best > 0 && lhs > rhs;
        if has_winner {
            let who = match self.leading_candidate {
                Some(w) => w,
                None => return Err(Error::NoWinner),
            };
            let c = match self.candidates.get(&cycle_key_of(self.cycle_id, who)) {
                Some(c) => *c,
                None => return Err(Error::CandidateNotFound),
            };
            self.maintainer_elect = Some(MaintainerElect { who, netuid: c.netuid, approval_weight: best, decided_at: now });
            self.phase = Phase::Elected;
            proof {
                if term_limits_hold(old(self)@) {
                    lemma_limits_win(old(self)@, self@);
                }
                if tally_holds(old(self)@) {
                    lemma_tally_close(old(self)@, self@);
                }
            }
            Ok(ElectionFinalized { cycle_id: self.cycle_id, winner: Some(who), netuid: c.netuid, approval_weight: best, total_voting_power: self.total_voting_power })
        } else {
            let saved_elect = self.maintainer_elect;
            let saved_phase = self.phase;
            self.maintainer_elect = None;
            self.phase = Phase::Idle;
            match self.advance_cadence() {
                Ok(()) => {},
                Err(e) => {
                    self.maintainer_elect = saved_elect;
                    self.phase = saved_phase;
                    return Err(e);
                },
            }
            proof {
                if term_limits_hold(old(self)@) {
                    lemma_limits_carry(old(self)@, self@);
                }
                if tally_holds(old(self)@) {
                    lemma_tally_close(old(self)@, self@);
                }
            }
            Ok(ElectionFinalized { cycle_id: self.cycle_id, winner: None, netuid: 0, approval_weight: best, total_voting_power: self.total_voting_power })
        }
    }

    /// Installs the elected maintainer at `now`, as [`activate_spec`] states; returns the
    /// governance call that installs it, and the events.
    pub fn activate(&mut self, now: u64) -> (r: Result<(GovernanceCall, Option<TransitionStarted>, MaintainerActivated), CallFailure>)
        ensures
            term_limits_hold(old(self)@) ==> term_limits_hold(final(self)@),
            tally_holds(old(self)@) ==> tally_holds(final(self)@),
            match activate_spec(old(self)@, now) {
                Ok((v, call, t, ev)) => r == Ok::<(GovernanceCall, Option<TransitionStarted>, MaintainerActivated), CallFailure>((call, t, ev)) && final(self)@ == v,
                Err(f) => r == Err::<(GovernanceCall, Option<TransitionStarted>, MaintainerActivated), CallFailure>(f) && final(self)@ == old(self)@,
            },
    {
        if self.phase != Phase::Elected {
            return Err((None, Error::WrongPhase));
        }
        let e = match self.maintainer_elect {
            Some(e) => e,
            None => return Err((None, Error::NoWinner)),
        };
        if now < self.voting_ends_at {
            return Err((None, Error::VotingStillOpen));
        }
        if day_of_month(now) < ACTIVATION_DAY {
            return Err((None, Error::BeforeActivationDay));
        }
        let call = GovernanceCall::ElectMaintainer(e.who);
        let moving = e.netuid != self.active_netuid;
        let ends_at: u64 = if moving {
            match now.checked_add(TRANSITION_MS) {
                Some(t) => t,
                None => return Err((Some(call), Error::ArithmeticError)),
            }
        } else {
            0
        };
        let served = self.terms_served(e.who);
        if served == u32::MAX {
            return Err((Some(call), Error::ArithmeticError));
        }
        if self.term_index == u32::MAX {
            return Err((Some(call), Error::ArithmeticError));
        }
        let ti = self.term_index + 1;
        let offset = match (ti as u64).checked_mul(TERM_LENGTH_MS) {
            Some(o) => o,
            None => return Err((Some(call), Error::ArithmeticError)),
        };
        let next = match self.genesis_election_ts.checked_add(offset) {
            Some(n) => n,
            None => return Err((Some(call), Error::ArithmeticError)),
        };
        let from = self.active_netuid;
        let started = if moving {
            let t = Transition { from_netuid: from, to_netuid: e.netuid, ends_at };
            self.transition = Some(t);
            Some(TransitionStarted { from_netuid: from, to_netuid: e.netuid, ends_at })
        } else {
            None
        };
        self.incumbent = e.who;
        self.terms_served.insert(e.who, served + 1);
        self.term_index = ti;
        self.next_election_ts = next;
        self.maintainer_elect = None;
        self.phase = Phase::Idle;
        proof {
            if term_limits_hold(old(self)@) {
                lemma_limits_seat(old(self)@, self@);
            }
            if tally_holds(old(self)@) {
                lemma_tally_close(old(self)@, self@);
            }
        }
        Ok((call, started, MaintainerActivated { cycle_id: self.cycle_id, new_maintainer: e.who, active_netuid: self.active_netuid }))
    }

    /// Completes a migration once it has run its course (at `now`): the governing subnet
    /// switches, and the returned governance call pushes the switch into governance.
    pub fn end_transition(&mut self, now: u64) -> (r: Result<(GovernanceCall, TransitionEnded), Error>)
        ensures
            term_limits_hold(old(self)@) ==> term_limits_hold(final(self)@),
            tally_holds(old(self)@) ==> tally_holds(final(self)@),
            old(self).transition is None ==> r == Err::<(GovernanceCall, TransitionEnded), Error>(Error::NoTransition) && final(self)@ == old(self)@,
            old(self).transition is Some && now < old(self).transition->Some_0.ends_at
                ==> r == Err::<(GovernanceCall, TransitionEnded), Error>(Error::TransitionActive) && final(self)@ == old(self)@,
            old(self).transition is Some && now >= old(self).transition->Some_0.ends_at ==> {
                let to = old(self).transition->Some_0.to_netuid;
                r == Ok::<(GovernanceCall, TransitionEnded), Error>((GovernanceCall::SetNetuid(to), TransitionEnded { netuid: to }))
                    && final(self)@ == (ElectionView { active_netuid: to, transition: None, ..old(self)@ })
            },
    {
        let t = match self.transition {
            Some(t) => t,
            None => return Err(Error::NoTransition),
        };
        if now < t.ends_at {
            return Err(Error::TransitionActive);
        }
        self.active_netuid = t.to_netuid;
        self.transition = None;
        proof {
            if term_limits_hold(old(self)@) {
                lemma_limits_carry(old(self)@, self@);
            }
            if tally_holds(old(self)@) {
                lemma_tally_carry(old(self)@, self@);
            }
        }
        Ok((GovernanceCall::SetNetuid(t.to_netuid), TransitionEnded { netuid: t.to_netuid }))
    }

    /// Flags an emergency election; the next scheduling may then run at once. Incumbent only,
    /// while idle.
    pub fn trigger_emergency_election(&mut self, caller: AccountId) -> (r: Result<EmergencyElectionTriggered, Error>)
        ensures
            term_limits_hold(old(self)@) ==> term_limits_hold(final(self)@),
            tally_holds(old(self)@) ==> tally_holds(final(self)@),
            caller != old(self).incumbent ==> r == Err::<EmergencyElectionTriggered, Error>(Error::NotIncumbent) && final(self)@ == old(self)@,
            caller == old(self).incumbent && old(self).phase != Phase::Idle ==> r == Err::<EmergencyElectionTriggered, Error>(Error::WrongPhase) && final(self)@ == old(self)@,
            caller == old(self).incumbent && old(self).phase == Phase::Idle ==> r == Ok::<EmergencyElectionTriggered, Error>(EmergencyElectionTriggered { triggered_by: caller })
                && final(self)@ == (ElectionView { emergency_pending: true, ..old(self)@ }),
    {
        match self.ensure_incumbent(caller) {
            Ok(()) => {},
            Err(e) => return Err(e),
        }
        if self.phase != Phase::Idle {
            return Err(Error::WrongPhase);
        }
        self.emergency_pending = true;
        proof {
            if term_limits_hold(old(self)@) {
                lemma_limits_carry(old(self)@, self@);
            }
            if tally_holds(old(self)@) {
                lemma_tally_carry(old(self)@, self@);
            }
        }
        Ok(EmergencyElectionTriggered { triggered_by: caller })
    }

    /// Cancels a stalled registration and returns to idle. Incumbent only, during registration.
    pub fn cancel_cycle(&mut self, caller: AccountId) -> (r: Result<(), Error>)
        ensures
            term_limits_hold(old(self)@) ==> term_limits_hold(final(self)@),
            tally_holds(old(self)@) ==> tally_holds(final(self)@),
            caller != old(self).incumbent ==> r == Err::<(), Error>(Error::NotIncumbent) && final(self)@ == old(self)@,
            caller == old(self).incumbent && old(self).phase != Phase::Registration ==> r == Err::<(), Error>(Error::WrongPhase) && final(self)@ == old(self)@,
            caller == old(self).incumbent && old(self).phase == Phase::Registration ==> r is Ok && final(self)@ == (ElectionView {
                election_snapshot: None,
                candidate_list: Seq::empty(),
                total_voting_power: 0,
                total_voted_balance: 0,
                leading_candidate: None,
                leading_weight: 0,
                voting_opens_at: 0,
                voting_ends_at: 0,
                phase: Phase::Idle,
                ..old(self)@
            }),
    {
        match self.ensure_incumbent(caller) {
            Ok(()) => {},
            Err(e) => return Err(e),
        }
        if self.phase != Phase::Registration {
            return Err(Error::WrongPhase);
        }
        self.election_snapshot = None;
        self.candidate_list = Vec::new();
        self.total_voting_power = 0;
        self.total_voted_balance = 0;
        self.leading_candidate = None;
        self.leading_weight = 0;
        self.voting_opens_at = 0;
        self.voting_ends_at = 0;
        self.phase = Phase::Idle;
        proof {
            if term_limits_hold(old(self)@) {
                lemma_limits_carry(old(self)@, self@);
            }
            if tally_holds(old(self)@) {
                lemma_tally_close(old(self)@, self@);
            }
        }
        Ok(())
    }
}

/// Each (coldkey, hotkey) leaf approves at most once per cycle: after an approval counts, any
/// further approval by the same leaf in the cycle is refused, with `AlreadyApproved` for a
/// registered candidate while voting is open. The leader's weight never falls below the
/// weight just cast for the chosen candidate nor below the previous leading weight.
pub proof fn law_one_approval_per_leaf(
    v: ElectionView,
    coldkey: AccountId,
    now: u64,
    candidate: AccountId,
    hotkey: AccountId,
    balance: u128,
    multiplier_bps: u32,
    proof_valid: bool,
    now2: u64,
    candidate2: AccountId,
    balance2: u128,
    multiplier_bps2: u32,
    proof_valid2: bool,
)
    requires
        approval_spec(v, coldkey, now, candidate, hotkey, balance, multiplier_bps, proof_valid) is Ok,
    ensures
        ({
            let v2 = approval_spec(v, coldkey, now, candidate, hotkey, balance, multiplier_bps, proof_valid)->Ok_0.0;
            let again = approval_spec(v2, coldkey, now2, candidate2, hotkey, balance2, multiplier_bps2, proof_valid2);
            &&& again is Err
            &&& now2 < v2.voting_ends_at && v2.is_candidate(candidate2) ==> again == Err::<(ElectionView, ApprovalCast), Error>(Error::AlreadyApproved)
            &&& v2.leading_weight >= v2.approval(candidate)
            &&& v2.leading_weight >= v.leading_weight
        }),
{
    let v2 = approval_spec(v, coldkey, now, candidate, hotkey, balance, multiplier_bps, proof_valid)->Ok_0.0;
    assert(v2.participated.contains((v2.cycle_id, coldkey, hotkey))) by {
        assert(v2.participated[v2.participated.len() - 1] == (v2.cycle_id, coldkey, hotkey));
    }
    assert(v2.phase == Phase::Voting);
    let again = approval_spec(v2, coldkey, now2, candidate2, hotkey, balance2, multiplier_bps2, proof_valid2);
    assert(again is Err);
    let v1 = if v.phase == Phase::Registration {
        ElectionView { voting_opens_at: now, voting_ends_at: window_end(now) as u64, phase: Phase::Voting, ..v }
    } else {
        v
    };
    let updated = v1.approval(candidate) + voting_power_spec(balance, multiplier_bps);
    crate::voting::lemma_voting_power_range(balance, multiplier_bps);
    assert(v2.cycle_id == v1.cycle_id);
    assert(v2.approvals == v1.approvals.insert(cycle_key(v1.cycle_id, candidate), updated as u128));
    assert(updated <= u128::MAX);
    assert(v2.approvals.contains_key(cycle_key(v2.cycle_id, candidate)));
    assert(v2.approvals[cycle_key(v2.cycle_id, candidate)] == updated as u128);
    assert((updated as u128) as int == updated);
    assert(v2.approval(candidate) == updated);
    assert(v2.leading_weight >= v2.approval(candidate));
    assert(v2.leading_weight >= v.leading_weight);
}


/// A counted approval keeps the tally: the candidate's approval and the participating power
/// both grow by the vote's weight, the voted balance grows by the voter's balance, the
/// approvals still add up to the participating power, and the leader holds the highest
/// approval, the earlier leader staying on a tie. With the empty tally a cycle opens with, the
/// participating power is the sum of the approvals and the voted balance the sum of the
/// counted voters' balances.
pub proof fn law_tally_follows_approvals(
    v: ElectionView,
    coldkey: AccountId,
    now: u64,
    candidate: AccountId,
    hotkey: AccountId,
    balance: u128,
    multiplier_bps: u32,
    proof_valid: bool,
)
    requires
        tally_holds(v),
        approval_spec(v, coldkey, now, candidate, hotkey, balance, multiplier_bps, proof_valid) is Ok,
    ensures
        ({
            let (w, ev) = approval_spec(v, coldkey, now, candidate, hotkey, balance, multiplier_bps, proof_valid)->Ok_0;
            &&& tally_holds(w)
            &&& open_tally_holds(w)
            &&& w.approval(candidate) == v.approval(candidate) + ev.weight
            &&& forall|c: AccountId| c != candidate ==> #[trigger] w.approval(c) == v.approval(c)
            &&& w.total_voting_power == v.total_voting_power + ev.weight
            &&& w.total_voted_balance == v.total_voted_balance + balance
            &&& approval_sum(w.approvals, w.cycle_id, w.candidate_list) == w.total_voting_power
            &&& w.leading_candidate is Some
            &&& w.approval(w.leading_candidate->Some_0) == w.leading_weight
            &&& forall|c: AccountId| w.candidate_list.contains(c) ==> #[trigger] w.approval(c) <= w.leading_weight
            &&& w.approval(candidate) <= v.leading_weight ==> w.leading_candidate == v.leading_candidate
        }),
{
    let (w, ev) = approval_spec(v, coldkey, now, candidate, hotkey, balance, multiplier_bps, proof_valid)->Ok_0;
    let v1 = if v.phase == Phase::Registration {
        ElectionView { voting_opens_at: now, voting_ends_at: window_end(now) as u64, phase: Phase::Voting, ..v }
    } else {
        v
    };
    let weight = voting_power_spec(balance, multiplier_bps);
    let updated = v1.approval(candidate) + weight;
    crate::voting::lemma_voting_power_range(balance, multiplier_bps);
    assert(open_tally_holds(v));
    assert(w.approvals == v.approvals.insert(cycle_key(v.cycle_id, candidate), updated as u128));
    assert(w.approval(candidate) == updated);
    assert forall|c: AccountId| c != candidate implies #[trigger] w.approval(c) == v.approval(c) by {
        lemma_cycle_key_injective(v.cycle_id, c, v.cycle_id, candidate);
    }
    assert forall|c: AccountId| c != candidate implies #[trigger] approval_in(w.approvals, v.cycle_id, c) == approval_in(v.approvals, v.cycle_id, c) by {
        assert(w.approval(c) == v.approval(c));
    }
    assert(v.is_candidate(candidate));
    assert(v.candidate_list.contains(candidate));
    lemma_sum_bump(v.approvals, w.approvals, v.cycle_id, v.candidate_list, candidate, weight);
    assert forall|c: u64, who: AccountId| c > w.cycle_id implies !(#[trigger] w.approvals.contains_key(cycle_key(c, who))) by {
        lemma_cycle_key_injective(c, who, v.cycle_id, candidate);
        assert(!v.approvals.contains_key(cycle_key(c, who)));
    }
    assert forall|c: u64, who: AccountId| c > w.cycle_id implies !(#[trigger] w.candidates.contains_key(cycle_key(c, who))) by {
        assert(!v.candidates.contains_key(cycle_key(c, who)));
    }
    assert forall|c: AccountId| #[trigger] w.is_candidate(c) <==> w.candidate_list.contains(c) by {
        assert(v.is_candidate(c) <==> v.candidate_list.contains(c));
    }
    assert forall|c: AccountId| !w.candidate_list.contains(c) implies #[trigger] w.approval(c) == 0 by {
        assert(v.approval(c) == 0);
    }
    assert forall|c: AccountId| w.candidate_list.contains(c) implies #[trigger] w.approval(c) <= w.leading_weight by {
        if c != candidate {
            assert(v.approval(c) <= v.leading_weight);
        }
    }
    match v.leading_candidate {
        None => {},
        Some(l) => {
            assert(v.approval(l) == v.leading_weight);
        },
    }
}

/// A ballot of a voting leaf: (coldkey, time, candidate, hotkey, balance, multiplier in basis
/// points, whether its Merkle proof matched).
pub type Ballot = (AccountId, u64, AccountId, AccountId, u128, u32, bool);

/// The state after counting `bs` in order from `v`, or `None` when one of them is refused.
pub open spec fn after_ballots(v: ElectionView, bs: Seq<Ballot>) -> Option<ElectionView>
    decreases bs.len(),
{
    if bs.len() == 0 {
        Some(v)
    } else {
        match after_ballots(v, bs.drop_last()) {
            None => None,
            Some(w) => {
                let b = bs.last();
                match approval_spec(w, b.0, b.1, b.2, b.3, b.4, b.5, b.6) {
                    Ok((w2, _)) => Some(w2),
                    Err(_) => None,
                }
            },
        }
    }
}

/// The sum of the balances of `bs`.
pub open spec fn ballot_balance_sum(bs: Seq<Ballot>) -> int
    decreases bs.len(),
{
    if bs.len() == 0 { 0 } else { ballot_balance_sum(bs.drop_last()) + bs.last().4 }
}

/// Opening a cycle starts an empty tally: no listed candidate, no participating power, no
/// voted balance and no leader, and the tally holds.
pub proof fn law_cycle_opens_with_empty_tally(v: ElectionView, now: u64, snapshot: Option<ElectionSnapshot>)
    requires
        tally_holds(v),
        schedule_spec(v, now, snapshot) is Ok,
    ensures
        ({
            let w = schedule_spec(v, now, snapshot)->Ok_0.0;
            &&& tally_holds(w)
            &&& open_tally_holds(w)
            &&& w.candidate_list.len() == 0
            &&& w.total_voting_power == 0
            &&& w.total_voted_balance == 0
            &&& w.leading_candidate is None
        }),
{
    lemma_tally_schedule(v, schedule_spec(v, now, snapshot)->Ok_0.0);
}

/// Counting any sequence of ballots in an open cycle keeps the tally: the approvals add up to
/// the participating power, the voted balance grows by the sum of the ballots' balances (so,
/// from the empty tally a cycle opens with, it is that sum), and the leader holds the highest
/// approval, none being recorded before the first counted ballot.
pub proof fn law_tally_over_ballots(v: ElectionView, bs: Seq<Ballot>)
    requires
        tally_holds(v),
        v.phase == Phase::Registration || v.phase == Phase::Voting,
        after_ballots(v, bs) is Some,
    ensures
        ({
            let w = after_ballots(v, bs)->Some_0;
            &&& tally_holds(w)
            &&& open_tally_holds(w)
            &&& approval_sum(w.approvals, w.cycle_id, w.candidate_list) == w.total_voting_power
            &&& w.total_voted_balance == v.total_voted_balance + ballot_balance_sum(bs)
            &&& w.candidate_list == v.candidate_list
            &&& (bs.len() == 0 ==> w == v)
            &&& (bs.len() > 0 ==> w.leading_candidate is Some && w.approval(w.leading_candidate->Some_0) == w.leading_weight)
            &&& forall|c: AccountId| w.candidate_list.contains(c) ==> #[trigger] w.approval(c) <= w.leading_weight
        }),
    decreases bs.len(),
{
    if bs.len() > 0 {
        let init = bs.drop_last();
        law_tally_over_ballots(v, init);
        let u = after_ballots(v, init)->Some_0;
        let b = bs.last();
        law_tally_follows_approvals(u, b.0, b.1, b.2, b.3, b.4, b.5, b.6);
    }
}

} // verus!

//! Protocol governance: a maintainer (installed by the election) seats a five-member council;
//! the council commits electorate snapshots and submits proposals in a monthly window; snapshot
//! holders vote with quadratic time-staked power; passed funding proposals release treasury
//! funds.
//!
//! Whether a voter's Merkle proof matches the snapshot root is handed in by the host. Calls
//! forwarded into the vault, oracle, auction and pool are admitted in [`crate::forward`] and made
//! by the host. A failed message leaves governance unchanged.

use vstd::prelude::*;
use std::collections::HashMap;
use crate::types::{AccountId, Balance, BPS_DENOMINATOR, Timestamp};
use crate::treasury::{Fund, TokenKind};
use crate::voting::{MerkleHash, calendar_day, day_of_month, voting_power, voting_power_spec};
use crate::election::contains_triple;

verus! {

broadcast use vstd::std_specs::hash::group_hash_axioms;

/// Longest proposal document id (bytes).
pub const MAX_CID_LEN: usize = 96;

/// Members of the council.
pub const COUNCIL_SIZE: usize = 5;

/// The governing subnet at deployment.
pub const DEFAULT_NETUID: u16 = 113;

/// Default voting period (7 days).
pub const DEFAULT_VOTING_PERIOD_MS: u64 = 604_800_000;

/// Default approval bar (50.01%).
pub const DEFAULT_APPROVAL_BPS: u32 = 5_001;

/// Default quorum (20% of the circulating supply).
pub const DEFAULT_QUORUM_BPS: u32 = 2_000;

/// Default proposer stake (kept for compatibility).
pub const DEFAULT_MIN_PROPOSER_STAKE: u128 = 1_000_000_000_000;

/// Default first day of the submission window.
pub const DEFAULT_SUBMISSION_OPEN_DAY: u8 = 20;

/// Default last day of the submission window.
pub const DEFAULT_SUBMISSION_CLOSE_DAY: u8 = 27;

/// Tunable governance parameters.
#[derive(Debug, Clone, Copy, PartialEq, Eq, Structural)]
pub struct GovernanceParams {
    pub voting_period_ms: u64,
    pub quorum_bps: u32,
    pub approval_bps: u32,
    pub min_proposer_stake: u128,
    pub submission_open_day: u8,
    pub submission_close_day: u8,
}

impl GovernanceParams {
    /// The default parameters.
    pub fn default_params() -> (p: GovernanceParams)
        ensures
            p == (GovernanceParams {
                voting_period_ms: DEFAULT_VOTING_PERIOD_MS,
                quorum_bps: DEFAULT_QUORUM_BPS,
                approval_bps: DEFAULT_APPROVAL_BPS,
                min_proposer_stake: DEFAULT_MIN_PROPOSER_STAKE,
                submission_open_day: DEFAULT_SUBMISSION_OPEN_DAY,
                submission_close_day: DEFAULT_SUBMISSION_CLOSE_DAY,
            }),
    {
        GovernanceParams {
            voting_period_ms: DEFAULT_VOTING_PERIOD_MS,
            quorum_bps: DEFAULT_QUORUM_BPS,
            approval_bps: DEFAULT_APPROVAL_BPS,
            min_proposer_stake: DEFAULT_MIN_PROPOSER_STAKE,
            submission_open_day: DEFAULT_SUBMISSION_OPEN_DAY,
            submission_close_day: DEFAULT_SUBMISSION_CLOSE_DAY,
        }
    }
}

/// What a proposal does when executed.
#[derive(Debug, Clone, Copy, PartialEq, Eq, Structural)]
pub enum ProposalKind {
    /// Release `amount` of `token_kind` from `fund` to `recipient`.
    Funding { fund: Fund, token_kind: TokenKind, amount: Balance, recipient: AccountId },
    /// A signal only.
    NonFunding,
}

/// Lifecycle stage of a proposal.
#[derive(Debug, Clone, Copy, PartialEq, Eq, Structural)]
pub enum ProposalStatus {
    Active,
    Passed,
    Rejected,
    Executed,
}

/// A proposal.
#[derive(Debug, Clone, PartialEq, Eq)]
pub struct Proposal {
    pub id: u64,
    pub proposer: AccountId,
    pub cid: String,
    pub kind: ProposalKind,
    pub created_at: Timestamp,
    pub voting_ends_at: Timestamp,
    pub snapshot_epoch: u64,
    pub yes: u128,
    pub no: u128,
    pub voted_balance: u128,
    pub status: ProposalStatus,
}

/// A committed electorate snapshot.
#[derive(Debug, Clone, Copy, PartialEq, Eq)]
pub struct Snapshot {
    pub root: MerkleHash,
    pub circulating_supply: u128,
    pub snapshot_block: u32,
}

/// Emitted when a proposal is submitted.
#[derive(Debug, Clone, Copy, PartialEq, Eq, Structural)]
pub struct ProposalSubmitted {
    pub proposal_id: u64,
    pub proposer: AccountId,
    pub voting_ends_at: Timestamp,
}

/// Emitted when a leaf votes.
#[derive(Debug, Clone, Copy, PartialEq, Eq, Structural)]
pub struct Voted {
    pub proposal_id: u64,
    pub coldkey: AccountId,
    pub hotkey: AccountId,
    pub support: bool,
    pub weight: u128,
}

/// Emitted when a proposal is finalized.
#[derive(Debug, Clone, Copy, PartialEq, Eq, Structural)]
pub struct ProposalFinalized {
    pub proposal_id: u64,
    pub status: ProposalStatus,
    pub yes: u128,
    pub no: u128,
}

/// Emitted when a proposal is executed.
#[derive(Debug, Clone, Copy, PartialEq, Eq, Structural)]
pub struct ProposalExecuted {
    pub proposal_id: u64,
}

/// Emitted when the maintainer changes.
#[derive(Debug, Clone, Copy, PartialEq, Eq, Structural)]
pub struct MaintainerChanged {
    pub previous: AccountId,
    pub new: AccountId,
}

/// Emitted when the council is seated.
#[derive(Debug, Clone, PartialEq, Eq)]
pub struct CouncilSet {
    pub members: Vec<AccountId>,
}

/// Emitted when a snapshot is committed.
#[derive(Debug, Clone, Copy, PartialEq, Eq)]
pub struct SnapshotSubmitted {
    pub epoch: u64,
    pub root: MerkleHash,
    pub circulating_supply: u128,
    pub snapshot_block: u32,
}

/// Emitted when the vault address changes.
#[derive(Debug, Clone, Copy, PartialEq, Eq, Structural)]
pub struct VaultAddressUpdated {
    pub old_vault: AccountId,
    pub new_vault: AccountId,
}

/// Emitted when the pool address changes.
#[derive(Debug, Clone, Copy, PartialEq, Eq, Structural)]
pub struct PoolAddressUpdated {
    pub old_pool: AccountId,
    pub new_pool: AccountId,
}

/// Emitted when the auction address changes.
#[derive(Debug, Clone, Copy, PartialEq, Eq, Structural)]
pub struct GovernanceAuctionUpdated {
    pub old_auction: AccountId,
    pub new_auction: AccountId,
}

/// Emitted when the oracle address changes.
#[derive(Debug, Clone, Copy, PartialEq, Eq, Structural)]
pub struct GovernanceOracleUpdated {
    pub old_oracle: AccountId,
    pub new_oracle: AccountId,
}

/// Emitted when the treasury address changes.
#[derive(Debug, Clone, Copy, PartialEq, Eq, Structural)]
pub struct GovernanceTreasuryUpdated {
    pub old_treasury: AccountId,
    pub new_treasury: AccountId,
}

/// Errors of governance.
#[derive(Debug, Clone, Copy, PartialEq, Eq, Structural)]
pub enum Error {
    NotMaintainer,
    NotElection,
    NotCouncil,
    InvalidCouncil,
    ProposalNotFound,
    ProposalNotActive,
    VotingClosed,
    VotingStillOpen,
    AlreadyVoted,
    AlreadyExecuted,
    NoStake,
    InsufficientStake,
    OutsideSubmissionWindow,
    NoSnapshot,
    InvalidProof,
    StakeQueryFailed,
    InvalidCid,
    InvalidAmount,
    InvalidParams,
    NotPassed,
    TreasuryCallFailed,
    VaultCallFailed,
    AuctionCallFailed,
    PoolCallFailed,
    OracleCallFailed,
    VaultTokenCallFailed,
    ArithmeticError,
}

/// The treasury release a funding proposal asks for on execution.
#[derive(Debug, Clone, Copy, PartialEq, Eq, Structural)]
pub struct TreasuryRelease {
    pub fund: Fund,
    pub token_kind: TokenKind,
    pub amount: Balance,
    pub recipient: AccountId,
}

/// Governance storage.
pub struct TusdtGovernance {
    pub maintainer: AccountId,
    pub election: AccountId,
    pub council: Vec<AccountId>,
    pub treasury: AccountId,
    pub vault: AccountId,
    pub auction: AccountId,
    pub oracle: AccountId,
    pub pool: AccountId,
    pub netuid: u16,
    pub params: GovernanceParams,
    pub current_epoch: u64,
    pub snapshots: HashMap<u64, Snapshot>,
    pub proposal_count: u64,
    pub proposals: HashMap<u64, Proposal>,
    /// The (proposal, coldkey, hotkey) leaves that have voted.
    pub has_voted: Vec<(u64, AccountId, AccountId)>,
}

/// The abstract state of governance.
pub struct GovernanceView {
    pub maintainer: AccountId,
    pub election: AccountId,
    pub council: Seq<AccountId>,
    pub treasury: AccountId,
    pub vault: AccountId,
    pub auction: AccountId,
    pub oracle: AccountId,
    pub pool: AccountId,
    pub netuid: u16,
    pub params: GovernanceParams,
    pub current_epoch: u64,
    pub snapshots: Map<u64, Snapshot>,
    pub proposal_count: u64,
    pub proposals: Map<u64, Proposal>,
    pub has_voted: Seq<(u64, AccountId, AccountId)>,
}

impl View for TusdtGovernance {
    type V = GovernanceView;

    open spec fn view(&self) -> GovernanceView {
        GovernanceView {
            maintainer: self.maintainer,
            election: self.election,
            council: self.council@,
            treasury: self.treasury,
            vault: self.vault,
            auction: self.auction,
            oracle: self.oracle,
            pool: self.pool,
            netuid: self.netuid,
            params: self.params,
            current_epoch: self.current_epoch,
            snapshots: self.snapshots@,
            proposal_count: self.proposal_count,
            proposals: self.proposals@,
            has_voted: self.has_voted@,
        }
    }
}

/// The quorum of snapshot `epoch`: `circulating_supply * quorum_bps / 10_000`, saturating, 0
/// without a snapshot.
pub open spec fn quorum_spec(v: GovernanceView, epoch: u64) -> int {
    if !v.snapshots.contains_key(epoch) {
        0
    } else {
        let p = v.snapshots[epoch].circulating_supply * v.params.quorum_bps;
        (if p > u128::MAX { u128::MAX as int } else { p }) / (BPS_DENOMINATOR as int)
    }
}

/// Whether governance parameters are acceptable.
pub open spec fn params_valid(p: GovernanceParams) -> bool {
    &&& 0 < p.approval_bps <= BPS_DENOMINATOR
    &&& p.quorum_bps <= BPS_DENOMINATOR
    &&& p.voting_period_ms > 0
    &&& 1 <= p.submission_open_day <= p.submission_close_day <= 28
}

/// Whether `s` has no repeated element.
pub open spec fn all_distinct(s: Seq<AccountId>) -> bool {
    forall|i: int, j: int| 0 <= i < j < s.len() ==> s[i] != s[j]
}

/// A proposal submission by `caller` at `now`.
pub open spec fn submit_spec(v: GovernanceView, caller: AccountId, now: u64, cid: String, kind: ProposalKind) -> Result<(GovernanceView, u64, ProposalSubmitted), Error> {
    let day = calendar_day(now);
    let len = cid@.len();
    let byte_len = vstd::utf8::encode_utf8(cid@).len();
    if !v.council.contains(caller) {
        Err(Error::NotCouncil)
    } else if len == 0 || byte_len > MAX_CID_LEN {
        Err(Error::InvalidCid)
    } else if kind matches ProposalKind::Funding { amount, .. } && amount == 0 {
        Err(Error::InvalidAmount)
    } else if day < v.params.submission_open_day || day > v.params.submission_close_day {
        Err(Error::OutsideSubmissionWindow)
    } else if v.current_epoch == 0 {
        Err(Error::NoSnapshot)
    } else if v.proposal_count == u64::MAX || now + v.params.voting_period_ms > u64::MAX {
        Err(Error::ArithmeticError)
    } else {
        let id = (v.proposal_count + 1) as u64;
        let ends = (now + v.params.voting_period_ms) as u64;
        let p = Proposal {
            id,
            proposer: caller,
            cid,
            kind,
            created_at: now,
            voting_ends_at: ends,
            snapshot_epoch: v.current_epoch,
            yes: 0,
            no: 0,
            voted_balance: 0,
            status: ProposalStatus::Active,
        };
        Ok((
            GovernanceView { proposals: v.proposals.insert(id, p), proposal_count: id, ..v },
            id,
            ProposalSubmitted { proposal_id: id, proposer: caller, voting_ends_at: ends },
        ))
    }
}

/// A vote by leaf (`coldkey`, `hotkey`) on proposal `id` at `now`; `proof_valid` says whether
/// its Merkle proof matches the proposal's snapshot root.
pub open spec fn vote_spec(
    v: GovernanceView,
    coldkey: AccountId,
    now: u64,
    id: u64,
    hotkey: AccountId,
    support: bool,
    balance: u128,
    multiplier_bps: u32,
    proof_valid: bool,
) -> Result<(GovernanceView, Voted), Error> {
    if !v.proposals.contains_key(id) {
        Err(Error::ProposalNotFound)
    } else {
        let p = v.proposals[id];
        let weight = voting_power_spec(balance, multiplier_bps);
        if p.status != ProposalStatus::Active {
            Err(Error::ProposalNotActive)
        } else if now >= p.voting_ends_at {
            Err(Error::VotingClosed)
        } else if v.has_voted.contains((id, coldkey, hotkey)) {
            Err(Error::AlreadyVoted)
        } else if !v.snapshots.contains_key(p.snapshot_epoch) {
            Err(Error::NoSnapshot)
        } else if !proof_valid {
            Err(Error::InvalidProof)
        } else if weight == 0 {
            Err(Error::NoStake)
        } else if (support && p.yes + weight > u128::MAX) || (!support && p.no + weight > u128::MAX)
            || p.voted_balance + balance > u128::MAX {
            Err(Error::ArithmeticError)
        } else {
            let p2 = Proposal {
                yes: if support { (p.yes + weight) as u128 } else { p.yes },
                no: if support { p.no } else { (p.no + weight) as u128 },
                voted_balance: (p.voted_balance + balance) as u128,
                ..p
            };
            Ok((
                GovernanceView { proposals: v.proposals.insert(id, p2), has_voted: v.has_voted.push((id, coldkey, hotkey)), ..v },
                Voted { proposal_id: id, coldkey, hotkey, support, weight: weight as u128 },
            ))
        }
    }
}

/// The outcome of closing proposal `p`: passed when turnout reaches the quorum, some power
/// voted, and `yes * 10_000 / (yes + no)` reaches the approval bar; `None` on an overflow.
pub open spec fn decided_status(v: GovernanceView, p: Proposal) -> Option<ProposalStatus> {
    let total = p.yes + p.no;
    if total > u128::MAX {
        None
    } else if p.voted_balance < quorum_spec(v, p.snapshot_epoch) || total == 0 {
        Some(ProposalStatus::Rejected)
    } else if p.yes * BPS_DENOMINATOR > u128::MAX {
        None
    } else if (p.yes * BPS_DENOMINATOR) / total >= v.params.approval_bps {
        Some(ProposalStatus::Passed)
    } else {
        Some(ProposalStatus::Rejected)
    }
}

fn copy_proposal(p: &Proposal) -> (r: Proposal)
    ensures
        r == *p,
{
    Proposal {
        id: p.id,
        proposer: p.proposer,
        cid: p.cid.clone(),
        kind: p.kind,
        created_at: p.created_at,
        voting_ends_at: p.voting_ends_at,
        snapshot_epoch: p.snapshot_epoch,
        yes: p.yes,
        no: p.no,
        voted_balance: p.voted_balance,
        status: p.status,
    }
}

fn copy_accounts(v: &Vec<AccountId>) -> (r: Vec<AccountId>)
    ensures
        r@ == v@,
{
    let mut out: Vec<AccountId> = Vec::new();
    let mut i: usize = 0;
    while i < v.len()
        invariant
            i <= v.len(),
            out@ == v@.take(i as int),
        decreases v.len() - i,
    {
        out.push(v[i]);
        i = i + 1;
        assert(out@ =~= v@.take(i as int));
    }
    assert(v@.take(v.len() as int) =~= v@);
    out
}

fn contains_account(v: &Vec<AccountId>, a: AccountId) -> (b: bool)
    ensures
        b == v@.contains(a),
{
    let mut i: usize = 0;
    while i < v.len()
        invariant
            i <= v.len(),
            forall|j: int| 0 <= j < i ==> v@[j] != a,
        decreases v.len() - i,
    {
        if v[i] == a {
            assert(v@[i as int] == a);
            return true;
        }
        i = i + 1;
    }
    false
}

impl TusdtGovernance {
    /// Fails with `NotCouncil` unless `caller` sits on the council.
    pub(crate) fn ensure_council(&self, caller: AccountId) -> (r: Result<(), Error>)
        ensures
            r is Ok <==> self@.council.contains(caller),
            r matches Err(e) ==> e == Error::NotCouncil,
    {
        if !contains_account(&self.council, caller) {
            return Err(Error::NotCouncil);
        }
        Ok(())
    }

    /// Fails with `NotElection` unless `caller` is the election contract.
    fn ensure_election(&self, caller: AccountId) -> (r: Result<(), Error>)
        ensures
            r is Ok <==> caller == self.election,
            r matches Err(e) ==> e == Error::NotElection,
    {
        if !(caller == self.election) {
            return Err(Error::NotElection);
        }
        Ok(())
    }

    /// Governance over the given treasury, vault, auction and oracle contracts, with
    /// `maintainer` seated and `election` authorized to replace it; no pool, no council, no
    /// snapshot, default parameters on subnet [`DEFAULT_NETUID`].
    pub fn new(
        treasury_address: AccountId,
        vault_address: AccountId,
        auction_address: AccountId,
        oracle_address: AccountId,
        maintainer: AccountId,
        election: AccountId,
    ) -> (g: TusdtGovernance)
        ensures
            g@.maintainer == maintainer,
            g@.election == election,
            g@.council == Seq::<AccountId>::empty(),
            g@.treasury == treasury_address,
            g@.vault == vault_address,
            g@.auction == auction_address,
            g@.oracle == oracle_address,
            g@.pool == 0,
            g@.netuid == DEFAULT_NETUID,
            g@.params == GovernanceParams::default_params_spec(),
            g@.current_epoch == 0,
            g@.snapshots == Map::<u64, Snapshot>::empty(),
            g@.proposal_count == 0,
            g@.proposals == Map::<u64, Proposal>::empty(),
            g@.has_voted == Seq::<(u64, AccountId, AccountId)>::empty(),
    {
        TusdtGovernance {
            maintainer,
            election,
            council: Vec::new(),
            treasury: treasury_address,
            vault: vault_address,
            auction: auction_address,
            oracle: oracle_address,
            pool: 0,
            netuid: DEFAULT_NETUID,
            params: GovernanceParams::default_params(),
            current_epoch: 0,
            snapshots: HashMap::new(),
            proposal_count: 0,
            proposals: HashMap::new(),
            has_voted: Vec::new(),
        }
    }

    /// The maintainer.
    pub fn maintainer(&self) -> (r: AccountId)
        ensures
            r == self.maintainer,
    {
        self.maintainer
    }

    /// The governing subnet.
    pub fn netuid(&self) -> (r: u16)
        ensures
            r == self.netuid,
    {
        self.netuid
    }

    /// The election contract.
    pub fn election(&self) -> (r: AccountId)
        ensures
            r == self.election,
    {
        self.election
    }

    /// The council members.
    pub fn council(&self) -> (r: Vec<AccountId>)
        ensures
            r@ == self@.council,
    {
        copy_accounts(&self.council)
    }

    /// Whether `who` sits on the council.
    pub fn is_council(&self, who: AccountId) -> (b: bool)
        ensures
            b == self@.council.contains(who),
    {
        contains_account(&self.council, who)
    }

    /// The treasury contract.
    pub fn treasury(&self) -> (r: AccountId)
        ensures
            r == self.treasury,
    {
        self.treasury
    }

    /// The vault contract.
    pub fn vault_address(&self) -> (r: AccountId)
        ensures
            r == self.vault,
    {
        self.vault
    }

    /// The auction contract.
    pub fn auction_address(&self) -> (r: AccountId)
        ensures
            r == self.auction,
    {
        self.auction
    }

    /// The oracle contract.
    pub fn oracle_address(&self) -> (r: AccountId)
        ensures
            r == self.oracle,
    {
        self.oracle
    }

    /// The lending pool contract.
    pub fn pool_address(&self) -> (r: AccountId)
        ensures
            r == self.pool,
    {
        self.pool
    }

    /// Replaces the maintainer. Election only.
    pub fn elect_maintainer(&mut self, caller: AccountId, new_maintainer: AccountId) -> (r: Result<MaintainerChanged, Error>)
        ensures
            caller != old(self).election ==> r == Err::<MaintainerChanged, Error>(Error::NotElection) && final(self)@ == old(self)@,
            caller == old(self).election ==> r == Ok::<MaintainerChanged, Error>(MaintainerChanged { previous: old(self).maintainer, new: new_maintainer })
                && final(self)@ == (GovernanceView { maintainer: new_maintainer, ..old(self)@ }),
    {
        match self.ensure_election(caller) {
            Ok(()) => {},
            Err(e) => return Err(e),
        }
        let previous = self.maintainer;
        self.maintainer = new_maintainer;
        Ok(MaintainerChanged { previous, new: new_maintainer })
    }

    /// Switches the governing subnet. Election only.
    pub fn election_set_netuid(&mut self, caller: AccountId, netuid: u16) -> (r: Result<(), Error>)
        ensures
            caller != old(self).election ==> r == Err::<(), Error>(Error::NotElection) && final(self)@ == old(self)@,
            caller == old(self).election ==> r is Ok && final(self)@ == (GovernanceView { netuid, ..old(self)@ }),
    {
        match self.ensure_election(caller) {
            Ok(()) => {},
            Err(e) => return Err(e),
        }
        self.netuid = netuid;
        Ok(())
    }

    pub(crate) fn ensure_maintainer(&self, caller: AccountId) -> (r: Result<(), Error>)
        ensures
            r is Ok <==> caller == self.maintainer,
            r matches Err(e) ==> e == Error::NotMaintainer,
    {
        if caller != self.maintainer {
            return Err(Error::NotMaintainer);
        }
        Ok(())
    }

    /// Points governance at a new vault. Maintainer only.
    pub fn update_vault_address(&mut self, caller: AccountId, new_vault: AccountId) -> (r: Result<VaultAddressUpdated, Error>)
        ensures
            caller != old(self).maintainer ==> r == Err::<VaultAddressUpdated, Error>(Error::NotMaintainer) && final(self)@ == old(self)@,
            caller == old(self).maintainer ==> r == Ok::<VaultAddressUpdated, Error>(VaultAddressUpdated { old_vault: old(self).vault, new_vault })
                && final(self)@ == (GovernanceView { vault: new_vault, ..old(self)@ }),
    {
        match self.ensure_maintainer(caller) {
            Ok(()) => {},
            Err(e) => return Err(e),
        }
        let old_vault = self.vault;
        self.vault = new_vault;
        Ok(VaultAddressUpdated { old_vault, new_vault })
    }

    /// Points governance at a new lending pool. Maintainer only.
    pub fn update_pool_address(&mut self, caller: AccountId, new_pool: AccountId) -> (r: Result<PoolAddressUpdated, Error>)
        ensures
            caller != old(self).maintainer ==> r == Err::<PoolAddressUpdated, Error>(Error::NotMaintainer) && final(self)@ == old(self)@,
            caller == old(self).maintainer ==> r == Ok::<PoolAddressUpdated, Error>(PoolAddressUpdated { old_pool: old(self).pool, new_pool })
                && final(self)@ == (GovernanceView { pool: new_pool, ..old(self)@ }),
    {
        match self.ensure_maintainer(caller) {
            Ok(()) => {},
            Err(e) => return Err(e),
        }
        let old_pool = self.pool;
        self.pool = new_pool;
        Ok(PoolAddressUpdated { old_pool, new_pool })
    }

    /// Points governance at a new auction contract. Maintainer only.
    pub fn update_auction_address(&mut self, caller: AccountId, new_auction: AccountId) -> (r: Result<GovernanceAuctionUpdated, Error>)
        ensures
            caller != old(self).maintainer ==> r == Err::<GovernanceAuctionUpdated, Error>(Error::NotMaintainer) && final(self)@ == old(self)@,
            caller == old(self).maintainer ==> r == Ok::<GovernanceAuctionUpdated, Error>(GovernanceAuctionUpdated { old_auction: old(self).auction, new_auction })
                && final(self)@ == (GovernanceView { auction: new_auction, ..old(self)@ }),
    {
        match self.ensure_maintainer(caller) {
            Ok(()) => {},
            Err(e) => return Err(e),
        }
        let old_auction = self.auction;
        self.auction = new_auction;
        Ok(GovernanceAuctionUpdated { old_auction, new_auction })
    }

    /// Points governance at a new oracle. Maintainer only.
    pub fn update_oracle_address(&mut self, caller: AccountId, new_oracle: AccountId) -> (r: Result<GovernanceOracleUpdated, Error>)
        ensures
            caller != old(self).maintainer ==> r == Err::<GovernanceOracleUpdated, Error>(Error::NotMaintainer) && final(self)@ == old(self)@,
            caller == old(self).maintainer ==> r == Ok::<GovernanceOracleUpdated, Error>(GovernanceOracleUpdated { old_oracle: old(self).oracle, new_oracle })
                && final(self)@ == (GovernanceView { oracle: new_oracle, ..old(self)@ }),
    {
        match self.ensure_maintainer(caller) {
            Ok(()) => {},
            Err(e) => return Err(e),
        }
        let old_oracle = self.oracle;
        self.oracle = new_oracle;
        Ok(GovernanceOracleUpdated { old_oracle, new_oracle })
    }

    /// Points governance at a new treasury. Maintainer only.
    pub fn update_treasury_address(&mut self, caller: AccountId, new_treasury: AccountId) -> (r: Result<GovernanceTreasuryUpdated, Error>)
        ensures
            caller != old(self).maintainer ==> r == Err::<GovernanceTreasuryUpdated, Error>(Error::NotMaintainer) && final(self)@ == old(self)@,
            caller == old(self).maintainer ==> r == Ok::<GovernanceTreasuryUpdated, Error>(GovernanceTreasuryUpdated { old_treasury: old(self).treasury, new_treasury })
                && final(self)@ == (GovernanceView { treasury: new_treasury, ..old(self)@ }),
    {
        match self.ensure_maintainer(caller) {
            Ok(()) => {},
            Err(e) => return Err(e),
        }
        let old_treasury = self.treasury;
        self.treasury = new_treasury;
        Ok(GovernanceTreasuryUpdated { old_treasury, new_treasury })
    }

    /// Seats the council: exactly [`COUNCIL_SIZE`] distinct members. Maintainer only.
    pub fn set_council(&mut self, caller: AccountId, members: Vec<AccountId>) -> (r: Result<CouncilSet, Error>)
        ensures
            caller != old(self).maintainer ==> r == Err::<CouncilSet, Error>(Error::NotMaintainer) && final(self)@ == old(self)@,
            caller == old(self).maintainer && !(members@.len() == COUNCIL_SIZE && all_distinct(members@))
                ==> r == Err::<CouncilSet, Error>(Error::InvalidCouncil) && final(self)@ == old(self)@,
            caller == old(self).maintainer && members@.len() == COUNCIL_SIZE && all_distinct(members@)
                ==> (r matches Ok(ev) && ev.members@ == members@) && final(self)@ == (GovernanceView { council: members@, ..old(self)@ }),
    {
        match self.ensure_maintainer(caller) {
            Ok(()) => {},
            Err(e) => return Err(e),
        }
        if members.len() != COUNCIL_SIZE {
            return Err(Error::InvalidCouncil);
        }
        let mut i: usize = 0;
        while i < members.len()
            invariant
                i <= members.len(),
                members@.len() == COUNCIL_SIZE,
                caller == old(self).maintainer,
                self@ == old(self)@,
                forall|a: int, b: int| 0 <= a < i && a < b < members@.len() ==> members@[a] != members@[b],
            decreases members.len() - i,
        {
            let mut j: usize = i + 1;
            while j < members.len()
                invariant
                    i < members.len(),
                    i + 1 <= j <= members.len(),
                    members@.len() == COUNCIL_SIZE,
                    caller == old(self).maintainer,
                    self@ == old(self)@,
                    forall|a: int, b: int| 0 <= a < i && a < b < members@.len() ==> members@[a] != members@[b],
                    forall|b: int| i < b < j ==> members@[i as int] != members@[b],
                decreases members.len() - j,
            {
                if members[j] == members[i] {
                    return Err(Error::InvalidCouncil);
                }
                j = j + 1;
            }
            i = i + 1;
        }
        self.council = copy_accounts(&members);
        Ok(CouncilSet { members })
    }

    /// The governance parameters.
    pub fn params(&self) -> (r: GovernanceParams)
        ensures
            r == self.params,
    {
        self.params
    }

    /// The latest snapshot epoch.
    pub fn current_epoch(&self) -> (r: u64)
        ensures
            r == self.current_epoch,
    {
        self.current_epoch
    }

    /// The snapshot of `epoch`.
    pub fn get_snapshot(&self, epoch: u64) -> (r: Option<Snapshot>)
        ensures
            r == (if self@.snapshots.contains_key(epoch) { Some(self@.snapshots[epoch]) } else { None }),
    {
        match self.snapshots.get(&epoch) {
            Some(s) => Some(*s),
            None => None,
        }
    }

    /// The latest snapshot as the election reads it: `(root, circulating_supply, netuid,
    /// snapshot_block)`.
    pub fn election_snapshot(&self) -> (r: Option<(MerkleHash, u128, u16, u32)>)
        ensures
            r == (if self@.snapshots.contains_key(self.current_epoch) {
                let s = self@.snapshots[self.current_epoch];
                Some((s.root, s.circulating_supply, self.netuid, s.snapshot_block))
            } else {
                None
            }),
    {
        match self.snapshots.get(&self.current_epoch) {
            Some(s) => Some((s.root, s.circulating_supply, self.netuid, s.snapshot_block)),
            None => None,
        }
    }

    /// Commits a new snapshot as the next epoch. Council only.
    pub fn submit_snapshot(&mut self, caller: AccountId, root: MerkleHash, circulating_supply: u128, snapshot_block: u32) -> (r: Result<(u64, SnapshotSubmitted), Error>)
        ensures
            !old(self)@.council.contains(caller) ==> r == Err::<(u64, SnapshotSubmitted), Error>(Error::NotCouncil) && final(self)@ == old(self)@,
            old(self)@.council.contains(caller) && old(self).current_epoch == u64::MAX
                ==> r == Err::<(u64, SnapshotSubmitted), Error>(Error::ArithmeticError) && final(self)@ == old(self)@,
            old(self)@.council.contains(caller) && old(self).current_epoch < u64::MAX ==> {
                let e = (old(self).current_epoch + 1) as u64;
                r == Ok::<(u64, SnapshotSubmitted), Error>((e, SnapshotSubmitted { epoch: e, root, circulating_supply, snapshot_block }))
                    && final(self)@ == (GovernanceView {
                        snapshots: old(self)@.snapshots.insert(e, Snapshot { root, circulating_supply, snapshot_block }),
                        current_epoch: e,
                        ..old(self)@
                    })
            },
    {
        match self.ensure_council(caller) {
            Ok(()) => {},
            Err(e) => return Err(e),
        }
        if self.current_epoch == u64::MAX {
            return Err(Error::ArithmeticError);
        }
        let epoch = self.current_epoch + 1;
        self.snapshots.insert(epoch, Snapshot { root, circulating_supply, snapshot_block });
        self.current_epoch = epoch;
        Ok((epoch, SnapshotSubmitted { epoch, root, circulating_supply, snapshot_block }))
    }

    /// The quorum of snapshot `epoch`, as [`quorum_spec`] states.
    pub fn quorum(&self, epoch: u64) -> (r: u128)
        ensures
            r == quorum_spec(self@, epoch),
    {
        match self.snapshots.get(&epoch) {
            Some(s) => {
                let p = match s.circulating_supply.checked_mul(self.params.quorum_bps as u128) {
                    Some(p) => p,
                    None => u128::MAX,
                };
                p / (BPS_DENOMINATOR as u128)
            },
            None => 0,
        }
    }

    /// The number of proposals submitted.
    pub fn proposal_count(&self) -> (r: u64)
        ensures
            r == self.proposal_count,
    {
        self.proposal_count
    }

    /// Proposal `proposal_id`.
    pub fn get_proposal(&self, proposal_id: u64) -> (r: Option<Proposal>)
        ensures
            r == (if self@.proposals.contains_key(proposal_id) { Some(self@.proposals[proposal_id]) } else { None }),
    {
        match self.proposals.get(&proposal_id) {
            Some(p) => Some(copy_proposal(p)),
            None => None,
        }
    }

    /// Whether leaf (`coldkey`, `hotkey`) has voted on `proposal_id`.
    pub fn has_voted(&self, proposal_id: u64, coldkey: AccountId, hotkey: AccountId) -> (b: bool)
        ensures
            b == self@.has_voted.contains((proposal_id, coldkey, hotkey)),
    {
        contains_triple(&self.has_voted, (proposal_id, coldkey, hotkey))
    }

    /// Replaces the parameters when they are acceptable ([`params_valid`]). Maintainer only.
    pub fn update_params(&mut self, caller: AccountId, new_params: GovernanceParams) -> (r: Result<(), Error>)
        ensures
            caller != old(self).maintainer ==> r == Err::<(), Error>(Error::NotMaintainer) && final(self)@ == old(self)@,
            caller == old(self).maintainer && !params_valid(new_params) ==> r == Err::<(), Error>(Error::InvalidParams) && final(self)@ == old(self)@,
            caller == old(self).maintainer && params_valid(new_params) ==> r is Ok && final(self)@ == (GovernanceView { params: new_params, ..old(self)@ }),
    {
        match self.ensure_maintainer(caller) {
            Ok(()) => {},
            Err(e) => return Err(e),
        }
        if new_params.approval_bps == 0 || new_params.approval_bps > BPS_DENOMINATOR {
            return Err(Error::InvalidParams);
        }
        if new_params.quorum_bps > BPS_DENOMINATOR {
            return Err(Error::InvalidParams);
        }
        if new_params.voting_period_ms == 0 {
            return Err(Error::InvalidParams);
        }
        if new_params.submission_open_day < 1 || new_params.submission_open_day > new_params.submission_close_day
            || new_params.submission_close_day > 28 {
            return Err(Error::InvalidParams);
        }
        self.params = new_params;
        Ok(())
    }

    /// Submits a proposal at `now`, as [`submit_spec`] states. Council only, within the monthly
    /// submission window, bound to the latest snapshot.
    pub fn submit_proposal(&mut self, caller: AccountId, now: u64, cid: String, kind: ProposalKind) -> (r: Result<(u64, ProposalSubmitted), Error>)
        ensures
            match submit_spec(old(self)@, caller, now, cid, kind) {
                Ok((v, id, ev)) => r == Ok::<(u64, ProposalSubmitted), Error>((id, ev)) && final(self)@ == v,
                Err(e) => r == Err::<(u64, ProposalSubmitted), Error>(e) && final(self)@ == old(self)@,
            },
    {
        match self.ensure_council(caller) {
            Ok(()) => {},
            Err(e) => return Err(e),
        }
        if cid.as_str().is_empty() || cid.as_str().as_bytes().len() > MAX_CID_LEN {
            return Err(Error::InvalidCid);
        }
        match kind {
            ProposalKind::Funding { amount, .. } => {
                if amount == 0 {
                    return Err(Error::InvalidAmount);
                }
            },
            ProposalKind::NonFunding => {},
        }
        let day = day_of_month(now);
        if day < self.params.submission_open_day || day > self.params.submission_close_day {
            return Err(Error::OutsideSubmissionWindow);
        }
        let epoch = self.current_epoch;
        if epoch == 0 {
            return Err(Error::NoSnapshot);
        }
        if self.proposal_count == u64::MAX {
            return Err(Error::ArithmeticError);
        }
        let id = self.proposal_count + 1;
        let ends = match now.checked_add(self.params.voting_period_ms) {
            Some(e) => e,
            None => return Err(Error::ArithmeticError),
        };
        let p = Proposal {
            id,
            proposer: caller,
            cid,
            kind,
            created_at: now,
            voting_ends_at: ends,
            snapshot_epoch: epoch,
            yes: 0,
            no: 0,
            voted_balance: 0,
            status: ProposalStatus::Active,
        };
        self.proposals.insert(id, p);
        self.proposal_count = id;
        Ok((id, ProposalSubmitted { proposal_id: id, proposer: caller, voting_ends_at: ends }))
    }

    /// Casts leaf (`caller`, `hotkey`)'s vote on `proposal_id` at `now`, as [`vote_spec`]
    /// states; `proof_valid` says whether its Merkle proof of (`caller`, `hotkey`, `balance`,
    /// `multiplier_bps`) matches the proposal's snapshot root.
    ///
    /// `proof_valid` is a trusted input: this function does not hash the leaf nor walk the
    /// proof, so nothing here ties `balance` and `multiplier_bps` to the snapshot root; the
    /// caller must compute it with the snapshot's leaf hash and Merkle verification.
    pub fn vote(
        &mut self,
        caller: AccountId,
        now: u64,
        proposal_id: u64,
        hotkey: AccountId,
        support: bool,
        balance: u128,
        multiplier_bps: u32,
        proof_valid: bool,
    ) -> (r: Result<Voted, Error>)
        ensures
            match vote_spec(old(self)@, caller, now, proposal_id, hotkey, support, balance, multiplier_bps, proof_valid) {
                Ok((v, ev)) => r == Ok::<Voted, Error>(ev) && final(self)@ == v,
                Err(e) => r == Err::<Voted, Error>(e) && final(self)@ == old(self)@,
            },
    {
        let p = match self.proposals.get(&proposal_id) {
            Some(p) => copy_proposal(p),
            None => return Err(Error::ProposalNotFound),
        };
        if p.status != ProposalStatus::Active {
            return Err(Error::ProposalNotActive);
        }
        if now >= p.voting_ends_at {
            return Err(Error::VotingClosed);
        }
        let key = (proposal_id, caller, hotkey);
        if contains_triple(&self.has_voted, key) {
            return Err(Error::AlreadyVoted);
        }
        if self.snapshots.get(&p.snapshot_epoch).is_none() {
            return Err(Error::NoSnapshot);
        }
        if !proof_valid {
            return Err(Error::InvalidProof);
        }
        let weight = match voting_power(balance, multiplier_bps) {
            Some(w) => w,
            None => return Err(Error::ArithmeticError),
        };
        if weight == 0 {
            return Err(Error::NoStake);
        }
        let mut p2 = p;
        if support {
            p2.yes = match p2.yes.checked_add(weight) {
                Some(x) => x,
                None => return Err(Error::ArithmeticError),
            };
        } else {
            p2.no = match p2.no.checked_add(weight) {
                Some(x) => x,
                None => return Err(Error::ArithmeticError),
            };
        }
        p2.voted_balance = match p2.voted_balance.checked_add(balance) {
            Some(x) => x,
            None => return Err(Error::ArithmeticError),
        };
        self.proposals.insert(proposal_id, p2);
        self.has_voted.push(key);
        Ok(Voted { proposal_id, coldkey: caller, hotkey, support, weight })
    }

    /// Closes voting on `proposal_id` at `now`, recording the [`decided_status`].
    pub fn finalize(&mut self, now: u64, proposal_id: u64) -> (r: Result<ProposalFinalized, Error>)
        ensures
            ({
                let v = old(self)@;
                if !v.proposals.contains_key(proposal_id) {
                    r == Err::<ProposalFinalized, Error>(Error::ProposalNotFound) && final(self)@ == v
                } else {
                    let p = v.proposals[proposal_id];
                    if p.status != ProposalStatus::Active {
                        r == Err::<ProposalFinalized, Error>(Error::ProposalNotActive) && final(self)@ == v
                    } else if now < p.voting_ends_at {
                        r == Err::<ProposalFinalized, Error>(Error::VotingStillOpen) && final(self)@ == v
                    } else {
                        match decided_status(v, p) {
                            None => r == Err::<ProposalFinalized, Error>(Error::ArithmeticError) && final(self)@ == v,
                            Some(s) => r == Ok::<ProposalFinalized, Error>(ProposalFinalized { proposal_id, status: s, yes: p.yes, no: p.no })
                                && final(self)@ == (GovernanceView { proposals: v.proposals.insert(proposal_id, Proposal { status: s, ..p }), ..v }),
                        }
                    }
                }
            }),
    {
        let p = match self.proposals.get(&proposal_id) {
            Some(p) => copy_proposal(p),
            None => return Err(Error::ProposalNotFound),
        };
        if p.status != ProposalStatus::Active {
            return Err(Error::ProposalNotActive);
        }
        if now < p.voting_ends_at {
            return Err(Error::VotingStillOpen);
        }
        let total = match p.yes.checked_add(p.no) {
            Some(t) => t,
            None => return Err(Error::ArithmeticError),
        };
        let quorum_met = p.voted_balance >= self.quorum(p.snapshot_epoch);
        let status = if !quorum_met || total == 0 {
            ProposalStatus::Rejected
        } else {
            let scaled = match p.yes.checked_mul(BPS_DENOMINATOR as u128) {
                Some(x) => x,
                None => return Err(Error::ArithmeticError),
            };
            if scaled / total >= self.params.approval_bps as u128 {
                ProposalStatus::Passed
            } else {
                ProposalStatus::Rejected
            }
        };
        let yes = p.yes;
        let no = p.no;
        let mut p2 = p;
        p2.status = status;
        self.proposals.insert(proposal_id, p2);
        Ok(ProposalFinalized { proposal_id, status, yes, no })
    }

    /// Executes a passed proposal: marks it executed and, for a funding proposal, returns the
    /// treasury release the host must make (if it fails, execution fails with
    /// `TreasuryCallFailed` and is discarded).
    pub fn execute(&mut self, proposal_id: u64) -> (r: Result<(Option<TreasuryRelease>, ProposalExecuted), Error>)
        ensures
            ({
                let v = old(self)@;
                if !v.proposals.contains_key(proposal_id) {
                    r == Err::<(Option<TreasuryRelease>, ProposalExecuted), Error>(Error::ProposalNotFound) && final(self)@ == v
                } else {
                    let p = v.proposals[proposal_id];
                    if p.status == ProposalStatus::Executed {
                        r == Err::<(Option<TreasuryRelease>, ProposalExecuted), Error>(Error::AlreadyExecuted) && final(self)@ == v
                    } else if p.status != ProposalStatus::Passed {
                        r == Err::<(Option<TreasuryRelease>, ProposalExecuted), Error>(Error::NotPassed) && final(self)@ == v
                    } else {
                        let release = match p.kind {
                            ProposalKind::Funding { fund, token_kind, amount, recipient } => Some(TreasuryRelease { fund, token_kind, amount, recipient }),
                            ProposalKind::NonFunding => None,
                        };
                        r == Ok::<(Option<TreasuryRelease>, ProposalExecuted), Error>((release, ProposalExecuted { proposal_id }))
                            && final(self)@ == (GovernanceView { proposals: v.proposals.insert(proposal_id, Proposal { status: ProposalStatus::Executed, ..p }), ..v })
                    }
                }
            }),
    {
        let p = match self.proposals.get(&proposal_id) {
            Some(p) => copy_proposal(p),
            None => return Err(Error::ProposalNotFound),
        };
        match p.status {
            ProposalStatus::Passed => {},
            ProposalStatus::Executed => return Err(Error::AlreadyExecuted),
            _ => return Err(Error::NotPassed),
        }
        let release = match p.kind {
            ProposalKind::Funding { fund, token_kind, amount, recipient } => Some(TreasuryRelease { fund, token_kind, amount, recipient }),
            ProposalKind::NonFunding => None,
        };
        let mut p2 = p;
        p2.status = ProposalStatus::Executed;
        self.proposals.insert(proposal_id, p2);
        Ok((release, ProposalExecuted { proposal_id }))
    }
}

impl GovernanceParams {
    /// The default parameters.
    pub open spec fn default_params_spec() -> GovernanceParams {
        GovernanceParams {
            voting_period_ms: DEFAULT_VOTING_PERIOD_MS,
            quorum_bps: DEFAULT_QUORUM_BPS,
            approval_bps: DEFAULT_APPROVAL_BPS,
            min_proposer_stake: DEFAULT_MIN_PROPOSER_STAKE,
            submission_open_day: DEFAULT_SUBMISSION_OPEN_DAY,
            submission_close_day: DEFAULT_SUBMISSION_CLOSE_DAY,
        }
    }
}

/// Each (coldkey, hotkey) leaf votes at most once on a proposal: once a vote is counted, any
/// further vote by the same leaf on it is refused, with `AlreadyVoted` while voting is open.
pub proof fn law_one_vote_per_leaf(
    v: GovernanceView,
    coldkey: AccountId,
    hotkey: AccountId,
    id: u64,
    now: u64,
    support: bool,
    balance: u128,
    multiplier_bps: u32,
    proof_valid: bool,
    now2: u64,
    support2: bool,
    balance2: u128,
    multiplier_bps2: u32,
    proof_valid2: bool,
)
    requires
        vote_spec(v, coldkey, now, id, hotkey, support, balance, multiplier_bps, proof_valid) is Ok,
    ensures
        ({
            let v2 = vote_spec(v, coldkey, now, id, hotkey, support, balance, multiplier_bps, proof_valid)->Ok_0.0;
            let again = vote_spec(v2, coldkey, now2, id, hotkey, support2, balance2, multiplier_bps2, proof_valid2);
            &&& again is Err
            &&& now2 < v.proposals[id].voting_ends_at ==> again == Err::<(GovernanceView, Voted), Error>(Error::AlreadyVoted)
        }),
{
    let v2 = vote_spec(v, coldkey, now, id, hotkey, support, balance, multiplier_bps, proof_valid)->Ok_0.0;
    assert(v2.has_voted.contains((id, coldkey, hotkey))) by {
        assert(v2.has_voted[v2.has_voted.len() - 1] == (id, coldkey, hotkey));
    }
}

/// A closed proposal passes exactly when the raw balance that voted reaches the quorum of its
/// snapshot (`circulating_supply * quorum_bps / 10_000`, the product saturating; 0 without a
/// snapshot), some voting power was cast, and the yes share of the voting power
/// (`yes * 10_000 / (yes + no)`) reaches the approval bar; otherwise it is rejected. The quorum
/// is measured on the voted balance, never on the vote weights.
pub proof fn law_quorum_counts_voted_balance(v: GovernanceView, p: Proposal)
    requires
        p.yes + p.no <= u128::MAX,
        p.yes * BPS_DENOMINATOR <= u128::MAX,
    ensures
        ({
            let quorum: int = if v.snapshots.contains_key(p.snapshot_epoch) {
                let product = v.snapshots[p.snapshot_epoch].circulating_supply * v.params.quorum_bps;
                (if product > u128::MAX { u128::MAX as int } else { product }) / 10_000
            } else {
                0
            };
            let total = p.yes + p.no;
            let passes = p.voted_balance >= quorum && total > 0 && p.yes * 10_000 / total >= v.params.approval_bps;
            &&& passes ==> decided_status(v, p) == Some(ProposalStatus::Passed)
            &&& !passes ==> decided_status(v, p) == Some(ProposalStatus::Rejected)
        }),
{
}

/// A counted vote adds its quadratic weight `floor(sqrt(balance) * multiplier_bps / 10_000)`
/// (`sqrt` the integer square root) to exactly the side it supports, and its raw balance to the
/// proposal's voted balance, which the quorum is measured on.
pub proof fn law_vote_adds_quadratic_weight(
    v: GovernanceView,
    coldkey: AccountId,
    now: u64,
    id: u64,
    hotkey: AccountId,
    support: bool,
    balance: u128,
    multiplier_bps: u32,
    proof_valid: bool,
)
    requires
        vote_spec(v, coldkey, now, id, hotkey, support, balance, multiplier_bps, proof_valid) is Ok,
    ensures
        ({
            let (v2, ev) = vote_spec(v, coldkey, now, id, hotkey, support, balance, multiplier_bps, proof_valid)->Ok_0;
            let p = v.proposals[id];
            let p2 = v2.proposals[id];
            &&& p2.voted_balance == p.voted_balance + balance
            &&& support ==> p2.yes == p.yes + ev.weight && p2.no == p.no
            &&& !support ==> p2.no == p.no + ev.weight && p2.yes == p.yes
            &&& ev.weight > 0
            &&& forall|r: int| crate::voting::is_isqrt(balance as int, r) ==> ev.weight == r * multiplier_bps / 10_000
        }),
{
    crate::voting::lemma_isqrt_exists(balance as nat);
    crate::voting::lemma_voting_power_range(balance, multiplier_bps);
    let s = crate::voting::isqrt(balance as int);
    assert(crate::voting::is_isqrt(balance as int, s));
    assert forall|r: int| crate::voting::is_isqrt(balance as int, r) implies r == s by {
        crate::voting::lemma_isqrt_unique(balance as int, r, s);
    }
}

} // verus!

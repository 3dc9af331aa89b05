//! The TUSDT/TAO price oracle: registered subnet neurons submit prices for the open round, and a
//! validator (or governance) commits the round at the median or an override price.
//!
//! The submitter's stake record, which the chain holds, is read by the host and handed in as a
//! [`StakeLookup`]. A failed message leaves the oracle unchanged.

use vstd::prelude::*;
use vstd::relations::{sorted_by, total_ordering};
use std::collections::HashMap;
use crate::ratio::{Ratio, RATIO_BPS, mul_floor};
use crate::types::AccountId;

verus! {

broadcast use vstd::std_specs::hash::group_hash_axioms;

/// Submissions needed to commit a round at its median.
pub const MIN_REPORTERS: u32 = 3;

/// Page size of the price history.
pub const HISTORY_PAGE_SIZE: u32 = 10;

/// Distinct reporters accepted per round.
pub const MAX_ROUND_SUBMISSIONS: u32 = 256;

/// Default largest move between consecutive committed prices (10%), in basis points.
pub const DEFAULT_MAX_PRICE_DEVIATION_BASIS_POINTS: u32 = 1_000;

/// Default minimum subnet alpha stake to submit (10 TAO in rao).
pub const DEFAULT_MIN_SUBMITTER_STAKE: u128 = 10_000_000_000;

/// A committed oracle round.
#[derive(Debug, Clone, Copy, PartialEq, Eq, Structural)]
pub struct PriceData {
    pub round_id: u32,
    pub price: Ratio,
    pub median_price: Ratio,
    pub reporter_count: u32,
    pub committed_at: u64,
    pub was_overridden: bool,
}

/// Metadata of a submission: the neuron's hotkey and an optional provider name.
#[derive(Debug, Clone, PartialEq, Eq)]
pub struct PriceSubmissionMetadata {
    pub hot_key: AccountId,
    pub provider: Option<Vec<u8>>,
}

/// One reporter's price for a round.
#[derive(Debug, Clone, PartialEq, Eq)]
pub struct PriceSubmission {
    pub reporter: AccountId,
    pub price: Ratio,
    pub metadata: PriceSubmissionMetadata,
}

/// Summary of a round: its id, reporter count and median (when one can be computed).
#[derive(Debug, Clone, Copy, PartialEq, Eq, Structural)]
pub struct RoundSummary {
    pub round_id: u32,
    pub reporter_count: u32,
    pub median_price: Option<Ratio>,
}

/// The chain's stake record of a submitter (coldkey, hotkey) on the oracle's subnet.
#[derive(Debug, Clone, Copy, PartialEq, Eq, Structural)]
pub enum StakeLookup {
    /// The chain query failed.
    Failed,
    /// No stake record exists.
    Missing,
    /// The record: whether the hotkey is registered, and the alpha stake.
    Found { is_registered: bool, stake: u128 },
}

/// Emitted when a reporter submits (or replaces) a price.
#[derive(Debug, Clone, PartialEq, Eq)]
pub struct PriceSubmitted {
    pub round_id: u32,
    pub reporter: AccountId,
    pub price: Ratio,
    pub metadata: PriceSubmissionMetadata,
    pub replaced_existing: bool,
}

/// Emitted when a round is committed.
#[derive(Debug, Clone, Copy, PartialEq, Eq, Structural)]
pub struct RoundCommitted {
    pub round_id: u32,
    pub committed_price: Ratio,
    pub median_price: Ratio,
    pub reporter_count: u32,
    pub was_overridden: bool,
}

/// Emitted when governance moves.
#[derive(Debug, Clone, Copy, PartialEq, Eq, Structural)]
pub struct OracleGovernanceUpdated {
    pub previous_governance: AccountId,
    pub new_governance: AccountId,
}

/// Emitted when the validator is set or cleared.
#[derive(Debug, Clone, Copy, PartialEq, Eq, Structural)]
pub struct ValidatorUpdated {
    pub validator: Option<AccountId>,
}

/// Emitted when the deviation band changes.
#[derive(Debug, Clone, Copy, PartialEq, Eq, Structural)]
pub struct MaxPriceDeviationUpdated {
    pub max_price_deviation: Ratio,
}

/// Emitted when the subnet changes.
#[derive(Debug, Clone, Copy, PartialEq, Eq, Structural)]
pub struct NetuidUpdated {
    pub netuid: u16,
}

/// Emitted when the minimum submitter stake changes.
#[derive(Debug, Clone, Copy, PartialEq, Eq, Structural)]
pub struct MinSubmitterStakeUpdated {
    pub min_submitter_stake: u128,
}

/// Emitted when the controller changes.
#[derive(Debug, Clone, Copy, PartialEq, Eq, Structural)]
pub struct OracleControllerUpdated {
    pub old_controller: AccountId,
    pub new_controller: AccountId,
}

/// Errors of the oracle.
#[derive(Debug, Clone, Copy, PartialEq, Eq, Structural)]
pub enum Error {
    NotController,
    NotGovernance,
    NotValidator,
    InvalidHotkey,
    NotRegisteredInSubnet,
    InsufficientStake,
    ChainExtensionFailed,
    InvalidPrice,
    NotEnoughSubmissions,
    MedianUnavailable,
    MaxSubmissionsReached,
    PriceDeviationExceeded,
    ArithmeticError,
}

/// The key of `reporter`'s submission in `round`.
pub open spec fn submission_key(round: u32, reporter: AccountId) -> u128 {
    ((round as int) * 0x1_0000_0000_0000_0000 + (reporter as int)) as u128
}

/// The key of the `index`-th reporter of `round`.
pub open spec fn reporter_key(round: u32, index: u32) -> u64 {
    ((round as int) * 0x1_0000_0000 + (index as int)) as u64
}

/// The key of `reporter`'s submission in `round`.
pub fn submission_key_of(round: u32, reporter: AccountId) -> (k: u128)
    ensures
        k == submission_key(round, reporter),
{
    proof {
        assert((round as int) * 0x1_0000_0000_0000_0000 + (reporter as int) <= u128::MAX) by (nonlinear_arith)
            requires 0 <= round <= u32::MAX, 0 <= reporter <= u64::MAX;
    }
    (round as u128) * 0x1_0000_0000_0000_0000u128 + (reporter as u128)
}

/// The key of the `index`-th reporter of `round`.
pub fn reporter_key_of(round: u32, index: u32) -> (k: u64)
    ensures
        k == reporter_key(round, index),
{
    proof {
        assert((round as int) * 0x1_0000_0000 + (index as int) <= u64::MAX) by (nonlinear_arith)
            requires 0 <= round <= u32::MAX, 0 <= index <= u32::MAX;
    }
    (round as u64) * 0x1_0000_0000u64 + (index as u64)
}

/// What a stored submission holds, as plain values.
pub struct SubmissionView {
    pub reporter: AccountId,
    pub price: Ratio,
    pub hot_key: AccountId,
    pub provider: Option<Seq<u8>>,
}

/// The plain values of a submission.
pub open spec fn submission_view(s: PriceSubmission) -> SubmissionView {
    SubmissionView {
        reporter: s.reporter,
        price: s.price,
        hot_key: s.metadata.hot_key,
        provider: match s.metadata.provider { Some(p) => Some(p@), None => None },
    }
}

/// Oracle storage.
pub struct TusdtOracle {
    pub controller: AccountId,
    pub governance: AccountId,
    /// The subnet whose registered neurons may submit.
    pub netuid: u16,
    pub min_submitter_stake: u128,
    pub validator: Option<AccountId>,
    /// The open round; it is also the number of committed rounds.
    pub current_round_id: u32,
    /// Submissions by `submission_key(round, reporter)`.
    pub round_submissions: HashMap<u128, PriceSubmission>,
    /// Distinct reporters per round.
    pub round_reporter_count: HashMap<u32, u32>,
    /// Reporters by `reporter_key(round, index)`, in submission order.
    pub round_reporters: HashMap<u64, AccountId>,
    pub committed_round_prices: HashMap<u32, PriceData>,
    pub latest_price: Option<PriceData>,
    pub max_price_deviation: Ratio,
}

/// The abstract state of the oracle.
pub struct OracleView {
    pub controller: AccountId,
    pub governance: AccountId,
    pub netuid: u16,
    pub min_submitter_stake: u128,
    pub validator: Option<AccountId>,
    pub current_round_id: u32,
    pub round_submissions: Map<u128, SubmissionView>,
    pub round_reporter_count: Map<u32, u32>,
    pub round_reporters: Map<u64, AccountId>,
    pub committed_round_prices: Map<u32, PriceData>,
    pub latest_price: Option<PriceData>,
    pub max_price_deviation: Ratio,
}

impl View for TusdtOracle {
    type V = OracleView;

    open spec fn view(&self) -> OracleView {
        OracleView {
            controller: self.controller,
            governance: self.governance,
            netuid: self.netuid,
            min_submitter_stake: self.min_submitter_stake,
            validator: self.validator,
            current_round_id: self.current_round_id,
            round_submissions: self.round_submissions@.map_values(|s: PriceSubmission| submission_view(s)),
            round_reporter_count: self.round_reporter_count@,
            round_reporters: self.round_reporters@,
            committed_round_prices: self.committed_round_prices@,
            latest_price: self.latest_price,
            max_price_deviation: self.max_price_deviation,
        }
    }
}

impl OracleView {
    /// The number of distinct reporters of `round` (0 when none).
    pub open spec fn reporter_count(self, round: u32) -> u32 {
        if self.round_reporter_count.contains_key(round) { self.round_reporter_count[round] } else { 0 }
    }
}

/// The prices of `round`'s reporters from index `i` on, appended to `acc`; `None` when an
/// index or a submission is missing.
pub open spec fn prices_from(v: OracleView, round: u32, i: int, count: int, acc: Seq<u128>) -> Option<Seq<u128>>
    decreases count - i,
{
    if i >= count {
        Some(acc)
    } else if !v.round_reporters.contains_key(reporter_key(round, i as u32)) {
        None
    } else {
        let reporter = v.round_reporters[reporter_key(round, i as u32)];
        if !v.round_submissions.contains_key(submission_key(round, reporter)) {
            None
        } else {
            prices_from(v, round, i + 1, count, acc.push(v.round_submissions[submission_key(round, reporter)].price.inner))
        }
    }
}

/// The ascending order on prices.
pub open spec fn price_le() -> spec_fn(u128, u128) -> bool {
    |a: u128, b: u128| a <= b
}

/// The median of ascending prices: the middle one, or the floored mean of the middle two;
/// `None` without prices.
pub open spec fn median_of_sorted(t: Seq<u128>) -> Result<Option<u128>, Error> {
    if t.len() == 0 {
        Ok(None)
    } else if t.len() % 2 == 1 {
        Ok(Some(t[(t.len() / 2) as int]))
    } else {
        let lo = t[t.len() / 2 - 1];
        let hi = t[(t.len() / 2) as int];
        if lo + hi > u128::MAX { Err(Error::ArithmeticError) } else { Ok(Some(((lo + hi) / 2) as u128)) }
    }
}

/// The median of `round`'s submitted prices: `None` without reporters, `MedianUnavailable` when
/// a submission is missing.
pub open spec fn round_median(v: OracleView, round: u32) -> Result<Option<u128>, Error> {
    let count = v.reporter_count(round);
    if count == 0 {
        Ok(None)
    } else {
        match prices_from(v, round, 0, count as int, Seq::empty()) {
            None => Err(Error::MedianUnavailable),
            Some(ps) => median_of_sorted(ps.sort_by(price_le())),
        }
    }
}

/// Whether `candidate` is within `max_price_deviation` of the latest committed price (always
/// when there is none or it is zero); `None` when the band overflows.
pub open spec fn within_deviation(v: OracleView, candidate: Ratio) -> Option<bool> {
    match v.latest_price {
        None => Some(true),
        Some(latest) => if latest.price.inner == 0 {
            Some(true)
        } else if latest.price.inner * v.max_price_deviation.inner > u128::MAX {
            None
        } else {
            let diff = if candidate.inner >= latest.price.inner { candidate.inner - latest.price.inner } else { latest.price.inner - candidate.inner };
            Some(diff <= mul_floor(latest.price.inner as int, v.max_price_deviation.inner as int))
        },
    }
}

/// The oracle after committing the open round at `price`, and the committed data.
pub open spec fn finalized(v: OracleView, price: Ratio, median: Ratio, now: u64, was_overridden: bool) -> (OracleView, PriceData) {
    let pd = PriceData {
        round_id: v.current_round_id,
        price,
        median_price: median,
        reporter_count: v.reporter_count(v.current_round_id),
        committed_at: now,
        was_overridden,
    };
    (
        OracleView {
            committed_round_prices: v.committed_round_prices.insert(v.current_round_id, pd),
            latest_price: Some(pd),
            current_round_id: (v.current_round_id + 1) as u32,
            ..v
        },
        pd,
    )
}

/// The event of a commit.
pub open spec fn committed_event(pd: PriceData) -> RoundCommitted {
    RoundCommitted {
        round_id: pd.round_id,
        committed_price: pd.price,
        median_price: pd.median_price,
        reporter_count: pd.reporter_count,
        was_overridden: pd.was_overridden,
    }
}

/// The outcome of a validator commit of the open round (at the median, or at `override_price`).
pub open spec fn commit_spec(v: OracleView, caller: AccountId, now: u64, override_price: Option<Ratio>) -> Result<(OracleView, PriceData), Error> {
    let count = v.reporter_count(v.current_round_id);
    if v.validator != Some(caller) {
        Err(Error::NotValidator)
    } else {
        match round_median(v, v.current_round_id) {
            Err(e) => Err(e),
            Ok(median) => {
                let chosen: Result<(Ratio, Ratio, bool), Error> = match override_price {
                    Some(p) => if p.inner == 0 {
                        Err(Error::InvalidPrice)
                    } else {
                        Ok((p, match median { Some(m) => Ratio { inner: m }, None => p }, true))
                    },
                    None => if count < MIN_REPORTERS {
                        Err(Error::NotEnoughSubmissions)
                    } else {
                        match median {
                            None => Err(Error::MedianUnavailable),
                            Some(m) => Ok((Ratio { inner: m }, Ratio { inner: m }, false)),
                        }
                    },
                };
                match chosen {
                    Err(e) => Err(e),
                    Ok((price, med, over)) => match within_deviation(v, price) {
                        None => Err(Error::ArithmeticError),
                        Some(false) => Err(Error::PriceDeviationExceeded),
                        Some(true) => if v.current_round_id == u32::MAX {
                            Err(Error::ArithmeticError)
                        } else {
                            Ok(finalized(v, price, med, now, over))
                        },
                    },
                }
            },
        }
    }
}

/// The outcome of a governance commit of the open round at `price`.
pub open spec fn commit_governance_spec(v: OracleView, caller: AccountId, now: u64, price: Ratio) -> Result<(OracleView, PriceData), Error> {
    if caller != v.governance {
        Err(Error::NotGovernance)
    } else if price.inner == 0 {
        Err(Error::InvalidPrice)
    } else {
        match round_median(v, v.current_round_id) {
            Err(e) => Err(e),
            Ok(median) => if v.current_round_id == u32::MAX {
                Err(Error::ArithmeticError)
            } else {
                Ok(finalized(v, price, match median { Some(m) => Ratio { inner: m }, None => price }, now, true))
            },
        }
    }
}

/// The newest-first rounds shown on a history page: offsets `[start, end)` below the latest
/// committed round, skipping rounds without a record.
pub open spec fn history_from(v: OracleView, latest: int, offset: int, end: int, acc: Seq<PriceData>) -> Seq<PriceData>
    decreases end - offset,
{
    if offset >= end {
        acc
    } else {
        let round = latest - offset;
        let next = if round >= 0 && v.committed_round_prices.contains_key(round as u32) {
            acc.push(v.committed_round_prices[round as u32])
        } else {
            acc
        };
        history_from(v, latest, offset + 1, end, next)
    }
}

/// The history page `page` (newest first, [`HISTORY_PAGE_SIZE`] rounds per page).
pub open spec fn history_page(v: OracleView, page: u32) -> Seq<PriceData> {
    let total = v.current_round_id as int;
    let start = if page * HISTORY_PAGE_SIZE > u32::MAX { u32::MAX as int } else { page * HISTORY_PAGE_SIZE };
    let stop = if start + HISTORY_PAGE_SIZE > u32::MAX { u32::MAX as int } else { start + HISTORY_PAGE_SIZE };
    if total == 0 || start >= total {
        Seq::empty()
    } else {
        history_from(v, total - 1, start, if stop <= total { stop } else { total }, Seq::empty())
    }
}

/// The submissions of `round` from reporter index `i` on, in order, skipping inconsistent
/// entries.
pub open spec fn submissions_from(v: OracleView, round: u32, i: int, count: int, acc: Seq<SubmissionView>) -> Seq<SubmissionView>
    decreases count - i,
{
    if i >= count {
        acc
    } else {
        let next = if v.round_reporters.contains_key(reporter_key(round, i as u32))
            && v.round_submissions.contains_key(submission_key(round, v.round_reporters[reporter_key(round, i as u32)])) {
            acc.push(v.round_submissions[submission_key(round, v.round_reporters[reporter_key(round, i as u32)])])
        } else {
            acc
        };
        submissions_from(v, round, i + 1, count, next)
    }
}

/// Copies a byte string.
fn copy_bytes(b: &Vec<u8>) -> (r: Vec<u8>)
    ensures
        r@ == b@,
{
    let mut out: Vec<u8> = Vec::new();
    let mut i: usize = 0;
    while i < b.len()
        invariant
            i <= b.len(),
            out@ == b@.take(i as int),
        decreases b.len() - i,
    {
        out.push(b[i]);
        i = i + 1;
        assert(out@ =~= b@.take(i as int));
    }
    assert(b@.take(b.len() as int) =~= b@);
    out
}

/// Copies submission metadata.
pub fn copy_metadata(m: &PriceSubmissionMetadata) -> (r: PriceSubmissionMetadata)
    ensures
        r.hot_key == m.hot_key,
        r.provider is Some <==> m.provider is Some,
        r.provider matches Some(p) ==> p@ == m.provider->Some_0@,
{
    PriceSubmissionMetadata {
        hot_key: m.hot_key,
        provider: match &m.provider {
            Some(p) => Some(copy_bytes(p)),
            None => None,
        },
    }
}

/// Copies a submission.
pub fn copy_submission(s: &PriceSubmission) -> (r: PriceSubmission)
    ensures
        submission_view(r) == submission_view(*s),
{
    PriceSubmission { reporter: s.reporter, price: s.price, metadata: copy_metadata(&s.metadata) }
}

proof fn lemma_price_le_total()
    ensures
        total_ordering(price_le()),
{
}

/// Sorts prices ascending.
fn sort_prices(s: &Vec<u128>) -> (r: Vec<u128>)
    ensures
        r@ == s@.sort_by(price_le()),
        r@.len() == s@.len(),
{
    broadcast use vstd::seq_lib::group_to_multiset_ensures;
    let mut out: Vec<u128> = Vec::new();
    let mut i: usize = 0;
    assert(s@.take(0) =~= out@);
    while i < s.len()
        invariant
            i <= s.len(),
            sorted_by(out@, price_le()),
            out@.to_multiset() == s@.take(i as int).to_multiset(),
        decreases s.len() - i,
    {
        let x = s[i];
        let mut j: usize = 0;
        while j < out.len() && out[j] <= x
            invariant
                j <= out.len(),
                forall|k: int| 0 <= k < j ==> out@[k] <= x,
            decreases out.len() - j,
        {
            j = j + 1;
        }
        let ghost before = out@;
        out.insert(j, x);
        proof {
            vstd::seq_lib::to_multiset_insert(before, j as int, x);
            assert(s@.take(i + 1) =~= s@.take(i as int).push(x));
            vstd::seq_lib::to_multiset_build(s@.take(i as int), x);
            assert forall|a: int, b: int| 0 <= a < b < out@.len() implies #[trigger] (price_le())(out@[a], out@[b]) by {
                if b < j {
                    assert(out@[a] == before[a] && out@[b] == before[b]);
                } else if b == j {
                    assert(out@[a] == before[a]);
                } else if a == j {
                    assert(out@[b] == before[b - 1]);
                    if b - 1 > j {
                        assert((price_le())(before[j as int], before[b - 1]));
                    }
                } else if a < j {
                    assert(out@[a] == before[a] && out@[b] == before[b - 1]);
                } else {
                    assert(out@[a] == before[a - 1] && out@[b] == before[b - 1]);
                }
            }
        }
        i = i + 1;
    }
    assert(s@.take(s.len() as int) =~= s@);
    proof {
        lemma_price_le_total();
        s@.lemma_sort_by_ensures(price_le());
        vstd::seq_lib::lemma_sorted_unique(out@, s@.sort_by(price_le()), price_le());
        vstd::seq_lib::to_multiset_len(out@);
        vstd::seq_lib::to_multiset_len(s@);
    }
    out
}

impl TusdtOracle {
    /// Fails with `NotController` unless `caller` is the controller.
    fn ensure_controller(&self, caller: AccountId) -> (r: Result<(), Error>)
        ensures
            r is Ok <==> caller == self.controller,
            r matches Err(e) ==> e == Error::NotController,
    {
        if !(caller == self.controller) {
            return Err(Error::NotController);
        }
        Ok(())
    }

    /// Fails with `NotGovernance` unless `caller` is governance.
    fn ensure_governance(&self, caller: AccountId) -> (r: Result<(), Error>)
        ensures
            r is Ok <==> caller == self.governance,
            r matches Err(e) ==> e == Error::NotGovernance,
    {
        if !(caller == self.governance) {
            return Err(Error::NotGovernance);
        }
        Ok(())
    }

    /// Fails with `NotValidator` unless `caller` is the validator.
    fn ensure_validator(&self, caller: AccountId) -> (r: Result<(), Error>)
        ensures
            r is Ok <==> self.validator == Some(caller),
            r matches Err(e) ==> e == Error::NotValidator,
    {
        if !(self.validator == Some(caller)) {
            return Err(Error::NotValidator);
        }
        Ok(())
    }

    /// An oracle with the given controller and governance, reading reporters from subnet
    /// `netuid`; no validator, round 0 open, a 10% deviation band.
    pub fn new(controller: AccountId, governance: AccountId, netuid: u16) -> (o: TusdtOracle)
        ensures
            o@ == (OracleView {
                controller,
                governance,
                netuid,
                min_submitter_stake: DEFAULT_MIN_SUBMITTER_STAKE,
                validator: None,
                current_round_id: 0,
                round_submissions: Map::empty(),
                round_reporter_count: Map::empty(),
                round_reporters: Map::empty(),
                committed_round_prices: Map::empty(),
                latest_price: None,
                max_price_deviation: Ratio { inner: (DEFAULT_MAX_PRICE_DEVIATION_BASIS_POINTS * RATIO_BPS) as u128 },
            }),
    {
        let o = TusdtOracle {
            controller,
            governance,
            netuid,
            min_submitter_stake: DEFAULT_MIN_SUBMITTER_STAKE,
            validator: None,
            current_round_id: 0,
            round_submissions: HashMap::new(),
            round_reporter_count: HashMap::new(),
            round_reporters: HashMap::new(),
            committed_round_prices: HashMap::new(),
            latest_price: None,
            max_price_deviation: Ratio::from_basis_points(DEFAULT_MAX_PRICE_DEVIATION_BASIS_POINTS),
        };
        assert(o@.round_submissions =~= Map::<u128, SubmissionView>::empty());
        o
    }

    fn reporter_count_of(&self, round: u32) -> (c: u32)
        ensures
            c == self@.reporter_count(round),
    {
        match self.round_reporter_count.get(&round) {
            Some(c) => *c,
            None => 0,
        }
    }

    /// Submits or replaces `caller`'s price for the open round. The caller (a coldkey) names
    /// the hotkey of its neuron in `metadata`; `stake` is the chain's stake record for that
    /// (hotkey, caller) pair on the oracle's subnet.
    pub fn submit_price(&mut self, caller: AccountId, price: Ratio, metadata: PriceSubmissionMetadata, stake: StakeLookup) -> (r: Result<PriceSubmitted, Error>)
        ensures
            ({
                let v = old(self)@;
                let round = v.current_round_id;
                let replaced = v.round_submissions.contains_key(submission_key(round, caller));
                let count = v.reporter_count(round);
                let sub = SubmissionView {
                    reporter: caller,
                    price,
                    hot_key: metadata.hot_key,
                    provider: match metadata.provider { Some(p) => Some(p@), None => None },
                };
                if metadata.hot_key == 0 {
                    r == Err::<PriceSubmitted, Error>(Error::InvalidHotkey) && final(self)@ == v
                } else if stake == StakeLookup::Failed {
                    r == Err::<PriceSubmitted, Error>(Error::ChainExtensionFailed) && final(self)@ == v
                } else if stake == StakeLookup::Missing || (stake matches StakeLookup::Found { is_registered, .. } && !is_registered) {
                    r == Err::<PriceSubmitted, Error>(Error::NotRegisteredInSubnet) && final(self)@ == v
                } else if stake matches StakeLookup::Found { stake: amount, .. } && amount <= v.min_submitter_stake {
                    r == Err::<PriceSubmitted, Error>(Error::InsufficientStake) && final(self)@ == v
                } else if price.inner == 0 {
                    r == Err::<PriceSubmitted, Error>(Error::InvalidPrice) && final(self)@ == v
                } else if !replaced && count >= MAX_ROUND_SUBMISSIONS {
                    r == Err::<PriceSubmitted, Error>(Error::MaxSubmissionsReached) && final(self)@ == v
                } else {
                    &&& r matches Ok(ev) && ev.round_id == round && ev.reporter == caller && ev.price == price
                        && ev.replaced_existing == replaced && ev.metadata.hot_key == metadata.hot_key
                        && (ev.metadata.provider is Some <==> metadata.provider is Some)
                        && (ev.metadata.provider matches Some(p) ==> p@ == metadata.provider->Some_0@)
                    &&& final(self)@ == (if replaced {
                        OracleView { round_submissions: v.round_submissions.insert(submission_key(round, caller), sub), ..v }
                    } else {
                        OracleView {
                            round_submissions: v.round_submissions.insert(submission_key(round, caller), sub),
                            round_reporters: v.round_reporters.insert(reporter_key(round, count), caller),
                            round_reporter_count: v.round_reporter_count.insert(round, (count + 1) as u32),
                            ..v
                        }
                    })
                }
            }),
    {
        if metadata.hot_key == 0 {
            return Err(Error::InvalidHotkey);
        }
        let amount = match stake {
            StakeLookup::Failed => return Err(Error::ChainExtensionFailed),
            StakeLookup::Missing => return Err(Error::NotRegisteredInSubnet),
            StakeLookup::Found { is_registered, stake } => {
                if !is_registered {
                    return Err(Error::NotRegisteredInSubnet);
                }
                stake
            },
        };
        if amount <= self.min_submitter_stake {
            return Err(Error::InsufficientStake);
        }
        if price.is_zero() {
            return Err(Error::InvalidPrice);
        }
        let round = self.current_round_id;
        let key = submission_key_of(round, caller);
        let replaced = self.round_submissions.get(&key).is_some();
        if !replaced {
            let count = self.reporter_count_of(round);
            if count >= MAX_ROUND_SUBMISSIONS {
                return Err(Error::MaxSubmissionsReached);
            }
            self.round_reporters.insert(reporter_key_of(round, count), caller);
            self.round_reporter_count.insert(round, count + 1);
        }
        let stored = PriceSubmission { reporter: caller, price, metadata: copy_metadata(&metadata) };
        let ghost mid = self.round_submissions@;
        self.round_submissions.insert(key, stored);
        proof {
            assert(self@.round_submissions =~= old(self)@.round_submissions.insert(submission_key(round, caller), submission_view(stored)));
        }
        Ok(PriceSubmitted { round_id: round, reporter: caller, price, metadata, replaced_existing: replaced })
    }

    /// The median of `round`'s submitted prices, as [`round_median`] states.
    pub fn compute_round_median(&self, round: u32) -> (r: Result<Option<Ratio>, Error>)
        ensures
            match round_median(self@, round) {
                Ok(Some(m)) => r == Ok::<Option<Ratio>, Error>(Some(Ratio { inner: m })),
                Ok(None) => r == Ok::<Option<Ratio>, Error>(None),
                Err(e) => r == Err::<Option<Ratio>, Error>(e),
            },
    {
        let count = self.reporter_count_of(round);
        if count == 0 {
            return Ok(None);
        }
        let mut prices: Vec<u128> = Vec::new();
        let mut i: u32 = 0;
        while i < count
            invariant
                i <= count,
                count == self@.reporter_count(round),
                prices@.len() == i,
                prices_from(self@, round, 0, count as int, Seq::empty()) == prices_from(self@, round, i as int, count as int, prices@),
            decreases count - i,
        {
            let reporter = match self.round_reporters.get(&reporter_key_of(round, i)) {
                Some(a) => *a,
                None => return Err(Error::MedianUnavailable),
            };
            let price = match self.round_submissions.get(&submission_key_of(round, reporter)) {
                Some(s) => s.price.inner,
                None => return Err(Error::MedianUnavailable),
            };
            prices.push(price);
            i = i + 1;
        }
        let t = sort_prices(&prices);
        let n = t.len();
        let mid = n / 2;
        if n % 2 == 1 {
            return Ok(Some(Ratio::from_inner(t[mid])));
        }
        let lo = t[mid - 1];
        let hi = t[mid];
        match lo.checked_add(hi) {
            Some(s) => Ok(Some(Ratio::from_inner(s / 2))),
            None => Err(Error::ArithmeticError),
        }
    }

    /// Whether `candidate` is within the deviation band of the latest price, as
    /// [`within_deviation`] states (`ArithmeticError` when the band overflows).
    pub fn ensure_within_deviation(&self, candidate: Ratio) -> (r: Result<(), Error>)
        ensures
            match within_deviation(self@, candidate) {
                None => r == Err::<(), Error>(Error::ArithmeticError),
                Some(true) => r is Ok,
                Some(false) => r == Err::<(), Error>(Error::PriceDeviationExceeded),
            },
    {
        let latest = match self.latest_price {
            Some(l) => l,
            None => return Ok(()),
        };
        if latest.price.is_zero() {
            return Ok(());
        }
        let diff = candidate.abs_diff(latest.price);
        let max_diff = match latest.price.checked_mul(self.max_price_deviation) {
            Some(m) => m,
            None => return Err(Error::ArithmeticError),
        };
        if diff.inner > max_diff.inner {
            return Err(Error::PriceDeviationExceeded);
        }
        Ok(())
    }

    fn finalize_round(&mut self, now: u64, price: Ratio, median: Ratio, was_overridden: bool) -> (r: Result<(PriceData, RoundCommitted), Error>)
        ensures
            old(self).current_round_id == u32::MAX ==> r == Err::<(PriceData, RoundCommitted), Error>(Error::ArithmeticError) && final(self)@ == old(self)@,
            old(self).current_round_id < u32::MAX ==> {
                let (v2, pd) = finalized(old(self)@, price, median, now, was_overridden);
                r == Ok::<(PriceData, RoundCommitted), Error>((pd, committed_event(pd))) && final(self)@ == v2
            },
    {
        let round = self.current_round_id;
        if round == u32::MAX {
            return Err(Error::ArithmeticError);
        }
        let pd = PriceData {
            round_id: round,
            price,
            median_price: median,
            reporter_count: self.reporter_count_of(round),
            committed_at: now,
            was_overridden,
        };
        self.committed_round_prices.insert(round, pd);
        self.latest_price = Some(pd);
        self.current_round_id = round + 1;
        Ok((pd, RoundCommitted {
            round_id: round,
            committed_price: price,
            median_price: median,
            reporter_count: pd.reporter_count,
            was_overridden,
        }))
    }

    /// Commits the open round at the median of its submissions (at least [`MIN_REPORTERS`]), or
    /// at `override_price`, as [`commit_spec`] states. Validator only; the price must stay within
    /// the deviation band of the latest one.
    pub fn commit_round(&mut self, caller: AccountId, now: u64, override_price: Option<Ratio>) -> (r: Result<(PriceData, RoundCommitted), Error>)
        ensures
            match commit_spec(old(self)@, caller, now, override_price) {
                Ok((v, pd)) => r == Ok::<(PriceData, RoundCommitted), Error>((pd, committed_event(pd))) && final(self)@ == v,
                Err(e) => r == Err::<(PriceData, RoundCommitted), Error>(e) && final(self)@ == old(self)@,
            },
    {
        match self.ensure_validator(caller) {
            Ok(()) => {},
            Err(e) => return Err(e),
        }
        let round = self.current_round_id;
        let count = self.reporter_count_of(round);
        let median = match self.compute_round_median(round) {
            Ok(m) => m,
            Err(e) => return Err(e),
        };
        let (price, med, over) = match override_price {
            Some(p) => {
                if p.is_zero() {
                    return Err(Error::InvalidPrice);
                }
                (p, match median { Some(m) => m, None => p }, true)
            },
            None => {
                if count < MIN_REPORTERS {
                    return Err(Error::NotEnoughSubmissions);
                }
                match median {
                    Some(m) => (m, m, false),
                    None => return Err(Error::MedianUnavailable),
                }
            },
        };
        match self.ensure_within_deviation(price) {
            Ok(()) => {},
            Err(e) => return Err(e),
        }
        self.finalize_round(now, price, med, over)
    }

    /// Commits the open round at `price`, bypassing the quorum and the deviation band, as
    /// [`commit_governance_spec`] states. Governance only.
    pub fn commit_round_governance(&mut self, caller: AccountId, now: u64, price: Ratio) -> (r: Result<(PriceData, RoundCommitted), Error>)
        ensures
            match commit_governance_spec(old(self)@, caller, now, price) {
                Ok((v, pd)) => r == Ok::<(PriceData, RoundCommitted), Error>((pd, committed_event(pd))) && final(self)@ == v,
                Err(e) => r == Err::<(PriceData, RoundCommitted), Error>(e) && final(self)@ == old(self)@,
            },
    {
        match self.ensure_governance(caller) {
            Ok(()) => {},
            Err(e) => return Err(e),
        }
        if price.is_zero() {
            return Err(Error::InvalidPrice);
        }
        let round = self.current_round_id;
        let median = match self.compute_round_median(round) {
            Ok(m) => m,
            Err(e) => return Err(e),
        };
        let med = match median {
            Some(m) => m,
            None => price,
        };
        self.finalize_round(now, price, med, true)
    }

    /// Sets the subnet whose neurons may submit. Governance only.
    pub fn set_netuid(&mut self, caller: AccountId, netuid: u16) -> (r: Result<NetuidUpdated, Error>)
        ensures
            caller != old(self).governance ==> r == Err::<NetuidUpdated, Error>(Error::NotGovernance) && final(self)@ == old(self)@,
            caller == old(self).governance ==> r == Ok::<NetuidUpdated, Error>(NetuidUpdated { netuid }) && final(self)@ == (OracleView { netuid, ..old(self)@ }),
    {
        match self.ensure_governance(caller) {
            Ok(()) => {},
            Err(e) => return Err(e),
        }
        self.netuid = netuid;
        Ok(NetuidUpdated { netuid })
    }

    /// Sets the minimum submitter stake. Governance only.
    pub fn set_min_submitter_stake(&mut self, caller: AccountId, min_stake: u128) -> (r: Result<MinSubmitterStakeUpdated, Error>)
        ensures
            caller != old(self).governance ==> r == Err::<MinSubmitterStakeUpdated, Error>(Error::NotGovernance) && final(self)@ == old(self)@,
            caller == old(self).governance ==> r == Ok::<MinSubmitterStakeUpdated, Error>(MinSubmitterStakeUpdated { min_submitter_stake: min_stake })
                && final(self)@ == (OracleView { min_submitter_stake: min_stake, ..old(self)@ }),
    {
        match self.ensure_governance(caller) {
            Ok(()) => {},
            Err(e) => return Err(e),
        }
        self.min_submitter_stake = min_stake;
        Ok(MinSubmitterStakeUpdated { min_submitter_stake: min_stake })
    }

    /// Sets or clears the validator. Governance only.
    pub fn set_validator(&mut self, caller: AccountId, validator: Option<AccountId>) -> (r: Result<ValidatorUpdated, Error>)
        ensures
            caller != old(self).governance ==> r == Err::<ValidatorUpdated, Error>(Error::NotGovernance) && final(self)@ == old(self)@,
            caller == old(self).governance ==> r == Ok::<ValidatorUpdated, Error>(ValidatorUpdated { validator }) && final(self)@ == (OracleView { validator, ..old(self)@ }),
    {
        match self.ensure_governance(caller) {
            Ok(()) => {},
            Err(e) => return Err(e),
        }
        self.validator = validator;
        Ok(ValidatorUpdated { validator })
    }

    /// Sets the deviation band. Governance only.
    pub fn set_max_price_deviation(&mut self, caller: AccountId, max_price_deviation: Ratio) -> (r: Result<MaxPriceDeviationUpdated, Error>)
        ensures
            caller != old(self).governance ==> r == Err::<MaxPriceDeviationUpdated, Error>(Error::NotGovernance) && final(self)@ == old(self)@,
            caller == old(self).governance ==> r == Ok::<MaxPriceDeviationUpdated, Error>(MaxPriceDeviationUpdated { max_price_deviation })
                && final(self)@ == (OracleView { max_price_deviation, ..old(self)@ }),
    {
        match self.ensure_governance(caller) {
            Ok(()) => {},
            Err(e) => return Err(e),
        }
        self.max_price_deviation = max_price_deviation;
        Ok(MaxPriceDeviationUpdated { max_price_deviation })
    }

    /// Transfers governance. Controller only.
    pub fn update_governance(&mut self, caller: AccountId, new_governance: AccountId) -> (r: Result<OracleGovernanceUpdated, Error>)
        ensures
            caller != old(self).controller ==> r == Err::<OracleGovernanceUpdated, Error>(Error::NotController) && final(self)@ == old(self)@,
            caller == old(self).controller ==> r == Ok::<OracleGovernanceUpdated, Error>(OracleGovernanceUpdated { previous_governance: old(self).governance, new_governance })
                && final(self)@ == (OracleView { governance: new_governance, ..old(self)@ }),
    {
        match self.ensure_controller(caller) {
            Ok(()) => {},
            Err(e) => return Err(e),
        }
        let previous_governance = self.governance;
        self.governance = new_governance;
        Ok(OracleGovernanceUpdated { previous_governance, new_governance })
    }

    /// Transfers the controller role. Governance only.
    pub fn set_controller(&mut self, caller: AccountId, new_controller: AccountId) -> (r: Result<OracleControllerUpdated, Error>)
        ensures
            caller != old(self).governance ==> r == Err::<OracleControllerUpdated, Error>(Error::NotGovernance) && final(self)@ == old(self)@,
            caller == old(self).governance ==> r == Ok::<OracleControllerUpdated, Error>(OracleControllerUpdated { old_controller: old(self).controller, new_controller })
                && final(self)@ == (OracleView { controller: new_controller, ..old(self)@ }),
    {
        match self.ensure_governance(caller) {
            Ok(()) => {},
            Err(e) => return Err(e),
        }
        let old_controller = self.controller;
        self.controller = new_controller;
        Ok(OracleControllerUpdated { old_controller, new_controller })
    }

    /// The latest committed price.
    pub fn get_latest_price(&self) -> (r: Option<PriceData>)
        ensures
            r == self.latest_price,
    {
        self.latest_price
    }

    /// The committed price of `round_id`.
    pub fn get_round_price(&self, round_id: u32) -> (r: Option<PriceData>)
        ensures
            r == (if self@.committed_round_prices.contains_key(round_id) { Some(self@.committed_round_prices[round_id]) } else { None }),
    {
        match self.committed_round_prices.get(&round_id) {
            Some(p) => Some(*p),
            None => None,
        }
    }

    /// The number of committed rounds.
    pub fn get_price_history_count(&self) -> (r: u32)
        ensures
            r == self.current_round_id,
    {
        self.current_round_id
    }

    /// A page of committed prices, newest first, as [`history_page`] states.
    pub fn get_price_history(&self, page: u32) -> (r: Vec<PriceData>)
        ensures
            r@ == history_page(self@, page),
    {
        let total = self.current_round_id;
        if total == 0 {
            return Vec::new();
        }
        let latest = total - 1;
        assert((page as u64) * 10 <= u64::MAX) by (nonlinear_arith)
            requires page <= u32::MAX;
        let prod: u64 = (page as u64) * (HISTORY_PAGE_SIZE as u64);
        let start: u32 = if prod > u32::MAX as u64 { u32::MAX } else { prod as u32 };
        if start >= total {
            return Vec::new();
        }
        let stop = start.saturating_add(HISTORY_PAGE_SIZE);
        let end = if stop <= total { stop } else { total };
        let mut history: Vec<PriceData> = Vec::new();
        let mut offset = start;
        while offset < end
            invariant
                start <= offset <= end <= total,
                latest == total - 1,
                total == self.current_round_id,
                history_page(self@, page) == history_from(self@, latest as int, offset as int, end as int, history@),
            decreases end - offset,
        {
            let round = latest - offset;
            match self.committed_round_prices.get(&round) {
                Some(p) => history.push(*p),
                None => {},
            }
            offset = offset + 1;
        }
        history
    }

    /// The submissions of `round_id` in submission order, as [`submissions_from`] states.
    pub fn get_round_submissions(&self, round_id: u32) -> (r: Vec<PriceSubmission>)
        ensures
            r@.map_values(|s: PriceSubmission| submission_view(s))
                == submissions_from(self@, round_id, 0, self@.reporter_count(round_id) as int, Seq::empty()),
    {
        let count = self.reporter_count_of(round_id);
        let mut out: Vec<PriceSubmission> = Vec::new();
        let mut i: u32 = 0;
        assert(out@.map_values(|s: PriceSubmission| submission_view(s)) =~= Seq::<SubmissionView>::empty());
        while i < count
            invariant
                i <= count,
                count == self@.reporter_count(round_id),
                submissions_from(self@, round_id, 0, count as int, Seq::empty())
                    == submissions_from(self@, round_id, i as int, count as int, out@.map_values(|s: PriceSubmission| submission_view(s))),
            decreases count - i,
        {
            let ghost before = out@;
            match self.round_reporters.get(&reporter_key_of(round_id, i)) {
                Some(reporter) => {
                    match self.round_submissions.get(&submission_key_of(round_id, *reporter)) {
                        Some(s) => {
                            out.push(copy_submission(s));
                            assert(out@.map_values(|s: PriceSubmission| submission_view(s))
                                =~= before.map_values(|s: PriceSubmission| submission_view(s)).push(submission_view(*s)));
                        },
                        None => {},
                    }
                },
                None => {},
            }
            i = i + 1;
        }
        out
    }

    /// The open round's id, reporter count and median (`None` when it cannot be computed).
    pub fn get_current_round_summary(&self) -> (r: RoundSummary)
        ensures
            r.round_id == self.current_round_id,
            r.reporter_count == self@.reporter_count(self.current_round_id),
            r.median_price == (match round_median(self@, self.current_round_id) {
                Ok(Some(m)) => Some(Ratio { inner: m }),
                _ => None,
            }),
    {
        let round = self.current_round_id;
        let median = match self.compute_round_median(round) {
            Ok(m) => m,
            Err(_) => None,
        };
        RoundSummary { round_id: round, reporter_count: self.reporter_count_of(round), median_price: median }
    }

    /// The controller account.
    pub fn controller(&self) -> (r: AccountId)
        ensures
            r == self.controller,
    {
        self.controller
    }

    /// The governance account.
    pub fn governance(&self) -> (r: AccountId)
        ensures
            r == self.governance,
    {
        self.governance
    }

    /// The validator, if configured.
    pub fn validator(&self) -> (r: Option<AccountId>)
        ensures
            r == self.validator,
    {
        self.validator
    }

    /// The open round.
    pub fn current_round_id(&self) -> (r: u32)
        ensures
            r == self.current_round_id,
    {
        self.current_round_id
    }

    /// The cap on distinct reporters per round.
    pub fn max_round_submissions(&self) -> (r: u32)
        ensures
            r == MAX_ROUND_SUBMISSIONS,
    {
        MAX_ROUND_SUBMISSIONS
    }

    /// The deviation band.
    pub fn max_price_deviation(&self) -> (r: Ratio)
        ensures
            r == self.max_price_deviation,
    {
        self.max_price_deviation
    }

    /// The subnet whose neurons may submit.
    pub fn get_netuid(&self) -> (r: u16)
        ensures
            r == self.netuid,
    {
        self.netuid
    }

    /// The minimum submitter stake.
    pub fn min_submitter_stake(&self) -> (r: u128)
        ensures
            r == self.min_submitter_stake,
    {
        self.min_submitter_stake
    }
}

/// The median of a round lies between the smallest and the largest price submitted.
pub proof fn law_median_between_extremes(ps: Seq<u128>)
    requires
        median_of_sorted(ps.sort_by(price_le())) is Ok,
        median_of_sorted(ps.sort_by(price_le()))->Ok_0 is Some,
    ensures
        ({
            let m = median_of_sorted(ps.sort_by(price_le()))->Ok_0->Some_0;
            &&& exists|i: int| 0 <= i < ps.len() && ps[i] <= m
            &&& exists|j: int| 0 <= j < ps.len() && ps[j] >= m
        }),
{
    broadcast use vstd::seq_lib::group_to_multiset_ensures;
    lemma_price_le_total();
    ps.lemma_sort_by_ensures(price_le());
    let t = ps.sort_by(price_le());
    let m = median_of_sorted(t)->Ok_0->Some_0;
    let n = t.len();
    assert(t.to_multiset().len() == ps.to_multiset().len());
    assert(n > 0);
    let lo_i: int = if n % 2 == 1 { (n / 2) as int } else { n / 2 - 1 };
    let hi_i = (n / 2) as int;
    assert(price_le()(t[lo_i], t[hi_i]) || lo_i == hi_i);
    assert(t[lo_i] <= m <= t[hi_i]);
    assert(t.contains(t[lo_i]));
    assert(t.contains(t[hi_i]));
    assert(ps.contains(t[lo_i]));
    assert(ps.contains(t[hi_i]));
}

/// A validator's commit always lands within the deviation band of the latest committed price,
/// becomes the latest price, is recorded under its round, and opens the next round; a commit
/// at the median needs at least [`MIN_REPORTERS`] reporters.
pub proof fn law_validator_commit_stays_in_band(v: OracleView, caller: AccountId, now: u64, override_price: Option<Ratio>)
    requires
        commit_spec(v, caller, now, override_price) is Ok,
    ensures
        ({
            let (v2, pd) = commit_spec(v, caller, now, override_price)->Ok_0;
            &&& within_deviation(v, pd.price) == Some(true)
            &&& v2.latest_price == Some(pd)
            &&& v2.committed_round_prices[v.current_round_id] == pd
            &&& pd.round_id == v.current_round_id
            &&& v2.current_round_id == v.current_round_id + 1
            &&& override_price is None ==> v.reporter_count(v.current_round_id) >= MIN_REPORTERS && !pd.was_overridden
        }),
{
}

} // verus!

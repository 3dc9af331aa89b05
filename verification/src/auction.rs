//! Liquidation auctions of vault collateral, paid in TUSDT.
//!
//! A bid, a refund or the winning bid's payout moves TUSDT; such a message returns the amount
//! the host must move. If the token transfer fails, the message fails with `TransferFailed` and
//! its state change is discarded. A failed message leaves the auctions unchanged.

use vstd::prelude::*;
use std::collections::HashMap;
use crate::ratio::Ratio;
use crate::types::{AccountId, Balance};

verus! {

broadcast use vstd::std_specs::hash::group_hash_axioms;

/// Page size of the paginated reads.
pub const AUCTION_PAGE_SIZE: u32 = 10;

/// Auction duration when none is given (1 hour).
pub const DEFAULT_AUCTION_DURATION_MS: u64 = 3_600_000;

/// Longest auction duration (7 days).
pub const MAX_AUCTION_DURATION_MS: u64 = 604_800_000;

/// A liquidation auction selling a vault's collateral to repay its debt.
#[derive(Debug, Clone, Copy, PartialEq, Eq, Structural)]
pub struct Auction {
    pub id: u32,
    pub vault_owner: AccountId,
    pub vault_id: u32,
    pub collateral_balance: Balance,
    pub debt_balance: Balance,
    pub liquidation_price: Ratio,
    pub starts_at: u64,
    pub ends_at: u64,
    pub highest_bidder: Option<AccountId>,
    pub highest_bid: Balance,
    pub highest_bid_id: Option<u32>,
    pub bid_count: u32,
    pub is_finalized: bool,
}

/// Bidder-supplied metadata of a bid.
#[derive(Debug, Clone, Copy, PartialEq, Eq, Structural)]
pub struct BidMetadata {
    pub hot_key: AccountId,
}

/// A bidder's offer on an auction; each bidder has at most one bid per auction.
#[derive(Debug, Clone, Copy, PartialEq, Eq, Structural)]
pub struct Bid {
    pub id: u32,
    pub auction_id: u32,
    pub bidder: AccountId,
    pub amount: Balance,
    pub metadata: Option<BidMetadata>,
    pub is_withdrawn: bool,
}

/// A bid staged before it is stored: the updated auction and bid records, the TUSDT to pull
/// from the bidder, and whether the bid is the bidder's first on this auction.
#[derive(Debug, Clone, Copy, PartialEq, Eq, Structural)]
pub struct PreparedBid {
    pub auction: Auction,
    pub bid: Bid,
    pub transfer_amount: Balance,
    pub is_new_bid: bool,
}

/// Emitted when an auction is created.
#[derive(Debug, Clone, Copy, PartialEq, Eq, Structural)]
pub struct AuctionCreated {
    pub auction_id: u32,
    pub vault_owner: AccountId,
    pub vault_id: u32,
    pub starts_at: u64,
    pub ends_at: u64,
}

/// Emitted when a bid is placed or raised.
#[derive(Debug, Clone, Copy, PartialEq, Eq, Structural)]
pub struct BidPlaced {
    pub auction_id: u32,
    pub bid_id: u32,
    pub bidder: AccountId,
    pub amount: Balance,
}

/// Emitted when an auction is finalized.
#[derive(Debug, Clone, Copy, PartialEq, Eq, Structural)]
pub struct AuctionFinalized {
    pub auction_id: u32,
    pub winner: AccountId,
    pub highest_bid: Balance,
    pub debt_balance: Balance,
    pub highest_bid_metadata: Option<BidMetadata>,
}

/// Emitted when a losing bidder withdraws its refund.
#[derive(Debug, Clone, Copy, PartialEq, Eq, Structural)]
pub struct RefundWithdrawn {
    pub bidder: AccountId,
    pub amount: Balance,
}

/// Emitted when the winning bid is paid out.
#[derive(Debug, Clone, Copy, PartialEq, Eq, Structural)]
pub struct WinningBidTransferred {
    pub auction_id: u32,
    pub recipient: AccountId,
    pub amount: Balance,
}

/// Emitted when governance moves.
#[derive(Debug, Clone, Copy, PartialEq, Eq, Structural)]
pub struct AuctionGovernanceUpdated {
    pub previous_governance: AccountId,
    pub new_governance: AccountId,
}

/// Emitted when the admin changes.
#[derive(Debug, Clone, Copy, PartialEq, Eq, Structural)]
pub struct AdminUpdated {
    pub admin: Option<AccountId>,
}

/// Errors of the auction contract.
#[derive(Debug, Clone, Copy, PartialEq, Eq, Structural)]
pub enum Error {
    NotController,
    NotGovernance,
    NotAdmin,
    AuctionNotFound,
    BidNotFound,
    NotBidder,
    AuctionAlreadyExistsForVault,
    BidBelowDebtBalance,
    AuctionEnded,
    AuctionNotEnded,
    AuctionFinalized,
    AuctionHasNoBids,
    WinningBidLocked,
    WinningBidAlreadyTransferred,
    InvalidDuration,
    TransferFailed,
    NoRefundAvailable,
    BidAmountNotIncreased,
    ArithmeticError,
}

/// The key of bid `bid_id` of auction `auction_id`.
pub open spec fn bid_key(auction_id: u32, bid_id: u32) -> u64 {
    ((auction_id as int) * 0x1_0000_0000 + (bid_id as int)) as u64
}

/// The key of `bidder`'s bid id on auction `auction_id`.
pub open spec fn bidder_key(auction_id: u32, bidder: AccountId) -> u128 {
    ((auction_id as int) * 0x1_0000_0000_0000_0000 + (bidder as int)) as u128
}

/// The key of a vault `(owner, vault_id)`.
pub open spec fn vault_key(owner: AccountId, vault_id: u32) -> u128 {
    ((owner as int) * 0x1_0000_0000 + (vault_id as int)) as u128
}

fn bid_key_of(auction_id: u32, bid_id: u32) -> (k: u64)
    ensures
        k == bid_key(auction_id, bid_id),
{
    proof {
        assert((auction_id as int) * 0x1_0000_0000 + (bid_id as int) <= u64::MAX) by (nonlinear_arith)
            requires 0 <= auction_id <= u32::MAX, 0 <= bid_id <= u32::MAX;
    }
    (auction_id as u64) * 0x1_0000_0000u64 + (bid_id as u64)
}

fn bidder_key_of(auction_id: u32, bidder: AccountId) -> (k: u128)
    ensures
        k == bidder_key(auction_id, bidder),
{
    proof {
        assert((auction_id as int) * 0x1_0000_0000_0000_0000 + (bidder as int) <= u128::MAX) by (nonlinear_arith)
            requires 0 <= auction_id <= u32::MAX, 0 <= bidder <= u64::MAX;
    }
    (auction_id as u128) * 0x1_0000_0000_0000_0000u128 + (bidder as u128)
}

fn vault_key_of(owner: AccountId, vault_id: u32) -> (k: u128)
    ensures
        k == vault_key(owner, vault_id),
{
    proof {
        assert((owner as int) * 0x1_0000_0000 + (vault_id as int) <= u128::MAX) by (nonlinear_arith)
            requires 0 <= owner <= u64::MAX, 0 <= vault_id <= u32::MAX;
    }
    (owner as u128) * 0x1_0000_0000u128 + (vault_id as u128)
}

/// Auction storage.
pub struct TusdtAuction {
    pub controller: AccountId,
    pub governance: AccountId,
    /// The account that may bid on an expired auction without bids.
    pub admin: Option<AccountId>,
    /// The TUSDT token contract.
    pub token: AccountId,
    pub auction_count: u32,
    pub auctions: HashMap<u32, Auction>,
    /// Bids by `bid_key(auction, bid)`.
    pub auction_bids: HashMap<u64, Bid>,
    /// Bid ids by `bidder_key(auction, bidder)`.
    pub auction_bidder_bids: HashMap<u128, u32>,
    /// The open auction of a vault by `vault_key(owner, vault_id)`.
    pub active_vault_auction: HashMap<u128, u32>,
    pub active_auction_count: u32,
    /// Open auction ids by position in the active list.
    pub active_auctions: HashMap<u32, u32>,
    /// Position in the active list by auction id.
    pub active_auction_indices: HashMap<u32, u32>,
}

/// The abstract state of the auction contract.
pub struct AuctionView {
    pub controller: AccountId,
    pub governance: AccountId,
    pub admin: Option<AccountId>,
    pub token: AccountId,
    pub auction_count: u32,
    pub auctions: Map<u32, Auction>,
    pub auction_bids: Map<u64, Bid>,
    pub auction_bidder_bids: Map<u128, u32>,
    pub active_vault_auction: Map<u128, u32>,
    pub active_auction_count: u32,
    pub active_auctions: Map<u32, u32>,
    pub active_auction_indices: Map<u32, u32>,
}

impl View for TusdtAuction {
    type V = AuctionView;

    open spec fn view(&self) -> AuctionView {
        AuctionView {
            controller: self.controller,
            governance: self.governance,
            admin: self.admin,
            token: self.token,
            auction_count: self.auction_count,
            auctions: self.auctions@,
            auction_bids: self.auction_bids@,
            auction_bidder_bids: self.auction_bidder_bids@,
            active_vault_auction: self.active_vault_auction@,
            active_auction_count: self.active_auction_count,
            active_auctions: self.active_auctions@,
            active_auction_indices: self.active_auction_indices@,
        }
    }
}

/// The auction indexes agree with the records: every id below the auction count names an
/// auction, every bid id below an auction's bid count names a bid of it, and every slot of the
/// active list names an auction.
pub open spec fn indexes_consistent(v: AuctionView) -> bool {
    &&& forall|i: u32| i < v.auction_count ==> #[trigger] v.auctions.contains_key(i)
    &&& forall|id: u32, b: u32|
        v.auctions.contains_key(id) && b < v.auctions[id].bid_count ==> #[trigger] v.auction_bids.contains_key(bid_key(id, b))
    &&& forall|i: u32| i < v.active_auction_count ==> #[trigger] v.active_auctions.contains_key(i) && v.auctions.contains_key(v.active_auctions[i])
}

/// Whether a bid by `bidder` at `now` is allowed on `a`: before its end, or after an end without
/// bids by the admin only; the error otherwise.
pub open spec fn bid_allowed(v: AuctionView, a: Auction, bidder: AccountId, now: u64) -> Result<(), Error> {
    if a.is_finalized {
        Err(Error::AuctionFinalized)
    } else if now < a.ends_at {
        Ok(())
    } else if a.bid_count > 0 {
        Err(Error::AuctionEnded)
    } else if v.admin != Some(bidder) {
        Err(Error::NotAdmin)
    } else {
        Ok(())
    }
}

/// The staging of a bid of `amount` by `bidder` on auction `a` (id `id`), refused when the
/// amount is below the auction's debt balance: the updated auction and bid records, the TUSDT to pull (the whole amount for a first bid, the increase for a
/// raised one) and whether the bid is new.
pub open spec fn prepared(v: AuctionView, a: Auction, id: u32, bidder: AccountId, amount: Balance, metadata: Option<BidMetadata>) -> Result<(Auction, Bid, Balance, bool), Error> {
    if amount < a.debt_balance {
        Err(Error::BidBelowDebtBalance)
    } else {
        let staged: Result<(Auction, Bid, Balance, bool), Error> = if v.auction_bidder_bids.contains_key(bidder_key(id, bidder)) {
            let bid_id = v.auction_bidder_bids[bidder_key(id, bidder)];
            if !v.auction_bids.contains_key(bid_key(id, bid_id)) {
                Err(Error::BidNotFound)
            } else {
                let b = v.auction_bids[bid_key(id, bid_id)];
                if amount <= b.amount {
                    Err(Error::BidAmountNotIncreased)
                } else {
                    Ok((a, Bid { amount, metadata, ..b }, (amount - b.amount) as u64, false))
                }
            }
        } else if a.bid_count == u32::MAX {
            Err(Error::ArithmeticError)
        } else {
            Ok((
                Auction { bid_count: (a.bid_count + 1) as u32, ..a },
                Bid { id: a.bid_count, auction_id: id, bidder, amount, metadata, is_withdrawn: false },
                amount,
                true,
            ))
        };
        match staged {
            Err(e) => Err(e),
            Ok((a1, b, pull, is_new)) => Ok((
                if amount > a1.highest_bid {
                    Auction { highest_bidder: Some(bidder), highest_bid: amount, highest_bid_id: Some(b.id), ..a1 }
                } else {
                    a1
                },
                b,
                pull,
                is_new,
            )),
        }
    }
}

/// A bid of `amount` by `bidder` on auction `id`: the new state, the bid id and the TUSDT to
/// pull from the bidder.
pub open spec fn bid_spec(v: AuctionView, bidder: AccountId, now: u64, id: u32, amount: Balance, metadata: Option<BidMetadata>) -> Result<(AuctionView, u32, Balance), Error> {
    if !v.auctions.contains_key(id) {
        Err(Error::AuctionNotFound)
    } else {
        match bid_allowed(v, v.auctions[id], bidder, now) {
            Err(e) => Err(e),
            Ok(()) => match prepared(v, v.auctions[id], id, bidder, amount, metadata) {
                Err(e) => Err(e),
                Ok((a2, b, pull, is_new)) => Ok((
                    AuctionView {
                        auction_bids: v.auction_bids.insert(bid_key(id, b.id), b),
                        auction_bidder_bids: if is_new { v.auction_bidder_bids.insert(bidder_key(id, bidder), b.id) } else { v.auction_bidder_bids },
                        auctions: v.auctions.insert(id, a2),
                        ..v
                    },
                    b.id,
                    pull,
                )),
            },
        }
    }
}

/// The state after removing auction `id` from the active list by moving the last entry into
/// its slot.
pub open spec fn active_removed(v: AuctionView, id: u32) -> Result<AuctionView, Error> {
    if !v.active_auction_indices.contains_key(id) {
        Err(Error::AuctionNotFound)
    } else if v.active_auction_count == 0 {
        Err(Error::ArithmeticError)
    } else {
        let idx = v.active_auction_indices[id];
        let last = (v.active_auction_count - 1) as u32;
        if idx != last && !v.active_auctions.contains_key(last) {
            Err(Error::AuctionNotFound)
        } else {
            let moved = if idx != last {
                AuctionView {
                    active_auctions: v.active_auctions.insert(idx, v.active_auctions[last]),
                    active_auction_indices: v.active_auction_indices.insert(v.active_auctions[last], idx),
                    ..v
                }
            } else {
                v
            };
            Ok(AuctionView {
                active_auctions: moved.active_auctions.remove(last),
                active_auction_indices: moved.active_auction_indices.remove(id),
                active_auction_count: last,
                ..moved
            })
        }
    }
}

/// The finalization of auction `id` at `now`: the winner is the highest bidder.
pub open spec fn finalize_spec(v: AuctionView, now: u64, id: u32) -> Result<(AuctionView, AuctionFinalized), Error> {
    if !v.auctions.contains_key(id) {
        Err(Error::AuctionNotFound)
    } else {
        let a = v.auctions[id];
        if a.is_finalized {
            Err(Error::AuctionFinalized)
        } else if now < a.ends_at {
            Err(Error::AuctionNotEnded)
        } else if a.bid_count == 0 || a.highest_bidder is None {
            Err(Error::AuctionHasNoBids)
        } else {
            let v1 = AuctionView { active_vault_auction: v.active_vault_auction.remove(vault_key(a.vault_owner, a.vault_id)), ..v };
            match active_removed(v1, id) {
                Err(e) => Err(e),
                Ok(v2) => if !(a.highest_bid_id matches Some(bid_id) && v2.auction_bids.contains_key(bid_key(id, bid_id))) {
                    Err(Error::BidNotFound)
                } else {
                    Ok((
                        AuctionView { auctions: v2.auctions.insert(id, Auction { is_finalized: true, ..a }), ..v2 },
                        AuctionFinalized {
                            auction_id: id,
                            winner: a.highest_bidder->Some_0,
                            highest_bid: a.highest_bid,
                            debt_balance: a.debt_balance,
                            highest_bid_metadata: v2.auction_bids[bid_key(id, a.highest_bid_id->Some_0)].metadata,
                        },
                    ))
                },
            }
        }
    }
}

/// The auctions of ids `[i, end)`, appended to `acc`.
pub open spec fn auctions_from(v: AuctionView, i: int, end: int, acc: Seq<Auction>) -> Seq<Auction>
    decreases end - i,
{
    if i >= end { acc } else { auctions_from(v, i + 1, end, acc.push(v.auctions[i as u32])) }
}

/// The bids of auction `id` with bid ids `[i, end)`, appended to `acc`.
pub open spec fn bids_from(v: AuctionView, id: u32, i: int, end: int, acc: Seq<Bid>) -> Seq<Bid>
    decreases end - i,
{
    if i >= end { acc } else { bids_from(v, id, i + 1, end, acc.push(v.auction_bids[bid_key(id, i as u32)])) }
}

/// The open auctions at active-list positions `[i, end)`, appended to `acc`.
pub open spec fn active_from(v: AuctionView, i: int, end: int, acc: Seq<Auction>) -> Seq<Auction>
    decreases end - i,
{
    if i >= end { acc } else { active_from(v, i + 1, end, acc.push(v.auctions[v.active_auctions[i as u32]])) }
}

/// The window `[start, end)` of a page over `total` entries (empty when `start >= total`).
pub open spec fn page_range(page: u32, total: u32) -> (int, int) {
    let start = if page * AUCTION_PAGE_SIZE > u32::MAX { u32::MAX as int } else { page * AUCTION_PAGE_SIZE };
    let stop = if start + AUCTION_PAGE_SIZE > u32::MAX { u32::MAX as int } else { start + AUCTION_PAGE_SIZE };
    if start >= total { (0, 0) } else { (start, if stop <= total { stop } else { total as int }) }
}

fn page_bounds(page: u32, total: u32) -> (r: (u32, u32))
    ensures
        r.0 <= r.1 <= total,
        (r.0 as int, r.1 as int) == page_range(page, total),
{
    assert((page as u64) * 10 <= u64::MAX) by (nonlinear_arith)
        requires page <= u32::MAX;
    let prod: u64 = (page as u64) * (AUCTION_PAGE_SIZE as u64);
    let start: u32 = if prod > u32::MAX as u64 { u32::MAX } else { prod as u32 };
    if start >= total {
        return (0, 0);
    }
    let stop = start.saturating_add(AUCTION_PAGE_SIZE);
    (start, if stop <= total { stop } else { total })
}

impl TusdtAuction {
    /// Fails with `NotController` unless `caller` is the controller.
    fn ensure_controller(&self, caller: AccountId) -> (r: Result<(), Error>)
        ensures
            r is Ok <==> caller == self.controller,
            r matches Err(e) ==> e == Error::NotController,
    {
        if !(caller == self.controller) {
            return Err(Error::NotController);
        }
        Ok(())
    }

    /// Fails with `NotGovernance` unless `caller` is governance.
    fn ensure_governance(&self, caller: AccountId) -> (r: Result<(), Error>)
        ensures
            r is Ok <==> caller == self.governance,
            r matches Err(e) ==> e == Error::NotGovernance,
    {
        if !(caller == self.governance) {
            return Err(Error::NotGovernance);
        }
        Ok(())
    }

    /// An auction contract with the given controller, governance and token; no admin, no
    /// auctions.
    pub fn new(controller: AccountId, governance: AccountId, token_address: AccountId) -> (t: TusdtAuction)
        ensures
            indexes_consistent(t@),
            t@ == (AuctionView {
                controller,
                governance,
                admin: None,
                token: token_address,
                auction_count: 0,
                auctions: Map::empty(),
                auction_bids: Map::empty(),
                auction_bidder_bids: Map::empty(),
                active_vault_auction: Map::empty(),
                active_auction_count: 0,
                active_auctions: Map::empty(),
                active_auction_indices: Map::empty(),
            }),
    {
        TusdtAuction {
            controller,
            governance,
            admin: None,
            token: token_address,
            auction_count: 0,
            auctions: HashMap::new(),
            auction_bids: HashMap::new(),
            auction_bidder_bids: HashMap::new(),
            active_vault_auction: HashMap::new(),
            active_auction_count: 0,
            active_auctions: HashMap::new(),
            active_auction_indices: HashMap::new(),
        }
    }

    /// Creates an auction of a vault's collateral at `now`, lasting `duration_ms` (1 hour when
    /// `None`, at most 7 days), and registers it as the vault's open auction. Controller only;
    /// a vault has at most one open auction.
    pub fn create_auction(
        &mut self,
        caller: AccountId,
        now: u64,
        vault_owner: AccountId,
        vault_id: u32,
        collateral_balance: Balance,
        debt_balance: Balance,
        liquidation_price: Ratio,
        duration_ms: Option<u64>,
    ) -> (r: Result<(u32, AuctionCreated), Error>)
        ensures
            indexes_consistent(old(self)@) ==> indexes_consistent(final(self)@),
            ({
                let v = old(self)@;
                let d = match duration_ms { Some(d) => d, None => DEFAULT_AUCTION_DURATION_MS };
                let id = v.auction_count;
                if caller != v.controller {
                    r == Err::<(u32, AuctionCreated), Error>(Error::NotController) && final(self)@ == v
                } else if v.active_vault_auction.contains_key(vault_key(vault_owner, vault_id)) {
                    r == Err::<(u32, AuctionCreated), Error>(Error::AuctionAlreadyExistsForVault) && final(self)@ == v
                } else if d == 0 || d > MAX_AUCTION_DURATION_MS {
                    r == Err::<(u32, AuctionCreated), Error>(Error::InvalidDuration) && final(self)@ == v
                } else if now + d > u64::MAX || v.auction_count == u32::MAX || v.active_auction_count == u32::MAX {
                    r == Err::<(u32, AuctionCreated), Error>(Error::ArithmeticError) && final(self)@ == v
                } else {
                    let a = Auction {
                        id,
                        vault_owner,
                        vault_id,
                        collateral_balance,
                        debt_balance,
                        liquidation_price,
                        starts_at: now,
                        ends_at: (now + d) as u64,
                        highest_bidder: None,
                        highest_bid: 0,
                        highest_bid_id: None,
                        bid_count: 0,
                        is_finalized: false,
                    };
                    r == Ok::<(u32, AuctionCreated), Error>((id, AuctionCreated { auction_id: id, vault_owner, vault_id, starts_at: now, ends_at: (now + d) as u64 }))
                        && final(self)@ == (AuctionView {
                            auction_count: (id + 1) as u32,
                            auctions: v.auctions.insert(id, a),
                            active_auctions: v.active_auctions.insert(v.active_auction_count, id),
                            active_auction_indices: v.active_auction_indices.insert(id, v.active_auction_count),
                            active_auction_count: (v.active_auction_count + 1) as u32,
                            active_vault_auction: v.active_vault_auction.insert(vault_key(vault_owner, vault_id), id),
                            ..v
                        })
                }
            }),
    {
        match self.ensure_controller(caller) {
            Ok(()) => {},
            Err(e) => return Err(e),
        }
        let vk = vault_key_of(vault_owner, vault_id);
        if self.active_vault_auction.get(&vk).is_some() {
            return Err(Error::AuctionAlreadyExistsForVault);
        }
        let duration = match duration_ms {
            Some(d) => d,
            None => DEFAULT_AUCTION_DURATION_MS,
        };
        if duration == 0 || duration > MAX_AUCTION_DURATION_MS {
            return Err(Error::InvalidDuration);
        }
        let ends_at = match now.checked_add(duration) {
            Some(t) => t,
            None => return Err(Error::ArithmeticError),
        };
        let id = self.auction_count;
        if id == u32::MAX || self.active_auction_count == u32::MAX {
            return Err(Error::ArithmeticError);
        }
        let a = Auction {
            id,
            vault_owner,
            vault_id,
            collateral_balance,
            debt_balance,
            liquidation_price,
            starts_at: now,
            ends_at,
            highest_bidder: None,
            highest_bid: 0,
            highest_bid_id: None,
            bid_count: 0,
            is_finalized: false,
        };
        self.auction_count = id + 1;
        self.auctions.insert(id, a);
        let idx = self.active_auction_count;
        self.active_auctions.insert(idx, id);
        self.active_auction_indices.insert(id, idx);
        self.active_auction_count = idx + 1;
        self.active_vault_auction.insert(vk, id);
        Ok((id, AuctionCreated { auction_id: id, vault_owner, vault_id, starts_at: now, ends_at }))
    }

    /// Sets or clears the admin. Governance only.
    pub fn set_admin(&mut self, caller: AccountId, admin: Option<AccountId>) -> (r: Result<AdminUpdated, Error>)
        ensures
            indexes_consistent(old(self)@) ==> indexes_consistent(final(self)@),
            caller != old(self).governance ==> r == Err::<AdminUpdated, Error>(Error::NotGovernance) && final(self)@ == old(self)@,
            caller == old(self).governance ==> r == Ok::<AdminUpdated, Error>(AdminUpdated { admin }) && final(self)@ == (AuctionView { admin, ..old(self)@ }),
    {
        match self.ensure_governance(caller) {
            Ok(()) => {},
            Err(e) => return Err(e),
        }
        self.admin = admin;
        Ok(AdminUpdated { admin })
    }

    /// Transfers governance. Controller only.
    pub fn update_governance(&mut self, caller: AccountId, new_governance: AccountId) -> (r: Result<AuctionGovernanceUpdated, Error>)
        ensures
            indexes_consistent(old(self)@) ==> indexes_consistent(final(self)@),
            caller != old(self).controller ==> r == Err::<AuctionGovernanceUpdated, Error>(Error::NotController) && final(self)@ == old(self)@,
            caller == old(self).controller ==> r == Ok::<AuctionGovernanceUpdated, Error>(AuctionGovernanceUpdated { previous_governance: old(self).governance, new_governance })
                && final(self)@ == (AuctionView { governance: new_governance, ..old(self)@ }),
    {
        match self.ensure_controller(caller) {
            Ok(()) => {},
            Err(e) => return Err(e),
        }
        let previous_governance = self.governance;
        self.governance = new_governance;
        Ok(AuctionGovernanceUpdated { previous_governance, new_governance })
    }

    /// Whether a bid by `bidder` at `now` is allowed on `auction`, as [`bid_allowed`] states:
    /// before its end, or after an end without bids by the admin only.
    pub fn ensure_bid_allowed(&self, auction: &Auction, bidder: AccountId, now: u64) -> (r: Result<(), Error>)
        ensures
            r == bid_allowed(self@, *auction, bidder, now),
    {
        if auction.is_finalized {
            return Err(Error::AuctionFinalized);
        }
        if now < auction.ends_at {
            return Ok(());
        }
        if auction.bid_count > 0 {
            return Err(Error::AuctionEnded);
        }
        if self.admin != Some(bidder) {
            return Err(Error::NotAdmin);
        }
        Ok(())
    }

    /// Stages a new or raised bid on `auction` without storing it, as [`prepared`] states.
    pub fn prepare_bid(
        &self,
        auction: Auction,
        auction_id: u32,
        bidder: AccountId,
        bid_amount: Balance,
        metadata: Option<BidMetadata>,
    ) -> (r: Result<PreparedBid, Error>)
        ensures
            match prepared(self@, auction, auction_id, bidder, bid_amount, metadata) {
                Ok((a, b, pull, is_new)) => r == Ok::<PreparedBid, Error>(PreparedBid { auction: a, bid: b, transfer_amount: pull, is_new_bid: is_new }),
                Err(e) => r == Err::<PreparedBid, Error>(e),
            },
    {
        if bid_amount < auction.debt_balance {
            return Err(Error::BidBelowDebtBalance);
        }
        let (a1, b, pull, is_new) = match self.auction_bidder_bids.get(&bidder_key_of(auction_id, bidder)) {
            Some(bid_id) => {
                let bid_id = *bid_id;
                let b = match self.auction_bids.get(&bid_key_of(auction_id, bid_id)) {
                    Some(b) => *b,
                    None => return Err(Error::BidNotFound),
                };
                if bid_amount <= b.amount {
                    return Err(Error::BidAmountNotIncreased);
                }
                (auction, Bid { amount: bid_amount, metadata, ..b }, bid_amount - b.amount, false)
            },
            None => {
                if auction.bid_count == u32::MAX {
                    return Err(Error::ArithmeticError);
                }
                (
                    Auction { bid_count: auction.bid_count + 1, ..auction },
                    Bid { id: auction.bid_count, auction_id, bidder, amount: bid_amount, metadata, is_withdrawn: false },
                    bid_amount,
                    true,
                )
            },
        };
        let a2 = if bid_amount > a1.highest_bid {
            Auction { highest_bidder: Some(bidder), highest_bid: bid_amount, highest_bid_id: Some(b.id), ..a1 }
        } else {
            a1
        };
        Ok(PreparedBid { auction: a2, bid: b, transfer_amount: pull, is_new_bid: is_new })
    }

    /// Places or raises `caller`'s bid on auction `auction_id`, as [`bid_spec`] states; returns
    /// the bid id and the TUSDT to pull from the caller.
    pub fn place_bid(&mut self, caller: AccountId, now: u64, auction_id: u32, bid_amount: Balance, metadata: Option<BidMetadata>) -> (r: Result<(u32, Balance, BidPlaced), Error>)
        ensures
            indexes_consistent(old(self)@) ==> indexes_consistent(final(self)@),
            match bid_spec(old(self)@, caller, now, auction_id, bid_amount, metadata) {
                Ok((v, bid_id, pull)) => r == Ok::<(u32, Balance, BidPlaced), Error>((bid_id, pull, BidPlaced { auction_id, bid_id, bidder: caller, amount: bid_amount }))
                    && final(self)@ == v,
                Err(e) => r == Err::<(u32, Balance, BidPlaced), Error>(e) && final(self)@ == old(self)@,
            },
    {
        let a = match self.auctions.get(&auction_id) {
            Some(a) => *a,
            None => return Err(Error::AuctionNotFound),
        };
        match self.ensure_bid_allowed(&a, caller, now) {
            Ok(()) => {},
            Err(e) => return Err(e),
        }
        let p = match self.prepare_bid(a, auction_id, caller, bid_amount, metadata) {
            Ok(p) => p,
            Err(e) => return Err(e),
        };
        let bid_id = p.bid.id;
        self.auction_bids.insert(bid_key_of(auction_id, bid_id), p.bid);
        if p.is_new_bid {
            self.auction_bidder_bids.insert(bidder_key_of(auction_id, caller), bid_id);
        }
        self.auctions.insert(auction_id, p.auction);
        Ok((bid_id, p.transfer_amount, BidPlaced { auction_id, bid_id, bidder: caller, amount: bid_amount }))
    }

    /// Removes auction `auction_id` from the active list by moving the last entry into its slot,
    /// as [`active_removed`] states.
    fn remove_active_auction(&mut self, auction_id: u32) -> (r: Result<(), Error>)
        ensures
            match active_removed(old(self)@, auction_id) {
                Ok(v) => r is Ok && final(self)@ == v,
                Err(e) => r == Err::<(), Error>(e) && final(self)@ == old(self)@,
            },
    {
        let idx = match self.active_auction_indices.get(&auction_id) {
            Some(i) => *i,
            None => return Err(Error::AuctionNotFound),
        };
        if self.active_auction_count == 0 {
            return Err(Error::ArithmeticError);
        }
        let last = self.active_auction_count - 1;
        if idx != last {
            let last_id = match self.active_auctions.get(&last) {
                Some(x) => *x,
                None => return Err(Error::AuctionNotFound),
            };
            self.active_auctions.insert(idx, last_id);
            self.active_auction_indices.insert(last_id, idx);
        }
        self.active_auctions.remove(&last);
        self.active_auction_indices.remove(&auction_id);
        self.active_auction_count = last;
        Ok(())
    }

    /// Finalizes auction `auction_id` once ended, as [`finalize_spec`] states: the highest
    /// bidder wins and the auction leaves the active list.
    pub fn finalize_auction(&mut self, now: u64, auction_id: u32) -> (r: Result<AuctionFinalized, Error>)
        ensures
            indexes_consistent(old(self)@) ==> indexes_consistent(final(self)@),
            match finalize_spec(old(self)@, now, auction_id) {
                Ok((v, ev)) => r == Ok::<AuctionFinalized, Error>(ev) && final(self)@ == v,
                Err(e) => r == Err::<AuctionFinalized, Error>(e) && final(self)@ == old(self)@,
            },
    {
        let a = match self.auctions.get(&auction_id) {
            Some(a) => *a,
            None => return Err(Error::AuctionNotFound),
        };
        if a.is_finalized {
            return Err(Error::AuctionFinalized);
        }
        if now < a.ends_at {
            return Err(Error::AuctionNotEnded);
        }
        let winner = match a.highest_bidder {
            Some(w) => w,
            None => return Err(Error::AuctionHasNoBids),
        };
        if a.bid_count == 0 {
            return Err(Error::AuctionHasNoBids);
        }
        let saved_active = self.active_auctions.clone();
        let saved_indices = self.active_auction_indices.clone();
        let saved_count = self.active_auction_count;
        let saved_vault_auctions = self.active_vault_auction.clone();
        self.active_vault_auction.remove(&vault_key_of(a.vault_owner, a.vault_id));
        match self.remove_active_auction(auction_id) {
            Ok(()) => {},
            Err(e) => {
                self.active_vault_auction = saved_vault_auctions;
                return Err(e);
            },
        }
        let found = match a.highest_bid_id {
            Some(bid_id) => match self.auction_bids.get(&bid_key_of(auction_id, bid_id)) {
                Some(b) => Some(b.metadata),
                None => None,
            },
            None => None,
        };
        let metadata = match found {
            Some(m) => m,
            None => {
                self.active_vault_auction = saved_vault_auctions;
                self.active_auctions = saved_active;
                self.active_auction_indices = saved_indices;
                self.active_auction_count = saved_count;
                return Err(Error::BidNotFound);
            },
        };
        self.auctions.insert(auction_id, Auction { is_finalized: true, ..a });
        Ok(AuctionFinalized {
            auction_id,
            winner,
            highest_bid: a.highest_bid,
            debt_balance: a.debt_balance,
            highest_bid_metadata: metadata,
        })
    }

    /// Marks the winning bid of a finalized auction as paid out and returns its amount, which
    /// the host transfers to `recipient`. Controller only.
    pub fn transfer_winning_bid(&mut self, caller: AccountId, auction_id: u32, recipient: AccountId) -> (r: Result<(Balance, WinningBidTransferred), Error>)
        ensures
            indexes_consistent(old(self)@) ==> indexes_consistent(final(self)@),
            ({
                let v = old(self)@;
                if caller != v.controller {
                    r == Err::<(Balance, WinningBidTransferred), Error>(Error::NotController) && final(self)@ == v
                } else if !v.auctions.contains_key(auction_id) {
                    r == Err::<(Balance, WinningBidTransferred), Error>(Error::AuctionNotFound) && final(self)@ == v
                } else if !v.auctions[auction_id].is_finalized {
                    r == Err::<(Balance, WinningBidTransferred), Error>(Error::AuctionNotEnded) && final(self)@ == v
                } else if v.auctions[auction_id].highest_bid_id is None {
                    r == Err::<(Balance, WinningBidTransferred), Error>(Error::AuctionHasNoBids) && final(self)@ == v
                } else {
                    let k = bid_key(auction_id, v.auctions[auction_id].highest_bid_id->Some_0);
                    if !v.auction_bids.contains_key(k) {
                        r == Err::<(Balance, WinningBidTransferred), Error>(Error::BidNotFound) && final(self)@ == v
                    } else if v.auction_bids[k].is_withdrawn {
                        r == Err::<(Balance, WinningBidTransferred), Error>(Error::WinningBidAlreadyTransferred) && final(self)@ == v
                    } else {
                        let b = v.auction_bids[k];
                        r == Ok::<(Balance, WinningBidTransferred), Error>((b.amount, WinningBidTransferred { auction_id, recipient, amount: b.amount }))
                            && final(self)@ == (AuctionView { auction_bids: v.auction_bids.insert(k, Bid { is_withdrawn: true, ..b }), ..v })
                    }
                }
            }),
    {
        match self.ensure_controller(caller) {
            Ok(()) => {},
            Err(e) => return Err(e),
        }
        let a = match self.auctions.get(&auction_id) {
            Some(a) => *a,
            None => return Err(Error::AuctionNotFound),
        };
        if !a.is_finalized {
            return Err(Error::AuctionNotEnded);
        }
        let bid_id = match a.highest_bid_id {
            Some(b) => b,
            None => return Err(Error::AuctionHasNoBids),
        };
        let k = bid_key_of(auction_id, bid_id);
        let b = match self.auction_bids.get(&k) {
            Some(b) => *b,
            None => return Err(Error::BidNotFound),
        };
        if b.is_withdrawn {
            return Err(Error::WinningBidAlreadyTransferred);
        }
        self.auction_bids.insert(k, Bid { is_withdrawn: true, ..b });
        Ok((b.amount, WinningBidTransferred { auction_id, recipient, amount: b.amount }))
    }

    /// Marks `caller`'s losing bid `bid_id` of a finalized auction as refunded; the host pays its
    /// amount back to the caller.
    pub fn withdraw_refund(&mut self, caller: AccountId, auction_id: u32, bid_id: u32) -> (r: Result<RefundWithdrawn, Error>)
        ensures
            indexes_consistent(old(self)@) ==> indexes_consistent(final(self)@),
            ({
                let v = old(self)@;
                let k = bid_key(auction_id, bid_id);
                if !v.auction_bids.contains_key(k) {
                    r == Err::<RefundWithdrawn, Error>(Error::BidNotFound) && final(self)@ == v
                } else if v.auction_bids[k].bidder != caller {
                    r == Err::<RefundWithdrawn, Error>(Error::NotBidder) && final(self)@ == v
                } else if v.auction_bids[k].is_withdrawn {
                    r == Err::<RefundWithdrawn, Error>(Error::NoRefundAvailable) && final(self)@ == v
                } else if !v.auctions.contains_key(auction_id) {
                    r == Err::<RefundWithdrawn, Error>(Error::AuctionNotFound) && final(self)@ == v
                } else if !v.auctions[auction_id].is_finalized {
                    r == Err::<RefundWithdrawn, Error>(Error::AuctionNotEnded) && final(self)@ == v
                } else if v.auctions[auction_id].highest_bid_id == Some(bid_id) {
                    r == Err::<RefundWithdrawn, Error>(Error::WinningBidLocked) && final(self)@ == v
                } else {
                    let b = v.auction_bids[k];
                    r == Ok::<RefundWithdrawn, Error>(RefundWithdrawn { bidder: caller, amount: b.amount })
                        && final(self)@ == (AuctionView { auction_bids: v.auction_bids.insert(k, Bid { is_withdrawn: true, ..b }), ..v })
                }
            }),
    {
        let k = bid_key_of(auction_id, bid_id);
        let b = match self.auction_bids.get(&k) {
            Some(b) => *b,
            None => return Err(Error::BidNotFound),
        };
        if b.bidder != caller {
            return Err(Error::NotBidder);
        }
        if b.is_withdrawn {
            return Err(Error::NoRefundAvailable);
        }
        let a = match self.auctions.get(&auction_id) {
            Some(a) => *a,
            None => return Err(Error::AuctionNotFound),
        };
        if !a.is_finalized {
            return Err(Error::AuctionNotEnded);
        }
        if a.highest_bid_id == Some(bid_id) {
            return Err(Error::WinningBidLocked);
        }
        self.auction_bids.insert(k, Bid { is_withdrawn: true, ..b });
        Ok(RefundWithdrawn { bidder: caller, amount: b.amount })
    }

    /// Auction `auction_id`.
    pub fn get_auction(&self, auction_id: u32) -> (r: Option<Auction>)
        ensures
            r == (if self@.auctions.contains_key(auction_id) { Some(self@.auctions[auction_id]) } else { None }),
    {
        match self.auctions.get(&auction_id) {
            Some(a) => Some(*a),
            None => None,
        }
    }

    /// The open auction of a vault.
    pub fn get_active_vault_auction(&self, vault_owner: AccountId, vault_id: u32) -> (r: Option<u32>)
        ensures
            r == (if self@.active_vault_auction.contains_key(vault_key(vault_owner, vault_id)) {
                Some(self@.active_vault_auction[vault_key(vault_owner, vault_id)])
            } else {
                None
            }),
    {
        match self.active_vault_auction.get(&vault_key_of(vault_owner, vault_id)) {
            Some(a) => Some(*a),
            None => None,
        }
    }

    /// Bid `bid_id` of auction `auction_id`.
    pub fn get_bid(&self, auction_id: u32, bid_id: u32) -> (r: Option<Bid>)
        ensures
            r == (if self@.auction_bids.contains_key(bid_key(auction_id, bid_id)) { Some(self@.auction_bids[bid_key(auction_id, bid_id)]) } else { None }),
    {
        match self.auction_bids.get(&bid_key_of(auction_id, bid_id)) {
            Some(b) => Some(*b),
            None => None,
        }
    }

    /// `bidder`'s bid on auction `auction_id`.
    pub fn get_auction_bid(&self, auction_id: u32, bidder: AccountId) -> (r: Option<Bid>)
        ensures
            r == (if !self@.auction_bidder_bids.contains_key(bidder_key(auction_id, bidder)) {
                None
            } else {
                let k = bid_key(auction_id, self@.auction_bidder_bids[bidder_key(auction_id, bidder)]);
                if self@.auction_bids.contains_key(k) { Some(self@.auction_bids[k]) } else { None }
            }),
    {
        let bid_id = match self.auction_bidder_bids.get(&bidder_key_of(auction_id, bidder)) {
            Some(b) => *b,
            None => return None,
        };
        self.get_bid(auction_id, bid_id)
    }

    /// A page of auction `auction_id`'s bids by bid id (every message keeps the indexes this
    /// reads consistent).
    pub fn get_bids(&self, auction_id: u32, page: u32) -> (r: Result<Vec<Bid>, Error>)
        requires
            indexes_consistent(self@),
        ensures
            !self@.auctions.contains_key(auction_id) ==> r == Err::<Vec<Bid>, Error>(Error::AuctionNotFound),
            self@.auctions.contains_key(auction_id) ==> (r matches Ok(bids) && {
                let (s, e) = page_range(page, self@.auctions[auction_id].bid_count);
                bids@ == bids_from(self@, auction_id, s, e, Seq::empty())
            }),
    {
        let a = match self.auctions.get(&auction_id) {
            Some(a) => *a,
            None => return Err(Error::AuctionNotFound),
        };
        let (start, end) = page_bounds(page, a.bid_count);
        let mut bids: Vec<Bid> = Vec::new();
        let mut i = start;
        while i < end
            invariant
                start <= i <= end <= a.bid_count,
                a == self@.auctions[auction_id],
                forall|j: u32| j < a.bid_count ==> #[trigger] self@.auction_bids.contains_key(bid_key(auction_id, j)),
                bids_from(self@, auction_id, start as int, end as int, Seq::empty()) == bids_from(self@, auction_id, i as int, end as int, bids@),
            decreases end - i,
        {
            let k = bid_key_of(auction_id, i);
            assert(self@.auction_bids.contains_key(bid_key(auction_id, i)));
            let b = *self.auction_bids.get(&k).unwrap();
            bids.push(b);
            i = i + 1;
        }
        Ok(bids)
    }

    /// The number of auctions ever created.
    pub fn get_total_auctions_count(&self) -> (r: u32)
        ensures
            r == self.auction_count,
    {
        self.auction_count
    }

    /// The number of open auctions.
    pub fn get_active_auctions_count(&self) -> (r: u32)
        ensures
            r == self.active_auction_count,
    {
        self.active_auction_count
    }

    /// A page of all auctions by id.
    pub fn get_all_auctions(&self, page: u32) -> (r: Result<Vec<Auction>, Error>)
        requires
            indexes_consistent(self@),
        ensures
            r matches Ok(list) && {
                let (s, e) = page_range(page, self@.auction_count);
                list@ == auctions_from(self@, s, e, Seq::empty())
            },
    {
        let (start, end) = page_bounds(page, self.auction_count);
        let mut list: Vec<Auction> = Vec::new();
        let mut i = start;
        while i < end
            invariant
                start <= i <= end <= self@.auction_count,
                forall|j: u32| j < self@.auction_count ==> #[trigger] self@.auctions.contains_key(j),
                auctions_from(self@, start as int, end as int, Seq::empty()) == auctions_from(self@, i as int, end as int, list@),
            decreases end - i,
        {
            assert(self@.auctions.contains_key(i));
            list.push(*self.auctions.get(&i).unwrap());
            i = i + 1;
        }
        Ok(list)
    }

    /// A page of open auctions in active-list order.
    pub fn get_active_auctions(&self, page: u32) -> (r: Result<Vec<Auction>, Error>)
        requires
            indexes_consistent(self@),
        ensures
            r matches Ok(list) && {
                let (s, e) = page_range(page, self@.active_auction_count);
                list@ == active_from(self@, s, e, Seq::empty())
            },
    {
        let (start, end) = page_bounds(page, self.active_auction_count);
        let mut list: Vec<Auction> = Vec::new();
        let mut i = start;
        while i < end
            invariant
                start <= i <= end <= self@.active_auction_count,
                indexes_consistent(self@),
                active_from(self@, start as int, end as int, Seq::empty()) == active_from(self@, i as int, end as int, list@),
            decreases end - i,
        {
            assert(self@.active_auctions.contains_key(i));
            let id = *self.active_auctions.get(&i).unwrap();
            list.push(*self.auctions.get(&id).unwrap());
            i = i + 1;
        }
        Ok(list)
    }

    /// The controller account.
    pub fn controller(&self) -> (r: AccountId)
        ensures
            r == self.controller,
    {
        self.controller
    }

    /// The governance account.
    pub fn governance(&self) -> (r: AccountId)
        ensures
            r == self.governance,
    {
        self.governance
    }

    /// The admin account.
    pub fn admin(&self) -> (r: Option<AccountId>)
        ensures
            r == self.admin,
    {
        self.admin
    }
}

/// The amount a bidder has bid on auction `id` so far (0 before its first bid).
pub open spec fn bid_so_far(v: AuctionView, id: u32, bidder: AccountId) -> int {
    if v.auction_bidder_bids.contains_key(bidder_key(id, bidder))
        && v.auction_bids.contains_key(bid_key(id, v.auction_bidder_bids[bidder_key(id, bidder)])) {
        v.auction_bids[bid_key(id, v.auction_bidder_bids[bidder_key(id, bidder)])].amount as int
    } else {
        0
    }
}

/// An accepted bid pulls exactly its increase over what the bidder had bid, leaves the bidder's
/// record at the new amount, and lifts the auction's highest bid to at least the new amount.
pub proof fn law_bid_pulls_increase_and_raises_highest(
    v: AuctionView,
    bidder: AccountId,
    now: u64,
    id: u32,
    amount: Balance,
    metadata: Option<BidMetadata>,
)
    requires
        bid_spec(v, bidder, now, id, amount, metadata) is Ok,
        v.auction_bidder_bids.contains_key(bidder_key(id, bidder)) ==> {
            let i = v.auction_bidder_bids[bidder_key(id, bidder)];
            v.auction_bids.contains_key(bid_key(id, i)) ==> v.auction_bids[bid_key(id, i)].id == i
        },
    ensures
        ({
            let (v2, bid_id, pull) = bid_spec(v, bidder, now, id, amount, metadata)->Ok_0;
            &&& pull == amount - bid_so_far(v, id, bidder)
            &&& bid_so_far(v, id, bidder) <= amount
            &&& bid_so_far(v2, id, bidder) == amount
            &&& v2.auctions[id].highest_bid >= amount
            &&& v2.auctions[id].highest_bid >= v.auctions[id].highest_bid
        }),
{
    let (v2, bid_id, pull) = bid_spec(v, bidder, now, id, amount, metadata)->Ok_0;
    let bk = bidder_key(id, bidder);
    if v.auction_bidder_bids.contains_key(bk) {
        let i = v.auction_bidder_bids[bk];
        assert(v2.auction_bidder_bids[bk] == i);
        assert(v2.auction_bids.contains_key(bid_key(id, i)));
        assert(v2.auction_bids[bid_key(id, i)].amount == amount);
    } else {
        assert(v2.auction_bidder_bids[bk] == bid_id);
        assert(v2.auction_bids[bid_key(id, bid_id)].amount == amount);
    }
    assert(bid_so_far(v2, id, bidder) == amount);
}

} // verus!

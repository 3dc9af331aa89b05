use tusdt::auction::{Auction, BidMetadata, Error, TusdtAuction, DEFAULT_AUCTION_DURATION_MS};
use tusdt::ratio::Ratio;

const ALICE: u64 = 1;
const BOB: u64 = 2;
const CHARLIE: u64 = 3;
const DJANGO: u64 = 4;
const EVE: u64 = 5;

fn two() -> Ratio {
    Ratio::from_inner(2_000_000_000_000_000_000)
}

fn bid_meta(hot_key: u64) -> Option<BidMetadata> {
    Some(BidMetadata { hot_key })
}

fn create_default(a: &mut TusdtAuction, now: u64, vault_owner: u64, vault_id: u32) -> u32 {
    a.create_auction(ALICE, now, vault_owner, vault_id, 1_000, 500, two(), Some(1_000)).unwrap().0
}

#[test]
fn auction_new_works() {
    let a = TusdtAuction::new(ALICE, BOB, CHARLIE);
    assert_eq!(a.controller(), ALICE);
    assert_eq!(a.governance(), BOB);
    assert_eq!(a.admin(), None);
    assert_eq!(a.get_total_auctions_count(), 0);
    assert_eq!(a.get_active_auctions_count(), 0);
}

#[test]
fn create_auction_works() {
    let mut a = TusdtAuction::new(ALICE, BOB, CHARLIE);
    let (id, ev) = a.create_auction(ALICE, 10, BOB, 7, 1_000, 500, two(), Some(1_000)).unwrap();
    assert_eq!(id, 0);
    assert_eq!((ev.auction_id, ev.starts_at, ev.ends_at), (0, 10, 1_010));
    assert_eq!(a.get_total_auctions_count(), 1);
    assert_eq!(a.get_active_auctions_count(), 1);
    assert_eq!(a.get_active_vault_auction(BOB, 7), Some(id));
    let created = a.get_auction(id).unwrap();
    assert_eq!(created.vault_owner, BOB);
    assert_eq!(created.vault_id, 7);
    assert_eq!(created.collateral_balance, 1_000);
    assert_eq!(created.debt_balance, 500);
    assert_eq!(created.liquidation_price, two());
    assert_eq!(created.starts_at, 10);
    assert_eq!(created.ends_at, 1_010);
    assert_eq!(created.highest_bid, 0);
    assert_eq!(created.highest_bidder, None);
    assert!(!created.is_finalized);
}

#[test]
fn create_auction_default_duration() {
    let mut a = TusdtAuction::new(ALICE, BOB, CHARLIE);
    let (id, _) = a.create_auction(ALICE, 5, BOB, 1, 1, 1, two(), None).unwrap();
    assert_eq!(a.get_auction(id).unwrap().ends_at, 5 + DEFAULT_AUCTION_DURATION_MS);
}

#[test]
fn create_auction_fails_for_non_controller() {
    let mut a = TusdtAuction::new(ALICE, BOB, CHARLIE);
    assert_eq!(
        a.create_auction(BOB, 0, BOB, 1, 1_000, 400, two(), Some(1_000)),
        Err(Error::NotController)
    );
    assert_eq!(a.get_total_auctions_count(), 0);
    assert_eq!(a.get_active_auctions_count(), 0);
}

#[test]
fn create_auction_fails_if_active_auction_exists_for_vault() {
    let mut a = TusdtAuction::new(ALICE, BOB, CHARLIE);
    create_default(&mut a, 0, BOB, 1);
    assert_eq!(
        a.create_auction(ALICE, 0, BOB, 1, 2_000, 800, two(), Some(1_000)),
        Err(Error::AuctionAlreadyExistsForVault)
    );
}

#[test]
fn create_auction_fails_on_invalid_duration() {
    let mut a = TusdtAuction::new(ALICE, BOB, CHARLIE);
    assert_eq!(a.create_auction(ALICE, 0, BOB, 1, 1, 1, two(), Some(0)), Err(Error::InvalidDuration));
    assert_eq!(
        a.create_auction(ALICE, 0, BOB, 1, 1, 1, two(), Some(7 * 24 * 60 * 60 * 1_000 + 1)),
        Err(Error::InvalidDuration)
    );
    assert_eq!(a.create_auction(ALICE, u64::MAX, BOB, 1, 1, 1, two(), Some(1)), Err(Error::ArithmeticError));
}

#[test]
fn place_bid_fails_when_auction_not_found() {
    let mut a = TusdtAuction::new(ALICE, BOB, CHARLIE);
    assert_eq!(a.place_bid(DJANGO, 0, 3, 600, bid_meta(DJANGO)), Err(Error::AuctionNotFound));
}

#[test]
fn place_bid_fails_when_bid_is_below_debt() {
    let mut a = TusdtAuction::new(ALICE, BOB, CHARLIE);
    let id = create_default(&mut a, 0, BOB, 2);
    assert_eq!(a.place_bid(DJANGO, 1, id, 499, bid_meta(DJANGO)), Err(Error::BidBelowDebtBalance));
}

#[test]
fn place_bid_fails_for_non_admin_after_auction_end_without_bids() {
    let mut a = TusdtAuction::new(ALICE, BOB, CHARLIE);
    assert!(a.set_admin(BOB, Some(BOB)).is_ok());
    let id = create_default(&mut a, 100, BOB, 2);
    assert_eq!(a.place_bid(DJANGO, 1_100, id, 600, bid_meta(DJANGO)), Err(Error::NotAdmin));
    // The admin may still bid on the expired auction while it has no bids.
    assert!(a.place_bid(BOB, 1_100, id, 600, bid_meta(BOB)).is_ok());
    // Once bids exist, late bids are closed to everyone.
    assert_eq!(a.place_bid(BOB, 1_100, id, 700, bid_meta(BOB)), Err(Error::AuctionEnded));
}

#[test]
fn finalize_auction_fails_without_bids_after_end() {
    let mut a = TusdtAuction::new(ALICE, BOB, CHARLIE);
    let id = create_default(&mut a, 200, BOB, 3);
    assert_eq!(a.finalize_auction(1_200, id), Err(Error::AuctionHasNoBids));
}

#[test]
fn finalize_auction_fails_before_end() {
    let mut a = TusdtAuction::new(ALICE, BOB, CHARLIE);
    let id = create_default(&mut a, 0, BOB, 3);
    assert!(a.place_bid(DJANGO, 10, id, 600, bid_meta(DJANGO)).is_ok());
    assert_eq!(a.finalize_auction(999, id), Err(Error::AuctionNotEnded));
}

#[test]
fn bidding_flow_pulls_increases_and_refunds_losers() {
    let mut a = TusdtAuction::new(ALICE, BOB, CHARLIE);
    let id = create_default(&mut a, 0, BOB, 4);
    let (d_id, d_pull, ev) = a.place_bid(DJANGO, 1, id, 600, bid_meta(DJANGO)).unwrap();
    assert_eq!((d_id, d_pull), (0, 600));
    assert_eq!((ev.bidder, ev.amount), (DJANGO, 600));
    let (e_id, e_pull, _) = a.place_bid(EVE, 2, id, 650, bid_meta(EVE)).unwrap();
    assert_eq!((e_id, e_pull), (1, 650));
    assert_eq!(a.place_bid(DJANGO, 3, id, 600, bid_meta(DJANGO)), Err(Error::BidAmountNotIncreased));
    // A raise pulls only the increase.
    let (again, raise, _) = a.place_bid(DJANGO, 3, id, 700, bid_meta(DJANGO)).unwrap();
    assert_eq!((again, raise), (0, 100));
    let auc = a.get_auction(id).unwrap();
    assert_eq!(auc.highest_bidder, Some(DJANGO));
    assert_eq!(auc.highest_bid, 700);
    assert_eq!(auc.highest_bid_id, Some(0));
    assert_eq!(auc.bid_count, 2);
    assert_eq!(a.get_auction_bid(id, DJANGO).unwrap().amount, 700);

    assert_eq!(a.withdraw_refund(EVE, id, 1), Err(Error::AuctionNotEnded));
    let fin = a.finalize_auction(1_000, id).unwrap();
    assert_eq!((fin.winner, fin.highest_bid, fin.debt_balance), (DJANGO, 700, 500));
    assert_eq!(a.finalize_auction(1_000, id), Err(Error::AuctionFinalized));
    assert_eq!(a.get_active_auctions_count(), 0);
    assert_eq!(a.get_active_vault_auction(BOB, 4), None);

    assert_eq!(a.withdraw_refund(DJANGO, id, 0), Err(Error::WinningBidLocked));
    assert_eq!(a.withdraw_refund(DJANGO, id, 1), Err(Error::NotBidder));
    assert_eq!(a.withdraw_refund(EVE, id, 1).unwrap().amount, 650);
    assert_eq!(a.withdraw_refund(EVE, id, 1), Err(Error::NoRefundAvailable));

    assert_eq!(a.transfer_winning_bid(BOB, id, CHARLIE), Err(Error::NotController));
    let (amount, _) = a.transfer_winning_bid(ALICE, id, CHARLIE).unwrap();
    assert_eq!(amount, 700);
    assert_eq!(a.transfer_winning_bid(ALICE, id, CHARLIE), Err(Error::WinningBidAlreadyTransferred));
}

#[test]
fn governance_sets_admin() {
    let mut a = TusdtAuction::new(ALICE, BOB, CHARLIE);
    assert_eq!(a.set_admin(ALICE, Some(DJANGO)), Err(Error::NotGovernance));
    assert!(a.set_admin(BOB, Some(DJANGO)).is_ok());
    assert_eq!(a.admin(), Some(DJANGO));
}

#[test]
fn controller_updates_auction_governance() {
    let mut a = TusdtAuction::new(ALICE, BOB, CHARLIE);
    assert_eq!(a.update_governance(BOB, DJANGO), Err(Error::NotController));
    assert!(a.update_governance(ALICE, DJANGO).is_ok());
    assert_eq!(a.governance(), DJANGO);
}

#[test]
fn transfer_winning_bid_fails_before_finalize() {
    let mut a = TusdtAuction::new(ALICE, BOB, CHARLIE);
    let id = create_default(&mut a, 0, BOB, 5);
    assert!(a.place_bid(DJANGO, 1, id, 600, bid_meta(DJANGO)).is_ok());
    assert_eq!(a.transfer_winning_bid(ALICE, id, CHARLIE), Err(Error::AuctionNotEnded));
}

#[test]
fn get_all_auctions_supports_pagination() {
    let mut a = TusdtAuction::new(ALICE, BOB, CHARLIE);
    for vault_id in 0..12u32 {
        assert_eq!(a.create_auction(ALICE, 0, BOB, vault_id, 1_000, 500, two(), Some(2_000)).unwrap().0, vault_id);
    }
    let page0 = a.get_all_auctions(0).unwrap();
    assert_eq!(page0.len(), 10);
    assert_eq!(page0[0].id, 0);
    assert_eq!(page0[9].id, 9);
    let page1 = a.get_all_auctions(1).unwrap();
    assert_eq!(page1.len(), 2);
    assert_eq!(page1[0].id, 10);
    assert_eq!(page1[1].id, 11);
    assert!(a.get_all_auctions(2).unwrap().is_empty());
}

#[test]
fn get_active_auctions_updates_after_finalize() {
    let mut a = TusdtAuction::new(ALICE, BOB, CHARLIE);
    let first = create_default(&mut a, 1, BOB, 11);
    let second = create_default(&mut a, 1, BOB, 12);
    assert!(a.place_bid(DJANGO, 2, first, 600, bid_meta(DJANGO)).is_ok());
    assert!(a.finalize_auction(1_001, first).is_ok());
    let active = a.get_active_auctions(0).unwrap();
    assert_eq!(active.len(), 1);
    assert_eq!(active[0].id, second);
}

#[test]
fn get_bids_returns_empty_for_out_of_bounds_page_when_no_bids() {
    let mut a = TusdtAuction::new(ALICE, BOB, CHARLIE);
    let id = create_default(&mut a, 0, BOB, 1);
    assert!(a.get_bids(id, 0).unwrap().is_empty());
    assert!(a.get_bids(id, 3).unwrap().is_empty());
    assert_eq!(a.get_bids(9, 0), Err(Error::AuctionNotFound));
}

#[test]
fn get_auction_bid_returns_bid_for_bidder() {
    let mut a = TusdtAuction::new(ALICE, BOB, CHARLIE);
    let id = create_default(&mut a, 0, BOB, 1);
    assert!(a.place_bid(DJANGO, 1, id, 600, bid_meta(EVE)).is_ok());
    let bid = a.get_auction_bid(id, DJANGO).unwrap();
    assert_eq!(bid.bidder, DJANGO);
    assert_eq!(bid.amount, 600);
    assert_eq!(bid.metadata, bid_meta(EVE));
    assert_eq!(a.get_bid(id, 0), Some(bid));
    assert_eq!(a.get_auction_bid(id, EVE), None);
    assert_eq!(a.get_bids(id, 0).unwrap(), vec![bid]);
}

#[test]
fn withdraw_refund_fails_when_bid_not_found() {
    let mut a = TusdtAuction::new(ALICE, BOB, CHARLIE);
    let id = create_default(&mut a, 0, BOB, 1);
    assert_eq!(a.withdraw_refund(DJANGO, id, 0), Err(Error::BidNotFound));
}

fn ended_auction(bid_count: u32) -> Auction {
    Auction {
        id: 0,
        vault_owner: BOB,
        vault_id: 9,
        collateral_balance: 1_000,
        debt_balance: 500,
        liquidation_price: two(),
        starts_at: 200,
        ends_at: 1_200,
        highest_bidder: if bid_count > 0 { Some(EVE) } else { None },
        highest_bid: if bid_count > 0 { 550 } else { 0 },
        highest_bid_id: if bid_count > 0 { Some(0) } else { None },
        bid_count,
        is_finalized: false,
    }
}

#[test]
fn late_bid_is_allowed_only_for_admin_when_no_bids_exist() {
    let mut a = TusdtAuction::new(ALICE, BOB, CHARLIE);
    assert!(a.set_admin(BOB, Some(BOB)).is_ok());
    let auction = ended_auction(0);
    assert_eq!(a.ensure_bid_allowed(&auction, BOB, 1_200), Ok(()));
    assert_eq!(a.ensure_bid_allowed(&auction, DJANGO, 1_200), Err(Error::NotAdmin));
    assert_eq!(a.ensure_bid_allowed(&auction, DJANGO, 1_199), Ok(()));
}

#[test]
fn late_bid_fails_after_end_once_bids_exist() {
    let a = TusdtAuction::new(ALICE, BOB, CHARLIE);
    assert_eq!(a.ensure_bid_allowed(&ended_auction(1), BOB, 1_200), Err(Error::AuctionEnded));
    let mut finalized = ended_auction(1);
    finalized.is_finalized = true;
    assert_eq!(a.ensure_bid_allowed(&finalized, BOB, 0), Err(Error::AuctionFinalized));
}

#[test]
fn finalize_auction_fails_if_already_finalized() {
    let mut a = TusdtAuction::new(ALICE, BOB, CHARLIE);
    let id = create_default(&mut a, 100, BOB, 5);
    assert!(a.place_bid(EVE, 101, id, 600, bid_meta(EVE)).is_ok());
    assert!(a.finalize_auction(1_100, id).is_ok());
    assert_eq!(a.finalize_auction(1_100, id), Err(Error::AuctionFinalized));
}

#[test]
fn transfer_winning_bid_fails_for_non_controller() {
    let mut a = TusdtAuction::new(ALICE, BOB, CHARLIE);
    let id = create_default(&mut a, 100, BOB, 6);
    assert!(a.place_bid(EVE, 101, id, 600, bid_meta(EVE)).is_ok());
    assert!(a.finalize_auction(1_100, id).is_ok());
    assert_eq!(a.transfer_winning_bid(BOB, id, DJANGO), Err(Error::NotController));
}

#[test]
fn prepare_bid_stages_without_storing() {
    let mut a = TusdtAuction::new(ALICE, BOB, CHARLIE);
    let id = create_default(&mut a, 0, BOB, 8);
    let auction = a.get_auction(id).unwrap();
    let p = a.prepare_bid(auction, id, EVE, 600, None).unwrap();
    assert!(p.is_new_bid);
    assert_eq!(p.transfer_amount, 600);
    assert_eq!(p.bid.id, 0);
    assert_eq!(p.auction.bid_count, 1);
    assert_eq!(p.auction.highest_bidder, Some(EVE));
    assert_eq!(a.get_auction(id).unwrap().bid_count, 0);
    assert_eq!(a.prepare_bid(auction, id, EVE, 499, None), Err(Error::BidBelowDebtBalance));
}

#[test]
fn active_list_stays_contiguous_after_middle_finalize() {
    let mut a = TusdtAuction::new(ALICE, BOB, CHARLIE);
    let first = create_default(&mut a, 0, BOB, 1);
    let second = create_default(&mut a, 0, BOB, 2);
    let third = create_default(&mut a, 0, BOB, 3);
    assert!(a.place_bid(EVE, 1, second, 600, None).is_ok());
    assert!(a.finalize_auction(1_000, second).is_ok());
    let ids: Vec<u32> = a.get_active_auctions(0).unwrap().iter().map(|x| x.id).collect();
    assert_eq!(ids, vec![first, third]);
    assert!(a.place_bid(EVE, 1, third, 600, None).is_ok());
    assert!(a.finalize_auction(1_000, third).is_ok());
    let ids: Vec<u32> = a.get_active_auctions(0).unwrap().iter().map(|x| x.id).collect();
    assert_eq!(ids, vec![first]);
}

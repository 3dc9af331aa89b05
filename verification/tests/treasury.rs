use tusdt::treasury::{
    split_delta, BUYBACK_BPS, DIVIDEND_BPS, EMERGENCY_BPS, INSURANCE_BPS, OPERATION_BPS, TOTAL_BPS,
    VOTING_BPS,
};

#[test]
fn split_zero_yields_zero_shares() {
    let shares = split_delta(0).unwrap();
    assert_eq!(shares, [0, 0, 0, 0, 0, 0]);
}

#[test]
fn split_exact_total_matches_documented_bps() {
    let shares = split_delta(10_000).unwrap();
    assert_eq!(shares, [5000, 3000, 1000, 400, 400, 200]);
}

#[test]
fn split_one_million_matches_documented_bps() {
    let shares = split_delta(1_000_000).unwrap();
    assert_eq!(shares, [500_000, 300_000, 100_000, 40_000, 40_000, 20_000]);
}

#[test]
fn split_remainder_goes_to_emergency() {
    let shares = split_delta(9_999).unwrap();
    let sum: u64 = shares.iter().sum();
    assert_eq!(sum, 9_999, "shares must sum to delta");

    let op = (9_999u128 * OPERATION_BPS as u128) / TOTAL_BPS as u128;
    let ins = (9_999u128 * INSURANCE_BPS as u128) / TOTAL_BPS as u128;
    let div = (9_999u128 * DIVIDEND_BPS as u128) / TOTAL_BPS as u128;
    let buy = (9_999u128 * BUYBACK_BPS as u128) / TOTAL_BPS as u128;
    let vot = (9_999u128 * VOTING_BPS as u128) / TOTAL_BPS as u128;
    assert_eq!(shares[1] as u128, op);
    assert_eq!(shares[2] as u128, ins);
    assert_eq!(shares[3] as u128, div);
    assert_eq!(shares[4] as u128, buy);
    assert_eq!(shares[5] as u128, vot);
    let emergency_base = (9_999u128 * EMERGENCY_BPS as u128) / TOTAL_BPS as u128;
    assert!((shares[0] as u128) >= emergency_base);
}

#[test]
fn split_arbitrary_amounts_always_sum_to_delta() {
    for delta in [1u64, 7, 13, 99, 100, 12_345, 999_999, 1_234_567_890] {
        let shares = split_delta(delta).unwrap();
        let sum: u64 = shares.iter().sum();
        assert_eq!(sum, delta, "shares must sum to delta for delta={delta}");
    }
}

#[test]
fn split_handles_large_delta_without_overflow() {
    let shares = split_delta(u64::MAX).unwrap();
    let sum: u128 = shares.iter().map(|&s| s as u128).sum();
    assert_eq!(sum, u64::MAX as u128);
}

use tusdt::treasury::{Error, Fund, FundReleased, FundsDistributed, TokenKind, TusdtTreasury};

const GOV: u64 = 1;
const TOKEN: u64 = 2;
const RECIPIENT: u64 = 3;

#[test]
fn distribute_books_new_balances_once() {
    let mut t = TusdtTreasury::new(GOV, TOKEN);
    assert_eq!(t.pending_tusdt(10_000), 10_000);
    assert_eq!(t.distribute(10_000, 0), Ok(Some(FundsDistributed { tusdt_delta: 10_000, native_delta: 0 })));
    assert_eq!(t.fund_balance_tusdt(Fund::Emergency), 5_000);
    assert_eq!(t.fund_balance_tusdt(Fund::Voting), 200);
    assert_eq!(t.pending_tusdt(10_000), 0);
    // Nothing new arrived: nothing is booked twice.
    assert_eq!(t.distribute(10_000, 0), Ok(None));
    assert_eq!(t.fund_balance_tusdt(Fund::Emergency), 5_000);
    assert_eq!(t.distribute(10_000, 1_000), Ok(Some(FundsDistributed { tusdt_delta: 0, native_delta: 1_000 })));
    assert_eq!(t.fund_balance_native(Fund::Operation), 300);
}

#[test]
fn release_pays_out_of_a_fund() {
    let mut t = TusdtTreasury::new(GOV, TOKEN);
    let (dist, rel) = t.release(GOV, 10_000, 0, Fund::Insurance, TokenKind::Tusdt, 600, RECIPIENT).unwrap();
    assert_eq!(dist, Some(FundsDistributed { tusdt_delta: 10_000, native_delta: 0 }));
    assert_eq!(rel, Some(FundReleased { fund: Fund::Insurance, token_kind: TokenKind::Tusdt, amount: 600, recipient: RECIPIENT }));
    assert_eq!(t.fund_balance_tusdt(Fund::Insurance), 400);
    // The paid-out amount has left the balance the treasury books against.
    assert_eq!(t.pending_tusdt(9_400), 0);
    assert_eq!(
        t.release(GOV, 9_400, 0, Fund::Insurance, TokenKind::Tusdt, 401, RECIPIENT),
        Err(Error::InsufficientFundBalance)
    );
    assert_eq!(t.fund_balance_tusdt(Fund::Insurance), 400);
}

#[test]
fn release_is_governance_only() {
    let mut t = TusdtTreasury::new(GOV, TOKEN);
    assert_eq!(t.release(RECIPIENT, 100, 0, Fund::Emergency, TokenKind::Native, 1, RECIPIENT), Err(Error::NotGovernance));
    assert_eq!(t.fund_balance_tusdt(Fund::Emergency), 0);
    assert!(t.set_governance(RECIPIENT, RECIPIENT).is_err());
    assert!(t.set_governance(GOV, RECIPIENT).is_ok());
    assert_eq!(t.governance(), RECIPIENT);
}

use tusdt::erc20::{Approval, Error, Transfer, TusdtErc20};

const ALICE: u64 = 1;
const BOB: u64 = 2;
const EVE: u64 = 5;

#[test]
fn erc20_new_works() {
    let erc20 = TusdtErc20::new(ALICE);
    assert_eq!(erc20.controller(), ALICE);
    assert_eq!(erc20.total_supply(), 0);
    assert_eq!(erc20.balance_of(ALICE), 0);
}

#[test]
fn total_supply_works() {
    let mut erc20 = TusdtErc20::new(ALICE);
    assert!(erc20.mint(ALICE, ALICE, 100).is_ok());
    assert!(erc20.mint(ALICE, BOB, 100).is_ok());
    assert_eq!(erc20.total_supply(), 200);
}

#[test]
fn balance_of_works() {
    let mut erc20 = TusdtErc20::new(ALICE);
    assert!(erc20.mint(ALICE, ALICE, 100).is_ok());
    assert_eq!(erc20.balance_of(ALICE), 100);
    assert_eq!(erc20.balance_of(BOB), 0);
}

#[test]
fn transfer_works() {
    let mut erc20 = TusdtErc20::new(ALICE);
    assert!(erc20.mint(ALICE, ALICE, 100).is_ok());
    assert_eq!(erc20.balance_of(BOB), 0);
    assert_eq!(
        erc20.transfer(ALICE, BOB, 10),
        Ok(Transfer { from: Some(ALICE), to: Some(BOB), value: 10 })
    );
    assert_eq!(erc20.balance_of(BOB), 10);
    assert_eq!(erc20.balance_of(ALICE), 90);
}

#[test]
fn invalid_transfer_should_fail() {
    let mut erc20 = TusdtErc20::new(ALICE);
    assert!(erc20.mint(ALICE, ALICE, 100).is_ok());
    assert_eq!(erc20.balance_of(BOB), 0);
    assert_eq!(erc20.transfer(BOB, EVE, 10), Err(Error::InsufficientBalance));
    assert_eq!(erc20.balance_of(ALICE), 100);
    assert_eq!(erc20.balance_of(BOB), 0);
    assert_eq!(erc20.balance_of(EVE), 0);
}

#[test]
fn transfer_from_works() {
    let mut erc20 = TusdtErc20::new(ALICE);
    assert!(erc20.mint(ALICE, ALICE, 100).is_ok());
    assert_eq!(erc20.transfer_from(ALICE, ALICE, EVE, 10), Err(Error::InsufficientAllowance));
    assert_eq!(erc20.approve(ALICE, BOB, 10), Approval { owner: ALICE, spender: BOB, value: 10 });
    assert_eq!(
        erc20.transfer_from(BOB, ALICE, EVE, 10),
        Ok(Transfer { from: Some(ALICE), to: Some(EVE), value: 10 })
    );
    assert_eq!(erc20.balance_of(EVE), 10);
    assert_eq!(erc20.allowance(ALICE, BOB), 0);
}

#[test]
fn allowance_must_not_change_on_failed_transfer() {
    let mut erc20 = TusdtErc20::new(ALICE);
    assert!(erc20.mint(ALICE, ALICE, 100).is_ok());
    let alice_balance = erc20.balance_of(ALICE);
    let initial_allowance = alice_balance + 2;
    erc20.approve(ALICE, BOB, initial_allowance);
    assert_eq!(
        erc20.transfer_from(BOB, ALICE, EVE, alice_balance + 1),
        Err(Error::InsufficientBalance)
    );
    assert_eq!(erc20.allowance(ALICE, BOB), initial_allowance);
}

#[test]
fn mint_fails_for_non_owner() {
    let mut erc20 = TusdtErc20::new(ALICE);
    assert_eq!(erc20.mint(BOB, BOB, 100), Err(Error::NotOwner));
    assert_eq!(erc20.total_supply(), 0);
    assert_eq!(erc20.balance_of(BOB), 0);
}

#[test]
fn burn_works_for_owner() {
    let mut erc20 = TusdtErc20::new(ALICE);
    assert!(erc20.mint(ALICE, BOB, 100).is_ok());
    assert_eq!(erc20.burn(ALICE, BOB, 40), Ok(Transfer { from: Some(BOB), to: None, value: 40 }));
    assert_eq!(erc20.total_supply(), 60);
    assert_eq!(erc20.balance_of(BOB), 60);
}

#[test]
fn burn_fails_for_non_owner() {
    let mut erc20 = TusdtErc20::new(ALICE);
    assert!(erc20.mint(ALICE, BOB, 100).is_ok());
    assert_eq!(erc20.burn(BOB, BOB, 10), Err(Error::NotOwner));
    assert_eq!(erc20.total_supply(), 100);
    assert_eq!(erc20.balance_of(BOB), 100);
}

#[test]
fn burn_fails_on_insufficient_balance() {
    let mut erc20 = TusdtErc20::new(ALICE);
    assert!(erc20.mint(ALICE, BOB, 50).is_ok());
    assert_eq!(erc20.burn(ALICE, BOB, 60), Err(Error::InsufficientBalance));
    assert_eq!(erc20.total_supply(), 50);
    assert_eq!(erc20.balance_of(BOB), 50);
}

#[test]
fn approve_overwrites_allowance() {
    let mut erc20 = TusdtErc20::new(ALICE);
    erc20.approve(ALICE, BOB, 10);
    assert_eq!(erc20.allowance(ALICE, BOB), 10);
    erc20.approve(ALICE, BOB, 3);
    assert_eq!(erc20.allowance(ALICE, BOB), 3);
}

#[test]
fn transfer_from_partially_consumes_allowance() {
    let mut erc20 = TusdtErc20::new(ALICE);
    assert!(erc20.mint(ALICE, ALICE, 100).is_ok());
    erc20.approve(ALICE, BOB, 30);
    assert!(erc20.transfer_from(BOB, ALICE, EVE, 10).is_ok());
    assert_eq!(erc20.allowance(ALICE, BOB), 20);
    assert_eq!(erc20.balance_of(EVE), 10);
}

#[test]
fn transfer_conserves_total_supply() {
    let mut erc20 = TusdtErc20::new(ALICE);
    assert!(erc20.mint(ALICE, ALICE, 70).is_ok());
    assert!(erc20.mint(ALICE, BOB, 30).is_ok());
    assert!(erc20.transfer(ALICE, BOB, 25).is_ok());
    assert!(erc20.transfer(BOB, EVE, 40).is_ok());
    assert_eq!(erc20.balance_of(ALICE) + erc20.balance_of(BOB) + erc20.balance_of(EVE), 100);
    assert_eq!(erc20.total_supply(), 100);
}

#[test]
fn mint_then_burn_restores_ledger() {
    let mut erc20 = TusdtErc20::new(ALICE);
    assert!(erc20.mint(ALICE, BOB, 10).is_ok());
    assert!(erc20.mint(ALICE, BOB, 55).is_ok());
    assert!(erc20.burn(ALICE, BOB, 55).is_ok());
    assert_eq!(erc20.balance_of(BOB), 10);
    assert_eq!(erc20.total_supply(), 10);
}

#[test]
fn self_transfer_keeps_balance() {
    let mut erc20 = TusdtErc20::new(ALICE);
    assert!(erc20.mint(ALICE, BOB, 10).is_ok());
    assert!(erc20.transfer(BOB, BOB, 7).is_ok());
    assert_eq!(erc20.balance_of(BOB), 10);
}

#[test]
fn allowance_adjustments() {
    let mut erc20 = TusdtErc20::new(ALICE);
    assert_eq!(erc20.increase_allowance(ALICE, BOB, 5), Approval { owner: ALICE, spender: BOB, value: 5 });
    assert_eq!(erc20.increase_allowance(ALICE, BOB, 7).value, 12);
    assert_eq!(erc20.decrease_allowance(ALICE, BOB, 2), Ok(Approval { owner: ALICE, spender: BOB, value: 10 }));
    assert_eq!(erc20.decrease_allowance(ALICE, BOB, 11), Err(Error::InsufficientAllowance));
    assert_eq!(erc20.allowance(ALICE, BOB), 10);
}

#[test]
fn mint_overflow_is_arithmetic_error() {
    let mut erc20 = TusdtErc20::new(ALICE);
    assert!(erc20.mint(ALICE, BOB, u64::MAX).is_ok());
    assert_eq!(erc20.mint(ALICE, EVE, 1), Err(Error::ArithmeticError));
    assert_eq!(erc20.balance_of(EVE), 0);
    assert_eq!(erc20.total_supply(), u64::MAX);
}

#[test]
fn approvals_are_per_pair() {
    let mut erc20 = TusdtErc20::new(ALICE);
    erc20.approve(ALICE, BOB, 10);
    erc20.approve(BOB, ALICE, 20);
    erc20.approve(ALICE, EVE, 30);
    assert_eq!(erc20.allowance(ALICE, BOB), 10);
    assert_eq!(erc20.allowance(BOB, ALICE), 20);
    assert_eq!(erc20.allowance(ALICE, EVE), 30);
    assert_eq!(erc20.allowance(EVE, ALICE), 0);
}

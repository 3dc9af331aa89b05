//! The fee treasury: incoming TUSDT and native balances are booked into six funds by fixed basis
//! points, and governance releases amounts from a named fund.
//!
//! The token balance and native balance that the treasury account holds on chain are read by the
//! caller and handed in; a release returns the payout that the caller must perform.

use vstd::prelude::*;
use crate::types::{AccountId, Balance};

verus! {

/// Distribution share for the Emergency fund, in basis points (50%).
pub const EMERGENCY_BPS: u32 = 5000;
/// Distribution share for the Operation fund, in basis points (30%).
pub const OPERATION_BPS: u32 = 3000;
/// Distribution share for the Insurance fund, in basis points (10%).
pub const INSURANCE_BPS: u32 = 1000;
/// Distribution share for the Dividend fund, in basis points (4%).
pub const DIVIDEND_BPS: u32 = 400;
/// Distribution share for the Buyback fund, in basis points (4%).
pub const BUYBACK_BPS: u32 = 400;
/// Distribution share for the Voting fund, in basis points (2%).
pub const VOTING_BPS: u32 = 200;
/// Sum of all distribution shares (100%).
pub const TOTAL_BPS: u32 = 10_000;

/// The six treasury buckets.
#[derive(Debug, Clone, Copy, PartialEq, Eq, Structural)]
pub enum Fund {
    Emergency,
    Operation,
    Insurance,
    Dividend,
    Buyback,
    Voting,
}

/// Which asset a release pays out.
#[derive(Debug, Clone, Copy, PartialEq, Eq, Structural)]
pub enum TokenKind {
    Tusdt,
    Native,
}

/// Errors returned by the treasury.
#[derive(Debug, Clone, Copy, PartialEq, Eq, Structural)]
pub enum Error {
    /// The caller is not the governance account.
    NotGovernance,
    /// The fund's balance is below the requested release amount.
    InsufficientFundBalance,
    /// The token or native transfer failed.
    TransferFailed,
    /// An arithmetic overflow or underflow occurred.
    ArithmeticError,
}

/// `floor(delta * bps / 10_000)`.
pub open spec fn bps_share(delta: int, bps: int) -> int {
    (delta * bps) / (TOTAL_BPS as int)
}

/// The documented split of `delta`: the five non-emergency funds get their floored basis-point
/// share and Emergency gets the rest, so the six shares sum to `delta`.
pub open spec fn split_spec(delta: int) -> Seq<int> {
    let op = bps_share(delta, OPERATION_BPS as int);
    let ins = bps_share(delta, INSURANCE_BPS as int);
    let div = bps_share(delta, DIVIDEND_BPS as int);
    let buy = bps_share(delta, BUYBACK_BPS as int);
    let vot = bps_share(delta, VOTING_BPS as int);
    seq![delta - (op + ins + div + buy + vot), op, ins, div, buy, vot]
}

/// Sum of a sequence of integers.
pub open spec fn seq_sum(s: Seq<int>) -> int
    decreases s.len(),
{
    if s.len() == 0 {
        0
    } else {
        seq_sum(s.drop_last()) + s.last()
    }
}

proof fn lemma_split_bounds(d: int)
    requires
        0 <= d <= u64::MAX,
    ensures
        0 <= bps_share(d, OPERATION_BPS as int),
        0 <= bps_share(d, INSURANCE_BPS as int),
        0 <= bps_share(d, DIVIDEND_BPS as int),
        0 <= bps_share(d, BUYBACK_BPS as int),
        0 <= bps_share(d, VOTING_BPS as int),
        bps_share(d, OPERATION_BPS as int) + bps_share(d, INSURANCE_BPS as int) + bps_share(
            d,
            DIVIDEND_BPS as int,
        ) + bps_share(d, BUYBACK_BPS as int) + bps_share(d, VOTING_BPS as int) <= bps_share(
            d,
            EMERGENCY_BPS as int,
        ),
        bps_share(d, EMERGENCY_BPS as int) <= d,
{
    assert(0 <= (d * 3000) / 10000 && (d * 3000) / 10000 * 10000 <= d * 3000) by (nonlinear_arith)
        requires
            d >= 0,
    ;
    assert(0 <= (d * 1000) / 10000 && (d * 1000) / 10000 * 10000 <= d * 1000) by (nonlinear_arith)
        requires
            d >= 0,
    ;
    assert(0 <= (d * 400) / 10000 && (d * 400) / 10000 * 10000 <= d * 400) by (nonlinear_arith)
        requires
            d >= 0,
    ;
    assert(0 <= (d * 200) / 10000 && (d * 200) / 10000 * 10000 <= d * 200) by (nonlinear_arith)
        requires
            d >= 0,
    ;
    let s = (d * 3000) / 10000 + (d * 1000) / 10000 + 2 * ((d * 400) / 10000) + (d * 200) / 10000;
    assert(s <= (d * 5000) / 10000) by (nonlinear_arith)
        requires
            d >= 0,
            s == (d * 3000) / 10000 + (d * 1000) / 10000 + 2 * ((d * 400) / 10000) + (d * 200)
                / 10000,
            (d * 3000) / 10000 * 10000 <= d * 3000,
            (d * 1000) / 10000 * 10000 <= d * 1000,
            (d * 400) / 10000 * 10000 <= d * 400,
            (d * 200) / 10000 * 10000 <= d * 200,
    ;
    assert((d * 5000) / 10000 <= d) by (nonlinear_arith)
        requires
            d >= 0,
    ;
}

/// Splits `delta` into `[Emergency, Operation, Insurance, Dividend, Buyback, Voting]` shares.
///
/// Each non-emergency share is `delta * bps / 10_000` (floored); the integer-division remainder is
/// credited to Emergency, so the six shares always sum exactly to `delta`.
pub fn split_delta(delta: Balance) -> (r: Option<[Balance; 6]>)
    ensures
        r is Some,
        r matches Some(shares) ==> {
            &&& forall|i: int| 0 <= i < 6 ==> shares@[i] == #[trigger] split_spec(delta as int)[i]
            &&& shares@[0] + shares@[1] + shares@[2] + shares@[3] + shares@[4] + shares@[5]
                == delta
            &&& shares@[0] >= bps_share(delta as int, EMERGENCY_BPS as int)
        },
{
    proof {
        lemma_split_bounds(delta as int);
    }
    let d = delta as u128;
    let op = d * (OPERATION_BPS as u128) / (TOTAL_BPS as u128);
    let ins = d * (INSURANCE_BPS as u128) / (TOTAL_BPS as u128);
    let div = d * (DIVIDEND_BPS as u128) / (TOTAL_BPS as u128);
    let buy = d * (BUYBACK_BPS as u128) / (TOTAL_BPS as u128);
    let vot = d * (VOTING_BPS as u128) / (TOTAL_BPS as u128);
    let assigned = op + ins + div + buy + vot;
    let emergency = d - assigned;
    let shares: [Balance; 6] = [
        emergency as u64,
        op as u64,
        ins as u64,
        div as u64,
        buy as u64,
        vot as u64,
    ];
    assert(shares@ =~= seq![
        emergency as u64,
        op as u64,
        ins as u64,
        div as u64,
        buy as u64,
        vot as u64,
    ]);
    Some(shares)
}

/// The booked balance of each of the six funds for one asset.
#[derive(Debug, Clone, Copy, PartialEq, Eq, Structural)]
pub struct FundBooks {
    pub emergency: Balance,
    pub operation: Balance,
    pub insurance: Balance,
    pub dividend: Balance,
    pub buyback: Balance,
    pub voting: Balance,
}

impl FundBooks {
    /// The booked balance of fund `f`.
    pub open spec fn amount(self, f: Fund) -> Balance {
        match f {
            Fund::Emergency => self.emergency,
            Fund::Operation => self.operation,
            Fund::Insurance => self.insurance,
            Fund::Dividend => self.dividend,
            Fund::Buyback => self.buyback,
            Fund::Voting => self.voting,
        }
    }

    /// Sum of all six booked balances.
    pub open spec fn total(self) -> int {
        self.emergency + self.operation + self.insurance + self.dividend + self.buyback
            + self.voting
    }

    /// The books with fund `f` set to `v` and every other fund unchanged.
    pub open spec fn updated(self, f: Fund, v: Balance) -> FundBooks {
        match f {
            Fund::Emergency => FundBooks { emergency: v, ..self },
            Fund::Operation => FundBooks { operation: v, ..self },
            Fund::Insurance => FundBooks { insurance: v, ..self },
            Fund::Dividend => FundBooks { dividend: v, ..self },
            Fund::Buyback => FundBooks { buyback: v, ..self },
            Fund::Voting => FundBooks { voting: v, ..self },
        }
    }

    /// Whether adding each share of `shares` to its fund stays within `Balance`.
    pub open spec fn can_credit(self, shares: Seq<int>) -> bool {
        &&& self.emergency + shares[0] <= u64::MAX
        &&& self.operation + shares[1] <= u64::MAX
        &&& self.insurance + shares[2] <= u64::MAX
        &&& self.dividend + shares[3] <= u64::MAX
        &&& self.buyback + shares[4] <= u64::MAX
        &&& self.voting + shares[5] <= u64::MAX
    }

    /// The books with each share added to its fund.
    pub open spec fn credited(self, shares: Seq<int>) -> FundBooks {
        FundBooks {
            emergency: (self.emergency + shares[0]) as u64,
            operation: (self.operation + shares[1]) as u64,
            insurance: (self.insurance + shares[2]) as u64,
            dividend: (self.dividend + shares[3]) as u64,
            buyback: (self.buyback + shares[4]) as u64,
            voting: (self.voting + shares[5]) as u64,
        }
    }

    /// All six funds empty.
    pub fn empty() -> (b: FundBooks)
        ensures
            b.total() == 0,
            forall|f: Fund| #[trigger] b.amount(f) == 0,
    {
        FundBooks { emergency: 0, operation: 0, insurance: 0, dividend: 0, buyback: 0, voting: 0 }
    }

    /// The booked balance of fund `f`.
    pub fn get(&self, f: Fund) -> (v: Balance)
        ensures
            v == self.amount(f),
    {
        match f {
            Fund::Emergency => self.emergency,
            Fund::Operation => self.operation,
            Fund::Insurance => self.insurance,
            Fund::Dividend => self.dividend,
            Fund::Buyback => self.buyback,
            Fund::Voting => self.voting,
        }
    }

    /// Sets fund `f` to `v`.
    pub fn set(&mut self, f: Fund, v: Balance)
        ensures
            *final(self) == old(self).updated(f, v),
            final(self).total() == old(self).total() - old(self).amount(f) + v,
    {
        match f {
            Fund::Emergency => self.emergency = v,
            Fund::Operation => self.operation = v,
            Fund::Insurance => self.insurance = v,
            Fund::Dividend => self.dividend = v,
            Fund::Buyback => self.buyback = v,
            Fund::Voting => self.voting = v,
        }
    }
}

/// Treasury state: the governance role, the TUSDT token address, the amounts already booked,
/// and the per-fund books for each asset.
#[derive(Debug, Clone, Copy)]
pub struct TusdtTreasury {
    pub governance: AccountId,
    pub token: AccountId,
    pub tusdt_allocated: Balance,
    pub native_allocated: Balance,
    pub funds_tusdt: FundBooks,
    pub funds_native: FundBooks,
}

/// Emitted when pending TUSDT and/or native balances are booked into the six funds.
#[derive(Debug, Clone, Copy, PartialEq, Eq, Structural)]
pub struct FundsDistributed {
    pub tusdt_delta: Balance,
    pub native_delta: Balance,
}

/// Emitted when governance releases an amount from a fund. It also names the transfer that the
/// host must make: `amount` of `token_kind` to `recipient`.
#[derive(Debug, Clone, Copy, PartialEq, Eq, Structural)]
pub struct FundReleased {
    pub fund: Fund,
    pub token_kind: TokenKind,
    pub amount: Balance,
    pub recipient: AccountId,
}

/// Emitted when the governance address is reassigned.
#[derive(Debug, Clone, Copy, PartialEq, Eq, Structural)]
pub struct GovernanceUpdated {
    pub previous: AccountId,
    pub new: AccountId,
}

/// The deltas that `distribute` books, when either is non-zero.
pub open spec fn distribution_event(t: TusdtTreasury, actual_tusdt: Balance, actual_native: Balance) -> Option<FundsDistributed> {
    let td = if actual_tusdt > t.tusdt_allocated { actual_tusdt - t.tusdt_allocated } else { 0 };
    let nd = if actual_native > t.native_allocated { actual_native - t.native_allocated } else { 0 };
    if td > 0 || nd > 0 {
        Some(FundsDistributed { tusdt_delta: td as u64, native_delta: nd as u64 })
    } else {
        None
    }
}

impl TusdtTreasury {
    /// Whether each asset's six fund balances add up to the amount booked for it: the books
    /// balance against what the treasury has distributed.
    pub open spec fn books_balanced(&self) -> bool {
        &&& self.funds_tusdt.total() == self.tusdt_allocated
        &&& self.funds_native.total() == self.native_allocated
    }

    /// The state after booking `tusdt_delta` and `native_delta` (when each is non-zero), or
    /// `None` when a fund would overflow.
    pub open spec fn distributed(
        self,
        actual_tusdt: Balance,
        actual_native: Balance,
    ) -> Option<TusdtTreasury> {
        let td = if actual_tusdt > self.tusdt_allocated {
            actual_tusdt - self.tusdt_allocated
        } else {
            0
        };
        let nd = if actual_native > self.native_allocated {
            actual_native - self.native_allocated
        } else {
            0
        };
        if td > 0 && !self.funds_tusdt.can_credit(split_spec(td)) {
            None
        } else if nd > 0 && !self.funds_native.can_credit(split_spec(nd)) {
            None
        } else {
            Some(
                TusdtTreasury {
                    tusdt_allocated: if td > 0 {
                        actual_tusdt
                    } else {
                        self.tusdt_allocated
                    },
                    funds_tusdt: if td > 0 {
                        self.funds_tusdt.credited(split_spec(td))
                    } else {
                        self.funds_tusdt
                    },
                    native_allocated: if nd > 0 {
                        actual_native
                    } else {
                        self.native_allocated
                    },
                    funds_native: if nd > 0 {
                        self.funds_native.credited(split_spec(nd))
                    } else {
                        self.funds_native
                    },
                    ..self
                },
            )
        }
    }

    /// A treasury owned by `caller` (the deployer) for the TUSDT token at `token_address`.
    pub fn new(caller: AccountId, token_address: AccountId) -> (t: TusdtTreasury)
        ensures
            t.governance == caller,
            t.token == token_address,
            t.tusdt_allocated == 0,
            t.native_allocated == 0,
            forall|f: Fund| #[trigger] t.funds_tusdt.amount(f) == 0 && t.funds_native.amount(f) == 0,
            t.books_balanced(),
    {
        TusdtTreasury {
            governance: caller,
            token: token_address,
            tusdt_allocated: 0,
            native_allocated: 0,
            funds_tusdt: FundBooks::empty(),
            funds_native: FundBooks::empty(),
        }
    }

    /// The governance account.
    pub fn governance(&self) -> (a: AccountId)
        ensures
            a == self.governance,
    {
        self.governance
    }

    /// The TUSDT token address.
    pub fn token(&self) -> (a: AccountId)
        ensures
            a == self.token,
    {
        self.token
    }

    /// The booked TUSDT balance of `fund`.
    pub fn fund_balance_tusdt(&self, fund: Fund) -> (b: Balance)
        ensures
            b == self.funds_tusdt.amount(fund),
    {
        self.funds_tusdt.get(fund)
    }

    /// The booked native balance of `fund`.
    pub fn fund_balance_native(&self, fund: Fund) -> (b: Balance)
        ensures
            b == self.funds_native.amount(fund),
    {
        self.funds_native.get(fund)
    }

    /// The unbooked TUSDT delta, given the treasury account's token balance.
    pub fn pending_tusdt(&self, actual_tusdt: Balance) -> (b: Balance)
        ensures
            b == (if actual_tusdt > self.tusdt_allocated {
                actual_tusdt - self.tusdt_allocated
            } else {
                0
            }),
    {
        actual_tusdt.saturating_sub(self.tusdt_allocated)
    }

    /// The unbooked native delta, given the treasury account's native balance.
    pub fn pending_native(&self, actual_native: Balance) -> (b: Balance)
        ensures
            b == (if actual_native > self.native_allocated {
                actual_native - self.native_allocated
            } else {
                0
            }),
    {
        actual_native.saturating_sub(self.native_allocated)
    }

    /// Fails with `NotGovernance` unless `caller` is the governance account.
    pub fn ensure_governance(&self, caller: AccountId) -> (r: Result<(), Error>)
        ensures
            r is Ok <==> caller == self.governance,
            r matches Err(e) ==> e == Error::NotGovernance,
    {
        if caller != self.governance {
            return Err(Error::NotGovernance);
        }
        Ok(())
    }

    /// Reassigns the governance role; only the current governance may call it.
    pub fn set_governance(&mut self, caller: AccountId, new_governance: AccountId) -> (r: Result<
        GovernanceUpdated,
        Error,
    >)
        ensures
            r is Ok <==> caller == old(self).governance,
            r matches Err(e) ==> e == Error::NotGovernance && *final(self) == *old(self),
            r matches Ok(ev) ==> ev == (GovernanceUpdated { previous: old(self).governance, new: new_governance }),
            r is Ok ==> *final(self) == (TusdtTreasury { governance: new_governance, ..*old(self) }),
            old(self).books_balanced() ==> final(self).books_balanced(),
    {
        self.ensure_governance(caller)?;
        let previous = self.governance;
        self.governance = new_governance;
        Ok(GovernanceUpdated { previous, new: new_governance })
    }

    /// Adds the split of `delta` to the TUSDT books (`is_tusdt`) or the native books. Fails with
    /// `ArithmeticError`, leaving the books unchanged, when a fund would overflow.
    pub fn allocate_to_funds(&mut self, delta: Balance, is_tusdt: bool) -> (r: Result<(), Error>)
        ensures
            is_tusdt ==> (r is Ok <==> old(self).funds_tusdt.can_credit(split_spec(delta as int))),
            !is_tusdt ==> (r is Ok <==> old(self).funds_native.can_credit(
                split_spec(delta as int),
            )),
            r matches Err(e) ==> e == Error::ArithmeticError && *final(self) == *old(self),
            r is Ok && is_tusdt ==> *final(self) == (TusdtTreasury {
                funds_tusdt: old(self).funds_tusdt.credited(split_spec(delta as int)),
                ..*old(self)
            }),
            r is Ok && !is_tusdt ==> *final(self) == (TusdtTreasury {
                funds_native: old(self).funds_native.credited(split_spec(delta as int)),
                ..*old(self)
            }),
    {
        let shares = match split_delta(delta) {
            Some(s) => s,
            None => return Err(Error::ArithmeticError),
        };
        assert(shares@[0] == split_spec(delta as int)[0]);
        assert(shares@[1] == split_spec(delta as int)[1]);
        assert(shares@[2] == split_spec(delta as int)[2]);
        assert(shares@[3] == split_spec(delta as int)[3]);
        assert(shares@[4] == split_spec(delta as int)[4]);
        assert(shares@[5] == split_spec(delta as int)[5]);
        let books = if is_tusdt {
            self.funds_tusdt
        } else {
            self.funds_native
        };
        let e = match books.emergency.checked_add(shares[0]) {
            Some(v) => v,
            None => return Err(Error::ArithmeticError),
        };
        let o = match books.operation.checked_add(shares[1]) {
            Some(v) => v,
            None => return Err(Error::ArithmeticError),
        };
        let i = match books.insurance.checked_add(shares[2]) {
            Some(v) => v,
            None => return Err(Error::ArithmeticError),
        };
        let dv = match books.dividend.checked_add(shares[3]) {
            Some(v) => v,
            None => return Err(Error::ArithmeticError),
        };
        let b = match books.buyback.checked_add(shares[4]) {
            Some(v) => v,
            None => return Err(Error::ArithmeticError),
        };
        let vt = match books.voting.checked_add(shares[5]) {
            Some(v) => v,
            None => return Err(Error::ArithmeticError),
        };
        let next = FundBooks {
            emergency: e,
            operation: o,
            insurance: i,
            dividend: dv,
            buyback: b,
            voting: vt,
        };
        if is_tusdt {
            self.funds_tusdt = next;
        } else {
            self.funds_native = next;
        }
        Ok(())
    }

    /// Books any new TUSDT and native deltas into the six funds. Permissionless and idempotent:
    /// `actual_tusdt` and `actual_native` are the treasury account's current balances. Fails with
    /// `ArithmeticError`, leaving the state unchanged, when a fund would overflow.
    pub fn distribute(&mut self, actual_tusdt: Balance, actual_native: Balance) -> (r: Result<
        Option<FundsDistributed>,
        Error,
    >)
        ensures
            r is Ok <==> old(self).distributed(actual_tusdt, actual_native) is Some,
            r matches Ok(ev) ==> ev == distribution_event(*old(self), actual_tusdt, actual_native),
            r matches Err(e) ==> e == Error::ArithmeticError && *final(self) == *old(self),
            r is Ok ==> Some(*final(self)) == old(self).distributed(actual_tusdt, actual_native),
            old(self).books_balanced() ==> final(self).books_balanced(),
    {
        let tusdt_delta = actual_tusdt.saturating_sub(self.tusdt_allocated);
        let native_delta = actual_native.saturating_sub(self.native_allocated);
        let before = *self;
        if tusdt_delta > 0 {
            self.allocate_to_funds(tusdt_delta, true)?;
            self.tusdt_allocated = actual_tusdt;
        }
        if native_delta > 0 {
            match self.allocate_to_funds(native_delta, false) {
                Ok(()) => {},
                Err(e) => {
                    *self = before;
                    return Err(e);
                },
            }
            self.native_allocated = actual_native;
        }
        if tusdt_delta > 0 || native_delta > 0 {
            Ok(Some(FundsDistributed { tusdt_delta, native_delta }))
        } else {
            Ok(None)
        }
    }

    /// Releases `amount` of `token_kind` from `fund` to `recipient`; governance only. New fees
    /// are booked first (as `distribute` does; its event is returned first). A zero amount
    /// releases nothing. On success the returned `FundReleased`, if any, names the transfer the
    /// host must make; a failed transfer is reported as `TransferFailed`.
    pub fn release(
        &mut self,
        caller: AccountId,
        actual_tusdt: Balance,
        actual_native: Balance,
        fund: Fund,
        token_kind: TokenKind,
        amount: Balance,
        recipient: AccountId,
    ) -> (r: Result<(Option<FundsDistributed>, Option<FundReleased>), Error>)
        ensures
            old(self).books_balanced() ==> final(self).books_balanced(),
            caller != old(self).governance ==> r == Err::<(Option<FundsDistributed>, Option<FundReleased>), Error>(
                Error::NotGovernance,
            ),
            r is Err ==> *final(self) == *old(self),
            caller == old(self).governance ==> match old(self).distributed(
                actual_tusdt,
                actual_native,
            ) {
                None => r == Err::<(Option<FundsDistributed>, Option<FundReleased>), Error>(Error::ArithmeticError),
                Some(d) => if amount == 0 {
                    r == Ok::<(Option<FundsDistributed>, Option<FundReleased>), Error>((distribution_event(*old(self), actual_tusdt, actual_native), None)) && *final(self) == d
                } else {
                    match token_kind {
                        TokenKind::Tusdt => if d.funds_tusdt.amount(fund) < amount {
                            r == Err::<(Option<FundsDistributed>, Option<FundReleased>), Error>(Error::InsufficientFundBalance)
                        } else if d.tusdt_allocated < amount {
                            r == Err::<(Option<FundsDistributed>, Option<FundReleased>), Error>(Error::ArithmeticError)
                        } else {
                            &&& r == Ok::<(Option<FundsDistributed>, Option<FundReleased>), Error>(
                                (distribution_event(*old(self), actual_tusdt, actual_native),
                                Some(FundReleased { fund, token_kind, amount, recipient })),
                            )
                            &&& *final(self) == (TusdtTreasury {
                                funds_tusdt: d.funds_tusdt.updated(
                                    fund,
                                    (d.funds_tusdt.amount(fund) - amount) as u64,
                                ),
                                tusdt_allocated: (d.tusdt_allocated - amount) as u64,
                                ..d
                            })
                        },
                        TokenKind::Native => if d.funds_native.amount(fund) < amount {
                            r == Err::<(Option<FundsDistributed>, Option<FundReleased>), Error>(Error::InsufficientFundBalance)
                        } else if d.native_allocated < amount {
                            r == Err::<(Option<FundsDistributed>, Option<FundReleased>), Error>(Error::ArithmeticError)
                        } else {
                            &&& r == Ok::<(Option<FundsDistributed>, Option<FundReleased>), Error>(
                                (distribution_event(*old(self), actual_tusdt, actual_native),
                                Some(FundReleased { fund, token_kind, amount, recipient })),
                            )
                            &&& *final(self) == (TusdtTreasury {
                                funds_native: d.funds_native.updated(
                                    fund,
                                    (d.funds_native.amount(fund) - amount) as u64,
                                ),
                                native_allocated: (d.native_allocated - amount) as u64,
                                ..d
                            })
                        },
                    }
                },
            },
    {
        self.ensure_governance(caller)?;
        let restore = *self;
        let distributed = self.distribute(actual_tusdt, actual_native)?;
        if amount == 0 {
            return Ok((distributed, None));
        }
        match token_kind {
            TokenKind::Tusdt => {
                let current = self.funds_tusdt.get(fund);
                if current < amount {
                    *self = restore;
                    return Err(Error::InsufficientFundBalance);
                }
                if self.tusdt_allocated < amount {
                    *self = restore;
                    return Err(Error::ArithmeticError);
                }
                self.funds_tusdt.set(fund, current - amount);
                self.tusdt_allocated = self.tusdt_allocated - amount;
            },
            TokenKind::Native => {
                let current = self.funds_native.get(fund);
                if current < amount {
                    *self = restore;
                    return Err(Error::InsufficientFundBalance);
                }
                if self.native_allocated < amount {
                    *self = restore;
                    return Err(Error::ArithmeticError);
                }
                self.funds_native.set(fund, current - amount);
                self.native_allocated = self.native_allocated - amount;
            },
        }
        Ok((distributed, Some(FundReleased { fund, token_kind, amount, recipient })))
    }
}

} // verus!

//! The tUSDT token: ERC20-style balances and allowances, with minting and burning reserved to a
//! controller account. A failed message leaves the ledger unchanged.

use vstd::prelude::*;
use std::collections::HashMap;
use crate::types::{AccountId, Balance};

verus! {

broadcast use vstd::std_specs::hash::group_hash_axioms;

/// Emitted on token movement; `from == None` is a mint, `to == None` a burn.
#[derive(Debug, Clone, Copy, PartialEq, Eq, Structural)]
pub struct Transfer {
    pub from: Option<AccountId>,
    pub to: Option<AccountId>,
    pub value: Balance,
}

/// Emitted whenever an owner sets a spender's allowance.
#[derive(Debug, Clone, Copy, PartialEq, Eq, Structural)]
pub struct Approval {
    pub owner: AccountId,
    pub spender: AccountId,
    pub value: Balance,
}

/// Errors of the token.
#[derive(Debug, Clone, Copy, PartialEq, Eq, Structural)]
pub enum Error {
    /// The sender's balance is below the amount.
    InsufficientBalance,
    /// The caller's allowance from the owner is below the amount.
    InsufficientAllowance,
    /// The caller is not the token's owner, the controller account that may mint and burn.
    NotOwner,
    /// An arithmetic overflow or underflow.
    ArithmeticError,
}

/// The key under which the allowance of `spender` from `owner` is stored.
pub open spec fn allowance_key(owner: AccountId, spender: AccountId) -> u128 {
    ((owner as int) * 0x1_0000_0000_0000_0000 + (spender as int)) as u128
}

/// The key under which the allowance of `spender` from `owner` is stored.
pub fn allowance_key_of(owner: AccountId, spender: AccountId) -> (k: u128)
    ensures
        k == allowance_key(owner, spender),
{
    proof {
        assert((owner as int) * 0x1_0000_0000_0000_0000 + (spender as int) <= u128::MAX) by (nonlinear_arith)
            requires 0 <= owner < 0x1_0000_0000_0000_0000, 0 <= spender < 0x1_0000_0000_0000_0000;
    }
    (owner as u128) * 0x1_0000_0000_0000_0000u128 + (spender as u128)
}

/// Allowance keys of distinct (owner, spender) pairs differ.
proof fn lemma_allowance_key_injective(o1: AccountId, s1: AccountId, o2: AccountId, s2: AccountId)
    ensures
        allowance_key(o1, s1) == allowance_key(o2, s2) ==> o1 == o2 && s1 == s2,
{
    assert(allowance_key(o1, s1) == allowance_key(o2, s2) ==> o1 == o2 && s1 == s2) by (nonlinear_arith)
        requires
            0 <= o1 < 0x1_0000_0000_0000_0000,
            0 <= o2 < 0x1_0000_0000_0000_0000,
            0 <= s1 < 0x1_0000_0000_0000_0000,
            0 <= s2 < 0x1_0000_0000_0000_0000,
    ;
}

/// Token storage.
pub struct TusdtErc20 {
    pub controller: AccountId,
    pub total_supply: Balance,
    pub balances: HashMap<AccountId, Balance>,
    pub allowances: HashMap<u128, Balance>,
}

/// The abstract token ledger.
pub struct LedgerView {
    pub controller: AccountId,
    pub total_supply: Balance,
    pub balances: Map<AccountId, Balance>,
    pub allowances: Map<u128, Balance>,
}

impl View for TusdtErc20 {
    type V = LedgerView;

    open spec fn view(&self) -> LedgerView {
        LedgerView {
            controller: self.controller,
            total_supply: self.total_supply,
            balances: self.balances@,
            allowances: self.allowances@,
        }
    }
}

impl LedgerView {
    /// The balance of `a` (0 when none is stored).
    pub open spec fn balance(self, a: AccountId) -> Balance {
        if self.balances.contains_key(a) { self.balances[a] } else { 0 }
    }

    /// The allowance of `spender` from `owner` (0 when none is stored).
    pub open spec fn allowance(self, owner: AccountId, spender: AccountId) -> Balance {
        if self.allowances.contains_key(allowance_key(owner, spender)) { self.allowances[allowance_key(owner, spender)] } else { 0 }
    }

    /// The ledger with the balance of `a` set to `b`.
    pub open spec fn with_balance(self, a: AccountId, b: Balance) -> LedgerView {
        LedgerView { balances: self.balances.insert(a, b), ..self }
    }

    /// The ledger with the allowance of `spender` from `owner` set to `b`.
    pub open spec fn with_allowance(self, owner: AccountId, spender: AccountId, b: Balance) -> LedgerView {
        LedgerView { allowances: self.allowances.insert(allowance_key(owner, spender), b), ..self }
    }

    /// A move of `value` from `from` to `to`: `None` when `from` holds less or `to` would
    /// overflow. Moving to oneself changes nothing.
    pub open spec fn moved(self, from: AccountId, to: AccountId, value: Balance) -> Option<LedgerView> {
        if self.balance(from) < value {
            None
        } else {
            let v1 = self.with_balance(from, (self.balance(from) - value) as u64);
            if v1.balance(to) + value > u64::MAX {
                None
            } else {
                Some(v1.with_balance(to, (v1.balance(to) + value) as u64))
            }
        }
    }
}

/// The error of a failed move: `InsufficientBalance` when `from` holds less, otherwise an
/// overflow.
pub open spec fn move_error(v: LedgerView, from: AccountId, value: Balance) -> Error {
    if v.balance(from) < value { Error::InsufficientBalance } else { Error::ArithmeticError }
}

impl TusdtErc20 {
    /// Fails with `NotOwner` unless `caller` is the controller.
    fn ensure_controller(&self, caller: AccountId) -> (r: Result<(), Error>)
        ensures
            r is Ok <==> caller == self.controller,
            r matches Err(e) ==> e == Error::NotOwner,
    {
        if !(caller == self.controller) {
            return Err(Error::NotOwner);
        }
        Ok(())
    }

    /// A token controlled by `controller`, with no supply.
    pub fn new(controller: AccountId) -> (t: TusdtErc20)
        ensures
            t@.controller == controller,
            t@.total_supply == 0,
            t@.balances == Map::<AccountId, Balance>::empty(),
            t@.allowances == Map::<u128, Balance>::empty(),
    {
        TusdtErc20 { controller, total_supply: 0, balances: HashMap::new(), allowances: HashMap::new() }
    }

    /// The controller account.
    pub fn controller(&self) -> (a: AccountId)
        ensures
            a == self.controller,
    {
        self.controller
    }

    /// The total supply in circulation.
    pub fn total_supply(&self) -> (s: Balance)
        ensures
            s == self.total_supply,
    {
        self.total_supply
    }

    /// The balance of `owner`.
    pub fn balance_of(&self, owner: AccountId) -> (b: Balance)
        ensures
            b == self@.balance(owner),
    {
        match self.balances.get(&owner) {
            Some(b) => *b,
            None => 0,
        }
    }

    /// The allowance of `spender` from `owner`.
    pub fn allowance(&self, owner: AccountId, spender: AccountId) -> (b: Balance)
        ensures
            b == self@.allowance(owner, spender),
    {
        match self.allowances.get(&allowance_key_of(owner, spender)) {
            Some(b) => *b,
            None => 0,
        }
    }

    fn set_allowance(&mut self, owner: AccountId, spender: AccountId, value: Balance) -> (ev: Approval)
        ensures
            final(self)@ == old(self)@.with_allowance(owner, spender, value),
            ev == (Approval { owner, spender, value }),
    {
        self.allowances.insert(allowance_key_of(owner, spender), value);
        Approval { owner, spender, value }
    }

    fn transfer_from_to(&mut self, from: AccountId, to: AccountId, value: Balance) -> (r: Result<Transfer, Error>)
        ensures
            match old(self)@.moved(from, to, value) {
                Some(v) => r == Ok::<Transfer, Error>(Transfer { from: Some(from), to: Some(to), value }) && final(self)@ == v,
                None => r == Err::<Transfer, Error>(move_error(old(self)@, from, value)) && final(self)@ == old(self)@,
            },
    {
        let from_balance = self.balance_of(from);
        if from_balance < value {
            return Err(Error::InsufficientBalance);
        }
        let to_balance = if from == to { from_balance - value } else { self.balance_of(to) };
        let new_to = match to_balance.checked_add(value) {
            Some(b) => b,
            None => return Err(Error::ArithmeticError),
        };
        self.balances.insert(from, from_balance - value);
        self.balances.insert(to, new_to);
        proof {
            let v1 = old(self)@.with_balance(from, (from_balance - value) as u64);
            assert(v1.balance(to) == to_balance);
            assert(final(self)@.balances =~= v1.with_balance(to, new_to).balances);
        }
        Ok(Transfer { from: Some(from), to: Some(to), value })
    }

    /// Moves `value` from `caller` to `to`.
    pub fn transfer(&mut self, caller: AccountId, to: AccountId, value: Balance) -> (r: Result<Transfer, Error>)
        ensures
            match old(self)@.moved(caller, to, value) {
                Some(v) => r == Ok::<Transfer, Error>(Transfer { from: Some(caller), to: Some(to), value }) && final(self)@ == v,
                None => r == Err::<Transfer, Error>(move_error(old(self)@, caller, value)) && final(self)@ == old(self)@,
            },
    {
        self.transfer_from_to(caller, to, value)
    }

    /// Mints `value` to `to`. Controller only.
    pub fn mint(&mut self, caller: AccountId, to: AccountId, value: Balance) -> (r: Result<Transfer, Error>)
        ensures
            caller != old(self).controller ==> r == Err::<Transfer, Error>(Error::NotOwner) && final(self)@ == old(self)@,
            caller == old(self).controller && (old(self).total_supply + value > u64::MAX || old(self)@.balance(to) + value > u64::MAX)
                ==> r == Err::<Transfer, Error>(Error::ArithmeticError) && final(self)@ == old(self)@,
            caller == old(self).controller && old(self).total_supply + value <= u64::MAX && old(self)@.balance(to) + value <= u64::MAX
                ==> r == Ok::<Transfer, Error>(Transfer { from: None, to: Some(to), value })
                    && final(self)@ == (LedgerView { total_supply: (old(self).total_supply + value) as u64, ..old(self)@.with_balance(to, (old(self)@.balance(to) + value) as u64) }),
    {
        match self.ensure_controller(caller) {
            Ok(()) => {},
            Err(e) => return Err(e),
        }
        let to_balance = self.balance_of(to);
        let supply = match self.total_supply.checked_add(value) {
            Some(s) => s,
            None => return Err(Error::ArithmeticError),
        };
        let new_balance = match to_balance.checked_add(value) {
            Some(b) => b,
            None => return Err(Error::ArithmeticError),
        };
        self.total_supply = supply;
        self.balances.insert(to, new_balance);
        Ok(Transfer { from: None, to: Some(to), value })
    }

    /// Burns `value` from `from`. Controller only.
    pub fn burn(&mut self, caller: AccountId, from: AccountId, value: Balance) -> (r: Result<Transfer, Error>)
        ensures
            caller != old(self).controller ==> r == Err::<Transfer, Error>(Error::NotOwner) && final(self)@ == old(self)@,
            caller == old(self).controller && old(self)@.balance(from) < value
                ==> r == Err::<Transfer, Error>(Error::InsufficientBalance) && final(self)@ == old(self)@,
            caller == old(self).controller && old(self)@.balance(from) >= value && old(self).total_supply < value
                ==> r == Err::<Transfer, Error>(Error::ArithmeticError) && final(self)@ == old(self)@,
            caller == old(self).controller && old(self)@.balance(from) >= value && old(self).total_supply >= value
                ==> r == Ok::<Transfer, Error>(Transfer { from: Some(from), to: None, value })
                    && final(self)@ == (LedgerView { total_supply: (old(self).total_supply - value) as u64, ..old(self)@.with_balance(from, (old(self)@.balance(from) - value) as u64) }),
    {
        match self.ensure_controller(caller) {
            Ok(()) => {},
            Err(e) => return Err(e),
        }
        let from_balance = self.balance_of(from);
        if from_balance < value {
            return Err(Error::InsufficientBalance);
        }
        if self.total_supply < value {
            return Err(Error::ArithmeticError);
        }
        self.balances.insert(from, from_balance - value);
        self.total_supply = self.total_supply - value;
        Ok(Transfer { from: Some(from), to: None, value })
    }

    /// Sets the allowance of `spender` from `caller` to `value`.
    pub fn approve(&mut self, caller: AccountId, spender: AccountId, value: Balance) -> (ev: Approval)
        ensures
            final(self)@ == old(self)@.with_allowance(caller, spender, value),
            ev == (Approval { owner: caller, spender, value }),
    {
        self.set_allowance(caller, spender, value)
    }

    /// Raises the allowance of `spender` from `caller` by `delta_value`, saturating.
    pub fn increase_allowance(&mut self, caller: AccountId, spender: AccountId, delta_value: Balance) -> (ev: Approval)
        ensures
            ({
                let a = old(self)@.allowance(caller, spender) + delta_value;
                let v = (if a > u64::MAX { u64::MAX as int } else { a }) as u64;
                final(self)@ == old(self)@.with_allowance(caller, spender, v) && ev == (Approval { owner: caller, spender, value: v })
            }),
    {
        let a = self.allowance(caller, spender);
        self.set_allowance(caller, spender, a.saturating_add(delta_value))
    }

    /// Lowers the allowance of `spender` from `caller` by `delta_value`; fails with
    /// `InsufficientAllowance` when it is smaller.
    pub fn decrease_allowance(&mut self, caller: AccountId, spender: AccountId, delta_value: Balance) -> (r: Result<Approval, Error>)
        ensures
            old(self)@.allowance(caller, spender) < delta_value ==> r == Err::<Approval, Error>(Error::InsufficientAllowance) && final(self)@ == old(self)@,
            old(self)@.allowance(caller, spender) >= delta_value ==> {
                let v = (old(self)@.allowance(caller, spender) - delta_value) as u64;
                r == Ok::<Approval, Error>(Approval { owner: caller, spender, value: v }) && final(self)@ == old(self)@.with_allowance(caller, spender, v)
            },
    {
        let a = self.allowance(caller, spender);
        if a < delta_value {
            return Err(Error::InsufficientAllowance);
        }
        Ok(self.set_allowance(caller, spender, a - delta_value))
    }

    /// Moves `value` from `from` to `to` on the caller's allowance, which shrinks by `value`.
    pub fn transfer_from(&mut self, caller: AccountId, from: AccountId, to: AccountId, value: Balance) -> (r: Result<Transfer, Error>)
        ensures
            old(self)@.allowance(from, caller) < value ==> r == Err::<Transfer, Error>(Error::InsufficientAllowance) && final(self)@ == old(self)@,
            old(self)@.allowance(from, caller) >= value ==> match old(self)@.moved(from, to, value) {
                Some(v) => r == Ok::<Transfer, Error>(Transfer { from: Some(from), to: Some(to), value })
                    && final(self)@ == v.with_allowance(from, caller, (old(self)@.allowance(from, caller) - value) as u64),
                None => r == Err::<Transfer, Error>(move_error(old(self)@, from, value)) && final(self)@ == old(self)@,
            },
    {
        let a = self.allowance(from, caller);
        if a < value {
            return Err(Error::InsufficientAllowance);
        }
        let ev = match self.transfer_from_to(from, to, value) {
            Ok(ev) => ev,
            Err(e) => return Err(e),
        };
        self.allowances.insert(allowance_key_of(from, caller), a - value);
        Ok(ev)
    }
}

/// A successful transfer leaves the total supply unchanged and moves exactly `value`: the
/// sender's and the recipient's balances together hold what they held before.
pub proof fn law_transfer_conserves(v: LedgerView, from: AccountId, to: AccountId, value: Balance)
    requires
        v.moved(from, to, value) is Some,
    ensures
        v.moved(from, to, value).unwrap().total_supply == v.total_supply,
        from != to ==> v.moved(from, to, value).unwrap().balance(from) == v.balance(from) - value,
        from != to ==> v.moved(from, to, value).unwrap().balance(to) == v.balance(to) + value,
        from == to ==> v.moved(from, to, value).unwrap().balance(from) == v.balance(from),
        forall|a: AccountId| a != from && a != to ==> #[trigger] v.moved(from, to, value).unwrap().balance(a) == v.balance(a),
{
}

/// Minting `value` then burning `value` from the same account restores the balance and the
/// total supply.
pub proof fn law_mint_then_burn_restores(v: LedgerView, to: AccountId, value: Balance)
    requires
        v.total_supply + value <= u64::MAX,
        v.balance(to) + value <= u64::MAX,
    ensures
        ({
            let minted = LedgerView { total_supply: (v.total_supply + value) as u64, ..v.with_balance(to, (v.balance(to) + value) as u64) };
            let burned = LedgerView { total_supply: (minted.total_supply - value) as u64, ..minted.with_balance(to, (minted.balance(to) - value) as u64) };
            burned.total_supply == v.total_supply && burned.balance(to) == v.balance(to)
                && forall|a: AccountId| #[trigger] burned.balance(a) == v.balance(a)
        }),
{
}

/// Setting the allowance of one (owner, spender) pair sets exactly that allowance and leaves
/// every other pair's allowance unchanged.
pub proof fn law_allowance_updates_are_isolated(
    v: LedgerView,
    owner: AccountId,
    spender: AccountId,
    value: Balance,
    other_owner: AccountId,
    other_spender: AccountId,
)
    ensures
        v.with_allowance(owner, spender, value).allowance(owner, spender) == value,
        (other_owner, other_spender) != (owner, spender)
            ==> v.with_allowance(owner, spender, value).allowance(other_owner, other_spender) == v.allowance(other_owner, other_spender),
{
    lemma_allowance_key_injective(owner, spender, other_owner, other_spender);
}

} // verus!

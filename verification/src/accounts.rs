//! Balances, allowances and the freeze gate.

use vstd::prelude::*;
use crate::error::TokenError;
use crate::model::{committed, credited, debited, Address, AllowanceValue, Event, TokenView};
use crate::token::{check_nonnegative_amount, Token};

verus! {

/// Adds `amount` to `balance`. Fails if the sum is negative or too large.
pub fn credit(balance: i128, amount: i128) -> (r: Result<i128, TokenError>)
    ensures
        r == credited(balance, amount),
{
    if amount >= 0 {
        if balance > i128::MAX - amount {
            Err(TokenError::BalanceOverflow)
        } else if balance + amount < 0 {
            Err(TokenError::InsufficientBalance)
        } else {
            Ok(balance + amount)
        }
    } else {
        if balance < i128::MIN - amount {
            Err(TokenError::InsufficientBalance)
        } else if balance + amount < 0 {
            Err(TokenError::InsufficientBalance)
        } else {
            Ok(balance + amount)
        }
    }
}

/// Takes `amount` from `balance`. Fails if the balance does not cover the
/// amount or the difference is too large.
pub fn debit(balance: i128, amount: i128) -> (r: Result<i128, TokenError>)
    ensures
        r == debited(balance, amount),
{
    if balance < amount {
        Err(TokenError::InsufficientBalance)
    } else if amount < 0 && balance > i128::MAX + amount {
        Err(TokenError::BalanceOverflow)
    } else {
        Ok(balance - amount)
    }
}

impl Token {
    /// The balance of `id`.
    pub fn balance(&self, id: Address) -> (balance: i128)
        ensures
            balance == self@.balance_of(id),
            self.wf() ==> balance >= 0,
    {
        self.read_balance(id)
    }

    /// Credits `id` with `amount`.
    pub fn receive_balance(&mut self, id: Address, amount: i128) -> (r: Result<(), TokenError>)
        requires
            old(self).wf(),
        ensures
            final(self).wf(),
            committed(old(self)@, final(self)@, r, old(self)@.receive_balance(id, amount)),
    {
        match credit(self.read_balance(id), amount) {
            Ok(balance) => {
                self.write_balance(id, balance);
                Ok(())
            },
            Err(e) => Err(e),
        }
    }

    /// Debits `id` by `amount`.
    pub fn spend_balance(&mut self, id: Address, amount: i128) -> (r: Result<(), TokenError>)
        requires
            old(self).wf(),
        ensures
            final(self).wf(),
            committed(old(self)@, final(self)@, r, old(self)@.spend_balance(id, amount)),
    {
        match debit(self.read_balance(id), amount) {
            Ok(balance) => {
                self.write_balance(id, balance);
                Ok(())
            },
            Err(e) => Err(e),
        }
    }

    /// The balances of `from` and of `to` after `amount` has moved from the
    /// one to the other, or why it cannot move.
    pub(crate) fn plan_move(&self, from: Address, to: Address, amount: i128) -> (r: Result<
        (i128, i128),
        TokenError,
    >)
        requires
            self.wf(),
        ensures
            match self@.move_balance(from, to, amount) {
                Ok(next) => r is Ok && r->Ok_0.0 >= 0 && r->Ok_0.1 >= 0 && next == self@.with_balance(
                    from,
                    r->Ok_0.0,
                ).with_balance(to, r->Ok_0.1),
                Err(e) => r == Err::<(i128, i128), TokenError>(e),
            },
    {
        let left = match debit(self.read_balance(from), amount) {
            Ok(left) => left,
            Err(e) => { return Err(e); },
        };
        let before = if to == from {
            left
        } else {
            self.read_balance(to)
        };
        match credit(before, amount) {
            Ok(after) => Ok((left, after)),
            Err(e) => Err(e),
        }
    }

    /// Debits `from`, then credits `to`; nothing changes unless both can be
    /// done.
    pub(crate) fn move_balance(&mut self, from: Address, to: Address, amount: i128) -> (r: Result<
        (),
        TokenError,
    >)
        requires
            old(self).wf(),
        ensures
            final(self).wf(),
            committed(old(self)@, final(self)@, r, old(self)@.move_balance(from, to, amount)),
    {
        match self.plan_move(from, to, amount) {
            Ok((left, after)) => {
                self.write_balance(from, left);
                self.write_balance(to, after);
                Ok(())
            },
            Err(e) => Err(e),
        }
    }

    /// Credits `to` with `amount`. Only the administrator may do so.
    pub fn mint(&mut self, caller: Address, to: Address, amount: i128) -> (r: Result<(), TokenError>)
        requires
            old(self).wf(),
        ensures
            final(self).wf(),
            committed(old(self)@, final(self)@, r, old(self)@.mint(caller, to, amount)),
    {
        match check_nonnegative_amount(amount) {
            Ok(()) => {},
            Err(e) => { return Err(e); },
        }
        if !self.is_administrator(caller) {
            return Err(TokenError::Unauthorized);
        }
        match self.receive_balance(to, amount) {
            Ok(()) => {
                self.emit(Event::Mint { admin: caller, to, amount });
                Ok(())
            },
            Err(e) => Err(e),
        }
    }

    /// Freezes `account`: nothing can be debited from it until it is
    /// unfrozen. Only the administrator may do so.
    pub fn freeze_account(&mut self, caller: Address, account: Address) -> (r: Result<(), TokenError>)
        requires
            old(self).wf(),
        ensures
            final(self).wf(),
            committed(old(self)@, final(self)@, r, old(self)@.freeze_account(caller, account)),
    {
        if !self.is_administrator(caller) {
            return Err(TokenError::Unauthorized);
        }
        self.write_frozen(account, true);
        self.emit(Event::FreezeAccount { admin: caller, account });
        Ok(())
    }

    /// Lifts the freeze of `account`. Only the administrator may do so.
    pub fn unfreeze_account(&mut self, caller: Address, account: Address) -> (r: Result<
        (),
        TokenError,
    >)
        requires
            old(self).wf(),
        ensures
            final(self).wf(),
            committed(old(self)@, final(self)@, r, old(self)@.unfreeze_account(caller, account)),
    {
        if !self.is_administrator(caller) {
            return Err(TokenError::Unauthorized);
        }
        self.write_frozen(account, false);
        self.emit(Event::UnfreezeAccount { admin: caller, account });
        Ok(())
    }

    /// What `spender` may debit from `from` at sequence number
    /// `current_sequence`.
    pub fn allowance(&self, from: Address, spender: Address, current_sequence: u32) -> (amount: i128)
        ensures
            amount == self@.allowance_of(from, spender, current_sequence),
            self.wf() ==> amount >= 0,
    {
        match self.read_allowance(from, spender) {
            Some(value) => {
                if value.expiration_ledger >= current_sequence {
                    value.amount
                } else {
                    0
                }
            },
            None => 0,
        }
    }

    /// Overwrites the allowance of `spender` on `from`.
    pub fn write_allowance(
        &mut self,
        from: Address,
        spender: Address,
        amount: i128,
        expiration_ledger: u32,
    ) -> (r: Result<(), TokenError>)
        requires
            old(self).wf(),
        ensures
            final(self).wf(),
            committed(
                old(self)@,
                final(self)@,
                r,
                old(self)@.write_allowance(from, spender, amount, expiration_ledger),
            ),
    {
        match check_nonnegative_amount(amount) {
            Ok(()) => {},
            Err(e) => { return Err(e); },
        }
        self.write_allowance_entry(from, spender, AllowanceValue { amount, expiration_ledger });
        Ok(())
    }

    /// Grants `spender` the right to debit up to `amount` from `from` until
    /// `expiration_ledger`, replacing any earlier grant. The caller must be
    /// `from`.
    pub fn approve(
        &mut self,
        caller: Address,
        from: Address,
        spender: Address,
        amount: i128,
        expiration_ledger: u32,
    ) -> (r: Result<(), TokenError>)
        requires
            old(self).wf(),
        ensures
            final(self).wf(),
            committed(
                old(self)@,
                final(self)@,
                r,
                old(self)@.approve(caller, from, spender, amount, expiration_ledger),
            ),
    {
        if caller != from {
            return Err(TokenError::Unauthorized);
        }
        match self.write_allowance(from, spender, amount, expiration_ledger) {
            Ok(()) => {
                self.emit(Event::Approve { from, spender, amount, expiration_ledger });
                Ok(())
            },
            Err(e) => Err(e),
        }
    }

    /// The allowance to record once `amount` has been taken from that of
    /// `spender` on `from` (none if nothing is to be recorded), or why it
    /// cannot be taken.
    pub(crate) fn plan_spend_allowance(
        &self,
        from: Address,
        spender: Address,
        amount: i128,
        current_sequence: u32,
    ) -> (r: Result<Option<AllowanceValue>, TokenError>)
        requires
            self.wf(),
        ensures
            match self@.spend_allowance(from, spender, amount, current_sequence) {
                Ok(next) => r is Ok && match r->Ok_0 {
                    Some(value) => value.amount >= 0 && next == (TokenView {
                        allowances: self@.allowances.insert((from, spender), value),
                        ..self@
                    }),
                    None => next == self@,
                },
                Err(e) => r == Err::<Option<AllowanceValue>, TokenError>(e),
            },
    {
        match check_nonnegative_amount(amount) {
            Ok(()) => {},
            Err(e) => { return Err(e); },
        }
        match self.read_allowance(from, spender) {
            None => {
                if amount > 0 {
                    Err(TokenError::InsufficientAllowance)
                } else {
                    Ok(None)
                }
            },
            Some(recorded) => {
                assert(self@.allowances.contains_key((from, spender)));
                if recorded.expiration_ledger < current_sequence {
                    Err(TokenError::AllowanceExpired)
                } else if recorded.amount < amount {
                    Err(TokenError::InsufficientAllowance)
                } else {
                    Ok(
                        Some(
                            AllowanceValue {
                                amount: recorded.amount - amount,
                                expiration_ledger: recorded.expiration_ledger,
                            },
                        ),
                    )
                }
            },
        }
    }

    /// Takes `amount` from the allowance of `spender` on `from`.
    pub fn spend_allowance(
        &mut self,
        from: Address,
        spender: Address,
        amount: i128,
        current_sequence: u32,
    ) -> (r: Result<(), TokenError>)
        requires
            old(self).wf(),
        ensures
            final(self).wf(),
            committed(
                old(self)@,
                final(self)@,
                r,
                old(self)@.spend_allowance(from, spender, amount, current_sequence),
            ),
    {
        match self.plan_spend_allowance(from, spender, amount, current_sequence) {
            Ok(Some(value)) => {
                self.write_allowance_entry(from, spender, value);
                Ok(())
            },
            Ok(None) => Ok(()),
            Err(e) => Err(e),
        }
    }

    /// Moves `amount` from `from` to `to`. The caller must be `from`.
    pub fn transfer(&mut self, caller: Address, from: Address, to: Address, amount: i128) -> (r: Result<
        (),
        TokenError,
    >)
        requires
            old(self).wf(),
        ensures
            final(self).wf(),
            committed(old(self)@, final(self)@, r, old(self)@.transfer(caller, from, to, amount)),
    {
        if caller != from {
            return Err(TokenError::Unauthorized);
        }
        match check_nonnegative_amount(amount) {
            Ok(()) => {},
            Err(e) => { return Err(e); },
        }
        if self.is_account_frozen(from) {
            return Err(TokenError::AccountFrozen);
        }
        match self.move_balance(from, to, amount) {
            Ok(()) => {
                self.emit(Event::Transfer { from, to, amount });
                Ok(())
            },
            Err(e) => Err(e),
        }
    }

    /// Moves `amount` from `from` to `to` on the allowance of `spender`. The
    /// caller must be `spender`.
    pub fn transfer_from(
        &mut self,
        caller: Address,
        spender: Address,
        from: Address,
        to: Address,
        amount: i128,
        current_sequence: u32,
    ) -> (r: Result<(), TokenError>)
        requires
            old(self).wf(),
        ensures
            final(self).wf(),
            committed(
                old(self)@,
                final(self)@,
                r,
                old(self)@.transfer_from(caller, spender, from, to, amount, current_sequence),
            ),
    {
        if caller != spender {
            return Err(TokenError::Unauthorized);
        }
        match check_nonnegative_amount(amount) {
            Ok(()) => {},
            Err(e) => { return Err(e); },
        }
        if self.is_account_frozen(from) {
            return Err(TokenError::AccountFrozen);
        }
        let remaining = match self.plan_spend_allowance(from, spender, amount, current_sequence) {
            Ok(remaining) => remaining,
            Err(e) => { return Err(e); },
        };
        let (left, after) = match self.plan_move(from, to, amount) {
            Ok(balances) => balances,
            Err(e) => { return Err(e); },
        };
        match remaining {
            Some(value) => { self.write_allowance_entry(from, spender, value); },
            None => {},
        }
        self.write_balance(from, left);
        self.write_balance(to, after);
        self.emit(Event::Transfer { from, to, amount });
        Ok(())
    }

    /// Destroys `amount` held by `from`. The caller must be `from`.
    pub fn burn(&mut self, caller: Address, from: Address, amount: i128) -> (r: Result<(), TokenError>)
        requires
            old(self).wf(),
        ensures
            final(self).wf(),
            committed(old(self)@, final(self)@, r, old(self)@.burn(caller, from, amount)),
    {
        if caller != from {
            return Err(TokenError::Unauthorized);
        }
        match check_nonnegative_amount(amount) {
            Ok(()) => {},
            Err(e) => { return Err(e); },
        }
        if self.is_account_frozen(from) {
            return Err(TokenError::AccountFrozen);
        }
        match self.spend_balance(from, amount) {
            Ok(()) => {
                self.emit(Event::Burn { from, amount });
                Ok(())
            },
            Err(e) => Err(e),
        }
    }

    /// Destroys `amount` held by `from` on the allowance of `spender`. The
    /// caller must be `spender`.
    pub fn burn_from(
        &mut self,
        caller: Address,
        spender: Address,
        from: Address,
        amount: i128,
        current_sequence: u32,
    ) -> (r: Result<(), TokenError>)
        requires
            old(self).wf(),
        ensures
            final(self).wf(),
            committed(
                old(self)@,
                final(self)@,
                r,
                old(self)@.burn_from(caller, spender, from, amount, current_sequence),
            ),
    {
        if caller != spender {
            return Err(TokenError::Unauthorized);
        }
        match check_nonnegative_amount(amount) {
            Ok(()) => {},
            Err(e) => { return Err(e); },
        }
        if self.is_account_frozen(from) {
            return Err(TokenError::AccountFrozen);
        }
        let remaining = match self.plan_spend_allowance(from, spender, amount, current_sequence) {
            Ok(remaining) => remaining,
            Err(e) => { return Err(e); },
        };
        let left = match debit(self.read_balance(from), amount) {
            Ok(left) => left,
            Err(e) => { return Err(e); },
        };
        match remaining {
            Some(value) => { self.write_allowance_entry(from, spender, value); },
            None => {},
        }
        self.write_balance(from, left);
        self.emit(Event::Burn { from, amount });
        Ok(())
    }
}

} // verus!

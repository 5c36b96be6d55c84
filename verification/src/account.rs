//! The account facet: a balance that deposits raise and withdrawals lower.

use vstd::prelude::*;
use vstd::string::*;
use crate::error::LedgerError;

verus! {

/// What an account facet holds, as plain values.
pub struct AccountView {
    pub balance: int,
    pub account_number: Seq<char>,
}

/// An account with a balance that never goes below zero.
#[derive(Debug)]
pub struct AccountFacet {
    balance: i64,
    account_number: String,
}

impl View for AccountFacet {
    type V = AccountView;

    closed spec fn view(&self) -> AccountView {
        AccountView { balance: self.balance as int, account_number: self.account_number@ }
    }
}

/// The error with which a deposit of `amount` into `balance` is refused, if it is.
pub open spec fn deposit_error(balance: int, amount: int) -> Option<LedgerError> {
    if amount <= 0 {
        Some(LedgerError::NonPositiveDeposit)
    } else if balance + amount > i64::MAX {
        Some(LedgerError::LimitExceeded)
    } else {
        None
    }
}

/// The balance after an attempt to deposit `amount`: a refused deposit leaves it.
pub open spec fn after_deposit(balance: int, amount: int) -> int {
    if deposit_error(balance, amount) is None {
        balance + amount
    } else {
        balance
    }
}

/// The balance after `times` attempts in a row, each to deposit `amount`.
pub open spec fn after_deposits(balance: int, amount: int, times: nat) -> int
    decreases times,
{
    if times == 0 {
        balance
    } else {
        after_deposit(after_deposits(balance, amount, (times - 1) as nat), amount)
    }
}

/// The error with which a withdrawal of `amount` from `balance` is refused, if it is.
pub open spec fn withdraw_error(balance: int, amount: int) -> Option<LedgerError> {
    if amount <= 0 {
        Some(LedgerError::NonPositiveWithdrawal)
    } else if amount > balance {
        Some(LedgerError::InsufficientFunds)
    } else {
        None
    }
}

/// The balance after an attempt to withdraw `amount`: a refused withdrawal
/// leaves it.
pub open spec fn after_withdrawal(balance: int, amount: int) -> int {
    if withdraw_error(balance, amount) is None {
        balance - amount
    } else {
        balance
    }
}

impl AccountFacet {
    /// The balance is never negative.
    #[verifier::type_invariant]
    pub open spec fn well_formed(&self) -> bool {
        0 <= self@.balance <= i64::MAX
    }

    /// An empty account under the given number.
    pub fn new(account_number: &str) -> (account: Self)
        ensures
            account@ == (AccountView { balance: 0, account_number: account_number@ }),
            account.well_formed(),
    {
        Self { balance: 0, account_number: account_number.to_owned() }
    }

    /// Adds `amount` to the balance and returns the new balance. A deposit
    /// that is not positive, or that the balance cannot hold, changes nothing.
    pub fn deposit(&mut self, amount: i64) -> (result: Result<i64, LedgerError>)
        ensures
            final(self).well_formed(),
            final(self)@.account_number == old(self)@.account_number,
            final(self)@.balance == after_deposit(old(self)@.balance, amount as int),
            match deposit_error(old(self)@.balance, amount as int) {
                Some(error) => result == Err::<i64, LedgerError>(error)
                    && *final(self) == *old(self),
                None => result matches Ok(balance) && balance == final(self)@.balance,
            },
    {
        proof {
            use_type_invariant(&*self);
        }
        if amount <= 0 {
            return Err(LedgerError::NonPositiveDeposit);
        }
        if amount > i64::MAX - self.balance {
            return Err(LedgerError::LimitExceeded);
        }
        self.balance = self.balance + amount;
        Ok(self.balance)
    }

    /// Takes `amount` from the balance and returns the new balance. A
    /// withdrawal that is not positive, or exceeds the balance, changes nothing.
    pub fn withdraw(&mut self, amount: i64) -> (result: Result<i64, LedgerError>)
        ensures
            final(self).well_formed(),
            final(self)@.account_number == old(self)@.account_number,
            final(self)@.balance == after_withdrawal(old(self)@.balance, amount as int),
            match withdraw_error(old(self)@.balance, amount as int) {
                Some(error) => result == Err::<i64, LedgerError>(error)
                    && *final(self) == *old(self),
                None => result matches Ok(balance) && balance == final(self)@.balance,
            },
    {
        proof {
            use_type_invariant(&*self);
        }
        if amount <= 0 {
            return Err(LedgerError::NonPositiveWithdrawal);
        }
        if amount > self.balance {
            return Err(LedgerError::InsufficientFunds);
        }
        self.balance = self.balance - amount;
        Ok(self.balance)
    }

    /// The current balance.
    pub fn get_balance(&self) -> (balance: i64)
        ensures
            balance == self@.balance,
            balance >= 0,
    {
        proof {
            use_type_invariant(self);
        }
        self.balance
    }

    /// The number under which the account is kept.
    pub fn get_account_number(&self) -> (number: &str)
        ensures
            number@ == self@.account_number,
    {
        self.account_number.as_str()
    }
}

} // verus!

//! A client's account: what is available, what is held under dispute, their
//! total, and whether the account is frozen.

use crate::amount::{Amount, AmountError};
use crate::config::{ClientId, MAX_UNITS};
use vstd::prelude::*;

verus! {

/// Why an account refused an operation.
#[derive(Clone, Copy, Debug, PartialEq, Eq)]
pub enum AccountError {
    /// The account is locked and cannot be modified.
    AccountLocked,
    /// The account has insufficient funds for the requested operation.
    InsufficientFunds,
    /// A balance would grow beyond what an amount can hold.
    Arithmetic(AmountError),
}

impl From<AmountError> for AccountError {
    /// A subtraction below zero is a lack of funds; any other failure of an
    /// amount is an arithmetic fault.
    fn from(value: AmountError) -> (error: AccountError) {
        match value {
            AmountError::SubtractToNegative(_, _) => AccountError::InsufficientFunds,
            other => AccountError::Arithmetic(other),
        }
    }
}

impl vstd::std_specs::convert::FromSpecImpl<AmountError> for AccountError {
    open spec fn obeys_from_spec() -> bool {
        true
    }

    open spec fn from_spec(value: AmountError) -> AccountError {
        match value {
            AmountError::SubtractToNegative(_, _) => AccountError::InsufficientFunds,
            other => AccountError::Arithmetic(other),
        }
    }
}

/// The balances of an account as numbers of smallest units: the model that
/// the account's operations are stated over.
pub struct Balances {
    pub available: nat,
    pub held: nat,
    pub locked: bool,
}

impl Balances {
    /// What the account is worth: available and held together.
    pub open spec fn total(self) -> nat {
        self.available + self.held
    }

    /// Adds `amount` to what is available.
    pub open spec fn deposit(self, amount: nat) -> Result<Balances, AccountError> {
        if self.locked {
            Err(AccountError::AccountLocked)
        } else if self.total() + amount > MAX_UNITS {
            Err(AccountError::Arithmetic(AmountError::Overflow))
        } else {
            Ok(Balances { available: self.available + amount, held: self.held, locked: false })
        }
    }

    /// Takes `amount` from what is available.
    pub open spec fn withdraw(self, amount: nat) -> Result<Balances, AccountError> {
        if self.locked {
            Err(AccountError::AccountLocked)
        } else if self.available < amount {
            Err(AccountError::InsufficientFunds)
        } else {
            Ok(
                Balances {
                    available: (self.available - amount) as nat,
                    held: self.held,
                    locked: false,
                },
            )
        }
    }

    /// Moves `amount` from available to held.
    pub open spec fn hold(self, amount: nat) -> Result<Balances, AccountError> {
        if self.locked {
            Err(AccountError::AccountLocked)
        } else if self.available < amount {
            Err(AccountError::InsufficientFunds)
        } else {
            Ok(
                Balances {
                    available: (self.available - amount) as nat,
                    held: self.held + amount,
                    locked: false,
                },
            )
        }
    }

    /// Moves `amount` from held back to available.
    pub open spec fn release(self, amount: nat) -> Result<Balances, AccountError> {
        if self.locked {
            Err(AccountError::AccountLocked)
        } else if self.held < amount {
            Err(AccountError::InsufficientFunds)
        } else {
            Ok(
                Balances {
                    available: self.available + amount,
                    held: (self.held - amount) as nat,
                    locked: false,
                },
            )
        }
    }

    /// Removes `amount` from held and freezes the account.
    pub open spec fn chargeback(self, amount: nat) -> Result<Balances, AccountError> {
        if self.locked {
            Err(AccountError::AccountLocked)
        } else if self.held < amount {
            Err(AccountError::InsufficientFunds)
        } else {
            Ok(
                Balances {
                    available: self.available,
                    held: (self.held - amount) as nat,
                    locked: true,
                },
            )
        }
    }
}

impl Balances {
    /// Once an account is locked, every operation on it is refused.
    pub proof fn lemma_locked_refuses(self, amount: nat)
        requires
            self.locked,
        ensures
            self.deposit(amount) == Err::<Balances, AccountError>(AccountError::AccountLocked),
            self.withdraw(amount) == Err::<Balances, AccountError>(AccountError::AccountLocked),
            self.hold(amount) == Err::<Balances, AccountError>(AccountError::AccountLocked),
            self.release(amount) == Err::<Balances, AccountError>(AccountError::AccountLocked),
            self.chargeback(amount) == Err::<Balances, AccountError>(AccountError::AccountLocked),
    {
    }

    /// Holding and releasing move funds between available and held and
    /// leave the total as it is; a deposit adds its amount to the total, a
    /// withdrawal and a chargeback take theirs from it. No balance goes
    /// below zero, and a total that fits an amount still does afterwards.
    pub proof fn lemma_totals(self, amount: nat)
        requires
            self.total() <= MAX_UNITS,
        ensures
            self.deposit(amount) matches Ok(after) ==> after.total() == self.total() + amount
                && after.total() <= MAX_UNITS,
            self.withdraw(amount) matches Ok(after) ==> after.total() == self.total() - amount,
            self.hold(amount) matches Ok(after) ==> after.total() == self.total(),
            self.release(amount) matches Ok(after) ==> after.total() == self.total(),
            self.chargeback(amount) matches Ok(after) ==> after.total() == self.total() - amount,
    {
    }

    /// Releasing what was just held gives the balances back as they were.
    pub proof fn lemma_release_undoes_hold(self, amount: nat)
        requires
            self.hold(amount) is Ok,
        ensures
            self.hold(amount)->Ok_0.release(amount) == Ok::<Balances, AccountError>(self),
    {
    }
}

/// Represents a financial account with available, held, and total balances.
#[derive(Clone, Copy, Debug)]
pub struct Account {
    pub client_id: ClientId,
    pub available: Amount,
    pub held: Amount,
    pub total: Amount,
    pub locked: bool,
}

impl View for Account {
    type V = Balances;

    open spec fn view(&self) -> Balances {
        Balances { available: self.available@, held: self.held@, locked: self.locked }
    }
}

/// Whether an operation that `outcome` describes took the account from
/// `before` to `after` with `result`: on success the new balances are those
/// of the outcome, on failure the error is and the account is untouched.
pub open spec fn performed(
    before: Account,
    after: Account,
    result: Result<(), AccountError>,
    outcome: Result<Balances, AccountError>,
) -> bool {
    &&& after.client_id == before.client_id
    &&& match result {
        Ok(()) => outcome == Ok::<Balances, AccountError>(after@),
        Err(error) => outcome == Err::<Balances, AccountError>(error) && after == before,
    }
}

impl Account {
    /// The total is what is available and what is held together, and is an
    /// amount like them.
    pub open spec fn wf(&self) -> bool {
        &&& self.total@ == self.available@ + self.held@
        &&& self.total.wf()
    }

    /// Creates a new `Account` with the given balances. Their sum has to be
    /// an amount.
    pub fn new(client_id: ClientId, available: Amount, held: Amount, locked: bool) -> (account:
        Account)
        requires
            available@ + held@ <= MAX_UNITS,
        ensures
            account.wf(),
            account.client_id == client_id,
            account.available == available,
            account.held == held,
            account.locked == locked,
    {
        let mut total = available;
        total.add_assign(held);
        Account { client_id, available, held, total, locked }
    }

    /// Whether the recorded total agrees with the two balances.
    pub fn is_consistent(&self) -> (consistent: bool)
        ensures
            consistent == self.wf(),
    {
        let available = self.available.value();
        let held = self.held.value();
        let total = self.total.value();
        available + held == total
    }

    /// Deposits an `amount` into the account's `available` balance.
    ///
    /// Fails with `AccountLocked` on a locked account, and with `Arithmetic`
    /// where the total would be more than an amount can hold.
    pub fn deposit(&mut self, amount: Amount) -> (result: Result<(), AccountError>)
        requires
            old(self).wf(),
        ensures
            final(self).wf(),
            performed(*old(self), *final(self), result, old(self)@.deposit(amount@)),
    {
        if self.locked {
            return Err(AccountError::AccountLocked);
        }
        match self.total.checked_add(amount) {
            Ok(total) => {
                self.available.add_assign(amount);
                self.total = total;
                Ok(())
            },
            Err(error) => Err(AccountError::Arithmetic(error)),
        }
    }

    /// Withdraws an `amount` from the account's `available` balance.
    ///
    /// Fails with `AccountLocked` on a locked account, and with
    /// `InsufficientFunds` where less than `amount` is available.
    pub fn withdraw(&mut self, amount: Amount) -> (result: Result<(), AccountError>)
        requires
            old(self).wf(),
        ensures
            final(self).wf(),
            performed(*old(self), *final(self), result, old(self)@.withdraw(amount@)),
    {
        if self.locked {
            return Err(AccountError::AccountLocked);
        }
        if !self.available.covers(&amount) {
            return Err(AccountError::InsufficientFunds);
        }
        let _ = self.available.checked_sub_assign(amount);
        let _ = self.total.checked_sub_assign(amount);
        Ok(())
    }

    /// Holds an `amount` from the account's `available` balance,
    /// transferring it to the `held` balance.
    ///
    /// Fails with `AccountLocked` on a locked account, and with
    /// `InsufficientFunds` where less than `amount` is available.
    pub fn hold(&mut self, amount: Amount) -> (result: Result<(), AccountError>)
        requires
            old(self).wf(),
        ensures
            final(self).wf(),
            performed(*old(self), *final(self), result, old(self)@.hold(amount@)),
    {
        if self.locked {
            return Err(AccountError::AccountLocked);
        }
        if !self.available.covers(&amount) {
            return Err(AccountError::InsufficientFunds);
        }
        proof {
            use_type_invariant(&self.total);
        }
        self.held.add_assign(amount);
        let _ = self.available.checked_sub_assign(amount);
        Ok(())
    }

    /// Releases a previously held `amount` back to the `available` balance.
    ///
    /// Fails with `AccountLocked` on a locked account, and with
    /// `InsufficientFunds` where less than `amount` is held.
    pub fn release(&mut self, amount: Amount) -> (result: Result<(), AccountError>)
        requires
            old(self).wf(),
        ensures
            final(self).wf(),
            performed(*old(self), *final(self), result, old(self)@.release(amount@)),
    {
        if self.locked {
            return Err(AccountError::AccountLocked);
        }
        if !self.held.covers(&amount) {
            return Err(AccountError::InsufficientFunds);
        }
        proof {
            use_type_invariant(&self.total);
        }
        let _ = self.held.checked_sub_assign(amount);
        self.available.add_assign(amount);
        Ok(())
    }

    /// Charges back a held `amount`, deducting it from the `held` balance
    /// and freezing the account.
    ///
    /// Fails with `AccountLocked` on a locked account, and with
    /// `InsufficientFunds` where less than `amount` is held.
    pub fn chargeback(&mut self, amount: Amount) -> (result: Result<(), AccountError>)
        requires
            old(self).wf(),
        ensures
            final(self).wf(),
            performed(*old(self), *final(self), result, old(self)@.chargeback(amount@)),
    {
        if self.locked {
            return Err(AccountError::AccountLocked);
        }
        if !self.held.covers(&amount) {
            return Err(AccountError::InsufficientFunds);
        }
        let _ = self.held.checked_sub_assign(amount);
        let _ = self.total.checked_sub_assign(amount);
        self.locked = true;
        Ok(())
    }

    /// Calculates and returns the total balance (`available` + `held`) of
    /// the account. The sum has to be an amount; on a well-formed account it
    /// is, and is the total that the account records.
    pub fn total(&self) -> (total: Amount)
        requires
            self@.total() <= MAX_UNITS,
        ensures
            total@ == self@.total(),
            self.wf() ==> total == self.total,
    {
        let mut total = Amount::default();
        total.add_assign(self.available);
        total.add_assign(self.held);
        proof {
            total.lemma_equal_by_view(self.total);
        }
        total
    }
}

} // verus!

//! One client's ledger: total and held funds, and the lock.
//!
//! Available funds are never stored: they are `total - held`. The operations
//! here are plain balance transforms. They know nothing of transaction
//! identity; the engine decides which of them may run, and with which amount.

use crate::amount::{lemma_zero, Amount};
use vstd::prelude::*;

verus! {

/// Why an account refused a deposit or a withdrawal.
#[derive(Debug, Clone, Copy, PartialEq, Eq, Structural)]
pub enum AccountError {
    /// The account of this client is locked.
    AccountLocked(u16),
    /// This client has less available than was asked for.
    InsufficientFunds(u16),
}

/// The balances of one client.
#[derive(Debug, Clone, Copy)]
pub struct Account {
    /// The client this account belongs to.
    pub client_id: u16,
    /// Available and held funds together.
    pub total: Amount,
    /// Funds frozen by disputes that are still open.
    pub held: Amount,
    /// Set by a chargeback, and never cleared.
    pub is_locked: bool,
}

impl Account {
    /// The account of a client that has not moved any funds yet.
    pub open spec fn spec_new(client_id: u16) -> Account {
        Account { client_id, total: Amount::zero(), held: Amount::zero(), is_locked: false }
    }

    /// Available funds, in units of `10^-28`: what is not held.
    pub open spec fn available(self) -> int {
        self.total.value() - self.held.value()
    }

    /// The account after `amount` has been added to its total.
    pub open spec fn deposited(self, amount: Amount) -> Account {
        Account { total: self.total.plus(amount), ..self }
    }

    /// The account after `amount` has been taken from its total.
    pub open spec fn withdrawn(self, amount: Amount) -> Account {
        Account { total: self.total.minus(amount), ..self }
    }

    /// The account after `amount` has been frozen.
    pub open spec fn disputed(self, amount: Amount) -> Account {
        Account { held: self.held.plus(amount), ..self }
    }

    /// The account after `amount` has been released.
    pub open spec fn resolved(self, amount: Amount) -> Account {
        Account { held: self.held.minus(amount), ..self }
    }

    /// The account after `amount`, which was frozen, has been taken back for
    /// good.
    pub open spec fn charged_back(self, amount: Amount) -> Account {
        Account {
            held: self.held.minus(amount),
            total: self.total.minus(amount),
            is_locked: true,
            ..self
        }
    }

    /// Whether a withdrawal of `amount` can be decided and carried out in
    /// exact arithmetic.
    pub open spec fn can_withdraw(self, amount: Amount) -> bool {
        &&& self.total.can_sub(self.held)
        &&& self.available() >= amount.value() ==> self.total.can_sub(amount)
    }

    /// Whether a chargeback of `amount` can be carried out in exact
    /// arithmetic.
    pub open spec fn can_chargeback(self, amount: Amount) -> bool {
        &&& self.held.can_sub(amount)
        &&& self.total.can_sub(amount)
    }

    /// A fresh account: no funds, not locked.
    #[verifier::when_used_as_spec(spec_new)]
    pub fn new(client_id: u16) -> (r: Account)
        ensures
            r == Account::spec_new(client_id),
            r.total.value() == 0,
            r.held.value() == 0,
    {
        Account { client_id, total: Amount::zero(), held: Amount::zero(), is_locked: false }
    }

    /// Available funds: `total - held`.
    pub fn get_available(&self) -> (r: Amount)
        requires
            self.total.can_sub(self.held),
        ensures
            r == self.total.minus(self.held),
            r.value() == self.available(),
            self.total.value() == r.value() + self.held.value(),
    {
        self.total.checked_sub(self.held).unwrap()
    }

    /// Adds `amount` to the total, unless the account is locked. `tx` is the
    /// id of the transaction that asks for it; the account keeps no trace of
    /// it.
    pub fn deposit(&mut self, tx: u32, amount: Amount) -> (r: Result<(), AccountError>)
        requires
            old(self).is_locked || old(self).total.can_add(amount),
        ensures
            old(self).is_locked ==> r == Err::<(), AccountError>(
                AccountError::AccountLocked(old(self).client_id),
            ) && *final(self) == *old(self),
            !old(self).is_locked ==> r is Ok && *final(self) == old(self).deposited(amount)
                && final(self).total.value() == old(self).total.value() + amount.value()
                && old(self).total.plus_is_exact(amount),
    {
        if self.is_locked {
            return Err(AccountError::AccountLocked(self.client_id));
        }
        self.total = self.total.checked_add(amount).unwrap();
        Ok(())
    }

    /// Takes `amount` from the total, unless the account is locked or has
    /// less than `amount` available. Held funds cannot be withdrawn. `tx` is
    /// the id of the transaction that asks for it; the account keeps no trace
    /// of it.
    pub fn withdraw(&mut self, tx: u32, amount: Amount) -> (r: Result<(), AccountError>)
        requires
            old(self).is_locked || old(self).can_withdraw(amount),
        ensures
            old(self).is_locked ==> r == Err::<(), AccountError>(
                AccountError::AccountLocked(old(self).client_id),
            ) && *final(self) == *old(self),
            !old(self).is_locked && old(self).available() < amount.value() ==> r == Err::<
                (),
                AccountError,
            >(AccountError::InsufficientFunds(old(self).client_id)) && *final(self) == *old(self),
            !old(self).is_locked && old(self).available() >= amount.value() ==> r is Ok
                && *final(self) == old(self).withdrawn(amount) && final(self).total.value() == old(
                self,
            ).total.value() - amount.value() && old(self).total.minus_is_exact(amount),
    {
        if self.is_locked {
            return Err(AccountError::AccountLocked(self.client_id));
        }
        if self.get_available().less_than(amount) {
            return Err(AccountError::InsufficientFunds(self.client_id));
        }
        self.total = self.total.checked_sub(amount).unwrap();
        Ok(())
    }

    /// Freezes `amount`: held funds grow by it, the total stays, so available
    /// funds drop by it. Balances may become negative.
    pub fn dispute(&mut self, amount: Amount) -> (r: Result<(), AccountError>)
        requires
            old(self).held.can_add(amount),
        ensures
            r is Ok,
            *final(self) == old(self).disputed(amount),
            old(self).held.plus_is_exact(amount),
            final(self).held.value() == old(self).held.value() + amount.value(),
            final(self).available() == old(self).available() - amount.value(),
    {
        self.held = self.held.checked_add(amount).unwrap();
        Ok(())
    }

    /// Releases `amount`: held funds shrink by it, the total stays, so
    /// available funds rise by it.
    pub fn resolve(&mut self, amount: Amount) -> (r: Result<(), AccountError>)
        requires
            old(self).held.can_sub(amount),
        ensures
            r is Ok,
            *final(self) == old(self).resolved(amount),
            old(self).held.minus_is_exact(amount),
            final(self).held.value() == old(self).held.value() - amount.value(),
            final(self).available() == old(self).available() + amount.value(),
    {
        self.held = self.held.checked_sub(amount).unwrap();
        Ok(())
    }

    /// Takes `amount` out of held funds and out of the total, and locks the
    /// account. Available funds stay as they are.
    pub fn chargeback(&mut self, amount: Amount) -> (r: Result<(), AccountError>)
        requires
            old(self).can_chargeback(amount),
        ensures
            r is Ok,
            *final(self) == old(self).charged_back(amount),
            old(self).held.minus_is_exact(amount),
            old(self).total.minus_is_exact(amount),
            final(self).held.value() == old(self).held.value() - amount.value(),
            final(self).total.value() == old(self).total.value() - amount.value(),
            final(self).available() == old(self).available(),
            final(self).is_locked,
    {
        self.held = self.held.checked_sub(amount).unwrap();
        self.total = self.total.checked_sub(amount).unwrap();
        self.is_locked = true;
        Ok(())
    }
}

/// A fresh account holds nothing and is not locked.
pub proof fn lemma_new_account_is_empty(client_id: u16)
    ensures
        Account::new(client_id).client_id == client_id,
        Account::new(client_id).total.value() == 0,
        Account::new(client_id).held.value() == 0,
        Account::new(client_id).available() == 0,
        !Account::new(client_id).is_locked,
{
    lemma_zero();
}

/// Total funds are available funds and held funds together, whatever the
/// account has been through.
pub proof fn lemma_total_is_available_plus_held(account: Account)
    ensures
        account.total.value() == account.available() + account.held.value(),
{
}

/// No operation on an account unlocks it.
pub proof fn lemma_lock_is_kept(account: Account, amount: Amount)
    requires
        account.is_locked,
    ensures
        account.deposited(amount).is_locked,
        account.withdrawn(amount).is_locked,
        account.disputed(amount).is_locked,
        account.resolved(amount).is_locked,
        account.charged_back(amount).is_locked,
{
}

impl Default for Account {
    /// The fresh account of client 0.
    fn default() -> (r: Account)
        ensures
            r == Account::spec_new(0),
    {
        Account::new(0)
    }
}

} // verus!

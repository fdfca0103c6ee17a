//! The engine: it owns the accounts and the recorded transactions, takes
//! transactions one at a time and routes each to the account it concerns.
//!
//! No transaction stops the engine. One that cannot be carried out leaves the
//! state as it was, and the outcome says why.

use crate::account::Account;
use crate::amount::Amount;
use crate::invariants::lemma_step_keeps_consistent;
use crate::ledger::{AccountSummary, Ledger, Outcome};
use crate::transaction::{
    DisputeState, Transaction, TransactionRecord, TransactionSource, TransactionType,
};
use std::collections::HashMap;
use vstd::prelude::*;

verus! {

/// The accounts and the recorded transactions. Its view is the [`Ledger`]
/// that the two maps stand for.
pub struct Engine {
    /// The account of every client that has deposited.
    pub accounts: HashMap<u16, Account>,
    /// Every deposit and withdrawal that was carried out, by transaction id.
    pub transactions: HashMap<u32, TransactionRecord>,
}

impl View for Engine {
    type V = Ledger;

    open spec fn view(&self) -> Ledger {
        Ledger { accounts: self.accounts@, transactions: self.transactions@ }
    }
}

impl Engine {
    /// An engine without accounts or records.
    pub fn new() -> (r: Engine)
        ensures
            r@ == Ledger::empty(),
            r@.consistent(),
    {
        Engine { accounts: HashMap::new(), transactions: HashMap::new() }
    }

    /// Stores `account` for `client` and records the transaction that was
    /// just carried out on it.
    fn commit(&mut self, client: u16, account: Account, tx: u32, record: TransactionRecord)
        ensures
            final(self)@ == old(self)@.with(client, account, tx, record),
    {
        self.accounts.insert(client, account);
        self.transactions.insert(tx, record);
    }

    /// Carries out a deposit of `amount` for `client`, whose account is
    /// opened if there is none, and records it under `tx`.
    pub fn handle_deposit(&mut self, client: u16, tx: u32, amount: Amount) -> (r: Outcome)
        ensures
            final(self)@ == old(self)@.deposit(client, tx, amount).0,
            r == old(self)@.deposit(client, tx, amount).1,
            old(self)@.deposit_is_exact(client, tx, amount),
            old(self)@.consistent() ==> final(self)@.consistent(),
    {
        let ghost before = self@;
        let ghost request = Transaction {
            kind: TransactionType::Deposit,
            client,
            tx,
            amount: Some(amount),
        };
        let mut account = match self.accounts.get(&client) {
            Some(found) => *found,
            None => Account::new(client),
        };
        if !account.is_locked && !account.total.can_add(amount) {
            return Outcome::Unrepresentable;
        }
        match account.deposit(tx, amount) {
            Ok(_) => {
                let transaction = Transaction {
                    kind: TransactionType::Deposit,
                    client,
                    tx,
                    amount: Some(amount),
                };
                self.commit(
                    client,
                    account,
                    tx,
                    TransactionRecord { transaction, dispute_state: DisputeState::Undisputed },
                );
                proof {
                    use_type_invariant(&amount);
                    if before.consistent() {
                        lemma_step_keeps_consistent(before, request);
                    }
                }
                Outcome::Applied
            },
            Err(e) => Outcome::Rejected(e),
        }
    }

    /// Carries out a withdrawal of `amount` for `client` and records it
    /// under `tx`. A client without an account has nothing to withdraw from,
    /// and gets no account by asking.
    pub fn handle_withdrawal(&mut self, client: u16, tx: u32, amount: Amount) -> (r: Outcome)
        ensures
            final(self)@ == old(self)@.withdraw(client, tx, amount).0,
            r == old(self)@.withdraw(client, tx, amount).1,
            old(self)@.withdraw_is_exact(client, tx, amount),
            old(self)@.consistent() ==> final(self)@.consistent(),
    {
        let ghost before = self@;
        let ghost request = Transaction {
            kind: TransactionType::Withdrawal,
            client,
            tx,
            amount: Some(amount),
        };
        let mut account = match self.accounts.get(&client) {
            Some(found) => *found,
            None => {
                return Outcome::UnknownClient;
            },
        };
        if !account.is_locked && !Self::can_withdraw(&account, amount) {
            return Outcome::Unrepresentable;
        }
        match account.withdraw(tx, amount) {
            Ok(_) => {
                let transaction = Transaction {
                    kind: TransactionType::Withdrawal,
                    client,
                    tx,
                    amount: Some(amount),
                };
                self.commit(
                    client,
                    account,
                    tx,
                    TransactionRecord { transaction, dispute_state: DisputeState::Undisputed },
                );
                proof {
                    use_type_invariant(&amount);
                    if before.consistent() {
                        lemma_step_keeps_consistent(before, request);
                    }
                }
                Outcome::Applied
            },
            Err(e) => Outcome::Rejected(e),
        }
    }

    /// Whether a withdrawal of `amount` from `account` can be decided and
    /// carried out in exact arithmetic.
    fn can_withdraw(account: &Account, amount: Amount) -> (r: bool)
        ensures
            r == account.can_withdraw(amount),
    {
        match account.total.checked_sub(account.held) {
            Some(available) => available.less_than(amount) || account.total.can_sub(amount),
            None => false,
        }
    }

    /// The recorded transaction `tx`, its owner's account, its amount and the
    /// state that an operation of kind `kind` moves it to, if that operation
    /// can be tried on it.
    fn lookup(&self, kind: TransactionType, tx: u32) -> (r: Result<
        (TransactionRecord, Account, Amount, DisputeState),
        Outcome,
    >)
        ensures
            match r {
                Ok((record, account, amount, to)) => {
                    &&& self@.refusal(kind, tx) is None
                    &&& record == self@.transactions[tx]
                    &&& account == self@.accounts[record.transaction.client]
                    &&& record.transaction.amount == Some(amount)
                    &&& record.dispute_state.next(kind) == Some(to)
                },
                Err(outcome) => self@.refusal(kind, tx) == Some(outcome),
            },
    {
        let record = match self.transactions.get(&tx) {
            Some(found) => *found,
            None => {
                return Err(Outcome::UnknownTransaction);
            },
        };
        let to = match record.dispute_state.next(kind) {
            Some(to) => to,
            None => {
                return Err(Outcome::InvalidTransition);
            },
        };
        let account = match self.accounts.get(&record.transaction.client) {
            Some(found) => *found,
            None => {
                return Err(Outcome::UnknownClient);
            },
        };
        match record.transaction.amount {
            Some(amount) => Ok((record, account, amount, to)),
            None => Err(Outcome::MissingAmount),
        }
    }

    /// Stores `account` for the owner of `record` and moves the record of
    /// `tx` to the state `to`.
    fn settle(&mut self, tx: u32, record: TransactionRecord, account: Account, to: DisputeState)
        requires
            old(self)@.transactions.contains_key(tx),
            old(self)@.transactions[tx] == record,
        ensures
            final(self)@ == old(self)@.moved(tx, account, to),
    {
        self.commit(
            record.transaction.client,
            account,
            tx,
            TransactionRecord { transaction: record.transaction, dispute_state: to },
        );
    }

    /// Opens a dispute on the recorded transaction `tx`: its amount is
    /// frozen in the account it was recorded for. `client` is the client
    /// that the request names; the funds that move are those of the client
    /// that the transaction was recorded for.
    pub fn handle_dispute(&mut self, client: u16, tx: u32) -> (r: Outcome)
        ensures
            final(self)@ == old(self)@.dispute(tx).0,
            r == old(self)@.dispute(tx).1,
            old(self)@.dispute_is_exact(tx),
            old(self)@.consistent() ==> final(self)@.consistent(),
    {
        let ghost before = self@;
        let ghost request = Transaction {
            kind: TransactionType::Dispute,
            client,
            tx,
            amount: None,
        };
        let (record, mut account, amount, to) = match self.lookup(TransactionType::Dispute, tx) {
            Ok(found) => found,
            Err(outcome) => {
                return outcome;
            },
        };
        if !account.held.can_add(amount) {
            return Outcome::Unrepresentable;
        }
        match account.dispute(amount) {
            Ok(_) => {
                self.settle(tx, record, account, to);
                proof {
                    if before.consistent() {
                        lemma_step_keeps_consistent(before, request);
                    }
                }
                Outcome::Applied
            },
            Err(e) => Outcome::Rejected(e),
        }
    }

    /// Closes the dispute on `tx` and lets the transaction stand: the frozen
    /// amount is released. `client` is the client that the request names.
    pub fn handle_resolve(&mut self, client: u16, tx: u32) -> (r: Outcome)
        ensures
            final(self)@ == old(self)@.resolve(tx).0,
            r == old(self)@.resolve(tx).1,
            old(self)@.resolve_is_exact(tx),
            old(self)@.consistent() ==> final(self)@.consistent(),
    {
        let ghost before = self@;
        let ghost request = Transaction {
            kind: TransactionType::Resolve,
            client,
            tx,
            amount: None,
        };
        let (record, mut account, amount, to) = match self.lookup(TransactionType::Resolve, tx) {
            Ok(found) => found,
            Err(outcome) => {
                return outcome;
            },
        };
        if !account.held.can_sub(amount) {
            return Outcome::Unrepresentable;
        }
        match account.resolve(amount) {
            Ok(_) => {
                self.settle(tx, record, account, to);
                proof {
                    if before.consistent() {
                        lemma_step_keeps_consistent(before, request);
                    }
                }
                Outcome::Applied
            },
            Err(e) => Outcome::Rejected(e),
        }
    }

    /// Closes the dispute on `tx` by reversing the transaction: the frozen
    /// amount leaves the account, and the account is locked. `client` is the
    /// client that the request names.
    pub fn handle_chargeback(&mut self, client: u16, tx: u32) -> (r: Outcome)
        ensures
            final(self)@ == old(self)@.chargeback(tx).0,
            r == old(self)@.chargeback(tx).1,
            old(self)@.chargeback_is_exact(tx),
            old(self)@.consistent() ==> final(self)@.consistent(),
    {
        let ghost before = self@;
        let ghost request = Transaction {
            kind: TransactionType::Chargeback,
            client,
            tx,
            amount: None,
        };
        let (record, mut account, amount, to) = match self.lookup(TransactionType::Chargeback, tx) {
            Ok(found) => found,
            Err(outcome) => {
                return outcome;
            },
        };
        if !(account.held.can_sub(amount) && account.total.can_sub(amount)) {
            return Outcome::Unrepresentable;
        }
        match account.chargeback(amount) {
            Ok(_) => {
                self.settle(tx, record, account, to);
                proof {
                    if before.consistent() {
                        lemma_step_keeps_consistent(before, request);
                    }
                }
                Outcome::Applied
            },
            Err(e) => Outcome::Rejected(e),
        }
    }

    /// Applies one transaction, and says what became of it.
    pub fn apply_transaction(&mut self, transaction: Transaction) -> (r: Outcome)
        ensures
            final(self)@ == old(self)@.step(transaction).0,
            r == old(self)@.step(transaction).1,
            old(self)@.step_is_exact(transaction),
            old(self)@.consistent() ==> final(self)@.consistent(),
    {
        match transaction.kind {
            TransactionType::Deposit => match transaction.amount {
                Some(amount) => self.handle_deposit(transaction.client, transaction.tx, amount),
                None => Outcome::MissingAmount,
            },
            TransactionType::Withdrawal => match transaction.amount {
                Some(amount) => self.handle_withdrawal(transaction.client, transaction.tx, amount),
                None => Outcome::MissingAmount,
            },
            TransactionType::Dispute => self.handle_dispute(transaction.client, transaction.tx),
            TransactionType::Resolve => self.handle_resolve(transaction.client, transaction.tx),
            TransactionType::Chargeback => self.handle_chargeback(
                transaction.client,
                transaction.tx,
            ),
        }
    }

    /// Applies the transactions in order, and says what became of each.
    pub fn apply_transactions(&mut self, transactions: &Vec<Transaction>) -> (r: Vec<Outcome>)
        ensures
            final(self)@ == old(self)@.run(transactions@),
            r@ == old(self)@.outcomes(transactions@),
            old(self)@.run_is_exact(transactions@),
            old(self)@.consistent() ==> final(self)@.consistent(),
    {
        let ghost start = self@;
        let mut outcomes: Vec<Outcome> = Vec::new();
        let mut i: usize = 0;
        assert(transactions@.take(0) =~= Seq::<Transaction>::empty());
        while i < transactions.len()
            invariant
                i <= transactions.len(),
                self@ == start.run(transactions@.take(i as int)),
                outcomes@ == start.outcomes(transactions@.take(i as int)),
                forall|j: int|
                    0 <= j < i ==> start.run(transactions@.take(j)).step_is_exact(
                        #[trigger] transactions@[j],
                    ),
                start.consistent() ==> self@.consistent(),
            decreases transactions.len() - i,
        {
            let outcome = self.apply_transaction(transactions[i]);
            outcomes.push(outcome);
            proof {
                let next = transactions@.take(i + 1);
                assert(next.drop_last() =~= transactions@.take(i as int));
                assert(next.last() == transactions@[i as int]);
            }
            i = i + 1;
        }
        assert(transactions@.take(i as int) =~= transactions@);
        outcomes
    }

    /// Applies whatever `source` hands over, in its order, and says what
    /// became of each transaction.
    pub fn process_transactions<T: TransactionSource>(&mut self, source: &mut T) -> (r: Vec<
        Outcome,
    >)
        ensures
            exists|transactions: Seq<Transaction>|
                final(self)@ == old(self)@.run(transactions) && r@ == #[trigger] old(
                    self,
                )@.outcomes(transactions) && old(self)@.run_is_exact(transactions),
            old(self)@.consistent() ==> final(self)@.consistent(),
    {
        let transactions = source.transactions();
        self.apply_transactions(&transactions)
    }

    /// The balances of every account, by rising client id.
    pub fn report(&self) -> (r: Vec<AccountSummary>)
        ensures
            r@ == self@.report(),
            forall|i: int|
                0 <= i < r.len() ==> ((#[trigger] r[i]).available matches Some(available)
                    ==> r[i].total.value() == available.value() + r[i].held.value()),
    {
        let mut rows: Vec<AccountSummary> = Vec::new();
        let mut next: u32 = 0;
        while next < 0x1_0000
            invariant
                next <= 0x1_0000,
                rows@ == self@.summaries_below(next as nat),
                forall|i: int|
                    0 <= i < rows.len() ==> ((#[trigger] rows[i]).available matches Some(
                        available,
                    ) ==> rows[i].total.value() == available.value() + rows[i].held.value()),
            decreases 0x1_0000 - next,
        {
            let client = next as u16;
            match self.accounts.get(&client) {
                Some(account) => {
                    rows.push(
                        AccountSummary {
                            client,
                            available: account.total.checked_sub(account.held),
                            held: account.held,
                            total: account.total,
                            locked: account.is_locked,
                        },
                    );
                },
                None => {},
            }
            next = next + 1;
        }
        rows
    }
}

impl Default for Engine {
    /// An engine without accounts or records.
    fn default() -> (r: Engine)
        ensures
            r@ == Ledger::empty(),
    {
        Engine::new()
    }
}

} // verus!

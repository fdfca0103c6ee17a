//! The engine as mathematics: its state, and what each transaction does to it.

use crate::account::{Account, AccountError};
use crate::amount::Amount;
use crate::transaction::{DisputeState, Transaction, TransactionRecord, TransactionType};
use vstd::prelude::*;

verus! {

/// What became of one transaction.
#[derive(Debug, Clone, Copy, PartialEq, Eq, Structural)]
pub enum Outcome {
    /// The transaction was carried out.
    Applied,
    /// The account refused it: it is locked, or has too little available.
    Rejected(AccountError),
    /// A deposit or withdrawal came without an amount, or the recorded
    /// transaction has none.
    MissingAmount,
    /// No account exists for the client.
    UnknownClient,
    /// No transaction is recorded under the id.
    UnknownTransaction,
    /// The recorded transaction is not in the state that the operation
    /// starts from.
    InvalidTransition,
    /// The balance that would result cannot be written exactly.
    Unrepresentable,
}

/// One line of a report: the balances of one client.
#[derive(Debug, Clone, Copy)]
pub struct AccountSummary {
    pub client: u16,
    /// `total - held`, or nothing where that difference cannot be written
    /// exactly.
    pub available: Option<Amount>,
    pub held: Amount,
    pub total: Amount,
    pub locked: bool,
}

impl AccountSummary {
    /// The line that reports `account` for `client`.
    pub open spec fn of(client: u16, account: Account) -> AccountSummary {
        AccountSummary {
            client,
            available: if account.total.can_sub(account.held) {
                Some(account.total.minus(account.held))
            } else {
                None
            },
            held: account.held,
            total: account.total,
            locked: account.is_locked,
        }
    }
}

/// The state of an engine: the accounts by client, and the recorded
/// transactions by id.
#[verifier::ext_equal]
pub struct Ledger {
    pub accounts: Map<u16, Account>,
    pub transactions: Map<u32, TransactionRecord>,
}

impl Ledger {
    /// No accounts, no records.
    pub open spec fn empty() -> Ledger {
        Ledger { accounts: Map::empty(), transactions: Map::empty() }
    }

    /// The account of `client`, or a fresh one where there is none yet.
    pub open spec fn account_or_new(self, client: u16) -> Account {
        if self.accounts.contains_key(client) {
            self.accounts[client]
        } else {
            Account::new(client)
        }
    }

    /// The record of a deposit or withdrawal that was just carried out.
    pub open spec fn fresh_record(
        kind: TransactionType,
        client: u16,
        tx: u32,
        amount: Amount,
    ) -> TransactionRecord {
        TransactionRecord {
            transaction: Transaction { kind, client, tx, amount: Some(amount) },
            dispute_state: DisputeState::Undisputed,
        }
    }

    /// This ledger with the account of `client` replaced and the record of
    /// `tx` replaced.
    pub open spec fn with(
        self,
        client: u16,
        account: Account,
        tx: u32,
        record: TransactionRecord,
    ) -> Ledger {
        Ledger {
            accounts: self.accounts.insert(client, account),
            transactions: self.transactions.insert(tx, record),
        }
    }

    /// A deposit of `amount` for `client`. The account is created if there is
    /// none. A locked account refuses; a carried-out deposit is recorded
    /// under `tx`.
    pub open spec fn deposit(self, client: u16, tx: u32, amount: Amount) -> (Ledger, Outcome) {
        let account = self.account_or_new(client);
        if account.is_locked {
            (self, Outcome::Rejected(AccountError::AccountLocked(account.client_id)))
        } else if !account.total.can_add(amount) {
            (self, Outcome::Unrepresentable)
        } else {
            (
                self.with(
                    client,
                    account.deposited(amount),
                    tx,
                    Self::fresh_record(TransactionType::Deposit, client, tx, amount),
                ),
                Outcome::Applied,
            )
        }
    }

    /// A withdrawal of `amount` for `client`. It needs an account that is not
    /// locked and has `amount` available; a carried-out withdrawal is
    /// recorded under `tx`.
    pub open spec fn withdraw(self, client: u16, tx: u32, amount: Amount) -> (Ledger, Outcome) {
        if !self.accounts.contains_key(client) {
            (self, Outcome::UnknownClient)
        } else {
            let account = self.accounts[client];
            if account.is_locked {
                (self, Outcome::Rejected(AccountError::AccountLocked(account.client_id)))
            } else if !account.can_withdraw(amount) {
                (self, Outcome::Unrepresentable)
            } else if account.available() < amount.value() {
                (self, Outcome::Rejected(AccountError::InsufficientFunds(account.client_id)))
            } else {
                (
                    self.with(
                        client,
                        account.withdrawn(amount),
                        tx,
                        Self::fresh_record(TransactionType::Withdrawal, client, tx, amount),
                    ),
                    Outcome::Applied,
                )
            }
        }
    }

    /// Why a dispute, resolve or chargeback on `tx` cannot even be tried, if
    /// it cannot: no record, a record in a state that the operation does not
    /// start from, no account for the recorded client, or no recorded amount.
    pub open spec fn refusal(self, kind: TransactionType, tx: u32) -> Option<Outcome> {
        if !self.transactions.contains_key(tx) {
            Some(Outcome::UnknownTransaction)
        } else if self.transactions[tx].dispute_state.next(kind) is None {
            Some(Outcome::InvalidTransition)
        } else if !self.accounts.contains_key(self.transactions[tx].transaction.client) {
            Some(Outcome::UnknownClient)
        } else if self.transactions[tx].transaction.amount is None {
            Some(Outcome::MissingAmount)
        } else {
            None
        }
    }

    /// This ledger after the recorded transaction `tx` has moved to the
    /// state `to` and its owner's account has become `account`.
    pub open spec fn moved(self, tx: u32, account: Account, to: DisputeState) -> Ledger {
        let record = self.transactions[tx];
        self.with(
            record.transaction.client,
            account,
            tx,
            TransactionRecord { dispute_state: to, ..record },
        )
    }

    /// A dispute of the recorded transaction `tx`: its amount is frozen in
    /// the account of the client it was recorded for.
    pub open spec fn dispute(self, tx: u32) -> (Ledger, Outcome) {
        match self.refusal(TransactionType::Dispute, tx) {
            Some(outcome) => (self, outcome),
            None => {
                let record = self.transactions[tx];
                let account = self.accounts[record.transaction.client];
                let amount = record.transaction.amount->0;
                if !account.held.can_add(amount) {
                    (self, Outcome::Unrepresentable)
                } else {
                    (
                        self.moved(tx, account.disputed(amount), DisputeState::Disputed),
                        Outcome::Applied,
                    )
                }
            },
        }
    }

    /// A resolve of the disputed transaction `tx`: its amount is released.
    pub open spec fn resolve(self, tx: u32) -> (Ledger, Outcome) {
        match self.refusal(TransactionType::Resolve, tx) {
            Some(outcome) => (self, outcome),
            None => {
                let record = self.transactions[tx];
                let account = self.accounts[record.transaction.client];
                let amount = record.transaction.amount->0;
                if !account.held.can_sub(amount) {
                    (self, Outcome::Unrepresentable)
                } else {
                    (
                        self.moved(tx, account.resolved(amount), DisputeState::Resolved),
                        Outcome::Applied,
                    )
                }
            },
        }
    }

    /// A chargeback of the disputed transaction `tx`: its amount leaves the
    /// account for good, and the account is locked.
    pub open spec fn chargeback(self, tx: u32) -> (Ledger, Outcome) {
        match self.refusal(TransactionType::Chargeback, tx) {
            Some(outcome) => (self, outcome),
            None => {
                let record = self.transactions[tx];
                let account = self.accounts[record.transaction.client];
                let amount = record.transaction.amount->0;
                if !account.can_chargeback(amount) {
                    (self, Outcome::Unrepresentable)
                } else {
                    (
                        self.moved(tx, account.charged_back(amount), DisputeState::ChargedBack),
                        Outcome::Applied,
                    )
                }
            },
        }
    }

    /// Whether the total that an applied deposit names is the exact one.
    pub open spec fn deposit_is_exact(self, client: u16, tx: u32, amount: Amount) -> bool {
        self.deposit(client, tx, amount).1 == Outcome::Applied ==> self.account_or_new(
            client,
        ).total.plus_is_exact(amount)
    }

    /// Whether the total that an applied withdrawal names is the exact one.
    pub open spec fn withdraw_is_exact(self, client: u16, tx: u32, amount: Amount) -> bool {
        self.withdraw(client, tx, amount).1 == Outcome::Applied
            ==> self.accounts[client].total.minus_is_exact(amount)
    }

    /// Whether the held funds that an applied dispute names are the exact
    /// ones.
    pub open spec fn dispute_is_exact(self, tx: u32) -> bool {
        self.dispute(tx).1 == Outcome::Applied ==> {
            let record = self.transactions[tx];
            self.accounts[record.transaction.client].held.plus_is_exact(
                record.transaction.amount->0,
            )
        }
    }

    /// Whether the held funds that an applied resolve names are the exact
    /// ones.
    pub open spec fn resolve_is_exact(self, tx: u32) -> bool {
        self.resolve(tx).1 == Outcome::Applied ==> {
            let record = self.transactions[tx];
            self.accounts[record.transaction.client].held.minus_is_exact(
                record.transaction.amount->0,
            )
        }
    }

    /// Whether the held and total funds that an applied chargeback names are
    /// the exact ones.
    pub open spec fn chargeback_is_exact(self, tx: u32) -> bool {
        self.chargeback(tx).1 == Outcome::Applied ==> {
            let record = self.transactions[tx];
            let account = self.accounts[record.transaction.client];
            let amount = record.transaction.amount->0;
            account.held.minus_is_exact(amount) && account.total.minus_is_exact(amount)
        }
    }

    /// Whether every balance that the step on `t` names is the exact one. The
    /// engine shows this of every step it takes.
    pub open spec fn step_is_exact(self, t: Transaction) -> bool {
        match t.kind {
            TransactionType::Deposit => t.amount is Some ==> self.deposit_is_exact(
                t.client,
                t.tx,
                t.amount->0,
            ),
            TransactionType::Withdrawal => t.amount is Some ==> self.withdraw_is_exact(
                t.client,
                t.tx,
                t.amount->0,
            ),
            TransactionType::Dispute => self.dispute_is_exact(t.tx),
            TransactionType::Resolve => self.resolve_is_exact(t.tx),
            TransactionType::Chargeback => self.chargeback_is_exact(t.tx),
        }
    }

    /// Whether every balance named along the run of `txs` is the exact one.
    pub open spec fn run_is_exact(self, txs: Seq<Transaction>) -> bool {
        forall|i: int|
            0 <= i < txs.len() ==> self.run(txs.take(i)).step_is_exact(#[trigger] txs[i])
    }

    /// The client whose account the step on `t` concerns: the one that a
    /// deposit or withdrawal names, or the one that the transaction referred
    /// to was recorded for.
    pub open spec fn owner(self, t: Transaction) -> u16 {
        if t.kind.is_dispute_family() {
            self.transactions[t.tx].transaction.client
        } else {
            t.client
        }
    }

    /// The amount that the step on `t` moves: the one that a deposit or
    /// withdrawal carries, or the one recorded with the transaction referred
    /// to.
    pub open spec fn moved_amount(self, t: Transaction) -> Amount {
        if t.kind.is_dispute_family() {
            self.transactions[t.tx].transaction.amount->0
        } else {
            t.amount->0
        }
    }

    /// What holds of every ledger that an engine arrives at from the empty
    /// one: every account is stored under its own client id, with balances
    /// within the limits of an amount; every record is stored under its own
    /// id, is the record of a deposit or withdrawal with its amount, and
    /// belongs to a client that has an account.
    pub open spec fn consistent(self) -> bool {
        &&& forall|client: u16| #[trigger]
            self.accounts.contains_key(client) ==> {
                let account = self.accounts[client];
                &&& account.client_id == client
                &&& account.total.wf()
                &&& account.held.wf()
            }
        &&& forall|tx: u32| #[trigger]
            self.transactions.contains_key(tx) ==> {
                let recorded = self.transactions[tx].transaction;
                &&& recorded.tx == tx
                &&& recorded.kind is Deposit || recorded.kind is Withdrawal
                &&& recorded.amount matches Some(amount) && amount.wf()
                &&& self.accounts.contains_key(recorded.client)
            }
    }

    /// What one transaction does.
    pub open spec fn step(self, t: Transaction) -> (Ledger, Outcome) {
        match t.kind {
            TransactionType::Deposit => match t.amount {
                Some(amount) => self.deposit(t.client, t.tx, amount),
                None => (self, Outcome::MissingAmount),
            },
            TransactionType::Withdrawal => match t.amount {
                Some(amount) => self.withdraw(t.client, t.tx, amount),
                None => (self, Outcome::MissingAmount),
            },
            TransactionType::Dispute => self.dispute(t.tx),
            TransactionType::Resolve => self.resolve(t.tx),
            TransactionType::Chargeback => self.chargeback(t.tx),
        }
    }

    /// The ledger after the transactions `txs`, taken in order.
    pub open spec fn run(self, txs: Seq<Transaction>) -> Ledger
        decreases txs.len(),
    {
        if txs.len() == 0 {
            self
        } else {
            self.run(txs.drop_last()).step(txs.last()).0
        }
    }

    /// The report lines of the clients below `bound`, by rising client id.
    pub open spec fn summaries_below(self, bound: nat) -> Seq<AccountSummary>
        decreases bound,
    {
        if bound == 0 {
            Seq::empty()
        } else {
            let client = (bound - 1) as u16;
            let below = self.summaries_below((bound - 1) as nat);
            if self.accounts.contains_key(client) {
                below.push(AccountSummary::of(client, self.accounts[client]))
            } else {
                below
            }
        }
    }

    /// The report: one line for every account, by rising client id.
    pub open spec fn report(self) -> Seq<AccountSummary> {
        self.summaries_below(0x1_0000)
    }

    /// What became of each of the transactions `txs`, taken in order.
    pub open spec fn outcomes(self, txs: Seq<Transaction>) -> Seq<Outcome>
        decreases txs.len(),
    {
        if txs.len() == 0 {
            Seq::empty()
        } else {
            self.outcomes(txs.drop_last()).push(self.run(txs.drop_last()).step(txs.last()).1)
        }
    }
}

} // verus!

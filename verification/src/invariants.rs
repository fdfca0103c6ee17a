//! What holds of every ledger and every transaction: the effect of each
//! operation in numbers, the one-way dispute lifecycle, the one-way lock.

use crate::account::AccountError;
use crate::amount::{lemma_zero, lemma_zero_can_add, Amount};
use crate::ledger::{AccountSummary, Ledger, Outcome};
use crate::transaction::{Transaction, TransactionType};
use vstd::prelude::*;

verus! {

/// Whether the step on `t` carries out a deposit or withdrawal with the id
/// `tx`, and so writes a new record under it.
pub open spec fn records_under(ledger: Ledger, t: Transaction, tx: u32) -> bool {
    &&& t.kind is Deposit || t.kind is Withdrawal
    &&& t.tx == tx
    &&& ledger.step(t).1 == Outcome::Applied
}

/// Whether the run of `txs` carries out a deposit or withdrawal with the id
/// `tx` somewhere, and so writes a new record under it.
pub open spec fn records_anew(ledger: Ledger, txs: Seq<Transaction>, tx: u32) -> bool {
    exists|i: int|
        0 <= i < txs.len() && records_under(ledger.run(txs.take(i)), #[trigger] txs[i], tx)
}

/// A run that writes no new record under `tx` does not do so in its last
/// step, nor in the steps before.
proof fn lemma_records_anew_splits(ledger: Ledger, txs: Seq<Transaction>, tx: u32)
    requires
        txs.len() > 0,
        !records_anew(ledger, txs, tx),
    ensures
        !records_anew(ledger, txs.drop_last(), tx),
        !records_under(ledger.run(txs.drop_last()), txs.last(), tx),
{
    let before = txs.drop_last();
    assert(txs.take(txs.len() - 1) =~= before);
    assert(!records_under(ledger.run(txs.take(txs.len() - 1)), txs[txs.len() - 1], tx));
    if records_anew(ledger, before, tx) {
        let i = choose|i: int|
            0 <= i < before.len() && records_under(
                ledger.run(before.take(i)),
                #[trigger] before[i],
                tx,
            );
        assert(before.take(i) =~= txs.take(i));
        assert(records_under(ledger.run(txs.take(i)), txs[i], tx));
    }
}

/// The empty ledger is consistent.
pub proof fn lemma_empty_is_consistent()
    ensures
        Ledger::empty().consistent(),
{
}

/// A step keeps a consistent ledger consistent.
pub proof fn lemma_step_keeps_consistent(ledger: Ledger, t: Transaction)
    requires
        ledger.consistent(),
        ledger.step_is_exact(t),
        t.amount matches Some(amount) ==> amount.wf(),
    ensures
        ledger.step(t).0.consistent(),
{
    lemma_zero();
    let after = ledger.step(t).0;
    if ledger.step(t).1 == Outcome::Applied {
        let client = ledger.owner(t);
        assert forall|c: u16| #[trigger] after.accounts.contains_key(c) implies {
            let account = after.accounts[c];
            &&& account.client_id == c
            &&& account.total.wf()
            &&& account.held.wf()
        } by {
            if c != client {
                assert(ledger.accounts.contains_key(c));
            } else if ledger.accounts.contains_key(c) {
                assert(ledger.accounts[c].client_id == c);
            }
        }
        assert forall|tx: u32| #[trigger] after.transactions.contains_key(tx) implies {
            let recorded = after.transactions[tx].transaction;
            &&& recorded.tx == tx
            &&& recorded.kind is Deposit || recorded.kind is Withdrawal
            &&& recorded.amount matches Some(amount) && amount.wf()
            &&& after.accounts.contains_key(recorded.client)
        } by {
            if tx != t.tx {
                assert(ledger.transactions.contains_key(tx));
            } else if t.kind.is_dispute_family() {
                assert(ledger.transactions.contains_key(tx));
            }
        }
    }
}

/// A run keeps a consistent ledger consistent.
pub proof fn lemma_run_keeps_consistent(ledger: Ledger, txs: Seq<Transaction>)
    requires
        ledger.consistent(),
        ledger.run_is_exact(txs),
        forall|i: int| 0 <= i < txs.len() ==> ((#[trigger] txs[i]).amount matches Some(amount)
            ==> amount.wf()),
    ensures
        ledger.run(txs).consistent(),
    decreases txs.len(),
{
    if txs.len() > 0 {
        let before = txs.drop_last();
        assert(txs.take(txs.len() - 1) =~= before);
        assert forall|i: int| 0 <= i < before.len() implies ledger.run(
            before.take(i),
        ).step_is_exact(#[trigger] before[i]) by {
            assert(before.take(i) =~= txs.take(i));
            assert(ledger.run(txs.take(i)).step_is_exact(txs[i]));
        }
        lemma_run_keeps_consistent(ledger, before);
        assert(ledger.run(txs.take(txs.len() - 1)).step_is_exact(txs[txs.len() - 1]));
        lemma_step_keeps_consistent(ledger.run(before), txs.last());
    }
}

/// In a consistent ledger a dispute, resolve or chargeback is refused only
/// for want of a record or for the state the record is in: the account and
/// the amount are always there.
pub proof fn lemma_consistent_refusals(ledger: Ledger, t: Transaction)
    requires
        ledger.consistent(),
        t.kind.is_dispute_family(),
    ensures
        ledger.step(t).1 != Outcome::UnknownClient,
        ledger.step(t).1 != Outcome::MissingAmount,
        !(ledger.step(t).1 is Rejected),
        ledger.step(t).1 == Outcome::UnknownTransaction <==> !ledger.transactions.contains_key(
            t.tx,
        ),
        ledger.step(t).1 == Outcome::InvalidTransition <==> ledger.transactions.contains_key(t.tx)
            && ledger.transactions[t.tx].dispute_state.next(t.kind) is None,
{
}

/// A transaction that is not carried out leaves the ledger as it was: no
/// balance moves, no account appears, no record is written.
pub proof fn lemma_only_applied_changes(ledger: Ledger, t: Transaction)
    requires
        ledger.step(t).1 != Outcome::Applied,
    ensures
        ledger.step(t).0 == ledger,
{
}

/// What an applied transaction does to the balances of the account it
/// concerns, in numbers: a deposit adds to the total, a withdrawal takes
/// from it, a dispute adds to the held funds, a resolve takes from them, a
/// chargeback takes from both and locks. Nothing else changes in that
/// account.
pub proof fn lemma_applied_effect(ledger: Ledger, t: Transaction)
    requires
        ledger.step(t).1 == Outcome::Applied,
        ledger.step_is_exact(t),
    ensures
        ({
            let client = ledger.owner(t);
            let amount = ledger.moved_amount(t).value();
            let before = ledger.account_or_new(client);
            let after = ledger.step(t).0.accounts[client];
            &&& ledger.step(t).0.accounts.contains_key(client)
            &&& after.client_id == before.client_id
            &&& after.total.value() == before.total.value() + match t.kind {
                TransactionType::Deposit => amount,
                TransactionType::Withdrawal | TransactionType::Chargeback => -amount,
                TransactionType::Dispute | TransactionType::Resolve => 0,
            }
            &&& after.held.value() == before.held.value() + match t.kind {
                TransactionType::Deposit | TransactionType::Withdrawal => 0,
                TransactionType::Dispute => amount,
                TransactionType::Resolve | TransactionType::Chargeback => -amount,
            }
            &&& after.is_locked == (before.is_locked || t.kind is Chargeback)
        }),
{
}

/// An applied transaction changes no account but the one it concerns.
pub proof fn lemma_applied_touches_one_account(ledger: Ledger, t: Transaction, other: u16)
    requires
        other != ledger.owner(t),
    ensures
        ledger.step(t).0.accounts.contains_key(other) == ledger.accounts.contains_key(other),
        ledger.accounts.contains_key(other) ==> ledger.step(t).0.accounts[other]
            == ledger.accounts[other],
{
}

/// An applied dispute-family transaction moves the record it refers to from
/// `Undisputed` to `Disputed`, or from `Disputed` to `Resolved` or
/// `ChargedBack`, and changes no other record. An applied deposit or
/// withdrawal writes an undisputed record under its id.
pub proof fn lemma_applied_moves_one_record(ledger: Ledger, t: Transaction)
    requires
        ledger.step(t).1 == Outcome::Applied,
    ensures
        ({
            let after = ledger.step(t).0.transactions;
            &&& after.contains_key(t.tx)
            &&& forall|tx: u32|
                tx != t.tx ==> after.contains_key(tx) == ledger.transactions.contains_key(tx) && (
                after.contains_key(tx) ==> after[tx] == ledger.transactions[tx])
            &&& match t.kind {
                TransactionType::Deposit | TransactionType::Withdrawal => after[t.tx]
                    == Ledger::fresh_record(t.kind, t.client, t.tx, t.amount->0),
                TransactionType::Dispute => {
                    &&& ledger.transactions[t.tx].dispute_state is Undisputed
                    &&& after[t.tx].dispute_state is Disputed
                    &&& after[t.tx].transaction == ledger.transactions[t.tx].transaction
                },
                TransactionType::Resolve => {
                    &&& ledger.transactions[t.tx].dispute_state is Disputed
                    &&& after[t.tx].dispute_state is Resolved
                    &&& after[t.tx].transaction == ledger.transactions[t.tx].transaction
                },
                TransactionType::Chargeback => {
                    &&& ledger.transactions[t.tx].dispute_state is Disputed
                    &&& after[t.tx].dispute_state is ChargedBack
                    &&& after[t.tx].transaction == ledger.transactions[t.tx].transaction
                },
            }
        }),
{
}

/// A dispute, resolve or chargeback on a transaction id that was never
/// recorded changes nothing.
pub proof fn lemma_unknown_transaction_changes_nothing(ledger: Ledger, t: Transaction)
    requires
        t.kind.is_dispute_family(),
        !ledger.transactions.contains_key(t.tx),
    ensures
        ledger.step(t).0 == ledger,
        ledger.step(t).1 == Outcome::UnknownTransaction,
{
}

/// The first deposit of a client is always carried out: it opens the
/// account with exactly the amount deposited.
pub proof fn lemma_first_deposit_applies(ledger: Ledger, client: u16, tx: u32, amount: Amount)
    requires
        amount.wf(),
        !ledger.accounts.contains_key(client),
    ensures
        ledger.deposit(client, tx, amount).1 == Outcome::Applied,
        ledger.deposit(client, tx, amount).0.accounts.contains_key(client),
        ledger.deposit(client, tx, amount).0.transactions.contains_key(tx),
        ledger.deposit_is_exact(client, tx, amount) ==> {
            let account = ledger.deposit(client, tx, amount).0.accounts[client];
            &&& account.total.value() == amount.value()
            &&& account.held.value() == 0
            &&& !account.is_locked
        },
{
    lemma_zero();
    lemma_zero_can_add(amount);
}

/// Once the dispute on a transaction has been resolved or charged back, a
/// further dispute, resolve or chargeback on it changes no balance, and
/// nothing else.
pub proof fn lemma_settled_is_final(ledger: Ledger, t: Transaction)
    requires
        t.kind.is_dispute_family(),
        ledger.transactions.contains_key(t.tx),
        ledger.transactions[t.tx].dispute_state.is_settled(),
    ensures
        ledger.step(t).0 == ledger,
        ledger.step(t).1 == Outcome::InvalidTransition,
{
}

/// A settled record stays as it is under any transaction but a deposit or
/// withdrawal that is carried out under the same id.
pub proof fn lemma_step_keeps_settled(ledger: Ledger, t: Transaction, tx: u32)
    requires
        ledger.transactions.contains_key(tx),
        ledger.transactions[tx].dispute_state.is_settled(),
        !records_under(ledger, t, tx),
    ensures
        ledger.step(t).0.transactions.contains_key(tx),
        ledger.step(t).0.transactions[tx] == ledger.transactions[tx],
{
}

/// A settled record stays as it is under any run of transactions that
/// carries out no deposit or withdrawal under the same id.
pub proof fn lemma_run_keeps_settled(ledger: Ledger, txs: Seq<Transaction>, tx: u32)
    requires
        ledger.transactions.contains_key(tx),
        ledger.transactions[tx].dispute_state.is_settled(),
        !records_anew(ledger, txs, tx),
    ensures
        ledger.run(txs).transactions.contains_key(tx),
        ledger.run(txs).transactions[tx] == ledger.transactions[tx],
    decreases txs.len(),
{
    if txs.len() > 0 {
        lemma_records_anew_splits(ledger, txs, tx);
        lemma_run_keeps_settled(ledger, txs.drop_last(), tx);
        lemma_step_keeps_settled(ledger.run(txs.drop_last()), txs.last(), tx);
    }
}

/// Once the dispute on a transaction has been resolved or charged back, no
/// dispute, resolve or chargeback on it ever changes a balance again,
/// whatever was applied in between, as long as no deposit or withdrawal was
/// carried out under the same id.
pub proof fn lemma_settled_is_final_forever(ledger: Ledger, txs: Seq<Transaction>, t: Transaction)
    requires
        t.kind.is_dispute_family(),
        ledger.transactions.contains_key(t.tx),
        ledger.transactions[t.tx].dispute_state.is_settled(),
        !records_anew(ledger, txs, t.tx),
    ensures
        ledger.run(txs).step(t).0 == ledger.run(txs),
        ledger.run(txs).step(t).0.accounts == ledger.run(txs).accounts,
{
    lemma_run_keeps_settled(ledger, txs, t.tx);
    lemma_settled_is_final(ledger.run(txs), t);
}

/// No transaction moves a record back in the lifecycle, unless it is a
/// deposit or withdrawal that is carried out under the same id.
pub proof fn lemma_step_never_moves_back(ledger: Ledger, t: Transaction, tx: u32)
    requires
        ledger.transactions.contains_key(tx),
        !records_under(ledger, t, tx),
    ensures
        ledger.step(t).0.transactions.contains_key(tx),
        ledger.step(t).0.transactions[tx].transaction == ledger.transactions[tx].transaction,
        ledger.step(t).0.transactions[tx].dispute_state.rank()
            >= ledger.transactions[tx].dispute_state.rank(),
{
}

/// No run of transactions moves a record back in the lifecycle, as long as
/// it carries out no deposit or withdrawal under the same id: a dispute that
/// was opened is never undisputed again, and one that was closed is never
/// open again.
pub proof fn lemma_run_never_moves_back(ledger: Ledger, txs: Seq<Transaction>, tx: u32)
    requires
        ledger.transactions.contains_key(tx),
        !records_anew(ledger, txs, tx),
    ensures
        ledger.run(txs).transactions.contains_key(tx),
        ledger.run(txs).transactions[tx].transaction == ledger.transactions[tx].transaction,
        ledger.run(txs).transactions[tx].dispute_state.rank()
            >= ledger.transactions[tx].dispute_state.rank(),
    decreases txs.len(),
{
    if txs.len() > 0 {
        lemma_records_anew_splits(ledger, txs, tx);
        lemma_run_never_moves_back(ledger, txs.drop_last(), tx);
        lemma_step_never_moves_back(ledger.run(txs.drop_last()), txs.last(), tx);
    }
}

/// No transaction unlocks an account, and none removes one.
pub proof fn lemma_step_keeps_lock(ledger: Ledger, t: Transaction, client: u16)
    requires
        ledger.accounts.contains_key(client),
        ledger.accounts[client].is_locked,
    ensures
        ledger.step(t).0.accounts.contains_key(client),
        ledger.step(t).0.accounts[client].is_locked,
{
}

/// A locked account stays locked under any run of transactions.
pub proof fn lemma_run_keeps_lock(ledger: Ledger, txs: Seq<Transaction>, client: u16)
    requires
        ledger.accounts.contains_key(client),
        ledger.accounts[client].is_locked,
    ensures
        ledger.run(txs).accounts.contains_key(client),
        ledger.run(txs).accounts[client].is_locked,
    decreases txs.len(),
{
    if txs.len() > 0 {
        lemma_run_keeps_lock(ledger, txs.drop_last(), client);
        lemma_step_keeps_lock(ledger.run(txs.drop_last()), txs.last(), client);
    }
}

/// A deposit or withdrawal on a locked account changes nothing.
pub proof fn lemma_locked_account_refuses(ledger: Ledger, t: Transaction)
    requires
        t.kind is Deposit || t.kind is Withdrawal,
        ledger.accounts.contains_key(t.client),
        ledger.accounts[t.client].is_locked,
    ensures
        ledger.step(t).0 == ledger,
        t.amount is Some ==> ledger.step(t).1 == Outcome::Rejected(
            AccountError::AccountLocked(ledger.accounts[t.client].client_id),
        ),
        t.amount is None ==> ledger.step(t).1 == Outcome::MissingAmount,
{
}

/// Once an account is locked, every later deposit or withdrawal on it
/// changes nothing, whatever was applied in between.
pub proof fn lemma_locked_account_refuses_forever(
    ledger: Ledger,
    txs: Seq<Transaction>,
    t: Transaction,
)
    requires
        t.kind is Deposit || t.kind is Withdrawal,
        ledger.accounts.contains_key(t.client),
        ledger.accounts[t.client].is_locked,
    ensures
        ledger.run(txs).step(t).0 == ledger.run(txs),
        ledger.run(txs).step(t).1 != Outcome::Applied,
{
    lemma_run_keeps_lock(ledger, txs, t.client);
    lemma_locked_account_refuses(ledger.run(txs), t);
}

/// No transaction removes an account or a record.
pub proof fn lemma_step_keeps_entries(ledger: Ledger, t: Transaction)
    ensures
        ledger.accounts.dom().subset_of(ledger.step(t).0.accounts.dom()),
        ledger.transactions.dom().subset_of(ledger.step(t).0.transactions.dom()),
{
}

/// The lines for the clients below `bound` are lines of accounts of such
/// clients, each reported as it is, by strictly rising client id, and no
/// account of such a client is left out.
pub proof fn lemma_summaries_below(ledger: Ledger, bound: nat)
    requires
        bound <= 0x1_0000,
    ensures
        ({
            let rows = ledger.summaries_below(bound);
            &&& forall|i: int|
                0 <= i < rows.len() ==> (#[trigger] rows[i]).client < bound
                    && ledger.accounts.contains_key(rows[i].client) && rows[i]
                    == AccountSummary::of(rows[i].client, ledger.accounts[rows[i].client])
            &&& forall|i: int, j: int|
                0 <= i < j < rows.len() ==> (#[trigger] rows[i]).client < (#[trigger] rows[j]).client
            &&& forall|client: u16|
                client < bound && ledger.accounts.contains_key(client) ==> exists|i: int|
                    0 <= i < rows.len() && (#[trigger] rows[i]).client == client
        }),
    decreases bound,
{
    if bound > 0 {
        let below = ledger.summaries_below((bound - 1) as nat);
        let rows = ledger.summaries_below(bound);
        lemma_summaries_below(ledger, (bound - 1) as nat);
        let last = (bound - 1) as u16;
        assert forall|client: u16|
            client < bound && ledger.accounts.contains_key(client) implies exists|i: int|
            0 <= i < rows.len() && (#[trigger] rows[i]).client == client by {
            if client == last {
                assert(rows[rows.len() - 1].client == client);
            } else {
                let i = choose|i: int| 0 <= i < below.len() && (#[trigger] below[i]).client == client;
                assert(rows[i].client == client);
            }
        }
    }
}

/// The report holds one line for every account and no other line, each
/// account reported as it is, by strictly rising client id.
pub proof fn lemma_report_lists_every_account(ledger: Ledger)
    ensures
        ({
            let rows = ledger.report();
            &&& forall|i: int|
                0 <= i < rows.len() ==> ledger.accounts.contains_key((#[trigger] rows[i]).client)
                    && rows[i] == AccountSummary::of(rows[i].client, ledger.accounts[rows[i].client])
            &&& forall|i: int, j: int|
                0 <= i < j < rows.len() ==> (#[trigger] rows[i]).client < (#[trigger] rows[j]).client
            &&& forall|client: u16|
                ledger.accounts.contains_key(client) ==> exists|i: int|
                    0 <= i < rows.len() && (#[trigger] rows[i]).client == client
        }),
{
    lemma_summaries_below(ledger, 0x1_0000);
}

} // verus!

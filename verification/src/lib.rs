//! A small transaction engine: per-client accounts with available, held and
//! total funds, and the dispute lifecycle of recorded transactions.
//!
//! - [`amount`]: decimal amounts, with exact addition, subtraction and order;
//!   the arithmetic is `rust_decimal`'s, behind the contracts of [`decimal`].
//! - [`account`]: the balances of one client and the operations on them.
//! - [`transaction`]: transactions, their kinds, the dispute lifecycle.
//! - [`ledger`]: the state of an engine and the effect of every
//!   transaction, as mathematics.
//! - [`engine`]: the engine itself, which does what [`ledger`] says.
//! - [`invariants`]: what holds of every ledger and every run.
//! - [`text`]: the header line and the words of a transaction file.

pub mod account;
pub mod amount;
pub mod decimal;
pub mod engine;
pub mod invariants;
pub mod ledger;
pub mod text;
pub mod transaction;

use engine::Engine;
use ledger::Outcome;
use transaction::{Transaction, TransactionSource};
use vstd::prelude::*;

verus! {

/// Runs the engine on whatever `source` hands over, and says what became of
/// each transaction.
pub fn run_engine_with_source<T: TransactionSource>(engine: &mut Engine, source: &mut T) -> (r:
    Vec<Outcome>)
    ensures
        exists|transactions: Seq<Transaction>|
            final(engine)@ == old(engine)@.run(transactions) && r@ == #[trigger] old(
                engine,
            )@.outcomes(transactions) && old(engine)@.run_is_exact(transactions),
        old(engine)@.consistent() ==> final(engine)@.consistent(),
{
    engine.process_transactions(source)
}

} // verus!

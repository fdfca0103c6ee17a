use rust_toy_tx_engine::account::AccountError;
use rust_toy_tx_engine::amount::{Amount, MAX_MANTISSA};
use rust_toy_tx_engine::engine::Engine;
use rust_toy_tx_engine::ledger::Outcome;
use rust_toy_tx_engine::run_engine_with_source;
use rust_toy_tx_engine::transaction::{
    CsvTransactionSource, DisputeState, Transaction, TransactionSource, TransactionType,
};

fn setup_engine_with_deposit(client_id: u16, tx_id: u32, amount: Amount) -> Engine {
    let mut engine = Engine::new();
    engine.handle_deposit(client_id, tx_id, amount);
    engine
}

fn deposit(client: u16, tx: u32, mantissa: i64, scale: u32) -> Transaction {
    Transaction {
        kind: TransactionType::Deposit,
        client,
        tx,
        amount: Some(Amount::new(mantissa, scale)),
    }
}

fn withdrawal(client: u16, tx: u32, mantissa: i64, scale: u32) -> Transaction {
    Transaction {
        kind: TransactionType::Withdrawal,
        client,
        tx,
        amount: Some(Amount::new(mantissa, scale)),
    }
}

fn referring(kind: TransactionType, client: u16, tx: u32) -> Transaction {
    Transaction { kind, client, tx, amount: None }
}

struct Fixture {
    transactions: Vec<Transaction>,
}

impl TransactionSource for Fixture {
    fn transactions(&mut self) -> Vec<Transaction> {
        self.transactions.clone()
    }
}

#[test]
fn test_handle_dispute() {
    let client_id = 1;
    let tx_id = 1001;
    let deposit_amount = Amount::new(100, 2); // 1.00

    let mut engine = setup_engine_with_deposit(client_id, tx_id, deposit_amount);

    // Dispute the transaction
    engine.handle_dispute(client_id, tx_id);
    let account = engine.accounts.get(&client_id).unwrap();
    assert_eq!(account.held, deposit_amount);
    assert_eq!(account.get_available(), Amount::zero());

    // Verify transaction state
    let transaction = engine.transactions.get(&tx_id).unwrap();
    assert_eq!(transaction.dispute_state, DisputeState::Disputed);
}

#[test]
fn test_handle_resolve() {
    let client_id = 1;
    let tx_id = 1001;
    let deposit_amount = Amount::new(100, 2); // 1.00

    let mut engine = setup_engine_with_deposit(client_id, tx_id, deposit_amount);

    // Dispute the transaction
    engine.handle_dispute(client_id, tx_id);

    // Resolve the dispute
    engine.handle_resolve(client_id, tx_id);
    let account = engine.accounts.get(&client_id).unwrap();
    assert_eq!(account.held, Amount::zero());
    assert_eq!(account.get_available(), deposit_amount);

    // Verify transaction state
    let transaction = engine.transactions.get(&tx_id).unwrap();
    assert_eq!(transaction.dispute_state, DisputeState::Resolved);
}

#[test]
fn test_handle_chargeback() {
    let client_id = 1;
    let tx_id = 1001;
    let deposit_amount = Amount::new(100, 2); // 1.00

    let mut engine = setup_engine_with_deposit(client_id, tx_id, deposit_amount);

    // Dispute the transaction
    engine.handle_dispute(client_id, tx_id);
    let account = engine.accounts.get(&client_id).unwrap();
    assert_eq!(account.held, deposit_amount);
    assert_eq!(account.get_available(), Amount::zero());

    // Chargeback the transaction
    engine.handle_chargeback(client_id, tx_id);
    let account = engine.accounts.get(&client_id).unwrap();
    assert_eq!(account.total, Amount::zero());
    assert_eq!(account.held, Amount::zero());
    assert!(account.is_locked);

    // Verify transaction state
    let transaction = engine.transactions.get(&tx_id).unwrap();
    assert_eq!(transaction.dispute_state, DisputeState::ChargedBack);

    // Edge case: Chargeback a non-existent transaction
    let non_existent_tx_id = 9999;
    engine.handle_chargeback(client_id, non_existent_tx_id);
    // No panic or crash expected

    // Edge case: Chargeback a transaction not in dispute
    engine.handle_chargeback(client_id, tx_id);
    // No state change expected
    let account = engine.accounts.get(&client_id).unwrap();
    assert_eq!(account.total, Amount::zero());
    assert_eq!(account.held, Amount::zero());
    assert!(account.is_locked);
    let transaction = engine.transactions.get(&tx_id).unwrap();
    assert_eq!(transaction.dispute_state, DisputeState::ChargedBack);
}

#[test]
fn test_read_sample_csv() {
    let mut engine = Engine::new();
    let mut source = Fixture {
        transactions: vec![
            deposit(1, 1, 10, 1),
            deposit(2, 2, 20, 1),
            deposit(1, 3, 20, 1),
            withdrawal(1, 4, 15, 1),
            withdrawal(2, 5, 30, 1),
        ],
    };
    run_engine_with_source(&mut engine, &mut source);
    assert!(
        !engine.accounts.is_empty(),
        "Engine should have processed accounts"
    );

    let account1 = engine.accounts.get(&1).unwrap();
    assert_eq!(account1.get_available(), Amount::new(15, 1));
    assert_eq!(account1.held, Amount::new(0, 2));
    assert_eq!(account1.total, Amount::new(15, 1));

    let account2 = engine.accounts.get(&2).unwrap();
    assert_eq!(account2.get_available(), Amount::new(20, 1));
    assert_eq!(account2.held, Amount::new(0, 2));
    assert_eq!(account2.total, Amount::new(20, 1));
}

#[test]
fn new_engine_is_empty() {
    let engine = Engine::new();
    assert!(engine.accounts.is_empty());
    assert!(engine.transactions.is_empty());
    assert!(engine.report().is_empty());

    let engine = Engine::default();
    assert!(engine.accounts.is_empty());
    assert!(engine.transactions.is_empty());
}

#[test]
fn deposit_creates_the_account_and_the_record() {
    let mut engine = Engine::new();
    assert_eq!(engine.handle_deposit(3, 10, Amount::new(250, 2)), Outcome::Applied);

    assert_eq!(engine.accounts.len(), 1);
    let account = engine.accounts.get(&3).unwrap();
    assert_eq!(account.client_id, 3);
    assert_eq!(account.total, Amount::new(250, 2));
    assert_eq!(account.held, Amount::zero());
    assert!(!account.is_locked);

    assert_eq!(engine.transactions.len(), 1);
    let record = engine.transactions.get(&10).unwrap();
    assert_eq!(record.dispute_state, DisputeState::Undisputed);
    assert_eq!(record.transaction.kind, TransactionType::Deposit);
    assert_eq!(record.transaction.client, 3);
    assert_eq!(record.transaction.tx, 10);
    assert_eq!(record.transaction.amount, Some(Amount::new(250, 2)));
}

#[test]
fn withdrawal_is_recorded_when_carried_out() {
    let mut engine = setup_engine_with_deposit(3, 10, Amount::new(250, 2));
    assert_eq!(engine.handle_withdrawal(3, 11, Amount::new(50, 2)), Outcome::Applied);

    let account = engine.accounts.get(&3).unwrap();
    assert_eq!(account.total, Amount::new(200, 2));
    let record = engine.transactions.get(&11).unwrap();
    assert_eq!(record.dispute_state, DisputeState::Undisputed);
    assert_eq!(record.transaction.kind, TransactionType::Withdrawal);
    assert_eq!(record.transaction.client, 3);
    assert_eq!(record.transaction.tx, 11);
    assert_eq!(record.transaction.amount, Some(Amount::new(50, 2)));
}

#[test]
fn withdrawal_for_unknown_client_creates_nothing() {
    let mut engine = Engine::new();
    assert_eq!(
        engine.handle_withdrawal(9, 1, Amount::new(100, 2)),
        Outcome::UnknownClient
    );
    assert!(engine.accounts.is_empty());
    assert!(engine.transactions.is_empty());
}

#[test]
fn refused_withdrawal_leaves_no_record() {
    let mut engine = setup_engine_with_deposit(1, 1, Amount::new(100, 2));
    assert_eq!(
        engine.handle_withdrawal(1, 2, Amount::new(500, 2)),
        Outcome::Rejected(AccountError::InsufficientFunds(1))
    );
    assert!(engine.transactions.get(&2).is_none());
    assert_eq!(engine.accounts.get(&1).unwrap().total, Amount::new(100, 2));

    // what left no record cannot be disputed
    assert_eq!(engine.handle_dispute(1, 2), Outcome::UnknownTransaction);
    assert_eq!(engine.accounts.get(&1).unwrap().held, Amount::zero());
}

#[test]
fn deposit_or_withdrawal_without_amount_is_skipped() {
    let mut engine = setup_engine_with_deposit(1, 1, Amount::new(100, 2));
    assert_eq!(
        engine.apply_transaction(referring(TransactionType::Deposit, 1, 2)),
        Outcome::MissingAmount
    );
    assert_eq!(
        engine.apply_transaction(referring(TransactionType::Withdrawal, 1, 3)),
        Outcome::MissingAmount
    );
    assert_eq!(
        engine.apply_transaction(referring(TransactionType::Deposit, 5, 4)),
        Outcome::MissingAmount
    );
    assert_eq!(engine.accounts.len(), 1);
    assert_eq!(engine.transactions.len(), 1);
    assert_eq!(engine.accounts.get(&1).unwrap().total, Amount::new(100, 2));
}

#[test]
fn dispute_lifecycle_rejects_what_the_table_does_not_allow() {
    let mut engine = setup_engine_with_deposit(1, 1, Amount::new(100, 2));

    // not disputed yet
    assert_eq!(engine.handle_resolve(1, 1), Outcome::InvalidTransition);
    assert_eq!(engine.handle_chargeback(1, 1), Outcome::InvalidTransition);
    assert_eq!(
        engine.transactions.get(&1).unwrap().dispute_state,
        DisputeState::Undisputed
    );
    assert_eq!(engine.accounts.get(&1).unwrap().held, Amount::zero());
    assert!(!engine.accounts.get(&1).unwrap().is_locked);

    assert_eq!(engine.handle_dispute(1, 1), Outcome::Applied);
    // disputed twice
    assert_eq!(engine.handle_dispute(1, 1), Outcome::InvalidTransition);
    assert_eq!(engine.accounts.get(&1).unwrap().held, Amount::new(100, 2));

    assert_eq!(engine.handle_resolve(1, 1), Outcome::Applied);
    // resolved is final
    assert_eq!(engine.handle_dispute(1, 1), Outcome::InvalidTransition);
    assert_eq!(engine.handle_resolve(1, 1), Outcome::InvalidTransition);
    assert_eq!(engine.handle_chargeback(1, 1), Outcome::InvalidTransition);
    let account = engine.accounts.get(&1).unwrap();
    assert_eq!(account.held, Amount::zero());
    assert_eq!(account.total, Amount::new(100, 2));
    assert!(!account.is_locked);
    assert_eq!(
        engine.transactions.get(&1).unwrap().dispute_state,
        DisputeState::Resolved
    );
}

#[test]
fn charged_back_is_final() {
    let mut engine = setup_engine_with_deposit(1, 1, Amount::new(100, 2));
    engine.handle_deposit(1, 2, Amount::new(300, 2));
    assert_eq!(engine.handle_dispute(1, 1), Outcome::Applied);
    assert_eq!(engine.handle_chargeback(1, 1), Outcome::Applied);

    for _ in 0..3 {
        assert_eq!(engine.handle_dispute(1, 1), Outcome::InvalidTransition);
        assert_eq!(engine.handle_resolve(1, 1), Outcome::InvalidTransition);
        assert_eq!(engine.handle_chargeback(1, 1), Outcome::InvalidTransition);
    }
    let account = engine.accounts.get(&1).unwrap();
    assert_eq!(account.total, Amount::new(300, 2));
    assert_eq!(account.held, Amount::zero());
    assert_eq!(account.get_available(), Amount::new(300, 2));
    assert!(account.is_locked);
    assert_eq!(
        engine.transactions.get(&1).unwrap().dispute_state,
        DisputeState::ChargedBack
    );
}

#[test]
fn disputes_on_a_locked_account_still_run() {
    let mut engine = setup_engine_with_deposit(1, 1, Amount::new(100, 2));
    engine.handle_deposit(1, 2, Amount::new(300, 2));
    engine.handle_dispute(1, 1);
    engine.handle_chargeback(1, 1);
    assert!(engine.accounts.get(&1).unwrap().is_locked);

    assert_eq!(engine.handle_dispute(1, 2), Outcome::Applied);
    let account = engine.accounts.get(&1).unwrap();
    assert_eq!(account.held, Amount::new(300, 2));
    assert_eq!(account.total, Amount::new(300, 2));
    assert!(account.is_locked);

    assert_eq!(engine.handle_resolve(1, 2), Outcome::Applied);
    let account = engine.accounts.get(&1).unwrap();
    assert_eq!(account.held, Amount::zero());
    assert_eq!(account.total, Amount::new(300, 2));
    assert!(account.is_locked);
}

#[test]
fn locked_account_refuses_deposits_and_withdrawals() {
    let mut engine = setup_engine_with_deposit(1, 1, Amount::new(100, 2));
    engine.handle_deposit(1, 2, Amount::new(300, 2));
    engine.handle_dispute(1, 1);
    engine.handle_chargeback(1, 1);

    assert_eq!(
        engine.handle_deposit(1, 3, Amount::new(100, 2)),
        Outcome::Rejected(AccountError::AccountLocked(1))
    );
    assert_eq!(
        engine.handle_withdrawal(1, 4, Amount::new(100, 2)),
        Outcome::Rejected(AccountError::AccountLocked(1))
    );
    assert!(engine.transactions.get(&3).is_none());
    assert!(engine.transactions.get(&4).is_none());
    let account = engine.accounts.get(&1).unwrap();
    assert_eq!(account.total, Amount::new(300, 2));
    assert!(account.is_locked);

    // another client is not affected
    assert_eq!(engine.handle_deposit(2, 5, Amount::new(100, 2)), Outcome::Applied);
    assert!(!engine.accounts.get(&2).unwrap().is_locked);
}

#[test]
fn dispute_moves_the_funds_of_the_recorded_client() {
    let mut engine = setup_engine_with_deposit(1, 1, Amount::new(100, 2));
    engine.handle_deposit(2, 2, Amount::new(700, 2));

    // the request names client 2, the transaction belongs to client 1
    assert_eq!(engine.handle_dispute(2, 1), Outcome::Applied);
    assert_eq!(engine.accounts.get(&1).unwrap().held, Amount::new(100, 2));
    assert_eq!(engine.accounts.get(&2).unwrap().held, Amount::zero());
    assert_eq!(engine.accounts.get(&2).unwrap().total, Amount::new(700, 2));
}

#[test]
fn disputed_withdrawal_freezes_its_amount() {
    let mut engine = setup_engine_with_deposit(1, 1, Amount::new(500, 2));
    engine.handle_withdrawal(1, 2, Amount::new(200, 2));

    assert_eq!(engine.handle_dispute(1, 2), Outcome::Applied);
    let account = engine.accounts.get(&1).unwrap();
    assert_eq!(account.total, Amount::new(300, 2));
    assert_eq!(account.held, Amount::new(200, 2));
    assert_eq!(account.get_available(), Amount::new(100, 2));
}

#[test]
fn dispute_after_spending_drives_available_negative() {
    let mut engine = setup_engine_with_deposit(1, 1, Amount::new(500, 2));
    engine.handle_withdrawal(1, 2, Amount::new(400, 2));

    assert_eq!(engine.handle_dispute(1, 1), Outcome::Applied);
    let account = engine.accounts.get(&1).unwrap();
    assert_eq!(account.total, Amount::new(100, 2));
    assert_eq!(account.held, Amount::new(500, 2));
    assert_eq!(account.get_available(), Amount::new(-400, 2));

    assert_eq!(engine.handle_chargeback(1, 1), Outcome::Applied);
    let account = engine.accounts.get(&1).unwrap();
    assert_eq!(account.total, Amount::new(-400, 2));
    assert_eq!(account.held, Amount::zero());
    assert!(account.is_locked);
}

#[test]
fn record_without_account_or_amount_is_reported() {
    let mut engine = setup_engine_with_deposit(1, 1, Amount::new(100, 2));
    engine.accounts.clear();
    assert_eq!(engine.handle_dispute(1, 1), Outcome::UnknownClient);
    assert_eq!(
        engine.transactions.get(&1).unwrap().dispute_state,
        DisputeState::Undisputed
    );
    assert!(engine.accounts.is_empty());

    let mut engine = setup_engine_with_deposit(1, 1, Amount::new(100, 2));
    engine.transactions.get_mut(&1).unwrap().transaction.amount = None;
    assert_eq!(engine.handle_dispute(1, 1), Outcome::MissingAmount);
    assert_eq!(engine.accounts.get(&1).unwrap().held, Amount::zero());
}

#[test]
fn deposit_that_does_not_fit_is_skipped() {
    let max = Amount::from_parts(MAX_MANTISSA, 0).unwrap();
    let mut engine = setup_engine_with_deposit(1, 1, max);
    assert_eq!(engine.accounts.get(&1).unwrap().total, max);

    assert_eq!(engine.handle_deposit(1, 2, Amount::new(1, 0)), Outcome::Unrepresentable);
    assert_eq!(engine.handle_deposit(1, 3, Amount::new(5, 1)), Outcome::Unrepresentable);
    assert_eq!(engine.accounts.get(&1).unwrap().total, max);
    assert!(engine.transactions.get(&2).is_none());
    assert!(engine.transactions.get(&3).is_none());

    // the engine goes on
    assert_eq!(engine.handle_withdrawal(1, 4, Amount::new(1, 0)), Outcome::Applied);
    assert_eq!(engine.handle_deposit(1, 5, Amount::new(1, 0)), Outcome::Applied);
    assert_eq!(engine.accounts.get(&1).unwrap().total, max);
}

#[test]
fn withdrawal_that_cannot_be_decided_exactly_is_skipped() {
    let mut engine = setup_engine_with_deposit(1, 1, Amount::new(10, 0));
    // 10 - 10^-28 cannot be written with 96 bits
    assert_eq!(
        engine.handle_withdrawal(1, 2, Amount::new(1, 28)),
        Outcome::Unrepresentable
    );
    assert_eq!(engine.accounts.get(&1).unwrap().total, Amount::new(10, 0));
    assert!(engine.transactions.get(&2).is_none());
}

#[test]
fn dispute_that_does_not_fit_is_skipped() {
    let max = Amount::from_parts(MAX_MANTISSA, 0).unwrap();
    let mut engine = setup_engine_with_deposit(1, 1, max);
    assert_eq!(engine.handle_dispute(1, 1), Outcome::Applied);
    assert_eq!(engine.handle_resolve(1, 1), Outcome::Applied);
    assert_eq!(engine.handle_withdrawal(1, 2, max), Outcome::Applied);
    assert_eq!(engine.handle_deposit(1, 3, max), Outcome::Applied);
    assert_eq!(engine.handle_dispute(1, 3), Outcome::Applied);
    // held is at the limit: the withdrawal's amount cannot be frozen on top
    assert_eq!(engine.handle_dispute(1, 2), Outcome::Unrepresentable);
    assert_eq!(engine.accounts.get(&1).unwrap().held, max);
    assert_eq!(
        engine.transactions.get(&2).unwrap().dispute_state,
        DisputeState::Undisputed
    );
}

#[test]
fn reused_transaction_id_replaces_the_record() {
    let mut engine = setup_engine_with_deposit(1, 1, Amount::new(100, 2));
    engine.handle_dispute(1, 1);
    engine.handle_resolve(1, 1);
    assert_eq!(engine.handle_deposit(1, 1, Amount::new(200, 2)), Outcome::Applied);

    let record = engine.transactions.get(&1).unwrap();
    assert_eq!(record.dispute_state, DisputeState::Undisputed);
    assert_eq!(record.transaction.amount, Some(Amount::new(200, 2)));
    assert_eq!(engine.accounts.get(&1).unwrap().total, Amount::new(300, 2));
}

#[test]
fn apply_transaction_routes_by_kind() {
    let mut engine = Engine::new();
    assert_eq!(engine.apply_transaction(deposit(1, 1, 500, 2)), Outcome::Applied);
    assert_eq!(engine.apply_transaction(withdrawal(1, 2, 150, 2)), Outcome::Applied);
    assert_eq!(
        engine.apply_transaction(referring(TransactionType::Dispute, 1, 1)),
        Outcome::Applied
    );
    let account = engine.accounts.get(&1).unwrap();
    assert_eq!(account.total, Amount::new(350, 2));
    assert_eq!(account.held, Amount::new(500, 2));
    assert_eq!(
        engine.apply_transaction(referring(TransactionType::Resolve, 1, 1)),
        Outcome::Applied
    );
    assert_eq!(engine.accounts.get(&1).unwrap().held, Amount::zero());
    assert_eq!(
        engine.apply_transaction(referring(TransactionType::Dispute, 1, 2)),
        Outcome::Applied
    );
    assert_eq!(
        engine.apply_transaction(referring(TransactionType::Chargeback, 1, 2)),
        Outcome::Applied
    );
    let account = engine.accounts.get(&1).unwrap();
    assert_eq!(account.total, Amount::new(200, 2));
    assert_eq!(account.held, Amount::zero());
    assert!(account.is_locked);
}

#[test]
fn apply_transactions_reports_every_outcome_in_order() {
    let mut engine = Engine::new();
    let outcomes = engine.apply_transactions(&vec![
        deposit(1, 1, 100, 2),
        withdrawal(2, 2, 100, 2),
        withdrawal(1, 3, 500, 2),
        referring(TransactionType::Dispute, 1, 99),
        referring(TransactionType::Resolve, 1, 1),
        referring(TransactionType::Deposit, 1, 4),
        referring(TransactionType::Dispute, 1, 1),
        referring(TransactionType::Chargeback, 1, 1),
        deposit(1, 5, 100, 2),
    ]);
    assert_eq!(
        outcomes,
        vec![
            Outcome::Applied,
            Outcome::UnknownClient,
            Outcome::Rejected(AccountError::InsufficientFunds(1)),
            Outcome::UnknownTransaction,
            Outcome::InvalidTransition,
            Outcome::MissingAmount,
            Outcome::Applied,
            Outcome::Applied,
            Outcome::Rejected(AccountError::AccountLocked(1)),
        ]
    );
    assert_eq!(engine.accounts.len(), 1);
    assert_eq!(engine.transactions.len(), 1);
    let account = engine.accounts.get(&1).unwrap();
    assert_eq!(account.total, Amount::zero());
    assert!(account.is_locked);
}

#[test]
fn apply_transactions_on_nothing_changes_nothing() {
    let mut engine = setup_engine_with_deposit(1, 1, Amount::new(100, 2));
    let outcomes = engine.apply_transactions(&Vec::new());
    assert!(outcomes.is_empty());
    assert_eq!(engine.accounts.len(), 1);
    assert_eq!(engine.accounts.get(&1).unwrap().total, Amount::new(100, 2));
}

#[test]
fn process_transactions_applies_what_the_source_hands_over() {
    let mut engine = Engine::new();
    let mut source = Fixture {
        transactions: vec![
            deposit(7, 1, 1000, 3),
            referring(TransactionType::Dispute, 7, 1),
            withdrawal(7, 2, 1, 3),
        ],
    };
    let outcomes = engine.process_transactions(&mut source);
    assert_eq!(
        outcomes,
        vec![
            Outcome::Applied,
            Outcome::Applied,
            Outcome::Rejected(AccountError::InsufficientFunds(7)),
        ]
    );
    let account = engine.accounts.get(&7).unwrap();
    assert_eq!(account.total, Amount::new(1, 0));
    assert_eq!(account.held, Amount::new(1, 0));
}

#[test]
fn report_lists_every_account_by_rising_client() {
    let mut engine = Engine::new();
    engine.handle_deposit(65535, 1, Amount::new(100, 2));
    engine.handle_deposit(0, 2, Amount::new(200, 2));
    engine.handle_deposit(300, 3, Amount::new(300, 2));
    engine.handle_deposit(300, 4, Amount::new(50, 2));
    engine.handle_dispute(300, 4);
    engine.handle_dispute(0, 2);
    engine.handle_chargeback(0, 2);

    let rows = engine.report();
    assert_eq!(rows.len(), 3);

    assert_eq!(rows[0].client, 0);
    assert_eq!(rows[0].total, Amount::zero());
    assert_eq!(rows[0].held, Amount::zero());
    assert_eq!(rows[0].available, Some(Amount::zero()));
    assert!(rows[0].locked);

    assert_eq!(rows[1].client, 300);
    assert_eq!(rows[1].total, Amount::new(350, 2));
    assert_eq!(rows[1].held, Amount::new(50, 2));
    assert_eq!(rows[1].available, Some(Amount::new(300, 2)));
    assert!(!rows[1].locked);

    assert_eq!(rows[2].client, 65535);
    assert_eq!(rows[2].total, Amount::new(100, 2));
    assert_eq!(rows[2].held, Amount::zero());
    assert_eq!(rows[2].available, Some(Amount::new(100, 2)));
    assert!(!rows[2].locked);
}

#[test]
fn report_leaves_out_available_where_it_cannot_be_written() {
    let mut engine = setup_engine_with_deposit(1, 1, Amount::new(10, 0));
    engine.accounts.get_mut(&1).unwrap().held = Amount::new(1, 28);

    let rows = engine.report();
    assert_eq!(rows.len(), 1);
    assert_eq!(rows[0].available, None);
    assert_eq!(rows[0].total, Amount::new(10, 0));
    assert_eq!(rows[0].held, Amount::new(1, 28));
}

#[test]
fn csv_source_keeps_its_path() {
    let source = CsvTransactionSource::new("tests/sample.csv");
    assert_eq!(source.path, "tests/sample.csv");
    let source = CsvTransactionSource::new("");
    assert_eq!(source.path, "");
}

#[test]
fn accounts_and_records_stay_consistent() {
    let mut engine = Engine::new();
    engine.apply_transactions(&vec![
        deposit(1, 1, 1000, 2),
        deposit(2, 2, 2000, 2),
        withdrawal(1, 3, 250, 2),
        withdrawal(3, 4, 100, 2),
        referring(TransactionType::Dispute, 2, 1),
        referring(TransactionType::Dispute, 2, 2),
        referring(TransactionType::Chargeback, 2, 2),
        deposit(2, 5, 100, 2),
        referring(TransactionType::Resolve, 1, 1),
        withdrawal(1, 6, 5000, 2),
    ]);
    for (client, account) in &engine.accounts {
        assert_eq!(account.client_id, *client);
    }
    for (tx, record) in &engine.transactions {
        assert_eq!(record.transaction.tx, *tx);
        assert!(matches!(
            record.transaction.kind,
            TransactionType::Deposit | TransactionType::Withdrawal
        ));
        assert!(record.transaction.amount.is_some());
        assert!(engine.accounts.contains_key(&record.transaction.client));
    }
    assert_eq!(engine.accounts.len(), 2);
    assert_eq!(engine.transactions.len(), 3);
    assert_eq!(engine.accounts.get(&1).unwrap().total, Amount::new(750, 2));
    assert_eq!(engine.accounts.get(&2).unwrap().total, Amount::zero());
}

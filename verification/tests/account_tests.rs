use rust_toy_tx_engine::account::{Account, AccountError};
use rust_toy_tx_engine::amount::Amount;

#[test]
fn test_deposit() {
    let mut account = Account::new(1);
    let deposit_amount = Amount::new(100, 2);

    assert!(account.deposit(1, deposit_amount).is_ok());
    assert_eq!(account.get_available(), deposit_amount);
    assert_eq!(account.total, deposit_amount);
}

#[test]
fn test_withdrawal() {
    let mut account = Account::new(1);
    let deposit_amount = Amount::new(100, 2);
    let withdrawal_amount = Amount::new(50, 2);

    account.deposit(1, deposit_amount).unwrap();
    assert!(account.withdraw(2, withdrawal_amount).is_ok());
    assert_eq!(
        account.get_available(),
        deposit_amount.checked_sub(withdrawal_amount).unwrap()
    );
    assert_eq!(
        account.total,
        deposit_amount.checked_sub(withdrawal_amount).unwrap()
    );
}

#[test]
fn test_insufficient_funds() {
    let mut account = Account::new(1);
    let deposit_amount = Amount::new(100, 2);
    let withdrawal_amount = Amount::new(50, 2);

    account.deposit(1, deposit_amount).unwrap();
    let result = account.withdraw(3, deposit_amount.checked_add(withdrawal_amount).unwrap());
    assert!(result.is_err());
    assert_eq!(account.get_available(), deposit_amount);
    assert_eq!(account.total, deposit_amount);
}

#[test]
fn test_dispute() {
    let mut account = Account::new(1);
    let deposit_amount = Amount::new(100, 2);
    let dispute_amount1 = Amount::new(30, 2);
    let dispute_amount2 = Amount::new(80, 2);

    account.deposit(1, deposit_amount).unwrap();

    let result = account.dispute(dispute_amount1);
    assert!(result.is_ok());
    assert_eq!(account.held, dispute_amount1);
    assert_eq!(
        account.get_available(),
        deposit_amount.checked_sub(dispute_amount1).unwrap()
    );

    let result = account.dispute(dispute_amount2);
    assert!(result.is_ok());
    assert_eq!(account.held, dispute_amount1.checked_add(dispute_amount2).unwrap());
    assert_eq!(
        account.get_available(),
        deposit_amount
            .checked_sub(dispute_amount1)
            .unwrap()
            .checked_sub(dispute_amount2)
            .unwrap()
    );
    assert_eq!(account.total, deposit_amount);
    assert_eq!(account.get_available(), Amount::new(-10, 2));
    assert_eq!(account.is_locked, false);
}

#[test]
fn test_resolve() {
    let mut account = Account::new(1);
    let deposit_amount = Amount::new(100, 2);
    let dispute_amount = Amount::new(30, 2);

    account.deposit(1, deposit_amount).unwrap();
    account.dispute(dispute_amount).unwrap();

    let result = account.resolve(dispute_amount);
    assert!(result.is_ok());
    assert_eq!(account.held, Amount::zero());
    assert_eq!(account.get_available(), deposit_amount);
}

#[test]
fn test_chargeback() {
    let mut account = Account::new(1);
    let deposit_amount = Amount::new(100, 2);
    let dispute_amount = Amount::new(50, 2);

    account.total = deposit_amount;
    account.held = dispute_amount;

    assert!(account.chargeback(dispute_amount).is_ok());

    assert_eq!(
        account.total,
        deposit_amount.checked_sub(dispute_amount).unwrap()
    );
    assert_eq!(account.held, Amount::zero());
    assert!(account.is_locked);
}

#[test]
fn new_account_is_empty_and_unlocked() {
    let account = Account::new(7);
    assert_eq!(account.client_id, 7);
    assert_eq!(account.total, Amount::zero());
    assert_eq!(account.held, Amount::zero());
    assert_eq!(account.get_available(), Amount::zero());
    assert!(!account.is_locked);
}

#[test]
fn default_account_belongs_to_client_zero() {
    let account = Account::default();
    assert_eq!(account.client_id, 0);
    assert_eq!(account.total, Amount::zero());
    assert_eq!(account.held, Amount::zero());
    assert!(!account.is_locked);
}

#[test]
fn deposit_on_locked_account_is_refused() {
    let mut account = Account::new(4);
    account.total = Amount::new(300, 2);
    account.is_locked = true;

    let result = account.deposit(9, Amount::new(100, 2));
    assert_eq!(result, Err(AccountError::AccountLocked(4)));
    assert_eq!(account.total, Amount::new(300, 2));
    assert!(account.is_locked);
}

#[test]
fn withdrawal_on_locked_account_is_refused() {
    let mut account = Account::new(4);
    account.total = Amount::new(300, 2);
    account.is_locked = true;

    let result = account.withdraw(9, Amount::new(100, 2));
    assert_eq!(result, Err(AccountError::AccountLocked(4)));
    assert_eq!(account.total, Amount::new(300, 2));
    assert!(account.is_locked);
}

#[test]
fn withdrawal_beyond_available_reports_insufficient_funds() {
    let mut account = Account::new(5);
    account.deposit(1, Amount::new(100, 2)).unwrap();

    let result = account.withdraw(2, Amount::new(101, 2));
    assert_eq!(result, Err(AccountError::InsufficientFunds(5)));
    assert_eq!(account.total, Amount::new(100, 2));
}

#[test]
fn withdrawal_of_everything_available_succeeds() {
    let mut account = Account::new(5);
    account.deposit(1, Amount::new(100, 2)).unwrap();

    assert_eq!(account.withdraw(2, Amount::new(100, 2)), Ok(()));
    assert_eq!(account.total, Amount::zero());
    assert_eq!(account.get_available(), Amount::zero());
}

#[test]
fn held_funds_cannot_be_withdrawn() {
    let mut account = Account::new(5);
    account.deposit(1, Amount::new(100, 2)).unwrap();
    account.dispute(Amount::new(60, 2)).unwrap();

    // 1.00 in total, 0.60 held: 0.40 available
    assert_eq!(
        account.withdraw(2, Amount::new(50, 2)),
        Err(AccountError::InsufficientFunds(5))
    );
    assert_eq!(account.withdraw(3, Amount::new(40, 2)), Ok(()));
    assert_eq!(account.total, Amount::new(60, 2));
    assert_eq!(account.held, Amount::new(60, 2));
    assert_eq!(account.get_available(), Amount::zero());
}

#[test]
fn resolve_beyond_held_drives_held_negative() {
    let mut account = Account::new(5);
    account.deposit(1, Amount::new(100, 2)).unwrap();

    assert!(account.resolve(Amount::new(30, 2)).is_ok());
    assert_eq!(account.held, Amount::new(-30, 2));
    assert_eq!(account.get_available(), Amount::new(130, 2));
    assert_eq!(account.total, Amount::new(100, 2));
}

#[test]
fn chargeback_beyond_total_drives_total_negative() {
    let mut account = Account::new(5);
    account.deposit(1, Amount::new(100, 2)).unwrap();

    assert!(account.chargeback(Amount::new(250, 2)).is_ok());
    assert_eq!(account.total, Amount::new(-150, 2));
    assert_eq!(account.held, Amount::new(-250, 2));
    assert_eq!(account.get_available(), Amount::new(100, 2));
    assert!(account.is_locked);
}

#[test]
fn total_is_available_plus_held_after_every_operation() {
    let mut account = Account::new(8);
    let check = |account: &Account| {
        let sum = account.get_available().checked_add(account.held).unwrap();
        assert_eq!(sum, account.total);
    };
    check(&account);
    account.deposit(1, Amount::new(12345, 3)).unwrap();
    check(&account);
    account.withdraw(2, Amount::new(45, 1)).unwrap();
    check(&account);
    account.dispute(Amount::new(2, 0)).unwrap();
    check(&account);
    account.resolve(Amount::new(2, 0)).unwrap();
    check(&account);
    account.dispute(Amount::new(7845, 3)).unwrap();
    check(&account);
    account.chargeback(Amount::new(7845, 3)).unwrap();
    check(&account);
    assert_eq!(account.total, Amount::zero());
}

#[test]
fn lock_survives_every_operation() {
    let mut account = Account::new(8);
    account.deposit(1, Amount::new(500, 2)).unwrap();
    account.dispute(Amount::new(100, 2)).unwrap();
    account.chargeback(Amount::new(100, 2)).unwrap();
    assert!(account.is_locked);

    assert!(account.deposit(2, Amount::new(100, 2)).is_err());
    assert!(account.is_locked);
    assert!(account.withdraw(3, Amount::new(100, 2)).is_err());
    assert!(account.is_locked);
    account.dispute(Amount::new(100, 2)).unwrap();
    assert!(account.is_locked);
    account.resolve(Amount::new(100, 2)).unwrap();
    assert!(account.is_locked);
    account.chargeback(Amount::new(100, 2)).unwrap();
    assert!(account.is_locked);
}

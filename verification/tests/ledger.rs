use occ_transfer::engine::{Request, TransferError};
use occ_transfer::ledger::Ledger;
use occ_transfer::money::{Money, MAX_UNITS};
use occ_transfer::transfer::{execute_transfer, transfer};

fn money(units: i128, scale: u32) -> Money {
    Money::new(units, scale).unwrap()
}

fn ledger(accounts: &[(i32, i128)]) -> Ledger {
    let mut ledger = Ledger::new();
    for (id, cents) in accounts {
        assert!(ledger.open_account(*id, money(*cents, 2)));
    }
    ledger
}

fn cents(ledger: &Ledger, account: i32) -> i128 {
    let balance = ledger.balance(account).unwrap();
    assert_eq!(balance.scale(), 2);
    balance.units()
}

fn pay(payer_id: i32, payee_id: i32, amount: i128) -> Request {
    Request { payer_id, payee_id, amount: money(amount, 2) }
}

#[test]
fn an_account_is_opened_once() {
    let mut ledger = Ledger::new();
    assert!(ledger.balance(1).is_none());
    assert!(ledger.open_account(1, money(10000, 2)));
    assert!(!ledger.open_account(1, money(5, 2)));
    assert_eq!(cents(&ledger, 1), 10000);
    assert_eq!(ledger.pending_conflicts(), 0);
}

#[test]
fn a_transaction_shows_nothing_until_it_is_committed() {
    let mut ledger = ledger(&[(1, 10000), (2, 5000)]);
    let mut transaction = ledger.begin();
    let left = transaction.debit(1, money(3000, 2)).unwrap();
    assert_eq!(left.units(), 7000);
    assert_eq!(transaction.credit(2, money(3000, 2)).unwrap(), 1);
    assert_eq!(transaction.balance(1).unwrap().units(), 7000);
    assert_eq!(transaction.balance(2).unwrap().units(), 8000);
    assert_eq!(cents(&ledger, 1), 10000);
    assert_eq!(cents(&ledger, 2), 5000);
    assert!(ledger.commit(transaction).is_ok());
    assert_eq!(cents(&ledger, 1), 7000);
    assert_eq!(cents(&ledger, 2), 8000);
}

#[test]
fn an_abandoned_transaction_leaves_no_trace() {
    let ledger = ledger(&[(1, 10000)]);
    {
        let mut transaction = ledger.begin();
        transaction.debit(1, money(3000, 2)).unwrap();
    }
    assert_eq!(cents(&ledger, 1), 10000);
}

#[test]
fn a_debit_may_leave_a_negative_balance() {
    let ledger = ledger(&[(1, 100)]);
    let mut transaction = ledger.begin();
    let left = transaction.debit(1, money(250, 2)).unwrap();
    assert_eq!(left.units(), -150);
    assert!(left.is_negative());
}

#[test]
fn a_debit_of_a_missing_account_fails() {
    let ledger = ledger(&[(1, 100)]);
    let mut transaction = ledger.begin();
    let failure = transaction.debit(9, money(1, 2)).unwrap_err();
    assert_eq!(failure.sql_state, None);
    assert_eq!(failure.message, "query returned an unexpected number of rows");
}

#[test]
fn a_credit_of_a_missing_account_touches_no_row() {
    let ledger = ledger(&[(1, 100)]);
    let mut transaction = ledger.begin();
    assert_eq!(transaction.credit(9, money(1, 2)).unwrap(), 0);
    assert!(transaction.balance(9).is_none());
}

#[test]
fn an_update_that_overflows_fails_and_changes_nothing() {
    let mut ledger = Ledger::new();
    ledger.open_account(1, money(MAX_UNITS, 0));
    ledger.open_account(2, money(-MAX_UNITS, 0));
    let mut transaction = ledger.begin();
    let failure = transaction.credit(1, money(1, 0)).unwrap_err();
    assert_eq!(failure.sql_state.as_deref(), Some("22003"));
    assert_eq!(failure.message, "value overflows numeric format");
    let failure = transaction.debit(2, money(1, 0)).unwrap_err();
    assert_eq!(failure.sql_state.as_deref(), Some("22003"));
    assert_eq!(transaction.balance(1).unwrap().units(), MAX_UNITS);
    assert_eq!(transaction.balance(2).unwrap().units(), -MAX_UNITS);
}

#[test]
fn injected_conflicts_fail_commits_one_by_one() {
    let mut ledger = ledger(&[(1, 10000)]);
    ledger.inject_conflicts(2);
    for left in [1usize, 0] {
        let mut transaction = ledger.begin();
        transaction.debit(1, money(100, 2)).unwrap();
        let failure = ledger.commit(transaction).unwrap_err();
        assert_eq!(failure.sql_state.as_deref(), Some("40001"));
        assert_eq!(failure.message, "could not serialize access due to concurrent update");
        assert_eq!(ledger.pending_conflicts(), left);
        assert_eq!(cents(&ledger, 1), 10000);
    }
    let mut transaction = ledger.begin();
    transaction.debit(1, money(100, 2)).unwrap();
    assert!(ledger.commit(transaction).is_ok());
    assert_eq!(cents(&ledger, 1), 9900);
}

#[test]
fn the_executor_debits_then_credits_without_committing() {
    let ledger = ledger(&[(1, 10000), (2, 5000)]);
    let mut transaction = ledger.begin();
    let balance = execute_transfer(&mut transaction, 1, 2, money(3000, 2)).unwrap();
    assert_eq!(balance.units(), 7000);
    assert_eq!(transaction.balance(1).unwrap().units(), 7000);
    assert_eq!(transaction.balance(2).unwrap().units(), 8000);
    assert_eq!(cents(&ledger, 1), 10000);
    assert_eq!(cents(&ledger, 2), 5000);
}

#[test]
fn the_executor_reports_business_failures() {
    let ledger = ledger(&[(1, 10000), (2, 5000)]);

    let mut transaction = ledger.begin();
    match execute_transfer(&mut transaction, 1, 2, money(10001, 2)) {
        Err(TransferError::InsufficientFunds { balance }) => assert_eq!(balance.units(), -1),
        other => panic!("expected insufficient funds, got {:?}", other),
    }
    assert_eq!(transaction.balance(2).unwrap().units(), 5000);

    let mut transaction = ledger.begin();
    assert!(matches!(
        execute_transfer(&mut transaction, 1, 9, money(1, 2)),
        Err(TransferError::PayeeNotFound)
    ));

    let mut transaction = ledger.begin();
    match execute_transfer(&mut transaction, 9, 1, money(1, 2)) {
        Err(TransferError::Fatal(failure)) => {
            assert_eq!(failure.message, "query returned an unexpected number of rows")
        }
        other => panic!("expected a fatal error, got {:?}", other),
    }
}

#[test]
fn the_executor_spends_a_balance_down_to_zero() {
    let ledger = ledger(&[(1, 10000), (2, 5000)]);
    let mut transaction = ledger.begin();
    let balance = execute_transfer(&mut transaction, 1, 2, money(10000, 2)).unwrap();
    assert_eq!(balance.units(), 0);
    assert!(!balance.is_negative());
}

#[test]
fn funds_are_conserved() {
    let mut ledger = ledger(&[(1, 10000), (2, 5000), (3, 42)]);
    for (payer, payee, amount) in [(1, 2, 3000), (2, 1, 1), (1, 3, 6999), (3, 2, 7041)] {
        let before = cents(&ledger, payer) + cents(&ledger, payee);
        let total = cents(&ledger, 1) + cents(&ledger, 2) + cents(&ledger, 3);
        let report = transfer(&mut ledger, pay(payer, payee, amount));
        assert!(report.outcome.is_ok());
        assert_eq!(cents(&ledger, payer) + cents(&ledger, payee), before);
        assert_eq!(cents(&ledger, 1) + cents(&ledger, 2) + cents(&ledger, 3), total);
    }
    assert_eq!((cents(&ledger, 1), cents(&ledger, 2), cents(&ledger, 3)), (2, 15040, 0));
}

#[test]
fn funds_are_conserved_across_scales() {
    let mut ledger = Ledger::new();
    ledger.open_account(1, money(100, 0));
    ledger.open_account(2, money(5, 1));
    let report = transfer(&mut ledger, Request { payer_id: 1, payee_id: 2, amount: money(125, 3) });
    let balance = report.outcome.unwrap();
    assert_eq!((balance.units(), balance.scale()), (99875, 3));
    let payee = ledger.balance(2).unwrap();
    assert_eq!((payee.units(), payee.scale()), (625, 3));
}

#[test]
fn a_committed_balance_is_never_negative() {
    let mut ledger = ledger(&[(1, 100), (2, 0)]);
    for amount in [60, 60, 40, 1, 0] {
        let report = transfer(&mut ledger, pay(1, 2, amount));
        match report.outcome {
            Ok(balance) => {
                assert!(!balance.is_negative());
                assert_eq!(balance.units(), cents(&ledger, 1));
            }
            Err(TransferError::InsufficientFunds { balance }) => assert!(balance.is_negative()),
            Err(other) => panic!("unexpected error {:?}", other),
        }
        assert!(cents(&ledger, 1) >= 0);
        assert_eq!(cents(&ledger, 1) + cents(&ledger, 2), 100);
    }
    assert_eq!((cents(&ledger, 1), cents(&ledger, 2)), (0, 100));
}

#[test]
fn insufficient_funds_change_nothing() {
    let mut ledger = ledger(&[(1, 7000), (2, 8000)]);
    ledger.inject_conflicts(3);
    let report = transfer(&mut ledger, pay(2, 1, 20000));
    assert!(matches!(report.outcome, Err(TransferError::InsufficientFunds { .. })));
    assert_eq!(report.attempts, 1);
    assert_eq!((cents(&ledger, 1), cents(&ledger, 2)), (7000, 8000));
    assert_eq!(ledger.pending_conflicts(), 3);
}

#[test]
fn same_account_is_rejected_with_no_attempt() {
    let mut ledger = ledger(&[(1, 10000)]);
    ledger.inject_conflicts(2);
    let report = transfer(&mut ledger, pay(1, 1, 100));
    assert!(matches!(report.outcome, Err(TransferError::InvalidRequest)));
    assert_eq!(report.attempts, 0);
    assert_eq!(cents(&ledger, 1), 10000);
    assert_eq!(ledger.pending_conflicts(), 2);

    let report = transfer(&mut ledger, pay(9, 9, 100));
    assert!(matches!(report.outcome, Err(TransferError::InvalidRequest)));
    assert_eq!(report.attempts, 0);
}

#[test]
fn conflicts_only_raise_the_attempt_count() {
    let mut quiet = ledger(&[(1, 10000), (2, 5000)]);
    let expected = transfer(&mut quiet, pay(1, 2, 3000));
    assert_eq!(expected.attempts, 1);

    for conflicts in [0usize, 1, 2, 7, 100] {
        let mut contended = ledger(&[(1, 10000), (2, 5000)]);
        contended.inject_conflicts(conflicts);
        let report = transfer(&mut contended, pay(1, 2, 3000));
        assert_eq!(report.attempts, conflicts + 1);
        assert_eq!(report.outcome.unwrap().units(), expected.outcome.as_ref().unwrap().units());
        assert_eq!(cents(&contended, 1), cents(&quiet, 1));
        assert_eq!(cents(&contended, 2), cents(&quiet, 2));
        assert_eq!(contended.pending_conflicts(), 0);
    }
}

#[test]
fn a_missing_payee_leaves_the_payer_untouched() {
    let mut ledger = ledger(&[(1, 10000)]);
    let report = transfer(&mut ledger, pay(1, 9, 3000));
    assert!(matches!(report.outcome, Err(TransferError::PayeeNotFound)));
    assert_eq!(report.attempts, 1);
    assert_eq!(cents(&ledger, 1), 10000);
    assert!(ledger.balance(9).is_none());
}

#[test]
fn a_missing_payer_is_a_fatal_error() {
    let mut ledger = ledger(&[(2, 5000)]);
    let report = transfer(&mut ledger, pay(1, 2, 3000));
    match report.outcome {
        Err(TransferError::Fatal(failure)) => {
            assert_eq!(failure.message, "query returned an unexpected number of rows")
        }
        other => panic!("expected a fatal error, got {:?}", other),
    }
    assert_eq!(report.attempts, 1);
    assert_eq!(cents(&ledger, 2), 5000);
}

#[test]
fn insufficient_funds_come_before_a_missing_payee() {
    let mut ledger = ledger(&[(1, 100)]);
    let report = transfer(&mut ledger, pay(1, 9, 101));
    assert!(matches!(report.outcome, Err(TransferError::InsufficientFunds { .. })));
}

#[test]
fn an_overflowing_credit_is_fatal_and_changes_nothing() {
    let mut ledger = Ledger::new();
    ledger.open_account(1, money(10, 0));
    ledger.open_account(2, money(MAX_UNITS, 0));
    let report = transfer(&mut ledger, Request { payer_id: 1, payee_id: 2, amount: money(1, 0) });
    match report.outcome {
        Err(TransferError::Fatal(failure)) => {
            assert_eq!(failure.sql_state.as_deref(), Some("22003"))
        }
        other => panic!("expected a fatal error, got {:?}", other),
    }
    assert_eq!(ledger.balance(1).unwrap().units(), 10);
    assert_eq!(ledger.balance(2).unwrap().units(), MAX_UNITS);
}

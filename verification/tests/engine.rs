use occ_transfer::conflict::Failure;
use occ_transfer::engine::{Action, Controller, Event, Phase, Request, TransferError};
use occ_transfer::money::Money;

fn money(units: i128, scale: u32) -> Money {
    Money::new(units, scale).unwrap()
}

fn request() -> Request {
    Request { payer_id: 1, payee_id: 2, amount: money(3000, 2) }
}

fn failure(sql_state: Option<&str>, message: &str) -> Failure {
    Failure { sql_state: sql_state.map(|code| code.to_string()), message: message.to_string() }
}

fn conflict() -> Event {
    Event::Failed(failure(Some("40001"), "could not serialize access"))
}

/// A controller that has begun its first attempt and awaits the commit.
fn at_commit() -> Controller {
    let mut controller = Controller::new(request());
    assert!(matches!(controller.start(), Action::Begin));
    assert!(matches!(controller.step(Event::Begun), Action::Debit { .. }));
    assert!(matches!(
        controller.step(Event::Debited { balance: money(7000, 2) }),
        Action::Credit { .. }
    ));
    assert!(matches!(controller.step(Event::Credited { rows: 1 }), Action::Commit));
    controller
}

#[test]
fn a_new_controller_has_made_no_attempt() {
    let controller = Controller::new(request());
    assert_eq!(controller.attempts(), 0);
    assert!(matches!(controller.phase(), Phase::Start));
    assert!(!controller.is_finished());
    assert_eq!(controller.request().payer_id, 1);
    assert_eq!(controller.request().payee_id, 2);
}

#[test]
fn same_account_is_rejected_before_any_attempt() {
    let mut controller =
        Controller::new(Request { payer_id: 7, payee_id: 7, amount: money(1, 0) });
    let action = controller.start();
    assert!(matches!(action, Action::Fail(TransferError::InvalidRequest)));
    assert_eq!(controller.attempts(), 0);
    assert!(matches!(controller.phase(), Phase::Aborted));
    assert!(controller.is_finished());
}

#[test]
fn one_attempt_runs_begin_debit_credit_commit() {
    let mut controller = Controller::new(request());
    assert!(matches!(controller.start(), Action::Begin));
    assert_eq!(controller.attempts(), 1);
    assert!(matches!(controller.phase(), Phase::Beginning));

    match controller.step(Event::Begun) {
        Action::Debit { account, amount } => {
            assert_eq!(account, 1);
            assert_eq!((amount.units(), amount.scale()), (3000, 2));
        }
        other => panic!("expected a debit, got {:?}", other),
    }
    assert!(matches!(controller.phase(), Phase::Debiting));

    match controller.step(Event::Debited { balance: money(7000, 2) }) {
        Action::Credit { account, amount } => {
            assert_eq!(account, 2);
            assert_eq!((amount.units(), amount.scale()), (3000, 2));
        }
        other => panic!("expected a credit, got {:?}", other),
    }
    assert!(matches!(controller.phase(), Phase::Crediting { .. }));

    assert!(matches!(controller.step(Event::Credited { rows: 1 }), Action::Commit));
    assert!(matches!(controller.phase(), Phase::Committing { .. }));

    match controller.step(Event::Committed) {
        Action::Succeed { payer_balance, attempts } => {
            assert_eq!((payer_balance.units(), payer_balance.scale()), (7000, 2));
            assert_eq!(attempts, 1);
        }
        other => panic!("expected success, got {:?}", other),
    }
    assert!(matches!(controller.phase(), Phase::Done));
    assert!(controller.is_finished());
}

#[test]
fn a_balance_of_zero_is_enough() {
    let mut controller = Controller::new(request());
    controller.start();
    controller.step(Event::Begun);
    assert!(matches!(
        controller.step(Event::Debited { balance: money(0, 2) }),
        Action::Credit { .. }
    ));
}

#[test]
fn a_negative_balance_ends_the_attempt_before_the_credit() {
    let mut controller = Controller::new(request());
    controller.start();
    controller.step(Event::Begun);
    match controller.step(Event::Debited { balance: money(-1, 2) }) {
        Action::Fail(TransferError::InsufficientFunds { balance }) => {
            assert_eq!((balance.units(), balance.scale()), (-1, 2));
        }
        other => panic!("expected insufficient funds, got {:?}", other),
    }
    assert!(matches!(controller.phase(), Phase::Aborted));
    assert_eq!(controller.attempts(), 1);
}

#[test]
fn a_credit_that_touches_no_row_ends_the_attempt() {
    for rows in [0u64, 2, u64::MAX] {
        let mut controller = Controller::new(request());
        controller.start();
        controller.step(Event::Begun);
        controller.step(Event::Debited { balance: money(7000, 2) });
        assert!(matches!(
            controller.step(Event::Credited { rows }),
            Action::Fail(TransferError::PayeeNotFound)
        ));
        assert!(matches!(controller.phase(), Phase::Aborted));
    }
}

#[test]
fn a_conflict_at_commit_starts_another_attempt() {
    let mut controller = at_commit();
    assert!(matches!(controller.step(conflict()), Action::Begin));
    assert_eq!(controller.attempts(), 2);
    assert!(matches!(controller.phase(), Phase::Beginning));
    assert!(matches!(controller.step(Event::Begun), Action::Debit { account: 1, .. }));
}

#[test]
fn conflicts_are_retried_without_bound() {
    let mut controller = at_commit();
    for round in 0..50usize {
        assert!(matches!(controller.step(conflict()), Action::Begin));
        assert_eq!(controller.attempts(), round + 2);
        controller.step(Event::Begun);
        controller.step(Event::Debited { balance: money(7000, 2) });
        assert!(matches!(controller.step(Event::Credited { rows: 1 }), Action::Commit));
    }
    assert!(matches!(
        controller.step(Event::Committed),
        Action::Succeed { attempts: 51, .. }
    ));
}

#[test]
fn another_failure_at_commit_is_fatal_and_passed_on() {
    let mut controller = at_commit();
    match controller.step(Event::Failed(failure(Some("23514"), "check constraint violated"))) {
        Action::Fail(TransferError::Fatal(passed)) => {
            assert_eq!(passed.sql_state.as_deref(), Some("23514"));
            assert_eq!(passed.message, "check constraint violated");
        }
        other => panic!("expected a fatal error, got {:?}", other),
    }
    assert!(matches!(controller.phase(), Phase::Aborted));
    assert_eq!(controller.attempts(), 1);

    let mut controller = at_commit();
    assert!(matches!(
        controller.step(Event::Failed(failure(None, "connection closed"))),
        Action::Fail(TransferError::Fatal(_))
    ));
}

#[test]
fn a_conflict_before_the_commit_is_not_retried() {
    let mut controller = Controller::new(request());
    controller.start();
    assert!(matches!(controller.step(conflict()), Action::Fail(TransferError::Fatal(_))));

    let mut controller = Controller::new(request());
    controller.start();
    controller.step(Event::Begun);
    assert!(matches!(controller.step(conflict()), Action::Fail(TransferError::Fatal(_))));

    let mut controller = Controller::new(request());
    controller.start();
    controller.step(Event::Begun);
    controller.step(Event::Debited { balance: money(7000, 2) });
    match controller.step(conflict()) {
        Action::Fail(TransferError::Fatal(passed)) => {
            assert_eq!(passed.sql_state.as_deref(), Some("40001"));
        }
        other => panic!("expected a fatal error, got {:?}", other),
    }
    assert_eq!(controller.attempts(), 1);
}

#[test]
fn only_the_answer_to_the_pending_operation_is_accepted() {
    let mut controller = Controller::new(request());
    assert!(!controller.accepts(&Event::Begun));
    controller.start();
    assert!(controller.accepts(&Event::Begun));
    assert!(controller.accepts(&conflict()));
    assert!(!controller.accepts(&Event::Committed));
    assert!(!controller.accepts(&Event::Debited { balance: money(1, 0) }));
    controller.step(Event::Begun);
    assert!(controller.accepts(&Event::Debited { balance: money(1, 0) }));
    assert!(!controller.accepts(&Event::Begun));
    assert!(!controller.accepts(&Event::Credited { rows: 1 }));
    controller.step(Event::Debited { balance: money(1, 0) });
    assert!(controller.accepts(&Event::Credited { rows: 1 }));
    assert!(!controller.accepts(&Event::Committed));
    controller.step(Event::Credited { rows: 1 });
    assert!(controller.accepts(&Event::Committed));
    assert!(controller.accepts(&conflict()));
    controller.step(Event::Committed);
    assert!(!controller.accepts(&Event::Committed));
    assert!(!controller.accepts(&conflict()));
}

#[test]
fn errors_carry_the_messages_that_callers_look_for() {
    assert_eq!(
        TransferError::InvalidRequest.message(),
        "Payer and payee must be different accounts"
    );
    assert_eq!(
        TransferError::InsufficientFunds { balance: money(-1, 2) }.message(),
        "Insufficient balance"
    );
    assert_eq!(TransferError::PayeeNotFound.message(), "Payee account not found");
    assert_eq!(
        TransferError::Fatal(failure(Some("08006"), "connection failure")).message(),
        "connection failure"
    );
}

//! Transfers against the in-memory ledger: the executor of one attempt, and
//! the whole transfer as the controller drives it.

use vstd::prelude::*;
use crate::engine::{
    Action, Controller, Event, Phase, Request, TransferError, TransferErrorView,
};
use crate::ledger::{no_such_row, out_of_range, Ledger, LedgerView, Transaction};
use crate::money::Money;

verus! {

/// What one attempt comes to on the balances that its transaction sees: the
/// balances that it would commit together with the payer's new balance, or
/// the reason why it ends without a commit.
///
/// The payer is debited first. The attempt ends there if the payer is
/// missing, if the new balance cannot be held, or if it is below zero. Then
/// the payee is credited; the attempt ends there if the payee is missing or
/// the new balance cannot be held.
pub open spec fn attempt(balances: Map<i32, Money>, request: Request) -> Result<
    (Map<i32, Money>, Money),
    TransferErrorView,
> {
    let payer = request.payer_id;
    let payee = request.payee_id;
    if !balances.contains_key(payer) {
        Err(TransferErrorView::Fatal(no_such_row()))
    } else if !balances[payer].can_sub(request.amount) {
        Err(TransferErrorView::Fatal(out_of_range()))
    } else {
        let left = balances[payer].spec_sub(request.amount);
        let debited = balances.insert(payer, left);
        if left.value() < 0 {
            Err(TransferErrorView::InsufficientFunds { balance: left })
        } else if !debited.contains_key(payee) {
            Err(TransferErrorView::PayeeNotFound)
        } else if !debited[payee].can_add(request.amount) {
            Err(TransferErrorView::Fatal(out_of_range()))
        } else {
            Ok((debited.insert(payee, debited[payee].spec_add(request.amount)), left))
        }
    }
}

/// How a transfer ended, and after how many attempts.
#[derive(Debug)]
pub struct Report {
    /// The payer's balance as committed, or why nothing was committed.
    pub outcome: Result<Money, TransferError>,
    /// The number of attempts begun.
    pub attempts: usize,
}

/// The mathematical content of a [`Report`].
pub struct ReportView {
    pub outcome: Result<Money, TransferErrorView>,
    pub attempts: nat,
}

impl View for Report {
    type V = ReportView;

    open spec fn view(&self) -> ReportView {
        ReportView {
            outcome: match self.outcome {
                Ok(balance) => Ok(balance),
                Err(error) => Err(error@),
            },
            attempts: self.attempts as nat,
        }
    }
}

/// What a transfer comes to on a ledger: the ledger afterwards and the report.
///
/// A request whose payer is its payee is rejected with no attempt made. Any
/// other is attempted. An attempt that ends without a commit ends the
/// transfer at once, on the first attempt, and leaves the ledger as it was,
/// its pending conflicts included. An attempt that reaches its commit is
/// repeated until no conflict is pending, so it takes one attempt more than
/// there were conflicts pending, and its balances become the ledger's.
pub open spec fn settle(before: LedgerView, request: Request) -> (LedgerView, ReportView) {
    if request.payer_id == request.payee_id {
        (before, ReportView { outcome: Err(TransferErrorView::InvalidRequest), attempts: 0 })
    } else {
        match attempt(before.balances, request) {
            Err(error) => (before, ReportView { outcome: Err(error), attempts: 1 }),
            Ok((balances, payer_balance)) => (
                LedgerView { balances, pending_conflicts: 0 },
                ReportView {
                    outcome: Ok(payer_balance),
                    attempts: before.pending_conflicts + 1,
                },
            ),
        }
    }
}

/// Runs one attempt inside `transaction`: debits the payer, then credits the
/// payee, and returns the payer's new balance. It does not commit.
///
/// On an error the transaction is to be abandoned: it may hold the debit.
pub fn execute_transfer(
    transaction: &mut Transaction,
    payer_id: i32,
    payee_id: i32,
    amount: Money,
) -> (result: Result<Money, TransferError>)
    requires
        old(transaction).wf(),
    ensures
        final(transaction).wf(),
        match attempt(old(transaction)@, Request { payer_id, payee_id, amount }) {
            Ok((balances, payer_balance)) => result == Ok::<Money, TransferError>(payer_balance)
                && final(transaction)@ == balances,
            Err(error) => result matches Err(e) && e@ == error,
        },
{
    let payer_balance = match transaction.debit(payer_id, amount) {
        Ok(balance) => balance,
        Err(failure) => {
            return Err(TransferError::Fatal(failure));
        },
    };
    if payer_balance.is_negative() {
        return Err(TransferError::InsufficientFunds { balance: payer_balance });
    }
    let rows_updated = match transaction.credit(payee_id, amount) {
        Ok(rows) => rows,
        Err(failure) => {
            return Err(TransferError::Fatal(failure));
        },
    };
    if rows_updated != 1 {
        return Err(TransferError::PayeeNotFound);
    }
    Ok(payer_balance)
}

/// The operations that an attempt still has before it, its commit included.
spec fn operations_left(action: Action) -> nat {
    match action {
        Action::Debit { .. } => 3,
        Action::Credit { .. } => 2,
        Action::Commit => 1,
        _ => 0,
    }
}

/// How far an attempt on `balances` has come when the controller, in
/// `phase`, asks for `action` and the transaction sees `working`.
spec fn on_course(
    balances: Map<i32, Money>,
    request: Request,
    phase: Phase,
    action: Action,
    working: Map<i32, Money>,
) -> bool {
    let payer = request.payer_id;
    match action {
        Action::Debit { account, amount } => {
            &&& phase is Debiting
            &&& account == payer
            &&& amount == request.amount
            &&& working == balances
        },
        Action::Credit { account, amount } => {
            &&& balances.contains_key(payer)
            &&& balances[payer].can_sub(request.amount)
            &&& balances[payer].spec_sub(request.amount).value() >= 0
            &&& phase == Phase::Crediting {
                payer_balance: balances[payer].spec_sub(request.amount),
            }
            &&& account == request.payee_id
            &&& amount == request.amount
            &&& working == balances.insert(payer, balances[payer].spec_sub(request.amount))
        },
        Action::Commit => {
            &&& attempt(balances, request) matches Ok((committed, left))
            &&& phase == Phase::Committing { payer_balance: left }
            &&& working == committed
        },
        Action::Fail(error) => {
            &&& attempt(balances, request) matches Err(e)
            &&& e == error@
        },
        _ => false,
    }
}

/// Carries out `request` on `ledger`: the controller says what comes next,
/// and each operation is performed on the ledger as it asks.
pub fn transfer(ledger: &mut Ledger, request: Request) -> (report: Report)
    requires
        old(ledger).wf(),
        old(ledger)@.pending_conflicts < usize::MAX,
    ensures
        final(ledger).wf(),
        (final(ledger)@, report@) == settle(old(ledger)@, request),
{
    let ghost before = ledger@;
    let mut controller = Controller::new(request);
    match controller.start() {
        Action::Begin => {},
        Action::Fail(error) => {
            return Report { outcome: Err(error), attempts: controller.attempts() };
        },
        _ => {
            return vstd::pervasive::unreached();
        },
    }
    let mut transaction = ledger.begin();
    let mut action = controller.step(Event::Begun);
    loop
        invariant
            before == old(ledger)@,
            ledger.wf(),
            transaction.wf(),
            request.payer_id != request.payee_id,
            controller@.request == request,
            ledger@.balances == before.balances,
            before.pending_conflicts < usize::MAX,
            controller@.attempts + ledger@.pending_conflicts == before.pending_conflicts + 1,
            controller@.attempts >= 1,
            controller@.attempts > 1 ==> attempt(before.balances, request) is Ok,
            on_course(before.balances, request, controller@.phase, action, transaction@),
        decreases ledger@.pending_conflicts * 4 + operations_left(action),
    {
        match action {
            Action::Debit { account, amount } => {
                let event = match transaction.debit(account, amount) {
                    Ok(balance) => Event::Debited { balance },
                    Err(failure) => Event::Failed(failure),
                };
                action = controller.step(event);
            },
            Action::Credit { account, amount } => {
                let event = match transaction.credit(account, amount) {
                    Ok(rows) => Event::Credited { rows },
                    Err(failure) => Event::Failed(failure),
                };
                action = controller.step(event);
            },
            Action::Commit => {
                let event = match ledger.commit(transaction) {
                    Ok(()) => Event::Committed,
                    Err(failure) => Event::Failed(failure),
                };
                match controller.step(event) {
                    Action::Begin => {
                        transaction = ledger.begin();
                        action = controller.step(Event::Begun);
                    },
                    Action::Succeed { payer_balance, attempts } => {
                        return Report { outcome: Ok(payer_balance), attempts };
                    },
                    _ => {
                        return vstd::pervasive::unreached();
                    },
                }
            },
            Action::Fail(error) => {
                return Report { outcome: Err(error), attempts: controller.attempts() };
            },
            _ => {
                return vstd::pervasive::unreached();
            },
        }
    }
}

} // verus!

//! What holds of every transfer, stated over [`settle`], which
//! [`crate::transfer::transfer`] is proved to compute.

use vstd::prelude::*;
use crate::engine::{abort, first_move, initial, Request, TransferError, TransferErrorView};
use crate::ledger::{balances_wf, LedgerView};
use crate::money::{lemma_difference, lemma_sum, Money};
use crate::transfer::settle;

verus! {

/// Conservation. A transfer that succeeds leaves the payer's and the payee's
/// balances with the same sum as before, the payer's lower by the amount and
/// the payee's higher by it, and touches no other account.
pub proof fn lemma_conservation(before: LedgerView, request: Request)
    requires
        balances_wf(before.balances),
        request.amount.wf(),
        settle(before, request).1.outcome is Ok,
    ensures
        ({
            let after = settle(before, request).0.balances;
            let payer = request.payer_id;
            let payee = request.payee_id;
            &&& before.balances.contains_key(payer) && before.balances.contains_key(payee)
            &&& after.dom() == before.balances.dom()
            &&& after[payer].value() == before.balances[payer].value() - request.amount.value()
            &&& after[payee].value() == before.balances[payee].value() + request.amount.value()
            &&& after[payer].value() + after[payee].value() == before.balances[payer].value()
                + before.balances[payee].value()
            &&& forall|id: i32|
                id != payer && id != payee && before.balances.contains_key(id) ==> after[id]
                    == before.balances[id]
            &&& balances_wf(after)
        }),
{
    let after = settle(before, request).0.balances;
    let payer = request.payer_id;
    let payee = request.payee_id;
    lemma_difference(before.balances[payer], request.amount);
    lemma_sum(before.balances[payee], request.amount);
    assert(after.dom() =~= before.balances.dom());
}

/// Non-negativity. A transfer that succeeds reports the payer's balance as it
/// is committed, and that balance is not below zero.
pub proof fn lemma_committed_balance_not_negative(before: LedgerView, request: Request)
    requires
        settle(before, request).1.outcome is Ok,
    ensures
        ({
            let (after, report) = settle(before, request);
            &&& after.balances.contains_key(request.payer_id)
            &&& report.outcome == Ok::<_, TransferErrorView>(after.balances[request.payer_id])
            &&& after.balances[request.payer_id].value() >= 0
        }),
{
}

/// A transfer that succeeds has taken at least one attempt, and leaves no
/// conflict pending.
pub proof fn lemma_success_takes_an_attempt(before: LedgerView, request: Request)
    requires
        settle(before, request).1.outcome is Ok,
    ensures
        settle(before, request).1.attempts == before.pending_conflicts + 1,
        settle(before, request).1.attempts >= 1,
        settle(before, request).0.pending_conflicts == 0,
{
}

/// A debit that would leave the payer below zero yields `InsufficientFunds`
/// with that balance, on the first attempt, and changes nothing.
pub proof fn lemma_insufficient_funds(before: LedgerView, request: Request)
    requires
        request.payer_id != request.payee_id,
        before.balances.contains_key(request.payer_id),
        before.balances[request.payer_id].can_sub(request.amount),
        before.balances[request.payer_id].spec_sub(request.amount).value() < 0,
    ensures
        ({
            let (after, report) = settle(before, request);
            &&& report.outcome == Err::<Money, _>(
                TransferErrorView::InsufficientFunds {
                    balance: before.balances[request.payer_id].spec_sub(request.amount),
                },
            )
            &&& report.attempts == 1
            &&& after == before
        }),
{
}

/// No failed transfer changes the ledger: not its balances, and not the
/// conflicts pending.
pub proof fn lemma_failure_changes_nothing(before: LedgerView, request: Request)
    requires
        settle(before, request).1.outcome is Err,
    ensures
        settle(before, request).0 == before,
{
}

/// Same-account rejection. A request whose payer is its payee yields
/// `InvalidRequest` with no attempt made and the ledger as it was; the
/// controller's first move is to give up, before it asks for any operation.
pub proof fn lemma_same_account_rejected(before: LedgerView, request: Request)
    requires
        request.payer_id == request.payee_id,
    ensures
        ({
            let (after, report) = settle(before, request);
            &&& report.outcome == Err::<Money, _>(TransferErrorView::InvalidRequest)
            &&& report.attempts == 0
            &&& after == before
        }),
        first_move(initial(request)) == abort(initial(request), TransferError::InvalidRequest),
        first_move(initial(request)).0.attempts == 0,
{
}

/// Retries change nothing but the count. With `conflicts` commits failing on
/// a serialization conflict before one goes through, a transfer has the
/// outcome that it has with none; where it succeeds, it leaves the same
/// ledger, and has taken `conflicts + 1` attempts against one.
pub proof fn lemma_retries_only_count(before: LedgerView, request: Request, conflicts: nat)
    ensures
        ({
            let contended = settle(LedgerView { pending_conflicts: conflicts, ..before }, request);
            let quiet = settle(LedgerView { pending_conflicts: 0, ..before }, request);
            &&& contended.1.outcome == quiet.1.outcome
            &&& contended.1.outcome is Ok ==> {
                &&& contended.0 == quiet.0
                &&& contended.1.attempts == conflicts + 1
                &&& quiet.1.attempts == 1
            }
            &&& contended.1.outcome is Err ==> contended.1.attempts == quiet.1.attempts
        }),
{
}

/// Missing payee. Where the payer can pay and the payee does not exist, the
/// transfer yields `PayeeNotFound` and the ledger is as it was: the debit of
/// the attempt does not show.
pub proof fn lemma_missing_payee(before: LedgerView, request: Request)
    requires
        request.payer_id != request.payee_id,
        before.balances.contains_key(request.payer_id),
        before.balances[request.payer_id].can_sub(request.amount),
        before.balances[request.payer_id].spec_sub(request.amount).value() >= 0,
        !before.balances.contains_key(request.payee_id),
    ensures
        ({
            let (after, report) = settle(before, request);
            &&& report.outcome == Err::<Money, _>(TransferErrorView::PayeeNotFound)
            &&& report.attempts == 1
            &&& after == before
        }),
{
}

} // verus!

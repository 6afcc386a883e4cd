//! An account ledger held in memory, with the behaviour that the engine
//! relies on: snapshot transactions, an update that returns the balance it
//! leaves, an update that reports how many rows it touched, and commits that
//! can be made to fail with a serialization conflict.

use std::collections::HashMap;
use vstd::prelude::*;
use crate::conflict::{serialization_failure, Failure, FailureView};
use crate::money::Money;

verus! {

/// The failure of an update that was to return one row and found none.
pub open spec fn no_such_row() -> FailureView {
    FailureView { sql_state: None, message: "query returned an unexpected number of rows"@ }
}

/// The failure of an update whose result cannot be held.
pub open spec fn out_of_range() -> FailureView {
    FailureView { sql_state: Some("22003"@), message: "value overflows numeric format"@ }
}

/// The failure of a commit that met a serialization conflict.
pub open spec fn conflict() -> FailureView {
    FailureView {
        sql_state: Some(serialization_failure()),
        message: "could not serialize access due to concurrent update"@,
    }
}

/// Whether every balance in `balances` is well formed.
pub open spec fn balances_wf(balances: Map<i32, Money>) -> bool {
    forall|id: i32| balances.contains_key(id) ==> (#[trigger] balances[id]).wf()
}

/// The committed balances, and the number of commits that will fail with a
/// serialization conflict before one goes through.
pub struct Ledger {
    balances: HashMap<i32, Money>,
    pending_conflicts: usize,
}

/// The mathematical content of a [`Ledger`].
pub struct LedgerView {
    pub balances: Map<i32, Money>,
    pub pending_conflicts: nat,
}

impl View for Ledger {
    type V = LedgerView;

    closed spec fn view(&self) -> LedgerView {
        LedgerView {
            balances: self.balances@,
            pending_conflicts: self.pending_conflicts as nat,
        }
    }
}

/// One transaction: the balances as it sees them, which are those of the
/// ledger when it began with its own updates laid over them. Nothing of it
/// shows in the ledger until it is committed; dropping it abandons it.
pub struct Transaction {
    working: HashMap<i32, Money>,
}

impl View for Transaction {
    type V = Map<i32, Money>;

    closed spec fn view(&self) -> Map<i32, Money> {
        self.working@
    }
}

fn row_count_failure() -> (failure: Failure)
    ensures
        failure@ == no_such_row(),
{
    Failure {
        sql_state: None,
        message: "query returned an unexpected number of rows".to_owned(),
    }
}

fn overflow_failure() -> (failure: Failure)
    ensures
        failure@ == out_of_range(),
{
    Failure {
        sql_state: Some("22003".to_owned()),
        message: "value overflows numeric format".to_owned(),
    }
}

fn conflict_failure() -> (failure: Failure)
    ensures
        failure@ == conflict(),
{
    let code = "40001".to_owned();
    proof {
        reveal_strlit("40001");
        assert(code@ =~= serialization_failure());
    }
    Failure {
        sql_state: Some(code),
        message: "could not serialize access due to concurrent update".to_owned(),
    }
}

impl Transaction {
    /// Every balance that the transaction sees is well formed.
    pub open spec fn wf(&self) -> bool {
        balances_wf(self@)
    }

    /// The balance of `account` as this transaction sees it.
    pub fn balance(&self, account: i32) -> (balance: Option<Money>)
        ensures
            balance == if self@.contains_key(account) {
                Some(self@[account])
            } else {
                None
            },
    {
        match self.working.get(&account) {
            Some(balance) => Some(*balance),
            None => None,
        }
    }

    /// Takes `amount` from `account` and returns the balance that this
    /// leaves, be it below zero. Fails, changing nothing, where there is no
    /// such account or the new balance cannot be held.
    pub fn debit(&mut self, account: i32, amount: Money) -> (result: Result<Money, Failure>)
        requires
            old(self).wf(),
        ensures
            final(self).wf(),
            !old(self)@.contains_key(account) ==> {
                &&& final(self)@ == old(self)@
                &&& result matches Err(failure) && failure@ == no_such_row()
            },
            old(self)@.contains_key(account) && !old(self)@[account].can_sub(amount) ==> {
                &&& final(self)@ == old(self)@
                &&& result matches Err(failure) && failure@ == out_of_range()
            },
            old(self)@.contains_key(account) && old(self)@[account].can_sub(amount) ==> {
                let left = old(self)@[account].spec_sub(amount);
                &&& result == Ok::<Money, Failure>(left)
                &&& final(self)@ == old(self)@.insert(account, left)
            },
    {
        proof {
            use_type_invariant(&amount);
        }
        let held = match self.working.get(&account) {
            Some(balance) => *balance,
            None => {
                return Err(row_count_failure());
            },
        };
        match held.checked_sub(&amount) {
            Some(left) => {
                self.working.insert(account, left);
                Ok(left)
            },
            None => Err(overflow_failure()),
        }
    }

    /// Adds `amount` to `account` and returns the number of rows that this
    /// touched: one, or none where there is no such account. Fails, changing
    /// nothing, where the new balance cannot be held.
    pub fn credit(&mut self, account: i32, amount: Money) -> (result: Result<u64, Failure>)
        requires
            old(self).wf(),
        ensures
            final(self).wf(),
            !old(self)@.contains_key(account) ==> {
                &&& final(self)@ == old(self)@
                &&& result == Ok::<u64, Failure>(0)
            },
            old(self)@.contains_key(account) && !old(self)@[account].can_add(amount) ==> {
                &&& final(self)@ == old(self)@
                &&& result matches Err(failure) && failure@ == out_of_range()
            },
            old(self)@.contains_key(account) && old(self)@[account].can_add(amount) ==> {
                let raised = old(self)@[account].spec_add(amount);
                &&& result == Ok::<u64, Failure>(1)
                &&& final(self)@ == old(self)@.insert(account, raised)
            },
    {
        proof {
            use_type_invariant(&amount);
        }
        let held = match self.working.get(&account) {
            Some(balance) => *balance,
            None => {
                return Ok(0);
            },
        };
        match held.checked_add(&amount) {
            Some(raised) => {
                self.working.insert(account, raised);
                Ok(1)
            },
            None => Err(overflow_failure()),
        }
    }
}

impl Ledger {
    /// Every committed balance is well formed.
    pub open spec fn wf(&self) -> bool {
        balances_wf(self@.balances)
    }

    /// A ledger with no accounts and no conflicts pending.
    pub fn new() -> (ledger: Ledger)
        ensures
            ledger@.balances == Map::<i32, Money>::empty(),
            ledger@.pending_conflicts == 0,
            ledger.wf(),
    {
        Ledger { balances: HashMap::new(), pending_conflicts: 0 }
    }

    /// Opens `account` with `balance`. Returns `false`, changing nothing,
    /// where the account exists already.
    pub fn open_account(&mut self, account: i32, balance: Money) -> (opened: bool)
        requires
            old(self).wf(),
        ensures
            final(self).wf(),
            opened == !old(self)@.balances.contains_key(account),
            opened ==> final(self)@ == (LedgerView {
                balances: old(self)@.balances.insert(account, balance),
                ..old(self)@
            }),
            !opened ==> final(self)@ == old(self)@,
    {
        proof {
            use_type_invariant(&balance);
        }
        if self.balances.contains_key(&account) {
            false
        } else {
            self.balances.insert(account, balance);
            true
        }
    }

    /// The committed balance of `account`.
    pub fn balance(&self, account: i32) -> (balance: Option<Money>)
        ensures
            balance == if self@.balances.contains_key(account) {
                Some(self@.balances[account])
            } else {
                None
            },
    {
        match self.balances.get(&account) {
            Some(balance) => Some(*balance),
            None => None,
        }
    }

    /// The number of commits that will still fail with a conflict.
    pub fn pending_conflicts(&self) -> (pending: usize)
        ensures
            pending == self@.pending_conflicts,
    {
        self.pending_conflicts
    }

    /// Makes the next `count` commits fail with a serialization conflict.
    pub fn inject_conflicts(&mut self, count: usize)
        ensures
            final(self)@ == (LedgerView { pending_conflicts: count as nat, ..old(self)@ }),
    {
        self.pending_conflicts = count;
    }

    /// Begins a transaction on the balances as they are committed now.
    pub fn begin(&self) -> (transaction: Transaction)
        ensures
            transaction@ == self@.balances,
    {
        Transaction { working: self.balances.clone() }
    }

    /// Commits `transaction`: its balances become the ledger's. While
    /// conflicts are pending, the commit uses one up and fails instead,
    /// leaving the balances as they were.
    pub fn commit(&mut self, transaction: Transaction) -> (result: Result<(), Failure>)
        ensures
            old(self)@.pending_conflicts > 0 ==> (result matches Err(failure) && failure@
                == conflict()) && final(self)@ == (LedgerView {
                pending_conflicts: (old(self)@.pending_conflicts - 1) as nat,
                ..old(self)@
            }),
            old(self)@.pending_conflicts == 0 ==> result is Ok && final(self)@ == (LedgerView {
                balances: transaction@,
                pending_conflicts: 0,
            }),
    {
        if self.pending_conflicts > 0 {
            self.pending_conflicts = self.pending_conflicts - 1;
            Err(conflict_failure())
        } else {
            self.balances = transaction.working;
            Ok(())
        }
    }
}

} // verus!

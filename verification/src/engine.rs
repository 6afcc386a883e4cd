//! The retry controller and the transfer executor, as one state machine.
//!
//! The controller never touches the ledger itself. It says which operation
//! comes next ([`Action`]) and is told how that operation went ([`Event`]):
//! whoever holds the connection performs the operations. One attempt is the
//! sequence begin, debit, credit, commit; only a commit that fails with a
//! serialization conflict starts another attempt.

use vstd::prelude::*;
use crate::conflict::{classify, verdict_of, Failure, FailureView, Verdict};
use crate::money::Money;

verus! {

/// A transfer of `amount` from the payer's account to the payee's.
#[derive(Clone, Copy, Debug)]
pub struct Request {
    pub payer_id: i32,
    pub payee_id: i32,
    pub amount: Money,
}

/// Why a transfer did not happen.
#[derive(Clone, Debug)]
pub enum TransferError {
    /// Payer and payee are the same account. No attempt was made.
    InvalidRequest,
    /// The debit would leave the payer with `balance`, which is below zero.
    InsufficientFunds { balance: Money },
    /// The credit found no account to update.
    PayeeNotFound,
    /// The backend failed in a way that another attempt would not mend.
    Fatal(Failure),
}

/// The mathematical content of a [`TransferError`].
pub enum TransferErrorView {
    InvalidRequest,
    InsufficientFunds { balance: Money },
    PayeeNotFound,
    Fatal(FailureView),
}

impl View for TransferError {
    type V = TransferErrorView;

    open spec fn view(&self) -> TransferErrorView {
        match *self {
            TransferError::InvalidRequest => TransferErrorView::InvalidRequest,
            TransferError::InsufficientFunds { balance } => TransferErrorView::InsufficientFunds {
                balance,
            },
            TransferError::PayeeNotFound => TransferErrorView::PayeeNotFound,
            TransferError::Fatal(failure) => TransferErrorView::Fatal(failure@),
        }
    }
}

/// The message with which an error reaches the caller. A fatal error carries
/// the backend's own message.
pub open spec fn message_text(error: TransferErrorView) -> Seq<char> {
    match error {
        TransferErrorView::InvalidRequest => "Payer and payee must be different accounts"@,
        TransferErrorView::InsufficientFunds { .. } => "Insufficient balance"@,
        TransferErrorView::PayeeNotFound => "Payee account not found"@,
        TransferErrorView::Fatal(failure) => failure.message,
    }
}

impl TransferError {
    /// The message with which this error reaches the caller.
    pub fn message(&self) -> (text: String)
        ensures
            text@ == message_text(self@),
    {
        match self {
            TransferError::InvalidRequest => "Payer and payee must be different accounts".to_owned(),
            TransferError::InsufficientFunds { .. } => "Insufficient balance".to_owned(),
            TransferError::PayeeNotFound => "Payee account not found".to_owned(),
            TransferError::Fatal(failure) => failure.message.clone(),
        }
    }
}

/// Where a transfer stands.
#[derive(Clone, Copy, Debug)]
pub enum Phase {
    /// Nothing has been asked of the ledger yet.
    Start,
    /// A fresh transaction has been asked for.
    Beginning,
    /// The debit of the payer is under way.
    Debiting,
    /// The credit of the payee is under way; the debit left `payer_balance`.
    Crediting { payer_balance: Money },
    /// The commit is under way.
    Committing { payer_balance: Money },
    /// The transfer is committed.
    Done,
    /// The transfer was given up; nothing was committed.
    Aborted,
}

/// How the operation that the controller asked for went.
#[derive(Clone, Debug)]
pub enum Event {
    /// A transaction is open.
    Begun,
    /// The payer's row was updated and now holds `balance`.
    Debited { balance: Money },
    /// The credit updated `rows` rows.
    Credited { rows: u64 },
    /// The transaction is committed.
    Committed,
    /// The operation failed.
    Failed(Failure),
}

/// What is to be done next.
#[derive(Clone, Debug)]
pub enum Action {
    /// Open a fresh transaction, abandoning the previous one if there was one.
    Begin,
    /// In the open transaction, take `amount` from `account` and report the
    /// balance that this leaves.
    Debit { account: i32, amount: Money },
    /// In the open transaction, add `amount` to `account` and report how many
    /// rows that touched.
    Credit { account: i32, amount: Money },
    /// Commit the open transaction.
    Commit,
    /// The transfer is complete.
    Succeed { payer_balance: Money, attempts: usize },
    /// The transfer has failed. An open transaction is abandoned uncommitted.
    Fail(TransferError),
}

/// The controller of one transfer.
#[derive(Clone, Copy, Debug)]
pub struct Controller {
    request: Request,
    attempts: usize,
    phase: Phase,
}

/// The mathematical content of a [`Controller`].
pub struct ControllerView {
    pub request: Request,
    pub attempts: nat,
    pub phase: Phase,
}

impl View for Controller {
    type V = ControllerView;

    closed spec fn view(&self) -> ControllerView {
        ControllerView {
            request: self.request,
            attempts: self.attempts as nat,
            phase: self.phase,
        }
    }
}

/// The state in which a transfer begins: no attempt made yet.
pub open spec fn initial(request: Request) -> ControllerView {
    ControllerView { request, attempts: 0, phase: Phase::Start }
}

/// Charges one more attempt and asks for a fresh transaction.
pub open spec fn begin_attempt(c: ControllerView) -> (ControllerView, Action) {
    (ControllerView { attempts: c.attempts + 1, phase: Phase::Beginning, ..c }, Action::Begin)
}

/// Gives the transfer up with `error`.
pub open spec fn abort(c: ControllerView, error: TransferError) -> (ControllerView, Action) {
    (ControllerView { phase: Phase::Aborted, ..c }, Action::Fail(error))
}

/// The first move: a request whose payer is its payee is rejected before any
/// attempt; any other starts the first attempt.
pub open spec fn first_move(c: ControllerView) -> (ControllerView, Action) {
    if c.request.payer_id == c.request.payee_id {
        abort(c, TransferError::InvalidRequest)
    } else {
        begin_attempt(c)
    }
}

/// Whether `event` answers the operation that is under way in `phase`.
pub open spec fn answers(phase: Phase, event: Event) -> bool {
    match (phase, event) {
        (Phase::Beginning, Event::Begun) => true,
        (Phase::Debiting, Event::Debited { .. }) => true,
        (Phase::Crediting { .. }, Event::Credited { .. }) => true,
        (Phase::Committing { .. }, Event::Committed) => true,
        (Phase::Beginning, Event::Failed(_)) => true,
        (Phase::Debiting, Event::Failed(_)) => true,
        (Phase::Crediting { .. }, Event::Failed(_)) => true,
        (Phase::Committing { .. }, Event::Failed(_)) => true,
        _ => false,
    }
}

/// Whether [`Controller::step`] can take `event` in state `c`: the event
/// answers the operation under way, and where it is a failed commit, which
/// may start another attempt, the attempt counter has room for one more.
pub open spec fn can_step(c: ControllerView, event: Event) -> bool {
    &&& answers(c.phase, event)
    &&& c.phase is Committing && event is Failed ==> c.attempts < usize::MAX
}

/// The move that `event` causes, for an event that answers the operation
/// under way.
///
/// A debit that leaves the payer below zero ends the transfer before the
/// credit; a credit that touches any number of rows but one ends it before
/// the commit. A failed commit is classified: a serialization conflict starts
/// the next attempt, anything else ends the transfer with the failure as it
/// was reported. A failure of any other operation ends the transfer likewise,
/// unclassified.
pub open spec fn next(c: ControllerView, event: Event) -> (ControllerView, Action) {
    match (c.phase, event) {
        (Phase::Beginning, Event::Begun) => (
            ControllerView { phase: Phase::Debiting, ..c },
            Action::Debit { account: c.request.payer_id, amount: c.request.amount },
        ),
        (Phase::Debiting, Event::Debited { balance }) => if balance.value() < 0 {
            abort(c, TransferError::InsufficientFunds { balance })
        } else {
            (
                ControllerView { phase: Phase::Crediting { payer_balance: balance }, ..c },
                Action::Credit { account: c.request.payee_id, amount: c.request.amount },
            )
        },
        (Phase::Crediting { payer_balance }, Event::Credited { rows }) => if rows != 1 {
            abort(c, TransferError::PayeeNotFound)
        } else {
            (ControllerView { phase: Phase::Committing { payer_balance }, ..c }, Action::Commit)
        },
        (Phase::Committing { payer_balance }, Event::Committed) => (
            ControllerView { phase: Phase::Done, ..c },
            Action::Succeed { payer_balance, attempts: c.attempts as usize },
        ),
        (Phase::Committing { .. }, Event::Failed(failure)) => if verdict_of(failure@)
            == Verdict::Retryable {
            begin_attempt(c)
        } else {
            abort(c, TransferError::Fatal(failure))
        },
        (_, Event::Failed(failure)) => abort(c, TransferError::Fatal(failure)),
        _ => (c, Action::Begin),
    }
}

impl Controller {
    /// A controller for `request`, with no attempt made yet.
    pub fn new(request: Request) -> (controller: Controller)
        ensures
            controller@ == initial(request),
    {
        Controller { request, attempts: 0, phase: Phase::Start }
    }

    /// The request being served.
    pub fn request(&self) -> (request: Request)
        ensures
            request == self@.request,
    {
        self.request
    }

    /// The number of attempts begun so far.
    pub fn attempts(&self) -> (attempts: usize)
        ensures
            attempts == self@.attempts,
    {
        self.attempts
    }

    /// Where the transfer stands.
    pub fn phase(&self) -> (phase: Phase)
        ensures
            phase == self@.phase,
    {
        self.phase
    }

    /// Whether the transfer has ended, committed or given up.
    pub fn is_finished(&self) -> (finished: bool)
        ensures
            finished == (self@.phase is Done || self@.phase is Aborted),
    {
        match self.phase {
            Phase::Done => true,
            Phase::Aborted => true,
            _ => false,
        }
    }

    /// Makes the first move.
    pub fn start(&mut self) -> (action: Action)
        requires
            old(self)@.phase is Start,
            old(self)@.attempts < usize::MAX,
        ensures
            (final(self)@, action) == first_move(old(self)@),
    {
        if self.request.payer_id == self.request.payee_id {
            self.phase = Phase::Aborted;
            Action::Fail(TransferError::InvalidRequest)
        } else {
            self.attempts = self.attempts + 1;
            self.phase = Phase::Beginning;
            Action::Begin
        }
    }

    /// Whether `event` may be handed to [`Controller::step`] now.
    pub fn accepts(&self, event: &Event) -> (accepted: bool)
        ensures
            accepted == can_step(self@, *event),
    {
        match (self.phase, event) {
            (Phase::Beginning, Event::Begun) => true,
            (Phase::Debiting, Event::Debited { .. }) => true,
            (Phase::Crediting { .. }, Event::Credited { .. }) => true,
            (Phase::Committing { .. }, Event::Committed) => true,
            (Phase::Beginning, Event::Failed(_)) => true,
            (Phase::Debiting, Event::Failed(_)) => true,
            (Phase::Crediting { .. }, Event::Failed(_)) => true,
            (Phase::Committing { .. }, Event::Failed(_)) => self.attempts < usize::MAX,
            _ => false,
        }
    }

    /// Takes in how the last operation went and says what comes next.
    pub fn step(&mut self, event: Event) -> (action: Action)
        requires
            can_step(old(self)@, event),
        ensures
            (final(self)@, action) == next(old(self)@, event),
    {
        match (self.phase, event) {
            (Phase::Beginning, Event::Begun) => {
                self.phase = Phase::Debiting;
                Action::Debit { account: self.request.payer_id, amount: self.request.amount }
            },
            (Phase::Debiting, Event::Debited { balance }) => {
                if balance.is_negative() {
                    self.phase = Phase::Aborted;
                    Action::Fail(TransferError::InsufficientFunds { balance })
                } else {
                    self.phase = Phase::Crediting { payer_balance: balance };
                    Action::Credit { account: self.request.payee_id, amount: self.request.amount }
                }
            },
            (Phase::Crediting { payer_balance }, Event::Credited { rows }) => {
                if rows != 1 {
                    self.phase = Phase::Aborted;
                    Action::Fail(TransferError::PayeeNotFound)
                } else {
                    self.phase = Phase::Committing { payer_balance };
                    Action::Commit
                }
            },
            (Phase::Committing { payer_balance }, Event::Committed) => {
                self.phase = Phase::Done;
                Action::Succeed { payer_balance, attempts: self.attempts }
            },
            (Phase::Committing { .. }, Event::Failed(failure)) => {
                match classify(&failure) {
                    Verdict::Retryable => {
                        self.attempts = self.attempts + 1;
                        self.phase = Phase::Beginning;
                        Action::Begin
                    },
                    Verdict::Fatal => {
                        self.phase = Phase::Aborted;
                        Action::Fail(TransferError::Fatal(failure))
                    },
                }
            },
            (_, Event::Failed(failure)) => {
                self.phase = Phase::Aborted;
                Action::Fail(TransferError::Fatal(failure))
            },
            _ => vstd::pervasive::unreached(),
        }
    }
}

} // verus!

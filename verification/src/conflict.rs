//! The conflict classifier: the one place that decides which backend errors
//! are transient serialization conflicts.

use vstd::prelude::*;

verus! {

/// `tokio_postgres::Error`, carried as it is: nothing inside it is seen here.
#[verifier::external_type_specification]
#[verifier::external_body]
pub struct ExBackendError(tokio_postgres::Error);

/// The SQLSTATE with which a backend reports that concurrent transactions
/// could not be ordered consistently.
pub open spec fn serialization_failure() -> Seq<char> {
    seq!['4', '0', '0', '0', '1']
}

/// What a backend reported when an operation failed.
#[derive(Clone, Debug)]
pub struct Failure {
    /// The five-character SQLSTATE, where the database itself raised the error.
    pub sql_state: Option<String>,
    /// The human-readable message.
    pub message: String,
}

/// The mathematical content of a [`Failure`].
pub struct FailureView {
    pub sql_state: Option<Seq<char>>,
    pub message: Seq<char>,
}

impl View for Failure {
    type V = FailureView;

    open spec fn view(&self) -> FailureView {
        FailureView {
            sql_state: match self.sql_state {
                Some(code) => Some(code@),
                None => None,
            },
            message: self.message@,
        }
    }
}

/// Whether a failed commit is worth another attempt.
#[derive(Clone, Copy, Debug, PartialEq, Eq, Structural)]
pub enum Verdict {
    /// A serialization conflict with a concurrent transaction.
    Retryable,
    /// Anything else.
    Fatal,
}

/// A failure is retryable exactly when it carries the serialization-failure
/// SQLSTATE.
pub open spec fn verdict_of(failure: FailureView) -> Verdict {
    if failure.sql_state == Some(serialization_failure()) {
        Verdict::Retryable
    } else {
        Verdict::Fatal
    }
}

/// The SQLSTATE of `tokio_postgres::Error::code`, written out by
/// `SqlState::code`; `None` where the error did not come from the database.
/// Nothing is claimed of the result.
#[verifier::external_body]
fn sql_state_of(error: &tokio_postgres::Error) -> (code: Option<String>) {
    match error.code() {
        Some(state) => Some(state.code().to_string()),
        None => None,
    }
}

/// The text that `tokio_postgres::Error` displays. Nothing is claimed of it.
#[verifier::external_body]
fn message_of(error: &tokio_postgres::Error) -> (text: String) {
    error.to_string()
}

/// The code of `tokio_postgres::error::SqlState::T_R_SERIALIZATION_FAILURE`,
/// which `SqlState::code` writes as the five characters `40001`.
#[verifier::external_body]
fn serialization_failure_code() -> (code: String)
    ensures
        code@ == serialization_failure(),
{
    tokio_postgres::error::SqlState::T_R_SERIALIZATION_FAILURE.code().to_string()
}

impl Failure {
    /// Records what a backend error says of itself: its SQLSTATE, if it has
    /// one, and its message. Both come from the backend's error value, of
    /// which nothing is known here.
    pub fn from_backend(error: &tokio_postgres::Error) -> (failure: Failure) {
        Failure { sql_state: sql_state_of(error), message: message_of(error) }
    }
}

/// Classifies a failed commit.
pub fn classify(failure: &Failure) -> (verdict: Verdict)
    ensures
        verdict == verdict_of(failure@),
{
    match &failure.sql_state {
        Some(code) => {
            let conflict = serialization_failure_code();
            if *code == conflict {
                Verdict::Retryable
            } else {
                Verdict::Fatal
            }
        },
        None => Verdict::Fatal,
    }
}

/// Whether a failed commit met a serialization conflict, which another
/// attempt may get past: it carries the serialization-failure SQLSTATE.
pub fn is_occ_error(failure: &Failure) -> (retryable: bool)
    ensures
        retryable == (failure@.sql_state == Some(serialization_failure())),
        retryable == (verdict_of(failure@) == Verdict::Retryable),
{
    match classify(failure) {
        Verdict::Retryable => true,
        Verdict::Fatal => false,
    }
}

} // verus!

//! The transaction orchestrator: what to ask of the ledger, in which order, and what to report.
//!
//! A submission asks the ledger to accept one transaction and then synchronizes, so that what
//! follows sees the new balances and notes. The caller performs each command and hands back the
//! ledger's reply. Nothing is retried here: a rejection, a transport failure and a failed
//! synchronization each end the submission and are reported as they came.

use vstd::prelude::*;
use crate::identity::AccountId;
use crate::note::Note;
use crate::word::Word;

verus! {

/// How a transaction declares its note.
#[derive(Clone, Copy, Debug, PartialEq, Eq, Structural)]
pub enum Declaration {
    /// The note is created by the transaction, as an output that the account owns.
    Output,
    /// The note is consumed by the transaction, as an input given by content: the account need
    /// not have tracked the note before.
    UnauthenticatedInput,
}

/// The transaction to submit: an account and one note, created or consumed.
#[derive(Clone, Copy, Debug, PartialEq, Eq, Structural)]
pub struct Request {
    pub account: AccountId,
    pub note: Word,
    pub declaration: Declaration,
}

/// What a finished submission reports: the transaction's identifier and the height at which
/// the ledger was seen afterwards.
#[derive(Clone, Copy, Debug, PartialEq, Eq, Structural)]
pub struct Receipt {
    pub transaction: Word,
    pub height: u32,
}

/// Why a submission ended without a receipt. Each carries the ledger client's own words.
#[derive(Clone, Debug, PartialEq, Eq)]
pub enum SubmissionError {
    /// The ledger rejected the transaction: the condition script refused, funds were missing,
    /// the note was consumed before or the inputs were malformed.
    SubmissionRejected(String),
    /// The ledger could not be reached.
    NetworkError(String),
    /// The transaction was accepted but the state could not be refreshed afterwards.
    SynchronizationError(String),
}

/// What the ledger client answered to a command.
#[derive(Clone, Debug, PartialEq, Eq)]
pub enum Reply {
    Accepted(Word),
    Rejected(String),
    TransportFailed(String),
    Synchronized(u32),
    SynchronizationFailed(String),
}

/// What the caller is to do next.
#[derive(Clone, Copy, Debug, PartialEq, Eq, Structural)]
pub enum Command {
    Submit(Request),
    Synchronize,
}

/// Where a submission stands.
#[derive(Clone, Debug, PartialEq, Eq)]
pub enum Stage {
    /// The transaction has been handed to the ledger.
    AwaitingLedger(Request),
    /// The ledger accepted the transaction; the state is being refreshed.
    AwaitingSync(Word),
    /// The submission is complete.
    Done(Receipt),
    /// The submission failed.
    Failed(SubmissionError),
}

/// The request that emits `note` from `account`.
pub open spec fn output_request(account: AccountId, note: Note) -> Request {
    Request { account, note: note.id(), declaration: Declaration::Output }
}

/// The request that consumes `note` into `account`.
pub open spec fn consumption_request(account: AccountId, note: Note) -> Request {
    Request { account, note: note.id(), declaration: Declaration::UnauthenticatedInput }
}

/// Starts the submission that emits `note` as an output owned by `account`.
pub fn submit_output(account: AccountId, note: &Note) -> (r: (Stage, Command))
    ensures
        r.0 == Stage::AwaitingLedger(output_request(account, *note)),
        r.1 == Command::Submit(output_request(account, *note)),
{
    let request = Request { account, note: note.note_id(), declaration: Declaration::Output };
    (Stage::AwaitingLedger(request), Command::Submit(request))
}

/// Starts the submission that consumes `note` into `account`.
pub fn submit_consumption(account: AccountId, note: &Note) -> (r: (Stage, Command))
    ensures
        r.0 == Stage::AwaitingLedger(consumption_request(account, *note)),
        r.1 == Command::Submit(consumption_request(account, *note)),
{
    let request = Request {
        account,
        note: note.note_id(),
        declaration: Declaration::UnauthenticatedInput,
    };
    (Stage::AwaitingLedger(request), Command::Submit(request))
}

impl Stage {
    /// The submission has ended, with a receipt or with an error.
    pub open spec fn finished(&self) -> bool {
        self is Done || self is Failed
    }

    /// The stage and the command that follow a reply.
    ///
    /// While the ledger decides, an acceptance leads to a synchronization, and a rejection or a
    /// transport failure ends the submission. While the state is refreshed, the new height
    /// completes the submission and a failure ends it. Any other reply changes nothing.
    pub open spec fn advance_spec(self, reply: Reply) -> (Stage, Option<Command>) {
        match (self, reply) {
            (Stage::AwaitingLedger(_), Reply::Accepted(transaction)) => (
                Stage::AwaitingSync(transaction),
                Some(Command::Synchronize),
            ),
            (Stage::AwaitingLedger(_), Reply::Rejected(words)) => (
                Stage::Failed(SubmissionError::SubmissionRejected(words)),
                None,
            ),
            (Stage::AwaitingLedger(_), Reply::TransportFailed(words)) => (
                Stage::Failed(SubmissionError::NetworkError(words)),
                None,
            ),
            (Stage::AwaitingSync(transaction), Reply::Synchronized(height)) => (
                Stage::Done(Receipt { transaction, height }),
                None,
            ),
            (Stage::AwaitingSync(_), Reply::SynchronizationFailed(words)) => (
                Stage::Failed(SubmissionError::SynchronizationError(words)),
                None,
            ),
            (stage, _) => (stage, None),
        }
    }

    /// Takes the ledger client's reply and says what to do next.
    pub fn advance(self, reply: Reply) -> (r: (Stage, Option<Command>))
        ensures
            r == self.advance_spec(reply),
    {
        match (self, reply) {
            (Stage::AwaitingLedger(_), Reply::Accepted(transaction)) => (
                Stage::AwaitingSync(transaction),
                Some(Command::Synchronize),
            ),
            (Stage::AwaitingLedger(_), Reply::Rejected(words)) => (
                Stage::Failed(SubmissionError::SubmissionRejected(words)),
                None,
            ),
            (Stage::AwaitingLedger(_), Reply::TransportFailed(words)) => (
                Stage::Failed(SubmissionError::NetworkError(words)),
                None,
            ),
            (Stage::AwaitingSync(transaction), Reply::Synchronized(height)) => (
                Stage::Done(Receipt { transaction, height }),
                None,
            ),
            (Stage::AwaitingSync(_), Reply::SynchronizationFailed(words)) => (
                Stage::Failed(SubmissionError::SynchronizationError(words)),
                None,
            ),
            (stage, _) => (stage, None),
        }
    }

    /// What the submission reports once it has ended.
    pub open spec fn outcome_spec(self) -> Option<Result<Receipt, SubmissionError>> {
        match self {
            Stage::Done(receipt) => Some(Ok(receipt)),
            Stage::Failed(error) => Some(Err(error)),
            _ => None,
        }
    }

    pub fn outcome(self) -> (r: Option<Result<Receipt, SubmissionError>>)
        ensures
            r == self.outcome_spec(),
            r is Some <==> self.finished(),
    {
        match self {
            Stage::Done(receipt) => Some(Ok(receipt)),
            Stage::Failed(error) => Some(Err(error)),
            _ => None,
        }
    }

    pub fn is_finished(&self) -> (r: bool)
        ensures
            r == self.finished(),
    {
        match self {
            Stage::Done(_) => true,
            Stage::Failed(_) => true,
            _ => false,
        }
    }

    /// A transaction is handed to the ledger once, at the start: no reply leads to a second
    /// submission.
    pub proof fn lemma_nothing_is_retried(stage: Stage, reply: Reply)
        ensures
            !(stage.advance_spec(reply).1 is Some && stage.advance_spec(reply).1->Some_0
                is Submit),
    {
    }

    /// An accepted transaction is always followed by a synchronization.
    pub proof fn lemma_acceptance_is_followed_by_sync(request: Request, transaction: Word)
        ensures
            Stage::AwaitingLedger(request).advance_spec(Reply::Accepted(transaction)) == (
                Stage::AwaitingSync(transaction),
                Some(Command::Synchronize),
            ),
    {
    }

    /// A rejection and a transport failure are reported with the words they came with.
    pub proof fn lemma_failures_are_verbatim(request: Request, words: String)
        ensures
            Stage::AwaitingLedger(request).advance_spec(Reply::Rejected(words)).0.outcome_spec()
                == Some(
                Err::<Receipt, SubmissionError>(SubmissionError::SubmissionRejected(words)),
            ),
            Stage::AwaitingLedger(request).advance_spec(
                Reply::TransportFailed(words),
            ).0.outcome_spec() == Some(
                Err::<Receipt, SubmissionError>(SubmissionError::NetworkError(words)),
            ),
    {
    }

    /// A submission that has ended stays as it is, whatever arrives.
    pub proof fn lemma_finished_is_final(stage: Stage, reply: Reply)
        requires
            stage.finished(),
        ensures
            stage.advance_spec(reply) == (stage, None::<Command>),
    {
    }

    /// The receipt carries the identifier that the ledger gave at acceptance and the height that
    /// the synchronization saw.
    pub proof fn lemma_receipt_is_the_ledgers(request: Request, transaction: Word, height: u32)
        ensures
            Stage::AwaitingLedger(request).advance_spec(Reply::Accepted(transaction)).0.advance_spec(
                Reply::Synchronized(height),
            ).0.outcome_spec() == Some(
                Ok::<Receipt, SubmissionError>(Receipt { transaction, height }),
            ),
    {
    }
}

} // verus!

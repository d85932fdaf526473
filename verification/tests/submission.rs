use inheritance_vault::identity::AccountId;
use inheritance_vault::note::{Note, NoteTerms};
use inheritance_vault::asset::Faucet;
use inheritance_vault::orchestrator::{
    submit_consumption, submit_output, Command, Declaration, Receipt, Reply, Request, Stage,
    SubmissionError,
};
use inheritance_vault::script::CompiledScript;
use inheritance_vault::word::Word;

fn owner() -> AccountId {
    AccountId::new(0x0102_0304_0506_0710, 0x0000_1112_1314_1500)
}

fn beneficiary() -> AccountId {
    AccountId::new(0x2122_2324_2526_2710, 0x0000_3132_3334_3500)
}

fn request() -> Request {
    Request { account: owner(), note: Word::new(1, 2, 3, 4), declaration: Declaration::Output }
}

fn transaction() -> Word {
    Word::new(40, 41, 42, 43)
}

fn note() -> Note {
    let script = CompiledScript::compile("begin\n    push.1 drop\nend\n").expect("assembles");
    let terms = NoteTerms {
        sender: owner(),
        faucet: Faucet {
            id: AccountId::new(0x4142_4344_4546_4720, 0x0000_5152_5354_5500),
            max_supply: 1_000_000,
        },
        amount: 10,
        beneficiary: beneficiary(),
        deadline: 103,
    };
    Note::build(&terms, 100, Word::new(9, 8, 7, 6), &script).expect("valid terms")
}

#[test]
fn output_submission_declares_the_note_as_an_output() {
    let note = note();
    let (stage, command) = submit_output(owner(), &note);
    let expected =
        Request { account: owner(), note: note.note_id(), declaration: Declaration::Output };
    assert_eq!(stage, Stage::AwaitingLedger(expected));
    assert_eq!(command, Command::Submit(expected));
}

#[test]
fn consumption_submission_declares_an_unauthenticated_input() {
    let note = note();
    let (stage, command) = submit_consumption(beneficiary(), &note);
    let expected = Request {
        account: beneficiary(),
        note: note.note_id(),
        declaration: Declaration::UnauthenticatedInput,
    };
    assert_eq!(stage, Stage::AwaitingLedger(expected));
    assert_eq!(command, Command::Submit(expected));
}

#[test]
fn accepted_transaction_is_followed_by_a_synchronization() {
    let (stage, command) = Stage::AwaitingLedger(request()).advance(Reply::Accepted(transaction()));
    assert_eq!(stage, Stage::AwaitingSync(transaction()));
    assert_eq!(command, Some(Command::Synchronize));
    assert!(!stage.is_finished());
    assert_eq!(stage.clone().outcome(), None);

    let (stage, command) = stage.advance(Reply::Synchronized(104));
    assert_eq!(stage, Stage::Done(Receipt { transaction: transaction(), height: 104 }));
    assert_eq!(command, None);
    assert!(stage.is_finished());
    assert_eq!(stage.outcome(), Some(Ok(Receipt { transaction: transaction(), height: 104 })));
}

#[test]
fn rejection_is_reported_in_the_ledgers_words() {
    let words = "note script failed: the vault note is locked until its deadline".to_string();
    let (stage, command) =
        Stage::AwaitingLedger(request()).advance(Reply::Rejected(words.clone()));
    assert_eq!(command, None);
    assert!(stage.is_finished());
    assert_eq!(stage.outcome(), Some(Err(SubmissionError::SubmissionRejected(words))));
}

#[test]
fn transport_failure_is_a_network_error() {
    let words = "connection refused".to_string();
    let (stage, command) =
        Stage::AwaitingLedger(request()).advance(Reply::TransportFailed(words.clone()));
    assert_eq!(command, None);
    assert_eq!(stage.outcome(), Some(Err(SubmissionError::NetworkError(words))));
}

#[test]
fn failed_synchronization_ends_the_submission() {
    let words = "store is locked".to_string();
    let (stage, command) =
        Stage::AwaitingSync(transaction()).advance(Reply::SynchronizationFailed(words.clone()));
    assert_eq!(command, None);
    assert_eq!(stage.outcome(), Some(Err(SubmissionError::SynchronizationError(words))));
}

#[test]
fn replies_out_of_turn_change_nothing() {
    let waiting = Stage::AwaitingLedger(request());
    for reply in [Reply::Synchronized(7), Reply::SynchronizationFailed("late".to_string())] {
        assert_eq!(waiting.clone().advance(reply), (waiting.clone(), None));
    }
    let syncing = Stage::AwaitingSync(transaction());
    for reply in [
        Reply::Accepted(Word::new(0, 0, 0, 0)),
        Reply::Rejected("late".to_string()),
        Reply::TransportFailed("late".to_string()),
    ] {
        assert_eq!(syncing.clone().advance(reply), (syncing.clone(), None));
    }
}

#[test]
fn finished_submission_is_never_resubmitted() {
    let done = Stage::Done(Receipt { transaction: transaction(), height: 104 });
    let failed = Stage::Failed(SubmissionError::SubmissionRejected("no".to_string()));
    for stage in [done, failed] {
        for reply in [
            Reply::Accepted(transaction()),
            Reply::Rejected("again".to_string()),
            Reply::TransportFailed("again".to_string()),
            Reply::Synchronized(9),
            Reply::SynchronizationFailed("again".to_string()),
        ] {
            assert_eq!(stage.clone().advance(reply), (stage.clone(), None));
        }
    }
}

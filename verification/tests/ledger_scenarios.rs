use inheritance_vault::asset::{Asset, Faucet, MAX_AMOUNT};
use inheritance_vault::identity::AccountId;
use inheritance_vault::ledger::{LedgerRefusal, LedgerView};
use inheritance_vault::note::{Note, NoteTerms};
use inheritance_vault::script::CompiledScript;
use inheritance_vault::word::Word;

const VAULT_SCRIPT: &str = "
use.miden::account
use.miden::note
use.miden::tx
use.miden::contracts::wallets::basic->wallet

const.ERR_WRONG_NUMBER_OF_INPUTS=\"the vault note expects exactly 3 note inputs\"
const.ERR_NOT_BENEFICIARY=\"the vault note yields to its beneficiary only\"
const.ERR_DEADLINE_NOT_REACHED=\"the vault note is locked until its deadline\"

proc.add_note_assets_to_account
    push.0 exec.note::get_assets
    mul.4 dup.1 add
    padw movup.5
    dup dup.6 neq
    while.true
        dup movdn.5
        mem_loadw
        padw swapw padw padw swapdw
        call.wallet::receive_asset
        dropw dropw dropw
        movup.4 add.4 dup dup.6 neq
    end
    drop dropw drop
end

begin
    push.0 exec.note::get_inputs
    eq.3 assert.err=ERR_WRONG_NUMBER_OF_INPUTS
    padw movup.4 mem_loadw drop
    exec.account::get_id
    exec.account::is_id_equal assert.err=ERR_NOT_BENEFICIARY
    exec.tx::get_block_number
    u32assert2 u32lte assert.err=ERR_DEADLINE_NOT_REACHED
    exec.add_note_assets_to_account
end
";

fn owner() -> AccountId {
    AccountId::new(0x0102_0304_0506_0710, 0x0000_1112_1314_1500)
}

fn beneficiary() -> AccountId {
    AccountId::new(0x2122_2324_2526_2710, 0x0000_3132_3334_3500)
}

fn stranger() -> AccountId {
    AccountId::new(0x6162_6364_6566_6710, 0x0000_7172_7374_7500)
}

fn faucet() -> Faucet {
    Faucet { id: AccountId::new(0x4142_4344_4546_4720, 0x0000_5152_5354_5500), max_supply: 1_000_000 }
}

/// The ledger at height 100, the owner holding the faucet's whole supply, and a note of 10
/// units with its deadline three blocks ahead.
fn funded_ledger_and_note() -> (LedgerView, Note) {
    let mut ledger = LedgerView::new(100);
    let minted = faucet().asset(1_000_000).expect("the whole supply can be issued");
    assert_eq!(ledger.credit(owner(), minted), Ok(()));
    let script = CompiledScript::compile(VAULT_SCRIPT).expect("the script assembles");
    let terms = NoteTerms {
        sender: owner(),
        faucet: faucet(),
        amount: 10,
        beneficiary: beneficiary(),
        deadline: ledger.height() as u64 + 3,
    };
    let note = Note::build(&terms, ledger.height(), Word::new(9, 8, 7, 6), &script)
        .expect("the terms are valid");
    (ledger, note)
}

#[test]
fn beneficiary_consumes_after_the_deadline_and_not_before() {
    let (mut ledger, note) = funded_ledger_and_note();
    let id = note.note_id();
    assert_eq!(ledger.emit(note), Ok(()));
    assert_eq!(ledger.balance(&owner(), &faucet().id), 999_990);
    assert_eq!(ledger.balance(&beneficiary(), &faucet().id), 0);

    assert_eq!(ledger.consume(&id, beneficiary()), Err(LedgerRefusal::DeadlineNotReached));
    assert_eq!(ledger.balance(&beneficiary(), &faucet().id), 0);
    assert!(!ledger.is_spent(&id));

    ledger.advance_to(104);
    assert_eq!(ledger.height(), 104);
    assert_eq!(
        ledger.consume(&id, beneficiary()),
        Ok(Asset { faucet: faucet().id, amount: 10 })
    );
    assert_eq!(ledger.balance(&beneficiary(), &faucet().id), 10);
    assert_eq!(ledger.balance(&owner(), &faucet().id), 999_990);
    assert!(ledger.is_spent(&id));
}

#[test]
fn owner_is_refused_after_the_deadline() {
    let (mut ledger, note) = funded_ledger_and_note();
    let id = note.note_id();
    assert_eq!(ledger.emit(note), Ok(()));
    ledger.advance_to(104);
    assert_eq!(ledger.consume(&id, owner()), Err(LedgerRefusal::NotBeneficiary));
    assert_eq!(ledger.balance(&owner(), &faucet().id), 999_990);
    assert_eq!(ledger.balance(&beneficiary(), &faucet().id), 0);
    assert!(!ledger.is_spent(&id));
    assert_eq!(
        ledger.consume(&id, beneficiary()),
        Ok(Asset { faucet: faucet().id, amount: 10 })
    );
}

#[test]
fn consumption_at_the_deadline_height_itself_succeeds() {
    let (mut ledger, note) = funded_ledger_and_note();
    let id = note.note_id();
    assert_eq!(ledger.emit(note), Ok(()));
    ledger.advance_to(102);
    assert_eq!(ledger.consume(&id, beneficiary()), Err(LedgerRefusal::DeadlineNotReached));
    ledger.advance_to(103);
    assert_eq!(
        ledger.consume(&id, beneficiary()),
        Ok(Asset { faucet: faucet().id, amount: 10 })
    );
}

#[test]
fn locked_note_refuses_every_account() {
    let (mut ledger, note) = funded_ledger_and_note();
    let id = note.note_id();
    assert_eq!(ledger.emit(note), Ok(()));
    for consumer in [owner(), beneficiary(), stranger(), faucet().id] {
        assert_eq!(ledger.consume(&id, consumer), Err(LedgerRefusal::DeadlineNotReached));
    }
}

#[test]
fn stranger_is_refused_at_and_after_the_deadline() {
    let (mut ledger, note) = funded_ledger_and_note();
    let id = note.note_id();
    assert_eq!(ledger.emit(note), Ok(()));
    for height in [103, 104, 5_000] {
        ledger.advance_to(height);
        assert_eq!(ledger.consume(&id, stranger()), Err(LedgerRefusal::NotBeneficiary));
        assert_eq!(ledger.consume(&id, faucet().id), Err(LedgerRefusal::NotBeneficiary));
    }
}

#[test]
fn note_is_consumed_exactly_once() {
    let (mut ledger, note) = funded_ledger_and_note();
    let id = note.note_id();
    assert_eq!(ledger.emit(note), Ok(()));
    ledger.advance_to(110);
    assert!(ledger.consume(&id, beneficiary()).is_ok());
    assert_eq!(ledger.consume(&id, beneficiary()), Err(LedgerRefusal::AlreadySpent));
    assert_eq!(ledger.consume(&id, owner()), Err(LedgerRefusal::AlreadySpent));
    ledger.advance_to(120);
    assert_eq!(ledger.consume(&id, beneficiary()), Err(LedgerRefusal::AlreadySpent));
    assert_eq!(ledger.balance(&beneficiary(), &faucet().id), 10);
}

#[test]
fn lookup_by_identifier_returns_the_note_as_built() {
    let (mut ledger, note) = funded_ledger_and_note();
    let id = note.note_id();
    let asset = note.note_asset();
    let metadata = note.note_metadata();
    let condition = note.note_condition();
    let serial = note.serial_number();
    let recipient = note.recipient_digest();
    let text = id.to_hex().expect("an identifier is canonical");
    assert_eq!(ledger.emit(note), Ok(()));

    let by_id = ledger.find_note(&id).expect("the note was emitted");
    assert_eq!(by_id.note_id(), id);
    assert_eq!(by_id.note_asset(), asset);
    assert_eq!(by_id.note_metadata(), metadata);
    assert_eq!(by_id.note_condition(), condition);
    assert_eq!(by_id.serial_number(), serial);
    assert_eq!(by_id.recipient_digest(), recipient);

    let by_text = ledger.find_note_by_hex(&text).expect("the text names the note");
    assert_eq!(by_text.note_id(), id);
    assert_eq!(by_text.note_asset(), Asset { faucet: faucet().id, amount: 10 });
    assert_eq!(by_text.note_metadata().sender, owner());

    ledger.advance_to(200);
    assert!(ledger.consume(&id, beneficiary()).is_ok());
    let after = ledger.find_note(&id).expect("a consumed note is still on record");
    assert_eq!(after.note_asset(), asset);
    assert_eq!(after.note_metadata(), metadata);
}

#[test]
fn lookup_of_an_unknown_identifier_finds_nothing() {
    let (mut ledger, note) = funded_ledger_and_note();
    let id = note.note_id();
    assert!(ledger.find_note(&id).is_none());
    assert_eq!(ledger.consume(&id, beneficiary()), Err(LedgerRefusal::UnknownNote));
    assert_eq!(ledger.emit(note), Ok(()));
    assert!(ledger.find_note(&Word::new(1, 1, 1, 1)).is_none());
    assert!(ledger.find_note_by_hex("not an identifier").is_none());
    assert!(ledger
        .find_note_by_hex("0x0100000000000000010000000000000001000000000000000100000000000000")
        .is_none());
    assert_eq!(ledger.consume(&Word::new(1, 1, 1, 1), beneficiary()), Err(LedgerRefusal::UnknownNote));
}

#[test]
fn unbacked_note_is_not_emitted() {
    let (_, note) = funded_ledger_and_note();
    let mut empty = LedgerView::new(100);
    let id = note.note_id();
    assert_eq!(empty.emit(note.duplicate()), Err(LedgerRefusal::InsufficientBalance));
    assert!(empty.find_note(&id).is_none());
    let nine = Asset { faucet: faucet().id, amount: 9 };
    assert_eq!(empty.credit(owner(), nine), Ok(()));
    assert_eq!(empty.emit(note.duplicate()), Err(LedgerRefusal::InsufficientBalance));
    assert_eq!(empty.balance(&owner(), &faucet().id), 9);
    let one = Asset { faucet: faucet().id, amount: 1 };
    assert_eq!(empty.credit(owner(), one), Ok(()));
    assert_eq!(empty.emit(note), Ok(()));
    assert_eq!(empty.balance(&owner(), &faucet().id), 0);
}

#[test]
fn note_is_not_emitted_twice() {
    let (mut ledger, note) = funded_ledger_and_note();
    assert_eq!(ledger.emit(note.duplicate()), Ok(()));
    assert_eq!(ledger.emit(note), Err(LedgerRefusal::DuplicateNote));
    assert_eq!(ledger.balance(&owner(), &faucet().id), 999_990);
}

#[test]
fn balance_never_exceeds_what_an_asset_can_hold() {
    let mut ledger = LedgerView::new(0);
    let most = Asset { faucet: faucet().id, amount: MAX_AMOUNT };
    assert_eq!(ledger.credit(owner(), most), Ok(()));
    let one = Asset { faucet: faucet().id, amount: 1 };
    assert_eq!(ledger.credit(owner(), one), Err(LedgerRefusal::AmountOverflow));
    assert_eq!(ledger.balance(&owner(), &faucet().id), MAX_AMOUNT);
    let all = Asset { faucet: faucet().id, amount: u64::MAX };
    assert_eq!(ledger.credit(beneficiary(), all), Err(LedgerRefusal::AmountOverflow));
    assert_eq!(ledger.balance(&beneficiary(), &faucet().id), 0);
}

#[test]
fn consumption_that_would_overflow_is_refused() {
    let (mut ledger, note) = funded_ledger_and_note();
    let id = note.note_id();
    assert_eq!(ledger.emit(note), Ok(()));
    let nearly = Asset { faucet: faucet().id, amount: MAX_AMOUNT - 9 };
    assert_eq!(ledger.credit(beneficiary(), nearly), Ok(()));
    ledger.advance_to(103);
    assert_eq!(ledger.consume(&id, beneficiary()), Err(LedgerRefusal::AmountOverflow));
    assert!(!ledger.is_spent(&id));
}

#[test]
fn balances_are_kept_by_account_and_by_token() {
    let mut ledger = LedgerView::new(0);
    let other = AccountId::new(0x8182_8384_8586_8720, 0x0000_9192_9394_9500);
    assert_eq!(ledger.credit(owner(), Asset { faucet: faucet().id, amount: 5 }), Ok(()));
    assert_eq!(ledger.credit(owner(), Asset { faucet: other, amount: 7 }), Ok(()));
    assert_eq!(ledger.credit(beneficiary(), Asset { faucet: faucet().id, amount: 11 }), Ok(()));
    assert_eq!(ledger.credit(owner(), Asset { faucet: faucet().id, amount: 1 }), Ok(()));
    assert_eq!(ledger.balance(&owner(), &faucet().id), 6);
    assert_eq!(ledger.balance(&owner(), &other), 7);
    assert_eq!(ledger.balance(&beneficiary(), &faucet().id), 11);
    assert_eq!(ledger.balance(&beneficiary(), &other), 0);
}

#[test]
fn view_never_goes_back_to_a_lower_height() {
    let mut ledger = LedgerView::new(100);
    ledger.advance_to(90);
    assert_eq!(ledger.height(), 100);
    ledger.advance_to(100);
    assert_eq!(ledger.height(), 100);
    ledger.advance_to(101);
    assert_eq!(ledger.height(), 101);
}

use inheritance_vault::condition::{
    Condition, ConsumptionPredicate, Context, LockState, Refusal, INPUT_COUNT,
};
use inheritance_vault::identity::AccountId;

fn owner() -> AccountId {
    AccountId::new(0x0102_0304_0506_0710, 0x0000_1112_1314_1500)
}

fn beneficiary() -> AccountId {
    AccountId::new(0x2122_2324_2526_2710, 0x0000_3132_3334_3500)
}

fn condition() -> Condition {
    Condition::new(103, beneficiary())
}

#[test]
fn note_is_locked_below_the_deadline() {
    let c = condition();
    assert_eq!(c.lock_state(0), LockState::Locked);
    assert_eq!(c.lock_state(102), LockState::Locked);
    assert_eq!(c.lock_state(103), LockState::Releasable);
    assert_eq!(c.lock_state(104), LockState::Releasable);
    assert_eq!(c.lock_state(u32::MAX), LockState::Releasable);
}

#[test]
fn locked_note_accepts_no_consumer() {
    let c = condition();
    for consumer in [beneficiary(), owner(), AccountId::new(0, 0)] {
        let ctx = Context { height: 102, consumer };
        assert!(!c.evaluate(&ctx));
        assert_eq!(c.verdict(&ctx), Err(Refusal::DeadlineNotReached));
    }
}

#[test]
fn releasable_note_accepts_the_beneficiary_only() {
    let c = condition();
    for height in [103, 104, 1_000_000, u32::MAX] {
        let by_beneficiary = Context { height, consumer: beneficiary() };
        assert!(c.evaluate(&by_beneficiary));
        assert_eq!(c.verdict(&by_beneficiary), Ok(()));
        let by_owner = Context { height, consumer: owner() };
        assert!(!c.evaluate(&by_owner));
        assert_eq!(c.verdict(&by_owner), Err(Refusal::NotBeneficiary));
    }
}

#[test]
fn identity_check_compares_both_parts() {
    let c = condition();
    let same_prefix = AccountId::new(beneficiary().prefix, owner().suffix);
    let same_suffix = AccountId::new(owner().prefix, beneficiary().suffix);
    for consumer in [same_prefix, same_suffix] {
        let ctx = Context { height: 200, consumer };
        assert!(!c.evaluate(&ctx));
        assert_eq!(c.verdict(&ctx), Err(Refusal::NotBeneficiary));
    }
}

#[test]
fn deadline_beyond_the_chain_never_releases() {
    let c = Condition::new(u32::MAX as u64 + 1, beneficiary());
    assert_eq!(c.lock_state(u32::MAX), LockState::Locked);
    assert!(!c.evaluate(&Context { height: u32::MAX, consumer: beneficiary() }));
}

#[test]
fn deadline_zero_is_releasable_from_the_start() {
    let c = Condition::new(0, beneficiary());
    assert_eq!(c.lock_state(0), LockState::Releasable);
    assert!(c.evaluate(&Context { height: 0, consumer: beneficiary() }));
}

#[test]
fn inputs_are_deadline_suffix_prefix() {
    let c = condition();
    assert_eq!(INPUT_COUNT, 3);
    assert_eq!(c.encode(), vec![103, 0x0000_3132_3334_3500, 0x2122_2324_2526_2710]);
}

#[test]
fn decode_reads_the_positional_layout() {
    let values = [7u64, 0x300, 0x10];
    assert_eq!(
        Condition::decode(&values),
        Some(Condition { deadline: 7, beneficiary: AccountId { prefix: 0x10, suffix: 0x300 } })
    );
    assert_eq!(Condition::decode(&condition().encode()), Some(condition()));
}

#[test]
fn decode_refuses_any_other_number_of_inputs() {
    assert_eq!(Condition::decode(&[]), None);
    assert_eq!(Condition::decode(&[1, 2]), None);
    assert_eq!(Condition::decode(&[1, 2, 3, 4]), None);
}

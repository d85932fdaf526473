use inheritance_vault::identity::AccountId;
use inheritance_vault::serial::draw_serial_number;
use inheritance_vault::word::{Word, MODULUS};

use miden_client::crypto::{FeltRng, RpoRandomCoin};
use miden_client::ClientRng;
use miden_objects::asset::FungibleAsset;
use miden_objects::{Digest, Felt, StarkField};

fn ledger_accepts(prefix: u64, suffix: u64) -> bool {
    let (Ok(p), Ok(s)) = (Felt::try_from(prefix), Felt::try_from(suffix)) else {
        return false;
    };
    miden_objects::account::AccountId::try_from([p, s]).is_ok()
}

fn ledger_faucet(prefix: u64, suffix: u64) -> bool {
    let id = miden_objects::account::AccountId::try_from([Felt::new(prefix), Felt::new(suffix)])
        .expect("a well-formed identifier");
    FungibleAsset::new(id, 1).is_ok()
}

fn next(state: &mut u64) -> u64 {
    *state = state.wrapping_mul(6364136223846793005).wrapping_add(1442695040888963407);
    *state ^ (*state >> 29)
}

#[test]
fn modulus_is_the_ledgers() {
    assert_eq!(MODULUS, Felt::MODULUS);
    assert_eq!(MODULUS, 18446744069414584321);
}

#[test]
fn well_formed_identifier_is_accepted() {
    let id = AccountId::new(0x0102_0304_0506_0710, 0x0000_1112_1314_1500);
    assert!(id.check_well_formed());
    assert!(ledger_accepts(id.prefix, id.suffix));
    assert!(!id.check_fungible_faucet());
    assert!(!ledger_faucet(id.prefix, id.suffix));
}

#[test]
fn identifier_with_unknown_version_is_refused() {
    let id = AccountId::new(0x0102_0304_0506_0711, 0x0000_1112_1314_1500);
    assert!(!id.check_well_formed());
    assert!(!ledger_accepts(id.prefix, id.suffix));
}

#[test]
fn identifier_with_unknown_storage_mode_is_refused() {
    let id = AccountId::new(0x0102_0304_0506_07d0, 0x0000_1112_1314_1500);
    assert!(!id.check_well_formed());
    assert!(!ledger_accepts(id.prefix, id.suffix));
    let private = AccountId::new(0x0102_0304_0506_0790, 0x0000_1112_1314_1500);
    assert!(private.check_well_formed());
    assert!(ledger_accepts(private.prefix, private.suffix));
}

#[test]
fn identifier_with_full_epoch_is_refused() {
    let id = AccountId::new(0x0102_0304_0506_0710, 0xffff_0000_1314_1500);
    assert!(!id.check_well_formed());
    assert!(!ledger_accepts(id.prefix, id.suffix));
    let below = AccountId::new(0x0102_0304_0506_0710, 0xfffe_ffff_1314_1500);
    assert!(below.check_well_formed());
    assert!(ledger_accepts(below.prefix, below.suffix));
}

#[test]
fn identifier_with_low_suffix_byte_is_refused() {
    let id = AccountId::new(0x0102_0304_0506_0710, 0x0000_1112_1314_1501);
    assert!(!id.check_well_formed());
    assert!(!ledger_accepts(id.prefix, id.suffix));
}

#[test]
fn identifier_outside_the_field_is_refused() {
    let id = AccountId::new(0xffff_ffff_0000_0010, 0x0000_1112_1314_1500);
    assert!(id.prefix >= MODULUS);
    assert!(!id.check_well_formed());
    assert!(!ledger_accepts(id.prefix, id.suffix));
    let largest = AccountId::new(0xffff_ffff_0000_0000, 0x0000_1112_1314_1500);
    assert!(largest.check_well_formed());
    assert!(ledger_accepts(largest.prefix, largest.suffix));
}

#[test]
fn faucet_bits_are_read_as_the_ledger_reads_them() {
    for (low, faucet) in [(0x00u64, false), (0x10, false), (0x20, true), (0x30, false)] {
        let id = AccountId::new(0x4142_4344_4546_4700 | low, 0x0000_5152_5354_5500);
        assert!(id.check_well_formed());
        assert_eq!(id.check_fungible_faucet(), faucet);
        assert_eq!(ledger_faucet(id.prefix, id.suffix), faucet);
    }
}

#[test]
fn identifier_checks_agree_with_the_ledger_on_many_values() {
    let mut state = 0x1234_5678_9abc_def0u64;
    let mut accepted = 0;
    for round in 0..4000u32 {
        let mut prefix = next(&mut state);
        let mut suffix = next(&mut state);
        if round % 2 == 0 {
            suffix &= 0xffff_ffff_ffff_ff00;
        }
        if round % 3 != 0 {
            prefix &= 0xffff_ffff_ffff_fff0;
        }
        if round % 5 == 0 {
            suffix |= 0xffff_0000_0000_0000;
        }
        if round % 7 == 0 {
            prefix |= 0xffff_ffff_0000_0000;
        }
        let id = AccountId::new(prefix, suffix);
        let expected = ledger_accepts(prefix, suffix);
        assert_eq!(id.check_well_formed(), expected, "{prefix:#x} {suffix:#x}");
        if expected {
            accepted += 1;
            assert_eq!(id.check_fungible_faucet(), ledger_faucet(prefix, suffix));
        }
    }
    assert!(accepted > 100);
}

#[test]
fn same_as_compares_both_parts() {
    let id = AccountId::new(0x10, 0x100);
    assert!(id.same_as(&AccountId::new(0x10, 0x100)));
    assert!(!id.same_as(&AccountId::new(0x10, 0x200)));
    assert!(!id.same_as(&AccountId::new(0x20, 0x100)));
}

#[test]
fn word_text_is_the_ledgers() {
    let word = Word::new(1, 2, 3, 4);
    let text = word.to_hex().expect("a canonical word");
    assert_eq!(text, "0x0100000000000000020000000000000003000000000000000400000000000000");
    let digest = Digest::new([Felt::new(1), Felt::new(2), Felt::new(3), Felt::new(4)]);
    assert_eq!(text, digest.to_hex());
}

#[test]
fn word_text_round_trips() {
    let word = Word::new(0xffff_ffff_0000_0000, 0, 0x0123_4567_89ab_cdef, 42);
    assert!(word.is_canonical());
    let text = word.to_hex().unwrap();
    assert_eq!(Word::from_hex(&text), Some(word));
    assert_eq!(Word::from_hex(&text.to_uppercase().replace("0X", "0x")), Some(word));
}

#[test]
fn word_outside_the_field_has_no_text() {
    let word = Word::new(MODULUS, 0, 0, 0);
    assert!(!word.is_canonical());
    assert_eq!(word.to_hex(), None);
    assert!(!Word::new(0, 0, 0, u64::MAX).is_canonical());
    assert!(!Word::new(0, u64::MAX, 0, 0).is_canonical());
    assert!(!Word::new(0, 0, MODULUS, 0).is_canonical());
}

#[test]
fn malformed_text_is_not_a_word() {
    let good = "0x0100000000000000020000000000000003000000000000000400000000000000";
    assert!(Word::from_hex(good).is_some());
    assert_eq!(Word::from_hex(&good[2..]), None);
    assert_eq!(Word::from_hex(&good[..good.len() - 2]), None);
    assert_eq!(Word::from_hex(&good.replace("03", "0g")), None);
    assert_eq!(Word::from_hex(""), None);
    let out_of_range = "0x010000000000000002000000000000000300000000000000ffffffffffffffff";
    assert_eq!(Word::from_hex(out_of_range), None);
    assert!(Digest::try_from(out_of_range).is_err());
}

#[test]
fn word_array_conversions_keep_the_order() {
    let word = Word::new(5, 6, 7, 8);
    assert_eq!(word.to_array(), [5, 6, 7, 8]);
    assert_eq!(Word::from_array([5, 6, 7, 8]), word);
}

#[test]
fn serial_numbers_come_from_the_given_source() {
    let seed = [Felt::new(11), Felt::new(12), Felt::new(13), Felt::new(14)];
    let mut direct = RpoRandomCoin::new(seed);
    let mut rng = ClientRng::new(Box::new(RpoRandomCoin::new(seed)));
    let first = draw_serial_number(&mut rng);
    let second = draw_serial_number(&mut rng);
    let expected_first = direct.draw_word();
    let expected_second = direct.draw_word();
    assert_eq!(first.to_array(), expected_first.map(|e| e.as_int()));
    assert_eq!(second.to_array(), expected_second.map(|e| e.as_int()));
    assert_ne!(first, second);
    assert_ne!(first, Word::new(11, 12, 13, 14));
    assert!(first.is_canonical() && second.is_canonical());
}

#[test]
fn printed_word_is_read_back_for_many_values() {
    let mut state = 0x0fed_cba9_8765_4321u64;
    for _ in 0..500 {
        let word = Word::new(
            next(&mut state) % MODULUS,
            next(&mut state) % MODULUS,
            next(&mut state) % MODULUS,
            next(&mut state) % MODULUS,
        );
        let text = word.to_hex().expect("a canonical word");
        assert_eq!(text.len(), 66);
        assert!(text.starts_with("0x"));
        assert!(text[2..].chars().all(|c| c.is_ascii_digit() || ('a'..='f').contains(&c)));
        assert_eq!(Word::from_hex(&text), Some(word));
    }
    let edge = Word::new(MODULUS - 1, 0, MODULUS - 1, 1);
    assert_eq!(Word::from_hex(&edge.to_hex().unwrap()), Some(edge));
}

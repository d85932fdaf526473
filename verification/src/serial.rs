//! Serial numbers, drawn from the ledger client's random source.
//!
//! The serial number is what keeps two notes with the same content apart. The builder takes it as
//! an argument, so a caller can also supply a sequence of its own.

use vstd::prelude::*;
use crate::error::ConstructionError;
use crate::note::{Note, NoteTerms};
use crate::script::CompiledScript;
use crate::word::{Word, MODULUS};
use miden_client::crypto::FeltRng;
use miden_client::ClientRng;

verus! {

/// The ledger client's random source, carried through as an opaque value.
#[verifier::external_type_specification]
#[verifier::external_body]
pub struct ExClientRng(miden_client::ClientRng);

/// Calls `FeltRng::draw_word`. Nothing is known of the word drawn but that its elements are
/// canonical, as `Felt::as_int` returns them.
#[verifier::external_body]
fn draw_word(rng: &mut ClientRng) -> (elements: [u64; 4])
    ensures
        forall|i: int| 0 <= i < 4 ==> elements@[i] < MODULUS,
{
    rng.draw_word().map(|element| element.as_int())
}

/// Draws a fresh serial number.
pub fn draw_serial_number(rng: &mut ClientRng) -> (serial: Word)
    ensures
        serial.canonical(),
{
    Word::from_array(draw_word(rng))
}

/// Builds the vault note for `terms` with a serial number drawn from `rng`.
///
/// A number is drawn whether or not the terms are acceptable. The outcome is that of
/// [`Note::build`] for the number drawn.
pub fn build_fresh(
    terms: &NoteTerms,
    current_height: u32,
    rng: &mut ClientRng,
    script: &CompiledScript,
) -> (r: Result<Note, ConstructionError>)
    ensures
        match terms.refusal(current_height) {
            Some(e) => r == Err::<Note, ConstructionError>(e),
            None => r is Ok && r->Ok_0.serial().canonical() && r->Ok_0.built_from(
                *terms,
                r->Ok_0.serial(),
                *script,
            ),
        },
{
    let serial = draw_serial_number(rng);
    Note::build(terms, current_height, serial, script)
}

} // verus!

//! Field elements and four-element words, held as plain integers.

use vstd::prelude::*;
use miden_objects::{Digest, Felt};

verus! {

/// The modulus of the ledger's base field, `2^64 - 2^32 + 1`.
pub const MODULUS: u64 = 0xffff_ffff_0000_0001;

/// True when `value` is the canonical representative of a field element.
pub open spec fn is_felt(value: u64) -> bool {
    value < MODULUS
}

/// The text that the ledger prints for a digest: `0x` and sixty-four hexadecimal digits.
pub uninterp spec fn hex_of_word(elements: Seq<u64>) -> Seq<char>;

/// The digest that a text stands for, or `None` where the ledger does not read it as one.
pub uninterp spec fn word_of_hex(text: Seq<char>) -> Option<Seq<u64>>;

/// Calls `Digest::to_hex` on the digest with these canonical elements. The text is `0x` and
/// two lower-case hexadecimal digits for each of the 32 bytes, each element with its low byte
/// first. `Digest::try_from` reads exactly such a text back into the same elements, which is
/// the second clause.
#[verifier::external_body]
fn digest_to_hex(elements: [u64; 4]) -> (text: String)
    requires
        forall|i: int| 0 <= i < 4 ==> elements@[i] < MODULUS,
    ensures
        text@ == hex_of_word(elements@),
        word_of_hex(text@) == Some(elements@),
{
    Digest::new(elements.map(Felt::new)).to_hex()
}

/// Calls `Digest::try_from` on the text. A digest that is read has canonical elements: the
/// conversion refuses any element at or above the modulus.
#[verifier::external_body]
fn digest_from_hex(text: &str) -> (r: Option<[u64; 4]>)
    ensures
        r.is_some() == word_of_hex(text@).is_some(),
        r.is_some() ==> r.unwrap()@ == word_of_hex(text@).unwrap(),
        r.is_some() ==> forall|i: int| 0 <= i < 4 ==> r.unwrap()@[i] < MODULUS,
{
    match Digest::try_from(text) {
        Ok(digest) => Some(digest.into()),
        Err(_) => None,
    }
}

/// Four field elements: a serial number, a digest or an identifier.
#[derive(Clone, Copy, Debug, PartialEq, Eq, Structural)]
pub struct Word {
    pub e0: u64,
    pub e1: u64,
    pub e2: u64,
    pub e3: u64,
}

impl View for Word {
    type V = Seq<u64>;

    open spec fn view(&self) -> Seq<u64> {
        seq![self.e0, self.e1, self.e2, self.e3]
    }
}

impl Word {
    /// Every element is a canonical field element.
    pub open spec fn canonical(&self) -> bool {
        &&& is_felt(self.e0)
        &&& is_felt(self.e1)
        &&& is_felt(self.e2)
        &&& is_felt(self.e3)
    }

    /// The word made of the first four elements of a sequence.
    pub open spec fn of(elements: Seq<u64>) -> Word {
        Word { e0: elements[0], e1: elements[1], e2: elements[2], e3: elements[3] }
    }

    pub fn new(e0: u64, e1: u64, e2: u64, e3: u64) -> (w: Word)
        ensures
            w == (Word { e0, e1, e2, e3 }),
    {
        Word { e0, e1, e2, e3 }
    }

    /// The elements as an array, first element first.
    pub fn to_array(&self) -> (a: [u64; 4])
        ensures
            a@ == self@,
    {
        let a = [self.e0, self.e1, self.e2, self.e3];
        a
    }

    /// The word with the elements of `a`.
    pub fn from_array(a: [u64; 4]) -> (w: Word)
        ensures
            w@ == a@,
            w == Word::of(a@),
    {
        let w = Word { e0: a[0], e1: a[1], e2: a[2], e3: a[3] };
        w
    }

    pub fn is_canonical(&self) -> (ok: bool)
        ensures
            ok == self.canonical(),
    {
        self.e0 < MODULUS && self.e1 < MODULUS && self.e2 < MODULUS && self.e3 < MODULUS
    }

    /// The ledger's text for this word. Only a canonical word has one, and the text is read
    /// back as the same word.
    pub fn to_hex(&self) -> (r: Option<String>)
        ensures
            self.canonical() ==> r is Some && r->Some_0@ == hex_of_word(self@),
            self.canonical() ==> word_of_hex(r->Some_0@) == Some(self@),
            !self.canonical() ==> r is None,
    {
        if self.is_canonical() {
            Some(digest_to_hex(self.to_array()))
        } else {
            None
        }
    }

    /// Reads a word from the ledger's text for it.
    pub fn from_hex(text: &str) -> (r: Option<Word>)
        ensures
            match word_of_hex(text@) {
                Some(elements) => r == Some(Word::of(elements)) && r->Some_0@ == elements
                    && r->Some_0.canonical(),
                None => r is None,
            },
    {
        match digest_from_hex(text) {
            Some(elements) => Some(Word::from_array(elements)),
            None => None,
        }
    }

    /// Two words with the same elements are the same word.
    pub proof fn lemma_view_injective(a: Word, b: Word)
        requires
            a@ == b@,
        ensures
            a == b,
    {
    }
}

} // verus!

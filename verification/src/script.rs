//! The condition script as a compiled artifact.
//!
//! The script is compiled once and then carried as the bytes of the serialized program, with the
//! root that identifies it. Its consumption rule is stated in [`crate::condition`].

use vstd::prelude::*;
use crate::error::ConstructionError;
use crate::word::{Word, MODULUS};
use miden_client::transaction::TransactionKernel;
use miden_objects::note::NoteScript;
use miden_objects::utils::serde::Serializable;

verus! {

/// The serialized program that the ledger's assembler produces for a note script source, or
/// `None` where the source does not assemble.
pub uninterp spec fn assembled_script(source: Seq<char>) -> Option<Seq<u8>>;

/// The root of the program that a serialized note script decodes to, or `None` where the bytes
/// are not a serialized note script.
pub uninterp spec fn script_root(bytes: Seq<u8>) -> Option<Seq<u64>>;

/// The longest source, in characters, that is handed to the assembler. A character takes at most
/// four bytes, so such a source stays below the 2^32 - 1 bytes at which the assembler stops.
pub const MAX_SOURCE_CHARS: usize = 0x3fff_ffff;

/// Calls `NoteScript::compile` with the transaction kernel's assembler in debug mode and
/// serializes the program. The assembler asserts that a source is shorter than 2^32 - 1 bytes,
/// so longer sources are left out. The contract only names the outcome: the same source gives
/// the same bytes, and assembly fails exactly where the name is `None`.
#[verifier::external_body]
fn assemble_note_script(source: &str) -> (r: Option<Vec<u8>>)
    requires
        source@.len() <= MAX_SOURCE_CHARS,
    ensures
        r.is_some() == assembled_script(source@).is_some(),
        r.is_some() ==> r.unwrap()@ == assembled_script(source@).unwrap(),
{
    let assembler = TransactionKernel::assembler().with_debug_mode(true);
    match NoteScript::compile(source, assembler) {
        Ok(script) => Some(script.to_bytes()),
        Err(_) => None,
    }
}

/// Calls `NoteScript::from_bytes` on the bytes of an assembled script, and `NoteScript::root`.
/// The contract names the outcome and adds that the root's elements are canonical, as
/// `Felt::as_int` returns them.
#[verifier::external_body]
fn decode_script_root(bytes: &[u8]) -> (r: Option<[u64; 4]>)
    requires
        exists|source: Seq<char>| #[trigger] assembled_script(source) == Some(bytes@),
    ensures
        r.is_some() == script_root(bytes@).is_some(),
        r.is_some() ==> r.unwrap()@ == script_root(bytes@).unwrap(),
        r.is_some() ==> forall|i: int| 0 <= i < 4 ==> r.unwrap()@[i] < MODULUS,
{
    match NoteScript::from_bytes(bytes) {
        Ok(script) => Some(script.root().into()),
        Err(_) => None,
    }
}

/// A compiled condition script: the serialized program and its root.
pub struct CompiledScript {
    bytes: Vec<u8>,
    root: Word,
}

impl CompiledScript {
    /// The serialized program.
    pub closed spec fn bytes(&self) -> Seq<u8> {
        self.bytes@
    }

    /// The root of the program.
    pub closed spec fn root(&self) -> Word {
        self.root
    }

    /// The bytes decode to a program whose root is the stored one.
    pub open spec fn wf(&self) -> bool {
        &&& script_root(self.bytes()) == Some(self.root()@)
        &&& self.root().canonical()
    }

    #[verifier::type_invariant]
    closed spec fn inv(&self) -> bool {
        self.wf()
    }

    /// What `compile` makes of a source: the assembled program where the source is no longer
    /// than [`MAX_SOURCE_CHARS`], assembles, and the program decodes again; a compilation error
    /// otherwise.
    pub open spec fn compiled_from(
        source: Seq<char>,
        r: Result<CompiledScript, ConstructionError>,
    ) -> bool {
        if source.len() <= MAX_SOURCE_CHARS && assembled_script(source) is Some && script_root(
            assembled_script(source).unwrap(),
        ) is Some {
            &&& r is Ok
            &&& r->Ok_0.bytes() == assembled_script(source).unwrap()
            &&& r->Ok_0.wf()
        } else {
            r == Err::<CompiledScript, ConstructionError>(ConstructionError::ScriptCompilation)
        }
    }

    /// Compiles the condition script against the ledger's execution environment. A source of
    /// more than [`MAX_SOURCE_CHARS`] characters is refused without being assembled.
    pub fn compile(source: &str) -> (r: Result<CompiledScript, ConstructionError>)
        ensures
            Self::compiled_from(source@, r),
    {
        if source.unicode_len() > MAX_SOURCE_CHARS {
            return Err(ConstructionError::ScriptCompilation);
        }
        match assemble_note_script(source) {
            Some(bytes) => match decode_script_root(bytes.as_slice()) {
                Some(root) => Ok(CompiledScript { bytes, root: Word::from_array(root) }),
                None => Err(ConstructionError::ScriptCompilation),
            },
            None => Err(ConstructionError::ScriptCompilation),
        }
    }

    /// A second copy of the same compiled script.
    pub fn duplicate(&self) -> (copy: CompiledScript)
        ensures
            copy.bytes() == self.bytes(),
            copy.root() == self.root(),
            copy.wf(),
    {
        proof {
            use_type_invariant(self);
        }
        CompiledScript { bytes: self.bytes.clone(), root: self.root }
    }

    pub fn root_word(&self) -> (w: Word)
        ensures
            w == self.root(),
            w.canonical(),
    {
        proof {
            use_type_invariant(self);
        }
        self.root
    }

    pub fn as_bytes(&self) -> (b: &[u8])
        ensures
            b@ == self.bytes(),
    {
        self.bytes.as_slice()
    }
}

} // verus!

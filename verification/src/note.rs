//! The note: an asset locked under the condition script, with its cryptographic identity.
//!
//! A note binds a serial number, the compiled script and the script's inputs into a recipient
//! digest, and the recipient with the asset into the note's identifier. Both digests are computed
//! by the ledger's object library; here they are equations over named hash results.

use vstd::prelude::*;
use crate::asset::{Asset, Faucet};
use crate::condition::Condition;
use crate::error::ConstructionError;
use crate::identity::AccountId;
use crate::script::{script_root, CompiledScript};
use crate::word::{Word, MODULUS};
use miden_objects::asset::FungibleAsset;
use miden_objects::note::{
    NoteAssets, NoteExecutionHint, NoteExecutionMode, NoteId, NoteInputs, NoteRecipient,
    NoteScript, NoteTag, NoteType,
};
use miden_objects::{Digest, Felt};

verus! {

/// The most inputs that the ledger lets a note carry.
pub const MAX_INPUTS: usize = 128;

/// Whether a note's details are published on the ledger.
#[derive(Clone, Copy, Debug, PartialEq, Eq, Structural)]
pub enum Visibility {
    Public,
    Private,
}

/// When the network may try to execute a note.
#[derive(Clone, Copy, Debug, PartialEq, Eq, Structural)]
pub enum ExecutionHint {
    /// At any time.
    Eager,
    /// Not known in advance.
    Deferred,
}

/// The public part of a note.
#[derive(Clone, Copy, Debug, PartialEq, Eq, Structural)]
pub struct NoteMetadata {
    pub sender: AccountId,
    pub visibility: Visibility,
    pub tag: u32,
    pub hint: ExecutionHint,
    pub aux: u64,
}

/// The digest that binds a serial number, a serialized script and the script's inputs.
pub uninterp spec fn recipient_digest_of(
    serial: Seq<u64>,
    script: Seq<u8>,
    inputs: Seq<u64>,
) -> Seq<u64>;

/// The identifier of a note with the given recipient digest that carries `amount` units of the
/// token of the faucet `(faucet_prefix, faucet_suffix)`.
pub uninterp spec fn note_id_of(
    recipient: Seq<u64>,
    faucet_prefix: u64,
    faucet_suffix: u64,
    amount: u64,
) -> Seq<u64>;

/// The discovery tag of a public use case for local execution: the high bits `10`, then the
/// fourteen bits of the use case, then the payload.
pub open spec fn public_use_case_tag_spec(use_case_id: u16, payload: u16) -> Option<u32> {
    if (use_case_id >> 14) != 0 {
        None
    } else {
        Some(0x8000_0000u32 | ((use_case_id as u32) << 16) | (payload as u32))
    }
}

/// Whether the ledger lets a note of this visibility carry this tag: a tag for network
/// execution, or for a public use case, asks for a public note.
pub open spec fn tag_admits(tag: u32, visibility: Visibility) -> bool {
    let for_network = (tag >> 31) != 1;
    let public_use_case = (tag & 0xc000_0000) == 0x8000_0000;
    !(for_network && visibility != Visibility::Public) && !(public_use_case && visibility
        != Visibility::Public)
}

/// Calls `NoteRecipient::new` on the script that the bytes decode to and on the inputs, and
/// reads its digest. The bytes are known to decode and there are at most 128 canonical inputs,
/// so no step fails. The digest is named and its elements are canonical.
#[verifier::external_body]
fn recipient_digest(serial: [u64; 4], script: &[u8], inputs: &Vec<u64>) -> (digest: [u64; 4])
    requires
        forall|i: int| 0 <= i < 4 ==> serial@[i] < MODULUS,
        script_root(script@).is_some(),
        inputs@.len() <= MAX_INPUTS,
        forall|i: int| 0 <= i < inputs@.len() ==> inputs@[i] < MODULUS,
    ensures
        digest@ == recipient_digest_of(serial@, script@, inputs@),
        forall|i: int| 0 <= i < 4 ==> digest@[i] < MODULUS,
{
    let script = NoteScript::from_bytes(script).unwrap();
    let values = inputs.iter().map(|v| Felt::new(*v)).collect();
    let inputs = NoteInputs::new(values).unwrap();
    NoteRecipient::new(serial.map(Felt::new), script, inputs).digest().into()
}

/// Calls `NoteId::new` on the recipient digest and the commitment of `NoteAssets::new` over the
/// one `FungibleAsset`. On a well-formed asset and a canonical digest none of the constructors
/// fails; the identifier is named and its elements are canonical.
#[verifier::external_body]
fn note_id(recipient: [u64; 4], asset: &Asset) -> (id: [u64; 4])
    requires
        forall|i: int| 0 <= i < 4 ==> recipient@[i] < MODULUS,
        asset.wf(),
    ensures
        id@ == note_id_of(recipient@, asset.faucet.prefix, asset.faucet.suffix, asset.amount),
        forall|i: int| 0 <= i < 4 ==> id@[i] < MODULUS,
{
    let parts = [asset.faucet.prefix, asset.faucet.suffix].map(Felt::new);
    let faucet = miden_objects::account::AccountId::try_from(parts).unwrap();
    let fungible = FungibleAsset::new(faucet, asset.amount).unwrap();
    let assets = NoteAssets::new(vec![fungible.into()]).unwrap();
    let recipient = Digest::new(recipient.map(Felt::new));
    NoteId::new(recipient, assets.commitment()).inner().into()
}

/// Calls `NoteTag::for_public_use_case` for local execution and returns the tag's bits.
#[verifier::external_body]
fn public_use_case_tag(use_case_id: u16, payload: u16) -> (r: Option<u32>)
    ensures
        r == public_use_case_tag_spec(use_case_id, payload),
{
    match NoteTag::for_public_use_case(use_case_id, payload, NoteExecutionMode::Local) {
        Ok(tag) => Some(tag.inner()),
        Err(_) => None,
    }
}

/// Calls `NoteMetadata::new` for a note that may execute at any time. The constructor checks
/// the tag against the note type and nothing else.
#[verifier::external_body]
fn ledger_admits(sender: &AccountId, visibility: Visibility, tag: u32, aux: u64) -> (ok: bool)
    requires
        sender.well_formed(),
        aux < MODULUS,
    ensures
        ok == tag_admits(tag, visibility),
{
    let parts = [sender.prefix, sender.suffix].map(Felt::new);
    let sender = miden_objects::account::AccountId::try_from(parts).unwrap();
    let note_type = match visibility {
        Visibility::Public => NoteType::Public,
        Visibility::Private => NoteType::Private,
    };
    let (hint, aux) = (NoteExecutionHint::always(), Felt::new(aux));
    miden_objects::note::NoteMetadata::new(sender, note_type, tag.into(), hint, aux).is_ok()
}

impl NoteMetadata {
    /// What the ledger asks of a note's metadata: a well-formed sender, an auxiliary value that
    /// is a field element, and a tag that suits the visibility.
    pub open spec fn acceptable(&self) -> bool {
        &&& self.sender.well_formed()
        &&& self.aux < MODULUS
        &&& tag_admits(self.tag, self.visibility)
    }

    /// Checks the metadata as the ledger would.
    pub fn validate(&self) -> (r: Result<(), ConstructionError>)
        ensures
            self.acceptable() ==> r is Ok,
            !self.acceptable() ==> r == Err::<(), ConstructionError>(
                ConstructionError::MalformedInputs,
            ),
    {
        if !self.sender.check_well_formed() || self.aux >= MODULUS {
            return Err(ConstructionError::MalformedInputs);
        }
        if ledger_admits(&self.sender, self.visibility, self.tag, self.aux) {
            Ok(())
        } else {
            Err(ConstructionError::MalformedInputs)
        }
    }
}

/// What the owner asks for: who sends, what is locked, for whom and until when.
#[derive(Clone, Copy, Debug, PartialEq, Eq, Structural)]
pub struct NoteTerms {
    pub sender: AccountId,
    pub faucet: Faucet,
    pub amount: u64,
    pub beneficiary: AccountId,
    pub deadline: u64,
}

impl NoteTerms {
    /// The asset that the note will carry.
    pub open spec fn asset(&self) -> Asset {
        Asset { faucet: self.faucet.id, amount: self.amount }
    }

    /// The condition that the note will carry.
    pub open spec fn condition(&self) -> Condition {
        Condition { deadline: self.deadline, beneficiary: self.beneficiary }
    }

    /// The first reason, if any, for which no note can be built on these terms when the ledger
    /// is at `current_height`. The asset is examined first: it must be a positive amount within
    /// the declared supply of a fungible faucet. Then the two identities must be well formed, and
    /// the deadline must lie strictly after the current height and be a field element.
    pub open spec fn refusal(&self, current_height: u32) -> Option<ConstructionError> {
        if !(self.faucet.wf() && self.faucet.can_issue(self.amount)) {
            Some(ConstructionError::InvalidAsset)
        } else if !self.sender.well_formed() || !self.beneficiary.well_formed() {
            Some(ConstructionError::MalformedInputs)
        } else if self.deadline <= current_height || self.deadline >= MODULUS {
            Some(ConstructionError::MalformedInputs)
        } else {
            None
        }
    }

    /// The first reason, if any, for which no note can be built on these terms with the serial
    /// number `serial`: that of the terms, or else a serial number that is not canonical.
    pub open spec fn rejection(&self, current_height: u32, serial: Word) -> Option<
        ConstructionError,
    > {
        if self.refusal(current_height) is Some {
            self.refusal(current_height)
        } else if !serial.canonical() {
            Some(ConstructionError::MalformedInputs)
        } else {
            None
        }
    }

    /// Checks the terms against the ledger's height and the drawn serial number.
    pub fn validate(&self, current_height: u32, serial: &Word) -> (r: Result<
        Asset,
        ConstructionError,
    >)
        ensures
            match self.rejection(current_height, *serial) {
                Some(e) => r == Err::<Asset, ConstructionError>(e),
                None => r == Ok::<Asset, ConstructionError>(self.asset()) && self.asset().wf(),
            },
    {
        let asset = match self.faucet.asset(self.amount) {
            Ok(asset) => asset,
            Err(e) => {
                return Err(e);
            },
        };
        if !self.sender.check_well_formed() || !self.beneficiary.check_well_formed() {
            return Err(ConstructionError::MalformedInputs);
        }
        if self.deadline <= current_height as u64 || self.deadline >= MODULUS {
            return Err(ConstructionError::MalformedInputs);
        }
        if !serial.is_canonical() {
            return Err(ConstructionError::MalformedInputs);
        }
        Ok(asset)
    }
}

/// The metadata that every vault note carries: public, tagged for the first public use case,
/// executable at any time, with no auxiliary value.
pub open spec fn vault_metadata(sender: AccountId) -> NoteMetadata {
    NoteMetadata {
        sender,
        visibility: Visibility::Public,
        tag: 0x8000_0000,
        hint: ExecutionHint::Eager,
        aux: 0,
    }
}

/// An asset locked under a condition, with the digests that identify it.
pub struct Note {
    metadata: NoteMetadata,
    asset: Asset,
    serial: Word,
    script: CompiledScript,
    condition: Condition,
    recipient: Word,
    id: Word,
}

impl Note {
    pub closed spec fn metadata(&self) -> NoteMetadata {
        self.metadata
    }

    pub closed spec fn asset(&self) -> Asset {
        self.asset
    }

    pub closed spec fn serial(&self) -> Word {
        self.serial
    }

    pub closed spec fn script(&self) -> CompiledScript {
        self.script
    }

    pub closed spec fn condition(&self) -> Condition {
        self.condition
    }

    pub closed spec fn recipient(&self) -> Word {
        self.recipient
    }

    pub closed spec fn id(&self) -> Word {
        self.id
    }

    /// The recipient digest binds the serial number, the script and the inputs, and the
    /// identifier binds the recipient and the asset.
    pub open spec fn wf(&self) -> bool {
        &&& self.recipient()@ == recipient_digest_of(
            self.serial()@,
            self.script().bytes(),
            self.condition().encoding(),
        )
        &&& self.id()@ == note_id_of(
            self.recipient()@,
            self.asset().faucet.prefix,
            self.asset().faucet.suffix,
            self.asset().amount,
        )
    }

    /// The note is the one that `terms`, `serial` and `script` determine.
    pub open spec fn built_from(
        &self,
        terms: NoteTerms,
        serial: Word,
        script: CompiledScript,
    ) -> bool {
        &&& self.metadata() == vault_metadata(terms.sender)
        &&& self.asset() == terms.asset()
        &&& self.condition() == terms.condition()
        &&& self.serial() == serial
        &&& self.script().bytes() == script.bytes()
        &&& self.script().root() == script.root()
        &&& self.wf()
    }

    /// Puts a note together from its parts and the two digests computed for it.
    pub fn from_parts(
        metadata: NoteMetadata,
        asset: Asset,
        serial: Word,
        script: CompiledScript,
        condition: Condition,
        recipient: Word,
        id: Word,
    ) -> (note: Note)
        ensures
            note.metadata() == metadata,
            note.asset() == asset,
            note.serial() == serial,
            note.script() == script,
            note.condition() == condition,
            note.recipient() == recipient,
            note.id() == id,
    {
        Note { metadata, asset, serial, script, condition, recipient, id }
    }

    /// Builds the vault note for `terms`, with the serial number that the caller drew.
    ///
    /// The note is refused exactly on the terms that [`NoteTerms::rejection`] names. Otherwise it
    /// carries the asset and the condition of the terms, and its two digests are the named hash
    /// results of its contents, so the same arguments always give the same identifier.
    pub fn build(
        terms: &NoteTerms,
        current_height: u32,
        serial: Word,
        script: &CompiledScript,
    ) -> (r: Result<Note, ConstructionError>)
        ensures
            match terms.rejection(current_height, serial) {
                Some(e) => r == Err::<Note, ConstructionError>(e),
                None => r is Ok && r->Ok_0.built_from(*terms, serial, *script),
            },
    {
        let asset = match terms.validate(current_height, &serial) {
            Ok(asset) => asset,
            Err(e) => {
                return Err(e);
            },
        };
        assert(public_use_case_tag_spec(0, 0) == Some(0x8000_0000u32)) by {
            assert((0u16 >> 14) == 0) by (bit_vector);
            assert((0x8000_0000u32 | ((0u16 as u32) << 16) | (0u16 as u32)) == 0x8000_0000u32)
                by (bit_vector);
        }
        let tag = match public_use_case_tag(0, 0) {
            Some(tag) => tag,
            None => {
                return Err(ConstructionError::MalformedInputs);
            },
        };
        let metadata = NoteMetadata {
            sender: terms.sender,
            visibility: Visibility::Public,
            tag,
            hint: ExecutionHint::Eager,
            aux: 0,
        };
        if let Err(e) = metadata.validate() {
            return Err(e);
        }
        let condition = Condition::new(terms.deadline, terms.beneficiary);
        let inputs = condition.encode();
        let held = script.duplicate();
        let recipient = Word::from_array(
            recipient_digest(serial.to_array(), held.as_bytes(), &inputs),
        );
        let id = Word::from_array(note_id(recipient.to_array(), &asset));
        Ok(Note::from_parts(metadata, asset, serial, held, condition, recipient, id))
    }

    pub fn note_id(&self) -> (id: Word)
        ensures
            id == self.id(),
    {
        self.id
    }

    pub fn recipient_digest(&self) -> (d: Word)
        ensures
            d == self.recipient(),
    {
        self.recipient
    }

    pub fn serial_number(&self) -> (s: Word)
        ensures
            s == self.serial(),
    {
        self.serial
    }

    pub fn note_metadata(&self) -> (m: NoteMetadata)
        ensures
            m == self.metadata(),
    {
        self.metadata
    }

    pub fn note_asset(&self) -> (a: Asset)
        ensures
            a == self.asset(),
    {
        self.asset
    }

    pub fn note_condition(&self) -> (c: Condition)
        ensures
            c == self.condition(),
    {
        self.condition
    }

    pub fn note_script(&self) -> (s: &CompiledScript)
        ensures
            *s == self.script(),
    {
        &self.script
    }

    /// The inputs that the script reads, in its positional layout.
    pub fn inputs(&self) -> (values: Vec<u64>)
        ensures
            values@ == self.condition().encoding(),
    {
        self.condition.encode()
    }

    /// A second copy of the same note.
    pub fn duplicate(&self) -> (copy: Note)
        ensures
            copy.metadata() == self.metadata(),
            copy.asset() == self.asset(),
            copy.serial() == self.serial(),
            copy.condition() == self.condition(),
            copy.recipient() == self.recipient(),
            copy.id() == self.id(),
            copy.script().bytes() == self.script().bytes(),
            copy.script().root() == self.script().root(),
            self.wf() ==> copy.wf(),
    {
        Note {
            metadata: self.metadata,
            asset: self.asset,
            serial: self.serial,
            script: self.script.duplicate(),
            condition: self.condition,
            recipient: self.recipient,
            id: self.id,
        }
    }

    /// Two well-formed notes with the same serial number, script, condition and asset have the
    /// same recipient digest and the same identifier.
    pub proof fn lemma_identity_is_determined(a: Note, b: Note)
        requires
            a.wf(),
            b.wf(),
            a.serial() == b.serial(),
            a.script().bytes() == b.script().bytes(),
            a.condition() == b.condition(),
            a.asset() == b.asset(),
        ensures
            a.recipient() == b.recipient(),
            a.id() == b.id(),
    {
        Word::lemma_view_injective(a.recipient(), b.recipient());
        Word::lemma_view_injective(a.id(), b.id());
    }

    /// Two notes built on the same terms, with the same serial number and the same script, have
    /// the same identifier, whatever the ledger's height was at each build.
    pub proof fn lemma_build_is_stable(
        a: Note,
        b: Note,
        terms: NoteTerms,
        serial: Word,
        script: CompiledScript,
    )
        requires
            a.built_from(terms, serial, script),
            b.built_from(terms, serial, script),
        ensures
            a.id() == b.id(),
            a.recipient() == b.recipient(),
            a.metadata() == b.metadata(),
            a.asset() == b.asset(),
    {
        Self::lemma_identity_is_determined(a, b);
    }
}

} // verus!

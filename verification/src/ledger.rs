//! The ledger as the vault sees it: the chain height, the balances and the notes.
//!
//! The view is refreshed whenever the client synchronizes. It follows the ledger's own rules for
//! notes, so that the outcome of a submission can be told in advance: a note is spendable once
//! it has been emitted, and it is consumed at most once, by an attempt that its condition
//! accepts.

use vstd::prelude::*;
use crate::asset::{Asset, MAX_AMOUNT};
use crate::condition::{Context, Refusal};
use crate::identity::AccountId;
use crate::note::Note;
use crate::word::{word_of_hex, Word};

verus! {

/// The entry at `i` is the one with key `k`.
spec fn keyed_at<T, K>(entries: Seq<T>, key: spec_fn(T) -> K, i: int, k: K) -> bool {
    0 <= i < entries.len() && key(entries[i]) == k
}

/// No two entries share a key.
spec fn keys_unique<T, K>(entries: Seq<T>, key: spec_fn(T) -> K) -> bool {
    forall|i: int, j: int|
        0 <= i < j < entries.len() ==> key(#[trigger] entries[i]) != key(#[trigger] entries[j])
}

/// The entry with key `k`, if there is one.
spec fn entry_with<T, K>(entries: Seq<T>, key: spec_fn(T) -> K, k: K) -> Option<T> {
    if exists|i: int| keyed_at(entries, key, i, k) {
        Some(entries[choose|i: int| keyed_at(entries, key, i, k)])
    } else {
        None
    }
}

/// Where keys are unique, an entry found under a key is the entry of that key.
proof fn lemma_entry_at<T, K>(entries: Seq<T>, key: spec_fn(T) -> K, i: int, k: K)
    requires
        keys_unique(entries, key),
        keyed_at(entries, key, i, k),
    ensures
        entry_with(entries, key, k) == Some(entries[i]),
{
    let c = choose|c: int| keyed_at(entries, key, c, k);
    if c < i {
        assert(key(entries[c]) != key(entries[i]));
    } else if i < c {
        assert(key(entries[i]) != key(entries[c]));
    }
}

/// A key whose entries stand at the same places, unchanged, in two lists has the same entry in
/// both.
proof fn lemma_entry_kept<T, K>(before: Seq<T>, after: Seq<T>, key: spec_fn(T) -> K, k: K)
    requires
        keys_unique(before, key),
        keys_unique(after, key),
        forall|i: int| #[trigger] keyed_at(before, key, i, k) ==> keyed_at(after, key, i, k),
        forall|i: int|
            #[trigger] keyed_at(after, key, i, k) ==> keyed_at(before, key, i, k) && before[i]
                == after[i],
    ensures
        entry_with(after, key, k) == entry_with(before, key, k),
{
    if exists|i: int| keyed_at(after, key, i, k) {
        let i = choose|i: int| keyed_at(after, key, i, k);
        lemma_entry_at(before, key, i, k);
        lemma_entry_at(after, key, i, k);
    }
}

/// Replacing an entry by one with the same key `k` changes the entry of that key and no other.
proof fn lemma_entries_after_update<T, K>(
    entries: Seq<T>,
    key: spec_fn(T) -> K,
    i: int,
    x: T,
    k: K,
)
    requires
        keys_unique(entries, key),
        keyed_at(entries, key, i, k),
        key(x) == k,
    ensures
        keys_unique(entries.update(i, x), key),
        entry_with(entries.update(i, x), key, k) == Some(x),
        forall|other: K|
            other != k ==> #[trigger] entry_with(entries.update(i, x), key, other) == entry_with(
                entries,
                key,
                other,
            ),
{
    let after = entries.update(i, x);
    assert forall|a: int, b: int| 0 <= a < b < after.len() implies key(#[trigger] after[a]) != key(
        #[trigger] after[b],
    ) by {
        assert(key(after[a]) == key(entries[a]) && key(after[b]) == key(entries[b]));
    }
    lemma_entry_at(after, key, i, k);
    assert forall|other: K| other != k implies #[trigger] entry_with(after, key, other)
        == entry_with(entries, key, other) by {
        lemma_entry_kept(entries, after, key, other);
    }
}

/// Adding an entry under a new key `k` makes it the entry of that key and changes no other.
proof fn lemma_entries_after_push<T, K>(entries: Seq<T>, key: spec_fn(T) -> K, x: T, k: K)
    requires
        keys_unique(entries, key),
        forall|i: int| !#[trigger] keyed_at(entries, key, i, k),
        key(x) == k,
    ensures
        keys_unique(entries.push(x), key),
        entry_with(entries.push(x), key, k) == Some(x),
        forall|other: K|
            other != k ==> #[trigger] entry_with(entries.push(x), key, other) == entry_with(
                entries,
                key,
                other,
            ),
{
    let after = entries.push(x);
    let n = entries.len() as int;
    assert forall|a: int, b: int| 0 <= a < b < after.len() implies key(#[trigger] after[a]) != key(
        #[trigger] after[b],
    ) by {
        if b == n {
            assert(!keyed_at(entries, key, a, k));
        } else {
            assert(after[a] == entries[a] && after[b] == entries[b]);
        }
    }
    lemma_entry_at(after, key, n, k);
    assert forall|other: K| other != k implies #[trigger] entry_with(after, key, other)
        == entry_with(entries, key, other) by {
        lemma_entry_kept(entries, after, key, other);
    }
}

/// What one account holds of one faucet's token.
#[derive(Clone, Copy, Debug, PartialEq, Eq, Structural)]
struct Holding {
    owner: AccountId,
    faucet: AccountId,
    amount: u64,
}

/// A holding is kept under its owner and its token.
spec fn holding_key() -> spec_fn(Holding) -> (AccountId, AccountId) {
    |h: Holding| (h.owner, h.faucet)
}

/// No account has two entries for one token, and no entry exceeds what one asset can hold.
spec fn holdings_wf(holdings: Seq<Holding>) -> bool {
    &&& keys_unique(holdings, holding_key())
    &&& forall|i: int| 0 <= i < holdings.len() ==> (#[trigger] holdings[i]).amount <= MAX_AMOUNT
}

/// The balance of `owner` in the token of `faucet`: the amount of its entry, or nothing.
spec fn balance_in(holdings: Seq<Holding>, owner: AccountId, faucet: AccountId) -> nat {
    match entry_with(holdings, holding_key(), (owner, faucet)) {
        Some(holding) => holding.amount as nat,
        None => 0,
    }
}

/// A note is kept under its identifier.
spec fn note_key() -> spec_fn(Note) -> Word {
    |note: Note| note.id()
}

/// Adding an identifier to the consumed ones marks that identifier and no other.
proof fn lemma_spent_after_push(spent: Seq<Word>, id: Word)
    ensures
        spent.push(id).contains(id),
        forall|other: Word|
            other != id ==> #[trigger] spent.push(id).contains(other) == spent.contains(other),
        forall|other: Word| spent.contains(other) ==> #[trigger] spent.push(id).contains(other),
{
    let after = spent.push(id);
    assert(after[spent.len() as int] == id);
    assert forall|other: Word| spent.contains(other) implies #[trigger] after.contains(other) by {
        let k = choose|k: int| 0 <= k < spent.len() && spent[k] == other;
        assert(after[k] == other);
    }
}

/// Why the ledger refuses a transaction.
#[derive(Clone, Copy, Debug, PartialEq, Eq, Structural)]
pub enum LedgerRefusal {
    /// No note with this identifier has been emitted.
    UnknownNote,
    /// A note with this identifier has been emitted before.
    DuplicateNote,
    /// The note has been consumed before.
    AlreadySpent,
    /// The condition script refuses: the ledger height is below the deadline.
    DeadlineNotReached,
    /// The condition script refuses: the consuming account is not the beneficiary.
    NotBeneficiary,
    /// The sending account does not hold what the note carries.
    InsufficientBalance,
    /// The receiving account would hold more than one asset can express.
    AmountOverflow,
}

/// The chain height, the balances, the notes emitted so far and the identifiers of those
/// consumed.
pub struct LedgerView {
    height: u32,
    holdings: Vec<Holding>,
    notes: Vec<Note>,
    spent: Vec<Word>,
}

impl LedgerView {
    /// The height of the last block seen.
    pub closed spec fn tip(&self) -> u32 {
        self.height
    }

    /// What `owner` holds of the token of `faucet`.
    pub closed spec fn balance_of(&self, owner: AccountId, faucet: AccountId) -> nat {
        balance_in(self.holdings@, owner, faucet)
    }

    /// The emitted note with identifier `id`, if there is one.
    pub closed spec fn note_with(&self, id: Word) -> Option<Note> {
        entry_with(self.notes@, note_key(), id)
    }

    /// The note with identifier `id` has been consumed.
    pub closed spec fn spent(&self, id: Word) -> bool {
        self.spent@.contains(id)
    }

    /// The entries are consistent: one holding for each account and token, one note for each
    /// identifier.
    pub closed spec fn wf(&self) -> bool {
        &&& holdings_wf(self.holdings@)
        &&& keys_unique(self.notes@, note_key())
    }

    /// An empty ledger at `height`.
    pub fn new(height: u32) -> (view: LedgerView)
        ensures
            view.wf(),
            view.tip() == height,
            forall|o: AccountId, f: AccountId| #[trigger] view.balance_of(o, f) == 0,
            forall|id: Word| #[trigger] view.note_with(id) is None,
            forall|id: Word| !#[trigger] view.spent(id),
    {
        let view = LedgerView {
            height,
            holdings: Vec::new(),
            notes: Vec::new(),
            spent: Vec::new(),
        };
        view
    }

    pub fn height(&self) -> (h: u32)
        ensures
            h == self.tip(),
    {
        self.height
    }

    fn holding_index(&self, owner: &AccountId, faucet: &AccountId) -> (r: Option<usize>)
        ensures
            match r {
                Some(i) => keyed_at(self.holdings@, holding_key(), i as int, (*owner, *faucet)),
                None => forall|i: int|
                    !keyed_at(self.holdings@, holding_key(), i, (*owner, *faucet)),
            },
    {
        let mut i: usize = 0;
        while i < self.holdings.len()
            invariant
                i <= self.holdings@.len(),
                forall|j: int|
                    0 <= j < i ==> !keyed_at(self.holdings@, holding_key(), j, (*owner, *faucet)),
            decreases self.holdings@.len() - i,
        {
            if self.holdings[i].owner.same_as(owner) && self.holdings[i].faucet.same_as(faucet) {
                return Some(i);
            }
            i += 1;
        }
        None
    }

    fn note_index(&self, id: &Word) -> (r: Option<usize>)
        ensures
            match r {
                Some(i) => keyed_at(self.notes@, note_key(), i as int, *id),
                None => forall|i: int| !keyed_at(self.notes@, note_key(), i, *id),
            },
    {
        let mut i: usize = 0;
        while i < self.notes.len()
            invariant
                i <= self.notes@.len(),
                forall|j: int| 0 <= j < i ==> !keyed_at(self.notes@, note_key(), j, *id),
            decreases self.notes@.len() - i,
        {
            if self.notes[i].note_id() == *id {
                return Some(i);
            }
            i += 1;
        }
        None
    }

    /// What `owner` holds of the token of `faucet`.
    pub fn balance(&self, owner: &AccountId, faucet: &AccountId) -> (amount: u64)
        requires
            self.wf(),
        ensures
            amount == self.balance_of(*owner, *faucet),
            amount <= MAX_AMOUNT,
    {
        match self.holding_index(owner, faucet) {
            Some(i) => {
                proof {
                    lemma_entry_at(self.holdings@, holding_key(), i as int, (*owner, *faucet));
                }
                self.holdings[i].amount
            },
            None => 0,
        }
    }

    /// The emitted note with identifier `id`.
    pub fn find_note(&self, id: &Word) -> (r: Option<&Note>)
        requires
            self.wf(),
        ensures
            match r {
                Some(note) => self.note_with(*id) == Some(*note),
                None => self.note_with(*id) is None,
            },
    {
        match self.note_index(id) {
            Some(i) => {
                proof {
                    lemma_entry_at(self.notes@, note_key(), i as int, *id);
                }
                Some(&self.notes[i])
            },
            None => None,
        }
    }

    /// The emitted note whose identifier the ledger prints as `text`.
    pub fn find_note_by_hex(&self, text: &str) -> (r: Option<&Note>)
        requires
            self.wf(),
        ensures
            match word_of_hex(text@) {
                Some(elements) => match r {
                    Some(note) => self.note_with(Word::of(elements)) == Some(*note),
                    None => self.note_with(Word::of(elements)) is None,
                },
                None => r is None,
            },
    {
        match Word::from_hex(text) {
            Some(id) => self.find_note(&id),
            None => None,
        }
    }

    /// Whether the note with identifier `id` has been consumed.
    pub fn is_spent(&self, id: &Word) -> (r: bool)
        ensures
            r == self.spent(*id),
    {
        let mut i: usize = 0;
        while i < self.spent.len()
            invariant
                i <= self.spent@.len(),
                forall|j: int| 0 <= j < i ==> self.spent@[j] != *id,
            decreases self.spent@.len() - i,
        {
            if self.spent[i] == *id {
                return true;
            }
            i += 1;
        }
        false
    }

    /// What the ledger answers when `consumer` tries to consume the note `id`.
    ///
    /// An unknown note and a consumed one are refused first. Then the condition script decides
    /// at the current height. An accepted attempt yields the note's asset, unless the consumer
    /// would then hold more than one asset can express.
    pub open spec fn consumption_verdict(&self, id: Word, consumer: AccountId) -> Result<
        Asset,
        LedgerRefusal,
    > {
        match self.note_with(id) {
            None => Err(LedgerRefusal::UnknownNote),
            Some(note) => if self.spent(id) {
                Err(LedgerRefusal::AlreadySpent)
            } else {
                match note.condition().verdict_spec(Context { height: self.tip(), consumer }) {
                    Err(Refusal::DeadlineNotReached) => Err(LedgerRefusal::DeadlineNotReached),
                    Err(Refusal::NotBeneficiary) => Err(LedgerRefusal::NotBeneficiary),
                    Ok(()) => if self.balance_of(consumer, note.asset().faucet)
                        + note.asset().amount > MAX_AMOUNT {
                        Err(LedgerRefusal::AmountOverflow)
                    } else {
                        Ok(note.asset())
                    },
                }
            },
        }
    }

    /// What the ledger answers when `note` is emitted by its sender: the identifier must be
    /// new, and the sender must hold what the note carries.
    pub open spec fn emission_verdict(&self, note: Note) -> Result<(), LedgerRefusal> {
        if self.note_with(note.id()) is Some {
            Err(LedgerRefusal::DuplicateNote)
        } else if self.balance_of(note.metadata().sender, note.asset().faucet)
            < note.asset().amount {
            Err(LedgerRefusal::InsufficientBalance)
        } else {
            Ok(())
        }
    }

    /// Every balance but that of `owner` in the token of `faucet` is as it was.
    pub open spec fn other_balances_kept(
        pre: LedgerView,
        post: LedgerView,
        owner: AccountId,
        faucet: AccountId,
    ) -> bool {
        forall|o: AccountId, f: AccountId|
            (o != owner || f != faucet) ==> #[trigger] post.balance_of(o, f) == pre.balance_of(
                o,
                f,
            )
    }

    /// `post` is `pre` after `owner` received `asset`.
    pub open spec fn credited(
        pre: LedgerView,
        post: LedgerView,
        owner: AccountId,
        asset: Asset,
    ) -> bool {
        &&& post.wf()
        &&& post.tip() == pre.tip()
        &&& forall|id: Word| #[trigger] post.note_with(id) == pre.note_with(id)
        &&& forall|id: Word| #[trigger] post.spent(id) == pre.spent(id)
        &&& post.balance_of(owner, asset.faucet) == pre.balance_of(owner, asset.faucet)
            + asset.amount
        &&& Self::other_balances_kept(pre, post, owner, asset.faucet)
    }

    /// `post` is `pre` after `note` was emitted: the note is recorded under its identifier and
    /// its sender holds that much less.
    pub open spec fn emitted(pre: LedgerView, post: LedgerView, note: Note) -> bool {
        &&& post.wf()
        &&& post.tip() == pre.tip()
        &&& post.note_with(note.id()) == Some(note)
        &&& forall|id: Word| id != note.id() ==> #[trigger] post.note_with(id) == pre.note_with(id)
        &&& forall|id: Word| #[trigger] post.spent(id) == pre.spent(id)
        &&& post.balance_of(note.metadata().sender, note.asset().faucet) == pre.balance_of(
            note.metadata().sender,
            note.asset().faucet,
        ) - note.asset().amount
        &&& Self::other_balances_kept(pre, post, note.metadata().sender, note.asset().faucet)
    }

    /// `post` is `pre` after `consumer` consumed the note `id`: the note is marked as consumed
    /// and its asset has moved to the consumer.
    pub open spec fn consumed(
        pre: LedgerView,
        post: LedgerView,
        id: Word,
        consumer: AccountId,
    ) -> bool {
        &&& pre.note_with(id) is Some
        &&& post.wf()
        &&& post.tip() == pre.tip()
        &&& forall|other: Word| #[trigger] post.note_with(other) == pre.note_with(other)
        &&& post.spent(id)
        &&& forall|other: Word| other != id ==> #[trigger] post.spent(other) == pre.spent(other)
        &&& post.balance_of(consumer, pre.note_with(id)->Some_0.asset().faucet) == pre.balance_of(
            consumer,
            pre.note_with(id)->Some_0.asset().faucet,
        ) + pre.note_with(id)->Some_0.asset().amount
        &&& Self::other_balances_kept(
            pre,
            post,
            consumer,
            pre.note_with(id)->Some_0.asset().faucet,
        )
    }

    /// `post` is `pre` after a synchronization that saw the chain at `height`. The view never
    /// goes back to a lower height.
    pub open spec fn refreshed(pre: LedgerView, post: LedgerView, height: u32) -> bool {
        &&& post.wf()
        &&& post.tip() == if height > pre.tip() {
            height
        } else {
            pre.tip()
        }
        &&& forall|o: AccountId, f: AccountId|
            #[trigger] post.balance_of(o, f) == pre.balance_of(o, f)
        &&& forall|id: Word| #[trigger] post.note_with(id) == pre.note_with(id)
        &&& forall|id: Word| #[trigger] post.spent(id) == pre.spent(id)
    }

    /// Takes over the height that a synchronization reported.
    pub fn advance_to(&mut self, height: u32)
        requires
            old(self).wf(),
        ensures
            Self::refreshed(*old(self), *final(self), height),
    {
        if height > self.height {
            self.height = height;
        }
    }

    fn set_balance(&mut self, owner: AccountId, faucet: AccountId, amount: u64)
        requires
            old(self).wf(),
            amount <= MAX_AMOUNT,
        ensures
            final(self).wf(),
            final(self).height == old(self).height,
            final(self).notes@ == old(self).notes@,
            final(self).spent@ == old(self).spent@,
            final(self).balance_of(owner, faucet) == amount,
            Self::other_balances_kept(*old(self), *final(self), owner, faucet),
    {
        match self.holding_index(&owner, &faucet) {
            Some(i) => {
                proof {
                    lemma_entries_after_update(
                        self.holdings@,
                        holding_key(),
                        i as int,
                        Holding { owner, faucet, amount },
                        (owner, faucet),
                    );
                }
                self.holdings.set(i, Holding { owner, faucet, amount });
            },
            None => {
                proof {
                    lemma_entries_after_push(
                        self.holdings@,
                        holding_key(),
                        Holding { owner, faucet, amount },
                        (owner, faucet),
                    );
                }
                self.holdings.push(Holding { owner, faucet, amount });
            },
        }
    }

    /// Adds `asset` to what `owner` holds, as the ledger does for a minted asset.
    pub fn credit(&mut self, owner: AccountId, asset: Asset) -> (r: Result<(), LedgerRefusal>)
        requires
            old(self).wf(),
        ensures
            old(self).balance_of(owner, asset.faucet) + asset.amount <= MAX_AMOUNT ==> r is Ok
                && Self::credited(*old(self), *final(self), owner, asset),
            old(self).balance_of(owner, asset.faucet) + asset.amount > MAX_AMOUNT ==> r == Err::<
                (),
                LedgerRefusal,
            >(LedgerRefusal::AmountOverflow) && *final(self) == *old(self),
    {
        let balance = self.balance(&owner, &asset.faucet);
        if asset.amount > MAX_AMOUNT - balance {
            return Err(LedgerRefusal::AmountOverflow);
        }
        self.set_balance(owner, asset.faucet, balance + asset.amount);
        Ok(())
    }

    /// Records `note` as emitted by its sender and takes its asset from the sender's balance.
    pub fn emit(&mut self, note: Note) -> (r: Result<(), LedgerRefusal>)
        requires
            old(self).wf(),
        ensures
            r == old(self).emission_verdict(note),
            r is Ok ==> Self::emitted(*old(self), *final(self), note),
            r is Err ==> *final(self) == *old(self),
    {
        let id = note.note_id();
        if self.find_note(&id).is_some() {
            return Err(LedgerRefusal::DuplicateNote);
        }
        let sender = note.note_metadata().sender;
        let asset = note.note_asset();
        let balance = self.balance(&sender, &asset.faucet);
        if balance < asset.amount {
            return Err(LedgerRefusal::InsufficientBalance);
        }
        self.set_balance(sender, asset.faucet, balance - asset.amount);
        let ghost debited = *self;
        proof {
            assert forall|i: int| !keyed_at(self.notes@, note_key(), i, note.id()) by {
                if keyed_at(self.notes@, note_key(), i, note.id()) {
                    lemma_entry_at(self.notes@, note_key(), i, note.id());
                }
            }
            lemma_entries_after_push(self.notes@, note_key(), note, note.id());
        }
        self.notes.push(note);
        assert forall|o: AccountId, f: AccountId| #[trigger]
            self.balance_of(o, f) == debited.balance_of(o, f) by {}
        Ok(())
    }

    /// Consumes the note `id` on behalf of `consumer`, if the ledger's rules allow it.
    pub fn consume(&mut self, id: &Word, consumer: AccountId) -> (r: Result<Asset, LedgerRefusal>)
        requires
            old(self).wf(),
        ensures
            r == old(self).consumption_verdict(*id, consumer),
            r is Ok ==> Self::consumed(*old(self), *final(self), *id, consumer),
            r is Err ==> *final(self) == *old(self),
    {
        let (asset, condition) = match self.find_note(id) {
            Some(note) => (note.note_asset(), note.note_condition()),
            None => {
                return Err(LedgerRefusal::UnknownNote);
            },
        };
        if self.is_spent(id) {
            return Err(LedgerRefusal::AlreadySpent);
        }
        let ctx = Context { height: self.height, consumer };
        match condition.verdict(&ctx) {
            Err(Refusal::DeadlineNotReached) => {
                return Err(LedgerRefusal::DeadlineNotReached);
            },
            Err(Refusal::NotBeneficiary) => {
                return Err(LedgerRefusal::NotBeneficiary);
            },
            Ok(()) => {},
        }
        let balance = self.balance(&consumer, &asset.faucet);
        if asset.amount > MAX_AMOUNT - balance {
            return Err(LedgerRefusal::AmountOverflow);
        }
        proof {
            lemma_spent_after_push(self.spent@, *id);
        }
        self.spent.push(*id);
        self.set_balance(consumer, asset.faucet, balance + asset.amount);
        Ok(asset)
    }

    /// `post` is a later view than `pre`: the height has not gone down, every note of `pre` is
    /// still there, and every note consumed in `pre` is still consumed.
    pub open spec fn evolves(pre: LedgerView, post: LedgerView) -> bool {
        &&& pre.tip() <= post.tip()
        &&& forall|id: Word|
            pre.note_with(id) is Some ==> #[trigger] post.note_with(id) == pre.note_with(id)
        &&& forall|id: Word| pre.spent(id) ==> #[trigger] post.spent(id)
    }

    /// A credit leads to a later view.
    pub proof fn lemma_credit_evolves(
        pre: LedgerView,
        post: LedgerView,
        owner: AccountId,
        asset: Asset,
    )
        requires
            Self::credited(pre, post, owner, asset),
        ensures
            Self::evolves(pre, post),
    {
    }

    /// An accepted emission leads to a later view.
    pub proof fn lemma_emission_evolves(pre: LedgerView, post: LedgerView, note: Note)
        requires
            pre.emission_verdict(note) is Ok,
            Self::emitted(pre, post, note),
        ensures
            Self::evolves(pre, post),
    {
    }

    /// A consumption leads to a later view.
    pub proof fn lemma_consumption_evolves(
        pre: LedgerView,
        post: LedgerView,
        id: Word,
        consumer: AccountId,
    )
        requires
            Self::consumed(pre, post, id, consumer),
        ensures
            Self::evolves(pre, post),
    {
    }

    /// A synchronization leads to a later view.
    pub proof fn lemma_refresh_evolves(pre: LedgerView, post: LedgerView, height: u32)
        requires
            Self::refreshed(pre, post, height),
        ensures
            Self::evolves(pre, post),
    {
    }

    /// A later view of a later view is a later view.
    pub proof fn lemma_evolves_is_transitive(a: LedgerView, b: LedgerView, c: LedgerView)
        requires
            Self::evolves(a, b),
            Self::evolves(b, c),
        ensures
            Self::evolves(a, c),
    {
    }

    /// Below the deadline height every attempt to consume a note is refused, whoever makes it.
    pub proof fn lemma_locked_note_yields_to_nobody(view: LedgerView, id: Word, consumer: AccountId)
        requires
            view.note_with(id) is Some,
            view.tip() < view.note_with(id)->Some_0.condition().deadline,
        ensures
            view.consumption_verdict(id, consumer) is Err,
            !view.spent(id) ==> view.consumption_verdict(id, consumer) == Err::<
                Asset,
                LedgerRefusal,
            >(LedgerRefusal::DeadlineNotReached),
    {
    }

    /// At and after the deadline height an account other than the beneficiary is still refused.
    pub proof fn lemma_stranger_never_consumes(view: LedgerView, id: Word, consumer: AccountId)
        requires
            view.note_with(id) is Some,
            consumer != view.note_with(id)->Some_0.condition().beneficiary,
        ensures
            view.consumption_verdict(id, consumer) is Err,
            !view.spent(id) && view.tip() >= view.note_with(id)->Some_0.condition().deadline
                ==> view.consumption_verdict(id, consumer) == Err::<Asset, LedgerRefusal>(
                LedgerRefusal::NotBeneficiary,
            ),
    {
    }

    /// At and after the deadline height the beneficiary receives the asset of a note that has
    /// not been consumed, provided the sum fits in one asset.
    pub proof fn lemma_beneficiary_consumes(view: LedgerView, id: Word)
        requires
            view.note_with(id) is Some,
            !view.spent(id),
            view.tip() >= view.note_with(id)->Some_0.condition().deadline,
            view.balance_of(
                view.note_with(id)->Some_0.condition().beneficiary,
                view.note_with(id)->Some_0.asset().faucet,
            ) + view.note_with(id)->Some_0.asset().amount <= MAX_AMOUNT,
        ensures
            view.consumption_verdict(id, view.note_with(id)->Some_0.condition().beneficiary)
                == Ok::<Asset, LedgerRefusal>(view.note_with(id)->Some_0.asset()),
    {
    }

    /// Whether a known, unconsumed note yields is decided by the height and by the consumer's
    /// identifier alone: it yields exactly when the height has reached the first input and the
    /// consumer's suffix and prefix are the second and the third. It then yields its asset. The
    /// premise on the balance leaves out the one other refusal: a consumer that would hold more
    /// than one asset can express.
    pub proof fn lemma_consumption_is_decided_by_the_inputs(
        view: LedgerView,
        id: Word,
        consumer: AccountId,
    )
        requires
            view.note_with(id) is Some,
            !view.spent(id),
            view.balance_of(consumer, view.note_with(id)->Some_0.asset().faucet)
                + view.note_with(id)->Some_0.asset().amount <= MAX_AMOUNT,
        ensures
            ({
                let note = view.note_with(id)->Some_0;
                let inputs = note.condition().encoding();
                &&& view.consumption_verdict(id, consumer) is Ok <==> view.tip() >= inputs[0]
                    && consumer.suffix == inputs[1] && consumer.prefix == inputs[2]
                &&& view.consumption_verdict(id, consumer) is Ok ==> view.consumption_verdict(
                    id,
                    consumer,
                ) == Ok::<Asset, LedgerRefusal>(note.asset())
            }),
    {
    }

    /// A note is consumed at most once: after a consumption, every further attempt on the same
    /// note is refused as a double spend, by whom and at whatever later view it is made.
    pub proof fn lemma_no_double_spend(
        pre: LedgerView,
        post: LedgerView,
        later: LedgerView,
        id: Word,
        consumer: AccountId,
        anyone: AccountId,
    )
        requires
            Self::consumed(pre, post, id, consumer),
            Self::evolves(post, later),
        ensures
            post.consumption_verdict(id, anyone) == Err::<Asset, LedgerRefusal>(
                LedgerRefusal::AlreadySpent,
            ),
            later.consumption_verdict(id, anyone) == Err::<Asset, LedgerRefusal>(
                LedgerRefusal::AlreadySpent,
            ),
    {
    }

    /// A text that the ledger reads as the identifier of an emitted note names that note: the
    /// lookup by text finds it, at every later view.
    pub proof fn lemma_text_of_identifier_finds_the_note(
        pre: LedgerView,
        post: LedgerView,
        later: LedgerView,
        note: Note,
        text: Seq<char>,
    )
        requires
            Self::emitted(pre, post, note),
            Self::evolves(post, later),
            word_of_hex(text) == Some(note.id()@),
        ensures
            later.note_with(Word::of(word_of_hex(text)->Some_0)) == Some(note),
    {
        Word::lemma_view_injective(Word::of(note.id()@), note.id());
    }

    /// Emitting a note and consuming it moves its asset from the sender to the consumer and
    /// leaves every other balance as it was.
    pub proof fn lemma_vault_moves_the_asset(
        start: LedgerView,
        locked: LedgerView,
        released: LedgerView,
        note: Note,
        consumer: AccountId,
    )
        requires
            start.emission_verdict(note) is Ok,
            Self::emitted(start, locked, note),
            Self::consumed(locked, released, note.id(), consumer),
            consumer != note.metadata().sender,
        ensures
            released.balance_of(note.metadata().sender, note.asset().faucet) == start.balance_of(
                note.metadata().sender,
                note.asset().faucet,
            ) - note.asset().amount,
            released.balance_of(consumer, note.asset().faucet) == start.balance_of(
                consumer,
                note.asset().faucet,
            ) + note.asset().amount,
            forall|o: AccountId, f: AccountId|
                !(f == note.asset().faucet && (o == consumer || o == note.metadata().sender))
                    ==> #[trigger] released.balance_of(o, f) == start.balance_of(o, f),
    {
        let sender = note.metadata().sender;
        let faucet = note.asset().faucet;
        assert forall|o: AccountId, f: AccountId|
            !(f == faucet && (o == consumer || o == sender)) implies #[trigger] released.balance_of(
            o,
            f,
        ) == start.balance_of(o, f) by {
        }
    }

    /// A note that was emitted is found again under its identifier, with the asset, the
    /// metadata and every other part it was built with, at every later view.
    pub proof fn lemma_emitted_note_is_found(
        pre: LedgerView,
        post: LedgerView,
        later: LedgerView,
        note: Note,
    )
        requires
            Self::emitted(pre, post, note),
            Self::evolves(post, later),
        ensures
            later.note_with(note.id()) == Some(note),
            later.note_with(note.id())->Some_0.asset() == note.asset(),
            later.note_with(note.id())->Some_0.metadata() == note.metadata(),
    {
    }
}

} // verus!

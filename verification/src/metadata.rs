//! What the parties of a subscription note down on it.
use crate::address::Address;
use crate::error::{Error, Failure, Reply};
use crate::events::Event;
use crate::vault::{settles, SubscriptionVault, VaultState};
use vstd::prelude::*;

verus! {

/// One note.
struct Note {
    id: u32,
    key: String,
    value: String,
}

/// What a note is filed under.
spec fn label(note: Note) -> (u32, Seq<char>) {
    (note.id, note.key@)
}

/// The notes that count: of those with one label, the last.
spec fn filed(notes: Seq<Note>) -> Map<(u32, Seq<char>), Seq<char>>
    decreases notes.len(),
{
    if notes.len() == 0 {
        Map::empty()
    } else {
        filed(notes.drop_last()).insert(label(notes.last()), notes.last().value@)
    }
}

/// What is noted down on subscriptions, by subscription and key.
pub struct MetadataBook {
    notes: Vec<Note>,
}

impl View for MetadataBook {
    type V = Map<(u32, Seq<char>), Seq<char>>;

    closed spec fn view(&self) -> Map<(u32, Seq<char>), Seq<char>> {
        filed(self.notes@)
    }
}

/// The last note with a label is the one that counts.
proof fn lemma_last_note_counts(notes: Seq<Note>, i: int)
    requires
        0 <= i < notes.len(),
        forall|j: int| i < j < notes.len() ==> label(#[trigger] notes[j]) != label(notes[i]),
    ensures
        filed(notes).contains_key(label(notes[i])),
        filed(notes)[label(notes[i])] == notes[i].value@,
    decreases notes.len(),
{
    if i < notes.len() - 1 {
        let front = notes.drop_last();
        assert forall|j: int| i < j < front.len() implies label(#[trigger] front[j]) != label(
            front[i],
        ) by {
            assert(front[j] == notes[j]);
        }
        lemma_last_note_counts(front, i);
        assert(label(notes.last()) != label(notes[i]));
    }
}

/// Nothing is filed under a label that no note has.
proof fn lemma_unused_label_is_free(notes: Seq<Note>, unused: (u32, Seq<char>))
    requires
        forall|j: int| 0 <= j < notes.len() ==> label(#[trigger] notes[j]) != unused,
    ensures
        !filed(notes).contains_key(unused),
    decreases notes.len(),
{
    if notes.len() > 0 {
        let front = notes.drop_last();
        assert forall|j: int| 0 <= j < front.len() implies label(#[trigger] front[j]) != unused by {
            assert(front[j] == notes[j]);
        }
        lemma_unused_label_is_free(front, unused);
        assert(label(notes.last()) != unused);
    }
}

/// Dropping a note changes nothing under other labels.
proof fn lemma_dropped_note(notes: Seq<Note>, i: int)
    requires
        0 <= i < notes.len(),
    ensures
        filed(notes.remove(i)).remove(label(notes[i])) == filed(notes).remove(label(notes[i])),
    decreases notes.len(),
{
    let dropped = label(notes[i]);
    let one = filed(notes.remove(i)).remove(dropped);
    let two = filed(notes).remove(dropped);
    if i == notes.len() - 1 {
        assert(notes.remove(i) =~= notes.drop_last());
        assert(one =~= two);
    } else {
        let front = notes.drop_last();
        let last = notes.last();
        lemma_dropped_note(front, i);
        assert(notes.remove(i).drop_last() =~= front.remove(i));
        assert(notes.remove(i).last() == last);
        let a = filed(front.remove(i));
        let b = filed(front);
        assert(a.remove(dropped) == b.remove(dropped));
        if label(last) == dropped {
            assert(one =~= a.remove(dropped));
            assert(two =~= b.remove(dropped));
        } else {
            assert(one =~= a.remove(dropped).insert(label(last), last.value@));
            assert(two =~= b.remove(dropped).insert(label(last), last.value@));
        }
    }
}

impl MetadataBook {
    pub fn new() -> (book: MetadataBook)
        ensures
            book@ == Map::<(u32, Seq<char>), Seq<char>>::empty(),
    {
        MetadataBook { notes: Vec::new() }
    }

    /// What is noted down under a key.
    pub fn get(&self, id: u32, key: &String) -> (value: Option<&String>)
        ensures
            value is Some == self@.contains_key((id, key@)),
            value matches Some(text) ==> text@ == self@[(id, key@)],
    {
        let mut i: usize = self.notes.len();
        while i > 0
            invariant
                i <= self.notes@.len(),
                forall|j: int|
                    i <= j < self.notes@.len() ==> label(#[trigger] self.notes@[j]) != (id, key@),
            decreases i,
        {
            i -= 1;
            if self.notes[i].id == id && self.notes[i].key == *key {
                proof {
                    lemma_last_note_counts(self.notes@, i as int);
                }
                return Some(&self.notes[i].value);
            }
        }
        proof {
            lemma_unused_label_is_free(self.notes@, (id, key@));
        }
        None
    }

    /// Drops what is noted down under a key.
    pub fn remove(&mut self, id: u32, key: &String)
        ensures
            final(self)@ == old(self)@.remove((id, key@)),
    {
        let mut i: usize = 0;
        while i < self.notes.len()
            invariant
                i <= self.notes@.len(),
                forall|j: int|
                    0 <= j < i ==> label(#[trigger] self.notes@[j]) != (id, key@),
                filed(self.notes@).remove((id, key@)) == old(self)@.remove((id, key@)),
            decreases self.notes@.len() - i,
        {
            if self.notes[i].id == id && self.notes[i].key == *key {
                proof {
                    lemma_dropped_note(self.notes@, i as int);
                }
                let ghost before = self.notes@;
                self.notes.remove(i);
                assert(self.notes@ =~= before.remove(i as int));
            } else {
                i += 1;
            }
        }
        proof {
            lemma_unused_label_is_free(self.notes@, (id, key@));
        }
        assert(self@ =~= old(self)@.remove((id, key@)));
    }

    /// Notes a value down under a key.
    pub fn set(&mut self, id: u32, key: String, value: String)
        ensures
            final(self)@ == old(self)@.insert((id, key@), value@),
    {
        self.remove(id, &key);
        let ghost kept = self.notes@;
        let note = Note { id, key, value };
        self.notes.push(note);
        assert(self.notes@.drop_last() =~= kept);
        assert(self@ =~= old(self)@.insert((id, key@), value@));
    }
}

impl VaultState {
    /// Why `authorizer` cannot change what is noted down on subscription `id`.
    pub open spec fn metadata_refusal(self, id: u32, authorizer: Address) -> Option<Failure> {
        let subscription = self.subscriptions[id];
        if !self.signed(authorizer) {
            Some(Failure::Abort)
        } else if !self.subscriptions.contains_key(id) {
            Some(Failure::Contract(Error::NotFound))
        } else if authorizer != subscription.subscriber && authorizer != subscription.merchant {
            Some(Failure::Contract(Error::Forbidden))
        } else {
            None
        }
    }

    /// The state with `value` noted down under `key`. The event tells of the key only.
    pub open spec fn annotated(
        self,
        id: u32,
        authorizer: Address,
        key: String,
        value: Seq<char>,
    ) -> VaultState {
        VaultState { metadata: self.metadata.insert((id, key@), value), ..self }.published(
            Event::MetadataSet { subscription_id: id, key, authorizer },
        )
    }

    /// Why `authorizer` cannot delete what is noted down under `key`.
    pub open spec fn erasure_refusal(self, id: u32, authorizer: Address, key: Seq<char>) -> Option<
        Failure,
    > {
        if self.metadata_refusal(id, authorizer) is Some {
            self.metadata_refusal(id, authorizer)
        } else if !self.metadata.contains_key((id, key)) {
            Some(Failure::Contract(Error::NotFound))
        } else {
            None
        }
    }

    /// The state with nothing noted down under `key`.
    pub open spec fn erased(self, id: u32, authorizer: Address, key: String) -> VaultState {
        VaultState { metadata: self.metadata.remove((id, key@)), ..self }.published(
            Event::MetadataDeleted { subscription_id: id, key, authorizer },
        )
    }
}

impl SubscriptionVault {
    /// Why `authorizer` cannot change what is noted down on a subscription, if so.
    fn refuse_annotation(&self, id: u32, authorizer: Address) -> (refusal: Option<Failure>)
        ensures
            refusal == self@.metadata_refusal(id, authorizer),
    {
        if !self.has_signed(authorizer) {
            return Some(Failure::Abort);
        }
        match self.find(id) {
            Some(subscription) => if authorizer != subscription.subscriber && authorizer
                != subscription.merchant {
                Some(Failure::Contract(Error::Forbidden))
            } else {
                None
            },
            None => Some(Failure::Contract(Error::NotFound)),
        }
    }

    /// Notes a value down on a subscription, on behalf of its subscriber or its merchant.
    pub fn set_metadata(&mut self, id: u32, authorizer: Address, key: String, value: String) -> (reply:
        Reply<()>)
        requires
            old(self)@.wf(),
        ensures
            settles(
                old(self)@,
                final(self)@,
                reply,
                old(self)@.metadata_refusal(id, authorizer),
                (),
                old(self)@.annotated(id, authorizer, key, value@),
            ),
            final(self)@.wf(),
    {
        if let Some(failure) = self.refuse_annotation(id, authorizer) {
            return Err(failure);
        }
        let book = self.metadata_book_mut();
        book.set(id, key.clone(), value);
        self.publish(Event::MetadataSet { subscription_id: id, key, authorizer });
        Ok(())
    }

    /// Deletes what is noted down on a subscription, on behalf of its subscriber or its merchant.
    pub fn delete_metadata(&mut self, id: u32, authorizer: Address, key: String) -> (reply: Reply<()>)
        requires
            old(self)@.wf(),
        ensures
            settles(
                old(self)@,
                final(self)@,
                reply,
                old(self)@.erasure_refusal(id, authorizer, key@),
                (),
                old(self)@.erased(id, authorizer, key),
            ),
            final(self)@.wf(),
    {
        if let Some(failure) = self.refuse_annotation(id, authorizer) {
            return Err(failure);
        }
        if self.metadata_book().get(id, &key).is_none() {
            return Err(Failure::Contract(Error::NotFound));
        }
        let book = self.metadata_book_mut();
        book.remove(id, &key);
        self.publish(Event::MetadataDeleted { subscription_id: id, key, authorizer });
        Ok(())
    }

    /// What is noted down on a subscription under a key.
    pub fn get_metadata(&self, id: u32, key: &String) -> (reply: Reply<&String>)
        ensures
            self@.metadata.contains_key((id, key@)) ==> reply is Ok && (reply->Ok_0)@
                == self@.metadata[(id, key@)],
            !self@.metadata.contains_key((id, key@)) ==> reply == Err::<&String, Failure>(
                Failure::Contract(Error::NotFound),
            ),
    {
        match self.metadata_book().get(id, key) {
            Some(value) => Ok(value),
            None => Err(Failure::Contract(Error::NotFound)),
        }
    }
}

/// What is noted down shows in no event: two values leave the same events behind.
pub proof fn law_metadata_values_are_never_published(
    state: VaultState,
    id: u32,
    authorizer: Address,
    key: String,
    one: Seq<char>,
    other: Seq<char>,
)
    ensures
        state.annotated(id, authorizer, key, one).events == state.annotated(
            id,
            authorizer,
            key,
            other,
        ).events,
{
}

/// What has been noted down is read back, and deleting it undoes the note.
pub proof fn law_metadata_is_read_back(
    state: VaultState,
    id: u32,
    authorizer: Address,
    key: String,
    value: Seq<char>,
)
    ensures
        state.annotated(id, authorizer, key, value).metadata.contains_key((id, key@)),
        state.annotated(id, authorizer, key, value).metadata[(id, key@)] == value,
        !state.metadata.contains_key((id, key@)) ==> state.annotated(
            id,
            authorizer,
            key,
            value,
        ).erased(id, authorizer, key).metadata == state.metadata,
{
    if !state.metadata.contains_key((id, key@)) {
        assert(state.annotated(id, authorizer, key, value).erased(id, authorizer, key).metadata
            =~= state.metadata);
    }
}

} // verus!

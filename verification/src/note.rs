//! Notes and the ordered collection that holds them.

use crate::helpers::{current_timestamp, Timestamp};
use vstd::prelude::*;

verus! {

/// A text with the moment at which it was first written.
#[derive(Debug)]
pub struct Note {
    pub text: String,
    pub created_at: Timestamp,
}

/// What a note is: its characters and its moment of creation.
pub struct NoteView {
    pub text: Seq<char>,
    pub created_at: Timestamp,
}

impl View for Note {
    type V = NoteView;

    open spec fn view(&self) -> NoteView {
        NoteView { text: self.text@, created_at: self.created_at }
    }
}

impl Clone for Note {
    fn clone(&self) -> (r: Self)
        ensures
            r@ == self@,
    {
        Note { text: self.text.clone(), created_at: self.created_at }
    }
}

/// An operation named a position at which the collection holds no note.
#[derive(Clone, Copy, Debug, PartialEq, Eq, Structural)]
pub struct IndexError {
    /// The position that was asked for.
    pub index: usize,
    /// How many notes the collection held.
    pub count: usize,
}

/// What a collection of notes is: the notes' views, in order.
pub open spec fn notes_view(notes: Seq<Note>) -> Seq<NoteView> {
    Seq::new(notes.len(), |i: int| notes[i]@)
}

/// The collection after a note is appended.
pub open spec fn created(notes: Seq<NoteView>, text: Seq<char>, at: Timestamp) -> Seq<NoteView> {
    notes.push(NoteView { text, created_at: at })
}

/// The collection after the note at `index` gets a new text. Its moment of
/// creation stays; a position outside the collection changes nothing.
pub open spec fn updated(notes: Seq<NoteView>, index: int, text: Seq<char>) -> Seq<NoteView> {
    if 0 <= index < notes.len() {
        notes.update(index, NoteView { text, created_at: notes[index].created_at })
    } else {
        notes
    }
}

/// The collection after the note at `index` is removed: those behind it move
/// up by one. A position outside the collection changes nothing.
pub open spec fn deleted(notes: Seq<NoteView>, index: int) -> Seq<NoteView> {
    if 0 <= index < notes.len() {
        notes.remove(index)
    } else {
        notes
    }
}

impl Note {
    /// A note with the given text, created at the given moment.
    pub fn with_timestamp(text: String, created_at: Timestamp) -> (r: Self)
        ensures
            r@ == (NoteView { text: text@, created_at }),
    {
        Note { text, created_at }
    }

    /// A note with the given text, created now.
    pub fn new(text: String) -> (r: Self)
        ensures
            r@.text == text@,
    {
        Self::with_timestamp(text, current_timestamp())
    }

    /// A copy of the note at `index`.
    pub fn get(notes: &Vec<Note>, index: usize) -> (r: Result<Note, IndexError>)
        ensures
            index < notes.len() ==> r.is_ok() && r.unwrap()@ == notes[index as int]@,
            index >= notes.len() ==> r == Err::<Note, IndexError>(
                IndexError { index, count: notes.len() },
            ),
    {
        if index < notes.len() {
            Ok(notes[index].clone())
        } else {
            Err(IndexError { index, count: notes.len() })
        }
    }

    /// A copy of the whole collection, in order.
    pub fn get_all(notes: &Vec<Note>) -> (r: Vec<Note>)
        ensures
            notes_view(r@) == notes_view(notes@),
    {
        let mut copy: Vec<Note> = Vec::new();
        let mut i: usize = 0;
        while i < notes.len()
            invariant
                i <= notes.len(),
                copy.len() == i,
                forall|k: int| 0 <= k < i ==> copy[k]@ == notes[k]@,
            decreases notes.len() - i,
        {
            copy.push(notes[i].clone());
            i += 1;
        }
        assert(notes_view(copy@) =~= notes_view(notes@));
        copy
    }

    /// How many notes the collection holds.
    pub fn get_count(notes: &Vec<Note>) -> (r: usize)
        ensures
            r == notes.len(),
            r == notes_view(notes@).len(),
    {
        notes.len()
    }

    /// Appends a note with the given text and moment of creation.
    pub fn append(notes: &mut Vec<Note>, text: String, created_at: Timestamp)
        ensures
            notes_view(final(notes)@) == created(notes_view(old(notes)@), text@, created_at),
    {
        notes.push(Self::with_timestamp(text, created_at));
        assert(notes_view(notes@) =~= created(notes_view(old(notes)@), text@, created_at));
    }

    /// Appends a note with the given text, created now.
    pub fn create(notes: &mut Vec<Note>, text: String)
        ensures
            exists|at: Timestamp|
                notes_view(final(notes)@) == #[trigger] created(
                    notes_view(old(notes)@),
                    text@,
                    at,
                ),
    {
        let at = current_timestamp();
        Self::append(notes, text, at);
    }

    /// Gives the note at `index` a new text and keeps its moment of creation.
    pub fn update(notes: &mut Vec<Note>, index: usize, new_text: String) -> (r: Result<
        (),
        IndexError,
    >)
        ensures
            notes_view(final(notes)@) == updated(notes_view(old(notes)@), index as int, new_text@),
            index < old(notes).len() ==> r.is_ok(),
            index >= old(notes).len() ==> r == Err::<(), IndexError>(
                IndexError { index, count: old(notes).len() },
            ),
    {
        if index < notes.len() {
            let created_at = notes[index].created_at;
            notes.set(index, Self::with_timestamp(new_text, created_at));
            assert(notes_view(notes@) =~= updated(
                notes_view(old(notes)@),
                index as int,
                new_text@,
            ));
            Ok(())
        } else {
            Err(IndexError { index, count: notes.len() })
        }
    }

    /// Removes the note at `index`.
    pub fn delete(notes: &mut Vec<Note>, index: usize) -> (r: Result<(), IndexError>)
        ensures
            notes_view(final(notes)@) == deleted(notes_view(old(notes)@), index as int),
            index < old(notes).len() ==> r.is_ok(),
            index >= old(notes).len() ==> r == Err::<(), IndexError>(
                IndexError { index, count: old(notes).len() },
            ),
    {
        if index < notes.len() {
            notes.remove(index);
            assert(notes_view(notes@) =~= deleted(notes_view(old(notes)@), index as int));
            Ok(())
        } else {
            Err(IndexError { index, count: notes.len() })
        }
    }
}

/// One mutation of a collection of notes.
pub enum StoreOp {
    Create { text: Seq<char>, at: Timestamp },
    Update { index: int, text: Seq<char> },
    Delete { index: int },
}

/// Whether the operation, if it is a deletion, names a position that the
/// collection has.
pub open spec fn deletion_applies(notes: Seq<NoteView>, op: StoreOp) -> bool {
    op matches StoreOp::Delete { index } ==> 0 <= index < notes.len()
}

/// The collection after one operation.
pub open spec fn apply(notes: Seq<NoteView>, op: StoreOp) -> Seq<NoteView> {
    match op {
        StoreOp::Create { text, at } => created(notes, text, at),
        StoreOp::Update { index, text } => updated(notes, index, text),
        StoreOp::Delete { index } => deleted(notes, index),
    }
}

/// The collection after the operations, first to last.
pub open spec fn replay(notes: Seq<NoteView>, ops: Seq<StoreOp>) -> Seq<NoteView>
    decreases ops.len(),
{
    if ops.len() == 0 {
        notes
    } else {
        apply(replay(notes, ops.drop_last()), ops.last())
    }
}

/// Whether each deletion among the operations, at its turn, names a
/// position that the collection then has.
pub open spec fn deletions_apply(notes: Seq<NoteView>, ops: Seq<StoreOp>) -> bool
    decreases ops.len(),
{
    ops.len() == 0 || (deletions_apply(notes, ops.drop_last()) && deletion_applies(
        replay(notes, ops.drop_last()),
        ops.last(),
    ))
}

/// How many of the operations append a note.
pub open spec fn creations(ops: Seq<StoreOp>) -> nat
    decreases ops.len(),
{
    if ops.len() == 0 {
        0
    } else {
        creations(ops.drop_last()) + if ops.last() is Create {
            1nat
        } else {
            0nat
        }
    }
}

/// How many of the operations remove a note.
pub open spec fn deletions(ops: Seq<StoreOp>) -> nat
    decreases ops.len(),
{
    if ops.len() == 0 {
        0
    } else {
        deletions(ops.drop_last()) + if ops.last() is Delete {
            1nat
        } else {
            0nat
        }
    }
}

/// After any run of operations in which each deletion found its note, the
/// collection has grown by the number of creations and shrunk by the number
/// of deletions; updates do not count, whether they found their note or not.
pub proof fn lemma_replay_count(notes: Seq<NoteView>, ops: Seq<StoreOp>)
    requires
        deletions_apply(notes, ops),
    ensures
        replay(notes, ops).len() == notes.len() + creations(ops) - deletions(ops),
    decreases ops.len(),
{
    if ops.len() > 0 {
        lemma_replay_count(notes, ops.drop_last());
    }
}

/// Replayed on an empty collection, such a run leaves as many notes as it
/// has creations less its deletions.
pub proof fn lemma_replay_count_from_empty(ops: Seq<StoreOp>)
    requires
        deletions_apply(Seq::empty(), ops),
    ensures
        replay(Seq::empty(), ops).len() == creations(ops) - deletions(ops),
{
    lemma_replay_count(Seq::empty(), ops);
}

/// An update keeps every other note, and the moment of creation of the one
/// it rewrites.
pub proof fn lemma_update_keeps_the_rest(notes: Seq<NoteView>, index: int, text: Seq<char>)
    requires
        0 <= index < notes.len(),
    ensures
        updated(notes, index, text).len() == notes.len(),
        updated(notes, index, text)[index].text == text,
        updated(notes, index, text)[index].created_at == notes[index].created_at,
        forall|k: int|
            0 <= k < notes.len() && k != index ==> updated(notes, index, text)[k] == notes[k],
{
}

/// A deletion moves the notes behind the position up by one and keeps those
/// before it.
pub proof fn lemma_delete_shifts(notes: Seq<NoteView>, index: int)
    requires
        0 <= index < notes.len(),
    ensures
        deleted(notes, index).len() == notes.len() - 1,
        forall|k: int| 0 <= k < index ==> deleted(notes, index)[k] == notes[k],
        forall|k: int| index <= k < notes.len() - 1 ==> deleted(notes, index)[k] == notes[k + 1],
{
}

} // verus!

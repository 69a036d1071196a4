//! The selection cursor and the input session.

use crate::helpers::InputMode;
use crate::note::{deleted, notes_view, IndexError, Note, NoteView};
use vstd::prelude::*;

verus! {

/// tui's `ListState`, carried as it is: what it holds is read through
/// `selection` alone.
#[verifier::external_type_specification]
#[verifier::external_body]
pub struct ExListState(tui::widgets::ListState);

/// The position that a list state has selected, if any.
pub uninterp spec fn selection(list: tui::widgets::ListState) -> Option<usize>;

/// `ListState::selected` of tui: the position last stored by `select`.
pub assume_specification[ tui::widgets::ListState::selected ](
    list: &tui::widgets::ListState,
) -> (r: Option<usize>)
    ensures
        r == selection(*list),
;

/// `ListState::select` of tui: stores the position as the selected one.
pub assume_specification[ tui::widgets::ListState::select ](
    list: &mut tui::widgets::ListState,
    index: Option<usize>,
)
    ensures
        selection(*final(list)) == index,
;

/// `ListState::default` of tui: a list state with nothing selected.
#[verifier::external_body]
fn empty_list_state() -> (r: tui::widgets::ListState)
    ensures
        selection(r).is_none(),
{
    tui::widgets::ListState::default()
}

/// The position after `index` in a circular list of `count` positions.
pub open spec fn next_index(index: int, count: int) -> int {
    if index == count - 1 {
        0
    } else {
        index + 1
    }
}

/// The position before `index` in a circular list of `count` positions.
pub open spec fn previous_index(index: int, count: int) -> int {
    if index > 0 {
        index - 1
    } else {
        count - 1
    }
}

/// Where the cursor stands once the note under it is gone: one position up,
/// or at the top if it was there already.
pub open spec fn index_after_delete(index: int) -> int {
    if index == 0 {
        0
    } else {
        index - 1
    }
}

/// `steps` moves forward from `index`.
pub open spec fn next_times(index: int, count: int, steps: nat) -> int
    decreases steps,
{
    if steps == 0 {
        index
    } else {
        next_index(next_times(index, count, (steps - 1) as nat), count)
    }
}

/// `steps` moves backward from `index`.
pub open spec fn previous_times(index: int, count: int, steps: nat) -> int
    decreases steps,
{
    if steps == 0 {
        index
    } else {
        previous_index(previous_times(index, count, (steps - 1) as nat), count)
    }
}

/// The cursor, the input mode and the text typed so far.
pub struct State {
    pub notes_state: tui::widgets::ListState,
    pub input_mode: InputMode,
    pub input: String,
}

impl State {
    /// The selected position.
    pub open spec fn cursor(&self) -> Option<usize> {
        selection(self.notes_state)
    }

    /// The cursor is set: it stands on one of the `count` notes, or at the
    /// top while there is none.
    pub open spec fn wf(&self, count: nat) -> bool {
        match self.cursor() {
            Some(i) => i < count || i == 0,
            None => false,
        }
    }

    /// While nothing is being typed the buffer is empty.
    pub open spec fn idle_is_empty(&self) -> bool {
        self.input_mode == InputMode::Null ==> self.input@.len() == 0
    }

    /// The state at start: the first position selected, nothing being typed.
    #[must_use]
    pub fn new() -> (r: Self)
        ensures
            r.cursor() == Some(0usize),
            r.input_mode == InputMode::Null,
            r.input@ == Seq::<char>::empty(),
            forall|count: nat| r.wf(count),
            r.idle_is_empty(),
    {
        let mut notes_state = empty_list_state();
        notes_state.select(Some(0));
        Self { notes_state, input_mode: InputMode::Null, input: String::new() }
    }

    /// Hands out the typed text and leaves the buffer empty.
    #[must_use]
    pub fn take_input(&mut self) -> (r: String)
        ensures
            r@ == old(self).input@,
            final(self).input@ == Seq::<char>::empty(),
            final(self).notes_state == old(self).notes_state,
            final(self).input_mode == old(self).input_mode,
    {
        let taken = self.input.clone();
        self.input = String::new();
        taken
    }

    /// Appends one character to the typed text.
    pub fn write_input(&mut self, ch: char)
        ensures
            final(self).input@ == old(self).input@.push(ch),
            final(self).notes_state == old(self).notes_state,
            final(self).input_mode == old(self).input_mode,
    {
        self.input.push(ch);
    }

    /// Removes the last character of the typed text; empty text stays empty.
    pub fn pop_input(&mut self)
        ensures
            old(self).input@.len() == 0 ==> final(self).input@ == old(self).input@,
            old(self).input@.len() > 0 ==> final(self).input@ == old(self).input@.drop_last(),
            final(self).notes_state == old(self).notes_state,
            final(self).input_mode == old(self).input_mode,
    {
        let _ = self.input.pop();
    }

    /// Moves the cursor one note up; from the first note to the last of
    /// `count`. With no cursor set nothing moves.
    pub fn select_previous_note(&mut self, count: usize)
        requires
            count > 0,
        ensures
            match old(self).cursor() {
                Some(i) => final(self).cursor() == Some(previous_index(i as int, count as int) as usize),
                None => final(self).cursor().is_none(),
            },
            final(self).input_mode == old(self).input_mode,
            final(self).input == old(self).input,
            old(self).wf(count as nat) ==> final(self).wf(count as nat),
    {
        if let Some(selected_index) = self.notes_state.selected() {
            if selected_index > 0 {
                self.notes_state.select(Some(selected_index - 1));
            } else {
                self.notes_state.select(Some(count - 1));
            }
        }
    }

    /// Moves the cursor one note down; from the last of `count` notes to the
    /// first. With no cursor set nothing moves.
    pub fn select_next_note(&mut self, count: usize)
        requires
            count > 0,
            old(self).cursor() matches Some(i) ==> i < usize::MAX,
        ensures
            match old(self).cursor() {
                Some(i) => final(self).cursor() == Some(next_index(i as int, count as int) as usize),
                None => final(self).cursor().is_none(),
            },
            final(self).input_mode == old(self).input_mode,
            final(self).input == old(self).input,
            old(self).wf(count as nat) ==> final(self).wf(count as nat),
    {
        if let Some(selected_index) = self.notes_state.selected() {
            if selected_index == count - 1 {
                self.notes_state.select(Some(0));
            } else {
                self.notes_state.select(Some(selected_index + 1));
            }
        }
    }
}

/// Removes the note under the cursor and moves the cursor one position up,
/// unless it stood at the top. A cursor that stands on no note is an error
/// and changes nothing.
pub fn delete_selected_note(notes_state: &mut tui::widgets::ListState, notes: &mut Vec<Note>) -> (r:
    Result<(), IndexError>)
    requires
        selection(*old(notes_state)).is_some(),
    ensures
        ({
            let index = selection(*old(notes_state)).unwrap();
            if index < old(notes).len() {
                &&& r.is_ok()
                &&& notes_view(final(notes)@) == deleted(notes_view(old(notes)@), index as int)
                &&& selection(*final(notes_state)) == Some(index_after_delete(index as int) as usize)
            } else {
                &&& r == Err::<(), IndexError>(IndexError { index, count: old(notes).len() })
                &&& notes_view(final(notes)@) == notes_view(old(notes)@)
                &&& *final(notes_state) == *old(notes_state)
            }
        }),
{
    let index = notes_state.selected().unwrap();
    match Note::delete(notes, index) {
        Ok(()) => {
            let new_selected_index: usize = if index == 0 {
                0
            } else {
                index - 1
            };
            notes_state.select(Some(new_selected_index));
            Ok(())
        },
        Err(e) => Err(e),
    }
}

/// Once the note under the cursor is deleted, the cursor stands on a note
/// again if one is left: on the one that was before it, or, deleted at the
/// top, on the one that was second.
pub proof fn lemma_cursor_after_delete(notes: Seq<NoteView>, index: int)
    requires
        0 <= index < notes.len(),
    ensures
        notes.len() > 1 ==> 0 <= index_after_delete(index) < deleted(notes, index).len(),
        notes.len() > 1 && index == 0 ==> deleted(notes, index)[index_after_delete(index)]
            == notes[1],
        index > 0 ==> deleted(notes, index)[index_after_delete(index)] == notes[index - 1],
{
}

/// Moving down and then up, or up and then down, leaves the cursor where it
/// was and on a note.
pub proof fn lemma_next_previous_inverse(index: int, count: int)
    requires
        0 <= index < count,
    ensures
        previous_index(next_index(index, count), count) == index,
        next_index(previous_index(index, count), count) == index,
        0 <= next_index(index, count) < count,
        0 <= previous_index(index, count) < count,
{
}

/// Where `steps` moves forward lead, for no more steps than there are notes.
pub proof fn lemma_next_times(index: int, count: int, steps: nat)
    requires
        0 <= index < count,
        steps <= count,
    ensures
        next_times(index, count, steps) == if index + steps < count {
            index + steps
        } else {
            index + steps - count
        },
    decreases steps,
{
    if steps > 0 {
        lemma_next_times(index, count, (steps - 1) as nat);
    }
}

/// Where `steps` moves backward lead, for no more steps than there are notes.
pub proof fn lemma_previous_times(index: int, count: int, steps: nat)
    requires
        0 <= index < count,
        steps <= count,
    ensures
        previous_times(index, count, steps) == if steps <= index {
            index - steps
        } else {
            index - steps + count
        },
    decreases steps,
{
    if steps > 0 {
        lemma_previous_times(index, count, (steps - 1) as nat);
    }
}

/// As many moves in one direction as there are notes bring the cursor back
/// to where it started.
pub proof fn lemma_full_circle(index: int, count: nat)
    requires
        0 <= index < count,
    ensures
        next_times(index, count as int, count) == index,
        previous_times(index, count as int, count) == index,
{
    lemma_next_times(index, count as int, count);
    lemma_previous_times(index, count as int, count);
}

} // verus!

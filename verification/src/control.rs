//! What each key press does to the cursor, the input session and the notes.

use crate::helpers::{current_timestamp, InputMode, Timestamp};
use crate::note::{created, deleted, notes_view, updated, IndexError, Note, NoteView};
use crate::state::{
    delete_selected_note, index_after_delete, next_index, previous_index, State,
};
use vstd::prelude::*;

verus! {

/// A key press, as far as the notes care.
#[derive(Clone, Copy, Debug, PartialEq, Eq, Structural)]
pub enum Key {
    /// A character key; Enter is the line feed.
    Char(char),
    Esc,
    Backspace,
    /// Any other key.
    Other,
}

/// What is left to do once a key press has been handled.
#[derive(Clone, Copy, Debug, PartialEq, Eq, Structural)]
pub enum Action {
    /// Nothing but to show the screen and wait for the next key.
    Wait,
    /// The collection has changed and is to be written back.
    Store,
    /// The session is over.
    Quit,
}

/// Everything a key press can read or change.
pub struct Session {
    pub cursor: Option<usize>,
    pub mode: InputMode,
    pub input: Seq<char>,
    pub notes: Seq<NoteView>,
}

/// The session that a state and a collection of notes make up.
pub open spec fn session(state: State, notes: Seq<Note>) -> Session {
    Session {
        cursor: state.cursor(),
        mode: state.input_mode,
        input: state.input@,
        notes: notes_view(notes),
    }
}

/// A key press while nothing is being typed: `q` quits, `c` starts a new
/// note with an empty buffer; with notes at hand, `u` starts retyping the
/// selected note from its text, `d` deletes it, `j` and `k` move the cursor
/// down and up in a circle. Every other key does nothing.
pub open spec fn step_idle(s: Session, key: Key) -> (Session, Result<Action, IndexError>) {
    let index = s.cursor.unwrap();
    let count = s.notes.len();
    if key == Key::Char('q') {
        (s, Ok(Action::Quit))
    } else if key == Key::Char('c') {
        (Session { mode: InputMode::Creating, input: Seq::empty(), ..s }, Ok(Action::Wait))
    } else if key == Key::Char('u') && count > 0 {
        (
            Session { mode: InputMode::Updating, input: s.notes[index as int].text, ..s },
            Ok(Action::Wait),
        )
    } else if key == Key::Char('d') && count > 0 {
        (
            Session {
                cursor: Some(index_after_delete(index as int) as usize),
                notes: deleted(s.notes, index as int),
                ..s
            },
            Ok(Action::Store),
        )
    } else if key == Key::Char('k') && count > 0 {
        (
            Session { cursor: Some(previous_index(index as int, count as int) as usize), ..s },
            Ok(Action::Wait),
        )
    } else if key == Key::Char('j') && count > 0 {
        (
            Session { cursor: Some(next_index(index as int, count as int) as usize), ..s },
            Ok(Action::Wait),
        )
    } else {
        (s, Ok(Action::Wait))
    }
}

/// A key press while a text is being typed, but for Enter: Escape drops the
/// text and ends the typing, Backspace removes the last character if there
/// is one, a character key appends its character.
pub open spec fn step_typing(s: Session, key: Key) -> Session {
    match key {
        Key::Esc => Session { mode: InputMode::Null, input: Seq::empty(), ..s },
        Key::Backspace => if s.input.len() > 0 {
            Session { input: s.input.drop_last(), ..s }
        } else {
            s
        },
        Key::Char(c) => Session { input: s.input.push(c), ..s },
        Key::Other => s,
    }
}

/// Enter while a new note is being typed: the text becomes the last note,
/// created at `now`.
pub open spec fn commit_create(s: Session, now: Timestamp) -> Session {
    Session {
        mode: InputMode::Null,
        input: Seq::empty(),
        notes: created(s.notes, s.input, now),
        ..s
    }
}

/// Enter while the selected note is being retyped: the text replaces that
/// note's. Where the cursor stands on no note the text is lost, nothing else
/// changes, and the key press fails.
pub open spec fn commit_update(s: Session) -> (Session, Result<Action, IndexError>) {
    let index = s.cursor.unwrap();
    if index < s.notes.len() {
        (
            Session {
                mode: InputMode::Null,
                input: Seq::empty(),
                notes: updated(s.notes, index as int, s.input),
                ..s
            },
            Ok(Action::Store),
        )
    } else {
        (
            Session { input: Seq::empty(), ..s },
            Err(IndexError { index, count: s.notes.len() as usize }),
        )
    }
}

/// The session after a key press at the moment `now`, and what is left to
/// do.
pub open spec fn step(s: Session, key: Key, now: Timestamp) -> (Session, Result<
    Action,
    IndexError,
>) {
    match s.mode {
        InputMode::Null => step_idle(s, key),
        InputMode::Creating => if key == Key::Char('\n') {
            (commit_create(s, now), Ok(Action::Store))
        } else {
            (step_typing(s, key), Ok(Action::Wait))
        },
        InputMode::Updating => if key == Key::Char('\n') {
            commit_update(s)
        } else {
            (step_typing(s, key), Ok(Action::Wait))
        },
    }
}

/// Whether a state, a collection and a result are what a step promised.
pub open spec fn reached(
    state: State,
    notes: Seq<Note>,
    r: Result<Action, IndexError>,
    target: (Session, Result<Action, IndexError>),
) -> bool {
    &&& state.cursor() == target.0.cursor
    &&& state.input_mode == target.0.mode
    &&& state.input@ == target.0.input
    &&& notes_view(notes) == target.0.notes
    &&& r == target.1
}

fn handle_idle_key(state: &mut State, notes: &mut Vec<Note>, key: Key) -> (r: Result<
    Action,
    IndexError,
>)
    requires
        old(state).wf(old(notes).len() as nat),
        old(state).input_mode == InputMode::Null,
    ensures
        reached(
            *final(state),
            final(notes)@,
            r,
            step_idle(session(*old(state), old(notes)@), key),
        ),
        final(state).wf(final(notes).len() as nat),
        old(state).idle_is_empty() ==> final(state).idle_is_empty(),
{
    let count = Note::get_count(notes);
    let c = match key {
        Key::Char(c) => c,
        _ => { return Ok(Action::Wait); },
    };
    if c == 'q' {
        Ok(Action::Quit)
    } else if c == 'c' {
        state.input = String::new();
        state.input_mode = InputMode::Creating;
        Ok(Action::Wait)
    } else if c == 'u' && count > 0 {
        let index = state.notes_state.selected().unwrap();
        let note = Note::get(notes, index)?;
        state.input = note.text;
        state.input_mode = InputMode::Updating;
        Ok(Action::Wait)
    } else if c == 'd' && count > 0 {
        delete_selected_note(&mut state.notes_state, notes)?;
        assert(notes_view(notes@).len() == notes.len());
        assert(notes_view(old(notes)@).len() == old(notes).len());
        Ok(Action::Store)
    } else if c == 'k' && count > 0 {
        state.select_previous_note(count);
        Ok(Action::Wait)
    } else if c == 'j' && count > 0 {
        state.select_next_note(count);
        Ok(Action::Wait)
    } else {
        Ok(Action::Wait)
    }
}

fn handle_typing_key(state: &mut State, key: Key)
    ensures
        final(state).cursor() == old(state).cursor(),
        final(state).notes_state == old(state).notes_state,
        final(state).input_mode == step_typing(
            Session {
                cursor: old(state).cursor(),
                mode: old(state).input_mode,
                input: old(state).input@,
                notes: Seq::empty(),
            },
            key,
        ).mode,
        final(state).input@ == step_typing(
            Session {
                cursor: old(state).cursor(),
                mode: old(state).input_mode,
                input: old(state).input@,
                notes: Seq::empty(),
            },
            key,
        ).input,
{
    match key {
        Key::Esc => {
            state.input = String::new();
            state.input_mode = InputMode::Null;
        },
        Key::Backspace => state.pop_input(),
        Key::Char(c) => state.write_input(c),
        Key::Other => {},
    }
}

/// Handles one key press that arrives at the moment `now`.
///
/// Fails only where Enter ends the retyping of a note and the cursor stands
/// on none.
pub fn handle_key_at(state: &mut State, notes: &mut Vec<Note>, key: Key, now: Timestamp) -> (r:
    Result<Action, IndexError>)
    requires
        old(state).wf(old(notes).len() as nat),
    ensures
        reached(
            *final(state),
            final(notes)@,
            r,
            step(session(*old(state), old(notes)@), key, now),
        ),
        final(state).wf(final(notes).len() as nat),
        old(state).idle_is_empty() ==> final(state).idle_is_empty(),
{
    let enter = match key {
        Key::Char(c) => c == '\n',
        _ => false,
    };
    match state.input_mode {
        InputMode::Null => handle_idle_key(state, notes, key),
        InputMode::Creating => {
            if enter {
                let text = state.take_input();
                Note::append(notes, text, now);
                state.input_mode = InputMode::Null;
                assert(notes_view(notes@).len() == notes.len());
                assert(notes_view(old(notes)@).len() == old(notes).len());
                Ok(Action::Store)
            } else {
                handle_typing_key(state, key);
                Ok(Action::Wait)
            }
        },
        InputMode::Updating => {
            if enter {
                let index = state.notes_state.selected().unwrap();
                let text = state.take_input();
                let updated = Note::update(notes, index, text);
                assert(notes_view(notes@).len() == notes.len());
                assert(notes_view(old(notes)@).len() == old(notes).len());
                updated?;
                state.input_mode = InputMode::Null;
                Ok(Action::Store)
            } else {
                handle_typing_key(state, key);
                Ok(Action::Wait)
            }
        },
    }
}

/// Handles one key press; a note that it creates is created now.
pub fn handle_key(state: &mut State, notes: &mut Vec<Note>, key: Key) -> (r: Result<
    Action,
    IndexError,
>)
    requires
        old(state).wf(old(notes).len() as nat),
    ensures
        exists|now: Timestamp|
            reached(
                *final(state),
                final(notes)@,
                r,
                #[trigger] step(session(*old(state), old(notes)@), key, now),
            ),
        final(state).wf(final(notes).len() as nat),
        old(state).idle_is_empty() ==> final(state).idle_is_empty(),
{
    let creates = match (state.input_mode, key) {
        (InputMode::Creating, Key::Char(c)) => c == '\n',
        _ => false,
    };
    // Only the creation of a note reads the clock.
    let now = if creates {
        current_timestamp()
    } else {
        Timestamp { secs: 0, nanos: 0 }
    };
    handle_key_at(state, notes, key, now)
}

/// Backspace on an empty buffer changes nothing, whichever text is being
/// typed.
pub proof fn lemma_backspace_on_empty(s: Session, now: Timestamp)
    requires
        s.mode != InputMode::Null,
        s.input.len() == 0,
    ensures
        step(s, Key::Backspace, now) == (s, Ok::<Action, IndexError>(Action::Wait)),
{
}

/// Escape ends the typing, drops the text and leaves the notes and the
/// cursor as they were.
pub proof fn lemma_escape_cancels(s: Session, now: Timestamp)
    requires
        s.mode != InputMode::Null,
    ensures
        step(s, Key::Esc, now) == (
            Session { mode: InputMode::Null, input: Seq::empty(), ..s },
            Ok::<Action, IndexError>(Action::Wait),
        ),
{
}

/// A key press changes the number of notes by one at most: Enter on a new
/// note adds one, `d` on a selected note removes one, every other key
/// leaves the number as it was.
pub proof fn lemma_step_count(s: Session, key: Key, now: Timestamp)
    requires
        s.cursor matches Some(i) && (i < s.notes.len() || i == 0),
    ensures
        step(s, key, now).0.notes.len() == s.notes.len() + (if s.mode == InputMode::Creating && key
            == Key::Char('\n') {
            1int
        } else if s.mode == InputMode::Null && key == Key::Char('d') && s.notes.len() > 0 {
            -1int
        } else {
            0int
        }),
{
}

} // verus!

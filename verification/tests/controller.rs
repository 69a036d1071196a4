use notes_tui::control::{handle_key, handle_key_at, Action, Key};
use notes_tui::helpers::{InputMode, Timestamp};
use notes_tui::note::{IndexError, Note};
use notes_tui::state::{delete_selected_note, State};

fn store(texts: &[&str]) -> Vec<Note> {
    let mut notes = Vec::new();
    for (i, t) in texts.iter().enumerate() {
        Note::append(&mut notes, t.to_string(), Timestamp { secs: 100 + i as i64, nanos: 0 });
    }
    notes
}

fn texts(notes: &Vec<Note>) -> Vec<String> {
    notes.iter().map(|n| n.text.clone()).collect()
}

fn state_at(cursor: usize) -> State {
    let mut state = State::new();
    state.notes_state.select(Some(cursor));
    state
}

fn press(state: &mut State, notes: &mut Vec<Note>, keys: &str) {
    for c in keys.chars() {
        assert_eq!(handle_key(state, notes, Key::Char(c)), Ok(Action::Wait));
    }
}

#[test]
fn new_state_selects_the_first_note_and_is_idle() {
    let state = State::new();
    assert_eq!(state.notes_state.selected(), Some(0));
    assert_eq!(state.input_mode, InputMode::Null);
    assert_eq!(state.input, "");
}

#[test]
fn select_next_wraps_from_the_last_note() {
    let notes = store(&["a", "b", "c"]);
    let mut state = state_at(2);
    state.select_next_note(notes.len());
    assert_eq!(state.notes_state.selected(), Some(0));
}

#[test]
fn select_next_moves_down_by_one() {
    let mut state = state_at(0);
    state.select_next_note(3);
    assert_eq!(state.notes_state.selected(), Some(1));
}

#[test]
fn select_previous_wraps_from_the_first_note() {
    let mut state = state_at(0);
    state.select_previous_note(3);
    assert_eq!(state.notes_state.selected(), Some(2));
    state.select_previous_note(3);
    assert_eq!(state.notes_state.selected(), Some(1));
}

#[test]
fn selection_without_a_cursor_stays_unset() {
    let mut state = State::new();
    state.notes_state.select(None);
    state.select_next_note(3);
    assert_eq!(state.notes_state.selected(), None);
    state.select_previous_note(3);
    assert_eq!(state.notes_state.selected(), None);
}

#[test]
fn next_and_previous_undo_each_other() {
    for count in 1..6usize {
        for start in 0..count {
            let mut state = state_at(start);
            state.select_next_note(count);
            state.select_previous_note(count);
            assert_eq!(state.notes_state.selected(), Some(start));
            state.select_previous_note(count);
            state.select_next_note(count);
            assert_eq!(state.notes_state.selected(), Some(start));
        }
    }
}

#[test]
fn as_many_moves_as_notes_come_full_circle() {
    for count in 1..6usize {
        for start in 0..count {
            let mut state = state_at(start);
            for _ in 0..count {
                state.select_next_note(count);
            }
            assert_eq!(state.notes_state.selected(), Some(start));
            for _ in 0..count {
                state.select_previous_note(count);
            }
            assert_eq!(state.notes_state.selected(), Some(start));
        }
    }
}

#[test]
fn deleting_the_first_of_three_keeps_the_cursor_at_the_top() {
    let mut notes = store(&["a", "b", "c"]);
    let mut state = state_at(0);
    assert_eq!(delete_selected_note(&mut state.notes_state, &mut notes), Ok(()));
    assert_eq!(state.notes_state.selected(), Some(0));
    assert_eq!(texts(&notes), vec!["b", "c"]);
    assert_eq!(Note::get(&notes, 0).unwrap().text, "b");
}

#[test]
fn deleting_further_down_moves_the_cursor_up() {
    let mut notes = store(&["a", "b", "c"]);
    let mut state = state_at(2);
    assert_eq!(delete_selected_note(&mut state.notes_state, &mut notes), Ok(()));
    assert_eq!(state.notes_state.selected(), Some(1));
    assert_eq!(texts(&notes), vec!["a", "b"]);
}

#[test]
fn deleting_where_no_note_stands_is_an_index_error() {
    let mut notes = store(&["a"]);
    let mut state = state_at(4);
    assert_eq!(
        delete_selected_note(&mut state.notes_state, &mut notes),
        Err(IndexError { index: 4, count: 1 })
    );
    assert_eq!(state.notes_state.selected(), Some(4));
    assert_eq!(texts(&notes), vec!["a"]);
}

#[test]
fn take_input_drains_the_buffer() {
    let mut state = State::new();
    state.write_input('h');
    state.write_input('i');
    assert_eq!(state.input, "hi");
    assert_eq!(state.take_input(), "hi");
    assert_eq!(state.input, "");
}

#[test]
fn pop_input_removes_the_last_character() {
    let mut state = State::new();
    state.write_input('a');
    state.write_input('\u{e9}');
    state.pop_input();
    assert_eq!(state.input, "a");
}

#[test]
fn backspace_on_an_empty_buffer_does_nothing() {
    let mut state = State::new();
    state.pop_input();
    assert_eq!(state.input, "");
    let mut notes = store(&[]);
    state.input_mode = InputMode::Creating;
    assert_eq!(handle_key(&mut state, &mut notes, Key::Backspace), Ok(Action::Wait));
    assert_eq!(state.input, "");
    assert_eq!(state.input_mode, InputMode::Creating);
    assert_eq!(notes.len(), 0);
}

#[test]
fn typing_a_note_and_pressing_enter_creates_it() {
    let mut notes = store(&[]);
    let mut state = State::new();
    press(&mut state, &mut notes, "c");
    assert_eq!(state.input_mode, InputMode::Creating);
    press(&mut state, &mut notes, "hi");
    assert_eq!(state.input, "hi");
    assert_eq!(handle_key(&mut state, &mut notes, Key::Char('\n')), Ok(Action::Store));
    assert_eq!(state.input_mode, InputMode::Null);
    assert_eq!(state.input, "");
    assert_eq!(texts(&notes), vec!["hi"]);
    assert!(notes[0].created_at.secs > 1_600_000_000);
}

#[test]
fn enter_stamps_the_note_with_the_given_moment() {
    let mut notes = store(&["a"]);
    let mut state = State::new();
    state.input_mode = InputMode::Creating;
    state.write_input('z');
    let now = Timestamp { secs: 42, nanos: 9 };
    assert_eq!(handle_key_at(&mut state, &mut notes, Key::Char('\n'), now), Ok(Action::Store));
    assert_eq!(texts(&notes), vec!["a", "z"]);
    assert_eq!(notes[1].created_at, now);
    assert_eq!(notes[0].created_at, Timestamp { secs: 100, nanos: 0 });
}

#[test]
fn escape_discards_the_buffer_and_leaves_the_store() {
    let mut notes = store(&["a"]);
    let mut state = State::new();
    state.input_mode = InputMode::Creating;
    for c in "test".chars() {
        state.write_input(c);
    }
    assert_eq!(handle_key(&mut state, &mut notes, Key::Esc), Ok(Action::Wait));
    assert_eq!(state.input_mode, InputMode::Null);
    assert_eq!(state.input, "");
    assert_eq!(texts(&notes), vec!["a"]);
}

#[test]
fn starting_a_new_note_empties_the_buffer() {
    let mut notes = store(&[]);
    let mut state = State::new();
    state.write_input('x');
    press(&mut state, &mut notes, "c");
    assert_eq!(state.input_mode, InputMode::Creating);
    assert_eq!(state.input, "");
}

#[test]
fn update_starts_from_the_selected_text_and_replaces_it() {
    let mut notes = store(&["a", "b", "c"]);
    let mut state = state_at(1);
    press(&mut state, &mut notes, "u");
    assert_eq!(state.input_mode, InputMode::Updating);
    assert_eq!(state.input, "b");
    assert_eq!(handle_key(&mut state, &mut notes, Key::Backspace), Ok(Action::Wait));
    press(&mut state, &mut notes, "BB");
    assert_eq!(handle_key(&mut state, &mut notes, Key::Char('\n')), Ok(Action::Store));
    assert_eq!(state.input_mode, InputMode::Null);
    assert_eq!(state.input, "");
    assert_eq!(texts(&notes), vec!["a", "BB", "c"]);
    assert_eq!(notes[1].created_at, Timestamp { secs: 101, nanos: 0 });
    assert_eq!(state.notes_state.selected(), Some(1));
}

#[test]
fn commands_on_notes_do_nothing_without_notes() {
    let mut notes = store(&[]);
    let mut state = State::new();
    press(&mut state, &mut notes, "udjk");
    assert_eq!(state.input_mode, InputMode::Null);
    assert_eq!(state.notes_state.selected(), Some(0));
    assert_eq!(notes.len(), 0);
}

#[test]
fn idle_keys_move_delete_and_quit() {
    let mut notes = store(&["a", "b", "c"]);
    let mut state = State::new();
    press(&mut state, &mut notes, "j");
    assert_eq!(state.notes_state.selected(), Some(1));
    press(&mut state, &mut notes, "kk");
    assert_eq!(state.notes_state.selected(), Some(2));
    assert_eq!(handle_key(&mut state, &mut notes, Key::Char('d')), Ok(Action::Store));
    assert_eq!(texts(&notes), vec!["a", "b"]);
    assert_eq!(state.notes_state.selected(), Some(1));
    assert_eq!(handle_key(&mut state, &mut notes, Key::Other), Ok(Action::Wait));
    assert_eq!(handle_key(&mut state, &mut notes, Key::Esc), Ok(Action::Wait));
    assert_eq!(handle_key(&mut state, &mut notes, Key::Char('x')), Ok(Action::Wait));
    assert_eq!(handle_key(&mut state, &mut notes, Key::Char('q')), Ok(Action::Quit));
    assert_eq!(texts(&notes), vec!["a", "b"]);
    assert_eq!(state.input_mode, InputMode::Null);
}

#[test]
fn q_while_typing_is_a_character() {
    let mut notes = store(&[]);
    let mut state = State::new();
    press(&mut state, &mut notes, "cq");
    assert_eq!(state.input, "q");
    assert_eq!(state.input_mode, InputMode::Creating);
}

#[test]
fn committing_an_update_without_notes_is_an_index_error() {
    let mut notes = store(&[]);
    let mut state = State::new();
    state.input_mode = InputMode::Updating;
    state.write_input('x');
    assert_eq!(
        handle_key(&mut state, &mut notes, Key::Char('\n')),
        Err(IndexError { index: 0, count: 0 })
    );
    assert_eq!(state.input, "");
    assert_eq!(state.input_mode, InputMode::Updating);
    assert_eq!(notes.len(), 0);
}

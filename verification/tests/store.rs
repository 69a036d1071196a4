use notes_tui::helpers::Timestamp;
use notes_tui::note::{IndexError, Note};

fn at(secs: i64) -> Timestamp {
    Timestamp { secs, nanos: 0 }
}

fn abc() -> Vec<Note> {
    let mut notes = Vec::new();
    Note::append(&mut notes, "a".to_string(), at(10));
    Note::append(&mut notes, "b".to_string(), at(20));
    Note::append(&mut notes, "c".to_string(), at(30));
    notes
}

fn texts(notes: &Vec<Note>) -> Vec<String> {
    notes.iter().map(|n| n.text.clone()).collect()
}

#[test]
fn create_on_empty_store_gives_one_note() {
    let mut notes: Vec<Note> = Vec::new();
    Note::create(&mut notes, "buy milk".to_string());
    assert_eq!(Note::get_count(&notes), 1);
    assert_eq!(Note::get(&notes, 0).unwrap().text, "buy milk");
}

#[test]
fn new_note_is_stamped_with_the_present() {
    let note = Note::new("now".to_string());
    assert_eq!(note.text, "now");
    // Later than 2020-09-13 and with a proper fraction of a second.
    assert!(note.created_at.secs > 1_600_000_000);
    assert!(note.created_at.nanos < 2_000_000_000);
}

#[test]
fn with_timestamp_keeps_both_fields() {
    let note = Note::with_timestamp("x".to_string(), Timestamp { secs: -5, nanos: 7 });
    assert_eq!(note.text, "x");
    assert_eq!(note.created_at, Timestamp { secs: -5, nanos: 7 });
}

#[test]
fn append_keeps_order_and_timestamps() {
    let notes = abc();
    assert_eq!(texts(&notes), vec!["a", "b", "c"]);
    assert_eq!(notes[0].created_at, at(10));
    assert_eq!(notes[1].created_at, at(20));
    assert_eq!(notes[2].created_at, at(30));
}

#[test]
fn get_copies_the_note_at_the_position() {
    let notes = abc();
    let note = Note::get(&notes, 1).unwrap();
    assert_eq!(note.text, "b");
    assert_eq!(note.created_at, at(20));
}

#[test]
fn get_outside_the_collection_is_an_index_error() {
    let notes = abc();
    assert_eq!(Note::get(&notes, 3).unwrap_err(), IndexError { index: 3, count: 3 });
    let empty: Vec<Note> = Vec::new();
    assert_eq!(Note::get(&empty, 0).unwrap_err(), IndexError { index: 0, count: 0 });
}

#[test]
fn get_all_copies_everything_in_order() {
    let notes = abc();
    let copy = Note::get_all(&notes);
    assert_eq!(texts(&copy), vec!["a", "b", "c"]);
    assert_eq!(copy[2].created_at, at(30));
    assert_eq!(Note::get_all(&Vec::new()).len(), 0);
}

#[test]
fn update_replaces_text_and_keeps_creation_time() {
    let mut notes = abc();
    assert_eq!(Note::update(&mut notes, 1, "B".to_string()), Ok(()));
    assert_eq!(texts(&notes), vec!["a", "B", "c"]);
    assert_eq!(notes[1].created_at, at(20));
    assert_eq!(Note::get_count(&notes), 3);
}

#[test]
fn update_outside_the_collection_changes_nothing() {
    let mut notes = abc();
    assert_eq!(
        Note::update(&mut notes, 7, "z".to_string()),
        Err(IndexError { index: 7, count: 3 })
    );
    assert_eq!(texts(&notes), vec!["a", "b", "c"]);
}

#[test]
fn delete_shifts_later_notes_up() {
    let mut notes = abc();
    assert_eq!(Note::delete(&mut notes, 0), Ok(()));
    assert_eq!(texts(&notes), vec!["b", "c"]);
    assert_eq!(notes[0].created_at, at(20));
    assert_eq!(Note::delete(&mut notes, 1), Ok(()));
    assert_eq!(texts(&notes), vec!["b"]);
}

#[test]
fn delete_outside_the_collection_changes_nothing() {
    let mut notes = abc();
    assert_eq!(Note::delete(&mut notes, 3), Err(IndexError { index: 3, count: 3 }));
    assert_eq!(texts(&notes), vec!["a", "b", "c"]);
}

#[test]
fn count_is_creations_minus_deletions() {
    let mut notes: Vec<Note> = Vec::new();
    Note::create(&mut notes, "one".to_string());
    Note::create(&mut notes, "two".to_string());
    Note::update(&mut notes, 0, "uno".to_string()).unwrap();
    Note::create(&mut notes, "three".to_string());
    Note::delete(&mut notes, 1).unwrap();
    Note::update(&mut notes, 1, "tres".to_string()).unwrap();
    Note::create(&mut notes, "four".to_string());
    Note::delete(&mut notes, 0).unwrap();
    // Four creations, two deletions, two updates.
    assert_eq!(Note::get_count(&notes), 2);
    assert_eq!(texts(&notes), vec!["tres", "four"]);
}

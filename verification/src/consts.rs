//! The fixed texts of the screen and the name of the file of notes.

use vstd::prelude::*;

verus! {

pub const DATABASE_FILENAME: &'static str = ".notes-tui-database.json";

pub const TABS_PARAGRAPH_TITLE: &'static str = "Menu";

pub const TAB_TITLES: [&'static str; 4] = ["Create", "Update", "Delete", "Quit"];

pub const TABS_DIVIDER: &'static str = "|";

pub const LIST_PARAGRAPH_TITLE: &'static str = "Notes";

pub const LIST_PARAGRAPH_DETAILS_TITLE: &'static str = "Details";

pub const LIST_PARAGRAPH_DETAILS_COLUMN_TITLES: [&'static str; 2] = ["Text", "Created At"];

pub const EMPTY_LIST_PARAGRAPH_TEXT: &'static str = "You don't have the notes yet.";

pub const INFO_PARAGRAPH_TITLE: &'static str = "Info";

pub const NOTES_COUNT_LABEL: &'static str = "Notes count: ";

pub const CREATE_PARAGRAPH_TITLE: &'static str = "Create";

pub const UPDATE_PARAGRAPH_TITLE: &'static str = "Update";

} // verus!

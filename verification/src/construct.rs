//! The screen as a description: which panels there are and what they say.

use crate::consts::{
    CREATE_PARAGRAPH_TITLE, EMPTY_LIST_PARAGRAPH_TEXT, INFO_PARAGRAPH_TITLE,
    LIST_PARAGRAPH_DETAILS_COLUMN_TITLES, LIST_PARAGRAPH_DETAILS_TITLE, LIST_PARAGRAPH_TITLE,
    NOTES_COUNT_LABEL, TABS_DIVIDER, TABS_PARAGRAPH_TITLE, TAB_TITLES, UPDATE_PARAGRAPH_TITLE,
};
use crate::helpers::{beautify_datetime, datetime_text, utc_civil, InputMode};
use crate::note::{IndexError, Note, NoteView};
use crate::state::{selection, State};
use crate::text::{decimal, decimal_string, push_decimal};
use tui::layout::{Constraint, Direction, Layout, Rect};
use vstd::prelude::*;
use vstd::string::*;

verus! {

/// How much of a split one part takes.
#[derive(Clone, Copy, Debug, PartialEq, Eq, Structural)]
pub enum Extent {
    /// Exactly so many cells.
    Length(u16),
    /// At least so many cells.
    Min(u16),
    /// So many hundredths of the whole.
    Percentage(u16),
}

/// A split of an area into parts, top to bottom or left to right.
#[derive(Debug)]
pub struct Markup {
    pub horizontal: bool,
    /// Cells left free on each side of the area.
    pub margin: u16,
    pub parts: Vec<Extent>,
}

/// A rectangle of cells on the terminal.
#[derive(Clone, Copy, Debug, PartialEq, Eq, Structural)]
pub struct Area {
    pub x: u16,
    pub y: u16,
    pub width: u16,
    pub height: u16,
}

/// The colour of a panel's text.
#[derive(Clone, Copy, Debug, PartialEq, Eq, Structural)]
pub enum Color {
    Plain,
    Yellow,
    LightRed,
    LightCyan,
}

/// The title of one tab: its first letter, which is the key to press, and
/// the rest of the word.
#[derive(Debug)]
pub struct TabTitle {
    pub first_letter: String,
    pub rest_of_word: String,
}

/// The bar of tabs.
#[derive(Debug)]
pub struct Tabs {
    pub title: String,
    pub titles: Vec<TabTitle>,
    pub divider: String,
}

/// The list of the notes' positions.
#[derive(Debug)]
pub struct NoteList {
    pub title: String,
    pub items: Vec<String>,
}

/// The table that shows one note.
#[derive(Debug)]
pub struct Details {
    pub title: String,
    pub column_titles: Vec<String>,
    pub text: String,
    /// The moment of creation; `None` where it lies outside the calendar.
    pub created_at: Option<String>,
}

/// A framed text.
#[derive(Debug)]
pub struct Paragraph {
    pub title: String,
    pub text: String,
    pub color: Color,
    pub centered: bool,
}

/// What the middle of the screen shows.
#[derive(Debug)]
pub enum Content {
    /// There are no notes.
    Empty(Paragraph),
    /// The notes' positions and the selected note.
    Notes(NoteList, Details),
}

/// The whole screen.
#[derive(Debug)]
pub struct Screen {
    pub tabs: Tabs,
    pub content: Content,
    pub bottom: Paragraph,
    /// While a text is typed: how many characters stand before the cursor.
    pub cursor: Option<usize>,
}

/// Whether a panel has this title, text, colour and alignment.
pub open spec fn paragraph_shows(
    p: Paragraph,
    title: Seq<char>,
    text: Seq<char>,
    color: Color,
    centered: bool,
) -> bool {
    &&& p.title@ == title
    &&& p.text@ == text
    &&& p.color == color
    &&& p.centered == centered
}

/// Whether the bar holds one tab for each command, its first letter set
/// apart from the rest of the word.
pub open spec fn tabs_show_commands(t: Tabs) -> bool {
    &&& t.title@ == TABS_PARAGRAPH_TITLE@
    &&& t.divider@ == TABS_DIVIDER@
    &&& t.titles.len() == 4
    &&& forall|i: int|
        0 <= i < 4 ==> {
            &&& (#[trigger] t.titles[i]).first_letter@ == TAB_TITLES[i]@.subrange(0, 1)
            &&& t.titles[i].rest_of_word@ == TAB_TITLES[i]@.subrange(
                1,
                TAB_TITLES[i]@.len() as int,
            )
        }
}

/// Whether the list holds the positions of `count` notes, first to last, as
/// decimal numerals.
pub open spec fn list_shows_positions(list: NoteList, count: nat) -> bool {
    &&& list.title@ == LIST_PARAGRAPH_TITLE@
    &&& list.items.len() == count
    &&& forall|k: int| 0 <= k < count ==> (#[trigger] list.items[k])@ == decimal(k as nat)
}

/// Whether the table holds the note's text and its moment of creation as
/// the calendar renders it.
pub open spec fn details_show_note(details: Details, note: NoteView) -> bool {
    &&& details.title@ == LIST_PARAGRAPH_DETAILS_TITLE@
    &&& details.column_titles.len() == 2
    &&& details.column_titles[0]@ == LIST_PARAGRAPH_DETAILS_COLUMN_TITLES[0]@
    &&& details.column_titles[1]@ == LIST_PARAGRAPH_DETAILS_COLUMN_TITLES[1]@
    &&& details.text@ == note.text
    &&& match utc_civil(note.created_at.secs, note.created_at.nanos) {
        Some(c) => details.created_at.is_some() && details.created_at.unwrap()@ == datetime_text(
            c,
        ),
        None => details.created_at.is_none(),
    }
}

/// Whether the bottom panel fits the input mode: the count of notes while
/// nothing is typed, else the text typed so far.
pub open spec fn bottom_shows_session(
    p: Paragraph,
    mode: InputMode,
    input: Seq<char>,
    count: nat,
) -> bool {
    match mode {
        InputMode::Null => paragraph_shows(
            p,
            INFO_PARAGRAPH_TITLE@,
            NOTES_COUNT_LABEL@ + decimal(count),
            Color::LightCyan,
            true,
        ),
        InputMode::Creating => paragraph_shows(
            p,
            CREATE_PARAGRAPH_TITLE@,
            input,
            Color::Plain,
            false,
        ),
        InputMode::Updating => paragraph_shows(
            p,
            UPDATE_PARAGRAPH_TITLE@,
            input,
            Color::Yellow,
            false,
        ),
    }
}

/// Whether the middle of the screen fits the notes: the empty panel while
/// there are none, else their positions and the note at `index`.
pub open spec fn content_shows_notes(content: Content, notes: Seq<Note>, index: int) -> bool {
    match content {
        Content::Empty(p) => notes.len() == 0 && paragraph_shows(
            p,
            INFO_PARAGRAPH_TITLE@,
            EMPTY_LIST_PARAGRAPH_TEXT@,
            Color::LightRed,
            true,
        ),
        Content::Notes(list, details) => {
            &&& 0 <= index < notes.len()
            &&& list_shows_positions(list, notes.len())
            &&& details_show_note(details, notes[index]@)
        },
    }
}

/// The split of the whole window: a bar of three rows, the content with at
/// least two, and a bar of three rows, inside a margin of two cells.
pub open spec fn window_markup_parts() -> Seq<Extent> {
    seq![Extent::Length(3), Extent::Min(2), Extent::Length(3)]
}

/// The split of the content: a narrow list of positions to the left, the
/// selected note to the right.
pub open spec fn list_markup_parts() -> Seq<Extent> {
    seq![Extent::Percentage(5), Extent::Percentage(95)]
}

/// Whether the area reaches no further than the last cell that a position
/// can name.
pub open spec fn on_grid(area: Area) -> bool {
    &&& area.x + area.width <= u16::MAX
    &&& area.y + area.height <= u16::MAX
}

/// Whether the split can be computed for the area: the area lies on the
/// grid, twice the margin is a number of cells, and so is each percentage
/// times the side that is split.
pub open spec fn splittable(markup: Markup, area: Area) -> bool {
    &&& on_grid(area)
    &&& 2 * markup.margin <= u16::MAX
    &&& forall|i: int|
        0 <= i < markup.parts.len() ==> (#[trigger] markup.parts[i] matches Extent::Percentage(p)
            ==> p * (if markup.horizontal {
            area.width
        } else {
            area.height
        }) <= u16::MAX)
}

/// The area less the margin on each of its four sides; the area of no cells
/// at the origin where the margins leave nothing of it.
pub open spec fn inner_area(area: Area, margin: u16) -> Area {
    if area.width < 2 * margin || area.height < 2 * margin {
        Area { x: 0, y: 0, width: 0, height: 0 }
    } else {
        Area {
            x: (area.x + margin) as u16,
            y: (area.y + margin) as u16,
            width: (area.width - 2 * margin) as u16,
            height: (area.height - 2 * margin) as u16,
        }
    }
}

/// Whether the part ends where the whole ends, along the direction of the
/// split.
pub open spec fn ends_with(part: Area, whole: Area, horizontal: bool) -> bool {
    if horizontal {
        part.x + part.width == whole.x + whole.width
    } else {
        part.y + part.height == whole.y + whole.height
    }
}

/// Whether the part starts where the whole starts and reaches as far, across
/// the direction of the split.
pub open spec fn spans_across(part: Area, whole: Area, horizontal: bool) -> bool {
    if horizontal {
        part.y == whole.y && part.height == whole.height
    } else {
        part.x == whole.x && part.width == whole.width
    }
}

/// `Layout::split` of tui, with the layout's direction, margin and
/// constraints taken from the markup. A solver that works in floating point
/// places the parts, so three things only are claimed. There is one area for
/// each part of the markup. Across the direction of the split each area
/// starts and reaches as the area inside the margin does: tui requires so of
/// the solver, in whole numbers of cells. Along that direction tui itself
/// stretches the last area to the end of the area inside the margin. Where
/// the other areas start and end along the split is the solver's answer cut
/// down to whole cells, and nothing is claimed of it. The areas left out are
/// those on which tui's own arithmetic would overflow, or on which the bounds
/// it hands to the solver could not all be met.
#[verifier::external_body]
fn split_area(markup: &Markup, area: Area) -> (r: Vec<Area>)
    requires
        splittable(*markup, area),
    ensures
        r.len() == markup.parts.len(),
        forall|i: int|
            0 <= i < r.len() ==> spans_across(
                #[trigger] r[i],
                inner_area(area, markup.margin),
                markup.horizontal,
            ),
        r.len() > 0 ==> ends_with(
            r[r.len() - 1],
            inner_area(area, markup.margin),
            markup.horizontal,
        ),
{
    let parts: Vec<Constraint> = markup.parts.iter().map(|e| match *e {
        Extent::Length(v) => Constraint::Length(v),
        Extent::Min(v) => Constraint::Min(v),
        Extent::Percentage(v) => Constraint::Percentage(v),
    }).collect();
    let direction = if markup.horizontal { Direction::Horizontal } else { Direction::Vertical };
    let frame = Rect { x: area.x, y: area.y, width: area.width, height: area.height };
    let chunks = Layout::default().direction(direction).margin(markup.margin).constraints(parts).split(frame);
    chunks.iter().map(|c| Area { x: c.x, y: c.y, width: c.width, height: c.height }).collect()
}

/// How the whole window is split.
#[must_use]
pub fn window_markup() -> (r: Markup)
    ensures
        !r.horizontal,
        r.margin == 2,
        r.parts@ == window_markup_parts(),
{
    let mut parts: Vec<Extent> = Vec::new();
    parts.push(Extent::Length(3));
    parts.push(Extent::Min(2));
    parts.push(Extent::Length(3));
    assert(parts@ =~= window_markup_parts());
    Markup { horizontal: false, margin: 2, parts }
}

/// How the content is split.
#[must_use]
pub fn list_markup() -> (r: Markup)
    ensures
        r.horizontal,
        r.margin == 0,
        r.parts@ == list_markup_parts(),
{
    let mut parts: Vec<Extent> = Vec::new();
    parts.push(Extent::Percentage(5));
    parts.push(Extent::Percentage(95));
    assert(parts@ =~= list_markup_parts());
    Markup { horizontal: true, margin: 0, parts }
}

/// Splits the whole window into the bar of tabs, the content and the bottom
/// panel, in this order. Each of the three is as wide as the window less two
/// cells on either side, and the bottom panel ends two cells above the
/// window's lower edge. In a window under four cells wide or high all three
/// have no width, and the bottom panel ends at the origin.
#[must_use]
pub fn markup_chunks(frame_size: Area) -> (r: Vec<Area>)
    requires
        on_grid(frame_size),
    ensures
        r.len() == 3,
        forall|i: int|
            0 <= i < 3 ==> (#[trigger] r[i]).x == inner_area(frame_size, 2).x && r[i].width
                == inner_area(frame_size, 2).width,
        r[2].y + r[2].height == inner_area(frame_size, 2).y + inner_area(frame_size, 2).height,
        frame_size.width >= 4 && frame_size.height >= 4 ==> {
            &&& r[2].y + r[2].height == frame_size.y + frame_size.height - 2
            &&& forall|i: int|
                0 <= i < 3 ==> (#[trigger] r[i]).x == frame_size.x + 2 && r[i].width
                    == frame_size.width - 4
        },
        frame_size.width < 4 || frame_size.height < 4 ==> {
            &&& r[2].y + r[2].height == 0
            &&& forall|i: int| 0 <= i < 3 ==> (#[trigger] r[i]).x == 0 && r[i].width == 0
        },
{
    let markup = window_markup();
    assert(markup.parts[0] == Extent::Length(3));
    assert(markup.parts[1] == Extent::Min(2));
    assert(markup.parts[2] == Extent::Length(3));
    split_area(&markup, frame_size)
}

/// Splits the content into the list of positions and the selected note, in
/// this order. Both are as high as the content and start at its top, and the
/// selected note reaches to the right edge of the content.
#[must_use]
pub fn markup_list_paragraph_chunks(frame_size: Area) -> (r: Vec<Area>)
    requires
        on_grid(frame_size),
        95 * frame_size.width <= u16::MAX,
    ensures
        r.len() == 2,
        forall|i: int|
            0 <= i < 2 ==> (#[trigger] r[i]).y == frame_size.y && r[i].height
                == frame_size.height,
        r[1].x + r[1].width == frame_size.x + frame_size.width,
{
    let markup = list_markup();
    assert(markup.parts[0] == Extent::Percentage(5));
    assert(markup.parts[1] == Extent::Percentage(95));
    split_area(&markup, frame_size)
}

/// Splits a word behind its first character.
pub fn split_first_letter(word: &str) -> (r: TabTitle)
    requires
        word@.len() >= 1,
    ensures
        r.first_letter@ == word@.subrange(0, 1),
        r.rest_of_word@ == word@.subrange(1, word@.len() as int),
{
    let len = word.unicode_len();
    TabTitle {
        first_letter: word.substring_char(0, 1).to_owned(),
        rest_of_word: word.substring_char(1, len).to_owned(),
    }
}

/// The bar of tabs: one tab for each command, its first letter set apart.
#[must_use]
pub fn make_tabs() -> (r: Tabs)
    ensures
        tabs_show_commands(r),
{
    proof {
        reveal_strlit("Create");
        reveal_strlit("Update");
        reveal_strlit("Delete");
        reveal_strlit("Quit");
    }
    let mut titles: Vec<TabTitle> = Vec::new();
    let mut i: usize = 0;
    while i < 4
        invariant
            i <= 4,
            titles.len() == i,
            forall|k: int| 0 <= k < 4 ==> (#[trigger] TAB_TITLES[k])@.len() >= 1,
            forall|k: int|
                0 <= k < i ==> {
                    &&& (#[trigger] titles[k]).first_letter@ == TAB_TITLES[k]@.subrange(0, 1)
                    &&& titles[k].rest_of_word@ == TAB_TITLES[k]@.subrange(
                        1,
                        TAB_TITLES[k]@.len() as int,
                    )
                },
        decreases 4 - i,
    {
        titles.push(split_first_letter(TAB_TITLES[i]));
        i += 1;
    }
    Tabs { title: TABS_PARAGRAPH_TITLE.to_owned(), titles, divider: TABS_DIVIDER.to_owned() }
}

/// The list of positions and the table of the selected note.
///
/// Fails where the selected position holds no note.
pub fn make_list_paragraph(notes: &Vec<Note>, notes_state: &tui::widgets::ListState) -> (r: Result<
    (NoteList, Details),
    IndexError,
>)
    requires
        selection(*notes_state).is_some(),
    ensures
        ({
            let index = selection(*notes_state).unwrap();
            if index < notes.len() {
                &&& r.is_ok()
                &&& list_shows_positions(r.unwrap().0, notes.len() as nat)
                &&& details_show_note(r.unwrap().1, notes[index as int]@)
            } else {
                r == Err::<(NoteList, Details), IndexError>(
                    IndexError { index, count: notes.len() },
                )
            }
        }),
{
    let index = notes_state.selected().unwrap();
    let selected_note = Note::get(notes, index)?;
    let mut items: Vec<String> = Vec::new();
    let mut i: usize = 0;
    while i < notes.len()
        invariant
            i <= notes.len(),
            items.len() == i,
            forall|k: int| 0 <= k < i ==> (#[trigger] items[k])@ == decimal(k as nat),
        decreases notes.len() - i,
    {
        items.push(decimal_string(i as u64));
        i += 1;
    }
    let list = NoteList { title: LIST_PARAGRAPH_TITLE.to_owned(), items };
    let mut column_titles: Vec<String> = Vec::new();
    column_titles.push(LIST_PARAGRAPH_DETAILS_COLUMN_TITLES[0].to_owned());
    column_titles.push(LIST_PARAGRAPH_DETAILS_COLUMN_TITLES[1].to_owned());
    let details = Details {
        title: LIST_PARAGRAPH_DETAILS_TITLE.to_owned(),
        column_titles,
        created_at: beautify_datetime(selected_note.created_at),
        text: selected_note.text,
    };
    Ok((list, details))
}

/// The panel that stands in for the list while there are no notes.
#[must_use]
pub fn make_empty_list_paragraph() -> (r: Paragraph)
    ensures
        paragraph_shows(r, INFO_PARAGRAPH_TITLE@, EMPTY_LIST_PARAGRAPH_TEXT@, Color::LightRed, true),
{
    Paragraph {
        title: INFO_PARAGRAPH_TITLE.to_owned(),
        text: EMPTY_LIST_PARAGRAPH_TEXT.to_owned(),
        color: Color::LightRed,
        centered: true,
    }
}

/// The bottom panel while nothing is typed: how many notes there are.
#[must_use]
pub fn make_info_paragraph(count: usize) -> (r: Paragraph)
    ensures
        paragraph_shows(r, INFO_PARAGRAPH_TITLE@, NOTES_COUNT_LABEL@ + decimal(count as nat), Color::LightCyan, true),
{
    let mut text = NOTES_COUNT_LABEL.to_owned();
    push_decimal(&mut text, count as u64);
    Paragraph { title: INFO_PARAGRAPH_TITLE.to_owned(), text, color: Color::LightCyan, centered: true }
}

/// The bottom panel while a new note is typed: the text so far.
#[must_use]
pub fn make_create_paragraph(input: &str) -> (r: Paragraph)
    ensures
        paragraph_shows(r, CREATE_PARAGRAPH_TITLE@, input@, Color::Plain, false),
{
    Paragraph {
        title: CREATE_PARAGRAPH_TITLE.to_owned(),
        text: input.to_owned(),
        color: Color::Plain,
        centered: false,
    }
}

/// The bottom panel while a note is retyped: the text so far, set apart by
/// its colour.
#[must_use]
pub fn make_update_paragraph(input: &str) -> (r: Paragraph)
    ensures
        paragraph_shows(r, UPDATE_PARAGRAPH_TITLE@, input@, Color::Yellow, false),
{
    Paragraph {
        title: UPDATE_PARAGRAPH_TITLE.to_owned(),
        text: input.to_owned(),
        color: Color::Yellow,
        centered: false,
    }
}

/// The whole screen for a state and a collection of notes: the tabs; the
/// empty panel, or the list and the selected note; at the bottom the count of
/// notes or the text being typed, with the cursor behind its last character.
///
/// Fails where there are notes and the selected position holds none.
pub fn make_screen(state: &State, notes: &Vec<Note>) -> (r: Result<Screen, IndexError>)
    requires
        notes.len() > 0 ==> state.cursor().is_some(),
    ensures
        ({
            let index = match state.cursor() {
                Some(i) => i,
                None => 0,
            };
            if notes.len() == 0 || index < notes.len() {
                &&& r.is_ok()
                &&& tabs_show_commands(r.unwrap().tabs)
                &&& content_shows_notes(r.unwrap().content, notes@, index as int)
                &&& bottom_shows_session(
                    r.unwrap().bottom,
                    state.input_mode,
                    state.input@,
                    notes.len() as nat,
                )
                &&& r.unwrap().cursor == match state.input_mode {
                    InputMode::Null => None::<usize>,
                    _ => Some(state.input@.len() as usize),
                }
            } else {
                r == Err::<Screen, IndexError>(IndexError { index, count: notes.len() })
            }
        }),
{
    let content = if notes.len() == 0 {
        Content::Empty(make_empty_list_paragraph())
    } else {
        let (list, details) = make_list_paragraph(notes, &state.notes_state)?;
        Content::Notes(list, details)
    };
    let bottom = match state.input_mode {
        InputMode::Null => make_info_paragraph(notes.len()),
        InputMode::Creating => make_create_paragraph(state.input.as_str()),
        InputMode::Updating => make_update_paragraph(state.input.as_str()),
    };
    let cursor = match state.input_mode {
        InputMode::Null => None,
        _ => Some(state.input.as_str().unicode_len()),
    };
    Ok(Screen { tabs: make_tabs(), content, bottom, cursor })
}

/// The cell of the cursor in the bottom panel.
pub open spec fn cursor_cell_of(bottom: Area, typed: int) -> (int, int) {
    (bottom.x + 1 + typed, bottom.y + 1)
}

/// The cell in which the cursor stands while a text is typed: inside the
/// frame of the bottom panel, right behind the `typed` characters. `None`
/// where that cell lies beyond the last that a position can name.
pub fn cursor_cell(bottom: Area, typed: usize) -> (r: Option<(u16, u16)>)
    ensures
        ({
            let (x, y) = cursor_cell_of(bottom, typed as int);
            if x <= u16::MAX && y <= u16::MAX {
                r == Some((x as u16, y as u16))
            } else {
                r.is_none()
            }
        }),
{
    if bottom.y == u16::MAX || bottom.x == u16::MAX {
        return None;
    }
    let room: u16 = u16::MAX - bottom.x - 1;
    if typed > room as usize {
        return None;
    }
    Some((bottom.x + 1 + typed as u16, bottom.y + 1))
}

} // verus!

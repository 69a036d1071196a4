//! Input modes, timestamps and their rendering.

use crate::text::{decimal, push_decimal, push_signed_decimal, signed_decimal};
use chrono::{Datelike, Timelike};
use vstd::prelude::*;

verus! {

/// What the keyboard is currently used for.
#[derive(Clone, Copy, Debug, PartialEq, Eq, Structural)]
pub enum InputMode {
    /// Nothing is being typed: keys are commands.
    Null,
    /// The text of a new note is being typed.
    Creating,
    /// The text of the selected note is being retyped.
    Updating,
}

/// A moment in UTC: whole seconds since 1970-01-01T00:00:00Z and the
/// nanoseconds into that second.
#[derive(Clone, Copy, Debug, PartialEq, Eq, Structural)]
pub struct Timestamp {
    pub secs: i64,
    pub nanos: u32,
}

/// The calendar fields of a moment, down to the minute.
#[derive(Clone, Copy, Debug, PartialEq, Eq, Structural)]
pub struct CivilTime {
    pub year: i32,
    pub month: u32,
    pub day: u32,
    pub hour: u32,
    pub minute: u32,
}

/// The UTC calendar fields that chrono gives the moment `secs` seconds and
/// `nanos` nanoseconds after the epoch; `None` where chrono cannot represent
/// the moment.
pub uninterp spec fn utc_civil(secs: i64, nanos: u32) -> Option<CivilTime>;

/// `chrono::NaiveDateTime::from_timestamp_opt`, read through `Datelike` and
/// `Timelike`. Nothing is claimed but that the fields are a function of the
/// two numbers, named `utc_civil`.
#[verifier::external_body]
fn civil_fields(secs: i64, nanos: u32) -> (r: Option<CivilTime>)
    ensures
        r == utc_civil(secs, nanos),
{
    match chrono::NaiveDateTime::from_timestamp_opt(secs, nanos) {
        Some(t) => Some(
            CivilTime {
                year: t.year(),
                month: t.month(),
                day: t.day(),
                hour: t.hour(),
                minute: t.minute(),
            },
        ),
        None => None,
    }
}

/// `chrono::Utc::now`, read through `DateTime::timestamp` and
/// `DateTime::timestamp_subsec_nanos`. The clock decides: nothing is claimed
/// of the result. chrono gives up where the clock stands before 1970.
#[verifier::external_body]
pub(crate) fn current_timestamp() -> (r: Timestamp) {
    let now = chrono::Utc::now();
    Timestamp { secs: now.timestamp(), nanos: now.timestamp_subsec_nanos() }
}

/// How calendar fields are shown: day.month.year at hour:minute, each number
/// without padding.
pub open spec fn datetime_text(c: CivilTime) -> Seq<char> {
    decimal(c.day as nat) + seq!['.'] + decimal(c.month as nat) + seq!['.'] + signed_decimal(
        c.year as int,
    ) + seq![' ', 'a', 't', ' '] + decimal(c.hour as nat) + seq![':'] + decimal(c.minute as nat)
}

/// Renders calendar fields for display.
pub fn render_civil(c: CivilTime) -> (r: String)
    ensures
        r@ == datetime_text(c),
{
    let mut out = String::new();
    push_decimal(&mut out, c.day as u64);
    out.push('.');
    push_decimal(&mut out, c.month as u64);
    out.push('.');
    push_signed_decimal(&mut out, c.year as i64);
    out.push(' ');
    out.push('a');
    out.push('t');
    out.push(' ');
    push_decimal(&mut out, c.hour as u64);
    out.push(':');
    push_decimal(&mut out, c.minute as u64);
    assert(out@ =~= datetime_text(c));
    out
}

/// Renders a moment for display, using its UTC calendar fields. A moment
/// outside the calendar's range has no rendering.
pub fn beautify_datetime(datetime: Timestamp) -> (r: Option<String>)
    ensures
        match utc_civil(datetime.secs, datetime.nanos) {
            Some(c) => r.is_some() && r.unwrap()@ == datetime_text(c),
            None => r.is_none(),
        },
{
    match civil_fields(datetime.secs, datetime.nanos) {
        Some(c) => Some(render_civil(c)),
        None => None,
    }
}

} // verus!

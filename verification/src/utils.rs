//! Parsing of the dates that users type, and rendering of notes as text.

use vstd::prelude::*;
use vstd::string::*;
use crate::datetime::{
    at_midnight, chrono_format, chrono_parse_date, chrono_parse_datetime, format_datetime, now_utc,
    opt_parts, parse_naive_date, parse_naive_datetime, valid_date, DateTime, DateTimeParts,
};
use crate::models::{all_wf, Note};
use crate::text::{append_escaped, append_i64, append_u64, append_prefix, escape_html, int_to_decimal, nat_to_decimal, push_char, take_chars};

verus! {

/// A parsed date (year, month, day) taken at midnight.
pub open spec fn midnight_parts(d: (i32, u32, u32)) -> DateTimeParts {
    (d.0, d.1, d.2, 0u32, 0u32, 0u32, 0u32)
}

/// The date-time read from `input` when the five accepted formats are tried
/// in order and the first that parses wins; `None` when none parses.
pub open spec fn datetime_choice(
    full: Option<DateTimeParts>,
    dotted_seconds: Option<DateTimeParts>,
    dotted_minutes: Option<DateTimeParts>,
    iso_date: Option<(i32, u32, u32)>,
    dotted_date: Option<(i32, u32, u32)>,
) -> Option<DateTimeParts> {
    if full is Some {
        full
    } else if dotted_seconds is Some {
        dotted_seconds
    } else if dotted_minutes is Some {
        dotted_minutes
    } else if iso_date is Some {
        Some(midnight_parts(iso_date->0))
    } else if dotted_date is Some {
        Some(midnight_parts(dotted_date->0))
    } else {
        None
    }
}

/// The date-time that `parse_datetime` reads from `input`, in terms of what
/// `chrono` makes of it under each accepted format.
pub open spec fn parsed_datetime(input: Seq<char>) -> Option<DateTimeParts> {
    datetime_choice(
        chrono_parse_datetime(input, "%Y-%m-%d %H:%M:%S"@),
        chrono_parse_datetime(input, "%d.%m.%Y %H:%M:%S"@),
        chrono_parse_datetime(input, "%d.%m.%Y %H:%M"@),
        chrono_parse_date(input, "%Y-%m-%d"@),
        chrono_parse_date(input, "%d.%m.%Y"@),
    )
}

/// The message given when no accepted format reads the input.
pub open spec fn date_error_message(input: Seq<char>) -> Seq<char> {
    "Не удалось распознать дату: "@ + input
        + ". Форматы: YYYY-MM-DD HH:MM:SS, DD.MM.YYYY HH:MM"@
}

/// Picks the date-time from the results of the five parsing attempts on
/// `input`, in order: date and time as `YYYY-MM-DD HH:MM:SS`, as
/// `DD.MM.YYYY HH:MM:SS`, as `DD.MM.YYYY HH:MM`, then a bare date as
/// `YYYY-MM-DD` or `DD.MM.YYYY` taken at midnight.  When none parsed, the
/// error names the input and the accepted formats.
pub fn resolve_datetime(
    input: &str,
    full: Option<DateTime>,
    dotted_seconds: Option<DateTime>,
    dotted_minutes: Option<DateTime>,
    iso_date: Option<(i32, u32, u32)>,
    dotted_date: Option<(i32, u32, u32)>,
) -> (res: Result<DateTime, String>)
    requires
        full matches Some(dt) ==> dt.valid(),
        dotted_seconds matches Some(dt) ==> dt.valid(),
        dotted_minutes matches Some(dt) ==> dt.valid(),
        iso_date matches Some(d) ==> valid_date(d.0 as int, d.1 as int, d.2 as int),
        dotted_date matches Some(d) ==> valid_date(d.0 as int, d.1 as int, d.2 as int),
    ensures
        ({
            let choice = datetime_choice(
                opt_parts(full),
                opt_parts(dotted_seconds),
                opt_parts(dotted_minutes),
                iso_date,
                dotted_date,
            );
            match res {
                Ok(dt) => choice == Some(dt.parts()) && dt.valid(),
                Err(e) => choice is None && e@ == date_error_message(input@),
            }
        }),
{
    if let Some(dt) = full {
        return Ok(dt);
    }
    if let Some(dt) = dotted_seconds {
        return Ok(dt);
    }
    if let Some(dt) = dotted_minutes {
        return Ok(dt);
    }
    if let Some(d) = iso_date {
        return Ok(at_midnight(d.0, d.1, d.2));
    }
    if let Some(d) = dotted_date {
        return Ok(at_midnight(d.0, d.1, d.2));
    }
    let mut e = String::from_str("Не удалось распознать дату: ");
    e.append(input);
    e.append(". Форматы: YYYY-MM-DD HH:MM:SS, DD.MM.YYYY HH:MM");
    Err(e)
}

/// Reads a date and time typed by a user, trying the accepted formats in
/// order (see `resolve_datetime`).
pub fn parse_datetime(input: &str) -> (res: Result<DateTime, String>)
    ensures
        match res {
            Ok(dt) => parsed_datetime(input@) == Some(dt.parts()) && dt.valid(),
            Err(e) => parsed_datetime(input@) is None && e@ == date_error_message(input@),
        },
{
    let full = parse_naive_datetime(input, "%Y-%m-%d %H:%M:%S");
    let dotted_seconds = parse_naive_datetime(input, "%d.%m.%Y %H:%M:%S");
    let dotted_minutes = parse_naive_datetime(input, "%d.%m.%Y %H:%M");
    let iso_date = parse_naive_date(input, "%Y-%m-%d");
    let dotted_date = parse_naive_date(input, "%d.%m.%Y");
    resolve_datetime(input, full, dotted_seconds, dotted_minutes, iso_date, dotted_date)
}


/// The card of a note: title in bold, content, identifier and the two time
/// stamps as rendered.
pub open spec fn note_card(
    title: Seq<char>,
    content: Seq<char>,
    id: int,
    created: Seq<char>,
    updated: Seq<char>,
) -> Seq<char> {
    "📝 <b>"@ + title + "</b>\n\n"@ + content + "\n\n_ID: "@ + int_to_decimal(id)
        + "_\n_Создано: "@ + created + "_\n_Обновлено: "@ + updated + "_"@
}

/// How time stamps of notes are rendered, as `chrono` renders
/// `%d.%m.%Y %H:%M`.
pub open spec fn stamp(dt: DateTime) -> Seq<char> {
    chrono_format(dt.parts(), "%d.%m.%Y %H:%M"@)
}

/// Builds the card of a note from its fields and its already rendered time
/// stamps.
pub fn compose_note_card(title: &str, content: &str, id: i64, created: &str, updated: &str) -> (r:
    String)
    ensures
        r@ == note_card(title@, content@, id as int, created@, updated@),
{
    let mut r = String::from_str("📝 <b>");
    r.append(title);
    r.append("</b>\n\n");
    r.append(content);
    r.append("\n\n_ID: ");
    append_i64(&mut r, id);
    r.append("_\n_Создано: ");
    r.append(created);
    r.append("_\n_Обновлено: ");
    r.append(updated);
    r.append("_");
    r
}

/// The card of a note, its time stamps rendered as `DD.MM.YYYY HH:MM`.
pub fn format_note(note: &Note) -> (r: String)
    requires
        note.wf(),
    ensures
        r@ == note_card(
            note.title@,
            note.content@,
            note.id as int,
            stamp(note.created_at),
            stamp(note.updated_at),
        ),
{
    let created = format_datetime(&note.created_at, "%d.%m.%Y %H:%M");
    let updated = format_datetime(&note.updated_at, "%d.%m.%Y %H:%M");
    compose_note_card(note.title.as_str(), note.content.as_str(), note.id, created.as_str(), updated.as_str())
}

/// Length, in characters, of the content preview shown in a list of notes.
pub const PREVIEW_CHARS: usize = 50;

/// One entry of a list of notes: title, identifier and the first
/// `PREVIEW_CHARS` characters of the content.
pub open spec fn list_entry(n: Note) -> Seq<char> {
    "• <b>"@ + n.title@ + "</b> (ID: "@ + int_to_decimal(n.id as int) + ")\n  <i>"@ + take_chars(
        n.content@,
        PREVIEW_CHARS as nat,
    ) + "</i>\n\n"@
}

/// The entries of a list of notes, one after another.
pub open spec fn list_entries(notes: Seq<Note>) -> Seq<char>
    decreases notes.len(),
{
    if notes.len() == 0 {
        Seq::empty()
    } else {
        list_entries(notes.drop_last()) + list_entry(notes.last())
    }
}

/// The text shown for one page of notes.
pub open spec fn note_list_text(notes: Seq<Note>, page: nat) -> Seq<char> {
    if notes.len() == 0 {
        "📭 У вас пока нет заметок."@
    } else {
        "📋 <b>Заметки</b> (стр. "@ + nat_to_decimal(page as nat) + ") — всего "@ + nat_to_decimal(
            notes.len(),
        ) + "\n\n"@ + list_entries(notes)
    }
}

/// Renders one page of notes: a header with the page number and the number
/// of notes, then one entry per note; a fixed text when there is none.
pub fn format_note_list(notes: &[Note], page: u32) -> (r: String)
    ensures
        r@ == note_list_text(notes@, page as nat),
{
    if notes.len() == 0 {
        return String::from_str("📭 У вас пока нет заметок.");
    }
    let total = notes.len();
    let mut r = String::from_str("📋 <b>Заметки</b> (стр. ");
    append_u64(&mut r, page as u64);
    r.append(") — всего ");
    append_u64(&mut r, total as u64);
    r.append("\n\n");
    let ghost header = r@;
    let mut i: usize = 0;
    while i < notes.len()
        invariant
            i <= notes@.len(),
            r@ == header + list_entries(notes@.subrange(0, i as int)),
        decreases notes@.len() - i,
    {
        let note = &notes[i];
        let ghost before = r@;
        r.append("• <b>");
        r.append(note.title.as_str());
        r.append("</b> (ID: ");
        append_i64(&mut r, note.id);
        r.append(")\n  <i>");
        append_prefix(&mut r, note.content.as_str(), PREVIEW_CHARS);
        r.append("</i>\n\n");
        proof {
            let s = notes@.subrange(0, i + 1);
            assert(s.drop_last() =~= notes@.subrange(0, i as int));
            assert(s.last() == notes@[i as int]);
            assert(r@ =~= before + list_entry(notes@[i as int]));
            assert(r@ =~= header + list_entries(s));
        }
        i = i + 1;
    }
    assert(notes@.subrange(0, notes@.len() as int) =~= notes@);
    r
}

/// `n` copies of the character `c`.
pub open spec fn repeat_char(c: char, n: nat) -> Seq<char> {
    Seq::new(n, |i: int| c)
}

fn append_repeat(out: &mut String, c: char, n: usize)
    ensures
        final(out)@ == old(out)@ + repeat_char(c, n as nat),
{
    let mut i: usize = 0;
    while i < n
        invariant
            i <= n,
            out@ == old(out)@ + repeat_char(c, i as nat),
        decreases n - i,
    {
        push_char(out, c);
        assert(out@ =~= old(out)@ + repeat_char(c, (i + 1) as nat));
        i = i + 1;
    }
}

/// Width of the rules that separate the parts of an export.
pub const RULE_WIDTH: usize = 50;

/// The block of one note in an export.
pub open spec fn export_entry(n: Note) -> Seq<char> {
    "Заметка #"@ + int_to_decimal(n.id as int) + "\nНазвание: "@ + n.title@ + "\nСоздано: "@
        + stamp(n.created_at) + "\nОбновлено: "@ + stamp(n.updated_at) + "\n"@ + n.content@
        + "\n"@ + repeat_char('-', RULE_WIDTH as nat) + "\n\n"@
}

/// The blocks of the notes of an export, one after another.
pub open spec fn export_entries(notes: Seq<Note>) -> Seq<char>
    decreases notes.len(),
{
    if notes.len() == 0 {
        Seq::empty()
    } else {
        export_entries(notes.drop_last()) + export_entry(notes.last())
    }
}

/// The export of `notes` made at the moment rendered as `date`.
pub open spec fn export_text(notes: Seq<Note>, date: Seq<char>) -> Seq<char> {
    "📝 ЭКСПОРТ ЗАМЕТОК\n"@ + "Дата экспорта: "@ + date + "\n"@ + repeat_char('=', RULE_WIDTH as nat)
        + "\n\n"@ + export_entries(notes)
}

/// Renders `notes` as a plain-text export dated with the given text: a
/// heading, the date, a rule of `=`, then each note with its identifier,
/// title, time stamps and content, closed by a rule of `-`.
pub fn export_notes_dated(notes: &[Note], date: &str) -> (r: String)
    requires
        all_wf(notes@),
    ensures
        r@ == export_text(notes@, date@),
{
    let mut r = String::from_str("📝 ЭКСПОРТ ЗАМЕТОК\n");
    r.append("Дата экспорта: ");
    r.append(date);
    r.append("\n");
    append_repeat(&mut r, '=', RULE_WIDTH);
    r.append("\n\n");
    let ghost header = r@;
    let mut i: usize = 0;
    while i < notes.len()
        invariant
            i <= notes@.len(),
            all_wf(notes@),
            r@ == header + export_entries(notes@.subrange(0, i as int)),
        decreases notes@.len() - i,
    {
        let note = &notes[i];
        assert(notes@[i as int].wf());
        let ghost before = r@;
        let created = format_datetime(&note.created_at, "%d.%m.%Y %H:%M");
        let updated = format_datetime(&note.updated_at, "%d.%m.%Y %H:%M");
        r.append("Заметка #");
        append_i64(&mut r, note.id);
        r.append("\nНазвание: ");
        r.append(note.title.as_str());
        r.append("\nСоздано: ");
        r.append(created.as_str());
        r.append("\nОбновлено: ");
        r.append(updated.as_str());
        r.append("\n");
        r.append(note.content.as_str());
        r.append("\n");
        append_repeat(&mut r, '-', RULE_WIDTH);
        r.append("\n\n");
        proof {
            let s = notes@.subrange(0, i + 1);
            assert(s.drop_last() =~= notes@.subrange(0, i as int));
            assert(s.last() == notes@[i as int]);
            assert(r@ =~= before + export_entry(notes@[i as int]));
            assert(r@ =~= header + export_entries(s));
        }
        i = i + 1;
    }
    assert(notes@.subrange(0, notes@.len() as int) =~= notes@);
    r
}

/// Renders `notes` as a plain-text export dated with the current UTC time,
/// rendered as `DD.MM.YYYY HH:MM UTC`.  The time comes from the clock, so
/// the contract says only that some valid date-time was used.
pub fn export_notes_to_text(notes: &[Note]) -> (r: String)
    requires
        all_wf(notes@),
    ensures
        exists|dt: DateTime|
            dt.valid() && r@ == export_text(notes@, #[trigger] chrono_format(dt.parts(), "%d.%m.%Y %H:%M UTC"@)),
{
    let now = now_utc();
    let date = format_datetime(&now, "%d.%m.%Y %H:%M UTC");
    let r = export_notes_dated(notes, date.as_str());
    assert(r@ == export_text(notes@, chrono_format(now.parts(), "%d.%m.%Y %H:%M UTC"@)));
    r
}

/// The text of the message that reminds a user of a note; title and content
/// are HTML-escaped, the message being sent in HTML mode.
pub open spec fn reminder_text(n: Note) -> Seq<char> {
    "⏰ <b>Напоминание</b>\n\n<b>"@ + escape_html(n.title@) + "</b>\n\n"@ + escape_html(n.content@)
}

/// Builds the text of the message that reminds a user of a note.
pub fn reminder_message(note: &Note) -> (r: String)
    ensures
        r@ == reminder_text(*note),
{
    let mut r = String::from_str("⏰ <b>Напоминание</b>\n\n<b>");
    append_escaped(&mut r, note.title.as_str());
    r.append("</b>\n\n");
    append_escaped(&mut r, note.content.as_str());
    r
}

} // verus!

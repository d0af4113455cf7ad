//! Properties that hold across the dialogue, the paging of lists and the
//! cutting of long messages.

use vstd::prelude::*;
use vstd::utf8::{encode_utf8, valid_utf8};
use crate::handlers::{
    callback_step, cut_text, short_entry, tag_added_text, message_step, nav_row, note_step, owned_by, state_of, CallbackAction,
    DialogueState, DialogueView, MessageActionView, NoteAction, NoteStepView,
    ButtonView, MAX_MESSAGE_LEN, MAX_NOTE_CONTENT, MAX_NOTE_TITLE, NOTES_PER_PAGE,
};
use crate::models::Note;
use crate::queries::offset_of;
use crate::text::{
    byte_len, escape_html, int_to_decimal, nat_to_decimal, digit_char, take_chars, lemma_encode_utf8_push, lemma_escape_html_concat,
    law_escape_html_no_angle_brackets, law_escape_html_round_trip, trim, unescape_html,
};
use crate::utils::{date_error_message, list_entry, export_entries, export_entry, export_text, note_card, reminder_text, repeat_char, stamp, RULE_WIDTH};

verus! {

/// The dialogue of user `w` as it stands in `v`: state and draft.
pub open spec fn same_user_dialogue(v1: DialogueView, v2: DialogueView, w: i64) -> bool {
    &&& state_of(v1, w) == state_of(v2, w)
    &&& v1.states.contains_key(w) == v2.states.contains_key(w)
    &&& v1.drafts.contains_key(w) == v2.drafts.contains_key(w)
    &&& v1.drafts.contains_key(w) ==> v1.drafts[w] == v2.drafts[w]
}

/// A message, a button press or a looked-up note changes the dialogue of
/// its user only: every other user's state and draft stay as they were.
pub proof fn law_users_are_independent(
    v: DialogueView,
    u: i64,
    w: i64,
    text: Seq<char>,
    action: CallbackAction,
    note_id: i64,
    then: NoteAction,
    found: Option<Note>,
)
    requires
        w != u,
    ensures
        same_user_dialogue(message_step(v, u, text).0, v, w),
        same_user_dialogue(callback_step(v, u, action).0, v, w),
        same_user_dialogue(note_step(v, u, note_id, then, found).0, v, w),
{
}

/// Adding a note: after the button, a message with the title and a message
/// with the text (each non-empty once trimmed and within its limit) store
/// a note with exactly that trimmed title and text.  The draft holds the
/// title in between.
pub proof fn law_add_note_dialogue(v: DialogueView, u: i64, title: Seq<char>, content: Seq<char>)
    requires
        trim(title).len() > 0,
        byte_len(trim(title)) <= MAX_NOTE_TITLE,
        trim(content).len() > 0,
        byte_len(trim(content)) <= MAX_NOTE_CONTENT,
    ensures
        ({
            let v1 = callback_step(v, u, CallbackAction::AddNote).0;
            let v2 = message_step(v1, u, title).0;
            let a3 = message_step(v2, u, content).1;
            &&& state_of(v1, u) == DialogueState::WaitingTitle
            &&& state_of(v2, u) == DialogueState::WaitingContent
            &&& v2.drafts.contains_key(u) && v2.drafts[u].0 == trim(title)
            &&& a3 == MessageActionView::CreateNote(trim(title), trim(content))
        }),
{
}

/// A search, a tag or a reminder date takes one message: whatever it says,
/// the dialogue is over afterwards.
pub proof fn law_one_message_states_end(v: DialogueView, u: i64, text: Seq<char>)
    requires
        state_of(v, u) is WaitingSearch || state_of(v, u) is WaitingTag || state_of(v, u) is WaitingRemindDate,
    ensures
        state_of(message_step(v, u, text).0, u) == DialogueState::Idle,
        message_step(v, u, text).0.drafts == v.drafts,
{
}

/// The main menu ends any dialogue.
pub proof fn law_main_menu_ends_dialogue(v: DialogueView, u: i64)
    ensures
        state_of(callback_step(v, u, CallbackAction::MainMenu).0, u) == DialogueState::Idle,
{
}

/// A note that is not the user's is neither shown, deleted, tagged nor
/// reminded of: the dialogue stays as it was and nothing is deleted.  Only
/// a confirmed deletion of the user's own note deletes, and it deletes
/// that note.
pub proof fn law_only_own_notes(v: DialogueView, u: i64, note_id: i64, then: NoteAction, found: Option<Note>)
    ensures
        !owned_by(found, u) ==> note_step(v, u, note_id, then, found).0 == v && note_step(
            v,
            u,
            note_id,
            then,
            found,
        ).1 is Reply,
        note_step(v, u, note_id, then, found).1 matches NoteStepView::Delete(d) ==> owned_by(found, u)
            && then == NoteAction::ConfirmDelete && d == note_id,
{
}

/// The navigation under a page leads back a page exactly when there is one
/// before, and forward exactly when the page is full; the menu is always
/// there.  Consecutive pages follow each other without gap or overlap.
pub proof fn law_paging(page: u32, count: nat, per_page: int)
    requires
        1 <= page < u32::MAX,
    ensures
        nav_row(page, count).contains(("◀"@, CallbackAction::ListNotes((page - 1) as u32))) <==> page > 1,
        nav_row(page, count).contains(("◀ Меню"@, CallbackAction::MainMenu)),
        nav_row(page, count).contains(("▶"@, CallbackAction::ListNotes((page + 1) as u32))) <==> count
            == NOTES_PER_PAGE,
        offset_of(page + 1, per_page) == offset_of(page as int, per_page) + per_page,
        offset_of(1, per_page) == 0,
{
    let back: Seq<ButtonView> = if page > 1 {
        seq![("◀"@, CallbackAction::ListNotes((page - 1) as u32))]
    } else {
        Seq::empty()
    };
    let menu: Seq<ButtonView> = seq![("◀ Меню"@, CallbackAction::MainMenu)];
    let fwd: Seq<ButtonView> = if count == NOTES_PER_PAGE {
        seq![("▶"@, CallbackAction::ListNotes((page + 1) as u32))]
    } else {
        Seq::empty()
    };
    let row = nav_row(page, count);
    assert(row =~= back + menu + fwd);
    assert(row[back.len() as int] == menu[0]);
    if page > 1 {
        assert(row[0] == back[0]);
    } else {
        assert forall|i: int| 0 <= i < row.len() implies row[i] != ("◀"@, CallbackAction::ListNotes(
            (page - 1) as u32,
        )) by {
            if i >= 1 {
                assert(row[i] == fwd[i - 1]);
            }
        }
    }
    if count == NOTES_PER_PAGE {
        assert(row[(back.len() + 1) as int] == fwd[0]);
    } else {
        assert forall|i: int| 0 <= i < row.len() implies row[i] != ("▶"@, CallbackAction::ListNotes(
            (page + 1) as u32,
        )) by {
            if i < back.len() {
                assert(row[i] == back[i]);
            } else {
                assert(row[i] == menu[i - back.len()]);
            }
        }
    }
    assert(offset_of(page + 1, per_page) == offset_of(page as int, per_page) + per_page) by (nonlinear_arith);
}

/// The encoding of two texts one after the other.
pub proof fn lemma_encode_utf8_concat(a: Seq<char>, b: Seq<char>)
    ensures
        encode_utf8(a + b) == encode_utf8(a) + encode_utf8(b),
    decreases b.len(),
{
    if b.len() == 0 {
        assert(a + b =~= a);
        assert(encode_utf8(b) =~= Seq::<u8>::empty());
        assert(encode_utf8(a) + encode_utf8(b) =~= encode_utf8(a));
    } else {
        let c = b.last();
        assert(a + b =~= (a + b.drop_last()).push(c));
        assert(b =~= b.drop_last().push(c));
        lemma_encode_utf8_concat(a, b.drop_last());
        lemma_encode_utf8_push(a + b.drop_last(), c);
        lemma_encode_utf8_push(b.drop_last(), c);
        assert(encode_utf8(a + b) =~= encode_utf8(a) + encode_utf8(b));
    }
}

/// A long message is cut to exactly its first `MAX_MESSAGE_LEN` bytes,
/// followed by the mark that it was cut; a short one is sent whole.
pub proof fn law_cut_keeps_prefix(full: Seq<char>)
    requires
        byte_len(full) > MAX_MESSAGE_LEN ==> vstd::utf8::is_char_boundary(
            encode_utf8(full),
            MAX_MESSAGE_LEN as int,
        ),
    ensures
        byte_len(full) > MAX_MESSAGE_LEN ==> encode_utf8(cut_text(full)) == encode_utf8(full).subrange(
            0,
            MAX_MESSAGE_LEN as int,
        ) + encode_utf8("\n\n...(обрезано)"@),
        byte_len(full) <= MAX_MESSAGE_LEN ==> cut_text(full) == full,
{
    broadcast use vstd::utf8::group_utf8_lib;

    if byte_len(full) > MAX_MESSAGE_LEN {
        let bytes = encode_utf8(full);
        let head = bytes.subrange(0, MAX_MESSAGE_LEN as int);
        assert(valid_utf8(bytes));
        assert(valid_utf8(head));
        let d = vstd::utf8::decode_utf8(head);
        assert(encode_utf8(d) == head);
        lemma_encode_utf8_concat(d, "\n\n...(обрезано)"@);
    }
}


/// A search looks for exactly the text typed, neither trimmed nor escaped,
/// and ends the dialogue.
pub proof fn law_search_is_for_typed_text(v: DialogueView, u: i64, text: Seq<char>)
    requires
        state_of(v, u) == DialogueState::WaitingSearch,
    ensures
        message_step(v, u, text).1 == MessageActionView::Search(text),
        state_of(message_step(v, u, text).0, u) == DialogueState::Idle,
{
}

/// A tag is the typed text without its surrounding white space, character
/// for character, attached to the note the dialogue was about; a text of
/// white space alone attaches nothing.
pub proof fn law_tag_is_trimmed_text(v: DialogueView, u: i64, note_id: i64, text: Seq<char>)
    requires
        state_of(v, u) == DialogueState::WaitingTag(note_id),
    ensures
        trim(text).len() > 0 ==> message_step(v, u, text).1 == MessageActionView::AddTag(note_id, trim(text)),
        trim(text).len() == 0 ==> message_step(v, u, text).1 is Reply,
        state_of(message_step(v, u, text).0, u) == DialogueState::Idle,
{
}

/// The blocks of two lists of notes one after the other.
pub proof fn lemma_export_entries_concat(a: Seq<Note>, b: Seq<Note>)
    ensures
        export_entries(a + b) == export_entries(a) + export_entries(b),
    decreases b.len(),
{
    if b.len() == 0 {
        assert(a + b =~= a);
        assert(export_entries(a) + export_entries(b) =~= export_entries(a));
    } else {
        assert((a + b).drop_last() =~= a + b.drop_last());
        assert((a + b).last() == b.last());
        lemma_export_entries_concat(a, b.drop_last());
        assert(export_entries(a + b) =~= export_entries(a) + export_entries(b));
    }
}

/// Where the parts of a text made of five parts lie.
proof fn lemma_five_parts(p: Seq<char>, x: Seq<char>, c: Seq<char>, y: Seq<char>, q: Seq<char>)
    ensures
        ({
            let t = p + x + c + y + q;
            let k: int = p.len() as int + x.len();
            &&& t.subrange(k - x.len(), k) == x
            &&& t.subrange(k, k + c.len()) == c
            &&& t.subrange(k + c.len(), k + c.len() + y.len()) == y
            &&& k + c.len() + y.len() <= t.len()
        }),
{
    let t = p + x + c + y + q;
    let k: int = p.len() as int + x.len();
    assert(t.subrange(k - x.len(), k) =~= x);
    assert(t.subrange(k, k + c.len()) =~= c);
    assert(t.subrange(k + c.len(), k + c.len() + y.len()) =~= y);
}

/// An export is what comes before a note's block, the block, and what
/// comes after.
proof fn lemma_export_around(notes: Seq<Note>, date: Seq<char>, i: int)
    requires
        0 <= i < notes.len(),
    ensures
        export_text(notes, date) == ("📝 ЭКСПОРТ ЗАМЕТОК\n"@ + "Дата экспорта: "@ + date + "\n"@ + repeat_char(
            '=',
            RULE_WIDTH as nat,
        ) + "\n\n"@ + export_entries(notes.take(i))) + export_entry(notes[i]) + export_entries(
            notes.skip(i + 1),
        ),
{
    let n = notes[i];
    let head = notes.take(i);
    let rest = notes.skip(i + 1);
    assert(notes =~= head + seq![n] + rest);
    lemma_export_entries_concat(head + seq![n], rest);
    lemma_export_entries_concat(head, seq![n]);
    assert(seq![n].drop_last() =~= Seq::<Note>::empty());
    assert(seq![n].last() == n);
    assert(export_entries(Seq::<Note>::empty()) =~= Seq::<char>::empty());
    assert(export_entries(seq![n]) =~= Seq::<char>::empty() + export_entry(n));
    assert(export_entries(seq![n]) =~= export_entry(n));
    assert(export_entries(notes) =~= export_entries(head) + export_entry(n) + export_entries(rest));
    let h = "📝 ЭКСПОРТ ЗАМЕТОК\n"@ + "Дата экспорта: "@ + date + "\n"@ + repeat_char('=', RULE_WIDTH as nat)
        + "\n\n"@;
    assert(export_text(notes, date) =~= (h + export_entries(head)) + export_entry(n) + export_entries(rest));
}

/// An export holds the whole text of every note: the note's content, all
/// of it, stands right after the line with its update time stamp and right
/// before the rule that closes its block.
pub proof fn law_export_keeps_whole_content(notes: Seq<Note>, date: Seq<char>, i: int)
    requires
        0 <= i < notes.len(),
    ensures
        ({
            let t = export_text(notes, date);
            let c = notes[i].content@;
            let before = "\nОбновлено: "@ + stamp(notes[i].updated_at) + "\n"@;
            let after = "\n"@ + repeat_char('-', RULE_WIDTH as nat) + "\n\n"@;
            exists|k: int|
                before.len() <= k && k + c.len() + after.len() <= t.len() && #[trigger] t.subrange(
                    k - before.len(),
                    k,
                ) == before && t.subrange(k, k + c.len()) == c && t.subrange(
                    k + c.len(),
                    k + c.len() + after.len(),
                ) == after
        }),
{
    let n = notes[i];
    let c = n.content@;
    let before = "\nОбновлено: "@ + stamp(n.updated_at) + "\n"@;
    let after = "\n"@ + repeat_char('-', RULE_WIDTH as nat) + "\n\n"@;
    lemma_export_around(notes, date, i);
    let x = "📝 ЭКСПОРТ ЗАМЕТОК\n"@ + "Дата экспорта: "@ + date + "\n"@ + repeat_char('=', RULE_WIDTH as nat)
        + "\n\n"@ + export_entries(notes.take(i));
    let p0 = "Заметка #"@ + int_to_decimal(n.id as int) + "\nНазвание: "@ + n.title@ + "\nСоздано: "@
        + stamp(n.created_at);
    lemma_export_entry_parts(n);
    let rest = export_entries(notes.skip(i + 1));
    lemma_regroup(x, p0, before, c, after, rest);
    lemma_five_parts(x + p0, before, c, after, rest);
    let t = export_text(notes, date);
    let k: int = (x + p0).len() as int + before.len();
    assert(t.subrange(k - before.len(), k) == before);
}

/// The block of a note: its heading lines, the update line, its text, the
/// closing rule.
proof fn lemma_export_entry_parts(n: Note)
    ensures
        export_entry(n) == ("Заметка #"@ + int_to_decimal(n.id as int) + "\nНазвание: "@ + n.title@
            + "\nСоздано: "@ + stamp(n.created_at)) + ("\nОбновлено: "@ + stamp(n.updated_at) + "\n"@)
            + n.content@ + ("\n"@ + repeat_char('-', RULE_WIDTH as nat) + "\n\n"@),
{
    let p0 = "Заметка #"@ + int_to_decimal(n.id as int) + "\nНазвание: "@ + n.title@ + "\nСоздано: "@
        + stamp(n.created_at);
    let b = "\nОбновлено: "@ + stamp(n.updated_at) + "\n"@;
    let a = "\n"@ + repeat_char('-', RULE_WIDTH as nat) + "\n\n"@;
    assert(export_entry(n) =~= p0 + b + n.content@ + a);
}

proof fn lemma_regroup(x: Seq<char>, p0: Seq<char>, b: Seq<char>, c: Seq<char>, a: Seq<char>, r: Seq<char>)
    ensures
        x + (p0 + b + c + a) + r == (x + p0) + b + c + a + r,
{
    assert(x + (p0 + b + c + a) + r =~= (x + p0) + b + c + a + r);
}

/// The card of a note shows its title as written, then its whole text, then
/// its identifier: between `</b>\n\n` and `\n\n_ID: ` stands the note's text,
/// all of it, whatever its length.
pub proof fn law_card_shows_whole_note(
    title: Seq<char>,
    content: Seq<char>,
    id: int,
    created: Seq<char>,
    updated: Seq<char>,
)
    ensures
        ({
            let card = note_card(title, content, id, created, updated);
            let a: int = "📝 <b>"@.len() as int + title.len();
            let b: int = a + "</b>\n\n"@.len();
            let e: int = b + content.len();
            &&& card.subrange(0, "📝 <b>"@.len() as int) == "📝 <b>"@
            &&& card.subrange("📝 <b>"@.len() as int, a) == title
            &&& card.subrange(a, b) == "</b>\n\n"@
            &&& card.subrange(b, e) == content
            &&& card.subrange(e, e + "\n\n_ID: "@.len()) == "\n\n_ID: "@
            &&& card.subrange(e + "\n\n_ID: "@.len(), e + "\n\n_ID: "@.len() + int_to_decimal(id).len())
                == int_to_decimal(id)
        }),
{
    let card = note_card(title, content, id, created, updated);
    let a: int = "📝 <b>"@.len() as int + title.len();
    let b: int = a + "</b>\n\n"@.len();
    let e: int = b + content.len();
    let f: int = e + "\n\n_ID: "@.len();
    let tail = "_\n_Создано: "@ + created + "_\n_Обновлено: "@ + updated + "_"@;
    assert(card =~= "📝 <b>"@ + title + "</b>\n\n"@ + content + "\n\n_ID: "@ + int_to_decimal(id) + tail);
    assert(card.subrange(0, "📝 <b>"@.len() as int) =~= "📝 <b>"@);
    assert(card.subrange("📝 <b>"@.len() as int, a) =~= title);
    assert(card.subrange(a, b) =~= "</b>\n\n"@);
    assert(card.subrange(b, e) =~= content);
    assert(card.subrange(e, f) =~= "\n\n_ID: "@);
    assert(card.subrange(f, f + int_to_decimal(id).len()) =~= int_to_decimal(id));
}

/// A reminder carries the whole note: after the heading, the part up to the
/// closing `</b>` reads back (as HTML) as the title, and everything after
/// the following blank line reads back as the note's whole text.  The
/// escaped title holds no `<`, so the closing tag cannot come from it.
pub proof fn law_reminder_carries_whole_note(n: Note)
    ensures
        ({
            let t = reminder_text(n);
            let h = "⏰ <b>Напоминание</b>\n\n<b>"@;
            let close = "</b>\n\n"@;
            exists|j: int|
                h.len() <= j && j + close.len() <= t.len() && t.subrange(0, h.len() as int) == h
                    && unescape_html(#[trigger] t.subrange(h.len() as int, j)) == n.title@ && (forall|
                    x: int,
                |
                    h.len() <= x < j ==> t[x] != '<') && t.subrange(j, j + close.len()) == close
                    && unescape_html(t.skip(j + close.len())) == n.content@
        }),
{
    let t = reminder_text(n);
    let h = "⏰ <b>Напоминание</b>\n\n<b>"@;
    let close = "</b>\n\n"@;
    let et = escape_html(n.title@);
    let ec = escape_html(n.content@);
    assert(t =~= h + et + close + ec);
    let j: int = h.len() as int + et.len();
    assert(t.subrange(0, h.len() as int) =~= h);
    assert(t.subrange(h.len() as int, j) =~= et);
    assert(t.subrange(j, j + close.len()) =~= close);
    assert(t.skip(j + close.len()) =~= ec);
    law_escape_html_round_trip(n.title@);
    law_escape_html_round_trip(n.content@);
    law_escape_html_no_angle_brackets(n.title@);
    assert forall|x: int| h.len() <= x < j implies t[x] != '<' by {
        assert(t[x] == et[x - h.len()]);
    }
}


/// Where the middle part of a text made of three parts lies.
proof fn lemma_middle(p: Seq<char>, x: Seq<char>, q: Seq<char>)
    ensures
        (p + x + q).subrange(p.len() as int, p.len() as int + x.len()) == x,
        p.len() + x.len() <= (p + x + q).len(),
{
    assert((p + x + q).subrange(p.len() as int, p.len() as int + x.len()) =~= x);
}

/// An entry of a list of notes shows the title as written, the identifier,
/// and the first 50 characters of the text (all of it when shorter), in
/// order and unchanged.
pub proof fn law_list_entry_shows_title_and_preview(n: Note)
    ensures
        ({
            let e = list_entry(n);
            let c = n.content@;
            let m: int = if c.len() < 50 { c.len() as int } else { 50 };
            let a: int = "• <b>"@.len() as int;
            let b: int = a + n.title@.len() + "</b> (ID: "@.len();
            let d: int = b + int_to_decimal(n.id as int).len() + ")\n  <i>"@.len();
            &&& e.subrange(a, a + n.title@.len()) == n.title@
            &&& e.subrange(b, b + int_to_decimal(n.id as int).len()) == int_to_decimal(n.id as int)
            &&& e.subrange(d, d + m) == c.take(m)
            &&& e.subrange(d + m, e.len() as int) == "</i>\n\n"@
        }),
{
    let e = list_entry(n);
    let c = n.content@;
    let m: int = if c.len() < 50 { c.len() as int } else { 50 };
    let pv = take_chars(c, 50);
    assert(pv =~= c.take(m));
    let t = n.title@;
    let id = int_to_decimal(n.id as int);
    assert(e =~= "• <b>"@ + t + ("</b> (ID: "@ + id + ")\n  <i>"@ + pv + "</i>\n\n"@));
    lemma_middle("• <b>"@, t, "</b> (ID: "@ + id + ")\n  <i>"@ + pv + "</i>\n\n"@);
    assert(e =~= ("• <b>"@ + t + "</b> (ID: "@) + id + (")\n  <i>"@ + pv + "</i>\n\n"@));
    lemma_middle("• <b>"@ + t + "</b> (ID: "@, id, ")\n  <i>"@ + pv + "</i>\n\n"@);
    assert(e =~= ("• <b>"@ + t + "</b> (ID: "@ + id + ")\n  <i>"@) + pv + "</i>\n\n"@);
    lemma_middle("• <b>"@ + t + "</b> (ID: "@ + id + ")\n  <i>"@, pv, "</i>\n\n"@);
    let d: int = ("• <b>"@ + t + "</b> (ID: "@ + id + ")\n  <i>"@).len() as int;
    assert(e.subrange(d + m, e.len() as int) =~= "</i>\n\n"@);
}

/// A line of the short lists (search results, pages of notes) reads back,
/// as HTML, as the note's title, and the title part cannot open a tag.
pub proof fn law_short_entry_reads_back_title(n: Note)
    ensures
        ({
            let e = short_entry(n);
            let a: int = "• "@.len() as int;
            let et = escape_html(n.title@);
            &&& unescape_html(e.subrange(a, a + et.len())) == n.title@
            &&& forall|x: int| a <= x < a + et.len() ==> e[x] != '<'
            &&& e.subrange(a + et.len(), a + et.len() + " (ID: "@.len()) == " (ID: "@
            &&& e.subrange(
                a + et.len() + " (ID: "@.len(),
                a + et.len() + " (ID: "@.len() + int_to_decimal(n.id as int).len(),
            ) == int_to_decimal(n.id as int)
        }),
{
    let e = short_entry(n);
    let et = escape_html(n.title@);
    let id = int_to_decimal(n.id as int);
    let a: int = "• "@.len() as int;
    assert(e =~= "• "@ + et + (" (ID: "@ + id + ")\n"@));
    lemma_middle("• "@, et, " (ID: "@ + id + ")\n"@);
    assert(e =~= ("• "@ + et) + " (ID: "@ + (id + ")\n"@));
    lemma_middle("• "@ + et, " (ID: "@, id + ")\n"@);
    assert(e =~= ("• "@ + et + " (ID: "@) + id + ")\n"@);
    lemma_middle("• "@ + et + " (ID: "@, id, ")\n"@);
    law_escape_html_round_trip(n.title@);
    law_escape_html_no_angle_brackets(n.title@);
    assert forall|x: int| a <= x < a + et.len() implies e[x] != '<' by {
        assert(e[x] == et[x - a]);
    }
}

/// The answer to a new tag reads back, as HTML, as the tag itself, and
/// names the note.
pub proof fn law_tag_answer_reads_back_tag(note_id: i64, tag: Seq<char>)
    ensures
        ({
            let t = tag_added_text(note_id, tag);
            let a: int = "✅ Тег '"@.len() as int;
            let et = escape_html(tag);
            &&& unescape_html(t.subrange(a, a + et.len())) == tag
            &&& t.subrange(a + et.len() + "' добавлен к заметке #"@.len(), t.len() as int) == int_to_decimal(
                note_id as int,
            )
        }),
{
    let t = tag_added_text(note_id, tag);
    let et = escape_html(tag);
    let id = int_to_decimal(note_id as int);
    assert(t =~= "✅ Тег '"@ + et + ("' добавлен к заметке #"@ + id));
    lemma_middle("✅ Тег '"@, et, "' добавлен к заметке #"@ + id);
    let b: int = "✅ Тег '"@.len() as int + et.len() + "' добавлен к заметке #"@.len();
    assert(t.subrange(b, t.len() as int) =~= id);
    law_escape_html_round_trip(tag);
}

/// The message for a date that cannot be read quotes the typed text
/// unchanged.
pub proof fn law_date_error_quotes_input(input: Seq<char>)
    ensures
        date_error_message(input).subrange(
            "Не удалось распознать дату: "@.len() as int,
            "Не удалось распознать дату: "@.len() as int + input.len(),
        ) == input,
{
    lemma_middle("Не удалось распознать дату: "@, input, ". Форматы: YYYY-MM-DD HH:MM:SS, DD.MM.YYYY HH:MM"@);
}

/// The number that a string of decimal digits denotes.
pub open spec fn decimal_value(s: Seq<char>) -> int
    decreases s.len(),
{
    if s.len() == 0 {
        0
    } else {
        decimal_value(s.drop_last()) * 10 + (s.last() as int - 48)
    }
}

/// The decimal rendering of a number is made of digits, starts with a
/// zero only for zero itself, and denotes the number.
pub proof fn law_decimal_denotes_number(n: nat)
    ensures
        decimal_value(nat_to_decimal(n)) == n,
        nat_to_decimal(n).len() > 0,
        forall|i: int| 0 <= i < nat_to_decimal(n).len() ==> '0' <= #[trigger] nat_to_decimal(n)[i] <= '9',
        n > 0 ==> nat_to_decimal(n)[0] != '0',
    decreases n,
{
    if n >= 10 {
        law_decimal_denotes_number(n / 10);
        let s = nat_to_decimal(n);
        assert(s.drop_last() =~= nat_to_decimal(n / 10));
        assert(s.last() == digit_char((n % 10) as int));
        assert(digit_char((n % 10) as int) as int == 48 + n % 10);
        assert(decimal_value(s) == decimal_value(s.drop_last()) * 10 + (s.last() as int - 48));
        assert(decimal_value(s) == (n / 10) * 10 + n % 10);
        assert forall|i: int| 0 <= i < s.len() implies '0' <= #[trigger] s[i] <= '9' by {
            if i < s.len() - 1 {
                assert(s[i] == nat_to_decimal(n / 10)[i]);
            }
        }
        assert(s[0] == nat_to_decimal(n / 10)[0]);
    } else {
        let s = nat_to_decimal(n);
        assert(s.drop_last() =~= Seq::<char>::empty());
        assert(digit_char(n as int) as int == 48 + n);
        assert(decimal_value(s.drop_last()) == 0);
        assert(decimal_value(s) == decimal_value(s.drop_last()) * 10 + (s.last() as int - 48));
    }
}

/// The decimal rendering of a negative number is a minus sign followed by
/// the rendering of its magnitude.
pub proof fn law_negative_decimal(i: int)
    requires
        i < 0,
    ensures
        int_to_decimal(i)[0] == '-',
        int_to_decimal(i).drop_first() == nat_to_decimal((-i) as nat),
        decimal_value(int_to_decimal(i).drop_first()) == -i,
{
    assert((seq!['-'] + nat_to_decimal((-i) as nat)).drop_first() =~= nat_to_decimal((-i) as nat));
    law_decimal_denotes_number((-i) as nat);
}


/// An export names every note by its title as written: the title stands
/// between `\nНазвание: ` and `\nСоздано: ` in the note's block.
pub proof fn law_export_keeps_title(notes: Seq<Note>, date: Seq<char>, i: int)
    requires
        0 <= i < notes.len(),
    ensures
        ({
            let t = export_text(notes, date);
            let c = notes[i].title@;
            let before = "\nНазвание: "@;
            let after = "\nСоздано: "@;
            exists|k: int|
                before.len() <= k && k + c.len() + after.len() <= t.len() && #[trigger] t.subrange(
                    k - before.len(),
                    k,
                ) == before && t.subrange(k, k + c.len()) == c && t.subrange(
                    k + c.len(),
                    k + c.len() + after.len(),
                ) == after
        }),
{
    let n = notes[i];
    lemma_export_around(notes, date, i);
    let x = "📝 ЭКСПОРТ ЗАМЕТОК\n"@ + "Дата экспорта: "@ + date + "\n"@ + repeat_char('=', RULE_WIDTH as nat)
        + "\n\n"@ + export_entries(notes.take(i));
    let p0 = "Заметка #"@ + int_to_decimal(n.id as int);
    let q = stamp(n.created_at) + "\nОбновлено: "@ + stamp(n.updated_at) + "\n"@ + n.content@ + "\n"@
        + repeat_char('-', RULE_WIDTH as nat) + "\n\n"@;
    lemma_export_entry_title(n);
    let rest = export_entries(notes.skip(i + 1));
    lemma_regroup_title(x, p0, "\nНазвание: "@, n.title@, "\nСоздано: "@, q, rest);
    lemma_five_parts(x + p0, "\nНазвание: "@, n.title@, "\nСоздано: "@, q + rest);
    let t = export_text(notes, date);
    let k: int = (x + p0).len() as int + "\nНазвание: "@.len();
    assert(t.subrange(k - "\nНазвание: "@.len(), k) == "\nНазвание: "@);
}

proof fn lemma_export_entry_title(n: Note)
    ensures
        export_entry(n) == ("Заметка #"@ + int_to_decimal(n.id as int)) + "\nНазвание: "@ + n.title@
            + "\nСоздано: "@ + (stamp(n.created_at) + "\nОбновлено: "@ + stamp(n.updated_at) + "\n"@
            + n.content@ + "\n"@ + repeat_char('-', RULE_WIDTH as nat) + "\n\n"@),
{
    let q = stamp(n.created_at) + "\nОбновлено: "@ + stamp(n.updated_at) + "\n"@ + n.content@ + "\n"@
        + repeat_char('-', RULE_WIDTH as nat) + "\n\n"@;
    assert(export_entry(n) =~= ("Заметка #"@ + int_to_decimal(n.id as int)) + "\nНазвание: "@ + n.title@
        + "\nСоздано: "@ + q);
}

proof fn lemma_regroup_title(
    x: Seq<char>,
    p0: Seq<char>,
    b: Seq<char>,
    c: Seq<char>,
    a: Seq<char>,
    q: Seq<char>,
    r: Seq<char>,
)
    ensures
        x + (p0 + b + c + a + q) + r == (x + p0) + b + c + a + (q + r),
{
    assert(x + (p0 + b + c + a + q) + r =~= (x + p0) + b + c + a + (q + r));
}

} // verus!

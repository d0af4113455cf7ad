//! The dialogue of the bot: menus, the answer to every message and button
//! press, and the per-user state that carries a dialogue across messages.
//!
//! The bot's I/O stays with the caller.  A decision that needs storage
//! returns what to fetch or store; the caller does it and hands the result
//! to the matching follow-up function, which gives the answer to send.

use vstd::prelude::*;
use vstd::string::*;
use std::collections::HashMap;
use crate::datetime::{chrono_format, format_datetime, now_utc, DateTime, DateTimeParts};
use crate::models::{all_wf, Note};
use crate::text::{byte_len, exceeds_bytes, append_escaped, append_i64, append_u64, escape_html, int_to_decimal, nat_to_decimal, trim, trim_str};
use crate::utils::{date_error_message, export_text, note_card, parse_datetime, parsed_datetime, stamp, format_note, export_notes_to_text};
use vstd::utf8::{decode_utf8, encode_utf8, is_char_boundary};

verus! {

broadcast use vstd::std_specs::hash::group_hash_axioms;

/// Longest title accepted, in bytes of UTF-8.
pub const MAX_NOTE_TITLE: usize = 200;

/// Longest note text accepted, in bytes of UTF-8.
pub const MAX_NOTE_CONTENT: usize = 4000;

/// Longest list of search results sent before it is cut, in bytes of UTF-8.
pub const MAX_MESSAGE_LEN: usize = 4000;

/// Notes per page of the list.
pub const NOTES_PER_PAGE: u32 = 5;

/// Notes taken into an export.
pub const EXPORT_LIMIT: u32 = 1000;

/// What a button asks for when pressed.
#[derive(Clone, Copy, Debug, PartialEq, Eq, Structural)]
pub enum CallbackAction {
    MainMenu,
    AddNote,
    ListNotes(u32),
    ViewNote(i64),
    DeleteNote(i64),
    ConfirmDelete(i64),
    Search,
    TagNote(i64),
    RemindNote(i64),
    Export,
    Settings,
}

/// Where a user stands in a dialogue: what the next message is taken as.
#[derive(Clone, Copy, Debug, PartialEq, Eq, Structural)]
pub enum DialogueState {
    Idle,
    WaitingTitle,
    WaitingContent,
    WaitingSearch,
    WaitingTag(i64),
    WaitingRemindDate(i64),
}

/// A button of an inline keyboard.
pub struct Button {
    pub label: String,
    pub action: CallbackAction,
}

/// An inline keyboard, row by row.
pub struct Keyboard {
    pub rows: Vec<Vec<Button>>,
}

/// A button as label and action.
pub type ButtonView = (Seq<char>, CallbackAction);

/// A keyboard as rows of buttons.
pub type KeyboardView = Seq<Seq<ButtonView>>;

impl View for Button {
    type V = ButtonView;

    open spec fn view(&self) -> ButtonView {
        (self.label@, self.action)
    }
}

/// The buttons of a row.
pub open spec fn row_view(row: Vec<Button>) -> Seq<ButtonView> {
    row@.map_values(|b: Button| b@)
}

impl View for Keyboard {
    type V = KeyboardView;

    open spec fn view(&self) -> KeyboardView {
        self.rows@.map_values(|row: Vec<Button>| row_view(row))
    }
}

/// A message to send: its text, an optional keyboard, whether the text is
/// HTML, and whether it replaces the message that carried the pressed
/// button instead of being sent anew.
pub struct Reply {
    pub text: String,
    pub keyboard: Option<Keyboard>,
    pub html: bool,
    pub edit: bool,
}

/// A message as plain values.
pub struct ReplyView {
    pub text: Seq<char>,
    pub keyboard: Option<KeyboardView>,
    pub html: bool,
    pub edit: bool,
}

/// The keyboard of an optional keyboard.
pub open spec fn opt_keyboard_view(k: Option<Keyboard>) -> Option<KeyboardView> {
    match k {
        Some(k) => Some(k@),
        None => None,
    }
}

impl View for Reply {
    type V = ReplyView;

    open spec fn view(&self) -> ReplyView {
        ReplyView {
            text: self.text@,
            keyboard: opt_keyboard_view(self.keyboard),
            html: self.html,
            edit: self.edit,
        }
    }
}

/// A new plain-text message.
pub open spec fn send_view(text: Seq<char>, keyboard: Option<KeyboardView>) -> ReplyView {
    ReplyView { text, keyboard, html: false, edit: false }
}

/// A plain-text message that replaces the one whose button was pressed.
pub open spec fn edit_view(text: Seq<char>, keyboard: KeyboardView) -> ReplyView {
    ReplyView { text, keyboard: Some(keyboard), html: false, edit: true }
}

fn button(label: &str, action: CallbackAction) -> (b: Button)
    ensures
        b@ == (label@, action),
{
    Button { label: String::from_str(label), action }
}

/// The main menu.
pub open spec fn main_menu_view() -> KeyboardView {
    seq![
        seq![("📝 Добавить"@, CallbackAction::AddNote), ("📋 Мои заметки"@, CallbackAction::ListNotes(1))],
        seq![("🔍 Поиск"@, CallbackAction::Search), ("⚙️ Настройки"@, CallbackAction::Settings)],
    ]
}

/// The single button back to the main menu.
pub open spec fn back_menu_view() -> KeyboardView {
    seq![seq![("◀ Меню"@, CallbackAction::MainMenu)]]
}

/// What can be done with a note.
pub open spec fn note_actions_view(note_id: i64) -> KeyboardView {
    seq![
        seq![("✅ Удалить"@, CallbackAction::DeleteNote(note_id)), ("🏷 Тег"@, CallbackAction::TagNote(note_id))],
        seq![("⏰ Напоминание"@, CallbackAction::RemindNote(note_id)), ("◀ Назад"@, CallbackAction::ListNotes(1))],
    ]
}

/// The settings menu.
pub open spec fn settings_menu_view() -> KeyboardView {
    seq![
        seq![("📥 Экспорт .md"@, CallbackAction::Export)],
        seq![("◀ Меню"@, CallbackAction::MainMenu)],
    ]
}

fn keyboard(rows: Vec<Vec<Button>>) -> (k: Keyboard)
    ensures
        k.rows == rows,
{
    Keyboard { rows }
}


fn row1(a: Button) -> (r: Vec<Button>)
    ensures
        row_view(r) == seq![a@],
{
    let ghost va = a@;
    let r = vec![a];
    assert(row_view(r) =~= seq![va]);
    r
}

fn row2(a: Button, b: Button) -> (r: Vec<Button>)
    ensures
        row_view(r) == seq![a@, b@],
{
    let ghost va = a@;
    let ghost vb = b@;
    let r = vec![a, b];
    assert(row_view(r) =~= seq![va, vb]);
    r
}

fn keyboard2(r0: Vec<Button>, r1: Vec<Button>) -> (k: Keyboard)
    ensures
        k@ == seq![row_view(r0), row_view(r1)],
{
    let ghost v0 = row_view(r0);
    let ghost v1 = row_view(r1);
    let k = Keyboard { rows: vec![r0, r1] };
    assert(k@ =~= seq![v0, v1]);
    k
}

fn keyboard1(r0: Vec<Button>) -> (k: Keyboard)
    ensures
        k@ == seq![row_view(r0)],
{
    let ghost v0 = row_view(r0);
    let k = Keyboard { rows: vec![r0] };
    assert(k@ =~= seq![v0]);
    k
}

impl Handlers {
    /// The main menu: add a note, list notes, search, settings.
    pub fn main_menu() -> (k: Keyboard)
        ensures
            k@ == main_menu_view(),
    {
        keyboard2(
            row2(button("📝 Добавить", CallbackAction::AddNote), button("📋 Мои заметки", CallbackAction::ListNotes(1))),
            row2(button("🔍 Поиск", CallbackAction::Search), button("⚙️ Настройки", CallbackAction::Settings)),
        )
    }

    /// A single button back to the main menu.
    pub fn back_menu() -> (k: Keyboard)
        ensures
            k@ == back_menu_view(),
    {
        keyboard1(row1(button("◀ Меню", CallbackAction::MainMenu)))
    }

    /// The actions on a note: delete, tag, remind, back to the list.
    pub fn note_actions(note_id: i64) -> (k: Keyboard)
        ensures
            k@ == note_actions_view(note_id),
    {
        keyboard2(
            row2(button("✅ Удалить", CallbackAction::DeleteNote(note_id)), button("🏷 Тег", CallbackAction::TagNote(note_id))),
            row2(button("⏰ Напоминание", CallbackAction::RemindNote(note_id)), button("◀ Назад", CallbackAction::ListNotes(1))),
        )
    }

    /// The settings menu: export, back to the main menu.
    pub fn settings_menu() -> (k: Keyboard)
        ensures
            k@ == settings_menu_view(),
    {
        keyboard2(
            row1(button("📥 Экспорт .md", CallbackAction::Export)),
            row1(button("◀ Меню", CallbackAction::MainMenu)),
        )
    }
}

/// The dialogue state of every user, and the title of the note that each
/// user is writing.
pub struct Handlers {
    states: HashMap<i64, DialogueState>,
    creating_notes: HashMap<i64, (String, String)>,
}

/// The dialogues as plain values: the state of each user that has one, and
/// the draft (title and text) of each user that is writing a note.
pub struct DialogueView {
    pub states: Map<i64, DialogueState>,
    pub drafts: Map<i64, (Seq<char>, Seq<char>)>,
}

impl View for Handlers {
    type V = DialogueView;

    closed spec fn view(&self) -> DialogueView {
        DialogueView {
            states: self.states@,
            drafts: Map::new(
                |u: i64| self.creating_notes@.contains_key(u),
                |u: i64| (self.creating_notes@[u].0@, self.creating_notes@[u].1@),
            ),
        }
    }
}

/// The state of user `u`: `Idle` for a user not seen yet.
pub open spec fn state_of(v: DialogueView, u: i64) -> DialogueState {
    if v.states.contains_key(u) {
        v.states[u]
    } else {
        DialogueState::Idle
    }
}

impl DialogueView {
    /// The same dialogues with the state of `u` set to `s`.
    pub open spec fn with_state(self, u: i64, s: DialogueState) -> DialogueView {
        DialogueView { states: self.states.insert(u, s), drafts: self.drafts }
    }
}

impl Handlers {
    /// No dialogue started yet.
    pub fn new() -> (h: Handlers)
        ensures
            h@.states == Map::<i64, DialogueState>::empty(),
            h@.drafts == Map::<i64, (Seq<char>, Seq<char>)>::empty(),
    {
        let h = Handlers { states: HashMap::new(), creating_notes: HashMap::new() };
        assert(h@.drafts =~= Map::<i64, (Seq<char>, Seq<char>)>::empty());
        h
    }

    /// The state of a user (`Idle` for a user not seen yet).
    pub fn state(&self, user_id: i64) -> (s: DialogueState)
        ensures
            s == state_of(self@, user_id),
    {
        match self.states.get(&user_id) {
            Some(s) => *s,
            None => DialogueState::Idle,
        }
    }

    fn set_state(&mut self, user_id: i64, s: DialogueState)
        ensures
            final(self)@ == old(self)@.with_state(user_id, s),
    {
        self.states.insert(user_id, s);
        assert(self@.drafts =~= old(self)@.drafts);
    }
}


/// What to do with a message: send an answer, or first store or fetch
/// something and then answer with the matching follow-up function.
pub enum MessageAction {
    /// Send this answer.
    Reply(Reply),
    /// Store a note with this title and text for the user, then answer
    /// with `note_created`.
    CreateNote { title: String, content: String },
    /// Search the user's notes for this text, then answer with
    /// `search_results`.
    Search { query: String },
    /// Attach this tag to the note, then answer with `tag_added`.
    AddTag { note_id: i64, tag: String },
    /// Set a reminder on the note at this date-time, then answer with
    /// `reminder_set`.
    SetReminder { note_id: i64, remind_at: DateTime },
}

/// A `MessageAction` as plain values.
pub enum MessageActionView {
    Reply(ReplyView),
    CreateNote(Seq<char>, Seq<char>),
    Search(Seq<char>),
    AddTag(i64, Seq<char>),
    SetReminder(i64, DateTimeParts),
}

impl View for MessageAction {
    type V = MessageActionView;

    open spec fn view(&self) -> MessageActionView {
        match self {
            MessageAction::Reply(r) => MessageActionView::Reply(r@),
            MessageAction::CreateNote { title, content } => MessageActionView::CreateNote(title@, content@),
            MessageAction::Search { query } => MessageActionView::Search(query@),
            MessageAction::AddTag { note_id, tag } => MessageActionView::AddTag(*note_id, tag@),
            MessageAction::SetReminder { note_id, remind_at } => MessageActionView::SetReminder(
                *note_id,
                remind_at.parts(),
            ),
        }
    }
}

/// The text of the message that asks for a shorter title.
pub open spec fn title_too_long_text() -> Seq<char> {
    "❌ Слишком длинное название (макс. "@ + nat_to_decimal(MAX_NOTE_TITLE as nat) + " символов)"@
}

/// The text of the message that asks for a shorter note.
pub open spec fn content_too_long_text() -> Seq<char> {
    "❌ Слишком длинный текст (макс. "@ + nat_to_decimal(MAX_NOTE_CONTENT as nat) + " символов)"@
}

/// What a message does in each state of the dialogue of its sender: the
/// dialogues afterwards, and the action.
///
/// - Waiting for a title: the trimmed text, if not empty and not longer than
///   `MAX_NOTE_TITLE` bytes, becomes the title of a draft and the text of the
///   note is asked for; otherwise the user is asked again.
/// - Waiting for the text: the trimmed text, if not empty and not longer than
///   `MAX_NOTE_CONTENT` bytes, is stored with the draft's title; without a
///   draft the dialogue ends with an error.
/// - Waiting for a search, a tag or a reminder date: the dialogue ends, and the
///   text is searched for, attached as a tag (trimmed, if not empty), or read
///   as a date.
/// - Otherwise the user is greeted with the main menu.
pub open spec fn message_step(v: DialogueView, u: i64, text: Seq<char>) -> (DialogueView, MessageActionView) {
    match state_of(v, u) {
        DialogueState::WaitingTitle => {
            let t = trim(text);
            if t.len() == 0 {
                (v, MessageActionView::Reply(send_view("❌ Название не может быть пустым. Попробуйте ещё раз:"@, None)))
            } else if byte_len(t) > MAX_NOTE_TITLE {
                (v, MessageActionView::Reply(send_view(title_too_long_text(), None)))
            } else {
                (
                    DialogueView {
                        states: v.states.insert(u, DialogueState::WaitingContent),
                        drafts: v.drafts.insert(u, (t, Seq::empty())),
                    },
                    MessageActionView::Reply(send_view("✏️ Теперь введите текст заметки:"@, None)),
                )
            }
        },
        DialogueState::WaitingContent => {
            let c = trim(text);
            if c.len() == 0 {
                (v, MessageActionView::Reply(send_view("❌ Текст не может быть пустым. Попробуйте ещё раз:"@, None)))
            } else if byte_len(c) > MAX_NOTE_CONTENT {
                (v, MessageActionView::Reply(send_view(content_too_long_text(), None)))
            } else if !v.drafts.contains_key(u) {
                (
                    v.with_state(u, DialogueState::Idle),
                    MessageActionView::Reply(
                        send_view("❌ Ошибка: название утеряно. Начните заново."@, Some(main_menu_view())),
                    ),
                )
            } else {
                (v, MessageActionView::CreateNote(v.drafts[u].0, c))
            }
        },
        DialogueState::WaitingSearch => (v.with_state(u, DialogueState::Idle), MessageActionView::Search(text)),
        DialogueState::WaitingTag(note_id) => {
            let t = trim(text);
            if t.len() == 0 {
                (
                    v.with_state(u, DialogueState::Idle),
                    MessageActionView::Reply(send_view("❌ Тег не может быть пустым."@, Some(note_actions_view(note_id)))),
                )
            } else {
                (v.with_state(u, DialogueState::Idle), MessageActionView::AddTag(note_id, t))
            }
        },
        DialogueState::WaitingRemindDate(note_id) => {
            match parsed_datetime(text) {
                Some(p) => (v.with_state(u, DialogueState::Idle), MessageActionView::SetReminder(note_id, p)),
                None => (
                    v.with_state(u, DialogueState::Idle),
                    MessageActionView::Reply(
                        send_view("❌ "@ + date_error_message(text), Some(note_actions_view(note_id))),
                    ),
                ),
            }
        },
        DialogueState::Idle => (
            v,
            MessageActionView::Reply(send_view("👋 Привет! Я бот для заметок."@, Some(main_menu_view()))),
        ),
    }
}

fn send(text: String, keyboard: Option<Keyboard>) -> (r: Reply)
    ensures
        r@ == send_view(text@, opt_keyboard_view(keyboard)),
{
    Reply { text, keyboard, html: false, edit: false }
}

fn send_str(text: &str, keyboard: Option<Keyboard>) -> (r: Reply)
    ensures
        r@ == send_view(text@, opt_keyboard_view(keyboard)),
{
    send(String::from_str(text), keyboard)
}

fn too_long_text(prefix: &str, max: usize) -> (r: String)
    ensures
        r@ == prefix@ + nat_to_decimal(max as nat) + " символов)"@,
{
    let mut r = String::from_str(prefix);
    append_u64(&mut r, max as u64);
    r.append(" символов)");
    r
}

impl Handlers {
    /// The title of the draft of a user, if any.
    fn draft_title(&self, user_id: i64) -> (t: Option<String>)
        ensures
            match t {
                Some(t) => self@.drafts.contains_key(user_id) && t@ == self@.drafts[user_id].0,
                None => !self@.drafts.contains_key(user_id),
            },
    {
        match self.creating_notes.get(&user_id) {
            Some(p) => Some(p.0.clone()),
            None => None,
        }
    }

    /// Decides what to do with the text of a message from a user, following
    /// the user's dialogue (see `message_step`).  Only the sender's state and
    /// draft may change.
    pub fn handle_message(&mut self, user_id: i64, text: &str) -> (a: MessageAction)
        ensures
            (final(self)@, a@) == message_step(old(self)@, user_id, text@),
    {
        let state = self.state(user_id);
        let creating_title = self.draft_title(user_id);
        match state {
            DialogueState::WaitingTitle => {
                let title = trim_str(text);
                if title.unicode_len() == 0 {
                    return MessageAction::Reply(
                        send_str("❌ Название не может быть пустым. Попробуйте ещё раз:", None),
                    );
                }
                if exceeds_bytes(title.as_str(), MAX_NOTE_TITLE) {
                    return MessageAction::Reply(
                        send(too_long_text("❌ Слишком длинное название (макс. ", MAX_NOTE_TITLE), None),
                    );
                }
                let ghost t = title@;
                self.creating_notes.insert(user_id, (title, String::new()));
                self.states.insert(user_id, DialogueState::WaitingContent);
                assert(self@.drafts =~= old(self)@.drafts.insert(user_id, (t, Seq::empty())));
                MessageAction::Reply(send_str("✏️ Теперь введите текст заметки:", None))
            },
            DialogueState::WaitingContent => {
                let content = trim_str(text);
                if content.unicode_len() == 0 {
                    return MessageAction::Reply(
                        send_str("❌ Текст не может быть пустым. Попробуйте ещё раз:", None),
                    );
                }
                if exceeds_bytes(content.as_str(), MAX_NOTE_CONTENT) {
                    return MessageAction::Reply(
                        send(too_long_text("❌ Слишком длинный текст (макс. ", MAX_NOTE_CONTENT), None),
                    );
                }
                match creating_title {
                    Some(title) => MessageAction::CreateNote { title, content },
                    None => {
                        self.set_state(user_id, DialogueState::Idle);
                        MessageAction::Reply(
                            send_str("❌ Ошибка: название утеряно. Начните заново.", Some(Handlers::main_menu())),
                        )
                    },
                }
            },
            DialogueState::WaitingSearch => {
                self.set_state(user_id, DialogueState::Idle);
                MessageAction::Search { query: String::from_str(text) }
            },
            DialogueState::WaitingTag(note_id) => {
                self.set_state(user_id, DialogueState::Idle);
                let tag = trim_str(text);
                if tag.unicode_len() == 0 {
                    return MessageAction::Reply(
                        send_str("❌ Тег не может быть пустым.", Some(Handlers::note_actions(note_id))),
                    );
                }
                MessageAction::AddTag { note_id, tag }
            },
            DialogueState::WaitingRemindDate(note_id) => {
                self.set_state(user_id, DialogueState::Idle);
                match parse_datetime(text) {
                    Ok(remind_at) => MessageAction::SetReminder { note_id, remind_at },
                    Err(e) => {
                        let mut m = String::from_str("❌ ");
                        m.append(e.as_str());
                        MessageAction::Reply(send(m, Some(Handlers::note_actions(note_id))))
                    },
                }
            },
            DialogueState::Idle => {
                MessageAction::Reply(send_str("👋 Привет! Я бот для заметок.", Some(Handlers::main_menu())))
            },
        }
    }
}


impl Handlers {
    /// After the note of a user's draft was stored: the draft is dropped, the
    /// dialogue ends, and the user is told so.
    pub fn note_created(&mut self, user_id: i64) -> (r: Reply)
        ensures
            final(self)@.states == old(self)@.states.insert(user_id, DialogueState::Idle),
            final(self)@.drafts == old(self)@.drafts.remove(user_id),
            r@ == send_view("✅ Заметка сохранена!"@, Some(back_menu_view())),
    {
        self.creating_notes.remove(&user_id);
        self.states.insert(user_id, DialogueState::Idle);
        assert(self@.drafts =~= old(self)@.drafts.remove(user_id));
        send_str("✅ Заметка сохранена!", Some(Handlers::back_menu()))
    }
}

/// The text of the answer after a tag was attached.
pub open spec fn tag_added_text(note_id: i64, tag: Seq<char>) -> Seq<char> {
    "✅ Тег '"@ + escape_html(tag) + "' добавлен к заметке #"@ + int_to_decimal(note_id as int)
}

/// The answer after a tag was attached to a note: the tag (HTML-escaped)
/// and the note, with the note's actions.
pub fn tag_added(note_id: i64, tag: &str) -> (r: Reply)
    ensures
        r@ == send_view(tag_added_text(note_id, tag@), Some(note_actions_view(note_id))),
{
    let mut t = String::from_str("✅ Тег '");
    append_escaped(&mut t, tag);
    t.append("' добавлен к заметке #");
    append_i64(&mut t, note_id);
    send(t, Some(Handlers::note_actions(note_id)))
}

/// The answer after a reminder was set: its date-time as
/// `DD.MM.YYYY HH:MM`, with the note's actions.
pub fn reminder_set(note_id: i64, remind_at: &DateTime) -> (r: Reply)
    requires
        remind_at.valid(),
    ensures
        r@ == send_view("⏰ Напоминание на "@ + stamp(*remind_at), Some(note_actions_view(note_id))),
{
    let mut t = String::from_str("⏰ Напоминание на ");
    let when = format_datetime(remind_at, "%d.%m.%Y %H:%M");
    t.append(when.as_str());
    send(t, Some(Handlers::note_actions(note_id)))
}

/// One line of a short list of notes: escaped title and identifier.
pub open spec fn short_entry(n: Note) -> Seq<char> {
    "• "@ + escape_html(n.title@) + " (ID: "@ + int_to_decimal(n.id as int) + ")\n"@
}

/// The lines of a short list of notes.
pub open spec fn short_entries(notes: Seq<Note>) -> Seq<char>
    decreases notes.len(),
{
    if notes.len() == 0 {
        Seq::empty()
    } else {
        short_entries(notes.drop_last()) + short_entry(notes.last())
    }
}

/// The button that opens a note.
pub open spec fn view_button(n: Note) -> ButtonView {
    ("👁 #"@ + int_to_decimal(n.id as int), CallbackAction::ViewNote(n.id))
}

/// One row per note, with the button that opens it.
pub open spec fn view_rows(notes: Seq<Note>) -> KeyboardView {
    Seq::new(notes.len(), |i: int| seq![view_button(notes[i])])
}

/// Appends the short list of `notes` to `text`, and one row per note with
/// the button that opens it to `rows`.
fn append_short_list(text: &mut String, rows: &mut Vec<Vec<Button>>, notes: &[Note])
    ensures
        final(text)@ == old(text)@ + short_entries(notes@),
        final(rows)@.map_values(|row: Vec<Button>| row_view(row)) == old(rows)@.map_values(
            |row: Vec<Button>| row_view(row),
        ) + view_rows(notes@),
{
    let ghost t0 = text@;
    let ghost r0 = rows@.map_values(|row: Vec<Button>| row_view(row));
    let mut i: usize = 0;
    while i < notes.len()
        invariant
            i <= notes@.len(),
            text@ == t0 + short_entries(notes@.subrange(0, i as int)),
            rows@.map_values(|row: Vec<Button>| row_view(row)) == r0 + view_rows(
                notes@.subrange(0, i as int),
            ),
        decreases notes@.len() - i,
    {
        let note = &notes[i];
        let ghost before = text@;
        let ghost rows_before = rows@;
        text.append("• ");
        append_escaped(text, note.title.as_str());
        text.append(" (ID: ");
        append_i64(text, note.id);
        text.append(")\n");
        let mut label = String::from_str("👁 #");
        append_i64(&mut label, note.id);
        let b = Button { label, action: CallbackAction::ViewNote(note.id) };
        rows.push(row1(b));
        proof {
            let s = notes@.subrange(0, i + 1);
            assert(s.drop_last() =~= notes@.subrange(0, i as int));
            assert(s.last() == notes@[i as int]);
            assert(text@ =~= before + short_entry(notes@[i as int]));
            assert(text@ =~= t0 + short_entries(s));
            assert(view_rows(s) =~= view_rows(notes@.subrange(0, i as int)).push(seq![view_button(notes@[i as int])]));
            assert(rows@.map_values(|row: Vec<Button>| row_view(row)) =~= rows_before.map_values(
                |row: Vec<Button>| row_view(row),
            ).push(seq![view_button(notes@[i as int])]));
            assert(rows@.map_values(|row: Vec<Button>| row_view(row)) =~= r0 + view_rows(s));
        }
        i = i + 1;
    }
    assert(notes@.subrange(0, notes@.len() as int) =~= notes@);
}


/// The list of search results before it is cut to size.
pub open spec fn search_listing(notes: Seq<Note>) -> Seq<char> {
    "🔍 Результаты поиска:\n\n"@ + short_entries(notes)
}

/// A text cut to `MAX_MESSAGE_LEN` bytes of UTF-8, with a mark that it was
/// cut, when it is longer; the text itself otherwise.
pub open spec fn cut_text(full: Seq<char>) -> Seq<char> {
    if byte_len(full) > MAX_MESSAGE_LEN {
        decode_utf8(encode_utf8(full).subrange(0, MAX_MESSAGE_LEN as int)) + "\n\n...(обрезано)"@
    } else {
        full
    }
}

/// The list of search results can be cut where it has to be: a text longer
/// than `MAX_MESSAGE_LEN` bytes has a character boundary there.  (Cutting a
/// character in two panics.)
pub open spec fn search_cut_ok(notes: Seq<Note>) -> bool {
    byte_len(search_listing(notes)) > MAX_MESSAGE_LEN ==> is_char_boundary(
        encode_utf8(search_listing(notes)),
        MAX_MESSAGE_LEN as int,
    )
}

/// The answer to a search.
pub open spec fn search_reply_view(notes: Seq<Note>) -> ReplyView {
    if notes.len() == 0 {
        send_view("🔍 Ничего не найдено."@, Some(back_menu_view()))
    } else {
        send_view(
            cut_text(search_listing(notes)),
            Some(view_rows(notes).push(seq![("◀ Меню"@, CallbackAction::MainMenu)])),
        )
    }
}

/// The answer to a search that found `notes`: nothing found, or the list of
/// their titles and identifiers (cut to `MAX_MESSAGE_LEN` bytes), a button
/// per note that opens it, and a button back to the menu.
pub fn search_results(notes: &[Note]) -> (r: Reply)
    requires
        search_cut_ok(notes@),
    ensures
        r@ == search_reply_view(notes@),
{
    broadcast use vstd::utf8::group_utf8_lib;

    if notes.len() == 0 {
        return send_str("🔍 Ничего не найдено.", Some(Handlers::back_menu()));
    }
    let mut response = String::from_str("🔍 Результаты поиска:\n\n");
    let mut rows: Vec<Vec<Button>> = Vec::new();
    assert(rows@.map_values(|row: Vec<Button>| row_view(row)) =~= Seq::<Seq<ButtonView>>::empty());
    append_short_list(&mut response, &mut rows, notes);
    assert(view_rows(notes@) =~= Seq::<Seq<ButtonView>>::empty() + view_rows(notes@));
    let text = if exceeds_bytes(response.as_str(), MAX_MESSAGE_LEN) {
        let (head, _rest) = response.as_str().split_at(MAX_MESSAGE_LEN);
        let mut t = head.to_owned();
        t.append("\n\n...(обрезано)");
        t
    } else {
        response
    };
    let ghost rows_before = rows@;
    rows.push(row1(button("◀ Меню", CallbackAction::MainMenu)));
    assert(rows@.map_values(|row: Vec<Button>| row_view(row)) =~= rows_before.map_values(
        |row: Vec<Button>| row_view(row),
    ).push(seq![("◀ Меню"@, CallbackAction::MainMenu)]));
    send(text, Some(keyboard(rows)))
}

/// The text of a page of the list of notes.
pub open spec fn page_text(page: nat, notes: Seq<Note>) -> Seq<char> {
    "📋 Заметки (стр. "@ + nat_to_decimal(page) + "):\n\n"@ + short_entries(notes)
}

/// The navigation row under a page of the list: to the previous page when
/// there is one, to the menu, and to the next page when this one is full.
pub open spec fn nav_row(page: u32, count: nat) -> Seq<ButtonView> {
    (if page > 1 {
        seq![("◀"@, CallbackAction::ListNotes((page - 1) as u32))]
    } else {
        Seq::empty()
    }) + seq![("◀ Меню"@, CallbackAction::MainMenu)] + (if count == NOTES_PER_PAGE {
        seq![("▶"@, CallbackAction::ListNotes((page + 1) as u32))]
    } else {
        Seq::empty()
    })
}

/// The answer that shows a page of the list of notes.
pub open spec fn notes_page_view(page: u32, notes: Seq<Note>) -> ReplyView {
    if notes.len() == 0 {
        edit_view("📭 У вас пока нет заметок."@, main_menu_view())
    } else {
        edit_view(page_text(page as nat, notes), view_rows(notes).push(nav_row(page, notes.len())))
    }
}

/// The answer that shows page `page` of a user's notes, given the notes of
/// that page: the list of titles and identifiers, a button per note that
/// opens it, and the navigation row; the main menu when there is none.
pub fn notes_page(page: u32, notes: &[Note]) -> (r: Reply)
    requires
        notes@.len() == NOTES_PER_PAGE ==> page < u32::MAX,
    ensures
        r@ == notes_page_view(page, notes@),
{
    if notes.len() == 0 {
        return Reply {
            text: String::from_str("📭 У вас пока нет заметок."),
            keyboard: Some(Handlers::main_menu()),
            html: false,
            edit: true,
        };
    }
    let mut response = String::from_str("📋 Заметки (стр. ");
    append_u64(&mut response, page as u64);
    response.append("):\n\n");
    let mut rows: Vec<Vec<Button>> = Vec::new();
    assert(rows@.map_values(|row: Vec<Button>| row_view(row)) =~= Seq::<Seq<ButtonView>>::empty());
    append_short_list(&mut response, &mut rows, notes);
    assert(view_rows(notes@) =~= Seq::<Seq<ButtonView>>::empty() + view_rows(notes@));
    let mut nav: Vec<Button> = Vec::new();
    if page > 1 {
        nav.push(button("◀", CallbackAction::ListNotes(page - 1)));
    }
    nav.push(button("◀ Меню", CallbackAction::MainMenu));
    if notes.len() == 5 {
        nav.push(button("▶", CallbackAction::ListNotes(page + 1)));
    }
    assert(row_view(nav) =~= nav_row(page, notes@.len()));
    let ghost rows_before = rows@;
    rows.push(nav);
    assert(rows@.map_values(|row: Vec<Button>| row_view(row)) =~= rows_before.map_values(
        |row: Vec<Button>| row_view(row),
    ).push(nav_row(page, notes@.len())));
    Reply { text: response, keyboard: Some(keyboard(rows)), html: false, edit: true }
}


/// What a button press on a note asks for, once the note is looked up.
#[derive(Clone, Copy, Debug, PartialEq, Eq, Structural)]
pub enum NoteAction {
    View,
    Delete,
    ConfirmDelete,
    Tag,
    Remind,
}

/// What to do with a button press: send an answer, or first fetch
/// something and then answer with the matching follow-up function.
pub enum CallbackStep {
    /// Send this answer.
    Reply(Reply),
    /// Fetch page `page` of the user's notes (`NOTES_PER_PAGE` per page),
    /// then answer with `notes_page`.
    ListNotes { page: u32 },
    /// Fetch the first `EXPORT_LIMIT` notes of the user, then answer with
    /// `export_reply`.
    Export,
    /// Look up the note, then go on with `note_checked`.
    CheckNote { note_id: i64, then: NoteAction },
}

/// A `CallbackStep` as plain values.
pub enum CallbackStepView {
    Reply(ReplyView),
    ListNotes(u32),
    Export,
    CheckNote(i64, NoteAction),
}

impl View for CallbackStep {
    type V = CallbackStepView;

    open spec fn view(&self) -> CallbackStepView {
        match self {
            CallbackStep::Reply(r) => CallbackStepView::Reply(r@),
            CallbackStep::ListNotes { page } => CallbackStepView::ListNotes(*page),
            CallbackStep::Export => CallbackStepView::Export,
            CallbackStep::CheckNote { note_id, then } => CallbackStepView::CheckNote(*note_id, *then),
        }
    }
}

/// What a button press does: the dialogues afterwards, and the step.
/// The main menu ends the dialogue; adding a note and searching start one;
/// the actions on a note first look the note up.
pub open spec fn callback_step(v: DialogueView, u: i64, action: CallbackAction) -> (DialogueView, CallbackStepView) {
    match action {
        CallbackAction::MainMenu => (
            v.with_state(u, DialogueState::Idle),
            CallbackStepView::Reply(edit_view("👋 Главное меню:"@, main_menu_view())),
        ),
        CallbackAction::AddNote => (
            v.with_state(u, DialogueState::WaitingTitle),
            CallbackStepView::Reply(send_view("✏️ Введите название заметки:"@, None)),
        ),
        CallbackAction::ListNotes(page) => (v, CallbackStepView::ListNotes(page)),
        CallbackAction::ViewNote(id) => (v, CallbackStepView::CheckNote(id, NoteAction::View)),
        CallbackAction::DeleteNote(id) => (v, CallbackStepView::CheckNote(id, NoteAction::Delete)),
        CallbackAction::ConfirmDelete(id) => (v, CallbackStepView::CheckNote(id, NoteAction::ConfirmDelete)),
        CallbackAction::Search => (
            v.with_state(u, DialogueState::WaitingSearch),
            CallbackStepView::Reply(send_view("🔍 Введите поисковый запрос:"@, None)),
        ),
        CallbackAction::TagNote(id) => (v, CallbackStepView::CheckNote(id, NoteAction::Tag)),
        CallbackAction::RemindNote(id) => (v, CallbackStepView::CheckNote(id, NoteAction::Remind)),
        CallbackAction::Settings => (v, CallbackStepView::Reply(edit_view("⚙️ Настройки:"@, settings_menu_view()))),
        CallbackAction::Export => (v, CallbackStepView::Export),
    }
}

impl Handlers {
    /// Decides what to do with a button pressed by a user (see
    /// `callback_step`).
    pub fn handle_callback_query(&mut self, user_id: i64, action: CallbackAction) -> (step: CallbackStep)
        ensures
            (final(self)@, step@) == callback_step(old(self)@, user_id, action),
    {
        match action {
            CallbackAction::MainMenu => {
                self.set_state(user_id, DialogueState::Idle);
                CallbackStep::Reply(
                    Reply {
                        text: String::from_str("👋 Главное меню:"),
                        keyboard: Some(Handlers::main_menu()),
                        html: false,
                        edit: true,
                    },
                )
            },
            CallbackAction::AddNote => {
                self.set_state(user_id, DialogueState::WaitingTitle);
                CallbackStep::Reply(send_str("✏️ Введите название заметки:", None))
            },
            CallbackAction::ListNotes(page) => CallbackStep::ListNotes { page },
            CallbackAction::ViewNote(id) => CallbackStep::CheckNote { note_id: id, then: NoteAction::View },
            CallbackAction::DeleteNote(id) => CallbackStep::CheckNote { note_id: id, then: NoteAction::Delete },
            CallbackAction::ConfirmDelete(id) => CallbackStep::CheckNote {
                note_id: id,
                then: NoteAction::ConfirmDelete,
            },
            CallbackAction::Search => {
                self.set_state(user_id, DialogueState::WaitingSearch);
                CallbackStep::Reply(send_str("🔍 Введите поисковый запрос:", None))
            },
            CallbackAction::TagNote(id) => CallbackStep::CheckNote { note_id: id, then: NoteAction::Tag },
            CallbackAction::RemindNote(id) => CallbackStep::CheckNote { note_id: id, then: NoteAction::Remind },
            CallbackAction::Settings => CallbackStep::Reply(
                Reply {
                    text: String::from_str("⚙️ Настройки:"),
                    keyboard: Some(Handlers::settings_menu()),
                    html: false,
                    edit: true,
                },
            ),
            CallbackAction::Export => CallbackStep::Export,
        }
    }
}

/// What to do once a note was looked up.
pub enum NoteStep {
    /// Send this answer.
    Reply(Reply),
    /// Delete the note, then answer with `note_deleted`.
    Delete { note_id: i64 },
}

/// A `NoteStep` as plain values.
pub enum NoteStepView {
    Reply(ReplyView),
    Delete(i64),
}

impl View for NoteStep {
    type V = NoteStepView;

    open spec fn view(&self) -> NoteStepView {
        match self {
            NoteStep::Reply(r) => NoteStepView::Reply(r@),
            NoteStep::Delete { note_id } => NoteStepView::Delete(*note_id),
        }
    }
}

/// The note that was looked up exists and belongs to user `u`.
pub open spec fn owned_by(found: Option<Note>, u: i64) -> bool {
    found matches Some(n) && n.user_id == u
}

/// The keyboard that confirms or cancels the deletion of a note.
pub open spec fn confirm_delete_view(note_id: i64) -> KeyboardView {
    seq![
        seq![("✅ Да, удалить"@, CallbackAction::ConfirmDelete(note_id)), ("❌ Нет"@, CallbackAction::ViewNote(note_id))],
    ]
}

/// The answer when the note asked for is not the user's.
pub open spec fn not_found_view() -> ReplyView {
    send_view("❌ Заметка не найдена."@, Some(main_menu_view()))
}

/// The answer after a note was deleted.
pub open spec fn deleted_view() -> ReplyView {
    send_view("✅ Заметка удалена."@, Some(main_menu_view()))
}

/// What happens once note `note_id` was looked up for user `u` (`found` is
/// the note stored under that identifier, if any).  Only a note of the user
/// counts as found.
///
/// - Open: the note's card in HTML with its actions.
/// - Delete: a question with the buttons to confirm or cancel.
/// - Confirm the deletion: the note is deleted; a note of another user is
///   left alone, and the answer is the same.
/// - Tag, remind: the dialogue waits for the tag or the date.
/// - A note not found is reported, except on a confirmed deletion.
pub open spec fn note_step(
    v: DialogueView,
    u: i64,
    note_id: i64,
    then: NoteAction,
    found: Option<Note>,
) -> (DialogueView, NoteStepView) {
    if owned_by(found, u) {
        let n = found->0;
        match then {
            NoteAction::View => (
                v,
                NoteStepView::Reply(
                    ReplyView {
                        text: note_card(
                            n.title@,
                            n.content@,
                            n.id as int,
                            stamp(n.created_at),
                            stamp(n.updated_at),
                        ),
                        keyboard: Some(note_actions_view(note_id)),
                        html: true,
                        edit: false,
                    },
                ),
            ),
            NoteAction::Delete => (
                v,
                NoteStepView::Reply(
                    send_view(
                        "⚠️ Удалить заметку #"@ + int_to_decimal(note_id as int) + "?"@,
                        Some(confirm_delete_view(note_id)),
                    ),
                ),
            ),
            NoteAction::ConfirmDelete => (v, NoteStepView::Delete(note_id)),
            NoteAction::Tag => (
                v.with_state(u, DialogueState::WaitingTag(note_id)),
                NoteStepView::Reply(send_view("🏷 Введите название тега:"@, None)),
            ),
            NoteAction::Remind => (
                v.with_state(u, DialogueState::WaitingRemindDate(note_id)),
                NoteStepView::Reply(
                    send_view(
                        "⏰ Введите дату напоминания\n(формат: ГГГГ-ММ-ДД ЧЧ:ММ:СС или ДД.ММ.ГГГГ ЧЧ:ММ):"@,
                        None,
                    ),
                ),
            ),
        }
    } else {
        match then {
            NoteAction::ConfirmDelete => (v, NoteStepView::Reply(deleted_view())),
            _ => (v, NoteStepView::Reply(not_found_view())),
        }
    }
}

/// The answer after a note was deleted.
pub fn note_deleted() -> (r: Reply)
    ensures
        r@ == deleted_view(),
{
    send_str("✅ Заметка удалена.", Some(Handlers::main_menu()))
}

impl Handlers {
    /// Goes on with a button press on note `note_id` once the note was looked
    /// up (see `note_step`).
    pub fn note_checked(&mut self, user_id: i64, note_id: i64, then: NoteAction, found: Option<Note>) -> (step:
        NoteStep)
        requires
            found matches Some(n) ==> n.wf(),
        ensures
            (final(self)@, step@) == note_step(old(self)@, user_id, note_id, then, found),
    {
        let owned = match &found {
            Some(n) => n.user_id == user_id,
            None => false,
        };
        if !owned {
            return match then {
                NoteAction::ConfirmDelete => NoteStep::Reply(note_deleted()),
                _ => NoteStep::Reply(send_str("❌ Заметка не найдена.", Some(Handlers::main_menu()))),
            };
        }
        match then {
            NoteAction::View => {
                let n = found.unwrap();
                let text = format_note(&n);
                NoteStep::Reply(Reply { text, keyboard: Some(Handlers::note_actions(note_id)), html: true, edit: false })
            },
            NoteAction::Delete => {
                let mut text = String::from_str("⚠️ Удалить заметку #");
                append_i64(&mut text, note_id);
                text.append("?");
                let kb = keyboard1(
                    row2(
                        button("✅ Да, удалить", CallbackAction::ConfirmDelete(note_id)),
                        button("❌ Нет", CallbackAction::ViewNote(note_id)),
                    ),
                );
                NoteStep::Reply(send(text, Some(kb)))
            },
            NoteAction::ConfirmDelete => NoteStep::Delete { note_id },
            NoteAction::Tag => {
                self.set_state(user_id, DialogueState::WaitingTag(note_id));
                NoteStep::Reply(send_str("🏷 Введите название тега:", None))
            },
            NoteAction::Remind => {
                self.set_state(user_id, DialogueState::WaitingRemindDate(note_id));
                NoteStep::Reply(
                    send_str(
                        "⏰ Введите дату напоминания\n(формат: ГГГГ-ММ-ДД ЧЧ:ММ:СС или ДД.ММ.ГГГГ ЧЧ:ММ):",
                        None,
                    ),
                )
            },
        }
    }
}


/// The answer to an export: a message, or a document to send.
pub enum ExportReply {
    Message(Reply),
    Document { content: String, file_name: String, keyboard: Keyboard },
}

/// The name of the file of an export made at the moment rendered as
/// `stamp`.
pub open spec fn export_file_name_text(stamp: Seq<char>) -> Seq<char> {
    "notes_export_"@ + stamp + ".md"@
}

/// The name of the file of an export made at the moment rendered as
/// `stamp`.
pub fn export_file_name(stamp: &str) -> (r: String)
    ensures
        r@ == export_file_name_text(stamp@),
{
    let mut r = String::from_str("notes_export_");
    r.append(stamp);
    r.append(".md");
    r
}

/// The answer to an export of a user's notes, given the notes: nothing to
/// export, or a document with the text export (dated with the current UTC
/// time) named after the current UTC time as `YYYYMMDD_HHMMSS`, with the
/// main menu.  Both times come from the clock; the contract says only that
/// each is some valid date-time.
pub fn export_reply(notes: &[Note]) -> (r: ExportReply)
    requires
        all_wf(notes@),
    ensures
        notes@.len() == 0 ==> (r matches ExportReply::Message(m) && m@ == send_view(
            "📭 Нечего экспортировать."@,
            Some(main_menu_view()),
        )),
        notes@.len() > 0 ==> (r matches ExportReply::Document { content, file_name, keyboard } && {
            &&& keyboard@ == main_menu_view()
            &&& exists|dt: DateTime|
                dt.valid() && content@ == export_text(
                    notes@,
                    #[trigger] chrono_format(dt.parts(), "%d.%m.%Y %H:%M UTC"@),
                )
            &&& exists|dt: DateTime|
                dt.valid() && file_name@ == export_file_name_text(
                    #[trigger] chrono_format(dt.parts(), "%Y%m%d_%H%M%S"@),
                )
        }),
{
    if notes.len() == 0 {
        return ExportReply::Message(send_str("📭 Нечего экспортировать.", Some(Handlers::main_menu())));
    }
    let content = export_notes_to_text(notes);
    let now = now_utc();
    let stamp = format_datetime(&now, "%Y%m%d_%H%M%S");
    let file_name = export_file_name(stamp.as_str());
    assert(file_name@ == export_file_name_text(chrono_format(now.parts(), "%Y%m%d_%H%M%S"@)));
    ExportReply::Document { content, file_name, keyboard: Handlers::main_menu() }
}


/// Whether the list of search results for `notes` can be cut where it has
/// to be (see `search_cut_ok`).
pub fn search_results_fit(notes: &[Note]) -> (b: bool)
    ensures
        b == search_cut_ok(notes@),
{
    let mut listing = String::from_str("🔍 Результаты поиска:\n\n");
    let mut rows: Vec<Vec<Button>> = Vec::new();
    append_short_list(&mut listing, &mut rows, notes);
    !exceeds_bytes(listing.as_str(), MAX_MESSAGE_LEN) || listing.as_str().is_char_boundary(MAX_MESSAGE_LEN)
}

} // verus!

use notes_bot::datetime::DateTime;
use notes_bot::handlers::{
    export_file_name, export_reply, search_results_fit, note_deleted, notes_page, reminder_set, search_results, tag_added,
    CallbackAction, CallbackStep, DialogueState, ExportReply, Handlers, Keyboard, MessageAction,
    NoteAction, NoteStep, Reply,
};
use notes_bot::models::Note;

fn rows(k: &Keyboard) -> Vec<Vec<(String, CallbackAction)>> {
    k.rows.iter().map(|r| r.iter().map(|b| (b.label.clone(), b.action)).collect()).collect()
}

fn kb(r: &Reply) -> Vec<Vec<(String, CallbackAction)>> {
    rows(r.keyboard.as_ref().expect("keyboard"))
}

fn b(label: &str, action: CallbackAction) -> (String, CallbackAction) {
    (label.to_string(), action)
}

fn reply(a: MessageAction) -> Reply {
    match a {
        MessageAction::Reply(r) => r,
        _ => panic!("expected a reply"),
    }
}

fn step_reply(s: CallbackStep) -> Reply {
    match s {
        CallbackStep::Reply(r) => r,
        _ => panic!("expected a reply"),
    }
}

fn note(id: i64, user_id: i64, title: &str) -> Note {
    let t = DateTime { year: 2024, month: 1, day: 2, hour: 3, minute: 4, second: 5, nanosecond: 0 };
    Note { id, user_id, title: title.to_string(), content: "c".to_string(), created_at: t, updated_at: t }
}

fn main_menu_rows() -> Vec<Vec<(String, CallbackAction)>> {
    vec![
        vec![b("📝 Добавить", CallbackAction::AddNote), b("📋 Мои заметки", CallbackAction::ListNotes(1))],
        vec![b("🔍 Поиск", CallbackAction::Search), b("⚙️ Настройки", CallbackAction::Settings)],
    ]
}

#[test]
fn menus() {
    assert_eq!(rows(&Handlers::main_menu()), main_menu_rows());
    assert_eq!(rows(&Handlers::back_menu()), vec![vec![b("◀ Меню", CallbackAction::MainMenu)]]);
    assert_eq!(
        rows(&Handlers::note_actions(12)),
        vec![
            vec![b("✅ Удалить", CallbackAction::DeleteNote(12)), b("🏷 Тег", CallbackAction::TagNote(12))],
            vec![b("⏰ Напоминание", CallbackAction::RemindNote(12)), b("◀ Назад", CallbackAction::ListNotes(1))],
        ]
    );
    assert_eq!(
        rows(&Handlers::settings_menu()),
        vec![vec![b("📥 Экспорт .md", CallbackAction::Export)], vec![b("◀ Меню", CallbackAction::MainMenu)]]
    );
}

#[test]
fn idle_message_greets() {
    let mut h = Handlers::new();
    let r = reply(h.handle_message(1, "hi"));
    assert_eq!(r.text, "👋 Привет! Я бот для заметок.");
    assert_eq!(kb(&r), main_menu_rows());
    assert!(!r.html && !r.edit);
    assert_eq!(h.state(1), DialogueState::Idle);
}

#[test]
fn add_note_dialogue() {
    let mut h = Handlers::new();
    let r = step_reply(h.handle_callback_query(5, CallbackAction::AddNote));
    assert_eq!(r.text, "✏️ Введите название заметки:");
    assert!(r.keyboard.is_none());
    assert_eq!(h.state(5), DialogueState::WaitingTitle);

    let r = reply(h.handle_message(5, "  Список дел  "));
    assert_eq!(r.text, "✏️ Теперь введите текст заметки:");
    assert_eq!(h.state(5), DialogueState::WaitingContent);

    match h.handle_message(5, "\nкупить хлеб\n") {
        MessageAction::CreateNote { title, content } => {
            assert_eq!(title, "Список дел");
            assert_eq!(content, "купить хлеб");
        }
        _ => panic!("expected a note to store"),
    }
    // the state is kept until the note is stored
    assert_eq!(h.state(5), DialogueState::WaitingContent);
    let r = h.note_created(5);
    assert_eq!(r.text, "✅ Заметка сохранена!");
    assert_eq!(kb(&r), vec![vec![b("◀ Меню", CallbackAction::MainMenu)]]);
    assert_eq!(h.state(5), DialogueState::Idle);
    assert_eq!(reply(h.handle_message(5, "x")).text, "👋 Привет! Я бот для заметок.");
}

#[test]
fn title_checks() {
    let mut h = Handlers::new();
    h.handle_callback_query(1, CallbackAction::AddNote);
    assert_eq!(reply(h.handle_message(1, "   ")).text, "❌ Название не может быть пустым. Попробуйте ещё раз:");
    assert_eq!(h.state(1), DialogueState::WaitingTitle);
    // 101 Cyrillic letters: 202 bytes
    let long = "ж".repeat(101);
    assert_eq!(reply(h.handle_message(1, &long)).text, "❌ Слишком длинное название (макс. 200 символов)");
    assert_eq!(h.state(1), DialogueState::WaitingTitle);
    // exactly 200 bytes is accepted
    let fits = "ж".repeat(100);
    assert_eq!(reply(h.handle_message(1, &fits)).text, "✏️ Теперь введите текст заметки:");
}

#[test]
fn content_checks() {
    let mut h = Handlers::new();
    h.handle_callback_query(1, CallbackAction::AddNote);
    h.handle_message(1, "t");
    assert_eq!(reply(h.handle_message(1, "\t")).text, "❌ Текст не может быть пустым. Попробуйте ещё раз:");
    let long = "a".repeat(4001);
    assert_eq!(reply(h.handle_message(1, &long)).text, "❌ Слишком длинный текст (макс. 4000 символов)");
    assert_eq!(h.state(1), DialogueState::WaitingContent);
    match h.handle_message(1, &"a".repeat(4000)) {
        MessageAction::CreateNote { title, content } => {
            assert_eq!(title, "t");
            assert_eq!(content.len(), 4000);
        }
        _ => panic!("expected a note to store"),
    }
}

#[test]
fn search_dialogue() {
    let mut h = Handlers::new();
    let r = step_reply(h.handle_callback_query(2, CallbackAction::Search));
    assert_eq!(r.text, "🔍 Введите поисковый запрос:");
    assert_eq!(h.state(2), DialogueState::WaitingSearch);
    match h.handle_message(2, " молоко ") {
        MessageAction::Search { query } => assert_eq!(query, " молоко "),
        _ => panic!("expected a search"),
    }
    assert_eq!(h.state(2), DialogueState::Idle);
}

#[test]
fn tag_dialogue() {
    let mut h = Handlers::new();
    match h.note_checked(3, 10, NoteAction::Tag, Some(note(10, 3, "n"))) {
        NoteStep::Reply(r) => assert_eq!(r.text, "🏷 Введите название тега:"),
        _ => panic!("expected a reply"),
    }
    assert_eq!(h.state(3), DialogueState::WaitingTag(10));
    match h.handle_message(3, "  работа ") {
        MessageAction::AddTag { note_id, tag } => {
            assert_eq!(note_id, 10);
            assert_eq!(tag, "работа");
        }
        _ => panic!("expected a tag"),
    }
    assert_eq!(h.state(3), DialogueState::Idle);
    let r = tag_added(10, "<b>");
    assert_eq!(r.text, "✅ Тег '&lt;b&gt;' добавлен к заметке #10");
    assert_eq!(kb(&r), rows(&Handlers::note_actions(10)));
}

#[test]
fn empty_tag() {
    let mut h = Handlers::new();
    h.note_checked(3, 10, NoteAction::Tag, Some(note(10, 3, "n")));
    let r = reply(h.handle_message(3, "   "));
    assert_eq!(r.text, "❌ Тег не может быть пустым.");
    assert_eq!(kb(&r), rows(&Handlers::note_actions(10)));
    assert_eq!(h.state(3), DialogueState::Idle);
}

#[test]
fn reminder_dialogue() {
    let mut h = Handlers::new();
    match h.note_checked(4, 8, NoteAction::Remind, Some(note(8, 4, "n"))) {
        NoteStep::Reply(r) => assert_eq!(
            r.text,
            "⏰ Введите дату напоминания\n(формат: ГГГГ-ММ-ДД ЧЧ:ММ:СС или ДД.ММ.ГГГГ ЧЧ:ММ):"
        ),
        _ => panic!("expected a reply"),
    }
    assert_eq!(h.state(4), DialogueState::WaitingRemindDate(8));
    match h.handle_message(4, "01.02.2025 08:15") {
        MessageAction::SetReminder { note_id, remind_at } => {
            assert_eq!(note_id, 8);
            assert_eq!(
                remind_at,
                DateTime { year: 2025, month: 2, day: 1, hour: 8, minute: 15, second: 0, nanosecond: 0 }
            );
            let r = reminder_set(note_id, &remind_at);
            assert_eq!(r.text, "⏰ Напоминание на 01.02.2025 08:15");
        }
        _ => panic!("expected a reminder"),
    }
    assert_eq!(h.state(4), DialogueState::Idle);
}

#[test]
fn reminder_with_bad_date() {
    let mut h = Handlers::new();
    h.note_checked(4, 8, NoteAction::Remind, Some(note(8, 4, "n")));
    let r = reply(h.handle_message(4, "скоро"));
    assert_eq!(
        r.text,
        "❌ Не удалось распознать дату: скоро. Форматы: YYYY-MM-DD HH:MM:SS, DD.MM.YYYY HH:MM"
    );
    assert_eq!(kb(&r), rows(&Handlers::note_actions(8)));
    assert_eq!(h.state(4), DialogueState::Idle);
}

#[test]
fn users_are_independent() {
    let mut h = Handlers::new();
    h.handle_callback_query(1, CallbackAction::AddNote);
    h.handle_callback_query(2, CallbackAction::Search);
    h.handle_message(1, "title");
    assert_eq!(h.state(2), DialogueState::WaitingSearch);
    h.handle_message(2, "q");
    assert_eq!(h.state(1), DialogueState::WaitingContent);
    match h.handle_message(1, "body") {
        MessageAction::CreateNote { title, .. } => assert_eq!(title, "title"),
        _ => panic!("expected a note to store"),
    }
}

#[test]
fn main_menu_and_settings_edit_the_message() {
    let mut h = Handlers::new();
    h.handle_callback_query(1, CallbackAction::AddNote);
    let r = step_reply(h.handle_callback_query(1, CallbackAction::MainMenu));
    assert_eq!(r.text, "👋 Главное меню:");
    assert!(r.edit);
    assert_eq!(kb(&r), main_menu_rows());
    assert_eq!(h.state(1), DialogueState::Idle);
    let r = step_reply(h.handle_callback_query(1, CallbackAction::Settings));
    assert_eq!(r.text, "⚙️ Настройки:");
    assert!(r.edit);
    assert_eq!(kb(&r), rows(&Handlers::settings_menu()));
}

#[test]
fn steps_that_fetch() {
    let mut h = Handlers::new();
    assert!(matches!(h.handle_callback_query(1, CallbackAction::ListNotes(3)), CallbackStep::ListNotes { page: 3 }));
    assert!(matches!(h.handle_callback_query(1, CallbackAction::Export), CallbackStep::Export));
    assert!(matches!(
        h.handle_callback_query(1, CallbackAction::ViewNote(4)),
        CallbackStep::CheckNote { note_id: 4, then: NoteAction::View }
    ));
    assert!(matches!(
        h.handle_callback_query(1, CallbackAction::DeleteNote(4)),
        CallbackStep::CheckNote { note_id: 4, then: NoteAction::Delete }
    ));
    assert!(matches!(
        h.handle_callback_query(1, CallbackAction::ConfirmDelete(4)),
        CallbackStep::CheckNote { note_id: 4, then: NoteAction::ConfirmDelete }
    ));
    assert!(matches!(
        h.handle_callback_query(1, CallbackAction::TagNote(4)),
        CallbackStep::CheckNote { note_id: 4, then: NoteAction::Tag }
    ));
    assert!(matches!(
        h.handle_callback_query(1, CallbackAction::RemindNote(4)),
        CallbackStep::CheckNote { note_id: 4, then: NoteAction::Remind }
    ));
    assert_eq!(h.state(1), DialogueState::Idle);
}

#[test]
fn view_own_note() {
    let mut h = Handlers::new();
    match h.note_checked(1, 4, NoteAction::View, Some(note(4, 1, "Т"))) {
        NoteStep::Reply(r) => {
            assert_eq!(r.text, "📝 <b>Т</b>\n\nc\n\n_ID: 4_\n_Создано: 02.01.2024 03:04_\n_Обновлено: 02.01.2024 03:04_");
            assert!(r.html);
            assert_eq!(kb(&r), rows(&Handlers::note_actions(4)));
        }
        _ => panic!("expected a reply"),
    }
}

#[test]
fn notes_of_others_are_not_found() {
    let mut h = Handlers::new();
    for then in [NoteAction::View, NoteAction::Delete, NoteAction::Tag, NoteAction::Remind] {
        match h.note_checked(1, 4, then, Some(note(4, 2, "чужая"))) {
            NoteStep::Reply(r) => {
                assert_eq!(r.text, "❌ Заметка не найдена.");
                assert_eq!(kb(&r), main_menu_rows());
            }
            _ => panic!("expected a reply"),
        }
        match h.note_checked(1, 4, then, None) {
            NoteStep::Reply(r) => assert_eq!(r.text, "❌ Заметка не найдена."),
            _ => panic!("expected a reply"),
        }
    }
    assert_eq!(h.state(1), DialogueState::Idle);
}

#[test]
fn delete_flow() {
    let mut h = Handlers::new();
    match h.note_checked(1, 4, NoteAction::Delete, Some(note(4, 1, "n"))) {
        NoteStep::Reply(r) => {
            assert_eq!(r.text, "⚠️ Удалить заметку #4?");
            assert_eq!(
                kb(&r),
                vec![vec![b("✅ Да, удалить", CallbackAction::ConfirmDelete(4)), b("❌ Нет", CallbackAction::ViewNote(4))]]
            );
        }
        _ => panic!("expected a reply"),
    }
    assert!(matches!(
        h.note_checked(1, 4, NoteAction::ConfirmDelete, Some(note(4, 1, "n"))),
        NoteStep::Delete { note_id: 4 }
    ));
    match h.note_checked(1, 4, NoteAction::ConfirmDelete, Some(note(4, 2, "n"))) {
        NoteStep::Reply(r) => assert_eq!(r.text, "✅ Заметка удалена."),
        _ => panic!("a note of another user is not deleted"),
    }
    let r = note_deleted();
    assert_eq!(r.text, "✅ Заметка удалена.");
    assert_eq!(kb(&r), main_menu_rows());
}

#[test]
fn page_of_notes() {
    let notes: Vec<Note> = (1..=5).map(|i| note(i, 1, &format!("<n{}>", i))).collect();
    let r = notes_page(2, &notes);
    assert!(r.edit);
    assert_eq!(
        r.text,
        "📋 Заметки (стр. 2):\n\n• &lt;n1&gt; (ID: 1)\n• &lt;n2&gt; (ID: 2)\n• &lt;n3&gt; (ID: 3)\n• &lt;n4&gt; (ID: 4)\n• &lt;n5&gt; (ID: 5)\n"
    );
    let k = kb(&r);
    assert_eq!(k.len(), 6);
    assert_eq!(k[0], vec![b("👁 #1", CallbackAction::ViewNote(1))]);
    assert_eq!(
        k[5],
        vec![
            b("◀", CallbackAction::ListNotes(1)),
            b("◀ Меню", CallbackAction::MainMenu),
            b("▶", CallbackAction::ListNotes(3)),
        ]
    );
}

#[test]
fn first_and_last_pages() {
    let notes: Vec<Note> = (1..=2).map(|i| note(i, 1, "n")).collect();
    let r = notes_page(1, &notes);
    assert_eq!(kb(&r)[2], vec![b("◀ Меню", CallbackAction::MainMenu)]);
    let r = notes_page(1, &[]);
    assert_eq!(r.text, "📭 У вас пока нет заметок.");
    assert!(r.edit);
    assert_eq!(kb(&r), main_menu_rows());
}

#[test]
fn search_answers() {
    let r = search_results(&[]);
    assert_eq!(r.text, "🔍 Ничего не найдено.");
    assert_eq!(kb(&r), vec![vec![b("◀ Меню", CallbackAction::MainMenu)]]);
    let r = search_results(&[note(3, 1, "a&b")]);
    assert_eq!(r.text, "🔍 Результаты поиска:\n\n• a&amp;b (ID: 3)\n");
    assert_eq!(
        kb(&r),
        vec![vec![b("👁 #3", CallbackAction::ViewNote(3))], vec![b("◀ Меню", CallbackAction::MainMenu)]]
    );
}

#[test]
fn long_search_results_are_cut() {
    let notes: Vec<Note> = (0..200).map(|i| note(i, 1, "abcdefghij")).collect();
    let r = search_results(&notes);
    let marker = "\n\n...(обрезано)";
    assert!(r.text.ends_with(marker));
    assert_eq!(r.text.len(), 4000 + marker.len());
    assert_eq!(kb(&r).len(), 201);
}

#[test]
fn export_answers() {
    match export_reply(&[]) {
        ExportReply::Message(r) => {
            assert_eq!(r.text, "📭 Нечего экспортировать.");
            assert_eq!(kb(&r), main_menu_rows());
        }
        _ => panic!("expected a message"),
    }
    match export_reply(&[note(1, 1, "n")]) {
        ExportReply::Document { content, file_name, keyboard } => {
            assert!(content.starts_with("📝 ЭКСПОРТ ЗАМЕТОК\n"));
            assert!(content.contains("Заметка #1\nНазвание: n\n"));
            assert!(file_name.starts_with("notes_export_") && file_name.ends_with(".md"));
            let stamp = &file_name["notes_export_".len()..file_name.len() - 3];
            assert!(chrono::NaiveDateTime::parse_from_str(stamp, "%Y%m%d_%H%M%S").is_ok());
            assert_eq!(rows(&keyboard), main_menu_rows());
        }
        _ => panic!("expected a document"),
    }
    assert_eq!(export_file_name("20250101_000000"), "notes_export_20250101_000000.md");
}

#[test]
fn search_results_that_cannot_be_cut() {
    // find a list whose byte 4000 falls inside a two-byte letter
    let mut found = false;
    for len in 1..40 {
        let title = "ж".repeat(len);
        let notes: Vec<Note> = (0..100).map(|i| note(i, 1, &title)).collect();
        let mut listing = String::from("🔍 Результаты поиска:\n\n");
        for n in &notes {
            listing.push_str(&format!("• {} (ID: {})\n", n.title, n.id));
        }
        let ok = listing.len() <= 4000 || listing.is_char_boundary(4000);
        assert_eq!(search_results_fit(&notes), ok);
        if !ok {
            found = true;
        } else {
            let r = search_results(&notes);
            if listing.len() > 4000 {
                assert_eq!(r.text, format!("{}\n\n...(обрезано)", &listing[..4000]));
            }
        }
    }
    assert!(found);
}

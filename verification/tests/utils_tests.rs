use notes_bot::datetime::DateTime;
use notes_bot::models::Note;
use notes_bot::queries::{page_offset, search_pattern};
use notes_bot::utils::{
    compose_note_card, export_notes_dated, export_notes_to_text, format_note, format_note_list,
    parse_datetime, reminder_message, resolve_datetime,
};

fn dt(year: i32, month: u32, day: u32, hour: u32, minute: u32, second: u32) -> DateTime {
    DateTime { year, month, day, hour, minute, second, nanosecond: 0 }
}

fn note(id: i64, user_id: i64, title: &str, content: &str) -> Note {
    Note {
        id,
        user_id,
        title: title.to_string(),
        content: content.to_string(),
        created_at: dt(2024, 3, 5, 9, 7, 0),
        updated_at: dt(2024, 12, 31, 23, 59, 59),
    }
}

#[test]
fn parse_full_iso_datetime() {
    assert_eq!(parse_datetime("2024-03-15 14:30:00"), Ok(dt(2024, 3, 15, 14, 30, 0)));
}

#[test]
fn parse_dotted_datetime_with_seconds() {
    assert_eq!(parse_datetime("15.03.2024 14:30:45"), Ok(dt(2024, 3, 15, 14, 30, 45)));
}

#[test]
fn parse_dotted_datetime_without_seconds() {
    assert_eq!(parse_datetime("15.03.2024 14:30"), Ok(dt(2024, 3, 15, 14, 30, 0)));
}

#[test]
fn parse_bare_dates_at_midnight() {
    assert_eq!(parse_datetime("2024-03-15"), Ok(dt(2024, 3, 15, 0, 0, 0)));
    assert_eq!(parse_datetime("15.03.2024"), Ok(dt(2024, 3, 15, 0, 0, 0)));
    assert_eq!(parse_datetime("29.02.2024"), Ok(dt(2024, 2, 29, 0, 0, 0)));
}

#[test]
fn parse_leap_second() {
    let d = parse_datetime("2016-12-31 23:59:60").unwrap();
    assert_eq!((d.second, d.nanosecond), (59, 1_000_000_000));
}

#[test]
fn parse_rejects_other_text() {
    let msg = "Не удалось распознать дату: завтра. Форматы: YYYY-MM-DD HH:MM:SS, DD.MM.YYYY HH:MM";
    assert_eq!(parse_datetime("завтра"), Err(msg.to_string()));
    assert!(parse_datetime("2023-02-29").is_err());
    assert!(parse_datetime("15.03.2024 25:00").is_err());
    assert!(parse_datetime("").is_err());
}

#[test]
fn resolve_takes_the_first_result_in_order() {
    let a = dt(2020, 1, 1, 1, 1, 1);
    let b = dt(2021, 2, 2, 2, 2, 2);
    assert_eq!(resolve_datetime("x", None, Some(a), Some(b), Some((2022, 3, 3)), None), Ok(a));
    assert_eq!(resolve_datetime("x", None, None, None, Some((2022, 3, 3)), Some((2023, 4, 4))), Ok(dt(2022, 3, 3, 0, 0, 0)));
    assert_eq!(resolve_datetime("x", None, None, None, None, Some((2023, 4, 4))), Ok(dt(2023, 4, 4, 0, 0, 0)));
    assert_eq!(
        resolve_datetime("x", None, None, None, None, None),
        Err("Не удалось распознать дату: x. Форматы: YYYY-MM-DD HH:MM:SS, DD.MM.YYYY HH:MM".to_string())
    );
}

#[test]
fn note_card_layout() {
    let expected = "📝 <b>Покупки</b>\n\nмолоко, хлеб\n\n_ID: 7_\n_Создано: 05.03.2024 09:07_\n_Обновлено: 31.12.2024 23:59_";
    assert_eq!(format_note(&note(7, 1, "Покупки", "молоко, хлеб")), expected);
    assert_eq!(
        compose_note_card("T", "C", -3, "a", "b"),
        "📝 <b>T</b>\n\nC\n\n_ID: -3_\n_Создано: a_\n_Обновлено: b_"
    );
}

#[test]
fn empty_note_list() {
    assert_eq!(format_note_list(&[], 1), "📭 У вас пока нет заметок.");
}

#[test]
fn note_list_with_previews() {
    let long: String = "я".repeat(60);
    let notes = vec![note(1, 9, "Первая", "коротко"), note(2, 9, "Вторая", &long)];
    let expected = format!(
        "📋 <b>Заметки</b> (стр. 3) — всего 2\n\n• <b>Первая</b> (ID: 1)\n  <i>коротко</i>\n\n• <b>Вторая</b> (ID: 2)\n  <i>{}</i>\n\n",
        "я".repeat(50)
    );
    assert_eq!(format_note_list(&notes, 3), expected);
}

#[test]
fn export_layout() {
    let notes = vec![note(4, 1, "A", "text")];
    let rule_eq = "=".repeat(50);
    let rule_dash = "-".repeat(50);
    let expected = format!(
        "📝 ЭКСПОРТ ЗАМЕТОК\nДата экспорта: 01.01.2025 10:00 UTC\n{}\n\nЗаметка #4\nНазвание: A\nСоздано: 05.03.2024 09:07\nОбновлено: 31.12.2024 23:59\ntext\n{}\n\n",
        rule_eq, rule_dash
    );
    assert_eq!(export_notes_dated(&notes, "01.01.2025 10:00 UTC"), expected);
}

#[test]
fn export_is_dated_now() {
    let text = export_notes_to_text(&[]);
    assert!(text.starts_with("📝 ЭКСПОРТ ЗАМЕТОК\nДата экспорта: "));
    let date_line = text.lines().nth(1).unwrap();
    let date = &date_line["Дата экспорта: ".len()..];
    assert!(chrono::NaiveDateTime::parse_from_str(date, "%d.%m.%Y %H:%M UTC").is_ok());
    assert!(text.ends_with(&format!("{}\n\n", "=".repeat(50))));
}

#[test]
fn reminder_text_is_escaped() {
    let n = note(1, 1, "<Звонок>", "a & b");
    assert_eq!(reminder_message(&n), "⏰ <b>Напоминание</b>\n\n<b>&lt;Звонок&gt;</b>\n\na &amp; b");
}

#[test]
fn page_offsets() {
    assert_eq!(page_offset(1, 5), 0);
    assert_eq!(page_offset(2, 5), 5);
    assert_eq!(page_offset(4, 1000), 3000);
}

#[test]
fn search_pattern_wraps_query() {
    assert_eq!(search_pattern("молоко"), "%молоко%");
    assert_eq!(search_pattern(""), "%%");
}

#[test]
fn date_time_validity() {
    assert!(dt(2024, 2, 29, 0, 0, 0).is_valid());
    assert!(!dt(2023, 2, 29, 0, 0, 0).is_valid());
    assert!(!dt(1900, 2, 29, 0, 0, 0).is_valid());
    assert!(dt(2000, 2, 29, 0, 0, 0).is_valid());
    assert!(!dt(2024, 4, 31, 0, 0, 0).is_valid());
    assert!(!dt(2024, 13, 1, 0, 0, 0).is_valid());
    assert!(!dt(2024, 1, 1, 24, 0, 0).is_valid());
    assert!(!dt(262143, 1, 1, 0, 0, 0).is_valid());
    assert!(dt(-262143, 1, 1, 0, 0, 0).is_valid());
    let mut leap = dt(2016, 12, 31, 23, 59, 59);
    leap.nanosecond = 1_000_000_000;
    assert!(leap.is_valid());
    leap.second = 58;
    assert!(!leap.is_valid());
    assert!(note(1, 1, "t", "c").is_well_formed());
    for (y, m, d) in [(2024, 2, 29), (2023, 2, 28), (-4, 2, 29), (1, 1, 1), (2023, 2, 29), (-5, 2, 29)] {
        assert_eq!(
            dt(y, m, d, 0, 0, 0).is_valid(),
            chrono::NaiveDate::from_ymd_opt(y, m, d).is_some(),
            "{}-{}-{}",
            y,
            m,
            d
        );
    }
}

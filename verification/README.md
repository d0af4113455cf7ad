# notes_bot

A Telegram bot that keeps notes for its users: add, list, open, delete,
search, tag and export notes, and be reminded of a note at a given time.

`src/` is the verified library, checked by Verus:

- `text` — decimal rendering of integers, trimming of white space, HTML
  escaping, UTF-8 byte lengths; with the laws of escaping and trimming.
- `datetime` — date-times as plain values, and the calls into `chrono` that
  parse, format and read the clock.
- `models` — notes and reminders.
- `utils` — parsing of the dates users type; rendering of notes, lists,
  exports and reminder messages.
- `queries` — the offset of a page and the search pattern of the queries.
- `handlers` — menus, the per-user dialogue state, and the answer to every
  message and button press, as a function from state and event to the next
  state and an action.
- `laws` — properties across calls: users are independent, the add-note
  dialogue stores what was typed, one-message states end, only a user's own
  notes are touched, paging, cutting of long messages.

`app/` runs the bot: Telegram through `teloxide`, storage through `sqlx`
(SQLite), the reminder loop, and the JSON form of the button data.

# todo_app

A todo list stored in SQLite, verified with Verus.

- `src/` is the library. `database` holds the operations on the `todos`,
  `tags` and `todo_tags` tables. Each operation states which statements it
  hands to SQLite; `requests` names them by SQL text and parameters. A
  `Database` (in `sqlite`) keeps the record of the statements handed over:
  its fields are private, and only the calls into `rusqlite` that take a
  statement (`execute`, `prepare`) extend it. `statements` holds the SQL text
  and builds the parameters. `todo` turns result rows into items. `text` holds whitespace
  trimming, tag-name normalization and decimal formatting. `clock` reads the
  time and formats dates through `chrono`. `app_state` holds the
  application's state: the active items, the trash, the form, the current
  screen and the statements sent. It also proves the laws that link its
  operations.
- `app/` is the egui front end. It draws the screens and sends each button
  press to `app_state`.
- `tests/` runs the library against in-memory SQLite databases.

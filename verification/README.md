# unsafe_space

A small Twitter-like web server: users register, log in (a session cookie
names a row of the session table) and read the messages posted so far.

- `src/` is the library, verified with Verus:
  - `mime` reads a `mime.types` table and looks types up by extension and
    extensions up by type; its contract gives the tables as a fold over the
    lines of the text, and the laws state that lines are read in order, that
    comments and blank lines change nothing and that the last line naming an
    extension decides it.
  - `sql` builds the SQL statements, `store` sends them to SQLite
    (through `rusqlite`), `auth` and `messages` hold the rules on sessions,
    users and messages, `pages` the data and the answers of the pages,
    `error` the errors and their texts, `text` the character helpers.
- `app/` is the HTTP server (actix-web, handlebars, serde, logging); it reads
  files, renders pages and hands plain values to the library.
- `tests/` exercises the library, including against an in-memory database.

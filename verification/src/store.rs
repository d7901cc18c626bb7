//! The database of users, sessions and messages, kept by SQLite.
use vstd::prelude::*;
use rusqlite::Connection;
use rusqlite::Error as SqliteError;
use rusqlite::Rows;
use rusqlite::Statement;
use std::time::{Duration, SystemTime, SystemTimeError as ClockError, UNIX_EPOCH};
use crate::config::Config;
use crate::error::Error;
use crate::messages::{Message, MessageRow, newest_first, matches_search};
use crate::sql::{create_session_sql, INIT_SQL, DROP_SQL, find_user_statement, login_statement, register_statement, update_user_statement, find_session_statement, create_session_statement, delete_session_statement, create_message_statement, delete_message_statement, search_messages_statement};

verus! {

#[verifier::external_type_specification]
#[verifier::external_body]
pub struct ExConnection(Connection);

#[verifier::external_type_specification]
#[verifier::external_body]
pub struct ExStatement<'conn>(Statement<'conn>);

#[verifier::external_type_specification]
#[verifier::external_body]
pub struct ExRows<'stmt>(Rows<'stmt>);

#[verifier::external_type_specification]
#[verifier::external_body]
pub struct ExSystemTime(SystemTime);

/// Opens (or creates) the database file at `path`. Calls `Connection::open`;
/// whether it succeeds depends on the file system, so nothing is claimed.
#[verifier::external_body]
fn open_connection(path: &str) -> Result<Connection, SqliteError> {
    Connection::open(path)
}

/// Runs the statements of `sql` one after another. Calls
/// `Connection::execute_batch`; the outcome depends on the database.
#[verifier::external_body]
fn run_batch(conn: &Connection, sql: &str) -> Result<(), SqliteError> {
    conn.execute_batch(sql)
}

/// Runs one statement without parameters and gives the number of rows it
/// changed. Calls `Connection::execute`; the outcome depends on the database.
#[verifier::external_body]
fn run_statement(conn: &Connection, sql: &str) -> Result<usize, SqliteError> {
    conn.execute(sql, [])
}

/// The row id of the last row inserted through `conn`. Calls
/// `Connection::last_insert_rowid`; the value depends on the database.
#[verifier::external_body]
fn last_row_id(conn: &Connection) -> i64 {
    conn.last_insert_rowid()
}

/// The first row of a query, read as a user's name and bio. Calls
/// `Connection::query_row`, which fails when there is no row; the values
/// depend on the database.
#[verifier::external_body]
fn query_user_row(conn: &Connection, sql: &str) -> Result<(String, Option<String>), SqliteError> {
    conn.query_row(sql, [], |row| Ok((row.get(0)?, row.get(1)?)))
}

/// The first row of a query, read as a user's id, name and bio. Calls
/// `Connection::query_row`, which fails when there is no row; the values
/// depend on the database.
#[verifier::external_body]
fn query_account_row(conn: &Connection, sql: &str) -> Result<(u32, String, Option<String>), SqliteError> {
    conn.query_row(sql, [], |row| Ok((row.get(0)?, row.get(1)?, row.get(2)?)))
}

/// The first row of a query, read as a session's id, user and expiry. Calls
/// `Connection::query_row`, which fails when there is no row; the values
/// depend on the database.
#[verifier::external_body]
fn query_session_row(conn: &Connection, sql: &str) -> Result<(u32, u32, i64), SqliteError> {
    conn.query_row(sql, [], |row| Ok((row.get(0)?, row.get(1)?, row.get(2)?)))
}

/// Compiles a statement. Calls `Connection::prepare`; the outcome depends on
/// the database.
#[verifier::external_body]
fn prepare<'a>(conn: &'a Connection, sql: &str) -> Result<Statement<'a>, SqliteError> {
    conn.prepare(sql)
}

/// Starts running a statement without parameters. Calls `Statement::query`.
#[verifier::external_body]
fn start_query<'a>(stmt: &'a mut Statement<'_>) -> Result<Rows<'a>, SqliteError> {
    stmt.query([])
}

/// The next row of a running query, read by column name as a message with
/// its sender. Calls `Rows::next`; the rows depend on the database.
#[verifier::external_body]
fn next_message_row(rows: &mut Rows<'_>) -> Result<Option<MessageRow>, SqliteError> {
    match rows.next()? {
        Some(row) => Ok(Some(MessageRow {
            mid: row.get("mid")?,
            uid: row.get("uid")?,
            username: row.get("username")?,
            bio: row.get("bio")?,
            content: row.get("content")?,
            timestamp: row.get("timestamp")?,
        })),
        None => Ok(None),
    }
}

/// Reads the system clock. Calls `SystemTime::now`; nothing is claimed of
/// the time read.
#[verifier::external_body]
fn system_now() -> SystemTime {
    SystemTime::now()
}

/// The time elapsed from the Unix epoch to `t`. Calls
/// `SystemTime::duration_since`, which fails when `t` lies before the epoch;
/// nothing is claimed of the duration.
#[verifier::external_body]
fn since_unix_epoch(t: &SystemTime) -> Result<Duration, ClockError> {
    t.duration_since(UNIX_EPOCH)
}

/// The whole seconds of a duration. Calls `Duration::as_secs`; a `Duration`
/// has no view here, so nothing is claimed of the value.
#[verifier::external_body]
fn whole_seconds(d: &Duration) -> u64 {
    d.as_secs()
}

/// The current time in whole seconds since the Unix epoch; a clock set
/// before the epoch is reported as a clock error.
pub fn clock_seconds() -> (r: Result<u64, Error>)
    ensures
        r matches Err(e) ==> e is SystemTimeError,
{
    let now = system_now();
    match since_unix_epoch(&now) {
        Ok(d) => Ok(whole_seconds(&d)),
        Err(e) => Err(Error::SystemTimeError(e)),
    }
}

/// Session lengths, in minutes, that `chrono` accepts as a duration
/// (`Duration::minutes` panics outside them).
pub open spec fn session_minutes_ok(minutes: i64) -> bool {
    -153722867280912 <= minutes <= 153722867280912
}

/// The second at which a session opened at `now` for `minutes` ends.
pub open spec fn session_expiry(now: int, minutes: int) -> int {
    now + 60 * minutes
}

/// `x` held to the range of `i64`.
pub open spec fn clamp_i64(x: int) -> int {
    if x < i64::MIN {
        i64::MIN as int
    } else if x > i64::MAX {
        i64::MAX as int
    } else {
        x
    }
}

/// A clock reading as a timestamp column value: the reading itself, or the
/// last second an `i64` holds for a clock beyond it.
pub fn timestamp_of(seconds: u64) -> (t: i64)
    ensures
        t == clamp_i64(seconds as int),
{
    if seconds > i64::MAX as u64 {
        i64::MAX
    } else {
        seconds as i64
    }
}

/// The expiry of a session opened at `now` for `minutes`, and the statement
/// that records it for the user. An expiry beyond the range of an `i64` is
/// held to that range.
pub fn session_record(user_id: u32, now: u64, minutes: i64) -> (r: (String, i64))
    requires
        session_minutes_ok(minutes),
    ensures
        r.1 == clamp_i64(session_expiry(now as int, minutes as int)),
        r.0@ == create_session_sql(user_id, r.1),
{
    let span: i64 = minutes * 60;
    let expires: i64 = if span >= 0 {
        if now > (i64::MAX - span) as u64 {
            i64::MAX
        } else {
            now as i64 + span
        }
    } else {
        if now > i64::MAX as u64 {
            if now - (i64::MAX as u64) > (-span) as u64 {
                i64::MAX
            } else {
                (now - ((-span) as u64)) as i64
            }
        } else {
            now as i64 + span
        }
    };
    (create_session_statement(user_id, expires), expires)
}

/// Maps a database failure into the library's error.
fn from_db<T>(r: Result<T, SqliteError>) -> (out: Result<T, Error>)
    ensures
        match r {
            Ok(v) => out matches Ok(w) && w == v,
            Err(_) => out matches Err(e) && e is RusqliteError,
        },
{
    match r {
        Ok(v) => Ok(v),
        Err(e) => Err(Error::RusqliteError(e)),
    }
}

/// The rows gathered after one more step of reading a query.
pub open spec fn rows_after(seen: Seq<MessageRow>, step: Result<Option<MessageRow>, SqliteError>) -> Seq<MessageRow> {
    match step {
        Ok(Some(row)) => seen.push(row),
        _ => seen,
    }
}

/// One step of reading a query's rows: a row read is added after those
/// already gathered (answer `true`, go on), the end of the rows leaves them as
/// they are (answer `false`, stop), and a failure is passed on.
pub fn gather_row(found: &mut Vec<MessageRow>, step: Result<Option<MessageRow>, SqliteError>) -> (r: Result<bool, Error>)
    ensures
        match step {
            Ok(Some(_)) => final(found)@ == rows_after(old(found)@, step) && (r matches Ok(more) && more),
            Ok(None) => final(found)@ == rows_after(old(found)@, step) && (r matches Ok(more) && !more),
            Err(_) => final(found)@ == rows_after(old(found)@, step) && (r matches Err(e) && e is RusqliteError),
        },
{
    match step {
        Ok(Some(row)) => {
            found.push(row);
            Ok(true)
        },
        Ok(None) => Ok(false),
        Err(e) => Err(Error::RusqliteError(e)),
    }
}

/// A connection to the application's database, with the settings it uses.
pub struct Database {
    conn: Connection,
    config: Config,
}

impl Database {
    /// The settings the database was opened with.
    pub closed spec fn settings(self) -> Config {
        self.config
    }

    /// Opens the database kept in the file `db.sqlite3`.
    pub fn new(config: Config) -> (r: Result<Database, Error>)
        ensures
            r matches Ok(db) ==> db.settings() == config,
            r matches Err(e) ==> e is RusqliteError,
    {
        Database::open("db.sqlite3", config)
    }

    /// Opens the database kept in the file at `path` (`:memory:` keeps it in memory).
    pub fn open(path: &str, config: Config) -> (r: Result<Database, Error>)
        ensures
            r matches Ok(db) ==> db.settings() == config,
            r matches Err(e) ==> e is RusqliteError,
    {
        match open_connection(path) {
            Ok(conn) => Ok(Database { conn, config }),
            Err(e) => Err(Error::RusqliteError(e)),
        }
    }

    /// Creates the tables, and the default account, where they are missing.
    pub fn initialize(&mut self) -> (r: Result<(), Error>)
        ensures
            final(self).settings() == old(self).settings(),
            r matches Err(e) ==> e is RusqliteError,
    {
        from_db(run_batch(&self.conn, INIT_SQL))
    }

    /// Removes the tables.
    pub fn drop(&mut self) -> (r: Result<(), Error>)
        ensures
            final(self).settings() == old(self).settings(),
            r matches Err(e) ==> e is RusqliteError,
    {
        from_db(run_batch(&self.conn, DROP_SQL))
    }

    /// The name and bio of the user with the given id; fails when there is none.
    pub fn find_user(&self, user_id: u32) -> (r: Result<(String, Option<String>), Error>)
        ensures
            r matches Err(e) ==> e is RusqliteError,
    {
        let sql = find_user_statement(user_id);
        from_db(query_user_row(&self.conn, sql.as_str()))
    }

    /// The id, name and bio of the user with the given name and password;
    /// fails when there is none.
    pub fn login(&self, username: &String, password: &String) -> (r: Result<(u32, String, Option<String>), Error>)
        ensures
            r matches Err(e) ==> e is RusqliteError,
    {
        let sql = login_statement(username.as_str(), password.as_str());
        from_db(query_account_row(&self.conn, sql.as_str()))
    }

    /// Adds a user; fails when the name is taken.
    pub fn register(&self, username: &String, password: &String) -> (r: Result<(), Error>)
        ensures
            r matches Err(e) ==> e is RusqliteError,
    {
        let sql = register_statement(username.as_str(), password.as_str());
        match run_statement(&self.conn, sql.as_str()) {
            Ok(_) => Ok(()),
            Err(e) => Err(Error::RusqliteError(e)),
        }
    }

    /// Sets the bio of the user with the given id.
    pub fn update_user(&self, user_id: u32, bio: &String) -> (r: Result<(), Error>)
        ensures
            r matches Err(e) ==> e is RusqliteError,
    {
        let sql = update_user_statement(user_id, bio.as_str());
        match run_statement(&self.conn, sql.as_str()) {
            Ok(_) => Ok(()),
            Err(e) => Err(Error::RusqliteError(e)),
        }
    }

    /// The id, user and expiry (seconds since the Unix epoch) of the session
    /// with the given id; fails when there is none.
    pub fn find_session(&self, session_id: &String) -> (r: Result<(u32, u32, i64), Error>)
        ensures
            r matches Err(e) ==> e is RusqliteError,
    {
        let sql = find_session_statement(session_id.as_str());
        from_db(query_session_row(&self.conn, sql.as_str()))
    }

    /// Records a session for the user that starts at the second `now` and
    /// lasts the configured number of minutes; gives its id and its expiry.
    pub fn create_session_at(&self, user_id: u32, now: u64) -> (r: Result<(i64, i64), Error>)
        requires
            session_minutes_ok(self.settings().session_exp),
        ensures
            r matches Ok((_, expires)) ==> expires == clamp_i64(
                session_expiry(now as int, self.settings().session_exp as int),
            ),
            r matches Err(e) ==> e is RusqliteError,
    {
        let (sql, expires) = session_record(user_id, now, self.config.session_exp);
        match run_statement(&self.conn, sql.as_str()) {
            Ok(_) => Ok((last_row_id(&self.conn), expires)),
            Err(e) => Err(Error::RusqliteError(e)),
        }
    }

    /// Records a session for the user that starts now.
    pub fn create_session(&self, user_id: u32) -> (r: Result<(i64, i64), Error>)
        requires
            session_minutes_ok(self.settings().session_exp),
        ensures
            r matches Ok((_, expires)) ==> exists|now: nat|
                expires == clamp_i64(session_expiry(now as int, self.settings().session_exp as int)),
            r matches Err(e) ==> e is RusqliteError || e is SystemTimeError,
    {
        let now = match clock_seconds() {
            Ok(now) => now,
            Err(e) => return Err(e),
        };
        self.create_session_at(user_id, now)
    }

    /// Removes the session with the given id.
    pub fn delete_session(&self, session_id: String) -> (r: Result<(), Error>)
        ensures
            r matches Err(e) ==> e is RusqliteError,
    {
        let sql = delete_session_statement(session_id.as_str());
        match run_statement(&self.conn, sql.as_str()) {
            Ok(_) => Ok(()),
            Err(e) => Err(Error::RusqliteError(e)),
        }
    }

    /// Records a message by the user, stamped with the given second.
    pub fn create_message_at(&self, user_id: u32, message: &String, timestamp: i64) -> (r: Result<(), Error>)
        ensures
            r matches Err(e) ==> e is RusqliteError,
    {
        let sql = create_message_statement(user_id, message.as_str(), timestamp);
        match run_statement(&self.conn, sql.as_str()) {
            Ok(_) => Ok(()),
            Err(e) => Err(Error::RusqliteError(e)),
        }
    }

    /// Records a message by the user, stamped with the current time.
    pub fn create_message(&self, user_id: u32, message: &String) -> (r: Result<(), Error>)
        ensures
            r matches Err(e) ==> e is RusqliteError || e is SystemTimeError,
    {
        let now = match clock_seconds() {
            Ok(now) => now,
            Err(e) => return Err(e),
        };
        self.create_message_at(user_id, message, timestamp_of(now))
    }

    /// Removes the message with the given id.
    pub fn delete_message(&self, message_id: u32) -> (r: Result<(), Error>)
        ensures
            r matches Err(e) ==> e is RusqliteError,
    {
        let sql = delete_message_statement(message_id);
        match run_statement(&self.conn, sql.as_str()) {
            Ok(_) => Ok(()),
            Err(e) => Err(Error::RusqliteError(e)),
        }
    }

    /// The messages with their senders, newest first; only those of the
    /// given sender, and only the one with the given id, when these are given.
    /// The rows come from a query that asks for exactly that; what it gives
    /// back is sifted and put in order once more, so that the result holds
    /// whatever the database answered.
    pub fn search_messages(&self, user_id: Option<u32>, message_id: Option<u32>) -> (r: Result<Vec<Message>, Error>)
        ensures
            r matches Err(e) ==> e is RusqliteError,
            r matches Ok(v) ==> newest_first(v@) && forall|i: int|
                0 <= i < v@.len() ==> matches_search(#[trigger] v@[i], user_id, message_id),
    {
        let sql = search_messages_statement(user_id, message_id);
        let mut stmt = match prepare(&self.conn, sql.as_str()) {
            Ok(s) => s,
            Err(e) => return Err(Error::RusqliteError(e)),
        };
        let mut rows = match start_query(&mut stmt) {
            Ok(r) => r,
            Err(e) => return Err(Error::RusqliteError(e)),
        };
        let mut found: Vec<MessageRow> = Vec::new();
        let ghost mut seen: Seq<MessageRow> = Seq::empty();
        loop
            invariant
                found@ == seen,
                found@.len() <= usize::MAX,
            decreases usize::MAX - found@.len(),
        {
            let step = next_message_row(&mut rows);
            proof {
                seen = rows_after(seen, step);
            }
            match gather_row(&mut found, step) {
                Ok(true) => {
                    assert(found.len() == found@.len());
                },
                Ok(false) => break,
                Err(e) => return Err(e),
            }
        }
        Ok(Message::select_newest_first(Message::from_rows(found), user_id, message_id))
    }
}

} // verus!

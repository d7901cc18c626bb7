//! The SQL statements that the store sends to the database. Values are
//! written into the statement text as they are given: text values inside
//! single quotes, numbers in decimal.
use vstd::prelude::*;
use crate::text::{decimal, signed_decimal, push_decimal, push_signed_decimal};

verus! {

/// The statements that create the tables (and the default account) when they
/// do not exist yet.
pub const INIT_SQL: &'static str = "CREATE TABLE IF NOT EXISTS Users (id INTEGER PRIMARY KEY AUTOINCREMENT, username TEXT NOT NULL UNIQUE, password TEXT NOT NULL, bio TEXT); CREATE TABLE IF NOT EXISTS Sessions (id INTEGER PRIMARY KEY AUTOINCREMENT, user INTEGER NOT NULL, expires INTEGER NOT NULL); CREATE TABLE IF NOT EXISTS Messages (id INTEGER PRIMARY KEY AUTOINCREMENT, user INTEGER NOT NULL, content TEXT NOT NULL, timestamp INTEGER NOT NULL); INSERT OR IGNORE INTO Users (username, password) VALUES ('otus', 'otus');";

/// The statements that remove the tables.
pub const DROP_SQL: &'static str = "DROP TABLE IF EXISTS Messages; DROP TABLE IF EXISTS Sessions; DROP TABLE IF EXISTS Users;";

pub open spec fn find_user_sql(user_id: u32) -> Seq<char> {
    "SELECT username, bio FROM Users WHERE id="@ + decimal(user_id as nat)
}

pub open spec fn login_sql(username: Seq<char>, password: Seq<char>) -> Seq<char> {
    "SELECT id, username, bio FROM Users WHERE username='"@ + username + "' AND password='"@
        + password + "'"@
}

pub open spec fn register_sql(username: Seq<char>, password: Seq<char>) -> Seq<char> {
    "INSERT INTO users (username, password) VALUES ('"@ + username + "', '"@ + password + "')"@
}

pub open spec fn update_user_sql(user_id: u32, bio: Seq<char>) -> Seq<char> {
    "Update Users SET bio='"@ + bio + "' WHERE id="@ + decimal(user_id as nat)
}

pub open spec fn find_session_sql(session_id: Seq<char>) -> Seq<char> {
    "SELECT id, user, expires FROM Sessions WHERE id="@ + session_id
}

pub open spec fn create_session_sql(user_id: u32, expires: i64) -> Seq<char> {
    "INSERT INTO Sessions (user, expires) VALUES ('"@ + decimal(user_id as nat) + "', "@
        + signed_decimal(expires as int) + ")"@
}

pub open spec fn delete_session_sql(session_id: Seq<char>) -> Seq<char> {
    "DELETE FROM Sessions where id="@ + session_id
}

pub open spec fn create_message_sql(user_id: u32, message: Seq<char>, timestamp: i64) -> Seq<char> {
    "INSERT INTO Messages (user, content, timestamp) VALUES ("@ + decimal(user_id as nat) + ", '"@
        + message + "', "@ + signed_decimal(timestamp as int) + ")"@
}

pub open spec fn delete_message_sql(message_id: u32) -> Seq<char> {
    "DELETE FROM Messages WHERE id="@ + decimal(message_id as nat)
}

/// `parts` with `sep` between each two neighbours.
pub open spec fn join(parts: Seq<Seq<char>>, sep: Seq<char>) -> Seq<char>
    decreases parts.len(),
{
    if parts.len() == 0 {
        Seq::empty()
    } else if parts.len() == 1 {
        parts[0]
    } else {
        join(parts.drop_last(), sep) + sep + parts.last()
    }
}

/// The conditions that select messages: by sender, then by message id.
pub open spec fn search_conditions(user_id: Option<u32>, message_id: Option<u32>) -> Seq<Seq<char>> {
    let by_user = match user_id {
        Some(u) => seq!["M.user='"@ + decimal(u as nat) + "'"@],
        None => Seq::empty(),
    };
    let by_id = match message_id {
        Some(m) => seq!["M.id='"@ + decimal(m as nat) + "'"@],
        None => Seq::empty(),
    };
    by_user + by_id
}

/// `WHERE` and the conditions joined by `AND`, or nothing without conditions.
pub open spec fn where_clause(conditions: Seq<Seq<char>>) -> Seq<char> {
    if conditions.len() > 0 {
        "WHERE "@ + join(conditions, " AND "@)
    } else {
        Seq::empty()
    }
}

pub open spec fn search_messages_sql(user_id: Option<u32>, message_id: Option<u32>) -> Seq<char> {
    "SELECT *, M.id as mid, U.id as uid FROM Messages as M LEFT JOIN Users AS U ON U.id=M.user "@
        + where_clause(search_conditions(user_id, message_id)) + " ORDER BY timestamp DESC"@
}

/// The statement that reads a user's name and bio.
pub fn find_user_statement(user_id: u32) -> (s: String)
    ensures
        s@ == find_user_sql(user_id),
{
    let mut s = String::from_str("SELECT username, bio FROM Users WHERE id=");
    push_decimal(&mut s, user_id as u64);
    s
}

/// The statement that looks a user up by name and password.
pub fn login_statement(username: &str, password: &str) -> (s: String)
    ensures
        s@ == login_sql(username@, password@),
{
    let mut s = String::from_str("SELECT id, username, bio FROM Users WHERE username='");
    s.append(username);
    s.append("' AND password='");
    s.append(password);
    s.append("'");
    s
}

/// The statement that adds a user.
pub fn register_statement(username: &str, password: &str) -> (s: String)
    ensures
        s@ == register_sql(username@, password@),
{
    let mut s = String::from_str("INSERT INTO users (username, password) VALUES ('");
    s.append(username);
    s.append("', '");
    s.append(password);
    s.append("')");
    s
}

/// The statement that sets a user's bio.
pub fn update_user_statement(user_id: u32, bio: &str) -> (s: String)
    ensures
        s@ == update_user_sql(user_id, bio@),
{
    let mut s = String::from_str("Update Users SET bio='");
    s.append(bio);
    s.append("' WHERE id=");
    push_decimal(&mut s, user_id as u64);
    s
}

/// The statement that reads a session.
pub fn find_session_statement(session_id: &str) -> (s: String)
    ensures
        s@ == find_session_sql(session_id@),
{
    let mut s = String::from_str("SELECT id, user, expires FROM Sessions WHERE id=");
    s.append(session_id);
    s
}

/// The statement that records a session.
pub fn create_session_statement(user_id: u32, expires: i64) -> (s: String)
    ensures
        s@ == create_session_sql(user_id, expires),
{
    let mut s = String::from_str("INSERT INTO Sessions (user, expires) VALUES ('");
    push_decimal(&mut s, user_id as u64);
    s.append("', ");
    push_signed_decimal(&mut s, expires);
    s.append(")");
    s
}

/// The statement that removes a session.
pub fn delete_session_statement(session_id: &str) -> (s: String)
    ensures
        s@ == delete_session_sql(session_id@),
{
    let mut s = String::from_str("DELETE FROM Sessions where id=");
    s.append(session_id);
    s
}

/// The statement that records a message.
pub fn create_message_statement(user_id: u32, message: &str, timestamp: i64) -> (s: String)
    ensures
        s@ == create_message_sql(user_id, message@, timestamp),
{
    let mut s = String::from_str("INSERT INTO Messages (user, content, timestamp) VALUES (");
    push_decimal(&mut s, user_id as u64);
    s.append(", '");
    s.append(message);
    s.append("', ");
    push_signed_decimal(&mut s, timestamp);
    s.append(")");
    s
}

/// The statement that removes a message.
pub fn delete_message_statement(message_id: u32) -> (s: String)
    ensures
        s@ == delete_message_sql(message_id),
{
    let mut s = String::from_str("DELETE FROM Messages WHERE id=");
    push_decimal(&mut s, message_id as u64);
    s
}

/// The strings of `parts` with `sep` between each two neighbours.
pub fn join_strings(parts: &Vec<String>, sep: &str) -> (s: String)
    ensures
        s@ == join(parts@.map_values(|p: String| p@), sep@),
{
    let ghost views = parts@.map_values(|p: String| p@);
    let mut s = String::new();
    let mut i: usize = 0;
    assert(views.take(0) =~= Seq::<Seq<char>>::empty());
    while i < parts.len()
        invariant
            i <= parts@.len(),
            views == parts@.map_values(|p: String| p@),
            s@ == join(views.take(i as int), sep@),
        decreases parts@.len() - i,
    {
        if i > 0 {
            s.append(sep);
        }
        s.append(parts[i].as_str());
        assert(views.take(i + 1).drop_last() =~= views.take(i as int));
        assert(views.take(i + 1).last() == parts@[i as int]@);
        if i == 0 {
            assert(s@ =~= views.take(1)[0]);
        }
        i = i + 1;
    }
    assert(views.take(parts@.len() as int) =~= views);
    s
}

/// The statement that reads messages with their senders, newest first,
/// optionally only those of one sender and only the one with a given id.
pub fn search_messages_statement(user_id: Option<u32>, message_id: Option<u32>) -> (s: String)
    ensures
        s@ == search_messages_sql(user_id, message_id),
{
    let mut conditions: Vec<String> = Vec::new();
    if let Some(u) = user_id {
        let mut c = String::from_str("M.user='");
        push_decimal(&mut c, u as u64);
        c.append("'");
        conditions.push(c);
    }
    if let Some(m) = message_id {
        let mut c = String::from_str("M.id='");
        push_decimal(&mut c, m as u64);
        c.append("'");
        conditions.push(c);
    }
    assert(conditions@.map_values(|p: String| p@) =~= search_conditions(user_id, message_id));
    let mut s = String::from_str(
        "SELECT *, M.id as mid, U.id as uid FROM Messages as M LEFT JOIN Users AS U ON U.id=M.user ",
    );
    if conditions.len() > 0 {
        s.append("WHERE ");
        let joined = join_strings(&conditions, " AND ");
        s.append(joined.as_str());
    }
    s.append(" ORDER BY timestamp DESC");
    s
}

} // verus!

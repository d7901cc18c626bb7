//! The library's errors and the texts that describe them.
use vstd::prelude::*;
use vstd::std_specs::convert::FromSpecImpl;
use rusqlite::Error as SqliteError;
use std::io::Error as IoError;
use std::time::SystemTimeError as ClockError;

verus! {

#[verifier::external_type_specification]
#[verifier::external_body]
pub struct ExSqliteError(SqliteError);

#[verifier::external_type_specification]
#[verifier::external_body]
pub struct ExIoError(IoError);

#[verifier::external_type_specification]
#[verifier::external_body]
pub struct ExClockError(ClockError);

/// Failures of the application's own rules.
pub enum USpaceError {
    SessionExpired,
    LoginError(Box<Error>),
    SendMessageError(String),
    FetchError(String),
}

/// Every failure the library reports.
pub enum Error {
    RusqliteError(SqliteError),
    IOError(IoError),
    SystemTimeError(ClockError),
    USpaceError(USpaceError),
}

/// `t` describes the error `e`: the library's own errors by their exact text,
/// the errors of the database, the file system and the clock by a fixed
/// prefix followed by the text that the outside error displays.
pub open spec fn describes_error(e: Error, t: Seq<char>) -> bool
    decreases e,
{
    match e {
        Error::RusqliteError(_) => exists|rest: Seq<char>| t == "SQLite error: "@ + rest,
        Error::IOError(_) => exists|rest: Seq<char>| t == "IO error: "@ + rest,
        Error::SystemTimeError(_) => exists|rest: Seq<char>| t == "SystemTimeError: "@ + rest,
        Error::USpaceError(u) => describes_uspace_error(u, t),
    }
}

/// `t` is the text of the application error `u`.
pub open spec fn describes_uspace_error(u: USpaceError, t: Seq<char>) -> bool
    decreases u,
{
    match u {
        USpaceError::SessionExpired => t == "Session Expired"@,
        USpaceError::LoginError(inner) => describes_error(*inner, t),
        USpaceError::SendMessageError(s) => t == s@,
        USpaceError::FetchError(s) => t == s@,
    }
}

/// The text that a database error displays. Calls `Display` of
/// `rusqlite::Error`; nothing is claimed of the text.
#[verifier::external_body]
fn sqlite_error_text(e: &SqliteError) -> String {
    format!("{}", e)
}

/// The text that an I/O error displays. Calls `Display` of `std::io::Error`;
/// nothing is claimed of the text.
#[verifier::external_body]
fn io_error_text(e: &IoError) -> String {
    format!("{}", e)
}

/// The text that a clock error displays. Calls `Display` of
/// `std::time::SystemTimeError`; nothing is claimed of the text.
#[verifier::external_body]
fn clock_error_text(e: &ClockError) -> String {
    format!("{}", e)
}

/// `prefix` followed by `rest`.
fn prefixed(prefix: &str, rest: String) -> (s: String)
    ensures
        s@ == prefix@ + rest@,
{
    let mut s = String::from_str(prefix);
    s.append(rest.as_str());
    s
}

impl USpaceError {
    /// The text shown for this error.
    pub fn to_string(&self) -> (s: String)
        ensures
            describes_uspace_error(*self, s@),
        decreases *self,
    {
        match self {
            USpaceError::SessionExpired => String::from_str("Session Expired"),
            USpaceError::LoginError(inner) => inner.to_string(),
            USpaceError::SendMessageError(s) => s.clone(),
            USpaceError::FetchError(s) => s.clone(),
        }
    }
}

impl Error {
    /// The text shown for this error.
    pub fn to_string(&self) -> (s: String)
        ensures
            describes_error(*self, s@),
        decreases *self,
    {
        match self {
            Error::RusqliteError(err) => {
                let rest = sqlite_error_text(err);
                prefixed("SQLite error: ", rest)
            },
            Error::IOError(err) => {
                let rest = io_error_text(err);
                prefixed("IO error: ", rest)
            },
            Error::SystemTimeError(err) => {
                let rest = clock_error_text(err);
                prefixed("SystemTimeError: ", rest)
            },
            Error::USpaceError(err) => err.to_string(),
        }
    }
}

impl From<SqliteError> for Error {
    fn from(error: SqliteError) -> (r: Error) {
        Error::RusqliteError(error)
    }
}

impl FromSpecImpl<SqliteError> for Error {
    open spec fn obeys_from_spec() -> bool {
        true
    }

    open spec fn from_spec(v: SqliteError) -> Error {
        Error::RusqliteError(v)
    }
}

impl From<IoError> for Error {
    fn from(error: IoError) -> (r: Error) {
        Error::IOError(error)
    }
}

impl FromSpecImpl<IoError> for Error {
    open spec fn obeys_from_spec() -> bool {
        true
    }

    open spec fn from_spec(v: IoError) -> Error {
        Error::IOError(v)
    }
}

impl From<ClockError> for Error {
    fn from(error: ClockError) -> (r: Error) {
        Error::SystemTimeError(error)
    }
}

impl FromSpecImpl<ClockError> for Error {
    open spec fn obeys_from_spec() -> bool {
        true
    }

    open spec fn from_spec(v: ClockError) -> Error {
        Error::SystemTimeError(v)
    }
}

impl From<USpaceError> for Error {
    fn from(error: USpaceError) -> (r: Error) {
        Error::USpaceError(error)
    }
}

impl FromSpecImpl<USpaceError> for Error {
    open spec fn obeys_from_spec() -> bool {
        true
    }

    open spec fn from_spec(v: USpaceError) -> Error {
        Error::USpaceError(v)
    }
}

} // verus!

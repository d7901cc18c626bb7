//! Users, sessions and the identity of the user behind a request.
use vstd::prelude::*;
use crate::error::{Error, USpaceError};
use crate::store::{Database, clamp_i64, clock_seconds, session_expiry, session_minutes_ok};
use crate::text::{decimal, signed_decimal, i64_text, u32_text};

verus! {

/// A registered user.
#[derive(Clone, Debug)]
pub struct User {
    pub id: u32,
    pub username: String,
    pub bio: Option<String>,
}

/// The user behind a request, with the id of the session it came with.
#[derive(Debug)]
pub struct Identity {
    pub session_id: String,
    pub user: User,
}

/// A session opened by a login: its id, the user it is for and the second
/// it expires.
#[derive(Clone, Copy, Debug)]
pub struct Session {
    pub id: i64,
    pub user: u32,
    pub expires: i64,
}

/// The name of the cookie that carries the session id.
pub const SESSION_COOKIE_NAME: &'static str = "session_id";

/// The cookie that hands a session to the browser.
pub struct SessionCookie {
    pub name: String,
    pub value: String,
    /// Hidden from scripts in the page.
    pub http_only: bool,
    /// Sent only with requests from this site.
    pub same_site_strict: bool,
    /// The second, since the Unix epoch, at which the browser drops it.
    pub expires: i64,
}

impl Session {
    /// The cookie for this session: named `session_id`, carrying the session
    /// id in decimal, hidden from scripts, strictly same-site, and expiring
    /// with the session.
    pub fn cookie(&self) -> (c: SessionCookie)
        ensures
            c.name@ == SESSION_COOKIE_NAME@,
            c.value@ == signed_decimal(self.id as int),
            c.http_only,
            c.same_site_strict,
            c.expires == self.expires,
    {
        SessionCookie {
            name: String::from_str(SESSION_COOKIE_NAME),
            value: i64_text(self.id),
            http_only: true,
            same_site_strict: true,
            expires: self.expires,
        }
    }
}

/// A session that expires at `expires` still holds at the second `now`.
pub open spec fn session_live(expires: int, now: int) -> bool {
    now < expires
}

/// A session opened at `opened` for a positive number of minutes, whose
/// expiry an `i64` holds, holds from that second on, for exactly that many
/// minutes, and never after.
pub proof fn law_session_lasts_its_minutes(opened: int, minutes: int, now: int)
    requires
        minutes > 0,
        opened <= now,
        i64::MIN <= session_expiry(opened, minutes) <= i64::MAX,
    ensures
        session_live(clamp_i64(session_expiry(opened, minutes)), opened),
        session_live(clamp_i64(session_expiry(opened, minutes)), now) <==> now - opened < 60
            * minutes,
{
}

impl Identity {
    /// The identity that a request's session cookie (its value, if the
    /// request has one) stands for. Without a cookie there is none; a session
    /// whose time is up is removed and reported as expired.
    pub fn from_request(session_cookie: Option<&String>, database: &Database) -> (r: Result<Option<Identity>, Error>)
        ensures
            session_cookie is None ==> r matches Ok(None),
            session_cookie is Some ==> !(r matches Ok(None)),
            r matches Ok(Some(identity)) ==> session_cookie is Some && exists|n: u32|
                identity.session_id@ == decimal(n as nat),
            r matches Err(e) ==> e is RusqliteError || e is SystemTimeError || e matches Error::USpaceError(
                USpaceError::SessionExpired,
            ),
    {
        match session_cookie {
            None => Ok(None),
            Some(value) => match Identity::from_found_session(database, database.find_session(value)) {
                Ok(identity) => Ok(Some(identity)),
                Err(e) => Err(e),
            },
        }
    }

    /// The identity that the lookup of a session stands for now: the lookup's
    /// own error when it failed; otherwise the found session read against the
    /// clock, as `from_session` does.
    pub fn from_found_session(database: &Database, found: Result<(u32, u32, i64), Error>) -> (r: Result<Identity, Error>)
        ensures
            found matches Err(e) ==> (r matches Err(e2) && e2 == e),
            found matches Ok((session_id, user_id, _)) ==> (r matches Ok(identity) ==> identity.session_id@
                == decimal(session_id as nat) && identity.user.id == user_id),
            found is Ok ==> (r matches Err(e) ==> e is RusqliteError || e is SystemTimeError
                || e matches Error::USpaceError(USpaceError::SessionExpired)),
    {
        match found {
            Err(e) => Err(e),
            Ok((session_id, user_id, expires)) => {
                let now = match clock_seconds() {
                    Ok(now) => now,
                    Err(e) => return Err(e),
                };
                Identity::from_session(database, session_id, user_id, expires, now)
            },
        }
    }

    /// The identity of a live session with the given id, given the lookup of
    /// its user's row: that user with the row's name and bio, or the lookup's
    /// own error.
    pub fn from_user_row(
        session_id: u32,
        user_id: u32,
        found: Result<(String, Option<String>), Error>,
    ) -> (r: Result<Identity, Error>)
        ensures
            found matches Ok((username, bio)) ==> (r matches Ok(identity) && identity.session_id@
                == decimal(session_id as nat) && identity.user.id == user_id
                && identity.user.username == username && identity.user.bio == bio),
            found matches Err(e) ==> (r matches Err(e2) && e2 == e),
    {
        match User::from_user_row(user_id, found) {
            Ok(user) => Ok(Identity { session_id: u32_text(session_id), user }),
            Err(e) => Err(e),
        }
    }

    /// The identity that a session found in the database stands for at the
    /// second `now`: the session's user while `now` is before the expiry;
    /// after that the session is removed and the error is `SessionExpired`.
    pub fn from_session(
        database: &Database,
        session_id: u32,
        user_id: u32,
        expires: i64,
        now: u64,
    ) -> (r: Result<Identity, Error>)
        ensures
            !session_live(expires as int, now as int) ==> r matches Err(
                Error::USpaceError(USpaceError::SessionExpired),
            ),
            session_live(expires as int, now as int) ==> match r {
                Ok(identity) => identity.session_id@ == decimal(session_id as nat)
                    && identity.user.id == user_id,
                Err(e) => e is RusqliteError,
            },
    {
        if expires > 0 && now < expires as u64 {
            Identity::from_user_row(session_id, user_id, database.find_user(user_id))
        } else {
            let _ = database.delete_session(u32_text(session_id));
            Err(Error::USpaceError(USpaceError::SessionExpired))
        }
    }

    /// Ends the session that a request's session cookie names, if it has one.
    /// A failure to remove it is ignored, as a logout always succeeds.
    pub fn clear_session(session_cookie: Option<&String>, database: &Database) {
        if let Some(value) = session_cookie {
            let _ = database.delete_session(value.clone());
        }
    }

    /// Opens a session for the user with the given name and password; there is
    /// none when no such user exists.
    pub fn login(username: &String, password: &String, database: &Database) -> (r: Result<Option<Session>, Error>)
        requires
            session_minutes_ok(database.settings().session_exp),
        ensures
            r matches Ok(Some(session)) ==> exists|now: nat|
                session.expires == clamp_i64(
                    session_expiry(now as int, database.settings().session_exp as int),
                ),
            r matches Err(e) ==> e is RusqliteError || e is SystemTimeError,
    {
        Identity::login_with(User::from_account(database.login(username, password)), database)
    }

    /// Opens a session for the user that a login lookup found: none when it
    /// found no user, a session starting now otherwise.
    pub fn login_with(found: Option<User>, database: &Database) -> (r: Result<Option<Session>, Error>)
        requires
            session_minutes_ok(database.settings().session_exp),
        ensures
            found is None ==> r matches Ok(None),
            found is Some ==> !(r matches Ok(None)),
            r matches Ok(Some(session)) ==> (found matches Some(user) && session.user == user.id),
            r matches Ok(Some(session)) ==> exists|now: nat|
                session.expires == clamp_i64(
                    session_expiry(now as int, database.settings().session_exp as int),
                ),
            r matches Err(e) ==> e is RusqliteError || e is SystemTimeError,
    {
        match found {
            Some(user) => match database.create_session(user.id) {
                Ok((id, expires)) => Ok(Some(Session { id, user: user.id, expires })),
                Err(e) => Err(e),
            },
            None => Ok(None),
        }
    }

    /// Registers a new user.
    pub fn register(username: &String, password: &String, database: &Database) -> (r: Result<(), Error>)
        ensures
            r matches Err(e) ==> e is RusqliteError,
    {
        User::create(username, password, database)
    }
}

impl User {
    /// The user with the given name and password, if there is one.
    pub fn from_login(username: &String, password: &String, database: &Database) -> (r: Option<User>) {
        User::from_account(database.login(username, password))
    }

    /// The user that a lookup by name and password found: none when the
    /// lookup failed, whatever the failure.
    pub fn from_account(found: Result<(u32, String, Option<String>), Error>) -> (r: Option<User>)
        ensures
            match found {
                Ok((id, username, bio)) => r matches Some(user) && user.id == id && user.username
                    == username && user.bio == bio,
                Err(_) => r is None,
            },
    {
        match found {
            Ok((id, username, bio)) => Some(User { id, username, bio }),
            Err(_) => None,
        }
    }

    /// Registers a new user.
    pub fn create(username: &String, password: &String, database: &Database) -> (r: Result<(), Error>)
        ensures
            r matches Err(e) ==> e is RusqliteError,
    {
        database.register(username, password)
    }

    /// The user with the given id.
    pub fn get_user(user_id: u32, database: &Database) -> (r: Result<User, Error>)
        ensures
            r matches Ok(user) ==> user.id == user_id,
            r matches Err(e) ==> e is RusqliteError,
    {
        User::from_user_row(user_id, database.find_user(user_id))
    }

    /// The user with the given id, given the lookup of its row: the row's
    /// name and bio, or the lookup's own error.
    pub fn from_user_row(user_id: u32, found: Result<(String, Option<String>), Error>) -> (r: Result<User, Error>)
        ensures
            found matches Ok((username, bio)) ==> (r matches Ok(user) && user.id == user_id
                && user.username == username && user.bio == bio),
            found matches Err(e) ==> (r matches Err(e2) && e2 == e),
    {
        match found {
            Ok((username, bio)) => Ok(User { id: user_id, username, bio }),
            Err(e) => Err(e),
        }
    }

    /// Sets this user's bio.
    pub fn update(&self, bio: &String, database: &Database) -> (r: Result<(), Error>)
        ensures
            r matches Err(e) ==> e is RusqliteError,
    {
        database.update_user(self.id, bio)
    }
}

} // verus!

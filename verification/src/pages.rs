//! What the pages show: the names of their templates, the forms they read
//! and the data they render.
use vstd::prelude::*;
use crate::auth::{Identity, Session, User};
use crate::error::describes_error;
use crate::error::Error;
use crate::messages::Message;

verus! {

/// The page templates.
#[derive(Debug, Clone, Copy)]
pub enum Templates {
    Index,
    Login,
    Register,
    MessageComponent,
    Timeline,
}

/// The name a template is registered under: the name of its variant.
pub open spec fn template_name(t: Templates) -> Seq<char> {
    match t {
        Templates::Index => "Index"@,
        Templates::Login => "Login"@,
        Templates::Register => "Register"@,
        Templates::MessageComponent => "MessageComponent"@,
        Templates::Timeline => "Timeline"@,
    }
}

impl Templates {
    /// The name the template is registered and rendered under.
    pub fn to_string(&self) -> (s: String)
        ensures
            s@ == template_name(*self),
    {
        match self {
            Templates::Index => String::from_str("Index"),
            Templates::Login => String::from_str("Login"),
            Templates::Register => String::from_str("Register"),
            Templates::MessageComponent => String::from_str("MessageComponent"),
            Templates::Timeline => String::from_str("Timeline"),
        }
    }
}

/// Two different templates are registered under two different names, so no
/// template hides another.
pub proof fn law_template_names_distinct(a: Templates, b: Templates)
    requires
        a != b,
    ensures
        template_name(a) != template_name(b),
{
    reveal_strlit("Index");
    reveal_strlit("Login");
    reveal_strlit("Register");
    reveal_strlit("MessageComponent");
    reveal_strlit("Timeline");
    match a {
        Templates::Index => assert(template_name(a)[0] == 'I'),
        Templates::Login => assert(template_name(a)[0] == 'L'),
        Templates::Register => assert(template_name(a)[0] == 'R'),
        Templates::MessageComponent => assert(template_name(a)[0] == 'M'),
        Templates::Timeline => assert(template_name(a)[0] == 'T'),
    }
    match b {
        Templates::Index => assert(template_name(b)[0] == 'I'),
        Templates::Login => assert(template_name(b)[0] == 'L'),
        Templates::Register => assert(template_name(b)[0] == 'R'),
        Templates::MessageComponent => assert(template_name(b)[0] == 'M'),
        Templates::Timeline => assert(template_name(b)[0] == 'T'),
    }
}

/// The login and registration form.
pub struct LoginInfo {
    pub username: String,
    pub password: String,
}

/// The form that posts a message.
pub struct MessageForm {
    pub message: String,
}

/// The notice shown when the messages could not be read.
pub open spec fn fetch_failed_notice() -> Seq<char> {
    "Unable to fetch messages:"@
}

/// The notice shown when a profile could not be found.
pub open spec fn missing_user_notice() -> Seq<char> {
    "Could not find user."@
}

/// The data of the front page.
pub struct IndexPage {
    pub user: User,
    pub messages: Option<Vec<Message>>,
    pub error: Option<String>,
}

impl IndexPage {
    /// The front page of `user`, given the outcome of reading the messages:
    /// the messages, or the notice that they could not be read.
    pub fn new(user: User, fetched: Result<Vec<Message>, Error>) -> (page: IndexPage)
        ensures
            page.user == user,
            match fetched {
                Ok(messages) => page.messages == Some(messages) && page.error is None,
                Err(_) => page.messages is None && (page.error matches Some(e) && e@
                    == fetch_failed_notice()),
            },
    {
        match fetched {
            Ok(messages) => IndexPage { user, messages: Some(messages), error: None },
            Err(_) => IndexPage {
                user,
                messages: None,
                error: Some(String::from_str("Unable to fetch messages:")),
            },
        }
    }
}

/// The data of a timeline: the home timeline, or the profile of a user.
pub struct TimelineData {
    pub user: User,
    pub messages: Option<Vec<Message>>,
    pub errors: Vec<String>,
    pub home: bool,
    pub profile: Option<User>,
}

impl TimelineData {
    /// The home timeline of `user`, given the outcome of reading all
    /// messages: the messages, or the notice that they could not be read.
    pub fn home(user: User, fetched: Result<Vec<Message>, Error>) -> (page: TimelineData)
        ensures
            page.user == user,
            page.home,
            page.profile is None,
            match fetched {
                Ok(messages) => page.messages == Some(messages) && page.errors@.len() == 0,
                Err(_) => page.messages is None && page.errors@.len() == 1 && page.errors@[0]@
                    == fetch_failed_notice(),
            },
    {
        let mut errors: Vec<String> = Vec::new();
        let messages = match fetched {
            Ok(messages) => Some(messages),
            Err(_) => {
                errors.push(String::from_str("Unable to fetch messages:"));
                None
            },
        };
        TimelineData { user, messages, errors, home: true, profile: None }
    }

    /// The profile page of `profile` as `viewer` sees it, given the outcomes
    /// of reading that user and that user's messages; when either failed, the
    /// notice to show instead.
    pub fn profile(
        viewer: User,
        profile: Result<User, Error>,
        messages: Result<Vec<Message>, Error>,
    ) -> (r: Result<TimelineData, String>)
        ensures
            match (profile, messages) {
                (Ok(p), Ok(ms)) => r matches Ok(page) && page.user == viewer && page.profile
                    == Some(p) && page.messages == Some(ms) && page.errors@.len() == 0
                    && !page.home,
                _ => r matches Err(notice) && notice@ == missing_user_notice(),
            },
    {
        match (profile, messages) {
            (Ok(p), Ok(ms)) => Ok(
                TimelineData {
                    user: viewer,
                    messages: Some(ms),
                    errors: Vec::new(),
                    home: false,
                    profile: Some(p),
                },
            ),
            _ => Err(String::from_str("Could not find user.")),
        }
    }

    /// Adds the notice carried by the request's error cookie, if it has one,
    /// after the notices already there.
    pub fn add_error_cookie(&mut self, cookie: Option<String>)
        ensures
            final(self).user == old(self).user,
            final(self).messages == old(self).messages,
            final(self).home == old(self).home,
            final(self).profile == old(self).profile,
            match cookie {
                Some(c) => final(self).errors@ == old(self).errors@.push(c),
                None => final(self).errors@ == old(self).errors@,
            },
    {
        if let Some(c) = cookie {
            self.errors.push(c);
        }
    }
}


/// What a page answers.
pub enum Reply {
    /// Sends the browser to another address.
    Redirect(String),
    /// Shows a form page, with a notice when there is one.
    Form(Templates, Option<String>),
    /// Reports a failure with its text.
    Failure(String),
}

/// The user a page is shown to: the identity of a signed-in request, or,
/// for anyone else, the answer that sends the browser to the login form.
pub fn signed_in(identity: Result<Option<Identity>, Error>) -> (r: Result<Identity, Reply>)
    ensures
        match identity {
            Ok(Some(i)) => r matches Ok(j) && j == i,
            _ => r matches Err(Reply::Redirect(to)) && to@ == "/login"@,
        },
{
    match identity {
        Ok(Some(i)) => Ok(i),
        _ => Err(Reply::Redirect(String::from_str("/login"))),
    }
}

/// The answer to a request for the login or the registration form: a
/// signed-in user is sent to the front page, anyone else gets the form.
pub fn form_page(identity: &Result<Option<Identity>, Error>, form: Templates) -> (r: Reply)
    ensures
        match identity {
            Ok(Some(_)) => r matches Reply::Redirect(to) && to@ == "/"@,
            _ => r matches Reply::Form(t, notice) && t == form && notice is None,
        },
{
    match identity {
        Ok(Some(_)) => Reply::Redirect(String::from_str("/")),
        _ => Reply::Form(form, None),
    }
}

/// The answer to a login attempt: with a session, the front page; without
/// one, the login form with a notice; on a failure, its text.
pub fn login_reply(outcome: &Result<Option<Session>, Error>) -> (r: Reply)
    ensures
        match outcome {
            Ok(Some(_)) => r matches Reply::Redirect(to) && to@ == "/"@,
            Ok(None) => r matches Reply::Form(t, Some(notice)) && t == Templates::Login && notice@
                == "No such user"@,
            Err(e) => r matches Reply::Failure(text) && describes_error(*e, text@),
        },
{
    match outcome {
        Ok(Some(_)) => Reply::Redirect(String::from_str("/")),
        Ok(None) => Reply::Form(Templates::Login, Some(String::from_str("No such user"))),
        Err(e) => Reply::Failure(e.to_string()),
    }
}

/// The answer to a registration: on success, the login form's address; on a
/// failure, the registration form with a notice.
pub fn register_reply(outcome: &Result<(), Error>) -> (r: Reply)
    ensures
        match outcome {
            Ok(_) => r matches Reply::Redirect(to) && to@ == "/login"@,
            Err(_) => r matches Reply::Form(t, Some(notice)) && t == Templates::Register && notice@
                == "User already exists"@,
        },
{
    match outcome {
        Ok(_) => Reply::Redirect(String::from_str("/login")),
        Err(_) => Reply::Form(Templates::Register, Some(String::from_str("User already exists"))),
    }
}

} // verus!

use unsafe_space::auth::{Identity, User};
use unsafe_space::config::Config;
use unsafe_space::error::{Error, USpaceError};
use unsafe_space::messages::{Message, MessageRow};
use unsafe_space::pages::{signed_in, IndexPage, Reply, Templates, TimelineData};

fn user(id: u32, name: &str) -> User {
    User { id, username: name.to_string(), bio: None }
}

fn message(id: u32) -> Message {
    Message::from_row(MessageRow {
        mid: id,
        uid: 2,
        username: "bob".to_string(),
        bio: Some("hi".to_string()),
        content: "text".to_string(),
        timestamp: 99,
    })
}

#[test]
fn template_names() {
    assert_eq!(Templates::Index.to_string(), "Index");
    assert_eq!(Templates::Login.to_string(), "Login");
    assert_eq!(Templates::Register.to_string(), "Register");
    assert_eq!(Templates::MessageComponent.to_string(), "MessageComponent");
    assert_eq!(Templates::Timeline.to_string(), "Timeline");
}

#[test]
fn message_from_row() {
    let m = message(5);
    assert_eq!(m.id, 5);
    assert_eq!(m.sender.id, 2);
    assert_eq!(m.sender.username, "bob");
    assert_eq!(m.sender.bio.as_deref(), Some("hi"));
    assert_eq!(m.content, "text");
    assert_eq!(m.timestamp, 99);
}

#[test]
fn first_found() {
    let m = Message::first_found(Ok(vec![message(1), message(2)])).ok().unwrap();
    assert_eq!(m.id, 1);
    match Message::first_found(Ok(Vec::new())) {
        Err(Error::USpaceError(USpaceError::FetchError(s))) => assert_eq!(s, "Message not found"),
        _ => panic!("nothing was found"),
    }
    assert!(matches!(
        Message::first_found(Err(Error::USpaceError(USpaceError::SessionExpired))),
        Err(Error::USpaceError(USpaceError::SessionExpired))
    ));
}

#[test]
fn messages_from_rows_keep_order() {
    let rows: Vec<MessageRow> = (0..5u32)
        .map(|i| MessageRow {
            mid: i,
            uid: 10 + i,
            username: format!("u{}", i),
            bio: None,
            content: format!("c{}", i),
            timestamp: i as i64,
        })
        .collect();
    let v = Message::from_rows(rows);
    assert_eq!(v.len(), 5);
    for (i, m) in v.iter().enumerate() {
        assert_eq!(m.id, i as u32);
        assert_eq!(m.sender.id, 10 + i as u32);
        assert_eq!(m.content, format!("c{}", i));
    }
    assert!(Message::from_rows(Vec::new()).is_empty());
}

#[test]
fn only_signed_in_users_see_pages() {
    let ident = Identity { session_id: "4".to_string(), user: user(1, "a") };
    assert_eq!(signed_in(Ok(Some(ident))).ok().map(|i| i.session_id), Some("4".to_string()));
    assert!(matches!(signed_in(Ok(None)), Err(Reply::Redirect(ref to)) if to == "/login"));
    assert!(matches!(
        signed_in(Err(Error::USpaceError(USpaceError::SessionExpired))),
        Err(Reply::Redirect(ref to)) if to == "/login"
    ));
}

#[test]
fn home_timeline() {
    let page = TimelineData::home(user(1, "a"), Ok(vec![message(3)]));
    assert!(page.home);
    assert!(page.profile.is_none());
    assert_eq!(page.messages.as_ref().map(|v| v.len()), Some(1));
    assert!(page.errors.is_empty());
    let failed = TimelineData::home(user(1, "a"), Err(Error::USpaceError(USpaceError::SessionExpired)));
    assert!(failed.messages.is_none());
    assert_eq!(failed.errors, vec!["Unable to fetch messages:".to_string()]);
}

#[test]
fn profile_timeline() {
    let page = TimelineData::profile(user(1, "a"), Ok(user(2, "b")), Ok(vec![message(4)])).ok().unwrap();
    assert!(!page.home);
    assert_eq!(page.user.id, 1);
    assert_eq!(page.profile.as_ref().map(|p| p.id), Some(2));
    let missing = TimelineData::profile(
        user(1, "a"),
        Err(Error::USpaceError(USpaceError::SessionExpired)),
        Ok(Vec::new()),
    );
    assert_eq!(missing.err(), Some("Could not find user.".to_string()));
}

#[test]
fn error_cookie_is_added_last() {
    let mut page = TimelineData::home(user(1, "a"), Err(Error::USpaceError(USpaceError::SessionExpired)));
    page.add_error_cookie(Some("Could not find user.".to_string()));
    assert_eq!(page.errors, vec!["Unable to fetch messages:".to_string(), "Could not find user.".to_string()]);
    page.add_error_cookie(None);
    assert_eq!(page.errors.len(), 2);
}

#[test]
fn index_page() {
    let page = IndexPage::new(user(1, "a"), Ok(Vec::new()));
    assert!(page.error.is_none());
    let failed = IndexPage::new(user(1, "a"), Err(Error::USpaceError(USpaceError::SessionExpired)));
    assert_eq!(failed.error.as_deref(), Some("Unable to fetch messages:"));
    assert!(failed.messages.is_none());
}

#[test]
fn error_texts() {
    assert_eq!(USpaceError::SessionExpired.to_string(), "Session Expired");
    assert_eq!(Error::USpaceError(USpaceError::SessionExpired).to_string(), "Session Expired");
    assert_eq!(USpaceError::SendMessageError("x".to_string()).to_string(), "x");
    assert_eq!(USpaceError::FetchError("y".to_string()).to_string(), "y");
    let nested = USpaceError::LoginError(Box::new(Error::USpaceError(USpaceError::FetchError("z".to_string()))));
    assert_eq!(nested.to_string(), "z");
    let io = Error::from(std::io::Error::new(std::io::ErrorKind::Other, "disk"));
    assert_eq!(io.to_string(), "IO error: disk");
    let from = Error::from(USpaceError::SessionExpired);
    assert!(matches!(from, Error::USpaceError(USpaceError::SessionExpired)));
}

#[test]
fn default_config() {
    let c = Config::with_paths("/srv/static".to_string(), "/etc/mime.types".to_string());
    assert_eq!(c.host, "0.0.0.0");
    assert_eq!(c.port, 8080);
    assert!(!c.force_recreate_db);
    assert_eq!(c.session_exp, 60);
    assert_eq!(c.static_path, "/srv/static");
    assert_eq!(c.log_level, "INFO");
    assert_eq!(c.logging_template, "%r %s %a");
    assert_eq!(c.mimetypes_path, "/etc/mime.types");
}

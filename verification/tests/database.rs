use unsafe_space::auth::{Identity, User};
use unsafe_space::config::Config;
use unsafe_space::error::{Error, USpaceError};
use unsafe_space::messages::Message;
use unsafe_space::store::{clock_seconds, gather_row, Database};
use unsafe_space::messages::MessageRow;

fn fresh() -> Database {
    let mut db = Database::open(":memory:", Config::with_paths("./static".to_string(), "/etc/mime.types".to_string())).ok().expect("in-memory database");
    assert!(db.initialize().is_ok());
    db
}

fn name(s: &str) -> String {
    s.to_string()
}

#[test]
fn register_and_login() {
    let db = fresh();
    assert!(User::create(&name("alice"), &name("pw"), &db).is_ok());
    let user = User::from_login(&name("alice"), &name("pw"), &db).expect("alice logs in");
    assert_eq!(user.username, "alice");
    assert_eq!(user.bio, None);
    assert!(User::from_login(&name("alice"), &name("wrong"), &db).is_none());
    assert!(User::from_login(&name("nobody"), &name("pw"), &db).is_none());
    // the name is taken now
    assert!(matches!(Identity::register(&name("alice"), &name("x"), &db), Err(Error::RusqliteError(_))));
}

#[test]
fn default_account_exists() {
    let db = fresh();
    assert!(User::from_login(&name("otus"), &name("otus"), &db).is_some());
}

#[test]
fn get_and_update_user() {
    let db = fresh();
    User::create(&name("carol"), &name("pw"), &db).ok().unwrap();
    let carol = User::from_login(&name("carol"), &name("pw"), &db).unwrap();
    carol.update(&name("hello world"), &db).ok().unwrap();
    let again = User::get_user(carol.id, &db).ok().unwrap();
    assert_eq!(again.id, carol.id);
    assert_eq!(again.username, "carol");
    assert_eq!(again.bio.as_deref(), Some("hello world"));
    assert!(matches!(User::get_user(999_999, &db), Err(Error::RusqliteError(_))));
}

#[test]
fn sessions_round_trip() {
    let db = fresh();
    User::create(&name("dave"), &name("pw"), &db).ok().unwrap();
    let session = Identity::login(&name("dave"), &name("pw"), &db).ok().unwrap().expect("a session");
    assert!(Identity::login(&name("dave"), &name("nope"), &db).ok().unwrap().is_none());
    let cookie = session.id.to_string();
    let (id, user, expires) = db.find_session(&cookie).ok().unwrap();
    assert_eq!(id as i64, session.id);
    assert_eq!(expires, session.expires);
    let identity = Identity::from_request(Some(&cookie), &db).ok().unwrap().expect("logged in");
    assert_eq!(identity.session_id, cookie);
    assert_eq!(identity.user.id, user);
    assert_eq!(identity.user.username, "dave");
    assert!(matches!(Identity::from_request(None, &db), Ok(None)));
    // logging out removes the session
    Identity::clear_session(Some(&cookie), &db);
    assert!(matches!(Identity::from_request(Some(&cookie), &db), Err(Error::RusqliteError(_))));
}

#[test]
fn session_lasts_configured_minutes() {
    let db = fresh();
    let (id, expires) = db.create_session_at(1, 1_000).ok().unwrap();
    assert_eq!(expires, 1_000 + 60 * 60);
    let (found_id, found_user, found_expires) = db.find_session(&id.to_string()).ok().unwrap();
    assert_eq!((found_id as i64, found_user, found_expires), (id, 1, expires));
}

#[test]
fn expired_session_is_removed() {
    let db = fresh();
    User::create(&name("erin"), &name("pw"), &db).ok().unwrap();
    let erin = User::from_login(&name("erin"), &name("pw"), &db).unwrap();
    let (id, expires) = db.create_session_at(erin.id, 100).ok().unwrap();
    let live = Identity::from_session(&db, id as u32, erin.id, expires, (expires - 1) as u64).ok().unwrap();
    assert_eq!(live.session_id, id.to_string());
    assert_eq!(live.user.username, "erin");
    assert!(matches!(
        Identity::from_session(&db, id as u32, erin.id, expires, expires as u64),
        Err(Error::USpaceError(USpaceError::SessionExpired))
    ));
    assert!(db.find_session(&id.to_string()).is_err());
    // a cookie for a session that lies in the past is refused the same way
    let (old_id, _) = db.create_session_at(erin.id, 0).ok().unwrap();
    assert!(matches!(
        Identity::from_request(Some(&old_id.to_string()), &db),
        Err(Error::USpaceError(USpaceError::SessionExpired))
    ));
}

#[test]
fn messages_round_trip() {
    let db = fresh();
    User::create(&name("frank"), &name("pw"), &db).ok().unwrap();
    let frank = User::from_login(&name("frank"), &name("pw"), &db).unwrap();
    let otus = User::from_login(&name("otus"), &name("otus"), &db).unwrap();
    match Message::send_message(&frank, &String::new(), &db) {
        Err(Error::USpaceError(USpaceError::SendMessageError(s))) => {
            assert_eq!(s, "Empty message not allowed.")
        }
        _ => panic!("an empty message is refused"),
    }
    db.create_message_at(frank.id, &name("first"), 10).ok().unwrap();
    db.create_message_at(otus.id, &name("second"), 20).ok().unwrap();
    assert!(Message::send_message(&frank, &name("third"), &db).is_ok());
    let all = Message::all_messages(&db).ok().unwrap();
    assert_eq!(all.len(), 3);
    assert_eq!(all[0].content, "third");
    assert_eq!(all[1].content, "second");
    assert_eq!(all[1].sender.username, "otus");
    assert_eq!(all[2].content, "first");
    assert_eq!(all[2].timestamp, 10);
    let mine = Message::by_user(&db, frank.id).ok().unwrap();
    assert_eq!(mine.len(), 2);
    assert!(mine.iter().all(|m| m.sender.id == frank.id));
    let one = Message::get_message(&db, all[1].id).ok().unwrap();
    assert_eq!(one.content, "second");
    one.delete(frank.id, &db).ok().unwrap();
    match Message::get_message(&db, all[1].id) {
        Err(Error::USpaceError(USpaceError::FetchError(s))) => assert_eq!(s, "Message not found"),
        _ => panic!("the message is gone"),
    }
    assert_eq!(Message::all_messages(&db).ok().unwrap().len(), 2);
}

#[test]
fn dropping_tables() {
    let mut db = fresh();
    assert!(db.drop().is_ok());
    assert!(matches!(Message::all_messages(&db), Err(Error::RusqliteError(_))));
    assert!(db.initialize().is_ok());
    assert_eq!(Message::all_messages(&db).ok().unwrap().len(), 0);
}

#[test]
fn database_error_text() {
    let mut db = fresh();
    db.drop().ok().unwrap();
    match db.find_user(1) {
        Err(e) => assert!(e.to_string().starts_with("SQLite error: ")),
        Ok(_) => panic!("there is no table"),
    }
}

#[test]
fn login_session_expires_after_configured_minutes() {
    let db = fresh();
    User::create(&name("gina"), &name("pw"), &db).ok().unwrap();
    let before = std::time::SystemTime::now()
        .duration_since(std::time::UNIX_EPOCH)
        .unwrap()
        .as_secs() as i64;
    let session = Identity::login(&name("gina"), &name("pw"), &db).ok().unwrap().unwrap();
    let after = std::time::SystemTime::now()
        .duration_since(std::time::UNIX_EPOCH)
        .unwrap()
        .as_secs() as i64;
    assert!(session.expires >= before + 3600 && session.expires <= after + 3600);
}

#[test]
fn expiry_is_held_to_the_range_of_i64() {
    let db = fresh();
    let (_, expires) = db.create_session_at(1, u64::MAX).ok().unwrap();
    assert_eq!(expires, i64::MAX);
    let (_, expires) = db.create_session_at(1, i64::MAX as u64 - 10).ok().unwrap();
    assert_eq!(expires, i64::MAX);
}

#[test]
fn login_with_lookup_results() {
    let db = fresh();
    assert!(matches!(Identity::login_with(None, &db), Ok(None)));
    let otus = User::from_login(&name("otus"), &name("otus"), &db);
    assert!(otus.is_some());
    let otus_id = otus.as_ref().unwrap().id;
    let session = Identity::login_with(otus, &db).ok().unwrap().expect("a session");
    assert_eq!(session.user, otus_id);
    let (_, user, expires) = db.find_session(&session.id.to_string()).ok().unwrap();
    assert_eq!(expires, session.expires);
    assert_eq!(User::get_user(user, &db).ok().unwrap().username, "otus");
}

#[test]
fn clock_reads_seconds_since_epoch() {
    let now = clock_seconds().ok().unwrap();
    let std_now = std::time::SystemTime::now()
        .duration_since(std::time::UNIX_EPOCH)
        .unwrap()
        .as_secs();
    assert!(now <= std_now && std_now - now <= 2);
}

#[test]
fn failed_session_lookup_is_passed_on() {
    let db = fresh();
    assert!(matches!(
        Identity::from_found_session(&db, Err(Error::USpaceError(USpaceError::FetchError("x".to_string())))),
        Err(Error::USpaceError(USpaceError::FetchError(_)))
    ));
    assert!(matches!(Identity::from_request(Some(&name("12345")), &db), Err(Error::RusqliteError(_))));
}

#[test]
fn gathering_rows() {
    let row = |i: u32| MessageRow {
        mid: i,
        uid: 1,
        username: "u".to_string(),
        bio: None,
        content: "c".to_string(),
        timestamp: 0,
    };
    let mut found = Vec::new();
    assert!(matches!(gather_row(&mut found, Ok(Some(row(1)))), Ok(true)));
    assert!(matches!(gather_row(&mut found, Ok(Some(row(2)))), Ok(true)));
    assert!(matches!(gather_row(&mut found, Ok(None)), Ok(false)));
    assert_eq!(found.iter().map(|r| r.mid).collect::<Vec<_>>(), vec![1, 2]);
}

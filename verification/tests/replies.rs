use unsafe_space::auth::{Identity, Session, User};
use unsafe_space::error::{Error, USpaceError};
use unsafe_space::pages::{form_page, login_reply, register_reply, Reply, Templates};

fn identity() -> Identity {
    Identity { session_id: "1".to_string(), user: User { id: 1, username: "a".to_string(), bio: None } }
}

#[test]
fn forms_for_visitors_only() {
    assert!(matches!(form_page(&Ok(Some(identity())), Templates::Login), Reply::Redirect(ref to) if to == "/"));
    assert!(matches!(form_page(&Ok(None), Templates::Login), Reply::Form(Templates::Login, None)));
    assert!(matches!(
        form_page(&Err(Error::USpaceError(USpaceError::SessionExpired)), Templates::Register),
        Reply::Form(Templates::Register, None)
    ));
}

#[test]
fn login_replies() {
    let session = Session { id: 3, user: 1, expires: 100 };
    assert!(matches!(login_reply(&Ok(Some(session))), Reply::Redirect(ref to) if to == "/"));
    assert!(matches!(login_reply(&Ok(None)), Reply::Form(Templates::Login, Some(ref n)) if n == "No such user"));
    assert!(matches!(
        login_reply(&Err(Error::USpaceError(USpaceError::SessionExpired))),
        Reply::Failure(ref t) if t == "Session Expired"
    ));
}

#[test]
fn register_replies() {
    assert!(matches!(register_reply(&Ok(())), Reply::Redirect(ref to) if to == "/login"));
    assert!(matches!(
        register_reply(&Err(Error::USpaceError(USpaceError::SessionExpired))),
        Reply::Form(Templates::Register, Some(ref n)) if n == "User already exists"
    ));
}

#[test]
fn session_cookie_attributes() {
    let c = Session { id: -12, user: 1, expires: 1700000000 }.cookie();
    assert_eq!(c.name, "session_id");
    assert_eq!(c.value, "-12");
    assert!(c.http_only);
    assert!(c.same_site_strict);
    assert_eq!(c.expires, 1700000000);
    assert_eq!(unsafe_space::auth::SESSION_COOKIE_NAME, "session_id");
}

#[test]
fn identity_from_user_row() {
    let i = Identity::from_user_row(7, 3, Ok(("ann".to_string(), Some("bio".to_string())))).ok().unwrap();
    assert_eq!(i.session_id, "7");
    assert_eq!(i.user.id, 3);
    assert_eq!(i.user.username, "ann");
    assert_eq!(i.user.bio.as_deref(), Some("bio"));
    assert!(matches!(
        Identity::from_user_row(7, 3, Err(Error::USpaceError(USpaceError::SessionExpired))),
        Err(Error::USpaceError(USpaceError::SessionExpired))
    ));
    let u = User::from_user_row(9, Ok(("bo".to_string(), None))).ok().unwrap();
    assert_eq!((u.id, u.username.as_str(), u.bio), (9, "bo", None));
}

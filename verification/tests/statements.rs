use unsafe_space::sql;

#[test]
fn user_statements() {
    assert_eq!(sql::find_user_statement(42), "SELECT username, bio FROM Users WHERE id=42");
    assert_eq!(
        sql::login_statement("alice", "pw"),
        "SELECT id, username, bio FROM Users WHERE username='alice' AND password='pw'"
    );
    assert_eq!(
        sql::register_statement("bob", "secret"),
        "INSERT INTO users (username, password) VALUES ('bob', 'secret')"
    );
    assert_eq!(
        sql::update_user_statement(7, "hello"),
        "Update Users SET bio='hello' WHERE id=7"
    );
}

#[test]
fn session_statements() {
    assert_eq!(
        sql::find_session_statement("15"),
        "SELECT id, user, expires FROM Sessions WHERE id=15"
    );
    assert_eq!(
        sql::create_session_statement(3, 1700000000),
        "INSERT INTO Sessions (user, expires) VALUES ('3', 1700000000)"
    );
    assert_eq!(
        sql::create_session_statement(0, -60),
        "INSERT INTO Sessions (user, expires) VALUES ('0', -60)"
    );
    assert_eq!(sql::delete_session_statement("9"), "DELETE FROM Sessions where id=9");
}

#[test]
fn message_statements() {
    assert_eq!(
        sql::create_message_statement(4294967295, "hi there", 12),
        "INSERT INTO Messages (user, content, timestamp) VALUES (4294967295, 'hi there', 12)"
    );
    assert_eq!(sql::delete_message_statement(10), "DELETE FROM Messages WHERE id=10");
}

#[test]
fn search_statements() {
    let base = "SELECT *, M.id as mid, U.id as uid FROM Messages as M LEFT JOIN Users AS U ON U.id=M.user ";
    assert_eq!(
        sql::search_messages_statement(None, None),
        format!("{} ORDER BY timestamp DESC", base)
    );
    assert_eq!(
        sql::search_messages_statement(Some(5), None),
        format!("{}WHERE M.user='5' ORDER BY timestamp DESC", base)
    );
    assert_eq!(
        sql::search_messages_statement(None, Some(8)),
        format!("{}WHERE M.id='8' ORDER BY timestamp DESC", base)
    );
    assert_eq!(
        sql::search_messages_statement(Some(5), Some(8)),
        format!("{}WHERE M.user='5' AND M.id='8' ORDER BY timestamp DESC", base)
    );
}

#[test]
fn joining() {
    let parts = vec!["a".to_string(), "bc".to_string(), "".to_string()];
    assert_eq!(sql::join_strings(&parts, ", "), "a, bc, ");
    assert_eq!(sql::join_strings(&Vec::new(), ", "), "");
    assert_eq!(sql::join_strings(&vec!["x".to_string()], ", "), "x");
}

use minilink::sql::{
    escape_quotes, delete_user_statement, insert_user_statement, lookup_name_statement, name_from_lookup,
    rename_user_statement, set_radio_statement, LIST_USERS_SQL, SETUP_SQL,
};

#[test]
fn statements_name_the_user() {
    assert_eq!(
        insert_user_statement("n", "a"),
        "INSERT OR IGNORE INTO users (username, address) VALUES ('n', 'a')"
    );
    assert_eq!(rename_user_statement("n", "a"), "UPDATE users SET username = 'n' WHERE address = 'a'");
    assert_eq!(set_radio_statement(true, "a"), "UPDATE users SET is_radio = 1 WHERE address = 'a'");
    assert_eq!(set_radio_statement(false, "a"), "UPDATE users SET is_radio = 0 WHERE address = 'a'");
    assert_eq!(delete_user_statement("a"), "DELETE FROM users WHERE address = 'a'");
    assert_eq!(lookup_name_statement("a"), "SELECT username FROM users WHERE address = 'a'");
    assert_eq!(LIST_USERS_SQL, "SELECT username, address, is_radio FROM users");
}

#[test]
fn setup_creates_and_empties_users() {
    assert!(SETUP_SQL.contains("CREATE TABLE IF NOT EXISTS users ("));
    assert!(SETUP_SQL.contains("username TEXT NOT NULL UNIQUE,"));
    assert!(SETUP_SQL.contains("is_radio BOOL NOT NULL DEFAULT 0"));
    assert!(SETUP_SQL.trim_end().ends_with("DELETE FROM users;"));
}

#[test]
fn name_from_rows_takes_the_last() {
    assert_eq!(name_from_lookup(&vec!["x".to_string(), "y".to_string()], "d"), "y");
    assert_eq!(name_from_lookup(&Vec::new(), "d"), "d");
}

#[test]
fn quotes_are_doubled() {
    assert_eq!(escape_quotes("it's"), "it''s");
    assert_eq!(escape_quotes("''"), "''''");
    assert_eq!(escape_quotes("plain"), "plain");
    assert_eq!(
        rename_user_statement("O'Hara", "a'b"),
        "UPDATE users SET username = 'O''Hara' WHERE address = 'a''b'"
    );
    assert_eq!(
        insert_user_statement("x'", "y"),
        "INSERT OR IGNORE INTO users (username, address) VALUES ('x''', 'y')"
    );
    assert_eq!(delete_user_statement("'"), "DELETE FROM users WHERE address = ''''");
}

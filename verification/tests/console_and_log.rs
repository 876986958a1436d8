use minilink::console::{
    connection_line_text, parse_console_command, unknown_reply_text, ConsoleCommand,
    CONSOLE_GREETING, HELP_TEXT, LOG_SAVED_NOTICE, SAVED_LOG_PATH, SHUTDOWN_NOTICE, STATUS_REPLY,
};
use minilink::journal::{format_log_line, log, log_at};

#[test]
fn console_commands() {
    assert_eq!(parse_console_command("status"), ConsoleCommand::Status);
    assert_eq!(parse_console_command("  connections \n"), ConsoleCommand::Connections);
    assert_eq!(parse_console_command("exit"), ConsoleCommand::Exit);
    assert_eq!(parse_console_command("help"), ConsoleCommand::Help);
    assert_eq!(parse_console_command("save_log"), ConsoleCommand::SaveLog);
    assert_eq!(parse_console_command(" Status "), ConsoleCommand::Unknown("Status".to_string()));
}

#[test]
fn console_texts() {
    assert_eq!(unknown_reply_text("foo"), "Unknown command: foo");
    assert_eq!(STATUS_REPLY, "Server ok");
    assert_eq!(SHUTDOWN_NOTICE, "Shutting down server...");
    assert_eq!(CONSOLE_GREETING, "Server console initialized. Type commands here:");
    assert_eq!(SAVED_LOG_PATH, "saved.log");
    assert_eq!(LOG_SAVED_NOTICE, "Log saved to saved.log");
    assert_eq!(HELP_TEXT.lines().count(), 6);
    assert_eq!(HELP_TEXT.lines().next(), Some("Available commands:"));
}

#[test]
fn connection_lines() {
    assert_eq!(
        connection_line_text("Alice", "1.2.3.4:5", 1),
        "Username: Alice, Address: 1.2.3.4:5, Is Radio: 1"
    );
    assert_eq!(connection_line_text("B", "x", 0), "Username: B, Address: x, Is Radio: 0");
    assert_eq!(connection_line_text("B", "x", -12), "Username: B, Address: x, Is Radio: -12");
}

#[test]
fn log_lines() {
    assert_eq!(
        format_log_line("T", "1.2.3.4:5", None, "Accepted"),
        "[T]: 1.2.3.4:5: Accepted\n"
    );
    assert_eq!(
        format_log_line("T", "1.2.3.4:5", Some("Alice"), "hi"),
        "[T]: 1.2.3.4:5:Alice: hi\n"
    );
    assert_eq!(format_log_line("T", "a", Some(""), "m"), "[T]: a:: m\n");
}

#[test]
fn log_is_stamped_with_the_clock() {
    let line = log("hello".to_string(), "1.2.3.4:5", Some("Alice")).unwrap();
    assert!(line.starts_with('['));
    assert!(line.ends_with("]: 1.2.3.4:5:Alice: hello\n"));
    assert!(line.contains("UTC"));
    assert!(line.len() > "[]: 1.2.3.4:5:Alice: hello\n".len());
}

#[test]
fn log_at_renders_the_instant() {
    assert_eq!(
        log_at("m".to_string(), "a", None, 0, 0),
        Some("[1970-01-01 00:00:00 UTC]: a: m\n".to_string())
    );
    assert_eq!(
        log_at("m".to_string(), "a", Some("N"), 86_400, 500_000_000),
        Some("[1970-01-02 00:00:00.500 UTC]: a:N: m\n".to_string())
    );
    assert_eq!(log_at("m".to_string(), "a", None, u64::MAX, 0), None);
    assert_eq!(log_at("m".to_string(), "a", None, i64::MAX as u64, 0), None);
}

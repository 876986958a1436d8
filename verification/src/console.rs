//! The server's operator console: the commands it understands and the text
//! it prints.
use vstd::prelude::*;
use crate::text::{decimal, decimal_text, trim, trimmed};

verus! {

broadcast use vstd::string::group_string_axioms;

/// Printed once the console is reading commands.
pub const CONSOLE_GREETING: &'static str = "Server console initialized. Type commands here:";

/// The answer to `status`.
pub const STATUS_REPLY: &'static str = "Server ok";

/// Printed before the server exits on `exit`.
pub const SHUTDOWN_NOTICE: &'static str = "Shutting down server...";

/// The answer to `help`, one command per line.
pub const HELP_TEXT: &'static str = "Available commands:\nstatus - Check server status\nconnections - List connected clients\nexit - Shut down the server\nhelp - Show this help message\nsave_log - Save the current log to saved.log";

/// Where `save_log` copies the log file.
pub const SAVED_LOG_PATH: &'static str = "saved.log";

/// Printed once `save_log` has copied the log.
pub const LOG_SAVED_NOTICE: &'static str = "Log saved to saved.log";

/// A command typed at the server console.
#[derive(Debug, PartialEq, Eq)]
pub enum ConsoleCommand {
    Status,
    Connections,
    Exit,
    Help,
    SaveLog,
    /// Anything else, as typed (trimmed).
    Unknown(String),
}

/// The mathematical form of a `ConsoleCommand`.
pub enum CommandView {
    Status,
    Connections,
    Exit,
    Help,
    SaveLog,
    Unknown(Seq<char>),
}

impl View for ConsoleCommand {
    type V = CommandView;

    open spec fn view(&self) -> CommandView {
        match self {
            ConsoleCommand::Status => CommandView::Status,
            ConsoleCommand::Connections => CommandView::Connections,
            ConsoleCommand::Exit => CommandView::Exit,
            ConsoleCommand::Help => CommandView::Help,
            ConsoleCommand::SaveLog => CommandView::SaveLog,
            ConsoleCommand::Unknown(c) => CommandView::Unknown(c@),
        }
    }
}

/// The command that the console line `line` names: the line without
/// surrounding whitespace, compared with the command words.
pub open spec fn command_of(line: Seq<char>) -> CommandView {
    let c = trimmed(line);
    if c == "status"@ {
        CommandView::Status
    } else if c == "connections"@ {
        CommandView::Connections
    } else if c == "exit"@ {
        CommandView::Exit
    } else if c == "help"@ {
        CommandView::Help
    } else if c == "save_log"@ {
        CommandView::SaveLog
    } else {
        CommandView::Unknown(c)
    }
}

/// The command that the console line `line` names.
pub fn parse_console_command(line: &str) -> (r: ConsoleCommand)
    ensures
        r@ == command_of(line@),
{
    let c = trim(line);
    if c == String::from_str("status") {
        ConsoleCommand::Status
    } else if c == String::from_str("connections") {
        ConsoleCommand::Connections
    } else if c == String::from_str("exit") {
        ConsoleCommand::Exit
    } else if c == String::from_str("help") {
        ConsoleCommand::Help
    } else if c == String::from_str("save_log") {
        ConsoleCommand::SaveLog
    } else {
        ConsoleCommand::Unknown(c)
    }
}

/// The answer to a command the console does not know.
pub open spec fn unknown_reply(command: Seq<char>) -> Seq<char> {
    "Unknown command: "@ + command
}

/// The answer to a command the console does not know.
pub fn unknown_reply_text(command: &str) -> (r: String)
    ensures
        r@ == unknown_reply(command@),
{
    let mut r = String::from_str("Unknown command: ");
    r.append(command);
    r
}

/// The line that `connections` prints for one registered user.
pub open spec fn connection_line(username: Seq<char>, address: Seq<char>, is_radio: int) -> Seq<char> {
    "Username: "@ + username + ", Address: "@ + address + ", Is Radio: "@ + decimal(is_radio)
}

/// The line that `connections` prints for one registered user.
pub fn connection_line_text(username: &str, address: &str, is_radio: i64) -> (r: String)
    ensures
        r@ == connection_line(username@, address@, is_radio as int),
{
    let mut r = String::from_str("Username: ");
    r.append(username);
    r.append(", Address: ");
    r.append(address);
    r.append(", Is Radio: ");
    let flag = decimal_text(is_radio);
    r.append(flag.as_str());
    r
}

} // verus!

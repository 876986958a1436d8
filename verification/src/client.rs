//! The client's side of the link: what it prints, and what it does with
//! each chunk that it reads from the server.
use vstd::prelude::*;
use vstd::utf8::{decode_utf8, valid_utf8};
use crate::protocol::{incoming, incoming_text};
use crate::session::{ReadEvent, ReadEventView};

verus! {

broadcast use vstd::string::group_string_axioms;

/// Printed once the TLS handshake with the server has completed.
pub const HANDSHAKE_DONE: &'static str = "Mutual TLS Handshake successful!";

/// Printed once the client reads lines to send.
pub const READY_NOTICE: &'static str =
    "Authenticated successfully. Type messages below to log to the server:";

/// The prompt shown before each line is typed.
pub const PROMPT: &'static str = "msg> ";

/// Printed when the server closes the connection.
pub const SERVER_CLOSED_NOTICE: &'static str = "\nServer closed the connection.";

/// Printed when a line could not be sent.
pub const SEND_FAILED_NOTICE: &'static str = "Failed to send data to server. Connection dropped.";

/// Printed before the client connects to `address`.
pub open spec fn connecting(address: Seq<char>) -> Seq<char> {
    "Connecting to server at "@ + address + "..."@
}

/// Printed before the client connects to `address`.
pub fn connecting_text(address: &str) -> (r: String)
    ensures
        r@ == connecting(address@),
{
    let mut r = String::from_str("Connecting to server at ");
    r.append(address);
    r.append("...");
    r
}

/// Printed when reading from the server failed with the error `error`.
pub open spec fn read_failed(error: Seq<char>) -> Seq<char> {
    "\nError reading from server: "@ + error
}

/// Printed when reading from the server failed with the error `error`.
pub fn read_failed_text(error: &str) -> (r: String)
    ensures
        r@ == read_failed(error@),
{
    let mut r = String::from_str("\nError reading from server: ");
    r.append(error);
    r
}

/// What the client does after a read from the server.
#[derive(Debug, PartialEq, Eq)]
pub enum ClientStep {
    /// Print the text (the chunk received, then the prompt).
    Show(String),
    /// The server closed the connection: print the notice and exit with
    /// status 0.
    Closed,
    /// Reading failed: print the error and exit with status 1.
    Failed,
}

/// The mathematical form of a `ClientStep`.
pub enum ClientView {
    Show(Seq<char>),
    Closed,
    Failed,
}

impl View for ClientStep {
    type V = ClientView;

    open spec fn view(&self) -> ClientView {
        match self {
            ClientStep::Show(t) => ClientView::Show(t@),
            ClientStep::Closed => ClientView::Closed,
            ClientStep::Failed => ClientView::Failed,
        }
    }
}

/// What the client does after reading `event` from the server.
pub open spec fn client_step_of(event: ReadEventView) -> ClientView {
    match event {
        ReadEventView::Closed => ClientView::Closed,
        ReadEventView::Failed => ClientView::Failed,
        ReadEventView::Data(bytes) => ClientView::Show(incoming(bytes)),
    }
}

/// What the client does after reading `event` from the server.
pub fn on_server_read(event: &ReadEvent) -> (r: ClientStep)
    ensures
        r@ == client_step_of(event@),
        event@ matches ReadEventView::Data(b) ==> (valid_utf8(b) ==> r@ == ClientView::Show(
            decode_utf8(b) + PROMPT@,
        )),
{
    match event {
        ReadEvent::Closed => ClientStep::Closed,
        ReadEvent::Failed => ClientStep::Failed,
        ReadEvent::Data(bytes) => ClientStep::Show(incoming_text(bytes.as_slice())),
    }
}

/// The exit status for a client that stops after `step`.
pub open spec fn exit_status(step: ClientView) -> Option<i32> {
    match step {
        ClientView::Closed => Some(0),
        ClientView::Failed => Some(1),
        ClientView::Show(_) => None,
    }
}

/// The exit status for a client that stops after `step`, or `None` where it
/// goes on.
pub fn exit_code(step: &ClientStep) -> (r: Option<i32>)
    ensures
        r == exit_status(step@),
{
    match step {
        ClientStep::Closed => Some(0),
        ClientStep::Failed => Some(1),
        ClientStep::Show(_) => None,
    }
}

} // verus!
